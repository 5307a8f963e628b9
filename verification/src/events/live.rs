//! Live dashboard events: the pub/sub contract between master replicas.
//!
//! These carry notice that something changed to whichever replicas hold an
//! open `Watch*` stream; a watcher reloads from the database when it sees one.
use crate::clock::{chrono_from_micros, chrono_represents_micros, Timestamp};
use crate::entities::certificate::CertificateStatus;
use crate::entities::health::{
    PodHealthRecordEntity, PodHealthStatus, ServerHealthRecordEntity, ServerHealthStatus,
};
use vstd::prelude::*;

verus! {

/// The single pub/sub channel every replica subscribes to.
pub const LIVE_CHANNEL: &'static str = "guru:orchestration:live";

/// **Live event.**
#[derive(Debug, Clone)]
pub enum LiveMessage {
    /// Anything the dashboard renders for a canvas changed.
    CanvasChanged {
        canvas: String,
        kind: CanvasChangeKind,
        /// The records the change is about.
        ids: Vec<String>,
    },
    /// A server's rollout state or a tree's derivation moved.
    RolloutChanged { scope: RolloutScope },
    /// One accepted `server_health_record` row.
    ServerHealth {
        server: String,
        canvas: String,
        record: ServerHealthLive,
        /// Whether the server's stored `health_status` changed with it.
        status_changed: bool,
    },
    /// A batch of pod health rows written in one statement.
    NodeHealth { records: Vec<NodeHealthLive> },
    /// A `certificate` row changed status or version.
    CertificateChanged {
        certificate: String,
        status: CertificateStatus,
        not_after_unix_secs: Option<i64>,
        error: Option<String>,
    },
}

/// Which mutation produced a [`LiveMessage::CanvasChanged`].
#[derive(Debug, Clone, Copy, PartialEq, Eq, Structural)]
pub enum CanvasChangeKind {
    CanvasUpdated,
    CanvasDeleted,
    ServerCreated,
    ServerUpdated,
    ServerMoved,
    ServerDeleted,
    ServerIpChanged,
    NodeCreated,
    NodeReplaced,
    NodeMetaUpdated,
    NodeRetired,
    NodeDeleted,
    EdgeConnected,
    EdgeRetired,
    EdgeDeleted,
}

/// What a rollout change is scoped to: a whole tree or one server.
#[derive(Debug, Clone)]
pub enum RolloutScope {
    Canvas(String),
    Server(String),
}

/// A `server_health_record` row as it travels on the bus.
#[derive(Debug, Clone)]
pub struct ServerHealthLive {
    pub id: String,
    pub status: ServerHealthStatus,
    pub report_time_unix_micros: i64,
    pub upload_bytes: i64,
    pub download_bytes: i64,
    pub current_connections: i64,
    pub max_connections: i64,
}

/// The status a node's live record carries: the health of the pod that
/// carries the node (ready, deploying or failed).
pub type NodeHealthStatus = PodHealthStatus;

/// A pod health row as it travels on the bus.
#[derive(Debug, Clone)]
pub struct NodeHealthLive {
    pub id: String,
    pub node: String,
    pub status: NodeHealthStatus,
    pub message: String,
    pub report_time_unix_micros: i64,
}

impl ServerHealthLive {
    /// A field-for-field copy.
    pub fn copied(&self) -> (r: Self)
        ensures
            r == *self,
    {
        ServerHealthLive {
            id: self.id.clone(),
            status: self.status,
            report_time_unix_micros: self.report_time_unix_micros,
            upload_bytes: self.upload_bytes,
            download_bytes: self.download_bytes,
            current_connections: self.current_connections,
            max_connections: self.max_connections,
        }
    }

    /// The bus form of a stored row.
    pub fn from_record(record: &ServerHealthRecordEntity) -> (l: Self)
        ensures
            l == (ServerHealthLive {
                id: record.id,
                status: record.status,
                report_time_unix_micros: record.report_time,
                upload_bytes: record.upload_bytes,
                download_bytes: record.download_bytes,
                current_connections: record.current_connections,
                max_connections: record.max_connections,
            }),
    {
        ServerHealthLive {
            id: record.id.clone(),
            status: record.status,
            report_time_unix_micros: record.report_time,
            upload_bytes: record.upload_bytes,
            download_bytes: record.download_bytes,
            current_connections: record.current_connections,
            max_connections: record.max_connections,
        }
    }
}

impl NodeHealthLive {
    /// A field-for-field copy.
    pub fn copied(&self) -> (r: Self)
        ensures
            r == *self,
    {
        NodeHealthLive {
            id: self.id.clone(),
            node: self.node.clone(),
            status: self.status,
            message: self.message.clone(),
            report_time_unix_micros: self.report_time_unix_micros,
        }
    }

    /// The bus form of a stored pod row.
    pub fn from_record(record: &PodHealthRecordEntity) -> (l: Self)
        ensures
            l == (NodeHealthLive {
                id: record.id,
                node: record.pod,
                status: record.status,
                message: record.message,
                report_time_unix_micros: record.report_time,
            }),
    {
        NodeHealthLive {
            id: record.id.clone(),
            node: record.pod.clone(),
            status: record.status,
            message: record.message.clone(),
            report_time_unix_micros: record.report_time,
        }
    }
}

/// A bus timestamp back as an instant. Out of `chrono`'s range collapses to
/// the epoch: the only use is an ordering comparison, and the epoch loses it.
pub fn live_time(unix_micros: i64) -> (t: Timestamp)
    ensures
        t == (if chrono_represents_micros(unix_micros) {
            unix_micros
        } else {
            0
        }),
{
    match chrono_from_micros(unix_micros) {
        Some(t) => t,
        None => 0,
    }
}

} // verus!
