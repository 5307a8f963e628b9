//! Health history reported by workers.
//!
//! One [`ServerHealthRecordEntity`] per report a worker sends and one
//! [`PodHealthRecordEntity`] per pod per report; the current server status is
//! kept on the server row. The writes that record them decide, from the row
//! they locked, whether they may write at all: that decision lives here.
use crate::clock::Timestamp;
use crate::entities::canvas::CanvasId;
use crate::entities::pod::PodId;
use crate::entities::server::ServerId;
use crate::text::text_eq;
use vstd::prelude::*;

verus! {

/// The record key of a `server_health_record` row.
pub type ServerHealthRecordId = String;

/// The record key of a `pod_health_record` row.
pub type PodHealthRecordId = String;

#[derive(Debug, Clone)]
pub struct ServerHealthRecordEntity {
    pub id: ServerHealthRecordId,
    pub server: ServerId,
    pub status: ServerHealthStatus,
    pub report_time: Timestamp,
    pub upload_bytes: i64,
    pub download_bytes: i64,
    pub current_connections: i64,
    pub max_connections: i64,
}

/// Liveness of a server, as the health pipeline keeps it.
#[derive(Debug, Clone, Copy, PartialEq, Eq, Structural)]
pub enum ServerHealthStatus {
    /// The server is online and runs what it was asked to.
    Online,
    /// The server is reachable but lags `desired` past the grace period or
    /// failed to apply the latest revision.
    Degraded,
    /// The server is offline or cannot reach the master.
    Offline,
}

pub open spec fn server_health_spelling(s: ServerHealthStatus) -> Seq<char> {
    match s {
        ServerHealthStatus::Online => "online"@,
        ServerHealthStatus::Degraded => "degraded"@,
        ServerHealthStatus::Offline => "offline"@,
    }
}

impl Default for ServerHealthStatus {
    /// A server nobody has heard from.
    fn default() -> (s: Self)
        ensures
            s == ServerHealthStatus::Offline,
    {
        ServerHealthStatus::Offline
    }
}

impl ServerHealthStatus {
    /// The stored spelling.
    pub fn as_str(self) -> (s: &'static str)
        ensures
            s@ == server_health_spelling(self),
    {
        match self {
            ServerHealthStatus::Online => "online",
            ServerHealthStatus::Degraded => "degraded",
            ServerHealthStatus::Offline => "offline",
        }
    }

    /// The status a stored spelling names; `None` for any other text.
    pub fn from_stored(text: &str) -> (r: Option<Self>)
        ensures
            r matches Some(s) ==> server_health_spelling(s) == text@,
            r is None ==> forall|s: ServerHealthStatus| server_health_spelling(s) != text@,
    {
        let all = [ServerHealthStatus::Online, ServerHealthStatus::Degraded, ServerHealthStatus::Offline];
        let mut i: usize = 0;
        while i < 3
            invariant
                i <= 3,
                all@ == seq![ServerHealthStatus::Online, ServerHealthStatus::Degraded, ServerHealthStatus::Offline],
                forall|k: int| 0 <= k < i ==> server_health_spelling(#[trigger] all@[k]) != text@,
            decreases 3 - i,
        {
            if text_eq(all[i].as_str(), text) {
                return Some(all[i]);
            }
            i = i + 1;
        }
        assert forall|s: ServerHealthStatus| server_health_spelling(s) != text@ by {
            match s {
                ServerHealthStatus::Online => assert(all@[0] == s),
                ServerHealthStatus::Degraded => assert(all@[1] == s),
                ServerHealthStatus::Offline => assert(all@[2] == s),
            }
        }
        None
    }
}

/// Server records in `[start, end]`, oldest first.
#[derive(Debug)]
pub struct ListServerHealthHistory {
    pub server: ServerId,
    pub start: Timestamp,
    pub end: Timestamp,
}

/// What a health write did, for the caller that has to publish it: the row it
/// created, the canvas and labels read with it, and the status the server held
/// before the write.
#[derive(Debug, Clone)]
pub struct HealthWrite {
    pub record: ServerHealthRecordEntity,
    pub canvas: CanvasId,
    pub server_name: String,
    pub canvas_name: String,
    pub previous_status: ServerHealthStatus,
    /// The pod rows written alongside the report; empty for a status flip.
    pub pods: Vec<PodHealthWrite>,
}

/// The server row's health fields, locked for the transaction that reads them,
/// plus the labels [`HealthWrite`] carries.
#[derive(Debug, Clone)]
pub struct ServerHealthBefore {
    pub canvas: CanvasId,
    pub name: String,
    pub canvas_name: String,
    pub health_status: ServerHealthStatus,
    pub refresh_key_generation: i64,
}

/// One accepted report: the server's liveness is advanced and the records are
/// written only while the server still belongs to the reporting session.
#[derive(Debug)]
pub struct InsertServerHealthRecord {
    pub server: ServerId,
    pub generation: i64,
    pub status: ServerHealthStatus,
    pub report_time: Timestamp,
    pub upload_bytes: i64,
    pub download_bytes: i64,
    pub current_connections: i64,
    pub max_connections: i64,
    pub pods: Vec<NewPodHealthRecord>,
}

impl InsertServerHealthRecord {
    /// Whether the report may be written, given the server row it locked
    /// (`None` when the server is gone): only while the row still holds the
    /// reporting session's generation.
    pub fn accepted_by(&self, before: &Option<ServerHealthBefore>) -> (r: bool)
        ensures
            r <==> (before matches Some(b) && b.refresh_key_generation == self.generation),
    {
        match before {
            Some(b) => b.refresh_key_generation == self.generation,
            None => false,
        }
    }
}

/// A status change that is not a report (the master noticed the worker is
/// gone): conditional on the status actually changing and, when `generation`
/// is given, on the server still belonging to that session.
#[derive(Debug)]
pub struct SetServerHealthStatus {
    pub server: ServerId,
    pub generation: Option<i64>,
    pub status: ServerHealthStatus,
    pub now: Timestamp,
}

impl SetServerHealthStatus {
    /// What the write does, given the server row it locked: `None` writes
    /// nothing (no such server, the status it already holds, or a session that
    /// no longer owns it); `Some(offline)` writes the status, and `offline`
    /// says whether it also hands the watch session back.
    pub fn plan(&self, before: &Option<ServerHealthBefore>) -> (r: Option<bool>)
        ensures
            r is Some <==> (before matches Some(b) && b.health_status != self.status
                && (self.generation matches Some(g) ==> g == b.refresh_key_generation)),
            r matches Some(offline) ==> offline == (self.status == ServerHealthStatus::Offline),
    {
        let b = match before {
            Some(b) => b,
            None => {
                return None;
            },
        };
        if b.health_status == self.status {
            return None;
        }
        match self.generation {
            Some(g) => {
                if g != b.refresh_key_generation {
                    return None;
                }
            },
            None => {},
        }
        Some(self.status == ServerHealthStatus::Offline)
    }

    /// What a status change that [`Self::plan`] let through reports, given the
    /// server row it locked and the id of the record it inserted: the record
    /// holds the new status at `now` with every counter zero, the labels come
    /// from the locked row, the previous status is the one the row held, and
    /// no pod rows are written.
    pub fn written(&self, before: ServerHealthBefore, record_id: ServerHealthRecordId) -> (w: HealthWrite)
        ensures
            w.record.id == record_id,
            w.record.server@ == self.server@,
            w.record.status == self.status,
            w.record.report_time == self.now,
            w.record.upload_bytes == 0,
            w.record.download_bytes == 0,
            w.record.current_connections == 0,
            w.record.max_connections == 0,
            w.canvas == before.canvas,
            w.server_name == before.name,
            w.canvas_name == before.canvas_name,
            w.previous_status == before.health_status,
            w.pods@.len() == 0,
    {
        HealthWrite {
            record: ServerHealthRecordEntity {
                id: record_id,
                server: self.server.clone(),
                status: self.status,
                report_time: self.now,
                upload_bytes: 0,
                download_bytes: 0,
                current_connections: 0,
                max_connections: 0,
            },
            canvas: before.canvas,
            server_name: before.name,
            canvas_name: before.canvas_name,
            previous_status: before.health_status,
            pods: Vec::new(),
        }
    }
}

/// What the liveness sweep decides on.
#[derive(Debug, Clone)]
pub struct ServerLiveness {
    pub id: ServerId,
    pub last_health_report_at: Option<Timestamp>,
    pub health_status: ServerHealthStatus,
}

/// Every server not already `Offline`; the sweep applies the threshold.
#[derive(Debug)]
pub struct ListServersForLivenessSweep;

#[derive(Debug, Clone)]
pub struct PodHealthRecordEntity {
    pub id: PodHealthRecordId,
    pub pod: PodId,
    pub status: PodHealthStatus,
    pub message: String,
    pub report_time: Timestamp,
}

/// The state of one pod's forwarding on its server.
#[derive(Debug, Clone, Copy, PartialEq, Eq, Structural)]
pub enum PodHealthStatus {
    /// The pod's forwarding is applied on its server and runs.
    Ready,
    /// A newer revision changing the pod is derived but not yet applied.
    Deploying,
    /// The pod failed to apply or to run.
    Failed,
}

pub open spec fn pod_health_spelling(s: PodHealthStatus) -> Seq<char> {
    match s {
        PodHealthStatus::Ready => "ready"@,
        PodHealthStatus::Deploying => "deploying"@,
        PodHealthStatus::Failed => "failed"@,
    }
}

impl PodHealthStatus {
    /// The stored spelling.
    pub fn as_str(self) -> (s: &'static str)
        ensures
            s@ == pod_health_spelling(self),
    {
        match self {
            PodHealthStatus::Ready => "ready",
            PodHealthStatus::Deploying => "deploying",
            PodHealthStatus::Failed => "failed",
        }
    }

    /// The status a stored spelling names; `None` for any other text.
    pub fn from_stored(text: &str) -> (r: Option<Self>)
        ensures
            r matches Some(s) ==> pod_health_spelling(s) == text@,
            r is None ==> forall|s: PodHealthStatus| pod_health_spelling(s) != text@,
    {
        let all = [PodHealthStatus::Ready, PodHealthStatus::Deploying, PodHealthStatus::Failed];
        let mut i: usize = 0;
        while i < 3
            invariant
                i <= 3,
                all@ == seq![PodHealthStatus::Ready, PodHealthStatus::Deploying, PodHealthStatus::Failed],
                forall|k: int| 0 <= k < i ==> pod_health_spelling(#[trigger] all@[k]) != text@,
            decreases 3 - i,
        {
            if text_eq(all[i].as_str(), text) {
                return Some(all[i]);
            }
            i = i + 1;
        }
        assert forall|s: PodHealthStatus| pod_health_spelling(s) != text@ by {
            match s {
                PodHealthStatus::Ready => assert(all@[0] == s),
                PodHealthStatus::Deploying => assert(all@[1] == s),
                PodHealthStatus::Failed => assert(all@[2] == s),
            }
        }
        None
    }
}

/// Pod records in `[start, end]`, newest first, at most `limit`.
#[derive(Debug)]
pub struct ListPodHealthHistory {
    pub pod: PodId,
    pub start: Timestamp,
    pub end: Timestamp,
    pub limit: i64,
}

/// Pod records in `[start, end]`, oldest first; `limit: None` keeps them all.
#[derive(Debug)]
pub struct ListPodHealthSince {
    pub pod: PodId,
    pub start: Timestamp,
    pub end: Timestamp,
    pub limit: Option<i64>,
}

/// A pod record to insert; the row id is generated.
#[derive(Debug, Clone)]
pub struct NewPodHealthRecord {
    pub pod: PodId,
    pub status: PodHealthStatus,
    pub message: String,
    pub report_time: Timestamp,
}

/// A pod row written, with the labels a notification needs.
#[derive(Debug, Clone)]
pub struct PodHealthWrite {
    pub record: PodHealthRecordEntity,
    pub pod_name: String,
    pub canvas: CanvasId,
    pub canvas_name: String,
}

/// The flat shape the insert statement selects, one field per column.
pub struct PodHealthWriteRow {
    pub id: PodHealthRecordId,
    pub pod: PodId,
    pub status: PodHealthStatus,
    pub message: String,
    pub report_time: Timestamp,
    pub pod_name: String,
    pub canvas: CanvasId,
    pub canvas_name: String,
}

impl PodHealthWriteRow {
    /// The row nested as a [`PodHealthWrite`].
    pub fn into_write(self) -> (w: PodHealthWrite)
        ensures
            w.record == (PodHealthRecordEntity {
                id: self.id,
                pod: self.pod,
                status: self.status,
                message: self.message,
                report_time: self.report_time,
            }),
            w.pod_name == self.pod_name,
            w.canvas == self.canvas,
            w.canvas_name == self.canvas_name,
    {
        PodHealthWrite {
            record: PodHealthRecordEntity {
                id: self.id,
                pod: self.pod,
                status: self.status,
                message: self.message,
                report_time: self.report_time,
            },
            pod_name: self.pod_name,
            canvas: self.canvas,
            canvas_name: self.canvas_name,
        }
    }
}

/// Inserts a batch of pod records in one statement.
#[derive(Debug)]
pub struct InsertPodHealthRecords {
    pub records: Vec<NewPodHealthRecord>,
}

/// Deletes records older than the given cut-offs; the retention cron's query.
#[derive(Debug)]
pub struct DeleteHealthRecordsBefore {
    pub server_records_before: Timestamp,
    pub pod_records_before: Timestamp,
}

} // verus!
