//! Edges: a pod's ways on, to another pod (relayed in the protocol that pod
//! listens with) or to an exit.
//!
//! An edge belongs to its source pod, whose route names it. Parallel edges are
//! allowed: two edges between the same pods may dial different addresses.
use crate::entities::decode::{DecodeError, DecodeProblem};
use crate::entities::exit::ExitId;
use crate::entities::pod::PodId;
use vstd::prelude::*;

verus! {

/// The record key of an `orchestration_edge` row.
pub type EdgeId = String;

#[derive(Debug, Clone)]
pub struct EdgeEntity {
    pub id: EdgeId,
    pub source: PodId,
    pub target: EdgeTarget,
    /// Dial this host (an IP literal or a name) instead of the target pod's own
    /// address.
    pub override_ip: Option<String>,
    /// Dial this port instead of the target pod's.
    pub override_port: Option<u16>,
}

#[derive(Debug, Clone)]
pub enum EdgeTarget {
    Pod(PodId),
    Exit(ExitId),
}

/// An `orchestration_edge` row, one field per column, before [`EdgeEntity`]
/// folds the two target columns into one [`EdgeTarget`].
#[derive(Debug)]
pub struct EdgeRow {
    pub id: EdgeId,
    pub source_pod: PodId,
    pub target_pod: Option<PodId>,
    pub target_exit: Option<ExitId>,
    pub override_ip: Option<String>,
    pub override_port: Option<i32>,
}

/// The target a row's two target columns name, when exactly one is set.
pub open spec fn row_target(pod: Option<PodId>, exit: Option<ExitId>) -> Option<EdgeTarget> {
    match (pod, exit) {
        (Some(p), None) => Some(EdgeTarget::Pod(p)),
        (None, Some(x)) => Some(EdgeTarget::Exit(x)),
        _ => None,
    }
}

impl EdgeRow {
    /// The entity the row stores. Refused when the row names neither or both
    /// of its targets, and when an override port is outside `0..=65535`.
    pub fn into_entity(self) -> (r: Result<EdgeEntity, DecodeError>)
        ensures
            row_target(self.target_pod, self.target_exit) is None ==> (r matches Err(e)
                && e.column == "target_pod" && e.row == self.id && e.problem
                == DecodeProblem::NotOneTarget),
            row_target(self.target_pod, self.target_exit) is Some && (self.override_port matches Some(
                p,
            ) && !(0 <= p <= 65535)) ==> (r matches Err(e) && e.column == "override_port" && e.row
                == self.id && e.problem == DecodeProblem::PortOutOfRange(self.override_port->0)),
            row_target(self.target_pod, self.target_exit) is Some && !(self.override_port matches Some(
                p,
            ) && !(0 <= p <= 65535)) ==> (r matches Ok(edge) && edge == (EdgeEntity {
                id: self.id,
                source: self.source_pod,
                target: row_target(self.target_pod, self.target_exit)->0,
                override_ip: self.override_ip,
                override_port: match self.override_port {
                    Some(p) => Some(p as u16),
                    None => None,
                },
            })),
    {
        let target = match (self.target_pod, self.target_exit) {
            (Some(pod), None) => EdgeTarget::Pod(pod),
            (None, Some(exit)) => EdgeTarget::Exit(exit),
            _ => {
                return Err(
                    DecodeError {
                        column: "target_pod",
                        row: self.id,
                        problem: DecodeProblem::NotOneTarget,
                    },
                );
            },
        };
        let override_port = match self.override_port {
            Some(port) => {
                if port < 0 || port > 65535 {
                    return Err(
                        DecodeError {
                            column: "override_port",
                            row: self.id,
                            problem: DecodeProblem::PortOutOfRange(port),
                        },
                    );
                }
                Some(port as u16)
            },
            None => None,
        };
        Ok(
            EdgeEntity {
                id: self.id,
                source: self.source_pod,
                target,
                override_ip: self.override_ip,
                override_port,
            },
        )
    }
}

/// The two target columns an edge is written with: the pod or the exit it
/// leads to, the other left empty.
pub fn target_columns(target: &EdgeTarget) -> (r: (Option<PodId>, Option<ExitId>))
    ensures
        row_target(r.0, r.1) == Some(*target),
{
    match target {
        EdgeTarget::Pod(pod) => (Some(pod.clone()), None),
        EdgeTarget::Exit(exit) => (None, Some(exit.clone())),
    }
}

/// The row an edge is stored as.
pub open spec fn edge_row_of(e: EdgeEntity) -> EdgeRow {
    EdgeRow {
        id: e.id,
        source_pod: e.source,
        target_pod: match e.target {
            EdgeTarget::Pod(p) => Some(p),
            _ => None,
        },
        target_exit: match e.target {
            EdgeTarget::Exit(x) => Some(x),
            _ => None,
        },
        override_ip: e.override_ip,
        override_port: match e.override_port {
            Some(p) => Some(p as i32),
            None => None,
        },
    }
}

impl EdgeEntity {
    /// The row this edge is written as.
    pub fn to_row(&self) -> (row: EdgeRow)
        ensures
            row == edge_row_of(*self),
    {
        let (target_pod, target_exit) = target_columns(&self.target);
        EdgeRow {
            id: self.id.clone(),
            source_pod: self.source.clone(),
            target_pod,
            target_exit,
            override_ip: crate::entities::canvas::copy_opt_text(&self.override_ip),
            override_port: match self.override_port {
                Some(p) => Some(p as i32),
                None => None,
            },
        }
    }
}

/// What is written is what is read back: the row an edge is stored as names
/// exactly one target, holds a port in range, and decodes to the same edge.
pub proof fn lemma_edge_row_round_trip(e: EdgeEntity)
    ensures
        row_target(edge_row_of(e).target_pod, edge_row_of(e).target_exit) == Some(e.target),
        !(edge_row_of(e).override_port matches Some(p) && !(0 <= p <= 65535)),
        (EdgeEntity {
            id: edge_row_of(e).id,
            source: edge_row_of(e).source_pod,
            target: row_target(edge_row_of(e).target_pod, edge_row_of(e).target_exit)->0,
            override_ip: edge_row_of(e).override_ip,
            override_port: match edge_row_of(e).override_port {
                Some(p) => Some(p as u16),
                None => None,
            },
        }) == e,
{
}

} // verus!
