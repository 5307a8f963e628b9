//! Edges between ports of the universal-node layer.
use crate::entities::canvas::{CanvasFence, CanvasId};
use crate::entities::node::NodeId;
use crate::entities::port::PortId;
use vstd::prelude::*;

verus! {

/// The record key of an `orchestration_edge_connection` row.
pub type EdgeConnectionId = String;

/// The conflict reported when an edge is drawn on a port that already carries one.
pub const PORT_ALREADY_CONNECTED: &'static str = "port already carries an edge";

/// The unique constraints a second edge on one port violates.
pub const SOURCE_PORT_CONSTRAINT: &'static str = "orchestration_edge_connection_source_port_key";

pub const TARGET_PORT_CONSTRAINT: &'static str = "orchestration_edge_connection_target_port_key";

#[derive(Debug, Clone)]
pub struct EdgeConnectionEntity {
    pub id: EdgeConnectionId,
    pub source: PortId,
    pub target: PortId,
}

#[derive(Debug)]
pub struct ConnectPorts {
    pub source: PortId,
    pub target: PortId,
    pub canvas: CanvasId,
    /// The snapshot the connect was validated against, fencing the write;
    /// `None` bumps unconditionally.
    pub fence: Option<CanvasFence>,
}

#[derive(Debug)]
pub struct FindEdgeById {
    pub id: EdgeConnectionId,
}

#[derive(Debug)]
pub struct DeleteEdgeRow {
    pub id: EdgeConnectionId,
    pub canvas: CanvasId,
    /// The snapshot the disconnect was validated against; `None` bumps
    /// unconditionally (an Admin force delete).
    pub fence: Option<CanvasFence>,
}

/// The edge between two ports named by their owning node and port key, rather
/// than by port id.
///
/// The connect path needs this because it creates the ports and the edge in
/// one batch: the edge's own id only exists after that write, so the only
/// handle on it afterwards is the pair of ends the operator asked for.
#[derive(Debug)]
pub struct FindEdgeByEnds {
    pub source: NodeId,
    pub source_key: String,
    pub target: NodeId,
    pub target_key: String,
}

} // verus!
