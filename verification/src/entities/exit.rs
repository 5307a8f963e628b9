//! Exits: where traffic leaves the fabric, the sinks of the forwarding graph.
use crate::entities::canvas::{CanvasId, CanvasUiPosition};
use crate::entities::pod::ProxyProtocolVersion;
use vstd::prelude::*;

verus! {

/// The record key of an `orchestration_exit` row.
pub type ExitId = String;

#[derive(Debug, Clone)]
pub struct ExitEntity {
    pub id: ExitId,
    pub canvas: CanvasId,
    pub name: String,
    pub comment: String,
    /// `host:port`.
    pub destination: String,
    pub send_proxy_protocol: Option<ProxyProtocolVersion>,
    pub position: CanvasUiPosition,
}

/// An `orchestration_exit` row, one field per column, before [`ExitEntity`]
/// gathers the two position columns.
#[derive(Debug)]
pub struct ExitRow {
    pub id: ExitId,
    pub canvas: CanvasId,
    pub name: String,
    pub comment: String,
    pub destination: String,
    pub send_proxy_protocol: Option<ProxyProtocolVersion>,
    pub position_x: i64,
    pub position_y: i64,
}

impl ExitRow {
    /// The entity the row stores.
    pub fn into_entity(self) -> (e: ExitEntity)
        ensures
            e == (ExitEntity {
                id: self.id,
                canvas: self.canvas,
                name: self.name,
                comment: self.comment,
                destination: self.destination,
                send_proxy_protocol: self.send_proxy_protocol,
                position: CanvasUiPosition { x: self.position_x, y: self.position_y },
            }),
    {
        ExitEntity {
            id: self.id,
            canvas: self.canvas,
            name: self.name,
            comment: self.comment,
            destination: self.destination,
            send_proxy_protocol: self.send_proxy_protocol,
            position: CanvasUiPosition { x: self.position_x, y: self.position_y },
        }
    }
}

} // verus!
