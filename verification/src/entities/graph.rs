//! The pod graph of one canvas tree, read and written as a whole.
//!
//! Canvases nest by `parent`; a tree is the unit edges may cross, the unit a
//! batch is checked against, and the unit derivation compiles.
use crate::clock::Timestamp;
use crate::entities::canvas::{
    fence_of, first_canvas, ids_of, CanvasEntity, CanvasFence, CanvasId, CanvasUiPosition,
};
use crate::entities::edge::{EdgeEntity, EdgeId};
use crate::entities::exit::{ExitEntity, ExitId};
use crate::entities::group::{GroupEntity, GroupId};
use crate::entities::pod::{PodEntity, PodId};
use crate::entities::server::{ServerEntity, ServerId};
use vstd::prelude::*;

verus! {

/// Everything the graph of one canvas tree is made of.
#[derive(Debug, Clone)]
pub struct GraphRows {
    pub root: CanvasId,
    /// Every canvas of the tree, root first, then by depth and id.
    pub canvases: Vec<CanvasEntity>,
    /// The servers of every canvas of the tree, by id.
    pub servers: Vec<ServerEntity>,
    pub pods: Vec<PodEntity>,
    pub exits: Vec<ExitEntity>,
    /// Every edge leaving a pod of the tree, by id.
    pub edges: Vec<EdgeEntity>,
    pub groups: Vec<GroupEntity>,
}

impl GraphRows {
    pub fn canvas_ids(&self) -> (r: Vec<CanvasId>)
        ensures
            r@.len() == self.canvases@.len(),
            forall|i: int| 0 <= i < self.canvases@.len() ==> #[trigger] r@[i] == self.canvases@[i].id,
    {
        ids_of(&self.canvases)
    }

    /// The fence a write validated against this snapshot must pass. `None` when
    /// the snapshot carries no root row (a canvas that does not exist), so a
    /// validated caller fails closed rather than bumping unconditionally.
    pub fn fence(&self) -> (r: Option<CanvasFence>)
        ensures
            match first_canvas(self.canvases@, self.root@) {
                Some(c) => r matches Some(f) && f.root == self.root && f.generation == c.generation,
                None => r is None,
            },
    {
        fence_of(&self.root, &self.canvases)
    }

    /// The root's edit counter as this snapshot read it; 0 without a root row.
    pub fn generation(&self) -> (g: i64)
        ensures
            g == match first_canvas(self.canvases@, self.root@) {
                Some(c) => c.generation,
                None => 0,
            },
    {
        match fence_of(&self.root, &self.canvases) {
            Some(f) => f.generation,
            None => 0,
        }
    }
}

/// The graph of the tree containing `canvas`, in one snapshot.
#[derive(Debug)]
pub struct LoadCanvasGraph {
    pub canvas: CanvasId,
}

/// Which ids exist anywhere, so a batch can tell a new row from one that
/// belongs to another tree.
#[derive(Debug, Clone)]
pub struct TakenIds {
    pub pods: Vec<PodId>,
    pub exits: Vec<ExitId>,
    pub edges: Vec<EdgeId>,
    pub groups: Vec<GroupId>,
}

impl Default for TakenIds {
    fn default() -> (t: Self)
        ensures
            t.pods@.len() == 0,
            t.exits@.len() == 0,
            t.edges@.len() == 0,
            t.groups@.len() == 0,
    {
        TakenIds { pods: Vec::new(), exits: Vec::new(), edges: Vec::new(), groups: Vec::new() }
    }
}

/// The ids among the given ones that already name a row.
#[derive(Debug)]
pub struct FindTakenIds {
    pub pods: Vec<PodId>,
    pub exits: Vec<ExitId>,
    pub edges: Vec<EdgeId>,
    pub groups: Vec<GroupId>,
}

/// A batch whose tree is not named: a caller bug.
pub const GRAPH_BATCH_WITHOUT_CANVAS: &'static str = "graph batch without a canvas";

/// One checked batch of graph changes, written in one fenced transaction.
///
/// Applied in the order the foreign keys need: groups and edges go first, then
/// pods and exits; new and changed pods and exits are written before the edges
/// that lead to them, and groups last, when every member exists.
#[derive(Debug, Clone)]
pub struct ApplyGraphBatch {
    /// Any canvas of the tree; its root is fenced and bumped.
    pub canvas: Option<CanvasId>,
    /// The snapshot the batch was checked against. `None` bumps unconditionally.
    pub fence: Option<CanvasFence>,
    /// Whether the batch touches pods, exits or edges, and so is fenced and
    /// bumps the generation; a batch of groups alone is neither.
    pub derives: bool,
    pub delete_groups: Vec<GroupId>,
    pub delete_edges: Vec<EdgeId>,
    pub delete_pods: Vec<PodId>,
    pub delete_exits: Vec<ExitId>,
    pub insert_pods: Vec<PodEntity>,
    pub update_pods: Vec<PodEntity>,
    pub insert_exits: Vec<ExitEntity>,
    pub update_exits: Vec<ExitEntity>,
    pub insert_edges: Vec<EdgeEntity>,
    pub update_edges: Vec<EdgeEntity>,
    pub insert_groups: Vec<GroupEntity>,
    pub update_groups: Vec<GroupEntity>,
}

/// How a graph batch takes its tree's root before its first row.
#[derive(Debug, Clone, Copy, PartialEq, Eq, Structural)]
pub enum RootAccess {
    /// Fenced against the snapshot and bumped: the batch changes what workers run.
    TouchChecked,
    /// Only locked: a batch of groups alone is the dashboard's drawing,
    /// last-write-wins, but it still takes the root first (the lock order).
    Lock,
}

impl ApplyGraphBatch {
    /// The root access the batch needs.
    pub fn root_access(&self) -> (r: RootAccess)
        ensures
            r == (if self.derives {
                RootAccess::TouchChecked
            } else {
                RootAccess::Lock
            }),
    {
        if self.derives {
            RootAccess::TouchChecked
        } else {
            RootAccess::Lock
        }
    }
}

/// That the node model was converted into the pod graph, and what the
/// conversion found.
#[derive(Debug, Clone)]
pub struct GraphStateEntity {
    pub converted_at: Timestamp,
    /// The conversion report, as JSON text.
    pub report: String,
}

#[derive(Debug)]
pub struct FindGraphState;

/// Positions only: nothing a worker reads, so no fence and no bump. Rows that
/// are not on the given tree are left alone. The tree's root is still locked
/// first: the server and subcanvas rows a move writes are rows that edits and
/// deletes lock after the root.
#[derive(Debug)]
pub struct MoveGraphItems {
    /// The canvases of the tree the items must belong to.
    pub tree: Vec<CanvasId>,
    pub servers: Vec<(ServerId, CanvasUiPosition)>,
    pub exits: Vec<(ExitId, CanvasUiPosition)>,
    pub canvases: Vec<(CanvasId, CanvasUiPosition)>,
}

} // verus!
