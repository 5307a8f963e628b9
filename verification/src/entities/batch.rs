//! The one reconciling write of the universal-node layer: everything a
//! universal edit and the lane regeneration it implies do to a canvas tree,
//! applied in a single transaction.
use crate::entities::canvas::{CanvasFence, CanvasId, CanvasUiPosition};
use crate::entities::connection::EdgeConnectionId;
use crate::entities::node::{Lane, NodeId, NodeSpec};
use crate::entities::port::{NewPort, PortId};
use vstd::prelude::*;

verus! {

/// The conflict reported when a batch names an edge endpoint that does not exist.
pub const UNRESOLVED_ENDPOINT: &'static str = "batch edge endpoint could not be resolved";

/// A batch that names no canvas cannot be fenced or touched; a caller bug.
pub const BATCH_WITHOUT_CANVAS: &'static str = "batch without a canvas";

/// One end of an edge the batch relates, resolved inside the transaction:
/// exactly one of the three forms is set.
#[derive(Debug, Clone)]
pub struct PortRef {
    /// An existing port.
    pub port: Option<PortId>,
    /// A port by key on an existing node (possibly created by a reshape in the
    /// same batch).
    pub node: Option<NodeId>,
    /// A port by key on the lane node of this key (possibly created in the
    /// same batch).
    pub lane_key: Option<String>,
    pub key: Option<String>,
}

impl Default for PortRef {
    /// A reference naming nothing.
    fn default() -> (r: Self)
        ensures
            r.port is None,
            r.node is None,
            r.lane_key is None,
            r.key is None,
    {
        PortRef { port: None, node: None, lane_key: None, key: None }
    }
}

impl PortRef {
    pub fn existing(port: PortId) -> (r: Self)
        ensures
            r == (PortRef { port: Some(port), node: None, lane_key: None, key: None }),
    {
        PortRef { port: Some(port), node: None, lane_key: None, key: None }
    }

    pub fn on_node(node: NodeId, key: &str) -> (r: Self)
        ensures
            r.port is None,
            r.node == Some(node),
            r.lane_key is None,
            r.key matches Some(k) && k@ == key@,
    {
        PortRef { port: None, node: Some(node), lane_key: None, key: Some(String::from_str(key)) }
    }

    pub fn on_lane(lane_key: &str, key: &str) -> (r: Self)
        ensures
            r.port is None,
            r.node is None,
            r.lane_key matches Some(l) && l@ == lane_key@,
            r.key matches Some(k) && k@ == key@,
    {
        PortRef {
            port: None,
            node: None,
            lane_key: Some(String::from_str(lane_key)),
            key: Some(String::from_str(key)),
        }
    }
}

#[derive(Debug, Clone)]
pub struct BatchEdge {
    pub source: PortRef,
    pub target: PortRef,
}

#[derive(Debug, Clone)]
pub struct SpecUpdate {
    pub node: NodeId,
    pub spec: NodeSpec,
}

#[derive(Debug, Clone)]
pub struct PortReshape {
    pub node: NodeId,
    pub ports: Vec<NewPort>,
}

/// A lane node to create with its ports.
#[derive(Debug, Clone)]
pub struct NewLaneNode {
    pub canvas: CanvasId,
    pub name: String,
    pub comment: String,
    pub spec: NodeSpec,
    pub position: CanvasUiPosition,
    pub ports: Vec<NewPort>,
    pub lane: Lane,
}

/// Applied in the order [`ApplyTopologyBatch::statement_order`] gives: the
/// tree's root touched first (the lock order every write to a tree follows),
/// then edges deleted, nodes deleted (with their ports, edges, health history
/// and relay leaf), specs rewritten, ports reshaped, lane nodes created, and
/// edges related.
#[derive(Debug, Clone)]
pub struct ApplyTopologyBatch {
    pub canvas: Option<CanvasId>,
    /// The snapshot the edit was validated against, fencing the whole batch;
    /// `None` bumps unconditionally.
    pub fence: Option<CanvasFence>,
    pub delete_edges: Vec<EdgeConnectionId>,
    pub delete_nodes: Vec<NodeId>,
    pub set_specs: Vec<SpecUpdate>,
    pub reshape: Vec<PortReshape>,
    pub create_nodes: Vec<NewLaneNode>,
    pub add_edges: Vec<BatchEdge>,
}

/// One statement group of a topology batch's transaction.
#[derive(Debug, Clone, Copy, PartialEq, Eq, Structural)]
pub enum TopologyStatement {
    /// Bump the tree's root: fenced on the batch's snapshot when it has one,
    /// unconditionally otherwise.
    TouchRoot,
    DeleteEdges,
    DeleteNodes,
    WriteSpecs,
    ReshapePorts,
    CreateLaneNodes,
    AddEdges,
}

/// The statement order of a topology batch: the root before any row of its
/// tree, deletions before the rows that may replace them, reshaped ports and
/// new lane nodes before the edges that may name them.
pub open spec fn topology_statement_order() -> Seq<TopologyStatement> {
    seq![
        TopologyStatement::TouchRoot,
        TopologyStatement::DeleteEdges,
        TopologyStatement::DeleteNodes,
        TopologyStatement::WriteSpecs,
        TopologyStatement::ReshapePorts,
        TopologyStatement::CreateLaneNodes,
        TopologyStatement::AddEdges,
    ]
}

impl Default for ApplyTopologyBatch {
    /// A batch that writes nothing and names no canvas.
    fn default() -> (b: Self)
        ensures
            b.canvas is None,
            b.fence is None,
            b.writes_nothing(),
    {
        ApplyTopologyBatch {
            canvas: None,
            fence: None,
            delete_edges: Vec::new(),
            delete_nodes: Vec::new(),
            set_specs: Vec::new(),
            reshape: Vec::new(),
            create_nodes: Vec::new(),
            add_edges: Vec::new(),
        }
    }
}

impl ApplyTopologyBatch {
    /// No section holds an operation.
    pub open spec fn writes_nothing(&self) -> bool {
        &&& self.delete_edges@.len() == 0
        &&& self.delete_nodes@.len() == 0
        &&& self.set_specs@.len() == 0
        &&& self.reshape@.len() == 0
        &&& self.create_nodes@.len() == 0
        &&& self.add_edges@.len() == 0
    }

    /// `after` is `before` with `other`'s operations appended section by
    /// section; the canvas and fence `before` names win over `other`'s.
    pub open spec fn extends(after: Self, before: Self, other: Self) -> bool {
        &&& after.canvas == (if before.canvas is Some {
            before.canvas
        } else {
            other.canvas
        })
        &&& after.fence == (if before.fence is Some {
            before.fence
        } else {
            other.fence
        })
        &&& after.delete_edges@ == before.delete_edges@ + other.delete_edges@
        &&& after.delete_nodes@ == before.delete_nodes@ + other.delete_nodes@
        &&& after.set_specs@ == before.set_specs@ + other.set_specs@
        &&& after.reshape@ == before.reshape@ + other.reshape@
        &&& after.create_nodes@ == before.create_nodes@ + other.create_nodes@
        &&& after.add_edges@ == before.add_edges@ + other.add_edges@
    }

    /// The order the batch's statements run in, or [`BATCH_WITHOUT_CANVAS`]
    /// when the batch names no canvas to fence and touch.
    pub fn statement_order(&self) -> (r: Result<Vec<TopologyStatement>, &'static str>)
        ensures
            self.canvas is None ==> r == Err::<Vec<TopologyStatement>, &'static str>(
                BATCH_WITHOUT_CANVAS,
            ),
            self.canvas is Some ==> (r matches Ok(order) && order@ == topology_statement_order()),
    {
        if self.canvas.is_none() {
            return Err(BATCH_WITHOUT_CANVAS);
        }
        let order = vec![
            TopologyStatement::TouchRoot,
            TopologyStatement::DeleteEdges,
            TopologyStatement::DeleteNodes,
            TopologyStatement::WriteSpecs,
            TopologyStatement::ReshapePorts,
            TopologyStatement::CreateLaneNodes,
            TopologyStatement::AddEdges,
        ];
        assert(order@ =~= topology_statement_order());
        Ok(order)
    }

    /// The canvas whose tree the batch fences and touches; a batch that names
    /// none is refused with [`BATCH_WITHOUT_CANVAS`].
    pub fn target_canvas(&self) -> (r: Result<&CanvasId, &'static str>)
        ensures
            match self.canvas {
                Some(c) => r == Ok::<&CanvasId, &'static str>(&c),
                None => r == Err::<&CanvasId, &'static str>(BATCH_WITHOUT_CANVAS),
            },
    {
        match &self.canvas {
            Some(c) => Ok(c),
            None => Err(BATCH_WITHOUT_CANVAS),
        }
    }

    /// Whether the batch writes anything besides the generation bump.
    pub fn is_empty(&self) -> (r: bool)
        ensures
            r == self.writes_nothing(),
    {
        self.delete_edges.is_empty() && self.delete_nodes.is_empty() && self.set_specs.is_empty()
            && self.reshape.is_empty() && self.create_nodes.is_empty()
            && self.add_edges.is_empty()
    }

    /// Appends `other`'s operations after this batch's own, section by section.
    pub fn extend(&mut self, other: ApplyTopologyBatch)
        ensures
            Self::extends(*final(self), *old(self), other),
    {
        let ApplyTopologyBatch {
            canvas,
            fence,
            mut delete_edges,
            mut delete_nodes,
            mut set_specs,
            mut reshape,
            mut create_nodes,
            mut add_edges,
        } = other;
        if self.canvas.is_none() {
            self.canvas = canvas;
        }
        if self.fence.is_none() {
            self.fence = fence;
        }
        self.delete_edges.append(&mut delete_edges);
        self.delete_nodes.append(&mut delete_nodes);
        self.set_specs.append(&mut set_specs);
        self.reshape.append(&mut reshape);
        self.create_nodes.append(&mut create_nodes);
        self.add_edges.append(&mut add_edges);
    }
}

/// The two ends of an edge once both were looked up; an end that names no
/// port refuses the whole batch with [`UNRESOLVED_ENDPOINT`].
pub fn resolved_ends(source: Option<PortId>, target: Option<PortId>) -> (r: Result<(PortId, PortId), &'static str>)
    ensures
        match (source, target) {
            (Some(s), Some(t)) => r == Ok::<(PortId, PortId), &'static str>((s, t)),
            _ => r == Err::<(PortId, PortId), &'static str>(UNRESOLVED_ENDPOINT),
        },
{
    match (source, target) {
        (Some(s), Some(t)) => Ok((s, t)),
        _ => Err(UNRESOLVED_ENDPOINT),
    }
}

/// Extending never loses work: the extended batch writes nothing exactly when
/// neither part did, and every operation of both parts is in it, the first
/// part's before the second's.
pub proof fn lemma_extend_keeps_every_operation(
    after: ApplyTopologyBatch,
    before: ApplyTopologyBatch,
    other: ApplyTopologyBatch,
)
    requires
        ApplyTopologyBatch::extends(after, before, other),
    ensures
        after.writes_nothing() <==> (before.writes_nothing() && other.writes_nothing()),
        after.delete_edges@.take(before.delete_edges@.len() as int) == before.delete_edges@,
        after.delete_edges@.skip(before.delete_edges@.len() as int) == other.delete_edges@,
        after.add_edges@.take(before.add_edges@.len() as int) == before.add_edges@,
        after.add_edges@.skip(before.add_edges@.len() as int) == other.add_edges@,
{
    assert(after.delete_edges@.take(before.delete_edges@.len() as int) =~= before.delete_edges@);
    assert(after.delete_edges@.skip(before.delete_edges@.len() as int) =~= other.delete_edges@);
    assert(after.add_edges@.take(before.add_edges@.len() as int) =~= before.add_edges@);
    assert(after.add_edges@.skip(before.add_edges@.len() as int) =~= other.add_edges@);
}

/// Extending by an empty batch that names nothing leaves a batch as it was.
pub proof fn lemma_extend_by_nothing(
    after: ApplyTopologyBatch,
    before: ApplyTopologyBatch,
    other: ApplyTopologyBatch,
)
    requires
        ApplyTopologyBatch::extends(after, before, other),
        other.writes_nothing(),
        other.canvas is None,
        other.fence is None,
    ensures
        after.canvas == before.canvas,
        after.fence == before.fence,
        after.delete_edges@ == before.delete_edges@,
        after.delete_nodes@ == before.delete_nodes@,
        after.set_specs@ == before.set_specs@,
        after.reshape@ == before.reshape@,
        after.create_nodes@ == before.create_nodes@,
        after.add_edges@ == before.add_edges@,
{
    assert(after.delete_edges@ =~= before.delete_edges@);
    assert(after.delete_nodes@ =~= before.delete_nodes@);
    assert(after.set_specs@ =~= before.set_specs@);
    assert(after.reshape@ =~= before.reshape@);
    assert(after.create_nodes@ =~= before.create_nodes@);
    assert(after.add_edges@ =~= before.add_edges@);
}

} // verus!
