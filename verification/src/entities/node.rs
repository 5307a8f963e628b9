//! Universal nodes, as the rows of the topology layer refer to them.
//!
//! A node's spec and the lane it was generated for are stored as JSON and
//! carried through this library as that text; only the service that compiles
//! them reads inside.
use crate::entities::canvas::{CanvasId, CanvasUiPosition};
use crate::entities::port::PortEntity;
use vstd::prelude::*;

verus! {

/// The record key of an `orchestration_node` row.
pub type NodeId = String;

/// A node's spec, as its stored JSON.
pub type NodeSpec = String;

/// The lane a generated node belongs to, as its stored JSON.
pub type Lane = String;

/// An `orchestration_node` row.
#[derive(Debug, Clone)]
pub struct NodeEntity {
    pub id: NodeId,
    pub canvas: CanvasId,
    pub name: String,
    pub comment: String,
    pub spec: NodeSpec,
    pub position: CanvasUiPosition,
    /// Set on a node generated for a lane.
    pub lane: Option<Lane>,
}

/// A node with its ports, by position.
#[derive(Debug, Clone)]
pub struct NodeWithPorts {
    pub node: NodeEntity,
    pub ports: Vec<PortEntity>,
}

/// The ports of `ports` owned by node `id`, in order.
pub open spec fn ports_of(id: Seq<char>, ports: Seq<PortEntity>) -> Seq<PortEntity> {
    ports.filter(|p: PortEntity| p.owner@ == id)
}

/// Each node with the ports it owns, in the order `ports` lists them; the
/// nodes keep their order.
pub fn attach_ports(nodes: Vec<NodeEntity>, ports: &Vec<PortEntity>) -> (r: Vec<NodeWithPorts>)
    ensures
        r@.len() == nodes@.len(),
        forall|i: int|
            0 <= i < nodes@.len() ==> {
                let n = #[trigger] r@[i];
                &&& n.node == nodes@[i]
                &&& n.ports@ == ports_of(nodes@[i].id@, ports@)
            },
{
    let mut nodes = nodes;
    let ghost all = nodes@;
    let mut reversed: Vec<NodeWithPorts> = Vec::new();
    while nodes.len() > 0
        invariant
            nodes@.len() + reversed@.len() == all.len(),
            forall|k: int| 0 <= k < nodes@.len() ==> #[trigger] nodes@[k] == all[k],
            forall|k: int|
                0 <= k < reversed@.len() ==> {
                    let n = #[trigger] reversed@[k];
                    &&& n.node == all[all.len() - 1 - k]
                    &&& n.ports@ == ports_of(all[all.len() - 1 - k].id@, ports@)
                },
        decreases nodes@.len(),
    {
        let node = nodes.pop().unwrap();
        let mut own: Vec<PortEntity> = Vec::new();
        let mut j: usize = 0;
        while j < ports.len()
            invariant
                j <= ports@.len(),
                own@ == ports_of(node.id@, ports@.take(j as int)),
            decreases ports@.len() - j,
        {
            proof {
                let f = |p: PortEntity| p.owner@ == node.id@;
                assert(ports@.take(j + 1) =~= ports@.take(j as int).push(ports@[j as int]));
                ports@.take(j as int).lemma_filter_push(ports@[j as int], f);
            }
            if ports[j].owner == node.id {
                own.push(ports[j].copied());
            }
            j = j + 1;
        }
        proof {
            assert(ports@.take(ports@.len() as int) =~= ports@);
        }
        reversed.push(NodeWithPorts { node, ports: own });
    }
    let mut out: Vec<NodeWithPorts> = Vec::new();
    while reversed.len() > 0
        invariant
            reversed@.len() + out@.len() == all.len(),
            forall|k: int|
                0 <= k < reversed@.len() ==> {
                    let n = #[trigger] reversed@[k];
                    &&& n.node == all[all.len() - 1 - k]
                    &&& n.ports@ == ports_of(all[all.len() - 1 - k].id@, ports@)
                },
            forall|k: int|
                0 <= k < out@.len() ==> {
                    let n = #[trigger] out@[k];
                    &&& n.node == all[k]
                    &&& n.ports@ == ports_of(all[k].id@, ports@)
                },
        decreases reversed@.len(),
    {
        let n = reversed.pop().unwrap();
        out.push(n);
    }
    out
}

} // verus!
