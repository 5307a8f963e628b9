//! Reads of the universal-node layer spanning several entity kinds.
use crate::entities::canvas::{
    contains_text, fence_of, first_canvas, ids_of, last_index, last_index_of, texts, CanvasEntity,
    CanvasFence, CanvasId,
};
use crate::entities::connection::EdgeConnectionEntity;
use crate::entities::node::NodeWithPorts;
use crate::entities::port::PortId;
use crate::entities::server::ServerEntity;
use crate::vecs::reversed;
use vstd::prelude::*;

verus! {

/// A consistent read of everything the topology checker and the config deriver
/// need: one whole canvas tree, from its root.
#[derive(Debug, Clone)]
pub struct CanvasTopology {
    pub root: CanvasId,
    /// Every canvas of the tree, root first.
    pub canvases: Vec<CanvasEntity>,
    pub servers: Vec<ServerEntity>,
    pub nodes: Vec<NodeWithPorts>,
    pub edges: Vec<EdgeConnectionEntity>,
}

impl CanvasTopology {
    pub fn canvas_ids(&self) -> (r: Vec<CanvasId>)
        ensures
            r@.len() == self.canvases@.len(),
            forall|i: int| 0 <= i < self.canvases@.len() ==> #[trigger] r@[i] == self.canvases@[i].id,
    {
        ids_of(&self.canvases)
    }

    /// The fence a write validated against this snapshot must pass: the tree's
    /// root id and the generation it was read at. `None` when the snapshot
    /// carries no root row — an absent or empty canvas, which is not a writable
    /// state — so a validated caller fails closed rather than bumping
    /// unconditionally.
    pub fn fence(&self) -> (r: Option<CanvasFence>)
        ensures
            match first_canvas(self.canvases@, self.root@) {
                Some(c) => r matches Some(f) && f.root == self.root && f.generation == c.generation,
                None => r is None,
            },
    {
        fence_of(&self.root, &self.canvases)
    }
}

/// Loads the tree containing `canvas`. A canvas that does not exist yields an
/// empty topology whose `root` is the given id.
#[derive(Debug)]
pub struct LoadCanvasTopology {
    pub canvas: CanvasId,
}

/// Everything the dashboard renders for one canvas.
#[derive(Debug)]
pub struct LoadCanvasContents {
    pub canvas: CanvasId,
}

/// Everything the dashboard renders for one canvas: the canvas, its ancestors
/// root first, the canvases its nodes import, and its own servers, nodes and
/// the edges leaving them.
#[derive(Debug, Clone)]
pub struct CanvasContents {
    pub canvas: CanvasEntity,
    pub ancestors: Vec<CanvasEntity>,
    pub import_targets: Vec<CanvasEntity>,
    pub servers: Vec<ServerEntity>,
    pub nodes: Vec<NodeWithPorts>,
    pub edges: Vec<EdgeConnectionEntity>,
}

/// The ancestors among the first `k` ids of a root-first chain: each id once,
/// at its first place, as the last row of `canvases` with that id; an id
/// without a row is skipped.
pub open spec fn ancestors_upto(chain: Seq<CanvasId>, canvases: Seq<CanvasEntity>, k: nat) -> Seq<CanvasEntity>
    decreases k,
{
    if k == 0 {
        Seq::empty()
    } else {
        let before = ancestors_upto(chain, canvases, (k - 1) as nat);
        let id = chain[k - 1]@;
        if (exists|j: int| 0 <= j < k - 1 && #[trigger] chain[j]@ == id) || last_index_of(canvases, id)
            < 0 {
            before
        } else {
            before.push(canvases[last_index_of(canvases, id)])
        }
    }
}

/// The ports of the nodes, all of them.
pub open spec fn port_ids(nodes: Seq<NodeWithPorts>) -> Seq<Seq<char>>
    decreases nodes.len(),
{
    if nodes.len() == 0 {
        Seq::empty()
    } else {
        port_ids(nodes.drop_last()) + nodes.last().ports@.map_values(|p: crate::entities::port::PortEntity| p.id@)
    }
}

fn ancestors_of_chain(chain: &Vec<CanvasId>, canvases: &Vec<CanvasEntity>) -> (r: Vec<CanvasEntity>)
    ensures
        r@ == ancestors_upto(chain@, canvases@, chain@.len()),
{
    let mut out: Vec<CanvasEntity> = Vec::new();
    let mut k: usize = 0;
    while k < chain.len()
        invariant
            k <= chain@.len(),
            out@ == ancestors_upto(chain@, canvases@, k as nat),
        decreases chain@.len() - k,
    {
        let id = &chain[k];
        let mut seen = false;
        let mut j: usize = 0;
        while j < k
            invariant
                j <= k,
                k < chain@.len(),
                *id == chain@[k as int],
                seen <==> exists|m: int| 0 <= m < j && #[trigger] chain@[m]@ == chain@[k as int]@,
            decreases k - j,
        {
            if chain[j] == *id {
                seen = true;
                assert(chain@[j as int]@ == chain@[k as int]@);
            }
            j = j + 1;
        }
        if !seen {
            match last_index(canvases, id) {
                Some(i) => {
                    proof {
                        crate::entities::canvas::lemma_last_index_bound(canvases@, id@);
                    }
                    out.push(canvases[i].copied());
                },
                None => {},
            }
        }
        k = k + 1;
    }
    out
}

/// What the dashboard renders for `canvas`, out of a read of its whole tree:
/// `chain` is the canvas's ancestors parent first, `import_targets` the
/// canvases its nodes import as their specs name them. The ancestors come
/// root first, each once; the servers and nodes are the canvas's own, in the
/// read's order; the edges are those leaving a port of one of those nodes.
pub fn contents_of(
    canvas: CanvasEntity,
    rows: CanvasTopology,
    chain: Vec<CanvasId>,
    import_targets: &Vec<CanvasId>,
) -> (r: CanvasContents)
    ensures
        r.canvas == canvas,
        r.ancestors@ == ancestors_upto(chain@.reverse(), rows.canvases@, chain@.len()),
        r.import_targets@ == rows.canvases@.filter(
            |c: CanvasEntity| texts(import_targets@).contains(c.id@),
        ),
        r.servers@ == rows.servers@.filter(|s: ServerEntity| s.canvas@ == canvas.id@),
        r.nodes@ == rows.nodes@.filter(|n: NodeWithPorts| n.node.canvas@ == canvas.id@),
        r.edges@ == rows.edges@.filter(
            |e: EdgeConnectionEntity| port_ids(r.nodes@).contains(e.source@),
        ),
{
    let mut reversed: Vec<CanvasId> = Vec::new();
    let mut i: usize = chain.len();
    while i > 0
        invariant
            i <= chain@.len(),
            reversed@ == chain@.skip(i as int).reverse(),
        decreases i,
    {
        proof {
            assert(chain@.skip(i - 1).reverse() =~= chain@.skip(i as int).reverse().push(chain@[i - 1]));
        }
        reversed.push(chain[i - 1].clone());
        i = i - 1;
    }
    proof {
        assert(chain@.skip(0) =~= chain@);
    }
    let ancestors = ancestors_of_chain(&reversed, &rows.canvases);

    let mut targets: Vec<CanvasEntity> = Vec::new();
    let mut k: usize = 0;
    while k < rows.canvases.len()
        invariant
            k <= rows.canvases@.len(),
            targets@ == rows.canvases@.take(k as int).filter(
                |c: CanvasEntity| texts(import_targets@).contains(c.id@),
            ),
        decreases rows.canvases@.len() - k,
    {
        proof {
            let f = |c: CanvasEntity| texts(import_targets@).contains(c.id@);
            assert(rows.canvases@.take(k + 1) =~= rows.canvases@.take(k as int).push(rows.canvases@[k as int]));
            rows.canvases@.take(k as int).lemma_filter_push(rows.canvases@[k as int], f);
        }
        if contains_text(import_targets, &rows.canvases[k].id) {
            targets.push(rows.canvases[k].copied());
        }
        k = k + 1;
    }
    proof {
        assert(rows.canvases@.take(rows.canvases@.len() as int) =~= rows.canvases@);
    }

    let CanvasTopology { root: _, canvases: _, servers, nodes, edges } = rows;
    let own_servers = servers_on(&canvas.id, servers);
    let own_nodes = nodes_on(&canvas.id, nodes);
    let ports = ports_of_nodes(&own_nodes);
    let own_edges = edges_from(&ports, edges);
    CanvasContents {
        canvas,
        ancestors,
        import_targets: targets,
        servers: own_servers,
        nodes: own_nodes,
        edges: own_edges,
    }
}

fn servers_on(canvas: &CanvasId, servers: Vec<ServerEntity>) -> (r: Vec<ServerEntity>)
    ensures
        r@ == servers@.filter(|s: ServerEntity| s.canvas@ == canvas@),
{
    let ghost all = servers@;
    let n = servers.len();
    let mut back = reversed(servers);
    let mut out: Vec<ServerEntity> = Vec::new();
    let mut taken: usize = 0;
    while back.len() > 0
        invariant
            n == all.len(),
            taken + back@.len() == all.len(),
            forall|m: int| 0 <= m < back@.len() ==> #[trigger] back@[m] == all[all.len() - 1 - m],
            out@ == all.take(taken as int).filter(|s: ServerEntity| s.canvas@ == canvas@),
        decreases back@.len(),
    {
        let s = back.pop().unwrap();
        proof {
            let f = |s: ServerEntity| s.canvas@ == canvas@;
            assert(s == all[taken as int]);
            assert(all.take(taken + 1) =~= all.take(taken as int).push(s));
            all.take(taken as int).lemma_filter_push(s, f);
        }
        if s.canvas == *canvas {
            out.push(s);
        }
        taken = taken + 1;
    }
    proof {
        assert(all.take(all.len() as int) =~= all);
    }
    out
}

fn nodes_on(canvas: &CanvasId, nodes: Vec<NodeWithPorts>) -> (r: Vec<NodeWithPorts>)
    ensures
        r@ == nodes@.filter(|n: NodeWithPorts| n.node.canvas@ == canvas@),
{
    let ghost all = nodes@;
    let n = nodes.len();
    let mut back = reversed(nodes);
    let mut out: Vec<NodeWithPorts> = Vec::new();
    let mut taken: usize = 0;
    while back.len() > 0
        invariant
            n == all.len(),
            taken + back@.len() == all.len(),
            forall|m: int| 0 <= m < back@.len() ==> #[trigger] back@[m] == all[all.len() - 1 - m],
            out@ == all.take(taken as int).filter(|n: NodeWithPorts| n.node.canvas@ == canvas@),
        decreases back@.len(),
    {
        let n = back.pop().unwrap();
        proof {
            let f = |n: NodeWithPorts| n.node.canvas@ == canvas@;
            assert(n == all[taken as int]);
            assert(all.take(taken + 1) =~= all.take(taken as int).push(n));
            all.take(taken as int).lemma_filter_push(n, f);
        }
        if n.node.canvas == *canvas {
            out.push(n);
        }
        taken = taken + 1;
    }
    proof {
        assert(all.take(all.len() as int) =~= all);
    }
    out
}

fn ports_of_nodes(nodes: &Vec<NodeWithPorts>) -> (r: Vec<PortId>)
    ensures
        texts(r@) == port_ids(nodes@),
{
    let mut out: Vec<PortId> = Vec::new();
    let mut i: usize = 0;
    while i < nodes.len()
        invariant
            i <= nodes@.len(),
            texts(out@) == port_ids(nodes@.take(i as int)),
        decreases nodes@.len() - i,
    {
        let ghost start = out@;
        let ports = &nodes[i].ports;
        let mut j: usize = 0;
        while j < ports.len()
            invariant
                j <= ports@.len(),
                out@.len() == start.len() + j,
                out@.take(start.len() as int) == start,
                texts(out@) == texts(start) + ports@.take(j as int).map_values(
                    |p: crate::entities::port::PortEntity| p.id@,
                ),
            decreases ports@.len() - j,
        {
            let ghost before = out@;
            out.push(ports[j].id.clone());
            proof {
                assert(texts(out@) =~= texts(before).push(ports@[j as int].id@));
                assert(ports@.take(j + 1).map_values(|p: crate::entities::port::PortEntity| p.id@)
                    =~= ports@.take(j as int).map_values(|p: crate::entities::port::PortEntity| p.id@).push(
                    ports@[j as int].id@,
                ));
                assert(out@.take(start.len() as int) =~= start);
            }
            j = j + 1;
        }
        proof {
            assert(ports@.take(ports@.len() as int) =~= ports@);
            assert(nodes@.take(i + 1).drop_last() =~= nodes@.take(i as int));
            assert(nodes@.take(i + 1).last() == nodes@[i as int]);
        }
        i = i + 1;
    }
    proof {
        assert(nodes@.take(nodes@.len() as int) =~= nodes@);
    }
    out
}

fn edges_from(ports: &Vec<PortId>, edges: Vec<EdgeConnectionEntity>) -> (r: Vec<EdgeConnectionEntity>)
    ensures
        r@ == edges@.filter(|e: EdgeConnectionEntity| texts(ports@).contains(e.source@)),
{
    let ghost all = edges@;
    let n = edges.len();
    let mut back = reversed(edges);
    let mut out: Vec<EdgeConnectionEntity> = Vec::new();
    let mut taken: usize = 0;
    while back.len() > 0
        invariant
            n == all.len(),
            taken + back@.len() == all.len(),
            forall|m: int| 0 <= m < back@.len() ==> #[trigger] back@[m] == all[all.len() - 1 - m],
            out@ == all.take(taken as int).filter(
                |e: EdgeConnectionEntity| texts(ports@).contains(e.source@),
            ),
        decreases back@.len(),
    {
        let e = back.pop().unwrap();
        proof {
            let f = |e: EdgeConnectionEntity| texts(ports@).contains(e.source@);
            assert(e == all[taken as int]);
            assert(all.take(taken + 1) =~= all.take(taken as int).push(e));
            all.take(taken as int).lemma_filter_push(e, f);
        }
        if contains_text(ports, &e.source) {
            out.push(e);
        }
        taken = taken + 1;
    }
    proof {
        assert(all.take(all.len() as int) =~= all);
    }
    out
}

} // verus!
