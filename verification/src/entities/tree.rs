//! Walking a canvas tree.
//!
//! A canvas names its `parent`; a canvas without one is a root. The walks
//! themselves run in the database; what they hand back is checked here: a walk
//! that reached the depth cap is refused, and the root of a canvas is the last
//! of its ancestors, or the canvas itself.
use crate::entities::canvas::CanvasId;
use vstd::prelude::*;

verus! {

/// Deeper than this and the tree is refused rather than walked further.
pub const MAX_DEPTH: i32 = 32;

pub const NESTING_TOO_DEEP: &'static str = "canvas nesting deeper than 32 levels";

/// One step of a walk: a canvas and how far it sits from where the walk started.
pub struct DepthRow {
    pub canvas: CanvasId,
    pub depth: i32,
}

/// Refuses a walk whose last step reached [`MAX_DEPTH`].
pub fn guard_depth(rows: &Vec<DepthRow>) -> (r: Result<(), &'static str>)
    ensures
        r is Err <==> rows@.len() > 0 && rows@.last().depth >= MAX_DEPTH,
        r matches Err(e) ==> e == NESTING_TOO_DEEP,
{
    if rows.len() > 0 && rows[rows.len() - 1].depth >= MAX_DEPTH {
        Err(NESTING_TOO_DEEP)
    } else {
        Ok(())
    }
}

/// The ids of a walk, in walk order.
pub fn walk_ids(rows: Vec<DepthRow>) -> (ids: Vec<CanvasId>)
    ensures
        ids@.len() == rows@.len(),
        forall|i: int| 0 <= i < rows@.len() ==> #[trigger] ids@[i] == rows@[i].canvas,
{
    let mut rows = rows;
    let mut ids: Vec<CanvasId> = Vec::new();
    let ghost all = rows@;
    let mut i: usize = 0;
    while rows.len() > 0
        invariant
            rows@.len() + ids@.len() == all.len(),
            forall|k: int| 0 <= k < rows@.len() ==> #[trigger] rows@[k] == all[k],
            forall|k: int|
                0 <= k < ids@.len() ==> #[trigger] ids@[k] == all[all.len() - 1 - k].canvas,
        decreases rows@.len(),
    {
        let row = rows.pop().unwrap();
        ids.push(row.canvas);
    }
    let mut out: Vec<CanvasId> = Vec::new();
    while ids.len() > 0
        invariant
            ids@.len() + out@.len() == all.len(),
            forall|k: int|
                0 <= k < ids@.len() ==> #[trigger] ids@[k] == all[all.len() - 1 - k].canvas,
            forall|k: int| 0 <= k < out@.len() ==> #[trigger] out@[k] == all[k].canvas,
        decreases ids@.len(),
    {
        let id = ids.pop().unwrap();
        out.push(id);
    }
    out
}

/// The root of the tree a canvas belongs to, given its ancestors parent
/// first: the last ancestor, or the canvas itself for a root.
pub fn root_from_ancestors(canvas: &CanvasId, ancestors: Vec<CanvasId>) -> (root: CanvasId)
    ensures
        ancestors@.len() > 0 ==> root == ancestors@.last(),
        ancestors@.len() == 0 ==> root == *canvas,
{
    let mut ancestors = ancestors;
    match ancestors.pop() {
        Some(root) => root,
        None => canvas.clone(),
    }
}

} // verus!
