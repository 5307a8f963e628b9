//! The optimistic generation fence shared by every validated write path.
//!
//! A validated mutation reads a canvas tree, checks the graph its edit would
//! produce, and only then writes, in a separate transaction. The write bumps
//! the root generation with a compare-and-set that fails with
//! [`STALE_GENERATION`] when the root has moved since the read.
use crate::entities::canvas::{CanvasFence, CanvasId};
use vstd::prelude::*;

verus! {

/// The conflict a fenced write reports when it loses the race.
pub const STALE_GENERATION: &'static str = "orchestration_stale_generation";

/// The verdict of a fenced bump: `bumped` says whether the compare-and-set on
/// the fence's root matched, `root_now` is the root the canvas belongs to
/// after it. The write stands only when both still agree with the fence.
pub fn fenced_bump_outcome(bumped: bool, root_now: &CanvasId, fence: &CanvasFence) -> (r: Result<
    (),
    &'static str,
>)
    ensures
        r is Ok <==> bumped && root_now@ == fence.root@,
        r matches Err(e) ==> e == STALE_GENERATION,
{
    if !bumped {
        return Err(STALE_GENERATION);
    }
    if *root_now != fence.root {
        return Err(STALE_GENERATION);
    }
    Ok(())
}

/// Whether a fenced bump lands on a root at `generation`: the root must still
/// be at the generation the fence read.
pub open spec fn bump_lands(generation: i64, fence: CanvasFence) -> bool {
    generation == fence.generation
}

impl CanvasFence {
    /// The compare-and-set a fenced bump makes on its root's generation.
    pub fn admits(&self, generation: i64) -> (r: bool)
        ensures
            r == bump_lands(generation, *self),
    {
        generation == self.generation
    }
}

/// One write per snapshot: of two writes validated against the same snapshot,
/// the one that lands bumps the generation, so the other one's compare-and-set
/// fails and it loses the race.
pub proof fn lemma_one_write_per_snapshot(generation: i64, fence: CanvasFence)
    requires
        bump_lands(generation, fence),
        generation < i64::MAX,
    ensures
        !bump_lands((generation + 1) as i64, fence),
{
}

} // verus!
