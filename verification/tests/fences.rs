use orchestration::entities::canvas::CanvasFence;
use orchestration::entities::fence::{fenced_bump_outcome, STALE_GENERATION};
use orchestration::entities::job_run::ClaimJobRun;
use orchestration::entities::view::{CommitCanvasDerivation, RootCounters};
use orchestration::events::live::live_time;
use orchestration::events::{
    elapsed, expiration_millis, DeriveStaleCanvasesSignal, IntervalJobExecutionSignal,
};

#[test]
fn one_write_lands_per_snapshot() {
    let fence = CanvasFence { root: "root".to_string(), generation: 5 };
    assert!(fence.admits(5));
    assert!(!fence.admits(6), "the bump of the first write fences out the second");
    assert_eq!(fenced_bump_outcome(true, &"root".to_string(), &fence), Ok(()));
    assert_eq!(fenced_bump_outcome(false, &"root".to_string(), &fence), Err(STALE_GENERATION));
    assert_eq!(fenced_bump_outcome(true, &"other".to_string(), &fence), Err(STALE_GENERATION));
}

#[test]
fn a_job_claim_is_at_most_once_per_tick_and_interval() {
    let tick = 1_790_000_000_000_000;
    let claim = ClaimJobRun::for_tick("sweep_liveness", 30, tick);
    assert!(claim.passes(None), "a job that never ran is claimed at once");
    assert!(claim.passes(Some(tick - 30_000_000)), "exactly one interval ago");
    assert!(!claim.passes(Some(tick - 29_000_000)), "the interval has not elapsed");
    assert!(!claim.passes(Some(tick)), "a redelivered tick is a no-op");
    let zero = ClaimJobRun::for_tick("sweep_liveness", 0, tick);
    assert!(!zero.passes(Some(tick)), "even with no interval a tick runs once");
}

#[test]
fn a_derivation_commits_once_and_never_over_a_newer_edit() {
    let root = RootCounters { generation: 8, derived_generation: 7, derived_view_seq: 3 };
    let pass = CommitCanvasDerivation {
        canvas: "root".to_string(),
        generation: 8,
        view_seq: 3,
        updates: Vec::new(),
    };
    assert!(pass.passes(root));
    let after = pass.committed(root);
    assert_eq!(after, RootCounters { generation: 8, derived_generation: 8, derived_view_seq: 3 });
    assert!(!pass.passes(after), "a second pass over the same state is fenced out");
    let stale = CommitCanvasDerivation { generation: 7, ..pass };
    assert!(!stale.passes(root));
    let acked = CommitCanvasDerivation {
        canvas: "root".to_string(),
        generation: 8,
        view_seq: 4,
        updates: Vec::new(),
    };
    assert!(acked.passes(after), "a worker's ack makes the tree stale again");
}

#[test]
fn signal_ticks_and_clock_helpers() {
    let signal = DeriveStaleCanvasesSignal { tick_unix_secs: 1_700_000_000 };
    assert_eq!(signal.tick_time(), 1_700_000_000_000_000);
    assert_eq!(live_time(1_700_000_000_000_001), 1_700_000_000_000_001);
    assert_eq!(live_time(i64::MAX), 0, "outside chrono's range reads as the epoch");
    assert!(elapsed(30, 100, 70));
    assert!(!elapsed(30, 99, 70));
    assert!(elapsed(30, i64::MAX, i64::MIN), "saturating, not overflowing");
    assert_eq!(expiration_millis(30), 30_000);
    assert_eq!(expiration_millis(i64::MAX), i64::MAX);
}
