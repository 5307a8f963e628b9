use orchestration::events::{
    DeriveStaleCanvasesSignal, RotateRelayCertificatesSignal, TrimHealthHistorySignal,
};
use orchestration::hooks::schedule::IntervalJob;
use time::OffsetDateTime;

fn at(secs: i64) -> i64 {
    OffsetDateTime::from_unix_timestamp(1_700_000_000_i64.saturating_add(secs))
        .unwrap_or(OffsetDateTime::UNIX_EPOCH)
        .unix_timestamp()
}

#[test]
fn a_fresh_job_is_due_at_once_and_then_follows_its_cadence() {
    let mut job = IntervalJob::<DeriveStaleCanvasesSignal>::default();
    let first = job.due(at(0)).map(|s| s.tick_unix_secs);
    assert_eq!(first, Some(at(0)), "a new job fires at once");
    assert!(job.due(at(29)).is_none(), "29s is short of the 30s cadence");
    assert!(job.due(at(30)).is_some(), "the cadence elapsed exactly");
    assert!(job.due(at(59)).is_none(), "the clock restarts from the last fire");
}

#[test]
fn each_job_keeps_its_own_cadence_across_a_shared_scan() {
    let mut fast = IntervalJob::<DeriveStaleCanvasesSignal>::default();
    let mut slow = IntervalJob::<RotateRelayCertificatesSignal>::default();
    let mut medium = IntervalJob::<TrimHealthHistorySignal>::default();
    let (mut fast_fires, mut slow_fires, mut medium_fires) = (0, 0, 0);
    // One hour of five-second scans.
    for scan in 0..=720 {
        let now = at(scan * 5);
        fast_fires += usize::from(fast.due(now).is_some());
        medium_fires += usize::from(medium.due(now).is_some());
        slow_fires += usize::from(slow.due(now).is_some());
    }
    assert_eq!(fast_fires, 121, "30s over an hour, plus the immediate fire");
    assert_eq!(medium_fires, 13, "300s over an hour, plus the immediate fire");
    assert_eq!(slow_fires, 2, "3600s over an hour, plus the immediate fire");
}

#[test]
fn a_scan_that_is_late_fires_once_not_once_per_missed_cadence() {
    let mut job = IntervalJob::<DeriveStaleCanvasesSignal>::default();
    assert!(job.due(at(0)).is_some());
    assert!(job.due(at(3600)).is_some(), "an hour late, still one signal");
    assert!(job.due(at(3601)).is_none(), "and the cadence restarts there");
}
