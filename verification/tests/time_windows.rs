use orchestration::clock::{micros_of_nanos, offset_micros};
use orchestration::entities::job_run::ClaimJobRun;
use orchestration::hooks::acme::due_windows;
use orchestration::hooks::derive::rotation_cutoff_at;
use orchestration::hooks::live::{next_backoff, MAX_BACKOFF_MILLIS, MIN_BACKOFF_MILLIS};

const NOW: i64 = 1_790_000_096_789_012;

#[test]
fn a_claim_fences_on_the_tick_minus_the_interval() {
    let claim = ClaimJobRun::for_tick("sweep", 30, NOW);
    assert_eq!(claim.job, "sweep");
    assert_eq!(claim.tick, NOW);
    assert_eq!(claim.tick_not_before, NOW - 30_000_000);
    let huge = ClaimJobRun::for_tick("sweep", u64::MAX, NOW);
    assert_eq!(
        huge.tick_not_before,
        chrono::DateTime::<chrono::Utc>::MIN_UTC.timestamp_micros()
    );
}

#[test]
fn renewal_windows_saturate_at_chronos_range() {
    let w = due_windows(NOW, 30 * 24 * 3600, 3600);
    assert_eq!(w.renew_before, NOW + 30 * 24 * 3600 * 1_000_000);
    assert_eq!(w.retry_before, NOW - 3_600_000_000);
    let w = due_windows(NOW, u64::MAX, u64::MAX);
    assert_eq!(w.renew_before, chrono::DateTime::<chrono::Utc>::MAX_UTC.timestamp_micros());
    assert_eq!(w.retry_before, chrono::DateTime::<chrono::Utc>::MIN_UTC.timestamp_micros());
}

#[test]
fn offsets_stay_in_chronos_range() {
    assert_eq!(offset_micros(10, -3), Some(7));
    assert_eq!(offset_micros(i64::MAX, 1), None);
    assert_eq!(offset_micros(0, i128::MAX), None);
}

#[test]
fn the_rotation_cutoff_saturates_at_times_range() {
    let now_nanos = i128::from(NOW) * 1000 + 345;
    assert_eq!(rotation_cutoff_at(now_nanos, 10 * 24 * 3600), NOW + 10 * 24 * 3600 * 1_000_000);
    let max = time::PrimitiveDateTime::MAX.assume_utc().unix_timestamp_nanos();
    assert_eq!(i128::from(rotation_cutoff_at(now_nanos, u64::MAX)), max.div_euclid(1000));
    assert_eq!(micros_of_nanos(-1), -1);
    assert_eq!(micros_of_nanos(-1000), -1);
    assert_eq!(micros_of_nanos(1999), 1);
    assert_eq!(micros_of_nanos(i128::MAX), i64::MAX);
}

#[test]
fn reconnect_backoff_doubles_up_to_the_cap() {
    let mut delay = MIN_BACKOFF_MILLIS;
    let mut seen = vec![delay];
    for _ in 0..6 {
        delay = next_backoff(delay);
        seen.push(delay);
    }
    assert_eq!(seen, vec![500, 1000, 2000, 4000, 8000, 10000, 10000]);
    assert_eq!(next_backoff(u64::MAX), MAX_BACKOFF_MILLIS);
}
