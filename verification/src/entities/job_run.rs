//! The last run of each periodic job: what makes an execution signal
//! at-most-once per interval across every consumer.
//!
//! One row per job, the record key being the job name. A consumer that
//! receives a periodic signal first tries to *claim* the run, and the claim
//! fences on two things at once:
//!
//! - `last_signal_tick < tick` — the scheduling tick must be newer than the
//!   last one that ran. A redelivered or backlogged message carries a tick that
//!   already ran, so it is a no-op whatever the clock says.
//! - `last_signal_tick <= tick_not_before` — the configured interval must have
//!   elapsed *between the two ticks*.
//!
//! Both fences compare *ticks*, never the wall clock of the last run:
//! `last_run_at` is stamped when a consumer gets round to the message, so
//! measuring the interval from it would subtract the processing delay from
//! every period. `last_run_at` is recorded for operators, not for the fence.
use crate::clock::{chrono_min, chrono_represents_micros, now_micros, offset_micros, offset_spec, Timestamp, MICROS_PER_SEC};
use vstd::prelude::*;

verus! {

/// The record key of an `orchestration_job_run` row: the job name.
pub type JobRunId = String;

#[derive(Debug, Clone)]
pub struct JobRunEntity {
    pub id: JobRunId,
    pub last_run_at: Timestamp,
    /// The scheduling tick of the signal that last ran this job.
    pub last_signal_tick: Timestamp,
}

/// Claims the run of `job` for the signal published at `tick`: succeeds when
/// the job has never run, or last ran for a tick that is both older than this
/// one and at least the configured interval behind it. Stamps the tick and
/// the wall clock so nobody else claims the same run.
#[derive(Debug)]
pub struct ClaimJobRun {
    /// The job name; it is the row id.
    pub job: &'static str,
    /// When the claim is made; recorded for operators, never compared.
    pub now: Timestamp,
    /// The scheduling tick of the signal being handled.
    pub tick: Timestamp,
    /// `tick` minus the configured interval: the newest `last_signal_tick`
    /// that may still be claimed over.
    pub tick_not_before: Timestamp,
}

impl ClaimJobRun {
    /// The claim a hook makes when it receives the signal published at `tick`
    /// for a job that may run once per `every_secs` seconds.
    ///
    /// The interval is applied to the *ticks*, not to `now`: a consumer stamps
    /// the row when it gets round to the message, so measuring from that would
    /// subtract the processing delay from every period and refuse every other
    /// signal whenever the interval equals the publication cadence.
    pub fn for_tick(job: &'static str, every_secs: u64, tick: Timestamp) -> (c: Self)
        ensures
            c.job == job,
            c.tick == tick,
            chrono_represents_micros(c.tick_not_before),
            offset_spec(tick, -(every_secs * MICROS_PER_SEC)) matches Some(t) ==> c.tick_not_before == t,
            offset_spec(tick, -(every_secs * MICROS_PER_SEC)) is None ==> forall|m: i64|
                m < c.tick_not_before ==> !chrono_represents_micros(m),
    {
        let every: i128 = every_secs as i128 * MICROS_PER_SEC as i128;
        let tick_not_before = match offset_micros(tick, -every) {
            Some(t) => t,
            None => chrono_min(),
        };
        ClaimJobRun { job, now: now_micros(), tick, tick_not_before }
    }
}

/// Whether a claim's fence lets it take a job whose last run was for the tick
/// `last` (`None`: the job has never run): the claim's tick must be newer than
/// the last one, and the last one no newer than `tick_not_before`.
pub open spec fn claim_passes(last: Option<Timestamp>, tick: Timestamp, tick_not_before: Timestamp) -> bool {
    match last {
        None => true,
        Some(l) => l < tick && l <= tick_not_before,
    }
}

impl ClaimJobRun {
    /// The fence the claim's statement checks against the job's row: passes
    /// when the job has never run, or last ran for a tick that is both older
    /// than this one and no newer than `tick_not_before`. A passing claim
    /// records its own tick as the job's last.
    pub fn passes(&self, last_signal_tick: Option<Timestamp>) -> (r: bool)
        ensures
            r == claim_passes(last_signal_tick, self.tick, self.tick_not_before),
    {
        match last_signal_tick {
            None => true,
            Some(l) => l < self.tick && l <= self.tick_not_before,
        }
    }
}

/// A job runs at most once per tick and once per interval: after a claim for
/// tick `first` went through, a later claim for tick `second` made with
/// `every_secs` goes through only when `second` is newer and at least the
/// interval after `first` — so a redelivered or backlogged signal is a no-op.
pub proof fn lemma_claims_are_an_interval_apart(
    first: Timestamp,
    second: Timestamp,
    second_not_before: Timestamp,
    every_secs: u64,
)
    requires
        offset_spec(second, -(every_secs * MICROS_PER_SEC)) == Some(second_not_before),
        claim_passes(Some(first), second, second_not_before),
    ensures
        first < second,
        second - first >= every_secs * MICROS_PER_SEC,
{
}

} // verus!
