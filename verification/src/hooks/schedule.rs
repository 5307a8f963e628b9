//! The scheduler's clock.
//!
//! The scheduler holds one [`IntervalJob`] per signal type and publishes the
//! ones that are due. Each job keeps its *own* last-fire timestamp, so a scan
//! that visits every job does not flatten their cadences.
use crate::events::{elapsed_spec, IntervalJobExecutionSignal};
use std::marker::PhantomData;
use vstd::prelude::*;

verus! {

/// One periodic signal's clock: the last tick it was published for.
pub struct IntervalJob<S> {
    last: Option<i64>,
    signal: PhantomData<S>,
}

impl<S> View for IntervalJob<S> {
    /// The tick the job last fired at, in seconds since the epoch.
    type V = Option<i64>;

    closed spec fn view(&self) -> Option<i64> {
        self.last
    }
}

impl<S> Default for IntervalJob<S> {
    /// A job that has never fired.
    fn default() -> (j: Self)
        ensures
            j@ == None::<i64>,
    {
        IntervalJob { last: None, signal: PhantomData }
    }
}

/// Whether a job whose last fire was `last` is due at `now`.
pub open spec fn job_due<S: IntervalJobExecutionSignal>(last: Option<i64>, now: i64) -> bool {
    match last {
        None => true,
        Some(l) => elapsed_spec(S::cadence(), now, l),
    }
}

impl<S: IntervalJobExecutionSignal> IntervalJob<S> {
    /// The signal to publish at `now` (seconds since the epoch), or `None`
    /// when this job's cadence has not elapsed yet. A job that has never fired
    /// is due at once; a fire restarts the clock at `now`.
    pub fn due(&mut self, now: i64) -> (r: Option<S>)
        ensures
            r is Some <==> job_due::<S>(old(self)@, now),
            r matches Some(s) ==> s.tick_of() == now,
            final(self)@ == (if r is Some {
                Some(now)
            } else {
                old(self)@
            }),
    {
        let signal = match self.last {
            None => S::tick(now),
            Some(last) => match S::time_pool(now, last) {
                Some(signal) => signal,
                None => {
                    return None;
                },
            },
        };
        self.last = Some(now);
        Some(signal)
    }
}

/// Two fires of one job are at least its cadence apart: once a job has fired
/// at `fired`, it is due again at `now` exactly when `now` is a whole cadence
/// later (within the range of `i64`).
pub proof fn lemma_fires_are_a_cadence_apart<S: IntervalJobExecutionSignal>(fired: i64, now: i64)
    requires
        S::cadence() > 0,
    ensures
        job_due::<S>(Some(fired), now) <==> now - fired >= S::cadence(),
{
}

} // verus!
