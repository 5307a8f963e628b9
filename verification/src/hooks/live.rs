//! The live bus's events, and the reconnect schedule of the subscriber that
//! feeds it.
//!
//! A subscriber that reconnects has a gap: whatever was published while it was
//! away is gone for good, because pub/sub does not queue. Rather than guess,
//! the subscriber broadcasts [`LiveEvent::Resync`] after every successful
//! (re)connect — including the first — and every consumer answers it by
//! reading the database again. The same event is what a lagging consumer sees,
//! so there is exactly one recovery path.
use crate::events::live::LiveMessage;
use std::sync::Arc;
use vstd::prelude::*;

verus! {

/// How many events a slow consumer may fall behind before it is told to resync.
pub const BUS_CAPACITY: usize = 1024;

/// How often the subscriber pings its connection, in seconds. A pub/sub
/// connection is otherwise silent, so a half-open socket would look exactly
/// like an idle fleet.
pub const PING_INTERVAL_SECS: u64 = 15;

/// The first reconnect delay, in milliseconds, doubled per failure up to
/// [`MAX_BACKOFF_MILLIS`].
pub const MIN_BACKOFF_MILLIS: u64 = 500;

pub const MAX_BACKOFF_MILLIS: u64 = 10000;

#[derive(Debug, Clone)]
pub enum LiveEvent {
    /// One published change. Shared, because every watcher on this replica
    /// sees the same message and only reads it.
    Message(Arc<LiveMessage>),
    /// Emitted after every (re)connect: state may have been missed, so reload.
    Resync,
}

/// The delay before the next reconnect after one more failure: double the
/// last, capped at [`MAX_BACKOFF_MILLIS`].
pub fn next_backoff(backoff_millis: u64) -> (next: u64)
    ensures
        next == (if 2 * backoff_millis < MAX_BACKOFF_MILLIS {
            2 * backoff_millis
        } else {
            MAX_BACKOFF_MILLIS as int
        }),
{
    let doubled = match backoff_millis.checked_mul(2) {
        Some(d) => d,
        None => u64::MAX,
    };
    if doubled < MAX_BACKOFF_MILLIS {
        doubled
    } else {
        MAX_BACKOFF_MILLIS
    }
}

/// Where the subscriber stands between two events: the delay it waits before
/// the next reconnect should the current attempt fail.
#[derive(Debug, Clone, Copy, PartialEq, Eq, Structural)]
pub struct SubscriberState {
    pub backoff_millis: u64,
}

impl SubscriberState {
    /// The delay stays within `[MIN_BACKOFF_MILLIS, MAX_BACKOFF_MILLIS]`.
    pub open spec fn wf(self) -> bool {
        MIN_BACKOFF_MILLIS <= self.backoff_millis <= MAX_BACKOFF_MILLIS
    }

    /// A subscriber that has not tried to connect yet.
    pub fn starting() -> (s: Self)
        ensures
            s.backoff_millis == MIN_BACKOFF_MILLIS,
            s.wf(),
    {
        SubscriberState { backoff_millis: MIN_BACKOFF_MILLIS }
    }
}

/// What happened to the subscriber's connection.
#[derive(Debug, Clone, Copy, PartialEq, Eq, Structural)]
pub enum SubscriberEvent {
    /// The process is shutting down.
    ShutdownRequested,
    /// Opening a connection failed.
    ConnectFailed,
    /// A connection is open.
    ConnectOpened,
    /// Subscribing to the live channel failed.
    SubscribeFailed,
    /// The connection is subscribed to the live channel.
    Subscribed,
    /// The connection stopped answering pings, or closed.
    ConnectionLost,
    /// A payload arrived; `decoded` says whether this build could read it.
    Payload { decoded: bool },
}

/// What the subscriber does next.
#[derive(Debug, Clone, Copy, PartialEq, Eq, Structural)]
pub enum SubscriberAction {
    /// Return.
    Stop,
    /// Wait `after_millis` (or stop, should the shutdown fire first), then
    /// connect again.
    Retry { after_millis: u64 },
    /// Subscribe the open connection to the live channel.
    Subscribe,
    /// Tell every watcher to reload, then ping and read the connection: state
    /// may have been missed while the subscriber was away.
    Resync,
    /// Connect again at once.
    Reconnect,
    /// Hand the decoded message to the bus and keep reading.
    Publish,
    /// Drop the payload (a replica running another build) and keep reading.
    Drop,
}

/// The subscriber's state and action after `event`. A failed connect or
/// subscribe waits the current delay and doubles it for next time (up to the
/// cap); a subscribed connection resets it and resyncs before anything is
/// published; a lost connection reconnects at once.
pub fn subscriber_step(state: SubscriberState, event: SubscriberEvent) -> (r: (
    SubscriberState,
    SubscriberAction,
))
    ensures
        state.wf() ==> r.0.wf(),
        match event {
            SubscriberEvent::ShutdownRequested => r == (state, SubscriberAction::Stop),
            SubscriberEvent::ConnectFailed | SubscriberEvent::SubscribeFailed => r.1
                == (SubscriberAction::Retry { after_millis: state.backoff_millis })
                && r.0.backoff_millis == (if 2 * state.backoff_millis < MAX_BACKOFF_MILLIS {
                2 * state.backoff_millis
            } else {
                MAX_BACKOFF_MILLIS as int
            }),
            SubscriberEvent::ConnectOpened => r == (state, SubscriberAction::Subscribe),
            SubscriberEvent::Subscribed => r == (
                SubscriberState { backoff_millis: MIN_BACKOFF_MILLIS },
                SubscriberAction::Resync,
            ),
            SubscriberEvent::ConnectionLost => r == (state, SubscriberAction::Reconnect),
            SubscriberEvent::Payload { decoded } => r == (
                state,
                if decoded {
                    SubscriberAction::Publish
                } else {
                    SubscriberAction::Drop
                },
            ),
        },
{
    match event {
        SubscriberEvent::ShutdownRequested => (state, SubscriberAction::Stop),
        SubscriberEvent::ConnectFailed | SubscriberEvent::SubscribeFailed => (
            SubscriberState { backoff_millis: next_backoff(state.backoff_millis) },
            SubscriberAction::Retry { after_millis: state.backoff_millis },
        ),
        SubscriberEvent::ConnectOpened => (state, SubscriberAction::Subscribe),
        SubscriberEvent::Subscribed => (
            SubscriberState { backoff_millis: MIN_BACKOFF_MILLIS },
            SubscriberAction::Resync,
        ),
        SubscriberEvent::ConnectionLost => (state, SubscriberAction::Reconnect),
        SubscriberEvent::Payload { decoded } => (
            state,
            if decoded {
                SubscriberAction::Publish
            } else {
                SubscriberAction::Drop
            },
        ),
    }
}

/// The delay after `failures` consecutive failures: the first is
/// [`MIN_BACKOFF_MILLIS`], each one more doubles it, up to the cap.
pub open spec fn backoff_after(failures: nat) -> int
    decreases failures,
{
    if failures == 0 {
        MIN_BACKOFF_MILLIS as int
    } else {
        let last = backoff_after((failures - 1) as nat);
        if 2 * last < MAX_BACKOFF_MILLIS {
            2 * last
        } else {
            MAX_BACKOFF_MILLIS as int
        }
    }
}

/// The reconnect delay never leaves `[MIN_BACKOFF_MILLIS, MAX_BACKOFF_MILLIS]`,
/// never shrinks while failures go on, and reaches the cap after five
/// failures in a row.
pub proof fn lemma_backoff_bounded(failures: nat)
    ensures
        MIN_BACKOFF_MILLIS <= backoff_after(failures) <= MAX_BACKOFF_MILLIS,
        backoff_after(failures) <= backoff_after(failures + 1),
        failures >= 5 ==> backoff_after(failures) == MAX_BACKOFF_MILLIS,
    decreases failures,
{
    if failures > 0 {
        lemma_backoff_bounded((failures - 1) as nat);
    }
    if failures >= 5 {
        if failures == 5 {
            reveal_with_fuel(backoff_after, 6);
        } else {
            lemma_backoff_bounded((failures - 1) as nat);
        }
    }
}

} // verus!
