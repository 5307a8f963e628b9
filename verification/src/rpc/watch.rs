//! What a health watch stream forwards.
//!
//! A stream opens with a snapshot of the records since a point in time, then
//! follows the live bus; after a resync or a lag it reads the database forward
//! from its watermark. Every record, from the bus or the database, passes the
//! same watermark: it is forwarded only when it is newer than the last one
//! forwarded, so a record the bus and the database both deliver reaches the
//! client once, and the stream never goes back in time.
use crate::clock::Timestamp;
use crate::events::live::{LiveMessage, NodeHealthLive, ServerHealthLive};
use crate::rpc::dashboard::{session_verdict, SessionCheck};
use crate::rpc::status::{Code, RpcStatus};
use vstd::prelude::*;

verus! {

/// The report time of the newest record a health stream has forwarded.
pub struct HealthWatermark {
    last: Timestamp,
}

impl View for HealthWatermark {
    type V = Timestamp;

    closed spec fn view(&self) -> Timestamp {
        self.last
    }
}

/// Whether a record reported at `time` passes a watermark at `last`.
pub open spec fn passes(last: Timestamp, time: Timestamp) -> bool {
    time > last
}

/// The watermark after a record reported at `time` was offered to it.
pub open spec fn mark_after(last: Timestamp, time: Timestamp) -> Timestamp {
    if passes(last, time) {
        time
    } else {
        last
    }
}

/// The watermark after offering `times` in order, starting at `start`.
pub open spec fn mark_after_all(start: Timestamp, times: Seq<Timestamp>) -> Timestamp
    decreases times.len(),
{
    if times.len() == 0 {
        start
    } else {
        mark_after(mark_after_all(start, times.drop_last()), times.last())
    }
}

/// The times a watermark starting at `start` lets through, in order, when
/// `times` are offered to it one by one.
pub open spec fn delivered(start: Timestamp, times: Seq<Timestamp>) -> Seq<Timestamp>
    decreases times.len(),
{
    if times.len() == 0 {
        Seq::empty()
    } else {
        let before = delivered(start, times.drop_last());
        if passes(mark_after_all(start, times.drop_last()), times.last()) {
            before.push(times.last())
        } else {
            before
        }
    }
}

impl HealthWatermark {
    /// The watermark a stream starts from: the newest record of its snapshot,
    /// or the point in time the snapshot was read from when it is empty.
    pub fn starting(snapshot_last: Option<Timestamp>, since: Timestamp) -> (w: Self)
        ensures
            w@ == match snapshot_last {
                Some(t) => t,
                None => since,
            },
    {
        match snapshot_last {
            Some(t) => HealthWatermark { last: t },
            None => HealthWatermark { last: since },
        }
    }

    /// The watermark, for reading the database forward from it.
    pub fn last(&self) -> (t: Timestamp)
        ensures
            t == self@,
    {
        self.last
    }

    /// Offers a record reported at `time`: `true` when it is to be forwarded,
    /// which moves the watermark to it.
    pub fn offer(&mut self, time: Timestamp) -> (forward: bool)
        ensures
            forward == passes(old(self)@, time),
            final(self)@ == mark_after(old(self)@, time),
    {
        if time <= self.last {
            return false;
        }
        self.last = time;
        true
    }
}

/// Which health a stream follows.
#[derive(Debug, Clone, Copy, PartialEq, Eq, Structural)]
pub enum HealthKind {
    Server,
    Pod,
}

/// How a stream names what it follows in its errors.
pub open spec fn health_kind_name(k: HealthKind) -> Seq<char> {
    match k {
        HealthKind::Server => "server health"@,
        HealthKind::Pod => "pod health"@,
    }
}

/// What happens to an open health stream.
#[derive(Debug)]
pub enum HealthStreamEvent {
    /// The client's end of the stream is gone.
    ReceiverClosed,
    /// The keep-alive timer fired and the session was checked.
    Tick(SessionCheck),
    /// A record of this stream, reported at `time`: from the bus, or from a
    /// read forward.
    Record { time: Timestamp },
    /// The bus resynced, or this stream lagged behind it: records may have
    /// been missed.
    Resync,
    /// Reading forward from the watermark failed.
    ReadFailed { error: String },
    /// The bus closed.
    HubClosed,
    /// A message was handed to the client: `delivered` is `false` when its
    /// end was gone.
    Sent { delivered: bool },
}

/// What a health stream does next.
#[derive(Debug)]
pub enum HealthStreamAction {
    /// Keep waiting.
    Wait,
    /// Send an empty keep-alive.
    SendKeepAlive,
    /// Send the record just offered.
    Forward,
    /// Read the records after `from` from the database, and offer each.
    ReadForward { from: Timestamp },
    /// End the stream, telling the client why when `status` is set.
    End { status: Option<RpcStatus> },
}

impl HealthWatermark {
    /// The stream's step on `event`. A record is forwarded only past the
    /// watermark; a resync or a lag reads forward from the watermark, because
    /// the database has every record the bus may have skipped; a failed read
    /// ends the stream, since the signal that asked for it is consumed; a
    /// session check that finds the session gone ends it too, and any other
    /// check sends a keep-alive.
    pub fn step(&mut self, kind: HealthKind, event: HealthStreamEvent) -> (a: HealthStreamAction)
        ensures
            match event {
                HealthStreamEvent::Record { time } => final(self)@ == mark_after(old(self)@, time)
                    && if passes(old(self)@, time) {
                    a is Forward
                } else {
                    a is Wait
                },
                _ => final(self)@ == old(self)@,
            },
            match event {
                HealthStreamEvent::ReceiverClosed => a matches HealthStreamAction::End { status: None },
                HealthStreamEvent::Tick(check) => if check == SessionCheck::Ended {
                    a matches HealthStreamAction::End { status: Some(s) } && s.code
                        == Code::Unauthenticated && s.message@ == "session ended"@
                } else {
                    a is SendKeepAlive
                },
                HealthStreamEvent::Record { .. } => true,
                HealthStreamEvent::Resync => a == (HealthStreamAction::ReadForward {
                    from: old(self)@,
                }),
                HealthStreamEvent::ReadFailed { error } => a matches HealthStreamAction::End {
                    status: Some(s),
                } && s.code == Code::Internal && s.message@ == "refetching "@ + health_kind_name(
                    kind,
                ) + " failed: "@ + error@,
                HealthStreamEvent::HubClosed => a matches HealthStreamAction::End { status: None },
                HealthStreamEvent::Sent { delivered } => if delivered {
                    a is Wait
                } else {
                    a matches HealthStreamAction::End { status: None }
                },
            },
    {
        match event {
            HealthStreamEvent::ReceiverClosed => HealthStreamAction::End { status: None },
            HealthStreamEvent::Tick(check) => match session_verdict(check) {
                Ok(()) => HealthStreamAction::SendKeepAlive,
                Err(s) => HealthStreamAction::End { status: Some(s) },
            },
            HealthStreamEvent::Record { time } => {
                if self.offer(time) {
                    HealthStreamAction::Forward
                } else {
                    HealthStreamAction::Wait
                }
            },
            HealthStreamEvent::Resync => HealthStreamAction::ReadForward { from: self.last },
            HealthStreamEvent::ReadFailed { error } => {
                proof {
                    reveal_strlit("refetching ");
                    reveal_strlit("server health");
                    reveal_strlit("pod health");
                    reveal_strlit(" failed: ");
                }
                let name = match kind {
                    HealthKind::Server => "server health",
                    HealthKind::Pod => "pod health",
                };
                let message = String::from_str("refetching ").concat(name).concat(" failed: ").concat(
                    error.as_str(),
                );
                HealthStreamAction::End {
                    status: Some(RpcStatus { code: Code::Internal, message }),
                }
            },
            HealthStreamEvent::HubClosed => HealthStreamAction::End { status: None },
            HealthStreamEvent::Sent { delivered } => {
                if delivered {
                    HealthStreamAction::Wait
                } else {
                    HealthStreamAction::End { status: None }
                }
            },
        }
    }
}

/// The record of a bus message that belongs to the server stream of
/// `server_key`: a server health message about that server, nothing else.
pub fn server_record_for(message: &LiveMessage, server_key: &str) -> (r: Option<ServerHealthLive>)
    ensures
        match *message {
            LiveMessage::ServerHealth { server, record, .. } => if server@ == server_key@ {
                r == Some(record)
            } else {
                r is None
            },
            _ => r is None,
        },
{
    match message {
        LiveMessage::ServerHealth { server, record, .. } => {
            if crate::text::text_eq(server.as_str(), server_key) {
                Some(record.copied())
            } else {
                None
            }
        },
        _ => None,
    }
}

/// The records of a bus message that belong to the pod stream of `pod_key`:
/// from a pod health batch, the rows about that pod, in order.
pub fn pod_records_for(message: &LiveMessage, pod_key: &str) -> (r: Vec<NodeHealthLive>)
    ensures
        match *message {
            LiveMessage::NodeHealth { records } => r@ == records@.filter(
                |n: NodeHealthLive| n.node@ == pod_key@,
            ),
            _ => r@.len() == 0,
        },
{
    match message {
        LiveMessage::NodeHealth { records } => {
            let mut out: Vec<NodeHealthLive> = Vec::new();
            let mut i: usize = 0;
            while i < records.len()
                invariant
                    i <= records@.len(),
                    out@ == records@.take(i as int).filter(
                        |n: NodeHealthLive| n.node@ == pod_key@,
                    ),
                decreases records@.len() - i,
            {
                proof {
                    let f = |n: NodeHealthLive| n.node@ == pod_key@;
                    assert(records@.take(i + 1) =~= records@.take(i as int).push(records@[i as int]));
                    records@.take(i as int).lemma_filter_push(records@[i as int], f);
                }
                if crate::text::text_eq(records[i].node.as_str(), pod_key) {
                    out.push(records[i].copied());
                }
                i = i + 1;
            }
            proof {
                assert(records@.take(records@.len() as int) =~= records@);
            }
            out
        },
        _ => Vec::new(),
    }
}

/// What a stream forwards is strictly newer than what it forwarded before:
/// offering any sequence of report times to a watermark lets through a
/// strictly increasing sequence, every element of it after the starting
/// watermark and none after the watermark it ends at. So no record reaches a
/// client twice, and none arrives out of order.
pub proof fn lemma_delivered_strictly_increase(start: Timestamp, times: Seq<Timestamp>)
    ensures
        forall|i: int, j: int|
            0 <= i < j < delivered(start, times).len() ==> #[trigger] delivered(start, times)[i]
                < #[trigger] delivered(start, times)[j],
        forall|i: int|
            0 <= i < delivered(start, times).len() ==> start < #[trigger] delivered(start, times)[i]
                <= mark_after_all(start, times),
        start <= mark_after_all(start, times),
    decreases times.len(),
{
    if times.len() > 0 {
        lemma_delivered_strictly_increase(start, times.drop_last());
        let d0 = delivered(start, times.drop_last());
        let m0 = mark_after_all(start, times.drop_last());
        let d = delivered(start, times);
        if passes(m0, times.last()) {
            assert(d == d0.push(times.last()));
            assert forall|i: int, j: int| 0 <= i < j < d.len() implies #[trigger] d[i] < #[trigger] d[j] by {
                if j < d0.len() {
                    assert(d[i] == d0[i] && d[j] == d0[j]);
                } else {
                    assert(d[i] == d0[i]);
                }
            }
            assert forall|i: int| 0 <= i < d.len() implies start < #[trigger] d[i] <= mark_after_all(
                start,
                times,
            ) by {
                if i < d0.len() {
                    assert(d[i] == d0[i]);
                }
            }
        } else {
            assert(d == d0);
        }
    }
}

/// A watermark only moves forward, and it ends at the newest time offered to
/// it when that is past the start.
pub proof fn lemma_mark_is_newest(start: Timestamp, times: Seq<Timestamp>)
    ensures
        forall|i: int| 0 <= i < times.len() ==> #[trigger] times[i] <= mark_after_all(start, times),
        mark_after_all(start, times) == start || exists|i: int|
            0 <= i < times.len() && #[trigger] times[i] == mark_after_all(start, times),
    decreases times.len(),
{
    if times.len() > 0 {
        lemma_mark_is_newest(start, times.drop_last());
        let m = mark_after_all(start, times.drop_last());
        assert forall|i: int| 0 <= i < times.len() implies #[trigger] times[i] <= mark_after_all(
            start,
            times,
        ) by {
            if i < times.len() - 1 {
                assert(times[i] == times.drop_last()[i]);
            }
        }
        if mark_after_all(start, times) != start {
            if mark_after_all(start, times) == times.last() {
                assert(times[times.len() - 1] == mark_after_all(start, times));
            } else {
                let i = choose|i: int|
                    0 <= i < times.drop_last().len() && #[trigger] times.drop_last()[i] == m;
                assert(times[i] == mark_after_all(start, times));
            }
        }
    }
}

} // verus!
