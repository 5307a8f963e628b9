//! The dashboard API's stream bookkeeping and the history windows its reads
//! take.
use crate::clock::{
    chrono_min, chrono_represents_micros, now_micros, offset_micros, offset_spec,
    parse_rfc3339_micros, rfc3339_parse, Timestamp,
};
use crate::rpc::status::{Code, RpcStatus};
use vstd::prelude::*;

verus! {

/// How many events a stream may have queued before the sender waits. Small on
/// purpose: a client that cannot keep up wants the newest picture, not a
/// backlog.
pub const STREAM_CAPACITY: usize = 4;

/// How many times a stream's recovery read is tried before it gives up and
/// ends the stream. The signal that triggered the read is already consumed,
/// so a swallowed failure would leave the gap open until the next bus
/// reconnect.
pub const RECOVERY_ATTEMPTS: usize = 3;

/// The pause between two recovery reads, in milliseconds.
pub const RECOVERY_BACKOFF_MILLIS: u64 = 250;

/// After recovery read number `attempt` (counted from 1) failed: the number of
/// the next one, or `None` when the last error is to be returned.
pub fn next_recovery_attempt(attempt: usize) -> (r: Option<usize>)
    ensures
        attempt < RECOVERY_ATTEMPTS ==> r == Some((attempt + 1) as usize),
        attempt >= RECOVERY_ATTEMPTS ==> r is None,
{
    if attempt < RECOVERY_ATTEMPTS {
        Some(attempt + 1)
    } else {
        None
    }
}

/// What re-validating a stream's session found.
#[derive(Debug, Clone, Copy, PartialEq, Eq, Structural)]
pub enum SessionCheck {
    /// The session is still live.
    Valid,
    /// The session resolves to nothing: a logout or an expiry.
    Ended,
    /// The read failed.
    Failed,
}

/// Whether a stream survives a session check. A failed read is *not* an
/// ending: cutting every open dashboard over one failed read would turn a
/// blip into a fleet-wide reconnect storm. A session that resolves to nothing
/// is, because the stream has no right to the data any more.
pub fn session_verdict(check: SessionCheck) -> (r: Result<(), RpcStatus>)
    ensures
        check == SessionCheck::Ended ==> (r matches Err(s) && s.code == Code::Unauthenticated
            && s.message@ == "session ended"@),
        check != SessionCheck::Ended ==> r is Ok,
{
    match check {
        SessionCheck::Ended => Err(RpcStatus::new(Code::Unauthenticated, "session ended")),
        _ => Ok(()),
    }
}

/// The session a live stream is tied to, from the call's metadata.
pub fn session_id(metadata: Option<String>) -> (r: Result<String, RpcStatus>)
    ensures
        metadata matches Some(s) ==> r == Ok::<String, RpcStatus>(s),
        metadata is None ==> (r matches Err(s) && s.code == Code::Unauthenticated && s.message@
            == "live streams require a session"@),
{
    match metadata {
        Some(s) => Ok(s),
        None => Err(RpcStatus::new(Code::Unauthenticated, "live streams require a session")),
    }
}

/// One hour, in microseconds.
pub const HOUR_MICROS: i64 = 3_600_000_000;

/// The refusal of a window bound that does not parse: the field's name, then
/// the parser's complaint.
pub open spec fn bound_error(field: Seq<char>, error: Seq<char>) -> Seq<char> {
    field + ": "@ + error
}

fn parse_bound(field: &str, value: &str) -> (r: Result<Timestamp, RpcStatus>)
    ensures
        match rfc3339_parse(value@) {
            Ok(t) => r == Ok::<Timestamp, RpcStatus>(t),
            Err(e) => r matches Err(s) && s.code == Code::InvalidArgument && s.message@
                == bound_error(field@, e),
        },
{
    match parse_rfc3339_micros(value) {
        Ok(t) => Ok(t),
        Err(e) => {
            proof {
                reveal_strlit(": ");
            }
            let message = String::from_str(field).concat(": ").concat(e.as_str());
            Err(RpcStatus { code: Code::InvalidArgument, message })
        },
    }
}

/// Whether `r` is the window a `start` bound gives once the window's end is
/// `e`: `start` parsed, or one hour before `e` when empty (the earliest
/// instant `chrono` represents when that is out of its range), or the
/// refusal of a `start` that is not RFC 3339.
pub open spec fn window_from(r: Result<(Timestamp, Timestamp), RpcStatus>, start: Seq<char>, e: Timestamp) -> bool {
    &&& start.len() > 0 && rfc3339_parse(start) is Err ==> (r matches Err(s) && s.code
        == Code::InvalidArgument && s.message@ == bound_error("start"@, rfc3339_parse(start)->Err_0))
    &&& start.len() > 0 && rfc3339_parse(start) is Ok ==> r == Ok::<(Timestamp, Timestamp), RpcStatus>(
        (rfc3339_parse(start)->Ok_0, e),
    )
    &&& start.len() == 0 && offset_spec(e, -HOUR_MICROS) is Some ==> r == Ok::<
        (Timestamp, Timestamp),
        RpcStatus,
    >((offset_spec(e, -HOUR_MICROS)->0, e))
    &&& start.len() == 0 && offset_spec(e, -HOUR_MICROS) is None ==> (r matches Ok((s, t)) && t == e
        && chrono_represents_micros(s) && forall|m: i64| m < s ==> !chrono_represents_micros(m))
}

/// The refusal of an `end` bound that is not RFC 3339.
pub open spec fn end_refused(r: Result<(Timestamp, Timestamp), RpcStatus>, end: Seq<char>) -> bool {
    r matches Err(s) && s.code == Code::InvalidArgument && s.message@ == bound_error(
        "end"@,
        rfc3339_parse(end)->Err_0,
    )
}

/// The history window as the API defines it, with `now` the current time: an
/// empty `end` means now, an empty `start` means one hour before `end`. A
/// bound that is not RFC 3339 is refused, `end` first.
pub fn history_window_at(start: &str, end: &str, now: Timestamp) -> (r: Result<(Timestamp, Timestamp), RpcStatus>)
    ensures
        end@.len() > 0 && rfc3339_parse(end@) is Err ==> end_refused(r, end@),
        end@.len() > 0 && rfc3339_parse(end@) is Ok ==> window_from(r, start@, rfc3339_parse(end@)->Ok_0),
        end@.len() == 0 ==> window_from(r, start@, now),
{
    let end = if end.unicode_len() == 0 {
        now
    } else {
        parse_bound("end", end)?
    };
    let start = if start.unicode_len() == 0 {
        match offset_micros(end, -(HOUR_MICROS as i128)) {
            Some(t) => t,
            None => chrono_min(),
        }
    } else {
        parse_bound("start", start)?
    };
    Ok((start, end))
}

/// The history window read at the current time; see [`history_window_at`].
/// Nothing is claimed of the clock: a window without an `end` ends at some
/// instant, and its start relates to that instant as it would to any other.
pub fn history_window(start: &str, end: &str) -> (r: Result<(Timestamp, Timestamp), RpcStatus>)
    ensures
        end@.len() > 0 && rfc3339_parse(end@) is Err ==> end_refused(r, end@),
        end@.len() > 0 && rfc3339_parse(end@) is Ok ==> window_from(r, start@, rfc3339_parse(end@)->Ok_0),
        end@.len() == 0 ==> exists|now: Timestamp| #[trigger] window_from(r, start@, now),
{
    let now = if end.unicode_len() == 0 {
        now_micros()
    } else {
        0
    };
    history_window_at(start, end, now)
}

/// The value a shared view holds: still loading, gone, or the latest state.
#[derive(Debug, Clone)]
pub enum ViewValue<T> {
    Loading,
    /// The canvas the view follows does not exist.
    Missing,
    Ready(T),
}

/// What happens to a dashboard stream that follows a shared view.
#[derive(Debug, Clone)]
pub enum ViewStreamEvent<T> {
    /// The client's end of the stream is gone.
    ReceiverClosed,
    /// The keep-alive timer fired and the session was checked.
    Tick(SessionCheck),
    /// The shared view's sender went away.
    ViewClosed,
    /// The shared view changed to this value.
    Changed(ViewValue<T>),
    /// A send finished: `delivered` is `false` when the client's end was gone.
    Sent { delivered: bool },
}

/// What a dashboard stream does next.
#[derive(Debug, Clone)]
pub enum ViewStreamAction<T> {
    Wait,
    SendKeepAlive,
    /// Send the whole picture.
    SendSnapshot(T),
    /// End the stream, telling the client why when `status` is set.
    End { status: Option<RpcStatus> },
}

/// The step of a stream following a shared view: keep-alives while the
/// session lives, a snapshot for every ready value, `NOT_FOUND` once the
/// canvas is gone, and a quiet end when either side goes away.
pub fn view_stream_step<T>(event: ViewStreamEvent<T>) -> (a: ViewStreamAction<T>)
    ensures
        match event {
            ViewStreamEvent::ReceiverClosed => a matches ViewStreamAction::End { status: None },
            ViewStreamEvent::Tick(check) => if check == SessionCheck::Ended {
                a matches ViewStreamAction::End { status: Some(s) } && s.code == Code::Unauthenticated
                    && s.message@ == "session ended"@
            } else {
                a is SendKeepAlive
            },
            ViewStreamEvent::ViewClosed => a matches ViewStreamAction::End { status: None },
            ViewStreamEvent::Changed(ViewValue::Loading) => a is Wait,
            ViewStreamEvent::Changed(ViewValue::Missing) => a matches ViewStreamAction::End {
                status: Some(s),
            } && s.code == Code::NotFound && s.message@ == "canvas not found"@,
            ViewStreamEvent::Changed(ViewValue::Ready(state)) => a == ViewStreamAction::SendSnapshot(
                state,
            ),
            ViewStreamEvent::Sent { delivered } => if delivered {
                a is Wait
            } else {
                a matches ViewStreamAction::End { status: None }
            },
        },
{
    match event {
        ViewStreamEvent::ReceiverClosed => ViewStreamAction::End { status: None },
        ViewStreamEvent::Tick(check) => match session_verdict(check) {
            Ok(()) => ViewStreamAction::SendKeepAlive,
            Err(status) => ViewStreamAction::End { status: Some(status) },
        },
        ViewStreamEvent::ViewClosed => ViewStreamAction::End { status: None },
        ViewStreamEvent::Changed(value) => match value {
            ViewValue::Loading => ViewStreamAction::Wait,
            ViewValue::Missing => ViewStreamAction::End {
                status: Some(RpcStatus::new(Code::NotFound, "canvas not found")),
            },
            ViewValue::Ready(state) => ViewStreamAction::SendSnapshot(state),
        },
        ViewStreamEvent::Sent { delivered } => {
            if delivered {
                ViewStreamAction::Wait
            } else {
                ViewStreamAction::End { status: None }
            }
        },
    }
}

} // verus!
