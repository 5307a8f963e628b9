//! Instants as the library handles them, and the calls into `chrono` that
//! produce and read them.
//!
//! An instant is a count of microseconds since the Unix epoch, the resolution
//! every stored timestamp and every live-bus record carries.
use vstd::prelude::*;

verus! {

/// Microseconds since the Unix epoch.
pub type Timestamp = i64;

/// Microseconds in one second.
pub const MICROS_PER_SEC: i64 = 1_000_000;

/// What `chrono::DateTime::parse_from_rfc3339` makes of a text: the instant
/// it parsed, as microseconds since the epoch, or the text of the error it
/// reports.
pub uninterp spec fn rfc3339_parse(text: Seq<char>) -> Result<i64, Seq<char>>;

/// Whether `chrono::DateTime::<Utc>::from_timestamp_micros` accepts the count:
/// `chrono` represents instants between the years -262143 and 262142.
pub uninterp spec fn chrono_represents_micros(micros: i64) -> bool;

/// Calls `chrono::DateTime::parse_from_rfc3339` and reads the instant it
/// parsed as microseconds since the epoch, or the error's text. Claimed: the
/// outcome is a function of the text alone.
#[verifier::external_body]
pub(crate) fn parse_rfc3339_micros(text: &str) -> (r: Result<i64, String>)
    ensures
        match r {
            Ok(v) => rfc3339_parse(text@) == Ok::<i64, Seq<char>>(v),
            Err(e) => rfc3339_parse(text@) == Err::<i64, Seq<char>>(e@),
        },
{
    match chrono::DateTime::parse_from_rfc3339(text) {
        Ok(t) => Ok(t.timestamp_micros()),
        Err(e) => Err(e.to_string()),
    }
}

/// Calls `chrono::DateTime::<Utc>::from_timestamp_micros` and reads the
/// instant back. Claimed: whether the count is accepted depends on the count
/// alone, and an accepted count reads back unchanged.
#[verifier::external_body]
pub(crate) fn chrono_from_micros(micros: i64) -> (r: Option<i64>)
    ensures
        r is Some <==> chrono_represents_micros(micros),
        r matches Some(v) ==> v == micros,
{
    match chrono::DateTime::from_timestamp_micros(micros) {
        Some(t) => Some(t.timestamp_micros()),
        None => None,
    }
}

/// Reads `chrono::DateTime::<Utc>::MIN_UTC` as microseconds since the epoch.
/// Claimed: it is the earliest instant `chrono` represents.
#[verifier::external_body]
pub(crate) fn chrono_min() -> (r: i64)
    ensures
        chrono_represents_micros(r),
        forall|m: i64| m < r ==> !chrono_represents_micros(m),
{
    chrono::DateTime::<chrono::Utc>::MIN_UTC.timestamp_micros()
}

/// Reads `chrono::DateTime::<Utc>::MAX_UTC` as microseconds since the epoch.
/// Claimed: it is the latest instant `chrono` represents, to the microsecond.
#[verifier::external_body]
pub(crate) fn chrono_max() -> (r: i64)
    ensures
        chrono_represents_micros(r),
        forall|m: i64| m > r ==> !chrono_represents_micros(m),
{
    chrono::DateTime::<chrono::Utc>::MAX_UTC.timestamp_micros()
}

/// `t` moved by `delta` microseconds, when `chrono` represents the result.
pub open spec fn offset_spec(t: Timestamp, delta: int) -> Option<Timestamp> {
    if i64::MIN <= t + delta <= i64::MAX && chrono_represents_micros((t + delta) as i64) {
        Some((t + delta) as i64)
    } else {
        None
    }
}

/// `t` moved by `delta` microseconds, as `chrono`'s checked arithmetic on
/// instants gives it: `None` when the result falls outside the range `chrono`
/// represents.
pub fn offset_micros(t: Timestamp, delta: i128) -> (r: Option<Timestamp>)
    ensures
        r == offset_spec(t, delta as int),
{
    let sum: i128 = match (t as i128).checked_add(delta) {
        Some(sum) => sum,
        None => {
            return None;
        },
    };
    if sum > i64::MAX as i128 || sum < i64::MIN as i128 {
        return None;
    }
    chrono_from_micros(sum as i64)
}

/// Whether `time::OffsetDateTime::from_unix_timestamp` accepts a count of
/// seconds since the epoch.
pub uninterp spec fn time_represents_secs(secs: i64) -> bool;

/// Calls `time::OffsetDateTime::from_unix_timestamp` and reads the seconds
/// back. Claimed: whether the count is accepted depends on the count alone,
/// and an accepted count reads back unchanged.
#[verifier::external_body]
pub(crate) fn time_from_unix_secs(secs: i64) -> (r: Option<i64>)
    ensures
        r is Some <==> time_represents_secs(secs),
        r matches Some(v) ==> v == secs,
{
    match time::OffsetDateTime::from_unix_timestamp(secs) {
        Ok(t) => Some(t.unix_timestamp()),
        Err(_) => None,
    }
}

/// Whether `time::OffsetDateTime::from_unix_timestamp_nanos` accepts a count
/// of nanoseconds since the epoch.
pub uninterp spec fn time_represents_nanos(nanos: i128) -> bool;

/// Calls `time::OffsetDateTime::from_unix_timestamp_nanos` and reads the
/// count back. Claimed: whether the count is accepted depends on the count
/// alone, and an accepted count reads back unchanged.
#[verifier::external_body]
pub(crate) fn time_from_unix_nanos(nanos: i128) -> (r: Option<i128>)
    ensures
        r is Some <==> time_represents_nanos(nanos),
        r matches Some(v) ==> v == nanos,
{
    match time::OffsetDateTime::from_unix_timestamp_nanos(nanos) {
        Ok(t) => Some(t.unix_timestamp_nanos()),
        Err(_) => None,
    }
}

/// Reads `time::PrimitiveDateTime::MAX`, taken as UTC, as nanoseconds since
/// the epoch. Claimed: it is the latest instant `time` represents.
#[verifier::external_body]
pub(crate) fn time_max_nanos() -> (r: i128)
    ensures
        time_represents_nanos(r),
        forall|n: i128| n > r ==> !time_represents_nanos(n),
{
    time::PrimitiveDateTime::MAX.assume_utc().unix_timestamp_nanos()
}

/// Nanoseconds as whole microseconds, rounded down, clamped to the range of a
/// timestamp.
pub open spec fn clamped_micros(nanos: i128) -> Timestamp {
    let m = nanos / 1000;
    if m > i64::MAX {
        i64::MAX
    } else if m < i64::MIN {
        i64::MIN
    } else {
        m as i64
    }
}

/// Nanoseconds since the epoch as whole microseconds, rounded down, clamped to
/// the range of a timestamp.
pub fn micros_of_nanos(nanos: i128) -> (r: Timestamp)
    ensures
        r == clamped_micros(nanos),
        i64::MIN <= nanos / 1000 <= i64::MAX ==> r == nanos / 1000,
        nanos / 1000 > i64::MAX ==> r == i64::MAX,
        nanos / 1000 < i64::MIN ==> r == i64::MIN,
{
    let floor: i128 = if nanos >= 0 {
        (nanos as u128 / 1000) as i128
    } else {
        let magnitude: u128 = ((-(nanos + 1)) as u128) / 1000;
        proof {
            assert(nanos / 1000 == -(magnitude as int) - 1) by (nonlinear_arith)
                requires
                    nanos < 0,
                    magnitude == (-(nanos + 1)) / 1000,
            ;
        }
        -(magnitude as i128) - 1
    };
    if floor > i64::MAX as i128 {
        i64::MAX
    } else if floor < i64::MIN as i128 {
        i64::MIN
    } else {
        floor as i64
    }
}

/// What `time::OffsetDateTime::parse` with the RFC 3339 format makes of a
/// text: the instant it parsed, in nanoseconds since the epoch, or the text of
/// the error it reports.
pub uninterp spec fn time_rfc3339_parse(text: Seq<char>) -> Result<i128, Seq<char>>;

/// Calls `time::OffsetDateTime::parse` with `well_known::Rfc3339` and reads
/// the instant as nanoseconds since the epoch, or the error's text. Claimed:
/// the outcome is a function of the text alone.
#[verifier::external_body]
pub(crate) fn parse_rfc3339_nanos(text: &str) -> (r: Result<i128, String>)
    ensures
        match r {
            Ok(n) => time_rfc3339_parse(text@) == Ok::<i128, Seq<char>>(n),
            Err(e) => time_rfc3339_parse(text@) == Err::<i128, Seq<char>>(e@),
        },
{
    match time::OffsetDateTime::parse(text, &time::format_description::well_known::Rfc3339) {
        Ok(t) => Ok(t.unix_timestamp_nanos()),
        Err(e) => Err(e.to_string()),
    }
}

/// What `time::OffsetDateTime::format` with the RFC 3339 format writes for
/// the UTC instant `nanos` nanoseconds after the epoch, or the text of the
/// error it reports (an instant `time` does not represent included).
pub uninterp spec fn time_rfc3339_format(nanos: i128) -> Result<Seq<char>, Seq<char>>;

/// Calls `time::OffsetDateTime::from_unix_timestamp_nanos` and formats the
/// instant with `well_known::Rfc3339`: the text, or the error's text.
/// Claimed: the outcome is a function of the count alone.
#[verifier::external_body]
pub(crate) fn format_rfc3339_nanos(nanos: i128) -> (r: Result<String, String>)
    ensures
        match r {
            Ok(t) => time_rfc3339_format(nanos) == Ok::<Seq<char>, Seq<char>>(t@),
            Err(e) => time_rfc3339_format(nanos) == Err::<Seq<char>, Seq<char>>(e@),
        },
{
    match time::OffsetDateTime::from_unix_timestamp_nanos(nanos) {
        Ok(t) => match t.format(&time::format_description::well_known::Rfc3339) {
            Ok(text) => Ok(text),
            Err(e) => Err(e.to_string()),
        },
        Err(e) => Err(e.to_string()),
    }
}

/// Reads the wall clock through `time::OffsetDateTime::now_utc`, as
/// nanoseconds since the epoch. Nothing is claimed of the instant it returns.
#[verifier::external_body]
pub(crate) fn time_now_nanos() -> (r: i128) {
    time::OffsetDateTime::now_utc().unix_timestamp_nanos()
}

/// Reads the wall clock as `chrono` converts a `std::time::SystemTime`
/// (`DateTime::<Utc>::from`), in microseconds since the epoch. Unlike
/// `chrono::Utc::now`, which panics on a clock set before 1970, the
/// conversion reads such a clock as a negative count; it panics only past the
/// year 262142, beyond the range a system clock holds (Linux keeps it below
/// 2262). Claimed: the instant is one `chrono` represents. Nothing is claimed
/// of which instant it is.
#[verifier::external_body]
pub(crate) fn now_micros() -> (r: i64)
    ensures
        chrono_represents_micros(r),
{
    chrono::DateTime::<chrono::Utc>::from(std::time::SystemTime::now()).timestamp_micros()
}

} // verus!
