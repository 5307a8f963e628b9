//! The ACME renewal pass's windows.
//!
//! One pass makes sure a `certificate` row exists for every `(sni,
//! acme_directory)` an Entry asks for, then issues or renews whatever is due.
//! A row is due when its `not_after` falls before `now + acme_renew_before`,
//! and it is held back while its last attempt is more recent than
//! `now - acme_retry_after`: an attempt is stamped at claim time, so a row
//! whose order is still running (or crashed) waits that long out.
use crate::entities::certificate::{CertificateEntity, CertificateId};
use crate::clock::{
    chrono_max, chrono_min, chrono_represents_micros, offset_micros, offset_spec, Timestamp,
    MICROS_PER_SEC,
};
use vstd::prelude::*;

verus! {

/// The job name the renewal pass claims its fleet-wide run under.
pub const JOB: &'static str = "renew_certificates";

/// The two cut-offs of one renewal pass.
#[derive(Debug, Clone, Copy, PartialEq, Eq, Structural)]
pub struct DueWindows {
    /// Rows expiring before this are due for renewal.
    pub renew_before: Timestamp,
    /// Rows whose last attempt is after this are still waiting.
    pub retry_before: Timestamp,
}

/// Whether `w` are the windows of a pass at `now`: `now + renew_before_secs`,
/// saturating at the latest instant `chrono` represents, and
/// `now - retry_after_secs`, saturating at the earliest.
pub open spec fn due_windows_of(
    now: Timestamp,
    renew_before_secs: u64,
    retry_after_secs: u64,
    w: DueWindows,
) -> bool {
    &&& chrono_represents_micros(w.renew_before)
    &&& chrono_represents_micros(w.retry_before)
    &&& offset_spec(now, renew_before_secs * MICROS_PER_SEC) matches Some(t) ==> w.renew_before == t
    &&& offset_spec(now, renew_before_secs * MICROS_PER_SEC) is None ==> forall|m: i64|
        m > w.renew_before ==> !chrono_represents_micros(m)
    &&& offset_spec(now, -(retry_after_secs * MICROS_PER_SEC)) matches Some(t) ==> w.retry_before
        == t
    &&& offset_spec(now, -(retry_after_secs * MICROS_PER_SEC)) is None ==> forall|m: i64|
        m < w.retry_before ==> !chrono_represents_micros(m)
}

/// The windows of a pass at `now`: `now + renew_before_secs`, saturating at
/// the latest instant `chrono` represents, and `now - retry_after_secs`,
/// saturating at the earliest.
pub fn due_windows(now: Timestamp, renew_before_secs: u64, retry_after_secs: u64) -> (w: DueWindows)
    ensures
        due_windows_of(now, renew_before_secs, retry_after_secs, w),
        chrono_represents_micros(w.renew_before),
        chrono_represents_micros(w.retry_before),
        offset_spec(now, renew_before_secs * MICROS_PER_SEC) matches Some(t) ==> w.renew_before == t,
        offset_spec(now, renew_before_secs * MICROS_PER_SEC) is None ==> forall|m: i64|
            m > w.renew_before ==> !chrono_represents_micros(m),
        offset_spec(now, -(retry_after_secs * MICROS_PER_SEC)) matches Some(t) ==> w.retry_before
            == t,
        offset_spec(now, -(retry_after_secs * MICROS_PER_SEC)) is None ==> forall|m: i64|
            m < w.retry_before ==> !chrono_represents_micros(m),
{
    let renew: i128 = renew_before_secs as i128 * MICROS_PER_SEC as i128;
    let retry: i128 = retry_after_secs as i128 * MICROS_PER_SEC as i128;
    let renew_before = match offset_micros(now, renew) {
        Some(t) => t,
        None => chrono_max(),
    };
    let retry_before = match offset_micros(now, -retry) {
        Some(t) => t,
        None => chrono_min(),
    };
    DueWindows { renew_before, retry_before }
}

/// A row the listing found due, as the pass keeps it: the id it claims and
/// the `last_attempt_at` it read, which the claim compares against.
#[derive(Debug, Clone)]
pub struct DueCertificate {
    pub id: CertificateId,
    pub last_attempt_at: Option<Timestamp>,
}

impl DueCertificate {
    /// What the pass keeps of a listed row.
    pub fn of(row: &CertificateEntity) -> (d: Self)
        ensures
            d.id == row.id,
            d.last_attempt_at == row.last_attempt_at,
    {
        DueCertificate { id: row.id.clone(), last_attempt_at: row.last_attempt_at }
    }
}

/// One renewal pass in progress: its settings, the rows it listed, and the
/// position of the row it is working on.
#[derive(Debug)]
pub struct RenewPass {
    pub renew_before_secs: u64,
    pub retry_after_secs: u64,
    pub due: Vec<DueCertificate>,
    pub current: usize,
}

/// What happened to the pass's last request.
#[derive(Debug)]
pub enum RenewEvent {
    /// The rows every requested certificate needs were ensured (or ensuring
    /// them failed, which the pass only logs), at `now`.
    Ensured { now: Timestamp },
    /// The due rows, or why listing them failed.
    Listed(Result<Vec<DueCertificate>, String>),
    /// The claim on the current row: `Ok(false)` when the row moved since it
    /// was listed.
    Claimed(Result<bool, String>),
    /// The current row's issuance finished, whatever its outcome.
    Issued,
}

/// What the pass does next.
#[derive(Debug)]
pub enum RenewAction {
    /// Make sure a row exists for every requested certificate.
    Ensure,
    /// List the rows due within these windows.
    List(DueWindows),
    /// Claim one row's next attempt, against the `last_attempt_at` it was
    /// listed with.
    Claim { id: CertificateId, seen_attempt_at: Option<Timestamp> },
    /// Order the certificate of the claimed row.
    Issue { id: CertificateId },
    /// The pass is over.
    Done,
}

/// The claim of the `i`-th listed row, or the end of the pass after the last.
pub open spec fn claim_or_done(due: Seq<DueCertificate>, i: int, a: RenewAction) -> bool {
    if 0 <= i < due.len() {
        a matches RenewAction::Claim { id, seen_attempt_at } && id == due[i].id && seen_attempt_at
            == due[i].last_attempt_at
    } else {
        a is Done
    }
}

impl RenewPass {
    /// A pass with these settings; its first request ensures the rows.
    pub fn start(renew_before_secs: u64, retry_after_secs: u64) -> (r: (RenewPass, RenewAction))
        ensures
            r.0.renew_before_secs == renew_before_secs,
            r.0.retry_after_secs == retry_after_secs,
            r.0.due@.len() == 0,
            r.0.current == 0,
            r.1 is Ensure,
    {
        (
            RenewPass { renew_before_secs, retry_after_secs, due: Vec::new(), current: 0 },
            RenewAction::Ensure,
        )
    }
}

fn claim_row(pass: RenewPass, i: usize) -> (r: (RenewPass, RenewAction))
    ensures
        r.0.renew_before_secs == pass.renew_before_secs,
        r.0.retry_after_secs == pass.retry_after_secs,
        r.0.due@ == pass.due@,
        r.0.current == i,
        claim_or_done(pass.due@, i as int, r.1),
{
    let action = if i < pass.due.len() {
        RenewAction::Claim {
            id: pass.due[i].id.clone(),
            seen_attempt_at: pass.due[i].last_attempt_at,
        }
    } else {
        RenewAction::Done
    };
    (RenewPass { current: i, ..pass }, action)
}

/// The renewal pass's next step. The windows are taken once the rows are
/// ensured; a listing that fails ends the pass; the listed rows are then
/// claimed one at a time in listing order, and a row is issued only when its
/// claim succeeded. A claim that fails or finds the row moved, and a finished
/// issuance, move the pass on to the next row: no row stops the pass.
pub fn renew_step(pass: RenewPass, event: RenewEvent) -> (r: (RenewPass, RenewAction))
    ensures
        r.0.renew_before_secs == pass.renew_before_secs,
        r.0.retry_after_secs == pass.retry_after_secs,
        match event {
            RenewEvent::Ensured { now } => r.0.due@ == pass.due@ && r.0.current == pass.current
                && (r.1 matches RenewAction::List(w) && due_windows_of(
                now,
                pass.renew_before_secs,
                pass.retry_after_secs,
                w,
            )),
            RenewEvent::Listed(Err(_)) => r.1 is Done,
            RenewEvent::Listed(Ok(rows)) => r.0.due@ == rows@ && r.0.current == 0
                && claim_or_done(rows@, 0, r.1),
            RenewEvent::Claimed(Ok(true)) => r.0.due@ == pass.due@ && r.0.current == pass.current
                && if pass.current < pass.due@.len() {
                r.1 matches RenewAction::Issue { id } && id == pass.due@[pass.current as int].id
            } else {
                r.1 is Done
            },
            _ => r.0.due@ == pass.due@ && if pass.current < pass.due@.len() {
                r.0.current == pass.current + 1 && claim_or_done(
                    pass.due@,
                    pass.current + 1,
                    r.1,
                )
            } else {
                r.0.current == pass.current && r.1 is Done
            },
        },
{
    match event {
        RenewEvent::Ensured { now } => {
            let w = due_windows(now, pass.renew_before_secs, pass.retry_after_secs);
            (pass, RenewAction::List(w))
        },
        RenewEvent::Listed(Err(_)) => (pass, RenewAction::Done),
        RenewEvent::Listed(Ok(rows)) => claim_row(RenewPass { due: rows, ..pass }, 0),
        RenewEvent::Claimed(Ok(true)) => {
            if pass.current < pass.due.len() {
                let id = pass.due[pass.current].id.clone();
                (pass, RenewAction::Issue { id })
            } else {
                (pass, RenewAction::Done)
            }
        },
        _ => {
            if pass.current < pass.due.len() {
                let next = pass.current + 1;
                claim_row(pass, next)
            } else {
                (pass, RenewAction::Done)
            }
        },
    }
}

} // verus!
