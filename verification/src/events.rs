//! Messages this module publishes or consumes: the edit hint, the health facts
//! and the periodic execution signals; [`live`] holds the messages of the
//! dashboard bus.
//!
//! Periodic work is not run by the process that schedules it: the scheduler
//! publishes one signal per due job and a consumer runs the pass.
pub mod live;

use crate::clock::Timestamp;
use crate::entities::health::{
    HealthWrite, PodHealthStatus, PodHealthWrite, ServerHealthStatus,
};
use vstd::prelude::*;

verus! {

/// The AMQP exchange every message of this module travels on.
pub const EXCHANGE: &'static str = "orchestration";

/// **Public event.** A canvas has edits that have not been derived yet.
///
/// The payload is only a hint: the canvas generation counter, not this
/// message, decides whether a derivation is needed.
#[derive(Debug, Clone)]
pub struct CanvasDirty {
    /// The canvas id, as text.
    pub canvas: String,
}

pub const CANVAS_DIRTY_KEY: &'static str = "canvas_dirty";

/// **Public event.** The health facts one write settled: a server whose
/// status flipped, and the pod rows a write produced.
#[derive(Debug, Clone)]
pub struct HealthChanged {
    pub facts: Vec<HealthFact>,
}

pub const HEALTH_CHANGED_KEY: &'static str = "health_changed";

/// One health fact, as the publisher observed it.
#[derive(Debug, Clone)]
pub enum HealthFact {
    /// A server's status differs from the one it held before the write.
    Server {
        server: String,
        server_name: String,
        canvas: String,
        canvas_name: String,
        status: ServerHealthStatus,
        at_unix_micros: i64,
    },
    /// A pod row was written; whether it is a change is the consumer's call.
    Pod {
        pod: String,
        pod_name: String,
        canvas: String,
        canvas_name: String,
        status: PodHealthStatus,
        message: String,
        at_unix_micros: i64,
    },
}

/// The fact a server write settled, when its status moved.
pub open spec fn server_fact(w: HealthWrite) -> Option<HealthFact> {
    if w.previous_status == w.record.status {
        None
    } else {
        Some(
            HealthFact::Server {
                server: w.record.server,
                server_name: w.server_name,
                canvas: w.canvas,
                canvas_name: w.canvas_name,
                status: w.record.status,
                at_unix_micros: w.record.report_time,
            },
        )
    }
}

/// The fact one written pod row carries.
pub open spec fn pod_fact(w: PodHealthWrite) -> HealthFact {
    HealthFact::Pod {
        pod: w.record.pod,
        pod_name: w.pod_name,
        canvas: w.canvas,
        canvas_name: w.canvas_name,
        status: w.record.status,
        message: w.record.message,
        at_unix_micros: w.record.report_time,
    }
}

impl HealthFact {
    /// The fact a server write settled, or `None` when the write only recorded
    /// the status the server already held: a routine report is not news.
    pub fn server(write: &HealthWrite) -> (r: Option<Self>)
        ensures
            r == server_fact(*write),
            r is Some <==> write.previous_status != write.record.status,
            r matches Some(f) ==> (f matches HealthFact::Server { status, at_unix_micros, .. }
                && status == write.record.status && at_unix_micros == write.record.report_time),
    {
        if write.previous_status == write.record.status {
            return None;
        }
        Some(
            HealthFact::Server {
                server: write.record.server.clone(),
                server_name: write.server_name.clone(),
                canvas: write.canvas.clone(),
                canvas_name: write.canvas_name.clone(),
                status: write.record.status,
                at_unix_micros: write.record.report_time,
            },
        )
    }

    /// The fact one written pod row carries. Whether it is a change is the
    /// consumer's call: a report writes one row per pod every interval.
    pub fn pod(write: &PodHealthWrite) -> (r: Self)
        ensures
            r == pod_fact(*write),
    {
        HealthFact::Pod {
            pod: write.record.pod.clone(),
            pod_name: write.pod_name.clone(),
            canvas: write.canvas.clone(),
            canvas_name: write.canvas_name.clone(),
            status: write.record.status,
            message: write.record.message.clone(),
            at_unix_micros: write.record.report_time,
        }
    }
}

/// A server fact is news exactly when the status moved: a write produces one
/// when the status it wrote differs from the one the server held before, and
/// that fact carries the new status and the report's time.
pub proof fn lemma_server_fact_exactly_on_a_flip(w: HealthWrite)
    ensures
        server_fact(w) is Some <==> w.previous_status != w.record.status,
        server_fact(w) matches Some(f) ==> (f matches HealthFact::Server {
            server,
            status,
            at_unix_micros,
            ..
        } && server == w.record.server && status == w.record.status && at_unix_micros
            == w.record.report_time),
{
}

/// Every fact one server write settled: the status flip, if there was one,
/// then the pod rows the write carried, in order.
pub fn health_facts(write: &HealthWrite) -> (facts: Vec<HealthFact>)
    ensures
        write.previous_status != write.record.status ==> facts@.len() == write.pods@.len() + 1
            && (facts@[0] matches HealthFact::Server { status, .. } && status == write.record.status),
        write.previous_status == write.record.status ==> facts@.len() == write.pods@.len(),
        facts@ == (match server_fact(*write) {
            Some(f) => seq![f],
            None => Seq::<HealthFact>::empty(),
        }) + write.pods@.map_values(|p: PodHealthWrite| pod_fact(p)),
{
    let mut facts: Vec<HealthFact> = Vec::new();
    match HealthFact::server(write) {
        Some(f) => facts.push(f),
        None => {},
    }
    let ghost head = facts@;
    let mut i: usize = 0;
    while i < write.pods.len()
        invariant
            i <= write.pods@.len(),
            facts@ == head + write.pods@.take(i as int).map_values(|p: PodHealthWrite| pod_fact(p)),
        decreases write.pods@.len() - i,
    {
        facts.push(HealthFact::pod(&write.pods[i]));
        assert(write.pods@.take(i + 1).map_values(|p: PodHealthWrite| pod_fact(p)) =~= write.pods@.take(
            i as int,
        ).map_values(|p: PodHealthWrite| pod_fact(p)).push(pod_fact(write.pods@[i as int])));
        i = i + 1;
    }
    assert(write.pods@.take(write.pods@.len() as int) =~= write.pods@);
    facts
}

// --- periodic execution signals ---------------------------------------------

/// `a - b`, clamped to the range of `i64`.
pub open spec fn saturating_diff(a: i64, b: i64) -> int {
    if a - b > i64::MAX {
        i64::MAX as int
    } else if a - b < i64::MIN {
        i64::MIN as int
    } else {
        a - b
    }
}

/// Whether `every` seconds have passed between two scheduling ticks, compared
/// in whole seconds and saturating, so a clock jump cannot overflow into a
/// missed or duplicated tick.
pub open spec fn elapsed_spec(every: i64, now: i64, last: i64) -> bool {
    saturating_diff(now, last) >= every
}

pub fn elapsed(every: i64, now: i64, last: i64) -> (r: bool)
    ensures
        r == elapsed_spec(every, now, last),
{
    let d: i128 = now as i128 - last as i128;
    let clamped: i128 = if d > i64::MAX as i128 {
        i64::MAX as i128
    } else if d < i64::MIN as i128 {
        i64::MIN as i128
    } else {
        d
    };
    clamped >= every as i128
}

/// The message TTL of a periodic signal, in milliseconds as the broker's
/// `expiration` property takes it: one cadence, saturating.
pub fn expiration_millis(ttl_secs: i64) -> (r: i64)
    ensures
        r == (if ttl_secs * 1000 > i64::MAX {
            i64::MAX as int
        } else if ttl_secs * 1000 < i64::MIN {
            i64::MIN as int
        } else {
            ttl_secs * 1000
        }),
{
    let m: i128 = ttl_secs as i128 * 1000;
    if m > i64::MAX as i128 {
        i64::MAX
    } else if m < i64::MIN as i128 {
        i64::MIN
    } else {
        m as i64
    }
}

/// A periodic execution signal: published by the scheduler on a fixed
/// cadence, carrying the tick it was published for.
pub trait IntervalJobExecutionSignal: Sized {
    /// Seconds between publications of this signal.
    spec fn cadence() -> i64;

    /// The scheduling tick a signal carries, as a Unix timestamp in seconds.
    spec fn tick_of(&self) -> i64;

    /// The signal for the tick at `now` (seconds since the epoch).
    fn tick(now: i64) -> (s: Self)
        ensures
            s.tick_of() == now,
    ;

    /// The signal to publish at `now` when the cadence has elapsed since the
    /// last tick, or `None` while it has not.
    fn time_pool(now: i64, last_time: i64) -> (r: Option<Self>)
        ensures
            r is Some <==> elapsed_spec(Self::cadence(), now, last_time),
            r matches Some(s) ==> s.tick_of() == now,
    ;

    /// The scheduling tick this signal was published for, as an instant.
    fn tick_time(&self) -> Timestamp;
}

/// The instant of a scheduling tick: its seconds as microseconds, when the
/// `time` crate represents the tick and the product fits an `i64`.
pub open spec fn tick_instant(secs: i64) -> Option<Timestamp> {
    if crate::clock::time_represents_secs(secs) && i64::MIN <= secs * 1_000_000 <= i64::MAX {
        Some((secs * 1_000_000) as i64)
    } else {
        None
    }
}

/// The instant of a tick, or the current time when the tick cannot be read
/// as one.
fn tick_time_of(secs: i64) -> (t: Timestamp)
    ensures
        tick_instant(secs) matches Some(i) ==> t == i,
{
    match crate::clock::time_from_unix_secs(secs) {
        Some(s) => match s.checked_mul(1_000_000) {
            Some(micros) => micros,
            None => crate::clock::micros_of_nanos(crate::clock::time_now_nanos()),
        },
        None => crate::clock::micros_of_nanos(crate::clock::time_now_nanos()),
    }
}

/// **Periodic signal.** Derive every canvas whose edits outran their
/// derivation; the backstop for a lost [`CanvasDirty`]. Every 30 s.
#[derive(Debug, Clone)]
pub struct DeriveStaleCanvasesSignal {
    /// The scheduling tick, as a Unix timestamp in seconds.
    pub tick_unix_secs: i64,
}

impl DeriveStaleCanvasesSignal {
    /// Seconds between publications of this signal.
    pub const EVERY_SECS: i64 = 30;
    pub const ROUTING_KEY: &'static str = "derive_stale_canvases";
}

impl IntervalJobExecutionSignal for DeriveStaleCanvasesSignal {
    open spec fn cadence() -> i64 {
        30
    }

    open spec fn tick_of(&self) -> i64 {
        self.tick_unix_secs
    }

    fn tick(now: i64) -> (s: Self) {
        DeriveStaleCanvasesSignal { tick_unix_secs: now }
    }

    fn time_pool(now: i64, last_time: i64) -> (r: Option<Self>) {
        if elapsed(Self::EVERY_SECS, now, last_time) {
            Some(Self::tick(now))
        } else {
            None
        }
    }

    fn tick_time(&self) -> (t: Timestamp)
        ensures
            tick_instant(self.tick_unix_secs) matches Some(i) ==> t == i,
    {
        tick_time_of(self.tick_unix_secs)
    }
}

/// **Periodic signal.** Re-issue relay leaves that are about to expire and
/// re-derive their canvases. Every hour.
#[derive(Debug, Clone)]
pub struct RotateRelayCertificatesSignal {
    /// The scheduling tick, as a Unix timestamp in seconds.
    pub tick_unix_secs: i64,
}

impl RotateRelayCertificatesSignal {
    /// Seconds between publications of this signal.
    pub const EVERY_SECS: i64 = 3600;
    pub const ROUTING_KEY: &'static str = "rotate_relay_certificates";
}

impl IntervalJobExecutionSignal for RotateRelayCertificatesSignal {
    open spec fn cadence() -> i64 {
        3600
    }

    open spec fn tick_of(&self) -> i64 {
        self.tick_unix_secs
    }

    fn tick(now: i64) -> (s: Self) {
        RotateRelayCertificatesSignal { tick_unix_secs: now }
    }

    fn time_pool(now: i64, last_time: i64) -> (r: Option<Self>) {
        if elapsed(Self::EVERY_SECS, now, last_time) {
            Some(Self::tick(now))
        } else {
            None
        }
    }

    fn tick_time(&self) -> (t: Timestamp)
        ensures
            tick_instant(self.tick_unix_secs) matches Some(i) ==> t == i,
    {
        tick_time_of(self.tick_unix_secs)
    }
}

/// **Periodic signal.** Flip servers that stopped reporting to `Offline`.
/// Every 30 s.
#[derive(Debug, Clone)]
pub struct SweepLivenessSignal {
    /// The scheduling tick, as a Unix timestamp in seconds.
    pub tick_unix_secs: i64,
}

impl SweepLivenessSignal {
    /// Seconds between publications of this signal.
    pub const EVERY_SECS: i64 = 30;
    pub const ROUTING_KEY: &'static str = "sweep_liveness";
}

impl IntervalJobExecutionSignal for SweepLivenessSignal {
    open spec fn cadence() -> i64 {
        30
    }

    open spec fn tick_of(&self) -> i64 {
        self.tick_unix_secs
    }

    fn tick(now: i64) -> (s: Self) {
        SweepLivenessSignal { tick_unix_secs: now }
    }

    fn time_pool(now: i64, last_time: i64) -> (r: Option<Self>) {
        if elapsed(Self::EVERY_SECS, now, last_time) {
            Some(Self::tick(now))
        } else {
            None
        }
    }

    fn tick_time(&self) -> (t: Timestamp)
        ensures
            tick_instant(self.tick_unix_secs) matches Some(i) ==> t == i,
    {
        tick_time_of(self.tick_unix_secs)
    }
}

/// **Periodic signal.** Delete health records past their retention TTLs.
/// Every 5 minutes.
#[derive(Debug, Clone)]
pub struct TrimHealthHistorySignal {
    /// The scheduling tick, as a Unix timestamp in seconds.
    pub tick_unix_secs: i64,
}

impl TrimHealthHistorySignal {
    /// Seconds between publications of this signal.
    pub const EVERY_SECS: i64 = 300;
    pub const ROUTING_KEY: &'static str = "trim_health_history";
}

impl IntervalJobExecutionSignal for TrimHealthHistorySignal {
    open spec fn cadence() -> i64 {
        300
    }

    open spec fn tick_of(&self) -> i64 {
        self.tick_unix_secs
    }

    fn tick(now: i64) -> (s: Self) {
        TrimHealthHistorySignal { tick_unix_secs: now }
    }

    fn time_pool(now: i64, last_time: i64) -> (r: Option<Self>) {
        if elapsed(Self::EVERY_SECS, now, last_time) {
            Some(Self::tick(now))
        } else {
            None
        }
    }

    fn tick_time(&self) -> (t: Timestamp)
        ensures
            tick_instant(self.tick_unix_secs) matches Some(i) ==> t == i,
    {
        tick_time_of(self.tick_unix_secs)
    }
}

/// **Periodic signal.** Ensure a certificate row for every TLS request, then
/// issue or renew whatever is due. Every 60 s.
#[derive(Debug, Clone)]
pub struct RenewCertificatesSignal {
    /// The scheduling tick, as a Unix timestamp in seconds.
    pub tick_unix_secs: i64,
}

impl RenewCertificatesSignal {
    /// Seconds between publications of this signal.
    pub const EVERY_SECS: i64 = 60;
    pub const ROUTING_KEY: &'static str = "renew_certificates";
}

impl IntervalJobExecutionSignal for RenewCertificatesSignal {
    open spec fn cadence() -> i64 {
        60
    }

    open spec fn tick_of(&self) -> i64 {
        self.tick_unix_secs
    }

    fn tick(now: i64) -> (s: Self) {
        RenewCertificatesSignal { tick_unix_secs: now }
    }

    fn time_pool(now: i64, last_time: i64) -> (r: Option<Self>) {
        if elapsed(Self::EVERY_SECS, now, last_time) {
            Some(Self::tick(now))
        } else {
            None
        }
    }

    fn tick_time(&self) -> (t: Timestamp)
        ensures
            tick_instant(self.tick_unix_secs) matches Some(i) ==> t == i,
    {
        tick_time_of(self.tick_unix_secs)
    }
}

/// **Periodic signal.** Look up the country of every server IPv4 address that
/// has none. Every 60 s.
#[derive(Debug, Clone)]
pub struct ResolveServerCountriesSignal {
    /// The scheduling tick, as a Unix timestamp in seconds.
    pub tick_unix_secs: i64,
}

impl ResolveServerCountriesSignal {
    /// Seconds between publications of this signal.
    pub const EVERY_SECS: i64 = 60;
    pub const ROUTING_KEY: &'static str = "resolve_server_countries";
}

impl IntervalJobExecutionSignal for ResolveServerCountriesSignal {
    open spec fn cadence() -> i64 {
        60
    }

    open spec fn tick_of(&self) -> i64 {
        self.tick_unix_secs
    }

    fn tick(now: i64) -> (s: Self) {
        ResolveServerCountriesSignal { tick_unix_secs: now }
    }

    fn time_pool(now: i64, last_time: i64) -> (r: Option<Self>) {
        if elapsed(Self::EVERY_SECS, now, last_time) {
            Some(Self::tick(now))
        } else {
            None
        }
    }

    fn tick_time(&self) -> (t: Timestamp)
        ensures
            tick_instant(self.tick_unix_secs) matches Some(i) ==> t == i,
    {
        tick_time_of(self.tick_unix_secs)
    }
}

} // verus!
