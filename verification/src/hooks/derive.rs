//! The derivation reactor's decisions: what one server's slot becomes after a
//! pass, which pods are announced as deploying, and when a pass that keeps
//! losing the generation race gives up.
//!
//! Every mutating transaction bumps the *root* canvas's `generation`. A pass
//! resolves the tree of whatever canvas it is asked about, derives the whole
//! tree at the generation it read and commits only while the root is still at
//! that generation, so a concurrent edit can never be overwritten by a stale
//! pass — it just loses the race and the pass is redone.
use crate::clock::{
    clamped_micros, micros_of_nanos, time_from_unix_nanos, time_max_nanos, time_now_nanos, time_represents_nanos,
    Timestamp,
};
use crate::decimal::{signed_decimal, signed_decimal_text};
use crate::entities::ca::RelayCertificateEntity;
use crate::entities::canvas::CanvasId;
use crate::entities::pod::PodId;
use crate::entities::health::{NewPodHealthRecord, PodHealthStatus};
use crate::entities::server::ServerId;
use crate::entities::view::{
    cert_refs_view, same_cert_refs, CertificateRef, ConfigSnapshot, ForwardingDeps, InvalidPod,
    ViewUpdate,
};
use vstd::prelude::*;

verus! {

/// How many times one pass retries after losing the generation race before it
/// leaves the canvas to the next message or sweep tick.
pub const MAX_ATTEMPTS: usize = 8;

/// Derives one canvas. The typed input the message consumer and the sweeper
/// share.
#[derive(Debug)]
pub struct DeriveCanvas {
    pub canvas: CanvasId,
}

/// What a pass does after a commit attempt.
#[derive(Debug, Clone, Copy, PartialEq, Eq, Structural)]
pub enum AttemptOutcome {
    /// The pass published its revisions.
    Done,
    /// The tree moved under the pass: derive the newer state at once, as
    /// attempt number `next`.
    Retry { next: usize },
    /// Every attempt lost the race; the next message or sweep tick picks the
    /// canvas up.
    GiveUp,
}

/// The step after attempt `attempt` (counted from 0) committed or lost.
pub fn after_commit(attempt: usize, committed: bool) -> (r: AttemptOutcome)
    requires
        attempt < MAX_ATTEMPTS,
    ensures
        committed ==> r == AttemptOutcome::Done,
        !committed && attempt + 1 < MAX_ATTEMPTS ==> r == (AttemptOutcome::Retry { next: (attempt + 1) as usize }),
        !committed && attempt + 1 >= MAX_ATTEMPTS ==> r == AttemptOutcome::GiveUp,
{
    if committed {
        AttemptOutcome::Done
    } else if attempt + 1 < MAX_ATTEMPTS {
        AttemptOutcome::Retry { next: attempt + 1 }
    } else {
        AttemptOutcome::GiveUp
    }
}

/// A server's config as the pass rendered it: the TOML, the entries it
/// serves, the certificates it pins, and the pods that could not be compiled
/// on their own.
#[derive(Debug, Clone)]
pub struct RenderedConfig {
    pub toml: String,
    /// Index-aligned with the `[[forwarding]]` entries of `toml`.
    pub forwardings: Vec<ForwardingDeps>,
    /// Sorted.
    pub certificates: Vec<CertificateRef>,
    pub invalid: Vec<InvalidPod>,
    pub waiting_for: Vec<ServerId>,
}

/// Whether `rendered` is what `previous` already serves: byte-identical TOML
/// pinning the same material.
pub open spec fn renders_unchanged(previous: Option<ConfigSnapshot>, rendered: RenderedConfig) -> bool {
    previous matches Some(s) && s.toml@ == rendered.toml@ && cert_refs_view(s.certificates@)
        == cert_refs_view(rendered.certificates@)
}

/// The snapshot behind an optional borrow.
pub open spec fn snapshot_of(previous: Option<&ConfigSnapshot>) -> Option<ConfigSnapshot> {
    match previous {
        Some(s) => Some(*s),
        None => None,
    }
}

/// The revision after `previous`'s, saturating at `i64::MAX`; 1 for the first.
pub open spec fn next_revision(previous: Option<ConfigSnapshot>) -> i64 {
    let last = match previous {
        Some(s) => s.revision as int,
        None => 0,
    };
    if last + 1 > i64::MAX {
        i64::MAX
    } else {
        (last + 1) as i64
    }
}

/// One server's slot in a derivation pass.
///
/// `rendered` is the server's config after convergence, validation and
/// rendering, or the text of the error that stopped it; `previous` is the
/// slot's current `desired`. A failure of the whole server (a graph that does
/// not check, a broken stored snapshot) is reported in `derive_error` and
/// leaves `desired` alone. Byte-identical TOML pinning the same material is no
/// new revision, so the worker is never restarted for an edit that does not
/// concern it, but the pod report still lands: a pod may have broken (or been
/// fixed) without changing the served config. Anything else is the next
/// revision, and clears the previous failure.
pub fn derive_one(
    server: ServerId,
    previous: Option<&ConfigSnapshot>,
    rendered: Result<RenderedConfig, String>,
    now: Timestamp,
) -> (u: ViewUpdate)
    ensures
        u.server == server,
        rendered matches Err(e) ==> u.desired is None && u.derive_error == Some(e)
            && u.invalid_pods@.len() == 0 && u.waiting_for@.len() == 0 && !u.clear_failure,
        rendered matches Ok(c) ==> u.derive_error is None && u.invalid_pods == c.invalid
            && u.waiting_for == c.waiting_for,
        match rendered {
            Ok(c) => if renders_unchanged(snapshot_of(previous), c) {
                u.desired is None && !u.clear_failure
            } else {
                u.clear_failure && u.desired == Some(
                    ConfigSnapshot {
                        revision: next_revision(snapshot_of(previous)),
                        toml: c.toml,
                        created_at: now,
                        forwardings: c.forwardings,
                        certificates: c.certificates,
                    },
                )
            },
            Err(_) => true,
        },
{
    let rendered = match rendered {
        Ok(rendered) => rendered,
        Err(error) => {
            return ViewUpdate {
                server,
                desired: None,
                derive_error: Some(error),
                invalid_pods: Vec::new(),
                waiting_for: Vec::new(),
                clear_failure: false,
            };
        },
    };
    let unchanged = match previous {
        Some(s) => s.toml == rendered.toml && same_cert_refs(&s.certificates, &rendered.certificates),
        None => false,
    };
    if unchanged {
        return ViewUpdate {
            server,
            desired: None,
            derive_error: None,
            invalid_pods: rendered.invalid,
            waiting_for: rendered.waiting_for,
            clear_failure: false,
        };
    }
    let last = match previous {
        Some(s) => s.revision,
        None => 0,
    };
    let revision = if last == i64::MAX {
        i64::MAX
    } else {
        last + 1
    };
    ViewUpdate {
        server,
        desired: Some(
            ConfigSnapshot {
                revision,
                toml: rendered.toml,
                created_at: now,
                forwardings: rendered.forwardings,
                certificates: rendered.certificates,
            },
        ),
        derive_error: None,
        invalid_pods: rendered.invalid,
        waiting_for: rendered.waiting_for,
        clear_failure: true,
    }
}

/// A pod health record as plain values: pod, status, message, report time.
pub open spec fn record_view(r: NewPodHealthRecord) -> (Seq<char>, PodHealthStatus, Seq<char>, Timestamp) {
    (r.pod@, r.status, r.message@, r.report_time)
}

pub open spec fn records_view(rs: Seq<NewPodHealthRecord>) -> Seq<(Seq<char>, PodHealthStatus, Seq<char>, Timestamp)> {
    rs.map_values(|r: NewPodHealthRecord| record_view(r))
}

/// The message a `Deploying` record carries for revision `revision`.
pub open spec fn published_message(revision: i64) -> Seq<char> {
    "revision "@ + signed_decimal_text(revision as int) + " published"@
}

/// The entries of a snapshot as `(pod, forwarding, certificates)`: its parsed
/// `[[forwarding]]` entries zipped with its dependency records, up to the
/// shorter of the two.
pub open spec fn entry_count(forwardings: Seq<String>, deps: Seq<ForwardingDeps>) -> nat {
    if forwardings.len() < deps.len() {
        forwardings.len()
    } else {
        deps.len()
    }
}

/// The last of the first `n` entries that belongs to `pod`, as its forwarding
/// and pinned certificates: later entries of a pod replace earlier ones.
pub open spec fn entry_of(
    pod: Seq<char>,
    forwardings: Seq<String>,
    deps: Seq<ForwardingDeps>,
    n: nat,
) -> Option<(Seq<char>, Seq<(crate::entities::view::CertificateKind, Seq<char>, i64)>)>
    decreases n,
{
    if n == 0 {
        None
    } else if deps[n - 1].pod@ == pod {
        Some((forwardings[n - 1]@, cert_refs_view(deps[n - 1].certificates@)))
    } else {
        entry_of(pod, forwardings, deps, (n - 1) as nat)
    }
}

/// Whether entry `k` of the next snapshot is what the previous snapshot
/// already served for the same pod, certificates included.
pub open spec fn entry_unchanged(
    previous: Option<(Seq<String>, Seq<ForwardingDeps>)>,
    forwardings: Seq<String>,
    deps: Seq<ForwardingDeps>,
    k: int,
) -> bool {
    match previous {
        None => false,
        Some((pf, pd)) => entry_of(deps[k].pod@, pf, pd, entry_count(pf, pd)) == Some(
            (forwardings[k]@, cert_refs_view(deps[k].certificates@)),
        ),
    }
}

/// The records after the first `k` entries of the next snapshot have been
/// considered, starting from `start`: an entry gets a `Deploying` record
/// unless it is unchanged or its pod already has one.
pub open spec fn deploying_after(
    start: Seq<(Seq<char>, PodHealthStatus, Seq<char>, Timestamp)>,
    previous: Option<(Seq<String>, Seq<ForwardingDeps>)>,
    forwardings: Seq<String>,
    deps: Seq<ForwardingDeps>,
    revision: i64,
    now: Timestamp,
    k: nat,
) -> Seq<(Seq<char>, PodHealthStatus, Seq<char>, Timestamp)>
    decreases k,
{
    if k == 0 {
        start
    } else {
        let before = deploying_after(start, previous, forwardings, deps, revision, now, (k - 1) as nat);
        let pod = deps[k - 1].pod@;
        if entry_unchanged(previous, forwardings, deps, k - 1) || exists|i: int|
            0 <= i < before.len() && (#[trigger] before[i]).0 == pod {
            before
        } else {
            before.push((pod, PodHealthStatus::Deploying, published_message(revision), now))
        }
    }
}

fn published_message_text(revision: i64) -> (m: String)
    ensures
        m@ == published_message(revision),
{
    proof {
        reveal_strlit("revision ");
        reveal_strlit(" published");
    }
    String::from_str("revision ").concat(signed_decimal(revision).as_str()).concat(" published")
}

fn previous_entry_matches(
    pod: &String,
    forwarding: &String,
    certificates: &Vec<CertificateRef>,
    previous_forwardings: &Vec<String>,
    previous_deps: &Vec<ForwardingDeps>,
) -> (r: bool)
    ensures
        r == (entry_of(
            pod@,
            previous_forwardings@,
            previous_deps@,
            entry_count(previous_forwardings@, previous_deps@),
        ) == Some((forwarding@, cert_refs_view(certificates@)))),
{
    let n = if previous_forwardings.len() < previous_deps.len() {
        previous_forwardings.len()
    } else {
        previous_deps.len()
    };
    let mut j: usize = n;
    while j > 0
        invariant
            j <= n,
            n <= previous_forwardings@.len(),
            n <= previous_deps@.len(),
            n == entry_count(previous_forwardings@, previous_deps@),
            entry_of(pod@, previous_forwardings@, previous_deps@, n as nat) == entry_of(
                pod@,
                previous_forwardings@,
                previous_deps@,
                j as nat,
            ),
        decreases j,
    {
        if previous_deps[j - 1].pod == *pod {
            return previous_forwardings[j - 1] == *forwarding && same_cert_refs(
                &previous_deps[j - 1].certificates,
                certificates,
            );
        }
        j = j - 1;
    }
    false
}

fn has_record_for(out: &Vec<NewPodHealthRecord>, pod: &String) -> (r: bool)
    ensures
        r == exists|i: int| 0 <= i < out@.len() && (#[trigger] records_view(out@)[i]).0 == pod@,
{
    let mut i: usize = 0;
    while i < out.len()
        invariant
            i <= out@.len(),
            forall|k: int| 0 <= k < i ==> (#[trigger] records_view(out@)[k]).0 != pod@,
        decreases out@.len() - i,
    {
        if out[i].pod == *pod {
            assert(records_view(out@)[i as int].0 == pod@);
            return true;
        }
        i = i + 1;
    }
    false
}

/// Appends a `Deploying` record, stamped `now`, for every pod whose
/// `[[forwarding]]` entry in the next snapshot differs from (or is absent in)
/// the previous one, at most one per pod. A renewal of pinned material counts
/// too: the entry's bytes are the same, but the worker still has to swap the
/// files.
///
/// `next_forwardings` are the parsed entries of `next.toml` (`None` when it
/// does not parse: nothing is announced); `previous` the parsed entries of the
/// previous snapshot with its dependency records (`None` when there is none,
/// or it does not parse: every entry is new).
pub fn deploying_records(
    previous: Option<(&Vec<String>, &Vec<ForwardingDeps>)>,
    next_forwardings: Option<&Vec<String>>,
    next: &ConfigSnapshot,
    now: Timestamp,
    out: &mut Vec<NewPodHealthRecord>,
)
    ensures
        next_forwardings is None ==> final(out)@ == old(out)@,
        next_forwardings matches Some(nf) ==> records_view(final(out)@) == deploying_after(
            records_view(old(out)@),
            match previous {
                Some((pf, pd)) => Some((pf@, pd@)),
                None => None,
            },
            nf@,
            next.forwardings@,
            next.revision,
            now,
            entry_count(nf@, next.forwardings@),
        ),
        next_forwardings matches Some(nf) ==> forall|e: int|
            0 <= e < entry_count(nf@, next.forwardings@) && !served_before(
                match previous {
                    Some((pf, pd)) => Some((pf@, pd@)),
                    None => None,
                },
                nf@,
                next.forwardings@,
                e,
            ) ==> exists|i: int|
                0 <= i < final(out)@.len() && (#[trigger] final(out)@[i]).pod@ == (
                #[trigger] next.forwardings@[e]).pod@,
{
    let forwardings = match next_forwardings {
        Some(f) => f,
        None => {
            return;
        },
    };
    let ghost prev = match previous {
        Some((pf, pd)) => Some((pf@, pd@)),
        None => None,
    };
    let n = if forwardings.len() < next.forwardings.len() {
        forwardings.len()
    } else {
        next.forwardings.len()
    };
    let mut k: usize = 0;
    while k < n
        invariant
            n == entry_count(forwardings@, next.forwardings@),
            n <= forwardings@.len(),
            n <= next.forwardings@.len(),
            k <= n,
            prev == match previous {
                Some((pf, pd)) => Some((pf@, pd@)),
                None => None::<(Seq<String>, Seq<ForwardingDeps>)>,
            },
            records_view(out@) == deploying_after(
                records_view(old(out)@),
                prev,
                forwardings@,
                next.forwardings@,
                next.revision,
                now,
                k as nat,
            ),
        decreases n - k,
    {
        let deps = &next.forwardings[k];
        let same = match previous {
            Some((pf, pd)) => previous_entry_matches(
                &deps.pod,
                &forwardings[k],
                &deps.certificates,
                pf,
                pd,
            ),
            None => false,
        };
        let ghost before = records_view(out@);
        if !same {
            if !has_record_for(out, &deps.pod) {
                let message = published_message_text(next.revision);
                out.push(
                    NewPodHealthRecord {
                        pod: deps.pod.clone(),
                        status: PodHealthStatus::Deploying,
                        message,
                        report_time: now,
                    },
                );
                proof {
                    assert(records_view(out@) =~= before.push(
                        (deps.pod@, PodHealthStatus::Deploying, published_message(next.revision), now),
                    ));
                }
            }
        }
        k = k + 1;
    }
    proof {
        lemma_changed_entries_are_announced(
            records_view(old(out)@),
            prev,
            forwardings@,
            next.forwardings@,
            next.revision,
            now,
            n as nat,
        );
        let outv = records_view(out@);
        assert forall|e: int|
            0 <= e < n && !served_before(prev, forwardings@, next.forwardings@, e) implies exists|i: int|
            0 <= i < out@.len() && (#[trigger] out@[i]).pod@ == (#[trigger] next.forwardings@[e]).pod@ by {
            let i = choose|i: int| 0 <= i < outv.len() && (#[trigger] outv[i]).0 == next.forwardings@[e].pod@;
            assert(outv[i] == record_view(out@[i]));
        }
    }
}

/// Whether entry `j` of a snapshot's first `n` entries is the last one that
/// belongs to `pod`.
pub open spec fn last_entry_of(pod: Seq<char>, deps: Seq<ForwardingDeps>, n: int, j: int) -> bool {
    &&& 0 <= j < n
    &&& deps[j].pod@ == pod
    &&& forall|j2: int| j < j2 < n ==> (#[trigger] deps[j2]).pod@ != pod
}

/// Whether entry `k` of the next snapshot repeats what the previous snapshot
/// served for the same pod: the last previous entry of that pod has the same
/// `[[forwarding]]` text and pins the same certificates.
pub open spec fn served_before(
    previous: Option<(Seq<String>, Seq<ForwardingDeps>)>,
    forwardings: Seq<String>,
    deps: Seq<ForwardingDeps>,
    k: int,
) -> bool {
    match previous {
        None => false,
        Some((pf, pd)) => exists|j: int|
            #[trigger] last_entry_of(deps[k].pod@, pd, entry_count(pf, pd) as int, j) && pf[j]@
                == forwardings[k]@ && cert_refs_view(pd[j].certificates@) == cert_refs_view(
                deps[k].certificates@,
            ),
    }
}

proof fn lemma_entry_of_is_last(pod: Seq<char>, pf: Seq<String>, pd: Seq<ForwardingDeps>, n: nat)
    requires
        n <= pf.len(),
        n <= pd.len(),
    ensures
        entry_of(pod, pf, pd, n) is None <==> forall|j: int| 0 <= j < n ==> (#[trigger] pd[j]).pod@ != pod,
        forall|j: int| #[trigger]
            last_entry_of(pod, pd, n as int, j) ==> entry_of(pod, pf, pd, n) == Some(
                (pf[j]@, cert_refs_view(pd[j].certificates@)),
            ),
        entry_of(pod, pf, pd, n) is Some ==> exists|j: int| #[trigger] last_entry_of(pod, pd, n as int, j),
    decreases n,
{
    if n > 0 {
        lemma_entry_of_is_last(pod, pf, pd, (n - 1) as nat);
        let m = n - 1;
        if pd[m].pod@ == pod {
            assert(last_entry_of(pod, pd, n as int, m as int));
            assert forall|j: int| #[trigger] last_entry_of(pod, pd, n as int, j) implies j == m by {
                if j < m {
                    assert(pd[m as int].pod@ != pod);
                }
            }
        } else {
            assert forall|j: int| #[trigger] last_entry_of(pod, pd, n as int, j) implies last_entry_of(
                pod,
                pd,
                m as int,
                j,
            ) by {}
            if entry_of(pod, pf, pd, n) is Some {
                let j = choose|j: int| #[trigger] last_entry_of(pod, pd, m as int, j);
                assert(last_entry_of(pod, pd, n as int, j));
            }
        }
    }
}

proof fn lemma_unchanged_is_served_before(
    previous: Option<(Seq<String>, Seq<ForwardingDeps>)>,
    forwardings: Seq<String>,
    deps: Seq<ForwardingDeps>,
    k: int,
)
    ensures
        entry_unchanged(previous, forwardings, deps, k) == served_before(previous, forwardings, deps, k),
{
    if let Some((pf, pd)) = previous {
        let n = entry_count(pf, pd);
        let pod = deps[k].pod@;
        lemma_entry_of_is_last(pod, pf, pd, n);
        if entry_unchanged(previous, forwardings, deps, k) {
            let j = choose|j: int| #[trigger] last_entry_of(pod, pd, n as int, j);
            assert(last_entry_of(pod, pd, n as int, j));
        }
        if served_before(previous, forwardings, deps, k) {
            let j = choose|j: int|
                #[trigger] last_entry_of(pod, pd, n as int, j) && pf[j]@ == forwardings[k]@
                    && cert_refs_view(pd[j].certificates@) == cert_refs_view(deps[k].certificates@);
            assert(last_entry_of(pod, pd, n as int, j));
        }
    }
}

/// Which pods a revision announces. Over the first `k` entries of the next
/// snapshot, records already in `start` stay as they are, in front; every
/// entry that does not repeat what the previous snapshot served for its pod
/// (different `[[forwarding]]` text, different pinned certificates, or no
/// previous entry at all) leaves its pod with a record; every record added is
/// a `Deploying` record for such an entry's pod, carrying the revision's
/// message and `now`; and no pod gets a second one.
pub proof fn lemma_changed_entries_are_announced(
    start: Seq<(Seq<char>, PodHealthStatus, Seq<char>, Timestamp)>,
    previous: Option<(Seq<String>, Seq<ForwardingDeps>)>,
    forwardings: Seq<String>,
    deps: Seq<ForwardingDeps>,
    revision: i64,
    now: Timestamp,
    k: nat,
)
    ensures
        ({
            let out = deploying_after(start, previous, forwardings, deps, revision, now, k);
            &&& start.len() <= out.len()
            &&& forall|i: int| 0 <= i < start.len() ==> #[trigger] out[i] == start[i]
            &&& forall|e: int|
                0 <= e < k && !served_before(previous, forwardings, deps, e) ==> exists|i: int|
                    0 <= i < out.len() && (#[trigger] out[i]).0 == (#[trigger] deps[e]).pod@
            &&& forall|i: int|
                start.len() <= i < out.len() ==> {
                    &&& (#[trigger] out[i]).1 == PodHealthStatus::Deploying
                    &&& out[i].2 == published_message(revision)
                    &&& out[i].3 == now
                    &&& exists|e: int|
                        0 <= e < k && !served_before(previous, forwardings, deps, e)
                            && (#[trigger] deps[e]).pod@ == out[i].0
                }
            &&& forall|i: int, i2: int|
                0 <= i < i2 < out.len() && start.len() <= i2 ==> (#[trigger] out[i]).0 != (
                #[trigger] out[i2]).0
        }),
    decreases k,
{
    if k > 0 {
        lemma_changed_entries_are_announced(start, previous, forwardings, deps, revision, now, (k - 1) as nat);
        lemma_unchanged_is_served_before(previous, forwardings, deps, k - 1);
        let before = deploying_after(start, previous, forwardings, deps, revision, now, (k - 1) as nat);
        let out = deploying_after(start, previous, forwardings, deps, revision, now, k);
        let pod = deps[k - 1].pod@;
        let e0 = k - 1;
        if !(entry_unchanged(previous, forwardings, deps, k - 1) || exists|i: int|
            0 <= i < before.len() && (#[trigger] before[i]).0 == pod) {
            assert(out == before.push((pod, PodHealthStatus::Deploying, published_message(revision), now)));
            assert forall|i: int| 0 <= i < start.len() implies #[trigger] out[i] == start[i] by {
                assert(out[i] == before[i]);
            }
            assert forall|e: int|
                0 <= e < k && !served_before(previous, forwardings, deps, e) implies exists|i: int|
                0 <= i < out.len() && (#[trigger] out[i]).0 == (#[trigger] deps[e]).pod@ by {
                if e < k - 1 {
                    let i = choose|i: int| 0 <= i < before.len() && (#[trigger] before[i]).0 == deps[e].pod@;
                    assert(out[i] == before[i]);
                } else {
                    assert(out[before.len() as int].0 == deps[e].pod@);
                }
            }
            assert forall|i: int| start.len() <= i < out.len() implies {
                &&& (#[trigger] out[i]).1 == PodHealthStatus::Deploying
                &&& out[i].2 == published_message(revision)
                &&& out[i].3 == now
                &&& exists|e: int|
                    0 <= e < k && !served_before(previous, forwardings, deps, e)
                        && (#[trigger] deps[e]).pod@ == out[i].0
            } by {
                if i < before.len() {
                    assert(out[i] == before[i]);
                    let e = choose|e: int|
                        0 <= e < k - 1 && !served_before(previous, forwardings, deps, e)
                            && (#[trigger] deps[e]).pod@ == before[i].0;
                    assert(deps[e].pod@ == out[i].0);
                } else {
                    assert(deps[e0].pod@ == out[i].0);
                }
            }
            assert forall|i: int, i2: int|
                0 <= i < i2 < out.len() && start.len() <= i2 implies (#[trigger] out[i]).0 != (
                #[trigger] out[i2]).0 by {
                if i2 < before.len() {
                    assert(out[i] == before[i] && out[i2] == before[i2]);
                } else {
                    assert(out[i] == before[i]);
                    assert(out[i2].0 == pod);
                }
            }
        } else {
            assert(out == before);
            assert forall|e: int|
                0 <= e < k && !served_before(previous, forwardings, deps, e) implies exists|i: int|
                0 <= i < out.len() && (#[trigger] out[i]).0 == (#[trigger] deps[e]).pod@ by {
                if e < k - 1 {
                } else {
                    let i = choose|i: int| 0 <= i < before.len() && (#[trigger] before[i]).0 == pod;
                    assert(out[i].0 == deps[e].pod@);
                }
            }
            assert forall|i: int| start.len() <= i < out.len() implies {
                &&& (#[trigger] out[i]).1 == PodHealthStatus::Deploying
                &&& out[i].2 == published_message(revision)
                &&& out[i].3 == now
                &&& exists|e: int|
                    0 <= e < k && !served_before(previous, forwardings, deps, e)
                        && (#[trigger] deps[e]).pod@ == out[i].0
            } by {
                let e = choose|e: int|
                    0 <= e < k - 1 && !served_before(previous, forwardings, deps, e)
                        && (#[trigger] deps[e]).pod@ == before[i].0;
                assert(deps[e].pod@ == out[i].0);
            }
        }
    }
}

/// Derivation is idempotent: once a pass has published a render as the next
/// revision, a later pass that renders the same config against that snapshot
/// finds it unchanged and publishes nothing.
pub proof fn lemma_rederiving_publishes_nothing(
    published: ConfigSnapshot,
    rendered: RenderedConfig,
    revision: i64,
    now: Timestamp,
)
    requires
        published == (ConfigSnapshot {
            revision,
            toml: rendered.toml,
            created_at: now,
            forwardings: rendered.forwardings,
            certificates: rendered.certificates,
        }),
    ensures
        renders_unchanged(Some(published), rendered),
{
}

/// Revisions only move forward: a published revision is one past the one it
/// replaces, until the counter saturates at `i64::MAX`.
pub proof fn lemma_revisions_increase(previous: ConfigSnapshot)
    ensures
        previous.revision < i64::MAX ==> next_revision(Some(previous)) == previous.revision + 1,
        previous.revision == i64::MAX ==> next_revision(Some(previous)) == i64::MAX,
        next_revision(None) == 1,
{
}

/// The instant `renew_before_secs` after `now_nanos`, in nanoseconds: the
/// latest instant `time` represents when the sum is out of its range.
pub open spec fn rotation_horizon(now_nanos: i128, renew_before_secs: u64, latest: i128) -> i128 {
    let sum = now_nanos + renew_before_secs * 1_000_000_000;
    if i128::MIN <= sum <= i128::MAX && time_represents_nanos(sum as i128) {
        sum as i128
    } else {
        latest
    }
}

/// Whether `latest` is the latest instant, in nanoseconds, that `time`
/// represents.
pub open spec fn is_latest_time(latest: i128) -> bool {
    time_represents_nanos(latest) && forall|n: i128| n > latest ==> !time_represents_nanos(n)
}

/// The cut-off of a relay-leaf rotation pass at `now_nanos`: leaves expiring
/// before `now + renew_before_secs` are rotated, and a horizon past the
/// latest instant `time` represents saturates there. In microseconds, rounded
/// down.
pub fn rotation_cutoff_at(now_nanos: i128, renew_before_secs: u64) -> (t: Timestamp)
    ensures
        exists|latest: i128|
            is_latest_time(latest) && t == clamped_micros(
                #[trigger] rotation_horizon(now_nanos, renew_before_secs, latest),
            ),
{
    let latest = time_max_nanos();
    let delta: i128 = renew_before_secs as i128 * 1_000_000_000;
    let horizon = match now_nanos.checked_add(delta) {
        Some(sum) => match time_from_unix_nanos(sum) {
            Some(h) => h,
            None => latest,
        },
        None => latest,
    };
    let t = micros_of_nanos(horizon);
    assert(horizon == rotation_horizon(now_nanos, renew_before_secs, latest));
    assert(is_latest_time(latest));
    t
}

/// The cut-off of a rotation pass starting now; see [`rotation_cutoff_at`].
/// Nothing is claimed of the clock: the cut-off is that of some instant.
pub fn rotation_cutoff(renew_before_secs: u64) -> (t: Timestamp)
    ensures
        exists|now_nanos: i128, latest: i128|
            is_latest_time(latest) && t == clamped_micros(
                #[trigger] rotation_horizon(now_nanos, renew_before_secs, latest),
            ),
{
    let now_nanos = time_now_nanos();
    let t = rotation_cutoff_at(now_nanos, renew_before_secs);
    proof {
        let latest = choose|latest: i128|
            is_latest_time(latest) && t == clamped_micros(
                #[trigger] rotation_horizon(now_nanos, renew_before_secs, latest),
            );
        assert(is_latest_time(latest) && t == clamped_micros(
            rotation_horizon(now_nanos, renew_before_secs, latest),
        ));
    }
    t
}

/// A copy of a list of ids.
fn copy_ids(v: &Vec<String>) -> (r: Vec<String>)
    ensures
        r@ == v@,
{
    let mut out: Vec<String> = Vec::new();
    let mut i: usize = 0;
    while i < v.len()
        invariant
            i <= v@.len(),
            out@ == v@.take(i as int),
        decreases v@.len() - i,
    {
        out.push(v[i].clone());
        assert(out@ =~= v@.take(i + 1));
        i = i + 1;
    }
    assert(v@.take(v@.len() as int) =~= v@);
    out
}

/// One sweep pass in progress: the stale canvases it listed and the position
/// of the one being derived.
#[derive(Debug)]
pub struct SweepPass {
    pub canvases: Vec<CanvasId>,
    pub current: usize,
}

/// What happened to the sweep's last request.
#[derive(Debug)]
pub enum SweepEvent {
    /// The stale canvases, or why listing them failed.
    Listed(Result<Vec<CanvasId>, String>),
    /// The current canvas's derivation finished, whatever its outcome.
    Derived,
}

/// What the sweep does next.
#[derive(Debug)]
pub enum SweepAction {
    /// List the canvases whose edits outran their derivation.
    List,
    /// Derive one canvas.
    Derive { canvas: CanvasId },
    /// The pass is over.
    Done,
    /// The pass failed: there is nothing to sweep.
    Fail { error: String },
}

/// The derivation of the `i`-th canvas, or the end of the pass after the last.
pub open spec fn derive_or_done(canvases: Seq<CanvasId>, i: int, a: SweepAction) -> bool {
    if 0 <= i < canvases.len() {
        a matches SweepAction::Derive { canvas } && canvas == canvases[i]
    } else {
        a is Done
    }
}

impl SweepPass {
    /// A sweep; its first request lists the stale canvases.
    pub fn start() -> (r: (SweepPass, SweepAction))
        ensures
            r.0.canvases@.len() == 0,
            r.0.current == 0,
            r.1 is List,
    {
        (SweepPass { canvases: Vec::new(), current: 0 }, SweepAction::List)
    }
}

fn sweep_derive(pass: SweepPass, i: usize) -> (r: (SweepPass, SweepAction))
    ensures
        r.0.canvases@ == pass.canvases@,
        r.0.current == i,
        derive_or_done(pass.canvases@, i as int, r.1),
{
    let action = if i < pass.canvases.len() {
        SweepAction::Derive { canvas: pass.canvases[i].clone() }
    } else {
        SweepAction::Done
    };
    (SweepPass { current: i, ..pass }, action)
}

/// The sweep's next step: a listing that fails fails the pass; the listed
/// canvases are then derived one at a time in listing order, and a canvas
/// whose derivation fails does not stop the pass.
pub fn sweep_step(pass: SweepPass, event: SweepEvent) -> (r: (SweepPass, SweepAction))
    ensures
        match event {
            SweepEvent::Listed(Err(e)) => r.1 == (SweepAction::Fail { error: e }),
            SweepEvent::Listed(Ok(cs)) => r.0.canvases@ == cs@ && r.0.current == 0
                && derive_or_done(cs@, 0, r.1),
            SweepEvent::Derived => r.0.canvases@ == pass.canvases@ && if pass.current
                < pass.canvases@.len() {
                r.0.current == pass.current + 1 && derive_or_done(
                    pass.canvases@,
                    pass.current + 1,
                    r.1,
                )
            } else {
                r.0.current == pass.current && r.1 is Done
            },
        },
{
    match event {
        SweepEvent::Listed(Err(error)) => (pass, SweepAction::Fail { error }),
        SweepEvent::Listed(Ok(canvases)) => sweep_derive(SweepPass { canvases, current: 0 }, 0),
        SweepEvent::Derived => {
            if pass.current < pass.canvases.len() {
                let next = pass.current + 1;
                sweep_derive(pass, next)
            } else {
                (pass, SweepAction::Done)
            }
        },
    }
}

/// A relay leaf the rotation pass found expiring: the pod it belongs to and
/// the version it was read at, which the rotation is fenced on.
#[derive(Debug, Clone)]
pub struct ExpiringLeaf {
    pub pod: PodId,
    pub version: i64,
}

impl ExpiringLeaf {
    /// What the pass keeps of a listed leaf.
    pub fn of(leaf: &RelayCertificateEntity) -> (l: Self)
        ensures
            l.pod == leaf.pod,
            l.version == leaf.version,
    {
        ExpiringLeaf { pod: leaf.pod.clone(), version: leaf.version }
    }
}

/// One rotation pass in progress: the leaves it listed and the position of
/// the one being rotated, the pods whose leaf it rotated, and then the
/// canvases of those pods and the position of the one being derived.
#[derive(Debug)]
pub struct RotationPass {
    pub leaves: Vec<ExpiringLeaf>,
    pub current: usize,
    pub rotated: Vec<PodId>,
    pub canvases: Vec<CanvasId>,
    pub derived: usize,
}

/// What happened to the rotation pass's last request.
#[derive(Debug)]
pub enum RotationEvent {
    /// The leaves expiring before the cut-off, or why listing them failed.
    Listed(Result<Vec<ExpiringLeaf>, String>),
    /// The rotation of the current leaf: `Ok(false)` when its version had
    /// moved (another pass rotated it).
    Rotated(Result<bool, String>),
    /// The canvases of the rotated pods, or why listing them failed.
    CanvasesListed(Result<Vec<CanvasId>, String>),
    /// The canvases were marked as edited, or why that failed.
    Touched(Result<(), String>),
    /// The current canvas's derivation finished, whatever its outcome.
    Derived,
}

/// What the rotation pass does next.
#[derive(Debug)]
pub enum RotationAction {
    /// List the leaves expiring before the cut-off.
    List { before: Timestamp },
    /// Re-issue one pod's leaf, fenced on the version it was listed at.
    Rotate { pod: PodId, expected_version: i64 },
    /// List the canvases of the pods whose leaf was rotated.
    ListCanvases { pods: Vec<PodId> },
    /// Mark the canvases as edited, so the rotated material ships.
    Touch { canvases: Vec<CanvasId> },
    /// Derive one canvas.
    Derive { canvas: CanvasId },
    /// The pass is over.
    Done,
    /// The pass failed.
    Fail { error: String },
}

/// The rotation of the `i`-th listed leaf, or, after the last, the listing of
/// the canvases of the pods rotated so far.
pub open spec fn rotate_or_list(leaves: Seq<ExpiringLeaf>, rotated: Seq<PodId>, i: int, a: RotationAction) -> bool {
    if 0 <= i < leaves.len() {
        a matches RotationAction::Rotate { pod, expected_version } && pod == leaves[i].pod
            && expected_version == leaves[i].version
    } else {
        a matches RotationAction::ListCanvases { pods } && pods@ == rotated
    }
}

/// The derivation of the `i`-th canvas, or the end of the pass after the last.
pub open spec fn rotation_derive_or_done(canvases: Seq<CanvasId>, i: int, a: RotationAction) -> bool {
    if 0 <= i < canvases.len() {
        a matches RotationAction::Derive { canvas } && canvas == canvases[i]
    } else {
        a is Done
    }
}

impl RotationPass {
    /// A rotation pass with the cut-off `before` (see [`rotation_cutoff`]);
    /// its first request lists the leaves expiring before it.
    pub fn start(before: Timestamp) -> (r: (RotationPass, RotationAction))
        ensures
            r.0.leaves@.len() == 0,
            r.0.rotated@.len() == 0,
            r.0.canvases@.len() == 0,
            r.0.current == 0,
            r.0.derived == 0,
            r.1 == (RotationAction::List { before }),
    {
        (
            RotationPass {
                leaves: Vec::new(),
                current: 0,
                rotated: Vec::new(),
                canvases: Vec::new(),
                derived: 0,
            },
            RotationAction::List { before },
        )
    }
}

fn rotate_leaf(pass: RotationPass, i: usize) -> (r: (RotationPass, RotationAction))
    ensures
        r.0.leaves@ == pass.leaves@,
        r.0.rotated@ == pass.rotated@,
        r.0.canvases@ == pass.canvases@,
        r.0.derived == pass.derived,
        r.0.current == i,
        rotate_or_list(pass.leaves@, pass.rotated@, i as int, r.1),
{
    let action = if i < pass.leaves.len() {
        RotationAction::Rotate {
            pod: pass.leaves[i].pod.clone(),
            expected_version: pass.leaves[i].version,
        }
    } else {
        RotationAction::ListCanvases { pods: copy_ids(&pass.rotated) }
    };
    (RotationPass { current: i, ..pass }, action)
}

fn rotation_derive(pass: RotationPass, i: usize) -> (r: (RotationPass, RotationAction))
    ensures
        r.0.leaves@ == pass.leaves@,
        r.0.rotated@ == pass.rotated@,
        r.0.canvases@ == pass.canvases@,
        r.0.current == pass.current,
        r.0.derived == i,
        rotation_derive_or_done(pass.canvases@, i as int, r.1),
{
    let action = if i < pass.canvases.len() {
        RotationAction::Derive { canvas: pass.canvases[i].clone() }
    } else {
        RotationAction::Done
    };
    (RotationPass { derived: i, ..pass }, action)
}

/// The rotation pass's next step. A listing that finds nothing ends the
/// pass, and a failed listing fails it. The leaves are rotated one at a time
/// in listing order, each fenced on the version it was listed at, and a leaf
/// whose rotation fails or lost its race is left alone without stopping the
/// pass; the pods actually rotated are collected in order. Their canvases
/// are then listed and marked as edited (either failing fails the pass), and
/// derived one at a time, a failed derivation not stopping the pass.
pub fn rotation_step(pass: RotationPass, event: RotationEvent) -> (r: (RotationPass, RotationAction))
    ensures
        match event {
            RotationEvent::Listed(Err(e)) => r.1 == (RotationAction::Fail { error: e }),
            RotationEvent::Listed(Ok(ls)) => if ls@.len() == 0 {
                r.1 is Done
            } else {
                &&& r.0.leaves@ == ls@
                &&& r.0.current == 0
                &&& r.0.rotated@.len() == 0
                &&& rotate_or_list(ls@, Seq::empty(), 0, r.1)
            },
            RotationEvent::Rotated(res) => r.0.leaves@ == pass.leaves@ && if pass.current
                < pass.leaves@.len() {
                let rotated = if res == Ok::<bool, String>(true) {
                    pass.rotated@.push(pass.leaves@[pass.current as int].pod)
                } else {
                    pass.rotated@
                };
                &&& r.0.rotated@ == rotated
                &&& r.0.current == pass.current + 1
                &&& rotate_or_list(pass.leaves@, rotated, pass.current + 1, r.1)
            } else {
                r.0.rotated@ == pass.rotated@ && r.1 is Done
            },
            RotationEvent::CanvasesListed(Err(e)) => r.1 == (RotationAction::Fail { error: e }),
            RotationEvent::CanvasesListed(Ok(cs)) => r.0.canvases@ == cs@ && r.0.derived == 0
                && (r.1 matches RotationAction::Touch { canvases } && canvases@ == cs@),
            RotationEvent::Touched(Err(e)) => r.1 == (RotationAction::Fail { error: e }),
            RotationEvent::Touched(Ok(())) => r.0.canvases@ == pass.canvases@ && r.0.derived == 0
                && rotation_derive_or_done(pass.canvases@, 0, r.1),
            RotationEvent::Derived => r.0.canvases@ == pass.canvases@ && if pass.derived
                < pass.canvases@.len() {
                r.0.derived == pass.derived + 1 && rotation_derive_or_done(
                    pass.canvases@,
                    pass.derived + 1,
                    r.1,
                )
            } else {
                r.0.derived == pass.derived && r.1 is Done
            },
        },
{
    match event {
        RotationEvent::Listed(Err(error)) => (pass, RotationAction::Fail { error }),
        RotationEvent::Listed(Ok(leaves)) => {
            if leaves.len() == 0 {
                (pass, RotationAction::Done)
            } else {
                rotate_leaf(RotationPass { leaves, rotated: Vec::new(), ..pass }, 0)
            }
        },
        RotationEvent::Rotated(res) => {
            if pass.current < pass.leaves.len() {
                let mut pass = pass;
                let rotated_now = match res {
                    Ok(true) => true,
                    _ => false,
                };
                if rotated_now {
                    let pod = pass.leaves[pass.current].pod.clone();
                    pass.rotated.push(pod);
                }
                let next = pass.current + 1;
                rotate_leaf(pass, next)
            } else {
                (pass, RotationAction::Done)
            }
        },
        RotationEvent::CanvasesListed(Err(error)) => (pass, RotationAction::Fail { error }),
        RotationEvent::CanvasesListed(Ok(canvases)) => {
            let touch = copy_ids(&canvases);
            (RotationPass { canvases, derived: 0, ..pass }, RotationAction::Touch { canvases: touch })
        },
        RotationEvent::Touched(Err(error)) => (pass, RotationAction::Fail { error }),
        RotationEvent::Touched(Ok(())) => rotation_derive(pass, 0),
        RotationEvent::Derived => {
            if pass.derived < pass.canvases.len() {
                let next = pass.derived + 1;
                rotation_derive(pass, next)
            } else {
                (pass, RotationAction::Done)
            }
        },
    }
}

} // verus!
