use orchestration::entities::health::{NewPodHealthRecord, PodHealthStatus};
use orchestration::entities::view::{
    CertificateKind, CertificateRef, ConfigSnapshot, ForwardingDeps, ListenProtocol, ListenerCap,
};
use orchestration::hooks::derive::{
    after_commit, deploying_records, derive_one, AttemptOutcome, RenderedConfig, MAX_ATTEMPTS,
};

fn cert(key: &str, version: i64) -> CertificateRef {
    CertificateRef { kind: CertificateKind::Acme, key: key.to_string(), version }
}

fn deps(pod: &str, certificates: Vec<CertificateRef>) -> ForwardingDeps {
    ForwardingDeps {
        pod: pod.to_string(),
        serves: ListenerCap { server: "s1".to_string(), port: 443, protocol: ListenProtocol::Raw },
        points_at: Vec::new(),
        certificates,
    }
}

fn snapshot(revision: i64, toml: &str, certificates: Vec<CertificateRef>) -> ConfigSnapshot {
    ConfigSnapshot {
        revision,
        toml: toml.to_string(),
        created_at: 1,
        forwardings: Vec::new(),
        certificates,
    }
}

fn rendered(toml: &str, certificates: Vec<CertificateRef>) -> RenderedConfig {
    RenderedConfig {
        toml: toml.to_string(),
        forwardings: Vec::new(),
        certificates,
        invalid: Vec::new(),
        waiting_for: vec!["s2".to_string()],
    }
}

#[test]
fn a_failed_render_leaves_desired_alone() {
    let previous = snapshot(3, "a", Vec::new());
    let u = derive_one("s1".to_string(), Some(&previous), Err("graph broken".to_string()), 9);
    assert_eq!(u.server, "s1");
    assert!(u.desired.is_none());
    assert_eq!(u.derive_error.as_deref(), Some("graph broken"));
    assert!(u.invalid_pods.is_empty() && u.waiting_for.is_empty());
    assert!(!u.clear_failure);
}

#[test]
fn an_identical_render_publishes_no_revision() {
    let previous = snapshot(3, "a", vec![cert("c", 1)]);
    let u = derive_one("s1".to_string(), Some(&previous), Ok(rendered("a", vec![cert("c", 1)])), 9);
    assert!(u.desired.is_none());
    assert!(u.derive_error.is_none());
    assert_eq!(u.waiting_for, vec!["s2".to_string()]);
    assert!(!u.clear_failure);
}

#[test]
fn a_renewal_alone_is_a_new_revision() {
    let previous = snapshot(3, "a", vec![cert("c", 1)]);
    let u = derive_one("s1".to_string(), Some(&previous), Ok(rendered("a", vec![cert("c", 2)])), 9);
    let desired = u.desired.expect("a new revision");
    assert_eq!(desired.revision, 4);
    assert_eq!(desired.created_at, 9);
    assert_eq!(desired.certificates[0].version, 2);
    assert!(u.clear_failure);
}

#[test]
fn the_first_revision_is_one_and_the_last_saturates() {
    let u = derive_one("s1".to_string(), None, Ok(rendered("a", Vec::new())), 9);
    assert_eq!(u.desired.map(|d| d.revision), Some(1));
    let previous = snapshot(i64::MAX, "a", Vec::new());
    let u = derive_one("s1".to_string(), Some(&previous), Ok(rendered("b", Vec::new())), 9);
    assert_eq!(u.desired.map(|d| d.revision), Some(i64::MAX));
}

#[test]
fn rederiving_the_published_render_is_quiet() {
    let first = derive_one("s1".to_string(), None, Ok(rendered("a", vec![cert("c", 1)])), 9);
    let published = first.desired.expect("published");
    let second =
        derive_one("s1".to_string(), Some(&published), Ok(rendered("a", vec![cert("c", 1)])), 10);
    assert!(second.desired.is_none());
}

#[test]
fn a_pass_retries_until_it_gives_up() {
    assert_eq!(after_commit(0, true), AttemptOutcome::Done);
    assert_eq!(after_commit(0, false), AttemptOutcome::Retry { next: 1 });
    assert_eq!(after_commit(MAX_ATTEMPTS - 1, false), AttemptOutcome::GiveUp);
}

#[test]
fn only_changed_entries_are_announced_once_per_pod() {
    let mut previous_snapshot = snapshot(3, "", Vec::new());
    previous_snapshot.forwardings = vec![deps("p1", vec![cert("c", 1)]), deps("p2", Vec::new())];
    let previous_entries = vec!["[p1]".to_string(), "[p2]".to_string()];
    let mut next = snapshot(4, "", Vec::new());
    next.forwardings = vec![
        deps("p1", vec![cert("c", 2)]),
        deps("p2", Vec::new()),
        deps("p3", Vec::new()),
        deps("p3", Vec::new()),
    ];
    let next_entries =
        vec!["[p1]".to_string(), "[p2]".to_string(), "[p3]".to_string(), "[p3b]".to_string()];
    let mut out: Vec<NewPodHealthRecord> = Vec::new();
    deploying_records(
        Some((&previous_entries, &previous_snapshot.forwardings)),
        Some(&next_entries),
        &next,
        77,
        &mut out,
    );
    let pods: Vec<&str> = out.iter().map(|r| r.pod.as_str()).collect();
    assert_eq!(pods, vec!["p1", "p3"]);
    assert!(out.iter().all(|r| r.status == PodHealthStatus::Deploying && r.report_time == 77));
    assert_eq!(out[0].message, "revision 4 published");
}

#[test]
fn an_unparsable_revision_announces_nothing_and_a_first_one_everything() {
    let mut next = snapshot(1, "", Vec::new());
    next.forwardings = vec![deps("p1", Vec::new())];
    let mut out: Vec<NewPodHealthRecord> = Vec::new();
    deploying_records(None, None, &next, 5, &mut out);
    assert!(out.is_empty());
    let entries = vec!["[p1]".to_string()];
    deploying_records(None, Some(&entries), &next, 5, &mut out);
    assert_eq!(out.len(), 1);
    assert_eq!(out[0].message, "revision 1 published");
}
