use orchestration::entities::batch::{ApplyTopologyBatch, TopologyStatement, BATCH_WITHOUT_CANVAS};
use orchestration::entities::view::ConfigSnapshot;
use orchestration::hooks::acme::{
    due_windows, renew_step, DueCertificate, RenewAction, RenewEvent, RenewPass,
};
use orchestration::hooks::derive::{
    rotation_step, sweep_step, ExpiringLeaf, RotationAction, RotationEvent, RotationPass,
    SweepAction, SweepEvent, SweepPass,
};
use orchestration::rpc::agent::{
    hand_over, keep_alive_message, reported_from_wire_at, revision_message, unreadable_revision,
    CertificateFile, HandOver,
};
use orchestration::rpc::dashboard::SessionCheck;
use orchestration::rpc::status::Code;
use orchestration::rpc::watch::{HealthKind, HealthStreamAction, HealthStreamEvent, HealthWatermark};

const NOW: i64 = 1_790_000_096_000_000;

fn due(id: &str, seen: Option<i64>) -> DueCertificate {
    DueCertificate { id: id.to_string(), last_attempt_at: seen }
}

fn claim_of(action: &RenewAction) -> Option<(String, Option<i64>)> {
    match action {
        RenewAction::Claim { id, seen_attempt_at } => Some((id.clone(), *seen_attempt_at)),
        _ => None,
    }
}

#[test]
fn a_renewal_pass_claims_in_order_and_issues_only_what_it_claimed() {
    let (pass, action) = RenewPass::start(30 * 24 * 3600, 3600);
    assert!(matches!(action, RenewAction::Ensure));
    let (pass, action) = renew_step(pass, RenewEvent::Ensured { now: NOW });
    match action {
        RenewAction::List(w) => assert_eq!(w, due_windows(NOW, 30 * 24 * 3600, 3600)),
        other => panic!("expected a listing, got {other:?}"),
    }
    let rows = vec![due("a", None), due("b", Some(NOW - 7)), due("c", None)];
    let (pass, action) = renew_step(pass, RenewEvent::Listed(Ok(rows)));
    assert_eq!(claim_of(&action), Some(("a".to_string(), None)));
    let (pass, action) = renew_step(pass, RenewEvent::Claimed(Ok(true)));
    assert!(matches!(&action, RenewAction::Issue { id } if id == "a"));
    let (pass, action) = renew_step(pass, RenewEvent::Issued);
    assert_eq!(claim_of(&action), Some(("b".to_string(), Some(NOW - 7))));
    // the row moved since it was listed: skipped, the pass goes on
    let (pass, action) = renew_step(pass, RenewEvent::Claimed(Ok(false)));
    assert_eq!(claim_of(&action), Some(("c".to_string(), None)));
    // a failed claim skips the row too, and ends the pass after the last one
    let (_, action) = renew_step(pass, RenewEvent::Claimed(Err("db down".to_string())));
    assert!(matches!(action, RenewAction::Done));
}

#[test]
fn a_renewal_pass_stops_when_listing_fails_or_finds_nothing() {
    let (pass, _) = RenewPass::start(60, 60);
    let (pass, _) = renew_step(pass, RenewEvent::Ensured { now: NOW });
    let (pass, action) = renew_step(pass, RenewEvent::Listed(Err("db down".to_string())));
    assert!(matches!(action, RenewAction::Done));
    let (_, action) = renew_step(pass, RenewEvent::Listed(Ok(Vec::new())));
    assert!(matches!(action, RenewAction::Done));
}

#[test]
fn a_sweep_derives_every_listed_canvas_in_order() {
    let (pass, action) = SweepPass::start();
    assert!(matches!(action, SweepAction::List));
    let (pass, action) = sweep_step(pass, SweepEvent::Listed(Ok(vec!["c1".to_string(), "c2".to_string()])));
    assert!(matches!(&action, SweepAction::Derive { canvas } if canvas == "c1"));
    let (pass, action) = sweep_step(pass, SweepEvent::Derived);
    assert!(matches!(&action, SweepAction::Derive { canvas } if canvas == "c2"));
    let (pass, action) = sweep_step(pass, SweepEvent::Derived);
    assert!(matches!(action, SweepAction::Done));
    let (_, action) = sweep_step(pass, SweepEvent::Listed(Err("gone".to_string())));
    assert!(matches!(&action, SweepAction::Fail { error } if error == "gone"));
}

fn leaf(pod: &str, version: i64) -> ExpiringLeaf {
    ExpiringLeaf { pod: pod.to_string(), version }
}

#[test]
fn a_rotation_pass_rotates_each_leaf_once_and_rederives_what_it_rotated() {
    let (pass, action) = RotationPass::start(NOW);
    assert!(matches!(action, RotationAction::List { before } if before == NOW));
    let (pass, action) = rotation_step(pass, RotationEvent::Listed(Ok(vec![leaf("p1", 3), leaf("p2", 1), leaf("p3", 9)])));
    assert!(matches!(&action, RotationAction::Rotate { pod, expected_version: 3 } if pod == "p1"));
    let (pass, action) = rotation_step(pass, RotationEvent::Rotated(Ok(true)));
    assert!(matches!(&action, RotationAction::Rotate { pod, expected_version: 1 } if pod == "p2"));
    // another pass rotated p2 first: left alone
    let (pass, action) = rotation_step(pass, RotationEvent::Rotated(Ok(false)));
    assert!(matches!(&action, RotationAction::Rotate { pod, expected_version: 9 } if pod == "p3"));
    let (pass, action) = rotation_step(pass, RotationEvent::Rotated(Ok(true)));
    match &action {
        RotationAction::ListCanvases { pods } => assert_eq!(pods, &vec!["p1".to_string(), "p3".to_string()]),
        other => panic!("expected the canvases listed, got {other:?}"),
    }
    let (pass, action) = rotation_step(pass, RotationEvent::CanvasesListed(Ok(vec!["c1".to_string()])));
    assert!(matches!(&action, RotationAction::Touch { canvases } if canvases == &vec!["c1".to_string()]));
    let (pass, action) = rotation_step(pass, RotationEvent::Touched(Ok(())));
    assert!(matches!(&action, RotationAction::Derive { canvas } if canvas == "c1"));
    let (_, action) = rotation_step(pass, RotationEvent::Derived);
    assert!(matches!(action, RotationAction::Done));
}

#[test]
fn a_rotation_pass_with_nothing_expiring_or_a_failed_write_ends() {
    let (pass, _) = RotationPass::start(NOW);
    let (pass, action) = rotation_step(pass, RotationEvent::Listed(Ok(Vec::new())));
    assert!(matches!(action, RotationAction::Done));
    let (_, action) = rotation_step(pass, RotationEvent::Touched(Err("conflict".to_string())));
    assert!(matches!(&action, RotationAction::Fail { error } if error == "conflict"));
}

fn snapshot(revision: i64) -> ConfigSnapshot {
    ConfigSnapshot {
        revision,
        toml: "[[forwarding]]".to_string(),
        created_at: NOW,
        forwardings: Vec::new(),
        certificates: Vec::new(),
    }
}

#[test]
fn a_hand_over_sends_one_revision_or_nothing() {
    assert!(matches!(hand_over(Ok(None)), HandOver::Nothing));
    match hand_over(Err("connection reset".to_string())) {
        HandOver::End(s) => {
            assert_eq!(s.code, Code::Internal);
            assert_eq!(s.message, "connection reset");
        }
        other => panic!("expected the stream to end, got {other:?}"),
    }
    let snapshot = match hand_over(Ok(Some(snapshot(12)))) {
        HandOver::Deliver(s) => s,
        other => panic!("expected a delivery, got {other:?}"),
    };
    let files = vec![CertificateFile { path: "relay/ca.pem".to_string(), pem: "PEM".to_string() }];
    let m = revision_message(snapshot, files);
    assert_eq!((m.revision, m.toml.as_str(), m.files.len(), m.keep_alive), (12, "[[forwarding]]", 1, false));
    let k = keep_alive_message();
    assert!(k.keep_alive && k.revision == 0 && k.toml.is_empty() && k.files.is_empty());
    let s = unreadable_revision("expected `=`");
    assert_eq!((s.code, s.message.as_str()), (Code::Internal, "stored revision does not parse: expected `=`"));
}

#[test]
fn a_report_is_stamped_with_the_time_given() {
    let r = reported_from_wire_at("203.0.113.7".to_string(), String::new(), Vec::new(), NOW);
    assert_eq!(r.reported_at, NOW);
    assert_eq!(r.public_v4.as_deref(), Some("203.0.113.7"));
    assert_eq!(r.public_v6, None);
}

#[test]
fn a_topology_batch_takes_the_root_first() {
    let mut b = ApplyTopologyBatch::default();
    assert_eq!(b.statement_order(), Err(BATCH_WITHOUT_CANVAS));
    b.canvas = Some("c1".to_string());
    assert_eq!(
        b.statement_order(),
        Ok(vec![
            TopologyStatement::TouchRoot,
            TopologyStatement::DeleteEdges,
            TopologyStatement::DeleteNodes,
            TopologyStatement::WriteSpecs,
            TopologyStatement::ReshapePorts,
            TopologyStatement::CreateLaneNodes,
            TopologyStatement::AddEdges,
        ])
    );
}

#[test]
fn a_health_stream_forwards_past_its_watermark_and_reads_forward_on_resync() {
    let mut w = HealthWatermark::starting(Some(100), 0);
    assert!(matches!(w.step(HealthKind::Server, HealthStreamEvent::Record { time: 100 }), HealthStreamAction::Wait));
    assert!(matches!(w.step(HealthKind::Server, HealthStreamEvent::Record { time: 150 }), HealthStreamAction::Forward));
    assert!(matches!(w.step(HealthKind::Server, HealthStreamEvent::Record { time: 120 }), HealthStreamAction::Wait));
    assert!(matches!(w.step(HealthKind::Server, HealthStreamEvent::Resync), HealthStreamAction::ReadForward { from: 150 }));
    assert!(matches!(w.step(HealthKind::Pod, HealthStreamEvent::Tick(SessionCheck::Failed)), HealthStreamAction::SendKeepAlive));
    match w.step(HealthKind::Pod, HealthStreamEvent::Tick(SessionCheck::Ended)) {
        HealthStreamAction::End { status: Some(s) } => assert_eq!((s.code, s.message.as_str()), (Code::Unauthenticated, "session ended")),
        other => panic!("expected the stream to end, got {other:?}"),
    }
    match w.step(HealthKind::Pod, HealthStreamEvent::ReadFailed { error: "timeout".to_string() }) {
        HealthStreamAction::End { status: Some(s) } => {
            assert_eq!((s.code, s.message.as_str()), (Code::Internal, "refetching pod health failed: timeout"))
        }
        other => panic!("expected the stream to end, got {other:?}"),
    }
    assert!(matches!(w.step(HealthKind::Server, HealthStreamEvent::Sent { delivered: false }), HealthStreamAction::End { status: None }));
    assert!(matches!(w.step(HealthKind::Server, HealthStreamEvent::HubClosed), HealthStreamAction::End { status: None }));
    assert_eq!(w.last(), 150);
}
