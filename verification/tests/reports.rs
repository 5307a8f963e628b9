use orchestration::entities::health::{
    HealthWrite, ServerHealthBefore, ServerHealthStatus, SetServerHealthStatus,
};
use orchestration::entities::server::ReportedAddresses;
use orchestration::hooks::live::{
    subscriber_step, SubscriberAction, SubscriberEvent, SubscriberState, MAX_BACKOFF_MILLIS,
    MIN_BACKOFF_MILLIS,
};

fn text(value: &serde_json::Value) -> Option<String> {
    value.as_str().map(|s| s.to_string())
}

/// `reported_addresses` is a `jsonb` column, so the report's timestamp is part
/// of the persisted shape and stays RFC 3339 in both directions.
#[test]
fn a_stored_address_report_reads_back_from_rfc3339() {
    let stored = r#"{"public_v4":"203.0.113.7","public_v6":null,"interfaces":["eth0"],"reported_at":"2026-09-21T14:14:56.789012Z"}"#;
    let value: serde_json::Value = serde_json::from_str(stored).unwrap();
    let reported = ReportedAddresses {
        public_v4: text(&value["public_v4"]),
        public_v6: text(&value["public_v6"]),
        interfaces: value["interfaces"]
            .as_array()
            .unwrap()
            .iter()
            .map(|v| v.as_str().unwrap().to_string())
            .collect(),
        reported_at: ReportedAddresses::reported_at_from_stored(value["reported_at"].as_str().unwrap())
            .unwrap(),
    };
    assert_eq!(i128::from(reported.reported_at) * 1000, 1_790_000_096_789_012_000);
    assert_eq!(reported.reported_at_stored().unwrap(), "2026-09-21T14:14:56.789012Z");
}

#[test]
fn a_report_time_that_is_not_rfc3339_is_refused() {
    assert!(ReportedAddresses::reported_at_from_stored("2026-09-21 14:14:56").is_err());
    let whole = ReportedAddresses {
        public_v4: None,
        public_v6: None,
        interfaces: Vec::new(),
        reported_at: 1_790_000_096_000_000,
    };
    assert_eq!(whole.reported_at_stored().unwrap(), "2026-09-21T14:14:56Z");
}

fn before(status: ServerHealthStatus) -> ServerHealthBefore {
    ServerHealthBefore {
        canvas: "c1".to_string(),
        name: "edge-1".to_string(),
        canvas_name: "prod".to_string(),
        health_status: status,
        refresh_key_generation: 4,
    }
}

#[test]
fn a_status_flip_writes_a_zero_counter_record() {
    let flip = SetServerHealthStatus {
        server: "s1".to_string(),
        generation: Some(4),
        status: ServerHealthStatus::Offline,
        now: 1_790_000_096_000_000,
    };
    assert_eq!(flip.plan(&Some(before(ServerHealthStatus::Online))), Some(true));
    assert_eq!(flip.plan(&Some(before(ServerHealthStatus::Offline))), None);
    let w: HealthWrite = flip.written(before(ServerHealthStatus::Online), "r9".to_string());
    assert_eq!(w.record.id, "r9");
    assert_eq!(w.record.server, "s1");
    assert_eq!(w.record.status, ServerHealthStatus::Offline);
    assert_eq!(w.record.report_time, 1_790_000_096_000_000);
    assert_eq!(
        (w.record.upload_bytes, w.record.download_bytes, w.record.current_connections, w.record.max_connections),
        (0, 0, 0, 0)
    );
    assert_eq!((w.canvas.as_str(), w.server_name.as_str(), w.canvas_name.as_str()), ("c1", "edge-1", "prod"));
    assert_eq!(w.previous_status, ServerHealthStatus::Online);
    assert!(w.pods.is_empty());
}

#[test]
fn the_live_subscriber_backs_off_then_resyncs_before_publishing() {
    let mut state = SubscriberState::starting();
    let mut waits = Vec::new();
    for _ in 0..6 {
        let (next, action) = subscriber_step(state, SubscriberEvent::ConnectFailed);
        match action {
            SubscriberAction::Retry { after_millis } => waits.push(after_millis),
            other => panic!("expected a retry, got {other:?}"),
        }
        state = next;
    }
    assert_eq!(waits, vec![500, 1000, 2000, 4000, 8000, MAX_BACKOFF_MILLIS]);
    let (state, action) = subscriber_step(state, SubscriberEvent::ConnectOpened);
    assert_eq!(action, SubscriberAction::Subscribe);
    let (state, action) = subscriber_step(state, SubscriberEvent::Subscribed);
    assert_eq!(action, SubscriberAction::Resync);
    assert_eq!(state.backoff_millis, MIN_BACKOFF_MILLIS);
    assert_eq!(subscriber_step(state, SubscriberEvent::Payload { decoded: true }).1, SubscriberAction::Publish);
    assert_eq!(subscriber_step(state, SubscriberEvent::Payload { decoded: false }).1, SubscriberAction::Drop);
    assert_eq!(subscriber_step(state, SubscriberEvent::ConnectionLost).1, SubscriberAction::Reconnect);
    assert_eq!(subscriber_step(state, SubscriberEvent::ShutdownRequested).1, SubscriberAction::Stop);
    let (_, action) = subscriber_step(state, SubscriberEvent::SubscribeFailed);
    assert_eq!(action, SubscriberAction::Retry { after_millis: MIN_BACKOFF_MILLIS });
}
