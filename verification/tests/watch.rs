use orchestration::entities::health::{PodHealthStatus, ServerHealthStatus};
use orchestration::events::live::{LiveMessage, NodeHealthLive, ServerHealthLive};
use orchestration::rpc::watch::{pod_records_for, server_record_for, HealthWatermark};

fn server_live(id: &str, micros: i64) -> ServerHealthLive {
    ServerHealthLive {
        id: id.to_string(),
        status: ServerHealthStatus::Online,
        report_time_unix_micros: micros,
        upload_bytes: 0,
        download_bytes: 0,
        current_connections: 0,
        max_connections: 0,
    }
}

fn pod_live(id: &str, pod: &str, micros: i64) -> NodeHealthLive {
    NodeHealthLive {
        id: id.to_string(),
        node: pod.to_string(),
        status: PodHealthStatus::Ready,
        message: String::new(),
        report_time_unix_micros: micros,
    }
}

#[test]
fn the_watermark_starts_at_the_snapshot_or_the_window() {
    assert_eq!(HealthWatermark::starting(Some(50), 10).last(), 50);
    assert_eq!(HealthWatermark::starting(None, 10).last(), 10);
}

#[test]
fn a_record_passes_once_and_never_out_of_order() {
    let mut w = HealthWatermark::starting(None, 100);
    assert!(!w.offer(100), "a record at the watermark was already delivered");
    assert!(w.offer(150));
    assert!(!w.offer(150), "the bus and the refetch delivered the same record");
    assert!(!w.offer(120), "an older record is never delivered after a newer one");
    assert!(w.offer(151));
    assert_eq!(w.last(), 151);
}

#[test]
fn delivered_times_strictly_increase_over_any_sequence() {
    let mut w = HealthWatermark::starting(None, 0);
    let mut delivered = Vec::new();
    for t in [5, 3, 5, 9, 1, 10, 10, 11] {
        if w.offer(t) {
            delivered.push(t);
        }
    }
    assert_eq!(delivered, vec![5, 9, 10, 11]);
}

#[test]
fn a_server_stream_takes_only_its_own_server() {
    let message = LiveMessage::ServerHealth {
        server: "s1".to_string(),
        canvas: "c".to_string(),
        record: server_live("r1", 7),
        status_changed: false,
    };
    assert_eq!(server_record_for(&message, "s1").map(|r| r.id), Some("r1".to_string()));
    assert!(server_record_for(&message, "s2").is_none());
    let other = LiveMessage::NodeHealth { records: vec![pod_live("r", "s1", 1)] };
    assert!(server_record_for(&other, "s1").is_none());
}

#[test]
fn a_pod_stream_takes_its_pods_rows_in_order() {
    let message = LiveMessage::NodeHealth {
        records: vec![pod_live("a", "p1", 1), pod_live("b", "p2", 2), pod_live("c", "p1", 3)],
    };
    let ids: Vec<String> = pod_records_for(&message, "p1").into_iter().map(|r| r.id).collect();
    assert_eq!(ids, vec!["a".to_string(), "c".to_string()]);
    assert!(pod_records_for(&message, "p9").is_empty());
}
