use orchestration::config::{OrchestrationConfig, LETS_ENCRYPT_DIRECTORY};

#[test]
fn defaults_are_the_seeded_values() {
    let c = OrchestrationConfig::default();
    assert_eq!(c.health_report_interval_secs, 15);
    assert_eq!(c.health_offline_after_intervals, 3);
    assert_eq!(c.server_health_ttl_secs, 7 * 24 * 60 * 60);
    assert_eq!(c.default_acme_directory, LETS_ENCRYPT_DIRECTORY);
    assert_eq!(c.agent_download_path, "/agent");
    assert!(c.agent_public_base_url.is_empty());
    assert!(c.trust_proxy_address_headers);
}

#[test]
fn durations_follow_their_seconds() {
    let c = OrchestrationConfig::default();
    assert_eq!(c.health_report_interval().as_secs(), 15);
    assert_eq!(c.health_offline_after().as_secs(), 45);
    assert_eq!(c.degraded_grace().as_secs(), 60);
    assert_eq!(c.acme_renew_before().as_secs(), 30 * 24 * 60 * 60);
    assert_eq!(c.acme_retry_after().as_secs(), 3600);
    assert_eq!(c.relay_cert_valid().as_secs(), 30 * 24 * 60 * 60);
    assert_eq!(c.relay_cert_renew_before().as_secs(), 10 * 24 * 60 * 60);
    assert_eq!(c.sweep_interval().as_secs(), 30);
    assert_eq!(c.liveness_interval().as_secs(), 30);
    assert_eq!(c.health_retention_interval().as_secs(), 300);
    assert_eq!(c.acme_interval().as_secs(), 60);
    assert_eq!(c.relay_rotation_interval().as_secs(), 3600);
    assert_eq!(c.agent_update_poll().as_secs(), 60);
    assert_eq!(c.server_health_ttl().as_secs(), 604800);
    assert_eq!(c.node_health_ttl().as_secs(), 604800);
}

#[test]
fn offline_threshold_saturates() {
    let mut c = OrchestrationConfig::default();
    c.health_report_interval_secs = u64::MAX / 2;
    c.health_offline_after_intervals = 3;
    assert_eq!(c.health_offline_after().as_secs(), u64::MAX);
}

#[test]
fn a_zero_keepalive_means_every_second() {
    let mut c = OrchestrationConfig::default();
    assert_eq!(c.stream_keepalive().as_secs(), 15);
    c.stream_keepalive_secs = 0;
    assert_eq!(c.stream_keepalive().as_secs(), 1);
}

#[test]
fn an_empty_requested_directory_falls_back_to_the_default() {
    let c = OrchestrationConfig::default();
    assert_eq!(c.acme_directory(""), LETS_ENCRYPT_DIRECTORY);
    assert_eq!(c.acme_directory("https://acme.example/dir"), "https://acme.example/dir");
}

#[test]
fn download_base_needs_an_origin() {
    let c = OrchestrationConfig::default();
    assert_eq!(c.agent_download_base(), None);
    let mut c = OrchestrationConfig::default();
    c.agent_public_base_url = "   ".to_string();
    assert_eq!(c.agent_download_base(), None);
    c.agent_public_base_url = "///".to_string();
    assert_eq!(c.agent_download_base(), None);
}

#[test]
fn download_base_joins_origin_and_path_with_one_slash() {
    let mut c = OrchestrationConfig::default();
    c.agent_public_base_url = " https://guru.example.com/ ".to_string();
    assert_eq!(
        c.agent_download_base().as_deref(),
        Some("https://guru.example.com/agent")
    );
    c.agent_download_path = " /downloads/agent/ ".to_string();
    assert_eq!(
        c.agent_download_base().as_deref(),
        Some("https://guru.example.com/downloads/agent")
    );
    c.agent_download_path = "/".to_string();
    assert_eq!(c.agent_download_base().as_deref(), Some("https://guru.example.com"));
}
