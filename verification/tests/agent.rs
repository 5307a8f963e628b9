use orchestration::rpc::agent::{
    agent_from_request, fenced_status, non_empty, reply_secs, silence_status,
    AgentAuthUnavailable, AgentIdentity, HealthEnd, Resolved, WatchAction, WatchEvent, WatchFence,
    watch_step,
};
use orchestration::rpc::status::{Code, RpcStatus};
use orchestration::net::{IpAddress, Ipv4, Ipv6};
use orchestration::rpc::agent::{first_hop, peer_address, reported_from_wire};

const FENCE: WatchFence = WatchFence { generation: 3, epoch: 7 };

fn ended_with_message(action: WatchAction) -> Option<String> {
    match action {
        WatchAction::End { status } => status.map(|s| s.message),
        _ => None,
    }
}

fn ended_with(action: WatchAction) -> Option<Code> {
    match action {
        WatchAction::End { status } => status.map(|s| s.code),
        _ => None,
    }
}

#[test]
fn a_caller_is_its_identity_or_told_why_not() {
    let me = AgentIdentity { server: "s1".to_string(), generation: 2 };
    assert_eq!(agent_from_request(Some(me), None).map(|a| a.generation).ok(), Some(2));
    let unavailable = agent_from_request(None, Some(AgentAuthUnavailable)).err().unwrap();
    assert_eq!(unavailable.code, Code::Unavailable);
    assert_eq!(unavailable.message, "Authentication is briefly unavailable");
    let missing = agent_from_request(None, None).err().unwrap();
    assert_eq!(missing.code, Code::Unauthenticated);
    assert_eq!(missing.message, "Missing refresh key");
    assert!(Resolved::Unavailable.worth_retrying());
    assert!(!Resolved::Anonymous.worth_retrying());
}

#[test]
fn a_lost_fence_names_its_cause() {
    let superseded = fenced_status(FENCE, WatchFence { generation: 4, epoch: 7 });
    assert_eq!(superseded.code, Code::Unauthenticated);
    assert_eq!(superseded.message, "refresh key superseded");
    let taken = fenced_status(FENCE, WatchFence { generation: 3, epoch: 8 });
    assert_eq!(taken.code, Code::Aborted);
    assert_eq!(taken.message, "a newer watch session took over");
}

#[test]
fn the_config_stream_steps() {
    assert!(matches!(watch_step(FENCE, false, WatchEvent::Changed), WatchAction::TrySend));
    assert!(matches!(
        watch_step(FENCE, true, WatchEvent::KeepAliveTick),
        WatchAction::SendKeepAlive
    ));
    assert!(matches!(watch_step(FENCE, false, WatchEvent::KeepAliveTick), WatchAction::Wait));
    assert!(matches!(
        watch_step(FENCE, false, WatchEvent::Heartbeat { renewed: true }),
        WatchAction::Wait
    ));
    assert_eq!(
        ended_with(watch_step(FENCE, false, WatchEvent::Heartbeat { renewed: false })),
        Some(Code::Aborted)
    );
    assert!(matches!(
        watch_step(FENCE, false, WatchEvent::Fenced { current: FENCE }),
        WatchAction::Wait
    ));
    assert_eq!(
        ended_with(watch_step(
            FENCE,
            false,
            WatchEvent::Fenced { current: WatchFence { generation: 9, epoch: 7 } }
        )),
        Some(Code::Unauthenticated)
    );
    assert!(matches!(
        watch_step(FENCE, false, WatchEvent::Lagged { current: FENCE }),
        WatchAction::TrySend
    ));
    assert_eq!(
        ended_with(watch_step(
            FENCE,
            false,
            WatchEvent::Lagged { current: WatchFence { generation: 3, epoch: 9 } }
        )),
        Some(Code::Aborted)
    );
    assert!(matches!(
        watch_step(FENCE, false, WatchEvent::Sent { delivered: false }),
        WatchAction::End { status: None }
    ));
    assert!(matches!(
        watch_step(FENCE, false, WatchEvent::HubClosed),
        WatchAction::End { status: None }
    ));
    assert!(matches!(
        watch_step(FENCE, false, WatchEvent::ReceiverClosed),
        WatchAction::End { status: None }
    ));
}

#[test]
fn a_stream_that_loses_its_fence_says_why() {
    let other_registration = WatchFence { generation: 9, epoch: 7 };
    let other_stream = WatchFence { generation: 3, epoch: 9 };
    assert_eq!(
        ended_with_message(watch_step(FENCE, false, WatchEvent::Fenced { current: other_registration })),
        Some("refresh key superseded".to_string())
    );
    assert_eq!(
        ended_with_message(watch_step(FENCE, true, WatchEvent::Lagged { current: other_stream })),
        Some("a newer watch session took over".to_string())
    );
    assert_eq!(
        ended_with_message(watch_step(FENCE, false, WatchEvent::Heartbeat { renewed: false })),
        Some("watch session lease lost".to_string())
    );
}

#[test]
fn a_report_is_stamped_now() {
    let before = orchestration::clock::MICROS_PER_SEC;
    let r = reported_from_wire(String::new(), "2001:db8::1".to_string(), vec!["eth0".to_string()]);
    assert_eq!(r.public_v4, None);
    assert_eq!(r.public_v6.as_deref(), Some("2001:db8::1"));
    assert!(r.reported_at > before, "the clock reads after 1970 here");
}

#[test]
fn register_reply_settings_saturate() {
    assert_eq!(reply_secs(15), 15);
    assert_eq!(reply_secs(u64::from(u32::MAX) + 1), u32::MAX);
    assert_eq!(non_empty(String::new()), None);
    assert_eq!(non_empty("x".to_string()), Some("x".to_string()));
}

#[test]
fn only_silence_marks_a_server_offline() {
    let silent = HealthEnd::Silent(silence_status(45));
    assert!(silent.marks_offline());
    let status = silent.into_status().unwrap();
    assert_eq!(status.code, Code::DeadlineExceeded);
    assert_eq!(status.message, "no health report within 45s");
    assert!(!HealthEnd::Closed.marks_offline());
    assert!(HealthEnd::Closed.into_status().is_none());
    let broken = HealthEnd::Broken(RpcStatus::new(Code::Internal, "reset"));
    assert!(!broken.marks_offline());
    assert_eq!(broken.into_status().map(|s| s.message), Some("reset".to_string()));
}

#[test]
fn the_observed_peer_prefers_trusted_headers_and_unmaps_v4() {
    let real = Some(IpAddress::V4(Ipv4(203, 0, 113, 7)));
    let forwarded = Some(IpAddress::V4(Ipv4(198, 51, 100, 1)));
    let mapped = Some(IpAddress::V6(Ipv6(0xffff_0a00_0001)));
    assert_eq!(peer_address(true, real, forwarded, mapped), real);
    assert_eq!(peer_address(true, None, forwarded, mapped), forwarded);
    assert_eq!(peer_address(false, real, forwarded, mapped), Some(IpAddress::V4(Ipv4(10, 0, 0, 1))));
    assert_eq!(peer_address(false, None, None, None), None);
    let v6 = Some(IpAddress::V6(Ipv6(1)));
    assert_eq!(peer_address(false, None, None, v6), v6);
    assert_eq!(first_hop(" 1.2.3.4 , 5.6.7.8"), "1.2.3.4");
    assert_eq!(first_hop("9.9.9.9"), "9.9.9.9");
    assert_eq!(first_hop(""), "");
}

#[test]
fn a_reported_address_set_drops_empty_addresses() {
    let r = reported_from_wire(String::new(), "2001:db8::1".to_string(), vec!["eth0".to_string()]);
    assert_eq!(r.public_v4, None);
    assert_eq!(r.public_v6.as_deref(), Some("2001:db8::1"));
    assert_eq!(r.interfaces, vec!["eth0".to_string()]);
    assert!(r.reported_at > 1_700_000_000_000_000);
}
