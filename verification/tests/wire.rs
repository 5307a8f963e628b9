use orchestration::entities::edge::EdgeTarget;
use orchestration::entities::group::GroupMember;
use orchestration::entities::pod::{PodIngress, ProxyProtocolVersion};
use orchestration::entities::server::{QuicCongestion, ServerIpv6Resolve, ServerLogLevel};
use orchestration::rpc::status::Code;
use orchestration::rpc::wire::{
    change_from_wire, dns_provider_from_wire, edge_from_wire, exit_from_wire, group_from_wire,
    ipv6_from_wire, log_level_from_wire, optional_address, pod_from_wire, proxy_from_wire,
    quic_from_wire, required, CongestionWire, DnsProviderWire, EdgeTargetWire, EdgeWire, ExitWire,
    GraphChangeWire, GroupMemberWire, GroupWire, IngressWire, Ipv6ResolveWire, PodWire,
    PositionWire, ProxyWire, QuicWire, TlsWire, WireAddress,
};
use orchestration::entities::dns::DnsProvider;

fn address(raw: &str) -> WireAddress {
    WireAddress { raw: raw.to_string(), canonical: None }
}

fn pod() -> PodWire {
    PodWire {
        id: " p1 ".to_string(),
        canvas_id: "c1".to_string(),
        server_id: "s1".to_string(),
        name: "  entry ".to_string(),
        comment: " kept as is ".to_string(),
        port: 443,
        bind_ip: address(""),
        advertise_ip: WireAddress { raw: " 2001:DB8::1 ".to_string(), canonical: Some("2001:db8::1".to_string()) },
        ingress: IngressWire::ClientRaw,
        receive_proxy_protocol: ProxyWire::ProxyV2,
        tls: None,
        route_json: "  ".to_string(),
    }
}

fn message_of<T>(r: Result<T, orchestration::rpc::status::RpcStatus>) -> String {
    match r {
        Ok(_) => panic!("expected a refusal"),
        Err(s) => {
            assert_eq!(s.code, Code::InvalidArgument);
            s.message
        }
    }
}

#[test]
fn required_texts_are_trimmed_or_refused() {
    assert_eq!(required("name", "  x ".to_string()).ok(), Some("x".to_string()));
    assert_eq!(message_of(required("name", " \t ".to_string())), "name is required");
}

#[test]
fn optional_addresses() {
    assert_eq!(optional_address(address("  ")), None);
    assert_eq!(optional_address(address(" relay.example ")), Some("relay.example".to_string()));
    let ip = WireAddress { raw: " ::ffff:1.2.3.4 ".to_string(), canonical: Some("::ffff:1.2.3.4".to_string()) };
    assert_eq!(optional_address(ip), Some("::ffff:1.2.3.4".to_string()));
}

#[test]
fn a_pod_from_the_wire() {
    let p = pod_from_wire(pod()).ok().unwrap();
    assert_eq!(p.id, "p1");
    assert_eq!(p.name, "entry");
    assert_eq!(p.comment, " kept as is ");
    assert_eq!(p.port, 443);
    assert_eq!(p.bind_ip, None);
    assert_eq!(p.advertise_ip.as_deref(), Some("2001:db8::1"));
    assert!(matches!(
        p.ingress,
        PodIngress::ClientRaw { receive_proxy_protocol: Some(ProxyProtocolVersion::V2) }
    ));
    assert_eq!(p.route, None);
}

#[test]
fn a_tls_pod_needs_its_request() {
    let mut w = pod();
    w.ingress = IngressWire::ClientTls;
    assert_eq!(message_of(pod_from_wire(w.clone())), "a CLIENT_TLS pod needs tls");
    w.tls = Some(TlsWire {
        sni: " ".to_string(),
        dns_provider_id: "d".to_string(),
        domain_id: "z".to_string(),
        acme_directory: String::new(),
    });
    assert_eq!(message_of(pod_from_wire(w.clone())), "tls.sni is required");
    w.tls = Some(TlsWire {
        sni: " a.example ".to_string(),
        dns_provider_id: " d ".to_string(),
        domain_id: " z ".to_string(),
        acme_directory: String::new(),
    });
    let p = pod_from_wire(w).ok().unwrap();
    match p.ingress {
        PodIngress::ClientTls { tls, .. } => {
            assert_eq!(tls.sni, "a.example");
            assert_eq!(tls.dns_provider, "d");
            assert_eq!(tls.domain_id, "z");
        }
        _ => panic!("a TLS client listener"),
    }
}

#[test]
fn pod_refusals_come_in_order() {
    let mut w = pod();
    w.receive_proxy_protocol = ProxyWire::Unrecognized(9);
    w.port = 70000;
    assert_eq!(message_of(pod_from_wire(w)), "receive_proxy_protocol: unknown value 9");
    let mut w = pod();
    w.ingress = IngressWire::Unspecified;
    assert_eq!(message_of(pod_from_wire(w)), "ingress: unknown value 0");
    let mut w = pod();
    w.ingress = IngressWire::Unrecognized(-3);
    assert_eq!(message_of(pod_from_wire(w)), "ingress: unknown value -3");
    let mut w = pod();
    w.id = String::new();
    assert_eq!(message_of(pod_from_wire(w)), "pod id is required");
    let mut w = pod();
    w.server_id = " ".to_string();
    assert_eq!(message_of(pod_from_wire(w)), "server_id is required");
    let mut w = pod();
    w.port = 70000;
    assert_eq!(message_of(pod_from_wire(w)), "port 70000 out of range");
    let mut w = pod();
    w.route_json = r#" {"kind":"single"} "#.to_string();
    assert_eq!(pod_from_wire(w).ok().unwrap().route.as_deref(), Some(r#"{"kind":"single"}"#));
}

#[test]
fn a_route_that_is_not_json_is_refused_before_the_ids() {
    let parse_error = serde_json::from_str::<serde_json::Value>("{\"kind\":").unwrap_err().to_string();
    let mut w = pod();
    w.route_json = " {\"kind\": ".to_string();
    w.canvas_id = String::new();
    assert_eq!(message_of(pod_from_wire(w)), format!("pod  p1 : route_json: {parse_error}"));
    let mut w = pod();
    w.route_json = "not json".to_string();
    assert!(message_of(pod_from_wire(w)).starts_with("pod  p1 : route_json: "));
    let mut w = pod();
    w.route_json = "[1, 2]".to_string();
    assert_eq!(pod_from_wire(w).ok().unwrap().route.as_deref(), Some("[1, 2]"));
}

#[test]
fn exits_and_edges_from_the_wire() {
    let exit = ExitWire {
        id: "x1".to_string(),
        canvas_id: "c1".to_string(),
        name: " out ".to_string(),
        comment: String::new(),
        destination: " 10.0.0.1:80 ".to_string(),
        send_proxy_protocol: ProxyWire::Unspecified,
        position: None,
    };
    let x = exit_from_wire(exit.clone()).ok().unwrap();
    assert_eq!(x.destination, "10.0.0.1:80");
    assert_eq!((x.position.x, x.position.y), (0, 0));
    let mut bad = exit;
    bad.send_proxy_protocol = ProxyWire::Unrecognized(5);
    bad.position = Some(PositionWire { x: 1, y: 2 });
    assert_eq!(message_of(exit_from_wire(bad)), "send_proxy_protocol: unknown value 5");

    let edge = EdgeWire {
        id: "e1".to_string(),
        source_pod_id: "p1".to_string(),
        target: Some(EdgeTargetWire::TargetExitId(" x1 ".to_string())),
        override_ip: address(""),
        override_port: 0,
    };
    let e = edge_from_wire(edge.clone()).ok().unwrap();
    assert!(matches!(&e.target, EdgeTarget::Exit(x) if x == "x1"));
    assert_eq!(e.override_port, None);
    let mut with_port = edge.clone();
    with_port.override_port = 8443;
    assert_eq!(edge_from_wire(with_port).ok().unwrap().override_port, Some(8443));
    let mut too_big = edge.clone();
    too_big.override_port = 65536;
    assert_eq!(message_of(edge_from_wire(too_big)), "override_port 65536 out of range");
    let mut no_target = edge;
    no_target.target = None;
    assert_eq!(message_of(edge_from_wire(no_target)), "an edge needs a target");
}

#[test]
fn groups_from_the_wire() {
    let group = GroupWire {
        id: "g1".to_string(),
        canvas_id: "c1".to_string(),
        kind: " splitter ".to_string(),
        name: "n".to_string(),
        props_json: "".to_string(),
        members: vec![Some(GroupMemberWire::PodId("p1".to_string())), Some(GroupMemberWire::ServerId("s1".to_string()))],
    };
    let g = group_from_wire(group.clone()).ok().unwrap();
    assert_eq!(g.kind, "splitter");
    assert_eq!(g.props, "{}");
    assert!(matches!(&g.members[1], GroupMember::Server(s) if s == "s1"));
    let mut bad = group;
    bad.members.push(None);
    bad.id = String::new();
    assert_eq!(message_of(group_from_wire(bad)), "a group member names nothing");
}

#[test]
fn enumerations_from_the_wire() {
    assert_eq!(proxy_from_wire("f", ProxyWire::Unspecified).ok(), Some(None));
    assert_eq!(message_of(proxy_from_wire("f", ProxyWire::Unrecognized(7))), "f: unknown value 7");
    assert_eq!(ipv6_from_wire(Ipv6ResolveWire::Unspecified).ok(), Some(ServerIpv6Resolve::Tolerated));
    assert_eq!(ipv6_from_wire(Ipv6ResolveWire::Ipv6Forbidden).ok(), Some(ServerIpv6Resolve::Forbidden));
    assert_eq!(message_of(ipv6_from_wire(Ipv6ResolveWire::Unrecognized(12))), "ipv6_resolve: unknown value 12");
    assert_eq!(dns_provider_from_wire(DnsProviderWire::DnsVercel).ok(), Some(DnsProvider::Vercel));
    assert_eq!(message_of(dns_provider_from_wire(DnsProviderWire::Unspecified)), "provider must be specified");
    assert_eq!(log_level_from_wire(" INFO ").ok(), Some(ServerLogLevel::Info));
    assert_eq!(log_level_from_wire("error").ok(), Some(ServerLogLevel::Error));
    assert_eq!(
        message_of(log_level_from_wire("loud")),
        "log_level: unknown level \"loud\"; expected one of trace, debug, info, warn, error"
    );
}

#[test]
fn quic_settings_from_the_wire() {
    let q = quic_from_wire(None).ok().unwrap();
    assert_eq!(q.congestion, QuicCongestion::Cubic);
    let q = quic_from_wire(Some(QuicWire {
        congestion: CongestionWire::QuicBrutal,
        up_mbps: 100,
        down_mbps: 200,
        stream_receive_window: 0,
        conn_receive_window: 0,
    }))
    .ok()
    .unwrap();
    assert_eq!((q.congestion, q.up_mbps, q.down_mbps), (QuicCongestion::Brutal, 100, 200));
    let bad = QuicWire {
        congestion: CongestionWire::Unrecognized(4),
        up_mbps: 0,
        down_mbps: 0,
        stream_receive_window: 0,
        conn_receive_window: 0,
    };
    assert_eq!(message_of(quic_from_wire(Some(bad))), "quic.congestion: unknown value 4");
}

#[test]
fn a_graph_change_is_checked_whole() {
    let empty = change_from_wire(None).ok().unwrap();
    assert!(empty.put_pods.is_empty() && empty.delete_groups.is_empty());
    let mut second = pod();
    second.port = 99999;
    let change = GraphChangeWire {
        put_pods: vec![pod(), second],
        put_exits: Vec::new(),
        put_edges: Vec::new(),
        put_groups: Vec::new(),
        delete_pod_ids: vec!["old".to_string()],
        delete_exit_ids: Vec::new(),
        delete_edge_ids: Vec::new(),
        delete_group_ids: Vec::new(),
    };
    assert_eq!(message_of(change_from_wire(Some(change.clone()))), "port 99999 out of range");
    let mut ok = change;
    ok.put_pods.pop();
    let g = change_from_wire(Some(ok)).ok().unwrap();
    assert_eq!(g.put_pods.len(), 1);
    assert_eq!(g.delete_pods, vec!["old".to_string()]);
}
