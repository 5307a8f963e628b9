use orchestration::entities::pod::{IngressKind, ProxyProtocolVersion};
use orchestration::entities::port::{PortDirection, PortKind};
use orchestration::entities::view::ListenProtocol;

#[test]
fn stored_spellings_match_serde() {
    let kinds = [
        (IngressKind::ClientRaw, "client_raw"),
        (IngressKind::ClientTls, "client_tls"),
        (IngressKind::RelayTcp, "relay_tcp"),
        (IngressKind::RelayTls, "relay_tls"),
        (IngressKind::RelayQuic, "relay_quic"),
    ];
    for (kind, spelling) in kinds {
        assert_eq!(kind.as_str(), spelling);
        assert_eq!(IngressKind::from_stored(spelling), Some(kind));
    }
    for (version, spelling) in [(ProxyProtocolVersion::V1, "v1"), (ProxyProtocolVersion::V2, "v2")] {
        assert_eq!(version.as_str(), spelling);
        assert_eq!(ProxyProtocolVersion::from_stored(spelling), Some(version));
    }
}

#[test]
fn port_and_listener_spellings_round_trip() {
    for kind in [PortKind::DeriveListen, PortKind::DeriveDestination, PortKind::Bundle] {
        assert_eq!(PortKind::from_stored(kind.as_str()), Some(kind));
    }
    for d in [PortDirection::Input, PortDirection::Output] {
        assert_eq!(PortDirection::from_stored(d.as_str()), Some(d));
    }
    for p in [ListenProtocol::Raw, ListenProtocol::RelayTcp, ListenProtocol::RelayTls, ListenProtocol::RelayQuic] {
        assert_eq!(ListenProtocol::from_stored(p.name()), Some(p));
    }
    assert_eq!(ListenProtocol::RelayQuic.name(), "relay_quic");
    assert_eq!(IngressKind::from_stored("ClientRaw"), None);
}
