//! The graph as the dashboard sends it, and the checks a wire value passes
//! before it becomes a stored row.
//!
//! The dashboard's messages carry plain text and numbers: ids may come with
//! surrounding blanks, an empty text means "unset", and enumerations arrive
//! as the numbers the schema assigns, possibly ones this build does not know.
//! Everything is checked here, and a value that cannot stand is refused with
//! `INVALID_ARGUMENT` and a message naming the field.
use crate::decimal::{decimal, decimal_text, signed_decimal, signed_decimal_text};
use crate::entities::canvas::CanvasUiPosition;
use crate::entities::dns::DnsProvider;
use crate::entities::edge::{EdgeEntity, EdgeId, EdgeTarget};
use crate::entities::group::{GroupEntity, GroupId, GroupMember};
use crate::entities::server::{
    log_level_spelling, QuicCongestion, ServerIpv6Resolve, ServerLogLevel, ServerQuic,
};
use crate::entities::exit::{ExitEntity, ExitId};
use crate::entities::pod::{opt_text, PodEntity, PodId, PodIngress, ProxyProtocolVersion, TlsConfig};
use crate::rpc::status::{Code, RpcStatus};
use crate::text::{ascii_lowered, lowers_to, trim, trimmed, Strip};
use crate::vecs::reversed;
use vstd::prelude::*;

verus! {

/// An enumeration's value on the wire: one this build knows, or the number
/// it does not.
#[derive(Debug, Clone, Copy, PartialEq, Eq, Structural)]
pub enum ProxyWire {
    Unspecified,
    ProxyV1,
    ProxyV2,
    Unrecognized(i32),
}

#[derive(Debug, Clone, Copy, PartialEq, Eq, Structural)]
pub enum IngressWire {
    Unspecified,
    ClientRaw,
    ClientTls,
    RelayTcp,
    RelayTls,
    RelayQuic,
    Unrecognized(i32),
}

/// An optional address as typed, with the canonical text of the IP literal
/// its trimmed text parses as (`None` when it is not an IP literal).
#[derive(Debug, Clone)]
pub struct WireAddress {
    pub raw: String,
    pub canonical: Option<String>,
}

#[derive(Debug, Clone)]
pub struct TlsWire {
    pub sni: String,
    pub dns_provider_id: String,
    pub domain_id: String,
    pub acme_directory: String,
}

#[derive(Debug, Clone)]
pub struct PodWire {
    pub id: String,
    pub canvas_id: String,
    pub server_id: String,
    pub name: String,
    pub comment: String,
    pub port: u32,
    pub bind_ip: WireAddress,
    pub advertise_ip: WireAddress,
    pub ingress: IngressWire,
    pub receive_proxy_protocol: ProxyWire,
    pub tls: Option<TlsWire>,
    pub route_json: String,
}

#[derive(Debug, Clone, Copy, PartialEq, Eq, Structural)]
pub struct PositionWire {
    pub x: i64,
    pub y: i64,
}

#[derive(Debug, Clone)]
pub struct ExitWire {
    pub id: String,
    pub canvas_id: String,
    pub name: String,
    pub comment: String,
    pub destination: String,
    pub send_proxy_protocol: ProxyWire,
    pub position: Option<PositionWire>,
}

#[derive(Debug, Clone)]
pub enum EdgeTargetWire {
    TargetPodId(String),
    TargetExitId(String),
}

#[derive(Debug, Clone)]
pub struct EdgeWire {
    pub id: String,
    pub source_pod_id: String,
    pub target: Option<EdgeTargetWire>,
    pub override_ip: WireAddress,
    pub override_port: u32,
}

/// `"{field} is required"`.
pub open spec fn required_message(field: Seq<char>) -> Seq<char> {
    field + " is required"@
}

/// A required text: trimmed, and refused when nothing is left.
pub open spec fn required_spec(field: Seq<char>, value: Seq<char>) -> Result<Seq<char>, Seq<char>> {
    if trimmed(value, Strip::WhiteSpace).len() == 0 {
        Err(required_message(field))
    } else {
        Ok(trimmed(value, Strip::WhiteSpace))
    }
}

fn refuse(message: String) -> (s: RpcStatus)
    ensures
        s.code == Code::InvalidArgument,
        s.message == message,
{
    RpcStatus { code: Code::InvalidArgument, message }
}

/// A required text field: trimmed, and refused when nothing is left.
pub fn required(field: &str, value: String) -> (r: Result<String, RpcStatus>)
    ensures
        match required_spec(field@, value@) {
            Ok(v) => r matches Ok(s) && s@ == v,
            Err(m) => r matches Err(s) && s.code == Code::InvalidArgument && s.message@ == m,
        },
{
    let value = trim(value.as_str(), Strip::WhiteSpace);
    if value.unicode_len() == 0 {
        proof {
            reveal_strlit(" is required");
        }
        return Err(refuse(String::from_str(field).concat(" is required")));
    }
    Ok(String::from_str(value))
}

/// What an optional address becomes: unset when blank, the canonical form of
/// an IP literal, anything else as typed but trimmed (the graph check names
/// it).
pub open spec fn address_spec(a: WireAddress) -> Option<Seq<char>> {
    if trimmed(a.raw@, Strip::WhiteSpace).len() == 0 {
        None
    } else {
        match a.canonical {
            Some(c) => Some(c@),
            None => Some(trimmed(a.raw@, Strip::WhiteSpace)),
        }
    }
}

/// An optional address on the wire: empty is unset, an IP literal is stored in
/// its canonical form, anything else as typed.
pub fn optional_address(a: WireAddress) -> (r: Option<String>)
    ensures
        opt_text(r) == address_spec(a),
{
    let raw = trim(a.raw.as_str(), Strip::WhiteSpace);
    if raw.unicode_len() == 0 {
        return None;
    }
    match a.canonical {
        Some(c) => Some(c),
        None => Some(String::from_str(raw)),
    }
}

/// `"{field}: unknown value {value}"`.
pub open spec fn unknown_value_message(field: Seq<char>, value: i32) -> Seq<char> {
    field + ": unknown value "@ + signed_decimal_text(value as int)
}

fn unknown_value(field: &str, value: i32) -> (s: RpcStatus)
    ensures
        s.code == Code::InvalidArgument,
        s.message@ == unknown_value_message(field@, value),
{
    proof {
        reveal_strlit(": unknown value ");
    }
    refuse(String::from_str(field).concat(": unknown value ").concat(signed_decimal(value as i64).as_str()))
}

/// The PROXY protocol version a wire value names: unspecified means none.
pub open spec fn proxy_spec(v: ProxyWire) -> Option<ProxyProtocolVersion> {
    match v {
        ProxyWire::ProxyV1 => Some(ProxyProtocolVersion::V1),
        ProxyWire::ProxyV2 => Some(ProxyProtocolVersion::V2),
        _ => None,
    }
}

/// A PROXY protocol field; a number this build does not know is refused.
pub fn proxy_from_wire(field: &str, v: ProxyWire) -> (r: Result<Option<ProxyProtocolVersion>, RpcStatus>)
    ensures
        v == ProxyWire::ProxyV1 ==> r == Ok::<Option<ProxyProtocolVersion>, RpcStatus>(
            Some(ProxyProtocolVersion::V1),
        ),
        v == ProxyWire::ProxyV2 ==> r == Ok::<Option<ProxyProtocolVersion>, RpcStatus>(
            Some(ProxyProtocolVersion::V2),
        ),
        v == ProxyWire::Unspecified ==> r == Ok::<Option<ProxyProtocolVersion>, RpcStatus>(None),
        match v {
            ProxyWire::Unrecognized(n) => r matches Err(s) && s.code == Code::InvalidArgument
                && s.message@ == unknown_value_message(field@, n),
            _ => r == Ok::<Option<ProxyProtocolVersion>, RpcStatus>(proxy_spec(v)),
        },
{
    match v {
        ProxyWire::ProxyV1 => Ok(Some(ProxyProtocolVersion::V1)),
        ProxyWire::ProxyV2 => Ok(Some(ProxyProtocolVersion::V2)),
        ProxyWire::Unspecified => Ok(None),
        ProxyWire::Unrecognized(n) => Err(unknown_value(field, n)),
    }
}

/// What `serde_json::from_str::<serde_json::Value>` makes of a text: `None`
/// when it parses as one JSON document, else the text of the error it
/// reports.
pub uninterp spec fn json_parse_error(text: Seq<char>) -> Option<Seq<char>>;

/// Calls `serde_json::from_str::<serde_json::Value>` on the text and keeps
/// only whether it parsed: `None` when it did, else the error's text.
/// Claimed: the outcome is a function of the text alone.
#[verifier::external_body]
fn route_json_error(text: &str) -> (r: Option<String>)
    ensures
        r matches Some(e) ==> json_parse_error(text@) == Some(e@),
        r is None ==> json_parse_error(text@) is None,
{
    match serde_json::from_str::<serde_json::Value>(text) {
        Ok(_) => None,
        Err(e) => Some(e.to_string()),
    }
}

/// The refusal of a pod's route document: a non-blank `route_json` that is
/// not JSON, named with the pod's id as sent.
pub open spec fn route_wire_error(pod: PodWire) -> Option<Seq<char>> {
    let route = trimmed(pod.route_json@, Strip::WhiteSpace);
    if route.len() > 0 && json_parse_error(route) is Some {
        Some("pod "@ + pod.id@ + ": route_json: "@ + json_parse_error(route)->0)
    } else {
        None
    }
}

/// The first problem of a pod on the wire, in the order the checks run: the
/// PROXY field, the ingress (with the TLS request a TLS client listener
/// needs), the route document, the three ids, the port.
pub open spec fn pod_wire_error(pod: PodWire) -> Option<Seq<char>> {
    if pod.receive_proxy_protocol is Unrecognized {
        Some(unknown_value_message("receive_proxy_protocol"@, pod.receive_proxy_protocol->0))
    } else if pod.ingress is Unspecified {
        Some(unknown_value_message("ingress"@, 0))
    } else if pod.ingress is Unrecognized {
        Some(unknown_value_message("ingress"@, pod.ingress->Unrecognized_0))
    } else if pod.ingress is ClientTls && pod.tls is None {
        Some("a CLIENT_TLS pod needs tls"@)
    } else if pod.ingress is ClientTls && required_spec("tls.sni"@, pod.tls->0.sni@) is Err {
        Some(required_message("tls.sni"@))
    } else if pod.ingress is ClientTls && required_spec(
        "tls.dns_provider_id"@,
        pod.tls->0.dns_provider_id@,
    ) is Err {
        Some(required_message("tls.dns_provider_id"@))
    } else if route_wire_error(pod) is Some {
        route_wire_error(pod)
    } else if required_spec("pod id"@, pod.id@) is Err {
        Some(required_message("pod id"@))
    } else if required_spec("canvas_id"@, pod.canvas_id@) is Err {
        Some(required_message("canvas_id"@))
    } else if required_spec("server_id"@, pod.server_id@) is Err {
        Some(required_message("server_id"@))
    } else if pod.port > 65535 {
        Some("port "@ + decimal_text(pod.port as nat) + " out of range"@)
    } else {
        None
    }
}

/// Whether `i` is the ingress a well-formed wire pod describes.
pub open spec fn ingress_matches(i: PodIngress, pod: PodWire) -> bool {
    match pod.ingress {
        IngressWire::ClientRaw => i == PodIngress::ClientRaw {
            receive_proxy_protocol: proxy_spec(pod.receive_proxy_protocol),
        },
        IngressWire::ClientTls => i matches PodIngress::ClientTls { receive_proxy_protocol, tls }
            && receive_proxy_protocol == proxy_spec(pod.receive_proxy_protocol) && tls.sni@
            == trimmed(pod.tls->0.sni@, Strip::WhiteSpace) && tls.dns_provider@ == trimmed(
            pod.tls->0.dns_provider_id@,
            Strip::WhiteSpace,
        ) && tls.domain_id@ == trimmed(pod.tls->0.domain_id@, Strip::WhiteSpace)
            && tls.acme_directory@ == trimmed(pod.tls->0.acme_directory@, Strip::WhiteSpace),
        IngressWire::RelayTcp => i == PodIngress::RelayTcp,
        IngressWire::RelayTls => i == PodIngress::RelayTls,
        IngressWire::RelayQuic => i == PodIngress::RelayQuic,
        _ => false,
    }
}

/// Whether the ingress part of a wire pod is refused.
pub open spec fn ingress_wire_fails(pod: PodWire) -> bool {
    ||| pod.ingress is Unspecified
    ||| pod.ingress is Unrecognized
    ||| pod.ingress is ClientTls && (pod.tls is None || required_spec("tls.sni"@, pod.tls->0.sni@)
        is Err || required_spec("tls.dns_provider_id"@, pod.tls->0.dns_provider_id@) is Err)
}

fn ingress_from_wire(pod: &PodWire, proxy: Option<ProxyProtocolVersion>) -> (r: Result<PodIngress, RpcStatus>)
    requires
        proxy == proxy_spec(pod.receive_proxy_protocol),
        !(pod.receive_proxy_protocol is Unrecognized),
    ensures
        ingress_wire_fails(*pod) ==> (r matches Err(s) && s.code == Code::InvalidArgument
            && pod_wire_error(*pod) == Some(s.message@)),
        !ingress_wire_fails(*pod) ==> (r matches Ok(i) && ingress_matches(i, *pod)),
{
    match pod.ingress {
        IngressWire::ClientRaw => Ok(PodIngress::ClientRaw { receive_proxy_protocol: proxy }),
        IngressWire::ClientTls => {
            let tls = match &pod.tls {
                Some(tls) => tls,
                None => {
                    return Err(
                        RpcStatus::new(Code::InvalidArgument, "a CLIENT_TLS pod needs tls"),
                    );
                },
            };
            let sni = required("tls.sni", tls.sni.clone())?;
            let dns_provider = required("tls.dns_provider_id", tls.dns_provider_id.clone())?;
            Ok(
                PodIngress::ClientTls {
                    receive_proxy_protocol: proxy,
                    tls: TlsConfig {
                        sni,
                        dns_provider,
                        domain_id: String::from_str(trim(tls.domain_id.as_str(), Strip::WhiteSpace)),
                        acme_directory: String::from_str(
                            trim(tls.acme_directory.as_str(), Strip::WhiteSpace),
                        ),
                    },
                },
            )
        },
        IngressWire::RelayTcp => Ok(PodIngress::RelayTcp),
        IngressWire::RelayTls => Ok(PodIngress::RelayTls),
        IngressWire::RelayQuic => Ok(PodIngress::RelayQuic),
        IngressWire::Unspecified => Err(unknown_value("ingress", 0)),
        IngressWire::Unrecognized(n) => Err(unknown_value("ingress", n)),
    }
}

/// Whether `p` is what a wire pod without problems becomes.
pub open spec fn pod_converted(p: PodEntity, pod: PodWire) -> bool {
    &&& p.id@ == trimmed(pod.id@, Strip::WhiteSpace)
    &&& p.canvas@ == trimmed(pod.canvas_id@, Strip::WhiteSpace)
    &&& p.server@ == trimmed(pod.server_id@, Strip::WhiteSpace)
    &&& p.name@ == trimmed(pod.name@, Strip::WhiteSpace)
    &&& p.comment == pod.comment
    &&& p.port == pod.port
    &&& opt_text(p.bind_ip) == address_spec(pod.bind_ip)
    &&& opt_text(p.advertise_ip) == address_spec(pod.advertise_ip)
    &&& ingress_matches(p.ingress, pod)
    &&& opt_text(p.route) == (if trimmed(pod.route_json@, Strip::WhiteSpace).len() == 0 {
        None
    } else {
        Some(trimmed(pod.route_json@, Strip::WhiteSpace))
    })
}

/// A pod as the dashboard sends it, checked: refused with the first problem
/// [`pod_wire_error`] names, else the pod with its texts trimmed, its
/// addresses normalised and its route document kept as sent (trimmed; unset
/// when blank). A route document that is not JSON is refused; its shape as
/// a route is not checked here.
pub fn pod_from_wire(pod: PodWire) -> (r: Result<PodEntity, RpcStatus>)
    ensures
        pod_wire_error(pod) matches Some(m) ==> (r matches Err(s) && s.code == Code::InvalidArgument
            && s.message@ == m),
        pod_wire_error(pod) is None ==> (r matches Ok(p) && pod_converted(p, pod)),
{
    let proxy = proxy_from_wire("receive_proxy_protocol", pod.receive_proxy_protocol)?;
    let ingress = ingress_from_wire(&pod, proxy)?;
    let route_text = trim(pod.route_json.as_str(), Strip::WhiteSpace);
    let route = if route_text.unicode_len() == 0 {
        None
    } else {
        match route_json_error(route_text) {
            Some(error) => {
                proof {
                    reveal_strlit("pod ");
                    reveal_strlit(": route_json: ");
                }
                return Err(
                    refuse(
                        String::from_str("pod ").concat(pod.id.as_str()).concat(
                            ": route_json: ",
                        ).concat(error.as_str()),
                    ),
                );
            },
            None => Some(String::from_str(route_text)),
        }
    };
    let id = required("pod id", pod.id)?;
    let canvas = required("canvas_id", pod.canvas_id)?;
    let server = required("server_id", pod.server_id)?;
    if pod.port > 65535 {
        proof {
            reveal_strlit("port ");
            reveal_strlit(" out of range");
        }
        return Err(
            refuse(
                String::from_str("port ").concat(decimal(pod.port as u64).as_str()).concat(
                    " out of range",
                ),
            ),
        );
    }
    Ok(
        PodEntity {
            id,
            canvas,
            server,
            name: String::from_str(trim(pod.name.as_str(), Strip::WhiteSpace)),
            comment: pod.comment,
            port: pod.port as u16,
            bind_ip: optional_address(pod.bind_ip),
            advertise_ip: optional_address(pod.advertise_ip),
            ingress,
            route,
        },
    )
}

/// A position as sent, or the canvas origin when the field is unset.
pub fn position_or_origin(position: Option<PositionWire>) -> (p: CanvasUiPosition)
    ensures
        match position {
            Some(w) => p.x == w.x && p.y == w.y,
            None => p.x == 0 && p.y == 0,
        },
{
    match position {
        Some(w) => CanvasUiPosition { x: w.x, y: w.y },
        None => CanvasUiPosition { x: 0, y: 0 },
    }
}

/// The first problem of an exit on the wire.
pub open spec fn exit_wire_error(exit: ExitWire) -> Option<Seq<char>> {
    if required_spec("exit id"@, exit.id@) is Err {
        Some(required_message("exit id"@))
    } else if required_spec("canvas_id"@, exit.canvas_id@) is Err {
        Some(required_message("canvas_id"@))
    } else if exit.send_proxy_protocol is Unrecognized {
        Some(unknown_value_message("send_proxy_protocol"@, exit.send_proxy_protocol->0))
    } else {
        None
    }
}

/// Whether `x` is what a wire exit without problems becomes.
pub open spec fn exit_converted(x: ExitEntity, exit: ExitWire) -> bool {
    &&& x.id@ == trimmed(exit.id@, Strip::WhiteSpace)
    &&& x.canvas@ == trimmed(exit.canvas_id@, Strip::WhiteSpace)
    &&& x.name@ == trimmed(exit.name@, Strip::WhiteSpace)
    &&& x.comment == exit.comment
    &&& x.destination@ == trimmed(exit.destination@, Strip::WhiteSpace)
    &&& x.send_proxy_protocol == proxy_spec(exit.send_proxy_protocol)
    &&& x.position == position_or_origin_spec(exit.position)
}

/// An exit as the dashboard sends it, checked.
pub fn exit_from_wire(exit: ExitWire) -> (r: Result<ExitEntity, RpcStatus>)
    ensures
        exit_wire_error(exit) matches Some(m) ==> (r matches Err(s) && s.code
            == Code::InvalidArgument && s.message@ == m),
        exit_wire_error(exit) is None ==> (r matches Ok(x) && exit_converted(x, exit)),
{
    let id = required("exit id", exit.id)?;
    let canvas = required("canvas_id", exit.canvas_id)?;
    let send_proxy_protocol = proxy_from_wire("send_proxy_protocol", exit.send_proxy_protocol)?;
    Ok(
        ExitEntity {
            id,
            canvas,
            name: String::from_str(trim(exit.name.as_str(), Strip::WhiteSpace)),
            comment: exit.comment,
            destination: String::from_str(trim(exit.destination.as_str(), Strip::WhiteSpace)),
            send_proxy_protocol,
            position: position_or_origin(exit.position),
        },
    )
}

pub open spec fn position_or_origin_spec(position: Option<PositionWire>) -> CanvasUiPosition {
    match position {
        Some(w) => CanvasUiPosition { x: w.x, y: w.y },
        None => CanvasUiPosition { x: 0, y: 0 },
    }
}

/// The first problem of an edge on the wire.
pub open spec fn edge_wire_error(edge: EdgeWire) -> Option<Seq<char>> {
    match edge.target {
        None => Some("an edge needs a target"@),
        Some(EdgeTargetWire::TargetPodId(p)) if required_spec("target_pod_id"@, p@) is Err => Some(
            required_message("target_pod_id"@),
        ),
        Some(EdgeTargetWire::TargetExitId(x)) if required_spec("target_exit_id"@, x@) is Err => Some(
            required_message("target_exit_id"@),
        ),
        _ => if required_spec("edge id"@, edge.id@) is Err {
            Some(required_message("edge id"@))
        } else if required_spec("source_pod_id"@, edge.source_pod_id@) is Err {
            Some(required_message("source_pod_id"@))
        } else if edge.override_port > 65535 {
            Some("override_port "@ + decimal_text(edge.override_port as nat) + " out of range"@)
        } else {
            None
        },
    }
}

/// Whether `e` is what a wire edge without problems becomes.
pub open spec fn edge_converted(e: EdgeEntity, edge: EdgeWire) -> bool {
    &&& e.id@ == trimmed(edge.id@, Strip::WhiteSpace)
    &&& e.source@ == trimmed(edge.source_pod_id@, Strip::WhiteSpace)
    &&& match edge.target {
        Some(EdgeTargetWire::TargetPodId(p)) => e.target matches EdgeTarget::Pod(q) && q@ == trimmed(
            p@,
            Strip::WhiteSpace,
        ),
        Some(EdgeTargetWire::TargetExitId(x)) => e.target matches EdgeTarget::Exit(q) && q@
            == trimmed(x@, Strip::WhiteSpace),
        None => false,
    }
    &&& opt_text(e.override_ip) == address_spec(edge.override_ip)
    &&& e.override_port == (if edge.override_port == 0 {
        None
    } else {
        Some(edge.override_port as u16)
    })
}

/// An edge as the dashboard sends it, checked. An override port of 0 is
/// unset.
pub fn edge_from_wire(edge: EdgeWire) -> (r: Result<EdgeEntity, RpcStatus>)
    ensures
        edge_wire_error(edge) matches Some(m) ==> (r matches Err(s) && s.code
            == Code::InvalidArgument && s.message@ == m),
        edge_wire_error(edge) is None ==> (r matches Ok(e) && edge_converted(e, edge)),
{
    let target = match edge.target {
        Some(EdgeTargetWire::TargetPodId(pod)) => EdgeTarget::Pod(required("target_pod_id", pod)?),
        Some(EdgeTargetWire::TargetExitId(exit)) => EdgeTarget::Exit(
            required("target_exit_id", exit)?,
        ),
        None => {
            return Err(RpcStatus::new(Code::InvalidArgument, "an edge needs a target"));
        },
    };
    let id = required("edge id", edge.id)?;
    let source = required("source_pod_id", edge.source_pod_id)?;
    let override_ip = optional_address(edge.override_ip);
    let override_port = if edge.override_port == 0 {
        None
    } else if edge.override_port > 65535 {
        proof {
            reveal_strlit("override_port ");
            reveal_strlit(" out of range");
        }
        return Err(
            refuse(
                String::from_str("override_port ").concat(
                    decimal(edge.override_port as u64).as_str(),
                ).concat(" out of range"),
            ),
        );
    } else {
        Some(edge.override_port as u16)
    };
    Ok(EdgeEntity { id, source, target, override_ip, override_port })
}

#[derive(Debug, Clone)]
pub enum GroupMemberWire {
    PodId(String),
    EdgeId(String),
    ExitId(String),
    ServerId(String),
}

#[derive(Debug, Clone)]
pub struct GroupWire {
    pub id: String,
    pub canvas_id: String,
    pub kind: String,
    pub name: String,
    pub props_json: String,
    /// A member message that names nothing is `None`.
    pub members: Vec<Option<GroupMemberWire>>,
}

/// The member a wire member names.
pub open spec fn member_spec(m: GroupMemberWire) -> GroupMember {
    match m {
        GroupMemberWire::PodId(id) => GroupMember::Pod(id),
        GroupMemberWire::EdgeId(id) => GroupMember::Edge(id),
        GroupMemberWire::ExitId(id) => GroupMember::Exit(id),
        GroupMemberWire::ServerId(id) => GroupMember::Server(id),
    }
}

/// The first problem of a group on the wire: a member that names nothing,
/// then the required texts.
pub open spec fn group_wire_error(group: GroupWire) -> Option<Seq<char>> {
    if exists|i: int| 0 <= i < group.members@.len() && #[trigger] group.members@[i] is None {
        Some("a group member names nothing"@)
    } else if required_spec("group id"@, group.id@) is Err {
        Some(required_message("group id"@))
    } else if required_spec("canvas_id"@, group.canvas_id@) is Err {
        Some(required_message("canvas_id"@))
    } else if required_spec("kind"@, group.kind@) is Err {
        Some(required_message("kind"@))
    } else {
        None
    }
}

/// Whether `g` is what a wire group without problems becomes.
pub open spec fn group_converted(g: GroupEntity, group: GroupWire) -> bool {
    &&& g.id@ == trimmed(group.id@, Strip::WhiteSpace)
    &&& g.canvas@ == trimmed(group.canvas_id@, Strip::WhiteSpace)
    &&& g.kind@ == trimmed(group.kind@, Strip::WhiteSpace)
    &&& g.name@ == trimmed(group.name@, Strip::WhiteSpace)
    &&& g.props@ == (if trimmed(group.props_json@, Strip::WhiteSpace).len() == 0 {
        "{}"@
    } else {
        trimmed(group.props_json@, Strip::WhiteSpace)
    })
    &&& g.members@.len() == group.members@.len()
    &&& forall|i: int|
        0 <= i < group.members@.len() ==> #[trigger] g.members@[i] == member_spec(
            group.members@[i]->0,
        )
}

/// A group as the dashboard sends it, checked. Its properties are kept as the
/// JSON text sent, `{}` when blank; its members keep their order.
pub fn group_from_wire(group: GroupWire) -> (r: Result<GroupEntity, RpcStatus>)
    ensures
        group_wire_error(group) matches Some(m) ==> (r matches Err(s) && s.code
            == Code::InvalidArgument && s.message@ == m),
        group_wire_error(group) is None ==> (r matches Ok(g) && group_converted(g, group)),
{
    let props_text = trim(group.props_json.as_str(), Strip::WhiteSpace);
    let props = if props_text.unicode_len() == 0 {
        proof {
            reveal_strlit("{}");
        }
        String::from_str("{}")
    } else {
        String::from_str(props_text)
    };
    let mut members: Vec<GroupMember> = Vec::new();
    let mut i: usize = 0;
    while i < group.members.len()
        invariant
            i <= group.members@.len(),
            members@.len() == i,
            forall|k: int| 0 <= k < i ==> #[trigger] group.members@[k] is Some,
            forall|k: int| 0 <= k < i ==> #[trigger] members@[k] == member_spec(group.members@[k]->0),
        decreases group.members@.len() - i,
    {
        let member = match &group.members[i] {
            Some(GroupMemberWire::PodId(id)) => GroupMember::Pod(id.clone()),
            Some(GroupMemberWire::EdgeId(id)) => GroupMember::Edge(id.clone()),
            Some(GroupMemberWire::ExitId(id)) => GroupMember::Exit(id.clone()),
            Some(GroupMemberWire::ServerId(id)) => GroupMember::Server(id.clone()),
            None => {
                return Err(RpcStatus::new(Code::InvalidArgument, "a group member names nothing"));
            },
        };
        members.push(member);
        i = i + 1;
    }
    let id = required("group id", group.id)?;
    let canvas = required("canvas_id", group.canvas_id)?;
    let kind = required("kind", group.kind)?;
    Ok(
        GroupEntity {
            id,
            canvas,
            kind,
            name: String::from_str(trim(group.name.as_str(), Strip::WhiteSpace)),
            props,
            members,
        },
    )
}

#[derive(Debug, Clone, Copy, PartialEq, Eq, Structural)]
pub enum CongestionWire {
    Unspecified,
    QuicCubic,
    QuicBrutal,
    Unrecognized(i32),
}

#[derive(Debug, Clone, Copy, PartialEq, Eq, Structural)]
pub struct QuicWire {
    pub congestion: CongestionWire,
    pub up_mbps: u32,
    pub down_mbps: u32,
    pub stream_receive_window: u64,
    pub conn_receive_window: u64,
}

/// A server's QUIC settings as sent: an absent message is the default, an
/// unspecified congestion controller is Cubic, an unknown one is refused.
pub fn quic_from_wire(quic: Option<QuicWire>) -> (r: Result<ServerQuic, RpcStatus>)
    ensures
        match quic {
            None => r == Ok::<ServerQuic, RpcStatus>(
                ServerQuic {
                    congestion: QuicCongestion::Cubic,
                    up_mbps: 0,
                    down_mbps: 0,
                    stream_receive_window: 0,
                    conn_receive_window: 0,
                },
            ),
            Some(q) => match q.congestion {
                CongestionWire::Unrecognized(n) => r matches Err(s) && s.code
                    == Code::InvalidArgument && s.message@ == unknown_value_message(
                    "quic.congestion"@,
                    n,
                ),
                c => r == Ok::<ServerQuic, RpcStatus>(
                    ServerQuic {
                        congestion: if c == CongestionWire::QuicBrutal {
                            QuicCongestion::Brutal
                        } else {
                            QuicCongestion::Cubic
                        },
                        up_mbps: q.up_mbps,
                        down_mbps: q.down_mbps,
                        stream_receive_window: q.stream_receive_window,
                        conn_receive_window: q.conn_receive_window,
                    },
                ),
            },
        },
{
    let q = match quic {
        Some(q) => q,
        None => {
            return Ok(ServerQuic::default());
        },
    };
    let congestion = match q.congestion {
        CongestionWire::QuicCubic | CongestionWire::Unspecified => QuicCongestion::Cubic,
        CongestionWire::QuicBrutal => QuicCongestion::Brutal,
        CongestionWire::Unrecognized(n) => {
            return Err(unknown_value("quic.congestion", n));
        },
    };
    Ok(
        ServerQuic {
            congestion,
            up_mbps: q.up_mbps,
            down_mbps: q.down_mbps,
            stream_receive_window: q.stream_receive_window,
            conn_receive_window: q.conn_receive_window,
        },
    )
}

/// What `format!("{:?}", text)` writes for a text: the text quoted, with
/// `Debug`'s escapes.
pub uninterp spec fn debug_quoted(text: Seq<char>) -> Seq<char>;

/// Calls `<str as Debug>::fmt` through `format!`. Claimed: the rendering
/// depends on the text alone.
#[verifier::external_body]
fn quoted(text: &str) -> (r: String)
    ensures
        r@ == debug_quoted(text@),
{
    format!("{text:?}")
}

/// The refusal of a log level that names none of the five.
pub open spec fn unknown_level_message(value: Seq<char>) -> Seq<char> {
    "log_level: unknown level "@ + debug_quoted(value)
        + "; expected one of trace, debug, info, warn, error"@
}

/// One of the five levels a server logs at. Surrounding blanks and case are
/// forgiven, since the worker's logger itself reads `INFO` as `info`; anything
/// else is not a level.
pub fn log_level_from_wire(value: &str) -> (r: Result<ServerLogLevel, RpcStatus>)
    ensures
        r matches Ok(v) ==> log_level_spelling(v) == ascii_lowered(
            trimmed(value@, Strip::WhiteSpace),
        ),
        r is Err ==> (forall|v: ServerLogLevel| #[trigger] log_level_spelling(v) != ascii_lowered(
            trimmed(value@, Strip::WhiteSpace),
        )) && (r matches Err(s) && s.code == Code::InvalidArgument && s.message@
            == unknown_level_message(value@)),
{
    let t = trim(value, Strip::WhiteSpace);
    if lowers_to(t, "trace") {
        return Ok(ServerLogLevel::Trace);
    }
    if lowers_to(t, "debug") {
        return Ok(ServerLogLevel::Debug);
    }
    if lowers_to(t, "info") {
        return Ok(ServerLogLevel::Info);
    }
    if lowers_to(t, "warn") {
        return Ok(ServerLogLevel::Warn);
    }
    if lowers_to(t, "error") {
        return Ok(ServerLogLevel::Error);
    }
    proof {
        assert forall|v: ServerLogLevel| #[trigger] log_level_spelling(v) != ascii_lowered(t@) by {
            match v {
                ServerLogLevel::Trace => {},
                ServerLogLevel::Debug => {},
                ServerLogLevel::Info => {},
                ServerLogLevel::Warn => {},
                ServerLogLevel::Error => {},
            }
        }
        reveal_strlit("log_level: unknown level ");
        reveal_strlit("; expected one of trace, debug, info, warn, error");
    }
    let message = String::from_str("log_level: unknown level ").concat(quoted(value).as_str()).concat(
        "; expected one of trace, debug, info, warn, error",
    );
    Err(refuse(message))
}

#[derive(Debug, Clone, Copy, PartialEq, Eq, Structural)]
pub enum Ipv6ResolveWire {
    Unspecified,
    Ipv6Required,
    Ipv6Preferred,
    Ipv6Tolerated,
    Ipv6Forbidden,
    Unrecognized(i32),
}

/// A server's IPv6 policy as sent: unspecified means the default policy,
/// `Tolerated`; an unknown value is refused.
pub fn ipv6_from_wire(value: Ipv6ResolveWire) -> (r: Result<ServerIpv6Resolve, RpcStatus>)
    ensures
        match value {
            Ipv6ResolveWire::Ipv6Required => r == Ok::<ServerIpv6Resolve, RpcStatus>(
                ServerIpv6Resolve::Required,
            ),
            Ipv6ResolveWire::Ipv6Preferred => r == Ok::<ServerIpv6Resolve, RpcStatus>(
                ServerIpv6Resolve::Preferred,
            ),
            Ipv6ResolveWire::Ipv6Forbidden => r == Ok::<ServerIpv6Resolve, RpcStatus>(
                ServerIpv6Resolve::Forbidden,
            ),
            Ipv6ResolveWire::Ipv6Tolerated | Ipv6ResolveWire::Unspecified => r == Ok::<
                ServerIpv6Resolve,
                RpcStatus,
            >(ServerIpv6Resolve::Tolerated),
            Ipv6ResolveWire::Unrecognized(n) => r matches Err(s) && s.code == Code::InvalidArgument
                && s.message@ == unknown_value_message("ipv6_resolve"@, n),
        },
{
    match value {
        Ipv6ResolveWire::Ipv6Required => Ok(ServerIpv6Resolve::Required),
        Ipv6ResolveWire::Ipv6Preferred => Ok(ServerIpv6Resolve::Preferred),
        Ipv6ResolveWire::Ipv6Forbidden => Ok(ServerIpv6Resolve::Forbidden),
        Ipv6ResolveWire::Ipv6Tolerated | Ipv6ResolveWire::Unspecified => Ok(
            ServerIpv6Resolve::Tolerated,
        ),
        Ipv6ResolveWire::Unrecognized(n) => Err(unknown_value("ipv6_resolve", n)),
    }
}

#[derive(Debug, Clone, Copy, PartialEq, Eq, Structural)]
pub enum DnsProviderWire {
    Unspecified,
    DnsCloudflare,
    DnsVercel,
    Unrecognized(i32),
}

/// The DNS provider kind of a request; it must be one of the two.
pub fn dns_provider_from_wire(value: DnsProviderWire) -> (r: Result<DnsProvider, RpcStatus>)
    ensures
        value == DnsProviderWire::DnsCloudflare ==> r == Ok::<DnsProvider, RpcStatus>(
            DnsProvider::Cloudflare,
        ),
        value == DnsProviderWire::DnsVercel ==> r == Ok::<DnsProvider, RpcStatus>(
            DnsProvider::Vercel,
        ),
        value != DnsProviderWire::DnsCloudflare && value != DnsProviderWire::DnsVercel ==> (r matches Err(
            s,
        ) && s.code == Code::InvalidArgument && s.message@ == "provider must be specified"@),
{
    match value {
        DnsProviderWire::DnsCloudflare => Ok(DnsProvider::Cloudflare),
        DnsProviderWire::DnsVercel => Ok(DnsProvider::Vercel),
        _ => Err(RpcStatus::new(Code::InvalidArgument, "provider must be specified")),
    }
}

/// A change to a canvas tree's graph as the dashboard sends it.
#[derive(Debug, Clone)]
pub struct GraphChangeWire {
    pub put_pods: Vec<PodWire>,
    pub put_exits: Vec<ExitWire>,
    pub put_edges: Vec<EdgeWire>,
    pub put_groups: Vec<GroupWire>,
    pub delete_pod_ids: Vec<String>,
    pub delete_exit_ids: Vec<String>,
    pub delete_edge_ids: Vec<String>,
    pub delete_group_ids: Vec<String>,
}

/// A change to a canvas tree's graph: rows to write whole, ids to delete.
#[derive(Debug, Clone)]
pub struct GraphChange {
    pub put_pods: Vec<PodEntity>,
    pub put_exits: Vec<ExitEntity>,
    pub put_edges: Vec<EdgeEntity>,
    pub put_groups: Vec<GroupEntity>,
    pub delete_pods: Vec<PodId>,
    pub delete_exits: Vec<ExitId>,
    pub delete_edges: Vec<EdgeId>,
    pub delete_groups: Vec<GroupId>,
}

/// The first problem among wire pods, in order.
pub open spec fn first_pod_error(pods: Seq<PodWire>) -> Option<Seq<char>>
    decreases pods.len(),
{
    if pods.len() == 0 {
        None
    } else if pod_wire_error(pods[0]) is Some {
        pod_wire_error(pods[0])
    } else {
        first_pod_error(pods.drop_first())
    }
}

pub open spec fn first_exit_error(exits: Seq<ExitWire>) -> Option<Seq<char>>
    decreases exits.len(),
{
    if exits.len() == 0 {
        None
    } else if exit_wire_error(exits[0]) is Some {
        exit_wire_error(exits[0])
    } else {
        first_exit_error(exits.drop_first())
    }
}

pub open spec fn first_edge_error(edges: Seq<EdgeWire>) -> Option<Seq<char>>
    decreases edges.len(),
{
    if edges.len() == 0 {
        None
    } else if edge_wire_error(edges[0]) is Some {
        edge_wire_error(edges[0])
    } else {
        first_edge_error(edges.drop_first())
    }
}

pub open spec fn first_group_error(groups: Seq<GroupWire>) -> Option<Seq<char>>
    decreases groups.len(),
{
    if groups.len() == 0 {
        None
    } else if group_wire_error(groups[0]) is Some {
        group_wire_error(groups[0])
    } else {
        first_group_error(groups.drop_first())
    }
}

/// The first problem of a change: its pods, then exits, edges and groups.
pub open spec fn change_wire_error(c: GraphChangeWire) -> Option<Seq<char>> {
    if first_pod_error(c.put_pods@) is Some {
        first_pod_error(c.put_pods@)
    } else if first_exit_error(c.put_exits@) is Some {
        first_exit_error(c.put_exits@)
    } else if first_edge_error(c.put_edges@) is Some {
        first_edge_error(c.put_edges@)
    } else {
        first_group_error(c.put_groups@)
    }
}

/// Whether `g` is what a change without problems becomes: every row
/// converted in order, every id taken as sent.
pub open spec fn change_converted(g: GraphChange, c: GraphChangeWire) -> bool {
    &&& g.put_pods@.len() == c.put_pods@.len()
    &&& forall|i: int| 0 <= i < c.put_pods@.len() ==> pod_converted(#[trigger] g.put_pods@[i], c.put_pods@[i])
    &&& g.put_exits@.len() == c.put_exits@.len()
    &&& forall|i: int| 0 <= i < c.put_exits@.len() ==> exit_converted(#[trigger] g.put_exits@[i], c.put_exits@[i])
    &&& g.put_edges@.len() == c.put_edges@.len()
    &&& forall|i: int| 0 <= i < c.put_edges@.len() ==> edge_converted(#[trigger] g.put_edges@[i], c.put_edges@[i])
    &&& g.put_groups@.len() == c.put_groups@.len()
    &&& forall|i: int| 0 <= i < c.put_groups@.len() ==> group_converted(#[trigger] g.put_groups@[i], c.put_groups@[i])
    &&& g.delete_pods@ == c.delete_pod_ids@
    &&& g.delete_exits@ == c.delete_exit_ids@
    &&& g.delete_edges@ == c.delete_edge_ids@
    &&& g.delete_groups@ == c.delete_group_ids@
}

proof fn lemma_first_pod_error_split(pods: Seq<PodWire>, i: int)
    requires
        0 <= i < pods.len(),
        forall|k: int| 0 <= k < i ==> pod_wire_error(#[trigger] pods[k]) is None,
    ensures
        first_pod_error(pods) == (if pod_wire_error(pods[i]) is Some {
            pod_wire_error(pods[i])
        } else {
            first_pod_error(pods.skip(i + 1))
        }),
    decreases i,
{
    if i > 0 {
        lemma_first_pod_error_split(pods.drop_first(), i - 1);
        assert(pods.drop_first().skip(i) =~= pods.skip(i + 1));
    } else {
        assert(pods.drop_first() =~= pods.skip(1));
    }
}

fn pods_from_wire(pods: Vec<PodWire>) -> (r: Result<Vec<PodEntity>, RpcStatus>)
    ensures
        first_pod_error(pods@) matches Some(m) ==> (r matches Err(s) && s.code
            == Code::InvalidArgument && s.message@ == m),
        first_pod_error(pods@) is None ==> (r matches Ok(out) && out@.len() == pods@.len()
            && forall|i: int| 0 <= i < pods@.len() ==> pod_converted(#[trigger] out@[i], pods@[i])),
{
    let ghost all = pods@;
    let mut rest = reversed(pods);
    let mut out: Vec<PodEntity> = Vec::new();
    assert(all.skip(0) =~= all);
    while rest.len() > 0
        invariant
            all == pods@,
            out@.len() + rest@.len() == all.len(),
            forall|k: int| 0 <= k < rest@.len() ==> #[trigger] rest@[k] == all[all.len() - 1 - k],
            forall|k: int| 0 <= k < out@.len() ==> pod_wire_error(#[trigger] all[k]) is None,
            forall|k: int| 0 <= k < out@.len() ==> pod_converted(#[trigger] out@[k], all[k]),
            first_pod_error(all) == first_pod_error(all.skip(out@.len() as int)),
        decreases rest@.len(),
    {
        let ghost i = out@.len() as int;
        let wire = rest.pop().unwrap();
        proof {
            assert(wire == all[i]);
            lemma_first_pod_error_split(all, i);
            assert(all.skip(i)[0] == all[i]);
            assert(all.skip(i).drop_first() =~= all.skip(i + 1));
        }
        match pod_from_wire(wire) {
            Ok(pod) => out.push(pod),
            Err(e) => {
                return Err(e);
            },
        }
    }
    proof {
        assert(all.skip(all.len() as int) =~= Seq::<PodWire>::empty());
    }
    Ok(out)
}

proof fn lemma_first_exit_error_split(exits: Seq<ExitWire>, i: int)
    requires
        0 <= i < exits.len(),
        forall|k: int| 0 <= k < i ==> exit_wire_error(#[trigger] exits[k]) is None,
    ensures
        first_exit_error(exits) == (if exit_wire_error(exits[i]) is Some {
            exit_wire_error(exits[i])
        } else {
            first_exit_error(exits.skip(i + 1))
        }),
    decreases i,
{
    if i > 0 {
        lemma_first_exit_error_split(exits.drop_first(), i - 1);
        assert(exits.drop_first().skip(i) =~= exits.skip(i + 1));
    } else {
        assert(exits.drop_first() =~= exits.skip(1));
    }
}

fn exits_from_wire(exits: Vec<ExitWire>) -> (r: Result<Vec<ExitEntity>, RpcStatus>)
    ensures
        first_exit_error(exits@) matches Some(m) ==> (r matches Err(s) && s.code
            == Code::InvalidArgument && s.message@ == m),
        first_exit_error(exits@) is None ==> (r matches Ok(out) && out@.len() == exits@.len()
            && forall|i: int| 0 <= i < exits@.len() ==> exit_converted(#[trigger] out@[i], exits@[i])),
{
    let ghost all = exits@;
    let mut rest = reversed(exits);
    let mut out: Vec<ExitEntity> = Vec::new();
    assert(all.skip(0) =~= all);
    while rest.len() > 0
        invariant
            all == exits@,
            out@.len() + rest@.len() == all.len(),
            forall|k: int| 0 <= k < rest@.len() ==> #[trigger] rest@[k] == all[all.len() - 1 - k],
            forall|k: int| 0 <= k < out@.len() ==> exit_wire_error(#[trigger] all[k]) is None,
            forall|k: int| 0 <= k < out@.len() ==> exit_converted(#[trigger] out@[k], all[k]),
            first_exit_error(all) == first_exit_error(all.skip(out@.len() as int)),
        decreases rest@.len(),
    {
        let ghost i = out@.len() as int;
        let wire = rest.pop().unwrap();
        proof {
            assert(wire == all[i]);
            lemma_first_exit_error_split(all, i);
            assert(all.skip(i)[0] == all[i]);
            assert(all.skip(i).drop_first() =~= all.skip(i + 1));
        }
        match exit_from_wire(wire) {
            Ok(item) => out.push(item),
            Err(e) => {
                return Err(e);
            },
        }
    }
    proof {
        assert(all.skip(all.len() as int) =~= Seq::<ExitWire>::empty());
    }
    Ok(out)
}

proof fn lemma_first_edge_error_split(edges: Seq<EdgeWire>, i: int)
    requires
        0 <= i < edges.len(),
        forall|k: int| 0 <= k < i ==> edge_wire_error(#[trigger] edges[k]) is None,
    ensures
        first_edge_error(edges) == (if edge_wire_error(edges[i]) is Some {
            edge_wire_error(edges[i])
        } else {
            first_edge_error(edges.skip(i + 1))
        }),
    decreases i,
{
    if i > 0 {
        lemma_first_edge_error_split(edges.drop_first(), i - 1);
        assert(edges.drop_first().skip(i) =~= edges.skip(i + 1));
    } else {
        assert(edges.drop_first() =~= edges.skip(1));
    }
}

fn edges_from_wire(edges: Vec<EdgeWire>) -> (r: Result<Vec<EdgeEntity>, RpcStatus>)
    ensures
        first_edge_error(edges@) matches Some(m) ==> (r matches Err(s) && s.code
            == Code::InvalidArgument && s.message@ == m),
        first_edge_error(edges@) is None ==> (r matches Ok(out) && out@.len() == edges@.len()
            && forall|i: int| 0 <= i < edges@.len() ==> edge_converted(#[trigger] out@[i], edges@[i])),
{
    let ghost all = edges@;
    let mut rest = reversed(edges);
    let mut out: Vec<EdgeEntity> = Vec::new();
    assert(all.skip(0) =~= all);
    while rest.len() > 0
        invariant
            all == edges@,
            out@.len() + rest@.len() == all.len(),
            forall|k: int| 0 <= k < rest@.len() ==> #[trigger] rest@[k] == all[all.len() - 1 - k],
            forall|k: int| 0 <= k < out@.len() ==> edge_wire_error(#[trigger] all[k]) is None,
            forall|k: int| 0 <= k < out@.len() ==> edge_converted(#[trigger] out@[k], all[k]),
            first_edge_error(all) == first_edge_error(all.skip(out@.len() as int)),
        decreases rest@.len(),
    {
        let ghost i = out@.len() as int;
        let wire = rest.pop().unwrap();
        proof {
            assert(wire == all[i]);
            lemma_first_edge_error_split(all, i);
            assert(all.skip(i)[0] == all[i]);
            assert(all.skip(i).drop_first() =~= all.skip(i + 1));
        }
        match edge_from_wire(wire) {
            Ok(item) => out.push(item),
            Err(e) => {
                return Err(e);
            },
        }
    }
    proof {
        assert(all.skip(all.len() as int) =~= Seq::<EdgeWire>::empty());
    }
    Ok(out)
}

proof fn lemma_first_group_error_split(groups: Seq<GroupWire>, i: int)
    requires
        0 <= i < groups.len(),
        forall|k: int| 0 <= k < i ==> group_wire_error(#[trigger] groups[k]) is None,
    ensures
        first_group_error(groups) == (if group_wire_error(groups[i]) is Some {
            group_wire_error(groups[i])
        } else {
            first_group_error(groups.skip(i + 1))
        }),
    decreases i,
{
    if i > 0 {
        lemma_first_group_error_split(groups.drop_first(), i - 1);
        assert(groups.drop_first().skip(i) =~= groups.skip(i + 1));
    } else {
        assert(groups.drop_first() =~= groups.skip(1));
    }
}

fn groups_from_wire(groups: Vec<GroupWire>) -> (r: Result<Vec<GroupEntity>, RpcStatus>)
    ensures
        first_group_error(groups@) matches Some(m) ==> (r matches Err(s) && s.code
            == Code::InvalidArgument && s.message@ == m),
        first_group_error(groups@) is None ==> (r matches Ok(out) && out@.len() == groups@.len()
            && forall|i: int| 0 <= i < groups@.len() ==> group_converted(#[trigger] out@[i], groups@[i])),
{
    let ghost all = groups@;
    let mut rest = reversed(groups);
    let mut out: Vec<GroupEntity> = Vec::new();
    assert(all.skip(0) =~= all);
    while rest.len() > 0
        invariant
            all == groups@,
            out@.len() + rest@.len() == all.len(),
            forall|k: int| 0 <= k < rest@.len() ==> #[trigger] rest@[k] == all[all.len() - 1 - k],
            forall|k: int| 0 <= k < out@.len() ==> group_wire_error(#[trigger] all[k]) is None,
            forall|k: int| 0 <= k < out@.len() ==> group_converted(#[trigger] out@[k], all[k]),
            first_group_error(all) == first_group_error(all.skip(out@.len() as int)),
        decreases rest@.len(),
    {
        let ghost i = out@.len() as int;
        let wire = rest.pop().unwrap();
        proof {
            assert(wire == all[i]);
            lemma_first_group_error_split(all, i);
            assert(all.skip(i)[0] == all[i]);
            assert(all.skip(i).drop_first() =~= all.skip(i + 1));
        }
        match group_from_wire(wire) {
            Ok(item) => out.push(item),
            Err(e) => {
                return Err(e);
            },
        }
    }
    proof {
        assert(all.skip(all.len() as int) =~= Seq::<GroupWire>::empty());
    }
    Ok(out)
}

/// A graph change as the dashboard sends it, checked: refused with the first
/// problem [`change_wire_error`] names, else every row converted in order.
/// An absent change is the empty one.
pub fn change_from_wire(change: Option<GraphChangeWire>) -> (r: Result<GraphChange, RpcStatus>)
    ensures
        match change {
            None => r matches Ok(g) && g.put_pods@.len() == 0 && g.put_exits@.len() == 0
                && g.put_edges@.len() == 0 && g.put_groups@.len() == 0 && g.delete_pods@.len() == 0
                && g.delete_exits@.len() == 0 && g.delete_edges@.len() == 0
                && g.delete_groups@.len() == 0,
            Some(c) => match change_wire_error(c) {
                Some(m) => r matches Err(s) && s.code == Code::InvalidArgument && s.message@ == m,
                None => r matches Ok(g) && change_converted(g, c),
            },
        },
{
    let c = match change {
        Some(c) => c,
        None => {
            return Ok(
                GraphChange {
                    put_pods: Vec::new(),
                    put_exits: Vec::new(),
                    put_edges: Vec::new(),
                    put_groups: Vec::new(),
                    delete_pods: Vec::new(),
                    delete_exits: Vec::new(),
                    delete_edges: Vec::new(),
                    delete_groups: Vec::new(),
                },
            );
        },
    };
    let put_pods = pods_from_wire(c.put_pods)?;
    let put_exits = exits_from_wire(c.put_exits)?;
    let put_edges = edges_from_wire(c.put_edges)?;
    let put_groups = groups_from_wire(c.put_groups)?;
    Ok(
        GraphChange {
            put_pods,
            put_exits,
            put_edges,
            put_groups,
            delete_pods: c.delete_pod_ids,
            delete_exits: c.delete_exit_ids,
            delete_edges: c.delete_edge_ids,
            delete_groups: c.delete_group_ids,
        },
    )
}

/// A recognised PROXY protocol value keeps its version through the checks,
/// for pods and exits alike: `PROXY_V1` is version 1, `PROXY_V2` version 2,
/// and an unspecified value asks for none.
pub proof fn lemma_proxy_versions_are_kept(pod: PodWire, p: PodEntity, exit: ExitWire, x: ExitEntity)
    ensures
        pod_converted(p, pod) && pod.ingress == IngressWire::ClientRaw ==> p.ingress == (
        PodIngress::ClientRaw {
            receive_proxy_protocol: if pod.receive_proxy_protocol == ProxyWire::ProxyV1 {
                Some(ProxyProtocolVersion::V1)
            } else if pod.receive_proxy_protocol == ProxyWire::ProxyV2 {
                Some(ProxyProtocolVersion::V2)
            } else {
                None
            },
        }),
        pod_converted(p, pod) && pod.ingress == IngressWire::ClientTls ==> (p.ingress matches PodIngress::ClientTls {
            receive_proxy_protocol,
            ..
        } && receive_proxy_protocol == if pod.receive_proxy_protocol == ProxyWire::ProxyV1 {
            Some(ProxyProtocolVersion::V1)
        } else if pod.receive_proxy_protocol == ProxyWire::ProxyV2 {
            Some(ProxyProtocolVersion::V2)
        } else {
            None
        }),
        exit_converted(x, exit) && exit.send_proxy_protocol == ProxyWire::ProxyV1 ==> x.send_proxy_protocol
            == Some(ProxyProtocolVersion::V1),
        exit_converted(x, exit) && exit.send_proxy_protocol == ProxyWire::ProxyV2 ==> x.send_proxy_protocol
            == Some(ProxyProtocolVersion::V2),
        exit_converted(x, exit) && exit.send_proxy_protocol == ProxyWire::Unspecified ==> x.send_proxy_protocol
            is None,
{
}

} // verus!
