//! Pods: the vertices of the forwarding graph.
//!
//! A pod is one listener on one server. Its ingress says how traffic arrives
//! (clients directly, or other pods relaying to it in one protocol) and its
//! route how that traffic leaves, over the pod's out-edges.
use crate::decimal::{decimal, decimal_text};
use crate::entities::canvas::{copy_opt_text, CanvasId};
use crate::entities::decode::{DecodeError, DecodeProblem};
use crate::entities::dns::DnsProviderId;
use crate::entities::server::ServerId;
use crate::text::text_eq;
use vstd::prelude::*;

verus! {

/// The record key of an `orchestration_pod` row.
pub type PodId = String;

#[derive(Debug, Clone)]
pub struct PodEntity {
    pub id: PodId,
    /// The canvas the pod is drawn on; its server may belong to an ancestor.
    pub canvas: CanvasId,
    pub server: ServerId,
    pub name: String,
    pub comment: String,
    pub port: u16,
    /// An IP literal; `None` listens on every address.
    pub bind_ip: Option<String>,
    /// An IP literal dialers use instead of the server's address.
    pub advertise_ip: Option<String>,
    pub ingress: PodIngress,
    /// The route over the pod's out-edges, as its stored JSON document;
    /// `None` when it has none.
    pub route: Option<String>,
}

/// The socket a pod binds, as shown to an operator: `[::]` for all addresses,
/// an IPv6 literal in brackets.
pub open spec fn listen_text(bind_ip: Option<Seq<char>>, port: u16) -> Seq<char> {
    match bind_ip {
        None => "[::]:"@ + decimal_text(port as nat),
        Some(ip) => if ip.contains(':') {
            "["@ + ip + "]:"@ + decimal_text(port as nat)
        } else {
            ip + ":"@ + decimal_text(port as nat)
        },
    }
}

pub open spec fn opt_text(s: Option<String>) -> Option<Seq<char>> {
    match s {
        Some(t) => Some(t@),
        None => None,
    }
}

/// Whether `s` holds the character `c`.
pub fn has_char(s: &str, c: char) -> (r: bool)
    ensures
        r == s@.contains(c),
{
    let n = s.unicode_len();
    let mut i: usize = 0;
    while i < n
        invariant
            n == s@.len(),
            i <= n,
            forall|k: int| 0 <= k < i ==> s@[k] != c,
        decreases n - i,
    {
        if s.get_char(i) == c {
            assert(s@[i as int] == c);
            return true;
        }
        i = i + 1;
    }
    false
}

impl PodEntity {
    /// The socket this pod binds, `[::]` standing for "all addresses".
    pub fn listen_display(&self) -> (s: String)
        ensures
            s@ == listen_text(opt_text(self.bind_ip), self.port),
    {
        let port = decimal(self.port as u64);
        match &self.bind_ip {
            None => String::from_str("[::]:").concat(port.as_str()),
            Some(ip) => {
                if has_char(ip.as_str(), ':') {
                    String::from_str("[").concat(ip.as_str()).concat("]:").concat(port.as_str())
                } else {
                    ip.clone().concat(":").concat(port.as_str())
                }
            },
        }
    }
}

/// How traffic arrives at a pod.
#[derive(Debug, Clone)]
pub enum PodIngress {
    /// Clients connect and their bytes are forwarded as they are.
    ClientRaw { receive_proxy_protocol: Option<ProxyProtocolVersion> },
    /// Clients connect with TLS, terminated with the ACME certificate `tls`
    /// asks for.
    ClientTls { receive_proxy_protocol: Option<ProxyProtocolVersion>, tls: TlsConfig },
    /// Other pods relay to it over plain TCP.
    RelayTcp,
    /// Other pods relay to it over TLS.
    RelayTls,
    /// Other pods relay to it over QUIC.
    RelayQuic,
}

pub open spec fn ingress_kind(i: PodIngress) -> IngressKind {
    match i {
        PodIngress::ClientRaw { .. } => IngressKind::ClientRaw,
        PodIngress::ClientTls { .. } => IngressKind::ClientTls,
        PodIngress::RelayTcp => IngressKind::RelayTcp,
        PodIngress::RelayTls => IngressKind::RelayTls,
        PodIngress::RelayQuic => IngressKind::RelayQuic,
    }
}

impl PodIngress {
    pub fn kind(&self) -> (k: IngressKind)
        ensures
            k == ingress_kind(*self),
    {
        match self {
            PodIngress::ClientRaw { .. } => IngressKind::ClientRaw,
            PodIngress::ClientTls { .. } => IngressKind::ClientTls,
            PodIngress::RelayTcp => IngressKind::RelayTcp,
            PodIngress::RelayTls => IngressKind::RelayTls,
            PodIngress::RelayQuic => IngressKind::RelayQuic,
        }
    }

    /// The PROXY protocol version clients send; only client listeners have one.
    pub fn receive_proxy_protocol(&self) -> (r: Option<ProxyProtocolVersion>)
        ensures
            r == match *self {
                PodIngress::ClientRaw { receive_proxy_protocol } => receive_proxy_protocol,
                PodIngress::ClientTls { receive_proxy_protocol, .. } => receive_proxy_protocol,
                _ => None,
            },
    {
        match self {
            PodIngress::ClientRaw { receive_proxy_protocol } => *receive_proxy_protocol,
            PodIngress::ClientTls { receive_proxy_protocol, .. } => *receive_proxy_protocol,
            PodIngress::RelayTcp | PodIngress::RelayTls | PodIngress::RelayQuic => None,
        }
    }

    /// The certificate request of a TLS client listener.
    pub fn tls(&self) -> (r: Option<&TlsConfig>)
        ensures
            r == match *self {
                PodIngress::ClientTls { tls, .. } => Some(&tls),
                _ => None,
            },
    {
        match self {
            PodIngress::ClientTls { tls, .. } => Some(tls),
            _ => None,
        }
    }

    /// Whether other pods reach this one by relay, and so may hold edges into it.
    pub fn is_relay(&self) -> (r: bool)
        ensures
            r == (*self is RelayTcp || *self is RelayTls || *self is RelayQuic),
    {
        match self {
            PodIngress::RelayTcp | PodIngress::RelayTls | PodIngress::RelayQuic => true,
            _ => false,
        }
    }

    /// Whether the listener needs a relay leaf certificate.
    pub fn needs_relay_certificate(&self) -> (r: bool)
        ensures
            r == (*self is RelayTls || *self is RelayQuic),
    {
        match self {
            PodIngress::RelayTls | PodIngress::RelayQuic => true,
            _ => false,
        }
    }
}

/// The stored spelling of a [`PodIngress`].
#[derive(Debug, Clone, Copy, PartialEq, Eq, Structural)]
pub enum IngressKind {
    ClientRaw,
    ClientTls,
    RelayTcp,
    RelayTls,
    RelayQuic,
}

pub open spec fn ingress_spelling(k: IngressKind) -> Seq<char> {
    match k {
        IngressKind::ClientRaw => "client_raw"@,
        IngressKind::ClientTls => "client_tls"@,
        IngressKind::RelayTcp => "relay_tcp"@,
        IngressKind::RelayTls => "relay_tls"@,
        IngressKind::RelayQuic => "relay_quic"@,
    }
}

impl IngressKind {
    /// The stored spelling.
    pub fn as_str(self) -> (s: &'static str)
        ensures
            s@ == ingress_spelling(self),
    {
        match self {
            IngressKind::ClientRaw => "client_raw",
            IngressKind::ClientTls => "client_tls",
            IngressKind::RelayTcp => "relay_tcp",
            IngressKind::RelayTls => "relay_tls",
            IngressKind::RelayQuic => "relay_quic",
        }
    }

    /// The kind a stored spelling names; `None` for any other text.
    pub fn from_stored(text: &str) -> (r: Option<Self>)
        ensures
            r matches Some(k) ==> ingress_spelling(k) == text@,
            r is None ==> forall|k: IngressKind| ingress_spelling(k) != text@,
    {
        if text_eq(text, "client_raw") {
            Some(IngressKind::ClientRaw)
        } else if text_eq(text, "client_tls") {
            Some(IngressKind::ClientTls)
        } else if text_eq(text, "relay_tcp") {
            Some(IngressKind::RelayTcp)
        } else if text_eq(text, "relay_tls") {
            Some(IngressKind::RelayTls)
        } else if text_eq(text, "relay_quic") {
            Some(IngressKind::RelayQuic)
        } else {
            None
        }
    }
}

/// The ACME certificate a TLS client listener terminates with.
#[derive(Debug, Clone)]
pub struct TlsConfig {
    /// The SNI of the TLS certificate.
    pub sni: String,
    /// Which DNS provider answers the ACME DNS challenge.
    pub dns_provider: DnsProviderId,
    /// The identifier of the domain: the zone ID on Cloudflare, the domain
    /// SLD on Vercel.
    pub domain_id: String,
    /// The URL of the ACME directory; empty means the configured default.
    pub acme_directory: String,
}

#[derive(Debug, Clone, Copy, PartialEq, Eq, Structural)]
pub enum ProxyProtocolVersion {
    V1,
    V2,
}

pub open spec fn proxy_spelling(v: ProxyProtocolVersion) -> Seq<char> {
    match v {
        ProxyProtocolVersion::V1 => "v1"@,
        ProxyProtocolVersion::V2 => "v2"@,
    }
}

impl ProxyProtocolVersion {
    /// The stored spelling.
    pub fn as_str(self) -> (s: &'static str)
        ensures
            s@ == proxy_spelling(self),
    {
        match self {
            ProxyProtocolVersion::V1 => "v1",
            ProxyProtocolVersion::V2 => "v2",
        }
    }

    /// The version a stored spelling names; `None` for any other text.
    pub fn from_stored(text: &str) -> (r: Option<Self>)
        ensures
            r matches Some(v) ==> proxy_spelling(v) == text@,
            r is None ==> forall|v: ProxyProtocolVersion| proxy_spelling(v) != text@,
    {
        if text_eq(text, "v1") {
            Some(ProxyProtocolVersion::V1)
        } else if text_eq(text, "v2") {
            Some(ProxyProtocolVersion::V2)
        } else {
            None
        }
    }
}

/// One `orchestration_pod` row: one field per selected column, validated into a
/// [`PodEntity`] by [`PodRow::into_entity`].
pub struct PodRow {
    pub id: PodId,
    pub canvas: CanvasId,
    pub server: ServerId,
    pub name: String,
    pub comment: String,
    pub port: i32,
    pub bind_ip: Option<String>,
    pub advertise_ip: Option<String>,
    pub ingress: IngressKind,
    pub receive_proxy_protocol: Option<ProxyProtocolVersion>,
    pub tls_sni: Option<String>,
    pub tls_dns_provider: Option<DnsProviderId>,
    pub tls_domain_id: Option<String>,
    pub tls_acme_directory: Option<String>,
    pub route: Option<String>,
}

/// Whether all four TLS columns of a row are set.
pub open spec fn row_has_tls(row: PodRow) -> bool {
    row.tls_sni is Some && row.tls_dns_provider is Some && row.tls_domain_id is Some
        && row.tls_acme_directory is Some
}

/// The ingress a row's columns describe, when they agree.
pub open spec fn row_ingress(row: PodRow) -> Option<PodIngress> {
    if row.ingress == IngressKind::ClientTls && row_has_tls(row) {
        Some(
            PodIngress::ClientTls {
                receive_proxy_protocol: row.receive_proxy_protocol,
                tls: TlsConfig {
                    sni: row.tls_sni->0,
                    dns_provider: row.tls_dns_provider->0,
                    domain_id: row.tls_domain_id->0,
                    acme_directory: row.tls_acme_directory->0,
                },
            },
        )
    } else if row_has_tls(row) || row.ingress == IngressKind::ClientTls {
        None
    } else {
        Some(
            match row.ingress {
                IngressKind::ClientRaw => PodIngress::ClientRaw {
                    receive_proxy_protocol: row.receive_proxy_protocol,
                },
                IngressKind::RelayTcp => PodIngress::RelayTcp,
                IngressKind::RelayTls => PodIngress::RelayTls,
                _ => PodIngress::RelayQuic,
            },
        )
    }
}

impl PodRow {
    /// The entity the row stores. Refused when the port is out of range, or
    /// when the TLS columns disagree with the ingress kind: all four set for a
    /// TLS client listener, none of them (or only some) for any other.
    pub fn into_entity(self) -> (r: Result<PodEntity, DecodeError>)
        ensures
            !(0 <= self.port <= 65535) ==> (r matches Err(e) && e.column == "port" && e.row
                == self.id && e.problem == DecodeProblem::PortOutOfRange(self.port)),
            0 <= self.port <= 65535 && row_ingress(self) is None ==> (r matches Err(e) && e.column
                == "ingress" && e.row == self.id && e.problem == DecodeProblem::TlsMismatch(
                self.ingress,
            )),
            0 <= self.port <= 65535 && row_ingress(self) is Some ==> (r matches Ok(p) && p == (
            PodEntity {
                id: self.id,
                canvas: self.canvas,
                server: self.server,
                name: self.name,
                comment: self.comment,
                port: self.port as u16,
                bind_ip: self.bind_ip,
                advertise_ip: self.advertise_ip,
                ingress: row_ingress(self)->0,
                route: self.route,
            })),
    {
        let ghost row = self;
        if self.port < 0 || self.port > 65535 {
            return Err(
                DecodeError {
                    column: "port",
                    row: self.id,
                    problem: DecodeProblem::PortOutOfRange(self.port),
                },
            );
        }
        let port = self.port as u16;
        let receive_proxy_protocol = self.receive_proxy_protocol;
        let tls = match (self.tls_sni, self.tls_dns_provider, self.tls_domain_id, self.tls_acme_directory) {
            (Some(sni), Some(dns_provider), Some(domain_id), Some(acme_directory)) => {
                Some(TlsConfig { sni, dns_provider, domain_id, acme_directory })
            },
            _ => None,
        };
        let ingress = match (self.ingress, tls) {
            (IngressKind::ClientRaw, None) => PodIngress::ClientRaw { receive_proxy_protocol },
            (IngressKind::ClientTls, Some(tls)) => PodIngress::ClientTls {
                receive_proxy_protocol,
                tls,
            },
            (IngressKind::RelayTcp, None) => PodIngress::RelayTcp,
            (IngressKind::RelayTls, None) => PodIngress::RelayTls,
            (IngressKind::RelayQuic, None) => PodIngress::RelayQuic,
            (kind, _) => {
                return Err(
                    DecodeError {
                        column: "ingress",
                        row: self.id,
                        problem: DecodeProblem::TlsMismatch(kind),
                    },
                );
            },
        };
        Ok(
            PodEntity {
                id: self.id,
                canvas: self.canvas,
                server: self.server,
                name: self.name,
                comment: self.comment,
                port,
                bind_ip: self.bind_ip,
                advertise_ip: self.advertise_ip,
                ingress,
                route: self.route,
            },
        )
    }
}

/// The distinct canvases the given pods are drawn on.
#[derive(Debug)]
pub struct ListCanvasesOfPods {
    pub pods: Vec<PodId>,
}

/// One pod by id; `None` when there is no such row.
#[derive(Debug)]
pub struct FindPodById {
    pub id: PodId,
}

/// The root canvases of every tree holding a TLS or QUIC relay pod: the trees
/// whose derivation depends on the internal CA.
#[derive(Debug)]
pub struct ListCanvasesWithRelayTls;

/// The row a pod is stored as: its TLS request spread over the four TLS
/// columns (all empty for any other listener), its ingress as its kind and
/// the PROXY version clients send.
pub open spec fn pod_row_of(p: PodEntity) -> PodRow {
    let tls = match p.ingress {
        PodIngress::ClientTls { tls, .. } => Some(tls),
        _ => None,
    };
    PodRow {
        id: p.id,
        canvas: p.canvas,
        server: p.server,
        name: p.name,
        comment: p.comment,
        port: p.port as i32,
        bind_ip: p.bind_ip,
        advertise_ip: p.advertise_ip,
        ingress: ingress_kind(p.ingress),
        receive_proxy_protocol: match p.ingress {
            PodIngress::ClientRaw { receive_proxy_protocol } => receive_proxy_protocol,
            PodIngress::ClientTls { receive_proxy_protocol, .. } => receive_proxy_protocol,
            _ => None,
        },
        tls_sni: match tls {
            Some(t) => Some(t.sni),
            None => None,
        },
        tls_dns_provider: match tls {
            Some(t) => Some(t.dns_provider),
            None => None,
        },
        tls_domain_id: match tls {
            Some(t) => Some(t.domain_id),
            None => None,
        },
        tls_acme_directory: match tls {
            Some(t) => Some(t.acme_directory),
            None => None,
        },
        route: p.route,
    }
}

impl PodEntity {
    /// The row this pod is written as.
    pub fn to_row(&self) -> (row: PodRow)
        ensures
            row == pod_row_of(*self),
    {
        let (tls_sni, tls_dns_provider, tls_domain_id, tls_acme_directory) = match self.ingress.tls() {
            Some(t) => (
                Some(t.sni.clone()),
                Some(t.dns_provider.clone()),
                Some(t.domain_id.clone()),
                Some(t.acme_directory.clone()),
            ),
            None => (None, None, None, None),
        };
        PodRow {
            id: self.id.clone(),
            canvas: self.canvas.clone(),
            server: self.server.clone(),
            name: self.name.clone(),
            comment: self.comment.clone(),
            port: self.port as i32,
            bind_ip: copy_opt_text(&self.bind_ip),
            advertise_ip: copy_opt_text(&self.advertise_ip),
            ingress: self.ingress.kind(),
            receive_proxy_protocol: self.ingress.receive_proxy_protocol(),
            tls_sni,
            tls_dns_provider,
            tls_domain_id,
            tls_acme_directory,
            route: copy_opt_text(&self.route),
        }
    }
}

/// What is written is what is read back: the row a pod is stored as decodes
/// to the same pod, whatever its listener.
pub proof fn lemma_pod_row_round_trip(p: PodEntity)
    ensures
        0 <= pod_row_of(p).port <= 65535,
        row_ingress(pod_row_of(p)) == Some(p.ingress),
        (PodEntity {
            id: pod_row_of(p).id,
            canvas: pod_row_of(p).canvas,
            server: pod_row_of(p).server,
            name: pod_row_of(p).name,
            comment: pod_row_of(p).comment,
            port: pod_row_of(p).port as u16,
            bind_ip: pod_row_of(p).bind_ip,
            advertise_ip: pod_row_of(p).advertise_ip,
            ingress: row_ingress(pod_row_of(p))->0,
            route: pod_row_of(p).route,
        }) == p,
{
}

} // verus!
