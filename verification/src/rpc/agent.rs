//! The worker API's decisions: who a call is from, what a worker is told
//! when it registers, and what its config stream does with each thing that
//! happens to it.
use crate::decimal::{decimal, decimal_text};
use crate::clock::{chrono_represents_micros, now_micros, Timestamp};
use crate::entities::pod::opt_text;
use crate::entities::view::ConfigSnapshot;
use crate::entities::server::{ReportedAddresses, ServerId};
use crate::net::{canonical_spec, IpAddress};
use crate::text::{trim, trimmed, Strip};
use crate::rpc::status::{Code, RpcStatus};
use vstd::prelude::*;

verus! {

/// Metadata key carrying a worker's dynamic refresh key.
pub const REFRESH_KEY_METADATA: &'static str = "x-refresh-key";

/// The worker a refresh key resolved to, and the registration it belongs to.
#[derive(Debug, Clone)]
pub struct AgentIdentity {
    pub server: ServerId,
    pub generation: i64,
}

/// Marks a request whose refresh key could not be judged because the database
/// did not answer. Distinct from carrying no identity, which means the key
/// *was* judged and rejected.
#[derive(Debug, Clone, Copy, PartialEq, Eq, Structural)]
pub struct AgentAuthUnavailable;

/// What resolving a refresh key produced.
#[derive(Debug, Clone)]
pub enum Resolved {
    Identity(AgentIdentity),
    /// The key was judged: unknown, or superseded by a newer registration.
    Anonymous,
    /// The key was not judged: the database failed or did not answer in time.
    Unavailable,
}

impl Resolved {
    /// One retry, then say so: a key that could not be judged must not be
    /// reported as a key that was judged and rejected.
    pub fn worth_retrying(&self) -> (r: bool)
        ensures
            r == (*self is Unavailable),
    {
        match self {
            Resolved::Unavailable => true,
            _ => false,
        }
    }
}

/// The authenticated worker of a call.
///
/// `UNAUTHENTICATED` only when the key was actually judged and rejected: that
/// is what tells a worker its session is over and it must register again. A
/// database that did not answer gets `UNAVAILABLE`, which the worker retries
/// without throwing its session away.
pub fn agent_from_request(identity: Option<AgentIdentity>, unavailable: Option<AgentAuthUnavailable>) -> (r: Result<
    AgentIdentity,
    RpcStatus,
>)
    ensures
        identity matches Some(a) ==> r == Ok::<AgentIdentity, RpcStatus>(a),
        identity is None && unavailable is Some ==> (r matches Err(s) && s.code == Code::Unavailable
            && s.message@ == "Authentication is briefly unavailable"@),
        identity is None && unavailable is None ==> (r matches Err(s) && s.code
            == Code::Unauthenticated && s.message@ == "Missing refresh key"@),
{
    if let Some(identity) = identity {
        return Ok(identity);
    }
    if unavailable.is_some() {
        return Err(RpcStatus::new(Code::Unavailable, "Authentication is briefly unavailable"));
    }
    Err(RpcStatus::new(Code::Unauthenticated, "Missing refresh key"))
}

/// A setting in seconds as the register reply carries it, saturating at
/// `u32::MAX`.
pub fn reply_secs(secs: u64) -> (r: u32)
    ensures
        secs <= u32::MAX ==> r == secs,
        secs > u32::MAX ==> r == u32::MAX,
{
    if secs <= u32::MAX as u64 {
        secs as u32
    } else {
        u32::MAX
    }
}

/// Empty strings on the wire mean "unknown".
pub fn non_empty(s: String) -> (r: Option<String>)
    ensures
        s@.len() == 0 ==> r is None,
        s@.len() > 0 ==> r == Some(s),
{
    if s.unicode_len() == 0 {
        None
    } else {
        Some(s)
    }
}

/// The claim a config stream holds on its server: the registration
/// (`generation`) and the stream (`epoch`) it was opened for.
#[derive(Debug, Clone, Copy, PartialEq, Eq, Structural)]
pub struct WatchFence {
    pub generation: i64,
    pub epoch: i64,
}

/// The code a stream that lost its fence ends with.
pub open spec fn fence_lost_code(mine: WatchFence, current: WatchFence) -> Code {
    if current.generation != mine.generation {
        Code::Unauthenticated
    } else {
        Code::Aborted
    }
}

/// The message a stream that lost its fence ends with.
pub open spec fn fence_lost_message(mine: WatchFence, current: WatchFence) -> Seq<char> {
    if current.generation != mine.generation {
        "refresh key superseded"@
    } else {
        "a newer watch session took over"@
    }
}

/// Why a stream lost the fence: a new registration (the worker restarted, or
/// an impostor registered) or a newer stream for the same generation.
pub fn fenced_status(mine: WatchFence, current: WatchFence) -> (s: RpcStatus)
    ensures
        s.code == fence_lost_code(mine, current),
        s.message@ == fence_lost_message(mine, current),
        current.generation != mine.generation ==> s.code == Code::Unauthenticated
            && s.message@ == "refresh key superseded"@,
        current.generation == mine.generation ==> s.code == Code::Aborted && s.message@
            == "a newer watch session took over"@,
{
    if current.generation != mine.generation {
        RpcStatus::new(Code::Unauthenticated, "refresh key superseded")
    } else {
        RpcStatus::new(Code::Aborted, "a newer watch session took over")
    }
}

/// What happens to an open config stream.
#[derive(Debug, Clone, Copy, PartialEq, Eq, Structural)]
pub enum WatchEvent {
    /// The worker's end of the stream is gone.
    ReceiverClosed,
    /// The lease heartbeat fired and the renewal answered: `true` while this
    /// session still owns the server.
    Heartbeat { renewed: bool },
    /// The keep-alive timer fired.
    KeepAliveTick,
    /// The server's desired revision may have moved.
    Changed,
    /// The server's fence moved to `current`.
    Fenced { current: WatchFence },
    /// The signal hub dropped messages; `current` is the fence the server row
    /// holds now.
    Lagged { current: WatchFence },
    /// The signal hub closed.
    HubClosed,
    /// A hand-over attempt finished: `delivered` is `false` when the worker's
    /// end was gone.
    Sent { delivered: bool },
}

/// What a config stream does next.
#[derive(Debug, Clone)]
pub enum WatchAction {
    /// Keep waiting.
    Wait,
    /// Ask the database whether a revision is to be handed to this session,
    /// and send it.
    TrySend,
    /// Send an empty keep-alive, without waiting for room in the channel.
    SendKeepAlive,
    /// End the stream, telling the worker why when `status` is set. The lease
    /// is released either way.
    End { status: Option<RpcStatus> },
}

/// The step of a config stream holding `fence` on `event`. Keep-alives are
/// sent only to a worker that asked for them.
pub fn watch_step(fence: WatchFence, keep_alive: bool, event: WatchEvent) -> (a: WatchAction)
    ensures
        match event {
            WatchEvent::ReceiverClosed => a matches WatchAction::End { status: None },
            WatchEvent::Heartbeat { renewed } => if renewed {
                a is Wait
            } else {
                a matches WatchAction::End { status: Some(s) } && s.code == Code::Aborted
                    && s.message@ == "watch session lease lost"@
            },
            WatchEvent::KeepAliveTick => if keep_alive {
                a is SendKeepAlive
            } else {
                a is Wait
            },
            WatchEvent::Changed => a is TrySend,
            WatchEvent::Fenced { current } => if current != fence {
                a matches WatchAction::End { status: Some(s) } && s.code == fence_lost_code(fence, current)
                    && s.message@ == fence_lost_message(fence, current)
            } else {
                a is Wait
            },
            WatchEvent::Lagged { current } => if current != fence {
                a matches WatchAction::End { status: Some(s) } && s.code == fence_lost_code(fence, current)
                    && s.message@ == fence_lost_message(fence, current)
            } else {
                a is TrySend
            },
            WatchEvent::HubClosed => a matches WatchAction::End { status: None },
            WatchEvent::Sent { delivered } => if delivered {
                a is Wait
            } else {
                a matches WatchAction::End { status: None }
            },
        },
{
    match event {
        WatchEvent::ReceiverClosed => WatchAction::End { status: None },
        WatchEvent::Heartbeat { renewed } => {
            if renewed {
                WatchAction::Wait
            } else {
                WatchAction::End {
                    status: Some(RpcStatus::new(Code::Aborted, "watch session lease lost")),
                }
            }
        },
        WatchEvent::KeepAliveTick => {
            if keep_alive {
                WatchAction::SendKeepAlive
            } else {
                WatchAction::Wait
            }
        },
        WatchEvent::Changed => WatchAction::TrySend,
        WatchEvent::Fenced { current } => {
            if current != fence {
                WatchAction::End { status: Some(fenced_status(fence, current)) }
            } else {
                WatchAction::Wait
            }
        },
        WatchEvent::Lagged { current } => {
            if current != fence {
                WatchAction::End { status: Some(fenced_status(fence, current)) }
            } else {
                WatchAction::TrySend
            }
        },
        WatchEvent::HubClosed => WatchAction::End { status: None },
        WatchEvent::Sent { delivered } => {
            if delivered {
                WatchAction::Wait
            } else {
                WatchAction::End { status: None }
            }
        },
    }
}

/// How one health stream ended. Only `Silent` marks the server offline.
#[derive(Debug, Clone)]
pub enum HealthEnd {
    /// The worker half-closed or reset it, or a proxy on the path did.
    Closed,
    /// The request stream broke underneath the master.
    Broken(RpcStatus),
    /// No report within the offline threshold: the master's own verdict.
    Silent(RpcStatus),
    /// A report arrived and could not be recorded.
    Unrecorded(RpcStatus),
}

impl HealthEnd {
    /// What the worker is told, if the stream did not simply close.
    pub fn into_status(self) -> (r: Option<RpcStatus>)
        ensures
            match self {
                HealthEnd::Closed => r is None,
                HealthEnd::Broken(s) => r == Some(s),
                HealthEnd::Silent(s) => r == Some(s),
                HealthEnd::Unrecorded(s) => r == Some(s),
            },
    {
        match self {
            HealthEnd::Closed => None,
            HealthEnd::Broken(status) => Some(status),
            HealthEnd::Silent(status) => Some(status),
            HealthEnd::Unrecorded(status) => Some(status),
        }
    }

    /// Whether the ending is the master's verdict that the server is gone.
    pub fn marks_offline(&self) -> (r: bool)
        ensures
            r == (*self is Silent),
    {
        match self {
            HealthEnd::Silent(_) => true,
            _ => false,
        }
    }
}

/// The status a health stream that stayed silent for `secs` seconds ends with.
pub fn silence_status(secs: u64) -> (s: RpcStatus)
    ensures
        s.code == Code::DeadlineExceeded,
        s.message@ == "no health report within "@ + decimal_text(secs as nat) + "s"@,
{
    proof {
        reveal_strlit("no health report within ");
        reveal_strlit("s");
    }
    let message = String::from_str("no health report within ").concat(decimal(secs).as_str()).concat(
        "s",
    );
    RpcStatus { code: Code::DeadlineExceeded, message }
}

/// The first hop a forwarding header names: the text before its first comma,
/// without surrounding white space.
pub open spec fn first_hop_spec(value: Seq<char>) -> Seq<char> {
    let cut = if exists|i: int| 0 <= i < value.len() && value[i] == ',' {
        choose|i: int| 0 <= i < value.len() && value[i] == ',' && forall|j: int| 0 <= j < i ==> value[j] != ','
    } else {
        value.len() as int
    };
    trimmed(value.take(cut), Strip::WhiteSpace)
}

/// The first hop of an `x-real-ip` or `x-forwarded-for` value.
pub fn first_hop(value: &str) -> (r: &str)
    ensures
        r@ == first_hop_spec(value@),
{
    let n = value.unicode_len();
    let mut i: usize = 0;
    while i < n && value.get_char(i) != ','
        invariant
            n == value@.len(),
            i <= n,
            forall|j: int| 0 <= j < i ==> value@[j] != ',',
        decreases n - i,
    {
        i = i + 1;
    }
    proof {
        if i < n {
            let c = choose|k: int| 0 <= k < value@.len() && value@[k] == ',' && forall|j: int|
                0 <= j < k ==> value@[j] != ',';
            assert(value@[i as int] == ',');
            if c < i {
                assert(value@[c] != ',');
            }
            if c > i {
                assert(value@[i as int] != ',');
            }
        }
    }
    trim(value.substring_char(0, i), Strip::WhiteSpace)
}

/// The worker's address as the master saw it. Behind the documented
/// TLS-terminating proxy the socket peer is the proxy, so the `x-real-ip`
/// address, else the first `x-forwarded-for` hop, is preferred while proxy
/// headers are trusted; otherwise, and when neither header holds an address,
/// the socket peer. IPv4-mapped IPv6 peers are unmapped.
pub fn peer_address(
    trust_proxy_headers: bool,
    real_ip: Option<IpAddress>,
    forwarded_for: Option<IpAddress>,
    socket_peer: Option<IpAddress>,
) -> (r: Option<IpAddress>)
    ensures
        r == (if trust_proxy_headers && real_ip is Some {
            Some(canonical_spec(real_ip->0))
        } else if trust_proxy_headers && forwarded_for is Some {
            Some(canonical_spec(forwarded_for->0))
        } else {
            match socket_peer {
                Some(ip) => Some(canonical_spec(ip)),
                None => None,
            }
        }),
{
    let chosen = if trust_proxy_headers && real_ip.is_some() {
        real_ip
    } else if trust_proxy_headers && forwarded_for.is_some() {
        forwarded_for
    } else {
        socket_peer
    };
    match chosen {
        Some(ip) => Some(ip.canonical()),
        None => None,
    }
}

/// The address set a worker sent, stamped `reported_at`: empty texts are
/// unknown addresses.
pub fn reported_from_wire_at(
    public_v4: String,
    public_v6: String,
    interfaces: Vec<String>,
    reported_at: Timestamp,
) -> (r: ReportedAddresses)
    ensures
        opt_text(r.public_v4) == (if public_v4@.len() == 0 {
            None
        } else {
            Some(public_v4@)
        }),
        opt_text(r.public_v6) == (if public_v6@.len() == 0 {
            None
        } else {
            Some(public_v6@)
        }),
        r.interfaces == interfaces,
        r.reported_at == reported_at,
{
    ReportedAddresses {
        public_v4: non_empty(public_v4),
        public_v6: non_empty(public_v6),
        interfaces,
        reported_at,
    }
}

/// The address set a worker sent, stamped with the time it arrived; see
/// [`reported_from_wire_at`]. Of the clock only this is claimed: the stamp is
/// an instant `chrono` represents.
pub fn reported_from_wire(public_v4: String, public_v6: String, interfaces: Vec<String>) -> (r: ReportedAddresses)
    ensures
        opt_text(r.public_v4) == (if public_v4@.len() == 0 {
            None
        } else {
            Some(public_v4@)
        }),
        opt_text(r.public_v6) == (if public_v6@.len() == 0 {
            None
        } else {
            Some(public_v6@)
        }),
        r.interfaces == interfaces,
        chrono_represents_micros(r.reported_at),
{
    reported_from_wire_at(public_v4, public_v6, interfaces, now_micros())
}

/// One certificate file a revision ships with: where the worker writes it,
/// and the PEM it writes.
#[derive(Debug, Clone)]
pub struct CertificateFile {
    pub path: String,
    pub pem: String,
}

/// One message of a config stream: a revision with its text and files, or
/// an empty keep-alive.
#[derive(Debug, Clone)]
pub struct ConfigRevisionWire {
    pub revision: i64,
    pub toml: String,
    pub files: Vec<CertificateFile>,
    pub keep_alive: bool,
}

/// What a hand-over does with what taking the in-flight revision gave.
#[derive(Debug)]
pub enum HandOver {
    /// Nothing was handed to this session: send nothing, keep the stream.
    Nothing,
    /// A revision was promoted to `in_flight` for this session: announce the
    /// rollout change, bundle its certificates and send it.
    Deliver(ConfigSnapshot),
    /// Taking it failed: end the stream rather than skip a revision.
    End(RpcStatus),
}

/// The hand-over's first decision, on the result of taking the in-flight
/// revision: a database failure ends the stream with `INTERNAL` and the
/// error's text.
pub fn hand_over(taken: Result<Option<ConfigSnapshot>, String>) -> (h: HandOver)
    ensures
        match taken {
            Ok(None) => h is Nothing,
            Ok(Some(snapshot)) => h == HandOver::Deliver(snapshot),
            Err(e) => h matches HandOver::End(s) && s.code == Code::Internal && s.message == e,
        },
{
    match taken {
        Ok(None) => HandOver::Nothing,
        Ok(Some(snapshot)) => HandOver::Deliver(snapshot),
        Err(message) => HandOver::End(RpcStatus { code: Code::Internal, message }),
    }
}

/// The end of a stream whose stored revision does not parse as a worker
/// config: `INTERNAL`, naming the parse error.
pub fn unreadable_revision(error: &str) -> (s: RpcStatus)
    ensures
        s.code == Code::Internal,
        s.message@ == "stored revision does not parse: "@ + error@,
{
    proof {
        reveal_strlit("stored revision does not parse: ");
    }
    RpcStatus {
        code: Code::Internal,
        message: String::from_str("stored revision does not parse: ").concat(error),
    }
}

/// The one message a delivered revision becomes: its number, its text and
/// its certificate files, and no keep-alive.
pub fn revision_message(snapshot: ConfigSnapshot, files: Vec<CertificateFile>) -> (m: ConfigRevisionWire)
    ensures
        m.revision == snapshot.revision,
        m.toml == snapshot.toml,
        m.files@ == files@,
        !m.keep_alive,
{
    ConfigRevisionWire { revision: snapshot.revision, toml: snapshot.toml, files, keep_alive: false }
}

/// The empty message that keeps a silent stream open through proxies.
pub fn keep_alive_message() -> (m: ConfigRevisionWire)
    ensures
        m.keep_alive,
        m.revision == 0,
        m.toml@.len() == 0,
        m.files@.len() == 0,
{
    ConfigRevisionWire { revision: 0, toml: String::new(), files: Vec::new(), keep_alive: true }
}

} // verus!
