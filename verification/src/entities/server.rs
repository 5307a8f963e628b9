//! Servers: the machines a worker runs on, with the addresses peers dial them
//! at, their QUIC link settings and the session bookkeeping of their worker.
use crate::clock::{
    clamped_micros, format_rfc3339_nanos, micros_of_nanos, parse_rfc3339_nanos, time_rfc3339_format,
    time_rfc3339_parse, Timestamp,
};
use crate::entities::canvas::{copy_opt_text, CanvasFence, CanvasId, CanvasUiPosition};
use crate::entities::health::ServerHealthStatus;
use crate::entities::pod::opt_text;
use crate::net::{ipv4_text, IpAddress, Ipv4, Ipv6};
use crate::text::text_eq;
use vstd::prelude::*;

verus! {

/// The record key of an `orchestration_server` row.
pub type ServerId = String;

/// The conflict reported when a server that still has pods is deleted.
pub const SERVER_HAS_PODS: &'static str = "server still has pods; delete them first";

#[derive(Debug, Clone)]
pub struct ServerEntity {
    pub id: ServerId,
    pub canvas: CanvasId,
    pub name: String,
    pub icon: String,
    pub comment: String,
    pub position: CanvasUiPosition,
    pub ipv6_resolve: ServerIpv6Resolve,
    pub log_level: ServerLogLevel,
    /// This server's side of every QUIC relay link it takes part in.
    pub quic: ServerQuic,
    pub current_dynamic_refresh_key: Option<String>,
    pub refresh_key_generation: i64,
    /// Monotonic claim counter for the single live `WatchConfig` stream.
    pub watch_epoch: i64,
    /// While this is in the future, one worker session owns the server.
    pub session_lease_until: Option<Timestamp>,
    pub registered_at: Option<Timestamp>,
    pub last_seen_at: Option<Timestamp>,
    /// When the last health report was accepted.
    pub last_health_report_at: Option<Timestamp>,
    /// Current liveness; `Offline` until a worker reports.
    pub health_status: ServerHealthStatus,
    /// Operator-pinned IPv4 / IPv6; wins over whatever the worker reports.
    pub override_v4: Option<String>,
    pub override_v6: Option<String>,
    /// Further addresses the operator added; pods may advertise one of them.
    pub extra_addresses: Vec<String>,
    /// What the worker last reported about itself.
    pub reported_addresses: Option<ReportedAddresses>,
    /// The peer address the master saw the last registration come from.
    pub observed_address: Option<String>,
    pub observed_at: Option<Timestamp>,
    pub agent_version: Option<String>,
    pub agent_arch: Option<String>,
    /// The systemd instance the install command creates.
    pub agent_unit: Option<String>,
    /// A pending self-update: the version the operator asked the worker to move to.
    pub agent_update_requested: Option<String>,
    pub agent_update_error: Option<String>,
    /// SHA-256 of the server's own agent key; only the digest is stored.
    pub agent_key_digest: Option<String>,
    pub agent_key_issued_at: Option<Timestamp>,
    /// ISO 3166-1 alpha-2 country of `country_address`, as the master looked it up.
    pub country: Option<String>,
    /// The IPv4 address `country` belongs to.
    pub country_address: Option<String>,
    pub country_checked_at: Option<Timestamp>,
    /// What the server's worker reads beyond the config every worker reads.
    pub capabilities: Vec<String>,
}

/// The address set a worker discovers about itself.
#[derive(Debug, Clone)]
pub struct ReportedAddresses {
    pub public_v4: Option<String>,
    pub public_v6: Option<String>,
    pub interfaces: Vec<String>,
    pub reported_at: Timestamp,
}

impl ReportedAddresses {
    /// The instant a stored report's `reported_at` text names. The stored
    /// report keeps it as RFC 3339, read and written through `time`; the
    /// instant is kept in whole microseconds, rounded down.
    pub fn reported_at_from_stored(text: &str) -> (r: Result<Timestamp, String>)
        ensures
            time_rfc3339_parse(text@) matches Ok(n) ==> r == Ok::<Timestamp, String>(
                clamped_micros(n),
            ),
            time_rfc3339_parse(text@) matches Err(e) ==> (r matches Err(m) && m@ == e),
    {
        match parse_rfc3339_nanos(text) {
            Ok(nanos) => Ok(micros_of_nanos(nanos)),
            Err(e) => Err(e),
        }
    }

    /// The `reported_at` text of the stored report: the instant in RFC 3339,
    /// in UTC, as `time` writes it.
    pub fn reported_at_stored(&self) -> (r: Result<String, String>)
        ensures
            match r {
                Ok(t) => time_rfc3339_format((self.reported_at * 1000) as i128) == Ok::<Seq<char>, Seq<char>>(t@),
                Err(e) => time_rfc3339_format((self.reported_at * 1000) as i128) == Err::<Seq<char>, Seq<char>>(e@),
            },
    {
        format_rfc3339_nanos(self.reported_at as i128 * 1000)
    }
}

pub open spec fn texts_of(v: Seq<String>) -> Seq<Seq<char>> {
    v.map_values(|s: String| s@)
}

pub open spec fn same_reported(a: ReportedAddresses, b: ReportedAddresses) -> bool {
    &&& opt_text(a.public_v4) == opt_text(b.public_v4)
    &&& opt_text(a.public_v6) == opt_text(b.public_v6)
    &&& texts_of(a.interfaces@) == texts_of(b.interfaces@)
}

pub(crate) fn opt_text_eq(a: &Option<String>, b: &Option<String>) -> (r: bool)
    ensures
        r == (opt_text(*a) == opt_text(*b)),
{
    match (a, b) {
        (Some(x), Some(y)) => *x == *y,
        (None, None) => true,
        _ => false,
    }
}

fn texts_eq(a: &Vec<String>, b: &Vec<String>) -> (r: bool)
    ensures
        r == (texts_of(a@) == texts_of(b@)),
{
    if a.len() != b.len() {
        assert(texts_of(a@).len() != texts_of(b@).len());
        return false;
    }
    let mut i: usize = 0;
    while i < a.len()
        invariant
            a@.len() == b@.len(),
            i <= a@.len(),
            forall|k: int| 0 <= k < i ==> a@[k]@ == b@[k]@,
        decreases a@.len() - i,
    {
        if a[i] != b[i] {
            assert(texts_of(a@)[i as int] != texts_of(b@)[i as int]);
            return false;
        }
        i = i + 1;
    }
    assert(texts_of(a@) =~= texts_of(b@));
    true
}

impl ReportedAddresses {
    /// Same addresses, whenever they were reported.
    pub fn same_addresses(&self, other: &Self) -> (r: bool)
        ensures
            r == same_reported(*self, *other),
    {
        opt_text_eq(&self.public_v4, &other.public_v4) && opt_text_eq(
            &self.public_v6,
            &other.public_v6,
        ) && texts_eq(&self.interfaces, &other.interfaces)
    }
}

/// Where a server's effective address came from.
#[derive(Debug, Clone, Copy, PartialEq, Eq, Structural)]
pub enum AddressSource {
    Override,
    Reported,
    Observed,
}

/// What each address slot of a server holds, as `std::net` parses it: `None`
/// for a slot that is empty or not an IP literal.
#[derive(Debug, Clone, Copy)]
pub struct AddressSlots {
    pub override_v4: Option<IpAddress>,
    pub reported_v4: Option<IpAddress>,
    pub observed: Option<IpAddress>,
    pub override_v6: Option<IpAddress>,
    pub reported_v6: Option<IpAddress>,
}

pub open spec fn keep_v4(ip: Option<IpAddress>) -> Option<IpAddress> {
    match ip {
        Some(IpAddress::V4(a)) => Some(IpAddress::V4(a)),
        _ => None,
    }
}

pub open spec fn keep_v6(ip: Option<IpAddress>) -> Option<IpAddress> {
    match ip {
        Some(IpAddress::V6(a)) => Some(IpAddress::V6(a)),
        _ => None,
    }
}

/// Every address a peer could dial, most preferred first: the IPv4 override,
/// the reported public IPv4, the observed address when it is IPv4, then the
/// same chain for IPv6.
pub open spec fn address_chain(s: AddressSlots) -> Seq<(Option<IpAddress>, AddressSource)> {
    seq![
        (s.override_v4, AddressSource::Override),
        (s.reported_v4, AddressSource::Reported),
        (keep_v4(s.observed), AddressSource::Observed),
        (s.override_v6, AddressSource::Override),
        (s.reported_v6, AddressSource::Reported),
        (keep_v6(s.observed), AddressSource::Observed),
    ]
}

/// The first slot of the chain that holds an address.
pub open spec fn first_address(c: Seq<(Option<IpAddress>, AddressSource)>) -> Option<
    (IpAddress, AddressSource),
>
    decreases c.len(),
{
    if c.len() == 0 {
        None
    } else if c[0].0 is Some {
        Some((c[0].0->0, c[0].1))
    } else {
        first_address(c.drop_first())
    }
}

/// The first IPv4 address of the chain.
pub open spec fn first_v4(c: Seq<(Option<IpAddress>, AddressSource)>) -> Option<Ipv4>
    decreases c.len(),
{
    if c.len() == 0 {
        None
    } else {
        match c[0].0 {
            Some(IpAddress::V4(a)) => Some(a),
            _ => first_v4(c.drop_first()),
        }
    }
}

/// The first IPv6 address of the chain.
pub open spec fn first_v6(c: Seq<(Option<IpAddress>, AddressSource)>) -> Option<Ipv6>
    decreases c.len(),
{
    if c.len() == 0 {
        None
    } else {
        match c[0].0 {
            Some(IpAddress::V6(a)) => Some(a),
            _ => first_v6(c.drop_first()),
        }
    }
}

impl AddressSlots {
    /// Every address a peer could dial, most preferred first.
    fn address_candidates(&self) -> (c: Vec<(Option<IpAddress>, AddressSource)>)
        ensures
            c@ == address_chain(*self),
    {
        let observed_v4 = match self.observed {
            Some(IpAddress::V4(a)) => Some(IpAddress::V4(a)),
            _ => None,
        };
        let observed_v6 = match self.observed {
            Some(IpAddress::V6(a)) => Some(IpAddress::V6(a)),
            _ => None,
        };
        let c = vec![
            (self.override_v4, AddressSource::Override),
            (self.reported_v4, AddressSource::Reported),
            (observed_v4, AddressSource::Observed),
            (self.override_v6, AddressSource::Override),
            (self.reported_v6, AddressSource::Reported),
            (observed_v6, AddressSource::Observed),
        ];
        assert(c@ =~= address_chain(*self));
        c
    }

    /// The address other servers dial by default: the IPv4 override, else the
    /// reported public IPv4, else the address the master observed, else the
    /// same chain for IPv6.
    pub fn effective_address(&self) -> (r: Option<(IpAddress, AddressSource)>)
        ensures
            r == first_address(address_chain(*self)),
            self.override_v4 matches Some(a) ==> r == Some((a, AddressSource::Override)),
            self.override_v4 is None ==> (self.reported_v4 matches Some(a) ==> r == Some(
                (a, AddressSource::Reported),
            )),
    {
        proof {
            lemma_overrides_win(*self);
        }
        let c = self.address_candidates();
        let mut i: usize = 0;
        assert(c@.skip(0) =~= c@);
        while i < c.len()
            invariant
                i <= c@.len(),
                c@ == address_chain(*self),
                first_address(c@) == first_address(c@.skip(i as int)),
            decreases c@.len() - i,
        {
            assert(c@.skip(i as int).drop_first() =~= c@.skip(i + 1));
            match c[i].0 {
                Some(a) => {
                    proof {
                        lemma_overrides_win(*self);
                    }
                    assert(first_address(c@.skip(i as int)) == Some((a, c[i as int].1)));
                    return Some((a, c[i].1));
                },
                None => {},
            }
            i = i + 1;
        }
        None
    }

    /// The server's IPv4 address: the first IPv4 of the same chain.
    pub fn v4_address(&self) -> (r: Option<Ipv4>)
        ensures
            r == first_v4(address_chain(*self)),
            self.override_v4 matches Some(IpAddress::V4(a)) ==> r == Some(a),
    {
        proof {
            lemma_overrides_win(*self);
        }
        let c = self.address_candidates();
        let mut i: usize = 0;
        assert(c@.skip(0) =~= c@);
        while i < c.len()
            invariant
                i <= c@.len(),
                c@ == address_chain(*self),
                first_v4(c@) == first_v4(c@.skip(i as int)),
            decreases c@.len() - i,
        {
            assert(c@.skip(i as int).drop_first() =~= c@.skip(i + 1));
            match c[i].0 {
                Some(IpAddress::V4(a)) => {
                    proof {
                        lemma_overrides_win(*self);
                    }
                    assert(first_v4(c@.skip(i as int)) == Some(a));
                    return Some(a);
                },
                _ => {},
            }
            i = i + 1;
        }
        None
    }

    /// The server's IPv6 address: the first IPv6 of the same chain.
    pub fn v6_address(&self) -> (r: Option<Ipv6>)
        ensures
            r == first_v6(address_chain(*self)),
            !(self.override_v4 matches Some(IpAddress::V6(_))) && !(self.reported_v4 matches Some(
                IpAddress::V6(_),
            )) ==> (self.override_v6 matches Some(IpAddress::V6(a)) ==> r == Some(a)),
    {
        proof {
            lemma_overrides_win(*self);
        }
        let c = self.address_candidates();
        let mut i: usize = 0;
        assert(c@.skip(0) =~= c@);
        while i < c.len()
            invariant
                i <= c@.len(),
                c@ == address_chain(*self),
                first_v6(c@) == first_v6(c@.skip(i as int)),
            decreases c@.len() - i,
        {
            assert(c@.skip(i as int).drop_first() =~= c@.skip(i + 1));
            match c[i].0 {
                Some(IpAddress::V6(a)) => {
                    proof {
                        lemma_overrides_win(*self);
                    }
                    assert(first_v6(c@.skip(i as int)) == Some(a));
                    return Some(a);
                },
                _ => {},
            }
            i = i + 1;
        }
        None
    }
}

/// An override wins: the IPv4 override, when set, is the effective address
/// and, when it is an IPv4 address, the server's IPv4 address; the IPv6
/// override is the server's IPv6 address unless an IPv4 slot ahead of it
/// holds an IPv6 address. Without the IPv4 override, a reported IPv4 beats
/// the observed address; with no override and nothing reported, the observed
/// address is the effective one.
pub proof fn lemma_overrides_win(s: AddressSlots)
    ensures
        s.override_v4 matches Some(a) ==> first_address(address_chain(s)) == Some(
            (a, AddressSource::Override),
        ),
        s.override_v4 is None ==> (s.reported_v4 matches Some(a) ==> first_address(
            address_chain(s),
        ) == Some((a, AddressSource::Reported))),
        s.override_v4 matches Some(IpAddress::V4(a)) ==> first_v4(address_chain(s)) == Some(a),
        !(s.override_v4 matches Some(IpAddress::V6(_))) && !(s.reported_v4 matches Some(
            IpAddress::V6(_),
        )) ==> (s.override_v6 matches Some(IpAddress::V6(a)) ==> first_v6(address_chain(s))
            == Some(a)),
        s.override_v4 is None && s.reported_v4 is None && s.override_v6 is None && s.reported_v6
            is None ==> first_address(address_chain(s)) == match s.observed {
            Some(a) => Some((a, AddressSource::Observed)),
            None => None,
        },
{
    let c = address_chain(s);
    assert(c[0] == (s.override_v4, AddressSource::Override));
    assert(c[1] == (s.reported_v4, AddressSource::Reported));
    assert(c[2] == (keep_v4(s.observed), AddressSource::Observed));
    assert(c[3] == (s.override_v6, AddressSource::Override));
    assert(c[4] == (s.reported_v6, AddressSource::Reported));
    assert(c[5] == (keep_v6(s.observed), AddressSource::Observed));
    reveal_with_fuel(first_address, 7);
    reveal_with_fuel(first_v4, 7);
    reveal_with_fuel(first_v6, 7);
    assert(c.drop_first()[0] == c[1]);
    assert(c.drop_first().drop_first()[0] == c[2]);
    assert(c.drop_first().drop_first().drop_first()[0] == c[3]);
    assert(c.drop_first().drop_first().drop_first().drop_first()[0] == c[4]);
    assert(c.drop_first().drop_first().drop_first().drop_first().drop_first()[0] == c[5]);
    assert(c.drop_first().drop_first().drop_first().drop_first().drop_first().drop_first().len() == 0);
}

/// A link is never tuned above what either side can do: with both rates
/// known, the rate is the smaller of the two; an unknown rate (`0`) yields to
/// the known one.
pub proof fn lemma_lower_rate_is_the_lower(mine: u32, theirs: u32)
    ensures
        mine != 0 && theirs != 0 ==> lower_rate(mine, theirs) <= mine && lower_rate(mine, theirs)
            <= theirs && (lower_rate(mine, theirs) == mine || lower_rate(mine, theirs) == theirs),
        mine == 0 ==> lower_rate(mine, theirs) == theirs,
        mine != 0 && theirs == 0 ==> lower_rate(mine, theirs) == mine,
{
}

impl ServerEntity {
    /// The looked-up country, only while it still belongs to the server's
    /// IPv4 address (`slots` being what the server's address slots parse to).
    pub fn country_of_v4(&self, slots: &AddressSlots) -> (r: Option<&String>)
        ensures
            r == (if first_v4(address_chain(*slots)) matches Some(v4) && self.country_address
                matches Some(a) && a@ == ipv4_text(v4) {
                match self.country {
                    Some(c) => Some(&c),
                    None => None,
                }
            } else {
                None
            }),
    {
        let v4 = match slots.v4_address() {
            Some(v4) => v4,
            None => {
                return None;
            },
        };
        let current = v4.to_text();
        match &self.country_address {
            Some(a) => {
                if *a == current {
                    match &self.country {
                        Some(c) => Some(c),
                        None => None,
                    }
                } else {
                    None
                }
            },
            None => None,
        }
    }
}

/// The IPv6 policy a server's worker resolves names with.
#[derive(Debug, Clone, Copy, PartialEq, Eq, Structural)]
pub enum ServerIpv6Resolve {
    Required,
    Preferred,
    Tolerated,
    Forbidden,
}

pub open spec fn ipv6_resolve_spelling(v: ServerIpv6Resolve) -> Seq<char> {
    match v {
        ServerIpv6Resolve::Required => "required"@,
        ServerIpv6Resolve::Preferred => "preferred"@,
        ServerIpv6Resolve::Tolerated => "tolerated"@,
        ServerIpv6Resolve::Forbidden => "forbidden"@,
    }
}

impl ServerIpv6Resolve {
    /// The stored spelling.
    pub fn as_str(self) -> (s: &'static str)
        ensures
            s@ == ipv6_resolve_spelling(self),
    {
        match self {
            ServerIpv6Resolve::Required => "required",
            ServerIpv6Resolve::Preferred => "preferred",
            ServerIpv6Resolve::Tolerated => "tolerated",
            ServerIpv6Resolve::Forbidden => "forbidden",
        }
    }

    /// The policy a stored spelling names; `None` for any other text.
    pub fn from_stored(text: &str) -> (r: Option<Self>)
        ensures
            r matches Some(v) ==> ipv6_resolve_spelling(v) == text@,
            r is None ==> forall|v: ServerIpv6Resolve| ipv6_resolve_spelling(v) != text@,
    {
        if text_eq(text, "required") {
            Some(ServerIpv6Resolve::Required)
        } else if text_eq(text, "preferred") {
            Some(ServerIpv6Resolve::Preferred)
        } else if text_eq(text, "tolerated") {
            Some(ServerIpv6Resolve::Tolerated)
        } else if text_eq(text, "forbidden") {
            Some(ServerIpv6Resolve::Forbidden)
        } else {
            None
        }
    }
}

/// The level a server's worker logs at, written into its config as `[log] level`.
#[derive(Debug, Clone, Copy, PartialEq, Eq, Structural)]
pub enum ServerLogLevel {
    Trace,
    Debug,
    Info,
    Warn,
    Error,
}

pub open spec fn log_level_spelling(v: ServerLogLevel) -> Seq<char> {
    match v {
        ServerLogLevel::Trace => "trace"@,
        ServerLogLevel::Debug => "debug"@,
        ServerLogLevel::Info => "info"@,
        ServerLogLevel::Warn => "warn"@,
        ServerLogLevel::Error => "error"@,
    }
}

impl ServerLogLevel {
    /// The stored spelling.
    pub fn as_str(self) -> (s: &'static str)
        ensures
            s@ == log_level_spelling(self),
    {
        match self {
            ServerLogLevel::Trace => "trace",
            ServerLogLevel::Debug => "debug",
            ServerLogLevel::Info => "info",
            ServerLogLevel::Warn => "warn",
            ServerLogLevel::Error => "error",
        }
    }

    /// The level a stored spelling names; `None` for any other text.
    pub fn from_stored(text: &str) -> (r: Option<Self>)
        ensures
            r matches Some(v) ==> log_level_spelling(v) == text@,
            r is None ==> forall|v: ServerLogLevel| log_level_spelling(v) != text@,
    {
        if text_eq(text, "trace") {
            Some(ServerLogLevel::Trace)
        } else if text_eq(text, "debug") {
            Some(ServerLogLevel::Debug)
        } else if text_eq(text, "info") {
            Some(ServerLogLevel::Info)
        } else if text_eq(text, "warn") {
            Some(ServerLogLevel::Warn)
        } else if text_eq(text, "error") {
            Some(ServerLogLevel::Error)
        } else {
            None
        }
    }
}

/// How a server sends on its QUIC relay links.
#[derive(Debug, Clone, Copy, PartialEq, Eq, Structural)]
pub enum QuicCongestion {
    /// quinn's Cubic: probes for bandwidth, backs off on loss.
    Cubic,
    /// Hysteria's brutal: sends at `up_mbps` whatever the path does.
    Brutal,
}

impl Default for QuicCongestion {
    fn default() -> (c: Self)
        ensures
            c == QuicCongestion::Cubic,
    {
        QuicCongestion::Cubic
    }
}

/// A server's side of every QUIC relay link it takes part in. Every field has
/// a zero default, meaning "quinn's defaults".
#[derive(Debug, Clone, Copy, PartialEq, Eq, Structural)]
pub struct ServerQuic {
    pub congestion: QuicCongestion,
    /// Send rate toward every QUIC peer, Mbit/s. `0` = unknown.
    pub up_mbps: u32,
    /// Receive rate from every QUIC peer, Mbit/s. `0` = unknown.
    pub down_mbps: u32,
    /// Per-stream receive window in bytes; `0` derives it from `down_mbps`.
    pub stream_receive_window: u64,
    /// Whole-connection receive window in bytes; `0` leaves it unlimited.
    pub conn_receive_window: u64,
}

impl Default for ServerQuic {
    fn default() -> (q: Self)
        ensures
            q == (ServerQuic {
                congestion: QuicCongestion::Cubic,
                up_mbps: 0,
                down_mbps: 0,
                stream_receive_window: 0,
                conn_receive_window: 0,
            }),
    {
        ServerQuic {
            congestion: QuicCongestion::Cubic,
            up_mbps: 0,
            down_mbps: 0,
            stream_receive_window: 0,
            conn_receive_window: 0,
        }
    }
}

/// One side of a QUIC link as the worker config states it.
#[derive(Debug, Clone, Copy, PartialEq, Eq, Structural)]
pub struct QuicTuning {
    pub congestion: QuicCongestion,
    pub send_mbps: u32,
    pub receive_mbps: u32,
    pub max_streams: u32,
    pub stream_receive_window: u64,
    pub receive_window: u64,
    pub send_window: u64,
}

/// The lower of two rates, where `0` means "unknown" and yields to the other.
pub open spec fn lower_rate(mine: u32, theirs: u32) -> u32 {
    if mine == 0 {
        theirs
    } else if theirs == 0 {
        mine
    } else if mine <= theirs {
        mine
    } else {
        theirs
    }
}

fn lower(mine: u32, theirs: u32) -> (r: u32)
    ensures
        r == lower_rate(mine, theirs),
        mine != 0 && theirs != 0 ==> r <= mine && r <= theirs && (r == mine || r == theirs),
        mine == 0 ==> r == theirs,
        mine != 0 && theirs == 0 ==> r == mine,
{
    if mine == 0 {
        theirs
    } else if theirs == 0 {
        mine
    } else if mine <= theirs {
        mine
    } else {
        theirs
    }
}

pub const BRUTAL_NEEDS_UP_MBPS: &'static str = "quic: brutal congestion control needs up_mbps";

impl ServerQuic {
    /// Brutal without a send rate would send at nothing.
    pub fn validate(&self) -> (r: Result<(), &'static str>)
        ensures
            r is Err <==> self.congestion == QuicCongestion::Brutal && self.up_mbps == 0,
            r matches Err(e) ==> e == BRUTAL_NEEDS_UP_MBPS,
    {
        if self.congestion == QuicCongestion::Brutal && self.up_mbps == 0 {
            return Err(BRUTAL_NEEDS_UP_MBPS);
        }
        Ok(())
    }

    /// This server's side of a link with `peer`: it sends at the lower of its
    /// own up rate and the peer's down rate, and sizes its windows for the
    /// lower of its own down rate and the peer's up rate. Windows the operator
    /// pinned stay pinned. Without a peer its own numbers stand.
    pub fn tuning(&self, peer: Option<&ServerQuic>) -> (t: QuicTuning)
        ensures
            t.congestion == self.congestion,
            t.send_mbps == match peer {
                Some(p) => lower_rate(self.up_mbps, p.down_mbps),
                None => self.up_mbps,
            },
            t.receive_mbps == match peer {
                Some(p) => lower_rate(self.down_mbps, p.up_mbps),
                None => self.down_mbps,
            },
            peer matches Some(p) ==> (self.up_mbps != 0 && p.down_mbps != 0 ==> t.send_mbps
                <= self.up_mbps && t.send_mbps <= p.down_mbps),
            peer matches Some(p) ==> (self.down_mbps != 0 && p.up_mbps != 0 ==> t.receive_mbps
                <= self.down_mbps && t.receive_mbps <= p.up_mbps),
            t.max_streams == 0,
            t.stream_receive_window == self.stream_receive_window,
            t.receive_window == self.conn_receive_window,
            t.send_window == 0,
    {
        let (send_mbps, receive_mbps) = match peer {
            Some(peer) => (lower(self.up_mbps, peer.down_mbps), lower(self.down_mbps, peer.up_mbps)),
            None => (self.up_mbps, self.down_mbps),
        };
        QuicTuning {
            congestion: self.congestion,
            send_mbps,
            receive_mbps,
            max_streams: 0,
            stream_receive_window: self.stream_receive_window,
            receive_window: self.conn_receive_window,
            send_window: 0,
        }
    }
}

pub struct CreateServer {
    pub canvas: CanvasId,
    pub name: String,
    pub icon: String,
    pub comment: String,
    pub position: CanvasUiPosition,
    pub ipv6_resolve: ServerIpv6Resolve,
    pub log_level: ServerLogLevel,
    pub override_v4: Option<String>,
    pub override_v6: Option<String>,
    pub extra_addresses: Vec<String>,
}

#[derive(Debug)]
pub struct FindServerById {
    pub id: ServerId,
}

/// Every server of every canvas, for the fleet-wide passes.
#[derive(Debug)]
pub struct ListAllServers;

/// Records a country lookup: `country` (or `None` when it failed) for the IPv4
/// `address`, made at `checked_at`.
#[derive(Debug)]
pub struct SetServerCountry {
    pub server: ServerId,
    pub address: Option<String>,
    pub country: Option<String>,
    pub checked_at: Option<Timestamp>,
}

#[derive(Debug)]
pub struct ListServersByCanvas {
    pub canvas: CanvasId,
}

pub struct UpdateServerSettings {
    pub id: ServerId,
    pub canvas: CanvasId,
    pub name: String,
    pub icon: String,
    pub comment: String,
    pub ipv6_resolve: ServerIpv6Resolve,
    pub log_level: ServerLogLevel,
    pub quic: ServerQuic,
    pub override_v4: Option<String>,
    pub override_v6: Option<String>,
    pub extra_addresses: Vec<String>,
    /// The systemd instance the install command targets; `None` clears it.
    pub agent_unit: Option<String>,
    /// The snapshot the edit was validated against, fencing the write.
    pub fence: Option<CanvasFence>,
}

/// Issues (or replaces) a server's own agent key; only its digest is stored.
#[derive(Debug)]
pub struct SetServerAgentKey {
    pub id: ServerId,
    pub digest: String,
    pub unit: String,
    pub now: Timestamp,
}

/// Marks the published release as what this server's worker should move to.
#[derive(Debug)]
pub struct SetAgentUpdateRequested {
    pub id: ServerId,
    pub version: String,
}

/// Settles a pending self-update from what the worker reports.
#[derive(Debug)]
pub struct SettleAgentUpdate {
    pub id: ServerId,
    pub reported_version: Option<String>,
    pub error: Option<String>,
}

/// The server whose agent key has this digest.
pub struct FindServerByAgentKeyDigest {
    pub digest: String,
}

pub struct MoveServerPosition {
    pub id: ServerId,
    pub position: CanvasUiPosition,
}

/// Deletes a server with its config view and health history; refused while
/// any pod is still placed on it.
#[derive(Debug)]
pub struct DeleteServerRow {
    pub id: ServerId,
    pub canvas: CanvasId,
    /// The snapshot the delete was validated against, fencing the write.
    pub fence: Option<CanvasFence>,
}

impl DeleteServerRow {
    /// The verdict on the pod count the delete found under the root's lock.
    pub fn check_pods(pods: i64) -> (r: Result<(), &'static str>)
        ensures
            r is Err <==> pods > 0,
            r matches Err(e) ==> e == SERVER_HAS_PODS,
    {
        if pods > 0 {
            Err(SERVER_HAS_PODS)
        } else {
            Ok(())
        }
    }
}

/// Takes the server's session lease and reconciles what the worker reports it
/// runs with the server's config view.
#[derive(Debug)]
pub struct RegisterWorkerSession {
    pub server: ServerId,
    pub digest: String,
    pub now: Timestamp,
    /// The lease deadline the new session gets.
    pub lease_until: Timestamp,
    /// The revision the worker says it is running; `0` for a fresh worker.
    pub running_revision: i64,
    /// The peer address this registration arrived from, if known.
    pub observed: Option<String>,
    /// What the worker reported about its addresses; `None` keeps the stored set.
    pub reported: Option<ReportedAddresses>,
    pub agent_version: Option<String>,
    pub agent_arch: Option<String>,
    pub capabilities: Vec<String>,
}

/// The revisions of the three snapshot slots of a view row, as a registration
/// reads them.
#[derive(Debug, Clone, Copy)]
pub struct ViewSlots {
    pub desired: Option<i64>,
    pub in_flight: Option<i64>,
    pub applied: Option<i64>,
}

/// How a registration repairs the view row from the revision the worker runs.
#[derive(Debug, Clone, Copy, PartialEq, Eq, Structural)]
pub enum ViewRepair {
    /// The worker runs `desired`: it becomes `applied`, errors cleared.
    PromoteDesired,
    /// The worker runs `in_flight`: it becomes `applied`, errors cleared.
    PromoteInFlight,
    /// The worker runs what `applied` already says.
    KeepApplied,
    /// The worker runs a revision no slot holds: recorded as an apply error.
    UnknownRevision(i64),
    /// The worker runs nothing: `applied` and its failure state are forgotten.
    ForgetApplied,
}

impl RegisterWorkerSession {
    /// The repair a registration makes: a running revision that matches
    /// `desired` or `in_flight` is promoted to `applied`, one that matches
    /// `applied` leaves it, any other is recorded as unknown, and a running
    /// revision of `0` or less forgets `applied`. Whatever was in flight is
    /// cleared in every case.
    pub fn repair(&self, slots: ViewSlots) -> (r: ViewRepair)
        ensures
            r == (if self.running_revision <= 0 {
                ViewRepair::ForgetApplied
            } else if slots.desired == Some(self.running_revision) {
                ViewRepair::PromoteDesired
            } else if slots.in_flight == Some(self.running_revision) {
                ViewRepair::PromoteInFlight
            } else if slots.applied == Some(self.running_revision) {
                ViewRepair::KeepApplied
            } else {
                ViewRepair::UnknownRevision(self.running_revision)
            }),
    {
        let running = self.running_revision;
        if running > 0 {
            if slots.desired == Some(running) {
                ViewRepair::PromoteDesired
            } else if slots.in_flight == Some(running) {
                ViewRepair::PromoteInFlight
            } else if slots.applied != Some(running) {
                ViewRepair::UnknownRevision(running)
            } else {
                ViewRepair::KeepApplied
            }
        } else {
            ViewRepair::ForgetApplied
        }
    }
}

/// Replaces a server's reported address set with what a live session just
/// discovered; fenced on the refresh-key generation.
#[derive(Debug)]
pub struct UpdateReportedAddresses {
    pub server: ServerId,
    pub generation: i64,
    pub reported: ReportedAddresses,
}

impl UpdateReportedAddresses {
    /// Whether the write changes anything, given the server's current
    /// generation and stored set (`None` when the server is gone): only for
    /// the session that owns the server, and only when the addresses differ.
    pub fn changes(&self, current: Option<(i64, &Option<ReportedAddresses>)>) -> (r: bool)
        ensures
            r <==> (current matches Some((generation, stored)) && generation == self.generation
                && !(stored matches Some(s) && same_reported(*s, self.reported))),
    {
        let (generation, stored) = match current {
            Some(c) => c,
            None => {
                return false;
            },
        };
        if generation != self.generation {
            return false;
        }
        match stored {
            Some(s) => !s.same_addresses(&self.reported),
            None => true,
        }
    }
}

/// Claims the single live `WatchConfig` session of one server.
#[derive(Debug)]
pub struct ClaimServerWatchSession {
    pub server: ServerId,
    /// The generation the claiming stream authenticated with.
    pub generation: i64,
    pub now: Timestamp,
    pub lease_until: Timestamp,
}

/// The heartbeat of a live stream: extends the lease while the fence is still ours.
#[derive(Debug)]
pub struct RenewServerWatchSession {
    pub server: ServerId,
    pub generation: i64,
    pub epoch: i64,
    pub now: Timestamp,
    pub lease_until: Timestamp,
}

/// Drops the lease when a stream ends cleanly.
#[derive(Debug)]
pub struct ReleaseServerWatchSession {
    pub server: ServerId,
    pub generation: i64,
    pub epoch: i64,
}

/// Takes the watch session away from every offline server whose registration
/// older than `registered_before` never reported.
#[derive(Debug)]
pub struct RevokeSilentWatchSessions {
    pub now: Timestamp,
    /// Only a registration strictly older than this has been silent long enough.
    pub registered_before: Timestamp,
}

pub struct FindServerByRefreshKeyDigest {
    pub digest: String,
}

pub struct FindCanvasOfServer {
    pub server: ServerId,
}

/// An `orchestration_server` row, one field per column, before
/// [`ServerEntity`] gathers the two position columns.
#[derive(Debug)]
pub struct ServerRow {
    pub id: ServerId,
    pub canvas: CanvasId,
    pub name: String,
    pub icon: String,
    pub comment: String,
    pub position_x: i64,
    pub position_y: i64,
    pub ipv6_resolve: ServerIpv6Resolve,
    pub log_level: ServerLogLevel,
    pub quic: ServerQuic,
    pub current_dynamic_refresh_key: Option<String>,
    pub refresh_key_generation: i64,
    pub watch_epoch: i64,
    pub session_lease_until: Option<Timestamp>,
    pub registered_at: Option<Timestamp>,
    pub last_seen_at: Option<Timestamp>,
    pub last_health_report_at: Option<Timestamp>,
    pub health_status: ServerHealthStatus,
    pub override_v4: Option<String>,
    pub override_v6: Option<String>,
    pub extra_addresses: Vec<String>,
    pub reported_addresses: Option<ReportedAddresses>,
    pub observed_address: Option<String>,
    pub observed_at: Option<Timestamp>,
    pub agent_version: Option<String>,
    pub agent_arch: Option<String>,
    pub agent_unit: Option<String>,
    pub agent_update_requested: Option<String>,
    pub agent_update_error: Option<String>,
    pub agent_key_digest: Option<String>,
    pub agent_key_issued_at: Option<Timestamp>,
    pub country: Option<String>,
    pub country_address: Option<String>,
    pub country_checked_at: Option<Timestamp>,
    pub capabilities: Vec<String>,
}

impl ServerRow {
    /// The entity the row stores.
    pub fn into_entity(self) -> (e: ServerEntity)
        ensures
            e == (ServerEntity {
                id: self.id,
                canvas: self.canvas,
                name: self.name,
                icon: self.icon,
                comment: self.comment,
                position: CanvasUiPosition { x: self.position_x, y: self.position_y },
                ipv6_resolve: self.ipv6_resolve,
                log_level: self.log_level,
                quic: self.quic,
                current_dynamic_refresh_key: self.current_dynamic_refresh_key,
                refresh_key_generation: self.refresh_key_generation,
                watch_epoch: self.watch_epoch,
                session_lease_until: self.session_lease_until,
                registered_at: self.registered_at,
                last_seen_at: self.last_seen_at,
                last_health_report_at: self.last_health_report_at,
                health_status: self.health_status,
                override_v4: self.override_v4,
                override_v6: self.override_v6,
                extra_addresses: self.extra_addresses,
                reported_addresses: self.reported_addresses,
                observed_address: self.observed_address,
                observed_at: self.observed_at,
                agent_version: self.agent_version,
                agent_arch: self.agent_arch,
                agent_unit: self.agent_unit,
                agent_update_requested: self.agent_update_requested,
                agent_update_error: self.agent_update_error,
                agent_key_digest: self.agent_key_digest,
                agent_key_issued_at: self.agent_key_issued_at,
                country: self.country,
                country_address: self.country_address,
                country_checked_at: self.country_checked_at,
                capabilities: self.capabilities,
            }),
    {
        ServerEntity {
            id: self.id,
            canvas: self.canvas,
            name: self.name,
            icon: self.icon,
            comment: self.comment,
            position: CanvasUiPosition { x: self.position_x, y: self.position_y },
            ipv6_resolve: self.ipv6_resolve,
            log_level: self.log_level,
            quic: self.quic,
            current_dynamic_refresh_key: self.current_dynamic_refresh_key,
            refresh_key_generation: self.refresh_key_generation,
            watch_epoch: self.watch_epoch,
            session_lease_until: self.session_lease_until,
            registered_at: self.registered_at,
            last_seen_at: self.last_seen_at,
            last_health_report_at: self.last_health_report_at,
            health_status: self.health_status,
            override_v4: self.override_v4,
            override_v6: self.override_v6,
            extra_addresses: self.extra_addresses,
            reported_addresses: self.reported_addresses,
            observed_address: self.observed_address,
            observed_at: self.observed_at,
            agent_version: self.agent_version,
            agent_arch: self.agent_arch,
            agent_unit: self.agent_unit,
            agent_update_requested: self.agent_update_requested,
            agent_update_error: self.agent_update_error,
            agent_key_digest: self.agent_key_digest,
            agent_key_issued_at: self.agent_key_issued_at,
            country: self.country,
            country_address: self.country_address,
            country_checked_at: self.country_checked_at,
            capabilities: self.capabilities,
        }
    }
}

} // verus!
