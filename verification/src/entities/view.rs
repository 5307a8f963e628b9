//! The per-server config view: what a server should run, what is in flight, and
//! what it is actually running.
//!
//! Exactly one row exists per server. Each of the three slots holds a whole
//! [`ConfigSnapshot`] — the rendered TOML plus the listener capabilities it
//! serves and points at — so convergence never has to re-derive a config from
//! rows that have since been edited in place.
use crate::clock::Timestamp;
use crate::entities::canvas::{first_canvas, CanvasId};
use crate::entities::graph::GraphRows;
use crate::entities::pod::PodId;
use crate::entities::server::ServerId;
use crate::text::text_eq;
use vstd::prelude::*;

verus! {

/// The record key of an `orchestration_server_config_view` row.
pub type ServerConfigViewId = String;

/// How a listener speaks to whoever dials it.
#[derive(Debug, Clone, Copy, PartialEq, Eq, Structural, Hash)]
pub enum ListenProtocol {
    Raw,
    RelayTcp,
    RelayTls,
    RelayQuic,
}

pub open spec fn listen_protocol_name(p: ListenProtocol) -> Seq<char> {
    match p {
        ListenProtocol::Raw => "raw"@,
        ListenProtocol::RelayTcp => "relay_tcp"@,
        ListenProtocol::RelayTls => "relay_tls"@,
        ListenProtocol::RelayQuic => "relay_quic"@,
    }
}

impl ListenProtocol {
    /// The stored spelling, for messages and tags.
    pub fn name(self) -> (s: &'static str)
        ensures
            s@ == listen_protocol_name(self),
    {
        match self {
            ListenProtocol::Raw => "raw",
            ListenProtocol::RelayTcp => "relay_tcp",
            ListenProtocol::RelayTls => "relay_tls",
            ListenProtocol::RelayQuic => "relay_quic",
        }
    }

    /// The protocol a stored spelling names; `None` for any other text.
    pub fn from_stored(text: &str) -> (r: Option<Self>)
        ensures
            r matches Some(p) ==> listen_protocol_name(p) == text@,
            r is None ==> forall|p: ListenProtocol| listen_protocol_name(p) != text@,
    {
        if text_eq(text, "raw") {
            Some(ListenProtocol::Raw)
        } else if text_eq(text, "relay_tcp") {
            Some(ListenProtocol::RelayTcp)
        } else if text_eq(text, "relay_tls") {
            Some(ListenProtocol::RelayTls)
        } else if text_eq(text, "relay_quic") {
            Some(ListenProtocol::RelayQuic)
        } else {
            None
        }
    }
}

/// The transport a worker listener binds.
#[derive(Debug, Clone, Copy, PartialEq, Eq, Structural, Hash)]
pub enum Transport {
    Tcp,
    Quic,
}

/// A listener another server can point at.
///
/// Identity is by content: the same server/port/protocol is the same capability
/// whichever pod produced it, and whatever address the server is dialed on
/// today. That is what lets a server keep serving a listener across an
/// unrelated edit (or an address change) while its dependants still reference
/// it.
#[derive(Debug, Clone)]
pub struct ListenerCap {
    pub server: ServerId,
    pub port: i64,
    pub protocol: ListenProtocol,
}

pub open spec fn transport_of(p: ListenProtocol) -> Transport {
    match p {
        ListenProtocol::RelayQuic => Transport::Quic,
        _ => Transport::Tcp,
    }
}

/// Same socket, different protocol.
pub open spec fn caps_conflict(a: ListenerCap, b: ListenerCap) -> bool {
    &&& a.server@ == b.server@
    &&& a.port == b.port
    &&& transport_of(a.protocol) == transport_of(b.protocol)
    &&& a.protocol != b.protocol
}

impl ListenerCap {
    /// Same socket, different protocol: the two cannot coexist on one worker,
    /// so a switch between them can never be made seamlessly.
    pub fn conflicts(&self, other: &Self) -> (r: bool)
        ensures
            r == caps_conflict(*self, *other),
    {
        self.server == other.server && self.port == other.port && self.transport()
            == other.transport() && self.protocol != other.protocol
    }

    /// The server's id as text, for messages and ordering.
    pub fn server_key(&self) -> (s: String)
        ensures
            s@ == self.server@,
    {
        self.server.clone()
    }

    pub fn transport(&self) -> (t: Transport)
        ensures
            t == transport_of(self.protocol),
    {
        match self.protocol {
            ListenProtocol::RelayQuic => Transport::Quic,
            _ => Transport::Tcp,
        }
    }
}

/// One `[[forwarding]]` entry's place in the dependency graph.
#[derive(Debug, Clone)]
pub struct ForwardingDeps {
    /// The pod this entry was compiled from; also the entry's tag.
    ///
    /// Identity, not diagnostics: it is how convergence finds the previous
    /// shape of a forwarding whose pod stopped compiling. A socket cannot serve
    /// that purpose, because the edit that broke the pod may also have moved it.
    pub pod: PodId,
    pub serves: ListenerCap,
    pub points_at: Vec<ListenerCap>,
    /// The certificates this entry's TOML references. A forwarding carried
    /// over from an older snapshot keeps its refs, so a synthesised snapshot's
    /// `certificates` is just the union over its entries.
    pub certificates: Vec<CertificateRef>,
}

/// A certificate a snapshot's TOML references, at the version it was derived
/// against. The material itself is fetched when the revision is handed to a
/// worker, so no key ever lives in a snapshot; the pinned version is what
/// makes a renewal a new revision even though the file paths do not change.
#[derive(Debug, Clone)]
pub struct CertificateRef {
    pub kind: CertificateKind,
    /// The record key of the `certificate` (ACME) or `relay_certificate` row.
    pub key: String,
    pub version: i64,
}

#[derive(Debug, Clone, Copy, PartialEq, Eq, Structural, PartialOrd, Ord)]
pub enum CertificateKind {
    /// Public ACME certificate, delivered as `certs/acme/<key>/{full_chain,key}.pem`.
    Acme,
    /// Relay leaf, delivered as `certs/relay/<key>/{full_chain,key}.pem`.
    Relay,
}

/// What a certificate reference pins, as plain values.
pub open spec fn cert_ref_view(c: CertificateRef) -> (CertificateKind, Seq<char>, i64) {
    (c.kind, c.key@, c.version)
}

/// What a list of certificate references pins, in order.
pub open spec fn cert_refs_view(refs: Seq<CertificateRef>) -> Seq<(CertificateKind, Seq<char>, i64)> {
    refs.map_values(|c: CertificateRef| cert_ref_view(c))
}

/// Whether two lists pin the same certificates at the same versions, in the
/// same order.
pub fn same_cert_refs(a: &Vec<CertificateRef>, b: &Vec<CertificateRef>) -> (r: bool)
    ensures
        r == (cert_refs_view(a@) == cert_refs_view(b@)),
{
    if a.len() != b.len() {
        proof {
            assert(cert_refs_view(a@).len() != cert_refs_view(b@).len());
        }
        return false;
    }
    let mut i: usize = 0;
    while i < a.len()
        invariant
            a@.len() == b@.len(),
            i <= a@.len(),
            forall|k: int| 0 <= k < i ==> cert_ref_view(#[trigger] a@[k]) == cert_ref_view(b@[k]),
        decreases a@.len() - i,
    {
        if a[i].kind != b[i].kind || a[i].key != b[i].key || a[i].version != b[i].version {
            proof {
                assert(cert_refs_view(a@)[i as int] != cert_refs_view(b@)[i as int]);
            }
            return false;
        }
        i = i + 1;
    }
    assert(cert_refs_view(a@) =~= cert_refs_view(b@));
    true
}

/// A pod the worker could not apply from the acknowledged revision.
#[derive(Debug, Clone)]
pub struct PodFailure {
    pub pod: PodId,
    /// The `[[forwarding]]` tag it was applied under.
    pub tag: String,
    pub error: String,
}

/// A pod that could not be compiled on its own (a certificate not issued yet,
/// a target without an address).
///
/// The rest of the server still compiles and is published; this is how an
/// operator learns which pod is broken and why. A pod listed here keeps
/// serving whatever its listener last was, so a missing certificate cannot
/// drop live traffic.
#[derive(Debug, Clone)]
pub struct InvalidPod {
    pub pod: PodId,
    /// The pod's name when it was compiled.
    pub name: String,
    /// The socket the pod would serve, as `ip:port`. Diagnostic only.
    pub listen: String,
    pub error: String,
}

/// An immutable rendering of one server's config.
#[derive(Debug, Clone)]
pub struct ConfigSnapshot {
    pub revision: i64,
    pub toml: String,
    pub created_at: Timestamp,
    /// Index-aligned with the `[[forwarding]]` entries of `toml`.
    pub forwardings: Vec<ForwardingDeps>,
    /// The certificates `toml` references. Sorted, so two snapshots asking for
    /// the same material compare equal.
    pub certificates: Vec<CertificateRef>,
}

#[derive(Debug, Clone)]
pub struct ServerConfigViewEntity {
    pub id: ServerConfigViewId,
    pub server: ServerId,
    /// The newest derivation. Never sent directly: a stream promotes it to
    /// `in_flight` with a conditional update.
    pub desired: Option<ConfigSnapshot>,
    /// Sent to the worker and not yet acknowledged. At most one at a time.
    pub in_flight: Option<ConfigSnapshot>,
    /// What the worker last told us it is running.
    pub applied: Option<ConfigSnapshot>,
    pub failed_revision: Option<i64>,
    /// Set when the last acknowledged revision could not be applied at all.
    pub apply_error: Option<String>,
    /// Pods of the last acknowledged revision that failed on the worker. The
    /// other pods run the revision; these keep their previous shape, and
    /// `applied` describes that mix.
    pub failed_pods: Vec<PodFailure>,
    pub derive_error: Option<String>,
    /// Pods that failed to derive while the rest of this server's config was
    /// published. Empty when `derive_error` is set: that is a whole-server
    /// failure.
    pub invalid_pods: Vec<InvalidPod>,
    /// Servers whose `applied` config does not yet serve a listener this
    /// server's ideal config points at.
    pub waiting_for: Vec<ServerId>,
    /// Bumped by every worker-driven write to this row (ack, registration,
    /// address report). Derivation stamps the tree's sum of these on the
    /// canvas as `derived_view_seq`, which is how a worker moves the fence
    /// without ever writing the canvas row.
    pub seq: i64,
}

#[derive(Debug)]
pub struct FindServerConfigView {
    pub server: ServerId,
}

/// The config views of every server on the given canvases (a whole tree).
#[derive(Debug)]
pub struct ListServerConfigViewsByCanvases {
    pub canvases: Vec<CanvasId>,
}

/// Hands `desired` to the calling stream by promoting it to `in_flight`.
///
/// The whole decision is one conditional update, so two streams can never be
/// sent the same revision and a fenced-out stream is sent nothing at all: the
/// fence is checked against the server row inside the same statement.
#[derive(Debug)]
pub struct TakeInFlight {
    pub server: ServerId,
    pub generation: i64,
    pub epoch: i64,
}

/// Promotes `in_flight` to `applied`, or records why the worker refused it.
///
/// Three outcomes: `error` set — the revision was not applied at all;
/// `applied` set — some pods failed and this is the synthesised mix the worker
/// actually runs (`failed_pods` names them, `failed_revision` is the acked
/// one); neither — every pod applied and `in_flight` is promoted as is.
///
/// The update carries no session fence, deliberately: an ack arrives on a
/// unary call authenticated by the refresh-key digest, and re-registration
/// rotates that digest, so a fenced-out worker cannot authenticate an ack at
/// all. Only this server's view row is written.
#[derive(Debug)]
pub struct AckServerConfig {
    pub server: ServerId,
    pub revision: i64,
    pub error: Option<String>,
    pub applied: Option<ConfigSnapshot>,
    pub failed_pods: Vec<PodFailure>,
}

/// The one write an acknowledgement makes.
#[derive(Debug, Clone)]
pub enum AckWrite {
    /// The revision was not applied at all: record the error.
    Refused { error: String },
    /// Some pods failed: `applied` is the mix the worker runs.
    Partial { applied: ConfigSnapshot, failed_revision: Option<i64>, failed_pods: Vec<PodFailure> },
    /// Every pod applied: promote `in_flight` as is.
    Applied,
}

impl AckServerConfig {
    /// The revision a partial acknowledgement records as failed: the acked
    /// one when some pod failed, none otherwise.
    pub open spec fn failed_revision_spec(&self) -> Option<i64> {
        if self.failed_pods@.len() > 0 {
            Some(self.revision)
        } else {
            None
        }
    }

    /// Which write the acknowledgement makes: an error wins, then a
    /// synthesised mix, else a plain promotion.
    pub fn write(self) -> (w: AckWrite)
        ensures
            self.error matches Some(e) ==> w == (AckWrite::Refused { error: e }),
            self.error is None && self.applied is Some ==> w == (AckWrite::Partial {
                applied: self.applied->0,
                failed_revision: self.failed_revision_spec(),
                failed_pods: self.failed_pods,
            }),
            self.error is None && self.applied is None ==> w == AckWrite::Applied,
    {
        let failed_revision = if self.failed_pods.len() > 0 {
            Some(self.revision)
        } else {
            None
        };
        match (self.error, self.applied) {
            (Some(error), _) => AckWrite::Refused { error },
            (None, Some(applied)) => AckWrite::Partial {
                applied,
                failed_revision,
                failed_pods: self.failed_pods,
            },
            (None, None) => AckWrite::Applied,
        }
    }
}

/// Clears a dead server's applied state so servers waiting on it can proceed.
#[derive(Debug)]
pub struct ForgetServerAppliedRow {
    pub server: ServerId,
    pub canvas: CanvasId,
}

/// What the watch poller compares between ticks.
#[derive(Debug, Clone, PartialEq, Eq)]
pub struct ServerWatchState {
    pub id: ServerId,
    pub refresh_key_generation: i64,
    pub watch_epoch: i64,
    pub desired_revision: Option<i64>,
    pub in_flight_revision: Option<i64>,
    pub applied_revision: Option<i64>,
    pub failed_revision: Option<i64>,
}

#[derive(Debug)]
pub struct ListServerWatchState {
    pub servers: Vec<ServerId>,
}

/// The sum of the views' `seq` counters.
pub open spec fn seq_total(views: Seq<ServerConfigViewEntity>) -> int
    decreases views.len(),
{
    if views.len() == 0 {
        0
    } else {
        seq_total(views.drop_last()) + views.last().seq
    }
}

/// Whether every partial sum of the views' `seq` counters fits an `i64`.
pub open spec fn seq_total_fits(views: Seq<ServerConfigViewEntity>) -> bool {
    forall|j: int| 0 <= j <= views.len() ==> i64::MIN <= #[trigger] seq_total(views.take(j)) <= i64::MAX
}

/// The tree's view `seq` sum: how far the workers of a tree have moved its
/// fence.
pub fn view_seq_total(views: &Vec<ServerConfigViewEntity>) -> (t: i64)
    requires
        seq_total_fits(views@),
    ensures
        t == seq_total(views@),
{
    let mut total: i64 = 0;
    let mut i: usize = 0;
    assert(views@.take(0) =~= Seq::<ServerConfigViewEntity>::empty());
    while i < views.len()
        invariant
            i <= views@.len(),
            seq_total_fits(views@),
            total == seq_total(views@.take(i as int)),
        decreases views@.len() - i,
    {
        proof {
            assert(views@.take(i + 1).drop_last() =~= views@.take(i as int));
            assert(i64::MIN <= seq_total(views@.take(i + 1)) <= i64::MAX);
        }
        total = total + views[i].seq;
        i = i + 1;
    }
    assert(views@.take(views@.len() as int) =~= views@);
    total
}

/// The root row's generation and derived generation, when the snapshot has one.
fn root_counters(graph: &GraphRows) -> (r: Option<(i64, i64)>)
    ensures
        match first_canvas(graph.canvases@, graph.root@) {
            None => r is None,
            Some(c) => r == Some((c.generation, c.derived_generation)),
        },
{
    let mut i: usize = 0;
    assert(graph.canvases@.skip(0) =~= graph.canvases@);
    while i < graph.canvases.len()
        invariant
            i <= graph.canvases@.len(),
            first_canvas(graph.canvases@, graph.root@) == first_canvas(
                graph.canvases@.skip(i as int),
                graph.root@,
            ),
        decreases graph.canvases@.len() - i,
    {
        proof {
            assert(graph.canvases@.skip(i as int)[0] == graph.canvases@[i as int]);
            assert(graph.canvases@.skip(i as int).drop_first() =~= graph.canvases@.skip(i + 1));
        }
        if graph.canvases[i].id == graph.root {
            return Some((graph.canvases[i].generation, graph.canvases[i].derived_generation));
        }
        i = i + 1;
    }
    None
}

/// Everything one derivation pass reads, in a single transaction. The counters
/// are the root's; the graph is the whole tree.
#[derive(Debug, Clone)]
pub struct DerivationInput {
    pub root: CanvasId,
    pub generation: i64,
    pub derived_generation: i64,
    /// The tree's view `seq` sum the last committed pass converged against.
    pub derived_view_seq: i64,
    /// The tree's view `seq` sum as this read saw it.
    pub view_seq: i64,
    pub graph: GraphRows,
    pub views: Vec<ServerConfigViewEntity>,
}

impl DerivationInput {
    /// The input of a pass over a tree read in one snapshot; `None` when the
    /// snapshot has no row for the root (the canvas has been deleted).
    pub fn from_rows(graph: GraphRows, derived_view_seq: i64, views: Vec<ServerConfigViewEntity>) -> (r: Option<
        DerivationInput,
    >)
        requires
            seq_total_fits(views@),
        ensures
            match first_canvas(graph.canvases@, graph.root@) {
                None => r is None,
                Some(c) => r matches Some(d) && d.root == graph.root && d.generation
                    == c.generation && d.derived_generation == c.derived_generation
                    && d.derived_view_seq == derived_view_seq && d.view_seq == seq_total(views@)
                    && d.graph == graph && d.views == views,
            },
    {
        let found = root_counters(&graph);
        match found {
            None => None,
            Some((generation, derived_generation)) => {
                let view_seq = view_seq_total(&views);
                Some(
                    DerivationInput {
                        root: graph.root.clone(),
                        generation,
                        derived_generation,
                        derived_view_seq,
                        view_seq,
                        graph,
                        views,
                    },
                )
            },
        }
    }

    /// Whether the tree's edits or its workers' acks outran the last committed
    /// pass: an up-to-date tree is left alone.
    pub fn needs_derivation(&self) -> (r: bool)
        ensures
            r == !(self.generation == self.derived_generation && self.view_seq
                == self.derived_view_seq),
    {
        !(self.generation == self.derived_generation && self.view_seq == self.derived_view_seq)
    }
}

/// Loads the derivation input of the tree containing `canvas`.
#[derive(Debug)]
pub struct LoadCanvasDerivationInput {
    pub canvas: CanvasId,
}

/// One server's outcome of a derivation pass.
///
/// `desired: None` means "leave the slot alone" — either the derivation failed
/// or it produced byte-identical TOML.
#[derive(Debug, Clone)]
pub struct ViewUpdate {
    pub server: ServerId,
    pub desired: Option<ConfigSnapshot>,
    pub derive_error: Option<String>,
    pub invalid_pods: Vec<InvalidPod>,
    pub waiting_for: Vec<ServerId>,
    /// A new desired revision clears the previous failure, so a fixed config is
    /// offered to the worker again.
    pub clear_failure: bool,
}

/// Commits a whole derivation pass, but only if the root canvas is still at
/// the generation it was derived from and no pass has published this state
/// before. `canvas` must be the tree's root; `view_seq` is the tree's view
/// `seq` sum the pass read.
#[derive(Debug)]
pub struct CommitCanvasDerivation {
    pub canvas: CanvasId,
    pub generation: i64,
    pub view_seq: i64,
    pub updates: Vec<ViewUpdate>,
}

/// The counters a root canvas carries: its edit generation, the generation
/// and view `seq` sum the last committed pass derived against.
#[derive(Debug, Clone, Copy, PartialEq, Eq, Structural)]
pub struct RootCounters {
    pub generation: i64,
    pub derived_generation: i64,
    pub derived_view_seq: i64,
}

/// Whether a pass that read the tree at `generation` with view `seq` sum
/// `view_seq` may commit over a root holding `root`: the root must still be at
/// the generation the pass read, and the pass must bring something new — a
/// generation or a view sum no pass has published yet.
pub open spec fn commit_passes(root: RootCounters, generation: i64, view_seq: i64) -> bool {
    &&& root.generation == generation
    &&& (root.derived_generation < generation || root.derived_view_seq < view_seq)
}

/// The root after a pass committed: levelled at what it derived.
pub open spec fn committed(root: RootCounters, view_seq: i64) -> RootCounters {
    RootCounters {
        generation: root.generation,
        derived_generation: root.generation,
        derived_view_seq: view_seq,
    }
}

impl CommitCanvasDerivation {
    /// The fence the commit's statement checks against the root row.
    pub fn passes(&self, root: RootCounters) -> (r: bool)
        ensures
            r == commit_passes(root, self.generation, self.view_seq),
    {
        root.generation == self.generation && (root.derived_generation < self.generation
            || root.derived_view_seq < self.view_seq)
    }

    /// The root's counters once this pass committed.
    pub fn committed(&self, root: RootCounters) -> (r: RootCounters)
        ensures
            r == committed(root, self.view_seq),
    {
        RootCounters {
            generation: root.generation,
            derived_generation: root.generation,
            derived_view_seq: self.view_seq,
        }
    }
}

/// Only the first of two passes that read the same state publishes: once one
/// committed, a second pass over the same generation and view sum finds
/// nothing new and is fenced out.
pub proof fn lemma_a_state_is_published_once(root: RootCounters, generation: i64, view_seq: i64)
    requires
        commit_passes(root, generation, view_seq),
    ensures
        !commit_passes(committed(root, view_seq), generation, view_seq),
{
}

/// A tree a pass skips as up to date could not have been committed anyway:
/// when its input needs no derivation, the fence over the counters it read
/// refuses a commit of that same read.
pub proof fn lemma_up_to_date_trees_are_skipped_safely(d: DerivationInput)
    requires
        d.generation == d.derived_generation,
        d.view_seq == d.derived_view_seq,
    ensures
        !commit_passes(
            RootCounters {
                generation: d.generation,
                derived_generation: d.derived_generation,
                derived_view_seq: d.derived_view_seq,
            },
            d.generation,
            d.view_seq,
        ),
{
}

/// A stale pass never overwrites a newer edit: a pass that read an older
/// generation than the root now holds is fenced out, whatever it derived.
pub proof fn lemma_a_stale_pass_is_fenced_out(root: RootCounters, generation: i64, view_seq: i64)
    requires
        generation < root.generation,
    ensures
        !commit_passes(root, generation, view_seq),
{
}

/// Canvases whose derivation is behind their edits or their workers' acks;
/// the cron sweep's input.
#[derive(Debug)]
pub struct ListStaleCanvases;

} // verus!
