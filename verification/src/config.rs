//! Module configuration.
//!
//! [`OrchestrationConfig`] is stored in the database under the
//! `"orchestration"` key and loaded once during startup; services and hooks
//! hold the struct by value. The defaults below are what a fresh deployment
//! seeds, and changed values take effect when the masters restart.
use crate::text::{trim, trimmed, Strip};
use std::time::Duration;
use vstd::prelude::*;

verus! {

pub const LETS_ENCRYPT_DIRECTORY: &'static str = "https://acme-v02.api.letsencrypt.org/directory";

pub const LETS_ENCRYPT_STAGING_DIRECTORY: &'static str =
    "https://acme-staging-v02.api.letsencrypt.org/directory";

/// The key the settings are stored under.
pub const CONFIG_KEY: &'static str = "orchestration";

/// What `Duration::from_secs` makes of a count of whole seconds.
pub uninterp spec fn duration_of_secs(secs: u64) -> Duration;

/// Calls `std::time::Duration::from_secs`. Claimed: the duration depends on
/// the count alone (it is exactly that many seconds, and never panics).
#[verifier::external_body]
fn duration_from_secs(secs: u64) -> (d: Duration)
    ensures
        d == duration_of_secs(secs),
{
    Duration::from_secs(secs)
}

/// Operator-tunable orchestration settings: health thresholds and retention,
/// ACME defaults, relay-certificate lifetimes.
///
/// A stored row written before a field existed stays readable: the missing
/// field falls back to [`Default`].
#[derive(Debug, Clone)]
pub struct OrchestrationConfig {
    /// How often a worker sends a `HealthReport`. Workers are told nothing; this
    /// is the master's expectation and sizes the offline threshold.
    pub health_report_interval_secs: u64,
    /// A server that has not reported for this many intervals is `Offline`.
    pub health_offline_after_intervals: u64,
    /// How long a server may lag `desired` before it counts as `Degraded`.
    pub degraded_grace_secs: u64,
    /// Retention of raw `server_health_record` rows.
    pub server_health_ttl_secs: u64,
    /// Retention of raw `node_health_record` rows.
    pub node_health_ttl_secs: u64,
    /// The ACME directory an Entry uses when its `TlsConfig.acme_directory` is
    /// empty.
    pub default_acme_directory: String,
    /// Renew an ACME certificate this long before `not_after`.
    pub acme_renew_before_secs: u64,
    /// After a failed ACME attempt, wait this long before retrying.
    pub acme_retry_after_secs: u64,
    /// Validity of the leaf certificates the internal CA issues to relay pods.
    pub relay_cert_valid_secs: u64,
    /// Rotate a relay leaf this long before `not_after`.
    pub relay_cert_renew_before_secs: u64,
    /// How often the stale-canvas derivation sweep may run.
    ///
    /// This and the four cadences below gate the *execution* of a periodic job,
    /// not its scheduling: the scheduler publishes each signal on a fixed
    /// cadence, and the consumer claims a run only once per interval. A value
    /// below the signal's own cadence therefore means "every signal", and a
    /// larger one slows the job down fleet-wide.
    pub sweep_interval_secs: u64,
    /// How often silent servers are flipped to `Offline`.
    pub liveness_interval_secs: u64,
    /// How often health history is trimmed to its TTLs.
    pub health_retention_interval_secs: u64,
    /// How often ACME certificates are ensured, issued and renewed.
    pub acme_interval_secs: u64,
    /// How often expiring relay leaves are rotated.
    pub relay_rotation_interval_secs: u64,
    /// Whether the worker API trusts `x-real-ip` / `x-forwarded-for` when it
    /// records the address a registration came from. Leave on behind the
    /// documented TLS-terminating proxy; turn off when the worker port is
    /// exposed directly, or a worker could spoof its observed address.
    pub trust_proxy_address_headers: bool,
    /// How often an idle `Watch*` stream sends an empty keep-alive and
    /// re-checks the session that opened it.
    pub stream_keepalive_secs: u64,
    /// The public origin workers dial and the install command downloads from,
    /// e.g. `https://guru.example.com`. Empty means the dashboard cannot render
    /// an install command.
    pub agent_public_base_url: String,
    /// The URL path under that origin where the published agent artifacts are
    /// served from. Leading slash, no trailing one.
    pub agent_download_path: String,
    /// How often a live worker asks whether an update was requested for it.
    pub agent_update_poll_secs: u64,
}

impl Default for OrchestrationConfig {
    /// The settings a fresh deployment seeds.
    fn default() -> (c: Self)
        ensures
            c.health_report_interval_secs == 15,
            c.health_offline_after_intervals == 3,
            c.degraded_grace_secs == 60,
            c.server_health_ttl_secs == 604800,
            c.node_health_ttl_secs == 604800,
            c.default_acme_directory@ == LETS_ENCRYPT_DIRECTORY@,
            c.acme_renew_before_secs == 2592000,
            c.acme_retry_after_secs == 3600,
            c.relay_cert_valid_secs == 2592000,
            c.relay_cert_renew_before_secs == 864000,
            c.sweep_interval_secs == 30,
            c.liveness_interval_secs == 30,
            c.health_retention_interval_secs == 300,
            c.acme_interval_secs == 60,
            c.relay_rotation_interval_secs == 3600,
            c.trust_proxy_address_headers,
            c.stream_keepalive_secs == 15,
            c.agent_public_base_url@ == Seq::<char>::empty(),
            c.agent_download_path@ == "/agent"@,
            c.agent_update_poll_secs == 60,
    {
        OrchestrationConfig {
            health_report_interval_secs: 15,
            health_offline_after_intervals: 3,
            degraded_grace_secs: 60,
            server_health_ttl_secs: 7 * 24 * 60 * 60,
            node_health_ttl_secs: 7 * 24 * 60 * 60,
            default_acme_directory: String::from_str(LETS_ENCRYPT_DIRECTORY),
            acme_renew_before_secs: 30 * 24 * 60 * 60,
            acme_retry_after_secs: 60 * 60,
            relay_cert_valid_secs: 30 * 24 * 60 * 60,
            relay_cert_renew_before_secs: 10 * 24 * 60 * 60,
            sweep_interval_secs: 30,
            liveness_interval_secs: 30,
            health_retention_interval_secs: 300,
            acme_interval_secs: 60,
            relay_rotation_interval_secs: 3600,
            trust_proxy_address_headers: true,
            stream_keepalive_secs: 15,
            agent_public_base_url: String::new(),
            agent_download_path: String::from_str("/agent"),
            agent_update_poll_secs: 60,
        }
    }
}

/// Where the published agent artifacts are, given the configured origin and
/// path: the origin without surrounding white space or trailing slashes, then
/// the path without surrounding white space or slashes, joined by one slash
/// (the origin alone when the path is empty). `None` while no origin is set.
pub open spec fn download_base(base_url: Seq<char>, path: Seq<char>) -> Option<Seq<char>> {
    let base = crate::text::back_trimmed(trimmed(base_url, Strip::WhiteSpace), Strip::Char('/'));
    let p = trimmed(trimmed(path, Strip::WhiteSpace), Strip::Char('/'));
    if base.len() == 0 {
        None
    } else if p.len() == 0 {
        Some(base)
    } else {
        Some(base + seq!['/'] + p)
    }
}

impl OrchestrationConfig {
    /// Where the published agent artifacts are: `{base_url}{download_path}`,
    /// normalised to no trailing slash. `None` until a base URL is configured.
    pub fn agent_download_base(&self) -> (r: Option<String>)
        ensures
            r matches Some(s) ==> download_base(
                self.agent_public_base_url@,
                self.agent_download_path@,
            ) == Some(s@),
            r is None ==> download_base(self.agent_public_base_url@, self.agent_download_path@)
                is None,
    {
        let base = crate::text::trim_back(
            trim(self.agent_public_base_url.as_str(), Strip::WhiteSpace),
            Strip::Char('/'),
        );
        if base.unicode_len() == 0 {
            return None;
        }
        let path = trim(trim(self.agent_download_path.as_str(), Strip::WhiteSpace), Strip::Char('/'));
        if path.unicode_len() == 0 {
            Some(String::from_str(base))
        } else {
            proof {
                reveal_strlit("/");
            }
            let joined = String::from_str(base).concat("/").concat(path);
            Some(joined)
        }
    }

    pub fn agent_update_poll(&self) -> (d: Duration)
        ensures
            d == duration_of_secs(self.agent_update_poll_secs),
    {
        duration_from_secs(self.agent_update_poll_secs)
    }

    pub fn health_report_interval(&self) -> (d: Duration)
        ensures
            d == duration_of_secs(self.health_report_interval_secs),
    {
        duration_from_secs(self.health_report_interval_secs)
    }

    /// No report for this long means the worker is gone: the report interval
    /// times the tolerated number of missed reports, saturating at `u64::MAX`
    /// seconds.
    pub fn health_offline_after(&self) -> (d: Duration)
        ensures
            d == duration_of_secs(
                (if self.health_report_interval_secs * self.health_offline_after_intervals
                    <= u64::MAX {
                    self.health_report_interval_secs * self.health_offline_after_intervals
                } else {
                    u64::MAX as int
                }) as u64,
            ),
    {
        let secs = match self.health_report_interval_secs.checked_mul(
            self.health_offline_after_intervals,
        ) {
            Some(product) => product,
            None => u64::MAX,
        };
        duration_from_secs(secs)
    }

    pub fn degraded_grace(&self) -> (d: Duration)
        ensures
            d == duration_of_secs(self.degraded_grace_secs),
    {
        duration_from_secs(self.degraded_grace_secs)
    }

    pub fn server_health_ttl(&self) -> (d: Duration)
        ensures
            d == duration_of_secs(self.server_health_ttl_secs),
    {
        duration_from_secs(self.server_health_ttl_secs)
    }

    pub fn node_health_ttl(&self) -> (d: Duration)
        ensures
            d == duration_of_secs(self.node_health_ttl_secs),
    {
        duration_from_secs(self.node_health_ttl_secs)
    }

    pub fn acme_renew_before(&self) -> (d: Duration)
        ensures
            d == duration_of_secs(self.acme_renew_before_secs),
    {
        duration_from_secs(self.acme_renew_before_secs)
    }

    pub fn acme_retry_after(&self) -> (d: Duration)
        ensures
            d == duration_of_secs(self.acme_retry_after_secs),
    {
        duration_from_secs(self.acme_retry_after_secs)
    }

    pub fn relay_cert_valid(&self) -> (d: Duration)
        ensures
            d == duration_of_secs(self.relay_cert_valid_secs),
    {
        duration_from_secs(self.relay_cert_valid_secs)
    }

    pub fn relay_cert_renew_before(&self) -> (d: Duration)
        ensures
            d == duration_of_secs(self.relay_cert_renew_before_secs),
    {
        duration_from_secs(self.relay_cert_renew_before_secs)
    }

    pub fn sweep_interval(&self) -> (d: Duration)
        ensures
            d == duration_of_secs(self.sweep_interval_secs),
    {
        duration_from_secs(self.sweep_interval_secs)
    }

    pub fn liveness_interval(&self) -> (d: Duration)
        ensures
            d == duration_of_secs(self.liveness_interval_secs),
    {
        duration_from_secs(self.liveness_interval_secs)
    }

    pub fn health_retention_interval(&self) -> (d: Duration)
        ensures
            d == duration_of_secs(self.health_retention_interval_secs),
    {
        duration_from_secs(self.health_retention_interval_secs)
    }

    pub fn acme_interval(&self) -> (d: Duration)
        ensures
            d == duration_of_secs(self.acme_interval_secs),
    {
        duration_from_secs(self.acme_interval_secs)
    }

    pub fn relay_rotation_interval(&self) -> (d: Duration)
        ensures
            d == duration_of_secs(self.relay_rotation_interval_secs),
    {
        duration_from_secs(self.relay_rotation_interval_secs)
    }

    /// The keep-alive cadence of a live stream, never zero: a zero period
    /// would make the stream's timer panic, and an operator who writes `0`
    /// means "as often as reasonable", not "crash the API".
    pub fn stream_keepalive(&self) -> (d: Duration)
        ensures
            d == duration_of_secs(
                if self.stream_keepalive_secs == 0 {
                    1
                } else {
                    self.stream_keepalive_secs
                },
            ),
    {
        let secs = if self.stream_keepalive_secs < 1 {
            1
        } else {
            self.stream_keepalive_secs
        };
        duration_from_secs(secs)
    }

    /// The directory an Entry resolves to: its own, or the default when empty.
    pub fn acme_directory<'a>(&'a self, requested: &'a str) -> (r: &'a str)
        ensures
            r@ == (if requested@.len() == 0 {
                self.default_acme_directory@
            } else {
                requested@
            }),
    {
        if requested.unicode_len() == 0 {
            self.default_acme_directory.as_str()
        } else {
            requested
        }
    }
}

} // verus!
