//! The internal CA and the relay leaf certificates it issues.
//!
//! Relay TLS/QUIC links between workers are authenticated by certificates the
//! master signs: one leaf per pod whose listener is a TLS or QUIC relay, with
//! SAN `<pod-key>.relay.guru.internal` ([`relay_sni`]). Workers trust only the
//! CA certificate, which every config revision delivers as `certs/ca.pem`.
//! Private keys are stored encrypted with the master key.
use crate::clock::Timestamp;
use crate::entities::pod::PodId;
use vstd::prelude::*;

verus! {

/// The record key of the `internal_ca` row.
pub type InternalCaId = String;

/// The record key of a `relay_certificate` row.
pub type RelayCertificateId = String;

/// The key of the single CA row.
pub const INTERNAL_CA_KEY: &'static str = "master";

pub const RELAY_SNI_SUFFIX: &'static str = ".relay.guru.internal";

/// The id of the single CA row.
pub fn internal_ca_id() -> (id: InternalCaId)
    ensures
        id@ == INTERNAL_CA_KEY@,
{
    String::from_str(INTERNAL_CA_KEY)
}

/// The SNI a relay listener presents and its dialers verify: the pod's key
/// followed by [`RELAY_SNI_SUFFIX`].
pub fn relay_sni(pod: &PodId) -> (sni: String)
    ensures
        sni@ == pod@ + RELAY_SNI_SUFFIX@,
{
    pod.clone().concat(RELAY_SNI_SUFFIX)
}

#[derive(Debug, Clone)]
pub struct InternalCaEntity {
    pub id: InternalCaId,
    pub certificate_pem: String,
    /// Encrypted.
    pub private_key_pem: String,
    pub not_after: Timestamp,
    pub created_at: Timestamp,
}

/// Creates the CA row. Refused (`false`, nothing written) when one already
/// exists: replacing the root would invalidate every relay leaf at once, so
/// there is deliberately no overwrite path.
#[derive(Debug)]
pub struct CreateInternalCa {
    pub certificate_pem: String,
    pub private_key_pem: String,
    pub not_after: Timestamp,
    pub now: Timestamp,
}

#[derive(Debug)]
pub struct FindInternalCa;

#[derive(Debug, Clone)]
pub struct RelayCertificateEntity {
    pub id: RelayCertificateId,
    pub pod: PodId,
    pub sni: String,
    /// Encrypted.
    pub private_key_pem: String,
    pub certificate_pem: String,
    pub not_before: Timestamp,
    pub not_after: Timestamp,
    pub version: i64,
}

/// Creates the leaf for a pod, or replaces it and bumps `version`.
///
/// `expected_version` fences every path that replaces a leaf: with `Some(v)`
/// the write lands only while the pod's leaf is still at `version = v` — a lost
/// race (and a leaf that has since been deleted) writes nothing. Only a pod's
/// first issuance passes `None`: it has no prior version to fence against.
#[derive(Debug)]
pub struct StoreRelayCertificate {
    pub pod: PodId,
    pub sni: String,
    pub private_key_pem: String,
    pub certificate_pem: String,
    pub not_before: Timestamp,
    pub not_after: Timestamp,
    pub expected_version: Option<i64>,
}

/// The leaves of the given pods; no pods read nothing.
#[derive(Debug)]
pub struct ListRelayCertificatesByPods {
    pub pods: Vec<PodId>,
}

/// The leaves with the given ids; no ids read nothing.
#[derive(Debug)]
pub struct ListRelayCertificatesByIds {
    pub ids: Vec<RelayCertificateId>,
}

/// Leaves whose `not_after` is before the cut-off: the rotation cron's input.
#[derive(Debug)]
pub struct ListRelayCertificatesExpiringBefore {
    pub before: Timestamp,
}

} // verus!
