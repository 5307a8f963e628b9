//! Public certificates obtained through ACME (DNS-01) for TLS client pods.
//!
//! One row per `(sni, acme_directory)`; every pod whose `TlsConfig` names that
//! pair serves the same certificate. `version` increments on every issuance
//! and renewal, and a config snapshot pins the version it was derived against.
use crate::clock::Timestamp;
use crate::entities::canvas::CanvasId;
use crate::entities::dns::DnsProviderId;
use crate::entities::pod::TlsConfig;
use crate::text::text_eq;
use vstd::prelude::*;

verus! {

/// The record key of a `certificate` row.
pub type CertificateId = String;

#[derive(Debug, Clone)]
pub struct CertificateEntity {
    pub id: CertificateId,
    pub sni: String,
    pub dns_provider: DnsProviderId,
    /// Cloudflare: zone id. Vercel: the registered domain.
    pub domain_id: String,
    pub acme_directory: String,
    pub status: CertificateStatus,
    /// Encrypted PEM of the ACME account key, once an account exists.
    pub acme_account_key: Option<String>,
    /// Encrypted PEM. Set together with `full_chain_pem` when `status` is `Issued`.
    pub private_key_pem: Option<String>,
    pub full_chain_pem: Option<String>,
    pub not_before: Option<Timestamp>,
    pub not_after: Option<Timestamp>,
    pub last_error: Option<String>,
    pub last_attempt_at: Option<Timestamp>,
    pub version: i64,
    pub created_at: Timestamp,
}

#[derive(Debug, Clone, Copy, PartialEq, Eq, Structural)]
pub enum CertificateStatus {
    /// Wanted by a pod, not yet issued.
    Pending,
    Issued,
    /// The last attempt failed; `last_error` says why.
    Failed,
}

pub open spec fn certificate_status_spelling(s: CertificateStatus) -> Seq<char> {
    match s {
        CertificateStatus::Pending => "pending"@,
        CertificateStatus::Issued => "issued"@,
        CertificateStatus::Failed => "failed"@,
    }
}

impl CertificateStatus {
    /// The stored spelling.
    pub fn as_str(self) -> (s: &'static str)
        ensures
            s@ == certificate_status_spelling(self),
    {
        match self {
            CertificateStatus::Pending => "pending",
            CertificateStatus::Issued => "issued",
            CertificateStatus::Failed => "failed",
        }
    }

    /// The status a stored spelling names; `None` for any other text.
    pub fn from_stored(text: &str) -> (r: Option<Self>)
        ensures
            r matches Some(s) ==> certificate_status_spelling(s) == text@,
            r is None ==> forall|s: CertificateStatus| certificate_status_spelling(s) != text@,
    {
        if text_eq(text, "pending") {
            Some(CertificateStatus::Pending)
        } else if text_eq(text, "issued") {
            Some(CertificateStatus::Issued)
        } else if text_eq(text, "failed") {
            Some(CertificateStatus::Failed)
        } else {
            None
        }
    }
}

impl CertificateEntity {
    /// An issued certificate that can be delivered right now.
    pub fn is_issued(&self) -> (r: bool)
        ensures
            r == (self.status == CertificateStatus::Issued && self.private_key_pem is Some
                && self.full_chain_pem is Some),
    {
        self.status == CertificateStatus::Issued && self.private_key_pem.is_some()
            && self.full_chain_pem.is_some()
    }
}

/// Creates the `Pending` row for a `(sni, acme_directory)` pair, or returns the
/// existing one untouched.
#[derive(Debug)]
pub struct EnsureCertificate {
    pub sni: String,
    pub dns_provider: DnsProviderId,
    pub domain_id: String,
    pub acme_directory: String,
    pub now: Timestamp,
}

#[derive(Debug)]
pub struct ListCertificates;

#[derive(Debug)]
pub struct FindCertificateById {
    pub id: CertificateId,
}

/// Every certificate for any of the given SNIs, all directories.
#[derive(Debug)]
pub struct ListCertificatesBySnis {
    pub snis: Vec<String>,
}

/// The rows a config snapshot pins.
#[derive(Debug)]
pub struct ListCertificatesByIds {
    pub ids: Vec<CertificateId>,
}

/// Certificates the renewal cron should work on.
#[derive(Debug)]
pub struct ListCertificatesDue {
    pub renew_before: Timestamp,
    pub retry_before: Timestamp,
}

/// Claims the next ACME attempt for one row: an exact compare-and-set on
/// `last_attempt_at`.
#[derive(Debug)]
pub struct ClaimCertificateAttempt {
    pub id: CertificateId,
    pub now: Timestamp,
    /// `last_attempt_at` as the pass read it.
    pub seen_attempt_at: Option<Timestamp>,
}

/// Records a successful issuance or renewal.
#[derive(Debug)]
pub struct StoreIssuedCertificate {
    pub id: CertificateId,
    pub acme_account_key: String,
    pub private_key_pem: String,
    pub full_chain_pem: String,
    pub not_before: Timestamp,
    pub not_after: Timestamp,
    pub now: Timestamp,
}

/// Records a failed attempt.
#[derive(Debug)]
pub struct MarkCertificateAttemptFailed {
    pub id: CertificateId,
    pub error: String,
    pub now: Timestamp,
}

/// Clears the failure state so the next cron pass retries.
#[derive(Debug)]
pub struct RetryCertificateRow {
    pub id: CertificateId,
}

#[derive(Debug)]
pub struct DeleteCertificateRow {
    pub id: CertificateId,
}

/// The TLS certificates client pods currently ask for, one per pod.
#[derive(Debug)]
pub struct ListTlsRequests;

#[derive(Debug, Clone)]
pub struct TlsRequest {
    pub canvas: CanvasId,
    pub tls: TlsConfig,
}

/// Canvases holding a TLS client pod for the given SNI.
#[derive(Debug)]
pub struct ListCanvasesUsingSni {
    pub sni: String,
}

/// Bumps the generation of the tree each canvas belongs to.
#[derive(Debug)]
pub struct TouchCanvases {
    pub canvases: Vec<CanvasId>,
}

} // verus!
