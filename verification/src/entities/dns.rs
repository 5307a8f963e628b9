//! DNS providers: the accounts that answer ACME DNS-01 challenges.
//!
//! `api_secret` is stored encrypted with the master key and never returned by
//! the API.
use crate::clock::Timestamp;
use crate::text::text_eq;
use vstd::prelude::*;

verus! {

/// The record key of a `dns_provider` row.
pub type DnsProviderId = String;

#[derive(Debug, Clone)]
pub struct DnsProviderEntity {
    pub id: DnsProviderId,
    pub name: String,
    pub provider: DnsProvider,
    /// Provider specific: unused for Cloudflare, the team id for Vercel (empty
    /// for a personal account).
    pub account_id: String,
    /// Encrypted (`enc1:...`).
    pub api_secret: String,
    pub created_at: Timestamp,
}

#[derive(Debug, Clone, Copy, PartialEq, Eq, Structural)]
pub enum DnsProvider {
    Cloudflare,
    Vercel,
}

pub open spec fn dns_provider_spelling(p: DnsProvider) -> Seq<char> {
    match p {
        DnsProvider::Cloudflare => "cloudflare"@,
        DnsProvider::Vercel => "vercel"@,
    }
}

impl DnsProvider {
    /// The stored spelling.
    pub fn as_str(self) -> (s: &'static str)
        ensures
            s@ == dns_provider_spelling(self),
    {
        match self {
            DnsProvider::Cloudflare => "cloudflare",
            DnsProvider::Vercel => "vercel",
        }
    }

    /// The provider a stored spelling names; `None` for any other text.
    pub fn from_stored(text: &str) -> (r: Option<Self>)
        ensures
            r matches Some(p) ==> dns_provider_spelling(p) == text@,
            r is None ==> forall|p: DnsProvider| dns_provider_spelling(p) != text@,
    {
        if text_eq(text, "cloudflare") {
            Some(DnsProvider::Cloudflare)
        } else if text_eq(text, "vercel") {
            Some(DnsProvider::Vercel)
        } else {
            None
        }
    }
}

/// `api_secret` already encrypted.
#[derive(Debug)]
pub struct CreateDnsProvider {
    pub name: String,
    pub provider: DnsProvider,
    pub account_id: String,
    pub api_secret: String,
    pub now: Timestamp,
}

#[derive(Debug)]
pub struct ListDnsProviders;

#[derive(Debug)]
pub struct FindDnsProviderById {
    pub id: DnsProviderId,
}

/// `api_secret: None` keeps the stored secret.
#[derive(Debug)]
pub struct UpdateDnsProvider {
    pub id: DnsProviderId,
    pub name: String,
    pub account_id: String,
    pub api_secret: Option<String>,
}

/// Refused (`false`) while a pod or a certificate still references the
/// provider.
#[derive(Debug)]
pub struct DeleteDnsProviderRow {
    pub id: DnsProviderId,
}

/// How many TLS client pods answer their ACME challenge through the provider.
#[derive(Debug)]
pub struct CountPodsUsingDnsProvider {
    pub id: DnsProviderId,
}

} // verus!
