//! The published worker release: what was last put in the download
//! directory, so the dashboard can offer it to servers running another version
//! and a worker can verify what it downloads.
//!
//! One row, keyed `current`. It is state, not configuration: a publish replaces
//! it and takes effect at once.
use crate::clock::Timestamp;
use vstd::prelude::*;

verus! {

/// The record key of the `orchestration_agent_release` row.
pub type AgentReleaseId = String;

/// The key of the single release row.
pub const AGENT_RELEASE_KEY: &'static str = "current";

/// The id of the single release row.
pub fn agent_release_id() -> (id: AgentReleaseId)
    ensures
        id@ == AGENT_RELEASE_KEY@,
{
    String::from_str(AGENT_RELEASE_KEY)
}

#[derive(Debug, Clone)]
pub struct AgentReleaseEntity {
    pub id: AgentReleaseId,
    /// The worker crate version, as the worker's `--version` prints it.
    pub version: String,
    /// Lowercase hex SHA-256 of the published binary.
    pub sha256: String,
    /// The CPU architecture the binary was built for (`x86_64`, `aarch64`).
    pub arch: String,
    pub published_at: Timestamp,
}

/// Replaces the published release.
#[derive(Debug)]
pub struct PublishAgentRelease {
    pub version: String,
    pub sha256: String,
    pub arch: String,
    pub now: Timestamp,
}

#[derive(Debug)]
pub struct FindAgentRelease;

} // verus!
