//! Why a stored row could not be read back as an entity.
use crate::entities::pod::IngressKind;
use vstd::prelude::*;

verus! {

/// What was wrong with the row.
#[derive(Debug, Clone, PartialEq, Eq, Structural)]
pub enum DecodeProblem {
    /// A port column held a value outside `0..=65535`.
    PortOutOfRange(i32),
    /// The TLS columns do not match the stored ingress kind.
    TlsMismatch(IngressKind),
    /// An edge row names neither or both of its target columns.
    NotOneTarget,
}

/// A row that does not decode: the column at fault, the id of the row, and
/// the problem.
#[derive(Debug, Clone)]
pub struct DecodeError {
    pub column: &'static str,
    pub row: String,
    pub problem: DecodeProblem,
}

} // verus!
