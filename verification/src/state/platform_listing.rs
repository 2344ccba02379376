//! The protocol's listing of its loans.

use vstd::prelude::*;
use crate::pubkey::Pubkey;

verus! {

/// The requests, granted loans and defaulted loans that the protocol lists.
#[derive(Clone, Debug, PartialEq, Eq)]
pub struct PlatformListing {
    loan_requests: Vec<Pubkey>,
    granted_loans: Vec<Pubkey>,
    defaulted_loans: Vec<Pubkey>,
}

impl PlatformListing {
    /// The bytes that a stored listing takes: three lists of at most a
    /// hundred addresses.
    pub const MAX_SIZE: usize = 4 + (100 * 32) + 4 + (100 * 32) + 4 + (100 * 32);
}

} // verus!
