//! Why a claim may be refused.

use vstd::prelude::*;

verus! {

/// The ledger's own reasons to refuse a claim.
#[derive(Clone, Copy, Debug, PartialEq, Eq)]
pub enum Error {
    /// Function is restricted to oracles only.
    OracleAccessDenied,
    /// We are trying to allocate 0 coins.
    ZeroAllocation,
    /// We are trying to allocate more coins than we can.
    TooManyCoinsToAllocate,
}

/// Why a dispatch failed: for want of a caller, or by the ledger's own rules.
#[derive(Clone, Copy, Debug, PartialEq, Eq)]
pub enum DispatchError {
    /// Nobody signed the call, so there is no one to hold the claim against.
    BadOrigin,
    /// The ledger refused the claim.
    Module(Error),
}

} // verus!
