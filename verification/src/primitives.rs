//! The plain values that the ledger is made of.

use vstd::prelude::*;

verus! {

/// An account on the host's ledger.
pub type AccountId = u64;

/// An amount of coins, in the currency's smallest unit.
pub type Balance = u64;

} // verus!
