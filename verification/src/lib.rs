//! A reward pool with a fixed budget.
//!
//! A small set of oracles, chosen elsewhere, may draw the pool down: each
//! claim names a recipient, an amount and the Merkle root of the evidence
//! behind it. The root is of whatever type the host hashes to: the ledger
//! records it and never looks inside.
//!
//! The ledger refuses a claim from anyone but an oracle, a claim for
//! nothing, and a claim for more than is left. It never mints by itself: an
//! accepted claim comes back as the event that the host has to act on, by
//! minting the coins for the recipient and recording the event.
//!
//! The state is an ordinary value, [`Module`]. A host keeps it wherever it
//! keeps its state and applies one operation at a time; every operation that
//! changes the ledger takes it by `&mut`, so no two of them can interleave.

mod balance;
pub mod error;
pub mod ledger;
pub mod origin;
pub mod primitives;

pub use crate::error::{DispatchError, Error};
pub use crate::ledger::{Event, Ledger, Module};
pub use crate::origin::{ensure_signed, RawOrigin};
pub use crate::primitives::{AccountId, Balance};
