//! Arithmetic on balances.

use sp_runtime::traits::CheckedSub;
use vstd::prelude::*;

use crate::primitives::Balance;

verus! {

/// What is left of `left` once `amount` is taken from it, if that much is
/// there.
///
/// This is `CheckedSub::checked_sub` of `sp_runtime::traits`, which for
/// `u64` is the integer's own checked subtraction: the difference, or `None`
/// where it would fall below zero. Verus takes this contract on trust.
#[verifier::external_body]
pub(crate) fn checked_sub(left: Balance, amount: Balance) -> (rest: Option<Balance>)
    ensures
        rest == (if amount <= left {
            Some((left - amount) as Balance)
        } else {
            None
        }),
{
    CheckedSub::checked_sub(&left, &amount)
}

} // verus!
