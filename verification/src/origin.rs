//! Who stands behind a call.

use vstd::prelude::*;

use crate::error::DispatchError;
use crate::primitives::AccountId;

verus! {

/// The caller of a dispatch, as the host has authenticated it.
#[derive(Clone, Copy, Debug, PartialEq, Eq)]
pub enum RawOrigin {
    /// The system itself ordained the call.
    Root,
    /// The call is signed, and this is the account that signed it.
    Signed(AccountId),
    /// The call is signed by nobody.
    Unsigned,
    /// The call is signed by nobody, and the host has authorized it.
    Authorized,
}

impl RawOrigin {
    /// The account that signed the call, if one did.
    pub open spec fn signer(self) -> Option<AccountId> {
        match self {
            RawOrigin::Signed(who) => Some(who),
            _ => None,
        }
    }
}

/// The account that signed the call; `BadOrigin` for a call that no account
/// signed.
pub fn ensure_signed(origin: RawOrigin) -> (r: Result<AccountId, DispatchError>)
    ensures
        r == (match origin.signer() {
            Some(who) => Ok(who),
            None => Err(DispatchError::BadOrigin),
        }),
{
    match origin {
        RawOrigin::Signed(who) => Ok(who),
        _ => Err(DispatchError::BadOrigin),
    }
}

} // verus!
