//! The ledger: the oracle set, the budget, and the one operation that spends.

use sp_std::prelude::Vec;
use vstd::prelude::*;

use crate::balance::checked_sub;
use crate::error::{DispatchError, Error};
use crate::origin::{ensure_signed, RawOrigin};
use crate::primitives::{AccountId, Balance};

verus! {

/// What the host has to act on after an accepted claim.
#[derive(Debug, PartialEq, Eq)]
pub enum Event<H> {
    /// Some rewards were allocated to a network contributor: the recipient,
    /// the amount, and the Merkle root that the oracle submitted.
    RewardAllocated(AccountId, Balance, H),
}

impl<H: Clone> Clone for Event<H> {
    /// The same event, with a clone of its Merkle root.
    fn clone(&self) -> (copy: Event<H>)
        ensures
            copy->0 == self->0,
            copy->1 == self->1,
            cloned(self->2, copy->2),
    {
        match self {
            Event::RewardAllocated(who, amount, root) => Event::RewardAllocated(
                *who,
                *amount,
                root.clone(),
            ),
        }
    }
}

/// The ledger as a mathematical value.
pub struct Ledger {
    /// The oracles, in the order in which the membership authority gave them.
    /// An account may occur more than once: the ledger neither sorts nor
    /// removes duplicates.
    pub oracles: Seq<AccountId>,
    /// The coins that are not allocated yet.
    pub coins_left: nat,
}

impl Ledger {
    /// Whether `who` may submit claims.
    pub open spec fn is_oracle(self, who: AccountId) -> bool {
        self.oracles.contains(who)
    }

    /// Whether a claim for `amount` is accepted from `origin`: an oracle has
    /// signed it, and it asks for something, and for no more than is left.
    pub open spec fn accepts(self, origin: RawOrigin, amount: Balance) -> bool {
        &&& origin matches RawOrigin::Signed(sender)
        &&& self.is_oracle(sender)
        &&& 0 < amount <= self.coins_left
    }

    /// The ledger after `amount` coins have left the budget.
    pub open spec fn debit(self, amount: Balance) -> Ledger
        recommends
            amount <= self.coins_left,
    {
        Ledger { oracles: self.oracles, coins_left: (self.coins_left - amount) as nat }
    }

    /// The ledger after the membership authority has named `members` as the
    /// whole oracle set.
    pub open spec fn with_members(self, members: Seq<AccountId>) -> Ledger {
        Ledger { oracles: members, coins_left: self.coins_left }
    }

    /// After a change of members, the new set alone decides who is an oracle:
    /// what the set was before plays no part.
    pub proof fn lemma_new_members_decide(self, members: Seq<AccountId>, who: AccountId)
        ensures
            self.with_members(members).is_oracle(who) <==> members.contains(who),
    {
    }

    /// Once the empty set has replaced the oracles, nobody is an oracle,
    /// whoever was one before.
    pub proof fn lemma_no_members_no_oracle(self, who: AccountId)
        ensures
            !self.with_members(Seq::empty()).is_oracle(who),
    {
    }

    /// Once a set of two has replaced the oracles, both are oracles, whoever
    /// was one before.
    pub proof fn lemma_both_members_are_oracles(self, first: AccountId, second: AccountId)
        ensures
            self.with_members(seq![first, second]).is_oracle(first),
            self.with_members(seq![first, second]).is_oracle(second),
    {
    }

    /// Where the oracle set was `[gone]` and `[come]` replaces it, `come` is
    /// an oracle and `gone`, being another account, no longer is.
    pub proof fn lemma_replaced_member_is_no_oracle(self, gone: AccountId, come: AccountId)
        requires
            gone != come,
        ensures
            self.with_members(seq![gone]).is_oracle(gone),
            !self.with_members(seq![gone]).with_members(seq![come]).is_oracle(gone),
            self.with_members(seq![gone]).with_members(seq![come]).is_oracle(come),
    {
        assert(seq![gone][0] == gone);
        assert(seq![come][0] == come);
    }

    /// A change of members leaves the budget alone.
    pub proof fn lemma_members_leave_budget(self, members: Seq<AccountId>)
        ensures
            self.with_members(members).coins_left == self.coins_left,
    {
    }
}

/// The ledger's state: who the oracles are, and how much is left to allocate.
#[derive(Debug, PartialEq, Eq)]
pub struct Module {
    oracles: Vec<AccountId>,
    coins_left: Balance,
}

impl View for Module {
    type V = Ledger;

    closed spec fn view(&self) -> Ledger {
        Ledger { oracles: self.oracles@, coins_left: self.coins_left as nat }
    }
}

impl Clone for Module {
    /// A second ledger in the same state.
    fn clone(&self) -> (copy: Module)
        ensures
            copy@ == self@,
    {
        Module { oracles: self.oracles.clone(), coins_left: self.coins_left }
    }
}

/// A vector with the items of `items`, in their order.
fn to_vec(items: &[AccountId]) -> (v: Vec<AccountId>)
    ensures
        v@ == items@,
{
    let mut v: Vec<AccountId> = Vec::new();
    let mut i: usize = 0;
    while i < items.len()
        invariant
            i <= items.len(),
            v@ == items@.take(i as int),
        decreases items.len() - i,
    {
        v.push(items[i]);
        i += 1;
    }
    v
}

impl Module {
    /// The ledger at genesis: nobody is an oracle yet, and the whole budget
    /// is left.
    pub fn new(coins_left: Balance) -> (m: Module)
        ensures
            m@.oracles == Seq::<AccountId>::empty(),
            m@.coins_left == coins_left,
            forall|who: AccountId| !m@.is_oracle(who),
    {
        Module { oracles: Vec::new(), coins_left }
    }

    /// The ledger that a host has kept as these two values.
    pub fn from_parts(oracles: Vec<AccountId>, coins_left: Balance) -> (m: Module)
        ensures
            m@.oracles == oracles@,
            m@.coins_left == coins_left,
    {
        Module { oracles, coins_left }
    }

    /// The oracles, in the order in which they were given.
    pub fn oracles(&self) -> (oracles: &Vec<AccountId>)
        ensures
            oracles@ == self@.oracles,
    {
        &self.oracles
    }

    /// The coins that are not allocated yet.
    pub fn coins_left(&self) -> (left: Balance)
        ensures
            left == self@.coins_left,
    {
        self.coins_left
    }

    /// Whether `who` is an oracle now.
    pub fn is_oracle(&self, who: AccountId) -> (found: bool)
        ensures
            found == self@.is_oracle(who),
    {
        let mut i: usize = 0;
        while i < self.oracles.len()
            invariant
                i <= self.oracles.len(),
                forall|j: int| 0 <= j < i ==> self.oracles@[j] != who,
            decreases self.oracles.len() - i,
        {
            if self.oracles[i] == who {
                return true;
            }
            i += 1;
        }
        false
    }

    /// Passes a call that an oracle has signed. A call that no account has
    /// signed is a `BadOrigin`; one that another account has signed is
    /// denied.
    pub fn ensure_oracle(&self, origin: RawOrigin) -> (r: Result<(), DispatchError>)
        ensures
            r == (match origin.signer() {
                None => Err(DispatchError::BadOrigin),
                Some(sender) => if self@.is_oracle(sender) {
                    Ok(())
                } else {
                    Err(DispatchError::Module(Error::OracleAccessDenied))
                },
            }),
    {
        let sender = match ensure_signed(origin) {
            Ok(sender) => sender,
            Err(e) => {
                return Err(e);
            },
        };
        if !self.is_oracle(sender) {
            return Err(DispatchError::Module(Error::OracleAccessDenied));
        }
        Ok(())
    }

    /// As an oracle, submit a Merkle root for reward: `amount` coins leave
    /// the budget for `who`.
    ///
    /// The checks come in this order, and the first that fails decides the
    /// error: an account has signed the call; that account is an oracle;
    /// `amount` is not zero; `amount` is not more than what is left. A
    /// refused claim leaves the ledger as it was. An accepted claim takes
    /// exactly `amount` from the budget, and comes back as the one event
    /// that the host mints for and then records.
    pub fn submit_reward<H>(
        &mut self,
        origin: RawOrigin,
        merkle_root_hash: H,
        who: AccountId,
        amount: Balance,
    ) -> (r: Result<Event<H>, DispatchError>)
        ensures
            // A call that no account has signed never reaches the ledger's own rules.
            origin.signer() is None ==> r matches Err(DispatchError::BadOrigin),
            // Authorization: only an oracle may claim.
            origin matches RawOrigin::Signed(sender) && !old(self)@.is_oracle(sender)
                ==> r matches Err(DispatchError::Module(Error::OracleAccessDenied)),
            // Positivity: a claim asks for something.
            origin matches RawOrigin::Signed(sender) && old(self)@.is_oracle(sender)
                && amount == 0
                ==> r matches Err(DispatchError::Module(Error::ZeroAllocation)),
            // Budget bound: a claim asks for no more than is left.
            origin matches RawOrigin::Signed(sender) && old(self)@.is_oracle(sender)
                && amount > old(self)@.coins_left
                ==> r matches Err(DispatchError::Module(Error::TooManyCoinsToAllocate)),
            // Any other claim is accepted, and the event says what was claimed.
            origin matches RawOrigin::Signed(sender) && old(self)@.is_oracle(sender)
                && 0 < amount <= old(self)@.coins_left
                ==> (r matches Ok(event)
                    && event == Event::RewardAllocated(who, amount, merkle_root_hash)),
            r is Ok <==> old(self)@.accepts(origin, amount),
            // An accepted claim takes exactly `amount` from the budget.
            r is Ok ==> final(self)@ == old(self)@.debit(amount),
            r is Ok ==> final(self)@.coins_left + amount == old(self)@.coins_left,
            // A refused claim changes nothing.
            r is Err ==> final(self)@ == old(self)@,
            // Whatever the answer, the oracles stay and the budget does not grow.
            final(self)@.oracles == old(self)@.oracles,
            final(self)@.coins_left <= old(self)@.coins_left,
    {
        match self.ensure_oracle(origin) {
            Ok(()) => {},
            Err(e) => {
                return Err(e);
            },
        }
        if amount == 0 {
            return Err(DispatchError::Module(Error::ZeroAllocation));
        }
        match checked_sub(self.coins_left, amount) {
            Some(left) => {
                self.coins_left = left;
                Ok(Event::RewardAllocated(who, amount, merkle_root_hash))
            },
            None => Err(DispatchError::Module(Error::TooManyCoinsToAllocate)),
        }
    }

    /// The membership authority has changed the oracles: `new` is the whole
    /// set from now on. What came and what went is not looked at, and `new`
    /// is taken as it is, neither sorted nor checked for duplicates.
    pub fn change_members_sorted(
        &mut self,
        _incoming: &[AccountId],
        _outgoing: &[AccountId],
        new: &[AccountId],
    )
        ensures
            final(self)@ == old(self)@.with_members(new@),
            final(self)@.oracles == new@,
            final(self)@.coins_left == old(self)@.coins_left,
            forall|who: AccountId| final(self)@.is_oracle(who) <==> new@.contains(who),
    {
        self.oracles = to_vec(new);
    }

    /// The membership authority names the first oracles: `init` is the whole
    /// set from now on, whatever it was before.
    pub fn initialize_members(&mut self, init: &[AccountId])
        ensures
            final(self)@ == old(self)@.with_members(init@),
            final(self)@.oracles == init@,
            final(self)@.coins_left == old(self)@.coins_left,
            forall|who: AccountId| final(self)@.is_oracle(who) <==> init@.contains(who),
    {
        self.oracles = to_vec(init);
    }
}

} // verus!
