//! The ledger inside a small host: the host mints what the ledger allots and
//! keeps the events.

use std::collections::HashMap;

use pallet_allocations::{AccountId, Balance, DispatchError, Error, Event, Module, RawOrigin};
use sp_core::H256;

pub const ORACLE: u64 = 0;
pub const NON_ORACLE: u64 = 1;

pub const INITIAL_COINS: u64 = 200;
pub const REWARD_TARGET: u64 = 2;
pub const REWARD_AMOUNT: u64 = 100;

/// The host around the ledger: free balances and the event log.
#[derive(Clone, Debug, PartialEq)]
struct TestExternalities {
    allocations: Module,
    balances: HashMap<AccountId, Balance>,
    events: Vec<Event<H256>>,
}

impl TestExternalities {
    fn free_balance(&self, who: AccountId) -> Balance {
        self.balances.get(&who).copied().unwrap_or(0)
    }

    /// The dispatch as a host runs it: ask the ledger, then mint and record.
    fn submit_reward(
        &mut self,
        origin: RawOrigin,
        merkle_root_hash: H256,
        who: AccountId,
        amount: Balance,
    ) -> Result<(), DispatchError> {
        let event = self.allocations.submit_reward(origin, merkle_root_hash, who, amount)?;
        let Event::RewardAllocated(recipient, minted, _) = event;
        *self.balances.entry(recipient).or_insert(0) += minted;
        self.events.push(event);
        Ok(())
    }
}

/// A host at genesis, with the whole budget left.
fn new_test_ext() -> TestExternalities {
    TestExternalities {
        allocations: Module::new(INITIAL_COINS),
        balances: HashMap::new(),
        events: Vec::new(),
    }
}

#[test]
fn non_oracle_can_not_submit_reward() {
    let mut ext = new_test_ext();
    let before = ext.clone();
    assert_eq!(
        ext.submit_reward(
            RawOrigin::Signed(NON_ORACLE),
            H256::random(),
            REWARD_TARGET,
            REWARD_AMOUNT
        ),
        Err(DispatchError::Module(Error::OracleAccessDenied))
    );
    assert_eq!(ext, before);
}

#[test]
fn oracle_submit_reward() {
    let mut ext = new_test_ext();
    ext.allocations.initialize_members(&[ORACLE]);
    assert_eq!(ext.allocations.is_oracle(ORACLE), true);

    assert_eq!(ext.free_balance(REWARD_TARGET), 0);
    let root = H256::random();
    assert_eq!(
        ext.submit_reward(RawOrigin::Signed(ORACLE), root, REWARD_TARGET, REWARD_AMOUNT),
        Ok(())
    );
    assert_eq!(ext.free_balance(REWARD_TARGET), REWARD_AMOUNT);

    // Record coins left
    assert_eq!(ext.allocations.coins_left(), INITIAL_COINS - REWARD_AMOUNT);

    // One event, and it says what was allotted
    assert_eq!(
        ext.events,
        vec![Event::RewardAllocated(REWARD_TARGET, REWARD_AMOUNT, root)]
    );
}

#[test]
fn oracle_management_initialize_members() {
    let mut ext = new_test_ext();
    // Start with no oracles
    assert_eq!(ext.allocations.is_oracle(ORACLE), false);
    ext.allocations.initialize_members(&[ORACLE]);
    assert_eq!(ext.allocations.is_oracle(ORACLE), true);
}

#[test]
fn oracle_management_change_members_sorted_remove_oracle() {
    let mut ext = new_test_ext();
    ext.allocations.initialize_members(&[ORACLE]);

    ext.allocations.change_members_sorted(&[], &[], &[]);
    assert_eq!(ext.allocations.is_oracle(ORACLE), false);
}

#[test]
fn oracle_management_change_members_sorted_add_oracle() {
    let mut ext = new_test_ext();
    ext.allocations.initialize_members(&[ORACLE]);

    ext.allocations
        .change_members_sorted(&[], &[], &[ORACLE, NON_ORACLE]);
    assert_eq!(ext.allocations.is_oracle(ORACLE), true);
    assert_eq!(ext.allocations.is_oracle(NON_ORACLE), true);
}

#[test]
fn oracle_management_change_members_sorted_swap_oracle() {
    let mut ext = new_test_ext();
    ext.allocations.initialize_members(&[ORACLE]);

    ext.allocations
        .change_members_sorted(&[], &[], &[NON_ORACLE]);
    assert_eq!(ext.allocations.is_oracle(ORACLE), false);
    assert_eq!(ext.allocations.is_oracle(NON_ORACLE), true);
}

#[test]
fn cannot_allocate_zero_coins() {
    let mut ext = new_test_ext();
    ext.allocations.initialize_members(&[ORACLE]);

    let before = ext.clone();
    assert_eq!(
        ext.submit_reward(RawOrigin::Signed(ORACLE), H256::random(), REWARD_TARGET, 0),
        Err(DispatchError::Module(Error::ZeroAllocation))
    );
    assert_eq!(ext, before);
}

#[test]
fn cannot_allocate_more_than_coins_left() {
    let mut ext = new_test_ext();
    ext.allocations.initialize_members(&[ORACLE]);

    let before = ext.clone();
    assert_eq!(
        ext.submit_reward(
            RawOrigin::Signed(ORACLE),
            H256::random(),
            REWARD_TARGET,
            INITIAL_COINS + 1
        ),
        Err(DispatchError::Module(Error::TooManyCoinsToAllocate))
    );
    assert_eq!(ext, before);
}

#[test]
fn budget_is_drawn_down_claim_by_claim() {
    let mut ext = new_test_ext();
    ext.allocations.initialize_members(&[ORACLE]);

    assert_eq!(
        ext.submit_reward(RawOrigin::Signed(ORACLE), H256::random(), REWARD_TARGET, 100),
        Ok(())
    );
    assert_eq!(ext.allocations.coins_left(), 100);
    assert_eq!(ext.free_balance(REWARD_TARGET), 100);

    assert_eq!(
        ext.submit_reward(RawOrigin::Signed(ORACLE), H256::random(), REWARD_TARGET, 101),
        Err(DispatchError::Module(Error::TooManyCoinsToAllocate))
    );
    assert_eq!(ext.allocations.coins_left(), 100);
    assert_eq!(ext.free_balance(REWARD_TARGET), 100);

    assert_eq!(
        ext.submit_reward(RawOrigin::Signed(NON_ORACLE), H256::random(), REWARD_TARGET, 1),
        Err(DispatchError::Module(Error::OracleAccessDenied))
    );
    assert_eq!(ext.allocations.coins_left(), 100);
    assert_eq!(ext.events.len(), 1);
}
