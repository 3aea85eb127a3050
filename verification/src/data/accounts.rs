//! The first generation of accounts: each account holds its storage escrow, its NEAR available
//! for withdrawal, and a STAKE balance per staking pool that tracks the NEAR in flight to the
//! staking pool, the confirmed STAKE, and the STAKE locked to be unstaked.

use crate::amounts::BlockTimeHeight;
use crate::data::TimestampedBalance;
use crate::metadata::str_equals;
use vstd::prelude::*;
use vstd::string::*;

verus! {

/// tracks staked funds with one staking pool
#[derive(Debug, Clone, Copy)]
pub struct StakeBalance {
    /// funds submitted to the staking pool to be deposited and staked, awaiting confirmation;
    /// once confirmed they move over to the STAKE token balance
    pub deposit_and_stake_activity_balance: TimestampedBalance,
    /// confirmed funds that have been deposited and staked with the staking pool: STAKE that is
    /// unlocked and can be transferred
    pub stake_token_balance: TimestampedBalance,
    /// STAKE that is locked, to be redeemed for NEAR at the next unstaking cycle
    pub locked_stake_token_balance: TimestampedBalance,
}

impl StakeBalance {
    pub open spec fn spec_new(now: BlockTimeHeight) -> Self {
        StakeBalance {
            deposit_and_stake_activity_balance: TimestampedBalance::spec_new(0, now),
            stake_token_balance: TimestampedBalance::spec_new(0, now),
            locked_stake_token_balance: TimestampedBalance::spec_new(0, now),
        }
    }

    /// zero balances stamped with `now`
    pub fn new(now: BlockTimeHeight) -> (r: Self)
        ensures
            r == Self::spec_new(now),
    {
        StakeBalance {
            deposit_and_stake_activity_balance: TimestampedBalance::new(0, now),
            stake_token_balance: TimestampedBalance::new(0, now),
            locked_stake_token_balance: TimestampedBalance::new(0, now),
        }
    }

    pub fn deposit_and_stake_activity_balance(&self) -> (r: &TimestampedBalance)
        ensures
            *r == self.deposit_and_stake_activity_balance,
    {
        &self.deposit_and_stake_activity_balance
    }

    pub fn stake_token_balance(&self) -> (r: &TimestampedBalance)
        ensures
            *r == self.stake_token_balance,
    {
        &self.stake_token_balance
    }

    pub fn locked_stake_token_balance(&self) -> (r: &TimestampedBalance)
        ensures
            *r == self.locked_stake_token_balance,
    {
        &self.locked_stake_token_balance
    }

    pub open spec fn spec_has_funds(self) -> bool {
        self.deposit_and_stake_activity_balance.balance > 0 || self.stake_token_balance.balance > 0
            || self.locked_stake_token_balance.balance > 0
    }

    /// true if any of the balances is non-zero
    pub fn has_funds(&self) -> (r: bool)
        ensures
            r == self.spec_has_funds(),
    {
        self.deposit_and_stake_activity_balance.balance > 0 || self.stake_token_balance.balance > 0
            || self.locked_stake_token_balance.balance > 0
    }
}

/// STAKE balances keyed by staking pool account ID, each staking pool at most once
pub struct PoolBalances {
    entries: Vec<(String, StakeBalance)>,
}

impl PoolBalances {
    pub closed spec fn key_at(self, i: int) -> Seq<char> {
        self.entries@[i].0@
    }

    /// no staking pool occurs twice
    pub closed spec fn wf(self) -> bool {
        forall|i: int, j: int|
            0 <= i < self.entries@.len() && 0 <= j < self.entries@.len() && i != j ==> #[trigger] self.key_at(i)
                != #[trigger] self.key_at(j)
    }

    pub closed spec fn has_key(self, k: Seq<char>) -> bool {
        exists|i: int| 0 <= i < self.entries@.len() && #[trigger] self.key_at(i) == k
    }

    pub closed spec fn view(self) -> Map<Seq<char>, StakeBalance> {
        Map::new(
            |k: Seq<char>| self.has_key(k),
            |k: Seq<char>|
                self.entries@[choose|i: int| 0 <= i < self.entries@.len() && #[trigger] self.key_at(i) == k].1,
        )
    }

    proof fn lemma_at(self, i: int)
        requires
            self.wf(),
            0 <= i < self.entries@.len(),
        ensures
            self.view().contains_key(self.key_at(i)),
            self.view()[self.key_at(i)] == self.entries@[i].1,
    {
        let k = self.key_at(i);
        assert(self.has_key(k));
        let j = choose|j: int| 0 <= j < self.entries@.len() && #[trigger] self.key_at(j) == k;
        assert(j == i);
    }

    pub fn new() -> (r: Self)
        ensures
            r.wf(),
            r.view() == Map::<Seq<char>, StakeBalance>::empty(),
    {
        let r = PoolBalances { entries: Vec::new() };
        assert(r.view() =~= Map::<Seq<char>, StakeBalance>::empty());
        r
    }

    fn find(&self, k: &str) -> (r: Option<usize>)
        requires
            self.wf(),
        ensures
            match r {
                Some(i) => i < self.entries@.len() && self.key_at(i as int) == k@,
                None => !self.view().contains_key(k@),
            },
    {
        let mut i: usize = 0;
        while i < self.entries.len()
            invariant
                0 <= i <= self.entries@.len(),
                forall|j: int| 0 <= j < i ==> #[trigger] self.key_at(j) != k@,
            decreases self.entries@.len() - i,
        {
            if str_equals(self.entries[i].0.as_str(), k) {
                return Some(i);
            }
            i = i + 1;
        }
        None
    }

    pub fn get(&self, k: &str) -> (r: Option<StakeBalance>)
        requires
            self.wf(),
        ensures
            r == (if self.view().contains_key(k@) {
                Some(self.view()[k@])
            } else {
                None
            }),
    {
        match self.find(k) {
            Some(i) => {
                proof {
                    self.lemma_at(i as int);
                }
                Some(self.entries[i].1)
            },
            None => None,
        }
    }

    /// saves the balance under the staking pool, replacing any previous balance
    pub fn insert(&mut self, k: &str, balance: StakeBalance)
        requires
            old(self).wf(),
        ensures
            final(self).wf(),
            final(self).view() == old(self).view().insert(k@, balance),
    {
        let ghost old_map = *self;
        match self.find(k) {
            Some(i) => {
                proof {
                    old_map.lemma_at(i as int);
                }
                self.entries.set(i, (String::from_str(k), balance));
                assert forall|a: int, b: int|
                    0 <= a < self.entries@.len() && 0 <= b < self.entries@.len() && a != b implies #[trigger] self.key_at(a)
                    != #[trigger] self.key_at(b) by {
                    assert(old_map.key_at(a) != old_map.key_at(b));
                }
                assert forall|key: Seq<char>| self.has_key(key) <==> old_map.has_key(key) by {
                    if self.has_key(key) {
                        let j = choose|j: int| 0 <= j < self.entries@.len() && #[trigger] self.key_at(j) == key;
                        assert(old_map.key_at(j) == key);
                    }
                    if old_map.has_key(key) {
                        let j = choose|j: int| 0 <= j < old_map.entries@.len() && #[trigger] old_map.key_at(j) == key;
                        assert(self.key_at(j) == key);
                    }
                }
                assert forall|key: Seq<char>| self.has_key(key) implies self.view()[key] == old_map.view().insert(
                    k@,
                    balance,
                )[key] by {
                    let j = choose|j: int| 0 <= j < self.entries@.len() && #[trigger] self.key_at(j) == key;
                    self.lemma_at(j);
                    if j != i as int {
                        old_map.lemma_at(j);
                    }
                }
                assert(self.view() =~= old_map.view().insert(k@, balance));
            },
            None => {
                self.entries.push((String::from_str(k), balance));
                let ghost n: int = self.entries@.len() - 1;
                assert forall|a: int, b: int|
                    0 <= a < self.entries@.len() && 0 <= b < self.entries@.len() && a != b implies #[trigger] self.key_at(a)
                    != #[trigger] self.key_at(b) by {
                    if a < n && b < n {
                        assert(old_map.key_at(a) != old_map.key_at(b));
                    } else if a < n {
                        assert(old_map.key_at(a) == self.key_at(a));
                        assert(!old_map.has_key(k@));
                    } else if b < n {
                        assert(old_map.key_at(b) == self.key_at(b));
                        assert(!old_map.has_key(k@));
                    }
                }
                assert forall|key: Seq<char>| self.has_key(key) <==> (old_map.has_key(key) || key == k@) by {
                    if self.has_key(key) {
                        let j = choose|j: int| 0 <= j < self.entries@.len() && #[trigger] self.key_at(j) == key;
                        if j < n {
                            assert(old_map.key_at(j) == key);
                        }
                    }
                    if old_map.has_key(key) {
                        let j = choose|j: int| 0 <= j < old_map.entries@.len() && #[trigger] old_map.key_at(j) == key;
                        assert(self.key_at(j) == key);
                    }
                    if key == k@ {
                        assert(self.key_at(n) == key);
                    }
                }
                assert forall|key: Seq<char>| self.has_key(key) implies self.view()[key] == old_map.view().insert(
                    k@,
                    balance,
                )[key] by {
                    let j = choose|j: int| 0 <= j < self.entries@.len() && #[trigger] self.key_at(j) == key;
                    self.lemma_at(j);
                    if j < n {
                        old_map.lemma_at(j);
                    }
                }
                assert(self.view() =~= old_map.view().insert(k@, balance));
            },
        }
    }

    /// true if no staking pool has a balance
    pub fn is_empty(&self) -> (r: bool)
        requires
            self.wf(),
        ensures
            r == self.view().dom().is_empty(),
    {
        if self.entries.len() == 0 {
            assert(self.view().dom() =~= Set::<Seq<char>>::empty());
            true
        } else {
            proof {
                self.lemma_at(0);
            }
            false
        }
    }

    /// a copy holding the same balances
    pub fn copy(&self) -> (r: Self)
        requires
            self.wf(),
        ensures
            r.wf(),
            r.view() == self.view(),
    {
        let mut entries: Vec<(String, StakeBalance)> = Vec::new();
        let mut i: usize = 0;
        while i < self.entries.len()
            invariant
                0 <= i <= self.entries@.len(),
                entries@.len() == i,
                forall|j: int| 0 <= j < i ==> #[trigger] entries@[j].0@ == self.key_at(j),
                forall|j: int| 0 <= j < i ==> #[trigger] entries@[j].1 == self.entries@[j].1,
            decreases self.entries@.len() - i,
        {
            let name = self.entries[i].0.clone();
            entries.push((name, self.entries[i].1));
            i = i + 1;
        }
        let r = PoolBalances { entries };
        assert forall|j: int| 0 <= j < r.entries@.len() implies #[trigger] r.key_at(j) == self.key_at(j) by {}
        assert forall|a: int, b: int|
            0 <= a < r.entries@.len() && 0 <= b < r.entries@.len() && a != b implies #[trigger] r.key_at(a)
            != #[trigger] r.key_at(b) by {
            assert(self.key_at(a) != self.key_at(b));
        }
        assert forall|key: Seq<char>| r.has_key(key) <==> self.has_key(key) by {
            if r.has_key(key) {
                let j = choose|j: int| 0 <= j < r.entries@.len() && #[trigger] r.key_at(j) == key;
                assert(self.key_at(j) == key);
            }
            if self.has_key(key) {
                let j = choose|j: int| 0 <= j < self.entries@.len() && #[trigger] self.key_at(j) == key;
                assert(r.key_at(j) == key);
            }
        }
        assert forall|key: Seq<char>| r.has_key(key) implies r.view()[key] == self.view()[key] by {
            let j = choose|j: int| 0 <= j < r.entries@.len() && #[trigger] r.key_at(j) == key;
            r.lemma_at(j);
            self.lemma_at(j);
        }
        assert(r.view() =~= self.view());
        r
    }
}

/// an account: its storage escrow and storage usage, its STAKE balances per staking pool, and
/// its NEAR available for withdrawal
pub struct Account {
    pub storage_escrow: TimestampedBalance,
    pub storage_usage: u64,
    /// STAKE token balances per staking pool
    pub stake: PoolBalances,
    /// funds that are available for withdrawal
    pub near: TimestampedBalance,
}

impl Account {
    /// the STAKE balance with the staking pool, or zero balances stamped `now`
    pub open spec fn spec_stake_balance(self, staking_pool_id: Seq<char>, now: BlockTimeHeight) -> StakeBalance {
        if self.stake.view().contains_key(staking_pool_id) {
            self.stake.view()[staking_pool_id]
        } else {
            StakeBalance::spec_new(now)
        }
    }

    /// an account with zero balances stamped `now`, no storage usage and no STAKE
    pub fn new(now: BlockTimeHeight) -> (r: Self)
        ensures
            r.stake.wf(),
            r.storage_escrow == TimestampedBalance::spec_new(0, now),
            r.storage_usage == 0,
            r.stake.view() == Map::<Seq<char>, StakeBalance>::empty(),
            r.near == TimestampedBalance::spec_new(0, now),
    {
        Account {
            storage_escrow: TimestampedBalance::new(0, now),
            storage_usage: 0,
            near: TimestampedBalance::new(0, now),
            stake: PoolBalances::new(),
        }
    }

    /// a copy holding the same balances
    pub fn copy(&self) -> (r: Self)
        requires
            self.stake.wf(),
        ensures
            r.stake.wf(),
            r.storage_escrow == self.storage_escrow,
            r.storage_usage == self.storage_usage,
            r.stake.view() == self.stake.view(),
            r.near == self.near,
    {
        Account {
            storage_escrow: self.storage_escrow,
            storage_usage: self.storage_usage,
            stake: self.stake.copy(),
            near: self.near,
        }
    }

    /// the STAKE balance for the staking pool
    pub fn stake_balance(&self, staking_pool_id: &str, now: BlockTimeHeight) -> (r: StakeBalance)
        requires
            self.stake.wf(),
        ensures
            r == self.spec_stake_balance(staking_pool_id@, now),
    {
        match self.stake.get(staking_pool_id) {
            Some(balance) => balance,
            None => StakeBalance::new(now),
        }
    }

    pub fn is_staked_with(&self, staking_pool_id: &str) -> (r: bool)
        requires
            self.stake.wf(),
        ensures
            r == self.stake.view().contains_key(staking_pool_id@),
    {
        self.stake.get(staking_pool_id).is_some()
    }

    pub fn near_balance(&self) -> (r: &TimestampedBalance)
        ensures
            *r == self.near,
    {
        &self.near
    }

    /// true if the account has NEAR or a STAKE balance with any staking pool
    pub fn has_funds(&self) -> (r: bool)
        requires
            self.stake.wf(),
        ensures
            r == (self.near.balance > 0 || !self.stake.view().dom().is_empty()),
    {
        self.near.balance > 0 || !self.stake.is_empty()
    }

    pub fn apply_near_credit(&mut self, credit: u128, now: BlockTimeHeight)
        requires
            old(self).near.balance + credit <= u128::MAX,
        ensures
            final(self).near == TimestampedBalance::spec_new((old(self).near.balance + credit) as u128, now),
            final(self).storage_escrow == old(self).storage_escrow,
            final(self).storage_usage == old(self).storage_usage,
            final(self).stake == old(self).stake,
    {
        self.near.credit(credit, now)
    }

    pub fn apply_near_debit(&mut self, debit: u128, now: BlockTimeHeight)
        requires
            debit <= old(self).near.balance,
        ensures
            final(self).near == TimestampedBalance::spec_new((old(self).near.balance - debit) as u128, now),
            final(self).storage_escrow == old(self).storage_escrow,
            final(self).storage_usage == old(self).storage_usage,
            final(self).stake == old(self).stake,
    {
        self.near.debit(debit, now)
    }

    pub fn storage_escrow(&self) -> (r: &TimestampedBalance)
        ensures
            *r == self.storage_escrow,
    {
        &self.storage_escrow
    }

    pub fn storage_usage(&self) -> (r: u64)
        ensures
            r == self.storage_usage,
    {
        self.storage_usage
    }

    /// the account takes more storage and escrows the fee for it
    pub fn apply_storage_usage_increase(&mut self, storage_usage: u64, storage_fee: u128, now: BlockTimeHeight)
        requires
            old(self).storage_usage + storage_usage <= u64::MAX,
            old(self).storage_escrow.balance + storage_fee <= u128::MAX,
        ensures
            final(self).storage_usage == old(self).storage_usage + storage_usage,
            final(self).storage_escrow == TimestampedBalance::spec_new(
                (old(self).storage_escrow.balance + storage_fee) as u128,
                now,
            ),
            final(self).near == old(self).near,
            final(self).stake == old(self).stake,
    {
        self.storage_usage = self.storage_usage + storage_usage;
        self.storage_escrow.credit(storage_fee, now);
    }

    /// the account takes less storage and the fee for it leaves the escrow
    pub fn apply_storage_usage_decrease(&mut self, storage_usage: u64, storage_fee: u128, now: BlockTimeHeight)
        requires
            storage_usage <= old(self).storage_usage,
            storage_fee <= old(self).storage_escrow.balance,
        ensures
            final(self).storage_usage == old(self).storage_usage - storage_usage,
            final(self).storage_escrow == TimestampedBalance::spec_new(
                (old(self).storage_escrow.balance - storage_fee) as u128,
                now,
            ),
            final(self).near == old(self).near,
            final(self).stake == old(self).stake,
    {
        self.storage_usage = self.storage_usage - storage_usage;
        self.storage_escrow.debit(storage_fee, now);
    }

    /// records a `deposit_and_stake` request submitted to the staking pool
    pub fn apply_deposit_and_stake_activity(&mut self, staking_pool_id: &str, deposit: u128, now: BlockTimeHeight)
        requires
            old(self).stake.wf(),
            old(self).spec_stake_balance(staking_pool_id@, now).deposit_and_stake_activity_balance.balance + deposit
                <= u128::MAX,
        ensures
            final(self).stake.wf(),
            ({
                let b = old(self).spec_stake_balance(staking_pool_id@, now);
                final(self).stake.view() == old(self).stake.view().insert(
                    staking_pool_id@,
                    StakeBalance {
                        deposit_and_stake_activity_balance: TimestampedBalance::spec_new(
                            (b.deposit_and_stake_activity_balance.balance + deposit) as u128,
                            now,
                        ),
                        ..b
                    },
                )
            }),
            final(self).near == old(self).near,
            final(self).storage_escrow == old(self).storage_escrow,
            final(self).storage_usage == old(self).storage_usage,
    {
        let mut balance = self.stake_balance(staking_pool_id, now);
        balance.deposit_and_stake_activity_balance.credit(deposit, now);
        self.stake.insert(staking_pool_id, balance);
    }

    /// the staking pool confirmed the deposit was staked: it moves from the activity balance to
    /// the STAKE token balance
    pub fn apply_deposit_and_stake_activity_success(&mut self, staking_pool_id: &str, stake_deposit: u128, now: BlockTimeHeight)
        requires
            old(self).stake.wf(),
            stake_deposit <= old(self).spec_stake_balance(staking_pool_id@, now).deposit_and_stake_activity_balance.balance,
            old(self).spec_stake_balance(staking_pool_id@, now).stake_token_balance.balance + stake_deposit <= u128::MAX,
        ensures
            final(self).stake.wf(),
            ({
                let b = old(self).spec_stake_balance(staking_pool_id@, now);
                final(self).stake.view() == old(self).stake.view().insert(
                    staking_pool_id@,
                    StakeBalance {
                        deposit_and_stake_activity_balance: TimestampedBalance::spec_new(
                            (b.deposit_and_stake_activity_balance.balance - stake_deposit) as u128,
                            now,
                        ),
                        stake_token_balance: TimestampedBalance::spec_new(
                            (b.stake_token_balance.balance + stake_deposit) as u128,
                            now,
                        ),
                        ..b
                    },
                )
            }),
            final(self).near == old(self).near,
            final(self).storage_escrow == old(self).storage_escrow,
            final(self).storage_usage == old(self).storage_usage,
    {
        let mut balance = self.stake_balance(staking_pool_id, now);
        balance.deposit_and_stake_activity_balance.debit(stake_deposit, now);
        balance.stake_token_balance.credit(stake_deposit, now);
        self.stake.insert(staking_pool_id, balance);
    }

    /// the `deposit_and_stake` request failed: the deposit moves from the activity balance back to
    /// the NEAR balance; nothing changes if the account is not staked with the staking pool
    pub fn apply_deposit_and_stake_activity_failure(&mut self, staking_pool_id: &str, deposit: u128, now: BlockTimeHeight)
        requires
            old(self).stake.wf(),
            old(self).stake.view().contains_key(staking_pool_id@) ==> {
                &&& deposit <= old(self).stake.view()[staking_pool_id@].deposit_and_stake_activity_balance.balance
                &&& old(self).near.balance + deposit <= u128::MAX
            },
        ensures
            final(self).stake.wf(),
            final(self).storage_escrow == old(self).storage_escrow,
            final(self).storage_usage == old(self).storage_usage,
            !old(self).stake.view().contains_key(staking_pool_id@) ==> final(self).stake.view() == old(
                self,
            ).stake.view() && final(self).near == old(self).near,
            old(self).stake.view().contains_key(staking_pool_id@) ==> {
                let b = old(self).stake.view()[staking_pool_id@];
                &&& final(self).stake.view() == old(self).stake.view().insert(
                    staking_pool_id@,
                    StakeBalance {
                        deposit_and_stake_activity_balance: TimestampedBalance::spec_new(
                            (b.deposit_and_stake_activity_balance.balance - deposit) as u128,
                            now,
                        ),
                        ..b
                    },
                )
                &&& final(self).near == TimestampedBalance::spec_new((old(self).near.balance + deposit) as u128, now)
            },
    {
        if let Some(mut balance) = self.stake.get(staking_pool_id) {
            balance.deposit_and_stake_activity_balance.debit(deposit, now);
            self.stake.insert(staking_pool_id, balance);
            self.near.credit(deposit, now);
        }
    }

    /// locks STAKE, to be unstaked at the next unstaking cycle
    pub fn unstake(&mut self, staking_pool_id: &str, stake_token_amount: u128, now: BlockTimeHeight)
        requires
            old(self).stake.wf(),
            old(self).stake.view().contains_key(staking_pool_id@),
            stake_token_amount <= old(self).stake.view()[staking_pool_id@].stake_token_balance.balance,
            old(self).stake.view()[staking_pool_id@].locked_stake_token_balance.balance + stake_token_amount <= u128::MAX,
        ensures
            final(self).stake.wf(),
            ({
                let b = old(self).stake.view()[staking_pool_id@];
                final(self).stake.view() == old(self).stake.view().insert(
                    staking_pool_id@,
                    StakeBalance {
                        stake_token_balance: TimestampedBalance::spec_new(
                            (b.stake_token_balance.balance - stake_token_amount) as u128,
                            now,
                        ),
                        locked_stake_token_balance: TimestampedBalance::spec_new(
                            (b.locked_stake_token_balance.balance + stake_token_amount) as u128,
                            now,
                        ),
                        ..b
                    },
                )
            }),
            final(self).near == old(self).near,
            final(self).storage_escrow == old(self).storage_escrow,
            final(self).storage_usage == old(self).storage_usage,
    {
        let mut balance = self.stake.get(staking_pool_id).unwrap();
        balance.stake_token_balance.debit(stake_token_amount, now);
        balance.locked_stake_token_balance.credit(stake_token_amount, now);
        self.stake.insert(staking_pool_id, balance);
    }

    /// locks all of the STAKE with the staking pool: returns how much was locked
    pub fn unstake_all(&mut self, staking_pool_id: &str, now: BlockTimeHeight) -> (r: u128)
        requires
            old(self).stake.wf(),
            old(self).stake.view().contains_key(staking_pool_id@) ==> old(self).stake.view()[staking_pool_id@].locked_stake_token_balance.balance
                + old(self).stake.view()[staking_pool_id@].stake_token_balance.balance <= u128::MAX,
        ensures
            final(self).stake.wf(),
            final(self).near == old(self).near,
            final(self).storage_escrow == old(self).storage_escrow,
            final(self).storage_usage == old(self).storage_usage,
            r == (if old(self).stake.view().contains_key(staking_pool_id@) {
                old(self).stake.view()[staking_pool_id@].stake_token_balance.balance
            } else {
                0
            }),
            r == 0 ==> final(self).stake.view() == old(self).stake.view(),
            r > 0 ==> {
                let b = old(self).stake.view()[staking_pool_id@];
                final(self).stake.view() == old(self).stake.view().insert(
                    staking_pool_id@,
                    StakeBalance {
                        stake_token_balance: TimestampedBalance::spec_new(0, now),
                        locked_stake_token_balance: TimestampedBalance::spec_new(
                            (b.locked_stake_token_balance.balance + r) as u128,
                            now,
                        ),
                        ..b
                    },
                )
            },
    {
        match self.stake.get(staking_pool_id) {
            Some(mut balance) => {
                let stake_token_balance = balance.stake_token_balance.balance;
                if stake_token_balance == 0 {
                    return 0;
                }
                balance.stake_token_balance.debit(stake_token_balance, now);
                balance.locked_stake_token_balance.credit(stake_token_balance, now);
                self.stake.insert(staking_pool_id, balance);
                stake_token_balance
            },
            None => 0,
        }
    }

    /// restakes STAKE that is locked, i.e. scheduled to be unstaked, with the staking pool: the
    /// amount moves from the locked STAKE balance back to the STAKE token balance, which lets the
    /// account change how much STAKE it unstakes
    pub fn restake_locked_stake(&mut self, staking_pool_id: &str, stake_token_amount: u128, now: BlockTimeHeight)
        requires
            old(self).stake.wf(),
            old(self).stake.view().contains_key(staking_pool_id@),
            stake_token_amount <= old(self).stake.view()[staking_pool_id@].locked_stake_token_balance.balance,
            old(self).stake.view()[staking_pool_id@].stake_token_balance.balance + stake_token_amount <= u128::MAX,
        ensures
            final(self).stake.wf(),
            ({
                let b = old(self).stake.view()[staking_pool_id@];
                final(self).stake.view() == old(self).stake.view().insert(
                    staking_pool_id@,
                    StakeBalance {
                        stake_token_balance: TimestampedBalance::spec_new(
                            (b.stake_token_balance.balance + stake_token_amount) as u128,
                            now,
                        ),
                        locked_stake_token_balance: TimestampedBalance::spec_new(
                            (b.locked_stake_token_balance.balance - stake_token_amount) as u128,
                            now,
                        ),
                        ..b
                    },
                )
            }),
            final(self).near == old(self).near,
            final(self).storage_escrow == old(self).storage_escrow,
            final(self).storage_usage == old(self).storage_usage,
    {
        let mut balance = self.stake.get(staking_pool_id).unwrap();
        balance.stake_token_balance.credit(stake_token_amount, now);
        balance.locked_stake_token_balance.debit(stake_token_amount, now);
        self.stake.insert(staking_pool_id, balance);
    }

    /// restakes all of the locked STAKE with the staking pool: returns how much was restaked
    pub fn restake_all_locked_stake(&mut self, staking_pool_id: &str, now: BlockTimeHeight) -> (r: u128)
        requires
            old(self).stake.wf(),
            old(self).stake.view().contains_key(staking_pool_id@) ==> old(self).stake.view()[staking_pool_id@].stake_token_balance.balance
                + old(self).stake.view()[staking_pool_id@].locked_stake_token_balance.balance <= u128::MAX,
        ensures
            final(self).stake.wf(),
            final(self).near == old(self).near,
            final(self).storage_escrow == old(self).storage_escrow,
            final(self).storage_usage == old(self).storage_usage,
            r == (if old(self).stake.view().contains_key(staking_pool_id@) {
                old(self).stake.view()[staking_pool_id@].locked_stake_token_balance.balance
            } else {
                0
            }),
            r == 0 ==> final(self).stake.view() == old(self).stake.view(),
            r > 0 ==> {
                let b = old(self).stake.view()[staking_pool_id@];
                final(self).stake.view() == old(self).stake.view().insert(
                    staking_pool_id@,
                    StakeBalance {
                        stake_token_balance: TimestampedBalance::spec_new(
                            (b.stake_token_balance.balance + r) as u128,
                            now,
                        ),
                        locked_stake_token_balance: TimestampedBalance::spec_new(0, now),
                        ..b
                    },
                )
            },
    {
        match self.stake.get(staking_pool_id) {
            Some(mut balance) => {
                let stake_token_balance = balance.locked_stake_token_balance.balance;
                if stake_token_balance == 0 {
                    return 0;
                }
                balance.stake_token_balance.credit(stake_token_balance, now);
                balance.locked_stake_token_balance.debit(stake_token_balance, now);
                self.stake.insert(staking_pool_id, balance);
                stake_token_balance
            },
            None => 0,
        }
    }

    /// stakes NEAR from the account's NEAR balance with the staking pool
    pub fn stake_from_near_balance(&mut self, staking_pool_id: &str, near_token_amount: u128, now: BlockTimeHeight)
        requires
            old(self).stake.wf(),
            near_token_amount <= old(self).near.balance,
            old(self).spec_stake_balance(staking_pool_id@, now).deposit_and_stake_activity_balance.balance
                + near_token_amount <= u128::MAX,
        ensures
            final(self).stake.wf(),
            ({
                let b = old(self).spec_stake_balance(staking_pool_id@, now);
                final(self).stake.view() == old(self).stake.view().insert(
                    staking_pool_id@,
                    StakeBalance {
                        deposit_and_stake_activity_balance: TimestampedBalance::spec_new(
                            (b.deposit_and_stake_activity_balance.balance + near_token_amount) as u128,
                            now,
                        ),
                        ..b
                    },
                )
            }),
            final(self).near == TimestampedBalance::spec_new((old(self).near.balance - near_token_amount) as u128, now),
            final(self).storage_escrow == old(self).storage_escrow,
            final(self).storage_usage == old(self).storage_usage,
    {
        self.apply_deposit_and_stake_activity(staking_pool_id, near_token_amount, now);
        self.near.debit(near_token_amount, now);
    }

    /// stakes all of the account's NEAR balance with the staking pool: returns how much NEAR
    /// was staked
    pub fn stake_all_near_balance(&mut self, staking_pool_id: &str, near_token_amount: u128, now: BlockTimeHeight) -> (r: u128)
        requires
            old(self).stake.wf(),
            old(self).spec_stake_balance(staking_pool_id@, now).deposit_and_stake_activity_balance.balance
                + old(self).near.balance <= u128::MAX,
        ensures
            final(self).stake.wf(),
            r == old(self).near.balance,
            r == 0 ==> final(self).stake.view() == old(self).stake.view() && final(self).near == old(self).near,
            r > 0 ==> {
                let b = old(self).spec_stake_balance(staking_pool_id@, now);
                &&& final(self).stake.view() == old(self).stake.view().insert(
                    staking_pool_id@,
                    StakeBalance {
                        deposit_and_stake_activity_balance: TimestampedBalance::spec_new(
                            (b.deposit_and_stake_activity_balance.balance + r) as u128,
                            now,
                        ),
                        ..b
                    },
                )
                &&& final(self).near == TimestampedBalance::spec_new(0, now)
            },
            final(self).storage_escrow == old(self).storage_escrow,
            final(self).storage_usage == old(self).storage_usage,
    {
        let near_balance = self.near.balance;
        if near_balance == 0 {
            return 0;
        }
        self.apply_deposit_and_stake_activity(staking_pool_id, near_balance, now);
        self.near.debit(near_balance, now);
        near_balance
    }
}

} // verus!
