//! The deposit record and its lock condition.

use crate::address::Address;
use crate::encoding::{array8, i64_le_bytes, le_bytes, lemma_array8_of_view, twos_complement, u64_le_bytes};
use vstd::prelude::*;

verus! {

/// Which of the two conditions locks a deposit.
#[derive(Clone, Copy, Debug, PartialEq, Eq, Structural)]
pub enum ConditionType {
    /// Locked until a point in time.
    ByTime,
    /// Locked until the deposit holds a target balance.
    ByAmount,
}

/// Whether a deposit still holds its funds.
#[derive(Clone, Copy, Debug, PartialEq, Eq, Structural)]
pub enum DepositState {
    Active,
    Withdrawn,
}

/// The condition under which a deposit is released. Of the two payload
/// fields only the one that `condition_type` names counts; the other is zero.
#[derive(Clone, Copy, Debug, PartialEq, Eq, Structural)]
pub struct LockCondition {
    pub unlock_timestamp: i64,
    pub unlock_amount: u64,
    pub condition_type: ConditionType,
}

impl LockCondition {
    /// The condition is in the form in which the library creates it.
    pub open spec fn wf(&self) -> bool {
        match self.condition_type {
            ConditionType::ByTime => self.unlock_amount == 0,
            ConditionType::ByAmount => self.unlock_timestamp == 0 && self.unlock_amount > 0,
        }
    }

    /// Release is permitted for a deposit that holds `amount`, at the time
    /// `current_timestamp`.
    pub open spec fn permits(&self, amount: u64, current_timestamp: i64) -> bool {
        match self.condition_type {
            ConditionType::ByTime => current_timestamp >= self.unlock_timestamp,
            ConditionType::ByAmount => amount >= self.unlock_amount,
        }
    }

    /// The bytes that stand for the condition in the seeds of a deposit: its
    /// unlock time, or its target balance, in eight bytes.
    pub open spec fn seed(&self) -> Seq<u8> {
        match self.condition_type {
            ConditionType::ByTime => le_bytes(twos_complement(self.unlock_timestamp), 8),
            ConditionType::ByAmount => le_bytes(self.unlock_amount as nat, 8),
        }
    }

    /// The condition that holds from `unlock_timestamp` on.
    pub open spec fn time_lock(unlock_timestamp: i64) -> LockCondition {
        LockCondition { unlock_timestamp, unlock_amount: 0, condition_type: ConditionType::ByTime }
    }

    /// The condition that holds once the deposit holds `unlock_amount`.
    pub open spec fn amount_lock(unlock_amount: u64) -> LockCondition {
        LockCondition { unlock_timestamp: 0, unlock_amount, condition_type: ConditionType::ByAmount }
    }

    /// The condition that holds from `unlock_timestamp` on.
    pub fn by_time(unlock_timestamp: i64) -> (condition: LockCondition)
        ensures
            condition == LockCondition::time_lock(unlock_timestamp),
            condition.wf(),
    {
        LockCondition { unlock_timestamp, unlock_amount: 0, condition_type: ConditionType::ByTime }
    }

    /// The condition that holds once the deposit holds `unlock_amount`.
    pub fn by_amount(unlock_amount: u64) -> (condition: LockCondition)
        ensures
            condition == LockCondition::amount_lock(unlock_amount),
            unlock_amount > 0 ==> condition.wf(),
    {
        LockCondition { unlock_timestamp: 0, unlock_amount, condition_type: ConditionType::ByAmount }
    }

    /// Evaluates the condition for a deposit that holds `amount`, at the time
    /// `current_timestamp`.
    pub fn is_met(&self, amount: u64, current_timestamp: i64) -> (met: bool)
        ensures
            met == self.permits(amount, current_timestamp),
    {
        match self.condition_type {
            ConditionType::ByTime => current_timestamp >= self.unlock_timestamp,
            ConditionType::ByAmount => amount >= self.unlock_amount,
        }
    }

    /// The lock seed of the condition.
    pub fn lock_seed(&self) -> (seed: [u8; 8])
        ensures
            seed@ == self.seed(),
            seed == array8(self.seed()),
    {
        let seed = match self.condition_type {
            ConditionType::ByTime => i64_le_bytes(self.unlock_timestamp),
            ConditionType::ByAmount => u64_le_bytes(self.unlock_amount),
        };
        proof {
            lemma_array8_of_view(seed);
        }
        seed
    }
}

/// Whether two lock seeds hold the same bytes.
fn same_bytes(a: &[u8; 8], b: &[u8; 8]) -> (same: bool)
    ensures
        same == (a@ == b@),
{
    let mut i: usize = 0;
    while i < 8
        invariant
            i <= 8,
            forall|k: int| 0 <= k < i ==> a@[k] == b@[k],
        decreases 8 - i,
    {
        if a[i] != b[i] {
            return false;
        }
        i += 1;
    }
    proof {
        assert(a@ =~= b@);
    }
    true
}

/// One locked deposit.
#[derive(Clone, Copy, Debug, PartialEq, Eq)]
pub struct TimeLockDeposit {
    /// Who made the deposit, and alone may add to it or withdraw it.
    pub owner: Address,
    /// The token that is locked.
    pub mint: Address,
    /// The account that holds the locked tokens.
    pub vault_token_account: Address,
    /// The balance that is locked.
    pub amount: u64,
    pub lock_condition: LockCondition,
    /// The bytes of the condition that entered the address of the deposit.
    pub lock_seed: [u8; 8],
    /// Tells apart the deposits of one owner under one condition.
    pub counter: u32,
    pub state: DepositState,
    /// When the deposit was created.
    pub created_at: i64,
    /// The bump found with the address of the deposit.
    pub bump: u8,
}

impl TimeLockDeposit {
    /// A record holds nothing if and only if it has been withdrawn.
    pub open spec fn balance_matches_state(&self) -> bool {
        self.amount == 0 <==> self.state == DepositState::Withdrawn
    }

    /// The invariant of a record: it holds nothing if and only if it has been
    /// withdrawn, its condition is in the form in which the library creates
    /// it, and its lock seed is that of its condition.
    pub open spec fn wf(&self) -> bool {
        &&& self.balance_matches_state()
        &&& self.lock_condition.wf()
        &&& self.lock_seed@ == self.lock_condition.seed()
    }

    /// Release is permitted at the time `current_timestamp`.
    pub open spec fn unlocked(&self, current_timestamp: i64) -> bool {
        self.lock_condition.permits(self.amount, current_timestamp)
    }

    /// Whether the record keeps the invariant of records.
    pub fn is_well_formed(&self) -> (well_formed: bool)
        ensures
            well_formed == self.wf(),
    {
        let balanced = match self.state {
            DepositState::Active => self.amount != 0,
            DepositState::Withdrawn => self.amount == 0,
        };
        let condition = match self.lock_condition.condition_type {
            ConditionType::ByTime => self.lock_condition.unlock_amount == 0,
            ConditionType::ByAmount => self.lock_condition.unlock_timestamp == 0
                && self.lock_condition.unlock_amount > 0,
        };
        let seed = self.lock_condition.lock_seed();
        balanced && condition && same_bytes(&self.lock_seed, &seed)
    }

    /// Whether the lock condition of the deposit holds at `current_timestamp`.
    pub fn is_unlocked(&self, current_timestamp: i64) -> (unlocked: bool)
        ensures
            unlocked == self.unlocked(current_timestamp),
    {
        self.lock_condition.is_met(self.amount, current_timestamp)
    }
}

} // verus!
