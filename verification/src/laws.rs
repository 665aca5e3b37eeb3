//! What holds of the operations, whatever their inputs.

use crate::accounts::{AddFunds, InitializeDeposit, InitializeDepositByAmount, Withdraw};
use crate::encoding::{
    lemma_array8_view,
    lemma_le_bytes_injective,
    lemma_le_bytes_len,
    twos_complement,
};
use crate::errors::{AccountError, ErrorCode, Rejection};
use crate::instructions::{
    add_funds_outcome,
    add_funds_result,
    initialize_deposit_by_amount_result,
    initialize_deposit_result,
    withdraw_outcome,
    withdraw_result,
};
use crate::seeds::{custody_address, deposit_address};
use crate::address::Address;
use crate::state::{DepositState, LockCondition};
use vstd::prelude::*;

verus! {

/// The accounts as an operation leaves them: the new ones where it
/// succeeded, the old ones where it failed.
pub open spec fn accounts_after<C, E>(before: C, outcome: Result<(C, E), Rejection>) -> C {
    match outcome {
        Ok((after, _)) => after,
        Err(_) => before,
    }
}

/// The operation failed, for the reason `rejection`.
pub open spec fn fails_with<C, E>(outcome: Result<(C, E), Rejection>, rejection: Rejection) -> bool {
    outcome matches Err(reason) && reason == rejection
}

/// The lock seed of a condition has eight bytes.
pub proof fn lemma_seed_len(condition: LockCondition)
    ensures
        condition.seed().len() == 8,
{
    lemma_le_bytes_len(twos_complement(condition.unlock_timestamp), 8);
    lemma_le_bytes_len(condition.unlock_amount as nat, 8);
}

/// `256^8` is `2^64`.
proof fn lemma_pow_256_8()
    ensures
        vstd::arithmetic::power::pow(256, 8) == 0x1_0000_0000_0000_0000,
{
    reveal_with_fuel(vstd::arithmetic::power::pow, 9);
}

/// The lock seed tells the unlock values apart: two conditions by time with
/// the same lock seed unlock at the same time, and two conditions by amount
/// with the same lock seed have the same target balance.
pub proof fn law_lock_seed_is_injective(
    first_timestamp: i64,
    second_timestamp: i64,
    first_amount: u64,
    second_amount: u64,
)
    ensures
        LockCondition::time_lock(first_timestamp).seed() == LockCondition::time_lock(
            second_timestamp,
        ).seed() ==> first_timestamp == second_timestamp,
        LockCondition::amount_lock(first_amount).seed() == LockCondition::amount_lock(
            second_amount,
        ).seed() ==> first_amount == second_amount,
{
    lemma_pow_256_8();
    if LockCondition::time_lock(first_timestamp).seed() == LockCondition::time_lock(
        second_timestamp,
    ).seed() {
        lemma_le_bytes_injective(
            twos_complement(first_timestamp),
            twos_complement(second_timestamp),
            8,
        );
    }
    if LockCondition::amount_lock(first_amount).seed() == LockCondition::amount_lock(
        second_amount,
    ).seed() {
        lemma_le_bytes_injective(first_amount as nat, second_amount as nat, 8);
    }
}

/// A deposit created by time lives where its owner, its unlock time and its
/// counter say: the address of the deposit and the address of its vault are
/// those derived from the three, so that deriving them again from the record
/// gives the addresses stored.
pub proof fn law_created_by_time_is_derived(
    accounts: InitializeDeposit,
    amount: u64,
    unlock_timestamp: i64,
    counter: u32,
    current_timestamp: i64,
)
    ensures
        initialize_deposit_result(accounts, amount, unlock_timestamp, counter, current_timestamp)
            matches Ok((after, _)) ==> {
            &&& after.deposit matches Some(record)
            &&& record.owner == accounts.owner
            &&& record.counter == counter
            &&& record.lock_seed@ == LockCondition::time_lock(unlock_timestamp).seed()
            &&& deposit_address(
                accounts.program_id,
                record.owner,
                record.lock_seed@,
                record.counter,
            ) == Some((after.deposit_key, record.bump))
            &&& custody_address(
                accounts.program_id,
                record.owner,
                record.lock_seed@,
                record.counter,
            ) == Some(record.vault_token_account)
        },
{
    let condition = LockCondition::time_lock(unlock_timestamp);
    lemma_seed_len(condition);
    lemma_array8_view(condition.seed());
}

/// A deposit created by amount lives where its owner, its target balance and
/// its counter say: the address of the deposit and the address of its vault
/// are those derived from the three, so that deriving them again from the
/// record gives the addresses stored.
pub proof fn law_created_by_amount_is_derived(
    accounts: InitializeDepositByAmount,
    amount: u64,
    unlock_amount: u64,
    counter: u32,
    current_timestamp: i64,
)
    ensures
        initialize_deposit_by_amount_result(
            accounts,
            amount,
            unlock_amount,
            counter,
            current_timestamp,
        ) matches Ok((after, _)) ==> {
            &&& after.deposit matches Some(record)
            &&& record.owner == accounts.owner
            &&& record.counter == counter
            &&& record.lock_seed@ == LockCondition::amount_lock(unlock_amount).seed()
            &&& deposit_address(
                accounts.program_id,
                record.owner,
                record.lock_seed@,
                record.counter,
            ) == Some((after.deposit_key, record.bump))
            &&& custody_address(
                accounts.program_id,
                record.owner,
                record.lock_seed@,
                record.counter,
            ) == Some(record.vault_token_account)
        },
{
    let condition = LockCondition::amount_lock(unlock_amount);
    lemma_seed_len(condition);
    lemma_array8_view(condition.seed());
}

/// Two creations by time for the same program, owner, unlock time and counter
/// lead to the same addresses, whatever else differs between them.
pub proof fn law_addresses_are_deterministic(
    first: InitializeDeposit,
    first_amount: u64,
    first_timestamp: i64,
    second: InitializeDeposit,
    second_amount: u64,
    second_timestamp: i64,
    unlock_timestamp: i64,
    counter: u32,
)
    requires
        first.program_id == second.program_id,
        first.owner == second.owner,
    ensures
        initialize_deposit_result(first, first_amount, unlock_timestamp, counter, first_timestamp)
            matches Ok((a, _)) ==> initialize_deposit_result(
            second,
            second_amount,
            unlock_timestamp,
            counter,
            second_timestamp,
        ) matches Ok((b, _)) ==> {
            &&& a.deposit_key == b.deposit_key
            &&& a.vault_key == b.vault_key
            &&& a.deposit.unwrap().vault_token_account == b.deposit.unwrap().vault_token_account
            &&& a.deposit.unwrap().bump == b.deposit.unwrap().bump
        },
{
}

/// Of two creations by time for the same program, owner, unlock time and
/// counter, the second fails once the first has succeeded. Where it is handed
/// the address of the first deposit, at which it sees the record that the
/// first left, it fails because the deposit exists already; where it is
/// handed another address, because that is not the derived one. Either way
/// it leaves what it was handed as it was: the first record is not touched.
pub proof fn law_second_creation_is_rejected(
    first: InitializeDeposit,
    first_amount: u64,
    first_timestamp: i64,
    second: InitializeDeposit,
    second_amount: u64,
    second_timestamp: i64,
    unlock_timestamp: i64,
    counter: u32,
)
    requires
        first.program_id == second.program_id,
        first.owner == second.owner,
        initialize_deposit_result(first, first_amount, unlock_timestamp, counter, first_timestamp)
            is Ok,
        second.deposit_key == first.deposit_key ==> second.deposit == accounts_after(
            first,
            initialize_deposit_result(
                first,
                first_amount,
                unlock_timestamp,
                counter,
                first_timestamp,
            ),
        ).deposit,
    ensures
        fails_with(
            initialize_deposit_result(
                second,
                second_amount,
                unlock_timestamp,
                counter,
                second_timestamp,
            ),
            Rejection::Accounts(
                if second.deposit_key == first.deposit_key {
                    AccountError::AlreadyInitialized
                } else {
                    AccountError::SeedsMismatch
                },
            ),
        ),
        accounts_after(
            second,
            initialize_deposit_result(
                second,
                second_amount,
                unlock_timestamp,
                counter,
                second_timestamp,
            ),
        ) == second,
{
}

/// The same of two creations by amount for the same program, owner, target
/// balance and counter.
pub proof fn law_second_creation_by_amount_is_rejected(
    first: InitializeDepositByAmount,
    first_amount: u64,
    first_timestamp: i64,
    second: InitializeDepositByAmount,
    second_amount: u64,
    second_timestamp: i64,
    unlock_amount: u64,
    counter: u32,
)
    requires
        first.program_id == second.program_id,
        first.owner == second.owner,
        initialize_deposit_by_amount_result(
            first,
            first_amount,
            unlock_amount,
            counter,
            first_timestamp,
        ) is Ok,
        second.deposit_key == first.deposit_key ==> second.deposit == accounts_after(
            first,
            initialize_deposit_by_amount_result(
                first,
                first_amount,
                unlock_amount,
                counter,
                first_timestamp,
            ),
        ).deposit,
    ensures
        fails_with(
            initialize_deposit_by_amount_result(
                second,
                second_amount,
                unlock_amount,
                counter,
                second_timestamp,
            ),
            Rejection::Accounts(
                if second.deposit_key == first.deposit_key {
                    AccountError::AlreadyInitialized
                } else {
                    AccountError::SeedsMismatch
                },
            ),
        ),
        accounts_after(
            second,
            initialize_deposit_by_amount_result(
                second,
                second_amount,
                unlock_amount,
                counter,
                second_timestamp,
            ),
        ) == second,
{
}

/// A record that was just created holds a positive amount, is active, and
/// keeps the invariant of records.
pub proof fn law_created_record_is_well_formed(
    accounts: InitializeDeposit,
    amount: u64,
    unlock_timestamp: i64,
    counter: u32,
    current_timestamp: i64,
    by_amount: InitializeDepositByAmount,
    unlock_amount: u64,
)
    ensures
        initialize_deposit_result(accounts, amount, unlock_timestamp, counter, current_timestamp)
            matches Ok((after, _)) ==> {
            &&& after.deposit matches Some(record)
            &&& record.amount == amount
            &&& record.amount > 0
            &&& record.state == DepositState::Active
            &&& record.balance_matches_state()
            &&& record.wf()
        },
        initialize_deposit_by_amount_result(
            by_amount,
            amount,
            unlock_amount,
            counter,
            current_timestamp,
        ) matches Ok((after, _)) ==> {
            &&& after.deposit matches Some(record)
            &&& record.amount == amount
            &&& record.amount > 0
            &&& record.state == DepositState::Active
            &&& record.balance_matches_state()
            &&& record.wf()
        },
{
    lemma_seed_len(LockCondition::time_lock(unlock_timestamp));
    lemma_array8_view(LockCondition::time_lock(unlock_timestamp).seed());
    lemma_seed_len(LockCondition::amount_lock(unlock_amount));
    lemma_array8_view(LockCondition::amount_lock(unlock_amount).seed());
}

/// Adding funds and withdrawing keep the invariant of records: where the
/// record held nothing if and only if it had been withdrawn, the same is true
/// after either, failed or not; and a record that was well formed stays so.
pub proof fn law_invariant_is_kept(
    funding: AddFunds,
    additional_amount: u64,
    withdrawal: Withdraw,
    current_timestamp: i64,
)
    ensures
        funding.deposit.balance_matches_state() ==> accounts_after(
            funding,
            add_funds_result(funding, additional_amount),
        ).deposit.balance_matches_state(),
        withdrawal.deposit.balance_matches_state() ==> accounts_after(
            withdrawal,
            withdraw_result(withdrawal, current_timestamp),
        ).deposit.balance_matches_state(),
        funding.deposit.wf() ==> accounts_after(
            funding,
            add_funds_result(funding, additional_amount),
        ).deposit.wf(),
        withdrawal.deposit.wf() ==> accounts_after(
            withdrawal,
            withdraw_result(withdrawal, current_timestamp),
        ).deposit.wf(),
{
}

/// Only the balance and the state of a record ever change: adding funds and
/// withdrawing leave its owner, token, vault, condition, lock seed, counter,
/// time of creation and bump as they were.
pub proof fn law_identity_is_immutable(
    funding: AddFunds,
    additional_amount: u64,
    withdrawal: Withdraw,
    current_timestamp: i64,
)
    ensures
        ({
            let before = funding.deposit;
            let after = accounts_after(
                funding,
                add_funds_result(funding, additional_amount),
            ).deposit;
            &&& after.owner == before.owner
            &&& after.mint == before.mint
            &&& after.vault_token_account == before.vault_token_account
            &&& after.lock_condition == before.lock_condition
            &&& after.lock_seed == before.lock_seed
            &&& after.counter == before.counter
            &&& after.created_at == before.created_at
            &&& after.bump == before.bump
            &&& after.state == before.state
            &&& after.amount >= before.amount
        }),
        ({
            let before = withdrawal.deposit;
            let after = accounts_after(
                withdrawal,
                withdraw_result(withdrawal, current_timestamp),
            ).deposit;
            &&& after.owner == before.owner
            &&& after.mint == before.mint
            &&& after.vault_token_account == before.vault_token_account
            &&& after.lock_condition == before.lock_condition
            &&& after.lock_seed == before.lock_seed
            &&& after.counter == before.counter
            &&& after.created_at == before.created_at
            &&& after.bump == before.bump
        }),
{
}

/// A withdrawn deposit stays withdrawn: whatever address its seeds give,
/// adding funds to it and withdrawing it again both fail, and where its
/// accounts pass their check, they fail because the deposit is not active.
pub proof fn law_withdrawn_is_terminal(
    funding: AddFunds,
    additional_amount: u64,
    withdrawal: Withdraw,
    current_timestamp: i64,
    derived: Option<Address>,
)
    requires
        funding.deposit.state == DepositState::Withdrawn,
        withdrawal.deposit.state == DepositState::Withdrawn,
    ensures
        add_funds_outcome(funding, additional_amount, derived) is Err,
        funding.accounts_check(derived) is Ok && additional_amount > 0 ==> fails_with(
            add_funds_outcome(funding, additional_amount, derived),
            Rejection::Program(ErrorCode::NotActive),
        ),
        withdraw_outcome(withdrawal, current_timestamp, derived) is Err,
        withdrawal.accounts_check(derived) is Ok ==> fails_with(
            withdraw_outcome(withdrawal, current_timestamp, derived),
            Rejection::Program(ErrorCode::NotActive),
        ),
{
}

/// A withdrawal pays out all that the deposit held, under the authority of
/// the deposit, with a proof that gives authority over the address of the
/// deposit; and it leaves the deposit withdrawn and empty.
pub proof fn law_withdrawal_pays_out_all(withdrawal: Withdraw, current_timestamp: i64)
    ensures
        withdraw_result(withdrawal, current_timestamp) matches Ok((after, effects)) ==> {
            &&& effects.transfer.amount == withdrawal.deposit.amount
            &&& effects.transfer.from == withdrawal.deposit.vault_token_account
            &&& effects.transfer.authority == withdrawal.deposit_key
            &&& effects.transfer.proof matches Some(proof)
            &&& proof.address(withdrawal.program_id) == Some(withdrawal.deposit_key)
            &&& after.deposit.amount == 0
            &&& after.deposit.state == DepositState::Withdrawn
            &&& withdrawal.deposit.unlocked(current_timestamp)
            &&& withdrawal.deposit.owner == withdrawal.owner
        },
{
}

} // verus!
