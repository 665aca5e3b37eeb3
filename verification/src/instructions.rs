//! The four operations on deposits.
//!
//! Each operation first checks its accounts, then the rules of the deposit,
//! and only then changes the record. An operation that fails changes
//! nothing. One that succeeds returns the transfer that belongs to the change
//! and the event that tells of it.

use crate::accounts::{AddFunds, InitializeDeposit, InitializeDepositByAmount, TokenAccount, Withdraw};
use crate::address::Address;
use crate::encoding::array8;
use crate::errors::{ErrorCode, Rejection};
use crate::events::{DepositCreated, DepositCreatedByAmount, DepositFundsAdded, DepositWithdrawn};
use crate::seeds::{
    authority_address,
    custody_address,
    deposit_address,
    find_deposit_address,
    find_vault_address,
    vault_address,
};
use crate::state::{ConditionType, DepositState, LockCondition, TimeLockDeposit};
use crate::transfer::{AuthorityProof, Effects, Transfer};
use vstd::prelude::*;

verus! {

/// An operation ended as `outcome` says: on success the accounts are the new
/// ones and the effects are returned; on failure the accounts are unchanged
/// and the reason is returned.
pub open spec fn commits<C, E>(
    before: C,
    after: C,
    result: Result<E, Rejection>,
    outcome: Result<(C, E), Rejection>,
) -> bool {
    match outcome {
        Ok((accounts, effects)) => after == accounts && result == Ok::<E, Rejection>(effects),
        Err(rejection) => after == before && result == Err::<E, Rejection>(rejection),
    }
}

/// Why the rules refuse to create a deposit of `amount` under `condition` at
/// the time `current_timestamp`, if they do.
pub open spec fn creation_refusal(
    amount: u64,
    condition: LockCondition,
    current_timestamp: i64,
) -> Option<ErrorCode> {
    match condition.condition_type {
        ConditionType::ByTime => if amount == 0 {
            Some(ErrorCode::InvalidAmount)
        } else if condition.unlock_timestamp <= current_timestamp {
            Some(ErrorCode::InvalidTimestamp)
        } else {
            None
        },
        ConditionType::ByAmount => if amount == 0 || condition.unlock_amount == 0 {
            Some(ErrorCode::InvalidAmount)
        } else {
            None
        },
    }
}

/// The record of a deposit that was just created.
pub open spec fn new_record(
    accounts: InitializeDeposit,
    amount: u64,
    condition: LockCondition,
    counter: u32,
    current_timestamp: i64,
    bump: u8,
) -> TimeLockDeposit {
    TimeLockDeposit {
        owner: accounts.owner,
        mint: accounts.mint,
        vault_token_account: accounts.vault_key,
        amount,
        lock_condition: condition,
        lock_seed: array8(condition.seed()),
        counter,
        state: DepositState::Active,
        created_at: current_timestamp,
        bump,
    }
}

/// The vault of a deposit that was just created: empty, for the token of the
/// deposit, under the authority of the deposit.
pub open spec fn new_vault(accounts: InitializeDeposit) -> TokenAccount {
    TokenAccount {
        key: accounts.vault_key,
        owner: accounts.deposit_key,
        mint: accounts.mint,
        amount: 0,
    }
}

/// The transfer that pays `amount` into the vault at `vault`, under the
/// authority of the owner.
pub open spec fn payment(owner_token_account: Address, vault: Address, owner: Address, amount: u64)
    -> Transfer {
    Transfer { from: owner_token_account, to: vault, authority: owner, amount, proof: None }
}

/// How the creation of a deposit ends, given what the search found for the
/// seeds of the deposit and of its vault.
pub open spec fn creation_outcome(
    accounts: InitializeDeposit,
    amount: u64,
    condition: LockCondition,
    counter: u32,
    current_timestamp: i64,
    deposit_found: Option<(Address, u8)>,
    vault_found: Option<(Address, u8)>,
) -> Result<(InitializeDeposit, Transfer), Rejection> {
    match accounts.accounts_check(deposit_found, vault_found) {
        Err(error) => Err(Rejection::Accounts(error)),
        Ok(bump) => match creation_refusal(amount, condition, current_timestamp) {
            Some(code) => Err(Rejection::Program(code)),
            None => Ok(
                (
                    InitializeDeposit {
                        deposit: Some(
                            new_record(accounts, amount, condition, counter, current_timestamp, bump),
                        ),
                        vault_token_account: Some(new_vault(accounts)),
                        ..accounts
                    },
                    payment(
                        accounts.owner_token_account.key,
                        accounts.vault_key,
                        accounts.owner,
                        amount,
                    ),
                ),
            ),
        },
    }
}

/// How `initialize_deposit` ends, given what the search found for the seeds
/// of the deposit and of its vault.
pub open spec fn initialize_deposit_outcome(
    accounts: InitializeDeposit,
    amount: u64,
    unlock_timestamp: i64,
    counter: u32,
    current_timestamp: i64,
    deposit_found: Option<(Address, u8)>,
    vault_found: Option<(Address, u8)>,
) -> Result<(InitializeDeposit, Effects<DepositCreated>), Rejection> {
    match creation_outcome(
        accounts,
        amount,
        LockCondition::time_lock(unlock_timestamp),
        counter,
        current_timestamp,
        deposit_found,
        vault_found,
    ) {
        Ok((after, transfer)) => Ok(
            (
                after,
                Effects {
                    transfer,
                    event: DepositCreated {
                        owner: accounts.owner,
                        amount,
                        unlock_timestamp,
                        token: accounts.mint,
                    },
                },
            ),
        ),
        Err(rejection) => Err(rejection),
    }
}

/// How `initialize_deposit_by_amount` ends, given what the search found for
/// the seeds of the deposit and of its vault.
pub open spec fn initialize_deposit_by_amount_outcome(
    accounts: InitializeDepositByAmount,
    amount: u64,
    unlock_amount: u64,
    counter: u32,
    current_timestamp: i64,
    deposit_found: Option<(Address, u8)>,
    vault_found: Option<(Address, u8)>,
) -> Result<(InitializeDepositByAmount, Effects<DepositCreatedByAmount>), Rejection> {
    match creation_outcome(
        accounts.as_creation(),
        amount,
        LockCondition::amount_lock(unlock_amount),
        counter,
        current_timestamp,
        deposit_found,
        vault_found,
    ) {
        Ok((after, transfer)) => Ok(
            (
                InitializeDepositByAmount::of_creation(after),
                Effects {
                    transfer,
                    event: DepositCreatedByAmount {
                        owner: accounts.owner,
                        amount,
                        unlock_amount,
                        token: accounts.mint,
                    },
                },
            ),
        ),
        Err(rejection) => Err(rejection),
    }
}

/// How `add_funds` ends, given the address `derived` that the seeds and the
/// bump of the record give.
pub open spec fn add_funds_outcome(
    accounts: AddFunds,
    additional_amount: u64,
    derived: Option<Address>,
) -> Result<(AddFunds, Effects<DepositFundsAdded>), Rejection> {
    match accounts.accounts_check(derived) {
        Err(error) => Err(Rejection::Accounts(error)),
        Ok(_) => if additional_amount == 0 {
            Err(Rejection::Program(ErrorCode::InvalidAmount))
        } else if accounts.deposit.state != DepositState::Active {
            Err(Rejection::Program(ErrorCode::NotActive))
        } else if accounts.deposit.owner != accounts.owner {
            Err(Rejection::Program(ErrorCode::Unauthorized))
        } else if accounts.deposit.amount + additional_amount > u64::MAX {
            Err(Rejection::Program(ErrorCode::Overflow))
        } else {
            let new_amount = (accounts.deposit.amount + additional_amount) as u64;
            Ok(
                (
                    AddFunds {
                        deposit: TimeLockDeposit { amount: new_amount, ..accounts.deposit },
                        ..accounts
                    },
                    Effects {
                        transfer: payment(
                            accounts.owner_token_account.key,
                            accounts.vault_token_account.key,
                            accounts.owner,
                            additional_amount,
                        ),
                        event: DepositFundsAdded {
                            owner: accounts.deposit.owner,
                            deposit: accounts.deposit_key,
                            additional_amount,
                            new_total_amount: new_amount,
                        },
                    },
                ),
            )
        },
    }
}

/// How `withdraw` ends, given the address `derived` that the seeds and the
/// bump of the record give.
pub open spec fn withdraw_outcome(
    accounts: Withdraw,
    current_timestamp: i64,
    derived: Option<Address>,
) -> Result<(Withdraw, Effects<DepositWithdrawn>), Rejection> {
    match accounts.accounts_check(derived) {
        Err(error) => Err(Rejection::Accounts(error)),
        Ok(_) => if accounts.deposit.state != DepositState::Active {
            Err(Rejection::Program(ErrorCode::NotActive))
        } else if accounts.deposit.owner != accounts.owner {
            Err(Rejection::Program(ErrorCode::Unauthorized))
        } else if !accounts.deposit.unlocked(current_timestamp) {
            Err(Rejection::Program(ErrorCode::ConditionsNotMet))
        } else {
            Ok(
                (
                    Withdraw {
                        deposit: TimeLockDeposit {
                            amount: 0,
                            state: DepositState::Withdrawn,
                            ..accounts.deposit
                        },
                        ..accounts
                    },
                    Effects {
                        transfer: Transfer {
                            from: accounts.vault_token_account.key,
                            to: accounts.owner_token_account.key,
                            authority: accounts.deposit_key,
                            amount: accounts.deposit.amount,
                            proof: Some(AuthorityProof::of_record(accounts.deposit)),
                        },
                        event: DepositWithdrawn {
                            owner: accounts.deposit.owner,
                            amount: accounts.deposit.amount,
                            token: accounts.deposit.mint,
                            time: current_timestamp,
                        },
                    },
                ),
            )
        },
    }
}

/// How `initialize_deposit` ends.
pub open spec fn initialize_deposit_result(
    accounts: InitializeDeposit,
    amount: u64,
    unlock_timestamp: i64,
    counter: u32,
    current_timestamp: i64,
) -> Result<(InitializeDeposit, Effects<DepositCreated>), Rejection> {
    initialize_deposit_outcome(
        accounts,
        amount,
        unlock_timestamp,
        counter,
        current_timestamp,
        deposit_address(
            accounts.program_id,
            accounts.owner,
            LockCondition::time_lock(unlock_timestamp).seed(),
            counter,
        ),
        vault_address(accounts.program_id, accounts.deposit_key),
    )
}

/// How `initialize_deposit_by_amount` ends.
pub open spec fn initialize_deposit_by_amount_result(
    accounts: InitializeDepositByAmount,
    amount: u64,
    unlock_amount: u64,
    counter: u32,
    current_timestamp: i64,
) -> Result<(InitializeDepositByAmount, Effects<DepositCreatedByAmount>), Rejection> {
    initialize_deposit_by_amount_outcome(
        accounts,
        amount,
        unlock_amount,
        counter,
        current_timestamp,
        deposit_address(
            accounts.program_id,
            accounts.owner,
            LockCondition::amount_lock(unlock_amount).seed(),
            counter,
        ),
        vault_address(accounts.program_id, accounts.deposit_key),
    )
}

/// How `add_funds` ends.
pub open spec fn add_funds_result(accounts: AddFunds, additional_amount: u64) -> Result<
    (AddFunds, Effects<DepositFundsAdded>),
    Rejection,
> {
    add_funds_outcome(accounts, additional_amount, accounts.authority())
}

/// How `withdraw` ends.
pub open spec fn withdraw_result(accounts: Withdraw, current_timestamp: i64) -> Result<
    (Withdraw, Effects<DepositWithdrawn>),
    Rejection,
> {
    withdraw_outcome(accounts, current_timestamp, accounts.authority())
}

/// The record `record` lives at `deposit_key` under `program_id`: the search
/// over its seeds finds that address and its bump, the seeds and the bump
/// prove authority over the address, and its vault is the one found from the
/// address.
pub open spec fn addressed(program_id: Address, deposit_key: Address, record: TimeLockDeposit)
    -> bool {
    &&& deposit_address(program_id, record.owner, record.lock_seed@, record.counter) == Some(
        (deposit_key, record.bump),
    )
    &&& authority_address(
        program_id,
        record.owner,
        record.lock_seed@,
        record.counter,
        record.bump,
    ) == Some(deposit_key)
    &&& custody_address(program_id, record.owner, record.lock_seed@, record.counter) == Some(
        record.vault_token_account,
    )
}

/// Checks the rules for the creation of a deposit.
fn check_creation(amount: u64, condition: &LockCondition, current_timestamp: i64) -> (refusal:
    Option<ErrorCode>)
    ensures
        refusal == creation_refusal(amount, *condition, current_timestamp),
{
    match condition.condition_type {
        ConditionType::ByTime => {
            if amount == 0 {
                Some(ErrorCode::InvalidAmount)
            } else if condition.unlock_timestamp <= current_timestamp {
                Some(ErrorCode::InvalidTimestamp)
            } else {
                None
            }
        },
        ConditionType::ByAmount => {
            if amount == 0 || condition.unlock_amount == 0 {
                Some(ErrorCode::InvalidAmount)
            } else {
                None
            }
        },
    }
}

/// Creates a deposit under `condition`, given what the search found for the
/// seeds of the deposit and of its vault.
fn create(
    accounts: &mut InitializeDeposit,
    amount: u64,
    condition: LockCondition,
    counter: u32,
    current_timestamp: i64,
    deposit_found: Option<(Address, u8)>,
    vault_found: Option<(Address, u8)>,
) -> (result: Result<Transfer, Rejection>)
    ensures
        commits(
            *old(accounts),
            *final(accounts),
            result,
            creation_outcome(
                *old(accounts),
                amount,
                condition,
                counter,
                current_timestamp,
                deposit_found,
                vault_found,
            ),
        ),
{
    let bump = match accounts.check_accounts(deposit_found, vault_found) {
        Ok(bump) => bump,
        Err(error) => {
            return Err(Rejection::Accounts(error));
        },
    };
    if let Some(code) = check_creation(amount, &condition, current_timestamp) {
        return Err(Rejection::Program(code));
    }
    accounts.deposit = Some(
        TimeLockDeposit {
            owner: accounts.owner,
            mint: accounts.mint,
            vault_token_account: accounts.vault_key,
            amount,
            lock_condition: condition,
            lock_seed: condition.lock_seed(),
            counter,
            state: DepositState::Active,
            created_at: current_timestamp,
            bump,
        },
    );
    accounts.vault_token_account = Some(
        TokenAccount {
            key: accounts.vault_key,
            owner: accounts.deposit_key,
            mint: accounts.mint,
            amount: 0,
        },
    );
    Ok(
        Transfer {
            from: accounts.owner_token_account.key,
            to: accounts.vault_key,
            authority: accounts.owner,
            amount,
            proof: None,
        },
    )
}

/// Creates a deposit of `amount` that is locked until `unlock_timestamp`,
/// given what the search found for the seeds of the deposit and of its vault.
pub fn initialize_deposit_with(
    accounts: &mut InitializeDeposit,
    amount: u64,
    unlock_timestamp: i64,
    counter: u32,
    current_timestamp: i64,
    deposit_found: Option<(Address, u8)>,
    vault_found: Option<(Address, u8)>,
) -> (result: Result<Effects<DepositCreated>, Rejection>)
    ensures
        commits(
            *old(accounts),
            *final(accounts),
            result,
            initialize_deposit_outcome(
                *old(accounts),
                amount,
                unlock_timestamp,
                counter,
                current_timestamp,
                deposit_found,
                vault_found,
            ),
        ),
{
    let condition = LockCondition::by_time(unlock_timestamp);
    match create(
        accounts,
        amount,
        condition,
        counter,
        current_timestamp,
        deposit_found,
        vault_found,
    ) {
        Ok(transfer) => Ok(
            Effects {
                transfer,
                event: DepositCreated {
                    owner: accounts.owner,
                    amount,
                    unlock_timestamp,
                    token: accounts.mint,
                },
            },
        ),
        Err(rejection) => Err(rejection),
    }
}

/// Creates a deposit of `amount` that is locked until it holds
/// `unlock_amount`, given what the search found for the seeds of the deposit
/// and of its vault.
pub fn initialize_deposit_by_amount_with(
    accounts: &mut InitializeDepositByAmount,
    amount: u64,
    unlock_amount: u64,
    counter: u32,
    current_timestamp: i64,
    deposit_found: Option<(Address, u8)>,
    vault_found: Option<(Address, u8)>,
) -> (result: Result<Effects<DepositCreatedByAmount>, Rejection>)
    ensures
        commits(
            *old(accounts),
            *final(accounts),
            result,
            initialize_deposit_by_amount_outcome(
                *old(accounts),
                amount,
                unlock_amount,
                counter,
                current_timestamp,
                deposit_found,
                vault_found,
            ),
        ),
{
    let condition = LockCondition::by_amount(unlock_amount);
    let mut creation = accounts.to_creation();
    match create(
        &mut creation,
        amount,
        condition,
        counter,
        current_timestamp,
        deposit_found,
        vault_found,
    ) {
        Ok(transfer) => {
            *accounts = InitializeDepositByAmount::from_creation(creation);
            Ok(
                Effects {
                    transfer,
                    event: DepositCreatedByAmount {
                        owner: accounts.owner,
                        amount,
                        unlock_amount,
                        token: accounts.mint,
                    },
                },
            )
        },
        Err(rejection) => Err(rejection),
    }
}

/// Adds `additional_amount` to a deposit, given the address `derived` that
/// the seeds and the bump of the record give.
pub fn add_funds_with(accounts: &mut AddFunds, additional_amount: u64, derived: Option<Address>) -> (result:
    Result<Effects<DepositFundsAdded>, Rejection>)
    ensures
        commits(
            *old(accounts),
            *final(accounts),
            result,
            add_funds_outcome(*old(accounts), additional_amount, derived),
        ),
{
    if let Err(error) = accounts.check_accounts(derived) {
        return Err(Rejection::Accounts(error));
    }
    if additional_amount == 0 {
        return Err(Rejection::Program(ErrorCode::InvalidAmount));
    }
    if accounts.deposit.state != DepositState::Active {
        return Err(Rejection::Program(ErrorCode::NotActive));
    }
    if accounts.deposit.owner != accounts.owner {
        return Err(Rejection::Program(ErrorCode::Unauthorized));
    }
    let new_amount = match accounts.deposit.amount.checked_add(additional_amount) {
        Some(sum) => sum,
        None => {
            return Err(Rejection::Program(ErrorCode::Overflow));
        },
    };
    accounts.deposit.amount = new_amount;
    Ok(
        Effects {
            transfer: Transfer {
                from: accounts.owner_token_account.key,
                to: accounts.vault_token_account.key,
                authority: accounts.owner,
                amount: additional_amount,
                proof: None,
            },
            event: DepositFundsAdded {
                owner: accounts.deposit.owner,
                deposit: accounts.deposit_key,
                additional_amount,
                new_total_amount: new_amount,
            },
        },
    )
}

/// Pays a deposit out to its owner, given the address `derived` that the
/// seeds and the bump of the record give.
pub fn withdraw_with(accounts: &mut Withdraw, current_timestamp: i64, derived: Option<Address>) -> (result:
    Result<Effects<DepositWithdrawn>, Rejection>)
    ensures
        commits(
            *old(accounts),
            *final(accounts),
            result,
            withdraw_outcome(*old(accounts), current_timestamp, derived),
        ),
{
    if let Err(error) = accounts.check_accounts(derived) {
        return Err(Rejection::Accounts(error));
    }
    if accounts.deposit.state != DepositState::Active {
        return Err(Rejection::Program(ErrorCode::NotActive));
    }
    if accounts.deposit.owner != accounts.owner {
        return Err(Rejection::Program(ErrorCode::Unauthorized));
    }
    if !accounts.deposit.is_unlocked(current_timestamp) {
        return Err(Rejection::Program(ErrorCode::ConditionsNotMet));
    }
    let owner = accounts.deposit.owner;
    let amount = accounts.deposit.amount;
    let mint = accounts.deposit.mint;
    let proof = AuthorityProof::of(&accounts.deposit);
    accounts.deposit.amount = 0;
    accounts.deposit.state = DepositState::Withdrawn;
    Ok(
        Effects {
            transfer: Transfer {
                from: accounts.vault_token_account.key,
                to: accounts.owner_token_account.key,
                authority: accounts.deposit_key,
                amount,
                proof: Some(proof),
            },
            event: DepositWithdrawn { owner, amount, token: mint, time: current_timestamp },
        },
    )
}

/// Creates a deposit of `amount` that is locked until `unlock_timestamp`.
///
/// The deposit is created at the address found from its owner, the unlock
/// time and `counter`, which `accounts.deposit_key` must be, and its vault at
/// the address found from that of the deposit. It fails where something
/// exists at either address, where `amount` is zero, or where
/// `unlock_timestamp` is not after `current_timestamp`. On success the
/// record is active and holds `amount`, and the transfer returned pays
/// `amount` from the owner into the vault.
pub fn initialize_deposit(
    accounts: &mut InitializeDeposit,
    amount: u64,
    unlock_timestamp: i64,
    counter: u32,
    current_timestamp: i64,
) -> (result: Result<Effects<DepositCreated>, Rejection>)
    ensures
        commits(
            *old(accounts),
            *final(accounts),
            result,
            initialize_deposit_result(
                *old(accounts),
                amount,
                unlock_timestamp,
                counter,
                current_timestamp,
            ),
        ),
        result is Ok ==> final(accounts).deposit is Some && final(accounts).deposit.unwrap().wf()
            && addressed(
            final(accounts).program_id,
            final(accounts).deposit_key,
            final(accounts).deposit.unwrap(),
        ),
{
    let lock_seed = LockCondition::by_time(unlock_timestamp).lock_seed();
    let deposit_found = find_deposit_address(
        &accounts.program_id,
        &accounts.owner,
        &lock_seed,
        counter,
    );
    let vault_found = find_vault_address(&accounts.program_id, &accounts.deposit_key);
    initialize_deposit_with(
        accounts,
        amount,
        unlock_timestamp,
        counter,
        current_timestamp,
        deposit_found,
        vault_found,
    )
}

/// Creates a deposit of `amount` that is locked until it holds
/// `unlock_amount`.
///
/// The deposit is created at the address found from its owner, the target
/// balance and `counter`, which `accounts.deposit_key` must be, and its vault
/// at the address found from that of the deposit. It fails where something
/// exists at either address, or where `amount` or `unlock_amount` is zero.
/// On success the record is active and holds `amount`, and the transfer
/// returned pays `amount` from the owner into the vault.
pub fn initialize_deposit_by_amount(
    accounts: &mut InitializeDepositByAmount,
    amount: u64,
    unlock_amount: u64,
    counter: u32,
    current_timestamp: i64,
) -> (result: Result<Effects<DepositCreatedByAmount>, Rejection>)
    ensures
        commits(
            *old(accounts),
            *final(accounts),
            result,
            initialize_deposit_by_amount_result(
                *old(accounts),
                amount,
                unlock_amount,
                counter,
                current_timestamp,
            ),
        ),
        result is Ok ==> final(accounts).deposit is Some && final(accounts).deposit.unwrap().wf()
            && addressed(
            final(accounts).program_id,
            final(accounts).deposit_key,
            final(accounts).deposit.unwrap(),
        ),
{
    let lock_seed = LockCondition::by_amount(unlock_amount).lock_seed();
    let deposit_found = find_deposit_address(
        &accounts.program_id,
        &accounts.owner,
        &lock_seed,
        counter,
    );
    let vault_found = find_vault_address(&accounts.program_id, &accounts.deposit_key);
    initialize_deposit_by_amount_with(
        accounts,
        amount,
        unlock_amount,
        counter,
        current_timestamp,
        deposit_found,
        vault_found,
    )
}

/// Adds `additional_amount` to a deposit.
///
/// It fails where `additional_amount` is zero, where the deposit has been
/// withdrawn, where `accounts.owner` is not the owner of the deposit, or where
/// the new balance does not fit in 64 bits. On success the record holds the
/// new balance, and the transfer returned pays `additional_amount` from the
/// owner into the vault.
pub fn add_funds(accounts: &mut AddFunds, additional_amount: u64) -> (result: Result<
    Effects<DepositFundsAdded>,
    Rejection,
>)
    ensures
        commits(
            *old(accounts),
            *final(accounts),
            result,
            add_funds_result(*old(accounts), additional_amount),
        ),
        old(accounts).deposit.balance_matches_state() ==> final(accounts).deposit
            .balance_matches_state(),
        old(accounts).deposit.wf() ==> final(accounts).deposit.wf(),
{
    let derived = AuthorityProof::of(&accounts.deposit).derive(&accounts.program_id);
    add_funds_with(accounts, additional_amount, derived)
}

/// Pays a deposit out to its owner.
///
/// It fails where the deposit has been withdrawn, where `accounts.owner` is
/// not the owner of the deposit, or where the lock condition does not hold at
/// `current_timestamp`. On success the record is withdrawn and holds nothing,
/// and the transfer returned pays all that it held from the vault to the
/// owner, under the authority of the deposit, with the proof of that
/// authority. The caller commits the record only once the transfer has gone
/// through, and then gives the storage of the record back to the owner.
pub fn withdraw(accounts: &mut Withdraw, current_timestamp: i64) -> (result: Result<
    Effects<DepositWithdrawn>,
    Rejection,
>)
    ensures
        commits(
            *old(accounts),
            *final(accounts),
            result,
            withdraw_result(*old(accounts), current_timestamp),
        ),
        old(accounts).deposit.balance_matches_state() ==> final(accounts).deposit
            .balance_matches_state(),
        old(accounts).deposit.wf() ==> final(accounts).deposit.wf(),
        result matches Ok(effects) ==> effects.transfer.proof is Some
            && effects.transfer.proof.unwrap().address(old(accounts).program_id) == Some(
            effects.transfer.authority,
        ),
{
    let derived = AuthorityProof::of(&accounts.deposit).derive(&accounts.program_id);
    withdraw_with(accounts, current_timestamp, derived)
}

} // verus!
