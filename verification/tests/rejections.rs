use anchor_lang::prelude::Pubkey;
use timelock_wallet::accounts::{
    AddFunds, InitializeDeposit, InitializeDepositByAmount, TokenAccount, Withdraw,
};
use timelock_wallet::address::Address;
use timelock_wallet::errors::{AccountError, ErrorCode, Rejection};
use timelock_wallet::instructions::{
    add_funds, add_funds_with, initialize_deposit, initialize_deposit_by_amount,
    initialize_deposit_by_amount_with, initialize_deposit_with, withdraw, withdraw_with,
};
use timelock_wallet::seeds::{find_deposit_address, find_vault_address};
use timelock_wallet::state::{DepositState, LockCondition, TimeLockDeposit};

const NOW: i64 = 1_700_000_000;

fn program() -> Address {
    Address::new(Pubkey::from_str_const("6oB3tWykpdeaRLbDeL4W1Hr386NFfxbeBPe99eTPxxzL").to_bytes())
}

fn key(byte: u8) -> Address {
    Address::new([byte; 32])
}

fn owner() -> Address {
    key(1)
}

fn mint() -> Address {
    key(2)
}

fn wallet() -> TokenAccount {
    TokenAccount { key: key(3), owner: owner(), mint: mint(), amount: 5000 }
}

fn creation(lock_seed: [u8; 8], counter: u32) -> InitializeDeposit {
    let (deposit_key, _) = find_deposit_address(&program(), &owner(), &lock_seed, counter).unwrap();
    let (vault_key, _) = find_vault_address(&program(), &deposit_key).unwrap();
    InitializeDeposit {
        program_id: program(),
        owner: owner(),
        deposit_key,
        deposit: None,
        mint: mint(),
        owner_token_account: wallet(),
        vault_key,
        vault_token_account: None,
    }
}

fn by_time(unlock_timestamp: i64, counter: u32) -> InitializeDeposit {
    creation(unlock_timestamp.to_le_bytes(), counter)
}

fn by_amount(unlock_amount: u64, counter: u32) -> InitializeDepositByAmount {
    InitializeDepositByAmount::from_creation(creation(unlock_amount.to_le_bytes(), counter))
}

fn active(amount: u64, unlock_timestamp: i64) -> (Address, TimeLockDeposit, TokenAccount) {
    let mut accounts = by_time(unlock_timestamp, 0);
    initialize_deposit(&mut accounts, amount, unlock_timestamp, 0, unlock_timestamp - 1).unwrap();
    let vault = TokenAccount { amount, ..accounts.vault_token_account.unwrap() };
    (accounts.deposit_key, accounts.deposit.unwrap(), vault)
}

fn funding() -> AddFunds {
    let (deposit_key, deposit, vault_token_account) = active(1000, NOW);
    AddFunds {
        program_id: program(),
        owner: owner(),
        deposit_key,
        deposit,
        mint: mint(),
        owner_token_account: wallet(),
        vault_token_account,
    }
}

fn withdrawal() -> Withdraw {
    let (deposit_key, deposit, vault_token_account) = active(1000, NOW);
    Withdraw {
        program_id: program(),
        owner: owner(),
        deposit_key,
        deposit,
        vault_token_account,
        owner_token_account: wallet(),
    }
}

fn refused_creation(accounts: InitializeDeposit, amount: u64, unlock: i64) -> Rejection {
    let mut handed = accounts;
    let rejection = initialize_deposit(&mut handed, amount, unlock, 0, NOW).unwrap_err();
    assert_eq!(handed, accounts);
    rejection
}

fn refused_funding(accounts: AddFunds, amount: u64) -> Rejection {
    let mut handed = accounts;
    let rejection = add_funds(&mut handed, amount).unwrap_err();
    assert_eq!(handed, accounts);
    rejection
}

fn refused_withdrawal(accounts: Withdraw, at: i64) -> Rejection {
    let mut handed = accounts;
    let rejection = withdraw(&mut handed, at).unwrap_err();
    assert_eq!(handed, accounts);
    rejection
}

#[test]
fn creation_of_nothing_is_an_invalid_amount() {
    assert_eq!(
        refused_creation(by_time(NOW + 1, 0), 0, NOW + 1),
        Rejection::Program(ErrorCode::InvalidAmount)
    );
    // the amount is looked at before the time
    assert_eq!(
        refused_creation(by_time(NOW - 1, 0), 0, NOW - 1),
        Rejection::Program(ErrorCode::InvalidAmount)
    );
}

#[test]
fn creation_that_unlocks_now_or_earlier_is_an_invalid_timestamp() {
    assert_eq!(
        refused_creation(by_time(NOW, 0), 1, NOW),
        Rejection::Program(ErrorCode::InvalidTimestamp)
    );
    assert_eq!(
        refused_creation(by_time(NOW - 1, 0), 1, NOW - 1),
        Rejection::Program(ErrorCode::InvalidTimestamp)
    );
    assert_eq!(
        refused_creation(by_time(i64::MIN, 0), 1, i64::MIN),
        Rejection::Program(ErrorCode::InvalidTimestamp)
    );
    let mut accounts = by_time(NOW + 1, 0);
    assert!(initialize_deposit(&mut accounts, 1, NOW + 1, 0, NOW).is_ok());
}

#[test]
fn creation_by_amount_of_nothing_or_for_nothing_is_an_invalid_amount() {
    let refused = |amount: u64, unlock_amount: u64| {
        let accounts = by_amount(unlock_amount, 0);
        let mut handed = accounts;
        let rejection =
            initialize_deposit_by_amount(&mut handed, amount, unlock_amount, 0, NOW).unwrap_err();
        assert_eq!(handed, accounts);
        rejection
    };
    assert_eq!(refused(0, 1000), Rejection::Program(ErrorCode::InvalidAmount));
    assert_eq!(refused(500, 0), Rejection::Program(ErrorCode::InvalidAmount));
    assert_eq!(refused(0, 0), Rejection::Program(ErrorCode::InvalidAmount));
    let mut accounts = by_amount(1, 0);
    assert!(initialize_deposit_by_amount(&mut accounts, 1, 1, 0, NOW).is_ok());
}

#[test]
fn creation_away_from_the_derived_address_is_a_seeds_mismatch() {
    let mut accounts = by_time(NOW + 1, 0);
    accounts.deposit_key = key(40);
    assert_eq!(
        refused_creation(accounts, 1, NOW + 1),
        Rejection::Accounts(AccountError::SeedsMismatch)
    );
    // the address of another counter is not that of this one
    assert_eq!(
        refused_creation(by_time(NOW + 1, 1), 1, NOW + 1),
        Rejection::Accounts(AccountError::SeedsMismatch)
    );
    // nor that of another unlock time
    assert_eq!(
        refused_creation(by_time(NOW + 2, 0), 1, NOW + 1),
        Rejection::Accounts(AccountError::SeedsMismatch)
    );
    let mut accounts = by_time(NOW + 1, 0);
    accounts.vault_key = key(41);
    assert_eq!(
        refused_creation(accounts, 1, NOW + 1),
        Rejection::Accounts(AccountError::SeedsMismatch)
    );
    // the accounts are looked at before the amount
    assert_eq!(
        refused_creation(accounts, 0, NOW + 1),
        Rejection::Accounts(AccountError::SeedsMismatch)
    );
}

#[test]
fn creation_over_something_that_exists_is_refused() {
    let (_, record, vault) = active(5, NOW);
    let mut accounts = by_time(NOW + 1, 0);
    accounts.deposit = Some(record);
    assert_eq!(
        refused_creation(accounts, 1, NOW + 1),
        Rejection::Accounts(AccountError::AlreadyInitialized)
    );
    let mut accounts = by_time(NOW + 1, 0);
    accounts.vault_token_account = Some(vault);
    assert_eq!(
        refused_creation(accounts, 1, NOW + 1),
        Rejection::Accounts(AccountError::AlreadyInitialized)
    );
}

#[test]
fn creation_from_the_wrong_token_account_is_refused() {
    let mut accounts = by_time(NOW + 1, 0);
    accounts.owner_token_account.owner = key(50);
    assert_eq!(
        refused_creation(accounts, 1, NOW + 1),
        Rejection::Accounts(AccountError::TokenOwnerMismatch)
    );
    let mut accounts = by_time(NOW + 1, 0);
    accounts.owner_token_account.mint = key(51);
    assert_eq!(
        refused_creation(accounts, 1, NOW + 1),
        Rejection::Accounts(AccountError::MintMismatch)
    );
}

#[test]
fn creation_without_an_address_is_refused() {
    let accounts = by_time(NOW + 1, 0);
    let found = find_deposit_address(&program(), &owner(), &(NOW + 1).to_le_bytes(), 0);
    let vault = find_vault_address(&program(), &accounts.deposit_key);

    let mut handed = accounts;
    assert_eq!(
        initialize_deposit_with(&mut handed, 1, NOW + 1, 0, NOW, None, vault),
        Err(Rejection::Accounts(AccountError::NoViableAddress))
    );
    assert_eq!(
        initialize_deposit_with(&mut handed, 1, NOW + 1, 0, NOW, found, None),
        Err(Rejection::Accounts(AccountError::NoViableAddress))
    );
    assert_eq!(handed, accounts);
    let mut other = InitializeDepositByAmount::from_creation(accounts);
    assert_eq!(
        initialize_deposit_by_amount_with(&mut other, 1, 1, 0, NOW, None, vault),
        Err(Rejection::Accounts(AccountError::NoViableAddress))
    );
    assert!(initialize_deposit_with(&mut handed, 1, NOW + 1, 0, NOW, found, vault).is_ok());
    assert_eq!(handed.deposit.unwrap().bump, found.unwrap().1);
}

#[test]
fn add_funds_of_nothing_is_an_invalid_amount() {
    assert_eq!(refused_funding(funding(), 0), Rejection::Program(ErrorCode::InvalidAmount));
}

#[test]
fn add_funds_checks_amount_then_state_then_owner() {
    let mut accounts = funding();
    accounts.deposit.state = DepositState::Withdrawn;
    accounts.deposit.amount = 0;
    accounts.owner = key(60);
    accounts.owner_token_account.owner = key(60);
    assert_eq!(refused_funding(accounts, 0), Rejection::Program(ErrorCode::InvalidAmount));
    assert_eq!(refused_funding(accounts, 1), Rejection::Program(ErrorCode::NotActive));
    accounts.deposit.state = DepositState::Active;
    accounts.deposit.amount = u64::MAX;
    assert_eq!(refused_funding(accounts, 1), Rejection::Program(ErrorCode::Unauthorized));
    accounts.owner = owner();
    accounts.owner_token_account.owner = owner();
    assert_eq!(refused_funding(accounts, 1), Rejection::Program(ErrorCode::Overflow));
}

#[test]
fn add_funds_to_the_wrong_accounts_is_refused() {
    let good = funding();

    let mut accounts = good;
    accounts.deposit_key = key(70);
    assert_eq!(refused_funding(accounts, 1), Rejection::Accounts(AccountError::SeedsMismatch));
    let mut accounts = good;
    accounts.deposit.bump = good.deposit.bump.wrapping_sub(1);
    assert_eq!(refused_funding(accounts, 1), Rejection::Accounts(AccountError::SeedsMismatch));
    let mut accounts = good;
    accounts.deposit.counter = 1;
    assert_eq!(refused_funding(accounts, 1), Rejection::Accounts(AccountError::SeedsMismatch));
    let mut accounts = good;
    accounts.program_id = key(71);
    assert_eq!(refused_funding(accounts, 1), Rejection::Accounts(AccountError::SeedsMismatch));

    let mut accounts = good;
    accounts.owner_token_account.owner = key(72);
    assert_eq!(
        refused_funding(accounts, 1),
        Rejection::Accounts(AccountError::TokenOwnerMismatch)
    );
    let mut accounts = good;
    accounts.owner_token_account.mint = key(73);
    assert_eq!(refused_funding(accounts, 1), Rejection::Accounts(AccountError::MintMismatch));
    let mut accounts = good;
    accounts.vault_token_account.key = key(74);
    assert_eq!(refused_funding(accounts, 1), Rejection::Accounts(AccountError::VaultMismatch));
    let mut accounts = good;
    accounts.vault_token_account.mint = key(75);
    assert_eq!(refused_funding(accounts, 1), Rejection::Accounts(AccountError::MintMismatch));

    let mut accounts = good;
    assert_eq!(
        add_funds_with(&mut accounts, 1, None),
        Err(Rejection::Accounts(AccountError::SeedsMismatch))
    );
    assert_eq!(
        add_funds_with(&mut accounts, 1, Some(key(76))),
        Err(Rejection::Accounts(AccountError::SeedsMismatch))
    );
    assert_eq!(accounts, good);
    let added = add_funds_with(&mut accounts, 1, Some(good.deposit_key)).unwrap();
    assert_eq!(added.event.new_total_amount, 1001);
    assert_eq!(accounts.deposit.amount, 1001);
}

#[test]
fn withdraw_by_a_stranger_is_unauthorized() {
    let mut accounts = withdrawal();
    accounts.owner = key(80);
    accounts.owner_token_account.owner = key(80);
    assert_eq!(refused_withdrawal(accounts, NOW), Rejection::Program(ErrorCode::Unauthorized));
    // the owner is looked at before the condition
    assert_eq!(refused_withdrawal(accounts, NOW - 1), Rejection::Program(ErrorCode::Unauthorized));
}

#[test]
fn withdraw_before_the_condition_holds_is_refused() {
    assert_eq!(
        refused_withdrawal(withdrawal(), NOW - 1),
        Rejection::Program(ErrorCode::ConditionsNotMet)
    );
    assert_eq!(
        refused_withdrawal(withdrawal(), i64::MIN),
        Rejection::Program(ErrorCode::ConditionsNotMet)
    );
    let mut accounts = withdrawal();
    assert!(withdraw(&mut accounts, NOW).is_ok());
}

#[test]
fn withdraw_of_a_withdrawn_deposit_is_not_active() {
    let mut accounts = withdrawal();
    accounts.deposit.state = DepositState::Withdrawn;
    accounts.deposit.amount = 0;
    assert_eq!(refused_withdrawal(accounts, NOW), Rejection::Program(ErrorCode::NotActive));
    // the state is looked at before the owner
    accounts.owner = key(81);
    accounts.owner_token_account.owner = key(81);
    assert_eq!(refused_withdrawal(accounts, NOW), Rejection::Program(ErrorCode::NotActive));
}

#[test]
fn withdraw_from_the_wrong_accounts_is_refused() {
    let good = withdrawal();

    let mut accounts = good;
    accounts.deposit_key = key(90);
    assert_eq!(refused_withdrawal(accounts, NOW), Rejection::Accounts(AccountError::SeedsMismatch));
    let mut accounts = good;
    accounts.deposit.lock_seed = LockCondition::by_time(NOW + 1).lock_seed();
    assert_eq!(refused_withdrawal(accounts, NOW), Rejection::Accounts(AccountError::SeedsMismatch));
    let mut accounts = good;
    accounts.deposit.owner = key(91);
    assert_eq!(refused_withdrawal(accounts, NOW), Rejection::Accounts(AccountError::SeedsMismatch));

    let mut accounts = good;
    accounts.vault_token_account.key = key(92);
    assert_eq!(refused_withdrawal(accounts, NOW), Rejection::Accounts(AccountError::VaultMismatch));
    let mut accounts = good;
    accounts.vault_token_account.amount = 999;
    assert_eq!(
        refused_withdrawal(accounts, NOW),
        Rejection::Accounts(AccountError::VaultUnderfunded)
    );
    let mut accounts = good;
    accounts.owner_token_account.owner = key(93);
    assert_eq!(
        refused_withdrawal(accounts, NOW),
        Rejection::Accounts(AccountError::TokenOwnerMismatch)
    );
    let mut accounts = good;
    accounts.owner_token_account.mint = key(94);
    assert_eq!(refused_withdrawal(accounts, NOW), Rejection::Accounts(AccountError::MintMismatch));

    let mut accounts = good;
    assert_eq!(
        withdraw_with(&mut accounts, NOW, None),
        Err(Rejection::Accounts(AccountError::SeedsMismatch))
    );
    assert_eq!(accounts, good);
    let paid = withdraw_with(&mut accounts, NOW, Some(good.deposit_key)).unwrap();
    assert_eq!(paid.transfer.amount, 1000);
    assert_eq!(accounts.deposit.amount, 0);
}

#[test]
fn vault_may_hold_more_than_the_deposit_says() {
    let mut accounts = withdrawal();
    accounts.vault_token_account.amount = 1001;
    let paid = withdraw(&mut accounts, NOW).unwrap();
    assert_eq!(paid.transfer.amount, 1000);
}

#[test]
fn errors_have_their_messages() {
    assert_eq!(ErrorCode::InvalidAmount.message(), "Invalid amount");
    assert_eq!(ErrorCode::InvalidTimestamp.message(), "Invalid timestamp");
    assert_eq!(ErrorCode::NotActive.message(), "Deposit is not active");
    assert_eq!(ErrorCode::ConditionsNotMet.message(), "Withdrawal conditions not met");
    assert_eq!(ErrorCode::Unauthorized.message(), "Unauthorized");
    assert_eq!(ErrorCode::Overflow.message(), "Overflow");
}
