//! The accounts that each operation is handed, and the checks made on them
//! before the rules of the deposit are looked at.
//!
//! The accounts are snapshots: plain values read from the ledger by the
//! caller. An operation changes the deposit record in its snapshot and names
//! the transfer that goes with the change; the caller commits both together,
//! or neither.

use crate::address::Address;
use crate::errors::AccountError;
use crate::seeds::authority_address;
use crate::state::TimeLockDeposit;
use vstd::prelude::*;

verus! {

/// What an operation reads of a token account.
#[derive(Clone, Copy, Debug, PartialEq, Eq)]
pub struct TokenAccount {
    /// Where the account lives.
    pub key: Address,
    /// Who has authority over the tokens.
    pub owner: Address,
    /// The token that the account holds.
    pub mint: Address,
    /// How much it holds.
    pub amount: u64,
}

/// The accounts for the creation of a deposit that is locked until a point in
/// time. `deposit` and `vault_token_account` are `None` as long as nothing
/// exists at `deposit_key` and `vault_key`.
#[derive(Clone, Copy, Debug, PartialEq, Eq)]
pub struct InitializeDeposit {
    /// The program that creates the deposit and owns its addresses.
    pub program_id: Address,
    /// Who signs the request and pays in.
    pub owner: Address,
    pub deposit_key: Address,
    pub deposit: Option<TimeLockDeposit>,
    /// The token that is paid in.
    pub mint: Address,
    pub owner_token_account: TokenAccount,
    pub vault_key: Address,
    pub vault_token_account: Option<TokenAccount>,
}

/// The accounts for the creation of a deposit that is locked until it holds a
/// target balance: the same accounts as for a deposit locked by time.
#[derive(Clone, Copy, Debug, PartialEq, Eq)]
pub struct InitializeDepositByAmount {
    pub program_id: Address,
    pub owner: Address,
    pub deposit_key: Address,
    pub deposit: Option<TimeLockDeposit>,
    pub mint: Address,
    pub owner_token_account: TokenAccount,
    pub vault_key: Address,
    pub vault_token_account: Option<TokenAccount>,
}

/// The accounts for adding funds to a deposit.
#[derive(Clone, Copy, Debug, PartialEq, Eq)]
pub struct AddFunds {
    pub program_id: Address,
    /// Who signs the request and pays in.
    pub owner: Address,
    pub deposit_key: Address,
    pub deposit: TimeLockDeposit,
    pub mint: Address,
    pub owner_token_account: TokenAccount,
    pub vault_token_account: TokenAccount,
}

/// The accounts for the withdrawal of a deposit.
#[derive(Clone, Copy, Debug, PartialEq, Eq)]
pub struct Withdraw {
    pub program_id: Address,
    /// Who signs the request and is paid out.
    pub owner: Address,
    pub deposit_key: Address,
    pub deposit: TimeLockDeposit,
    pub vault_token_account: TokenAccount,
    pub owner_token_account: TokenAccount,
}

impl InitializeDeposit {
    /// The check of the accounts of a creation, given what the search found
    /// for the seeds of the deposit and of its vault: the bump of the deposit,
    /// or the first reason to refuse the accounts.
    pub open spec fn accounts_check(
        &self,
        deposit_found: Option<(Address, u8)>,
        vault_found: Option<(Address, u8)>,
    ) -> Result<u8, AccountError> {
        match deposit_found {
            None => Err(AccountError::NoViableAddress),
            Some((deposit_address, bump)) => if self.deposit_key != deposit_address {
                Err(AccountError::SeedsMismatch)
            } else if self.deposit is Some {
                Err(AccountError::AlreadyInitialized)
            } else {
                match vault_found {
                    None => Err(AccountError::NoViableAddress),
                    Some((vault_address, _)) => if self.vault_key != vault_address {
                        Err(AccountError::SeedsMismatch)
                    } else if self.vault_token_account is Some {
                        Err(AccountError::AlreadyInitialized)
                    } else if self.owner_token_account.owner != self.owner {
                        Err(AccountError::TokenOwnerMismatch)
                    } else if self.owner_token_account.mint != self.mint {
                        Err(AccountError::MintMismatch)
                    } else {
                        Ok(bump)
                    },
                }
            },
        }
    }

    /// Checks the accounts of a creation against what the search found for
    /// the seeds of the deposit and of its vault.
    pub fn check_accounts(
        &self,
        deposit_found: Option<(Address, u8)>,
        vault_found: Option<(Address, u8)>,
    ) -> (checked: Result<u8, AccountError>)
        ensures
            checked == self.accounts_check(deposit_found, vault_found),
    {
        match deposit_found {
            None => Err(AccountError::NoViableAddress),
            Some((deposit_address, bump)) => {
                if self.deposit_key != deposit_address {
                    Err(AccountError::SeedsMismatch)
                } else if self.deposit.is_some() {
                    Err(AccountError::AlreadyInitialized)
                } else {
                    match vault_found {
                        None => Err(AccountError::NoViableAddress),
                        Some((vault_address, _)) => {
                            if self.vault_key != vault_address {
                                Err(AccountError::SeedsMismatch)
                            } else if self.vault_token_account.is_some() {
                                Err(AccountError::AlreadyInitialized)
                            } else if self.owner_token_account.owner != self.owner {
                                Err(AccountError::TokenOwnerMismatch)
                            } else if self.owner_token_account.mint != self.mint {
                                Err(AccountError::MintMismatch)
                            } else {
                                Ok(bump)
                            }
                        },
                    }
                }
            },
        }
    }
}

impl InitializeDepositByAmount {
    /// The same accounts, as those of a creation by time.
    pub open spec fn as_creation(&self) -> InitializeDeposit {
        InitializeDeposit {
            program_id: self.program_id,
            owner: self.owner,
            deposit_key: self.deposit_key,
            deposit: self.deposit,
            mint: self.mint,
            owner_token_account: self.owner_token_account,
            vault_key: self.vault_key,
            vault_token_account: self.vault_token_account,
        }
    }

    /// The accounts of a creation by time, as those of a creation by amount.
    pub open spec fn of_creation(accounts: InitializeDeposit) -> InitializeDepositByAmount {
        InitializeDepositByAmount {
            program_id: accounts.program_id,
            owner: accounts.owner,
            deposit_key: accounts.deposit_key,
            deposit: accounts.deposit,
            mint: accounts.mint,
            owner_token_account: accounts.owner_token_account,
            vault_key: accounts.vault_key,
            vault_token_account: accounts.vault_token_account,
        }
    }

    /// The check of the accounts: that of a creation by time.
    pub open spec fn accounts_check(
        &self,
        deposit_found: Option<(Address, u8)>,
        vault_found: Option<(Address, u8)>,
    ) -> Result<u8, AccountError> {
        self.as_creation().accounts_check(deposit_found, vault_found)
    }

    /// Checks the accounts against what the search found for the seeds of the
    /// deposit and of its vault.
    pub fn check_accounts(
        &self,
        deposit_found: Option<(Address, u8)>,
        vault_found: Option<(Address, u8)>,
    ) -> (checked: Result<u8, AccountError>)
        ensures
            checked == self.accounts_check(deposit_found, vault_found),
    {
        self.to_creation().check_accounts(deposit_found, vault_found)
    }

    /// The same accounts, as those of a creation by time.
    pub fn to_creation(&self) -> (accounts: InitializeDeposit)
        ensures
            accounts == self.as_creation(),
    {
        InitializeDeposit {
            program_id: self.program_id,
            owner: self.owner,
            deposit_key: self.deposit_key,
            deposit: self.deposit,
            mint: self.mint,
            owner_token_account: self.owner_token_account,
            vault_key: self.vault_key,
            vault_token_account: self.vault_token_account,
        }
    }

    /// The accounts of a creation by time, as those of a creation by amount.
    pub fn from_creation(accounts: InitializeDeposit) -> (converted: InitializeDepositByAmount)
        ensures
            converted == InitializeDepositByAmount::of_creation(accounts),
            converted.as_creation() == accounts,
    {
        InitializeDepositByAmount {
            program_id: accounts.program_id,
            owner: accounts.owner,
            deposit_key: accounts.deposit_key,
            deposit: accounts.deposit,
            mint: accounts.mint,
            owner_token_account: accounts.owner_token_account,
            vault_key: accounts.vault_key,
            vault_token_account: accounts.vault_token_account,
        }
    }
}

impl AddFunds {
    /// The address over which the record proves authority with its own seeds
    /// and bump.
    pub open spec fn authority(&self) -> Option<Address> {
        authority_address(
            self.program_id,
            self.deposit.owner,
            self.deposit.lock_seed@,
            self.deposit.counter,
            self.deposit.bump,
        )
    }

    /// The check of the accounts, given the address `derived` that the seeds
    /// and the bump of the record give: nothing, or the first reason to
    /// refuse the accounts.
    pub open spec fn accounts_check(&self, derived: Option<Address>) -> Result<(), AccountError> {
        if derived != Some(self.deposit_key) {
            Err(AccountError::SeedsMismatch)
        } else if self.owner_token_account.owner != self.owner {
            Err(AccountError::TokenOwnerMismatch)
        } else if self.owner_token_account.mint != self.mint {
            Err(AccountError::MintMismatch)
        } else if self.vault_token_account.key != self.deposit.vault_token_account {
            Err(AccountError::VaultMismatch)
        } else if self.vault_token_account.mint != self.deposit.mint {
            Err(AccountError::MintMismatch)
        } else {
            Ok(())
        }
    }

    /// Checks the accounts against the address `derived` that the seeds and
    /// the bump of the record give.
    pub fn check_accounts(&self, derived: Option<Address>) -> (checked: Result<(), AccountError>)
        ensures
            checked == self.accounts_check(derived),
    {
        if !is_address(derived, &self.deposit_key) {
            Err(AccountError::SeedsMismatch)
        } else if self.owner_token_account.owner != self.owner {
            Err(AccountError::TokenOwnerMismatch)
        } else if self.owner_token_account.mint != self.mint {
            Err(AccountError::MintMismatch)
        } else if self.vault_token_account.key != self.deposit.vault_token_account {
            Err(AccountError::VaultMismatch)
        } else if self.vault_token_account.mint != self.deposit.mint {
            Err(AccountError::MintMismatch)
        } else {
            Ok(())
        }
    }
}

impl Withdraw {
    /// The address over which the record proves authority with its own seeds
    /// and bump.
    pub open spec fn authority(&self) -> Option<Address> {
        authority_address(
            self.program_id,
            self.deposit.owner,
            self.deposit.lock_seed@,
            self.deposit.counter,
            self.deposit.bump,
        )
    }

    /// The check of the accounts, given the address `derived` that the seeds
    /// and the bump of the record give: nothing, or the first reason to
    /// refuse the accounts.
    pub open spec fn accounts_check(&self, derived: Option<Address>) -> Result<(), AccountError> {
        if derived != Some(self.deposit_key) {
            Err(AccountError::SeedsMismatch)
        } else if self.vault_token_account.key != self.deposit.vault_token_account {
            Err(AccountError::VaultMismatch)
        } else if self.vault_token_account.amount < self.deposit.amount {
            Err(AccountError::VaultUnderfunded)
        } else if self.owner_token_account.owner != self.owner {
            Err(AccountError::TokenOwnerMismatch)
        } else if self.owner_token_account.mint != self.deposit.mint {
            Err(AccountError::MintMismatch)
        } else {
            Ok(())
        }
    }

    /// Checks the accounts against the address `derived` that the seeds and
    /// the bump of the record give.
    pub fn check_accounts(&self, derived: Option<Address>) -> (checked: Result<(), AccountError>)
        ensures
            checked == self.accounts_check(derived),
    {
        if !is_address(derived, &self.deposit_key) {
            Err(AccountError::SeedsMismatch)
        } else if self.vault_token_account.key != self.deposit.vault_token_account {
            Err(AccountError::VaultMismatch)
        } else if self.vault_token_account.amount < self.deposit.amount {
            Err(AccountError::VaultUnderfunded)
        } else if self.owner_token_account.owner != self.owner {
            Err(AccountError::TokenOwnerMismatch)
        } else if self.owner_token_account.mint != self.deposit.mint {
            Err(AccountError::MintMismatch)
        } else {
            Ok(())
        }
    }
}

/// Whether `derived` is the address `expected`.
fn is_address(derived: Option<Address>, expected: &Address) -> (same: bool)
    ensures
        same == (derived == Some(*expected)),
{
    match derived {
        Some(address) => address == *expected,
        None => false,
    }
}

} // verus!
