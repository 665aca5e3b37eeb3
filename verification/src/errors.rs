//! Why an operation is refused.

use vstd::prelude::*;

verus! {

/// The reasons for which the rules of a deposit refuse an operation.
#[derive(Clone, Copy, Debug, PartialEq, Eq, Structural)]
pub enum ErrorCode {
    /// An amount or a threshold is zero where a positive one is required.
    InvalidAmount,
    /// The unlock time is not strictly in the future at creation.
    InvalidTimestamp,
    /// The deposit has been withdrawn.
    NotActive,
    /// The lock condition does not hold yet.
    ConditionsNotMet,
    /// The caller is not the owner of the deposit.
    Unauthorized,
    /// The new balance does not fit in 64 bits.
    Overflow,
}

impl ErrorCode {
    /// The message of the error.
    pub fn message(&self) -> (text: &'static str)
        ensures
            text@ == match *self {
                ErrorCode::InvalidAmount => "Invalid amount"@,
                ErrorCode::InvalidTimestamp => "Invalid timestamp"@,
                ErrorCode::NotActive => "Deposit is not active"@,
                ErrorCode::ConditionsNotMet => "Withdrawal conditions not met"@,
                ErrorCode::Unauthorized => "Unauthorized"@,
                ErrorCode::Overflow => "Overflow"@,
            },
    {
        match self {
            ErrorCode::InvalidAmount => "Invalid amount",
            ErrorCode::InvalidTimestamp => "Invalid timestamp",
            ErrorCode::NotActive => "Deposit is not active",
            ErrorCode::ConditionsNotMet => "Withdrawal conditions not met",
            ErrorCode::Unauthorized => "Unauthorized",
            ErrorCode::Overflow => "Overflow",
        }
    }
}

/// The reasons for which the accounts handed to an operation are refused,
/// before the rules of the deposit are looked at.
#[derive(Clone, Copy, Debug, PartialEq, Eq, Structural)]
pub enum AccountError {
    /// The search over bumps found no address for the seeds.
    NoViableAddress,
    /// An account is not at the address that its seeds give.
    SeedsMismatch,
    /// An account that is to be created exists already.
    AlreadyInitialized,
    /// The owner's token account belongs to somebody else.
    TokenOwnerMismatch,
    /// A token account holds another token than the one expected.
    MintMismatch,
    /// The vault is not the one that the deposit names.
    VaultMismatch,
    /// The vault holds less than the deposit says.
    VaultUnderfunded,
}

/// Why an operation fails: for its accounts, or by the rules of the deposit.
#[derive(Clone, Copy, Debug, PartialEq, Eq, Structural)]
pub enum Rejection {
    Accounts(AccountError),
    Program(ErrorCode),
}

} // verus!
