//! The notifications that follow each successful operation.

use crate::address::Address;
use vstd::prelude::*;

verus! {

/// A deposit locked until a point in time was created.
#[derive(Clone, Copy, Debug, PartialEq, Eq)]
pub struct DepositCreated {
    pub owner: Address,
    pub amount: u64,
    pub unlock_timestamp: i64,
    pub token: Address,
}

/// A deposit locked until it holds a target balance was created.
#[derive(Clone, Copy, Debug, PartialEq, Eq)]
pub struct DepositCreatedByAmount {
    pub owner: Address,
    pub amount: u64,
    pub unlock_amount: u64,
    pub token: Address,
}

/// Funds were added to a deposit.
#[derive(Clone, Copy, Debug, PartialEq, Eq)]
pub struct DepositFundsAdded {
    pub owner: Address,
    pub deposit: Address,
    pub additional_amount: u64,
    pub new_total_amount: u64,
}

/// A deposit was paid out to its owner.
#[derive(Clone, Copy, Debug, PartialEq, Eq)]
pub struct DepositWithdrawn {
    pub owner: Address,
    pub amount: u64,
    pub token: Address,
    pub time: i64,
}

} // verus!
