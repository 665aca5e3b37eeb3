//! Time- and amount-locked token deposits: deposit records, the derivation of
//! their addresses, and the four operations that create, fund and release them.

pub mod accounts;
pub mod address;
pub mod encoding;
pub mod errors;
pub mod events;
pub mod instructions;
pub mod laws;
pub mod seeds;
pub mod state;
pub mod transfer;

pub use accounts::{AddFunds, InitializeDeposit, InitializeDepositByAmount, TokenAccount, Withdraw};
pub use address::Address;
pub use errors::{AccountError, ErrorCode, Rejection};
pub use events::{DepositCreated, DepositCreatedByAmount, DepositFundsAdded, DepositWithdrawn};
pub use instructions::{add_funds, initialize_deposit, initialize_deposit_by_amount, withdraw};
pub use state::{ConditionType, DepositState, LockCondition, TimeLockDeposit};
pub use transfer::{AuthorityProof, Effects, Transfer};
