//! The transfers of tokens that the operations ask for.
//!
//! The library moves no tokens itself. Each successful operation names one
//! transfer, which the caller executes with the token program. Tokens that
//! enter a vault move under the authority of the owner, who signs the
//! request. Tokens that leave a vault move under the authority of the deposit,
//! for which nobody can sign: the program proves its authority with the seeds
//! and the bump of the deposit.

use crate::address::Address;
use crate::seeds::{authority_address, build_signer_seeds, derive_authority, signer_seeds};
use crate::state::TimeLockDeposit;
use vstd::prelude::*;

verus! {

/// What reproduces the address of a deposit: its owner, lock seed, counter
/// and bump.
#[derive(Clone, Copy, Debug, PartialEq, Eq)]
pub struct AuthorityProof {
    pub owner: Address,
    pub lock_seed: [u8; 8],
    pub counter: u32,
    pub bump: u8,
}

impl AuthorityProof {
    /// The seeds that the proof consists of.
    pub open spec fn seeds(&self) -> Seq<Seq<u8>> {
        signer_seeds(self.owner, self.lock_seed@, self.counter, self.bump)
    }

    /// The address over which the proof gives authority to `program_id`.
    pub open spec fn address(&self, program_id: Address) -> Option<Address> {
        authority_address(program_id, self.owner, self.lock_seed@, self.counter, self.bump)
    }

    /// The proof that a record holds for its own address.
    pub open spec fn of_record(record: TimeLockDeposit) -> AuthorityProof {
        AuthorityProof {
            owner: record.owner,
            lock_seed: record.lock_seed,
            counter: record.counter,
            bump: record.bump,
        }
    }

    /// The proof that a record holds for its own address.
    pub fn of(record: &TimeLockDeposit) -> (proof: AuthorityProof)
        ensures
            proof == AuthorityProof::of_record(*record),
    {
        AuthorityProof {
            owner: record.owner,
            lock_seed: record.lock_seed,
            counter: record.counter,
            bump: record.bump,
        }
    }

    /// The seeds to sign a transfer with.
    pub fn signer_seeds(&self) -> (seeds: Vec<Vec<u8>>)
        ensures
            seeds.deep_view() == self.seeds(),
    {
        build_signer_seeds(&self.owner, &self.lock_seed, self.counter, self.bump)
    }

    /// The address over which the proof gives authority to `program_id`, if
    /// it gives authority over any.
    pub fn derive(&self, program_id: &Address) -> (derived: Option<Address>)
        ensures
            derived == self.address(*program_id),
    {
        derive_authority(program_id, &self.owner, &self.lock_seed, self.counter, self.bump)
    }
}

/// One transfer of tokens between two token accounts.
#[derive(Clone, Copy, Debug, PartialEq, Eq)]
pub struct Transfer {
    /// The token account that pays.
    pub from: Address,
    /// The token account that receives.
    pub to: Address,
    /// Who has authority over the paying account.
    pub authority: Address,
    pub amount: u64,
    /// `None` where the authority signs the request itself; else the proof
    /// of the program's authority over the paying account.
    pub proof: Option<AuthorityProof>,
}

/// What a successful operation asks of its caller: a transfer to execute and
/// an event to publish.
#[derive(Debug, PartialEq, Eq)]
pub struct Effects<E> {
    pub transfer: Transfer,
    pub event: E,
}

} // verus!
