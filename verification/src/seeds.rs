//! The seeds of a deposit and of its vault, and the addresses they give.
//!
//! A deposit lives at the address found from the tag `deposit`, its owner,
//! its lock seed and its counter. Its vault lives at the address found from
//! the tag `vault` and the address of the deposit. Anyone can compute both
//! from public data, so no registry of deposits is kept.

use crate::address::{create_address, created_address, find_address, found_address, Address};
use crate::encoding::{le_bytes, u32_le_bytes};
use vstd::prelude::*;

verus! {

/// The bytes of the word `deposit`.
pub open spec fn deposit_tag() -> Seq<u8> {
    seq![100u8, 101u8, 112u8, 111u8, 115u8, 105u8, 116u8]
}

/// The bytes of the word `vault`.
pub open spec fn vault_tag() -> Seq<u8> {
    seq![118u8, 97u8, 117u8, 108u8, 116u8]
}

/// The seeds of the deposit of `owner` with the given lock seed and counter.
pub open spec fn deposit_seeds(owner: Address, lock_seed: Seq<u8>, counter: u32) -> Seq<Seq<u8>> {
    seq![deposit_tag(), owner@, lock_seed, le_bytes(counter as nat, 4)]
}

/// The seeds of a deposit followed by its bump: what proves authority over
/// the address of the deposit.
pub open spec fn signer_seeds(owner: Address, lock_seed: Seq<u8>, counter: u32, bump: u8) -> Seq<
    Seq<u8>,
> {
    deposit_seeds(owner, lock_seed, counter).push(seq![bump])
}

/// The seeds of the vault of the deposit at `deposit`.
pub open spec fn vault_seeds(deposit: Address) -> Seq<Seq<u8>> {
    seq![vault_tag(), deposit@]
}

/// The address of the deposit of `owner` with the given lock seed and
/// counter under the program `program_id`, and its bump.
pub open spec fn deposit_address(
    program_id: Address,
    owner: Address,
    lock_seed: Seq<u8>,
    counter: u32,
) -> Option<(Address, u8)> {
    found_address(deposit_seeds(owner, lock_seed, counter), program_id)
}

/// The address of the vault of the deposit at `deposit`, and its bump.
pub open spec fn vault_address(program_id: Address, deposit: Address) -> Option<(Address, u8)> {
    found_address(vault_seeds(deposit), program_id)
}

/// The address of the account that holds the tokens of the deposit of `owner`
/// with the given lock seed and counter.
pub open spec fn custody_address(
    program_id: Address,
    owner: Address,
    lock_seed: Seq<u8>,
    counter: u32,
) -> Option<Address> {
    match deposit_address(program_id, owner, lock_seed, counter) {
        Some((deposit, _)) => match vault_address(program_id, deposit) {
            Some((vault, _)) => Some(vault),
            None => None,
        },
        None => None,
    }
}

/// The address over which the seeds of a deposit and the bump `bump` prove
/// authority, if there is one.
pub open spec fn authority_address(
    program_id: Address,
    owner: Address,
    lock_seed: Seq<u8>,
    counter: u32,
    bump: u8,
) -> Option<Address> {
    created_address(signer_seeds(owner, lock_seed, counter, bump), program_id)
}

fn deposit_tag_bytes() -> (tag: Vec<u8>)
    ensures
        tag@ == deposit_tag(),
{
    let tag: Vec<u8> = vec![100u8, 101u8, 112u8, 111u8, 115u8, 105u8, 116u8];
    assert(tag@ =~= deposit_tag());
    tag
}

fn vault_tag_bytes() -> (tag: Vec<u8>)
    ensures
        tag@ == vault_tag(),
{
    let tag: Vec<u8> = vec![118u8, 97u8, 117u8, 108u8, 116u8];
    assert(tag@ =~= vault_tag());
    tag
}

/// The deep view of a vector of byte vectors is the sequence of their views.
proof fn lemma_deep_view(seeds: Vec<Vec<u8>>)
    ensures
        seeds.deep_view().len() == seeds@.len(),
        forall|i: int| 0 <= i < seeds@.len() ==> #[trigger] seeds.deep_view()[i] == seeds@[i]@,
{
    assert forall|i: int| 0 <= i < seeds@.len() implies #[trigger] seeds.deep_view()[i]
        == seeds@[i]@ by {
        assert(seeds@[i].deep_view() =~= seeds@[i]@);
    }
}

/// Builds the seeds of a deposit.
pub fn build_deposit_seeds(owner: &Address, lock_seed: &[u8; 8], counter: u32) -> (seeds: Vec<
    Vec<u8>,
>)
    ensures
        seeds.deep_view() == deposit_seeds(*owner, lock_seed@, counter),
{
    let counter_bytes = u32_le_bytes(counter);
    let mut seeds: Vec<Vec<u8>> = Vec::new();
    seeds.push(deposit_tag_bytes());
    seeds.push(owner.to_vec());
    seeds.push(vstd::slice::slice_to_vec(lock_seed.as_slice()));
    seeds.push(vstd::slice::slice_to_vec(counter_bytes.as_slice()));
    proof {
        lemma_deep_view(seeds);
        assert(seeds.deep_view() =~= deposit_seeds(*owner, lock_seed@, counter));
    }
    seeds
}

/// Builds the seeds of a deposit followed by its bump.
pub fn build_signer_seeds(owner: &Address, lock_seed: &[u8; 8], counter: u32, bump: u8) -> (seeds:
    Vec<Vec<u8>>)
    ensures
        seeds.deep_view() == signer_seeds(*owner, lock_seed@, counter, bump),
{
    let mut seeds = build_deposit_seeds(owner, lock_seed, counter);
    let ghost before = seeds;
    let bump_seed: Vec<u8> = vec![bump];
    assert(bump_seed@ =~= seq![bump]);
    seeds.push(bump_seed);
    proof {
        lemma_deep_view(before);
        lemma_deep_view(seeds);
        assert(seeds.deep_view() =~= signer_seeds(*owner, lock_seed@, counter, bump));
    }
    seeds
}

/// Builds the seeds of the vault of the deposit at `deposit`.
pub fn build_vault_seeds(deposit: &Address) -> (seeds: Vec<Vec<u8>>)
    ensures
        seeds.deep_view() == vault_seeds(*deposit),
{
    let mut seeds: Vec<Vec<u8>> = Vec::new();
    seeds.push(vault_tag_bytes());
    seeds.push(deposit.to_vec());
    proof {
        lemma_deep_view(seeds);
        assert(seeds.deep_view() =~= vault_seeds(*deposit));
    }
    seeds
}

/// Finds the address of a deposit, and its bump. The bump that is found
/// proves authority over the address.
pub fn find_deposit_address(
    program_id: &Address,
    owner: &Address,
    lock_seed: &[u8; 8],
    counter: u32,
) -> (found: Option<(Address, u8)>)
    ensures
        found == deposit_address(*program_id, *owner, lock_seed@, counter),
        found matches Some((address, bump)) ==> authority_address(
            *program_id,
            *owner,
            lock_seed@,
            counter,
            bump,
        ) == Some(address),
{
    let seeds = build_deposit_seeds(owner, lock_seed, counter);
    find_address(&seeds, program_id)
}

/// Finds the address of the vault of the deposit at `deposit`, and its bump.
pub fn find_vault_address(program_id: &Address, deposit: &Address) -> (found: Option<
    (Address, u8),
>)
    ensures
        found == vault_address(*program_id, *deposit),
{
    let seeds = build_vault_seeds(deposit);
    find_address(&seeds, program_id)
}

/// Finds the address of the account that holds the tokens of a deposit,
/// from what is public of the deposit.
pub fn find_custody_address(
    program_id: &Address,
    owner: &Address,
    lock_seed: &[u8; 8],
    counter: u32,
) -> (found: Option<Address>)
    ensures
        found == custody_address(*program_id, *owner, lock_seed@, counter),
{
    match find_deposit_address(program_id, owner, lock_seed, counter) {
        Some((deposit, _)) => match find_vault_address(program_id, &deposit) {
            Some((vault, _)) => Some(vault),
            None => None,
        },
        None => None,
    }
}

/// The address over which the seeds of a deposit and `bump` prove authority.
pub fn derive_authority(
    program_id: &Address,
    owner: &Address,
    lock_seed: &[u8; 8],
    counter: u32,
    bump: u8,
) -> (derived: Option<Address>)
    ensures
        derived == authority_address(*program_id, *owner, lock_seed@, counter, bump),
{
    let seeds = build_signer_seeds(owner, lock_seed, counter, bump);
    create_address(&seeds, program_id)
}

} // verus!
