//! Account addresses and the derivation of program addresses from seeds.
//!
//! A program address is found from a list of byte seeds and the identity of the
//! program that owns it. No private key exists for it: only the program that
//! knows the seeds, and the bump found with them, can act for the address.

use anchor_lang::prelude::Pubkey;
use vstd::prelude::*;
use vstd::std_specs::cmp::PartialEqSpecImpl;

verus! {

/// The address of an account: 32 bytes.
#[derive(Clone, Copy, Debug, Eq)]
pub struct Address {
    pub bytes: [u8; 32],
}

impl View for Address {
    type V = Seq<u8>;

    open spec fn view(&self) -> Seq<u8> {
        self.bytes@
    }
}

impl PartialEq for Address {
    fn eq(&self, other: &Address) -> (same: bool) {
        let mut i: usize = 0;
        while i < 32
            invariant
                i <= 32,
                forall|k: int| 0 <= k < i ==> self.bytes[k] == other.bytes[k],
            decreases 32 - i,
        {
            if self.bytes[i] != other.bytes[i] {
                return false;
            }
            i += 1;
        }
        proof {
            assert(self.bytes =~= other.bytes);
        }
        true
    }
}

impl PartialEqSpecImpl for Address {
    open spec fn obeys_eq_spec() -> bool {
        true
    }

    open spec fn eq_spec(&self, other: &Address) -> bool {
        *self == *other
    }
}

impl Address {
    /// The address made of the given bytes.
    pub fn new(bytes: [u8; 32]) -> (address: Address)
        ensures
            address.bytes == bytes,
    {
        Address { bytes }
    }

    /// The bytes of the address, in a vector.
    pub fn to_vec(&self) -> (bytes: Vec<u8>)
        ensures
            bytes@ == self@,
    {
        vstd::slice::slice_to_vec(self.bytes.as_slice())
    }
}

/// The address whose bytes are `bytes`, a sequence of length 32.
pub open spec fn address_of(bytes: Seq<u8>) -> Address {
    choose|a: Address| a@ == bytes
}

/// Two addresses with the same bytes are the same address.
pub proof fn lemma_address_by_bytes(a: Address, b: Address)
    ensures
        a@ == b@ <==> a == b,
{
    if a@ == b@ {
        assert forall|i: int| 0 <= i < 32 implies a.bytes[i] == b.bytes[i] by {
            assert(a.bytes[i] == a@[i]);
            assert(b.bytes[i] == b@[i]);
        }
        assert(a.bytes =~= b.bytes);
    }
}

/// `address_of` gives back the address that the bytes were read from.
pub proof fn lemma_address_of_view(a: Address)
    ensures
        address_of(a@) == a,
{
    lemma_address_by_bytes(address_of(a@), a);
}

/// What `Pubkey::create_program_address` returns for the seeds `seeds` and
/// the program `program_id`: the bytes of the address, or `None` where it
/// returns an error.
pub uninterp spec fn program_address(seeds: Seq<Seq<u8>>, program_id: Seq<u8>) -> Option<Seq<u8>>;

/// What `Pubkey::try_find_program_address` returns for the seeds `seeds` and
/// the program `program_id`: the bytes of the address and the bump.
pub uninterp spec fn found_program_address(seeds: Seq<Seq<u8>>, program_id: Seq<u8>) -> Option<
    (Seq<u8>, u8),
>;

/// The address that the seeds give without a search, if they give one.
pub open spec fn created_address(seeds: Seq<Seq<u8>>, program_id: Address) -> Option<Address> {
    match program_address(seeds, program_id@) {
        Some(bytes) => Some(address_of(bytes)),
        None => None,
    }
}

/// The address and bump that the search over bumps finds for the seeds.
pub open spec fn found_address(seeds: Seq<Seq<u8>>, program_id: Address) -> Option<(Address, u8)> {
    match found_program_address(seeds, program_id@) {
        Some((bytes, bump)) => Some((address_of(bytes), bump)),
        None => None,
    }
}

/// Calls `Pubkey::create_program_address` of anchor-lang's prelude (the type
/// is that of the crate solana-pubkey). The result is named by
/// `program_address`: the address it returns, `None` for each of its errors.
#[verifier::external_body]
fn create_program_address(seeds: &Vec<Vec<u8>>, program_id: &Address) -> (derived: Option<Address>)
    ensures
        derived matches Some(address) ==> program_address(seeds.deep_view(), program_id@) == Some(
            address@,
        ),
        derived is None ==> program_address(seeds.deep_view(), program_id@) is None,
{
    let parts: Vec<&[u8]> = seeds.iter().map(|seed| seed.as_slice()).collect();
    match Pubkey::create_program_address(&parts, &Pubkey::new_from_array(program_id.bytes)) {
        Ok(key) => Some(Address { bytes: key.to_bytes() }),
        Err(_) => None,
    }
}

/// Calls `Pubkey::try_find_program_address` of anchor-lang's prelude (the
/// type is that of the crate solana-pubkey). The result is named by
/// `found_program_address`. The function tries the bumps from 255 down and
/// returns the first for which `Pubkey::create_program_address`, given the
/// seeds followed by the bump as a one-byte seed, returns an address: so the
/// address found is the one that these longer seeds give without a search.
#[verifier::external_body]
fn try_find_program_address(seeds: &Vec<Vec<u8>>, program_id: &Address) -> (derived: Option<
    (Address, u8),
>)
    ensures
        derived matches Some((address, bump)) ==> found_program_address(
            seeds.deep_view(),
            program_id@,
        ) == Some((address@, bump)),
        derived is None ==> found_program_address(seeds.deep_view(), program_id@) is None,
        derived matches Some((address, bump)) ==> program_address(
            seeds.deep_view().push(seq![bump]),
            program_id@,
        ) == Some(address@),
{
    let parts: Vec<&[u8]> = seeds.iter().map(|seed| seed.as_slice()).collect();
    match Pubkey::try_find_program_address(&parts, &Pubkey::new_from_array(program_id.bytes)) {
        Some((key, bump)) => Some((Address { bytes: key.to_bytes() }, bump)),
        None => None,
    }
}

/// The address that `seeds` give for `program_id` without a search.
pub fn create_address(seeds: &Vec<Vec<u8>>, program_id: &Address) -> (derived: Option<Address>)
    ensures
        derived == created_address(seeds.deep_view(), *program_id),
{
    let derived = create_program_address(seeds, program_id);
    proof {
        if let Some(address) = derived {
            lemma_address_of_view(address);
        }
    }
    derived
}

/// Searches for the address that `seeds` give for `program_id`, and its bump.
/// An address that is found is the one that the seeds and the bump give
/// without a search.
pub fn find_address(seeds: &Vec<Vec<u8>>, program_id: &Address) -> (derived: Option<(Address, u8)>)
    ensures
        derived == found_address(seeds.deep_view(), *program_id),
        derived matches Some((address, bump)) ==> created_address(
            seeds.deep_view().push(seq![bump]),
            *program_id,
        ) == Some(address),
{
    let derived = try_find_program_address(seeds, program_id);
    proof {
        if let Some((address, bump)) = derived {
            lemma_address_of_view(address);
        }
    }
    derived
}

} // verus!
