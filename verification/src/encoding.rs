//! Fixed-width little-endian encodings of the integers that enter a seed.

use vstd::prelude::*;

verus! {

/// The `width` low-order bytes of `value`, least significant first.
pub open spec fn le_bytes(value: nat, width: nat) -> Seq<u8>
    decreases width,
{
    if width == 0 {
        Seq::empty()
    } else {
        seq![(value % 256) as u8] + le_bytes(value / 256, (width - 1) as nat)
    }
}

/// The unsigned 64-bit number with the same bits as `value` in two's complement.
pub open spec fn twos_complement(value: i64) -> nat {
    if value >= 0 {
        value as nat
    } else {
        (value + 0x1_0000_0000_0000_0000) as nat
    }
}

/// The number that `bytes` encodes, least significant byte first.
pub open spec fn le_value(bytes: Seq<u8>) -> nat
    decreases bytes.len(),
{
    if bytes.len() == 0 {
        0
    } else {
        bytes[0] as nat + 256 * le_value(bytes.drop_first())
    }
}

/// The array of eight bytes that holds `bytes`, a sequence of length 8.
pub open spec fn array8(bytes: Seq<u8>) -> [u8; 8] {
    choose|a: [u8; 8]| a@ == bytes
}

/// `array8` gives back the array that the bytes were read from.
pub proof fn lemma_array8_of_view(a: [u8; 8])
    ensures
        array8(a@) == a,
{
    let b = array8(a@);
    assert(b@ == a@);
    assert forall|i: int| 0 <= i < 8 implies a[i] == b[i] by {
        assert(a[i] == a@[i]);
        assert(b[i] == b@[i]);
    }
    assert(a =~= b);
}

/// Every sequence of eight bytes is held by an array: `array8` holds it.
pub proof fn lemma_array8_view(bytes: Seq<u8>)
    requires
        bytes.len() == 8,
    ensures
        array8(bytes)@ == bytes,
{
    let a0: [u8; 8] = arbitrary();
    let a1 = vstd::array::spec_array_update(a0, 0, bytes[0]);
    let a2 = vstd::array::spec_array_update(a1, 1, bytes[1]);
    let a3 = vstd::array::spec_array_update(a2, 2, bytes[2]);
    let a4 = vstd::array::spec_array_update(a3, 3, bytes[3]);
    let a5 = vstd::array::spec_array_update(a4, 4, bytes[4]);
    let a6 = vstd::array::spec_array_update(a5, 5, bytes[5]);
    let a7 = vstd::array::spec_array_update(a6, 6, bytes[6]);
    let a8 = vstd::array::spec_array_update(a7, 7, bytes[7]);
    assert(a8@ =~= bytes);
}

/// An encoding has exactly the width asked for.
pub proof fn lemma_le_bytes_len(value: nat, width: nat)
    ensures
        le_bytes(value, width).len() == width,
    decreases width,
{
    if width > 0 {
        lemma_le_bytes_len(value / 256, (width - 1) as nat);
    }
}

/// Decoding an encoding gives back the value, reduced to the width.
pub proof fn lemma_le_value_of_le_bytes(value: nat, width: nat)
    ensures
        le_value(le_bytes(value, width)) == value % vstd::arithmetic::power::pow(
            256,
            width,
        ) as nat,
    decreases width,
{
    let p = vstd::arithmetic::power::pow(256, width);
    if width == 0 {
        assert(p == 1) by {
            vstd::arithmetic::power::lemma_pow0(256);
        }
    } else {
        let rest = (width - 1) as nat;
        let q = vstd::arithmetic::power::pow(256, rest);
        lemma_le_value_of_le_bytes(value / 256, rest);
        lemma_le_bytes_len(value / 256, rest);
        let encoded = le_bytes(value, width);
        assert(encoded.drop_first() =~= le_bytes(value / 256, rest));
        assert(encoded[0] == (value % 256) as u8);
        assert(p == 256 * q) by {
            vstd::arithmetic::power::lemma_pow_positive(256, rest);
            reveal(vstd::arithmetic::power::pow);
        }
        assert(q > 0) by {
            vstd::arithmetic::power::lemma_pow_positive(256, rest);
        }
        // value % (256 * q) == value % 256 + 256 * ((value / 256) % q)
        vstd::arithmetic::div_mod::lemma_breakdown(value as int, 256, q);
    }
}

/// Two values below `256^width` with the same encoding are the same value.
pub proof fn lemma_le_bytes_injective(a: nat, b: nat, width: nat)
    requires
        a < vstd::arithmetic::power::pow(256, width),
        b < vstd::arithmetic::power::pow(256, width),
        le_bytes(a, width) == le_bytes(b, width),
    ensures
        a == b,
{
    lemma_le_value_of_le_bytes(a, width);
    lemma_le_value_of_le_bytes(b, width);
    let p = vstd::arithmetic::power::pow(256, width);
    vstd::arithmetic::div_mod::lemma_small_mod(a, p as nat);
    vstd::arithmetic::div_mod::lemma_small_mod(b, p as nat);
}

/// The eight bytes of `value`, least significant first.
pub fn u64_le_bytes(value: u64) -> (bytes: [u8; 8])
    ensures
        bytes@ == le_bytes(value as nat, 8),
{
    let v1: u64 = value / 256;
    let v2: u64 = v1 / 256;
    let v3: u64 = v2 / 256;
    let v4: u64 = v3 / 256;
    let v5: u64 = v4 / 256;
    let v6: u64 = v5 / 256;
    let v7: u64 = v6 / 256;
    let bytes: [u8; 8] = [
        (value % 256) as u8,
        (v1 % 256) as u8,
        (v2 % 256) as u8,
        (v3 % 256) as u8,
        (v4 % 256) as u8,
        (v5 % 256) as u8,
        (v6 % 256) as u8,
        (v7 % 256) as u8,
    ];
    proof {
        reveal_with_fuel(le_bytes, 9);
        assert(bytes@ =~= le_bytes(value as nat, 8));
    }
    bytes
}

/// The eight bytes of `value` in two's complement, least significant first.
pub fn i64_le_bytes(value: i64) -> (bytes: [u8; 8])
    ensures
        bytes@ == le_bytes(twos_complement(value), 8),
{
    let unsigned: u64 = if value >= 0 {
        value as u64
    } else {
        (value + i64::MAX + 1) as u64 + 0x8000_0000_0000_0000
    };
    u64_le_bytes(unsigned)
}

/// The four bytes of `value`, least significant first.
pub fn u32_le_bytes(value: u32) -> (bytes: [u8; 4])
    ensures
        bytes@ == le_bytes(value as nat, 4),
{
    let v1: u32 = value / 256;
    let v2: u32 = v1 / 256;
    let v3: u32 = v2 / 256;
    let bytes: [u8; 4] = [
        (value % 256) as u8,
        (v1 % 256) as u8,
        (v2 % 256) as u8,
        (v3 % 256) as u8,
    ];
    proof {
        reveal_with_fuel(le_bytes, 5);
        assert(bytes@ =~= le_bytes(value as nat, 4));
    }
    bytes
}

} // verus!
