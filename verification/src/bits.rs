//! Flags and small fields packed into an integer.
//!
//! A flags field is a raw integer whose bits are named by position, bit 0
//! being the least significant. The spec functions say what a bit or a group
//! of bits holds in plain arithmetic; the accessors of every flags type in
//! this crate are stated over them.

use vstd::prelude::*;
use vstd::arithmetic::power2::{lemma2_to64, lemma_pow2_pos, pow2};
use vstd::bits::{
    lemma_u128_shr_is_div,
    lemma_u64_low_bits_mask_is_mod,
    lemma_u64_pow2_no_overflow,
    lemma_u64_shl_is_mul,
    lemma_u64_shr_is_div,
};

verus! {

/// Whether bit `index` of `raw` is one.
pub open spec fn bit(raw: nat, index: nat) -> bool {
    (raw / pow2(index)) % 2 == 1
}

/// Value of the `width` bits of `raw` whose lowest is bit `index`.
pub open spec fn field(raw: nat, index: nat, width: nat) -> nat {
    (raw / pow2(index)) % pow2(width)
}

/// Whether bit `index` of `raw` is one.
pub fn bit_at(raw: u128, index: u32) -> (set: bool)
    requires
        index < 128,
    ensures
        set == bit(raw as nat, index as nat),
{
    let shifted: u128 = raw >> index;
    proof {
        lemma_u128_shr_is_div(raw, index as u128);
        assert(raw >> index == raw >> (index as u128)) by (bit_vector);
        assert(shifted & 1 == shifted % 2) by (bit_vector);
    }
    shifted & 1 == 1
}

/// Value of the `width` bits of `raw` whose lowest is bit `index`.
pub fn field_at(raw: u64, index: u32, width: u32) -> (value: u64)
    requires
        index < 64,
        width < 64,
    ensures
        value == field(raw as nat, index as nat, width as nat),
        value < pow2(width as nat),
{
    let shifted: u64 = raw >> index;
    proof {
        lemma_u64_shr_is_div(raw, index as u64);
        assert(raw >> index == raw >> (index as u64)) by (bit_vector);
        lemma_u64_pow2_no_overflow(width as nat);
        lemma_u64_shl_is_mul(1, width as u64);
        assert(1u64 << width == 1u64 << (width as u64)) by (bit_vector);
        lemma_u64_low_bits_mask_is_mod(shifted, width as nat);
    }
    let mask: u64 = (1u64 << width) - 1;
    shifted & mask
}

/// Bit 0 is the parity of the raw value, and bit `index + 1` of a value is
/// bit `index` of its half.
pub proof fn lemma_bit_by_halving(raw: nat, index: nat)
    ensures
        bit(raw, 0) == (raw % 2 == 1),
        bit(raw, index + 1) == bit(raw / 2, index),
{
    lemma2_to64();
    lemma_pow2_pos(index);
    vstd::arithmetic::power2::lemma_pow2_unfold(index + 1);
    vstd::arithmetic::div_mod::lemma_div_denominator(raw as int, 2, pow2(index) as int);
}

} // verus!
