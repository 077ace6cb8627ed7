//! The byte-sum checksum that every table carries.
//!
//! A structure is intact when all its bytes, the checksum byte among them,
//! add up to zero modulo 256.

use vstd::prelude::*;

verus! {

/// Sum of all the bytes of `s`.
pub open spec fn byte_sum(s: Seq<u8>) -> int
    decreases s.len(),
{
    if s.len() == 0 {
        0
    } else {
        byte_sum(s.drop_last()) + s.last() as int
    }
}

/// Whether the bytes of `s` add up to zero modulo 256.
pub open spec fn sums_to_zero(s: Seq<u8>) -> bool {
    byte_sum(s) % 256 == 0
}

/// The value that the byte at index `at` must hold for `s` to sum to zero,
/// whatever it holds now.
pub open spec fn balancing_byte(s: Seq<u8>, at: int) -> int {
    (256 - (byte_sum(s) - s[at] as int) % 256) % 256
}

/// Extending a sequence by one byte adds that byte to the sum.
pub proof fn lemma_sum_of_prefix(s: Seq<u8>, n: int)
    requires
        0 <= n < s.len(),
    ensures
        byte_sum(s.subrange(0, n + 1)) == byte_sum(s.subrange(0, n)) + s[n] as int,
{
    assert(s.subrange(0, n + 1).drop_last() =~= s.subrange(0, n));
}

/// Replacing one byte moves the sum by the difference of the two values.
pub proof fn lemma_sum_after_update(s: Seq<u8>, at: int, value: u8)
    requires
        0 <= at < s.len(),
    ensures
        byte_sum(s.update(at, value)) == byte_sum(s) - s[at] as int + value as int,
    decreases s.len(),
{
    let t = s.update(at, value);
    if at == s.len() - 1 {
        assert(t.drop_last() =~= s.drop_last());
    } else {
        assert(t.drop_last() =~= s.drop_last().update(at, value));
        lemma_sum_after_update(s.drop_last(), at, value);
    }
}

/// A sequence that sums to zero no longer does once a single byte of it has
/// changed.
pub proof fn lemma_single_change_breaks_sum(s: Seq<u8>, at: int, value: u8)
    requires
        0 <= at < s.len(),
        sums_to_zero(s),
        value != s[at],
    ensures
        !sums_to_zero(s.update(at, value)),
{
    lemma_sum_after_update(s, at, value);
}

/// Among the 256 values a byte can take, the balancing byte is the only one
/// that makes the sequence sum to zero.
pub proof fn lemma_balancing_byte_is_unique(s: Seq<u8>, at: int, value: u8)
    requires
        0 <= at < s.len(),
    ensures
        0 <= balancing_byte(s, at) < 256,
        sums_to_zero(s.update(at, value)) <==> value as int == balancing_byte(s, at),
{
    lemma_sum_after_update(s, at, value);
}

/// Sum modulo 256 of the bytes of `bytes` in `[start, end)`.
pub fn sum_bytes(bytes: &[u8], start: usize, end: usize) -> (sum: u8)
    requires
        start <= end <= bytes.len(),
    ensures
        sum as int == byte_sum(bytes@.subrange(start as int, end as int)) % 256,
{
    let mut sum: u8 = 0;
    let mut i: usize = start;
    while i < end
        invariant
            start <= i <= end <= bytes.len(),
            sum as int == byte_sum(bytes@.subrange(start as int, i as int)) % 256,
        decreases end - i,
    {
        proof {
            let window = bytes@.subrange(start as int, end as int);
            assert(window.subrange(0, i - start) =~= bytes@.subrange(start as int, i as int));
            assert(window.subrange(0, i - start + 1) =~= bytes@.subrange(
                start as int,
                i as int + 1,
            ));
            lemma_sum_of_prefix(window, i - start);
        }
        sum = sum.wrapping_add(bytes[i]);
        i = i + 1;
    }
    sum
}

/// Whether the bytes of `bytes` in `[start, end)` add up to zero modulo 256.
pub fn verify_sum(bytes: &[u8], start: usize, end: usize) -> (intact: bool)
    requires
        start <= end <= bytes.len(),
    ensures
        intact == sums_to_zero(bytes@.subrange(start as int, end as int)),
{
    sum_bytes(bytes, start, end) == 0
}

/// The value to store at index `at` so that the whole of `bytes` sums to zero.
pub fn checksum_for(bytes: &[u8], at: usize) -> (value: u8)
    requires
        at < bytes.len(),
    ensures
        value as int == balancing_byte(bytes@, at as int),
        sums_to_zero(bytes@.update(at as int, value)),
{
    let total: u8 = sum_bytes(bytes, 0, bytes.len());
    let rest: u8 = total.wrapping_sub(bytes[at]);
    let value: u8 = 0u8.wrapping_sub(rest);
    proof {
        assert(bytes@.subrange(0, bytes.len() as int) =~= bytes@);
        lemma_balancing_byte_is_unique(bytes@, at as int, value);
    }
    value
}

} // verus!
