//! Binary Coded Decimal conversions.
//!
//! Some container formats store small counters as BCD: each byte carries two
//! decimal digits, the high nibble first, most significant byte first.

use vstd::prelude::*;

verus! {

/// The decimal digit pair carried by one BCD byte, read as high nibble
/// times ten plus low nibble. A non-canonical byte (a nibble above 9) still
/// reads deterministically, it just contributes more than 99.
pub open spec fn spec_bcd_digits(byte: u8) -> int {
    10 * (byte >> 4) + (byte & 0xf)
}

/// The integer read from the first `n` bytes of a BCD big-endian sequence.
pub open spec fn spec_bcd_value(s: Seq<u8>, n: int) -> int
    decreases n,
{
    if n <= 0 {
        0
    } else {
        100 * spec_bcd_value(s, n - 1) + spec_bcd_digits(s[n - 1])
    }
}

/// The largest value `n` BCD bytes can read as; every byte contributes at
/// most 165, also when its nibbles are not decimal digits.
pub open spec fn spec_bcd_max(n: int) -> int {
    if n <= 0 {
        0
    } else if n == 1 {
        165
    } else if n == 2 {
        16665
    } else if n == 3 {
        1666665
    } else {
        166666665
    }
}

/// Every BCD byte contributes at most 10 * 15 + 15.
proof fn lemma_bcd_digits_bound(byte: u8)
    by (bit_vector)
    ensures
        0 <= 10 * (byte >> 4) + (byte & 0xf) <= 165,
{
}

/// The value read from at most four BCD bytes fits a 32-bit integer.
proof fn lemma_bcd_value_bound(s: Seq<u8>, n: int)
    requires
        0 <= n <= 4,
        n <= s.len(),
    ensures
        0 <= spec_bcd_value(s, n) <= spec_bcd_max(n),
    decreases n,
{
    if n > 0 {
        lemma_bcd_value_bound(s, n - 1);
        lemma_bcd_digits_bound(s[n - 1]);
    }
}

/// Returns the 32-bit signed integer read from `length` bytes of Binary
/// Coded Decimal starting at `offset`, most significant byte first.
pub fn bcd_to_int32(input: &Vec<u8>, offset: usize, length: u32) -> (r: i32)
    requires
        offset + length <= input@.len(),
        length <= 4,
    ensures
        r == spec_bcd_value(input@.subrange(offset as int, offset + length), length as int),
{
    let ghost region = input@.subrange(offset as int, offset + length);
    let end: usize = input.len();
    let mut result: i32 = 0;
    let mut i: usize = 0;
    while i < length as usize
        invariant
            offset + length <= input@.len(),
            input@.len() == end,
            length <= 4,
            0 <= i <= length,
            region == input@.subrange(offset as int, offset + length),
            result == spec_bcd_value(region, i as int),
        decreases length - i,
    {
        proof {
            lemma_bcd_value_bound(region, i as int);
            lemma_bcd_digits_bound(region[i as int]);
            assert(region[i as int] == input@[offset + i]);
        }
        let p: u8 = input[offset + i];
        result = result * 100 + 10 * ((p >> 4) as i32) + ((p & 0xf) as i32);
        i = i + 1;
    }
    result
}

/// The BCD byte holding the two low decimal digits of `p`.
pub open spec fn spec_bcd_byte(p: int) -> u8 {
    (16 * ((p % 100) / 10) + (p % 100) % 10) as u8
}

/// `v` divided by 100, `k` times over.
pub open spec fn spec_div_pow100(v: int, k: int) -> int
    decreases k,
{
    if k <= 0 {
        v
    } else {
        spec_div_pow100(v, k - 1) / 100
    }
}

/// Repeated division of a nonnegative value stays nonnegative.
proof fn lemma_div_pow100_nonneg(v: int, k: int)
    requires
        v >= 0,
        k >= 0,
    ensures
        spec_div_pow100(v, k) >= 0,
        spec_div_pow100(v, k) <= v,
    decreases k,
{
    if k > 0 {
        lemma_div_pow100_nonneg(v, k - 1);
    }
}

/// Returns `input` as `n` bytes of Binary Coded Decimal, most significant
/// byte first; decimal digits beyond the `2 * n` kept are dropped.
pub fn int32_to_bcd(input: i32, n: usize) -> (r: Vec<u8>)
    requires
        input >= 0,
    ensures
        r@.len() == n,
        forall|i: int|
            0 <= i < n ==> #[trigger] r@[i] == spec_bcd_byte(
                spec_div_pow100(input as int, n - 1 - i),
            ),
{
    // Builds the bytes least significant first, then reverses.
    let mut rev: Vec<u8> = Vec::new();
    let mut rest: i32 = input;
    let mut i: usize = 0;
    while i < n
        invariant
            0 <= i <= n,
            input >= 0,
            rest == spec_div_pow100(input as int, i as int),
            rev@.len() == i,
            forall|k: int|
                0 <= k < i ==> #[trigger] rev@[k] == spec_bcd_byte(
                    spec_div_pow100(input as int, k),
                ),
        decreases n - i,
    {
        proof {
            lemma_div_pow100_nonneg(input as int, i as int);
        }
        let p: i32 = rest % 100;
        let hi: u8 = (p / 10) as u8;
        let lo: u8 = (p % 10) as u8;
        let byte: u8 = (hi << 4) | lo;
        proof {
            assert((hi << 4) | lo == 16 * hi + lo) by (bit_vector)
                requires
                    hi < 10,
                    lo < 10,
            ;
        }
        rev.push(byte);
        rest = rest / 100;
        i = i + 1;
    }
    let mut result: Vec<u8> = Vec::new();
    while i > 0
        invariant
            0 <= i <= n,
            rev@.len() == n,
            result@.len() == n - i,
            forall|k: int|
                0 <= k < rev@.len() ==> #[trigger] rev@[k] == spec_bcd_byte(
                    spec_div_pow100(input as int, k),
                ),
            forall|k: int|
                0 <= k < result@.len() ==> #[trigger] result@[k] == spec_bcd_byte(
                    spec_div_pow100(input as int, n - 1 - k),
                ),
        decreases i,
    {
        i = i - 1;
        result.push(rev[i]);
    }
    result
}

} // verus!
