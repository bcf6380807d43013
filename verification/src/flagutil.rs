//! Single-bit flags inside a byte buffer.
//!
//! A flag lives at a byte offset and a bit index; the bit index is masked to
//! the 0–7 range on purpose, matching the behaviour of the layout these
//! buffers come from, so callers must not rely on out-of-range indices
//! failing.

use vstd::prelude::*;

verus! {

/// State of a single bitflag.
#[derive(Debug, Clone, Copy, PartialEq, Eq, Structural)]
pub enum Flag {
    Off,
    On,
}

impl Default for Flag {
    /// A flag is off unless something raises it.
    fn default() -> (r: Self)
        ensures
            r == Flag::Off,
    {
        Flag::Off
    }
}

/// Whether bit `bit_index & 7` of `byte` is set.
pub open spec fn spec_bit(byte: u8, bit_index: u32) -> bool {
    (byte >> (bit_index & 7)) & 1 != 0
}

/// The flag stored at bit `bit_index & 7` of `byte`.
pub open spec fn spec_flag(byte: u8, bit_index: u32) -> Flag {
    if spec_bit(byte, bit_index) {
        Flag::On
    } else {
        Flag::Off
    }
}

/// `byte` with bit `k` cleared and then, if `on`, set again.
pub open spec fn spec_write_bit(byte: u8, k: u32, on: bool) -> u8 {
    let cleared = byte & (!(1u8 << k) as u8);
    if on {
        cleared | (1u8 << k)
    } else {
        cleared
    }
}

/// `byte` with bit `bit_index & 7` forced to `value`, all other bits kept.
pub open spec fn spec_set_bit(byte: u8, bit_index: u32, value: Flag) -> u8 {
    spec_write_bit(byte, bit_index & 7, value == Flag::On)
}

/// A masked bit index is a valid shift amount for a byte.
pub proof fn lemma_mask7(x: u32)
    by (bit_vector)
    ensures
        x & 7 < 8,
{
}

/// Writing one bit of a byte changes that bit and no other.
pub proof fn lemma_write_bit(byte: u8, k: u32)
    by (bit_vector)
    requires
        k < 8,
    ensures
        (spec_write_bit(byte, k, true) >> k) & 1 == 1,
        (spec_write_bit(byte, k, false) >> k) & 1 == 0,
        forall|j: u32|
            j < 8 && j != k ==> (spec_write_bit(byte, k, true) >> j) & 1 == (#[trigger] (byte >> j))
                & 1 && (spec_write_bit(byte, k, false) >> j) & 1 == (byte >> j) & 1,
{
}

/// Reads the bitflag at bit `bit_index & 7` of the byte at `offset`.
pub fn get_flag(array: &Vec<u8>, offset: usize, bit_index: u32) -> (r: Flag)
    requires
        offset < array@.len(),
    ensures
        r == spec_flag(array@[offset as int], bit_index),
{
    let bit = bit_index & 7;
    proof {
        lemma_mask7(bit_index);
    }
    if (array[offset] >> bit) & 1 != 0 {
        Flag::On
    } else {
        Flag::Off
    }
}

/// Writes the bitflag at bit `bit_index & 7` of the byte at `offset`,
/// leaving every other bit of the buffer as it was.
pub fn set_flag(array: &mut Vec<u8>, offset: usize, bit_index: u32, value: Flag)
    requires
        offset < old(array)@.len(),
    ensures
        final(array)@ == old(array)@.update(
            offset as int,
            spec_set_bit(old(array)@[offset as int], bit_index, value),
        ),
        spec_flag(final(array)@[offset as int], bit_index) == value,
{
    let bit = bit_index & 7;
    proof {
        lemma_mask7(bit_index);
        lemma_write_bit(old(array)@[offset as int], bit);
    }
    let cleared: u8 = array[offset] & !(1u8 << bit);
    let updated: u8 = match value {
        Flag::On => cleared | (1u8 << bit),
        Flag::Off => cleared,
    };
    array[offset] = updated;
}

} // verus!
