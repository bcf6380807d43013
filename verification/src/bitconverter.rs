//! Little-endian conversions from fixed-size byte arrays to integers.
//!
//! Each function reassembles an integer from its little-endian byte
//! representation; the contracts state the result as an exact function of
//! the input bytes.

use vstd::prelude::*;

verus! {

/// The `u16` stored little-endian in two bytes.
pub open spec fn spec_u16_le(b0: u8, b1: u8) -> u16 {
    (b0 as u16) | ((b1 as u16) << 8)
}

/// The `u32` stored little-endian in four bytes.
pub open spec fn spec_u32_le(b0: u8, b1: u8, b2: u8, b3: u8) -> u32 {
    (b0 as u32) | ((b1 as u32) << 8) | ((b2 as u32) << 16) | ((b3 as u32) << 24)
}

/// The `u64` stored little-endian in eight bytes.
pub open spec fn spec_u64_le(
    b0: u8,
    b1: u8,
    b2: u8,
    b3: u8,
    b4: u8,
    b5: u8,
    b6: u8,
    b7: u8,
) -> u64 {
    (b0 as u64) | ((b1 as u64) << 8) | ((b2 as u64) << 16) | ((b3 as u64) << 24) | ((b4 as u64)
        << 32) | ((b5 as u64) << 40) | ((b6 as u64) << 48) | ((b7 as u64) << 56)
}

/// Returns a 16-bit unsigned integer converted from two little-endian bytes.
pub fn to_uint16(data: &[u8; 2]) -> (r: u16)
    ensures
        r == spec_u16_le(data@[0], data@[1]),
{
    (data[0] as u16) | ((data[1] as u16) << 8)
}

/// Returns a 16-bit signed integer converted from two little-endian bytes.
pub fn to_int16(data: &[u8; 2]) -> (r: i16)
    ensures
        r == spec_u16_le(data@[0], data@[1]) as i16,
{
    to_uint16(data) as i16
}

/// Returns a 32-bit unsigned integer converted from four little-endian bytes.
pub fn to_uint32(data: &[u8; 4]) -> (r: u32)
    ensures
        r == spec_u32_le(data@[0], data@[1], data@[2], data@[3]),
{
    (data[0] as u32) | ((data[1] as u32) << 8) | ((data[2] as u32) << 16) | ((data[3] as u32)
        << 24)
}

/// Returns a 32-bit signed integer converted from four little-endian bytes.
pub fn to_int32(data: &[u8; 4]) -> (r: i32)
    ensures
        r == spec_u32_le(data@[0], data@[1], data@[2], data@[3]) as i32,
{
    to_uint32(data) as i32
}

/// Returns a 64-bit unsigned integer converted from eight little-endian bytes.
pub fn to_uint64(data: &[u8; 8]) -> (r: u64)
    ensures
        r == spec_u64_le(
            data@[0],
            data@[1],
            data@[2],
            data@[3],
            data@[4],
            data@[5],
            data@[6],
            data@[7],
        ),
{
    (data[0] as u64) | ((data[1] as u64) << 8) | ((data[2] as u64) << 16) | ((data[3] as u64)
        << 24) | ((data[4] as u64) << 32) | ((data[5] as u64) << 40) | ((data[6] as u64) << 48) | (
    (data[7] as u64) << 56)
}

/// Returns a 64-bit signed integer converted from eight little-endian bytes.
pub fn to_int64(data: &[u8; 8]) -> (r: i64)
    ensures
        r == spec_u64_le(
            data@[0],
            data@[1],
            data@[2],
            data@[3],
            data@[4],
            data@[5],
            data@[6],
            data@[7],
        ) as i64,
{
    to_uint64(data) as i64
}

/// The `u16` stored big-endian in two bytes.
pub open spec fn spec_u16_be(b0: u8, b1: u8) -> u16 {
    ((b0 as u16) << 8) | (b1 as u16)
}

/// The `u32` stored big-endian in four bytes.
pub open spec fn spec_u32_be(b0: u8, b1: u8, b2: u8, b3: u8) -> u32 {
    ((b0 as u32) << 24) | ((b1 as u32) << 16) | ((b2 as u32) << 8) | (b3 as u32)
}

/// Returns a 16-bit unsigned integer converted from two big-endian bytes.
pub fn to_uint16_be(data: &[u8; 2]) -> (r: u16)
    ensures
        r == spec_u16_be(data@[0], data@[1]),
{
    ((data[0] as u16) << 8) | (data[1] as u16)
}

/// Returns a 32-bit unsigned integer converted from four big-endian bytes.
pub fn to_uint32_be(data: &[u8; 4]) -> (r: u32)
    ensures
        r == spec_u32_be(data@[0], data@[1], data@[2], data@[3]),
{
    ((data[0] as u32) << 24) | ((data[1] as u32) << 16) | ((data[2] as u32) << 8) | (data[3]
        as u32)
}

/// Splitting a `u16` into its two little-endian bytes and reading them
/// back gives the value again.
pub proof fn lemma_u16_recompose(v: u16)
    by (bit_vector)
    ensures
        spec_u16_le((v & 0xFF) as u8, ((v >> 8) & 0xFF) as u8) == v,
{
}

/// Splitting a `u32` into its four little-endian bytes and reading them
/// back gives the value again.
pub proof fn lemma_u32_recompose(v: u32)
    by (bit_vector)
    ensures
        spec_u32_le(
            (v & 0xFF) as u8,
            ((v >> 8) & 0xFF) as u8,
            ((v >> 16) & 0xFF) as u8,
            ((v >> 24) & 0xFF) as u8,
        ) == v,
{
}

/// Splitting a `u64` into its eight little-endian bytes and reading them
/// back gives the value again.
pub proof fn lemma_u64_recompose(v: u64)
    by (bit_vector)
    ensures
        spec_u64_le(
            (v & 0xFF) as u8,
            ((v >> 8) & 0xFF) as u8,
            ((v >> 16) & 0xFF) as u8,
            ((v >> 24) & 0xFF) as u8,
            ((v >> 32) & 0xFF) as u8,
            ((v >> 40) & 0xFF) as u8,
            ((v >> 48) & 0xFF) as u8,
            ((v >> 56) & 0xFF) as u8,
        ) == v,
{
}

/// Returns the two little-endian bytes of a 16-bit unsigned integer.
pub fn write_uint16(value: u16) -> (r: Vec<u8>)
    ensures
        r@.len() == 2,
        r@[0] == (value & 0xFF) as u8,
        r@[1] == ((value >> 8) & 0xFF) as u8,
        spec_u16_le(r@[0], r@[1]) == value,
{
    proof {
        lemma_u16_recompose(value);
    }
    let mut out: Vec<u8> = Vec::new();
    out.push((value & 0xFF) as u8);
    out.push(((value >> 8) & 0xFF) as u8);
    out
}

/// Returns the four little-endian bytes of a 32-bit unsigned integer.
pub fn write_uint32(value: u32) -> (r: Vec<u8>)
    ensures
        r@.len() == 4,
        r@[0] == (value & 0xFF) as u8,
        r@[1] == ((value >> 8) & 0xFF) as u8,
        r@[2] == ((value >> 16) & 0xFF) as u8,
        r@[3] == ((value >> 24) & 0xFF) as u8,
        spec_u32_le(r@[0], r@[1], r@[2], r@[3]) == value,
{
    proof {
        lemma_u32_recompose(value);
    }
    let mut out: Vec<u8> = Vec::new();
    out.push((value & 0xFF) as u8);
    out.push(((value >> 8) & 0xFF) as u8);
    out.push(((value >> 16) & 0xFF) as u8);
    out.push(((value >> 24) & 0xFF) as u8);
    out
}

/// Returns the eight little-endian bytes of a 64-bit unsigned integer.
pub fn write_uint64(value: u64) -> (r: Vec<u8>)
    ensures
        r@.len() == 8,
        r@[0] == (value & 0xFF) as u8,
        r@[1] == ((value >> 8) & 0xFF) as u8,
        r@[2] == ((value >> 16) & 0xFF) as u8,
        r@[3] == ((value >> 24) & 0xFF) as u8,
        r@[4] == ((value >> 32) & 0xFF) as u8,
        r@[5] == ((value >> 40) & 0xFF) as u8,
        r@[6] == ((value >> 48) & 0xFF) as u8,
        r@[7] == ((value >> 56) & 0xFF) as u8,
        spec_u64_le(r@[0], r@[1], r@[2], r@[3], r@[4], r@[5], r@[6], r@[7]) == value,
{
    proof {
        lemma_u64_recompose(value);
    }
    let mut out: Vec<u8> = Vec::new();
    out.push((value & 0xFF) as u8);
    out.push(((value >> 8) & 0xFF) as u8);
    out.push(((value >> 16) & 0xFF) as u8);
    out.push(((value >> 24) & 0xFF) as u8);
    out.push(((value >> 32) & 0xFF) as u8);
    out.push(((value >> 40) & 0xFF) as u8);
    out.push(((value >> 48) & 0xFF) as u8);
    out.push(((value >> 56) & 0xFF) as u8);
    out
}

} // verus!
