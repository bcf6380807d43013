//! Packing of several narrow bit fields into one 32-bit word.
//!
//! `pack_u32` concatenates a list of `(value, width)` fields into a `u32`,
//! starting at bit 0. A value too large for its width is clamped to the
//! largest value the width can hold, so packing is total and never corrupts
//! a neighbouring field. `unpack_u32` extracts one field again.

use vstd::prelude::*;

verus! {

/// All field widths are between 1 and 7 bits and fit into 32 bits together.
pub open spec fn widths_ok(fields: Seq<(u8, usize)>) -> bool {
    &&& forall|k: int| 0 <= k < fields.len() ==> 1 <= (#[trigger] fields[k]).1 <= 7
    &&& width_sum(fields, fields.len() as int) <= 32
}

/// Sum of the widths of the first `n` fields.
pub open spec fn width_sum(fields: Seq<(u8, usize)>, n: int) -> int
    decreases n,
{
    if n <= 0 {
        0
    } else {
        width_sum(fields, n - 1) + fields[n - 1].1
    }
}

/// The largest value a `w`-bit field can hold.
pub open spec fn max_of_width(w: usize) -> u32 {
    ((1u32 << w) - 1) as u32
}

/// `v` clamped to the largest value a `w`-bit field can hold.
pub open spec fn clamped(v: u8, w: usize) -> u32 {
    if v as u32 > max_of_width(w) {
        max_of_width(w)
    } else {
        v as u32
    }
}

/// The word packed from the first `n` fields, later fields at higher bits.
pub open spec fn pack_partial(fields: Seq<(u8, usize)>, n: int) -> u32
    decreases n,
{
    if n <= 0 {
        0u32
    } else {
        pack_partial(fields, n - 1) | (clamped(fields[n - 1].0, fields[n - 1].1) << width_sum(
            fields,
            n - 1,
        ))
    }
}

/// The word packed from all fields of the list.
pub open spec fn spec_pack_u32(fields: Seq<(u8, usize)>) -> u32 {
    pack_partial(fields, fields.len() as int)
}

/// `width` bits of `value`, starting at bit `offset`.
pub open spec fn spec_unpack_u32(value: u32, offset: usize, width: usize) -> u32 {
    (value >> offset) & (((1u32 << width) - 1) as u32)
}

proof fn shift_one_at_least_one(w: usize)
    by (bit_vector)
    requires
        w <= 31,
    ensures
        1u32 << w >= 1,
        w >= 1 ==> 1u32 << w >= 2,
{
}

/// Packs the given `(value, width)` fields into one 32-bit word, the first
/// field at bit 0, each later field directly above the one before it.
/// Oversized values are clamped to their field's maximum.
pub fn pack_u32(data: &[(u8, usize)]) -> (r: u32)
    requires
        widths_ok(data@),
    ensures
        r == spec_pack_u32(data@),
{
    let mut acc: u32 = 0;
    let mut shift: usize = 0;
    let mut i: usize = 0;
    while i < data.len()
        invariant
            widths_ok(data@),
            0 <= i <= data.len(),
            shift == width_sum(data@, i as int),
            acc == pack_partial(data@, i as int),
            shift <= 32,
        decreases data.len() - i,
    {
        let (v, w) = data[i];
        proof {
            width_sum_monotonic(data@, i as int + 1, data@.len() as int);
            assert(1 <= w <= 7);
            shift_one_at_least_one(w);
        }
        let max: u32 = (1u32 << w) - 1;
        let field: u32 = if (v as u32) > max {
            max
        } else {
            v as u32
        };
        acc = acc | (field << shift);
        shift = shift + w;
        i = i + 1;
    }
    acc
}

/// Extracts the `width`-bit field of `value` that starts at bit `offset`.
pub fn unpack_u32(value: u32, offset: usize, width: usize) -> (r: u32)
    requires
        offset + width <= 32,
        1 <= width <= 31,
    ensures
        r == spec_unpack_u32(value, offset, width),
        width <= 8 ==> r < 256,
{
    proof {
        shift_one_at_least_one(width);
        assert(width <= 8 ==> (value >> offset) & (((1u32 << width) - 1) as u32) < 256)
            by (bit_vector)
            requires
                1 <= width <= 31,
        ;
    }
    (value >> offset) & ((1u32 << width) - 1)
}

/// Packing six 5-bit values and two 1-bit flags into one 32-bit word and
/// unpacking each field again recovers every value exactly, clamped to its
/// width: a value at most 31 comes back unchanged, a larger one comes back
/// as 31, and no field ever disturbs a neighbouring field.
pub proof fn lemma_pack_unpack_ivs(
    v0: u8,
    v1: u8,
    v2: u8,
    v3: u8,
    v4: u8,
    v5: u8,
    f6: u8,
    f7: u8,
)
    ensures
        ({
            let fields = seq![
                (v0, 5usize),
                (v1, 5usize),
                (v2, 5usize),
                (v3, 5usize),
                (v4, 5usize),
                (v5, 5usize),
                (f6, 1usize),
                (f7, 1usize),
            ];
            let w = spec_pack_u32(fields);
            &&& spec_unpack_u32(w, 0, 5) == clamped(v0, 5)
            &&& spec_unpack_u32(w, 5, 5) == clamped(v1, 5)
            &&& spec_unpack_u32(w, 10, 5) == clamped(v2, 5)
            &&& spec_unpack_u32(w, 15, 5) == clamped(v3, 5)
            &&& spec_unpack_u32(w, 20, 5) == clamped(v4, 5)
            &&& spec_unpack_u32(w, 25, 5) == clamped(v5, 5)
            &&& spec_unpack_u32(w, 30, 1) == clamped(f6, 1)
            &&& spec_unpack_u32(w, 31, 1) == clamped(f7, 1)
        }),
{
    let fields = seq![
        (v0, 5usize),
        (v1, 5usize),
        (v2, 5usize),
        (v3, 5usize),
        (v4, 5usize),
        (v5, 5usize),
        (f6, 1usize),
        (f7, 1usize),
    ];
    let c0 = clamped(v0, 5);
    let c1 = clamped(v1, 5);
    let c2 = clamped(v2, 5);
    let c3 = clamped(v3, 5);
    let c4 = clamped(v4, 5);
    let c5 = clamped(v5, 5);
    let c6 = clamped(f6, 1);
    let c7 = clamped(f7, 1);
    assert(width_sum(fields, 0) == 0);
    assert(width_sum(fields, 1) == 5);
    assert(width_sum(fields, 2) == 10);
    assert(width_sum(fields, 3) == 15);
    assert(width_sum(fields, 4) == 20);
    assert(width_sum(fields, 5) == 25);
    assert(width_sum(fields, 6) == 30);
    assert(width_sum(fields, 7) == 31);
    assert(pack_partial(fields, 0) == 0u32);
    assert(pack_partial(fields, 1) == 0u32 | (c0 << 0));
    assert(pack_partial(fields, 2) == (0u32 | (c0 << 0)) | (c1 << 5));
    assert(pack_partial(fields, 3) == ((0u32 | (c0 << 0)) | (c1 << 5)) | (c2 << 10));
    assert(pack_partial(fields, 4) == (((0u32 | (c0 << 0)) | (c1 << 5)) | (c2 << 10)) | (c3
        << 15));
    assert(pack_partial(fields, 5) == ((((0u32 | (c0 << 0)) | (c1 << 5)) | (c2 << 10)) | (c3
        << 15)) | (c4 << 20));
    assert(pack_partial(fields, 6) == (((((0u32 | (c0 << 0)) | (c1 << 5)) | (c2 << 10)) | (c3
        << 15)) | (c4 << 20)) | (c5 << 25));
    assert(pack_partial(fields, 7) == ((((((0u32 | (c0 << 0)) | (c1 << 5)) | (c2 << 10)) | (c3
        << 15)) | (c4 << 20)) | (c5 << 25)) | (c6 << 30));
    assert(pack_partial(fields, 8) == (((((((0u32 | (c0 << 0)) | (c1 << 5)) | (c2 << 10)) | (c3
        << 15)) | (c4 << 20)) | (c5 << 25)) | (c6 << 30)) | (c7 << 31));
    let w = spec_pack_u32(fields);
    assert({
        &&& spec_unpack_u32(w, 0, 5) == c0
        &&& spec_unpack_u32(w, 5, 5) == c1
        &&& spec_unpack_u32(w, 10, 5) == c2
        &&& spec_unpack_u32(w, 15, 5) == c3
        &&& spec_unpack_u32(w, 20, 5) == c4
        &&& spec_unpack_u32(w, 25, 5) == c5
        &&& spec_unpack_u32(w, 30, 1) == c6
        &&& spec_unpack_u32(w, 31, 1) == c7
    }) by (bit_vector)
        requires
            w == (((((((0u32 | (c0 << 0)) | (c1 << 5)) | (c2 << 10)) | (c3 << 15)) | (c4 << 20)) | (
            c5 << 25)) | (c6 << 30)) | (c7 << 31),
            c0 == clamped(v0, 5),
            c1 == clamped(v1, 5),
            c2 == clamped(v2, 5),
            c3 == clamped(v3, 5),
            c4 == clamped(v4, 5),
            c5 == clamped(v5, 5),
            c6 == clamped(f6, 1),
            c7 == clamped(f7, 1),
    ;
}

/// The width sums of a field list grow with the number of fields taken.
pub proof fn width_sum_monotonic(fields: Seq<(u8, usize)>, m: int, n: int)
    requires
        0 <= m <= n <= fields.len(),
        forall|k: int| 0 <= k < fields.len() ==> 1 <= (#[trigger] fields[k]).1 <= 7,
    ensures
        width_sum(fields, m) <= width_sum(fields, n),
        m <= width_sum(fields, m),
    decreases n,
{
    if m < n {
        width_sum_monotonic(fields, m, n - 1);
    } else if m > 0 {
        width_sum_monotonic(fields, m - 1, m - 1);
    }
}

} // verus!
