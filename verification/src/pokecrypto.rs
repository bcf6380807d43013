//! The byte-block transform for the 344-byte creature container: block
//! shuffling driven by a seed-derived index, a linear-congruential XOR
//! keystream over the shuffled body, and the 16-bit additive checksum of
//! the stored region.
//!
//! A container starts with an 8-byte header (seed, sanity word, checksum)
//! that is never shuffled or obfuscated; four 80-byte sub-blocks follow,
//! and a party-only 16-byte tail ends the larger form.

use vstd::prelude::*;
use crate::bitconverter::{spec_u16_le, spec_u32_le};
use vstd::arithmetic::div_mod::{
    lemma_fundamental_div_mod,
    lemma_fundamental_div_mod_converse,
    lemma_mod_division_less_than_divisor,
};

verus! {

/// Size of one shuffled sub-block.
pub const SIZE_8BLOCK: usize = 80;

/// Size of the stored form: the 8-byte header plus four sub-blocks.
pub const SIZE_8STORED: usize = 328;

/// Size of the party form: the stored form plus the trailing stats.
pub const SIZE_8PARTY: usize = 344;

/// Forward permutation row for a shuffle index: which source sub-block
/// lands in destination slots 0 to 3. Rows 24 to 31 repeat rows 0 to 7 so
/// that a lookup never needs a modulus.
pub open spec fn spec_perm_row(v: int) -> (int, int, int, int) {
    if v == 0 {
        (0, 1, 2, 3)
    } else if v == 1 {
        (0, 1, 3, 2)
    } else if v == 2 {
        (0, 2, 1, 3)
    } else if v == 3 {
        (0, 3, 1, 2)
    } else if v == 4 {
        (0, 2, 3, 1)
    } else if v == 5 {
        (0, 3, 2, 1)
    } else if v == 6 {
        (1, 0, 2, 3)
    } else if v == 7 {
        (1, 0, 3, 2)
    } else if v == 8 {
        (2, 0, 1, 3)
    } else if v == 9 {
        (3, 0, 1, 2)
    } else if v == 10 {
        (2, 0, 3, 1)
    } else if v == 11 {
        (3, 0, 2, 1)
    } else if v == 12 {
        (1, 2, 0, 3)
    } else if v == 13 {
        (1, 3, 0, 2)
    } else if v == 14 {
        (2, 1, 0, 3)
    } else if v == 15 {
        (3, 1, 0, 2)
    } else if v == 16 {
        (2, 3, 0, 1)
    } else if v == 17 {
        (3, 2, 0, 1)
    } else if v == 18 {
        (1, 2, 3, 0)
    } else if v == 19 {
        (1, 3, 2, 0)
    } else if v == 20 {
        (2, 1, 3, 0)
    } else if v == 21 {
        (3, 1, 2, 0)
    } else if v == 22 {
        (2, 3, 1, 0)
    } else {
        (3, 2, 1, 0)
    }
}

/// Source sub-block index for destination slot `b` under shuffle index `sv`.
pub open spec fn spec_perm(sv: int, b: int) -> int {
    let v = if sv >= 24 {
        sv - 24
    } else {
        sv
    };
    let row = spec_perm_row(v);
    if b == 0 {
        row.0
    } else if b == 1 {
        row.1
    } else if b == 2 {
        row.2
    } else {
        row.3
    }
}

/// The shuffle index whose permutation undoes the one of `sv`. Entries 24
/// to 31 repeat entries 0 to 7, like the forward table.
pub open spec fn spec_perm_invert(sv: int) -> int {
    let v = if sv >= 24 {
        sv - 24
    } else {
        sv
    };
    if v == 0 {
        0
    } else if v == 1 {
        1
    } else if v == 2 {
        2
    } else if v == 3 {
        4
    } else if v == 4 {
        3
    } else if v == 5 {
        5
    } else if v == 6 {
        6
    } else if v == 7 {
        7
    } else if v == 8 {
        12
    } else if v == 9 {
        18
    } else if v == 10 {
        13
    } else if v == 11 {
        19
    } else if v == 12 {
        8
    } else if v == 13 {
        10
    } else if v == 14 {
        14
    } else if v == 15 {
        20
    } else if v == 16 {
        16
    } else if v == 17 {
        22
    } else if v == 18 {
        9
    } else if v == 19 {
        11
    } else if v == 20 {
        15
    } else if v == 21 {
        21
    } else if v == 22 {
        17
    } else {
        23
    }
}

/// Looks up the forward permutation: the source sub-block for destination
/// slot `block` under shuffle index `sv`.
fn block_position(sv: u32, block: u32) -> (r: usize)
    requires
        sv < 32,
        block < 4,
    ensures
        r == spec_perm(sv as int, block as int),
{
    let v: u32 = if sv >= 24 {
        sv - 24
    } else {
        sv
    };
    let row: (u8, u8, u8, u8) = match v {
        0 => (0, 1, 2, 3),
        1 => (0, 1, 3, 2),
        2 => (0, 2, 1, 3),
        3 => (0, 3, 1, 2),
        4 => (0, 2, 3, 1),
        5 => (0, 3, 2, 1),
        6 => (1, 0, 2, 3),
        7 => (1, 0, 3, 2),
        8 => (2, 0, 1, 3),
        9 => (3, 0, 1, 2),
        10 => (2, 0, 3, 1),
        11 => (3, 0, 2, 1),
        12 => (1, 2, 0, 3),
        13 => (1, 3, 0, 2),
        14 => (2, 1, 0, 3),
        15 => (3, 1, 0, 2),
        16 => (2, 3, 0, 1),
        17 => (3, 2, 0, 1),
        18 => (1, 2, 3, 0),
        19 => (1, 3, 2, 0),
        20 => (2, 1, 3, 0),
        21 => (3, 1, 2, 0),
        22 => (2, 3, 1, 0),
        _ => (3, 2, 1, 0),
    };
    let e: u8 = match block {
        0 => row.0,
        1 => row.1,
        2 => row.2,
        _ => row.3,
    };
    e as usize
}

/// Looks up the inverse shuffle index for `sv`.
pub fn block_position_invert(sv: u32) -> (r: u32)
    requires
        sv < 32,
    ensures
        r == spec_perm_invert(sv as int),
        r < 24,
{
    let v: u32 = if sv >= 24 {
        sv - 24
    } else {
        sv
    };
    match v {
        0 => 0,
        1 => 1,
        2 => 2,
        3 => 4,
        4 => 3,
        5 => 5,
        6 => 6,
        7 => 7,
        8 => 12,
        9 => 18,
        10 => 13,
        11 => 19,
        12 => 8,
        13 => 10,
        14 => 14,
        15 => 20,
        16 => 16,
        17 => 22,
        18 => 9,
        19 => 11,
        20 => 15,
        21 => 21,
        22 => 17,
        _ => 23,
    }
}

/// A permutation entry is a sub-block index.
pub proof fn lemma_perm_bounds(sv: int, b: int)
    requires
        0 <= sv < 32,
        0 <= b < 4,
    ensures
        0 <= spec_perm(sv, b) < 4,
        0 <= spec_perm_invert(sv) < 24,
{
}

/// The two permutation tables are exact inverses of each other, for every
/// shuffle index in range.
pub proof fn lemma_perm_inverse(sv: int, b: int)
    requires
        0 <= sv < 32,
        0 <= b < 4,
    ensures
        spec_perm(spec_perm_invert(sv), spec_perm(sv, b)) == b,
        spec_perm(sv, spec_perm(spec_perm_invert(sv), b)) == b,
{
}

/// The byte at `i` after the four sub-blocks of `s` have been reordered:
/// inside the block region, destination slot `b` shows source sub-block
/// `spec_perm(sv, b)`; the header and anything past the block region stay.
pub open spec fn spec_shuffle(s: Seq<u8>, sv: int, bs: int) -> Seq<u8> {
    Seq::new(
        s.len(),
        |i: int|
            if 8 <= i < 8 + 4 * bs {
                s[8 + spec_perm(sv, (i - 8) / bs) * bs + (i - 8) % bs]
            } else {
                s[i]
            },
    )
}

/// Returns a copy of `data` whose four `block_size`-byte sub-blocks after
/// the 8-byte header are reordered by the permutation for `sv`.
pub fn shuffle_array(data: &Vec<u8>, sv: u32, block_size: usize) -> (r: Vec<u8>)
    requires
        sv < 32,
        block_size > 0,
        8 + 4 * block_size <= data@.len(),
    ensures
        r@ == spec_shuffle(data@, sv as int, block_size as int),
{
    let ghost target = spec_shuffle(data@, sv as int, block_size as int);
    let len: usize = data.len();
    let mut sdata = data.clone();
    assert(sdata@ == data@);
    let mut block: usize = 0;
    while block < 4
        invariant
            sv < 32,
            block_size > 0,
            8 + 4 * block_size <= data@.len(),
            data@.len() == len,
            block <= 4,
            sdata@.len() == data@.len(),
            target == spec_shuffle(data@, sv as int, block_size as int),
            forall|k: int|
                0 <= k < data@.len() ==> #[trigger] sdata@[k] == if 8 <= k < 8 + block_size * block {
                    target[k]
                } else {
                    data@[k]
                },
        decreases 4 - block,
    {
        let ofs: usize = block_position(sv, block as u32);
        proof {
            lemma_perm_bounds(sv as int, block as int);
            assert(block_size * block <= block_size * 3 && block_size * ofs <= block_size * 3)
                by (nonlinear_arith)
                requires
                    block < 4,
                    ofs < 4,
                    block_size > 0,
            ;
        }
        let sdata_start: usize = 8 + block_size * block;
        let data_start: usize = 8 + block_size * ofs;
        let mut j: usize = 0;
        while j < block_size
            invariant
                sv < 32,
                block_size > 0,
                8 + 4 * block_size <= data@.len(),
                block < 4,
                j <= block_size,
                ofs == spec_perm(sv as int, block as int),
                0 <= ofs < 4,
                sdata_start == 8 + block_size * block,
                data_start == 8 + block_size * ofs,
                data@.len() == len,
                sdata@.len() == data@.len(),
                target == spec_shuffle(data@, sv as int, block_size as int),
                forall|k: int|
                    0 <= k < data@.len() ==> #[trigger] sdata@[k] == if 8 <= k < sdata_start + j {
                        target[k]
                    } else {
                        data@[k]
                    },
            decreases block_size - j,
        {
            proof {
                assert(block_size * block + j < block_size * 4 && block_size * ofs + j
                    < block_size * 4) by (nonlinear_arith)
                    requires
                        block < 4,
                        ofs < 4,
                        0 <= j < block_size,
                ;
            }
            let dst: usize = sdata_start + j;
            let src: usize = data_start + j;
            sdata[dst] = data[src];
            proof {
                assert(dst - 8 == block * block_size + j) by (nonlinear_arith)
                    requires
                        dst == 8 + block_size * block + j,
                ;
                lemma_fundamental_div_mod_converse(
                    dst - 8,
                    block_size as int,
                    block as int,
                    j as int,
                );
                assert(target[dst as int] == data@[src as int]);
            }
            j = j + 1;
        }
        block = block + 1;
        proof {
            assert(sdata_start + block_size * 1 == 8 + block_size * block) by (nonlinear_arith)
                requires
                    sdata_start == 8 + block_size * (block - 1),
            ;
        }
    }
    proof {
        assert(sdata@ =~= target);
    }
    sdata
}

/// One step of the keystream generator: the linear congruential update
/// `seed * 0x41C64E6D + 0x6073`, wrapping modulo 2^32.
pub open spec fn spec_lcg(seed: u32) -> u32 {
    vstd::wrapping::u32_specs::wrapping_add(
        vstd::wrapping::u32_specs::wrapping_mul(0x41C64E6D, seed),
        0x6073,
    )
}

/// The seed after `k` keystream steps.
pub open spec fn spec_seed_after(seed: u32, k: nat) -> u32
    decreases k,
{
    if k == 0 {
        seed
    } else {
        spec_lcg(spec_seed_after(seed, (k - 1) as nat))
    }
}

/// The keystream byte XORed onto offset `j` of a crypted range: each step
/// covers two bytes, the first from bits 16 to 23 of the stepped seed, the
/// second from bits 24 to 31.
pub open spec fn spec_keystream(seed: u32, j: int) -> u8 {
    if j % 2 == 0 {
        (spec_seed_after(seed, (j / 2 + 1) as nat) >> 16) as u8
    } else {
        (spec_seed_after(seed, (j / 2 + 1) as nat) >> 24) as u8
    }
}

/// `s` with the keystream for `seed` XORed over the range `[start, end)`;
/// everything outside the range stays.
pub open spec fn spec_crypt(s: Seq<u8>, seed: u32, start: int, end: int) -> Seq<u8> {
    Seq::new(
        s.len(),
        |i: int|
            if start <= i < end {
                s[i] ^ spec_keystream(seed, i - start)
            } else {
                s[i]
            },
    )
}

/// Advances the seed one step, returning the new seed whose two keystream
/// bytes cover the next two positions.
fn lcg_step(seed: u32) -> (r: u32)
    ensures
        r == spec_lcg(seed),
{
    0x41C64E6Du32.wrapping_mul(seed).wrapping_add(0x6073)
}

/// XORs the keystream for `seed` over the byte range `[start, end)` of
/// `data`, two bytes per keystream step. XOR with the same keystream is its
/// own inverse, so the one function both encrypts and decrypts.
pub fn crypt_array(data: &mut Vec<u8>, seed: u32, start: usize, end: usize)
    requires
        start <= end <= old(data)@.len(),
        (end - start) % 2 == 0,
    ensures
        final(data)@ == spec_crypt(old(data)@, seed, start as int, end as int),
{
    let ghost target = spec_crypt(old(data)@, seed, start as int, end as int);
    let mut s: u32 = seed;
    let mut i: usize = start;
    while i < end
        invariant
            start <= i <= end <= old(data)@.len(),
            (end - start) % 2 == 0,
            (i - start) % 2 == 0,
            data@.len() == old(data)@.len(),
            s == spec_seed_after(seed, ((i - start) / 2) as nat),
            target == spec_crypt(old(data)@, seed, start as int, end as int),
            forall|k: int|
                0 <= k < data@.len() ==> #[trigger] data@[k] == if start <= k < i {
                    target[k]
                } else {
                    old(data)@[k]
                },
        decreases end - i,
    {
        s = lcg_step(s);
        data[i] = data[i] ^ ((s >> 16) as u8);
        data[i + 1] = data[i + 1] ^ ((s >> 24) as u8);
        proof {
            assert((i + 1 - start) / 2 == (i - start) / 2 && (i + 1 - start) % 2 == 1 && (i + 2
                - start) / 2 == (i - start) / 2 + 1);
            assert(s == spec_seed_after(seed, ((i - start) / 2 + 1) as nat));
        }
        i = i + 2;
    }
    proof {
        assert(data@ =~= target);
    }
}

/// XORs the keystream over the four sub-blocks and then, when the buffer is
/// the longer party form, over the trailing stats, restarting the stream.
pub open spec fn spec_crypt_pkm(s: Seq<u8>, seed: u32, bs: int) -> Seq<u8> {
    let end = 8 + 4 * bs;
    let t = spec_crypt(s, seed, 8, end);
    if s.len() > end {
        spec_crypt(t, seed, end, s.len() as int)
    } else {
        t
    }
}

/// Applies the keystream for `pv` to the block region of `data` and, if a
/// party tail follows, to the tail as well.
pub fn crypt_pkm(data: &mut Vec<u8>, pv: u32, block_size: usize)
    requires
        8 + 4 * block_size <= old(data)@.len(),
        old(data)@.len() % 2 == 0,
    ensures
        final(data)@ == spec_crypt_pkm(old(data)@, pv, block_size as int),
{
    let len = data.len();
    let end: usize = (4 * block_size) + 8;
    crypt_array(data, pv, 8, end);
    if len > end {
        crypt_array(data, pv, end, len);
    }
}

/// The 32-bit seed stored little-endian in the first four bytes.
pub open spec fn spec_seed_of(s: Seq<u8>) -> u32 {
    spec_u32_le(s[0], s[1], s[2], s[3])
}

/// The 5-bit shuffle index derived from the seed.
pub open spec fn spec_shuffle_index(s: Seq<u8>) -> int {
    ((spec_seed_of(s) >> 13) & 31) as int
}

proof fn lemma_mask31(x: u32)
    by (bit_vector)
    ensures
        x & 31 < 32,
{
}

/// A decrypted party container: the keystream removed, then the sub-blocks
/// put back in natural order with the seed-derived shuffle index.
pub open spec fn spec_decrypt8(s: Seq<u8>) -> Seq<u8> {
    spec_shuffle(spec_crypt_pkm(s, spec_seed_of(s), 80), spec_shuffle_index(s), 80)
}

/// An encrypted party container: the sub-blocks scattered with the inverse
/// shuffle index, then the keystream applied.
pub open spec fn spec_encrypt8(s: Seq<u8>) -> Seq<u8> {
    spec_crypt_pkm(
        spec_shuffle(s, spec_perm_invert(spec_shuffle_index(s)), 80),
        spec_seed_of(s),
        80,
    )
}

/// Decrypts an encrypted party container: removes the keystream in place
/// and returns the unshuffled result.
pub fn decrypt_array8(ekm: &mut Vec<u8>) -> (r: Vec<u8>)
    requires
        old(ekm)@.len() == SIZE_8PARTY,
    ensures
        final(ekm)@ == spec_crypt_pkm(old(ekm)@, spec_seed_of(old(ekm)@), 80),
        r@ == spec_decrypt8(old(ekm)@),
{
    let b0 = ekm[0];
    let b1 = ekm[1];
    let b2 = ekm[2];
    let b3 = ekm[3];
    let pv: u32 = (b0 as u32) | ((b1 as u32) << 8) | ((b2 as u32) << 16) | ((b3 as u32) << 24);
    let sv: u32 = (pv >> 13) & 31;
    proof {
        lemma_mask31(pv >> 13);
    }
    crypt_pkm(ekm, pv, SIZE_8BLOCK);
    shuffle_array(ekm, sv, SIZE_8BLOCK)
}

/// Encrypts a decrypted party container: scatters the sub-blocks with the
/// inverse shuffle index, then applies the keystream.
pub fn encrypt_array8(pkm: &Vec<u8>) -> (r: Vec<u8>)
    requires
        pkm@.len() == SIZE_8PARTY,
    ensures
        r@ == spec_encrypt8(pkm@),
{
    let b0 = pkm[0];
    let b1 = pkm[1];
    let b2 = pkm[2];
    let b3 = pkm[3];
    let pv: u32 = (b0 as u32) | ((b1 as u32) << 8) | ((b2 as u32) << 16) | ((b3 as u32) << 24);
    let sv: u32 = (pv >> 13) & 31;
    proof {
        lemma_mask31(pv >> 13);
    }
    let mut ekm = shuffle_array(pkm, block_position_invert(sv), SIZE_8BLOCK);
    crypt_pkm(&mut ekm, pv, SIZE_8BLOCK);
    ekm
}

/// The additive checksum of the stored region: the wrapping 16-bit sum of
/// the little-endian words from byte 8 up to `end`.
pub open spec fn spec_checksum(s: Seq<u8>, end: int) -> u16
    decreases end,
{
    if end <= 8 {
        0u16
    } else {
        vstd::wrapping::u16_specs::wrapping_add(
            spec_checksum(s, end - 2),
            spec_u16_le(s[end - 2], s[end - 1]),
        )
    }
}

/// Returns the 16-bit additive checksum of `data` over the little-endian
/// words from byte 8 up to `party_start`, with wrapping addition.
pub fn get_chk(data: &Vec<u8>, party_start: usize) -> (chk: u16)
    requires
        8 <= party_start <= data@.len(),
        party_start % 2 == 0,
    ensures
        chk == spec_checksum(data@, party_start as int),
{
    let mut chk: u16 = 0;
    let mut i: usize = 8;
    while i < party_start
        invariant
            8 <= i <= party_start <= data@.len(),
            party_start % 2 == 0,
            i % 2 == 0,
            chk == spec_checksum(data@, i as int),
        decreases party_start - i,
    {
        let lo = data[i];
        let hi = data[i + 1];
        chk = chk.wrapping_add((lo as u16) | ((hi as u16) << 8));
        i = i + 2;
    }
    chk
}

/// Whether a container is taken for encrypted: the two fixed words that a
/// decrypted record keeps at zero are both checked; if either is nonzero
/// the block is assumed to still carry the keystream. This is the format's
/// convention, not a guarantee.
pub open spec fn spec_looks_encrypted(s: Seq<u8>) -> bool {
    spec_u16_le(s[0x70], s[0x71]) != 0 || spec_u16_le(s[0xC0], s[0xC1]) != 0
}

/// A container after the conditional decryption pass: decrypted when the
/// heuristic takes it for encrypted, untouched otherwise.
pub open spec fn spec_decrypt_if_encrypted8(s: Seq<u8>) -> Seq<u8> {
    if spec_looks_encrypted(s) {
        spec_decrypt8(s)
    } else {
        s
    }
}

/// Shuffling twice with indices whose permutations cancel restores the
/// buffer.
proof fn lemma_shuffle_cancel(s: Seq<u8>, a: int, b: int, bs: int)
    requires
        0 <= a < 32,
        0 <= b < 32,
        bs > 0,
        8 + 4 * bs <= s.len(),
        forall|c: int| 0 <= c < 4 ==> #[trigger] spec_perm(a, spec_perm(b, c)) == c,
    ensures
        spec_shuffle(spec_shuffle(s, a, bs), b, bs) == s,
{
    let t = spec_shuffle(s, a, bs);
    let u = spec_shuffle(t, b, bs);
    assert forall|i: int| 0 <= i < s.len() implies u[i] == s[i] by {
        if 8 <= i < 8 + 4 * bs {
            let bi = (i - 8) / bs;
            let j = (i - 8) % bs;
            lemma_fundamental_div_mod(i - 8, bs);
            lemma_mod_division_less_than_divisor(i - 8, bs);
            assert(0 <= bi < 4) by (nonlinear_arith)
                requires
                    0 <= i - 8 < 4 * bs,
                    bs > 0,
                    i - 8 == bs * bi + j,
                    0 <= j < bs,
            ;
            lemma_perm_bounds(b, bi);
            let p = spec_perm(b, bi);
            let i2 = 8 + p * bs + j;
            assert(8 <= i2 < 8 + 4 * bs) by (nonlinear_arith)
                requires
                    0 <= p < 4,
                    0 <= j < bs,
                    bs > 0,
                    i2 == 8 + p * bs + j,
            ;
            assert(u[i] == t[i2]);
            lemma_fundamental_div_mod_converse(i2 - 8, bs, p, j);
            assert(t[i2] == s[8 + spec_perm(a, p) * bs + j]);
            assert(spec_perm(a, p) == bi);
            assert(8 + bi * bs + j == i) by (nonlinear_arith)
                requires
                    i - 8 == bs * bi + j,
            ;
        }
    };
    assert(u =~= s);
}

/// The block shuffle and its inverse-indexed shuffle undo each other, in
/// either order, for every shuffle index in range.
pub proof fn lemma_shuffle_unshuffle(s: Seq<u8>, sv: int, bs: int)
    requires
        0 <= sv < 32,
        bs > 0,
        8 + 4 * bs <= s.len(),
    ensures
        spec_shuffle(spec_shuffle(s, sv, bs), spec_perm_invert(sv), bs) == s,
        spec_shuffle(spec_shuffle(s, spec_perm_invert(sv), bs), sv, bs) == s,
{
    let isv = spec_perm_invert(sv);
    lemma_perm_bounds(sv, 0);
    assert forall|c: int| 0 <= c < 4 implies #[trigger] spec_perm(isv, spec_perm(sv, c)) == c by {
        lemma_perm_inverse(sv, c);
    };
    assert forall|c: int| 0 <= c < 4 implies #[trigger] spec_perm(sv, spec_perm(isv, c)) == c by {
        lemma_perm_inverse(sv, c);
    };
    lemma_shuffle_cancel(s, sv, isv, bs);
    lemma_shuffle_cancel(s, isv, sv, bs);
}

/// XOR with one byte twice gives the original byte back.
proof fn lemma_xor_cancel()
    by (bit_vector)
    ensures
        forall|x: u8, k: u8| #[trigger] ((x ^ k) ^ k) == x,
{
}

/// The keystream pass is its own inverse over any one range.
pub proof fn lemma_crypt_involutive(s: Seq<u8>, seed: u32, start: int, end: int)
    requires
        0 <= start,
        end <= s.len(),
    ensures
        spec_crypt(spec_crypt(s, seed, start, end), seed, start, end) == s,
{
    lemma_xor_cancel();
    assert(spec_crypt(spec_crypt(s, seed, start, end), seed, start, end) =~= s);
}

/// The full obfuscation pass, blocks region and party tail, is its own
/// inverse.
pub proof fn lemma_crypt_pkm_involutive(s: Seq<u8>, seed: u32, bs: int)
    requires
        0 <= bs,
        8 + 4 * bs <= s.len(),
    ensures
        spec_crypt_pkm(spec_crypt_pkm(s, seed, bs), seed, bs) == s,
{
    lemma_xor_cancel();
    assert(spec_crypt_pkm(spec_crypt_pkm(s, seed, bs), seed, bs) =~= s);
}

/// Encrypting a party container and decrypting the result gives the
/// original back: the seed bytes are outside both transforms, the
/// keystream cancels, and the two shuffles cancel.
pub proof fn lemma_decrypt_encrypt(s: Seq<u8>)
    requires
        s.len() == SIZE_8PARTY,
    ensures
        spec_decrypt8(spec_encrypt8(s)) == s,
{
    let seed = spec_seed_of(s);
    let sv = spec_shuffle_index(s);
    let isv = spec_perm_invert(sv);
    lemma_mask31(seed >> 13);
    lemma_perm_bounds(sv, 0);
    let sh = spec_shuffle(s, isv, 80);
    let e = spec_crypt_pkm(sh, seed, 80);
    assert(e[0] == s[0] && e[1] == s[1] && e[2] == s[2] && e[3] == s[3]);
    assert(spec_seed_of(e) == seed);
    assert(spec_shuffle_index(e) == sv);
    lemma_crypt_pkm_involutive(sh, seed, 80);
    assert(spec_crypt_pkm(e, seed, 80) == sh);
    lemma_shuffle_unshuffle(s, sv, 80);
}

/// Two buffers that agree on the summed region have the same checksum.
pub proof fn lemma_checksum_same_region(s1: Seq<u8>, s2: Seq<u8>, end: int)
    requires
        end <= s1.len(),
        end <= s2.len(),
        (end - 8) % 2 == 0,
        forall|i: int| 8 <= i < end ==> s1[i] == s2[i],
    ensures
        spec_checksum(s1, end) == spec_checksum(s2, end),
    decreases end,
{
    if end > 8 {
        lemma_checksum_same_region(s1, s2, end - 2);
    }
}

/// Two different bytes in one word position give two different words.
proof fn lemma_word_diff(a: u8, b: u8, c: u8, d: u8)
    by (bit_vector)
    requires
        a != c || b != d,
    ensures
        spec_u16_le(a, b) != spec_u16_le(c, d),
{
}

/// Once the words at a pair position differ, the running wrapping sums
/// differ all the way to the end of the region, because every later word
/// is the same on both sides and wrapping addition of the same word keeps
/// two different sums different.
proof fn lemma_checksum_diff_propagates(s1: Seq<u8>, s2: Seq<u8>, q: int, end: int)
    requires
        s1.len() == s2.len(),
        8 <= q,
        (q - 8) % 2 == 0,
        q + 2 <= end <= s1.len(),
        (end - 8) % 2 == 0,
        forall|i: int| 8 <= i < end && !(q <= i < q + 2) ==> s1[i] == s2[i],
        spec_u16_le(s1[q], s1[q + 1]) != spec_u16_le(s2[q], s2[q + 1]),
    ensures
        spec_checksum(s1, end) != spec_checksum(s2, end),
    decreases end,
{
    if end == q + 2 {
        lemma_checksum_same_region(s1, s2, q);
    } else {
        lemma_checksum_diff_propagates(s1, s2, q, end - 2);
    }
}

/// Changing any one byte of the summed region changes the checksum.
pub proof fn lemma_checksum_sensitive(s1: Seq<u8>, s2: Seq<u8>, p: int, end: int)
    requires
        s1.len() == s2.len(),
        8 <= p < end <= s1.len(),
        (end - 8) % 2 == 0,
        forall|i: int| 0 <= i < s1.len() && i != p ==> s1[i] == s2[i],
        s1[p] != s2[p],
    ensures
        spec_checksum(s1, end) != spec_checksum(s2, end),
{
    let q = p - ((p - 8) % 2);
    lemma_word_diff(s1[q], s1[q + 1], s2[q], s2[q + 1]);
    lemma_checksum_diff_propagates(s1, s2, q, end);
}

/// The conditional decryption pass settles after one application, for
/// every container whose decrypted form the heuristic takes for plain.
pub proof fn lemma_decrypt_if_encrypted_idempotent(s: Seq<u8>)
    requires
        s.len() == SIZE_8PARTY,
        spec_looks_encrypted(s) ==> !spec_looks_encrypted(spec_decrypt8(s)),
    ensures
        spec_decrypt_if_encrypted8(spec_decrypt_if_encrypted8(s)) == spec_decrypt_if_encrypted8(s),
{
}

/// Decrypts `pkm` in place when the two guard words say it still carries
/// the keystream; leaves it untouched otherwise.
pub fn decrypt_if_encrypted8(pkm: &mut Vec<u8>)
    requires
        old(pkm)@.len() == SIZE_8PARTY,
    ensures
        final(pkm)@ == spec_decrypt_if_encrypted8(old(pkm)@),
        final(pkm)@.len() == SIZE_8PARTY,
{
    let w0 = (pkm[0x70] as u16) | ((pkm[0x71] as u16) << 8);
    let w1 = (pkm[0xC0] as u16) | ((pkm[0xC1] as u16) << 8);
    if w0 != 0 || w1 != 0 {
        let d = decrypt_array8(pkm);
        *pkm = d;
    }
}

} // verus!
