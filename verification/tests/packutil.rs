use pkhexcore::packutil::{pack_u32, unpack_u32};

#[test]
fn test_pack_u32() {
    assert_eq!(
        pack_u32(&[(31, 5), (31, 5), (31, 5), (0, 5), (0, 5), (31, 5), (0, 1), (1, 1)]),
        0b10_11111_00000_00000_11111_11111_11111
    );
}

#[test]
fn pack_unpack_recovers_fields() {
    // Six 5-bit values and two 1-bit flags survive a pack and unpack.
    let w = pack_u32(&[(31, 5), (4, 5), (0, 5), (17, 5), (23, 5), (2, 5), (1, 1), (0, 1)]);
    assert_eq!(31, unpack_u32(w, 0, 5));
    assert_eq!(4, unpack_u32(w, 5, 5));
    assert_eq!(0, unpack_u32(w, 10, 5));
    assert_eq!(17, unpack_u32(w, 15, 5));
    assert_eq!(23, unpack_u32(w, 20, 5));
    assert_eq!(2, unpack_u32(w, 25, 5));
    assert_eq!(1, unpack_u32(w, 30, 1));
    assert_eq!(0, unpack_u32(w, 31, 1));
}

#[test]
fn pack_clamps_oversized_value() {
    // 50 does not fit 5 bits: it packs as 31, and the neighbours are kept.
    let w = pack_u32(&[(7, 5), (50, 5), (9, 5)]);
    assert_eq!(7, unpack_u32(w, 0, 5));
    assert_eq!(31, unpack_u32(w, 5, 5));
    assert_eq!(9, unpack_u32(w, 10, 5));
}

#[test]
fn unpack_extracts_shifted_bits() {
    assert_eq!(0x5, unpack_u32(0x50, 4, 4));
    assert_eq!(0x1F, unpack_u32(0xFFFF_FFFF, 27, 5));
}
