use pkhexcore::bitconverter::{to_int16, to_int32, to_int64, to_uint16, to_uint16_be, to_uint32, to_uint32_be, to_uint64, write_uint16, write_uint32, write_uint64};

#[test]
fn to_int16_test_le() {
    let buffer = [15, 0, 0, 128, 16, 39, 240, 216, 241, 255, 127];
    assert_eq!(15, to_int16(buffer[0..2].try_into().unwrap()));
    assert_eq!(0, to_int16(buffer[1..3].try_into().unwrap()));
    assert_eq!(-32768, to_int16(buffer[2..4].try_into().unwrap()));
    assert_eq!(10000, to_int16(buffer[4..6].try_into().unwrap()));
    assert_eq!(-10000, to_int16(buffer[6..8].try_into().unwrap()));
    assert_eq!(-15, to_int16(buffer[8..10].try_into().unwrap()));
    assert_eq!(32767, to_int16(buffer[9..11].try_into().unwrap()));
}

#[test]
fn to_int32_test_le() {
    let buffer = [
        15, 0, 0, 0, 0, 16, 0, 255, 3, 0, 0, 202, 154, 59, 255, 255, 255, 255, 127,
    ];
    assert_eq!(15, to_int32(buffer[0..4].try_into().unwrap()));
    assert_eq!(268435456, to_int32(buffer[2..6].try_into().unwrap()));
    assert_eq!(-16773120, to_int32(buffer[4..8].try_into().unwrap()));
    assert_eq!(67043344, to_int32(buffer[5..9].try_into().unwrap()));
    assert_eq!(-905969661, to_int32(buffer[8..12].try_into().unwrap()));
    assert_eq!(-12870966, to_int32(buffer[11..15].try_into().unwrap()));
    assert_eq!(-50278, to_int32(buffer[12..16].try_into().unwrap()));
}

#[test]
fn to_int64_test_le() {
    let buffer = [
        0, 54, 101, 196, 255, 255, 255, 255, 0, 0, 0, 0, 0, 0, 0, 0, 128, 0, 202, 154, 59, 0, 0,
        0, 0, 1, 0, 0, 0, 0, 255, 255, 255, 255, 1, 0, 0, 255, 255, 255, 255, 255, 255, 255, 127,
        86, 85, 85, 85, 85, 85, 255, 255, 170, 170, 170, 170, 170, 170, 0, 0, 100, 167, 179, 182,
        224, 13, 0, 0, 156, 88, 76, 73, 31, 242,
    ];
    assert_eq!(-1000000000, to_int64(buffer[0..8].try_into().unwrap()));
    assert_eq!(16777215, to_int64(buffer[5..13].try_into().unwrap()));
    assert_eq!(0, to_int64(buffer[8..16].try_into().unwrap()));
    assert_eq!(-9223372036854775808, to_int64(buffer[9..17].try_into().unwrap()));
    assert_eq!(1000000000, to_int64(buffer[17..25].try_into().unwrap()));
    assert_eq!(4294967296, to_int64(buffer[21..29].try_into().unwrap()));
    assert_eq!(-4294967296, to_int64(buffer[26..34].try_into().unwrap()));
    assert_eq!(-16777215, to_int64(buffer[34..42].try_into().unwrap()));
    assert_eq!(-187649984473770, to_int64(buffer[45..53].try_into().unwrap()));
    assert_eq!(187649984473770, to_int64(buffer[53..61].try_into().unwrap()));
    assert_eq!(1000000000000000000, to_int64(buffer[59..67].try_into().unwrap()));
}

#[test]
fn to_uint16_test_le() {
    let buffer = [15, 0, 0, 255, 3, 16, 39, 255, 255, 127];
    assert_eq!(15, to_uint16(buffer[0..2].try_into().unwrap()));
    assert_eq!(0, to_uint16(buffer[1..3].try_into().unwrap()));
    assert_eq!(1023, to_uint16(buffer[3..5].try_into().unwrap()));
    assert_eq!(10000, to_uint16(buffer[5..7].try_into().unwrap()));
    assert_eq!(32767, to_uint16(buffer[8..10].try_into().unwrap()));
    assert_eq!(65535, to_uint16(buffer[7..9].try_into().unwrap()));
}

#[test]
fn to_uint32_test_le() {
    let buffer = [
        15, 0, 0, 0, 0, 16, 0, 255, 3, 0, 0, 202, 154, 59, 255, 255, 255, 255, 127,
    ];
    assert_eq!(15, to_uint32(buffer[0..4].try_into().unwrap()));
    assert_eq!(0, to_uint32(buffer[1..5].try_into().unwrap()));
    assert_eq!(1048576, to_uint32(buffer[3..7].try_into().unwrap()));
    assert_eq!(1023, to_uint32(buffer[7..11].try_into().unwrap()));
    assert_eq!(1000000000, to_uint32(buffer[10..14].try_into().unwrap()));
    assert_eq!(4294967295, to_uint32(buffer[14..18].try_into().unwrap()));
    assert_eq!(2147483647, to_uint32(buffer[15..19].try_into().unwrap()));
}

#[test]
fn to_uint64_test_le() {
    let buffer = [
        255, 255, 255, 0, 0, 0, 0, 0, 0, 0, 0, 1, 0, 0, 0, 100, 167, 179, 182, 224, 13, 0, 202,
        154, 59, 0, 0, 0, 0, 170, 170, 170, 170, 170, 170, 0, 0, 232, 137, 4, 35, 199, 138, 255,
        255, 255, 255, 255, 255, 255, 255, 127,
    ];
    assert_eq!(16777215, to_uint64(buffer[0..8].try_into().unwrap()));
    assert_eq!(0, to_uint64(buffer[3..11].try_into().unwrap()));
    assert_eq!(4294967296, to_uint64(buffer[7..15].try_into().unwrap()));
    assert_eq!(1000000000000000000, to_uint64(buffer[13..21].try_into().unwrap()));
    assert_eq!(1000000000, to_uint64(buffer[21..29].try_into().unwrap()));
    assert_eq!(187649984473770, to_uint64(buffer[29..37].try_into().unwrap()));
    assert_eq!(10000000000000000000, to_uint64(buffer[35..43].try_into().unwrap()));
    assert_eq!(18446744073709551615, to_uint64(buffer[43..51].try_into().unwrap()));
    assert_eq!(9223372036854775807, to_uint64(buffer[44..52].try_into().unwrap()));
}

#[test]
fn write_uint_round_trips() {
    assert_eq!(vec![0x34, 0x12], write_uint16(0x1234));
    assert_eq!(vec![0x78, 0x56, 0x34, 0x12], write_uint32(0x12345678));
    assert_eq!(
        vec![0x56, 0x34, 0x12, 0x90, 0x78, 0x56, 0x34, 0x12],
        write_uint64(0x1234567890123456)
    );
    assert_eq!(0x1234, to_uint16(write_uint16(0x1234)[0..2].try_into().unwrap()));
    assert_eq!(0xDEADBEEF, to_uint32(write_uint32(0xDEADBEEF)[0..4].try_into().unwrap()));
}

#[test]
fn big_endian_reads() {
    assert_eq!(0x1234, to_uint16_be(&[0x12, 0x34]));
    assert_eq!(0x12345678, to_uint32_be(&[0x12, 0x34, 0x56, 0x78]));
}
