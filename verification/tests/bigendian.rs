use pkhexcore::bigendian::{bcd_to_int32, int32_to_bcd};

#[test]
fn bcd_to_int32_test() {
    let buffer = vec![32, 16];
    assert_eq!(2010, bcd_to_int32(&buffer, 0, 2));
}

#[test]
fn int32_to_bcd_test() {
    assert_eq!(vec![32, 16], int32_to_bcd(2010, 2));
}

#[test]
fn bcd_round_trip() {
    let bytes = int32_to_bcd(1234, 2);
    assert_eq!(vec![0x12, 0x34], bytes);
    assert_eq!(1234, bcd_to_int32(&bytes, 0, 2));
}

#[test]
fn bcd_with_offset() {
    let buffer = vec![0xFF, 0x09, 0x99];
    assert_eq!(999, bcd_to_int32(&buffer, 1, 2));
}
