use pkhexcore::flagutil::{get_flag, set_flag, Flag};

#[test]
fn get_flag_test() {
    let buffer = vec![15, 0, 16, 255];
    for i in 0..4 {
        assert_eq!(Flag::On, get_flag(&buffer, 0, i));
        assert_eq!(Flag::Off, get_flag(&buffer, 1, i));
        assert_eq!(Flag::Off, get_flag(&buffer, 2, i));
    }
    assert_eq!(Flag::On, get_flag(&buffer, 2, 4));
    for i in 0..8 {
        assert_eq!(Flag::On, get_flag(&buffer, 3, i));
    }
}

#[test]
fn set_flag_test() {
    let mut buffer = vec![15, 0, 16, 255];
    set_flag(&mut buffer, 0, 0, Flag::Off);
    assert_eq!(Flag::Off, get_flag(&buffer, 0, 0));
    for i in 0..8 {
        set_flag(&mut buffer, 3, i, Flag::Off);
        assert_eq!(Flag::Off, get_flag(&buffer, 3, i));
    }
}

#[test]
fn set_flag_masks_bit_index() {
    // Index 9 addresses bit 1: masking, not failure, is the contract.
    let mut buffer = vec![0u8];
    set_flag(&mut buffer, 0, 9, Flag::On);
    assert_eq!(Flag::On, get_flag(&buffer, 0, 1));
    assert_eq!(vec![2u8], buffer);
}
