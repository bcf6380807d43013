use pkhexcore::pokecrypto::{
    crypt_array, decrypt_array8, decrypt_if_encrypted8, encrypt_array8, get_chk, shuffle_array,
    SIZE_8PARTY, SIZE_8STORED,
};

fn sample_plain() -> Vec<u8> {
    // A patterned decrypted container: seed, sanity and a body whose bytes
    // differ from position to position, with the two guard words kept zero
    // as every decrypted record has them.
    let mut data = vec![0u8; SIZE_8PARTY];
    data[0] = 0x09;
    data[1] = 0x1A;
    data[2] = 0x73;
    data[3] = 0xAC;
    for i in 8..SIZE_8PARTY {
        data[i] = (i as u8).wrapping_mul(31).wrapping_add(7);
    }
    for i in 0x70..0x72 {
        data[i] = 0;
    }
    for i in 0xC0..0xC2 {
        data[i] = 0;
    }
    data
}

#[test]
fn get_chk8_test() {
    // 160 words of 0x0101 sum to 0xA0A0.
    let mut data = vec![0u8; SIZE_8PARTY];
    for i in 8..SIZE_8STORED {
        data[i] = 1;
    }
    assert_eq!(0xA0A0, get_chk(&data, SIZE_8STORED));

    // The sum wraps: 0xFFFF + 0x0002 leaves 1.
    let mut data = vec![0u8; SIZE_8PARTY];
    data[8] = 0xFF;
    data[9] = 0xFF;
    data[10] = 0x02;
    assert_eq!(1, get_chk(&data, SIZE_8STORED));
}

#[test]
fn checksum_changes_with_any_byte() {
    let data = sample_plain();
    let base = get_chk(&data, SIZE_8STORED);
    assert_eq!(base, get_chk(&data, SIZE_8STORED));
    for p in [8usize, 9, 100, 201, 326, 327] {
        let mut changed = data.clone();
        changed[p] ^= 0x40;
        assert_ne!(base, get_chk(&changed, SIZE_8STORED));
    }
}

#[test]
fn shuffle_unshuffle_inverse() {
    let data = sample_plain();
    for sv in 0..32u32 {
        let inverse = pkhexcore::pokecrypto::block_position_invert(sv);
        let shuffled = shuffle_array(&data, sv, 80);
        let back = shuffle_array(&shuffled, inverse, 80);
        assert_eq!(data, back);
        let scattered = shuffle_array(&data, inverse, 80);
        let back2 = shuffle_array(&scattered, sv, 80);
        assert_eq!(data, back2);
    }
}

#[test]
fn shuffle_keeps_header_and_tail() {
    let data = sample_plain();
    let shuffled = shuffle_array(&data, 13, 80);
    assert_eq!(data[..8], shuffled[..8]);
    assert_eq!(data[SIZE_8STORED..], shuffled[SIZE_8STORED..]);
}

#[test]
fn crypt_array_is_self_inverse() {
    let mut data = sample_plain();
    let original = data.clone();
    crypt_array(&mut data, 0xAC73_1A09, 8, SIZE_8STORED);
    assert_ne!(original, data);
    crypt_array(&mut data, 0xAC73_1A09, 8, SIZE_8STORED);
    assert_eq!(original, data);
}

#[test]
fn array8_test() {
    let plain = sample_plain();
    let mut ekm = encrypt_array8(&plain);
    assert_ne!(plain, ekm);
    // The header carrying the seed is never obfuscated.
    assert_eq!(plain[..4], ekm[..4]);
    let decrypted = decrypt_array8(&mut ekm);
    assert_eq!(plain, decrypted);
}

#[test]
fn decrypt_if_encrypted_test() {
    let plain = sample_plain();
    let mut ekm = encrypt_array8(&plain);
    decrypt_if_encrypted8(&mut ekm);
    assert_eq!(plain, ekm);
    // A second pass, and a pass over already plain data, change nothing.
    let mut again = ekm.clone();
    decrypt_if_encrypted8(&mut again);
    assert_eq!(plain, again);
}

#[test]
fn crypt_array_known_keystream() {
    // For seed 1 the first four generator steps give the keystream bytes
    // C6 41 21 AC EE D2 B7 1F; over zeros the XOR writes them out.
    let mut data = vec![0u8; 16];
    crypt_array(&mut data, 1, 8, 16);
    assert_eq!(
        vec![0, 0, 0, 0, 0, 0, 0, 0, 0xC6, 0x41, 0x21, 0xAC, 0xEE, 0xD2, 0xB7, 0x1F],
        data
    );
}
