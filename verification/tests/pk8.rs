use pkhexcore::pk8::PK8;
use pkhexcore::pokecrypto::{encrypt_array8, get_chk, SIZE_8PARTY, SIZE_8STORED};

// Builds the known sample record: seed 0xAC731A09, species 882 with its
// ability, nature and trained values, nickname "Dracovish".
fn dracovish() -> PK8 {
    let mut pk = PK8::from_bytes(&vec![0u8; SIZE_8PARTY]);
    pk.set_encryption_constant(0xAC731A09);
    pk.set_sanity(0x0);
    pk.set_species(882);
    pk.set_held_item(268);
    pk.set_tid(30756);
    pk.set_sid(45312);
    pk.set_exp(1250000);
    pk.set_ability(11);
    pk.set_ability_number(1);
    pk.set_favourite(false);
    pk.set_can_gigantamax(false);
    pk.set_mark_value(0);
    pk.set_pid(0xC730F59);
    pk.set_nature(16);
    pk.set_stat_nature(16);
    pk.set_fateful_encounter(false);
    pk.set_flag2(false);
    pk.set_gender(2);
    pk.set_form(0);
    pk.set_ev_hp(4);
    pk.set_ev_atk(252);
    pk.set_ev_def(0);
    pk.set_ev_spe(252);
    pk.set_ev_spa(0);
    pk.set_ev_spd(0);
    pk.set_height_scalar(88);
    pk.set_weight_scalar(33);
    let name: Vec<u16> = "Dracovish"
        .encode_utf16()
        .chain(std::iter::repeat(0))
        .take(13)
        .collect();
    pk.set_nickname_units(&name);
    pk.set_move1_pp(35);
    pk.set_move2_pp(25);
    pk.set_move3_pp(10);
    pk.set_move4_pp(16);
    pk.set_move_1_pp_ups(0);
    pk.set_move_2_pp_ups(0);
    pk.set_move_3_pp_ups(0);
    pk.set_move_4_pp_ups(3);
    pk.set_ivs(31, 31, 31, 4, 23, 2, false, false);
    pk.set_dynamax_level(10);
    pk
}

#[test]
fn pk8_from_array_test() {
    let mut sample = dracovish();
    let plain = sample.as_bytes();
    let encrypted = encrypt_array8(&plain);
    let decoded_plain = PK8::from_bytes(&plain);
    let decoded_encrypted = PK8::from_bytes(&encrypted);
    assert_eq!(true, decoded_plain == decoded_encrypted);

    let mut other = dracovish();
    other.set_species(826);
    let other_decoded = PK8::from_bytes(&other.as_bytes());
    assert_eq!(false, other_decoded == decoded_plain);
}

#[test]
fn pk8_from_vec_test() {
    let mut sample = dracovish();
    let plain = sample.as_bytes();
    let encrypted = encrypt_array8(&plain);
    let from_encrypted = PK8::from_bytes(&encrypted);
    let from_plain = PK8::from_bytes(&plain);
    assert_eq!(true, from_encrypted == from_plain);
}

#[test]
fn pk8_calc_checksum_test() {
    // The stored checksum of an encoded record is the checksum of its
    // stored region; the layout must be self-consistent.
    let mut sample = dracovish();
    let bytes = sample.as_bytes();
    let decoded = PK8::from_bytes(&bytes);
    assert_eq!(get_chk(&bytes, SIZE_8STORED), decoded.checksum());
}

#[test]
fn pk8_get_test_1() {
    let dracovish = dracovish();
    assert_eq!(0xAC731A09, dracovish.encryption_constant());
    assert_eq!(0x0, dracovish.sanity());
    assert_eq!(882, dracovish.species());
    assert_eq!(268, dracovish.held_item());
    assert_eq!(30756, dracovish.tid());
    assert_eq!(45312, dracovish.sid());
    assert_eq!(1250000, dracovish.exp());
    assert_eq!(11, dracovish.ability());
    assert_eq!(1, dracovish.ability_number());
    assert_eq!(false, dracovish.favourite());
    assert_eq!(false, dracovish.can_gigantamax());
    assert_eq!(0, dracovish.mark_value());
    assert_eq!(0xC730F59, dracovish.pid());
    assert_eq!(16, dracovish.nature());
    assert_eq!(16, dracovish.stat_nature());
    assert_eq!(false, dracovish.fateful_encounter());
    assert_eq!(false, dracovish.flag2());
    assert_eq!(2, dracovish.gender());
    assert_eq!(0, dracovish.form());
    assert_eq!(4, dracovish.ev_hp());
    assert_eq!(252, dracovish.ev_atk());
    assert_eq!(0, dracovish.ev_def());
    assert_eq!(252, dracovish.ev_spe());
    assert_eq!(0, dracovish.ev_spa());
    assert_eq!(0, dracovish.ev_spd());
}

#[test]
fn pk8_get_test_2() {
    let dracovish = dracovish();
    assert_eq!(88, dracovish.height_scalar());
    assert_eq!(33, dracovish.weight_scalar());
    assert_eq!(35, dracovish.move1_pp());
    assert_eq!(25, dracovish.move2_pp());
    assert_eq!(10, dracovish.move3_pp());
    assert_eq!(16, dracovish.move4_pp());
    assert_eq!(0, dracovish.move_1_pp_ups());
    assert_eq!(0, dracovish.move_2_pp_ups());
    assert_eq!(0, dracovish.move_3_pp_ups());
    assert_eq!(3, dracovish.move_4_pp_ups());
    assert_eq!(31, dracovish.iv_hp());
    assert_eq!(31, dracovish.iv_atk());
    assert_eq!(31, dracovish.iv_def());
    assert_eq!(23, dracovish.iv_spa());
    assert_eq!(2, dracovish.iv_spd());
    assert_eq!(4, dracovish.iv_spe());
    assert_eq!(10, dracovish.dynamax_level());
}

#[test]
fn record_round_trip() {
    // Decoding the bytes an encoded record produced gives the record back.
    let mut sample = dracovish();
    let bytes = sample.as_bytes();
    let decoded = PK8::from_bytes(&bytes);
    assert_eq!(true, sample == decoded);
    // Encoding the decoded record reproduces the bytes exactly: the
    // checksum was already fresh.
    let mut decoded = decoded;
    assert_eq!(bytes, decoded.as_bytes());
}

#[test]
fn iv_clamp_behavior() {
    // An individual value of 50 does not fit its 5-bit field: it stores as
    // 31, and the neighbouring fields keep their values.
    let mut pk = PK8::from_bytes(&vec![0u8; SIZE_8PARTY]);
    pk.set_ivs(31, 50, 0, 4, 23, 2, true, false);
    assert_eq!(31, pk.iv_hp());
    assert_eq!(31, pk.iv_atk());
    assert_eq!(0, pk.iv_def());
    assert_eq!(4, pk.iv_spe());
    assert_eq!(23, pk.iv_spa());
    assert_eq!(2, pk.iv_spd());
    assert_eq!(true, pk.is_egg());
    assert_eq!(false, pk.is_nicknamed());
}

#[test]
fn nickname_units_round_trip() {
    let mut pk = PK8::from_bytes(&vec![0u8; SIZE_8PARTY]);
    let name: Vec<u16> = "Ho-Oh"
        .encode_utf16()
        .chain(std::iter::repeat(0))
        .take(13)
        .collect();
    pk.set_nickname_units(&name);
    assert_eq!(name, pk.nickname_units());
    assert_eq!("Ho-Oh", pkhexcore::strings::get_string7(&pk.nickname_units()));
}

#[test]
fn ribbon_flags_round_trip() {
    let mut pk = PK8::from_bytes(&vec![0u8; SIZE_8PARTY]);
    pk.set_ribbon_a(0, true);
    pk.set_ribbon_a(63, true);
    pk.set_ribbon_b(5, true);
    assert_eq!(true, pk.ribbon_a(0));
    assert_eq!(true, pk.ribbon_a(63));
    assert_eq!(false, pk.ribbon_a(1));
    assert_eq!(true, pk.ribbon_b(5));
    pk.set_ribbon_a(0, false);
    assert_eq!(false, pk.ribbon_a(0));
    assert_eq!(true, pk.ribbon_a(63));
}

#[test]
fn refresh_checksum_is_stable() {
    // One checksum pass reaches the fixed point: a second pass writes the
    // same bytes again.
    let mut pk = dracovish();
    let once = pk.as_bytes();
    let twice = pk.as_bytes();
    assert_eq!(once, twice);
}

#[test]
fn met_and_egg_date_fields() {
    let mut pk = PK8::from_bytes(&vec![0u8; SIZE_8PARTY]);
    pk.set_met_year(20);
    pk.set_met_month(2);
    pk.set_met_day(29);
    pk.set_egg_year(19);
    pk.set_egg_month(12);
    pk.set_egg_day(31);
    assert_eq!(20, pk.met_year());
    assert_eq!(2, pk.met_month());
    assert_eq!(29, pk.met_day());
    assert_eq!(19, pk.egg_year());
    assert_eq!(12, pk.egg_month());
    assert_eq!(31, pk.egg_day());
    assert!(pkhexcore::dateutil::is_date_valid(
        2000 + pk.met_year() as u32,
        pk.met_month() as u32,
        pk.met_day() as u32
    ));
}
