use pkhexcore::enums::{get_move_type_generation, is_apricorn_ball, Ball, GCVersion, Gender, LanguageGC, LanguageID, MoveType, Nature, RegionID};

#[test]
fn gc_version_codes() {
    assert_eq!(0, GCVersion::Unset.value());
    assert_eq!(1, GCVersion::FR.value());
    assert_eq!(2, GCVersion::LG.value());
    assert_eq!(8, GCVersion::S.value());
    assert_eq!(9, GCVersion::R.value());
    assert_eq!(10, GCVersion::E.value());
    assert_eq!(11, GCVersion::CXD.value());
}

#[test]
fn language_gc_codes() {
    assert_eq!(0, LanguageGC::Hacked.value());
    assert_eq!(1, LanguageGC::Japanese.value());
    assert_eq!(2, LanguageGC::English.value());
    assert_eq!(7, LanguageGC::UNUSED_6.value());
}

#[test]
fn region_id_codes() {
    assert_eq!(0, RegionID::Unset.value());
    assert_eq!(6, RegionID::Taiwan.value());
    assert_eq!(Some(RegionID::Japan), RegionID::from_u8(1));
    assert_eq!(Some(RegionID::Korea), RegionID::from_u8(5));
    assert_eq!(None, RegionID::from_u8(7));
}

#[test]
fn apricorn_balls() {
    assert_eq!(false, is_apricorn_ball(Ball::Poke));
    assert_eq!(true, is_apricorn_ball(Ball::Fast));
    assert_eq!(true, is_apricorn_ball(Ball::Level));
    assert_eq!(true, is_apricorn_ball(Ball::Moon));
    assert_eq!(false, is_apricorn_ball(Ball::Sport));
    assert_eq!(false, is_apricorn_ball(Ball::Cherish));
}

#[test]
fn move_type_generation_folding() {
    // Later generations store the type unchanged.
    assert_eq!(MoveType::Fairy, get_move_type_generation(MoveType::Fairy, 8));
    assert_eq!(MoveType::Water, get_move_type_generation(MoveType::Water, 3));
    // The early generations keep the first six types as they are.
    assert_eq!(MoveType::Normal, get_move_type_generation(MoveType::Normal, 1));
    assert_eq!(MoveType::Rock, get_move_type_generation(MoveType::Rock, 2));
    assert_eq!(MoveType::Any, get_move_type_generation(MoveType::Any, 1));
    // Above the rock type the unused bird slot is skipped.
    assert_eq!(MoveType::Rock, get_move_type_generation(MoveType::Bug, 1));
    assert_eq!(MoveType::Bug, get_move_type_generation(MoveType::Spectral, 1));
    assert_eq!(MoveType::Spectral, get_move_type_generation(MoveType::Steel, 1));
    // The special block folds down by ten more.
    assert_eq!(MoveType::Any, get_move_type_generation(MoveType::Water, 1));
    assert_eq!(MoveType::Normal, get_move_type_generation(MoveType::Grass, 1));
    assert_eq!(MoveType::Bug, get_move_type_generation(MoveType::Fairy, 1));
}

#[test]
fn gender_and_language_codes() {
    assert_eq!(0, Gender::Male.value());
    assert_eq!(2, Gender::Genderless.value());
    assert_eq!(Some(Gender::Female), Gender::from_u8(1));
    assert_eq!(None, Gender::from_u8(3));
    assert_eq!(2, LanguageID::English.value());
    assert_eq!(10, LanguageID::ChineseT.value());
    assert_eq!(Some(LanguageID::Korean), LanguageID::from_u8(8));
    assert_eq!(None, LanguageID::from_u8(11));
}

#[test]
fn nature_codes() {
    assert_eq!(0, Nature::Hardy.value());
    assert_eq!(16, Nature::Mild.value());
    assert_eq!(24, Nature::Quirky.value());
    assert_eq!(Some(Nature::Mild), Nature::from_u8(16));
    assert_eq!(None, Nature::from_u8(26));
}

#[test]
fn default_enum_values() {
    assert_eq!(Gender::Male, Gender::default());
    assert_eq!(Gender::Genderless, Gender::Random);
    assert_eq!(Ball::Unset, Ball::default());
    assert_eq!(Nature::Hardy, Nature::default());
    assert_eq!(pkhexcore::flagutil::Flag::Off, pkhexcore::flagutil::Flag::default());
    assert_eq!(
        pkhexcore::game_version::GameVersion::Unknown,
        pkhexcore::game_version::GameVersion::default()
    );
}
