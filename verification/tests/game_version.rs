use pkhexcore::enums::GCVersion;
use pkhexcore::game_version::{
    get_cxd_version_id, get_g3_version_id, get_generation, is_valid_saved_version,
    met_location_version_group, GameVersion, HIGHEST_GAME_ID,
};

#[test]
fn game_ids_of_stored_versions() {
    assert_eq!(-2, GameVersion::Invalid.game_id());
    assert_eq!(0, GameVersion::Unknown.game_id());
    assert_eq!(1, GameVersion::S.game_id());
    assert_eq!(7, GameVersion::HG.game_id());
    assert_eq!(15, GameVersion::CXD.game_id());
    assert_eq!(44, GameVersion::SW.game_id());
    assert_eq!(45, GameVersion::SH.game_id());
    assert_eq!(HIGHEST_GAME_ID, GameVersion::SH.game_id());
}

#[test]
fn valid_saved_versions() {
    assert_eq!(true, is_valid_saved_version(GameVersion::S));
    assert_eq!(true, is_valid_saved_version(GameVersion::SH));
    assert_eq!(true, is_valid_saved_version(GameVersion::GO));
    assert_eq!(false, is_valid_saved_version(GameVersion::Unknown));
    assert_eq!(false, is_valid_saved_version(GameVersion::Invalid));
    assert_eq!(false, is_valid_saved_version(GameVersion::SWSH));
    assert_eq!(false, is_valid_saved_version(GameVersion::RBY));
}

#[test]
fn met_location_version_groups() {
    assert_eq!(GameVersion::SWSH, met_location_version_group(GameVersion::SW));
    assert_eq!(GameVersion::SWSH, met_location_version_group(GameVersion::SH));
    assert_eq!(GameVersion::USUM, met_location_version_group(GameVersion::RD));
    assert_eq!(GameVersion::USUM, met_location_version_group(GameVersion::C));
    assert_eq!(GameVersion::RS, met_location_version_group(GameVersion::R));
    assert_eq!(GameVersion::E, met_location_version_group(GameVersion::E));
    assert_eq!(GameVersion::FR, met_location_version_group(GameVersion::LG));
    assert_eq!(GameVersion::DP, met_location_version_group(GameVersion::P));
    assert_eq!(GameVersion::HGSS, met_location_version_group(GameVersion::SS));
    assert_eq!(GameVersion::BW, met_location_version_group(GameVersion::W));
    assert_eq!(GameVersion::B2W2, met_location_version_group(GameVersion::B2));
    assert_eq!(GameVersion::XY, met_location_version_group(GameVersion::Y));
    assert_eq!(GameVersion::ORAS, met_location_version_group(GameVersion::AS));
    assert_eq!(GameVersion::SM, met_location_version_group(GameVersion::MN));
    assert_eq!(GameVersion::GG, met_location_version_group(GameVersion::GP));
    assert_eq!(GameVersion::CXD, met_location_version_group(GameVersion::CXD));
    assert_eq!(GameVersion::GO, met_location_version_group(GameVersion::GO));
    assert_eq!(GameVersion::Invalid, met_location_version_group(GameVersion::Unknown));
}

#[test]
fn generation_classification() {
    assert_eq!(8, get_generation(GameVersion::SW, 0));
    assert_eq!(8, get_generation(GameVersion::GO, 30012));
    assert_eq!(7, get_generation(GameVersion::GO, 50));
    assert_eq!(7, get_generation(GameVersion::US, 0));
    assert_eq!(7, get_generation(GameVersion::GE, 0));
    assert_eq!(6, get_generation(GameVersion::X, 0));
    assert_eq!(6, get_generation(GameVersion::OR, 0));
    assert_eq!(5, get_generation(GameVersion::B2, 0));
    assert_eq!(4, get_generation(GameVersion::PT, 0));
    assert_eq!(4, get_generation(GameVersion::HG, 0));
    assert_eq!(3, get_generation(GameVersion::E, 0));
    assert_eq!(3, get_generation(GameVersion::CXD, 0));
    assert_eq!(2, get_generation(GameVersion::GD, 0));
    assert_eq!(1, get_generation(GameVersion::YW, 0));
    assert_eq!(-1, get_generation(GameVersion::Unknown, 0));
}

#[test]
fn cxd_version_translation() {
    assert_eq!(GCVersion::S, get_cxd_version_id(GameVersion::S));
    assert_eq!(GCVersion::CXD, get_cxd_version_id(GameVersion::CXD));
    assert_eq!(GCVersion::Unset, get_cxd_version_id(GameVersion::D));
    assert_eq!(GameVersion::FR, get_g3_version_id(GCVersion::FR));
    assert_eq!(GameVersion::Unknown, get_g3_version_id(GCVersion::Unset));
}
