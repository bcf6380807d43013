//! Game version identifiers, their stored ids, and the version-group and
//! generation classification built on them.
//!
//! The early values are ids stored inside record data; the later ones are
//! groupings and indicators that only ever live in memory. A stored id is
//! reached through `game_id`, never through the declaration order.

use vstd::prelude::*;
use crate::enums::GCVersion;

verus! {

/// Game version id values shared between stored version ids and lumped
/// version groupings.
#[derive(Debug, Clone, Copy, PartialEq, Eq, Structural)]
pub enum GameVersion {
    /// Indicator for empty method arguments and error results; never stored.
    Invalid,
    /// Indicator matching any version; never stored.
    Any,
    /// Version not set.
    Unknown,
    /// Sapphire.
    S,
    /// Ruby.
    R,
    /// Emerald.
    E,
    /// FireRed.
    FR,
    /// LeafGreen.
    LG,
    /// Colosseum and XD.
    CXD,
    /// Diamond.
    D,
    /// Pearl.
    P,
    /// Platinum.
    PT,
    /// HeartGold.
    HG,
    /// SoulSilver.
    SS,
    /// White.
    W,
    /// Black.
    B,
    /// White 2.
    W2,
    /// Black 2.
    B2,
    /// X.
    X,
    /// Y.
    Y,
    /// Alpha Sapphire.
    AS,
    /// Omega Ruby.
    OR,
    /// Sun.
    SN,
    /// Moon.
    MN,
    /// Ultra Sun.
    US,
    /// Ultra Moon.
    UM,
    /// GO.
    GO,
    /// Red, virtual console.
    RD,
    /// Green or international Blue, virtual console.
    GN,
    /// Japanese Blue, virtual console.
    BU,
    /// Yellow, virtual console.
    YW,
    /// Gold, virtual console.
    GD,
    /// Silver, virtual console.
    SV,
    /// Crystal, virtual console.
    C,
    /// Let's Go Pikachu.
    GP,
    /// Let's Go Eevee.
    GE,
    /// Sword.
    SW,
    /// Shield.
    SH,
    /// Red and Blue save grouping.
    RB,
    /// Red, Blue and Yellow save grouping.
    RBY,
    /// Gold and Silver save grouping.
    GS,
    /// Gold, Silver and Crystal save grouping.
    GSC,
    /// Ruby and Sapphire grouping.
    RS,
    /// Ruby, Sapphire and Emerald grouping.
    RSE,
    /// FireRed and LeafGreen grouping.
    FRLG,
    /// Box Ruby and Sapphire save grouping.
    RSBOX,
    /// Colosseum save grouping.
    COLO,
    /// XD save grouping.
    XD,
    /// Diamond and Pearl grouping.
    DP,
    /// Diamond, Pearl and Platinum grouping.
    DPPT,
    /// HeartGold and SoulSilver grouping.
    HGSS,
    /// Battle Revolution save grouping.
    BATREV,
    /// Black and White grouping.
    BW,
    /// Black 2 and White 2 grouping.
    B2W2,
    /// X and Y grouping.
    XY,
    /// Omega Ruby and Alpha Sapphire demo grouping.
    ORASDEMO,
    /// Omega Ruby and Alpha Sapphire grouping.
    ORAS,
    /// Sun and Moon grouping.
    SM,
    /// Ultra Sun and Ultra Moon grouping.
    USUM,
    /// Let's Go Pikachu and Eevee grouping.
    GG,
    /// Sword and Shield grouping.
    SWSH,
    /// Generation 1 games.
    Gen1,
    /// Generation 2 games.
    Gen2,
    /// Generation 3 games.
    Gen3,
    /// Generation 4 games.
    Gen4,
    /// Generation 5 games.
    Gen5,
    /// Generation 6 games.
    Gen6,
    /// Generation 7 games.
    Gen7,
    /// Generation 8 games.
    Gen8,
    /// Game Boy cartridge era only.
    GBCartEraOnly,
    /// Stadium data origin.
    Stadium,
    /// Stadium 2 data origin.
    Stadium2,
    /// Generation 1 Game Boy event data origin.
    EventsGBGen1,
    /// Generation 2 Game Boy event data origin.
    EventsGBGen2,
    /// Generation 1 and 2 virtual console event data origin.
    VCEvents,
}

/// The numeric id of a version value: the id stored in record data for
/// stored values, the in-memory id for groupings and indicators.
pub open spec fn spec_game_id(v: GameVersion) -> i32 {
    match v {
        GameVersion::Invalid => -2i32,
        GameVersion::Any => -1i32,
        GameVersion::Unknown => 0,
        GameVersion::S => 1,
        GameVersion::R => 2,
        GameVersion::E => 3,
        GameVersion::FR => 4,
        GameVersion::LG => 5,
        GameVersion::CXD => 15,
        GameVersion::D => 10,
        GameVersion::P => 11,
        GameVersion::PT => 12,
        GameVersion::HG => 7,
        GameVersion::SS => 8,
        GameVersion::W => 20,
        GameVersion::B => 21,
        GameVersion::W2 => 22,
        GameVersion::B2 => 23,
        GameVersion::X => 24,
        GameVersion::Y => 25,
        GameVersion::AS => 26,
        GameVersion::OR => 27,
        GameVersion::SN => 30,
        GameVersion::MN => 31,
        GameVersion::US => 32,
        GameVersion::UM => 33,
        GameVersion::GO => 34,
        GameVersion::RD => 35,
        GameVersion::GN => 36,
        GameVersion::BU => 37,
        GameVersion::YW => 38,
        GameVersion::GD => 39,
        GameVersion::SV => 40,
        GameVersion::C => 41,
        GameVersion::GP => 42,
        GameVersion::GE => 43,
        GameVersion::SW => 44,
        GameVersion::SH => 45,
        GameVersion::RB => 46,
        GameVersion::RBY => 47,
        GameVersion::GS => 48,
        GameVersion::GSC => 49,
        GameVersion::RS => 50,
        GameVersion::RSE => 51,
        GameVersion::FRLG => 52,
        GameVersion::RSBOX => 53,
        GameVersion::COLO => 54,
        GameVersion::XD => 55,
        GameVersion::DP => 56,
        GameVersion::DPPT => 57,
        GameVersion::HGSS => 58,
        GameVersion::BATREV => 59,
        GameVersion::BW => 60,
        GameVersion::B2W2 => 61,
        GameVersion::XY => 62,
        GameVersion::ORASDEMO => 63,
        GameVersion::ORAS => 64,
        GameVersion::SM => 65,
        GameVersion::USUM => 66,
        GameVersion::GG => 67,
        GameVersion::SWSH => 68,
        GameVersion::Gen1 => 69,
        GameVersion::Gen2 => 70,
        GameVersion::Gen3 => 71,
        GameVersion::Gen4 => 72,
        GameVersion::Gen5 => 73,
        GameVersion::Gen6 => 74,
        GameVersion::Gen7 => 75,
        GameVersion::Gen8 => 76,
        GameVersion::GBCartEraOnly => 77,
        GameVersion::Stadium => 78,
        GameVersion::Stadium2 => 79,
        GameVersion::EventsGBGen1 => 80,
        GameVersion::EventsGBGen2 => 81,
        GameVersion::VCEvents => 82,
    }
}

impl GameVersion {
    /// Returns the numeric id of this version value.
    pub fn game_id(self) -> (r: i32)
        ensures
            r == spec_game_id(self),
    {
        match self {
            GameVersion::Invalid => -2i32,
            GameVersion::Any => -1i32,
            GameVersion::Unknown => 0,
            GameVersion::S => 1,
            GameVersion::R => 2,
            GameVersion::E => 3,
            GameVersion::FR => 4,
            GameVersion::LG => 5,
            GameVersion::CXD => 15,
            GameVersion::D => 10,
            GameVersion::P => 11,
            GameVersion::PT => 12,
            GameVersion::HG => 7,
            GameVersion::SS => 8,
            GameVersion::W => 20,
            GameVersion::B => 21,
            GameVersion::W2 => 22,
            GameVersion::B2 => 23,
            GameVersion::X => 24,
            GameVersion::Y => 25,
            GameVersion::AS => 26,
            GameVersion::OR => 27,
            GameVersion::SN => 30,
            GameVersion::MN => 31,
            GameVersion::US => 32,
            GameVersion::UM => 33,
            GameVersion::GO => 34,
            GameVersion::RD => 35,
            GameVersion::GN => 36,
            GameVersion::BU => 37,
            GameVersion::YW => 38,
            GameVersion::GD => 39,
            GameVersion::SV => 40,
            GameVersion::C => 41,
            GameVersion::GP => 42,
            GameVersion::GE => 43,
            GameVersion::SW => 44,
            GameVersion::SH => 45,
            GameVersion::RB => 46,
            GameVersion::RBY => 47,
            GameVersion::GS => 48,
            GameVersion::GSC => 49,
            GameVersion::RS => 50,
            GameVersion::RSE => 51,
            GameVersion::FRLG => 52,
            GameVersion::RSBOX => 53,
            GameVersion::COLO => 54,
            GameVersion::XD => 55,
            GameVersion::DP => 56,
            GameVersion::DPPT => 57,
            GameVersion::HGSS => 58,
            GameVersion::BATREV => 59,
            GameVersion::BW => 60,
            GameVersion::B2W2 => 61,
            GameVersion::XY => 62,
            GameVersion::ORASDEMO => 63,
            GameVersion::ORAS => 64,
            GameVersion::SM => 65,
            GameVersion::USUM => 66,
            GameVersion::GG => 67,
            GameVersion::SWSH => 68,
            GameVersion::Gen1 => 69,
            GameVersion::Gen2 => 70,
            GameVersion::Gen3 => 71,
            GameVersion::Gen4 => 72,
            GameVersion::Gen5 => 73,
            GameVersion::Gen6 => 74,
            GameVersion::Gen7 => 75,
            GameVersion::Gen8 => 76,
            GameVersion::GBCartEraOnly => 77,
            GameVersion::Stadium => 78,
            GameVersion::Stadium2 => 79,
            GameVersion::EventsGBGen1 => 80,
            GameVersion::EventsGBGen2 => 81,
            GameVersion::VCEvents => 82,
        }
    }
}

impl Default for GameVersion {
    /// A version value starts out unknown.
    fn default() -> (r: Self)
        ensures
            r == GameVersion::Unknown,
    {
        GameVersion::Unknown
    }
}

/// The most recent game id used by an official game.
pub const HIGHEST_GAME_ID: i32 = 45;

/// Whether the value is an id the games store, rather than a grouping or
/// an indicator.
pub fn is_valid_saved_version(game_version: GameVersion) -> (r: bool)
    ensures
        r == (1 <= spec_game_id(game_version) <= HIGHEST_GAME_ID),
{
    let id = game_version.game_id();
    1 <= id && id <= HIGHEST_GAME_ID
}

/// The version grouping a stored version id falls under when met locations
/// are looked up.
pub open spec fn spec_met_location_version_group(v: GameVersion) -> GameVersion {
    match v {
        // Side games.
        GameVersion::CXD => GameVersion::CXD,
        GameVersion::GO => GameVersion::GO,
        // Virtual console transfers.
        GameVersion::RD => GameVersion::USUM,
        GameVersion::BU => GameVersion::USUM,
        GameVersion::YW => GameVersion::USUM,
        GameVersion::GN => GameVersion::USUM,
        GameVersion::GD => GameVersion::USUM,
        GameVersion::SV => GameVersion::USUM,
        GameVersion::C => GameVersion::USUM,
        // Generation 2.
        GameVersion::GS => GameVersion::GSC,
        GameVersion::GSC => GameVersion::GSC,
        // Generation 3.
        GameVersion::R => GameVersion::RS,
        GameVersion::S => GameVersion::RS,
        GameVersion::E => GameVersion::E,
        GameVersion::FR => GameVersion::FR,
        GameVersion::LG => GameVersion::FR,
        // Generation 4.
        GameVersion::D => GameVersion::DP,
        GameVersion::P => GameVersion::DP,
        GameVersion::PT => GameVersion::PT,
        GameVersion::HG => GameVersion::HGSS,
        GameVersion::SS => GameVersion::HGSS,
        // Generation 5.
        GameVersion::B => GameVersion::BW,
        GameVersion::W => GameVersion::BW,
        GameVersion::B2 => GameVersion::B2W2,
        GameVersion::W2 => GameVersion::B2W2,
        // Generation 6.
        GameVersion::X => GameVersion::XY,
        GameVersion::Y => GameVersion::XY,
        GameVersion::OR => GameVersion::ORAS,
        GameVersion::AS => GameVersion::ORAS,
        // Generation 7.
        GameVersion::SN => GameVersion::SM,
        GameVersion::MN => GameVersion::SM,
        GameVersion::US => GameVersion::USUM,
        GameVersion::UM => GameVersion::USUM,
        GameVersion::GP => GameVersion::GG,
        GameVersion::GE => GameVersion::GG,
        // Generation 8.
        GameVersion::SW => GameVersion::SWSH,
        GameVersion::SH => GameVersion::SWSH,
        _ => GameVersion::Invalid,
    }
}

/// Determines the version grouping of an input version id.
pub fn met_location_version_group(game_version: GameVersion) -> (r: GameVersion)
    ensures
        r == spec_met_location_version_group(game_version),
{
    match game_version {
        GameVersion::CXD => GameVersion::CXD,
        GameVersion::GO => GameVersion::GO,
        GameVersion::RD => GameVersion::USUM,
        GameVersion::BU => GameVersion::USUM,
        GameVersion::YW => GameVersion::USUM,
        GameVersion::GN => GameVersion::USUM,
        GameVersion::GD => GameVersion::USUM,
        GameVersion::SV => GameVersion::USUM,
        GameVersion::C => GameVersion::USUM,
        GameVersion::GS => GameVersion::GSC,
        GameVersion::GSC => GameVersion::GSC,
        GameVersion::R => GameVersion::RS,
        GameVersion::S => GameVersion::RS,
        GameVersion::E => GameVersion::E,
        GameVersion::FR => GameVersion::FR,
        GameVersion::LG => GameVersion::FR,
        GameVersion::D => GameVersion::DP,
        GameVersion::P => GameVersion::DP,
        GameVersion::PT => GameVersion::PT,
        GameVersion::HG => GameVersion::HGSS,
        GameVersion::SS => GameVersion::HGSS,
        GameVersion::B => GameVersion::BW,
        GameVersion::W => GameVersion::BW,
        GameVersion::B2 => GameVersion::B2W2,
        GameVersion::W2 => GameVersion::B2W2,
        GameVersion::X => GameVersion::XY,
        GameVersion::Y => GameVersion::XY,
        GameVersion::OR => GameVersion::ORAS,
        GameVersion::AS => GameVersion::ORAS,
        GameVersion::SN => GameVersion::SM,
        GameVersion::MN => GameVersion::SM,
        GameVersion::US => GameVersion::USUM,
        GameVersion::UM => GameVersion::USUM,
        GameVersion::GP => GameVersion::GG,
        GameVersion::GE => GameVersion::GG,
        GameVersion::SW => GameVersion::SWSH,
        GameVersion::SH => GameVersion::SWSH,
        _ => GameVersion::Invalid,
    }
}

/// Translates a main-series version to the corresponding GameCube value.
pub fn get_cxd_version_id(gba_version: GameVersion) -> (r: GCVersion)
    ensures
        r == match gba_version {
            GameVersion::S => GCVersion::S,
            GameVersion::R => GCVersion::R,
            GameVersion::E => GCVersion::E,
            GameVersion::FR => GCVersion::FR,
            GameVersion::LG => GCVersion::LG,
            GameVersion::CXD => GCVersion::CXD,
            _ => GCVersion::Unset,
        },
{
    match gba_version {
        GameVersion::S => GCVersion::S,
        GameVersion::R => GCVersion::R,
        GameVersion::E => GCVersion::E,
        GameVersion::FR => GCVersion::FR,
        GameVersion::LG => GCVersion::LG,
        GameVersion::CXD => GCVersion::CXD,
        _ => GCVersion::Unset,
    }
}

/// Translates a GameCube version to the corresponding main-series value.
pub fn get_g3_version_id(gc_version: GCVersion) -> (r: GameVersion)
    ensures
        r == match gc_version {
            GCVersion::S => GameVersion::S,
            GCVersion::R => GameVersion::R,
            GCVersion::E => GameVersion::E,
            GCVersion::FR => GameVersion::FR,
            GCVersion::LG => GameVersion::LG,
            GCVersion::CXD => GameVersion::CXD,
            _ => GameVersion::Unknown,
        },
{
    match gc_version {
        GCVersion::S => GameVersion::S,
        GCVersion::R => GameVersion::R,
        GCVersion::E => GameVersion::E,
        GCVersion::FR => GameVersion::FR,
        GCVersion::LG => GameVersion::LG,
        GCVersion::CXD => GameVersion::CXD,
        _ => GameVersion::Unknown,
    }
}

/// Whether the version is Emerald.
pub fn is_e(version: GameVersion) -> (r: bool)
    ensures
        r == (version == GameVersion::E),
{
    version == GameVersion::E
}

/// Whether the version is FireRed or LeafGreen.
pub fn is_frlg(version: GameVersion) -> (r: bool)
    ensures
        r == (version == GameVersion::FR || version == GameVersion::LG),
{
    version == GameVersion::FR || version == GameVersion::LG
}

/// Whether the version is Platinum.
pub fn is_pt(version: GameVersion) -> (r: bool)
    ensures
        r == (version == GameVersion::PT),
{
    version == GameVersion::PT
}

/// Whether the version is HeartGold or SoulSilver.
pub fn is_hgss(version: GameVersion) -> (r: bool)
    ensures
        r == (version == GameVersion::HG || version == GameVersion::SS),
{
    version == GameVersion::HG || version == GameVersion::SS
}

/// Whether the version is Black or White.
pub fn is_bw(version: GameVersion) -> (r: bool)
    ensures
        r == (version == GameVersion::B || version == GameVersion::W),
{
    version == GameVersion::B || version == GameVersion::W
}

/// Whether the version is Black 2 or White 2.
pub fn is_b2w2(version: GameVersion) -> (r: bool)
    ensures
        r == (version == GameVersion::B2 || version == GameVersion::W2),
{
    version == GameVersion::B2 || version == GameVersion::W2
}

/// Whether the version is X or Y.
pub fn is_xy(version: GameVersion) -> (r: bool)
    ensures
        r == (version == GameVersion::X || version == GameVersion::Y),
{
    version == GameVersion::X || version == GameVersion::Y
}

/// Whether the version is Alpha Sapphire or Omega Ruby.
pub fn is_ao(version: GameVersion) -> (r: bool)
    ensures
        r == (version == GameVersion::AS || version == GameVersion::OR),
{
    version == GameVersion::AS || version == GameVersion::OR
}

/// Whether the version is Sun or Moon.
pub fn is_sm(version: GameVersion) -> (r: bool)
    ensures
        r == (version == GameVersion::SN || version == GameVersion::MN),
{
    version == GameVersion::SN || version == GameVersion::MN
}

/// Whether the version is Ultra Sun or Ultra Moon.
pub fn is_usum(version: GameVersion) -> (r: bool)
    ensures
        r == (version == GameVersion::US || version == GameVersion::UM),
{
    version == GameVersion::US || version == GameVersion::UM
}

/// Whether the version is GO.
pub fn is_go(version: GameVersion) -> (r: bool)
    ensures
        r == (version == GameVersion::GO),
{
    version == GameVersion::GO
}

/// Whether the version is Let's Go Pikachu or Eevee.
pub fn is_lgpe(version: GameVersion) -> (r: bool)
    ensures
        r == (version == GameVersion::GP || version == GameVersion::GE),
{
    version == GameVersion::GP || version == GameVersion::GE
}

/// Whether the version is Sword or Shield.
pub fn is_swsh(version: GameVersion) -> (r: bool)
    ensures
        r == (version == GameVersion::SW || version == GameVersion::SH),
{
    version == GameVersion::SW || version == GameVersion::SH
}

/// Whether the version is a generation 1 virtual console game.
pub fn is_vc1(version: GameVersion) -> (r: bool)
    ensures
        r == (35 <= spec_game_id(version) <= 38),
{
    let id = version.game_id();
    35 <= id && id <= 38
}

/// Whether the version is a generation 2 virtual console game.
pub fn is_vc2(version: GameVersion) -> (r: bool)
    ensures
        r == (39 <= spec_game_id(version) <= 41),
{
    let id = version.game_id();
    39 <= id && id <= 41
}

/// Whether the version is Platinum, HeartGold or SoulSilver.
pub fn is_pt_hgss(version: GameVersion) -> (r: bool)
    ensures
        r == (version == GameVersion::PT || version == GameVersion::HG || version
            == GameVersion::SS),
{
    is_pt(version) || is_hgss(version)
}

/// Whether the entity came from GO into a Let's Go game.
pub fn is_go_lgpe(version: GameVersion, met_location: u16) -> (r: bool)
    ensures
        r == (version == GameVersion::GO && met_location == crate::locations::GO_7 as u16),
{
    is_go(version) && met_location == crate::locations::GO_7 as u16
}

/// Whether the entity came from GO through the generation 8 transfer
/// location.
pub fn is_go_home(version: GameVersion, met_location: u16) -> (r: bool)
    ensures
        r == (version == GameVersion::GO && met_location == crate::locations::GO_8 as u16),
{
    is_go(version) && met_location == crate::locations::GO_8 as u16
}

/// Whether the version is any virtual console game.
pub fn is_vc(version: GameVersion) -> (r: bool)
    ensures
        r == (35 <= spec_game_id(version) <= 41),
{
    is_vc1(version) || is_vc2(version)
}

/// Whether the entity belongs to the Let's Go pair, directly or through a
/// GO transfer.
pub fn is_gg(version: GameVersion, met_location: u16) -> (r: bool)
    ensures
        r == (version == GameVersion::GP || version == GameVersion::GE || (version
            == GameVersion::GO && met_location == crate::locations::GO_7 as u16)),
{
    is_lgpe(version) || is_go_lgpe(version, met_location)
}

/// Whether the entity's origin data is generation 8.
pub open spec fn spec_is_gen8(version: GameVersion, met_location: u16) -> bool {
    ||| 44 <= spec_game_id(version) <= 45
    ||| (version == GameVersion::GO && met_location == crate::locations::GO_8 as u16)
}

/// Returns whether the entity's origin data is generation 8.
pub fn is_gen8(version: GameVersion, met_location: u16) -> (r: bool)
    ensures
        r == spec_is_gen8(version, met_location),
{
    let id = version.game_id();
    (44 <= id && id <= 45) || is_go_home(version, met_location)
}

/// Whether the entity's origin data is generation 7.
pub open spec fn spec_is_gen7(version: GameVersion, met_location: u16) -> bool {
    ||| 30 <= spec_game_id(version) <= 33
    ||| version == GameVersion::GP
    ||| version == GameVersion::GE
    ||| (version == GameVersion::GO && met_location == crate::locations::GO_7 as u16)
}

/// Returns whether the entity's origin data is generation 7.
pub fn is_gen7(version: GameVersion, met_location: u16) -> (r: bool)
    ensures
        r == spec_is_gen7(version, met_location),
{
    let id = version.game_id();
    (30 <= id && id <= 33) || is_gg(version, met_location)
}

/// Whether the entity's origin data is generation 6.
pub fn is_gen6(version: GameVersion) -> (r: bool)
    ensures
        r == (24 <= spec_game_id(version) < 30),
{
    let id = version.game_id();
    24 <= id && id < 30
}

/// Whether the entity's origin data is generation 5.
pub fn is_gen5(version: GameVersion) -> (r: bool)
    ensures
        r == (20 <= spec_game_id(version) <= 23),
{
    let id = version.game_id();
    20 <= id && id <= 23
}

/// Whether the entity's origin data is generation 4.
pub fn is_gen4(version: GameVersion) -> (r: bool)
    ensures
        r == (7 <= spec_game_id(version) <= 12 && spec_game_id(version) != 9),
{
    let id = version.game_id();
    7 <= id && id <= 12 && id != 9
}

/// Whether the entity's origin data is generation 3.
pub fn is_gen3(version: GameVersion) -> (r: bool)
    ensures
        r == (1 <= spec_game_id(version) <= 5 || version == GameVersion::CXD),
{
    let id = version.game_id();
    (1 <= id && id <= 5) || id == 15
}

/// Whether the entity's origin data is generation 2; the games set the
/// grouping value directly.
pub fn is_gen2(version: GameVersion) -> (r: bool)
    ensures
        r == (version == GameVersion::GSC),
{
    version == GameVersion::GSC
}

/// Whether the entity's origin data is generation 1; the games set the
/// grouping value directly.
pub fn is_gen1(version: GameVersion) -> (r: bool)
    ensures
        r == (version == GameVersion::RBY),
{
    version == GameVersion::RBY
}

/// Whether a computed generation number means the origin is unknown.
pub fn is_genu(generation: i32) -> (r: bool)
    ensures
        r == (generation <= 0),
{
    generation <= 0
}

/// The generation an entity's origin data belongs to, or -1 when no
/// classification applies.
pub open spec fn spec_get_generation(version: GameVersion, met_location: u16) -> i32 {
    if spec_is_gen8(version, met_location) {
        8
    } else if spec_is_gen7(version, met_location) {
        7
    } else if 24 <= spec_game_id(version) < 30 {
        6
    } else if 20 <= spec_game_id(version) <= 23 {
        5
    } else if 7 <= spec_game_id(version) <= 12 && spec_game_id(version) != 9 {
        4
    } else if 1 <= spec_game_id(version) <= 5 || version == GameVersion::CXD {
        3
    } else if version == GameVersion::GSC || 39 <= spec_game_id(version) <= 41 {
        2
    } else if version == GameVersion::RBY || 35 <= spec_game_id(version) <= 38 {
        1
    } else {
        -1i32
    }
}

/// Determines the generation the entity's origin data belongs to, taking
/// the virtual console transfers into account.
pub fn get_generation(version: GameVersion, met_location: u16) -> (r: i32)
    ensures
        r == spec_get_generation(version, met_location),
{
    if is_gen8(version, met_location) {
        8
    } else if is_gen7(version, met_location) {
        7
    } else if is_gen6(version) {
        6
    } else if is_gen5(version) {
        5
    } else if is_gen4(version) {
        4
    } else if is_gen3(version) {
        3
    } else if is_gen2(version) || is_vc2(version) {
        2
    } else if is_gen1(version) || is_vc1(version) {
        1
    } else {
        -1
    }
}

} // verus!
