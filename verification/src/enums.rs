//! Small stored-value enumerations of the record's consumers.
//!
//! Each enumeration names the values one byte-sized code can take; the
//! stored code itself stays a plain integer in the record, and the `value`
//! and `from_u8` functions translate in both directions.

use vstd::prelude::*;

verus! {

/// GameVersion analogues used by the GameCube games instead of the
/// main-series values.
#[derive(Debug, Clone, Copy, PartialEq, Eq, Structural)]
pub enum GCVersion {
    Unset,
    FR,
    LG,
    S,
    R,
    E,
    CXD,
}

/// The stored code of a GameCube version value.
pub open spec fn spec_gc_version_value(v: GCVersion) -> u8 {
    match v {
        GCVersion::Unset => 0,
        GCVersion::FR => 1,
        GCVersion::LG => 2,
        GCVersion::S => 8,
        GCVersion::R => 9,
        GCVersion::E => 10,
        GCVersion::CXD => 11,
    }
}

impl GCVersion {
    /// Returns the code this version is stored as.
    pub fn value(self) -> (r: u8)
        ensures
            r == spec_gc_version_value(self),
    {
        match self {
            GCVersion::Unset => 0,
            GCVersion::FR => 1,
            GCVersion::LG => 2,
            GCVersion::S => 8,
            GCVersion::R => 9,
            GCVersion::E => 10,
            GCVersion::CXD => 11,
        }
    }
}

/// Game language codes used by the GameCube games.
#[derive(Debug, Clone, Copy, PartialEq, Eq, Structural)]
#[allow(non_camel_case_types)]
pub enum LanguageGC {
    /// Undefined language, usually a value that was never set.
    Hacked,
    /// Japanese.
    Japanese,
    /// English.
    English,
    /// German.
    German,
    /// French.
    French,
    /// Italian.
    Italian,
    /// Spanish.
    Spanish,
    /// Reserved but never used.
    UNUSED_6,
}

/// The stored code of a GameCube language value.
pub open spec fn spec_language_gc_value(v: LanguageGC) -> u8 {
    match v {
        LanguageGC::Hacked => 0,
        LanguageGC::Japanese => 1,
        LanguageGC::English => 2,
        LanguageGC::German => 3,
        LanguageGC::French => 4,
        LanguageGC::Italian => 5,
        LanguageGC::Spanish => 6,
        LanguageGC::UNUSED_6 => 7,
    }
}

impl LanguageGC {
    /// Returns the code this language is stored as.
    pub fn value(self) -> (r: u8)
        ensures
            r == spec_language_gc_value(self),
    {
        match self {
            LanguageGC::Hacked => 0,
            LanguageGC::Japanese => 1,
            LanguageGC::English => 2,
            LanguageGC::German => 3,
            LanguageGC::French => 4,
            LanguageGC::Italian => 5,
            LanguageGC::Spanish => 6,
            LanguageGC::UNUSED_6 => 7,
        }
    }
}

/// Console region identifiers.
#[derive(Debug, Clone, Copy, PartialEq, Eq, Structural)]
pub enum RegionID {
    Unset,
    Japan,
    NorthAmerica,
    Europe,
    China,
    Korea,
    Taiwan,
}

/// The stored code of a console region value.
pub open spec fn spec_region_id_value(v: RegionID) -> u8 {
    match v {
        RegionID::Unset => 0,
        RegionID::Japan => 1,
        RegionID::NorthAmerica => 2,
        RegionID::Europe => 3,
        RegionID::China => 4,
        RegionID::Korea => 5,
        RegionID::Taiwan => 6,
    }
}

impl RegionID {
    /// Returns the code this region is stored as.
    pub fn value(self) -> (r: u8)
        ensures
            r == spec_region_id_value(self),
    {
        match self {
            RegionID::Unset => 0,
            RegionID::Japan => 1,
            RegionID::NorthAmerica => 2,
            RegionID::Europe => 3,
            RegionID::China => 4,
            RegionID::Korea => 5,
            RegionID::Taiwan => 6,
        }
    }

    /// Returns the region stored as `code`, or `None` for a code no region
    /// uses.
    pub fn from_u8(code: u8) -> (r: Option<RegionID>)
        ensures
            r matches Some(v) ==> spec_region_id_value(v) == code,
            r is Some <==> code <= 6,
    {
        match code {
            0 => Some(RegionID::Unset),
            1 => Some(RegionID::Japan),
            2 => Some(RegionID::NorthAmerica),
            3 => Some(RegionID::Europe),
            4 => Some(RegionID::China),
            5 => Some(RegionID::Korea),
            6 => Some(RegionID::Taiwan),
            _ => None,
        }
    }
}


/// Gender a creature can have.
#[derive(Debug, Clone, Copy, PartialEq, Eq, Structural)]
pub enum Gender {
    Male,
    Female,
    Genderless,
}

impl Default for Gender {
    /// A gender value starts out male, matching the stored code zero.
    fn default() -> (r: Self)
        ensures
            r == Gender::Male,
    {
        Gender::Male
    }
}

/// The stored code of a gender value; a randomly chosen gender is stored
/// with the genderless code.
pub open spec fn spec_gender_value(v: Gender) -> u8 {
    match v {
        Gender::Male => 0,
        Gender::Female => 1,
        Gender::Genderless => 2,
    }
}

impl Gender {
    /// A gender left to the game to pick is stored as genderless.
    pub const Random: Gender = Gender::Genderless;

    /// Returns the code this gender is stored as.
    pub fn value(self) -> (r: u8)
        ensures
            r == spec_gender_value(self),
    {
        match self {
            Gender::Male => 0,
            Gender::Female => 1,
            Gender::Genderless => 2,
        }
    }

    /// Returns the gender stored as `code`, or `None` for a code no gender
    /// uses.
    pub fn from_u8(code: u8) -> (r: Option<Gender>)
        ensures
            r matches Some(v) ==> spec_gender_value(v) == code,
            r is Some <==> code <= 2,
    {
        match code {
            0 => Some(Gender::Male),
            1 => Some(Gender::Female),
            2 => Some(Gender::Genderless),
            _ => None,
        }
    }
}

/// Game language identifiers stored in the record.
#[derive(Debug, Clone, Copy, PartialEq, Eq, Structural)]
#[allow(non_camel_case_types)]
pub enum LanguageID {
    /// Undefined language, usually a value that was never set.
    Hacked,
    Japanese,
    English,
    French,
    Italian,
    German,
    /// Reserved but never used.
    UNUSED_6,
    Spanish,
    Korean,
    ChineseS,
    ChineseT,
}

/// The stored code of a language value.
pub open spec fn spec_language_id_value(v: LanguageID) -> u8 {
    match v {
        LanguageID::Hacked => 0,
        LanguageID::Japanese => 1,
        LanguageID::English => 2,
        LanguageID::French => 3,
        LanguageID::Italian => 4,
        LanguageID::German => 5,
        LanguageID::UNUSED_6 => 6,
        LanguageID::Spanish => 7,
        LanguageID::Korean => 8,
        LanguageID::ChineseS => 9,
        LanguageID::ChineseT => 10,
    }
}

impl LanguageID {
    /// Returns the code this language is stored as.
    pub fn value(self) -> (r: u8)
        ensures
            r == spec_language_id_value(self),
    {
        match self {
            LanguageID::Hacked => 0,
            LanguageID::Japanese => 1,
            LanguageID::English => 2,
            LanguageID::French => 3,
            LanguageID::Italian => 4,
            LanguageID::German => 5,
            LanguageID::UNUSED_6 => 6,
            LanguageID::Spanish => 7,
            LanguageID::Korean => 8,
            LanguageID::ChineseS => 9,
            LanguageID::ChineseT => 10,
        }
    }

    /// Returns the language stored as `code`, or `None` for a code no
    /// language uses.
    pub fn from_u8(code: u8) -> (r: Option<LanguageID>)
        ensures
            r matches Some(v) ==> spec_language_id_value(v) == code,
            r is Some <==> code <= 10,
    {
        match code {
            0 => Some(LanguageID::Hacked),
            1 => Some(LanguageID::Japanese),
            2 => Some(LanguageID::English),
            3 => Some(LanguageID::French),
            4 => Some(LanguageID::Italian),
            5 => Some(LanguageID::German),
            6 => Some(LanguageID::UNUSED_6),
            7 => Some(LanguageID::Spanish),
            8 => Some(LanguageID::Korean),
            9 => Some(LanguageID::ChineseS),
            10 => Some(LanguageID::ChineseT),
            _ => None,
        }
    }
}

/// Nature values stored in the record; the last value asks the game to
/// pick one at random and is never read back.
#[derive(Debug, Clone, Copy, PartialEq, Eq, Structural)]
pub enum Nature {
    Hardy,
    Lonely,
    Brave,
    Adamant,
    Naughty,
    Bold,
    Docile,
    Relaxed,
    Impish,
    Lax,
    Timid,
    Hasty,
    Serious,
    Jolly,
    Naive,
    Modest,
    Mild,
    Quiet,
    Bashful,
    Rash,
    Calm,
    Gentle,
    Sassy,
    Careful,
    Quirky,
    Random,
}

impl Default for Nature {
    /// A nature value starts out at the stored code zero.
    fn default() -> (r: Self)
        ensures
            r == Nature::Hardy,
    {
        Nature::Hardy
    }
}

/// The stored code of a nature value.
pub open spec fn spec_nature_value(v: Nature) -> u8 {
    match v {
        Nature::Hardy => 0,
        Nature::Lonely => 1,
        Nature::Brave => 2,
        Nature::Adamant => 3,
        Nature::Naughty => 4,
        Nature::Bold => 5,
        Nature::Docile => 6,
        Nature::Relaxed => 7,
        Nature::Impish => 8,
        Nature::Lax => 9,
        Nature::Timid => 10,
        Nature::Hasty => 11,
        Nature::Serious => 12,
        Nature::Jolly => 13,
        Nature::Naive => 14,
        Nature::Modest => 15,
        Nature::Mild => 16,
        Nature::Quiet => 17,
        Nature::Bashful => 18,
        Nature::Rash => 19,
        Nature::Calm => 20,
        Nature::Gentle => 21,
        Nature::Sassy => 22,
        Nature::Careful => 23,
        Nature::Quirky => 24,
        Nature::Random => 25,
    }
}

impl Nature {
    /// Returns the code this nature is stored as.
    pub fn value(self) -> (r: u8)
        ensures
            r == spec_nature_value(self),
    {
        match self {
            Nature::Hardy => 0,
            Nature::Lonely => 1,
            Nature::Brave => 2,
            Nature::Adamant => 3,
            Nature::Naughty => 4,
            Nature::Bold => 5,
            Nature::Docile => 6,
            Nature::Relaxed => 7,
            Nature::Impish => 8,
            Nature::Lax => 9,
            Nature::Timid => 10,
            Nature::Hasty => 11,
            Nature::Serious => 12,
            Nature::Jolly => 13,
            Nature::Naive => 14,
            Nature::Modest => 15,
            Nature::Mild => 16,
            Nature::Quiet => 17,
            Nature::Bashful => 18,
            Nature::Rash => 19,
            Nature::Calm => 20,
            Nature::Gentle => 21,
            Nature::Sassy => 22,
            Nature::Careful => 23,
            Nature::Quirky => 24,
            Nature::Random => 25,
        }
    }

    /// Returns the nature stored as `code`, or `None` for a code no nature
    /// uses.
    pub fn from_u8(code: u8) -> (r: Option<Nature>)
        ensures
            r matches Some(v) ==> spec_nature_value(v) == code,
            r is Some <==> code <= 25,
    {
        match code {
            0 => Some(Nature::Hardy),
            1 => Some(Nature::Lonely),
            2 => Some(Nature::Brave),
            3 => Some(Nature::Adamant),
            4 => Some(Nature::Naughty),
            5 => Some(Nature::Bold),
            6 => Some(Nature::Docile),
            7 => Some(Nature::Relaxed),
            8 => Some(Nature::Impish),
            9 => Some(Nature::Lax),
            10 => Some(Nature::Timid),
            11 => Some(Nature::Hasty),
            12 => Some(Nature::Serious),
            13 => Some(Nature::Jolly),
            14 => Some(Nature::Naive),
            15 => Some(Nature::Modest),
            16 => Some(Nature::Mild),
            17 => Some(Nature::Quiet),
            18 => Some(Nature::Bashful),
            19 => Some(Nature::Rash),
            20 => Some(Nature::Calm),
            21 => Some(Nature::Gentle),
            22 => Some(Nature::Sassy),
            23 => Some(Nature::Careful),
            24 => Some(Nature::Quirky),
            25 => Some(Nature::Random),
            _ => None,
        }
    }
}

/// Ball identifiers for the corresponding ball item.
#[derive(Debug, Clone, Copy, PartialEq, Eq, Structural)]
pub enum Ball {
    Unset,
    Master,
    Ultra,
    Great,
    Poke,
    Safari,
    Net,
    Dive,
    Nest,
    Repeat,
    Timer,
    Luxury,
    Premier,
    Dusk,
    Heal,
    Quick,
    Cherish,
    Fast,
    Level,
    Lure,
    Heavy,
    Love,
    Friend,
    Moon,
    Sport,
    Dream,
    Beast,
}

impl Default for Ball {
    /// A ball value starts out unset.
    fn default() -> (r: Self)
        ensures
            r == Ball::Unset,
    {
        Ball::Unset
    }
}

/// The stored code of a ball value.
pub open spec fn spec_ball_value(v: Ball) -> u8 {
    match v {
        Ball::Unset => 0,
        Ball::Master => 1,
        Ball::Ultra => 2,
        Ball::Great => 3,
        Ball::Poke => 4,
        Ball::Safari => 5,
        Ball::Net => 6,
        Ball::Dive => 7,
        Ball::Nest => 8,
        Ball::Repeat => 9,
        Ball::Timer => 10,
        Ball::Luxury => 11,
        Ball::Premier => 12,
        Ball::Dusk => 13,
        Ball::Heal => 14,
        Ball::Quick => 15,
        Ball::Cherish => 16,
        Ball::Fast => 17,
        Ball::Level => 18,
        Ball::Lure => 19,
        Ball::Heavy => 20,
        Ball::Love => 21,
        Ball::Friend => 22,
        Ball::Moon => 23,
        Ball::Sport => 24,
        Ball::Dream => 25,
        Ball::Beast => 26,
    }
}

impl Ball {
    /// Returns the code this ball is stored as.
    pub fn value(self) -> (r: u8)
        ensures
            r == spec_ball_value(self),
    {
        match self {
            Ball::Unset => 0,
            Ball::Master => 1,
            Ball::Ultra => 2,
            Ball::Great => 3,
            Ball::Poke => 4,
            Ball::Safari => 5,
            Ball::Net => 6,
            Ball::Dive => 7,
            Ball::Nest => 8,
            Ball::Repeat => 9,
            Ball::Timer => 10,
            Ball::Luxury => 11,
            Ball::Premier => 12,
            Ball::Dusk => 13,
            Ball::Heal => 14,
            Ball::Quick => 15,
            Ball::Cherish => 16,
            Ball::Fast => 17,
            Ball::Level => 18,
            Ball::Lure => 19,
            Ball::Heavy => 20,
            Ball::Love => 21,
            Ball::Friend => 22,
            Ball::Moon => 23,
            Ball::Sport => 24,
            Ball::Dream => 25,
            Ball::Beast => 26,
        }
    }
}

/// Whether the ball is one of the apricorn balls.
pub fn is_apricorn_ball(ball: Ball) -> (r: bool)
    ensures
        r == (spec_ball_value(Ball::Fast) <= spec_ball_value(ball) <= spec_ball_value(Ball::Moon)),
{
    let v = ball.value();
    17 <= v && v <= 23
}

/// Elemental type a move has.
#[derive(Debug, Clone, Copy, PartialEq, Eq, Structural)]
pub enum MoveType {
    /// Indicator matching any type; never stored.
    Any,
    Normal,
    Fighting,
    Flying,
    Poison,
    Ground,
    Rock,
    Bug,
    /// The ghost elemental type.
    Spectral,
    Steel,
    Fire,
    Water,
    Grass,
    Electric,
    Psychic,
    Ice,
    Dragon,
    Dark,
    Fairy,
}

/// The numeric id of a move type.
pub open spec fn spec_move_type_value(v: MoveType) -> i8 {
    match v {
        MoveType::Any => -1i8,
        MoveType::Normal => 0,
        MoveType::Fighting => 1,
        MoveType::Flying => 2,
        MoveType::Poison => 3,
        MoveType::Ground => 4,
        MoveType::Rock => 5,
        MoveType::Bug => 6,
        MoveType::Spectral => 7,
        MoveType::Steel => 8,
        MoveType::Fire => 9,
        MoveType::Water => 10,
        MoveType::Grass => 11,
        MoveType::Electric => 12,
        MoveType::Psychic => 13,
        MoveType::Ice => 14,
        MoveType::Dragon => 15,
        MoveType::Dark => 16,
        MoveType::Fairy => 17,
    }
}

/// The move type with the given numeric id; ids outside -1 to 17 name no
/// type.
pub open spec fn spec_move_type_of(v: int) -> MoveType {
    if v == -1 {
        MoveType::Any
    } else if v == 0 {
        MoveType::Normal
    } else if v == 1 {
        MoveType::Fighting
    } else if v == 2 {
        MoveType::Flying
    } else if v == 3 {
        MoveType::Poison
    } else if v == 4 {
        MoveType::Ground
    } else if v == 5 {
        MoveType::Rock
    } else if v == 6 {
        MoveType::Bug
    } else if v == 7 {
        MoveType::Spectral
    } else if v == 8 {
        MoveType::Steel
    } else if v == 9 {
        MoveType::Fire
    } else if v == 10 {
        MoveType::Water
    } else if v == 11 {
        MoveType::Grass
    } else if v == 12 {
        MoveType::Electric
    } else if v == 13 {
        MoveType::Psychic
    } else if v == 14 {
        MoveType::Ice
    } else if v == 15 {
        MoveType::Dragon
    } else if v == 16 {
        MoveType::Dark
    } else {
        MoveType::Fairy
    }
}

impl MoveType {
    /// Returns the numeric id of this move type.
    pub fn value(self) -> (r: i8)
        ensures
            r == spec_move_type_value(self),
    {
        match self {
            MoveType::Any => -1,
            MoveType::Normal => 0,
            MoveType::Fighting => 1,
            MoveType::Flying => 2,
            MoveType::Poison => 3,
            MoveType::Ground => 4,
            MoveType::Rock => 5,
            MoveType::Bug => 6,
            MoveType::Spectral => 7,
            MoveType::Steel => 8,
            MoveType::Fire => 9,
            MoveType::Water => 10,
            MoveType::Grass => 11,
            MoveType::Electric => 12,
            MoveType::Psychic => 13,
            MoveType::Ice => 14,
            MoveType::Dragon => 15,
            MoveType::Dark => 16,
            MoveType::Fairy => 17,
        }
    }

    /// Returns the move type with numeric id `v`, for ids -1 to 17.
    pub fn from_i8(v: i8) -> (r: MoveType)
        requires
            -1 <= v <= 17,
        ensures
            r == spec_move_type_of(v as int),
            spec_move_type_value(r) == v,
    {
        match v {
            -1 => MoveType::Any,
            0 => MoveType::Normal,
            1 => MoveType::Fighting,
            2 => MoveType::Flying,
            3 => MoveType::Poison,
            4 => MoveType::Ground,
            5 => MoveType::Rock,
            6 => MoveType::Bug,
            7 => MoveType::Spectral,
            8 => MoveType::Steel,
            9 => MoveType::Fire,
            10 => MoveType::Water,
            11 => MoveType::Grass,
            12 => MoveType::Electric,
            13 => MoveType::Psychic,
            14 => MoveType::Ice,
            15 => MoveType::Dragon,
            16 => MoveType::Dark,
            _ => MoveType::Fairy,
        }
    }
}

/// The type a generation 1 or 2 game stores for a move of the given type:
/// the unused bird type is skipped and the duplicated physical block is
/// folded away.
pub open spec fn spec_move_type_from_g12(move_type: MoveType) -> MoveType {
    let v = spec_move_type_value(move_type) as int;
    if v <= 5 {
        move_type
    } else {
        let w = v - 1;
        if w <= 8 {
            spec_move_type_of(w)
        } else {
            spec_move_type_of(w - 10)
        }
    }
}

/// Folds a move type to the id a generation 1 or 2 game stores for it.
fn get_move_type_from_g12(move_type: MoveType) -> (r: MoveType)
    ensures
        r == spec_move_type_from_g12(move_type),
{
    let v = move_type.value();
    if v <= 5 {
        return move_type;
    }
    let shifted = MoveType::from_i8(v - 1);
    if shifted.value() <= 8 {
        return shifted;
    }
    MoveType::from_i8(shifted.value() - 10)
}

/// The move type as the given generation stores it: generations 1 and 2
/// fold the modern type list down, later generations store it as is.
pub fn get_move_type_generation(move_type: MoveType, generation: i32) -> (r: MoveType)
    ensures
        r == if generation <= 2 {
            spec_move_type_from_g12(move_type)
        } else {
            move_type
        },
{
    if generation <= 2 {
        get_move_type_from_g12(move_type)
    } else {
        move_type
    }
}

} // verus!
