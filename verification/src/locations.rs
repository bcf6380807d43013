//! Met-location constants and the location range tests built on them.

use vstd::prelude::*;

verus! {

pub const LINKTRADE_4: i32 = 2002;

pub const LINKTRADE_5: i32 = 30003;

pub const LINKTRADE_6: i32 = 30002;

pub const DAYCARE_4: i32 = 2000;

pub const DAYCARE_5: i32 = 60002;

pub const LINKTRADE_2_NPC: i32 = 126;

pub const LINKTRADE_3_NPC: i32 = 254;

pub const LINKTRADE_4_NPC: i32 = 2001;

pub const LINKTRADE_5_NPC: i32 = 30002;

pub const LINKTRADE_6_NPC: i32 = 30001;

pub const POKEWALKER_4: i32 = 233;

pub const RANGER_4: i32 = 3001;

pub const FARAWAY_4: i32 = 3002;

/// Generation 7 transfer location into the GO park.
pub const GO_7: i32 = 50;

/// Generation 8 transfer location out of GO.
pub const GO_8: i32 = 30012;

/// Generation 8 gift location.
pub const HOME_8: i32 = 30018;

pub const BUG_CATCHING_CONTEST_4: i32 = 207;

pub const SAFARI_LOCATION_RSE: i32 = 57;

pub const SAFARI_LOCATION_FRLG: i32 = 136;

pub const SAFARI_LOCATION_HGSS: i32 = 202;

pub const MARSH_LOCATION_DPPT: i32 = 52;

/// The location written into an egg traded away to a non-player character,
/// by the generation it happened in.
pub fn traded_egg_location_npc(generation: u32) -> (r: i32)
    ensures
        r == match generation {
            1 => LINKTRADE_2_NPC,
            2 => LINKTRADE_2_NPC,
            3 => LINKTRADE_3_NPC,
            4 => LINKTRADE_4,
            5 => LINKTRADE_5,
            _ => LINKTRADE_6_NPC,
        },
{
    match generation {
        1 => LINKTRADE_2_NPC,
        2 => LINKTRADE_2_NPC,
        3 => LINKTRADE_3_NPC,
        4 => LINKTRADE_4,
        5 => LINKTRADE_5,
        _ => LINKTRADE_6_NPC,
    }
}

/// The location written into an egg traded between players, by the
/// generation it happened in.
pub fn traded_egg_location(generation: u32) -> (r: i32)
    ensures
        r == match generation {
            4 => LINKTRADE_4,
            5 => LINKTRADE_5,
            _ => LINKTRADE_6,
        },
{
    match generation {
        4 => LINKTRADE_4,
        5 => LINKTRADE_5,
        _ => LINKTRADE_6,
    }
}

/// Whether the location lies in the range Platinum and HeartGold/SoulSilver
/// added over Diamond/Pearl.
pub fn is_pt_hgss_location(location: i32) -> (r: bool)
    ensures
        r == (111 < location && location < 2000),
{
    111 < location && location < 2000
}

/// Whether the location lies in the egg range Platinum and
/// HeartGold/SoulSilver added over Diamond/Pearl.
pub fn is_pt_hgss_location_egg(location: i32) -> (r: bool)
    ensures
        r == (2010 < location && location < 3000),
{
    2010 < location && location < 3000
}

/// Whether the location is a generation 5 event location.
pub fn is_event_location_5(location: i32) -> (r: bool)
    ensures
        r == (40000 < location && location < 50000),
{
    40000 < location && location < 50000
}

/// Whether the location is a generation 3 safari zone.
pub fn is_safari_zone_location_3(location: i32) -> (r: bool)
    ensures
        r == (location == SAFARI_LOCATION_RSE || location == SAFARI_LOCATION_FRLG),
{
    location == SAFARI_LOCATION_RSE || location == SAFARI_LOCATION_FRLG
}

/// Whether the location is a generation 4 safari zone or marsh.
pub fn is_safari_zone_location_4(location: i32) -> (r: bool)
    ensures
        r == (location == MARSH_LOCATION_DPPT || location == SAFARI_LOCATION_HGSS),
{
    location == MARSH_LOCATION_DPPT || location == SAFARI_LOCATION_HGSS
}

} // verus!
