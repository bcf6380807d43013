use pkhexcore::locations::{
    is_event_location_5, is_pt_hgss_location, is_pt_hgss_location_egg, is_safari_zone_location_3,
    is_safari_zone_location_4, traded_egg_location, traded_egg_location_npc, LINKTRADE_2_NPC,
    LINKTRADE_4, LINKTRADE_5, LINKTRADE_6, LINKTRADE_6_NPC,
};

#[test]
fn traded_egg_locations_by_generation() {
    assert_eq!(LINKTRADE_2_NPC, traded_egg_location_npc(1));
    assert_eq!(LINKTRADE_2_NPC, traded_egg_location_npc(2));
    assert_eq!(254, traded_egg_location_npc(3));
    assert_eq!(LINKTRADE_4, traded_egg_location_npc(4));
    assert_eq!(LINKTRADE_5, traded_egg_location_npc(5));
    assert_eq!(LINKTRADE_6_NPC, traded_egg_location_npc(6));
    assert_eq!(LINKTRADE_4, traded_egg_location(4));
    assert_eq!(LINKTRADE_5, traded_egg_location(5));
    assert_eq!(LINKTRADE_6, traded_egg_location(8));
}

#[test]
fn location_range_tests() {
    assert_eq!(true, is_pt_hgss_location(112));
    assert_eq!(false, is_pt_hgss_location(111));
    assert_eq!(false, is_pt_hgss_location(2000));
    assert_eq!(true, is_pt_hgss_location_egg(2011));
    assert_eq!(false, is_pt_hgss_location_egg(2010));
    assert_eq!(true, is_event_location_5(40001));
    assert_eq!(false, is_event_location_5(50000));
}

#[test]
fn safari_zone_locations() {
    assert_eq!(true, is_safari_zone_location_3(57));
    assert_eq!(true, is_safari_zone_location_3(136));
    assert_eq!(false, is_safari_zone_location_3(52));
    assert_eq!(true, is_safari_zone_location_4(52));
    assert_eq!(true, is_safari_zone_location_4(202));
    assert_eq!(false, is_safari_zone_location_4(57));
}
