use pkhexcore::strings::{get_string7, is_g7chs_char, sanitize_glyph, set_string7b, unsanitize_string};

#[test]
fn get_string7_test() {
    assert_eq!(
        "Farfetch\'d",
        get_string7(&[0x46, 0x61, 0x72, 0x66, 0x65, 0x74, 0x63, 0x68, 0x2019, 0x64])
    );
    assert_eq!("Nidoran♀", get_string7(&[0x4e, 0x69, 0x64, 0x6f, 0x72, 0x61, 0x6e, 0xe08f]));
    assert_eq!("Nidoran♂", get_string7(&[0x4e, 0x69, 0x64, 0x6f, 0x72, 0x61, 0x6e, 0xe08e]));
    assert_eq!("Nidoran♀", get_string7(&[0x4e, 0x69, 0x64, 0x6f, 0x72, 0x61, 0x6e, 0x246e]));
    assert_eq!("Nidoran♂", get_string7(&[0x4e, 0x69, 0x64, 0x6f, 0x72, 0x61, 0x6e, 0x246d]));
    assert_eq!(
        "Fletchinder",
        get_string7(&[0x46, 0x6c, 0x65, 0x74, 0x63, 0x68, 0x69, 0x6e, 0x64, 0x65, 0x72])
    );
    assert_eq!("Ho-Oh", get_string7(&[0x48, 0x6f, 0x2d, 0x4f, 0x68]));
    assert_eq!("多龍梅西亞", get_string7(&[0x591A, 0x9F8D, 0x6885, 0x897F, 0x4E9E]))
}

#[test]
fn unsanitize_string_test() {
    assert_eq!(unsanitize_string("Nidoran♀", 5), "Nidoran\u{246E}");
    assert_eq!(unsanitize_string("Nidoran♂", 5), "Nidoran\u{246D}");
    assert_eq!(unsanitize_string("Nidoran♀", 7), "Nidoran\u{E08F}");
    assert_eq!(unsanitize_string("Nidoran♂", 7), "Nidoran\u{E08E}");
}

#[test]
fn get_string7_stops_at_null() {
    assert_eq!("Ho", get_string7(&[0x48, 0x6f, 0x0, 0x4f, 0x68]));
    assert_eq!("", get_string7(&[0x0, 0x48]));
}

#[test]
fn get_string7_replaces_unpaired_surrogate() {
    assert_eq!("a\u{FFFD}b", get_string7(&[0x61, 0xD800, 0x62]));
    assert_eq!("a\u{FFFD}b", get_string7(&[0x61, 0xDC00, 0x62]));
}

#[test]
fn get_string7_decodes_surrogate_pair() {
    // U+1F600 encodes as the pair D83D DE00.
    assert_eq!("\u{1F600}", get_string7(&[0xD83D, 0xDE00]));
}

#[test]
fn unsanitize_string_keeps_gender_marks_in_full_width_text() {
    // A full-width character elsewhere keeps the gender marks ordinary.
    assert_eq!(unsanitize_string("多♀", 7), "多♀");
}

#[test]
fn sanitize_glyph_maps_private_glyphs() {
    assert_eq!('\'', sanitize_glyph('’'));
    assert_eq!('♀', sanitize_glyph('\u{E08F}'));
    assert_eq!('♂', sanitize_glyph('\u{E08E}'));
    assert_eq!('x', sanitize_glyph('x'));
}

#[test]
fn set_string7b_test() {
    let set_string = |s: &str| {
        set_string7b(s, 12, 2, 0, 0, false)
            .into_iter()
            .take_while(|&x| x != 0)
            .collect::<Vec<u16>>()
    };
    assert_eq!(
        set_string("Farfetch\'d"),
        [0x46, 0x61, 0x72, 0x66, 0x65, 0x74, 0x63, 0x68, 0x2019, 0x64]
    );
    assert_eq!(set_string("Nidoran♀"), [0x4e, 0x69, 0x64, 0x6f, 0x72, 0x61, 0x6e, 0xe08f]);
    assert_eq!(set_string("Nidoran♂"), [0x4e, 0x69, 0x64, 0x6f, 0x72, 0x61, 0x6e, 0xe08e]);
    assert_eq!(
        set_string("Fletchinder"),
        [0x46, 0x6c, 0x65, 0x74, 0x63, 0x68, 0x69, 0x6e, 0x64, 0x65, 0x72]
    );
    assert_eq!(set_string("Ho-Oh"), [0x48, 0x6f, 0x2d, 0x4f, 0x68]);
    assert_eq!(set_string("多龍梅西亞"), [0x591A, 0x9F8D, 0x6885, 0x897F, 0x4E9E])
}

#[test]
fn set_string7b_pads_and_terminates() {
    // Capacity 5: two text units, three null fills, the terminator, then
    // two padding units up to eight.
    let units = set_string7b("Ab", 5, 2, 8, 0xFFFF, false);
    assert_eq!(vec![0x41, 0x62, 0, 0, 0, 0, 0xFFFF, 0xFFFF], units);
    // Text longer than the capacity is cut.
    let cut = set_string7b("Fletchinder", 4, 2, 0, 0, false);
    assert_eq!(vec![0x46, 0x6c, 0x65, 0x74, 0], cut);
}

#[test]
fn get_string7_round_trips_set_string7b() {
    for name in ["Ho-Oh", "Nidoran♀", "Farfetch'd", "Dracovish"] {
        let units = set_string7b(name, 12, 2, 0, 0, false);
        assert_eq!(name, get_string7(&units));
    }
}

#[test]
fn simplified_glyph_table_ranges() {
    assert_eq!(true, is_g7chs_char(0));
    assert_eq!(true, is_g7chs_char(0x30E));
    assert_eq!(false, is_g7chs_char(0x30F));
    assert_eq!(false, is_g7chs_char(0x61D));
    assert_eq!(true, is_g7chs_char(0x61E));
    assert_eq!(true, is_g7chs_char(0x621));
    assert_eq!(false, is_g7chs_char(0x622));
}
