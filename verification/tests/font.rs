use alphanum4::font::{
    lookup, slot_of, Font, ALL_SEGMENTS, COLON_SLOT, DOT_SLOT, FONT, FONT_LEN, UNKNOWN_CHAR,
};

#[test]
fn font_has_a_slot_for_each_printable_character() {
    assert_eq!(FONT.len(), 96);
    assert_eq!(FONT_LEN, 96);
    assert_eq!(UNKNOWN_CHAR, 95);
    assert_eq!(('~' as usize) - (' ' as usize) + 2, FONT.len());
}

#[test]
fn lookup_of_space_is_blank() {
    assert_eq!(lookup(' '), 0);
    assert_eq!(slot_of(' '), 0);
}

#[test]
fn lookup_of_printable_is_table_entry() {
    for code in ('!' as u8)..=('~' as u8) {
        let ch = code as char;
        let slot = (code - b'!' + 1) as usize;
        assert_eq!(slot_of(ch), slot);
        assert_eq!(lookup(ch), FONT[slot], "character {ch:?}");
    }
}

#[test]
fn lookup_gives_known_masks() {
    assert_eq!(lookup('!'), 0b00001000001000);
    assert_eq!(lookup('0'), 0b00000000111111);
    assert_eq!(lookup('8'), 0b00000101111111);
    assert_eq!(lookup('A'), 0b00000101110111);
    assert_eq!(lookup('M'), 0b00010010110110);
    assert_eq!(lookup('a'), 0b00000101011111);
    assert_eq!(lookup('z'), 0b10010000001001);
    assert_eq!(lookup('~'), 0b00000101010010);
}

#[test]
fn lookup_of_unsupported_character_is_all_segments() {
    assert_eq!(ALL_SEGMENTS, 0x3fff);
    for ch in ['\0', '\n', '\u{1f}', '\u{7f}', '\u{80}', 'é', 'ß', '€', '\u{10ffff}'] {
        assert_eq!(slot_of(ch), UNKNOWN_CHAR, "character {ch:?}");
        assert_eq!(lookup(ch), ALL_SEGMENTS, "character {ch:?}");
    }
}

#[test]
fn indicator_characters_have_their_own_slots() {
    assert_eq!(slot_of('.'), DOT_SLOT);
    assert_eq!(slot_of(':'), COLON_SLOT);
    assert_eq!(DOT_SLOT, 14);
    assert_eq!(COLON_SLOT, 26);
    assert_eq!(lookup('.'), 0);
    assert_eq!(lookup(':'), 0);
}

#[test]
fn slot_edges() {
    assert_eq!(slot_of('!'), 1);
    assert_eq!(slot_of('~'), 94);
    assert_eq!(slot_of('\u{1f}'), 95);
    assert_eq!(slot_of('\u{7f}'), 95);
}

#[test]
fn builtin_font_is_the_table() {
    let font = Font::builtin();
    for code in 0u32..0x200 {
        let ch = char::from_u32(code).unwrap();
        assert_eq!(font.glyph(ch), lookup(ch));
    }
}

#[test]
fn custom_font_is_read_by_slot() {
    let mut table = [0u16; 96];
    for (slot, mask) in table.iter_mut().enumerate() {
        *mask = slot as u16 + 1000;
    }
    let font = Font::new(&table);
    assert_eq!(font.glyph(' '), 1000);
    assert_eq!(font.glyph('!'), 1001);
    assert_eq!(font.glyph('A'), 1000 + 33);
    assert_eq!(font.glyph('~'), 1094);
    assert_eq!(font.glyph('\u{7f}'), 1095);
    assert_eq!(font.glyph('é'), 1095);
}

#[test]
fn longer_custom_table_is_accepted() {
    let table = vec![7u16; 200];
    let font = Font::new(&table);
    assert_eq!(font.glyph('Q'), 7);
}
