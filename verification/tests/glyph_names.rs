use rpdf::glyph_names::glyph_name_to_char;

#[test]
fn glyph_map() {
    assert_eq!('\u{24B6}', glyph_name_to_char(b"Acircle"));
}

#[test]
fn glyph_name_fallback() {
    assert_eq!('\u{24B6}', glyph_name_to_char(b"Acircle"));
    assert_eq!('\u{FFFD}', glyph_name_to_char(b"nonexistentname"));
}

#[test]
fn glyph_names_ascii() {
    assert_eq!('A', glyph_name_to_char(b"A"));
    assert_eq!('z', glyph_name_to_char(b"z"));
    assert_eq!(' ', glyph_name_to_char(b"space"));
    assert_eq!('7', glyph_name_to_char(b"seven"));
    assert_eq!('&', glyph_name_to_char(b"ampersand"));
}

#[test]
fn glyph_names_are_case_sensitive() {
    assert_eq!('\u{E9}', glyph_name_to_char(b"eacute"));
    assert_eq!('\u{C9}', glyph_name_to_char(b"Eacute"));
    assert_eq!('\u{FFFD}', glyph_name_to_char(b"EACUTE"));
}

#[test]
fn glyph_name_invalid_bytes() {
    assert_eq!('\u{FFFD}', glyph_name_to_char(&[0xFF, 0xFE, 0x41]));
    assert_eq!('\u{FFFD}', glyph_name_to_char(b""));
}

#[test]
fn glyph_names_typographic() {
    assert_eq!('\u{2014}', glyph_name_to_char(b"emdash"));
    assert_eq!('\u{20AC}', glyph_name_to_char(b"Euro"));
    assert_eq!('\u{FB01}', glyph_name_to_char(b"fi"));
    assert_eq!('\u{24E9}', glyph_name_to_char(b"zcircle"));
}
