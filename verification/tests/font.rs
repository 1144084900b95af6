use rpdf::errors::BuildError;
use rpdf::font::{Font, FontMap, FontResource};
use rpdf::object::Object;

fn simple_dict(first: i64, last: i64, widths: Vec<Object>) -> Vec<(Vec<u8>, Object)> {
    vec![
        (b"Subtype".to_vec(), Object::Name(b"Type1".to_vec())),
        (b"FirstChar".to_vec(), Object::Integer(first)),
        (b"LastChar".to_vec(), Object::Integer(last)),
        (b"Widths".to_vec(), Object::Array(widths)),
    ]
}

#[test]
fn width_round_trip() {
    let dict = simple_dict(
        32,
        34,
        vec![Object::Integer(250), Object::Integer(0), Object::Integer(350)],
    );
    let font = Font::try_from_dictionary(&dict, Some(vec![1, 2, 3])).unwrap();
    // Widths are in thousandths of a unit: 0.25, 0.0, 0.35.
    assert_eq!(font.width_for_char(32).millis(), 250);
    assert_eq!(font.width_for_char(33).millis(), 0);
    assert_eq!(font.width_for_char(34).millis(), 350);
    assert_eq!(font.width_for_char(31).millis(), 0);
    assert_eq!(font.width_for_char(35).millis(), 0);
}

#[test]
fn width_out_of_range_is_zero() {
    let dict = simple_dict(65, 65, vec![Object::Integer(500)]);
    let font = Font::try_from_dictionary(&dict, Some(vec![0])).unwrap();
    for code in 0..=255u8 {
        if code == 65 {
            assert_eq!(font.width_for_char(code).millis(), 500);
        } else {
            assert_eq!(font.width_for_char(code).millis(), 0);
        }
    }
}

#[test]
fn font_keeps_program_bytes() {
    let dict = simple_dict(32, 32, vec![Object::Integer(100)]);
    let font = Font::try_from_dictionary(&dict, Some(vec![9, 8, 7])).unwrap();
    assert_eq!(font.data(), &[9, 8, 7]);
}

#[test]
fn missing_program_fails_build() {
    let dict = simple_dict(32, 32, vec![Object::Integer(100)]);
    let r = Font::try_from_dictionary(&dict, None);
    assert_eq!(r.unwrap_err(), BuildError::MissingGlyphData);
}

#[test]
fn unsupported_subtype_fails_build() {
    let mut dict = simple_dict(32, 32, vec![Object::Integer(100)]);
    dict[0].1 = Object::Name(b"Type0".to_vec());
    let r = Font::try_from_dictionary(&dict, Some(vec![0]));
    assert_eq!(r.unwrap_err(), BuildError::UnsupportedSubtype);
}

#[test]
fn malformed_widths_fail_build() {
    let dict = simple_dict(32, 33, vec![Object::Integer(100), Object::Name(b"x".to_vec())]);
    let r = Font::try_from_dictionary(&dict, Some(vec![0]));
    assert_eq!(r.unwrap_err(), BuildError::MalformedEntry);
}

#[test]
fn missing_entries_fail_build() {
    let dict = vec![(b"Subtype".to_vec(), Object::Name(b"Type1".to_vec()))];
    let r = Font::try_from_dictionary(&dict, Some(vec![0]));
    assert_eq!(r.unwrap_err(), BuildError::MalformedEntry);
}

#[test]
fn decode_char_without_encoding_is_identity() {
    let dict = simple_dict(32, 32, vec![Object::Integer(100)]);
    let font = Font::try_from_dictionary(&dict, Some(vec![0])).unwrap();
    for code in 0..=255u8 {
        assert!(font.decode_char(code).is_none());
    }
}

#[test]
fn decode_char_uses_differences() {
    let mut dict = simple_dict(32, 32, vec![Object::Integer(100)]);
    dict.push((
        b"Encoding".to_vec(),
        Object::Dictionary(vec![(
            b"Differences".to_vec(),
            Object::Array(vec![Object::Integer(97), Object::Name(b"Acircle".to_vec())]),
        )]),
    ));
    let font = Font::try_from_dictionary(&dict, Some(vec![0])).unwrap();
    assert_eq!(font.decode_char(97).unwrap().as_bytes(), b"Acircle");
    assert!(font.decode_char(98).is_none());
}

#[test]
fn font_map_is_lenient() {
    let good = FontResource {
        name: b"F1".to_vec(),
        dictionary: simple_dict(32, 32, vec![Object::Integer(100)]),
        font_program: Some(vec![0]),
    };
    let broken = FontResource {
        name: b"F2".to_vec(),
        dictionary: simple_dict(32, 32, vec![Object::Integer(100)]),
        font_program: None,
    };
    let map = FontMap::try_from_page_fonts(vec![good, broken]);
    assert!(map.get(b"F1").is_some());
    assert!(map.get(b"F2").is_none());
    assert!(map.get(b"F3").is_none());
}

#[test]
fn font_map_later_resource_wins() {
    let narrow = FontResource {
        name: b"F1".to_vec(),
        dictionary: simple_dict(32, 32, vec![Object::Integer(100)]),
        font_program: Some(vec![0]),
    };
    let wide = FontResource {
        name: b"F1".to_vec(),
        dictionary: simple_dict(32, 32, vec![Object::Integer(900)]),
        font_program: Some(vec![0]),
    };
    let map = FontMap::try_from_page_fonts(vec![narrow, wide]);
    assert_eq!(map.get(b"F1").unwrap().width_for_char(32).millis(), 900);
}
