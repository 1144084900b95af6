use rpdf::differences::Differences;
use rpdf::encoding::{Encoding, EncodingDictionary, PredefinedEncoding};
use rpdf::errors::BuildError;
use rpdf::object::Object;

fn name(bytes: &[u8]) -> Object {
    Object::Name(bytes.to_vec())
}

#[test]
fn differences_alternating_runs() {
    // [65, "A", "B", 70, "F"] claims 65, 66 and 70.
    let elements = vec![
        Object::Integer(65),
        name(b"A"),
        name(b"B"),
        Object::Integer(70),
        name(b"F"),
    ];
    let d = Differences::from_array(&elements);
    assert_eq!(d.lookup(65).unwrap().as_bytes(), b"A");
    assert_eq!(d.lookup(66).unwrap().as_bytes(), b"B");
    assert_eq!(d.lookup(70).unwrap().as_bytes(), b"F");
    assert!(d.lookup(67).is_none());
    assert!(d.lookup(64).is_none());
}

#[test]
fn differences_independent_of_grouping() {
    // A redundant marker in the middle of a run changes nothing.
    let grouped = vec![
        Object::Integer(65),
        name(b"A"),
        name(b"B"),
        Object::Integer(70),
        name(b"F"),
    ];
    let split = vec![
        Object::Integer(65),
        name(b"A"),
        Object::Integer(66),
        name(b"B"),
        Object::Integer(70),
        name(b"F"),
    ];
    let a = Differences::from_array(&grouped);
    let b = Differences::from_array(&split);
    for code in 0..=255u8 {
        match (a.lookup(code), b.lookup(code)) {
            (None, None) => {}
            (Some(x), Some(y)) => assert_eq!(x.as_bytes(), y.as_bytes()),
            _ => panic!("tables differ at code {}", code),
        }
    }
}

#[test]
fn differences_later_entry_wins() {
    let elements = vec![
        Object::Integer(65),
        name(b"A"),
        Object::Integer(65),
        name(b"Aacute"),
    ];
    let d = Differences::from_array(&elements);
    assert_eq!(d.lookup(65).unwrap().as_bytes(), b"Aacute");
}

#[test]
fn differences_ignores_other_elements() {
    let elements = vec![
        Object::Integer(65),
        Object::String(b"junk".to_vec()),
        name(b"A"),
    ];
    let d = Differences::from_array(&elements);
    assert_eq!(d.lookup(65).unwrap().as_bytes(), b"A");
}

#[test]
fn deserialize_encoding_predefined() {
    assert!(matches!(
        Encoding::try_from_object(&name(b"MacRomanEncoding")).unwrap(),
        Encoding::Predefined(PredefinedEncoding::MacRomanEncoding)
    ));
    assert!(matches!(
        Encoding::try_from_object(&name(b"MacExpertEncoding")).unwrap(),
        Encoding::Predefined(PredefinedEncoding::MacExpertEncoding)
    ));
    assert!(matches!(
        Encoding::try_from_object(&name(b"WinAnsiEncoding")).unwrap(),
        Encoding::Predefined(PredefinedEncoding::WinAnsiEncoding)
    ));
}

#[test]
fn predefined_encoding_never_answers() {
    let enc = Encoding::try_from_object(&name(b"WinAnsiEncoding")).unwrap();
    assert!(matches!(enc, Encoding::Predefined(PredefinedEncoding::WinAnsiEncoding)));
    for code in 0..=255u8 {
        assert!(enc.lookup(code).is_none());
    }
}

#[test]
fn unknown_predefined_encoding_is_refused() {
    let r = Encoding::try_from_object(&name(b"BogusEncoding"));
    assert_eq!(r.unwrap_err(), BuildError::UnknownEncoding);
}

#[test]
fn encoding_from_wrong_object_is_refused() {
    let r = Encoding::try_from_object(&Object::Integer(5));
    assert_eq!(r.unwrap_err(), BuildError::MalformedEntry);
}

#[test]
fn encoding_dictionary_lookup_uses_differences_only() {
    let dict = Object::Dictionary(vec![
        (b"BaseEncoding".to_vec(), name(b"MacRomanEncoding")),
        (
            b"Differences".to_vec(),
            Object::Array(vec![Object::Integer(97), name(b"Acircle")]),
        ),
    ]);
    let enc = EncodingDictionary::try_from_object(&dict).unwrap();
    assert!(matches!(enc.base, Some(PredefinedEncoding::MacRomanEncoding)));
    assert_eq!(enc.lookup(97).unwrap().as_bytes(), b"Acircle");
    // The base encoding is deliberately never consulted.
    assert!(enc.lookup(65).is_none());
}

#[test]
fn encoding_dictionary_differences_must_be_array() {
    let dict = Object::Dictionary(vec![(b"Differences".to_vec(), Object::Integer(3))]);
    let r = EncodingDictionary::try_from_object(&dict);
    assert_eq!(r.unwrap_err(), BuildError::MalformedEntry);
}

#[test]
fn glyph_name_to_char_on_names() {
    let dict = Object::Dictionary(vec![(
        b"Differences".to_vec(),
        Object::Array(vec![Object::Integer(97), name(b"Acircle")]),
    )]);
    let enc = EncodingDictionary::try_from_object(&dict).unwrap();
    assert_eq!(enc.lookup(97).unwrap().to_char(), '\u{24B6}');
}

#[test]
fn type1_translate_differences_and_fallback() {
    let dict = Object::Dictionary(vec![(
        b"Differences".to_vec(),
        Object::Array(vec![Object::Integer(97), name(b"Acircle")]),
    )]);
    let enc = rpdf::type1::Encoding::try_from_object(&dict).unwrap();
    // An overridden code resolves through the glyph name table.
    assert_eq!(enc.translate(97), '\u{24B6}');
    // Any other code stands for itself.
    assert_eq!(enc.translate(65), 'A');
}

#[test]
fn type1_predefined_translates_identically() {
    let enc = rpdf::type1::Encoding::try_from_object(&name(b"MacExpertEncoding")).unwrap();
    for code in 0..=255u8 {
        assert_eq!(enc.translate(code), code as char);
    }
}

#[test]
fn type1_dictionary_lookup_by_wide_code() {
    let dict = Object::Dictionary(vec![(
        b"Differences".to_vec(),
        Object::Array(vec![Object::Integer(300), name(b"A")]),
    )]);
    let enc = rpdf::type1::EncodingDictionary::try_from_object(&dict).unwrap();
    // Codes are kept at their full width here: 300 is not a byte.
    assert_eq!(enc.lookup(300), Some('A'));
    assert_eq!(enc.lookup(44), None);
}
