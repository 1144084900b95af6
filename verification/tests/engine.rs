use rpdf::errors::Error;
use rpdf::fixnum::Fix;
use rpdf::font::{FontMap, FontResource};
use rpdf::graphics::{decode_page, GraphicsObject, GraphicsObjectDecoder, GraphicsState};
use rpdf::object::{Object, Operation};
use rpdf::text::{GlyphIdentity, TextObject, TextState};

fn fix(millis: i64) -> Fix {
    Fix::from_millis(millis).unwrap()
}

fn op(operator: &str, operands: Vec<Object>) -> Operation {
    Operation { operator: operator.to_owned(), operands }
}

/// A page with one simple font declared under `name`: codes 32..=34 with
/// widths 0.25, 0.0 and 0.35.
fn one_font_map(name: &[u8]) -> FontMap {
    let dictionary = vec![
        (b"Subtype".to_vec(), Object::Name(b"Type1".to_vec())),
        (b"FirstChar".to_vec(), Object::Integer(32)),
        (b"LastChar".to_vec(), Object::Integer(34)),
        (
            b"Widths".to_vec(),
            Object::Array(vec![
                Object::Integer(250),
                Object::Integer(0),
                Object::Integer(350),
            ]),
        ),
    ];
    FontMap::try_from_page_fonts(vec![FontResource {
        name: name.to_vec(),
        dictionary,
        font_program: Some(vec![0]),
    }])
}

fn select_font(name: &[u8], size: i64) -> Operation {
    op("Tf", vec![Object::Name(name.to_vec()), Object::Integer(size)])
}

fn show(text: &[u8]) -> Operation {
    op("Tj", vec![Object::String(text.to_vec())])
}

#[test]
fn begin_end_pairing() {
    let fonts = one_font_map(b"");
    // A closed text object is emitted: one run with one fragment.
    let objects = decode_page(
        &fonts,
        vec![op("BT", vec![]), show(b"A"), op("ET", vec![])],
    )
    .unwrap();
    assert_eq!(objects.len(), 1);
    assert_eq!(objects[0].fragments.len(), 1);
    // An open text object is discarded: no run at all.
    let objects = decode_page(&fonts, vec![op("BT", vec![]), show(b"A")]).unwrap();
    assert_eq!(objects.len(), 0);
}

#[test]
fn moves_accumulate_through_line_matrix() {
    let fonts = one_font_map(b"F1");
    let objects = decode_page(
        &fonts,
        vec![
            op("BT", vec![]),
            select_font(b"F1", 10),
            op("Td", vec![Object::Integer(10), Object::Integer(0)]),
            op("Td", vec![Object::Integer(5), Object::Integer(0)]),
            show(b" "),
            op("ET", vec![]),
        ],
    )
    .unwrap();
    let glyph = &objects[0].fragments[0].glyphs[0];
    // The two moves accumulate: the glyph sits at (15, 0), not (5, 0).
    assert_eq!(glyph.origin.0.millis(), 15_000);
    assert_eq!(glyph.origin.1.millis(), 0);
}

#[test]
fn glyph_advances() {
    let fonts = one_font_map(b"F1");
    let objects = decode_page(
        &fonts,
        vec![
            op("BT", vec![]),
            select_font(b"F1", 10),
            show(&[32, 34]),
            op("ET", vec![]),
        ],
    )
    .unwrap();
    let glyphs = &objects[0].fragments[0].glyphs;
    assert_eq!(glyphs.len(), 2);
    // Code 32: width 0.25 at size 10 advances 2.5.
    assert_eq!(glyphs[0].origin.0.millis(), 0);
    assert_eq!(glyphs[0].advance.millis(), 2_500);
    // Code 34 starts where the first advance put it.
    assert_eq!(glyphs[1].origin.0.millis(), 2_500);
    assert_eq!(glyphs[1].advance.millis(), 3_500);
    assert!(matches!(glyphs[0].identity, GlyphIdentity::Code(32)));
}

#[test]
fn spacing_and_scaling_enter_advances() {
    let fonts = one_font_map(b"F1");
    let objects = decode_page(
        &fonts,
        vec![
            op("Tc", vec![Object::Integer(1)]),
            op("Tw", vec![Object::Integer(2)]),
            op("Tz", vec![Object::Integer(50)]),
            op("BT", vec![]),
            select_font(b"F1", 10),
            show(&[32]),
            op("ET", vec![]),
        ],
    )
    .unwrap();
    // (0.25 * 10 + 1 + 2) * 0.5 = 2.75.
    let glyph = &objects[0].fragments[0].glyphs[0];
    assert_eq!(glyph.advance.millis(), 2_750);
}

#[test]
fn adjustment_reduces_origin() {
    let fonts = one_font_map(b"F1");
    let plain = decode_page(
        &fonts,
        vec![
            op("BT", vec![]),
            select_font(b"F1", 10),
            op("TJ", vec![Object::Array(vec![Object::String(vec![32])])]),
            op("ET", vec![]),
        ],
    )
    .unwrap();
    let adjusted = decode_page(
        &fonts,
        vec![
            op("BT", vec![]),
            select_font(b"F1", 10),
            op(
                "TJ",
                vec![Object::Array(vec![
                    Object::Integer(250),
                    Object::String(vec![32]),
                ])],
            ),
            op("ET", vec![]),
        ],
    )
    .unwrap();
    let x_plain = plain[0].fragments[0].glyphs[0].origin.0.millis();
    let x_adjusted = adjusted[0].fragments[0].glyphs[0].origin.0.millis();
    // A positive array number of 250 moves the next glyph left by 2.5.
    assert_eq!(x_plain - x_adjusted, 2_500);
}

#[test]
fn show_array_flushes_fragment_per_string() {
    let fonts = one_font_map(b"F1");
    let objects = decode_page(
        &fonts,
        vec![
            op("BT", vec![]),
            select_font(b"F1", 10),
            op(
                "TJ",
                vec![Object::Array(vec![
                    Object::String(vec![32]),
                    Object::Integer(250),
                    Object::String(vec![34]),
                ])],
            ),
            op("ET", vec![]),
        ],
    )
    .unwrap();
    assert_eq!(objects[0].fragments.len(), 2);
    // The second fragment starts after the first advance, pulled back 2.5.
    assert_eq!(objects[0].fragments[1].transform.e.millis(), 0);
}

#[test]
fn leading_set_and_subtract() {
    let mut ts = TextState::default();
    ts.handle_operation(&op("TL", vec![Object::Real(fix(12_000))])).unwrap();
    assert_eq!(ts.text_leading.millis(), 12_000);
    ts.handle_operation(&op("TL", vec![Object::Integer(3)])).unwrap();
    assert_eq!(ts.text_leading.millis(), 9_000);
}

#[test]
fn leading_drives_next_line() {
    let fonts = one_font_map(b"F1");
    let objects = decode_page(
        &fonts,
        vec![
            op("TL", vec![Object::Real(fix(12_000))]),
            op("BT", vec![]),
            select_font(b"F1", 10),
            op("'", vec![Object::String(vec![32])]),
            op("ET", vec![]),
        ],
    )
    .unwrap();
    let fragment = &objects[0].fragments[0];
    // The quote operator moved to the next line: (0, leading).
    assert_eq!(fragment.transform.f.millis(), 12_000);
    assert_eq!(fragment.line_height.millis(), 12_000);
}

#[test]
fn move_and_set_leading() {
    let fonts = one_font_map(b"F1");
    let objects = decode_page(
        &fonts,
        vec![
            op("BT", vec![]),
            select_font(b"F1", 10),
            op("TD", vec![Object::Integer(3), Object::Integer(-7)]),
            show(&[32]),
            op("ET", vec![]),
        ],
    )
    .unwrap();
    let fragment = &objects[0].fragments[0];
    assert_eq!(fragment.transform.e.millis(), 3_000);
    assert_eq!(fragment.transform.f.millis(), -7_000);
    // The leading became the negated vertical move.
    assert_eq!(fragment.line_height.millis(), 7_000);
}

#[test]
fn show_with_spacing_sets_state_and_moves() {
    let fonts = one_font_map(b"F1");
    let objects = decode_page(
        &fonts,
        vec![
            op("TL", vec![Object::Real(fix(12_000))]),
            op("BT", vec![]),
            select_font(b"F1", 10),
            op(
                "\"",
                vec![Object::Integer(1), Object::Integer(2), Object::String(vec![32])],
            ),
            op("ET", vec![]),
        ],
    )
    .unwrap();
    let fragment = &objects[0].fragments[0];
    assert_eq!(fragment.transform.f.millis(), 12_000);
    // (0.25 * 10 + char 2 + word 1) * 1 = 5.5.
    assert_eq!(fragment.glyphs[0].advance.millis(), 5_500);
}

#[test]
fn set_matrix_composes_with_moves() {
    let fonts = one_font_map(b"F1");
    let objects = decode_page(
        &fonts,
        vec![
            op("BT", vec![]),
            select_font(b"F1", 10),
            op(
                "Tm",
                vec![
                    Object::Integer(2),
                    Object::Integer(0),
                    Object::Integer(0),
                    Object::Integer(2),
                    Object::Integer(5),
                    Object::Integer(7),
                ],
            ),
            op("Td", vec![Object::Integer(10), Object::Integer(0)]),
            show(&[32, 32]),
            op("ET", vec![]),
        ],
    )
    .unwrap();
    let glyphs = &objects[0].fragments[0].glyphs;
    // translate(10, 0) pre-multiplied onto the set matrix: 10 * 2 + 5 = 25.
    assert_eq!(glyphs[0].origin.0.millis(), 25_000);
    assert_eq!(glyphs[0].origin.1.millis(), 7_000);
    // The glyph advance of 2.5 runs through the matrix's doubled scale.
    assert_eq!(glyphs[1].origin.0.millis(), 30_000);
}

#[test]
fn matrices_reset_at_begin_but_state_persists() {
    let fonts = one_font_map(b"F1");
    let objects = decode_page(
        &fonts,
        vec![
            op("BT", vec![]),
            select_font(b"F1", 10),
            op("Td", vec![Object::Integer(10), Object::Integer(10)]),
            show(&[32]),
            op("ET", vec![]),
            op("BT", vec![]),
            show(&[32]),
            op("ET", vec![]),
        ],
    )
    .unwrap();
    assert_eq!(objects.len(), 2);
    // The second object starts from the identity again.
    assert_eq!(objects[1].fragments[0].glyphs[0].origin.0.millis(), 0);
    // But the font chosen in the first object still applies.
    assert_eq!(objects[1].fragments[0].glyphs[0].advance.millis(), 2_500);
}

#[test]
fn unknown_operators_are_skipped() {
    let fonts = one_font_map(b"F1");
    let objects = decode_page(
        &fonts,
        vec![
            op("re", vec![Object::Integer(1)]),
            op("BT", vec![]),
            select_font(b"F1", 10),
            op("g", vec![]),
            show(&[32]),
            op("ET", vec![]),
        ],
    )
    .unwrap();
    assert_eq!(objects.len(), 1);
}

#[test]
fn protocol_violations() {
    let fonts = one_font_map(b"F1");
    let r = decode_page(&fonts, vec![op("ET", vec![])]);
    assert_eq!(r.unwrap_err(), Error::ProtocolViolation);
    let r = decode_page(&fonts, vec![op("BT", vec![]), op("BT", vec![])]);
    assert_eq!(r.unwrap_err(), Error::ProtocolViolation);
    let r = decode_page(
        &fonts,
        vec![op("Td", vec![Object::Integer(1), Object::Integer(1)])],
    );
    assert_eq!(r.unwrap_err(), Error::ProtocolViolation);
    let r = decode_page(&fonts, vec![show(b"A")]);
    assert_eq!(r.unwrap_err(), Error::ProtocolViolation);
}

#[test]
fn malformed_operands() {
    let fonts = one_font_map(b"F1");
    let r = decode_page(
        &fonts,
        vec![op("BT", vec![]), op("Tj", vec![Object::Integer(1)])],
    );
    assert_eq!(r.unwrap_err(), Error::MalformedOperand);
    let r = decode_page(&fonts, vec![op("TL", vec![Object::Name(b"x".to_vec())])]);
    assert_eq!(r.unwrap_err(), Error::MalformedOperand);
    let r = decode_page(&fonts, vec![op("Tc", vec![])]);
    assert_eq!(r.unwrap_err(), Error::MalformedOperand);
}

#[test]
fn unresolved_font_resource() {
    let fonts = one_font_map(b"F1");
    let r = decode_page(
        &fonts,
        vec![
            op("BT", vec![]),
            select_font(b"F9", 10),
            show(&[32]),
            op("ET", vec![]),
        ],
    );
    assert_eq!(r.unwrap_err(), Error::UnresolvedFontResource);
}

#[test]
fn numeric_overflow_is_reported() {
    let fonts = one_font_map(b"F1");
    let r = decode_page(&fonts, vec![op("Tc", vec![Object::Integer(i64::MAX)])]);
    assert_eq!(r.unwrap_err(), Error::NumericOverflow);
}

#[test]
fn decoder_hands_objects_out_one_by_one() {
    let fonts = one_font_map(b"F1");
    let mut decoder = GraphicsObjectDecoder::decode(vec![
        op("BT", vec![]),
        select_font(b"F1", 10),
        show(&[32]),
        op("ET", vec![]),
        op("BT", vec![]),
        op("ET", vec![]),
    ]);
    let first = decoder.try_next(&fonts).unwrap().unwrap();
    let GraphicsObject::Text(first) = first;
    assert_eq!(first.fragments.len(), 1);
    let second = decoder.try_next(&fonts).unwrap().unwrap();
    let GraphicsObject::Text(second) = second;
    assert_eq!(second.fragments.len(), 0);
    assert!(decoder.try_next(&fonts).unwrap().is_none());
}

#[test]
fn fresh_graphics_state_defaults() {
    let state = GraphicsState::new();
    assert_eq!(state.text_state.horizontal_scaling.millis(), 1_000);
    assert_eq!(state.text_state.char_spacing.millis(), 0);
    assert_eq!(state.text_state.text_font.len(), 0);
}

#[test]
fn fragment_carries_font_and_size() {
    let fonts = one_font_map(b"F1");
    let objects = decode_page(
        &fonts,
        vec![
            op("BT", vec![]),
            select_font(b"F1", 10),
            show(&[32]),
            op("ET", vec![]),
        ],
    )
    .unwrap();
    let fragment: &rpdf::text::TextFragment = &objects[0].fragments[0];
    assert_eq!(fragment.font_name, b"F1".to_vec());
    assert_eq!(fragment.font_size.millis(), 10_000);
}

#[test]
fn builder_can_be_driven_directly() {
    let fonts = one_font_map(b"F1");
    let mut state = TextState::default();
    state.handle_operation(&select_font(b"F1", 10)).unwrap();
    let mut builder = rpdf::text::TextObjectBuilder::new();
    builder
        .handle_operation(&mut state, &fonts, &op("Td", vec![Object::Integer(1), Object::Integer(2)]))
        .unwrap();
    builder.handle_operation(&mut state, &fonts, &show(&[32])).unwrap();
    let object: TextObject = builder.build();
    assert_eq!(object.fragments.len(), 1);
    assert_eq!(object.fragments[0].transform.e.millis(), 1_000);
}
