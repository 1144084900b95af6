//! The text-state machine: operators in, placed glyphs out.
//!
//! A text object accumulates fragments between a begin and an end operator.
//! The text state — spacings, scaling, font, size, leading — persists for
//! the whole content stream; only the two positioning matrices reset when a
//! text object begins.  Every translation composes by pre-multiplying onto
//! the line or text matrix, and every shown character advances the text
//! matrix by its exact width-derived displacement.

use vstd::prelude::*;

use crate::errors::Error;
use crate::fixnum::{fix_checked_add, fix_checked_mul, trunc_div, Fix, FIX_SCALE};
use crate::font::{spec_decode_char, spec_width_for_char, FontMap, FontVal};
use crate::matrix::{mat_identity, spec_translate_pre, Matrix, MatrixVal};
use crate::object::{num_value, op_is, spec_num_value, Object, Operation};

verus! {

/// The mathematical value of the text state, numbers in thousandths.
pub ghost struct TextStateVal {
    pub char_spacing: int,
    pub word_spacing: int,
    pub horizontal_scaling: int,
    pub text_font: Seq<u8>,
    pub text_font_size: int,
    pub text_leading: int,
}

/// The cumulative typesetting parameters.  They persist across the whole
/// content stream: a text object's begin and end leave them untouched.
#[derive(Debug)]
pub struct TextState {
    pub char_spacing: Fix,
    pub word_spacing: Fix,
    pub horizontal_scaling: Fix,
    pub text_font: Vec<u8>,
    pub text_font_size: Fix,
    pub text_leading: Fix,
}

impl View for TextState {
    type V = TextStateVal;

    open spec fn view(&self) -> TextStateVal {
        TextStateVal {
            char_spacing: self.char_spacing@,
            word_spacing: self.word_spacing@,
            horizontal_scaling: self.horizontal_scaling@,
            text_font: self.text_font@,
            text_font_size: self.text_font_size@,
            text_leading: self.text_leading@,
        }
    }
}

/// The text state at the start of a content stream: everything zero but the
/// horizontal scaling, which starts at one, and no font selected.
pub open spec fn spec_text_state_default() -> TextStateVal {
    TextStateVal {
        char_spacing: 0,
        word_spacing: 0,
        horizontal_scaling: FIX_SCALE as int,
        text_font: Seq::empty(),
        text_font_size: 0,
        text_leading: 0,
    }
}

impl Default for TextState {
    /// The text state at the start of a content stream.
    fn default() -> (r: TextState)
        ensures
            r@ == spec_text_state_default(),
    {
        TextState {
            char_spacing: Fix::zero(),
            word_spacing: Fix::zero(),
            horizontal_scaling: Fix::one(),
            text_font: Vec::new(),
            text_font_size: Fix::zero(),
            text_leading: Fix::zero(),
        }
    }
}

/// What a state-setting operator does to the text state.  Character and
/// word spacing and the font size take their operand as it is; the
/// horizontal scale takes its operand divided by a hundred; the leading
/// operator sets the leading from a real operand but subtracts an integer
/// operand from it, an asymmetry preserved deliberately; the font operator
/// takes a resource name and a size.  Operators outside this set change
/// nothing.
pub open spec fn spec_text_state_apply(ts: TextStateVal, op: Operation) -> Result<
    TextStateVal,
    Error,
> {
    let args = op.operands@;
    if op.operator@ == "Tc"@ {
        if args.len() < 1 {
            Err(Error::MalformedOperand)
        } else {
            match spec_num_value(args[0]) {
                Ok(v) => Ok(TextStateVal { char_spacing: v, ..ts }),
                Err(e) => Err(e),
            }
        }
    } else if op.operator@ == "Tw"@ {
        if args.len() < 1 {
            Err(Error::MalformedOperand)
        } else {
            match spec_num_value(args[0]) {
                Ok(v) => Ok(TextStateVal { word_spacing: v, ..ts }),
                Err(e) => Err(e),
            }
        }
    } else if op.operator@ == "Tz"@ {
        if args.len() < 1 {
            Err(Error::MalformedOperand)
        } else {
            match spec_num_value(args[0]) {
                Ok(v) => Ok(TextStateVal { horizontal_scaling: trunc_div(v, 100), ..ts }),
                Err(e) => Err(e),
            }
        }
    } else if op.operator@ == "TL"@ {
        if args.len() < 1 {
            Err(Error::MalformedOperand)
        } else {
            match args[0] {
                Object::Real(x) => Ok(TextStateVal { text_leading: x@, ..ts }),
                Object::Integer(i) => match fix_checked_add(
                    Some(ts.text_leading),
                    match spec_num_value(Object::Integer(i)) {
                        Ok(v) => Some(-v),
                        Err(_) => None,
                    },
                ) {
                    Some(v) => Ok(TextStateVal { text_leading: v, ..ts }),
                    None => Err(Error::NumericOverflow),
                },
                _ => Err(Error::MalformedOperand),
            }
        }
    } else if op.operator@ == "Tf"@ {
        if args.len() < 2 {
            Err(Error::MalformedOperand)
        } else {
            match args[0] {
                Object::Name(n) => match spec_num_value(args[1]) {
                    Ok(size) => Ok(
                        TextStateVal { text_font: n@, text_font_size: size, ..ts },
                    ),
                    Err(e) => Err(e),
                },
                _ => Err(Error::MalformedOperand),
            }
        }
    } else {
        Ok(ts)
    }
}

impl TextState {
    /// Applies one state-setting operator; anything else is left to the
    /// other operator classes and changes nothing here.  On an error the
    /// state is unchanged.
    pub fn handle_operation(&mut self, op: &Operation) -> (r: Result<(), Error>)
        ensures
            r is Ok <==> spec_text_state_apply(old(self)@, *op) is Ok,
            r is Ok ==> final(self)@ == spec_text_state_apply(old(self)@, *op)->Ok_0,
            r is Err ==> final(self)@ == old(self)@ && r->Err_0 == spec_text_state_apply(
                old(self)@,
                *op,
            )->Err_0,
    {
        if op_is(op, "Tc") {
            if op.operands.len() < 1 {
                return Err(Error::MalformedOperand);
            }
            let v = match num_value(&op.operands[0]) {
                Ok(v) => v,
                Err(e) => {
                    return Err(e);
                },
            };
            self.char_spacing = v;
        } else if op_is(op, "Tw") {
            if op.operands.len() < 1 {
                return Err(Error::MalformedOperand);
            }
            let v = match num_value(&op.operands[0]) {
                Ok(v) => v,
                Err(e) => {
                    return Err(e);
                },
            };
            self.word_spacing = v;
        } else if op_is(op, "Tz") {
            if op.operands.len() < 1 {
                return Err(Error::MalformedOperand);
            }
            let v = match num_value(&op.operands[0]) {
                Ok(v) => v,
                Err(e) => {
                    return Err(e);
                },
            };
            self.horizontal_scaling = v.div_by(100);
        } else if op_is(op, "TL") {
            if op.operands.len() < 1 {
                return Err(Error::MalformedOperand);
            }
            match &op.operands[0] {
                Object::Real(x) => {
                    self.text_leading = *x;
                },
                Object::Integer(_) => {
                    let v = match num_value(&op.operands[0]) {
                        Ok(v) => v,
                        Err(_) => {
                            return Err(Error::NumericOverflow);
                        },
                    };
                    match self.text_leading.add(v.neg()) {
                        Some(l) => {
                            self.text_leading = l;
                        },
                        None => {
                            return Err(Error::NumericOverflow);
                        },
                    }
                },
                _ => {
                    return Err(Error::MalformedOperand);
                },
            }
        } else if op_is(op, "Tf") {
            if op.operands.len() < 2 {
                return Err(Error::MalformedOperand);
            }
            let name = match &op.operands[0] {
                Object::Name(n) => n,
                _ => {
                    return Err(Error::MalformedOperand);
                },
            };
            let size = match num_value(&op.operands[1]) {
                Ok(v) => v,
                Err(e) => {
                    return Err(e);
                },
            };
            self.text_font = crate::object::clone_bytes(name);
            self.text_font_size = size;
        }
        Ok(())
    }
}

/// How a shown glyph is identified: by the glyph name its font's encoding
/// gives its code, or by the raw code where the encoding gives none.
#[derive(Debug)]
pub enum GlyphIdentity {
    Named(crate::encoding::GlyphName),
    Code(u8),
}

/// The mathematical value of a glyph identity.
pub ghost enum GlyphIdentityVal {
    Named(Seq<u8>),
    Code(u8),
}

impl View for GlyphIdentity {
    type V = GlyphIdentityVal;

    open spec fn view(&self) -> GlyphIdentityVal {
        match self {
            GlyphIdentity::Named(n) => GlyphIdentityVal::Named(n@),
            GlyphIdentity::Code(c) => GlyphIdentityVal::Code(*c),
        }
    }
}

/// The mathematical value of one placed glyph.
pub ghost struct GlyphVal {
    pub identity: GlyphIdentityVal,
    pub origin_x: int,
    pub origin_y: int,
    pub advance: int,
}

/// One placed glyph: its identity, the point the text matrix placed it at
/// before advancing, and the horizontal displacement applied after it.
#[derive(Debug)]
pub struct TextGlyph {
    pub identity: GlyphIdentity,
    pub origin: (Fix, Fix),
    pub advance: Fix,
}

impl View for TextGlyph {
    type V = GlyphVal;

    open spec fn view(&self) -> GlyphVal {
        GlyphVal {
            identity: self.identity@,
            origin_x: self.origin.0@,
            origin_y: self.origin.1@,
            advance: self.advance@,
        }
    }
}

/// The mathematical value of one text fragment.
pub ghost struct FragmentVal {
    pub transform: MatrixVal,
    pub font_name: Seq<u8>,
    pub font_size: int,
    pub line_height: int,
    pub glyphs: Seq<GlyphVal>,
}

/// One contiguous shown string: the text matrix as it stood when showing
/// began, the typesetting parameters it was shown with, and its glyphs in
/// order.
#[derive(Debug)]
pub struct TextFragment {
    pub transform: Matrix,
    pub font_name: Vec<u8>,
    pub font_size: Fix,
    pub line_height: Fix,
    pub glyphs: Vec<TextGlyph>,
}

/// The values of a sequence of glyphs.
pub open spec fn glyphs_view(s: Seq<TextGlyph>) -> Seq<GlyphVal> {
    s.map_values(|g: TextGlyph| g@)
}

impl View for TextFragment {
    type V = FragmentVal;

    open spec fn view(&self) -> FragmentVal {
        FragmentVal {
            transform: self.transform@,
            font_name: self.font_name@,
            font_size: self.font_size@,
            line_height: self.line_height@,
            glyphs: glyphs_view(self.glyphs@),
        }
    }
}

/// The values of a sequence of fragments.
pub open spec fn fragments_view(s: Seq<TextFragment>) -> Seq<FragmentVal> {
    s.map_values(|f: TextFragment| f@)
}

/// One completed text object: the fragments shown between a begin and an
/// end operator.
#[derive(Debug)]
pub struct TextObject {
    pub fragments: Vec<TextFragment>,
}

impl View for TextObject {
    type V = Seq<FragmentVal>;

    open spec fn view(&self) -> Seq<FragmentVal> {
        fragments_view(self.fragments@)
    }
}

/// The mathematical value of a text object under construction.
pub ghost struct BuilderVal {
    pub text_matrix: MatrixVal,
    pub text_line_matrix: MatrixVal,
    pub fragments: Seq<FragmentVal>,
}

/// A text object under construction: the two positioning matrices and the
/// fragments accumulated so far.
#[derive(Debug)]
pub struct TextObjectBuilder {
    text_matrix: Matrix,
    text_line_matrix: Matrix,
    fragments: Vec<TextFragment>,
}

impl View for TextObjectBuilder {
    type V = BuilderVal;

    closed spec fn view(&self) -> BuilderVal {
        BuilderVal {
            text_matrix: self.text_matrix@,
            text_line_matrix: self.text_line_matrix@,
            fragments: fragments_view(self.fragments@),
        }
    }
}

/// A builder as a text object begins: both matrices at the identity, no
/// fragments yet.
pub open spec fn spec_builder_new() -> BuilderVal {
    BuilderVal {
        text_matrix: mat_identity(),
        text_line_matrix: mat_identity(),
        fragments: Seq::empty(),
    }
}

/// The displacement one shown character advances the text matrix by:
/// `(width * size + char_spacing + word_spacing) * horizontal_scaling`,
/// each step checked against the representable range.  Word spacing applies
/// to every code, not only to the space code: a simplification preserved
/// deliberately.
pub open spec fn spec_glyph_advance(font: FontVal, ts: TextStateVal, c: u8) -> Option<int> {
    let scaled = fix_checked_add(
        fix_checked_add(
            fix_checked_mul(spec_width_for_char(font, c), ts.text_font_size),
            Some(ts.char_spacing),
        ),
        Some(ts.word_spacing),
    );
    match scaled {
        Some(v) => fix_checked_mul(v, ts.horizontal_scaling),
        None => None,
    }
}

/// What showing one character does: record a glyph at the text matrix's
/// current origin with its advance, then advance the text matrix by a
/// pre-multiplied translation; nothing where a value leaves the
/// representable range.
pub open spec fn spec_glyph_step(font: FontVal, ts: TextStateVal, tm: MatrixVal, c: u8) -> Option<
    (GlyphVal, MatrixVal),
> {
    match spec_glyph_advance(font, ts, c) {
        None => None,
        Some(tx) => {
            let glyph = GlyphVal {
                identity: match spec_decode_char(font, c) {
                    Some(name) => GlyphIdentityVal::Named(name),
                    None => GlyphIdentityVal::Code(c),
                },
                origin_x: tm.e,
                origin_y: tm.f,
                advance: tx,
            };
            match spec_translate_pre(tx, 0, tm) {
                None => None,
                Some(tm2) => Some((glyph, tm2)),
            }
        },
    }
}

/// Showing a string of character codes left to right.
pub open spec fn spec_flush_glyphs(
    font: FontVal,
    ts: TextStateVal,
    tm: MatrixVal,
    chars: Seq<u8>,
) -> Option<(Seq<GlyphVal>, MatrixVal)>
    decreases chars.len(),
{
    if chars.len() == 0 {
        Some((Seq::empty(), tm))
    } else {
        match spec_glyph_step(font, ts, tm, chars[0]) {
            None => None,
            Some((glyph, tm2)) => match spec_flush_glyphs(font, ts, tm2, chars.skip(1)) {
                None => None,
                Some((glyphs, tmf)) => Some((seq![glyph] + glyphs, tmf)),
            },
        }
    }
}

/// What flushing one shown string does to a builder: the active font must
/// be declared; the fragment snapshots the text matrix before any of its
/// glyphs, carries the font name, size and leading, and is appended after
/// its glyphs advanced the text matrix.
pub open spec fn spec_flush_segment(
    fonts: Map<Seq<u8>, FontVal>,
    ts: TextStateVal,
    b: BuilderVal,
    chars: Seq<u8>,
) -> Result<BuilderVal, Error> {
    if !fonts.contains_key(ts.text_font) {
        Err(Error::UnresolvedFontResource)
    } else {
        match spec_flush_glyphs(fonts[ts.text_font], ts, b.text_matrix, chars) {
            None => Err(Error::NumericOverflow),
            Some((glyphs, tm2)) => Ok(
                BuilderVal {
                    text_matrix: tm2,
                    text_line_matrix: b.text_line_matrix,
                    fragments: b.fragments.push(
                        FragmentVal {
                            transform: b.text_matrix,
                            font_name: ts.text_font,
                            font_size: ts.text_font_size,
                            line_height: ts.text_leading,
                            glyphs,
                        },
                    ),
                },
            ),
        }
    }
}

/// What a line-level translation does: pre-multiply onto the line matrix
/// and copy the result into the text matrix.
pub open spec fn spec_apply_translation(b: BuilderVal, x: int, y: int) -> Option<BuilderVal> {
    match spec_translate_pre(x, y, b.text_line_matrix) {
        None => None,
        Some(m) => Some(BuilderVal { text_matrix: m, text_line_matrix: m, ..b }),
    }
}

/// What a show-array numeric element does: displace the text matrix left by
/// `(amount / 1000) * size * scaling` — a positive amount removes space.
pub open spec fn spec_apply_adjustment(ts: TextStateVal, b: BuilderVal, amount: int) -> Option<
    BuilderVal,
> {
    let tx = match fix_checked_mul(trunc_div(amount, FIX_SCALE as int), ts.text_font_size) {
        Some(v) => fix_checked_mul(v, ts.horizontal_scaling),
        None => None,
    };
    match tx {
        None => None,
        Some(tx) => match spec_translate_pre(-tx, 0, b.text_matrix) {
            None => None,
            Some(m) => Some(BuilderVal { text_matrix: m, ..b }),
        },
    }
}

/// What a positioning operator does.  A move pre-multiplies its translation
/// onto the line matrix; move-and-set-leading also sets the leading to the
/// negated vertical move; set-matrix overwrites both matrices directly;
/// next-line is a move by `(0, leading)`.  Other operators change nothing
/// here.
pub open spec fn spec_position_apply(ts: TextStateVal, b: BuilderVal, op: Operation) -> Result<
    (TextStateVal, BuilderVal),
    Error,
> {
    let args = op.operands@;
    if op.operator@ == "Td"@ {
        if args.len() < 2 {
            Err(Error::MalformedOperand)
        } else {
            match (spec_num_value(args[0]), spec_num_value(args[1])) {
                (Ok(x), Ok(y)) => match spec_apply_translation(b, x, y) {
                    Some(b2) => Ok((ts, b2)),
                    None => Err(Error::NumericOverflow),
                },
                (Err(e), _) => Err(e),
                (_, Err(e)) => Err(e),
            }
        }
    } else if op.operator@ == "TD"@ {
        if args.len() < 2 {
            Err(Error::MalformedOperand)
        } else {
            match (spec_num_value(args[0]), spec_num_value(args[1])) {
                (Ok(x), Ok(y)) => match spec_apply_translation(b, x, y) {
                    Some(b2) => Ok((TextStateVal { text_leading: -y, ..ts }, b2)),
                    None => Err(Error::NumericOverflow),
                },
                (Err(e), _) => Err(e),
                (_, Err(e)) => Err(e),
            }
        }
    } else if op.operator@ == "Tm"@ {
        if args.len() < 6 {
            Err(Error::MalformedOperand)
        } else {
            match (
                spec_num_value(args[0]),
                spec_num_value(args[1]),
                spec_num_value(args[2]),
                spec_num_value(args[3]),
                spec_num_value(args[4]),
                spec_num_value(args[5]),
            ) {
                (Ok(a), Ok(bb), Ok(c), Ok(d), Ok(e), Ok(f)) => {
                    let m = MatrixVal { a, b: bb, c, d, e, f };
                    Ok((ts, BuilderVal { text_matrix: m, text_line_matrix: m, ..b }))
                },
                (Err(e), _, _, _, _, _) => Err(e),
                (_, Err(e), _, _, _, _) => Err(e),
                (_, _, Err(e), _, _, _) => Err(e),
                (_, _, _, Err(e), _, _) => Err(e),
                (_, _, _, _, Err(e), _) => Err(e),
                (_, _, _, _, _, Err(e)) => Err(e),
            }
        }
    } else if op.operator@ == "T*"@ {
        match spec_apply_translation(b, 0, ts.text_leading) {
            Some(b2) => Ok((ts, b2)),
            None => Err(Error::NumericOverflow),
        }
    } else {
        Ok((ts, b))
    }
}

/// Showing the elements of a show-array left to right: strings flush a
/// fragment each, numbers adjust the displacement, anything else is
/// skipped.
pub open spec fn spec_tj_fold(
    fonts: Map<Seq<u8>, FontVal>,
    ts: TextStateVal,
    b: BuilderVal,
    parts: Seq<Object>,
) -> Result<BuilderVal, Error>
    decreases parts.len(),
{
    if parts.len() == 0 {
        Ok(b)
    } else {
        let step = match parts[0] {
            Object::String(s) => spec_flush_segment(fonts, ts, b, s@),
            Object::Real(x) => match spec_apply_adjustment(ts, b, x@) {
                Some(b2) => Ok(b2),
                None => Err(Error::NumericOverflow),
            },
            Object::Integer(i) => match spec_num_value(Object::Integer(i)) {
                Ok(v) => match spec_apply_adjustment(ts, b, v) {
                    Some(b2) => Ok(b2),
                    None => Err(Error::NumericOverflow),
                },
                Err(e) => Err(e),
            },
            _ => Ok(b),
        };
        match step {
            Ok(b2) => spec_tj_fold(fonts, ts, b2, parts.skip(1)),
            Err(e) => Err(e),
        }
    }
}

/// What a showing operator does.  Show flushes its string; show-next-line
/// moves to the next line first; show-with-spacing sets word and character
/// spacing from its first two operands first; show-array walks its array.
/// Other operators change nothing here.
pub open spec fn spec_show_apply(
    fonts: Map<Seq<u8>, FontVal>,
    ts: TextStateVal,
    b: BuilderVal,
    op: Operation,
) -> Result<(TextStateVal, BuilderVal), Error> {
    let args = op.operands@;
    if op.operator@ == "Tj"@ {
        if args.len() < 1 {
            Err(Error::MalformedOperand)
        } else {
            match args[0] {
                Object::String(s) => match spec_flush_segment(fonts, ts, b, s@) {
                    Ok(b2) => Ok((ts, b2)),
                    Err(e) => Err(e),
                },
                _ => Err(Error::MalformedOperand),
            }
        }
    } else if op.operator@ == "'"@ {
        if args.len() < 1 {
            Err(Error::MalformedOperand)
        } else {
            match args[0] {
                Object::String(s) => match spec_apply_translation(b, 0, ts.text_leading) {
                    Some(b2) => match spec_flush_segment(fonts, ts, b2, s@) {
                        Ok(b3) => Ok((ts, b3)),
                        Err(e) => Err(e),
                    },
                    None => Err(Error::NumericOverflow),
                },
                _ => Err(Error::MalformedOperand),
            }
        }
    } else if op.operator@ == "\""@ {
        if args.len() < 3 {
            Err(Error::MalformedOperand)
        } else {
            match (spec_num_value(args[0]), spec_num_value(args[1])) {
                (Ok(word_spacing), Ok(char_spacing)) => match args[2] {
                    Object::String(s) => {
                        let ts2 = TextStateVal { word_spacing, char_spacing, ..ts };
                        match spec_apply_translation(b, 0, ts2.text_leading) {
                            Some(b2) => match spec_flush_segment(fonts, ts2, b2, s@) {
                                Ok(b3) => Ok((ts2, b3)),
                                Err(e) => Err(e),
                            },
                            None => Err(Error::NumericOverflow),
                        }
                    },
                    _ => Err(Error::MalformedOperand),
                },
                (Err(e), _) => Err(e),
                (_, Err(e)) => Err(e),
            }
        }
    } else if op.operator@ == "TJ"@ {
        if args.len() < 1 {
            Err(Error::MalformedOperand)
        } else {
            match args[0] {
                Object::Array(parts) => match spec_tj_fold(fonts, ts, b, parts@) {
                    Ok(b2) => Ok((ts, b2)),
                    Err(e) => Err(e),
                },
                _ => Err(Error::MalformedOperand),
            }
        }
    } else {
        Ok((ts, b))
    }
}

/// Whether a token is a positioning operator.
pub open spec fn spec_is_position_op(operator: Seq<char>) -> bool {
    ||| operator == "Td"@
    ||| operator == "TD"@
    ||| operator == "Tm"@
    ||| operator == "T*"@
}

/// Whether a token is a showing operator.
pub open spec fn spec_is_show_op(operator: Seq<char>) -> bool {
    ||| operator == "Tj"@
    ||| operator == "'"@
    ||| operator == "\""@
    ||| operator == "TJ"@
}

/// What an operator does inside a text object: positioning operators move
/// the matrices, showing operators flush fragments, anything else changes
/// nothing here.
pub open spec fn spec_builder_apply(
    fonts: Map<Seq<u8>, FontVal>,
    ts: TextStateVal,
    b: BuilderVal,
    op: Operation,
) -> Result<(TextStateVal, BuilderVal), Error> {
    if spec_is_position_op(op.operator@) {
        spec_position_apply(ts, b, op)
    } else if spec_is_show_op(op.operator@) {
        spec_show_apply(fonts, ts, b, op)
    } else {
        Ok((ts, b))
    }
}

impl TextObjectBuilder {
    /// A builder for a text object that just began: both matrices at the
    /// identity.
    pub fn new() -> (r: TextObjectBuilder)
        ensures
            r@ == spec_builder_new(),
    {
        let r = TextObjectBuilder {
            text_matrix: Matrix::identity(),
            text_line_matrix: Matrix::identity(),
            fragments: Vec::new(),
        };
        proof {
            assert(r@.fragments =~= spec_builder_new().fragments);
        }
        r
    }

    /// Pre-multiplies a translation onto the line matrix and copies it into
    /// the text matrix.
    fn apply_translation(&mut self, x: Fix, y: Fix) -> (r: Result<(), Error>)
        ensures
            r is Ok <==> spec_apply_translation(old(self)@, x@, y@) is Some,
            r is Ok ==> final(self)@ == spec_apply_translation(old(self)@, x@, y@)->0,
            r is Err ==> r->Err_0 == Error::NumericOverflow,
    {
        match self.text_line_matrix.translate_pre(x, y) {
            Some(m) => {
                self.text_matrix = m;
                self.text_line_matrix = m;
                Ok(())
            },
            None => Err(Error::NumericOverflow),
        }
    }

    /// Displaces the text matrix left by the adjustment a show-array number
    /// calls for.
    fn apply_adjustment(&mut self, text_state: &TextState, adjustment: Fix) -> (r: Result<
        (),
        Error,
    >)
        ensures
            r is Ok <==> spec_apply_adjustment(text_state@, old(self)@, adjustment@) is Some,
            r is Ok ==> final(self)@ == spec_apply_adjustment(text_state@, old(self)@, adjustment@)->0,
            r is Err ==> r->Err_0 == Error::NumericOverflow,
    {
        let scaled = adjustment.div_by(FIX_SCALE);
        let tx = match scaled.mul(text_state.text_font_size) {
            Some(v) => match v.mul(text_state.horizontal_scaling) {
                Some(tx) => tx,
                None => {
                    return Err(Error::NumericOverflow);
                },
            },
            None => {
                return Err(Error::NumericOverflow);
            },
        };
        match self.text_matrix.translate_pre(tx.neg(), Fix::zero()) {
            Some(m) => {
                self.text_matrix = m;
                Ok(())
            },
            None => Err(Error::NumericOverflow),
        }
    }

    /// Flushes one shown string as a fragment: resolves the active font,
    /// snapshots the text matrix, places each character and advances the
    /// matrix by its displacement.  On an error the builder is unchanged.
    #[verifier::loop_isolation(false)]
    fn flush_segment(&mut self, text_state: &TextState, font_map: &FontMap, chars: &[u8]) -> (r:
        Result<(), Error>)
        ensures
            r is Ok <==> spec_flush_segment(font_map@, text_state@, old(self)@, chars@) is Ok,
            r is Ok ==> final(self)@ == spec_flush_segment(
                font_map@,
                text_state@,
                old(self)@,
                chars@,
            )->Ok_0,
            r is Err ==> final(self)@ == old(self)@ && r->Err_0 == spec_flush_segment(
                font_map@,
                text_state@,
                old(self)@,
                chars@,
            )->Err_0,
    {
        let font = match font_map.get(text_state.text_font.as_slice()) {
            Some(font) => font,
            None => {
                return Err(Error::UnresolvedFontResource);
            },
        };
        let transform = self.text_matrix;
        let mut glyphs: Vec<TextGlyph> = Vec::new();
        let mut tm = self.text_matrix;
        let mut i: usize = 0;
        proof {
            assert(chars@.skip(0) =~= chars@);
            assert(glyphs_view(glyphs@) =~= Seq::<GlyphVal>::empty());
        }
        while i < chars.len()
            invariant
                i <= chars@.len(),
                match spec_flush_glyphs(font@, text_state@, tm@, chars@.skip(i as int)) {
                    Some((rest, tmf)) => spec_flush_glyphs(
                        font@,
                        text_state@,
                        old(self)@.text_matrix,
                        chars@,
                    ) == Some((glyphs_view(glyphs@) + rest, tmf)),
                    None => spec_flush_glyphs(
                        font@,
                        text_state@,
                        old(self)@.text_matrix,
                        chars@,
                    ) is None,
                },
            decreases chars@.len() - i,
        {
            proof {
                assert(chars@.skip(i as int)[0] == chars@[i as int]);
                assert(chars@.skip(i as int).skip(1) =~= chars@.skip(i as int + 1));
            }
            let c = chars[i];
            let identity = match font.decode_char(c) {
                Some(name) => GlyphIdentity::Named(name.duplicate()),
                None => GlyphIdentity::Code(c),
            };
            let w0 = font.width_for_char(c);
            let tx = {
                let t1 = match w0.mul(text_state.text_font_size) {
                    Some(v) => v,
                    None => {
                        return Err(Error::NumericOverflow);
                    },
                };
                let t2 = match t1.add(text_state.char_spacing) {
                    Some(v) => v,
                    None => {
                        return Err(Error::NumericOverflow);
                    },
                };
                let t3 = match t2.add(text_state.word_spacing) {
                    Some(v) => v,
                    None => {
                        return Err(Error::NumericOverflow);
                    },
                };
                match t3.mul(text_state.horizontal_scaling) {
                    Some(v) => v,
                    None => {
                        return Err(Error::NumericOverflow);
                    },
                }
            };
            let ghost tm_before = tm@;
            let origin = tm.origin();
            let ghost glyphs_before = glyphs_view(glyphs@);
            glyphs.push(TextGlyph { identity, origin, advance: tx });
            tm = match tm.translate_pre(tx, Fix::zero()) {
                Some(m) => m,
                None => {
                    return Err(Error::NumericOverflow);
                },
            };
            proof {
                let step = spec_glyph_step(font@, text_state@, tm_before, c);
                assert(step is Some);
                assert(glyphs_view(glyphs@) =~= glyphs_before + seq![(step->0).0]);
                let rest = spec_flush_glyphs(font@, text_state@, tm@, chars@.skip(i as int + 1));
                assert((glyphs_before + seq![(step->0).0]) + (rest->0).0 =~= glyphs_before + (seq![
                    (step->0).0,
                ] + (rest->0).0));
            }
            i += 1;
        }
        proof {
            assert(chars@.skip(chars@.len() as int) =~= Seq::<u8>::empty());
            assert(glyphs_view(glyphs@) + Seq::<GlyphVal>::empty() =~= glyphs_view(glyphs@));
        }
        let fragment = TextFragment {
            transform,
            font_name: crate::object::clone_bytes(&text_state.text_font),
            font_size: text_state.text_font_size,
            line_height: text_state.text_leading,
            glyphs,
        };
        let ghost frags_before = fragments_view(self.fragments@);
        self.text_matrix = tm;
        self.fragments.push(fragment);
        proof {
            assert(fragments_view(self.fragments@) =~= frags_before.push(fragment@));
        }
        Ok(())
    }

    /// Applies one operator inside the text object: positioning operators
    /// move the matrices, showing operators flush fragments, anything else
    /// changes nothing.
    pub fn handle_operation(
        &mut self,
        state: &mut TextState,
        font_map: &FontMap,
        op: &Operation,
    ) -> (r: Result<(), Error>)
        ensures
            r is Ok <==> spec_builder_apply(font_map@, old(state)@, old(self)@, *op) is Ok,
            r is Ok ==> (final(state)@, final(self)@) == spec_builder_apply(
                font_map@,
                old(state)@,
                old(self)@,
                *op,
            )->Ok_0,
            r is Err ==> r->Err_0 == spec_builder_apply(
                font_map@,
                old(state)@,
                old(self)@,
                *op,
            )->Err_0,
    {
        if op_is(op, "Td") || op_is(op, "TD") || op_is(op, "Tm") || op_is(op, "T*") {
            self.handle_text_position_operation(state, op)
        } else if op_is(op, "Tj") || op_is(op, "'") || op_is(op, "\"") || op_is(op, "TJ") {
            self.handle_text_show_operation(state, font_map, op)
        } else {
            Ok(())
        }
    }

    /// Applies one positioning operator.
    #[verifier::rlimit(80)]
    fn handle_text_position_operation(&mut self, state: &mut TextState, op: &Operation) -> (r:
        Result<(), Error>)
        ensures
            r is Ok <==> spec_position_apply(old(state)@, old(self)@, *op) is Ok,
            r is Ok ==> (final(state)@, final(self)@) == spec_position_apply(old(state)@, old(self)@, *op)->Ok_0,
            r is Err ==> r->Err_0 == spec_position_apply(old(state)@, old(self)@, *op)->Err_0,
    {
        if op_is(op, "Td") {
            if op.operands.len() < 2 {
                return Err(Error::MalformedOperand);
            }
            let x = match num_value(&op.operands[0]) {
                Ok(v) => v,
                Err(e) => {
                    return Err(e);
                },
            };
            let y = match num_value(&op.operands[1]) {
                Ok(v) => v,
                Err(e) => {
                    return Err(e);
                },
            };
            self.apply_translation(x, y)
        } else if op_is(op, "TD") {
            if op.operands.len() < 2 {
                return Err(Error::MalformedOperand);
            }
            let x = match num_value(&op.operands[0]) {
                Ok(v) => v,
                Err(e) => {
                    return Err(e);
                },
            };
            let y = match num_value(&op.operands[1]) {
                Ok(v) => v,
                Err(e) => {
                    return Err(e);
                },
            };
            match self.apply_translation(x, y) {
                Ok(()) => {
                    state.text_leading = y.neg();
                    Ok(())
                },
                Err(e) => Err(e),
            }
        } else if op_is(op, "Tm") {
            if op.operands.len() < 6 {
                return Err(Error::MalformedOperand);
            }
            let a = match num_value(&op.operands[0]) {
                Ok(v) => v,
                Err(e) => {
                    return Err(e);
                },
            };
            let b = match num_value(&op.operands[1]) {
                Ok(v) => v,
                Err(e) => {
                    return Err(e);
                },
            };
            let c = match num_value(&op.operands[2]) {
                Ok(v) => v,
                Err(e) => {
                    return Err(e);
                },
            };
            let d = match num_value(&op.operands[3]) {
                Ok(v) => v,
                Err(e) => {
                    return Err(e);
                },
            };
            let e = match num_value(&op.operands[4]) {
                Ok(v) => v,
                Err(e) => {
                    return Err(e);
                },
            };
            let f = match num_value(&op.operands[5]) {
                Ok(v) => v,
                Err(e) => {
                    return Err(e);
                },
            };
            let m = Matrix::from_row_major(a, b, c, d, e, f);
            self.text_matrix = m;
            self.text_line_matrix = m;
            Ok(())
        } else if op_is(op, "T*") {
            self.apply_translation(Fix::zero(), state.text_leading)
        } else {
            Ok(())
        }
    }

    /// Applies one showing operator.
    #[verifier::loop_isolation(false)]
    #[verifier::rlimit(80)]
    fn handle_text_show_operation(
        &mut self,
        state: &mut TextState,
        font_map: &FontMap,
        op: &Operation,
    ) -> (r: Result<(), Error>)
        ensures
            r is Ok <==> spec_show_apply(font_map@, old(state)@, old(self)@, *op) is Ok,
            r is Ok ==> (final(state)@, final(self)@) == spec_show_apply(
                font_map@,
                old(state)@,
                old(self)@,
                *op,
            )->Ok_0,
            r is Err ==> r->Err_0 == spec_show_apply(
                font_map@,
                old(state)@,
                old(self)@,
                *op,
            )->Err_0,
    {
        if op_is(op, "Tj") {
            if op.operands.len() < 1 {
                return Err(Error::MalformedOperand);
            }
            match &op.operands[0] {
                Object::String(s) => self.flush_segment(state, font_map, s.as_slice()),
                _ => Err(Error::MalformedOperand),
            }
        } else if op_is(op, "'") {
            if op.operands.len() < 1 {
                return Err(Error::MalformedOperand);
            }
            match &op.operands[0] {
                Object::String(s) => {
                    let leading = state.text_leading;
                    match self.apply_translation(Fix::zero(), leading) {
                        Ok(()) => self.flush_segment(state, font_map, s.as_slice()),
                        Err(e) => Err(e),
                    }
                },
                _ => Err(Error::MalformedOperand),
            }
        } else if op_is(op, "\"") {
            if op.operands.len() < 3 {
                return Err(Error::MalformedOperand);
            }
            let word_spacing = match num_value(&op.operands[0]) {
                Ok(v) => v,
                Err(e) => {
                    return Err(e);
                },
            };
            let char_spacing = match num_value(&op.operands[1]) {
                Ok(v) => v,
                Err(e) => {
                    return Err(e);
                },
            };
            match &op.operands[2] {
                Object::String(s) => {
                    state.word_spacing = word_spacing;
                    state.char_spacing = char_spacing;
                    let leading = state.text_leading;
                    match self.apply_translation(Fix::zero(), leading) {
                        Ok(()) => self.flush_segment(state, font_map, s.as_slice()),
                        Err(e) => Err(e),
                    }
                },
                _ => Err(Error::MalformedOperand),
            }
        } else if op_is(op, "TJ") {
            if op.operands.len() < 1 {
                return Err(Error::MalformedOperand);
            }
            let parts = match &op.operands[0] {
                Object::Array(parts) => parts,
                _ => {
                    return Err(Error::MalformedOperand);
                },
            };
            let mut i: usize = 0;
            proof {
                assert(parts@.skip(0) =~= parts@);
            }
            while i < parts.len()
                invariant
                    i <= parts@.len(),
                    spec_tj_fold(font_map@, state@, old(self)@, parts@) == spec_tj_fold(
                        font_map@,
                        state@,
                        self@,
                        parts@.skip(i as int),
                    ),
                    state@ == old(state)@,
                decreases parts@.len() - i,
            {
                proof {
                    assert(parts@.skip(i as int)[0] == parts@[i as int]);
                    assert(parts@.skip(i as int).skip(1) =~= parts@.skip(i as int + 1));
                }
                match &parts[i] {
                    Object::String(s) => {
                        match self.flush_segment(state, font_map, s.as_slice()) {
                            Ok(()) => {},
                            Err(e) => {
                                return Err(e);
                            },
                        }
                    },
                    Object::Real(x) => {
                        match self.apply_adjustment(state, *x) {
                            Ok(()) => {},
                            Err(e) => {
                                return Err(e);
                            },
                        }
                    },
                    Object::Integer(_) => {
                        let v = match num_value(&parts[i]) {
                            Ok(v) => v,
                            Err(e) => {
                                return Err(e);
                            },
                        };
                        match self.apply_adjustment(state, v) {
                            Ok(()) => {},
                            Err(e) => {
                                return Err(e);
                            },
                        }
                    },
                    _ => {},
                }
                i += 1;
            }
            Ok(())
        } else {
            Ok(())
        }
    }

    /// Finishes the text object: the fragments accumulated so far, in
    /// order.
    pub fn build(self) -> (r: TextObject)
        ensures
            r@ == self@.fragments,
    {
        TextObject { fragments: self.fragments }
    }
}

} // verus!
