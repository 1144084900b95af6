//! Per-font static data: code range, width table, glyph data and encoding.
//!
//! A font is built once per page from its resource dictionary entries and
//! the bytes of its embedded font program, both already reference-resolved.
//! Building is strict about the data it needs — code range, widths, glyph
//! data, a readable encoding — but the page's font map is lenient: a font
//! that fails to build is dropped from the map rather than failing the
//! page.

use vstd::prelude::*;

use crate::encoding::{spec_encoding_build, spec_encoding_lookup, Encoding, EncodingVal, GlyphName};
use crate::errors::BuildError;
use crate::fixnum::{trunc_div, Fix, FIX_SCALE};
use crate::object::{bytes_eq, dict_get, spec_dict_get, spec_num_value, Object};

verus! {

use vstd::string::StringSliceAdditionalSpecFns;

/// The font families this engine implements: only the single-byte simple
/// fonts.
#[derive(Clone, Copy, Debug, PartialEq, Eq, Structural)]
pub enum Subtype {
    Type1,
}

/// The mathematical value of a font: its code range, width table in
/// thousandths, program bytes and encoding.
pub ghost struct FontVal {
    pub first_char: int,
    pub last_char: int,
    pub widths: Seq<int>,
    pub data: Seq<u8>,
    pub subtype: Subtype,
    pub encoding: Option<EncodingVal>,
}

/// A page's font: static data built once from its resource dictionary.
#[derive(Debug)]
pub struct Font {
    first_char: i64,
    last_char: i64,
    widths: Vec<Fix>,
    data: Vec<u8>,
    subtype: Subtype,
    encoding: Option<Encoding>,
}

impl View for Font {
    type V = FontVal;

    closed spec fn view(&self) -> FontVal {
        FontVal {
            first_char: self.first_char as int,
            last_char: self.last_char as int,
            widths: self.widths@.map_values(|w: Fix| w@),
            data: self.data@,
            subtype: self.subtype,
            encoding: match self.encoding {
                Some(e) => Some(e@),
                None => None,
            },
        }
    }
}

/// The width a font gives a character code, in thousandths of a unit: the
/// table entry scaled down by the thousand the table is expressed in.  A
/// code outside the font's range, or one whose entry the table does not
/// hold, advances nothing.
pub open spec fn spec_width_for_char(f: FontVal, c: u8) -> int {
    if (c as int) < f.first_char || (c as int) > f.last_char {
        0
    } else if (c as int) - f.first_char < f.widths.len() {
        trunc_div(f.widths[(c as int) - f.first_char], FIX_SCALE as int)
    } else {
        0
    }
}

/// The glyph name a font's encoding gives a code; an absent encoding is the
/// identity: no code has a name and each stands for itself.
pub open spec fn spec_decode_char(f: FontVal, c: u8) -> Option<Seq<u8>> {
    match f.encoding {
        Some(e) => spec_encoding_lookup(e, c),
        None => None,
    }
}

/// Whether every element of a widths array reads as a number.
pub open spec fn spec_widths_ok(elements: Seq<Object>) -> bool {
    forall|i: int| 0 <= i < elements.len() ==> spec_num_value(#[trigger] elements[i]) is Ok
}

/// The numeric values of a widths array, in thousandths.
pub open spec fn spec_widths_vals(elements: Seq<Object>) -> Seq<int> {
    elements.map_values(|o: Object| spec_num_value(o)->Ok_0)
}

/// The view of optional program bytes.
pub open spec fn spec_opt_bytes(p: Option<Vec<u8>>) -> Option<Seq<u8>> {
    match p {
        Some(b) => Some(b@),
        None => None,
    }
}

/// What building a font from its dictionary entries and program bytes
/// yields.  The subtype must be the implemented family, the encoding entry
/// must read as an encoding, the program bytes must be present, and the
/// code range and widths must be integers and an array of numbers.
pub open spec fn spec_font_build(dict: Seq<(Vec<u8>, Object)>, program: Option<Seq<u8>>) -> Result<
    FontVal,
    BuildError,
> {
    match spec_dict_get(dict, "Subtype".spec_bytes()) {
        None => Err(BuildError::MalformedEntry),
        Some(st) => match st {
            Object::Name(n) => if n@ == "Type1".spec_bytes() {
                let enc = match spec_dict_get(dict, "Encoding".spec_bytes()) {
                    None => Ok(None),
                    Some(eo) => match spec_encoding_build(eo) {
                        Ok(e) => Ok(Some(e)),
                        Err(e) => Err(e),
                    },
                };
                match enc {
                    Err(e) => Err(e),
                    Ok(enc) => match program {
                        None => Err(BuildError::MissingGlyphData),
                        Some(data) => match spec_dict_get(dict, "FirstChar".spec_bytes()) {
                            Some(Object::Integer(fc)) => match spec_dict_get(
                                dict,
                                "LastChar".spec_bytes(),
                            ) {
                                Some(Object::Integer(lc)) => match spec_dict_get(
                                    dict,
                                    "Widths".spec_bytes(),
                                ) {
                                    Some(Object::Array(ws)) => if spec_widths_ok(ws@) {
                                        Ok(
                                            FontVal {
                                                first_char: fc as int,
                                                last_char: lc as int,
                                                widths: spec_widths_vals(ws@),
                                                data,
                                                subtype: Subtype::Type1,
                                                encoding: enc,
                                            },
                                        )
                                    } else {
                                        Err(BuildError::MalformedEntry)
                                    },
                                    _ => Err(BuildError::MalformedEntry),
                                },
                                _ => Err(BuildError::MalformedEntry),
                            },
                            _ => Err(BuildError::MalformedEntry),
                        },
                    },
                }
            } else {
                Err(BuildError::UnsupportedSubtype)
            },
            _ => Err(BuildError::MalformedEntry),
        },
    }
}

impl Font {
    /// Builds a font from its resource dictionary entries and the bytes of
    /// its embedded font program.
    #[verifier::loop_isolation(false)]
    pub fn try_from_dictionary(
        dict: &Vec<(Vec<u8>, Object)>,
        font_program: Option<Vec<u8>>,
    ) -> (r: Result<Font, BuildError>)
        ensures
            r is Ok <==> spec_font_build(dict@, spec_opt_bytes(font_program)) is Ok,
            r is Ok ==> r->Ok_0@ == spec_font_build(dict@, spec_opt_bytes(font_program))->Ok_0,
            r is Err ==> r->Err_0 == spec_font_build(dict@, spec_opt_bytes(font_program))->Err_0,
    {
        let subtype = match dict_get(dict, "Subtype".as_bytes()) {
            Some(Object::Name(n)) => {
                if bytes_eq(n.as_slice(), "Type1".as_bytes()) {
                    Subtype::Type1
                } else {
                    return Err(BuildError::UnsupportedSubtype);
                }
            },
            Some(_) => {
                return Err(BuildError::MalformedEntry);
            },
            None => {
                return Err(BuildError::MalformedEntry);
            },
        };
        let encoding = match dict_get(dict, "Encoding".as_bytes()) {
            Some(eo) => match Encoding::try_from_object(eo) {
                Ok(e) => Some(e),
                Err(e) => {
                    return Err(e);
                },
            },
            None => None,
        };
        let data = match font_program {
            Some(data) => data,
            None => {
                return Err(BuildError::MissingGlyphData);
            },
        };
        let first_char = match dict_get(dict, "FirstChar".as_bytes()) {
            Some(Object::Integer(fc)) => *fc,
            _ => {
                return Err(BuildError::MalformedEntry);
            },
        };
        let last_char = match dict_get(dict, "LastChar".as_bytes()) {
            Some(Object::Integer(lc)) => *lc,
            _ => {
                return Err(BuildError::MalformedEntry);
            },
        };
        let width_objects = match dict_get(dict, "Widths".as_bytes()) {
            Some(Object::Array(ws)) => ws,
            _ => {
                return Err(BuildError::MalformedEntry);
            },
        };
        let mut widths: Vec<Fix> = Vec::new();
        let mut i: usize = 0;
        while i < width_objects.len()
            invariant
                i <= width_objects@.len(),
                widths@.len() == i,
                forall|j: int|
                    0 <= j < i ==> spec_num_value(#[trigger] width_objects@[j]) is Ok,
                forall|j: int|
                    0 <= j < i ==> widths@[j]@ == spec_num_value(#[trigger] width_objects@[j])->Ok_0,
            decreases width_objects@.len() - i,
        {
            match crate::object::num_value(&width_objects[i]) {
                Ok(w) => {
                    widths.push(w);
                },
                Err(_) => {
                    proof {
                        assert(!spec_widths_ok(width_objects@)) by {
                            assert(spec_num_value(width_objects@[i as int]) is Err);
                        }
                    }
                    return Err(BuildError::MalformedEntry);
                },
            }
            i += 1;
        }
        let r = Font { first_char, last_char, widths, data, subtype, encoding };
        proof {
            assert(r@.widths =~= spec_widths_vals(width_objects@));
        }
        Ok(r)
    }

    /// The bytes of the embedded font program.
    pub fn data(&self) -> (r: &[u8])
        ensures
            r@ == self@.data,
    {
        self.data.as_slice()
    }

    /// The glyph name this font's encoding gives a code; no name means the
    /// code stands for itself.
    pub fn decode_char(&self, c: u8) -> (r: Option<&GlyphName>)
        ensures
            r is Some <==> spec_decode_char(self@, c) is Some,
            r is Some ==> Some(r->0@) == spec_decode_char(self@, c),
    {
        if let Some(encoding) = &self.encoding {
            encoding.lookup(c)
        } else {
            None
        }
    }

    /// The width this font gives a character code, scaled down by the
    /// thousand the width table is expressed in.  A code outside
    /// `[FirstChar, LastChar]`, or one whose entry the table does not hold,
    /// advances nothing: out of range is not an error.
    pub fn width_for_char(&self, c: u8) -> (r: Fix)
        ensures
            r@ == spec_width_for_char(self@, c),
    {
        if (c as i64) < self.first_char || (c as i64) > self.last_char {
            return Fix::zero();
        }
        let index: i128 = (c as i128) - (self.first_char as i128);
        if index >= self.widths.len() as i128 {
            return Fix::zero();
        }
        let w = self.widths[index as usize];
        w.div_by(FIX_SCALE)
    }
}

/// The mapping an association list of fonts holds, later entries winning.
pub open spec fn font_assoc_view(s: Seq<(Vec<u8>, Font)>) -> Map<Seq<u8>, FontVal>
    decreases s.len(),
{
    if s.len() == 0 {
        Map::empty()
    } else {
        font_assoc_view(s.drop_last()).insert(s.last().0@, s.last().1@)
    }
}

/// Entries at or past `i` whose name differs do not change what the list
/// holds for a name.
proof fn lemma_font_assoc_suffix(s: Seq<(Vec<u8>, Font)>, k: Seq<u8>, i: int)
    requires
        0 <= i <= s.len(),
        forall|j: int| i <= j < s.len() ==> (#[trigger] s[j]).0@ != k,
    ensures
        font_assoc_view(s).contains_key(k) == font_assoc_view(s.take(i)).contains_key(k),
        font_assoc_view(s).contains_key(k) ==> font_assoc_view(s)[k] == font_assoc_view(
            s.take(i),
        )[k],
    decreases s.len() - i,
{
    if i == s.len() {
        assert(s.take(i) =~= s);
    } else {
        assert(s.drop_last().take(i) =~= s.take(i));
        lemma_font_assoc_suffix(s.drop_last(), k, i);
    }
}

/// One font resource of a page: its name, its dictionary entries, and the
/// bytes of its embedded font program, all reference-resolved.
#[derive(Debug)]
pub struct FontResource {
    pub name: Vec<u8>,
    pub dictionary: Vec<(Vec<u8>, Object)>,
    pub font_program: Option<Vec<u8>>,
}

/// The font map a sequence of resources yields: resources whose font fails
/// to build are dropped, and a later resource of the same name wins.
pub open spec fn spec_font_map_fold(
    m: Map<Seq<u8>, FontVal>,
    resources: Seq<FontResource>,
) -> Map<Seq<u8>, FontVal>
    decreases resources.len(),
{
    if resources.len() == 0 {
        m
    } else {
        let r = resources[0];
        let m2 = match spec_font_build(r.dictionary@, spec_opt_bytes(r.font_program)) {
            Ok(f) => m.insert(r.name@, f),
            Err(_) => m,
        };
        spec_font_map_fold(m2, resources.skip(1))
    }
}

/// The font map a page's resources describe.
pub open spec fn spec_font_map(resources: Seq<FontResource>) -> Map<Seq<u8>, FontVal> {
    spec_font_map_fold(Map::empty(), resources)
}

/// The fonts a page declares, keyed by resource name.
#[derive(Debug)]
pub struct FontMap {
    map: Vec<(Vec<u8>, Font)>,
}

impl View for FontMap {
    type V = Map<Seq<u8>, FontVal>;

    closed spec fn view(&self) -> Map<Seq<u8>, FontVal> {
        font_assoc_view(self.map@)
    }
}

impl FontMap {
    /// Builds the page's font map from its font resources, dropping every
    /// resource whose font fails to build.
    pub fn try_from_page_fonts(page_fonts: Vec<FontResource>) -> (r: FontMap)
        ensures
            r@ == spec_font_map(page_fonts@),
    {
        let ghost given = page_fonts@;
        let mut map: Vec<(Vec<u8>, Font)> = Vec::new();
        let mut i: usize = 0;
        let rest = page_fonts;
        proof {
            assert(rest@.skip(0) =~= rest@);
            assert(font_assoc_view(map@) =~= Map::<Seq<u8>, FontVal>::empty());
        }
        while i < rest.len()
            invariant
                i <= rest@.len(),
                spec_font_map(rest@) == spec_font_map_fold(
                    font_assoc_view(map@),
                    rest@.skip(i as int),
                ),
            decreases rest@.len() - i,
        {
            proof {
                assert(rest@.skip(i as int)[0] == rest@[i as int]);
                assert(rest@.skip(i as int).skip(1) =~= rest@.skip(i as int + 1));
            }
            let resource = &rest[i];
            match Font::try_from_dictionary(
                &resource.dictionary,
                clone_opt_bytes(&resource.font_program),
            ) {
                Ok(font) => {
                    let name = crate::object::clone_bytes(&resource.name);
                    let ghost pre = map@;
                    map.push((name, font));
                    proof {
                        assert(map@.drop_last() =~= pre);
                    }
                },
                Err(_) => {},
            }
            i += 1;
        }
        FontMap { map }
    }

    /// The font a resource name declares, if any.
    pub fn get(&self, name: &[u8]) -> (r: Option<&Font>)
        ensures
            r is Some <==> self@.contains_key(name@),
            r is Some ==> r->0@ == self@[name@],
    {
        let mut i: usize = self.map.len();
        while i > 0
            invariant
                i <= self.map@.len(),
                forall|j: int|
                    i <= j < self.map@.len() ==> (#[trigger] self.map@[j]).0@ != name@,
            decreases i,
        {
            i -= 1;
            if bytes_eq(self.map[i].0.as_slice(), name) {
                proof {
                    lemma_font_assoc_suffix(self.map@, name@, i as int + 1);
                    let front = self.map@.take(i as int + 1);
                    assert(front.drop_last() =~= self.map@.take(i as int));
                    assert(front.last() == self.map@[i as int]);
                }
                return Some(&self.map[i].1);
            }
        }
        proof {
            lemma_font_assoc_suffix(self.map@, name@, 0);
            assert(self.map@.take(0) =~= Seq::<(Vec<u8>, Font)>::empty());
        }
        None
    }
}

/// An owned copy of optional program bytes.
fn clone_opt_bytes(p: &Option<Vec<u8>>) -> (r: Option<Vec<u8>>)
    ensures
        spec_opt_bytes(r) == spec_opt_bytes(*p),
{
    match p {
        Some(b) => Some(crate::object::clone_bytes(b)),
        None => None,
    }
}

} // verus!
