//! A character-level reading of a font's encoding.
//!
//! Where the byte-level encoding of `encoding` answers with glyph names,
//! this variant resolves each difference entry to its character already at
//! construction time and translates a code straight to a character, falling
//! back on the code itself read as a code point.  Predefined base tables
//! are deliberately not consulted here either.

use vstd::prelude::*;

use crate::errors::BuildError;
use crate::glyph_names::spec_glyph_char;
use crate::object::{dict_get, spec_dict_get, Object};

verus! {

use vstd::string::StringSliceAdditionalSpecFns;

pub use crate::encoding::PredefinedEncoding;

/// The mapping an association list holds, later entries winning.
pub open spec fn assoc_view(s: Seq<(u32, char)>) -> Map<u32, char>
    decreases s.len(),
{
    if s.len() == 0 {
        Map::empty()
    } else {
        assoc_view(s.drop_last()).insert(s.last().0, s.last().1)
    }
}

/// Entries at or past `i` whose key is not `k` do not change what the list
/// holds for `k`.
proof fn lemma_assoc_view_suffix(s: Seq<(u32, char)>, k: u32, i: int)
    requires
        0 <= i <= s.len(),
        forall|j: int| i <= j < s.len() ==> (#[trigger] s[j]).0 != k,
    ensures
        assoc_view(s).contains_key(k) == assoc_view(s.take(i)).contains_key(k),
        assoc_view(s).contains_key(k) ==> assoc_view(s)[k] == assoc_view(s.take(i))[k],
    decreases s.len() - i,
{
    if i == s.len() {
        assert(s.take(i) =~= s);
    } else {
        assert(s.drop_last().take(i) =~= s.take(i));
        lemma_assoc_view_suffix(s.drop_last(), k, i);
    }
}

/// One step of reading a character-level differences array: an integer
/// resets the running code (wrapping to 32 bits as a cast does), a name
/// claims the running code with the character the name stands for and
/// advances the running code by one, anything else changes nothing.
pub open spec fn spec_chars_step(
    table: Map<u32, char>,
    index: u32,
    element: Object,
) -> (Map<u32, char>, u32) {
    match element {
        Object::Integer(i) => (table, i as u32),
        Object::Name(n) => (
            table.insert(index, spec_glyph_char(n@)),
            if index == u32::MAX {
                0u32
            } else {
                (index + 1) as u32
            },
        ),
        _ => (table, index),
    }
}

/// Reading a whole character-level differences array left to right.
pub open spec fn spec_chars_fold(
    table: Map<u32, char>,
    index: u32,
    elements: Seq<Object>,
) -> Map<u32, char>
    decreases elements.len(),
{
    if elements.len() == 0 {
        table
    } else {
        let (t2, i2) = spec_chars_step(table, index, elements[0]);
        spec_chars_fold(t2, i2, elements.skip(1))
    }
}

/// The character table a differences array describes.
pub open spec fn spec_chars_of_array(elements: Seq<Object>) -> Map<u32, char> {
    spec_chars_fold(Map::empty(), 0u32, elements)
}

/// An encoding dictionary whose differences already carry characters.
#[derive(Debug)]
pub struct EncodingDictionary {
    pub base: Option<PredefinedEncoding>,
    differences: Vec<(u32, char)>,
}

impl View for EncodingDictionary {
    type V = (Option<PredefinedEncoding>, Map<u32, char>);

    closed spec fn view(&self) -> (Option<PredefinedEncoding>, Map<u32, char>) {
        (self.base, assoc_view(self.differences@))
    }
}

/// What building a character-level encoding dictionary from its entries
/// yields.
pub open spec fn spec_chars_dict_build(entries: Seq<(Vec<u8>, Object)>) -> Result<
    (Option<PredefinedEncoding>, Map<u32, char>),
    BuildError,
> {
    let base = match spec_dict_get(entries, "BaseEncoding".spec_bytes()) {
        Some(obj) => match crate::encoding::spec_predefined_build(obj) {
            Ok(p) => Ok(Some(p)),
            Err(e) => Err(e),
        },
        None => Ok(None),
    };
    match base {
        Err(e) => Err(e),
        Ok(base) => match spec_dict_get(entries, "Differences".spec_bytes()) {
            Some(obj) => match obj {
                Object::Array(elements) => Ok((base, spec_chars_of_array(elements@))),
                _ => Err(BuildError::MalformedEntry),
            },
            None => Ok((base, Map::empty())),
        },
    }
}

/// What building a character-level encoding dictionary from an arbitrary
/// object yields: anything but a dictionary is a build failure.
pub open spec fn spec_chars_dict_build_of(obj: Object) -> Result<
    (Option<PredefinedEncoding>, Map<u32, char>),
    BuildError,
> {
    match obj {
        Object::Dictionary(entries) => spec_chars_dict_build(entries@),
        _ => Err(BuildError::MalformedEntry),
    }
}

impl EncodingDictionary {
    /// Builds a character-level encoding dictionary from a dictionary
    /// object.
    pub fn try_from_object(obj: &Object) -> (r: Result<EncodingDictionary, BuildError>)
        ensures
            r is Ok <==> spec_chars_dict_build_of(*obj) is Ok,
            r is Ok ==> r->Ok_0@ == spec_chars_dict_build_of(*obj)->Ok_0,
            r is Err ==> r->Err_0 == spec_chars_dict_build_of(*obj)->Err_0,
    {
        let entries = match obj {
            Object::Dictionary(entries) => entries,
            _ => {
                return Err(BuildError::MalformedEntry);
            },
        };
        let mut base: Option<PredefinedEncoding> = None;
        if let Some(base_obj) = dict_get(entries, "BaseEncoding".as_bytes()) {
            match PredefinedEncoding::try_from_object(base_obj) {
                Ok(p) => {
                    base = Some(p);
                },
                Err(e) => {
                    return Err(e);
                },
            }
        }
        let mut differences: Vec<(u32, char)> = Vec::new();
        if let Some(diff_obj) = dict_get(entries, "Differences".as_bytes()) {
            match diff_obj {
                Object::Array(elements) => {
                    let mut index: u32 = 0;
                    let mut i: usize = 0;
                    proof {
                        assert(elements@.skip(0) =~= elements@);
                        assert(assoc_view(differences@) =~= Map::<u32, char>::empty());
                    }
                    while i < elements.len()
                        invariant
                            i <= elements@.len(),
                            spec_chars_of_array(elements@) == spec_chars_fold(
                                assoc_view(differences@),
                                index,
                                elements@.skip(i as int),
                            ),
                        decreases elements@.len() - i,
                    {
                        proof {
                            assert(elements@.skip(i as int)[0] == elements@[i as int]);
                            assert(elements@.skip(i as int).skip(1) =~= elements@.skip(
                                i as int + 1,
                            ));
                        }
                        match &elements[i] {
                            Object::Integer(code) => {
                                index = #[verifier::truncate] (*code as u32);
                            },
                            Object::Name(name) => {
                                let c = crate::glyph_names::glyph_name_to_char(name.as_slice());
                                let ghost pre = differences@;
                                differences.push((index, c));
                                proof {
                                    assert(differences@.drop_last() =~= pre);
                                    assert(assoc_view(differences@) == assoc_view(pre).insert(
                                        index,
                                        c,
                                    ));
                                }
                                index = if index == u32::MAX {
                                    0
                                } else {
                                    index + 1
                                };
                            },
                            _ => {},
                        }
                        i += 1;
                    }
                },
                _ => {
                    return Err(BuildError::MalformedEntry);
                },
            }
        }
        Ok(EncodingDictionary { base, differences })
    }

    /// The character the differences give a code, if any; the base encoding
    /// is deliberately never consulted.
    pub fn lookup(&self, char_code: u32) -> (r: Option<char>)
        ensures
            r is Some <==> self@.1.contains_key(char_code),
            r is Some ==> r->0 == self@.1[char_code],
    {
        let mut i: usize = self.differences.len();
        while i > 0
            invariant
                i <= self.differences@.len(),
                forall|j: int|
                    i <= j < self.differences@.len() ==> (#[trigger] self.differences@[j]).0
                        != char_code,
            decreases i,
        {
            i -= 1;
            if self.differences[i].0 == char_code {
                proof {
                    lemma_assoc_view_suffix(self.differences@, char_code, i as int + 1);
                    let front = self.differences@.take(i as int + 1);
                    assert(front.drop_last() =~= self.differences@.take(i as int));
                    assert(front.last() == self.differences@[i as int]);
                }
                return Some(self.differences[i].1);
            }
        }
        proof {
            lemma_assoc_view_suffix(self.differences@, char_code, 0);
            assert(self.differences@.take(0) =~= Seq::<(u32, char)>::empty());
        }
        None
    }
}

/// The mathematical value of a character-level encoding.
pub ghost enum Type1EncodingVal {
    Predefined(PredefinedEncoding),
    Dictionary(Option<PredefinedEncoding>, Map<u32, char>),
}

/// A character-level encoding: a predefined base encoding named directly,
/// or an encoding dictionary.
#[derive(Debug)]
pub enum Encoding {
    Predefined(PredefinedEncoding),
    Dictionary(EncodingDictionary),
}

impl View for Encoding {
    type V = Type1EncodingVal;

    open spec fn view(&self) -> Type1EncodingVal {
        match self {
            Encoding::Predefined(p) => Type1EncodingVal::Predefined(*p),
            Encoding::Dictionary(d) => Type1EncodingVal::Dictionary(d@.0, d@.1),
        }
    }
}

/// The character an encoding translates a code to: a difference entry where
/// one exists, the code read as a code point otherwise.
pub open spec fn spec_translate(e: Type1EncodingVal, char_code: u8) -> char {
    match e {
        Type1EncodingVal::Predefined(_) => char_code as char,
        Type1EncodingVal::Dictionary(_, differences) => if differences.contains_key(
            char_code as u32,
        ) {
            differences[char_code as u32]
        } else {
            char_code as char
        },
    }
}

/// What building a character-level encoding from an encoding object yields.
pub open spec fn spec_t1_encoding_build(obj: Object) -> Result<Type1EncodingVal, BuildError> {
    match obj {
        Object::Name(_) => match crate::encoding::spec_predefined_build(obj) {
            Ok(p) => Ok(Type1EncodingVal::Predefined(p)),
            Err(e) => Err(e),
        },
        Object::Dictionary(_) => match spec_chars_dict_build_of(obj) {
            Ok((base, differences)) => Ok(Type1EncodingVal::Dictionary(base, differences)),
            Err(e) => Err(e),
        },
        _ => Err(BuildError::MalformedEntry),
    }
}

impl Encoding {
    /// Builds a character-level encoding from the font's encoding entry.
    pub fn try_from_object(obj: &Object) -> (r: Result<Encoding, BuildError>)
        ensures
            r is Ok <==> spec_t1_encoding_build(*obj) is Ok,
            r is Ok ==> r->Ok_0@ == spec_t1_encoding_build(*obj)->Ok_0,
            r is Err ==> r->Err_0 == spec_t1_encoding_build(*obj)->Err_0,
    {
        match obj {
            Object::Name(_) => match PredefinedEncoding::try_from_object(obj) {
                Ok(p) => Ok(Encoding::Predefined(p)),
                Err(e) => Err(e),
            },
            Object::Dictionary(_) => match EncodingDictionary::try_from_object(obj) {
                Ok(d) => Ok(Encoding::Dictionary(d)),
                Err(e) => Err(e),
            },
            _ => Err(BuildError::MalformedEntry),
        }
    }

    /// Translates a code to the character it shows.
    pub fn translate(&self, char_code: u8) -> (r: char)
        ensures
            r == spec_translate(self@, char_code),
    {
        match self {
            Encoding::Predefined(_) => char_code as char,
            Encoding::Dictionary(enc) => match enc.lookup(char_code as u32) {
                Some(c) => c,
                None => char_code as char,
            },
        }
    }
}

} // verus!
