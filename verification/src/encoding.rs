//! How a font turns single-byte character codes into glyph names.
//!
//! An encoding is either one of a small set of predefined base encodings,
//! named directly, or an encoding dictionary: an optional base encoding
//! plus a differences table of per-code overrides.  Only the differences
//! table is ever consulted: the predefined base tables are deliberately not
//! implemented, so a predefined encoding, and a dictionary lookup that
//! falls through its differences, resolve to no glyph name at all.

use vstd::prelude::*;

use crate::differences::{spec_differences, Differences};
use crate::errors::BuildError;
use crate::glyph_names::{glyph_name_to_char, spec_glyph_char};
use crate::object::{dict_get, spec_dict_get, Object};

verus! {

use vstd::string::StringSliceAdditionalSpecFns;

/// An owned byte sequence naming a glyph.
#[derive(Debug)]
pub struct GlyphName {
    bytes: Vec<u8>,
}

impl View for GlyphName {
    type V = Seq<u8>;

    closed spec fn view(&self) -> Seq<u8> {
        self.bytes@
    }
}

impl GlyphName {
    /// A glyph name from its bytes.
    pub fn new(bytes: Vec<u8>) -> (r: GlyphName)
        ensures
            r@ == bytes@,
    {
        GlyphName { bytes }
    }

    /// The bytes of the name.
    pub fn as_bytes(&self) -> (r: &[u8])
        ensures
            r@ == self@,
    {
        self.bytes.as_slice()
    }

    /// An owned copy of the name.
    pub fn duplicate(&self) -> (r: GlyphName)
        ensures
            r@ == self@,
    {
        GlyphName { bytes: crate::object::clone_bytes(&self.bytes) }
    }

    /// The character the name stands for, with U+FFFD for names outside the
    /// glyph name table.
    pub fn to_char(&self) -> (r: char)
        ensures
            r == spec_glyph_char(self@),
    {
        glyph_name_to_char(self.bytes.as_slice())
    }
}

/// The predefined base encodings this engine knows by name.  Their code
/// tables are deliberately not implemented: naming one yields an encoding
/// that maps every code to no glyph name.
#[derive(Clone, Copy, Debug, PartialEq, Eq, Structural)]
pub enum PredefinedEncoding {
    MacRomanEncoding,
    MacExpertEncoding,
    WinAnsiEncoding,
}

/// The predefined encoding a name denotes, if any.
pub open spec fn spec_predefined_of(name: Seq<u8>) -> Option<PredefinedEncoding> {
    if name == "MacRomanEncoding".spec_bytes() {
        Some(PredefinedEncoding::MacRomanEncoding)
    } else if name == "MacExpertEncoding".spec_bytes() {
        Some(PredefinedEncoding::MacExpertEncoding)
    } else if name == "WinAnsiEncoding".spec_bytes() {
        Some(PredefinedEncoding::WinAnsiEncoding)
    } else {
        None
    }
}

/// Resolves a name to the predefined encoding it denotes.
pub fn predefined_of(name: &[u8]) -> (r: Option<PredefinedEncoding>)
    ensures
        r == spec_predefined_of(name@),
{
    if crate::object::bytes_eq(name, "MacRomanEncoding".as_bytes()) {
        Some(PredefinedEncoding::MacRomanEncoding)
    } else if crate::object::bytes_eq(name, "MacExpertEncoding".as_bytes()) {
        Some(PredefinedEncoding::MacExpertEncoding)
    } else if crate::object::bytes_eq(name, "WinAnsiEncoding".as_bytes()) {
        Some(PredefinedEncoding::WinAnsiEncoding)
    } else {
        None
    }
}

impl PredefinedEncoding {
    /// Reads a predefined encoding from an encoding object, which must be a
    /// name denoting one of the known base encodings.
    pub fn try_from_object(obj: &Object) -> (r: Result<PredefinedEncoding, BuildError>)
        ensures
            r == spec_predefined_build(*obj),
    {
        match obj {
            Object::Name(name) => match predefined_of(name.as_slice()) {
                Some(p) => Ok(p),
                None => Err(BuildError::UnknownEncoding),
            },
            _ => Err(BuildError::MalformedEntry),
        }
    }
}

/// What reading a predefined encoding from an object yields: unknown names
/// and non-name objects are build failures.
pub open spec fn spec_predefined_build(obj: Object) -> Result<PredefinedEncoding, BuildError> {
    match obj {
        Object::Name(name) => match spec_predefined_of(name@) {
            Some(p) => Ok(p),
            None => Err(BuildError::UnknownEncoding),
        },
        _ => Err(BuildError::MalformedEntry),
    }
}

/// An encoding dictionary: an optional base encoding and a differences
/// table.
#[derive(Debug)]
pub struct EncodingDictionary {
    pub base: Option<PredefinedEncoding>,
    pub differences: Differences,
}

impl View for EncodingDictionary {
    type V = (Option<PredefinedEncoding>, Map<u8, Seq<u8>>);

    open spec fn view(&self) -> (Option<PredefinedEncoding>, Map<u8, Seq<u8>>) {
        (self.base, self.differences@)
    }
}

/// What building an encoding dictionary from its entries yields.  The base
/// encoding, where present, must name a known predefined encoding; the
/// differences entry, where present, must be an array.
pub open spec fn spec_encoding_dict_build(entries: Seq<(Vec<u8>, Object)>) -> Result<
    (Option<PredefinedEncoding>, Map<u8, Seq<u8>>),
    BuildError,
> {
    let base = match spec_dict_get(entries, "BaseEncoding".spec_bytes()) {
        Some(obj) => match spec_predefined_build(obj) {
            Ok(p) => Ok(Some(p)),
            Err(e) => Err(e),
        },
        None => Ok(None),
    };
    match base {
        Err(e) => Err(e),
        Ok(base) => match spec_dict_get(entries, "Differences".spec_bytes()) {
            Some(obj) => match obj {
                Object::Array(elements) => Ok((base, spec_differences(elements@))),
                _ => Err(BuildError::MalformedEntry),
            },
            None => Ok((base, Map::empty())),
        },
    }
}

impl EncodingDictionary {
    /// Builds an encoding dictionary from a dictionary object.
    pub fn try_from_object(obj: &Object) -> (r: Result<EncodingDictionary, BuildError>)
        ensures
            r is Ok <==> spec_encoding_dict_build_of(*obj) is Ok,
            r is Ok ==> r->Ok_0@ == spec_encoding_dict_build_of(*obj)->Ok_0,
            r is Err ==> r->Err_0 == spec_encoding_dict_build_of(*obj)->Err_0,
    {
        let entries = match obj {
            Object::Dictionary(entries) => entries,
            _ => {
                return Err(BuildError::MalformedEntry);
            },
        };
        let mut base: Option<PredefinedEncoding> = None;
        if let Some(base_obj) = dict_get(entries, "BaseEncoding".as_bytes()) {
            match PredefinedEncoding::try_from_object(base_obj) {
                Ok(p) => {
                    base = Some(p);
                },
                Err(e) => {
                    return Err(e);
                },
            }
        }
        let differences = match dict_get(entries, "Differences".as_bytes()) {
            Some(diff_obj) => match diff_obj {
                Object::Array(elements) => Differences::from_array(elements),
                _ => {
                    return Err(BuildError::MalformedEntry);
                },
            },
            None => Differences::empty(),
        };
        Ok(EncodingDictionary { base, differences })
    }

    /// The glyph name the differences table gives a code; the base encoding
    /// is deliberately never consulted.
    pub fn lookup(&self, char_code: u8) -> (r: Option<&GlyphName>)
        ensures
            r is Some <==> self@.1.contains_key(char_code),
            r is Some ==> r->0@ == self@.1[char_code],
    {
        if let Some(glyph_name) = self.differences.lookup(char_code) {
            Some(glyph_name)
        } else {
            None
        }
    }
}

/// What building an encoding dictionary from an arbitrary object yields:
/// anything but a dictionary is a build failure.
pub open spec fn spec_encoding_dict_build_of(obj: Object) -> Result<
    (Option<PredefinedEncoding>, Map<u8, Seq<u8>>),
    BuildError,
> {
    match obj {
        Object::Dictionary(entries) => spec_encoding_dict_build(entries@),
        _ => Err(BuildError::MalformedEntry),
    }
}

/// A font's encoding: a predefined base encoding named directly, or an
/// encoding dictionary.
#[derive(Debug)]
pub enum Encoding {
    Predefined(PredefinedEncoding),
    Dictionary(EncodingDictionary),
}

/// The mathematical value of an encoding.
pub ghost enum EncodingVal {
    Predefined(PredefinedEncoding),
    Dictionary(Option<PredefinedEncoding>, Map<u8, Seq<u8>>),
}

impl View for Encoding {
    type V = EncodingVal;

    open spec fn view(&self) -> EncodingVal {
        match self {
            Encoding::Predefined(p) => EncodingVal::Predefined(*p),
            Encoding::Dictionary(d) => EncodingVal::Dictionary(d@.0, d@.1),
        }
    }
}

/// The glyph name an encoding gives a code: only a dictionary's differences
/// table ever answers; predefined base tables are deliberately not
/// consulted.
pub open spec fn spec_encoding_lookup(e: EncodingVal, char_code: u8) -> Option<Seq<u8>> {
    match e {
        EncodingVal::Predefined(_) => None,
        EncodingVal::Dictionary(_, differences) => if differences.contains_key(char_code) {
            Some(differences[char_code])
        } else {
            None
        },
    }
}

/// What building an encoding from an encoding object yields: a name denotes
/// a predefined encoding, a dictionary an encoding dictionary, anything
/// else is a build failure.
pub open spec fn spec_encoding_build(obj: Object) -> Result<EncodingVal, BuildError> {
    match obj {
        Object::Name(_) => match spec_predefined_build(obj) {
            Ok(p) => Ok(EncodingVal::Predefined(p)),
            Err(e) => Err(e),
        },
        Object::Dictionary(_) => match spec_encoding_dict_build_of(obj) {
            Ok((base, differences)) => Ok(EncodingVal::Dictionary(base, differences)),
            Err(e) => Err(e),
        },
        _ => Err(BuildError::MalformedEntry),
    }
}

impl Encoding {
    /// Builds an encoding from the font's encoding entry.
    pub fn try_from_object(obj: &Object) -> (r: Result<Encoding, BuildError>)
        ensures
            r is Ok <==> spec_encoding_build(*obj) is Ok,
            r is Ok ==> r->Ok_0@ == spec_encoding_build(*obj)->Ok_0,
            r is Err ==> r->Err_0 == spec_encoding_build(*obj)->Err_0,
    {
        match obj {
            Object::Name(_) => match PredefinedEncoding::try_from_object(obj) {
                Ok(p) => Ok(Encoding::Predefined(p)),
                Err(e) => Err(e),
            },
            Object::Dictionary(_) => match EncodingDictionary::try_from_object(obj) {
                Ok(d) => Ok(Encoding::Dictionary(d)),
                Err(e) => Err(e),
            },
            _ => Err(BuildError::MalformedEntry),
        }
    }

    /// The glyph name this encoding gives a code, if any.
    pub fn lookup(&self, char_code: u8) -> (r: Option<&GlyphName>)
        ensures
            r is Some <==> spec_encoding_lookup(self@, char_code) is Some,
            r is Some ==> Some(r->0@) == spec_encoding_lookup(self@, char_code),
    {
        match self {
            Encoding::Predefined(_) => None,
            Encoding::Dictionary(enc) => enc.lookup(char_code),
        }
    }
}

} // verus!
