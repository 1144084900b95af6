//! The failures a page's interpretation can surface.

use vstd::prelude::*;

verus! {

/// Why interpreting a content stream stopped.  Each failure is fatal to the
/// page being interpreted; the caller decides what to do with the page.
#[derive(Clone, Copy, Debug, PartialEq, Eq, Structural)]
pub enum Error {
    /// An operator's operand has the wrong type or is missing.
    MalformedOperand,
    /// Text-object begin/end bracketing was violated, or a text operator
    /// appeared outside a text object.
    ProtocolViolation,
    /// A showing operator named a font resource that the page does not
    /// declare.
    UnresolvedFontResource,
    /// A computed coordinate or advance left the representable fixed-point
    /// range.
    NumericOverflow,
}

impl Error {
    /// A short description of the failure.
    pub fn describe(&self) -> (r: &'static str)
        ensures
            r@ == match self {
                Error::MalformedOperand => "malformed operand"@,
                Error::ProtocolViolation => "text object protocol violation"@,
                Error::UnresolvedFontResource => "unresolved font resource"@,
                Error::NumericOverflow => "numeric overflow"@,
            },
    {
        match self {
            Error::MalformedOperand => "malformed operand",
            Error::ProtocolViolation => "text object protocol violation",
            Error::UnresolvedFontResource => "unresolved font resource",
            Error::NumericOverflow => "numeric overflow",
        }
    }
}

/// Why building a font from its resource data failed.
#[derive(Clone, Copy, Debug, PartialEq, Eq, Structural)]
pub enum BuildError {
    /// The font declares a subtype this engine does not implement.
    UnsupportedSubtype,
    /// The embedded font program is absent, so the font has no glyph data.
    MissingGlyphData,
    /// A required entry is absent or an entry has the wrong type.
    MalformedEntry,
    /// The encoding entry names a base encoding outside the known set.
    UnknownEncoding,
}

} // verus!
