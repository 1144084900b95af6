//! The glyph name table.
//!
//! Fonts identify glyph shapes by symbolic names such as `Acircle`.  This
//! table maps each known name, byte-exact and case-sensitive, to the Unicode
//! code point the shape stands for.  The mapping is total: a name the table
//! does not hold, including one that is not valid text at all, resolves to
//! the replacement character U+FFFD.

use vstd::prelude::*;

use crate::object::bytes_eq;

verus! {

use vstd::string::StringSliceAdditionalSpecFns;

/// What an unknown glyph name resolves to.
pub const GLYPH_FALLBACK_CHAR: char = '\u{fffd}';


/// Names of the printable seven-bit characters.
#[verifier::opaque]
pub open spec fn glyph_char_basic(name: Seq<u8>) -> Option<char> {
    if name == "space".spec_bytes() {
        Some('\u{20}')
    } else if name == "exclam".spec_bytes() {
        Some('\u{21}')
    } else if name == "quotedbl".spec_bytes() {
        Some('\u{22}')
    } else if name == "numbersign".spec_bytes() {
        Some('\u{23}')
    } else if name == "dollar".spec_bytes() {
        Some('\u{24}')
    } else if name == "percent".spec_bytes() {
        Some('\u{25}')
    } else if name == "ampersand".spec_bytes() {
        Some('\u{26}')
    } else if name == "quotesingle".spec_bytes() {
        Some('\u{27}')
    } else if name == "parenleft".spec_bytes() {
        Some('\u{28}')
    } else if name == "parenright".spec_bytes() {
        Some('\u{29}')
    } else if name == "asterisk".spec_bytes() {
        Some('\u{2a}')
    } else if name == "plus".spec_bytes() {
        Some('\u{2b}')
    } else if name == "comma".spec_bytes() {
        Some('\u{2c}')
    } else if name == "hyphen".spec_bytes() {
        Some('\u{2d}')
    } else if name == "period".spec_bytes() {
        Some('\u{2e}')
    } else if name == "slash".spec_bytes() {
        Some('\u{2f}')
    } else if name == "zero".spec_bytes() {
        Some('\u{30}')
    } else if name == "one".spec_bytes() {
        Some('\u{31}')
    } else if name == "two".spec_bytes() {
        Some('\u{32}')
    } else if name == "three".spec_bytes() {
        Some('\u{33}')
    } else if name == "four".spec_bytes() {
        Some('\u{34}')
    } else if name == "five".spec_bytes() {
        Some('\u{35}')
    } else if name == "six".spec_bytes() {
        Some('\u{36}')
    } else if name == "seven".spec_bytes() {
        Some('\u{37}')
    } else if name == "eight".spec_bytes() {
        Some('\u{38}')
    } else if name == "nine".spec_bytes() {
        Some('\u{39}')
    } else if name == "colon".spec_bytes() {
        Some('\u{3a}')
    } else if name == "semicolon".spec_bytes() {
        Some('\u{3b}')
    } else if name == "less".spec_bytes() {
        Some('\u{3c}')
    } else if name == "equal".spec_bytes() {
        Some('\u{3d}')
    } else if name == "greater".spec_bytes() {
        Some('\u{3e}')
    } else if name == "question".spec_bytes() {
        Some('\u{3f}')
    } else if name == "at".spec_bytes() {
        Some('\u{40}')
    } else if name == "A".spec_bytes() {
        Some('\u{41}')
    } else if name == "B".spec_bytes() {
        Some('\u{42}')
    } else if name == "C".spec_bytes() {
        Some('\u{43}')
    } else if name == "D".spec_bytes() {
        Some('\u{44}')
    } else if name == "E".spec_bytes() {
        Some('\u{45}')
    } else if name == "F".spec_bytes() {
        Some('\u{46}')
    } else if name == "G".spec_bytes() {
        Some('\u{47}')
    } else if name == "H".spec_bytes() {
        Some('\u{48}')
    } else if name == "I".spec_bytes() {
        Some('\u{49}')
    } else if name == "J".spec_bytes() {
        Some('\u{4a}')
    } else if name == "K".spec_bytes() {
        Some('\u{4b}')
    } else if name == "L".spec_bytes() {
        Some('\u{4c}')
    } else if name == "M".spec_bytes() {
        Some('\u{4d}')
    } else if name == "N".spec_bytes() {
        Some('\u{4e}')
    } else if name == "O".spec_bytes() {
        Some('\u{4f}')
    } else if name == "P".spec_bytes() {
        Some('\u{50}')
    } else if name == "Q".spec_bytes() {
        Some('\u{51}')
    } else if name == "R".spec_bytes() {
        Some('\u{52}')
    } else if name == "S".spec_bytes() {
        Some('\u{53}')
    } else if name == "T".spec_bytes() {
        Some('\u{54}')
    } else if name == "U".spec_bytes() {
        Some('\u{55}')
    } else if name == "V".spec_bytes() {
        Some('\u{56}')
    } else if name == "W".spec_bytes() {
        Some('\u{57}')
    } else if name == "X".spec_bytes() {
        Some('\u{58}')
    } else if name == "Y".spec_bytes() {
        Some('\u{59}')
    } else if name == "Z".spec_bytes() {
        Some('\u{5a}')
    } else if name == "bracketleft".spec_bytes() {
        Some('\u{5b}')
    } else if name == "backslash".spec_bytes() {
        Some('\u{5c}')
    } else if name == "bracketright".spec_bytes() {
        Some('\u{5d}')
    } else if name == "asciicircum".spec_bytes() {
        Some('\u{5e}')
    } else if name == "underscore".spec_bytes() {
        Some('\u{5f}')
    } else if name == "grave".spec_bytes() {
        Some('\u{60}')
    } else if name == "a".spec_bytes() {
        Some('\u{61}')
    } else if name == "b".spec_bytes() {
        Some('\u{62}')
    } else if name == "c".spec_bytes() {
        Some('\u{63}')
    } else if name == "d".spec_bytes() {
        Some('\u{64}')
    } else if name == "e".spec_bytes() {
        Some('\u{65}')
    } else if name == "f".spec_bytes() {
        Some('\u{66}')
    } else if name == "g".spec_bytes() {
        Some('\u{67}')
    } else if name == "h".spec_bytes() {
        Some('\u{68}')
    } else if name == "i".spec_bytes() {
        Some('\u{69}')
    } else if name == "j".spec_bytes() {
        Some('\u{6a}')
    } else if name == "k".spec_bytes() {
        Some('\u{6b}')
    } else if name == "l".spec_bytes() {
        Some('\u{6c}')
    } else if name == "m".spec_bytes() {
        Some('\u{6d}')
    } else if name == "n".spec_bytes() {
        Some('\u{6e}')
    } else if name == "o".spec_bytes() {
        Some('\u{6f}')
    } else if name == "p".spec_bytes() {
        Some('\u{70}')
    } else if name == "q".spec_bytes() {
        Some('\u{71}')
    } else if name == "r".spec_bytes() {
        Some('\u{72}')
    } else if name == "s".spec_bytes() {
        Some('\u{73}')
    } else if name == "t".spec_bytes() {
        Some('\u{74}')
    } else if name == "u".spec_bytes() {
        Some('\u{75}')
    } else if name == "v".spec_bytes() {
        Some('\u{76}')
    } else if name == "w".spec_bytes() {
        Some('\u{77}')
    } else if name == "x".spec_bytes() {
        Some('\u{78}')
    } else if name == "y".spec_bytes() {
        Some('\u{79}')
    } else if name == "z".spec_bytes() {
        Some('\u{7a}')
    } else if name == "braceleft".spec_bytes() {
        Some('\u{7b}')
    } else if name == "bar".spec_bytes() {
        Some('\u{7c}')
    } else if name == "braceright".spec_bytes() {
        Some('\u{7d}')
    } else if name == "asciitilde".spec_bytes() {
        Some('\u{7e}')
    } else {
        None
    }
}

/// Names of the accented letters and signs of the Latin-1 range.
#[verifier::opaque]
pub open spec fn glyph_char_accented(name: Seq<u8>) -> Option<char> {
    if name == "exclamdown".spec_bytes() {
        Some('\u{a1}')
    } else if name == "cent".spec_bytes() {
        Some('\u{a2}')
    } else if name == "sterling".spec_bytes() {
        Some('\u{a3}')
    } else if name == "currency".spec_bytes() {
        Some('\u{a4}')
    } else if name == "yen".spec_bytes() {
        Some('\u{a5}')
    } else if name == "brokenbar".spec_bytes() {
        Some('\u{a6}')
    } else if name == "section".spec_bytes() {
        Some('\u{a7}')
    } else if name == "dieresis".spec_bytes() {
        Some('\u{a8}')
    } else if name == "copyright".spec_bytes() {
        Some('\u{a9}')
    } else if name == "ordfeminine".spec_bytes() {
        Some('\u{aa}')
    } else if name == "guillemotleft".spec_bytes() {
        Some('\u{ab}')
    } else if name == "logicalnot".spec_bytes() {
        Some('\u{ac}')
    } else if name == "registered".spec_bytes() {
        Some('\u{ae}')
    } else if name == "macron".spec_bytes() {
        Some('\u{af}')
    } else if name == "degree".spec_bytes() {
        Some('\u{b0}')
    } else if name == "plusminus".spec_bytes() {
        Some('\u{b1}')
    } else if name == "acute".spec_bytes() {
        Some('\u{b4}')
    } else if name == "paragraph".spec_bytes() {
        Some('\u{b6}')
    } else if name == "periodcentered".spec_bytes() {
        Some('\u{b7}')
    } else if name == "cedilla".spec_bytes() {
        Some('\u{b8}')
    } else if name == "ordmasculine".spec_bytes() {
        Some('\u{ba}')
    } else if name == "guillemotright".spec_bytes() {
        Some('\u{bb}')
    } else if name == "onequarter".spec_bytes() {
        Some('\u{bc}')
    } else if name == "onehalf".spec_bytes() {
        Some('\u{bd}')
    } else if name == "threequarters".spec_bytes() {
        Some('\u{be}')
    } else if name == "questiondown".spec_bytes() {
        Some('\u{bf}')
    } else if name == "Agrave".spec_bytes() {
        Some('\u{c0}')
    } else if name == "Aacute".spec_bytes() {
        Some('\u{c1}')
    } else if name == "Acircumflex".spec_bytes() {
        Some('\u{c2}')
    } else if name == "Atilde".spec_bytes() {
        Some('\u{c3}')
    } else if name == "Adieresis".spec_bytes() {
        Some('\u{c4}')
    } else if name == "Aring".spec_bytes() {
        Some('\u{c5}')
    } else if name == "AE".spec_bytes() {
        Some('\u{c6}')
    } else if name == "Ccedilla".spec_bytes() {
        Some('\u{c7}')
    } else if name == "Egrave".spec_bytes() {
        Some('\u{c8}')
    } else if name == "Eacute".spec_bytes() {
        Some('\u{c9}')
    } else if name == "Ecircumflex".spec_bytes() {
        Some('\u{ca}')
    } else if name == "Edieresis".spec_bytes() {
        Some('\u{cb}')
    } else if name == "Igrave".spec_bytes() {
        Some('\u{cc}')
    } else if name == "Iacute".spec_bytes() {
        Some('\u{cd}')
    } else if name == "Icircumflex".spec_bytes() {
        Some('\u{ce}')
    } else if name == "Idieresis".spec_bytes() {
        Some('\u{cf}')
    } else if name == "Eth".spec_bytes() {
        Some('\u{d0}')
    } else if name == "Ntilde".spec_bytes() {
        Some('\u{d1}')
    } else if name == "Ograve".spec_bytes() {
        Some('\u{d2}')
    } else if name == "Oacute".spec_bytes() {
        Some('\u{d3}')
    } else if name == "Ocircumflex".spec_bytes() {
        Some('\u{d4}')
    } else if name == "Otilde".spec_bytes() {
        Some('\u{d5}')
    } else if name == "Odieresis".spec_bytes() {
        Some('\u{d6}')
    } else if name == "multiply".spec_bytes() {
        Some('\u{d7}')
    } else if name == "Oslash".spec_bytes() {
        Some('\u{d8}')
    } else if name == "Ugrave".spec_bytes() {
        Some('\u{d9}')
    } else if name == "Uacute".spec_bytes() {
        Some('\u{da}')
    } else if name == "Ucircumflex".spec_bytes() {
        Some('\u{db}')
    } else if name == "Udieresis".spec_bytes() {
        Some('\u{dc}')
    } else if name == "Yacute".spec_bytes() {
        Some('\u{dd}')
    } else if name == "Thorn".spec_bytes() {
        Some('\u{de}')
    } else if name == "germandbls".spec_bytes() {
        Some('\u{df}')
    } else if name == "agrave".spec_bytes() {
        Some('\u{e0}')
    } else if name == "aacute".spec_bytes() {
        Some('\u{e1}')
    } else if name == "acircumflex".spec_bytes() {
        Some('\u{e2}')
    } else if name == "atilde".spec_bytes() {
        Some('\u{e3}')
    } else if name == "adieresis".spec_bytes() {
        Some('\u{e4}')
    } else if name == "aring".spec_bytes() {
        Some('\u{e5}')
    } else if name == "ae".spec_bytes() {
        Some('\u{e6}')
    } else if name == "ccedilla".spec_bytes() {
        Some('\u{e7}')
    } else if name == "egrave".spec_bytes() {
        Some('\u{e8}')
    } else if name == "eacute".spec_bytes() {
        Some('\u{e9}')
    } else if name == "ecircumflex".spec_bytes() {
        Some('\u{ea}')
    } else if name == "edieresis".spec_bytes() {
        Some('\u{eb}')
    } else if name == "igrave".spec_bytes() {
        Some('\u{ec}')
    } else if name == "iacute".spec_bytes() {
        Some('\u{ed}')
    } else if name == "icircumflex".spec_bytes() {
        Some('\u{ee}')
    } else if name == "idieresis".spec_bytes() {
        Some('\u{ef}')
    } else if name == "eth".spec_bytes() {
        Some('\u{f0}')
    } else if name == "ntilde".spec_bytes() {
        Some('\u{f1}')
    } else if name == "ograve".spec_bytes() {
        Some('\u{f2}')
    } else if name == "oacute".spec_bytes() {
        Some('\u{f3}')
    } else if name == "ocircumflex".spec_bytes() {
        Some('\u{f4}')
    } else if name == "otilde".spec_bytes() {
        Some('\u{f5}')
    } else if name == "odieresis".spec_bytes() {
        Some('\u{f6}')
    } else if name == "divide".spec_bytes() {
        Some('\u{f7}')
    } else if name == "oslash".spec_bytes() {
        Some('\u{f8}')
    } else if name == "ugrave".spec_bytes() {
        Some('\u{f9}')
    } else if name == "uacute".spec_bytes() {
        Some('\u{fa}')
    } else if name == "ucircumflex".spec_bytes() {
        Some('\u{fb}')
    } else if name == "udieresis".spec_bytes() {
        Some('\u{fc}')
    } else if name == "yacute".spec_bytes() {
        Some('\u{fd}')
    } else if name == "thorn".spec_bytes() {
        Some('\u{fe}')
    } else if name == "ydieresis".spec_bytes() {
        Some('\u{ff}')
    } else {
        None
    }
}

/// Names of accents, ligatures, dashes, quotes and other typographic signs.
#[verifier::opaque]
pub open spec fn glyph_char_marks(name: Seq<u8>) -> Option<char> {
    if name == "dotlessi".spec_bytes() {
        Some('\u{131}')
    } else if name == "Lslash".spec_bytes() {
        Some('\u{141}')
    } else if name == "lslash".spec_bytes() {
        Some('\u{142}')
    } else if name == "OE".spec_bytes() {
        Some('\u{152}')
    } else if name == "oe".spec_bytes() {
        Some('\u{153}')
    } else if name == "Scaron".spec_bytes() {
        Some('\u{160}')
    } else if name == "scaron".spec_bytes() {
        Some('\u{161}')
    } else if name == "Ydieresis".spec_bytes() {
        Some('\u{178}')
    } else if name == "Zcaron".spec_bytes() {
        Some('\u{17d}')
    } else if name == "zcaron".spec_bytes() {
        Some('\u{17e}')
    } else if name == "florin".spec_bytes() {
        Some('\u{192}')
    } else if name == "circumflex".spec_bytes() {
        Some('\u{2c6}')
    } else if name == "caron".spec_bytes() {
        Some('\u{2c7}')
    } else if name == "breve".spec_bytes() {
        Some('\u{2d8}')
    } else if name == "dotaccent".spec_bytes() {
        Some('\u{2d9}')
    } else if name == "ring".spec_bytes() {
        Some('\u{2da}')
    } else if name == "ogonek".spec_bytes() {
        Some('\u{2db}')
    } else if name == "tilde".spec_bytes() {
        Some('\u{2dc}')
    } else if name == "hungarumlaut".spec_bytes() {
        Some('\u{2dd}')
    } else if name == "endash".spec_bytes() {
        Some('\u{2013}')
    } else if name == "emdash".spec_bytes() {
        Some('\u{2014}')
    } else if name == "quoteleft".spec_bytes() {
        Some('\u{2018}')
    } else if name == "quoteright".spec_bytes() {
        Some('\u{2019}')
    } else if name == "quotesinglbase".spec_bytes() {
        Some('\u{201a}')
    } else if name == "quotedblleft".spec_bytes() {
        Some('\u{201c}')
    } else if name == "quotedblright".spec_bytes() {
        Some('\u{201d}')
    } else if name == "quotedblbase".spec_bytes() {
        Some('\u{201e}')
    } else if name == "dagger".spec_bytes() {
        Some('\u{2020}')
    } else if name == "daggerdbl".spec_bytes() {
        Some('\u{2021}')
    } else if name == "bullet".spec_bytes() {
        Some('\u{2022}')
    } else if name == "ellipsis".spec_bytes() {
        Some('\u{2026}')
    } else if name == "perthousand".spec_bytes() {
        Some('\u{2030}')
    } else if name == "guilsinglleft".spec_bytes() {
        Some('\u{2039}')
    } else if name == "guilsinglright".spec_bytes() {
        Some('\u{203a}')
    } else if name == "fraction".spec_bytes() {
        Some('\u{2044}')
    } else if name == "Euro".spec_bytes() {
        Some('\u{20ac}')
    } else if name == "trademark".spec_bytes() {
        Some('\u{2122}')
    } else if name == "minus".spec_bytes() {
        Some('\u{2212}')
    } else if name == "fi".spec_bytes() {
        Some('\u{fb01}')
    } else if name == "fl".spec_bytes() {
        Some('\u{fb02}')
    } else {
        None
    }
}

/// Names of the circled letters.
#[verifier::opaque]
pub open spec fn glyph_char_circled(name: Seq<u8>) -> Option<char> {
    if name == "Acircle".spec_bytes() {
        Some('\u{24b6}')
    } else if name == "Bcircle".spec_bytes() {
        Some('\u{24b7}')
    } else if name == "Ccircle".spec_bytes() {
        Some('\u{24b8}')
    } else if name == "Dcircle".spec_bytes() {
        Some('\u{24b9}')
    } else if name == "Ecircle".spec_bytes() {
        Some('\u{24ba}')
    } else if name == "Fcircle".spec_bytes() {
        Some('\u{24bb}')
    } else if name == "Gcircle".spec_bytes() {
        Some('\u{24bc}')
    } else if name == "Hcircle".spec_bytes() {
        Some('\u{24bd}')
    } else if name == "Icircle".spec_bytes() {
        Some('\u{24be}')
    } else if name == "Jcircle".spec_bytes() {
        Some('\u{24bf}')
    } else if name == "Kcircle".spec_bytes() {
        Some('\u{24c0}')
    } else if name == "Lcircle".spec_bytes() {
        Some('\u{24c1}')
    } else if name == "Mcircle".spec_bytes() {
        Some('\u{24c2}')
    } else if name == "Ncircle".spec_bytes() {
        Some('\u{24c3}')
    } else if name == "Ocircle".spec_bytes() {
        Some('\u{24c4}')
    } else if name == "Pcircle".spec_bytes() {
        Some('\u{24c5}')
    } else if name == "Qcircle".spec_bytes() {
        Some('\u{24c6}')
    } else if name == "Rcircle".spec_bytes() {
        Some('\u{24c7}')
    } else if name == "Scircle".spec_bytes() {
        Some('\u{24c8}')
    } else if name == "Tcircle".spec_bytes() {
        Some('\u{24c9}')
    } else if name == "Ucircle".spec_bytes() {
        Some('\u{24ca}')
    } else if name == "Vcircle".spec_bytes() {
        Some('\u{24cb}')
    } else if name == "Wcircle".spec_bytes() {
        Some('\u{24cc}')
    } else if name == "Xcircle".spec_bytes() {
        Some('\u{24cd}')
    } else if name == "Ycircle".spec_bytes() {
        Some('\u{24ce}')
    } else if name == "Zcircle".spec_bytes() {
        Some('\u{24cf}')
    } else if name == "acircle".spec_bytes() {
        Some('\u{24d0}')
    } else if name == "bcircle".spec_bytes() {
        Some('\u{24d1}')
    } else if name == "ccircle".spec_bytes() {
        Some('\u{24d2}')
    } else if name == "dcircle".spec_bytes() {
        Some('\u{24d3}')
    } else if name == "ecircle".spec_bytes() {
        Some('\u{24d4}')
    } else if name == "fcircle".spec_bytes() {
        Some('\u{24d5}')
    } else if name == "gcircle".spec_bytes() {
        Some('\u{24d6}')
    } else if name == "hcircle".spec_bytes() {
        Some('\u{24d7}')
    } else if name == "icircle".spec_bytes() {
        Some('\u{24d8}')
    } else if name == "jcircle".spec_bytes() {
        Some('\u{24d9}')
    } else if name == "kcircle".spec_bytes() {
        Some('\u{24da}')
    } else if name == "lcircle".spec_bytes() {
        Some('\u{24db}')
    } else if name == "mcircle".spec_bytes() {
        Some('\u{24dc}')
    } else if name == "ncircle".spec_bytes() {
        Some('\u{24dd}')
    } else if name == "ocircle".spec_bytes() {
        Some('\u{24de}')
    } else if name == "pcircle".spec_bytes() {
        Some('\u{24df}')
    } else if name == "qcircle".spec_bytes() {
        Some('\u{24e0}')
    } else if name == "rcircle".spec_bytes() {
        Some('\u{24e1}')
    } else if name == "scircle".spec_bytes() {
        Some('\u{24e2}')
    } else if name == "tcircle".spec_bytes() {
        Some('\u{24e3}')
    } else if name == "ucircle".spec_bytes() {
        Some('\u{24e4}')
    } else if name == "vcircle".spec_bytes() {
        Some('\u{24e5}')
    } else if name == "wcircle".spec_bytes() {
        Some('\u{24e6}')
    } else if name == "xcircle".spec_bytes() {
        Some('\u{24e7}')
    } else if name == "ycircle".spec_bytes() {
        Some('\u{24e8}')
    } else if name == "zcircle".spec_bytes() {
        Some('\u{24e9}')
    } else {
        None
    }
}

/// Names of the printable seven-bit characters.
fn lookup_basic(name: &[u8]) -> (r: Option<char>)
    ensures
        r == glyph_char_basic(name@),
{
    proof {
        reveal(glyph_char_basic);
    }
    if bytes_eq(name, "space".as_bytes()) {
        Some('\u{20}')
    } else if bytes_eq(name, "exclam".as_bytes()) {
        Some('\u{21}')
    } else if bytes_eq(name, "quotedbl".as_bytes()) {
        Some('\u{22}')
    } else if bytes_eq(name, "numbersign".as_bytes()) {
        Some('\u{23}')
    } else if bytes_eq(name, "dollar".as_bytes()) {
        Some('\u{24}')
    } else if bytes_eq(name, "percent".as_bytes()) {
        Some('\u{25}')
    } else if bytes_eq(name, "ampersand".as_bytes()) {
        Some('\u{26}')
    } else if bytes_eq(name, "quotesingle".as_bytes()) {
        Some('\u{27}')
    } else if bytes_eq(name, "parenleft".as_bytes()) {
        Some('\u{28}')
    } else if bytes_eq(name, "parenright".as_bytes()) {
        Some('\u{29}')
    } else if bytes_eq(name, "asterisk".as_bytes()) {
        Some('\u{2a}')
    } else if bytes_eq(name, "plus".as_bytes()) {
        Some('\u{2b}')
    } else if bytes_eq(name, "comma".as_bytes()) {
        Some('\u{2c}')
    } else if bytes_eq(name, "hyphen".as_bytes()) {
        Some('\u{2d}')
    } else if bytes_eq(name, "period".as_bytes()) {
        Some('\u{2e}')
    } else if bytes_eq(name, "slash".as_bytes()) {
        Some('\u{2f}')
    } else if bytes_eq(name, "zero".as_bytes()) {
        Some('\u{30}')
    } else if bytes_eq(name, "one".as_bytes()) {
        Some('\u{31}')
    } else if bytes_eq(name, "two".as_bytes()) {
        Some('\u{32}')
    } else if bytes_eq(name, "three".as_bytes()) {
        Some('\u{33}')
    } else if bytes_eq(name, "four".as_bytes()) {
        Some('\u{34}')
    } else if bytes_eq(name, "five".as_bytes()) {
        Some('\u{35}')
    } else if bytes_eq(name, "six".as_bytes()) {
        Some('\u{36}')
    } else if bytes_eq(name, "seven".as_bytes()) {
        Some('\u{37}')
    } else if bytes_eq(name, "eight".as_bytes()) {
        Some('\u{38}')
    } else if bytes_eq(name, "nine".as_bytes()) {
        Some('\u{39}')
    } else if bytes_eq(name, "colon".as_bytes()) {
        Some('\u{3a}')
    } else if bytes_eq(name, "semicolon".as_bytes()) {
        Some('\u{3b}')
    } else if bytes_eq(name, "less".as_bytes()) {
        Some('\u{3c}')
    } else if bytes_eq(name, "equal".as_bytes()) {
        Some('\u{3d}')
    } else if bytes_eq(name, "greater".as_bytes()) {
        Some('\u{3e}')
    } else if bytes_eq(name, "question".as_bytes()) {
        Some('\u{3f}')
    } else if bytes_eq(name, "at".as_bytes()) {
        Some('\u{40}')
    } else if bytes_eq(name, "A".as_bytes()) {
        Some('\u{41}')
    } else if bytes_eq(name, "B".as_bytes()) {
        Some('\u{42}')
    } else if bytes_eq(name, "C".as_bytes()) {
        Some('\u{43}')
    } else if bytes_eq(name, "D".as_bytes()) {
        Some('\u{44}')
    } else if bytes_eq(name, "E".as_bytes()) {
        Some('\u{45}')
    } else if bytes_eq(name, "F".as_bytes()) {
        Some('\u{46}')
    } else if bytes_eq(name, "G".as_bytes()) {
        Some('\u{47}')
    } else if bytes_eq(name, "H".as_bytes()) {
        Some('\u{48}')
    } else if bytes_eq(name, "I".as_bytes()) {
        Some('\u{49}')
    } else if bytes_eq(name, "J".as_bytes()) {
        Some('\u{4a}')
    } else if bytes_eq(name, "K".as_bytes()) {
        Some('\u{4b}')
    } else if bytes_eq(name, "L".as_bytes()) {
        Some('\u{4c}')
    } else if bytes_eq(name, "M".as_bytes()) {
        Some('\u{4d}')
    } else if bytes_eq(name, "N".as_bytes()) {
        Some('\u{4e}')
    } else if bytes_eq(name, "O".as_bytes()) {
        Some('\u{4f}')
    } else if bytes_eq(name, "P".as_bytes()) {
        Some('\u{50}')
    } else if bytes_eq(name, "Q".as_bytes()) {
        Some('\u{51}')
    } else if bytes_eq(name, "R".as_bytes()) {
        Some('\u{52}')
    } else if bytes_eq(name, "S".as_bytes()) {
        Some('\u{53}')
    } else if bytes_eq(name, "T".as_bytes()) {
        Some('\u{54}')
    } else if bytes_eq(name, "U".as_bytes()) {
        Some('\u{55}')
    } else if bytes_eq(name, "V".as_bytes()) {
        Some('\u{56}')
    } else if bytes_eq(name, "W".as_bytes()) {
        Some('\u{57}')
    } else if bytes_eq(name, "X".as_bytes()) {
        Some('\u{58}')
    } else if bytes_eq(name, "Y".as_bytes()) {
        Some('\u{59}')
    } else if bytes_eq(name, "Z".as_bytes()) {
        Some('\u{5a}')
    } else if bytes_eq(name, "bracketleft".as_bytes()) {
        Some('\u{5b}')
    } else if bytes_eq(name, "backslash".as_bytes()) {
        Some('\u{5c}')
    } else if bytes_eq(name, "bracketright".as_bytes()) {
        Some('\u{5d}')
    } else if bytes_eq(name, "asciicircum".as_bytes()) {
        Some('\u{5e}')
    } else if bytes_eq(name, "underscore".as_bytes()) {
        Some('\u{5f}')
    } else if bytes_eq(name, "grave".as_bytes()) {
        Some('\u{60}')
    } else if bytes_eq(name, "a".as_bytes()) {
        Some('\u{61}')
    } else if bytes_eq(name, "b".as_bytes()) {
        Some('\u{62}')
    } else if bytes_eq(name, "c".as_bytes()) {
        Some('\u{63}')
    } else if bytes_eq(name, "d".as_bytes()) {
        Some('\u{64}')
    } else if bytes_eq(name, "e".as_bytes()) {
        Some('\u{65}')
    } else if bytes_eq(name, "f".as_bytes()) {
        Some('\u{66}')
    } else if bytes_eq(name, "g".as_bytes()) {
        Some('\u{67}')
    } else if bytes_eq(name, "h".as_bytes()) {
        Some('\u{68}')
    } else if bytes_eq(name, "i".as_bytes()) {
        Some('\u{69}')
    } else if bytes_eq(name, "j".as_bytes()) {
        Some('\u{6a}')
    } else if bytes_eq(name, "k".as_bytes()) {
        Some('\u{6b}')
    } else if bytes_eq(name, "l".as_bytes()) {
        Some('\u{6c}')
    } else if bytes_eq(name, "m".as_bytes()) {
        Some('\u{6d}')
    } else if bytes_eq(name, "n".as_bytes()) {
        Some('\u{6e}')
    } else if bytes_eq(name, "o".as_bytes()) {
        Some('\u{6f}')
    } else if bytes_eq(name, "p".as_bytes()) {
        Some('\u{70}')
    } else if bytes_eq(name, "q".as_bytes()) {
        Some('\u{71}')
    } else if bytes_eq(name, "r".as_bytes()) {
        Some('\u{72}')
    } else if bytes_eq(name, "s".as_bytes()) {
        Some('\u{73}')
    } else if bytes_eq(name, "t".as_bytes()) {
        Some('\u{74}')
    } else if bytes_eq(name, "u".as_bytes()) {
        Some('\u{75}')
    } else if bytes_eq(name, "v".as_bytes()) {
        Some('\u{76}')
    } else if bytes_eq(name, "w".as_bytes()) {
        Some('\u{77}')
    } else if bytes_eq(name, "x".as_bytes()) {
        Some('\u{78}')
    } else if bytes_eq(name, "y".as_bytes()) {
        Some('\u{79}')
    } else if bytes_eq(name, "z".as_bytes()) {
        Some('\u{7a}')
    } else if bytes_eq(name, "braceleft".as_bytes()) {
        Some('\u{7b}')
    } else if bytes_eq(name, "bar".as_bytes()) {
        Some('\u{7c}')
    } else if bytes_eq(name, "braceright".as_bytes()) {
        Some('\u{7d}')
    } else if bytes_eq(name, "asciitilde".as_bytes()) {
        Some('\u{7e}')
    } else {
        None
    }
}

/// Names of the accented letters and signs of the Latin-1 range.
fn lookup_accented(name: &[u8]) -> (r: Option<char>)
    ensures
        r == glyph_char_accented(name@),
{
    proof {
        reveal(glyph_char_accented);
    }
    if bytes_eq(name, "exclamdown".as_bytes()) {
        Some('\u{a1}')
    } else if bytes_eq(name, "cent".as_bytes()) {
        Some('\u{a2}')
    } else if bytes_eq(name, "sterling".as_bytes()) {
        Some('\u{a3}')
    } else if bytes_eq(name, "currency".as_bytes()) {
        Some('\u{a4}')
    } else if bytes_eq(name, "yen".as_bytes()) {
        Some('\u{a5}')
    } else if bytes_eq(name, "brokenbar".as_bytes()) {
        Some('\u{a6}')
    } else if bytes_eq(name, "section".as_bytes()) {
        Some('\u{a7}')
    } else if bytes_eq(name, "dieresis".as_bytes()) {
        Some('\u{a8}')
    } else if bytes_eq(name, "copyright".as_bytes()) {
        Some('\u{a9}')
    } else if bytes_eq(name, "ordfeminine".as_bytes()) {
        Some('\u{aa}')
    } else if bytes_eq(name, "guillemotleft".as_bytes()) {
        Some('\u{ab}')
    } else if bytes_eq(name, "logicalnot".as_bytes()) {
        Some('\u{ac}')
    } else if bytes_eq(name, "registered".as_bytes()) {
        Some('\u{ae}')
    } else if bytes_eq(name, "macron".as_bytes()) {
        Some('\u{af}')
    } else if bytes_eq(name, "degree".as_bytes()) {
        Some('\u{b0}')
    } else if bytes_eq(name, "plusminus".as_bytes()) {
        Some('\u{b1}')
    } else if bytes_eq(name, "acute".as_bytes()) {
        Some('\u{b4}')
    } else if bytes_eq(name, "paragraph".as_bytes()) {
        Some('\u{b6}')
    } else if bytes_eq(name, "periodcentered".as_bytes()) {
        Some('\u{b7}')
    } else if bytes_eq(name, "cedilla".as_bytes()) {
        Some('\u{b8}')
    } else if bytes_eq(name, "ordmasculine".as_bytes()) {
        Some('\u{ba}')
    } else if bytes_eq(name, "guillemotright".as_bytes()) {
        Some('\u{bb}')
    } else if bytes_eq(name, "onequarter".as_bytes()) {
        Some('\u{bc}')
    } else if bytes_eq(name, "onehalf".as_bytes()) {
        Some('\u{bd}')
    } else if bytes_eq(name, "threequarters".as_bytes()) {
        Some('\u{be}')
    } else if bytes_eq(name, "questiondown".as_bytes()) {
        Some('\u{bf}')
    } else if bytes_eq(name, "Agrave".as_bytes()) {
        Some('\u{c0}')
    } else if bytes_eq(name, "Aacute".as_bytes()) {
        Some('\u{c1}')
    } else if bytes_eq(name, "Acircumflex".as_bytes()) {
        Some('\u{c2}')
    } else if bytes_eq(name, "Atilde".as_bytes()) {
        Some('\u{c3}')
    } else if bytes_eq(name, "Adieresis".as_bytes()) {
        Some('\u{c4}')
    } else if bytes_eq(name, "Aring".as_bytes()) {
        Some('\u{c5}')
    } else if bytes_eq(name, "AE".as_bytes()) {
        Some('\u{c6}')
    } else if bytes_eq(name, "Ccedilla".as_bytes()) {
        Some('\u{c7}')
    } else if bytes_eq(name, "Egrave".as_bytes()) {
        Some('\u{c8}')
    } else if bytes_eq(name, "Eacute".as_bytes()) {
        Some('\u{c9}')
    } else if bytes_eq(name, "Ecircumflex".as_bytes()) {
        Some('\u{ca}')
    } else if bytes_eq(name, "Edieresis".as_bytes()) {
        Some('\u{cb}')
    } else if bytes_eq(name, "Igrave".as_bytes()) {
        Some('\u{cc}')
    } else if bytes_eq(name, "Iacute".as_bytes()) {
        Some('\u{cd}')
    } else if bytes_eq(name, "Icircumflex".as_bytes()) {
        Some('\u{ce}')
    } else if bytes_eq(name, "Idieresis".as_bytes()) {
        Some('\u{cf}')
    } else if bytes_eq(name, "Eth".as_bytes()) {
        Some('\u{d0}')
    } else if bytes_eq(name, "Ntilde".as_bytes()) {
        Some('\u{d1}')
    } else if bytes_eq(name, "Ograve".as_bytes()) {
        Some('\u{d2}')
    } else if bytes_eq(name, "Oacute".as_bytes()) {
        Some('\u{d3}')
    } else if bytes_eq(name, "Ocircumflex".as_bytes()) {
        Some('\u{d4}')
    } else if bytes_eq(name, "Otilde".as_bytes()) {
        Some('\u{d5}')
    } else if bytes_eq(name, "Odieresis".as_bytes()) {
        Some('\u{d6}')
    } else if bytes_eq(name, "multiply".as_bytes()) {
        Some('\u{d7}')
    } else if bytes_eq(name, "Oslash".as_bytes()) {
        Some('\u{d8}')
    } else if bytes_eq(name, "Ugrave".as_bytes()) {
        Some('\u{d9}')
    } else if bytes_eq(name, "Uacute".as_bytes()) {
        Some('\u{da}')
    } else if bytes_eq(name, "Ucircumflex".as_bytes()) {
        Some('\u{db}')
    } else if bytes_eq(name, "Udieresis".as_bytes()) {
        Some('\u{dc}')
    } else if bytes_eq(name, "Yacute".as_bytes()) {
        Some('\u{dd}')
    } else if bytes_eq(name, "Thorn".as_bytes()) {
        Some('\u{de}')
    } else if bytes_eq(name, "germandbls".as_bytes()) {
        Some('\u{df}')
    } else if bytes_eq(name, "agrave".as_bytes()) {
        Some('\u{e0}')
    } else if bytes_eq(name, "aacute".as_bytes()) {
        Some('\u{e1}')
    } else if bytes_eq(name, "acircumflex".as_bytes()) {
        Some('\u{e2}')
    } else if bytes_eq(name, "atilde".as_bytes()) {
        Some('\u{e3}')
    } else if bytes_eq(name, "adieresis".as_bytes()) {
        Some('\u{e4}')
    } else if bytes_eq(name, "aring".as_bytes()) {
        Some('\u{e5}')
    } else if bytes_eq(name, "ae".as_bytes()) {
        Some('\u{e6}')
    } else if bytes_eq(name, "ccedilla".as_bytes()) {
        Some('\u{e7}')
    } else if bytes_eq(name, "egrave".as_bytes()) {
        Some('\u{e8}')
    } else if bytes_eq(name, "eacute".as_bytes()) {
        Some('\u{e9}')
    } else if bytes_eq(name, "ecircumflex".as_bytes()) {
        Some('\u{ea}')
    } else if bytes_eq(name, "edieresis".as_bytes()) {
        Some('\u{eb}')
    } else if bytes_eq(name, "igrave".as_bytes()) {
        Some('\u{ec}')
    } else if bytes_eq(name, "iacute".as_bytes()) {
        Some('\u{ed}')
    } else if bytes_eq(name, "icircumflex".as_bytes()) {
        Some('\u{ee}')
    } else if bytes_eq(name, "idieresis".as_bytes()) {
        Some('\u{ef}')
    } else if bytes_eq(name, "eth".as_bytes()) {
        Some('\u{f0}')
    } else if bytes_eq(name, "ntilde".as_bytes()) {
        Some('\u{f1}')
    } else if bytes_eq(name, "ograve".as_bytes()) {
        Some('\u{f2}')
    } else if bytes_eq(name, "oacute".as_bytes()) {
        Some('\u{f3}')
    } else if bytes_eq(name, "ocircumflex".as_bytes()) {
        Some('\u{f4}')
    } else if bytes_eq(name, "otilde".as_bytes()) {
        Some('\u{f5}')
    } else if bytes_eq(name, "odieresis".as_bytes()) {
        Some('\u{f6}')
    } else if bytes_eq(name, "divide".as_bytes()) {
        Some('\u{f7}')
    } else if bytes_eq(name, "oslash".as_bytes()) {
        Some('\u{f8}')
    } else if bytes_eq(name, "ugrave".as_bytes()) {
        Some('\u{f9}')
    } else if bytes_eq(name, "uacute".as_bytes()) {
        Some('\u{fa}')
    } else if bytes_eq(name, "ucircumflex".as_bytes()) {
        Some('\u{fb}')
    } else if bytes_eq(name, "udieresis".as_bytes()) {
        Some('\u{fc}')
    } else if bytes_eq(name, "yacute".as_bytes()) {
        Some('\u{fd}')
    } else if bytes_eq(name, "thorn".as_bytes()) {
        Some('\u{fe}')
    } else if bytes_eq(name, "ydieresis".as_bytes()) {
        Some('\u{ff}')
    } else {
        None
    }
}

/// Names of accents, ligatures, dashes, quotes and other typographic signs.
fn lookup_marks(name: &[u8]) -> (r: Option<char>)
    ensures
        r == glyph_char_marks(name@),
{
    proof {
        reveal(glyph_char_marks);
    }
    if bytes_eq(name, "dotlessi".as_bytes()) {
        Some('\u{131}')
    } else if bytes_eq(name, "Lslash".as_bytes()) {
        Some('\u{141}')
    } else if bytes_eq(name, "lslash".as_bytes()) {
        Some('\u{142}')
    } else if bytes_eq(name, "OE".as_bytes()) {
        Some('\u{152}')
    } else if bytes_eq(name, "oe".as_bytes()) {
        Some('\u{153}')
    } else if bytes_eq(name, "Scaron".as_bytes()) {
        Some('\u{160}')
    } else if bytes_eq(name, "scaron".as_bytes()) {
        Some('\u{161}')
    } else if bytes_eq(name, "Ydieresis".as_bytes()) {
        Some('\u{178}')
    } else if bytes_eq(name, "Zcaron".as_bytes()) {
        Some('\u{17d}')
    } else if bytes_eq(name, "zcaron".as_bytes()) {
        Some('\u{17e}')
    } else if bytes_eq(name, "florin".as_bytes()) {
        Some('\u{192}')
    } else if bytes_eq(name, "circumflex".as_bytes()) {
        Some('\u{2c6}')
    } else if bytes_eq(name, "caron".as_bytes()) {
        Some('\u{2c7}')
    } else if bytes_eq(name, "breve".as_bytes()) {
        Some('\u{2d8}')
    } else if bytes_eq(name, "dotaccent".as_bytes()) {
        Some('\u{2d9}')
    } else if bytes_eq(name, "ring".as_bytes()) {
        Some('\u{2da}')
    } else if bytes_eq(name, "ogonek".as_bytes()) {
        Some('\u{2db}')
    } else if bytes_eq(name, "tilde".as_bytes()) {
        Some('\u{2dc}')
    } else if bytes_eq(name, "hungarumlaut".as_bytes()) {
        Some('\u{2dd}')
    } else if bytes_eq(name, "endash".as_bytes()) {
        Some('\u{2013}')
    } else if bytes_eq(name, "emdash".as_bytes()) {
        Some('\u{2014}')
    } else if bytes_eq(name, "quoteleft".as_bytes()) {
        Some('\u{2018}')
    } else if bytes_eq(name, "quoteright".as_bytes()) {
        Some('\u{2019}')
    } else if bytes_eq(name, "quotesinglbase".as_bytes()) {
        Some('\u{201a}')
    } else if bytes_eq(name, "quotedblleft".as_bytes()) {
        Some('\u{201c}')
    } else if bytes_eq(name, "quotedblright".as_bytes()) {
        Some('\u{201d}')
    } else if bytes_eq(name, "quotedblbase".as_bytes()) {
        Some('\u{201e}')
    } else if bytes_eq(name, "dagger".as_bytes()) {
        Some('\u{2020}')
    } else if bytes_eq(name, "daggerdbl".as_bytes()) {
        Some('\u{2021}')
    } else if bytes_eq(name, "bullet".as_bytes()) {
        Some('\u{2022}')
    } else if bytes_eq(name, "ellipsis".as_bytes()) {
        Some('\u{2026}')
    } else if bytes_eq(name, "perthousand".as_bytes()) {
        Some('\u{2030}')
    } else if bytes_eq(name, "guilsinglleft".as_bytes()) {
        Some('\u{2039}')
    } else if bytes_eq(name, "guilsinglright".as_bytes()) {
        Some('\u{203a}')
    } else if bytes_eq(name, "fraction".as_bytes()) {
        Some('\u{2044}')
    } else if bytes_eq(name, "Euro".as_bytes()) {
        Some('\u{20ac}')
    } else if bytes_eq(name, "trademark".as_bytes()) {
        Some('\u{2122}')
    } else if bytes_eq(name, "minus".as_bytes()) {
        Some('\u{2212}')
    } else if bytes_eq(name, "fi".as_bytes()) {
        Some('\u{fb01}')
    } else if bytes_eq(name, "fl".as_bytes()) {
        Some('\u{fb02}')
    } else {
        None
    }
}

/// Names of the circled letters.
fn lookup_circled(name: &[u8]) -> (r: Option<char>)
    ensures
        r == glyph_char_circled(name@),
{
    proof {
        reveal(glyph_char_circled);
    }
    if bytes_eq(name, "Acircle".as_bytes()) {
        Some('\u{24b6}')
    } else if bytes_eq(name, "Bcircle".as_bytes()) {
        Some('\u{24b7}')
    } else if bytes_eq(name, "Ccircle".as_bytes()) {
        Some('\u{24b8}')
    } else if bytes_eq(name, "Dcircle".as_bytes()) {
        Some('\u{24b9}')
    } else if bytes_eq(name, "Ecircle".as_bytes()) {
        Some('\u{24ba}')
    } else if bytes_eq(name, "Fcircle".as_bytes()) {
        Some('\u{24bb}')
    } else if bytes_eq(name, "Gcircle".as_bytes()) {
        Some('\u{24bc}')
    } else if bytes_eq(name, "Hcircle".as_bytes()) {
        Some('\u{24bd}')
    } else if bytes_eq(name, "Icircle".as_bytes()) {
        Some('\u{24be}')
    } else if bytes_eq(name, "Jcircle".as_bytes()) {
        Some('\u{24bf}')
    } else if bytes_eq(name, "Kcircle".as_bytes()) {
        Some('\u{24c0}')
    } else if bytes_eq(name, "Lcircle".as_bytes()) {
        Some('\u{24c1}')
    } else if bytes_eq(name, "Mcircle".as_bytes()) {
        Some('\u{24c2}')
    } else if bytes_eq(name, "Ncircle".as_bytes()) {
        Some('\u{24c3}')
    } else if bytes_eq(name, "Ocircle".as_bytes()) {
        Some('\u{24c4}')
    } else if bytes_eq(name, "Pcircle".as_bytes()) {
        Some('\u{24c5}')
    } else if bytes_eq(name, "Qcircle".as_bytes()) {
        Some('\u{24c6}')
    } else if bytes_eq(name, "Rcircle".as_bytes()) {
        Some('\u{24c7}')
    } else if bytes_eq(name, "Scircle".as_bytes()) {
        Some('\u{24c8}')
    } else if bytes_eq(name, "Tcircle".as_bytes()) {
        Some('\u{24c9}')
    } else if bytes_eq(name, "Ucircle".as_bytes()) {
        Some('\u{24ca}')
    } else if bytes_eq(name, "Vcircle".as_bytes()) {
        Some('\u{24cb}')
    } else if bytes_eq(name, "Wcircle".as_bytes()) {
        Some('\u{24cc}')
    } else if bytes_eq(name, "Xcircle".as_bytes()) {
        Some('\u{24cd}')
    } else if bytes_eq(name, "Ycircle".as_bytes()) {
        Some('\u{24ce}')
    } else if bytes_eq(name, "Zcircle".as_bytes()) {
        Some('\u{24cf}')
    } else if bytes_eq(name, "acircle".as_bytes()) {
        Some('\u{24d0}')
    } else if bytes_eq(name, "bcircle".as_bytes()) {
        Some('\u{24d1}')
    } else if bytes_eq(name, "ccircle".as_bytes()) {
        Some('\u{24d2}')
    } else if bytes_eq(name, "dcircle".as_bytes()) {
        Some('\u{24d3}')
    } else if bytes_eq(name, "ecircle".as_bytes()) {
        Some('\u{24d4}')
    } else if bytes_eq(name, "fcircle".as_bytes()) {
        Some('\u{24d5}')
    } else if bytes_eq(name, "gcircle".as_bytes()) {
        Some('\u{24d6}')
    } else if bytes_eq(name, "hcircle".as_bytes()) {
        Some('\u{24d7}')
    } else if bytes_eq(name, "icircle".as_bytes()) {
        Some('\u{24d8}')
    } else if bytes_eq(name, "jcircle".as_bytes()) {
        Some('\u{24d9}')
    } else if bytes_eq(name, "kcircle".as_bytes()) {
        Some('\u{24da}')
    } else if bytes_eq(name, "lcircle".as_bytes()) {
        Some('\u{24db}')
    } else if bytes_eq(name, "mcircle".as_bytes()) {
        Some('\u{24dc}')
    } else if bytes_eq(name, "ncircle".as_bytes()) {
        Some('\u{24dd}')
    } else if bytes_eq(name, "ocircle".as_bytes()) {
        Some('\u{24de}')
    } else if bytes_eq(name, "pcircle".as_bytes()) {
        Some('\u{24df}')
    } else if bytes_eq(name, "qcircle".as_bytes()) {
        Some('\u{24e0}')
    } else if bytes_eq(name, "rcircle".as_bytes()) {
        Some('\u{24e1}')
    } else if bytes_eq(name, "scircle".as_bytes()) {
        Some('\u{24e2}')
    } else if bytes_eq(name, "tcircle".as_bytes()) {
        Some('\u{24e3}')
    } else if bytes_eq(name, "ucircle".as_bytes()) {
        Some('\u{24e4}')
    } else if bytes_eq(name, "vcircle".as_bytes()) {
        Some('\u{24e5}')
    } else if bytes_eq(name, "wcircle".as_bytes()) {
        Some('\u{24e6}')
    } else if bytes_eq(name, "xcircle".as_bytes()) {
        Some('\u{24e7}')
    } else if bytes_eq(name, "ycircle".as_bytes()) {
        Some('\u{24e8}')
    } else if bytes_eq(name, "zcircle".as_bytes()) {
        Some('\u{24e9}')
    } else {
        None
    }
}

/// The code point a glyph name stands for: the table entry where one
/// exists, the replacement character otherwise.
pub open spec fn spec_glyph_char(name: Seq<u8>) -> char {
    if glyph_char_basic(name) is Some {
        glyph_char_basic(name)->0
    } else if glyph_char_accented(name) is Some {
        glyph_char_accented(name)->0
    } else if glyph_char_marks(name) is Some {
        glyph_char_marks(name)->0
    } else if glyph_char_circled(name) is Some {
        glyph_char_circled(name)->0
    } else {
        GLYPH_FALLBACK_CHAR
    }
}

/// Resolves a glyph name to the character it stands for, with U+FFFD for
/// every name outside the table.
pub fn glyph_name_to_char(name: &[u8]) -> (r: char)
    ensures
        r == spec_glyph_char(name@),
{
    if let Some(c) = lookup_basic(name) {
        return c;
    }
    if let Some(c) = lookup_accented(name) {
        return c;
    }
    if let Some(c) = lookup_marks(name) {
        return c;
    }
    if let Some(c) = lookup_circled(name) {
        return c;
    }
    GLYPH_FALLBACK_CHAR
}

} // verus!
