//! The per-code overrides of an encoding: the differences table.
//!
//! A differences array alternates integer markers with runs of glyph names:
//! an integer resets the running code, a name claims the running code and
//! advances it by one.  Later entries for a code silently win.  The table
//! that results depends only on the array's contents, never on how the
//! names are grouped behind their markers.

use vstd::prelude::*;

use crate::encoding::GlyphName;
use crate::object::Object;

verus! {

/// One step of reading a differences array: an integer resets the running
/// code (wrapping to 32 bits as a cast does), a name claims the running
/// code truncated to a byte and advances the running code by one, anything
/// else changes nothing.
pub open spec fn spec_diff_step(
    table: Map<u8, Seq<u8>>,
    index: u32,
    element: Object,
) -> (Map<u8, Seq<u8>>, u32) {
    match element {
        Object::Integer(i) => (table, i as u32),
        Object::Name(n) => (
            table.insert(index as u8, n@),
            if index == u32::MAX {
                0u32
            } else {
                (index + 1) as u32
            },
        ),
        _ => (table, index),
    }
}

/// Reading a whole differences array left to right from a running state.
pub open spec fn spec_diff_fold(
    table: Map<u8, Seq<u8>>,
    index: u32,
    elements: Seq<Object>,
) -> Map<u8, Seq<u8>>
    decreases elements.len(),
{
    if elements.len() == 0 {
        table
    } else {
        let (t2, i2) = spec_diff_step(table, index, elements[0]);
        spec_diff_fold(t2, i2, elements.skip(1))
    }
}

/// The table a differences array describes: a fold from the empty table
/// with the running code starting at zero.
pub open spec fn spec_differences(elements: Seq<Object>) -> Map<u8, Seq<u8>> {
    spec_diff_fold(Map::empty(), 0u32, elements)
}

/// An encoding's per-code overrides, mapping single-byte codes to glyph
/// names.
#[derive(Debug)]
pub struct Differences {
    /// One slot per possible code.
    table: Vec<Option<GlyphName>>,
}

impl View for Differences {
    type V = Map<u8, Seq<u8>>;

    closed spec fn view(&self) -> Map<u8, Seq<u8>> {
        Map::new(
            |c: u8| self.table@[c as int] is Some,
            |c: u8| self.table@[c as int]->0@,
        )
    }
}

impl Differences {
    /// Every possible code has its slot.
    #[verifier::type_invariant]
    closed spec fn wf(self) -> bool {
        self.table@.len() == 256
    }

    /// An empty table: no code is overridden.
    pub fn empty() -> (r: Differences)
        ensures
            r@ == Map::<u8, Seq<u8>>::empty(),
    {
        let mut table: Vec<Option<GlyphName>> = Vec::new();
        let mut i: usize = 0;
        while i < 256
            invariant
                i <= 256,
                table@.len() == i,
                forall|j: int| 0 <= j < i ==> table@[j] is None,
            decreases 256 - i,
        {
            table.push(None);
            i += 1;
        }
        let r = Differences { table };
        proof {
            assert(r@ =~= Map::<u8, Seq<u8>>::empty());
        }
        r
    }

    /// The table a differences array describes.
    pub fn from_array(elements: &Vec<Object>) -> (r: Differences)
        ensures
            r@ == spec_differences(elements@),
    {
        let mut r = Differences::empty();
        let mut index: u32 = 0;
        let mut i: usize = 0;
        proof {
            assert(elements@.skip(0) =~= elements@);
        }
        while i < elements.len()
            invariant
                i <= elements@.len(),
                spec_differences(elements@) == spec_diff_fold(r@, index, elements@.skip(i as int)),
            decreases elements@.len() - i,
        {
            proof {
                assert(elements@.skip(i as int)[0] == elements@[i as int]);
                assert(elements@.skip(i as int).skip(1) =~= elements@.skip(i as int + 1));
            }
            match &elements[i] {
                Object::Integer(code) => {
                    index = #[verifier::truncate] (*code as u32);
                },
                Object::Name(name) => {
                    let code: u8 = #[verifier::truncate] (index as u8);
                    r = r.with_entry(code, GlyphName::new(crate::object::clone_bytes(name)));
                    index = if index == u32::MAX {
                        0
                    } else {
                        index + 1
                    };
                },
                _ => {},
            }
            i += 1;
        }
        r
    }

    /// The same table with one more glyph name stored for a code.
    fn with_entry(self, code: u8, name: GlyphName) -> (r: Differences)
        ensures
            r@ == self@.insert(code, name@),
    {
        proof {
            use_type_invariant(&self);
        }
        let ghost before = self@;
        let mut table = self.table;
        table.set(code as usize, Some(name));
        let r = Differences { table };
        proof {
            assert(r@ =~= before.insert(code, name@));
        }
        r
    }

    /// The glyph name a code is overridden with, if any.
    pub fn lookup(&self, char_code: u8) -> (r: Option<&GlyphName>)
        ensures
            r is Some <==> self@.contains_key(char_code),
            r is Some ==> r->0@ == self@[char_code],
    {
        proof {
            use_type_invariant(&*self);
        }
        match &self.table[char_code as usize] {
            Some(name) => Some(name),
            None => None,
        }
    }
}

} // verus!
