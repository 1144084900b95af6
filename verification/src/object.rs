//! The typed values that a content stream and a font resource carry.
//!
//! Operands arrive already tokenized and reference-resolved: an operand is
//! an integer, a real, a name, a string, an array, or a dictionary.  An
//! operation pairs a short operator token with its operands.

use vstd::prelude::*;

use crate::errors::Error;
use crate::fixnum::{Fix, fix_in_range, FIX_SCALE};

verus! {

/// A typed value from a content stream or a resource dictionary.
#[derive(Debug)]
pub enum Object {
    Integer(i64),
    Real(Fix),
    Name(Vec<u8>),
    String(Vec<u8>),
    Array(Vec<Object>),
    Dictionary(Vec<(Vec<u8>, Object)>),
}

/// One content-stream instruction: an operator token and its operands.
#[derive(Debug)]
pub struct Operation {
    pub operator: String,
    pub operands: Vec<Object>,
}

/// The numeric reading of an operand, in thousandths: integers scale up,
/// reals stand as they are, anything else is a malformed operand.
pub open spec fn spec_num_value(o: Object) -> Result<int, Error> {
    match o {
        Object::Integer(i) => if fix_in_range(i * FIX_SCALE as int) {
            Ok(i * FIX_SCALE as int)
        } else {
            Err(Error::NumericOverflow)
        },
        Object::Real(x) => Ok(x@),
        _ => Err(Error::MalformedOperand),
    }
}

/// Reads an operand as a number.
pub fn num_value(o: &Object) -> (r: Result<Fix, Error>)
    ensures
        r is Ok <==> spec_num_value(*o) is Ok,
        r is Ok ==> r->Ok_0@ == spec_num_value(*o)->Ok_0,
        r is Err ==> r->Err_0 == spec_num_value(*o)->Err_0,
{
    match o {
        Object::Integer(i) => match Fix::from_int(*i) {
            Some(x) => Ok(x),
            None => Err(Error::NumericOverflow),
        },
        Object::Real(x) => Ok(*x),
        _ => Err(Error::MalformedOperand),
    }
}

/// Whether two byte sequences hold the same bytes.
pub fn bytes_eq(a: &[u8], b: &[u8]) -> (r: bool)
    ensures
        r <==> a@ == b@,
{
    if a.len() != b.len() {
        proof {
            if a@ == b@ {
                assert(a@.len() == b@.len());
            }
        }
        return false;
    }
    let mut i: usize = 0;
    while i < a.len()
        invariant
            i <= a@.len(),
            a@.len() == b@.len(),
            forall|j: int| 0 <= j < i ==> a@[j] == b@[j],
        decreases a@.len() - i,
    {
        if a[i] != b[i] {
            return false;
        }
        i += 1;
    }
    proof {
        assert(a@ =~= b@);
    }
    true
}

/// Whether an operation carries the given operator token.
pub fn op_is(op: &Operation, token: &str) -> (r: bool)
    ensures
        r == (op.operator@ == token@),
{
    let t: String = token.to_owned();
    op.operator == t
}

/// An owned copy of a byte sequence.
pub fn clone_bytes(v: &Vec<u8>) -> (r: Vec<u8>)
    ensures
        r@ == v@,
{
    let mut out: Vec<u8> = Vec::new();
    let mut i: usize = 0;
    while i < v.len()
        invariant
            i <= v@.len(),
            out@ == v@.take(i as int),
        decreases v@.len() - i,
    {
        out.push(v[i]);
        proof {
            assert(out@ =~= v@.take(i as int + 1));
        }
        i += 1;
    }
    proof {
        assert(v@.take(v@.len() as int) =~= v@);
    }
    out
}

/// The first entry of a dictionary whose key holds the given bytes.
pub open spec fn spec_dict_get(entries: Seq<(Vec<u8>, Object)>, key: Seq<u8>) -> Option<Object>
    decreases entries.len(),
{
    if entries.len() == 0 {
        None
    } else if entries[0].0@ == key {
        Some(entries[0].1)
    } else {
        spec_dict_get(entries.skip(1), key)
    }
}

/// Looks a key up among a dictionary's entries.
pub fn dict_get<'a>(entries: &'a Vec<(Vec<u8>, Object)>, key: &[u8]) -> (r: Option<&'a Object>)
    ensures
        r is Some <==> spec_dict_get(entries@, key@) is Some,
        r is Some ==> *r->0 == spec_dict_get(entries@, key@)->0,
{
    proof {
        assert(entries@.skip(0) =~= entries@);
    }
    let mut i: usize = 0;
    while i < entries.len()
        invariant
            i <= entries@.len(),
            spec_dict_get(entries@, key@) == spec_dict_get(entries@.skip(i as int), key@),
        decreases entries@.len() - i,
    {
        proof {
            assert(entries@.skip(i as int)[0] == entries@[i as int]);
            assert(entries@.skip(i as int).skip(1) =~= entries@.skip(i as int + 1));
        }
        if bytes_eq(entries[i].0.as_slice(), key) {
            return Some(&entries[i].1);
        }
        i += 1;
    }
    None
}

} // verus!
