//! Affine transforms of text space.
//!
//! A transform holds six coefficients: a 2-by-2 linear part and a
//! translation.  The engine composes translations onto an existing matrix by
//! pre-multiplying, so a translation by `(x, y)` keeps the linear part and
//! moves the translation row to `(x*a + y*c + e, x*b + y*d + f)`.

use vstd::prelude::*;

use crate::fixnum::{Fix, fix_checked_add, fix_checked_mul, FIX_SCALE};

verus! {

/// The mathematical value of a transform: six coefficients in thousandths.
pub ghost struct MatrixVal {
    pub a: int,
    pub b: int,
    pub c: int,
    pub d: int,
    pub e: int,
    pub f: int,
}

/// The identity transform.
pub open spec fn mat_identity() -> MatrixVal {
    MatrixVal { a: FIX_SCALE as int, b: 0, c: 0, d: FIX_SCALE as int, e: 0, f: 0 }
}

/// The translation row of pre-multiplying a translation by `(x, y)` onto
/// `m`, one coordinate at a time; nothing where a step leaves the
/// representable range.
pub open spec fn spec_translate_coord(x: int, y: int, p: int, q: int, base: int) -> Option<int> {
    fix_checked_add(fix_checked_add(fix_checked_mul(x, p), fix_checked_mul(y, q)), Some(base))
}

/// Pre-multiplies a translation by `(x, y)` onto `m`: the linear part stays,
/// the translation row becomes `(x*a + y*c + e, x*b + y*d + f)`.
pub open spec fn spec_translate_pre(x: int, y: int, m: MatrixVal) -> Option<MatrixVal> {
    let e2 = spec_translate_coord(x, y, m.a, m.c, m.e);
    let f2 = spec_translate_coord(x, y, m.b, m.d, m.f);
    match (e2, f2) {
        (Some(e2), Some(f2)) => Some(MatrixVal { a: m.a, b: m.b, c: m.c, d: m.d, e: e2, f: f2 }),
        _ => None,
    }
}

/// A 2-D affine transform: linear part `a b c d`, translation `e f`.
#[derive(Clone, Copy, Debug, PartialEq, Eq, Structural)]
pub struct Matrix {
    pub a: Fix,
    pub b: Fix,
    pub c: Fix,
    pub d: Fix,
    pub e: Fix,
    pub f: Fix,
}

impl View for Matrix {
    type V = MatrixVal;

    open spec fn view(&self) -> MatrixVal {
        MatrixVal { a: self.a@, b: self.b@, c: self.c@, d: self.d@, e: self.e@, f: self.f@ }
    }
}

impl Matrix {
    /// The identity transform.
    pub fn identity() -> (r: Matrix)
        ensures
            r@ == mat_identity(),
    {
        Matrix {
            a: Fix::one(),
            b: Fix::zero(),
            c: Fix::zero(),
            d: Fix::one(),
            e: Fix::zero(),
            f: Fix::zero(),
        }
    }

    /// A transform from its six coefficients, in row-major order.
    pub fn from_row_major(a: Fix, b: Fix, c: Fix, d: Fix, e: Fix, f: Fix) -> (r: Matrix)
        ensures
            r@ == (MatrixVal { a: a@, b: b@, c: c@, d: d@, e: e@, f: f@ }),
    {
        Matrix { a, b, c, d, e, f }
    }

    /// Pre-multiplies a translation by `(x, y)` onto this transform.
    pub fn translate_pre(&self, x: Fix, y: Fix) -> (r: Option<Matrix>)
        ensures
            r is Some <==> spec_translate_pre(x@, y@, self@) is Some,
            r is Some ==> r->0@ == spec_translate_pre(x@, y@, self@)->0,
    {
        let xa = x.mul(self.a)?;
        let yc = y.mul(self.c)?;
        let se = xa.add(yc)?;
        let e2 = se.add(self.e)?;
        let xb = x.mul(self.b)?;
        let yd = y.mul(self.d)?;
        let sf = xb.add(yd)?;
        let f2 = sf.add(self.f)?;
        Some(Matrix { a: self.a, b: self.b, c: self.c, d: self.d, e: e2, f: f2 })
    }

    /// Where this transform places the text-space origin: the translation
    /// row.
    pub fn origin(&self) -> (r: (Fix, Fix))
        ensures
            r.0@ == self@.e,
            r.1@ == self@.f,
    {
        (self.e, self.f)
    }
}

} // verus!
