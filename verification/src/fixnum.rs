//! Fixed-point numbers.
//!
//! Content streams carry plain decimal numbers (coordinates, spacings,
//! widths), and every computation the layout engine performs on them is a
//! short chain of additions and multiplications.  A number is held as an
//! integer count of thousandths of a unit, so a width of `0.25` is the
//! value `250`.  Multiplication therefore divides the raw product by the
//! scale, truncating toward zero, and every operation that could leave the
//! representable range reports that instead of wrapping.

use vstd::prelude::*;

verus! {

use vstd::arithmetic::mul::lemma_mul_nonnegative;
use vstd::arithmetic::mul::lemma_mul_unary_negation;

/// Number of thousandths in one unit: the scale of all fixed-point values.
pub const FIX_SCALE: i64 = 1000;

/// Largest magnitude, in thousandths, that a fixed-point value may hold.
pub const FIX_MAX: i64 = 0x3fff_ffff_ffff_ffff;

/// The range of raw values a `Fix` can represent.
pub open spec fn fix_in_range(v: int) -> bool {
    -FIX_MAX <= v <= FIX_MAX
}

/// Division truncating toward zero, for a positive divisor.
pub open spec fn trunc_div(p: int, d: int) -> int
    recommends
        d > 0,
{
    if p >= 0 {
        p / d
    } else {
        -((-p) / d)
    }
}

/// The raw value of the product of two fixed-point values: the scale divides
/// the raw product once, truncating toward zero.
pub open spec fn fix_mul_val(a: int, b: int) -> int {
    trunc_div(a * b, FIX_SCALE as int)
}

/// A raw value where it is representable, nothing where it is not.
pub open spec fn fix_checked(v: int) -> Option<int> {
    if fix_in_range(v) {
        Some(v)
    } else {
        None
    }
}

/// Checked addition of two optional raw values: any missing operand or an
/// out-of-range sum yields nothing.
pub open spec fn fix_checked_add(a: Option<int>, b: Option<int>) -> Option<int> {
    match (a, b) {
        (Some(x), Some(y)) => fix_checked(x + y),
        _ => None,
    }
}

/// Checked multiplication of two raw values.
pub open spec fn fix_checked_mul(a: int, b: int) -> Option<int> {
    fix_checked(fix_mul_val(a, b))
}

/// A number from a content stream or a font table, in thousandths of a unit.
#[derive(Clone, Copy, Debug, PartialEq, Eq, Structural)]
pub struct Fix {
    v: i64,
}

impl View for Fix {
    type V = int;

    closed spec fn view(&self) -> int {
        self.v as int
    }
}

impl Fix {
    #[verifier::type_invariant]
    closed spec fn wf(self) -> bool {
        fix_in_range(self.v as int)
    }

    /// The value zero.
    pub fn zero() -> (r: Fix)
        ensures
            r@ == 0,
    {
        Fix { v: 0 }
    }

    /// The value one, that is `FIX_SCALE` thousandths.
    pub fn one() -> (r: Fix)
        ensures
            r@ == FIX_SCALE as int,
    {
        Fix { v: FIX_SCALE }
    }

    /// A value from a raw count of thousandths, where it is representable.
    pub fn from_millis(v: i64) -> (r: Option<Fix>)
        ensures
            r is Some <==> fix_in_range(v as int),
            r is Some ==> r->0@ == v as int,
    {
        if -FIX_MAX <= v && v <= FIX_MAX {
            Some(Fix { v })
        } else {
            None
        }
    }

    /// A value from a whole number of units, where it is representable.
    pub fn from_int(i: i64) -> (r: Option<Fix>)
        ensures
            r is Some <==> fix_in_range(i * FIX_SCALE as int),
            r is Some ==> r->0@ == i * FIX_SCALE as int,
    {
        let wide: i128 = (i as i128) * (FIX_SCALE as i128);
        if -(FIX_MAX as i128) <= wide && wide <= FIX_MAX as i128 {
            Some(Fix { v: wide as i64 })
        } else {
            None
        }
    }

    /// The raw count of thousandths.
    pub fn millis(self) -> (r: i64)
        ensures
            r as int == self@,
    {
        self.v
    }

    /// Sum, where the result is representable.
    pub fn add(self, other: Fix) -> (r: Option<Fix>)
        ensures
            r is Some <==> fix_in_range(self@ + other@),
            r is Some ==> r->0@ == self@ + other@,
    {
        proof {
            use_type_invariant(&self);
            use_type_invariant(&other);
        }
        let s: i64 = self.v + other.v;
        if -FIX_MAX <= s && s <= FIX_MAX {
            Some(Fix { v: s })
        } else {
            None
        }
    }

    /// Difference, where the result is representable.
    pub fn sub(self, other: Fix) -> (r: Option<Fix>)
        ensures
            r is Some <==> fix_in_range(self@ - other@),
            r is Some ==> r->0@ == self@ - other@,
    {
        proof {
            use_type_invariant(&self);
            use_type_invariant(&other);
        }
        let s: i64 = self.v - other.v;
        if -FIX_MAX <= s && s <= FIX_MAX {
            Some(Fix { v: s })
        } else {
            None
        }
    }

    /// Negation; always representable since the range is symmetric.
    pub fn neg(self) -> (r: Fix)
        ensures
            r@ == -self@,
    {
        proof {
            use_type_invariant(&self);
        }
        Fix { v: -self.v }
    }

    /// Product of two fixed-point values, where it is representable: the raw
    /// product divided by the scale, truncating toward zero.
    pub fn mul(self, other: Fix) -> (r: Option<Fix>)
        ensures
            r is Some <==> fix_in_range(fix_mul_val(self@, other@)),
            r is Some ==> r->0@ == fix_mul_val(self@, other@),
    {
        proof {
            use_type_invariant(&self);
            use_type_invariant(&other);
        }
        let a_neg = self.v < 0;
        let b_neg = other.v < 0;
        let ma: u64 = if a_neg {
            (-self.v) as u64
        } else {
            self.v as u64
        };
        let mb: u64 = if b_neg {
            (-other.v) as u64
        } else {
            other.v as u64
        };
        proof {
            lemma_magnitude_product(self.v as int, other.v as int, ma as int, mb as int);
            assert((ma as u128) * (mb as u128) <= (FIX_MAX as u128) * (FIX_MAX as u128))
                by (nonlinear_arith)
                requires
                    ma as u128 <= FIX_MAX as u128,
                    mb as u128 <= FIX_MAX as u128,
            ;
        }
        let m: u128 = (ma as u128) * (mb as u128);
        let q: u128 = m / (FIX_SCALE as u128);
        proof {
            lemma_trunc_div_of_signed(self.v as int * other.v as int, m as int, FIX_SCALE as int);
        }
        if q > FIX_MAX as u128 {
            return None;
        }
        let qv: i64 = q as i64;
        let v: i64 = if a_neg != b_neg {
            -qv
        } else {
            qv
        };
        proof {
            let p = self.v as int * other.v as int;
            if p < 0 {
                assert(a_neg != b_neg);
                assert(v as int == -(m as int / FIX_SCALE as int));
            } else {
                if a_neg != b_neg {
                    assert(p <= 0);
                    assert(m as int == p);
                    assert(q == 0) by {
                        assert(m as int / FIX_SCALE as int == 0);
                    }
                }
                assert(v as int == m as int / FIX_SCALE as int);
            }
        }
        Some(Fix { v })
    }

    /// The raw value divided by a positive divisor, truncating toward zero;
    /// always representable since the magnitude cannot grow.
    pub fn div_by(self, d: i64) -> (r: Fix)
        requires
            d > 0,
        ensures
            r@ == trunc_div(self@, d as int),
    {
        proof {
            use_type_invariant(&self);
        }
        if self.v >= 0 {
            let q: i64 = self.v / d;
            proof {
                vstd::arithmetic::div_mod::lemma_div_is_ordered_by_denominator(
                    self.v as int,
                    1,
                    d as int,
                );
            }
            Fix { v: q }
        } else {
            let m: i64 = -self.v;
            let q: i64 = m / d;
            proof {
                vstd::arithmetic::div_mod::lemma_div_is_ordered_by_denominator(m as int, 1, d as int);
            }
            Fix { v: -q }
        }
    }
}

/// Multiplying by one — the scale itself — changes nothing: the scale
/// divides back out exactly.
pub proof fn lemma_fix_mul_one(x: int)
    ensures
        fix_mul_val(x, FIX_SCALE as int) == x,
        fix_mul_val(FIX_SCALE as int, x) == x,
{
    let d = FIX_SCALE as int;
    vstd::arithmetic::mul::lemma_mul_is_commutative(x, d);
    if x >= 0 {
        vstd::arithmetic::div_mod::lemma_div_multiples_vanish(x, d);
    } else {
        lemma_mul_unary_negation(x, d);
        vstd::arithmetic::mul::lemma_mul_is_commutative(-x, d);
        vstd::arithmetic::div_mod::lemma_div_multiples_vanish(-x, d);
    }
}

/// Multiplying by zero yields zero.
pub proof fn lemma_fix_mul_zero(x: int)
    ensures
        fix_mul_val(x, 0) == 0,
        fix_mul_val(0, x) == 0,
{
    vstd::arithmetic::mul::lemma_mul_basics(x);
}

/// The magnitudes of two signed values multiply to the magnitude of their
/// product.
proof fn lemma_magnitude_product(a: int, b: int, ma: int, mb: int)
    requires
        ma == if a < 0 {
            -a
        } else {
            a
        },
        mb == if b < 0 {
            -b
        } else {
            b
        },
    ensures
        ma >= 0,
        mb >= 0,
        ma * mb >= 0,
        a * b >= 0 ==> ma * mb == a * b,
        a * b < 0 ==> ma * mb == -(a * b),
        ((a < 0) != (b < 0)) ==> a * b <= 0,
        ((a < 0) == (b < 0)) ==> a * b >= 0,
{
    lemma_mul_nonnegative(ma, mb);
    if a >= 0 && b >= 0 {
        lemma_mul_nonnegative(a, b);
    } else if a < 0 && b < 0 {
        lemma_mul_unary_negation(a, b);
        lemma_mul_unary_negation(-a, -b);
        lemma_mul_nonnegative(-a, -b);
    } else if a < 0 {
        lemma_mul_unary_negation(a, b);
        lemma_mul_nonnegative(-a, b);
        if a * b == 0 {
            assert(ma * mb == -(a * b));
        }
    } else {
        lemma_mul_unary_negation(b, a);
        vstd::arithmetic::mul::lemma_mul_is_commutative(a, b);
        vstd::arithmetic::mul::lemma_mul_is_commutative(a, -b);
        lemma_mul_nonnegative(a, -b);
        if a * b == 0 {
            assert(ma * mb == -(a * b));
        }
    }
}

/// Truncating division of a signed value relates to plain division of its
/// magnitude.
proof fn lemma_trunc_div_of_signed(p: int, m: int, d: int)
    requires
        d > 0,
        m == if p < 0 {
            -p
        } else {
            p
        },
    ensures
        trunc_div(p, d) == if p < 0 {
            -(m / d)
        } else {
            m / d
        },
        m / d >= 0,
{
    vstd::arithmetic::div_mod::lemma_div_pos_is_pos(m, d);
}

} // verus!
