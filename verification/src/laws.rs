//! Laws of the engine: properties that hold of all inputs, stated once and
//! proved from the specifications the executable functions carry.

use vstd::prelude::*;

use crate::differences::{spec_diff_fold, spec_diff_step};
use crate::fixnum::{
    fix_in_range, fix_mul_val, lemma_fix_mul_one, lemma_fix_mul_zero, trunc_div, Fix, FIX_SCALE,
};
use crate::font::{spec_width_for_char, FontVal};
use crate::graphics::{spec_engine_run, spec_engine_step};
use crate::object::Object;
use crate::text::{
    spec_apply_adjustment, spec_apply_translation, spec_text_state_apply, BuilderVal, FragmentVal,
    TextStateVal,
};

verus! {

/// A character code outside a font's `[FirstChar, LastChar]` range has zero
/// advance width, whatever the width table holds.
pub proof fn lemma_width_out_of_range(f: FontVal, c: u8)
    requires
        (c as int) < f.first_char || (c as int) > f.last_char,
    ensures
        spec_width_for_char(f, c) == 0,
{
}

/// An integer marker equal to the running code changes nothing while a
/// differences array is read: the table it describes does not depend on how
/// many names follow each marker, only on which code each name lands on.
pub proof fn lemma_differences_marker_split(
    table: Map<u8, Seq<u8>>,
    index: u32,
    marker: i64,
    rest: Seq<Object>,
)
    requires
        marker as u32 == index,
    ensures
        spec_diff_fold(table, index, seq![Object::Integer(marker)] + rest) == spec_diff_fold(
            table,
            index,
            rest,
        ),
{
    let s = seq![Object::Integer(marker)] + rest;
    assert(s[0] == Object::Integer(marker));
    assert(s.skip(1) =~= rest);
    assert(spec_diff_step(table, index, s[0]) == (table, index));
}

/// Two successive moves from a line matrix with an identity linear part
/// accumulate: the matrices end up translating by the sum of the moves, and
/// the text matrix tracks the line matrix.
pub proof fn lemma_moves_accumulate(b: BuilderVal, x1: int, y1: int, x2: int, y2: int)
    requires
        b.text_line_matrix.a == FIX_SCALE as int,
        b.text_line_matrix.b == 0,
        b.text_line_matrix.c == 0,
        b.text_line_matrix.d == FIX_SCALE as int,
        fix_in_range(x1),
        fix_in_range(y1),
        fix_in_range(x2),
        fix_in_range(y2),
        fix_in_range(x1 + b.text_line_matrix.e),
        fix_in_range(y1 + b.text_line_matrix.f),
        fix_in_range(x2 + x1 + b.text_line_matrix.e),
        fix_in_range(y2 + y1 + b.text_line_matrix.f),
    ensures
        spec_apply_translation(b, x1, y1) is Some,
        spec_apply_translation(spec_apply_translation(b, x1, y1)->0, x2, y2) is Some,
        ({
            let after = spec_apply_translation(spec_apply_translation(b, x1, y1)->0, x2, y2)->0;
            &&& after.text_matrix == after.text_line_matrix
            &&& after.text_matrix.e == x2 + x1 + b.text_line_matrix.e
            &&& after.text_matrix.f == y2 + y1 + b.text_line_matrix.f
            &&& after.text_matrix.a == FIX_SCALE as int
            &&& after.text_matrix.b == 0
            &&& after.text_matrix.c == 0
            &&& after.text_matrix.d == FIX_SCALE as int
            &&& after.fragments == b.fragments
        }),
{
    lemma_fix_mul_one(x1);
    lemma_fix_mul_one(y1);
    lemma_fix_mul_one(x2);
    lemma_fix_mul_one(y2);
    lemma_fix_mul_zero(x1);
    lemma_fix_mul_zero(y1);
    lemma_fix_mul_zero(x2);
    lemma_fix_mul_zero(y2);
}

/// Only the end-of-text-object operator emits a text run: a sequence with
/// no end operator yields none, however it moves or shows text — an open
/// text object is observable only once it is explicitly closed.
pub proof fn lemma_only_end_emits(
    fonts: Map<Seq<u8>, FontVal>,
    ts: TextStateVal,
    builder: Option<BuilderVal>,
    ops: Seq<crate::object::Operation>,
)
    requires
        forall|i: int| 0 <= i < ops.len() ==> (#[trigger] ops[i]).operator@ != "ET"@,
    ensures
        spec_engine_run(fonts, ts, builder, ops) is Ok ==> (spec_engine_run(
            fonts,
            ts,
            builder,
            ops,
        )->Ok_0).2 == Seq::<Seq<FragmentVal>>::empty(),
    decreases ops.len(),
{
    if ops.len() > 0 {
        let step = spec_engine_step(fonts, ts, builder, ops[0]);
        assert(ops[0].operator@ != "ET"@);
        if step is Ok {
            let (ts2, b2, emitted) = step->Ok_0;
            assert(emitted is None);
            assert(forall|i: int|
                0 <= i < ops.skip(1).len() ==> (#[trigger] ops.skip(1)[i]).operator@ != "ET"@);
            lemma_only_end_emits(fonts, ts2, b2, ops.skip(1));
            if spec_engine_run(fonts, ts2, b2, ops.skip(1)) is Ok {
                let rest = (spec_engine_run(fonts, ts2, b2, ops.skip(1))->Ok_0).2;
                assert(Seq::<Seq<FragmentVal>>::empty() + rest =~= rest);
            }
        }
    }
}

/// The leading operator sets the leading from a real operand but subtracts
/// an integer operand from it: a deliberate asymmetry of this engine.
pub proof fn lemma_leading_set_vs_subtract(
    ts: TextStateVal,
    op_real: crate::object::Operation,
    op_int: crate::object::Operation,
    x: Fix,
    k: i64,
)
    requires
        op_real.operator@ == "TL"@,
        op_real.operands@ == seq![Object::Real(x)],
        op_int.operator@ == "TL"@,
        op_int.operands@ == seq![Object::Integer(k)],
        fix_in_range(k * FIX_SCALE as int),
        fix_in_range(x@ - k * FIX_SCALE as int),
    ensures
        spec_text_state_apply(ts, op_real) is Ok,
        spec_text_state_apply(ts, op_real)->Ok_0.text_leading == x@,
        spec_text_state_apply(spec_text_state_apply(ts, op_real)->Ok_0, op_int) is Ok,
        spec_text_state_apply(
            spec_text_state_apply(ts, op_real)->Ok_0,
            op_int,
        )->Ok_0.text_leading == x@ - k * FIX_SCALE as int,
{
    reveal_strlit("Tc");
    reveal_strlit("Tw");
    reveal_strlit("Tz");
    reveal_strlit("TL");
    assert("TL"@ != "Tc"@) by {
        if "TL"@ == "Tc"@ {
            assert("TL"@[1] == "Tc"@[1]);
        }
    }
    assert("TL"@ != "Tw"@) by {
        if "TL"@ == "Tw"@ {
            assert("TL"@[1] == "Tw"@[1]);
        }
    }
    assert("TL"@ != "Tz"@) by {
        if "TL"@ == "Tz"@ {
            assert("TL"@[1] == "Tz"@[1]);
        }
    }
    assert(op_real.operands@[0] == Object::Real(x));
    assert(op_int.operands@[0] == Object::Integer(k));
}

/// A show-array number moves the text matrix left, never right, for a
/// positive amount: with unit horizontal scaling and an identity linear
/// part, the origin shifts by exactly the amount in thousandths times the
/// font size.
pub proof fn lemma_adjustment_moves_left(ts: TextStateVal, b: BuilderVal, amount: int)
    requires
        ts.horizontal_scaling == FIX_SCALE as int,
        b.text_matrix.a == FIX_SCALE as int,
        b.text_matrix.b == 0,
        fix_in_range(fix_mul_val(trunc_div(amount, FIX_SCALE as int), ts.text_font_size)),
        fix_in_range(
            b.text_matrix.e - fix_mul_val(trunc_div(amount, FIX_SCALE as int), ts.text_font_size),
        ),
        fix_in_range(b.text_matrix.f),
    ensures
        spec_apply_adjustment(ts, b, amount) is Some,
        ({
            let after = spec_apply_adjustment(ts, b, amount)->0;
            let tx = fix_mul_val(trunc_div(amount, FIX_SCALE as int), ts.text_font_size);
            &&& after.text_matrix.e == b.text_matrix.e - tx
            &&& after.text_matrix.f == b.text_matrix.f
            &&& after.text_line_matrix == b.text_line_matrix
            &&& after.fragments == b.fragments
        }),
{
    let tx = fix_mul_val(trunc_div(amount, FIX_SCALE as int), ts.text_font_size);
    lemma_fix_mul_one(tx);
    lemma_fix_mul_one(-tx);
    lemma_fix_mul_zero(-tx);
    lemma_fix_mul_zero(b.text_matrix.c);
    lemma_fix_mul_zero(b.text_matrix.d);
    lemma_fix_mul_zero(0);
}

} // verus!
