//! Driving a content stream: the begin/end state machine over text objects.
//!
//! The decoder walks the operator sequence once.  A begin operator opens a
//! text object and resets the positioning matrices; an end operator emits
//! the accumulated fragments as one completed object.  State-setting
//! operators apply anywhere, since the text state persists across text
//! objects; positioning and showing operators outside a text object violate
//! the protocol; operators outside this engine's scope are skipped.  A text
//! object still open when the sequence ends is discarded, never emitted.

use vstd::prelude::*;

use crate::errors::Error;
use crate::font::{FontMap, FontVal};
use crate::object::{op_is, Operation};
use crate::text::{
    spec_builder_apply, spec_builder_new, spec_is_position_op, spec_is_show_op,
    spec_text_state_apply, spec_text_state_default, BuilderVal, FragmentVal, TextObject,
    TextObjectBuilder, TextState, TextStateVal,
};

verus! {

/// The graphics state a decoder threads through a content stream; the text
/// state is the only component this engine carries.
#[derive(Debug)]
pub struct GraphicsState {
    pub text_state: TextState,
}

impl GraphicsState {
    /// The graphics state at the start of a content stream.
    pub fn new() -> (r: GraphicsState)
        ensures
            r.text_state@ == spec_text_state_default(),
    {
        GraphicsState { text_state: TextState::default() }
    }
}

/// A completed graphics object; text is the only kind this engine decodes.
#[derive(Debug)]
pub enum GraphicsObject {
    Text(TextObject),
}

impl View for GraphicsObject {
    type V = Seq<FragmentVal>;

    open spec fn view(&self) -> Seq<FragmentVal> {
        match self {
            GraphicsObject::Text(t) => t@,
        }
    }
}

/// Whether a token is a state-setting operator.
pub open spec fn spec_is_state_op(operator: Seq<char>) -> bool {
    ||| operator == "Tc"@
    ||| operator == "Tw"@
    ||| operator == "Tz"@
    ||| operator == "TL"@
    ||| operator == "Tf"@
}

/// One step of the machine.  Begin opens a text object with fresh matrices
/// and fails inside one; end emits the accumulated fragments and fails
/// outside one; state-setting operators apply anywhere; positioning and
/// showing operators apply inside a text object and violate the protocol
/// outside one; anything else is skipped.
pub open spec fn spec_engine_step(
    fonts: Map<Seq<u8>, FontVal>,
    ts: TextStateVal,
    builder: Option<BuilderVal>,
    op: Operation,
) -> Result<(TextStateVal, Option<BuilderVal>, Option<Seq<FragmentVal>>), Error> {
    if op.operator@ == "BT"@ {
        match builder {
            Some(_) => Err(Error::ProtocolViolation),
            None => Ok((ts, Some(spec_builder_new()), None)),
        }
    } else if op.operator@ == "ET"@ {
        match builder {
            Some(b) => Ok((ts, None, Some(b.fragments))),
            None => Err(Error::ProtocolViolation),
        }
    } else if spec_is_state_op(op.operator@) {
        match spec_text_state_apply(ts, op) {
            Ok(ts2) => Ok((ts2, builder, None)),
            Err(e) => Err(e),
        }
    } else if spec_is_position_op(op.operator@) || spec_is_show_op(op.operator@) {
        match builder {
            Some(b) => match spec_builder_apply(fonts, ts, b, op) {
                Ok((ts2, b2)) => Ok((ts2, Some(b2), None)),
                Err(e) => Err(e),
            },
            None => Err(Error::ProtocolViolation),
        }
    } else {
        Ok((ts, builder, None))
    }
}

/// Running the machine over a whole operator sequence, collecting the
/// emitted text objects in order.
pub open spec fn spec_engine_run(
    fonts: Map<Seq<u8>, FontVal>,
    ts: TextStateVal,
    builder: Option<BuilderVal>,
    ops: Seq<Operation>,
) -> Result<(TextStateVal, Option<BuilderVal>, Seq<Seq<FragmentVal>>), Error>
    decreases ops.len(),
{
    if ops.len() == 0 {
        Ok((ts, builder, Seq::empty()))
    } else {
        match spec_engine_step(fonts, ts, builder, ops[0]) {
            Err(e) => Err(e),
            Ok((ts2, b2, emitted)) => match spec_engine_run(fonts, ts2, b2, ops.skip(1)) {
                Err(e) => Err(e),
                Ok((tsf, bf, runs)) => Ok(
                    (
                        tsf,
                        bf,
                        (match emitted {
                            Some(f) => seq![f],
                            None => Seq::empty(),
                        }) + runs,
                    ),
                ),
            },
        }
    }
}

/// What interpreting a content stream yields: the ordered list of completed
/// text objects, starting from the default text state outside any text
/// object.  A text object the sequence leaves open is discarded.
pub open spec fn spec_decode_text_objects(
    fonts: Map<Seq<u8>, FontVal>,
    ops: Seq<Operation>,
) -> Result<Seq<Seq<FragmentVal>>, Error> {
    match spec_engine_run(fonts, spec_text_state_default(), None, ops) {
        Ok((ts, b, runs)) => Ok(runs),
        Err(e) => Err(e),
    }
}

/// Stepping the machine until it emits its next completed object: the state
/// it reaches, the operators left after the emitting operator, and the
/// emitted fragments — or no fragments where the sequence ran out first.
pub open spec fn spec_next_object(
    fonts: Map<Seq<u8>, FontVal>,
    ts: TextStateVal,
    builder: Option<BuilderVal>,
    ops: Seq<Operation>,
) -> Result<
    (TextStateVal, Option<BuilderVal>, Seq<Operation>, Option<Seq<FragmentVal>>),
    Error,
>
    decreases ops.len(),
{
    if ops.len() == 0 {
        Ok((ts, builder, ops, None))
    } else {
        match spec_engine_step(fonts, ts, builder, ops[0]) {
            Err(e) => Err(e),
            Ok((ts2, b2, emitted)) => match emitted {
                Some(f) => Ok((ts2, b2, ops.skip(1), Some(f))),
                None => spec_next_object(fonts, ts2, b2, ops.skip(1)),
            },
        }
    }
}

/// The values of a sequence of text objects.
pub open spec fn objects_view(s: Seq<TextObject>) -> Seq<Seq<FragmentVal>> {
    s.map_values(|t: TextObject| t@)
}

/// Walks a content stream's operators and hands out its text objects one by
/// one.
#[derive(Debug)]
pub struct GraphicsObjectDecoder {
    state: GraphicsState,
    builder: Option<TextObjectBuilder>,
    operations: Vec<Operation>,
    pos: usize,
}

impl GraphicsObjectDecoder {
    /// The decoder never walks past the end of its operators.
    pub closed spec fn wf(self) -> bool {
        self.pos <= self.operations@.len()
    }

    /// The operators not yet interpreted.
    pub closed spec fn remaining(self) -> Seq<Operation> {
        self.operations@.skip(self.pos as int)
    }

    /// The current text state.
    pub closed spec fn text_state_val(self) -> TextStateVal {
        self.state.text_state@
    }

    /// The text object under construction, where one is open.
    pub closed spec fn builder_val(self) -> Option<BuilderVal> {
        match self.builder {
            Some(b) => Some(b@),
            None => None,
        }
    }

    /// A decoder over an operator sequence, in the default text state and
    /// outside any text object.
    pub fn decode(operations: Vec<Operation>) -> (r: GraphicsObjectDecoder)
        ensures
            r.wf(),
            r.remaining() == operations@,
            r.text_state_val() == spec_text_state_default(),
            r.builder_val() is None,
    {
        let r = GraphicsObjectDecoder {
            state: GraphicsState::new(),
            builder: None,
            operations,
            pos: 0,
        };
        proof {
            assert(r.remaining() =~= r.operations@);
        }
        r
    }

    /// Interprets the next operator.
    fn step_op(&mut self, font_map: &FontMap) -> (r: Result<Option<GraphicsObject>, Error>)
        requires
            old(self).wf(),
            old(self).remaining().len() > 0,
        ensures
            final(self).wf(),
            match spec_engine_step(
                font_map@,
                old(self).text_state_val(),
                old(self).builder_val(),
                old(self).remaining()[0],
            ) {
                Err(e) => r is Err && r->Err_0 == e,
                Ok((ts2, b2, emitted)) => r is Ok && final(self).text_state_val() == ts2
                    && final(self).builder_val() == b2
                    && final(self).remaining() == old(self).remaining().skip(1)
                    && (match emitted {
                    Some(f) => r->Ok_0 is Some && r->Ok_0->0@ == f,
                    None => r->Ok_0 is None,
                }),
            },
    {
        let op_count: usize = self.operations.len();
        proof {
            assert(self.remaining().len() == self.operations@.len() - self.pos as int);
            assert(self.pos < op_count);
            assert(self.remaining()[0] == self.operations@[self.pos as int]);
            assert(self.remaining().skip(1) =~= self.operations@.skip(self.pos as int + 1));
        }
        let op = &self.operations[self.pos];
        if op_is(op, "BT") {
            if self.builder.is_some() {
                return Err(Error::ProtocolViolation);
            }
            self.builder = Some(TextObjectBuilder::new());
            self.pos = self.pos + 1;
            Ok(None)
        } else if op_is(op, "ET") {
            let mut taken: Option<TextObjectBuilder> = None;
            std::mem::swap(&mut taken, &mut self.builder);
            match taken {
                Some(b) => {
                    self.pos = self.pos + 1;
                    Ok(Some(GraphicsObject::Text(b.build())))
                },
                None => Err(Error::ProtocolViolation),
            }
        } else if op_is(op, "Tc") || op_is(op, "Tw") || op_is(op, "Tz") || op_is(op, "TL")
            || op_is(op, "Tf") {
            match self.state.text_state.handle_operation(op) {
                Ok(()) => {
                    self.pos = self.pos + 1;
                    Ok(None)
                },
                Err(e) => Err(e),
            }
        } else if op_is(op, "Td") || op_is(op, "TD") || op_is(op, "Tm") || op_is(op, "T*") || op_is(
            op,
            "Tj",
        ) || op_is(op, "'") || op_is(op, "\"") || op_is(op, "TJ") {
            match &mut self.builder {
                Some(b) => match b.handle_operation(&mut self.state.text_state, font_map, op) {
                    Ok(()) => {
                        self.pos = self.pos + 1;
                        Ok(None)
                    },
                    Err(e) => Err(e),
                },
                None => Err(Error::ProtocolViolation),
            }
        } else {
            self.pos = self.pos + 1;
            Ok(None)
        }
    }

    /// Interprets operators until the next text object is complete; no
    /// object means the sequence ran out, leaving any open object
    /// unemitted.
    #[verifier::loop_isolation(false)]
    pub fn try_next(&mut self, font_map: &FontMap) -> (r: Result<Option<GraphicsObject>, Error>)
        requires
            old(self).wf(),
        ensures
            final(self).wf(),
            match spec_next_object(
                font_map@,
                old(self).text_state_val(),
                old(self).builder_val(),
                old(self).remaining(),
            ) {
                Err(e) => r is Err && r->Err_0 == e,
                Ok((tsf, bf, rest, emitted)) => r is Ok && final(self).text_state_val() == tsf
                    && final(self).builder_val() == bf
                    && final(self).remaining() == rest
                    && (match emitted {
                    Some(f) => r->Ok_0 is Some && r->Ok_0->0@ == f,
                    None => r->Ok_0 is None,
                }),
            },
    {
        while self.remaining_len() > 0
            invariant
                self.wf(),
                spec_next_object(
                    font_map@,
                    old(self).text_state_val(),
                    old(self).builder_val(),
                    old(self).remaining(),
                ) == spec_next_object(
                    font_map@,
                    self.text_state_val(),
                    self.builder_val(),
                    self.remaining(),
                ),
            decreases self.remaining().len(),
        {
            match self.step_op(font_map) {
                Ok(Some(obj)) => {
                    return Ok(Some(obj));
                },
                Ok(None) => {},
                Err(e) => {
                    return Err(e);
                },
            }
        }
        Ok(None)
    }

    /// How many operators are left.
    fn remaining_len(&self) -> (r: usize)
        requires
            self.wf(),
        ensures
            r == self.remaining().len(),
    {
        self.operations.len() - self.pos
    }

    /// Interprets the rest of the operators and collects every completed
    /// text object, in order.  A text object left open at the end is
    /// discarded, never emitted.
    #[verifier::loop_isolation(false)]
    pub fn decode_all(&mut self, font_map: &FontMap) -> (r: Result<Vec<TextObject>, Error>)
        requires
            old(self).wf(),
        ensures
            final(self).wf(),
            match spec_engine_run(
                font_map@,
                old(self).text_state_val(),
                old(self).builder_val(),
                old(self).remaining(),
            ) {
                Err(e) => r is Err && r->Err_0 == e,
                Ok((tsf, bf, runs)) => r is Ok && objects_view(r->Ok_0@) == runs
                    && final(self).text_state_val() == tsf
                    && final(self).builder_val() == bf
                    && final(self).remaining().len() == 0,
            },
    {
        let mut collected: Vec<TextObject> = Vec::new();
        proof {
            assert(objects_view(collected@) =~= Seq::<Seq<FragmentVal>>::empty());
        }
        while self.remaining_len() > 0
            invariant
                self.wf(),
                match spec_engine_run(
                    font_map@,
                    self.text_state_val(),
                    self.builder_val(),
                    self.remaining(),
                ) {
                    Err(e) => spec_engine_run(
                        font_map@,
                        old(self).text_state_val(),
                        old(self).builder_val(),
                        old(self).remaining(),
                    ) == Err::<(TextStateVal, Option<BuilderVal>, Seq<Seq<FragmentVal>>), Error>(e),
                    Ok((tsf, bf, runs)) => spec_engine_run(
                        font_map@,
                        old(self).text_state_val(),
                        old(self).builder_val(),
                        old(self).remaining(),
                    ) == Ok::<(TextStateVal, Option<BuilderVal>, Seq<Seq<FragmentVal>>), Error>(
                        (tsf, bf, objects_view(collected@) + runs),
                    ),
                },
            decreases self.remaining().len(),
        {
            let ghost rem_before = self.remaining();
            let ghost collected_before = objects_view(collected@);
            match self.step_op(font_map) {
                Ok(Some(obj)) => {
                    match obj {
                        GraphicsObject::Text(t) => {
                            let ghost tv = t@;
                            collected.push(t);
                            proof {
                                assert(objects_view(collected@) =~= collected_before.push(tv));
                                lemma_collect_assoc(collected_before, tv, spec_engine_run(
                                    font_map@,
                                    self.text_state_val(),
                                    self.builder_val(),
                                    self.remaining(),
                                ));
                            }
                        },
                    }
                },
                Ok(None) => {},
                Err(e) => {
                    return Err(e);
                },
            }
        }
        proof {
            assert(objects_view(collected@) + Seq::<Seq<FragmentVal>>::empty() =~= objects_view(
                collected@,
            ));
        }
        Ok(collected)
    }
}

/// Appending one emitted object and then the rest collects the same
/// sequence as emitting it in front of the rest.
proof fn lemma_collect_assoc(
    collected: Seq<Seq<FragmentVal>>,
    emitted: Seq<FragmentVal>,
    rest: Result<(TextStateVal, Option<BuilderVal>, Seq<Seq<FragmentVal>>), Error>,
)
    ensures
        rest is Ok ==> collected.push(emitted) + (rest->Ok_0).2 =~= collected + (seq![emitted] + (
        rest->Ok_0).2),
{
}

/// Interprets a page's operator sequence against its font map and returns
/// the page's text objects in order.
pub fn decode_page(font_map: &FontMap, operations: Vec<Operation>) -> (r: Result<
    Vec<TextObject>,
    Error,
>)
    ensures
        r is Ok <==> spec_decode_text_objects(font_map@, operations@) is Ok,
        r is Ok ==> objects_view(r->Ok_0@) == spec_decode_text_objects(
            font_map@,
            operations@,
        )->Ok_0,
        r is Err ==> r->Err_0 == spec_decode_text_objects(font_map@, operations@)->Err_0,
{
    let mut decoder = GraphicsObjectDecoder::decode(operations);
    decoder.decode_all(font_map)
}

} // verus!
