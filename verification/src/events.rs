//! The decoder as a state machine over block-lifecycle events.
//!
//! An `Event` is one typed call into the decoder. The ghost `DecoderModel`
//! abstracts the decoder to what the event semantics speak of: the addresses
//! of the currently open blocks (the root-to-current path), whether a span is
//! active, and the two span counters. `step` gives the per-event transition
//! and `run` folds it over a sequence; `apply_event` and `apply_events`
//! prove that the decoder tracks this model exactly, one appended row per
//! row-emitting event.

use vstd::prelude::*;
use crate::felt::Felt;
use crate::felt::FIELD_MODULUS;
use crate::blocks::Join;
use crate::blocks::OpBatch;
use crate::blocks::Span;
use crate::blocks::Split;
use crate::decoder::BlockInfo;
use crate::decoder::Decoder;
use crate::decoder::HASHER_CYCLE_LEN;
use crate::decoder::span_group_count;
use crate::ops::CF_END;
use crate::ops::CF_JOIN;
use crate::ops::CF_SPLIT;
use crate::ops::Operation;
use crate::trace::control_row;
use crate::trace::felt;
use crate::trace::respan_row;
use crate::trace::span_end_row;
use crate::trace::span_row;
use crate::trace::user_op_row;
use crate::trace::zero_word;

verus! {

/// One block-lifecycle event delivered to the decoder, with the data the
/// decoder reads from it: the block, and for starting events the
/// hasher-assigned address.
pub enum Event {
    /// Starts a join block at the given address.
    StartJoin(Join, Felt),
    /// Ends the topmost block, a join.
    EndJoin(Join),
    /// Starts a split block at the given address; the last element is the
    /// popped branch condition.
    StartSplit(Split, Felt, Felt),
    /// Ends the topmost block, a split.
    EndSplit(Split),
    /// Starts a span block at the given address.
    StartSpan(Span, Felt),
    /// Moves the active span to its next op-batch.
    Respan(OpBatch),
    /// Consumes one op-group for an immediate value; emits no row.
    ConsumeImmValue,
    /// Loads the next op-group of the current batch; emits no row.
    StartOpGroup(Felt),
    /// Executes one user operation inside the active span.
    ExecuteUserOp(Operation),
    /// Ends the topmost block, the active span.
    EndSpan(Span),
}

/// The decoder abstracted to what the event semantics observe: the addresses
/// of the open blocks from root to current, whether a span is active, and
/// the two span counters.
#[verifier::ext_equal]
pub ghost struct DecoderModel {
    pub path: Seq<Felt>,
    pub in_span: bool,
    pub group_ops_left: Felt,
    pub num_groups_left: Felt,
}

/// A field value decremented by one, in the field.
pub open spec fn dec_one(x: Felt) -> Felt {
    felt(((x.value - 1) % (FIELD_MODULUS as int)) as u128)
}

/// A block address advanced by one hasher cycle, in the field.
pub open spec fn add_cycle(x: Felt) -> Felt {
    felt(((x.value + HASHER_CYCLE_LEN) % (FIELD_MODULUS as int)) as u128)
}

/// One opcode removed from a packed op-group: subtract, then shift down one
/// 7-bit position.
pub open spec fn drain_one(g: Felt, code: u8) -> Felt {
    felt(((g.value - code) as int / 128) as u128)
}

/// The model of a decoder: its stack addresses bottom-up, and its span
/// context where present.
pub open spec fn model_of(d: Decoder) -> DecoderModel {
    DecoderModel {
        path: d.stack().map_values(|b: BlockInfo| b.addr),
        in_span: d.span_context is Some,
        group_ops_left: match d.span_context {
            Some(ctx) => ctx.group_ops_left,
            None => felt(0),
        },
        num_groups_left: match d.span_context {
            Some(ctx) => ctx.num_groups_left,
            None => felt(0),
        },
    }
}

/// The data carried by an event is well formed.
pub open spec fn payload_inv(e: Event) -> bool {
    match e {
        Event::StartJoin(block, addr) => block.inv() && addr.inv(),
        Event::EndJoin(block) => block.inv(),
        Event::StartSplit(block, addr, condition) => block.inv() && addr.inv() && condition.inv(),
        Event::EndSplit(block) => block.inv(),
        Event::StartSpan(block, addr) => block.inv() && addr.inv() && 8 * block.spec_op_batches().len()
            <= usize::MAX,
        Event::Respan(batch) => batch.inv(),
        Event::ConsumeImmValue => true,
        Event::StartOpGroup(group) => group.inv(),
        Event::ExecuteUserOp(op) => true,
        Event::EndSpan(block) => block.inv(),
    }
}

/// Whether an event may be delivered in the given state: end events need an
/// open block, span events need an active span, a span may not start inside
/// another span, and a user op must match the head of the current op-group.
pub open spec fn enabled(m: DecoderModel, e: Event) -> bool {
    match e {
        Event::StartJoin(_, _) => true,
        Event::EndJoin(_) => m.path.len() > 0,
        Event::StartSplit(_, _, _) => true,
        Event::EndSplit(_) => m.path.len() > 0,
        Event::StartSpan(_, _) => !m.in_span,
        Event::Respan(_) => m.in_span && m.path.len() > 0,
        Event::ConsumeImmValue => m.in_span,
        Event::StartOpGroup(_) => m.in_span,
        Event::ExecuteUserOp(op) => m.in_span && m.path.len() > 0 && !op.spec_is_decorator()
            && op.spec_op_code() is Some && m.group_ops_left.value >= op.spec_op_code()->0,
        Event::EndSpan(_) => m.in_span && m.path.len() > 0,
    }
}

/// The transition one event makes on the model: starts push the block's
/// address, ends pop it, a respan advances the top address by one hasher
/// cycle, and the span counters follow the span-context rules.
pub open spec fn step(m: DecoderModel, e: Event) -> DecoderModel {
    match e {
        Event::StartJoin(_, addr) => DecoderModel { path: m.path.push(addr), ..m },
        Event::EndJoin(_) => DecoderModel { path: m.path.drop_last(), ..m },
        Event::StartSplit(_, addr, _) => DecoderModel { path: m.path.push(addr), ..m },
        Event::EndSplit(_) => DecoderModel { path: m.path.drop_last(), ..m },
        Event::StartSpan(block, addr) => DecoderModel {
            path: m.path.push(addr),
            in_span: true,
            group_ops_left: block.spec_op_batches()[0].spec_groups()[0],
            num_groups_left: felt((block.spec_op_batches()[0].spec_num_groups() - 1) as u128),
        },
        Event::Respan(batch) => DecoderModel {
            path: m.path.drop_last().push(add_cycle(m.path.last())),
            in_span: true,
            group_ops_left: batch.spec_groups()[0],
            num_groups_left: felt((batch.spec_num_groups() - 1) as u128),
        },
        Event::ConsumeImmValue => DecoderModel {
            num_groups_left: dec_one(m.num_groups_left),
            ..m
        },
        Event::StartOpGroup(group) => DecoderModel {
            group_ops_left: group,
            num_groups_left: dec_one(m.num_groups_left),
            ..m
        },
        Event::ExecuteUserOp(op) => DecoderModel {
            group_ops_left: drain_one(m.group_ops_left, op.spec_op_code()->0),
            ..m
        },
        Event::EndSpan(_) => DecoderModel {
            path: m.path.drop_last(),
            in_span: false,
            group_ops_left: felt(0),
            num_groups_left: felt(0),
        },
    }
}

/// The parent address a started block inherits: the top of the open path,
/// or zero at the root.
pub open spec fn path_parent(path: Seq<Felt>) -> Felt {
    if path.len() == 0 {
        felt(0)
    } else {
        path.last()
    }
}

/// The trace row one event appends at row index `i`, in the state whose
/// model is `m`; meaningful only for row-emitting events.
pub open spec fn event_row(m: DecoderModel, i: int, e: Event) -> Seq<Felt> {
    match e {
        Event::StartJoin(block, _) => control_row(
            i,
            CF_JOIN,
            path_parent(m.path),
            block.spec_first_hash(),
            block.spec_second_hash(),
        ),
        Event::EndJoin(block) => control_row(i, CF_END, m.path.last(), block.spec_hash(), zero_word()),
        Event::StartSplit(block, _, _) => control_row(
            i,
            CF_SPLIT,
            path_parent(m.path),
            block.spec_on_true_hash(),
            block.spec_on_false_hash(),
        ),
        Event::EndSplit(block) => control_row(i, CF_END, m.path.last(), block.spec_hash(), zero_word()),
        Event::StartSpan(block, _) => span_row(
            i,
            path_parent(m.path),
            block.spec_op_batches()[0].spec_groups(),
            felt(span_group_count(block) as u128),
        ),
        Event::Respan(batch) => respan_row(i, batch.spec_groups()),
        Event::ConsumeImmValue => Seq::empty(),
        Event::StartOpGroup(_) => Seq::empty(),
        Event::ExecuteUserOp(op) => user_op_row(
            i,
            op.spec_op_code()->0,
            m.path.last(),
            path_parent(m.path.drop_last()),
            m.num_groups_left,
            drain_one(m.group_ops_left, op.spec_op_code()->0),
        ),
        Event::EndSpan(block) => span_end_row(i, block.spec_hash(), felt(0)),
    }
}

/// The number of trace rows one event emits: every event appends exactly one
/// row, except the two context-only events, which append none.
pub open spec fn row_count(e: Event) -> int {
    match e {
        Event::ConsumeImmValue => 0,
        Event::StartOpGroup(_) => 0,
        _ => 1,
    }
}

/// The number of trace rows a sequence of events emits.
pub open spec fn rows_emitted(events: Seq<Event>) -> int
    decreases events.len(),
{
    if events.len() == 0 {
        0
    } else {
        row_count(events[0]) + rows_emitted(events.drop_first())
    }
}

/// The model after a whole sequence of events.
pub open spec fn run(m: DecoderModel, events: Seq<Event>) -> DecoderModel
    decreases events.len(),
{
    if events.len() == 0 {
        m
    } else {
        run(step(m, events[0]), events.drop_first())
    }
}

/// Every event of the sequence is well formed and enabled in the state the
/// preceding events produce.
pub open spec fn events_enabled(m: DecoderModel, events: Seq<Event>) -> bool
    decreases events.len(),
{
    events.len() == 0 || (payload_inv(events[0]) && enabled(m, events[0]) && events_enabled(
        step(m, events[0]),
        events.drop_first(),
    ))
}

/// Running a sequence extended by one event is one step after running the
/// sequence.
pub proof fn lemma_run_push(m: DecoderModel, events: Seq<Event>, e: Event)
    ensures
        run(m, events.push(e)) == step(run(m, events), e),
    decreases events.len(),
{
    if events.len() == 0 {
        assert(events.push(e)[0] == e);
        assert(events.push(e).drop_first() =~= Seq::<Event>::empty());
        assert(run(step(m, e), Seq::<Event>::empty()) == step(m, e));
        assert(run(m, events) == m);
    } else {
        assert(events.push(e)[0] == events[0]);
        assert(events.push(e).drop_first() =~= events.drop_first().push(e));
        lemma_run_push(step(m, events[0]), events.drop_first(), e);
        assert(run(m, events) == run(step(m, events[0]), events.drop_first()));
    }
}

/// The rows emitted by a sequence extended by one event.
pub proof fn lemma_rows_emitted_push(events: Seq<Event>, e: Event)
    ensures
        rows_emitted(events.push(e)) == rows_emitted(events) + row_count(e),
    decreases events.len(),
{
    if events.len() == 0 {
        assert(events.push(e)[0] == e);
        assert(events.push(e).drop_first() =~= Seq::<Event>::empty());
        assert(rows_emitted(Seq::<Event>::empty()) == 0);
        assert(rows_emitted(events) == 0);
    } else {
        assert(events.push(e)[0] == events[0]);
        assert(events.push(e).drop_first() =~= events.drop_first().push(e));
        lemma_rows_emitted_push(events.drop_first(), e);
        assert(rows_emitted(events) == row_count(events[0]) + rows_emitted(events.drop_first()));
    }
}

/// A sequence of events never emits a negative number of rows.
pub proof fn lemma_rows_emitted_nonneg(events: Seq<Event>)
    ensures
        rows_emitted(events) >= 0,
    decreases events.len(),
{
    if events.len() > 0 {
        lemma_rows_emitted_nonneg(events.drop_first());
    }
}

/// A longer prefix emits at least as many rows, and strictly more once a
/// row-emitting event is included.
pub proof fn lemma_rows_emitted_prefix(events: Seq<Event>, a: int, b: int)
    requires
        0 <= a <= b <= events.len(),
    ensures
        rows_emitted(events.subrange(0, a)) <= rows_emitted(events.subrange(0, b)),
        a < b && row_count(events[a]) == 1 ==> rows_emitted(events.subrange(0, a)) + 1
            <= rows_emitted(events.subrange(0, b)),
    decreases b - a,
{
    if a < b {
        assert(events.subrange(0, a + 1) =~= events.subrange(0, a).push(events[a]));
        lemma_rows_emitted_push(events.subrange(0, a), events[a]);
        lemma_rows_emitted_prefix(events, a + 1, b);
    }
}

impl Decoder {
    /// Dispatches one event to the matching entry point. The decoder follows
    /// the model transition exactly and appends exactly as many rows as the
    /// event emits.
    pub fn apply_event(&mut self, event: &Event)
        requires
            old(self).inv(),
            payload_inv(*event),
            enabled(model_of(*old(self)), *event),
        ensures
            final(self).inv(),
            model_of(*final(self)) == step(model_of(*old(self)), *event),
            final(self).rows() == old(self).rows() + row_count(*event),
            row_count(*event) == 1 ==> final(self).trace.spec_row(old(self).rows() as int)
                == event_row(model_of(*old(self)), old(self).rows() as int, *event),
            forall|i: int|
                0 <= i < old(self).rows() ==> final(self).trace.spec_row(i) == old(
                    self,
                ).trace.spec_row(i),
    {
        proof {
            let m = model_of(*old(self));
            let s = old(self).stack();
            if s.len() > 0 {
                assert(m.path.last() == s.last().addr);
                assert(old(self).block_stack.inv());
                assert(s.last().parent_addr == (if s.len() == 1 {
                    felt(0)
                } else {
                    s[s.len() - 2].addr
                }));
                if s.len() > 1 {
                    assert(m.path.drop_last().last() == s[s.len() - 2].addr);
                }
                assert(s.last().parent_addr == path_parent(m.path.drop_last()));
            }
            assert(crate::decoder::parent_of(s) == path_parent(m.path));
        }
        match event {
            Event::StartJoin(block, addr) => {
                self.start_join(block, *addr);
            },
            Event::EndJoin(block) => {
                self.end_join(block);
            },
            Event::StartSplit(block, addr, condition) => {
                self.start_split(block, *addr, *condition);
            },
            Event::EndSplit(block) => {
                self.end_split(block);
            },
            Event::StartSpan(block, addr) => {
                self.start_span(block, *addr);
            },
            Event::Respan(batch) => {
                self.respan(batch);
            },
            Event::ConsumeImmValue => {
                self.consume_imm_value();
            },
            Event::StartOpGroup(group) => {
                self.start_op_group(*group);
            },
            Event::ExecuteUserOp(op) => {
                self.execute_user_op(*op);
            },
            Event::EndSpan(block) => {
                self.end_span(block);
            },
        }
        proof {
            assert(model_of(*self).path =~= step(model_of(*old(self)), *event).path);
            assert(model_of(*self) =~= step(model_of(*old(self)), *event));
        }
    }

    /// Delivers a sequence of events in order. The block stack afterwards
    /// holds exactly the root-to-current path the event sequence leaves
    /// open, and the trace has grown by exactly one row per row-emitting
    /// event.
    pub fn apply_events(&mut self, events: &Vec<Event>)
        requires
            old(self).inv(),
            events_enabled(model_of(*old(self)), events@),
        ensures
            final(self).inv(),
            model_of(*final(self)) == run(model_of(*old(self)), events@),
            final(self).rows() == old(self).rows() + rows_emitted(events@),
            forall|k: int|
                0 <= k < events@.len() && row_count(#[trigger] events@[k]) == 1
                    ==> final(self).trace.spec_row(
                    old(self).rows() + rows_emitted(events@.subrange(0, k)),
                ) == event_row(
                    run(model_of(*old(self)), events@.subrange(0, k)),
                    old(self).rows() + rows_emitted(events@.subrange(0, k)),
                    events@[k],
                ),
            forall|i: int|
                0 <= i < old(self).rows() ==> final(self).trace.spec_row(i) == old(
                    self,
                ).trace.spec_row(i),
    {
        let ghost m0 = model_of(*old(self));
        let ghost r0 = old(self).rows();
        let n = events.len();
        proof {
            assert(events@.subrange(0, n as int) =~= events@);
            assert(events@.subrange(0, 0) =~= Seq::<Event>::empty());
        }
        let mut idx: usize = 0;
        while idx < n
            invariant
                self.inv(),
                0 <= idx <= n,
                n == events@.len(),
                model_of(*self) == run(m0, events@.subrange(0, idx as int)),
                self.rows() == r0 + rows_emitted(events@.subrange(0, idx as int)),
                events_enabled(model_of(*self), events@.subrange(idx as int, n as int)),
                forall|k: int|
                    0 <= k < idx && row_count(#[trigger] events@[k]) == 1 ==> self.trace.spec_row(
                        r0 + rows_emitted(events@.subrange(0, k)),
                    ) == event_row(
                        run(m0, events@.subrange(0, k)),
                        r0 + rows_emitted(events@.subrange(0, k)),
                        events@[k],
                    ),
                forall|i: int|
                    0 <= i < r0 ==> self.trace.spec_row(i) == old(self).trace.spec_row(i),
            decreases n - idx,
        {
            let ghost dprev = *self;
            let ghost mprev = model_of(*self);
            let ghost rcur = self.rows();
            proof {
                assert(events@.subrange(idx as int, n as int)[0] == events@[idx as int]);
            }
            let event = &events[idx];
            self.apply_event(event);
            idx = idx + 1;
            proof {
                assert(events@.subrange(0, idx as int) =~= events@.subrange(0, idx as int - 1).push(
                    events@[idx as int - 1],
                ));
                lemma_run_push(m0, events@.subrange(0, idx as int - 1), events@[idx as int - 1]);
                lemma_rows_emitted_push(
                    events@.subrange(0, idx as int - 1),
                    events@[idx as int - 1],
                );
                assert(events@.subrange(idx as int - 1, n as int).drop_first() =~= events@.subrange(
                    idx as int,
                    n as int,
                ));
                lemma_rows_emitted_nonneg(events@.subrange(0, idx as int - 1));
                assert forall|i: int|
                    0 <= i < r0 implies self.trace.spec_row(i) == old(self).trace.spec_row(i) by {
                    assert(i < rcur);
                    assert(self.trace.spec_row(i) == dprev.trace.spec_row(i));
                }
                assert forall|k: int|
                    0 <= k < idx && row_count(#[trigger] events@[k]) == 1 implies self.trace.spec_row(
                        r0 + rows_emitted(events@.subrange(0, k)),
                    ) == event_row(
                        run(m0, events@.subrange(0, k)),
                        r0 + rows_emitted(events@.subrange(0, k)),
                        events@[k],
                    ) by {
                    let at = r0 + rows_emitted(events@.subrange(0, k));
                    if k < idx - 1 {
                        lemma_rows_emitted_prefix(events@, k, idx as int - 1);
                        lemma_rows_emitted_nonneg(events@.subrange(0, k));
                        assert(at < rcur);
                        assert(self.trace.spec_row(at) == dprev.trace.spec_row(at));
                    } else {
                        assert(run(m0, events@.subrange(0, k)) == mprev);
                        assert(at == rcur);
                    }
                }
            }
        }
        proof {
            assert(events@.subrange(0, n as int) =~= events@);
        }
    }
}

/// Running a concatenation of two sequences is running the first, then the
/// second.
pub proof fn lemma_run_concat(m: DecoderModel, a: Seq<Event>, b: Seq<Event>)
    ensures
        run(m, a + b) == run(run(m, a), b),
    decreases a.len(),
{
    if a.len() == 0 {
        assert(a + b =~= b);
        assert(run(m, a) == m);
    } else {
        assert((a + b)[0] == a[0]);
        assert((a + b).drop_first() =~= a.drop_first() + b);
        lemma_run_concat(step(m, a[0]), a.drop_first(), b);
        assert(run(m, a) == run(step(m, a[0]), a.drop_first()));
    }
}

/// Running a single event is one step.
pub proof fn lemma_run_one(m: DecoderModel, e: Event)
    ensures
        run(m, seq![e]) == step(m, e),
{
    assert(seq![e][0] == e);
    assert(seq![e].drop_first() =~= Seq::<Event>::empty());
    assert(run(step(m, e), Seq::<Event>::empty()) == step(m, e));
}

/// Block-stack path law, matched-pair form: a start event pushes exactly one
/// address onto the open path, and the matching end event removes exactly
/// that entry. If the events between the pair leave the open path as they
/// found it, the whole start-inner-end sequence restores the path that held
/// before the start: at every instant the block stack holds the
/// root-to-current path.
pub proof fn lemma_matched_pair(m: DecoderModel, start: Event, inner: Seq<Event>, end: Event)
    requires
        start is StartJoin || start is StartSplit || start is StartSpan,
        end is EndJoin || end is EndSplit || end is EndSpan,
        run(step(m, start), inner).path == step(m, start).path,
    ensures
        run(m, seq![start] + inner + seq![end]).path == m.path,
{
    let m1 = step(m, start);
    let m2 = run(m1, inner);
    lemma_run_one(m, start);
    lemma_run_concat(m, seq![start], inner);
    lemma_run_concat(m, seq![start] + inner, seq![end]);
    lemma_run_one(m2, end);
    match start {
        Event::StartJoin(_, addr) => {
            assert(m1.path == m.path.push(addr));
            assert(m2.path.drop_last() =~= m.path);
        },
        Event::StartSplit(_, addr, _) => {
            assert(m1.path == m.path.push(addr));
            assert(m2.path.drop_last() =~= m.path);
        },
        Event::StartSpan(_, addr) => {
            assert(m1.path == m.path.push(addr));
            assert(m2.path.drop_last() =~= m.path);
        },
        _ => {},
    }
}

/// The events that execute the given user operations, in order.
pub open spec fn user_op_events(ops: Seq<Operation>) -> Seq<Event> {
    Seq::new(ops.len(), |i: int| Event::ExecuteUserOp(ops[i]))
}

/// The op-group value left after the given operations have been removed from
/// an initial group, one after another: the nested subtract-then-divide.
pub open spec fn drained(g: Felt, ops: Seq<Operation>) -> Felt
    decreases ops.len(),
{
    if ops.len() == 0 {
        g
    } else {
        drained(drain_one(g, ops[0].spec_op_code()->0), ops.drop_first())
    }
}

/// Opcode algebra: executing user operations one after another from an
/// initial op-group leaves exactly the nested subtract-then-divide value,
/// and touches neither the block-stack path nor the op-group counter.
pub proof fn lemma_opcode_algebra(m: DecoderModel, ops: Seq<Operation>)
    requires
        events_enabled(m, user_op_events(ops)),
    ensures
        run(m, user_op_events(ops)).group_ops_left == drained(m.group_ops_left, ops),
        run(m, user_op_events(ops)).path == m.path,
        run(m, user_op_events(ops)).num_groups_left == m.num_groups_left,
        run(m, user_op_events(ops)).in_span == m.in_span,
    decreases ops.len(),
{
    if ops.len() > 0 {
        assert(user_op_events(ops)[0] == Event::ExecuteUserOp(ops[0]));
        assert(user_op_events(ops).drop_first() =~= user_op_events(ops.drop_first()));
        lemma_opcode_algebra(step(m, user_op_events(ops)[0]), ops.drop_first());
    }
}

} // verus!
