//! Process: the executor-facing entry points.
//!
//! The decoder runs cooperatively inside the VM's single execution thread.
//! For each block-lifecycle step the process executes one bookkeeping
//! operation on the stack machine (a `Noop` to force a cycle tick, or a
//! `Drop` to consume a split condition), asks the hash coprocessor for the
//! block's trace address, and drives the decoder. The two collaborators are
//! modeled here by the interfaces the decoder consumes: an address allocator
//! that advances one 8-row cycle per call, and a stack of field elements
//! with a clock.

use vstd::prelude::*;
use crate::felt::Felt;
use crate::felt::FIELD_MODULUS;
use crate::felt::Word;
use crate::blocks::Join;
use crate::blocks::Span;
use crate::blocks::Split;
use crate::decoder::BlockInfo;
use crate::decoder::Decoder;
use crate::decoder::HASHER_CYCLE_LEN;
use crate::decoder::parent_of;
use crate::decoder::span_group_count;
use crate::ops::CF_END;
use crate::ops::CF_JOIN;
use crate::ops::CF_SPLIT;
use crate::ops::Operation;
use crate::trace::control_row;
use crate::trace::felt;
use crate::trace::span_end_row;
use crate::trace::span_row;
use crate::trace::zero_word;

verus! {

/// Width of the state absorbed by one hasher call.
pub const HASHER_STATE_WIDTH: usize = 12;

/// Errors surfaced by the stack machine collaborator; the decoder propagates
/// them unchanged and adds no recovery of its own.
#[derive(Clone, Copy, PartialEq, Eq, Structural, Debug)]
pub enum ExecutionError {
    /// An operation needed more user-stack items than were present.
    StackUnderflow,
}

/// The all-zero 12-element state absorbed for a control block.
pub open spec fn spec_zero_state() -> Seq<Felt> {
    Seq::new(12, |k: int| felt(0))
}

/// The 12-element state absorbed for a span block: the first batch's eight
/// op-groups padded with four zeros.
pub open spec fn spec_span_state(groups: Seq<Felt>) -> Seq<Felt> {
    groups + Seq::new(4, |k: int| felt(0))
}

/// Model of the hash coprocessor interface the decoder consumes: each call
/// absorbs one 12-element state over one 8-row cycle and returns the trace
/// row at which that cycle begins. Addresses start at one so that no block
/// address collides with the zero that marks an absent parent. The states
/// absorbed so far are kept in a ghost log, so that callers' contracts pin
/// what each block hands to the hasher.
pub struct Hasher {
    pub row: Felt,
    pub absorbed: Ghost<Seq<Seq<Felt>>>,
}

impl Hasher {
    /// The next address is a canonical field element.
    pub open spec fn inv(self) -> bool {
        self.row.inv()
    }

    /// A fresh hasher whose first cycle begins at row one and has absorbed
    /// nothing.
    pub fn new() -> (r: Hasher)
        ensures
            r.row == felt(1),
            r.absorbed@ == Seq::<Seq<Felt>>::empty(),
            r.inv(),
    {
        Hasher { row: Felt::one(), absorbed: Ghost(Seq::empty()) }
    }

    /// Absorbs one 12-element state: returns the base row of the cycle the
    /// call occupies and advances to the next cycle. Only the address is
    /// consumed by the decoder; the digest is validated elsewhere, and this
    /// model returns a zero digest.
    pub fn hash(&mut self, state: &Vec<Felt>) -> (r: (Felt, Word))
        requires
            old(self).inv(),
            state@.len() == HASHER_STATE_WIDTH,
        ensures
            final(self).inv(),
            r.0 == old(self).row,
            r.1 == zero_word(),
            final(self).row == felt(
                ((old(self).row.value + HASHER_CYCLE_LEN) % (FIELD_MODULUS as int)) as u128,
            ),
            final(self).absorbed@ == old(self).absorbed@.push(state@),
    {
        let addr = self.row;
        self.row = self.row.add(Felt { value: HASHER_CYCLE_LEN });
        self.absorbed = Ghost(self.absorbed@.push(state@));
        (addr, Word::zeroed())
    }
}

/// Model of the stack machine interface the decoder consumes: the user
/// stack, top last, and a clock that ticks once per executed operation.
pub struct VmStack {
    pub items: Vec<Felt>,
    pub clk: Felt,
}

impl VmStack {
    /// Every item and the clock are canonical field elements.
    pub open spec fn inv(self) -> bool {
        &&& self.clk.inv()
        &&& forall|i: int| 0 <= i < self.items@.len() ==> (#[trigger] self.items@[i]).inv()
    }

    /// The clock advanced by one tick.
    pub open spec fn ticked(self) -> Felt {
        felt(((self.clk.value + 1) % (FIELD_MODULUS as int)) as u128)
    }

    /// A stack holding the given items, top last, with the clock at zero.
    pub fn new(items: Vec<Felt>) -> (r: VmStack)
        requires
            forall|i: int| 0 <= i < items@.len() ==> (#[trigger] items@[i]).inv(),
        ensures
            r.items@ == items@,
            r.clk == felt(0),
            r.inv(),
    {
        VmStack { items, clk: Felt::zero() }
    }

    /// Whether the stack holds no items.
    pub fn is_empty(&self) -> (r: bool)
        ensures
            r == (self.items@.len() == 0),
    {
        self.items.len() == 0
    }

    /// The top item. The stack must not be empty.
    pub fn peek(&self) -> (r: Felt)
        requires
            self.items@.len() > 0,
        ensures
            r == self.items@.last(),
    {
        self.items[self.items.len() - 1]
    }

    /// Executes one bookkeeping operation: `Noop` only ticks the clock;
    /// `Drop` removes the top item, or fails on an empty stack, in which
    /// case the stack is left unchanged.
    pub fn execute_op(&mut self, op: Operation) -> (r: Result<(), ExecutionError>)
        requires
            old(self).inv(),
            op is Noop || op is Drop,
        ensures
            final(self).inv(),
            op is Noop ==> r is Ok && final(self).items@ == old(self).items@ && final(self).clk
                == old(self).ticked(),
            op is Drop && old(self).items@.len() > 0 ==> r is Ok && final(self).items@ == old(
                self,
            ).items@.drop_last() && final(self).clk == old(self).ticked(),
            op is Drop && old(self).items@.len() == 0 ==> r == Result::<
                (),
                ExecutionError,
            >::Err(ExecutionError::StackUnderflow) && *final(self) == *old(self),
    {
        match op {
            Operation::Noop => {
                self.clk = self.clk.add(Felt::one());
                Ok(())
            },
            Operation::Drop => {
                if self.items.len() == 0 {
                    Err(ExecutionError::StackUnderflow)
                } else {
                    let _ = self.items.pop();
                    self.clk = self.clk.add(Felt::one());
                    Ok(())
                }
            },
            _ => Ok(()),
        }
    }
}

/// The executor-facing assembly: the decoder together with its two
/// collaborators.
pub struct Process {
    pub decoder: Decoder,
    pub stack: VmStack,
    pub hasher: Hasher,
}

impl Process {
    /// All three components are well formed.
    pub open spec fn inv(self) -> bool {
        self.decoder.inv() && self.stack.inv() && self.hasher.inv()
    }

    /// A fresh process over the given user-stack items.
    pub fn new(stack_items: Vec<Felt>) -> (r: Process)
        requires
            forall|i: int| 0 <= i < stack_items@.len() ==> (#[trigger] stack_items@[i]).inv(),
        ensures
            r.inv(),
            r.decoder.stack().len() == 0,
            r.decoder.span_context is None,
            r.decoder.rows() == 0,
            r.stack.items@ == stack_items@,
            r.hasher.row == felt(1),
            r.hasher.absorbed@ == Seq::<Seq<Felt>>::empty(),
    {
        Process { decoder: Decoder::new(), stack: VmStack::new(stack_items), hasher: Hasher::new() }
    }

    /// Starts a join block: ticks the stack machine, allocates the block's
    /// address from the hasher over an all-zero state, and appends the JOIN
    /// row.
    pub fn start_join_block(&mut self, block: &Join) -> (r: Result<(), ExecutionError>)
        requires
            old(self).inv(),
            block.inv(),
        ensures
            final(self).inv(),
            r is Ok,
            final(self).stack.items@ == old(self).stack.items@,
            final(self).stack.clk == old(self).stack.ticked(),
            final(self).hasher.row == felt(
                ((old(self).hasher.row.value + HASHER_CYCLE_LEN) % (FIELD_MODULUS as int)) as u128,
            ),
            final(self).hasher.absorbed@ == old(self).hasher.absorbed@.push(spec_zero_state()),
            final(self).decoder.stack() == old(self).decoder.stack().push(
                BlockInfo {
                    addr: old(self).hasher.row,
                    parent_addr: parent_of(old(self).decoder.stack()),
                },
            ),
            final(self).decoder.span_context == old(self).decoder.span_context,
            final(self).decoder.rows() == old(self).decoder.rows() + 1,
            final(self).decoder.trace.spec_row(old(self).decoder.rows() as int) == control_row(
                old(self).decoder.rows() as int,
                CF_JOIN,
                parent_of(old(self).decoder.stack()),
                block.spec_first_hash(),
                block.spec_second_hash(),
            ),
    {
        self.stack.execute_op(Operation::Noop)?;
        let hasher_state = zero_hasher_state();
        let (addr, _result) = self.hasher.hash(&hasher_state);
        self.decoder.start_join(block, addr);
        Ok(())
    }

    /// Ends a join block: ticks the stack machine, pops the block's entry
    /// and appends its END row.
    pub fn end_join_block(&mut self, block: &Join) -> (r: Result<(), ExecutionError>)
        requires
            old(self).inv(),
            block.inv(),
            old(self).decoder.stack().len() > 0,
        ensures
            final(self).inv(),
            r is Ok,
            final(self).stack.items@ == old(self).stack.items@,
            final(self).stack.clk == old(self).stack.ticked(),
            final(self).hasher == old(self).hasher,
            final(self).decoder.stack() == old(self).decoder.stack().drop_last(),
            final(self).decoder.span_context == old(self).decoder.span_context,
            final(self).decoder.rows() == old(self).decoder.rows() + 1,
            final(self).decoder.trace.spec_row(old(self).decoder.rows() as int) == control_row(
                old(self).decoder.rows() as int,
                CF_END,
                old(self).decoder.stack().last().addr,
                block.spec_hash(),
                zero_word(),
            ),
    {
        self.stack.execute_op(Operation::Noop)?;
        self.decoder.end_join(block);
        Ok(())
    }

    /// Starts a split block: reads the branch condition from the top of the
    /// user stack and consumes it with a `Drop`, allocates the block's
    /// address, and appends the SPLIT row. On an empty user stack the stack
    /// machine's error is surfaced unchanged and nothing else happens.
    pub fn start_split_block(&mut self, block: &Split) -> (r: Result<(), ExecutionError>)
        requires
            old(self).inv(),
            block.inv(),
        ensures
            final(self).inv(),
            old(self).stack.items@.len() == 0 ==> r == Result::<(), ExecutionError>::Err(
                ExecutionError::StackUnderflow,
            ) && *final(self) == *old(self),
            old(self).stack.items@.len() > 0 ==> {
                &&& r is Ok
                &&& final(self).stack.items@ == old(self).stack.items@.drop_last()
                &&& final(self).stack.clk == old(self).stack.ticked()
                &&& final(self).hasher.row == felt(
                    ((old(self).hasher.row.value + HASHER_CYCLE_LEN) % (
                    FIELD_MODULUS as int)) as u128,
                )
                &&& final(self).hasher.absorbed@ == old(self).hasher.absorbed@.push(
                    spec_zero_state(),
                )
                &&& final(self).decoder.stack() == old(self).decoder.stack().push(
                    BlockInfo {
                        addr: old(self).hasher.row,
                        parent_addr: parent_of(old(self).decoder.stack()),
                    },
                )
                &&& final(self).decoder.span_context == old(self).decoder.span_context
                &&& final(self).decoder.rows() == old(self).decoder.rows() + 1
                &&& final(self).decoder.trace.spec_row(old(self).decoder.rows() as int)
                    == control_row(
                    old(self).decoder.rows() as int,
                    CF_SPLIT,
                    parent_of(old(self).decoder.stack()),
                    block.spec_on_true_hash(),
                    block.spec_on_false_hash(),
                )
            },
    {
        if self.stack.is_empty() {
            return Err(ExecutionError::StackUnderflow);
        }
        let condition = self.stack.peek();
        self.stack.execute_op(Operation::Drop)?;
        let hasher_state = zero_hasher_state();
        let (addr, _result) = self.hasher.hash(&hasher_state);
        self.decoder.start_split(block, addr, condition);
        Ok(())
    }

    /// Ends a split block: ticks the stack machine, pops the block's entry
    /// and appends its END row.
    pub fn end_split_block(&mut self, block: &Split) -> (r: Result<(), ExecutionError>)
        requires
            old(self).inv(),
            block.inv(),
            old(self).decoder.stack().len() > 0,
        ensures
            final(self).inv(),
            r is Ok,
            final(self).stack.items@ == old(self).stack.items@,
            final(self).stack.clk == old(self).stack.ticked(),
            final(self).hasher == old(self).hasher,
            final(self).decoder.stack() == old(self).decoder.stack().drop_last(),
            final(self).decoder.span_context == old(self).decoder.span_context,
            final(self).decoder.rows() == old(self).decoder.rows() + 1,
            final(self).decoder.trace.spec_row(old(self).decoder.rows() as int) == control_row(
                old(self).decoder.rows() as int,
                CF_END,
                old(self).decoder.stack().last().addr,
                block.spec_hash(),
                zero_word(),
            ),
    {
        self.stack.execute_op(Operation::Noop)?;
        self.decoder.end_split(block);
        Ok(())
    }

    /// Starts a span block: ticks the stack machine, allocates the block's
    /// address from the hasher over the first batch's eight op-groups padded
    /// with four zeros, and appends the SPAN row.
    pub fn start_span_block(&mut self, block: &Span) -> (r: Result<(), ExecutionError>)
        requires
            old(self).inv(),
            block.inv(),
            old(self).decoder.span_context is None,
            8 * block.spec_op_batches().len() <= usize::MAX,
        ensures
            final(self).inv(),
            r is Ok,
            final(self).stack.items@ == old(self).stack.items@,
            final(self).stack.clk == old(self).stack.ticked(),
            final(self).hasher.row == felt(
                ((old(self).hasher.row.value + HASHER_CYCLE_LEN) % (FIELD_MODULUS as int)) as u128,
            ),
            final(self).hasher.absorbed@ == old(self).hasher.absorbed@.push(
                spec_span_state(block.spec_op_batches()[0].spec_groups()),
            ),
            final(self).decoder.stack() == old(self).decoder.stack().push(
                BlockInfo {
                    addr: old(self).hasher.row,
                    parent_addr: parent_of(old(self).decoder.stack()),
                },
            ),
            final(self).decoder.span_context == Some(
                crate::decoder::SpanContext {
                    group_ops_left: block.spec_op_batches()[0].spec_groups()[0],
                    num_groups_left: felt(
                        (block.spec_op_batches()[0].spec_num_groups() - 1) as u128,
                    ),
                },
            ),
            final(self).decoder.rows() == old(self).decoder.rows() + 1,
            final(self).decoder.trace.spec_row(old(self).decoder.rows() as int) == span_row(
                old(self).decoder.rows() as int,
                parent_of(old(self).decoder.stack()),
                block.spec_op_batches()[0].spec_groups(),
                felt(span_group_count(*block) as u128),
            ),
    {
        self.stack.execute_op(Operation::Noop)?;
        let batches = block.op_batches();
        proof {
            assert(block.spec_op_batches()[0].inv());
        }
        let first_batch = batches[0].groups();
        let mut hasher_state: Vec<Felt> = Vec::new();
        let mut k: usize = 0;
        while k < 8
            invariant
                0 <= k <= 8,
                first_batch@.len() == 8,
                hasher_state@ == first_batch@.subrange(0, k as int),
            decreases 8 - k,
        {
            hasher_state.push(first_batch[k]);
            k = k + 1;
            proof {
                assert(hasher_state@ =~= first_batch@.subrange(0, k as int));
            }
        }
        hasher_state.push(Felt::zero());
        hasher_state.push(Felt::zero());
        hasher_state.push(Felt::zero());
        hasher_state.push(Felt::zero());
        proof {
            assert(hasher_state@ =~= spec_span_state(first_batch@));
        }
        let (addr, _result) = self.hasher.hash(&hasher_state);
        self.decoder.start_span(block, addr);
        Ok(())
    }

    /// Ends a span block: ticks the stack machine, pops the block's entry,
    /// appends its END row and drops the span context.
    pub fn end_span_block(&mut self, block: &Span) -> (r: Result<(), ExecutionError>)
        requires
            old(self).inv(),
            block.inv(),
            old(self).decoder.stack().len() > 0,
        ensures
            final(self).inv(),
            r is Ok,
            final(self).stack.items@ == old(self).stack.items@,
            final(self).stack.clk == old(self).stack.ticked(),
            final(self).hasher == old(self).hasher,
            final(self).decoder.stack() == old(self).decoder.stack().drop_last(),
            final(self).decoder.span_context is None,
            final(self).decoder.rows() == old(self).decoder.rows() + 1,
            final(self).decoder.trace.spec_row(old(self).decoder.rows() as int) == span_end_row(
                old(self).decoder.rows() as int,
                block.spec_hash(),
                felt(0),
            ),
    {
        self.stack.execute_op(Operation::Noop)?;
        self.decoder.end_span(block);
        Ok(())
    }
}

/// The all-zero 12-element hasher state absorbed for control blocks.
fn zero_hasher_state() -> (r: Vec<Felt>)
    ensures
        r@ == spec_zero_state(),
{
    let mut r: Vec<Felt> = Vec::new();
    let mut k: usize = 0;
    while k < HASHER_STATE_WIDTH
        invariant
            0 <= k <= HASHER_STATE_WIDTH,
            r@.len() == k,
            forall|i: int| 0 <= i < r@.len() ==> (#[trigger] r@[i]) == felt(0),
        decreases HASHER_STATE_WIDTH - k,
    {
        r.push(Felt::zero());
        k = k + 1;
    }
    proof {
        assert(r@ =~= spec_zero_state());
    }
    r
}

} // verus!
