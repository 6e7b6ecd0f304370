//! Decoder state machine.
//!
//! The decoder receives block-lifecycle events from the VM executor. For each
//! event it maintains the block stack (the chain of currently open blocks,
//! each with its hasher-assigned address and its parent's address), maintains
//! the span context while inside a span, and appends exactly one trace row
//! per row-emitting event.

use vstd::prelude::*;
use crate::felt::Felt;
use crate::felt::FIELD_MODULUS;
use crate::blocks::Join;
use crate::blocks::Loop;
use crate::blocks::OpBatch;
use crate::blocks::Span;
use crate::blocks::Split;
use crate::ops::Operation;
use crate::trace::DecoderTrace;
use crate::trace::control_row;
use crate::trace::felt;
use crate::trace::respan_row;
use crate::trace::span_end_row;
use crate::trace::span_row;
use crate::trace::user_op_row;
use crate::trace::zero_word;

verus! {

/// Number of trace rows of one hasher cycle: each op-batch of a span
/// occupies one full cycle, so batch `k` lives at `base + 8 * k`.
pub const HASHER_CYCLE_LEN: u128 = 8;

/// One entry of the block stack: the block's hasher-assigned address and
/// the address of its parent block (zero at the root).
#[derive(Clone, Copy, PartialEq, Eq, Structural, Debug)]
pub struct BlockInfo {
    pub addr: Felt,
    pub parent_addr: Felt,
}

impl BlockInfo {
    /// Both addresses are canonical field elements.
    pub open spec fn inv(self) -> bool {
        self.addr.inv() && self.parent_addr.inv()
    }

    /// The block's hasher-assigned address.
    pub fn addr(&self) -> (r: Felt)
        ensures
            r == self.addr,
    {
        self.addr
    }

    /// The address of the block's parent, or zero at the root.
    pub fn parent_addr(&self) -> (r: Felt)
        ensures
            r == self.parent_addr,
    {
        self.parent_addr
    }
}

/// The `parent_addr` of every stack entry equals the `addr` of the entry
/// immediately below it, or zero for the bottom entry.
pub open spec fn parent_chained(s: Seq<BlockInfo>) -> bool {
    forall|i: int|
        0 <= i < s.len() ==> (#[trigger] s[i]).parent_addr == (if i == 0 {
            felt(0)
        } else {
            s[i - 1].addr
        })
}

/// The parent address that a block pushed onto `s` inherits: the address of
/// the current top entry, or zero when the stack is empty.
pub open spec fn parent_of(s: Seq<BlockInfo>) -> Felt {
    if s.len() == 0 {
        felt(0)
    } else {
        s.last().addr
    }
}

/// The stack of currently open blocks. At any instant its contents form the
/// path from the program root to the currently executing block.
pub struct BlockStack {
    pub blocks: Vec<BlockInfo>,
}

impl BlockStack {
    /// Every entry is canonical and the parent chain links each entry to the
    /// one below it.
    pub open spec fn inv(self) -> bool {
        &&& parent_chained(self.blocks@)
        &&& forall|i: int| 0 <= i < self.blocks@.len() ==> (#[trigger] self.blocks@[i]).inv()
    }

    /// An empty block stack.
    pub fn new() -> (r: BlockStack)
        ensures
            r.blocks@.len() == 0,
            r.inv(),
    {
        BlockStack { blocks: Vec::new() }
    }

    /// Pushes a block with the given address; the new entry inherits the
    /// current top's address as its parent address, which is returned.
    pub fn push(&mut self, addr: Felt) -> (parent_addr: Felt)
        requires
            old(self).inv(),
            addr.inv(),
        ensures
            final(self).inv(),
            parent_addr == parent_of(old(self).blocks@),
            final(self).blocks@ == old(self).blocks@.push(BlockInfo { addr, parent_addr }),
    {
        let n = self.blocks.len();
        let parent_addr = if n == 0 {
            Felt::zero()
        } else {
            self.blocks[n - 1].addr
        };
        self.blocks.push(BlockInfo { addr, parent_addr });
        proof {
            assert forall|i: int| 0 <= i < self.blocks@.len() implies (#[trigger] self.blocks@[i]).parent_addr
                == (if i == 0 {
                felt(0)
            } else {
                self.blocks@[i - 1].addr
            }) by {
                if i < old(self).blocks@.len() {
                    assert(old(self).inv());
                }
            }
        }
        parent_addr
    }

    /// Removes and returns the top entry. The stack must not be empty: an
    /// empty stack here means the caller delivered an unmatched end event.
    pub fn pop(&mut self) -> (r: BlockInfo)
        requires
            old(self).inv(),
            old(self).blocks@.len() > 0,
        ensures
            final(self).inv(),
            r == old(self).blocks@.last(),
            final(self).blocks@ == old(self).blocks@.drop_last(),
    {
        let info = self.blocks[self.blocks.len() - 1];
        let _ = self.blocks.pop();
        info
    }

    /// The top entry, without removing it. The stack must not be empty.
    pub fn peek(&self) -> (r: &BlockInfo)
        requires
            self.blocks@.len() > 0,
        ensures
            *r == self.blocks@.last(),
    {
        &self.blocks[self.blocks.len() - 1]
    }
}

/// The context tracked while inside a span: the opcodes remaining in the
/// current op-group (packed in little-endian base 2^7) and the number of
/// op-groups still to be consumed in the span.
#[derive(Clone, Copy, PartialEq, Eq, Structural, Debug)]
pub struct SpanContext {
    pub group_ops_left: Felt,
    pub num_groups_left: Felt,
}

impl SpanContext {
    /// Both counters are canonical field elements.
    pub open spec fn inv(self) -> bool {
        self.group_ops_left.inv() && self.num_groups_left.inv()
    }
}

impl Default for SpanContext {
    /// An empty context: no opcodes and no op-groups left.
    fn default() -> (r: SpanContext)
        ensures
            r == (SpanContext { group_ops_left: felt(0), num_groups_left: felt(0) }),
    {
        SpanContext { group_ops_left: Felt::zero(), num_groups_left: Felt::zero() }
    }
}

/// The power of two that a batch of `n` op-groups is padded to: each batch
/// occupies a power-of-two number of groups, at most 8.
pub open spec fn spec_group_slots(n: int) -> int {
    if n <= 1 {
        1
    } else if n == 2 {
        2
    } else if n <= 4 {
        4
    } else {
        8
    }
}

/// Total op-group count of the first `k` batches, each padded to its
/// power-of-two slot count.
pub open spec fn spec_span_groups(batches: Seq<OpBatch>, k: int) -> int
    decreases k,
{
    if k <= 0 {
        0
    } else {
        spec_span_groups(batches, k - 1) + spec_group_slots(batches[k - 1].num_groups as int)
    }
}

/// Total op-group count of a span: the sum over its batches of the batch's
/// group count rounded up to a power of two.
pub open spec fn span_group_count(block: Span) -> int {
    spec_span_groups(block.spec_op_batches(), block.spec_op_batches().len() as int)
}

/// The padded op-group count of a batch prefix is never negative.
proof fn lemma_span_groups_nonneg(batches: Seq<OpBatch>, k: int)
    ensures
        spec_span_groups(batches, k) >= 0,
    decreases k,
{
    if k > 0 {
        lemma_span_groups_nonneg(batches, k - 1);
    }
}

/// The op-group count of one batch, rounded up to a power of two.
fn group_slots(n: usize) -> (r: usize)
    requires
        1 <= n <= 8,
    ensures
        r == spec_group_slots(n as int),
{
    if n <= 1 {
        1
    } else if n == 2 {
        2
    } else if n <= 4 {
        4
    } else {
        8
    }
}

/// The total number of op-groups in a span: the sum over its batches of the
/// batch's group count rounded up to the next power of two.
pub fn get_num_op_groups_in_span(block: &Span) -> (r: Felt)
    requires
        block.inv(),
        8 * block.spec_op_batches().len() <= usize::MAX,
    ensures
        r.value == span_group_count(*block),
        r.inv(),
        r.value >= 1,
{
    let batches = block.op_batches();
    let n = batches.len();
    let mut total: usize = 0;
    let mut i: usize = 0;
    while i < n
        invariant
            0 <= i <= n,
            n == block.spec_op_batches().len(),
            block.inv(),
            batches@ == block.spec_op_batches(),
            total == spec_span_groups(batches@, i as int),
            total <= 8 * i,
            8 * n <= usize::MAX,
        decreases n - i,
    {
        proof {
            assert(block.spec_op_batches()[i as int].inv());
        }
        let slots = group_slots(batches[i].num_groups());
        total = total + slots;
        i = i + 1;
    }
    proof {
        lemma_span_groups_nonneg(batches@, n as int - 1);
        assert(spec_group_slots(batches@[n - 1].num_groups as int) >= 1);
        assert(total < FIELD_MODULUS);
    }
    Felt { value: total as u128 }
}

/// Removes the lowest-order opcode from a packed op-group: the opcode is
/// subtracted and the group is shifted down by one 7-bit position, exactly
/// the subtract-then-divide pattern the algebraic constraints verify.
pub fn remove_opcode_from_group(op_group: Felt, op: Operation) -> (r: Felt)
    requires
        op_group.inv(),
        op.spec_op_code() is Some,
        op_group.value >= op.spec_op_code()->0,
    ensures
        r.value == (op_group.value - op.spec_op_code()->0) as int / 128,
        r.inv(),
{
    let opcode = match op.op_code() {
        Some(c) => c,
        None => 0,
    };
    Felt { value: (op_group.value - opcode as u128) / 128 }
}

/// The decoder: the block stack, the span context (present exactly while
/// inside a span), and the trace buffer.
pub struct Decoder {
    pub block_stack: BlockStack,
    pub span_context: Option<SpanContext>,
    pub trace: DecoderTrace,
}

impl Decoder {
    /// The stack, the context and every trace cell are well formed.
    pub open spec fn inv(self) -> bool {
        &&& self.block_stack.inv()
        &&& self.trace.inv()
        &&& match self.span_context {
            Some(ctx) => ctx.inv(),
            None => true,
        }
    }

    /// The entries of the block stack, bottom first.
    pub open spec fn stack(self) -> Seq<BlockInfo> {
        self.block_stack.blocks@
    }

    /// The number of trace rows appended so far.
    pub open spec fn rows(self) -> nat {
        self.trace.spec_len()
    }

    /// A fresh decoder: empty stack, no span context, empty trace.
    pub fn new() -> (r: Decoder)
        ensures
            r.stack().len() == 0,
            r.span_context is None,
            r.rows() == 0,
            r.inv(),
    {
        Decoder {
            block_stack: BlockStack::new(),
            span_context: None,
            trace: DecoderTrace::new(),
        }
    }

    /// Starts a join block: pushes it onto the block stack and appends a
    /// JOIN row holding the parent address and the two children's hashes.
    pub fn start_join(&mut self, block: &Join, addr: Felt)
        requires
            old(self).inv(),
            block.inv(),
            addr.inv(),
        ensures
            final(self).inv(),
            final(self).stack() == old(self).stack().push(
                BlockInfo { addr, parent_addr: parent_of(old(self).stack()) },
            ),
            final(self).span_context == old(self).span_context,
            final(self).rows() == old(self).rows() + 1,
            final(self).trace.spec_row(old(self).rows() as int) == control_row(
                old(self).rows() as int,
                crate::ops::CF_JOIN,
                parent_of(old(self).stack()),
                block.spec_first_hash(),
                block.spec_second_hash(),
            ),
            forall|i: int|
                0 <= i < old(self).rows() ==> final(self).trace.spec_row(i) == old(
                    self,
                ).trace.spec_row(i),
    {
        let parent_addr = self.block_stack.push(addr);
        let left_child_hash = block.first_hash();
        let right_child_hash = block.second_hash();
        self.trace.append_row(parent_addr, Operation::Join, left_child_hash, right_child_hash);
    }

    /// Ends a join block: pops its entry and appends an END row holding the
    /// block's address and its hash.
    pub fn end_join(&mut self, block: &Join)
        requires
            old(self).inv(),
            block.inv(),
            old(self).stack().len() > 0,
        ensures
            final(self).inv(),
            final(self).stack() == old(self).stack().drop_last(),
            final(self).span_context == old(self).span_context,
            final(self).rows() == old(self).rows() + 1,
            final(self).trace.spec_row(old(self).rows() as int) == control_row(
                old(self).rows() as int,
                crate::ops::CF_END,
                old(self).stack().last().addr,
                block.spec_hash(),
                zero_word(),
            ),
            forall|i: int|
                0 <= i < old(self).rows() ==> final(self).trace.spec_row(i) == old(
                    self,
                ).trace.spec_row(i),
    {
        let block_info = self.block_stack.pop();
        let block_hash = block.hash();
        self.trace.append_row(block_info.addr, Operation::End, block_hash, crate::felt::Word::zeroed());
    }

    /// Starts a split block: pushes it onto the block stack and appends a
    /// SPLIT row holding the parent address and the two branches' hashes.
    /// The popped condition is accepted but not recorded in the row.
    pub fn start_split(&mut self, block: &Split, addr: Felt, _condition: Felt)
        requires
            old(self).inv(),
            block.inv(),
            addr.inv(),
        ensures
            final(self).inv(),
            final(self).stack() == old(self).stack().push(
                BlockInfo { addr, parent_addr: parent_of(old(self).stack()) },
            ),
            final(self).span_context == old(self).span_context,
            final(self).rows() == old(self).rows() + 1,
            final(self).trace.spec_row(old(self).rows() as int) == control_row(
                old(self).rows() as int,
                crate::ops::CF_SPLIT,
                parent_of(old(self).stack()),
                block.spec_on_true_hash(),
                block.spec_on_false_hash(),
            ),
            forall|i: int|
                0 <= i < old(self).rows() ==> final(self).trace.spec_row(i) == old(
                    self,
                ).trace.spec_row(i),
    {
        let parent_addr = self.block_stack.push(addr);
        let left_child_hash = block.on_true_hash();
        let right_child_hash = block.on_false_hash();
        self.trace.append_row(parent_addr, Operation::Split, left_child_hash, right_child_hash);
    }

    /// Ends a split block: pops its entry and appends an END row.
    pub fn end_split(&mut self, block: &Split)
        requires
            old(self).inv(),
            block.inv(),
            old(self).stack().len() > 0,
        ensures
            final(self).inv(),
            final(self).stack() == old(self).stack().drop_last(),
            final(self).span_context == old(self).span_context,
            final(self).rows() == old(self).rows() + 1,
            final(self).trace.spec_row(old(self).rows() as int) == control_row(
                old(self).rows() as int,
                crate::ops::CF_END,
                old(self).stack().last().addr,
                block.spec_hash(),
                zero_word(),
            ),
            forall|i: int|
                0 <= i < old(self).rows() ==> final(self).trace.spec_row(i) == old(
                    self,
                ).trace.spec_row(i),
    {
        let block_info = self.block_stack.pop();
        let block_hash = block.hash();
        self.trace.append_row(block_info.addr, Operation::End, block_hash, crate::felt::Word::zeroed());
    }

    /// Starting a loop block is not implemented: its row encoding is an
    /// open design question, deliberately left unanswered rather than
    /// guessed at. The decoder state is left unchanged.
    pub fn start_loop(&mut self, _block: &Loop, _condition: Felt)
        requires
            old(self).inv(),
        ensures
            final(self).inv(),
            *final(self) == *old(self),
    {
    }

    /// Repeating a loop body is not implemented; see `start_loop`.
    pub fn repeat(&mut self, _block: &Loop)
        requires
            old(self).inv(),
        ensures
            final(self).inv(),
            *final(self) == *old(self),
    {
    }

    /// Ending a loop block is not implemented; see `start_loop`.
    pub fn end_loop(&mut self, _block: &Loop)
        requires
            old(self).inv(),
        ensures
            final(self).inv(),
            *final(self) == *old(self),
    {
    }

    /// Starts a span block: pushes it onto the block stack, appends a SPAN
    /// row holding the parent address, the first batch's eight op-groups and
    /// the span's total op-group count, and initializes the span context
    /// from batch zero: its group counter holds the batch's group count less
    /// the first group, which is now in progress.
    #[verifier::rlimit(60)]
    pub fn start_span(&mut self, block: &Span, addr: Felt)
        requires
            old(self).inv(),
            block.inv(),
            addr.inv(),
            old(self).span_context is None,
            8 * block.spec_op_batches().len() <= usize::MAX,
        ensures
            final(self).inv(),
            final(self).stack() == old(self).stack().push(
                BlockInfo { addr, parent_addr: parent_of(old(self).stack()) },
            ),
            final(self).span_context == Some(
                SpanContext {
                    group_ops_left: block.spec_op_batches()[0].spec_groups()[0],
                    num_groups_left: felt(
                        (block.spec_op_batches()[0].spec_num_groups() - 1) as u128,
                    ),
                },
            ),
            final(self).rows() == old(self).rows() + 1,
            final(self).trace.spec_row(old(self).rows() as int) == span_row(
                old(self).rows() as int,
                parent_of(old(self).stack()),
                block.spec_op_batches()[0].spec_groups(),
                felt(span_group_count(*block) as u128),
            ),
            forall|i: int|
                0 <= i < old(self).rows() ==> final(self).trace.spec_row(i) == old(
                    self,
                ).trace.spec_row(i),
    {
        let parent_addr = self.block_stack.push(addr);
        let num_op_groups = get_num_op_groups_in_span(block);
        let batches = block.op_batches();
        proof {
            assert(block.spec_op_batches()[0].inv());
        }
        let first_batch_groups = batches[0].num_groups();
        let first_op_batch = batches[0].groups();
        self.trace.append_span_start(parent_addr, first_op_batch, num_op_groups);
        let num_groups_left = Felt { value: (first_batch_groups - 1) as u128 };
        let group_ops_left = first_op_batch[0];
        self.span_context = Some(SpanContext { group_ops_left, num_groups_left });
    }

    /// Moves the span to its next op-batch: appends a RESPAN row with the
    /// new batch's op-groups, re-pushes the span's stack entry with its
    /// address advanced by one hasher cycle, and replaces the entire span
    /// context with the new batch's first group and its group count less
    /// one.
    pub fn respan(&mut self, op_batch: &OpBatch)
        requires
            old(self).inv(),
            op_batch.inv(),
            old(self).span_context is Some,
            old(self).stack().len() > 0,
        ensures
            final(self).inv(),
            final(self).stack() == old(self).stack().drop_last().push(
                BlockInfo {
                    addr: felt(
                        ((old(self).stack().last().addr.value + HASHER_CYCLE_LEN) % (
                        FIELD_MODULUS as int)) as u128,
                    ),
                    parent_addr: old(self).stack().last().parent_addr,
                },
            ),
            final(self).span_context == Some(
                SpanContext {
                    group_ops_left: op_batch.spec_groups()[0],
                    num_groups_left: felt((op_batch.spec_num_groups() - 1) as u128),
                },
            ),
            final(self).rows() == old(self).rows() + 1,
            final(self).trace.spec_row(old(self).rows() as int) == respan_row(
                old(self).rows() as int,
                op_batch.spec_groups(),
            ),
            forall|i: int|
                0 <= i < old(self).rows() ==> final(self).trace.spec_row(i) == old(
                    self,
                ).trace.spec_row(i),
    {
        self.trace.append_respan(op_batch.groups());
        let block = self.block_stack.pop();
        let new_addr = block.addr.add(Felt { value: HASHER_CYCLE_LEN });
        self.block_stack.push(new_addr);
        let num_groups_left = Felt { value: (op_batch.num_groups() - 1) as u128 };
        let group_ops_left = op_batch.groups()[0];
        self.span_context = Some(SpanContext { group_ops_left, num_groups_left });
        proof {
            assert(self.stack() =~= old(self).stack().drop_last().push(
                BlockInfo {
                    addr: felt(
                        ((old(self).stack().last().addr.value + HASHER_CYCLE_LEN) % (
                        FIELD_MODULUS as int)) as u128,
                    ),
                    parent_addr: old(self).stack().last().parent_addr,
                },
            ));
        }
    }

    /// Consumes one op-group for an immediate value: the previously executed
    /// opcode pushes a literal that occupies the next group.
    pub fn consume_imm_value(&mut self)
        requires
            old(self).inv(),
            old(self).span_context is Some,
        ensures
            final(self).inv(),
            final(self).stack() == old(self).stack(),
            final(self).trace == old(self).trace,
            final(self).span_context == Some(
                SpanContext {
                    group_ops_left: old(self).span_context->0.group_ops_left,
                    num_groups_left: felt(
                        ((old(self).span_context->0.num_groups_left.value - 1) % (
                        FIELD_MODULUS as int)) as u128,
                    ),
                },
            ),
    {
        let ctx = match self.span_context {
            Some(c) => c,
            None => SpanContext { group_ops_left: Felt::zero(), num_groups_left: Felt::zero() },
        };
        let num_groups_left = ctx.num_groups_left.sub(Felt::one());
        self.span_context = Some(
            SpanContext { group_ops_left: ctx.group_ops_left, num_groups_left },
        );
    }

    /// Loads the next op-group of the current batch into the span context,
    /// consuming one op-group.
    pub fn start_op_group(&mut self, op_group: Felt)
        requires
            old(self).inv(),
            op_group.inv(),
            old(self).span_context is Some,
        ensures
            final(self).inv(),
            final(self).stack() == old(self).stack(),
            final(self).trace == old(self).trace,
            final(self).span_context == Some(
                SpanContext {
                    group_ops_left: op_group,
                    num_groups_left: felt(
                        ((old(self).span_context->0.num_groups_left.value - 1) % (
                        FIELD_MODULUS as int)) as u128,
                    ),
                },
            ),
    {
        let ctx = match self.span_context {
            Some(c) => c,
            None => SpanContext { group_ops_left: Felt::zero(), num_groups_left: Felt::zero() },
        };
        let num_groups_left = ctx.num_groups_left.sub(Felt::one());
        self.span_context = Some(SpanContext { group_ops_left: op_group, num_groups_left });
    }

    /// Executes one user operation inside the current span: removes its
    /// opcode from the current op-group and appends a USER-OP row carrying
    /// the span's own and parent addresses and both group counters.
    /// Decorators must never reach this entry point.
    pub fn execute_user_op(&mut self, op: Operation)
        requires
            old(self).inv(),
            !op.spec_is_decorator(),
            op.spec_op_code() is Some,
            old(self).span_context is Some,
            old(self).stack().len() > 0,
            old(self).span_context->0.group_ops_left.value >= op.spec_op_code()->0,
        ensures
            final(self).inv(),
            final(self).stack() == old(self).stack(),
            final(self).span_context == Some(
                SpanContext {
                    group_ops_left: felt(
                        ((old(self).span_context->0.group_ops_left.value - op.spec_op_code()->0)
                            as int / 128) as u128,
                    ),
                    num_groups_left: old(self).span_context->0.num_groups_left,
                },
            ),
            final(self).rows() == old(self).rows() + 1,
            final(self).trace.spec_row(old(self).rows() as int) == user_op_row(
                old(self).rows() as int,
                op.spec_op_code()->0,
                old(self).stack().last().addr,
                old(self).stack().last().parent_addr,
                old(self).span_context->0.num_groups_left,
                felt(
                    ((old(self).span_context->0.group_ops_left.value - op.spec_op_code()->0)
                        as int / 128) as u128,
                ),
            ),
            forall|i: int|
                0 <= i < old(self).rows() ==> final(self).trace.spec_row(i) == old(
                    self,
                ).trace.spec_row(i),
    {
        let block_addr = self.block_stack.peek().addr;
        let block_parent_addr = self.block_stack.peek().parent_addr;
        let ctx = match self.span_context {
            Some(c) => c,
            None => SpanContext { group_ops_left: Felt::zero(), num_groups_left: Felt::zero() },
        };
        let group_ops_left = remove_opcode_from_group(ctx.group_ops_left, op);
        self.span_context = Some(
            SpanContext { group_ops_left, num_groups_left: ctx.num_groups_left },
        );
        self.trace.append_user_op(
            op,
            block_addr,
            block_parent_addr,
            ctx.num_groups_left,
            group_ops_left,
        );
    }

    /// Ends a span block: pops its entry, appends the span END row holding
    /// the block's hash, and drops the span context.
    pub fn end_span(&mut self, block: &Span)
        requires
            old(self).inv(),
            block.inv(),
            old(self).stack().len() > 0,
        ensures
            final(self).inv(),
            final(self).stack() == old(self).stack().drop_last(),
            final(self).span_context is None,
            final(self).rows() == old(self).rows() + 1,
            final(self).trace.spec_row(old(self).rows() as int) == span_end_row(
                old(self).rows() as int,
                block.spec_hash(),
                felt(0),
            ),
            forall|i: int|
                0 <= i < old(self).rows() ==> final(self).trace.spec_row(i) == old(
                    self,
                ).trace.spec_row(i),
    {
        let _block_info = self.block_stack.pop();
        let block_hash = block.hash();
        self.trace.append_span_end(block_hash, Felt::zero());
        self.span_context = None;
    }

    /// Finalizes the trace: pads it to `trace_len` rows with the canonical
    /// idle row, fills the randomness cells of the last `num_rand_rows`
    /// rows, and returns the column matrix.
    pub fn into_trace(self, trace_len: usize, num_rand_rows: usize) -> (r: Vec<Vec<Felt>>)
        requires
            self.inv(),
            self.rows() >= 1,
            crate::trace::is_power_of_two(trace_len as int),
            trace_len >= crate::layout::MIN_TRACE_LEN,
            self.rows() + num_rand_rows <= trace_len,
        ensures
            r@.len() == 23,
            forall|j: int| 0 <= j < 23 ==> (#[trigger] r@[j])@.len() == trace_len,
            forall|j: int, i: int|
                0 <= j < 23 && 0 <= i < trace_len ==> (#[trigger] r@[j]@[i]).inv(),
            forall|i: int|
                0 <= i < self.rows() ==> crate::trace::matrix_row(r@, i) == self.trace.spec_row(i),
            forall|i: int|
                self.rows() <= i < trace_len - num_rand_rows ==> crate::trace::matrix_row(r@, i)
                    == crate::trace::idle_row(),
            forall|j: int, i: int|
                0 <= j < 23 && trace_len - num_rand_rows <= i < trace_len
                    && !crate::trace::is_rand_column(j) ==> r@[j]@[i]
                    == crate::trace::idle_row()[j],
    {
        self.trace.into_vec(trace_len, num_rand_rows)
    }
}

impl Default for Decoder {
    /// Same as `Decoder::new`.
    fn default() -> (r: Decoder)
        ensures
            r.stack().len() == 0,
            r.span_context is None,
            r.rows() == 0,
            r.inv(),
    {
        Decoder::new()
    }
}

} // verus!
