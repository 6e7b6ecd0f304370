//! Code blocks.
//!
//! A program is a tree of code blocks: sequential joins, conditional splits,
//! counted loops and straight-line spans. The decoder never walks the tree
//! itself; it receives one typed entry point call per block-lifecycle event
//! and reads only the hashes and op-batches that these types expose.

use vstd::prelude::*;
use crate::felt::Felt;
use crate::felt::Word;

verus! {

/// Number of op-groups held by one op-batch: a batch fills exactly one
/// 8-row hasher cycle.
pub const GROUPS_PER_BATCH: usize = 8;

/// A batch of up to 8 op-groups, each an element packing up to 9 opcodes in
/// little-endian base 2^7. Groups beyond `num_groups` are zero padding.
pub struct OpBatch {
    pub groups: Vec<Felt>,
    pub num_groups: usize,
}

impl OpBatch {
    /// A batch always holds 8 group cells, of which between 1 and 8 are
    /// occupied, and every cell is a canonical field element.
    pub open spec fn inv(self) -> bool {
        &&& self.groups@.len() == 8
        &&& 1 <= self.num_groups <= 8
        &&& forall|i: int| 0 <= i < 8 ==> #[trigger] self.groups@[i].inv()
    }

    /// The group cells of the batch.
    pub open spec fn spec_groups(self) -> Seq<Felt> {
        self.groups@
    }

    /// The number of occupied groups.
    pub open spec fn spec_num_groups(self) -> usize {
        self.num_groups
    }

    /// Builds a batch from its 8 group cells and its occupied-group count.
    pub fn new(groups: Vec<Felt>, num_groups: usize) -> (r: OpBatch)
        requires
            groups@.len() == 8,
            1 <= num_groups <= 8,
            forall|i: int| 0 <= i < 8 ==> #[trigger] groups@[i].inv(),
        ensures
            r.spec_groups() == groups@,
            r.spec_num_groups() == num_groups,
            r.inv(),
    {
        OpBatch { groups, num_groups }
    }

    /// The group cells of the batch.
    pub fn groups(&self) -> (r: &Vec<Felt>)
        ensures
            r@ == self.spec_groups(),
    {
        &self.groups
    }

    /// The number of occupied groups.
    pub fn num_groups(&self) -> (r: usize)
        ensures
            r == self.spec_num_groups(),
    {
        self.num_groups
    }
}

/// Sequential composition of two blocks.
pub struct Join {
    pub hash: Word,
    pub first_hash: Word,
    pub second_hash: Word,
}

impl Join {
    /// All three digests are canonical.
    pub open spec fn inv(self) -> bool {
        self.hash.inv() && self.first_hash.inv() && self.second_hash.inv()
    }

    /// Builds a join block from its own hash and its two children's hashes.
    pub fn new(hash: Word, first_hash: Word, second_hash: Word) -> (r: Join)
        ensures
            r.spec_hash() == hash,
            r.spec_first_hash() == first_hash,
            r.spec_second_hash() == second_hash,
    {
        Join { hash, first_hash, second_hash }
    }

    /// The block's own hash.
    pub open spec fn spec_hash(self) -> Word {
        self.hash
    }

    /// The hash of the first child.
    pub open spec fn spec_first_hash(self) -> Word {
        self.first_hash
    }

    /// The hash of the second child.
    pub open spec fn spec_second_hash(self) -> Word {
        self.second_hash
    }

    /// The block's own hash.
    pub fn hash(&self) -> (r: Word)
        ensures
            r == self.spec_hash(),
    {
        self.hash
    }

    /// The hash of the first child.
    pub fn first_hash(&self) -> (r: Word)
        ensures
            r == self.spec_first_hash(),
    {
        self.first_hash
    }

    /// The hash of the second child.
    pub fn second_hash(&self) -> (r: Word)
        ensures
            r == self.spec_second_hash(),
    {
        self.second_hash
    }
}

/// Conditional composition: one of two blocks is executed depending on the
/// top of the user stack.
pub struct Split {
    pub hash: Word,
    pub on_true_hash: Word,
    pub on_false_hash: Word,
}

impl Split {
    /// All three digests are canonical.
    pub open spec fn inv(self) -> bool {
        self.hash.inv() && self.on_true_hash.inv() && self.on_false_hash.inv()
    }

    /// Builds a split block from its own hash and its two branches' hashes.
    pub fn new(hash: Word, on_true_hash: Word, on_false_hash: Word) -> (r: Split)
        ensures
            r.spec_hash() == hash,
            r.spec_on_true_hash() == on_true_hash,
            r.spec_on_false_hash() == on_false_hash,
    {
        Split { hash, on_true_hash, on_false_hash }
    }

    /// The block's own hash.
    pub open spec fn spec_hash(self) -> Word {
        self.hash
    }

    /// The hash of the branch taken on a nonzero condition.
    pub open spec fn spec_on_true_hash(self) -> Word {
        self.on_true_hash
    }

    /// The hash of the branch taken on a zero condition.
    pub open spec fn spec_on_false_hash(self) -> Word {
        self.on_false_hash
    }

    /// The block's own hash.
    pub fn hash(&self) -> (r: Word)
        ensures
            r == self.spec_hash(),
    {
        self.hash
    }

    /// The hash of the branch taken on a nonzero condition.
    pub fn on_true_hash(&self) -> (r: Word)
        ensures
            r == self.spec_on_true_hash(),
    {
        self.on_true_hash
    }

    /// The hash of the branch taken on a zero condition.
    pub fn on_false_hash(&self) -> (r: Word)
        ensures
            r == self.spec_on_false_hash(),
    {
        self.on_false_hash
    }
}

/// A while-nonzero loop over a body block.
pub struct Loop {
    pub hash: Word,
    pub body_hash: Word,
}

impl Loop {
    /// Both digests are canonical.
    pub open spec fn inv(self) -> bool {
        self.hash.inv() && self.body_hash.inv()
    }

    /// Builds a loop block from its own hash and its body's hash.
    pub fn new(hash: Word, body_hash: Word) -> (r: Loop)
        ensures
            r.spec_hash() == hash,
            r.spec_body_hash() == body_hash,
    {
        Loop { hash, body_hash }
    }

    /// The block's own hash.
    pub open spec fn spec_hash(self) -> Word {
        self.hash
    }

    /// The hash of the loop body.
    pub open spec fn spec_body_hash(self) -> Word {
        self.body_hash
    }

    /// The block's own hash.
    pub fn hash(&self) -> (r: Word)
        ensures
            r == self.spec_hash(),
    {
        self.hash
    }

    /// The hash of the loop body.
    pub fn body_hash(&self) -> (r: Word)
        ensures
            r == self.spec_body_hash(),
    {
        self.body_hash
    }
}

/// A straight-line span of operations, grouped into op-batches.
pub struct Span {
    pub hash: Word,
    pub op_batches: Vec<OpBatch>,
}

impl Span {
    /// A span holds at least one batch, every batch is well formed, and the
    /// digest is canonical.
    pub open spec fn inv(self) -> bool {
        &&& self.hash.inv()
        &&& self.op_batches@.len() >= 1
        &&& forall|i: int| 0 <= i < self.op_batches@.len() ==> #[trigger] self.op_batches@[i].inv()
    }

    /// Builds a span block from its own hash and its op-batches.
    pub fn new(hash: Word, op_batches: Vec<OpBatch>) -> (r: Span)
        requires
            op_batches@.len() >= 1,
        ensures
            r.spec_hash() == hash,
            r.spec_op_batches() == op_batches@,
    {
        Span { hash, op_batches }
    }

    /// The block's own hash.
    pub open spec fn spec_hash(self) -> Word {
        self.hash
    }

    /// The op-batches of the span.
    pub open spec fn spec_op_batches(self) -> Seq<OpBatch> {
        self.op_batches@
    }

    /// The block's own hash.
    pub fn hash(&self) -> (r: Word)
        ensures
            r == self.spec_hash(),
    {
        self.hash
    }

    /// The op-batches of the span.
    pub fn op_batches(&self) -> (r: &Vec<OpBatch>)
        ensures
            r@ == self.spec_op_batches(),
    {
        &self.op_batches
    }
}

} // verus!
