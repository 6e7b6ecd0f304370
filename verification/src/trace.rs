//! Decoder trace buffer.
//!
//! An append-only column store: one growable column per cell of the decoder's
//! row layout. Every append operation writes exactly one row. Finalization
//! pads the trace with the canonical idle row up to a power-of-two length,
//! then appends rows whose designated randomness cells hold uniformly random
//! field elements, and returns the immutable column matrix.
//!
//! Row layout (cell indices):
//! `0` operation counter; `1..5` first hash word (child hash, block hash or
//! the first four op-groups of a batch); `5..8` control-flow op bits;
//! `8..13` low-degree op bits; `13..15` high-degree op bits; `15` block
//! address; `16` parent address; `17..21` second hash word (second child
//! hash or the last four op-groups of a batch); `21` op-groups left;
//! `22` group ops left (or the extra cell of a span END row).

use vstd::prelude::*;
use crate::felt::Felt;
use crate::felt::Word;
use crate::ops::Operation;
use crate::ops::bit_at;
use crate::ops::CF_EXEC;
use crate::ops::CF_SPAN;
use crate::ops::CF_RESPAN;
use crate::ops::CF_END;
use crate::ops::CF_VOID;

verus! {

/// Number of columns of the decoder trace.
pub const TRACE_WIDTH: usize = 23;

/// A field element from a plain value; spec shorthand.
pub open spec fn felt(v: u128) -> Felt {
    Felt { value: v }
}

/// The operation counter of the row appended at index `i`.
pub open spec fn clk_felt(i: int) -> Felt {
    felt(i as u128)
}

/// Whether a trace length is an admissible power of two.
pub open spec fn is_power_of_two(n: int) -> bool
    decreases n,
{
    if n <= 0 {
        false
    } else if n == 1 {
        true
    } else {
        n % 2 == 0 && is_power_of_two(n / 2)
    }
}

/// One full decoder row, as a function of what the decoder writes into it:
/// the operation counter, the control-flow code, the user opcode, the two
/// hash words, the block and parent addresses, and the two group counters.
pub open spec fn decoder_row(
    clk: Felt,
    cf: u8,
    code: u8,
    hash_a: Word,
    addr: Felt,
    parent: Felt,
    hash_b: Word,
    group_count: Felt,
    group_ops: Felt,
) -> Seq<Felt> {
    Seq::new(
        23,
        |j: int|
            {
                if j == 0 {
                    clk
                } else if j == 1 {
                    hash_a.w0
                } else if j == 2 {
                    hash_a.w1
                } else if j == 3 {
                    hash_a.w2
                } else if j == 4 {
                    hash_a.w3
                } else if j == 5 {
                    felt(bit_at(cf, 1))
                } else if j == 6 {
                    felt(bit_at(cf, 2))
                } else if j == 7 {
                    felt(bit_at(cf, 4))
                } else if j == 8 {
                    felt(bit_at(code, 1))
                } else if j == 9 {
                    felt(bit_at(code, 2))
                } else if j == 10 {
                    felt(bit_at(code, 4))
                } else if j == 11 {
                    felt(bit_at(code, 8))
                } else if j == 12 {
                    felt(bit_at(code, 16))
                } else if j == 13 {
                    felt(bit_at(code, 32))
                } else if j == 14 {
                    felt(bit_at(code, 64))
                } else if j == 15 {
                    addr
                } else if j == 16 {
                    parent
                } else if j == 17 {
                    hash_b.w0
                } else if j == 18 {
                    hash_b.w1
                } else if j == 19 {
                    hash_b.w2
                } else if j == 20 {
                    hash_b.w3
                } else if j == 21 {
                    group_count
                } else {
                    group_ops
                }
            },
    )
}

/// The all-zero word.
pub open spec fn zero_word() -> Word {
    Word { w0: felt(0), w1: felt(0), w2: felt(0), w3: felt(0) }
}

/// Four consecutive op-group cells of a batch, starting at `k`.
pub open spec fn word_of(groups: Seq<Felt>, k: int) -> Word {
    Word { w0: groups[k], w1: groups[k + 1], w2: groups[k + 2], w3: groups[k + 3] }
}

/// The row of a JOIN, SPLIT, LOOP or END block boundary.
pub open spec fn control_row(i: int, cf: u8, addr: Felt, child1: Word, child2: Word) -> Seq<Felt> {
    decoder_row(clk_felt(i), cf, 0, child1, addr, felt(0), child2, felt(0), felt(0))
}

/// The row that starts a span: the parent address, the eight op-groups of
/// the first batch, and the total op-group count of the span.
pub open spec fn span_row(i: int, parent: Felt, groups: Seq<Felt>, num_groups: Felt) -> Seq<Felt> {
    decoder_row(
        clk_felt(i),
        CF_SPAN,
        0,
        word_of(groups, 0),
        parent,
        felt(0),
        word_of(groups, 4),
        num_groups,
        felt(0),
    )
}

/// The row that moves a span to its next batch: the eight op-groups of the
/// new batch.
pub open spec fn respan_row(i: int, groups: Seq<Felt>) -> Seq<Felt> {
    decoder_row(
        clk_felt(i),
        CF_RESPAN,
        0,
        word_of(groups, 0),
        felt(0),
        felt(0),
        word_of(groups, 4),
        felt(0),
        felt(0),
    )
}

/// The row of one executed user operation: its opcode bits, the span's own
/// and parent addresses, and the two group counters after the operation.
pub open spec fn user_op_row(
    i: int,
    code: u8,
    addr: Felt,
    parent: Felt,
    num_groups_left: Felt,
    group_ops_left: Felt,
) -> Seq<Felt> {
    decoder_row(
        clk_felt(i),
        CF_EXEC,
        code,
        zero_word(),
        addr,
        parent,
        zero_word(),
        num_groups_left,
        group_ops_left,
    )
}

/// The END row of a span: the block hash and the extra cell.
pub open spec fn span_end_row(i: int, block_hash: Word, extra: Felt) -> Seq<Felt> {
    decoder_row(clk_felt(i), CF_END, 0, block_hash, felt(0), felt(0), zero_word(), felt(0), extra)
}

/// The canonical idle row: the control-flow bits spell out that no block is
/// active, and every other cell is zero.
pub open spec fn idle_row() -> Seq<Felt> {
    decoder_row(felt(0), CF_VOID, 0, zero_word(), felt(0), felt(0), zero_word(), felt(0), felt(0))
}

/// The columns whose cells are populated with random field elements in the
/// trailing randomness rows: the two hash words.
pub open spec fn is_rand_column(j: int) -> bool {
    (1 <= j <= 4) || (17 <= j <= 20)
}

/// Row `i` of a column-major matrix.
pub open spec fn matrix_row(m: Seq<Vec<Felt>>, i: int) -> Seq<Felt> {
    Seq::new(23, |j: int| m[j]@[i])
}

/// Relies on `rand::random`: a uniformly distributed `u128`.
#[verifier::external_body]
fn random_u128() -> (r: u128) {
    rand::random::<u128>()
}

/// The decoder trace buffer: one growable column per row cell.
pub struct DecoderTrace {
    pub clk: Vec<Felt>,
    pub h0: Vec<Felt>,
    pub h1: Vec<Felt>,
    pub h2: Vec<Felt>,
    pub h3: Vec<Felt>,
    pub cf0: Vec<Felt>,
    pub cf1: Vec<Felt>,
    pub cf2: Vec<Felt>,
    pub ld0: Vec<Felt>,
    pub ld1: Vec<Felt>,
    pub ld2: Vec<Felt>,
    pub ld3: Vec<Felt>,
    pub ld4: Vec<Felt>,
    pub hd0: Vec<Felt>,
    pub hd1: Vec<Felt>,
    pub addr: Vec<Felt>,
    pub parent: Vec<Felt>,
    pub x0: Vec<Felt>,
    pub x1: Vec<Felt>,
    pub x2: Vec<Felt>,
    pub x3: Vec<Felt>,
    pub group_count: Vec<Felt>,
    pub group_ops: Vec<Felt>,
}

impl DecoderTrace {
    /// Column `j` of the buffer.
    pub open spec fn col(self, j: int) -> Seq<Felt> {
        if j == 0 {
            self.clk@
        } else if j == 1 {
            self.h0@
        } else if j == 2 {
            self.h1@
        } else if j == 3 {
            self.h2@
        } else if j == 4 {
            self.h3@
        } else if j == 5 {
            self.cf0@
        } else if j == 6 {
            self.cf1@
        } else if j == 7 {
            self.cf2@
        } else if j == 8 {
            self.ld0@
        } else if j == 9 {
            self.ld1@
        } else if j == 10 {
            self.ld2@
        } else if j == 11 {
            self.ld3@
        } else if j == 12 {
            self.ld4@
        } else if j == 13 {
            self.hd0@
        } else if j == 14 {
            self.hd1@
        } else if j == 15 {
            self.addr@
        } else if j == 16 {
            self.parent@
        } else if j == 17 {
            self.x0@
        } else if j == 18 {
            self.x1@
        } else if j == 19 {
            self.x2@
        } else if j == 20 {
            self.x3@
        } else if j == 21 {
            self.group_count@
        } else {
            self.group_ops@
        }
    }

    /// The number of rows appended so far.
    pub open spec fn spec_len(self) -> nat {
        self.clk@.len()
    }

    /// Row `i` of the buffer.
    pub open spec fn spec_row(self, i: int) -> Seq<Felt> {
        Seq::new(23, |j: int| self.col(j)[i])
    }

    /// Every column has the same length and every cell is canonical.
    pub open spec fn inv(self) -> bool {
        &&& forall|j: int| 0 <= j < 23 ==> (#[trigger] self.col(j)).len() == self.spec_len()
        &&& forall|j: int, i: int|
            0 <= j < 23 && 0 <= i < self.spec_len() ==> (#[trigger] self.col(j)[i]).inv()
    }

    /// An empty trace buffer.
    pub fn new() -> (r: DecoderTrace)
        ensures
            r.spec_len() == 0,
            r.inv(),
    {
        DecoderTrace {
            clk: Vec::new(),
            h0: Vec::new(),
            h1: Vec::new(),
            h2: Vec::new(),
            h3: Vec::new(),
            cf0: Vec::new(),
            cf1: Vec::new(),
            cf2: Vec::new(),
            ld0: Vec::new(),
            ld1: Vec::new(),
            ld2: Vec::new(),
            ld3: Vec::new(),
            ld4: Vec::new(),
            hd0: Vec::new(),
            hd1: Vec::new(),
            addr: Vec::new(),
            parent: Vec::new(),
            x0: Vec::new(),
            x1: Vec::new(),
            x2: Vec::new(),
            x3: Vec::new(),
            group_count: Vec::new(),
            group_ops: Vec::new(),
        }
    }

    /// The number of rows appended so far.
    pub fn len(&self) -> (r: usize)
        ensures
            r == self.spec_len(),
    {
        self.clk.len()
    }

    /// Appends one full row from its cell values.
    fn push_row(
        &mut self,
        clk: Felt,
        cf: u8,
        code: u8,
        hash_a: Word,
        addr: Felt,
        parent: Felt,
        hash_b: Word,
        group_count: Felt,
        group_ops: Felt,
    )
        requires
            old(self).inv(),
            clk.inv(),
            hash_a.inv(),
            addr.inv(),
            parent.inv(),
            hash_b.inv(),
            group_count.inv(),
            group_ops.inv(),
        ensures
            final(self).inv(),
            final(self).spec_len() == old(self).spec_len() + 1,
            final(self).spec_row(old(self).spec_len() as int) == decoder_row(
                clk,
                cf,
                code,
                hash_a,
                addr,
                parent,
                hash_b,
                group_count,
                group_ops,
            ),
            forall|i: int|
                0 <= i < old(self).spec_len() ==> final(self).spec_row(i) == old(self).spec_row(i),
    {
        let ghost pre = *old(self);
        self.clk.push(clk);
        self.h0.push(hash_a.w0);
        self.h1.push(hash_a.w1);
        self.h2.push(hash_a.w2);
        self.h3.push(hash_a.w3);
        self.cf0.push(crate::ops::op_bit(cf, 1));
        self.cf1.push(crate::ops::op_bit(cf, 2));
        self.cf2.push(crate::ops::op_bit(cf, 4));
        self.ld0.push(crate::ops::op_bit(code, 1));
        self.ld1.push(crate::ops::op_bit(code, 2));
        self.ld2.push(crate::ops::op_bit(code, 4));
        self.ld3.push(crate::ops::op_bit(code, 8));
        self.ld4.push(crate::ops::op_bit(code, 16));
        self.hd0.push(crate::ops::op_bit(code, 32));
        self.hd1.push(crate::ops::op_bit(code, 64));
        self.addr.push(addr);
        self.parent.push(parent);
        self.x0.push(hash_b.w0);
        self.x1.push(hash_b.w1);
        self.x2.push(hash_b.w2);
        self.x3.push(hash_b.w3);
        self.group_count.push(group_count);
        self.group_ops.push(group_ops);
        proof {
            assert forall|j: int| 0 <= j < 23 implies (#[trigger] self.col(j)).len() == pre.spec_len()
                + 1 by {
                assert(pre.col(j).len() == pre.spec_len());
            }
            assert forall|j: int, i: int|
                0 <= j < 23 && 0 <= i < self.spec_len() implies (#[trigger] self.col(j)[i]).inv() by {
                if i < pre.spec_len() {
                    assert(self.col(j)[i] == pre.col(j)[i]);
                }
            }
            assert(self.spec_row(pre.spec_len() as int) =~= decoder_row(
                clk,
                cf,
                code,
                hash_a,
                addr,
                parent,
                hash_b,
                group_count,
                group_ops,
            ));
            assert forall|i: int| 0 <= i < pre.spec_len() implies self.spec_row(i) == pre.spec_row(
                i,
            ) by {
                assert(self.spec_row(i) =~= pre.spec_row(i));
            }
        }
    }

    /// Writes the row of a JOIN, SPLIT, LOOP or END block boundary: the
    /// address cell and the two child-hash words.
    pub fn append_row(&mut self, addr: Felt, op: Operation, child1: Word, child2: Word)
        requires
            old(self).inv(),
            addr.inv(),
            child1.inv(),
            child2.inv(),
            op is Join || op is Split || op is Loop || op is End,
        ensures
            final(self).inv(),
            final(self).spec_len() == old(self).spec_len() + 1,
            final(self).spec_row(old(self).spec_len() as int) == control_row(
                old(self).spec_len() as int,
                op.spec_cf_code(),
                addr,
                child1,
                child2,
            ),
            forall|i: int|
                0 <= i < old(self).spec_len() ==> final(self).spec_row(i) == old(self).spec_row(i),
    {
        let i = self.clk.len();
        let clk = Felt { value: i as u128 };
        let cf = op.cf_code();
        self.push_row(clk, cf, 0, child1, addr, Felt::zero(), child2, Felt::zero(), Felt::zero());
    }

    /// Writes the SPAN row that starts a span block.
    pub fn append_span_start(
        &mut self,
        parent_addr: Felt,
        first_op_batch: &Vec<Felt>,
        num_op_groups: Felt,
    )
        requires
            old(self).inv(),
            parent_addr.inv(),
            num_op_groups.inv(),
            first_op_batch@.len() == 8,
            forall|i: int| 0 <= i < 8 ==> (#[trigger] first_op_batch@[i]).inv(),
        ensures
            final(self).inv(),
            final(self).spec_len() == old(self).spec_len() + 1,
            final(self).spec_row(old(self).spec_len() as int) == span_row(
                old(self).spec_len() as int,
                parent_addr,
                first_op_batch@,
                num_op_groups,
            ),
            forall|i: int|
                0 <= i < old(self).spec_len() ==> final(self).spec_row(i) == old(self).spec_row(i),
    {
        let i = self.clk.len();
        let clk = Felt { value: i as u128 };
        let hash_a = Word::from_elements(
            first_op_batch[0],
            first_op_batch[1],
            first_op_batch[2],
            first_op_batch[3],
        );
        let hash_b = Word::from_elements(
            first_op_batch[4],
            first_op_batch[5],
            first_op_batch[6],
            first_op_batch[7],
        );
        self.push_row(
            clk,
            CF_SPAN,
            0,
            hash_a,
            parent_addr,
            Felt::zero(),
            hash_b,
            num_op_groups,
            Felt::zero(),
        );
    }

    /// Writes the RESPAN row that advances a span to its next batch.
    pub fn append_respan(&mut self, op_batch_groups: &Vec<Felt>)
        requires
            old(self).inv(),
            op_batch_groups@.len() == 8,
            forall|i: int| 0 <= i < 8 ==> (#[trigger] op_batch_groups@[i]).inv(),
        ensures
            final(self).inv(),
            final(self).spec_len() == old(self).spec_len() + 1,
            final(self).spec_row(old(self).spec_len() as int) == respan_row(
                old(self).spec_len() as int,
                op_batch_groups@,
            ),
            forall|i: int|
                0 <= i < old(self).spec_len() ==> final(self).spec_row(i) == old(self).spec_row(i),
    {
        let i = self.clk.len();
        let clk = Felt { value: i as u128 };
        let hash_a = Word::from_elements(
            op_batch_groups[0],
            op_batch_groups[1],
            op_batch_groups[2],
            op_batch_groups[3],
        );
        let hash_b = Word::from_elements(
            op_batch_groups[4],
            op_batch_groups[5],
            op_batch_groups[6],
            op_batch_groups[7],
        );
        self.push_row(
            clk,
            CF_RESPAN,
            0,
            hash_a,
            Felt::zero(),
            Felt::zero(),
            hash_b,
            Felt::zero(),
            Felt::zero(),
        );
    }

    /// Writes the row of one executed user operation.
    pub fn append_user_op(
        &mut self,
        op: Operation,
        addr: Felt,
        parent_addr: Felt,
        num_groups_left: Felt,
        group_ops_left: Felt,
    )
        requires
            old(self).inv(),
            addr.inv(),
            parent_addr.inv(),
            num_groups_left.inv(),
            group_ops_left.inv(),
            op.spec_op_code() is Some,
        ensures
            final(self).inv(),
            final(self).spec_len() == old(self).spec_len() + 1,
            final(self).spec_row(old(self).spec_len() as int) == user_op_row(
                old(self).spec_len() as int,
                op.spec_op_code()->0,
                addr,
                parent_addr,
                num_groups_left,
                group_ops_left,
            ),
            forall|i: int|
                0 <= i < old(self).spec_len() ==> final(self).spec_row(i) == old(self).spec_row(i),
    {
        let i = self.clk.len();
        let clk = Felt { value: i as u128 };
        let code = match op.op_code() {
            Some(c) => c,
            None => 0,
        };
        self.push_row(
            clk,
            CF_EXEC,
            code,
            Word::zeroed(),
            addr,
            parent_addr,
            Word::zeroed(),
            num_groups_left,
            group_ops_left,
        );
    }

    /// Writes the END row that terminates a span block.
    pub fn append_span_end(&mut self, block_hash: Word, extra: Felt)
        requires
            old(self).inv(),
            block_hash.inv(),
            extra.inv(),
        ensures
            final(self).inv(),
            final(self).spec_len() == old(self).spec_len() + 1,
            final(self).spec_row(old(self).spec_len() as int) == span_end_row(
                old(self).spec_len() as int,
                block_hash,
                extra,
            ),
            forall|i: int|
                0 <= i < old(self).spec_len() ==> final(self).spec_row(i) == old(self).spec_row(i),
    {
        let i = self.clk.len();
        let clk = Felt { value: i as u128 };
        self.push_row(
            clk,
            CF_END,
            0,
            block_hash,
            Felt::zero(),
            Felt::zero(),
            Word::zeroed(),
            Felt::zero(),
            extra,
        );
    }

    /// Appends one canonical idle row.
    fn append_idle_row(&mut self)
        requires
            old(self).inv(),
        ensures
            final(self).inv(),
            final(self).spec_len() == old(self).spec_len() + 1,
            final(self).spec_row(old(self).spec_len() as int) == idle_row(),
            forall|i: int|
                0 <= i < old(self).spec_len() ==> final(self).spec_row(i) == old(self).spec_row(i),
    {
        self.push_row(
            Felt::zero(),
            CF_VOID,
            0,
            Word::zeroed(),
            Felt::zero(),
            Felt::zero(),
            Word::zeroed(),
            Felt::zero(),
            Felt::zero(),
        );
    }

    /// Appends one randomness row: the canonical idle row, except that the
    /// cells of the two hash words hold random field elements.
    fn append_rand_row(&mut self)
        requires
            old(self).inv(),
        ensures
            final(self).inv(),
            final(self).spec_len() == old(self).spec_len() + 1,
            forall|j: int|
                0 <= j < 23 && !is_rand_column(j) ==> final(self).spec_row(
                    old(self).spec_len() as int,
                )[j] == idle_row()[j],
            forall|i: int|
                0 <= i < old(self).spec_len() ==> final(self).spec_row(i) == old(self).spec_row(i),
    {
        let hash_a = Word::from_elements(
            Felt::new(random_u128()),
            Felt::new(random_u128()),
            Felt::new(random_u128()),
            Felt::new(random_u128()),
        );
        let hash_b = Word::from_elements(
            Felt::new(random_u128()),
            Felt::new(random_u128()),
            Felt::new(random_u128()),
            Felt::new(random_u128()),
        );
        self.push_row(
            Felt::zero(),
            CF_VOID,
            0,
            hash_a,
            Felt::zero(),
            Felt::zero(),
            hash_b,
            Felt::zero(),
            Felt::zero(),
        );
    }

    /// Finalizes the trace: pads it with the canonical idle row up to
    /// `trace_len - num_rand_rows` rows, appends `num_rand_rows` randomness
    /// rows, and returns the immutable column matrix. The requested length
    /// must be a power of two, at least the minimum trace length, and large
    /// enough to hold every appended row plus the randomness rows.
    pub fn into_vec(self, trace_len: usize, num_rand_rows: usize) -> (r: Vec<Vec<Felt>>)
        requires
            self.inv(),
            self.spec_len() >= 1,
            is_power_of_two(trace_len as int),
            trace_len >= crate::layout::MIN_TRACE_LEN,
            self.spec_len() + num_rand_rows <= trace_len,
        ensures
            r@.len() == 23,
            forall|j: int| 0 <= j < 23 ==> (#[trigger] r@[j])@.len() == trace_len,
            forall|j: int, i: int|
                0 <= j < 23 && 0 <= i < trace_len ==> (#[trigger] r@[j]@[i]).inv(),
            forall|i: int| 0 <= i < self.spec_len() ==> matrix_row(r@, i) == self.spec_row(i),
            forall|i: int|
                self.spec_len() <= i < trace_len - num_rand_rows ==> matrix_row(r@, i)
                    == idle_row(),
            forall|j: int, i: int|
                0 <= j < 23 && trace_len - num_rand_rows <= i < trace_len && !is_rand_column(j)
                    ==> r@[j]@[i] == idle_row()[j],
    {
        let ghost orig = self;
        let mut t = self;
        let data_len = trace_len - num_rand_rows;
        while t.len() < data_len
            invariant
                t.inv(),
                orig.spec_len() <= t.spec_len() <= data_len,
                data_len <= trace_len,
                forall|i: int| 0 <= i < orig.spec_len() ==> t.spec_row(i) == orig.spec_row(i),
                forall|i: int| orig.spec_len() <= i < t.spec_len() ==> t.spec_row(i) == idle_row(),
            decreases data_len - t.spec_len(),
        {
            let ghost tprev = t;
            t.append_idle_row();
            proof {
                assert forall|i: int| 0 <= i < orig.spec_len() implies t.spec_row(i)
                    == orig.spec_row(i) by {
                    assert(t.spec_row(i) == tprev.spec_row(i));
                }
                assert forall|i: int| orig.spec_len() <= i < t.spec_len() implies t.spec_row(i)
                    == idle_row() by {
                    if i < tprev.spec_len() {
                        assert(t.spec_row(i) == tprev.spec_row(i));
                    }
                }
            }
        }
        while t.len() < trace_len
            invariant
                t.inv(),
                orig.spec_len() <= data_len <= trace_len,
                data_len <= t.spec_len() <= trace_len,
                forall|i: int| 0 <= i < orig.spec_len() ==> t.spec_row(i) == orig.spec_row(i),
                forall|i: int| orig.spec_len() <= i < data_len ==> t.spec_row(i) == idle_row(),
                forall|j: int, i: int|
                    0 <= j < 23 && data_len <= i < t.spec_len() && !is_rand_column(j)
                        ==> t.spec_row(i)[j] == idle_row()[j],
            decreases trace_len - t.spec_len(),
        {
            let ghost tprev = t;
            t.append_rand_row();
            proof {
                assert forall|i: int| 0 <= i < orig.spec_len() implies t.spec_row(i)
                    == orig.spec_row(i) by {
                    assert(t.spec_row(i) == tprev.spec_row(i));
                }
                assert forall|i: int| orig.spec_len() <= i < data_len implies t.spec_row(i)
                    == idle_row() by {
                    assert(t.spec_row(i) == tprev.spec_row(i));
                }
                assert forall|j: int, i: int|
                    0 <= j < 23 && data_len <= i < t.spec_len() && !is_rand_column(j) implies t
                    .spec_row(i)[j] == idle_row()[j] by {
                    if i < tprev.spec_len() {
                        assert(t.spec_row(i) == tprev.spec_row(i));
                    }
                }
            }
        }
        let ghost tfin = t;
        let DecoderTrace {
            clk,
            h0,
            h1,
            h2,
            h3,
            cf0,
            cf1,
            cf2,
            ld0,
            ld1,
            ld2,
            ld3,
            ld4,
            hd0,
            hd1,
            addr,
            parent,
            x0,
            x1,
            x2,
            x3,
            group_count,
            group_ops,
        } = t;
        let mut r: Vec<Vec<Felt>> = Vec::new();
        r.push(clk);
        r.push(h0);
        r.push(h1);
        r.push(h2);
        r.push(h3);
        r.push(cf0);
        r.push(cf1);
        r.push(cf2);
        r.push(ld0);
        r.push(ld1);
        r.push(ld2);
        r.push(ld3);
        r.push(ld4);
        r.push(hd0);
        r.push(hd1);
        r.push(addr);
        r.push(parent);
        r.push(x0);
        r.push(x1);
        r.push(x2);
        r.push(x3);
        r.push(group_count);
        r.push(group_ops);
        proof {
            assert(r@.len() == 23);
            assert(r@[0]@ == tfin.col(0));
            assert(r@[1]@ == tfin.col(1));
            assert(r@[2]@ == tfin.col(2));
            assert(r@[3]@ == tfin.col(3));
            assert(r@[4]@ == tfin.col(4));
            assert(r@[5]@ == tfin.col(5));
            assert(r@[6]@ == tfin.col(6));
            assert(r@[7]@ == tfin.col(7));
            assert(r@[8]@ == tfin.col(8));
            assert(r@[9]@ == tfin.col(9));
            assert(r@[10]@ == tfin.col(10));
            assert(r@[11]@ == tfin.col(11));
            assert(r@[12]@ == tfin.col(12));
            assert(r@[13]@ == tfin.col(13));
            assert(r@[14]@ == tfin.col(14));
            assert(r@[15]@ == tfin.col(15));
            assert(r@[16]@ == tfin.col(16));
            assert(r@[17]@ == tfin.col(17));
            assert(r@[18]@ == tfin.col(18));
            assert(r@[19]@ == tfin.col(19));
            assert(r@[20]@ == tfin.col(20));
            assert(r@[21]@ == tfin.col(21));
            assert(r@[22]@ == tfin.col(22));
            assert forall|j: int| 0 <= j < 23 implies (#[trigger] r@[j])@ == tfin.col(j) by {}
            assert forall|i: int| 0 <= i < trace_len implies matrix_row(r@, i) == tfin.spec_row(
                i,
            ) by {
                assert(matrix_row(r@, i) =~= tfin.spec_row(i));
            }
            assert forall|i: int|
                orig.spec_len() <= i < trace_len - num_rand_rows implies matrix_row(r@, i)
                == idle_row() by {
                assert(matrix_row(r@, i) == tfin.spec_row(i));
            }
            assert forall|j: int, i: int|
                0 <= j < 23 && trace_len - num_rand_rows <= i < trace_len && !is_rand_column(
                j,
            ) implies r@[j]@[i] == idle_row()[j] by {
                assert(r@[j]@ == tfin.col(j));
                assert(r@[j]@[i] == tfin.spec_row(i)[j]);
                assert(tfin.spec_row(i)[j] == idle_row()[j]);
            }
            assert forall|j: int, i: int|
                0 <= j < 23 && 0 <= i < trace_len implies (#[trigger] r@[j]@[i]).inv() by {
                assert(r@[j]@ == tfin.col(j));
            }
        }
        r
    }
}

} // verus!
