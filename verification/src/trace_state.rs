//! Trace state view.
//!
//! A read-only projection of one flattened trace row into its named regions:
//! the operation counter, the sponge, the three op-bit groups, and the
//! context, loop and user stacks. The three stack regions are read at the
//! configured depths and padded with zeros up to their enforced minima. The
//! view is consumed by the constraint evaluator; its contracts are the sole
//! row-layout interface.

use vstd::prelude::*;
use vstd::arithmetic::div_mod::lemma_add_mod_noop;
use vstd::arithmetic::div_mod::lemma_add_mod_noop_right;
use vstd::arithmetic::div_mod::lemma_mul_mod_noop;
use vstd::arithmetic::div_mod::lemma_small_mod;
use crate::felt::Felt;
use crate::felt::FIELD_MODULUS;
use crate::layout::MIN_CONTEXT_DEPTH;
use crate::layout::MIN_LOOP_DEPTH;
use crate::layout::MIN_STACK_DEPTH;
use crate::layout::NUM_STATIC_DECODER_REGISTERS;
use crate::layout::PROGRAM_DIGEST_SIZE;
use crate::trace::felt;
use crate::trace::user_op_row;

verus! {

/// The named regions of one trace row, before any zero padding: what a
/// `TraceState` reads out of the row.
#[verifier::ext_equal]
pub ghost struct Regions {
    pub op_counter: Felt,
    pub sponge: Seq<Felt>,
    pub cf_op_bits: Seq<Felt>,
    pub ld_op_bits: Seq<Felt>,
    pub hd_op_bits: Seq<Felt>,
    pub ctx_stack: Seq<Felt>,
    pub loop_stack: Seq<Felt>,
    pub user_stack: Seq<Felt>,
}

/// Slices a row of width `15 + ctx_depth + loop_depth + stack_depth` into
/// its named regions.
pub open spec fn regions_of_row(
    state: Seq<Felt>,
    ctx_depth: int,
    loop_depth: int,
    stack_depth: int,
) -> Regions {
    Regions {
        op_counter: state[0],
        sponge: state.subrange(1, 5),
        cf_op_bits: state.subrange(5, 8),
        ld_op_bits: state.subrange(8, 13),
        hd_op_bits: state.subrange(13, 15),
        ctx_stack: state.subrange(15, 15 + ctx_depth),
        loop_stack: state.subrange(15 + ctx_depth, 15 + ctx_depth + loop_depth),
        user_stack: state.subrange(
            15 + ctx_depth + loop_depth,
            15 + ctx_depth + loop_depth + stack_depth,
        ),
    }
}

/// Reassembles a row from its named regions.
pub open spec fn row_of_regions(r: Regions) -> Seq<Felt> {
    seq![r.op_counter] + r.sponge + r.cf_op_bits + r.ld_op_bits + r.hd_op_bits + r.ctx_stack
        + r.loop_stack + r.user_stack
}

/// Slicing a row into its regions and reassembling them yields the row back:
/// the view is a lossless projection of any row of matching width.
pub proof fn lemma_view_round_trip(
    state: Seq<Felt>,
    ctx_depth: int,
    loop_depth: int,
    stack_depth: int,
)
    requires
        ctx_depth >= 0,
        loop_depth >= 0,
        stack_depth >= 0,
        state.len() == 15 + ctx_depth + loop_depth + stack_depth,
    ensures
        row_of_regions(regions_of_row(state, ctx_depth, loop_depth, stack_depth)) == state,
{
    assert(row_of_regions(regions_of_row(state, ctx_depth, loop_depth, stack_depth)) =~= state);
}

/// The weighted sum that reconstructs a 7-bit opcode from the low- and
/// high-degree op bits, as a canonical field value.
pub open spec fn op_code_value(ld: Seq<Felt>, hd: Seq<Felt>) -> int {
    (ld[0].value + 2 * ld[1].value + 4 * ld[2].value + 8 * ld[3].value + 16 * ld[4].value + 32 * hd[
        0
    ].value + 64 * hd[1].value) % (FIELD_MODULUS as int)
}

/// Every user-op row written by the decoder reconstructs, through the view's
/// opcode formula, exactly the opcode of the operation that produced it.
pub proof fn lemma_op_code_reconstruction(
    i: int,
    code: u8,
    addr: Felt,
    parent: Felt,
    num_groups_left: Felt,
    group_ops_left: Felt,
)
    requires
        code < 128,
    ensures
        ({
            let regions = regions_of_row(
                user_op_row(i, code, addr, parent, num_groups_left, group_ops_left),
                2,
                0,
                6,
            );
            op_code_value(regions.ld_op_bits, regions.hd_op_bits) == code
        }),
{
    let row = user_op_row(i, code, addr, parent, num_groups_left, group_ops_left);
    let regions = regions_of_row(row, 2, 0, 6);
    crate::ops::lemma_op_code_from_bits(code);
    assert(regions.ld_op_bits[0] == felt(crate::ops::bit_at(code, 1)));
    assert(regions.ld_op_bits[1] == felt(crate::ops::bit_at(code, 2)));
    assert(regions.ld_op_bits[2] == felt(crate::ops::bit_at(code, 4)));
    assert(regions.ld_op_bits[3] == felt(crate::ops::bit_at(code, 8)));
    assert(regions.ld_op_bits[4] == felt(crate::ops::bit_at(code, 16)));
    assert(regions.hd_op_bits[0] == felt(crate::ops::bit_at(code, 32)));
    assert(regions.hd_op_bits[1] == felt(crate::ops::bit_at(code, 64)));
    lemma_small_mod(code as nat, FIELD_MODULUS as nat);
}

/// The length a stack region is padded to: the configured depth, or the
/// enforced minimum if the depth is smaller.
pub open spec fn padded_len(depth: int, min: int) -> int {
    if depth < min {
        min
    } else {
        depth
    }
}

/// Copies the cells `from..to` of a row into a fresh vector.
fn copy_range(state: &Vec<Felt>, from: usize, to: usize) -> (r: Vec<Felt>)
    requires
        from <= to <= state@.len(),
    ensures
        r@ == state@.subrange(from as int, to as int),
{
    let mut r: Vec<Felt> = Vec::new();
    let mut j = from;
    while j < to
        invariant
            from <= j <= to <= state@.len(),
            r@ == state@.subrange(from as int, j as int),
        decreases to - j,
    {
        r.push(state[j]);
        j = j + 1;
        proof {
            assert(r@ =~= state@.subrange(from as int, j as int));
        }
    }
    r
}

/// Extends a vector with zeros up to length `n`.
fn zero_extend(v: &mut Vec<Felt>, n: usize)
    requires
        old(v)@.len() <= n,
    ensures
        final(v)@.len() == n,
        final(v)@.subrange(0, old(v)@.len() as int) == old(v)@,
        forall|k: int| old(v)@.len() <= k < n ==> final(v)@[k] == felt(0),
{
    let ghost pre = old(v)@;
    while v.len() < n
        invariant
            pre.len() <= v@.len() <= n,
            v@.subrange(0, pre.len() as int) == pre,
            forall|k: int| pre.len() <= k < v@.len() ==> v@[k] == felt(0),
        decreases n - v@.len(),
    {
        v.push(Felt::zero());
        proof {
            assert(v@.subrange(0, pre.len() as int) =~= pre);
        }
    }
}

/// Appends the cells `from..` of `src` to `dst`.
fn append_tail(dst: &mut Vec<Felt>, src: &Vec<Felt>, from: usize)
    requires
        from <= src@.len(),
    ensures
        final(dst)@ == old(dst)@ + src@.subrange(from as int, src@.len() as int),
{
    let ghost pre = old(dst)@;
    let n = src.len();
    let mut j = from;
    while j < n
        invariant
            from <= j <= n,
            n == src@.len(),
            dst@ == pre + src@.subrange(from as int, j as int),
        decreases n - j,
    {
        dst.push(src[j]);
        j = j + 1;
        proof {
            assert(dst@ =~= pre + src@.subrange(from as int, j as int));
        }
    }
    proof {
        assert(dst@ =~= pre + src@.subrange(from as int, src@.len() as int));
    }
}

/// The projection of one trace row into its named regions, with the three
/// stack regions padded with zeros up to their enforced minima.
pub struct TraceState {
    pub op_counter: Felt,
    pub sponge: Vec<Felt>,
    pub cf_op_bits: Vec<Felt>,
    pub ld_op_bits: Vec<Felt>,
    pub hd_op_bits: Vec<Felt>,
    pub ctx_stack: Vec<Felt>,
    pub loop_stack: Vec<Felt>,
    pub user_stack: Vec<Felt>,
    pub ctx_depth: usize,
    pub loop_depth: usize,
    pub stack_depth: usize,
}

impl TraceState {
    /// Every region has its layout length (the stacks padded up to their
    /// minima), the configured width fits the machine, and every cell is a
    /// canonical field element.
    pub open spec fn wf(self) -> bool {
        &&& self.op_counter.inv()
        &&& self.sponge@.len() == 4
        &&& self.cf_op_bits@.len() == 3
        &&& self.ld_op_bits@.len() == 5
        &&& self.hd_op_bits@.len() == 2
        &&& self.ctx_stack@.len() == padded_len(self.ctx_depth as int, MIN_CONTEXT_DEPTH as int)
        &&& self.loop_stack@.len() == padded_len(self.loop_depth as int, MIN_LOOP_DEPTH as int)
        &&& self.user_stack@.len() == padded_len(self.stack_depth as int, MIN_STACK_DEPTH as int)
        &&& 15 + self.ctx_depth + self.loop_depth + self.stack_depth <= usize::MAX
        &&& forall|k: int| 0 <= k < 4 ==> (#[trigger] self.sponge@[k]).inv()
        &&& forall|k: int| 0 <= k < 3 ==> (#[trigger] self.cf_op_bits@[k]).inv()
        &&& forall|k: int| 0 <= k < 5 ==> (#[trigger] self.ld_op_bits@[k]).inv()
        &&& forall|k: int| 0 <= k < 2 ==> (#[trigger] self.hd_op_bits@[k]).inv()
        &&& forall|k: int| 0 <= k < self.ctx_stack@.len() ==> (#[trigger] self.ctx_stack@[k]).inv()
        &&& forall|k: int|
            0 <= k < self.loop_stack@.len() ==> (#[trigger] self.loop_stack@[k]).inv()
        &&& forall|k: int|
            0 <= k < self.user_stack@.len() ==> (#[trigger] self.user_stack@[k]).inv()
    }

    /// The regions the view currently holds, truncated to the configured
    /// depths: the exact content of the underlying row.
    pub open spec fn regions(self) -> Regions {
        Regions {
            op_counter: self.op_counter,
            sponge: self.sponge@,
            cf_op_bits: self.cf_op_bits@,
            ld_op_bits: self.ld_op_bits@,
            hd_op_bits: self.hd_op_bits@,
            ctx_stack: self.ctx_stack@.subrange(0, self.ctx_depth as int),
            loop_stack: self.loop_stack@.subrange(0, self.loop_depth as int),
            user_stack: self.user_stack@.subrange(0, self.stack_depth as int),
        }
    }

    /// The row the view projects: its regions reassembled in layout order.
    pub open spec fn to_row(self) -> Seq<Felt> {
        row_of_regions(self.regions())
    }

    /// The width of the row the view reads: the static registers plus the
    /// three configured stack depths.
    pub open spec fn spec_width(self) -> int {
        15 + self.ctx_depth + self.loop_depth + self.stack_depth
    }

    /// A view of the given depths over an all-zero row: every region cell is
    /// zero, the stack padding cells beyond the configured depths included.
    pub fn new(ctx_depth: usize, loop_depth: usize, stack_depth: usize) -> (r: TraceState)
        requires
            15 + ctx_depth + loop_depth + stack_depth <= usize::MAX,
        ensures
            r.wf(),
            r.ctx_depth == ctx_depth,
            r.loop_depth == loop_depth,
            r.stack_depth == stack_depth,
            r.op_counter == felt(0),
            forall|k: int| 0 <= k < r.sponge@.len() ==> (#[trigger] r.sponge@[k]) == felt(0),
            forall|k: int|
                0 <= k < r.cf_op_bits@.len() ==> (#[trigger] r.cf_op_bits@[k]) == felt(0),
            forall|k: int|
                0 <= k < r.ld_op_bits@.len() ==> (#[trigger] r.ld_op_bits@[k]) == felt(0),
            forall|k: int|
                0 <= k < r.hd_op_bits@.len() ==> (#[trigger] r.hd_op_bits@[k]) == felt(0),
            forall|k: int|
                0 <= k < r.ctx_stack@.len() ==> (#[trigger] r.ctx_stack@[k]) == felt(0),
            forall|k: int|
                0 <= k < r.loop_stack@.len() ==> (#[trigger] r.loop_stack@[k]) == felt(0),
            forall|k: int|
                0 <= k < r.user_stack@.len() ==> (#[trigger] r.user_stack@[k]) == felt(0),
            forall|k: int| 0 <= k < r.to_row().len() ==> r.to_row()[k] == felt(0),
            r.to_row().len() == r.spec_width(),
    {
        let ctx_len = if ctx_depth < MIN_CONTEXT_DEPTH {
            MIN_CONTEXT_DEPTH
        } else {
            ctx_depth
        };
        let loop_len = if loop_depth < MIN_LOOP_DEPTH {
            MIN_LOOP_DEPTH
        } else {
            loop_depth
        };
        let stack_len = if stack_depth < MIN_STACK_DEPTH {
            MIN_STACK_DEPTH
        } else {
            stack_depth
        };
        let mut sponge: Vec<Felt> = Vec::new();
        zero_extend(&mut sponge, 4);
        let mut cf_op_bits: Vec<Felt> = Vec::new();
        zero_extend(&mut cf_op_bits, 3);
        let mut ld_op_bits: Vec<Felt> = Vec::new();
        zero_extend(&mut ld_op_bits, 5);
        let mut hd_op_bits: Vec<Felt> = Vec::new();
        zero_extend(&mut hd_op_bits, 2);
        let mut ctx_stack: Vec<Felt> = Vec::new();
        zero_extend(&mut ctx_stack, ctx_len);
        let mut loop_stack: Vec<Felt> = Vec::new();
        zero_extend(&mut loop_stack, loop_len);
        let mut user_stack: Vec<Felt> = Vec::new();
        zero_extend(&mut user_stack, stack_len);
        TraceState {
            op_counter: Felt::zero(),
            sponge,
            cf_op_bits,
            ld_op_bits,
            hd_op_bits,
            ctx_stack,
            loop_stack,
            user_stack,
            ctx_depth,
            loop_depth,
            stack_depth,
        }
    }

    /// Builds a view of the given depths from a row of exactly the matching
    /// width: every region is read from its layout position, and the three
    /// stacks are padded with zeros up to their enforced minima.
    #[verifier::rlimit(60)]
    pub fn from_vec(
        ctx_depth: usize,
        loop_depth: usize,
        stack_depth: usize,
        state: &Vec<Felt>,
    ) -> (r: TraceState)
        requires
            state@.len() == 15 + ctx_depth + loop_depth + stack_depth,
            forall|k: int| 0 <= k < state@.len() ==> (#[trigger] state@[k]).inv(),
        ensures
            r.wf(),
            r.ctx_depth == ctx_depth,
            r.loop_depth == loop_depth,
            r.stack_depth == stack_depth,
            r.regions() == regions_of_row(
                state@,
                ctx_depth as int,
                loop_depth as int,
                stack_depth as int,
            ),
            r.to_row() == state@,
            forall|k: int|
                ctx_depth <= k < r.ctx_stack@.len() ==> (#[trigger] r.ctx_stack@[k]) == felt(0),
            forall|k: int|
                loop_depth <= k < r.loop_stack@.len() ==> (#[trigger] r.loop_stack@[k]) == felt(0),
            forall|k: int|
                stack_depth <= k < r.user_stack@.len() ==> (#[trigger] r.user_stack@[k]) == felt(
                    0,
                ),
    {
        let total = state.len();
        proof {
            assert(15 + ctx_depth + loop_depth + stack_depth == total);
        }
        let op_counter = state[0];
        let sponge = copy_range(state, 1, 5);
        let cf_op_bits = copy_range(state, 5, 8);
        let ld_op_bits = copy_range(state, 8, 13);
        let hd_op_bits = copy_range(state, 13, 15);
        let ctx_end = 15 + ctx_depth;
        let mut ctx_stack = copy_range(state, 15, ctx_end);
        if ctx_depth < MIN_CONTEXT_DEPTH {
            zero_extend(&mut ctx_stack, MIN_CONTEXT_DEPTH);
        }
        let loop_end = ctx_end + loop_depth;
        let mut loop_stack = copy_range(state, ctx_end, loop_end);
        if loop_depth < MIN_LOOP_DEPTH {
            zero_extend(&mut loop_stack, MIN_LOOP_DEPTH);
        }
        let user_end = loop_end + stack_depth;
        let mut user_stack = copy_range(state, loop_end, user_end);
        if stack_depth < MIN_STACK_DEPTH {
            zero_extend(&mut user_stack, MIN_STACK_DEPTH);
        }
        let r = TraceState {
            op_counter,
            sponge,
            cf_op_bits,
            ld_op_bits,
            hd_op_bits,
            ctx_stack,
            loop_stack,
            user_stack,
            ctx_depth,
            loop_depth,
            stack_depth,
        };
        proof {
            assert(r.ctx_stack@.subrange(0, ctx_depth as int) =~= state@.subrange(
                15,
                15 + ctx_depth as int,
            ));
            assert(r.loop_stack@.subrange(0, loop_depth as int) =~= state@.subrange(
                15 + ctx_depth as int,
                15 + ctx_depth as int + loop_depth as int,
            ));
            assert(r.user_stack@.subrange(0, stack_depth as int) =~= state@.subrange(
                15 + ctx_depth as int + loop_depth as int,
                15 + ctx_depth as int + loop_depth as int + stack_depth as int,
            ));
            assert(r.regions() =~= regions_of_row(
                state@,
                ctx_depth as int,
                loop_depth as int,
                stack_depth as int,
            ));
            lemma_view_round_trip(
                state@,
                ctx_depth as int,
                loop_depth as int,
                stack_depth as int,
            );
            assert forall|k: int|
                0 <= k < r.user_stack@.len() implies (#[trigger] r.user_stack@[k]).inv() by {
                if k < stack_depth {
                    assert(r.user_stack@[k] == state@[15 + ctx_depth as int + loop_depth as int
                        + k]);
                }
            }
        }
        r
    }

    /// Builds a view from a row of plain integers, reducing each into the
    /// field.
    pub fn from_u128_slice(
        ctx_depth: usize,
        loop_depth: usize,
        stack_depth: usize,
        state: &[u128],
    ) -> (r: TraceState)
        requires
            state@.len() == 15 + ctx_depth + loop_depth + stack_depth,
        ensures
            r.wf(),
            r.ctx_depth == ctx_depth,
            r.loop_depth == loop_depth,
            r.stack_depth == stack_depth,
            r.regions() == regions_of_row(
                Seq::new(state@.len(), |k: int| felt(state@[k] % FIELD_MODULUS)),
                ctx_depth as int,
                loop_depth as int,
                stack_depth as int,
            ),
            r.to_row() == Seq::new(state@.len(), |k: int| felt(state@[k] % FIELD_MODULUS)),
            forall|k: int|
                ctx_depth <= k < r.ctx_stack@.len() ==> (#[trigger] r.ctx_stack@[k]) == felt(0),
            forall|k: int|
                loop_depth <= k < r.loop_stack@.len() ==> (#[trigger] r.loop_stack@[k]) == felt(0),
            forall|k: int|
                stack_depth <= k < r.user_stack@.len() ==> (#[trigger] r.user_stack@[k]) == felt(
                    0,
                ),
    {
        let n = state.len();
        let mut elems: Vec<Felt> = Vec::new();
        let mut j: usize = 0;
        while j < n
            invariant
                0 <= j <= n,
                n == state@.len(),
                elems@ == Seq::new(j as nat, |k: int| felt(state@[k] % FIELD_MODULUS)),
            decreases n - j,
        {
            elems.push(Felt::new(state[j]));
            j = j + 1;
            proof {
                assert(elems@ =~= Seq::new(j as nat, |k: int| felt(state@[k] % FIELD_MODULUS)));
            }
        }
        let r = Self::from_vec(ctx_depth, loop_depth, stack_depth, &elems);
        r
    }

    /// The width of the decoder's own registers for the given stack depths:
    /// the static registers plus the context and loop stacks.
    pub fn compute_decoder_width(ctx_depth: usize, loop_depth: usize) -> (r: usize)
        requires
            15 + ctx_depth + loop_depth <= usize::MAX,
        ensures
            r == 15 + ctx_depth + loop_depth,
    {
        NUM_STATIC_DECODER_REGISTERS + ctx_depth + loop_depth
    }

    /// The width of the row the view reads.
    pub fn width(&self) -> (r: usize)
        requires
            self.wf(),
        ensures
            r == self.spec_width(),
    {
        15 + self.ctx_depth + self.loop_depth + self.stack_depth
    }

    /// The configured user-stack depth.
    pub fn stack_depth(&self) -> (r: usize)
        ensures
            r == self.stack_depth,
    {
        self.stack_depth
    }

    /// The operation counter cell.
    pub fn op_counter(&self) -> (r: Felt)
        ensures
            r == self.op_counter,
    {
        self.op_counter
    }

    /// The sponge region.
    pub fn sponge(&self) -> (r: &Vec<Felt>)
        ensures
            r@ == self.sponge@,
    {
        &self.sponge
    }

    /// The program digest: the leading cells of the sponge.
    pub fn program_hash(&self) -> (r: Vec<Felt>)
        requires
            self.wf(),
        ensures
            r@ == self.sponge@.subrange(0, PROGRAM_DIGEST_SIZE as int),
    {
        copy_range(&self.sponge, 0, PROGRAM_DIGEST_SIZE)
    }

    /// The control-flow op bits.
    pub fn cf_op_bits(&self) -> (r: &Vec<Felt>)
        ensures
            r@ == self.cf_op_bits@,
    {
        &self.cf_op_bits
    }

    /// The low-degree op bits.
    pub fn ld_op_bits(&self) -> (r: &Vec<Felt>)
        ensures
            r@ == self.ld_op_bits@,
    {
        &self.ld_op_bits
    }

    /// The high-degree op bits.
    pub fn hd_op_bits(&self) -> (r: &Vec<Felt>)
        ensures
            r@ == self.hd_op_bits@,
    {
        &self.hd_op_bits
    }

    /// Reconstructs the 7-bit opcode encoded by the low- and high-degree op
    /// bits: their weighted sum in the field.
    pub fn op_code(&self) -> (r: Felt)
        requires
            self.wf(),
        ensures
            r.value == op_code_value(self.ld_op_bits@, self.hd_op_bits@),
            r.inv(),
    {
        let ld0 = self.ld_op_bits[0];
        let ld1 = self.ld_op_bits[1];
        let ld2 = self.ld_op_bits[2];
        let ld3 = self.ld_op_bits[3];
        let ld4 = self.ld_op_bits[4];
        let hd0 = self.hd_op_bits[0];
        let hd1 = self.hd_op_bits[1];
        let mut result = ld0;
        result = result.add(ld1.mul(Felt { value: 2 }));
        result = result.add(ld2.mul(Felt { value: 4 }));
        result = result.add(ld3.mul(Felt { value: 8 }));
        result = result.add(ld4.mul(Felt { value: 16 }));
        result = result.add(hd0.mul(Felt { value: 32 }));
        result = result.add(hd1.mul(Felt { value: 64 }));
        proof {
            let m = FIELD_MODULUS as int;
            let v0 = ld0.value as int;
            let v1 = ld1.value as int;
            let v2 = ld2.value as int;
            let v3 = ld3.value as int;
            let v4 = ld4.value as int;
            let v5 = hd0.value as int;
            let v6 = hd1.value as int;
            lemma_small_mod(ld0.value as nat, FIELD_MODULUS as nat);
            lemma_mul_mod_noop(v1, 2, m);
            lemma_small_mod(ld1.value as nat, FIELD_MODULUS as nat);
            lemma_small_mod(2nat, FIELD_MODULUS as nat);
            lemma_add_mod_noop(v0, v1 * 2, m);
            lemma_mul_mod_noop(v2, 4, m);
            lemma_small_mod(ld2.value as nat, FIELD_MODULUS as nat);
            lemma_small_mod(4nat, FIELD_MODULUS as nat);
            lemma_add_mod_noop(v0 + v1 * 2, v2 * 4, m);
            lemma_mul_mod_noop(v3, 8, m);
            lemma_small_mod(ld3.value as nat, FIELD_MODULUS as nat);
            lemma_small_mod(8nat, FIELD_MODULUS as nat);
            lemma_add_mod_noop(v0 + v1 * 2 + v2 * 4, v3 * 8, m);
            lemma_mul_mod_noop(v4, 16, m);
            lemma_small_mod(ld4.value as nat, FIELD_MODULUS as nat);
            lemma_small_mod(16nat, FIELD_MODULUS as nat);
            lemma_add_mod_noop(v0 + v1 * 2 + v2 * 4 + v3 * 8, v4 * 16, m);
            lemma_mul_mod_noop(v5, 32, m);
            lemma_small_mod(hd0.value as nat, FIELD_MODULUS as nat);
            lemma_small_mod(32nat, FIELD_MODULUS as nat);
            lemma_add_mod_noop(v0 + v1 * 2 + v2 * 4 + v3 * 8 + v4 * 16, v5 * 32, m);
            lemma_mul_mod_noop(v6, 64, m);
            lemma_small_mod(hd1.value as nat, FIELD_MODULUS as nat);
            lemma_small_mod(64nat, FIELD_MODULUS as nat);
            lemma_add_mod_noop(v0 + v1 * 2 + v2 * 4 + v3 * 8 + v4 * 16 + v5 * 32, v6 * 64, m);
            assert(result.value == (v0 + v1 * 2 + v2 * 4 + v3 * 8 + v4 * 16 + v5 * 32 + v6 * 64)
                % m);
            assert(v0 + v1 * 2 + v2 * 4 + v3 * 8 + v4 * 16 + v5 * 32 + v6 * 64 == v0 + 2 * v1 + 4
                * v2 + 8 * v3 + 16 * v4 + 32 * v5 + 64 * v6);
        }
        result
    }

    /// Replaces the three op-bit regions from a vector of ten bit cells:
    /// three control-flow bits, five low-degree bits, two high-degree bits.
    pub fn set_op_bits(&mut self, bits: Vec<Felt>)
        requires
            old(self).wf(),
            bits@.len() == 10,
            forall|k: int| 0 <= k < 10 ==> (#[trigger] bits@[k]).inv(),
        ensures
            final(self).wf(),
            final(self).cf_op_bits@ == bits@.subrange(0, 3),
            final(self).ld_op_bits@ == bits@.subrange(3, 8),
            final(self).hd_op_bits@ == bits@.subrange(8, 10),
            final(self).op_counter == old(self).op_counter,
            final(self).sponge == old(self).sponge,
            final(self).ctx_stack == old(self).ctx_stack,
            final(self).loop_stack == old(self).loop_stack,
            final(self).user_stack == old(self).user_stack,
            final(self).ctx_depth == old(self).ctx_depth,
            final(self).loop_depth == old(self).loop_depth,
            final(self).stack_depth == old(self).stack_depth,
    {
        self.cf_op_bits = copy_range(&bits, 0, 3);
        self.ld_op_bits = copy_range(&bits, 3, 8);
        self.hd_op_bits = copy_range(&bits, 8, 10);
    }

    /// The product of the three control-flow bits: one exactly when the row
    /// is an idle row, whose control-flow bits are all one.
    pub fn get_void_op_flag(&self) -> (r: Felt)
        requires
            self.wf(),
        ensures
            r.value == (self.cf_op_bits@[0].value * self.cf_op_bits@[1].value * self.cf_op_bits@[
                2
            ].value) % (FIELD_MODULUS as int),
            r.inv(),
            (forall|k: int|
                0 <= k < 3 ==> (#[trigger] self.cf_op_bits@[k]).value == 0 || self.cf_op_bits@[
                    k
                ].value == 1) ==> (r.value == 1 <==> (self.cf_op_bits@[0].value == 1
                && self.cf_op_bits@[1].value == 1 && self.cf_op_bits@[2].value == 1)),
    {
        let c0 = self.cf_op_bits[0];
        let c1 = self.cf_op_bits[1];
        let c2 = self.cf_op_bits[2];
        let r = c0.mul(c1).mul(c2);
        proof {
            let m = FIELD_MODULUS as int;
            let v0 = c0.value as int;
            let v1 = c1.value as int;
            let v2 = c2.value as int;
            lemma_mul_mod_noop(v0 * v1, v2, m);
            lemma_small_mod(c2.value as nat, FIELD_MODULUS as nat);
            if (v0 == 0 || v0 == 1) && (v1 == 0 || v1 == 1) && (v2 == 0 || v2 == 1) {
                assert((v0 * v1 * v2 == 1) <==> (v0 == 1 && v1 == 1 && v2 == 1))
                    by (nonlinear_arith)
                    requires
                        (v0 == 0 || v0 == 1) && (v1 == 0 || v1 == 1) && (v2 == 0 || v2 == 1),
                ;
                assert(0 <= v0 * v1 * v2 < 2) by (nonlinear_arith)
                    requires
                        (v0 == 0 || v0 == 1) && (v1 == 0 || v1 == 1) && (v2 == 0 || v2 == 1),
                ;
                lemma_small_mod((v0 * v1 * v2) as nat, FIELD_MODULUS as nat);
            }
        }
        r
    }

    /// The context stack region.
    pub fn ctx_stack(&self) -> (r: &Vec<Felt>)
        ensures
            r@ == self.ctx_stack@,
    {
        &self.ctx_stack
    }

    /// The loop stack region.
    pub fn loop_stack(&self) -> (r: &Vec<Felt>)
        ensures
            r@ == self.loop_stack@,
    {
        &self.loop_stack
    }

    /// The user stack region.
    pub fn user_stack(&self) -> (r: &Vec<Felt>)
        ensures
            r@ == self.user_stack@,
    {
        &self.user_stack
    }

    /// The row the view currently projects: every region in layout order,
    /// the stacks truncated to their configured depths.
    pub fn to_vec(&self) -> (r: Vec<Felt>)
        requires
            self.wf(),
        ensures
            r@ == self.to_row(),
    {
        let mut result: Vec<Felt> = Vec::new();
        result.push(self.op_counter);
        append_tail(&mut result, &self.sponge, 0);
        append_tail(&mut result, &self.cf_op_bits, 0);
        append_tail(&mut result, &self.ld_op_bits, 0);
        append_tail(&mut result, &self.hd_op_bits, 0);
        let ctx_part = copy_range(&self.ctx_stack, 0, self.ctx_depth);
        append_tail(&mut result, &ctx_part, 0);
        let loop_part = copy_range(&self.loop_stack, 0, self.loop_depth);
        append_tail(&mut result, &loop_part, 0);
        let user_part = copy_range(&self.user_stack, 0, self.stack_depth);
        append_tail(&mut result, &user_part, 0);
        proof {
            assert(result@ =~= self.to_row());
        }
        result
    }

    /// Rebinds every region to the supplied row, which must be at least as
    /// wide as the view. Stack cells beyond the configured depths keep their
    /// previous values.
    pub fn update(&mut self, row: &Vec<Felt>)
        requires
            old(self).wf(),
            row@.len() >= old(self).spec_width(),
            forall|k: int| 0 <= k < row@.len() ==> (#[trigger] row@[k]).inv(),
        ensures
            final(self).wf(),
            final(self).ctx_depth == old(self).ctx_depth,
            final(self).loop_depth == old(self).loop_depth,
            final(self).stack_depth == old(self).stack_depth,
            final(self).regions() == regions_of_row(
                row@,
                old(self).ctx_depth as int,
                old(self).loop_depth as int,
                old(self).stack_depth as int,
            ),
            final(self).ctx_stack@ == row@.subrange(15, 15 + old(self).ctx_depth as int) + old(
                self,
            ).ctx_stack@.subrange(old(self).ctx_depth as int, old(self).ctx_stack@.len() as int),
            final(self).loop_stack@ == row@.subrange(
                15 + old(self).ctx_depth as int,
                15 + old(self).ctx_depth as int + old(self).loop_depth as int,
            ) + old(self).loop_stack@.subrange(
                old(self).loop_depth as int,
                old(self).loop_stack@.len() as int,
            ),
            final(self).user_stack@ == row@.subrange(
                15 + old(self).ctx_depth as int + old(self).loop_depth as int,
                old(self).spec_width(),
            ) + old(self).user_stack@.subrange(
                old(self).stack_depth as int,
                old(self).user_stack@.len() as int,
            ),
    {
        self.op_counter = row[0];
        self.sponge = copy_range(row, 1, 5);
        self.cf_op_bits = copy_range(row, 5, 8);
        self.ld_op_bits = copy_range(row, 8, 13);
        self.hd_op_bits = copy_range(row, 13, 15);
        let ctx_end = 15 + self.ctx_depth;
        let mut ctx_stack = copy_range(row, 15, ctx_end);
        append_tail(&mut ctx_stack, &self.ctx_stack, self.ctx_depth);
        self.ctx_stack = ctx_stack;
        let loop_end = ctx_end + self.loop_depth;
        let mut loop_stack = copy_range(row, ctx_end, loop_end);
        append_tail(&mut loop_stack, &self.loop_stack, self.loop_depth);
        self.loop_stack = loop_stack;
        let user_end = loop_end + self.stack_depth;
        let mut user_stack = copy_range(row, loop_end, user_end);
        append_tail(&mut user_stack, &self.user_stack, self.stack_depth);
        self.user_stack = user_stack;
        proof {
            assert(self.ctx_stack@.subrange(0, self.ctx_depth as int)
                =~= row@.subrange(15, 15 + old(self).ctx_depth as int));
            assert(self.loop_stack@.subrange(0, self.loop_depth as int)
                =~= row@.subrange(
                15 + old(self).ctx_depth as int,
                15 + old(self).ctx_depth as int + old(self).loop_depth as int,
            ));
            assert(self.user_stack@.subrange(0, self.stack_depth as int)
                =~= row@.subrange(
                15 + old(self).ctx_depth as int + old(self).loop_depth as int,
                old(self).spec_width(),
            ));
            assert(self.regions() =~= regions_of_row(
                row@,
                old(self).ctx_depth as int,
                old(self).loop_depth as int,
                old(self).stack_depth as int,
            ));
        }
    }
}

} // verus!
