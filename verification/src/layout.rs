//! Row layout of the execution trace.
//!
//! A trace row is a vector of field elements with the following regions, in
//! order: operation counter (1 cell), sponge (4), control-flow op bits (3),
//! low-degree op bits (5), high-degree op bits (2), context stack, loop stack
//! and user stack. The width of a row is a pure function of the three stack
//! depths.

use vstd::prelude::*;

verus! {

/// Index of the operation counter cell.
pub const OP_COUNTER_IDX: usize = 0;

/// First cell of the sponge region.
pub const SPONGE_START: usize = 1;

/// Width of the sponge region.
pub const SPONGE_WIDTH: usize = 4;

/// Number of sponge cells that carry the program digest.
pub const PROGRAM_DIGEST_SIZE: usize = 2;

/// First cell of the control-flow op bits.
pub const CF_OP_BITS_START: usize = 5;

/// Number of control-flow op bits.
pub const NUM_CF_OP_BITS: usize = 3;

/// First cell of the low-degree op bits.
pub const LD_OP_BITS_START: usize = 8;

/// Number of low-degree op bits.
pub const NUM_LD_OP_BITS: usize = 5;

/// First cell of the high-degree op bits.
pub const HD_OP_BITS_START: usize = 13;

/// Number of high-degree op bits.
pub const NUM_HD_OP_BITS: usize = 2;

/// Number of cells before the three stacks: the operation counter, the
/// sponge, and the three op-bit groups.
pub const NUM_STATIC_DECODER_REGISTERS: usize = 15;

/// The context stack occupies at least this many cells of a row.
pub const MIN_CONTEXT_DEPTH: usize = 1;

/// The loop stack occupies at least this many cells of a row.
pub const MIN_LOOP_DEPTH: usize = 1;

/// The user stack occupies at least this many cells of a row.
pub const MIN_STACK_DEPTH: usize = 8;

/// The finished trace must hold at least this many rows.
pub const MIN_TRACE_LEN: usize = 16;

} // verus!
