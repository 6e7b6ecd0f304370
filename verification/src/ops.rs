//! Operations.
//!
//! An operation is either a user op executed inside a span (its 7-bit opcode
//! is recorded in the low- and high-degree op bits of its trace row), a
//! control op marking a block boundary (recorded in the control-flow op bits
//! of its row), or a decorator: an assembler hint with no algebraic effect,
//! which must never reach the decoder's user-op path.

use vstd::prelude::*;

verus! {

/// Control-flow code of a row that executes a user operation.
pub const CF_EXEC: u8 = 0;

/// Control-flow code of a JOIN row.
pub const CF_JOIN: u8 = 1;

/// Control-flow code of a SPLIT row.
pub const CF_SPLIT: u8 = 2;

/// Control-flow code of a LOOP row.
pub const CF_LOOP: u8 = 3;

/// Control-flow code of a SPAN row.
pub const CF_SPAN: u8 = 4;

/// Control-flow code of a RESPAN row.
pub const CF_RESPAN: u8 = 5;

/// Control-flow code of an END row.
pub const CF_END: u8 = 6;

/// Control-flow code of an idle padding row: no block is active.
pub const CF_VOID: u8 = 7;

/// Number of bits in a packed opcode.
pub const NUM_OP_BITS: u8 = 7;

/// The operations the decoder receives.
#[derive(Clone, Copy, PartialEq, Eq, Structural, Debug)]
pub enum Operation {
    /// Does nothing; executed at block boundaries to force a cycle tick.
    Noop,
    /// Removes the top item of the user stack.
    Drop,
    /// Exchanges the top two items of the user stack.
    Swap,
    /// Duplicates the top item of the user stack.
    Dup,
    /// Starts or ends the sequential composition of two blocks.
    Join,
    /// Starts or ends a conditional block.
    Split,
    /// Starts or ends a counted loop block.
    Loop,
    /// Repeats the body of a loop block.
    Repeat,
    /// Starts a straight-line span of operations.
    Span,
    /// Moves a span to its next op-batch.
    Respan,
    /// Ends the current block.
    End,
    /// A decorator: an assembler hint with no algebraic effect.
    AsmOp,
}

impl Operation {
    /// The 7-bit opcode of the operation; decorators have none.
    pub open spec fn spec_op_code(self) -> Option<u8> {
        match self {
            Operation::Noop => Some(0u8),
            Operation::Drop => Some(1u8),
            Operation::Swap => Some(2u8),
            Operation::Dup => Some(3u8),
            Operation::Join => Some(64u8),
            Operation::Split => Some(65u8),
            Operation::Loop => Some(66u8),
            Operation::Repeat => Some(67u8),
            Operation::Span => Some(68u8),
            Operation::Respan => Some(69u8),
            Operation::End => Some(70u8),
            Operation::AsmOp => None,
        }
    }

    /// The 7-bit opcode of the operation; decorators have none.
    pub fn op_code(&self) -> (r: Option<u8>)
        ensures
            r == self.spec_op_code(),
            r is Some ==> r->0 < 128,
    {
        match self {
            Operation::Noop => Some(0u8),
            Operation::Drop => Some(1u8),
            Operation::Swap => Some(2u8),
            Operation::Dup => Some(3u8),
            Operation::Join => Some(64u8),
            Operation::Split => Some(65u8),
            Operation::Loop => Some(66u8),
            Operation::Repeat => Some(67u8),
            Operation::Span => Some(68u8),
            Operation::Respan => Some(69u8),
            Operation::End => Some(70u8),
            Operation::AsmOp => None,
        }
    }

    /// Whether the operation is a decorator.
    pub open spec fn spec_is_decorator(self) -> bool {
        self is AsmOp
    }

    /// Whether the operation is a decorator.
    pub fn is_decorator(&self) -> (r: bool)
        ensures
            r == self.spec_is_decorator(),
    {
        match self {
            Operation::AsmOp => true,
            _ => false,
        }
    }

    /// The control-flow code written into the control-flow op bits of the
    /// row that marks this block boundary.
    pub open spec fn spec_cf_code(self) -> u8 {
        match self {
            Operation::Join => CF_JOIN,
            Operation::Split => CF_SPLIT,
            Operation::Loop => CF_LOOP,
            Operation::Repeat => CF_LOOP,
            Operation::Span => CF_SPAN,
            Operation::Respan => CF_RESPAN,
            Operation::End => CF_END,
            _ => CF_EXEC,
        }
    }

    /// The control-flow code written into the control-flow op bits of the
    /// row that marks this block boundary.
    pub fn cf_code(&self) -> (r: u8)
        ensures
            r == self.spec_cf_code(),
            r < 8,
    {
        match self {
            Operation::Join => CF_JOIN,
            Operation::Split => CF_SPLIT,
            Operation::Loop => CF_LOOP,
            Operation::Repeat => CF_LOOP,
            Operation::Span => CF_SPAN,
            Operation::Respan => CF_RESPAN,
            Operation::End => CF_END,
            _ => CF_EXEC,
        }
    }
}

/// The bit of `code` selected by the power-of-two divisor `div`:
/// `bit_at(code, 4)` is the third-least-significant bit of `code`.
pub open spec fn bit_at(code: u8, div: u8) -> u128 {
    (((code as int) / (div as int)) % 2) as u128
}

/// Extracts one bit of a packed code as a field element.
pub fn op_bit(code: u8, div: u8) -> (r: crate::felt::Felt)
    requires
        div >= 1,
    ensures
        r.value == bit_at(code, div),
        r.inv(),
{
    let bit: u8 = (code / div) % 2;
    crate::felt::Felt { value: bit as u128 }
}

/// A 7-bit opcode is recovered from its bits by the weighted sum
/// `b0 + 2 b1 + 4 b2 + 8 b3 + 16 b4 + 32 b5 + 64 b6`.
pub proof fn lemma_op_code_from_bits(code: u8)
    requires
        code < 128,
    ensures
        bit_at(code, 1) + 2 * bit_at(code, 2) + 4 * bit_at(code, 4) + 8 * bit_at(code, 8) + 16
            * bit_at(code, 16) + 32 * bit_at(code, 32) + 64 * bit_at(code, 64) == code,
{
    assert(bit_at(code, 1) + 2 * bit_at(code, 2) + 4 * bit_at(code, 4) + 8 * bit_at(code, 8) + 16
        * bit_at(code, 16) + 32 * bit_at(code, 32) + 64 * bit_at(code, 64) == code) by {
        assert(code as int == 2 * (code as int / 2) + (code as int) % 2);
        assert(code as int / 2 == 2 * (code as int / 4) + (code as int / 2) % 2);
        assert(code as int / 4 == 2 * (code as int / 8) + (code as int / 4) % 2);
        assert(code as int / 8 == 2 * (code as int / 16) + (code as int / 8) % 2);
        assert(code as int / 16 == 2 * (code as int / 32) + (code as int / 16) % 2);
        assert(code as int / 32 == 2 * (code as int / 64) + (code as int / 32) % 2);
        assert(code as int / 64 == (code as int / 64) % 2);
    }
}

} // verus!
