//! Field elements.
//!
//! Every trace cell, block address, opcode and stack item is an element of a
//! prime field with a canonical integer representation. The element is held
//! here as its canonical value; the modular arithmetic itself is performed by
//! the `winterfell` field implementation behind trusted wrappers.

use vstd::prelude::*;
use winterfell::math::fields::f128::BaseElement;
use winterfell::math::FieldElement;
use winterfell::math::StarkField;

verus! {

/// The prime modulus of the field: 2^128 - 45 * 2^40 + 1.
pub const FIELD_MODULUS: u128 = 340282366920938463463374557953744961537;

/// A field element, stored as its canonical integer representative.
#[derive(Clone, Copy, PartialEq, Eq, Structural, Debug)]
pub struct Felt {
    pub value: u128,
}

/// Relies on `BaseElement::new` (identity on canonical values), `Add::add`
/// (addition modulo the field prime on canonical values) and
/// `StarkField::as_int` (returns the canonical representative).
#[verifier::external_body]
fn field_add(a: u128, b: u128) -> (r: u128)
    requires
        a < FIELD_MODULUS,
        b < FIELD_MODULUS,
    ensures
        r == (a + b) % (FIELD_MODULUS as int),
{
    (BaseElement::new(a) + BaseElement::new(b)).as_int()
}

/// Relies on `BaseElement::new` (identity on canonical values), `Sub::sub`
/// (subtraction modulo the field prime on canonical values) and
/// `StarkField::as_int` (returns the canonical representative).
#[verifier::external_body]
fn field_sub(a: u128, b: u128) -> (r: u128)
    requires
        a < FIELD_MODULUS,
        b < FIELD_MODULUS,
    ensures
        r == (a - b) % (FIELD_MODULUS as int),
{
    (BaseElement::new(a) - BaseElement::new(b)).as_int()
}

/// Relies on `BaseElement::new` (identity on canonical values), `Mul::mul`
/// (multiplication modulo the field prime on canonical values) and
/// `StarkField::as_int` (returns the canonical representative).
#[verifier::external_body]
fn field_mul(a: u128, b: u128) -> (r: u128)
    requires
        a < FIELD_MODULUS,
        b < FIELD_MODULUS,
    ensures
        r == (a * b) % (FIELD_MODULUS as int),
{
    (BaseElement::new(a) * BaseElement::new(b)).as_int()
}

impl Felt {
    /// A field element is well formed when its representative is canonical.
    pub open spec fn inv(self) -> bool {
        self.value < FIELD_MODULUS
    }

    /// The additive identity.
    pub fn zero() -> (r: Felt)
        ensures
            r.value == 0,
            r.inv(),
    {
        Felt { value: 0 }
    }

    /// The multiplicative identity.
    pub fn one() -> (r: Felt)
        ensures
            r.value == 1,
            r.inv(),
    {
        Felt { value: 1 }
    }

    /// Lifts an integer into the field by reducing it modulo the field prime.
    pub fn new(value: u128) -> (r: Felt)
        ensures
            r.value == value % FIELD_MODULUS,
            r.inv(),
    {
        Felt { value: value % FIELD_MODULUS }
    }

    /// Field addition.
    pub fn add(self, rhs: Felt) -> (r: Felt)
        requires
            self.inv(),
            rhs.inv(),
        ensures
            r.value == (self.value + rhs.value) % (FIELD_MODULUS as int),
            r.inv(),
    {
        Felt { value: field_add(self.value, rhs.value) }
    }

    /// Field subtraction.
    pub fn sub(self, rhs: Felt) -> (r: Felt)
        requires
            self.inv(),
            rhs.inv(),
        ensures
            r.value == (self.value - rhs.value) % (FIELD_MODULUS as int),
            r.inv(),
    {
        Felt { value: field_sub(self.value, rhs.value) }
    }

    /// Field multiplication.
    pub fn mul(self, rhs: Felt) -> (r: Felt)
        requires
            self.inv(),
            rhs.inv(),
        ensures
            r.value == (self.value * rhs.value) % (FIELD_MODULUS as int),
            r.inv(),
    {
        Felt { value: field_mul(self.value, rhs.value) }
    }

    /// The canonical integer representative of the element.
    pub fn as_int(self) -> (r: u128)
        ensures
            r == self.value,
    {
        self.value
    }
}

/// A word: a fixed-width tuple of four field elements, used for hash digests
/// and for the child-hash cells of control-flow rows.
#[derive(Clone, Copy, PartialEq, Eq, Structural, Debug)]
pub struct Word {
    pub w0: Felt,
    pub w1: Felt,
    pub w2: Felt,
    pub w3: Felt,
}

impl Word {
    /// A word is well formed when all four elements are.
    pub open spec fn inv(self) -> bool {
        self.w0.inv() && self.w1.inv() && self.w2.inv() && self.w3.inv()
    }

    /// The word whose four elements are all zero.
    pub fn zeroed() -> (r: Word)
        ensures
            r == (Word {
                w0: Felt { value: 0 },
                w1: Felt { value: 0 },
                w2: Felt { value: 0 },
                w3: Felt { value: 0 },
            }),
            r.inv(),
    {
        Word { w0: Felt::zero(), w1: Felt::zero(), w2: Felt::zero(), w3: Felt::zero() }
    }

    /// Builds a word from four field elements.
    pub fn from_elements(w0: Felt, w1: Felt, w2: Felt, w3: Felt) -> (r: Word)
        ensures
            r == (Word { w0, w1, w2, w3 }),
    {
        Word { w0, w1, w2, w3 }
    }
}

} // verus!
