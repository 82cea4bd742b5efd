//! How a modifier changes an attribute, and the number a client reads it as.
//!
//! The numbers an attribute holds and what a modifier adds to them are fractions and stay with
//! the caller; the kind of change is a choice of three, and the order they are applied in is the
//! order of their numbers.
use vstd::prelude::*;

verus! {

/// How a modifier changes an attribute.
#[derive(Debug, Clone, Copy, PartialEq, Eq, Structural, Hash)]
pub enum Operation {
    /// Adds to the base.
    AddValue,
    /// Adds a share of the base, after every flat amount has been added to it.
    AddMultipliedBase,
    /// Multiplies what the rest came to.
    AddMultipliedTotal,
}

/// The number a client reads an operation as.
pub open spec fn operation_number(operation: Operation) -> i32 {
    match operation {
        Operation::AddValue => 0,
        Operation::AddMultipliedBase => 1,
        Operation::AddMultipliedTotal => 2,
    }
}

impl Operation {
    /// The number a client reads it as, which is also the order the three are applied in.
    pub fn wire_id(self) -> (r: i32)
        ensures
            r == operation_number(self),
    {
        match self {
            Operation::AddValue => 0,
            Operation::AddMultipliedBase => 1,
            Operation::AddMultipliedTotal => 2,
        }
    }
}

/// Two operations never share a number.
pub proof fn lemma_operation_numbers_differ(a: Operation, b: Operation)
    requires
        a != b,
    ensures
        operation_number(a) != operation_number(b),
{
}

} // verus!
