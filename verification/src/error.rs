//! The discriminated error kinds an analysis can fail with, and the
//! address-carrying failure record the per-method driver reports.

use vstd::prelude::*;
use crate::value::Value;

verus! {

/// One discriminated analysis error. Every failure is fatal for the
/// method under analysis: no partial result is kept.
#[derive(Clone, Copy, Debug, PartialEq, Eq, Structural)]
pub enum ErrorKind {
    /// Two predecessors of a block disagree on the exit-stack shape.
    StackShapeMismatch,
    /// A pop expected one value category and found another.
    TypeMismatch { expected: Value, found: Value },
    /// A pop with no type expectation found the working stack empty.
    StackUnderflow,
    /// A duplication or stack-manipulation instruction met a slot of the
    /// wrong one-word/two-word category.
    IllegalCategory,
    /// A field or method descriptor string is malformed.
    InvalidDescriptor,
    /// A constant-pool index is out of range or names an unusable slot.
    BadPoolIndex { index: u16 },
    /// A constant-pool index points at the wrong record kind.
    WrongPoolEntry { index: u16 },
    /// An instruction's address is not above its predecessor's.
    InvalidOrdering,
}

/// A fatal analysis failure, attributed to the instruction address at
/// which it arose.
#[derive(Clone, Copy, Debug, PartialEq, Eq, Structural)]
pub struct Failure {
    /// The bytecode address of the offending instruction.
    pub address: u32,
    /// What went wrong there.
    pub kind: ErrorKind,
}

} // verus!
