//! The operand-stack value model: a tag for each runtime category a
//! stack slot can hold, and its one-word/two-word classification.

use vstd::prelude::*;

verus! {

/// A tag for one operand-stack slot's runtime category.
#[derive(Clone, Copy, Debug, PartialEq, Eq, Structural)]
pub enum Value {
    /// 32-bit integer (also carries boolean, byte, char, short).
    I32,
    /// 32-bit floating-point value.
    F32,
    /// 64-bit integer.
    I64,
    /// 64-bit floating-point value.
    F64,
    /// Object or array reference.
    Ref,
}

impl Value {
    /// A "big" value occupies two JVM stack words.
    pub open spec fn spec_is_big(self) -> bool {
        self == Value::I64 || self == Value::F64
    }

    /// The number of JVM stack words the value occupies.
    pub open spec fn width(self) -> nat {
        if self.spec_is_big() {
            2
        } else {
            1
        }
    }

    /// Whether this value occupies two stack words (64-bit categories).
    pub fn is_big(self) -> (r: bool)
        ensures
            r == self.spec_is_big(),
    {
        matches!(self, Value::I64 | Value::F64)
    }

    /// Whether this value occupies a single stack word.
    pub fn is_small(self) -> (r: bool)
        ensures
            r == !self.spec_is_big(),
    {
        !self.is_big()
    }
}

/// Total number of JVM stack words taken by a sequence of values.
pub open spec fn words(s: Seq<Value>) -> nat
    decreases s.len(),
{
    if s.len() == 0 {
        0
    } else {
        words(s.drop_last()) + s.last().width()
    }
}

/// Appending a value adds exactly its width to the word count.
pub(crate) proof fn lemma_words_push(s: Seq<Value>, v: Value)
    ensures
        words(s.push(v)) == words(s) + v.width(),
{
    assert(s.push(v).drop_last() =~= s);
}

} // verus!
