//! The simulated operand stack for one basic block: a working stack of
//! `Value` tags plus the lazily inferred sequence of values the block
//! requires on entry.

use vstd::prelude::*;
use crate::error::ErrorKind;
use crate::value::Value;

verus! {

/// The mathematical shape of a [`Stack`]: the inferred entry sequence
/// (bottom of stack first) and the current working contents (top last).
pub ghost struct StackShape {
    /// Values the block requires on the stack at entry, bottom first.
    pub inputs: Seq<Value>,
    /// The current working contents, top of stack last.
    pub values: Seq<Value>,
}

/// Pushing appends to the working contents and leaves `inputs` alone.
pub open spec fn spec_push(s: StackShape, v: Value) -> StackShape {
    StackShape { inputs: s.inputs, values: s.values.push(v) }
}

/// Popping a value of known category: a non-empty working stack must have
/// exactly `expected` on top; an empty one instead records `expected` as a
/// newly demanded entry slot at the front (bottom) of `inputs`.
pub open spec fn spec_pop_known(s: StackShape, expected: Value) -> Result<StackShape, ErrorKind> {
    if s.values.len() > 0 {
        if s.values.last() == expected {
            Ok(StackShape { inputs: s.inputs, values: s.values.drop_last() })
        } else {
            Err(ErrorKind::TypeMismatch { expected, found: s.values.last() })
        }
    } else {
        Ok(StackShape { inputs: s.inputs.insert(0, expected), values: s.values })
    }
}

/// Popping with no expectation: fails on an empty working stack, since the
/// demanded category would not be known.
pub open spec fn spec_pop_unknown(s: StackShape) -> Result<(Value, StackShape), ErrorKind> {
    if s.values.len() > 0 {
        Ok((s.values.last(), StackShape { inputs: s.inputs, values: s.values.drop_last() }))
    } else {
        Err(ErrorKind::StackUnderflow)
    }
}

/// Propagates a failed state through a further known pop.
pub open spec fn step_pop_known(st: Result<StackShape, ErrorKind>, expected: Value) -> Result<
    StackShape,
    ErrorKind,
> {
    match st {
        Ok(s) => spec_pop_known(s, expected),
        Err(e) => Err(e),
    }
}

/// Propagates a failed state through a push.
pub open spec fn step_push(st: Result<StackShape, ErrorKind>, v: Value) -> Result<
    StackShape,
    ErrorKind,
> {
    match st {
        Ok(s) => Ok(spec_push(s, v)),
        Err(e) => Err(e),
    }
}

/// A symmetric binary operator: pop the operand category twice, push it once.
pub open spec fn spec_bin_op(s: StackShape, t: Value) -> Result<StackShape, ErrorKind> {
    step_push(step_pop_known(spec_pop_known(s, t), t), t)
}

/// An array read: pop the 32-bit integer index, pop the array reference,
/// push the element category.
pub open spec fn spec_array_load(s: StackShape, t: Value) -> Result<StackShape, ErrorKind> {
    step_push(step_pop_known(spec_pop_known(s, Value::I32), Value::Ref), t)
}

/// An array write: pop the stored value, pop the 32-bit integer index,
/// pop the array reference.
pub open spec fn spec_array_store(s: StackShape, t: Value) -> Result<StackShape, ErrorKind> {
    step_pop_known(step_pop_known(spec_pop_known(s, t), Value::I32), Value::Ref)
}

/// A unary category-changing operator: pop `in_`, push `out`.
pub open spec fn spec_convert(s: StackShape, in_: Value, out: Value) -> Result<
    StackShape,
    ErrorKind,
> {
    step_push(spec_pop_known(s, in_), out)
}

/// All predecessor exit stacks agree with the first one, in length and in
/// every slot.
pub open spec fn stacks_agree(preds: Seq<Stack>) -> bool {
    forall|i: int| 0 <= i < preds.len() ==> #[trigger] preds[i]@.values == preds[0]@.values
}

/// The stack shape a block inherits from its predecessors: empty with no
/// predecessor, otherwise the common exit contents.
pub open spec fn entry_values(preds: Seq<Stack>) -> Seq<Value> {
    if preds.len() == 0 {
        Seq::empty()
    } else {
        preds[0]@.values
    }
}

/// The simulated operand stack of one basic block.
#[derive(Debug)]
pub struct Stack {
    inputs: Vec<Value>,
    values: Vec<Value>,
}

impl View for Stack {
    type V = StackShape;

    closed spec fn view(&self) -> StackShape {
        StackShape { inputs: self.inputs@, values: self.values@ }
    }
}

/// Copies a value vector.
pub(crate) fn copy_values(v: &Vec<Value>) -> (r: Vec<Value>)
    ensures
        r@ == v@,
{
    let mut out: Vec<Value> = Vec::new();
    let mut i: usize = 0;
    while i < v.len()
        invariant
            i <= v@.len(),
            out@ == v@.take(i as int),
        decreases v@.len() - i,
    {
        out.push(v[i]);
        proof {
            assert(out@ =~= v@.take(i + 1 as int));
        }
        i += 1;
    }
    proof {
        assert(v@.take(v@.len() as int) =~= v@);
    }
    out
}

/// Whether two value vectors hold the same sequence.
pub(crate) fn values_equal(a: &Vec<Value>, b: &Vec<Value>) -> (r: bool)
    ensures
        r <==> a@ == b@,
{
    if a.len() != b.len() {
        return false;
    }
    let mut i: usize = 0;
    while i < a.len()
        invariant
            i <= a.len(),
            a.len() == b.len(),
            forall|j: int| 0 <= j < i ==> a@[j] == b@[j],
        decreases a.len() - i,
    {
        if a[i] != b[i] {
            return false;
        }
        i += 1;
    }
    proof {
        assert(a@ =~= b@);
    }
    true
}

impl Stack {
    /// Builds the stack a block starts with, from the exit stacks of its
    /// predecessors. All predecessors must agree on the exit shape; the
    /// common shape becomes both the block's required entry sequence and
    /// its initial working contents.
    pub fn new(preds: &[Stack]) -> (r: Result<Stack, ErrorKind>)
        ensures
            match r {
                Ok(s) => stacks_agree(preds@) && s@.inputs == entry_values(preds@) && s@.values
                    == entry_values(preds@),
                Err(e) => e == ErrorKind::StackShapeMismatch && !stacks_agree(preds@),
            },
    {
        let mut s = Stack { inputs: Vec::new(), values: Vec::new() };
        if preds.len() > 0 {
            let first = &preds[0];
            let mut i: usize = 0;
            while i < first.values.len()
                invariant
                    preds@.len() > 0,
                    first == preds@[0],
                    i <= first.values.len(),
                    s.inputs@ == first.values@.take(i as int),
                    s.values@ == first.values@.take(i as int),
                decreases first.values.len() - i,
            {
                let v = first.values[i];
                s.inputs.push(v);
                s.values.push(v);
                proof {
                    assert(s.inputs@ =~= first.values@.take(i + 1 as int));
                    assert(s.values@ =~= first.values@.take(i + 1 as int));
                }
                i += 1;
            }
            proof {
                assert(s.inputs@ =~= first.values@);
                assert(s.values@ =~= first.values@);
            }
            let mut k: usize = 1;
            while k < preds.len()
                invariant
                    1 <= k <= preds@.len(),
                    first == preds@[0],
                    s@.inputs == preds@[0]@.values,
                    s@.values == preds@[0]@.values,
                    forall|j: int| 0 <= j < k ==> #[trigger] preds@[j]@.values == preds@[0]@.values,
                decreases preds@.len() - k,
            {
                if !values_equal(&preds[k].values, &first.values) {
                    proof {
                        assert(preds@[k as int]@.values != preds@[0]@.values);
                    }
                    return Err(ErrorKind::StackShapeMismatch);
                }
                proof {
                    assert(preds@[k as int]@.values == preds@[0]@.values);
                }
                k += 1;
            }
        }
        Ok(s)
    }

    /// Pops the top value, which must match `expected` if the working
    /// stack is non-empty. On an empty working stack it never fails:
    /// `expected` is recorded at the new front of `inputs` as a lazily
    /// demanded entry slot, and returned.
    pub fn pop_known(&mut self, expected: Value) -> (r: Result<Value, ErrorKind>)
        ensures
            match spec_pop_known(old(self)@, expected) {
                Ok(s) => r == Ok::<Value, ErrorKind>(expected) && final(self)@ == s,
                Err(e) => r == Err::<Value, ErrorKind>(e) && final(self)@ == old(self)@,
            },
            old(self)@.values.len() == 0 ==> r is Ok && final(self)@.inputs == old(
                self,
            )@.inputs.insert(0, expected) && final(self)@.inputs[0] == expected,
    {
        match self.values.pop() {
            Some(value) => {
                if value == expected {
                    Ok(value)
                } else {
                    self.values.push(value);
                    proof {
                        assert(self@.values =~= old(self)@.values);
                    }
                    Err(ErrorKind::TypeMismatch { expected, found: value })
                }
            },
            None => {
                self.inputs.insert(0, expected);
                Ok(expected)
            },
        }
    }

    /// Pops the top value with no expectation on its category; fails with
    /// a stack underflow if the working stack is empty.
    pub fn pop_unknown(&mut self) -> (r: Result<Value, ErrorKind>)
        ensures
            match spec_pop_unknown(old(self)@) {
                Ok((v, s)) => r == Ok::<Value, ErrorKind>(v) && final(self)@ == s,
                Err(e) => r == Err::<Value, ErrorKind>(e) && final(self)@ == old(self)@,
            },
    {
        match self.values.pop() {
            Some(value) => Ok(value),
            None => Err(ErrorKind::StackUnderflow),
        }
    }

    /// Pushes a value onto the working stack.
    pub fn push(&mut self, value: Value)
        ensures
            final(self)@ == spec_push(old(self)@, value),
    {
        self.values.push(value);
    }

    /// Symmetric binary operator: pop `t` twice, push `t`. On failure the
    /// stack keeps whatever the successful leading pops produced.
    pub fn bin_op(&mut self, t: Value) -> (r: Result<(), ErrorKind>)
        ensures
            match spec_bin_op(old(self)@, t) {
                Ok(s) => r is Ok && final(self)@ == s,
                Err(e) => r == Err::<(), ErrorKind>(e),
            },
            match spec_pop_known(old(self)@, t) {
                Err(_) => final(self)@ == old(self)@,
                Ok(s1) => spec_pop_known(s1, t) is Err ==> final(self)@ == s1,
            },
    {
        self.pop_known(t)?;
        self.pop_known(t)?;
        self.push(t);
        Ok(())
    }

    /// Array element read: pop index, pop array reference, push `t`. On
    /// failure the stack keeps whatever the successful leading pops
    /// produced.
    pub fn array_load(&mut self, t: Value) -> (r: Result<(), ErrorKind>)
        ensures
            match spec_array_load(old(self)@, t) {
                Ok(s) => r is Ok && final(self)@ == s,
                Err(e) => r == Err::<(), ErrorKind>(e),
            },
            match spec_pop_known(old(self)@, Value::I32) {
                Err(_) => final(self)@ == old(self)@,
                Ok(s1) => spec_pop_known(s1, Value::Ref) is Err ==> final(self)@ == s1,
            },
    {
        self.pop_known(Value::I32)?;
        self.pop_known(Value::Ref)?;
        self.push(t);
        Ok(())
    }

    /// Array element write: pop `t`, pop index, pop array reference. On
    /// failure the stack keeps whatever the successful leading pops
    /// produced.
    pub fn array_store(&mut self, t: Value) -> (r: Result<(), ErrorKind>)
        ensures
            match spec_array_store(old(self)@, t) {
                Ok(s) => r is Ok && final(self)@ == s,
                Err(e) => r == Err::<(), ErrorKind>(e),
            },
            match spec_pop_known(old(self)@, t) {
                Err(_) => final(self)@ == old(self)@,
                Ok(s1) => match spec_pop_known(s1, Value::I32) {
                    Err(_) => final(self)@ == s1,
                    Ok(s2) => spec_pop_known(s2, Value::Ref) is Err ==> final(self)@ == s2,
                },
            },
    {
        self.pop_known(t)?;
        self.pop_known(Value::I32)?;
        self.pop_known(Value::Ref)?;
        Ok(())
    }

    /// Unary category change: pop `in_`, push `out`. On failure the stack
    /// is unchanged.
    pub fn convert(&mut self, in_: Value, out: Value) -> (r: Result<(), ErrorKind>)
        ensures
            match spec_convert(old(self)@, in_, out) {
                Ok(s) => r is Ok && final(self)@ == s,
                Err(e) => r == Err::<(), ErrorKind>(e),
            },
            spec_pop_known(old(self)@, in_) is Err ==> final(self)@ == old(self)@,
    {
        self.pop_known(in_)?;
        self.push(out);
        Ok(())
    }

    /// An independent copy with the same inferred inputs and working
    /// contents.
    pub fn duplicate(&self) -> (r: Stack)
        ensures
            r@ == self@,
    {
        Stack { inputs: copy_values(&self.inputs), values: copy_values(&self.values) }
    }

    /// The inferred entry-stack shape: values the block requires on the
    /// operand stack when control enters it, bottom first.
    pub fn inputs(&self) -> (r: &Vec<Value>)
        ensures
            r@ == self@.inputs,
    {
        &self.inputs
    }

    /// The current working contents, top of stack last.
    pub fn values(&self) -> (r: &Vec<Value>)
        ensures
            r@ == self@.values,
    {
        &self.values
    }
}

} // verus!
