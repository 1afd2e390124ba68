//! The instruction effect table: for every JVM instruction, the exact
//! transformation it applies to the simulated operand stack, and the
//! fold of a basic block's instructions over a starting stack.
//!
//! Instructions that consult the constant pool resolve their descriptor
//! first and only then touch the stack, so a resolution error is reported
//! before any stack-shape error of the same instruction.

use vstd::prelude::*;
use crate::error::{ErrorKind, Failure};
use crate::instruction::Instruction;
use crate::pool::{
    ConstPool, PoolEntry, spec_field_value, spec_invoke_dynamic_value, spec_loadable_big,
    spec_loadable_small, spec_method_value,
};
use crate::stack::{
    Stack, StackShape, entry_values, spec_array_load, spec_array_store, spec_bin_op, spec_convert,
    spec_pop_known, spec_pop_unknown, spec_push, stacks_agree, step_pop_known, step_push,
};
use crate::value::{Value, words};

verus! {

/// Pops the parameter categories in reverse declaration order.
pub open spec fn spec_pop_params(s: StackShape, params: Seq<Value>) -> Result<
    StackShape,
    ErrorKind,
>
    decreases params.len(),
{
    if params.len() == 0 {
        Ok(s)
    } else {
        match spec_pop_known(s, params.last()) {
            Ok(s1) => spec_pop_params(s1, params.drop_last()),
            Err(e) => Err(e),
        }
    }
}

/// Pushes the return category, if the return type is not void.
pub open spec fn spec_push_return(s: StackShape, ret: Option<Value>) -> StackShape {
    match ret {
        Some(v) => spec_push(s, v),
        None => s,
    }
}

/// An invocation: pop one operand per parameter in reverse declaration
/// order, pop the receiver reference for non-static forms, then push the
/// return category unless the return type is void.
pub open spec fn spec_invoke(
    s: StackShape,
    params: Seq<Value>,
    ret: Option<Value>,
    receiver: bool,
) -> Result<StackShape, ErrorKind> {
    match spec_pop_params(s, params) {
        Ok(s1) => if receiver {
            match spec_pop_known(s1, Value::Ref) {
                Ok(s2) => Ok(spec_push_return(s2, ret)),
                Err(e) => Err(e),
            }
        } else {
            Ok(spec_push_return(s1, ret))
        },
        Err(e) => Err(e),
    }
}

/// Pops a 32-bit integer array length once per dimension.
pub open spec fn spec_pop_i32_n(s: StackShape, n: int) -> Result<StackShape, ErrorKind>
    decreases n,
{
    if n <= 0 {
        Ok(s)
    } else {
        match spec_pop_known(s, Value::I32) {
            Ok(s1) => spec_pop_i32_n(s1, n - 1),
            Err(e) => Err(e),
        }
    }
}

/// `dup`: the top slot must be one word; it is duplicated in place.
pub open spec fn spec_dup(s: StackShape) -> Result<StackShape, ErrorKind> {
    match spec_pop_unknown(s) {
        Err(e) => Err(e),
        Ok((v1, s1)) => if v1.spec_is_big() {
            Err(ErrorKind::IllegalCategory)
        } else {
            Ok(spec_push(spec_push(s1, v1), v1))
        },
    }
}

/// `dup_x1`: two one-word slots; the top is re-inserted below both.
pub open spec fn spec_dup_x1(s: StackShape) -> Result<StackShape, ErrorKind> {
    match spec_pop_unknown(s) {
        Err(e) => Err(e),
        Ok((v1, s1)) => if v1.spec_is_big() {
            Err(ErrorKind::IllegalCategory)
        } else {
            match spec_pop_unknown(s1) {
                Err(e) => Err(e),
                Ok((v2, s2)) => if v2.spec_is_big() {
                    Err(ErrorKind::IllegalCategory)
                } else {
                    Ok(spec_push(spec_push(spec_push(s2, v1), v2), v1))
                },
            }
        },
    }
}

/// `dup_x2`: a one-word top is re-inserted below two more words, which
/// are either one two-word value or two one-word values.
pub open spec fn spec_dup_x2(s: StackShape) -> Result<StackShape, ErrorKind> {
    match spec_pop_unknown(s) {
        Err(e) => Err(e),
        Ok((v1, s1)) => if v1.spec_is_big() {
            Err(ErrorKind::IllegalCategory)
        } else {
            match spec_pop_unknown(s1) {
                Err(e) => Err(e),
                Ok((v2, s2)) => if v2.spec_is_big() {
                    Ok(spec_push(spec_push(spec_push(s2, v1), v2), v1))
                } else {
                    match spec_pop_unknown(s2) {
                        Err(e) => Err(e),
                        Ok((v3, s3)) => if v3.spec_is_big() {
                            Err(ErrorKind::IllegalCategory)
                        } else {
                            Ok(
                                spec_push(
                                    spec_push(spec_push(spec_push(s3, v1), v3), v2),
                                    v1,
                                ),
                            )
                        },
                    }
                },
            }
        },
    }
}

/// `dup2`: the top two words — one two-word value or two one-word values
/// — are duplicated in place.
pub open spec fn spec_dup2(s: StackShape) -> Result<StackShape, ErrorKind> {
    match spec_pop_unknown(s) {
        Err(e) => Err(e),
        Ok((v1, s1)) => if v1.spec_is_big() {
            Ok(spec_push(spec_push(s1, v1), v1))
        } else {
            match spec_pop_unknown(s1) {
                Err(e) => Err(e),
                Ok((v2, s2)) => if v2.spec_is_big() {
                    Err(ErrorKind::IllegalCategory)
                } else {
                    Ok(
                        spec_push(
                            spec_push(spec_push(spec_push(s2, v2), v1), v2),
                            v1,
                        ),
                    )
                },
            }
        },
    }
}

/// `dup2_x1`: the top two words are re-inserted below one more one-word
/// slot.
pub open spec fn spec_dup2_x1(s: StackShape) -> Result<StackShape, ErrorKind> {
    match spec_pop_unknown(s) {
        Err(e) => Err(e),
        Ok((v1, s1)) => match spec_pop_unknown(s1) {
            Err(e) => Err(e),
            Ok((v2, s2)) => if v2.spec_is_big() {
                Err(ErrorKind::IllegalCategory)
            } else if v1.spec_is_big() {
                Ok(spec_push(spec_push(spec_push(s2, v1), v2), v1))
            } else {
                match spec_pop_unknown(s2) {
                    Err(e) => Err(e),
                    Ok((v3, s3)) => if v3.spec_is_big() {
                        Err(ErrorKind::IllegalCategory)
                    } else {
                        Ok(
                            spec_push(
                                spec_push(
                                    spec_push(spec_push(spec_push(s3, v2), v1), v3),
                                    v2,
                                ),
                                v1,
                            ),
                        )
                    },
                }
            },
        },
    }
}

/// `dup2_x2`: the top two words are re-inserted below two more words.
pub open spec fn spec_dup2_x2(s: StackShape) -> Result<StackShape, ErrorKind> {
    match spec_pop_unknown(s) {
        Err(e) => Err(e),
        Ok((v1, s1)) => match spec_pop_unknown(s1) {
            Err(e) => Err(e),
            Ok((v2, s2)) => if v1.spec_is_big() {
                if v2.spec_is_big() {
                    Ok(spec_push(spec_push(spec_push(s2, v1), v2), v1))
                } else {
                    match spec_pop_unknown(s2) {
                        Err(e) => Err(e),
                        Ok((v3, s3)) => if v3.spec_is_big() {
                            Err(ErrorKind::IllegalCategory)
                        } else {
                            Ok(
                                spec_push(
                                    spec_push(spec_push(spec_push(s3, v1), v3), v2),
                                    v1,
                                ),
                            )
                        },
                    }
                }
            } else {
                if v2.spec_is_big() {
                    Err(ErrorKind::IllegalCategory)
                } else {
                    match spec_pop_unknown(s2) {
                        Err(e) => Err(e),
                        Ok((v3, s3)) => if v3.spec_is_big() {
                            Ok(
                                spec_push(
                                    spec_push(
                                        spec_push(spec_push(spec_push(s3, v2), v1), v3),
                                        v2,
                                    ),
                                    v1,
                                ),
                            )
                        } else {
                            match spec_pop_unknown(s3) {
                                Err(e) => Err(e),
                                Ok((v4, s4)) => if v4.spec_is_big() {
                                    Err(ErrorKind::IllegalCategory)
                                } else {
                                    Ok(
                                        spec_push(
                                            spec_push(
                                                spec_push(
                                                    spec_push(
                                                        spec_push(spec_push(s4, v2), v1),
                                                        v4,
                                                    ),
                                                    v3,
                                                ),
                                                v2,
                                            ),
                                            v1,
                                        ),
                                    )
                                },
                            }
                        },
                    }
                }
            },
        },
    }
}

/// `pop`: discard one one-word slot.
pub open spec fn spec_pop1(s: StackShape) -> Result<StackShape, ErrorKind> {
    match spec_pop_unknown(s) {
        Err(e) => Err(e),
        Ok((v1, s1)) => if v1.spec_is_big() {
            Err(ErrorKind::IllegalCategory)
        } else {
            Ok(s1)
        },
    }
}

/// `pop2`: discard two words — one two-word value or two one-word values.
pub open spec fn spec_pop2(s: StackShape) -> Result<StackShape, ErrorKind> {
    match spec_pop_unknown(s) {
        Err(e) => Err(e),
        Ok((v1, s1)) => if v1.spec_is_big() {
            Ok(s1)
        } else {
            match spec_pop_unknown(s1) {
                Err(e) => Err(e),
                Ok((v2, s2)) => if v2.spec_is_big() {
                    Err(ErrorKind::IllegalCategory)
                } else {
                    Ok(s2)
                },
            }
        },
    }
}

/// `swap`: exchange the top two one-word slots.
pub open spec fn spec_swap(s: StackShape) -> Result<StackShape, ErrorKind> {
    match spec_pop_unknown(s) {
        Err(e) => Err(e),
        Ok((v1, s1)) => if v1.spec_is_big() {
            Err(ErrorKind::IllegalCategory)
        } else {
            match spec_pop_unknown(s1) {
                Err(e) => Err(e),
                Ok((v2, s2)) => if v2.spec_is_big() {
                    Err(ErrorKind::IllegalCategory)
                } else {
                    Ok(spec_push(spec_push(s2, v1), v2))
                },
            }
        },
    }
}

/// `getfield`: pop the object reference, push the field's category.
pub open spec fn spec_get_field(s: StackShape, pool: Seq<PoolEntry>, index: u16) -> Result<
    StackShape,
    ErrorKind,
> {
    match spec_field_value(pool, index) {
        Ok(v) => step_push(spec_pop_known(s, Value::Ref), v),
        Err(e) => Err(e),
    }
}

/// `getstatic`: push the field's category.
pub open spec fn spec_get_static(s: StackShape, pool: Seq<PoolEntry>, index: u16) -> Result<
    StackShape,
    ErrorKind,
> {
    match spec_field_value(pool, index) {
        Ok(v) => Ok(spec_push(s, v)),
        Err(e) => Err(e),
    }
}

/// `putfield`: pop the stored value, then the object reference.
pub open spec fn spec_put_field(s: StackShape, pool: Seq<PoolEntry>, index: u16) -> Result<
    StackShape,
    ErrorKind,
> {
    match spec_field_value(pool, index) {
        Ok(v) => step_pop_known(spec_pop_known(s, v), Value::Ref),
        Err(e) => Err(e),
    }
}

/// `putstatic`: pop the stored value.
pub open spec fn spec_put_static(s: StackShape, pool: Seq<PoolEntry>, index: u16) -> Result<
    StackShape,
    ErrorKind,
> {
    match spec_field_value(pool, index) {
        Ok(v) => spec_pop_known(s, v),
        Err(e) => Err(e),
    }
}

/// An invocation through a method or interface-method reference.
pub open spec fn spec_invoke_ref(
    s: StackShape,
    pool: Seq<PoolEntry>,
    index: u16,
    receiver: bool,
) -> Result<StackShape, ErrorKind> {
    match spec_method_value(pool, index) {
        Ok(t) => spec_invoke(s, t.0, t.1, receiver),
        Err(e) => Err(e),
    }
}

/// An invocation through a dynamic call-site record; no receiver.
pub open spec fn spec_invoke_dyn(s: StackShape, pool: Seq<PoolEntry>, index: u16) -> Result<
    StackShape,
    ErrorKind,
> {
    match spec_invoke_dynamic_value(pool, index) {
        Ok(t) => spec_invoke(s, t.0, t.1, false),
        Err(e) => Err(e),
    }
}

/// A one-word constant load: push the record's category.
pub open spec fn spec_ldc_small(s: StackShape, pool: Seq<PoolEntry>, index: u16) -> Result<
    StackShape,
    ErrorKind,
> {
    match spec_loadable_small(pool, index) {
        Ok(v) => Ok(spec_push(s, v)),
        Err(e) => Err(e),
    }
}

/// A two-word constant load: push the record's category.
pub open spec fn spec_ldc_big(s: StackShape, pool: Seq<PoolEntry>, index: u16) -> Result<
    StackShape,
    ErrorKind,
> {
    match spec_loadable_big(pool, index) {
        Ok(v) => Ok(spec_push(s, v)),
        Err(e) => Err(e),
    }
}

/// `multianewarray`: pop one length per dimension, push the reference.
pub open spec fn spec_multianewarray(s: StackShape, dimensions: u8) -> Result<
    StackShape,
    ErrorKind,
> {
    step_push(spec_pop_i32_n(s, dimensions as int), Value::Ref)
}

/// A comparison: pop two operands of the compared category, push a
/// 32-bit integer.
pub open spec fn spec_cmp(s: StackShape, t: Value) -> Result<StackShape, ErrorKind> {
    step_push(step_pop_known(spec_pop_known(s, t), t), Value::I32)
}

/// A 64-bit integer shift: pop the 32-bit shift amount, pop the 64-bit
/// value, push the 64-bit result.
pub open spec fn spec_long_shift(s: StackShape) -> Result<StackShape, ErrorKind> {
    step_push(step_pop_known(spec_pop_known(s, Value::I32), Value::I64), Value::I64)
}

/// The effect table: the stack transformation of every JVM instruction,
/// as a function of the starting shape and the constant pool.
pub open spec fn spec_effect(s: StackShape, i: Instruction, pool: Seq<PoolEntry>) -> Result<
    StackShape,
    ErrorKind,
> {
    match i {
        // Array element reads: pop index, pop array reference, push element.
        Instruction::AALoad => spec_array_load(s, Value::Ref),
        Instruction::BALoad | Instruction::CALoad | Instruction::SALoad | Instruction::IALoad => {
            spec_array_load(s, Value::I32)
        },
        Instruction::FALoad => spec_array_load(s, Value::F32),
        Instruction::LALoad => spec_array_load(s, Value::I64),
        Instruction::DALoad => spec_array_load(s, Value::F64),
        // Array element writes: pop value, pop index, pop array reference.
        Instruction::AAStore => spec_array_store(s, Value::Ref),
        Instruction::BAStore | Instruction::CAStore | Instruction::SAStore | Instruction::IAStore => {
            spec_array_store(s, Value::I32)
        },
        Instruction::FAStore => spec_array_store(s, Value::F32),
        Instruction::LAStore => spec_array_store(s, Value::I64),
        Instruction::DAStore => spec_array_store(s, Value::F64),
        // Reference pushes: constants and local loads.
        Instruction::AConstNull
        | Instruction::ALoad { .. }
        | Instruction::ALoadW { .. }
        | Instruction::ALoad0
        | Instruction::ALoad1
        | Instruction::ALoad2
        | Instruction::ALoad3 => Ok(spec_push(s, Value::Ref)),
        // Reference pops: local stores, returns, throws, monitors and
        // null-check branches.
        Instruction::AStore { .. }
        | Instruction::AStoreW { .. }
        | Instruction::AStore0
        | Instruction::AStore1
        | Instruction::AStore2
        | Instruction::AStore3
        | Instruction::AReturn
        | Instruction::AThrow
        | Instruction::MonitorEnter
        | Instruction::MonitorExit
        | Instruction::IfNull { .. }
        | Instruction::IfNonNull { .. } => spec_pop_known(s, Value::Ref),
        // Array creation with one length operand.
        Instruction::ANewArray { .. } | Instruction::NewArray { .. } => {
            spec_convert(s, Value::I32, Value::Ref)
        },
        // Reference interrogation.
        Instruction::ArrayLength | Instruction::InstanceOf { .. } => {
            spec_convert(s, Value::Ref, Value::I32)
        },
        Instruction::CheckCast { .. } => spec_convert(s, Value::Ref, Value::Ref),
        // 32-bit integer pushes: constants and local loads.
        Instruction::BIPush { .. }
        | Instruction::SIPush { .. }
        | Instruction::IConstM1
        | Instruction::IConst0
        | Instruction::IConst1
        | Instruction::IConst2
        | Instruction::IConst3
        | Instruction::IConst4
        | Instruction::IConst5
        | Instruction::ILoad { .. }
        | Instruction::ILoadW { .. }
        | Instruction::ILoad0
        | Instruction::ILoad1
        | Instruction::ILoad2
        | Instruction::ILoad3 => Ok(spec_push(s, Value::I32)),
        // 32-bit float pushes.
        Instruction::FConst0
        | Instruction::FConst1
        | Instruction::FConst2
        | Instruction::FLoad { .. }
        | Instruction::FLoadW { .. }
        | Instruction::FLoad0
        | Instruction::FLoad1
        | Instruction::FLoad2
        | Instruction::FLoad3 => Ok(spec_push(s, Value::F32)),
        // 64-bit integer pushes.
        Instruction::LConst0
        | Instruction::LConst1
        | Instruction::LLoad { .. }
        | Instruction::LLoadW { .. }
        | Instruction::LLoad0
        | Instruction::LLoad1
        | Instruction::LLoad2
        | Instruction::LLoad3 => Ok(spec_push(s, Value::I64)),
        // 64-bit float pushes.
        Instruction::DConst0
        | Instruction::DConst1
        | Instruction::DLoad { .. }
        | Instruction::DLoadW { .. }
        | Instruction::DLoad0
        | Instruction::DLoad1
        | Instruction::DLoad2
        | Instruction::DLoad3 => Ok(spec_push(s, Value::F64)),
        // 32-bit integer pops: local stores, return, one-operand branches
        // and both switch forms.
        Instruction::IStore { .. }
        | Instruction::IStoreW { .. }
        | Instruction::IStore0
        | Instruction::IStore1
        | Instruction::IStore2
        | Instruction::IStore3
        | Instruction::IReturn
        | Instruction::IfEq { .. }
        | Instruction::IfNe { .. }
        | Instruction::IfLt { .. }
        | Instruction::IfGe { .. }
        | Instruction::IfGt { .. }
        | Instruction::IfLe { .. }
        | Instruction::TableSwitch { .. }
        | Instruction::LookupSwitch { .. } => spec_pop_known(s, Value::I32),
        // 32-bit float pops.
        Instruction::FStore { .. }
        | Instruction::FStoreW { .. }
        | Instruction::FStore0
        | Instruction::FStore1
        | Instruction::FStore2
        | Instruction::FStore3
        | Instruction::FReturn => spec_pop_known(s, Value::F32),
        // 64-bit integer pops.
        Instruction::LStore { .. }
        | Instruction::LStoreW { .. }
        | Instruction::LStore0
        | Instruction::LStore1
        | Instruction::LStore2
        | Instruction::LStore3
        | Instruction::LReturn => spec_pop_known(s, Value::I64),
        // 64-bit float pops.
        Instruction::DStore { .. }
        | Instruction::DStoreW { .. }
        | Instruction::DStore0
        | Instruction::DStore1
        | Instruction::DStore2
        | Instruction::DStore3
        | Instruction::DReturn => spec_pop_known(s, Value::F64),
        // Two-operand comparison branches.
        Instruction::IfICmpEq { .. }
        | Instruction::IfICmpNe { .. }
        | Instruction::IfICmpLt { .. }
        | Instruction::IfICmpGe { .. }
        | Instruction::IfICmpGt { .. }
        | Instruction::IfICmpLe { .. } => step_pop_known(spec_pop_known(s, Value::I32), Value::I32),
        Instruction::IfACmpEq { .. } | Instruction::IfACmpNe { .. } => {
            step_pop_known(spec_pop_known(s, Value::Ref), Value::Ref)
        },
        // Symmetric binary operators, one closed family per category.
        Instruction::IAdd
        | Instruction::ISub
        | Instruction::IMul
        | Instruction::IDiv
        | Instruction::IRem
        | Instruction::IAnd
        | Instruction::IOr
        | Instruction::IXor
        | Instruction::IShL
        | Instruction::IShR
        | Instruction::IUShR => spec_bin_op(s, Value::I32),
        Instruction::LAdd
        | Instruction::LSub
        | Instruction::LMul
        | Instruction::LDiv
        | Instruction::LRem
        | Instruction::LAnd
        | Instruction::LOr
        | Instruction::LXor => spec_bin_op(s, Value::I64),
        // 64-bit integer shifts take a 32-bit shift amount on top.
        Instruction::LShL | Instruction::LShR | Instruction::LUShR => spec_long_shift(s),
        Instruction::FAdd
        | Instruction::FSub
        | Instruction::FMul
        | Instruction::FDiv
        | Instruction::FRem => spec_bin_op(s, Value::F32),
        Instruction::DAdd
        | Instruction::DSub
        | Instruction::DMul
        | Instruction::DDiv
        | Instruction::DRem => spec_bin_op(s, Value::F64),
        // Comparisons: pop two operands of the compared category, push a
        // 32-bit integer.
        Instruction::FCmpG | Instruction::FCmpL => spec_cmp(s, Value::F32),
        Instruction::DCmpG | Instruction::DCmpL => spec_cmp(s, Value::F64),
        Instruction::LCmp => spec_cmp(s, Value::I64),
        // Negation keeps the category.
        Instruction::INeg => spec_convert(s, Value::I32, Value::I32),
        Instruction::LNeg => spec_convert(s, Value::I64, Value::I64),
        Instruction::FNeg => spec_convert(s, Value::F32, Value::F32),
        Instruction::DNeg => spec_convert(s, Value::F64, Value::F64),
        // Conversions; narrowing integer truncations stay 32-bit integer.
        Instruction::I2B | Instruction::I2C | Instruction::I2S => {
            spec_convert(s, Value::I32, Value::I32)
        },
        Instruction::I2F => spec_convert(s, Value::I32, Value::F32),
        Instruction::I2L => spec_convert(s, Value::I32, Value::I64),
        Instruction::I2D => spec_convert(s, Value::I32, Value::F64),
        Instruction::L2I => spec_convert(s, Value::I64, Value::I32),
        Instruction::L2F => spec_convert(s, Value::I64, Value::F32),
        Instruction::L2D => spec_convert(s, Value::I64, Value::F64),
        Instruction::F2I => spec_convert(s, Value::F32, Value::I32),
        Instruction::F2L => spec_convert(s, Value::F32, Value::I64),
        Instruction::F2D => spec_convert(s, Value::F32, Value::F64),
        Instruction::D2I => spec_convert(s, Value::F64, Value::I32),
        Instruction::D2L => spec_convert(s, Value::F64, Value::I64),
        Instruction::D2F => spec_convert(s, Value::F64, Value::F32),
        // No stack effect: jumps, subroutine forms, local increments, the
        // void return and nop.
        Instruction::Nop
        | Instruction::Goto { .. }
        | Instruction::GotoW { .. }
        | Instruction::JSr { .. }
        | Instruction::JSrW { .. }
        | Instruction::Ret { .. }
        | Instruction::RetW { .. }
        | Instruction::IInc { .. }
        | Instruction::IIncW { .. }
        | Instruction::Return => Ok(s),
        // Word-exact duplication and stack manipulation.
        Instruction::Dup => spec_dup(s),
        Instruction::DupX1 => spec_dup_x1(s),
        Instruction::DupX2 => spec_dup_x2(s),
        Instruction::Dup2 => spec_dup2(s),
        Instruction::Dup2X1 => spec_dup2_x1(s),
        Instruction::Dup2X2 => spec_dup2_x2(s),
        Instruction::Pop => spec_pop1(s),
        Instruction::Pop2 => spec_pop2(s),
        Instruction::Swap => spec_swap(s),
        // Field and static access, category from the field descriptor.
        Instruction::GetField { index } => spec_get_field(s, pool, index),
        Instruction::GetStatic { index } => spec_get_static(s, pool, index),
        Instruction::PutField { index } => spec_put_field(s, pool, index),
        Instruction::PutStatic { index } => spec_put_static(s, pool, index),
        // Invocations, categories from the method descriptor.
        Instruction::InvokeVirtual { index } | Instruction::InvokeSpecial { index } => {
            spec_invoke_ref(s, pool, index, true)
        },
        Instruction::InvokeInterface { index, count } => spec_invoke_ref(s, pool, index, true),
        Instruction::InvokeStatic { index } => spec_invoke_ref(s, pool, index, false),
        Instruction::InvokeDynamic { index } => spec_invoke_dyn(s, pool, index),
        // Constant loads, category from the pool record.
        Instruction::LdC { index } | Instruction::LdCW { index } => spec_ldc_small(s, pool, index),
        Instruction::LdC2W { index } => spec_ldc_big(s, pool, index),
        // Object and multi-dimensional array creation.
        Instruction::New { .. } => Ok(spec_push(s, Value::Ref)),
        Instruction::MultiANewArray { index, dimensions } => spec_multianewarray(s, dimensions),
    }
}

/// Applies an invocation's pops and push to the stack.
fn invoke_effect(stack: &mut Stack, params: &Vec<Value>, ret: Option<Value>, receiver: bool) -> (r:
    Result<(), ErrorKind>)
    ensures
        match spec_invoke(old(stack)@, params@, ret, receiver) {
            Ok(s) => r is Ok && final(stack)@ == s,
            Err(e) => r == Err::<(), ErrorKind>(e),
        },
{
    let ghost entry = stack@;
    let mut k: usize = params.len();
    proof {
        assert(params@.take(params@.len() as int) =~= params@);
    }
    while k > 0
        invariant
            entry == old(stack)@,
            k <= params@.len(),
            spec_pop_params(entry, params@) == spec_pop_params(stack@, params@.take(k as int)),
        decreases k,
    {
        let v = params[k - 1];
        proof {
            assert(params@.take(k as int).last() == v);
            assert(params@.take(k as int).drop_last() =~= params@.take(k as int - 1));
        }
        match stack.pop_known(v) {
            Ok(_) => {},
            Err(e) => {
                proof {
                    assert(params@.take(k as int).len() == k as int);
                    assert(spec_pop_known(stack@, v) == Err::<StackShape, ErrorKind>(e));
                    assert(spec_pop_params(stack@, params@.take(k as int)) == Err::<
                        StackShape,
                        ErrorKind,
                    >(e));
                    assert(spec_pop_params(entry, params@) == Err::<StackShape, ErrorKind>(e));
                }
                return Err(e);
            },
        }
        k -= 1;
    }
    proof {
        assert(params@.take(0) =~= Seq::<Value>::empty());
        assert(spec_pop_params(entry, params@) == Ok::<StackShape, ErrorKind>(stack@));
    }
    if receiver {
        match stack.pop_known(Value::Ref) {
            Ok(_) => {},
            Err(e) => {
                return Err(e);
            },
        }
    }
    match ret {
        Some(v) => stack.push(v),
        None => (),
    }
    Ok(())
}

/// `dup` on the stack.
fn dup_effect(stack: &mut Stack) -> (r: Result<(), ErrorKind>)
    ensures
        match spec_dup(old(stack)@) {
            Ok(s) => r is Ok && final(stack)@ == s,
            Err(e) => r == Err::<(), ErrorKind>(e),
        },
{
    let v1 = stack.pop_unknown()?;
    if v1.is_big() {
        return Err(ErrorKind::IllegalCategory);
    }
    stack.push(v1);
    stack.push(v1);
    Ok(())
}

/// `dup_x1` on the stack.
fn dup_x1_effect(stack: &mut Stack) -> (r: Result<(), ErrorKind>)
    ensures
        match spec_dup_x1(old(stack)@) {
            Ok(s) => r is Ok && final(stack)@ == s,
            Err(e) => r == Err::<(), ErrorKind>(e),
        },
{
    let v1 = stack.pop_unknown()?;
    if v1.is_big() {
        return Err(ErrorKind::IllegalCategory);
    }
    let v2 = stack.pop_unknown()?;
    if v2.is_big() {
        return Err(ErrorKind::IllegalCategory);
    }
    stack.push(v1);
    stack.push(v2);
    stack.push(v1);
    Ok(())
}

/// `dup_x2` on the stack.
fn dup_x2_effect(stack: &mut Stack) -> (r: Result<(), ErrorKind>)
    ensures
        match spec_dup_x2(old(stack)@) {
            Ok(s) => r is Ok && final(stack)@ == s,
            Err(e) => r == Err::<(), ErrorKind>(e),
        },
{
    let v1 = stack.pop_unknown()?;
    if v1.is_big() {
        return Err(ErrorKind::IllegalCategory);
    }
    let v2 = stack.pop_unknown()?;
    if v2.is_big() {
        stack.push(v1);
        stack.push(v2);
        stack.push(v1);
        return Ok(());
    }
    let v3 = stack.pop_unknown()?;
    if v3.is_big() {
        return Err(ErrorKind::IllegalCategory);
    }
    stack.push(v1);
    stack.push(v3);
    stack.push(v2);
    stack.push(v1);
    Ok(())
}

/// `dup2` on the stack.
fn dup2_effect(stack: &mut Stack) -> (r: Result<(), ErrorKind>)
    ensures
        match spec_dup2(old(stack)@) {
            Ok(s) => r is Ok && final(stack)@ == s,
            Err(e) => r == Err::<(), ErrorKind>(e),
        },
{
    let v1 = stack.pop_unknown()?;
    if v1.is_big() {
        stack.push(v1);
        stack.push(v1);
        return Ok(());
    }
    let v2 = stack.pop_unknown()?;
    if v2.is_big() {
        return Err(ErrorKind::IllegalCategory);
    }
    stack.push(v2);
    stack.push(v1);
    stack.push(v2);
    stack.push(v1);
    Ok(())
}

/// `dup2_x1` on the stack.
fn dup2_x1_effect(stack: &mut Stack) -> (r: Result<(), ErrorKind>)
    ensures
        match spec_dup2_x1(old(stack)@) {
            Ok(s) => r is Ok && final(stack)@ == s,
            Err(e) => r == Err::<(), ErrorKind>(e),
        },
{
    let v1 = stack.pop_unknown()?;
    let v2 = stack.pop_unknown()?;
    if v2.is_big() {
        return Err(ErrorKind::IllegalCategory);
    }
    if v1.is_big() {
        stack.push(v1);
        stack.push(v2);
        stack.push(v1);
        return Ok(());
    }
    let v3 = stack.pop_unknown()?;
    if v3.is_big() {
        return Err(ErrorKind::IllegalCategory);
    }
    stack.push(v2);
    stack.push(v1);
    stack.push(v3);
    stack.push(v2);
    stack.push(v1);
    Ok(())
}

/// `dup2_x2` on the stack.
fn dup2_x2_effect(stack: &mut Stack) -> (r: Result<(), ErrorKind>)
    ensures
        match spec_dup2_x2(old(stack)@) {
            Ok(s) => r is Ok && final(stack)@ == s,
            Err(e) => r == Err::<(), ErrorKind>(e),
        },
{
    let v1 = stack.pop_unknown()?;
    let v2 = stack.pop_unknown()?;
    if v1.is_big() {
        if v2.is_big() {
            stack.push(v1);
            stack.push(v2);
            stack.push(v1);
            return Ok(());
        }
        let v3 = stack.pop_unknown()?;
        if v3.is_big() {
            return Err(ErrorKind::IllegalCategory);
        }
        stack.push(v1);
        stack.push(v3);
        stack.push(v2);
        stack.push(v1);
        return Ok(());
    }
    if v2.is_big() {
        return Err(ErrorKind::IllegalCategory);
    }
    let v3 = stack.pop_unknown()?;
    if v3.is_big() {
        stack.push(v2);
        stack.push(v1);
        stack.push(v3);
        stack.push(v2);
        stack.push(v1);
        return Ok(());
    }
    let v4 = stack.pop_unknown()?;
    if v4.is_big() {
        return Err(ErrorKind::IllegalCategory);
    }
    stack.push(v2);
    stack.push(v1);
    stack.push(v4);
    stack.push(v3);
    stack.push(v2);
    stack.push(v1);
    Ok(())
}

/// `pop` on the stack.
fn pop1_effect(stack: &mut Stack) -> (r: Result<(), ErrorKind>)
    ensures
        match spec_pop1(old(stack)@) {
            Ok(s) => r is Ok && final(stack)@ == s,
            Err(e) => r == Err::<(), ErrorKind>(e),
        },
{
    let v1 = stack.pop_unknown()?;
    if v1.is_big() {
        return Err(ErrorKind::IllegalCategory);
    }
    Ok(())
}

/// `pop2` on the stack.
fn pop2_effect(stack: &mut Stack) -> (r: Result<(), ErrorKind>)
    ensures
        match spec_pop2(old(stack)@) {
            Ok(s) => r is Ok && final(stack)@ == s,
            Err(e) => r == Err::<(), ErrorKind>(e),
        },
{
    let v1 = stack.pop_unknown()?;
    if v1.is_big() {
        return Ok(());
    }
    let v2 = stack.pop_unknown()?;
    if v2.is_big() {
        return Err(ErrorKind::IllegalCategory);
    }
    Ok(())
}

/// `swap` on the stack.
fn swap_effect(stack: &mut Stack) -> (r: Result<(), ErrorKind>)
    ensures
        match spec_swap(old(stack)@) {
            Ok(s) => r is Ok && final(stack)@ == s,
            Err(e) => r == Err::<(), ErrorKind>(e),
        },
{
    let v1 = stack.pop_unknown()?;
    if v1.is_big() {
        return Err(ErrorKind::IllegalCategory);
    }
    let v2 = stack.pop_unknown()?;
    if v2.is_big() {
        return Err(ErrorKind::IllegalCategory);
    }
    stack.push(v1);
    stack.push(v2);
    Ok(())
}

/// Two known pops of the same category, for two-operand branches.
fn pop2_known_effect(stack: &mut Stack, t: Value) -> (r: Result<(), ErrorKind>)
    ensures
        match step_pop_known(spec_pop_known(old(stack)@, t), t) {
            Ok(s) => r is Ok && final(stack)@ == s,
            Err(e) => r == Err::<(), ErrorKind>(e),
        },
{
    stack.pop_known(t)?;
    stack.pop_known(t)?;
    Ok(())
}

/// A comparison's pops and push.
fn cmp_effect(stack: &mut Stack, t: Value) -> (r: Result<(), ErrorKind>)
    ensures
        match spec_cmp(old(stack)@, t) {
            Ok(s) => r is Ok && final(stack)@ == s,
            Err(e) => r == Err::<(), ErrorKind>(e),
        },
{
    stack.pop_known(t)?;
    stack.pop_known(t)?;
    stack.push(Value::I32);
    Ok(())
}

/// A 64-bit integer shift's pops and push.
fn long_shift_effect(stack: &mut Stack) -> (r: Result<(), ErrorKind>)
    ensures
        match spec_long_shift(old(stack)@) {
            Ok(s) => r is Ok && final(stack)@ == s,
            Err(e) => r == Err::<(), ErrorKind>(e),
        },
{
    stack.pop_known(Value::I32)?;
    stack.pop_known(Value::I64)?;
    stack.push(Value::I64);
    Ok(())
}

/// `getfield` on the stack.
fn get_field_effect(stack: &mut Stack, pool: &ConstPool, index: u16) -> (r: Result<(), ErrorKind>)
    ensures
        match spec_get_field(old(stack)@, pool@, index) {
            Ok(s) => r is Ok && final(stack)@ == s,
            Err(e) => r == Err::<(), ErrorKind>(e),
        },
{
    let v = pool.field_value(index)?;
    stack.pop_known(Value::Ref)?;
    stack.push(v);
    Ok(())
}

/// `getstatic` on the stack.
fn get_static_effect(stack: &mut Stack, pool: &ConstPool, index: u16) -> (r: Result<(), ErrorKind>)
    ensures
        match spec_get_static(old(stack)@, pool@, index) {
            Ok(s) => r is Ok && final(stack)@ == s,
            Err(e) => r == Err::<(), ErrorKind>(e),
        },
{
    let v = pool.field_value(index)?;
    stack.push(v);
    Ok(())
}

/// `putfield` on the stack.
fn put_field_effect(stack: &mut Stack, pool: &ConstPool, index: u16) -> (r: Result<(), ErrorKind>)
    ensures
        match spec_put_field(old(stack)@, pool@, index) {
            Ok(s) => r is Ok && final(stack)@ == s,
            Err(e) => r == Err::<(), ErrorKind>(e),
        },
{
    let v = pool.field_value(index)?;
    stack.pop_known(v)?;
    stack.pop_known(Value::Ref)?;
    Ok(())
}

/// `putstatic` on the stack.
fn put_static_effect(stack: &mut Stack, pool: &ConstPool, index: u16) -> (r: Result<(), ErrorKind>)
    ensures
        match spec_put_static(old(stack)@, pool@, index) {
            Ok(s) => r is Ok && final(stack)@ == s,
            Err(e) => r == Err::<(), ErrorKind>(e),
        },
{
    let v = pool.field_value(index)?;
    stack.pop_known(v)?;
    Ok(())
}

/// An invocation through a method or interface-method reference.
fn invoke_ref_effect(stack: &mut Stack, pool: &ConstPool, index: u16, receiver: bool) -> (r:
    Result<(), ErrorKind>)
    ensures
        match spec_invoke_ref(old(stack)@, pool@, index, receiver) {
            Ok(s) => r is Ok && final(stack)@ == s,
            Err(e) => r == Err::<(), ErrorKind>(e),
        },
{
    let (params, ret) = pool.method_value(index)?;
    invoke_effect(stack, &params, ret, receiver)
}

/// An invocation through a dynamic call-site record.
fn invoke_dyn_effect(stack: &mut Stack, pool: &ConstPool, index: u16) -> (r: Result<(), ErrorKind>)
    ensures
        match spec_invoke_dyn(old(stack)@, pool@, index) {
            Ok(s) => r is Ok && final(stack)@ == s,
            Err(e) => r == Err::<(), ErrorKind>(e),
        },
{
    let (params, ret) = pool.invoke_dynamic_value(index)?;
    invoke_effect(stack, &params, ret, false)
}

/// A one-word constant load on the stack.
fn ldc_small_effect(stack: &mut Stack, pool: &ConstPool, index: u16) -> (r: Result<(), ErrorKind>)
    ensures
        match spec_ldc_small(old(stack)@, pool@, index) {
            Ok(s) => r is Ok && final(stack)@ == s,
            Err(e) => r == Err::<(), ErrorKind>(e),
        },
{
    let v = pool.loadable_small(index)?;
    stack.push(v);
    Ok(())
}

/// A two-word constant load on the stack.
fn ldc_big_effect(stack: &mut Stack, pool: &ConstPool, index: u16) -> (r: Result<(), ErrorKind>)
    ensures
        match spec_ldc_big(old(stack)@, pool@, index) {
            Ok(s) => r is Ok && final(stack)@ == s,
            Err(e) => r == Err::<(), ErrorKind>(e),
        },
{
    let v = pool.loadable_big(index)?;
    stack.push(v);
    Ok(())
}

/// `multianewarray` on the stack: one length pop per dimension, then the
/// reference push.
fn multianewarray_effect(stack: &mut Stack, dimensions: u8) -> (r: Result<(), ErrorKind>)
    ensures
        match spec_multianewarray(old(stack)@, dimensions) {
            Ok(s) => r is Ok && final(stack)@ == s,
            Err(e) => r == Err::<(), ErrorKind>(e),
        },
{
    let ghost entry = stack@;
    let mut k: u8 = 0;
    while k < dimensions
        invariant
            entry == old(stack)@,
            k <= dimensions,
            spec_pop_i32_n(entry, dimensions as int) == spec_pop_i32_n(
                stack@,
                dimensions as int - k as int,
            ),
        decreases dimensions - k,
    {
        match stack.pop_known(Value::I32) {
            Ok(_) => {},
            Err(e) => {
                proof {
                    assert(spec_pop_known(stack@, Value::I32) == Err::<StackShape, ErrorKind>(e));
                    assert(spec_pop_i32_n(stack@, dimensions as int - k as int) == Err::<
                        StackShape,
                        ErrorKind,
                    >(e));
                    assert(spec_pop_i32_n(entry, dimensions as int) == Err::<
                        StackShape,
                        ErrorKind,
                    >(e));
                }
                return Err(e);
            },
        }
        k += 1;
    }
    stack.push(Value::Ref);
    Ok(())
}

/// Applies one instruction's stack transformation, exactly as the effect
/// table states it. On an error the stack is abandoned by the caller;
/// only the error is pinned.
#[verifier::rlimit(100)]
#[verifier::spinoff_prover]
pub fn instruction_effect(stack: &mut Stack, i: &Instruction, pool: &ConstPool) -> (r: Result<
    (),
    ErrorKind,
>)
    ensures
        match spec_effect(old(stack)@, *i, pool@) {
            Ok(s) => r is Ok && final(stack)@ == s,
            Err(e) => r == Err::<(), ErrorKind>(e),
        },
{
    match i {
        Instruction::AALoad => stack.array_load(Value::Ref),
        Instruction::BALoad | Instruction::CALoad | Instruction::SALoad | Instruction::IALoad => {
            stack.array_load(Value::I32)
        },
        Instruction::FALoad => stack.array_load(Value::F32),
        Instruction::LALoad => stack.array_load(Value::I64),
        Instruction::DALoad => stack.array_load(Value::F64),
        Instruction::AAStore => stack.array_store(Value::Ref),
        Instruction::BAStore | Instruction::CAStore | Instruction::SAStore | Instruction::IAStore => {
            stack.array_store(Value::I32)
        },
        Instruction::FAStore => stack.array_store(Value::F32),
        Instruction::LAStore => stack.array_store(Value::I64),
        Instruction::DAStore => stack.array_store(Value::F64),
        Instruction::AConstNull
        | Instruction::ALoad { .. }
        | Instruction::ALoadW { .. }
        | Instruction::ALoad0
        | Instruction::ALoad1
        | Instruction::ALoad2
        | Instruction::ALoad3 => {
            stack.push(Value::Ref);
            Ok(())
        },
        Instruction::AStore { .. }
        | Instruction::AStoreW { .. }
        | Instruction::AStore0
        | Instruction::AStore1
        | Instruction::AStore2
        | Instruction::AStore3
        | Instruction::AReturn
        | Instruction::AThrow
        | Instruction::MonitorEnter
        | Instruction::MonitorExit
        | Instruction::IfNull { .. }
        | Instruction::IfNonNull { .. } => {
            match stack.pop_known(Value::Ref) {
                Ok(_) => Ok(()),
                Err(e) => Err(e),
            }
        },
        Instruction::ANewArray { .. } | Instruction::NewArray { .. } => {
            stack.convert(Value::I32, Value::Ref)
        },
        Instruction::ArrayLength | Instruction::InstanceOf { .. } => {
            stack.convert(Value::Ref, Value::I32)
        },
        Instruction::CheckCast { .. } => stack.convert(Value::Ref, Value::Ref),
        Instruction::BIPush { .. }
        | Instruction::SIPush { .. }
        | Instruction::IConstM1
        | Instruction::IConst0
        | Instruction::IConst1
        | Instruction::IConst2
        | Instruction::IConst3
        | Instruction::IConst4
        | Instruction::IConst5
        | Instruction::ILoad { .. }
        | Instruction::ILoadW { .. }
        | Instruction::ILoad0
        | Instruction::ILoad1
        | Instruction::ILoad2
        | Instruction::ILoad3 => {
            stack.push(Value::I32);
            Ok(())
        },
        Instruction::FConst0
        | Instruction::FConst1
        | Instruction::FConst2
        | Instruction::FLoad { .. }
        | Instruction::FLoadW { .. }
        | Instruction::FLoad0
        | Instruction::FLoad1
        | Instruction::FLoad2
        | Instruction::FLoad3 => {
            stack.push(Value::F32);
            Ok(())
        },
        Instruction::LConst0
        | Instruction::LConst1
        | Instruction::LLoad { .. }
        | Instruction::LLoadW { .. }
        | Instruction::LLoad0
        | Instruction::LLoad1
        | Instruction::LLoad2
        | Instruction::LLoad3 => {
            stack.push(Value::I64);
            Ok(())
        },
        Instruction::DConst0
        | Instruction::DConst1
        | Instruction::DLoad { .. }
        | Instruction::DLoadW { .. }
        | Instruction::DLoad0
        | Instruction::DLoad1
        | Instruction::DLoad2
        | Instruction::DLoad3 => {
            stack.push(Value::F64);
            Ok(())
        },
        Instruction::IStore { .. }
        | Instruction::IStoreW { .. }
        | Instruction::IStore0
        | Instruction::IStore1
        | Instruction::IStore2
        | Instruction::IStore3
        | Instruction::IReturn
        | Instruction::IfEq { .. }
        | Instruction::IfNe { .. }
        | Instruction::IfLt { .. }
        | Instruction::IfGe { .. }
        | Instruction::IfGt { .. }
        | Instruction::IfLe { .. }
        | Instruction::TableSwitch { .. }
        | Instruction::LookupSwitch { .. } => {
            match stack.pop_known(Value::I32) {
                Ok(_) => Ok(()),
                Err(e) => Err(e),
            }
        },
        Instruction::FStore { .. }
        | Instruction::FStoreW { .. }
        | Instruction::FStore0
        | Instruction::FStore1
        | Instruction::FStore2
        | Instruction::FStore3
        | Instruction::FReturn => {
            match stack.pop_known(Value::F32) {
                Ok(_) => Ok(()),
                Err(e) => Err(e),
            }
        },
        Instruction::LStore { .. }
        | Instruction::LStoreW { .. }
        | Instruction::LStore0
        | Instruction::LStore1
        | Instruction::LStore2
        | Instruction::LStore3
        | Instruction::LReturn => {
            match stack.pop_known(Value::I64) {
                Ok(_) => Ok(()),
                Err(e) => Err(e),
            }
        },
        Instruction::DStore { .. }
        | Instruction::DStoreW { .. }
        | Instruction::DStore0
        | Instruction::DStore1
        | Instruction::DStore2
        | Instruction::DStore3
        | Instruction::DReturn => {
            match stack.pop_known(Value::F64) {
                Ok(_) => Ok(()),
                Err(e) => Err(e),
            }
        },
        Instruction::IfICmpEq { .. }
        | Instruction::IfICmpNe { .. }
        | Instruction::IfICmpLt { .. }
        | Instruction::IfICmpGe { .. }
        | Instruction::IfICmpGt { .. }
        | Instruction::IfICmpLe { .. } => pop2_known_effect(stack, Value::I32),
        Instruction::IfACmpEq { .. } | Instruction::IfACmpNe { .. } => {
            pop2_known_effect(stack, Value::Ref)
        },
        Instruction::IAdd
        | Instruction::ISub
        | Instruction::IMul
        | Instruction::IDiv
        | Instruction::IRem
        | Instruction::IAnd
        | Instruction::IOr
        | Instruction::IXor
        | Instruction::IShL
        | Instruction::IShR
        | Instruction::IUShR => stack.bin_op(Value::I32),
        Instruction::LAdd
        | Instruction::LSub
        | Instruction::LMul
        | Instruction::LDiv
        | Instruction::LRem
        | Instruction::LAnd
        | Instruction::LOr
        | Instruction::LXor => stack.bin_op(Value::I64),
        Instruction::LShL | Instruction::LShR | Instruction::LUShR => long_shift_effect(stack),
        Instruction::FAdd
        | Instruction::FSub
        | Instruction::FMul
        | Instruction::FDiv
        | Instruction::FRem => stack.bin_op(Value::F32),
        Instruction::DAdd
        | Instruction::DSub
        | Instruction::DMul
        | Instruction::DDiv
        | Instruction::DRem => stack.bin_op(Value::F64),
        Instruction::FCmpG | Instruction::FCmpL => cmp_effect(stack, Value::F32),
        Instruction::DCmpG | Instruction::DCmpL => cmp_effect(stack, Value::F64),
        Instruction::LCmp => cmp_effect(stack, Value::I64),
        Instruction::INeg => stack.convert(Value::I32, Value::I32),
        Instruction::LNeg => stack.convert(Value::I64, Value::I64),
        Instruction::FNeg => stack.convert(Value::F32, Value::F32),
        Instruction::DNeg => stack.convert(Value::F64, Value::F64),
        Instruction::I2B | Instruction::I2C | Instruction::I2S => {
            stack.convert(Value::I32, Value::I32)
        },
        Instruction::I2F => stack.convert(Value::I32, Value::F32),
        Instruction::I2L => stack.convert(Value::I32, Value::I64),
        Instruction::I2D => stack.convert(Value::I32, Value::F64),
        Instruction::L2I => stack.convert(Value::I64, Value::I32),
        Instruction::L2F => stack.convert(Value::I64, Value::F32),
        Instruction::L2D => stack.convert(Value::I64, Value::F64),
        Instruction::F2I => stack.convert(Value::F32, Value::I32),
        Instruction::F2L => stack.convert(Value::F32, Value::I64),
        Instruction::F2D => stack.convert(Value::F32, Value::F64),
        Instruction::D2I => stack.convert(Value::F64, Value::I32),
        Instruction::D2L => stack.convert(Value::F64, Value::I64),
        Instruction::D2F => stack.convert(Value::F64, Value::F32),
        Instruction::Nop
        | Instruction::Goto { .. }
        | Instruction::GotoW { .. }
        | Instruction::JSr { .. }
        | Instruction::JSrW { .. }
        | Instruction::Ret { .. }
        | Instruction::RetW { .. }
        | Instruction::IInc { .. }
        | Instruction::IIncW { .. }
        | Instruction::Return => Ok(()),
        Instruction::Dup => dup_effect(stack),
        Instruction::DupX1 => dup_x1_effect(stack),
        Instruction::DupX2 => dup_x2_effect(stack),
        Instruction::Dup2 => dup2_effect(stack),
        Instruction::Dup2X1 => dup2_x1_effect(stack),
        Instruction::Dup2X2 => dup2_x2_effect(stack),
        Instruction::Pop => pop1_effect(stack),
        Instruction::Pop2 => pop2_effect(stack),
        Instruction::Swap => swap_effect(stack),
        Instruction::GetField { index } => get_field_effect(stack, pool, *index),
        Instruction::GetStatic { index } => get_static_effect(stack, pool, *index),
        Instruction::PutField { index } => put_field_effect(stack, pool, *index),
        Instruction::PutStatic { index } => put_static_effect(stack, pool, *index),
        Instruction::InvokeVirtual { index } | Instruction::InvokeSpecial { index } => {
            invoke_ref_effect(stack, pool, *index, true)
        },
        Instruction::InvokeInterface { index, count: _ } => {
            invoke_ref_effect(stack, pool, *index, true)
        },
        Instruction::InvokeStatic { index } => invoke_ref_effect(stack, pool, *index, false),
        Instruction::InvokeDynamic { index } => invoke_dyn_effect(stack, pool, *index),
        Instruction::LdC { index } | Instruction::LdCW { index } => {
            ldc_small_effect(stack, pool, *index)
        },
        Instruction::LdC2W { index } => ldc_big_effect(stack, pool, *index),
        Instruction::New { .. } => {
            stack.push(Value::Ref);
            Ok(())
        },
        Instruction::MultiANewArray { index: _, dimensions } => {
            multianewarray_effect(stack, *dimensions)
        },
    }
}

/// The number of stack words a duplication instruction copies: one for
/// the one-word family, two for the two-word family.
pub open spec fn dup_words(i: Instruction) -> nat {
    match i {
        Instruction::Dup | Instruction::DupX1 | Instruction::DupX2 => 1,
        Instruction::Dup2 | Instruction::Dup2X1 | Instruction::Dup2X2 => 2,
        _ => 0,
    }
}

/// Popping with no expectation removes exactly the popped value's width
/// from the word count and leaves the inferred inputs alone.
proof fn lemma_words_pop(s: StackShape, v: Value, s1: StackShape)
    requires
        spec_pop_unknown(s) == Ok::<(Value, StackShape), ErrorKind>((v, s1)),
    ensures
        words(s.values) == words(s1.values) + v.width(),
        s1.inputs == s.inputs,
{
    assert(s.values =~= s1.values.push(v));
    crate::value::lemma_words_push(s1.values, v);
}

/// Every duplication instruction preserves the total slot count: when it
/// succeeds, the number of words on the stack afterwards equals the
/// number before plus exactly the number of words it duplicates.
#[verifier::rlimit(100)]
#[verifier::spinoff_prover]
pub proof fn lemma_dup_preserves_words(
    s: StackShape,
    i: Instruction,
    pool: Seq<PoolEntry>,
    t: StackShape,
)
    requires
        dup_words(i) > 0,
        spec_effect(s, i, pool) == Ok::<StackShape, ErrorKind>(t),
    ensures
        words(t.values) == words(s.values) + dup_words(i),
{
    match i {
        Instruction::Dup => {
            let (v1, s1) = spec_pop_unknown(s)->Ok_0;
            lemma_words_pop(s, v1, s1);
            crate::value::lemma_words_push(s1.values, v1);
            crate::value::lemma_words_push(s1.values.push(v1), v1);
        },
        Instruction::DupX1 => {
            let (v1, s1) = spec_pop_unknown(s)->Ok_0;
            let (v2, s2) = spec_pop_unknown(s1)->Ok_0;
            lemma_words_pop(s, v1, s1);
            lemma_words_pop(s1, v2, s2);
            crate::value::lemma_words_push(s2.values, v1);
            crate::value::lemma_words_push(s2.values.push(v1), v2);
            crate::value::lemma_words_push(s2.values.push(v1).push(v2), v1);
        },
        Instruction::DupX2 => {
            let (v1, s1) = spec_pop_unknown(s)->Ok_0;
            let (v2, s2) = spec_pop_unknown(s1)->Ok_0;
            lemma_words_pop(s, v1, s1);
            lemma_words_pop(s1, v2, s2);
            if v2.spec_is_big() {
                crate::value::lemma_words_push(s2.values, v1);
                crate::value::lemma_words_push(s2.values.push(v1), v2);
                crate::value::lemma_words_push(s2.values.push(v1).push(v2), v1);
            } else {
                let (v3, s3) = spec_pop_unknown(s2)->Ok_0;
                lemma_words_pop(s2, v3, s3);
                crate::value::lemma_words_push(s3.values, v1);
                crate::value::lemma_words_push(s3.values.push(v1), v3);
                crate::value::lemma_words_push(s3.values.push(v1).push(v3), v2);
                crate::value::lemma_words_push(s3.values.push(v1).push(v3).push(v2), v1);
            }
        },
        Instruction::Dup2 => {
            let (v1, s1) = spec_pop_unknown(s)->Ok_0;
            lemma_words_pop(s, v1, s1);
            if v1.spec_is_big() {
                crate::value::lemma_words_push(s1.values, v1);
                crate::value::lemma_words_push(s1.values.push(v1), v1);
            } else {
                let (v2, s2) = spec_pop_unknown(s1)->Ok_0;
                lemma_words_pop(s1, v2, s2);
                crate::value::lemma_words_push(s2.values, v2);
                crate::value::lemma_words_push(s2.values.push(v2), v1);
                crate::value::lemma_words_push(s2.values.push(v2).push(v1), v2);
                crate::value::lemma_words_push(s2.values.push(v2).push(v1).push(v2), v1);
            }
        },
        Instruction::Dup2X1 => {
            let (v1, s1) = spec_pop_unknown(s)->Ok_0;
            let (v2, s2) = spec_pop_unknown(s1)->Ok_0;
            lemma_words_pop(s, v1, s1);
            lemma_words_pop(s1, v2, s2);
            if v1.spec_is_big() {
                crate::value::lemma_words_push(s2.values, v1);
                crate::value::lemma_words_push(s2.values.push(v1), v2);
                crate::value::lemma_words_push(s2.values.push(v1).push(v2), v1);
            } else {
                let (v3, s3) = spec_pop_unknown(s2)->Ok_0;
                lemma_words_pop(s2, v3, s3);
                crate::value::lemma_words_push(s3.values, v2);
                crate::value::lemma_words_push(s3.values.push(v2), v1);
                crate::value::lemma_words_push(s3.values.push(v2).push(v1), v3);
                crate::value::lemma_words_push(s3.values.push(v2).push(v1).push(v3), v2);
                crate::value::lemma_words_push(s3.values.push(v2).push(v1).push(v3).push(v2), v1);
            }
        },
        Instruction::Dup2X2 => {
            let (v1, s1) = spec_pop_unknown(s)->Ok_0;
            let (v2, s2) = spec_pop_unknown(s1)->Ok_0;
            lemma_words_pop(s, v1, s1);
            lemma_words_pop(s1, v2, s2);
            if v1.spec_is_big() {
                if v2.spec_is_big() {
                    crate::value::lemma_words_push(s2.values, v1);
                    crate::value::lemma_words_push(s2.values.push(v1), v2);
                    crate::value::lemma_words_push(s2.values.push(v1).push(v2), v1);
                } else {
                    let (v3, s3) = spec_pop_unknown(s2)->Ok_0;
                    lemma_words_pop(s2, v3, s3);
                    crate::value::lemma_words_push(s3.values, v1);
                    crate::value::lemma_words_push(s3.values.push(v1), v3);
                    crate::value::lemma_words_push(s3.values.push(v1).push(v3), v2);
                    crate::value::lemma_words_push(s3.values.push(v1).push(v3).push(v2), v1);
                }
            } else {
                let (v3, s3) = spec_pop_unknown(s2)->Ok_0;
                lemma_words_pop(s2, v3, s3);
                if v3.spec_is_big() {
                    crate::value::lemma_words_push(s3.values, v2);
                    crate::value::lemma_words_push(s3.values.push(v2), v1);
                    crate::value::lemma_words_push(s3.values.push(v2).push(v1), v3);
                    crate::value::lemma_words_push(s3.values.push(v2).push(v1).push(v3), v2);
                    crate::value::lemma_words_push(
                        s3.values.push(v2).push(v1).push(v3).push(v2),
                        v1,
                    );
                } else {
                    let (v4, s4) = spec_pop_unknown(s3)->Ok_0;
                    lemma_words_pop(s3, v4, s4);
                    crate::value::lemma_words_push(s4.values, v2);
                    crate::value::lemma_words_push(s4.values.push(v2), v1);
                    crate::value::lemma_words_push(s4.values.push(v2).push(v1), v4);
                    crate::value::lemma_words_push(s4.values.push(v2).push(v1).push(v4), v3);
                    crate::value::lemma_words_push(
                        s4.values.push(v2).push(v1).push(v4).push(v3),
                        v2,
                    );
                    crate::value::lemma_words_push(
                        s4.values.push(v2).push(v1).push(v4).push(v3).push(v2),
                        v1,
                    );
                }
            }
        },
        _ => {},
    }
}

/// The address a block's failures are attributed to: its first
/// instruction's address, or zero for an empty block.
pub open spec fn block_address(block: Seq<(u32, Instruction)>) -> u32 {
    if block.len() > 0 {
        block[0].0
    } else {
        0
    }
}

/// Folding the effect table left-to-right over a block's instructions,
/// failures attributed to the offending instruction's address.
pub open spec fn spec_run_block(
    s: StackShape,
    block: Seq<(u32, Instruction)>,
    pool: Seq<PoolEntry>,
) -> Result<StackShape, Failure>
    decreases block.len(),
{
    if block.len() == 0 {
        Ok(s)
    } else {
        match spec_effect(s, block[0].1, pool) {
            Ok(s1) => spec_run_block(s1, block.skip(1), pool),
            Err(e) => Err(Failure { address: block[0].0, kind: e }),
        }
    }
}

/// The stack shape a block starts from: its predecessors' common exit
/// contents, as both required entry sequence and working contents.
pub open spec fn spec_entry_shape(preds: Seq<Stack>) -> StackShape {
    StackShape { inputs: entry_values(preds), values: entry_values(preds) }
}

/// Simulates one basic block: builds the entry stack from the
/// predecessors' exit stacks, then applies the effect table to each
/// instruction in order. The result holds the block's inferred entry
/// shape in `inputs` and its exit shape in `values`.
pub fn generate_stack(block: &[(u32, Instruction)], pool: &ConstPool, inputs: &[Stack]) -> (r:
    Result<Stack, Failure>)
    ensures
        match r {
            Ok(st) => stacks_agree(inputs@) && spec_run_block(
                spec_entry_shape(inputs@),
                block@,
                pool@,
            ) == Ok::<StackShape, Failure>(st@),
            Err(f) => if !stacks_agree(inputs@) {
                f == (Failure { address: block_address(block@), kind: ErrorKind::StackShapeMismatch })
            } else {
                spec_run_block(spec_entry_shape(inputs@), block@, pool@) == Err::<
                    StackShape,
                    Failure,
                >(f)
            },
        },
{
    let mut stack = match Stack::new(inputs) {
        Ok(s) => s,
        Err(kind) => {
            let address = if block.len() > 0 {
                block[0].0
            } else {
                0
            };
            return Err(Failure { address, kind });
        },
    };
    let mut idx: usize = 0;
    proof {
        assert(block@.skip(0) =~= block@);
    }
    while idx < block.len()
        invariant
            idx <= block@.len(),
            stacks_agree(inputs@),
            spec_run_block(spec_entry_shape(inputs@), block@, pool@) == spec_run_block(
                stack@,
                block@.skip(idx as int),
                pool@,
            ),
        decreases block@.len() - idx,
    {
        let pair = &block[idx];
        proof {
            assert(block@.skip(idx as int)[0] == block@[idx as int]);
        }
        match instruction_effect(&mut stack, &pair.1, pool) {
            Ok(_) => {},
            Err(kind) => {
                return Err(Failure { address: pair.0, kind });
            },
        }
        proof {
            assert(block@.skip(idx as int).skip(1) =~= block@.skip(idx as int + 1));
        }
        idx += 1;
    }
    proof {
        assert(block@.skip(block@.len() as int) =~= Seq::<(u32, Instruction)>::empty());
    }
    Ok(stack)
}

} // verus!
