//! The decoded instruction model: one variant per JVM opcode, carrying
//! plain values only. Branch payloads are absolute bytecode addresses,
//! already resolved from the encoded relative offsets; constant-pool
//! references are plain entry numbers.

use vstd::prelude::*;

verus! {

/// One decoded JVM instruction.
#[allow(inconsistent_fields)]
#[derive(Clone, Debug)]
pub enum Instruction {
    AALoad,
    AAStore,
    AConstNull,
    ALoad { index: u8 },
    ALoadW { index: u16 },
    ALoad0,
    ALoad1,
    ALoad2,
    ALoad3,
    ANewArray { index: u16 },
    AReturn,
    ArrayLength,
    AStore { index: u8 },
    AStoreW { index: u16 },
    AStore0,
    AStore1,
    AStore2,
    AStore3,
    AThrow,
    BALoad,
    BAStore,
    BIPush { value: i8 },
    CALoad,
    CAStore,
    CheckCast { index: u16 },
    D2F,
    D2I,
    D2L,
    DAdd,
    DALoad,
    DAStore,
    DCmpG,
    DCmpL,
    DConst0,
    DConst1,
    DDiv,
    DLoad { index: u8 },
    DLoadW { index: u16 },
    DLoad0,
    DLoad1,
    DLoad2,
    DLoad3,
    DMul,
    DNeg,
    DRem,
    DReturn,
    DStore { index: u8 },
    DStoreW { index: u16 },
    DStore0,
    DStore1,
    DStore2,
    DStore3,
    DSub,
    Dup,
    DupX1,
    DupX2,
    Dup2,
    Dup2X1,
    Dup2X2,
    F2D,
    F2I,
    F2L,
    FAdd,
    FALoad,
    FAStore,
    FCmpG,
    FCmpL,
    FConst0,
    FConst1,
    FConst2,
    FDiv,
    FLoad { index: u8 },
    FLoadW { index: u16 },
    FLoad0,
    FLoad1,
    FLoad2,
    FLoad3,
    FMul,
    FNeg,
    FRem,
    FReturn,
    FStore { index: u8 },
    FStoreW { index: u16 },
    FStore0,
    FStore1,
    FStore2,
    FStore3,
    FSub,
    GetField { index: u16 },
    GetStatic { index: u16 },
    Goto { target: u32 },
    GotoW { target: u32 },
    I2B,
    I2C,
    I2D,
    I2F,
    I2L,
    I2S,
    IAdd,
    IALoad,
    IAnd,
    IAStore,
    IConstM1,
    IConst0,
    IConst1,
    IConst2,
    IConst3,
    IConst4,
    IConst5,
    IDiv,
    IfACmpEq { target: u32 },
    IfACmpNe { target: u32 },
    IfICmpEq { target: u32 },
    IfICmpNe { target: u32 },
    IfICmpLt { target: u32 },
    IfICmpGe { target: u32 },
    IfICmpGt { target: u32 },
    IfICmpLe { target: u32 },
    IfEq { target: u32 },
    IfNe { target: u32 },
    IfLt { target: u32 },
    IfGe { target: u32 },
    IfGt { target: u32 },
    IfLe { target: u32 },
    IfNonNull { target: u32 },
    IfNull { target: u32 },
    IInc { index: u8, value: i8 },
    IIncW { index: u16, value: i16 },
    ILoad { index: u8 },
    ILoadW { index: u16 },
    ILoad0,
    ILoad1,
    ILoad2,
    ILoad3,
    IMul,
    INeg,
    InstanceOf { index: u16 },
    InvokeDynamic { index: u16 },
    InvokeInterface { index: u16, count: u8 },
    InvokeSpecial { index: u16 },
    InvokeStatic { index: u16 },
    InvokeVirtual { index: u16 },
    IOr,
    IRem,
    IReturn,
    IShL,
    IShR,
    IStore { index: u8 },
    IStoreW { index: u16 },
    IStore0,
    IStore1,
    IStore2,
    IStore3,
    ISub,
    IUShR,
    IXor,
    JSr { target: u32 },
    JSrW { target: u32 },
    L2D,
    L2F,
    L2I,
    LAdd,
    LALoad,
    LAnd,
    LAStore,
    LCmp,
    LConst0,
    LConst1,
    LdC { index: u16 },
    LdCW { index: u16 },
    LdC2W { index: u16 },
    LDiv,
    LLoad { index: u8 },
    LLoadW { index: u16 },
    LLoad0,
    LLoad1,
    LLoad2,
    LLoad3,
    LMul,
    LNeg,
    LookupSwitch { default_target: u32, targets: Vec<u32> },
    LOr,
    LRem,
    LReturn,
    LShL,
    LShR,
    LStore { index: u8 },
    LStoreW { index: u16 },
    LStore0,
    LStore1,
    LStore2,
    LStore3,
    LSub,
    LUShR,
    LXor,
    MonitorEnter,
    MonitorExit,
    MultiANewArray { index: u16, dimensions: u8 },
    New { index: u16 },
    NewArray { atype: u8 },
    Nop,
    Pop,
    Pop2,
    PutField { index: u16 },
    PutStatic { index: u16 },
    Ret { index: u8 },
    RetW { index: u16 },
    Return,
    SALoad,
    SAStore,
    SIPush { value: i16 },
    Swap,
    TableSwitch { default_target: u32, targets: Vec<u32> },
}

/// The branch target addresses an instruction may transfer control to,
/// besides falling through: one for a branch, all table or lookup entries
/// plus the default for a switch, none for anything else.
pub open spec fn spec_targets(i: Instruction) -> Seq<u32> {
    match i {
        Instruction::Goto { target } => seq![target],
        Instruction::GotoW { target } => seq![target],
        Instruction::JSr { target } => seq![target],
        Instruction::JSrW { target } => seq![target],
        Instruction::IfACmpEq { target } => seq![target],
        Instruction::IfACmpNe { target } => seq![target],
        Instruction::IfICmpEq { target } => seq![target],
        Instruction::IfICmpNe { target } => seq![target],
        Instruction::IfICmpLt { target } => seq![target],
        Instruction::IfICmpGe { target } => seq![target],
        Instruction::IfICmpGt { target } => seq![target],
        Instruction::IfICmpLe { target } => seq![target],
        Instruction::IfEq { target } => seq![target],
        Instruction::IfNe { target } => seq![target],
        Instruction::IfLt { target } => seq![target],
        Instruction::IfGe { target } => seq![target],
        Instruction::IfGt { target } => seq![target],
        Instruction::IfLe { target } => seq![target],
        Instruction::IfNonNull { target } => seq![target],
        Instruction::IfNull { target } => seq![target],
        Instruction::LookupSwitch { default_target, targets } => seq![default_target] + targets@,
        Instruction::TableSwitch { default_target, targets } => seq![default_target] + targets@,
        _ => Seq::empty(),
    }
}

/// Whether the instruction transfers control away from the straight line:
/// a branch, switch, subroutine jump or return, method return, or throw.
/// Such an instruction ends its basic block.
pub open spec fn spec_is_terminator(i: Instruction) -> bool {
    match i {
        Instruction::Goto { .. } => true,
        Instruction::GotoW { .. } => true,
        Instruction::JSr { .. } => true,
        Instruction::JSrW { .. } => true,
        Instruction::IfACmpEq { .. } => true,
        Instruction::IfACmpNe { .. } => true,
        Instruction::IfICmpEq { .. } => true,
        Instruction::IfICmpNe { .. } => true,
        Instruction::IfICmpLt { .. } => true,
        Instruction::IfICmpGe { .. } => true,
        Instruction::IfICmpGt { .. } => true,
        Instruction::IfICmpLe { .. } => true,
        Instruction::IfEq { .. } => true,
        Instruction::IfNe { .. } => true,
        Instruction::IfLt { .. } => true,
        Instruction::IfGe { .. } => true,
        Instruction::IfGt { .. } => true,
        Instruction::IfLe { .. } => true,
        Instruction::IfNonNull { .. } => true,
        Instruction::IfNull { .. } => true,
        Instruction::LookupSwitch { .. } => true,
        Instruction::TableSwitch { .. } => true,
        Instruction::Ret { .. } => true,
        Instruction::RetW { .. } => true,
        Instruction::IReturn => true,
        Instruction::LReturn => true,
        Instruction::FReturn => true,
        Instruction::DReturn => true,
        Instruction::AReturn => true,
        Instruction::Return => true,
        Instruction::AThrow => true,
        _ => false,
    }
}

/// Whether the address after this instruction must begin a new block:
/// true for every terminator, and for the narrowing cast, whose failure
/// point is isolated as a block boundary.
pub open spec fn spec_marks_successor(i: Instruction) -> bool {
    spec_is_terminator(i) || i is CheckCast
}

/// Whether control can continue into the textually next instruction:
/// everything except unconditional jumps, switches, subroutine returns,
/// method returns and throws. Conditional branches fall through.
pub open spec fn spec_falls_through(i: Instruction) -> bool {
    match i {
        Instruction::Goto { .. } => false,
        Instruction::GotoW { .. } => false,
        Instruction::JSr { .. } => false,
        Instruction::JSrW { .. } => false,
        Instruction::LookupSwitch { .. } => false,
        Instruction::TableSwitch { .. } => false,
        Instruction::Ret { .. } => false,
        Instruction::RetW { .. } => false,
        Instruction::IReturn => false,
        Instruction::LReturn => false,
        Instruction::FReturn => false,
        Instruction::DReturn => false,
        Instruction::AReturn => false,
        Instruction::Return => false,
        Instruction::AThrow => false,
        _ => true,
    }
}

impl Instruction {
    /// Whether this instruction ends its basic block.
    pub fn is_terminator(&self) -> (r: bool)
        ensures
            r == spec_is_terminator(*self),
    {
        match self {
            Instruction::Goto { .. }
            | Instruction::GotoW { .. }
            | Instruction::JSr { .. }
            | Instruction::JSrW { .. }
            | Instruction::IfACmpEq { .. }
            | Instruction::IfACmpNe { .. }
            | Instruction::IfICmpEq { .. }
            | Instruction::IfICmpNe { .. }
            | Instruction::IfICmpLt { .. }
            | Instruction::IfICmpGe { .. }
            | Instruction::IfICmpGt { .. }
            | Instruction::IfICmpLe { .. }
            | Instruction::IfEq { .. }
            | Instruction::IfNe { .. }
            | Instruction::IfLt { .. }
            | Instruction::IfGe { .. }
            | Instruction::IfGt { .. }
            | Instruction::IfLe { .. }
            | Instruction::IfNonNull { .. }
            | Instruction::IfNull { .. }
            | Instruction::LookupSwitch { .. }
            | Instruction::TableSwitch { .. }
            | Instruction::Ret { .. }
            | Instruction::RetW { .. }
            | Instruction::IReturn
            | Instruction::LReturn
            | Instruction::FReturn
            | Instruction::DReturn
            | Instruction::AReturn
            | Instruction::Return
            | Instruction::AThrow => true,
            _ => false,
        }
    }

    /// Whether the next instruction's address must begin a new block.
    pub fn marks_successor(&self) -> (r: bool)
        ensures
            r == spec_marks_successor(*self),
    {
        self.is_terminator() || matches!(self, Instruction::CheckCast { .. })
    }

    /// Whether control can continue into the textually next instruction.
    pub fn falls_through(&self) -> (r: bool)
        ensures
            r == spec_falls_through(*self),
    {
        match self {
            Instruction::Goto { .. }
            | Instruction::GotoW { .. }
            | Instruction::JSr { .. }
            | Instruction::JSrW { .. }
            | Instruction::LookupSwitch { .. }
            | Instruction::TableSwitch { .. }
            | Instruction::Ret { .. }
            | Instruction::RetW { .. }
            | Instruction::IReturn
            | Instruction::LReturn
            | Instruction::FReturn
            | Instruction::DReturn
            | Instruction::AReturn
            | Instruction::Return
            | Instruction::AThrow => false,
            _ => true,
        }
    }

    /// Whether `a` is among this instruction's branch targets.
    pub fn has_target(&self, a: u32) -> (r: bool)
        ensures
            r == spec_targets(*self).contains(a),
    {
        match self {
            Instruction::Goto { target }
            | Instruction::GotoW { target }
            | Instruction::JSr { target }
            | Instruction::JSrW { target }
            | Instruction::IfACmpEq { target }
            | Instruction::IfACmpNe { target }
            | Instruction::IfICmpEq { target }
            | Instruction::IfICmpNe { target }
            | Instruction::IfICmpLt { target }
            | Instruction::IfICmpGe { target }
            | Instruction::IfICmpGt { target }
            | Instruction::IfICmpLe { target }
            | Instruction::IfEq { target }
            | Instruction::IfNe { target }
            | Instruction::IfLt { target }
            | Instruction::IfGe { target }
            | Instruction::IfGt { target }
            | Instruction::IfLe { target }
            | Instruction::IfNonNull { target }
            | Instruction::IfNull { target } => {
                proof {
                    if *target == a {
                        assert(spec_targets(*self)[0] == a);
                    } else {
                        assert(forall|m: int|
                            0 <= m < spec_targets(*self).len() ==> spec_targets(*self)[m] != a);
                    }
                }
                *target == a
            },
            Instruction::LookupSwitch { default_target, targets }
            | Instruction::TableSwitch { default_target, targets } => {
                if *default_target == a {
                    proof {
                        assert(spec_targets(*self)[0] == a);
                    }
                    return true;
                }
                let mut m: usize = 0;
                while m < targets.len()
                    invariant
                        m <= targets@.len(),
                        spec_targets(*self) == seq![*default_target] + targets@,
                        forall|t: int| 0 <= t < m ==> targets@[t] != a,
                    decreases targets@.len() - m,
                {
                    if targets[m] == a {
                        proof {
                            assert(spec_targets(*self)[m + 1] == a);
                        }
                        return true;
                    }
                    m += 1;
                }
                proof {
                    assert(forall|t: int|
                        0 <= t < spec_targets(*self).len() ==> spec_targets(*self)[t] != a);
                }
                false
            },
            _ => {
                proof {
                    assert(spec_targets(*self) =~= Seq::<u32>::empty());
                }
                false
            },
        }
    }

    /// The branch target addresses this instruction may jump to.
    pub fn targets(&self) -> (r: Vec<u32>)
        ensures
            r@ == spec_targets(*self),
    {
        match self {
            Instruction::Goto { target }
            | Instruction::GotoW { target }
            | Instruction::JSr { target }
            | Instruction::JSrW { target }
            | Instruction::IfACmpEq { target }
            | Instruction::IfACmpNe { target }
            | Instruction::IfICmpEq { target }
            | Instruction::IfICmpNe { target }
            | Instruction::IfICmpLt { target }
            | Instruction::IfICmpGe { target }
            | Instruction::IfICmpGt { target }
            | Instruction::IfICmpLe { target }
            | Instruction::IfEq { target }
            | Instruction::IfNe { target }
            | Instruction::IfLt { target }
            | Instruction::IfGe { target }
            | Instruction::IfGt { target }
            | Instruction::IfLe { target }
            | Instruction::IfNonNull { target }
            | Instruction::IfNull { target } => {
                let mut out: Vec<u32> = Vec::new();
                out.push(*target);
                proof {
                    assert(out@ =~= spec_targets(*self));
                }
                out
            },
            Instruction::LookupSwitch { default_target, targets }
            | Instruction::TableSwitch { default_target, targets } => {
                let mut out: Vec<u32> = Vec::new();
                out.push(*default_target);
                let mut i: usize = 0;
                while i < targets.len()
                    invariant
                        i <= targets@.len(),
                        out@ == seq![*default_target].add(targets@.take(i as int)),
                    decreases targets@.len() - i,
                {
                    out.push(targets[i]);
                    proof {
                        assert(out@ =~= seq![*default_target].add(targets@.take(i + 1 as int)));
                    }
                    i += 1;
                }
                proof {
                    assert(targets@.take(targets@.len() as int) =~= targets@);
                    assert(out@ =~= spec_targets(*self));
                }
                out
            },
            _ => {
                let out: Vec<u32> = Vec::new();
                proof {
                    assert(out@ =~= spec_targets(*self));
                }
                out
            },
        }
    }
}

} // verus!
