//! The register-machine instruction set.
use vstd::prelude::*;
use crate::convert::TruncOp;
use crate::value::{BinaryOp, TrapCode, UnaryOp};

verus! {

/// A register: an index into the window of the executing frame.
#[derive(Clone, Copy, Debug, PartialEq, Eq, Structural)]
pub struct Reg(pub i16);

/// `len` registers from `span` on.
#[derive(Clone, Copy, Debug, PartialEq, Eq, Structural)]
pub struct BoundedRegSpan {
    pub span: Reg,
    pub len: u16,
}

/// How many bytes a load reads and how it widens them.
#[derive(Clone, Copy, Debug, PartialEq, Eq, Structural)]
pub enum LoadKind {
    I32,
    I64,
    F32,
    F64,
    I32From8S,
    I32From8U,
    I32From16S,
    I32From16U,
    I64From8S,
    I64From8U,
    I64From16S,
    I64From16U,
    I64From32S,
    I64From32U,
}

/// How many bytes of a cell a store writes.
#[derive(Clone, Copy, Debug, PartialEq, Eq, Structural)]
pub enum StoreKind {
    I32,
    I64,
    F32,
    F64,
    I32To8,
    I32To16,
    I64To8,
    I64To16,
    I64To32,
}

/// Float operations of one operand, and conversions to floats.
#[derive(Clone, Copy, Debug, PartialEq, Eq, Structural)]
pub enum FloatUnaryOp {
    F32Ceil,
    F32Floor,
    F32Trunc,
    F32Nearest,
    F32Sqrt,
    F64Ceil,
    F64Floor,
    F64Trunc,
    F64Nearest,
    F64Sqrt,
    F32ConvertI32S,
    F32ConvertI32U,
    F32ConvertI64S,
    F32ConvertI64U,
    F64ConvertI32S,
    F64ConvertI32U,
    F64ConvertI64S,
    F64ConvertI64U,
    F32DemoteF64,
    F64PromoteF32,
}

/// Float arithmetic of two operands.
#[derive(Clone, Copy, Debug, PartialEq, Eq, Structural)]
pub enum FloatBinaryOp {
    F32Add,
    F32Sub,
    F32Mul,
    F32Div,
    F64Add,
    F64Sub,
    F64Mul,
    F64Div,
}

/// A float operation together with the bits of its operands.
#[derive(Clone, Copy, Debug, PartialEq, Eq, Structural)]
pub enum FloatCall {
    Unary { op: FloatUnaryOp, input: u64 },
    Binary { op: FloatBinaryOp, lhs: u64, rhs: u64 },
}

/// One word of code.
///
/// `Const32` is a parameter word: it only carries the 32-bit offset of the
/// `Load` or `Store` right before it and is never executed itself.
#[derive(Clone, Copy, Debug, PartialEq, Eq, Structural)]
pub enum Instruction {
    Const32 { value: u32 },
    Trap { trap_code: TrapCode },
    ConsumeFuel { amount: u64 },
    Return,
    ReturnReg { value: Reg },
    ReturnImm32 { value: u32 },
    ReturnSpan { values: Reg, len: u16 },
    ReturnNez { condition: Reg },
    ReturnNezReg { condition: Reg, value: Reg },
    ReturnNezSpan { condition: Reg, values: BoundedRegSpan },
    Branch { offset: i32 },
    BranchTable { index: Reg, len_targets: u32 },
    BranchCmp { op: BinaryOp, lhs: Reg, rhs: Reg, offset: i32 },
    BranchCmpImm { op: BinaryOp, lhs: Reg, rhs: i16, offset: i32 },
    Copy { result: Reg, value: Reg },
    CopyImm32 { result: Reg, value: u32 },
    CopyI64Imm32 { result: Reg, value: i32 },
    CopySpan { results: Reg, values: Reg, len: u16 },
    CopySpanNonOverlapping { results: Reg, values: Reg, len: u16 },
    Select { result: Reg, condition: Reg, lhs: Reg, rhs: Reg },
    Unary { op: UnaryOp, result: Reg, input: Reg },
    Binary { op: BinaryOp, result: Reg, lhs: Reg, rhs: Reg },
    BinaryImm16 { op: BinaryOp, result: Reg, lhs: Reg, rhs: i16 },
    BinaryImm16Lhs { op: BinaryOp, result: Reg, lhs: i16, rhs: Reg },
    Truncate { op: TruncOp, result: Reg, input: Reg },
    TruncateSat { op: TruncOp, result: Reg, input: Reg },
    Load { kind: LoadKind, result: Reg, ptr: Reg },
    Store { kind: StoreKind, ptr: Reg, value: Reg },
    MemorySize { result: Reg },
    MemoryFill { dst: Reg, value: Reg, len: Reg },
    MemoryCopy { dst: Reg, src: Reg, len: Reg },
    TableGet { result: Reg, index: Reg },
    TableSet { index: Reg, value: Reg },
    TableSize { result: Reg },
    MemoryInit { segment: u32, dst: Reg, src: Reg, len: Reg },
    DataDrop { segment: u32 },
    GlobalSetImm16 { global: u32, value: i16 },
    TableGrow { result: Reg, delta: Reg, init: Reg },
    TableFill { dst: Reg, value: Reg, len: Reg },
    TableCopy { dst: Reg, src: Reg, len: Reg },
    TableInit { segment: u32, dst: Reg, src: Reg, len: Reg },
    ElemDrop { segment: u32 },
    BranchNezCopy { condition: Reg, result: Reg, value: Reg, offset: i32 },
    BranchNezCopyImm32 { condition: Reg, result: Reg, value: u32, offset: i32 },
    ReturnI64Imm32 { value: i32 },
    MemoryGrow { result: Reg, delta: Reg },
    GlobalGet { result: Reg, global: u32 },
    GlobalSet { global: u32, value: Reg },
    RefFunc { result: Reg, func: u32 },
    Call { func: u32, results: Reg, params: Reg, len_params: u16 },
    CallIndirect { func_type: u32, index: Reg, results: Reg, params: Reg, len_params: u16 },
    ReturnCall { func: u32, params: Reg, len_params: u16 },
    ReturnCallIndirect { func_type: u32, index: Reg, params: Reg, len_params: u16 },
    FloatUnary { op: FloatUnaryOp, result: Reg, input: Reg },
    FloatBinary { op: FloatBinaryOp, result: Reg, lhs: Reg, rhs: Reg },
}

/// The number of code words an instruction occupies, parameter words included.
pub open spec fn instr_width(instr: Instruction) -> nat {
    match instr {
        Instruction::Load { .. } | Instruction::Store { .. } => 2,
        _ => 1,
    }
}

/// Instructions that may move the instruction pointer elsewhere than to the
/// next instruction: branches, returns and calls.
pub open spec fn is_control(instr: Instruction) -> bool {
    match instr {
        Instruction::Return { .. }
        | Instruction::ReturnReg { .. }
        | Instruction::ReturnImm32 { .. }
        | Instruction::ReturnSpan { .. }
        | Instruction::ReturnNez { .. }
        | Instruction::ReturnNezReg { .. }
        | Instruction::ReturnNezSpan { .. }
        | Instruction::Branch { .. }
        | Instruction::BranchTable { .. }
        | Instruction::BranchCmp { .. }
        | Instruction::BranchCmpImm { .. }
        | Instruction::Call { .. }
        | Instruction::CallIndirect { .. }
        | Instruction::ReturnCall { .. }
        | Instruction::ReturnCallIndirect { .. }
        | Instruction::BranchNezCopy { .. }
        | Instruction::BranchNezCopyImm32 { .. }
        | Instruction::ReturnI64Imm32 { .. } => true,
        _ => false,
    }
}

/// The bytes a load reads.
pub open spec fn load_width(kind: LoadKind) -> nat {
    match kind {
        LoadKind::I32 | LoadKind::F32 | LoadKind::I64From32S | LoadKind::I64From32U => 4,
        LoadKind::I64 | LoadKind::F64 => 8,
        LoadKind::I32From8S | LoadKind::I32From8U | LoadKind::I64From8S | LoadKind::I64From8U => 1,
        LoadKind::I32From16S | LoadKind::I32From16U | LoadKind::I64From16S
        | LoadKind::I64From16U => 2,
    }
}

/// The bytes a store writes.
pub open spec fn store_width(kind: StoreKind) -> nat {
    match kind {
        StoreKind::I32 | StoreKind::F32 | StoreKind::I64To32 => 4,
        StoreKind::I64 | StoreKind::F64 => 8,
        StoreKind::I32To8 | StoreKind::I64To8 => 1,
        StoreKind::I32To16 | StoreKind::I64To16 => 2,
    }
}

impl LoadKind {
    /// The bytes this load reads.
    pub fn width(self) -> (r: u64)
        ensures
            r == load_width(self),
    {
        match self {
            LoadKind::I32 | LoadKind::F32 | LoadKind::I64From32S | LoadKind::I64From32U => 4,
            LoadKind::I64 | LoadKind::F64 => 8,
            LoadKind::I32From8S | LoadKind::I32From8U | LoadKind::I64From8S
            | LoadKind::I64From8U => 1,
            LoadKind::I32From16S | LoadKind::I32From16U | LoadKind::I64From16S
            | LoadKind::I64From16U => 2,
        }
    }
}

impl StoreKind {
    /// The bytes this store writes.
    pub fn width(self) -> (r: u64)
        ensures
            r == store_width(self),
    {
        match self {
            StoreKind::I32 | StoreKind::F32 | StoreKind::I64To32 => 4,
            StoreKind::I64 | StoreKind::F64 => 8,
            StoreKind::I32To8 | StoreKind::I64To8 => 1,
            StoreKind::I32To16 | StoreKind::I64To16 => 2,
        }
    }
}

} // verus!
