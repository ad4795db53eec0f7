//! The runtime signature: a running fingerprint of executed instructions.
use vstd::prelude::*;
use crate::instr::Instruction;
use crate::value::{BinaryOp, UnaryOp};

verus! {

/// The multiplier of the final mixing step.
pub const MIX_MULTIPLIER: u64 = 0xdfd951778ea84a0f;

/// The mixing function applied after each instruction's value is folded in.
pub open spec fn mix(x: u64) -> u64 {
    let y = x ^ (x >> 27u64);
    let z = y ^ (y << 23u64);
    ((z as nat * MIX_MULTIPLIER as nat) % 0x1_0000_0000_0000_0000) as u64
}

/// Mixes `x` as [`mix`] says.
pub fn mix_bits(x: u64) -> (r: u64)
    ensures
        r == mix(x),
{
    let y = x ^ (x >> 27u64);
    let z = y ^ (y << 23u64);
    z.wrapping_mul(MIX_MULTIPLIER)
}

/// Folds `v` into the signature `sig`.
pub fn update_runtime_signature(sig: u64, v: u64) -> (r: u64)
    ensures
        r == mix(sig ^ v),
{
    mix_bits(sig ^ v)
}

/// A number per binary operation, distinct for distinct operations.
pub open spec fn binary_op_index(op: BinaryOp) -> u64 {
    match op {
        BinaryOp::I32Add => 0,
        BinaryOp::I32Sub => 1,
        BinaryOp::I32Mul => 2,
        BinaryOp::I32DivS => 3,
        BinaryOp::I32DivU => 4,
        BinaryOp::I32RemS => 5,
        BinaryOp::I32RemU => 6,
        BinaryOp::I32And => 7,
        BinaryOp::I32Or => 8,
        BinaryOp::I32Xor => 9,
        BinaryOp::I32AndEqz => 10,
        BinaryOp::I32OrEqz => 11,
        BinaryOp::I32XorEqz => 12,
        BinaryOp::I32Shl => 13,
        BinaryOp::I32ShrS => 14,
        BinaryOp::I32ShrU => 15,
        BinaryOp::I32Rotl => 16,
        BinaryOp::I32Rotr => 17,
        BinaryOp::I32Eq => 18,
        BinaryOp::I32Ne => 19,
        BinaryOp::I32LtS => 20,
        BinaryOp::I32LtU => 21,
        BinaryOp::I32LeS => 22,
        BinaryOp::I32LeU => 23,
        BinaryOp::I32GtS => 24,
        BinaryOp::I32GtU => 25,
        BinaryOp::I32GeS => 26,
        BinaryOp::I32GeU => 27,
        BinaryOp::I64Add => 28,
        BinaryOp::I64Sub => 29,
        BinaryOp::I64Mul => 30,
        BinaryOp::I64DivS => 31,
        BinaryOp::I64DivU => 32,
        BinaryOp::I64RemS => 33,
        BinaryOp::I64RemU => 34,
        BinaryOp::I64And => 35,
        BinaryOp::I64Or => 36,
        BinaryOp::I64Xor => 37,
        BinaryOp::I64Shl => 38,
        BinaryOp::I64ShrS => 39,
        BinaryOp::I64ShrU => 40,
        BinaryOp::I64Rotl => 41,
        BinaryOp::I64Rotr => 42,
        BinaryOp::I64Eq => 43,
        BinaryOp::I64Ne => 44,
        BinaryOp::I64LtS => 45,
        BinaryOp::I64LtU => 46,
        BinaryOp::I64LeS => 47,
        BinaryOp::I64LeU => 48,
        BinaryOp::I64GtS => 49,
        BinaryOp::I64GtU => 50,
        BinaryOp::I64GeS => 51,
        BinaryOp::I64GeU => 52,
        BinaryOp::F32Copysign => 53,
        BinaryOp::F64Copysign => 54,
        BinaryOp::F32Eq => 55,
        BinaryOp::F32Ne => 56,
        BinaryOp::F32Lt => 57,
        BinaryOp::F32Gt => 58,
        BinaryOp::F32Le => 59,
        BinaryOp::F32Ge => 60,
        BinaryOp::F64Eq => 61,
        BinaryOp::F64Ne => 62,
        BinaryOp::F64Lt => 63,
        BinaryOp::F64Gt => 64,
        BinaryOp::F64Le => 65,
        BinaryOp::F64Ge => 66,
        BinaryOp::F32Min => 67,
        BinaryOp::F32Max => 68,
        BinaryOp::F64Min => 69,
        BinaryOp::F64Max => 70,
    }
}

/// A number per unary operation, distinct for distinct operations.
pub open spec fn unary_op_index(op: UnaryOp) -> u64 {
    match op {
        UnaryOp::I32Eqz => 0,
        UnaryOp::I32Clz => 1,
        UnaryOp::I32Ctz => 2,
        UnaryOp::I32Popcnt => 3,
        UnaryOp::I64Eqz => 4,
        UnaryOp::I64Clz => 5,
        UnaryOp::I64Ctz => 6,
        UnaryOp::I64Popcnt => 7,
        UnaryOp::I32WrapI64 => 8,
        UnaryOp::I64ExtendI32S => 9,
        UnaryOp::I64ExtendI32U => 10,
        UnaryOp::I32Extend8S => 11,
        UnaryOp::I32Extend16S => 12,
        UnaryOp::I64Extend8S => 13,
        UnaryOp::I64Extend16S => 14,
        UnaryOp::I64Extend32S => 15,
        UnaryOp::F32Abs => 16,
        UnaryOp::F32Neg => 17,
        UnaryOp::F64Abs => 18,
        UnaryOp::F64Neg => 19,
        UnaryOp::I32ReinterpretF32 => 20,
        UnaryOp::I64ReinterpretF64 => 21,
        UnaryOp::F32ReinterpretI32 => 22,
        UnaryOp::F64ReinterpretI64 => 23,
    }
}

/// The number [`binary_op_index`] gives `op`.
pub fn binary_op_tag(op: BinaryOp) -> (r: u64)
    ensures
        r == binary_op_index(op),
{
    match op {
        BinaryOp::I32Add => 0,
        BinaryOp::I32Sub => 1,
        BinaryOp::I32Mul => 2,
        BinaryOp::I32DivS => 3,
        BinaryOp::I32DivU => 4,
        BinaryOp::I32RemS => 5,
        BinaryOp::I32RemU => 6,
        BinaryOp::I32And => 7,
        BinaryOp::I32Or => 8,
        BinaryOp::I32Xor => 9,
        BinaryOp::I32AndEqz => 10,
        BinaryOp::I32OrEqz => 11,
        BinaryOp::I32XorEqz => 12,
        BinaryOp::I32Shl => 13,
        BinaryOp::I32ShrS => 14,
        BinaryOp::I32ShrU => 15,
        BinaryOp::I32Rotl => 16,
        BinaryOp::I32Rotr => 17,
        BinaryOp::I32Eq => 18,
        BinaryOp::I32Ne => 19,
        BinaryOp::I32LtS => 20,
        BinaryOp::I32LtU => 21,
        BinaryOp::I32LeS => 22,
        BinaryOp::I32LeU => 23,
        BinaryOp::I32GtS => 24,
        BinaryOp::I32GtU => 25,
        BinaryOp::I32GeS => 26,
        BinaryOp::I32GeU => 27,
        BinaryOp::I64Add => 28,
        BinaryOp::I64Sub => 29,
        BinaryOp::I64Mul => 30,
        BinaryOp::I64DivS => 31,
        BinaryOp::I64DivU => 32,
        BinaryOp::I64RemS => 33,
        BinaryOp::I64RemU => 34,
        BinaryOp::I64And => 35,
        BinaryOp::I64Or => 36,
        BinaryOp::I64Xor => 37,
        BinaryOp::I64Shl => 38,
        BinaryOp::I64ShrS => 39,
        BinaryOp::I64ShrU => 40,
        BinaryOp::I64Rotl => 41,
        BinaryOp::I64Rotr => 42,
        BinaryOp::I64Eq => 43,
        BinaryOp::I64Ne => 44,
        BinaryOp::I64LtS => 45,
        BinaryOp::I64LtU => 46,
        BinaryOp::I64LeS => 47,
        BinaryOp::I64LeU => 48,
        BinaryOp::I64GtS => 49,
        BinaryOp::I64GtU => 50,
        BinaryOp::I64GeS => 51,
        BinaryOp::I64GeU => 52,
        BinaryOp::F32Copysign => 53,
        BinaryOp::F64Copysign => 54,
        BinaryOp::F32Eq => 55,
        BinaryOp::F32Ne => 56,
        BinaryOp::F32Lt => 57,
        BinaryOp::F32Gt => 58,
        BinaryOp::F32Le => 59,
        BinaryOp::F32Ge => 60,
        BinaryOp::F64Eq => 61,
        BinaryOp::F64Ne => 62,
        BinaryOp::F64Lt => 63,
        BinaryOp::F64Gt => 64,
        BinaryOp::F64Le => 65,
        BinaryOp::F64Ge => 66,
        BinaryOp::F32Min => 67,
        BinaryOp::F32Max => 68,
        BinaryOp::F64Min => 69,
        BinaryOp::F64Max => 70,
    }
}

/// The number [`unary_op_index`] gives `op`.
pub fn unary_op_tag(op: UnaryOp) -> (r: u64)
    ensures
        r == unary_op_index(op),
{
    match op {
        UnaryOp::I32Eqz => 0,
        UnaryOp::I32Clz => 1,
        UnaryOp::I32Ctz => 2,
        UnaryOp::I32Popcnt => 3,
        UnaryOp::I64Eqz => 4,
        UnaryOp::I64Clz => 5,
        UnaryOp::I64Ctz => 6,
        UnaryOp::I64Popcnt => 7,
        UnaryOp::I32WrapI64 => 8,
        UnaryOp::I64ExtendI32S => 9,
        UnaryOp::I64ExtendI32U => 10,
        UnaryOp::I32Extend8S => 11,
        UnaryOp::I32Extend16S => 12,
        UnaryOp::I64Extend8S => 13,
        UnaryOp::I64Extend16S => 14,
        UnaryOp::I64Extend32S => 15,
        UnaryOp::F32Abs => 16,
        UnaryOp::F32Neg => 17,
        UnaryOp::F64Abs => 18,
        UnaryOp::F64Neg => 19,
        UnaryOp::I32ReinterpretF32 => 20,
        UnaryOp::I64ReinterpretF64 => 21,
        UnaryOp::F32ReinterpretI32 => 22,
        UnaryOp::F64ReinterpretI64 => 23,
    }
}

/// The constant an instruction contributes to the signature: one per kind
/// of instruction, told apart further by its operation where it has one.
pub open spec fn instr_prime(instr: Instruction) -> u64 {
    match instr {
        Instruction::Const32 { .. } => 0xf16d67d2a7dbc15b,
        Instruction::Trap { .. } => 0xd97e76e4a08a4169,
        Instruction::ConsumeFuel { .. } => 0xac6e6dcc9eb6cbff,
        Instruction::Return => 0xa36564ae5f8bcf13,
        Instruction::ReturnReg { .. } => 0xa3fb8b494d435729,
        Instruction::ReturnImm32 { .. } => 0xd8a580b0d15cf0ab,
        Instruction::ReturnSpan { .. } => 0xc118754f6fd4adc1,
        Instruction::ReturnNez { .. } => 0xa90fbb32f7b47dc7,
        Instruction::ReturnNezReg { .. } => 0xa1bf533d0d3f0635,
        Instruction::Branch { .. } => 0xfe99000769fe6ddd,
        Instruction::BranchTable { .. } => 0xe2ade8751fc2e9a3,
        Instruction::BranchCmp { op, .. } => 0xc2c831b19dd7b0d3 ^ binary_op_index(op),
        Instruction::BranchCmpImm { op, .. } => 0xa9504bf5d4a47f69 ^ binary_op_index(op),
        Instruction::Copy { .. } => 0xcc68c4fcdd5df33b,
        Instruction::CopyImm32 { .. } => 0xc574d8a05da369d3,
        Instruction::CopyI64Imm32 { .. } => 0xcad08b87db831f77,
        Instruction::CopySpan { .. } => 0xc590acad04f1f7b9,
        Instruction::CopySpanNonOverlapping { .. } => 0xd4d918a2cfb5323d,
        Instruction::Select { .. } => 0xc4999a7e79065d73,
        Instruction::Unary { op, .. } => 0xf4fbdab953a405df ^ unary_op_index(op),
        Instruction::Binary { op, .. } => 0x98a04abe0fa4ce01 ^ binary_op_index(op),
        Instruction::BinaryImm16 { op, .. } => 0xa756dc299bd21ea7 ^ binary_op_index(op),
        Instruction::BinaryImm16Lhs { op, .. } => 0xebe5a83153067f95 ^ binary_op_index(op),
        Instruction::ReturnCall { .. } => 0xa4c2e97b1d8f3567,
        Instruction::ReturnCallIndirect { .. } => 0xd3f1a8c64e27b095,
        Instruction::ReturnNezSpan { .. } => 0xec3158e4f69f44df,
        Instruction::MemoryFill { .. } => 0xd1a6f07c3b9e2485,
        Instruction::MemoryCopy { .. } => 0x8f2b6d4e1c7a9303,
        Instruction::TableGet { .. } => 0xc93e7a15f02d6b4f,
        Instruction::TableSet { .. } => 0xa71d4c8e6b35f019,
        Instruction::TableSize { .. } => 0xf4b28e6a1d09c7e3,
        Instruction::MemoryInit { .. } => 0xb6e03d9a27c51f8d,
        Instruction::DataDrop { .. } => 0x95c1a7e4f38b2d61,
        Instruction::GlobalSetImm16 { .. } => 0xe08f4b62d1a7c93b,
        Instruction::TableGrow { .. } => 0xcb7e29f0a3d46815,
        Instruction::TableFill { .. } => 0x9f84c1d6e27b3a0b,
        Instruction::TableCopy { .. } => 0xe4a7305bc9f1d263,
        Instruction::TableInit { .. } => 0xa9d52e80f4c71b37,
        Instruction::ElemDrop { .. } => 0xd76b1f3ae0c4952f,
        Instruction::BranchNezCopy { .. } => 0xb91c6e3f08a5d27d,
        Instruction::BranchNezCopyImm32 { .. } => 0xc58a0f2d7e3b1965,
        Instruction::ReturnI64Imm32 { .. } => 0xe8a6034d312d2135,
        Instruction::FloatUnary { .. } => 0xe5b7d3197a2c4f8b,
        Instruction::FloatBinary { .. } => 0xb3f90c6e51d7a24d,
        Instruction::Truncate { .. } => 0x9d3a2b71c55e8f03,
        Instruction::TruncateSat { .. } => 0xc7e14d0a93b26f59,
        Instruction::Load { .. } => 0xd6adc84185c3b835,
        Instruction::Store { .. } => 0xc77aef230f5cb5c1,
        Instruction::MemorySize { .. } => 0xb288abe58caf78fd,
        Instruction::MemoryGrow { .. } => 0xdd85783639dea14b,
        Instruction::GlobalGet { .. } => 0xc95d435e3bd01389,
        Instruction::GlobalSet { .. } => 0xe448369b7242bd3b,
        Instruction::RefFunc { .. } => 0xd3ed1490c07aec79,
        Instruction::Call { .. } => 0xcbdfc0da7497aca9,
        Instruction::CallIndirect { .. } => 0xd01255cca5331a55,
    }
}

/// The constant [`instr_prime`] gives `instr`.
pub fn opcode_prime(instr: Instruction) -> (r: u64)
    ensures
        r == instr_prime(instr),
{
    match instr {
        Instruction::Const32 { .. } => 0xf16d67d2a7dbc15b,
        Instruction::Trap { .. } => 0xd97e76e4a08a4169,
        Instruction::ConsumeFuel { .. } => 0xac6e6dcc9eb6cbff,
        Instruction::Return => 0xa36564ae5f8bcf13,
        Instruction::ReturnReg { .. } => 0xa3fb8b494d435729,
        Instruction::ReturnImm32 { .. } => 0xd8a580b0d15cf0ab,
        Instruction::ReturnSpan { .. } => 0xc118754f6fd4adc1,
        Instruction::ReturnNez { .. } => 0xa90fbb32f7b47dc7,
        Instruction::ReturnNezReg { .. } => 0xa1bf533d0d3f0635,
        Instruction::Branch { .. } => 0xfe99000769fe6ddd,
        Instruction::BranchTable { .. } => 0xe2ade8751fc2e9a3,
        Instruction::BranchCmp { op, .. } => 0xc2c831b19dd7b0d3 ^ binary_op_tag(op),
        Instruction::BranchCmpImm { op, .. } => 0xa9504bf5d4a47f69 ^ binary_op_tag(op),
        Instruction::Copy { .. } => 0xcc68c4fcdd5df33b,
        Instruction::CopyImm32 { .. } => 0xc574d8a05da369d3,
        Instruction::CopyI64Imm32 { .. } => 0xcad08b87db831f77,
        Instruction::CopySpan { .. } => 0xc590acad04f1f7b9,
        Instruction::CopySpanNonOverlapping { .. } => 0xd4d918a2cfb5323d,
        Instruction::Select { .. } => 0xc4999a7e79065d73,
        Instruction::Unary { op, .. } => 0xf4fbdab953a405df ^ unary_op_tag(op),
        Instruction::Binary { op, .. } => 0x98a04abe0fa4ce01 ^ binary_op_tag(op),
        Instruction::BinaryImm16 { op, .. } => 0xa756dc299bd21ea7 ^ binary_op_tag(op),
        Instruction::BinaryImm16Lhs { op, .. } => 0xebe5a83153067f95 ^ binary_op_tag(op),
        Instruction::ReturnCall { .. } => 0xa4c2e97b1d8f3567,
        Instruction::ReturnCallIndirect { .. } => 0xd3f1a8c64e27b095,
        Instruction::ReturnNezSpan { .. } => 0xec3158e4f69f44df,
        Instruction::MemoryFill { .. } => 0xd1a6f07c3b9e2485,
        Instruction::MemoryCopy { .. } => 0x8f2b6d4e1c7a9303,
        Instruction::TableGet { .. } => 0xc93e7a15f02d6b4f,
        Instruction::TableSet { .. } => 0xa71d4c8e6b35f019,
        Instruction::TableSize { .. } => 0xf4b28e6a1d09c7e3,
        Instruction::MemoryInit { .. } => 0xb6e03d9a27c51f8d,
        Instruction::DataDrop { .. } => 0x95c1a7e4f38b2d61,
        Instruction::GlobalSetImm16 { .. } => 0xe08f4b62d1a7c93b,
        Instruction::TableGrow { .. } => 0xcb7e29f0a3d46815,
        Instruction::TableFill { .. } => 0x9f84c1d6e27b3a0b,
        Instruction::TableCopy { .. } => 0xe4a7305bc9f1d263,
        Instruction::TableInit { .. } => 0xa9d52e80f4c71b37,
        Instruction::ElemDrop { .. } => 0xd76b1f3ae0c4952f,
        Instruction::BranchNezCopy { .. } => 0xb91c6e3f08a5d27d,
        Instruction::BranchNezCopyImm32 { .. } => 0xc58a0f2d7e3b1965,
        Instruction::ReturnI64Imm32 { .. } => 0xe8a6034d312d2135,
        Instruction::FloatUnary { .. } => 0xe5b7d3197a2c4f8b,
        Instruction::FloatBinary { .. } => 0xb3f90c6e51d7a24d,
        Instruction::Truncate { .. } => 0x9d3a2b71c55e8f03,
        Instruction::TruncateSat { .. } => 0xc7e14d0a93b26f59,
        Instruction::Load { .. } => 0xd6adc84185c3b835,
        Instruction::Store { .. } => 0xc77aef230f5cb5c1,
        Instruction::MemorySize { .. } => 0xb288abe58caf78fd,
        Instruction::MemoryGrow { .. } => 0xdd85783639dea14b,
        Instruction::GlobalGet { .. } => 0xc95d435e3bd01389,
        Instruction::GlobalSet { .. } => 0xe448369b7242bd3b,
        Instruction::RefFunc { .. } => 0xd3ed1490c07aec79,
        Instruction::Call { .. } => 0xcbdfc0da7497aca9,
        Instruction::CallIndirect { .. } => 0xd01255cca5331a55,
    }
}

} // verus!
