//! Laws of the interpreter, stated over the spec semantics that the
//! executable code is proved to follow.
use vstd::prelude::*;
use crate::instr::{instr_width, is_control, Instruction, Reg};
use crate::machine::{
    imm16_cell, copy_span_spec, execute_spec, memory_grow_spec, span_ok, pages, reg_ok, run_spec, save_ip, sign_spec, step_spec,
    window_synced, write_span, CodeMap, MachineState, Outcome, Step,
};
use crate::convert::{
    is_infinite_bits, is_nan_bits, source_is_f64, target_cell, target_max, target_min, trunc_int,
    trunc_sat_spec, trunc_spec, TruncOp,
};
use crate::value::{binary_spec, lo32, s32, s64, two32, two64, unary_spec, BinaryOp, TrapCode, UnaryOp};

verus! {

/// An instruction that is not a branch, call or return and that completes
/// moves the instruction pointer on by exactly its own width.
pub proof fn lemma_ip_advances_by_width(s: MachineState, code: CodeMap)
    requires
        s.ip < code.instrs.len(),
        !is_control(code.instrs@[s.ip as int]),
        step_spec(s, code).1 == Ok::<Step, crate::machine::Error>(Step::Continue),
    ensures
        step_spec(s, code).0.ip == s.ip + instr_width(code.instrs@[s.ip as int]),
{
    reveal(execute_spec);
    let instr = code.instrs@[s.ip as int];
    match instr {
        Instruction::Const32 { .. } => {},
        Instruction::Trap { .. } => {},
        Instruction::ConsumeFuel { .. } => {},
        Instruction::Return => {},
        Instruction::ReturnReg { .. } => {},
        Instruction::ReturnImm32 { .. } => {},
        Instruction::ReturnSpan { .. } => {},
        Instruction::ReturnNez { .. } => {},
        Instruction::ReturnNezReg { .. } => {},
        Instruction::Branch { .. } => {},
        Instruction::BranchNezCopy { .. } => {},
        Instruction::BranchNezCopyImm32 { .. } => {},
        Instruction::BranchTable { .. } => {},
        Instruction::BranchCmp { .. } => {},
        Instruction::BranchCmpImm { .. } => {},
        Instruction::Copy { .. } => {},
        Instruction::CopyImm32 { .. } => {},
        Instruction::CopyI64Imm32 { .. } => {},
        Instruction::CopySpan { .. } => {},
        Instruction::CopySpanNonOverlapping { .. } => {},
        Instruction::Select { .. } => {},
        Instruction::Unary { .. } => {},
        Instruction::Binary { .. } => {},
        Instruction::BinaryImm16 { .. } => {},
        Instruction::BinaryImm16Lhs { .. } => {},
        Instruction::Load { .. } => {},
        Instruction::Store { .. } => {},
        Instruction::MemorySize { .. } => {},
        Instruction::MemoryGrow { .. } => {},
        Instruction::GlobalGet { .. } => {},
        Instruction::GlobalSet { .. } => {},
        Instruction::RefFunc { .. } => {},
        Instruction::Call { .. } => {},
        Instruction::CallIndirect { .. } => {},
        Instruction::Truncate { .. } => {},
        Instruction::TruncateSat { .. } => {},
        Instruction::ReturnCall { .. } => {},
        Instruction::ReturnCallIndirect { .. } => {},
        Instruction::ReturnNezSpan { .. } => {},
        Instruction::MemoryFill { .. } => {},
        Instruction::MemoryCopy { .. } => {},
        Instruction::TableGet { .. } => {},
        Instruction::TableSet { .. } => {},
        Instruction::TableSize { .. } => {},
        Instruction::MemoryInit { .. } => {},
        Instruction::DataDrop { .. } => {},
        Instruction::TableGrow { .. } => {},
        Instruction::TableFill { .. } => {},
        Instruction::TableCopy { .. } => {},
        Instruction::TableInit { .. } => {},
        Instruction::ElemDrop { .. } => {},
        Instruction::BranchNezCopy { .. } => {},
        Instruction::BranchNezCopyImm32 { .. } => {},
        Instruction::ReturnI64Imm32 { .. } => {},
        Instruction::GlobalSetImm16 { .. } => {},
        Instruction::FloatUnary { .. } => {},
        Instruction::FloatBinary { .. } => {},
    }
}

/// Branches and conditional returns: a compare-and-branch that completes
/// moves one word on or to its target; a branch moves to its target; a
/// branch table moves to one of the target words after it; a conditional
/// return that keeps the frame (does not return) moves one word on.
pub proof fn lemma_conditional_ip(s: MachineState, code: CodeMap)
    requires
        s.ip < code.instrs.len(),
        step_spec(s, code).1 == Ok::<Step, crate::machine::Error>(Step::Continue),
    ensures
        ({
            let s2 = step_spec(s, code).0;
            match code.instrs@[s.ip as int] {
                Instruction::BranchCmp { offset, .. } => s2.ip == s.ip + 1 || s2.ip == s.ip + offset,
                Instruction::BranchCmpImm { offset, .. } => s2.ip == s.ip + 1 || s2.ip == s.ip + offset,
                Instruction::Branch { offset } => s2.ip == s.ip + offset,
                Instruction::BranchNezCopy { offset, .. } => s2.ip == s.ip + 1 || s2.ip == s.ip + offset,
                Instruction::BranchNezCopyImm32 { offset, .. } => s2.ip == s.ip + 1 || s2.ip == s.ip + offset,
                Instruction::BranchTable { len_targets, .. } => s.ip + 1 <= s2.ip <= s.ip + len_targets,
                Instruction::ReturnNez { .. } => s2.frames.len() == s.frames.len() ==> s2.ip == s.ip + 1,
                Instruction::ReturnNezReg { .. } => s2.frames.len() == s.frames.len() ==> s2.ip == s.ip + 1,
                Instruction::ReturnNezSpan { .. } => s2.frames.len() == s.frames.len() ==> s2.ip == s.ip + 1,
                _ => true,
            }
        }),
{
    reveal(execute_spec);
    let instr = code.instrs@[s.ip as int];
    match instr {
        Instruction::BranchCmp { .. } => {},
        Instruction::BranchCmpImm { .. } => {},
        Instruction::Branch { .. } => {},
        Instruction::BranchNezCopy { .. } => {},
        Instruction::BranchNezCopyImm32 { .. } => {},
        Instruction::BranchTable { .. } => {},
        Instruction::ReturnNez { .. } => {},
        Instruction::ReturnNezReg { .. } => {},
        Instruction::ReturnNezSpan { .. } => {},
        _ => {},
    }
}

/// One instruction keeps the cached window base equal to the base of the
/// innermost frame.
pub proof fn lemma_step_keeps_window_synced(s: MachineState, code: CodeMap)
    requires
        window_synced(s),
    ensures
        window_synced(step_spec(s, code).0),
{
    reveal(execute_spec);
    if s.ip < code.instrs@.len() {
        let instr = code.instrs@[s.ip as int];
        assert(window_synced(sign_spec(s, instr)));
        match instr {
            Instruction::Const32 { .. } => {},
            Instruction::Trap { .. } => {},
            Instruction::ConsumeFuel { .. } => {},
            Instruction::Return => {},
            Instruction::ReturnReg { .. } => {},
            Instruction::ReturnImm32 { .. } => {},
            Instruction::ReturnSpan { .. } => {},
            Instruction::ReturnNez { .. } => {},
            Instruction::ReturnNezReg { .. } => {},
            Instruction::Branch { .. } => {},
            Instruction::BranchTable { .. } => {},
            Instruction::BranchCmp { .. } => {},
            Instruction::BranchCmpImm { .. } => {},
            Instruction::Copy { .. } => {},
            Instruction::CopyImm32 { .. } => {},
            Instruction::CopyI64Imm32 { .. } => {},
            Instruction::CopySpan { .. } => {},
            Instruction::CopySpanNonOverlapping { .. } => {},
            Instruction::Select { .. } => {},
            Instruction::Unary { .. } => {},
            Instruction::Binary { .. } => {},
            Instruction::BinaryImm16 { .. } => {},
            Instruction::BinaryImm16Lhs { .. } => {},
            Instruction::Load { .. } => {},
            Instruction::Store { .. } => {},
            Instruction::MemorySize { .. } => {},
            Instruction::MemoryGrow { .. } => {},
            Instruction::GlobalGet { .. } => {},
            Instruction::GlobalSet { .. } => {},
            Instruction::RefFunc { .. } => {},
            Instruction::Call { .. } => {},
            Instruction::CallIndirect { .. } => {},
            Instruction::Truncate { .. } => {},
            Instruction::TruncateSat { .. } => {},
            Instruction::ReturnCall { .. } => {},
            Instruction::ReturnCallIndirect { .. } => {},
            Instruction::ReturnNezSpan { .. } => {},
            Instruction::MemoryFill { .. } => {},
            Instruction::MemoryCopy { .. } => {},
            Instruction::TableGet { .. } => {},
            Instruction::TableSet { .. } => {},
            Instruction::TableSize { .. } => {},
            Instruction::MemoryInit { .. } => {},
            Instruction::DataDrop { .. } => {},
            Instruction::TableGrow { .. } => {},
            Instruction::TableFill { .. } => {},
            Instruction::TableCopy { .. } => {},
            Instruction::TableInit { .. } => {},
            Instruction::ElemDrop { .. } => {},
            Instruction::BranchNezCopy { .. } => {},
            Instruction::BranchNezCopyImm32 { .. } => {},
            Instruction::ReturnI64Imm32 { .. } => {},
            Instruction::GlobalSetImm16 { .. } => {},
            Instruction::FloatUnary { .. } => {},
            Instruction::FloatBinary { .. } => {},
        }
    }
}

/// A whole run keeps the cached window base equal to the base of the
/// innermost frame.
pub proof fn lemma_run_keeps_window_synced(s: MachineState, code: CodeMap, steps: nat)
    requires
        window_synced(s),
    ensures
        window_synced(run_spec(s, code, steps).0),
    decreases steps,
{
    if steps > 0 {
        lemma_step_keeps_window_synced(s, code);
        let (s2, r) = step_spec(s, code);
        if r == Ok::<Step, crate::machine::Error>(Step::Continue) {
            lemma_run_keeps_window_synced(s2, code, (steps - 1) as nat);
        }
    } else {
        assert(window_synced(save_ip(s)));
    }
}

/// Two runs from the same state, signature included, end in the same
/// signature, the same value stack and the same outcome.
pub proof fn lemma_run_deterministic(s1: MachineState, s2: MachineState, code: CodeMap, steps: nat)
    requires
        s1 == s2,
    ensures
        run_spec(s1, code, steps).0.signature == run_spec(s2, code, steps).0.signature,
        run_spec(s1, code, steps).0.values == run_spec(s2, code, steps).0.values,
        run_spec(s1, code, steps).1 == run_spec(s2, code, steps).1,
{
}

/// Copying `len` cells from `src` to `dst` and then back, where the two
/// ranges do not overlap: the copy back changes nothing.
pub proof fn lemma_copy_back_is_identity(values: Seq<u64>, dst: int, src: int, len: nat)
    requires
        0 <= dst,
        0 <= src,
        dst + len <= values.len(),
        src + len <= values.len(),
        dst + len <= src || src + len <= dst,
    ensures
        ({
            let there = write_span(values, dst, values.subrange(src, src + len));
            write_span(there, src, there.subrange(dst, dst + len)) == there
        }),
{
    let there = write_span(values, dst, values.subrange(src, src + len));
    let back = write_span(there, src, there.subrange(dst, dst + len));
    assert(back =~= there);
}

/// A `CopySpan` followed by the `CopySpan` back, over register ranges that
/// do not overlap: the second copy leaves the value stack as the first left it.
pub proof fn lemma_copy_span_back_is_identity(s: MachineState, results: Reg, values: Reg, len: u16)
    requires
        span_ok(s, results, len as nat),
        span_ok(s, values, len as nat),
        results.0 + len <= values.0 || values.0 + len <= results.0,
    ensures
        ({
            let there = copy_span_spec(s, results, values, len, false).0;
            copy_span_spec(there, values, results, len, false).0.values == there.values
        }),
{
    lemma_copy_back_is_identity(s.values, s.sp + results.0, s.sp + values.0, len as nat);
}

/// `i32.wrap_i64` then `i64.extend_i32_s` gives back a value whose high 32
/// bits repeat bit 31.
pub proof fn lemma_wrap_then_extend(a: u64)
    requires
        -0x8000_0000 <= s64(a) < 0x8000_0000,
    ensures
        unary_spec(UnaryOp::I64ExtendI32S, unary_spec(UnaryOp::I32WrapI64, a)) == a,
{
    let w = unary_spec(UnaryOp::I32WrapI64, a);
    assert(w as int == a as int % two32());
    assert(lo32(w) == w as int);
    if a < 0x8000_0000 {
        assert(s32(w) == a as int);
    } else {
        assert(s32(w) == a as int - two64());
    }
}

/// Moving 32-bit float bits into an integer and back keeps them; the move
/// is one to one on 32-bit patterns.
pub proof fn lemma_reinterpret_32(a: u64, b: u64)
    requires
        a < 0x1_0000_0000,
        b < 0x1_0000_0000,
    ensures
        unary_spec(UnaryOp::F32ReinterpretI32, unary_spec(UnaryOp::I32ReinterpretF32, a)) == a,
        unary_spec(UnaryOp::I32ReinterpretF32, unary_spec(UnaryOp::F32ReinterpretI32, a)) == a,
        unary_spec(UnaryOp::I32ReinterpretF32, a) == unary_spec(UnaryOp::I32ReinterpretF32, b) ==> a == b,
{
    assert((a & 0xffff_ffff) & 0xffff_ffff == a & 0xffff_ffff) by (bit_vector);
    assert(a < 0x1_0000_0000 ==> a & 0xffff_ffff == a) by (bit_vector);
    assert(b < 0x1_0000_0000 ==> b & 0xffff_ffff == b) by (bit_vector);
}

/// Moving 64-bit float bits into an integer and back keeps them.
pub proof fn lemma_reinterpret_64(a: u64, b: u64)
    ensures
        unary_spec(UnaryOp::F64ReinterpretI64, unary_spec(UnaryOp::I64ReinterpretF64, a)) == a,
        unary_spec(UnaryOp::I64ReinterpretF64, a) == unary_spec(UnaryOp::I64ReinterpretF64, b) ==> a == b,
{
}

/// Signed division of the smallest integer by `-1` overflows; every
/// division and remainder by zero traps.
pub proof fn lemma_division_traps(a: u64, b: u64)
    ensures
        s32(a) == -0x8000_0000 && s32(b) == -1 ==> binary_spec(BinaryOp::I32DivS, a, b) == Err::<u64, TrapCode>(TrapCode::IntegerOverflow),
        s64(a) == -0x8000_0000_0000_0000 && s64(b) == -1 ==> binary_spec(BinaryOp::I64DivS, a, b) == Err::<u64, TrapCode>(TrapCode::IntegerOverflow),
        lo32(b) == 0 ==> {
            &&& binary_spec(BinaryOp::I32DivS, a, b) == Err::<u64, TrapCode>(TrapCode::IntegerDivisionByZero)
            &&& binary_spec(BinaryOp::I32DivU, a, b) == Err::<u64, TrapCode>(TrapCode::IntegerDivisionByZero)
            &&& binary_spec(BinaryOp::I32RemS, a, b) == Err::<u64, TrapCode>(TrapCode::IntegerDivisionByZero)
            &&& binary_spec(BinaryOp::I32RemU, a, b) == Err::<u64, TrapCode>(TrapCode::IntegerDivisionByZero)
        },
        b == 0 ==> {
            &&& binary_spec(BinaryOp::I64DivS, a, b) == Err::<u64, TrapCode>(TrapCode::IntegerDivisionByZero)
            &&& binary_spec(BinaryOp::I64DivU, a, b) == Err::<u64, TrapCode>(TrapCode::IntegerDivisionByZero)
            &&& binary_spec(BinaryOp::I64RemS, a, b) == Err::<u64, TrapCode>(TrapCode::IntegerDivisionByZero)
            &&& binary_spec(BinaryOp::I64RemU, a, b) == Err::<u64, TrapCode>(TrapCode::IntegerDivisionByZero)
        },
{
}

/// Trapping truncation traps on NaN with `InvalidConversionToInteger`, and
/// on infinite or out-of-range values with `IntegerOverflow`. Saturating
/// truncation never traps: NaN gives zero, values past the target range give
/// its nearest end, and elsewhere it agrees with trapping truncation.
pub proof fn lemma_truncation_boundaries(op: TruncOp, a: u64)
    ensures
        ({
            let w = source_is_f64(op);
            &&& is_nan_bits(a, w) ==> trunc_spec(op, a) == Err::<u64, TrapCode>(
                TrapCode::InvalidConversionToInteger,
            ) && trunc_sat_spec(op, a) == 0
            &&& !is_nan_bits(a, w) && (is_infinite_bits(a, w) || trunc_int(a, w) < target_min(op)
                || trunc_int(a, w) > target_max(op)) ==> trunc_spec(op, a) == Err::<u64, TrapCode>(
                TrapCode::IntegerOverflow,
            )
            &&& !is_nan_bits(a, w) && !is_infinite_bits(a, w) && trunc_int(a, w) < target_min(op)
                ==> trunc_sat_spec(op, a) == target_cell(op, target_min(op))
            &&& !is_nan_bits(a, w) && !is_infinite_bits(a, w) && trunc_int(a, w) > target_max(op)
                ==> trunc_sat_spec(op, a) == target_cell(op, target_max(op))
            &&& trunc_spec(op, a) is Ok ==> trunc_sat_spec(op, a) == trunc_spec(op, a)->Ok_0
        }),
{
}

/// A shift or rotation by `b` equals the one by `b` modulo the bit width
/// of the operand.
pub proof fn lemma_shift_amount_modulo(a: u64, b: u64)
    ensures
        binary_spec(BinaryOp::I32Shl, a, b) == binary_spec(BinaryOp::I32Shl, a, (lo32(b) % 32) as u64),
        binary_spec(BinaryOp::I32ShrS, a, b) == binary_spec(BinaryOp::I32ShrS, a, (lo32(b) % 32) as u64),
        binary_spec(BinaryOp::I32ShrU, a, b) == binary_spec(BinaryOp::I32ShrU, a, (lo32(b) % 32) as u64),
        binary_spec(BinaryOp::I32Rotl, a, b) == binary_spec(BinaryOp::I32Rotl, a, (lo32(b) % 32) as u64),
        binary_spec(BinaryOp::I32Rotr, a, b) == binary_spec(BinaryOp::I32Rotr, a, (lo32(b) % 32) as u64),
        binary_spec(BinaryOp::I64Shl, a, b) == binary_spec(BinaryOp::I64Shl, a, b % 64),
        binary_spec(BinaryOp::I64ShrS, a, b) == binary_spec(BinaryOp::I64ShrS, a, b % 64),
        binary_spec(BinaryOp::I64ShrU, a, b) == binary_spec(BinaryOp::I64ShrU, a, b % 64),
        binary_spec(BinaryOp::I64Rotl, a, b) == binary_spec(BinaryOp::I64Rotl, a, b % 64),
        binary_spec(BinaryOp::I64Rotr, a, b) == binary_spec(BinaryOp::I64Rotr, a, b % 64),
{
    let k = (lo32(b) % 32) as u64;
    assert(lo32(k) == lo32(b) % 32);
    assert((k as int) % 32 == lo32(b) % 32);
}

/// A 32-bit shift or rotation by an immediate `k` equals the one by `k`
/// modulo 32.
pub proof fn lemma_shift_by_immediate_32(a: u64, k: i16)
    ensures
        binary_spec(BinaryOp::I32Shl, a, imm16_cell(k)) == binary_spec(BinaryOp::I32Shl, a, ((k as int) % 32) as u64),
        binary_spec(BinaryOp::I32ShrS, a, imm16_cell(k)) == binary_spec(BinaryOp::I32ShrS, a, ((k as int) % 32) as u64),
        binary_spec(BinaryOp::I32ShrU, a, imm16_cell(k)) == binary_spec(BinaryOp::I32ShrU, a, ((k as int) % 32) as u64),
        binary_spec(BinaryOp::I32Rotl, a, imm16_cell(k)) == binary_spec(BinaryOp::I32Rotl, a, ((k as int) % 32) as u64),
        binary_spec(BinaryOp::I32Rotr, a, imm16_cell(k)) == binary_spec(BinaryOp::I32Rotr, a, ((k as int) % 32) as u64),
{
    let c = imm16_cell(k);
    let m = ((k as int) % 32) as u64;
    assert(c as int == if k < 0 { k + two64() } else { k as int });
    assert(lo32(c) % 32 == (k as int) % 32);
    assert(lo32(m) == m as int);
    lemma_shift_amount_modulo(a, c);
    lemma_shift_amount_modulo(a, m);
}

/// A 64-bit shift or rotation by an immediate `k` equals the one by `k`
/// modulo 64.
pub proof fn lemma_shift_by_immediate_64(a: u64, k: i16)
    ensures
        binary_spec(BinaryOp::I64Shl, a, imm16_cell(k)) == binary_spec(BinaryOp::I64Shl, a, ((k as int) % 64) as u64),
        binary_spec(BinaryOp::I64ShrS, a, imm16_cell(k)) == binary_spec(BinaryOp::I64ShrS, a, ((k as int) % 64) as u64),
        binary_spec(BinaryOp::I64ShrU, a, imm16_cell(k)) == binary_spec(BinaryOp::I64ShrU, a, ((k as int) % 64) as u64),
        binary_spec(BinaryOp::I64Rotl, a, imm16_cell(k)) == binary_spec(BinaryOp::I64Rotl, a, ((k as int) % 64) as u64),
        binary_spec(BinaryOp::I64Rotr, a, imm16_cell(k)) == binary_spec(BinaryOp::I64Rotr, a, ((k as int) % 64) as u64),
{
    let c = imm16_cell(k);
    let m = ((k as int) % 64) as u64;
    assert(c as int == if k < 0 { k + two64() } else { k as int });
    assert(c % 64 == (k as int) % 64);
    assert(m % 64 == m);
    lemma_shift_amount_modulo(a, c);
    lemma_shift_amount_modulo(a, m);
}

/// `memory.grow` past the maximum writes `u32::MAX` and leaves memory unchanged.
pub proof fn lemma_grow_past_maximum(s: MachineState, result: Reg, delta: Reg)
    requires
        reg_ok(s, result),
        reg_ok(s, delta),
        pages(s) + lo32(s.values[s.sp + delta.0]) > s.max_pages,
    ensures
        memory_grow_spec(s, result, delta).0.memory == s.memory,
        memory_grow_spec(s, result, delta).0.values[s.sp + result.0] == 0xffff_ffff,
        memory_grow_spec(s, result, delta).1 == Ok::<Step, crate::machine::Error>(Step::Continue),
{
}

/// The outermost frame is what a run returns to: when a run ends in a
/// return, it returned as many values as that frame expects, where it
/// expects them.
pub proof fn lemma_returned_arity(s: MachineState, code: CodeMap, steps: nat)
    requires
        s.frames.len() > 0,
    ensures
        match run_spec(s, code, steps).1 {
            Ok(Outcome::Returned { results, len }) => len == s.frames[0].len_results && results
                == s.frames[0].results,
            _ => true,
        },
    decreases steps,
{
    if steps > 0 {
        lemma_step_keeps_outer_frame(s, code);
        let (s2, r) = step_spec(s, code);
        if r == Ok::<Step, crate::machine::Error>(Step::Continue) {
            lemma_returned_arity(s2, code, (steps - 1) as nat);
        }
    }
}

/// What one instruction keeps of the outermost frame: a completed step keeps
/// its result slot, and a return from it returns exactly its results.
pub open spec fn keeps_outer_frame(s: MachineState, code: CodeMap) -> bool {
    let (s2, r) = step_spec(s, code);
    &&& r == Ok::<Step, crate::machine::Error>(Step::Continue) ==> s2.frames.len() > 0
        && s2.frames[0].len_results == s.frames[0].len_results && s2.frames[0].results
        == s.frames[0].results
    &&& match r {
        Ok(Step::Stop(Outcome::Returned { results, len })) => len == s.frames[0].len_results
            && results == s.frames[0].results,
        _ => true,
    }
}

/// [`keeps_outer_frame`] for branches, returns, calls and float hand-offs.
#[verifier::rlimit(100)]
#[verifier::spinoff_prover]
proof fn lemma_outer_frame_control(s: MachineState, code: CodeMap)
    requires
        s.frames.len() > 0,
        s.ip < code.instrs@.len(),
        is_control(code.instrs@[s.ip as int]) || code.instrs@[s.ip as int] is FloatUnary
            || code.instrs@[s.ip as int] is FloatBinary,
    ensures
        keeps_outer_frame(s, code),
{
    reveal(execute_spec);
    let instr = code.instrs@[s.ip as int];
        match instr {
            Instruction::Return => {},
            Instruction::ReturnReg { .. } => {},
            Instruction::ReturnImm32 { .. } => {},
            Instruction::ReturnSpan { .. } => {},
            Instruction::ReturnNez { .. } => {},
            Instruction::ReturnNezReg { .. } => {},
            Instruction::Branch { .. } => {},
            Instruction::BranchTable { .. } => {},
            Instruction::BranchCmp { .. } => {},
            Instruction::BranchCmpImm { .. } => {},
            Instruction::Call { .. } => {},
            Instruction::CallIndirect { .. } => {},
            Instruction::ReturnCall { .. } => {},
            Instruction::ReturnCallIndirect { .. } => {},
            Instruction::ReturnNezSpan { .. } => {},
            Instruction::BranchNezCopy { .. } => {},
            Instruction::BranchNezCopyImm32 { .. } => {},
            Instruction::ReturnI64Imm32 { .. } => {},
            Instruction::FloatUnary { .. } => {},
            Instruction::FloatBinary { .. } => {},
            _ => {},
        }
}

/// [`keeps_outer_frame`] for the instructions that leave the frames alone.
#[verifier::rlimit(100)]
#[verifier::spinoff_prover]
proof fn lemma_outer_frame_plain(s: MachineState, code: CodeMap)
    requires
        s.frames.len() > 0,
        s.ip < code.instrs@.len(),
        !is_control(code.instrs@[s.ip as int]),
        !(code.instrs@[s.ip as int] is FloatUnary),
        !(code.instrs@[s.ip as int] is FloatBinary),
    ensures
        keeps_outer_frame(s, code),
{
    reveal(execute_spec);
    let instr = code.instrs@[s.ip as int];
        match instr {
            Instruction::Const32 { .. } => {},
            Instruction::Trap { .. } => {},
            Instruction::ConsumeFuel { .. } => {},
            Instruction::Copy { .. } => {},
            Instruction::CopyImm32 { .. } => {},
            Instruction::CopyI64Imm32 { .. } => {},
            Instruction::CopySpan { .. } => {},
            Instruction::CopySpanNonOverlapping { .. } => {},
            Instruction::Select { .. } => {},
            Instruction::Unary { .. } => {},
            Instruction::Binary { .. } => {},
            Instruction::BinaryImm16 { .. } => {},
            Instruction::BinaryImm16Lhs { .. } => {},
            Instruction::Load { .. } => {},
            Instruction::Store { .. } => {},
            Instruction::MemorySize { .. } => {},
            Instruction::MemoryGrow { .. } => {},
            Instruction::GlobalGet { .. } => {},
            Instruction::GlobalSet { .. } => {},
            Instruction::RefFunc { .. } => {},
            Instruction::Truncate { .. } => {},
            Instruction::TruncateSat { .. } => {},
            Instruction::MemoryFill { .. } => {},
            Instruction::MemoryCopy { .. } => {},
            Instruction::TableGet { .. } => {},
            Instruction::TableSet { .. } => {},
            Instruction::TableSize { .. } => {},
            Instruction::MemoryInit { .. } => {},
            Instruction::DataDrop { .. } => {},
            Instruction::TableGrow { .. } => {},
            Instruction::TableFill { .. } => {},
            Instruction::TableCopy { .. } => {},
            Instruction::TableInit { .. } => {},
            Instruction::ElemDrop { .. } => {},
            Instruction::GlobalSetImm16 { .. } => {},
            _ => {},
        }
}

/// A completed instruction that switches frames (a call, a return, a tail
/// call) leaves the cached registers at the new innermost frame: its window
/// base and its saved position.
pub open spec fn switch_syncs_registers(s: MachineState, code: CodeMap) -> bool {
    let (s2, r) = step_spec(s, code);
    r == Ok::<Step, crate::machine::Error>(Step::Continue) && s2.frames != s.frames ==> s2.frames.len()
        > 0 && s2.sp == s2.frames.last().base && s2.ip == s2.frames.last().ip
}

/// [`switch_syncs_registers`] for branches, returns, calls and float hand-offs.
#[verifier::rlimit(100)]
#[verifier::spinoff_prover]
proof fn lemma_switch_control(s: MachineState, code: CodeMap)
    requires
        s.frames.len() > 0,
        s.ip < code.instrs@.len(),
        is_control(code.instrs@[s.ip as int]) || code.instrs@[s.ip as int] is FloatUnary
            || code.instrs@[s.ip as int] is FloatBinary,
    ensures
        switch_syncs_registers(s, code),
{
    reveal(execute_spec);
    let instr = code.instrs@[s.ip as int];
        match instr {
            Instruction::Return => {},
            Instruction::ReturnReg { .. } => {},
            Instruction::ReturnImm32 { .. } => {},
            Instruction::ReturnSpan { .. } => {},
            Instruction::ReturnNez { .. } => {},
            Instruction::ReturnNezReg { .. } => {},
            Instruction::Branch { .. } => {},
            Instruction::BranchTable { .. } => {},
            Instruction::BranchCmp { .. } => {},
            Instruction::BranchCmpImm { .. } => {},
            Instruction::Call { .. } => {},
            Instruction::CallIndirect { .. } => {},
            Instruction::ReturnCall { .. } => {},
            Instruction::ReturnCallIndirect { .. } => {},
            Instruction::ReturnNezSpan { .. } => {},
            Instruction::BranchNezCopy { .. } => {},
            Instruction::BranchNezCopyImm32 { .. } => {},
            Instruction::ReturnI64Imm32 { .. } => {},
            Instruction::FloatUnary { .. } => {},
            Instruction::FloatBinary { .. } => {},
            _ => {},
        }
}

/// [`switch_syncs_registers`] for the instructions that leave the frames alone.
#[verifier::rlimit(100)]
#[verifier::spinoff_prover]
proof fn lemma_switch_plain(s: MachineState, code: CodeMap)
    requires
        s.frames.len() > 0,
        s.ip < code.instrs@.len(),
        !is_control(code.instrs@[s.ip as int]),
        !(code.instrs@[s.ip as int] is FloatUnary),
        !(code.instrs@[s.ip as int] is FloatBinary),
    ensures
        switch_syncs_registers(s, code),
{
    reveal(execute_spec);
    let instr = code.instrs@[s.ip as int];
        match instr {
            Instruction::Const32 { .. } => {},
            Instruction::Trap { .. } => {},
            Instruction::ConsumeFuel { .. } => {},
            Instruction::Copy { .. } => {},
            Instruction::CopyImm32 { .. } => {},
            Instruction::CopyI64Imm32 { .. } => {},
            Instruction::CopySpan { .. } => {},
            Instruction::CopySpanNonOverlapping { .. } => {},
            Instruction::Select { .. } => {},
            Instruction::Unary { .. } => {},
            Instruction::Binary { .. } => {},
            Instruction::BinaryImm16 { .. } => {},
            Instruction::BinaryImm16Lhs { .. } => {},
            Instruction::Load { .. } => {},
            Instruction::Store { .. } => {},
            Instruction::MemorySize { .. } => {},
            Instruction::MemoryGrow { .. } => {},
            Instruction::GlobalGet { .. } => {},
            Instruction::GlobalSet { .. } => {},
            Instruction::RefFunc { .. } => {},
            Instruction::Truncate { .. } => {},
            Instruction::TruncateSat { .. } => {},
            Instruction::MemoryFill { .. } => {},
            Instruction::MemoryCopy { .. } => {},
            Instruction::TableGet { .. } => {},
            Instruction::TableSet { .. } => {},
            Instruction::TableSize { .. } => {},
            Instruction::MemoryInit { .. } => {},
            Instruction::DataDrop { .. } => {},
            Instruction::TableGrow { .. } => {},
            Instruction::TableFill { .. } => {},
            Instruction::TableCopy { .. } => {},
            Instruction::TableInit { .. } => {},
            Instruction::ElemDrop { .. } => {},
            Instruction::GlobalSetImm16 { .. } => {},
            _ => {},
        }
}

/// After any completed instruction that switches frames, the cached window
/// base and instruction pointer are those of the new innermost frame.
pub proof fn lemma_frame_switch_syncs_registers(s: MachineState, code: CodeMap)
    requires
        s.frames.len() > 0,
    ensures
        switch_syncs_registers(s, code),
{
    if s.ip < code.instrs@.len() {
        let instr = code.instrs@[s.ip as int];
        if is_control(instr) || instr is FloatUnary || instr is FloatBinary {
            lemma_switch_control(s, code);
        } else {
            lemma_switch_plain(s, code);
        }
    }
}

/// One instruction either keeps the outermost frame's result slot, or
/// returns from it with exactly its results.
proof fn lemma_step_keeps_outer_frame(s: MachineState, code: CodeMap)
    requires
        s.frames.len() > 0,
    ensures
        keeps_outer_frame(s, code),
{
    if s.ip < code.instrs@.len() {
        let instr = code.instrs@[s.ip as int];
        if is_control(instr) || instr is FloatUnary || instr is FloatBinary {
            lemma_outer_frame_control(s, code);
        } else {
            lemma_outer_frame_plain(s, code);
        }
    }
}

} // verus!
