use wasmi::convert::{execute_trunc, execute_trunc_sat, TruncOp};
use wasmi::counts::{instruction_kind, InstructionCounts, NUM_INSTRUCTION_KINDS};
use wasmi::executor::{ConditionalReturn, ConditionalReturnMulti};
use wasmi::instr::{BoundedRegSpan, Instruction, Reg};
use wasmi::memory::{read_le, write_le};
use wasmi::signature::{mix_bits, update_runtime_signature};
use wasmi::translator::{
    Const16, FromProviders, Provider, Sign, TranslationError, TypedProvider, TypedVal,
    ValueStack, WasmFloat, WasmInteger, F32, F64,
};
use wasmi::value::{execute_binary_op, execute_unary_op, i32_div_s, i32_rem_s, i64_div_s, i64_rem_s, BinaryOp, TrapCode, UnaryOp};

fn c32(v: i32) -> u64 {
    v as u32 as u64
}

#[test]
fn division_boundaries_trap() {
    assert_eq!(i32_div_s(c32(i32::MIN), c32(-1)), Err(TrapCode::IntegerOverflow));
    assert_eq!(i64_div_s(i64::MIN as u64, (-1i64) as u64), Err(TrapCode::IntegerOverflow));
    for op in [BinaryOp::I32DivS, BinaryOp::I32DivU, BinaryOp::I32RemS, BinaryOp::I32RemU,
               BinaryOp::I64DivS, BinaryOp::I64DivU, BinaryOp::I64RemS, BinaryOp::I64RemU] {
        assert_eq!(execute_binary_op(op, 7, 0), Err(TrapCode::IntegerDivisionByZero));
    }
    assert_eq!(i32_rem_s(c32(i32::MIN), c32(-1)), Ok(0));
    assert_eq!(i64_rem_s(i64::MIN as u64, (-1i64) as u64), Ok(0));
    assert_eq!(i32_div_s(c32(-7), c32(2)), Ok(c32(-3)));
    assert_eq!(i32_rem_s(c32(-7), c32(2)), Ok(c32(-1)));
    assert_eq!(i64_div_s((-7i64) as u64, 2), Ok((-3i64) as u64));
    assert_eq!(execute_binary_op(BinaryOp::I32DivU, c32(-1), 2), Ok(0x7fff_ffff));
    assert_eq!(execute_binary_op(BinaryOp::I64RemU, 17, 5), Ok(2));
}

#[test]
fn shift_amount_is_taken_modulo_width() {
    assert_eq!(execute_binary_op(BinaryOp::I32Shl, 1, 33), Ok(2));
    assert_eq!(execute_binary_op(BinaryOp::I32ShrU, 0x8000_0000, 63), Ok(1));
    assert_eq!(execute_binary_op(BinaryOp::I32ShrS, 0x8000_0000, 31 + 32), Ok(0xffff_ffff));
    assert_eq!(execute_binary_op(BinaryOp::I32Rotl, 0x8000_0001, 33), Ok(3));
    assert_eq!(execute_binary_op(BinaryOp::I32Rotr, 1, 32 + 1), Ok(0x8000_0000));
    assert_eq!(execute_binary_op(BinaryOp::I64Shl, 1, 65), Ok(2));
    assert_eq!(execute_binary_op(BinaryOp::I64ShrS, 1u64 << 63, 127), Ok(u64::MAX));
    assert_eq!(execute_binary_op(BinaryOp::I64Rotr, 1, 65), Ok(1u64 << 63));
    assert_eq!(execute_binary_op(BinaryOp::I64Rotl, 1u64 << 63, 64), Ok(1u64 << 63));
}

#[test]
fn integer_arithmetic_and_comparisons() {
    assert_eq!(execute_binary_op(BinaryOp::I32Sub, 0, 1), Ok(0xffff_ffff));
    assert_eq!(execute_binary_op(BinaryOp::I32Mul, 0x1_0000, 0x1_0000), Ok(0));
    assert_eq!(execute_binary_op(BinaryOp::I64Add, u64::MAX, 2), Ok(1));
    assert_eq!(execute_binary_op(BinaryOp::I32LtS, c32(-1), 0), Ok(1));
    assert_eq!(execute_binary_op(BinaryOp::I32LtU, c32(-1), 0), Ok(0));
    assert_eq!(execute_binary_op(BinaryOp::I64GeS, 0, (-1i64) as u64), Ok(1));
    assert_eq!(execute_binary_op(BinaryOp::I32Eq, 0x1_0000_0005, 5), Ok(1));
    assert_eq!(execute_binary_op(BinaryOp::I32AndEqz, 0b1010, 0b0101), Ok(1));
    assert_eq!(execute_binary_op(BinaryOp::I32XorEqz, 3, 3), Ok(1));
    assert_eq!(execute_binary_op(BinaryOp::I32OrEqz, 1, 0), Ok(0));
    assert_eq!(execute_binary_op(BinaryOp::F32Copysign, 0x3f80_0000, 0x8000_0000), Ok(0xbf80_0000));
    assert_eq!(execute_binary_op(BinaryOp::F64Copysign, 0xbff0_0000_0000_0000, 0), Ok(0x3ff0_0000_0000_0000));
}

#[test]
fn unary_operations() {
    assert_eq!(execute_unary_op(UnaryOp::I32Clz, 1), 31);
    assert_eq!(execute_unary_op(UnaryOp::I32Ctz, 0), 32);
    assert_eq!(execute_unary_op(UnaryOp::I32Popcnt, 0xff00_ff00_0000_00ff), 8);
    assert_eq!(execute_unary_op(UnaryOp::I64Popcnt, u64::MAX), 64);
    assert_eq!(execute_unary_op(UnaryOp::I64Clz, 0), 64);
    assert_eq!(execute_unary_op(UnaryOp::I64Ctz, 8), 3);
    assert_eq!(execute_unary_op(UnaryOp::I32Eqz, 0x1_0000_0000), 1);
    assert_eq!(execute_unary_op(UnaryOp::I64Eqz, 0x1_0000_0000), 0);
    assert_eq!(execute_unary_op(UnaryOp::I32Extend8S, 0x80), 0xffff_ff80);
    assert_eq!(execute_unary_op(UnaryOp::I32Extend16S, 0x7fff), 0x7fff);
    assert_eq!(execute_unary_op(UnaryOp::I64Extend16S, 0x8000), 0xffff_ffff_ffff_8000);
    assert_eq!(execute_unary_op(UnaryOp::I64Extend32S, 0x8000_0000), 0xffff_ffff_8000_0000);
    assert_eq!(execute_unary_op(UnaryOp::I64ExtendI32U, 0xffff_ffff_8000_0000), 0x8000_0000);
    assert_eq!(execute_unary_op(UnaryOp::F32Abs, 0xbf80_0000), 0x3f80_0000);
    assert_eq!(execute_unary_op(UnaryOp::F32Neg, 0x3f80_0000), 0xbf80_0000);
    assert_eq!(execute_unary_op(UnaryOp::F64Neg, 0), 0x8000_0000_0000_0000);
    assert_eq!(execute_unary_op(UnaryOp::F64Abs, u64::MAX), 0x7fff_ffff_ffff_ffff);
}

#[test]
fn wrap_then_extend_is_identity_on_sign_extended_values() {
    for v in [0i64, 1, -1, i32::MAX as i64, i32::MIN as i64, -12345] {
        let wrapped = execute_unary_op(UnaryOp::I32WrapI64, v as u64);
        assert_eq!(execute_unary_op(UnaryOp::I64ExtendI32S, wrapped), v as u64);
    }
    let wide = 0x1_0000_0001u64;
    let back = execute_unary_op(UnaryOp::I64ExtendI32S, execute_unary_op(UnaryOp::I32WrapI64, wide));
    assert_eq!(back, 1);
}

#[test]
fn reinterpret_round_trips() {
    for bits in [0u32, 0x3f80_0000, 0x7fc0_0000, 0x8000_0000, 0xffff_ffff] {
        let i = execute_unary_op(UnaryOp::I32ReinterpretF32, bits as u64);
        assert_eq!(execute_unary_op(UnaryOp::F32ReinterpretI32, i), bits as u64);
        assert_eq!(f32::from_bits(i as u32).to_bits(), bits);
    }
    for bits in [0u64, 0x3ff0_0000_0000_0000, u64::MAX] {
        let i = execute_unary_op(UnaryOp::I64ReinterpretF64, bits);
        assert_eq!(execute_unary_op(UnaryOp::F64ReinterpretI64, i), bits);
    }
}

#[test]
fn little_endian_round_trip() {
    let mut mem = vec![0u8; 16];
    write_le(&mut mem, 3, 0x0102_0304_0506_0708, 8);
    assert_eq!(mem[3..11], [8, 7, 6, 5, 4, 3, 2, 1]);
    assert_eq!(read_le(&mem, 3, 8), 0x0102_0304_0506_0708);
    assert_eq!(read_le(&mem, 3, 2), 0x0708);
    write_le(&mut mem, 0, 0xdead_beef, 2);
    assert_eq!(mem[0..3], [0xef, 0xbe, 0]);
}

#[test]
fn signature_mixing_matches_formula() {
    let x = 0x0123_4567_89ab_cdefu64;
    let y = x ^ (x >> 27);
    let z = y ^ (y << 23);
    assert_eq!(mix_bits(x), z.wrapping_mul(0xdfd951778ea84a0f));
    assert_eq!(update_runtime_signature(5, 3), mix_bits(6));
    assert_eq!(mix_bits(0), 0);
}

#[test]
fn wasm_integer_helpers() {
    assert_eq!(33i32.as_shift_amount(), 1);
    assert_eq!((-33i32).as_shift_amount(), 31);
    assert_eq!((-1i32).as_shift_amount(), 31);
    assert_eq!(i32::MIN.as_shift_amount(), 0);
    assert_eq!(70u32.as_shift_amount(), 6);
    assert_eq!(65i64.as_shift_amount(), 1);
    assert_eq!(i64::MIN.as_shift_amount(), 0);
    assert_eq!((-65i64).as_shift_amount(), 63);
    assert_eq!(u64::MAX.as_shift_amount(), 63);
    assert!(0i32.eq_zero());
    assert!(!5u64.eq_zero());
}

#[test]
fn wasm_float_helpers() {
    assert!(F32(f32::NAN.to_bits()).is_nan());
    assert!(!F32(f32::INFINITY.to_bits()).is_nan());
    assert!(!F32(1.5f32.to_bits()).is_nan());
    assert_eq!(F32((-0.0f32).to_bits()).sign(), Sign::Neg);
    assert_eq!(F32(2.0f32.to_bits()).sign(), Sign::Pos);
    assert!(F64(f64::NAN.to_bits()).is_nan());
    assert!(!F64(f64::NEG_INFINITY.to_bits()).is_nan());
    assert_eq!(F64((-1.0f64).to_bits()).sign(), Sign::Neg);
}

#[test]
fn providers_pick_an_encoding() {
    assert_eq!(Provider::<u8>::new(TypedProvider::Const(TypedVal { bits: 0x1ff })), Provider::Const(0xff));
    assert_eq!(Provider::<u8>::new(TypedProvider::Register(Reg(3))), Provider::Register(Reg(3)));
    let mut stack = ValueStack::new();
    assert_eq!(Provider::<Const16>::new(TypedProvider::Const(TypedVal { bits: 7 }), &mut stack), Ok(Provider::Const(Const16(7))));
    assert_eq!(Provider::<Const16>::new(TypedProvider::Const(TypedVal { bits: 70000 }), &mut stack), Ok(Provider::Register(Reg(-1))));
    assert_eq!(Provider::<Const16>::new(TypedProvider::Const(TypedVal { bits: 80000 }), &mut stack), Ok(Provider::Register(Reg(-2))));
    assert_eq!(Provider::<Const16>::new(TypedProvider::Const(TypedVal { bits: 70000 }), &mut stack), Ok(Provider::Register(Reg(-1))));
    assert_eq!(Provider::<Const16>::new(TypedProvider::Register(Reg(4)), &mut stack), Ok(Provider::Register(Reg(4))));
    assert_eq!(stack.consts, vec![70000, 80000]);
}

#[test]
fn constant_registers_run_out() {
    let mut stack = ValueStack { consts: (0..32768u64).map(|v| v + 0x10000).collect() };
    assert_eq!(stack.alloc_const(0x10000 + 5), Ok(Reg(-6)));
    assert_eq!(stack.alloc_const(1 << 40), Err(TranslationError::TooManyConstants));
}

#[test]
fn spans_from_providers() {
    let regs = [TypedProvider::Register(Reg(4)), TypedProvider::Register(Reg(5)), TypedProvider::Register(Reg(6))];
    assert_eq!(BoundedRegSpan::from_providers(&regs), Some(BoundedRegSpan { span: Reg(4), len: 3 }));
    assert_eq!(BoundedRegSpan::from_providers(&[]), None);
    let gap = [TypedProvider::Register(Reg(4)), TypedProvider::Register(Reg(6))];
    assert_eq!(BoundedRegSpan::from_providers(&gap), None);
    let mixed = [TypedProvider::Register(Reg(1)), TypedProvider::Const(TypedVal { bits: 0 })];
    assert_eq!(BoundedRegSpan::from_providers(&mixed), None);
    let top = [TypedProvider::Register(Reg(i16::MAX))];
    assert_eq!(BoundedRegSpan::from_providers(&top), None);
}

#[test]
fn counts_per_instruction_kind() {
    let mut counts = InstructionCounts::new();
    let add = Instruction::Binary { op: wasmi::value::BinaryOp::I32Add, result: Reg(0), lhs: Reg(0), rhs: Reg(0) };
    counts.bump(&add);
    counts.bump(&add);
    counts.bump(&Instruction::Return);
    assert_eq!(counts.count_of(&add), 2);
    assert_eq!(counts.count_of(&Instruction::Return), 1);
    assert_eq!(counts.count_of(&Instruction::Branch { offset: 1 }), 0);
    assert_eq!(counts.counts.len(), NUM_INSTRUCTION_KINDS);
    assert!(instruction_kind(&add) < NUM_INSTRUCTION_KINDS);
}

#[test]
fn conditional_return_decisions() {
    assert_eq!(ConditionalReturn::from_condition(1, 9), ConditionalReturn::Return { result: 9 });
    assert_eq!(ConditionalReturn::from_condition(0x1_0000_0000, 9), ConditionalReturn::Continue);
    let span = BoundedRegSpan { span: Reg(2), len: 2 };
    assert_eq!(ConditionalReturnMulti::from_condition(3, span), ConditionalReturnMulti::Return { results: span });
    assert_eq!(ConditionalReturnMulti::from_condition(0, span), ConditionalReturnMulti::Continue);
}

#[test]
fn truncation_traps_and_saturates() {
    let f = |v: f32| v.to_bits() as u64;
    let d = |v: f64| v.to_bits();
    assert_eq!(execute_trunc(TruncOp::I32TruncF32S, f(1.9)), Ok(1));
    assert_eq!(execute_trunc(TruncOp::I32TruncF32S, f(-1.9)), Ok(c32(-1)));
    assert_eq!(execute_trunc(TruncOp::I32TruncF32S, f(-0.5)), Ok(0));
    assert_eq!(execute_trunc(TruncOp::I32TruncF32S, f(f32::NAN)), Err(TrapCode::InvalidConversionToInteger));
    assert_eq!(execute_trunc(TruncOp::I32TruncF32S, f(2147483648.0)), Err(TrapCode::IntegerOverflow));
    assert_eq!(execute_trunc(TruncOp::I32TruncF32S, f(-2147483648.0)), Ok(c32(i32::MIN)));
    assert_eq!(execute_trunc(TruncOp::I32TruncF32U, f(4294967040.0)), Ok(4294967040));
    assert_eq!(execute_trunc(TruncOp::I32TruncF32U, f(-0.9)), Ok(0));
    assert_eq!(execute_trunc(TruncOp::I32TruncF32U, f(-1.0)), Err(TrapCode::IntegerOverflow));
    assert_eq!(execute_trunc(TruncOp::I32TruncF64U, d(f64::INFINITY)), Err(TrapCode::IntegerOverflow));
    assert_eq!(execute_trunc(TruncOp::I32TruncF64S, d(-2147483648.9)), Ok(c32(i32::MIN)));
    assert_eq!(execute_trunc(TruncOp::I32TruncF64S, d(-2147483649.0)), Err(TrapCode::IntegerOverflow));
    assert_eq!(execute_trunc(TruncOp::I64TruncF64S, d(-9223372036854775808.0)), Ok(i64::MIN as u64));
    assert_eq!(execute_trunc(TruncOp::I64TruncF64S, d(9223372036854775808.0)), Err(TrapCode::IntegerOverflow));
    assert_eq!(execute_trunc(TruncOp::I64TruncF64U, d(18446744073709549568.0)), Ok(18446744073709549568));
    assert_eq!(execute_trunc(TruncOp::I64TruncF32U, f(1e20)), Err(TrapCode::IntegerOverflow));
    assert_eq!(execute_trunc(TruncOp::I64TruncF32S, f(-123456.75)), Ok((-123456i64) as u64));
    assert_eq!(execute_trunc(TruncOp::I64TruncF64U, d(f64::NAN)), Err(TrapCode::InvalidConversionToInteger));
    assert_eq!(execute_trunc(TruncOp::I32TruncF32S, f(1e-40)), Ok(0));

    assert_eq!(execute_trunc_sat(TruncOp::I32TruncF32S, f(f32::NAN)), 0);
    assert_eq!(execute_trunc_sat(TruncOp::I32TruncF32S, f(f32::INFINITY)), 0x7fff_ffff);
    assert_eq!(execute_trunc_sat(TruncOp::I32TruncF32S, f(f32::NEG_INFINITY)), 0x8000_0000);
    assert_eq!(execute_trunc_sat(TruncOp::I32TruncF32U, f(-5.0)), 0);
    assert_eq!(execute_trunc_sat(TruncOp::I32TruncF64U, d(1e12)), 0xffff_ffff);
    assert_eq!(execute_trunc_sat(TruncOp::I64TruncF64S, d(1e20)), i64::MAX as u64);
    assert_eq!(execute_trunc_sat(TruncOp::I64TruncF64S, d(-1e20)), i64::MIN as u64);
    assert_eq!(execute_trunc_sat(TruncOp::I64TruncF64U, d(1e30)), u64::MAX);
    assert_eq!(execute_trunc_sat(TruncOp::I64TruncF32S, f(-7.5)), (-7i64) as u64);
    for v in [0.0f64, 1.5, -3.25, 1e9, -2e9] {
        assert_eq!(execute_trunc_sat(TruncOp::I64TruncF64S, d(v)), v.trunc() as i64 as u64);
    }
}

#[test]
fn float_comparisons_on_bits() {
    let f = |v: f32| v.to_bits() as u64;
    let d = |v: f64| v.to_bits();
    let samples32 = [0.0f32, -0.0, 1.0, -1.0, 2.5, -1e30, f32::INFINITY, f32::NEG_INFINITY, f32::NAN, f32::MIN_POSITIVE];
    for &x in samples32.iter() {
        for &y in samples32.iter() {
            assert_eq!(execute_binary_op(BinaryOp::F32Eq, f(x), f(y)), Ok((x == y) as u64));
            assert_eq!(execute_binary_op(BinaryOp::F32Ne, f(x), f(y)), Ok((x != y) as u64));
            assert_eq!(execute_binary_op(BinaryOp::F32Lt, f(x), f(y)), Ok((x < y) as u64));
            assert_eq!(execute_binary_op(BinaryOp::F32Gt, f(x), f(y)), Ok((x > y) as u64));
            assert_eq!(execute_binary_op(BinaryOp::F32Le, f(x), f(y)), Ok((x <= y) as u64));
            assert_eq!(execute_binary_op(BinaryOp::F32Ge, f(x), f(y)), Ok((x >= y) as u64));
        }
    }
    let samples64 = [0.0f64, -0.0, 1.0, -1.0, 1e300, -2.5, f64::INFINITY, f64::NEG_INFINITY, f64::NAN];
    for &x in samples64.iter() {
        for &y in samples64.iter() {
            assert_eq!(execute_binary_op(BinaryOp::F64Eq, d(x), d(y)), Ok((x == y) as u64));
            assert_eq!(execute_binary_op(BinaryOp::F64Ne, d(x), d(y)), Ok((x != y) as u64));
            assert_eq!(execute_binary_op(BinaryOp::F64Lt, d(x), d(y)), Ok((x < y) as u64));
            assert_eq!(execute_binary_op(BinaryOp::F64Ge, d(x), d(y)), Ok((x >= y) as u64));
        }
    }
}

#[test]
fn float_min_max_on_bits() {
    let f = |v: f32| v.to_bits() as u64;
    let d = |v: f64| v.to_bits();
    assert_eq!(execute_binary_op(BinaryOp::F32Min, f(1.0), f(-2.0)), Ok(f(-2.0)));
    assert_eq!(execute_binary_op(BinaryOp::F32Max, f(1.0), f(-2.0)), Ok(f(1.0)));
    assert_eq!(execute_binary_op(BinaryOp::F32Min, f(0.0), f(-0.0)), Ok(f(-0.0)));
    assert_eq!(execute_binary_op(BinaryOp::F32Max, f(-0.0), f(0.0)), Ok(f(0.0)));
    assert_eq!(execute_binary_op(BinaryOp::F32Min, f(f32::NAN), f(1.0)), Ok(0x7fc0_0000));
    assert_eq!(execute_binary_op(BinaryOp::F32Max, f(1.0), f(-f32::NAN)), Ok(0x7fc0_0000));
    assert_eq!(execute_binary_op(BinaryOp::F32Max, f(f32::NEG_INFINITY), f(-1e38)), Ok(f(-1e38)));
    assert_eq!(execute_binary_op(BinaryOp::F64Min, d(-0.0), d(0.0)), Ok(d(-0.0)));
    assert_eq!(execute_binary_op(BinaryOp::F64Max, d(-0.0), d(0.0)), Ok(d(0.0)));
    assert_eq!(execute_binary_op(BinaryOp::F64Min, d(3.0), d(f64::INFINITY)), Ok(d(3.0)));
    assert_eq!(execute_binary_op(BinaryOp::F64Max, d(f64::NAN), d(3.0)), Ok(0x7ff8_0000_0000_0000));
    assert_eq!(execute_binary_op(BinaryOp::F32Min, 0xdead_0000_0000_0000 | f(2.0), f(3.0)), Ok(f(2.0)));
}

#[test]
fn counts_listed_fewest_first() {
    let mut counts = InstructionCounts::new();
    let ret = Instruction::Return;
    let br = Instruction::Branch { offset: 1 };
    for _ in 0..3 {
        counts.bump(&ret);
    }
    counts.bump(&br);
    let listing = counts.sorted_by_count();
    assert_eq!(listing.len(), NUM_INSTRUCTION_KINDS);
    assert_eq!(listing[NUM_INSTRUCTION_KINDS - 1], (instruction_kind(&ret), 3));
    assert_eq!(listing[NUM_INSTRUCTION_KINDS - 2], (instruction_kind(&br), 1));
    assert!(listing.windows(2).all(|w| w[0].1 <= w[1].1));
    let mut kinds: Vec<usize> = listing.iter().map(|e| e.0).collect();
    kinds.sort();
    assert_eq!(kinds, (0..NUM_INSTRUCTION_KINDS).collect::<Vec<_>>());
}

#[test]
fn counted_kinds_only_fewest_first() {
    let mut counts = InstructionCounts::new();
    counts.bump(&Instruction::Return);
    counts.bump(&Instruction::Return);
    counts.bump(&Instruction::Trap { trap_code: TrapCode::UnreachableCodeReached });
    assert_eq!(
        counts.nonzero_by_count(),
        vec![(instruction_kind(&Instruction::Trap { trap_code: TrapCode::OutOfFuel }), 1), (instruction_kind(&Instruction::Return), 2)]
    );
    // equal counts keep kind order
    let mut tied = InstructionCounts::new();
    tied.bump(&Instruction::Return);
    tied.bump(&Instruction::Branch { offset: 0 });
    let kr = instruction_kind(&Instruction::Return);
    let kb = instruction_kind(&Instruction::Branch { offset: 0 });
    assert_eq!(tied.nonzero_by_count(), vec![(kr.min(kb), 1), (kr.max(kb), 1)]);
    assert!(InstructionCounts::new().nonzero_by_count().is_empty());
}
