//! Untyped 64-bit cells and the integer and bit-pattern operations on them.
//!
//! A cell holding an `i32` (or the bits of an `f32`) keeps the value in its
//! low 32 bits; operations read only those bits and write the result with
//! the high bits cleared. An `i64` (or the bits of an `f64`) fills the cell.
use vstd::prelude::*;
use vstd::std_specs::bits::{u32_leading_zeros, u32_trailing_zeros, u64_leading_zeros, u64_trailing_zeros};

verus! {

/// The kinds of trap that guest code can observe.
#[derive(Clone, Copy, Debug, PartialEq, Eq, Structural)]
pub enum TrapCode {
    UnreachableCodeReached,
    MemoryAccessOutOfBounds,
    TableAccessOutOfBounds,
    IndirectCallToNull,
    BadSignature,
    IntegerOverflow,
    IntegerDivisionByZero,
    InvalidConversionToInteger,
    StackOverflow,
    OutOfFuel,
    GrowthOperationLimited,
}

/// `2^32`.
pub open spec fn two32() -> int {
    0x1_0000_0000
}

/// `2^64`.
pub open spec fn two64() -> int {
    0x1_0000_0000_0000_0000
}

/// The low 32 bits of a cell, read as an unsigned number.
pub open spec fn lo32(a: u64) -> int {
    a as int % two32()
}

/// The low 32 bits of a cell, read as a two's complement number.
pub open spec fn s32(a: u64) -> int {
    if lo32(a) >= 0x8000_0000 {
        lo32(a) - two32()
    } else {
        lo32(a)
    }
}

/// The whole cell, read as a two's complement number.
pub open spec fn s64(a: u64) -> int {
    if a >= 0x8000_0000_0000_0000 {
        a - two64()
    } else {
        a as int
    }
}

/// The low `8` bits of a cell, read as a two's complement number.
pub open spec fn s8(a: u64) -> int {
    if a % 0x100 >= 0x80 {
        a % 0x100 - 0x100
    } else {
        (a % 0x100) as int
    }
}

/// The low `16` bits of a cell, read as a two's complement number.
pub open spec fn s16(a: u64) -> int {
    if a % 0x1_0000 >= 0x8000 {
        a % 0x1_0000 - 0x1_0000
    } else {
        (a % 0x1_0000) as int
    }
}

/// The cell holding the 32-bit value congruent to `v`, high bits clear.
pub open spec fn cell32(v: int) -> u64 {
    (v % two32()) as u64
}

/// The cell holding the 64-bit value congruent to `v`.
pub open spec fn cell64(v: int) -> u64 {
    (v % two64()) as u64
}

/// The cell that encodes a boolean: `1` for true, `0` for false.
pub open spec fn bool_cell(b: bool) -> u64 {
    if b {
        1
    } else {
        0
    }
}

pub open spec fn abs(x: int) -> int {
    if x < 0 {
        -x
    } else {
        x
    }
}

/// Division rounding toward zero.
pub open spec fn trunc_div(x: int, y: int) -> int {
    if (x < 0) != (y < 0) {
        -(abs(x) / abs(y))
    } else {
        abs(x) / abs(y)
    }
}

/// The remainder of [`trunc_div`]: it takes the sign of the dividend.
pub open spec fn trunc_rem(x: int, y: int) -> int {
    if x < 0 {
        -(abs(x) % abs(y))
    } else {
        abs(x) % abs(y)
    }
}

/// Rotation of a 32-bit value to the left by `k` bits, `k` taken modulo 32.
pub open spec fn rotl32(x: u32, k: int) -> u32 {
    let s = k % 32;
    if s == 0 {
        x
    } else {
        (x << s) | (x >> (32 - s))
    }
}

/// Rotation of a 64-bit value to the left by `k` bits, `k` taken modulo 64.
pub open spec fn rotl64(x: u64, k: int) -> u64 {
    let s = k % 64;
    if s == 0 {
        x
    } else {
        (x << s) | (x >> (64 - s))
    }
}

/// The low 32 bits of a cell hold a NaN.
pub open spec fn nan32(a: u64) -> bool {
    lo32(a) % 0x8000_0000 > 0x7f80_0000
}

/// The cell holds a NaN.
pub open spec fn nan64(a: u64) -> bool {
    a as int % 0x8000_0000_0000_0000 > 0x7ff0_0000_0000_0000
}

/// A number that orders non-NaN `f32` bit patterns as their values are
/// ordered: the magnitude bits, negated for a set sign bit. Both zeros map to 0.
pub open spec fn order32(a: u64) -> int {
    if lo32(a) >= 0x8000_0000 {
        -(lo32(a) - 0x8000_0000)
    } else {
        lo32(a)
    }
}

/// [`order32`] for `f64` bit patterns.
pub open spec fn order64(a: u64) -> int {
    if a >= 0x8000_0000_0000_0000 {
        -(a - 0x8000_0000_0000_0000)
    } else {
        a as int
    }
}

/// The NaN that float operations produce.
pub const CANONICAL_NAN_32: u64 = 0x7fc0_0000;

/// The NaN that float operations produce.
pub const CANONICAL_NAN_64: u64 = 0x7ff8_0000_0000_0000;

/// `f32.min` on bit patterns: NaN wins, and `-0` is below `+0`.
pub open spec fn fmin32(a: u64, b: u64) -> u64 {
    if nan32(a) || nan32(b) {
        CANONICAL_NAN_32
    } else if order32(a) < order32(b) {
        a & 0xffff_ffff
    } else if order32(a) > order32(b) {
        b & 0xffff_ffff
    } else {
        (a | b) & 0xffff_ffff
    }
}

/// `f32.max` on bit patterns: NaN wins, and `+0` is above `-0`.
pub open spec fn fmax32(a: u64, b: u64) -> u64 {
    if nan32(a) || nan32(b) {
        CANONICAL_NAN_32
    } else if order32(a) > order32(b) {
        a & 0xffff_ffff
    } else if order32(a) < order32(b) {
        b & 0xffff_ffff
    } else {
        (a & b) & 0xffff_ffff
    }
}

/// `f64.min` on bit patterns: NaN wins, and `-0` is below `+0`.
pub open spec fn fmin64(a: u64, b: u64) -> u64 {
    if nan64(a) || nan64(b) {
        CANONICAL_NAN_64
    } else if order64(a) < order64(b) {
        a
    } else if order64(a) > order64(b) {
        b
    } else {
        a | b
    }
}

/// `f64.max` on bit patterns: NaN wins, and `+0` is above `-0`.
pub open spec fn fmax64(a: u64, b: u64) -> u64 {
    if nan64(a) || nan64(b) {
        CANONICAL_NAN_64
    } else if order64(a) > order64(b) {
        a
    } else if order64(a) < order64(b) {
        b
    } else {
        a & b
    }
}

/// Operations of two operands.
#[derive(Clone, Copy, Debug, PartialEq, Eq, Structural)]
pub enum BinaryOp {
    I32Add,
    I32Sub,
    I32Mul,
    I32DivS,
    I32DivU,
    I32RemS,
    I32RemU,
    I32And,
    I32Or,
    I32Xor,
    I32AndEqz,
    I32OrEqz,
    I32XorEqz,
    I32Shl,
    I32ShrS,
    I32ShrU,
    I32Rotl,
    I32Rotr,
    I32Eq,
    I32Ne,
    I32LtS,
    I32LtU,
    I32LeS,
    I32LeU,
    I32GtS,
    I32GtU,
    I32GeS,
    I32GeU,
    I64Add,
    I64Sub,
    I64Mul,
    I64DivS,
    I64DivU,
    I64RemS,
    I64RemU,
    I64And,
    I64Or,
    I64Xor,
    I64Shl,
    I64ShrS,
    I64ShrU,
    I64Rotl,
    I64Rotr,
    I64Eq,
    I64Ne,
    I64LtS,
    I64LtU,
    I64LeS,
    I64LeU,
    I64GtS,
    I64GtU,
    I64GeS,
    I64GeU,
    F32Copysign,
    F64Copysign,
    F32Eq,
    F32Ne,
    F32Lt,
    F32Gt,
    F32Le,
    F32Ge,
    F64Eq,
    F64Ne,
    F64Lt,
    F64Gt,
    F64Le,
    F64Ge,
    F32Min,
    F32Max,
    F64Min,
    F64Max,
}

/// What a binary operation yields on the cells `a` (left) and `b` (right).
pub open spec fn binary_spec(op: BinaryOp, a: u64, b: u64) -> Result<u64, TrapCode> {
    match op {
        BinaryOp::I32Add => Ok(cell32(lo32(a) + lo32(b))),
        BinaryOp::I32Sub => Ok(cell32(lo32(a) - lo32(b))),
        BinaryOp::I32Mul => Ok(cell32(lo32(a) * lo32(b))),
        BinaryOp::I32DivS => if lo32(b) == 0 {
            Err(TrapCode::IntegerDivisionByZero)
        } else if s32(a) == -0x8000_0000 && s32(b) == -1 {
            Err(TrapCode::IntegerOverflow)
        } else {
            Ok(cell32(trunc_div(s32(a), s32(b))))
        },
        BinaryOp::I32DivU => if lo32(b) == 0 {
            Err(TrapCode::IntegerDivisionByZero)
        } else {
            Ok(cell32(lo32(a) / lo32(b)))
        },
        BinaryOp::I32RemS => if lo32(b) == 0 {
            Err(TrapCode::IntegerDivisionByZero)
        } else {
            Ok(cell32(trunc_rem(s32(a), s32(b))))
        },
        BinaryOp::I32RemU => if lo32(b) == 0 {
            Err(TrapCode::IntegerDivisionByZero)
        } else {
            Ok(cell32(lo32(a) % lo32(b)))
        },
        BinaryOp::I32And => Ok((a & b) & 0xffff_ffff),
        BinaryOp::I32Or => Ok((a | b) & 0xffff_ffff),
        BinaryOp::I32Xor => Ok((a ^ b) & 0xffff_ffff),
        BinaryOp::I32AndEqz => Ok(bool_cell((a & b) & 0xffff_ffff == 0)),
        BinaryOp::I32OrEqz => Ok(bool_cell((a | b) & 0xffff_ffff == 0)),
        BinaryOp::I32XorEqz => Ok(bool_cell((a ^ b) & 0xffff_ffff == 0)),
        BinaryOp::I32Shl => Ok(((a as u32) << (lo32(b) % 32)) as u64),
        BinaryOp::I32ShrS => Ok(cell32((s32(a) as i32 >> (lo32(b) % 32)) as int)),
        BinaryOp::I32ShrU => Ok(((a as u32) >> (lo32(b) % 32)) as u64),
        BinaryOp::I32Rotl => Ok(rotl32(a as u32, lo32(b)) as u64),
        BinaryOp::I32Rotr => Ok(rotl32(a as u32, 32 - lo32(b) % 32) as u64),
        BinaryOp::I32Eq => Ok(bool_cell(lo32(a) == lo32(b))),
        BinaryOp::I32Ne => Ok(bool_cell(lo32(a) != lo32(b))),
        BinaryOp::I32LtS => Ok(bool_cell(s32(a) < s32(b))),
        BinaryOp::I32LtU => Ok(bool_cell(lo32(a) < lo32(b))),
        BinaryOp::I32LeS => Ok(bool_cell(s32(a) <= s32(b))),
        BinaryOp::I32LeU => Ok(bool_cell(lo32(a) <= lo32(b))),
        BinaryOp::I32GtS => Ok(bool_cell(s32(a) > s32(b))),
        BinaryOp::I32GtU => Ok(bool_cell(lo32(a) > lo32(b))),
        BinaryOp::I32GeS => Ok(bool_cell(s32(a) >= s32(b))),
        BinaryOp::I32GeU => Ok(bool_cell(lo32(a) >= lo32(b))),
        BinaryOp::I64Add => Ok(cell64(a + b)),
        BinaryOp::I64Sub => Ok(cell64(a - b)),
        BinaryOp::I64Mul => Ok(cell64(a * b)),
        BinaryOp::I64DivS => if b == 0 {
            Err(TrapCode::IntegerDivisionByZero)
        } else if s64(a) == -0x8000_0000_0000_0000 && s64(b) == -1 {
            Err(TrapCode::IntegerOverflow)
        } else {
            Ok(cell64(trunc_div(s64(a), s64(b))))
        },
        BinaryOp::I64DivU => if b == 0 {
            Err(TrapCode::IntegerDivisionByZero)
        } else {
            Ok(a / b)
        },
        BinaryOp::I64RemS => if b == 0 {
            Err(TrapCode::IntegerDivisionByZero)
        } else {
            Ok(cell64(trunc_rem(s64(a), s64(b))))
        },
        BinaryOp::I64RemU => if b == 0 {
            Err(TrapCode::IntegerDivisionByZero)
        } else {
            Ok(a % b)
        },
        BinaryOp::I64And => Ok(a & b),
        BinaryOp::I64Or => Ok(a | b),
        BinaryOp::I64Xor => Ok(a ^ b),
        BinaryOp::I64Shl => Ok(a << (b % 64)),
        BinaryOp::I64ShrS => Ok(cell64((s64(a) as i64 >> (b % 64)) as int)),
        BinaryOp::I64ShrU => Ok(a >> (b % 64)),
        BinaryOp::I64Rotl => Ok(rotl64(a, b as int)),
        BinaryOp::I64Rotr => Ok(rotl64(a, 64 - b % 64)),
        BinaryOp::I64Eq => Ok(bool_cell(a == b)),
        BinaryOp::I64Ne => Ok(bool_cell(a != b)),
        BinaryOp::I64LtS => Ok(bool_cell(s64(a) < s64(b))),
        BinaryOp::I64LtU => Ok(bool_cell(a < b)),
        BinaryOp::I64LeS => Ok(bool_cell(s64(a) <= s64(b))),
        BinaryOp::I64LeU => Ok(bool_cell(a <= b)),
        BinaryOp::I64GtS => Ok(bool_cell(s64(a) > s64(b))),
        BinaryOp::I64GtU => Ok(bool_cell(a > b)),
        BinaryOp::I64GeS => Ok(bool_cell(s64(a) >= s64(b))),
        BinaryOp::I64GeU => Ok(bool_cell(a >= b)),
        BinaryOp::F32Copysign => Ok((a & 0x7fff_ffff) | (b & 0x8000_0000)),
        BinaryOp::F64Copysign => Ok((a & 0x7fff_ffff_ffff_ffff) | (b & 0x8000_0000_0000_0000)),
        BinaryOp::F32Eq => Ok(bool_cell(!nan32(a) && !nan32(b) && order32(a) == order32(b))),
        BinaryOp::F32Ne => Ok(bool_cell(!(!nan32(a) && !nan32(b) && order32(a) == order32(b)))),
        BinaryOp::F32Lt => Ok(bool_cell(!nan32(a) && !nan32(b) && order32(a) < order32(b))),
        BinaryOp::F32Gt => Ok(bool_cell(!nan32(a) && !nan32(b) && order32(a) > order32(b))),
        BinaryOp::F32Le => Ok(bool_cell(!nan32(a) && !nan32(b) && order32(a) <= order32(b))),
        BinaryOp::F32Ge => Ok(bool_cell(!nan32(a) && !nan32(b) && order32(a) >= order32(b))),
        BinaryOp::F64Eq => Ok(bool_cell(!nan64(a) && !nan64(b) && order64(a) == order64(b))),
        BinaryOp::F64Ne => Ok(bool_cell(!(!nan64(a) && !nan64(b) && order64(a) == order64(b)))),
        BinaryOp::F64Lt => Ok(bool_cell(!nan64(a) && !nan64(b) && order64(a) < order64(b))),
        BinaryOp::F64Gt => Ok(bool_cell(!nan64(a) && !nan64(b) && order64(a) > order64(b))),
        BinaryOp::F64Le => Ok(bool_cell(!nan64(a) && !nan64(b) && order64(a) <= order64(b))),
        BinaryOp::F64Ge => Ok(bool_cell(!nan64(a) && !nan64(b) && order64(a) >= order64(b))),
        BinaryOp::F32Min => Ok(fmin32(a, b)),
        BinaryOp::F32Max => Ok(fmax32(a, b)),
        BinaryOp::F64Min => Ok(fmin64(a, b)),
        BinaryOp::F64Max => Ok(fmax64(a, b)),
    }
}

proof fn lemma_lo32(a: u64)
    ensures
        (a as u32) as int == lo32(a),
        (a as u32) as u64 == cell32(lo32(a)),
{
    assert((a as u32) as u64 == a % 0x1_0000_0000) by (bit_vector);
}

proof fn lemma_s32(x: u32)
    ensures
        (x as i32) as int == if x >= 0x8000_0000 { x - 0x1_0000_0000 } else { x as int },
{
    assert((x as i32) as int == if x >= 0x8000_0000 { x - 0x1_0000_0000 } else { x as int })
        by (bit_vector);
}

proof fn lemma_s64(x: u64)
    ensures
        (x as i64) as int == s64(x),
{
    assert((x as i64) as int == if x >= 0x8000_0000_0000_0000 {
        x - 0x1_0000_0000_0000_0000
    } else {
        x as int
    }) by (bit_vector);
}

proof fn lemma_i32_bits(q: i32)
    ensures
        (q as u32) as u64 == cell32(q as int),
{
    assert((q as u32) as int == if q < 0 { q + 0x1_0000_0000 } else { q as int }) by (bit_vector);
}

pub proof fn lemma_i64_bits(q: i64)
    ensures
        q as u64 == cell64(q as int),
{
    assert((q as u64) as int == if q < 0 { q + 0x1_0000_0000_0000_0000 } else { q as int })
        by (bit_vector);
}

proof fn lemma_trunc_div_rem(x: int, d: int)
    requires
        d != 0,
    ensures
        trunc_div(x, d) == (if x == 0 {
            0
        } else if x > 0 && d > 0 {
            x / d
        } else if x < 0 && d < 0 {
            (x * -1) / (d * -1)
        } else if x < 0 {
            ((x * -1) / d) * -1
        } else {
            (x / (d * -1)) * -1
        }),
        trunc_rem(x, d) == (if x == 0 {
            0
        } else if x > 0 && d > 0 {
            x % d
        } else if x < 0 && d < 0 {
            ((x * -1) % (d * -1)) * -1
        } else if x < 0 {
            ((x * -1) % d) * -1
        } else {
            x % (d * -1)
        }),
        abs(trunc_div(x, d)) <= abs(x),
        abs(d) >= 2 ==> 2 * abs(trunc_div(x, d)) <= abs(x),
        abs(trunc_rem(x, d)) < abs(d),
        abs(trunc_rem(x, d)) <= abs(x),
{
    let ax = abs(x);
    let ad = abs(d);
    assert(ax / ad <= ax) by (nonlinear_arith)
        requires
            ax >= 0,
            ad >= 1,
    ;
    assert(ad >= 2 ==> 2 * (ax / ad) <= ax) by (nonlinear_arith)
        requires
            ax >= 0,
            ad >= 1,
    ;
    assert(ax % ad < ad && ax % ad <= ax) by (nonlinear_arith)
        requires
            ax >= 0,
            ad >= 1,
    ;
    if x == 0 {
        assert(0int / ad == 0) by (nonlinear_arith)
            requires
                ad >= 1,
        ;
        assert(0int % ad == 0) by (nonlinear_arith)
            requires
                ad >= 1,
        ;
    }
}

/// Reads the low 32 bits of a cell as `u32`.
pub fn low_u32(a: u64) -> (r: u32)
    ensures
        r as int == lo32(a),
{
    proof {
        lemma_lo32(a);
    }
    a as u32
}

/// Reads the low 32 bits of a cell as `i32`.
fn low_i32(a: u64) -> (r: i32)
    ensures
        r as int == s32(a),
{
    proof {
        lemma_lo32(a);
        lemma_s32(a as u32);
    }
    a as u32 as i32
}

/// Reads the whole cell as `i64`.
fn full_i64(a: u64) -> (r: i64)
    ensures
        r as int == s64(a),
{
    proof {
        lemma_s64(a);
    }
    a as i64
}

/// Writes an `i32` into a cell.
fn from_i32(q: i32) -> (r: u64)
    ensures
        r == cell32(q as int),
{
    proof {
        lemma_i32_bits(q);
    }
    q as u32 as u64
}

/// Writes an `i64` into a cell.
fn from_i64(q: i64) -> (r: u64)
    ensures
        r == cell64(q as int),
{
    proof {
        lemma_i64_bits(q);
    }
    q as u64
}

/// Writes a `u32` into a cell.
fn from_u32(q: u32) -> (r: u64)
    ensures
        r == cell32(q as int),
        r == q as u64,
{
    q as u64
}

/// Makes the cell for a comparison result.
fn from_bool(b: bool) -> (r: u64)
    ensures
        r == bool_cell(b),
{
    if b {
        1
    } else {
        0
    }
}

/// `i32.div_s`: signed division rounding toward zero.
pub fn i32_div_s(a: u64, b: u64) -> (r: Result<u64, TrapCode>)
    ensures
        r == binary_spec(BinaryOp::I32DivS, a, b),
{
    let x = low_i32(a);
    let y = low_i32(b);
    if y == 0 {
        return Err(TrapCode::IntegerDivisionByZero);
    }
    if x == i32::MIN && y == -1 {
        return Err(TrapCode::IntegerOverflow);
    }
    proof {
        lemma_trunc_div_rem(x as int, y as int);
    }
    match x.checked_div(y) {
        Some(q) => Ok(from_i32(q)),
        None => Err(TrapCode::IntegerOverflow),
    }
}

/// `i32.rem_s`: the remainder of signed division; it takes the sign of `a`.
pub fn i32_rem_s(a: u64, b: u64) -> (r: Result<u64, TrapCode>)
    ensures
        r == binary_spec(BinaryOp::I32RemS, a, b),
{
    let x = low_i32(a);
    let y = low_i32(b);
    if y == 0 {
        return Err(TrapCode::IntegerDivisionByZero);
    }
    if y == -1 {
        assert(trunc_rem(s32(a), s32(b)) == 0);
        return Ok(0);
    }
    proof {
        lemma_trunc_div_rem(x as int, y as int);
    }
    match x.checked_rem(y) {
        Some(q) => Ok(from_i32(q)),
        None => Err(TrapCode::IntegerOverflow),
    }
}

/// `i64.div_s`: signed division rounding toward zero.
pub fn i64_div_s(a: u64, b: u64) -> (r: Result<u64, TrapCode>)
    ensures
        r == binary_spec(BinaryOp::I64DivS, a, b),
{
    let x = full_i64(a);
    let y = full_i64(b);
    if y == 0 {
        return Err(TrapCode::IntegerDivisionByZero);
    }
    if x == i64::MIN && y == -1 {
        return Err(TrapCode::IntegerOverflow);
    }
    proof {
        lemma_trunc_div_rem(x as int, y as int);
    }
    match x.checked_div(y) {
        Some(q) => Ok(from_i64(q)),
        None => Err(TrapCode::IntegerOverflow),
    }
}

/// `i64.rem_s`: the remainder of signed division; it takes the sign of `a`.
pub fn i64_rem_s(a: u64, b: u64) -> (r: Result<u64, TrapCode>)
    ensures
        r == binary_spec(BinaryOp::I64RemS, a, b),
{
    let x = full_i64(a);
    let y = full_i64(b);
    if y == 0 {
        return Err(TrapCode::IntegerDivisionByZero);
    }
    if y == -1 {
        assert(trunc_rem(s64(a), s64(b)) == 0);
        return Ok(0);
    }
    proof {
        lemma_trunc_div_rem(x as int, y as int);
    }
    match x.checked_rem(y) {
        Some(q) => Ok(from_i64(q)),
        None => Err(TrapCode::IntegerOverflow),
    }
}


/// Number of set bits of a natural number.
pub open spec fn popcount(x: nat) -> nat
    decreases x,
{
    if x == 0 {
        0
    } else {
        (x % 2) + popcount(x / 2)
    }
}

/// Operations of one operand.
#[derive(Clone, Copy, Debug, PartialEq, Eq, Structural)]
pub enum UnaryOp {
    I32Eqz,
    I32Clz,
    I32Ctz,
    I32Popcnt,
    I64Eqz,
    I64Clz,
    I64Ctz,
    I64Popcnt,
    I32WrapI64,
    I64ExtendI32S,
    I64ExtendI32U,
    I32Extend8S,
    I32Extend16S,
    I64Extend8S,
    I64Extend16S,
    I64Extend32S,
    F32Abs,
    F32Neg,
    F64Abs,
    F64Neg,
    I32ReinterpretF32,
    I64ReinterpretF64,
    F32ReinterpretI32,
    F64ReinterpretI64,
}

/// What a unary operation yields on the cell `a`.
pub open spec fn unary_spec(op: UnaryOp, a: u64) -> u64 {
    match op {
        UnaryOp::I32Eqz => bool_cell(lo32(a) == 0),
        UnaryOp::I32Clz => u32_leading_zeros(a as u32) as u64,
        UnaryOp::I32Ctz => u32_trailing_zeros(a as u32) as u64,
        UnaryOp::I32Popcnt => popcount(lo32(a) as nat) as u64,
        UnaryOp::I64Eqz => bool_cell(a == 0),
        UnaryOp::I64Clz => u64_leading_zeros(a) as u64,
        UnaryOp::I64Ctz => u64_trailing_zeros(a) as u64,
        UnaryOp::I64Popcnt => popcount(a as nat) as u64,
        UnaryOp::I32WrapI64 => cell32(a as int),
        UnaryOp::I64ExtendI32S => cell64(s32(a)),
        UnaryOp::I64ExtendI32U => cell64(lo32(a)),
        UnaryOp::I32Extend8S => cell32(s8(a)),
        UnaryOp::I32Extend16S => cell32(s16(a)),
        UnaryOp::I64Extend8S => cell64(s8(a)),
        UnaryOp::I64Extend16S => cell64(s16(a)),
        UnaryOp::I64Extend32S => cell64(s32(a)),
        UnaryOp::F32Abs => a & 0x7fff_ffff,
        UnaryOp::F32Neg => (a & 0xffff_ffff) ^ 0x8000_0000,
        UnaryOp::F64Abs => a & 0x7fff_ffff_ffff_ffff,
        UnaryOp::F64Neg => a ^ 0x8000_0000_0000_0000,
        UnaryOp::I32ReinterpretF32 => a & 0xffff_ffff,
        UnaryOp::I64ReinterpretF64 => a,
        UnaryOp::F32ReinterpretI32 => a & 0xffff_ffff,
        UnaryOp::F64ReinterpretI64 => a,
    }
}

proof fn lemma_s8(a: u64)
    ensures
        ((a as u8) as i8) as int == s8(a),
{
    assert(((a as u8) as i8) as int == if a % 0x100 >= 0x80 {
        (a % 0x100) as int - 0x100
    } else {
        (a % 0x100) as int
    }) by (bit_vector);
}

proof fn lemma_s16(a: u64)
    ensures
        ((a as u16) as i16) as int == s16(a),
{
    assert(((a as u16) as i16) as int == if a % 0x1_0000 >= 0x8000 {
        (a % 0x1_0000) as int - 0x1_0000
    } else {
        (a % 0x1_0000) as int
    }) by (bit_vector);
}

/// Counts the set bits of `x`.
fn count_ones(x: u64) -> (r: u64)
    ensures
        r as nat == popcount(x as nat),
{
    let mut rest: u64 = x;
    let mut count: u64 = 0;
    let mut i: u64 = 0;
    assert(x >> 0u64 == x) by (bit_vector);
    while i < 64
        invariant
            i <= 64,
            count <= i,
            rest == x >> i,
            count + popcount(rest as nat) == popcount(x as nat),
        decreases 64 - i,
    {
        assert(rest & 1 == rest % 2 && rest >> 1 == rest / 2) by (bit_vector);
        assert((x >> i) >> 1u64 == x >> ((i + 1) as u64)) by (bit_vector)
            requires
                i < 64,
        ;
        count = count + (rest & 1);
        rest = rest >> 1;
        i = i + 1;
    }
    assert(x >> 64u64 == 0) by (bit_vector);
    count
}

/// Applies a unary operation to a cell.
pub fn execute_unary_op(op: UnaryOp, a: u64) -> (r: u64)
    ensures
        r == unary_spec(op, a),
{
    proof {
        lemma_lo32(a);
    }
    match op {
        UnaryOp::I32Eqz => from_bool(low_u32(a) == 0),
        UnaryOp::I32Clz => (a as u32).leading_zeros() as u64,
        UnaryOp::I32Ctz => (a as u32).trailing_zeros() as u64,
        UnaryOp::I32Popcnt => count_ones(low_u32(a) as u64),
        UnaryOp::I64Eqz => from_bool(a == 0),
        UnaryOp::I64Clz => a.leading_zeros() as u64,
        UnaryOp::I64Ctz => a.trailing_zeros() as u64,
        UnaryOp::I64Popcnt => count_ones(a),
        UnaryOp::I32WrapI64 => from_u32(a as u32),
        UnaryOp::I64ExtendI32S => from_i64(low_i32(a) as i64),
        UnaryOp::I64ExtendI32U => low_u32(a) as u64,
        UnaryOp::I32Extend8S => {
            proof {
                lemma_s8(a);
            }
            from_i32((a as u8 as i8) as i32)
        },
        UnaryOp::I32Extend16S => {
            proof {
                lemma_s16(a);
            }
            from_i32((a as u16 as i16) as i32)
        },
        UnaryOp::I64Extend8S => {
            proof {
                lemma_s8(a);
            }
            from_i64((a as u8 as i8) as i64)
        },
        UnaryOp::I64Extend16S => {
            proof {
                lemma_s16(a);
            }
            from_i64((a as u16 as i16) as i64)
        },
        UnaryOp::I64Extend32S => from_i64(low_i32(a) as i64),
        UnaryOp::F32Abs => a & 0x7fff_ffff,
        UnaryOp::F32Neg => (a & 0xffff_ffff) ^ 0x8000_0000,
        UnaryOp::F64Abs => a & 0x7fff_ffff_ffff_ffff,
        UnaryOp::F64Neg => a ^ 0x8000_0000_0000_0000,
        UnaryOp::I32ReinterpretF32 => a & 0xffff_ffff,
        UnaryOp::I64ReinterpretF64 => a,
        UnaryOp::F32ReinterpretI32 => a & 0xffff_ffff,
        UnaryOp::F64ReinterpretI64 => a,
    }
}

/// Rotates a 32-bit value left by `k` bits, `k` taken modulo 32.
fn rotate_left_u32(x: u32, k: u32) -> (r: u32)
    ensures
        r == rotl32(x, k as int),
{
    let s = k % 32;
    if s == 0 {
        x
    } else {
        (x << s) | (x >> (32 - s))
    }
}

/// Rotates a 64-bit value left by `k` bits, `k` taken modulo 64.
fn rotate_left_u64(x: u64, k: u64) -> (r: u64)
    ensures
        r == rotl64(x, k as int),
{
    let s = k % 64;
    if s == 0 {
        x
    } else {
        (x << s) | (x >> (64 - s))
    }
}

/// Applies a binary operation to two cells, trapping where Wasm traps.
pub fn execute_binary_op(op: BinaryOp, a: u64, b: u64) -> (r: Result<u64, TrapCode>)
    ensures
        r == binary_spec(op, a, b),
{
    proof {
        lemma_lo32(a);
        lemma_lo32(b);
    }
    let x = low_u32(a);
    let y = low_u32(b);
    match op {
        BinaryOp::I32Add => Ok(from_u32(x.wrapping_add(y))),
        BinaryOp::I32Sub => Ok(from_u32(x.wrapping_sub(y))),
        BinaryOp::I32Mul => Ok(from_u32(x.wrapping_mul(y))),
        BinaryOp::I32DivS => i32_div_s(a, b),
        BinaryOp::I32DivU => if y == 0 {
            Err(TrapCode::IntegerDivisionByZero)
        } else {
            Ok(from_u32(x / y))
        },
        BinaryOp::I32RemS => i32_rem_s(a, b),
        BinaryOp::I32RemU => if y == 0 {
            Err(TrapCode::IntegerDivisionByZero)
        } else {
            Ok(from_u32(x % y))
        },
        BinaryOp::I32And => Ok((a & b) & 0xffff_ffff),
        BinaryOp::I32Or => Ok((a | b) & 0xffff_ffff),
        BinaryOp::I32Xor => Ok((a ^ b) & 0xffff_ffff),
        BinaryOp::I32AndEqz => Ok(from_bool((a & b) & 0xffff_ffff == 0)),
        BinaryOp::I32OrEqz => Ok(from_bool((a | b) & 0xffff_ffff == 0)),
        BinaryOp::I32XorEqz => Ok(from_bool((a ^ b) & 0xffff_ffff == 0)),
        BinaryOp::I32Shl => Ok((x << (y % 32)) as u64),
        BinaryOp::I32ShrS => Ok(from_i32(low_i32(a) >> (y % 32))),
        BinaryOp::I32ShrU => Ok((x >> (y % 32)) as u64),
        BinaryOp::I32Rotl => Ok(rotate_left_u32(x, y) as u64),
        BinaryOp::I32Rotr => Ok(rotate_left_u32(x, 32 - y % 32) as u64),
        BinaryOp::I32Eq => Ok(from_bool(x == y)),
        BinaryOp::I32Ne => Ok(from_bool(x != y)),
        BinaryOp::I32LtS => Ok(from_bool(low_i32(a) < low_i32(b))),
        BinaryOp::I32LtU => Ok(from_bool(x < y)),
        BinaryOp::I32LeS => Ok(from_bool(low_i32(a) <= low_i32(b))),
        BinaryOp::I32LeU => Ok(from_bool(x <= y)),
        BinaryOp::I32GtS => Ok(from_bool(low_i32(a) > low_i32(b))),
        BinaryOp::I32GtU => Ok(from_bool(x > y)),
        BinaryOp::I32GeS => Ok(from_bool(low_i32(a) >= low_i32(b))),
        BinaryOp::I32GeU => Ok(from_bool(x >= y)),
        BinaryOp::I64Add => Ok(a.wrapping_add(b)),
        BinaryOp::I64Sub => Ok(a.wrapping_sub(b)),
        BinaryOp::I64Mul => Ok(a.wrapping_mul(b)),
        BinaryOp::I64DivS => i64_div_s(a, b),
        BinaryOp::I64DivU => if b == 0 {
            Err(TrapCode::IntegerDivisionByZero)
        } else {
            Ok(a / b)
        },
        BinaryOp::I64RemS => i64_rem_s(a, b),
        BinaryOp::I64RemU => if b == 0 {
            Err(TrapCode::IntegerDivisionByZero)
        } else {
            Ok(a % b)
        },
        BinaryOp::I64And => Ok(a & b),
        BinaryOp::I64Or => Ok(a | b),
        BinaryOp::I64Xor => Ok(a ^ b),
        BinaryOp::I64Shl => Ok(a << (b % 64)),
        BinaryOp::I64ShrS => Ok(from_i64(full_i64(a) >> (b % 64))),
        BinaryOp::I64ShrU => Ok(a >> (b % 64)),
        BinaryOp::I64Rotl => Ok(rotate_left_u64(a, b)),
        BinaryOp::I64Rotr => Ok(rotate_left_u64(a, 64 - b % 64)),
        BinaryOp::I64Eq => Ok(from_bool(a == b)),
        BinaryOp::I64Ne => Ok(from_bool(a != b)),
        BinaryOp::I64LtS => Ok(from_bool(full_i64(a) < full_i64(b))),
        BinaryOp::I64LtU => Ok(from_bool(a < b)),
        BinaryOp::I64LeS => Ok(from_bool(full_i64(a) <= full_i64(b))),
        BinaryOp::I64LeU => Ok(from_bool(a <= b)),
        BinaryOp::I64GtS => Ok(from_bool(full_i64(a) > full_i64(b))),
        BinaryOp::I64GtU => Ok(from_bool(a > b)),
        BinaryOp::I64GeS => Ok(from_bool(full_i64(a) >= full_i64(b))),
        BinaryOp::I64GeU => Ok(from_bool(a >= b)),
        BinaryOp::F32Copysign => Ok((a & 0x7fff_ffff) | (b & 0x8000_0000)),
        BinaryOp::F64Copysign => Ok((a & 0x7fff_ffff_ffff_ffff) | (b & 0x8000_0000_0000_0000)),
        BinaryOp::F32Eq => {
            let (x, y) = (float_key32(a), float_key32(b));
            Ok(from_bool(x.is_some() && y.is_some() && x == y))
        },
        BinaryOp::F32Ne => {
            let (x, y) = (float_key32(a), float_key32(b));
            Ok(from_bool(!(x.is_some() && y.is_some() && x == y)))
        },
        BinaryOp::F32Lt => Ok(from_bool(match (float_key32(a), float_key32(b)) {
            (Some(x), Some(y)) => x < y,
            _ => false,
        })),
        BinaryOp::F32Gt => Ok(from_bool(match (float_key32(a), float_key32(b)) {
            (Some(x), Some(y)) => x > y,
            _ => false,
        })),
        BinaryOp::F32Le => Ok(from_bool(match (float_key32(a), float_key32(b)) {
            (Some(x), Some(y)) => x <= y,
            _ => false,
        })),
        BinaryOp::F32Ge => Ok(from_bool(match (float_key32(a), float_key32(b)) {
            (Some(x), Some(y)) => x >= y,
            _ => false,
        })),
        BinaryOp::F64Eq => {
            let (x, y) = (float_key64(a), float_key64(b));
            Ok(from_bool(x.is_some() && y.is_some() && x == y))
        },
        BinaryOp::F64Ne => {
            let (x, y) = (float_key64(a), float_key64(b));
            Ok(from_bool(!(x.is_some() && y.is_some() && x == y)))
        },
        BinaryOp::F64Lt => Ok(from_bool(match (float_key64(a), float_key64(b)) {
            (Some(x), Some(y)) => x < y,
            _ => false,
        })),
        BinaryOp::F64Gt => Ok(from_bool(match (float_key64(a), float_key64(b)) {
            (Some(x), Some(y)) => x > y,
            _ => false,
        })),
        BinaryOp::F64Le => Ok(from_bool(match (float_key64(a), float_key64(b)) {
            (Some(x), Some(y)) => x <= y,
            _ => false,
        })),
        BinaryOp::F64Ge => Ok(from_bool(match (float_key64(a), float_key64(b)) {
            (Some(x), Some(y)) => x >= y,
            _ => false,
        })),
        BinaryOp::F32Min => Ok(match (float_key32(a), float_key32(b)) {
            (Some(x), Some(y)) => if x < y {
                a & 0xffff_ffff
            } else if x > y {
                b & 0xffff_ffff
            } else {
                (a | b) & 0xffff_ffff
            },
            _ => CANONICAL_NAN_32,
        }),
        BinaryOp::F32Max => Ok(match (float_key32(a), float_key32(b)) {
            (Some(x), Some(y)) => if x > y {
                a & 0xffff_ffff
            } else if x < y {
                b & 0xffff_ffff
            } else {
                (a & b) & 0xffff_ffff
            },
            _ => CANONICAL_NAN_32,
        }),
        BinaryOp::F64Min => Ok(match (float_key64(a), float_key64(b)) {
            (Some(x), Some(y)) => if x < y {
                a
            } else if x > y {
                b
            } else {
                a | b
            },
            _ => CANONICAL_NAN_64,
        }),
        BinaryOp::F64Max => Ok(match (float_key64(a), float_key64(b)) {
            (Some(x), Some(y)) => if x > y {
                a
            } else if x < y {
                b
            } else {
                a & b
            },
            _ => CANONICAL_NAN_64,
        }),
    }
}

/// The ordering number of the `f32` in the low bits of `a`, or `None` for a NaN.
fn float_key32(a: u64) -> (r: Option<i64>)
    ensures
        match r {
            Some(k) => !nan32(a) && k == order32(a),
            None => nan32(a),
        },
{
    proof {
        lemma_lo32(a);
    }
    let x = a as u32;
    let magnitude = x & 0x7fff_ffff;
    assert(magnitude == x % 0x8000_0000) by (bit_vector)
        requires
            magnitude == x & 0x7fff_ffff,
    ;
    if magnitude > 0x7f80_0000 {
        None
    } else if x >= 0x8000_0000 {
        Some(-(magnitude as i64))
    } else {
        Some(magnitude as i64)
    }
}

/// The ordering number of the `f64` in `a`, or `None` for a NaN.
fn float_key64(a: u64) -> (r: Option<i64>)
    ensures
        match r {
            Some(k) => !nan64(a) && k == order64(a),
            None => nan64(a),
        },
{
    let magnitude = a & 0x7fff_ffff_ffff_ffff;
    assert(magnitude == a % 0x8000_0000_0000_0000) by (bit_vector)
        requires
            magnitude == a & 0x7fff_ffff_ffff_ffff,
    ;
    if magnitude > 0x7ff0_0000_0000_0000 {
        None
    } else if a >= 0x8000_0000_0000_0000 {
        Some(-(magnitude as i64))
    } else {
        Some(magnitude as i64)
    }
}

} // verus!
