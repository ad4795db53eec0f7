//! Truncation of float bit patterns to integers, trapping and saturating.
//!
//! A float is read from a cell as its IEEE 754 bits: sign, biased exponent
//! and fraction. Truncation drops the fractional part of the value, which
//! for a finite float is `(2^p + fraction) * 2^(exponent - bias - p)` with
//! `p` fraction bits, or less than one when the exponent is below the bias.
use vstd::prelude::*;
use vstd::arithmetic::power2::{
    lemma2_to64, lemma2_to64_rest, lemma_pow2_adds, lemma_pow2_pos, lemma_pow2_strictly_increases, lemma_pow2_unfold,
    pow2,
};
use crate::value::{cell32, cell64, lo32, TrapCode};

verus! {

/// Float-to-integer truncations: target, source, signedness.
#[derive(Clone, Copy, Debug, PartialEq, Eq, Structural)]
pub enum TruncOp {
    I32TruncF32S,
    I32TruncF32U,
    I32TruncF64S,
    I32TruncF64U,
    I64TruncF32S,
    I64TruncF32U,
    I64TruncF64S,
    I64TruncF64U,
}

pub open spec fn source_is_f64(op: TruncOp) -> bool {
    match op {
        TruncOp::I32TruncF64S | TruncOp::I32TruncF64U | TruncOp::I64TruncF64S
        | TruncOp::I64TruncF64U => true,
        _ => false,
    }
}

pub open spec fn target_is_i64(op: TruncOp) -> bool {
    match op {
        TruncOp::I64TruncF32S | TruncOp::I64TruncF32U | TruncOp::I64TruncF64S
        | TruncOp::I64TruncF64U => true,
        _ => false,
    }
}

pub open spec fn is_signed(op: TruncOp) -> bool {
    match op {
        TruncOp::I32TruncF32S | TruncOp::I32TruncF64S | TruncOp::I64TruncF32S
        | TruncOp::I64TruncF64S => true,
        _ => false,
    }
}

/// The smallest integer the target type holds.
pub open spec fn target_min(op: TruncOp) -> int {
    if !is_signed(op) {
        0
    } else if target_is_i64(op) {
        -0x8000_0000_0000_0000
    } else {
        -0x8000_0000
    }
}

/// The largest integer the target type holds.
pub open spec fn target_max(op: TruncOp) -> int {
    if is_signed(op) {
        if target_is_i64(op) {
            0x7fff_ffff_ffff_ffff
        } else {
            0x7fff_ffff
        }
    } else if target_is_i64(op) {
        0xffff_ffff_ffff_ffff
    } else {
        0xffff_ffff
    }
}

/// The cell that holds integer `t` of the target type.
pub open spec fn target_cell(op: TruncOp, t: int) -> u64 {
    if target_is_i64(op) {
        cell64(t)
    } else {
        cell32(t)
    }
}

/// The float's sign bit is set.
pub open spec fn float_negative(a: u64, wide: bool) -> bool {
    if wide {
        a >= 0x8000_0000_0000_0000
    } else {
        lo32(a) >= 0x8000_0000
    }
}

/// The float's biased exponent.
pub open spec fn float_exponent(a: u64, wide: bool) -> int {
    if wide {
        (a / 0x10_0000_0000_0000) as int % 0x800
    } else {
        (lo32(a) / 0x80_0000) % 0x100
    }
}

/// The float's fraction bits.
pub open spec fn float_fraction(a: u64, wide: bool) -> int {
    if wide {
        a as int % 0x10_0000_0000_0000
    } else {
        lo32(a) % 0x80_0000
    }
}

pub open spec fn fraction_bits(wide: bool) -> nat {
    if wide {
        52
    } else {
        23
    }
}

pub open spec fn exponent_bias(wide: bool) -> int {
    if wide {
        1023
    } else {
        127
    }
}

pub open spec fn exponent_all_ones(wide: bool) -> int {
    if wide {
        0x7ff
    } else {
        0xff
    }
}

pub open spec fn is_nan_bits(a: u64, wide: bool) -> bool {
    float_exponent(a, wide) == exponent_all_ones(wide) && float_fraction(a, wide) != 0
}

pub open spec fn is_infinite_bits(a: u64, wide: bool) -> bool {
    float_exponent(a, wide) == exponent_all_ones(wide) && float_fraction(a, wide) == 0
}

/// The magnitude of the float truncated toward zero (for finite floats).
pub open spec fn trunc_magnitude(a: u64, wide: bool) -> nat {
    let e = float_exponent(a, wide);
    let p = fraction_bits(wide);
    if e < exponent_bias(wide) {
        0
    } else {
        let full = pow2(p) + float_fraction(a, wide) as nat;
        let k = e - exponent_bias(wide);
        if k >= p {
            full * pow2((k - p) as nat)
        } else {
            full / pow2((p - k) as nat)
        }
    }
}

/// The float truncated toward zero (for finite floats).
pub open spec fn trunc_int(a: u64, wide: bool) -> int {
    if float_negative(a, wide) {
        -trunc_magnitude(a, wide)
    } else {
        trunc_magnitude(a, wide) as int
    }
}

/// The trapping truncation: NaN is no integer, and an infinite or
/// out-of-range value overflows.
pub open spec fn trunc_spec(op: TruncOp, a: u64) -> Result<u64, TrapCode> {
    let wide = source_is_f64(op);
    if is_nan_bits(a, wide) {
        Err(TrapCode::InvalidConversionToInteger)
    } else if is_infinite_bits(a, wide) || trunc_int(a, wide) < target_min(op) || trunc_int(a, wide)
        > target_max(op) {
        Err(TrapCode::IntegerOverflow)
    } else {
        Ok(target_cell(op, trunc_int(a, wide)))
    }
}

/// The saturating truncation: NaN gives zero, and values beyond the target
/// range give its nearest end.
pub open spec fn trunc_sat_spec(op: TruncOp, a: u64) -> u64 {
    let wide = source_is_f64(op);
    if is_nan_bits(a, wide) {
        0
    } else if is_infinite_bits(a, wide) {
        if float_negative(a, wide) {
            target_cell(op, target_min(op))
        } else {
            target_cell(op, target_max(op))
        }
    } else if trunc_int(a, wide) < target_min(op) {
        target_cell(op, target_min(op))
    } else if trunc_int(a, wide) > target_max(op) {
        target_cell(op, target_max(op))
    } else {
        target_cell(op, trunc_int(a, wide))
    }
}

/// `2^n`.
fn pow2_u128(n: u64) -> (r: u128)
    requires
        n <= 64,
    ensures
        r == pow2(n as nat),
{
    let mut p: u128 = 1;
    let mut i: u64 = 0;
    proof {
        lemma2_to64();
        lemma2_to64_rest();
    }
    while i < n
        invariant
            i <= n <= 64,
            p == pow2(i as nat),
        decreases n - i,
    {
        proof {
            lemma_pow2_unfold((i + 1) as nat);
            if i + 1 < 64 {
                lemma_pow2_strictly_increases((i + 1) as nat, 64);
            }
            lemma2_to64();
        lemma2_to64_rest();
        }
        p = p * 2;
        i = i + 1;
    }
    p
}

/// Splits float bits into sign, biased exponent and fraction.
fn float_parts(a: u64, wide: bool) -> (r: (bool, u64, u64))
    ensures
        r.0 == float_negative(a, wide),
        r.1 == float_exponent(a, wide),
        r.2 == float_fraction(a, wide),
{
    if wide {
        assert((a >> 52u64) & 0x7ff == (a / 0x10_0000_0000_0000) % 0x800) by (bit_vector);
        assert(a & 0xf_ffff_ffff_ffff == a % 0x10_0000_0000_0000) by (bit_vector);
        (a >= 0x8000_0000_0000_0000, (a >> 52u64) & 0x7ff, a & 0xf_ffff_ffff_ffff)
    } else {
        let b = a & 0xffff_ffff;
        assert(a & 0xffff_ffff == a % 0x1_0000_0000) by (bit_vector);
        assert((b >> 23u64) & 0xff == (b / 0x80_0000) % 0x100) by (bit_vector);
        assert(b & 0x7f_ffff == b % 0x80_0000) by (bit_vector);
        (b >= 0x8000_0000, (b >> 23u64) & 0xff, b & 0x7f_ffff)
    }
}

/// The truncated magnitude of a finite float, or `None` when it is at least `2^64`.
fn magnitude(a: u64, wide: bool) -> (r: Option<u128>)
    requires
        !is_nan_bits(a, wide),
        !is_infinite_bits(a, wide),
    ensures
        match r {
            Some(m) => m == trunc_magnitude(a, wide) && m < 0x1_0000_0000_0000_0000,
            None => trunc_magnitude(a, wide) >= 0x1_0000_0000_0000_0000,
        },
{
    let (_, e, f) = float_parts(a, wide);
    let p: u64 = if wide {
        52
    } else {
        23
    };
    let bias: u64 = if wide {
        1023
    } else {
        127
    };
    if e < bias {
        return Some(0);
    }
    let k = e - bias;
    let one = pow2_u128(p);
    proof {
        lemma2_to64();
        lemma2_to64_rest();
        if wide {
            assert(one == 0x10_0000_0000_0000);
        } else {
            assert(one == 0x80_0000);
        }
        assert(f < one);
    }
    let full = one + f as u128;
    proof {
        lemma_pow2_unfold((p + 1) as nat);
        lemma_pow2_pos((k - p) as nat);
        lemma_pow2_adds(p as nat, (k - p) as nat);
    }
    if k > 63 {
        proof {
            let q = pow2((k - p) as nat);
            assert(full * q >= one * q) by (nonlinear_arith)
                requires
                    full >= one,
                    q > 0,
            ;
            if k > 64 {
                lemma_pow2_strictly_increases(64, k as nat);
            }
        }
        return None;
    }
    if k >= p {
        let q = pow2_u128(k - p);
        proof {
            lemma_pow2_adds((p + 1) as nat, (k - p) as nat);
            assert(full * q < pow2((p + 1) as nat) * q) by (nonlinear_arith)
                requires
                    full < pow2((p + 1) as nat),
                    q > 0,
            ;
            if k + 1 < 64 {
                lemma_pow2_strictly_increases((k + 1) as nat, 64);
            }
        }
        Some(full * q)
    } else {
        let q = pow2_u128(p - k);
        proof {
            lemma_pow2_pos((p - k) as nat);
            assert(full / q <= full) by (nonlinear_arith)
                requires
                    q > 0,
                    full >= 0,
            ;
            lemma_pow2_strictly_increases((p + 1) as nat, 64);
        }
        Some(full / q)
    }
}

/// The bounds of the target type.
fn target_bounds(op: TruncOp) -> (r: (i128, i128))
    ensures
        r.0 == target_min(op),
        r.1 == target_max(op),
{
    match op {
        TruncOp::I32TruncF32S | TruncOp::I32TruncF64S => (-0x8000_0000, 0x7fff_ffff),
        TruncOp::I32TruncF32U | TruncOp::I32TruncF64U => (0, 0xffff_ffff),
        TruncOp::I64TruncF32S | TruncOp::I64TruncF64S => (
            -0x8000_0000_0000_0000,
            0x7fff_ffff_ffff_ffff,
        ),
        TruncOp::I64TruncF32U | TruncOp::I64TruncF64U => (0, 0xffff_ffff_ffff_ffff),
    }
}

fn is_wide_source(op: TruncOp) -> (r: bool)
    ensures
        r == source_is_f64(op),
{
    match op {
        TruncOp::I32TruncF64S | TruncOp::I32TruncF64U | TruncOp::I64TruncF64S
        | TruncOp::I64TruncF64U => true,
        _ => false,
    }
}

/// The cell of integer `t`, which the target type holds.
fn target_cell_of(op: TruncOp, t: i128) -> (r: u64)
    requires
        target_min(op) <= t <= target_max(op),
    ensures
        r == target_cell(op, t as int),
{
    let wide_target = match op {
        TruncOp::I64TruncF32S | TruncOp::I64TruncF32U | TruncOp::I64TruncF64S
        | TruncOp::I64TruncF64U => true,
        _ => false,
    };
    if wide_target {
        if t < 0 {
            (t + 0x1_0000_0000_0000_0000) as u64
        } else {
            t as u64
        }
    } else if t < 0 {
        (t + 0x1_0000_0000) as u64
    } else {
        t as u64
    }
}

/// Truncates a non-NaN float: `Ok` with the integer where the target type
/// holds it, else `Err` telling whether it lies below the target range.
fn classify(op: TruncOp, a: u64) -> (r: Result<i128, bool>)
    requires
        !is_nan_bits(a, source_is_f64(op)),
    ensures
        ({
            let wide = source_is_f64(op);
            match r {
                Ok(t) => !is_infinite_bits(a, wide) && t == trunc_int(a, wide) && target_min(op) <= t
                    <= target_max(op),
                Err(below) => if is_infinite_bits(a, wide) {
                    below == float_negative(a, wide)
                } else {
                    (trunc_int(a, wide) < target_min(op) || trunc_int(a, wide) > target_max(op))
                        && below == (trunc_int(a, wide) < target_min(op))
                },
            }
        }),
{
    let wide = is_wide_source(op);
    let (negative, e, f) = float_parts(a, wide);
    let all_ones: u64 = if wide {
        0x7ff
    } else {
        0xff
    };
    if e == all_ones && f == 0 {
        return Err(negative);
    }
    let (lo, hi) = target_bounds(op);
    match magnitude(a, wide) {
        None => Err(negative),
        Some(m) => {
            let t: i128 = if negative {
                -(m as i128)
            } else {
                m as i128
            };
            if t < lo {
                Err(true)
            } else if t > hi {
                Err(false)
            } else {
                Ok(t)
            }
        },
    }
}

/// `iNN.trunc_fMM_{s,u}`: truncates toward zero, trapping on NaN and on
/// values the target type cannot hold.
pub fn execute_trunc(op: TruncOp, a: u64) -> (r: Result<u64, TrapCode>)
    ensures
        r == trunc_spec(op, a),
{
    let wide = is_wide_source(op);
    let (_, e, f) = float_parts(a, wide);
    let all_ones: u64 = if wide {
        0x7ff
    } else {
        0xff
    };
    if e == all_ones && f != 0 {
        return Err(TrapCode::InvalidConversionToInteger);
    }
    match classify(op, a) {
        Ok(t) => Ok(target_cell_of(op, t)),
        Err(_) => Err(TrapCode::IntegerOverflow),
    }
}

/// `iNN.trunc_sat_fMM_{s,u}`: truncates toward zero, saturating at the
/// ends of the target range; NaN gives zero.
pub fn execute_trunc_sat(op: TruncOp, a: u64) -> (r: u64)
    ensures
        r == trunc_sat_spec(op, a),
{
    let wide = is_wide_source(op);
    let (_, e, f) = float_parts(a, wide);
    let all_ones: u64 = if wide {
        0x7ff
    } else {
        0xff
    };
    if e == all_ones && f != 0 {
        return 0;
    }
    let (lo, hi) = target_bounds(op);
    match classify(op, a) {
        Ok(t) => target_cell_of(op, t),
        Err(true) => target_cell_of(op, lo),
        Err(false) => target_cell_of(op, hi),
    }
}

} // verus!
