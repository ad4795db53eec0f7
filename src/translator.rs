//! Helpers that translation uses to pick operand encodings.
use vstd::prelude::*;
use crate::instr::{BoundedRegSpan, Reg};

verus! {

/// A WebAssembly integer: `i32` or `i64`, or their unsigned readings.
pub trait WasmInteger: Sized {
    /// The shift amount of `self`: `self` modulo the bit width, in `0..bitsize`.
    spec fn shift_amount_spec(self) -> i16;

    /// Whether `self` is zero.
    spec fn is_zero_spec(self) -> bool;

    /// Returns the `i16` shift amount: `self` modulo the bit width, as a
    /// Wasm shift or rotation takes its amount.
    fn as_shift_amount(self) -> (r: i16)
        ensures
            r == self.shift_amount_spec(),
    ;

    /// Returns `true` if `self` is equal to zero.
    fn eq_zero(self) -> (r: bool)
        ensures
            r == self.is_zero_spec(),
    ;
}

impl WasmInteger for i32 {
    open spec fn shift_amount_spec(self) -> i16 {
        ((self as int) % 32) as i16
    }

    open spec fn is_zero_spec(self) -> bool {
        self == 0
    }

    fn as_shift_amount(self) -> (r: i16) {
        let x = self;
        // The unsigned reading differs from `self` by a multiple of 2^32,
        // which 32 divides.
        assert((x as u32) as int == if x < 0 { x + 0x1_0000_0000 } else { x as int }) by (bit_vector);
        ((self as u32) % 32) as i16
    }

    fn eq_zero(self) -> (r: bool) {
        self == 0
    }
}

impl WasmInteger for u32 {
    open spec fn shift_amount_spec(self) -> i16 {
        (self % 32) as i16
    }

    open spec fn is_zero_spec(self) -> bool {
        self == 0
    }

    fn as_shift_amount(self) -> (r: i16) {
        (self % 32) as i16
    }

    fn eq_zero(self) -> (r: bool) {
        self == 0
    }
}

impl WasmInteger for i64 {
    open spec fn shift_amount_spec(self) -> i16 {
        ((self as int) % 64) as i16
    }

    open spec fn is_zero_spec(self) -> bool {
        self == 0
    }

    fn as_shift_amount(self) -> (r: i16) {
        let x = self;
        // The unsigned reading differs from `self` by a multiple of 2^64,
        // which 64 divides.
        assert((x as u64) as int == if x < 0 { x + 0x1_0000_0000_0000_0000 } else { x as int })
            by (bit_vector);
        ((self as u64) % 64) as i16
    }

    fn eq_zero(self) -> (r: bool) {
        self == 0
    }
}

impl WasmInteger for u64 {
    open spec fn shift_amount_spec(self) -> i16 {
        (self % 64) as i16
    }

    open spec fn is_zero_spec(self) -> bool {
        self == 0
    }

    fn as_shift_amount(self) -> (r: i16) {
        (self % 64) as i16
    }

    fn eq_zero(self) -> (r: bool) {
        self == 0
    }
}

/// The sign bit of a float.
#[derive(Clone, Copy, Debug, PartialEq, Eq, Structural)]
pub enum Sign {
    Pos,
    Neg,
}

/// The bits of an `f32`.
#[derive(Clone, Copy, Debug, PartialEq, Eq, Structural)]
pub struct F32(pub u32);

/// The bits of an `f64`.
#[derive(Clone, Copy, Debug, PartialEq, Eq, Structural)]
pub struct F64(pub u64);

/// A WebAssembly float, `f32` or `f64`, held as its IEEE 754 bits.
pub trait WasmFloat: Sized {
    /// Whether the bits encode a NaN: all exponent bits set, mantissa not zero.
    spec fn is_nan_spec(self) -> bool;

    /// The sign bit.
    spec fn sign_spec(self) -> Sign;

    /// Returns `true` if `self` is any kind of NaN value.
    fn is_nan(self) -> (r: bool)
        ensures
            r == self.is_nan_spec(),
    ;

    /// Returns the [`Sign`] of `self`.
    fn sign(self) -> (r: Sign)
        ensures
            r == self.sign_spec(),
    ;
}

impl WasmFloat for F32 {
    open spec fn is_nan_spec(self) -> bool {
        (self.0 / 0x80_0000) % 0x100 == 0xff && self.0 % 0x80_0000 != 0
    }

    open spec fn sign_spec(self) -> Sign {
        if self.0 >= 0x8000_0000 {
            Sign::Neg
        } else {
            Sign::Pos
        }
    }

    fn is_nan(self) -> (r: bool) {
        let b = self.0;
        assert((b & 0x7f80_0000 == 0x7f80_0000) == ((b / 0x80_0000) % 0x100 == 0xff)) by (bit_vector);
        assert((b & 0x7f_ffff != 0) == (b % 0x80_0000 != 0)) by (bit_vector);
        b & 0x7f80_0000 == 0x7f80_0000 && b & 0x7f_ffff != 0
    }

    fn sign(self) -> (r: Sign) {
        if self.0 >= 0x8000_0000 {
            Sign::Neg
        } else {
            Sign::Pos
        }
    }
}

impl WasmFloat for F64 {
    open spec fn is_nan_spec(self) -> bool {
        (self.0 / 0x10_0000_0000_0000) % 0x800 == 0x7ff && self.0 % 0x10_0000_0000_0000 != 0
    }

    open spec fn sign_spec(self) -> Sign {
        if self.0 >= 0x8000_0000_0000_0000 {
            Sign::Neg
        } else {
            Sign::Pos
        }
    }

    fn is_nan(self) -> (r: bool) {
        let b = self.0;
        assert((b & 0x7ff0_0000_0000_0000 == 0x7ff0_0000_0000_0000) == ((b / 0x10_0000_0000_0000)
            % 0x800 == 0x7ff)) by (bit_vector);
        assert((b & 0xf_ffff_ffff_ffff != 0) == (b % 0x10_0000_0000_0000 != 0)) by (bit_vector);
        b & 0x7ff0_0000_0000_0000 == 0x7ff0_0000_0000_0000 && b & 0xf_ffff_ffff_ffff != 0
    }

    fn sign(self) -> (r: Sign) {
        if self.0 >= 0x8000_0000_0000_0000 {
            Sign::Neg
        } else {
            Sign::Pos
        }
    }
}

/// A value with the type it was produced at.
#[derive(Clone, Copy, Debug, PartialEq, Eq, Structural)]
pub struct TypedVal {
    pub bits: u64,
}

/// An operand at translation time: a register, or a constant not yet placed.
#[derive(Clone, Copy, Debug, PartialEq, Eq, Structural)]
pub enum TypedProvider {
    Register(Reg),
    Const(TypedVal),
}

/// An operand as an instruction encodes it: a register or an immediate.
#[derive(Clone, Copy, Debug, PartialEq, Eq, Structural)]
pub enum Provider<T> {
    Register(Reg),
    Const(T),
}

/// A 32-bit value known to fit in 16 bits.
#[derive(Clone, Copy, Debug, PartialEq, Eq, Structural)]
pub struct Const16(pub u16);

/// Why translation could not place an operand.
#[derive(Clone, Copy, Debug, PartialEq, Eq, Structural)]
pub enum TranslationError {
    /// Every register index for function constants is taken.
    TooManyConstants,
}

/// The registers that hold the constants of the function being translated.
///
/// Constant `k` (counting from zero) lives in register `-1 - k`; equal
/// values share a register.
pub struct ValueStack {
    pub consts: Vec<u64>,
}

/// Constants get the registers below zero: `-1`, `-2`, and so on.
pub open spec fn const_register(k: int) -> Reg {
    Reg((-1 - k) as i16)
}

impl ValueStack {
    pub fn new() -> (r: ValueStack)
        ensures
            r.consts@.len() == 0,
    {
        ValueStack { consts: Vec::new() }
    }

    /// Returns the register of constant `value`, allocating one if it has none.
    pub fn alloc_const(&mut self, value: u64) -> (r: Result<Reg, TranslationError>)
        requires
            old(self).consts@.len() <= 32768,
        ensures
            match r {
                Ok(reg) => exists|k: int|
                    #[trigger] final_contains(final(self).consts@, k, value) && reg
                        == const_register(k),
                Err(_) => !old(self).consts@.contains(value) && old(self).consts@.len() == 32768,
            },
            old(self).consts@.contains(value) ==> final(self).consts@ == old(self).consts@,
            !old(self).consts@.contains(value) && r is Ok ==> final(self).consts@ == old(
                self,
            ).consts@.push(value),
            final(self).consts@.len() <= 32768,
    {
        let mut k: usize = 0;
        while k < self.consts.len()
            invariant
                k <= self.consts@.len() <= 32768,
                self.consts@ == old(self).consts@,
                forall|j: int| 0 <= j < k ==> self.consts@[j] != value,
            decreases self.consts@.len() - k,
        {
            if self.consts[k] == value {
                let reg = Reg((-1 - k as i32) as i16);
                assert(reg == const_register(k as int));
                assert(final_contains(self.consts@, k as int, value));
                return Ok(reg);
            }
            k = k + 1;
        }
        if self.consts.len() >= 32768 {
            return Err(TranslationError::TooManyConstants);
        }
        let k = self.consts.len();
        self.consts.push(value);
        assert(final_contains(self.consts@, k as int, value));
        let reg = Reg((-1 - k as i32) as i16);
        assert(reg == const_register(k as int));
        Ok(reg)
    }
}

/// Index `k` of `s` holds `v`.
pub open spec fn final_contains(s: Seq<u64>, k: int, v: u64) -> bool {
    0 <= k < s.len() && s[k] == v
}

impl Provider<u8> {
    /// Creates a new `memory` value [`Provider`] from the general [`TypedProvider`].
    pub fn new(provider: TypedProvider) -> (r: Self)
        ensures
            match provider {
                TypedProvider::Const(value) => r == Provider::<u8>::Const((value.bits % 0x100) as u8),
                TypedProvider::Register(reg) => r == Provider::<u8>::Register(reg),
            },
    {
        match provider {
            TypedProvider::Const(value) => {
                let b = value.bits;
                assert((b as u32) as u8 == b % 0x100) by (bit_vector);
                Self::Const(value.bits as u32 as u8)
            },
            TypedProvider::Register(register) => Self::Register(register),
        }
    }
}

impl Provider<Const16> {
    /// Creates a new `table` or `memory` index [`Provider`] from the general
    /// [`TypedProvider`]: a constant that fits 16 bits is kept inline, any
    /// other one is placed in a constant register.
    pub fn new(provider: TypedProvider, stack: &mut ValueStack) -> (r: Result<Self, TranslationError>)
        requires
            old(stack).consts@.len() <= 32768,
        ensures
            match provider {
                TypedProvider::Register(reg) => r == Ok::<Self, TranslationError>(
                    Provider::<Const16>::Register(reg),
                ) && final(stack).consts@ == old(stack).consts@,
                TypedProvider::Const(value) => if (value.bits % 0x1_0000_0000) < 0x1_0000 {
                    r == Ok::<Self, TranslationError>(
                        Provider::<Const16>::Const(Const16((value.bits % 0x1_0000_0000) as u16)),
                    ) && final(stack).consts@ == old(stack).consts@
                } else {
                    match r {
                        Ok(Provider::Register(reg)) => exists|k: int|
                            #[trigger] final_contains(final(stack).consts@, k, value.bits) && reg
                                == const_register(k),
                        Ok(Provider::Const(_)) => false,
                        Err(_) => old(stack).consts@.len() == 32768,
                    }
                },
            },
    {
        match provider {
            TypedProvider::Const(value) => {
                let b = value.bits;
                let v = b as u32;
                assert(v == b % 0x1_0000_0000) by (bit_vector)
                    requires
                        v == b as u32,
                ;
                if v < 0x1_0000 {
                    Ok(Self::Const(Const16(v as u16)))
                } else {
                    match stack.alloc_const(value.bits) {
                        Ok(register) => Ok(Self::Register(register)),
                        Err(e) => Err(e),
                    }
                }
            },
            TypedProvider::Register(index) => Ok(Self::Register(index)),
        }
    }
}

impl TypedProvider {
    /// Returns the `i16` [`Reg`] index if the [`TypedProvider`] is a [`Reg`].
    pub fn register_index(&self) -> (r: Option<i16>)
        ensures
            r == register_index_of(*self),
    {
        match self {
            TypedProvider::Register(index) => Some(index.0),
            TypedProvider::Const(_) => None,
        }
    }
}

pub open spec fn register_index_of(p: TypedProvider) -> Option<i16> {
    match p {
        TypedProvider::Register(index) => Some(index.0),
        TypedProvider::Const(_) => None,
    }
}

/// The providers are registers with consecutive indices, starting at `first`.
pub open spec fn contiguous_from(providers: Seq<TypedProvider>, first: int) -> bool {
    forall|i: int|
        0 <= i < providers.len() ==> #[trigger] register_index_of(providers[i]) == Some(
            (first + i) as i16,
        )
}

/// Extension trait to create a span from a slice of [`TypedProvider`]s.
pub trait FromProviders: Sized {
    /// What [`FromProviders::from_providers`] returns on `providers`.
    spec fn from_providers_spec(providers: Seq<TypedProvider>) -> Option<Self>;

    /// Creates a span from `providers` if they are all registers with
    /// contiguous indices; returns `None` for an empty slice.
    fn from_providers(providers: &[TypedProvider]) -> (r: Option<Self>)
        ensures
            r == Self::from_providers_spec(providers@),
    ;
}

impl FromProviders for BoundedRegSpan {
    open spec fn from_providers_spec(providers: Seq<TypedProvider>) -> Option<Self> {
        if providers.len() == 0 {
            None
        } else {
            match register_index_of(providers[0]) {
                None => None,
                Some(first) => if contiguous_from(providers, first as int) && first
                    + providers.len() <= i16::MAX {
                    Some(BoundedRegSpan { span: Reg(first), len: providers.len() as u16 })
                } else {
                    None
                },
            }
        }
    }

    fn from_providers(providers: &[TypedProvider]) -> (r: Option<Self>) {
        if providers.len() == 0 {
            return None;
        }
        let first_index = match providers[0].register_index() {
            Some(i) => i,
            None => {
                return None;
            },
        };
        let mut prev_index: i16 = first_index;
        let mut i: usize = 1;
        while i < providers.len()
            invariant
                1 <= i <= providers@.len(),
                register_index_of(providers@[0]) == Some(first_index),
                prev_index == first_index + i - 1,
                forall|j: int|
                    0 <= j < i ==> #[trigger] register_index_of(providers@[j]) == Some(
                        (first_index + j) as i16,
                    ),
            decreases providers@.len() - i,
        {
            let next_index = match providers[i].register_index() {
                Some(n) => n,
                None => {
                    return None;
                },
            };
            if prev_index == i16::MAX || next_index != prev_index + 1 {
                return None;
            }
            prev_index = next_index;
            i = i + 1;
        }
        if prev_index == i16::MAX {
            return None;
        }
        let end_index = prev_index + 1;
        let len = (end_index as i32 - first_index as i32) as u16;
        Some(BoundedRegSpan { span: Reg(first_index), len })
    }
}

} // verus!
