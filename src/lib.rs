//! The execution core of a register-based WebAssembly interpreter.
//!
//! [`value`] holds the integer and bit-pattern operations on 64-bit cells,
//! [`convert`] float-to-integer truncation, [`memory`] little-endian access
//! to linear memory, and [`instr`] the instruction set. [`machine`] states
//! what one instruction does to the whole machine state; [`executor`] runs
//! code and is proved to do exactly that, step by step; [`laws`] states
//! properties of the semantics. [`signature`] is the running fingerprint of
//! executed instructions, [`counts`] a per-kind instruction counter, and
//! [`translator`] helpers that pick operand encodings.
pub mod value;
pub mod convert;
pub mod instr;
pub mod memory;
pub mod signature;
pub mod machine;
pub mod executor;
pub mod laws;
pub mod translator;
pub mod counts;
