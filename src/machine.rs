//! The state of the interpreter and what one instruction does to it.
use vstd::prelude::*;
use crate::instr::{BoundedRegSpan, FloatBinaryOp, FloatCall, FloatUnaryOp, Instruction, LoadKind, Reg, StoreKind, load_width, store_width};
use crate::convert::{trunc_sat_spec, trunc_spec, TruncOp};
use crate::memory::{copy_bytes_spec, fill_seq, fill_spec, write_seq, load_spec, store_kind_spec};
use crate::signature::{mix, instr_prime};
use crate::value::{BinaryOp, TrapCode, binary_spec, unary_spec, lo32, cell64};

verus! {

/// Failures that no correct translation can cause; they point at a bug in the
/// code being run or in the interpreter itself.
#[derive(Clone, Copy, Debug, PartialEq, Eq, Structural)]
pub enum FatalError {
    ParameterWordExecuted,
    InstructionOutOfBounds,
    RegisterOutOfBounds,
    MissingParameter,
    UnknownFunction,
    UnknownGlobal,
    ArityMismatch,
    OverlappingCopy,
    EmptyBranchTable,
    NoCallFrame,
    UnknownSegment,
}

/// Why execution stopped early.
#[derive(Clone, Copy, Debug, PartialEq, Eq, Structural)]
pub enum Error {
    Trap(TrapCode),
    Fatal(FatalError),
}

/// Whether a function runs in the interpreter or is provided by the host.
#[derive(Clone, Copy, Debug, PartialEq, Eq, Structural)]
pub enum FuncKind {
    Internal,
    Imported,
}

/// What the interpreter knows of a function.
#[derive(Clone, Copy, Debug, PartialEq, Eq, Structural)]
pub struct FuncEntity {
    pub kind: FuncKind,
    /// The deduplicated function type: equal types have equal numbers.
    pub func_type: u32,
    /// Index of the first instruction of the body.
    pub entry: usize,
    pub num_params: u16,
    pub num_results: u16,
    /// Size of the register window, parameters included.
    pub num_registers: u16,
    /// Where the function's constants start in [`CodeMap::consts`].
    pub consts: usize,
    /// How many constants the function has; constant `k` is register `-1 - k`.
    pub num_consts: u16,
}

/// The translated code of all functions.
pub struct CodeMap {
    pub instrs: Vec<Instruction>,
    pub funcs: Vec<FuncEntity>,
    /// The constants of all functions.
    pub consts: Vec<u64>,
}

/// A function activation.
#[derive(Clone, Copy, Debug, PartialEq, Eq, Structural)]
pub struct CallFrame {
    pub func: u32,
    /// Where execution resumes once the frame is innermost again.
    pub ip: usize,
    /// Index of register 0 of this frame in the value stack.
    pub base: usize,
    /// Index of the frame's first cell: its constants lie from here to `base`.
    pub start: usize,
    /// Index in the value stack where the caller expects the results.
    pub results: usize,
    pub len_results: u16,
}

/// The value stack and the call stack.
pub struct Stack {
    pub values: Vec<u64>,
    pub frames: Vec<CallFrame>,
    /// The deepest the call stack may grow.
    pub max_frames: usize,
    /// The most cells the value stack may hold.
    pub max_values: usize,
}

/// Instance state that instructions read and write.
pub struct Store {
    pub memory: Vec<u8>,
    pub max_pages: u32,
    pub globals: Vec<u64>,
    /// The function table: a function index, or nothing for a null entry.
    pub table: Vec<Option<u32>>,
    /// Data segments; a dropped one is empty.
    pub data: Vec<Vec<u8>>,
    /// Element segments; a dropped one is empty.
    pub elems: Vec<Vec<Option<u32>>>,
    /// The most entries the table may grow to.
    pub max_table: u32,
    pub fuel: u64,
    pub track_signature: bool,
    pub signature: u64,
}

/// Appends `n` zero cells.
pub fn extend_zeros(v: &mut Vec<u64>, n: usize)
    ensures
        final(v)@ == old(v)@ + Seq::new(n as nat, |i: int| 0u64),
{
    let ghost before = v@;
    let mut i: usize = 0;
    while i < n
        invariant
            i <= n,
            v@ =~= before + Seq::new(i as nat, |k: int| 0u64),
        decreases n - i,
    {
        v.push(0);
        i = i + 1;
        assert(v@ =~= before + Seq::new(i as nat, |k: int| 0u64));
    }
}

/// Appends the cells of `src`.
pub fn extend_cells(v: &mut Vec<u64>, src: &Vec<u64>)
    ensures
        final(v)@ == old(v)@ + src@,
{
    let ghost before = v@;
    let mut i: usize = 0;
    while i < src.len()
        invariant
            i <= src@.len(),
            v@ =~= before + src@.subrange(0, i as int),
        decreases src@.len() - i,
    {
        v.push(src[i]);
        i = i + 1;
        assert(v@ =~= before + src@.subrange(0, i as int));
    }
    assert(src@.subrange(0, src@.len() as int) =~= src@);
}

/// Whether the function's constants lie inside the constant pool.
pub fn consts_in_pool(code: &CodeMap, callee: &FuncEntity) -> (r: bool)
    ensures
        r == consts_ok(*code, *callee),
{
    callee.consts <= code.consts.len() && (callee.num_consts as usize) <= code.consts.len()
        - callee.consts
}

/// Appends the constants of `callee` as they sit below its window.
pub fn extend_consts(v: &mut Vec<u64>, code: &CodeMap, callee: &FuncEntity)
    requires
        consts_ok(*code, *callee),
    ensures
        final(v)@ == old(v)@ + const_area(*code, *callee),
{
    let ghost before = v@;
    let ghost area = const_area(*code, *callee);
    let n = callee.num_consts as usize;
    let mut i: usize = 0;
    while i < n
        invariant
            i <= n,
            n == callee.num_consts,
            consts_ok(*code, *callee),
            callee.consts + n <= code.consts.len(),
            area == const_area(*code, *callee),
            v@ =~= before + area.subrange(0, i as int),
        decreases n - i,
    {
        v.push(code.consts[callee.consts + n - 1 - i]);
        i = i + 1;
        assert(v@ =~= before + area.subrange(0, i as int));
    }
    assert(area.subrange(0, n as int) =~= area);
}

impl Stack {
    /// A stack with nothing on it and no room to grow.
    pub fn empty() -> (r: Stack)
        ensures
            r.values@.len() == 0,
            r.frames@.len() == 0,
            r.max_frames == 0,
            r.max_values == 0,
    {
        Stack { values: Vec::new(), frames: Vec::new(), max_frames: 0, max_values: 0 }
    }

    /// Prepares a call of `func` with `args` as the outermost frame: the
    /// results will land in the first `num_results` cells of the value stack,
    /// and the function's constants lie right below its window.
    pub fn new_call(code: &CodeMap, func: u32, args: &Vec<u64>, max_frames: usize, max_values: usize) -> (r: Result<Stack, Error>)
        ensures
            match r {
                Ok(stack) => {
                    let callee = code.funcs@[func as int];
                    &&& func < code.funcs@.len()
                    &&& callee.kind == FuncKind::Internal
                    &&& args@.len() == callee.num_params <= callee.num_registers
                    &&& consts_ok(*code, callee)
                    &&& stack.values@ == Seq::new(callee.num_results as nat, |i: int| 0u64) + const_area(
                        *code,
                        callee,
                    ) + new_window(args@, callee.num_registers as nat)
                    &&& stack.frames@ == seq![
                        CallFrame {
                            func,
                            ip: callee.entry,
                            base: (callee.num_results + callee.num_consts) as usize,
                            start: callee.num_results as usize,
                            results: 0,
                            len_results: callee.num_results,
                        },
                    ]
                    &&& stack.max_frames == max_frames
                    &&& stack.max_values == max_values
                },
                Err(e) => e == Error::Fatal(FatalError::UnknownFunction) && (func >= code.funcs@.len()
                    || code.funcs@[func as int].kind != FuncKind::Internal) || e == Error::Fatal(
                    FatalError::ArityMismatch,
                ) && func < code.funcs@.len() && (args@.len() != code.funcs@[func as int].num_params
                    || code.funcs@[func as int].num_registers < code.funcs@[func as int].num_params)
                    || e == Error::Fatal(FatalError::RegisterOutOfBounds) && func < code.funcs@.len()
                    && !consts_ok(*code, code.funcs@[func as int]),
            },
    {
        if func as usize >= code.funcs.len() {
            return Err(Error::Fatal(FatalError::UnknownFunction));
        }
        let callee = code.funcs[func as usize];
        if callee.kind != FuncKind::Internal {
            return Err(Error::Fatal(FatalError::UnknownFunction));
        }
        if args.len() != callee.num_params as usize || callee.num_registers < callee.num_params {
            return Err(Error::Fatal(FatalError::ArityMismatch));
        }
        if !consts_in_pool(code, &callee) {
            return Err(Error::Fatal(FatalError::RegisterOutOfBounds));
        }
        let mut values: Vec<u64> = Vec::new();
        extend_zeros(&mut values, callee.num_results as usize);
        extend_consts(&mut values, code, &callee);
        extend_cells(&mut values, args);
        extend_zeros(&mut values, (callee.num_registers - callee.num_params) as usize);
        assert(values@ =~= Seq::new(callee.num_results as nat, |i: int| 0u64) + const_area(*code, callee)
            + new_window(args@, callee.num_registers as nat));
        let frame = CallFrame {
            func,
            ip: callee.entry,
            base: callee.num_results as usize + callee.num_consts as usize,
            start: callee.num_results as usize,
            results: 0,
            len_results: callee.num_results,
        };
        let mut frames: Vec<CallFrame> = Vec::new();
        frames.push(frame);
        assert(frames@ =~= seq![frame]);
        Ok(Stack { values, frames, max_frames, max_values })
    }

    /// The `len` cells from `at` on, where a return or a host call left them.
    pub fn read_values(&self, at: usize, len: usize) -> (r: Option<Vec<u64>>)
        ensures
            match r {
                Some(v) => at + len <= self.values@.len() && v@ == self.values@.subrange(
                    at as int,
                    at + len,
                ),
                None => at + len > self.values@.len(),
            },
    {
        if at > self.values.len() || len > self.values.len() - at {
            return None;
        }
        let mut r: Vec<u64> = Vec::new();
        let mut i: usize = 0;
        while i < len
            invariant
                i <= len,
                at + len <= self.values.len(),
                r@ == self.values@.subrange(at as int, at + i),
            decreases len - i,
        {
            r.push(self.values[at + i]);
            i = i + 1;
            assert(r@ =~= self.values@.subrange(at as int, at + i));
        }
        Some(r)
    }

    /// Writes `v` at index `at` of the value stack, as a host function does
    /// with its results; returns whether `at` was in the stack.
    pub fn write_value(&mut self, at: usize, v: u64) -> (r: bool)
        ensures
            r == (at < old(self).values@.len()),
            r ==> final(self).values@ == old(self).values@.update(at as int, v),
            !r ==> final(self).values@ == old(self).values@,
            final(self).frames@ == old(self).frames@,
            final(self).max_frames == old(self).max_frames,
            final(self).max_values == old(self).max_values,
    {
        if at < self.values.len() {
            self.values.set(at, v);
            true
        } else {
            false
        }
    }
}

impl Store {
    /// Grows linear memory by `delta` zeroed pages and returns the old size in
    /// pages; past the maximum (the store's, 65536 pages, or the address
    /// space) it returns `u32::MAX` and leaves memory unchanged.
    pub fn grow_memory(&mut self, delta: u32) -> (r: u64)
        ensures
            ({
                let old_pages = old(self).memory@.len() / 65536;
                if old_pages + delta > old(self).max_pages || old_pages + delta > MAX_PAGES
                    || old(self).memory@.len() + delta * 65536 > usize::MAX {
                    r == 0xffff_ffff && final(self).memory@ == old(self).memory@
                } else {
                    r == old_pages && final(self).memory@ == old(self).memory@ + Seq::new(
                        (delta * 65536) as nat,
                        |i: int| 0u8,
                    )
                }
            }),
            final(self).max_pages == old(self).max_pages,
            final(self).globals == old(self).globals,
            final(self).table == old(self).table,
            final(self).data == old(self).data,
            final(self).elems == old(self).elems,
            final(self).max_table == old(self).max_table,
            final(self).fuel == old(self).fuel,
            final(self).track_signature == old(self).track_signature,
            final(self).signature == old(self).signature,
    {
        let old_pages = (self.memory.len() / 65536) as u64;
        let room = (usize::MAX - self.memory.len()) as u64;
        if old_pages + delta as u64 > self.max_pages as u64 || old_pages + delta as u64 > MAX_PAGES
            || delta as u64 * 65536 > room {
            return 0xffff_ffff;
        }
        let extra = (delta as u64 * 65536) as usize;
        let ghost before = self.memory@;
        let mut i: usize = 0;
        while i < extra
            invariant
                i <= extra,
                extra == delta * 65536,
                self.memory@ =~= before + Seq::new(i as nat, |k: int| 0u8),
                self.max_pages == old(self).max_pages,
                self.globals == old(self).globals,
                self.table == old(self).table,
                self.data == old(self).data,
                self.elems == old(self).elems,
                self.max_table == old(self).max_table,
                self.fuel == old(self).fuel,
                self.track_signature == old(self).track_signature,
                self.signature == old(self).signature,
            decreases extra - i,
        {
            self.memory.push(0u8);
            i = i + 1;
            assert(self.memory@ =~= before + Seq::new(i as nat, |k: int| 0u8));
        }
        old_pages
    }

    /// Appends `delta` entries set to `init` to the table and returns its old
    /// size; past the table's maximum it returns `u32::MAX` and leaves the
    /// table unchanged.
    pub fn grow_table(&mut self, delta: u32, init: Option<u32>) -> (r: u64)
        ensures
            if old(self).table@.len() + delta > old(self).max_table {
                r == 0xffff_ffff && final(self).table@ == old(self).table@
            } else {
                r == old(self).table@.len() && final(self).table@ == old(self).table@ + Seq::new(
                    delta as nat,
                    |i: int| init,
                )
            },
            final(self).memory == old(self).memory,
            final(self).max_pages == old(self).max_pages,
            final(self).globals == old(self).globals,
            final(self).data == old(self).data,
            final(self).elems == old(self).elems,
            final(self).max_table == old(self).max_table,
            final(self).fuel == old(self).fuel,
            final(self).track_signature == old(self).track_signature,
            final(self).signature == old(self).signature,
    {
        let old_len = self.table.len() as u64;
        let max = self.max_table as u64;
        if old_len > max || delta as u64 > max - old_len {
            return 0xffff_ffff;
        }
        let ghost before = self.table@;
        let mut i: u32 = 0;
        while i < delta
            invariant
                i <= delta,
                self.table@ =~= before + Seq::new(i as nat, |k: int| init),
                self.memory == old(self).memory,
                self.max_pages == old(self).max_pages,
                self.globals == old(self).globals,
                self.data == old(self).data,
                self.elems == old(self).elems,
                self.max_table == old(self).max_table,
                self.fuel == old(self).fuel,
                self.track_signature == old(self).track_signature,
                self.signature == old(self).signature,
            decreases delta - i,
        {
            self.table.push(init);
            i = i + 1;
            assert(self.table@ =~= before + Seq::new(i as nat, |k: int| init));
        }
        old_len
    }

    /// A store with no memory, globals or table, no fuel, and no signature tracking.
    pub fn empty() -> (r: Store)
        ensures
            r.memory@.len() == 0,
            r.globals@.len() == 0,
            r.table@.len() == 0,
            r.data@.len() == 0,
            r.elems@.len() == 0,
            r.max_table == 0,
            r.max_pages == 0,
            r.fuel == 0,
            !r.track_signature,
            r.signature == 0,
    {
        Store {
            memory: Vec::new(),
            max_pages: 0,
            globals: Vec::new(),
            table: Vec::new(),
            data: Vec::new(),
            elems: Vec::new(),
            max_table: 0,
            fuel: 0,
            track_signature: false,
            signature: 0,
        }
    }
}

/// A growth of linear memory (by pages) or of the table (by entries set to `init`).
#[derive(Clone, Copy, Debug, PartialEq, Eq, Structural)]
pub enum GrowRequest {
    Memory { delta: u32 },
    Table { delta: u32, init: Option<u32> },
}

/// How a run of the interpreter ended without error.
#[derive(Clone, Copy, Debug, PartialEq, Eq, Structural)]
pub enum Outcome {
    /// The outermost frame returned `len` values, now at `results` in the value stack.
    Returned { results: usize, len: u16 },
    /// A host function is called: its `len_params` arguments are at `params`
    /// in the value stack, and its results go to `results`. For a tail call
    /// (`tail`) the calling frame is already gone and its results slot is
    /// `results`; when no frame is left, the outermost call has returned
    /// once the host has written them.
    HostCall { func: u32, params: usize, len_params: u16, results: usize, len_results: u16, tail: bool },
    /// A float operation is due: its value goes to index `result` of the
    /// value stack, and running again goes on after it.
    Float { call: FloatCall, result: usize },
    /// A growth within the configured maxima is due: the embedder's limiter
    /// decides. To allow it, perform it with [`Store::grow_memory`] or
    /// [`Store::grow_table`] and write what that returns to index `result` of
    /// the value stack; to deny it, write `u32::MAX` there. Running again goes
    /// on after the instruction.
    Grow { request: GrowRequest, result: usize },
    /// The step budget ran out; running again resumes where it stopped.
    OutOfSteps,
}

/// What one instruction asks of the dispatch loop.
#[derive(Clone, Copy, Debug, PartialEq, Eq, Structural)]
pub enum Step {
    Continue,
    Stop(Outcome),
}

/// The whole state of the machine, as a mathematical value.
pub struct MachineState {
    pub ip: usize,
    /// Cached base of the innermost frame's register window.
    pub sp: usize,
    pub values: Seq<u64>,
    pub frames: Seq<CallFrame>,
    pub max_frames: usize,
    pub max_values: usize,
    pub memory: Seq<u8>,
    pub max_pages: u32,
    pub globals: Seq<u64>,
    pub table: Seq<Option<u32>>,
    pub data: Seq<Seq<u8>>,
    pub elems: Seq<Seq<Option<u32>>>,
    pub max_table: u32,
    pub fuel: u64,
    pub track_signature: bool,
    pub signature: u64,
}

/// The state after one transition, and what the transition signalled.
pub type Transition = (MachineState, Result<Step, Error>);

/// The cached window base equals the base of the innermost frame.
pub open spec fn window_synced(s: MachineState) -> bool {
    s.frames.len() > 0 ==> s.sp == s.frames.last().base
}

/// `s` with a new value stack.
pub open spec fn with_values(s: MachineState, values: Seq<u64>) -> MachineState {
    MachineState { values, ..s }
}

/// `s` with a new linear memory.
pub open spec fn with_memory(s: MachineState, memory: Seq<u8>) -> MachineState {
    MachineState { memory, ..s }
}

/// `s` with a new function table.
pub open spec fn with_table(s: MachineState, table: Seq<Option<u32>>) -> MachineState {
    MachineState { table, ..s }
}

/// `s` with the cached registers pointing at `f`.
pub open spec fn at_frame(s: MachineState, f: CallFrame) -> MachineState {
    MachineState { ip: f.ip, sp: f.base, ..s }
}

/// Register `r` names a cell of the value stack: a register of the window,
/// or below it one of the function's constants.
pub open spec fn reg_ok(s: MachineState, r: Reg) -> bool {
    0 <= s.sp + r.0 < s.values.len()
}

/// `len` registers from `r` on lie inside the value stack.
pub open spec fn span_ok(s: MachineState, r: Reg, len: nat) -> bool {
    r.0 >= 0 && s.sp + r.0 + len <= s.values.len()
}

pub open spec fn get_reg(s: MachineState, r: Reg) -> Result<u64, Error> {
    if reg_ok(s, r) {
        Ok(s.values[s.sp + r.0])
    } else {
        Err(Error::Fatal(FatalError::RegisterOutOfBounds))
    }
}

pub open spec fn set_reg(s: MachineState, r: Reg, v: u64) -> Result<MachineState, Error> {
    if reg_ok(s, r) {
        Ok(MachineState { values: s.values.update(s.sp + r.0, v), ..s })
    } else {
        Err(Error::Fatal(FatalError::RegisterOutOfBounds))
    }
}

/// `values` with `src` written over it from index `at` on.
pub open spec fn write_span(values: Seq<u64>, at: int, src: Seq<u64>) -> Seq<u64> {
    Seq::new(values.len(), |j: int| if at <= j < at + src.len() { src[j - at] } else { values[j] })
}

/// The cells of `len` registers from `r` on.
pub open spec fn read_span(s: MachineState, r: Reg, len: nat) -> Seq<u64> {
    s.values.subrange(s.sp + r.0, s.sp + r.0 + len)
}

pub open spec fn advance(s: MachineState, n: nat) -> MachineState {
    MachineState { ip: (s.ip + n) as usize, ..s }
}

pub open spec fn fail(s: MachineState, e: Error) -> Transition {
    (s, Err(e))
}

pub open spec fn trap(s: MachineState, t: TrapCode) -> Transition {
    (s, Err(Error::Trap(t)))
}

pub open spec fn fatal(s: MachineState, f: FatalError) -> Transition {
    (s, Err(Error::Fatal(f)))
}

pub open spec fn cont(s: MachineState) -> Transition {
    (s, Ok(Step::Continue))
}

/// Writes `v` to register `r` and moves `n` words on.
pub open spec fn write_next(s: MachineState, r: Reg, v: u64, n: nat) -> Transition {
    match set_reg(s, r, v) {
        Ok(s2) => cont(advance(s2, n)),
        Err(e) => fail(s, e),
    }
}

/// A condition cell is true when its low 32 bits are not all zero.
pub open spec fn truthy(c: u64) -> bool {
    lo32(c) != 0
}

/// The cell of a 16-bit immediate operand, sign-extended.
pub open spec fn imm16_cell(v: i16) -> u64 {
    cell64(v as int)
}

pub open spec fn consume_fuel_spec(s: MachineState, amount: u64) -> Transition {
    if s.fuel < amount {
        trap(s, TrapCode::OutOfFuel)
    } else {
        cont(advance(MachineState { fuel: (s.fuel - amount) as u64, ..s }, 1))
    }
}

/// Pops the innermost frame, handing `vals` to its caller.
pub open spec fn return_spec(s: MachineState, vals: Seq<u64>) -> Transition {
    if s.frames.len() == 0 {
        fatal(s, FatalError::NoCallFrame)
    } else {
        let f = s.frames.last();
        if vals.len() != f.len_results {
            fatal(s, FatalError::ArityMismatch)
        } else if f.results + vals.len() > f.start || f.start > f.base || f.base > s.values.len() {
            fatal(s, FatalError::RegisterOutOfBounds)
        } else {
            let values = write_span(s.values.subrange(0, f.start as int), f.results as int, vals);
            let frames = s.frames.drop_last();
            if frames.len() == 0 {
                (
                    MachineState { values, frames, ..s },
                    Ok(Step::Stop(Outcome::Returned { results: f.results, len: f.len_results })),
                )
            } else {
                cont(
                    MachineState {
                        values,
                        frames,
                        ip: frames.last().ip,
                        sp: frames.last().base,
                        ..s
                    },
                )
            }
        }
    }
}

pub open spec fn return_reg_spec(s: MachineState, value: Reg) -> Transition {
    match get_reg(s, value) {
        Ok(v) => return_spec(s, seq![v]),
        Err(e) => fail(s, e),
    }
}

pub open spec fn return_span_spec(s: MachineState, values: Reg, len: u16) -> Transition {
    if span_ok(s, values, len as nat) {
        return_spec(s, read_span(s, values, len as nat))
    } else {
        fatal(s, FatalError::RegisterOutOfBounds)
    }
}

pub open spec fn return_nez_spec(s: MachineState, condition: Reg) -> Transition {
    match get_reg(s, condition) {
        Err(e) => fail(s, e),
        Ok(c) => if !truthy(c) {
            cont(advance(s, 1))
        } else {
            return_spec(s, seq![])
        },
    }
}

pub open spec fn return_nez_reg_spec(s: MachineState, condition: Reg, value: Reg) -> Transition {
    match get_reg(s, condition) {
        Err(e) => fail(s, e),
        Ok(c) => match get_reg(s, value) {
            Err(e) => fail(s, e),
            Ok(v) => if !truthy(c) {
                cont(advance(s, 1))
            } else {
                return_spec(s, seq![v])
            },
        },
    }
}

pub open spec fn return_nez_span_spec(s: MachineState, condition: Reg, values: BoundedRegSpan) -> Transition {
    match get_reg(s, condition) {
        Err(e) => fail(s, e),
        Ok(c) => if !truthy(c) {
            cont(advance(s, 1))
        } else {
            return_span_spec(s, values.span, values.len)
        },
    }
}

pub open spec fn branch_spec(s: MachineState, offset: i32, len_code: nat) -> Transition {
    let target = s.ip + offset;
    if 0 <= target < len_code {
        cont(MachineState { ip: target as usize, ..s })
    } else {
        fatal(s, FatalError::InstructionOutOfBounds)
    }
}

/// The target index a branch table picks: out of range picks the last one.
pub open spec fn table_target(index: u64, len_targets: u32) -> int {
    if lo32(index) < len_targets - 1 {
        lo32(index)
    } else {
        len_targets - 1
    }
}

/// When the condition is true, copies `value` (a register, or a 32-bit
/// immediate) to `result` and branches; otherwise moves one word on.
pub open spec fn branch_nez_copy_spec(s: MachineState, condition: Reg, result: Reg, value: Result<Reg, u32>, offset: i32, len_code: nat) -> Transition {
    match get_reg(s, condition) {
        Err(e) => fail(s, e),
        Ok(c) => if !truthy(c) {
            cont(advance(s, 1))
        } else {
            let v = match value {
                Ok(r) => get_reg(s, r),
                Err(imm) => Ok(imm as u64),
            };
            match v {
                Err(e) => fail(s, e),
                Ok(v) => match set_reg(s, result, v) {
                    Err(e) => fail(s, e),
                    Ok(s2) => branch_spec(s2, offset, len_code),
                },
            }
        },
    }
}

pub open spec fn branch_table_spec(s: MachineState, index: Reg, len_targets: u32, len_code: nat) -> Transition {
    match get_reg(s, index) {
        Err(e) => fail(s, e),
        Ok(i) => if len_targets == 0 {
            fatal(s, FatalError::EmptyBranchTable)
        } else {
            let target = s.ip + 1 + table_target(i, len_targets);
            if target < len_code {
                cont(MachineState { ip: target as usize, ..s })
            } else {
                fatal(s, FatalError::InstructionOutOfBounds)
            }
        },
    }
}

pub open spec fn branch_cmp_spec(s: MachineState, op: BinaryOp, a: u64, b: u64, offset: i32, len_code: nat) -> Transition {
    match binary_spec(op, a, b) {
        Err(t) => trap(s, t),
        Ok(c) => if c != 0 {
            branch_spec(s, offset, len_code)
        } else {
            cont(advance(s, 1))
        },
    }
}

/// Copies `len` cells from `values` to `results`, as if through a buffer.
pub open spec fn copy_span_spec(s: MachineState, results: Reg, values: Reg, len: u16, disjoint_only: bool) -> Transition {
    if !span_ok(s, results, len as nat) || !span_ok(s, values, len as nat) {
        fatal(s, FatalError::RegisterOutOfBounds)
    } else if disjoint_only && results.0 < values.0 + len && values.0 < results.0 + len {
        fatal(s, FatalError::OverlappingCopy)
    } else {
        let moved = write_span(s.values, s.sp + results.0, read_span(s, values, len as nat));
        cont(advance(MachineState { values: moved, ..s }, 1))
    }
}

/// The address `ptr + offset`; one past `u32::MAX` is out of bounds.
pub open spec fn effective_address(ptr: u64, offset: u32) -> int {
    lo32(ptr) + offset
}

/// The offset carried by the parameter word after the instruction at `ip`.
pub open spec fn offset_param(code: CodeMap, ip: int) -> Option<u32> {
    if ip + 1 < code.instrs@.len() {
        match code.instrs@[ip + 1] {
            Instruction::Const32 { value } => Some(value),
            _ => None,
        }
    } else {
        None
    }
}

pub open spec fn load_step_spec(s: MachineState, code: CodeMap, kind: LoadKind, result: Reg, ptr: Reg) -> Transition {
    match offset_param(code, s.ip as int) {
        None => fatal(s, FatalError::MissingParameter),
        Some(offset) => match get_reg(s, ptr) {
            Err(e) => fail(s, e),
            Ok(p) => {
                let address = effective_address(p, offset);
                if address > 0xffff_ffff || address + load_width(kind) > s.memory.len() {
                    trap(s, TrapCode::MemoryAccessOutOfBounds)
                } else {
                    write_next(s, result, load_spec(s.memory, kind, address), 2)
                }
            },
        },
    }
}

pub open spec fn store_step_spec(s: MachineState, code: CodeMap, kind: StoreKind, ptr: Reg, value: Reg) -> Transition {
    match offset_param(code, s.ip as int) {
        None => fatal(s, FatalError::MissingParameter),
        Some(offset) => match get_reg(s, ptr) {
            Err(e) => fail(s, e),
            Ok(p) => match get_reg(s, value) {
                Err(e) => fail(s, e),
                Ok(v) => {
                    let address = effective_address(p, offset);
                    if address > 0xffff_ffff || address + store_width(kind) > s.memory.len() {
                        trap(s, TrapCode::MemoryAccessOutOfBounds)
                    } else {
                        cont(advance(MachineState { memory: store_kind_spec(s.memory, kind, address, v), ..s }, 2))
                    }
                },
            },
        },
    }
}

/// The most pages a 32-bit linear memory can have: 4 GiB.
pub const MAX_PAGES: u64 = 65536;

pub open spec fn pages(s: MachineState) -> int {
    s.memory.len() as int / 65536
}

pub open spec fn memory_grow_spec(s: MachineState, result: Reg, delta: Reg) -> Transition {
    match get_reg(s, delta) {
        Err(e) => fail(s, e),
        Ok(d) => if !reg_ok(s, result) {
            fatal(s, FatalError::RegisterOutOfBounds)
        } else if pages(s) + lo32(d) > s.max_pages || pages(s) + lo32(d) > MAX_PAGES
            || s.memory.len() + lo32(d) * 65536 > usize::MAX {
            write_next(s, result, 0xffff_ffff, 1)
        } else {
            suspend_spec(s, Outcome::Grow {
                request: GrowRequest::Memory { delta: lo32(d) as u32 },
                result: (s.sp + result.0) as usize,
            })
        },
    }
}

/// `memory.fill`: sets `len` bytes from `dst` on to the low byte of `value`.
pub open spec fn memory_fill_spec(s: MachineState, dst: Reg, value: Reg, len: Reg) -> Transition {
    match get_reg(s, dst) {
        Err(e) => fail(s, e),
        Ok(d) => match get_reg(s, value) {
            Err(e) => fail(s, e),
            Ok(v) => match get_reg(s, len) {
                Err(e) => fail(s, e),
                Ok(n) => if lo32(d) + lo32(n) > s.memory.len() {
                    trap(s, TrapCode::MemoryAccessOutOfBounds)
                } else {
                    cont(advance(with_memory(s, fill_spec(s.memory, lo32(d), lo32(n), (v % 256) as u8)), 1))
                },
            },
        },
    }
}

/// `memory.copy`: copies `len` bytes from `src` to `dst`, as through a
/// buffer; copying nothing always succeeds.
pub open spec fn memory_copy_spec(s: MachineState, dst: Reg, src: Reg, len: Reg) -> Transition {
    match get_reg(s, dst) {
        Err(e) => fail(s, e),
        Ok(d) => match get_reg(s, src) {
            Err(e) => fail(s, e),
            Ok(f) => match get_reg(s, len) {
                Err(e) => fail(s, e),
                Ok(n) => if lo32(n) != 0 && (lo32(d) + lo32(n) > s.memory.len() || lo32(f) + lo32(n)
                    > s.memory.len()) {
                    trap(s, TrapCode::MemoryAccessOutOfBounds)
                } else if lo32(n) == 0 {
                    cont(advance(s, 1))
                } else {
                    cont(advance(with_memory(s, copy_bytes_spec(s.memory, lo32(d), lo32(f), lo32(n))), 1))
                },
            },
        },
    }
}

/// `mem` with the `n` bytes of `segment` from `src` on written from `dst` on.
pub open spec fn init_bytes_spec(mem: Seq<u8>, segment: Seq<u8>, dst: int, src: int, n: int) -> Seq<u8> {
    Seq::new(mem.len(), |j: int| if dst <= j < dst + n { segment[src + j - dst] } else { mem[j] })
}

/// `memory.init`: copies `len` bytes of a data segment into memory;
/// copying nothing always succeeds.
pub open spec fn memory_init_spec(s: MachineState, segment: u32, dst: Reg, src: Reg, len: Reg) -> Transition {
    match get_reg(s, dst) {
        Err(e) => fail(s, e),
        Ok(d) => match get_reg(s, src) {
            Err(e) => fail(s, e),
            Ok(f) => match get_reg(s, len) {
                Err(e) => fail(s, e),
                Ok(n) => if segment >= s.data.len() {
                    fatal(s, FatalError::UnknownSegment)
                } else if lo32(n) != 0 && (lo32(d) + lo32(n) > s.memory.len() || lo32(f) + lo32(n)
                    > s.data[segment as int].len()) {
                    trap(s, TrapCode::MemoryAccessOutOfBounds)
                } else if lo32(n) == 0 {
                    cont(advance(s, 1))
                } else {
                    cont(advance(with_memory(s, init_bytes_spec(s.memory, s.data[segment as int], lo32(d), lo32(f), lo32(n))), 1))
                },
            },
        },
    }
}

/// Sets a global to a sign-extended 16-bit immediate.
pub open spec fn global_set_imm16_spec(s: MachineState, global: u32, value: i16) -> Transition {
    if global >= s.globals.len() {
        fatal(s, FatalError::UnknownGlobal)
    } else {
        cont(advance(MachineState { globals: s.globals.update(global as int, imm16_cell(value)), ..s }, 1))
    }
}

/// `data.drop`: the segment becomes empty.
pub open spec fn data_drop_spec(s: MachineState, segment: u32) -> Transition {
    if segment >= s.data.len() {
        fatal(s, FatalError::UnknownSegment)
    } else {
        cont(advance(MachineState { data: s.data.update(segment as int, seq![]), ..s }, 1))
    }
}

/// The cell of a table entry: a function index plus one, or zero for null.
pub open spec fn funcref_cell(entry: Option<u32>) -> u64 {
    match entry {
        Some(f) => (f + 1) as u64,
        None => 0,
    }
}

pub open spec fn table_get_spec(s: MachineState, result: Reg, index: Reg) -> Transition {
    match get_reg(s, index) {
        Err(e) => fail(s, e),
        Ok(i) => if lo32(i) >= s.table.len() {
            trap(s, TrapCode::TableAccessOutOfBounds)
        } else {
            write_next(s, result, funcref_cell(s.table[lo32(i)]), 1)
        },
    }
}

/// The table entry a cell holds: zero is null, `f + 1` is function `f`.
pub open spec fn funcref_entry(v: u64) -> Option<u32> {
    if v == 0 {
        None
    } else {
        Some((v - 1) as u32)
    }
}

/// `table.grow`: past the table's maximum yields `u32::MAX`; within it, the
/// request is handed to the embedder's limiter (see [`Outcome::Grow`]).
pub open spec fn table_grow_spec(s: MachineState, result: Reg, delta: Reg, init: Reg) -> Transition {
    match get_reg(s, delta) {
        Err(e) => fail(s, e),
        Ok(d) => match get_reg(s, init) {
            Err(e) => fail(s, e),
            Ok(v) => if !reg_ok(s, result) {
                fatal(s, FatalError::RegisterOutOfBounds)
            } else if v > 0x1_0000_0000 {
                fatal(s, FatalError::UnknownFunction)
            } else if s.table.len() + lo32(d) > s.max_table {
                write_next(s, result, 0xffff_ffff, 1)
            } else {
                suspend_spec(s, Outcome::Grow {
                    request: GrowRequest::Table { delta: lo32(d) as u32, init: funcref_entry(v) },
                    result: (s.sp + result.0) as usize,
                })
            },
        },
    }
}

/// `table.fill`: sets `len` entries from `dst` on to the entry `value` holds.
pub open spec fn table_fill_spec(s: MachineState, dst: Reg, value: Reg, len: Reg) -> Transition {
    match get_reg(s, dst) {
        Err(e) => fail(s, e),
        Ok(d) => match get_reg(s, value) {
            Err(e) => fail(s, e),
            Ok(v) => match get_reg(s, len) {
                Err(e) => fail(s, e),
                Ok(n) => if v > 0x1_0000_0000 {
                    fatal(s, FatalError::UnknownFunction)
                } else if lo32(d) + lo32(n) > s.table.len() {
                    trap(s, TrapCode::TableAccessOutOfBounds)
                } else {
                    cont(advance(MachineState { table: fill_seq(s.table, lo32(d), lo32(n), funcref_entry(v)), ..s }, 1))
                },
            },
        },
    }
}

/// `table.copy`: copies `len` entries from `src` to `dst`, as through a
/// buffer; copying nothing always succeeds.
pub open spec fn table_copy_spec(s: MachineState, dst: Reg, src: Reg, len: Reg) -> Transition {
    match get_reg(s, dst) {
        Err(e) => fail(s, e),
        Ok(d) => match get_reg(s, src) {
            Err(e) => fail(s, e),
            Ok(f) => match get_reg(s, len) {
                Err(e) => fail(s, e),
                Ok(n) => if lo32(n) == 0 {
                    cont(advance(s, 1))
                } else if lo32(d) + lo32(n) > s.table.len() || lo32(f) + lo32(n) > s.table.len() {
                    trap(s, TrapCode::TableAccessOutOfBounds)
                } else {
                    cont(advance(MachineState { table: write_seq(s.table, lo32(d), s.table, lo32(f), lo32(n)), ..s }, 1))
                },
            },
        },
    }
}

/// `table.init`: copies `len` entries of an element segment into the table;
/// copying nothing always succeeds.
pub open spec fn table_init_spec(s: MachineState, segment: u32, dst: Reg, src: Reg, len: Reg) -> Transition {
    match get_reg(s, dst) {
        Err(e) => fail(s, e),
        Ok(d) => match get_reg(s, src) {
            Err(e) => fail(s, e),
            Ok(f) => match get_reg(s, len) {
                Err(e) => fail(s, e),
                Ok(n) => if segment >= s.elems.len() {
                    fatal(s, FatalError::UnknownSegment)
                } else if lo32(n) == 0 {
                    cont(advance(s, 1))
                } else if lo32(d) + lo32(n) > s.table.len() || lo32(f) + lo32(n) > s.elems[segment as int].len() {
                    trap(s, TrapCode::TableAccessOutOfBounds)
                } else {
                    cont(advance(MachineState { table: write_seq(s.table, lo32(d), s.elems[segment as int], lo32(f), lo32(n)), ..s }, 1))
                },
            },
        },
    }
}

/// `elem.drop`: the segment becomes empty.
pub open spec fn elem_drop_spec(s: MachineState, segment: u32) -> Transition {
    if segment >= s.elems.len() {
        fatal(s, FatalError::UnknownSegment)
    } else {
        cont(advance(MachineState { elems: s.elems.update(segment as int, seq![]), ..s }, 1))
    }
}

pub open spec fn table_set_spec(s: MachineState, index: Reg, value: Reg) -> Transition {
    match get_reg(s, index) {
        Err(e) => fail(s, e),
        Ok(i) => match get_reg(s, value) {
            Err(e) => fail(s, e),
            Ok(v) => if lo32(i) >= s.table.len() {
                trap(s, TrapCode::TableAccessOutOfBounds)
            } else if v > 0x1_0000_0000 {
                fatal(s, FatalError::UnknownFunction)
            } else {
                let entry = if v == 0 {
                    None
                } else {
                    Some((v - 1) as u32)
                };
                cont(advance(MachineState { table: s.table.update(lo32(i), entry), ..s }, 1))
            },
        },
    }
}

pub open spec fn global_set_spec(s: MachineState, global: u32, value: Reg) -> Transition {
    match get_reg(s, value) {
        Err(e) => fail(s, e),
        Ok(v) => if global >= s.globals.len() {
            fatal(s, FatalError::UnknownGlobal)
        } else {
            cont(advance(MachineState { globals: s.globals.update(global as int, v), ..s }, 1))
        },
    }
}

/// Calls function `func` with the arguments in `len_params` registers from `params` on.
pub open spec fn call_spec(s: MachineState, code: CodeMap, func: u32, results: Reg, params: Reg, len_params: u16) -> Transition {
    if func >= code.funcs@.len() {
        fatal(s, FatalError::UnknownFunction)
    } else {
        let callee = code.funcs@[func as int];
        if len_params != callee.num_params || callee.num_registers < callee.num_params {
            fatal(s, FatalError::ArityMismatch)
        } else if !span_ok(s, params, len_params as nat) || !span_ok(s, results, callee.num_results as nat) {
            fatal(s, FatalError::RegisterOutOfBounds)
        } else if s.frames.len() == 0 {
            fatal(s, FatalError::NoCallFrame)
        } else {
            let caller = s.frames.last();
            let frames = s.frames.update(s.frames.len() - 1, CallFrame { ip: (s.ip + 1) as usize, ..caller });
            match callee.kind {
                FuncKind::Imported => (
                    MachineState { frames, ip: (s.ip + 1) as usize, ..s },
                    Ok(Step::Stop(Outcome::HostCall {
                        func,
                        params: (s.sp + params.0) as usize,
                        len_params,
                        results: (s.sp + results.0) as usize,
                        len_results: callee.num_results,
                        tail: false,
                    })),
                ),
                FuncKind::Internal => if !consts_ok(code, callee) {
                    fatal(s, FatalError::RegisterOutOfBounds)
                } else if s.frames.len() >= s.max_frames || s.values.len() + callee.num_consts
                    + callee.num_registers > s.max_values {
                    trap(s, TrapCode::StackOverflow)
                } else {
                    let start = s.values.len();
                    let base = start + callee.num_consts;
                    let window = new_window(read_span(s, params, len_params as nat), callee.num_registers as nat);
                    let frame = CallFrame {
                        func,
                        ip: callee.entry,
                        base: base as usize,
                        start: start as usize,
                        results: (s.sp + results.0) as usize,
                        len_results: callee.num_results,
                    };
                    cont(
                        MachineState {
                            values: s.values + const_area(code, callee) + window,
                            frames: frames.push(frame),
                            ip: callee.entry,
                            sp: base as usize,
                            ..s
                        },
                    )
                },
            }
        }
    }
}

/// The function's constants as they sit below its window: constant `k`
/// lies `k + 1` cells below the base.
pub open spec fn const_area(code: CodeMap, callee: FuncEntity) -> Seq<u64> {
    Seq::new(
        callee.num_consts as nat,
        |i: int| code.consts@[callee.consts + callee.num_consts - 1 - i],
    )
}

/// The function's constants lie inside the constant pool.
pub open spec fn consts_ok(code: CodeMap, callee: FuncEntity) -> bool {
    callee.consts + callee.num_consts <= code.consts@.len()
}

/// A fresh register window: the arguments, then zeros up to `num_registers`.
pub open spec fn new_window(args: Seq<u64>, num_registers: nat) -> Seq<u64> {
    args + Seq::new((num_registers - args.len()) as nat, |i: int| 0u64)
}

/// Tail-calls host function `func`: the innermost frame is popped, the
/// arguments are staged where its cells began, and the host writes the
/// results into the popped frame's results slot.
pub open spec fn host_tail_call_spec(s: MachineState, func: u32, params: Reg, len_params: u16) -> Transition {
    let f = s.frames.last();
    if f.start > s.values.len() {
        fatal(s, FatalError::RegisterOutOfBounds)
    } else {
        let frames = s.frames.drop_last();
        let popped = MachineState {
            values: s.values.subrange(0, f.start as int) + read_span(s, params, len_params as nat),
            frames,
            ..s
        };
        (
            if frames.len() > 0 {
                at_frame(popped, frames.last())
            } else {
                popped
            },
            Ok(Step::Stop(Outcome::HostCall {
                func,
                params: f.start,
                len_params,
                results: f.results,
                len_results: f.len_results,
                tail: true,
            })),
        )
    }
}

/// Calls function `func` in place of the innermost frame, which hands it
/// the slot for its results.
pub open spec fn return_call_spec(s: MachineState, code: CodeMap, func: u32, params: Reg, len_params: u16) -> Transition {
    if func >= code.funcs@.len() {
        fatal(s, FatalError::UnknownFunction)
    } else {
        let callee = code.funcs@[func as int];
        if len_params != callee.num_params || callee.num_registers < callee.num_params {
            fatal(s, FatalError::ArityMismatch)
        } else if !span_ok(s, params, len_params as nat) {
            fatal(s, FatalError::RegisterOutOfBounds)
        } else if s.frames.len() == 0 {
            fatal(s, FatalError::NoCallFrame)
        } else {
            let f = s.frames.last();
            if callee.num_results != f.len_results {
                fatal(s, FatalError::ArityMismatch)
            } else if callee.kind == FuncKind::Imported {
                host_tail_call_spec(s, func, params, len_params)
            } else if !consts_ok(code, callee) || f.start > s.values.len() {
                fatal(s, FatalError::RegisterOutOfBounds)
            } else if f.start + callee.num_consts + callee.num_registers > s.max_values {
                trap(s, TrapCode::StackOverflow)
            } else {
                let window = new_window(read_span(s, params, len_params as nat), callee.num_registers as nat);
                let base = (f.start + callee.num_consts) as usize;
                let frame = CallFrame { func, ip: callee.entry, base, ..f };
                cont(
                    MachineState {
                        values: s.values.subrange(0, f.start as int) + const_area(code, callee) + window,
                        frames: s.frames.update(s.frames.len() - 1, frame),
                        ip: callee.entry,
                        sp: base,
                        ..s
                    },
                )
            }
        }
    }
}

/// Hands a float operation out: the innermost frame resumes after it.
pub open spec fn float_spec(s: MachineState, call: FloatCall, result: Reg) -> Transition {
    if !reg_ok(s, result) {
        fatal(s, FatalError::RegisterOutOfBounds)
    } else {
        suspend_spec(s, Outcome::Float { call, result: (s.sp + result.0) as usize })
    }
}

/// Stops with `o` after the current instruction: the innermost frame
/// resumes at the next one.
pub open spec fn suspend_spec(s: MachineState, o: Outcome) -> Transition {
    if s.frames.len() == 0 {
        fatal(s, FatalError::NoCallFrame)
    } else {
        let frames = s.frames.update(s.frames.len() - 1, CallFrame { ip: (s.ip + 1) as usize, ..s.frames.last() });
        (MachineState { frames, ip: (s.ip + 1) as usize, ..s }, Ok(Step::Stop(o)))
    }
}

pub open spec fn float_unary_spec(s: MachineState, op: FloatUnaryOp, result: Reg, input: Reg) -> Transition {
    match get_reg(s, input) {
        Err(e) => fail(s, e),
        Ok(a) => float_spec(s, FloatCall::Unary { op, input: a }, result),
    }
}

pub open spec fn float_binary_spec(s: MachineState, op: FloatBinaryOp, result: Reg, lhs: Reg, rhs: Reg) -> Transition {
    match get_reg(s, lhs) {
        Err(e) => fail(s, e),
        Ok(a) => match get_reg(s, rhs) {
            Err(e) => fail(s, e),
            Ok(b) => float_spec(s, FloatCall::Binary { op, lhs: a, rhs: b }, result),
        },
    }
}

/// The function that table entry `index` names, checked against `func_type`.
pub open spec fn indirect_target(s: MachineState, code: CodeMap, func_type: u32, index: Reg) -> Result<u32, Error> {
    match get_reg(s, index) {
        Err(e) => Err(e),
        Ok(i) => if lo32(i) >= s.table.len() {
            Err(Error::Trap(TrapCode::TableAccessOutOfBounds))
        } else {
            match s.table[lo32(i)] {
                None => Err(Error::Trap(TrapCode::IndirectCallToNull)),
                Some(f) => if f >= code.funcs@.len() {
                    Err(Error::Fatal(FatalError::UnknownFunction))
                } else if code.funcs@[f as int].func_type != func_type {
                    Err(Error::Trap(TrapCode::BadSignature))
                } else {
                    Ok(f)
                },
            }
        },
    }
}

pub open spec fn call_indirect_spec(s: MachineState, code: CodeMap, func_type: u32, index: Reg, results: Reg, params: Reg, len_params: u16) -> Transition {
    match indirect_target(s, code, func_type, index) {
        Err(e) => fail(s, e),
        Ok(f) => call_spec(s, code, f, results, params, len_params),
    }
}

pub open spec fn return_call_indirect_spec(s: MachineState, code: CodeMap, func_type: u32, index: Reg, params: Reg, len_params: u16) -> Transition {
    match indirect_target(s, code, func_type, index) {
        Err(e) => fail(s, e),
        Ok(f) => return_call_spec(s, code, f, params, len_params),
    }
}

/// Binary operation on two cells, writing to `result`.
pub open spec fn binary_step_spec(s: MachineState, op: BinaryOp, result: Reg, a: u64, b: u64) -> Transition {
    match binary_spec(op, a, b) {
        Err(t) => trap(s, t),
        Ok(v) => write_next(s, result, v, 1),
    }
}

/// Truncates the float in `input` to an integer in `result`.
pub open spec fn truncate_spec(s: MachineState, op: TruncOp, result: Reg, input: Reg, saturating: bool) -> Transition {
    match get_reg(s, input) {
        Err(e) => fail(s, e),
        Ok(a) => if saturating {
            write_next(s, result, trunc_sat_spec(op, a), 1)
        } else {
            match trunc_spec(op, a) {
                Err(t) => trap(s, t),
                Ok(v) => write_next(s, result, v, 1),
            }
        },
    }
}

/// Compares a register with a register, or with an immediate, and branches.
pub open spec fn branch_cmp_step_spec(s: MachineState, op: BinaryOp, lhs: Reg, rhs: Result<Reg, i16>, offset: i32, len_code: nat) -> Transition {
    match get_reg(s, lhs) {
        Err(e) => fail(s, e),
        Ok(a) => match rhs {
            Ok(r) => match get_reg(s, r) {
                Err(e) => fail(s, e),
                Ok(b) => branch_cmp_spec(s, op, a, b, offset, len_code),
            },
            Err(imm) => branch_cmp_spec(s, op, a, imm16_cell(imm), offset, len_code),
        },
    }
}

/// `select`: `lhs` when the condition is true, else `rhs`.
pub open spec fn select_spec(s: MachineState, result: Reg, condition: Reg, lhs: Reg, rhs: Reg) -> Transition {
    match get_reg(s, condition) {
        Err(e) => fail(s, e),
        Ok(c) => match get_reg(s, lhs) {
            Err(e) => fail(s, e),
            Ok(a) => match get_reg(s, rhs) {
                Err(e) => fail(s, e),
                Ok(b) => write_next(s, result, if truthy(c) { a } else { b }, 1),
            },
        },
    }
}

pub open spec fn copy_spec(s: MachineState, result: Reg, value: Reg) -> Transition {
    match get_reg(s, value) {
        Err(e) => fail(s, e),
        Ok(v) => write_next(s, result, v, 1),
    }
}

pub open spec fn global_get_spec(s: MachineState, result: Reg, global: u32) -> Transition {
    if global >= s.globals.len() {
        fatal(s, FatalError::UnknownGlobal)
    } else {
        write_next(s, result, s.globals[global as int], 1)
    }
}

/// What executing `instr` does, once fetched and mixed into the signature.
#[verifier::opaque]
pub open spec fn execute_spec(s: MachineState, code: CodeMap, instr: Instruction) -> Transition {
    let len_code = code.instrs@.len();
    match instr {
        Instruction::Const32 { .. } => fatal(s, FatalError::ParameterWordExecuted),
        Instruction::Trap { trap_code } => trap(s, trap_code),
        Instruction::ConsumeFuel { amount } => consume_fuel_spec(s, amount),
        Instruction::Return => return_spec(s, seq![]),
        Instruction::ReturnReg { value } => return_reg_spec(s, value),
        Instruction::ReturnImm32 { value } => return_spec(s, seq![value as u64]),
        Instruction::ReturnSpan { values, len } => return_span_spec(s, values, len),
        Instruction::ReturnNez { condition } => return_nez_spec(s, condition),
        Instruction::ReturnNezReg { condition, value } => return_nez_reg_spec(s, condition, value),
        Instruction::ReturnNezSpan { condition, values } => return_nez_span_spec(s, condition, values),
        Instruction::Branch { offset } => branch_spec(s, offset, len_code),
        Instruction::BranchTable { index, len_targets } => branch_table_spec(s, index, len_targets, len_code),
        Instruction::BranchCmp { op, lhs, rhs, offset } => branch_cmp_step_spec(s, op, lhs, Ok(rhs), offset, len_code),
        Instruction::BranchCmpImm { op, lhs, rhs, offset } => branch_cmp_step_spec(s, op, lhs, Err(rhs), offset, len_code),
        Instruction::Copy { result, value } => copy_spec(s, result, value),
        Instruction::CopyImm32 { result, value } => write_next(s, result, value as u64, 1),
        Instruction::CopyI64Imm32 { result, value } => write_next(s, result, cell64(value as int), 1),
        Instruction::CopySpan { results, values, len } => copy_span_spec(s, results, values, len, false),
        Instruction::CopySpanNonOverlapping { results, values, len } => copy_span_spec(s, results, values, len, true),
        Instruction::Select { result, condition, lhs, rhs } => select_spec(s, result, condition, lhs, rhs),
        Instruction::Unary { op, result, input } => match get_reg(s, input) {
            Err(e) => fail(s, e),
            Ok(a) => write_next(s, result, unary_spec(op, a), 1),
        },
        Instruction::Binary { op, result, lhs, rhs } => match get_reg(s, lhs) {
            Err(e) => fail(s, e),
            Ok(a) => match get_reg(s, rhs) {
                Err(e) => fail(s, e),
                Ok(b) => binary_step_spec(s, op, result, a, b),
            },
        },
        Instruction::BinaryImm16 { op, result, lhs, rhs } => match get_reg(s, lhs) {
            Err(e) => fail(s, e),
            Ok(a) => binary_step_spec(s, op, result, a, imm16_cell(rhs)),
        },
        Instruction::BinaryImm16Lhs { op, result, lhs, rhs } => match get_reg(s, rhs) {
            Err(e) => fail(s, e),
            Ok(b) => binary_step_spec(s, op, result, imm16_cell(lhs), b),
        },
        Instruction::Truncate { op, result, input } => truncate_spec(s, op, result, input, false),
        Instruction::TruncateSat { op, result, input } => truncate_spec(s, op, result, input, true),
        Instruction::Load { kind, result, ptr } => load_step_spec(s, code, kind, result, ptr),
        Instruction::Store { kind, ptr, value } => store_step_spec(s, code, kind, ptr, value),
        Instruction::MemorySize { result } => write_next(s, result, pages(s) as u64, 1),
        Instruction::MemoryGrow { result, delta } => memory_grow_spec(s, result, delta),
        Instruction::MemoryFill { dst, value, len } => memory_fill_spec(s, dst, value, len),
        Instruction::MemoryCopy { dst, src, len } => memory_copy_spec(s, dst, src, len),
        Instruction::TableGet { result, index } => table_get_spec(s, result, index),
        Instruction::TableSet { index, value } => table_set_spec(s, index, value),
        Instruction::TableSize { result } => write_next(s, result, s.table.len() as u64, 1),
        Instruction::TableGrow { result, delta, init } => table_grow_spec(s, result, delta, init),
        Instruction::TableFill { dst, value, len } => table_fill_spec(s, dst, value, len),
        Instruction::TableCopy { dst, src, len } => table_copy_spec(s, dst, src, len),
        Instruction::TableInit { segment, dst, src, len } => table_init_spec(s, segment, dst, src, len),
        Instruction::ElemDrop { segment } => elem_drop_spec(s, segment),
        Instruction::BranchNezCopy { condition, result, value, offset } => branch_nez_copy_spec(s, condition, result, Ok(value), offset, len_code),
        Instruction::BranchNezCopyImm32 { condition, result, value, offset } => branch_nez_copy_spec(s, condition, result, Err(value), offset, len_code),
        Instruction::ReturnI64Imm32 { value } => return_spec(s, seq![cell64(value as int)]),
        Instruction::MemoryInit { segment, dst, src, len } => memory_init_spec(s, segment, dst, src, len),
        Instruction::DataDrop { segment } => data_drop_spec(s, segment),
        Instruction::GlobalSetImm16 { global, value } => global_set_imm16_spec(s, global, value),
        Instruction::GlobalGet { result, global } => global_get_spec(s, result, global),
        Instruction::GlobalSet { global, value } => global_set_spec(s, global, value),
        Instruction::RefFunc { result, func } => if func >= code.funcs@.len() {
            fatal(s, FatalError::UnknownFunction)
        } else {
            write_next(s, result, (func + 1) as u64, 1)
        },
        Instruction::Call { func, results, params, len_params } => call_spec(s, code, func, results, params, len_params),
        Instruction::CallIndirect { func_type, index, results, params, len_params } => call_indirect_spec(s, code, func_type, index, results, params, len_params),
        Instruction::ReturnCall { func, params, len_params } => return_call_spec(s, code, func, params, len_params),
        Instruction::ReturnCallIndirect { func_type, index, params, len_params } => return_call_indirect_spec(s, code, func_type, index, params, len_params),
        Instruction::FloatUnary { op, result, input } => float_unary_spec(s, op, result, input),
        Instruction::FloatBinary { op, result, lhs, rhs } => float_binary_spec(s, op, result, lhs, rhs),
    }
}

/// The register whose bits are mixed into the signature with the instruction.
pub open spec fn primary_operand(instr: Instruction) -> Option<Reg> {
    match instr {
        Instruction::ReturnReg { value } => Some(value),
        Instruction::ReturnNez { condition } => Some(condition),
        Instruction::ReturnNezReg { condition, .. } => Some(condition),
        Instruction::ReturnNezSpan { condition, .. } => Some(condition),
        Instruction::BranchNezCopy { condition, .. } => Some(condition),
        Instruction::BranchNezCopyImm32 { condition, .. } => Some(condition),
        Instruction::BranchTable { index, .. } => Some(index),
        Instruction::BranchCmp { lhs, .. } => Some(lhs),
        Instruction::BranchCmpImm { lhs, .. } => Some(lhs),
        Instruction::Copy { value, .. } => Some(value),
        Instruction::Select { condition, .. } => Some(condition),
        Instruction::Unary { input, .. } => Some(input),
        Instruction::Truncate { input, .. } => Some(input),
        Instruction::FloatUnary { input, .. } => Some(input),
        Instruction::FloatBinary { lhs, .. } => Some(lhs),
        Instruction::TruncateSat { input, .. } => Some(input),
        Instruction::Binary { lhs, .. } => Some(lhs),
        Instruction::BinaryImm16 { lhs, .. } => Some(lhs),
        Instruction::BinaryImm16Lhs { rhs, .. } => Some(rhs),
        Instruction::Load { ptr, .. } => Some(ptr),
        Instruction::Store { ptr, .. } => Some(ptr),
        Instruction::MemoryGrow { delta, .. } => Some(delta),
        Instruction::MemoryFill { dst, .. } => Some(dst),
        Instruction::MemoryCopy { dst, .. } => Some(dst),
        Instruction::MemoryInit { dst, .. } => Some(dst),
        Instruction::TableGrow { delta, .. } => Some(delta),
        Instruction::TableFill { dst, .. } => Some(dst),
        Instruction::TableCopy { dst, .. } => Some(dst),
        Instruction::TableInit { dst, .. } => Some(dst),
        Instruction::TableGet { index, .. } => Some(index),
        Instruction::TableSet { index, .. } => Some(index),
        Instruction::GlobalSet { value, .. } => Some(value),
        Instruction::CallIndirect { index, .. } => Some(index),
        Instruction::ReturnCallIndirect { index, .. } => Some(index),
        _ => None,
    }
}

/// The bits of the primary operand, or zero where there is none to read.
pub open spec fn operand_bits(s: MachineState, instr: Instruction) -> u64 {
    match primary_operand(instr) {
        Some(r) => match get_reg(s, r) {
            Ok(v) => v,
            Err(_) => 0,
        },
        None => 0,
    }
}

/// Mixes the instruction about to execute into the runtime signature.
pub open spec fn sign_spec(s: MachineState, instr: Instruction) -> MachineState {
    if s.track_signature {
        MachineState { signature: mix(s.signature ^ instr_prime(instr) ^ operand_bits(s, instr)), ..s }
    } else {
        s
    }
}

/// One turn of the dispatch loop: fetch, sign, execute.
pub open spec fn step_spec(s: MachineState, code: CodeMap) -> Transition {
    if s.ip >= code.instrs@.len() {
        fatal(s, FatalError::InstructionOutOfBounds)
    } else {
        let instr = code.instrs@[s.ip as int];
        execute_spec(sign_spec(s, instr), code, instr)
    }
}

/// Writes the instruction pointer back into the innermost frame.
pub open spec fn save_ip(s: MachineState) -> MachineState {
    if s.frames.len() == 0 {
        s
    } else {
        MachineState { frames: s.frames.update(s.frames.len() - 1, CallFrame { ip: s.ip, ..s.frames.last() }), ..s }
    }
}

/// Up to `steps` turns of the dispatch loop; when they run out, the position
/// is saved in the innermost frame.
pub open spec fn run_spec(s: MachineState, code: CodeMap, steps: nat) -> (MachineState, Result<Outcome, Error>)
    decreases steps,
{
    if steps == 0 {
        (save_ip(s), Ok(Outcome::OutOfSteps))
    } else {
        let (s2, r) = step_spec(s, code);
        match r {
            Err(e) => (s2, Err(e)),
            Ok(Step::Stop(o)) => (s2, Ok(o)),
            Ok(Step::Continue) => run_spec(s2, code, (steps - 1) as nat),
        }
    }
}

} // verus!
