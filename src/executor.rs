//! The dispatch loop and the kernels it routes instructions to.
use vstd::prelude::*;
use crate::convert::{execute_trunc, execute_trunc_sat, TruncOp};
use crate::instr::{BoundedRegSpan, FloatBinaryOp, FloatCall, FloatUnaryOp, Instruction, LoadKind, Reg, StoreKind};
use crate::machine::{
    suspend_spec, GrowRequest, branch_nez_copy_spec, with_table, MAX_PAGES, funcref_entry, table_grow_spec, table_fill_spec, table_copy_spec, table_init_spec, elem_drop_spec, host_tail_call_spec, indirect_target, return_call_indirect_spec, const_area, consts_in_pool, extend_cells, extend_consts, extend_zeros, reg_ok, select_spec, global_set_imm16_spec, memory_init_spec, data_drop_spec, init_bytes_spec, memory_fill_spec, memory_copy_spec, table_get_spec, table_set_spec, float_spec, float_unary_spec, float_binary_spec, branch_cmp_step_spec, new_window, return_call_spec, copy_spec, global_get_spec, truncate_spec, operand_bits, primary_operand, run_spec, save_ip, sign_spec, step_spec,
    at_frame, binary_step_spec, branch_cmp_spec, branch_spec, branch_table_spec, call_indirect_spec,
    call_spec, cont, consume_fuel_spec, copy_span_spec, execute_spec, fail, get_reg,
    global_set_spec, imm16_cell, load_step_spec, memory_grow_spec, offset_param, pages,
    return_nez_spec, return_nez_reg_spec, return_nez_span_spec, return_reg_spec, return_span_spec, return_spec, set_reg, span_ok,
    store_step_spec, trap, truthy, window_synced, with_memory, with_values, write_next, write_span,
    advance, CallFrame, CodeMap, Error, FatalError, FuncKind, MachineState, Outcome, Stack, Step,
    Store,
};
use crate::memory::{copy_cells, copy_within, fill, fill_cells, load, store, write_cells};
use crate::signature::{instr_prime, opcode_prime, update_runtime_signature};
use crate::value::{BinaryOp, TrapCode, UnaryOp, execute_binary_op, execute_unary_op, low_u32};

verus! {

/// The machine state that a stack, a store and the cached registers make up.
pub open spec fn machine(stack: Stack, store: Store, ip: usize, sp: usize) -> MachineState {
    MachineState {
        ip,
        sp,
        values: stack.values@,
        frames: stack.frames@,
        max_frames: stack.max_frames,
        max_values: stack.max_values,
        memory: store.memory@,
        max_pages: store.max_pages,
        globals: store.globals@,
        table: store.table@,
        data: store.data@.map_values(|v: Vec<u8>| v@),
        elems: store.elems@.map_values(|v: Vec<Option<u32>>| v@),
        max_table: store.max_table,
        fuel: store.fuel,
        track_signature: store.track_signature,
        signature: store.signature,
    }
}

/// The state in which execution resumes: at the innermost frame's saved position.
pub open spec fn resume_state(stack: Stack, store: Store) -> MachineState {
    machine(stack, store, stack.frames@.last().ip, stack.frames@.last().base)
}

/// `stack` and `store` hold everything of `s` but the cached registers.
pub open spec fn holds(stack: Stack, store: Store, s: MachineState) -> bool {
    machine(stack, store, s.ip, s.sp) == s
}

/// Executes code on a stack and a store, caching the innermost frame's
/// window base and instruction pointer.
pub struct Executor {
    /// Base of the innermost frame's window in the value stack.
    pub sp: usize,
    /// The instruction being executed.
    pub ip: usize,
    pub stack: Stack,
    pub store: Store,
}

impl Executor {
    pub open spec fn view(&self) -> MachineState {
        machine(self.stack, self.store, self.ip, self.sp)
    }

    /// Creates an executor positioned at the innermost frame.
    pub fn new(stack: Stack, store: Store) -> (r: Self)
        requires
            stack.frames@.len() > 0,
        ensures
            r.view() == resume_state(stack, store),
            window_synced(r.view()),
    {
        let frame = stack.frames[stack.frames.len() - 1];
        Executor { sp: frame.base, ip: frame.ip, stack, store }
    }

    /// The index of register `r` in the value stack, if it names a cell.
    fn register_index(&self, r: Reg) -> (res: Option<usize>)
        ensures
            match res {
                Some(i) => reg_ok(self.view(), r) && i == self.sp + r.0,
                None => !reg_ok(self.view(), r),
            },
    {
        let len = self.stack.values.len();
        if r.0 >= 0 {
            let offset = r.0 as usize;
            if self.sp <= len && offset < len - self.sp {
                Some(self.sp + offset)
            } else {
                None
            }
        } else {
            let back = (-(r.0 as i32)) as usize;
            if back <= self.sp && self.sp - back < len {
                Some(self.sp - back)
            } else {
                None
            }
        }
    }

    /// Returns the cell of register `r` of the innermost frame.
    pub fn get_register(&self, r: Reg) -> (v: Result<u64, Error>)
        ensures
            v == get_reg(self.view(), r),
    {
        match self.register_index(r) {
            Some(i) => Ok(self.stack.values[i]),
            None => Err(Error::Fatal(FatalError::RegisterOutOfBounds)),
        }
    }

    /// Sets register `r` of the innermost frame to `v`.
    pub fn set_register(&mut self, r: Reg, v: u64) -> (res: Result<(), Error>)
        ensures
            match set_reg(old(self).view(), r, v) {
                Ok(s) => res == Ok::<(), Error>(()) && final(self).view() == s,
                Err(e) => res == Err::<(), Error>(e) && final(self).view() == old(self).view(),
            },
    {
        match self.register_index(r) {
            Some(i) => {
                self.stack.values.set(i, v);
                Ok(())
            },
            None => Err(Error::Fatal(FatalError::RegisterOutOfBounds)),
        }
    }

    /// Moves the instruction pointer `skip` words on.
    pub fn next_instr_at(&mut self, skip: usize)
        requires
            old(self).ip + skip <= usize::MAX,
        ensures
            final(self).view() == advance(old(self).view(), skip as nat),
    {
        self.ip = self.ip + skip;
    }

    /// Moves the instruction pointer to the next word.
    pub fn next_instr(&mut self)
        requires
            old(self).ip < usize::MAX,
        ensures
            final(self).view() == advance(old(self).view(), 1),
    {
        self.next_instr_at(1);
    }

    /// Moves the instruction pointer `skip` words on and continues.
    pub fn try_next_instr_at(&mut self, skip: usize) -> (res: Result<Step, Error>)
        requires
            old(self).ip + skip <= usize::MAX,
        ensures
            (final(self).view(), res) == cont(advance(old(self).view(), skip as nat)),
    {
        self.next_instr_at(skip);
        Ok(Step::Continue)
    }

    /// Moves the instruction pointer to the next word and continues.
    pub fn try_next_instr(&mut self) -> (res: Result<Step, Error>)
        requires
            old(self).ip < usize::MAX,
        ensures
            (final(self).view(), res) == cont(advance(old(self).view(), 1)),
    {
        self.try_next_instr_at(1)
    }

    /// Writes `v` to register `r`, then moves `skip` words on.
    fn write_next(&mut self, r: Reg, v: u64, skip: usize) -> (res: Result<Step, Error>)
        requires
            old(self).ip + skip <= usize::MAX,
        ensures
            (final(self).view(), res) == write_next(old(self).view(), r, v, skip as nat),
    {
        match self.set_register(r, v) {
            Ok(()) => self.try_next_instr_at(skip),
            Err(e) => Err(e),
        }
    }

    /// Points the cached registers at `frame`.
    pub fn init_call_frame(&mut self, frame: &CallFrame)
        ensures
            final(self).view() == at_frame(old(self).view(), *frame),
    {
        self.sp = frame.base;
        self.ip = frame.ip;
    }

    /// Checks that `len` registers from `r` on lie in the value stack; returns
    /// the index of the first.
    fn span_start(&self, r: Reg, len: usize) -> (res: Option<usize>)
        ensures
            match res {
                Some(i) => span_ok(self.view(), r, len as nat) && i == self.sp + r.0,
                None => !span_ok(self.view(), r, len as nat),
            },
    {
        let total = self.stack.values.len();
        if r.0 >= 0 && self.sp <= total && (r.0 as usize) <= total - self.sp && len <= total
            - self.sp - r.0 as usize {
            Some(self.sp + r.0 as usize)
        } else {
            None
        }
    }

    /// Copies `len` cells of the value stack from `at` on.
    fn read_cells(&self, at: usize, len: usize) -> (r: Vec<u64>)
        requires
            at + len <= self.stack.values.len(),
        ensures
            r@ == self.stack.values@.subrange(at as int, at + len),
    {
        let mut r: Vec<u64> = Vec::new();
        let mut i: usize = 0;
        while i < len
            invariant
                i <= len,
                at + len <= self.stack.values.len(),
                r@ == self.stack.values@.subrange(at as int, at + i),
            decreases len - i,
        {
            r.push(self.stack.values[at + i]);
            i = i + 1;
            assert(r@ =~= self.stack.values@.subrange(at as int, at + i));
        }
        r
    }

    /// Writes `src` into the value stack from `at` on.
    fn write_cells(&mut self, at: usize, src: &Vec<u64>)
        requires
            at + src@.len() <= old(self).stack.values.len(),
        ensures
            final(self).view() == with_values(
                old(self).view(),
                write_span(old(self).stack.values@, at as int, src@),
            ),
    {
        let mut i: usize = 0;
        while i < src.len()
            invariant
                i <= src@.len(),
                at + src@.len() <= self.stack.values.len(),
                self.view() == with_values(old(self).view(), self.stack.values@),
                self.stack.values@.len() == old(self).stack.values@.len(),
                forall|j: int|
                    0 <= j < self.stack.values@.len() ==> #[trigger] self.stack.values@[j] == if at
                        <= j < at + i {
                        src@[j - at]
                    } else {
                        old(self).stack.values@[j]
                    },
            decreases src@.len() - i,
        {
            self.stack.values.set(at + i, src[i]);
            i = i + 1;
        }
        assert(self.stack.values@ =~= write_span(old(self).stack.values@, at as int, src@));
    }

    /// Executes an [`Instruction::Trap`].
    pub fn execute_trap(&mut self, trap_code: TrapCode) -> (res: Result<Step, Error>)
        ensures
            (final(self).view(), res) == trap(old(self).view(), trap_code),
    {
        Err(Error::Trap(trap_code))
    }

    /// Executes an [`Instruction::ConsumeFuel`].
    pub fn execute_consume_fuel(&mut self, amount: u64) -> (res: Result<Step, Error>)
        requires
            old(self).ip < usize::MAX,
        ensures
            (final(self).view(), res) == consume_fuel_spec(old(self).view(), amount),
    {
        if self.store.fuel < amount {
            return Err(Error::Trap(TrapCode::OutOfFuel));
        }
        self.store.fuel = self.store.fuel - amount;
        self.try_next_instr()
    }

    /// Pops the innermost frame and hands `vals` to its caller.
    fn execute_return_values(&mut self, vals: Vec<u64>) -> (res: Result<Step, Error>)
        ensures
            (final(self).view(), res) == return_spec(old(self).view(), vals@),
    {
        let n = self.stack.frames.len();
        if n == 0 {
            return Err(Error::Fatal(FatalError::NoCallFrame));
        }
        let f = self.stack.frames[n - 1];
        if vals.len() != f.len_results as usize {
            return Err(Error::Fatal(FatalError::ArityMismatch));
        }
        if f.base > self.stack.values.len() || f.start > f.base || f.results > f.start
            || vals.len() > f.start - f.results {
            return Err(Error::Fatal(FatalError::RegisterOutOfBounds));
        }
        self.stack.values.truncate(f.start);
        self.write_cells(f.results, &vals);
        self.stack.frames.pop();
        if n == 1 {
            Ok(Step::Stop(Outcome::Returned { results: f.results, len: f.len_results }))
        } else {
            let caller = self.stack.frames[n - 2];
            self.init_call_frame(&caller);
            Ok(Step::Continue)
        }
    }

    /// Executes an [`Instruction::ReturnReg`].
    fn execute_return_reg(&mut self, value: Reg) -> (res: Result<Step, Error>)
        ensures
            (final(self).view(), res) == return_reg_spec(old(self).view(), value),
    {
        match self.get_register(value) {
            Err(e) => Err(e),
            Ok(v) => {
                let mut vals: Vec<u64> = Vec::new();
                vals.push(v);
                assert(vals@ =~= seq![v]);
                self.execute_return_values(vals)
            },
        }
    }

    /// Executes an [`Instruction::ReturnSpan`].
    fn execute_return_span(&mut self, values: Reg, len: u16) -> (res: Result<Step, Error>)
        ensures
            (final(self).view(), res) == return_span_spec(old(self).view(), values, len),
    {
        match self.span_start(values, len as usize) {
            None => Err(Error::Fatal(FatalError::RegisterOutOfBounds)),
            Some(at) => {
                let vals = self.read_cells(at, len as usize);
                self.execute_return_values(vals)
            },
        }
    }

    /// Executes an [`Instruction::ReturnNez`].
    fn execute_return_nez(&mut self, condition: Reg) -> (res: Result<Step, Error>)
        requires
            old(self).ip < usize::MAX,
        ensures
            (final(self).view(), res) == return_nez_spec(old(self).view(), condition),
    {
        match self.get_register(condition) {
            Err(e) => Err(e),
            Ok(c) => if low_u32(c) == 0 {
                self.try_next_instr()
            } else {
                let vals: Vec<u64> = Vec::new();
                assert(vals@ =~= seq![]);
                self.execute_return_values(vals)
            },
        }
    }

    /// Executes an [`Instruction::ReturnNezReg`].
    fn execute_return_nez_reg(&mut self, condition: Reg, value: Reg) -> (res: Result<Step, Error>)
        requires
            old(self).ip < usize::MAX,
        ensures
            (final(self).view(), res) == return_nez_reg_spec(old(self).view(), condition, value),
    {
        match self.get_register(condition) {
            Err(e) => Err(e),
            Ok(c) => match self.get_register(value) {
                Err(e) => Err(e),
                Ok(v) => match ConditionalReturn::from_condition(c, v) {
                    ConditionalReturn::Continue => self.try_next_instr(),
                    ConditionalReturn::Return { result } => {
                        let mut vals: Vec<u64> = Vec::new();
                        vals.push(result);
                        assert(vals@ =~= seq![v]);
                        self.execute_return_values(vals)
                    },
                },
            },
        }
    }

    /// Executes an [`Instruction::ReturnNezSpan`].
    fn execute_return_nez_span(&mut self, condition: Reg, values: BoundedRegSpan) -> (res: Result<Step, Error>)
        requires
            old(self).ip < usize::MAX,
        ensures
            (final(self).view(), res) == return_nez_span_spec(old(self).view(), condition, values),
    {
        match self.get_register(condition) {
            Err(e) => Err(e),
            Ok(c) => match ConditionalReturnMulti::from_condition(c, values) {
                ConditionalReturnMulti::Continue => self.try_next_instr(),
                ConditionalReturnMulti::Return { results } => {
                    self.execute_return_span(results.span, results.len)
                },
            },
        }
    }

    /// Branches `offset` words away from the current instruction.
    pub fn execute_branch(&mut self, offset: i32, len_code: usize) -> (res: Result<Step, Error>)
        requires
            old(self).ip < len_code,
        ensures
            (final(self).view(), res) == branch_spec(old(self).view(), offset, len_code as nat),
    {
        if offset >= 0 {
            let o = offset as usize;
            if o < len_code - self.ip {
                self.ip = self.ip + o;
                return Ok(Step::Continue);
            }
        } else {
            let o = (-(offset as i64)) as usize;
            if o <= self.ip {
                self.ip = self.ip - o;
                return Ok(Step::Continue);
            }
        }
        Err(Error::Fatal(FatalError::InstructionOutOfBounds))
    }

    /// Executes [`Instruction::BranchNezCopy`] (`Ok` register value) and
    /// [`Instruction::BranchNezCopyImm32`] (`Err` immediate value).
    fn execute_branch_nez_copy(&mut self, condition: Reg, result: Reg, value: Result<Reg, u32>, offset: i32, len_code: usize) -> (res: Result<Step, Error>)
        requires
            old(self).ip < len_code,
        ensures
            (final(self).view(), res) == branch_nez_copy_spec(old(self).view(), condition, result, value, offset, len_code as nat),
    {
        match self.get_register(condition) {
            Err(e) => Err(e),
            Ok(c) => if low_u32(c) == 0 {
                self.try_next_instr()
            } else {
                let v = match value {
                    Ok(r) => self.get_register(r),
                    Err(imm) => Ok(imm as u64),
                };
                match v {
                    Err(e) => Err(e),
                    Ok(v) => match self.set_register(result, v) {
                        Err(e) => Err(e),
                        Ok(()) => self.execute_branch(offset, len_code),
                    },
                }
            },
        }
    }

    /// Executes an [`Instruction::BranchTable`]: the targets are the words after it.
    pub fn execute_branch_table(&mut self, index: Reg, len_targets: u32, len_code: usize) -> (res: Result<Step, Error>)
        requires
            old(self).ip < len_code,
        ensures
            (final(self).view(), res) == branch_table_spec(old(self).view(), index, len_targets, len_code as nat),
    {
        match self.get_register(index) {
            Err(e) => Err(e),
            Ok(i) => {
                if len_targets == 0 {
                    return Err(Error::Fatal(FatalError::EmptyBranchTable));
                }
                let x = low_u32(i);
                let t = if x < len_targets - 1 {
                    x
                } else {
                    len_targets - 1
                };
                if (t as usize) < len_code - self.ip - 1 {
                    self.ip = self.ip + 1 + t as usize;
                    Ok(Step::Continue)
                } else {
                    Err(Error::Fatal(FatalError::InstructionOutOfBounds))
                }
            },
        }
    }

    /// Compares two cells and branches when the comparison holds.
    fn execute_branch_cmp(&mut self, op: BinaryOp, a: u64, b: u64, offset: i32, len_code: usize) -> (res: Result<Step, Error>)
        requires
            old(self).ip < len_code,
        ensures
            (final(self).view(), res) == branch_cmp_spec(old(self).view(), op, a, b, offset, len_code as nat),
    {
        match execute_binary_op(op, a, b) {
            Err(t) => Err(Error::Trap(t)),
            Ok(c) => if c != 0 {
                self.execute_branch(offset, len_code)
            } else {
                self.try_next_instr()
            },
        }
    }

    /// Executes [`Instruction::Truncate`] and [`Instruction::TruncateSat`].
    fn execute_truncate(&mut self, op: TruncOp, result: Reg, input: Reg, saturating: bool) -> (res: Result<Step, Error>)
        requires
            old(self).ip < usize::MAX,
        ensures
            (final(self).view(), res) == truncate_spec(old(self).view(), op, result, input, saturating),
    {
        match self.get_register(input) {
            Err(e) => Err(e),
            Ok(a) => if saturating {
                self.write_next(result, execute_trunc_sat(op, a), 1)
            } else {
                match execute_trunc(op, a) {
                    Err(t) => Err(Error::Trap(t)),
                    Ok(v) => self.write_next(result, v, 1),
                }
            },
        }
    }

    /// Executes [`Instruction::BranchCmp`] (`Ok` right operand) and
    /// [`Instruction::BranchCmpImm`] (`Err` immediate).
    fn execute_branch_cmp_step(&mut self, op: BinaryOp, lhs: Reg, rhs: Result<Reg, i16>, offset: i32, len_code: usize) -> (res: Result<Step, Error>)
        requires
            old(self).ip < len_code,
        ensures
            (final(self).view(), res) == branch_cmp_step_spec(old(self).view(), op, lhs, rhs, offset, len_code as nat),
    {
        match self.get_register(lhs) {
            Err(e) => Err(e),
            Ok(a) => match rhs {
                Ok(r) => match self.get_register(r) {
                    Err(e) => Err(e),
                    Ok(b) => self.execute_branch_cmp(op, a, b, offset, len_code),
                },
                Err(imm) => self.execute_branch_cmp(op, a, imm16_cell_of(imm), offset, len_code),
            },
        }
    }

    /// Executes an [`Instruction::Copy`].
    fn execute_copy(&mut self, result: Reg, value: Reg) -> (res: Result<Step, Error>)
        requires
            old(self).ip < usize::MAX,
        ensures
            (final(self).view(), res) == copy_spec(old(self).view(), result, value),
    {
        match self.get_register(value) {
            Err(e) => Err(e),
            Ok(v) => self.write_next(result, v, 1),
        }
    }

    /// Executes an [`Instruction::GlobalGet`].
    fn execute_global_get(&mut self, result: Reg, global: u32) -> (res: Result<Step, Error>)
        requires
            old(self).ip < usize::MAX,
        ensures
            (final(self).view(), res) == global_get_spec(old(self).view(), result, global),
    {
        if global as usize >= self.store.globals.len() {
            Err(Error::Fatal(FatalError::UnknownGlobal))
        } else {
            let v = self.store.globals[global as usize];
            self.write_next(result, v, 1)
        }
    }

    /// Executes [`Instruction::CopySpan`] and [`Instruction::CopySpanNonOverlapping`].
    fn execute_copy_span(&mut self, results: Reg, values: Reg, len: u16, disjoint_only: bool) -> (res: Result<Step, Error>)
        requires
            old(self).ip < usize::MAX,
        ensures
            (final(self).view(), res) == copy_span_spec(old(self).view(), results, values, len, disjoint_only),
    {
        let dst = self.span_start(results, len as usize);
        let src = self.span_start(values, len as usize);
        match (dst, src) {
            (Some(d), Some(s)) => {
                let l = len as i32;
                if disjoint_only && (results.0 as i32) < (values.0 as i32) + l && (values.0 as i32)
                    < (results.0 as i32) + l {
                    return Err(Error::Fatal(FatalError::OverlappingCopy));
                }
                let moved = self.read_cells(s, len as usize);
                self.write_cells(d, &moved);
                self.try_next_instr()
            },
            _ => Err(Error::Fatal(FatalError::RegisterOutOfBounds)),
        }
    }

    /// Executes a binary operation on two cells, writing to `result`.
    fn execute_binary_values(&mut self, op: BinaryOp, result: Reg, a: u64, b: u64) -> (res: Result<Step, Error>)
        requires
            old(self).ip < usize::MAX,
        ensures
            (final(self).view(), res) == binary_step_spec(old(self).view(), op, result, a, b),
    {
        match execute_binary_op(op, a, b) {
            Err(t) => Err(Error::Trap(t)),
            Ok(v) => self.write_next(result, v, 1),
        }
    }

    /// Executes an [`Instruction::Binary`].
    pub fn execute_binary(&mut self, op: BinaryOp, result: Reg, lhs: Reg, rhs: Reg) -> (res: Result<Step, Error>)
        requires
            old(self).ip < usize::MAX,
        ensures
            (final(self).view(), res) == match get_reg(old(self).view(), lhs) {
                Err(e) => fail(old(self).view(), e),
                Ok(a) => match get_reg(old(self).view(), rhs) {
                    Err(e) => fail(old(self).view(), e),
                    Ok(b) => binary_step_spec(old(self).view(), op, result, a, b),
                },
            },
    {
        match self.get_register(lhs) {
            Err(e) => Err(e),
            Ok(a) => match self.get_register(rhs) {
                Err(e) => Err(e),
                Ok(b) => self.execute_binary_values(op, result, a, b),
            },
        }
    }

    /// Executes an [`Instruction::BinaryImm16`]: the immediate is the right operand.
    pub fn execute_binary_imm16(&mut self, op: BinaryOp, result: Reg, lhs: Reg, rhs: i16) -> (res: Result<Step, Error>)
        requires
            old(self).ip < usize::MAX,
        ensures
            (final(self).view(), res) == match get_reg(old(self).view(), lhs) {
                Err(e) => fail(old(self).view(), e),
                Ok(a) => binary_step_spec(old(self).view(), op, result, a, imm16_cell(rhs)),
            },
    {
        match self.get_register(lhs) {
            Err(e) => Err(e),
            Ok(a) => self.execute_binary_values(op, result, a, imm16_cell_of(rhs)),
        }
    }

    /// Executes an [`Instruction::BinaryImm16Lhs`]: the immediate is the left operand.
    pub fn execute_binary_imm16_lhs(&mut self, op: BinaryOp, result: Reg, lhs: i16, rhs: Reg) -> (res: Result<Step, Error>)
        requires
            old(self).ip < usize::MAX,
        ensures
            (final(self).view(), res) == match get_reg(old(self).view(), rhs) {
                Err(e) => fail(old(self).view(), e),
                Ok(b) => binary_step_spec(old(self).view(), op, result, imm16_cell(lhs), b),
            },
    {
        match self.get_register(rhs) {
            Err(e) => Err(e),
            Ok(b) => self.execute_binary_values(op, result, imm16_cell_of(lhs), b),
        }
    }

    /// Executes an [`Instruction::Unary`].
    pub fn execute_unary(&mut self, op: UnaryOp, result: Reg, input: Reg) -> (res: Result<Step, Error>)
        requires
            old(self).ip < usize::MAX,
        ensures
            (final(self).view(), res) == match get_reg(old(self).view(), input) {
                Err(e) => fail(old(self).view(), e),
                Ok(a) => write_next(old(self).view(), result, crate::value::unary_spec(op, a), 1),
            },
    {
        match self.get_register(input) {
            Err(e) => Err(e),
            Ok(a) => self.write_next(result, execute_unary_op(op, a), 1),
        }
    }

    /// Executes an [`Instruction::Select`].
    fn execute_select(&mut self, result: Reg, condition: Reg, lhs: Reg, rhs: Reg) -> (res: Result<Step, Error>)
        requires
            old(self).ip < usize::MAX,
        ensures
            (final(self).view(), res) == select_spec(old(self).view(), result, condition, lhs, rhs),
    {
        match self.get_register(condition) {
            Err(e) => Err(e),
            Ok(c) => match self.get_register(lhs) {
                Err(e) => Err(e),
                Ok(a) => match self.get_register(rhs) {
                    Err(e) => Err(e),
                    Ok(b) => self.write_next(result, if low_u32(c) != 0 { a } else { b }, 1),
                },
            },
        }
    }

    /// Reads the offset of the parameter word after the current instruction.
    fn fetch_offset(&self, code: &CodeMap) -> (r: Option<u32>)
        ensures
            r == offset_param(*code, self.ip as int),
            r is Some ==> self.ip + 1 < code.instrs.len(),
    {
        let len = code.instrs.len();
        if len > 0 && self.ip < len - 1 {
            match code.instrs[self.ip + 1] {
                Instruction::Const32 { value } => Some(value),
                _ => None,
            }
        } else {
            None
        }
    }

    /// Executes an [`Instruction::Load`].
    fn execute_load(&mut self, code: &CodeMap, kind: LoadKind, result: Reg, ptr: Reg) -> (res: Result<Step, Error>)
        requires
            old(self).ip < code.instrs@.len(),
        ensures
            (final(self).view(), res) == load_step_spec(old(self).view(), *code, kind, result, ptr),
    {
        match self.fetch_offset(code) {
            None => Err(Error::Fatal(FatalError::MissingParameter)),
            Some(offset) => match self.get_register(ptr) {
                Err(e) => Err(e),
                Ok(p) => {
                    let address = low_u32(p) as u64 + offset as u64;
                    if address > 0xffff_ffff || address + kind.width() > self.store.memory.len() as u64 {
                        return Err(Error::Trap(TrapCode::MemoryAccessOutOfBounds));
                    }
                    let v = load(&self.store.memory, kind, address as usize);
                    self.write_next(result, v, 2)
                },
            },
        }
    }

    /// Executes an [`Instruction::Store`].
    fn execute_store(&mut self, code: &CodeMap, kind: StoreKind, ptr: Reg, value: Reg) -> (res: Result<Step, Error>)
        requires
            old(self).ip < code.instrs@.len(),
        ensures
            (final(self).view(), res) == store_step_spec(old(self).view(), *code, kind, ptr, value),
    {
        match self.fetch_offset(code) {
            None => Err(Error::Fatal(FatalError::MissingParameter)),
            Some(offset) => match self.get_register(ptr) {
                Err(e) => Err(e),
                Ok(p) => match self.get_register(value) {
                    Err(e) => Err(e),
                    Ok(v) => {
                        let address = low_u32(p) as u64 + offset as u64;
                        if address > 0xffff_ffff || address + kind.width() > self.store.memory.len() as u64 {
                            return Err(Error::Trap(TrapCode::MemoryAccessOutOfBounds));
                        }
                        store(&mut self.store.memory, kind, address as usize, v);
                        self.try_next_instr_at(2)
                    },
                },
            },
        }
    }

    /// Executes an [`Instruction::MemorySize`].
    fn execute_memory_size(&mut self, result: Reg) -> (res: Result<Step, Error>)
        requires
            old(self).ip < usize::MAX,
        ensures
            (final(self).view(), res) == write_next(old(self).view(), result, pages(old(self).view()) as u64, 1),
    {
        let p = (self.store.memory.len() / 65536) as u64;
        self.write_next(result, p, 1)
    }

    /// Executes an [`Instruction::MemoryGrow`]: growing past the maximum
    /// yields `u32::MAX` and leaves memory as it was; within it, the request
    /// is handed to the embedder's limiter.
    fn execute_memory_grow(&mut self, result: Reg, delta: Reg) -> (res: Result<Step, Error>)
        requires
            old(self).ip < usize::MAX,
        ensures
            (final(self).view(), res) == memory_grow_spec(old(self).view(), result, delta),
    {
        match self.get_register(delta) {
            Err(e) => Err(e),
            Ok(d) => {
                let at = match self.register_index(result) {
                    Some(at) => at,
                    None => {
                        return Err(Error::Fatal(FatalError::RegisterOutOfBounds));
                    },
                };
                let delta_pages = low_u32(d) as u64;
                let old_pages = (self.store.memory.len() / 65536) as u64;
                let room = (usize::MAX - self.store.memory.len()) as u64;
                if old_pages + delta_pages > self.store.max_pages as u64 || old_pages + delta_pages
                    > MAX_PAGES || delta_pages * 65536
                    > room {
                    return self.write_next(result, 0xffff_ffff, 1);
                }
                self.suspend(Outcome::Grow {
                    request: GrowRequest::Memory { delta: delta_pages as u32 },
                    result: at,
                })
            },
        }
    }

    /// Executes an [`Instruction::MemoryFill`].
    fn execute_memory_fill(&mut self, dst: Reg, value: Reg, len: Reg) -> (res: Result<Step, Error>)
        requires
            old(self).ip < usize::MAX,
        ensures
            (final(self).view(), res) == memory_fill_spec(old(self).view(), dst, value, len),
    {
        match (self.get_register(dst), self.get_register(value), self.get_register(len)) {
            (Err(e), _, _) => Err(e),
            (Ok(_), Err(e), _) => Err(e),
            (Ok(_), Ok(_), Err(e)) => Err(e),
            (Ok(d), Ok(v), Ok(n)) => {
                let d = low_u32(d) as u64;
                let n = low_u32(n) as u64;
                if d + n > self.store.memory.len() as u64 {
                    return Err(Error::Trap(TrapCode::MemoryAccessOutOfBounds));
                }
                fill(&mut self.store.memory, d as usize, n as usize, (v % 256) as u8);
                self.try_next_instr()
            },
        }
    }

    /// Executes an [`Instruction::MemoryCopy`].
    fn execute_memory_copy(&mut self, dst: Reg, src: Reg, len: Reg) -> (res: Result<Step, Error>)
        requires
            old(self).ip < usize::MAX,
        ensures
            (final(self).view(), res) == memory_copy_spec(old(self).view(), dst, src, len),
    {
        match (self.get_register(dst), self.get_register(src), self.get_register(len)) {
            (Err(e), _, _) => Err(e),
            (Ok(_), Err(e), _) => Err(e),
            (Ok(_), Ok(_), Err(e)) => Err(e),
            (Ok(d), Ok(f), Ok(n)) => {
                let d = low_u32(d) as u64;
                let f = low_u32(f) as u64;
                let n = low_u32(n) as u64;
                let size = self.store.memory.len() as u64;
                if n != 0 && (d + n > size || f + n > size) {
                    return Err(Error::Trap(TrapCode::MemoryAccessOutOfBounds));
                }
                if n == 0 {
                    return self.try_next_instr();
                }
                copy_within(&mut self.store.memory, d as usize, f as usize, n as usize);
                self.try_next_instr()
            },
        }
    }

    /// Executes an [`Instruction::MemoryInit`].
    fn execute_memory_init(&mut self, segment: u32, dst: Reg, src: Reg, len: Reg) -> (res: Result<Step, Error>)
        requires
            old(self).ip < usize::MAX,
        ensures
            (final(self).view(), res) == memory_init_spec(old(self).view(), segment, dst, src, len),
    {
        match (self.get_register(dst), self.get_register(src), self.get_register(len)) {
            (Err(e), _, _) => Err(e),
            (Ok(_), Err(e), _) => Err(e),
            (Ok(_), Ok(_), Err(e)) => Err(e),
            (Ok(d), Ok(f), Ok(n)) => {
                let seg = segment as usize;
                if seg >= self.store.data.len() {
                    return Err(Error::Fatal(FatalError::UnknownSegment));
                }
                let d = low_u32(d) as usize;
                let f = low_u32(f) as usize;
                let n = low_u32(n) as usize;
                let seg_len = self.store.data[seg].len();
                if n != 0 && (d as u64 + n as u64 > self.store.memory.len() as u64 || f as u64
                    + n as u64 > seg_len as u64) {
                    return Err(Error::Trap(TrapCode::MemoryAccessOutOfBounds));
                }
                if n == 0 {
                    return self.try_next_instr();
                }
                let ghost bytes = self.view().data[seg as int];
                let ghost before = self.store.memory@;
                let mut k: usize = 0;
                while k < n
                    invariant
                        k <= n,
                        d + n <= self.store.memory.len(),
                        f + n <= bytes.len(),
                        f + n <= self.store.data@[seg as int].len(),
                        seg < self.store.data@.len(),
                        self.store.data@[seg as int]@ == bytes,
                        self.store.memory@.len() == before.len(),
                        self.view() == with_memory(old(self).view(), self.store.memory@),
                        before == old(self).view().memory,
                        bytes == old(self).view().data[seg as int],
                        forall|j: int|
                            0 <= j < self.store.memory@.len() ==> #[trigger] self.store.memory@[j]
                                == if d <= j < d + k {
                                bytes[f + j - d]
                            } else {
                                before[j]
                            },
                    decreases n - k,
                {
                    let b = self.store.data[seg][f + k];
                    self.store.memory.set(d + k, b);
                    k = k + 1;
                }
                assert(self.store.memory@ =~= init_bytes_spec(before, bytes, d as int, f as int, n as int));
                self.try_next_instr()
            },
        }
    }

    /// Executes an [`Instruction::DataDrop`].
    fn execute_data_drop(&mut self, segment: u32) -> (res: Result<Step, Error>)
        requires
            old(self).ip < usize::MAX,
        ensures
            (final(self).view(), res) == data_drop_spec(old(self).view(), segment),
    {
        if segment as usize >= self.store.data.len() {
            return Err(Error::Fatal(FatalError::UnknownSegment));
        }
        self.store.data.set(segment as usize, Vec::new());
        assert(self.view().data =~= old(self).view().data.update(segment as int, seq![]));
        self.try_next_instr()
    }

    /// Executes an [`Instruction::GlobalSetImm16`].
    fn execute_global_set_imm16(&mut self, global: u32, value: i16) -> (res: Result<Step, Error>)
        requires
            old(self).ip < usize::MAX,
        ensures
            (final(self).view(), res) == global_set_imm16_spec(old(self).view(), global, value),
    {
        if global as usize >= self.store.globals.len() {
            return Err(Error::Fatal(FatalError::UnknownGlobal));
        }
        self.store.globals.set(global as usize, imm16_cell_of(value));
        self.try_next_instr()
    }

    /// Executes an [`Instruction::TableGrow`].
    fn execute_table_grow(&mut self, result: Reg, delta: Reg, init: Reg) -> (res: Result<Step, Error>)
        requires
            old(self).ip < usize::MAX,
        ensures
            (final(self).view(), res) == table_grow_spec(old(self).view(), result, delta, init),
    {
        match (self.get_register(delta), self.get_register(init)) {
            (Err(e), _) => Err(e),
            (Ok(_), Err(e)) => Err(e),
            (Ok(d), Ok(v)) => {
                let at = match self.register_index(result) {
                    Some(at) => at,
                    None => {
                        return Err(Error::Fatal(FatalError::RegisterOutOfBounds));
                    },
                };
                if v > 0x1_0000_0000 {
                    return Err(Error::Fatal(FatalError::UnknownFunction));
                }
                let d = low_u32(d) as u64;
                let old_len = self.store.table.len() as u64;
                let max = self.store.max_table as u64;
                if old_len > max || d > max - old_len {
                    return self.write_next(result, 0xffff_ffff, 1);
                }
                let entry = if v == 0 {
                    None
                } else {
                    Some((v - 1) as u32)
                };
                self.suspend(Outcome::Grow {
                    request: GrowRequest::Table { delta: d as u32, init: entry },
                    result: at,
                })
            },
        }
    }

    /// Executes an [`Instruction::TableFill`].
    fn execute_table_fill(&mut self, dst: Reg, value: Reg, len: Reg) -> (res: Result<Step, Error>)
        requires
            old(self).ip < usize::MAX,
        ensures
            (final(self).view(), res) == table_fill_spec(old(self).view(), dst, value, len),
    {
        match (self.get_register(dst), self.get_register(value), self.get_register(len)) {
            (Err(e), _, _) => Err(e),
            (Ok(_), Err(e), _) => Err(e),
            (Ok(_), Ok(_), Err(e)) => Err(e),
            (Ok(d), Ok(v), Ok(n)) => {
                if v > 0x1_0000_0000 {
                    return Err(Error::Fatal(FatalError::UnknownFunction));
                }
                let d = low_u32(d) as u64;
                let n = low_u32(n) as u64;
                if d + n > self.store.table.len() as u64 {
                    return Err(Error::Trap(TrapCode::TableAccessOutOfBounds));
                }
                let entry = if v == 0 {
                    None
                } else {
                    Some((v - 1) as u32)
                };
                fill_cells(&mut self.store.table, d as usize, n as usize, entry);
                self.try_next_instr()
            },
        }
    }

    /// Executes an [`Instruction::TableCopy`].
    fn execute_table_copy(&mut self, dst: Reg, src: Reg, len: Reg) -> (res: Result<Step, Error>)
        requires
            old(self).ip < usize::MAX,
        ensures
            (final(self).view(), res) == table_copy_spec(old(self).view(), dst, src, len),
    {
        match (self.get_register(dst), self.get_register(src), self.get_register(len)) {
            (Err(e), _, _) => Err(e),
            (Ok(_), Err(e), _) => Err(e),
            (Ok(_), Ok(_), Err(e)) => Err(e),
            (Ok(d), Ok(f), Ok(n)) => {
                let d = low_u32(d) as u64;
                let f = low_u32(f) as u64;
                let n = low_u32(n) as u64;
                if n == 0 {
                    return self.try_next_instr();
                }
                let size = self.store.table.len() as u64;
                if d + n > size || f + n > size {
                    return Err(Error::Trap(TrapCode::TableAccessOutOfBounds));
                }
                copy_cells(&mut self.store.table, d as usize, f as usize, n as usize);
                self.try_next_instr()
            },
        }
    }

    /// Executes an [`Instruction::TableInit`].
    fn execute_table_init(&mut self, segment: u32, dst: Reg, src: Reg, len: Reg) -> (res: Result<Step, Error>)
        requires
            old(self).ip < usize::MAX,
        ensures
            (final(self).view(), res) == table_init_spec(old(self).view(), segment, dst, src, len),
    {
        match (self.get_register(dst), self.get_register(src), self.get_register(len)) {
            (Err(e), _, _) => Err(e),
            (Ok(_), Err(e), _) => Err(e),
            (Ok(_), Ok(_), Err(e)) => Err(e),
            (Ok(d), Ok(f), Ok(n)) => {
                let seg = segment as usize;
                if seg >= self.store.elems.len() {
                    return Err(Error::Fatal(FatalError::UnknownSegment));
                }
                let d = low_u32(d) as u64;
                let f = low_u32(f) as u64;
                let n = low_u32(n) as u64;
                if n == 0 {
                    return self.try_next_instr();
                }
                if d + n > self.store.table.len() as u64 || f + n > self.store.elems[seg].len() as u64 {
                    return Err(Error::Trap(TrapCode::TableAccessOutOfBounds));
                }
                let entries = self.store.elems[seg].clone();
                write_cells(&mut self.store.table, d as usize, &entries, f as usize, n as usize);
                self.try_next_instr()
            },
        }
    }

    /// Executes an [`Instruction::ElemDrop`].
    fn execute_elem_drop(&mut self, segment: u32) -> (res: Result<Step, Error>)
        requires
            old(self).ip < usize::MAX,
        ensures
            (final(self).view(), res) == elem_drop_spec(old(self).view(), segment),
    {
        if segment as usize >= self.store.elems.len() {
            return Err(Error::Fatal(FatalError::UnknownSegment));
        }
        self.store.elems.set(segment as usize, Vec::new());
        assert(self.view().elems =~= old(self).view().elems.update(segment as int, seq![]));
        self.try_next_instr()
    }

    /// Executes an [`Instruction::TableGet`].
    fn execute_table_get(&mut self, result: Reg, index: Reg) -> (res: Result<Step, Error>)
        requires
            old(self).ip < usize::MAX,
        ensures
            (final(self).view(), res) == table_get_spec(old(self).view(), result, index),
    {
        match self.get_register(index) {
            Err(e) => Err(e),
            Ok(i) => {
                let i = low_u32(i) as usize;
                if i >= self.store.table.len() {
                    return Err(Error::Trap(TrapCode::TableAccessOutOfBounds));
                }
                let cell = match self.store.table[i] {
                    Some(f) => f as u64 + 1,
                    None => 0,
                };
                self.write_next(result, cell, 1)
            },
        }
    }

    /// Executes an [`Instruction::TableSet`].
    fn execute_table_set(&mut self, index: Reg, value: Reg) -> (res: Result<Step, Error>)
        requires
            old(self).ip < usize::MAX,
        ensures
            (final(self).view(), res) == table_set_spec(old(self).view(), index, value),
    {
        match self.get_register(index) {
            Err(e) => Err(e),
            Ok(i) => match self.get_register(value) {
                Err(e) => Err(e),
                Ok(v) => {
                    let i = low_u32(i) as usize;
                    if i >= self.store.table.len() {
                        return Err(Error::Trap(TrapCode::TableAccessOutOfBounds));
                    }
                    if v > 0x1_0000_0000 {
                        return Err(Error::Fatal(FatalError::UnknownFunction));
                    }
                    let entry = if v == 0 {
                        None
                    } else {
                        Some((v - 1) as u32)
                    };
                    self.store.table.set(i, entry);
                    self.try_next_instr()
                },
            },
        }
    }

    /// Executes an [`Instruction::GlobalSet`].
    fn execute_global_set(&mut self, global: u32, value: Reg) -> (res: Result<Step, Error>)
        requires
            old(self).ip < usize::MAX,
        ensures
            (final(self).view(), res) == global_set_spec(old(self).view(), global, value),
    {
        match self.get_register(value) {
            Err(e) => Err(e),
            Ok(v) => if global as usize >= self.store.globals.len() {
                Err(Error::Fatal(FatalError::UnknownGlobal))
            } else {
                self.store.globals.set(global as usize, v);
                self.try_next_instr()
            },
        }
    }

    /// Executes an [`Instruction::RefFunc`]: a function reference is its index plus one.
    pub fn execute_ref_func(&mut self, code: &CodeMap, result: Reg, func: u32) -> (res: Result<Step, Error>)
        requires
            old(self).ip < usize::MAX,
        ensures
            (final(self).view(), res) == execute_spec(old(self).view(), *code, (Instruction::RefFunc { result, func })),
    {
        reveal(execute_spec);
        if func as usize >= code.funcs.len() {
            Err(Error::Fatal(FatalError::UnknownFunction))
        } else {
            self.write_next(result, func as u64 + 1, 1)
        }
    }

    /// Calls function `func` with the arguments in `len_params` registers from `params` on.
    fn call_func(&mut self, code: &CodeMap, func: u32, results: Reg, params: Reg, len_params: u16) -> (res: Result<Step, Error>)
        requires
            old(self).ip < usize::MAX,
        ensures
            (final(self).view(), res) == call_spec(old(self).view(), *code, func, results, params, len_params),
    {
        if func as usize >= code.funcs.len() {
            return Err(Error::Fatal(FatalError::UnknownFunction));
        }
        let callee = code.funcs[func as usize];
        if len_params != callee.num_params || callee.num_registers < callee.num_params {
            return Err(Error::Fatal(FatalError::ArityMismatch));
        }
        let src = self.span_start(params, len_params as usize);
        let dst = self.span_start(results, callee.num_results as usize);
        let (src, dst) = match (src, dst) {
            (Some(s), Some(d)) => (s, d),
            _ => {
                return Err(Error::Fatal(FatalError::RegisterOutOfBounds));
            },
        };
        let n = self.stack.frames.len();
        if n == 0 {
            return Err(Error::Fatal(FatalError::NoCallFrame));
        }
        let caller = self.stack.frames[n - 1];
        match callee.kind {
            FuncKind::Imported => {
                self.stack.frames.set(n - 1, CallFrame { ip: self.ip + 1, ..caller });
                self.ip = self.ip + 1;
                Ok(
                    Step::Stop(
                        Outcome::HostCall {
                            func,
                            params: src,
                            len_params,
                            results: dst,
                            len_results: callee.num_results,
                            tail: false,
                        },
                    ),
                )
            },
            FuncKind::Internal => {
                if !consts_in_pool(code, &callee) {
                    return Err(Error::Fatal(FatalError::RegisterOutOfBounds));
                }
                let start = self.stack.values.len();
                let area = callee.num_consts as usize + callee.num_registers as usize;
                let fits = match start.checked_add(area) {
                    Some(end) => end <= self.stack.max_values,
                    None => false,
                };
                if n >= self.stack.max_frames || !fits {
                    return Err(Error::Trap(TrapCode::StackOverflow));
                }
                let args = self.read_cells(src, len_params as usize);
                extend_consts(&mut self.stack.values, code, &callee);
                self.push_window(&args, callee.num_registers as usize);
                assert(self.stack.values@ =~= old(self).stack.values@ + const_area(*code, callee)
                    + new_window(args@, callee.num_registers as nat));
                let base = start + callee.num_consts as usize;
                self.stack.frames.set(n - 1, CallFrame { ip: self.ip + 1, ..caller });
                let frame = CallFrame {
                    func,
                    ip: callee.entry,
                    base,
                    start,
                    results: dst,
                    len_results: callee.num_results,
                };
                self.stack.frames.push(frame);
                self.init_call_frame(&frame);
                Ok(Step::Continue)
            },
        }
    }

    /// Pushes a register window onto the value stack: `args`, then zeros up
    /// to `total` cells.
    fn push_window(&mut self, args: &Vec<u64>, total: usize)
        requires
            args@.len() <= total,
        ensures
            final(self).view() == with_values(
                old(self).view(),
                old(self).stack.values@ + new_window(args@, total as nat),
            ),
    {
        extend_cells(&mut self.stack.values, args);
        extend_zeros(&mut self.stack.values, total - args.len());
        assert(self.stack.values@ =~= old(self).stack.values@ + new_window(args@, total as nat));
    }

    /// Executes an [`Instruction::ReturnCall`]: the callee takes over the
    /// innermost frame and its result slot.
    fn execute_return_call(&mut self, code: &CodeMap, func: u32, params: Reg, len_params: u16) -> (res: Result<Step, Error>)
        ensures
            (final(self).view(), res) == return_call_spec(old(self).view(), *code, func, params, len_params),
    {
        if func as usize >= code.funcs.len() {
            return Err(Error::Fatal(FatalError::UnknownFunction));
        }
        let callee = code.funcs[func as usize];
        if len_params != callee.num_params || callee.num_registers < callee.num_params {
            return Err(Error::Fatal(FatalError::ArityMismatch));
        }
        let src = match self.span_start(params, len_params as usize) {
            Some(s) => s,
            None => {
                return Err(Error::Fatal(FatalError::RegisterOutOfBounds));
            },
        };
        let n = self.stack.frames.len();
        if n == 0 {
            return Err(Error::Fatal(FatalError::NoCallFrame));
        }
        let f = self.stack.frames[n - 1];
        if callee.num_results != f.len_results {
            return Err(Error::Fatal(FatalError::ArityMismatch));
        }
        if callee.kind == FuncKind::Imported {
            return self.execute_host_tail_call(func, params, len_params);
        }
        if !consts_in_pool(code, &callee) || f.start > self.stack.values.len() {
            return Err(Error::Fatal(FatalError::RegisterOutOfBounds));
        }
        let area = callee.num_consts as usize + callee.num_registers as usize;
        if area > self.stack.max_values || f.start > self.stack.max_values - area {
            return Err(Error::Trap(TrapCode::StackOverflow));
        }
        let args = self.read_cells(src, len_params as usize);
        self.stack.values.truncate(f.start);
        extend_consts(&mut self.stack.values, code, &callee);
        self.push_window(&args, callee.num_registers as usize);
        assert(self.stack.values@ =~= old(self).stack.values@.subrange(0, f.start as int) + const_area(
            *code,
            callee,
        ) + new_window(args@, callee.num_registers as nat));
        let base = f.start + callee.num_consts as usize;
        let frame = CallFrame { func, ip: callee.entry, base, ..f };
        self.stack.frames.set(n - 1, frame);
        self.init_call_frame(&frame);
        Ok(Step::Continue)
    }

    /// Tail-calls host function `func` with the `len_params` arguments from
    /// `params` on: pops the innermost frame and stages the arguments where its
    /// cells began.
    fn execute_host_tail_call(&mut self, func: u32, params: Reg, len_params: u16) -> (res: Result<Step, Error>)
        requires
            old(self).stack.frames@.len() > 0,
            span_ok(old(self).view(), params, len_params as nat),
        ensures
            (final(self).view(), res) == host_tail_call_spec(old(self).view(), func, params, len_params),
    {
        let src = match self.span_start(params, len_params as usize) {
            Some(s) => s,
            None => {
                return Err(Error::Fatal(FatalError::RegisterOutOfBounds));
            },
        };
        let n = self.stack.frames.len();
        let f = self.stack.frames[n - 1];
        if f.start > self.stack.values.len() {
            return Err(Error::Fatal(FatalError::RegisterOutOfBounds));
        }
        let args = self.read_cells(src, len_params as usize);
        self.stack.values.truncate(f.start);
        extend_cells(&mut self.stack.values, &args);
        let ghost popped = self.stack.frames@;
        self.stack.frames.pop();
        assert(self.stack.frames@ =~= popped.drop_last());
        if n > 1 {
            let caller = self.stack.frames[n - 2];
            self.init_call_frame(&caller);
        }
        Ok(
            Step::Stop(
                Outcome::HostCall {
                    func,
                    params: f.start,
                    len_params,
                    results: f.results,
                    len_results: f.len_results,
                    tail: true,
                },
            ),
        )
    }

    /// The function that table entry `index` names, checked against `func_type`.
    fn resolve_indirect(&self, code: &CodeMap, func_type: u32, index: Reg) -> (r: Result<u32, Error>)
        ensures
            r == indirect_target(self.view(), *code, func_type, index),
    {
        match self.get_register(index) {
            Err(e) => Err(e),
            Ok(i) => {
                let i = low_u32(i) as usize;
                if i >= self.store.table.len() {
                    return Err(Error::Trap(TrapCode::TableAccessOutOfBounds));
                }
                match self.store.table[i] {
                    None => Err(Error::Trap(TrapCode::IndirectCallToNull)),
                    Some(f) => if f as usize >= code.funcs.len() {
                        Err(Error::Fatal(FatalError::UnknownFunction))
                    } else if code.funcs[f as usize].func_type != func_type {
                        Err(Error::Trap(TrapCode::BadSignature))
                    } else {
                        Ok(f)
                    },
                }
            },
        }
    }

    /// Executes an [`Instruction::ReturnCallIndirect`].
    fn execute_return_call_indirect(&mut self, code: &CodeMap, func_type: u32, index: Reg, params: Reg, len_params: u16) -> (res: Result<Step, Error>)
        ensures
            (final(self).view(), res) == return_call_indirect_spec(old(self).view(), *code, func_type, index, params, len_params),
    {
        match self.resolve_indirect(code, func_type, index) {
            Err(e) => Err(e),
            Ok(f) => self.execute_return_call(code, f, params, len_params),
        }
    }

    /// Hands a float operation out to whoever runs the executor.
    fn execute_float(&mut self, call: FloatCall, result: Reg) -> (res: Result<Step, Error>)
        requires
            old(self).ip < usize::MAX,
        ensures
            (final(self).view(), res) == float_spec(old(self).view(), call, result),
    {
        let at = match self.register_index(result) {
            Some(at) => at,
            None => {
                return Err(Error::Fatal(FatalError::RegisterOutOfBounds));
            },
        };
        self.suspend(Outcome::Float { call, result: at })
    }

    /// Stops with `o` after the current instruction.
    fn suspend(&mut self, o: Outcome) -> (res: Result<Step, Error>)
        requires
            old(self).ip < usize::MAX,
        ensures
            (final(self).view(), res) == suspend_spec(old(self).view(), o),
    {
        let n = self.stack.frames.len();
        if n == 0 {
            return Err(Error::Fatal(FatalError::NoCallFrame));
        }
        let f = self.stack.frames[n - 1];
        self.stack.frames.set(n - 1, CallFrame { ip: self.ip + 1, ..f });
        self.ip = self.ip + 1;
        Ok(Step::Stop(o))
    }

    /// Executes an [`Instruction::FloatUnary`].
    fn execute_float_unary(&mut self, op: FloatUnaryOp, result: Reg, input: Reg) -> (res: Result<Step, Error>)
        requires
            old(self).ip < usize::MAX,
        ensures
            (final(self).view(), res) == float_unary_spec(old(self).view(), op, result, input),
    {
        match self.get_register(input) {
            Err(e) => Err(e),
            Ok(a) => self.execute_float(FloatCall::Unary { op, input: a }, result),
        }
    }

    /// Executes an [`Instruction::FloatBinary`].
    fn execute_float_binary(&mut self, op: FloatBinaryOp, result: Reg, lhs: Reg, rhs: Reg) -> (res: Result<Step, Error>)
        requires
            old(self).ip < usize::MAX,
        ensures
            (final(self).view(), res) == float_binary_spec(old(self).view(), op, result, lhs, rhs),
    {
        match self.get_register(lhs) {
            Err(e) => Err(e),
            Ok(a) => match self.get_register(rhs) {
                Err(e) => Err(e),
                Ok(b) => self.execute_float(FloatCall::Binary { op, lhs: a, rhs: b }, result),
            },
        }
    }

    /// Executes an [`Instruction::CallIndirect`].
    fn execute_call_indirect(&mut self, code: &CodeMap, func_type: u32, index: Reg, results: Reg, params: Reg, len_params: u16) -> (res: Result<Step, Error>)
        requires
            old(self).ip < usize::MAX,
        ensures
            (final(self).view(), res) == call_indirect_spec(old(self).view(), *code, func_type, index, results, params, len_params),
    {
        match self.resolve_indirect(code, func_type, index) {
            Err(e) => Err(e),
            Ok(f) => self.call_func(code, f, results, params, len_params),
        }
    }

    /// The bits of the instruction's primary operand, or zero.
    fn operand_bits(&self, instr: Instruction) -> (r: u64)
        ensures
            r == operand_bits(self.view(), instr),
    {
        match primary_register(instr) {
            Some(r) => match self.get_register(r) {
                Ok(v) => v,
                Err(_) => 0,
            },
            None => 0,
        }
    }

    /// Mixes `instr` into the runtime signature, if the store tracks it.
    pub fn sign(&mut self, instr: Instruction)
        ensures
            final(self).view() == sign_spec(old(self).view(), instr),
    {
        if self.store.track_signature {
            let v = opcode_prime(instr) ^ self.operand_bits(instr);
            let ghost s = self.view();
            assert(s.signature ^ (instr_prime(instr) ^ operand_bits(s, instr)) == s.signature
                ^ instr_prime(instr) ^ operand_bits(s, instr)) by {
                let a = s.signature;
                let b = instr_prime(instr);
                let c = operand_bits(s, instr);
                assert(a ^ (b ^ c) == a ^ b ^ c) by (bit_vector);
            }
            self.store.signature = update_runtime_signature(self.store.signature, v);
        }
    }

    /// Executes `instr`, the instruction at the current position.
    #[verifier::rlimit(100)]
    #[verifier::spinoff_prover]
    fn dispatch(&mut self, code: &CodeMap, instr: Instruction) -> (res: Result<Step, Error>)
        requires
            old(self).ip < code.instrs@.len(),
        ensures
            (final(self).view(), res) == execute_spec(old(self).view(), *code, instr),
    {
        reveal(execute_spec);
        let len_code = code.instrs.len();
        match instr {
            Instruction::Const32 { .. } => Err(Error::Fatal(FatalError::ParameterWordExecuted)),
            Instruction::Trap { trap_code } => self.execute_trap(trap_code),
            Instruction::ConsumeFuel { amount } => self.execute_consume_fuel(amount),
            Instruction::Return => {
                let vals: Vec<u64> = Vec::new();
                assert(vals@ =~= seq![]);
                self.execute_return_values(vals)
            },
            Instruction::ReturnReg { value } => self.execute_return_reg(value),
            Instruction::ReturnImm32 { value } => {
                let mut vals: Vec<u64> = Vec::new();
                vals.push(value as u64);
                assert(vals@ =~= seq![value as u64]);
                self.execute_return_values(vals)
            },
            Instruction::ReturnSpan { values, len } => self.execute_return_span(values, len),
            Instruction::ReturnNez { condition } => self.execute_return_nez(condition),
            Instruction::ReturnNezReg { condition, value } => {
                self.execute_return_nez_reg(condition, value)
            },
            Instruction::ReturnNezSpan { condition, values } => {
                self.execute_return_nez_span(condition, values)
            },
            Instruction::Branch { offset } => self.execute_branch(offset, len_code),
            Instruction::BranchTable { index, len_targets } => {
                self.execute_branch_table(index, len_targets, len_code)
            },
            Instruction::BranchCmp { op, lhs, rhs, offset } => {
                self.execute_branch_cmp_step(op, lhs, Ok(rhs), offset, len_code)
            },
            Instruction::BranchCmpImm { op, lhs, rhs, offset } => {
                self.execute_branch_cmp_step(op, lhs, Err(rhs), offset, len_code)
            },
            Instruction::Copy { result, value } => self.execute_copy(result, value),
            Instruction::CopyImm32 { result, value } => self.write_next(result, value as u64, 1),
            Instruction::CopyI64Imm32 { result, value } => {
                proof {
                    crate::value::lemma_i64_bits(value as i64);
                }
                self.write_next(result, value as i64 as u64, 1)
            },
            Instruction::CopySpan { results, values, len } => {
                self.execute_copy_span(results, values, len, false)
            },
            Instruction::CopySpanNonOverlapping { results, values, len } => {
                self.execute_copy_span(results, values, len, true)
            },
            Instruction::Select { result, condition, lhs, rhs } => {
                self.execute_select(result, condition, lhs, rhs)
            },
            Instruction::Unary { op, result, input } => self.execute_unary(op, result, input),
            Instruction::Binary { op, result, lhs, rhs } => {
                self.execute_binary(op, result, lhs, rhs)
            },
            Instruction::BinaryImm16 { op, result, lhs, rhs } => {
                self.execute_binary_imm16(op, result, lhs, rhs)
            },
            Instruction::BinaryImm16Lhs { op, result, lhs, rhs } => {
                self.execute_binary_imm16_lhs(op, result, lhs, rhs)
            },
            Instruction::Truncate { op, result, input } => {
                self.execute_truncate(op, result, input, false)
            },
            Instruction::TruncateSat { op, result, input } => {
                self.execute_truncate(op, result, input, true)
            },
            Instruction::Load { kind, result, ptr } => self.execute_load(code, kind, result, ptr),
            Instruction::Store { kind, ptr, value } => self.execute_store(code, kind, ptr, value),
            Instruction::MemorySize { result } => self.execute_memory_size(result),
            Instruction::MemoryGrow { result, delta } => self.execute_memory_grow(result, delta),
            Instruction::MemoryFill { dst, value, len } => self.execute_memory_fill(dst, value, len),
            Instruction::MemoryCopy { dst, src, len } => self.execute_memory_copy(dst, src, len),
            Instruction::TableGet { result, index } => self.execute_table_get(result, index),
            Instruction::TableSet { index, value } => self.execute_table_set(index, value),
            Instruction::MemoryInit { segment, dst, src, len } => {
                self.execute_memory_init(segment, dst, src, len)
            },
            Instruction::DataDrop { segment } => self.execute_data_drop(segment),
            Instruction::GlobalSetImm16 { global, value } => {
                self.execute_global_set_imm16(global, value)
            },
            Instruction::TableGrow { result, delta, init } => self.execute_table_grow(result, delta, init),
            Instruction::TableFill { dst, value, len } => self.execute_table_fill(dst, value, len),
            Instruction::TableCopy { dst, src, len } => self.execute_table_copy(dst, src, len),
            Instruction::TableInit { segment, dst, src, len } => {
                self.execute_table_init(segment, dst, src, len)
            },
            Instruction::ElemDrop { segment } => self.execute_elem_drop(segment),
            Instruction::BranchNezCopy { condition, result, value, offset } => {
                self.execute_branch_nez_copy(condition, result, Ok(value), offset, len_code)
            },
            Instruction::BranchNezCopyImm32 { condition, result, value, offset } => {
                self.execute_branch_nez_copy(condition, result, Err(value), offset, len_code)
            },
            Instruction::ReturnI64Imm32 { value } => {
                proof {
                    crate::value::lemma_i64_bits(value as i64);
                }
                let mut vals: Vec<u64> = Vec::new();
                vals.push(value as i64 as u64);
                assert(vals@ =~= seq![crate::value::cell64(value as int)]);
                self.execute_return_values(vals)
            },
            Instruction::TableSize { result } => {
                let n = self.store.table.len() as u64;
                self.write_next(result, n, 1)
            },
            Instruction::GlobalGet { result, global } => self.execute_global_get(result, global),
            Instruction::GlobalSet { global, value } => self.execute_global_set(global, value),
            Instruction::RefFunc { result, func } => self.execute_ref_func(code, result, func),
            Instruction::Call { func, results, params, len_params } => {
                self.call_func(code, func, results, params, len_params)
            },
            Instruction::CallIndirect { func_type, index, results, params, len_params } => {
                self.execute_call_indirect(code, func_type, index, results, params, len_params)
            },
            Instruction::ReturnCall { func, params, len_params } => {
                self.execute_return_call(code, func, params, len_params)
            },
            Instruction::ReturnCallIndirect { func_type, index, params, len_params } => {
                self.execute_return_call_indirect(code, func_type, index, params, len_params)
            },
            Instruction::FloatUnary { op, result, input } => {
                self.execute_float_unary(op, result, input)
            },
            Instruction::FloatBinary { op, result, lhs, rhs } => {
                self.execute_float_binary(op, result, lhs, rhs)
            },
        }
    }

    /// One turn of the dispatch loop: fetch, sign, execute.
    pub fn step(&mut self, code: &CodeMap) -> (res: Result<Step, Error>)
        ensures
            (final(self).view(), res) == step_spec(old(self).view(), *code),
    {
        if self.ip >= code.instrs.len() {
            return Err(Error::Fatal(FatalError::InstructionOutOfBounds));
        }
        let instr = code.instrs[self.ip];
        self.sign(instr);
        self.dispatch(code, instr)
    }

    /// Writes the instruction pointer back into the innermost frame.
    fn save_ip(&mut self)
        ensures
            final(self).view() == save_ip(old(self).view()),
    {
        let n = self.stack.frames.len();
        if n > 0 {
            let f = self.stack.frames[n - 1];
            self.stack.frames.set(n - 1, CallFrame { ip: self.ip, ..f });
        }
    }

    /// Runs at most `max_steps` instructions: until the outermost frame
    /// returns, a host function is called, or an instruction fails.
    pub fn execute(&mut self, code: &CodeMap, max_steps: u64) -> (res: Result<Outcome, Error>)
        ensures
            (final(self).view(), res) == run_spec(old(self).view(), *code, max_steps as nat),
    {
        let ghost start = self.view();
        let mut left: u64 = max_steps;
        while left > 0
            invariant
                start == old(self).view(),
                run_spec(self.view(), *code, left as nat) == run_spec(start, *code, max_steps as nat),
            decreases left,
        {
            let ghost pre = self.view();
            assert(run_spec(pre, *code, left as nat) == ({
                let (s2, r) = step_spec(pre, *code);
                match r {
                    Err(e) => (s2, Err(e)),
                    Ok(Step::Stop(o)) => (s2, Ok(o)),
                    Ok(Step::Continue) => run_spec(s2, *code, (left - 1) as nat),
                }
            }));
            match self.step(code) {
                Err(e) => {
                    assert(run_spec(pre, *code, left as nat) == (self.view(), Err::<Outcome, Error>(e)));
                    return Err(e);
                },
                Ok(Step::Stop(o)) => {
                    assert(run_spec(pre, *code, left as nat) == (self.view(), Ok::<Outcome, Error>(o)));
                    return Ok(o);
                },
                Ok(Step::Continue) => {},
            }
            left = left - 1;
        }
        self.save_ip();
        Ok(Outcome::OutOfSteps)
    }
}

/// The register [`primary_operand`] names.
fn primary_register(instr: Instruction) -> (r: Option<Reg>)
    ensures
        r == primary_operand(instr),
{
    match instr {
        Instruction::ReturnReg { value } => Some(value),
        Instruction::ReturnNez { condition } => Some(condition),
        Instruction::ReturnNezReg { condition, .. } => Some(condition),
        Instruction::ReturnNezSpan { condition, .. } => Some(condition),
        Instruction::BranchNezCopy { condition, .. } => Some(condition),
        Instruction::BranchNezCopyImm32 { condition, .. } => Some(condition),
        Instruction::BranchTable { index, .. } => Some(index),
        Instruction::BranchCmp { lhs, .. } => Some(lhs),
        Instruction::BranchCmpImm { lhs, .. } => Some(lhs),
        Instruction::Copy { value, .. } => Some(value),
        Instruction::Select { condition, .. } => Some(condition),
        Instruction::Unary { input, .. } => Some(input),
        Instruction::Truncate { input, .. } => Some(input),
        Instruction::FloatUnary { input, .. } => Some(input),
        Instruction::FloatBinary { lhs, .. } => Some(lhs),
        Instruction::TruncateSat { input, .. } => Some(input),
        Instruction::Binary { lhs, .. } => Some(lhs),
        Instruction::BinaryImm16 { lhs, .. } => Some(lhs),
        Instruction::BinaryImm16Lhs { rhs, .. } => Some(rhs),
        Instruction::Load { ptr, .. } => Some(ptr),
        Instruction::Store { ptr, .. } => Some(ptr),
        Instruction::MemoryGrow { delta, .. } => Some(delta),
        Instruction::MemoryFill { dst, .. } => Some(dst),
        Instruction::MemoryCopy { dst, .. } => Some(dst),
        Instruction::MemoryInit { dst, .. } => Some(dst),
        Instruction::TableGrow { delta, .. } => Some(delta),
        Instruction::TableFill { dst, .. } => Some(dst),
        Instruction::TableCopy { dst, .. } => Some(dst),
        Instruction::TableInit { dst, .. } => Some(dst),
        Instruction::TableGet { index, .. } => Some(index),
        Instruction::TableSet { index, .. } => Some(index),
        Instruction::GlobalSet { value, .. } => Some(value),
        Instruction::CallIndirect { index, .. } => Some(index),
        Instruction::ReturnCallIndirect { index, .. } => Some(index),
        _ => None,
    }
}

/// Executes code until execution returns from the outermost frame, a host
/// function is called, `max_steps` instructions have run, or an instruction
/// fails. `stack` and `store` are left as the run leaves them; the position
/// to resume at is saved in the innermost frame when the run is resumable.
pub fn execute_instrs(store: &mut Store, stack: &mut Stack, code_map: &CodeMap, max_steps: u64) -> (res: Result<Outcome, Error>)
    requires
        old(stack).frames@.len() > 0,
    ensures
        ({
            let (s, r) = run_spec(resume_state(*old(stack), *old(store)), *code_map, max_steps as nat);
            res == r && holds(*final(stack), *final(store), s)
        }),
{
    let mut taken_stack = Stack::empty();
    let mut taken_store = Store::empty();
    std::mem::swap(&mut taken_stack, stack);
    std::mem::swap(&mut taken_store, store);
    let mut executor = Executor::new(taken_stack, taken_store);
    let res = executor.execute(code_map, max_steps);
    *stack = executor.stack;
    *store = executor.store;
    res
}

/// The outcome of a conditional return of one value.
#[derive(Clone, Copy, Debug, PartialEq, Eq, Structural)]
pub enum ConditionalReturn {
    /// Continue with the next instruction.
    Continue,
    /// Return `result` to the caller.
    Return { result: u64 },
}

/// The outcome of a conditional return of any number of values.
#[derive(Clone, Copy, Debug, PartialEq, Eq, Structural)]
pub enum ConditionalReturnMulti {
    /// Continue with the next instruction.
    Continue,
    /// Return the values of the registers in `results` to the caller.
    Return { results: BoundedRegSpan },
}

impl ConditionalReturn {
    /// Returns `result` when the condition cell is true, else continues.
    pub fn from_condition(condition: u64, result: u64) -> (r: Self)
        ensures
            r == if truthy(condition) {
                ConditionalReturn::Return { result }
            } else {
                ConditionalReturn::Continue
            },
    {
        if low_u32(condition) != 0 {
            ConditionalReturn::Return { result }
        } else {
            ConditionalReturn::Continue
        }
    }
}

impl ConditionalReturnMulti {
    /// Returns `results` when the condition cell is true, else continues.
    pub fn from_condition(condition: u64, results: BoundedRegSpan) -> (r: Self)
        ensures
            r == if truthy(condition) {
                ConditionalReturnMulti::Return { results }
            } else {
                ConditionalReturnMulti::Continue
            },
    {
        if low_u32(condition) != 0 {
            ConditionalReturnMulti::Return { results }
        } else {
            ConditionalReturnMulti::Continue
        }
    }
}

/// The cell of a 16-bit immediate operand.
fn imm16_cell_of(v: i16) -> (r: u64)
    ensures
        r == imm16_cell(v),
{
    proof {
        crate::value::lemma_i64_bits(v as i64);
    }
    v as i64 as u64
}

} // verus!
