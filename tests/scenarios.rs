use wasmi::instr::{FloatBinaryOp, FloatCall};
use wasmi::convert::TruncOp;
use wasmi::executor::execute_instrs;
use wasmi::instr::{BoundedRegSpan, Instruction, LoadKind, Reg, StoreKind};
use wasmi::machine::{CodeMap, Error, FatalError, FuncEntity, FuncKind, GrowRequest, Outcome, Stack, Store};
use wasmi::translator::ValueStack;
use wasmi::value::{BinaryOp, TrapCode};

fn internal(func_type: u32, entry: usize, num_params: u16, num_results: u16, num_registers: u16) -> FuncEntity {
    FuncEntity { kind: FuncKind::Internal, func_type, entry, num_params, num_results, num_registers, consts: 0, num_consts: 0 }
}

fn store_with(pages: usize, fuel: u64) -> Store {
    Store {
        memory: vec![0u8; pages * 65536],
        max_pages: 4,
        globals: vec![0u64; 2],
        table: Vec::new(),
        data: vec![vec![1, 2, 3, 4, 5]],
        elems: vec![vec![Some(7), None, Some(9)]],
        max_table: 8,
        fuel,
        track_signature: true,
        signature: 0,
    }
}

/// Invokes `func` with `args`; returns the results or the error.
fn invoke(code: &CodeMap, store: &mut Store, func: u32, args: &[u64]) -> Result<Vec<u64>, Error> {
    let args: Vec<u64> = args.to_vec();
    let mut stack = Stack::new_call(code, func, &args, 64, 1 << 16)?;
    loop {
        match execute_instrs(store, &mut stack, code, 1_000_000)? {
            Outcome::Returned { results, len } => return Ok(stack.read_values(results, len as usize).unwrap()),
            // the limiter allows every growth within the configured maxima
            Outcome::Grow { request, result } => {
                let old = match request {
                    GrowRequest::Memory { delta } => store.grow_memory(delta),
                    GrowRequest::Table { delta, init } => store.grow_table(delta, init),
                };
                assert!(stack.write_value(result, old));
            }
            other => panic!("unexpected outcome {:?}", other),
        }
    }
}

#[test]
fn arithmetic_add_wraps() {
    let code = CodeMap {
        consts: Vec::new(),
        instrs: vec![
            Instruction::Binary { op: BinaryOp::I32Add, result: Reg(2), lhs: Reg(0), rhs: Reg(1) },
            Instruction::ReturnReg { value: Reg(2) },
        ],
        funcs: vec![internal(0, 0, 2, 1, 3)],
    };
    let mut store = store_with(0, 0);
    assert_eq!(invoke(&code, &mut store, 0, &[2, 3]), Ok(vec![5]));
    let r = invoke(&code, &mut store, 0, &[0x7fff_ffff, 1]).unwrap();
    assert_eq!(r[0] as u32 as i32, -0x8000_0000);
}

#[test]
fn trap_on_signed_division() {
    let code = CodeMap {
        consts: Vec::new(),
        instrs: vec![
            Instruction::Binary { op: BinaryOp::I32DivS, result: Reg(2), lhs: Reg(0), rhs: Reg(1) },
            Instruction::ReturnReg { value: Reg(2) },
        ],
        funcs: vec![internal(0, 0, 2, 1, 3)],
    };
    let mut store = store_with(0, 0);
    assert_eq!(invoke(&code, &mut store, 0, &[1, 0]), Err(Error::Trap(TrapCode::IntegerDivisionByZero)));
    let min = (-0x8000_0000i32) as u32 as u64;
    let minus_one = (-1i32) as u32 as u64;
    assert_eq!(invoke(&code, &mut store, 0, &[min, minus_one]), Err(Error::Trap(TrapCode::IntegerOverflow)));
    assert_eq!(invoke(&code, &mut store, 0, &[(-7i32) as u32 as u64, 2]), Ok(vec![(-3i32) as u32 as u64]));
}

fn memory_module() -> CodeMap {
    CodeMap {
        consts: Vec::new(),
        instrs: vec![
            // store8(addr, v)
            Instruction::Store { kind: StoreKind::I32To8, ptr: Reg(0), value: Reg(1) },
            Instruction::Const32 { value: 0 },
            Instruction::Return,
            // load8_u(addr)
            Instruction::Load { kind: LoadKind::I32From8U, result: Reg(1), ptr: Reg(0) },
            Instruction::Const32 { value: 0 },
            Instruction::ReturnReg { value: Reg(1) },
        ],
        funcs: vec![internal(0, 0, 2, 0, 2), internal(1, 3, 1, 1, 2)],
    }
}

#[test]
fn memory_store8_then_load8_u() {
    let code = memory_module();
    let mut store = store_with(1, 0);
    assert_eq!(invoke(&code, &mut store, 0, &[5, 0xAB]), Ok(vec![]));
    assert_eq!(invoke(&code, &mut store, 1, &[5]), Ok(vec![0xAB]));
    assert_eq!(invoke(&code, &mut store, 1, &[65536]), Err(Error::Trap(TrapCode::MemoryAccessOutOfBounds)));
}

fn indirect_module(expected_type: u32) -> CodeMap {
    CodeMap {
        consts: Vec::new(),
        instrs: vec![
            // x + 1
            Instruction::BinaryImm16 { op: BinaryOp::I32Add, result: Reg(1), lhs: Reg(0), rhs: 1 },
            Instruction::ReturnReg { value: Reg(1) },
            // caller(index, arg)
            Instruction::CallIndirect { func_type: expected_type, index: Reg(0), results: Reg(2), params: Reg(1), len_params: 1 },
            Instruction::ReturnReg { value: Reg(2) },
        ],
        funcs: vec![internal(0, 0, 1, 1, 2), internal(2, 2, 2, 1, 3)],
    }
}

#[test]
fn indirect_call_through_table() {
    let code = indirect_module(0);
    let mut store = store_with(0, 0);
    store.table = vec![Some(0), None];
    assert_eq!(invoke(&code, &mut store, 1, &[0, 41]), Ok(vec![42]));
    assert_eq!(invoke(&code, &mut store, 1, &[1, 41]), Err(Error::Trap(TrapCode::IndirectCallToNull)));
    assert_eq!(invoke(&code, &mut store, 1, &[2, 41]), Err(Error::Trap(TrapCode::TableAccessOutOfBounds)));
    let other_type = indirect_module(1);
    assert_eq!(invoke(&other_type, &mut store, 1, &[0, 41]), Err(Error::Trap(TrapCode::BadSignature)));
}

#[test]
fn branch_table_picks_target() {
    let code = CodeMap {
        consts: Vec::new(),
        instrs: vec![
            Instruction::BranchTable { index: Reg(0), len_targets: 4 },
            Instruction::Branch { offset: 4 },
            Instruction::Branch { offset: 4 },
            Instruction::Branch { offset: 4 },
            Instruction::Branch { offset: 4 },
            Instruction::ReturnImm32 { value: 10 },
            Instruction::ReturnImm32 { value: 20 },
            Instruction::ReturnImm32 { value: 30 },
            Instruction::ReturnImm32 { value: 40 },
        ],
        funcs: vec![internal(0, 0, 1, 1, 1)],
    };
    let mut store = store_with(0, 0);
    for (input, expected) in [(0u64, 10u64), (1, 20), (2, 30), (3, 40), (7, 40)] {
        assert_eq!(invoke(&code, &mut store, 0, &[input]), Ok(vec![expected]));
    }
}

fn counting_loop() -> CodeMap {
    CodeMap {
        consts: Vec::new(),
        instrs: vec![
            Instruction::CopyImm32 { result: Reg(0), value: 1000 },
            Instruction::ConsumeFuel { amount: 1 },
            Instruction::BinaryImm16 { op: BinaryOp::I32Sub, result: Reg(0), lhs: Reg(0), rhs: 1 },
            Instruction::BranchCmpImm { op: BinaryOp::I32Ne, lhs: Reg(0), rhs: 0, offset: -2 },
            Instruction::Return,
        ],
        funcs: vec![internal(0, 0, 0, 0, 1)],
    }
}

#[test]
fn fuel_runs_out_in_long_loop() {
    let code = counting_loop();
    let mut store = store_with(0, 500);
    assert_eq!(invoke(&code, &mut store, 0, &[]), Err(Error::Trap(TrapCode::OutOfFuel)));
    let mut store = store_with(0, 10000);
    assert_eq!(invoke(&code, &mut store, 0, &[]), Ok(vec![]));
    assert_eq!(store.fuel, 9000);
}

#[test]
fn signature_is_deterministic() {
    let code = counting_loop();
    let mut first = store_with(0, 10000);
    let mut second = store_with(0, 10000);
    assert_eq!(invoke(&code, &mut first, 0, &[]), invoke(&code, &mut second, 0, &[]));
    assert_eq!(first.signature, second.signature);
    assert_ne!(first.signature, 0);
    let mut untracked = store_with(0, 10000);
    untracked.track_signature = false;
    invoke(&code, &mut untracked, 0, &[]).unwrap();
    assert_eq!(untracked.signature, 0);
}

#[test]
fn step_budget_pauses_and_resumes() {
    let code = counting_loop();
    let mut store = store_with(0, 10000);
    let mut stack = Stack::new_call(&code, 0, &Vec::new(), 8, 64).unwrap();
    assert_eq!(execute_instrs(&mut store, &mut stack, &code, 10), Ok(Outcome::OutOfSteps));
    assert_eq!(stack.frames[0].ip, 1 + (10 - 1) % 3);
    let mut outcome = Outcome::OutOfSteps;
    while outcome == Outcome::OutOfSteps {
        outcome = execute_instrs(&mut store, &mut stack, &code, 100).unwrap();
    }
    assert_eq!(outcome, Outcome::Returned { results: 0, len: 0 });
    assert_eq!(store.fuel, 9000);
}

#[test]
fn host_call_suspends_and_resumes() {
    let code = CodeMap {
        consts: Vec::new(),
        instrs: vec![
            Instruction::Call { func: 1, results: Reg(1), params: Reg(0), len_params: 1 },
            Instruction::BinaryImm16 { op: BinaryOp::I32Mul, result: Reg(1), lhs: Reg(1), rhs: 2 },
            Instruction::ReturnReg { value: Reg(1) },
        ],
        funcs: vec![
            internal(0, 0, 1, 1, 2),
            FuncEntity { kind: FuncKind::Imported, func_type: 0, entry: 0, num_params: 1, num_results: 1, num_registers: 1, consts: 0, num_consts: 0 },
        ],
    };
    let mut store = store_with(0, 0);
    let mut stack = Stack::new_call(&code, 0, &vec![20], 8, 64).unwrap();
    let outcome = execute_instrs(&mut store, &mut stack, &code, 100).unwrap();
    let (params, results) = match outcome {
        Outcome::HostCall { func: 1, params, len_params: 1, results, len_results: 1, tail: false } => (params, results),
        other => panic!("unexpected outcome {:?}", other),
    };
    let arg = stack.read_values(params, 1).unwrap()[0];
    assert_eq!(arg, 20);
    assert!(stack.write_value(results, arg + 1));
    let outcome = execute_instrs(&mut store, &mut stack, &code, 100).unwrap();
    assert_eq!(outcome, Outcome::Returned { results: 0, len: 1 });
    assert_eq!(stack.read_values(0, 1).unwrap(), vec![42]);
}

#[test]
fn internal_calls_nest_and_return() {
    // f(x) = g(x) + g(x), g(y) = y * 3
    let code = CodeMap {
        consts: Vec::new(),
        instrs: vec![
            Instruction::Call { func: 1, results: Reg(1), params: Reg(0), len_params: 1 },
            Instruction::Call { func: 1, results: Reg(2), params: Reg(0), len_params: 1 },
            Instruction::Binary { op: BinaryOp::I64Add, result: Reg(1), lhs: Reg(1), rhs: Reg(2) },
            Instruction::ReturnReg { value: Reg(1) },
            Instruction::BinaryImm16 { op: BinaryOp::I64Mul, result: Reg(1), lhs: Reg(0), rhs: 3 },
            Instruction::ReturnReg { value: Reg(1) },
        ],
        funcs: vec![internal(0, 0, 1, 1, 3), internal(0, 4, 1, 1, 2)],
    };
    let mut store = store_with(0, 0);
    assert_eq!(invoke(&code, &mut store, 0, &[7]), Ok(vec![42]));
}

#[test]
fn deep_recursion_overflows_the_stack() {
    let code = CodeMap {
        consts: Vec::new(),
        instrs: vec![
            Instruction::Call { func: 0, results: Reg(0), params: Reg(0), len_params: 0 },
            Instruction::Return,
        ],
        funcs: vec![internal(0, 0, 0, 0, 1)],
    };
    let mut store = store_with(0, 0);
    assert_eq!(invoke(&code, &mut store, 0, &[]), Err(Error::Trap(TrapCode::StackOverflow)));
}

#[test]
fn memory_grow_and_size() {
    let code = CodeMap {
        consts: Vec::new(),
        instrs: vec![
            Instruction::MemoryGrow { result: Reg(1), delta: Reg(0) },
            Instruction::MemorySize { result: Reg(2) },
            Instruction::ReturnSpan { values: Reg(1), len: 2 },
        ],
        funcs: vec![internal(0, 0, 1, 2, 3)],
    };
    let mut store = store_with(1, 0);
    assert_eq!(invoke(&code, &mut store, 0, &[2]), Ok(vec![1, 3]));
    assert_eq!(store.memory.len(), 3 * 65536);
    assert_eq!(invoke(&code, &mut store, 0, &[2]), Ok(vec![0xffff_ffff, 3]));
    assert_eq!(store.memory.len(), 3 * 65536);
}

#[test]
fn wide_loads_and_stores_are_little_endian() {
    let code = CodeMap {
        consts: Vec::new(),
        instrs: vec![
            Instruction::Store { kind: StoreKind::I64, ptr: Reg(0), value: Reg(1) },
            Instruction::Const32 { value: 8 },
            Instruction::Load { kind: LoadKind::I64From16S, result: Reg(2), ptr: Reg(0) },
            Instruction::Const32 { value: 8 },
            Instruction::Load { kind: LoadKind::I32, result: Reg(3), ptr: Reg(0) },
            Instruction::Const32 { value: 12 },
            Instruction::ReturnSpan { values: Reg(2), len: 2 },
        ],
        funcs: vec![internal(0, 0, 2, 2, 4)],
    };
    let mut store = store_with(1, 0);
    let r = invoke(&code, &mut store, 0, &[16, 0x1122_3344_5566_8899]).unwrap();
    assert_eq!(store.memory[24..32], [0x99, 0x88, 0x66, 0x55, 0x44, 0x33, 0x22, 0x11]);
    assert_eq!(r, vec![(-0x7767i64) as u64, 0x1122_3344]);
}

#[test]
fn copies_select_and_globals() {
    let code = CodeMap {
        consts: Vec::new(),
        instrs: vec![
            Instruction::CopySpan { results: Reg(1), values: Reg(0), len: 2 },
            Instruction::Select { result: Reg(3), condition: Reg(0), lhs: Reg(1), rhs: Reg(2) },
            Instruction::GlobalSet { global: 1, value: Reg(3) },
            Instruction::GlobalGet { result: Reg(0), global: 1 },
            Instruction::CopyI64Imm32 { result: Reg(2), value: -5 },
            Instruction::ReturnSpan { values: Reg(0), len: 3 },
        ],
        funcs: vec![internal(0, 0, 2, 3, 4)],
    };
    let mut store = store_with(0, 0);
    // [9, 4, 0, 0] -> copy span over itself shifted -> [9, 9, 4, 0]
    assert_eq!(invoke(&code, &mut store, 0, &[9, 4]), Ok(vec![9, 9, (-5i64) as u64]));
    assert_eq!(store.globals[1], 9);
}

#[test]
fn non_overlapping_copy_rejects_overlap() {
    let code = CodeMap {
        consts: Vec::new(),
        instrs: vec![
            Instruction::CopySpanNonOverlapping { results: Reg(1), values: Reg(0), len: 2 },
            Instruction::Return,
        ],
        funcs: vec![internal(0, 0, 0, 0, 3)],
    };
    let mut store = store_with(0, 0);
    assert_eq!(invoke(&code, &mut store, 0, &[]), Err(Error::Fatal(FatalError::OverlappingCopy)));
}

#[test]
fn fatal_errors_are_reported() {
    let mut store = store_with(0, 0);
    let parameter = CodeMap {
        consts: Vec::new(), instrs: vec![Instruction::Const32 { value: 0 }], funcs: vec![internal(0, 0, 0, 0, 0)] };
    assert_eq!(invoke(&parameter, &mut store, 0, &[]), Err(Error::Fatal(FatalError::ParameterWordExecuted)));
    let register = CodeMap {
        consts: Vec::new(), instrs: vec![Instruction::ReturnReg { value: Reg(5) }], funcs: vec![internal(0, 0, 0, 1, 1)] };
    assert_eq!(invoke(&register, &mut store, 0, &[]), Err(Error::Fatal(FatalError::RegisterOutOfBounds)));
    let arity = CodeMap {
        consts: Vec::new(), instrs: vec![Instruction::Return], funcs: vec![internal(0, 0, 0, 1, 1)] };
    assert_eq!(invoke(&arity, &mut store, 0, &[]), Err(Error::Fatal(FatalError::ArityMismatch)));
    let fall_off = CodeMap {
        consts: Vec::new(), instrs: vec![Instruction::Branch { offset: 5 }], funcs: vec![internal(0, 0, 0, 0, 0)] };
    assert_eq!(invoke(&fall_off, &mut store, 0, &[]), Err(Error::Fatal(FatalError::InstructionOutOfBounds)));
    let missing = CodeMap {
        consts: Vec::new(),
        instrs: vec![Instruction::Load { kind: LoadKind::I32, result: Reg(0), ptr: Reg(0) }, Instruction::Return],
        funcs: vec![internal(0, 0, 0, 0, 1)],
    };
    assert_eq!(invoke(&missing, &mut store, 0, &[]), Err(Error::Fatal(FatalError::MissingParameter)));
    let global = CodeMap {
        consts: Vec::new(), instrs: vec![Instruction::GlobalGet { result: Reg(0), global: 9 }], funcs: vec![internal(0, 0, 0, 0, 1)] };
    assert_eq!(invoke(&global, &mut store, 0, &[]), Err(Error::Fatal(FatalError::UnknownGlobal)));
    let table = CodeMap {
        consts: Vec::new(), instrs: vec![Instruction::BranchTable { index: Reg(0), len_targets: 0 }], funcs: vec![internal(0, 0, 0, 0, 1)] };
    assert_eq!(invoke(&table, &mut store, 0, &[]), Err(Error::Fatal(FatalError::EmptyBranchTable)));
    let unknown = CodeMap {
        consts: Vec::new(), instrs: vec![Instruction::RefFunc { result: Reg(0), func: 3 }], funcs: vec![internal(0, 0, 0, 0, 1)] };
    assert_eq!(invoke(&unknown, &mut store, 0, &[]), Err(Error::Fatal(FatalError::UnknownFunction)));
    assert_eq!(Stack::new_call(&unknown, 4, &Vec::new(), 1, 1).err(), Some(Error::Fatal(FatalError::UnknownFunction)));
    assert_eq!(Stack::new_call(&unknown, 0, &vec![1], 1, 1).err(), Some(Error::Fatal(FatalError::ArityMismatch)));
}

#[test]
fn explicit_trap_and_ref_func() {
    let mut store = store_with(0, 0);
    let unreachable = CodeMap {
        consts: Vec::new(),
        instrs: vec![Instruction::Trap { trap_code: TrapCode::UnreachableCodeReached }],
        funcs: vec![internal(0, 0, 0, 0, 0)],
    };
    assert_eq!(invoke(&unreachable, &mut store, 0, &[]), Err(Error::Trap(TrapCode::UnreachableCodeReached)));
    let reference = CodeMap {
        consts: Vec::new(),
        instrs: vec![Instruction::RefFunc { result: Reg(0), func: 0 }, Instruction::ReturnReg { value: Reg(0) }],
        funcs: vec![internal(0, 0, 0, 1, 1)],
    };
    assert_eq!(invoke(&reference, &mut store, 0, &[]), Ok(vec![1]));
}

#[test]
fn conditional_return_takes_effect_only_when_true() {
    let code = CodeMap {
        consts: Vec::new(),
        instrs: vec![
            Instruction::ReturnNezReg { condition: Reg(0), value: Reg(1) },
            Instruction::ReturnImm32 { value: 77 },
        ],
        funcs: vec![internal(0, 0, 2, 1, 2)],
    };
    let mut store = store_with(0, 0);
    assert_eq!(invoke(&code, &mut store, 0, &[1, 5]), Ok(vec![5]));
    assert_eq!(invoke(&code, &mut store, 0, &[0x1_0000_0000, 5]), Ok(vec![77]));
}

#[test]
fn truncation_through_the_interpreter() {
    let code = CodeMap {
        consts: Vec::new(),
        instrs: vec![
            Instruction::TruncateSat { op: TruncOp::I32TruncF64S, result: Reg(2), input: Reg(0) },
            Instruction::Truncate { op: TruncOp::I32TruncF32U, result: Reg(1), input: Reg(1) },
            Instruction::ReturnSpan { values: Reg(1), len: 2 },
        ],
        funcs: vec![internal(0, 0, 2, 2, 3)],
    };
    let mut store = store_with(0, 0);
    let r = invoke(&code, &mut store, 0, &[(-1e10f64).to_bits(), 7.99f32.to_bits() as u64]);
    assert_eq!(r, Ok(vec![7, 0x8000_0000]));
    let r = invoke(&code, &mut store, 0, &[0, f32::NAN.to_bits() as u64]);
    assert_eq!(r, Err(Error::Trap(TrapCode::InvalidConversionToInteger)));
}

#[test]
fn tail_calls_keep_the_stack_flat() {
    // countdown(n) = if n == 0 { 99 } else { return_call countdown(n - 1) }
    let code = CodeMap {
        consts: Vec::new(),
        instrs: vec![
            Instruction::BranchCmpImm { op: BinaryOp::I32Eq, lhs: Reg(0), rhs: 0, offset: 3 },
            Instruction::BinaryImm16 { op: BinaryOp::I32Sub, result: Reg(0), lhs: Reg(0), rhs: 1 },
            Instruction::ReturnCall { func: 0, params: Reg(0), len_params: 1 },
            Instruction::ReturnImm32 { value: 99 },
        ],
        funcs: vec![internal(0, 0, 1, 1, 1)],
    };
    let mut store = store_with(0, 0);
    let mut stack = Stack::new_call(&code, 0, &vec![1000], 2, 8).unwrap();
    assert_eq!(execute_instrs(&mut store, &mut stack, &code, 1_000_000), Ok(Outcome::Returned { results: 0, len: 1 }));
    assert_eq!(stack.read_values(0, 1).unwrap(), vec![99]);
}

#[test]
fn tail_call_to_host_function_pops_the_frame() {
    // f(x) = g(x) + 1 where g(y) return-calls host function h(y)
    let host = FuncEntity { kind: FuncKind::Imported, func_type: 0, entry: 0, num_params: 1, num_results: 1, num_registers: 1, consts: 0, num_consts: 0 };
    let code = CodeMap {
        consts: Vec::new(),
        instrs: vec![
            Instruction::Call { func: 1, results: Reg(1), params: Reg(0), len_params: 1 },
            Instruction::BinaryImm16 { op: BinaryOp::I32Add, result: Reg(1), lhs: Reg(1), rhs: 1 },
            Instruction::ReturnReg { value: Reg(1) },
            Instruction::ReturnCall { func: 2, params: Reg(0), len_params: 1 },
        ],
        funcs: vec![internal(0, 0, 1, 1, 2), internal(0, 3, 1, 1, 1), host],
    };
    let mut store = store_with(0, 0);
    let mut stack = Stack::new_call(&code, 0, &vec![20], 8, 64).unwrap();
    let outcome = execute_instrs(&mut store, &mut stack, &code, 100).unwrap();
    // the callee's frame is gone: the host writes straight into f's register 1
    assert_eq!(outcome, Outcome::HostCall { func: 2, params: 3, len_params: 1, results: 2, len_results: 1, tail: true });
    assert_eq!(stack.frames.len(), 1);
    assert_eq!(stack.read_values(3, 1).unwrap(), vec![20]);
    assert!(stack.write_value(2, 40));
    assert_eq!(execute_instrs(&mut store, &mut stack, &code, 100), Ok(Outcome::Returned { results: 0, len: 1 }));
    assert_eq!(stack.read_values(0, 1).unwrap(), vec![41]);

    // from the outermost frame, no frame is left: the host's results are the call's results
    let mut stack = Stack::new_call(&code, 1, &vec![5], 8, 64).unwrap();
    let outcome = execute_instrs(&mut store, &mut stack, &code, 100).unwrap();
    assert_eq!(outcome, Outcome::HostCall { func: 2, params: 1, len_params: 1, results: 0, len_results: 1, tail: true });
    assert!(stack.frames.is_empty());
}

#[test]
fn tail_call_through_the_table() {
    let code = CodeMap {
        consts: Vec::new(),
        instrs: vec![
            Instruction::ReturnCallIndirect { func_type: 0, index: Reg(0), params: Reg(1), len_params: 1 },
            Instruction::BinaryImm16 { op: BinaryOp::I32Mul, result: Reg(1), lhs: Reg(0), rhs: 3 },
            Instruction::ReturnReg { value: Reg(1) },
        ],
        funcs: vec![internal(1, 0, 2, 1, 2), internal(0, 1, 1, 1, 2)],
    };
    let mut store = store_with(0, 0);
    store.table = vec![Some(1), None, Some(0)];
    let mut stack = Stack::new_call(&code, 0, &vec![0, 14], 2, 64).unwrap();
    assert_eq!(execute_instrs(&mut store, &mut stack, &code, 100), Ok(Outcome::Returned { results: 0, len: 1 }));
    assert_eq!(stack.read_values(0, 1).unwrap(), vec![42]);
    assert_eq!(invoke(&code, &mut store, 0, &[1, 14]), Err(Error::Trap(TrapCode::IndirectCallToNull)));
    assert_eq!(invoke(&code, &mut store, 0, &[2, 14]), Err(Error::Trap(TrapCode::BadSignature)));
    assert_eq!(invoke(&code, &mut store, 0, &[3, 14]), Err(Error::Trap(TrapCode::TableAccessOutOfBounds)));
}

#[test]
fn float_operations_are_handed_out() {
    let code = CodeMap {
        consts: Vec::new(),
        instrs: vec![
            Instruction::FloatBinary { op: FloatBinaryOp::F64Add, result: Reg(2), lhs: Reg(0), rhs: Reg(1) },
            Instruction::ReturnReg { value: Reg(2) },
        ],
        funcs: vec![internal(0, 0, 2, 1, 3)],
    };
    let mut store = store_with(0, 0);
    let (a, b) = (1.5f64.to_bits(), 2.25f64.to_bits());
    let mut stack = Stack::new_call(&code, 0, &vec![a, b], 4, 16).unwrap();
    let outcome = execute_instrs(&mut store, &mut stack, &code, 10).unwrap();
    assert_eq!(outcome, Outcome::Float { call: FloatCall::Binary { op: FloatBinaryOp::F64Add, lhs: a, rhs: b }, result: 3 });
    assert!(stack.write_value(3, 3.75f64.to_bits()));
    assert_eq!(execute_instrs(&mut store, &mut stack, &code, 10), Ok(Outcome::Returned { results: 0, len: 1 }));
    assert_eq!(stack.read_values(0, 1).unwrap(), vec![3.75f64.to_bits()]);
}

#[test]
fn float_compare_and_branch() {
    // max(a, b) for f64 bits, NaN-free inputs: branch when a < b
    let code = CodeMap {
        consts: Vec::new(),
        instrs: vec![
            Instruction::BranchCmp { op: BinaryOp::F64Lt, lhs: Reg(0), rhs: Reg(1), offset: 2 },
            Instruction::ReturnReg { value: Reg(0) },
            Instruction::ReturnReg { value: Reg(1) },
        ],
        funcs: vec![internal(0, 0, 2, 1, 2)],
    };
    let mut store = store_with(0, 0);
    let (a, b) = ((-3.5f64).to_bits(), 2.0f64.to_bits());
    assert_eq!(invoke(&code, &mut store, 0, &[a, b]), Ok(vec![b]));
    assert_eq!(invoke(&code, &mut store, 0, &[b, a]), Ok(vec![b]));
}

#[test]
fn bulk_memory_fill_and_copy() {
    // fill(dst, value, len); copy(dst, src, len); then load the word at 8
    let code = CodeMap {
        consts: Vec::new(),
        instrs: vec![
            Instruction::MemoryFill { dst: Reg(0), value: Reg(1), len: Reg(2) },
            Instruction::MemoryCopy { dst: Reg(3), src: Reg(0), len: Reg(2) },
            Instruction::Load { kind: LoadKind::I32, result: Reg(0), ptr: Reg(4) },
            Instruction::Const32 { value: 8 },
            Instruction::ReturnReg { value: Reg(0) },
        ],
        funcs: vec![internal(0, 0, 5, 1, 5)],
    };
    let mut store = store_with(1, 0);
    assert_eq!(invoke(&code, &mut store, 0, &[4, 0x1AB, 4, 6, 0]), Ok(vec![0x0000_ABAB]));
    assert_eq!(store.memory[0..12], [0, 0, 0, 0, 0xAB, 0xAB, 0xAB, 0xAB, 0xAB, 0xAB, 0, 0]);
    // zero length at the very end is fine; one byte past it traps
    assert_eq!(invoke(&code, &mut store, 0, &[65536, 0, 0, 65536, 0]), Ok(vec![0xABAB]));
    assert_eq!(invoke(&code, &mut store, 0, &[65536, 0, 1, 0, 0]), Err(Error::Trap(TrapCode::MemoryAccessOutOfBounds)));
    assert_eq!(invoke(&code, &mut store, 0, &[0, 0, 2, 65535, 0]), Err(Error::Trap(TrapCode::MemoryAccessOutOfBounds)));
}

#[test]
fn overlapping_memory_copy_moves_as_through_a_buffer() {
    let code = CodeMap {
        consts: Vec::new(),
        instrs: vec![
            Instruction::MemoryCopy { dst: Reg(0), src: Reg(1), len: Reg(2) },
            Instruction::Return,
        ],
        funcs: vec![internal(0, 0, 3, 0, 3)],
    };
    let mut store = store_with(1, 0);
    for i in 0..6 {
        store.memory[i] = i as u8 + 1;
    }
    assert_eq!(invoke(&code, &mut store, 0, &[1, 0, 4]), Ok(vec![]));
    assert_eq!(store.memory[0..6], [1, 1, 2, 3, 4, 6]);
    assert_eq!(invoke(&code, &mut store, 0, &[0, 1, 4]), Ok(vec![]));
    assert_eq!(store.memory[0..6], [1, 2, 3, 4, 4, 6]);
}

#[test]
fn table_get_set_size() {
    let code = CodeMap {
        consts: Vec::new(),
        instrs: vec![
            Instruction::TableSet { index: Reg(0), value: Reg(1) },
            Instruction::TableGet { result: Reg(1), index: Reg(0) },
            Instruction::TableSize { result: Reg(2) },
            Instruction::ReturnSpan { values: Reg(1), len: 2 },
        ],
        funcs: vec![internal(0, 0, 2, 2, 3)],
    };
    let mut store = store_with(0, 0);
    store.table = vec![None, None, None];
    assert_eq!(invoke(&code, &mut store, 0, &[2, 1]), Ok(vec![1, 3]));
    assert_eq!(store.table, vec![None, None, Some(0)]);
    assert_eq!(invoke(&code, &mut store, 0, &[2, 0]), Ok(vec![0, 3]));
    assert_eq!(store.table[2], None);
    assert_eq!(invoke(&code, &mut store, 0, &[3, 1]), Err(Error::Trap(TrapCode::TableAccessOutOfBounds)));
}

#[test]
fn conditional_return_of_a_span() {
    let code = CodeMap {
        consts: Vec::new(),
        instrs: vec![
            Instruction::ReturnNezSpan { condition: Reg(0), values: BoundedRegSpan { span: Reg(1), len: 2 } },
            Instruction::ReturnSpan { values: Reg(0), len: 2 },
        ],
        funcs: vec![internal(0, 0, 3, 2, 3)],
    };
    let mut store = store_with(0, 0);
    assert_eq!(invoke(&code, &mut store, 0, &[1, 5, 6]), Ok(vec![5, 6]));
    assert_eq!(invoke(&code, &mut store, 0, &[0, 5, 6]), Ok(vec![0, 5]));
}

#[test]
fn data_segments_init_and_drop() {
    let code = CodeMap {
        consts: Vec::new(),
        instrs: vec![
            Instruction::MemoryInit { segment: 0, dst: Reg(0), src: Reg(1), len: Reg(2) },
            Instruction::DataDrop { segment: 0 },
            Instruction::GlobalSetImm16 { global: 0, value: -2 },
            Instruction::Return,
        ],
        funcs: vec![internal(0, 0, 3, 0, 3)],
    };
    let mut store = store_with(1, 0);
    assert_eq!(invoke(&code, &mut store, 0, &[10, 1, 3]), Ok(vec![]));
    assert_eq!(store.memory[9..14], [0, 2, 3, 4, 0]);
    assert_eq!(store.data[0], Vec::<u8>::new());
    assert_eq!(store.globals[0], (-2i64) as u64);
    // the dropped segment is empty: only a zero-length init succeeds
    assert_eq!(invoke(&code, &mut store, 0, &[10, 0, 0]), Ok(vec![]));
    assert_eq!(invoke(&code, &mut store, 0, &[10, 0, 1]), Err(Error::Trap(TrapCode::MemoryAccessOutOfBounds)));
    let missing = CodeMap {
        consts: Vec::new(), instrs: vec![Instruction::DataDrop { segment: 3 }], funcs: vec![internal(0, 0, 0, 0, 0)] };
    assert_eq!(invoke(&missing, &mut store, 0, &[]), Err(Error::Fatal(FatalError::UnknownSegment)));
}

#[test]
fn zero_length_copy_always_succeeds() {
    let code = CodeMap {
        consts: Vec::new(),
        instrs: vec![
            Instruction::MemoryCopy { dst: Reg(0), src: Reg(1), len: Reg(2) },
            Instruction::Return,
        ],
        funcs: vec![internal(0, 0, 3, 0, 3)],
    };
    let mut store = store_with(1, 0);
    assert_eq!(invoke(&code, &mut store, 0, &[70000, 90000, 0]), Ok(vec![]));
    assert_eq!(invoke(&code, &mut store, 0, &[70000, 0, 1]), Err(Error::Trap(TrapCode::MemoryAccessOutOfBounds)));
}

#[test]
fn copy_then_copy_back_changes_nothing() {
    let code = CodeMap {
        consts: Vec::new(),
        instrs: vec![
            Instruction::CopySpan { results: Reg(2), values: Reg(0), len: 2 },
            Instruction::CopySpan { results: Reg(0), values: Reg(2), len: 2 },
            Instruction::ReturnSpan { values: Reg(0), len: 4 },
        ],
        funcs: vec![internal(0, 0, 2, 4, 4)],
    };
    let mut store = store_with(0, 0);
    assert_eq!(invoke(&code, &mut store, 0, &[7, 8]), Ok(vec![7, 8, 7, 8]));
}

#[test]
fn steps_advance_by_width_and_keep_the_window() {
    let code = CodeMap {
        consts: Vec::new(),
        instrs: vec![
            Instruction::Load { kind: LoadKind::I64, result: Reg(1), ptr: Reg(0) },
            Instruction::Const32 { value: 0 },
            Instruction::Call { func: 1, results: Reg(1), params: Reg(1), len_params: 1 },
            Instruction::ReturnReg { value: Reg(1) },
            Instruction::ReturnReg { value: Reg(0) },
        ],
        funcs: vec![internal(0, 0, 1, 1, 2), internal(0, 4, 1, 1, 1)],
    };
    let stack = Stack::new_call(&code, 0, &vec![0], 4, 16).unwrap();
    let mut executor = wasmi::executor::Executor::new(stack, store_with(1, 0));
    assert_eq!(executor.step(&code), Ok(wasmi::machine::Step::Continue));
    assert_eq!(executor.ip, 2);
    assert_eq!(executor.step(&code), Ok(wasmi::machine::Step::Continue));
    assert_eq!(executor.ip, 4);
    assert_eq!(executor.stack.frames.len(), 2);
    assert_eq!(executor.sp, executor.stack.frames[1].base);
    assert_eq!(executor.step(&code), Ok(wasmi::machine::Step::Continue));
    assert_eq!(executor.ip, 3);
    assert_eq!(executor.sp, executor.stack.frames[0].base);
}

#[test]
fn function_constants_sit_below_the_window() {
    // The translator hands out constant registers; the executor finds the
    // constants there in every frame, also after calls and tail calls.
    let mut pool = ValueStack::new();
    let big = pool.alloc_const(1_000_000).unwrap();
    let bigger = pool.alloc_const(5_000_000_000).unwrap();
    assert_eq!((big, bigger), (Reg(-1), Reg(-2)));
    let callee = FuncEntity { kind: FuncKind::Internal, func_type: 0, entry: 3, num_params: 1, num_results: 1, num_registers: 2, consts: 0, num_consts: 2 };
    let code = CodeMap {
        consts: pool.consts.clone(),
        instrs: vec![
            Instruction::Call { func: 1, results: Reg(1), params: Reg(0), len_params: 1 },
            Instruction::Binary { op: BinaryOp::I64Add, result: Reg(1), lhs: Reg(1), rhs: Reg(-1) },
            Instruction::ReturnReg { value: Reg(1) },
            // callee: x + 5_000_000_000
            Instruction::Binary { op: BinaryOp::I64Add, result: Reg(1), lhs: Reg(0), rhs: Reg(-2) },
            Instruction::ReturnReg { value: Reg(1) },
        ],
        funcs: vec![FuncEntity { num_consts: 1, ..callee }, callee],
    };
    let code = CodeMap { funcs: vec![FuncEntity { entry: 0, num_registers: 2, ..code.funcs[0] }, code.funcs[1]], ..code };
    let mut store = store_with(0, 0);
    assert_eq!(invoke(&code, &mut store, 0, &[7]), Ok(vec![5_001_000_007]));
    let mut stack = Stack::new_call(&code, 1, &vec![1], 4, 64).unwrap();
    assert_eq!(stack.values, vec![0, 5_000_000_000, 1_000_000, 1, 0]);
    assert_eq!(execute_instrs(&mut store, &mut stack, &code, 100), Ok(Outcome::Returned { results: 0, len: 1 }));
    assert_eq!(stack.values, vec![5_000_000_001]);
    let broken = CodeMap { consts: Vec::new(), ..code };
    assert_eq!(Stack::new_call(&broken, 1, &vec![1], 4, 64).err(), Some(Error::Fatal(FatalError::RegisterOutOfBounds)));
}

#[test]
fn every_trap_code_passes_through_trap() {
    let mut store = store_with(0, 0);
    let code = CodeMap {
        consts: Vec::new(),
        instrs: vec![Instruction::Trap { trap_code: TrapCode::GrowthOperationLimited }],
        funcs: vec![internal(0, 0, 0, 0, 0)],
    };
    assert_eq!(invoke(&code, &mut store, 0, &[]), Err(Error::Trap(TrapCode::GrowthOperationLimited)));
}

#[test]
fn returning_without_a_frame_is_fatal() {
    let code = CodeMap { consts: Vec::new(), instrs: vec![Instruction::Return], funcs: vec![internal(0, 0, 0, 0, 0)] };
    let mut executor = wasmi::executor::Executor { sp: 0, ip: 0, stack: Stack::empty(), store: store_with(0, 0) };
    assert_eq!(executor.step(&code), Err(Error::Fatal(FatalError::NoCallFrame)));
}

#[test]
fn memory_never_grows_past_four_gibibytes() {
    let code = CodeMap {
        consts: Vec::new(),
        instrs: vec![
            Instruction::MemoryGrow { result: Reg(1), delta: Reg(0) },
            Instruction::ReturnReg { value: Reg(1) },
        ],
        funcs: vec![internal(0, 0, 1, 1, 2)],
    };
    let mut store = store_with(0, 0);
    store.max_pages = u32::MAX;
    assert_eq!(invoke(&code, &mut store, 0, &[65537]), Ok(vec![0xffff_ffff]));
    assert_eq!(store.memory.len(), 0);
}

#[test]
fn table_grow_fill_copy_init_and_drop() {
    let code = CodeMap {
        consts: Vec::new(),
        instrs: vec![
            // grow(delta, init) -> old size
            Instruction::TableGrow { result: Reg(2), delta: Reg(0), init: Reg(1) },
            Instruction::ReturnReg { value: Reg(2) },
            // fill(dst, value, len)
            Instruction::TableFill { dst: Reg(0), value: Reg(1), len: Reg(2) },
            Instruction::Return,
            // copy(dst, src, len)
            Instruction::TableCopy { dst: Reg(0), src: Reg(1), len: Reg(2) },
            Instruction::Return,
            // init(dst, src, len) from segment 0, then drop it
            Instruction::TableInit { segment: 0, dst: Reg(0), src: Reg(1), len: Reg(2) },
            Instruction::ElemDrop { segment: 0 },
            Instruction::Return,
        ],
        funcs: vec![internal(0, 0, 2, 1, 3), internal(0, 2, 3, 0, 3), internal(0, 4, 3, 0, 3), internal(0, 6, 3, 0, 3)],
    };
    let mut store = store_with(0, 0);
    assert_eq!(invoke(&code, &mut store, 0, &[3, 5]), Ok(vec![0]));
    assert_eq!(store.table, vec![Some(4); 3]);
    assert_eq!(invoke(&code, &mut store, 0, &[6, 0]), Ok(vec![0xffff_ffff]));
    assert_eq!(store.table.len(), 3);
    assert_eq!(invoke(&code, &mut store, 0, &[2, 0]), Ok(vec![3]));
    assert_eq!(invoke(&code, &mut store, 1, &[1, 0, 2]), Ok(vec![]));
    assert_eq!(store.table, vec![Some(4), None, None, None, None]);
    assert_eq!(invoke(&code, &mut store, 1, &[4, 0, 2]), Err(Error::Trap(TrapCode::TableAccessOutOfBounds)));
    assert_eq!(invoke(&code, &mut store, 3, &[1, 0, 3]), Ok(vec![]));
    assert_eq!(store.table, vec![Some(4), Some(7), None, Some(9), None]);
    assert!(store.elems[0].is_empty());
    assert_eq!(invoke(&code, &mut store, 3, &[1, 0, 1]), Err(Error::Trap(TrapCode::TableAccessOutOfBounds)));
    assert_eq!(invoke(&code, &mut store, 3, &[9, 9, 0]), Ok(vec![]));
    assert_eq!(invoke(&code, &mut store, 2, &[0, 1, 4]), Ok(vec![]));
    assert_eq!(store.table, vec![Some(7), None, Some(9), None, None]);
    assert_eq!(invoke(&code, &mut store, 2, &[9, 9, 0]), Ok(vec![]));
    assert_eq!(invoke(&code, &mut store, 2, &[3, 0, 3]), Err(Error::Trap(TrapCode::TableAccessOutOfBounds)));
}

#[test]
fn branch_with_copy_copies_only_when_taken() {
    // if c != 0 { r2 = r1; goto 3 } ; return -7 as i64 ; return r2
    let code = CodeMap {
        consts: Vec::new(),
        instrs: vec![
            Instruction::BranchNezCopy { condition: Reg(0), result: Reg(2), value: Reg(1), offset: 3 },
            Instruction::BranchNezCopyImm32 { condition: Reg(1), result: Reg(2), value: 99, offset: 2 },
            Instruction::ReturnI64Imm32 { value: -7 },
            Instruction::ReturnReg { value: Reg(2) },
        ],
        funcs: vec![internal(0, 0, 2, 1, 3)],
    };
    let mut store = store_with(0, 0);
    assert_eq!(invoke(&code, &mut store, 0, &[1, 5]), Ok(vec![5]));
    assert_eq!(invoke(&code, &mut store, 0, &[0, 5]), Ok(vec![99]));
    assert_eq!(invoke(&code, &mut store, 0, &[0, 0]), Ok(vec![(-7i64) as u64]));
}

#[test]
fn growth_within_limits_is_the_limiters_call() {
    let code = CodeMap {
        consts: Vec::new(),
        instrs: vec![
            Instruction::MemoryGrow { result: Reg(1), delta: Reg(0) },
            Instruction::ReturnReg { value: Reg(1) },
        ],
        funcs: vec![internal(0, 0, 1, 1, 2)],
    };
    let mut store = store_with(1, 0);
    let mut stack = Stack::new_call(&code, 0, &vec![2], 4, 16).unwrap();
    let outcome = execute_instrs(&mut store, &mut stack, &code, 10).unwrap();
    assert_eq!(outcome, Outcome::Grow { request: GrowRequest::Memory { delta: 2 }, result: 2 });
    // the limiter denies: the guest sees u32::MAX and memory stays
    assert!(stack.write_value(2, 0xffff_ffff));
    assert_eq!(execute_instrs(&mut store, &mut stack, &code, 10), Ok(Outcome::Returned { results: 0, len: 1 }));
    assert_eq!(stack.read_values(0, 1).unwrap(), vec![0xffff_ffff]);
    assert_eq!(store.memory.len(), 65536);
    // growing directly follows the same limits
    assert_eq!(store.grow_memory(4), 0xffff_ffff);
    assert_eq!(store.grow_memory(1), 1);
    assert_eq!(store.memory.len(), 2 * 65536);
    assert_eq!(store.grow_table(9, None), 0xffff_ffff);
    assert_eq!(store.grow_table(2, Some(3)), 0);
    assert_eq!(store.table, vec![Some(3), Some(3)]);
}
