//! End-to-end tests of the interpreter core: scenarios, round trips and
//! trap behaviour, each driving `execute_instrs` on a hand-built program.

use regwasm::bytecode::Instruction;
use regwasm::code::{Body, CodeMap, FuncEntity, FuncKind, FuncType};
use regwasm::executor::{execute_instrs, write_host_results, Signal};
use regwasm::stack::{CallFrame, Stack};
use regwasm::store::{Instance, MemInst, Store, TableInst};
use regwasm::trap::TrapCode;
use regwasm::value::{apply_binop, apply_cmp, apply_divop, apply_unop, BinOp, Comparator, DivOp, UnOp};

/// One instance whose local index spaces map identity-wise onto the store.
fn identity_instance(store: &Store, code: &CodeMap) -> Instance {
    Instance {
        memories: (0..store.memories.len() as u32).collect(),
        tables: (0..store.tables.len() as u32).collect(),
        globals: (0..store.globals.len() as u32).collect(),
        funcs: (0..code.funcs.len() as u32).collect(),
        types: (0..code.types.len() as u32).collect(),
        datas: (0..store.datas.len() as u32).collect(),
        elems: (0..store.elem_segs.len() as u32).collect(),
    }
}

fn empty_store() -> Store {
    Store {
        memories: Vec::new(),
        tables: Vec::new(),
        globals: Vec::new(),
        datas: Vec::new(),
        elem_segs: Vec::new(),
        instances: Vec::new(),
        fuel: 0,
    }
}

/// Seeds the value and call stacks with a root frame for `func`, its
/// arguments in registers 0.., and `n_results` absolute result slots.
fn seed(stack: &mut Stack, code: &CodeMap, func: u32, args: &[u64], n_results: usize) {
    stack.values = vec![0u64; n_results];
    let body = match code.funcs[func as usize].kind {
        FuncKind::Internal { body } => body,
        FuncKind::Host { .. } => panic!("root must be a compiled function"),
    };
    let lr = code.bodies[body as usize].len_registers as usize;
    let base = stack.values.len();
    for _ in 0..lr {
        stack.values.push(0);
    }
    for (i, a) in args.iter().enumerate() {
        stack.values[base + i] = *a;
    }
    stack.frames = vec![CallFrame {
        instr_ptr: 0,
        func,
        base,
        results: 0,
        instance: code.funcs[func as usize].instance,
    }];
}

/// A store and code map for a single function with one instance.
fn single_func(instrs: Vec<Instruction>, len_registers: u16, mut store: Store) -> (Store, CodeMap) {
    let code = CodeMap {
        types: vec![FuncType { params: 1, results: 1 }],
        bodies: vec![Body { instrs, len_registers }],
        funcs: vec![FuncEntity { ty: 0, instance: 0, kind: FuncKind::Internal { body: 0 } }],
    };
    let inst = identity_instance(&store, &code);
    store.instances.push(inst);
    (store, code)
}

fn run_root(
    instrs: Vec<Instruction>,
    len_registers: u16,
    store: Store,
    args: &[u64],
    n_results: usize,
) -> (Result<Signal, TrapCode>, Store, Stack) {
    let (mut store, code) = single_func(instrs, len_registers, store);
    let mut stack = Stack {
        values: Vec::new(),
        frames: Vec::new(),
        limit_values: 1 << 16,
        limit_frames: 128,
    };
    seed(&mut stack, &code, 0, args, n_results);
    let r = execute_instrs(&mut store, &mut stack, &code, 100_000_000);
    (r, store, stack)
}

#[test]
fn fibonacci_of_ten_is_55() {
    // Recursive fib: two `CallInternal`s and an add.
    let instrs = vec![
        Instruction::BranchI32GeSImm { lhs: 0, rhs: 2, offset: 1 },
        Instruction::ReturnReg { value: 0 },
        Instruction::I32AddImm16 { result: 1, lhs: 0, rhs: -1 },
        Instruction::CallInternal { results: 2, func: 0 },
        Instruction::Register { reg: 1 },
        Instruction::I32AddImm16 { result: 1, lhs: 0, rhs: -2 },
        Instruction::CallInternal { results: 3, func: 0 },
        Instruction::Register { reg: 1 },
        Instruction::I32Add { result: 0, lhs: 2, rhs: 3 },
        Instruction::ReturnReg { value: 0 },
    ];
    let (r, _store, stack) = run_root(instrs, 4, empty_store(), &[10], 1);
    assert!(matches!(r, Ok(Signal::Returned)));
    assert_eq!(stack.values[0], 55);
}

#[test]
fn tail_call_counter_keeps_depth_constant() {
    // Counts a million down to zero through `ReturnCallInternal`; a frame
    // limit of 2 would catch any depth growth.
    let instrs = vec![
        Instruction::BranchI32NeImm { lhs: 0, rhs: 0, offset: 1 },
        Instruction::ReturnImm32 { value: 0 },
        Instruction::I32AddImm16 { result: 1, lhs: 0, rhs: -1 },
        Instruction::ReturnCallInternal { func: 0 },
        Instruction::Register { reg: 1 },
    ];
    let (mut store, code) = single_func(instrs, 2, empty_store());
    let mut stack = Stack {
        values: Vec::new(),
        frames: Vec::new(),
        limit_values: 64,
        limit_frames: 2,
    };
    seed(&mut stack, &code, 0, &[1_000_000], 1);
    let r = execute_instrs(&mut store, &mut stack, &code, 100_000_000);
    assert!(matches!(r, Ok(Signal::Returned)));
    assert_eq!(stack.values[0], 0);
}

#[test]
fn out_of_bounds_load_traps_without_state_change() {
    let mut store = empty_store();
    store.memories.push(MemInst { bytes: vec![0u8; 65536], max_pages: 1 });
    let instrs = vec![
        Instruction::I32LoadAt { result: 0, address: 65535 },
        Instruction::Return,
    ];
    let (r, store, stack) = run_root(instrs, 1, store, &[0], 0);
    assert!(matches!(r, Err(TrapCode::MemoryOutOfBounds)));
    assert!(store.memories[0].bytes.iter().all(|b| *b == 0));
    // The trap left the machine inspectable and untouched: the root frame
    // still stands, its pointer on the faulting load, registers unchanged.
    assert_eq!(stack.frames.len(), 1);
    assert_eq!(stack.frames[0].instr_ptr, 0);
    assert_eq!(stack.values, vec![0]);
}

#[test]
fn memory_copy_with_overlap_reads_a_snapshot() {
    let mut store = empty_store();
    let mut bytes = vec![0u8; 65536];
    for i in 0..16 {
        bytes[i] = i as u8;
    }
    store.memories.push(MemInst { bytes, max_pages: 1 });
    let instrs = vec![
        Instruction::CopyImm32 { result: 0, value: 4 },
        Instruction::CopyImm32 { result: 1, value: 0 },
        Instruction::CopyImm32 { result: 2, value: 12 },
        Instruction::MemoryCopy { dst: 0, src: 1, len: 2 },
        Instruction::Return,
    ];
    let (r, store, _stack) = run_root(instrs, 3, store, &[], 0);
    assert!(matches!(r, Ok(Signal::Returned)));
    let expect: [u8; 16] = [0, 1, 2, 3, 0, 1, 2, 3, 4, 5, 6, 7, 8, 9, 10, 11];
    assert_eq!(&store.memories[0].bytes[0..16], &expect);
}

#[test]
fn fuel_exhaustion_after_two_iterations() {
    let mut store = empty_store();
    store.fuel = 100;
    let instrs = vec![
        Instruction::ConsumeFuel { block_fuel: 50 },
        Instruction::Branch { offset: -2 },
    ];
    let (r, store, stack) = run_root(instrs, 1, store, &[], 0);
    assert!(matches!(r, Err(TrapCode::OutOfFuel)));
    assert_eq!(store.fuel, 0);
    // The abandoned frame points at the third, faulting `ConsumeFuel`.
    assert_eq!(stack.frames.len(), 1);
    assert_eq!(stack.frames[0].instr_ptr, 0);
}

#[test]
fn indirect_call_signature_mismatch_traps() {
    // Table slot 0 holds function 0 of signature 0; the call expects the
    // instance-local signature 1.
    let mut store = empty_store();
    store.tables.push(TableInst { elems: vec![1], max_elems: 4 });
    let instrs = vec![
        Instruction::CallIndirect0 { results: 0, func_type: 1 },
        Instruction::CallIndirectParams { index: 0, table: 0 },
        Instruction::Return,
    ];
    let (mut store, mut code) = single_func(instrs, 1, store);
    code.types.push(FuncType { params: 0, results: 2 });
    store.instances[0].types = vec![0, 1];
    let mut stack = Stack {
        values: Vec::new(),
        frames: Vec::new(),
        limit_values: 64,
        limit_frames: 8,
    };
    seed(&mut stack, &code, 0, &[0], 0);
    let r = execute_instrs(&mut store, &mut stack, &code, 1000);
    assert!(matches!(r, Err(TrapCode::BadSignature)));
    // No callee frame was entered: the caller's frame alone stands, its
    // pointer on the faulting call.
    assert_eq!(stack.frames.len(), 1);
    assert_eq!(stack.frames[0].instr_ptr, 0);
}

#[test]
fn indirect_call_to_null_element_traps() {
    let mut store = empty_store();
    store.tables.push(TableInst { elems: vec![0], max_elems: 4 });
    let instrs = vec![
        Instruction::CallIndirect0 { results: 0, func_type: 0 },
        Instruction::CallIndirectParams { index: 0, table: 0 },
        Instruction::Return,
    ];
    let (r, _store, _stack) = run_root(instrs, 1, store, &[0], 0);
    assert!(matches!(r, Err(TrapCode::IndirectCallToNull)));
}

#[test]
fn copy_twice_leaves_source_untouched() {
    let instrs = vec![
        Instruction::Copy { result: 1, value: 0 },
        Instruction::Copy { result: 1, value: 0 },
        Instruction::ReturnReg { value: 0 },
    ];
    let (r, _store, stack) = run_root(instrs, 2, empty_store(), &[7], 1);
    assert!(matches!(r, Ok(Signal::Returned)));
    assert_eq!(stack.values[0], 7);
}

#[test]
fn global_set_then_get_yields_the_value() {
    let mut store = empty_store();
    store.globals.push(0);
    let instrs = vec![
        Instruction::GlobalSet { global: 0, input: 0 },
        Instruction::GlobalGet { result: 1, global: 0 },
        Instruction::ReturnReg { value: 1 },
    ];
    let (r, store, stack) = run_root(instrs, 2, store, &[1234], 1);
    assert!(matches!(r, Ok(Signal::Returned)));
    assert_eq!(stack.values[0], 1234);
    assert_eq!(store.globals[0], 1234);
}

#[test]
fn store_then_load_roundtrip() {
    let mut store = empty_store();
    store.memories.push(MemInst { bytes: vec![0u8; 65536], max_pages: 1 });
    let instrs = vec![
        Instruction::CopyImm32 { result: 0, value: 0xDEAD_BEEF },
        Instruction::I32StoreAt { address: 16, value: 0 },
        Instruction::I32LoadAt { result: 1, address: 16 },
        Instruction::ReturnReg { value: 1 },
    ];
    let (r, _store, stack) = run_root(instrs, 2, store, &[], 1);
    assert!(matches!(r, Ok(Signal::Returned)));
    assert_eq!(stack.values[0], 0xDEAD_BEEF);
}

#[test]
fn narrow_store_and_signed_load() {
    let mut store = empty_store();
    store.memories.push(MemInst { bytes: vec![0u8; 65536], max_pages: 1 });
    let instrs = vec![
        Instruction::CopyImm32 { result: 0, value: 0x1FF },
        Instruction::I32Store8At { address: 3, value: 0 },
        Instruction::I32Load8sAt { result: 1, address: 3 },
        Instruction::ReturnReg { value: 1 },
    ];
    let (r, _store, stack) = run_root(instrs, 2, store, &[], 1);
    assert!(matches!(r, Ok(Signal::Returned)));
    // 0xFF read back signed is -1 as an i32 cell.
    assert_eq!(stack.values[0], 0xFFFF_FFFF);
}

#[test]
fn division_by_zero_and_overflow_trap() {
    assert_eq!(
        apply_divop(DivOp::I32DivS, 0x8000_0000, 0xFFFF_FFFF),
        Err(TrapCode::IntegerOverflow)
    );
    assert_eq!(
        apply_divop(DivOp::I64DivS, 0x8000_0000_0000_0000, u64::MAX),
        Err(TrapCode::IntegerOverflow)
    );
    for op in [DivOp::I32DivS, DivOp::I32DivU, DivOp::I32RemS, DivOp::I32RemU] {
        assert_eq!(apply_divop(op, 5, 0), Err(TrapCode::IntegerDivisionByZero));
    }
    for op in [DivOp::I64DivS, DivOp::I64DivU, DivOp::I64RemS, DivOp::I64RemU] {
        assert_eq!(apply_divop(op, 5, 0), Err(TrapCode::IntegerDivisionByZero));
    }
    assert_eq!(apply_divop(DivOp::I32DivS, 7, 0xFFFF_FFFE), Ok(0xFFFF_FFFD));
    assert_eq!(apply_divop(DivOp::I32RemS, 0xFFFF_FFF9, 2), Ok(0xFFFF_FFFF));
    assert_eq!(apply_divop(DivOp::I64DivU, 100, 3), Ok(33));
}

#[test]
fn division_traps_propagate_out_of_execution() {
    let instrs = vec![
        Instruction::I32DivS { result: 0, lhs: 0, rhs: 1 },
        Instruction::ReturnReg { value: 0 },
    ];
    let (r, _store, stack) = run_root(instrs, 2, empty_store(), &[9, 0], 1);
    assert!(matches!(r, Err(TrapCode::IntegerDivisionByZero)));
    // Registers and the instruction pointer are untouched by the trap.
    assert_eq!(stack.values, vec![0, 9, 0]);
    assert_eq!(stack.frames.len(), 1);
    assert_eq!(stack.frames[0].instr_ptr, 0);
}

#[test]
fn wrapping_arithmetic_exact_values() {
    assert_eq!(apply_binop(BinOp::I32Add, 0xFFFF_FFFF, 1), 0);
    assert_eq!(apply_binop(BinOp::I32Sub, 0, 1), 0xFFFF_FFFF);
    assert_eq!(apply_binop(BinOp::I32Mul, 0x1_0001, 0x1_0001), 0x0002_0001);
    assert_eq!(apply_binop(BinOp::I64Add, u64::MAX, 1), 0);
    assert_eq!(apply_binop(BinOp::I64Mul, 1 << 33, 1 << 33), 0);
    assert_eq!(apply_binop(BinOp::I32Shl, 1, 33), 2);
    assert_eq!(apply_binop(BinOp::I32ShrS, 0x8000_0000, 31), 0xFFFF_FFFF);
    assert_eq!(apply_binop(BinOp::I32ShrU, 0x8000_0000, 31), 1);
    assert_eq!(apply_binop(BinOp::I32Rotl, 0x8000_0001, 1), 3);
    assert_eq!(apply_binop(BinOp::I64Rotr, 1, 1), 0x8000_0000_0000_0000);
    assert_eq!(apply_binop(BinOp::I32AndEqz, 0b1100, 0b0011), 1);
    assert_eq!(apply_binop(BinOp::I32XorEqz, 5, 5), 1);
}

#[test]
fn bit_counting_and_extensions() {
    assert_eq!(apply_unop(UnOp::I32Clz, 1), 31);
    assert_eq!(apply_unop(UnOp::I32Ctz, 0x8000_0000), 31);
    assert_eq!(apply_unop(UnOp::I32Popcnt, 0xFFFF_FFFF), 32);
    assert_eq!(apply_unop(UnOp::I64Clz, 0), 64);
    assert_eq!(apply_unop(UnOp::I64Popcnt, u64::MAX), 64);
    assert_eq!(apply_unop(UnOp::I32WrapI64, 0x1_2345_6789), 0x2345_6789);
    assert_eq!(apply_unop(UnOp::I32Extend8S, 0x80), 0xFFFF_FF80);
    assert_eq!(apply_unop(UnOp::I64Extend32S, 0x8000_0000), 0xFFFF_FFFF_8000_0000);
}

#[test]
fn signed_and_unsigned_comparisons() {
    // -1 compared with 1, signed and unsigned.
    assert!(apply_cmp(Comparator::I32LtS, 0xFFFF_FFFF, 1));
    assert!(!apply_cmp(Comparator::I32LtU, 0xFFFF_FFFF, 1));
    assert!(apply_cmp(Comparator::I64GtU, u64::MAX, 1));
    assert!(apply_cmp(Comparator::I64LtS, u64::MAX, 1));
    assert!(apply_cmp(Comparator::I32GeS, 3, 3));
    assert!(apply_cmp(Comparator::I32AndEqz, 0b1100, 0b0011));
}

#[test]
fn select_picks_left_on_nonzero_condition() {
    let instrs = vec![
        Instruction::CopyImm32 { result: 0, value: 11 },
        Instruction::CopyImm32 { result: 1, value: 22 },
        Instruction::CopyImm32 { result: 2, value: 1 },
        Instruction::Select { result: 3, lhs: 0 },
        Instruction::Register2 { reg0: 2, reg1: 1 },
        Instruction::ReturnReg { value: 3 },
    ];
    let (r, _store, stack) = run_root(instrs, 4, empty_store(), &[], 1);
    assert!(matches!(r, Ok(Signal::Returned)));
    assert_eq!(stack.values[0], 11);
}

#[test]
fn select_picks_right_on_zero_condition() {
    let instrs = vec![
        Instruction::CopyImm32 { result: 0, value: 11 },
        Instruction::CopyImm32 { result: 1, value: 22 },
        Instruction::CopyImm32 { result: 2, value: 0 },
        Instruction::Select { result: 3, lhs: 0 },
        Instruction::Register2 { reg0: 2, reg1: 1 },
        Instruction::ReturnReg { value: 3 },
    ];
    let (r, _store, stack) = run_root(instrs, 4, empty_store(), &[], 1);
    assert!(matches!(r, Ok(Signal::Returned)));
    assert_eq!(stack.values[0], 22);
}

#[test]
fn host_call_pauses_and_resumes() {
    let instrs = vec![
        Instruction::CallImported0 { results: 1, func: 1 },
        Instruction::ReturnReg { value: 1 },
    ];
    let (mut store, mut code) = single_func(instrs, 2, empty_store());
    code.funcs.push(FuncEntity { ty: 0, instance: 0, kind: FuncKind::Host { host: 7 } });
    store.instances[0].funcs = vec![0, 1];
    let mut stack = Stack {
        values: Vec::new(),
        frames: Vec::new(),
        limit_values: 64,
        limit_frames: 8,
    };
    seed(&mut stack, &code, 0, &[0], 1);
    let r = execute_instrs(&mut store, &mut stack, &code, 1000);
    let desc = match r {
        Ok(Signal::Host(d)) => d,
        other => panic!("expected a host pause, got {:?}", other.is_ok()),
    };
    assert_eq!(desc.func, 1);
    assert_eq!(desc.results, 1);
    assert!(desc.args.is_empty());
    write_host_results(&mut stack, &desc, &vec![42]).unwrap();
    let r2 = execute_instrs(&mut store, &mut stack, &code, 1000);
    assert!(matches!(r2, Ok(Signal::Returned)));
    assert_eq!(stack.values[0], 42);
}

#[test]
fn step_budget_exhaustion_is_resumable() {
    let instrs = vec![Instruction::Branch { offset: -1 }];
    let (mut store, code) = single_func(instrs, 1, empty_store());
    let mut stack = Stack {
        values: Vec::new(),
        frames: Vec::new(),
        limit_values: 64,
        limit_frames: 8,
    };
    seed(&mut stack, &code, 0, &[], 0);
    let r = execute_instrs(&mut store, &mut stack, &code, 10);
    assert!(matches!(r, Ok(Signal::Pending)));
    let r2 = execute_instrs(&mut store, &mut stack, &code, 7);
    assert!(matches!(r2, Ok(Signal::Pending)));
}

#[test]
fn parameter_word_in_dispatch_position_traps() {
    let instrs = vec![Instruction::Register { reg: 0 }];
    let (r, _store, _stack) = run_root(instrs, 1, empty_store(), &[], 0);
    assert!(matches!(r, Err(TrapCode::UnreachableCodeReached)));
}

#[test]
fn runaway_recursion_overflows_the_call_stack() {
    let instrs = vec![Instruction::CallInternal0 { results: 0, func: 0 }, Instruction::Return];
    let (mut store, code) = single_func(instrs, 1, empty_store());
    let mut stack = Stack {
        values: Vec::new(),
        frames: Vec::new(),
        limit_values: 1 << 16,
        limit_frames: 10,
    };
    seed(&mut stack, &code, 0, &[], 0);
    let r = execute_instrs(&mut store, &mut stack, &code, 1000);
    assert!(matches!(r, Err(TrapCode::StackOverflow)));
}

#[test]
fn table_accesses_and_bounds() {
    let mut store = empty_store();
    store.tables.push(TableInst { elems: vec![5, 6], max_elems: 8 });
    let instrs = vec![
        Instruction::TableGetImm { result: 0, index: 1, table: 0 },
        Instruction::ReturnReg { value: 0 },
    ];
    let (r, _store, stack) = run_root(instrs, 1, store, &[], 1);
    assert!(matches!(r, Ok(Signal::Returned)));
    assert_eq!(stack.values[0], 6);

    let mut store = empty_store();
    store.tables.push(TableInst { elems: vec![5, 6], max_elems: 8 });
    let instrs = vec![
        Instruction::TableGetImm { result: 0, index: 99, table: 0 },
        Instruction::Return,
    ];
    let (r, _store, _stack) = run_root(instrs, 1, store, &[], 0);
    assert!(matches!(r, Err(TrapCode::TableOutOfBounds)));
}

#[test]
fn memory_grow_reports_previous_size_and_minus_one() {
    let mut store = empty_store();
    store.memories.push(MemInst { bytes: vec![0u8; 65536], max_pages: 2 });
    let instrs = vec![
        Instruction::MemoryGrowBy { result: 0, delta: 1 },
        Instruction::MemoryGrowBy { result: 1, delta: 5 },
        Instruction::Copy2 { results: 2, value0: 0, value1: 1 },
        Instruction::ReturnSpan { values: 2, len: 2 },
    ];
    let (r, store, stack) = run_root(instrs, 4, store, &[], 2);
    assert!(matches!(r, Ok(Signal::Returned)));
    assert_eq!(stack.values[0], 1);
    assert_eq!(stack.values[1], 0xFFFF_FFFF);
    assert_eq!(store.memories[0].bytes.len(), 2 * 65536);
}

#[test]
fn data_segment_init_and_drop() {
    let mut store = empty_store();
    store.memories.push(MemInst { bytes: vec![0u8; 65536], max_pages: 1 });
    store.datas.push(vec![9, 8, 7, 6]);
    let instrs = vec![
        Instruction::MemoryInitFromToExact { dst: 10, src: 0, len: 4, segment: 0 },
        Instruction::DataDrop { segment: 0 },
        Instruction::MemoryInitFromToExact { dst: 20, src: 0, len: 1, segment: 0 },
        Instruction::Return,
    ];
    let (r, store, _stack) = run_root(instrs, 1, store, &[], 0);
    // The second init reads a dropped (empty) segment with non-zero length.
    assert!(matches!(r, Err(TrapCode::MemoryOutOfBounds)));
    assert_eq!(&store.memories[0].bytes[10..14], &[9, 8, 7, 6]);
    assert!(store.datas[0].is_empty());
}

#[test]
fn fused_branch_loop_sums_downwards() {
    // Sums n + (n-1) + ... + 1 with a fused compare-branch loop.
    let instrs = vec![
        Instruction::BranchI32EqImm { lhs: 0, rhs: 0, offset: 3 },
        Instruction::I32Add { result: 1, lhs: 1, rhs: 0 },
        Instruction::I32AddImm16 { result: 0, lhs: 0, rhs: -1 },
        Instruction::Branch { offset: -4 },
        Instruction::ReturnReg { value: 1 },
    ];
    let (r, _store, stack) = run_root(instrs, 2, empty_store(), &[100], 1);
    assert!(matches!(r, Ok(Signal::Returned)));
    assert_eq!(stack.values[0], 5050);
}

#[test]
fn branch_table_clamps_to_last_target() {
    let instrs = vec![
        Instruction::BranchTable0 { index: 0, len_targets: 2 },
        Instruction::BranchTableTarget { results: 0, offset: 1 },
        Instruction::BranchTableTarget { results: 0, offset: 1 },
        Instruction::ReturnImm32 { value: 10 },
        Instruction::ReturnImm32 { value: 20 },
    ];
    // Index 7 is out of range and clamps to the last target.
    let (r, _store, stack) = run_root(instrs.clone(), 1, empty_store(), &[7], 1);
    assert!(matches!(r, Ok(Signal::Returned)));
    assert_eq!(stack.values[0], 20);
    let (r, _store, stack) = run_root(instrs, 1, empty_store(), &[0], 1);
    assert!(matches!(r, Ok(Signal::Returned)));
    assert_eq!(stack.values[0], 10);
}
