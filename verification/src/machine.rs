//! The specification-level step machine.
//!
//! A machine state is the store, the value stack, the call stack and the
//! stack limits; the instruction pointer of the executing function is the
//! `instr_ptr` of its topmost frame. `step` maps a state to its successor:
//! still `Running`, `Returned` past the root frame, paused for a `Host`
//! call, or a `Trap`. `run` iterates `step` a bounded number of times; the
//! executor realises `run` exactly.

use vstd::prelude::*;
use crate::bytecode::{Instruction, Reg};
use crate::code::{BodyV, CodeV, FuncKind};
use crate::stack::{reg_idx, read_span_s, write_span_s, CallFrame};
use crate::store::{
    inst_at, spec_mem_copy, spec_mem_fill, spec_mem_grow, spec_mem_init, spec_mem_load,
    spec_mem_store, spec_table_grow, sv_with_data, sv_with_elem, sv_with_fuel, sv_with_global,
    sv_with_mem, sv_with_table, InstanceV, LoadKind, StoreV, PAGE_SIZE,
};
use crate::seqs::splice_seq;
use crate::trap::TrapCode;
use crate::value::{
    bool_cell, eval_binop, eval_cmp, eval_divop, eval_unop, lo32, sx16_32, sx16_64, sx32_64,
    BinOp, Comparator, DivOp, UnOp,
};

verus! {

/// A whole machine state.
pub struct Mach {
    /// The store.
    pub store: StoreV,
    /// The value stack.
    pub values: Seq<u64>,
    /// The call stack; the `instr_ptr` of the last frame is the current
    /// instruction pointer.
    pub frames: Seq<CallFrame>,
    /// Hard bound on the value stack.
    pub limit_values: int,
    /// Hard bound on the call stack.
    pub limit_frames: int,
}

/// A paused host-function invocation: which function, where its results go
/// (a span in the window of the now-topmost frame, or at absolute offset 0
/// when the root tail-called the host), and its arguments.
pub struct HostCallV {
    pub func: u32,
    pub results: Reg,
    pub args: Seq<u64>,
}

/// The result of one step.
pub enum Step {
    /// Execution continues in the given state.
    Running(Mach),
    /// The root frame returned; its results sit in its result span.
    Returned(Mach),
    /// A host call was reached; the embedder runs it and resumes.
    Host(Mach, HostCallV),
    /// A typed trap. The carried state is the machine exactly as it stood
    /// before the faulting instruction, its pointer still on that
    /// instruction: a trap takes effect before any observable change, and
    /// the call stack stays inspectable for a backtrace.
    Trap(Mach, TrapCode),
}

/// The trap every corrupt instruction stream ends in; the machine is
/// handed back untouched.
pub open spec fn u_trap(m: Mach) -> Step {
    Step::Trap(m, TrapCode::UnreachableCodeReached)
}

/// `n` zero cells.
pub open spec fn zero_seq(n: int) -> Seq<u64> {
    Seq::new(n as nat, |i: int| 0u64)
}

/// Instruction-pointer addition, clamped at the top of the address space;
/// a clamped pointer fails the next fetch.
pub open spec fn ip_add(ip: int, skip: int) -> int {
    if ip + skip <= usize::MAX {
        ip + skip
    } else {
        usize::MAX as int
    }
}

impl Mach {
    /// The executing frame.
    pub open spec fn top(self) -> CallFrame {
        self.frames.last()
    }

    /// The current instruction pointer.
    pub open spec fn ip(self) -> int {
        self.top().instr_ptr as int
    }

    /// The frame base of the executing frame.
    pub open spec fn base(self) -> int {
        self.top().base as int
    }

    /// The machine with the instruction pointer set to `ip`.
    pub open spec fn with_ip(self, ip: int) -> Mach {
        Mach {
            frames: self.frames.update(
                self.frames.len() - 1,
                CallFrame { instr_ptr: ip as usize, ..self.top() },
            ),
            ..self
        }
    }

    /// The machine advanced by `skip` instruction words.
    pub open spec fn next(self, skip: int) -> Mach {
        self.with_ip(ip_add(self.ip(), skip))
    }

    /// The machine with a new value stack.
    pub open spec fn with_values(self, values: Seq<u64>) -> Mach {
        Mach { values, ..self }
    }

    /// The machine with a new store.
    pub open spec fn with_store(self, store: StoreV) -> Mach {
        Mach { store, ..self }
    }

    /// Reads the register at signed offset `r` of the executing frame.
    pub open spec fn read_i(self, r: int) -> Option<u64> {
        match reg_idx(self.values.len() as int, self.base(), r) {
            Some(i) => Some(self.values[i]),
            None => None,
        }
    }

    /// Reads a register of the executing frame.
    pub open spec fn read(self, r: Reg) -> Option<u64> {
        self.read_i(r as int)
    }

    /// Writes the register at signed offset `r` of the executing frame.
    pub open spec fn write_i(self, r: int, v: u64) -> Option<Mach> {
        match reg_idx(self.values.len() as int, self.base(), r) {
            Some(i) => Some(self.with_values(self.values.update(i, v))),
            None => None,
        }
    }

    /// The instance the executing frame belongs to.
    pub open spec fn inst(self) -> InstanceV {
        inst_at(self.store, self.top().instance as int)
    }
}

/// Writes `v` to register `r`, then advances by `skip` words.
pub open spec fn write_next(m: Mach, r: int, v: u64, skip: int) -> Step {
    match m.write_i(r, v) {
        Some(m2) => Step::Running(m2.next(skip)),
        None => u_trap(m),
    }
}

/// Jumps to absolute position `t`. The trap on an unrepresentable
/// position hands back `m` itself, so it must be the pre-instruction state.
pub open spec fn branch_to(m: Mach, t: int) -> Step {
    if 0 <= t <= usize::MAX {
        Step::Running(m.with_ip(t))
    } else {
        u_trap(m)
    }
}

/// The body the executing frame runs, if its function handle is a compiled
/// function.
pub open spec fn body_of(code: CodeV, m: Mach) -> Option<BodyV> {
    if m.frames.len() == 0 {
        None
    } else {
        let f = m.top();
        if f.func < code.funcs.len() {
            match code.funcs[f.func as int].kind {
                FuncKind::Internal { body } => {
                    if body < code.bodies.len() {
                        Some(code.bodies[body as int])
                    } else {
                        None
                    }
                },
                FuncKind::Host { .. } => None,
            }
        } else {
            None
        }
    }
}

/// The instruction word at position `p` of the executing body.
pub open spec fn fetch_at(code: CodeV, m: Mach, p: int) -> Option<Instruction> {
    match body_of(code, m) {
        Some(b) => {
            if 0 <= p < b.instrs.len() {
                Some(b.instrs[p])
            } else {
                None
            }
        },
        None => None,
    }
}

/// Whether a comparator reads the whole cell rather than its low 32 bits;
/// it decides how a 16-bit immediate is extended.
pub open spec fn cmp_is_64(c: Comparator) -> bool {
    match c {
        Comparator::I64Eq => true,
        Comparator::I64Ne => true,
        Comparator::I64LtS => true,
        Comparator::I64LtU => true,
        Comparator::I64LeS => true,
        Comparator::I64LeU => true,
        Comparator::I64GtS => true,
        Comparator::I64GtU => true,
        Comparator::I64GeS => true,
        Comparator::I64GeU => true,
        _ => false,
    }
}

/// The cell a fused-branch immediate extends to.
pub open spec fn cmp_imm_cell(c: Comparator, x: i16) -> u64 {
    if cmp_is_64(c) {
        sx16_64(x)
    } else {
        sx16_32(x)
    }
}

// Transitions, one per instruction family. Each takes the machine before
// the instruction and yields the step result.

/// Infallible binary operation, register-register.
pub open spec fn tr_binop(m: Mach, op: BinOp, result: Reg, lhs: Reg, rhs: Reg) -> Step {
    match (m.read(lhs), m.read(rhs)) {
        (Some(a), Some(b)) => write_next(m, result as int, eval_binop(op, a, b), 1),
        _ => u_trap(m),
    }
}

/// Infallible binary operation with an immediate right operand.
pub open spec fn tr_binop_imm(m: Mach, op: BinOp, result: Reg, lhs: Reg, rhs_cell: u64) -> Step {
    match m.read(lhs) {
        Some(a) => write_next(m, result as int, eval_binop(op, a, rhs_cell), 1),
        None => u_trap(m),
    }
}

/// Infallible binary operation with an immediate left operand (the reversed
/// form of the non-commutative operations).
pub open spec fn tr_binop_imm_rev(m: Mach, op: BinOp, result: Reg, lhs_cell: u64, rhs: Reg) -> Step {
    match m.read(rhs) {
        Some(b) => write_next(m, result as int, eval_binop(op, lhs_cell, b), 1),
        None => u_trap(m),
    }
}

/// Division or remainder, register-register.
pub open spec fn tr_divop(m: Mach, op: DivOp, result: Reg, lhs: Reg, rhs: Reg) -> Step {
    match (m.read(lhs), m.read(rhs)) {
        (Some(a), Some(b)) => match eval_divop(op, a, b) {
            Ok(v) => write_next(m, result as int, v, 1),
            Err(c) => Step::Trap(m, c),
        },
        _ => u_trap(m),
    }
}

/// Division or remainder with an immediate divisor. The translator only
/// emits a non-zero divisor, so a zero immediate marks a corrupt stream.
pub open spec fn tr_divop_imm(m: Mach, op: DivOp, result: Reg, lhs: Reg, rhs_cell: u64) -> Step {
    match m.read(lhs) {
        Some(a) => match eval_divop(op, a, rhs_cell) {
            Ok(v) => write_next(m, result as int, v, 1),
            Err(c) => {
                if c == TrapCode::IntegerDivisionByZero {
                    u_trap(m)
                } else {
                    Step::Trap(m, c)
                }
            },
        },
        None => u_trap(m),
    }
}

/// Division or remainder with an immediate dividend.
pub open spec fn tr_divop_imm_rev(m: Mach, op: DivOp, result: Reg, lhs_cell: u64, rhs: Reg) -> Step {
    match m.read(rhs) {
        Some(b) => match eval_divop(op, lhs_cell, b) {
            Ok(v) => write_next(m, result as int, v, 1),
            Err(c) => Step::Trap(m, c),
        },
        None => u_trap(m),
    }
}

/// Unary operation.
pub open spec fn tr_unop(m: Mach, op: UnOp, result: Reg, input: Reg) -> Step {
    match m.read(input) {
        Some(a) => write_next(m, result as int, eval_unop(op, a), 1),
        None => u_trap(m),
    }
}

/// Comparison writing 0 or 1.
pub open spec fn tr_cmp(m: Mach, c: Comparator, result: Reg, lhs: Reg, rhs: Reg) -> Step {
    match (m.read(lhs), m.read(rhs)) {
        (Some(a), Some(b)) => write_next(m, result as int, bool_cell(eval_cmp(c, a, b)), 1),
        _ => u_trap(m),
    }
}

/// Comparison against an immediate.
pub open spec fn tr_cmp_imm(m: Mach, c: Comparator, result: Reg, lhs: Reg, rhs_cell: u64) -> Step {
    match m.read(lhs) {
        Some(a) => write_next(m, result as int, bool_cell(eval_cmp(c, a, rhs_cell)), 1),
        None => u_trap(m),
    }
}

/// Unconditional branch.
pub open spec fn tr_branch(m: Mach, offset: int) -> Step {
    branch_to(m, m.ip() + 1 + offset)
}

/// Fused compare-branch: branch when the comparison holds, else fall
/// through.
pub open spec fn tr_branch_cmp(m: Mach, c: Comparator, lhs: Reg, rhs: Reg, offset: int) -> Step {
    match (m.read(lhs), m.read(rhs)) {
        (Some(a), Some(b)) => {
            if eval_cmp(c, a, b) {
                branch_to(m, m.ip() + 1 + offset)
            } else {
                Step::Running(m.next(1))
            }
        },
        _ => u_trap(m),
    }
}

/// Fused compare-branch against an immediate.
pub open spec fn tr_branch_cmp_imm(m: Mach, c: Comparator, lhs: Reg, rhs_cell: u64, offset: int) -> Step {
    match m.read(lhs) {
        Some(a) => {
            if eval_cmp(c, a, rhs_cell) {
                branch_to(m, m.ip() + 1 + offset)
            } else {
                Step::Running(m.next(1))
            }
        },
        None => u_trap(m),
    }
}

/// Branch table without copied values: `len_targets` trailer words follow
/// the head; the index register selects one, clamped to the last.
pub open spec fn tr_branch_table0(code: CodeV, m: Mach, index: Reg, len_targets: u32) -> Step {
    match m.read(index) {
        None => u_trap(m),
        Some(v) => {
            if len_targets == 0 {
                u_trap(m)
            } else {
                let idx = if lo32(v) < len_targets - 1 {
                    lo32(v) as int
                } else {
                    len_targets - 1
                };
                let p = m.ip() + 1 + idx;
                match fetch_at(code, m, p) {
                    Some(Instruction::BranchTableTarget { results, offset }) => branch_to(
                        m,
                        p + 1 + offset,
                    ),
                    Some(
                        Instruction::BranchTableTargetNonOverlapping { results, offset },
                    ) => branch_to(m, p + 1 + offset),
                    _ => u_trap(m),
                }
            }
        },
    }
}

/// Branch table copying one value: a `Register` trailer names the source,
/// the chosen target names the destination.
pub open spec fn tr_branch_table1(code: CodeV, m: Mach, index: Reg, len_targets: u32) -> Step {
    match (m.read(index), fetch_at(code, m, m.ip() + 1)) {
        (Some(v), Some(Instruction::Register { reg })) => {
            match m.read(reg) {
                None => u_trap(m),
                Some(value) => {
                    if len_targets == 0 {
                        u_trap(m)
                    } else {
                        let idx = if lo32(v) < len_targets - 1 {
                            lo32(v) as int
                        } else {
                            len_targets - 1
                        };
                        let p = m.ip() + 2 + idx;
                        match fetch_at(code, m, p) {
                            Some(Instruction::BranchTableTarget { results, offset }) => {
                                tr_branch_table1_take(m, results, value, p + 1 + offset)
                            },
                            Some(
                                Instruction::BranchTableTargetNonOverlapping { results, offset },
                            ) => tr_branch_table1_take(m, results, value, p + 1 + offset),
                            _ => u_trap(m),
                        }
                    }
                },
            }
        },
        _ => u_trap(m),
    }
}

/// The chosen target of a one-value branch table: the destination register
/// and the branch position are both checked before the value is written.
pub open spec fn tr_branch_table1_take(m: Mach, results: Reg, value: u64, t: int) -> Step {
    if !(0 <= t <= usize::MAX) {
        u_trap(m)
    } else {
        match m.write_i(results as int, value) {
            Some(m2) => Step::Running(m2.with_ip(t)),
            None => u_trap(m),
        }
    }
}

/// Register-to-register copy.
pub open spec fn tr_copy(m: Mach, result: Reg, value: Reg) -> Step {
    match m.read(value) {
        Some(v) => write_next(m, result as int, v, 1),
        None => u_trap(m),
    }
}

/// Copies two values; both reads and both destinations are checked before
/// either result is written, so a trap leaves the stack untouched.
pub open spec fn tr_copy2(m: Mach, results: Reg, value0: Reg, value1: Reg) -> Step {
    match (m.read(value0), m.read(value1)) {
        (Some(v0), Some(v1)) => {
            let i0 = reg_idx(m.values.len() as int, m.base(), results as int);
            let i1 = reg_idx(m.values.len() as int, m.base(), results as int + 1);
            match (i0, i1) {
                (Some(j0), Some(j1)) => Step::Running(
                    m.with_values(m.values.update(j0, v0).update(j1, v1)).next(1),
                ),
                _ => u_trap(m),
            }
        },
        _ => u_trap(m),
    }
}

/// Copies an immediate cell.
pub open spec fn tr_copy_imm(m: Mach, result: Reg, cell: u64) -> Step {
    write_next(m, result as int, cell, 1)
}

/// Copies a contiguous span as if through a snapshot.
pub open spec fn tr_copy_span(m: Mach, results: Reg, values: Reg, len: u16) -> Step {
    match read_span_s(m.values, m.base(), values as int, len as int) {
        None => u_trap(m),
        Some(vals) => match write_span_s(m.values, m.base(), results as int, vals) {
            None => u_trap(m),
            Some(values2) => Step::Running(m.with_values(values2).next(1)),
        },
    }
}

/// Reads the registers of an argument list, in order: all of them resolve,
/// or the list does not read.
pub open spec fn read_regs_v(values: Seq<u64>, base: int, regs: Seq<Reg>) -> Option<Seq<u64>> {
    if forall|j: int|
        0 <= j < regs.len() ==> reg_idx(values.len() as int, base, #[trigger] regs[j] as int)
            is Some {
        Some(Seq::new(regs.len(), |j: int| values[base + regs[j]]))
    } else {
        None
    }
}

/// Reads the registers of an argument list against the executing frame.
pub open spec fn read_regs(m: Mach, regs: Seq<Reg>) -> Option<Seq<u64>> {
    read_regs_v(m.values, m.base(), regs)
}

/// Decodes a trailing register list: zero or more `RegisterList` words
/// closed by a `Register`, `Register2` or `Register3` word. Yields the
/// registers and the position after the list.
pub open spec fn args_decode(body: Seq<Instruction>, p: int) -> Option<(Seq<Reg>, int)>
    decreases body.len() - p,
{
    if p < 0 || p >= body.len() {
        None
    } else {
        match body[p] {
            Instruction::Register { reg } => Some((seq![reg], p + 1)),
            Instruction::Register2 { reg0, reg1 } => Some((seq![reg0, reg1], p + 1)),
            Instruction::Register3 { reg0, reg1, reg2 } => Some((seq![reg0, reg1, reg2], p + 1)),
            Instruction::RegisterList { reg0, reg1, reg2 } => match args_decode(body, p + 1) {
                Some(rest) => Some((seq![reg0, reg1, reg2] + rest.0, rest.1)),
                None => None,
            },
            _ => None,
        }
    }
}

/// Copies the values named by a trailing register list to a span.
pub open spec fn tr_copy_many(code: CodeV, m: Mach, results: Reg) -> Step {
    match body_of(code, m) {
        None => u_trap(m),
        Some(b) => match args_decode(b.instrs, m.ip() + 1) {
            None => u_trap(m),
            Some(decoded) => match read_regs(m, decoded.0) {
                None => u_trap(m),
                Some(vals) => match write_span_s(m.values, m.base(), results as int, vals) {
                    None => u_trap(m),
                    Some(values2) => Step::Running(m.with_values(values2).with_ip(decoded.1)),
                },
            },
        },
    }
}

/// Select: the condition register decides between two values; non-zero
/// picks the left one.
pub open spec fn tr_select_vals(m: Mach, result: Reg, cond: u64, lhs: u64, rhs: u64) -> Step {
    write_next(m, result as int, if lo32(cond) != 0 { lhs } else { rhs }, 2)
}

/// Returns `vals` from the executing frame: they land in the result span
/// of the caller's window, the frame's window is deallocated, and the
/// caller resumes; returning past the root ends execution.
pub open spec fn tr_return_vals(m: Mach, vals: Seq<u64>) -> Step {
    let f = m.top();
    let rest = m.frames.drop_last();
    let dst_base: int = if rest.len() == 0 { 0 } else { rest.last().base as int };
    match write_span_s(m.values, dst_base, f.results as int, vals) {
        None => u_trap(m),
        Some(values1) => {
            let values2 = if f.base <= values1.len() {
                values1.subrange(0, f.base as int)
            } else {
                values1
            };
            let m2 = Mach { values: values2, frames: rest, ..m };
            if rest.len() == 0 {
                Step::Returned(m2)
            } else {
                Step::Running(m2)
            }
        },
    }
}

/// Conditional return: return `vals` when the condition register is
/// non-zero, else fall through.
pub open spec fn tr_return_nez_vals(m: Mach, cond: Reg, vals: Seq<u64>) -> Step {
    match m.read(cond) {
        None => u_trap(m),
        Some(c) => {
            if lo32(c) != 0 {
                tr_return_vals(m, vals)
            } else {
                Step::Running(m.next(1))
            }
        },
    }
}

/// Calls the function entity `fidx` of the code map: pushes a frame for a
/// compiled callee, or pauses for a host callee. `ret_ip` is where the
/// caller resumes.
pub open spec fn tr_call_resolved(
    code: CodeV,
    m: Mach,
    results: Reg,
    fidx: int,
    args: Seq<u64>,
    ret_ip: int,
) -> Step {
    if !(0 <= fidx < code.funcs.len()) {
        u_trap(m)
    } else if fidx > u32::MAX {
        u_trap(m)
    } else if !(0 <= ret_ip <= usize::MAX) {
        u_trap(m)
    } else {
        let func = code.funcs[fidx];
        match func.kind {
            FuncKind::Host { .. } => Step::Host(
                m.with_ip(ret_ip),
                HostCallV { func: fidx as u32, results, args },
            ),
            FuncKind::Internal { body } => {
                if !(body < code.bodies.len()) {
                    u_trap(m)
                } else {
                    let b = code.bodies[body as int];
                    let base = m.values.len() as int;
                    if m.frames.len() >= m.limit_frames {
                        Step::Trap(m, TrapCode::StackOverflow)
                    } else if base + b.len_registers > m.limit_values {
                        Step::Trap(m, TrapCode::StackOverflow)
                    } else {
                        let values1 = m.values + zero_seq(b.len_registers as int);
                        match write_span_s(values1, base, 0, args) {
                            None => u_trap(m),
                            Some(values2) => {
                                let caller_fixed = m.with_ip(ret_ip);
                                Step::Running(
                                    Mach {
                                        values: values2,
                                        frames: caller_fixed.frames.push(
                                            CallFrame {
                                                instr_ptr: 0,
                                                func: fidx as u32,
                                                base: base as usize,
                                                results,
                                                instance: func.instance,
                                            },
                                        ),
                                        ..m
                                    },
                                )
                            },
                        }
                    }
                }
            },
        }
    }
}

/// Tail-calls the function entity `fidx`: the executing frame is reused,
/// so the call-stack depth is unchanged; its return information is kept.
/// A host callee pops the frame and pauses.
pub open spec fn tr_tail_call_resolved(code: CodeV, m: Mach, fidx: int, args: Seq<u64>) -> Step {
    if !(0 <= fidx < code.funcs.len()) {
        u_trap(m)
    } else if fidx > u32::MAX {
        u_trap(m)
    } else {
        let func = code.funcs[fidx];
        let f = m.top();
        match func.kind {
            FuncKind::Host { .. } => {
                let values2 = if f.base <= m.values.len() {
                    m.values.subrange(0, f.base as int)
                } else {
                    m.values
                };
                Step::Host(
                    Mach { values: values2, frames: m.frames.drop_last(), ..m },
                    HostCallV { func: fidx as u32, results: f.results, args },
                )
            },
            FuncKind::Internal { body } => {
                if !(body < code.bodies.len()) {
                    u_trap(m)
                } else {
                    let b = code.bodies[body as int];
                    let base = f.base as int;
                    let values1 = if f.base <= m.values.len() {
                        m.values.subrange(0, f.base as int)
                    } else {
                        m.values
                    };
                    if values1.len() + b.len_registers > m.limit_values {
                        Step::Trap(m, TrapCode::StackOverflow)
                    } else {
                        let values2 = values1 + zero_seq(b.len_registers as int);
                        match write_span_s(values2, base, 0, args) {
                            None => u_trap(m),
                            Some(values3) => Step::Running(
                                Mach {
                                    values: values3,
                                    frames: m.frames.update(
                                        m.frames.len() - 1,
                                        CallFrame {
                                            instr_ptr: 0,
                                            func: fidx as u32,
                                            base: f.base,
                                            results: f.results,
                                            instance: func.instance,
                                        },
                                    ),
                                    ..m
                                },
                            ),
                        }
                    }
                }
            },
        }
    }
}

/// Resolves an instance-local function index to a code-map function.
pub open spec fn local_func(m: Mach, f: u32) -> Option<int> {
    let inst = m.inst();
    if f < inst.funcs.len() {
        Some(inst.funcs[f as int] as int)
    } else {
        None
    }
}

/// Resolves an indirect call: looks the index up in the table, rejects a
/// null element and a signature mismatch.
pub open spec fn resolve_indirect(
    code: CodeV,
    m: Mach,
    type_local: u32,
    table_local: u32,
    index_val: u64,
) -> Result<int, TrapCode> {
    let inst = m.inst();
    if !(type_local < inst.types.len()) {
        Err(TrapCode::UnreachableCodeReached)
    } else if !(table_local < inst.tables.len()) {
        Err(TrapCode::UnreachableCodeReached)
    } else {
        let expected = inst.types[type_local as int];
        let th = inst.tables[table_local as int];
        if !(th < m.store.tables.len()) {
            Err(TrapCode::UnreachableCodeReached)
        } else {
            let elems = m.store.tables[th as int].elems;
            if !(lo32(index_val) < elems.len()) {
                Err(TrapCode::TableOutOfBounds)
            } else {
                let cell = elems[lo32(index_val) as int];
                if cell == 0 {
                    Err(TrapCode::IndirectCallToNull)
                } else {
                    let fidx = cell - 1;
                    if !(fidx < code.funcs.len()) {
                        Err(TrapCode::UnreachableCodeReached)
                    } else if code.funcs[fidx as int].ty != expected {
                        Err(TrapCode::BadSignature)
                    } else {
                        Ok(fidx as int)
                    }
                }
            }
        }
    }
}

/// `ConsumeFuel`: subtract the block's budget or trap.
pub open spec fn tr_consume_fuel(m: Mach, n: u64) -> Step {
    if n <= m.store.fuel {
        Step::Running(m.with_store(sv_with_fuel(m.store, (m.store.fuel - n) as u64)).next(1))
    } else {
        Step::Trap(m, TrapCode::OutOfFuel)
    }
}

/// `RefFunc`: materialize a function reference.
pub open spec fn tr_ref_func(m: Mach, result: Reg, f: u32) -> Step {
    match local_func(m, f) {
        Some(fidx) => write_next(m, result as int, (fidx + 1) as u64, 1),
        None => u_trap(m),
    }
}

/// The store-level global handle of an instance-local global index.
pub open spec fn local_global(m: Mach, g: u32) -> Option<int> {
    let inst = m.inst();
    if g < inst.globals.len() {
        let h = inst.globals[g as int];
        if h < m.store.globals.len() {
            Some(h as int)
        } else {
            None
        }
    } else {
        None
    }
}

/// `GlobalGet`.
pub open spec fn tr_global_get(m: Mach, result: Reg, g: u32) -> Step {
    match local_global(m, g) {
        Some(h) => write_next(m, result as int, m.store.globals[h], 1),
        None => u_trap(m),
    }
}

/// `GlobalSet` with the cell to write already resolved.
pub open spec fn tr_global_set(m: Mach, g: u32, cell: u64) -> Step {
    match local_global(m, g) {
        Some(h) => Step::Running(m.with_store(sv_with_global(m.store, h, cell)).next(1)),
        None => u_trap(m),
    }
}

/// The store-level handle of the default memory of the executing instance.
pub open spec fn default_mem(m: Mach) -> Option<int> {
    let inst = m.inst();
    if inst.memories.len() >= 1 {
        let h = inst.memories[0];
        if h < m.store.memories.len() {
            Some(h as int)
        } else {
            None
        }
    } else {
        None
    }
}

/// A load with the effective address already computed.
pub open spec fn tr_load(m: Mach, kind: LoadKind, result: Reg, addr: int, skip: int) -> Step {
    match default_mem(m) {
        None => u_trap(m),
        Some(h) => match spec_mem_load(m.store, h, addr, kind) {
            Ok(v) => write_next(m, result as int, v, skip),
            Err(c) => Step::Trap(m, c),
        },
    }
}

/// A store of the low `size` bytes of `cell` at the given address.
pub open spec fn tr_store(m: Mach, size: int, addr: int, cell: u64, skip: int) -> Step {
    match default_mem(m) {
        None => u_trap(m),
        Some(h) => match spec_mem_store(m.store, h, addr, size as nat, cell as int) {
            Some(bytes) => Step::Running(m.with_store(sv_with_mem(m.store, h, bytes)).next(skip)),
            None => Step::Trap(m, TrapCode::MemoryOutOfBounds),
        },
    }
}

/// `MemorySize`, in pages.
pub open spec fn tr_mem_size(m: Mach, result: Reg) -> Step {
    match default_mem(m) {
        None => u_trap(m),
        Some(h) => write_next(
            m,
            result as int,
            ((m.store.memories[h].bytes.len() as int / PAGE_SIZE as int) % 0x1_0000_0000) as u64,
            1,
        ),
    }
}

/// `MemoryGrow` with the page delta already resolved. The result register
/// is checked before the memory grows, so a trap changes nothing.
pub open spec fn tr_mem_grow(m: Mach, result: Reg, delta: int) -> Step {
    match default_mem(m) {
        None => u_trap(m),
        Some(h) => {
            if reg_idx(m.values.len() as int, m.base(), result as int) is Some {
                let grown = spec_mem_grow(m.store.memories[h], delta);
                let m2 = match grown.0 {
                    Some(bytes) => m.with_store(sv_with_mem(m.store, h, bytes)),
                    None => m,
                };
                write_next(m2, result as int, grown.1 as u64, 1)
            } else {
                u_trap(m)
            }
        },
    }
}

/// `memory.copy` with all three operands resolved.
pub open spec fn tr_mem_copy(m: Mach, dst: int, src: int, len: int) -> Step {
    match default_mem(m) {
        None => u_trap(m),
        Some(h) => match spec_mem_copy(m.store.memories[h].bytes, dst, src, len) {
            Some(bytes) => Step::Running(m.with_store(sv_with_mem(m.store, h, bytes)).next(1)),
            None => Step::Trap(m, TrapCode::MemoryOutOfBounds),
        },
    }
}

/// `memory.fill` with all three operands resolved.
pub open spec fn tr_mem_fill(m: Mach, dst: int, val: u8, len: int) -> Step {
    match default_mem(m) {
        None => u_trap(m),
        Some(h) => match spec_mem_fill(m.store.memories[h].bytes, dst, val, len) {
            Some(bytes) => Step::Running(m.with_store(sv_with_mem(m.store, h, bytes)).next(1)),
            None => Step::Trap(m, TrapCode::MemoryOutOfBounds),
        },
    }
}

/// `memory.init` from the instance-local data segment `seg`.
pub open spec fn tr_mem_init(m: Mach, seg: u32, dst: int, src: int, len: int) -> Step {
    match default_mem(m) {
        None => u_trap(m),
        Some(h) => {
            let inst = m.inst();
            if !(seg < inst.datas.len()) {
                u_trap(m)
            } else {
                let sh = inst.datas[seg as int];
                if !(sh < m.store.datas.len()) {
                    u_trap(m)
                } else {
                    match spec_mem_init(
                        m.store.memories[h].bytes,
                        m.store.datas[sh as int],
                        dst,
                        src,
                        len,
                    ) {
                        Some(bytes) => Step::Running(
                            m.with_store(sv_with_mem(m.store, h, bytes)).next(1),
                        ),
                        None => Step::Trap(m, TrapCode::MemoryOutOfBounds),
                    }
                }
            }
        },
    }
}

/// `DataDrop` of the instance-local data segment `seg`.
pub open spec fn tr_data_drop(m: Mach, seg: u32) -> Step {
    let inst = m.inst();
    if !(seg < inst.datas.len()) {
        u_trap(m)
    } else {
        let sh = inst.datas[seg as int];
        if !(sh < m.store.datas.len()) {
            u_trap(m)
        } else {
            Step::Running(m.with_store(sv_with_data(m.store, sh as int, Seq::empty())).next(1))
        }
    }
}

/// `ElemDrop` of the instance-local element segment `seg`.
pub open spec fn tr_elem_drop(m: Mach, seg: u32) -> Step {
    let inst = m.inst();
    if !(seg < inst.elems.len()) {
        u_trap(m)
    } else {
        let sh = inst.elems[seg as int];
        if !(sh < m.store.elem_segs.len()) {
            u_trap(m)
        } else {
            Step::Running(m.with_store(sv_with_elem(m.store, sh as int, Seq::empty())).next(1))
        }
    }
}

/// The store-level handle of an instance-local table index.
pub open spec fn local_table(m: Mach, t: u32) -> Option<int> {
    let inst = m.inst();
    if t < inst.tables.len() {
        let h = inst.tables[t as int];
        if h < m.store.tables.len() {
            Some(h as int)
        } else {
            None
        }
    } else {
        None
    }
}

/// The store-level handle of an instance-local element segment index.
pub open spec fn local_elem(m: Mach, e: u32) -> Option<int> {
    let inst = m.inst();
    if e < inst.elems.len() {
        let h = inst.elems[e as int];
        if h < m.store.elem_segs.len() {
            Some(h as int)
        } else {
            None
        }
    } else {
        None
    }
}

/// `TableGet` with the element index resolved.
pub open spec fn tr_table_get(m: Mach, result: Reg, t: u32, idx: int) -> Step {
    match local_table(m, t) {
        None => u_trap(m),
        Some(h) => {
            let elems = m.store.tables[h].elems;
            if idx < elems.len() {
                write_next(m, result as int, elems[idx], 1)
            } else {
                Step::Trap(m, TrapCode::TableOutOfBounds)
            }
        },
    }
}

/// `TableSet` with the element index and value resolved.
pub open spec fn tr_table_set(m: Mach, t: u32, idx: int, v: u64) -> Step {
    match local_table(m, t) {
        None => u_trap(m),
        Some(h) => {
            let elems = m.store.tables[h].elems;
            if idx < elems.len() {
                Step::Running(
                    m.with_store(sv_with_table(m.store, h, elems.update(idx, v))).next(1),
                )
            } else {
                Step::Trap(m, TrapCode::TableOutOfBounds)
            }
        },
    }
}

/// `TableSize`.
pub open spec fn tr_table_size(m: Mach, result: Reg, t: u32) -> Step {
    match local_table(m, t) {
        None => u_trap(m),
        Some(h) => write_next(
            m,
            result as int,
            ((m.store.tables[h].elems.len() as int) % 0x1_0000_0000) as u64,
            1,
        ),
    }
}

/// `table.copy` with all operands resolved.
pub open spec fn tr_table_copy(m: Mach, dt: u32, st: u32, dst: int, src: int, len: int) -> Step {
    match (local_table(m, dt), local_table(m, st)) {
        (Some(hd), Some(hs)) => {
            let de = m.store.tables[hd].elems;
            let se = m.store.tables[hs].elems;
            if src + len > se.len() || dst + len > de.len() {
                Step::Trap(m, TrapCode::TableOutOfBounds)
            } else {
                Step::Running(
                    m.with_store(
                        sv_with_table(
                            m.store,
                            hd,
                            splice_seq(de, dst, se.subrange(src, src + len)),
                        ),
                    ).next(1),
                )
            }
        },
        _ => u_trap(m),
    }
}

/// `table.fill` with all operands resolved.
pub open spec fn tr_table_fill(m: Mach, t: u32, dst: int, val: u64, len: int) -> Step {
    match local_table(m, t) {
        None => u_trap(m),
        Some(h) => {
            let de = m.store.tables[h].elems;
            if dst + len > de.len() {
                Step::Trap(m, TrapCode::TableOutOfBounds)
            } else {
                Step::Running(
                    m.with_store(
                        sv_with_table(
                            m.store,
                            h,
                            splice_seq(de, dst, Seq::new(len as nat, |i: int| val)),
                        ),
                    ).next(1),
                )
            }
        },
    }
}

/// `table.init` from the instance-local element segment `seg`.
pub open spec fn tr_table_init(m: Mach, t: u32, seg: u32, dst: int, src: int, len: int) -> Step {
    match (local_table(m, t), local_elem(m, seg)) {
        (Some(h), Some(sh)) => {
            let de = m.store.tables[h].elems;
            let se = m.store.elem_segs[sh];
            if src + len > se.len() || dst + len > de.len() {
                Step::Trap(m, TrapCode::TableOutOfBounds)
            } else {
                Step::Running(
                    m.with_store(
                        sv_with_table(
                            m.store,
                            h,
                            splice_seq(de, dst, se.subrange(src, src + len)),
                        ),
                    ).next(1),
                )
            }
        },
        _ => u_trap(m),
    }
}

/// `table.grow` with the delta and fill value resolved. The result
/// register is checked before the table grows, so a trap changes nothing.
pub open spec fn tr_table_grow(m: Mach, result: Reg, t: u32, delta: int, val: u64) -> Step {
    match local_table(m, t) {
        None => u_trap(m),
        Some(h) => {
            if reg_idx(m.values.len() as int, m.base(), result as int) is Some {
                let grown = spec_table_grow(m.store.tables[h], delta, val);
                let m2 = match grown.0 {
                    Some(elems) => m.with_store(sv_with_table(m.store, h, elems)),
                    None => m,
                };
                write_next(m2, result as int, grown.1 as u64, 1)
            } else {
                u_trap(m)
            }
        },
    }
}

/// The meaning of one fetched instruction word. Opaque: a proof that
/// needs one instruction's meaning reveals it and lets the match reduce.
#[verifier::opaque]
pub open spec fn step_instr(code: CodeV, m: Mach, instr: Instruction) -> Step {
    match instr {
        Instruction::Trap { trap_code } => Step::Trap(m, trap_code),
        Instruction::ConsumeFuel { block_fuel } => tr_consume_fuel(m, block_fuel),
        Instruction::Return => tr_return_vals(m, Seq::empty()),
        Instruction::ReturnReg { value } => match m.read(value) {
            Some(v) => tr_return_vals(m, seq![v]),
            None => u_trap(m),
        },
        Instruction::ReturnReg2 { value0, value1 } => match (m.read(value0), m.read(value1)) {
            (Some(v0), Some(v1)) => tr_return_vals(m, seq![v0, v1]),
            _ => u_trap(m),
        },
        Instruction::ReturnImm32 { value } => tr_return_vals(m, seq![value as u64]),
        Instruction::ReturnI64Imm32 { value } => tr_return_vals(m, seq![sx32_64(value)]),
        Instruction::ReturnSpan { values, len } => match read_span_s(m.values, m.base(), values as int, len as int) {
            Some(vals) => tr_return_vals(m, vals),
            None => u_trap(m),
        },
        Instruction::ReturnNez { condition } => tr_return_nez_vals(m, condition, Seq::empty()),
        Instruction::ReturnNezReg { condition, value } => match m.read(value) {
            Some(v) => tr_return_nez_vals(m, condition, seq![v]),
            None => u_trap(m),
        },
        Instruction::ReturnNezImm32 { condition, value } => tr_return_nez_vals(m, condition, seq![value as u64]),
        Instruction::Branch { offset } => tr_branch(m, offset as int),
        Instruction::BranchCmpFallback { lhs, rhs, comparator, offset } => tr_branch_cmp(m, comparator, lhs, rhs, offset as int),
        Instruction::BranchTable0 { index, len_targets } => tr_branch_table0(code, m, index, len_targets),
        Instruction::BranchTable1 { index, len_targets } => tr_branch_table1(code, m, index, len_targets),
        Instruction::BranchI32Eq { lhs, rhs, offset } => tr_branch_cmp(m, Comparator::I32Eq, lhs, rhs, offset as int),
        Instruction::BranchI32EqImm { lhs, rhs, offset } => tr_branch_cmp_imm(m, Comparator::I32Eq, lhs, sx16_32(rhs), offset as int),
        Instruction::BranchI32Ne { lhs, rhs, offset } => tr_branch_cmp(m, Comparator::I32Ne, lhs, rhs, offset as int),
        Instruction::BranchI32NeImm { lhs, rhs, offset } => tr_branch_cmp_imm(m, Comparator::I32Ne, lhs, sx16_32(rhs), offset as int),
        Instruction::BranchI32LtS { lhs, rhs, offset } => tr_branch_cmp(m, Comparator::I32LtS, lhs, rhs, offset as int),
        Instruction::BranchI32LtSImm { lhs, rhs, offset } => tr_branch_cmp_imm(m, Comparator::I32LtS, lhs, sx16_32(rhs), offset as int),
        Instruction::BranchI32LtU { lhs, rhs, offset } => tr_branch_cmp(m, Comparator::I32LtU, lhs, rhs, offset as int),
        Instruction::BranchI32LtUImm { lhs, rhs, offset } => tr_branch_cmp_imm(m, Comparator::I32LtU, lhs, sx16_32(rhs), offset as int),
        Instruction::BranchI32LeS { lhs, rhs, offset } => tr_branch_cmp(m, Comparator::I32LeS, lhs, rhs, offset as int),
        Instruction::BranchI32LeSImm { lhs, rhs, offset } => tr_branch_cmp_imm(m, Comparator::I32LeS, lhs, sx16_32(rhs), offset as int),
        Instruction::BranchI32LeU { lhs, rhs, offset } => tr_branch_cmp(m, Comparator::I32LeU, lhs, rhs, offset as int),
        Instruction::BranchI32LeUImm { lhs, rhs, offset } => tr_branch_cmp_imm(m, Comparator::I32LeU, lhs, sx16_32(rhs), offset as int),
        Instruction::BranchI32GtS { lhs, rhs, offset } => tr_branch_cmp(m, Comparator::I32GtS, lhs, rhs, offset as int),
        Instruction::BranchI32GtSImm { lhs, rhs, offset } => tr_branch_cmp_imm(m, Comparator::I32GtS, lhs, sx16_32(rhs), offset as int),
        Instruction::BranchI32GtU { lhs, rhs, offset } => tr_branch_cmp(m, Comparator::I32GtU, lhs, rhs, offset as int),
        Instruction::BranchI32GtUImm { lhs, rhs, offset } => tr_branch_cmp_imm(m, Comparator::I32GtU, lhs, sx16_32(rhs), offset as int),
        Instruction::BranchI32GeS { lhs, rhs, offset } => tr_branch_cmp(m, Comparator::I32GeS, lhs, rhs, offset as int),
        Instruction::BranchI32GeSImm { lhs, rhs, offset } => tr_branch_cmp_imm(m, Comparator::I32GeS, lhs, sx16_32(rhs), offset as int),
        Instruction::BranchI32GeU { lhs, rhs, offset } => tr_branch_cmp(m, Comparator::I32GeU, lhs, rhs, offset as int),
        Instruction::BranchI32GeUImm { lhs, rhs, offset } => tr_branch_cmp_imm(m, Comparator::I32GeU, lhs, sx16_32(rhs), offset as int),
        Instruction::BranchI32And { lhs, rhs, offset } => tr_branch_cmp(m, Comparator::I32And, lhs, rhs, offset as int),
        Instruction::BranchI32AndImm { lhs, rhs, offset } => tr_branch_cmp_imm(m, Comparator::I32And, lhs, sx16_32(rhs), offset as int),
        Instruction::BranchI32Or { lhs, rhs, offset } => tr_branch_cmp(m, Comparator::I32Or, lhs, rhs, offset as int),
        Instruction::BranchI32OrImm { lhs, rhs, offset } => tr_branch_cmp_imm(m, Comparator::I32Or, lhs, sx16_32(rhs), offset as int),
        Instruction::BranchI32Xor { lhs, rhs, offset } => tr_branch_cmp(m, Comparator::I32Xor, lhs, rhs, offset as int),
        Instruction::BranchI32XorImm { lhs, rhs, offset } => tr_branch_cmp_imm(m, Comparator::I32Xor, lhs, sx16_32(rhs), offset as int),
        Instruction::BranchI32AndEqz { lhs, rhs, offset } => tr_branch_cmp(m, Comparator::I32AndEqz, lhs, rhs, offset as int),
        Instruction::BranchI32AndEqzImm { lhs, rhs, offset } => tr_branch_cmp_imm(m, Comparator::I32AndEqz, lhs, sx16_32(rhs), offset as int),
        Instruction::BranchI32OrEqz { lhs, rhs, offset } => tr_branch_cmp(m, Comparator::I32OrEqz, lhs, rhs, offset as int),
        Instruction::BranchI32OrEqzImm { lhs, rhs, offset } => tr_branch_cmp_imm(m, Comparator::I32OrEqz, lhs, sx16_32(rhs), offset as int),
        Instruction::BranchI32XorEqz { lhs, rhs, offset } => tr_branch_cmp(m, Comparator::I32XorEqz, lhs, rhs, offset as int),
        Instruction::BranchI32XorEqzImm { lhs, rhs, offset } => tr_branch_cmp_imm(m, Comparator::I32XorEqz, lhs, sx16_32(rhs), offset as int),
        Instruction::BranchI64Eq { lhs, rhs, offset } => tr_branch_cmp(m, Comparator::I64Eq, lhs, rhs, offset as int),
        Instruction::BranchI64EqImm { lhs, rhs, offset } => tr_branch_cmp_imm(m, Comparator::I64Eq, lhs, sx16_64(rhs), offset as int),
        Instruction::BranchI64Ne { lhs, rhs, offset } => tr_branch_cmp(m, Comparator::I64Ne, lhs, rhs, offset as int),
        Instruction::BranchI64NeImm { lhs, rhs, offset } => tr_branch_cmp_imm(m, Comparator::I64Ne, lhs, sx16_64(rhs), offset as int),
        Instruction::BranchI64LtS { lhs, rhs, offset } => tr_branch_cmp(m, Comparator::I64LtS, lhs, rhs, offset as int),
        Instruction::BranchI64LtSImm { lhs, rhs, offset } => tr_branch_cmp_imm(m, Comparator::I64LtS, lhs, sx16_64(rhs), offset as int),
        Instruction::BranchI64LtU { lhs, rhs, offset } => tr_branch_cmp(m, Comparator::I64LtU, lhs, rhs, offset as int),
        Instruction::BranchI64LtUImm { lhs, rhs, offset } => tr_branch_cmp_imm(m, Comparator::I64LtU, lhs, sx16_64(rhs), offset as int),
        Instruction::BranchI64LeS { lhs, rhs, offset } => tr_branch_cmp(m, Comparator::I64LeS, lhs, rhs, offset as int),
        Instruction::BranchI64LeSImm { lhs, rhs, offset } => tr_branch_cmp_imm(m, Comparator::I64LeS, lhs, sx16_64(rhs), offset as int),
        Instruction::BranchI64LeU { lhs, rhs, offset } => tr_branch_cmp(m, Comparator::I64LeU, lhs, rhs, offset as int),
        Instruction::BranchI64LeUImm { lhs, rhs, offset } => tr_branch_cmp_imm(m, Comparator::I64LeU, lhs, sx16_64(rhs), offset as int),
        Instruction::BranchI64GtS { lhs, rhs, offset } => tr_branch_cmp(m, Comparator::I64GtS, lhs, rhs, offset as int),
        Instruction::BranchI64GtSImm { lhs, rhs, offset } => tr_branch_cmp_imm(m, Comparator::I64GtS, lhs, sx16_64(rhs), offset as int),
        Instruction::BranchI64GtU { lhs, rhs, offset } => tr_branch_cmp(m, Comparator::I64GtU, lhs, rhs, offset as int),
        Instruction::BranchI64GtUImm { lhs, rhs, offset } => tr_branch_cmp_imm(m, Comparator::I64GtU, lhs, sx16_64(rhs), offset as int),
        Instruction::BranchI64GeS { lhs, rhs, offset } => tr_branch_cmp(m, Comparator::I64GeS, lhs, rhs, offset as int),
        Instruction::BranchI64GeSImm { lhs, rhs, offset } => tr_branch_cmp_imm(m, Comparator::I64GeS, lhs, sx16_64(rhs), offset as int),
        Instruction::BranchI64GeU { lhs, rhs, offset } => tr_branch_cmp(m, Comparator::I64GeU, lhs, rhs, offset as int),
        Instruction::BranchI64GeUImm { lhs, rhs, offset } => tr_branch_cmp_imm(m, Comparator::I64GeU, lhs, sx16_64(rhs), offset as int),
        Instruction::Copy { result, value } => tr_copy(m, result, value),
        Instruction::Copy2 { results, value0, value1 } => tr_copy2(m, results, value0, value1),
        Instruction::CopyImm32 { result, value } => tr_copy_imm(m, result, value as u64),
        Instruction::CopyI64Imm32 { result, value } => tr_copy_imm(m, result, sx32_64(value)),
        Instruction::CopySpan { results, values, len } => tr_copy_span(m, results, values, len),
        Instruction::CopySpanNonOverlapping { results, values, len } => tr_copy_span(m, results, values, len),
        Instruction::CopyMany { results } => tr_copy_many(code, m, results),
        Instruction::CopyManyNonOverlapping { results } => tr_copy_many(code, m, results),
        Instruction::CallInternal0 { results, func } => match local_func(m, func) {
            Some(fidx) => tr_call_resolved(code, m, results, fidx, Seq::empty(), m.ip() + 1),
            None => u_trap(m),
        },
        Instruction::CallImported0 { results, func } => match local_func(m, func) {
            Some(fidx) => tr_call_resolved(code, m, results, fidx, Seq::empty(), m.ip() + 1),
            None => u_trap(m),
        },
        Instruction::CallInternal { results, func } => match (local_func(m, func), body_of(code, m)) {
            (Some(fidx), Some(b)) => match args_decode(b.instrs, m.ip() + 1) {
                Some(decoded) => match read_regs(m, decoded.0) {
                    Some(args) => tr_call_resolved(code, m, results, fidx, args, decoded.1),
                    None => u_trap(m),
                },
                None => u_trap(m),
            },
            _ => u_trap(m),
        },
        Instruction::CallImported { results, func } => match (local_func(m, func), body_of(code, m)) {
            (Some(fidx), Some(b)) => match args_decode(b.instrs, m.ip() + 1) {
                Some(decoded) => match read_regs(m, decoded.0) {
                    Some(args) => tr_call_resolved(code, m, results, fidx, args, decoded.1),
                    None => u_trap(m),
                },
                None => u_trap(m),
            },
            _ => u_trap(m),
        },
        Instruction::ReturnCallInternal0 { func } => match local_func(m, func) {
            Some(fidx) => tr_tail_call_resolved(code, m, fidx, Seq::empty()),
            None => u_trap(m),
        },
        Instruction::ReturnCallImported0 { func } => match local_func(m, func) {
            Some(fidx) => tr_tail_call_resolved(code, m, fidx, Seq::empty()),
            None => u_trap(m),
        },
        Instruction::ReturnCallInternal { func } => match (local_func(m, func), body_of(code, m)) {
            (Some(fidx), Some(b)) => match args_decode(b.instrs, m.ip() + 1) {
                Some(decoded) => match read_regs(m, decoded.0) {
                    Some(args) => tr_tail_call_resolved(code, m, fidx, args),
                    None => u_trap(m),
                },
                None => u_trap(m),
            },
            _ => u_trap(m),
        },
        Instruction::ReturnCallImported { func } => match (local_func(m, func), body_of(code, m)) {
            (Some(fidx), Some(b)) => match args_decode(b.instrs, m.ip() + 1) {
                Some(decoded) => match read_regs(m, decoded.0) {
                    Some(args) => tr_tail_call_resolved(code, m, fidx, args),
                    None => u_trap(m),
                },
                None => u_trap(m),
            },
            _ => u_trap(m),
        },
        Instruction::CallIndirect0 { results, func_type } => match fetch_at(code, m, m.ip() + 1) {
            Some(Instruction::CallIndirectParams { index, table }) => match m.read(index) {
                Some(iv) => match resolve_indirect(code, m, func_type, table, iv) {
                    Ok(fidx) => tr_call_resolved(code, m, results, fidx, Seq::empty(), m.ip() + 2),
                    Err(c) => Step::Trap(m, c),
                },
                None => u_trap(m),
            },
            _ => u_trap(m),
        },
        Instruction::CallIndirect { results, func_type } => match (fetch_at(code, m, m.ip() + 1), body_of(code, m)) {
            (Some(Instruction::CallIndirectParams { index, table }), Some(b)) => match m.read(
                index,
            ) {
                Some(iv) => match resolve_indirect(code, m, func_type, table, iv) {
                    Ok(fidx) => match args_decode(b.instrs, m.ip() + 2) {
                        Some(decoded) => match read_regs(m, decoded.0) {
                            Some(args) => tr_call_resolved(code, m, results, fidx, args, decoded.1),
                            None => u_trap(m),
                        },
                        None => u_trap(m),
                    },
                    Err(c) => Step::Trap(m, c),
                },
                None => u_trap(m),
            },
            _ => u_trap(m),
        },
        Instruction::ReturnCallIndirect0 { func_type } => match fetch_at(code, m, m.ip() + 1) {
            Some(Instruction::CallIndirectParams { index, table }) => match m.read(index) {
                Some(iv) => match resolve_indirect(code, m, func_type, table, iv) {
                    Ok(fidx) => tr_tail_call_resolved(code, m, fidx, Seq::empty()),
                    Err(c) => Step::Trap(m, c),
                },
                None => u_trap(m),
            },
            _ => u_trap(m),
        },
        Instruction::ReturnCallIndirect { func_type } => match (fetch_at(code, m, m.ip() + 1), body_of(code, m)) {
            (Some(Instruction::CallIndirectParams { index, table }), Some(b)) => match m.read(
                index,
            ) {
                Some(iv) => match resolve_indirect(code, m, func_type, table, iv) {
                    Ok(fidx) => match args_decode(b.instrs, m.ip() + 2) {
                        Some(decoded) => match read_regs(m, decoded.0) {
                            Some(args) => tr_tail_call_resolved(code, m, fidx, args),
                            None => u_trap(m),
                        },
                        None => u_trap(m),
                    },
                    Err(c) => Step::Trap(m, c),
                },
                None => u_trap(m),
            },
            _ => u_trap(m),
        },
        Instruction::Select { result, lhs } => match fetch_at(code, m, m.ip() + 1) {
            Some(Instruction::Register2 { reg0, reg1 }) => match (
                m.read(reg0),
                m.read(lhs),
                m.read(reg1),
            ) {
                (Some(c), Some(a), Some(b)) => tr_select_vals(m, result, c, a, b),
                _ => u_trap(m),
            },
            _ => u_trap(m),
        },
        Instruction::SelectImm32Lhs { result, lhs } => match fetch_at(code, m, m.ip() + 1) {
            Some(Instruction::Register2 { reg0, reg1 }) => match (m.read(reg0), m.read(reg1)) {
                (Some(c), Some(b)) => tr_select_vals(m, result, c, lhs as u64, b),
                _ => u_trap(m),
            },
            _ => u_trap(m),
        },
        Instruction::SelectImm32Rhs { result, lhs } => match fetch_at(code, m, m.ip() + 1) {
            Some(Instruction::RegisterAndImm32 { reg, imm }) => match (m.read(reg), m.read(lhs)) {
                (Some(c), Some(a)) => tr_select_vals(m, result, c, a, imm as u64),
                _ => u_trap(m),
            },
            _ => u_trap(m),
        },
        Instruction::SelectImm32 { result, lhs } => match fetch_at(code, m, m.ip() + 1) {
            Some(Instruction::RegisterAndImm32 { reg, imm }) => match m.read(reg) {
                Some(c) => tr_select_vals(m, result, c, lhs as u64, imm as u64),
                None => u_trap(m),
            },
            _ => u_trap(m),
        },
        Instruction::RefFunc { result, func } => tr_ref_func(m, result, func),
        Instruction::GlobalGet { result, global } => tr_global_get(m, result, global),
        Instruction::GlobalSet { global, input } => match m.read(input) {
            Some(v) => tr_global_set(m, global, v),
            None => u_trap(m),
        },
        Instruction::GlobalSetI32Imm16 { global, input } => tr_global_set(m, global, sx16_32(input)),
        Instruction::GlobalSetI64Imm16 { global, input } => tr_global_set(m, global, sx16_64(input)),
        Instruction::I32Load { result, ptr } => match (fetch_at(code, m, m.ip() + 1), m.read(ptr)) {
            (Some(Instruction::Const32 { value }), Some(p)) => tr_load(
                m,
                LoadKind::I32,
                result,
                lo32(p) + value,
                2,
            ),
            _ => u_trap(m),
        },
        Instruction::I32LoadAt { result, address } => tr_load(m, LoadKind::I32, result, address as int, 1),
        Instruction::I32LoadOffset16 { result, ptr, offset } => match m.read(ptr) {
            Some(p) => tr_load(m, LoadKind::I32, result, lo32(p) + offset, 1),
            None => u_trap(m),
        },
        Instruction::I32Load8s { result, ptr } => match (fetch_at(code, m, m.ip() + 1), m.read(ptr)) {
            (Some(Instruction::Const32 { value }), Some(p)) => tr_load(
                m,
                LoadKind::I32S8,
                result,
                lo32(p) + value,
                2,
            ),
            _ => u_trap(m),
        },
        Instruction::I32Load8sAt { result, address } => tr_load(m, LoadKind::I32S8, result, address as int, 1),
        Instruction::I32Load8sOffset16 { result, ptr, offset } => match m.read(ptr) {
            Some(p) => tr_load(m, LoadKind::I32S8, result, lo32(p) + offset, 1),
            None => u_trap(m),
        },
        Instruction::I32Load8u { result, ptr } => match (fetch_at(code, m, m.ip() + 1), m.read(ptr)) {
            (Some(Instruction::Const32 { value }), Some(p)) => tr_load(
                m,
                LoadKind::I32U8,
                result,
                lo32(p) + value,
                2,
            ),
            _ => u_trap(m),
        },
        Instruction::I32Load8uAt { result, address } => tr_load(m, LoadKind::I32U8, result, address as int, 1),
        Instruction::I32Load8uOffset16 { result, ptr, offset } => match m.read(ptr) {
            Some(p) => tr_load(m, LoadKind::I32U8, result, lo32(p) + offset, 1),
            None => u_trap(m),
        },
        Instruction::I32Load16s { result, ptr } => match (fetch_at(code, m, m.ip() + 1), m.read(ptr)) {
            (Some(Instruction::Const32 { value }), Some(p)) => tr_load(
                m,
                LoadKind::I32S16,
                result,
                lo32(p) + value,
                2,
            ),
            _ => u_trap(m),
        },
        Instruction::I32Load16sAt { result, address } => tr_load(m, LoadKind::I32S16, result, address as int, 1),
        Instruction::I32Load16sOffset16 { result, ptr, offset } => match m.read(ptr) {
            Some(p) => tr_load(m, LoadKind::I32S16, result, lo32(p) + offset, 1),
            None => u_trap(m),
        },
        Instruction::I32Load16u { result, ptr } => match (fetch_at(code, m, m.ip() + 1), m.read(ptr)) {
            (Some(Instruction::Const32 { value }), Some(p)) => tr_load(
                m,
                LoadKind::I32U16,
                result,
                lo32(p) + value,
                2,
            ),
            _ => u_trap(m),
        },
        Instruction::I32Load16uAt { result, address } => tr_load(m, LoadKind::I32U16, result, address as int, 1),
        Instruction::I32Load16uOffset16 { result, ptr, offset } => match m.read(ptr) {
            Some(p) => tr_load(m, LoadKind::I32U16, result, lo32(p) + offset, 1),
            None => u_trap(m),
        },
        Instruction::I64Load { result, ptr } => match (fetch_at(code, m, m.ip() + 1), m.read(ptr)) {
            (Some(Instruction::Const32 { value }), Some(p)) => tr_load(
                m,
                LoadKind::I64,
                result,
                lo32(p) + value,
                2,
            ),
            _ => u_trap(m),
        },
        Instruction::I64LoadAt { result, address } => tr_load(m, LoadKind::I64, result, address as int, 1),
        Instruction::I64LoadOffset16 { result, ptr, offset } => match m.read(ptr) {
            Some(p) => tr_load(m, LoadKind::I64, result, lo32(p) + offset, 1),
            None => u_trap(m),
        },
        Instruction::I64Load8s { result, ptr } => match (fetch_at(code, m, m.ip() + 1), m.read(ptr)) {
            (Some(Instruction::Const32 { value }), Some(p)) => tr_load(
                m,
                LoadKind::I64S8,
                result,
                lo32(p) + value,
                2,
            ),
            _ => u_trap(m),
        },
        Instruction::I64Load8sAt { result, address } => tr_load(m, LoadKind::I64S8, result, address as int, 1),
        Instruction::I64Load8sOffset16 { result, ptr, offset } => match m.read(ptr) {
            Some(p) => tr_load(m, LoadKind::I64S8, result, lo32(p) + offset, 1),
            None => u_trap(m),
        },
        Instruction::I64Load8u { result, ptr } => match (fetch_at(code, m, m.ip() + 1), m.read(ptr)) {
            (Some(Instruction::Const32 { value }), Some(p)) => tr_load(
                m,
                LoadKind::I64U8,
                result,
                lo32(p) + value,
                2,
            ),
            _ => u_trap(m),
        },
        Instruction::I64Load8uAt { result, address } => tr_load(m, LoadKind::I64U8, result, address as int, 1),
        Instruction::I64Load8uOffset16 { result, ptr, offset } => match m.read(ptr) {
            Some(p) => tr_load(m, LoadKind::I64U8, result, lo32(p) + offset, 1),
            None => u_trap(m),
        },
        Instruction::I64Load16s { result, ptr } => match (fetch_at(code, m, m.ip() + 1), m.read(ptr)) {
            (Some(Instruction::Const32 { value }), Some(p)) => tr_load(
                m,
                LoadKind::I64S16,
                result,
                lo32(p) + value,
                2,
            ),
            _ => u_trap(m),
        },
        Instruction::I64Load16sAt { result, address } => tr_load(m, LoadKind::I64S16, result, address as int, 1),
        Instruction::I64Load16sOffset16 { result, ptr, offset } => match m.read(ptr) {
            Some(p) => tr_load(m, LoadKind::I64S16, result, lo32(p) + offset, 1),
            None => u_trap(m),
        },
        Instruction::I64Load16u { result, ptr } => match (fetch_at(code, m, m.ip() + 1), m.read(ptr)) {
            (Some(Instruction::Const32 { value }), Some(p)) => tr_load(
                m,
                LoadKind::I64U16,
                result,
                lo32(p) + value,
                2,
            ),
            _ => u_trap(m),
        },
        Instruction::I64Load16uAt { result, address } => tr_load(m, LoadKind::I64U16, result, address as int, 1),
        Instruction::I64Load16uOffset16 { result, ptr, offset } => match m.read(ptr) {
            Some(p) => tr_load(m, LoadKind::I64U16, result, lo32(p) + offset, 1),
            None => u_trap(m),
        },
        Instruction::I64Load32s { result, ptr } => match (fetch_at(code, m, m.ip() + 1), m.read(ptr)) {
            (Some(Instruction::Const32 { value }), Some(p)) => tr_load(
                m,
                LoadKind::I64S32,
                result,
                lo32(p) + value,
                2,
            ),
            _ => u_trap(m),
        },
        Instruction::I64Load32sAt { result, address } => tr_load(m, LoadKind::I64S32, result, address as int, 1),
        Instruction::I64Load32sOffset16 { result, ptr, offset } => match m.read(ptr) {
            Some(p) => tr_load(m, LoadKind::I64S32, result, lo32(p) + offset, 1),
            None => u_trap(m),
        },
        Instruction::I64Load32u { result, ptr } => match (fetch_at(code, m, m.ip() + 1), m.read(ptr)) {
            (Some(Instruction::Const32 { value }), Some(p)) => tr_load(
                m,
                LoadKind::I64U32,
                result,
                lo32(p) + value,
                2,
            ),
            _ => u_trap(m),
        },
        Instruction::I64Load32uAt { result, address } => tr_load(m, LoadKind::I64U32, result, address as int, 1),
        Instruction::I64Load32uOffset16 { result, ptr, offset } => match m.read(ptr) {
            Some(p) => tr_load(m, LoadKind::I64U32, result, lo32(p) + offset, 1),
            None => u_trap(m),
        },
        Instruction::I32Store { ptr, value } => match (fetch_at(code, m, m.ip() + 1), m.read(ptr), m.read(value)) {
            (Some(Instruction::Const32 { value: off }), Some(p), Some(v)) => tr_store(
                m,
                4,
                lo32(p) + off,
                v,
                2,
            ),
            _ => u_trap(m),
        },
        Instruction::I32StoreOffset16 { ptr, offset, value } => match (m.read(ptr), m.read(value)) {
            (Some(p), Some(v)) => tr_store(m, 4, lo32(p) + offset, v, 1),
            _ => u_trap(m),
        },
        Instruction::I32StoreAt { address, value } => match m.read(value) {
            Some(v) => tr_store(m, 4, address as int, v, 1),
            None => u_trap(m),
        },
        Instruction::I32Store8 { ptr, value } => match (fetch_at(code, m, m.ip() + 1), m.read(ptr), m.read(value)) {
            (Some(Instruction::Const32 { value: off }), Some(p), Some(v)) => tr_store(
                m,
                1,
                lo32(p) + off,
                v,
                2,
            ),
            _ => u_trap(m),
        },
        Instruction::I32Store8Offset16 { ptr, offset, value } => match (m.read(ptr), m.read(value)) {
            (Some(p), Some(v)) => tr_store(m, 1, lo32(p) + offset, v, 1),
            _ => u_trap(m),
        },
        Instruction::I32Store8At { address, value } => match m.read(value) {
            Some(v) => tr_store(m, 1, address as int, v, 1),
            None => u_trap(m),
        },
        Instruction::I32Store16 { ptr, value } => match (fetch_at(code, m, m.ip() + 1), m.read(ptr), m.read(value)) {
            (Some(Instruction::Const32 { value: off }), Some(p), Some(v)) => tr_store(
                m,
                2,
                lo32(p) + off,
                v,
                2,
            ),
            _ => u_trap(m),
        },
        Instruction::I32Store16Offset16 { ptr, offset, value } => match (m.read(ptr), m.read(value)) {
            (Some(p), Some(v)) => tr_store(m, 2, lo32(p) + offset, v, 1),
            _ => u_trap(m),
        },
        Instruction::I32Store16At { address, value } => match m.read(value) {
            Some(v) => tr_store(m, 2, address as int, v, 1),
            None => u_trap(m),
        },
        Instruction::I64Store { ptr, value } => match (fetch_at(code, m, m.ip() + 1), m.read(ptr), m.read(value)) {
            (Some(Instruction::Const32 { value: off }), Some(p), Some(v)) => tr_store(
                m,
                8,
                lo32(p) + off,
                v,
                2,
            ),
            _ => u_trap(m),
        },
        Instruction::I64StoreOffset16 { ptr, offset, value } => match (m.read(ptr), m.read(value)) {
            (Some(p), Some(v)) => tr_store(m, 8, lo32(p) + offset, v, 1),
            _ => u_trap(m),
        },
        Instruction::I64StoreAt { address, value } => match m.read(value) {
            Some(v) => tr_store(m, 8, address as int, v, 1),
            None => u_trap(m),
        },
        Instruction::I64Store8 { ptr, value } => match (fetch_at(code, m, m.ip() + 1), m.read(ptr), m.read(value)) {
            (Some(Instruction::Const32 { value: off }), Some(p), Some(v)) => tr_store(
                m,
                1,
                lo32(p) + off,
                v,
                2,
            ),
            _ => u_trap(m),
        },
        Instruction::I64Store8Offset16 { ptr, offset, value } => match (m.read(ptr), m.read(value)) {
            (Some(p), Some(v)) => tr_store(m, 1, lo32(p) + offset, v, 1),
            _ => u_trap(m),
        },
        Instruction::I64Store8At { address, value } => match m.read(value) {
            Some(v) => tr_store(m, 1, address as int, v, 1),
            None => u_trap(m),
        },
        Instruction::I64Store16 { ptr, value } => match (fetch_at(code, m, m.ip() + 1), m.read(ptr), m.read(value)) {
            (Some(Instruction::Const32 { value: off }), Some(p), Some(v)) => tr_store(
                m,
                2,
                lo32(p) + off,
                v,
                2,
            ),
            _ => u_trap(m),
        },
        Instruction::I64Store16Offset16 { ptr, offset, value } => match (m.read(ptr), m.read(value)) {
            (Some(p), Some(v)) => tr_store(m, 2, lo32(p) + offset, v, 1),
            _ => u_trap(m),
        },
        Instruction::I64Store16At { address, value } => match m.read(value) {
            Some(v) => tr_store(m, 2, address as int, v, 1),
            None => u_trap(m),
        },
        Instruction::I64Store32 { ptr, value } => match (fetch_at(code, m, m.ip() + 1), m.read(ptr), m.read(value)) {
            (Some(Instruction::Const32 { value: off }), Some(p), Some(v)) => tr_store(
                m,
                4,
                lo32(p) + off,
                v,
                2,
            ),
            _ => u_trap(m),
        },
        Instruction::I64Store32Offset16 { ptr, offset, value } => match (m.read(ptr), m.read(value)) {
            (Some(p), Some(v)) => tr_store(m, 4, lo32(p) + offset, v, 1),
            _ => u_trap(m),
        },
        Instruction::I64Store32At { address, value } => match m.read(value) {
            Some(v) => tr_store(m, 4, address as int, v, 1),
            None => u_trap(m),
        },
        Instruction::I32StoreOffset16Imm16 { ptr, offset, value } => match m.read(ptr) {
            Some(p) => tr_store(m, 4, lo32(p) + offset, sx16_32(value), 1),
            None => u_trap(m),
        },
        Instruction::I32StoreAtImm16 { address, value } => tr_store(m, 4, address as int, sx16_32(value), 1),
        Instruction::I64StoreOffset16Imm16 { ptr, offset, value } => match m.read(ptr) {
            Some(p) => tr_store(m, 8, lo32(p) + offset, sx16_64(value), 1),
            None => u_trap(m),
        },
        Instruction::I64StoreAtImm16 { address, value } => tr_store(m, 8, address as int, sx16_64(value), 1),
        Instruction::I32Add { result, lhs, rhs } => tr_binop(m, BinOp::I32Add, result, lhs, rhs),
        Instruction::I32Sub { result, lhs, rhs } => tr_binop(m, BinOp::I32Sub, result, lhs, rhs),
        Instruction::I32Mul { result, lhs, rhs } => tr_binop(m, BinOp::I32Mul, result, lhs, rhs),
        Instruction::I32And { result, lhs, rhs } => tr_binop(m, BinOp::I32And, result, lhs, rhs),
        Instruction::I32AndEqz { result, lhs, rhs } => tr_binop(m, BinOp::I32AndEqz, result, lhs, rhs),
        Instruction::I32Or { result, lhs, rhs } => tr_binop(m, BinOp::I32Or, result, lhs, rhs),
        Instruction::I32OrEqz { result, lhs, rhs } => tr_binop(m, BinOp::I32OrEqz, result, lhs, rhs),
        Instruction::I32Xor { result, lhs, rhs } => tr_binop(m, BinOp::I32Xor, result, lhs, rhs),
        Instruction::I32XorEqz { result, lhs, rhs } => tr_binop(m, BinOp::I32XorEqz, result, lhs, rhs),
        Instruction::I32Shl { result, lhs, rhs } => tr_binop(m, BinOp::I32Shl, result, lhs, rhs),
        Instruction::I32ShrS { result, lhs, rhs } => tr_binop(m, BinOp::I32ShrS, result, lhs, rhs),
        Instruction::I32ShrU { result, lhs, rhs } => tr_binop(m, BinOp::I32ShrU, result, lhs, rhs),
        Instruction::I32Rotl { result, lhs, rhs } => tr_binop(m, BinOp::I32Rotl, result, lhs, rhs),
        Instruction::I32Rotr { result, lhs, rhs } => tr_binop(m, BinOp::I32Rotr, result, lhs, rhs),
        Instruction::I32AddImm16 { result, lhs, rhs } => tr_binop_imm(m, BinOp::I32Add, result, lhs, sx16_32(rhs)),
        Instruction::I32MulImm16 { result, lhs, rhs } => tr_binop_imm(m, BinOp::I32Mul, result, lhs, sx16_32(rhs)),
        Instruction::I32AndImm16 { result, lhs, rhs } => tr_binop_imm(m, BinOp::I32And, result, lhs, sx16_32(rhs)),
        Instruction::I32AndEqzImm16 { result, lhs, rhs } => tr_binop_imm(m, BinOp::I32AndEqz, result, lhs, sx16_32(rhs)),
        Instruction::I32OrImm16 { result, lhs, rhs } => tr_binop_imm(m, BinOp::I32Or, result, lhs, sx16_32(rhs)),
        Instruction::I32OrEqzImm16 { result, lhs, rhs } => tr_binop_imm(m, BinOp::I32OrEqz, result, lhs, sx16_32(rhs)),
        Instruction::I32XorImm16 { result, lhs, rhs } => tr_binop_imm(m, BinOp::I32Xor, result, lhs, sx16_32(rhs)),
        Instruction::I32XorEqzImm16 { result, lhs, rhs } => tr_binop_imm(m, BinOp::I32XorEqz, result, lhs, sx16_32(rhs)),
        Instruction::I32ShlImm { result, lhs, rhs } => tr_binop_imm(m, BinOp::I32Shl, result, lhs, sx16_32(rhs)),
        Instruction::I32ShrSImm { result, lhs, rhs } => tr_binop_imm(m, BinOp::I32ShrS, result, lhs, sx16_32(rhs)),
        Instruction::I32ShrUImm { result, lhs, rhs } => tr_binop_imm(m, BinOp::I32ShrU, result, lhs, sx16_32(rhs)),
        Instruction::I32RotlImm { result, lhs, rhs } => tr_binop_imm(m, BinOp::I32Rotl, result, lhs, sx16_32(rhs)),
        Instruction::I32RotrImm { result, lhs, rhs } => tr_binop_imm(m, BinOp::I32Rotr, result, lhs, sx16_32(rhs)),
        Instruction::I32SubImm16Rev { result, lhs, rhs } => tr_binop_imm_rev(m, BinOp::I32Sub, result, sx16_32(lhs), rhs),
        Instruction::I32ShlImm16Rev { result, lhs, rhs } => tr_binop_imm_rev(m, BinOp::I32Shl, result, sx16_32(lhs), rhs),
        Instruction::I32ShrSImm16Rev { result, lhs, rhs } => tr_binop_imm_rev(m, BinOp::I32ShrS, result, sx16_32(lhs), rhs),
        Instruction::I32ShrUImm16Rev { result, lhs, rhs } => tr_binop_imm_rev(m, BinOp::I32ShrU, result, sx16_32(lhs), rhs),
        Instruction::I32RotlImm16Rev { result, lhs, rhs } => tr_binop_imm_rev(m, BinOp::I32Rotl, result, sx16_32(lhs), rhs),
        Instruction::I32RotrImm16Rev { result, lhs, rhs } => tr_binop_imm_rev(m, BinOp::I32Rotr, result, sx16_32(lhs), rhs),
        Instruction::I32DivS { result, lhs, rhs } => tr_divop(m, DivOp::I32DivS, result, lhs, rhs),
        Instruction::I32DivSImm16 { result, lhs, rhs } => tr_divop_imm(m, DivOp::I32DivS, result, lhs, sx16_32(rhs)),
        Instruction::I32DivSImm16Rev { result, lhs, rhs } => tr_divop_imm_rev(m, DivOp::I32DivS, result, sx16_32(lhs), rhs),
        Instruction::I32DivU { result, lhs, rhs } => tr_divop(m, DivOp::I32DivU, result, lhs, rhs),
        Instruction::I32DivUImm16 { result, lhs, rhs } => tr_divop_imm(m, DivOp::I32DivU, result, lhs, sx16_32(rhs)),
        Instruction::I32DivUImm16Rev { result, lhs, rhs } => tr_divop_imm_rev(m, DivOp::I32DivU, result, sx16_32(lhs), rhs),
        Instruction::I32RemS { result, lhs, rhs } => tr_divop(m, DivOp::I32RemS, result, lhs, rhs),
        Instruction::I32RemSImm16 { result, lhs, rhs } => tr_divop_imm(m, DivOp::I32RemS, result, lhs, sx16_32(rhs)),
        Instruction::I32RemSImm16Rev { result, lhs, rhs } => tr_divop_imm_rev(m, DivOp::I32RemS, result, sx16_32(lhs), rhs),
        Instruction::I32RemU { result, lhs, rhs } => tr_divop(m, DivOp::I32RemU, result, lhs, rhs),
        Instruction::I32RemUImm16 { result, lhs, rhs } => tr_divop_imm(m, DivOp::I32RemU, result, lhs, sx16_32(rhs)),
        Instruction::I32RemUImm16Rev { result, lhs, rhs } => tr_divop_imm_rev(m, DivOp::I32RemU, result, sx16_32(lhs), rhs),
        Instruction::I32Eq { result, lhs, rhs } => tr_cmp(m, Comparator::I32Eq, result, lhs, rhs),
        Instruction::I32EqImm16 { result, lhs, rhs } => tr_cmp_imm(m, Comparator::I32Eq, result, lhs, sx16_32(rhs)),
        Instruction::I32Ne { result, lhs, rhs } => tr_cmp(m, Comparator::I32Ne, result, lhs, rhs),
        Instruction::I32NeImm16 { result, lhs, rhs } => tr_cmp_imm(m, Comparator::I32Ne, result, lhs, sx16_32(rhs)),
        Instruction::I32LtS { result, lhs, rhs } => tr_cmp(m, Comparator::I32LtS, result, lhs, rhs),
        Instruction::I32LtSImm16 { result, lhs, rhs } => tr_cmp_imm(m, Comparator::I32LtS, result, lhs, sx16_32(rhs)),
        Instruction::I32LtU { result, lhs, rhs } => tr_cmp(m, Comparator::I32LtU, result, lhs, rhs),
        Instruction::I32LtUImm16 { result, lhs, rhs } => tr_cmp_imm(m, Comparator::I32LtU, result, lhs, sx16_32(rhs)),
        Instruction::I32LeS { result, lhs, rhs } => tr_cmp(m, Comparator::I32LeS, result, lhs, rhs),
        Instruction::I32LeSImm16 { result, lhs, rhs } => tr_cmp_imm(m, Comparator::I32LeS, result, lhs, sx16_32(rhs)),
        Instruction::I32LeU { result, lhs, rhs } => tr_cmp(m, Comparator::I32LeU, result, lhs, rhs),
        Instruction::I32LeUImm16 { result, lhs, rhs } => tr_cmp_imm(m, Comparator::I32LeU, result, lhs, sx16_32(rhs)),
        Instruction::I32GtS { result, lhs, rhs } => tr_cmp(m, Comparator::I32GtS, result, lhs, rhs),
        Instruction::I32GtSImm16 { result, lhs, rhs } => tr_cmp_imm(m, Comparator::I32GtS, result, lhs, sx16_32(rhs)),
        Instruction::I32GtU { result, lhs, rhs } => tr_cmp(m, Comparator::I32GtU, result, lhs, rhs),
        Instruction::I32GtUImm16 { result, lhs, rhs } => tr_cmp_imm(m, Comparator::I32GtU, result, lhs, sx16_32(rhs)),
        Instruction::I32GeS { result, lhs, rhs } => tr_cmp(m, Comparator::I32GeS, result, lhs, rhs),
        Instruction::I32GeSImm16 { result, lhs, rhs } => tr_cmp_imm(m, Comparator::I32GeS, result, lhs, sx16_32(rhs)),
        Instruction::I32GeU { result, lhs, rhs } => tr_cmp(m, Comparator::I32GeU, result, lhs, rhs),
        Instruction::I32GeUImm16 { result, lhs, rhs } => tr_cmp_imm(m, Comparator::I32GeU, result, lhs, sx16_32(rhs)),
        Instruction::I64Add { result, lhs, rhs } => tr_binop(m, BinOp::I64Add, result, lhs, rhs),
        Instruction::I64Sub { result, lhs, rhs } => tr_binop(m, BinOp::I64Sub, result, lhs, rhs),
        Instruction::I64Mul { result, lhs, rhs } => tr_binop(m, BinOp::I64Mul, result, lhs, rhs),
        Instruction::I64And { result, lhs, rhs } => tr_binop(m, BinOp::I64And, result, lhs, rhs),
        Instruction::I64Or { result, lhs, rhs } => tr_binop(m, BinOp::I64Or, result, lhs, rhs),
        Instruction::I64Xor { result, lhs, rhs } => tr_binop(m, BinOp::I64Xor, result, lhs, rhs),
        Instruction::I64Shl { result, lhs, rhs } => tr_binop(m, BinOp::I64Shl, result, lhs, rhs),
        Instruction::I64ShrS { result, lhs, rhs } => tr_binop(m, BinOp::I64ShrS, result, lhs, rhs),
        Instruction::I64ShrU { result, lhs, rhs } => tr_binop(m, BinOp::I64ShrU, result, lhs, rhs),
        Instruction::I64Rotl { result, lhs, rhs } => tr_binop(m, BinOp::I64Rotl, result, lhs, rhs),
        Instruction::I64Rotr { result, lhs, rhs } => tr_binop(m, BinOp::I64Rotr, result, lhs, rhs),
        Instruction::I64AddImm16 { result, lhs, rhs } => tr_binop_imm(m, BinOp::I64Add, result, lhs, sx16_64(rhs)),
        Instruction::I64MulImm16 { result, lhs, rhs } => tr_binop_imm(m, BinOp::I64Mul, result, lhs, sx16_64(rhs)),
        Instruction::I64AndImm16 { result, lhs, rhs } => tr_binop_imm(m, BinOp::I64And, result, lhs, sx16_64(rhs)),
        Instruction::I64OrImm16 { result, lhs, rhs } => tr_binop_imm(m, BinOp::I64Or, result, lhs, sx16_64(rhs)),
        Instruction::I64XorImm16 { result, lhs, rhs } => tr_binop_imm(m, BinOp::I64Xor, result, lhs, sx16_64(rhs)),
        Instruction::I64ShlImm { result, lhs, rhs } => tr_binop_imm(m, BinOp::I64Shl, result, lhs, sx16_64(rhs)),
        Instruction::I64ShrSImm { result, lhs, rhs } => tr_binop_imm(m, BinOp::I64ShrS, result, lhs, sx16_64(rhs)),
        Instruction::I64ShrUImm { result, lhs, rhs } => tr_binop_imm(m, BinOp::I64ShrU, result, lhs, sx16_64(rhs)),
        Instruction::I64RotlImm { result, lhs, rhs } => tr_binop_imm(m, BinOp::I64Rotl, result, lhs, sx16_64(rhs)),
        Instruction::I64RotrImm { result, lhs, rhs } => tr_binop_imm(m, BinOp::I64Rotr, result, lhs, sx16_64(rhs)),
        Instruction::I64SubImm16Rev { result, lhs, rhs } => tr_binop_imm_rev(m, BinOp::I64Sub, result, sx16_64(lhs), rhs),
        Instruction::I64ShlImm16Rev { result, lhs, rhs } => tr_binop_imm_rev(m, BinOp::I64Shl, result, sx16_64(lhs), rhs),
        Instruction::I64ShrSImm16Rev { result, lhs, rhs } => tr_binop_imm_rev(m, BinOp::I64ShrS, result, sx16_64(lhs), rhs),
        Instruction::I64ShrUImm16Rev { result, lhs, rhs } => tr_binop_imm_rev(m, BinOp::I64ShrU, result, sx16_64(lhs), rhs),
        Instruction::I64RotlImm16Rev { result, lhs, rhs } => tr_binop_imm_rev(m, BinOp::I64Rotl, result, sx16_64(lhs), rhs),
        Instruction::I64RotrImm16Rev { result, lhs, rhs } => tr_binop_imm_rev(m, BinOp::I64Rotr, result, sx16_64(lhs), rhs),
        Instruction::I64DivS { result, lhs, rhs } => tr_divop(m, DivOp::I64DivS, result, lhs, rhs),
        Instruction::I64DivSImm16 { result, lhs, rhs } => tr_divop_imm(m, DivOp::I64DivS, result, lhs, sx16_64(rhs)),
        Instruction::I64DivSImm16Rev { result, lhs, rhs } => tr_divop_imm_rev(m, DivOp::I64DivS, result, sx16_64(lhs), rhs),
        Instruction::I64DivU { result, lhs, rhs } => tr_divop(m, DivOp::I64DivU, result, lhs, rhs),
        Instruction::I64DivUImm16 { result, lhs, rhs } => tr_divop_imm(m, DivOp::I64DivU, result, lhs, sx16_64(rhs)),
        Instruction::I64DivUImm16Rev { result, lhs, rhs } => tr_divop_imm_rev(m, DivOp::I64DivU, result, sx16_64(lhs), rhs),
        Instruction::I64RemS { result, lhs, rhs } => tr_divop(m, DivOp::I64RemS, result, lhs, rhs),
        Instruction::I64RemSImm16 { result, lhs, rhs } => tr_divop_imm(m, DivOp::I64RemS, result, lhs, sx16_64(rhs)),
        Instruction::I64RemSImm16Rev { result, lhs, rhs } => tr_divop_imm_rev(m, DivOp::I64RemS, result, sx16_64(lhs), rhs),
        Instruction::I64RemU { result, lhs, rhs } => tr_divop(m, DivOp::I64RemU, result, lhs, rhs),
        Instruction::I64RemUImm16 { result, lhs, rhs } => tr_divop_imm(m, DivOp::I64RemU, result, lhs, sx16_64(rhs)),
        Instruction::I64RemUImm16Rev { result, lhs, rhs } => tr_divop_imm_rev(m, DivOp::I64RemU, result, sx16_64(lhs), rhs),
        Instruction::I64Eq { result, lhs, rhs } => tr_cmp(m, Comparator::I64Eq, result, lhs, rhs),
        Instruction::I64EqImm16 { result, lhs, rhs } => tr_cmp_imm(m, Comparator::I64Eq, result, lhs, sx16_64(rhs)),
        Instruction::I64Ne { result, lhs, rhs } => tr_cmp(m, Comparator::I64Ne, result, lhs, rhs),
        Instruction::I64NeImm16 { result, lhs, rhs } => tr_cmp_imm(m, Comparator::I64Ne, result, lhs, sx16_64(rhs)),
        Instruction::I64LtS { result, lhs, rhs } => tr_cmp(m, Comparator::I64LtS, result, lhs, rhs),
        Instruction::I64LtSImm16 { result, lhs, rhs } => tr_cmp_imm(m, Comparator::I64LtS, result, lhs, sx16_64(rhs)),
        Instruction::I64LtU { result, lhs, rhs } => tr_cmp(m, Comparator::I64LtU, result, lhs, rhs),
        Instruction::I64LtUImm16 { result, lhs, rhs } => tr_cmp_imm(m, Comparator::I64LtU, result, lhs, sx16_64(rhs)),
        Instruction::I64LeS { result, lhs, rhs } => tr_cmp(m, Comparator::I64LeS, result, lhs, rhs),
        Instruction::I64LeSImm16 { result, lhs, rhs } => tr_cmp_imm(m, Comparator::I64LeS, result, lhs, sx16_64(rhs)),
        Instruction::I64LeU { result, lhs, rhs } => tr_cmp(m, Comparator::I64LeU, result, lhs, rhs),
        Instruction::I64LeUImm16 { result, lhs, rhs } => tr_cmp_imm(m, Comparator::I64LeU, result, lhs, sx16_64(rhs)),
        Instruction::I64GtS { result, lhs, rhs } => tr_cmp(m, Comparator::I64GtS, result, lhs, rhs),
        Instruction::I64GtSImm16 { result, lhs, rhs } => tr_cmp_imm(m, Comparator::I64GtS, result, lhs, sx16_64(rhs)),
        Instruction::I64GtU { result, lhs, rhs } => tr_cmp(m, Comparator::I64GtU, result, lhs, rhs),
        Instruction::I64GtUImm16 { result, lhs, rhs } => tr_cmp_imm(m, Comparator::I64GtU, result, lhs, sx16_64(rhs)),
        Instruction::I64GeS { result, lhs, rhs } => tr_cmp(m, Comparator::I64GeS, result, lhs, rhs),
        Instruction::I64GeSImm16 { result, lhs, rhs } => tr_cmp_imm(m, Comparator::I64GeS, result, lhs, sx16_64(rhs)),
        Instruction::I64GeU { result, lhs, rhs } => tr_cmp(m, Comparator::I64GeU, result, lhs, rhs),
        Instruction::I64GeUImm16 { result, lhs, rhs } => tr_cmp_imm(m, Comparator::I64GeU, result, lhs, sx16_64(rhs)),
        Instruction::I32Clz { result, input } => tr_unop(m, UnOp::I32Clz, result, input),
        Instruction::I32Ctz { result, input } => tr_unop(m, UnOp::I32Ctz, result, input),
        Instruction::I32Popcnt { result, input } => tr_unop(m, UnOp::I32Popcnt, result, input),
        Instruction::I64Clz { result, input } => tr_unop(m, UnOp::I64Clz, result, input),
        Instruction::I64Ctz { result, input } => tr_unop(m, UnOp::I64Ctz, result, input),
        Instruction::I64Popcnt { result, input } => tr_unop(m, UnOp::I64Popcnt, result, input),
        Instruction::I32WrapI64 { result, input } => tr_unop(m, UnOp::I32WrapI64, result, input),
        Instruction::I32Extend8S { result, input } => tr_unop(m, UnOp::I32Extend8S, result, input),
        Instruction::I32Extend16S { result, input } => tr_unop(m, UnOp::I32Extend16S, result, input),
        Instruction::I64Extend8S { result, input } => tr_unop(m, UnOp::I64Extend8S, result, input),
        Instruction::I64Extend16S { result, input } => tr_unop(m, UnOp::I64Extend16S, result, input),
        Instruction::I64Extend32S { result, input } => tr_unop(m, UnOp::I64Extend32S, result, input),
        Instruction::MemorySize { result } => tr_mem_size(m, result),
        Instruction::MemoryGrow { result, delta } => match m.read(delta) {
            Some(d) => tr_mem_grow(m, result, lo32(d) as int),
            None => u_trap(m),
        },
        Instruction::MemoryGrowBy { result, delta } => tr_mem_grow(m, result, delta as int),
        Instruction::MemoryCopy { dst, src, len } => match (m.read(dst), m.read(src), m.read(len)) {
            (Some(d), Some(s), Some(l)) => tr_mem_copy(m, lo32(d) as int, lo32(s) as int, lo32(l) as int),
            _ => u_trap(m),
        },
        Instruction::MemoryCopyExact { dst, src, len } => match (m.read(dst), m.read(src)) {
            (Some(d), Some(s)) => tr_mem_copy(m, lo32(d) as int, lo32(s) as int, len as int),
            _ => u_trap(m),
        },
        Instruction::MemoryCopyFromTo { dst, src, len } => match m.read(len) {
            Some(l) => tr_mem_copy(m, dst as int, src as int, lo32(l) as int),
            None => u_trap(m),
        },
        Instruction::MemoryCopyFromToExact { dst, src, len } => tr_mem_copy(m, dst as int, src as int, len as int),
        Instruction::MemoryFill { dst, value, len } => match (m.read(dst), m.read(value), m.read(len)) {
            (Some(d), Some(v), Some(l)) => tr_mem_fill(m, lo32(d) as int, (lo32(v) % 0x100) as u8, lo32(l) as int),
            _ => u_trap(m),
        },
        Instruction::MemoryFillImm { dst, value, len } => match (m.read(dst), m.read(len)) {
            (Some(d), Some(l)) => tr_mem_fill(m, lo32(d) as int, value, lo32(l) as int),
            _ => u_trap(m),
        },
        Instruction::MemoryFillImmExact { dst, value, len } => match m.read(dst) {
            Some(d) => tr_mem_fill(m, lo32(d) as int, value, len as int),
            None => u_trap(m),
        },
        Instruction::MemoryFillAtImmExact { dst, value, len } => tr_mem_fill(m, dst as int, value, len as int),
        Instruction::MemoryInit { dst, src, len, segment } => match (m.read(dst), m.read(src), m.read(len)) {
            (Some(d), Some(s), Some(l)) => tr_mem_init(m, segment, lo32(d) as int, lo32(s) as int, lo32(l) as int),
            _ => u_trap(m),
        },
        Instruction::MemoryInitExact { dst, src, len, segment } => match (m.read(dst), m.read(src)) {
            (Some(d), Some(s)) => tr_mem_init(m, segment, lo32(d) as int, lo32(s) as int, len as int),
            _ => u_trap(m),
        },
        Instruction::MemoryInitFromToExact { dst, src, len, segment } => tr_mem_init(m, segment, dst as int, src as int, len as int),
        Instruction::DataDrop { segment } => tr_data_drop(m, segment),
        Instruction::TableGet { result, index, table } => match m.read(index) {
            Some(i) => tr_table_get(m, result, table, lo32(i) as int),
            None => u_trap(m),
        },
        Instruction::TableGetImm { result, index, table } => tr_table_get(m, result, table, index as int),
        Instruction::TableSize { result, table } => tr_table_size(m, result, table),
        Instruction::TableSet { index, value, table } => match (m.read(index), m.read(value)) {
            (Some(i), Some(v)) => tr_table_set(m, table, lo32(i) as int, v),
            _ => u_trap(m),
        },
        Instruction::TableSetAt { index, value, table } => match m.read(value) {
            Some(v) => tr_table_set(m, table, index as int, v),
            None => u_trap(m),
        },
        Instruction::TableCopy { dst, src, len, dst_table, src_table } => match (m.read(dst), m.read(src), m.read(len)) {
            (Some(d), Some(s), Some(l)) => tr_table_copy(m, dst_table, src_table, lo32(d) as int, lo32(s) as int, lo32(l) as int),
            _ => u_trap(m),
        },
        Instruction::TableCopyExact { dst, src, len, dst_table, src_table } => match (m.read(dst), m.read(src)) {
            (Some(d), Some(s)) => tr_table_copy(m, dst_table, src_table, lo32(d) as int, lo32(s) as int, len as int),
            _ => u_trap(m),
        },
        Instruction::TableInit { dst, src, len, table, segment } => match (m.read(dst), m.read(src), m.read(len)) {
            (Some(d), Some(s), Some(l)) => tr_table_init(m, table, segment, lo32(d) as int, lo32(s) as int, lo32(l) as int),
            _ => u_trap(m),
        },
        Instruction::TableInitExact { dst, src, len, table, segment } => match (m.read(dst), m.read(src)) {
            (Some(d), Some(s)) => tr_table_init(m, table, segment, lo32(d) as int, lo32(s) as int, len as int),
            _ => u_trap(m),
        },
        Instruction::TableFill { dst, len, value, table } => match (m.read(dst), m.read(len), m.read(value)) {
            (Some(d), Some(l), Some(v)) => tr_table_fill(m, table, lo32(d) as int, v, lo32(l) as int),
            _ => u_trap(m),
        },
        Instruction::TableFillExact { dst, len, value, table } => match m.read(value) {
            Some(v) => tr_table_fill(m, table, dst as int, v, len as int),
            None => u_trap(m),
        },
        Instruction::TableGrow { result, delta, value, table } => match (m.read(delta), m.read(value)) {
            (Some(d), Some(v)) => tr_table_grow(m, result, table, lo32(d) as int, v),
            _ => u_trap(m),
        },
        Instruction::TableGrowImm { result, delta, value, table } => match m.read(value) {
            Some(v) => tr_table_grow(m, result, table, delta as int, v),
            None => u_trap(m),
        },
        Instruction::ElemDrop { segment } => tr_elem_drop(m, segment),
        Instruction::Register { .. } => u_trap(m),
        Instruction::Register2 { .. } => u_trap(m),
        Instruction::Register3 { .. } => u_trap(m),
        Instruction::RegisterList { .. } => u_trap(m),
        Instruction::RegisterAndImm32 { .. } => u_trap(m),
        Instruction::Const32 { .. } => u_trap(m),
        Instruction::BranchTableTarget { .. } => u_trap(m),
        Instruction::BranchTableTargetNonOverlapping { .. } => u_trap(m),
        Instruction::CallIndirectParams { .. } => u_trap(m),
    }
}

/// One step of the machine: an empty call stack has returned; otherwise the
/// current word is fetched (a fetch past the body traps) and executed.
pub open spec fn step(code: CodeV, m: Mach) -> Step {
    if m.frames.len() == 0 {
        Step::Returned(m)
    } else {
        match fetch_at(code, m, m.ip()) {
            None => u_trap(m),
            Some(instr) => step_instr(code, m, instr),
        }
    }
}

/// At most `n` steps from `m`: `Running` when the budget ran out first,
/// else the exit the machine reached.
pub open spec fn run(code: CodeV, m: Mach, n: nat) -> Step
    decreases n,
{
    if n == 0 {
        Step::Running(m)
    } else {
        match step(code, m) {
            Step::Running(m2) => run(code, m2, (n - 1) as nat),
            Step::Returned(m2) => Step::Returned(m2),
            Step::Host(m2, d) => Step::Host(m2, d),
            Step::Trap(m2, c) => Step::Trap(m2, c),
        }
    }
}

/// The state a step outcome carries.
pub open spec fn running_of(s: Step) -> Mach {
    match s {
        Step::Running(m) => m,
        Step::Returned(m) => m,
        Step::Host(m, d) => m,
        Step::Trap(m, c) => m,
    }
}

/// Extending a run that is still `Running` by one step applies `step` to
/// its final state.
#[verifier::rlimit(100)]
pub proof fn lemma_run_unfold_back(code: CodeV, m: Mach, n: nat)
    requires
        run(code, m, n) matches Step::Running(_),
    ensures
        run(code, m, n + 1) == step(code, running_of(run(code, m, n))),
    decreases n,
{
    if n == 0 {
        assert(running_of(run(code, m, 0)) == m);
        match step(code, m) {
            Step::Running(m2) => {
                assert(run(code, m, 1) == run(code, m2, 0));
            },
            Step::Returned(m2) => {
                assert(run(code, m, 1) == Step::Returned(m2));
            },
            Step::Host(m2, d) => {
                assert(run(code, m, 1) == Step::Host(m2, d));
            },
            Step::Trap(m2, c) => {
                assert(run(code, m, 1) == Step::Trap(m2, c));
            },
        }
    } else {
        match step(code, m) {
            Step::Running(m2) => {
                lemma_run_unfold_back(code, m2, (n - 1) as nat);
                assert(run(code, m, n) == run(code, m2, (n - 1) as nat));
                assert(run(code, m, n + 1) == run(code, m2, n));
            },
            _ => {},
        }
    }
}

/// A run that has exited keeps its exit whatever the remaining budget.
#[verifier::rlimit(100)]
pub proof fn lemma_run_exit_stable(code: CodeV, m: Mach, k: nat, n: nat)
    requires
        k <= n,
        !(run(code, m, k) matches Step::Running(_)),
    ensures
        run(code, m, n) == run(code, m, k),
    decreases k,
{
    if k == 0 {
    } else {
        match step(code, m) {
            Step::Running(m2) => {
                lemma_run_exit_stable(code, m2, (k - 1) as nat, (n - 1) as nat);
            },
            _ => {},
        }
    }
}

} // verus!
