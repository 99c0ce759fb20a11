//! The executor: the dispatch loop and its handlers.
//!
//! The executor caches the hot state of the topmost frame — the instruction
//! pointer `ip`, the register window base `sp`, the executing function and
//! body, and the cached instance — and drives the dispatch loop. Every
//! handler is proved to perform exactly one `step` of the specification
//! machine, and `execute_instrs` is proved to realise `run`.

mod arith;
mod branch;
mod call;
mod copy;
mod dispatch;
mod global;
mod load;
mod memory;
mod ret;
mod storeop;
mod table;

pub use dispatch::{family_bulk, family_i32, family_i64, family_load_store, family_main};

use vstd::prelude::*;
use crate::bytecode::{Instruction, Reg};
use crate::code::{CodeMap, FuncKind};
use crate::machine::{args_decode, fetch_at, read_regs_v, run, step, tr_consume_fuel, tr_ref_func, Mach, Step};
use crate::machine::{lemma_run_exit_stable, lemma_run_unfold_back, running_of};
use crate::seqs::vec_dup;
use crate::stack::{CallFrame, Stack};
use crate::store::{inst_at, Instance, Store};
use crate::trap::TrapCode;

verus! {

/// A paused host-function invocation, handed to the embedder: the function
/// to run, the head of the register span (in the window of the now-topmost
/// frame) that receives its results, and its argument values.
pub struct HostCall {
    /// Code-map index of the host function.
    pub func: u32,
    /// Head of the result span.
    pub results: Reg,
    /// The argument values.
    pub args: Vec<u64>,
}

impl View for HostCall {
    type V = crate::machine::HostCallV;

    open spec fn view(&self) -> crate::machine::HostCallV {
        crate::machine::HostCallV { func: self.func, results: self.results, args: self.args@ }
    }
}

/// What a handler tells the dispatch loop.
pub enum Ctl {
    /// Keep dispatching; the executor is still seated on the same frame.
    Next,
    /// Keep dispatching, but the call stack changed: the loop re-seats the
    /// executor (and rebuilds the cached instance) on the new top frame.
    Changed,
    /// The root frame returned.
    Returned,
    /// Pause for a host call.
    Host(HostCall),
}

/// How `execute_instrs` came back without a trap.
pub enum Signal {
    /// The root frame returned; its results sit in its result span.
    Returned,
    /// The step budget ran out; calling again resumes execution.
    Pending,
    /// A host call was reached; the embedder performs it, writes the
    /// results back, and calls again to resume.
    Host(HostCall),
}

/// The execution context of one dispatch loop.
pub struct Executor {
    /// The current instruction pointer within the executing body.
    pub ip: usize,
    /// The register window base of the executing frame: a register `r`
    /// lives at `sp + r` on the value stack.
    pub sp: usize,
    /// The executing function (an index into the code map).
    pub func: u32,
    /// The executing body (an index into the body table).
    pub body: u32,
    /// The cached instance: a copy of the executing instance's handle
    /// tables, refreshed on every cross-instance transition.
    pub cache: Instance,
}

/// The machine state an executor-free store and stack denote.
pub open spec fn mach_of(store: Store, stack: Stack) -> Mach {
    Mach {
        store: store@,
        values: stack.values@,
        frames: stack.frames@,
        limit_values: stack.limit_values as int,
        limit_frames: stack.limit_frames as int,
    }
}

impl Executor {
    /// The executor agrees with the topmost frame: `sp` is its base, the
    /// cached function and body are the ones it runs, and the cached
    /// instance is coherent with it.
    pub open spec fn wf(self, code: CodeMap, store: Store, stack: Stack) -> bool {
        &&& stack.frames@.len() > 0
        &&& self.sp == stack.frames@.last().base
        &&& self.func == stack.frames@.last().func
        &&& self.func < code.funcs@.len()
        &&& code.funcs@[self.func as int].kind == (FuncKind::Internal { body: self.body })
        &&& self.body < code.bodies@.len()
        &&& self.cache@ == inst_at(store@, stack.frames@.last().instance as int)
    }

    /// The machine state the executor denotes: the stack, with the cached
    /// `ip` written into the topmost frame (or the stack as it stands, when
    /// no frame is live).
    pub open spec fn mach_run(self, store: Store, stack: Stack) -> Mach {
        if stack.frames@.len() == 0 {
            mach_of(store, stack)
        } else {
            Mach {
                store: store@,
                values: stack.values@,
                frames: stack.frames@.update(
                    stack.frames@.len() - 1,
                    CallFrame { instr_ptr: self.ip, ..stack.frames@.last() },
                ),
                limit_values: stack.limit_values as int,
                limit_frames: stack.limit_frames as int,
            }
        }
    }
}

/// The shared postcondition of every handler: its result and the new state
/// realise exactly one `step` from `m0`.
pub open spec fn handler_post(
    code: CodeMap,
    m0: Mach,
    ex: Executor,
    store: Store,
    stack: Stack,
    r: Result<Ctl, TrapCode>,
) -> bool {
    match r {
        Ok(Ctl::Next) => step(code@, m0) == Step::Running(ex.mach_run(store, stack)) && ex.wf(
            code,
            store,
            stack,
        ),
        Ok(Ctl::Changed) => step(code@, m0) == Step::Running(mach_of(store, stack))
            && stack.frames@.len() > 0,
        Ok(Ctl::Returned) => step(code@, m0) == Step::Returned(mach_of(store, stack))
            && stack.frames@.len() == 0,
        Ok(Ctl::Host(d)) => step(code@, m0) == Step::Host(mach_of(store, stack), d@),
        Err(c) => step(code@, m0) == Step::Trap(ex.mach_run(store, stack), c),
    }
}

/// Builds the cached instance for instance handle `inst`: a copy of its
/// handle tables, or an empty cache for an out-of-range handle.
pub fn make_cache(store: &Store, inst: u32) -> (c: Instance)
    ensures
        c@ == inst_at(store@, inst as int),
{
    if (inst as usize) < store.instances.len() {
        let i = &store.instances[inst as usize];
        Instance {
            memories: vec_dup(&i.memories),
            tables: vec_dup(&i.tables),
            globals: vec_dup(&i.globals),
            funcs: vec_dup(&i.funcs),
            types: vec_dup(&i.types),
            datas: vec_dup(&i.datas),
            elems: vec_dup(&i.elems),
        }
    } else {
        Instance {
            memories: Vec::new(),
            tables: Vec::new(),
            globals: Vec::new(),
            funcs: Vec::new(),
            types: Vec::new(),
            datas: Vec::new(),
            elems: Vec::new(),
        }
    }
}

impl Executor {
    /// Seats an executor on the topmost frame: its stored instruction
    /// pointer, its base and its function, with the cache already built.
    /// Yields nothing when the frame's function is not a compiled one:
    /// the instruction stream is then corrupt.
    pub fn new(stack: &Stack, code: &CodeMap, cache: Instance) -> (r: Option<Executor>)
        requires
            stack.frames@.len() > 0,
        ensures
            ({
                let top = stack.frames@.last();
                if top.func < code.funcs@.len() && (code.funcs@[top.func as int].kind matches
                    FuncKind::Internal { body } && body < code.bodies@.len()) {
                    r matches Some(ex) && ex.ip == top.instr_ptr && ex.sp == top.base && ex.func
                        == top.func && (code.funcs@[top.func as int].kind == (FuncKind::Internal {
                        body: ex.body,
                    })) && ex.cache == cache
                } else {
                    r is None
                }
            }),
    {
        let n = stack.frames.len();
        let top = stack.frames[n - 1];
        if (top.func as usize) < code.funcs.len() {
            match code.funcs[top.func as usize].kind {
                FuncKind::Internal { body } => {
                    if (body as usize) < code.bodies.len() {
                        Some(
                            Executor {
                                ip: top.instr_ptr,
                                sp: top.base,
                                func: top.func,
                                body,
                                cache,
                            },
                        )
                    } else {
                        None
                    }
                },
                FuncKind::Host { .. } => None,
            }
        } else {
            None
        }
    }

    /// The instruction word at `p` of the executing body, or nothing past
    /// its end.
    pub fn fetch_word(&self, code: &CodeMap, p: usize) -> (r: Option<Instruction>)
        requires
            self.body < code.bodies@.len(),
        ensures
            r == if p < code@.bodies[self.body as int].instrs.len() {
                Some(code@.bodies[self.body as int].instrs[p as int])
            } else {
                None::<Instruction>
            },
    {
        let body = &code.bodies[self.body as usize];
        if p < body.instrs.len() {
            Some(body.instrs[p])
        } else {
            None
        }
    }

    /// Shifts the instruction pointer to the next instruction.
    pub fn next_instr(&mut self)
        ensures
            final(self).ip == crate::machine::ip_add(old(self).ip as int, 1),
            final(self).sp == old(self).sp,
            final(self).func == old(self).func,
            final(self).body == old(self).body,
            final(self).cache == old(self).cache,
    {
        self.next_instr_at(1)
    }

    /// Shifts the instruction pointer by `skip` words, the encoded size of
    /// the current instruction.
    pub fn next_instr_at(&mut self, skip: usize)
        ensures
            final(self).ip == crate::machine::ip_add(old(self).ip as int, skip as int),
            final(self).sp == old(self).sp,
            final(self).func == old(self).func,
            final(self).body == old(self).body,
            final(self).cache == old(self).cache,
    {
        if self.ip <= usize::MAX - skip {
            self.ip = self.ip + skip;
        } else {
            self.ip = usize::MAX;
        }
    }

    /// As `next_instr`, for handlers that return a `Result`.
    pub fn try_next_instr(&mut self) -> (r: Result<Ctl, TrapCode>)
        ensures
            final(self).ip == crate::machine::ip_add(old(self).ip as int, 1),
            final(self).sp == old(self).sp,
            final(self).func == old(self).func,
            final(self).body == old(self).body,
            final(self).cache == old(self).cache,
            r == Ok::<Ctl, TrapCode>(Ctl::Next),
    {
        self.try_next_instr_at(1)
    }

    /// As `next_instr_at`, for handlers that return a `Result`.
    pub fn try_next_instr_at(&mut self, skip: usize) -> (r: Result<Ctl, TrapCode>)
        ensures
            final(self).ip == crate::machine::ip_add(old(self).ip as int, skip as int),
            final(self).sp == old(self).sp,
            final(self).func == old(self).func,
            final(self).body == old(self).body,
            final(self).cache == old(self).cache,
            r == Ok::<Ctl, TrapCode>(Ctl::Next),
    {
        self.next_instr_at(skip);
        Ok(Ctl::Next)
    }

    /// Reads a register of the executing frame; an index that leaves the
    /// value stack marks a corrupt stream.
    pub fn get_register(&self, stack: &Stack, r: Reg) -> (res: Result<u64, TrapCode>)
        ensures
            res == match crate::stack::reg_idx(
                stack.values@.len() as int,
                self.sp as int,
                r as int,
            ) {
                Some(i) => Ok::<u64, TrapCode>(stack.values@[i]),
                None => Err::<u64, TrapCode>(TrapCode::UnreachableCodeReached),
            },
    {
        stack.read_reg(self.sp, r)
    }

    /// Writes a register of the executing frame.
    pub fn set_register(&self, stack: &mut Stack, r: Reg, v: u64) -> (res: Result<(), TrapCode>)
        ensures
            old(stack).frames == final(stack).frames,
            old(stack).limit_values == final(stack).limit_values,
            old(stack).limit_frames == final(stack).limit_frames,
            match crate::stack::reg_idx(
                old(stack).values@.len() as int,
                self.sp as int,
                r as int,
            ) {
                Some(i) => res == Ok::<(), TrapCode>(()) && final(stack).values@ == old(stack).values@.update(i, v),
                None => res == Err::<(), TrapCode>(TrapCode::UnreachableCodeReached) && final(stack).values@ == old(stack).values@,
            },
    {
        stack.write_reg(self.sp, r, v)
    }

    /// Trailer words carry parameters and are never executed; one reaching
    /// the dispatch position traps as a corrupt stream.
    pub fn invalid_instruction_word(&mut self) -> (r: Result<Ctl, TrapCode>)
        ensures
            r == Err::<Ctl, TrapCode>(TrapCode::UnreachableCodeReached),
            *final(self) == *old(self),
    {
        self.execute_trap(TrapCode::UnreachableCodeReached)
    }

    /// Executes a `Trap` instruction.
    pub fn execute_trap(&mut self, trap_code: TrapCode) -> (r: Result<Ctl, TrapCode>)
        ensures
            r == Err::<Ctl, TrapCode>(trap_code),
            *final(self) == *old(self),
    {
        Err(trap_code)
    }

    /// Fetches the `Const32` parameter word `offset` words after the
    /// current instruction: the extended offset of a load or store.
    pub fn fetch_address_offset(&self, code: &CodeMap, offset: usize) -> (r: Result<u32, TrapCode>)
        requires
            self.body < code.bodies@.len(),
        ensures
            ({
                let p = crate::machine::ip_add(self.ip as int, offset as int);
                let instrs = code@.bodies[self.body as int].instrs;
                if p < instrs.len() && (instrs[p] matches Instruction::Const32 { value }) {
                    r matches Ok(v) && instrs[p] == (Instruction::Const32 { value: v })
                } else {
                    r == Err::<u32, TrapCode>(TrapCode::UnreachableCodeReached)
                }
            }),
    {
        let p = if self.ip <= usize::MAX - offset {
            self.ip + offset
        } else {
            usize::MAX
        };
        match self.fetch_word(code, p) {
            Some(Instruction::Const32 { value }) => Ok(value),
            _ => Err(TrapCode::UnreachableCodeReached),
        }
    }
}

impl Executor {
    /// The instruction word `off` words after the current one, or nothing
    /// when that position lies past the body.
    pub fn fetch_trailer(&self, code: &CodeMap, off: usize) -> (r: Option<Instruction>)
        requires
            self.body < code.bodies@.len(),
        ensures
            r == (if self.ip + off < code@.bodies[self.body as int].instrs.len() {
                Some(code@.bodies[self.body as int].instrs[self.ip + off])
            } else {
                None::<Instruction>
            }),
    {
        let body = &code.bodies[self.body as usize];
        let n = body.instrs.len();
        if off <= usize::MAX - self.ip && self.ip + off < n {
            Some(body.instrs[self.ip + off])
        } else {
            None
        }
    }

    /// The instruction word at absolute position `p`, which may lie past
    /// the address space when computed from a branch-table index.
    pub fn fetch_abs(&self, code: &CodeMap, p: u128) -> (r: Option<Instruction>)
        requires
            self.body < code.bodies@.len(),
        ensures
            r == (if p < code@.bodies[self.body as int].instrs.len() {
                Some(code@.bodies[self.body as int].instrs[p as int])
            } else {
                None::<Instruction>
            }),
    {
        let body = &code.bodies[self.body as usize];
        let n = body.instrs.len();
        if p < n as u128 {
            Some(body.instrs[p as usize])
        } else {
            None
        }
    }

    /// Decodes the trailing register list that starts at position `p`.
    pub fn decode_args(&self, code: &CodeMap, p: usize) -> (r: Result<(Vec<Reg>, usize), TrapCode>)
        requires
            self.body < code.bodies@.len(),
        ensures
            ({
                let instrs = code@.bodies[self.body as int].instrs;
                match args_decode(instrs, p as int) {
                    Some(d) => r matches Ok(pair) && pair.0@ == d.0 && pair.1 as int == d.1,
                    None => r == Err::<(Vec<Reg>, usize), TrapCode>(
                        TrapCode::UnreachableCodeReached,
                    ),
                }
            }),
        decreases code@.bodies[self.body as int].instrs.len() - p,
    {
        let body = &code.bodies[self.body as usize];
        if p >= body.instrs.len() {
            return Err(TrapCode::UnreachableCodeReached);
        }
        match body.instrs[p] {
            Instruction::Register { reg } => {
                let mut v: Vec<Reg> = Vec::new();
                v.push(reg);
                proof {
                    assert(v@ =~= seq![reg]);
                }
                Ok((v, p + 1))
            },
            Instruction::Register2 { reg0, reg1 } => {
                let mut v: Vec<Reg> = Vec::new();
                v.push(reg0);
                v.push(reg1);
                proof {
                    assert(v@ =~= seq![reg0, reg1]);
                }
                Ok((v, p + 1))
            },
            Instruction::Register3 { reg0, reg1, reg2 } => {
                let mut v: Vec<Reg> = Vec::new();
                v.push(reg0);
                v.push(reg1);
                v.push(reg2);
                proof {
                    assert(v@ =~= seq![reg0, reg1, reg2]);
                }
                Ok((v, p + 1))
            },
            Instruction::RegisterList { reg0, reg1, reg2 } => {
                match self.decode_args(code, p + 1) {
                    Ok(pair) => {
                        let mut v: Vec<Reg> = Vec::new();
                        v.push(reg0);
                        v.push(reg1);
                        v.push(reg2);
                        let mut i: usize = 0;
                        while i < pair.0.len()
                            invariant
                                i <= pair.0@.len(),
                                v@ == seq![reg0, reg1, reg2] + pair.0@.take(i as int),
                            decreases pair.0@.len() - i,
                        {
                            v.push(pair.0[i]);
                            proof {
                                assert(v@ =~= seq![reg0, reg1, reg2] + pair.0@.take(i + 1));
                            }
                            i = i + 1;
                        }
                        proof {
                            assert(pair.0@.take(pair.0@.len() as int) =~= pair.0@);
                        }
                        Ok((v, pair.1))
                    },
                    Err(c) => Err(c),
                }
            },
            _ => Err(TrapCode::UnreachableCodeReached),
        }
    }

    /// Reads the values of a decoded register list, in order; any register
    /// that leaves the value stack marks a corrupt stream.
    pub fn read_reg_list(&self, stack: &Stack, regs: &Vec<Reg>) -> (r: Result<Vec<u64>, TrapCode>)
        ensures
            match read_regs_v(stack.values@, self.sp as int, regs@) {
                Some(vals) => r matches Ok(v) && v@ == vals,
                None => r == Err::<Vec<u64>, TrapCode>(TrapCode::UnreachableCodeReached),
            },
    {
        let mut out: Vec<u64> = Vec::new();
        let mut i: usize = 0;
        while i < regs.len()
            invariant
                i <= regs@.len(),
                forall|j: int|
                    0 <= j < i ==> crate::stack::reg_idx(
                        stack.values@.len() as int,
                        self.sp as int,
                        #[trigger] regs@[j] as int,
                    ) is Some,
                out@ == Seq::new(i as nat, |j: int| stack.values@[self.sp + regs@[j]]),
            decreases regs@.len() - i,
        {
            match stack.read_reg(self.sp, regs[i]) {
                Ok(v) => {
                    out.push(v);
                    proof {
                        assert(out@ =~= Seq::new(
                            (i + 1) as nat,
                            |j: int| stack.values@[self.sp + regs@[j]],
                        ));
                    }
                },
                Err(_) => {
                    return Err(TrapCode::UnreachableCodeReached);
                },
            }
            i = i + 1;
        }
        Ok(out)
    }

    /// Executes a `ConsumeFuel` instruction: draws the block's budget from
    /// the store's fuel counter, trapping with `OutOfFuel` when it is
    /// exhausted.
    pub fn execute_consume_fuel(
        &mut self,
        store: &mut Store,
        stack: &mut Stack,
        code: &CodeMap,
        block_fuel: u64,
    ) -> (r: Result<Ctl, TrapCode>)
        requires
            old(self).wf(*code, *old(store), *old(stack)),
            step(code@, old(self).mach_run(*old(store), *old(stack))) == tr_consume_fuel(
                old(self).mach_run(*old(store), *old(stack)),
                block_fuel,
            ),
        ensures
            handler_post(
                *code,
                old(self).mach_run(*old(store), *old(stack)),
                *final(self),
                *final(store),
                *final(stack),
                r,
            ),
    {
        let ghost m0 = old(self).mach_run(*store, *stack);
        match store.consume_fuel(block_fuel) {
            Ok(_) => {},
            Err(c) => {
                return Err(c);
            },
        }
        self.next_instr();
        proof {
            let m2 = crate::machine::running_of(step(code@, m0));
            assert(self.mach_run(*store, *stack).frames =~= m2.frames);
            assert(self.mach_run(*store, *stack) == m2);
        }
        Ok(Ctl::Next)
    }

    /// Executes a `RefFunc` instruction: materializes a function-reference
    /// cell for an instance-local function index.
    pub fn execute_ref_func(
        &mut self,
        store: &mut Store,
        stack: &mut Stack,
        code: &CodeMap,
        result: Reg,
        func: u32,
    ) -> (r: Result<Ctl, TrapCode>)
        requires
            old(self).wf(*code, *old(store), *old(stack)),
            step(code@, old(self).mach_run(*old(store), *old(stack))) == tr_ref_func(
                old(self).mach_run(*old(store), *old(stack)),
                result,
                func,
            ),
        ensures
            handler_post(
                *code,
                old(self).mach_run(*old(store), *old(stack)),
                *final(self),
                *final(store),
                *final(stack),
                r,
            ),
    {
        if (func as usize) >= self.cache.funcs.len() {
            return Err(TrapCode::UnreachableCodeReached);
        }
        let fidx = self.cache.funcs[func as usize];
        self.write_result_next(store, stack, code, result, fidx as u64 + 1, 1)
    }
}

/// Executes compiled function instructions until one of: returning from the
/// root function, calling a host function, exhausting the step budget, or a
/// trap.
///
/// The result realises exactly `run` of the specification machine on the
/// entry state for `budget` steps: `Pending` when the budget ran out first
/// (calling again resumes), `Returned` past the root frame, `Host` with a
/// resumable descriptor, or the trap code. A trap is observably
/// effect-free: the final store and stacks are the machine exactly as it
/// stood before the faulting instruction, the call stack not unwound and
/// the faulting position written into the top frame, so frames and the
/// current pointer stay inspectable for a backtrace.
pub fn execute_instrs(
    store: &mut Store,
    stack: &mut Stack,
    code: &CodeMap,
    budget: u64,
) -> (r: Result<Signal, TrapCode>)
    ensures
        ({
            let out = run(code@, mach_of(*old(store), *old(stack)), budget as nat);
            match r {
                Ok(s) => match s {
                    Signal::Pending => out == Step::Running(mach_of(*final(store), *final(stack))),
                    Signal::Returned => out == Step::Returned(
                        mach_of(*final(store), *final(stack)),
                    ),
                    Signal::Host(d) => out == Step::Host(
                        mach_of(*final(store), *final(stack)),
                        d@,
                    ),
                },
                Err(c) => out == Step::Trap(mach_of(*final(store), *final(stack)), c),
            }
        }),
{
    let ghost m0 = mach_of(*store, *stack);
    if budget == 0 {
        return Ok(Signal::Pending);
    }
    if stack.frames.len() == 0 {
        proof {
            assert(step(code@, m0) == Step::Returned(m0));
            assert(run(code@, m0, budget as nat) == Step::Returned(m0));
        }
        return Ok(Signal::Returned);
    }
    let n0 = stack.frames.len();
    let top0 = stack.frames[n0 - 1];
    let cache = make_cache(store, top0.instance);
    let mut ex = match Executor::new(stack, code, cache) {
        Some(e) => e,
        None => {
            proof {
                assert(crate::machine::body_of(code@, m0) is None);
                assert(step(code@, m0) == crate::machine::u_trap(m0));
                assert(run(code@, m0, budget as nat) == Step::Trap(
                    m0,
                    TrapCode::UnreachableCodeReached,
                ));
                assert(mach_of(*store, *stack) == m0);
            }
            return Err(TrapCode::UnreachableCodeReached);
        },
    };
    proof {
        assert(ex.mach_run(*store, *stack).frames =~= stack.frames@);
        assert(ex.mach_run(*store, *stack) == m0);
    }
    let mut steps: u64 = 0;
    while steps < budget
        invariant
            steps <= budget,
            ex.wf(*code, *store, *stack),
            m0 == mach_of(*old(store), *old(stack)),
            run(code@, m0, steps as nat) == Step::Running(ex.mach_run(*store, *stack)),
        decreases budget - steps,
    {
        let ghost m_cur = ex.mach_run(*store, *stack);
        let instr = match ex.fetch_word(code, ex.ip) {
            Some(i) => i,
            None => {
                proof {
                    assert(step(code@, m_cur) == crate::machine::u_trap(m_cur));
                    lemma_run_unfold_back(code@, m0, steps as nat);
                    lemma_run_exit_stable(code@, m0, (steps + 1) as nat, budget as nat);
                }
                let n = stack.frames.len();
                let top = stack.frames[n - 1];
                stack.replace_top(CallFrame { instr_ptr: ex.ip, ..top });
                proof {
                    assert(mach_of(*store, *stack).frames =~= m_cur.frames);
                    assert(mach_of(*store, *stack) == m_cur);
                }
                return Err(TrapCode::UnreachableCodeReached);
            },
        };
        proof {
            assert(fetch_at(code@, m_cur, m_cur.ip()) == Some(instr));
        }
        let res = ex.dispatch(store, stack, code, instr);
        match res {
            Ok(Ctl::Next) => {
                proof {
                    lemma_run_unfold_back(code@, m0, steps as nat);
                }
                steps = steps + 1;
            },
            Ok(Ctl::Changed) => {
                proof {
                    lemma_run_unfold_back(code@, m0, steps as nat);
                }
                steps = steps + 1;
                let n = stack.frames.len();
                let top = stack.frames[n - 1];
                let cache2 = make_cache(store, top.instance);
                ex = match Executor::new(stack, code, cache2) {
                    Some(e) => e,
                    None => {
                        if steps == budget {
                            return Ok(Signal::Pending);
                        }
                        proof {
                            let mof = mach_of(*store, *stack);
                            assert(crate::machine::body_of(code@, mof) is None);
                            assert(step(code@, mof) == crate::machine::u_trap(mof));
                            lemma_run_unfold_back(code@, m0, steps as nat);
                            lemma_run_exit_stable(
                                code@,
                                m0,
                                (steps + 1) as nat,
                                budget as nat,
                            );
                        }
                        return Err(TrapCode::UnreachableCodeReached);
                    },
                };
                proof {
                    assert(ex.mach_run(*store, *stack).frames =~= stack.frames@);
                    assert(ex.mach_run(*store, *stack) == mach_of(*store, *stack));
                }
            },
            Ok(Ctl::Returned) => {
                proof {
                    lemma_run_unfold_back(code@, m0, steps as nat);
                    lemma_run_exit_stable(code@, m0, (steps + 1) as nat, budget as nat);
                }
                return Ok(Signal::Returned);
            },
            Ok(Ctl::Host(d)) => {
                proof {
                    lemma_run_unfold_back(code@, m0, steps as nat);
                    lemma_run_exit_stable(code@, m0, (steps + 1) as nat, budget as nat);
                }
                return Ok(Signal::Host(d));
            },
            Err(c) => {
                proof {
                    lemma_run_unfold_back(code@, m0, steps as nat);
                    lemma_run_exit_stable(code@, m0, (steps + 1) as nat, budget as nat);
                }
                let ghost m_abandoned = ex.mach_run(*store, *stack);
                let n = stack.frames.len();
                if n > 0 {
                    let top = stack.frames[n - 1];
                    stack.replace_top(CallFrame { instr_ptr: ex.ip, ..top });
                }
                proof {
                    assert(mach_of(*store, *stack).frames =~= m_abandoned.frames);
                    assert(mach_of(*store, *stack) == m_abandoned);
                }
                return Err(c);
            },
        }
    }
    let ghost m_fin = ex.mach_run(*store, *stack);
    let n = stack.frames.len();
    let top = stack.frames[n - 1];
    stack.replace_top(CallFrame { instr_ptr: ex.ip, ..top });
    proof {
        assert(mach_of(*store, *stack).frames =~= m_fin.frames);
        assert(mach_of(*store, *stack) == m_fin);
    }
    Ok(Signal::Pending)
}

/// Writes the results of a completed host call into the register span the
/// descriptor names, in the window of the now-topmost frame (at absolute
/// offset 0 when the root frame tail-called the host). Calling
/// `execute_instrs` afterwards resumes execution.
pub fn write_host_results(stack: &mut Stack, desc: &HostCall, results: &Vec<u64>) -> (r: Result<
    (),
    TrapCode,
>)
    ensures
        old(stack).frames == final(stack).frames,
        old(stack).limit_values == final(stack).limit_values,
        old(stack).limit_frames == final(stack).limit_frames,
        ({
            let base: int = if old(stack).frames@.len() == 0 {
                0
            } else {
                old(stack).frames@.last().base as int
            };
            match crate::stack::write_span_s(
                old(stack).values@,
                base,
                desc.results as int,
                results@,
            ) {
                Some(values) => r == Ok::<(), TrapCode>(()) && final(stack).values@ == values,
                None => r == Err::<(), TrapCode>(TrapCode::UnreachableCodeReached),
            }
        }),
{
    let n = stack.frames.len();
    let base: usize = if n == 0 {
        0
    } else {
        stack.frames[n - 1].base
    };
    stack.write_span(base, desc.results, results)
}

} // verus!
