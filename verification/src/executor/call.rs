//! Handlers for the call and return-call (tail call) families.
//!
//! A normal call pushes a fresh frame seated at the top of the value stack,
//! copies the argument registers into the callee's window, and records the
//! caller's resume point. A tail call reuses the caller's frame slot and
//! keeps its return information, so the call-stack depth stays constant. A
//! host callee pauses execution instead: the dispatch loop hands a host-call
//! descriptor to the embedder. An indirect call first resolves its table
//! element and rejects a null element and a signature mismatch.

use vstd::prelude::*;
use crate::bytecode::{Instruction, Reg};
use crate::code::{CodeMap, FuncKind};
use crate::executor::{handler_post, Ctl, Executor, HostCall};
use crate::machine::{
    args_decode, fetch_at, local_func, read_regs, resolve_indirect, step, tr_call_resolved,
    tr_tail_call_resolved, u_trap, Mach,
};
use crate::seqs::vec_dup;
use crate::stack::{CallFrame, Stack};
use crate::store::Store;
use crate::trap::TrapCode;

verus! {

impl Executor {
    /// Resolves an instance-local function index to its code-map handle.
    pub fn resolve_local_func(&self, func: u32) -> (r: Result<u64, TrapCode>)
        ensures
            match r {
                Ok(f) => (func as int) < self.cache@.funcs.len() && f
                    == self.cache@.funcs[func as int] as u64,
                Err(c) => c == TrapCode::UnreachableCodeReached && func as int
                    >= self.cache@.funcs.len(),
            },
    {
        if (func as usize) < self.cache.funcs.len() {
            Ok(self.cache.funcs[func as usize] as u64)
        } else {
            Err(TrapCode::UnreachableCodeReached)
        }
    }

    /// Resolves an indirect call: looks the element up in the table,
    /// rejects a null element (`IndirectCallToNull`) and a signature
    /// mismatch (`BadSignature`).
    pub fn resolve_indirect_call(
        &self,
        store: &Store,
        code: &CodeMap,
        func_type: u32,
        table: u32,
        iv: u64,
        Ghost(m0): Ghost<Mach>,
    ) -> (r: Result<u64, TrapCode>)
        requires
            m0.inst() == self.cache@,
            m0.store == store@,
        ensures
            match resolve_indirect(code@, m0, func_type, table, iv) {
                Ok(fidx) => r matches Ok(f) && f as int == fidx,
                Err(c) => r == Err::<u64, TrapCode>(c),
            },
    {
        if (func_type as usize) >= self.cache.types.len() {
            return Err(TrapCode::UnreachableCodeReached);
        }
        let expected = self.cache.types[func_type as usize];
        if (table as usize) >= self.cache.tables.len() {
            return Err(TrapCode::UnreachableCodeReached);
        }
        let th = self.cache.tables[table as usize];
        if (th as usize) >= store.tables.len() {
            return Err(TrapCode::UnreachableCodeReached);
        }
        let cell = match store.table_get(th as usize, iv % 0x1_0000_0000u64) {
            Ok(c) => c,
            Err(e) => {
                return Err(e);
            },
        };
        if cell == 0 {
            return Err(TrapCode::IndirectCallToNull);
        }
        let fidx = cell - 1;
        if fidx >= code.funcs.len() as u64 {
            return Err(TrapCode::UnreachableCodeReached);
        }
        if code.funcs[fidx as usize].ty != expected {
            return Err(TrapCode::BadSignature);
        }
        Ok(fidx)
    }
    /// Calls the code-map function `fidx`: pushes a frame for a compiled callee or pauses for a host callee. The shared core of the call forms.
    pub fn do_call(
        &mut self,
        store: &mut Store,
        stack: &mut Stack,
        code: &CodeMap,
        results: Reg,
        fidx: u64,
        args: &Vec<u64>,
        ret_ip: usize,
    ) -> (r: Result<Ctl, TrapCode>)
        requires
            old(self).wf(*code, *old(store), *old(stack)),
            step(code@, old(self).mach_run(*old(store), *old(stack))) == (tr_call_resolved(code@, old(self).mach_run(*old(store), *old(stack)), results, fidx as int, args@, ret_ip as int)),
        ensures
            handler_post(
                *code,
                old(self).mach_run(*old(store), *old(stack)),
                *final(self),
                *final(store),
                *final(stack),
                r,
            ),
    {
        let ghost m0 = old(self).mach_run(*store, *stack);
        if fidx >= code.funcs.len() as u64 {
            return Err(TrapCode::UnreachableCodeReached);
        }
        if fidx > u32::MAX as u64 {
            return Err(TrapCode::UnreachableCodeReached);
        }
        let func = code.funcs[fidx as usize];
        match func.kind {
            FuncKind::Host { .. } => {
                let n = stack.height();
                let top = stack.frames[n - 1];
                stack.replace_top(CallFrame { instr_ptr: ret_ip, ..top });
                let desc = HostCall { func: fidx as u32, results, args: vec_dup(args) };
                proof {
                    let m2 = m0.with_ip(ret_ip as int);
                    assert(crate::executor::mach_of(*store, *stack).frames =~= m2.frames);
                    assert(crate::executor::mach_of(*store, *stack) == m2);
                }
                Ok(Ctl::Host(desc))
            },
            FuncKind::Internal { body } => {
                if (body as usize) >= code.bodies.len() {
                    return Err(TrapCode::UnreachableCodeReached);
                }
                let lr = code.bodies[body as usize].len_registers as usize;
                if stack.height() >= stack.limit_frames {
                    return Err(TrapCode::StackOverflow);
                }
                let base = stack.values.len();
                if base > stack.limit_values || lr > stack.limit_values - base {
                    return Err(TrapCode::StackOverflow);
                }
                if args.len() > lr {
                    return Err(TrapCode::UnreachableCodeReached);
                }
                match stack.grow_values(lr) {
                    Ok(_) => {},
                    Err(_) => {
                        proof {
                            assert(false);
                        }
                        return Err(TrapCode::StackOverflow);
                    },
                }
                match stack.write_span(base, 0, args) {
                    Ok(_) => {},
                    Err(_) => {
                        proof {
                            assert(false);
                        }
                        return Err(TrapCode::UnreachableCodeReached);
                    },
                }
                let n = stack.height();
                let top = stack.frames[n - 1];
                stack.replace_top(CallFrame { instr_ptr: ret_ip, ..top });
                let callee = CallFrame {
                    instr_ptr: 0,
                    func: fidx as u32,
                    base,
                    results,
                    instance: func.instance,
                };
                match stack.push_frame(callee) {
                    Ok(_) => {},
                    Err(_) => {
                        proof {
                            assert(false);
                        }
                        return Err(TrapCode::StackOverflow);
                    },
                }
                proof {
                    let m2 = crate::machine::running_of(step(code@, m0));
                    assert(crate::executor::mach_of(*store, *stack).frames =~= m2.frames);
                    assert(crate::executor::mach_of(*store, *stack) == m2);
                }
                Ok(Ctl::Changed)
            },
        }
    }

    /// Tail-calls the code-map function `fidx`: reuses the executing frame, keeping depth and return information. The shared core of the return-call forms.
    pub fn do_tail_call(
        &mut self,
        store: &mut Store,
        stack: &mut Stack,
        code: &CodeMap,
        fidx: u64,
        args: &Vec<u64>,
    ) -> (r: Result<Ctl, TrapCode>)
        requires
            old(self).wf(*code, *old(store), *old(stack)),
            step(code@, old(self).mach_run(*old(store), *old(stack))) == (tr_tail_call_resolved(code@, old(self).mach_run(*old(store), *old(stack)), fidx as int, args@)),
        ensures
            handler_post(
                *code,
                old(self).mach_run(*old(store), *old(stack)),
                *final(self),
                *final(store),
                *final(stack),
                r,
            ),
    {
        let ghost m0 = old(self).mach_run(*store, *stack);
        if fidx >= code.funcs.len() as u64 {
            return Err(TrapCode::UnreachableCodeReached);
        }
        if fidx > u32::MAX as u64 {
            return Err(TrapCode::UnreachableCodeReached);
        }
        let func = code.funcs[fidx as usize];
        match func.kind {
            FuncKind::Host { .. } => {
                proof {
                    assert(m0.frames.drop_last() =~= stack.frames@.drop_last());
                }
                let fr = stack.pop_frame();
                stack.shrink_values(fr.base);
                let desc = HostCall { func: fidx as u32, results: fr.results, args: vec_dup(args) };
                proof {
                    let m2 = Mach {
                        values: if fr.base <= m0.values.len() {
                            m0.values.subrange(0, fr.base as int)
                        } else {
                            m0.values
                        },
                        frames: m0.frames.drop_last(),
                        ..m0
                    };
                    assert(crate::executor::mach_of(*store, *stack) == m2);
                }
                Ok(Ctl::Host(desc))
            },
            FuncKind::Internal { body } => {
                if (body as usize) >= code.bodies.len() {
                    return Err(TrapCode::UnreachableCodeReached);
                }
                let lr = code.bodies[body as usize].len_registers as usize;
                let n = stack.height();
                let fr = stack.frames[n - 1];
                let vlen = stack.values.len();
                let shrunk = if fr.base <= vlen {
                    fr.base
                } else {
                    vlen
                };
                if shrunk > stack.limit_values || lr > stack.limit_values - shrunk {
                    return Err(TrapCode::StackOverflow);
                }
                let win = shrunk + lr;
                if args.len() > 0 && (fr.base > win || args.len() > win - fr.base) {
                    return Err(TrapCode::UnreachableCodeReached);
                }
                stack.shrink_values(fr.base);
                match stack.grow_values(lr) {
                    Ok(_) => {},
                    Err(_) => {
                        proof {
                            assert(false);
                        }
                        return Err(TrapCode::StackOverflow);
                    },
                }
                match stack.write_span(fr.base, 0, args) {
                    Ok(_) => {},
                    Err(_) => {
                        proof {
                            assert(false);
                        }
                        return Err(TrapCode::UnreachableCodeReached);
                    },
                }
                stack.replace_top(
                    CallFrame {
                        instr_ptr: 0,
                        func: fidx as u32,
                        base: fr.base,
                        results: fr.results,
                        instance: func.instance,
                    },
                );
                proof {
                    let m2 = crate::machine::running_of(step(code@, m0));
                    assert(crate::executor::mach_of(*store, *stack).frames =~= m2.frames);
                    assert(crate::executor::mach_of(*store, *stack) == m2);
                }
                Ok(Ctl::Changed)
            },
        }
    }

    /// Executes a `CallInternal0`: a same-instance call with no arguments.
    pub fn execute_call_internal_0(
        &mut self,
        store: &mut Store,
        stack: &mut Stack,
        code: &CodeMap,
        results: Reg,
        func: u32,
    ) -> (r: Result<Ctl, TrapCode>)
        requires
            old(self).wf(*code, *old(store), *old(stack)),
            step(code@, old(self).mach_run(*old(store), *old(stack))) == (match local_func(old(self).mach_run(*old(store), *old(stack)), func) {
                Some(fidx) => tr_call_resolved(code@, old(self).mach_run(*old(store), *old(stack)), results, fidx, Seq::empty(), old(self).mach_run(*old(store), *old(stack)).ip() + 1),
                None => u_trap(old(self).mach_run(*old(store), *old(stack))),
            }),
        ensures
            handler_post(
                *code,
                old(self).mach_run(*old(store), *old(stack)),
                *final(self),
                *final(store),
                *final(stack),
                r,
            ),
    {
        proof {
            let m0 = old(self).mach_run(*store, *stack);
            assert(m0.inst() == self.cache@);
            assert(m0.base() == self.sp as int);
            assert(crate::machine::body_of(code@, m0) == Some(code@.bodies[self.body as int]));
        }
        let fidx = match self.resolve_local_func(func) {
            Ok(f) => f,
            Err(c) => {
                return Err(c);
            },
        };
        if self.ip >= usize::MAX {
            return Err(TrapCode::UnreachableCodeReached);
        }
        let args: Vec<u64> = Vec::new();
        proof {
            assert(args@ =~= Seq::<u64>::empty());
            assert(old(self).mach_run(*store, *stack).inst() == self.cache@);
        }
        self.do_call(store, stack, code, results, fidx, &args, self.ip + 1)
    }

    /// Executes a `CallImported0`: a call through the instance function table with no arguments; a host callee pauses execution.
    pub fn execute_call_imported_0(
        &mut self,
        store: &mut Store,
        stack: &mut Stack,
        code: &CodeMap,
        results: Reg,
        func: u32,
    ) -> (r: Result<Ctl, TrapCode>)
        requires
            old(self).wf(*code, *old(store), *old(stack)),
            step(code@, old(self).mach_run(*old(store), *old(stack))) == (match local_func(old(self).mach_run(*old(store), *old(stack)), func) {
                Some(fidx) => tr_call_resolved(code@, old(self).mach_run(*old(store), *old(stack)), results, fidx, Seq::empty(), old(self).mach_run(*old(store), *old(stack)).ip() + 1),
                None => u_trap(old(self).mach_run(*old(store), *old(stack))),
            }),
        ensures
            handler_post(
                *code,
                old(self).mach_run(*old(store), *old(stack)),
                *final(self),
                *final(store),
                *final(stack),
                r,
            ),
    {
        proof {
            let m0 = old(self).mach_run(*store, *stack);
            assert(m0.inst() == self.cache@);
            assert(m0.base() == self.sp as int);
            assert(crate::machine::body_of(code@, m0) == Some(code@.bodies[self.body as int]));
        }
        let fidx = match self.resolve_local_func(func) {
            Ok(f) => f,
            Err(c) => {
                return Err(c);
            },
        };
        if self.ip >= usize::MAX {
            return Err(TrapCode::UnreachableCodeReached);
        }
        let args: Vec<u64> = Vec::new();
        proof {
            assert(args@ =~= Seq::<u64>::empty());
            assert(old(self).mach_run(*store, *stack).inst() == self.cache@);
        }
        self.do_call(store, stack, code, results, fidx, &args, self.ip + 1)
    }

    /// Executes a `CallInternal`: the trailing register list names the arguments.
    pub fn execute_call_internal(
        &mut self,
        store: &mut Store,
        stack: &mut Stack,
        code: &CodeMap,
        results: Reg,
        func: u32,
    ) -> (r: Result<Ctl, TrapCode>)
        requires
            old(self).wf(*code, *old(store), *old(stack)),
            step(code@, old(self).mach_run(*old(store), *old(stack))) == (match (local_func(old(self).mach_run(*old(store), *old(stack)), func), crate::machine::body_of(code@, old(self).mach_run(*old(store), *old(stack)))) {
                (Some(fidx), Some(b)) => match args_decode(b.instrs, old(self).mach_run(*old(store), *old(stack)).ip() + 1) {
                    Some(decoded) => match read_regs(old(self).mach_run(*old(store), *old(stack)), decoded.0) {
                        Some(args) => tr_call_resolved(code@, old(self).mach_run(*old(store), *old(stack)), results, fidx, args, decoded.1),
                        None => u_trap(old(self).mach_run(*old(store), *old(stack))),
                    },
                    None => u_trap(old(self).mach_run(*old(store), *old(stack))),
                },
                _ => u_trap(old(self).mach_run(*old(store), *old(stack))),
            }),
        ensures
            handler_post(
                *code,
                old(self).mach_run(*old(store), *old(stack)),
                *final(self),
                *final(store),
                *final(stack),
                r,
            ),
    {
        proof {
            let m0 = old(self).mach_run(*store, *stack);
            assert(m0.inst() == self.cache@);
            assert(m0.base() == self.sp as int);
            assert(crate::machine::body_of(code@, m0) == Some(code@.bodies[self.body as int]));
        }
        let fidx = match self.resolve_local_func(func) {
            Ok(f) => f,
            Err(c) => {
                return Err(c);
            },
        };
        if self.ip >= usize::MAX {
            let _n = code.bodies[self.body as usize].instrs.len();
            return Err(TrapCode::UnreachableCodeReached);
        }
        let decoded = match self.decode_args(code, self.ip + 1) {
            Ok(d) => d,
            Err(c) => {
                return Err(c);
            },
        };
        let args = match self.read_reg_list(stack, &decoded.0) {
            Ok(v) => v,
            Err(c) => {
                return Err(c);
            },
        };
        proof {
            let m0 = old(self).mach_run(*store, *stack);
            assert(m0.inst() == self.cache@);
            assert(m0.base() == self.sp as int);
            assert(crate::machine::body_of(code@, m0) == Some(code@.bodies[self.body as int]));
        }
        self.do_call(store, stack, code, results, fidx, &args, decoded.1)
    }

    /// Executes a `CallImported` with arguments; a host callee pauses execution.
    pub fn execute_call_imported(
        &mut self,
        store: &mut Store,
        stack: &mut Stack,
        code: &CodeMap,
        results: Reg,
        func: u32,
    ) -> (r: Result<Ctl, TrapCode>)
        requires
            old(self).wf(*code, *old(store), *old(stack)),
            step(code@, old(self).mach_run(*old(store), *old(stack))) == (match (local_func(old(self).mach_run(*old(store), *old(stack)), func), crate::machine::body_of(code@, old(self).mach_run(*old(store), *old(stack)))) {
                (Some(fidx), Some(b)) => match args_decode(b.instrs, old(self).mach_run(*old(store), *old(stack)).ip() + 1) {
                    Some(decoded) => match read_regs(old(self).mach_run(*old(store), *old(stack)), decoded.0) {
                        Some(args) => tr_call_resolved(code@, old(self).mach_run(*old(store), *old(stack)), results, fidx, args, decoded.1),
                        None => u_trap(old(self).mach_run(*old(store), *old(stack))),
                    },
                    None => u_trap(old(self).mach_run(*old(store), *old(stack))),
                },
                _ => u_trap(old(self).mach_run(*old(store), *old(stack))),
            }),
        ensures
            handler_post(
                *code,
                old(self).mach_run(*old(store), *old(stack)),
                *final(self),
                *final(store),
                *final(stack),
                r,
            ),
    {
        proof {
            let m0 = old(self).mach_run(*store, *stack);
            assert(m0.inst() == self.cache@);
            assert(m0.base() == self.sp as int);
            assert(crate::machine::body_of(code@, m0) == Some(code@.bodies[self.body as int]));
        }
        let fidx = match self.resolve_local_func(func) {
            Ok(f) => f,
            Err(c) => {
                return Err(c);
            },
        };
        if self.ip >= usize::MAX {
            let _n = code.bodies[self.body as usize].instrs.len();
            return Err(TrapCode::UnreachableCodeReached);
        }
        let decoded = match self.decode_args(code, self.ip + 1) {
            Ok(d) => d,
            Err(c) => {
                return Err(c);
            },
        };
        let args = match self.read_reg_list(stack, &decoded.0) {
            Ok(v) => v,
            Err(c) => {
                return Err(c);
            },
        };
        proof {
            let m0 = old(self).mach_run(*store, *stack);
            assert(m0.inst() == self.cache@);
            assert(m0.base() == self.sp as int);
            assert(crate::machine::body_of(code@, m0) == Some(code@.bodies[self.body as int]));
        }
        self.do_call(store, stack, code, results, fidx, &args, decoded.1)
    }

    /// Executes a `ReturnCallInternal0`: a tail call with no arguments.
    pub fn execute_return_call_internal_0(
        &mut self,
        store: &mut Store,
        stack: &mut Stack,
        code: &CodeMap,
        func: u32,
    ) -> (r: Result<Ctl, TrapCode>)
        requires
            old(self).wf(*code, *old(store), *old(stack)),
            step(code@, old(self).mach_run(*old(store), *old(stack))) == (match local_func(old(self).mach_run(*old(store), *old(stack)), func) {
                Some(fidx) => tr_tail_call_resolved(code@, old(self).mach_run(*old(store), *old(stack)), fidx, Seq::empty()),
                None => u_trap(old(self).mach_run(*old(store), *old(stack))),
            }),
        ensures
            handler_post(
                *code,
                old(self).mach_run(*old(store), *old(stack)),
                *final(self),
                *final(store),
                *final(stack),
                r,
            ),
    {
        proof {
            let m0 = old(self).mach_run(*store, *stack);
            assert(m0.inst() == self.cache@);
            assert(m0.base() == self.sp as int);
            assert(crate::machine::body_of(code@, m0) == Some(code@.bodies[self.body as int]));
        }
        let fidx = match self.resolve_local_func(func) {
            Ok(f) => f,
            Err(c) => {
                return Err(c);
            },
        };
        let args: Vec<u64> = Vec::new();
        proof {
            assert(args@ =~= Seq::<u64>::empty());
            assert(old(self).mach_run(*store, *stack).inst() == self.cache@);
        }
        self.do_tail_call(store, stack, code, fidx, &args)
    }

    /// Executes a `ReturnCallImported0`; a host callee pops the frame and pauses.
    pub fn execute_return_call_imported_0(
        &mut self,
        store: &mut Store,
        stack: &mut Stack,
        code: &CodeMap,
        func: u32,
    ) -> (r: Result<Ctl, TrapCode>)
        requires
            old(self).wf(*code, *old(store), *old(stack)),
            step(code@, old(self).mach_run(*old(store), *old(stack))) == (match local_func(old(self).mach_run(*old(store), *old(stack)), func) {
                Some(fidx) => tr_tail_call_resolved(code@, old(self).mach_run(*old(store), *old(stack)), fidx, Seq::empty()),
                None => u_trap(old(self).mach_run(*old(store), *old(stack))),
            }),
        ensures
            handler_post(
                *code,
                old(self).mach_run(*old(store), *old(stack)),
                *final(self),
                *final(store),
                *final(stack),
                r,
            ),
    {
        proof {
            let m0 = old(self).mach_run(*store, *stack);
            assert(m0.inst() == self.cache@);
            assert(m0.base() == self.sp as int);
            assert(crate::machine::body_of(code@, m0) == Some(code@.bodies[self.body as int]));
        }
        let fidx = match self.resolve_local_func(func) {
            Ok(f) => f,
            Err(c) => {
                return Err(c);
            },
        };
        let args: Vec<u64> = Vec::new();
        proof {
            assert(args@ =~= Seq::<u64>::empty());
            assert(old(self).mach_run(*store, *stack).inst() == self.cache@);
        }
        self.do_tail_call(store, stack, code, fidx, &args)
    }

    /// Executes a `ReturnCallInternal` with arguments.
    pub fn execute_return_call_internal(
        &mut self,
        store: &mut Store,
        stack: &mut Stack,
        code: &CodeMap,
        func: u32,
    ) -> (r: Result<Ctl, TrapCode>)
        requires
            old(self).wf(*code, *old(store), *old(stack)),
            step(code@, old(self).mach_run(*old(store), *old(stack))) == (match (local_func(old(self).mach_run(*old(store), *old(stack)), func), crate::machine::body_of(code@, old(self).mach_run(*old(store), *old(stack)))) {
                (Some(fidx), Some(b)) => match args_decode(b.instrs, old(self).mach_run(*old(store), *old(stack)).ip() + 1) {
                    Some(decoded) => match read_regs(old(self).mach_run(*old(store), *old(stack)), decoded.0) {
                        Some(args) => tr_tail_call_resolved(code@, old(self).mach_run(*old(store), *old(stack)), fidx, args),
                        None => u_trap(old(self).mach_run(*old(store), *old(stack))),
                    },
                    None => u_trap(old(self).mach_run(*old(store), *old(stack))),
                },
                _ => u_trap(old(self).mach_run(*old(store), *old(stack))),
            }),
        ensures
            handler_post(
                *code,
                old(self).mach_run(*old(store), *old(stack)),
                *final(self),
                *final(store),
                *final(stack),
                r,
            ),
    {
        proof {
            let m0 = old(self).mach_run(*store, *stack);
            assert(m0.inst() == self.cache@);
            assert(m0.base() == self.sp as int);
            assert(crate::machine::body_of(code@, m0) == Some(code@.bodies[self.body as int]));
        }
        let fidx = match self.resolve_local_func(func) {
            Ok(f) => f,
            Err(c) => {
                return Err(c);
            },
        };
        if self.ip >= usize::MAX {
            let _n = code.bodies[self.body as usize].instrs.len();
            return Err(TrapCode::UnreachableCodeReached);
        }
        let decoded = match self.decode_args(code, self.ip + 1) {
            Ok(d) => d,
            Err(c) => {
                return Err(c);
            },
        };
        let args = match self.read_reg_list(stack, &decoded.0) {
            Ok(v) => v,
            Err(c) => {
                return Err(c);
            },
        };
        proof {
            let m0 = old(self).mach_run(*store, *stack);
            assert(m0.inst() == self.cache@);
            assert(m0.base() == self.sp as int);
            assert(crate::machine::body_of(code@, m0) == Some(code@.bodies[self.body as int]));
        }
        self.do_tail_call(store, stack, code, fidx, &args)
    }

    /// Executes a `ReturnCallImported` with arguments.
    pub fn execute_return_call_imported(
        &mut self,
        store: &mut Store,
        stack: &mut Stack,
        code: &CodeMap,
        func: u32,
    ) -> (r: Result<Ctl, TrapCode>)
        requires
            old(self).wf(*code, *old(store), *old(stack)),
            step(code@, old(self).mach_run(*old(store), *old(stack))) == (match (local_func(old(self).mach_run(*old(store), *old(stack)), func), crate::machine::body_of(code@, old(self).mach_run(*old(store), *old(stack)))) {
                (Some(fidx), Some(b)) => match args_decode(b.instrs, old(self).mach_run(*old(store), *old(stack)).ip() + 1) {
                    Some(decoded) => match read_regs(old(self).mach_run(*old(store), *old(stack)), decoded.0) {
                        Some(args) => tr_tail_call_resolved(code@, old(self).mach_run(*old(store), *old(stack)), fidx, args),
                        None => u_trap(old(self).mach_run(*old(store), *old(stack))),
                    },
                    None => u_trap(old(self).mach_run(*old(store), *old(stack))),
                },
                _ => u_trap(old(self).mach_run(*old(store), *old(stack))),
            }),
        ensures
            handler_post(
                *code,
                old(self).mach_run(*old(store), *old(stack)),
                *final(self),
                *final(store),
                *final(stack),
                r,
            ),
    {
        proof {
            let m0 = old(self).mach_run(*store, *stack);
            assert(m0.inst() == self.cache@);
            assert(m0.base() == self.sp as int);
            assert(crate::machine::body_of(code@, m0) == Some(code@.bodies[self.body as int]));
        }
        let fidx = match self.resolve_local_func(func) {
            Ok(f) => f,
            Err(c) => {
                return Err(c);
            },
        };
        if self.ip >= usize::MAX {
            let _n = code.bodies[self.body as usize].instrs.len();
            return Err(TrapCode::UnreachableCodeReached);
        }
        let decoded = match self.decode_args(code, self.ip + 1) {
            Ok(d) => d,
            Err(c) => {
                return Err(c);
            },
        };
        let args = match self.read_reg_list(stack, &decoded.0) {
            Ok(v) => v,
            Err(c) => {
                return Err(c);
            },
        };
        proof {
            let m0 = old(self).mach_run(*store, *stack);
            assert(m0.inst() == self.cache@);
            assert(m0.base() == self.sp as int);
            assert(crate::machine::body_of(code@, m0) == Some(code@.bodies[self.body as int]));
        }
        self.do_tail_call(store, stack, code, fidx, &args)
    }

    /// Executes a `CallIndirect0`: resolves the table element named by the `CallIndirectParams` trailer and calls it with no arguments.
    pub fn execute_call_indirect_0(
        &mut self,
        store: &mut Store,
        stack: &mut Stack,
        code: &CodeMap,
        results: Reg,
        func_type: u32,
    ) -> (r: Result<Ctl, TrapCode>)
        requires
            old(self).wf(*code, *old(store), *old(stack)),
            step(code@, old(self).mach_run(*old(store), *old(stack))) == (match fetch_at(code@, old(self).mach_run(*old(store), *old(stack)), old(self).mach_run(*old(store), *old(stack)).ip() + 1) {
                Some(Instruction::CallIndirectParams { index, table }) => match old(self).mach_run(*old(store), *old(stack)).read(index) {
                    Some(iv) => match resolve_indirect(code@, old(self).mach_run(*old(store), *old(stack)), func_type, table, iv) {
                        Ok(fidx) => tr_call_resolved(code@, old(self).mach_run(*old(store), *old(stack)), results, fidx, Seq::empty(), old(self).mach_run(*old(store), *old(stack)).ip() + 2),
                        Err(c) => crate::machine::Step::Trap(old(self).mach_run(*old(store), *old(stack)), c),
                    },
                    None => u_trap(old(self).mach_run(*old(store), *old(stack))),
                },
                _ => u_trap(old(self).mach_run(*old(store), *old(stack))),
            }),
        ensures
            handler_post(
                *code,
                old(self).mach_run(*old(store), *old(stack)),
                *final(self),
                *final(store),
                *final(stack),
                r,
            ),
    {
        proof {
            let m0 = old(self).mach_run(*store, *stack);
            assert(m0.inst() == self.cache@);
            assert(m0.base() == self.sp as int);
            assert(crate::machine::body_of(code@, m0) == Some(code@.bodies[self.body as int]));
        }
        let params = self.fetch_trailer(code, 1);
        let (index, table) = match params {
            Some(Instruction::CallIndirectParams { index, table }) => (index, table),
            _ => {
                return Err(TrapCode::UnreachableCodeReached);
            },
        };
        let iv = match self.get_register(stack, index) {
            Ok(v) => v,
            Err(e) => {
                return Err(e);
            },
        };
        proof {
            let m0 = old(self).mach_run(*store, *stack);
            assert(m0.inst() == self.cache@);
            assert(m0.base() == self.sp as int);
            assert(crate::machine::body_of(code@, m0) == Some(code@.bodies[self.body as int]));
        }
        let fidx = match self.resolve_indirect_call(
            store,
            code,
            func_type,
            table,
            iv,
            Ghost(old(self).mach_run(*old(store), *old(stack))),
        ) {
            Ok(f) => f,
            Err(c) => {
                return Err(c);
            },
        };
        if self.ip >= usize::MAX - 1 {
            return Err(TrapCode::UnreachableCodeReached);
        }
        let args: Vec<u64> = Vec::new();
        proof {
            assert(args@ =~= Seq::<u64>::empty());
        }
        self.do_call(store, stack, code, results, fidx, &args, self.ip + 2)
    }

    /// Executes a `CallIndirect` with arguments.
    pub fn execute_call_indirect(
        &mut self,
        store: &mut Store,
        stack: &mut Stack,
        code: &CodeMap,
        results: Reg,
        func_type: u32,
    ) -> (r: Result<Ctl, TrapCode>)
        requires
            old(self).wf(*code, *old(store), *old(stack)),
            step(code@, old(self).mach_run(*old(store), *old(stack))) == (match (fetch_at(code@, old(self).mach_run(*old(store), *old(stack)), old(self).mach_run(*old(store), *old(stack)).ip() + 1), crate::machine::body_of(code@, old(self).mach_run(*old(store), *old(stack)))) {
                (Some(Instruction::CallIndirectParams { index, table }), Some(b)) => match old(self).mach_run(*old(store), *old(stack)).read(index) {
                    Some(iv) => match resolve_indirect(code@, old(self).mach_run(*old(store), *old(stack)), func_type, table, iv) {
                        Ok(fidx) => match args_decode(b.instrs, old(self).mach_run(*old(store), *old(stack)).ip() + 2) {
                            Some(decoded) => match read_regs(old(self).mach_run(*old(store), *old(stack)), decoded.0) {
                                Some(args) => tr_call_resolved(code@, old(self).mach_run(*old(store), *old(stack)), results, fidx, args, decoded.1),
                                None => u_trap(old(self).mach_run(*old(store), *old(stack))),
                            },
                            None => u_trap(old(self).mach_run(*old(store), *old(stack))),
                        },
                        Err(c) => crate::machine::Step::Trap(old(self).mach_run(*old(store), *old(stack)), c),
                    },
                    None => u_trap(old(self).mach_run(*old(store), *old(stack))),
                },
                _ => u_trap(old(self).mach_run(*old(store), *old(stack))),
            }),
        ensures
            handler_post(
                *code,
                old(self).mach_run(*old(store), *old(stack)),
                *final(self),
                *final(store),
                *final(stack),
                r,
            ),
    {
        proof {
            let m0 = old(self).mach_run(*store, *stack);
            assert(m0.inst() == self.cache@);
            assert(m0.base() == self.sp as int);
            assert(crate::machine::body_of(code@, m0) == Some(code@.bodies[self.body as int]));
        }
        let params = self.fetch_trailer(code, 1);
        let (index, table) = match params {
            Some(Instruction::CallIndirectParams { index, table }) => (index, table),
            _ => {
                return Err(TrapCode::UnreachableCodeReached);
            },
        };
        let iv = match self.get_register(stack, index) {
            Ok(v) => v,
            Err(e) => {
                return Err(e);
            },
        };
        proof {
            let m0 = old(self).mach_run(*store, *stack);
            assert(m0.inst() == self.cache@);
            assert(m0.base() == self.sp as int);
            assert(crate::machine::body_of(code@, m0) == Some(code@.bodies[self.body as int]));
        }
        let fidx = match self.resolve_indirect_call(
            store,
            code,
            func_type,
            table,
            iv,
            Ghost(old(self).mach_run(*old(store), *old(stack))),
        ) {
            Ok(f) => f,
            Err(c) => {
                return Err(c);
            },
        };
        if self.ip >= usize::MAX - 1 {
            let _n = code.bodies[self.body as usize].instrs.len();
            return Err(TrapCode::UnreachableCodeReached);
        }
        let decoded = match self.decode_args(code, self.ip + 2) {
            Ok(d) => d,
            Err(c) => {
                return Err(c);
            },
        };
        let args = match self.read_reg_list(stack, &decoded.0) {
            Ok(v) => v,
            Err(c) => {
                return Err(c);
            },
        };
        self.do_call(store, stack, code, results, fidx, &args, decoded.1)
    }

    /// Executes a `ReturnCallIndirect0`: an indirect tail call with no arguments.
    pub fn execute_return_call_indirect_0(
        &mut self,
        store: &mut Store,
        stack: &mut Stack,
        code: &CodeMap,
        func_type: u32,
    ) -> (r: Result<Ctl, TrapCode>)
        requires
            old(self).wf(*code, *old(store), *old(stack)),
            step(code@, old(self).mach_run(*old(store), *old(stack))) == (match fetch_at(code@, old(self).mach_run(*old(store), *old(stack)), old(self).mach_run(*old(store), *old(stack)).ip() + 1) {
                Some(Instruction::CallIndirectParams { index, table }) => match old(self).mach_run(*old(store), *old(stack)).read(index) {
                    Some(iv) => match resolve_indirect(code@, old(self).mach_run(*old(store), *old(stack)), func_type, table, iv) {
                        Ok(fidx) => tr_tail_call_resolved(code@, old(self).mach_run(*old(store), *old(stack)), fidx, Seq::empty()),
                        Err(c) => crate::machine::Step::Trap(old(self).mach_run(*old(store), *old(stack)), c),
                    },
                    None => u_trap(old(self).mach_run(*old(store), *old(stack))),
                },
                _ => u_trap(old(self).mach_run(*old(store), *old(stack))),
            }),
        ensures
            handler_post(
                *code,
                old(self).mach_run(*old(store), *old(stack)),
                *final(self),
                *final(store),
                *final(stack),
                r,
            ),
    {
        proof {
            let m0 = old(self).mach_run(*store, *stack);
            assert(m0.inst() == self.cache@);
            assert(m0.base() == self.sp as int);
            assert(crate::machine::body_of(code@, m0) == Some(code@.bodies[self.body as int]));
        }
        let params = self.fetch_trailer(code, 1);
        let (index, table) = match params {
            Some(Instruction::CallIndirectParams { index, table }) => (index, table),
            _ => {
                return Err(TrapCode::UnreachableCodeReached);
            },
        };
        let iv = match self.get_register(stack, index) {
            Ok(v) => v,
            Err(e) => {
                return Err(e);
            },
        };
        proof {
            let m0 = old(self).mach_run(*store, *stack);
            assert(m0.inst() == self.cache@);
            assert(m0.base() == self.sp as int);
            assert(crate::machine::body_of(code@, m0) == Some(code@.bodies[self.body as int]));
        }
        let fidx = match self.resolve_indirect_call(
            store,
            code,
            func_type,
            table,
            iv,
            Ghost(old(self).mach_run(*old(store), *old(stack))),
        ) {
            Ok(f) => f,
            Err(c) => {
                return Err(c);
            },
        };
        let args: Vec<u64> = Vec::new();
        proof {
            assert(args@ =~= Seq::<u64>::empty());
        }
        self.do_tail_call(store, stack, code, fidx, &args)
    }

    /// Executes a `ReturnCallIndirect` with arguments.
    pub fn execute_return_call_indirect(
        &mut self,
        store: &mut Store,
        stack: &mut Stack,
        code: &CodeMap,
        func_type: u32,
    ) -> (r: Result<Ctl, TrapCode>)
        requires
            old(self).wf(*code, *old(store), *old(stack)),
            step(code@, old(self).mach_run(*old(store), *old(stack))) == (match (fetch_at(code@, old(self).mach_run(*old(store), *old(stack)), old(self).mach_run(*old(store), *old(stack)).ip() + 1), crate::machine::body_of(code@, old(self).mach_run(*old(store), *old(stack)))) {
                (Some(Instruction::CallIndirectParams { index, table }), Some(b)) => match old(self).mach_run(*old(store), *old(stack)).read(index) {
                    Some(iv) => match resolve_indirect(code@, old(self).mach_run(*old(store), *old(stack)), func_type, table, iv) {
                        Ok(fidx) => match args_decode(b.instrs, old(self).mach_run(*old(store), *old(stack)).ip() + 2) {
                            Some(decoded) => match read_regs(old(self).mach_run(*old(store), *old(stack)), decoded.0) {
                                Some(args) => tr_tail_call_resolved(code@, old(self).mach_run(*old(store), *old(stack)), fidx, args),
                                None => u_trap(old(self).mach_run(*old(store), *old(stack))),
                            },
                            None => u_trap(old(self).mach_run(*old(store), *old(stack))),
                        },
                        Err(c) => crate::machine::Step::Trap(old(self).mach_run(*old(store), *old(stack)), c),
                    },
                    None => u_trap(old(self).mach_run(*old(store), *old(stack))),
                },
                _ => u_trap(old(self).mach_run(*old(store), *old(stack))),
            }),
        ensures
            handler_post(
                *code,
                old(self).mach_run(*old(store), *old(stack)),
                *final(self),
                *final(store),
                *final(stack),
                r,
            ),
    {
        proof {
            let m0 = old(self).mach_run(*store, *stack);
            assert(m0.inst() == self.cache@);
            assert(m0.base() == self.sp as int);
            assert(crate::machine::body_of(code@, m0) == Some(code@.bodies[self.body as int]));
        }
        let params = self.fetch_trailer(code, 1);
        let (index, table) = match params {
            Some(Instruction::CallIndirectParams { index, table }) => (index, table),
            _ => {
                return Err(TrapCode::UnreachableCodeReached);
            },
        };
        let iv = match self.get_register(stack, index) {
            Ok(v) => v,
            Err(e) => {
                return Err(e);
            },
        };
        proof {
            let m0 = old(self).mach_run(*store, *stack);
            assert(m0.inst() == self.cache@);
            assert(m0.base() == self.sp as int);
            assert(crate::machine::body_of(code@, m0) == Some(code@.bodies[self.body as int]));
        }
        let fidx = match self.resolve_indirect_call(
            store,
            code,
            func_type,
            table,
            iv,
            Ghost(old(self).mach_run(*old(store), *old(stack))),
        ) {
            Ok(f) => f,
            Err(c) => {
                return Err(c);
            },
        };
        if self.ip >= usize::MAX - 1 {
            let _n = code.bodies[self.body as usize].instrs.len();
            return Err(TrapCode::UnreachableCodeReached);
        }
        let decoded = match self.decode_args(code, self.ip + 2) {
            Ok(d) => d,
            Err(c) => {
                return Err(c);
            },
        };
        let args = match self.read_reg_list(stack, &decoded.0) {
            Ok(v) => v,
            Err(c) => {
                return Err(c);
            },
        };
        self.do_tail_call(store, stack, code, fidx, &args)
    }

}

} // verus!
