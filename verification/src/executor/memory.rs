//! Handlers for the memory bulk instructions: size, grow, copy, fill,
//! init and segment drop.
//!
//! Bulk operations are all-or-nothing on a bounds failure: they trap before
//! a single byte is written. Register-held operands are 32-bit values; the
//! `From`/`To`/`Exact` variants carry operands the translator turned into
//! immediates. Growing a memory cannot move any frame window: the register
//! base is an offset into the value stack, not a pointer, so nothing needs
//! re-seating afterwards.

use vstd::prelude::*;
use crate::bytecode::Reg;
use crate::code::CodeMap;
use crate::executor::{handler_post, Ctl, Executor};
use crate::machine::{
    step, tr_data_drop, tr_mem_copy, tr_mem_fill, tr_mem_grow, tr_mem_init, tr_mem_size, u_trap,
};
use crate::stack::Stack;
use crate::store::{Store, PAGE_SIZE};
use crate::trap::TrapCode;
use crate::value::lo32;

verus! {

impl Executor {
    /// Resolves the default linear memory of the executing instance to its
    /// store handle. Relied on by every load, store and memory operation.
    pub fn get_default_memory(&self, store: &Store) -> (r: Result<usize, TrapCode>)
        ensures
            match r {
                Ok(h) => self.cache@.memories.len() >= 1 && h == self.cache@.memories[0] as usize
                    && (h as int) < store@.memories.len(),
                Err(c) => c == TrapCode::UnreachableCodeReached && (self.cache@.memories.len()
                    == 0 || self.cache@.memories[0] as int >= store@.memories.len()),
            },
    {
        if self.cache.memories.len() == 0 {
            return Err(TrapCode::UnreachableCodeReached);
        }
        let h = self.cache.memories[0];
        if (h as usize) < store.memories.len() {
            Ok(h as usize)
        } else {
            Err(TrapCode::UnreachableCodeReached)
        }
    }
    /// Executes a `MemorySize`: the size of the default memory in pages.
    pub fn execute_memory_size(
        &mut self,
        store: &mut Store,
        stack: &mut Stack,
        code: &CodeMap,
        result: Reg,
    ) -> (r: Result<Ctl, TrapCode>)
        requires
            old(self).wf(*code, *old(store), *old(stack)),
            step(code@, old(self).mach_run(*old(store), *old(stack))) == (tr_mem_size(old(self).mach_run(*old(store), *old(stack)), result)),
        ensures
            handler_post(
                *code,
                old(self).mach_run(*old(store), *old(stack)),
                *final(self),
                *final(store),
                *final(stack),
                r,
            ),
    {
        proof {
            let m0 = old(self).mach_run(*store, *stack);
            assert(m0.top().instance == stack.frames@.last().instance);
            assert(m0.inst() == self.cache@);
        }
        let h = match self.get_default_memory(store) {
            Ok(h) => h,
            Err(e) => {
                return Err(e);
            },
        };
        let pages = store.mem_size_pages(h);
        self.write_result_next(store, stack, code, result, pages as u64, 1)
    }

    /// Grows the default memory and writes the previous size in pages, or -1 when the growth was refused: the shared core of the grow forms.
    pub fn do_memory_grow(
        &mut self,
        store: &mut Store,
        stack: &mut Stack,
        code: &CodeMap,
        result: Reg,
        delta: u32,
    ) -> (r: Result<Ctl, TrapCode>)
        requires
            old(self).wf(*code, *old(store), *old(stack)),
            step(code@, old(self).mach_run(*old(store), *old(stack))) == (tr_mem_grow(old(self).mach_run(*old(store), *old(stack)), result, delta as int)),
        ensures
            handler_post(
                *code,
                old(self).mach_run(*old(store), *old(stack)),
                *final(self),
                *final(store),
                *final(stack),
                r,
            ),
    {
        proof {
            let m0 = old(self).mach_run(*store, *stack);
            assert(m0.top().instance == stack.frames@.last().instance);
            assert(m0.inst() == self.cache@);
        }
        let h = match self.get_default_memory(store) {
            Ok(h) => h,
            Err(e) => {
                return Err(e);
            },
        };
        if !stack.reg_ok(self.sp, result as i64) {
            return Err(TrapCode::UnreachableCodeReached);
        }
        let prev = store.mem_grow(h, delta);
        self.write_result_next(store, stack, code, result, prev as u64, 1)
    }

    /// Executes a `MemoryGrow` with a register-held page delta.
    pub fn execute_memory_grow(
        &mut self,
        store: &mut Store,
        stack: &mut Stack,
        code: &CodeMap,
        result: Reg,
        delta: Reg,
    ) -> (r: Result<Ctl, TrapCode>)
        requires
            old(self).wf(*code, *old(store), *old(stack)),
            step(code@, old(self).mach_run(*old(store), *old(stack))) == (match old(self).mach_run(*old(store), *old(stack)).read(delta) {
                Some(d) => tr_mem_grow(old(self).mach_run(*old(store), *old(stack)), result, lo32(d) as int),
                None => u_trap(old(self).mach_run(*old(store), *old(stack))),
            }),
        ensures
            handler_post(
                *code,
                old(self).mach_run(*old(store), *old(stack)),
                *final(self),
                *final(store),
                *final(stack),
                r,
            ),
    {
        let d = match self.get_register(stack, delta) {
            Ok(v) => v,
            Err(e) => {
                return Err(e);
            },
        };
        self.do_memory_grow(store, stack, code, result, (d % 0x1_0000_0000u64) as u32)
    }

    /// Copies within the default memory: the shared core of the copy forms.
    pub fn do_memory_copy(
        &mut self,
        store: &mut Store,
        stack: &mut Stack,
        code: &CodeMap,
        dst: u64,
        src: u64,
        len: u64,
    ) -> (r: Result<Ctl, TrapCode>)
        requires
            old(self).wf(*code, *old(store), *old(stack)),
            step(code@, old(self).mach_run(*old(store), *old(stack))) == (tr_mem_copy(old(self).mach_run(*old(store), *old(stack)), dst as int, src as int, len as int)),
        ensures
            handler_post(
                *code,
                old(self).mach_run(*old(store), *old(stack)),
                *final(self),
                *final(store),
                *final(stack),
                r,
            ),
    {
        let ghost m0 = old(self).mach_run(*store, *stack);
        proof {
            let m0 = old(self).mach_run(*store, *stack);
            assert(m0.top().instance == stack.frames@.last().instance);
            assert(m0.inst() == self.cache@);
        }
        let h = match self.get_default_memory(store) {
            Ok(h) => h,
            Err(e) => {
                return Err(e);
            },
        };
        match store.mem_copy(h, dst, src, len) {
            Ok(_) => {},
            Err(c) => {
                return Err(c);
            },
        }
        self.next_instr();
        proof {
            let m2 = crate::machine::running_of(step(code@, m0));
            assert(self.mach_run(*store, *stack).frames =~= m2.frames);
            assert(self.mach_run(*store, *stack) == m2);
        }
        Ok(Ctl::Next)
    }

    /// Fills a range of the default memory: the shared core of the fill forms.
    pub fn do_memory_fill(
        &mut self,
        store: &mut Store,
        stack: &mut Stack,
        code: &CodeMap,
        dst: u64,
        val: u8,
        len: u64,
    ) -> (r: Result<Ctl, TrapCode>)
        requires
            old(self).wf(*code, *old(store), *old(stack)),
            step(code@, old(self).mach_run(*old(store), *old(stack))) == (tr_mem_fill(old(self).mach_run(*old(store), *old(stack)), dst as int, val, len as int)),
        ensures
            handler_post(
                *code,
                old(self).mach_run(*old(store), *old(stack)),
                *final(self),
                *final(store),
                *final(stack),
                r,
            ),
    {
        let ghost m0 = old(self).mach_run(*store, *stack);
        proof {
            let m0 = old(self).mach_run(*store, *stack);
            assert(m0.top().instance == stack.frames@.last().instance);
            assert(m0.inst() == self.cache@);
        }
        let h = match self.get_default_memory(store) {
            Ok(h) => h,
            Err(e) => {
                return Err(e);
            },
        };
        match store.mem_fill(h, dst, val, len) {
            Ok(_) => {},
            Err(c) => {
                return Err(c);
            },
        }
        self.next_instr();
        proof {
            let m2 = crate::machine::running_of(step(code@, m0));
            assert(self.mach_run(*store, *stack).frames =~= m2.frames);
            assert(self.mach_run(*store, *stack) == m2);
        }
        Ok(Ctl::Next)
    }

    /// Copies out of a passive data segment: the shared core of the init forms. A dropped segment is empty, so a non-zero length traps.
    pub fn do_memory_init(
        &mut self,
        store: &mut Store,
        stack: &mut Stack,
        code: &CodeMap,
        segment: u32,
        dst: u64,
        src: u64,
        len: u64,
    ) -> (r: Result<Ctl, TrapCode>)
        requires
            old(self).wf(*code, *old(store), *old(stack)),
            step(code@, old(self).mach_run(*old(store), *old(stack))) == (tr_mem_init(old(self).mach_run(*old(store), *old(stack)), segment, dst as int, src as int, len as int)),
        ensures
            handler_post(
                *code,
                old(self).mach_run(*old(store), *old(stack)),
                *final(self),
                *final(store),
                *final(stack),
                r,
            ),
    {
        let ghost m0 = old(self).mach_run(*store, *stack);
        proof {
            let m0 = old(self).mach_run(*store, *stack);
            assert(m0.top().instance == stack.frames@.last().instance);
            assert(m0.inst() == self.cache@);
        }
        let h = match self.get_default_memory(store) {
            Ok(h) => h,
            Err(e) => {
                return Err(e);
            },
        };
        if (segment as usize) >= self.cache.datas.len() {
            return Err(TrapCode::UnreachableCodeReached);
        }
        let sh = self.cache.datas[segment as usize];
        if (sh as usize) >= store.datas.len() {
            return Err(TrapCode::UnreachableCodeReached);
        }
        match store.mem_init(h, sh as usize, dst, src, len) {
            Ok(_) => {},
            Err(c) => {
                return Err(c);
            },
        }
        self.next_instr();
        proof {
            let m2 = crate::machine::running_of(step(code@, m0));
            assert(self.mach_run(*store, *stack).frames =~= m2.frames);
            assert(self.mach_run(*store, *stack) == m2);
        }
        Ok(Ctl::Next)
    }

    /// Executes a `DataDrop`: the passive data segment becomes empty.
    pub fn execute_data_drop(
        &mut self,
        store: &mut Store,
        stack: &mut Stack,
        code: &CodeMap,
        segment: u32,
    ) -> (r: Result<Ctl, TrapCode>)
        requires
            old(self).wf(*code, *old(store), *old(stack)),
            step(code@, old(self).mach_run(*old(store), *old(stack))) == (tr_data_drop(old(self).mach_run(*old(store), *old(stack)), segment)),
        ensures
            handler_post(
                *code,
                old(self).mach_run(*old(store), *old(stack)),
                *final(self),
                *final(store),
                *final(stack),
                r,
            ),
    {
        let ghost m0 = old(self).mach_run(*store, *stack);
        proof {
            let m0 = old(self).mach_run(*store, *stack);
            assert(m0.top().instance == stack.frames@.last().instance);
            assert(m0.inst() == self.cache@);
        }
        if (segment as usize) >= self.cache.datas.len() {
            return Err(TrapCode::UnreachableCodeReached);
        }
        let sh = self.cache.datas[segment as usize];
        if (sh as usize) >= store.datas.len() {
            return Err(TrapCode::UnreachableCodeReached);
        }
        store.data_drop(sh as usize);
        self.next_instr();
        proof {
            let m2 = crate::machine::running_of(step(code@, m0));
            assert(self.mach_run(*store, *stack).frames =~= m2.frames);
            assert(self.mach_run(*store, *stack) == m2);
        }
        Ok(Ctl::Next)
    }

    /// Executes a `MemoryCopy` with three register operands.
    pub fn execute_memory_copy(
        &mut self,
        store: &mut Store,
        stack: &mut Stack,
        code: &CodeMap,
        dst: Reg,
        src: Reg,
        len: Reg,
    ) -> (r: Result<Ctl, TrapCode>)
        requires
            old(self).wf(*code, *old(store), *old(stack)),
            step(code@, old(self).mach_run(*old(store), *old(stack))) == (match (old(self).mach_run(*old(store), *old(stack)).read(dst), old(self).mach_run(*old(store), *old(stack)).read(src), old(self).mach_run(*old(store), *old(stack)).read(len)) {
                (Some(d), Some(s), Some(l)) => tr_mem_copy(old(self).mach_run(*old(store), *old(stack)), lo32(d) as int, lo32(s) as int, lo32(l) as int),
                _ => u_trap(old(self).mach_run(*old(store), *old(stack))),
            }),
        ensures
            handler_post(
                *code,
                old(self).mach_run(*old(store), *old(stack)),
                *final(self),
                *final(store),
                *final(stack),
                r,
            ),
    {
        let d = match self.get_register(stack, dst) {
            Ok(v) => v,
            Err(e) => {
                return Err(e);
            },
        };
        let s = match self.get_register(stack, src) {
            Ok(v) => v,
            Err(e) => {
                return Err(e);
            },
        };
        let l = match self.get_register(stack, len) {
            Ok(v) => v,
            Err(e) => {
                return Err(e);
            },
        };
        self.do_memory_copy(store, stack, code, (d % 0x1_0000_0000u64), (s % 0x1_0000_0000u64), (l % 0x1_0000_0000u64))
    }

    /// Executes a `MemoryCopyExact` with an immediate length.
    pub fn execute_memory_copy_exact(
        &mut self,
        store: &mut Store,
        stack: &mut Stack,
        code: &CodeMap,
        dst: Reg,
        src: Reg,
        len: u32,
    ) -> (r: Result<Ctl, TrapCode>)
        requires
            old(self).wf(*code, *old(store), *old(stack)),
            step(code@, old(self).mach_run(*old(store), *old(stack))) == (match (old(self).mach_run(*old(store), *old(stack)).read(dst), old(self).mach_run(*old(store), *old(stack)).read(src)) {
                (Some(d), Some(s)) => tr_mem_copy(old(self).mach_run(*old(store), *old(stack)), lo32(d) as int, lo32(s) as int, len as int),
                _ => u_trap(old(self).mach_run(*old(store), *old(stack))),
            }),
        ensures
            handler_post(
                *code,
                old(self).mach_run(*old(store), *old(stack)),
                *final(self),
                *final(store),
                *final(stack),
                r,
            ),
    {
        let d = match self.get_register(stack, dst) {
            Ok(v) => v,
            Err(e) => {
                return Err(e);
            },
        };
        let s = match self.get_register(stack, src) {
            Ok(v) => v,
            Err(e) => {
                return Err(e);
            },
        };
        self.do_memory_copy(store, stack, code, (d % 0x1_0000_0000u64), (s % 0x1_0000_0000u64), len as u64)
    }

    /// Executes a `MemoryCopyFromTo` with immediate addresses.
    pub fn execute_memory_copy_from_to(
        &mut self,
        store: &mut Store,
        stack: &mut Stack,
        code: &CodeMap,
        dst: u32,
        src: u32,
        len: Reg,
    ) -> (r: Result<Ctl, TrapCode>)
        requires
            old(self).wf(*code, *old(store), *old(stack)),
            step(code@, old(self).mach_run(*old(store), *old(stack))) == (match old(self).mach_run(*old(store), *old(stack)).read(len) {
                Some(l) => tr_mem_copy(old(self).mach_run(*old(store), *old(stack)), dst as int, src as int, lo32(l) as int),
                None => u_trap(old(self).mach_run(*old(store), *old(stack))),
            }),
        ensures
            handler_post(
                *code,
                old(self).mach_run(*old(store), *old(stack)),
                *final(self),
                *final(store),
                *final(stack),
                r,
            ),
    {
        let l = match self.get_register(stack, len) {
            Ok(v) => v,
            Err(e) => {
                return Err(e);
            },
        };
        self.do_memory_copy(store, stack, code, dst as u64, src as u64, (l % 0x1_0000_0000u64))
    }

    /// Executes a fully immediate `MemoryCopyFromToExact`.
    pub fn execute_memory_copy_from_to_exact(
        &mut self,
        store: &mut Store,
        stack: &mut Stack,
        code: &CodeMap,
        dst: u32,
        src: u32,
        len: u32,
    ) -> (r: Result<Ctl, TrapCode>)
        requires
            old(self).wf(*code, *old(store), *old(stack)),
            step(code@, old(self).mach_run(*old(store), *old(stack))) == (tr_mem_copy(old(self).mach_run(*old(store), *old(stack)), dst as int, src as int, len as int)),
        ensures
            handler_post(
                *code,
                old(self).mach_run(*old(store), *old(stack)),
                *final(self),
                *final(store),
                *final(stack),
                r,
            ),
    {
        self.do_memory_copy(store, stack, code, dst as u64, src as u64, len as u64)
    }

    /// Executes a `MemoryFill` with three register operands; the fill byte is the low byte of the value register.
    pub fn execute_memory_fill(
        &mut self,
        store: &mut Store,
        stack: &mut Stack,
        code: &CodeMap,
        dst: Reg,
        value: Reg,
        len: Reg,
    ) -> (r: Result<Ctl, TrapCode>)
        requires
            old(self).wf(*code, *old(store), *old(stack)),
            step(code@, old(self).mach_run(*old(store), *old(stack))) == (match (old(self).mach_run(*old(store), *old(stack)).read(dst), old(self).mach_run(*old(store), *old(stack)).read(value), old(self).mach_run(*old(store), *old(stack)).read(len)) {
                (Some(d), Some(v), Some(l)) => tr_mem_fill(old(self).mach_run(*old(store), *old(stack)), lo32(d) as int, (lo32(v) % 0x100) as u8, lo32(l) as int),
                _ => u_trap(old(self).mach_run(*old(store), *old(stack))),
            }),
        ensures
            handler_post(
                *code,
                old(self).mach_run(*old(store), *old(stack)),
                *final(self),
                *final(store),
                *final(stack),
                r,
            ),
    {
        let d = match self.get_register(stack, dst) {
            Ok(v) => v,
            Err(e) => {
                return Err(e);
            },
        };
        let v = match self.get_register(stack, value) {
            Ok(v) => v,
            Err(e) => {
                return Err(e);
            },
        };
        let l = match self.get_register(stack, len) {
            Ok(v) => v,
            Err(e) => {
                return Err(e);
            },
        };
        self.do_memory_fill(store, stack, code, (d % 0x1_0000_0000u64), (v % 0x100) as u8, (l % 0x1_0000_0000u64))
    }

    /// Executes a `MemoryFillImm` with an immediate fill byte.
    pub fn execute_memory_fill_imm(
        &mut self,
        store: &mut Store,
        stack: &mut Stack,
        code: &CodeMap,
        dst: Reg,
        value: u8,
        len: Reg,
    ) -> (r: Result<Ctl, TrapCode>)
        requires
            old(self).wf(*code, *old(store), *old(stack)),
            step(code@, old(self).mach_run(*old(store), *old(stack))) == (match (old(self).mach_run(*old(store), *old(stack)).read(dst), old(self).mach_run(*old(store), *old(stack)).read(len)) {
                (Some(d), Some(l)) => tr_mem_fill(old(self).mach_run(*old(store), *old(stack)), lo32(d) as int, value, lo32(l) as int),
                _ => u_trap(old(self).mach_run(*old(store), *old(stack))),
            }),
        ensures
            handler_post(
                *code,
                old(self).mach_run(*old(store), *old(stack)),
                *final(self),
                *final(store),
                *final(stack),
                r,
            ),
    {
        let d = match self.get_register(stack, dst) {
            Ok(v) => v,
            Err(e) => {
                return Err(e);
            },
        };
        let l = match self.get_register(stack, len) {
            Ok(v) => v,
            Err(e) => {
                return Err(e);
            },
        };
        self.do_memory_fill(store, stack, code, (d % 0x1_0000_0000u64), value, (l % 0x1_0000_0000u64))
    }

    /// Executes a `MemoryFillImmExact`.
    pub fn execute_memory_fill_imm_exact(
        &mut self,
        store: &mut Store,
        stack: &mut Stack,
        code: &CodeMap,
        dst: Reg,
        value: u8,
        len: u32,
    ) -> (r: Result<Ctl, TrapCode>)
        requires
            old(self).wf(*code, *old(store), *old(stack)),
            step(code@, old(self).mach_run(*old(store), *old(stack))) == (match old(self).mach_run(*old(store), *old(stack)).read(dst) {
                Some(d) => tr_mem_fill(old(self).mach_run(*old(store), *old(stack)), lo32(d) as int, value, len as int),
                None => u_trap(old(self).mach_run(*old(store), *old(stack))),
            }),
        ensures
            handler_post(
                *code,
                old(self).mach_run(*old(store), *old(stack)),
                *final(self),
                *final(store),
                *final(stack),
                r,
            ),
    {
        let d = match self.get_register(stack, dst) {
            Ok(v) => v,
            Err(e) => {
                return Err(e);
            },
        };
        self.do_memory_fill(store, stack, code, (d % 0x1_0000_0000u64), value, len as u64)
    }

    /// Executes a fully immediate `MemoryFillAtImmExact`.
    pub fn execute_memory_fill_at_imm_exact(
        &mut self,
        store: &mut Store,
        stack: &mut Stack,
        code: &CodeMap,
        dst: u32,
        value: u8,
        len: u32,
    ) -> (r: Result<Ctl, TrapCode>)
        requires
            old(self).wf(*code, *old(store), *old(stack)),
            step(code@, old(self).mach_run(*old(store), *old(stack))) == (tr_mem_fill(old(self).mach_run(*old(store), *old(stack)), dst as int, value, len as int)),
        ensures
            handler_post(
                *code,
                old(self).mach_run(*old(store), *old(stack)),
                *final(self),
                *final(store),
                *final(stack),
                r,
            ),
    {
        self.do_memory_fill(store, stack, code, dst as u64, value, len as u64)
    }

    /// Executes a `MemoryInit` with three register operands.
    pub fn execute_memory_init(
        &mut self,
        store: &mut Store,
        stack: &mut Stack,
        code: &CodeMap,
        dst: Reg,
        src: Reg,
        len: Reg,
        segment: u32,
    ) -> (r: Result<Ctl, TrapCode>)
        requires
            old(self).wf(*code, *old(store), *old(stack)),
            step(code@, old(self).mach_run(*old(store), *old(stack))) == (match (old(self).mach_run(*old(store), *old(stack)).read(dst), old(self).mach_run(*old(store), *old(stack)).read(src), old(self).mach_run(*old(store), *old(stack)).read(len)) {
                (Some(d), Some(s), Some(l)) => tr_mem_init(old(self).mach_run(*old(store), *old(stack)), segment, lo32(d) as int, lo32(s) as int, lo32(l) as int),
                _ => u_trap(old(self).mach_run(*old(store), *old(stack))),
            }),
        ensures
            handler_post(
                *code,
                old(self).mach_run(*old(store), *old(stack)),
                *final(self),
                *final(store),
                *final(stack),
                r,
            ),
    {
        let d = match self.get_register(stack, dst) {
            Ok(v) => v,
            Err(e) => {
                return Err(e);
            },
        };
        let s = match self.get_register(stack, src) {
            Ok(v) => v,
            Err(e) => {
                return Err(e);
            },
        };
        let l = match self.get_register(stack, len) {
            Ok(v) => v,
            Err(e) => {
                return Err(e);
            },
        };
        self.do_memory_init(store, stack, code, segment, (d % 0x1_0000_0000u64), (s % 0x1_0000_0000u64), (l % 0x1_0000_0000u64))
    }

    /// Executes a `MemoryInitExact`.
    pub fn execute_memory_init_exact(
        &mut self,
        store: &mut Store,
        stack: &mut Stack,
        code: &CodeMap,
        dst: Reg,
        src: Reg,
        len: u32,
        segment: u32,
    ) -> (r: Result<Ctl, TrapCode>)
        requires
            old(self).wf(*code, *old(store), *old(stack)),
            step(code@, old(self).mach_run(*old(store), *old(stack))) == (match (old(self).mach_run(*old(store), *old(stack)).read(dst), old(self).mach_run(*old(store), *old(stack)).read(src)) {
                (Some(d), Some(s)) => tr_mem_init(old(self).mach_run(*old(store), *old(stack)), segment, lo32(d) as int, lo32(s) as int, len as int),
                _ => u_trap(old(self).mach_run(*old(store), *old(stack))),
            }),
        ensures
            handler_post(
                *code,
                old(self).mach_run(*old(store), *old(stack)),
                *final(self),
                *final(store),
                *final(stack),
                r,
            ),
    {
        let d = match self.get_register(stack, dst) {
            Ok(v) => v,
            Err(e) => {
                return Err(e);
            },
        };
        let s = match self.get_register(stack, src) {
            Ok(v) => v,
            Err(e) => {
                return Err(e);
            },
        };
        self.do_memory_init(store, stack, code, segment, (d % 0x1_0000_0000u64), (s % 0x1_0000_0000u64), len as u64)
    }

    /// Executes a fully immediate `MemoryInitFromToExact`.
    pub fn execute_memory_init_from_to_exact(
        &mut self,
        store: &mut Store,
        stack: &mut Stack,
        code: &CodeMap,
        dst: u32,
        src: u32,
        len: u32,
        segment: u32,
    ) -> (r: Result<Ctl, TrapCode>)
        requires
            old(self).wf(*code, *old(store), *old(stack)),
            step(code@, old(self).mach_run(*old(store), *old(stack))) == (tr_mem_init(old(self).mach_run(*old(store), *old(stack)), segment, dst as int, src as int, len as int)),
        ensures
            handler_post(
                *code,
                old(self).mach_run(*old(store), *old(stack)),
                *final(self),
                *final(store),
                *final(stack),
                r,
            ),
    {
        self.do_memory_init(store, stack, code, segment, dst as u64, src as u64, len as u64)
    }

}

} // verus!
