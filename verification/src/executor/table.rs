//! Handlers for the table instructions: get, set, size, copy, fill, init,
//! grow and element-segment drop.

use vstd::prelude::*;
use crate::bytecode::Reg;
use crate::code::CodeMap;
use crate::executor::{handler_post, Ctl, Executor};
use crate::machine::{
    step, tr_elem_drop, tr_table_copy, tr_table_fill, tr_table_get, tr_table_grow, tr_table_init,
    tr_table_set, tr_table_size, u_trap,
};
use crate::stack::Stack;
use crate::store::Store;
use crate::trap::TrapCode;
use crate::value::lo32;

verus! {

impl Executor {
    /// Resolves an instance-local table index to its store handle.
    pub fn get_table(&self, store: &Store, t: u32) -> (r: Result<usize, TrapCode>)
        ensures
            match r {
                Ok(h) => (t as int) < self.cache@.tables.len() && h
                    == self.cache@.tables[t as int] as usize && (h as int) < store@.tables.len(),
                Err(c) => c == TrapCode::UnreachableCodeReached && (t as int
                    >= self.cache@.tables.len() || self.cache@.tables[t as int] as int
                    >= store@.tables.len()),
            },
    {
        if (t as usize) >= self.cache.tables.len() {
            return Err(TrapCode::UnreachableCodeReached);
        }
        let h = self.cache.tables[t as usize];
        if (h as usize) < store.tables.len() {
            Ok(h as usize)
        } else {
            Err(TrapCode::UnreachableCodeReached)
        }
    }
    /// Reads a table element: the shared core of the get forms.
    pub fn do_table_get(
        &mut self,
        store: &mut Store,
        stack: &mut Stack,
        code: &CodeMap,
        result: Reg,
        table: u32,
        idx: u64,
    ) -> (r: Result<Ctl, TrapCode>)
        requires
            old(self).wf(*code, *old(store), *old(stack)),
            step(code@, old(self).mach_run(*old(store), *old(stack))) == (tr_table_get(old(self).mach_run(*old(store), *old(stack)), result, table, idx as int)),
        ensures
            handler_post(
                *code,
                old(self).mach_run(*old(store), *old(stack)),
                *final(self),
                *final(store),
                *final(stack),
                r,
            ),
    {
        proof {
            let m0 = old(self).mach_run(*store, *stack);
            assert(m0.top().instance == stack.frames@.last().instance);
            assert(m0.inst() == self.cache@);
        }
        let h = match self.get_table(store, table) {
            Ok(h) => h,
            Err(e) => {
                return Err(e);
            },
        };
        match store.table_get(h, idx) {
            Ok(v) => self.write_result_next(store, stack, code, result, v, 1),
            Err(c) => Err(c),
        }
    }

    /// Executes a `TableGet` with a register-held element index.
    pub fn execute_table_get(
        &mut self,
        store: &mut Store,
        stack: &mut Stack,
        code: &CodeMap,
        result: Reg,
        index: Reg,
        table: u32,
    ) -> (r: Result<Ctl, TrapCode>)
        requires
            old(self).wf(*code, *old(store), *old(stack)),
            step(code@, old(self).mach_run(*old(store), *old(stack))) == (match old(self).mach_run(*old(store), *old(stack)).read(index) {
                Some(i) => tr_table_get(old(self).mach_run(*old(store), *old(stack)), result, table, lo32(i) as int),
                None => u_trap(old(self).mach_run(*old(store), *old(stack))),
            }),
        ensures
            handler_post(
                *code,
                old(self).mach_run(*old(store), *old(stack)),
                *final(self),
                *final(store),
                *final(stack),
                r,
            ),
    {
        let i = match self.get_register(stack, index) {
            Ok(v) => v,
            Err(e) => {
                return Err(e);
            },
        };
        self.do_table_get(store, stack, code, result, table, i % 0x1_0000_0000u64)
    }

    /// Writes a table element: the shared core of the set forms.
    pub fn do_table_set(
        &mut self,
        store: &mut Store,
        stack: &mut Stack,
        code: &CodeMap,
        table: u32,
        idx: u64,
        value: u64,
    ) -> (r: Result<Ctl, TrapCode>)
        requires
            old(self).wf(*code, *old(store), *old(stack)),
            step(code@, old(self).mach_run(*old(store), *old(stack))) == (tr_table_set(old(self).mach_run(*old(store), *old(stack)), table, idx as int, value)),
        ensures
            handler_post(
                *code,
                old(self).mach_run(*old(store), *old(stack)),
                *final(self),
                *final(store),
                *final(stack),
                r,
            ),
    {
        let ghost m0 = old(self).mach_run(*store, *stack);
        proof {
            let m0 = old(self).mach_run(*store, *stack);
            assert(m0.top().instance == stack.frames@.last().instance);
            assert(m0.inst() == self.cache@);
        }
        let h = match self.get_table(store, table) {
            Ok(h) => h,
            Err(e) => {
                return Err(e);
            },
        };
        match store.table_set(h, idx, value) {
            Ok(_) => {},
            Err(c) => {
                return Err(c);
            },
        }
        self.next_instr();
        proof {
            let m2 = crate::machine::running_of(step(code@, m0));
            assert(self.mach_run(*store, *stack).frames =~= m2.frames);
            assert(self.mach_run(*store, *stack) == m2);
        }
        Ok(Ctl::Next)
    }

    /// Executes a `TableSize`.
    pub fn execute_table_size(
        &mut self,
        store: &mut Store,
        stack: &mut Stack,
        code: &CodeMap,
        result: Reg,
        table: u32,
    ) -> (r: Result<Ctl, TrapCode>)
        requires
            old(self).wf(*code, *old(store), *old(stack)),
            step(code@, old(self).mach_run(*old(store), *old(stack))) == (tr_table_size(old(self).mach_run(*old(store), *old(stack)), result, table)),
        ensures
            handler_post(
                *code,
                old(self).mach_run(*old(store), *old(stack)),
                *final(self),
                *final(store),
                *final(stack),
                r,
            ),
    {
        proof {
            let m0 = old(self).mach_run(*store, *stack);
            assert(m0.top().instance == stack.frames@.last().instance);
            assert(m0.inst() == self.cache@);
        }
        let h = match self.get_table(store, table) {
            Ok(h) => h,
            Err(e) => {
                return Err(e);
            },
        };
        let n = store.tables[h].elems.len() as u64;
        self.write_result_next(store, stack, code, result, n % 0x1_0000_0000u64, 1)
    }

    /// Copies between two tables, with snapshot semantics: the shared core of the copy forms.
    pub fn do_table_copy(
        &mut self,
        store: &mut Store,
        stack: &mut Stack,
        code: &CodeMap,
        dst_table: u32,
        src_table: u32,
        dst: u64,
        src: u64,
        len: u64,
    ) -> (r: Result<Ctl, TrapCode>)
        requires
            old(self).wf(*code, *old(store), *old(stack)),
            step(code@, old(self).mach_run(*old(store), *old(stack))) == (tr_table_copy(old(self).mach_run(*old(store), *old(stack)), dst_table, src_table, dst as int, src as int, len as int)),
        ensures
            handler_post(
                *code,
                old(self).mach_run(*old(store), *old(stack)),
                *final(self),
                *final(store),
                *final(stack),
                r,
            ),
    {
        let ghost m0 = old(self).mach_run(*store, *stack);
        proof {
            let m0 = old(self).mach_run(*store, *stack);
            assert(m0.top().instance == stack.frames@.last().instance);
            assert(m0.inst() == self.cache@);
        }
        let hd = match self.get_table(store, dst_table) {
            Ok(h) => h,
            Err(e) => {
                return Err(e);
            },
        };
        let hs = match self.get_table(store, src_table) {
            Ok(h) => h,
            Err(e) => {
                return Err(e);
            },
        };
        match store.table_copy(hd, hs, dst, src, len) {
            Ok(_) => {},
            Err(c) => {
                return Err(c);
            },
        }
        self.next_instr();
        proof {
            let m2 = crate::machine::running_of(step(code@, m0));
            assert(self.mach_run(*store, *stack).frames =~= m2.frames);
            assert(self.mach_run(*store, *stack) == m2);
        }
        Ok(Ctl::Next)
    }

    /// Fills a table range: the shared core of the fill forms.
    pub fn do_table_fill(
        &mut self,
        store: &mut Store,
        stack: &mut Stack,
        code: &CodeMap,
        table: u32,
        dst: u64,
        value: u64,
        len: u64,
    ) -> (r: Result<Ctl, TrapCode>)
        requires
            old(self).wf(*code, *old(store), *old(stack)),
            step(code@, old(self).mach_run(*old(store), *old(stack))) == (tr_table_fill(old(self).mach_run(*old(store), *old(stack)), table, dst as int, value, len as int)),
        ensures
            handler_post(
                *code,
                old(self).mach_run(*old(store), *old(stack)),
                *final(self),
                *final(store),
                *final(stack),
                r,
            ),
    {
        let ghost m0 = old(self).mach_run(*store, *stack);
        proof {
            let m0 = old(self).mach_run(*store, *stack);
            assert(m0.top().instance == stack.frames@.last().instance);
            assert(m0.inst() == self.cache@);
        }
        let h = match self.get_table(store, table) {
            Ok(h) => h,
            Err(e) => {
                return Err(e);
            },
        };
        match store.table_fill(h, dst, value, len) {
            Ok(_) => {},
            Err(c) => {
                return Err(c);
            },
        }
        self.next_instr();
        proof {
            let m2 = crate::machine::running_of(step(code@, m0));
            assert(self.mach_run(*store, *stack).frames =~= m2.frames);
            assert(self.mach_run(*store, *stack) == m2);
        }
        Ok(Ctl::Next)
    }

    /// Copies out of a passive element segment: the shared core of the init forms.
    pub fn do_table_init(
        &mut self,
        store: &mut Store,
        stack: &mut Stack,
        code: &CodeMap,
        table: u32,
        segment: u32,
        dst: u64,
        src: u64,
        len: u64,
    ) -> (r: Result<Ctl, TrapCode>)
        requires
            old(self).wf(*code, *old(store), *old(stack)),
            step(code@, old(self).mach_run(*old(store), *old(stack))) == (tr_table_init(old(self).mach_run(*old(store), *old(stack)), table, segment, dst as int, src as int, len as int)),
        ensures
            handler_post(
                *code,
                old(self).mach_run(*old(store), *old(stack)),
                *final(self),
                *final(store),
                *final(stack),
                r,
            ),
    {
        let ghost m0 = old(self).mach_run(*store, *stack);
        proof {
            let m0 = old(self).mach_run(*store, *stack);
            assert(m0.top().instance == stack.frames@.last().instance);
            assert(m0.inst() == self.cache@);
        }
        let h = match self.get_table(store, table) {
            Ok(h) => h,
            Err(e) => {
                return Err(e);
            },
        };
        if (segment as usize) >= self.cache.elems.len() {
            return Err(TrapCode::UnreachableCodeReached);
        }
        let sh = self.cache.elems[segment as usize];
        if (sh as usize) >= store.elem_segs.len() {
            return Err(TrapCode::UnreachableCodeReached);
        }
        match store.table_init(h, sh as usize, dst, src, len) {
            Ok(_) => {},
            Err(c) => {
                return Err(c);
            },
        }
        self.next_instr();
        proof {
            let m2 = crate::machine::running_of(step(code@, m0));
            assert(self.mach_run(*store, *stack).frames =~= m2.frames);
            assert(self.mach_run(*store, *stack) == m2);
        }
        Ok(Ctl::Next)
    }

    /// Grows a table and writes the previous size, or -1 when refused: the shared core of the grow forms.
    pub fn do_table_grow(
        &mut self,
        store: &mut Store,
        stack: &mut Stack,
        code: &CodeMap,
        result: Reg,
        table: u32,
        delta: u32,
        value: u64,
    ) -> (r: Result<Ctl, TrapCode>)
        requires
            old(self).wf(*code, *old(store), *old(stack)),
            step(code@, old(self).mach_run(*old(store), *old(stack))) == (tr_table_grow(old(self).mach_run(*old(store), *old(stack)), result, table, delta as int, value)),
        ensures
            handler_post(
                *code,
                old(self).mach_run(*old(store), *old(stack)),
                *final(self),
                *final(store),
                *final(stack),
                r,
            ),
    {
        proof {
            let m0 = old(self).mach_run(*store, *stack);
            assert(m0.top().instance == stack.frames@.last().instance);
            assert(m0.inst() == self.cache@);
        }
        let h = match self.get_table(store, table) {
            Ok(h) => h,
            Err(e) => {
                return Err(e);
            },
        };
        if !stack.reg_ok(self.sp, result as i64) {
            return Err(TrapCode::UnreachableCodeReached);
        }
        let prev = store.table_grow(h, delta, value);
        self.write_result_next(store, stack, code, result, prev as u64, 1)
    }

    /// Executes an `ElemDrop`: the passive element segment becomes empty.
    pub fn execute_element_drop(
        &mut self,
        store: &mut Store,
        stack: &mut Stack,
        code: &CodeMap,
        segment: u32,
    ) -> (r: Result<Ctl, TrapCode>)
        requires
            old(self).wf(*code, *old(store), *old(stack)),
            step(code@, old(self).mach_run(*old(store), *old(stack))) == (tr_elem_drop(old(self).mach_run(*old(store), *old(stack)), segment)),
        ensures
            handler_post(
                *code,
                old(self).mach_run(*old(store), *old(stack)),
                *final(self),
                *final(store),
                *final(stack),
                r,
            ),
    {
        let ghost m0 = old(self).mach_run(*store, *stack);
        proof {
            let m0 = old(self).mach_run(*store, *stack);
            assert(m0.top().instance == stack.frames@.last().instance);
            assert(m0.inst() == self.cache@);
        }
        if (segment as usize) >= self.cache.elems.len() {
            return Err(TrapCode::UnreachableCodeReached);
        }
        let sh = self.cache.elems[segment as usize];
        if (sh as usize) >= store.elem_segs.len() {
            return Err(TrapCode::UnreachableCodeReached);
        }
        store.elem_drop(sh as usize);
        self.next_instr();
        proof {
            let m2 = crate::machine::running_of(step(code@, m0));
            assert(self.mach_run(*store, *stack).frames =~= m2.frames);
            assert(self.mach_run(*store, *stack) == m2);
        }
        Ok(Ctl::Next)
    }

    /// Executes a `TableGetImm` with an immediate element index.
    pub fn execute_table_get_imm(
        &mut self,
        store: &mut Store,
        stack: &mut Stack,
        code: &CodeMap,
        result: Reg,
        index: u32,
        table: u32,
    ) -> (r: Result<Ctl, TrapCode>)
        requires
            old(self).wf(*code, *old(store), *old(stack)),
            step(code@, old(self).mach_run(*old(store), *old(stack))) == (tr_table_get(old(self).mach_run(*old(store), *old(stack)), result, table, index as int)),
        ensures
            handler_post(
                *code,
                old(self).mach_run(*old(store), *old(stack)),
                *final(self),
                *final(store),
                *final(stack),
                r,
            ),
    {
        self.do_table_get(store, stack, code, result, table, index as u64)
    }

    /// Executes a `TableSet` with a register-held index.
    pub fn execute_table_set(
        &mut self,
        store: &mut Store,
        stack: &mut Stack,
        code: &CodeMap,
        index: Reg,
        value: Reg,
        table: u32,
    ) -> (r: Result<Ctl, TrapCode>)
        requires
            old(self).wf(*code, *old(store), *old(stack)),
            step(code@, old(self).mach_run(*old(store), *old(stack))) == (match (old(self).mach_run(*old(store), *old(stack)).read(index), old(self).mach_run(*old(store), *old(stack)).read(value)) {
                (Some(i), Some(v)) => tr_table_set(old(self).mach_run(*old(store), *old(stack)), table, lo32(i) as int, v),
                _ => u_trap(old(self).mach_run(*old(store), *old(stack))),
            }),
        ensures
            handler_post(
                *code,
                old(self).mach_run(*old(store), *old(stack)),
                *final(self),
                *final(store),
                *final(stack),
                r,
            ),
    {
        let i = match self.get_register(stack, index) {
            Ok(v) => v,
            Err(e) => {
                return Err(e);
            },
        };
        let v = match self.get_register(stack, value) {
            Ok(v) => v,
            Err(e) => {
                return Err(e);
            },
        };
        self.do_table_set(store, stack, code, table, (i % 0x1_0000_0000u64), v)
    }

    /// Executes a `TableSetAt` with an immediate index.
    pub fn execute_table_set_at(
        &mut self,
        store: &mut Store,
        stack: &mut Stack,
        code: &CodeMap,
        index: u32,
        value: Reg,
        table: u32,
    ) -> (r: Result<Ctl, TrapCode>)
        requires
            old(self).wf(*code, *old(store), *old(stack)),
            step(code@, old(self).mach_run(*old(store), *old(stack))) == (match old(self).mach_run(*old(store), *old(stack)).read(value) {
                Some(v) => tr_table_set(old(self).mach_run(*old(store), *old(stack)), table, index as int, v),
                None => u_trap(old(self).mach_run(*old(store), *old(stack))),
            }),
        ensures
            handler_post(
                *code,
                old(self).mach_run(*old(store), *old(stack)),
                *final(self),
                *final(store),
                *final(stack),
                r,
            ),
    {
        let v = match self.get_register(stack, value) {
            Ok(v) => v,
            Err(e) => {
                return Err(e);
            },
        };
        self.do_table_set(store, stack, code, table, index as u64, v)
    }

    /// Executes a `TableCopy` with three register operands.
    pub fn execute_table_copy(
        &mut self,
        store: &mut Store,
        stack: &mut Stack,
        code: &CodeMap,
        dst: Reg,
        src: Reg,
        len: Reg,
        dst_table: u32,
        src_table: u32,
    ) -> (r: Result<Ctl, TrapCode>)
        requires
            old(self).wf(*code, *old(store), *old(stack)),
            step(code@, old(self).mach_run(*old(store), *old(stack))) == (match (old(self).mach_run(*old(store), *old(stack)).read(dst), old(self).mach_run(*old(store), *old(stack)).read(src), old(self).mach_run(*old(store), *old(stack)).read(len)) {
                (Some(d), Some(s), Some(l)) => tr_table_copy(old(self).mach_run(*old(store), *old(stack)), dst_table, src_table, lo32(d) as int, lo32(s) as int, lo32(l) as int),
                _ => u_trap(old(self).mach_run(*old(store), *old(stack))),
            }),
        ensures
            handler_post(
                *code,
                old(self).mach_run(*old(store), *old(stack)),
                *final(self),
                *final(store),
                *final(stack),
                r,
            ),
    {
        let d = match self.get_register(stack, dst) {
            Ok(v) => v,
            Err(e) => {
                return Err(e);
            },
        };
        let s = match self.get_register(stack, src) {
            Ok(v) => v,
            Err(e) => {
                return Err(e);
            },
        };
        let l = match self.get_register(stack, len) {
            Ok(v) => v,
            Err(e) => {
                return Err(e);
            },
        };
        self.do_table_copy(store, stack, code, dst_table, src_table, (d % 0x1_0000_0000u64), (s % 0x1_0000_0000u64), (l % 0x1_0000_0000u64))
    }

    /// Executes a `TableCopyExact`.
    pub fn execute_table_copy_exact(
        &mut self,
        store: &mut Store,
        stack: &mut Stack,
        code: &CodeMap,
        dst: Reg,
        src: Reg,
        len: u32,
        dst_table: u32,
        src_table: u32,
    ) -> (r: Result<Ctl, TrapCode>)
        requires
            old(self).wf(*code, *old(store), *old(stack)),
            step(code@, old(self).mach_run(*old(store), *old(stack))) == (match (old(self).mach_run(*old(store), *old(stack)).read(dst), old(self).mach_run(*old(store), *old(stack)).read(src)) {
                (Some(d), Some(s)) => tr_table_copy(old(self).mach_run(*old(store), *old(stack)), dst_table, src_table, lo32(d) as int, lo32(s) as int, len as int),
                _ => u_trap(old(self).mach_run(*old(store), *old(stack))),
            }),
        ensures
            handler_post(
                *code,
                old(self).mach_run(*old(store), *old(stack)),
                *final(self),
                *final(store),
                *final(stack),
                r,
            ),
    {
        let d = match self.get_register(stack, dst) {
            Ok(v) => v,
            Err(e) => {
                return Err(e);
            },
        };
        let s = match self.get_register(stack, src) {
            Ok(v) => v,
            Err(e) => {
                return Err(e);
            },
        };
        self.do_table_copy(store, stack, code, dst_table, src_table, (d % 0x1_0000_0000u64), (s % 0x1_0000_0000u64), len as u64)
    }

    /// Executes a `TableInit` with three register operands.
    pub fn execute_table_init(
        &mut self,
        store: &mut Store,
        stack: &mut Stack,
        code: &CodeMap,
        dst: Reg,
        src: Reg,
        len: Reg,
        table: u32,
        segment: u32,
    ) -> (r: Result<Ctl, TrapCode>)
        requires
            old(self).wf(*code, *old(store), *old(stack)),
            step(code@, old(self).mach_run(*old(store), *old(stack))) == (match (old(self).mach_run(*old(store), *old(stack)).read(dst), old(self).mach_run(*old(store), *old(stack)).read(src), old(self).mach_run(*old(store), *old(stack)).read(len)) {
                (Some(d), Some(s), Some(l)) => tr_table_init(old(self).mach_run(*old(store), *old(stack)), table, segment, lo32(d) as int, lo32(s) as int, lo32(l) as int),
                _ => u_trap(old(self).mach_run(*old(store), *old(stack))),
            }),
        ensures
            handler_post(
                *code,
                old(self).mach_run(*old(store), *old(stack)),
                *final(self),
                *final(store),
                *final(stack),
                r,
            ),
    {
        let d = match self.get_register(stack, dst) {
            Ok(v) => v,
            Err(e) => {
                return Err(e);
            },
        };
        let s = match self.get_register(stack, src) {
            Ok(v) => v,
            Err(e) => {
                return Err(e);
            },
        };
        let l = match self.get_register(stack, len) {
            Ok(v) => v,
            Err(e) => {
                return Err(e);
            },
        };
        self.do_table_init(store, stack, code, table, segment, (d % 0x1_0000_0000u64), (s % 0x1_0000_0000u64), (l % 0x1_0000_0000u64))
    }

    /// Executes a `TableInitExact`.
    pub fn execute_table_init_exact(
        &mut self,
        store: &mut Store,
        stack: &mut Stack,
        code: &CodeMap,
        dst: Reg,
        src: Reg,
        len: u32,
        table: u32,
        segment: u32,
    ) -> (r: Result<Ctl, TrapCode>)
        requires
            old(self).wf(*code, *old(store), *old(stack)),
            step(code@, old(self).mach_run(*old(store), *old(stack))) == (match (old(self).mach_run(*old(store), *old(stack)).read(dst), old(self).mach_run(*old(store), *old(stack)).read(src)) {
                (Some(d), Some(s)) => tr_table_init(old(self).mach_run(*old(store), *old(stack)), table, segment, lo32(d) as int, lo32(s) as int, len as int),
                _ => u_trap(old(self).mach_run(*old(store), *old(stack))),
            }),
        ensures
            handler_post(
                *code,
                old(self).mach_run(*old(store), *old(stack)),
                *final(self),
                *final(store),
                *final(stack),
                r,
            ),
    {
        let d = match self.get_register(stack, dst) {
            Ok(v) => v,
            Err(e) => {
                return Err(e);
            },
        };
        let s = match self.get_register(stack, src) {
            Ok(v) => v,
            Err(e) => {
                return Err(e);
            },
        };
        self.do_table_init(store, stack, code, table, segment, (d % 0x1_0000_0000u64), (s % 0x1_0000_0000u64), len as u64)
    }

    /// Executes a `TableFill` with register operands.
    pub fn execute_table_fill(
        &mut self,
        store: &mut Store,
        stack: &mut Stack,
        code: &CodeMap,
        dst: Reg,
        len: Reg,
        value: Reg,
        table: u32,
    ) -> (r: Result<Ctl, TrapCode>)
        requires
            old(self).wf(*code, *old(store), *old(stack)),
            step(code@, old(self).mach_run(*old(store), *old(stack))) == (match (old(self).mach_run(*old(store), *old(stack)).read(dst), old(self).mach_run(*old(store), *old(stack)).read(len), old(self).mach_run(*old(store), *old(stack)).read(value)) {
                (Some(d), Some(l), Some(v)) => tr_table_fill(old(self).mach_run(*old(store), *old(stack)), table, lo32(d) as int, v, lo32(l) as int),
                _ => u_trap(old(self).mach_run(*old(store), *old(stack))),
            }),
        ensures
            handler_post(
                *code,
                old(self).mach_run(*old(store), *old(stack)),
                *final(self),
                *final(store),
                *final(stack),
                r,
            ),
    {
        let d = match self.get_register(stack, dst) {
            Ok(v) => v,
            Err(e) => {
                return Err(e);
            },
        };
        let l = match self.get_register(stack, len) {
            Ok(v) => v,
            Err(e) => {
                return Err(e);
            },
        };
        let v = match self.get_register(stack, value) {
            Ok(v) => v,
            Err(e) => {
                return Err(e);
            },
        };
        self.do_table_fill(store, stack, code, table, (d % 0x1_0000_0000u64), v, (l % 0x1_0000_0000u64))
    }

    /// Executes a `TableFillExact`.
    pub fn execute_table_fill_exact(
        &mut self,
        store: &mut Store,
        stack: &mut Stack,
        code: &CodeMap,
        dst: u32,
        len: u32,
        value: Reg,
        table: u32,
    ) -> (r: Result<Ctl, TrapCode>)
        requires
            old(self).wf(*code, *old(store), *old(stack)),
            step(code@, old(self).mach_run(*old(store), *old(stack))) == (match old(self).mach_run(*old(store), *old(stack)).read(value) {
                Some(v) => tr_table_fill(old(self).mach_run(*old(store), *old(stack)), table, dst as int, v, len as int),
                None => u_trap(old(self).mach_run(*old(store), *old(stack))),
            }),
        ensures
            handler_post(
                *code,
                old(self).mach_run(*old(store), *old(stack)),
                *final(self),
                *final(store),
                *final(stack),
                r,
            ),
    {
        let v = match self.get_register(stack, value) {
            Ok(v) => v,
            Err(e) => {
                return Err(e);
            },
        };
        self.do_table_fill(store, stack, code, table, dst as u64, v, len as u64)
    }

    /// Executes a `TableGrow` with a register-held delta.
    pub fn execute_table_grow(
        &mut self,
        store: &mut Store,
        stack: &mut Stack,
        code: &CodeMap,
        result: Reg,
        delta: Reg,
        value: Reg,
        table: u32,
    ) -> (r: Result<Ctl, TrapCode>)
        requires
            old(self).wf(*code, *old(store), *old(stack)),
            step(code@, old(self).mach_run(*old(store), *old(stack))) == (match (old(self).mach_run(*old(store), *old(stack)).read(delta), old(self).mach_run(*old(store), *old(stack)).read(value)) {
                (Some(d), Some(v)) => tr_table_grow(old(self).mach_run(*old(store), *old(stack)), result, table, lo32(d) as int, v),
                _ => u_trap(old(self).mach_run(*old(store), *old(stack))),
            }),
        ensures
            handler_post(
                *code,
                old(self).mach_run(*old(store), *old(stack)),
                *final(self),
                *final(store),
                *final(stack),
                r,
            ),
    {
        let d = match self.get_register(stack, delta) {
            Ok(v) => v,
            Err(e) => {
                return Err(e);
            },
        };
        let v = match self.get_register(stack, value) {
            Ok(v) => v,
            Err(e) => {
                return Err(e);
            },
        };
        self.do_table_grow(store, stack, code, result, table, (d % 0x1_0000_0000u64) as u32, v)
    }

    /// Executes a `TableGrowImm`.
    pub fn execute_table_grow_imm(
        &mut self,
        store: &mut Store,
        stack: &mut Stack,
        code: &CodeMap,
        result: Reg,
        delta: u32,
        value: Reg,
        table: u32,
    ) -> (r: Result<Ctl, TrapCode>)
        requires
            old(self).wf(*code, *old(store), *old(stack)),
            step(code@, old(self).mach_run(*old(store), *old(stack))) == (match old(self).mach_run(*old(store), *old(stack)).read(value) {
                Some(v) => tr_table_grow(old(self).mach_run(*old(store), *old(stack)), result, table, delta as int, v),
                None => u_trap(old(self).mach_run(*old(store), *old(stack))),
            }),
        ensures
            handler_post(
                *code,
                old(self).mach_run(*old(store), *old(stack)),
                *final(self),
                *final(store),
                *final(stack),
                r,
            ),
    {
        let v = match self.get_register(stack, value) {
            Ok(v) => v,
            Err(e) => {
                return Err(e);
            },
        };
        self.do_table_grow(store, stack, code, result, table, delta, v)
    }

}

} // verus!
