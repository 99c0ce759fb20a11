//! Handlers for the store instruction family.
//!
//! A store writes the low `size` bytes of its value cell little-endian at
//! the effective address; immediate-value forms carry a sign-extended
//! 16-bit immediate.

use vstd::prelude::*;
use crate::bytecode::{Instruction, Reg};
use crate::code::CodeMap;
use crate::executor::{handler_post, Ctl, Executor};
use crate::machine::{fetch_at, step, tr_store, u_trap};
use crate::stack::Stack;
use crate::store::Store;
use crate::trap::TrapCode;
use crate::value::lo32;

verus! {

impl Executor {
    /// Stores at the resolved effective address: the shared core of the store forms.
    pub fn do_store(
        &mut self,
        store: &mut Store,
        stack: &mut Stack,
        code: &CodeMap,
        size: u64,
        addr: u64,
        cell: u64,
        skip: usize,
    ) -> (r: Result<Ctl, TrapCode>)
        requires
            old(self).wf(*code, *old(store), *old(stack)),
            1 <= size <= 8,
            step(code@, old(self).mach_run(*old(store), *old(stack))) == (tr_store(old(self).mach_run(*old(store), *old(stack)), size as int, addr as int, cell, skip as int)),
        ensures
            handler_post(
                *code,
                old(self).mach_run(*old(store), *old(stack)),
                *final(self),
                *final(store),
                *final(stack),
                r,
            ),
    {
        let ghost m0 = old(self).mach_run(*store, *stack);
        let h = match self.get_default_memory(store) {
            Ok(h) => h,
            Err(e) => {
                return Err(e);
            },
        };
        match store.mem_store(h, addr, size, cell) {
            Ok(_) => {},
            Err(c) => {
                return Err(c);
            },
        }
        self.next_instr_at(skip);
        proof {
            let m2 = crate::machine::running_of(step(code@, m0));
            assert(self.mach_run(*store, *stack).frames =~= m2.frames);
            assert(self.mach_run(*store, *stack) == m2);
        }
        Ok(Ctl::Next)
    }

    /// Executes a store whose 32-bit offset is held by a `Const32` trailer.
    pub fn execute_store(
        &mut self,
        store: &mut Store,
        stack: &mut Stack,
        code: &CodeMap,
        size: u64,
        ptr: Reg,
        value: Reg,
    ) -> (r: Result<Ctl, TrapCode>)
        requires
            old(self).wf(*code, *old(store), *old(stack)),
            1 <= size <= 8,
            step(code@, old(self).mach_run(*old(store), *old(stack))) == (match (fetch_at(code@, old(self).mach_run(*old(store), *old(stack)), old(self).mach_run(*old(store), *old(stack)).ip() + 1), old(self).mach_run(*old(store), *old(stack)).read(ptr), old(self).mach_run(*old(store), *old(stack)).read(value)) {
                (Some(Instruction::Const32 { value: off }), Some(p), Some(v)) => tr_store(
                    old(self).mach_run(*old(store), *old(stack)),
                    size as int,
                    lo32(p) + off,
                    v,
                    2,
                ),
                _ => u_trap(old(self).mach_run(*old(store), *old(stack))),
            }),
        ensures
            handler_post(
                *code,
                old(self).mach_run(*old(store), *old(stack)),
                *final(self),
                *final(store),
                *final(stack),
                r,
            ),
    {
        match self.fetch_trailer(code, 1) {
            Some(Instruction::Const32 { value: off }) => {
        let p = match self.get_register(stack, ptr) {
            Ok(v) => v,
            Err(e) => {
                return Err(e);
            },
        };
        let v = match self.get_register(stack, value) {
            Ok(v) => v,
            Err(e) => {
                return Err(e);
            },
        };
                self.do_store(store, stack, code, size, (p % 0x1_0000_0000u64) + off as u64, v, 2)
            },
            _ => Err(TrapCode::UnreachableCodeReached),
        }
    }

    /// Executes a store with a 16-bit immediate offset.
    pub fn execute_store_offset16(
        &mut self,
        store: &mut Store,
        stack: &mut Stack,
        code: &CodeMap,
        size: u64,
        ptr: Reg,
        offset: u16,
        value: Reg,
    ) -> (r: Result<Ctl, TrapCode>)
        requires
            old(self).wf(*code, *old(store), *old(stack)),
            1 <= size <= 8,
            step(code@, old(self).mach_run(*old(store), *old(stack))) == (match (old(self).mach_run(*old(store), *old(stack)).read(ptr), old(self).mach_run(*old(store), *old(stack)).read(value)) {
                (Some(p), Some(v)) => tr_store(old(self).mach_run(*old(store), *old(stack)), size as int, lo32(p) + offset, v, 1),
                _ => u_trap(old(self).mach_run(*old(store), *old(stack))),
            }),
        ensures
            handler_post(
                *code,
                old(self).mach_run(*old(store), *old(stack)),
                *final(self),
                *final(store),
                *final(stack),
                r,
            ),
    {
        let p = match self.get_register(stack, ptr) {
            Ok(v) => v,
            Err(e) => {
                return Err(e);
            },
        };
        let v = match self.get_register(stack, value) {
            Ok(v) => v,
            Err(e) => {
                return Err(e);
            },
        };
        self.do_store(store, stack, code, size, (p % 0x1_0000_0000u64) + offset as u64, v, 1)
    }

    /// Executes a store at an absolute constant address.
    pub fn execute_store_at(
        &mut self,
        store: &mut Store,
        stack: &mut Stack,
        code: &CodeMap,
        size: u64,
        address: u32,
        value: Reg,
    ) -> (r: Result<Ctl, TrapCode>)
        requires
            old(self).wf(*code, *old(store), *old(stack)),
            1 <= size <= 8,
            step(code@, old(self).mach_run(*old(store), *old(stack))) == (match old(self).mach_run(*old(store), *old(stack)).read(value) {
                Some(v) => tr_store(old(self).mach_run(*old(store), *old(stack)), size as int, address as int, v, 1),
                None => u_trap(old(self).mach_run(*old(store), *old(stack))),
            }),
        ensures
            handler_post(
                *code,
                old(self).mach_run(*old(store), *old(stack)),
                *final(self),
                *final(store),
                *final(stack),
                r,
            ),
    {
        let v = match self.get_register(stack, value) {
            Ok(v) => v,
            Err(e) => {
                return Err(e);
            },
        };
        self.do_store(store, stack, code, size, address as u64, v, 1)
    }

    /// Executes a store of an immediate value with a 16-bit offset.
    pub fn execute_store_offset16_imm(
        &mut self,
        store: &mut Store,
        stack: &mut Stack,
        code: &CodeMap,
        size: u64,
        ptr: Reg,
        offset: u16,
        cell: u64,
    ) -> (r: Result<Ctl, TrapCode>)
        requires
            old(self).wf(*code, *old(store), *old(stack)),
            1 <= size <= 8,
            step(code@, old(self).mach_run(*old(store), *old(stack))) == (match old(self).mach_run(*old(store), *old(stack)).read(ptr) {
                Some(p) => tr_store(old(self).mach_run(*old(store), *old(stack)), size as int, lo32(p) + offset, cell, 1),
                None => u_trap(old(self).mach_run(*old(store), *old(stack))),
            }),
        ensures
            handler_post(
                *code,
                old(self).mach_run(*old(store), *old(stack)),
                *final(self),
                *final(store),
                *final(stack),
                r,
            ),
    {
        let p = match self.get_register(stack, ptr) {
            Ok(v) => v,
            Err(e) => {
                return Err(e);
            },
        };
        self.do_store(store, stack, code, size, (p % 0x1_0000_0000u64) + offset as u64, cell, 1)
    }

    /// Executes a store of an immediate value at an absolute address.
    pub fn execute_store_at_imm(
        &mut self,
        store: &mut Store,
        stack: &mut Stack,
        code: &CodeMap,
        size: u64,
        address: u32,
        cell: u64,
    ) -> (r: Result<Ctl, TrapCode>)
        requires
            old(self).wf(*code, *old(store), *old(stack)),
            1 <= size <= 8,
            step(code@, old(self).mach_run(*old(store), *old(stack))) == (tr_store(old(self).mach_run(*old(store), *old(stack)), size as int, address as int, cell, 1)),
        ensures
            handler_post(
                *code,
                old(self).mach_run(*old(store), *old(stack)),
                *final(self),
                *final(store),
                *final(stack),
                r,
            ),
    {
        self.do_store(store, stack, code, size, address as u64, cell, 1)
    }

}

} // verus!
