//! Handlers for the load instruction family.
//!
//! Variants span the value kinds and three addressing forms: a pointer
//! register with a 32-bit offset held by a trailing `Const32` word, an
//! absolute constant address, and a pointer register with a 16-bit
//! immediate offset. The effective address is `base + offset`, both
//! unsigned; an access past the memory end traps with `MemoryOutOfBounds`.

use vstd::prelude::*;
use crate::bytecode::{Instruction, Reg};
use crate::code::CodeMap;
use crate::executor::{handler_post, Ctl, Executor};
use crate::machine::{fetch_at, step, tr_load, u_trap, Step};
use crate::stack::Stack;
use crate::store::{LoadKind, Store};
use crate::trap::TrapCode;
use crate::value::lo32;

verus! {

impl Executor {
    /// Loads from the resolved effective address: the shared core of the load forms.
    pub fn do_load(
        &mut self,
        store: &mut Store,
        stack: &mut Stack,
        code: &CodeMap,
        kind: LoadKind,
        result: Reg,
        addr: u64,
        skip: usize,
    ) -> (r: Result<Ctl, TrapCode>)
        requires
            old(self).wf(*code, *old(store), *old(stack)),
            step(code@, old(self).mach_run(*old(store), *old(stack))) == (tr_load(old(self).mach_run(*old(store), *old(stack)), kind, result, addr as int, skip as int)),
        ensures
            handler_post(
                *code,
                old(self).mach_run(*old(store), *old(stack)),
                *final(self),
                *final(store),
                *final(stack),
                r,
            ),
    {
        proof {
            let m0 = old(self).mach_run(*store, *stack);
            assert(m0.top().instance == stack.frames@.last().instance);
            assert(m0.inst() == self.cache@);
        }
        let h = match self.get_default_memory(store) {
            Ok(h) => h,
            Err(e) => {
                return Err(e);
            },
        };
        match store.mem_load(h, addr, kind) {
            Ok(v) => self.write_result_next(store, stack, code, result, v, skip),
            Err(c) => Err(c),
        }
    }

    /// Executes a load whose 32-bit offset is held by a `Const32` trailer.
    pub fn execute_load(
        &mut self,
        store: &mut Store,
        stack: &mut Stack,
        code: &CodeMap,
        kind: LoadKind,
        result: Reg,
        ptr: Reg,
    ) -> (r: Result<Ctl, TrapCode>)
        requires
            old(self).wf(*code, *old(store), *old(stack)),
            step(code@, old(self).mach_run(*old(store), *old(stack))) == (match (fetch_at(code@, old(self).mach_run(*old(store), *old(stack)), old(self).mach_run(*old(store), *old(stack)).ip() + 1), old(self).mach_run(*old(store), *old(stack)).read(ptr)) {
                (Some(Instruction::Const32 { value }), Some(p)) => tr_load(
                    old(self).mach_run(*old(store), *old(stack)),
                    kind,
                    result,
                    lo32(p) + value,
                    2,
                ),
                _ => u_trap(old(self).mach_run(*old(store), *old(stack))),
            }),
        ensures
            handler_post(
                *code,
                old(self).mach_run(*old(store), *old(stack)),
                *final(self),
                *final(store),
                *final(stack),
                r,
            ),
    {
        match self.fetch_trailer(code, 1) {
            Some(Instruction::Const32 { value }) => {
        let p = match self.get_register(stack, ptr) {
            Ok(v) => v,
            Err(e) => {
                return Err(e);
            },
        };
                self.do_load(store, stack, code, kind, result, (p % 0x1_0000_0000u64) + value as u64, 2)
            },
            _ => Err(TrapCode::UnreachableCodeReached),
        }
    }

    /// Executes a load from an absolute constant address.
    pub fn execute_load_at(
        &mut self,
        store: &mut Store,
        stack: &mut Stack,
        code: &CodeMap,
        kind: LoadKind,
        result: Reg,
        address: u32,
    ) -> (r: Result<Ctl, TrapCode>)
        requires
            old(self).wf(*code, *old(store), *old(stack)),
            step(code@, old(self).mach_run(*old(store), *old(stack))) == (tr_load(old(self).mach_run(*old(store), *old(stack)), kind, result, address as int, 1)),
        ensures
            handler_post(
                *code,
                old(self).mach_run(*old(store), *old(stack)),
                *final(self),
                *final(store),
                *final(stack),
                r,
            ),
    {
        self.do_load(store, stack, code, kind, result, address as u64, 1)
    }

    /// Executes a load with a 16-bit immediate offset.
    pub fn execute_load_offset16(
        &mut self,
        store: &mut Store,
        stack: &mut Stack,
        code: &CodeMap,
        kind: LoadKind,
        result: Reg,
        ptr: Reg,
        offset: u16,
    ) -> (r: Result<Ctl, TrapCode>)
        requires
            old(self).wf(*code, *old(store), *old(stack)),
            step(code@, old(self).mach_run(*old(store), *old(stack))) == (match old(self).mach_run(*old(store), *old(stack)).read(ptr) {
                Some(p) => tr_load(old(self).mach_run(*old(store), *old(stack)), kind, result, lo32(p) + offset, 1),
                None => u_trap(old(self).mach_run(*old(store), *old(stack))),
            }),
        ensures
            handler_post(
                *code,
                old(self).mach_run(*old(store), *old(stack)),
                *final(self),
                *final(store),
                *final(stack),
                r,
            ),
    {
        let p = match self.get_register(stack, ptr) {
            Ok(v) => v,
            Err(e) => {
                return Err(e);
            },
        };
        self.do_load(store, stack, code, kind, result, (p % 0x1_0000_0000u64) + offset as u64, 1)
    }

}

} // verus!
