//! Handlers for the global variable instructions.

use vstd::prelude::*;
use crate::bytecode::Reg;
use crate::code::CodeMap;
use crate::executor::{handler_post, Ctl, Executor};
use crate::machine::{step, tr_global_get, tr_global_set, u_trap};
use crate::stack::Stack;
use crate::store::Store;
use crate::trap::TrapCode;
use crate::value::{extend16_32, extend16_64, sx16_32, sx16_64};

verus! {

impl Executor {
    /// Executes a `GlobalGet` instruction.
    pub fn execute_global_get(
        &mut self,
        store: &mut Store,
        stack: &mut Stack,
        code: &CodeMap,
        result: Reg,
        global: u32,
    ) -> (r: Result<Ctl, TrapCode>)
        requires
            old(self).wf(*code, *old(store), *old(stack)),
            step(code@, old(self).mach_run(*old(store), *old(stack))) == tr_global_get(
                old(self).mach_run(*old(store), *old(stack)),
                result,
                global,
            ),
        ensures
            handler_post(
                *code,
                old(self).mach_run(*old(store), *old(stack)),
                *final(self),
                *final(store),
                *final(stack),
                r,
            ),
    {
        if (global as usize) >= self.cache.globals.len() {
            return Err(TrapCode::UnreachableCodeReached);
        }
        let h = self.cache.globals[global as usize];
        if (h as usize) >= store.globals.len() {
            return Err(TrapCode::UnreachableCodeReached);
        }
        let v = store.global_get(h as usize);
        self.write_result_next(store, stack, code, result, v, 1)
    }

    /// Writes `cell` to the instance-local global `global`: the shared core
    /// of the `GlobalSet` forms.
    pub fn do_global_set(
        &mut self,
        store: &mut Store,
        stack: &mut Stack,
        code: &CodeMap,
        global: u32,
        cell: u64,
    ) -> (r: Result<Ctl, TrapCode>)
        requires
            old(self).wf(*code, *old(store), *old(stack)),
            step(code@, old(self).mach_run(*old(store), *old(stack))) == tr_global_set(
                old(self).mach_run(*old(store), *old(stack)),
                global,
                cell,
            ),
        ensures
            handler_post(
                *code,
                old(self).mach_run(*old(store), *old(stack)),
                *final(self),
                *final(store),
                *final(stack),
                r,
            ),
    {
        let ghost m0 = old(self).mach_run(*store, *stack);
        if (global as usize) >= self.cache.globals.len() {
            return Err(TrapCode::UnreachableCodeReached);
        }
        let h = self.cache.globals[global as usize];
        if (h as usize) >= store.globals.len() {
            return Err(TrapCode::UnreachableCodeReached);
        }
        store.global_set(h as usize, cell);
        self.next_instr();
        proof {
            let m2 = crate::machine::running_of(step(code@, m0));
            assert(self.mach_run(*store, *stack).frames =~= m2.frames);
            assert(self.mach_run(*store, *stack) == m2);
        }
        Ok(Ctl::Next)
    }

    /// Executes a `GlobalSet` instruction with a register input.
    pub fn execute_global_set(
        &mut self,
        store: &mut Store,
        stack: &mut Stack,
        code: &CodeMap,
        global: u32,
        input: Reg,
    ) -> (r: Result<Ctl, TrapCode>)
        requires
            old(self).wf(*code, *old(store), *old(stack)),
            step(code@, old(self).mach_run(*old(store), *old(stack))) == (match old(
                self,
            ).mach_run(*old(store), *old(stack)).read(input) {
                Some(v) => tr_global_set(old(self).mach_run(*old(store), *old(stack)), global, v),
                None => u_trap(old(self).mach_run(*old(store), *old(stack))),
            }),
        ensures
            handler_post(
                *code,
                old(self).mach_run(*old(store), *old(stack)),
                *final(self),
                *final(store),
                *final(stack),
                r,
            ),
    {
        let v = match self.get_register(stack, input) {
            Ok(v) => v,
            Err(c) => {
                return Err(c);
            },
        };
        self.do_global_set(store, stack, code, global, v)
    }

    /// Executes a `GlobalSetI32Imm16` instruction.
    pub fn execute_global_set_i32imm16(
        &mut self,
        store: &mut Store,
        stack: &mut Stack,
        code: &CodeMap,
        global: u32,
        input: i16,
    ) -> (r: Result<Ctl, TrapCode>)
        requires
            old(self).wf(*code, *old(store), *old(stack)),
            step(code@, old(self).mach_run(*old(store), *old(stack))) == tr_global_set(
                old(self).mach_run(*old(store), *old(stack)),
                global,
                sx16_32(input),
            ),
        ensures
            handler_post(
                *code,
                old(self).mach_run(*old(store), *old(stack)),
                *final(self),
                *final(store),
                *final(stack),
                r,
            ),
    {
        let cell = extend16_32(input);
        self.do_global_set(store, stack, code, global, cell)
    }

    /// Executes a `GlobalSetI64Imm16` instruction.
    pub fn execute_global_set_i64imm16(
        &mut self,
        store: &mut Store,
        stack: &mut Stack,
        code: &CodeMap,
        global: u32,
        input: i16,
    ) -> (r: Result<Ctl, TrapCode>)
        requires
            old(self).wf(*code, *old(store), *old(stack)),
            step(code@, old(self).mach_run(*old(store), *old(stack))) == tr_global_set(
                old(self).mach_run(*old(store), *old(stack)),
                global,
                sx16_64(input),
            ),
        ensures
            handler_post(
                *code,
                old(self).mach_run(*old(store), *old(stack)),
                *final(self),
                *final(store),
                *final(stack),
                r,
            ),
    {
        let cell = extend16_64(input);
        self.do_global_set(store, stack, code, global, cell)
    }
}

} // verus!
