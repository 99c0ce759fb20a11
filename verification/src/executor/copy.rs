//! Handlers for the copy and select instruction families.

use vstd::prelude::*;
use crate::bytecode::{Instruction, Reg};
use crate::code::CodeMap;
use crate::executor::{handler_post, Ctl, Executor};
use crate::machine::{
    fetch_at, step, tr_copy, tr_copy2, tr_copy_imm, tr_copy_many, tr_copy_span, tr_select_vals,
    u_trap,
};
use crate::stack::Stack;
use crate::store::Store;
use crate::trap::TrapCode;
use crate::value::{extend32_64, sx32_64};

verus! {

impl Executor {
    /// Executes a `Copy` instruction.
    pub fn execute_copy(
        &mut self,
        store: &mut Store,
        stack: &mut Stack,
        code: &CodeMap,
        result: Reg,
        value: Reg,
    ) -> (r: Result<Ctl, TrapCode>)
        requires
            old(self).wf(*code, *old(store), *old(stack)),
            step(code@, old(self).mach_run(*old(store), *old(stack))) == tr_copy(
                old(self).mach_run(*old(store), *old(stack)),
                result,
                value,
            ),
        ensures
            handler_post(
                *code,
                old(self).mach_run(*old(store), *old(stack)),
                *final(self),
                *final(store),
                *final(stack),
                r,
            ),
    {
        let v = match self.get_register(stack, value) {
            Ok(v) => v,
            Err(c) => {
                return Err(c);
            },
        };
        self.write_result_next(store, stack, code, result, v, 1)
    }

    /// Executes a `Copy2` instruction: both values are read before either
    /// result register is written.
    pub fn execute_copy_2(
        &mut self,
        store: &mut Store,
        stack: &mut Stack,
        code: &CodeMap,
        results: Reg,
        value0: Reg,
        value1: Reg,
    ) -> (r: Result<Ctl, TrapCode>)
        requires
            old(self).wf(*code, *old(store), *old(stack)),
            step(code@, old(self).mach_run(*old(store), *old(stack))) == tr_copy2(
                old(self).mach_run(*old(store), *old(stack)),
                results,
                value0,
                value1,
            ),
        ensures
            handler_post(
                *code,
                old(self).mach_run(*old(store), *old(stack)),
                *final(self),
                *final(store),
                *final(stack),
                r,
            ),
    {
        let ghost m0 = old(self).mach_run(*store, *stack);
        let v0 = match self.get_register(stack, value0) {
            Ok(v) => v,
            Err(c) => {
                return Err(c);
            },
        };
        let v1 = match self.get_register(stack, value1) {
            Ok(v) => v,
            Err(c) => {
                return Err(c);
            },
        };
        if !stack.reg_ok(self.sp, results as i64) || !stack.reg_ok(self.sp, results as i64 + 1) {
            return Err(TrapCode::UnreachableCodeReached);
        }
        match self.set_register(stack, results, v0) {
            Ok(_) => {},
            Err(_) => {
                proof {
                    assert(false);
                }
                return Err(TrapCode::UnreachableCodeReached);
            },
        }
        match stack.write_reg_i(self.sp, results as i64 + 1, v1) {
            Ok(_) => {},
            Err(_) => {
                proof {
                    assert(false);
                }
                return Err(TrapCode::UnreachableCodeReached);
            },
        }
        self.next_instr();
        proof {
            let m2 = crate::machine::running_of(step(code@, m0));
            assert(self.mach_run(*store, *stack).frames =~= m2.frames);
            assert(self.mach_run(*store, *stack) == m2);
        }
        Ok(Ctl::Next)
    }

    /// Executes a `CopyImm32` instruction.
    pub fn execute_copy_imm32(
        &mut self,
        store: &mut Store,
        stack: &mut Stack,
        code: &CodeMap,
        result: Reg,
        value: u32,
    ) -> (r: Result<Ctl, TrapCode>)
        requires
            old(self).wf(*code, *old(store), *old(stack)),
            step(code@, old(self).mach_run(*old(store), *old(stack))) == tr_copy_imm(
                old(self).mach_run(*old(store), *old(stack)),
                result,
                value as u64,
            ),
        ensures
            handler_post(
                *code,
                old(self).mach_run(*old(store), *old(stack)),
                *final(self),
                *final(store),
                *final(stack),
                r,
            ),
    {
        self.write_result_next(store, stack, code, result, value as u64, 1)
    }

    /// Executes a `CopyI64Imm32` instruction.
    pub fn execute_copy_i64imm32(
        &mut self,
        store: &mut Store,
        stack: &mut Stack,
        code: &CodeMap,
        result: Reg,
        value: i32,
    ) -> (r: Result<Ctl, TrapCode>)
        requires
            old(self).wf(*code, *old(store), *old(stack)),
            step(code@, old(self).mach_run(*old(store), *old(stack))) == tr_copy_imm(
                old(self).mach_run(*old(store), *old(stack)),
                result,
                sx32_64(value),
            ),
        ensures
            handler_post(
                *code,
                old(self).mach_run(*old(store), *old(stack)),
                *final(self),
                *final(store),
                *final(stack),
                r,
            ),
    {
        let cell = extend32_64(value);
        self.write_result_next(store, stack, code, result, cell, 1)
    }

    /// Executes a `CopySpan` instruction: the whole source span is read
    /// before the destination span is written, so overlap is harmless.
    pub fn execute_copy_span(
        &mut self,
        store: &mut Store,
        stack: &mut Stack,
        code: &CodeMap,
        results: Reg,
        values: Reg,
        len: u16,
    ) -> (r: Result<Ctl, TrapCode>)
        requires
            old(self).wf(*code, *old(store), *old(stack)),
            step(code@, old(self).mach_run(*old(store), *old(stack))) == tr_copy_span(
                old(self).mach_run(*old(store), *old(stack)),
                results,
                values,
                len,
            ),
        ensures
            handler_post(
                *code,
                old(self).mach_run(*old(store), *old(stack)),
                *final(self),
                *final(store),
                *final(stack),
                r,
            ),
    {
        let ghost m0 = old(self).mach_run(*store, *stack);
        let vals = match stack.read_span(self.sp, values, len) {
            Ok(v) => v,
            Err(c) => {
                return Err(c);
            },
        };
        match stack.write_span(self.sp, results, &vals) {
            Ok(_) => {},
            Err(c) => {
                return Err(c);
            },
        }
        self.next_instr();
        proof {
            let m2 = crate::machine::running_of(step(code@, m0));
            assert(self.mach_run(*store, *stack).frames =~= m2.frames);
            assert(self.mach_run(*store, *stack) == m2);
        }
        Ok(Ctl::Next)
    }

    /// Executes a `CopyMany` instruction: the values named by the trailing
    /// register list land in the span at `results`.
    pub fn execute_copy_many(
        &mut self,
        store: &mut Store,
        stack: &mut Stack,
        code: &CodeMap,
        results: Reg,
    ) -> (r: Result<Ctl, TrapCode>)
        requires
            old(self).wf(*code, *old(store), *old(stack)),
            step(code@, old(self).mach_run(*old(store), *old(stack))) == tr_copy_many(
                code@,
                old(self).mach_run(*old(store), *old(stack)),
                results,
            ),
        ensures
            handler_post(
                *code,
                old(self).mach_run(*old(store), *old(stack)),
                *final(self),
                *final(store),
                *final(stack),
                r,
            ),
    {
        let ghost m0 = old(self).mach_run(*store, *stack);
        if self.ip >= usize::MAX {
            let _n = code.bodies[self.body as usize].instrs.len();
            return Err(TrapCode::UnreachableCodeReached);
        }
        let decoded = match self.decode_args(code, self.ip + 1) {
            Ok(d) => d,
            Err(c) => {
                return Err(c);
            },
        };
        let vals = match self.read_reg_list(stack, &decoded.0) {
            Ok(v) => v,
            Err(c) => {
                return Err(c);
            },
        };
        match stack.write_span(self.sp, results, &vals) {
            Ok(_) => {},
            Err(c) => {
                return Err(c);
            },
        }
        self.ip = decoded.1;
        proof {
            let m2 = crate::machine::running_of(step(code@, m0));
            assert(self.mach_run(*store, *stack).frames =~= m2.frames);
            assert(self.mach_run(*store, *stack) == m2);
        }
        Ok(Ctl::Next)
    }

    /// Picks between two resolved cells on a condition cell and writes the
    /// winner: the shared core of the select forms. Non-zero picks `lhs`.
    pub fn do_select(
        &mut self,
        store: &mut Store,
        stack: &mut Stack,
        code: &CodeMap,
        result: Reg,
        cond: u64,
        lhs: u64,
        rhs: u64,
    ) -> (r: Result<Ctl, TrapCode>)
        requires
            old(self).wf(*code, *old(store), *old(stack)),
            step(code@, old(self).mach_run(*old(store), *old(stack))) == tr_select_vals(
                old(self).mach_run(*old(store), *old(stack)),
                result,
                cond,
                lhs,
                rhs,
            ),
        ensures
            handler_post(
                *code,
                old(self).mach_run(*old(store), *old(stack)),
                *final(self),
                *final(store),
                *final(stack),
                r,
            ),
    {
        let chosen = if cond % 0x1_0000_0000u64 != 0 {
            lhs
        } else {
            rhs
        };
        self.write_result_next(store, stack, code, result, chosen, 2)
    }

    /// Executes a `Select` instruction: the `Register2` trailer names the
    /// condition and the right value.
    pub fn execute_select(
        &mut self,
        store: &mut Store,
        stack: &mut Stack,
        code: &CodeMap,
        result: Reg,
        lhs: Reg,
    ) -> (r: Result<Ctl, TrapCode>)
        requires
            old(self).wf(*code, *old(store), *old(stack)),
            step(code@, old(self).mach_run(*old(store), *old(stack))) == (match fetch_at(
                code@,
                old(self).mach_run(*old(store), *old(stack)),
                old(self).mach_run(*old(store), *old(stack)).ip() + 1,
            ) {
                Some(Instruction::Register2 { reg0, reg1 }) => match (
                    old(self).mach_run(*old(store), *old(stack)).read(reg0),
                    old(self).mach_run(*old(store), *old(stack)).read(lhs),
                    old(self).mach_run(*old(store), *old(stack)).read(reg1),
                ) {
                    (Some(c), Some(a), Some(b)) => tr_select_vals(
                        old(self).mach_run(*old(store), *old(stack)),
                        result,
                        c,
                        a,
                        b,
                    ),
                    _ => u_trap(old(self).mach_run(*old(store), *old(stack))),
                },
                _ => u_trap(old(self).mach_run(*old(store), *old(stack))),
            }),
        ensures
            handler_post(
                *code,
                old(self).mach_run(*old(store), *old(stack)),
                *final(self),
                *final(store),
                *final(stack),
                r,
            ),
    {
        match self.fetch_trailer(code, 1) {
            Some(Instruction::Register2 { reg0, reg1 }) => {
                let c = match self.get_register(stack, reg0) {
                    Ok(v) => v,
                    Err(e) => {
                        return Err(e);
                    },
                };
                let a = match self.get_register(stack, lhs) {
                    Ok(v) => v,
                    Err(e) => {
                        return Err(e);
                    },
                };
                let b = match self.get_register(stack, reg1) {
                    Ok(v) => v,
                    Err(e) => {
                        return Err(e);
                    },
                };
                self.do_select(store, stack, code, result, c, a, b)
            },
            _ => Err(TrapCode::UnreachableCodeReached),
        }
    }

    /// Executes a `SelectImm32Lhs` instruction: the left value is an
    /// immediate.
    pub fn execute_select_imm32_lhs(
        &mut self,
        store: &mut Store,
        stack: &mut Stack,
        code: &CodeMap,
        result: Reg,
        lhs: u32,
    ) -> (r: Result<Ctl, TrapCode>)
        requires
            old(self).wf(*code, *old(store), *old(stack)),
            step(code@, old(self).mach_run(*old(store), *old(stack))) == (match fetch_at(
                code@,
                old(self).mach_run(*old(store), *old(stack)),
                old(self).mach_run(*old(store), *old(stack)).ip() + 1,
            ) {
                Some(Instruction::Register2 { reg0, reg1 }) => match (
                    old(self).mach_run(*old(store), *old(stack)).read(reg0),
                    old(self).mach_run(*old(store), *old(stack)).read(reg1),
                ) {
                    (Some(c), Some(b)) => tr_select_vals(
                        old(self).mach_run(*old(store), *old(stack)),
                        result,
                        c,
                        lhs as u64,
                        b,
                    ),
                    _ => u_trap(old(self).mach_run(*old(store), *old(stack))),
                },
                _ => u_trap(old(self).mach_run(*old(store), *old(stack))),
            }),
        ensures
            handler_post(
                *code,
                old(self).mach_run(*old(store), *old(stack)),
                *final(self),
                *final(store),
                *final(stack),
                r,
            ),
    {
        match self.fetch_trailer(code, 1) {
            Some(Instruction::Register2 { reg0, reg1 }) => {
                let c = match self.get_register(stack, reg0) {
                    Ok(v) => v,
                    Err(e) => {
                        return Err(e);
                    },
                };
                let b = match self.get_register(stack, reg1) {
                    Ok(v) => v,
                    Err(e) => {
                        return Err(e);
                    },
                };
                self.do_select(store, stack, code, result, c, lhs as u64, b)
            },
            _ => Err(TrapCode::UnreachableCodeReached),
        }
    }

    /// Executes a `SelectImm32Rhs` instruction: the right value is an
    /// immediate carried by the `RegisterAndImm32` trailer.
    pub fn execute_select_imm32_rhs(
        &mut self,
        store: &mut Store,
        stack: &mut Stack,
        code: &CodeMap,
        result: Reg,
        lhs: Reg,
    ) -> (r: Result<Ctl, TrapCode>)
        requires
            old(self).wf(*code, *old(store), *old(stack)),
            step(code@, old(self).mach_run(*old(store), *old(stack))) == (match fetch_at(
                code@,
                old(self).mach_run(*old(store), *old(stack)),
                old(self).mach_run(*old(store), *old(stack)).ip() + 1,
            ) {
                Some(Instruction::RegisterAndImm32 { reg, imm }) => match (
                    old(self).mach_run(*old(store), *old(stack)).read(reg),
                    old(self).mach_run(*old(store), *old(stack)).read(lhs),
                ) {
                    (Some(c), Some(a)) => tr_select_vals(
                        old(self).mach_run(*old(store), *old(stack)),
                        result,
                        c,
                        a,
                        imm as u64,
                    ),
                    _ => u_trap(old(self).mach_run(*old(store), *old(stack))),
                },
                _ => u_trap(old(self).mach_run(*old(store), *old(stack))),
            }),
        ensures
            handler_post(
                *code,
                old(self).mach_run(*old(store), *old(stack)),
                *final(self),
                *final(store),
                *final(stack),
                r,
            ),
    {
        match self.fetch_trailer(code, 1) {
            Some(Instruction::RegisterAndImm32 { reg, imm }) => {
                let c = match self.get_register(stack, reg) {
                    Ok(v) => v,
                    Err(e) => {
                        return Err(e);
                    },
                };
                let a = match self.get_register(stack, lhs) {
                    Ok(v) => v,
                    Err(e) => {
                        return Err(e);
                    },
                };
                self.do_select(store, stack, code, result, c, a, imm as u64)
            },
            _ => Err(TrapCode::UnreachableCodeReached),
        }
    }

    /// Executes a `SelectImm32` instruction: both values are immediates.
    pub fn execute_select_imm32(
        &mut self,
        store: &mut Store,
        stack: &mut Stack,
        code: &CodeMap,
        result: Reg,
        lhs: u32,
    ) -> (r: Result<Ctl, TrapCode>)
        requires
            old(self).wf(*code, *old(store), *old(stack)),
            step(code@, old(self).mach_run(*old(store), *old(stack))) == (match fetch_at(
                code@,
                old(self).mach_run(*old(store), *old(stack)),
                old(self).mach_run(*old(store), *old(stack)).ip() + 1,
            ) {
                Some(Instruction::RegisterAndImm32 { reg, imm }) => match old(self).mach_run(
                    *old(store),
                    *old(stack),
                ).read(reg) {
                    Some(c) => tr_select_vals(
                        old(self).mach_run(*old(store), *old(stack)),
                        result,
                        c,
                        lhs as u64,
                        imm as u64,
                    ),
                    None => u_trap(old(self).mach_run(*old(store), *old(stack))),
                },
                _ => u_trap(old(self).mach_run(*old(store), *old(stack))),
            }),
        ensures
            handler_post(
                *code,
                old(self).mach_run(*old(store), *old(stack)),
                *final(self),
                *final(store),
                *final(stack),
                r,
            ),
    {
        match self.fetch_trailer(code, 1) {
            Some(Instruction::RegisterAndImm32 { reg, imm }) => {
                let c = match self.get_register(stack, reg) {
                    Ok(v) => v,
                    Err(e) => {
                        return Err(e);
                    },
                };
                self.do_select(store, stack, code, result, c, lhs as u64, imm as u64)
            },
            _ => Err(TrapCode::UnreachableCodeReached),
        }
    }
}

} // verus!
