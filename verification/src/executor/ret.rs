//! Handlers for the return family: returning values to the caller's result
//! span, popping the frame, and the conditional `ReturnNez` forms.

use vstd::prelude::*;
use crate::bytecode::Reg;
use crate::code::CodeMap;
use crate::executor::{handler_post, Ctl, Executor};
use crate::machine::{step, tr_return_nez_vals, tr_return_vals, u_trap};
use crate::stack::Stack;
use crate::store::Store;
use crate::trap::TrapCode;
use crate::value::{extend32_64, sx32_64};

verus! {

impl Executor {
    /// Returns `vals` from the executing frame: writes them to the result
    /// span in the caller's window (at absolute offset 0 for the root),
    /// deallocates the frame's window and pops it. The shared core of the
    /// return forms.
    pub fn do_return_vals(
        &mut self,
        store: &mut Store,
        stack: &mut Stack,
        code: &CodeMap,
        vals: &Vec<u64>,
    ) -> (r: Result<Ctl, TrapCode>)
        requires
            old(self).wf(*code, *old(store), *old(stack)),
            step(code@, old(self).mach_run(*old(store), *old(stack))) == tr_return_vals(
                old(self).mach_run(*old(store), *old(stack)),
                vals@,
            ),
        ensures
            handler_post(
                *code,
                old(self).mach_run(*old(store), *old(stack)),
                *final(self),
                *final(store),
                *final(stack),
                r,
            ),
    {
        let ghost m0 = old(self).mach_run(*store, *stack);
        proof {
            assert(m0.frames.drop_last() =~= stack.frames@.drop_last());
        }
        let n = stack.height();
        let fr = stack.frames[n - 1];
        let dst_base: usize = if n == 1 {
            0
        } else {
            let caller = stack.frames[n - 2];
            caller.base
        };
        match stack.write_span(dst_base, fr.results, vals) {
            Ok(_) => {},
            Err(c) => {
                return Err(c);
            },
        }
        let _popped = stack.pop_frame();
        stack.shrink_values(fr.base);
        if n == 1 {
            proof {
                let m2 = crate::machine::running_of(step(code@, m0));
                assert(crate::executor::mach_of(*store, *stack) == m2);
            }
            Ok(Ctl::Returned)
        } else {
            proof {
                let m2 = crate::machine::running_of(step(code@, m0));
                assert(crate::executor::mach_of(*store, *stack) == m2);
            }
            Ok(Ctl::Changed)
        }
    }

    /// Executes a `Return` with no values.
    pub fn execute_return(
        &mut self,
        store: &mut Store,
        stack: &mut Stack,
        code: &CodeMap,
    ) -> (r: Result<Ctl, TrapCode>)
        requires
            old(self).wf(*code, *old(store), *old(stack)),
            step(code@, old(self).mach_run(*old(store), *old(stack))) == tr_return_vals(
                old(self).mach_run(*old(store), *old(stack)),
                Seq::empty(),
            ),
        ensures
            handler_post(
                *code,
                old(self).mach_run(*old(store), *old(stack)),
                *final(self),
                *final(store),
                *final(stack),
                r,
            ),
    {
        let vals: Vec<u64> = Vec::new();
        proof {
            assert(vals@ =~= Seq::<u64>::empty());
        }
        self.do_return_vals(store, stack, code, &vals)
    }

    /// Executes a `ReturnReg`: one register value.
    pub fn execute_return_reg(
        &mut self,
        store: &mut Store,
        stack: &mut Stack,
        code: &CodeMap,
        value: Reg,
    ) -> (r: Result<Ctl, TrapCode>)
        requires
            old(self).wf(*code, *old(store), *old(stack)),
            step(code@, old(self).mach_run(*old(store), *old(stack))) == (match old(
                self,
            ).mach_run(*old(store), *old(stack)).read(value) {
                Some(v) => tr_return_vals(old(self).mach_run(*old(store), *old(stack)), seq![v]),
                None => u_trap(old(self).mach_run(*old(store), *old(stack))),
            }),
        ensures
            handler_post(
                *code,
                old(self).mach_run(*old(store), *old(stack)),
                *final(self),
                *final(store),
                *final(stack),
                r,
            ),
    {
        let v = match self.get_register(stack, value) {
            Ok(v) => v,
            Err(c) => {
                return Err(c);
            },
        };
        let mut vals: Vec<u64> = Vec::new();
        vals.push(v);
        proof {
            assert(vals@ =~= seq![v]);
        }
        self.do_return_vals(store, stack, code, &vals)
    }

    /// Executes a `ReturnReg2`: two register values.
    pub fn execute_return_reg2(
        &mut self,
        store: &mut Store,
        stack: &mut Stack,
        code: &CodeMap,
        value0: Reg,
        value1: Reg,
    ) -> (r: Result<Ctl, TrapCode>)
        requires
            old(self).wf(*code, *old(store), *old(stack)),
            step(code@, old(self).mach_run(*old(store), *old(stack))) == (match (
                old(self).mach_run(*old(store), *old(stack)).read(value0),
                old(self).mach_run(*old(store), *old(stack)).read(value1),
            ) {
                (Some(v0), Some(v1)) => tr_return_vals(
                    old(self).mach_run(*old(store), *old(stack)),
                    seq![v0, v1],
                ),
                _ => u_trap(old(self).mach_run(*old(store), *old(stack))),
            }),
        ensures
            handler_post(
                *code,
                old(self).mach_run(*old(store), *old(stack)),
                *final(self),
                *final(store),
                *final(stack),
                r,
            ),
    {
        let v0 = match self.get_register(stack, value0) {
            Ok(v) => v,
            Err(c) => {
                return Err(c);
            },
        };
        let v1 = match self.get_register(stack, value1) {
            Ok(v) => v,
            Err(c) => {
                return Err(c);
            },
        };
        let mut vals: Vec<u64> = Vec::new();
        vals.push(v0);
        vals.push(v1);
        proof {
            assert(vals@ =~= seq![v0, v1]);
        }
        self.do_return_vals(store, stack, code, &vals)
    }

    /// Executes a `ReturnImm32`: one 32-bit immediate value.
    pub fn execute_return_imm32(
        &mut self,
        store: &mut Store,
        stack: &mut Stack,
        code: &CodeMap,
        value: u32,
    ) -> (r: Result<Ctl, TrapCode>)
        requires
            old(self).wf(*code, *old(store), *old(stack)),
            step(code@, old(self).mach_run(*old(store), *old(stack))) == tr_return_vals(
                old(self).mach_run(*old(store), *old(stack)),
                seq![value as u64],
            ),
        ensures
            handler_post(
                *code,
                old(self).mach_run(*old(store), *old(stack)),
                *final(self),
                *final(store),
                *final(stack),
                r,
            ),
    {
        let mut vals: Vec<u64> = Vec::new();
        vals.push(value as u64);
        proof {
            assert(vals@ =~= seq![value as u64]);
        }
        self.do_return_vals(store, stack, code, &vals)
    }

    /// Executes a `ReturnI64Imm32`: one sign-extended immediate value.
    pub fn execute_return_i64imm32(
        &mut self,
        store: &mut Store,
        stack: &mut Stack,
        code: &CodeMap,
        value: i32,
    ) -> (r: Result<Ctl, TrapCode>)
        requires
            old(self).wf(*code, *old(store), *old(stack)),
            step(code@, old(self).mach_run(*old(store), *old(stack))) == tr_return_vals(
                old(self).mach_run(*old(store), *old(stack)),
                seq![sx32_64(value)],
            ),
        ensures
            handler_post(
                *code,
                old(self).mach_run(*old(store), *old(stack)),
                *final(self),
                *final(store),
                *final(stack),
                r,
            ),
    {
        let cell = extend32_64(value);
        let mut vals: Vec<u64> = Vec::new();
        vals.push(cell);
        proof {
            assert(vals@ =~= seq![sx32_64(value)]);
        }
        self.do_return_vals(store, stack, code, &vals)
    }

    /// Executes a `ReturnSpan`: a contiguous span of register values.
    pub fn execute_return_span(
        &mut self,
        store: &mut Store,
        stack: &mut Stack,
        code: &CodeMap,
        values: Reg,
        len: u16,
    ) -> (r: Result<Ctl, TrapCode>)
        requires
            old(self).wf(*code, *old(store), *old(stack)),
            step(code@, old(self).mach_run(*old(store), *old(stack))) == (match crate::stack::read_span_s(
                old(self).mach_run(*old(store), *old(stack)).values,
                old(self).mach_run(*old(store), *old(stack)).base(),
                values as int,
                len as int,
            ) {
                Some(vals) => tr_return_vals(old(self).mach_run(*old(store), *old(stack)), vals),
                None => u_trap(old(self).mach_run(*old(store), *old(stack))),
            }),
        ensures
            handler_post(
                *code,
                old(self).mach_run(*old(store), *old(stack)),
                *final(self),
                *final(store),
                *final(stack),
                r,
            ),
    {
        let vals = match stack.read_span(self.sp, values, len) {
            Ok(v) => v,
            Err(c) => {
                return Err(c);
            },
        };
        self.do_return_vals(store, stack, code, &vals)
    }

    /// Conditionally returns `vals`: the shared core of the `ReturnNez`
    /// forms. A zero condition falls through to the next instruction.
    pub fn do_return_nez(
        &mut self,
        store: &mut Store,
        stack: &mut Stack,
        code: &CodeMap,
        condition: Reg,
        vals: &Vec<u64>,
    ) -> (r: Result<Ctl, TrapCode>)
        requires
            old(self).wf(*code, *old(store), *old(stack)),
            step(code@, old(self).mach_run(*old(store), *old(stack))) == tr_return_nez_vals(
                old(self).mach_run(*old(store), *old(stack)),
                condition,
                vals@,
            ),
        ensures
            handler_post(
                *code,
                old(self).mach_run(*old(store), *old(stack)),
                *final(self),
                *final(store),
                *final(stack),
                r,
            ),
    {
        let ghost m0 = old(self).mach_run(*store, *stack);
        let c = match self.get_register(stack, condition) {
            Ok(v) => v,
            Err(e) => {
                return Err(e);
            },
        };
        if c % 0x1_0000_0000u64 != 0 {
            self.do_return_vals(store, stack, code, vals)
        } else {
            self.next_instr();
            proof {
                let m2 = crate::machine::running_of(step(code@, m0));
                assert(self.mach_run(*store, *stack).frames =~= m2.frames);
                assert(self.mach_run(*store, *stack) == m2);
            }
            Ok(Ctl::Next)
        }
    }

    /// Executes a `ReturnNez` with no values.
    pub fn execute_return_nez(
        &mut self,
        store: &mut Store,
        stack: &mut Stack,
        code: &CodeMap,
        condition: Reg,
    ) -> (r: Result<Ctl, TrapCode>)
        requires
            old(self).wf(*code, *old(store), *old(stack)),
            step(code@, old(self).mach_run(*old(store), *old(stack))) == tr_return_nez_vals(
                old(self).mach_run(*old(store), *old(stack)),
                condition,
                Seq::empty(),
            ),
        ensures
            handler_post(
                *code,
                old(self).mach_run(*old(store), *old(stack)),
                *final(self),
                *final(store),
                *final(stack),
                r,
            ),
    {
        let vals: Vec<u64> = Vec::new();
        proof {
            assert(vals@ =~= Seq::<u64>::empty());
        }
        self.do_return_nez(store, stack, code, condition, &vals)
    }

    /// Executes a `ReturnNezReg`: one register value.
    pub fn execute_return_nez_reg(
        &mut self,
        store: &mut Store,
        stack: &mut Stack,
        code: &CodeMap,
        condition: Reg,
        value: Reg,
    ) -> (r: Result<Ctl, TrapCode>)
        requires
            old(self).wf(*code, *old(store), *old(stack)),
            step(code@, old(self).mach_run(*old(store), *old(stack))) == (match old(
                self,
            ).mach_run(*old(store), *old(stack)).read(value) {
                Some(v) => tr_return_nez_vals(
                    old(self).mach_run(*old(store), *old(stack)),
                    condition,
                    seq![v],
                ),
                None => u_trap(old(self).mach_run(*old(store), *old(stack))),
            }),
        ensures
            handler_post(
                *code,
                old(self).mach_run(*old(store), *old(stack)),
                *final(self),
                *final(store),
                *final(stack),
                r,
            ),
    {
        let v = match self.get_register(stack, value) {
            Ok(v) => v,
            Err(c) => {
                return Err(c);
            },
        };
        let mut vals: Vec<u64> = Vec::new();
        vals.push(v);
        proof {
            assert(vals@ =~= seq![v]);
        }
        self.do_return_nez(store, stack, code, condition, &vals)
    }

    /// Executes a `ReturnNezImm32`: one immediate value.
    pub fn execute_return_nez_imm32(
        &mut self,
        store: &mut Store,
        stack: &mut Stack,
        code: &CodeMap,
        condition: Reg,
        value: u32,
    ) -> (r: Result<Ctl, TrapCode>)
        requires
            old(self).wf(*code, *old(store), *old(stack)),
            step(code@, old(self).mach_run(*old(store), *old(stack))) == tr_return_nez_vals(
                old(self).mach_run(*old(store), *old(stack)),
                condition,
                seq![value as u64],
            ),
        ensures
            handler_post(
                *code,
                old(self).mach_run(*old(store), *old(stack)),
                *final(self),
                *final(store),
                *final(stack),
                r,
            ),
    {
        let mut vals: Vec<u64> = Vec::new();
        vals.push(value as u64);
        proof {
            assert(vals@ =~= seq![value as u64]);
        }
        self.do_return_nez(store, stack, code, condition, &vals)
    }
}

} // verus!
