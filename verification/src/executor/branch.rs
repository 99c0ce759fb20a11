//! Handlers for branches, fused compare-branches and branch tables.

use vstd::prelude::*;
use crate::bytecode::{Instruction, Reg};
use crate::code::CodeMap;
use crate::executor::{handler_post, Ctl, Executor};
use crate::machine::{
    branch_to, cmp_imm_cell, step, tr_branch, tr_branch_cmp, tr_branch_cmp_imm, tr_branch_table0,
    tr_branch_table1, Step,
};
use crate::stack::Stack;
use crate::store::Store;
use crate::trap::TrapCode;
use crate::value::{apply_cmp, Comparator};

verus! {

impl Executor {
    /// Jumps to the absolute word position `t`: the shared tail of every
    /// taken branch. A negative or unrepresentable position marks a
    /// corrupt stream.
    pub fn do_branch(
        &mut self,
        store: &Store,
        stack: &Stack,
        code: &CodeMap,
        t: i128,
    ) -> (r: Result<Ctl, TrapCode>)
        requires
            old(self).wf(*code, *store, *stack),
        ensures
            match branch_to(old(self).mach_run(*store, *stack), t as int) {
                Step::Running(m2) => r == Ok::<Ctl, TrapCode>(Ctl::Next) && final(self).mach_run(
                    *store,
                    *stack,
                ) == m2 && final(self).wf(*code, *store, *stack),
                _ => r == Err::<Ctl, TrapCode>(TrapCode::UnreachableCodeReached) && *final(self)
                    == *old(self),
            },
    {
        if 0 <= t && t <= usize::MAX as i128 {
            self.ip = t as usize;
            proof {
                let m2 = crate::machine::running_of(
                    branch_to(old(self).mach_run(*store, *stack), t as int),
                );
                assert(self.mach_run(*store, *stack).frames =~= m2.frames);
                assert(self.mach_run(*store, *stack) == m2);
            }
            Ok(Ctl::Next)
        } else {
            Err(TrapCode::UnreachableCodeReached)
        }
    }

    /// Executes an unconditional `Branch`.
    pub fn execute_branch(
        &mut self,
        store: &mut Store,
        stack: &mut Stack,
        code: &CodeMap,
        offset: i32,
    ) -> (r: Result<Ctl, TrapCode>)
        requires
            old(self).wf(*code, *old(store), *old(stack)),
            step(code@, old(self).mach_run(*old(store), *old(stack))) == tr_branch(
                old(self).mach_run(*old(store), *old(stack)),
                offset as int,
            ),
        ensures
            handler_post(
                *code,
                old(self).mach_run(*old(store), *old(stack)),
                *final(self),
                *final(store),
                *final(stack),
                r,
            ),
    {
        let t = self.ip as i128 + 1 + offset as i128;
        self.do_branch(store, stack, code, t)
    }

    /// Executes a fused compare-branch on two registers; also serves the
    /// fallback form, whose comparator and 32-bit offset did not fit a
    /// dedicated opcode.
    pub fn execute_branch_cmp(
        &mut self,
        store: &mut Store,
        stack: &mut Stack,
        code: &CodeMap,
        c: Comparator,
        lhs: Reg,
        rhs: Reg,
        offset: i32,
    ) -> (r: Result<Ctl, TrapCode>)
        requires
            old(self).wf(*code, *old(store), *old(stack)),
            step(code@, old(self).mach_run(*old(store), *old(stack))) == tr_branch_cmp(
                old(self).mach_run(*old(store), *old(stack)),
                c,
                lhs,
                rhs,
                offset as int,
            ),
        ensures
            handler_post(
                *code,
                old(self).mach_run(*old(store), *old(stack)),
                *final(self),
                *final(store),
                *final(stack),
                r,
            ),
    {
        let a = match self.get_register(stack, lhs) {
            Ok(v) => v,
            Err(e) => {
                return Err(e);
            },
        };
        let b = match self.get_register(stack, rhs) {
            Ok(v) => v,
            Err(e) => {
                return Err(e);
            },
        };
        if apply_cmp(c, a, b) {
            let t = self.ip as i128 + 1 + offset as i128;
            self.do_branch(store, stack, code, t)
        } else {
            let ghost m0 = old(self).mach_run(*store, *stack);
            self.next_instr();
            proof {
                let m2 = crate::machine::running_of(step(code@, m0));
                assert(self.mach_run(*store, *stack).frames =~= m2.frames);
                assert(self.mach_run(*store, *stack) == m2);
            }
            Ok(Ctl::Next)
        }
    }

    /// Executes a fused compare-branch against a 16-bit immediate.
    pub fn execute_branch_cmp_imm(
        &mut self,
        store: &mut Store,
        stack: &mut Stack,
        code: &CodeMap,
        c: Comparator,
        lhs: Reg,
        rhs: i16,
        offset: i32,
    ) -> (r: Result<Ctl, TrapCode>)
        requires
            old(self).wf(*code, *old(store), *old(stack)),
            step(code@, old(self).mach_run(*old(store), *old(stack))) == tr_branch_cmp_imm(
                old(self).mach_run(*old(store), *old(stack)),
                c,
                lhs,
                cmp_imm_cell(c, rhs),
                offset as int,
            ),
        ensures
            handler_post(
                *code,
                old(self).mach_run(*old(store), *old(stack)),
                *final(self),
                *final(store),
                *final(stack),
                r,
            ),
    {
        let a = match self.get_register(stack, lhs) {
            Ok(v) => v,
            Err(e) => {
                return Err(e);
            },
        };
        let cell = super::arith::cmp_cell16(c, rhs);
        if apply_cmp(c, a, cell) {
            let t = self.ip as i128 + 1 + offset as i128;
            self.do_branch(store, stack, code, t)
        } else {
            let ghost m0 = old(self).mach_run(*store, *stack);
            self.next_instr();
            proof {
                let m2 = crate::machine::running_of(step(code@, m0));
                assert(self.mach_run(*store, *stack).frames =~= m2.frames);
                assert(self.mach_run(*store, *stack) == m2);
            }
            Ok(Ctl::Next)
        }
    }

    /// Executes a `BranchTable0`: selects among the trailing targets by the
    /// index register, clamped to the last target.
    pub fn execute_branch_table_0(
        &mut self,
        store: &mut Store,
        stack: &mut Stack,
        code: &CodeMap,
        index: Reg,
        len_targets: u32,
    ) -> (r: Result<Ctl, TrapCode>)
        requires
            old(self).wf(*code, *old(store), *old(stack)),
            step(code@, old(self).mach_run(*old(store), *old(stack))) == tr_branch_table0(
                code@,
                old(self).mach_run(*old(store), *old(stack)),
                index,
                len_targets,
            ),
        ensures
            handler_post(
                *code,
                old(self).mach_run(*old(store), *old(stack)),
                *final(self),
                *final(store),
                *final(stack),
                r,
            ),
    {
        let v = match self.get_register(stack, index) {
            Ok(v) => v,
            Err(e) => {
                return Err(e);
            },
        };
        if len_targets == 0 {
            return Err(TrapCode::UnreachableCodeReached);
        }
        let lv = v % 0x1_0000_0000u64;
        let idx = if lv < (len_targets - 1) as u64 {
            lv
        } else {
            (len_targets - 1) as u64
        };
        let p = self.ip as u128 + 1 + idx as u128;
        match self.fetch_abs(code, p) {
            Some(Instruction::BranchTableTarget { results, offset }) => {
                let t = p as i128 + 1 + offset as i128;
                self.do_branch(store, stack, code, t)
            },
            Some(Instruction::BranchTableTargetNonOverlapping { results, offset }) => {
                let t = p as i128 + 1 + offset as i128;
                self.do_branch(store, stack, code, t)
            },
            _ => Err(TrapCode::UnreachableCodeReached),
        }
    }

    /// Executes a `BranchTable1`: copies the value named by the `Register`
    /// trailer into the chosen target's result register, then branches.
    pub fn execute_branch_table_1(
        &mut self,
        store: &mut Store,
        stack: &mut Stack,
        code: &CodeMap,
        index: Reg,
        len_targets: u32,
    ) -> (r: Result<Ctl, TrapCode>)
        requires
            old(self).wf(*code, *old(store), *old(stack)),
            step(code@, old(self).mach_run(*old(store), *old(stack))) == tr_branch_table1(
                code@,
                old(self).mach_run(*old(store), *old(stack)),
                index,
                len_targets,
            ),
        ensures
            handler_post(
                *code,
                old(self).mach_run(*old(store), *old(stack)),
                *final(self),
                *final(store),
                *final(stack),
                r,
            ),
    {
        let ghost m0 = old(self).mach_run(*store, *stack);
        let v = match self.get_register(stack, index) {
            Ok(v) => v,
            Err(e) => {
                return Err(e);
            },
        };
        let vword = self.fetch_trailer(code, 1);
        let reg = match vword {
            Some(Instruction::Register { reg }) => reg,
            _ => {
                return Err(TrapCode::UnreachableCodeReached);
            },
        };
        let value = match self.get_register(stack, reg) {
            Ok(v) => v,
            Err(e) => {
                return Err(e);
            },
        };
        if len_targets == 0 {
            return Err(TrapCode::UnreachableCodeReached);
        }
        let lv = v % 0x1_0000_0000u64;
        let idx = if lv < (len_targets - 1) as u64 {
            lv
        } else {
            (len_targets - 1) as u64
        };
        let p = self.ip as u128 + 2 + idx as u128;
        let (results, offset) = match self.fetch_abs(code, p) {
            Some(Instruction::BranchTableTarget { results, offset }) => (results, offset),
            Some(Instruction::BranchTableTargetNonOverlapping { results, offset }) => (
                results,
                offset,
            ),
            _ => {
                return Err(TrapCode::UnreachableCodeReached);
            },
        };
        let t = p as i128 + 1 + offset as i128;
        if !(0 <= t && t <= usize::MAX as i128) {
            return Err(TrapCode::UnreachableCodeReached);
        }
        match self.set_register(stack, results, value) {
            Ok(_) => {},
            Err(e) => {
                return Err(e);
            },
        }
        self.ip = t as usize;
        proof {
            let m2 = crate::machine::running_of(step(code@, m0));
            assert(self.mach_run(*store, *stack).frames =~= m2.frames);
            assert(self.mach_run(*store, *stack) == m2);
        }
        Ok(Ctl::Next)
    }
}

} // verus!
