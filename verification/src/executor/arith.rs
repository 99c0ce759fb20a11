//! Handlers for the arithmetic, bitwise, shift, comparison and conversion
//! instruction families.
//!
//! Every binary instruction follows one of the four translated shapes:
//! register-register, register-immediate, reversed register-immediate (for
//! the non-commutative operations) and the division forms whose immediate
//! divisor the translator guarantees non-zero.

use vstd::prelude::*;
use crate::code::CodeMap;
use crate::executor::{handler_post, Ctl, Executor};
use crate::machine::{
    cmp_imm_cell, step, tr_binop, tr_binop_imm, tr_binop_imm_rev, tr_cmp, tr_cmp_imm, tr_divop,
    tr_divop_imm, tr_divop_imm_rev, tr_unop, write_next, Step,
};
use crate::stack::Stack;
use crate::store::Store;
use crate::trap::TrapCode;
use crate::value::{
    apply_binop, apply_cmp, apply_divop, apply_unop, bool_cell, extend16_32, extend16_64, sx16_32,
    sx16_64, BinOp, Comparator, DivOp, UnOp,
};

verus! {

/// Whether a binary operation works on the whole cell; it decides how its
/// 16-bit immediate is extended.
pub open spec fn binop_is_64(op: BinOp) -> bool {
    match op {
        BinOp::I64Add => true,
        BinOp::I64Sub => true,
        BinOp::I64Mul => true,
        BinOp::I64And => true,
        BinOp::I64Or => true,
        BinOp::I64Xor => true,
        BinOp::I64Shl => true,
        BinOp::I64ShrS => true,
        BinOp::I64ShrU => true,
        BinOp::I64Rotl => true,
        BinOp::I64Rotr => true,
        _ => false,
    }
}

/// The cell a binary operation's 16-bit immediate extends to.
pub open spec fn binop_imm_cell(op: BinOp, x: i16) -> u64 {
    if binop_is_64(op) {
        sx16_64(x)
    } else {
        sx16_32(x)
    }
}

/// Whether a division operation works on the whole cell.
pub open spec fn divop_is_64(op: DivOp) -> bool {
    match op {
        DivOp::I64DivS => true,
        DivOp::I64DivU => true,
        DivOp::I64RemS => true,
        DivOp::I64RemU => true,
        _ => false,
    }
}

/// The cell a division operation's 16-bit immediate extends to.
pub open spec fn divop_imm_cell(op: DivOp, x: i16) -> u64 {
    if divop_is_64(op) {
        sx16_64(x)
    } else {
        sx16_32(x)
    }
}

/// Extends a 16-bit immediate for a binary operation.
pub fn binop_cell16(op: BinOp, x: i16) -> (r: u64)
    ensures
        r == binop_imm_cell(op, x),
{
    match op {
        BinOp::I64Add => extend16_64(x),
        BinOp::I64Sub => extend16_64(x),
        BinOp::I64Mul => extend16_64(x),
        BinOp::I64And => extend16_64(x),
        BinOp::I64Or => extend16_64(x),
        BinOp::I64Xor => extend16_64(x),
        BinOp::I64Shl => extend16_64(x),
        BinOp::I64ShrS => extend16_64(x),
        BinOp::I64ShrU => extend16_64(x),
        BinOp::I64Rotl => extend16_64(x),
        BinOp::I64Rotr => extend16_64(x),
        _ => extend16_32(x),
    }
}

/// Extends a 16-bit immediate for a division operation.
pub fn divop_cell16(op: DivOp, x: i16) -> (r: u64)
    ensures
        r == divop_imm_cell(op, x),
{
    match op {
        DivOp::I64DivS => extend16_64(x),
        DivOp::I64DivU => extend16_64(x),
        DivOp::I64RemS => extend16_64(x),
        DivOp::I64RemU => extend16_64(x),
        _ => extend16_32(x),
    }
}

/// Extends a 16-bit immediate for a comparison.
pub fn cmp_cell16(c: Comparator, x: i16) -> (r: u64)
    ensures
        r == cmp_imm_cell(c, x),
{
    match c {
        Comparator::I64Eq => extend16_64(x),
        Comparator::I64Ne => extend16_64(x),
        Comparator::I64LtS => extend16_64(x),
        Comparator::I64LtU => extend16_64(x),
        Comparator::I64LeS => extend16_64(x),
        Comparator::I64LeU => extend16_64(x),
        Comparator::I64GtS => extend16_64(x),
        Comparator::I64GtU => extend16_64(x),
        Comparator::I64GeS => extend16_64(x),
        Comparator::I64GeU => extend16_64(x),
        _ => extend16_32(x),
    }
}

impl Executor {
    /// Writes the result of an instruction and advances by `skip` words:
    /// the shared tail of every value-producing handler.
    pub fn write_result_next(
        &mut self,
        store: &Store,
        stack: &mut Stack,
        code: &CodeMap,
        result: crate::bytecode::Reg,
        v: u64,
        skip: usize,
    ) -> (r: Result<Ctl, TrapCode>)
        requires
            old(self).wf(*code, *store, *old(stack)),
        ensures
            match write_next(
                old(self).mach_run(*store, *old(stack)),
                result as int,
                v,
                skip as int,
            ) {
                Step::Running(m2) => r == Ok::<Ctl, TrapCode>(Ctl::Next) && final(self).mach_run(
                    *store,
                    *final(stack),
                ) == m2 && final(self).wf(*code, *store, *final(stack)),
                _ => r == Err::<Ctl, TrapCode>(TrapCode::UnreachableCodeReached) && final(self).mach_run(*store, *final(stack)) == old(self).mach_run(*store, *old(stack)),
            },
    {
        let ghost m0 = old(self).mach_run(*store, *old(stack));
        match self.set_register(stack, result, v) {
            Ok(_) => {},
            Err(c) => {
                return Err(c);
            },
        }
        self.next_instr_at(skip);
        proof {
            let m2 = crate::machine::running_of(
                write_next(m0, result as int, v, skip as int),
            );
            assert(self.mach_run(*store, *stack).frames =~= m2.frames);
            assert(self.mach_run(*store, *stack) == m2);
        }
        Ok(Ctl::Next)
    }

    /// Executes a generic infallible binary instruction.
    pub fn execute_binary(
        &mut self,
        store: &mut Store,
        stack: &mut Stack,
        code: &CodeMap,
        op: BinOp,
        result: crate::bytecode::Reg,
        lhs: crate::bytecode::Reg,
        rhs: crate::bytecode::Reg,
    ) -> (r: Result<Ctl, TrapCode>)
        requires
            old(self).wf(*code, *old(store), *old(stack)),
            step(code@, old(self).mach_run(*old(store), *old(stack))) == tr_binop(
                old(self).mach_run(*old(store), *old(stack)),
                op,
                result,
                lhs,
                rhs,
            ),
        ensures
            handler_post(
                *code,
                old(self).mach_run(*old(store), *old(stack)),
                *final(self),
                *final(store),
                *final(stack),
                r,
            ),
    {
        let a = match self.get_register(stack, lhs) {
            Ok(v) => v,
            Err(c) => {
                return Err(c);
            },
        };
        let b = match self.get_register(stack, rhs) {
            Ok(v) => v,
            Err(c) => {
                return Err(c);
            },
        };
        let v = apply_binop(op, a, b);
        self.write_result_next(store, stack, code, result, v, 1)
    }

    /// Executes a generic binary instruction whose right operand is a
    /// 16-bit immediate.
    pub fn execute_binary_imm16(
        &mut self,
        store: &mut Store,
        stack: &mut Stack,
        code: &CodeMap,
        op: BinOp,
        result: crate::bytecode::Reg,
        lhs: crate::bytecode::Reg,
        rhs: i16,
    ) -> (r: Result<Ctl, TrapCode>)
        requires
            old(self).wf(*code, *old(store), *old(stack)),
            step(code@, old(self).mach_run(*old(store), *old(stack))) == tr_binop_imm(
                old(self).mach_run(*old(store), *old(stack)),
                op,
                result,
                lhs,
                binop_imm_cell(op, rhs),
            ),
        ensures
            handler_post(
                *code,
                old(self).mach_run(*old(store), *old(stack)),
                *final(self),
                *final(store),
                *final(stack),
                r,
            ),
    {
        let a = match self.get_register(stack, lhs) {
            Ok(v) => v,
            Err(c) => {
                return Err(c);
            },
        };
        let cell = binop_cell16(op, rhs);
        let v = apply_binop(op, a, cell);
        self.write_result_next(store, stack, code, result, v, 1)
    }

    /// Executes a generic binary instruction with a 16-bit immediate left
    /// operand: the reversed form of the non-commutative operations.
    pub fn execute_binary_imm16_rev(
        &mut self,
        store: &mut Store,
        stack: &mut Stack,
        code: &CodeMap,
        op: BinOp,
        result: crate::bytecode::Reg,
        lhs: i16,
        rhs: crate::bytecode::Reg,
    ) -> (r: Result<Ctl, TrapCode>)
        requires
            old(self).wf(*code, *old(store), *old(stack)),
            step(code@, old(self).mach_run(*old(store), *old(stack))) == tr_binop_imm_rev(
                old(self).mach_run(*old(store), *old(stack)),
                op,
                result,
                binop_imm_cell(op, lhs),
                rhs,
            ),
        ensures
            handler_post(
                *code,
                old(self).mach_run(*old(store), *old(stack)),
                *final(self),
                *final(store),
                *final(stack),
                r,
            ),
    {
        let b = match self.get_register(stack, rhs) {
            Ok(v) => v,
            Err(c) => {
                return Err(c);
            },
        };
        let cell = binop_cell16(op, lhs);
        let v = apply_binop(op, cell, b);
        self.write_result_next(store, stack, code, result, v, 1)
    }

    /// Executes a fallible binary instruction: division or remainder on
    /// two registers.
    pub fn try_execute_binary(
        &mut self,
        store: &mut Store,
        stack: &mut Stack,
        code: &CodeMap,
        op: DivOp,
        result: crate::bytecode::Reg,
        lhs: crate::bytecode::Reg,
        rhs: crate::bytecode::Reg,
    ) -> (r: Result<Ctl, TrapCode>)
        requires
            old(self).wf(*code, *old(store), *old(stack)),
            step(code@, old(self).mach_run(*old(store), *old(stack))) == tr_divop(
                old(self).mach_run(*old(store), *old(stack)),
                op,
                result,
                lhs,
                rhs,
            ),
        ensures
            handler_post(
                *code,
                old(self).mach_run(*old(store), *old(stack)),
                *final(self),
                *final(store),
                *final(stack),
                r,
            ),
    {
        let a = match self.get_register(stack, lhs) {
            Ok(v) => v,
            Err(c) => {
                return Err(c);
            },
        };
        let b = match self.get_register(stack, rhs) {
            Ok(v) => v,
            Err(c) => {
                return Err(c);
            },
        };
        let v = match apply_divop(op, a, b) {
            Ok(v) => v,
            Err(c) => {
                return Err(c);
            },
        };
        self.write_result_next(store, stack, code, result, v, 1)
    }

    /// Division or remainder whose 16-bit immediate divisor can still make
    /// the operation trap: the signed forms, on signed minimum over minus
    /// one. A zero divisor marks a corrupt stream: the translator encodes
    /// the divisor in a non-zero immediate type.
    pub fn try_execute_divrem_imm16(
        &mut self,
        store: &mut Store,
        stack: &mut Stack,
        code: &CodeMap,
        op: DivOp,
        result: crate::bytecode::Reg,
        lhs: crate::bytecode::Reg,
        rhs: i16,
    ) -> (r: Result<Ctl, TrapCode>)
        requires
            old(self).wf(*code, *old(store), *old(stack)),
            step(code@, old(self).mach_run(*old(store), *old(stack))) == tr_divop_imm(
                old(self).mach_run(*old(store), *old(stack)),
                op,
                result,
                lhs,
                divop_imm_cell(op, rhs),
            ),
        ensures
            handler_post(
                *code,
                old(self).mach_run(*old(store), *old(stack)),
                *final(self),
                *final(store),
                *final(stack),
                r,
            ),
    {
        let a = match self.get_register(stack, lhs) {
            Ok(v) => v,
            Err(c) => {
                return Err(c);
            },
        };
        let cell = divop_cell16(op, rhs);
        let v = match apply_divop(op, a, cell) {
            Ok(v) => v,
            Err(c) => {
                if matches!(c, TrapCode::IntegerDivisionByZero) {
                    return Err(TrapCode::UnreachableCodeReached);
                }
                return Err(c);
            },
        };
        self.write_result_next(store, stack, code, result, v, 1)
    }

    /// Division or remainder whose 16-bit immediate divisor cannot make
    /// the operation trap: the unsigned forms.
    pub fn execute_divrem_imm16(
        &mut self,
        store: &mut Store,
        stack: &mut Stack,
        code: &CodeMap,
        op: DivOp,
        result: crate::bytecode::Reg,
        lhs: crate::bytecode::Reg,
        rhs: i16,
    ) -> (r: Result<Ctl, TrapCode>)
        requires
            old(self).wf(*code, *old(store), *old(stack)),
            step(code@, old(self).mach_run(*old(store), *old(stack))) == tr_divop_imm(
                old(self).mach_run(*old(store), *old(stack)),
                op,
                result,
                lhs,
                divop_imm_cell(op, rhs),
            ),
        ensures
            handler_post(
                *code,
                old(self).mach_run(*old(store), *old(stack)),
                *final(self),
                *final(store),
                *final(stack),
                r,
            ),
    {
        self.try_execute_divrem_imm16(store, stack, code, op, result, lhs, rhs)
    }

    /// Division or remainder with a 16-bit immediate dividend.
    pub fn try_execute_binary_imm16_rev(
        &mut self,
        store: &mut Store,
        stack: &mut Stack,
        code: &CodeMap,
        op: DivOp,
        result: crate::bytecode::Reg,
        lhs: i16,
        rhs: crate::bytecode::Reg,
    ) -> (r: Result<Ctl, TrapCode>)
        requires
            old(self).wf(*code, *old(store), *old(stack)),
            step(code@, old(self).mach_run(*old(store), *old(stack))) == tr_divop_imm_rev(
                old(self).mach_run(*old(store), *old(stack)),
                op,
                result,
                divop_imm_cell(op, lhs),
                rhs,
            ),
        ensures
            handler_post(
                *code,
                old(self).mach_run(*old(store), *old(stack)),
                *final(self),
                *final(store),
                *final(stack),
                r,
            ),
    {
        let b = match self.get_register(stack, rhs) {
            Ok(v) => v,
            Err(c) => {
                return Err(c);
            },
        };
        let cell = divop_cell16(op, lhs);
        let v = match apply_divop(op, cell, b) {
            Ok(v) => v,
            Err(c) => {
                return Err(c);
            },
        };
        self.write_result_next(store, stack, code, result, v, 1)
    }

    /// Executes a generic unary instruction.
    pub fn execute_unary(
        &mut self,
        store: &mut Store,
        stack: &mut Stack,
        code: &CodeMap,
        op: UnOp,
        result: crate::bytecode::Reg,
        input: crate::bytecode::Reg,
    ) -> (r: Result<Ctl, TrapCode>)
        requires
            old(self).wf(*code, *old(store), *old(stack)),
            step(code@, old(self).mach_run(*old(store), *old(stack))) == tr_unop(
                old(self).mach_run(*old(store), *old(stack)),
                op,
                result,
                input,
            ),
        ensures
            handler_post(
                *code,
                old(self).mach_run(*old(store), *old(stack)),
                *final(self),
                *final(store),
                *final(stack),
                r,
            ),
    {
        let a = match self.get_register(stack, input) {
            Ok(v) => v,
            Err(c) => {
                return Err(c);
            },
        };
        let v = apply_unop(op, a);
        self.write_result_next(store, stack, code, result, v, 1)
    }

    /// Executes a comparison instruction: the result register receives 0
    /// or 1.
    pub fn execute_cmp(
        &mut self,
        store: &mut Store,
        stack: &mut Stack,
        code: &CodeMap,
        c: Comparator,
        result: crate::bytecode::Reg,
        lhs: crate::bytecode::Reg,
        rhs: crate::bytecode::Reg,
    ) -> (r: Result<Ctl, TrapCode>)
        requires
            old(self).wf(*code, *old(store), *old(stack)),
            step(code@, old(self).mach_run(*old(store), *old(stack))) == tr_cmp(
                old(self).mach_run(*old(store), *old(stack)),
                c,
                result,
                lhs,
                rhs,
            ),
        ensures
            handler_post(
                *code,
                old(self).mach_run(*old(store), *old(stack)),
                *final(self),
                *final(store),
                *final(stack),
                r,
            ),
    {
        let a = match self.get_register(stack, lhs) {
            Ok(v) => v,
            Err(e) => {
                return Err(e);
            },
        };
        let b = match self.get_register(stack, rhs) {
            Ok(v) => v,
            Err(e) => {
                return Err(e);
            },
        };
        let v: u64 = if apply_cmp(c, a, b) {
            1
        } else {
            0
        };
        self.write_result_next(store, stack, code, result, v, 1)
    }

    /// Executes a comparison against a 16-bit immediate.
    pub fn execute_cmp_imm16(
        &mut self,
        store: &mut Store,
        stack: &mut Stack,
        code: &CodeMap,
        c: Comparator,
        result: crate::bytecode::Reg,
        lhs: crate::bytecode::Reg,
        rhs: i16,
    ) -> (r: Result<Ctl, TrapCode>)
        requires
            old(self).wf(*code, *old(store), *old(stack)),
            step(code@, old(self).mach_run(*old(store), *old(stack))) == tr_cmp_imm(
                old(self).mach_run(*old(store), *old(stack)),
                c,
                result,
                lhs,
                cmp_imm_cell(c, rhs),
            ),
        ensures
            handler_post(
                *code,
                old(self).mach_run(*old(store), *old(stack)),
                *final(self),
                *final(store),
                *final(stack),
                r,
            ),
    {
        let a = match self.get_register(stack, lhs) {
            Ok(v) => v,
            Err(e) => {
                return Err(e);
            },
        };
        let cell = cmp_cell16(c, rhs);
        let v: u64 = if apply_cmp(c, a, cell) {
            1
        } else {
            0
        };
        self.write_result_next(store, stack, code, result, v, 1)
    }
}

} // verus!
