//! The central dispatch: a single match over the instruction word routes
//! to per-family dispatchers, and each family arm invokes its handler.
//! Every executable arm performs exactly one `step` of the specification
//! machine; a trailer word in the dispatch position traps.

use vstd::prelude::*;
use crate::bytecode::Instruction;
use crate::code::CodeMap;
use crate::executor::{handler_post, Ctl, Executor};
use crate::machine::{fetch_at, step, Step};
use crate::stack::Stack;
use crate::store::{LoadKind, Store};
use crate::trap::TrapCode;
use crate::value::{extend16_32, extend16_64, BinOp, Comparator, DivOp, UnOp};

verus! {

/// Whether an instruction belongs to the `main` dispatch family.
pub open spec fn family_main(instr: Instruction) -> bool {
    match instr {
        Instruction::Trap { .. } => true,
        Instruction::ConsumeFuel { .. } => true,
        Instruction::Return => true,
        Instruction::ReturnReg { .. } => true,
        Instruction::ReturnReg2 { .. } => true,
        Instruction::ReturnImm32 { .. } => true,
        Instruction::ReturnI64Imm32 { .. } => true,
        Instruction::ReturnSpan { .. } => true,
        Instruction::ReturnNez { .. } => true,
        Instruction::ReturnNezReg { .. } => true,
        Instruction::ReturnNezImm32 { .. } => true,
        Instruction::Branch { .. } => true,
        Instruction::BranchCmpFallback { .. } => true,
        Instruction::BranchTable0 { .. } => true,
        Instruction::BranchTable1 { .. } => true,
        Instruction::BranchI32Eq { .. } => true,
        Instruction::BranchI32EqImm { .. } => true,
        Instruction::BranchI32Ne { .. } => true,
        Instruction::BranchI32NeImm { .. } => true,
        Instruction::BranchI32LtS { .. } => true,
        Instruction::BranchI32LtSImm { .. } => true,
        Instruction::BranchI32LtU { .. } => true,
        Instruction::BranchI32LtUImm { .. } => true,
        Instruction::BranchI32LeS { .. } => true,
        Instruction::BranchI32LeSImm { .. } => true,
        Instruction::BranchI32LeU { .. } => true,
        Instruction::BranchI32LeUImm { .. } => true,
        Instruction::BranchI32GtS { .. } => true,
        Instruction::BranchI32GtSImm { .. } => true,
        Instruction::BranchI32GtU { .. } => true,
        Instruction::BranchI32GtUImm { .. } => true,
        Instruction::BranchI32GeS { .. } => true,
        Instruction::BranchI32GeSImm { .. } => true,
        Instruction::BranchI32GeU { .. } => true,
        Instruction::BranchI32GeUImm { .. } => true,
        Instruction::BranchI32And { .. } => true,
        Instruction::BranchI32AndImm { .. } => true,
        Instruction::BranchI32Or { .. } => true,
        Instruction::BranchI32OrImm { .. } => true,
        Instruction::BranchI32Xor { .. } => true,
        Instruction::BranchI32XorImm { .. } => true,
        Instruction::BranchI32AndEqz { .. } => true,
        Instruction::BranchI32AndEqzImm { .. } => true,
        Instruction::BranchI32OrEqz { .. } => true,
        Instruction::BranchI32OrEqzImm { .. } => true,
        Instruction::BranchI32XorEqz { .. } => true,
        Instruction::BranchI32XorEqzImm { .. } => true,
        Instruction::BranchI64Eq { .. } => true,
        Instruction::BranchI64EqImm { .. } => true,
        Instruction::BranchI64Ne { .. } => true,
        Instruction::BranchI64NeImm { .. } => true,
        Instruction::BranchI64LtS { .. } => true,
        Instruction::BranchI64LtSImm { .. } => true,
        Instruction::BranchI64LtU { .. } => true,
        Instruction::BranchI64LtUImm { .. } => true,
        Instruction::BranchI64LeS { .. } => true,
        Instruction::BranchI64LeSImm { .. } => true,
        Instruction::BranchI64LeU { .. } => true,
        Instruction::BranchI64LeUImm { .. } => true,
        Instruction::BranchI64GtS { .. } => true,
        Instruction::BranchI64GtSImm { .. } => true,
        Instruction::BranchI64GtU { .. } => true,
        Instruction::BranchI64GtUImm { .. } => true,
        Instruction::BranchI64GeS { .. } => true,
        Instruction::BranchI64GeSImm { .. } => true,
        Instruction::BranchI64GeU { .. } => true,
        Instruction::BranchI64GeUImm { .. } => true,
        Instruction::Copy { .. } => true,
        Instruction::Copy2 { .. } => true,
        Instruction::CopyImm32 { .. } => true,
        Instruction::CopyI64Imm32 { .. } => true,
        Instruction::CopySpan { .. } => true,
        Instruction::CopySpanNonOverlapping { .. } => true,
        Instruction::CopyMany { .. } => true,
        Instruction::CopyManyNonOverlapping { .. } => true,
        Instruction::CallInternal0 { .. } => true,
        Instruction::CallInternal { .. } => true,
        Instruction::CallImported0 { .. } => true,
        Instruction::CallImported { .. } => true,
        Instruction::CallIndirect0 { .. } => true,
        Instruction::CallIndirect { .. } => true,
        Instruction::ReturnCallInternal0 { .. } => true,
        Instruction::ReturnCallInternal { .. } => true,
        Instruction::ReturnCallImported0 { .. } => true,
        Instruction::ReturnCallImported { .. } => true,
        Instruction::ReturnCallIndirect0 { .. } => true,
        Instruction::ReturnCallIndirect { .. } => true,
        Instruction::Select { .. } => true,
        Instruction::SelectImm32Lhs { .. } => true,
        Instruction::SelectImm32Rhs { .. } => true,
        Instruction::SelectImm32 { .. } => true,
        Instruction::RefFunc { .. } => true,
        Instruction::GlobalGet { .. } => true,
        Instruction::GlobalSet { .. } => true,
        Instruction::GlobalSetI32Imm16 { .. } => true,
        Instruction::GlobalSetI64Imm16 { .. } => true,
        _ => false,
    }
}

/// Whether an instruction belongs to the `load_store` dispatch family.
pub open spec fn family_load_store(instr: Instruction) -> bool {
    match instr {
        Instruction::I32Load { .. } => true,
        Instruction::I32LoadAt { .. } => true,
        Instruction::I32LoadOffset16 { .. } => true,
        Instruction::I32Load8s { .. } => true,
        Instruction::I32Load8sAt { .. } => true,
        Instruction::I32Load8sOffset16 { .. } => true,
        Instruction::I32Load8u { .. } => true,
        Instruction::I32Load8uAt { .. } => true,
        Instruction::I32Load8uOffset16 { .. } => true,
        Instruction::I32Load16s { .. } => true,
        Instruction::I32Load16sAt { .. } => true,
        Instruction::I32Load16sOffset16 { .. } => true,
        Instruction::I32Load16u { .. } => true,
        Instruction::I32Load16uAt { .. } => true,
        Instruction::I32Load16uOffset16 { .. } => true,
        Instruction::I64Load { .. } => true,
        Instruction::I64LoadAt { .. } => true,
        Instruction::I64LoadOffset16 { .. } => true,
        Instruction::I64Load8s { .. } => true,
        Instruction::I64Load8sAt { .. } => true,
        Instruction::I64Load8sOffset16 { .. } => true,
        Instruction::I64Load8u { .. } => true,
        Instruction::I64Load8uAt { .. } => true,
        Instruction::I64Load8uOffset16 { .. } => true,
        Instruction::I64Load16s { .. } => true,
        Instruction::I64Load16sAt { .. } => true,
        Instruction::I64Load16sOffset16 { .. } => true,
        Instruction::I64Load16u { .. } => true,
        Instruction::I64Load16uAt { .. } => true,
        Instruction::I64Load16uOffset16 { .. } => true,
        Instruction::I64Load32s { .. } => true,
        Instruction::I64Load32sAt { .. } => true,
        Instruction::I64Load32sOffset16 { .. } => true,
        Instruction::I64Load32u { .. } => true,
        Instruction::I64Load32uAt { .. } => true,
        Instruction::I64Load32uOffset16 { .. } => true,
        Instruction::I32Store { .. } => true,
        Instruction::I32StoreOffset16 { .. } => true,
        Instruction::I32StoreAt { .. } => true,
        Instruction::I32Store8 { .. } => true,
        Instruction::I32Store8Offset16 { .. } => true,
        Instruction::I32Store8At { .. } => true,
        Instruction::I32Store16 { .. } => true,
        Instruction::I32Store16Offset16 { .. } => true,
        Instruction::I32Store16At { .. } => true,
        Instruction::I64Store { .. } => true,
        Instruction::I64StoreOffset16 { .. } => true,
        Instruction::I64StoreAt { .. } => true,
        Instruction::I64Store8 { .. } => true,
        Instruction::I64Store8Offset16 { .. } => true,
        Instruction::I64Store8At { .. } => true,
        Instruction::I64Store16 { .. } => true,
        Instruction::I64Store16Offset16 { .. } => true,
        Instruction::I64Store16At { .. } => true,
        Instruction::I64Store32 { .. } => true,
        Instruction::I64Store32Offset16 { .. } => true,
        Instruction::I64Store32At { .. } => true,
        Instruction::I32StoreOffset16Imm16 { .. } => true,
        Instruction::I32StoreAtImm16 { .. } => true,
        Instruction::I64StoreOffset16Imm16 { .. } => true,
        Instruction::I64StoreAtImm16 { .. } => true,
        _ => false,
    }
}

/// Whether an instruction belongs to the `i32` dispatch family.
pub open spec fn family_i32(instr: Instruction) -> bool {
    match instr {
        Instruction::I32Add { .. } => true,
        Instruction::I32Sub { .. } => true,
        Instruction::I32Mul { .. } => true,
        Instruction::I32And { .. } => true,
        Instruction::I32AndEqz { .. } => true,
        Instruction::I32Or { .. } => true,
        Instruction::I32OrEqz { .. } => true,
        Instruction::I32Xor { .. } => true,
        Instruction::I32XorEqz { .. } => true,
        Instruction::I32Shl { .. } => true,
        Instruction::I32ShrS { .. } => true,
        Instruction::I32ShrU { .. } => true,
        Instruction::I32Rotl { .. } => true,
        Instruction::I32Rotr { .. } => true,
        Instruction::I32AddImm16 { .. } => true,
        Instruction::I32MulImm16 { .. } => true,
        Instruction::I32AndImm16 { .. } => true,
        Instruction::I32AndEqzImm16 { .. } => true,
        Instruction::I32OrImm16 { .. } => true,
        Instruction::I32OrEqzImm16 { .. } => true,
        Instruction::I32XorImm16 { .. } => true,
        Instruction::I32XorEqzImm16 { .. } => true,
        Instruction::I32ShlImm { .. } => true,
        Instruction::I32ShrSImm { .. } => true,
        Instruction::I32ShrUImm { .. } => true,
        Instruction::I32RotlImm { .. } => true,
        Instruction::I32RotrImm { .. } => true,
        Instruction::I32SubImm16Rev { .. } => true,
        Instruction::I32ShlImm16Rev { .. } => true,
        Instruction::I32ShrSImm16Rev { .. } => true,
        Instruction::I32ShrUImm16Rev { .. } => true,
        Instruction::I32RotlImm16Rev { .. } => true,
        Instruction::I32RotrImm16Rev { .. } => true,
        Instruction::I32DivS { .. } => true,
        Instruction::I32DivSImm16 { .. } => true,
        Instruction::I32DivSImm16Rev { .. } => true,
        Instruction::I32DivU { .. } => true,
        Instruction::I32DivUImm16 { .. } => true,
        Instruction::I32DivUImm16Rev { .. } => true,
        Instruction::I32RemS { .. } => true,
        Instruction::I32RemSImm16 { .. } => true,
        Instruction::I32RemSImm16Rev { .. } => true,
        Instruction::I32RemU { .. } => true,
        Instruction::I32RemUImm16 { .. } => true,
        Instruction::I32RemUImm16Rev { .. } => true,
        Instruction::I32Eq { .. } => true,
        Instruction::I32EqImm16 { .. } => true,
        Instruction::I32Ne { .. } => true,
        Instruction::I32NeImm16 { .. } => true,
        Instruction::I32LtS { .. } => true,
        Instruction::I32LtSImm16 { .. } => true,
        Instruction::I32LtU { .. } => true,
        Instruction::I32LtUImm16 { .. } => true,
        Instruction::I32LeS { .. } => true,
        Instruction::I32LeSImm16 { .. } => true,
        Instruction::I32LeU { .. } => true,
        Instruction::I32LeUImm16 { .. } => true,
        Instruction::I32GtS { .. } => true,
        Instruction::I32GtSImm16 { .. } => true,
        Instruction::I32GtU { .. } => true,
        Instruction::I32GtUImm16 { .. } => true,
        Instruction::I32GeS { .. } => true,
        Instruction::I32GeSImm16 { .. } => true,
        Instruction::I32GeU { .. } => true,
        Instruction::I32GeUImm16 { .. } => true,
        Instruction::I32Clz { .. } => true,
        Instruction::I32Ctz { .. } => true,
        Instruction::I32Popcnt { .. } => true,
        Instruction::I32WrapI64 { .. } => true,
        Instruction::I32Extend8S { .. } => true,
        Instruction::I32Extend16S { .. } => true,
        _ => false,
    }
}

/// Whether an instruction belongs to the `i64` dispatch family.
pub open spec fn family_i64(instr: Instruction) -> bool {
    match instr {
        Instruction::I64Add { .. } => true,
        Instruction::I64Sub { .. } => true,
        Instruction::I64Mul { .. } => true,
        Instruction::I64And { .. } => true,
        Instruction::I64Or { .. } => true,
        Instruction::I64Xor { .. } => true,
        Instruction::I64Shl { .. } => true,
        Instruction::I64ShrS { .. } => true,
        Instruction::I64ShrU { .. } => true,
        Instruction::I64Rotl { .. } => true,
        Instruction::I64Rotr { .. } => true,
        Instruction::I64AddImm16 { .. } => true,
        Instruction::I64MulImm16 { .. } => true,
        Instruction::I64AndImm16 { .. } => true,
        Instruction::I64OrImm16 { .. } => true,
        Instruction::I64XorImm16 { .. } => true,
        Instruction::I64ShlImm { .. } => true,
        Instruction::I64ShrSImm { .. } => true,
        Instruction::I64ShrUImm { .. } => true,
        Instruction::I64RotlImm { .. } => true,
        Instruction::I64RotrImm { .. } => true,
        Instruction::I64SubImm16Rev { .. } => true,
        Instruction::I64ShlImm16Rev { .. } => true,
        Instruction::I64ShrSImm16Rev { .. } => true,
        Instruction::I64ShrUImm16Rev { .. } => true,
        Instruction::I64RotlImm16Rev { .. } => true,
        Instruction::I64RotrImm16Rev { .. } => true,
        Instruction::I64DivS { .. } => true,
        Instruction::I64DivSImm16 { .. } => true,
        Instruction::I64DivSImm16Rev { .. } => true,
        Instruction::I64DivU { .. } => true,
        Instruction::I64DivUImm16 { .. } => true,
        Instruction::I64DivUImm16Rev { .. } => true,
        Instruction::I64RemS { .. } => true,
        Instruction::I64RemSImm16 { .. } => true,
        Instruction::I64RemSImm16Rev { .. } => true,
        Instruction::I64RemU { .. } => true,
        Instruction::I64RemUImm16 { .. } => true,
        Instruction::I64RemUImm16Rev { .. } => true,
        Instruction::I64Eq { .. } => true,
        Instruction::I64EqImm16 { .. } => true,
        Instruction::I64Ne { .. } => true,
        Instruction::I64NeImm16 { .. } => true,
        Instruction::I64LtS { .. } => true,
        Instruction::I64LtSImm16 { .. } => true,
        Instruction::I64LtU { .. } => true,
        Instruction::I64LtUImm16 { .. } => true,
        Instruction::I64LeS { .. } => true,
        Instruction::I64LeSImm16 { .. } => true,
        Instruction::I64LeU { .. } => true,
        Instruction::I64LeUImm16 { .. } => true,
        Instruction::I64GtS { .. } => true,
        Instruction::I64GtSImm16 { .. } => true,
        Instruction::I64GtU { .. } => true,
        Instruction::I64GtUImm16 { .. } => true,
        Instruction::I64GeS { .. } => true,
        Instruction::I64GeSImm16 { .. } => true,
        Instruction::I64GeU { .. } => true,
        Instruction::I64GeUImm16 { .. } => true,
        Instruction::I64Clz { .. } => true,
        Instruction::I64Ctz { .. } => true,
        Instruction::I64Popcnt { .. } => true,
        Instruction::I64Extend8S { .. } => true,
        Instruction::I64Extend16S { .. } => true,
        Instruction::I64Extend32S { .. } => true,
        _ => false,
    }
}

/// Whether an instruction belongs to the `bulk` dispatch family.
pub open spec fn family_bulk(instr: Instruction) -> bool {
    match instr {
        Instruction::MemorySize { .. } => true,
        Instruction::MemoryGrow { .. } => true,
        Instruction::MemoryGrowBy { .. } => true,
        Instruction::MemoryCopy { .. } => true,
        Instruction::MemoryCopyExact { .. } => true,
        Instruction::MemoryCopyFromTo { .. } => true,
        Instruction::MemoryCopyFromToExact { .. } => true,
        Instruction::MemoryFill { .. } => true,
        Instruction::MemoryFillImm { .. } => true,
        Instruction::MemoryFillImmExact { .. } => true,
        Instruction::MemoryFillAtImmExact { .. } => true,
        Instruction::MemoryInit { .. } => true,
        Instruction::MemoryInitExact { .. } => true,
        Instruction::MemoryInitFromToExact { .. } => true,
        Instruction::DataDrop { .. } => true,
        Instruction::TableGet { .. } => true,
        Instruction::TableGetImm { .. } => true,
        Instruction::TableSize { .. } => true,
        Instruction::TableSet { .. } => true,
        Instruction::TableSetAt { .. } => true,
        Instruction::TableCopy { .. } => true,
        Instruction::TableCopyExact { .. } => true,
        Instruction::TableInit { .. } => true,
        Instruction::TableInitExact { .. } => true,
        Instruction::TableFill { .. } => true,
        Instruction::TableFillExact { .. } => true,
        Instruction::TableGrow { .. } => true,
        Instruction::TableGrowImm { .. } => true,
        Instruction::ElemDrop { .. } => true,
        Instruction::Register { .. } => true,
        Instruction::Register2 { .. } => true,
        Instruction::Register3 { .. } => true,
        Instruction::RegisterList { .. } => true,
        Instruction::RegisterAndImm32 { .. } => true,
        Instruction::Const32 { .. } => true,
        Instruction::BranchTableTarget { .. } => true,
        Instruction::BranchTableTargetNonOverlapping { .. } => true,
        Instruction::CallIndirectParams { .. } => true,
        _ => false,
    }
}

impl Executor {
    /// Decodes and executes one instruction word.
    #[verifier::rlimit(100)]
    pub fn dispatch(
        &mut self,
        store: &mut Store,
        stack: &mut Stack,
        code: &CodeMap,
        instr: Instruction,
    ) -> (r: Result<Ctl, TrapCode>)
        requires
            old(self).wf(*code, *old(store), *old(stack)),
            fetch_at(
                code@,
                old(self).mach_run(*old(store), *old(stack)),
                old(self).mach_run(*old(store), *old(stack)).ip(),
            ) == Some(instr),
        ensures
            handler_post(
                *code,
                old(self).mach_run(*old(store), *old(stack)),
                *final(self),
                *final(store),
                *final(stack),
                r,
            ),
    {
        match instr {
            Instruction::Trap { .. }
            | Instruction::ConsumeFuel { .. }
            | Instruction::Return
            | Instruction::ReturnReg { .. }
            | Instruction::ReturnReg2 { .. }
            | Instruction::ReturnImm32 { .. }
            | Instruction::ReturnI64Imm32 { .. }
            | Instruction::ReturnSpan { .. }
            | Instruction::ReturnNez { .. }
            | Instruction::ReturnNezReg { .. }
            | Instruction::ReturnNezImm32 { .. }
            | Instruction::Branch { .. }
            | Instruction::BranchCmpFallback { .. }
            | Instruction::BranchTable0 { .. }
            | Instruction::BranchTable1 { .. }
            | Instruction::BranchI32Eq { .. }
            | Instruction::BranchI32EqImm { .. }
            | Instruction::BranchI32Ne { .. }
            | Instruction::BranchI32NeImm { .. }
            | Instruction::BranchI32LtS { .. }
            | Instruction::BranchI32LtSImm { .. }
            | Instruction::BranchI32LtU { .. }
            | Instruction::BranchI32LtUImm { .. }
            | Instruction::BranchI32LeS { .. }
            | Instruction::BranchI32LeSImm { .. }
            | Instruction::BranchI32LeU { .. }
            | Instruction::BranchI32LeUImm { .. }
            | Instruction::BranchI32GtS { .. }
            | Instruction::BranchI32GtSImm { .. }
            | Instruction::BranchI32GtU { .. }
            | Instruction::BranchI32GtUImm { .. }
            | Instruction::BranchI32GeS { .. }
            | Instruction::BranchI32GeSImm { .. }
            | Instruction::BranchI32GeU { .. }
            | Instruction::BranchI32GeUImm { .. }
            | Instruction::BranchI32And { .. }
            | Instruction::BranchI32AndImm { .. }
            | Instruction::BranchI32Or { .. }
            | Instruction::BranchI32OrImm { .. }
            | Instruction::BranchI32Xor { .. }
            | Instruction::BranchI32XorImm { .. }
            | Instruction::BranchI32AndEqz { .. }
            | Instruction::BranchI32AndEqzImm { .. }
            | Instruction::BranchI32OrEqz { .. }
            | Instruction::BranchI32OrEqzImm { .. }
            | Instruction::BranchI32XorEqz { .. }
            | Instruction::BranchI32XorEqzImm { .. }
            | Instruction::BranchI64Eq { .. }
            | Instruction::BranchI64EqImm { .. }
            | Instruction::BranchI64Ne { .. }
            | Instruction::BranchI64NeImm { .. }
            | Instruction::BranchI64LtS { .. }
            | Instruction::BranchI64LtSImm { .. }
            | Instruction::BranchI64LtU { .. }
            | Instruction::BranchI64LtUImm { .. }
            | Instruction::BranchI64LeS { .. }
            | Instruction::BranchI64LeSImm { .. }
            | Instruction::BranchI64LeU { .. }
            | Instruction::BranchI64LeUImm { .. }
            | Instruction::BranchI64GtS { .. }
            | Instruction::BranchI64GtSImm { .. }
            | Instruction::BranchI64GtU { .. }
            | Instruction::BranchI64GtUImm { .. }
            | Instruction::BranchI64GeS { .. }
            | Instruction::BranchI64GeSImm { .. }
            | Instruction::BranchI64GeU { .. }
            | Instruction::BranchI64GeUImm { .. }
            | Instruction::Copy { .. }
            | Instruction::Copy2 { .. }
            | Instruction::CopyImm32 { .. }
            | Instruction::CopyI64Imm32 { .. }
            | Instruction::CopySpan { .. }
            | Instruction::CopySpanNonOverlapping { .. }
            | Instruction::CopyMany { .. }
            | Instruction::CopyManyNonOverlapping { .. }
            | Instruction::CallInternal0 { .. }
            | Instruction::CallInternal { .. }
            | Instruction::CallImported0 { .. }
            | Instruction::CallImported { .. }
            | Instruction::CallIndirect0 { .. }
            | Instruction::CallIndirect { .. }
            | Instruction::ReturnCallInternal0 { .. }
            | Instruction::ReturnCallInternal { .. }
            | Instruction::ReturnCallImported0 { .. }
            | Instruction::ReturnCallImported { .. }
            | Instruction::ReturnCallIndirect0 { .. }
            | Instruction::ReturnCallIndirect { .. }
            | Instruction::Select { .. }
            | Instruction::SelectImm32Lhs { .. }
            | Instruction::SelectImm32Rhs { .. }
            | Instruction::SelectImm32 { .. }
            | Instruction::RefFunc { .. }
            | Instruction::GlobalGet { .. }
            | Instruction::GlobalSet { .. }
            | Instruction::GlobalSetI32Imm16 { .. }
            | Instruction::GlobalSetI64Imm16 { .. } => self.dispatch_main(store, stack, code, instr),
            Instruction::I32Load { .. }
            | Instruction::I32LoadAt { .. }
            | Instruction::I32LoadOffset16 { .. }
            | Instruction::I32Load8s { .. }
            | Instruction::I32Load8sAt { .. }
            | Instruction::I32Load8sOffset16 { .. }
            | Instruction::I32Load8u { .. }
            | Instruction::I32Load8uAt { .. }
            | Instruction::I32Load8uOffset16 { .. }
            | Instruction::I32Load16s { .. }
            | Instruction::I32Load16sAt { .. }
            | Instruction::I32Load16sOffset16 { .. }
            | Instruction::I32Load16u { .. }
            | Instruction::I32Load16uAt { .. }
            | Instruction::I32Load16uOffset16 { .. }
            | Instruction::I64Load { .. }
            | Instruction::I64LoadAt { .. }
            | Instruction::I64LoadOffset16 { .. }
            | Instruction::I64Load8s { .. }
            | Instruction::I64Load8sAt { .. }
            | Instruction::I64Load8sOffset16 { .. }
            | Instruction::I64Load8u { .. }
            | Instruction::I64Load8uAt { .. }
            | Instruction::I64Load8uOffset16 { .. }
            | Instruction::I64Load16s { .. }
            | Instruction::I64Load16sAt { .. }
            | Instruction::I64Load16sOffset16 { .. }
            | Instruction::I64Load16u { .. }
            | Instruction::I64Load16uAt { .. }
            | Instruction::I64Load16uOffset16 { .. }
            | Instruction::I64Load32s { .. }
            | Instruction::I64Load32sAt { .. }
            | Instruction::I64Load32sOffset16 { .. }
            | Instruction::I64Load32u { .. }
            | Instruction::I64Load32uAt { .. }
            | Instruction::I64Load32uOffset16 { .. }
            | Instruction::I32Store { .. }
            | Instruction::I32StoreOffset16 { .. }
            | Instruction::I32StoreAt { .. }
            | Instruction::I32Store8 { .. }
            | Instruction::I32Store8Offset16 { .. }
            | Instruction::I32Store8At { .. }
            | Instruction::I32Store16 { .. }
            | Instruction::I32Store16Offset16 { .. }
            | Instruction::I32Store16At { .. }
            | Instruction::I64Store { .. }
            | Instruction::I64StoreOffset16 { .. }
            | Instruction::I64StoreAt { .. }
            | Instruction::I64Store8 { .. }
            | Instruction::I64Store8Offset16 { .. }
            | Instruction::I64Store8At { .. }
            | Instruction::I64Store16 { .. }
            | Instruction::I64Store16Offset16 { .. }
            | Instruction::I64Store16At { .. }
            | Instruction::I64Store32 { .. }
            | Instruction::I64Store32Offset16 { .. }
            | Instruction::I64Store32At { .. }
            | Instruction::I32StoreOffset16Imm16 { .. }
            | Instruction::I32StoreAtImm16 { .. }
            | Instruction::I64StoreOffset16Imm16 { .. }
            | Instruction::I64StoreAtImm16 { .. } => self.dispatch_load_store(store, stack, code, instr),
            Instruction::I32Add { .. }
            | Instruction::I32Sub { .. }
            | Instruction::I32Mul { .. }
            | Instruction::I32And { .. }
            | Instruction::I32AndEqz { .. }
            | Instruction::I32Or { .. }
            | Instruction::I32OrEqz { .. }
            | Instruction::I32Xor { .. }
            | Instruction::I32XorEqz { .. }
            | Instruction::I32Shl { .. }
            | Instruction::I32ShrS { .. }
            | Instruction::I32ShrU { .. }
            | Instruction::I32Rotl { .. }
            | Instruction::I32Rotr { .. }
            | Instruction::I32AddImm16 { .. }
            | Instruction::I32MulImm16 { .. }
            | Instruction::I32AndImm16 { .. }
            | Instruction::I32AndEqzImm16 { .. }
            | Instruction::I32OrImm16 { .. }
            | Instruction::I32OrEqzImm16 { .. }
            | Instruction::I32XorImm16 { .. }
            | Instruction::I32XorEqzImm16 { .. }
            | Instruction::I32ShlImm { .. }
            | Instruction::I32ShrSImm { .. }
            | Instruction::I32ShrUImm { .. }
            | Instruction::I32RotlImm { .. }
            | Instruction::I32RotrImm { .. }
            | Instruction::I32SubImm16Rev { .. }
            | Instruction::I32ShlImm16Rev { .. }
            | Instruction::I32ShrSImm16Rev { .. }
            | Instruction::I32ShrUImm16Rev { .. }
            | Instruction::I32RotlImm16Rev { .. }
            | Instruction::I32RotrImm16Rev { .. }
            | Instruction::I32DivS { .. }
            | Instruction::I32DivSImm16 { .. }
            | Instruction::I32DivSImm16Rev { .. }
            | Instruction::I32DivU { .. }
            | Instruction::I32DivUImm16 { .. }
            | Instruction::I32DivUImm16Rev { .. }
            | Instruction::I32RemS { .. }
            | Instruction::I32RemSImm16 { .. }
            | Instruction::I32RemSImm16Rev { .. }
            | Instruction::I32RemU { .. }
            | Instruction::I32RemUImm16 { .. }
            | Instruction::I32RemUImm16Rev { .. }
            | Instruction::I32Eq { .. }
            | Instruction::I32EqImm16 { .. }
            | Instruction::I32Ne { .. }
            | Instruction::I32NeImm16 { .. }
            | Instruction::I32LtS { .. }
            | Instruction::I32LtSImm16 { .. }
            | Instruction::I32LtU { .. }
            | Instruction::I32LtUImm16 { .. }
            | Instruction::I32LeS { .. }
            | Instruction::I32LeSImm16 { .. }
            | Instruction::I32LeU { .. }
            | Instruction::I32LeUImm16 { .. }
            | Instruction::I32GtS { .. }
            | Instruction::I32GtSImm16 { .. }
            | Instruction::I32GtU { .. }
            | Instruction::I32GtUImm16 { .. }
            | Instruction::I32GeS { .. }
            | Instruction::I32GeSImm16 { .. }
            | Instruction::I32GeU { .. }
            | Instruction::I32GeUImm16 { .. }
            | Instruction::I32Clz { .. }
            | Instruction::I32Ctz { .. }
            | Instruction::I32Popcnt { .. }
            | Instruction::I32WrapI64 { .. }
            | Instruction::I32Extend8S { .. }
            | Instruction::I32Extend16S { .. } => self.dispatch_i32(store, stack, code, instr),
            Instruction::I64Add { .. }
            | Instruction::I64Sub { .. }
            | Instruction::I64Mul { .. }
            | Instruction::I64And { .. }
            | Instruction::I64Or { .. }
            | Instruction::I64Xor { .. }
            | Instruction::I64Shl { .. }
            | Instruction::I64ShrS { .. }
            | Instruction::I64ShrU { .. }
            | Instruction::I64Rotl { .. }
            | Instruction::I64Rotr { .. }
            | Instruction::I64AddImm16 { .. }
            | Instruction::I64MulImm16 { .. }
            | Instruction::I64AndImm16 { .. }
            | Instruction::I64OrImm16 { .. }
            | Instruction::I64XorImm16 { .. }
            | Instruction::I64ShlImm { .. }
            | Instruction::I64ShrSImm { .. }
            | Instruction::I64ShrUImm { .. }
            | Instruction::I64RotlImm { .. }
            | Instruction::I64RotrImm { .. }
            | Instruction::I64SubImm16Rev { .. }
            | Instruction::I64ShlImm16Rev { .. }
            | Instruction::I64ShrSImm16Rev { .. }
            | Instruction::I64ShrUImm16Rev { .. }
            | Instruction::I64RotlImm16Rev { .. }
            | Instruction::I64RotrImm16Rev { .. }
            | Instruction::I64DivS { .. }
            | Instruction::I64DivSImm16 { .. }
            | Instruction::I64DivSImm16Rev { .. }
            | Instruction::I64DivU { .. }
            | Instruction::I64DivUImm16 { .. }
            | Instruction::I64DivUImm16Rev { .. }
            | Instruction::I64RemS { .. }
            | Instruction::I64RemSImm16 { .. }
            | Instruction::I64RemSImm16Rev { .. }
            | Instruction::I64RemU { .. }
            | Instruction::I64RemUImm16 { .. }
            | Instruction::I64RemUImm16Rev { .. }
            | Instruction::I64Eq { .. }
            | Instruction::I64EqImm16 { .. }
            | Instruction::I64Ne { .. }
            | Instruction::I64NeImm16 { .. }
            | Instruction::I64LtS { .. }
            | Instruction::I64LtSImm16 { .. }
            | Instruction::I64LtU { .. }
            | Instruction::I64LtUImm16 { .. }
            | Instruction::I64LeS { .. }
            | Instruction::I64LeSImm16 { .. }
            | Instruction::I64LeU { .. }
            | Instruction::I64LeUImm16 { .. }
            | Instruction::I64GtS { .. }
            | Instruction::I64GtSImm16 { .. }
            | Instruction::I64GtU { .. }
            | Instruction::I64GtUImm16 { .. }
            | Instruction::I64GeS { .. }
            | Instruction::I64GeSImm16 { .. }
            | Instruction::I64GeU { .. }
            | Instruction::I64GeUImm16 { .. }
            | Instruction::I64Clz { .. }
            | Instruction::I64Ctz { .. }
            | Instruction::I64Popcnt { .. }
            | Instruction::I64Extend8S { .. }
            | Instruction::I64Extend16S { .. }
            | Instruction::I64Extend32S { .. } => self.dispatch_i64(store, stack, code, instr),
            Instruction::MemorySize { .. }
            | Instruction::MemoryGrow { .. }
            | Instruction::MemoryGrowBy { .. }
            | Instruction::MemoryCopy { .. }
            | Instruction::MemoryCopyExact { .. }
            | Instruction::MemoryCopyFromTo { .. }
            | Instruction::MemoryCopyFromToExact { .. }
            | Instruction::MemoryFill { .. }
            | Instruction::MemoryFillImm { .. }
            | Instruction::MemoryFillImmExact { .. }
            | Instruction::MemoryFillAtImmExact { .. }
            | Instruction::MemoryInit { .. }
            | Instruction::MemoryInitExact { .. }
            | Instruction::MemoryInitFromToExact { .. }
            | Instruction::DataDrop { .. }
            | Instruction::TableGet { .. }
            | Instruction::TableGetImm { .. }
            | Instruction::TableSize { .. }
            | Instruction::TableSet { .. }
            | Instruction::TableSetAt { .. }
            | Instruction::TableCopy { .. }
            | Instruction::TableCopyExact { .. }
            | Instruction::TableInit { .. }
            | Instruction::TableInitExact { .. }
            | Instruction::TableFill { .. }
            | Instruction::TableFillExact { .. }
            | Instruction::TableGrow { .. }
            | Instruction::TableGrowImm { .. }
            | Instruction::ElemDrop { .. }
            | Instruction::Register { .. }
            | Instruction::Register2 { .. }
            | Instruction::Register3 { .. }
            | Instruction::RegisterList { .. }
            | Instruction::RegisterAndImm32 { .. }
            | Instruction::Const32 { .. }
            | Instruction::BranchTableTarget { .. }
            | Instruction::BranchTableTargetNonOverlapping { .. }
            | Instruction::CallIndirectParams { .. } => self.dispatch_bulk(store, stack, code, instr),
        }
    }

    /// Dispatch of the control, return, branch, copy, select, call and global families.
    #[verifier::rlimit(100)]
    pub fn dispatch_main(
        &mut self,
        store: &mut Store,
        stack: &mut Stack,
        code: &CodeMap,
        instr: Instruction,
    ) -> (r: Result<Ctl, TrapCode>)
        requires
            old(self).wf(*code, *old(store), *old(stack)),
            fetch_at(
                code@,
                old(self).mach_run(*old(store), *old(stack)),
                old(self).mach_run(*old(store), *old(stack)).ip(),
            ) == Some(instr),
            family_main(instr),
        ensures
            handler_post(
                *code,
                old(self).mach_run(*old(store), *old(stack)),
                *final(self),
                *final(store),
                *final(stack),
                r,
            ),
    {

        let ghost m0 = old(self).mach_run(*store, *stack);
        proof {
            reveal(crate::machine::step_instr);
            assert(step(code@, m0) == crate::machine::step_instr(code@, m0, instr));
        }
        match instr {
            Instruction::Trap { trap_code } => {
                let r = self.execute_trap(trap_code);
                proof {
                    assert(step(code@, m0) == Step::Trap(m0, trap_code));
                }
                r
            },
            Instruction::ConsumeFuel { block_fuel } => self.execute_consume_fuel(store, stack, code, block_fuel),
            Instruction::Return => self.execute_return(store, stack, code),
            Instruction::ReturnReg { value } => self.execute_return_reg(store, stack, code, value),
            Instruction::ReturnReg2 { value0, value1 } => self.execute_return_reg2(store, stack, code, value0, value1),
            Instruction::ReturnImm32 { value } => self.execute_return_imm32(store, stack, code, value),
            Instruction::ReturnI64Imm32 { value } => self.execute_return_i64imm32(store, stack, code, value),
            Instruction::ReturnSpan { values, len } => self.execute_return_span(store, stack, code, values, len),
            Instruction::ReturnNez { condition } => self.execute_return_nez(store, stack, code, condition),
            Instruction::ReturnNezReg { condition, value } => self.execute_return_nez_reg(store, stack, code, condition, value),
            Instruction::ReturnNezImm32 { condition, value } => self.execute_return_nez_imm32(store, stack, code, condition, value),
            Instruction::Branch { offset } => self.execute_branch(store, stack, code, offset),
            Instruction::BranchCmpFallback { lhs, rhs, comparator, offset } => self.execute_branch_cmp(store, stack, code, comparator, lhs, rhs, offset),
            Instruction::BranchTable0 { index, len_targets } => self.execute_branch_table_0(store, stack, code, index, len_targets),
            Instruction::BranchTable1 { index, len_targets } => self.execute_branch_table_1(store, stack, code, index, len_targets),
            Instruction::BranchI32Eq { lhs, rhs, offset } => self.execute_branch_cmp(store, stack, code, Comparator::I32Eq, lhs, rhs, offset as i32),
            Instruction::BranchI32EqImm { lhs, rhs, offset } => self.execute_branch_cmp_imm(store, stack, code, Comparator::I32Eq, lhs, rhs, offset as i32),
            Instruction::BranchI32Ne { lhs, rhs, offset } => self.execute_branch_cmp(store, stack, code, Comparator::I32Ne, lhs, rhs, offset as i32),
            Instruction::BranchI32NeImm { lhs, rhs, offset } => self.execute_branch_cmp_imm(store, stack, code, Comparator::I32Ne, lhs, rhs, offset as i32),
            Instruction::BranchI32LtS { lhs, rhs, offset } => self.execute_branch_cmp(store, stack, code, Comparator::I32LtS, lhs, rhs, offset as i32),
            Instruction::BranchI32LtSImm { lhs, rhs, offset } => self.execute_branch_cmp_imm(store, stack, code, Comparator::I32LtS, lhs, rhs, offset as i32),
            Instruction::BranchI32LtU { lhs, rhs, offset } => self.execute_branch_cmp(store, stack, code, Comparator::I32LtU, lhs, rhs, offset as i32),
            Instruction::BranchI32LtUImm { lhs, rhs, offset } => self.execute_branch_cmp_imm(store, stack, code, Comparator::I32LtU, lhs, rhs, offset as i32),
            Instruction::BranchI32LeS { lhs, rhs, offset } => self.execute_branch_cmp(store, stack, code, Comparator::I32LeS, lhs, rhs, offset as i32),
            Instruction::BranchI32LeSImm { lhs, rhs, offset } => self.execute_branch_cmp_imm(store, stack, code, Comparator::I32LeS, lhs, rhs, offset as i32),
            Instruction::BranchI32LeU { lhs, rhs, offset } => self.execute_branch_cmp(store, stack, code, Comparator::I32LeU, lhs, rhs, offset as i32),
            Instruction::BranchI32LeUImm { lhs, rhs, offset } => self.execute_branch_cmp_imm(store, stack, code, Comparator::I32LeU, lhs, rhs, offset as i32),
            Instruction::BranchI32GtS { lhs, rhs, offset } => self.execute_branch_cmp(store, stack, code, Comparator::I32GtS, lhs, rhs, offset as i32),
            Instruction::BranchI32GtSImm { lhs, rhs, offset } => self.execute_branch_cmp_imm(store, stack, code, Comparator::I32GtS, lhs, rhs, offset as i32),
            Instruction::BranchI32GtU { lhs, rhs, offset } => self.execute_branch_cmp(store, stack, code, Comparator::I32GtU, lhs, rhs, offset as i32),
            Instruction::BranchI32GtUImm { lhs, rhs, offset } => self.execute_branch_cmp_imm(store, stack, code, Comparator::I32GtU, lhs, rhs, offset as i32),
            Instruction::BranchI32GeS { lhs, rhs, offset } => self.execute_branch_cmp(store, stack, code, Comparator::I32GeS, lhs, rhs, offset as i32),
            Instruction::BranchI32GeSImm { lhs, rhs, offset } => self.execute_branch_cmp_imm(store, stack, code, Comparator::I32GeS, lhs, rhs, offset as i32),
            Instruction::BranchI32GeU { lhs, rhs, offset } => self.execute_branch_cmp(store, stack, code, Comparator::I32GeU, lhs, rhs, offset as i32),
            Instruction::BranchI32GeUImm { lhs, rhs, offset } => self.execute_branch_cmp_imm(store, stack, code, Comparator::I32GeU, lhs, rhs, offset as i32),
            Instruction::BranchI32And { lhs, rhs, offset } => self.execute_branch_cmp(store, stack, code, Comparator::I32And, lhs, rhs, offset as i32),
            Instruction::BranchI32AndImm { lhs, rhs, offset } => self.execute_branch_cmp_imm(store, stack, code, Comparator::I32And, lhs, rhs, offset as i32),
            Instruction::BranchI32Or { lhs, rhs, offset } => self.execute_branch_cmp(store, stack, code, Comparator::I32Or, lhs, rhs, offset as i32),
            Instruction::BranchI32OrImm { lhs, rhs, offset } => self.execute_branch_cmp_imm(store, stack, code, Comparator::I32Or, lhs, rhs, offset as i32),
            Instruction::BranchI32Xor { lhs, rhs, offset } => self.execute_branch_cmp(store, stack, code, Comparator::I32Xor, lhs, rhs, offset as i32),
            Instruction::BranchI32XorImm { lhs, rhs, offset } => self.execute_branch_cmp_imm(store, stack, code, Comparator::I32Xor, lhs, rhs, offset as i32),
            Instruction::BranchI32AndEqz { lhs, rhs, offset } => self.execute_branch_cmp(store, stack, code, Comparator::I32AndEqz, lhs, rhs, offset as i32),
            Instruction::BranchI32AndEqzImm { lhs, rhs, offset } => self.execute_branch_cmp_imm(store, stack, code, Comparator::I32AndEqz, lhs, rhs, offset as i32),
            Instruction::BranchI32OrEqz { lhs, rhs, offset } => self.execute_branch_cmp(store, stack, code, Comparator::I32OrEqz, lhs, rhs, offset as i32),
            Instruction::BranchI32OrEqzImm { lhs, rhs, offset } => self.execute_branch_cmp_imm(store, stack, code, Comparator::I32OrEqz, lhs, rhs, offset as i32),
            Instruction::BranchI32XorEqz { lhs, rhs, offset } => self.execute_branch_cmp(store, stack, code, Comparator::I32XorEqz, lhs, rhs, offset as i32),
            Instruction::BranchI32XorEqzImm { lhs, rhs, offset } => self.execute_branch_cmp_imm(store, stack, code, Comparator::I32XorEqz, lhs, rhs, offset as i32),
            Instruction::BranchI64Eq { lhs, rhs, offset } => self.execute_branch_cmp(store, stack, code, Comparator::I64Eq, lhs, rhs, offset as i32),
            Instruction::BranchI64EqImm { lhs, rhs, offset } => self.execute_branch_cmp_imm(store, stack, code, Comparator::I64Eq, lhs, rhs, offset as i32),
            Instruction::BranchI64Ne { lhs, rhs, offset } => self.execute_branch_cmp(store, stack, code, Comparator::I64Ne, lhs, rhs, offset as i32),
            Instruction::BranchI64NeImm { lhs, rhs, offset } => self.execute_branch_cmp_imm(store, stack, code, Comparator::I64Ne, lhs, rhs, offset as i32),
            Instruction::BranchI64LtS { lhs, rhs, offset } => self.execute_branch_cmp(store, stack, code, Comparator::I64LtS, lhs, rhs, offset as i32),
            Instruction::BranchI64LtSImm { lhs, rhs, offset } => self.execute_branch_cmp_imm(store, stack, code, Comparator::I64LtS, lhs, rhs, offset as i32),
            Instruction::BranchI64LtU { lhs, rhs, offset } => self.execute_branch_cmp(store, stack, code, Comparator::I64LtU, lhs, rhs, offset as i32),
            Instruction::BranchI64LtUImm { lhs, rhs, offset } => self.execute_branch_cmp_imm(store, stack, code, Comparator::I64LtU, lhs, rhs, offset as i32),
            Instruction::BranchI64LeS { lhs, rhs, offset } => self.execute_branch_cmp(store, stack, code, Comparator::I64LeS, lhs, rhs, offset as i32),
            Instruction::BranchI64LeSImm { lhs, rhs, offset } => self.execute_branch_cmp_imm(store, stack, code, Comparator::I64LeS, lhs, rhs, offset as i32),
            Instruction::BranchI64LeU { lhs, rhs, offset } => self.execute_branch_cmp(store, stack, code, Comparator::I64LeU, lhs, rhs, offset as i32),
            Instruction::BranchI64LeUImm { lhs, rhs, offset } => self.execute_branch_cmp_imm(store, stack, code, Comparator::I64LeU, lhs, rhs, offset as i32),
            Instruction::BranchI64GtS { lhs, rhs, offset } => self.execute_branch_cmp(store, stack, code, Comparator::I64GtS, lhs, rhs, offset as i32),
            Instruction::BranchI64GtSImm { lhs, rhs, offset } => self.execute_branch_cmp_imm(store, stack, code, Comparator::I64GtS, lhs, rhs, offset as i32),
            Instruction::BranchI64GtU { lhs, rhs, offset } => self.execute_branch_cmp(store, stack, code, Comparator::I64GtU, lhs, rhs, offset as i32),
            Instruction::BranchI64GtUImm { lhs, rhs, offset } => self.execute_branch_cmp_imm(store, stack, code, Comparator::I64GtU, lhs, rhs, offset as i32),
            Instruction::BranchI64GeS { lhs, rhs, offset } => self.execute_branch_cmp(store, stack, code, Comparator::I64GeS, lhs, rhs, offset as i32),
            Instruction::BranchI64GeSImm { lhs, rhs, offset } => self.execute_branch_cmp_imm(store, stack, code, Comparator::I64GeS, lhs, rhs, offset as i32),
            Instruction::BranchI64GeU { lhs, rhs, offset } => self.execute_branch_cmp(store, stack, code, Comparator::I64GeU, lhs, rhs, offset as i32),
            Instruction::BranchI64GeUImm { lhs, rhs, offset } => self.execute_branch_cmp_imm(store, stack, code, Comparator::I64GeU, lhs, rhs, offset as i32),
            Instruction::Copy { result, value } => self.execute_copy(store, stack, code, result, value),
            Instruction::Copy2 { results, value0, value1 } => self.execute_copy_2(store, stack, code, results, value0, value1),
            Instruction::CopyImm32 { result, value } => self.execute_copy_imm32(store, stack, code, result, value),
            Instruction::CopyI64Imm32 { result, value } => self.execute_copy_i64imm32(store, stack, code, result, value),
            Instruction::CopySpan { results, values, len } => self.execute_copy_span(store, stack, code, results, values, len),
            Instruction::CopySpanNonOverlapping { results, values, len } => self.execute_copy_span(store, stack, code, results, values, len),
            Instruction::CopyMany { results } => self.execute_copy_many(store, stack, code, results),
            Instruction::CopyManyNonOverlapping { results } => self.execute_copy_many(store, stack, code, results),
            Instruction::CallInternal0 { results, func } => self.execute_call_internal_0(store, stack, code, results, func),
            Instruction::CallInternal { results, func } => self.execute_call_internal(store, stack, code, results, func),
            Instruction::CallImported0 { results, func } => self.execute_call_imported_0(store, stack, code, results, func),
            Instruction::CallImported { results, func } => self.execute_call_imported(store, stack, code, results, func),
            Instruction::CallIndirect0 { results, func_type } => self.execute_call_indirect_0(store, stack, code, results, func_type),
            Instruction::CallIndirect { results, func_type } => self.execute_call_indirect(store, stack, code, results, func_type),
            Instruction::ReturnCallInternal0 { func } => self.execute_return_call_internal_0(store, stack, code, func),
            Instruction::ReturnCallInternal { func } => self.execute_return_call_internal(store, stack, code, func),
            Instruction::ReturnCallImported0 { func } => self.execute_return_call_imported_0(store, stack, code, func),
            Instruction::ReturnCallImported { func } => self.execute_return_call_imported(store, stack, code, func),
            Instruction::ReturnCallIndirect0 { func_type } => self.execute_return_call_indirect_0(store, stack, code, func_type),
            Instruction::ReturnCallIndirect { func_type } => self.execute_return_call_indirect(store, stack, code, func_type),
            Instruction::Select { result, lhs } => self.execute_select(store, stack, code, result, lhs),
            Instruction::SelectImm32Lhs { result, lhs } => self.execute_select_imm32_lhs(store, stack, code, result, lhs),
            Instruction::SelectImm32Rhs { result, lhs } => self.execute_select_imm32_rhs(store, stack, code, result, lhs),
            Instruction::SelectImm32 { result, lhs } => self.execute_select_imm32(store, stack, code, result, lhs),
            Instruction::RefFunc { result, func } => self.execute_ref_func(store, stack, code, result, func),
            Instruction::GlobalGet { result, global } => self.execute_global_get(store, stack, code, result, global),
            Instruction::GlobalSet { global, input } => self.execute_global_set(store, stack, code, global, input),
            Instruction::GlobalSetI32Imm16 { global, input } => self.execute_global_set_i32imm16(store, stack, code, global, input),
            Instruction::GlobalSetI64Imm16 { global, input } => self.execute_global_set_i64imm16(store, stack, code, global, input),
            _ => {
                proof {
                    assert(false);
                }
                Err(TrapCode::UnreachableCodeReached)
            },
        }
    }

    /// Dispatch of the load and store families.
    #[verifier::rlimit(100)]
    pub fn dispatch_load_store(
        &mut self,
        store: &mut Store,
        stack: &mut Stack,
        code: &CodeMap,
        instr: Instruction,
    ) -> (r: Result<Ctl, TrapCode>)
        requires
            old(self).wf(*code, *old(store), *old(stack)),
            fetch_at(
                code@,
                old(self).mach_run(*old(store), *old(stack)),
                old(self).mach_run(*old(store), *old(stack)).ip(),
            ) == Some(instr),
            family_load_store(instr),
        ensures
            handler_post(
                *code,
                old(self).mach_run(*old(store), *old(stack)),
                *final(self),
                *final(store),
                *final(stack),
                r,
            ),
    {

        let ghost m0 = old(self).mach_run(*store, *stack);
        proof {
            reveal(crate::machine::step_instr);
            assert(step(code@, m0) == crate::machine::step_instr(code@, m0, instr));
        }
        match instr {
            Instruction::I32Load { result, ptr } => self.execute_load(store, stack, code, LoadKind::I32, result, ptr),
            Instruction::I32LoadAt { result, address } => self.execute_load_at(store, stack, code, LoadKind::I32, result, address),
            Instruction::I32LoadOffset16 { result, ptr, offset } => self.execute_load_offset16(store, stack, code, LoadKind::I32, result, ptr, offset),
            Instruction::I32Load8s { result, ptr } => self.execute_load(store, stack, code, LoadKind::I32S8, result, ptr),
            Instruction::I32Load8sAt { result, address } => self.execute_load_at(store, stack, code, LoadKind::I32S8, result, address),
            Instruction::I32Load8sOffset16 { result, ptr, offset } => self.execute_load_offset16(store, stack, code, LoadKind::I32S8, result, ptr, offset),
            Instruction::I32Load8u { result, ptr } => self.execute_load(store, stack, code, LoadKind::I32U8, result, ptr),
            Instruction::I32Load8uAt { result, address } => self.execute_load_at(store, stack, code, LoadKind::I32U8, result, address),
            Instruction::I32Load8uOffset16 { result, ptr, offset } => self.execute_load_offset16(store, stack, code, LoadKind::I32U8, result, ptr, offset),
            Instruction::I32Load16s { result, ptr } => self.execute_load(store, stack, code, LoadKind::I32S16, result, ptr),
            Instruction::I32Load16sAt { result, address } => self.execute_load_at(store, stack, code, LoadKind::I32S16, result, address),
            Instruction::I32Load16sOffset16 { result, ptr, offset } => self.execute_load_offset16(store, stack, code, LoadKind::I32S16, result, ptr, offset),
            Instruction::I32Load16u { result, ptr } => self.execute_load(store, stack, code, LoadKind::I32U16, result, ptr),
            Instruction::I32Load16uAt { result, address } => self.execute_load_at(store, stack, code, LoadKind::I32U16, result, address),
            Instruction::I32Load16uOffset16 { result, ptr, offset } => self.execute_load_offset16(store, stack, code, LoadKind::I32U16, result, ptr, offset),
            Instruction::I64Load { result, ptr } => self.execute_load(store, stack, code, LoadKind::I64, result, ptr),
            Instruction::I64LoadAt { result, address } => self.execute_load_at(store, stack, code, LoadKind::I64, result, address),
            Instruction::I64LoadOffset16 { result, ptr, offset } => self.execute_load_offset16(store, stack, code, LoadKind::I64, result, ptr, offset),
            Instruction::I64Load8s { result, ptr } => self.execute_load(store, stack, code, LoadKind::I64S8, result, ptr),
            Instruction::I64Load8sAt { result, address } => self.execute_load_at(store, stack, code, LoadKind::I64S8, result, address),
            Instruction::I64Load8sOffset16 { result, ptr, offset } => self.execute_load_offset16(store, stack, code, LoadKind::I64S8, result, ptr, offset),
            Instruction::I64Load8u { result, ptr } => self.execute_load(store, stack, code, LoadKind::I64U8, result, ptr),
            Instruction::I64Load8uAt { result, address } => self.execute_load_at(store, stack, code, LoadKind::I64U8, result, address),
            Instruction::I64Load8uOffset16 { result, ptr, offset } => self.execute_load_offset16(store, stack, code, LoadKind::I64U8, result, ptr, offset),
            Instruction::I64Load16s { result, ptr } => self.execute_load(store, stack, code, LoadKind::I64S16, result, ptr),
            Instruction::I64Load16sAt { result, address } => self.execute_load_at(store, stack, code, LoadKind::I64S16, result, address),
            Instruction::I64Load16sOffset16 { result, ptr, offset } => self.execute_load_offset16(store, stack, code, LoadKind::I64S16, result, ptr, offset),
            Instruction::I64Load16u { result, ptr } => self.execute_load(store, stack, code, LoadKind::I64U16, result, ptr),
            Instruction::I64Load16uAt { result, address } => self.execute_load_at(store, stack, code, LoadKind::I64U16, result, address),
            Instruction::I64Load16uOffset16 { result, ptr, offset } => self.execute_load_offset16(store, stack, code, LoadKind::I64U16, result, ptr, offset),
            Instruction::I64Load32s { result, ptr } => self.execute_load(store, stack, code, LoadKind::I64S32, result, ptr),
            Instruction::I64Load32sAt { result, address } => self.execute_load_at(store, stack, code, LoadKind::I64S32, result, address),
            Instruction::I64Load32sOffset16 { result, ptr, offset } => self.execute_load_offset16(store, stack, code, LoadKind::I64S32, result, ptr, offset),
            Instruction::I64Load32u { result, ptr } => self.execute_load(store, stack, code, LoadKind::I64U32, result, ptr),
            Instruction::I64Load32uAt { result, address } => self.execute_load_at(store, stack, code, LoadKind::I64U32, result, address),
            Instruction::I64Load32uOffset16 { result, ptr, offset } => self.execute_load_offset16(store, stack, code, LoadKind::I64U32, result, ptr, offset),
            Instruction::I32Store { ptr, value } => self.execute_store(store, stack, code, 4, ptr, value),
            Instruction::I32StoreOffset16 { ptr, offset, value } => self.execute_store_offset16(store, stack, code, 4, ptr, offset, value),
            Instruction::I32StoreAt { address, value } => self.execute_store_at(store, stack, code, 4, address, value),
            Instruction::I32Store8 { ptr, value } => self.execute_store(store, stack, code, 1, ptr, value),
            Instruction::I32Store8Offset16 { ptr, offset, value } => self.execute_store_offset16(store, stack, code, 1, ptr, offset, value),
            Instruction::I32Store8At { address, value } => self.execute_store_at(store, stack, code, 1, address, value),
            Instruction::I32Store16 { ptr, value } => self.execute_store(store, stack, code, 2, ptr, value),
            Instruction::I32Store16Offset16 { ptr, offset, value } => self.execute_store_offset16(store, stack, code, 2, ptr, offset, value),
            Instruction::I32Store16At { address, value } => self.execute_store_at(store, stack, code, 2, address, value),
            Instruction::I64Store { ptr, value } => self.execute_store(store, stack, code, 8, ptr, value),
            Instruction::I64StoreOffset16 { ptr, offset, value } => self.execute_store_offset16(store, stack, code, 8, ptr, offset, value),
            Instruction::I64StoreAt { address, value } => self.execute_store_at(store, stack, code, 8, address, value),
            Instruction::I64Store8 { ptr, value } => self.execute_store(store, stack, code, 1, ptr, value),
            Instruction::I64Store8Offset16 { ptr, offset, value } => self.execute_store_offset16(store, stack, code, 1, ptr, offset, value),
            Instruction::I64Store8At { address, value } => self.execute_store_at(store, stack, code, 1, address, value),
            Instruction::I64Store16 { ptr, value } => self.execute_store(store, stack, code, 2, ptr, value),
            Instruction::I64Store16Offset16 { ptr, offset, value } => self.execute_store_offset16(store, stack, code, 2, ptr, offset, value),
            Instruction::I64Store16At { address, value } => self.execute_store_at(store, stack, code, 2, address, value),
            Instruction::I64Store32 { ptr, value } => self.execute_store(store, stack, code, 4, ptr, value),
            Instruction::I64Store32Offset16 { ptr, offset, value } => self.execute_store_offset16(store, stack, code, 4, ptr, offset, value),
            Instruction::I64Store32At { address, value } => self.execute_store_at(store, stack, code, 4, address, value),
            Instruction::I32StoreOffset16Imm16 { ptr, offset, value } => {
                let cell = extend16_32(value);
                self.execute_store_offset16_imm(store, stack, code, 4, ptr, offset, cell)
            },
            Instruction::I32StoreAtImm16 { address, value } => {
                let cell = extend16_32(value);
                self.execute_store_at_imm(store, stack, code, 4, address, cell)
            },
            Instruction::I64StoreOffset16Imm16 { ptr, offset, value } => {
                let cell = extend16_64(value);
                self.execute_store_offset16_imm(store, stack, code, 8, ptr, offset, cell)
            },
            Instruction::I64StoreAtImm16 { address, value } => {
                let cell = extend16_64(value);
                self.execute_store_at_imm(store, stack, code, 8, address, cell)
            },
            _ => {
                proof {
                    assert(false);
                }
                Err(TrapCode::UnreachableCodeReached)
            },
        }
    }

    /// Dispatch of the `i32` arithmetic, comparison and bit-counting families.
    #[verifier::rlimit(100)]
    pub fn dispatch_i32(
        &mut self,
        store: &mut Store,
        stack: &mut Stack,
        code: &CodeMap,
        instr: Instruction,
    ) -> (r: Result<Ctl, TrapCode>)
        requires
            old(self).wf(*code, *old(store), *old(stack)),
            fetch_at(
                code@,
                old(self).mach_run(*old(store), *old(stack)),
                old(self).mach_run(*old(store), *old(stack)).ip(),
            ) == Some(instr),
            family_i32(instr),
        ensures
            handler_post(
                *code,
                old(self).mach_run(*old(store), *old(stack)),
                *final(self),
                *final(store),
                *final(stack),
                r,
            ),
    {

        let ghost m0 = old(self).mach_run(*store, *stack);
        proof {
            reveal(crate::machine::step_instr);
            assert(step(code@, m0) == crate::machine::step_instr(code@, m0, instr));
        }
        match instr {
            Instruction::I32Add { result, lhs, rhs } => self.execute_binary(store, stack, code, BinOp::I32Add, result, lhs, rhs),
            Instruction::I32Sub { result, lhs, rhs } => self.execute_binary(store, stack, code, BinOp::I32Sub, result, lhs, rhs),
            Instruction::I32Mul { result, lhs, rhs } => self.execute_binary(store, stack, code, BinOp::I32Mul, result, lhs, rhs),
            Instruction::I32And { result, lhs, rhs } => self.execute_binary(store, stack, code, BinOp::I32And, result, lhs, rhs),
            Instruction::I32AndEqz { result, lhs, rhs } => self.execute_binary(store, stack, code, BinOp::I32AndEqz, result, lhs, rhs),
            Instruction::I32Or { result, lhs, rhs } => self.execute_binary(store, stack, code, BinOp::I32Or, result, lhs, rhs),
            Instruction::I32OrEqz { result, lhs, rhs } => self.execute_binary(store, stack, code, BinOp::I32OrEqz, result, lhs, rhs),
            Instruction::I32Xor { result, lhs, rhs } => self.execute_binary(store, stack, code, BinOp::I32Xor, result, lhs, rhs),
            Instruction::I32XorEqz { result, lhs, rhs } => self.execute_binary(store, stack, code, BinOp::I32XorEqz, result, lhs, rhs),
            Instruction::I32Shl { result, lhs, rhs } => self.execute_binary(store, stack, code, BinOp::I32Shl, result, lhs, rhs),
            Instruction::I32ShrS { result, lhs, rhs } => self.execute_binary(store, stack, code, BinOp::I32ShrS, result, lhs, rhs),
            Instruction::I32ShrU { result, lhs, rhs } => self.execute_binary(store, stack, code, BinOp::I32ShrU, result, lhs, rhs),
            Instruction::I32Rotl { result, lhs, rhs } => self.execute_binary(store, stack, code, BinOp::I32Rotl, result, lhs, rhs),
            Instruction::I32Rotr { result, lhs, rhs } => self.execute_binary(store, stack, code, BinOp::I32Rotr, result, lhs, rhs),
            Instruction::I32AddImm16 { result, lhs, rhs } => self.execute_binary_imm16(store, stack, code, BinOp::I32Add, result, lhs, rhs),
            Instruction::I32MulImm16 { result, lhs, rhs } => self.execute_binary_imm16(store, stack, code, BinOp::I32Mul, result, lhs, rhs),
            Instruction::I32AndImm16 { result, lhs, rhs } => self.execute_binary_imm16(store, stack, code, BinOp::I32And, result, lhs, rhs),
            Instruction::I32AndEqzImm16 { result, lhs, rhs } => self.execute_binary_imm16(store, stack, code, BinOp::I32AndEqz, result, lhs, rhs),
            Instruction::I32OrImm16 { result, lhs, rhs } => self.execute_binary_imm16(store, stack, code, BinOp::I32Or, result, lhs, rhs),
            Instruction::I32OrEqzImm16 { result, lhs, rhs } => self.execute_binary_imm16(store, stack, code, BinOp::I32OrEqz, result, lhs, rhs),
            Instruction::I32XorImm16 { result, lhs, rhs } => self.execute_binary_imm16(store, stack, code, BinOp::I32Xor, result, lhs, rhs),
            Instruction::I32XorEqzImm16 { result, lhs, rhs } => self.execute_binary_imm16(store, stack, code, BinOp::I32XorEqz, result, lhs, rhs),
            Instruction::I32ShlImm { result, lhs, rhs } => self.execute_binary_imm16(store, stack, code, BinOp::I32Shl, result, lhs, rhs),
            Instruction::I32ShrSImm { result, lhs, rhs } => self.execute_binary_imm16(store, stack, code, BinOp::I32ShrS, result, lhs, rhs),
            Instruction::I32ShrUImm { result, lhs, rhs } => self.execute_binary_imm16(store, stack, code, BinOp::I32ShrU, result, lhs, rhs),
            Instruction::I32RotlImm { result, lhs, rhs } => self.execute_binary_imm16(store, stack, code, BinOp::I32Rotl, result, lhs, rhs),
            Instruction::I32RotrImm { result, lhs, rhs } => self.execute_binary_imm16(store, stack, code, BinOp::I32Rotr, result, lhs, rhs),
            Instruction::I32SubImm16Rev { result, lhs, rhs } => self.execute_binary_imm16_rev(store, stack, code, BinOp::I32Sub, result, lhs, rhs),
            Instruction::I32ShlImm16Rev { result, lhs, rhs } => self.execute_binary_imm16_rev(store, stack, code, BinOp::I32Shl, result, lhs, rhs),
            Instruction::I32ShrSImm16Rev { result, lhs, rhs } => self.execute_binary_imm16_rev(store, stack, code, BinOp::I32ShrS, result, lhs, rhs),
            Instruction::I32ShrUImm16Rev { result, lhs, rhs } => self.execute_binary_imm16_rev(store, stack, code, BinOp::I32ShrU, result, lhs, rhs),
            Instruction::I32RotlImm16Rev { result, lhs, rhs } => self.execute_binary_imm16_rev(store, stack, code, BinOp::I32Rotl, result, lhs, rhs),
            Instruction::I32RotrImm16Rev { result, lhs, rhs } => self.execute_binary_imm16_rev(store, stack, code, BinOp::I32Rotr, result, lhs, rhs),
            Instruction::I32DivS { result, lhs, rhs } => self.try_execute_binary(store, stack, code, DivOp::I32DivS, result, lhs, rhs),
            Instruction::I32DivSImm16 { result, lhs, rhs } => self.try_execute_divrem_imm16(store, stack, code, DivOp::I32DivS, result, lhs, rhs),
            Instruction::I32DivSImm16Rev { result, lhs, rhs } => self.try_execute_binary_imm16_rev(store, stack, code, DivOp::I32DivS, result, lhs, rhs),
            Instruction::I32DivU { result, lhs, rhs } => self.try_execute_binary(store, stack, code, DivOp::I32DivU, result, lhs, rhs),
            Instruction::I32DivUImm16 { result, lhs, rhs } => self.execute_divrem_imm16(store, stack, code, DivOp::I32DivU, result, lhs, rhs),
            Instruction::I32DivUImm16Rev { result, lhs, rhs } => self.try_execute_binary_imm16_rev(store, stack, code, DivOp::I32DivU, result, lhs, rhs),
            Instruction::I32RemS { result, lhs, rhs } => self.try_execute_binary(store, stack, code, DivOp::I32RemS, result, lhs, rhs),
            Instruction::I32RemSImm16 { result, lhs, rhs } => self.try_execute_divrem_imm16(store, stack, code, DivOp::I32RemS, result, lhs, rhs),
            Instruction::I32RemSImm16Rev { result, lhs, rhs } => self.try_execute_binary_imm16_rev(store, stack, code, DivOp::I32RemS, result, lhs, rhs),
            Instruction::I32RemU { result, lhs, rhs } => self.try_execute_binary(store, stack, code, DivOp::I32RemU, result, lhs, rhs),
            Instruction::I32RemUImm16 { result, lhs, rhs } => self.execute_divrem_imm16(store, stack, code, DivOp::I32RemU, result, lhs, rhs),
            Instruction::I32RemUImm16Rev { result, lhs, rhs } => self.try_execute_binary_imm16_rev(store, stack, code, DivOp::I32RemU, result, lhs, rhs),
            Instruction::I32Eq { result, lhs, rhs } => self.execute_cmp(store, stack, code, Comparator::I32Eq, result, lhs, rhs),
            Instruction::I32EqImm16 { result, lhs, rhs } => self.execute_cmp_imm16(store, stack, code, Comparator::I32Eq, result, lhs, rhs),
            Instruction::I32Ne { result, lhs, rhs } => self.execute_cmp(store, stack, code, Comparator::I32Ne, result, lhs, rhs),
            Instruction::I32NeImm16 { result, lhs, rhs } => self.execute_cmp_imm16(store, stack, code, Comparator::I32Ne, result, lhs, rhs),
            Instruction::I32LtS { result, lhs, rhs } => self.execute_cmp(store, stack, code, Comparator::I32LtS, result, lhs, rhs),
            Instruction::I32LtSImm16 { result, lhs, rhs } => self.execute_cmp_imm16(store, stack, code, Comparator::I32LtS, result, lhs, rhs),
            Instruction::I32LtU { result, lhs, rhs } => self.execute_cmp(store, stack, code, Comparator::I32LtU, result, lhs, rhs),
            Instruction::I32LtUImm16 { result, lhs, rhs } => self.execute_cmp_imm16(store, stack, code, Comparator::I32LtU, result, lhs, rhs),
            Instruction::I32LeS { result, lhs, rhs } => self.execute_cmp(store, stack, code, Comparator::I32LeS, result, lhs, rhs),
            Instruction::I32LeSImm16 { result, lhs, rhs } => self.execute_cmp_imm16(store, stack, code, Comparator::I32LeS, result, lhs, rhs),
            Instruction::I32LeU { result, lhs, rhs } => self.execute_cmp(store, stack, code, Comparator::I32LeU, result, lhs, rhs),
            Instruction::I32LeUImm16 { result, lhs, rhs } => self.execute_cmp_imm16(store, stack, code, Comparator::I32LeU, result, lhs, rhs),
            Instruction::I32GtS { result, lhs, rhs } => self.execute_cmp(store, stack, code, Comparator::I32GtS, result, lhs, rhs),
            Instruction::I32GtSImm16 { result, lhs, rhs } => self.execute_cmp_imm16(store, stack, code, Comparator::I32GtS, result, lhs, rhs),
            Instruction::I32GtU { result, lhs, rhs } => self.execute_cmp(store, stack, code, Comparator::I32GtU, result, lhs, rhs),
            Instruction::I32GtUImm16 { result, lhs, rhs } => self.execute_cmp_imm16(store, stack, code, Comparator::I32GtU, result, lhs, rhs),
            Instruction::I32GeS { result, lhs, rhs } => self.execute_cmp(store, stack, code, Comparator::I32GeS, result, lhs, rhs),
            Instruction::I32GeSImm16 { result, lhs, rhs } => self.execute_cmp_imm16(store, stack, code, Comparator::I32GeS, result, lhs, rhs),
            Instruction::I32GeU { result, lhs, rhs } => self.execute_cmp(store, stack, code, Comparator::I32GeU, result, lhs, rhs),
            Instruction::I32GeUImm16 { result, lhs, rhs } => self.execute_cmp_imm16(store, stack, code, Comparator::I32GeU, result, lhs, rhs),
            Instruction::I32Clz { result, input } => self.execute_unary(store, stack, code, UnOp::I32Clz, result, input),
            Instruction::I32Ctz { result, input } => self.execute_unary(store, stack, code, UnOp::I32Ctz, result, input),
            Instruction::I32Popcnt { result, input } => self.execute_unary(store, stack, code, UnOp::I32Popcnt, result, input),
            Instruction::I32WrapI64 { result, input } => self.execute_unary(store, stack, code, UnOp::I32WrapI64, result, input),
            Instruction::I32Extend8S { result, input } => self.execute_unary(store, stack, code, UnOp::I32Extend8S, result, input),
            Instruction::I32Extend16S { result, input } => self.execute_unary(store, stack, code, UnOp::I32Extend16S, result, input),
            _ => {
                proof {
                    assert(false);
                }
                Err(TrapCode::UnreachableCodeReached)
            },
        }
    }

    /// Dispatch of the `i64` arithmetic, comparison and bit-counting families.
    #[verifier::rlimit(100)]
    pub fn dispatch_i64(
        &mut self,
        store: &mut Store,
        stack: &mut Stack,
        code: &CodeMap,
        instr: Instruction,
    ) -> (r: Result<Ctl, TrapCode>)
        requires
            old(self).wf(*code, *old(store), *old(stack)),
            fetch_at(
                code@,
                old(self).mach_run(*old(store), *old(stack)),
                old(self).mach_run(*old(store), *old(stack)).ip(),
            ) == Some(instr),
            family_i64(instr),
        ensures
            handler_post(
                *code,
                old(self).mach_run(*old(store), *old(stack)),
                *final(self),
                *final(store),
                *final(stack),
                r,
            ),
    {

        let ghost m0 = old(self).mach_run(*store, *stack);
        proof {
            reveal(crate::machine::step_instr);
            assert(step(code@, m0) == crate::machine::step_instr(code@, m0, instr));
        }
        match instr {
            Instruction::I64Add { result, lhs, rhs } => self.execute_binary(store, stack, code, BinOp::I64Add, result, lhs, rhs),
            Instruction::I64Sub { result, lhs, rhs } => self.execute_binary(store, stack, code, BinOp::I64Sub, result, lhs, rhs),
            Instruction::I64Mul { result, lhs, rhs } => self.execute_binary(store, stack, code, BinOp::I64Mul, result, lhs, rhs),
            Instruction::I64And { result, lhs, rhs } => self.execute_binary(store, stack, code, BinOp::I64And, result, lhs, rhs),
            Instruction::I64Or { result, lhs, rhs } => self.execute_binary(store, stack, code, BinOp::I64Or, result, lhs, rhs),
            Instruction::I64Xor { result, lhs, rhs } => self.execute_binary(store, stack, code, BinOp::I64Xor, result, lhs, rhs),
            Instruction::I64Shl { result, lhs, rhs } => self.execute_binary(store, stack, code, BinOp::I64Shl, result, lhs, rhs),
            Instruction::I64ShrS { result, lhs, rhs } => self.execute_binary(store, stack, code, BinOp::I64ShrS, result, lhs, rhs),
            Instruction::I64ShrU { result, lhs, rhs } => self.execute_binary(store, stack, code, BinOp::I64ShrU, result, lhs, rhs),
            Instruction::I64Rotl { result, lhs, rhs } => self.execute_binary(store, stack, code, BinOp::I64Rotl, result, lhs, rhs),
            Instruction::I64Rotr { result, lhs, rhs } => self.execute_binary(store, stack, code, BinOp::I64Rotr, result, lhs, rhs),
            Instruction::I64AddImm16 { result, lhs, rhs } => self.execute_binary_imm16(store, stack, code, BinOp::I64Add, result, lhs, rhs),
            Instruction::I64MulImm16 { result, lhs, rhs } => self.execute_binary_imm16(store, stack, code, BinOp::I64Mul, result, lhs, rhs),
            Instruction::I64AndImm16 { result, lhs, rhs } => self.execute_binary_imm16(store, stack, code, BinOp::I64And, result, lhs, rhs),
            Instruction::I64OrImm16 { result, lhs, rhs } => self.execute_binary_imm16(store, stack, code, BinOp::I64Or, result, lhs, rhs),
            Instruction::I64XorImm16 { result, lhs, rhs } => self.execute_binary_imm16(store, stack, code, BinOp::I64Xor, result, lhs, rhs),
            Instruction::I64ShlImm { result, lhs, rhs } => self.execute_binary_imm16(store, stack, code, BinOp::I64Shl, result, lhs, rhs),
            Instruction::I64ShrSImm { result, lhs, rhs } => self.execute_binary_imm16(store, stack, code, BinOp::I64ShrS, result, lhs, rhs),
            Instruction::I64ShrUImm { result, lhs, rhs } => self.execute_binary_imm16(store, stack, code, BinOp::I64ShrU, result, lhs, rhs),
            Instruction::I64RotlImm { result, lhs, rhs } => self.execute_binary_imm16(store, stack, code, BinOp::I64Rotl, result, lhs, rhs),
            Instruction::I64RotrImm { result, lhs, rhs } => self.execute_binary_imm16(store, stack, code, BinOp::I64Rotr, result, lhs, rhs),
            Instruction::I64SubImm16Rev { result, lhs, rhs } => self.execute_binary_imm16_rev(store, stack, code, BinOp::I64Sub, result, lhs, rhs),
            Instruction::I64ShlImm16Rev { result, lhs, rhs } => self.execute_binary_imm16_rev(store, stack, code, BinOp::I64Shl, result, lhs, rhs),
            Instruction::I64ShrSImm16Rev { result, lhs, rhs } => self.execute_binary_imm16_rev(store, stack, code, BinOp::I64ShrS, result, lhs, rhs),
            Instruction::I64ShrUImm16Rev { result, lhs, rhs } => self.execute_binary_imm16_rev(store, stack, code, BinOp::I64ShrU, result, lhs, rhs),
            Instruction::I64RotlImm16Rev { result, lhs, rhs } => self.execute_binary_imm16_rev(store, stack, code, BinOp::I64Rotl, result, lhs, rhs),
            Instruction::I64RotrImm16Rev { result, lhs, rhs } => self.execute_binary_imm16_rev(store, stack, code, BinOp::I64Rotr, result, lhs, rhs),
            Instruction::I64DivS { result, lhs, rhs } => self.try_execute_binary(store, stack, code, DivOp::I64DivS, result, lhs, rhs),
            Instruction::I64DivSImm16 { result, lhs, rhs } => self.try_execute_divrem_imm16(store, stack, code, DivOp::I64DivS, result, lhs, rhs),
            Instruction::I64DivSImm16Rev { result, lhs, rhs } => self.try_execute_binary_imm16_rev(store, stack, code, DivOp::I64DivS, result, lhs, rhs),
            Instruction::I64DivU { result, lhs, rhs } => self.try_execute_binary(store, stack, code, DivOp::I64DivU, result, lhs, rhs),
            Instruction::I64DivUImm16 { result, lhs, rhs } => self.execute_divrem_imm16(store, stack, code, DivOp::I64DivU, result, lhs, rhs),
            Instruction::I64DivUImm16Rev { result, lhs, rhs } => self.try_execute_binary_imm16_rev(store, stack, code, DivOp::I64DivU, result, lhs, rhs),
            Instruction::I64RemS { result, lhs, rhs } => self.try_execute_binary(store, stack, code, DivOp::I64RemS, result, lhs, rhs),
            Instruction::I64RemSImm16 { result, lhs, rhs } => self.try_execute_divrem_imm16(store, stack, code, DivOp::I64RemS, result, lhs, rhs),
            Instruction::I64RemSImm16Rev { result, lhs, rhs } => self.try_execute_binary_imm16_rev(store, stack, code, DivOp::I64RemS, result, lhs, rhs),
            Instruction::I64RemU { result, lhs, rhs } => self.try_execute_binary(store, stack, code, DivOp::I64RemU, result, lhs, rhs),
            Instruction::I64RemUImm16 { result, lhs, rhs } => self.execute_divrem_imm16(store, stack, code, DivOp::I64RemU, result, lhs, rhs),
            Instruction::I64RemUImm16Rev { result, lhs, rhs } => self.try_execute_binary_imm16_rev(store, stack, code, DivOp::I64RemU, result, lhs, rhs),
            Instruction::I64Eq { result, lhs, rhs } => self.execute_cmp(store, stack, code, Comparator::I64Eq, result, lhs, rhs),
            Instruction::I64EqImm16 { result, lhs, rhs } => self.execute_cmp_imm16(store, stack, code, Comparator::I64Eq, result, lhs, rhs),
            Instruction::I64Ne { result, lhs, rhs } => self.execute_cmp(store, stack, code, Comparator::I64Ne, result, lhs, rhs),
            Instruction::I64NeImm16 { result, lhs, rhs } => self.execute_cmp_imm16(store, stack, code, Comparator::I64Ne, result, lhs, rhs),
            Instruction::I64LtS { result, lhs, rhs } => self.execute_cmp(store, stack, code, Comparator::I64LtS, result, lhs, rhs),
            Instruction::I64LtSImm16 { result, lhs, rhs } => self.execute_cmp_imm16(store, stack, code, Comparator::I64LtS, result, lhs, rhs),
            Instruction::I64LtU { result, lhs, rhs } => self.execute_cmp(store, stack, code, Comparator::I64LtU, result, lhs, rhs),
            Instruction::I64LtUImm16 { result, lhs, rhs } => self.execute_cmp_imm16(store, stack, code, Comparator::I64LtU, result, lhs, rhs),
            Instruction::I64LeS { result, lhs, rhs } => self.execute_cmp(store, stack, code, Comparator::I64LeS, result, lhs, rhs),
            Instruction::I64LeSImm16 { result, lhs, rhs } => self.execute_cmp_imm16(store, stack, code, Comparator::I64LeS, result, lhs, rhs),
            Instruction::I64LeU { result, lhs, rhs } => self.execute_cmp(store, stack, code, Comparator::I64LeU, result, lhs, rhs),
            Instruction::I64LeUImm16 { result, lhs, rhs } => self.execute_cmp_imm16(store, stack, code, Comparator::I64LeU, result, lhs, rhs),
            Instruction::I64GtS { result, lhs, rhs } => self.execute_cmp(store, stack, code, Comparator::I64GtS, result, lhs, rhs),
            Instruction::I64GtSImm16 { result, lhs, rhs } => self.execute_cmp_imm16(store, stack, code, Comparator::I64GtS, result, lhs, rhs),
            Instruction::I64GtU { result, lhs, rhs } => self.execute_cmp(store, stack, code, Comparator::I64GtU, result, lhs, rhs),
            Instruction::I64GtUImm16 { result, lhs, rhs } => self.execute_cmp_imm16(store, stack, code, Comparator::I64GtU, result, lhs, rhs),
            Instruction::I64GeS { result, lhs, rhs } => self.execute_cmp(store, stack, code, Comparator::I64GeS, result, lhs, rhs),
            Instruction::I64GeSImm16 { result, lhs, rhs } => self.execute_cmp_imm16(store, stack, code, Comparator::I64GeS, result, lhs, rhs),
            Instruction::I64GeU { result, lhs, rhs } => self.execute_cmp(store, stack, code, Comparator::I64GeU, result, lhs, rhs),
            Instruction::I64GeUImm16 { result, lhs, rhs } => self.execute_cmp_imm16(store, stack, code, Comparator::I64GeU, result, lhs, rhs),
            Instruction::I64Clz { result, input } => self.execute_unary(store, stack, code, UnOp::I64Clz, result, input),
            Instruction::I64Ctz { result, input } => self.execute_unary(store, stack, code, UnOp::I64Ctz, result, input),
            Instruction::I64Popcnt { result, input } => self.execute_unary(store, stack, code, UnOp::I64Popcnt, result, input),
            Instruction::I64Extend8S { result, input } => self.execute_unary(store, stack, code, UnOp::I64Extend8S, result, input),
            Instruction::I64Extend16S { result, input } => self.execute_unary(store, stack, code, UnOp::I64Extend16S, result, input),
            Instruction::I64Extend32S { result, input } => self.execute_unary(store, stack, code, UnOp::I64Extend32S, result, input),
            _ => {
                proof {
                    assert(false);
                }
                Err(TrapCode::UnreachableCodeReached)
            },
        }
    }

    /// Dispatch of the memory and table bulk families, and of the trailer words, which trap when they reach the dispatch position.
    #[verifier::rlimit(100)]
    pub fn dispatch_bulk(
        &mut self,
        store: &mut Store,
        stack: &mut Stack,
        code: &CodeMap,
        instr: Instruction,
    ) -> (r: Result<Ctl, TrapCode>)
        requires
            old(self).wf(*code, *old(store), *old(stack)),
            fetch_at(
                code@,
                old(self).mach_run(*old(store), *old(stack)),
                old(self).mach_run(*old(store), *old(stack)).ip(),
            ) == Some(instr),
            family_bulk(instr),
        ensures
            handler_post(
                *code,
                old(self).mach_run(*old(store), *old(stack)),
                *final(self),
                *final(store),
                *final(stack),
                r,
            ),
    {

        let ghost m0 = old(self).mach_run(*store, *stack);
        proof {
            reveal(crate::machine::step_instr);
            assert(step(code@, m0) == crate::machine::step_instr(code@, m0, instr));
        }
        match instr {
            Instruction::MemorySize { result } => self.execute_memory_size(store, stack, code, result),
            Instruction::MemoryGrow { result, delta } => self.execute_memory_grow(store, stack, code, result, delta),
            Instruction::MemoryGrowBy { result, delta } => self.do_memory_grow(store, stack, code, result, delta),
            Instruction::MemoryCopy { dst, src, len } => self.execute_memory_copy(store, stack, code, dst, src, len),
            Instruction::MemoryCopyExact { dst, src, len } => self.execute_memory_copy_exact(store, stack, code, dst, src, len),
            Instruction::MemoryCopyFromTo { dst, src, len } => self.execute_memory_copy_from_to(store, stack, code, dst, src, len),
            Instruction::MemoryCopyFromToExact { dst, src, len } => self.execute_memory_copy_from_to_exact(store, stack, code, dst, src, len),
            Instruction::MemoryFill { dst, value, len } => self.execute_memory_fill(store, stack, code, dst, value, len),
            Instruction::MemoryFillImm { dst, value, len } => self.execute_memory_fill_imm(store, stack, code, dst, value, len),
            Instruction::MemoryFillImmExact { dst, value, len } => self.execute_memory_fill_imm_exact(store, stack, code, dst, value, len),
            Instruction::MemoryFillAtImmExact { dst, value, len } => self.execute_memory_fill_at_imm_exact(store, stack, code, dst, value, len),
            Instruction::MemoryInit { dst, src, len, segment } => self.execute_memory_init(store, stack, code, dst, src, len, segment),
            Instruction::MemoryInitExact { dst, src, len, segment } => self.execute_memory_init_exact(store, stack, code, dst, src, len, segment),
            Instruction::MemoryInitFromToExact { dst, src, len, segment } => self.execute_memory_init_from_to_exact(store, stack, code, dst, src, len, segment),
            Instruction::DataDrop { segment } => self.execute_data_drop(store, stack, code, segment),
            Instruction::TableGet { result, index, table } => self.execute_table_get(store, stack, code, result, index, table),
            Instruction::TableGetImm { result, index, table } => self.execute_table_get_imm(store, stack, code, result, index, table),
            Instruction::TableSize { result, table } => self.execute_table_size(store, stack, code, result, table),
            Instruction::TableSet { index, value, table } => self.execute_table_set(store, stack, code, index, value, table),
            Instruction::TableSetAt { index, value, table } => self.execute_table_set_at(store, stack, code, index, value, table),
            Instruction::TableCopy { dst, src, len, dst_table, src_table } => self.execute_table_copy(store, stack, code, dst, src, len, dst_table, src_table),
            Instruction::TableCopyExact { dst, src, len, dst_table, src_table } => self.execute_table_copy_exact(store, stack, code, dst, src, len, dst_table, src_table),
            Instruction::TableInit { dst, src, len, table, segment } => self.execute_table_init(store, stack, code, dst, src, len, table, segment),
            Instruction::TableInitExact { dst, src, len, table, segment } => self.execute_table_init_exact(store, stack, code, dst, src, len, table, segment),
            Instruction::TableFill { dst, len, value, table } => self.execute_table_fill(store, stack, code, dst, len, value, table),
            Instruction::TableFillExact { dst, len, value, table } => self.execute_table_fill_exact(store, stack, code, dst, len, value, table),
            Instruction::TableGrow { result, delta, value, table } => self.execute_table_grow(store, stack, code, result, delta, value, table),
            Instruction::TableGrowImm { result, delta, value, table } => self.execute_table_grow_imm(store, stack, code, result, delta, value, table),
            Instruction::ElemDrop { segment } => self.execute_element_drop(store, stack, code, segment),
            Instruction::Register { .. } => {
                let r = self.invalid_instruction_word();
                proof {
                    assert(step(code@, m0) == crate::machine::u_trap(m0));
                }
                r
            },
            Instruction::Register2 { .. } => {
                let r = self.invalid_instruction_word();
                proof {
                    assert(step(code@, m0) == crate::machine::u_trap(m0));
                }
                r
            },
            Instruction::Register3 { .. } => {
                let r = self.invalid_instruction_word();
                proof {
                    assert(step(code@, m0) == crate::machine::u_trap(m0));
                }
                r
            },
            Instruction::RegisterList { .. } => {
                let r = self.invalid_instruction_word();
                proof {
                    assert(step(code@, m0) == crate::machine::u_trap(m0));
                }
                r
            },
            Instruction::RegisterAndImm32 { .. } => {
                let r = self.invalid_instruction_word();
                proof {
                    assert(step(code@, m0) == crate::machine::u_trap(m0));
                }
                r
            },
            Instruction::Const32 { .. } => {
                let r = self.invalid_instruction_word();
                proof {
                    assert(step(code@, m0) == crate::machine::u_trap(m0));
                }
                r
            },
            Instruction::BranchTableTarget { .. } => {
                let r = self.invalid_instruction_word();
                proof {
                    assert(step(code@, m0) == crate::machine::u_trap(m0));
                }
                r
            },
            Instruction::BranchTableTargetNonOverlapping { .. } => {
                let r = self.invalid_instruction_word();
                proof {
                    assert(step(code@, m0) == crate::machine::u_trap(m0));
                }
                r
            },
            Instruction::CallIndirectParams { .. } => {
                let r = self.invalid_instruction_word();
                proof {
                    assert(step(code@, m0) == crate::machine::u_trap(m0));
                }
                r
            },
            _ => {
                proof {
                    assert(false);
                }
                Err(TrapCode::UnreachableCodeReached)
            },
        }
    }

}

} // verus!
