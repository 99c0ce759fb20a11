//! The tagged instruction words of the register machine.
//!
//! Each variant is one fixed-size word. Some logical instructions occupy
//! several words: the head word is the executable opcode; trailer words
//! (`Register*`, `Const32`, `BranchTableTarget*`, `CallIndirectParams`) only
//! carry parameters and are never dispatched -- one of them reaching the
//! dispatch position traps with `UnreachableCodeReached`.
//!
//! Branch offsets are relative to the word after the branch head: an offset
//! of `0` is a plain fall-through, `-2` from a two-word loop re-enters its
//! first word.
//!
//! The encoding is deliberately compressed in three places. Branch tables
//! exist in the value-free and one-value forms; a table whose targets need
//! wider copies is expressed by branching to a block that moves its span
//! with the copy family. Returns of three or more values go through
//! `ReturnSpan` over a contiguous span the translator lays out, and the
//! conditional returns mirror the one-value forms they guard. Every 16-bit
//! immediate is stored sign-extended; an unsigned constant outside the
//! signed 16-bit range takes a 32-bit immediate form or a register.

use vstd::prelude::*;
use crate::trap::TrapCode;
use crate::value::Comparator;

verus! {

/// A register index into the current frame window. Non-negative indices
/// address locals and temporaries; negative indices address slots below the
/// frame base (the caller-supplied result slots of the root frame).
pub type Reg = i16;

/// One instruction word.
#[derive(Clone, Copy, Debug, PartialEq, Eq, Structural)]
pub enum Instruction {
    /// Traps with the given code; `unreachable` translates to this.
    Trap { trap_code: TrapCode },
    /// Subtracts `block_fuel` from the fuel budget; traps with `OutOfFuel`
    /// when less than that much is left.
    ConsumeFuel { block_fuel: u64 },
    /// Returns no values from the current function.
    Return,
    /// Returns one register value.
    ReturnReg { value: Reg },
    /// Returns two register values.
    ReturnReg2 { value0: Reg, value1: Reg },
    /// Returns one 32-bit immediate value.
    ReturnImm32 { value: u32 },
    /// Returns one `i64` value given as a sign-extended 32-bit immediate.
    ReturnI64Imm32 { value: i32 },
    /// Returns `len` contiguous register values starting at `values`.
    ReturnSpan { values: Reg, len: u16 },
    /// Returns no values if `condition` is non-zero, else falls through.
    ReturnNez { condition: Reg },
    /// Returns one register value if `condition` is non-zero.
    ReturnNezReg { condition: Reg, value: Reg },
    /// Returns one immediate value if `condition` is non-zero.
    ReturnNezImm32 { condition: Reg, value: u32 },
    /// Unconditional branch by `offset` relative to the next word.
    Branch { offset: i32 },
    /// Compare-branch with an arbitrary comparator; covers the comparisons
    /// that have no fused opcode of their own.
    BranchCmpFallback { lhs: Reg, rhs: Reg, comparator: Comparator, offset: i32 },
    /// Branch table without copied values: `len_targets` trailer targets
    /// follow; the index register selects one, clamped to the last.
    BranchTable0 { index: Reg, len_targets: u32 },
    /// Branch table copying one value: a `Register` trailer holding the
    /// source follows, then the targets; the chosen target names the
    /// destination register.
    BranchTable1 { index: Reg, len_targets: u32 },
    /// Fused `i32` compare-branch: branches by `offset` if the comparison
    /// holds, else falls through. One variant per comparator, each with a
    /// register-immediate twin (the immediate is sign-extended).
    BranchI32Eq { lhs: Reg, rhs: Reg, offset: i16 },
    BranchI32EqImm { lhs: Reg, rhs: i16, offset: i16 },
    BranchI32Ne { lhs: Reg, rhs: Reg, offset: i16 },
    BranchI32NeImm { lhs: Reg, rhs: i16, offset: i16 },
    BranchI32LtS { lhs: Reg, rhs: Reg, offset: i16 },
    BranchI32LtSImm { lhs: Reg, rhs: i16, offset: i16 },
    BranchI32LtU { lhs: Reg, rhs: Reg, offset: i16 },
    BranchI32LtUImm { lhs: Reg, rhs: i16, offset: i16 },
    BranchI32LeS { lhs: Reg, rhs: Reg, offset: i16 },
    BranchI32LeSImm { lhs: Reg, rhs: i16, offset: i16 },
    BranchI32LeU { lhs: Reg, rhs: Reg, offset: i16 },
    BranchI32LeUImm { lhs: Reg, rhs: i16, offset: i16 },
    BranchI32GtS { lhs: Reg, rhs: Reg, offset: i16 },
    BranchI32GtSImm { lhs: Reg, rhs: i16, offset: i16 },
    BranchI32GtU { lhs: Reg, rhs: Reg, offset: i16 },
    BranchI32GtUImm { lhs: Reg, rhs: i16, offset: i16 },
    BranchI32GeS { lhs: Reg, rhs: Reg, offset: i16 },
    BranchI32GeSImm { lhs: Reg, rhs: i16, offset: i16 },
    BranchI32GeU { lhs: Reg, rhs: Reg, offset: i16 },
    BranchI32GeUImm { lhs: Reg, rhs: i16, offset: i16 },
    BranchI32And { lhs: Reg, rhs: Reg, offset: i16 },
    BranchI32AndImm { lhs: Reg, rhs: i16, offset: i16 },
    BranchI32Or { lhs: Reg, rhs: Reg, offset: i16 },
    BranchI32OrImm { lhs: Reg, rhs: i16, offset: i16 },
    BranchI32Xor { lhs: Reg, rhs: Reg, offset: i16 },
    BranchI32XorImm { lhs: Reg, rhs: i16, offset: i16 },
    BranchI32AndEqz { lhs: Reg, rhs: Reg, offset: i16 },
    BranchI32AndEqzImm { lhs: Reg, rhs: i16, offset: i16 },
    BranchI32OrEqz { lhs: Reg, rhs: Reg, offset: i16 },
    BranchI32OrEqzImm { lhs: Reg, rhs: i16, offset: i16 },
    BranchI32XorEqz { lhs: Reg, rhs: Reg, offset: i16 },
    BranchI32XorEqzImm { lhs: Reg, rhs: i16, offset: i16 },
    /// Fused `i64` compare-branch, as the `i32` forms.
    BranchI64Eq { lhs: Reg, rhs: Reg, offset: i16 },
    BranchI64EqImm { lhs: Reg, rhs: i16, offset: i16 },
    BranchI64Ne { lhs: Reg, rhs: Reg, offset: i16 },
    BranchI64NeImm { lhs: Reg, rhs: i16, offset: i16 },
    BranchI64LtS { lhs: Reg, rhs: Reg, offset: i16 },
    BranchI64LtSImm { lhs: Reg, rhs: i16, offset: i16 },
    BranchI64LtU { lhs: Reg, rhs: Reg, offset: i16 },
    BranchI64LtUImm { lhs: Reg, rhs: i16, offset: i16 },
    BranchI64LeS { lhs: Reg, rhs: Reg, offset: i16 },
    BranchI64LeSImm { lhs: Reg, rhs: i16, offset: i16 },
    BranchI64LeU { lhs: Reg, rhs: Reg, offset: i16 },
    BranchI64LeUImm { lhs: Reg, rhs: i16, offset: i16 },
    BranchI64GtS { lhs: Reg, rhs: Reg, offset: i16 },
    BranchI64GtSImm { lhs: Reg, rhs: i16, offset: i16 },
    BranchI64GtU { lhs: Reg, rhs: Reg, offset: i16 },
    BranchI64GtUImm { lhs: Reg, rhs: i16, offset: i16 },
    BranchI64GeS { lhs: Reg, rhs: Reg, offset: i16 },
    BranchI64GeSImm { lhs: Reg, rhs: i16, offset: i16 },
    BranchI64GeU { lhs: Reg, rhs: Reg, offset: i16 },
    BranchI64GeUImm { lhs: Reg, rhs: i16, offset: i16 },
    /// Copies `value` into `result`.
    Copy { result: Reg, value: Reg },
    /// Copies two values into `results` and `results + 1`.
    Copy2 { results: Reg, value0: Reg, value1: Reg },
    /// Copies a 32-bit immediate into `result`.
    CopyImm32 { result: Reg, value: u32 },
    /// Copies a sign-extended 32-bit immediate into `result` as an `i64`.
    CopyI64Imm32 { result: Reg, value: i32 },
    /// Copies `len` contiguous values starting at `values` to the span
    /// starting at `results`; the ranges may overlap.
    CopySpan { results: Reg, values: Reg, len: u16 },
    /// As `CopySpan`, for ranges the translator proved disjoint.
    CopySpanNonOverlapping { results: Reg, values: Reg, len: u16 },
    /// Copies the values named by the trailing register list to the span
    /// starting at `results`.
    CopyMany { results: Reg },
    /// As `CopyMany`, for ranges the translator proved disjoint.
    CopyManyNonOverlapping { results: Reg },
    /// Calls the instance-local function `func`, which takes no arguments;
    /// its results land in the span starting at `results`.
    CallInternal0 { results: Reg, func: u32 },
    /// Calls the instance-local function `func`; the trailing register list
    /// names the argument registers.
    CallInternal { results: Reg, func: u32 },
    /// Calls the instance-local host function `func` with no arguments;
    /// execution pauses and reports the call to the embedder.
    CallImported0 { results: Reg, func: u32 },
    /// Calls the instance-local host function `func`; the trailing register
    /// list names the argument registers.
    CallImported { results: Reg, func: u32 },
    /// Indirect call with no arguments: a `CallIndirectParams` trailer
    /// names the table and the index register; `func_type` is the expected
    /// instance-local signature.
    CallIndirect0 { results: Reg, func_type: u32 },
    /// Indirect call: the `CallIndirectParams` trailer is followed by the
    /// argument register list.
    CallIndirect { results: Reg, func_type: u32 },
    /// Tail call of the instance-local function `func` with no arguments.
    ReturnCallInternal0 { func: u32 },
    /// Tail call of the instance-local function `func`; the trailing
    /// register list names the argument registers.
    ReturnCallInternal { func: u32 },
    /// Tail call of a host function with no arguments.
    ReturnCallImported0 { func: u32 },
    /// Tail call of a host function with arguments.
    ReturnCallImported { func: u32 },
    /// Indirect tail call with no arguments.
    ReturnCallIndirect0 { func_type: u32 },
    /// Indirect tail call with arguments.
    ReturnCallIndirect { func_type: u32 },
    /// Writes `lhs` to `result` if the condition register (first slot of
    /// the `Register2` trailer) is non-zero, else the second trailer slot.
    Select { result: Reg, lhs: Reg },
    /// `Select` with an immediate left value.
    SelectImm32Lhs { result: Reg, lhs: u32 },
    /// `Select` with an immediate right value: the trailer is a
    /// `RegisterAndImm32` holding the condition register and the value.
    SelectImm32Rhs { result: Reg, lhs: Reg },
    /// `Select` with two immediate values.
    SelectImm32 { result: Reg, lhs: u32 },
    /// Materializes a function reference to the instance-local `func`.
    RefFunc { result: Reg, func: u32 },
    /// Reads the instance-local global `global` into `result`.
    GlobalGet { result: Reg, global: u32 },
    /// Writes the register `input` to the instance-local global `global`.
    GlobalSet { global: u32, input: Reg },
    /// Writes a sign-extended 16-bit immediate to an `i32` global.
    GlobalSetI32Imm16 { global: u32, input: i16 },
    /// Writes a sign-extended 16-bit immediate to an `i64` global.
    GlobalSetI64Imm16 { global: u32, input: i16 },
    /// Loads from `ptr + offset32`, the offset held by a `Const32` trailer.
    /// Narrow forms extend per their signedness suffix; byte order is
    /// little-endian; the effective range must lie within memory.
    I32Load { result: Reg, ptr: Reg },
    I32Load8s { result: Reg, ptr: Reg },
    I32Load8u { result: Reg, ptr: Reg },
    I32Load16s { result: Reg, ptr: Reg },
    I32Load16u { result: Reg, ptr: Reg },
    I64Load { result: Reg, ptr: Reg },
    I64Load8s { result: Reg, ptr: Reg },
    I64Load8u { result: Reg, ptr: Reg },
    I64Load16s { result: Reg, ptr: Reg },
    I64Load16u { result: Reg, ptr: Reg },
    I64Load32s { result: Reg, ptr: Reg },
    I64Load32u { result: Reg, ptr: Reg },
    /// Loads from an absolute constant address.
    I32LoadAt { result: Reg, address: u32 },
    I32Load8sAt { result: Reg, address: u32 },
    I32Load8uAt { result: Reg, address: u32 },
    I32Load16sAt { result: Reg, address: u32 },
    I32Load16uAt { result: Reg, address: u32 },
    I64LoadAt { result: Reg, address: u32 },
    I64Load8sAt { result: Reg, address: u32 },
    I64Load8uAt { result: Reg, address: u32 },
    I64Load16sAt { result: Reg, address: u32 },
    I64Load16uAt { result: Reg, address: u32 },
    I64Load32sAt { result: Reg, address: u32 },
    I64Load32uAt { result: Reg, address: u32 },
    /// Loads from `ptr + offset` with a 16-bit immediate offset.
    I32LoadOffset16 { result: Reg, ptr: Reg, offset: u16 },
    I32Load8sOffset16 { result: Reg, ptr: Reg, offset: u16 },
    I32Load8uOffset16 { result: Reg, ptr: Reg, offset: u16 },
    I32Load16sOffset16 { result: Reg, ptr: Reg, offset: u16 },
    I32Load16uOffset16 { result: Reg, ptr: Reg, offset: u16 },
    I64LoadOffset16 { result: Reg, ptr: Reg, offset: u16 },
    I64Load8sOffset16 { result: Reg, ptr: Reg, offset: u16 },
    I64Load8uOffset16 { result: Reg, ptr: Reg, offset: u16 },
    I64Load16sOffset16 { result: Reg, ptr: Reg, offset: u16 },
    I64Load16uOffset16 { result: Reg, ptr: Reg, offset: u16 },
    I64Load32sOffset16 { result: Reg, ptr: Reg, offset: u16 },
    I64Load32uOffset16 { result: Reg, ptr: Reg, offset: u16 },
    /// Stores the low bytes of `value` at `ptr + offset32`, the offset held
    /// by a `Const32` trailer.
    I32Store { ptr: Reg, value: Reg },
    I32Store8 { ptr: Reg, value: Reg },
    I32Store16 { ptr: Reg, value: Reg },
    I64Store { ptr: Reg, value: Reg },
    I64Store8 { ptr: Reg, value: Reg },
    I64Store16 { ptr: Reg, value: Reg },
    I64Store32 { ptr: Reg, value: Reg },
    /// Stores at `ptr + offset` with a 16-bit immediate offset.
    I32StoreOffset16 { ptr: Reg, offset: u16, value: Reg },
    I32Store8Offset16 { ptr: Reg, offset: u16, value: Reg },
    I32Store16Offset16 { ptr: Reg, offset: u16, value: Reg },
    I64StoreOffset16 { ptr: Reg, offset: u16, value: Reg },
    I64Store8Offset16 { ptr: Reg, offset: u16, value: Reg },
    I64Store16Offset16 { ptr: Reg, offset: u16, value: Reg },
    I64Store32Offset16 { ptr: Reg, offset: u16, value: Reg },
    /// Stores at an absolute constant address.
    I32StoreAt { address: u32, value: Reg },
    I32Store8At { address: u32, value: Reg },
    I32Store16At { address: u32, value: Reg },
    I64StoreAt { address: u32, value: Reg },
    I64Store8At { address: u32, value: Reg },
    I64Store16At { address: u32, value: Reg },
    I64Store32At { address: u32, value: Reg },
    /// Stores a sign-extended 16-bit immediate value.
    I32StoreOffset16Imm16 { ptr: Reg, offset: u16, value: i16 },
    I32StoreAtImm16 { address: u32, value: i16 },
    I64StoreOffset16Imm16 { ptr: Reg, offset: u16, value: i16 },
    I64StoreAtImm16 { address: u32, value: i16 },
    /// Binary `i32` arithmetic: register-register, register-immediate
    /// (`Imm16`, sign-extended) and reversed-immediate (`Imm16Rev`) forms.
    /// `add`, `sub` and `mul` wrap modulo 2^32; shifts mask the amount.
    I32Add { result: Reg, lhs: Reg, rhs: Reg },
    I32Sub { result: Reg, lhs: Reg, rhs: Reg },
    I32Mul { result: Reg, lhs: Reg, rhs: Reg },
    I32And { result: Reg, lhs: Reg, rhs: Reg },
    I32AndEqz { result: Reg, lhs: Reg, rhs: Reg },
    I32Or { result: Reg, lhs: Reg, rhs: Reg },
    I32OrEqz { result: Reg, lhs: Reg, rhs: Reg },
    I32Xor { result: Reg, lhs: Reg, rhs: Reg },
    I32XorEqz { result: Reg, lhs: Reg, rhs: Reg },
    I32Shl { result: Reg, lhs: Reg, rhs: Reg },
    I32ShrS { result: Reg, lhs: Reg, rhs: Reg },
    I32ShrU { result: Reg, lhs: Reg, rhs: Reg },
    I32Rotl { result: Reg, lhs: Reg, rhs: Reg },
    I32Rotr { result: Reg, lhs: Reg, rhs: Reg },
    I32AddImm16 { result: Reg, lhs: Reg, rhs: i16 },
    I32MulImm16 { result: Reg, lhs: Reg, rhs: i16 },
    I32AndImm16 { result: Reg, lhs: Reg, rhs: i16 },
    I32AndEqzImm16 { result: Reg, lhs: Reg, rhs: i16 },
    I32OrImm16 { result: Reg, lhs: Reg, rhs: i16 },
    I32OrEqzImm16 { result: Reg, lhs: Reg, rhs: i16 },
    I32XorImm16 { result: Reg, lhs: Reg, rhs: i16 },
    I32XorEqzImm16 { result: Reg, lhs: Reg, rhs: i16 },
    I32ShlImm { result: Reg, lhs: Reg, rhs: i16 },
    I32ShrSImm { result: Reg, lhs: Reg, rhs: i16 },
    I32ShrUImm { result: Reg, lhs: Reg, rhs: i16 },
    I32RotlImm { result: Reg, lhs: Reg, rhs: i16 },
    I32RotrImm { result: Reg, lhs: Reg, rhs: i16 },
    I32SubImm16Rev { result: Reg, lhs: i16, rhs: Reg },
    I32ShlImm16Rev { result: Reg, lhs: i16, rhs: Reg },
    I32ShrSImm16Rev { result: Reg, lhs: i16, rhs: Reg },
    I32ShrUImm16Rev { result: Reg, lhs: i16, rhs: Reg },
    I32RotlImm16Rev { result: Reg, lhs: i16, rhs: Reg },
    I32RotrImm16Rev { result: Reg, lhs: i16, rhs: Reg },
    /// `i32` division and remainder; they trap on a zero divisor and on
    /// signed minimum over minus one. The unsigned immediate forms carry a
    /// divisor the translator guarantees non-zero.
    I32DivS { result: Reg, lhs: Reg, rhs: Reg },
    I32DivU { result: Reg, lhs: Reg, rhs: Reg },
    I32RemS { result: Reg, lhs: Reg, rhs: Reg },
    I32RemU { result: Reg, lhs: Reg, rhs: Reg },
    I32DivSImm16 { result: Reg, lhs: Reg, rhs: i16 },
    I32DivUImm16 { result: Reg, lhs: Reg, rhs: i16 },
    I32RemSImm16 { result: Reg, lhs: Reg, rhs: i16 },
    I32RemUImm16 { result: Reg, lhs: Reg, rhs: i16 },
    I32DivSImm16Rev { result: Reg, lhs: i16, rhs: Reg },
    I32DivUImm16Rev { result: Reg, lhs: i16, rhs: Reg },
    I32RemSImm16Rev { result: Reg, lhs: i16, rhs: Reg },
    I32RemUImm16Rev { result: Reg, lhs: i16, rhs: Reg },
    /// `i32` comparisons; the result register receives 0 or 1.
    I32Eq { result: Reg, lhs: Reg, rhs: Reg },
    I32Ne { result: Reg, lhs: Reg, rhs: Reg },
    I32LtS { result: Reg, lhs: Reg, rhs: Reg },
    I32LtU { result: Reg, lhs: Reg, rhs: Reg },
    I32LeS { result: Reg, lhs: Reg, rhs: Reg },
    I32LeU { result: Reg, lhs: Reg, rhs: Reg },
    I32GtS { result: Reg, lhs: Reg, rhs: Reg },
    I32GtU { result: Reg, lhs: Reg, rhs: Reg },
    I32GeS { result: Reg, lhs: Reg, rhs: Reg },
    I32GeU { result: Reg, lhs: Reg, rhs: Reg },
    I32EqImm16 { result: Reg, lhs: Reg, rhs: i16 },
    I32NeImm16 { result: Reg, lhs: Reg, rhs: i16 },
    I32LtSImm16 { result: Reg, lhs: Reg, rhs: i16 },
    I32LtUImm16 { result: Reg, lhs: Reg, rhs: i16 },
    I32LeSImm16 { result: Reg, lhs: Reg, rhs: i16 },
    I32LeUImm16 { result: Reg, lhs: Reg, rhs: i16 },
    I32GtSImm16 { result: Reg, lhs: Reg, rhs: i16 },
    I32GtUImm16 { result: Reg, lhs: Reg, rhs: i16 },
    I32GeSImm16 { result: Reg, lhs: Reg, rhs: i16 },
    I32GeUImm16 { result: Reg, lhs: Reg, rhs: i16 },
    /// Binary `i64` arithmetic, as the `i32` family over the whole cell.
    I64Add { result: Reg, lhs: Reg, rhs: Reg },
    I64Sub { result: Reg, lhs: Reg, rhs: Reg },
    I64Mul { result: Reg, lhs: Reg, rhs: Reg },
    I64And { result: Reg, lhs: Reg, rhs: Reg },
    I64Or { result: Reg, lhs: Reg, rhs: Reg },
    I64Xor { result: Reg, lhs: Reg, rhs: Reg },
    I64Shl { result: Reg, lhs: Reg, rhs: Reg },
    I64ShrS { result: Reg, lhs: Reg, rhs: Reg },
    I64ShrU { result: Reg, lhs: Reg, rhs: Reg },
    I64Rotl { result: Reg, lhs: Reg, rhs: Reg },
    I64Rotr { result: Reg, lhs: Reg, rhs: Reg },
    I64AddImm16 { result: Reg, lhs: Reg, rhs: i16 },
    I64MulImm16 { result: Reg, lhs: Reg, rhs: i16 },
    I64AndImm16 { result: Reg, lhs: Reg, rhs: i16 },
    I64OrImm16 { result: Reg, lhs: Reg, rhs: i16 },
    I64XorImm16 { result: Reg, lhs: Reg, rhs: i16 },
    I64ShlImm { result: Reg, lhs: Reg, rhs: i16 },
    I64ShrSImm { result: Reg, lhs: Reg, rhs: i16 },
    I64ShrUImm { result: Reg, lhs: Reg, rhs: i16 },
    I64RotlImm { result: Reg, lhs: Reg, rhs: i16 },
    I64RotrImm { result: Reg, lhs: Reg, rhs: i16 },
    I64SubImm16Rev { result: Reg, lhs: i16, rhs: Reg },
    I64ShlImm16Rev { result: Reg, lhs: i16, rhs: Reg },
    I64ShrSImm16Rev { result: Reg, lhs: i16, rhs: Reg },
    I64ShrUImm16Rev { result: Reg, lhs: i16, rhs: Reg },
    I64RotlImm16Rev { result: Reg, lhs: i16, rhs: Reg },
    I64RotrImm16Rev { result: Reg, lhs: i16, rhs: Reg },
    /// `i64` division and remainder.
    I64DivS { result: Reg, lhs: Reg, rhs: Reg },
    I64DivU { result: Reg, lhs: Reg, rhs: Reg },
    I64RemS { result: Reg, lhs: Reg, rhs: Reg },
    I64RemU { result: Reg, lhs: Reg, rhs: Reg },
    I64DivSImm16 { result: Reg, lhs: Reg, rhs: i16 },
    I64DivUImm16 { result: Reg, lhs: Reg, rhs: i16 },
    I64RemSImm16 { result: Reg, lhs: Reg, rhs: i16 },
    I64RemUImm16 { result: Reg, lhs: Reg, rhs: i16 },
    I64DivSImm16Rev { result: Reg, lhs: i16, rhs: Reg },
    I64DivUImm16Rev { result: Reg, lhs: i16, rhs: Reg },
    I64RemSImm16Rev { result: Reg, lhs: i16, rhs: Reg },
    I64RemUImm16Rev { result: Reg, lhs: i16, rhs: Reg },
    /// `i64` comparisons; the result register receives 0 or 1.
    I64Eq { result: Reg, lhs: Reg, rhs: Reg },
    I64Ne { result: Reg, lhs: Reg, rhs: Reg },
    I64LtS { result: Reg, lhs: Reg, rhs: Reg },
    I64LtU { result: Reg, lhs: Reg, rhs: Reg },
    I64LeS { result: Reg, lhs: Reg, rhs: Reg },
    I64LeU { result: Reg, lhs: Reg, rhs: Reg },
    I64GtS { result: Reg, lhs: Reg, rhs: Reg },
    I64GtU { result: Reg, lhs: Reg, rhs: Reg },
    I64GeS { result: Reg, lhs: Reg, rhs: Reg },
    I64GeU { result: Reg, lhs: Reg, rhs: Reg },
    I64EqImm16 { result: Reg, lhs: Reg, rhs: i16 },
    I64NeImm16 { result: Reg, lhs: Reg, rhs: i16 },
    I64LtSImm16 { result: Reg, lhs: Reg, rhs: i16 },
    I64LtUImm16 { result: Reg, lhs: Reg, rhs: i16 },
    I64LeSImm16 { result: Reg, lhs: Reg, rhs: i16 },
    I64LeUImm16 { result: Reg, lhs: Reg, rhs: i16 },
    I64GtSImm16 { result: Reg, lhs: Reg, rhs: i16 },
    I64GtUImm16 { result: Reg, lhs: Reg, rhs: i16 },
    I64GeSImm16 { result: Reg, lhs: Reg, rhs: i16 },
    I64GeUImm16 { result: Reg, lhs: Reg, rhs: i16 },
    /// Unary bit-counting operations.
    I32Clz { result: Reg, input: Reg },
    I32Ctz { result: Reg, input: Reg },
    I32Popcnt { result: Reg, input: Reg },
    I64Clz { result: Reg, input: Reg },
    I64Ctz { result: Reg, input: Reg },
    I64Popcnt { result: Reg, input: Reg },
    /// Integer conversions: wrap and sign extensions.
    I32WrapI64 { result: Reg, input: Reg },
    I32Extend8S { result: Reg, input: Reg },
    I32Extend16S { result: Reg, input: Reg },
    I64Extend8S { result: Reg, input: Reg },
    I64Extend16S { result: Reg, input: Reg },
    I64Extend32S { result: Reg, input: Reg },
    /// Returns the size of the default memory in pages.
    MemorySize { result: Reg },
    /// Grows the default memory by a register-held number of pages; writes
    /// the previous size in pages, or -1 if the growth was refused.
    MemoryGrow { result: Reg, delta: Reg },
    /// Grows the default memory by an immediate number of pages.
    MemoryGrowBy { result: Reg, delta: u32 },
    /// `memory.copy`: copies `len` bytes from `src` to `dst` as if through
    /// a snapshot; traps before writing anything if either range is out of
    /// bounds. The `From`/`To`/`Exact` suffixes mark operands the
    /// translator turned into immediates.
    MemoryCopy { dst: Reg, src: Reg, len: Reg },
    MemoryCopyExact { dst: Reg, src: Reg, len: u32 },
    MemoryCopyFromTo { dst: u32, src: u32, len: Reg },
    MemoryCopyFromToExact { dst: u32, src: u32, len: u32 },
    /// `memory.fill`: writes `len` copies of the low byte of `value`.
    MemoryFill { dst: Reg, value: Reg, len: Reg },
    MemoryFillImm { dst: Reg, value: u8, len: Reg },
    MemoryFillImmExact { dst: Reg, value: u8, len: u32 },
    MemoryFillAtImmExact { dst: u32, value: u8, len: u32 },
    /// `memory.init`: copies from the passive data segment `segment`;
    /// a dropped segment is empty, so a non-zero length then traps.
    MemoryInit { dst: Reg, src: Reg, len: Reg, segment: u32 },
    MemoryInitExact { dst: Reg, src: Reg, len: u32, segment: u32 },
    MemoryInitFromToExact { dst: u32, src: u32, len: u32, segment: u32 },
    /// Marks the passive data segment `segment` as consumed.
    DataDrop { segment: u32 },
    /// Reads a table element into `result`; traps when out of range.
    TableGet { result: Reg, index: Reg, table: u32 },
    TableGetImm { result: Reg, index: u32, table: u32 },
    /// Returns the size of the table in elements.
    TableSize { result: Reg, table: u32 },
    /// Writes a table element; traps when out of range.
    TableSet { index: Reg, value: Reg, table: u32 },
    TableSetAt { index: u32, value: Reg, table: u32 },
    /// `table.copy` between two tables, with snapshot semantics.
    TableCopy { dst: Reg, src: Reg, len: Reg, dst_table: u32, src_table: u32 },
    TableCopyExact { dst: Reg, src: Reg, len: u32, dst_table: u32, src_table: u32 },
    /// `table.init` from the passive element segment `segment`.
    TableInit { dst: Reg, src: Reg, len: Reg, table: u32, segment: u32 },
    TableInitExact { dst: Reg, src: Reg, len: u32, table: u32, segment: u32 },
    /// `table.fill`: writes `len` copies of `value`.
    TableFill { dst: Reg, len: Reg, value: Reg, table: u32 },
    TableFillExact { dst: u32, len: u32, value: Reg, table: u32 },
    /// `table.grow`: writes the previous size, or -1 when refused.
    TableGrow { result: Reg, delta: Reg, value: Reg, table: u32 },
    TableGrowImm { result: Reg, delta: u32, value: Reg, table: u32 },
    /// Marks the passive element segment `segment` as consumed.
    ElemDrop { segment: u32 },
    /// Parameter word: one register.
    Register { reg: Reg },
    /// Parameter word: two registers.
    Register2 { reg0: Reg, reg1: Reg },
    /// Parameter word: three registers, ending a register list.
    Register3 { reg0: Reg, reg1: Reg, reg2: Reg },
    /// Parameter word: three registers, with more list words following.
    RegisterList { reg0: Reg, reg1: Reg, reg2: Reg },
    /// Parameter word: a register and a 32-bit immediate.
    RegisterAndImm32 { reg: Reg, imm: u32 },
    /// Parameter word: a 32-bit immediate, used for extended load and
    /// store offsets.
    Const32 { value: u32 },
    /// Parameter word: one branch-table target.
    BranchTableTarget { results: Reg, offset: i32 },
    /// Parameter word: a branch-table target whose copied span the
    /// translator proved disjoint from its sources.
    BranchTableTargetNonOverlapping { results: Reg, offset: i32 },
    /// Parameter word: the table and index register of an indirect call.
    CallIndirectParams { index: Reg, table: u32 },
}

} // verus!
