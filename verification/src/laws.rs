//! Laws of the step machine, stated and proved against the same
//! specification functions the executor's contracts use.

use vstd::prelude::*;
use crate::bytecode::{Instruction, Reg};
use crate::code::CodeV;
use crate::machine::{
    local_global, running_of, step, tr_call_resolved, tr_consume_fuel, tr_copy, tr_global_set,
    tr_return_vals, tr_tail_call_resolved, Mach, Step,
};
use crate::stack::reg_idx;
use crate::store::{
    byte_at, le_int, pow256, spec_mem_load, spec_mem_store, store_bytes, sv_with_mem, LoadKind,
    StoreV,
};
use crate::trap::TrapCode;
use crate::value::{eval_divop, lo32, sig32, sig64, DivOp};

verus! {

/// A trap takes effect before any observable change: whatever instruction
/// faults, the machine a trap carries is exactly the machine it was given,
/// its pointer still on the faulting instruction. The store is untouched,
/// the call stack is not unwound, and no register changed.
pub proof fn lemma_trap_preserves_machine(code: CodeV, m: Mach)
    ensures
        step(code, m) matches Step::Trap(m2, c) ==> m2 == m,
{
    if m.frames.len() > 0 {
        match crate::machine::fetch_at(code, m, m.ip()) {
            Some(instr) => {
                lemma_families_cover(instr);
                if crate::executor::family_main(instr) {
                    lemma_trap_preserves_main(code, m, instr);
                } else if crate::executor::family_load_store(instr) {
                    lemma_trap_preserves_load_store(code, m, instr);
                } else if crate::executor::family_i32(instr) {
                    lemma_trap_preserves_i32(code, m, instr);
                } else if crate::executor::family_i64(instr) {
                    lemma_trap_preserves_i64(code, m, instr);
                } else {
                    lemma_trap_preserves_bulk(code, m, instr);
                }
            },
            None => {},
        }
    }
}

/// Every instruction word belongs to one of the five dispatch families.
#[verifier::rlimit(100)]
#[verifier::spinoff_prover]
proof fn lemma_families_cover(instr: Instruction)
    ensures
        crate::executor::family_main(instr) || crate::executor::family_load_store(instr)
            || crate::executor::family_i32(instr) || crate::executor::family_i64(instr)
            || crate::executor::family_bulk(instr),
{
}


#[verifier::rlimit(100)]
#[verifier::spinoff_prover]
proof fn lemma_trap_preserves_main(code: CodeV, m: Mach, instr: Instruction)
    requires
        m.frames.len() > 0,
        crate::machine::fetch_at(code, m, m.ip()) == Some(instr),
        crate::executor::family_main(instr),
    ensures
        step(code, m) matches Step::Trap(m2, c) ==> m2 == m,
{
    reveal(crate::machine::step_instr);
}

#[verifier::rlimit(100)]
#[verifier::spinoff_prover]
proof fn lemma_trap_preserves_load_store(code: CodeV, m: Mach, instr: Instruction)
    requires
        m.frames.len() > 0,
        crate::machine::fetch_at(code, m, m.ip()) == Some(instr),
        crate::executor::family_load_store(instr),
    ensures
        step(code, m) matches Step::Trap(m2, c) ==> m2 == m,
{
    reveal(crate::machine::step_instr);
}

#[verifier::rlimit(100)]
#[verifier::spinoff_prover]
proof fn lemma_trap_preserves_i32(code: CodeV, m: Mach, instr: Instruction)
    requires
        m.frames.len() > 0,
        crate::machine::fetch_at(code, m, m.ip()) == Some(instr),
        crate::executor::family_i32(instr),
    ensures
        step(code, m) matches Step::Trap(m2, c) ==> m2 == m,
{
    reveal(crate::machine::step_instr);
}

#[verifier::rlimit(100)]
#[verifier::spinoff_prover]
proof fn lemma_trap_preserves_i64(code: CodeV, m: Mach, instr: Instruction)
    requires
        m.frames.len() > 0,
        crate::machine::fetch_at(code, m, m.ip()) == Some(instr),
        crate::executor::family_i64(instr),
    ensures
        step(code, m) matches Step::Trap(m2, c) ==> m2 == m,
{
    reveal(crate::machine::step_instr);
}

#[verifier::rlimit(100)]
#[verifier::spinoff_prover]
proof fn lemma_trap_preserves_bulk(code: CodeV, m: Mach, instr: Instruction)
    requires
        m.frames.len() > 0,
        crate::machine::fetch_at(code, m, m.ip()) == Some(instr),
        crate::executor::family_bulk(instr),
    ensures
        step(code, m) matches Step::Trap(m2, c) ==> m2 == m,
{
    reveal(crate::machine::step_instr);
}

#[verifier::rlimit(100)]
#[verifier::spinoff_prover]
proof fn lemma_fuel_monotone_main(code: CodeV, m: Mach, instr: Instruction)
    requires
        m.frames.len() > 0,
        crate::machine::fetch_at(code, m, m.ip()) == Some(instr),
        crate::executor::family_main(instr),
    ensures
        m.store.fuel >= (match step(code, m) {
            Step::Running(m2) => m2.store.fuel,
            Step::Returned(m2) => m2.store.fuel,
            Step::Host(m2, d) => m2.store.fuel,
            Step::Trap(m2, c) => m2.store.fuel,
        }),
{
    reveal(crate::machine::step_instr);
}

#[verifier::rlimit(100)]
#[verifier::spinoff_prover]
proof fn lemma_fuel_monotone_load_store(code: CodeV, m: Mach, instr: Instruction)
    requires
        m.frames.len() > 0,
        crate::machine::fetch_at(code, m, m.ip()) == Some(instr),
        crate::executor::family_load_store(instr),
    ensures
        m.store.fuel >= (match step(code, m) {
            Step::Running(m2) => m2.store.fuel,
            Step::Returned(m2) => m2.store.fuel,
            Step::Host(m2, d) => m2.store.fuel,
            Step::Trap(m2, c) => m2.store.fuel,
        }),
{
    reveal(crate::machine::step_instr);
}

#[verifier::rlimit(100)]
#[verifier::spinoff_prover]
proof fn lemma_fuel_monotone_i32(code: CodeV, m: Mach, instr: Instruction)
    requires
        m.frames.len() > 0,
        crate::machine::fetch_at(code, m, m.ip()) == Some(instr),
        crate::executor::family_i32(instr),
    ensures
        m.store.fuel >= (match step(code, m) {
            Step::Running(m2) => m2.store.fuel,
            Step::Returned(m2) => m2.store.fuel,
            Step::Host(m2, d) => m2.store.fuel,
            Step::Trap(m2, c) => m2.store.fuel,
        }),
{
    reveal(crate::machine::step_instr);
}

#[verifier::rlimit(100)]
#[verifier::spinoff_prover]
proof fn lemma_fuel_monotone_i64(code: CodeV, m: Mach, instr: Instruction)
    requires
        m.frames.len() > 0,
        crate::machine::fetch_at(code, m, m.ip()) == Some(instr),
        crate::executor::family_i64(instr),
    ensures
        m.store.fuel >= (match step(code, m) {
            Step::Running(m2) => m2.store.fuel,
            Step::Returned(m2) => m2.store.fuel,
            Step::Host(m2, d) => m2.store.fuel,
            Step::Trap(m2, c) => m2.store.fuel,
        }),
{
    reveal(crate::machine::step_instr);
}

#[verifier::rlimit(100)]
#[verifier::spinoff_prover]
proof fn lemma_fuel_monotone_bulk(code: CodeV, m: Mach, instr: Instruction)
    requires
        m.frames.len() > 0,
        crate::machine::fetch_at(code, m, m.ip()) == Some(instr),
        crate::executor::family_bulk(instr),
    ensures
        m.store.fuel >= (match step(code, m) {
            Step::Running(m2) => m2.store.fuel,
            Step::Returned(m2) => m2.store.fuel,
            Step::Host(m2, d) => m2.store.fuel,
            Step::Trap(m2, c) => m2.store.fuel,
        }),
{
    reveal(crate::machine::step_instr);
}

/// The fuel counter never grows: whatever one step does — continue,
/// return, pause or trap — the fuel of the state it yields is at most the
/// fuel before it. Only `ConsumeFuel` draws it down, and nothing refills
/// it, so across a whole run it is monotonically non-increasing.
pub proof fn lemma_step_fuel_monotone(code: CodeV, m: Mach)
    ensures
        m.store.fuel >= (match step(code, m) {
            Step::Running(m2) => m2.store.fuel,
            Step::Returned(m2) => m2.store.fuel,
            Step::Host(m2, d) => m2.store.fuel,
            Step::Trap(m2, c) => m2.store.fuel,
        }),
{
    if m.frames.len() > 0 {
        match crate::machine::fetch_at(code, m, m.ip()) {
            Some(instr) => {
                lemma_families_cover(instr);
                if crate::executor::family_main(instr) {
                    lemma_fuel_monotone_main(code, m, instr);
                } else if crate::executor::family_load_store(instr) {
                    lemma_fuel_monotone_load_store(code, m, instr);
                } else if crate::executor::family_i32(instr) {
                    lemma_fuel_monotone_i32(code, m, instr);
                } else if crate::executor::family_i64(instr) {
                    lemma_fuel_monotone_i64(code, m, instr);
                } else {
                    lemma_fuel_monotone_bulk(code, m, instr);
                }
            },
            None => {},
        }
    }
}

/// Of all the store transitions the instruction set performs, only
/// `ConsumeFuel` touches the fuel counter: updating a memory, a table, a
/// global or a segment leaves it unchanged, so the counter never grows.
pub proof fn lemma_fuel_untouched_by_state(s: StoreV, i: int, bytes: Seq<u8>, elems: Seq<u64>, v: u64)
    ensures
        sv_with_mem(s, i, bytes).fuel == s.fuel,
        crate::store::sv_with_table(s, i, elems).fuel == s.fuel,
        crate::store::sv_with_global(s, i, v).fuel == s.fuel,
        crate::store::sv_with_data(s, i, bytes).fuel == s.fuel,
        crate::store::sv_with_elem(s, i, elems).fuel == s.fuel,
{
}

/// `ConsumeFuel` subtracts exactly its budget, and traps with `OutOfFuel`
/// exactly when less than that much fuel is left; it is the only
/// instruction that touches the fuel counter.
pub proof fn lemma_consume_fuel(m: Mach, n: u64)
    ensures
        n <= m.store.fuel ==> tr_consume_fuel(m, n) == Step::Running(
            m.with_store(crate::store::sv_with_fuel(m.store, (m.store.fuel - n) as u64)).next(1),
        ),
        n > m.store.fuel ==> tr_consume_fuel(m, n) == Step::Trap(m, TrapCode::OutOfFuel),
{
}

/// A normal call deepens the call stack by exactly one frame.
pub proof fn lemma_call_pushes_one(code: CodeV, m: Mach, results: Reg, fidx: int, args: Seq<u64>, ret_ip: int)
    requires
        m.frames.len() > 0,
        tr_call_resolved(code, m, results, fidx, args, ret_ip) matches Step::Running(_),
    ensures
        running_of(tr_call_resolved(code, m, results, fidx, args, ret_ip)).frames.len()
            == m.frames.len() + 1,
{
}

/// A tail call reuses the executing frame: the call-stack depth is
/// unchanged, and the frame keeps its base and its result span.
pub proof fn lemma_tail_call_preserves_depth(code: CodeV, m: Mach, fidx: int, args: Seq<u64>)
    requires
        m.frames.len() > 0,
        tr_tail_call_resolved(code, m, fidx, args) matches Step::Running(_),
    ensures
        ({
            let m2 = running_of(tr_tail_call_resolved(code, m, fidx, args));
            &&& m2.frames.len() == m.frames.len()
            &&& m2.frames.last().base == m.frames.last().base
            &&& m2.frames.last().results == m.frames.last().results
        }),
{
}

/// A return shallows the call stack by exactly one frame and deallocates
/// the returning frame's window.
pub proof fn lemma_return_pops_one(m: Mach, vals: Seq<u64>)
    requires
        m.frames.len() > 0,
        tr_return_vals(m, vals) matches Step::Running(_),
    ensures
        running_of(tr_return_vals(m, vals)).frames.len() == m.frames.len() - 1,
{
}

/// Copying between two disjoint registers leaves the source untouched, and
/// copying a second time rewrites the same value: the value stack after two
/// copies is the value stack after one.
pub proof fn lemma_copy_copy_idempotent(m: Mach, result: Reg, value: Reg)
    requires
        m.frames.len() > 0,
        result != value,
        tr_copy(m, result, value) matches Step::Running(_),
    ensures
        ({
            let m2 = running_of(tr_copy(m, result, value));
            &&& m2.read(value) == m.read(value)
            &&& tr_copy(m2, result, value) matches Step::Running(_)
            &&& running_of(tr_copy(m2, result, value)).values == m2.values
        }),
{
    let m2 = running_of(tr_copy(m, result, value));
    let i = reg_idx(m.values.len() as int, m.base(), result as int).unwrap();
    let j = reg_idx(m.values.len() as int, m.base(), value as int).unwrap();
    assert(m2.read(value) == m.read(value));
    let m3 = running_of(tr_copy(m2, result, value));
    assert(m3.values =~= m2.values);
}

/// Writing a mutable global and reading it back yields the written value;
/// the resolution of the global is untouched by the write.
pub proof fn lemma_global_set_get(m: Mach, result: Reg, g: u32, v: u64)
    requires
        m.frames.len() > 0,
        tr_global_set(m, g, v) matches Step::Running(_),
    ensures
        ({
            let m2 = running_of(tr_global_set(m, g, v));
            &&& local_global(m2, g) == local_global(m, g)
            &&& (local_global(m, g) matches Some(h) ==> m2.store.globals[h] == v)
        }),
{
}

proof fn lemma_le_int_window(a: Seq<u8>, b: Seq<u8>, addr: int, n: nat)
    requires
        0 <= addr,
        addr + n <= a.len(),
        addr + n <= b.len(),
        forall|i: int| addr <= i < addr + n ==> a[i] == b[i],
    ensures
        le_int(a, addr, n) == le_int(b, addr, n),
    decreases n,
{
    if n != 0 {
        assert(a[addr] == b[addr]);
        lemma_le_int_window(a, b, addr + 1, (n - 1) as nat);
    }
}

proof fn lemma_le_int_of_store_bytes(bytes: Seq<u8>, addr: int, n: nat, v: int)
    requires
        0 <= v,
        0 <= addr,
        addr + n <= bytes.len(),
    ensures
        le_int(store_bytes(bytes, addr, n, v), addr, n) == v % pow256(n),
    decreases n,
{
    let b2 = store_bytes(bytes, addr, n, v);
    if n == 0 {
        assert(pow256(0) == 1);
        assert(v % 1 == 0) by (nonlinear_arith)
            requires
                v >= 0,
        ;
    } else {
        let tail = store_bytes(bytes, addr + 1, (n - 1) as nat, v / 256);
        assert forall|i: int| addr + 1 <= i < addr + n implies b2[i] == tail[i] by {
            assert(b2[i] == byte_at(v, i - addr));
            assert(tail[i] == byte_at(v / 256, i - addr - 1));
            crate::store::lemma_byte_at_shift(v, i - addr);
        }
        lemma_le_int_window(b2, tail, addr + 1, (n - 1) as nat);
        lemma_le_int_of_store_bytes(bytes, addr + 1, (n - 1) as nat, v / 256);
        assert(b2[addr] == byte_at(v, 0));
        assert(pow256(0) == 1);
        assert(byte_at(v, 0) == (v % 256) as u8) by {
            assert(v / pow256(0) == v);
        }
        assert(le_int(b2, addr, n) == (v % 256) + 256 * ((v / 256) % pow256((n - 1) as nat)));
        crate::store::lemma_pow256_pos((n - 1) as nat);
        vstd::arithmetic::div_mod::lemma_breakdown(v, 256, pow256((n - 1) as nat));
        assert(pow256(n) == 256 * pow256((n - 1) as nat));
    }
}

/// Storing a 32-bit value and loading 32 bits back from the same address
/// yields the low 32 bits of the stored cell; the rest of the memory keeps
/// its bytes.
pub proof fn lemma_store_load_roundtrip_i32(s: StoreV, m: int, addr: int, v: u64)
    requires
        0 <= m < s.memories.len(),
        0 <= addr,
        addr + 4 <= s.memories[m].bytes.len(),
    ensures
        ({
            let stored = spec_mem_store(s, m, addr, 4, v as int);
            &&& stored matches Some(bytes) && spec_mem_load(
                sv_with_mem(s, m, bytes),
                m,
                addr,
                LoadKind::I32,
            ) == Ok::<u64, TrapCode>(lo32(v))
        }),
{
    let bytes = store_bytes(s.memories[m].bytes, addr, 4, v as int);
    lemma_le_int_of_store_bytes(s.memories[m].bytes, addr, 4, v as int);
    assert(pow256(4) == 0x1_0000_0000) by {
        reveal_with_fuel(pow256, 5);
    }
    assert(le_int(bytes, addr, 4) == (v as int) % 0x1_0000_0000);
}

/// Storing a whole cell and loading 64 bits back yields the cell.
pub proof fn lemma_store_load_roundtrip_i64(s: StoreV, m: int, addr: int, v: u64)
    requires
        0 <= m < s.memories.len(),
        0 <= addr,
        addr + 8 <= s.memories[m].bytes.len(),
    ensures
        ({
            let stored = spec_mem_store(s, m, addr, 8, v as int);
            &&& stored matches Some(bytes) && spec_mem_load(
                sv_with_mem(s, m, bytes),
                m,
                addr,
                LoadKind::I64,
            ) == Ok::<u64, TrapCode>(v)
        }),
{
    let bytes = store_bytes(s.memories[m].bytes, addr, 8, v as int);
    lemma_le_int_of_store_bytes(s.memories[m].bytes, addr, 8, v as int);
    assert(pow256(8) == 0x1_0000_0000_0000_0000) by {
        reveal_with_fuel(pow256, 9);
    }
    assert(le_int(bytes, addr, 8) == (v as int) % 0x1_0000_0000_0000_0000);
}

/// Signed division of the minimum value by minus one traps with
/// `IntegerOverflow`, at either width.
pub proof fn lemma_div_min_overflow()
    ensures
        eval_divop(DivOp::I32DivS, 0x8000_0000, 0xFFFF_FFFF) == Err::<u64, TrapCode>(
            TrapCode::IntegerOverflow,
        ),
        eval_divop(DivOp::I64DivS, 0x8000_0000_0000_0000, 0xFFFF_FFFF_FFFF_FFFF) == Err::<
            u64,
            TrapCode,
        >(TrapCode::IntegerOverflow),
{
}

/// Every division and remainder operation traps with
/// `IntegerDivisionByZero` on a zero divisor.
pub proof fn lemma_div_by_zero(op: DivOp, a: u64, b: u64)
    requires
        lo32(b) == 0,
        matches!(op, DivOp::I32DivS | DivOp::I32DivU | DivOp::I32RemS | DivOp::I32RemU) || b == 0,
    ensures
        eval_divop(op, a, b) == Err::<u64, TrapCode>(TrapCode::IntegerDivisionByZero),
{
    match op {
        DivOp::I32DivS => {
            assert(sig32(b) == 0);
        },
        DivOp::I32RemS => {
            assert(sig32(b) == 0);
        },
        DivOp::I64DivS => {
            assert(sig64(b) == 0);
        },
        DivOp::I64RemS => {
            assert(sig64(b) == 0);
        },
        _ => {},
    }
}

/// The register window base an executor works with is always the base of
/// the topmost frame: every handler preserves this well-formedness, so the
/// cached window can never go stale after an operation that grew a stack.
pub proof fn lemma_sp_is_top_base(
    ex: crate::executor::Executor,
    code: crate::code::CodeMap,
    store: crate::store::Store,
    stack: crate::stack::Stack,
)
    requires
        ex.wf(code, store, stack),
    ensures
        ex.sp == stack.frames@.last().base,
{
}

} // verus!
