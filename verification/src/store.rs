//! The store: linear memories, tables, globals, passive segments, instances
//! and the fuel budget, with the handle-based operations the executor
//! consumes.
//!
//! Cyclic references are avoided throughout: the store owns the entities in
//! vectors, and instances, frames and the cached instance hold small integer
//! handles into them.

use vstd::prelude::*;
use crate::seqs::{splice_seq, vec_extend, vec_read_range, vec_write_range, vec_fill_range};
use crate::trap::TrapCode;

verus! {

/// Bytes per linear-memory page.
pub const PAGE_SIZE: u64 = 65536;

/// Largest page count a 32-bit memory can reach.
pub const MAX_PAGES: u64 = 65536;

/// One linear memory: its bytes and its page limit.
pub struct MemInst {
    /// The memory contents; the length is a multiple of the page size.
    pub bytes: Vec<u8>,
    /// Hard limit, in pages, declared by the module.
    pub max_pages: u32,
}

/// Mathematical image of a `MemInst`.
pub struct MemV {
    pub bytes: Seq<u8>,
    pub max_pages: u32,
}

impl View for MemInst {
    type V = MemV;

    open spec fn view(&self) -> MemV {
        MemV { bytes: self.bytes@, max_pages: self.max_pages }
    }
}

/// One table: its elements (function-reference cells; 0 is null, `f + 1`
/// refers to function `f`) and its element limit.
pub struct TableInst {
    /// The elements.
    pub elems: Vec<u64>,
    /// Hard limit, in elements, declared by the module.
    pub max_elems: u32,
}

/// Mathematical image of a `TableInst`.
pub struct TableV {
    pub elems: Seq<u64>,
    pub max_elems: u32,
}

impl View for TableInst {
    type V = TableV;

    open spec fn view(&self) -> TableV {
        TableV { elems: self.elems@, max_elems: self.max_elems }
    }
}

/// An instance: the store handles of everything it imports or defines, each
/// indexed by the instance-local index the bytecode uses.
pub struct Instance {
    /// Store handles of the linear memories; index 0 is the default memory.
    pub memories: Vec<u32>,
    /// Store handles of the tables.
    pub tables: Vec<u32>,
    /// Store handles of the globals.
    pub globals: Vec<u32>,
    /// Code-map handles of the functions.
    pub funcs: Vec<u32>,
    /// Deduplicated signature handles of the instance-local type table.
    pub types: Vec<u32>,
    /// Store handles of the passive data segments.
    pub datas: Vec<u32>,
    /// Store handles of the passive element segments.
    pub elems: Vec<u32>,
}

/// Mathematical image of an `Instance`.
pub struct InstanceV {
    pub memories: Seq<u32>,
    pub tables: Seq<u32>,
    pub globals: Seq<u32>,
    pub funcs: Seq<u32>,
    pub types: Seq<u32>,
    pub datas: Seq<u32>,
    pub elems: Seq<u32>,
}

impl View for Instance {
    type V = InstanceV;

    open spec fn view(&self) -> InstanceV {
        InstanceV {
            memories: self.memories@,
            tables: self.tables@,
            globals: self.globals@,
            funcs: self.funcs@,
            types: self.types@,
            datas: self.datas@,
            elems: self.elems@,
        }
    }
}

/// The store: every mutable entity execution touches.
pub struct Store {
    /// The linear memories.
    pub memories: Vec<MemInst>,
    /// The tables.
    pub tables: Vec<TableInst>,
    /// The globals, as value cells.
    pub globals: Vec<u64>,
    /// The passive data segments; a dropped segment is empty.
    pub datas: Vec<Vec<u8>>,
    /// The passive element segments; a dropped segment is empty.
    pub elem_segs: Vec<Vec<u64>>,
    /// The instances.
    pub instances: Vec<Instance>,
    /// The fuel budget `ConsumeFuel` instructions draw from.
    pub fuel: u64,
}

/// Mathematical image of a `Store`.
pub struct StoreV {
    pub memories: Seq<MemV>,
    pub tables: Seq<TableV>,
    pub globals: Seq<u64>,
    pub datas: Seq<Seq<u8>>,
    pub elem_segs: Seq<Seq<u64>>,
    pub instances: Seq<InstanceV>,
    pub fuel: u64,
}

impl View for Store {
    type V = StoreV;

    open spec fn view(&self) -> StoreV {
        StoreV {
            memories: self.memories@.map_values(|m: MemInst| m@),
            tables: self.tables@.map_values(|t: TableInst| t@),
            globals: self.globals@,
            datas: self.datas@.map_values(|d: Vec<u8>| d@),
            elem_segs: self.elem_segs@.map_values(|e: Vec<u64>| e@),
            instances: self.instances@.map_values(|i: Instance| i@),
            fuel: self.fuel,
        }
    }
}

/// The empty instance view, the image of an out-of-range instance handle.
pub open spec fn empty_instance() -> InstanceV {
    InstanceV {
        memories: Seq::empty(),
        tables: Seq::empty(),
        globals: Seq::empty(),
        funcs: Seq::empty(),
        types: Seq::empty(),
        datas: Seq::empty(),
        elems: Seq::empty(),
    }
}

/// The instance at `i`, or the empty instance when `i` is out of range.
pub open spec fn inst_at(s: StoreV, i: int) -> InstanceV {
    if 0 <= i < s.instances.len() {
        s.instances[i]
    } else {
        empty_instance()
    }
}

// Store views with one component updated.

pub open spec fn sv_with_mem(s: StoreV, m: int, bytes: Seq<u8>) -> StoreV {
    StoreV {
        memories: s.memories.update(m, MemV { bytes, max_pages: s.memories[m].max_pages }),
        ..s
    }
}

pub open spec fn sv_with_table(s: StoreV, t: int, elems: Seq<u64>) -> StoreV {
    StoreV {
        tables: s.tables.update(t, TableV { elems, max_elems: s.tables[t].max_elems }),
        ..s
    }
}

pub open spec fn sv_with_global(s: StoreV, g: int, v: u64) -> StoreV {
    StoreV { globals: s.globals.update(g, v), ..s }
}

pub open spec fn sv_with_data(s: StoreV, d: int, bytes: Seq<u8>) -> StoreV {
    StoreV { datas: s.datas.update(d, bytes), ..s }
}

pub open spec fn sv_with_elem(s: StoreV, e: int, elems: Seq<u64>) -> StoreV {
    StoreV { elem_segs: s.elem_segs.update(e, elems), ..s }
}

pub open spec fn sv_with_fuel(s: StoreV, fuel: u64) -> StoreV {
    StoreV { fuel, ..s }
}

/// 256 to the `n`.
pub open spec fn pow256(n: nat) -> int
    decreases n,
{
    if n == 0 {
        1
    } else {
        256 * pow256((n - 1) as nat)
    }
}

proof fn lemma_pow256_at_most_8(k: nat)
    requires
        k <= 8,
    ensures
        1 <= pow256(k) <= 0x1_0000_0000_0000_0000,
    decreases k,
{
    reveal_with_fuel(pow256, 9);
    if k != 0 {
        lemma_pow256_at_most_8((k - 1) as nat);
        assert(pow256(k) == 256 * pow256((k - 1) as nat));
        assert(pow256(8) == 0x1_0000_0000_0000_0000);
        if pow256(k) > 0x1_0000_0000_0000_0000 {
            lemma_pow256_mono(k, 8);
        }
    }
}

proof fn lemma_pow256_mono(a: nat, b: nat)
    requires
        a <= b,
    ensures
        pow256(a) <= pow256(b),
    decreases b,
{
    if a < b {
        lemma_pow256_mono(a, (b - 1) as nat);
        lemma_pow256_pos((b - 1) as nat);
    }
}

pub proof fn lemma_pow256_pos(n: nat)
    ensures
        pow256(n) >= 1,
    decreases n,
{
    if n != 0 {
        lemma_pow256_pos((n - 1) as nat);
    }
}

/// The little-endian reading of `n` bytes at `addr`.
pub open spec fn le_int(bytes: Seq<u8>, addr: int, n: nat) -> int
    decreases n,
{
    if n == 0 {
        0
    } else {
        bytes[addr] + 256 * le_int(bytes, addr + 1, (n - 1) as nat)
    }
}

pub proof fn lemma_le_int_bound(bytes: Seq<u8>, addr: int, n: nat)
    requires
        0 <= addr,
        addr + n <= bytes.len(),
    ensures
        0 <= le_int(bytes, addr, n) < pow256(n),
    decreases n,
{
    if n != 0 {
        lemma_le_int_bound(bytes, addr + 1, (n - 1) as nat);
        assert(0 <= bytes[addr] < 256);
    }
}

/// Byte `k` of the little-endian encoding of `v`.
pub open spec fn byte_at(v: int, k: int) -> u8 {
    ((v / pow256(k as nat)) % 256) as u8
}

/// Byte extraction commutes with shifting the value right by one byte.
pub proof fn lemma_byte_at_shift(v: int, k: int)
    requires
        0 <= v,
        1 <= k,
    ensures
        byte_at(v, k) == byte_at(v / 256, k - 1),
{
    lemma_pow256_pos((k - 1) as nat);
    vstd::arithmetic::div_mod::lemma_div_denominator(v, 256, pow256((k - 1) as nat));
    assert(pow256(k as nat) == 256 * pow256((k - 1) as nat));
}

/// `bytes` with the low `n` bytes of `v` written at `addr`.
pub open spec fn store_bytes(bytes: Seq<u8>, addr: int, n: nat, v: int) -> Seq<u8> {
    bytes.map(|i: int, b: u8| if addr <= i < addr + n { byte_at(v, i - addr) } else { b })
}

/// Reads `n` bytes little-endian.
fn read_le(bytes: &Vec<u8>, addr: usize, n: usize) -> (r: u64)
    requires
        addr + n <= bytes@.len(),
        n <= 8,
    ensures
        r as int == le_int(bytes@, addr as int, n as nat),
{
    let blen = bytes.len();
    let mut v: u64 = 0;
    let mut i: usize = n;
    while i > 0
        invariant
            i <= n,
            n <= 8,
            addr + n <= blen,
            blen == bytes@.len(),
            v as int == le_int(bytes@, addr as int + i as int, (n - i) as nat),
            v < pow256((n - i) as nat),
        decreases i,
    {
        i = i - 1;
        proof {
            lemma_pow256_at_most_8((n - i) as nat);
            assert(pow256((n - i) as nat) == 256 * pow256((n - i - 1) as nat));
            assert(v < pow256((n - i - 1) as nat));
            assert(v * 256 + 256 <= 256 * pow256((n - i - 1) as nat));
        }
        v = v * 256 + (bytes[addr + i] as u64);
    }
    v
}

/// Writes the low `n` bytes of `v` little-endian.
fn write_le(bytes: &mut Vec<u8>, addr: usize, n: usize, v: u64)
    requires
        addr + n <= old(bytes)@.len(),
        n <= 8,
    ensures
        final(bytes)@ == store_bytes(old(bytes)@, addr as int, n as nat, v as int),
{
    let blen = bytes.len();
    let mut cur: u64 = v;
    let mut i: usize = 0;
    while i < n
        invariant
            i <= n,
            n <= 8,
            addr + n <= blen,
            blen == bytes@.len(),
            cur as int == (v as int) / pow256(i as nat),
            bytes@ == store_bytes(old(bytes)@, addr as int, i as nat, v as int),
        decreases n - i,
    {
        bytes.set(addr + i, (cur % 256) as u8);
        proof {
            assert(bytes@ =~= store_bytes(old(bytes)@, addr as int, (i + 1) as nat, v as int));
            lemma_pow256_pos(i as nat);
            vstd::arithmetic::div_mod::lemma_div_denominator(
                v as int,
                pow256(i as nat),
                256,
            );
            assert(pow256((i + 1) as nat) == 256 * pow256(i as nat));
        }
        cur = cur / 256;
        i = i + 1;
    }
}

/// How a load extends the bytes it read into a cell.
#[derive(Clone, Copy, Debug, PartialEq, Eq, Structural)]
pub enum LoadKind {
    I32,
    I32S8,
    I32U8,
    I32S16,
    I32U16,
    I64,
    I64S8,
    I64U8,
    I64S16,
    I64U16,
    I64S32,
    I64U32,
}

/// How many bytes a load kind reads.
pub open spec fn load_size(k: LoadKind) -> nat {
    match k {
        LoadKind::I32 => 4,
        LoadKind::I32S8 => 1,
        LoadKind::I32U8 => 1,
        LoadKind::I32S16 => 2,
        LoadKind::I32U16 => 2,
        LoadKind::I64 => 8,
        LoadKind::I64S8 => 1,
        LoadKind::I64U8 => 1,
        LoadKind::I64S16 => 2,
        LoadKind::I64U16 => 2,
        LoadKind::I64S32 => 4,
        LoadKind::I64U32 => 4,
    }
}

/// The cell a load kind turns its raw little-endian value into.
pub open spec fn load_extend(k: LoadKind, raw: int) -> u64 {
    match k {
        LoadKind::I32 => raw as u64,
        LoadKind::I32U8 => raw as u64,
        LoadKind::I32U16 => raw as u64,
        LoadKind::I64 => raw as u64,
        LoadKind::I64U8 => raw as u64,
        LoadKind::I64U16 => raw as u64,
        LoadKind::I64U32 => raw as u64,
        LoadKind::I32S8 => if raw < 0x80 {
            raw as u64
        } else {
            (raw + 0xFFFF_FF00) as u64
        },
        LoadKind::I32S16 => if raw < 0x8000 {
            raw as u64
        } else {
            (raw + 0xFFFF_0000) as u64
        },
        LoadKind::I64S8 => if raw < 0x80 {
            raw as u64
        } else {
            (raw + 0xFFFF_FFFF_FFFF_FF00) as u64
        },
        LoadKind::I64S16 => if raw < 0x8000 {
            raw as u64
        } else {
            (raw + 0xFFFF_FFFF_FFFF_0000) as u64
        },
        LoadKind::I64S32 => if raw < 0x8000_0000 {
            raw as u64
        } else {
            (raw + 0xFFFF_FFFF_0000_0000) as u64
        },
    }
}

/// Meaning of a load: the extended cell, or the out-of-bounds trap.
pub open spec fn spec_mem_load(s: StoreV, m: int, addr: int, k: LoadKind) -> Result<
    u64,
    TrapCode,
> {
    let bytes = s.memories[m].bytes;
    if addr + load_size(k) > bytes.len() {
        Err(TrapCode::MemoryOutOfBounds)
    } else {
        Ok(load_extend(k, le_int(bytes, addr, load_size(k))))
    }
}

/// Meaning of a store: the new memory bytes, or the out-of-bounds trap.
pub open spec fn spec_mem_store(s: StoreV, m: int, addr: int, n: nat, v: int) -> Option<Seq<u8>> {
    let bytes = s.memories[m].bytes;
    if addr + n > bytes.len() {
        None
    } else {
        Some(store_bytes(bytes, addr, n, v))
    }
}

/// Meaning of `memory.copy`: all-or-nothing bounds check, then a copy as if
/// through a snapshot.
pub open spec fn spec_mem_copy(bytes: Seq<u8>, dst: int, src: int, len: int) -> Option<Seq<u8>> {
    if src + len > bytes.len() || dst + len > bytes.len() {
        None
    } else {
        Some(splice_seq(bytes, dst, bytes.subrange(src, src + len)))
    }
}

/// Meaning of `memory.fill`.
pub open spec fn spec_mem_fill(bytes: Seq<u8>, dst: int, val: u8, len: int) -> Option<Seq<u8>> {
    if dst + len > bytes.len() {
        None
    } else {
        Some(splice_seq(bytes, dst, Seq::new(len as nat, |i: int| val)))
    }
}

/// Meaning of `memory.init` from a passive data segment.
pub open spec fn spec_mem_init(bytes: Seq<u8>, seg: Seq<u8>, dst: int, src: int, len: int)
    -> Option<Seq<u8>> {
    if src + len > seg.len() || dst + len > bytes.len() {
        None
    } else {
        Some(splice_seq(bytes, dst, seg.subrange(src, src + len)))
    }
}

/// Meaning of `memory.grow`: the grown bytes and the previous size in pages,
/// or `None` and -1 when the growth is refused.
pub open spec fn spec_mem_grow(mem: MemV, delta: int) -> (Option<Seq<u8>>, u32) {
    let cur = mem.bytes.len() as int / PAGE_SIZE as int;
    if cur + delta <= mem.max_pages && cur + delta <= MAX_PAGES && mem.bytes.len() + delta
        * PAGE_SIZE <= usize::MAX {
        (Some(mem.bytes + Seq::new((delta * PAGE_SIZE) as nat, |i: int| 0u8)), cur as u32)
    } else {
        (None, u32::MAX)
    }
}

/// Meaning of `table.grow`.
pub open spec fn spec_table_grow(table: TableV, delta: int, val: u64) -> (Option<Seq<u64>>, u32) {
    let cur = table.elems.len() as int;
    if cur + delta <= table.max_elems && cur + delta <= u32::MAX && cur + delta <= usize::MAX {
        (Some(table.elems + Seq::new(delta as nat, |i: int| val)), cur as u32)
    } else {
        (None, u32::MAX)
    }
}

impl Store {
    /// Reads a global. Relied on by `GlobalGet`.
    pub fn global_get(&self, g: usize) -> (r: u64)
        requires
            g < self@.globals.len(),
        ensures
            r == self@.globals[g as int],
    {
        self.globals[g]
    }

    /// Writes a global. Relied on by `GlobalSet`.
    pub fn global_set(&mut self, g: usize, v: u64)
        requires
            g < old(self)@.globals.len(),
        ensures
            final(self)@ == sv_with_global(old(self)@, g as int, v),
    {
        self.globals.set(g, v);
        proof {
            assert(final(self)@.memories =~= old(self)@.memories);
            assert(final(self)@.tables =~= old(self)@.tables);
            assert(final(self)@.datas =~= old(self)@.datas);
            assert(final(self)@.elem_segs =~= old(self)@.elem_segs);
            assert(final(self)@.instances =~= old(self)@.instances);
        }
    }

    /// Subtracts `n` from the fuel budget; traps with `OutOfFuel` when less
    /// than that much is left.
    pub fn consume_fuel(&mut self, n: u64) -> (r: Result<(), TrapCode>)
        ensures
            if n <= old(self).fuel {
                r == Ok::<(), TrapCode>(()) && final(self)@ == sv_with_fuel(
                    old(self)@,
                    (old(self).fuel - n) as u64,
                )
            } else {
                r == Err::<(), TrapCode>(TrapCode::OutOfFuel) && final(self)@ == old(self)@
            },
    {
        if n <= self.fuel {
            self.fuel = self.fuel - n;
            Ok(())
        } else {
            Err(TrapCode::OutOfFuel)
        }
    }

    /// The size of a memory in pages.
    pub fn mem_size_pages(&self, m: usize) -> (r: u32)
        requires
            m < self@.memories.len(),
        ensures
            r as int == (self@.memories[m as int].bytes.len() as int / PAGE_SIZE as int)
                % 0x1_0000_0000,
    {
        let blen = self.memories[m].bytes.len() as u64;
        let pages = blen / PAGE_SIZE;
        (pages % 0x1_0000_0000u64) as u32
    }

    /// Loads a value from memory `m`. Bounds are checked against the byte
    /// length; the alignment hint is not enforced.
    pub fn mem_load(&self, m: usize, addr: u64, kind: LoadKind) -> (r: Result<u64, TrapCode>)
        requires
            m < self@.memories.len(),
        ensures
            r == spec_mem_load(self@, m as int, addr as int, kind),
    {
        let n: u64 = match kind {
            LoadKind::I32 => 4,
            LoadKind::I32S8 => 1,
            LoadKind::I32U8 => 1,
            LoadKind::I32S16 => 2,
            LoadKind::I32U16 => 2,
            LoadKind::I64 => 8,
            LoadKind::I64S8 => 1,
            LoadKind::I64U8 => 1,
            LoadKind::I64S16 => 2,
            LoadKind::I64U16 => 2,
            LoadKind::I64S32 => 4,
            LoadKind::I64U32 => 4,
        };
        let bytes = &self.memories[m].bytes;
        let blen = bytes.len() as u64;
        if n > blen || addr > blen - n {
            return Err(TrapCode::MemoryOutOfBounds);
        }
        proof {
            lemma_le_int_bound(bytes@, addr as int, load_size(kind));
            assert(pow256(0) == 1);
            assert(pow256(1) == 256);
            assert(pow256(2) == 0x1_0000);
            assert(pow256(3) == 0x100_0000);
            assert(pow256(4) == 0x1_0000_0000);
        }
        let raw = read_le(bytes, addr as usize, n as usize);
        let r = match kind {
            LoadKind::I32 => raw,
            LoadKind::I32U8 => raw,
            LoadKind::I32U16 => raw,
            LoadKind::I64 => raw,
            LoadKind::I64U8 => raw,
            LoadKind::I64U16 => raw,
            LoadKind::I64U32 => raw,
            LoadKind::I32S8 => {
                if raw < 0x80 {
                    raw
                } else {
                    raw + 0xFFFF_FF00
                }
            },
            LoadKind::I32S16 => {
                if raw < 0x8000 {
                    raw
                } else {
                    raw + 0xFFFF_0000
                }
            },
            LoadKind::I64S8 => {
                if raw < 0x80 {
                    raw
                } else {
                    raw + 0xFFFF_FFFF_FFFF_FF00
                }
            },
            LoadKind::I64S16 => {
                if raw < 0x8000 {
                    raw
                } else {
                    raw + 0xFFFF_FFFF_FFFF_0000
                }
            },
            LoadKind::I64S32 => {
                if raw < 0x8000_0000 {
                    raw
                } else {
                    raw + 0xFFFF_FFFF_0000_0000
                }
            },
        };
        Ok(r)
    }

    /// Stores the low `n` bytes of `v` into memory `m`.
    pub fn mem_store(&mut self, m: usize, addr: u64, n: u64, v: u64) -> (r: Result<(), TrapCode>)
        requires
            m < old(self)@.memories.len(),
            1 <= n <= 8,
        ensures
            match spec_mem_store(old(self)@, m as int, addr as int, n as nat, v as int) {
                Some(bytes) => r == Ok::<(), TrapCode>(()) && final(self)@ == sv_with_mem(
                    old(self)@,
                    m as int,
                    bytes,
                ),
                None => r == Err::<(), TrapCode>(TrapCode::MemoryOutOfBounds) && final(self)@
                    == old(self)@,
            },
    {
        let blen = self.memories[m].bytes.len() as u64;
        if n > blen || addr > blen - n {
            return Err(TrapCode::MemoryOutOfBounds);
        }
        write_le(&mut self.memories[m].bytes, addr as usize, n as usize, v);
        proof {
            assert(final(self)@.memories =~= sv_with_mem(
                old(self)@,
                m as int,
                store_bytes(old(self)@.memories[m as int].bytes, addr as int, n as nat, v as int),
            ).memories);
            assert(final(self)@.tables =~= old(self)@.tables);
            assert(final(self)@.datas =~= old(self)@.datas);
            assert(final(self)@.elem_segs =~= old(self)@.elem_segs);
            assert(final(self)@.instances =~= old(self)@.instances);
        }
        Ok(())
    }

    /// `memory.copy` within memory `m`; traps before writing anything when a
    /// range is out of bounds.
    pub fn mem_copy(&mut self, m: usize, dst: u64, src: u64, len: u64) -> (r: Result<
        (),
        TrapCode,
    >)
        requires
            m < old(self)@.memories.len(),
        ensures
            match spec_mem_copy(
                old(self)@.memories[m as int].bytes,
                dst as int,
                src as int,
                len as int,
            ) {
                Some(bytes) => r == Ok::<(), TrapCode>(()) && final(self)@ == sv_with_mem(
                    old(self)@,
                    m as int,
                    bytes,
                ),
                None => r == Err::<(), TrapCode>(TrapCode::MemoryOutOfBounds) && final(self)@
                    == old(self)@,
            },
    {
        let blen = self.memories[m].bytes.len() as u64;
        if len > blen || src > blen - len || dst > blen - len {
            return Err(TrapCode::MemoryOutOfBounds);
        }
        let tmp = vec_read_range(&self.memories[m].bytes, src as usize, len as usize);
        vec_write_range(&mut self.memories[m].bytes, dst as usize, &tmp);
        proof {
            assert(final(self)@.memories =~= sv_with_mem(
                old(self)@,
                m as int,
                splice_seq(
                    old(self)@.memories[m as int].bytes,
                    dst as int,
                    old(self)@.memories[m as int].bytes.subrange(
                        src as int,
                        src as int + len as int,
                    ),
                ),
            ).memories);
            assert(final(self)@.tables =~= old(self)@.tables);
            assert(final(self)@.datas =~= old(self)@.datas);
            assert(final(self)@.elem_segs =~= old(self)@.elem_segs);
            assert(final(self)@.instances =~= old(self)@.instances);
        }
        Ok(())
    }

    /// `memory.fill` within memory `m`.
    pub fn mem_fill(&mut self, m: usize, dst: u64, val: u8, len: u64) -> (r: Result<
        (),
        TrapCode,
    >)
        requires
            m < old(self)@.memories.len(),
        ensures
            match spec_mem_fill(old(self)@.memories[m as int].bytes, dst as int, val, len as int) {
                Some(bytes) => r == Ok::<(), TrapCode>(()) && final(self)@ == sv_with_mem(
                    old(self)@,
                    m as int,
                    bytes,
                ),
                None => r == Err::<(), TrapCode>(TrapCode::MemoryOutOfBounds) && final(self)@
                    == old(self)@,
            },
    {
        let blen = self.memories[m].bytes.len() as u64;
        if len > blen || dst > blen - len {
            return Err(TrapCode::MemoryOutOfBounds);
        }
        vec_fill_range(&mut self.memories[m].bytes, dst as usize, len as usize, val);
        proof {
            assert(final(self)@.memories =~= sv_with_mem(
                old(self)@,
                m as int,
                splice_seq(
                    old(self)@.memories[m as int].bytes,
                    dst as int,
                    Seq::new(len as nat, |i: int| val),
                ),
            ).memories);
            assert(final(self)@.tables =~= old(self)@.tables);
            assert(final(self)@.datas =~= old(self)@.datas);
            assert(final(self)@.elem_segs =~= old(self)@.elem_segs);
            assert(final(self)@.instances =~= old(self)@.instances);
        }
        Ok(())
    }

    /// `memory.init` from passive data segment `seg` into memory `m`; a
    /// dropped segment is empty, so a non-zero length then traps.
    pub fn mem_init(&mut self, m: usize, seg: usize, dst: u64, src: u64, len: u64) -> (r: Result<
        (),
        TrapCode,
    >)
        requires
            m < old(self)@.memories.len(),
            seg < old(self)@.datas.len(),
        ensures
            match spec_mem_init(
                old(self)@.memories[m as int].bytes,
                old(self)@.datas[seg as int],
                dst as int,
                src as int,
                len as int,
            ) {
                Some(bytes) => r == Ok::<(), TrapCode>(()) && final(self)@ == sv_with_mem(
                    old(self)@,
                    m as int,
                    bytes,
                ),
                None => r == Err::<(), TrapCode>(TrapCode::MemoryOutOfBounds) && final(self)@
                    == old(self)@,
            },
    {
        let blen = self.memories[m].bytes.len() as u64;
        let slen = self.datas[seg].len() as u64;
        if len > slen || src > slen - len || len > blen || dst > blen - len {
            return Err(TrapCode::MemoryOutOfBounds);
        }
        let tmp = vec_read_range(&self.datas[seg], src as usize, len as usize);
        vec_write_range(&mut self.memories[m].bytes, dst as usize, &tmp);
        proof {
            assert(final(self)@.memories =~= sv_with_mem(
                old(self)@,
                m as int,
                splice_seq(
                    old(self)@.memories[m as int].bytes,
                    dst as int,
                    old(self)@.datas[seg as int].subrange(src as int, src as int + len as int),
                ),
            ).memories);
            assert(final(self)@.tables =~= old(self)@.tables);
            assert(final(self)@.datas =~= old(self)@.datas);
            assert(final(self)@.elem_segs =~= old(self)@.elem_segs);
            assert(final(self)@.instances =~= old(self)@.instances);
        }
        Ok(())
    }

    /// `memory.grow`: extends memory `m` by `delta` pages of zeroes and
    /// returns the previous size in pages, or -1 when the growth is refused.
    pub fn mem_grow(&mut self, m: usize, delta: u32) -> (r: u32)
        requires
            m < old(self)@.memories.len(),
        ensures
            ({
                let (bytes, res) = spec_mem_grow(old(self)@.memories[m as int], delta as int);
                r == res && match bytes {
                    Some(b) => final(self)@ == sv_with_mem(old(self)@, m as int, b),
                    None => final(self)@ == old(self)@,
                }
            }),
    {
        let blen = self.memories[m].bytes.len() as u64;
        let cur = blen / PAGE_SIZE;
        let max = self.memories[m].max_pages as u64;
        let total = cur as u128 + delta as u128;
        if total <= max as u128 && total <= MAX_PAGES as u128 && blen as u128 + delta as u128
            * PAGE_SIZE as u128 <= usize::MAX as u128 {
            vec_extend(&mut self.memories[m].bytes, (delta as u64 * PAGE_SIZE) as usize, 0u8);
            proof {
                assert(final(self)@.memories =~= sv_with_mem(
                    old(self)@,
                    m as int,
                    old(self)@.memories[m as int].bytes + Seq::new(
                        (delta as int * PAGE_SIZE as int) as nat,
                        |i: int| 0u8,
                    ),
                ).memories);
                assert(final(self)@.tables =~= old(self)@.tables);
                assert(final(self)@.datas =~= old(self)@.datas);
                assert(final(self)@.elem_segs =~= old(self)@.elem_segs);
                assert(final(self)@.instances =~= old(self)@.instances);
            }
            cur as u32
        } else {
            u32::MAX
        }
    }

    /// Drops passive data segment `seg`: it becomes empty.
    pub fn data_drop(&mut self, seg: usize)
        requires
            seg < old(self)@.datas.len(),
        ensures
            final(self)@ == sv_with_data(old(self)@, seg as int, Seq::empty()),
    {
        let empty: Vec<u8> = Vec::new();
        self.datas.set(seg, empty);
        proof {
            assert(final(self)@.memories =~= old(self)@.memories);
            assert(final(self)@.tables =~= old(self)@.tables);
            assert(final(self)@.datas =~= sv_with_data(old(self)@, seg as int, Seq::empty()).datas);
            assert(final(self)@.elem_segs =~= old(self)@.elem_segs);
            assert(final(self)@.instances =~= old(self)@.instances);
        }
    }

    /// Drops passive element segment `seg`: it becomes empty.
    pub fn elem_drop(&mut self, seg: usize)
        requires
            seg < old(self)@.elem_segs.len(),
        ensures
            final(self)@ == sv_with_elem(old(self)@, seg as int, Seq::empty()),
    {
        let empty: Vec<u64> = Vec::new();
        self.elem_segs.set(seg, empty);
        proof {
            assert(final(self)@.memories =~= old(self)@.memories);
            assert(final(self)@.tables =~= old(self)@.tables);
            assert(final(self)@.datas =~= old(self)@.datas);
            assert(final(self)@.elem_segs =~= sv_with_elem(
                old(self)@,
                seg as int,
                Seq::empty(),
            ).elem_segs);
            assert(final(self)@.instances =~= old(self)@.instances);
        }
    }

    /// The size of table `t` in elements.
    pub fn table_size(&self, t: usize) -> (r: u32)
        requires
            t < self@.tables.len(),
            self@.tables[t as int].elems.len() <= u32::MAX,
        ensures
            r == self@.tables[t as int].elems.len(),
    {
        self.tables[t].elems.len() as u32
    }

    /// Reads table element `idx`; traps with `TableOutOfBounds` past the end.
    pub fn table_get(&self, t: usize, idx: u64) -> (r: Result<u64, TrapCode>)
        requires
            t < self@.tables.len(),
        ensures
            r == if idx < self@.tables[t as int].elems.len() {
                Ok::<u64, TrapCode>(self@.tables[t as int].elems[idx as int])
            } else {
                Err::<u64, TrapCode>(TrapCode::TableOutOfBounds)
            },
    {
        let table = &self.tables[t];
        if idx < table.elems.len() as u64 {
            Ok(table.elems[idx as usize])
        } else {
            Err(TrapCode::TableOutOfBounds)
        }
    }

    /// Writes table element `idx`; traps with `TableOutOfBounds` past the
    /// end.
    pub fn table_set(&mut self, t: usize, idx: u64, v: u64) -> (r: Result<(), TrapCode>)
        requires
            t < old(self)@.tables.len(),
        ensures
            if idx < old(self)@.tables[t as int].elems.len() {
                r == Ok::<(), TrapCode>(()) && final(self)@ == sv_with_table(
                    old(self)@,
                    t as int,
                    old(self)@.tables[t as int].elems.update(idx as int, v),
                )
            } else {
                r == Err::<(), TrapCode>(TrapCode::TableOutOfBounds) && final(self)@ == old(self)@
            },
    {
        if idx < self.tables[t].elems.len() as u64 {
            self.tables[t].elems.set(idx as usize, v);
            proof {
                assert(final(self)@.memories =~= old(self)@.memories);
                assert(final(self)@.tables =~= sv_with_table(
                    old(self)@,
                    t as int,
                    old(self)@.tables[t as int].elems.update(idx as int, v),
                ).tables);
                assert(final(self)@.datas =~= old(self)@.datas);
                assert(final(self)@.elem_segs =~= old(self)@.elem_segs);
                assert(final(self)@.instances =~= old(self)@.instances);
            }
            Ok(())
        } else {
            Err(TrapCode::TableOutOfBounds)
        }
    }

    /// `table.copy` from table `ts` to table `td`, with snapshot semantics.
    pub fn table_copy(&mut self, td: usize, ts: usize, dst: u64, src: u64, len: u64) -> (r: Result<
        (),
        TrapCode,
    >)
        requires
            td < old(self)@.tables.len(),
            ts < old(self)@.tables.len(),
        ensures
            ({
                let de = old(self)@.tables[td as int].elems;
                let se = old(self)@.tables[ts as int].elems;
                if src + len > se.len() || dst + len > de.len() {
                    r == Err::<(), TrapCode>(TrapCode::TableOutOfBounds) && final(self)@ == old(
                        self,
                    )@
                } else {
                    r == Ok::<(), TrapCode>(()) && final(self)@ == sv_with_table(
                        old(self)@,
                        td as int,
                        splice_seq(de, dst as int, se.subrange(src as int, src as int + len as int)),
                    )
                }
            }),
    {
        let dlen = self.tables[td].elems.len() as u64;
        let slen = self.tables[ts].elems.len() as u64;
        if len > slen || src > slen - len || len > dlen || dst > dlen - len {
            return Err(TrapCode::TableOutOfBounds);
        }
        let tmp = vec_read_range(&self.tables[ts].elems, src as usize, len as usize);
        vec_write_range(&mut self.tables[td].elems, dst as usize, &tmp);
        proof {
            assert(final(self)@.memories =~= old(self)@.memories);
            assert(final(self)@.tables =~= sv_with_table(
                old(self)@,
                td as int,
                splice_seq(
                    old(self)@.tables[td as int].elems,
                    dst as int,
                    old(self)@.tables[ts as int].elems.subrange(
                        src as int,
                        src as int + len as int,
                    ),
                ),
            ).tables);
            assert(final(self)@.datas =~= old(self)@.datas);
            assert(final(self)@.elem_segs =~= old(self)@.elem_segs);
            assert(final(self)@.instances =~= old(self)@.instances);
        }
        Ok(())
    }

    /// `table.fill`.
    pub fn table_fill(&mut self, t: usize, dst: u64, val: u64, len: u64) -> (r: Result<
        (),
        TrapCode,
    >)
        requires
            t < old(self)@.tables.len(),
        ensures
            ({
                let de = old(self)@.tables[t as int].elems;
                if dst + len > de.len() {
                    r == Err::<(), TrapCode>(TrapCode::TableOutOfBounds) && final(self)@ == old(
                        self,
                    )@
                } else {
                    r == Ok::<(), TrapCode>(()) && final(self)@ == sv_with_table(
                        old(self)@,
                        t as int,
                        splice_seq(de, dst as int, Seq::new(len as nat, |i: int| val)),
                    )
                }
            }),
    {
        let dlen = self.tables[t].elems.len() as u64;
        if len > dlen || dst > dlen - len {
            return Err(TrapCode::TableOutOfBounds);
        }
        vec_fill_range(&mut self.tables[t].elems, dst as usize, len as usize, val);
        proof {
            assert(final(self)@.memories =~= old(self)@.memories);
            assert(final(self)@.tables =~= sv_with_table(
                old(self)@,
                t as int,
                splice_seq(
                    old(self)@.tables[t as int].elems,
                    dst as int,
                    Seq::new(len as nat, |i: int| val),
                ),
            ).tables);
            assert(final(self)@.datas =~= old(self)@.datas);
            assert(final(self)@.elem_segs =~= old(self)@.elem_segs);
            assert(final(self)@.instances =~= old(self)@.instances);
        }
        Ok(())
    }

    /// `table.init` from passive element segment `seg` into table `t`.
    pub fn table_init(&mut self, t: usize, seg: usize, dst: u64, src: u64, len: u64) -> (r: Result<
        (),
        TrapCode,
    >)
        requires
            t < old(self)@.tables.len(),
            seg < old(self)@.elem_segs.len(),
        ensures
            ({
                let de = old(self)@.tables[t as int].elems;
                let se = old(self)@.elem_segs[seg as int];
                if src + len > se.len() || dst + len > de.len() {
                    r == Err::<(), TrapCode>(TrapCode::TableOutOfBounds) && final(self)@ == old(
                        self,
                    )@
                } else {
                    r == Ok::<(), TrapCode>(()) && final(self)@ == sv_with_table(
                        old(self)@,
                        t as int,
                        splice_seq(de, dst as int, se.subrange(src as int, src as int + len as int)),
                    )
                }
            }),
    {
        let dlen = self.tables[t].elems.len() as u64;
        let slen = self.elem_segs[seg].len() as u64;
        if len > slen || src > slen - len || len > dlen || dst > dlen - len {
            return Err(TrapCode::TableOutOfBounds);
        }
        let tmp = vec_read_range(&self.elem_segs[seg], src as usize, len as usize);
        vec_write_range(&mut self.tables[t].elems, dst as usize, &tmp);
        proof {
            assert(final(self)@.memories =~= old(self)@.memories);
            assert(final(self)@.tables =~= sv_with_table(
                old(self)@,
                t as int,
                splice_seq(
                    old(self)@.tables[t as int].elems,
                    dst as int,
                    old(self)@.elem_segs[seg as int].subrange(src as int, src as int + len as int),
                ),
            ).tables);
            assert(final(self)@.datas =~= old(self)@.datas);
            assert(final(self)@.elem_segs =~= old(self)@.elem_segs);
            assert(final(self)@.instances =~= old(self)@.instances);
        }
        Ok(())
    }

    /// `table.grow`: extends table `t` by `delta` copies of `val` and
    /// returns the previous size, or -1 when the growth is refused.
    pub fn table_grow(&mut self, t: usize, delta: u32, val: u64) -> (r: u32)
        requires
            t < old(self)@.tables.len(),
        ensures
            ({
                let (elems, res) = spec_table_grow(old(self)@.tables[t as int], delta as int, val);
                r == res && match elems {
                    Some(e) => final(self)@ == sv_with_table(old(self)@, t as int, e),
                    None => final(self)@ == old(self)@,
                }
            }),
    {
        let cur = self.tables[t].elems.len() as u64;
        let max = self.tables[t].max_elems as u64;
        let total = cur as u128 + delta as u128;
        if total <= max as u128 && total <= u32::MAX as u128 && total <= usize::MAX as u128 {
            vec_extend(&mut self.tables[t].elems, delta as usize, val);
            proof {
                assert(final(self)@.memories =~= old(self)@.memories);
                assert(final(self)@.tables =~= sv_with_table(
                    old(self)@,
                    t as int,
                    old(self)@.tables[t as int].elems + Seq::new(delta as nat, |i: int| val),
                ).tables);
                assert(final(self)@.datas =~= old(self)@.datas);
                assert(final(self)@.elem_segs =~= old(self)@.elem_segs);
                assert(final(self)@.instances =~= old(self)@.instances);
            }
            cur as u32
        } else {
            u32::MAX
        }
    }
}

} // verus!
