//! The untyped 64-bit value cell and the integer operations on it.
//!
//! A cell is a bag of 64 bits. The instruction carries the interpretation:
//! `i32` operations read the low 32 bits and write a cell whose high bits are
//! zero, `i64` operations use the whole cell. Every operation has a
//! specification function giving its mathematical meaning and an executable
//! twin proved to return exactly that value.

use vstd::prelude::*;
use crate::trap::TrapCode;

verus! {

/// The untyped value cell: 64 raw bits.
pub type UntypedVal = u64;

/// The low 32 bits of a cell, as the `i32` operations read them.
pub open spec fn lo32(c: u64) -> u64 {
    c % 0x1_0000_0000u64
}

/// The low 32 bits of a cell read as a signed (two's complement) integer.
pub open spec fn sig32(c: u64) -> int {
    if lo32(c) < 0x8000_0000 {
        lo32(c) as int
    } else {
        lo32(c) - 0x1_0000_0000
    }
}

/// The whole cell read as a signed (two's complement) integer.
pub open spec fn sig64(c: u64) -> int {
    if c < 0x8000_0000_0000_0000 {
        c as int
    } else {
        c - 0x1_0000_0000_0000_0000
    }
}

/// An integer reduced modulo 2^32: the cell an `i32` result is stored as.
pub open spec fn wrap32(v: int) -> u64 {
    (v % 0x1_0000_0000) as u64
}

/// An integer reduced modulo 2^64: the cell an `i64` result is stored as.
pub open spec fn wrap64(v: int) -> u64 {
    (v % 0x1_0000_0000_0000_0000) as u64
}

/// The cell encoding of a boolean comparison result.
pub open spec fn bool_cell(b: bool) -> u64 {
    if b {
        1u64
    } else {
        0u64
    }
}

/// The magnitude of an integer.
pub open spec fn iabs(v: int) -> int {
    if v < 0 {
        -v
    } else {
        v
    }
}

/// Division truncated towards zero, as WebAssembly defines `div_s`.
pub open spec fn trunc_div(a: int, b: int) -> int {
    let q = iabs(a) / iabs(b);
    if (a < 0) != (b < 0) {
        -q
    } else {
        q
    }
}

/// Remainder of division truncated towards zero; it takes the dividend's sign.
pub open spec fn trunc_rem(a: int, b: int) -> int {
    let r = iabs(a) % iabs(b);
    if a < 0 {
        -r
    } else {
        r
    }
}

/// The shift amount of an `i32` shift: the low 32 bits of the cell, modulo 32.
pub open spec fn shamt32(c: u64) -> u64 {
    lo32(c) % 32
}

/// The shift amount of an `i64` shift: the cell modulo 64.
pub open spec fn shamt64(c: u64) -> u64 {
    c % 64
}

/// A 16-bit immediate sign-extended into an `i32` cell.
pub open spec fn sx16_32(x: i16) -> u64 {
    wrap32(x as int)
}

/// A 16-bit immediate sign-extended into an `i64` cell.
pub open spec fn sx16_64(x: i16) -> u64 {
    wrap64(x as int)
}

/// A 32-bit immediate sign-extended into an `i64` cell.
pub open spec fn sx32_64(x: i32) -> u64 {
    wrap64(x as int)
}

/// Sign-extends a 16-bit immediate into an `i32` cell.
pub fn extend16_32(x: i16) -> (r: u64)
    ensures
        r == sx16_32(x),
{
    if x >= 0 {
        x as u64
    } else {
        0x1_0000_0000u64 - ((-(x as i64)) as u64)
    }
}

/// Sign-extends a 16-bit immediate into an `i64` cell.
pub fn extend16_64(x: i16) -> (r: u64)
    ensures
        r == sx16_64(x),
{
    if x >= 0 {
        x as u64
    } else {
        (u64::MAX - ((-(x as i64)) as u64)) + 1
    }
}

/// Sign-extends a 32-bit immediate into an `i64` cell.
pub fn extend32_64(x: i32) -> (r: u64)
    ensures
        r == sx32_64(x),
{
    if x >= 0 {
        x as u64
    } else {
        (u64::MAX - ((-(x as i64)) as u64)) + 1
    }
}

/// An infallible binary operation on cells.
#[derive(Clone, Copy, Debug, PartialEq, Eq, Structural)]
pub enum BinOp {
    I32Add,
    I32Sub,
    I32Mul,
    I32And,
    I32AndEqz,
    I32Or,
    I32OrEqz,
    I32Xor,
    I32XorEqz,
    I32Shl,
    I32ShrS,
    I32ShrU,
    I32Rotl,
    I32Rotr,
    I64Add,
    I64Sub,
    I64Mul,
    I64And,
    I64Or,
    I64Xor,
    I64Shl,
    I64ShrS,
    I64ShrU,
    I64Rotl,
    I64Rotr,
}

/// A fallible division or remainder operation on cells.
#[derive(Clone, Copy, Debug, PartialEq, Eq, Structural)]
pub enum DivOp {
    I32DivS,
    I32DivU,
    I32RemS,
    I32RemU,
    I64DivS,
    I64DivU,
    I64RemS,
    I64RemU,
}

/// A unary operation on cells.
#[derive(Clone, Copy, Debug, PartialEq, Eq, Structural)]
pub enum UnOp {
    I32Clz,
    I32Ctz,
    I32Popcnt,
    I64Clz,
    I64Ctz,
    I64Popcnt,
    I32WrapI64,
    I32Extend8S,
    I32Extend16S,
    I64Extend8S,
    I64Extend16S,
    I64Extend32S,
}

/// A comparison producing a boolean, shared by the compare instructions and
/// the fused compare-branch instructions.
#[derive(Clone, Copy, Debug, PartialEq, Eq, Structural)]
pub enum Comparator {
    I32Eq,
    I32Ne,
    I32LtS,
    I32LtU,
    I32LeS,
    I32LeU,
    I32GtS,
    I32GtU,
    I32GeS,
    I32GeU,
    I32And,
    I32Or,
    I32Xor,
    I32AndEqz,
    I32OrEqz,
    I32XorEqz,
    I64Eq,
    I64Ne,
    I64LtS,
    I64LtU,
    I64LeS,
    I64LeU,
    I64GtS,
    I64GtU,
    I64GeS,
    I64GeU,
}

/// Number of set bits.
pub open spec fn popcount(x: u64) -> nat
    decreases x,
{
    if x == 0 {
        0nat
    } else {
        ((x % 2) + popcount(x / 2)) as nat
    }
}

pub proof fn lemma_popcount_le(x: u64)
    ensures
        popcount(x) <= x,
    decreases x,
{
    if x != 0 {
        lemma_popcount_le(x / 2);
    }
}

/// The `i32.shr_s` sign fill: the high `s` bits of a 32-bit word.
pub open spec fn fill32(s: u64) -> u64 {
    (0xFFFF_FFFFu64 << ((32 - s) as u64)) % 0x1_0000_0000u64
}

/// The `i64.shr_s` sign fill: the high `s` bits of a 64-bit word.
pub open spec fn fill64(s: u64) -> u64 {
    if s == 0 {
        0u64
    } else {
        0xFFFF_FFFF_FFFF_FFFFu64 << ((64 - s) as u64)
    }
}

/// Meaning of an infallible binary operation.
pub open spec fn eval_binop(op: BinOp, a: u64, b: u64) -> u64 {
    match op {
        BinOp::I32Add => wrap32(lo32(a) + lo32(b)),
        BinOp::I32Sub => wrap32(lo32(a) - lo32(b)),
        BinOp::I32Mul => wrap32(lo32(a) * lo32(b)),
        BinOp::I32And => lo32(a) & lo32(b),
        BinOp::I32AndEqz => bool_cell((lo32(a) & lo32(b)) == 0),
        BinOp::I32Or => lo32(a) | lo32(b),
        BinOp::I32OrEqz => bool_cell((lo32(a) | lo32(b)) == 0),
        BinOp::I32Xor => lo32(a) ^ lo32(b),
        BinOp::I32XorEqz => bool_cell((lo32(a) ^ lo32(b)) == 0),
        BinOp::I32Shl => wrap32((lo32(a) << shamt32(b)) as int),
        BinOp::I32ShrS => {
            if lo32(a) < 0x8000_0000 {
                lo32(a) >> shamt32(b)
            } else {
                (lo32(a) >> shamt32(b)) | fill32(shamt32(b))
            }
        },
        BinOp::I32ShrU => lo32(a) >> shamt32(b),
        BinOp::I32Rotl => {
            if shamt32(b) == 0 {
                lo32(a)
            } else {
                wrap32((lo32(a) << shamt32(b)) as int) | (lo32(a) >> ((32 - shamt32(b)) as u64))
            }
        },
        BinOp::I32Rotr => {
            if shamt32(b) == 0 {
                lo32(a)
            } else {
                (lo32(a) >> shamt32(b)) | wrap32((lo32(a) << ((32 - shamt32(b)) as u64)) as int)
            }
        },
        BinOp::I64Add => wrap64(a + b),
        BinOp::I64Sub => wrap64(a - b),
        BinOp::I64Mul => wrap64(a * b),
        BinOp::I64And => a & b,
        BinOp::I64Or => a | b,
        BinOp::I64Xor => a ^ b,
        BinOp::I64Shl => wrap64((a << shamt64(b)) as int),
        BinOp::I64ShrS => {
            if a < 0x8000_0000_0000_0000 {
                a >> shamt64(b)
            } else {
                (a >> shamt64(b)) | fill64(shamt64(b))
            }
        },
        BinOp::I64ShrU => a >> shamt64(b),
        BinOp::I64Rotl => {
            if shamt64(b) == 0 {
                a
            } else {
                wrap64((a << shamt64(b)) as int) | (a >> ((64 - shamt64(b)) as u64))
            }
        },
        BinOp::I64Rotr => {
            if shamt64(b) == 0 {
                a
            } else {
                (a >> shamt64(b)) | wrap64((a << ((64 - shamt64(b)) as u64)) as int)
            }
        },
    }
}

/// Meaning of a fallible division or remainder operation, traps included.
pub open spec fn eval_divop(op: DivOp, a: u64, b: u64) -> Result<u64, TrapCode> {
    match op {
        DivOp::I32DivS => {
            if sig32(b) == 0 {
                Err(TrapCode::IntegerDivisionByZero)
            } else if sig32(a) == -0x8000_0000 && sig32(b) == -1 {
                Err(TrapCode::IntegerOverflow)
            } else {
                Ok(wrap32(trunc_div(sig32(a), sig32(b))))
            }
        },
        DivOp::I32DivU => {
            if lo32(b) == 0 {
                Err(TrapCode::IntegerDivisionByZero)
            } else {
                Ok(lo32(a) / lo32(b))
            }
        },
        DivOp::I32RemS => {
            if sig32(b) == 0 {
                Err(TrapCode::IntegerDivisionByZero)
            } else {
                Ok(wrap32(trunc_rem(sig32(a), sig32(b))))
            }
        },
        DivOp::I32RemU => {
            if lo32(b) == 0 {
                Err(TrapCode::IntegerDivisionByZero)
            } else {
                Ok(lo32(a) % lo32(b))
            }
        },
        DivOp::I64DivS => {
            if sig64(b) == 0 {
                Err(TrapCode::IntegerDivisionByZero)
            } else if sig64(a) == -0x8000_0000_0000_0000 && sig64(b) == -1 {
                Err(TrapCode::IntegerOverflow)
            } else {
                Ok(wrap64(trunc_div(sig64(a), sig64(b))))
            }
        },
        DivOp::I64DivU => {
            if b == 0 {
                Err(TrapCode::IntegerDivisionByZero)
            } else {
                Ok(a / b)
            }
        },
        DivOp::I64RemS => {
            if sig64(b) == 0 {
                Err(TrapCode::IntegerDivisionByZero)
            } else {
                Ok(wrap64(trunc_rem(sig64(a), sig64(b))))
            }
        },
        DivOp::I64RemU => {
            if b == 0 {
                Err(TrapCode::IntegerDivisionByZero)
            } else {
                Ok(a % b)
            }
        },
    }
}

/// Meaning of a unary operation.
pub open spec fn eval_unop(op: UnOp, a: u64) -> u64 {
    match op {
        UnOp::I32Clz => vstd::std_specs::bits::u32_leading_zeros(lo32(a) as u32) as u64,
        UnOp::I32Ctz => {
            if lo32(a) == 0 {
                32u64
            } else {
                vstd::std_specs::bits::u32_trailing_zeros(lo32(a) as u32) as u64
            }
        },
        UnOp::I32Popcnt => popcount(lo32(a)) as u64,
        UnOp::I64Clz => vstd::std_specs::bits::u64_leading_zeros(a) as u64,
        UnOp::I64Ctz => vstd::std_specs::bits::u64_trailing_zeros(a) as u64,
        UnOp::I64Popcnt => popcount(a) as u64,
        UnOp::I32WrapI64 => lo32(a),
        UnOp::I32Extend8S => {
            if a % 0x100 < 0x80 {
                a % 0x100
            } else {
                ((a % 0x100) + 0xFFFF_FF00) as u64
            }
        },
        UnOp::I32Extend16S => {
            if a % 0x1_0000 < 0x8000 {
                a % 0x1_0000
            } else {
                ((a % 0x1_0000) + 0xFFFF_0000) as u64
            }
        },
        UnOp::I64Extend8S => {
            if a % 0x100 < 0x80 {
                a % 0x100
            } else {
                ((a % 0x100) + 0xFFFF_FFFF_FFFF_FF00) as u64
            }
        },
        UnOp::I64Extend16S => {
            if a % 0x1_0000 < 0x8000 {
                a % 0x1_0000
            } else {
                ((a % 0x1_0000) + 0xFFFF_FFFF_FFFF_0000) as u64
            }
        },
        UnOp::I64Extend32S => {
            if lo32(a) < 0x8000_0000 {
                lo32(a)
            } else {
                (lo32(a) + 0xFFFF_FFFF_0000_0000) as u64
            }
        },
    }
}

/// Meaning of a comparison.
pub open spec fn eval_cmp(op: Comparator, a: u64, b: u64) -> bool {
    match op {
        Comparator::I32Eq => lo32(a) == lo32(b),
        Comparator::I32Ne => lo32(a) != lo32(b),
        Comparator::I32LtS => sig32(a) < sig32(b),
        Comparator::I32LtU => lo32(a) < lo32(b),
        Comparator::I32LeS => sig32(a) <= sig32(b),
        Comparator::I32LeU => lo32(a) <= lo32(b),
        Comparator::I32GtS => sig32(a) > sig32(b),
        Comparator::I32GtU => lo32(a) > lo32(b),
        Comparator::I32GeS => sig32(a) >= sig32(b),
        Comparator::I32GeU => lo32(a) >= lo32(b),
        Comparator::I32And => (lo32(a) & lo32(b)) != 0,
        Comparator::I32Or => (lo32(a) | lo32(b)) != 0,
        Comparator::I32Xor => (lo32(a) ^ lo32(b)) != 0,
        Comparator::I32AndEqz => (lo32(a) & lo32(b)) == 0,
        Comparator::I32OrEqz => (lo32(a) | lo32(b)) == 0,
        Comparator::I32XorEqz => (lo32(a) ^ lo32(b)) == 0,
        Comparator::I64Eq => a == b,
        Comparator::I64Ne => a != b,
        Comparator::I64LtS => sig64(a) < sig64(b),
        Comparator::I64LtU => a < b,
        Comparator::I64LeS => sig64(a) <= sig64(b),
        Comparator::I64LeU => a <= b,
        Comparator::I64GtS => sig64(a) > sig64(b),
        Comparator::I64GtU => a > b,
        Comparator::I64GeS => sig64(a) >= sig64(b),
        Comparator::I64GeU => a >= b,
    }
}

/// Executes an infallible binary operation.
#[verifier::rlimit(60)]
pub fn apply_binop(op: BinOp, a: u64, b: u64) -> (r: u64)
    ensures
        r == eval_binop(op, a, b),
{
    let al = a % 0x1_0000_0000u64;
    let bl = b % 0x1_0000_0000u64;
    match op {
        BinOp::I32Add => (al + bl) % 0x1_0000_0000u64,
        BinOp::I32Sub => ((al + 0x1_0000_0000u64) - bl) % 0x1_0000_0000u64,
        BinOp::I32Mul => {
            proof {
                assert(al * bl <= 0xFFFF_FFFFu64 * 0xFFFF_FFFFu64) by (nonlinear_arith)
                    requires
                        al <= 0xFFFF_FFFFu64,
                        bl <= 0xFFFF_FFFFu64,
                ;
            }
            (al * bl) % 0x1_0000_0000u64
        },
        BinOp::I32And => al & bl,
        BinOp::I32AndEqz => {
            if (al & bl) == 0 {
                1
            } else {
                0
            }
        },
        BinOp::I32Or => al | bl,
        BinOp::I32OrEqz => {
            if (al | bl) == 0 {
                1
            } else {
                0
            }
        },
        BinOp::I32Xor => al ^ bl,
        BinOp::I32XorEqz => {
            if (al ^ bl) == 0 {
                1
            } else {
                0
            }
        },
        BinOp::I32Shl => (al << (bl % 32)) % 0x1_0000_0000u64,
        BinOp::I32ShrS => {
            let s = bl % 32;
            if al < 0x8000_0000 {
                al >> s
            } else {
                (al >> s) | ((0xFFFF_FFFFu64 << (32 - s)) % 0x1_0000_0000u64)
            }
        },
        BinOp::I32ShrU => al >> (bl % 32),
        BinOp::I32Rotl => {
            let s = bl % 32;
            if s == 0 {
                al
            } else {
                ((al << s) % 0x1_0000_0000u64) | (al >> (32 - s))
            }
        },
        BinOp::I32Rotr => {
            let s = bl % 32;
            if s == 0 {
                al
            } else {
                (al >> s) | ((al << (32 - s)) % 0x1_0000_0000u64)
            }
        },
        BinOp::I64Add => a.wrapping_add(b),
        BinOp::I64Sub => a.wrapping_sub(b),
        BinOp::I64Mul => a.wrapping_mul(b),
        BinOp::I64And => a & b,
        BinOp::I64Or => a | b,
        BinOp::I64Xor => a ^ b,
        BinOp::I64Shl => a << (b % 64),
        BinOp::I64ShrS => {
            let s = b % 64;
            if a < 0x8000_0000_0000_0000 {
                a >> s
            } else {
                let fill = if s == 0 {
                    0
                } else {
                    0xFFFF_FFFF_FFFF_FFFFu64 << (64 - s)
                };
                (a >> s) | fill
            }
        },
        BinOp::I64ShrU => a >> (b % 64),
        BinOp::I64Rotl => {
            let s = b % 64;
            if s == 0 {
                a
            } else {
                (a << s) | (a >> (64 - s))
            }
        },
        BinOp::I64Rotr => {
            let s = b % 64;
            if s == 0 {
                a
            } else {
                (a >> s) | (a << (64 - s))
            }
        },
    }
}

/// The magnitude of the signed reading of an `i32` cell.
fn mag32(c: u64) -> (m: u64)
    ensures
        m == iabs(sig32(c)),
        m <= 0x8000_0000u64,
{
    let x = c % 0x1_0000_0000u64;
    if x < 0x8000_0000 {
        x
    } else {
        0x1_0000_0000u64 - x
    }
}

/// The magnitude of the signed reading of an `i64` cell.
fn mag64(c: u64) -> (m: u64)
    ensures
        m == iabs(sig64(c)),
{
    if c < 0x8000_0000_0000_0000 {
        c
    } else {
        (u64::MAX - c) + 1
    }
}

/// The `i32` cell holding the negation of a magnitude.
fn negcell32(m: u64) -> (r: u64)
    requires
        m <= 0x8000_0000u64,
    ensures
        r == wrap32(-(m as int)),
{
    if m == 0 {
        0
    } else {
        0x1_0000_0000u64 - m
    }
}

/// The `i64` cell holding the negation of a magnitude.
fn negcell64(m: u64) -> (r: u64)
    ensures
        r == wrap64(-(m as int)),
{
    if m == 0 {
        0
    } else {
        (u64::MAX - m) + 1
    }
}

/// Executes a division or remainder operation; traps on a zero divisor and
/// on signed-minimum divided by minus one.
pub fn apply_divop(op: DivOp, a: u64, b: u64) -> (r: Result<u64, TrapCode>)
    ensures
        r == eval_divop(op, a, b),
{
    match op {
        DivOp::I32DivS => {
            let bl = b % 0x1_0000_0000u64;
            if bl == 0 {
                return Err(TrapCode::IntegerDivisionByZero);
            }
            let al = a % 0x1_0000_0000u64;
            if al == 0x8000_0000 && bl == 0xFFFF_FFFF {
                return Err(TrapCode::IntegerOverflow);
            }
            let ma = mag32(a);
            let mb = mag32(b);
            let q = ma / mb;
            if (al >= 0x8000_0000) != (bl >= 0x8000_0000) {
                Ok(negcell32(q))
            } else {
                Ok(q)
            }
        },
        DivOp::I32DivU => {
            let bl = b % 0x1_0000_0000u64;
            if bl == 0 {
                return Err(TrapCode::IntegerDivisionByZero);
            }
            Ok((a % 0x1_0000_0000u64) / bl)
        },
        DivOp::I32RemS => {
            let bl = b % 0x1_0000_0000u64;
            if bl == 0 {
                return Err(TrapCode::IntegerDivisionByZero);
            }
            let al = a % 0x1_0000_0000u64;
            let ma = mag32(a);
            let mb = mag32(b);
            let r = ma % mb;
            if al >= 0x8000_0000 {
                Ok(negcell32(r))
            } else {
                Ok(r)
            }
        },
        DivOp::I32RemU => {
            let bl = b % 0x1_0000_0000u64;
            if bl == 0 {
                return Err(TrapCode::IntegerDivisionByZero);
            }
            Ok((a % 0x1_0000_0000u64) % bl)
        },
        DivOp::I64DivS => {
            if b == 0 {
                return Err(TrapCode::IntegerDivisionByZero);
            }
            if a == 0x8000_0000_0000_0000 && b == 0xFFFF_FFFF_FFFF_FFFF {
                return Err(TrapCode::IntegerOverflow);
            }
            let ma = mag64(a);
            let mb = mag64(b);
            let q = ma / mb;
            if (a >= 0x8000_0000_0000_0000) != (b >= 0x8000_0000_0000_0000) {
                Ok(negcell64(q))
            } else {
                Ok(q)
            }
        },
        DivOp::I64DivU => {
            if b == 0 {
                return Err(TrapCode::IntegerDivisionByZero);
            }
            Ok(a / b)
        },
        DivOp::I64RemS => {
            if b == 0 {
                return Err(TrapCode::IntegerDivisionByZero);
            }
            let ma = mag64(a);
            let mb = mag64(b);
            let r = ma % mb;
            if a >= 0x8000_0000_0000_0000 {
                Ok(negcell64(r))
            } else {
                Ok(r)
            }
        },
        DivOp::I64RemU => {
            if b == 0 {
                return Err(TrapCode::IntegerDivisionByZero);
            }
            Ok(a % b)
        },
    }
}

/// Executes a unary operation.
pub fn apply_unop(op: UnOp, a: u64) -> (r: u64)
    ensures
        r == eval_unop(op, a),
{
    match op {
        UnOp::I32Clz => ((a % 0x1_0000_0000u64) as u32).leading_zeros() as u64,
        UnOp::I32Ctz => {
            let al = a % 0x1_0000_0000u64;
            if al == 0 {
                32
            } else {
                (al as u32).trailing_zeros() as u64
            }
        },
        UnOp::I32Popcnt => popcnt_impl(a % 0x1_0000_0000u64),
        UnOp::I64Clz => a.leading_zeros() as u64,
        UnOp::I64Ctz => a.trailing_zeros() as u64,
        UnOp::I64Popcnt => popcnt_impl(a),
        UnOp::I32WrapI64 => a % 0x1_0000_0000u64,
        UnOp::I32Extend8S => {
            let bl = a % 0x100;
            if bl < 0x80 {
                bl
            } else {
                bl + 0xFFFF_FF00
            }
        },
        UnOp::I32Extend16S => {
            let hl = a % 0x1_0000;
            if hl < 0x8000 {
                hl
            } else {
                hl + 0xFFFF_0000
            }
        },
        UnOp::I64Extend8S => {
            let bl = a % 0x100;
            if bl < 0x80 {
                bl
            } else {
                bl + 0xFFFF_FFFF_FFFF_FF00
            }
        },
        UnOp::I64Extend16S => {
            let hl = a % 0x1_0000;
            if hl < 0x8000 {
                hl
            } else {
                hl + 0xFFFF_FFFF_FFFF_0000
            }
        },
        UnOp::I64Extend32S => {
            let wl = a % 0x1_0000_0000u64;
            if wl < 0x8000_0000 {
                wl
            } else {
                wl + 0xFFFF_FFFF_0000_0000
            }
        },
    }
}

/// Counts the set bits of a cell.
fn popcnt_impl(c: u64) -> (r: u64)
    ensures
        r == popcount(c),
{
    let mut x = c;
    let mut n: u64 = 0;
    proof {
        lemma_popcount_le(c);
    }
    while x != 0
        invariant
            n + popcount(x) == popcount(c),
            popcount(c) <= c,
        decreases x,
    {
        n = n + (x % 2);
        x = x / 2;
    }
    n
}

/// The signed ordering of two `i32` cells, decided by flipping the sign bit
/// and comparing unsigned.
fn lt_s32(a: u64, b: u64) -> (r: bool)
    ensures
        r == (sig32(a) < sig32(b)),
{
    let fa = flip32(a);
    let fb = flip32(b);
    fa < fb
}

/// The signed ordering of two `i64` cells.
fn lt_s64(a: u64, b: u64) -> (r: bool)
    ensures
        r == (sig64(a) < sig64(b)),
{
    let fa = flip64(a);
    let fb = flip64(b);
    fa < fb
}

/// Flips the sign bit of the low 32 bits: maps the signed order onto the
/// unsigned order.
fn flip32(c: u64) -> (r: u64)
    ensures
        r == sig32(c) + 0x8000_0000,
{
    let x = c % 0x1_0000_0000u64;
    if x < 0x8000_0000 {
        x + 0x8000_0000
    } else {
        x - 0x8000_0000
    }
}

/// Flips the sign bit of a cell: maps the signed order onto the unsigned
/// order.
fn flip64(c: u64) -> (r: u64)
    ensures
        r == sig64(c) + 0x8000_0000_0000_0000,
{
    if c < 0x8000_0000_0000_0000 {
        c + 0x8000_0000_0000_0000
    } else {
        c - 0x8000_0000_0000_0000
    }
}

/// Executes a comparison.
pub fn apply_cmp(op: Comparator, a: u64, b: u64) -> (r: bool)
    ensures
        r == eval_cmp(op, a, b),
{
    match op {
        Comparator::I32Eq => (a % 0x1_0000_0000u64) == (b % 0x1_0000_0000u64),
        Comparator::I32Ne => (a % 0x1_0000_0000u64) != (b % 0x1_0000_0000u64),
        Comparator::I32LtS => lt_s32(a, b),
        Comparator::I32LtU => (a % 0x1_0000_0000u64) < (b % 0x1_0000_0000u64),
        Comparator::I32LeS => !lt_s32(b, a),
        Comparator::I32LeU => (a % 0x1_0000_0000u64) <= (b % 0x1_0000_0000u64),
        Comparator::I32GtS => lt_s32(b, a),
        Comparator::I32GtU => (a % 0x1_0000_0000u64) > (b % 0x1_0000_0000u64),
        Comparator::I32GeS => !lt_s32(a, b),
        Comparator::I32GeU => (a % 0x1_0000_0000u64) >= (b % 0x1_0000_0000u64),
        Comparator::I32And => ((a % 0x1_0000_0000u64) & (b % 0x1_0000_0000u64)) != 0,
        Comparator::I32Or => ((a % 0x1_0000_0000u64) | (b % 0x1_0000_0000u64)) != 0,
        Comparator::I32Xor => ((a % 0x1_0000_0000u64) ^ (b % 0x1_0000_0000u64)) != 0,
        Comparator::I32AndEqz => ((a % 0x1_0000_0000u64) & (b % 0x1_0000_0000u64)) == 0,
        Comparator::I32OrEqz => ((a % 0x1_0000_0000u64) | (b % 0x1_0000_0000u64)) == 0,
        Comparator::I32XorEqz => ((a % 0x1_0000_0000u64) ^ (b % 0x1_0000_0000u64)) == 0,
        Comparator::I64Eq => a == b,
        Comparator::I64Ne => a != b,
        Comparator::I64LtS => lt_s64(a, b),
        Comparator::I64LtU => a < b,
        Comparator::I64LeS => !lt_s64(b, a),
        Comparator::I64LeU => a <= b,
        Comparator::I64GtS => lt_s64(b, a),
        Comparator::I64GtU => a > b,
        Comparator::I64GeS => !lt_s64(a, b),
        Comparator::I64GeU => a >= b,
    }
}

} // verus!
