//! The value stack, the call stack and the checked register primitives.
//!
//! Every live frame owns a window of the flat value stack, based at its
//! `base` offset; a register resolves to `base + reg`. The translator
//! guarantees that every register a body uses is in range for its frame, so
//! a resolution that leaves the value stack signals a corrupt instruction
//! stream and traps with `UnreachableCodeReached` rather than touch foreign
//! state.

use vstd::prelude::*;
use crate::bytecode::Reg;
use crate::seqs::splice_seq;
use crate::trap::TrapCode;

verus! {

/// The activation record of one call.
#[derive(Clone, Copy, Debug, PartialEq, Eq, Structural)]
pub struct CallFrame {
    /// Where execution of this frame resumes: for the top frame, the
    /// current instruction; for a caller, the word after its call.
    pub instr_ptr: usize,
    /// The function this frame executes (an index into the code map).
    pub func: u32,
    /// Offset of register 0 of this frame within the value stack.
    pub base: usize,
    /// Head of the span of caller registers that receive this frame's
    /// results; resolved in the caller's window (at absolute offset 0 for
    /// the root frame).
    pub results: Reg,
    /// The instance this frame executes in.
    pub instance: u32,
}

/// The value stack and the call stack, with their limits.
pub struct Stack {
    /// The flat array of value cells underlying all frames.
    pub values: Vec<u64>,
    /// The call frames, callers below callees; the last one is executing.
    pub frames: Vec<CallFrame>,
    /// Hard bound on `values.len()`; growth beyond it traps with
    /// `StackOverflow`.
    pub limit_values: usize,
    /// Hard bound on `frames.len()`; a call beyond it traps with
    /// `StackOverflow`.
    pub limit_frames: usize,
}

/// Resolves a register against a frame base: the absolute value-stack index,
/// or `None` when it leaves the stack.
pub open spec fn reg_idx(len: int, base: int, r: int) -> Option<int> {
    if 0 <= base + r < len {
        Some(base + r)
    } else {
        None
    }
}

/// Whether the contiguous span `head .. head + n` resolves in full.
pub open spec fn span_in_range(len: int, base: int, head: int, n: int) -> bool {
    n == 0 || (0 <= base + head && base + head + n <= len)
}

/// The values of a contiguous register span, when it resolves.
pub open spec fn read_span_s(values: Seq<u64>, base: int, head: int, n: int) -> Option<Seq<u64>> {
    if n == 0 {
        Some(Seq::empty())
    } else if span_in_range(values.len() as int, base, head, n) {
        Some(values.subrange(base + head, base + head + n))
    } else {
        None
    }
}

/// The value stack after writing `vals` to the span at `head`, when it
/// resolves.
pub open spec fn write_span_s(values: Seq<u64>, base: int, head: int, vals: Seq<u64>) -> Option<
    Seq<u64>,
> {
    if vals.len() == 0 {
        Some(values)
    } else if span_in_range(values.len() as int, base, head, vals.len() as int) {
        Some(splice_seq(values, base + head, vals))
    } else {
        None
    }
}

impl Stack {
    /// Reads one register of the frame based at `base`.
    pub fn read_reg(&self, base: usize, r: Reg) -> (res: Result<u64, TrapCode>)
        ensures
            match reg_idx(self.values@.len() as int, base as int, r as int) {
                Some(i) => res == Ok::<u64, TrapCode>(self.values@[i]),
                None => res == Err::<u64, TrapCode>(TrapCode::UnreachableCodeReached),
            },
    {
        let i = base as i128 + r as i128;
        if 0 <= i && i < self.values.len() as i128 {
            Ok(self.values[i as usize])
        } else {
            Err(TrapCode::UnreachableCodeReached)
        }
    }

    /// Writes one register of the frame based at `base`.
    pub fn write_reg(&mut self, base: usize, r: Reg, v: u64) -> (res: Result<(), TrapCode>)
        ensures
            old(self).frames == final(self).frames,
            old(self).limit_values == final(self).limit_values,
            old(self).limit_frames == final(self).limit_frames,
            match reg_idx(old(self).values@.len() as int, base as int, r as int) {
                Some(i) => res == Ok::<(), TrapCode>(()) && final(self).values@ == old(self).values@.update(i, v),
                None => res == Err::<(), TrapCode>(TrapCode::UnreachableCodeReached) && final(self).values@ == old(self).values@,
            },
    {
        let i = base as i128 + r as i128;
        if 0 <= i && i < self.values.len() as i128 {
            self.values.set(i as usize, v);
            Ok(())
        } else {
            Err(TrapCode::UnreachableCodeReached)
        }
    }

    /// Writes the register at signed offset `r` of the frame based at
    /// `base`; offsets past the 16-bit register range arise from spans.
    pub fn write_reg_i(&mut self, base: usize, r: i64, v: u64) -> (res: Result<(), TrapCode>)
        ensures
            old(self).frames == final(self).frames,
            old(self).limit_values == final(self).limit_values,
            old(self).limit_frames == final(self).limit_frames,
            match reg_idx(old(self).values@.len() as int, base as int, r as int) {
                Some(i) => res == Ok::<(), TrapCode>(()) && final(self).values@ == old(self).values@.update(i, v),
                None => res == Err::<(), TrapCode>(TrapCode::UnreachableCodeReached) && final(self).values@ == old(self).values@,
            },
    {
        let i = base as i128 + r as i128;
        if 0 <= i && i < self.values.len() as i128 {
            self.values.set(i as usize, v);
            Ok(())
        } else {
            Err(TrapCode::UnreachableCodeReached)
        }
    }

    /// Whether the register at signed offset `r` of the frame based at
    /// `base` resolves within the value stack.
    pub fn reg_ok(&self, base: usize, r: i64) -> (b: bool)
        ensures
            b == (reg_idx(self.values@.len() as int, base as int, r as int) is Some),
    {
        let i = base as i128 + r as i128;
        0 <= i && i < self.values.len() as i128
    }

    /// Reads a contiguous register span into a fresh vector.
    pub fn read_span(&self, base: usize, head: Reg, n: u16) -> (res: Result<Vec<u64>, TrapCode>)
        ensures
            match read_span_s(self.values@, base as int, head as int, n as int) {
                Some(vals) => res matches Ok(v) && v@ == vals,
                None => res == Err::<Vec<u64>, TrapCode>(TrapCode::UnreachableCodeReached),
            },
    {
        if n == 0 {
            let empty: Vec<u64> = Vec::new();
            return Ok(empty);
        }
        let start = base as i128 + head as i128;
        if 0 <= start && start + n as i128 <= self.values.len() as i128 {
            Ok(crate::seqs::vec_read_range(&self.values, start as usize, n as usize))
        } else {
            Err(TrapCode::UnreachableCodeReached)
        }
    }

    /// Writes a vector of values to a contiguous register span; the bounds
    /// are checked before anything is written, so a failure changes
    /// nothing.
    pub fn write_span(&mut self, base: usize, head: Reg, vals: &Vec<u64>) -> (res: Result<
        (),
        TrapCode,
    >)
        ensures
            old(self).frames == final(self).frames,
            old(self).limit_values == final(self).limit_values,
            old(self).limit_frames == final(self).limit_frames,
            final(self).values@.len() == old(self).values@.len(),
            match write_span_s(old(self).values@, base as int, head as int, vals@) {
                Some(values) => res == Ok::<(), TrapCode>(()) && final(self).values@ == values,
                None => res == Err::<(), TrapCode>(TrapCode::UnreachableCodeReached) && final(self).values@ == old(self).values@,
            },
    {
        if vals.len() == 0 {
            return Ok(());
        }
        let start = base as i128 + head as i128;
        if 0 <= start && start + vals.len() as i128 <= self.values.len() as i128 {
            crate::seqs::vec_write_range(&mut self.values, start as usize, vals);
            Ok(())
        } else {
            Err(TrapCode::UnreachableCodeReached)
        }
    }

    /// Extends the value stack by `n` zeroed cells; traps with
    /// `StackOverflow` when that would pass the limit.
    pub fn grow_values(&mut self, n: usize) -> (res: Result<(), TrapCode>)
        ensures
            old(self).frames == final(self).frames,
            old(self).limit_values == final(self).limit_values,
            old(self).limit_frames == final(self).limit_frames,
            if old(self).values@.len() + n <= old(self).limit_values {
                res == Ok::<(), TrapCode>(()) && final(self).values@ == old(self).values@
                    + Seq::new(n as nat, |i: int| 0u64)
            } else {
                res == Err::<(), TrapCode>(TrapCode::StackOverflow) && final(self).values@ == old(self).values@
            },
    {
        if self.values.len() <= self.limit_values && n <= self.limit_values - self.values.len() {
            crate::seqs::vec_extend(&mut self.values, n, 0u64);
            Ok(())
        } else {
            Err(TrapCode::StackOverflow)
        }
    }

    /// Shortens the value stack to `n` cells; leaves it alone when it is
    /// already that short.
    pub fn shrink_values(&mut self, n: usize)
        ensures
            old(self).frames == final(self).frames,
            old(self).limit_values == final(self).limit_values,
            old(self).limit_frames == final(self).limit_frames,
            final(self).values@ == if n <= old(self).values@.len() {
                old(self).values@.subrange(0, n as int)
            } else {
                old(self).values@
            },
    {
        if n <= self.values.len() {
            self.values.truncate(n);
        } else {
            proof {
                assert(self.values@ =~= self.values@);
            }
        }
    }

    /// Pushes a call frame; traps with `StackOverflow` at the recursion
    /// limit.
    pub fn push_frame(&mut self, frame: CallFrame) -> (res: Result<(), TrapCode>)
        ensures
            old(self).values == final(self).values,
            old(self).limit_values == final(self).limit_values,
            old(self).limit_frames == final(self).limit_frames,
            if old(self).frames@.len() < old(self).limit_frames {
                res == Ok::<(), TrapCode>(()) && final(self).frames@ == old(self).frames@.push(
                    frame,
                )
            } else {
                res == Err::<(), TrapCode>(TrapCode::StackOverflow) && final(self).frames@ == old(self).frames@
            },
    {
        if self.frames.len() < self.limit_frames {
            self.frames.push(frame);
            Ok(())
        } else {
            Err(TrapCode::StackOverflow)
        }
    }

    /// Pops the executing frame.
    pub fn pop_frame(&mut self) -> (frame: CallFrame)
        requires
            old(self).frames@.len() > 0,
        ensures
            old(self).values == final(self).values,
            old(self).limit_values == final(self).limit_values,
            old(self).limit_frames == final(self).limit_frames,
            frame == old(self).frames@.last(),
            final(self).frames@ == old(self).frames@.drop_last(),
    {
        let frame = self.frames.pop().unwrap();
        proof {
            assert(self.frames@ =~= old(self).frames@.drop_last());
        }
        frame
    }

    /// Replaces the executing frame, as a tail call does.
    pub fn replace_top(&mut self, frame: CallFrame)
        requires
            old(self).frames@.len() > 0,
        ensures
            old(self).values == final(self).values,
            old(self).limit_values == final(self).limit_values,
            old(self).limit_frames == final(self).limit_frames,
            final(self).frames@ == old(self).frames@.update(old(self).frames@.len() - 1, frame),
    {
        let i = self.frames.len() - 1;
        self.frames.set(i, frame);
    }

    /// The number of live frames.
    pub fn height(&self) -> (n: usize)
        ensures
            n == self.frames@.len(),
    {
        self.frames.len()
    }
}

} // verus!
