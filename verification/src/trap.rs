//! Typed trap codes: the closed set of guest-visible failures.

use vstd::prelude::*;

verus! {

/// A typed, program-visible guest failure. A trap terminates execution and
/// is surfaced to the embedder unchanged.
#[derive(Clone, Copy, Debug, PartialEq, Eq, Structural)]
pub enum TrapCode {
    /// An `unreachable` instruction was executed, or the instruction stream
    /// was corrupt (a parameter word reached the dispatch position, a fetch
    /// ran past the body, a handle was out of range). Translator bugs are
    /// folded into this code so that they can never corrupt the host.
    UnreachableCodeReached,
    /// A linear-memory access was out of bounds.
    MemoryOutOfBounds,
    /// A table access was out of bounds.
    TableOutOfBounds,
    /// An indirect call resolved to an uninitialized (null) table element.
    IndirectCallToNull,
    /// An integer division or remainder had a zero divisor.
    IntegerDivisionByZero,
    /// An integer operation overflowed (signed minimum divided by minus one).
    IntegerOverflow,
    /// A float-to-integer conversion had no representable result.
    InvalidConversionToInteger,
    /// The call stack or the value stack outgrew its limit.
    StackOverflow,
    /// An indirect call found a function of the wrong signature.
    BadSignature,
    /// A `ConsumeFuel` instruction found less fuel than it needed.
    OutOfFuel,
    /// A growth operation was refused by the embedder.
    GrowthOperationLimited,
}

} // verus!
