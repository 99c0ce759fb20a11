//! The immutable code map: function bodies, signatures and function entities.

use vstd::prelude::*;
use crate::bytecode::Instruction;

verus! {

/// The arity of a deduplicated signature. Two functions have the same
/// signature exactly when they carry the same index into the signature table.
#[derive(Clone, Copy, Debug, PartialEq, Eq, Structural)]
pub struct FuncType {
    /// Number of parameters.
    pub params: u16,
    /// Number of results.
    pub results: u16,
}

/// What a function entity is backed by.
#[derive(Clone, Copy, Debug, PartialEq, Eq, Structural)]
pub enum FuncKind {
    /// A compiled guest function: an index into the body table.
    Internal { body: u32 },
    /// A host function under an embedder-chosen identifier; calling it
    /// pauses execution.
    Host { host: u32 },
}

/// A function entity: its deduplicated signature, the instance it belongs
/// to, and what backs it.
#[derive(Clone, Copy, Debug, PartialEq, Eq, Structural)]
pub struct FuncEntity {
    /// Index into the signature table.
    pub ty: u32,
    /// Index of the owning instance.
    pub instance: u32,
    /// Backing of the function.
    pub kind: FuncKind,
}

/// A compiled function body: its instruction words and the size of its
/// register window.
pub struct Body {
    /// The flat sequence of instruction words.
    pub instrs: Vec<Instruction>,
    /// How many registers the frame window of this body holds.
    pub len_registers: u16,
}

/// Mathematical image of a `Body`.
pub struct BodyV {
    pub instrs: Seq<Instruction>,
    pub len_registers: u16,
}

impl View for Body {
    type V = BodyV;

    open spec fn view(&self) -> BodyV {
        BodyV { instrs: self.instrs@, len_registers: self.len_registers }
    }
}

/// The immutable code map: every function identity, its signature and, for
/// guest functions, its compiled body. Bodies live for the whole program.
pub struct CodeMap {
    /// The deduplicated signature table.
    pub types: Vec<FuncType>,
    /// The compiled bodies.
    pub bodies: Vec<Body>,
    /// The function entities; a function identity is an index here.
    pub funcs: Vec<FuncEntity>,
}

/// Mathematical image of a `CodeMap`.
pub struct CodeV {
    pub types: Seq<FuncType>,
    pub bodies: Seq<BodyV>,
    pub funcs: Seq<FuncEntity>,
}

impl View for CodeMap {
    type V = CodeV;

    open spec fn view(&self) -> CodeV {
        CodeV {
            types: self.types@,
            bodies: self.bodies@.map_values(|b: Body| b@),
            funcs: self.funcs@,
        }
    }
}

} // verus!
