//! Compile errors: recoverable, statement-scoped, accumulated across the
//! whole program.  Internal-limit errors report that the program exceeds an
//! index width of the implementation; they carry the triggering source span
//! when one is known.

use vstd::prelude::*;
use crate::debug::DebugSymbol;

verus! {

/// What went wrong during compilation.
#[derive(Debug, Clone, Copy, PartialEq, Eq, Structural)]
pub enum CompileErrorKind {
    /// A scope would need more local slots than the local-index width allows.
    LocalVariableLimit,
    /// A call frame would need more upvalues than the upvalue-index width allows.
    UpvalueLimit,
    /// The constant pool would outgrow its 16-bit index width.
    ConstPoolLimit,
    /// The interner's symbol space is exhausted.
    InternLimit,
    /// A construct outside the supported lowering core.
    UnsupportedConstruct,
}

/// A compile error: its kind and, when known, the source span of the
/// offending construct.
#[derive(Debug, Clone, Copy, PartialEq, Eq, Structural)]
pub struct CompileError {
    pub kind: CompileErrorKind,
    pub symbol: Option<DebugSymbol>,
}

impl CompileError {
    /// An error without a source span.
    pub fn new(kind: CompileErrorKind) -> (r: CompileError)
        ensures
            r == (CompileError { kind, symbol: None::<DebugSymbol> }),
    {
        CompileError { kind, symbol: None }
    }

    /// The same error, carrying the given source span.
    pub fn with_symbol(self, symbol: DebugSymbol) -> (r: CompileError)
        ensures
            r == (CompileError { kind: self.kind, symbol: Some(symbol) }),
    {
        CompileError { kind: self.kind, symbol: Some(symbol) }
    }
}

pub type CompileResult<T> = Result<T, CompileError>;

} // verus!
