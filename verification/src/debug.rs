//! Source span tracking: maps bytecode offsets and AST nodes back to source
//! text locations for error reporting.

use vstd::prelude::*;

verus! {

/// Index into the source character stream.
pub type TokenIndex = u64;

/// A span of source text: a start offset and a length in characters.
#[derive(Debug, Clone, Copy, PartialEq, Eq, Structural, Hash)]
pub struct Span {
    pub index: TokenIndex,
    pub length: TokenIndex,
}

/// The offset one past the last character of a span, saturating at the
/// index type's maximum.
pub open spec fn spec_span_end(s: Span) -> TokenIndex {
    if s.index + s.length > u64::MAX {
        u64::MAX
    } else {
        (s.index + s.length) as u64
    }
}

impl Span {
    /// The offset one past the last character of this span.
    pub fn end(&self) -> (r: TokenIndex)
        ensures
            r == spec_span_end(*self),
    {
        if self.length > u64::MAX - self.index {
            u64::MAX
        } else {
            self.index + self.length
        }
    }
}

/// A half-open range of source text, as a start offset and an end offset
/// (`start <= end`), attached to AST nodes and emitted instructions.
#[derive(Debug, Clone, Copy, PartialEq, Eq, Structural, Hash)]
pub struct DebugSymbol {
    pub start: TokenIndex,
    pub end: TokenIndex,
}

impl DebugSymbol {
    /// A symbol covering `[start, end)`.
    pub fn new(start: TokenIndex, end: TokenIndex) -> (r: DebugSymbol)
        ensures
            r == (DebugSymbol { start, end }),
    {
        DebugSymbol { start, end }
    }
}

/// Per-instruction debug symbols: one entry for every emitted instruction,
/// regardless of the instruction's encoded width.
#[derive(Debug)]
pub struct DebugSymbols {
    pub symbols: Vec<DebugSymbol>,
}

impl DebugSymbols {
    /// An empty symbol table.
    pub fn new() -> (r: DebugSymbols)
        ensures
            r.symbols@ == Seq::<DebugSymbol>::empty(),
    {
        DebugSymbols { symbols: Vec::new() }
    }

    /// Number of recorded symbols: equals the number of emitted instructions.
    pub fn len(&self) -> (r: usize)
        ensures
            r == self.symbols@.len(),
    {
        self.symbols.len()
    }

    /// Appends the symbol of the next instruction.
    pub fn push(&mut self, symbol: &DebugSymbol)
        ensures
            final(self).symbols@ == old(self).symbols@.push(*symbol),
    {
        self.symbols.push(*symbol);
    }

    /// The symbol recorded for instruction number `index`.
    pub fn get(&self, index: usize) -> (r: DebugSymbol)
        requires
            index < self.symbols@.len(),
        ensures
            r == self.symbols@[index as int],
    {
        self.symbols[index]
    }
}

impl Default for DebugSymbols {
    /// An empty symbol table.
    fn default() -> (r: DebugSymbols)
        ensures
            r.symbols@ == Seq::<DebugSymbol>::empty(),
    {
        DebugSymbols::new()
    }
}

} // verus!
