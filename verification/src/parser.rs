//! Parser-side error handling and synchronization structures: errors with
//! their syntactic context, and the stack of context frames the parser keeps
//! so that every error can be mapped back to a source span.

use vstd::prelude::*;
use crate::debug::{DebugSymbol, Span, spec_span_end};

verus! {

/// What kind of parse failure occurred.
#[derive(Debug)]
pub enum ErrorKind {
    /// The token stream itself reported an error.
    LexerError,
    /// The token stream ended where more input was required.
    EndofTokenStream,
    /// A syntax error, with its message.
    SyntaxError(String),
}

/// The type of syntactic construct an error originated from.
#[derive(Debug, Clone, Copy, PartialEq, Eq, Structural)]
pub enum ContextTag {
    Token,
    TopLevel,
    Sync,
    StmtMeta,
    StmtList,
    ControlFlow,
    ExprMeta,
    BlockExpr,
    FunDefExpr,
    FunParam,
    AssignmentExpr,
    VarDeclExpr,
    BinaryOpExpr,
    UnaryOpExpr,
    PrimaryExpr,
    MemberAccess,
    IndexAccess,
    ObjectCtor,
    TupleCtor,
    Atom,
    Group,
    Label,
}

/// A parse error: its kind, the syntactic context it arose in, the source
/// span it maps to, and an underlying cause, where each is known.
#[derive(Debug)]
pub struct ParserError {
    pub kind: ErrorKind,
    pub context: Option<ContextTag>,
    pub symbol: Option<DebugSymbol>,
    pub cause: Option<String>,
}

impl ParserError {
    /// An error of the given kind with nothing else known yet.
    pub fn new(kind: ErrorKind) -> (r: ParserError)
        ensures
            r.kind == kind,
            r.context is None,
            r.symbol is None,
            r.cause is None,
    {
        ParserError { kind, context: None, symbol: None, cause: None }
    }

    /// The same error, tagged with the syntactic construct it arose in.
    pub fn with_context_tag(self, context: ContextTag) -> (r: ParserError)
        ensures
            r.kind == self.kind,
            r.context == Some(context),
            r.symbol == self.symbol,
            r.cause == self.cause,
    {
        ParserError { context: Some(context), ..self }
    }

    /// The same error, mapped to the given source span.
    pub fn with_symbol(self, symbol: DebugSymbol) -> (r: ParserError)
        ensures
            r.kind == self.kind,
            r.context == self.context,
            r.symbol == Some(symbol),
            r.cause == self.cause,
    {
        ParserError { symbol: Some(symbol), ..self }
    }

    /// The same error, mapped to the span of the context's innermost frame,
    /// when that frame has one.
    pub fn with_symbol_from_ctx(self, ctx: &ErrorContext) -> (r: ParserError)
        requires
            ctx.stack@.len() > 0,
        ensures
            r.kind == self.kind,
            r.context == self.context,
            r.cause == self.cause,
            r.symbol == (match ctx.stack@.last().spec_as_debug_symbol() {
                Some(sym) => Some(sym),
                None => self.symbol,
            }),
    {
        match ctx.frame().as_debug_symbol() {
            Some(symbol) => ParserError { symbol: Some(symbol), ..self },
            None => self,
        }
    }

    /// The same error, recording what caused it.
    pub fn with_cause(self, cause: String) -> (r: ParserError)
        ensures
            r.kind == self.kind,
            r.context == self.context,
            r.symbol == self.symbol,
            r.cause == Some(cause),
    {
        ParserError { cause: Some(cause), ..self }
    }

    /// Fills the context tag and the source span from an error context,
    /// where they are not already set.  The context consumes itself to
    /// surrender its best-available span.
    pub fn with_error_context(self, context: ErrorContext) -> (r: ParserError)
        requires
            context.stack@.len() > 0,
            exists|i: int|
                0 <= i < context.stack@.len() && (#[trigger] context.stack@[
                    i
                ]).spec_as_debug_symbol() is Some,
        ensures
            r.kind == self.kind,
            r.cause == self.cause,
            r.context == (if self.context is Some {
                self.context
            } else {
                Some(context.stack@.last().tag)
            }),
            self.symbol is Some ==> r.symbol == self.symbol,
            self.symbol is None ==> exists|i: int|
                {
                    &&& 0 <= i < context.stack@.len()
                    &&& r.symbol is Some
                    &&& (#[trigger] context.stack@[i]).spec_as_debug_symbol() == r.symbol
                    &&& forall|j: int|
                        i < j < context.stack@.len() ==> (#[trigger] context.stack@[
                            j
                        ]).spec_as_debug_symbol() is None
                },
    {
        let tag = context.context();
        let had_context = self.context.is_some();
        let had_symbol = self.symbol.is_some();
        let mut r = self;
        if !had_context {
            r = ParserError { context: Some(tag), ..r };
        }
        if !had_symbol {
            let symbol = context.take_debug_symbol();
            r = ParserError { symbol: Some(symbol), ..r };
        }
        r
    }

    /// This error's kind.
    pub fn kind(&self) -> (r: &ErrorKind)
        ensures
            r == self.kind,
    {
        &self.kind
    }

    /// The syntactic context this error arose in, when known.
    pub fn context(&self) -> (r: Option<&ContextTag>)
        ensures
            match r {
                Some(tag) => self.context == Some(*tag),
                None => self.context is None,
            },
    {
        self.context.as_ref()
    }
}

/// One frame of parsing context: the construct being parsed and the spans of
/// the first and last tokens seen inside it.
#[derive(Debug)]
pub struct ContextFrame {
    pub tag: ContextTag,
    pub start: Option<Span>,
    pub end: Option<Span>,
}

/// Whether one span starts before another.
pub open spec fn span_lt(first: Span, second: Span) -> bool {
    first.index < second.index
}

impl ContextFrame {
    /// A frame for a construct, with no tokens seen yet.
    pub fn new(tag: ContextTag) -> (r: ContextFrame)
        ensures
            r.tag == tag,
            r.start is None,
            r.end is None,
    {
        ContextFrame { tag, start: None, end: None }
    }

    /// The construct this frame stands for.
    pub fn context(&self) -> (r: ContextTag)
        ensures
            r == self.tag,
    {
        self.tag
    }

    /// Span of the first token seen in this frame.
    pub fn start(&self) -> (r: Option<&Span>)
        ensures
            match r {
                Some(s) => self.start == Some(*s),
                None => self.start is None,
            },
    {
        self.start.as_ref()
    }

    /// Span of the last token seen in this frame.
    pub fn end(&self) -> (r: Option<&Span>)
        ensures
            match r {
                Some(s) => self.end == Some(*s),
                None => self.end is None,
            },
    {
        self.end.as_ref()
    }

    /// Records the span of the frame's first token.
    pub fn set_start(&mut self, span: Span)
        ensures
            final(self).tag == old(self).tag,
            final(self).start == Some(span),
            final(self).end == old(self).end,
    {
        self.start = Some(span);
    }

    /// Records the span of the frame's last token.
    pub fn set_end(&mut self, span: Span)
        ensures
            final(self).tag == old(self).tag,
            final(self).start == old(self).start,
            final(self).end == Some(span),
    {
        self.end = Some(span);
    }

    /// Overwrites both recorded spans.
    pub fn set_span(&mut self, start: Option<Span>, end: Option<Span>)
        ensures
            final(self).tag == old(self).tag,
            final(self).start == start,
            final(self).end == end,
    {
        self.start = start;
        self.end = end;
    }

    /// Folds an inner frame into this one: the recorded range widens to
    /// cover the earlier start and the later end of the two.
    pub fn extend(&mut self, other: ContextFrame)
        ensures
            final(self).tag == old(self).tag,
            final(self).start == (match (old(self).start, other.start) {
                (Some(a), Some(b)) => if span_lt(b, a) {
                    Some(b)
                } else {
                    Some(a)
                },
                (None, Some(b)) => Some(b),
                (a, None) => a,
            }),
            final(self).end == (match (old(self).end, other.end) {
                (Some(a), Some(b)) => if span_lt(a, b) {
                    Some(b)
                } else {
                    Some(a)
                },
                (None, Some(b)) => Some(b),
                (a, None) => a,
            }),
    {
        match (self.start, other.start) {
            (Some(a), Some(b)) => {
                if b.index < a.index {
                    self.start = Some(b);
                }
            },
            (None, Some(b)) => {
                self.start = Some(b);
            },
            _ => {},
        }
        match (self.end, other.end) {
            (Some(a), Some(b)) => {
                if a.index < b.index {
                    self.end = Some(b);
                }
            },
            (None, Some(b)) => {
                self.end = Some(b);
            },
            _ => {},
        }
    }

    /// The source span this frame covers: from its start span to the end of
    /// its end span, or whichever single span it has.
    pub open spec fn spec_as_debug_symbol(&self) -> Option<DebugSymbol> {
        match (self.start, self.end) {
            (Some(start), Some(end)) => Some(
                (DebugSymbol { start: start.index, end: spec_span_end(end) }),
            ),
            (Some(span), None) => Some(
                (DebugSymbol { start: span.index, end: spec_span_end(span) }),
            ),
            (None, Some(span)) => Some(
                (DebugSymbol { start: span.index, end: spec_span_end(span) }),
            ),
            (None, None) => None,
        }
    }

    /// The source span this frame covers, when it has seen any token.
    #[verifier::when_used_as_spec(spec_as_debug_symbol)]
    pub fn as_debug_symbol(&self) -> (r: Option<DebugSymbol>)
        ensures
            r == self.spec_as_debug_symbol(),
    {
        match (self.start, self.end) {
            (Some(start), Some(end)) => Some(DebugSymbol::new(start.index, end.end())),
            (Some(span), None) => Some(DebugSymbol::new(span.index, span.end())),
            (None, Some(span)) => Some(DebugSymbol::new(span.index, span.end())),
            (None, None) => None,
        }
    }
}

/// The parser's stack of context frames, innermost last; never empty.
#[derive(Debug)]
pub struct ErrorContext {
    pub stack: Vec<ContextFrame>,
}

impl ErrorContext {
    /// A context with one base frame.
    pub fn new(base: ContextTag) -> (r: ErrorContext)
        ensures
            r.stack@.len() == 1,
            r.stack@[0].tag == base,
            r.stack@[0].start is None,
            r.stack@[0].end is None,
    {
        let mut stack: Vec<ContextFrame> = Vec::new();
        stack.push(ContextFrame::new(base));
        ErrorContext { stack }
    }

    /// The innermost frame.
    pub fn frame(&self) -> (r: &ContextFrame)
        requires
            self.stack@.len() > 0,
        ensures
            *r == self.stack@.last(),
    {
        let n = self.stack.len();
        &self.stack[n - 1]
    }

    /// The innermost frame, for editing in place.
    pub fn frame_mut(&mut self) -> (r: &mut ContextFrame)
        requires
            old(self).stack@.len() > 0,
        ensures
            *r == old(self).stack@.last(),
            final(self).stack@ == old(self).stack@.update(
                old(self).stack@.len() - 1,
                *final(r),
            ),
    {
        let n = self.stack.len();
        &mut self.stack[n - 1]
    }

    /// Opens a nested context.
    pub fn push(&mut self, tag: ContextTag)
        ensures
            final(self).stack@.len() == old(self).stack@.len() + 1,
            final(self).stack@.drop_last() == old(self).stack@,
            final(self).stack@.last().tag == tag,
            final(self).stack@.last().start is None,
            final(self).stack@.last().end is None,
    {
        self.stack.push(ContextFrame::new(tag));
        proof {
            assert(final(self).stack@.drop_last() =~= old(self).stack@);
        }
    }

    /// Opens a nested context that continues the current one: the new frame
    /// starts where the current frame started.
    pub fn push_continuation(&mut self, tag: ContextTag)
        requires
            old(self).stack@.len() > 0,
        ensures
            final(self).stack@.len() == old(self).stack@.len() + 1,
            final(self).stack@.drop_last() == old(self).stack@,
            final(self).stack@.last().tag == tag,
            final(self).stack@.last().start == old(self).stack@.last().start,
            final(self).stack@.last().end is None,
    {
        let n = self.stack.len();
        let start = self.stack[n - 1].start;
        self.stack.push(ContextFrame { tag, start, end: None });
        proof {
            assert(final(self).stack@.drop_last() =~= old(self).stack@);
        }
    }

    /// Closes the innermost context and returns its frame.  The base frame
    /// is never popped.
    pub fn pop(&mut self) -> (r: ContextFrame)
        requires
            old(self).stack@.len() > 1,
        ensures
            final(self).stack@ == old(self).stack@.drop_last(),
            r == old(self).stack@.last(),
    {
        self.stack.pop().unwrap()
    }

    /// Closes the innermost context and widens the enclosing frame's range
    /// to cover it.
    pub fn pop_extend(&mut self)
        requires
            old(self).stack@.len() > 1,
        ensures
            final(self).stack@.len() == old(self).stack@.len() - 1,
            final(self).stack@.drop_last() == old(self).stack@.drop_last().drop_last(),
            ({
                let inner = old(self).stack@.last();
                let outer = old(self).stack@[old(self).stack@.len() - 2];
                let merged = final(self).stack@.last();
                &&& merged.tag == outer.tag
                &&& merged.start == (match (outer.start, inner.start) {
                    (Some(a), Some(b)) => if span_lt(b, a) {
                        Some(b)
                    } else {
                        Some(a)
                    },
                    (None, Some(b)) => Some(b),
                    (a, None) => a,
                })
                &&& merged.end == (match (outer.end, inner.end) {
                    (Some(a), Some(b)) => if span_lt(a, b) {
                        Some(b)
                    } else {
                        Some(a)
                    },
                    (None, Some(b)) => Some(b),
                    (a, None) => a,
                })
            }),
    {
        let inner_frame = self.pop();
        let outer = self.frame_mut();
        outer.extend(inner_frame);
        proof {
            assert(final(self).stack@.drop_last() =~= old(self).stack@.drop_last().drop_last());
        }
    }

    /// Surrenders the innermost frame, consuming the context.
    pub fn take(self) -> (r: ContextFrame)
        requires
            self.stack@.len() > 0,
        ensures
            r == self.stack@.last(),
    {
        let mut stack = self.stack;
        stack.pop().unwrap()
    }

    /// The construct of the innermost frame.
    pub fn context(&self) -> (r: ContextTag)
        requires
            self.stack@.len() > 0,
        ensures
            r == self.stack@.last().tag,
    {
        self.frame().context()
    }

    /// Records the span of the innermost frame's first token.
    pub fn set_start(&mut self, span: Span)
        requires
            old(self).stack@.len() > 0,
        ensures
            final(self).stack@.len() == old(self).stack@.len(),
            final(self).stack@.drop_last() == old(self).stack@.drop_last(),
            final(self).stack@.last().tag == old(self).stack@.last().tag,
            final(self).stack@.last().start == Some(span),
            final(self).stack@.last().end == old(self).stack@.last().end,
    {
        self.frame_mut().set_start(span);
        proof {
            assert(final(self).stack@.drop_last() =~= old(self).stack@.drop_last());
        }
    }

    /// Records the span of the innermost frame's last token.
    pub fn set_end(&mut self, span: Span)
        requires
            old(self).stack@.len() > 0,
        ensures
            final(self).stack@.len() == old(self).stack@.len(),
            final(self).stack@.drop_last() == old(self).stack@.drop_last(),
            final(self).stack@.last().tag == old(self).stack@.last().tag,
            final(self).stack@.last().start == old(self).stack@.last().start,
            final(self).stack@.last().end == Some(span),
    {
        self.frame_mut().set_end(span);
        proof {
            assert(final(self).stack@.drop_last() =~= old(self).stack@.drop_last());
        }
    }

    /// The best-available source span: that of the innermost frame that has
    /// seen any token.  Consumes the context.
    pub fn take_debug_symbol(self) -> (r: DebugSymbol)
        requires
            self.stack@.len() > 0,
            exists|i: int|
                0 <= i < self.stack@.len() && (#[trigger] self.stack@[
                    i
                ]).spec_as_debug_symbol() is Some,
        ensures
            exists|i: int|
                {
                    &&& 0 <= i < self.stack@.len()
                    &&& (#[trigger] self.stack@[i]).spec_as_debug_symbol() == Some(r)
                    &&& forall|j: int|
                        i < j < self.stack@.len() ==> (#[trigger] self.stack@[
                            j
                        ]).spec_as_debug_symbol() is None
                },
    {
        let n = self.stack.len();
        let mut i: usize = n;
        while i > 0
            invariant
                0 < i <= n,
                n == self.stack@.len(),
                exists|k: int|
                    0 <= k < self.stack@.len() && (#[trigger] self.stack@[
                        k
                    ]).spec_as_debug_symbol() is Some,
                forall|j: int|
                    i <= j < n ==> (#[trigger] self.stack@[j]).spec_as_debug_symbol() is None,
            decreases i,
        {
            i -= 1;
            match self.stack[i].as_debug_symbol() {
                Some(symbol) => {
                    return symbol;
                },
                None => {},
            }
            if i == 0 {
                proof {
                    assert(forall|j: int|
                        0 <= j < n ==> (#[trigger] self.stack@[j]).spec_as_debug_symbol()
                            is None);
                    assert(false);
                }
            }
        }
        proof {
            assert(false);
        }
        DebugSymbol::new(0, 0)
    }
}

} // verus!
