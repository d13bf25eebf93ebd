use sphinx_lang::debug::{DebugSymbol, Span};
use sphinx_lang::gc::GC;
use sphinx_lang::opcode::OpCode;
use sphinx_lang::parser::{ContextFrame, ContextTag, ErrorContext, ErrorKind, ParserError};

// opcode bytes decode back to the opcode they encode
#[test]
fn opcode_byte_round_trip() {
    let ops = [
        OpCode::LoadConst,
        OpCode::LoadConst16,
        OpCode::Nil,
        OpCode::Empty,
        OpCode::True,
        OpCode::False,
        OpCode::Add,
        OpCode::Mul,
        OpCode::Shl,
        OpCode::EQ,
        OpCode::Jump,
        OpCode::JumpIfFalse,
    ];
    for op in ops {
        assert_eq!(OpCode::from_byte(op.to_byte()), Some(op));
    }
    assert_eq!(OpCode::from_byte(0), None);
    assert_eq!(OpCode::from_byte(255), None);
}

// handle identity goes by slot and generation, not by value
#[test]
fn gc_handle_identity() {
    let a = GC { index: 3, generation: 1 };
    let b = GC { index: 3, generation: 1 };
    let c = GC { index: 3, generation: 2 };
    let d = GC { index: 4, generation: 1 };
    assert!(GC::ptr_eq(&a, &b));
    assert!(!GC::ptr_eq(&a, &c));
    assert!(!GC::ptr_eq(&a, &d));
}

// context frames widen to cover folded inner frames, and their spans merge
// into one debug symbol
#[test]
fn context_frame_extend_and_symbol() {
    let mut outer = ContextFrame::new(ContextTag::BinaryOpExpr);
    outer.set_start(Span { index: 10, length: 2 });
    outer.set_end(Span { index: 14, length: 1 });
    let mut inner = ContextFrame::new(ContextTag::Atom);
    inner.set_start(Span { index: 4, length: 3 });
    inner.set_end(Span { index: 20, length: 5 });
    outer.extend(inner);
    let symbol = outer.as_debug_symbol().unwrap();
    assert_eq!(symbol, DebugSymbol { start: 4, end: 25 });
    // a frame that saw a single token covers exactly that token
    let mut single = ContextFrame::new(ContextTag::Token);
    single.set_start(Span { index: 7, length: 3 });
    assert_eq!(
        single.as_debug_symbol().unwrap(),
        DebugSymbol { start: 7, end: 10 }
    );
    assert!(ContextFrame::new(ContextTag::Token).as_debug_symbol().is_none());
}

// the error context hands out the innermost recorded span
#[test]
fn error_context_take_symbol() {
    let mut ctx = ErrorContext::new(ContextTag::TopLevel);
    ctx.set_start(Span { index: 0, length: 1 });
    ctx.push(ContextTag::ExprMeta);
    ctx.set_start(Span { index: 5, length: 2 });
    ctx.push(ContextTag::Atom);
    // the innermost frame saw nothing: the span comes from the ExprMeta frame
    let symbol = ctx.take_debug_symbol();
    assert_eq!(symbol, DebugSymbol { start: 5, end: 7 });
}

// pop_extend folds the inner frame's range into the enclosing frame
#[test]
fn error_context_pop_extend() {
    let mut ctx = ErrorContext::new(ContextTag::TopLevel);
    ctx.push(ContextTag::Group);
    ctx.set_start(Span { index: 2, length: 1 });
    ctx.set_end(Span { index: 9, length: 4 });
    ctx.pop_extend();
    let symbol = ctx.frame().as_debug_symbol().unwrap();
    assert_eq!(symbol, DebugSymbol { start: 2, end: 13 });
}

// a continuation frame starts where the frame it continues started
#[test]
fn error_context_continuation() {
    let mut ctx = ErrorContext::new(ContextTag::ExprMeta);
    ctx.set_start(Span { index: 3, length: 2 });
    ctx.push_continuation(ContextTag::BinaryOpExpr);
    assert_eq!(ctx.frame().start().copied(), Some(Span { index: 3, length: 2 }));
    assert!(ctx.frame().end().is_none());
}

// errors fill their context tag and symbol from the parse context only
// where they are not already set
#[test]
fn parser_error_context_fill() {
    let mut ctx = ErrorContext::new(ContextTag::VarDeclExpr);
    ctx.set_start(Span { index: 8, length: 2 });
    let error = ParserError::new(ErrorKind::EndofTokenStream).with_error_context(ctx);
    assert!(matches!(error.kind(), ErrorKind::EndofTokenStream));
    assert!(matches!(error.context(), Some(ContextTag::VarDeclExpr)));
    assert_eq!(error.symbol, Some(DebugSymbol { start: 8, end: 10 }));

    let mut ctx = ErrorContext::new(ContextTag::Group);
    ctx.set_start(Span { index: 1, length: 1 });
    let error = ParserError::new(ErrorKind::LexerError)
        .with_context_tag(ContextTag::Atom)
        .with_symbol(DebugSymbol { start: 0, end: 1 })
        .with_error_context(ctx);
    assert!(matches!(error.context(), Some(ContextTag::Atom)));
    assert_eq!(error.symbol, Some(DebugSymbol { start: 0, end: 1 }));

    let error = ParserError::new(ErrorKind::SyntaxError(String::from("unexpected token")))
        .with_cause(String::from("stray operator"));
    assert_eq!(error.cause.as_deref(), Some("stray operator"));
}
