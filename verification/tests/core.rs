use sphinx_lang::ast::{Arithmetic, Atom, BinaryOp, Comparison, DeclType, Expr, Logical, Stmt,
    StmtMeta, UnaryOp};
use sphinx_lang::codegen::CodeGenerator;
use sphinx_lang::compile_ast;
use sphinx_lang::eval::{apply_binary_op, apply_unary_op, eval_literal_atom};
use sphinx_lang::parser::{ErrorKind, ParserError};
use sphinx_lang::{build_from_parse, BuildErrors};
use sphinx_lang::debug::DebugSymbol;
use sphinx_lang::opcode::OpCode;
use sphinx_lang::ops::{
    eval_add, eval_div, eval_eq, eval_ge, eval_gt, eval_inv, eval_le, eval_lt, eval_mod, eval_mul,
    eval_ne, eval_neg, eval_not, eval_pos, eval_shl, eval_shr, eval_sub, is_arithmetic_primitive,
    is_bitwise_primitive, EvalError,
};
use sphinx_lang::scope::{
    ControlFlowTarget, InsertLocal, LocalName, ScopeTag, ScopeTracker, UpvalueTarget,
};
use sphinx_lang::strings::StringInterner;
use sphinx_lang::variant::{FloatBits, InternSymbol, Variant};

fn float(v: f64) -> Variant {
    Variant::Float(FloatBits(v.to_bits()))
}

fn sym(n: u32) -> LocalName {
    LocalName::Symbol(InternSymbol(n))
}

fn expr_stmt(expr: Expr) -> StmtMeta {
    StmtMeta::new(Stmt::Expression(expr), DebugSymbol::new(0, 1))
}

fn int_atom(v: i64) -> Expr {
    Expr::Atom(Atom::IntegerLiteral(v))
}

// local slot indices grow by exactly one per declaration, continuing the
// enclosing scope's slots
#[test]
fn local_slot_monotonicity() {
    let mut tracker = ScopeTracker::new();
    tracker.push_scope(None, ScopeTag::Block, None);
    for i in 0..5u32 {
        assert!(matches!(
            tracker.insert_local(DeclType::Immutable, sym(i)),
            Ok(InsertLocal::CreateNew)
        ));
        let local = tracker.resolve_local(&sym(i)).unwrap();
        assert_eq!(local.index, i as u16);
    }
    // a nested scope continues one past the previous scope's last slot
    tracker.push_scope(None, ScopeTag::Block, None);
    assert!(matches!(
        tracker.insert_local(DeclType::Immutable, sym(100)),
        Ok(InsertLocal::CreateNew)
    ));
    assert_eq!(tracker.resolve_local(&sym(100)).unwrap().index, 5);
    // a fresh function frame starts again from slot 0
    tracker.push_frame(None);
    assert!(matches!(
        tracker.insert_local(DeclType::Immutable, sym(200)),
        Ok(InsertLocal::CreateNew)
    ));
    assert_eq!(tracker.resolve_local(&sym(200)).unwrap().index, 0);
}

// redeclaring a name in the same scope reuses its slot; a nested scope
// shadows with a new slot until it is popped
#[test]
fn shadowing_vs_redeclaration() {
    let mut tracker = ScopeTracker::new();
    tracker.push_scope(None, ScopeTag::Block, None);
    assert!(matches!(
        tracker.insert_local(DeclType::Immutable, sym(1)),
        Ok(InsertLocal::CreateNew)
    ));
    // same scope: redeclared in place, same slot, new mutability
    match tracker.insert_local(DeclType::Mutable, sym(1)) {
        Ok(InsertLocal::HideExisting(idx)) => assert_eq!(idx, 0),
        other => panic!("unexpected insert result: {:?}", matches!(other, Ok(_))),
    }
    assert!(matches!(
        tracker.resolve_local(&sym(1)).unwrap().decl,
        DeclType::Mutable
    ));
    // nested scope: a new slot shadows the outer binding
    tracker.push_scope(None, ScopeTag::Block, None);
    assert!(matches!(
        tracker.insert_local(DeclType::Immutable, sym(1)),
        Ok(InsertLocal::CreateNew)
    ));
    let inner = tracker.resolve_local(&sym(1)).unwrap();
    assert_eq!(inner.index, 1);
    // popping the inner scope uncovers the outer binding again
    tracker.pop_scope();
    let outer = tracker.resolve_local(&sym(1)).unwrap();
    assert_eq!(outer.index, 0);
}

// resolving a free name through three nested frames creates exactly one
// upvalue per frame, chained, and resolving again reuses them
#[test]
fn upvalue_chaining() {
    let mut tracker = ScopeTracker::new();
    tracker.push_frame(None); // F0
    tracker
        .insert_local(DeclType::Immutable, sym(7))
        .unwrap();
    tracker.push_frame(None); // F1
    tracker.push_frame(None); // F2
    let upval = tracker.resolve_or_create_upval(&sym(7)).unwrap().unwrap();
    assert_eq!(upval.index, 0);
    assert_eq!(upval.name, sym(7));
    assert_eq!(upval.target, UpvalueTarget::Upvalue(0));
    // exactly one upvalue in F1, pointing at F0's local slot
    assert_eq!(tracker.frames[1].upvalues().len(), 1);
    assert_eq!(tracker.frames[1].upvalues()[0].target, UpvalueTarget::Local(0));
    // exactly one upvalue in F2, pointing at F1's upvalue
    assert_eq!(tracker.frames[2].upvalues().len(), 1);
    assert_eq!(tracker.frames[2].upvalues()[0].target, UpvalueTarget::Upvalue(0));
    // the originating local is marked captured
    assert!(tracker.frames[0].scopes.scopes[0].locals[0].captured);
    // F0 itself created no upvalue
    assert_eq!(tracker.frames[0].upvalues().len(), 0);
    // repeating the resolution returns the same upvalue and creates nothing
    let again = tracker.resolve_or_create_upval(&sym(7)).unwrap().unwrap();
    assert_eq!(again.index, 0);
    assert_eq!(tracker.frames[1].upvalues().len(), 1);
    assert_eq!(tracker.frames[2].upvalues().len(), 1);
}

// a name bound nowhere below resolves to no upvalue and changes nothing
#[test]
fn upvalue_unbound_name_is_global() {
    let mut tracker = ScopeTracker::new();
    tracker.push_frame(None);
    tracker.push_frame(None);
    assert!(tracker.resolve_or_create_upval(&sym(9)).unwrap().is_none());
    assert_eq!(tracker.frames[0].upvalues().len(), 0);
    assert_eq!(tracker.frames[1].upvalues().len(), 0);
}

// an unlabeled break resolves to the nearest enclosing Loop or Block of the
// current function only; continue needs a Loop; neither crosses a frame
#[test]
fn control_flow_scoping() {
    let mut tracker = ScopeTracker::new();
    tracker.push_frame(None);
    tracker.push_scope(None, ScopeTag::Loop, None);
    tracker.push_scope(None, ScopeTag::Branch, None);
    tracker.push_scope(None, ScopeTag::Block, None);
    // break: the nearest acceptor is the Block
    let target = tracker
        .resolve_control_flow(ControlFlowTarget::Break(None))
        .unwrap();
    assert_eq!(target.tag, ScopeTag::Block);
    // continue: only the Loop accepts it
    let target = tracker
        .resolve_control_flow(ControlFlowTarget::Continue(None))
        .unwrap();
    assert_eq!(target.tag, ScopeTag::Loop);
    // a new function frame hides the enclosing loop: break must not resolve
    tracker.push_frame(None);
    assert!(tracker
        .resolve_control_flow(ControlFlowTarget::Break(None))
        .is_none());
    assert!(tracker
        .resolve_control_flow(ControlFlowTarget::Continue(None))
        .is_none());
}

// the 257th distinct constant switches the load to the wide 16-bit form
#[test]
fn constant_pool_width_switch() {
    let mut ast = Vec::new();
    for i in 0..257i64 {
        ast.push(expr_stmt(int_atom(i)));
    }
    let interner = StringInterner::new();
    let program = compile_ast(interner, &ast).unwrap();
    let bytes = &program.bytecode.bytes;
    assert_eq!(bytes.len(), 256 * 2 + 3);
    // the first 256 loads use the narrow 8-bit form
    assert_eq!(bytes[0], OpCode::LoadConst.to_byte());
    assert_eq!(bytes[1], 0);
    assert_eq!(bytes[510], OpCode::LoadConst.to_byte());
    assert_eq!(bytes[511], 255);
    // the 257th uses the wide form with a little-endian 16-bit index
    assert_eq!(bytes[512], OpCode::LoadConst16.to_byte());
    assert_eq!(bytes[513], 0);
    assert_eq!(bytes[514], 1);
    // one debug symbol per instruction
    assert_eq!(program.symbols.symbols.len(), 257);
}

// the pool is deduplicated: pushing an equal constant reuses its index
#[test]
fn constant_pool_dedup() {
    let ast = vec![
        expr_stmt(int_atom(42)),
        expr_stmt(int_atom(42)),
        expr_stmt(int_atom(7)),
    ];
    let program = compile_ast(StringInterner::new(), &ast).unwrap();
    assert_eq!(program.bytecode.consts.len(), 2);
    let bytes = &program.bytecode.bytes;
    assert_eq!(bytes[1], 0);
    assert_eq!(bytes[3], 0);
    assert_eq!(bytes[5], 1);
}

// checked integer arithmetic: overflow is an error, exact results otherwise,
// and mixed operands coerce to floats
#[test]
fn arithmetic_overflow() {
    assert_eq!(
        eval_add(&Variant::Integer(i64::MAX), &Variant::Integer(i64::MAX)),
        Err(EvalError::OverflowError)
    );
    assert_eq!(
        eval_add(&Variant::Integer(2), &Variant::Integer(3)),
        Ok(Some(Variant::Integer(5)))
    );
    assert_eq!(eval_add(&Variant::Integer(2), &float(3.0)), Ok(Some(float(5.0))));
    assert_eq!(
        eval_sub(&Variant::Integer(i64::MIN), &Variant::Integer(1)),
        Err(EvalError::OverflowError)
    );
    assert_eq!(
        eval_mul(&Variant::Integer(i64::MAX), &Variant::Integer(2)),
        Err(EvalError::OverflowError)
    );
    assert_eq!(eval_mul(&float(1.5), &float(4.0)), Ok(Some(float(6.0))));
    // a non-primitive operand is not applicable: the caller falls back
    assert_eq!(eval_add(&Variant::Nil, &Variant::Integer(1)), Ok(None));
}

// division and remainder: by zero is an error, the lone overflow case is
// flagged, and float coercion applies
#[test]
fn division_edge_cases() {
    assert_eq!(
        eval_div(&Variant::Integer(7), &Variant::Integer(0)),
        Err(EvalError::DivideByZero)
    );
    assert_eq!(
        eval_div(&Variant::Integer(i64::MIN), &Variant::Integer(-1)),
        Err(EvalError::OverflowError)
    );
    assert_eq!(
        eval_div(&Variant::Integer(7), &Variant::Integer(2)),
        Ok(Some(Variant::Integer(3)))
    );
    assert_eq!(
        eval_mod(&Variant::Integer(7), &Variant::Integer(0)),
        Err(EvalError::DivideByZero)
    );
    assert_eq!(
        eval_mod(&Variant::Integer(-7), &Variant::Integer(2)),
        Ok(Some(Variant::Integer(-1)))
    );
    assert_eq!(eval_div(&float(1.0), &float(0.0)), Ok(Some(float(f64::INFINITY))));
}

// equality edge cases: Nil equals nothing, the empty tuple only itself,
// and mixed numerics compare by float coercion
#[test]
fn equality_edge_cases() {
    assert!(!eval_eq(&Variant::Nil, &Variant::Nil));
    assert!(eval_eq(&Variant::EmptyTuple, &Variant::EmptyTuple));
    assert!(eval_eq(&Variant::Integer(2), &float(2.0)));
    assert!(!eval_eq(&Variant::Integer(2), &float(2.5)));
    assert!(eval_eq(&Variant::BoolTrue, &Variant::BoolTrue));
    assert!(!eval_eq(&Variant::BoolTrue, &Variant::BoolFalse));
    assert!(!eval_eq(&float(f64::NAN), &float(f64::NAN)));
    assert!(eval_eq(&float(0.0), &float(-0.0)));
    assert!(eval_ne(&Variant::Nil, &Variant::Nil));
    assert!(eval_eq(
        &Variant::InternStr(InternSymbol(3)),
        &Variant::InternStr(InternSymbol(3))
    ));
}

// shift edge cases: shifting by boolean false is a no-op returning the
// operand; a negative count is an error; boolean true shifts by one
#[test]
fn shift_edge_cases() {
    assert_eq!(
        eval_shl(&Variant::Integer(5), &Variant::BoolFalse),
        Ok(Some(Variant::Integer(5)))
    );
    assert_eq!(
        eval_shl(&Variant::BoolTrue, &Variant::BoolFalse),
        Ok(Some(Variant::BoolTrue))
    );
    assert_eq!(
        eval_shl(&Variant::Integer(1), &Variant::Integer(-1)),
        Err(EvalError::NegativeShiftCount)
    );
    assert_eq!(
        eval_shr(&Variant::Integer(8), &Variant::Integer(-1)),
        Err(EvalError::NegativeShiftCount)
    );
    assert_eq!(
        eval_shl(&Variant::Integer(3), &Variant::BoolTrue),
        Ok(Some(Variant::Integer(6)))
    );
    assert_eq!(
        eval_shr(&Variant::Integer(8), &Variant::Integer(2)),
        Ok(Some(Variant::Integer(2)))
    );
    // a boolean left operand shifts its 0/1 bit value
    assert_eq!(
        eval_shl(&Variant::BoolTrue, &Variant::Integer(3)),
        Ok(Some(Variant::Integer(8)))
    );
    // floats are not bitwise primitives: not applicable
    assert_eq!(eval_shl(&float(1.0), &Variant::Integer(1)), Ok(None));
}

// compiling 1 + 2 * 3 emits the operands in postfix order with one debug
// symbol per instruction
#[test]
fn end_to_end_postfix_emission() {
    let expr = Expr::BinaryOp(
        BinaryOp::Arithmetic(Arithmetic::Add),
        Box::new(int_atom(1)),
        Box::new(Expr::BinaryOp(
            BinaryOp::Arithmetic(Arithmetic::Mul),
            Box::new(int_atom(2)),
            Box::new(int_atom(3)),
        )),
    );
    let ast = vec![expr_stmt(expr)];
    let program = compile_ast(StringInterner::new(), &ast).unwrap();
    let bytes = &program.bytecode.bytes;
    let lc = OpCode::LoadConst.to_byte();
    assert_eq!(
        bytes.as_slice(),
        &[lc, 0, lc, 1, lc, 2, OpCode::Mul.to_byte(), OpCode::Add.to_byte()]
    );
    assert_eq!(program.bytecode.consts.len(), 3);
    assert_eq!(program.bytecode.consts[0], Variant::Integer(1));
    assert_eq!(program.bytecode.consts[1], Variant::Integer(2));
    assert_eq!(program.bytecode.consts[2], Variant::Integer(3));
    // exactly one debug-symbol entry per instruction: 5 in program order
    assert_eq!(program.symbols.symbols.len(), 5);
}

// a statement that fails to compile is recorded and does not abort its
// siblings; the error list carries every failure
#[test]
fn errors_accumulate_per_statement() {
    let ast = vec![
        expr_stmt(Expr::Atom(Atom::Identifier(InternSymbol(0)))),
        expr_stmt(int_atom(1)),
        expr_stmt(Expr::Atom(Atom::Identifier(InternSymbol(1)))),
    ];
    let errors = compile_ast(StringInterner::new(), &ast).unwrap_err();
    assert_eq!(errors.len(), 2);
}

// unary operators: negation is checked, inversion is two's complement,
// logical not follows truthiness
#[test]
fn unary_operators() {
    assert_eq!(eval_neg(&Variant::Integer(5)), Ok(Variant::Integer(-5)));
    assert_eq!(
        eval_neg(&Variant::Integer(i64::MIN)),
        Err(EvalError::OverflowError)
    );
    assert_eq!(eval_neg(&float(2.5)), Ok(float(-2.5)));
    assert_eq!(eval_pos(&Variant::Integer(5)), Ok(Variant::Integer(5)));
    assert_eq!(eval_inv(&Variant::Integer(0)), Ok(Variant::Integer(-1)));
    assert_eq!(eval_inv(&Variant::BoolTrue), Ok(Variant::BoolFalse));
    assert_eq!(eval_not(&Variant::Nil), Ok(Variant::BoolTrue));
    assert_eq!(eval_not(&Variant::Integer(0)), Ok(Variant::BoolFalse));
    assert_eq!(eval_not(&Variant::EmptyTuple), Ok(Variant::BoolFalse));
}

// comparisons: GE and GT are the negations of LT and LE and inherit their
// "not applicable" propagation
#[test]
fn comparison_negation_propagation() {
    assert_eq!(eval_lt(&Variant::Integer(2), &Variant::Integer(3)), Some(true));
    assert_eq!(eval_ge(&Variant::Integer(2), &Variant::Integer(3)), Some(false));
    assert_eq!(eval_le(&Variant::Integer(3), &Variant::Integer(3)), Some(true));
    assert_eq!(eval_gt(&Variant::Integer(3), &Variant::Integer(3)), Some(false));
    assert_eq!(eval_lt(&Variant::Integer(2), &float(2.5)), Some(true));
    // NaN comparisons are false both ways, so GE is (vacuously) true
    assert_eq!(eval_lt(&float(f64::NAN), &float(1.0)), Some(false));
    assert_eq!(eval_ge(&float(f64::NAN), &float(1.0)), Some(true));
    // not applicable propagates as None, never as false
    assert_eq!(eval_lt(&Variant::Nil, &Variant::Integer(1)), None);
    assert_eq!(eval_ge(&Variant::Nil, &Variant::Integer(1)), None);
    assert_eq!(eval_gt(&Variant::BoolTrue, &Variant::Integer(1)), None);
}

// primitive classification used by the coercion rules
#[test]
fn primitive_classification() {
    assert!(is_arithmetic_primitive(&Variant::Integer(1)));
    assert!(is_arithmetic_primitive(&float(1.0)));
    assert!(!is_arithmetic_primitive(&Variant::BoolTrue));
    assert!(is_bitwise_primitive(&Variant::BoolTrue));
    assert!(is_bitwise_primitive(&Variant::Integer(1)));
    assert!(!is_bitwise_primitive(&float(1.0)));
}

// the interner returns the same symbol for the same content and new symbols
// for new content
#[test]
fn interner_round_trip() {
    let mut interner = StringInterner::new();
    let a = interner.intern(String::from("alpha")).unwrap();
    let b = interner.intern(String::from("beta")).unwrap();
    let a2 = interner.intern(String::from("alpha")).unwrap();
    assert_eq!(a, a2);
    assert_ne!(a, b);
    assert_eq!(interner.lookup(a).as_str(), "alpha");
    assert_eq!(interner.lookup(b).as_str(), "beta");
    assert_eq!(interner.len(), 2);
}

// a generator built by hand: unary lowering and the finish contract
#[test]
fn unary_lowering_and_finish() {
    let gen = CodeGenerator::new();
    let ast = vec![expr_stmt(Expr::UnaryOp(UnaryOp::Neg, Box::new(int_atom(4))))];
    let program = gen.compile_program(&ast).unwrap();
    let bytes = &program.bytecode.bytes;
    assert_eq!(
        bytes.as_slice(),
        &[OpCode::LoadConst.to_byte(), 0, OpCode::Neg.to_byte()]
    );
    assert_eq!(program.symbols.symbols.len(), 2);
}

// literal atoms evaluate to their variants; names need resolution and do not
#[test]
fn literal_atom_evaluation() {
    assert_eq!(eval_literal_atom(&Atom::Nil), Some(Variant::Nil));
    assert_eq!(eval_literal_atom(&Atom::EmptyTuple), Some(Variant::EmptyTuple));
    assert_eq!(eval_literal_atom(&Atom::BooleanLiteral(true)), Some(Variant::BoolTrue));
    assert_eq!(eval_literal_atom(&Atom::IntegerLiteral(9)), Some(Variant::Integer(9)));
    assert_eq!(
        eval_literal_atom(&Atom::Identifier(InternSymbol(0))),
        None
    );
}

// operator application routes to the category's evaluator; logical operators
// are never applicable to the short-circuit path
#[test]
fn operator_application() {
    assert_eq!(
        apply_binary_op(
            BinaryOp::Arithmetic(Arithmetic::Add),
            &Variant::Integer(2),
            &Variant::Integer(3)
        ),
        Ok(Some(Variant::Integer(5)))
    );
    assert_eq!(
        apply_binary_op(
            BinaryOp::Comparison(Comparison::EQ),
            &Variant::Nil,
            &Variant::Nil
        ),
        Ok(Some(Variant::BoolFalse))
    );
    assert_eq!(
        apply_binary_op(
            BinaryOp::Logical(Logical::And),
            &Variant::BoolTrue,
            &Variant::BoolTrue
        ),
        Ok(None)
    );
    assert_eq!(
        apply_unary_op(UnaryOp::Neg, &Variant::Integer(4)),
        Ok(Some(Variant::Integer(-4)))
    );
    assert_eq!(apply_unary_op(UnaryOp::Neg, &Variant::Nil), Ok(None));
    assert_eq!(
        apply_unary_op(UnaryOp::Not, &Variant::Nil),
        Ok(Some(Variant::BoolTrue))
    );
}

// a non-empty syntax-error list aborts the build before compilation; a clean
// parse compiles, and compile failures map to the compile stage
#[test]
fn build_stage_gating() {
    let syntax = vec![ParserError::new(ErrorKind::EndofTokenStream)];
    let r = build_from_parse(StringInterner::new(), Err(syntax));
    assert!(matches!(r, Err(BuildErrors::Syntax(ref es)) if es.len() == 1));

    let ast = vec![expr_stmt(int_atom(7))];
    let program = build_from_parse(StringInterner::new(), Ok(ast)).unwrap();
    assert_eq!(
        program.bytecode.bytes.as_slice(),
        &[OpCode::LoadConst.to_byte(), 0]
    );

    let bad = vec![expr_stmt(Expr::Atom(Atom::Identifier(InternSymbol(0))))];
    let r = build_from_parse(StringInterner::new(), Ok(bad));
    assert!(matches!(r, Err(BuildErrors::Compile(ref es)) if es.len() == 1));
}
