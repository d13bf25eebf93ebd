//! Bytecode code generator: a deterministic one-pass lowering of a statement
//! sequence into a linear instruction stream plus constant pool.
//!
//! Each top-level statement is compiled independently: a failure in one is
//! recorded and compilation continues with the next, so a failed build
//! reports every error.  Expressions are lowered in postfix order: operands
//! left to right, then the operator's instruction.  Every emitted
//! instruction gets exactly one debug-symbol entry, whatever its encoded
//! width.

use vstd::prelude::*;
use crate::ast::{Arithmetic, Atom, BinaryOp, Bitwise, Comparison, Expr, Logical, Shift, Stmt,
    StmtMeta, UnaryOp};
use crate::chunk::{Chunk, const_pos};
use crate::debug::{DebugSymbol, DebugSymbols};
use crate::errors::{CompileError, CompileErrorKind, CompileResult};
use crate::opcode::OpCode;
use crate::strings::StringInterner;
use crate::variant::Variant;

verus! {

/// A compiled program: the bytecode chunk and its parallel debug-symbol
/// table, one entry per instruction.
#[derive(Debug)]
pub struct Program {
    pub bytecode: Chunk,
    pub symbols: DebugSymbols,
}

impl Program {
    /// The program's bytecode.
    pub fn bytecode(&self) -> (r: &Chunk)
        ensures
            r == self.bytecode,
    {
        &self.bytecode
    }

    /// The program's per-instruction debug symbols.
    pub fn symbols(&self) -> (r: &DebugSymbols)
        ensures
            r == self.symbols,
    {
        &self.symbols
    }
}

impl Default for Program {
    /// An empty program.
    fn default() -> (r: Program)
        ensures
            r.bytecode.bytes@ == Seq::<u8>::empty(),
            r.bytecode.consts@ == Seq::<Variant>::empty(),
            r.bytecode.wf(),
            r.symbols.symbols@ == Seq::<DebugSymbol>::empty(),
    {
        Program { bytecode: Chunk::new(), symbols: DebugSymbols::new() }
    }
}

/// The generator's chunk keeps a well-formed (deduplicated, 16-bit
/// addressable) constant pool.
pub open spec fn generator_wf(g: &CodeGenerator) -> bool {
    g.program.bytecode.wf()
}

/// The earlier stream is a prefix of the later one: compilation only
/// appends.
pub open spec fn seq_extends<T>(o: Seq<T>, n: Seq<T>) -> bool {
    &&& o.len() <= n.len()
    &&& forall|i: int| 0 <= i < o.len() ==> n[i] == o[i]
}

/// What compiling one more fragment did to the generator: bytecode,
/// constants and symbols only grow, and the interner is untouched.
pub open spec fn generator_extends(o: &CodeGenerator, n: &CodeGenerator) -> bool {
    &&& seq_extends(o.program.bytecode.bytes@, n.program.bytecode.bytes@)
    &&& seq_extends(o.program.bytecode.consts@, n.program.bytecode.consts@)
    &&& seq_extends(o.program.symbols.symbols@, n.program.symbols.symbols@)
    &&& n.program.bytecode.strings == o.program.bytecode.strings
}

/// The little-endian bytes of a 16-bit constant-pool index.
pub open spec fn spec_le_bytes(cid: u16) -> (u8, u8) {
    ((cid % 256) as u8, (cid / 256) as u8)
}

/// The instruction a constant load emits: the short form for an index that
/// fits 8 bits, the wide 16-bit form otherwise.
pub open spec fn spec_const_load_bytes(cid: u16) -> Seq<u8> {
    if cid <= u8::MAX {
        seq![OpCode::LoadConst.spec_to_byte(), cid as u8]
    } else {
        seq![
            OpCode::LoadConst16.spec_to_byte(),
            spec_le_bytes(cid).0,
            spec_le_bytes(cid).1,
        ]
    }
}

/// A run of identical per-instruction debug symbols.
pub open spec fn sym_seq(count: nat, sym: DebugSymbol) -> Seq<DebugSymbol> {
    Seq::new(count, |i: int| sym)
}

/// One fragment's emission: the bytes it appends, the constant pool
/// afterwards, how many instructions it emits, and the failure that stopped
/// it, if one did (whatever was emitted before the failure stays).
pub struct EmitOut {
    pub bytes: Seq<u8>,
    pub consts: Seq<Variant>,
    pub instrs: nat,
    pub err: Option<CompileErrorKind>,
}

/// The emission of one constant load against a pool: an equal constant
/// reuses its index, a new one is appended at the back, and the load uses
/// the narrow form exactly when the index fits 8 bits.  A full pool is an
/// internal-limit error that emits nothing.
pub open spec fn spec_emit_const(consts: Seq<Variant>, value: Variant) -> EmitOut {
    if consts.contains(value) {
        EmitOut {
            bytes: spec_const_load_bytes(const_pos(consts, value) as u16),
            consts,
            instrs: 1,
            err: None,
        }
    } else if consts.len() <= u16::MAX {
        EmitOut {
            bytes: spec_const_load_bytes(consts.len() as u16),
            consts: consts.push(value),
            instrs: 1,
            err: None,
        }
    } else {
        EmitOut {
            bytes: Seq::empty(),
            consts,
            instrs: 0,
            err: Some(CompileErrorKind::ConstPoolLimit),
        }
    }
}

/// The emission of a literal atom or group: the four ubiquitous literals
/// are single dedicated instructions without pool access, numeric and
/// string literals go through the pool, a group emits exactly its inner
/// expression, and an identifier (outside the lowering core) fails without
/// emitting.
pub open spec fn spec_compile_atom(consts: Seq<Variant>, atom: Atom) -> EmitOut
    decreases atom,
{
    match atom {
        Atom::Nil => EmitOut {
            bytes: seq![OpCode::Nil.spec_to_byte()],
            consts,
            instrs: 1,
            err: None,
        },
        Atom::EmptyTuple => EmitOut {
            bytes: seq![OpCode::Empty.spec_to_byte()],
            consts,
            instrs: 1,
            err: None,
        },
        Atom::BooleanLiteral(b) => EmitOut {
            bytes: seq![
                (if b {
                    OpCode::True
                } else {
                    OpCode::False
                }).spec_to_byte(),
            ],
            consts,
            instrs: 1,
            err: None,
        },
        Atom::IntegerLiteral(v) => spec_emit_const(consts, Variant::Integer(v)),
        Atom::FloatLiteral(b) => spec_emit_const(consts, Variant::Float(b)),
        Atom::StringLiteral(sym) => spec_emit_const(consts, Variant::InternStr(sym)),
        Atom::Identifier(_) => EmitOut {
            bytes: Seq::empty(),
            consts,
            instrs: 0,
            err: Some(CompileErrorKind::UnsupportedConstruct),
        },
        Atom::Group(e) => spec_compile_expr(consts, *e),
    }
}

/// The emission of an expression, in postfix order: operand subexpressions
/// left to right, then one operator instruction from the operator
/// category's opcode table.  A failing operand stops emission there; a
/// short-circuit logical operator fails before emitting anything.
pub open spec fn spec_compile_expr(consts: Seq<Variant>, expr: Expr) -> EmitOut
    decreases expr,
{
    match expr {
        Expr::Atom(atom) => spec_compile_atom(consts, atom),
        Expr::UnaryOp(op, operand) => {
            let e = spec_compile_expr(consts, *operand);
            if e.err is Some {
                e
            } else {
                EmitOut {
                    bytes: e.bytes.push(spec_unary_opcode(op).spec_to_byte()),
                    consts: e.consts,
                    instrs: e.instrs + 1,
                    err: None,
                }
            }
        },
        Expr::BinaryOp(op, lhs, rhs) => {
            if op is Logical {
                EmitOut {
                    bytes: Seq::empty(),
                    consts,
                    instrs: 0,
                    err: Some(CompileErrorKind::UnsupportedConstruct),
                }
            } else {
                let l = spec_compile_expr(consts, *lhs);
                if l.err is Some {
                    l
                } else {
                    let r = spec_compile_expr(l.consts, *rhs);
                    if r.err is Some {
                        EmitOut {
                            bytes: l.bytes + r.bytes,
                            consts: r.consts,
                            instrs: l.instrs + r.instrs,
                            err: r.err,
                        }
                    } else {
                        EmitOut {
                            bytes: (l.bytes + r.bytes).push(spec_binary_opcode(op).spec_to_byte()),
                            consts: r.consts,
                            instrs: l.instrs + r.instrs + 1,
                            err: None,
                        }
                    }
                }
            }
        },
    }
}

/// The emission of one statement.
pub open spec fn spec_compile_stmt(consts: Seq<Variant>, stmt: Stmt) -> EmitOut {
    match stmt {
        Stmt::Expression(e) => spec_compile_expr(consts, e),
    }
}

/// The generator after emitting fragment `e`, every instruction under the
/// symbol `sym`: bytes and symbols are appended, the pool becomes `e`'s,
/// and the interner and error list are untouched.
pub open spec fn generator_emitted(
    o: &CodeGenerator,
    n: &CodeGenerator,
    e: EmitOut,
    sym: DebugSymbol,
) -> bool {
    &&& n.program.bytecode.bytes@ == o.program.bytecode.bytes@ + e.bytes
    &&& n.program.bytecode.consts@ == e.consts
    &&& n.program.symbols.symbols@ == o.program.symbols.symbols@ + sym_seq(e.instrs, sym)
    &&& n.program.bytecode.strings == o.program.bytecode.strings
    &&& n.errors@ == o.errors@
}

/// The result a fragment's emission produces: `Ok` without a failure, and
/// otherwise the failure's kind under the fragment's symbol.
pub open spec fn emit_result(e: EmitOut, sym: DebugSymbol) -> CompileResult<()> {
    match e.err {
        None => Ok(()),
        Some(k) => Err(CompileError { kind: k, symbol: Some(sym) }),
    }
}

/// The four streams of a generator, for describing whole-sequence
/// compilation.
pub struct GenState {
    pub bytes: Seq<u8>,
    pub consts: Seq<Variant>,
    pub symbols: Seq<DebugSymbol>,
    pub errors: Seq<CompileError>,
}

/// The streams a generator currently holds.
pub open spec fn gen_state(g: &CodeGenerator) -> GenState {
    GenState {
        bytes: g.program.bytecode.bytes@,
        consts: g.program.bytecode.consts@,
        symbols: g.program.symbols.symbols@,
        errors: g.errors@,
    }
}

/// The streams after one statement: its emission is appended under its own
/// symbol; on failure exactly the statement's error joins the list and
/// compilation goes on.
pub open spec fn spec_push_stmt(s: GenState, stmt: StmtMeta) -> GenState {
    let e = spec_compile_stmt(s.consts, stmt.variant);
    GenState {
        bytes: s.bytes + e.bytes,
        consts: e.consts,
        symbols: s.symbols + sym_seq(e.instrs, stmt.symbol),
        errors: match e.err {
            None => s.errors,
            Some(k) => s.errors.push(CompileError { kind: k, symbol: Some(stmt.symbol) }),
        },
    }
}

/// The streams after a whole statement sequence, in order.
pub open spec fn spec_compile_seq(s: GenState, stmts: Seq<StmtMeta>) -> GenState
    decreases stmts.len(),
{
    if stmts.len() == 0 {
        s
    } else {
        spec_compile_seq(spec_push_stmt(s, stmts[0]), stmts.subrange(1, stmts.len() as int))
    }
}

/// Folding one more statement onto a compiled prefix.
pub proof fn lemma_compile_seq_snoc(s: GenState, stmts: Seq<StmtMeta>, last: StmtMeta)
    ensures
        spec_compile_seq(s, stmts.push(last)) == spec_push_stmt(
            spec_compile_seq(s, stmts),
            last,
        ),
    decreases stmts.len(),
{
    let pushed = stmts.push(last);
    if stmts.len() == 0 {
        let tail = pushed.subrange(1, 1);
        assert(pushed[0] == last);
        assert(tail =~= Seq::<StmtMeta>::empty());
        assert(spec_compile_seq(s, pushed) == spec_compile_seq(spec_push_stmt(s, last), tail));
        assert(spec_compile_seq(spec_push_stmt(s, last), tail) == spec_push_stmt(s, last));
        assert(spec_compile_seq(s, stmts) == s);
    } else {
        let tail0 = stmts.subrange(1, stmts.len() as int);
        let tail = pushed.subrange(1, pushed.len() as int);
        assert(pushed[0] == stmts[0]);
        assert(tail =~= tail0.push(last));
        lemma_compile_seq_snoc(spec_push_stmt(s, stmts[0]), tail0, last);
        assert(spec_compile_seq(s, pushed) == spec_compile_seq(
            spec_push_stmt(s, stmts[0]),
            tail,
        ));
        assert(spec_compile_seq(spec_push_stmt(s, stmts[0]), tail) == spec_compile_seq(
            spec_push_stmt(s, stmts[0]),
            tail0.push(last),
        ));
        assert(spec_compile_seq(s, stmts) == spec_compile_seq(spec_push_stmt(s, stmts[0]), tail0));
    }
}

/// The code generator: the program being built and the compile errors
/// accumulated so far.
#[derive(Debug)]
pub struct CodeGenerator {
    pub program: Program,
    pub errors: Vec<CompileError>,
}

impl CodeGenerator {
    /// A fresh generator with an empty program and an empty interner.
    pub fn new() -> (r: CodeGenerator)
        ensures
            generator_wf(&r),
            r.program.bytecode.bytes@ == Seq::<u8>::empty(),
            r.program.bytecode.consts@ == Seq::<Variant>::empty(),
            r.program.symbols.symbols@ == Seq::<DebugSymbol>::empty(),
            r.errors@ == Seq::<CompileError>::empty(),
    {
        CodeGenerator { program: Program::default(), errors: Vec::new() }
    }

    /// A fresh generator around an existing interner (the compiler extends
    /// it and finally embeds it in the output chunk).
    pub fn with_strings(strings: StringInterner) -> (r: CodeGenerator)
        ensures
            generator_wf(&r),
            r.program.bytecode.bytes@ == Seq::<u8>::empty(),
            r.program.bytecode.consts@ == Seq::<Variant>::empty(),
            r.program.bytecode.strings == strings,
            r.program.symbols.symbols@ == Seq::<DebugSymbol>::empty(),
            r.errors@ == Seq::<CompileError>::empty(),
    {
        let program = Program { bytecode: Chunk::with_strings(strings), symbols: DebugSymbols::new() };
        CodeGenerator { program, errors: Vec::new() }
    }

    /// Compiles a whole statement sequence, in order.  Every statement is
    /// attempted (a failure never aborts its siblings); the result is the
    /// compiled program exactly when no statement failed, and otherwise the
    /// errors of the failing statements, in statement order.
    #[verifier::rlimit(50)]
    #[verifier::spinoff_prover]
    pub fn compile_program(self, program: &Vec<StmtMeta>) -> (r: Result<Program, Vec<CompileError>>)
        requires
            generator_wf(&self),
        ensures
            ({
                let fin = spec_compile_seq(gen_state(&self), program@);
                match r {
                    Ok(p) => {
                        &&& fin.errors.len() == 0
                        &&& p.bytecode.bytes@ == fin.bytes
                        &&& p.bytecode.consts@ == fin.consts
                        &&& p.symbols.symbols@ == fin.symbols
                        &&& p.bytecode.strings == self.program.bytecode.strings
                        &&& p.bytecode.wf()
                    },
                    Err(es) => fin.errors.len() > 0 && es@ == fin.errors,
                }
            }),
    {
        let mut this = self;
        let ghost init = gen_state(&this);
        let ghost init_strings = this.program.bytecode.strings;
        let n = program.len();
        let mut i: usize = 0;
        while i < n
            invariant
                i <= n,
                n == program@.len(),
                generator_wf(&this),
                this.program.bytecode.strings == init_strings,
                gen_state(&this) == spec_compile_seq(init, program@.subrange(0, i as int)),
            decreases n - i,
        {
            let ghost prefix = program@.subrange(0, i as int);
            this.push_stmt(&program[i]);
            proof {
                lemma_compile_seq_snoc(init, prefix, program@[i as int]);
                assert(program@.subrange(0, i + 1) =~= prefix.push(program@[i as int]));
            }
            i += 1;
        }
        proof {
            assert(program@.subrange(0, n as int) =~= program@);
        }
        this.finish()
    }

    /// Yields the program exactly when the accumulated error list is empty,
    /// and the error list otherwise.
    pub fn finish(self) -> (r: Result<Program, Vec<CompileError>>)
        ensures
            match r {
                Ok(p) => self.errors@.len() == 0 && p == self.program,
                Err(es) => self.errors@.len() > 0 && es == self.errors,
            },
    {
        if self.errors.len() == 0 {
            Ok(self.program)
        } else {
            Err(self.errors)
        }
    }

    /// Compiles one statement; a failure is recorded in the error list, with
    /// the failing statement's error and nothing else, and does not abort
    /// compilation of later statements.
    pub fn push_stmt(&mut self, stmt: &StmtMeta)
        requires
            generator_wf(old(self)),
        ensures
            generator_wf(final(self)),
            final(self).program.bytecode.strings == old(self).program.bytecode.strings,
            gen_state(final(self)) == spec_push_stmt(gen_state(old(self)), *stmt),
    {
        let result = self.compile_stmt(stmt.debug_symbol(), stmt.variant());
        match result {
            Ok(()) => {},
            Err(error) => {
                self.errors.push(error);
            },
        }
        proof {
            assert(gen_state(final(self)) == spec_push_stmt(gen_state(old(self)), *stmt)) by {
                let e = spec_compile_stmt(old(self).program.bytecode.consts@, stmt.variant);
                assert(spec_push_stmt(gen_state(old(self)), *stmt).bytes == old(
                    self,
                ).program.bytecode.bytes@ + e.bytes);
            }
        }
    }

    /// Emits a zero-operand instruction with its debug symbol.
    fn emit_instr(&mut self, symbol: &DebugSymbol, opcode: OpCode) -> (r: CompileResult<()>)
        requires
            generator_wf(old(self)),
            opcode.spec_instr_len() == 1,
        ensures
            generator_wf(final(self)),
            final(self).program.bytecode.bytes@ == old(self).program.bytecode.bytes@.push(
                opcode.spec_to_byte(),
            ),
            final(self).program.bytecode.consts@ == old(self).program.bytecode.consts@,
            final(self).program.bytecode.strings == old(self).program.bytecode.strings,
            final(self).program.symbols.symbols@ == old(self).program.symbols.symbols@.push(
                *symbol,
            ),
            final(self).errors@ == old(self).errors@,
            r == Ok::<(), CompileError>(()),
    {
        self.program.symbols.push(symbol);
        self.program.bytecode.push_byte(opcode.to_byte());
        Ok(())
    }

    /// Emits an instruction with one literal operand byte.
    fn emit_single(&mut self, symbol: &DebugSymbol, opcode: OpCode, byte: u8) -> (r: CompileResult<
        (),
    >)
        requires
            generator_wf(old(self)),
            opcode.spec_instr_len() == 2,
        ensures
            generator_wf(final(self)),
            final(self).program.bytecode.bytes@ == old(self).program.bytecode.bytes@.push(
                opcode.spec_to_byte(),
            ).push(byte),
            final(self).program.bytecode.consts@ == old(self).program.bytecode.consts@,
            final(self).program.bytecode.strings == old(self).program.bytecode.strings,
            final(self).program.symbols.symbols@ == old(self).program.symbols.symbols@.push(
                *symbol,
            ),
            final(self).errors@ == old(self).errors@,
            r == Ok::<(), CompileError>(()),
    {
        self.program.symbols.push(symbol);
        self.program.bytecode.push_byte(opcode.to_byte());
        self.program.bytecode.push_byte(byte);
        Ok(())
    }

    /// Emits an instruction with two literal operand bytes.
    fn emit_multi(&mut self, symbol: &DebugSymbol, opcode: OpCode, bytes: [u8; 2]) -> (r:
        CompileResult<()>)
        requires
            generator_wf(old(self)),
            opcode.spec_instr_len() == 3,
        ensures
            generator_wf(final(self)),
            final(self).program.bytecode.bytes@ == old(self).program.bytecode.bytes@.push(
                opcode.spec_to_byte(),
            ).push(bytes[0]).push(bytes[1]),
            final(self).program.bytecode.consts@ == old(self).program.bytecode.consts@,
            final(self).program.bytecode.strings == old(self).program.bytecode.strings,
            final(self).program.symbols.symbols@ == old(self).program.symbols.symbols@.push(
                *symbol,
            ),
            final(self).errors@ == old(self).errors@,
            r == Ok::<(), CompileError>(()),
    {
        self.program.symbols.push(symbol);
        self.program.bytecode.push_byte(opcode.to_byte());
        self.program.bytecode.extend_bytes2(bytes);
        Ok(())
    }

    /// Routes a literal through the constant pool and emits its load: the
    /// short 8-bit form when the index fits one byte, the wide 16-bit form
    /// otherwise.  A pool that would outgrow its index width is an
    /// internal-limit error carrying the triggering symbol.
    #[verifier::rlimit(50)]
    #[verifier::spinoff_prover]
    fn emit_const(&mut self, symbol: &DebugSymbol, value: Variant) -> (r: CompileResult<()>)
        requires
            generator_wf(old(self)),
        ensures
            generator_wf(final(self)),
            generator_emitted(
                old(self),
                final(self),
                spec_emit_const(old(self).program.bytecode.consts@, value),
                *symbol,
            ),
            r == emit_result(spec_emit_const(old(self).program.bytecode.consts@, value), *symbol),
    {
        let ghost old_consts = self.program.bytecode.consts@;
        let cid = match self.program.bytecode.push_const(value) {
            Ok(cid) => cid,
            Err(error) => {
                proof {
                    assert(final(self).program.bytecode.bytes@ =~= old(
                        self,
                    ).program.bytecode.bytes@ + Seq::<u8>::empty());
                    assert(final(self).program.symbols.symbols@ =~= old(
                        self,
                    ).program.symbols.symbols@ + sym_seq(0, *symbol));
                }
                return Err(error.with_symbol(*symbol));
            },
        };
        proof {
            if old_consts.contains(value) {
                crate::chunk::lemma_const_pos_unique(old_consts, value, cid as int);
            } else {
                assert(old_consts.len() <= u16::MAX);
            }
        }
        if cid <= u8::MAX as u16 {
            let r = self.emit_single(symbol, OpCode::LoadConst, cid as u8);
            proof {
                assert(final(self).program.bytecode.bytes@ =~= old(
                    self,
                ).program.bytecode.bytes@ + spec_const_load_bytes(cid));
                assert(final(self).program.symbols.symbols@ =~= old(
                    self,
                ).program.symbols.symbols@ + sym_seq(1, *symbol));
            }
            r
        } else {
            let lo = (cid % 256) as u8;
            let hi = (cid / 256) as u8;
            let r = self.emit_multi(symbol, OpCode::LoadConst16, [lo, hi]);
            proof {
                assert(final(self).program.bytecode.bytes@ =~= old(
                    self,
                ).program.bytecode.bytes@ + spec_const_load_bytes(cid));
                assert(final(self).program.symbols.symbols@ =~= old(
                    self,
                ).program.symbols.symbols@ + sym_seq(1, *symbol));
            }
            r
        }
    }

    /// Compiles one statement.
    fn compile_stmt(&mut self, symbol: &DebugSymbol, stmt: &Stmt) -> (r: CompileResult<()>)
        requires
            generator_wf(old(self)),
        ensures
            generator_wf(final(self)),
            generator_emitted(
                old(self),
                final(self),
                spec_compile_stmt(old(self).program.bytecode.consts@, *stmt),
                *symbol,
            ),
            r == emit_result(
                spec_compile_stmt(old(self).program.bytecode.consts@, *stmt),
                *symbol,
            ),
    {
        match stmt {
            Stmt::Expression(expr) => self.compile_expr(symbol, expr),
        }
    }

    /// Compiles an expression in postfix order: operand subexpressions left
    /// to right, then the operator's instruction.
    #[verifier::rlimit(50)]
    #[verifier::spinoff_prover]
    fn compile_expr(&mut self, symbol: &DebugSymbol, expr: &Expr) -> (r: CompileResult<()>)
        requires
            generator_wf(old(self)),
        ensures
            generator_wf(final(self)),
            generator_emitted(
                old(self),
                final(self),
                spec_compile_expr(old(self).program.bytecode.consts@, *expr),
                *symbol,
            ),
            r == emit_result(
                spec_compile_expr(old(self).program.bytecode.consts@, *expr),
                *symbol,
            ),
        decreases expr,
    {
        match expr {
            Expr::Atom(atom) => {
                let r = self.compile_atom(symbol, atom);
                proof {
                    assert(spec_compile_expr(old(self).program.bytecode.consts@, *expr)
                        == spec_compile_atom(old(self).program.bytecode.consts@, *atom));
                    assert(r == emit_result(
                        spec_compile_atom(old(self).program.bytecode.consts@, *atom),
                        *symbol,
                    ));
                    assert(r == emit_result(
                        spec_compile_expr(old(self).program.bytecode.consts@, *expr),
                        *symbol,
                    ));
                }
                r
            },
            Expr::UnaryOp(op, operand) => {
                match self.compile_expr(symbol, operand) {
                    Ok(()) => {},
                    Err(e) => {
                        return Err(e);
                    },
                }
                let r = self.compile_unary_op(symbol, op);
                proof {
                    let c = old(self).program.bytecode.consts@;
                    let e1 = spec_compile_expr(c, **operand);
                    let e = spec_compile_expr(c, *expr);
                    assert(e.bytes == e1.bytes.push(spec_unary_opcode(*op).spec_to_byte()));
                    assert(e.consts == e1.consts);
                    assert(e.instrs == e1.instrs + 1);
                    assert(e.err is None);
                    assert(final(self).program.bytecode.bytes@ =~= old(
                        self,
                    ).program.bytecode.bytes@ + e1.bytes.push(
                        spec_unary_opcode(*op).spec_to_byte(),
                    ));
                    assert(final(self).program.symbols.symbols@ =~= old(
                        self,
                    ).program.symbols.symbols@ + sym_seq(e1.instrs + 1, *symbol));
                    assert(generator_emitted(old(self), final(self), e, *symbol));
                    assert(r == emit_result(e, *symbol));
                }
                r
            },
            Expr::BinaryOp(op, lhs, rhs) => {
                match op {
                    BinaryOp::Logical(_) => {
                        proof {
                            assert(final(self).program.bytecode.bytes@ =~= old(
                                self,
                            ).program.bytecode.bytes@ + Seq::<u8>::empty());
                            assert(final(self).program.symbols.symbols@ =~= old(
                                self,
                            ).program.symbols.symbols@ + sym_seq(0, *symbol));
                        }
                        return Err(
                            CompileError::new(
                                CompileErrorKind::UnsupportedConstruct,
                            ).with_symbol(*symbol),
                        );
                    },
                    _ => {},
                }
                match self.compile_expr(symbol, lhs) {
                    Ok(()) => {},
                    Err(e) => {
                        return Err(e);
                    },
                }
                match self.compile_expr(symbol, rhs) {
                    Ok(()) => {},
                    Err(e) => {
                        proof {
                            let l = spec_compile_expr(
                                old(self).program.bytecode.consts@,
                                **lhs,
                            );
                            let r2 = spec_compile_expr(l.consts, **rhs);
                            assert(final(self).program.bytecode.bytes@ =~= old(
                                self,
                            ).program.bytecode.bytes@ + (l.bytes + r2.bytes));
                            assert(final(self).program.symbols.symbols@ =~= old(
                                self,
                            ).program.symbols.symbols@ + sym_seq(
                                l.instrs + r2.instrs,
                                *symbol,
                            ));
                        }
                        return Err(e);
                    },
                }
                let r = self.compile_binary_op(symbol, op);
                proof {
                    let c = old(self).program.bytecode.consts@;
                    let l = spec_compile_expr(c, **lhs);
                    let r2 = spec_compile_expr(l.consts, **rhs);
                    let e = spec_compile_expr(c, *expr);
                    assert(e.bytes == (l.bytes + r2.bytes).push(
                        spec_binary_opcode(*op).spec_to_byte(),
                    ));
                    assert(e.consts == r2.consts);
                    assert(e.instrs == l.instrs + r2.instrs + 1);
                    assert(e.err is None);
                    assert(final(self).program.bytecode.bytes@ =~= old(
                        self,
                    ).program.bytecode.bytes@ + (l.bytes + r2.bytes).push(
                        spec_binary_opcode(*op).spec_to_byte(),
                    ));
                    assert(final(self).program.symbols.symbols@ =~= old(
                        self,
                    ).program.symbols.symbols@ + sym_seq(l.instrs + r2.instrs + 1, *symbol));
                    assert(generator_emitted(old(self), final(self), e, *symbol));
                    assert(r == emit_result(e, *symbol));
                }
                r
            },
        }
    }

    /// Compiles a literal atom or group.  The four ubiquitous literals get
    /// dedicated zero-operand opcodes; integer, float and string literals go
    /// through the constant pool; a group compiles to exactly its inner
    /// expression; an identifier is outside the supported lowering core and
    /// is reported as a compile error.
    #[verifier::rlimit(50)]
    #[verifier::spinoff_prover]
    fn compile_atom(&mut self, symbol: &DebugSymbol, atom: &Atom) -> (r: CompileResult<()>)
        requires
            generator_wf(old(self)),
        ensures
            generator_wf(final(self)),
            generator_emitted(
                old(self),
                final(self),
                spec_compile_atom(old(self).program.bytecode.consts@, *atom),
                *symbol,
            ),
            r == emit_result(
                spec_compile_atom(old(self).program.bytecode.consts@, *atom),
                *symbol,
            ),
        decreases atom,
    {
        let ghost old_consts = self.program.bytecode.consts@;
        let r = match atom {
            Atom::Nil => self.emit_instr(symbol, OpCode::Nil),
            Atom::EmptyTuple => self.emit_instr(symbol, OpCode::Empty),
            Atom::BooleanLiteral(b) => {
                if *b {
                    self.emit_instr(symbol, OpCode::True)
                } else {
                    self.emit_instr(symbol, OpCode::False)
                }
            },
            Atom::IntegerLiteral(value) => {
                let r = self.emit_const(symbol, Variant::Integer(*value));
                proof {
                    assert(spec_compile_atom(old_consts, *atom) == spec_emit_const(
                        old_consts,
                        Variant::Integer(*value),
                    ));
                }
                r
            },
            Atom::FloatLiteral(bits) => {
                let r = self.emit_const(symbol, Variant::Float(*bits));
                proof {
                    assert(spec_compile_atom(old_consts, *atom) == spec_emit_const(
                        old_consts,
                        Variant::Float(*bits),
                    ));
                }
                r
            },
            Atom::StringLiteral(sym) => {
                let r = self.emit_const(symbol, Variant::InternStr(*sym));
                proof {
                    assert(spec_compile_atom(old_consts, *atom) == spec_emit_const(
                        old_consts,
                        Variant::InternStr(*sym),
                    ));
                }
                r
            },
            Atom::Identifier(_) => Err(
                CompileError::new(CompileErrorKind::UnsupportedConstruct).with_symbol(*symbol),
            ),
            Atom::Group(expr) => {
                let r = self.compile_expr(symbol, expr);
                proof {
                    assert(spec_compile_atom(old_consts, *atom) == spec_compile_expr(
                        old_consts,
                        **expr,
                    ));
                }
                r
            },
        };
        proof {
            let e = spec_compile_atom(old(self).program.bytecode.consts@, *atom);
            match *atom {
                Atom::Nil | Atom::EmptyTuple | Atom::BooleanLiteral(_) => {
                    assert(final(self).program.bytecode.bytes@ =~= old(
                        self,
                    ).program.bytecode.bytes@ + e.bytes);
                    assert(final(self).program.symbols.symbols@ =~= old(
                        self,
                    ).program.symbols.symbols@ + sym_seq(1, *symbol));
                },
                Atom::Identifier(_) => {
                    assert(final(self).program.bytecode.bytes@ =~= old(
                        self,
                    ).program.bytecode.bytes@ + Seq::<u8>::empty());
                    assert(final(self).program.symbols.symbols@ =~= old(
                        self,
                    ).program.symbols.symbols@ + sym_seq(0, *symbol));
                },
                _ => {},
            }
        }
        r
    }

    /// Emits the operator instruction of a unary operation (its operand is
    /// already compiled, in postfix discipline).
    fn compile_unary_op(&mut self, symbol: &DebugSymbol, op: &UnaryOp) -> (r: CompileResult<()>)
        requires
            generator_wf(old(self)),
        ensures
            generator_wf(final(self)),
            generator_extends(old(self), final(self)),
            final(self).errors@ == old(self).errors@,
            final(self).program.bytecode.consts@ == old(self).program.bytecode.consts@,
            final(self).program.bytecode.strings == old(self).program.bytecode.strings,
            r == Ok::<(), CompileError>(()),
            final(self).program.bytecode.bytes@ == old(self).program.bytecode.bytes@.push(
                spec_unary_opcode(*op).spec_to_byte(),
            ),
            final(self).program.symbols.symbols@ == old(self).program.symbols.symbols@.push(
                *symbol,
            ),
    {
        let r = match op {
            UnaryOp::Neg => self.emit_instr(symbol, OpCode::Neg),
            UnaryOp::Pos => self.emit_instr(symbol, OpCode::Pos),
            UnaryOp::Inv => self.emit_instr(symbol, OpCode::Inv),
            UnaryOp::Not => self.emit_instr(symbol, OpCode::Not),
        };
        r
    }

    /// Emits the operator instruction of a binary operation (its operands
    /// are already compiled, in postfix discipline); the operator category
    /// selects the opcode table.  Short-circuit logical operators need jump
    /// lowering that is outside the supported core, and are reported as
    /// compile errors.
    fn compile_binary_op(&mut self, symbol: &DebugSymbol, op: &BinaryOp) -> (r: CompileResult<()>)
        requires
            generator_wf(old(self)),
        ensures
            generator_wf(final(self)),
            generator_extends(old(self), final(self)),
            final(self).errors@ == old(self).errors@,
            final(self).program.bytecode.consts@ == old(self).program.bytecode.consts@,
            final(self).program.bytecode.strings == old(self).program.bytecode.strings,
            *op !is Logical ==> r == Ok::<(), CompileError>(()),
            match r {
                Ok(()) => {
                    &&& *op !is Logical
                    &&& final(self).program.bytecode.bytes@ == old(
                        self,
                    ).program.bytecode.bytes@.push(spec_binary_opcode(*op).spec_to_byte())
                    &&& final(self).program.symbols.symbols@ == old(
                        self,
                    ).program.symbols.symbols@.push(*symbol)
                },
                Err(e) => {
                    &&& *op is Logical
                    &&& e == (CompileError {
                        kind: CompileErrorKind::UnsupportedConstruct,
                        symbol: Some(*symbol),
                    })
                    &&& final(self).program.bytecode.bytes@ == old(self).program.bytecode.bytes@
                    &&& final(self).program.symbols.symbols@ == old(self).program.symbols.symbols@
                },
            },
    {
        let r = match op {
            BinaryOp::Logical(_) => {
                return Err(
                    CompileError::new(CompileErrorKind::UnsupportedConstruct).with_symbol(*symbol),
                );
            },
            BinaryOp::Arithmetic(a) => match a {
                Arithmetic::Mul => self.emit_instr(symbol, OpCode::Mul),
                Arithmetic::Div => self.emit_instr(symbol, OpCode::Div),
                Arithmetic::Mod => self.emit_instr(symbol, OpCode::Mod),
                Arithmetic::Add => self.emit_instr(symbol, OpCode::Add),
                Arithmetic::Sub => self.emit_instr(symbol, OpCode::Sub),
            },
            BinaryOp::Bitwise(b) => match b {
                Bitwise::And => self.emit_instr(symbol, OpCode::And),
                Bitwise::Xor => self.emit_instr(symbol, OpCode::Xor),
                Bitwise::Or => self.emit_instr(symbol, OpCode::Or),
            },
            BinaryOp::Shift(sh) => match sh {
                Shift::Left => self.emit_instr(symbol, OpCode::Shl),
                Shift::Right => self.emit_instr(symbol, OpCode::Shr),
            },
            BinaryOp::Comparison(c) => match c {
                Comparison::LT => self.emit_instr(symbol, OpCode::LT),
                Comparison::GT => self.emit_instr(symbol, OpCode::GT),
                Comparison::LE => self.emit_instr(symbol, OpCode::LE),
                Comparison::GE => self.emit_instr(symbol, OpCode::GE),
                Comparison::EQ => self.emit_instr(symbol, OpCode::EQ),
                Comparison::NE => self.emit_instr(symbol, OpCode::NE),
            },
        };
        r
    }

    /// Records a forward jump whose target is not yet known: emits the jump
    /// opcode with a placeholder operand and returns its site for patching.
    pub fn emit_dummy_jump(&mut self, symbol: &DebugSymbol, opcode: OpCode) -> (r: crate::chunk::JumpSite)
        requires
            generator_wf(old(self)),
            opcode.spec_instr_len() == 3,
        ensures
            generator_wf(final(self)),
            r.offset == old(self).program.bytecode.bytes@.len(),
            final(self).program.bytecode.bytes@ == old(self).program.bytecode.bytes@.push(
                opcode.spec_to_byte(),
            ).push(0).push(0),
            final(self).program.bytecode.consts@ == old(self).program.bytecode.consts@,
            final(self).program.bytecode.strings == old(self).program.bytecode.strings,
            final(self).program.symbols.symbols@ == old(self).program.symbols.symbols@.push(
                *symbol,
            ),
            final(self).errors@ == old(self).errors@,
    {
        let offset = self.program.bytecode.len();
        let _ = self.emit_multi(symbol, opcode, [0, 0]);
        crate::chunk::JumpSite { offset }
    }

    /// Patches a recorded jump site with its now-known 16-bit target,
    /// little endian.
    pub fn patch_jump(&mut self, site: crate::chunk::JumpSite, target: u16)
        requires
            generator_wf(old(self)),
            site.offset + 3 <= old(self).program.bytecode.bytes@.len(),
        ensures
            generator_wf(final(self)),
            final(self).program.bytecode.bytes@ == old(self).program.bytecode.bytes@.update(
                site.offset + 1,
                spec_le_bytes(target).0,
            ).update(site.offset + 2, spec_le_bytes(target).1),
            final(self).program.bytecode.consts@ == old(self).program.bytecode.consts@,
            final(self).program.bytecode.strings == old(self).program.bytecode.strings,
            final(self).program.symbols.symbols@ == old(self).program.symbols.symbols@,
            final(self).errors@ == old(self).errors@,
    {
        let lo = (target % 256) as u8;
        let hi = (target / 256) as u8;
        let n = self.program.bytecode.len();
        assert(site.offset + 3 <= n);
        self.program.bytecode.patch_bytes2(site.offset + 1, [lo, hi]);
    }
}

/// The opcode a unary operator lowers to.
pub open spec fn spec_unary_opcode(op: UnaryOp) -> OpCode {
    match op {
        UnaryOp::Neg => OpCode::Neg,
        UnaryOp::Pos => OpCode::Pos,
        UnaryOp::Inv => OpCode::Inv,
        UnaryOp::Not => OpCode::Not,
    }
}

/// The opcode a non-logical binary operator lowers to.
pub open spec fn spec_binary_opcode(op: BinaryOp) -> OpCode {
    match op {
        BinaryOp::Logical(_) => OpCode::Nil,
        BinaryOp::Arithmetic(a) => match a {
            Arithmetic::Mul => OpCode::Mul,
            Arithmetic::Div => OpCode::Div,
            Arithmetic::Mod => OpCode::Mod,
            Arithmetic::Add => OpCode::Add,
            Arithmetic::Sub => OpCode::Sub,
        },
        BinaryOp::Bitwise(b) => match b {
            Bitwise::And => OpCode::And,
            Bitwise::Xor => OpCode::Xor,
            Bitwise::Or => OpCode::Or,
        },
        BinaryOp::Shift(sh) => match sh {
            Shift::Left => OpCode::Shl,
            Shift::Right => OpCode::Shr,
        },
        BinaryOp::Comparison(c) => match c {
            Comparison::LT => OpCode::LT,
            Comparison::GT => OpCode::GT,
            Comparison::LE => OpCode::LE,
            Comparison::GE => OpCode::GE,
            Comparison::EQ => OpCode::EQ,
            Comparison::NE => OpCode::NE,
        },
    }
}

} // verus!
