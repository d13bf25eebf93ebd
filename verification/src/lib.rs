//! Execution core of a dynamically-typed scripting language: runtime value
//! model with a tracing garbage collector, short-circuit operator dispatch,
//! lexical scope and upvalue resolution, and a bytecode code generator.

use vstd::prelude::*;

pub mod ast;
pub mod chunk;
pub mod codegen;
pub mod debug;
pub mod errors;
pub mod eval;
pub mod opcode;
pub mod parser;
pub mod scope;
pub mod float;
pub mod gc;
pub mod lexer;
pub mod ops;
pub mod strings;
pub mod variant;

pub use variant::Variant;

use ast::StmtMeta;
use codegen::{CodeGenerator, Program, generator_wf};
use errors::CompileError;
use parser::ParserError;
use strings::StringInterner;

verus! {

/// Why a build failed, by stage: reading the source, parsing it, or
/// compiling the parsed program.
#[derive(Debug)]
pub enum BuildErrors {
    /// The source could not be read.
    Source(String),
    /// The parser reported errors; a non-empty syntax-error list aborts the
    /// compile stage unconditionally.
    Syntax(Vec<ParserError>),
    /// The compiler reported errors, accumulated over every statement.
    Compile(Vec<CompileError>),
}

/// Produces bytecode from a parsed program: compiles every statement, in
/// order, and yields the program exactly when no statement failed, and the
/// full error list otherwise.  The interner is moved into the compiler and,
/// on success, embedded in the produced program's chunk.
pub fn compile_ast(interner: StringInterner, ast: &Vec<StmtMeta>) -> (r: Result<
    Program,
    Vec<CompileError>,
>)
    ensures
        ({
            let fin = codegen::spec_compile_seq(
                (codegen::GenState {
                    bytes: Seq::<u8>::empty(),
                    consts: Seq::<Variant>::empty(),
                    symbols: Seq::<crate::debug::DebugSymbol>::empty(),
                    errors: Seq::<CompileError>::empty(),
                }),
                ast@,
            );
            match r {
                Ok(p) => {
                    &&& fin.errors.len() == 0
                    &&& p.bytecode.bytes@ == fin.bytes
                    &&& p.bytecode.consts@ == fin.consts
                    &&& p.symbols.symbols@ == fin.symbols
                    &&& p.bytecode.strings == interner
                    &&& p.bytecode.wf()
                },
                Err(es) => fin.errors.len() > 0 && es@ == fin.errors,
            }
        }),
{
    let compiler = CodeGenerator::with_strings(interner);
    proof {
        assert(generator_wf(&compiler));
    }
    compiler.compile_program(ast)
}

/// Runs the compile stage of a build on what the parse stage produced: a
/// non-empty syntax-error list aborts the build unconditionally (compilation
/// is never attempted), and otherwise the program is compiled with compile
/// failures reported per statement.
pub fn build_from_parse(
    interner: StringInterner,
    parsed: Result<Vec<StmtMeta>, Vec<ParserError>>,
) -> (r: Result<Program, BuildErrors>)
    ensures
        ({
            match parsed {
                Err(syntax) => r matches Err(b) && b matches BuildErrors::Syntax(es) && es@
                    == syntax@,
                Ok(ast) => {
                    let fin = codegen::spec_compile_seq(
                        (codegen::GenState {
                            bytes: Seq::<u8>::empty(),
                            consts: Seq::<Variant>::empty(),
                            symbols: Seq::<crate::debug::DebugSymbol>::empty(),
                            errors: Seq::<CompileError>::empty(),
                        }),
                        ast@,
                    );
                    match r {
                        Ok(p) => {
                            &&& fin.errors.len() == 0
                            &&& p.bytecode.bytes@ == fin.bytes
                            &&& p.bytecode.consts@ == fin.consts
                            &&& p.symbols.symbols@ == fin.symbols
                            &&& p.bytecode.strings == interner
                            &&& p.bytecode.wf()
                        },
                        Err(b) => b matches BuildErrors::Compile(es) && fin.errors.len() > 0
                            && es@ == fin.errors,
                    }
                },
            }
        }),
{
    let ast = match parsed {
        Err(syntax) => {
            return Err(BuildErrors::Syntax(syntax));
        },
        Ok(ast) => ast,
    };
    match compile_ast(interner, &ast) {
        Ok(program) => Ok(program),
        Err(errors) => Err(BuildErrors::Compile(errors)),
    }
}

/// Width of the fixed-size signed integers of the language.
pub fn int_type_bits() -> (r: u32)
    ensures
        r == 64,
{
    64
}

} // verus!
