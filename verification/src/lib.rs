//! A compiler front end for a minimal subset of C: it turns source text into
//! tokens, tokens into a source-language syntax tree, the tree into a
//! target-instruction tree, and that into assembly text for an external
//! assembler. Data flows strictly forward; each stage fully consumes its
//! input and fully produces its output before the next stage starts.

pub mod assembling;
pub mod assembly_ast;
pub mod c_ast;
pub mod chars;
pub mod decimal;
pub mod emitting;
pub mod lexer;
pub mod parsing;
pub mod printing;

use vstd::prelude::*;

use crate::assembling::Assembler;
use crate::assembling::AssemblerError;
use crate::assembling::spec_assemble_stmt;
use crate::emitting::EmitError;
use crate::emitting::Emitter;
use crate::emitting::spec_emit_instr;
use crate::lexer::Lexer;
use crate::lexer::LexerError;
use crate::lexer::spec_tokenize;
use crate::parsing::Parser;
use crate::parsing::SyntaxError;
use crate::parsing::spec_parse;

verus! {

/// Failure of a compilation: the failing stage's own error. No stage catches
/// or recovers from another stage's error.
#[derive(Clone, Copy, Debug, PartialEq, Eq, Structural)]
pub enum CompileError {
    Lex(LexerError),
    Parse(SyntaxError),
    Lower(AssemblerError),
    Emit(EmitError),
}

/// The assembly text of a source text: tokenized, parsed, lowered and
/// emitted; or the error of the first stage that rejects it.
pub open spec fn spec_compile(s: Seq<char>) -> Result<Seq<char>, CompileError> {
    match spec_tokenize(s, 0) {
        None => Err(CompileError::Lex(LexerError::UnknownToken)),
        Some(toks) => match spec_parse(toks) {
            Err(e) => Err(CompileError::Parse(e)),
            Ok(ast) => match spec_assemble_stmt(ast) {
                Err(e) => Err(CompileError::Lower(e)),
                Ok(iv) => match spec_emit_instr(iv) {
                    Some(t) => Ok(t),
                    None => Err(CompileError::Emit(EmitError::InvalidFunctionName)),
                },
            },
        },
    }
}

/// Compiling the same source text twice yields byte-identical emitted
/// assembly text: every stage's result, and so the whole compilation's, is a
/// function of the source text alone.
pub proof fn lemma_compile_deterministic(
    s: Seq<char>,
    r1: Result<Seq<char>, CompileError>,
    r2: Result<Seq<char>, CompileError>,
)
    requires
        r1 == spec_compile(s),
        r2 == spec_compile(s),
    ensures
        r1 == r2,
{
}

/// Runs the whole pipeline on one source text: text to tokens to source
/// syntax tree to instruction tree to assembly text.
pub fn compile(source: String) -> (r: Result<String, CompileError>)
    ensures
        match spec_compile(source@) {
            Ok(t) => r matches Ok(s) && s@ == t,
            Err(e) => r == Err::<String, CompileError>(e),
        },
{
    let mut lexer = Lexer::new(source);
    let tokens = match lexer.tokenize() {
        Ok(t) => t,
        Err(e) => {
            return Err(CompileError::Lex(e));
        },
    };
    let mut parser = Parser::new(tokens);
    let program_ast = match parser.parse() {
        Ok(a) => a,
        Err(e) => {
            return Err(CompileError::Parse(e));
        },
    };
    let assembler = Assembler::new();
    let assembly_ast = match assembler.assemble(program_ast) {
        Ok(x) => x,
        Err(e) => {
            return Err(CompileError::Lower(e));
        },
    };
    let mut emitter = Emitter::new();
    match emitter.emit_str(assembly_ast) {
        Ok(s) => {
            proof {
                let t = spec_compile(source@)->Ok_0;
                assert(Seq::<char>::empty() + t =~= t);
            }
            Ok(s)
        },
        Err(e) => Err(CompileError::Emit(e)),
    }
}

} // verus!
