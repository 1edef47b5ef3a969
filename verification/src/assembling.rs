//! The lowering stage: a pure structural recursion from the source syntax
//! tree to the target-instruction tree. It selects instructions and assigns
//! operands; the only register used is the fixed 32-bit return-value
//! register.

use vstd::prelude::*;

use crate::assembly_ast::Instr;
use crate::assembly_ast::InstrV;
use crate::assembly_ast::instr_list_view;
use crate::assembly_ast::instr_view;
use crate::assembly_ast::lemma_instr_list_view;
use crate::c_ast::Expr;
use crate::c_ast::ExprV;
use crate::c_ast::Stmt;
use crate::c_ast::StmtV;

verus! {

/// Failure of the lowering stage.
#[derive(Clone, Copy, Debug, PartialEq, Eq, Structural)]
pub enum AssemblerError {
    /// A function's name is not an identifier expression.
    InvalidFunctionName,
    /// A function's body is something other than a single return statement.
    UnsupportedFunctionBody,
    /// A return's value is an identifier: no variable storage exists in this
    /// language subset, so such a return cannot be lowered.
    UnsupportedReturnExpression,
}

/// The instruction operand of an expression: an immediate for a constant, a
/// named operand for an identifier.
pub open spec fn spec_assemble_expr(e: ExprV) -> InstrV {
    match e {
        ExprV::IntConstant { value } => InstrV::Imm { value },
        ExprV::Identifier { name } => InstrV::Identifier { name },
    }
}

/// The lowering of a statement tree, or the error that rejects it. A
/// function's name must be an identifier and its body a single return of an
/// integer constant; the return lowers to a move of the immediate into the
/// return register followed by a return instruction.
pub open spec fn spec_assemble_stmt(s: StmtV) -> Result<InstrV, AssemblerError>
    decreases s,
{
    match s {
        StmtV::Program { body } => match spec_assemble_stmt(*body) {
            Ok(b) => Ok(InstrV::Program { body: Box::new(b) }),
            Err(e) => Err(e),
        },
        StmtV::FuncDef { name, body } => match *name {
            ExprV::Identifier { name: n } => match *body {
                StmtV::Return { value } => match *value {
                    ExprV::IntConstant { value: v } => Ok(InstrV::FuncDef {
                        name: Box::new(InstrV::Identifier { name: n }),
                        instructions: seq![
                            InstrV::Mov {
                                src: Box::new(InstrV::Imm { value: v }),
                                dst: Box::new(InstrV::Register),
                            },
                            InstrV::Ret,
                        ],
                    }),
                    ExprV::Identifier { .. } => Err(AssemblerError::UnsupportedReturnExpression),
                },
                _ => Err(AssemblerError::UnsupportedFunctionBody),
            },
            ExprV::IntConstant { .. } => Err(AssemblerError::InvalidFunctionName),
        },
        StmtV::Return { value } => match *value {
            ExprV::IntConstant { value: v } => Ok(InstrV::Series {
                instructions: seq![
                    InstrV::Mov {
                        src: Box::new(InstrV::Imm { value: v }),
                        dst: Box::new(InstrV::Register),
                    },
                    InstrV::Ret,
                ],
            }),
            ExprV::Identifier { .. } => Err(AssemblerError::UnsupportedReturnExpression),
        },
    }
}

/// Lowering a return of an integer constant yields exactly two instructions —
/// move the immediate into the return register, then return — in that order.
pub proof fn lemma_lower_return_constant(n: int)
    ensures
        spec_assemble_stmt(StmtV::Return { value: Box::new(ExprV::IntConstant { value: n }) })
            == Ok::<InstrV, AssemblerError>(InstrV::Series {
            instructions: seq![
                InstrV::Mov {
                    src: Box::new(InstrV::Imm { value: n }),
                    dst: Box::new(InstrV::Register),
                },
                InstrV::Ret,
            ],
        }),
{
}

/// Lowering a function whose body is anything other than a single return
/// statement fails with the unsupported-function-body error.
pub proof fn lemma_lower_rejects_non_return_body(name: Seq<char>, body: StmtV)
    requires
        !(body is Return),
    ensures
        spec_assemble_stmt(
            StmtV::FuncDef { name: Box::new(ExprV::Identifier { name }), body: Box::new(body) },
        ) == Err::<InstrV, AssemblerError>(AssemblerError::UnsupportedFunctionBody),
{
}

/// The lowering stage. It carries no state; it exists so that carried state
/// can be added later without reshaping the callers.
pub struct Assembler {}

impl Assembler {
    pub fn new() -> (a: Assembler) {
        Assembler {  }
    }

    /// Lowers a source syntax tree to an instruction tree.
    pub fn assemble(&self, stmt: Stmt) -> (r: Result<Box<Instr>, AssemblerError>)
        ensures
            match r {
                Ok(b) => spec_assemble_stmt(stmt@) == Ok::<InstrV, AssemblerError>((*b)@),
                Err(e) => spec_assemble_stmt(stmt@) == Err::<InstrV, AssemblerError>(e),
            },
    {
        self.assemble_stmt(stmt)
    }

    /// Lowers one statement.
    pub fn assemble_stmt(&self, stmt: Stmt) -> (r: Result<Box<Instr>, AssemblerError>)
        ensures
            match r {
                Ok(b) => spec_assemble_stmt(stmt@) == Ok::<InstrV, AssemblerError>((*b)@),
                Err(e) => spec_assemble_stmt(stmt@) == Err::<InstrV, AssemblerError>(e),
            },
        decreases stmt,
    {
        proof {
            reveal_with_fuel(crate::c_ast::stmt_view, 3);
            reveal_with_fuel(crate::assembly_ast::instr_view, 3);
        }
        match stmt {
            Stmt::Program { body } => {
                let b = match self.assemble_stmt(*body) {
                    Ok(b) => b,
                    Err(e) => {
                        return Err(e);
                    },
                };
                Ok(Box::new(Instr::Program { body: b }))
            },
            Stmt::FuncDef { name, body } => {
                let n = match *name {
                    Expr::Identifier { value } => value,
                    _ => {
                        return Err(AssemblerError::InvalidFunctionName);
                    },
                };
                let name_identifier = Box::new(Instr::Identifier { value: n });
                // Figure out the return value: the body must be a single
                // return of an integer constant.
                let ret_val = match *body {
                    Stmt::Return { value } => match *value {
                        Expr::IntConstant { value: v } => Box::new(Instr::Imm { value: v }),
                        _ => {
                            return Err(AssemblerError::UnsupportedReturnExpression);
                        },
                    },
                    _ => {
                        return Err(AssemblerError::UnsupportedFunctionBody);
                    },
                };
                let mut func_body: Vec<Box<Instr>> = Vec::new();
                // Move the return value into the return register, then
                // return from the function.
                func_body.push(Box::new(Instr::Mov { src: ret_val, dst: Box::new(Instr::Register) }));
                func_body.push(Box::new(Instr::Ret));
                proof {
                    lemma_instr_list_view(func_body@);
                    assert(instr_list_view(func_body@) =~= seq![
                        instr_view(*func_body@[0]),
                        instr_view(*func_body@[1]),
                    ]);
                }
                Ok(Box::new(Instr::FuncDef { name: name_identifier, instructions: func_body }))
            },
            Stmt::Return { value } => {
                match *value {
                    Expr::IntConstant { value: v } => {
                        let mut series: Vec<Box<Instr>> = Vec::new();
                        let ret_val = Box::new(Instr::Imm { value: v });
                        // Move the return value to the return register, then
                        // return from the function.
                        series.push(Box::new(Instr::Mov { src: ret_val, dst: Box::new(Instr::Register) }));
                        series.push(Box::new(Instr::Ret));
                        proof {
                            lemma_instr_list_view(series@);
                            assert(instr_list_view(series@) =~= seq![
                                instr_view(*series@[0]),
                                instr_view(*series@[1]),
                            ]);
                        }
                        Ok(Box::new(Instr::Series { instructions: series }))
                    },
                    Expr::Identifier { .. } => Err(AssemblerError::UnsupportedReturnExpression),
                }
            },
        }
    }

    /// Lowers one expression to its operand.
    pub fn assemble_expr(&self, expr: Expr) -> (r: Result<Box<Instr>, AssemblerError>)
        ensures
            r matches Ok(b) && (*b)@ == spec_assemble_expr(expr@),
    {
        match expr {
            Expr::IntConstant { value } => Ok(Box::new(Instr::Imm { value })),
            Expr::Identifier { value } => Ok(Box::new(Instr::Identifier { value })),
        }
    }
}

} // verus!
