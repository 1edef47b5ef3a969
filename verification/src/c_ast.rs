//! The source-language syntax tree: expressions and statements of the
//! language subset, with their mathematical values.

use vstd::prelude::*;

use crate::decimal::dec_value;
use crate::decimal::dec_value_checked;
use crate::decimal::is_digit_seq;

verus! {

/// An expression: an integer constant or an identifier.
#[derive(Debug)]
pub enum Expr {
    IntConstant { value: i32 },
    Identifier { value: String },
}

/// A statement: a whole program, a function definition, or a return.
#[derive(Debug)]
pub enum Stmt {
    Program { body: Box<Stmt> },
    FuncDef { name: Box<Expr>, body: Box<Stmt> },
    Return { value: Box<Expr> },
}

/// The mathematical value of an expression.
pub enum ExprV {
    IntConstant { value: int },
    Identifier { name: Seq<char> },
}

/// The mathematical value of a statement.
pub enum StmtV {
    Program { body: Box<StmtV> },
    FuncDef { name: Box<ExprV>, body: Box<StmtV> },
    Return { value: Box<ExprV> },
}

impl View for Expr {
    type V = ExprV;

    open spec fn view(&self) -> ExprV {
        match self {
            Expr::IntConstant { value } => ExprV::IntConstant { value: *value as int },
            Expr::Identifier { value } => ExprV::Identifier { name: value@ },
        }
    }
}

/// The mathematical value of a statement tree.
pub open spec fn stmt_view(s: Stmt) -> StmtV
    decreases s,
{
    match s {
        Stmt::Program { body } => StmtV::Program { body: Box::new(stmt_view(*body)) },
        Stmt::FuncDef { name, body } => StmtV::FuncDef {
            name: Box::new(name@),
            body: Box::new(stmt_view(*body)),
        },
        Stmt::Return { value } => StmtV::Return { value: Box::new(value@) },
    }
}

impl View for Stmt {
    type V = StmtV;

    open spec fn view(&self) -> StmtV {
        stmt_view(*self)
    }
}

impl Expr {
    /// Builds an integer-constant expression from its digit string.
    pub fn new_int(value: &str) -> (e: Expr)
        requires
            is_digit_seq(value@),
            value@.len() > 0,
            dec_value(value@) <= i32::MAX as int,
        ensures
            e@ == (ExprV::IntConstant { value: dec_value(value@) }),
    {
        match dec_value_checked(value) {
            Some(v) => Expr::IntConstant { value: v },
            None => vstd::pervasive::unreached(),
        }
    }
}

} // verus!
