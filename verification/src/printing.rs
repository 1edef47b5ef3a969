//! Pretty-printing of the source syntax tree: a nested, indented rendering
//! with four spaces per nesting level, accumulated into one buffer.

use vstd::prelude::*;

use crate::c_ast::Expr;
use crate::c_ast::ExprV;
use crate::c_ast::Stmt;
use crate::c_ast::StmtV;
use crate::c_ast::stmt_view;
use crate::decimal::int_digits;
use crate::decimal::push_decimal_i32;

verus! {

/// Four spaces for each nesting level.
pub open spec fn spec_indent(level: int) -> Seq<char>
    decreases level,
{
    if level <= 0 {
        Seq::empty()
    } else {
        spec_indent(level - 1) + "    "@
    }
}

/// The rendering of an expression: `Constant(<value>)` for a constant, the
/// name in double quotes for an identifier.
pub open spec fn spec_print_expr(e: ExprV) -> Seq<char> {
    match e {
        ExprV::IntConstant { value } => "Constant("@ + int_digits(value) + ")"@,
        ExprV::Identifier { name } => "\""@ + name + "\""@,
    }
}

/// The rendering of a statement at a nesting level.
pub open spec fn spec_print_stmt(s: StmtV, level: int) -> Seq<char>
    decreases s,
{
    spec_indent(level) + (match s {
        StmtV::Program { body } => "Program(\n"@ + spec_print_stmt(*body, level + 1) + ")"@,
        StmtV::FuncDef { name, body } => "Function(\n"@ + spec_indent(level + 1) + "name="@
            + spec_print_expr(*name) + ",\n"@ + spec_indent(level + 1) + "body={\n"@
            + spec_print_stmt(*body, level + 2) + spec_indent(level + 1) + "}\n"@ + spec_indent(
            level,
        ) + ")\n"@,
        StmtV::Return { value } => "Return(\n"@ + spec_indent(level + 1) + spec_print_expr(*value)
            + "\n"@ + spec_indent(level) + ")\n"@,
    })
}

/// How many nesting levels rendering a statement adds to the current level.
pub open spec fn stmt_height(s: StmtV) -> nat
    decreases s,
{
    match s {
        StmtV::Program { body } => 1 + stmt_height(*body),
        StmtV::FuncDef { name, body } => 2 + stmt_height(*body),
        StmtV::Return { value } => 1,
    }
}

/// The pretty-printer: a nesting level and the buffer the rendering
/// accumulates into.
#[derive(Debug)]
pub struct Printer {
    pub current_level: u32,
    pub output: String,
}

impl Printer {
    pub fn new() -> (p: Printer)
        ensures
            p.current_level == 0,
            p.output@ =~= Seq::<char>::empty(),
    {
        Printer { current_level: 0, output: String::new() }
    }

    /// Appends the rendering of a statement at the current level to the
    /// buffer. The level is restored afterwards.
    #[verifier::loop_isolation(false)]
    pub fn stmt_to_string(&mut self, stmt: &Stmt)
        requires
            old(self).current_level as int + stmt_height(stmt@) <= u32::MAX as int,
        ensures
            final(self).current_level == old(self).current_level,
            final(self).output@ == old(self).output@ + spec_print_stmt(
                stmt@,
                old(self).current_level as int,
            ),
        decreases *stmt,
    {
        proof {
            reveal_with_fuel(crate::c_ast::stmt_view, 3);
        }
        let ghost old_out = self.output@;
        let ghost level = self.current_level as int;
        self.get_to_level();
        match stmt {
            Stmt::Program { body } => {
                self.output.append("Program(\n");
                self.current_level = self.current_level + 1;
                self.stmt_to_string(&**body);
                self.current_level = self.current_level - 1;
                self.output.append(")");
                proof {
                    assert(self.output@ =~= old_out + (spec_indent(level) + ("Program(\n"@
                        + spec_print_stmt(stmt_view(**body), level + 1) + ")"@)));
                }
            },
            Stmt::FuncDef { name, body } => {
                self.output.append("Function(\n");
                self.current_level = self.current_level + 1;
                self.get_to_level();
                self.output.append("name=");
                self.expr_to_string(&**name);
                self.output.append(",\n");
                self.get_to_level();
                self.output.append("body={\n");
                self.current_level = self.current_level + 1;
                self.stmt_to_string(&**body);
                self.current_level = self.current_level - 1;
                self.get_to_level();
                self.output.append("}\n");
                self.current_level = self.current_level - 1;
                self.get_to_level();
                self.output.append(")\n");
                proof {
                    assert(self.output@ =~= old_out + (spec_indent(level) + ("Function(\n"@
                        + spec_indent(level + 1) + "name="@ + spec_print_expr((**name)@) + ",\n"@
                        + spec_indent(level + 1) + "body={\n"@ + spec_print_stmt(
                        stmt_view(**body),
                        level + 2,
                    ) + spec_indent(level + 1) + "}\n"@ + spec_indent(level) + ")\n"@)));
                }
            },
            Stmt::Return { value } => {
                self.output.append("Return(\n");
                self.current_level = self.current_level + 1;
                self.get_to_level();
                self.expr_to_string(&**value);
                self.output.append("\n");
                self.current_level = self.current_level - 1;
                self.get_to_level();
                self.output.append(")\n");
                proof {
                    assert(self.output@ =~= old_out + (spec_indent(level) + ("Return(\n"@
                        + spec_indent(level + 1) + spec_print_expr((**value)@) + "\n"@
                        + spec_indent(level) + ")\n"@)));
                }
            },
        }
    }

    /// Appends the rendering of an expression to the buffer.
    pub fn expr_to_string(&mut self, expr: &Expr)
        ensures
            final(self).current_level == old(self).current_level,
            final(self).output@ == old(self).output@ + spec_print_expr(expr@),
    {
        let ghost old_out = self.output@;
        match expr {
            Expr::IntConstant { value } => {
                self.output.append("Constant(");
                push_decimal_i32(&mut self.output, *value);
                self.output.append(")");
                proof {
                    assert(self.output@ =~= old_out + ("Constant("@ + int_digits(*value as int)
                        + ")"@));
                }
            },
            Expr::Identifier { value } => {
                self.output.append("\"");
                self.output.append(value.as_str());
                self.output.append("\"");
                proof {
                    assert(self.output@ =~= old_out + ("\""@ + value@ + "\""@));
                }
            },
        }
    }

    /// Appends the indentation of the current level to the buffer.
    #[verifier::loop_isolation(false)]
    pub fn get_to_level(&mut self)
        ensures
            final(self).current_level == old(self).current_level,
            final(self).output@ == old(self).output@ + spec_indent(
                old(self).current_level as int,
            ),
    {
        let ghost old_out = self.output@;
        let n = self.current_level;
        let mut i: u32 = 0;
        while i < n
            invariant
                i <= n,
                self.current_level == n,
                self.output@ == old_out + spec_indent(i as int),
            decreases n - i,
        {
            self.output.append("    ");
            i = i + 1;
            proof {
                assert(self.output@ =~= old_out + spec_indent(i as int));
            }
        }
    }

    /// Empties the buffer and resets the nesting level.
    pub fn clear(&mut self)
        ensures
            final(self).current_level == 0,
            final(self).output@ =~= Seq::<char>::empty(),
    {
        self.output = String::new();
        self.current_level = 0;
    }
}

} // verus!
