use minicc::assembling::Assembler;
use minicc::assembling::AssemblerError;
use minicc::assembly_ast::Instr;
use minicc::c_ast::Expr;
use minicc::c_ast::Stmt;
use minicc::lexer::Lexer;
use minicc::parsing::Parser;

fn parse(source: &str) -> Stmt {
    let mut lexer = Lexer::new(source.to_string());
    let tokens = lexer.tokenize().unwrap();
    let mut parser = Parser::new(tokens);
    parser.parse().unwrap()
}

#[test]
fn test_lower_return_constant_gives_move_then_return() {
    // A lowered return is exactly two instructions, in this order: move the
    // immediate into the return register, then return.
    let assembler = Assembler::new();
    let stmt = Stmt::Return { value: Box::new(Expr::IntConstant { value: 7 }) };
    let lowered = assembler.assemble_stmt(stmt).unwrap();
    match *lowered {
        Instr::Series { instructions } => {
            assert_eq!(instructions.len(), 2);
            match &*instructions[0] {
                Instr::Mov { src, dst } => {
                    assert!(matches!(**src, Instr::Imm { value: 7 }));
                    assert!(matches!(**dst, Instr::Register));
                }
                _ => panic!("first instruction is not a move"),
            }
            assert!(matches!(*instructions[1], Instr::Ret));
        }
        _ => panic!("lowered return is not a series"),
    }
}

#[test]
fn test_lower_whole_program() {
    let assembler = Assembler::new();
    let lowered = assembler.assemble(parse("int main(void){return 3;}")).unwrap();
    match *lowered {
        Instr::Program { body } => match *body {
            Instr::FuncDef { name, instructions } => {
                match *name {
                    Instr::Identifier { value } => assert_eq!(value, "main"),
                    _ => panic!("function name is not an identifier node"),
                }
                assert_eq!(instructions.len(), 2);
                match &*instructions[0] {
                    Instr::Mov { src, dst } => {
                        assert!(matches!(**src, Instr::Imm { value: 3 }));
                        assert!(matches!(**dst, Instr::Register));
                    }
                    _ => panic!("first instruction is not a move"),
                }
                assert!(matches!(*instructions[1], Instr::Ret));
            }
            _ => panic!("program body is not a function definition"),
        },
        _ => panic!("lowered tree is not a program"),
    }
}

#[test]
fn test_lower_rejects_non_return_body() {
    let assembler = Assembler::new();
    let stmt = Stmt::FuncDef {
        name: Box::new(Expr::Identifier { value: "main".to_string() }),
        body: Box::new(Stmt::Program {
            body: Box::new(Stmt::Return { value: Box::new(Expr::IntConstant { value: 0 }) }),
        }),
    };
    assert!(matches!(
        assembler.assemble_stmt(stmt),
        Err(AssemblerError::UnsupportedFunctionBody)
    ));
}

#[test]
fn test_lower_rejects_constant_function_name() {
    let assembler = Assembler::new();
    let stmt = Stmt::FuncDef {
        name: Box::new(Expr::IntConstant { value: 1 }),
        body: Box::new(Stmt::Return { value: Box::new(Expr::IntConstant { value: 0 }) }),
    };
    assert!(matches!(
        assembler.assemble_stmt(stmt),
        Err(AssemblerError::InvalidFunctionName)
    ));
}

#[test]
fn test_lower_rejects_identifier_return_value() {
    let assembler = Assembler::new();
    assert!(matches!(
        assembler.assemble(parse("int main(void){return x;}")),
        Err(AssemblerError::UnsupportedReturnExpression)
    ));
}

#[test]
fn test_assemble_expr_operands() {
    let assembler = Assembler::new();
    let imm = assembler.assemble_expr(Expr::IntConstant { value: 9 }).unwrap();
    assert!(matches!(*imm, Instr::Imm { value: 9 }));
    let ident = assembler
        .assemble_expr(Expr::Identifier { value: "x".to_string() })
        .unwrap();
    match *ident {
        Instr::Identifier { value } => assert_eq!(value, "x"),
        _ => panic!("identifier expression did not lower to a named operand"),
    }
}
