use minicc::c_ast::Expr;
use minicc::lexer::Lexer;
use minicc::parsing::Parser;
use minicc::printing::Printer;

#[test]
fn test_expr_to_string() {
    // Create Printer object
    let mut printer = Printer::new();
    // Test Constant Int Printer
    printer.expr_to_string(&Expr::IntConstant { value: 1 });
    assert_eq!(printer.output, "Constant(1)");
    printer.clear();
    // Test Identifier Printer
    printer.expr_to_string(&Expr::Identifier { value: "main".to_string() });
    assert_eq!(printer.output, "\"main\"");
    printer.clear();
}

#[test]
fn test_stmt_to_string() {
    let mut lexer = Lexer::new(String::from("int main(void){return 2;}"));
    let tokens = lexer.tokenize().unwrap();
    let mut parser = Parser::new(tokens);
    let ast = parser.parse().unwrap();
    let mut printer = Printer::new();
    printer.stmt_to_string(&ast);
    let result = printer.output.clone();
    printer.clear();
    assert_eq!(
        result,
        "Program(
    Function(
        name=\"main\",
        body={
            Return(
                Constant(2)
            )
        }
    )
)"
    );
}

#[test]
fn test_negative_constant_rendering() {
    let mut printer = Printer::new();
    printer.expr_to_string(&Expr::IntConstant { value: -5 });
    assert_eq!(printer.output, "Constant(-5)");
}

#[test]
fn test_clear_resets_printer() {
    let mut printer = Printer::new();
    printer.expr_to_string(&Expr::IntConstant { value: 7 });
    printer.clear();
    assert_eq!(printer.output, "");
    assert_eq!(printer.current_level, 0);
}
