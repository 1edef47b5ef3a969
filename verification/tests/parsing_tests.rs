use minicc::c_ast::Expr;
use minicc::c_ast::Stmt;
use minicc::lexer::Lexer;
use minicc::lexer::Token;
use minicc::lexer::TokenType;
use minicc::parsing::Parser;
use minicc::parsing::SyntaxError;

fn tokens_of(source: &str) -> Vec<Token> {
    let mut lexer = Lexer::new(source.to_string());
    lexer.tokenize().unwrap()
}

#[test]
fn test_parse_valid_program() {
    let mut parser = Parser::new(tokens_of("int main(void){return 2;}"));
    let ast = parser.parse().unwrap();
    match ast {
        Stmt::Program { body } => match *body {
            Stmt::FuncDef { name, body } => {
                match *name {
                    Expr::Identifier { value } => assert_eq!(value, "main"),
                    _ => panic!("function name is not an identifier"),
                }
                match *body {
                    Stmt::Return { value } => match *value {
                        Expr::IntConstant { value } => assert_eq!(value, 2),
                        _ => panic!("return value is not a constant"),
                    },
                    _ => panic!("function body is not a return"),
                }
            }
            _ => panic!("program body is not a function definition"),
        },
        _ => panic!("parse result is not a program"),
    }
}

#[test]
fn test_missing_semicolon_is_syntax_error() {
    let mut parser = Parser::new(tokens_of("int main(void){return 2}"));
    assert!(matches!(
        parser.parse(),
        Err(SyntaxError::UnexpectedToken {
            expected: TokenType::Semicolon,
            found: TokenType::RightBrace,
        })
    ));
}

#[test]
fn test_trailing_tokens_are_rejected() {
    let mut parser = Parser::new(tokens_of("int main(void){return 0;};"));
    assert!(matches!(parser.parse(), Err(SyntaxError::TrailingTokens)));
}

#[test]
fn test_truncated_input_reports_expected_kind() {
    let mut parser = Parser::new(tokens_of("int main("));
    assert!(matches!(
        parser.parse(),
        Err(SyntaxError::UnexpectedEnd { expected: TokenType::Void })
    ));
}

#[test]
fn test_missing_expression_reports_constant_expected() {
    let mut parser = Parser::new(tokens_of("int main(void){return ;}"));
    assert!(matches!(
        parser.parse(),
        Err(SyntaxError::UnexpectedToken {
            expected: TokenType::Constant,
            found: TokenType::Semicolon,
        })
    ));
}

#[test]
fn test_constant_beyond_integer_range_is_rejected() {
    let mut parser = Parser::new(tokens_of("int main(void){return 99999999999;}"));
    assert!(matches!(parser.parse(), Err(SyntaxError::InvalidConstant)));
}

#[test]
fn test_largest_constant_is_accepted() {
    let mut parser = Parser::new(tokens_of("int main(void){return 2147483647;}"));
    assert!(parser.parse().is_ok());
}

#[test]
fn test_return_of_identifier_is_syntactically_legal() {
    // The grammar allows a return over an identifier; only the lowering
    // stage rejects it.
    let mut parser = Parser::new(tokens_of("int main(void){return x;}"));
    assert!(parser.parse().is_ok());
}

#[test]
fn test_identifier_token_without_lexeme_is_rejected() {
    let tokens = vec![
        Token::new_int(),
        Token { token_type: TokenType::Identifier, lexeme: None },
        Token::new_left_paren(),
        Token::new_void(),
        Token::new_right_paren(),
        Token::new_left_brace(),
        Token::new_return(),
        Token::new_constant("0".to_string()),
        Token::new_semicolon(),
        Token::new_right_brace(),
    ];
    let mut parser = Parser::new(tokens);
    assert!(matches!(parser.parse(), Err(SyntaxError::MissingLexeme)));
}

#[test]
fn test_new_int_reads_digit_string() {
    match Expr::new_int("42") {
        Expr::IntConstant { value } => assert_eq!(value, 42),
        _ => panic!("new_int did not build a constant"),
    }
}
