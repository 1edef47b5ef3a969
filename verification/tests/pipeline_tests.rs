use minicc::assembling::AssemblerError;
use minicc::compile;
use minicc::lexer::LexerError;
use minicc::parsing::SyntaxError;
use minicc::CompileError;

#[test]
fn test_compile_valid_program() {
    let text = compile("int main(void){return 2;}".to_string()).unwrap();
    assert_eq!(
        text,
        "    .globl main\nmain:\n    movl    $2, %eax\n    ret\n    .section .note.GNU-stack,\"\",@progbits"
    );
}

#[test]
fn test_compile_twice_is_byte_identical() {
    // Compiling the same valid source twice produces byte-identical emitted
    // assembly text.
    let source = "int main(void) {return 0;}";
    let first = compile(source.to_string()).unwrap();
    let second = compile(source.to_string()).unwrap();
    assert_eq!(first.as_bytes(), second.as_bytes());
}

#[test]
fn test_compile_reports_lex_error() {
    assert_eq!(
        compile("int main(void){return @;}".to_string()),
        Err(CompileError::Lex(LexerError::UnknownToken))
    );
}

#[test]
fn test_compile_reports_syntax_error() {
    assert_eq!(
        compile("int main(void){return 0}".to_string()),
        Err(CompileError::Parse(SyntaxError::UnexpectedToken {
            expected: minicc::lexer::TokenType::Semicolon,
            found: minicc::lexer::TokenType::RightBrace,
        }))
    );
}

#[test]
fn test_compile_reports_lowering_error() {
    assert_eq!(
        compile("int main(void){return x;}".to_string()),
        Err(CompileError::Lower(AssemblerError::UnsupportedReturnExpression))
    );
}

#[test]
fn test_compile_largest_constant() {
    let text = compile("int main(void){return 2147483647;}".to_string()).unwrap();
    assert!(text.contains("movl    $2147483647, %eax"));
}
