use minicc::assembling::Assembler;
use minicc::assembly_ast::Instr;
use minicc::emitting::EmitError;
use minicc::emitting::Emitter;
use minicc::lexer::Lexer;
use minicc::parsing::Parser;

fn lower(source: &str) -> Box<Instr> {
    let mut lexer = Lexer::new(source.to_string());
    let tokens = lexer.tokenize().unwrap();
    let mut parser = Parser::new(tokens);
    let ast = parser.parse().unwrap();
    Assembler::new().assemble(ast).unwrap()
}

#[test]
fn test_emit_whole_program() {
    let mut emitter = Emitter::new();
    let text = emitter.emit_str(lower("int main(void){return 0;}")).unwrap();
    assert_eq!(
        text,
        "    .globl main\nmain:\n    movl    $0, %eax\n    ret\n    .section .note.GNU-stack,\"\",@progbits"
    );
}

#[test]
fn test_emit_order_of_directives() {
    // The global-symbol directive, the function label, the move of the
    // immediate into the return register, and the return mnemonic appear in
    // that order.
    let mut emitter = Emitter::new();
    let text = emitter.emit_str(lower("int main(void){return 0;}")).unwrap();
    let globl = text.find(".globl main").unwrap();
    let label = text.find("main:").unwrap();
    let mov = text.find("movl    $0, %eax").unwrap();
    let ret = text.find("ret").unwrap();
    assert!(globl < label && label < mov && mov < ret);
}

#[test]
fn test_emit_negative_immediate() {
    let mut emitter = Emitter::new();
    let text = emitter.emit_str(Box::new(Instr::Imm { value: -5 })).unwrap();
    assert_eq!(text, "$-5");
}

#[test]
fn test_emit_extreme_immediates() {
    let mut emitter = Emitter::new();
    let text = emitter.emit_str(Box::new(Instr::Imm { value: 2147483647 })).unwrap();
    assert_eq!(text, "$2147483647");
    let mut emitter = Emitter::new();
    let text = emitter.emit_str(Box::new(Instr::Imm { value: -2147483648 })).unwrap();
    assert_eq!(text, "$-2147483648");
}

#[test]
fn test_emit_move_of_named_operand() {
    let mut emitter = Emitter::new();
    let text = emitter
        .emit_str(Box::new(Instr::Mov {
            src: Box::new(Instr::Identifier { value: "x".to_string() }),
            dst: Box::new(Instr::Register),
        }))
        .unwrap();
    assert_eq!(text, "    movl    x, %eax\n");
}

#[test]
fn test_emit_rejects_non_identifier_function_name() {
    let mut emitter = Emitter::new();
    let bad = Box::new(Instr::FuncDef {
        name: Box::new(Instr::Ret),
        instructions: vec![Box::new(Instr::Ret)],
    });
    assert!(matches!(
        emitter.emit_str(bad),
        Err(EmitError::InvalidFunctionName)
    ));
}

#[test]
fn test_emit_series_flattens_in_order() {
    let mut emitter = Emitter::new();
    let series = Box::new(Instr::Series {
        instructions: vec![
            Box::new(Instr::Imm { value: 1 }),
            Box::new(Instr::Imm { value: 2 }),
            Box::new(Instr::Ret),
        ],
    });
    assert_eq!(emitter.emit_str(series).unwrap(), "$1$2    ret\n");
}
