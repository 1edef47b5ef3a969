use minicc::lexer::Lexer;
use minicc::lexer::LexerError;
use minicc::lexer::Token;
use minicc::lexer::TokenType;

#[test]
fn test_create() {
    _ = Lexer::new("int main(void) {return 0;}".to_string());
}

#[test]
fn test_tokenize() {
    let mut lexer = Lexer::new("int main(void) {return 0;}".to_string());
    let tokens = lexer.tokenize();
    assert!(tokens.is_ok());
    let tokens = tokens.unwrap();
    let expected_tokens = vec![
        Token::new_int(),
        Token::new_identifier("main".to_string()),
        Token::new_left_paren(),
        Token::new_void(),
        Token::new_right_paren(),
        Token::new_left_brace(),
        Token::new_return(),
        Token::new_constant("0".to_string()),
        Token::new_semicolon(),
        Token::new_right_brace(),
    ];
    assert_eq!(tokens.len(), expected_tokens.len());
    assert!(tokens.iter().zip(expected_tokens).all(|(a, b)| *a == b));
}

#[test]
fn test_non_keyword_word_is_identifier() {
    // A word that is not a reserved word surfaces as a generic identifier
    // carrying its lexeme, even when a reserved word is its prefix.
    for word in ["main", "integer", "voidish", "returns", "_", "x1"] {
        let mut lexer = Lexer::new(word.to_string());
        let tokens = lexer.tokenize().unwrap();
        assert_eq!(tokens.len(), 1);
        assert_eq!(tokens[0], Token::new_identifier(word.to_string()));
    }
}

#[test]
fn test_keywords_tokenize_as_keywords() {
    let mut lexer = Lexer::new("return void int".to_string());
    let tokens = lexer.tokenize().unwrap();
    assert_eq!(
        tokens,
        vec![Token::new_return(), Token::new_void(), Token::new_int()]
    );
    assert!(tokens.iter().all(|t| t.lexeme.is_none()));
}

#[test]
fn test_unknown_token_fails() {
    let mut lexer = Lexer::new("@".to_string());
    assert_eq!(lexer.tokenize(), Err(LexerError::UnknownToken));
}

#[test]
fn test_unknown_token_is_not_skipped() {
    // The unrecognized character must fail the whole run, not be passed over.
    let mut lexer = Lexer::new("int @ main".to_string());
    assert_eq!(lexer.tokenize(), Err(LexerError::UnknownToken));
}

#[test]
fn test_constant_followed_by_word_char_fails() {
    // No pattern matches at a digit run that a word character follows.
    let mut lexer = Lexer::new("123abc".to_string());
    assert_eq!(lexer.tokenize(), Err(LexerError::UnknownToken));
}

#[test]
fn test_empty_source() {
    let mut lexer = Lexer::new(String::new());
    assert_eq!(lexer.tokenize(), Ok(vec![]));
}

#[test]
fn test_whitespace_only_source() {
    let mut lexer = Lexer::new(" \t\r\n ".to_string());
    assert_eq!(lexer.tokenize(), Ok(vec![]));
}

#[test]
fn test_constant_then_punctuation() {
    let mut lexer = Lexer::new("0;".to_string());
    let tokens = lexer.tokenize().unwrap();
    assert_eq!(
        tokens,
        vec![Token::new_constant("0".to_string()), Token::new_semicolon()]
    );
    assert_eq!(tokens[0].token_type, TokenType::Constant);
}

#[test]
fn test_tokens_preserve_source_order() {
    let mut lexer = Lexer::new("}{)(;".to_string());
    let tokens = lexer.tokenize().unwrap();
    assert_eq!(
        tokens,
        vec![
            Token::new_right_brace(),
            Token::new_left_brace(),
            Token::new_right_paren(),
            Token::new_left_paren(),
            Token::new_semicolon(),
        ]
    );
}
