//! Syntactic analysis: a recursive-descent parser over the token sequence,
//! one lookahead token at a time, for the grammar
//!
//! ```text
//! Program    := FunctionDef
//! FunctionDef:= 'int' Identifier '(' 'void' ')' '{' Statement '}'
//! Statement  := 'return' Expression ';'
//! Expression := IntegerConstant | Identifier
//! ```
//!
//! Each production consumes exactly the tokens it matches and fails
//! immediately, without backtracking, when an expected token kind is absent;
//! the error names the kind that was expected and the kind that was found.
//! The whole token sequence must be consumed.

use vstd::prelude::*;

use crate::c_ast::Expr;
use crate::c_ast::ExprV;
use crate::c_ast::Stmt;
use crate::c_ast::StmtV;
use crate::decimal::dec_value;
use crate::decimal::dec_value_checked;
use crate::decimal::is_digit_seq;
use crate::lexer::Token;
use crate::lexer::TokenType;
use crate::lexer::TokenV;
use crate::lexer::tokens_view;

verus! {

/// Failure of syntactic analysis. Expression positions accept a constant or
/// an identifier; an error at one reports the constant kind as the expected
/// kind.
#[derive(Clone, Copy, Debug, PartialEq, Eq, Structural)]
pub enum SyntaxError {
    /// A token of another kind stands where `expected` should.
    UnexpectedToken { expected: TokenType, found: TokenType },
    /// The tokens end where `expected` should stand.
    UnexpectedEnd { expected: TokenType },
    /// Tokens remain after the program's closing brace.
    TrailingTokens,
    /// An identifier or constant token carries no lexeme.
    MissingLexeme,
    /// A constant's lexeme is not a digit string whose value fits the
    /// integer type.
    InvalidConstant,
}

/// The token at position `i` matches the expected kind; otherwise the error
/// that position yields.
pub open spec fn spec_expect(toks: Seq<TokenV>, i: int, expected: TokenType) -> Result<
    (),
    SyntaxError,
> {
    if i >= toks.len() {
        Err(SyntaxError::UnexpectedEnd { expected })
    } else if toks[i].token_type != expected {
        Err(SyntaxError::UnexpectedToken { expected, found: toks[i].token_type })
    } else {
        Ok(())
    }
}

/// The expression at position `i`: an integer constant or an identifier.
/// Consumes one token.
pub open spec fn spec_parse_expression(toks: Seq<TokenV>, i: int) -> Result<ExprV, SyntaxError> {
    if i >= toks.len() {
        Err(SyntaxError::UnexpectedEnd { expected: TokenType::Constant })
    } else {
        match toks[i].token_type {
            TokenType::Constant => match toks[i].lexeme {
                Some(w) => if is_digit_seq(w) && w.len() > 0 && dec_value(w) <= i32::MAX as int {
                    Ok(ExprV::IntConstant { value: dec_value(w) })
                } else {
                    Err(SyntaxError::InvalidConstant)
                },
                None => Err(SyntaxError::MissingLexeme),
            },
            TokenType::Identifier => match toks[i].lexeme {
                Some(w) => Ok(ExprV::Identifier { name: w }),
                None => Err(SyntaxError::MissingLexeme),
            },
            tt => Err(SyntaxError::UnexpectedToken { expected: TokenType::Constant, found: tt }),
        }
    }
}

/// The statement at position `i`: `'return' Expression ';'`. Consumes three
/// tokens.
pub open spec fn spec_parse_statement(toks: Seq<TokenV>, i: int) -> Result<StmtV, SyntaxError> {
    match spec_expect(toks, i, TokenType::Return) {
        Err(e) => Err(e),
        Ok(_) => match spec_parse_expression(toks, i + 1) {
            Err(e) => Err(e),
            Ok(v) => match spec_expect(toks, i + 2, TokenType::Semicolon) {
                Err(e) => Err(e),
                Ok(_) => Ok(StmtV::Return { value: Box::new(v) }),
            },
        },
    }
}

/// The function definition at position `i`:
/// `'int' Identifier '(' 'void' ')' '{' Statement '}'`. Consumes ten tokens.
pub open spec fn spec_parse_function_def(toks: Seq<TokenV>, i: int) -> Result<StmtV, SyntaxError> {
    match spec_expect(toks, i, TokenType::Int) {
        Err(e) => Err(e),
        Ok(_) => match spec_expect(toks, i + 1, TokenType::Identifier) {
            Err(e) => Err(e),
            Ok(_) => match toks[i + 1].lexeme {
                None => Err(SyntaxError::MissingLexeme),
                Some(name) => match spec_expect(toks, i + 2, TokenType::LeftParen) {
                    Err(e) => Err(e),
                    Ok(_) => match spec_expect(toks, i + 3, TokenType::Void) {
                        Err(e) => Err(e),
                        Ok(_) => match spec_expect(toks, i + 4, TokenType::RightParen) {
                            Err(e) => Err(e),
                            Ok(_) => match spec_expect(toks, i + 5, TokenType::LeftBrace) {
                                Err(e) => Err(e),
                                Ok(_) => match spec_parse_statement(toks, i + 6) {
                                    Err(e) => Err(e),
                                    Ok(body) => match spec_expect(
                                        toks,
                                        i + 9,
                                        TokenType::RightBrace,
                                    ) {
                                        Err(e) => Err(e),
                                        Ok(_) => Ok(StmtV::FuncDef {
                                            name: Box::new(ExprV::Identifier { name }),
                                            body: Box::new(body),
                                        }),
                                    },
                                },
                            },
                        },
                    },
                },
            },
        },
    }
}

/// The program of a whole token sequence: one function definition, with no
/// token left over.
pub open spec fn spec_parse(toks: Seq<TokenV>) -> Result<StmtV, SyntaxError> {
    match spec_parse_function_def(toks, 0) {
        Err(e) => Err(e),
        Ok(f) => if toks.len() > 10 {
            Err(SyntaxError::TrailingTokens)
        } else {
            Ok(StmtV::Program { body: Box::new(f) })
        },
    }
}

/// Parser which consumes a token sequence and builds the source syntax tree.
#[derive(Debug)]
pub struct Parser {
    /// The tokens under analysis.
    pub tokens: Vec<Token>,
    /// The position of the lookahead token.
    pub position: usize,
}

impl Parser {
    pub fn new(tokens: Vec<Token>) -> (p: Parser)
        ensures
            p.tokens == tokens,
            p.position == 0,
    {
        Parser { tokens, position: 0 }
    }

    /// Consumes the lookahead token when it has the expected kind; fails
    /// without consuming otherwise.
    fn expect(&mut self, expected: TokenType) -> (r: Result<(), SyntaxError>)
        ensures
            final(self).tokens == old(self).tokens,
            match r {
                Ok(_) => spec_expect(
                    tokens_view(old(self).tokens@),
                    old(self).position as int,
                    expected,
                ) == Ok::<(), SyntaxError>(()) && final(self).position == old(self).position + 1,
                Err(e) => spec_expect(
                    tokens_view(old(self).tokens@),
                    old(self).position as int,
                    expected,
                ) == Err::<(), SyntaxError>(e) && final(self).position == old(self).position,
            },
    {
        if self.position >= self.tokens.len() {
            return Err(SyntaxError::UnexpectedEnd { expected });
        }
        let tt = self.tokens[self.position].token_type;
        proof {
            assert(tokens_view(self.tokens@)[self.position as int] == self.tokens@[
                self.position as int
            ]@);
        }
        if tt == expected {
            self.position = self.position + 1;
            Ok(())
        } else {
            Err(SyntaxError::UnexpectedToken { expected, found: tt })
        }
    }

    /// Parses one expression: an integer constant or an identifier.
    fn parse_expression(&mut self) -> (r: Result<Expr, SyntaxError>)
        ensures
            final(self).tokens == old(self).tokens,
            match r {
                Ok(e) => spec_parse_expression(
                    tokens_view(old(self).tokens@),
                    old(self).position as int,
                ) == Ok::<ExprV, SyntaxError>(e@) && final(self).position == old(self).position
                    + 1,
                Err(e) => spec_parse_expression(
                    tokens_view(old(self).tokens@),
                    old(self).position as int,
                ) == Err::<ExprV, SyntaxError>(e) && final(self).position == old(self).position,
            },
    {
        if self.position >= self.tokens.len() {
            return Err(SyntaxError::UnexpectedEnd { expected: TokenType::Constant });
        }
        proof {
            assert(tokens_view(self.tokens@)[self.position as int] == self.tokens@[
                self.position as int
            ]@);
        }
        let tt = self.tokens[self.position].token_type;
        let lexeme: Option<String> = match &self.tokens[self.position].lexeme {
            Some(w) => Some(w.clone()),
            None => None,
        };
        match tt {
            TokenType::Constant => match lexeme {
                Some(w) => match dec_value_checked(w.as_str()) {
                    Some(v) => {
                        self.position = self.position + 1;
                        Ok(Expr::IntConstant { value: v })
                    },
                    None => Err(SyntaxError::InvalidConstant),
                },
                None => Err(SyntaxError::MissingLexeme),
            },
            TokenType::Identifier => match lexeme {
                Some(w) => {
                    self.position = self.position + 1;
                    Ok(Expr::Identifier { value: w })
                },
                None => Err(SyntaxError::MissingLexeme),
            },
            _ => Err(SyntaxError::UnexpectedToken { expected: TokenType::Constant, found: tt }),
        }
    }

    /// Parses one statement: `'return' Expression ';'`.
    fn parse_statement(&mut self) -> (r: Result<Stmt, SyntaxError>)
        ensures
            final(self).tokens == old(self).tokens,
            match r {
                Ok(s) => spec_parse_statement(
                    tokens_view(old(self).tokens@),
                    old(self).position as int,
                ) == Ok::<StmtV, SyntaxError>(s@) && final(self).position == old(self).position
                    + 3,
                Err(e) => spec_parse_statement(
                    tokens_view(old(self).tokens@),
                    old(self).position as int,
                ) == Err::<StmtV, SyntaxError>(e),
            },
    {
        self.expect(TokenType::Return)?;
        let value = match self.parse_expression() {
            Ok(v) => v,
            Err(e) => {
                return Err(e);
            },
        };
        self.expect(TokenType::Semicolon)?;
        Ok(Stmt::Return { value: Box::new(value) })
    }

    /// Parses one function definition:
    /// `'int' Identifier '(' 'void' ')' '{' Statement '}'`.
    fn parse_function_def(&mut self) -> (r: Result<Stmt, SyntaxError>)
        ensures
            final(self).tokens == old(self).tokens,
            match r {
                Ok(s) => spec_parse_function_def(
                    tokens_view(old(self).tokens@),
                    old(self).position as int,
                ) == Ok::<StmtV, SyntaxError>(s@) && final(self).position == old(self).position
                    + 10,
                Err(e) => spec_parse_function_def(
                    tokens_view(old(self).tokens@),
                    old(self).position as int,
                ) == Err::<StmtV, SyntaxError>(e),
            },
    {
        self.expect(TokenType::Int)?;
        if self.position >= self.tokens.len() {
            return Err(SyntaxError::UnexpectedEnd { expected: TokenType::Identifier });
        }
        proof {
            assert(tokens_view(self.tokens@)[self.position as int] == self.tokens@[
                self.position as int
            ]@);
        }
        let tt = self.tokens[self.position].token_type;
        if !matches!(tt, TokenType::Identifier) {
            return Err(SyntaxError::UnexpectedToken { expected: TokenType::Identifier, found: tt });
        }
        let name: String = match &self.tokens[self.position].lexeme {
            Some(w) => w.clone(),
            None => {
                return Err(SyntaxError::MissingLexeme);
            },
        };
        self.position = self.position + 1;
        self.expect(TokenType::LeftParen)?;
        self.expect(TokenType::Void)?;
        self.expect(TokenType::RightParen)?;
        self.expect(TokenType::LeftBrace)?;
        let body = match self.parse_statement() {
            Ok(s) => s,
            Err(e) => {
                return Err(e);
            },
        };
        self.expect(TokenType::RightBrace)?;
        Ok(Stmt::FuncDef { name: Box::new(Expr::Identifier { value: name }), body: Box::new(body) })
    }

    /// Parses the whole token sequence into a program. Fails when the
    /// sequence does not match the grammar, or when tokens remain after the
    /// program.
    pub fn parse(&mut self) -> (r: Result<Stmt, SyntaxError>)
        requires
            old(self).position == 0,
        ensures
            final(self).tokens == old(self).tokens,
            match r {
                Ok(p) => spec_parse(tokens_view(old(self).tokens@)) == Ok::<StmtV, SyntaxError>(
                    p@,
                ),
                Err(e) => spec_parse(tokens_view(old(self).tokens@)) == Err::<StmtV, SyntaxError>(
                    e,
                ),
            },
    {
        let f = match self.parse_function_def() {
            Ok(s) => s,
            Err(e) => {
                return Err(e);
            },
        };
        if self.position < self.tokens.len() {
            return Err(SyntaxError::TrailingTokens);
        }
        Ok(Stmt::Program { body: Box::new(f) })
    }
}

} // verus!
