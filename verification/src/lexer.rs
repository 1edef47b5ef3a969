//! Lexical analysis: turns source text into the token sequence of the
//! language, or fails on the first position where no token pattern matches.
//!
//! At each position, after skipping whitespace, the candidate patterns are an
//! identifier (a letter or underscore, then word characters), an integer
//! constant (digits not followed by a word character), and the five
//! single-character punctuation marks. Their first characters are disjoint,
//! so the longest match at a position is also the only match. A matched word
//! is compared against the reserved words and surfaces as a keyword token
//! when it equals one.

use vstd::prelude::*;

use crate::chars::is_digit;
use crate::chars::is_digit_char;
use crate::chars::is_ident_start;
use crate::chars::is_ident_start_char;
use crate::chars::is_space;
use crate::chars::is_space_char;
use crate::chars::is_word;
use crate::chars::is_word_char;
use vstd::pervasive::cloned;

verus! {

/// The kind of a token.
#[derive(Clone, Copy, Debug, PartialEq, Eq, Structural)]
pub enum TokenType {
    Identifier,
    Constant,
    Int,
    Void,
    Return,
    LeftParen,
    RightParen,
    LeftBrace,
    RightBrace,
    Semicolon,
}

/// A token: a kind, and a lexeme for the kinds that carry one (identifiers
/// and integer constants).
#[derive(Debug, PartialEq, Eq)]
pub struct Token {
    pub token_type: TokenType,
    pub lexeme: Option<String>,
}

/// The mathematical value of a token: its kind and the characters of its
/// lexeme.
pub struct TokenV {
    pub token_type: TokenType,
    pub lexeme: Option<Seq<char>>,
}

impl View for Token {
    type V = TokenV;

    open spec fn view(&self) -> TokenV {
        TokenV { token_type: self.token_type, lexeme: self.lexeme.deep_view() }
    }
}

impl Clone for Token {
    fn clone(&self) -> (r: Token)
        ensures
            r == *self,
    {
        Token {
            token_type: self.token_type,
            lexeme: match &self.lexeme {
                Some(s) => Some(s.clone()),
                None => None,
            },
        }
    }
}

/// The values of a token sequence.
pub open spec fn tokens_view(ts: Seq<Token>) -> Seq<TokenV> {
    ts.map_values(|t: Token| t@)
}

/// Failure of lexical analysis: no token pattern matches at the current
/// position.
#[derive(Clone, Copy, Debug, PartialEq, Eq, Structural)]
pub enum LexerError {
    UnknownToken,
}

/// The reserved word `int`.
pub open spec fn int_word() -> Seq<char> {
    seq!['i', 'n', 't']
}

/// The reserved word `void`.
pub open spec fn void_word() -> Seq<char> {
    seq!['v', 'o', 'i', 'd']
}

/// The reserved word `return`.
pub open spec fn return_word() -> Seq<char> {
    seq!['r', 'e', 't', 'u', 'r', 'n']
}

/// The token of a matched word: the keyword token when the word is a
/// reserved word, a generic identifier carrying the word otherwise.
pub open spec fn token_of_word(w: Seq<char>) -> TokenV {
    if w == int_word() {
        TokenV { token_type: TokenType::Int, lexeme: None }
    } else if w == void_word() {
        TokenV { token_type: TokenType::Void, lexeme: None }
    } else if w == return_word() {
        TokenV { token_type: TokenType::Return, lexeme: None }
    } else {
        TokenV { token_type: TokenType::Identifier, lexeme: Some(w) }
    }
}

/// A word that is not one of the reserved words surfaces as a generic
/// identifier token carrying that word as its lexeme, never as a keyword.
pub proof fn lemma_nonreserved_word_is_identifier(w: Seq<char>)
    requires
        w != int_word(),
        w != void_word(),
        w != return_word(),
    ensures
        token_of_word(w) == (TokenV { token_type: TokenType::Identifier, lexeme: Some(w) }),
{
}

/// The kind of a single-character punctuation token, when the character is
/// one.
pub open spec fn punct_token_type(c: char) -> Option<TokenType> {
    if c == '(' {
        Some(TokenType::LeftParen)
    } else if c == ')' {
        Some(TokenType::RightParen)
    } else if c == '{' {
        Some(TokenType::LeftBrace)
    } else if c == '}' {
        Some(TokenType::RightBrace)
    } else if c == ';' {
        Some(TokenType::Semicolon)
    } else {
        None
    }
}

/// The end of the run of word characters that starts at `i`: the first
/// position at or after `i` that is past the end or holds a non-word
/// character.
pub open spec fn word_run_end(s: Seq<char>, i: int) -> int
    decreases s.len() - i
        when 0 <= i <= s.len()
{
    if i < s.len() && is_word_char(s[i]) {
        word_run_end(s, i + 1)
    } else {
        i
    }
}

/// The end of the run of digits that starts at `i`.
pub open spec fn digit_run_end(s: Seq<char>, i: int) -> int
    decreases s.len() - i
        when 0 <= i <= s.len()
{
    if i < s.len() && is_digit_char(s[i]) {
        digit_run_end(s, i + 1)
    } else {
        i
    }
}

pub proof fn lemma_word_run_end(s: Seq<char>, i: int)
    requires
        0 <= i <= s.len(),
    ensures
        i <= word_run_end(s, i) <= s.len(),
        forall|k: int| i <= k < word_run_end(s, i) ==> is_word_char(#[trigger] s[k]),
        word_run_end(s, i) < s.len() ==> !is_word_char(s[word_run_end(s, i)]),
    decreases s.len() - i,
{
    if i < s.len() && is_word_char(s[i]) {
        lemma_word_run_end(s, i + 1);
    }
}

pub proof fn lemma_digit_run_end(s: Seq<char>, i: int)
    requires
        0 <= i <= s.len(),
    ensures
        i <= digit_run_end(s, i) <= s.len(),
        forall|k: int| i <= k < digit_run_end(s, i) ==> is_digit_char(#[trigger] s[k]),
        digit_run_end(s, i) < s.len() ==> !is_digit_char(s[digit_run_end(s, i)]),
    decreases s.len() - i,
{
    if i < s.len() && is_digit_char(s[i]) {
        lemma_digit_run_end(s, i + 1);
    }
}

/// The token sequence of the source text from position `i` on, or nothing
/// when some position admits no token. At a non-space position exactly one
/// pattern can match — the candidates' first characters are disjoint — so the
/// longest match is the match of the one pattern that applies.
pub open spec fn spec_tokenize(s: Seq<char>, i: int) -> Option<Seq<TokenV>>
    decreases s.len() - i
        when 0 <= i <= s.len()
        via spec_tokenize_decreases
{
    if i >= s.len() {
        Some(Seq::empty())
    } else if is_space_char(s[i]) {
        spec_tokenize(s, i + 1)
    } else if is_ident_start_char(s[i]) {
        let j = word_run_end(s, i);
        match spec_tokenize(s, j) {
            Some(rest) => Some(seq![token_of_word(s.subrange(i, j))] + rest),
            None => None,
        }
    } else if is_digit_char(s[i]) {
        let j = digit_run_end(s, i);
        if j < s.len() && is_word_char(s[j]) {
            None
        } else {
            match spec_tokenize(s, j) {
                Some(rest) => Some(
                    seq![TokenV { token_type: TokenType::Constant, lexeme: Some(s.subrange(i, j)) }]
                        + rest,
                ),
                None => None,
            }
        }
    } else {
        match punct_token_type(s[i]) {
            Some(tt) => match spec_tokenize(s, i + 1) {
                Some(rest) => Some(seq![TokenV { token_type: tt, lexeme: None }] + rest),
                None => None,
            },
            None => None,
        }
    }
}

#[via_fn]
proof fn spec_tokenize_decreases(s: Seq<char>, i: int) {
    if 0 <= i < s.len() {
        if is_ident_start_char(s[i]) {
            lemma_word_run_end(s, i);
        } else if is_digit_char(s[i]) {
            lemma_digit_run_end(s, i);
        }
    }
}

impl Token {
    pub fn new_identifier(lexeme: String) -> (t: Token)
        ensures
            t@ == (TokenV { token_type: TokenType::Identifier, lexeme: Some(lexeme@) }),
    {
        Token { token_type: TokenType::Identifier, lexeme: Some(lexeme) }
    }

    pub fn new_constant(lexeme: String) -> (t: Token)
        ensures
            t@ == (TokenV { token_type: TokenType::Constant, lexeme: Some(lexeme@) }),
    {
        Token { token_type: TokenType::Constant, lexeme: Some(lexeme) }
    }

    pub fn new_int() -> (t: Token)
        ensures
            t@ == (TokenV { token_type: TokenType::Int, lexeme: None }),
    {
        Token { token_type: TokenType::Int, lexeme: None }
    }

    pub fn new_void() -> (t: Token)
        ensures
            t@ == (TokenV { token_type: TokenType::Void, lexeme: None }),
    {
        Token { token_type: TokenType::Void, lexeme: None }
    }

    pub fn new_return() -> (t: Token)
        ensures
            t@ == (TokenV { token_type: TokenType::Return, lexeme: None }),
    {
        Token { token_type: TokenType::Return, lexeme: None }
    }

    pub fn new_left_paren() -> (t: Token)
        ensures
            t@ == (TokenV { token_type: TokenType::LeftParen, lexeme: None }),
    {
        Token { token_type: TokenType::LeftParen, lexeme: None }
    }

    pub fn new_right_paren() -> (t: Token)
        ensures
            t@ == (TokenV { token_type: TokenType::RightParen, lexeme: None }),
    {
        Token { token_type: TokenType::RightParen, lexeme: None }
    }

    pub fn new_left_brace() -> (t: Token)
        ensures
            t@ == (TokenV { token_type: TokenType::LeftBrace, lexeme: None }),
    {
        Token { token_type: TokenType::LeftBrace, lexeme: None }
    }

    pub fn new_right_brace() -> (t: Token)
        ensures
            t@ == (TokenV { token_type: TokenType::RightBrace, lexeme: None }),
    {
        Token { token_type: TokenType::RightBrace, lexeme: None }
    }

    pub fn new_semicolon() -> (t: Token)
        ensures
            t@ == (TokenV { token_type: TokenType::Semicolon, lexeme: None }),
    {
        Token { token_type: TokenType::Semicolon, lexeme: None }
    }
}

/// Resolves a matched word to its token: a keyword token for the reserved
/// words, a generic identifier otherwise.
fn classify_word(w: &str) -> (t: Token)
    ensures
        t@ == token_of_word(w@),
{
    let n = w.unicode_len();
    if n == 3 && w.get_char(0) == 'i' && w.get_char(1) == 'n' && w.get_char(2) == 't' {
        proof {
            assert(w@ =~= int_word());
        }
        Token::new_int()
    } else if n == 4 && w.get_char(0) == 'v' && w.get_char(1) == 'o' && w.get_char(2) == 'i'
        && w.get_char(3) == 'd' {
        proof {
            assert(w@ =~= void_word());
        }
        Token::new_void()
    } else if n == 6 && w.get_char(0) == 'r' && w.get_char(1) == 'e' && w.get_char(2) == 't'
        && w.get_char(3) == 'u' && w.get_char(4) == 'r' && w.get_char(5) == 'n' {
        proof {
            assert(w@ =~= return_word());
        }
        Token::new_return()
    } else {
        proof {
            assert(w@ != int_word());
            assert(w@ != void_word());
            assert(w@ != return_word());
        }
        Token::new_identifier(w.to_owned())
    }
}

/// Lexer which processes source text and returns the tokens it holds.
#[derive(Debug)]
pub struct Lexer {
    /// Source code.
    pub source: String,
    /// Processed tokens.
    pub tokens: Vec<Token>,
    /// Current position in the source code, counted in characters.
    pub position: usize,
}

impl Lexer {
    pub fn new(source: String) -> (l: Lexer)
        ensures
            l.source == source,
            l.tokens@ =~= Seq::<Token>::empty(),
            l.position == 0,
    {
        Lexer { source, tokens: Vec::new(), position: 0 }
    }

    /// Processes the source text into its token sequence. Fails when no
    /// token pattern matches at some position.
    pub fn tokenize(&mut self) -> (r: Result<Vec<Token>, LexerError>)
        requires
            old(self).position == 0,
            old(self).tokens@.len() == 0,
        ensures
            final(self).source == old(self).source,
            match r {
                Ok(toks) => spec_tokenize(old(self).source@, 0) == Some(tokens_view(toks@)),
                Err(e) => spec_tokenize(old(self).source@, 0) is None && e
                    == LexerError::UnknownToken,
            },
    {
        let ghost src = self.source@;
        let n = self.source.as_str().unicode_len();
        while self.position < n
            invariant
                self.source@ == src,
                self.source == old(self).source,
                n == src.len(),
                self.position <= n,
                match spec_tokenize(src, self.position as int) {
                    Some(rest) => spec_tokenize(src, 0) == Some(
                        tokens_view(self.tokens@) + rest,
                    ),
                    None => spec_tokenize(src, 0) is None,
                },
            decreases n - self.position,
        {
            let c = self.source.as_str().get_char(self.position);
            if is_space(c) {
                self.position = self.position + 1;
            } else if is_ident_start(c) {
                let start = self.position;
                let j = self.scan_word_run();
                proof {
                    lemma_word_run_end(src, start as int);
                }
                let lexeme = self.source.as_str().substring_char(start, j);
                let tok = classify_word(lexeme);
                proof {
                    let tv = token_of_word(src.subrange(start as int, j as int));
                    assert(tokens_view(self.tokens@.push(tok)) =~= tokens_view(self.tokens@)
                        + seq![tv]);
                    if spec_tokenize(src, j as int) is Some {
                        assert(tokens_view(self.tokens@) + (seq![tv] + spec_tokenize(
                            src,
                            j as int,
                        )->Some_0) =~= (tokens_view(self.tokens@) + seq![tv]) + spec_tokenize(
                            src,
                            j as int,
                        )->Some_0);
                    }
                }
                self.tokens.push(tok);
                self.position = j;
            } else if is_digit(c) {
                let start = self.position;
                let j = self.scan_digit_run();
                proof {
                    lemma_digit_run_end(src, start as int);
                }
                if j < n && is_word(self.source.as_str().get_char(j)) {
                    return Err(LexerError::UnknownToken);
                }
                let lexeme = self.source.as_str().substring_char(start, j);
                let tok = Token::new_constant(lexeme.to_owned());
                proof {
                    let tv = TokenV {
                        token_type: TokenType::Constant,
                        lexeme: Some(src.subrange(start as int, j as int)),
                    };
                    assert(tokens_view(self.tokens@.push(tok)) =~= tokens_view(self.tokens@)
                        + seq![tv]);
                    if spec_tokenize(src, j as int) is Some {
                        assert(tokens_view(self.tokens@) + (seq![tv] + spec_tokenize(
                            src,
                            j as int,
                        )->Some_0) =~= (tokens_view(self.tokens@) + seq![tv]) + spec_tokenize(
                            src,
                            j as int,
                        )->Some_0);
                    }
                }
                self.tokens.push(tok);
                self.position = j;
            } else {
                let tok = if c == '(' {
                    Token::new_left_paren()
                } else if c == ')' {
                    Token::new_right_paren()
                } else if c == '{' {
                    Token::new_left_brace()
                } else if c == '}' {
                    Token::new_right_brace()
                } else if c == ';' {
                    Token::new_semicolon()
                } else {
                    return Err(LexerError::UnknownToken);
                };
                proof {
                    let tv = TokenV { token_type: punct_token_type(c)->Some_0, lexeme: None };
                    assert(tokens_view(self.tokens@.push(tok)) =~= tokens_view(self.tokens@)
                        + seq![tv]);
                    if spec_tokenize(src, self.position + 1) is Some {
                        assert(tokens_view(self.tokens@) + (seq![tv] + spec_tokenize(
                            src,
                            self.position + 1,
                        )->Some_0) =~= (tokens_view(self.tokens@) + seq![tv]) + spec_tokenize(
                            src,
                            self.position + 1,
                        )->Some_0);
                    }
                }
                self.tokens.push(tok);
                self.position = self.position + 1;
            }
        }
        proof {
            assert(spec_tokenize(src, n as int) == Some(Seq::<TokenV>::empty()));
            assert(tokens_view(self.tokens@) + Seq::<TokenV>::empty() =~= tokens_view(
                self.tokens@,
            ));
        }
        let r = self.tokens.clone();
        proof {
            assert(r@ =~= self.tokens@) by {
                assert forall|i: int| 0 <= i < r@.len() implies r@[i] == self.tokens@[i] by {
                    assert(cloned::<Token>(self.tokens@[i], r@[i]));
                }
            }
        }
        Ok(r)
    }

    /// Advances nothing; returns the end of the run of word characters that
    /// starts at the current position.
    fn scan_word_run(&self) -> (j: usize)
        requires
            self.position <= self.source@.len(),
        ensures
            j == word_run_end(self.source@, self.position as int),
            self.position <= j <= self.source@.len(),
    {
        let ghost src = self.source@;
        let n = self.source.as_str().unicode_len();
        let mut j = self.position;
        while j < n && is_word(self.source.as_str().get_char(j))
            invariant
                self.position <= j <= n,
                n == src.len(),
                src == self.source@,
                word_run_end(src, self.position as int) == word_run_end(src, j as int),
            decreases n - j,
        {
            j = j + 1;
        }
        proof {
            lemma_word_run_end(src, self.position as int);
        }
        j
    }

    /// Returns the end of the run of digits that starts at the current
    /// position.
    fn scan_digit_run(&self) -> (j: usize)
        requires
            self.position <= self.source@.len(),
        ensures
            j == digit_run_end(self.source@, self.position as int),
            self.position <= j <= self.source@.len(),
    {
        let ghost src = self.source@;
        let n = self.source.as_str().unicode_len();
        let mut j = self.position;
        while j < n && is_digit(self.source.as_str().get_char(j))
            invariant
                self.position <= j <= n,
                n == src.len(),
                src == self.source@,
                digit_run_end(src, self.position as int) == digit_run_end(src, j as int),
            decreases n - j,
        {
            j = j + 1;
        }
        proof {
            lemma_digit_run_end(src, self.position as int);
        }
        j
    }
}

} // verus!
