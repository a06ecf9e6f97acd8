//! Tokens: what the evaluator keeps of the source text to name the place of a
//! runtime error.

use vstd::prelude::*;

verus! {

/// The kinds of token of the language.
#[derive(Clone, Copy, Debug, PartialEq, Eq, Structural)]
pub enum TokenType {
    LeftParen,
    RightParen,
    LeftBrace,
    RightBrace,
    LeftBracket,
    RightBracket,
    Comma,
    Dot,
    Minus,
    Plus,
    Semicolon,
    Slash,
    Star,
    Mod,
    Hash,
    Question,
    Colon,
    Bang,
    BangEqual,
    Equal,
    EqualEqual,
    Greater,
    GreaterEqual,
    Less,
    LessEqual,
    Incr,
    Decr,
    Identifier,
    String,
    Number,
    And,
    Break,
    Class,
    Continue,
    Else,
    False,
    For,
    Fun,
    If,
    Nil,
    Or,
    Print,
    Return,
    Super,
    This,
    True,
    Var,
    While,
    Eof,
}

/// A token: its kind, its text and the line it stood on.
#[derive(Debug)]
pub struct Token {
    pub type_: TokenType,
    pub lexeme: String,
    pub line: usize,
}

/// What a token is in contracts.
pub ghost struct TokenModel {
    pub kind: TokenType,
    pub lexeme: Seq<char>,
    pub line: usize,
}

impl View for Token {
    type V = TokenModel;

    open spec fn view(&self) -> TokenModel {
        TokenModel { kind: self.type_, lexeme: self.lexeme@, line: self.line }
    }
}

impl Token {
    /// A token of the given parts.
    pub fn new(type_: TokenType, lexeme: &str, line: usize) -> (r: Token)
        ensures
            r@ == (TokenModel { kind: type_, lexeme: lexeme@, line }),
    {
        Token { type_, lexeme: String::from_str(lexeme), line }
    }

    /// A copy that is equal to the token, not only in its view.
    pub fn copy(&self) -> (r: Token)
        ensures
            r == *self,
    {
        Token { type_: self.type_, lexeme: self.lexeme.clone(), line: self.line }
    }
}

/// A runtime error as contracts see it: the offending token and a message.
pub ghost struct Fault {
    pub token: TokenModel,
    pub message: Seq<char>,
}

/// The result of an operation of the evaluator: a value, or the offending
/// token with a message.
pub type RuntimeError<T> = Result<T, (Token, String)>;

/// What a runtime error is in contracts.
pub open spec fn view_fault(e: (Token, String)) -> Fault {
    Fault { token: e.0@, message: e.1@ }
}

/// Builds the error for `token` with `message`.
pub fn fault(token: &Token, message: &str) -> (e: (Token, String))
    ensures
        view_fault(e) == (Fault { token: token@, message: message@ }),
{
    (token.copy(), String::from_str(message))
}

} // verus!
