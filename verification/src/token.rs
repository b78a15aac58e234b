//! Tokens: the closed set of kinds, the literal payload, and the token record itself.

use vstd::prelude::*;

verus! {

/// The closed set of categories a token can belong to.
#[derive(Debug, Clone, Copy, PartialEq, Eq, Structural)]
pub enum TokenType {
    // Single-character tokens.
    LeftParen,
    RightParen,
    LeftBrace,
    RightBrace,
    Comma,
    Dot,
    Minus,
    Plus,
    SemiColon,
    Slash,
    Star,
    // One or two character tokens.
    Bang,
    BangEqual,
    Equal,
    EqualEqual,
    Greater,
    GreaterEqual,
    Less,
    LessEqual,
    // Literals.
    Identifier,
    String,
    Number,
    // Keywords.
    And,
    Class,
    Else,
    False,
    Fun,
    For,
    If,
    Nil,
    Or,
    Print,
    Return,
    Super,
    This,
    True,
    Var,
    While,
    EOF,
}

/// The decoded value carried by a literal token.
///
/// A numeric literal carries its numeral exactly as written (digits, optionally a dot and
/// more digits); turning the numeral into a machine number is left to the caller.
#[derive(Debug, PartialEq)]
pub enum LiteralTypes {
    String(String),
    Number(String),
    Bool(bool),
    Nil,
}

/// Mathematical model of a [`LiteralTypes`] value.
pub ghost enum LiteralView {
    String(Seq<char>),
    Number(Seq<char>),
    Bool(bool),
    Nil,
}

impl View for LiteralTypes {
    type V = LiteralView;

    open spec fn view(&self) -> LiteralView {
        match self {
            LiteralTypes::String(s) => LiteralView::String(s@),
            LiteralTypes::Number(s) => LiteralView::Number(s@),
            LiteralTypes::Bool(b) => LiteralView::Bool(*b),
            LiteralTypes::Nil => LiteralView::Nil,
        }
    }
}

impl Clone for LiteralTypes {
    fn clone(&self) -> (copy: Self)
        ensures
            copy == *self,
    {
        match self {
            LiteralTypes::String(s) => LiteralTypes::String(s.clone()),
            LiteralTypes::Number(s) => LiteralTypes::Number(s.clone()),
            LiteralTypes::Bool(b) => LiteralTypes::Bool(*b),
            LiteralTypes::Nil => LiteralTypes::Nil,
        }
    }
}

/// One token of the source text.
#[derive(Debug, PartialEq)]
pub struct Token {
    pub ttype: TokenType,
    pub lexeme: String,
    pub literal: LiteralTypes,
    pub line: usize,
}

/// Mathematical model of a [`Token`].
pub ghost struct TokenView {
    pub ttype: TokenType,
    pub lexeme: Seq<char>,
    pub literal: LiteralView,
    pub line: int,
}

impl View for Token {
    type V = TokenView;

    open spec fn view(&self) -> TokenView {
        TokenView {
            ttype: self.ttype,
            lexeme: self.lexeme@,
            literal: self.literal@,
            line: self.line as int,
        }
    }
}

impl DeepView for Token {
    type V = TokenView;

    open spec fn deep_view(&self) -> TokenView {
        self@
    }
}

impl Token {
    /// A token made of its four parts.
    pub fn new(ttype: TokenType, lexeme: String, literal: LiteralTypes, line: usize) -> (token: Self)
        ensures
            token == (Token { ttype, lexeme, literal, line }),
    {
        Self { ttype, lexeme, literal, line }
    }
}

impl Clone for Token {
    fn clone(&self) -> (copy: Self)
        ensures
            copy == *self,
    {
        Token {
            ttype: self.ttype,
            lexeme: self.lexeme.clone(),
            literal: self.literal.clone(),
            line: self.line,
        }
    }
}

} // verus!
