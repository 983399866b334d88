use vstd::prelude::*;

verus! {

/// The reserved words of the language.
///
/// `do`, `for`, `break` and `continue` are recognized by the scanner but have
/// no production in the grammar yet.
#[derive(Copy, Clone, Debug, PartialEq, Eq, Structural)]
pub enum KeywordTokenKind {
    Let,
    Const,
    If,
    Else,
    While,
    Do,
    For,
    Function,
    Return,
    Break,
    Continue,
}

/// Operator tokens. `And` and `Or` are the logical operators, spelled `&` / `&&`
/// and `|` / `||`.
#[derive(Copy, Clone, Debug, PartialEq, Eq, Structural)]
pub enum OperatorTokenKind {
    Plus,
    Minus,
    Star,
    Slash,
    Percent,
    Caret,
    And,
    Or,
    Not,
    Equal,
    NotEqual,
    Less,
    DoubleLess,
    TripleLess,
    Greater,
    DoubleGreater,
    TripleGreater,
    LessEqual,
    GreaterEqual,
    Assign,
    PlusAssign,
    MinusAssign,
    StarAssign,
    SlashAssign,
    PercentAssign,
}

/// Single-character punctuation tokens.
#[derive(Copy, Clone, Debug, PartialEq, Eq, Structural)]
pub enum PunctuationTokenKind {
    LParen,
    RParen,
    LBrace,
    RBrace,
    LBracket,
    RBracket,
    Semicolon,
    Comma,
    Dot,
}

/// Literal tokens: numbers, strings and identifiers.
#[derive(Copy, Clone, Debug, PartialEq, Eq, Structural)]
pub enum LiteralTokenKind {
    Number,
    String,
    Identifier,
}

/// The closed set of token kinds shared by the scanner and the parser.
#[derive(Copy, Clone, Debug, PartialEq, Eq, Structural)]
pub enum TokenKind {
    Keyword(KeywordTokenKind),
    Operator(OperatorTokenKind),
    Punctuation(PunctuationTokenKind),
    Literal(LiteralTokenKind),
    Comment,
    EOF,
}

/// A token: its kind and the source text it was scanned from (for a string
/// literal, the text between the quotes).
#[derive(Debug, PartialEq)]
pub struct Token {
    pub kind: TokenKind,
    pub value: String,
}

impl Token {
    pub fn new(kind: TokenKind, value: &str) -> (r: Token)
        ensures
            r.kind == kind,
            r.value@ == value@,
    {
        Token { kind, value: value.to_string() }
    }
}

impl Clone for Token {
    fn clone(&self) -> (r: Token)
        ensures
            r == *self,
    {
        Token { kind: self.kind, value: self.value.clone() }
    }
}

} // verus!
