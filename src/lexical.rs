use crate::token::{
    KeywordTokenKind, LiteralTokenKind, OperatorTokenKind, PunctuationTokenKind, Token,
    TokenKind,
};
use vstd::prelude::*;

verus! {

/// What a scan can fail with.
#[derive(Copy, Clone, Debug, PartialEq, Eq, Structural)]
pub enum LexError {
    /// A string literal opened at `position` (a character index) has no closing quote.
    UnterminatedString { position: usize },
    /// `character`, at `position`, starts no token.
    UnexpectedCharacter { character: char, position: usize },
}

/// A token as a mathematical value: its kind and its text.
pub struct Lexeme {
    pub kind: TokenKind,
    pub text: Seq<char>,
}

impl Token {
    pub open spec fn lexeme(&self) -> Lexeme {
        Lexeme { kind: self.kind, text: self.value@ }
    }
}

/// The lexemes of a token sequence, in order.
pub open spec fn lexemes(ts: Seq<Token>) -> Seq<Lexeme> {
    ts.map_values(|t: Token| t.lexeme())
}

/// An ASCII decimal digit.
pub open spec fn is_digit(c: char) -> bool {
    '0' <= c <= '9'
}

/// A character that starts an identifier or keyword: an ASCII letter or `_`.
pub open spec fn is_ident_start(c: char) -> bool {
    ('a' <= c <= 'z') || ('A' <= c <= 'Z') || c == '_'
}

/// A character that continues an identifier: an ASCII letter, digit or `_`.
pub open spec fn is_ident_char(c: char) -> bool {
    is_ident_start(c) || is_digit(c)
}

/// Whitespace between tokens: space, tab, carriage return, line feed.
pub open spec fn is_whitespace(c: char) -> bool {
    c == ' ' || c == '\t' || c == '\n' || c == '\r'
}

/// A character that starts an operator (or, doubled as `//`, a comment).
pub open spec fn is_operator_start(c: char) -> bool {
    c == '+' || c == '-' || c == '*' || c == '/' || c == '%' || c == '^' || c == '&' || c == '|'
        || c == '!' || c == '=' || c == '<' || c == '>'
}

/// The punctuation token that the character `c` stands for, if any.
pub open spec fn punctuation(c: char) -> Option<PunctuationTokenKind> {
    if c == '(' {
        Some(PunctuationTokenKind::LParen)
    } else if c == ')' {
        Some(PunctuationTokenKind::RParen)
    } else if c == '{' {
        Some(PunctuationTokenKind::LBrace)
    } else if c == '}' {
        Some(PunctuationTokenKind::RBrace)
    } else if c == '[' {
        Some(PunctuationTokenKind::LBracket)
    } else if c == ']' {
        Some(PunctuationTokenKind::RBracket)
    } else if c == ';' {
        Some(PunctuationTokenKind::Semicolon)
    } else if c == ',' {
        Some(PunctuationTokenKind::Comma)
    } else if c == '.' {
        Some(PunctuationTokenKind::Dot)
    } else {
        None
    }
}

/// The keyword spelled by `w`, if any. Keywords are case-sensitive, and a
/// function is introduced by `fun` or by `function`.
pub open spec fn keyword(w: Seq<char>) -> Option<KeywordTokenKind> {
    if w == "let"@ {
        Some(KeywordTokenKind::Let)
    } else if w == "const"@ {
        Some(KeywordTokenKind::Const)
    } else if w == "if"@ {
        Some(KeywordTokenKind::If)
    } else if w == "else"@ {
        Some(KeywordTokenKind::Else)
    } else if w == "while"@ {
        Some(KeywordTokenKind::While)
    } else if w == "do"@ {
        Some(KeywordTokenKind::Do)
    } else if w == "for"@ {
        Some(KeywordTokenKind::For)
    } else if w == "fun"@ || w == "function"@ {
        Some(KeywordTokenKind::Function)
    } else if w == "return"@ {
        Some(KeywordTokenKind::Return)
    } else if w == "break"@ {
        Some(KeywordTokenKind::Break)
    } else if w == "continue"@ {
        Some(KeywordTokenKind::Continue)
    } else {
        None
    }
}

/// The operator table: the kind of the lexeme `l`, if it is one. `//` opens a
/// line comment. `&&` and `||` spell the same logical operators as `&` and `|`.
pub open spec fn operator_kind(l: Seq<char>) -> Option<TokenKind> {
    if l == "+"@ {
        Some(TokenKind::Operator(OperatorTokenKind::Plus))
    } else if l == "-"@ {
        Some(TokenKind::Operator(OperatorTokenKind::Minus))
    } else if l == "*"@ {
        Some(TokenKind::Operator(OperatorTokenKind::Star))
    } else if l == "/"@ {
        Some(TokenKind::Operator(OperatorTokenKind::Slash))
    } else if l == "%"@ {
        Some(TokenKind::Operator(OperatorTokenKind::Percent))
    } else if l == "^"@ {
        Some(TokenKind::Operator(OperatorTokenKind::Caret))
    } else if l == "&"@ || l == "&&"@ {
        Some(TokenKind::Operator(OperatorTokenKind::And))
    } else if l == "|"@ || l == "||"@ {
        Some(TokenKind::Operator(OperatorTokenKind::Or))
    } else if l == "!"@ {
        Some(TokenKind::Operator(OperatorTokenKind::Not))
    } else if l == "=="@ {
        Some(TokenKind::Operator(OperatorTokenKind::Equal))
    } else if l == "!="@ {
        Some(TokenKind::Operator(OperatorTokenKind::NotEqual))
    } else if l == "<"@ {
        Some(TokenKind::Operator(OperatorTokenKind::Less))
    } else if l == "<<"@ {
        Some(TokenKind::Operator(OperatorTokenKind::DoubleLess))
    } else if l == "<<<"@ {
        Some(TokenKind::Operator(OperatorTokenKind::TripleLess))
    } else if l == ">"@ {
        Some(TokenKind::Operator(OperatorTokenKind::Greater))
    } else if l == ">>"@ {
        Some(TokenKind::Operator(OperatorTokenKind::DoubleGreater))
    } else if l == ">>>"@ {
        Some(TokenKind::Operator(OperatorTokenKind::TripleGreater))
    } else if l == "<="@ {
        Some(TokenKind::Operator(OperatorTokenKind::LessEqual))
    } else if l == ">="@ {
        Some(TokenKind::Operator(OperatorTokenKind::GreaterEqual))
    } else if l == "="@ {
        Some(TokenKind::Operator(OperatorTokenKind::Assign))
    } else if l == "+="@ {
        Some(TokenKind::Operator(OperatorTokenKind::PlusAssign))
    } else if l == "-="@ {
        Some(TokenKind::Operator(OperatorTokenKind::MinusAssign))
    } else if l == "*="@ {
        Some(TokenKind::Operator(OperatorTokenKind::StarAssign))
    } else if l == "/="@ {
        Some(TokenKind::Operator(OperatorTokenKind::SlashAssign))
    } else if l == "%="@ {
        Some(TokenKind::Operator(OperatorTokenKind::PercentAssign))
    } else if l == "//"@ {
        Some(TokenKind::Comment)
    } else {
        None
    }
}

/// The end of the run of digits of `s` that starts at `i`.
pub open spec fn digits_end(s: Seq<char>, i: int) -> int
    decreases s.len() - i,
{
    if 0 <= i < s.len() && is_digit(s[i]) {
        digits_end(s, i + 1)
    } else {
        i
    }
}

/// The end of the run of identifier characters of `s` that starts at `i`.
pub open spec fn ident_end(s: Seq<char>, i: int) -> int
    decreases s.len() - i,
{
    if 0 <= i < s.len() && is_ident_char(s[i]) {
        ident_end(s, i + 1)
    } else {
        i
    }
}

/// The index of the first `"` of `s` at or after `i`, or the length of `s`.
pub open spec fn quote_end(s: Seq<char>, i: int) -> int
    decreases s.len() - i,
{
    if 0 <= i < s.len() && s[i] != '"' {
        quote_end(s, i + 1)
    } else {
        i
    }
}

/// The index of the first line feed of `s` at or after `i`, or the length of `s`.
pub open spec fn line_end(s: Seq<char>, i: int) -> int
    decreases s.len() - i,
{
    if 0 <= i < s.len() && s[i] != '\n' {
        line_end(s, i + 1)
    } else {
        i
    }
}

/// The end of the fraction part that may follow the digits ending at `a`: a
/// `.` and a run of digits.
pub open spec fn fraction_end(s: Seq<char>, a: int) -> int {
    if 0 <= a < s.len() && s[a] == '.' {
        digits_end(s, a + 1)
    } else {
        a
    }
}

/// Where the digits of an exponent start, its `e` or `E` being at `b`.
pub open spec fn exponent_digits_start(s: Seq<char>, b: int) -> int {
    if b + 1 < s.len() && (s[b + 1] == '+' || s[b + 1] == '-') {
        b + 2
    } else {
        b + 1
    }
}

/// Whether an exponent mark, `e` or `E`, stands at `b`.
pub open spec fn is_exponent_mark(s: Seq<char>, b: int) -> bool {
    0 <= b < s.len() && (s[b] == 'e' || s[b] == 'E')
}

/// The end of the number literal that starts at `i`: digits, an optional
/// fraction (`.` then digits), and an optional exponent (`e` or `E`, an
/// optional sign, then digits).
pub open spec fn number_end(s: Seq<char>, i: int) -> int {
    let b = fraction_end(s, digits_end(s, i));
    if is_exponent_mark(s, b) {
        digits_end(s, exponent_digits_start(s, b))
    } else {
        b
    }
}

/// Whether `s` is a decimal literal: an optional run of digits, an optional
/// fraction (`.` then an optional run of digits), with at least one digit
/// among the two, then an optional exponent (`e` or `E`, an optional sign, then
/// at least one digit), and nothing else.
pub open spec fn is_number_literal(s: Seq<char>) -> bool {
    let a = digits_end(s, 0);
    let b = fraction_end(s, a);
    &&& (a > 0 || b > a + 1)
    &&& if is_exponent_mark(s, b) {
        let c = exponent_digits_start(s, b);
        digits_end(s, c) > c && digits_end(s, c) == s.len()
    } else {
        b == s.len()
    }
}

/// The length of the longest lexeme of the operator table at `i`; 1 where none
/// of two or three characters matches.
pub open spec fn operator_len(s: Seq<char>, i: int) -> int {
    if i + 3 <= s.len() && operator_kind(s.subrange(i, i + 3)) is Some {
        3
    } else if i + 2 <= s.len() && operator_kind(s.subrange(i, i + 2)) is Some {
        2
    } else {
        1
    }
}

/// The token that starts at `i`, a character that is not whitespace: its
/// kind, its text and where it ends.
pub open spec fn token_at(s: Seq<char>, i: int) -> Result<(TokenKind, Seq<char>, int), LexError> {
    let c = s[i];
    if is_ident_start(c) {
        let e = ident_end(s, i);
        let w = s.subrange(i, e);
        let kind = match keyword(w) {
            Some(k) => TokenKind::Keyword(k),
            None => TokenKind::Literal(LiteralTokenKind::Identifier),
        };
        Ok((kind, w, e))
    } else if is_digit(c) {
        let e = number_end(s, i);
        Ok((TokenKind::Literal(LiteralTokenKind::Number), s.subrange(i, e), e))
    } else if c == '"' {
        let e = quote_end(s, i + 1);
        if e < s.len() {
            Ok((TokenKind::Literal(LiteralTokenKind::String), s.subrange(i + 1, e), e + 1))
        } else {
            Err(LexError::UnterminatedString { position: i as usize })
        }
    } else if is_operator_start(c) {
        let n = operator_len(s, i);
        let kind = operator_kind(s.subrange(i, i + n)).unwrap();
        if kind == TokenKind::Comment {
            let e = line_end(s, i + 2);
            Ok((TokenKind::Comment, s.subrange(i, e), e))
        } else {
            Ok((kind, s.subrange(i, i + n), i + n))
        }
    } else {
        match punctuation(c) {
            Some(p) => Ok((TokenKind::Punctuation(p), seq![c], i + 1)),
            None => Err(LexError::UnexpectedCharacter { character: c, position: i as usize }),
        }
    }
}

/// Scans `s` from `i`, with the lexemes `done` already produced: whitespace is
/// skipped, each other character starts a token, and the result ends with one
/// end-of-input lexeme. The first error ends the scan.
pub open spec fn scan(s: Seq<char>, i: int, done: Seq<Lexeme>) -> Result<Seq<Lexeme>, LexError>
    decreases s.len() - i,
{
    if i < 0 || i >= s.len() {
        Ok(done.push(Lexeme { kind: TokenKind::EOF, text: Seq::empty() }))
    } else if is_whitespace(s[i]) {
        scan(s, i + 1, done)
    } else {
        match token_at(s, i) {
            Err(e) => Err(e),
            Ok((kind, text, e)) => {
                // every token takes at least one character; the guard states it
                if i < e <= s.len() {
                    scan(s, e, done.push(Lexeme { kind, text }))
                } else {
                    Err(LexError::UnexpectedCharacter { character: s[i], position: i as usize })
                }
            },
        }
    }
}

/// The lexemes of the source text `s`.
pub open spec fn lex(s: Seq<char>) -> Result<Seq<Lexeme>, LexError> {
    scan(s, 0, Seq::empty())
}

/// Every one-character operator start is a lexeme of the operator table.
pub proof fn lemma_single_operator(c: char)
    requires
        is_operator_start(c),
    ensures
        operator_kind(seq![c]) is Some,
        operator_kind(seq![c]) != Some(TokenKind::Comment),
{
    reveal_strlit("+");
    reveal_strlit("-");
    reveal_strlit("*");
    reveal_strlit("/");
    reveal_strlit("%");
    reveal_strlit("^");
    reveal_strlit("&");
    reveal_strlit("|");
    reveal_strlit("!");
    reveal_strlit("=");
    reveal_strlit("<");
    reveal_strlit(">");
    reveal_strlit("//");
    if c == '+' {
        assert(seq![c] =~= "+"@);
    } else if c == '-' {
        assert(seq![c] =~= "-"@);
    } else if c == '*' {
        assert(seq![c] =~= "*"@);
    } else if c == '/' {
        assert(seq![c] =~= "/"@);
    } else if c == '%' {
        assert(seq![c] =~= "%"@);
    } else if c == '^' {
        assert(seq![c] =~= "^"@);
    } else if c == '&' {
        assert(seq![c] =~= "&"@);
    } else if c == '|' {
        assert(seq![c] =~= "|"@);
    } else if c == '!' {
        assert(seq![c] =~= "!"@);
    } else if c == '=' {
        assert(seq![c] =~= "="@);
    } else if c == '<' {
        assert(seq![c] =~= "<"@);
    } else {
        assert(seq![c] =~= ">"@);
    }
}

} // verus!
