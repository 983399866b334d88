use crate::lexical::{
    digits_end, exponent_digits_start, fraction_end, ident_end, is_digit, is_ident_char,
    is_ident_start, is_operator_start, is_whitespace, keyword, lemma_single_operator, lexemes,
    line_end, operator_kind, operator_len, punctuation, quote_end, scan, token_at, LexError,
    Lexeme,
};
use crate::text::{chars_of, digit_run_end, is_ascii_digit, lemma_digits_end, substring};
use crate::token::{
    KeywordTokenKind, LiteralTokenKind, OperatorTokenKind, PunctuationTokenKind, Token,
    TokenKind,
};
use vstd::prelude::*;

verus! {

broadcast use vstd::std_specs::vec::group_vec_axioms;

/// The outcome of a scan, as lexemes.
pub open spec fn lex_outcome(r: Result<Vec<Token>, LexError>) -> Result<Seq<Lexeme>, LexError> {
    match r {
        Ok(v) => Ok(lexemes(v@)),
        Err(e) => Err(e),
    }
}

/// Whether `r`, with the cursor left at `end`, is the token that starts at `i`.
pub open spec fn produced(s: Seq<char>, i: int, r: Result<Token, LexError>, end: int) -> bool {
    match token_at(s, i) {
        Ok((kind, text, e)) => r matches Ok(t) && t.kind == kind && t.value@ == text && end == e,
        Err(err) => r == Err::<Token, LexError>(err),
    }
}

/// A scanner over a source text, with a cursor that only moves forward.
pub struct Tokenizer {
    chars: Vec<char>,
    position: usize,
}

impl Tokenizer {
    /// The source text.
    pub closed spec fn source(&self) -> Seq<char> {
        self.chars@
    }

    /// The cursor, a character index into the source.
    pub closed spec fn position(&self) -> int {
        self.position as int
    }

    pub closed spec fn wf(&self) -> bool {
        self.position <= self.chars.len()
    }

    pub fn new(input: &str) -> (r: Tokenizer)
        ensures
            r.source() == input@,
            r.position() == 0,
            r.wf(),
    {
        let chars = chars_of(input);
        Tokenizer { chars, position: 0 }
    }

    /// The character under the cursor, if any.
    fn peek(&self) -> (r: Option<char>)
        requires
            self.wf(),
        ensures
            r == (if self.position() < self.source().len() {
                Some(self.source()[self.position()])
            } else {
                None
            }),
    {
        if self.position < self.chars.len() {
            Some(self.chars[self.position])
        } else {
            None
        }
    }

    /// Moves the cursor past one character.
    fn advance(&mut self)
        requires
            old(self).wf(),
            old(self).position() < old(self).source().len(),
        ensures
            final(self).wf(),
            final(self).source() == old(self).source(),
            final(self).position() == old(self).position() + 1,
    {
        self.position = self.position + 1;
    }

    /// The source text from `start` to `end`.
    fn text(&self, start: usize, end: usize) -> (r: String)
        requires
            start <= end <= self.source().len(),
        ensures
            r@ == self.source().subrange(start as int, end as int),
    {
        substring(&self.chars, start, end)
    }

    /// Whether the source text from `start` to `end` is `word`.
    fn text_is(&self, start: usize, end: usize, word: &str) -> (r: bool)
        requires
            start <= end <= self.source().len(),
        ensures
            r == (self.source().subrange(start as int, end as int) == word@),
    {
        let n = word.unicode_len();
        if end - start != n {
            return false;
        }
        let mut i: usize = 0;
        while i < n
            invariant
                n == word@.len(),
                end - start == n,
                start <= end <= self.chars@.len(),
                i <= n,
                forall|j: int| 0 <= j < i ==> self.chars@[start + j] == word@[j],
            decreases n - i,
        {
            if self.chars[start + i] != word.get_char(i) {
                assert(self.chars@.subrange(start as int, end as int)[i as int] != word@[i as int]);
                return false;
            }
            i = i + 1;
        }
        assert(self.chars@.subrange(start as int, end as int) =~= word@);
        true
    }

    /// The keyword spelled by the source text from `start` to `end`, if any.
    fn keyword_at(&self, start: usize, end: usize) -> (r: Option<KeywordTokenKind>)
        requires
            start <= end <= self.source().len(),
        ensures
            r == keyword(self.source().subrange(start as int, end as int)),
    {
        if self.text_is(start, end, "let") {
            Some(KeywordTokenKind::Let)
        } else if self.text_is(start, end, "const") {
            Some(KeywordTokenKind::Const)
        } else if self.text_is(start, end, "if") {
            Some(KeywordTokenKind::If)
        } else if self.text_is(start, end, "else") {
            Some(KeywordTokenKind::Else)
        } else if self.text_is(start, end, "while") {
            Some(KeywordTokenKind::While)
        } else if self.text_is(start, end, "do") {
            Some(KeywordTokenKind::Do)
        } else if self.text_is(start, end, "for") {
            Some(KeywordTokenKind::For)
        } else if self.text_is(start, end, "fun") || self.text_is(start, end, "function") {
            Some(KeywordTokenKind::Function)
        } else if self.text_is(start, end, "return") {
            Some(KeywordTokenKind::Return)
        } else if self.text_is(start, end, "break") {
            Some(KeywordTokenKind::Break)
        } else if self.text_is(start, end, "continue") {
            Some(KeywordTokenKind::Continue)
        } else {
            None
        }
    }

    /// The kind of the operator lexeme spelled by the source text from `start`
    /// to `end`, if it is one.
    fn operator_at(&self, start: usize, end: usize) -> (r: Option<TokenKind>)
        requires
            start <= end <= self.source().len(),
        ensures
            r == operator_kind(self.source().subrange(start as int, end as int)),
    {
        if self.text_is(start, end, "+") {
            Some(TokenKind::Operator(OperatorTokenKind::Plus))
        } else if self.text_is(start, end, "-") {
            Some(TokenKind::Operator(OperatorTokenKind::Minus))
        } else if self.text_is(start, end, "*") {
            Some(TokenKind::Operator(OperatorTokenKind::Star))
        } else if self.text_is(start, end, "/") {
            Some(TokenKind::Operator(OperatorTokenKind::Slash))
        } else if self.text_is(start, end, "%") {
            Some(TokenKind::Operator(OperatorTokenKind::Percent))
        } else if self.text_is(start, end, "^") {
            Some(TokenKind::Operator(OperatorTokenKind::Caret))
        } else if self.text_is(start, end, "&") || self.text_is(start, end, "&&") {
            Some(TokenKind::Operator(OperatorTokenKind::And))
        } else if self.text_is(start, end, "|") || self.text_is(start, end, "||") {
            Some(TokenKind::Operator(OperatorTokenKind::Or))
        } else if self.text_is(start, end, "!") {
            Some(TokenKind::Operator(OperatorTokenKind::Not))
        } else if self.text_is(start, end, "==") {
            Some(TokenKind::Operator(OperatorTokenKind::Equal))
        } else if self.text_is(start, end, "!=") {
            Some(TokenKind::Operator(OperatorTokenKind::NotEqual))
        } else if self.text_is(start, end, "<") {
            Some(TokenKind::Operator(OperatorTokenKind::Less))
        } else if self.text_is(start, end, "<<") {
            Some(TokenKind::Operator(OperatorTokenKind::DoubleLess))
        } else if self.text_is(start, end, "<<<") {
            Some(TokenKind::Operator(OperatorTokenKind::TripleLess))
        } else if self.text_is(start, end, ">") {
            Some(TokenKind::Operator(OperatorTokenKind::Greater))
        } else if self.text_is(start, end, ">>") {
            Some(TokenKind::Operator(OperatorTokenKind::DoubleGreater))
        } else if self.text_is(start, end, ">>>") {
            Some(TokenKind::Operator(OperatorTokenKind::TripleGreater))
        } else if self.text_is(start, end, "<=") {
            Some(TokenKind::Operator(OperatorTokenKind::LessEqual))
        } else if self.text_is(start, end, ">=") {
            Some(TokenKind::Operator(OperatorTokenKind::GreaterEqual))
        } else if self.text_is(start, end, "=") {
            Some(TokenKind::Operator(OperatorTokenKind::Assign))
        } else if self.text_is(start, end, "+=") {
            Some(TokenKind::Operator(OperatorTokenKind::PlusAssign))
        } else if self.text_is(start, end, "-=") {
            Some(TokenKind::Operator(OperatorTokenKind::MinusAssign))
        } else if self.text_is(start, end, "*=") {
            Some(TokenKind::Operator(OperatorTokenKind::StarAssign))
        } else if self.text_is(start, end, "/=") {
            Some(TokenKind::Operator(OperatorTokenKind::SlashAssign))
        } else if self.text_is(start, end, "%=") {
            Some(TokenKind::Operator(OperatorTokenKind::PercentAssign))
        } else if self.text_is(start, end, "//") {
            Some(TokenKind::Comment)
        } else {
            None
        }
    }

    /// Moves the cursor past a run of digits.
    fn skip_digits(&mut self)
        requires
            old(self).wf(),
        ensures
            final(self).wf(),
            final(self).source() == old(self).source(),
            final(self).position() == digits_end(old(self).source(), old(self).position()),
            old(self).position() <= final(self).position(),
    {
        self.position = digit_run_end(&self.chars, self.position);
    }

    /// Moves the cursor past any whitespace.
    fn skip_whitespace(&mut self)
        requires
            old(self).wf(),
        ensures
            final(self).wf(),
            final(self).source() == old(self).source(),
            old(self).position() <= final(self).position(),
            old(self).position() < old(self).source().len() && is_whitespace(
                old(self).source()[old(self).position()],
            ) ==> old(self).position() < final(self).position(),
            forall|done: Seq<Lexeme>|
                scan(old(self).source(), old(self).position(), done) == #[trigger] scan(
                    final(self).source(),
                    final(self).position(),
                    done,
                ),
    {
        while self.position < self.chars.len() && is_space(self.chars[self.position])
            invariant
                self.wf(),
                self.chars@ == old(self).chars@,
                old(self).position <= self.position,
                forall|done: Seq<Lexeme>|
                    scan(old(self).chars@, old(self).position as int, done) == #[trigger] scan(
                        self.chars@,
                        self.position as int,
                        done,
                    ),
            decreases self.chars@.len() - self.position,
        {
            proof {
                assert forall|done: Seq<Lexeme>|
                    scan(self.chars@, self.position as int, done) == #[trigger] scan(
                        self.chars@,
                        self.position + 1,
                        done,
                    ) by {}
            }
            self.advance();
        }
    }

    /// Scans an identifier or a keyword.
    fn read_identifier_or_keyword(&mut self) -> (r: Token)
        requires
            old(self).wf(),
            old(self).position() < old(self).source().len(),
            is_ident_start(old(self).source()[old(self).position()]),
        ensures
            final(self).wf(),
            final(self).source() == old(self).source(),
            produced(old(self).source(), old(self).position(), Ok(r), final(self).position()),
            old(self).position() < final(self).position(),
    {
        let start = self.position;
        while self.position < self.chars.len() && is_word_char(self.chars[self.position])
            invariant
                self.wf(),
                self.chars@ == old(self).chars@,
                start < self.chars@.len(),
                is_ident_start(self.chars@[start as int]),
                ident_end(self.chars@, self.position as int) == ident_end(self.chars@, start as int),
                start <= self.position,
            decreases self.chars@.len() - self.position,
        {
            self.advance();
        }
        let kind = match self.keyword_at(start, self.position) {
            Some(k) => TokenKind::Keyword(k),
            None => TokenKind::Literal(LiteralTokenKind::Identifier),
        };
        Token { kind, value: self.text(start, self.position) }
    }

    /// Scans a number literal: digits, an optional fraction and an optional
    /// exponent.
    fn read_number(&mut self) -> (r: Token)
        requires
            old(self).wf(),
            old(self).position() < old(self).source().len(),
            is_digit(old(self).source()[old(self).position()]),
        ensures
            final(self).wf(),
            final(self).source() == old(self).source(),
            produced(old(self).source(), old(self).position(), Ok(r), final(self).position()),
            old(self).position() < final(self).position(),
    {
        let start = self.position;
        let ghost s = self.chars@;
        proof {
            lemma_digits_end(s, start + 1);
        }
        self.skip_digits();
        if self.position < self.chars.len() && self.chars[self.position] == '.' {
            self.advance();
            self.skip_digits();
        }
        assert(self.position == fraction_end(s, digits_end(s, start as int)));
        if self.position < self.chars.len() && (self.chars[self.position] == 'e'
            || self.chars[self.position] == 'E') {
            let ghost b = self.position as int;
            self.advance();
            if self.position < self.chars.len() && (self.chars[self.position] == '+'
                || self.chars[self.position] == '-') {
                self.advance();
            }
            assert(self.position == exponent_digits_start(s, b));
            self.skip_digits();
        }
        Token { kind: TokenKind::Literal(LiteralTokenKind::Number), value: self.text(start, self.position) }
    }

    /// Scans a string literal; its value is the text between the quotes.
    fn read_string(&mut self) -> (r: Result<Token, LexError>)
        requires
            old(self).wf(),
            old(self).position() < old(self).source().len(),
            old(self).source()[old(self).position()] == '"',
        ensures
            final(self).wf(),
            final(self).source() == old(self).source(),
            produced(old(self).source(), old(self).position(), r, final(self).position()),
            r is Ok ==> old(self).position() < final(self).position(),
    {
        let open = self.position;
        self.advance();
        let start = self.position;
        while self.position < self.chars.len() && self.chars[self.position] != '"'
            invariant
                self.wf(),
                self.chars@ == old(self).chars@,
                start == open + 1,
                start <= self.position,
                quote_end(self.chars@, self.position as int) == quote_end(self.chars@, start as int),
            decreases self.chars@.len() - self.position,
        {
            self.advance();
        }
        if self.position >= self.chars.len() {
            return Err(LexError::UnterminatedString { position: open });
        }
        let value = self.text(start, self.position);
        self.advance();
        Ok(Token { kind: TokenKind::Literal(LiteralTokenKind::String), value })
    }

    /// Scans an operator by longest match against the operator table; `//`
    /// takes the rest of the line as a comment.
    fn read_operator(&mut self) -> (r: Token)
        requires
            old(self).wf(),
            old(self).position() < old(self).source().len(),
            is_operator_start(old(self).source()[old(self).position()]),
        ensures
            final(self).wf(),
            final(self).source() == old(self).source(),
            produced(old(self).source(), old(self).position(), Ok(r), final(self).position()),
            old(self).position() < final(self).position(),
    {
        let start = self.position;
        let n = self.chars.len();
        let ghost s = self.chars@;
        let mut len: usize = 1;
        let mut kind: Option<TokenKind> = None;
        if n - start >= 3 {
            kind = self.operator_at(start, start + 3);
            len = 3;
        }
        if kind.is_none() && n - start >= 2 {
            kind = self.operator_at(start, start + 2);
            len = 2;
        }
        if kind.is_none() {
            proof {
                assert(s.subrange(start as int, start + 1) =~= seq![s[start as int]]);
                lemma_single_operator(s[start as int]);
            }
            kind = self.operator_at(start, start + 1);
            len = 1;
        }
        assert(len == operator_len(s, start as int));
        let kind = kind.unwrap();
        if kind == TokenKind::Comment {
            self.position = start + 2;
            while self.position < n && self.chars[self.position] != '\n'
                invariant
                    self.wf(),
                    self.chars@ == s,
                    n == s.len(),
                    start + 2 <= self.position,
                    line_end(s, self.position as int) == line_end(s, start + 2),
                decreases n - self.position,
            {
                self.advance();
            }
        } else {
            self.position = start + len;
        }
        Token { kind, value: self.text(start, self.position) }
    }

    /// Scans a punctuation character; any other character is refused.
    fn handle_punctuation(&mut self, c: char) -> (r: Result<Token, LexError>)
        requires
            old(self).wf(),
            old(self).position() < old(self).source().len(),
            old(self).source()[old(self).position()] == c,
            !is_ident_start(c),
            !is_digit(c),
            c != '"',
            !is_operator_start(c),
        ensures
            final(self).wf(),
            final(self).source() == old(self).source(),
            produced(old(self).source(), old(self).position(), r, final(self).position()),
            r is Ok ==> old(self).position() < final(self).position(),
    {
        let kind = if c == '(' {
            PunctuationTokenKind::LParen
        } else if c == ')' {
            PunctuationTokenKind::RParen
        } else if c == '{' {
            PunctuationTokenKind::LBrace
        } else if c == '}' {
            PunctuationTokenKind::RBrace
        } else if c == '[' {
            PunctuationTokenKind::LBracket
        } else if c == ']' {
            PunctuationTokenKind::RBracket
        } else if c == ';' {
            PunctuationTokenKind::Semicolon
        } else if c == ',' {
            PunctuationTokenKind::Comma
        } else if c == '.' {
            PunctuationTokenKind::Dot
        } else {
            return Err(LexError::UnexpectedCharacter { character: c, position: self.position });
        };
        let start = self.position;
        self.advance();
        let value = self.text(start, self.position);
        assert(value@ =~= seq![c]);
        Ok(Token { kind: TokenKind::Punctuation(kind), value })
    }

    /// Scans the rest of the source into tokens, ending with one end-of-input
    /// token, or fails at the first unterminated string or unexpected character.
    pub fn tokenize(&mut self) -> (r: Result<Vec<Token>, LexError>)
        requires
            old(self).wf(),
        ensures
            final(self).wf(),
            final(self).source() == old(self).source(),
            lex_outcome(r) == scan(old(self).source(), old(self).position(), Seq::empty()),
            r is Ok ==> final(self).position() == final(self).source().len(),
    {
        let ghost s = self.chars@;
        let mut tokens: Vec<Token> = Vec::new();
        assert(lexemes(tokens@) =~= Seq::<Lexeme>::empty());
        loop
            invariant
                self.wf(),
                self.chars@ == s,
                old(self).chars@ == s,
                scan(s, old(self).position as int, Seq::empty()) == scan(
                    s,
                    self.position as int,
                    lexemes(tokens@),
                ),
            decreases s.len() - self.position,
        {
            let c = match self.peek() {
                Some(c) => c,
                None => {
                    let ghost before = tokens@;
                    let eof = Token { kind: TokenKind::EOF, value: String::new() };
                    tokens.push(eof);
                    proof {
                        let end = Lexeme { kind: TokenKind::EOF, text: Seq::empty() };
                        assert(eof.lexeme() == end);
                        assert(lexemes(tokens@) =~= lexemes(before).push(end));
                    }
                    return Ok(tokens);
                },
            };
            if is_space(c) {
                self.skip_whitespace();
            } else {
                let r = if is_letter_or_underscore(c) {
                    Ok(self.read_identifier_or_keyword())
                } else if is_ascii_digit(c) {
                    Ok(self.read_number())
                } else if c == '"' {
                    self.read_string()
                } else if is_operator_char(c) {
                    Ok(self.read_operator())
                } else {
                    self.handle_punctuation(c)
                };
                match r {
                    Ok(t) => {
                        proof {
                            assert(lexemes(tokens@.push(t)) =~= lexemes(tokens@).push(t.lexeme()));
                        }
                        tokens.push(t);
                    },
                    Err(e) => {
                        return Err(e);
                    },
                }
            }
        }
    }
}

fn is_letter_or_underscore(c: char) -> (r: bool)
    ensures
        r == is_ident_start(c),
{
    ('a' <= c && c <= 'z') || ('A' <= c && c <= 'Z') || c == '_'
}

fn is_word_char(c: char) -> (r: bool)
    ensures
        r == is_ident_char(c),
{
    is_letter_or_underscore(c) || is_ascii_digit(c)
}

fn is_space(c: char) -> (r: bool)
    ensures
        r == is_whitespace(c),
{
    c == ' ' || c == '\t' || c == '\n' || c == '\r'
}

fn is_operator_char(c: char) -> (r: bool)
    ensures
        r == is_operator_start(c),
{
    c == '+' || c == '-' || c == '*' || c == '/' || c == '%' || c == '^' || c == '&' || c == '|'
        || c == '!' || c == '=' || c == '<' || c == '>'
}

} // verus!
