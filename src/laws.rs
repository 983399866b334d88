use crate::ast::{BinOp, ExprModel};
use crate::grammar::{assignment, assignment_operator, binary, kind_at, ParseError, Tier};
use crate::lexical::{
    is_digit, is_ident_start, is_number_literal, is_operator_start, is_whitespace,
    lemma_single_operator, lex, number_end, operator_len, quote_end, scan, token_at, LexError,
    Lexeme,
};
use crate::progress::lemma_binary_consumes;
use crate::token::{LiteralTokenKind, Token, TokenKind};
use vstd::prelude::*;

verus! {

proof fn lemma_number_literal_end(s: Seq<char>)
    requires
        is_number_literal(s),
    ensures
        number_end(s, 0) == s.len(),
{
}

/// A decimal literal that starts with a digit scans as one number token whose
/// text is the literal itself, followed by the end of input: the token's value
/// gives back exactly the source text.
pub proof fn number_literal_round_trip(s: Seq<char>)
    requires
        is_number_literal(s),
        s.len() > 0,
        is_digit(s[0]),
    ensures
        lex(s) == Ok::<Seq<Lexeme>, LexError>(
            seq![
                Lexeme { kind: TokenKind::Literal(LiteralTokenKind::Number), text: s },
                Lexeme { kind: TokenKind::EOF, text: Seq::empty() },
            ],
        ),
{
    lemma_number_literal_end(s);
    assert(s.subrange(0, s.len() as int) =~= s);
    let first = Lexeme { kind: TokenKind::Literal(LiteralTokenKind::Number), text: s };
    assert(token_at(s, 0) == Ok::<(TokenKind, Seq<char>, int), LexError>(
        (TokenKind::Literal(LiteralTokenKind::Number), s, s.len() as int),
    ));
    assert(scan(s, 0, Seq::empty()) == scan(s, s.len() as int, seq![first]));
    assert(seq![first].push(Lexeme { kind: TokenKind::EOF, text: Seq::empty() }) =~= seq![
        first,
        Lexeme { kind: TokenKind::EOF, text: Seq::empty() },
    ]);
}

proof fn lemma_quote_end_none(s: Seq<char>, i: int)
    requires
        0 <= i <= s.len(),
        forall|j: int| i <= j < s.len() ==> s[j] != '"',
    ensures
        quote_end(s, i) == s.len(),
    decreases s.len() - i,
{
    if i < s.len() {
        lemma_quote_end_none(s, i + 1);
    }
}

/// A quote with no closing quote after it ends the scan that reaches it with an
/// unterminated-string error at the opening quote, whatever was scanned before.
pub proof fn unterminated_string_fails(s: Seq<char>, i: int, done: Seq<Lexeme>)
    requires
        0 <= i < s.len(),
        s[i] == '"',
        forall|j: int| i < j < s.len() ==> s[j] != '"',
    ensures
        scan(s, i, done) == Err::<Seq<Lexeme>, LexError>(
            LexError::UnterminatedString { position: i as usize },
        ),
{
    lemma_quote_end_none(s, i + 1);
}

/// An assignment operator after a left-hand side that is not a name fails,
/// once the right-hand side has parsed, with an error that names the operator
/// and its position (`5 = x;` fails at the `=`).
pub proof fn invalid_assignment_target_fails(ts: Seq<Token>, p: int, target: ExprModel, q: int)
    requires
        0 <= p <= ts.len(),
        binary(ts, p, Tier::Or) == Ok::<(ExprModel, int), ParseError>((target, q)),
        !(target is Identifier),
        assignment_operator(kind_at(ts, q)) is Some,
        assignment(ts, q + 1) is Ok,
    ensures
        assignment(ts, p) == Err::<(ExprModel, int), ParseError>(
            ParseError::InvalidAssignmentTarget { operator: kind_at(ts, q), position: q as usize },
        ),
{
    lemma_binary_consumes(ts, p, Tier::Or);
}

/// A compound assignment `name op= value` parses as `name = name op value`:
/// an assignment whose value is the binary operation, with no node of its own.
pub proof fn compound_assignment_desugars(
    ts: Seq<Token>,
    p: int,
    name: Seq<char>,
    q: int,
    op: BinOp,
    value: ExprModel,
    r: int,
)
    requires
        0 <= p <= ts.len(),
        binary(ts, p, Tier::Or) == Ok::<(ExprModel, int), ParseError>(
            (ExprModel::Identifier(name), q),
        ),
        assignment_operator(kind_at(ts, q)) == Some(Some(op)),
        assignment(ts, q + 1) == Ok::<(ExprModel, int), ParseError>((value, r)),
    ensures
        assignment(ts, p) == Ok::<(ExprModel, int), ParseError>(
            (
                ExprModel::Assign(
                    Box::new(ExprModel::Identifier(name)),
                    Box::new(
                        ExprModel::Binary(Box::new(ExprModel::Identifier(name)), op, Box::new(value)),
                    ),
                ),
                r,
            ),
        ),
{
    lemma_binary_consumes(ts, p, Tier::Or);
}

/// Whether `ls` ends with an end-of-input lexeme with empty text, and holds
/// no other.
pub open spec fn ends_with_one_eof(ls: Seq<Lexeme>) -> bool {
    &&& ls.len() >= 1
    &&& ls.last() == Lexeme { kind: TokenKind::EOF, text: Seq::empty() }
    &&& forall|k: int| 0 <= k < ls.len() - 1 ==> #[trigger] ls[k].kind != TokenKind::EOF
}

proof fn lemma_token_not_eof(s: Seq<char>, i: int)
    requires
        0 <= i < s.len(),
    ensures
        token_at(s, i) matches Ok((k, _, _)) ==> k != TokenKind::EOF,
{
    let c = s[i];
    if !is_ident_start(c) && !is_digit(c) && c != '"' && is_operator_start(c) {
        if operator_len(s, i) == 1 {
            assert(s.subrange(i, i + 1) =~= seq![c]);
            lemma_single_operator(c);
        }
    }
}

proof fn lemma_scan_ends_with_one_eof(s: Seq<char>, i: int, done: Seq<Lexeme>)
    requires
        forall|k: int| 0 <= k < done.len() ==> #[trigger] done[k].kind != TokenKind::EOF,
    ensures
        scan(s, i, done) matches Ok(ls) ==> ends_with_one_eof(ls),
    decreases s.len() - i,
{
    if i < 0 || i >= s.len() {
        let ls = done.push(Lexeme { kind: TokenKind::EOF, text: Seq::empty() });
        assert forall|k: int| 0 <= k < ls.len() - 1 implies #[trigger] ls[k].kind != TokenKind::EOF by {
            assert(ls[k] == done[k]);
        }
    } else if is_whitespace(s[i]) {
        lemma_scan_ends_with_one_eof(s, i + 1, done);
    } else {
        lemma_token_not_eof(s, i);
        if let Ok((kind, text, e)) = token_at(s, i) {
            if i < e <= s.len() {
                let more = done.push(Lexeme { kind, text });
                assert forall|k: int| 0 <= k < more.len() implies #[trigger] more[k].kind
                    != TokenKind::EOF by {
                    if k < done.len() {
                        assert(more[k] == done[k]);
                    }
                }
                lemma_scan_ends_with_one_eof(s, e, more);
            }
        }
    }
}

/// A successful scan yields tokens in which exactly one is the end of input,
/// and it comes last, with empty text.
pub proof fn token_stream_ends_with_one_eof(s: Seq<char>)
    ensures
        lex(s) matches Ok(ls) ==> ends_with_one_eof(ls),
{
    lemma_scan_ends_with_one_eof(s, 0, Seq::empty());
}

} // verus!
