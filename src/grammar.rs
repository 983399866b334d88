use crate::ast::{BinOp, ExprModel, StmtModel, UnOp};
use crate::lexical::is_number_literal;
use crate::token::{
    KeywordTokenKind, LiteralTokenKind, OperatorTokenKind, PunctuationTokenKind, Token,
    TokenKind,
};
use vstd::prelude::*;

verus! {

/// The construct that the parser expected where it found something else.
#[derive(Copy, Clone, Debug, PartialEq, Eq, Structural)]
pub enum Expected {
    VariableName,
    SemicolonAfterVariable,
    ConstantName,
    AssignAfterConstantName,
    SemicolonAfterConstant,
    FunctionName,
    LParenAfterFunctionName,
    ParameterName,
    RParenAfterParameters,
    LBraceBeforeFunctionBody,
    LParenAfterIf,
    RParenAfterIfCondition,
    LParenAfterWhile,
    RParenAfterWhileCondition,
    SemicolonAfterReturnValue,
    RBraceAfterBlock,
    SemicolonAfterExpression,
    RParenAfterArguments,
    RParenAfterExpression,
    Expression,
}

/// What parsing can fail with. Positions are token indices.
#[derive(Copy, Clone, Debug, PartialEq, Eq, Structural)]
pub enum ParseError {
    /// The token at `position`, of kind `found`, is not the `expected` one.
    Unexpected { expected: Expected, found: TokenKind, position: usize },
    /// The assignment operator at `position`, of kind `operator`, has a
    /// left-hand side that is not a name.
    InvalidAssignmentTarget { operator: TokenKind, position: usize },
    /// The number token at `position` is not a decimal literal.
    MalformedNumber { position: usize },
}

/// The binary precedence tiers, from the loosest to the tightest.
#[derive(Copy, Clone, Debug, PartialEq, Eq, Structural)]
pub enum Tier {
    Or,
    And,
    Equality,
    Comparison,
    Term,
    Factor,
}

pub open spec fn tier_rank(t: Tier) -> nat {
    match t {
        Tier::Or => 6,
        Tier::And => 5,
        Tier::Equality => 4,
        Tier::Comparison => 3,
        Tier::Term => 2,
        Tier::Factor => 1,
    }
}

/// The next tighter tier; the operands of `Factor` are unary expressions.
pub open spec fn next_tier(t: Tier) -> Option<Tier> {
    match t {
        Tier::Or => Some(Tier::And),
        Tier::And => Some(Tier::Equality),
        Tier::Equality => Some(Tier::Comparison),
        Tier::Comparison => Some(Tier::Term),
        Tier::Term => Some(Tier::Factor),
        Tier::Factor => None,
    }
}

/// The binary operator that a token of kind `k` stands for in tier `t`.
pub open spec fn tier_operator(t: Tier, k: TokenKind) -> Option<BinOp> {
    match (t, k) {
        (Tier::Or, TokenKind::Operator(OperatorTokenKind::Or)) => Some(BinOp::Or),
        (Tier::And, TokenKind::Operator(OperatorTokenKind::And)) => Some(BinOp::And),
        (Tier::Equality, TokenKind::Operator(OperatorTokenKind::Equal)) => Some(BinOp::Equal),
        (Tier::Equality, TokenKind::Operator(OperatorTokenKind::NotEqual)) => Some(BinOp::NotEqual),
        (Tier::Comparison, TokenKind::Operator(OperatorTokenKind::Less)) => Some(BinOp::Less),
        (Tier::Comparison, TokenKind::Operator(OperatorTokenKind::LessEqual)) => Some(
            BinOp::LessEqual,
        ),
        (Tier::Comparison, TokenKind::Operator(OperatorTokenKind::Greater)) => Some(BinOp::Greater),
        (Tier::Comparison, TokenKind::Operator(OperatorTokenKind::GreaterEqual)) => Some(
            BinOp::GreaterEqual,
        ),
        (Tier::Term, TokenKind::Operator(OperatorTokenKind::Plus)) => Some(BinOp::Add),
        (Tier::Term, TokenKind::Operator(OperatorTokenKind::Minus)) => Some(BinOp::Subtract),
        (Tier::Factor, TokenKind::Operator(OperatorTokenKind::Star)) => Some(BinOp::Multiply),
        (Tier::Factor, TokenKind::Operator(OperatorTokenKind::Slash)) => Some(BinOp::Divide),
        (Tier::Factor, TokenKind::Operator(OperatorTokenKind::Percent)) => Some(BinOp::Modulus),
        _ => None,
    }
}

/// The prefix operator that a token of kind `k` stands for.
pub open spec fn unary_operator(k: TokenKind) -> Option<UnOp> {
    match k {
        TokenKind::Operator(OperatorTokenKind::Not) => Some(UnOp::Not),
        TokenKind::Operator(OperatorTokenKind::Minus) => Some(UnOp::Negate),
        _ => None,
    }
}

/// For an assignment operator, the binary operator it applies before assigning
/// (`None` for plain `=`).
pub open spec fn assignment_operator(k: TokenKind) -> Option<Option<BinOp>> {
    match k {
        TokenKind::Operator(OperatorTokenKind::Assign) => Some(None),
        TokenKind::Operator(OperatorTokenKind::PlusAssign) => Some(Some(BinOp::Add)),
        TokenKind::Operator(OperatorTokenKind::MinusAssign) => Some(Some(BinOp::Subtract)),
        TokenKind::Operator(OperatorTokenKind::StarAssign) => Some(Some(BinOp::Multiply)),
        TokenKind::Operator(OperatorTokenKind::SlashAssign) => Some(Some(BinOp::Divide)),
        _ => None,
    }
}

/// The value assigned by `name op= value`: `name op value` for a compound
/// operator, `value` itself for `=`.
pub open spec fn assigned_value(op: Option<BinOp>, name: Seq<char>, value: ExprModel) -> ExprModel {
    match op {
        Some(b) => ExprModel::Binary(Box::new(ExprModel::Identifier(name)), b, Box::new(value)),
        None => value,
    }
}

/// The text of a string literal: a surrounding pair of quotes, if the token
/// still carries one, is removed.
pub open spec fn unquote(v: Seq<char>) -> Seq<char> {
    if v.len() >= 2 && v[0] == '"' && v[v.len() - 1] == '"' {
        v.subrange(1, v.len() - 1)
    } else {
        v
    }
}

/// A parse of some `T` starting at a token index: the value and the index of
/// the first token after it, or the first error.
pub type Parsed<T> = Result<(T, int), ParseError>;

/// The tokens that the grammar reads: all but the comments, in order.
pub open spec fn significant(ts: Seq<Token>) -> Seq<Token> {
    ts.filter(|t: Token| t.kind != TokenKind::Comment)
}

/// The kind of the token at `p`; past the end of the sequence, end of input.
pub open spec fn kind_at(ts: Seq<Token>, p: int) -> TokenKind {
    if 0 <= p < ts.len() {
        ts[p].kind
    } else {
        TokenKind::EOF
    }
}

pub open spec fn at_end(ts: Seq<Token>, p: int) -> bool {
    kind_at(ts, p) == TokenKind::EOF
}

/// Whether the token at `p` has kind `k` (never true at the end of input).
pub open spec fn check(ts: Seq<Token>, p: int, k: TokenKind) -> bool {
    !at_end(ts, p) && kind_at(ts, p) == k
}

pub open spec fn unexpected(ts: Seq<Token>, p: int, what: Expected) -> ParseError {
    ParseError::Unexpected { expected: what, found: kind_at(ts, p), position: p as usize }
}

/// Consumes a token of kind `k` at `p`, or fails saying that `what` was expected.
pub open spec fn expect(ts: Seq<Token>, p: int, k: TokenKind, what: Expected) -> Result<
    int,
    ParseError,
> {
    if check(ts, p, k) {
        Ok(p + 1)
    } else {
        Err(unexpected(ts, p, what))
    }
}

/// Whether a parse that started at `p` and stopped at `q` consumed input.
/// Every successful parse does (the parser's postconditions carry it, and
/// `progress` proves it of expressions); the definitions below test it only to
/// make their termination evident, so `stalled` is never their result.
pub open spec fn moved(ts: Seq<Token>, p: int, q: int) -> bool {
    p < q <= ts.len()
}

pub open spec fn stalled(ts: Seq<Token>, p: int) -> ParseError {
    unexpected(ts, p, Expected::Expression)
}

pub open spec fn ident(k: TokenKind) -> bool {
    k == TokenKind::Literal(LiteralTokenKind::Identifier)
}

pub open spec fn punct(k: PunctuationTokenKind) -> TokenKind {
    TokenKind::Punctuation(k)
}

// ---------------------------------------------------------------- expressions

/// expr → assignment
pub open spec fn expression(ts: Seq<Token>, p: int) -> Parsed<ExprModel>
    decreases ts.len() - p, 12nat,
{
    assignment(ts, p)
}

/// assignment → logic_or (("=" | "+=" | "-=" | "*=" | "/=") assignment)?
///
/// Right-associative; the target must be a name, and a compound operator
/// becomes an assignment of a binary operation.
pub open spec fn assignment(ts: Seq<Token>, p: int) -> Parsed<ExprModel>
    decreases ts.len() - p, 11nat,
{
    match binary(ts, p, Tier::Or) {
        Err(e) => Err(e),
        Ok((target, q)) => if !moved(ts, p, q) {
            Err(stalled(ts, q))
        } else {
            match assignment_operator(kind_at(ts, q)) {
                None => Ok((target, q)),
                Some(op) => match assignment(ts, q + 1) {
                    Err(e) => Err(e),
                    Ok((value, r)) => match target {
                        ExprModel::Identifier(name) => Ok(
                            (
                                ExprModel::Assign(
                                    Box::new(target),
                                    Box::new(assigned_value(op, name, value)),
                                ),
                                r,
                            ),
                        ),
                        _ => Err(
                            ParseError::InvalidAssignmentTarget {
                                operator: kind_at(ts, q),
                                position: q as usize,
                            },
                        ),
                    },
                },
            }
        },
    }
}

/// One tier of left-associative binary operators: an operand of the next
/// tighter tier, then any number of (operator, operand) pairs of this tier.
pub open spec fn binary(ts: Seq<Token>, p: int, t: Tier) -> Parsed<ExprModel>
    decreases ts.len() - p, 3 + tier_rank(t),
{
    let first = match next_tier(t) {
        Some(n) => binary(ts, p, n),
        None => unary(ts, p),
    };
    match first {
        Err(e) => Err(e),
        Ok((left, q)) => if moved(ts, p, q) {
            binary_rest(ts, q, t, left)
        } else {
            Err(stalled(ts, q))
        },
    }
}

/// The (operator, operand) pairs of tier `t` from `q`, folded to the left onto
/// `left`.
pub open spec fn binary_rest(ts: Seq<Token>, q: int, t: Tier, left: ExprModel) -> Parsed<
    ExprModel,
>
    decreases ts.len() - q, 0nat,
{
    match tier_operator(t, kind_at(ts, q)) {
        None => Ok((left, q)),
        Some(op) => {
            let right = match next_tier(t) {
                Some(n) => binary(ts, q + 1, n),
                None => unary(ts, q + 1),
            };
            match right {
                Err(e) => Err(e),
                Ok((r, q2)) => if moved(ts, q, q2) {
                    binary_rest(ts, q2, t, ExprModel::Binary(Box::new(left), op, Box::new(r)))
                } else {
                    Err(stalled(ts, q2))
                },
            }
        },
    }
}

/// unary → ("!" | "-") unary | call
pub open spec fn unary(ts: Seq<Token>, p: int) -> Parsed<ExprModel>
    decreases ts.len() - p, 3nat,
{
    match unary_operator(kind_at(ts, p)) {
        Some(op) => match unary(ts, p + 1) {
            Err(e) => Err(e),
            Ok((e, q)) => Ok((ExprModel::Unary(op, Box::new(e)), q)),
        },
        None => call(ts, p),
    }
}

/// call → primary ("(" args? ")")*
pub open spec fn call(ts: Seq<Token>, p: int) -> Parsed<ExprModel>
    decreases ts.len() - p, 2nat,
{
    match primary(ts, p) {
        Err(e) => Err(e),
        Ok((e, q)) => if moved(ts, p, q) {
            call_rest(ts, q, e)
        } else {
            Err(stalled(ts, q))
        },
    }
}

/// The argument lists that follow `callee` from `q`, each wrapping the callee
/// so far in a call.
pub open spec fn call_rest(ts: Seq<Token>, q: int, callee: ExprModel) -> Parsed<ExprModel>
    decreases ts.len() - q, 0nat,
{
    if check(ts, q, punct(PunctuationTokenKind::LParen)) {
        match arguments(ts, q + 1) {
            Err(e) => Err(e),
            Ok((args, r)) => match expect(
                ts,
                r,
                punct(PunctuationTokenKind::RParen),
                Expected::RParenAfterArguments,
            ) {
                Err(e) => Err(e),
                Ok(r2) => if moved(ts, q, r2) {
                    call_rest(ts, r2, ExprModel::Call(Box::new(callee), args))
                } else {
                    Err(stalled(ts, r2))
                },
            },
        }
    } else {
        Ok((callee, q))
    }
}

/// args → (expr ("," expr)*)?, up to the closing parenthesis.
pub open spec fn arguments(ts: Seq<Token>, p: int) -> Parsed<Seq<ExprModel>>
    decreases ts.len() - p, 14nat,
{
    if check(ts, p, punct(PunctuationTokenKind::RParen)) {
        Ok((Seq::empty(), p))
    } else {
        argument_list(ts, p, Seq::empty())
    }
}

/// expr ("," expr)*, after the arguments `done`.
pub open spec fn argument_list(ts: Seq<Token>, p: int, done: Seq<ExprModel>) -> Parsed<
    Seq<ExprModel>,
>
    decreases ts.len() - p, 13nat,
{
    match expression(ts, p) {
        Err(e) => Err(e),
        Ok((e, q)) => if !moved(ts, p, q) {
            Err(stalled(ts, q))
        } else if check(ts, q, punct(PunctuationTokenKind::Comma)) {
            argument_list(ts, q + 1, done.push(e))
        } else {
            Ok((done.push(e), q))
        },
    }
}

/// primary → NUMBER | STRING | IDENT | "(" expr ")"
pub open spec fn primary(ts: Seq<Token>, p: int) -> Parsed<ExprModel>
    decreases ts.len() - p, 1nat,
{
    let k = kind_at(ts, p);
    if k == TokenKind::Literal(LiteralTokenKind::Number) {
        if is_number_literal(ts[p].value@) {
            Ok((ExprModel::Number(ts[p].value@), p + 1))
        } else {
            Err(ParseError::MalformedNumber { position: p as usize })
        }
    } else if k == TokenKind::Literal(LiteralTokenKind::String) {
        Ok((ExprModel::Str(unquote(ts[p].value@)), p + 1))
    } else if ident(k) {
        Ok((ExprModel::Identifier(ts[p].value@), p + 1))
    } else if k == punct(PunctuationTokenKind::LParen) {
        match expression(ts, p + 1) {
            Err(e) => Err(e),
            Ok((e, q)) => match expect(
                ts,
                q,
                punct(PunctuationTokenKind::RParen),
                Expected::RParenAfterExpression,
            ) {
                Err(err) => Err(err),
                Ok(r) => Ok((e, r)),
            },
        }
    } else {
        Err(unexpected(ts, p, Expected::Expression))
    }
}

// ----------------------------------------------------------------- statements

pub open spec fn keyword_at(ts: Seq<Token>, p: int, k: KeywordTokenKind) -> bool {
    kind_at(ts, p) == TokenKind::Keyword(k)
}

/// program → declaration* EOF, after the statements `done`.
pub open spec fn program(ts: Seq<Token>, p: int, done: Seq<StmtModel>) -> Result<
    Seq<StmtModel>,
    ParseError,
>
    decreases ts.len() - p, 17nat,
{
    if at_end(ts, p) {
        Ok(done)
    } else {
        match declaration(ts, p) {
            Err(e) => Err(e),
            Ok((s, q)) => if moved(ts, p, q) {
                program(ts, q, done.push(s))
            } else {
                Err(stalled(ts, q))
            },
        }
    }
}

/// The statements of a whole token sequence.
pub open spec fn parse_program(ts: Seq<Token>) -> Result<Seq<StmtModel>, ParseError> {
    program(ts, 0, Seq::empty())
}

/// declaration → "let" … | "const" … | "fun" … | statement
pub open spec fn declaration(ts: Seq<Token>, p: int) -> Parsed<StmtModel>
    decreases ts.len() - p, 16nat,
{
    if keyword_at(ts, p, KeywordTokenKind::Let) {
        let_declaration(ts, p + 1)
    } else if keyword_at(ts, p, KeywordTokenKind::Const) {
        const_declaration(ts, p + 1)
    } else if keyword_at(ts, p, KeywordTokenKind::Function) {
        function_declaration(ts, p + 1)
    } else {
        statement(ts, p)
    }
}

/// The literal `0`, the initializer of a `let` that has none.
pub open spec fn zero() -> ExprModel {
    ExprModel::Number(seq!['0'])
}

/// After "let": IDENT ("=" expr)? ";"
pub open spec fn let_declaration(ts: Seq<Token>, p: int) -> Parsed<StmtModel>
    decreases ts.len() - p, 0nat,
{
    if !ident(kind_at(ts, p)) {
        Err(unexpected(ts, p, Expected::VariableName))
    } else {
        let name = ts[p].value@;
        if check(ts, p + 1, TokenKind::Operator(OperatorTokenKind::Assign)) {
            match expression(ts, p + 2) {
                Err(e) => Err(e),
                Ok((e, q)) => match expect(
                    ts,
                    q,
                    punct(PunctuationTokenKind::Semicolon),
                    Expected::SemicolonAfterVariable,
                ) {
                    Err(err) => Err(err),
                    Ok(r) => Ok((StmtModel::Let(name, e), r)),
                },
            }
        } else {
            match expect(
                ts,
                p + 1,
                punct(PunctuationTokenKind::Semicolon),
                Expected::SemicolonAfterVariable,
            ) {
                Err(err) => Err(err),
                Ok(r) => Ok((StmtModel::Let(name, zero()), r)),
            }
        }
    }
}

/// After "const": IDENT "=" expr ";"
pub open spec fn const_declaration(ts: Seq<Token>, p: int) -> Parsed<StmtModel>
    decreases ts.len() - p, 0nat,
{
    if !ident(kind_at(ts, p)) {
        Err(unexpected(ts, p, Expected::ConstantName))
    } else if !check(ts, p + 1, TokenKind::Operator(OperatorTokenKind::Assign)) {
        Err(unexpected(ts, p + 1, Expected::AssignAfterConstantName))
    } else {
        match expression(ts, p + 2) {
            Err(e) => Err(e),
            Ok((e, q)) => match expect(
                ts,
                q,
                punct(PunctuationTokenKind::Semicolon),
                Expected::SemicolonAfterConstant,
            ) {
                Err(err) => Err(err),
                Ok(r) => Ok((StmtModel::Const(ts[p].value@, e), r)),
            },
        }
    }
}

/// After "fun": IDENT "(" params? ")" block
pub open spec fn function_declaration(ts: Seq<Token>, p: int) -> Parsed<StmtModel>
    decreases ts.len() - p, 0nat,
{
    if !ident(kind_at(ts, p)) {
        Err(unexpected(ts, p, Expected::FunctionName))
    } else if !check(ts, p + 1, punct(PunctuationTokenKind::LParen)) {
        Err(unexpected(ts, p + 1, Expected::LParenAfterFunctionName))
    } else {
        match parameters(ts, p + 2) {
            Err(e) => Err(e),
            Ok((names, q)) => if !check(ts, q, punct(PunctuationTokenKind::RParen)) {
                Err(unexpected(ts, q, Expected::RParenAfterParameters))
            } else if !check(ts, q + 1, punct(PunctuationTokenKind::LBrace)) {
                Err(unexpected(ts, q + 1, Expected::LBraceBeforeFunctionBody))
            } else if !moved(ts, p, q + 2) {
                Err(stalled(ts, q + 2))
            } else {
                match block(ts, q + 2, Seq::empty()) {
                    Err(e) => Err(e),
                    Ok((body, r)) => Ok(
                        (
                            StmtModel::Function(
                                ts[p].value@,
                                names,
                                Box::new(StmtModel::Block(body)),
                            ),
                            r,
                        ),
                    ),
                }
            },
        }
    }
}

/// params → (IDENT ("," IDENT)*)?, up to the closing parenthesis.
pub open spec fn parameters(ts: Seq<Token>, p: int) -> Parsed<Seq<Seq<char>>> {
    if check(ts, p, punct(PunctuationTokenKind::RParen)) {
        Ok((Seq::empty(), p))
    } else {
        parameter_list(ts, p, Seq::empty())
    }
}

/// IDENT ("," IDENT)*, after the names `done`.
pub open spec fn parameter_list(ts: Seq<Token>, p: int, done: Seq<Seq<char>>) -> Parsed<
    Seq<Seq<char>>,
>
    decreases ts.len() - p,
{
    if !ident(kind_at(ts, p)) {
        Err(unexpected(ts, p, Expected::ParameterName))
    } else if check(ts, p + 1, punct(PunctuationTokenKind::Comma)) {
        parameter_list(ts, p + 2, done.push(ts[p].value@))
    } else {
        Ok((done.push(ts[p].value@), p + 1))
    }
}

/// statement → if … | while … | return … | block | expr ";"
pub open spec fn statement(ts: Seq<Token>, p: int) -> Parsed<StmtModel>
    decreases ts.len() - p, 15nat,
{
    if keyword_at(ts, p, KeywordTokenKind::If) {
        if_statement(ts, p + 1)
    } else if keyword_at(ts, p, KeywordTokenKind::While) {
        while_statement(ts, p + 1)
    } else if keyword_at(ts, p, KeywordTokenKind::Return) {
        return_statement(ts, p + 1)
    } else if check(ts, p, punct(PunctuationTokenKind::LBrace)) {
        match block(ts, p + 1, Seq::empty()) {
            Err(e) => Err(e),
            Ok((body, q)) => Ok((StmtModel::Block(body), q)),
        }
    } else {
        expression_statement(ts, p)
    }
}

/// After "if": "(" expr ")" statement ("else" statement)?
pub open spec fn if_statement(ts: Seq<Token>, p: int) -> Parsed<StmtModel>
    decreases ts.len() - p, 0nat,
{
    if !check(ts, p, punct(PunctuationTokenKind::LParen)) {
        Err(unexpected(ts, p, Expected::LParenAfterIf))
    } else {
        match expression(ts, p + 1) {
            Err(e) => Err(e),
            Ok((cond, q)) => if !check(ts, q, punct(PunctuationTokenKind::RParen)) {
                Err(unexpected(ts, q, Expected::RParenAfterIfCondition))
            } else if !moved(ts, p, q + 1) {
                Err(stalled(ts, q + 1))
            } else {
                match statement(ts, q + 1) {
                    Err(e) => Err(e),
                    Ok((then_branch, r)) => if !moved(ts, p, r) {
                        Err(stalled(ts, r))
                    } else if keyword_at(ts, r, KeywordTokenKind::Else) {
                        match statement(ts, r + 1) {
                            Err(e) => Err(e),
                            Ok((else_branch, r2)) => Ok(
                                (
                                    StmtModel::If(
                                        cond,
                                        Box::new(then_branch),
                                        Some(Box::new(else_branch)),
                                    ),
                                    r2,
                                ),
                            ),
                        }
                    } else {
                        Ok((StmtModel::If(cond, Box::new(then_branch), None), r))
                    },
                }
            },
        }
    }
}

/// After "while": "(" expr ")" statement
pub open spec fn while_statement(ts: Seq<Token>, p: int) -> Parsed<StmtModel>
    decreases ts.len() - p, 0nat,
{
    if !check(ts, p, punct(PunctuationTokenKind::LParen)) {
        Err(unexpected(ts, p, Expected::LParenAfterWhile))
    } else {
        match expression(ts, p + 1) {
            Err(e) => Err(e),
            Ok((cond, q)) => if !check(ts, q, punct(PunctuationTokenKind::RParen)) {
                Err(unexpected(ts, q, Expected::RParenAfterWhileCondition))
            } else if !moved(ts, p, q + 1) {
                Err(stalled(ts, q + 1))
            } else {
                match statement(ts, q + 1) {
                    Err(e) => Err(e),
                    Ok((body, r)) => Ok((StmtModel::While(cond, Box::new(body)), r)),
                }
            },
        }
    }
}

/// After "return": expr? ";" (the value is absent exactly when ";" follows).
pub open spec fn return_statement(ts: Seq<Token>, p: int) -> Parsed<StmtModel>
    decreases ts.len() - p, 14nat,
{
    if check(ts, p, punct(PunctuationTokenKind::Semicolon)) {
        Ok((StmtModel::Return(None), p + 1))
    } else {
        match expression(ts, p) {
            Err(e) => Err(e),
            Ok((e, q)) => match expect(
                ts,
                q,
                punct(PunctuationTokenKind::Semicolon),
                Expected::SemicolonAfterReturnValue,
            ) {
                Err(err) => Err(err),
                Ok(r) => Ok((StmtModel::Return(Some(e)), r)),
            },
        }
    }
}

/// After "{": declaration* "}", after the statements `done`.
pub open spec fn block(ts: Seq<Token>, p: int, done: Seq<StmtModel>) -> Parsed<Seq<StmtModel>>
    decreases ts.len() - p, 17nat,
{
    if check(ts, p, punct(PunctuationTokenKind::RBrace)) {
        Ok((done, p + 1))
    } else if at_end(ts, p) {
        Err(unexpected(ts, p, Expected::RBraceAfterBlock))
    } else {
        match declaration(ts, p) {
            Err(e) => Err(e),
            Ok((s, q)) => if moved(ts, p, q) {
                block(ts, q, done.push(s))
            } else {
                Err(stalled(ts, q))
            },
        }
    }
}

/// expr ";"
pub open spec fn expression_statement(ts: Seq<Token>, p: int) -> Parsed<StmtModel>
    decreases ts.len() - p, 14nat,
{
    match expression(ts, p) {
        Err(e) => Err(e),
        Ok((e, q)) => match expect(
            ts,
            q,
            punct(PunctuationTokenKind::Semicolon),
            Expected::SemicolonAfterExpression,
        ) {
            Err(err) => Err(err),
            Ok(r) => Ok((StmtModel::Expr(e), r)),
        },
    }
}

} // verus!
