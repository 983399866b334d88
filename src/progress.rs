use crate::ast::ExprModel;
use crate::grammar::{
    argument_list, arguments, assignment, assignment_operator, binary, binary_rest, call,
    call_rest, expression, kind_at, moved, next_tier, primary, tier_operator, tier_rank, unary,
    unary_operator, Tier,
};
use crate::token::{Token, TokenKind};
use vstd::prelude::*;

verus! {

/// A parse that starts at `p` and succeeds ends after `p`, within the tokens.
pub open spec fn consumes<T>(ts: Seq<Token>, p: int, r: Result<(T, int), crate::grammar::ParseError>) -> bool {
    r matches Ok((_, q)) ==> moved(ts, p, q)
}

/// A parse that starts at `p` and succeeds ends at or after `p`, within the tokens.
pub open spec fn keeps_within<T>(ts: Seq<Token>, p: int, r: Result<(T, int), crate::grammar::ParseError>) -> bool {
    r matches Ok((_, q)) ==> p <= q <= ts.len()
}

pub proof fn lemma_expression_consumes(ts: Seq<Token>, p: int)
    requires
        0 <= p <= ts.len(),
    ensures
        consumes(ts, p, expression(ts, p)),
    decreases ts.len() - p, 18nat,
{
    lemma_assignment_consumes(ts, p);
}

pub proof fn lemma_assignment_consumes(ts: Seq<Token>, p: int)
    requires
        0 <= p <= ts.len(),
    ensures
        consumes(ts, p, assignment(ts, p)),
    decreases ts.len() - p, 17nat,
{
    lemma_binary_consumes(ts, p, Tier::Or);
    if let Ok((_, q)) = binary(ts, p, Tier::Or) {
        if assignment_operator(kind_at(ts, q)) is Some {
            lemma_assignment_consumes(ts, q + 1);
        }
    }
}

proof fn lemma_operand_consumes(ts: Seq<Token>, p: int, t: Tier)
    requires
        0 <= p <= ts.len(),
    ensures
        consumes(
            ts,
            p,
            match next_tier(t) {
                Some(n) => binary(ts, p, n),
                None => unary(ts, p),
            },
        ),
    decreases ts.len() - p, 3 + 2 * tier_rank(t),
{
    match next_tier(t) {
        Some(n) => lemma_binary_consumes(ts, p, n),
        None => lemma_unary_consumes(ts, p),
    }
}

pub proof fn lemma_binary_consumes(ts: Seq<Token>, p: int, t: Tier)
    requires
        0 <= p <= ts.len(),
    ensures
        consumes(ts, p, binary(ts, p, t)),
    decreases ts.len() - p, 4 + 2 * tier_rank(t),
{
    lemma_operand_consumes(ts, p, t);
    let first = match next_tier(t) {
        Some(n) => binary(ts, p, n),
        None => unary(ts, p),
    };
    if let Ok((left, q)) = first {
        if moved(ts, p, q) {
            lemma_binary_rest_keeps(ts, q, t, left);
        }
    }
}

proof fn lemma_binary_rest_keeps(ts: Seq<Token>, q: int, t: Tier, left: ExprModel)
    requires
        0 <= q <= ts.len(),
    ensures
        keeps_within(ts, q, binary_rest(ts, q, t, left)),
    decreases ts.len() - q, 0nat,
{
    if let Some(op) = tier_operator(t, kind_at(ts, q)) {
        lemma_operand_consumes(ts, q + 1, t);
        let right = match next_tier(t) {
            Some(n) => binary(ts, q + 1, n),
            None => unary(ts, q + 1),
        };
        if let Ok((r, q2)) = right {
            if moved(ts, q, q2) {
                lemma_binary_rest_keeps(
                    ts,
                    q2,
                    t,
                    ExprModel::Binary(Box::new(left), op, Box::new(r)),
                );
            }
        }
    }
}

pub proof fn lemma_unary_consumes(ts: Seq<Token>, p: int)
    requires
        0 <= p <= ts.len(),
    ensures
        consumes(ts, p, unary(ts, p)),
    decreases ts.len() - p, 3nat,
{
    if unary_operator(kind_at(ts, p)) is Some {
        lemma_unary_consumes(ts, p + 1);
    } else {
        lemma_call_consumes(ts, p);
    }
}

pub proof fn lemma_call_consumes(ts: Seq<Token>, p: int)
    requires
        0 <= p <= ts.len(),
    ensures
        consumes(ts, p, call(ts, p)),
    decreases ts.len() - p, 2nat,
{
    lemma_primary_consumes(ts, p);
    if let Ok((e, q)) = primary(ts, p) {
        if moved(ts, p, q) {
            lemma_call_rest_keeps(ts, q, e);
        }
    }
}

proof fn lemma_call_rest_keeps(ts: Seq<Token>, q: int, callee: ExprModel)
    requires
        0 <= q <= ts.len(),
    ensures
        keeps_within(ts, q, call_rest(ts, q, callee)),
    decreases ts.len() - q, 0nat,
{
    if kind_at(ts, q) == TokenKind::Punctuation(crate::token::PunctuationTokenKind::LParen) {
        lemma_arguments_keeps(ts, q + 1);
        if let Ok((args, r)) = arguments(ts, q + 1) {
            if moved(ts, q, r + 1) {
                lemma_call_rest_keeps(ts, r + 1, ExprModel::Call(Box::new(callee), args));
            }
        }
    }
}

proof fn lemma_arguments_keeps(ts: Seq<Token>, p: int)
    requires
        0 <= p <= ts.len(),
    ensures
        keeps_within(ts, p, arguments(ts, p)),
    decreases ts.len() - p, 20nat,
{
    lemma_argument_list_keeps(ts, p, Seq::empty());
}

proof fn lemma_argument_list_keeps(ts: Seq<Token>, p: int, done: Seq<ExprModel>)
    requires
        0 <= p <= ts.len(),
    ensures
        keeps_within(ts, p, argument_list(ts, p, done)),
    decreases ts.len() - p, 19nat,
{
    lemma_expression_consumes(ts, p);
    if let Ok((e, q)) = expression(ts, p) {
        if moved(ts, p, q) && q < ts.len() {
            lemma_argument_list_keeps(ts, q + 1, done.push(e));
        }
    }
}

pub proof fn lemma_primary_consumes(ts: Seq<Token>, p: int)
    requires
        0 <= p <= ts.len(),
    ensures
        consumes(ts, p, primary(ts, p)),
    decreases ts.len() - p, 1nat,
{
    if kind_at(ts, p) == TokenKind::Punctuation(crate::token::PunctuationTokenKind::LParen) {
        lemma_expression_consumes(ts, p + 1);
    }
}

} // verus!
