use crate::ast::{names_model, BinOp, Expr, ExprModel, Stmt, StmtModel, UnOp};
use crate::grammar::{
    argument_list, arguments, assigned_value, assignment, assignment_operator, at_end, binary,
    binary_rest, block, call, call_rest, check, const_declaration, declaration, expect,
    expression, expression_statement, function_declaration, if_statement, kind_at,
    let_declaration, next_tier, parameter_list, parameters, primary, program, return_statement,
    significant, statement, tier_operator, tier_rank, unary, unary_operator, unquote,
    while_statement, Expected, ParseError, Parsed, Tier,
};
use crate::text::{chars_of, is_decimal_literal, substring};
use crate::token::{
    KeywordTokenKind, LiteralTokenKind, OperatorTokenKind, PunctuationTokenKind, Token,
    TokenKind,
};
use vstd::prelude::*;

verus! {

broadcast use vstd::std_specs::vec::group_vec_axioms;

/// Whether `r`, with the cursor left at `end`, is the expression parse `s`.
pub open spec fn expr_result(r: Result<Expr, ParseError>, s: Parsed<ExprModel>, end: int) -> bool {
    match s {
        Ok((m, q)) => r matches Ok(e) && e.model() == m && end == q,
        Err(err) => r matches Err(e) && e == err,
    }
}

/// Whether `r`, with the cursor left at `end`, is the statement parse `s`.
pub open spec fn stmt_result(r: Result<Stmt, ParseError>, s: Parsed<StmtModel>, end: int) -> bool {
    match s {
        Ok((m, q)) => r matches Ok(st) && st.model() == m && end == q,
        Err(err) => r matches Err(e) && e == err,
    }
}

/// Whether `r`, with the cursor left at `end`, is the parse `s` of a list of
/// expressions.
pub open spec fn exprs_result(
    r: Result<Vec<Expr>, ParseError>,
    s: Parsed<Seq<ExprModel>>,
    end: int,
) -> bool {
    match s {
        Ok((m, q)) => r matches Ok(v) && Expr::models(v@) == m && end == q,
        Err(err) => r matches Err(e) && e == err,
    }
}

/// Whether `r`, with the cursor left at `end`, is the parse `s` of a list of
/// statements.
pub open spec fn stmts_result(
    r: Result<Vec<Stmt>, ParseError>,
    s: Parsed<Seq<StmtModel>>,
    end: int,
) -> bool {
    match s {
        Ok((m, q)) => r matches Ok(v) && Stmt::models(v@) == m && end == q,
        Err(err) => r matches Err(e) && e == err,
    }
}

/// Whether `r`, with the cursor left at `end`, is the parse `s` of a list of
/// names.
pub open spec fn names_result(
    r: Result<Vec<String>, ParseError>,
    s: Parsed<Seq<Seq<char>>>,
    end: int,
) -> bool {
    match s {
        Ok((m, q)) => r matches Ok(v) && names_model(v@) == m && end == q,
        Err(err) => r matches Err(e) && e == err,
    }
}

/// The outcome of parsing a whole program, as statement models.
pub open spec fn program_outcome(r: Result<Vec<Stmt>, ParseError>) -> Result<
    Seq<StmtModel>,
    ParseError,
> {
    match r {
        Ok(v) => Ok(Stmt::models(v@)),
        Err(e) => Err(e),
    }
}

proof fn lemma_expr_models_push(v: Seq<Expr>, e: Expr)
    ensures
        Expr::models(v.push(e)) == Expr::models(v).push(e.model()),
{
    assert(Expr::models(v.push(e)) =~= Expr::models(v).push(e.model()));
}

proof fn lemma_stmt_models_push(v: Seq<Stmt>, s: Stmt)
    ensures
        Stmt::models(v.push(s)) == Stmt::models(v).push(s.model()),
{
    assert(Stmt::models(v.push(s)) =~= Stmt::models(v).push(s.model()));
}

proof fn lemma_names_push(v: Seq<String>, n: String)
    ensures
        names_model(v.push(n)) == names_model(v).push(n@),
{
    assert(names_model(v.push(n)) =~= names_model(v).push(n@));
}

impl Tier {
    fn next(self) -> (r: Option<Tier>)
        ensures
            r == next_tier(self),
    {
        match self {
            Tier::Or => Some(Tier::And),
            Tier::And => Some(Tier::Equality),
            Tier::Equality => Some(Tier::Comparison),
            Tier::Comparison => Some(Tier::Term),
            Tier::Term => Some(Tier::Factor),
            Tier::Factor => None,
        }
    }

    fn operator(self, k: TokenKind) -> (r: Option<BinOp>)
        ensures
            r == tier_operator(self, k),
    {
        match (self, k) {
            (Tier::Or, TokenKind::Operator(OperatorTokenKind::Or)) => Some(BinOp::Or),
            (Tier::And, TokenKind::Operator(OperatorTokenKind::And)) => Some(BinOp::And),
            (Tier::Equality, TokenKind::Operator(OperatorTokenKind::Equal)) => Some(BinOp::Equal),
            (Tier::Equality, TokenKind::Operator(OperatorTokenKind::NotEqual)) => Some(
                BinOp::NotEqual,
            ),
            (Tier::Comparison, TokenKind::Operator(OperatorTokenKind::Less)) => Some(BinOp::Less),
            (Tier::Comparison, TokenKind::Operator(OperatorTokenKind::LessEqual)) => Some(
                BinOp::LessEqual,
            ),
            (Tier::Comparison, TokenKind::Operator(OperatorTokenKind::Greater)) => Some(
                BinOp::Greater,
            ),
            (Tier::Comparison, TokenKind::Operator(OperatorTokenKind::GreaterEqual)) => Some(
                BinOp::GreaterEqual,
            ),
            (Tier::Term, TokenKind::Operator(OperatorTokenKind::Plus)) => Some(BinOp::Add),
            (Tier::Term, TokenKind::Operator(OperatorTokenKind::Minus)) => Some(BinOp::Subtract),
            (Tier::Factor, TokenKind::Operator(OperatorTokenKind::Star)) => Some(BinOp::Multiply),
            (Tier::Factor, TokenKind::Operator(OperatorTokenKind::Slash)) => Some(BinOp::Divide),
            (Tier::Factor, TokenKind::Operator(OperatorTokenKind::Percent)) => Some(
                BinOp::Modulus,
            ),
            _ => None,
        }
    }
}

fn unary_op(k: TokenKind) -> (r: Option<UnOp>)
    ensures
        r == unary_operator(k),
{
    match k {
        TokenKind::Operator(OperatorTokenKind::Not) => Some(UnOp::Not),
        TokenKind::Operator(OperatorTokenKind::Minus) => Some(UnOp::Negate),
        _ => None,
    }
}

fn assignment_op(k: TokenKind) -> (r: Option<Option<BinOp>>)
    ensures
        r == assignment_operator(k),
{
    match k {
        TokenKind::Operator(OperatorTokenKind::Assign) => Some(None),
        TokenKind::Operator(OperatorTokenKind::PlusAssign) => Some(Some(BinOp::Add)),
        TokenKind::Operator(OperatorTokenKind::MinusAssign) => Some(Some(BinOp::Subtract)),
        TokenKind::Operator(OperatorTokenKind::StarAssign) => Some(Some(BinOp::Multiply)),
        TokenKind::Operator(OperatorTokenKind::SlashAssign) => Some(Some(BinOp::Divide)),
        _ => None,
    }
}

/// The text of a string token, without the surrounding quotes it may still carry.
fn unquoted(v: &String) -> (r: String)
    ensures
        r@ == unquote(v@),
{
    let cs = chars_of(v.as_str());
    let n = cs.len();
    if n >= 2 && cs[0] == '"' && cs[n - 1] == '"' {
        substring(&cs, 1, n - 1)
    } else {
        substring(&cs, 0, n)
    }
}

/// A recursive-descent parser over a token sequence, with one token of
/// lookahead. The cursor never moves past the first end-of-input token; past
/// the end of the sequence, input counts as ended.
pub struct Parser {
    tokens: Vec<Token>,
    current: usize,
}

impl Parser {
    pub closed spec fn tokens(&self) -> Seq<Token> {
        self.tokens@
    }

    /// The cursor, a token index.
    pub closed spec fn current(&self) -> int {
        self.current as int
    }

    pub closed spec fn wf(&self) -> bool {
        self.current <= self.tokens.len()
    }

    /// A parser over `tokens`; comment tokens are left out, so positions in
    /// errors count the other tokens only.
    pub fn new(tokens: Vec<Token>) -> (r: Parser)
        ensures
            r.tokens() == significant(tokens@),
            r.current() == 0,
            r.wf(),
    {
        let mut kept: Vec<Token> = Vec::new();
        let mut i: usize = 0;
        while i < tokens.len()
            invariant
                i <= tokens@.len(),
                kept@ == significant(tokens@.take(i as int)),
            decreases tokens@.len() - i,
        {
            proof {
                reveal(Seq::filter);
                assert(tokens@.take(i + 1).drop_last() =~= tokens@.take(i as int));
            }
            if tokens[i].kind != TokenKind::Comment {
                kept.push(tokens[i].clone());
            }
            i = i + 1;
        }
        assert(tokens@.take(i as int) =~= tokens@);
        Parser { tokens: kept, current: 0 }
    }

    /// Parses declarations up to the end of input.
    pub fn parse(&mut self) -> (r: Result<Vec<Stmt>, ParseError>)
        requires
            old(self).wf(),
        ensures
            final(self).wf(),
            final(self).tokens() == old(self).tokens(),
            program_outcome(r) == program(old(self).tokens(), old(self).current(), Seq::empty()),
        decreases old(self).tokens().len() - old(self).current(), 22nat,
    {
        let ghost ts = self.tokens@;
        let ghost p = self.current as int;
        let mut statements: Vec<Stmt> = Vec::new();
        assert(Stmt::models(statements@) =~= Seq::<StmtModel>::empty());
        loop
            invariant
                self.wf(),
                self.tokens@ == ts,
                old(self).tokens@ == ts,
                old(self).current == p,
                p <= self.current,
                program(ts, p, Seq::empty()) == program(
                    ts,
                    self.current as int,
                    Stmt::models(statements@),
                ),
            decreases ts.len() - self.current,
        {
            if self.is_at_end() {
                return Ok(statements);
            }
            let s = match self.declaration() {
                Ok(s) => s,
                Err(e) => return Err(e),
            };
            proof {
                lemma_stmt_models_push(statements@, s);
            }
            statements.push(s);
        }
    }

    /// The kind of the token under the cursor.
    fn peek(&self) -> (r: TokenKind)
        requires
            self.wf(),
        ensures
            r == kind_at(self.tokens(), self.current()),
    {
        if self.current < self.tokens.len() {
            self.tokens[self.current].kind
        } else {
            TokenKind::EOF
        }
    }

    fn is_at_end(&self) -> (r: bool)
        requires
            self.wf(),
        ensures
            r == at_end(self.tokens(), self.current()),
    {
        self.peek() == TokenKind::EOF
    }

    fn check(&self, kind: TokenKind) -> (r: bool)
        requires
            self.wf(),
        ensures
            r == check(self.tokens(), self.current(), kind),
    {
        if self.is_at_end() {
            false
        } else {
            self.peek() == kind
        }
    }

    /// Moves past the token under the cursor, unless input has ended.
    fn advance(&mut self)
        requires
            old(self).wf(),
        ensures
            final(self).wf(),
            final(self).tokens() == old(self).tokens(),
            final(self).current() == if at_end(old(self).tokens(), old(self).current()) {
                old(self).current()
            } else {
                old(self).current() + 1
            },
    {
        if !self.is_at_end() {
            self.current = self.current + 1;
        }
    }

    /// The token just before the cursor.
    fn previous(&self) -> (r: &Token)
        requires
            self.wf(),
            0 < self.current(),
        ensures
            *r == self.tokens()[self.current() - 1],
    {
        &self.tokens[self.current - 1]
    }

    /// Consumes a token of kind `kind` if one is under the cursor.
    fn match_token(&mut self, kind: TokenKind) -> (r: bool)
        requires
            old(self).wf(),
        ensures
            final(self).wf(),
            final(self).tokens() == old(self).tokens(),
            r == check(old(self).tokens(), old(self).current(), kind),
            final(self).current() == if r {
                old(self).current() + 1
            } else {
                old(self).current()
            },
    {
        if self.check(kind) {
            self.advance();
            true
        } else {
            false
        }
    }

    /// Consumes a token of kind `kind`, or fails saying that `what` was expected.
    fn consume(&mut self, kind: TokenKind, what: Expected) -> (r: Result<(), ParseError>)
        requires
            old(self).wf(),
        ensures
            final(self).wf(),
            final(self).tokens() == old(self).tokens(),
            match expect(old(self).tokens(), old(self).current(), kind, what) {
                Ok(q) => r is Ok && final(self).current() == q,
                Err(e) => r == Err::<(), ParseError>(e),
            },
    {
        if self.check(kind) {
            self.advance();
            Ok(())
        } else {
            Err(
                ParseError::Unexpected { expected: what, found: self.peek(), position: self.current },
            )
        }
    }

    fn expression(&mut self) -> (r: Result<Expr, ParseError>)
        requires
            old(self).wf(),
        ensures
            final(self).wf(),
            final(self).tokens() == old(self).tokens(),
            expr_result(r, expression(old(self).tokens(), old(self).current()), final(self).current()),
            r is Ok ==> old(self).current() < final(self).current(),
        decreases old(self).tokens().len() - old(self).current(), 18nat,
    {
        self.assignment()
    }

    fn assignment(&mut self) -> (r: Result<Expr, ParseError>)
        requires
            old(self).wf(),
        ensures
            final(self).wf(),
            final(self).tokens() == old(self).tokens(),
            expr_result(r, assignment(old(self).tokens(), old(self).current()), final(self).current()),
            r is Ok ==> old(self).current() < final(self).current(),
        decreases old(self).tokens().len() - old(self).current(), 17nat,
    {
        let ghost ts = self.tokens@;
        let ghost p = self.current as int;
        let target = match self.binary(Tier::Or) {
            Ok(e) => e,
            Err(e) => return Err(e),
        };
        let operator = self.peek();
        let position = self.current;
        let op = match assignment_op(operator) {
            Some(op) => op,
            None => return Ok(target),
        };
        self.advance();
        let value = match self.assignment() {
            Ok(v) => v,
            Err(e) => return Err(e),
        };
        match target {
            Expr::Identifier(name) => {
                let ghost v = value.model();
                let assigned = match op {
                    Some(b) => Expr::Binary(Box::new(Expr::Identifier(name.clone())), b, Box::new(value)),
                    None => value,
                };
                assert(assigned.model() == assigned_value(op, name@, v));
                Ok(Expr::Assign(Box::new(Expr::Identifier(name)), Box::new(assigned)))
            },
            _ => Err(ParseError::InvalidAssignmentTarget { operator, position }),
        }
    }

    /// An operand of tier `tier`: an expression of the next tighter tier.
    fn operand(&mut self, tier: Tier) -> (r: Result<Expr, ParseError>)
        requires
            old(self).wf(),
        ensures
            final(self).wf(),
            final(self).tokens() == old(self).tokens(),
            expr_result(
                r,
                match next_tier(tier) {
                    Some(n) => binary(old(self).tokens(), old(self).current(), n),
                    None => unary(old(self).tokens(), old(self).current()),
                },
                final(self).current(),
            ),
            r is Ok ==> old(self).current() < final(self).current(),
        decreases old(self).tokens().len() - old(self).current(), 3 + 2 * tier_rank(tier),
    {
        match tier.next() {
            Some(n) => self.binary(n),
            None => self.unary(),
        }
    }

    fn binary(&mut self, tier: Tier) -> (r: Result<Expr, ParseError>)
        requires
            old(self).wf(),
        ensures
            final(self).wf(),
            final(self).tokens() == old(self).tokens(),
            expr_result(r, binary(old(self).tokens(), old(self).current(), tier), final(self).current()),
            r is Ok ==> old(self).current() < final(self).current(),
        decreases old(self).tokens().len() - old(self).current(), 4 + 2 * tier_rank(tier),
    {
        let ghost ts = self.tokens@;
        let ghost p = self.current as int;
        let mut expr = match self.operand(tier) {
            Ok(e) => e,
            Err(e) => return Err(e),
        };
        loop
            invariant
                self.wf(),
                self.tokens@ == ts,
                old(self).tokens@ == ts,
                old(self).current == p,
                p < self.current,
                binary(ts, p, tier) == binary_rest(ts, self.current as int, tier, expr.model()),
            decreases ts.len() - self.current,
        {
            let op = match tier.operator(self.peek()) {
                Some(op) => op,
                None => return Ok(expr),
            };
            self.advance();
            let right = match self.operand(tier) {
                Ok(e) => e,
                Err(e) => return Err(e),
            };
            expr = Expr::Binary(Box::new(expr), op, Box::new(right));
        }
    }

    fn unary(&mut self) -> (r: Result<Expr, ParseError>)
        requires
            old(self).wf(),
        ensures
            final(self).wf(),
            final(self).tokens() == old(self).tokens(),
            expr_result(r, unary(old(self).tokens(), old(self).current()), final(self).current()),
            r is Ok ==> old(self).current() < final(self).current(),
        decreases old(self).tokens().len() - old(self).current(), 3nat,
    {
        match unary_op(self.peek()) {
            Some(op) => {
                self.advance();
                match self.unary() {
                    Ok(e) => Ok(Expr::Unary(op, Box::new(e))),
                    Err(e) => Err(e),
                }
            },
            None => self.call(),
        }
    }

    fn call(&mut self) -> (r: Result<Expr, ParseError>)
        requires
            old(self).wf(),
        ensures
            final(self).wf(),
            final(self).tokens() == old(self).tokens(),
            expr_result(r, call(old(self).tokens(), old(self).current()), final(self).current()),
            r is Ok ==> old(self).current() < final(self).current(),
        decreases old(self).tokens().len() - old(self).current(), 2nat,
    {
        let ghost ts = self.tokens@;
        let ghost p = self.current as int;
        let mut expr = match self.primary() {
            Ok(e) => e,
            Err(e) => return Err(e),
        };
        loop
            invariant
                self.wf(),
                self.tokens@ == ts,
                old(self).tokens@ == ts,
                old(self).current == p,
                p < self.current,
                call(ts, p) == call_rest(ts, self.current as int, expr.model()),
            decreases ts.len() - self.current,
        {
            if !self.match_token(TokenKind::Punctuation(PunctuationTokenKind::LParen)) {
                return Ok(expr);
            }
            expr = match self.finish_call(expr) {
                Ok(e) => e,
                Err(e) => return Err(e),
            };
        }
    }

    /// The argument list of a call of `callee`, after its "(".
    fn finish_call(&mut self, callee: Expr) -> (r: Result<Expr, ParseError>)
        requires
            old(self).wf(),
        ensures
            final(self).wf(),
            final(self).tokens() == old(self).tokens(),
            match arguments(old(self).tokens(), old(self).current()) {
                Err(e) => r matches Err(e2) && e2 == e,
                Ok((args, q)) => match expect(
                    old(self).tokens(),
                    q,
                    TokenKind::Punctuation(PunctuationTokenKind::RParen),
                    Expected::RParenAfterArguments,
                ) {
                    Err(e) => r matches Err(e2) && e2 == e,
                    Ok(q2) => r matches Ok(c) && c.model() == ExprModel::Call(
                        Box::new(callee.model()),
                        args,
                    ) && final(self).current() == q2,
                },
            },
            r is Ok ==> old(self).current() < final(self).current(),
        decreases old(self).tokens().len() - old(self).current(), 20nat,
    {
        let arguments = match self.arguments() {
            Ok(a) => a,
            Err(e) => return Err(e),
        };
        match self.consume(
            TokenKind::Punctuation(PunctuationTokenKind::RParen),
            Expected::RParenAfterArguments,
        ) {
            Ok(()) => Ok(Expr::Call(Box::new(callee), arguments)),
            Err(e) => Err(e),
        }
    }

    /// The comma-separated arguments of a call, up to its ")".
    fn arguments(&mut self) -> (r: Result<Vec<Expr>, ParseError>)
        requires
            old(self).wf(),
        ensures
            final(self).wf(),
            final(self).tokens() == old(self).tokens(),
            exprs_result(r, arguments(old(self).tokens(), old(self).current()), final(self).current()),
            r is Ok ==> old(self).current() <= final(self).current(),
        decreases old(self).tokens().len() - old(self).current(), 19nat,
    {
        let ghost ts = self.tokens@;
        let ghost p = self.current as int;
        let mut args: Vec<Expr> = Vec::new();
        if self.check(TokenKind::Punctuation(PunctuationTokenKind::RParen)) {
            assert(Expr::models(args@) =~= Seq::<ExprModel>::empty());
            return Ok(args);
        }
        assert(Expr::models(args@) =~= Seq::<ExprModel>::empty());
        loop
            invariant
                self.wf(),
                self.tokens@ == ts,
                old(self).tokens@ == ts,
                old(self).current == p,
                p <= self.current,
                arguments(ts, p) == argument_list(ts, self.current as int, Expr::models(args@)),
            decreases ts.len() - self.current,
        {
            let e = match self.expression() {
                Ok(e) => e,
                Err(e) => return Err(e),
            };
            proof {
                lemma_expr_models_push(args@, e);
            }
            args.push(e);
            if !self.match_token(TokenKind::Punctuation(PunctuationTokenKind::Comma)) {
                return Ok(args);
            }
        }
    }

    fn primary(&mut self) -> (r: Result<Expr, ParseError>)
        requires
            old(self).wf(),
        ensures
            final(self).wf(),
            final(self).tokens() == old(self).tokens(),
            expr_result(r, primary(old(self).tokens(), old(self).current()), final(self).current()),
            r is Ok ==> old(self).current() < final(self).current(),
        decreases old(self).tokens().len() - old(self).current(), 1nat,
    {
        let k = self.peek();
        let position = self.current;
        if k == TokenKind::Literal(LiteralTokenKind::Number) {
            if !is_decimal_literal(&self.tokens[position].value) {
                return Err(ParseError::MalformedNumber { position });
            }
            let value = self.tokens[position].value.clone();
            self.advance();
            Ok(Expr::Number(value))
        } else if k == TokenKind::Literal(LiteralTokenKind::String) {
            let value = unquoted(&self.tokens[position].value);
            self.advance();
            Ok(Expr::String(value))
        } else if k == TokenKind::Literal(LiteralTokenKind::Identifier) {
            let value = self.tokens[position].value.clone();
            self.advance();
            Ok(Expr::Identifier(value))
        } else if k == TokenKind::Punctuation(PunctuationTokenKind::LParen) {
            self.advance();
            let e = match self.expression() {
                Ok(e) => e,
                Err(e) => return Err(e),
            };
            match self.consume(
                TokenKind::Punctuation(PunctuationTokenKind::RParen),
                Expected::RParenAfterExpression,
            ) {
                Ok(()) => Ok(e),
                Err(err) => Err(err),
            }
        } else {
            Err(ParseError::Unexpected { expected: Expected::Expression, found: k, position })
        }
    }

    fn declaration(&mut self) -> (r: Result<Stmt, ParseError>)
        requires
            old(self).wf(),
        ensures
            final(self).wf(),
            final(self).tokens() == old(self).tokens(),
            stmt_result(r, declaration(old(self).tokens(), old(self).current()), final(self).current()),
            r is Ok ==> old(self).current() < final(self).current(),
        decreases old(self).tokens().len() - old(self).current(), 21nat,
    {
        if self.match_token(TokenKind::Keyword(KeywordTokenKind::Let)) {
            self.let_declaration()
        } else if self.match_token(TokenKind::Keyword(KeywordTokenKind::Const)) {
            self.const_declaration()
        } else if self.match_token(TokenKind::Keyword(KeywordTokenKind::Function)) {
            self.function_declaration()
        } else {
            self.statement()
        }
    }

    /// The name of the identifier just consumed.
    fn previous_name(&self) -> (r: String)
        requires
            self.wf(),
            0 < self.current(),
        ensures
            r@ == self.tokens()[self.current() - 1].value@,
    {
        self.previous().value.clone()
    }

    fn let_declaration(&mut self) -> (r: Result<Stmt, ParseError>)
        requires
            old(self).wf(),
        ensures
            final(self).wf(),
            final(self).tokens() == old(self).tokens(),
            stmt_result(r, let_declaration(old(self).tokens(), old(self).current()), final(self).current()),
            r is Ok ==> old(self).current() < final(self).current(),
        decreases old(self).tokens().len() - old(self).current(), 0nat,
    {
        match self.consume(
            TokenKind::Literal(LiteralTokenKind::Identifier),
            Expected::VariableName,
        ) {
            Ok(()) => {},
            Err(e) => return Err(e),
        }
        let name = self.previous_name();
        let initializer = if self.match_token(TokenKind::Operator(OperatorTokenKind::Assign)) {
            match self.expression() {
                Ok(e) => e,
                Err(e) => return Err(e),
            }
        } else {
            let zero = substring(&vec!['0'], 0, 1);
            assert(zero@ =~= seq!['0']);
            Expr::Number(zero)
        };
        match self.consume(
            TokenKind::Punctuation(PunctuationTokenKind::Semicolon),
            Expected::SemicolonAfterVariable,
        ) {
            Ok(()) => Ok(Stmt::Let(name, initializer)),
            Err(e) => Err(e),
        }
    }

    fn const_declaration(&mut self) -> (r: Result<Stmt, ParseError>)
        requires
            old(self).wf(),
        ensures
            final(self).wf(),
            final(self).tokens() == old(self).tokens(),
            stmt_result(r, const_declaration(old(self).tokens(), old(self).current()), final(self).current()),
            r is Ok ==> old(self).current() < final(self).current(),
        decreases old(self).tokens().len() - old(self).current(), 0nat,
    {
        match self.consume(
            TokenKind::Literal(LiteralTokenKind::Identifier),
            Expected::ConstantName,
        ) {
            Ok(()) => {},
            Err(e) => return Err(e),
        }
        let name = self.previous_name();
        match self.consume(
            TokenKind::Operator(OperatorTokenKind::Assign),
            Expected::AssignAfterConstantName,
        ) {
            Ok(()) => {},
            Err(e) => return Err(e),
        }
        let initializer = match self.expression() {
            Ok(e) => e,
            Err(e) => return Err(e),
        };
        match self.consume(
            TokenKind::Punctuation(PunctuationTokenKind::Semicolon),
            Expected::SemicolonAfterConstant,
        ) {
            Ok(()) => Ok(Stmt::Const(name, initializer)),
            Err(e) => Err(e),
        }
    }

    fn function_declaration(&mut self) -> (r: Result<Stmt, ParseError>)
        requires
            old(self).wf(),
        ensures
            final(self).wf(),
            final(self).tokens() == old(self).tokens(),
            stmt_result(
                r,
                function_declaration(old(self).tokens(), old(self).current()),
                final(self).current(),
            ),
            r is Ok ==> old(self).current() < final(self).current(),
        decreases old(self).tokens().len() - old(self).current(), 0nat,
    {
        match self.consume(
            TokenKind::Literal(LiteralTokenKind::Identifier),
            Expected::FunctionName,
        ) {
            Ok(()) => {},
            Err(e) => return Err(e),
        }
        let name = self.previous_name();
        match self.consume(
            TokenKind::Punctuation(PunctuationTokenKind::LParen),
            Expected::LParenAfterFunctionName,
        ) {
            Ok(()) => {},
            Err(e) => return Err(e),
        }
        let parameters = match self.parameters() {
            Ok(ps) => ps,
            Err(e) => return Err(e),
        };
        match self.consume(
            TokenKind::Punctuation(PunctuationTokenKind::RParen),
            Expected::RParenAfterParameters,
        ) {
            Ok(()) => {},
            Err(e) => return Err(e),
        }
        match self.consume(
            TokenKind::Punctuation(PunctuationTokenKind::LBrace),
            Expected::LBraceBeforeFunctionBody,
        ) {
            Ok(()) => {},
            Err(e) => return Err(e),
        }
        match self.block() {
            Ok(body) => {
                let body = Stmt::Block(body);
                assert(body.model() is Block);
                Ok(Stmt::Function(name, parameters, Box::new(body)))
            },
            Err(e) => Err(e),
        }
    }

    /// The comma-separated parameter names of a function, up to its ")".
    fn parameters(&mut self) -> (r: Result<Vec<String>, ParseError>)
        requires
            old(self).wf(),
        ensures
            final(self).wf(),
            final(self).tokens() == old(self).tokens(),
            names_result(r, parameters(old(self).tokens(), old(self).current()), final(self).current()),
            r is Ok ==> old(self).current() <= final(self).current(),
    {
        let ghost ts = self.tokens@;
        let ghost p = self.current as int;
        let mut names: Vec<String> = Vec::new();
        assert(names_model(names@) =~= Seq::<Seq<char>>::empty());
        if self.check(TokenKind::Punctuation(PunctuationTokenKind::RParen)) {
            return Ok(names);
        }
        loop
            invariant
                self.wf(),
                self.tokens@ == ts,
                old(self).tokens@ == ts,
                old(self).current == p,
                p <= self.current,
                parameters(ts, p) == parameter_list(ts, self.current as int, names_model(names@)),
            decreases ts.len() - self.current,
        {
            match self.consume(
                TokenKind::Literal(LiteralTokenKind::Identifier),
                Expected::ParameterName,
            ) {
                Ok(()) => {},
                Err(e) => return Err(e),
            }
            let name = self.previous_name();
            proof {
                lemma_names_push(names@, name);
            }
            names.push(name);
            if !self.match_token(TokenKind::Punctuation(PunctuationTokenKind::Comma)) {
                return Ok(names);
            }
        }
    }

    fn statement(&mut self) -> (r: Result<Stmt, ParseError>)
        requires
            old(self).wf(),
        ensures
            final(self).wf(),
            final(self).tokens() == old(self).tokens(),
            stmt_result(r, statement(old(self).tokens(), old(self).current()), final(self).current()),
            r is Ok ==> old(self).current() < final(self).current(),
        decreases old(self).tokens().len() - old(self).current(), 20nat,
    {
        if self.match_token(TokenKind::Keyword(KeywordTokenKind::If)) {
            self.if_statement()
        } else if self.match_token(TokenKind::Keyword(KeywordTokenKind::While)) {
            self.while_statement()
        } else if self.match_token(TokenKind::Keyword(KeywordTokenKind::Return)) {
            self.return_statement()
        } else if self.match_token(TokenKind::Punctuation(PunctuationTokenKind::LBrace)) {
            match self.block() {
                Ok(body) => Ok(Stmt::Block(body)),
                Err(e) => Err(e),
            }
        } else {
            self.expression_statement()
        }
    }

    fn if_statement(&mut self) -> (r: Result<Stmt, ParseError>)
        requires
            old(self).wf(),
        ensures
            final(self).wf(),
            final(self).tokens() == old(self).tokens(),
            stmt_result(r, if_statement(old(self).tokens(), old(self).current()), final(self).current()),
            r is Ok ==> old(self).current() < final(self).current(),
        decreases old(self).tokens().len() - old(self).current(), 0nat,
    {
        match self.consume(
            TokenKind::Punctuation(PunctuationTokenKind::LParen),
            Expected::LParenAfterIf,
        ) {
            Ok(()) => {},
            Err(e) => return Err(e),
        }
        let condition = match self.expression() {
            Ok(e) => e,
            Err(e) => return Err(e),
        };
        match self.consume(
            TokenKind::Punctuation(PunctuationTokenKind::RParen),
            Expected::RParenAfterIfCondition,
        ) {
            Ok(()) => {},
            Err(e) => return Err(e),
        }
        let then_branch = match self.statement() {
            Ok(s) => s,
            Err(e) => return Err(e),
        };
        if self.match_token(TokenKind::Keyword(KeywordTokenKind::Else)) {
            match self.statement() {
                Ok(s) => Ok(Stmt::If(condition, Box::new(then_branch), Some(Box::new(s)))),
                Err(e) => Err(e),
            }
        } else {
            Ok(Stmt::If(condition, Box::new(then_branch), None))
        }
    }

    fn while_statement(&mut self) -> (r: Result<Stmt, ParseError>)
        requires
            old(self).wf(),
        ensures
            final(self).wf(),
            final(self).tokens() == old(self).tokens(),
            stmt_result(r, while_statement(old(self).tokens(), old(self).current()), final(self).current()),
            r is Ok ==> old(self).current() < final(self).current(),
        decreases old(self).tokens().len() - old(self).current(), 0nat,
    {
        match self.consume(
            TokenKind::Punctuation(PunctuationTokenKind::LParen),
            Expected::LParenAfterWhile,
        ) {
            Ok(()) => {},
            Err(e) => return Err(e),
        }
        let condition = match self.expression() {
            Ok(e) => e,
            Err(e) => return Err(e),
        };
        match self.consume(
            TokenKind::Punctuation(PunctuationTokenKind::RParen),
            Expected::RParenAfterWhileCondition,
        ) {
            Ok(()) => {},
            Err(e) => return Err(e),
        }
        match self.statement() {
            Ok(body) => Ok(Stmt::While(condition, Box::new(body))),
            Err(e) => Err(e),
        }
    }

    fn return_statement(&mut self) -> (r: Result<Stmt, ParseError>)
        requires
            old(self).wf(),
        ensures
            final(self).wf(),
            final(self).tokens() == old(self).tokens(),
            stmt_result(r, return_statement(old(self).tokens(), old(self).current()), final(self).current()),
            r is Ok ==> old(self).current() < final(self).current(),
        decreases old(self).tokens().len() - old(self).current(), 19nat,
    {
        if self.match_token(TokenKind::Punctuation(PunctuationTokenKind::Semicolon)) {
            return Ok(Stmt::Return(None));
        }
        let value = match self.expression() {
            Ok(e) => e,
            Err(e) => return Err(e),
        };
        match self.consume(
            TokenKind::Punctuation(PunctuationTokenKind::Semicolon),
            Expected::SemicolonAfterReturnValue,
        ) {
            Ok(()) => Ok(Stmt::Return(Some(value))),
            Err(e) => Err(e),
        }
    }

    /// The declarations of a block, after its "{", and its "}".
    fn block(&mut self) -> (r: Result<Vec<Stmt>, ParseError>)
        requires
            old(self).wf(),
        ensures
            final(self).wf(),
            final(self).tokens() == old(self).tokens(),
            stmts_result(r, block(old(self).tokens(), old(self).current(), Seq::empty()), final(self).current()),
            r is Ok ==> old(self).current() < final(self).current(),
        decreases old(self).tokens().len() - old(self).current(), 22nat,
    {
        let ghost ts = self.tokens@;
        let ghost p = self.current as int;
        let mut statements: Vec<Stmt> = Vec::new();
        assert(Stmt::models(statements@) =~= Seq::<StmtModel>::empty());
        loop
            invariant
                self.wf(),
                self.tokens@ == ts,
                old(self).tokens@ == ts,
                old(self).current == p,
                p <= self.current,
                block(ts, p, Seq::empty()) == block(
                    ts,
                    self.current as int,
                    Stmt::models(statements@),
                ),
            decreases ts.len() - self.current,
        {
            if self.match_token(TokenKind::Punctuation(PunctuationTokenKind::RBrace)) {
                return Ok(statements);
            }
            if self.is_at_end() {
                return Err(
                    ParseError::Unexpected {
                        expected: Expected::RBraceAfterBlock,
                        found: self.peek(),
                        position: self.current,
                    },
                );
            }
            let s = match self.declaration() {
                Ok(s) => s,
                Err(e) => return Err(e),
            };
            proof {
                lemma_stmt_models_push(statements@, s);
            }
            statements.push(s);
        }
    }

    fn expression_statement(&mut self) -> (r: Result<Stmt, ParseError>)
        requires
            old(self).wf(),
        ensures
            final(self).wf(),
            final(self).tokens() == old(self).tokens(),
            stmt_result(
                r,
                expression_statement(old(self).tokens(), old(self).current()),
                final(self).current(),
            ),
            r is Ok ==> old(self).current() < final(self).current(),
        decreases old(self).tokens().len() - old(self).current(), 19nat,
    {
        let e = match self.expression() {
            Ok(e) => e,
            Err(e) => return Err(e),
        };
        match self.consume(
            TokenKind::Punctuation(PunctuationTokenKind::Semicolon),
            Expected::SemicolonAfterExpression,
        ) {
            Ok(()) => Ok(Stmt::Expr(e)),
            Err(e) => Err(e),
        }
    }
}

} // verus!
