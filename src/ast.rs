use vstd::prelude::*;

verus! {

/// Binary operators of the expression grammar.
#[derive(Copy, Clone, Debug, PartialEq, Eq, Structural)]
pub enum BinOp {
    Add,
    Subtract,
    Multiply,
    Divide,
    Modulus,
    Less,
    Greater,
    LessEqual,
    GreaterEqual,
    Equal,
    NotEqual,
    And,
    Or,
}

/// Prefix operators.
#[derive(Copy, Clone, Debug, PartialEq, Eq, Structural)]
pub enum UnOp {
    Not,
    Negate,
}

/// Expressions. A number keeps its literal text verbatim; converting it to a
/// floating-point value is left to whoever evaluates the tree.
#[derive(Debug, PartialEq)]
pub enum Expr {
    Number(String),
    String(String),
    Identifier(String),
    Binary(Box<Expr>, BinOp, Box<Expr>),
    Unary(UnOp, Box<Expr>),
    Call(Box<Expr>, Vec<Expr>),
    Assign(Box<Expr>, Box<Expr>),
}

/// Statements.
#[derive(Debug, PartialEq)]
pub enum Stmt {
    Let(String, Expr),
    Const(String, Expr),
    Expr(Expr),
    If(Expr, Box<Stmt>, Option<Box<Stmt>>),
    While(Expr, Box<Stmt>),
    Function(String, Vec<String>, Box<Stmt>),
    Return(Option<Expr>),
    Block(Vec<Stmt>),
}

/// Either kind of node.
#[derive(Debug, PartialEq)]
pub enum AstNode {
    Expr(Expr),
    Stmt(Stmt),
}

/// The mathematical value of an expression: strings become character sequences
/// and argument vectors become sequences.
pub enum ExprModel {
    Number(Seq<char>),
    Str(Seq<char>),
    Identifier(Seq<char>),
    Binary(Box<ExprModel>, BinOp, Box<ExprModel>),
    Unary(UnOp, Box<ExprModel>),
    Call(Box<ExprModel>, Seq<ExprModel>),
    Assign(Box<ExprModel>, Box<ExprModel>),
}

/// The mathematical value of a statement.
pub enum StmtModel {
    Let(Seq<char>, ExprModel),
    Const(Seq<char>, ExprModel),
    Expr(ExprModel),
    If(ExprModel, Box<StmtModel>, Option<Box<StmtModel>>),
    While(ExprModel, Box<StmtModel>),
    Function(Seq<char>, Seq<Seq<char>>, Box<StmtModel>),
    Return(Option<ExprModel>),
    Block(Seq<StmtModel>),
}

impl Expr {
    pub open spec fn model(&self) -> ExprModel
        decreases self, 0nat,
    {
        match self {
            Expr::Number(s) => ExprModel::Number(s@),
            Expr::String(s) => ExprModel::Str(s@),
            Expr::Identifier(s) => ExprModel::Identifier(s@),
            Expr::Binary(l, op, r) => ExprModel::Binary(Box::new(l.model()), *op, Box::new(r.model())),
            Expr::Unary(op, e) => ExprModel::Unary(*op, Box::new(e.model())),
            Expr::Call(c, args) => ExprModel::Call(
                Box::new(c.model()),
                Self::models(args@),
            ),
            Expr::Assign(t, v) => ExprModel::Assign(Box::new(t.model()), Box::new(v.model())),
        }
    }

    /// The models of a sequence of expressions, in order.
    pub open spec fn models(s: Seq<Expr>) -> Seq<ExprModel>
        decreases s, 1nat,
    {
        Seq::new(s.len(), |i: int| Self::model_at(s, i))
    }

    /// The model of the `i`-th expression of `s` (an arbitrary value out of range).
    pub open spec fn model_at(s: Seq<Expr>, i: int) -> ExprModel
        decreases s, 0nat,
    {
        if 0 <= i < s.len() {
            s[i].model()
        } else {
            arbitrary()
        }
    }
}

/// The character sequences of a vector of names, in order.
pub open spec fn names_model(v: Seq<String>) -> Seq<Seq<char>> {
    v.map_values(|n: String| n@)
}

impl Stmt {
    pub open spec fn model(&self) -> StmtModel
        decreases self, 0nat,
    {
        match self {
            Stmt::Let(n, e) => StmtModel::Let(n@, e.model()),
            Stmt::Const(n, e) => StmtModel::Const(n@, e.model()),
            Stmt::Expr(e) => StmtModel::Expr(e.model()),
            Stmt::If(c, t, e) => StmtModel::If(
                c.model(),
                Box::new(t.model()),
                match e {
                    Some(e) => Some(Box::new(e.model())),
                    None => None,
                },
            ),
            Stmt::While(c, b) => StmtModel::While(c.model(), Box::new(b.model())),
            Stmt::Function(n, ps, b) => StmtModel::Function(
                n@,
                names_model(ps@),
                Box::new(b.model()),
            ),
            Stmt::Return(e) => StmtModel::Return(
                match e {
                    Some(e) => Some(e.model()),
                    None => None,
                },
            ),
            Stmt::Block(ss) => StmtModel::Block(Self::models(ss@)),
        }
    }

    /// The models of a sequence of statements, in order.
    pub open spec fn models(s: Seq<Stmt>) -> Seq<StmtModel>
        decreases s, 1nat,
    {
        Seq::new(s.len(), |i: int| Self::model_at(s, i))
    }

    /// The model of the `i`-th statement of `s` (an arbitrary value out of range).
    pub open spec fn model_at(s: Seq<Stmt>, i: int) -> StmtModel
        decreases s, 0nat,
    {
        if 0 <= i < s.len() {
            s[i].model()
        } else {
            arbitrary()
        }
    }
}

} // verus!
verus! {

/// Clones each expression of `v`, in order.
fn clone_all(v: &Vec<Expr>) -> (r: Vec<Expr>)
    ensures
        Expr::models(r@) == Expr::models(v@),
    decreases v,
{
    let mut out: Vec<Expr> = Vec::new();
    let mut i: usize = 0;
    while i < v.len()
        invariant
            i <= v@.len(),
            out@.len() == i,
            forall|j: int| 0 <= j < i ==> #[trigger] out@[j].model() == v@[j].model(),
        decreases v@.len() - i,
    {
        proof {
            broadcast use vstd::std_specs::vec::group_vec_axioms;

            assert(decreases_to!(*v => v[i as int]));
        }
        out.push(v[i].clone());
        i = i + 1;
    }
    assert(Expr::models(out@) =~= Expr::models(v@)) by {
        assert forall|j: int| 0 <= j < out@.len() implies Expr::models(out@)[j]
            == Expr::models(v@)[j] by {
            assert(out@[j].model() == v@[j].model());
        }
    }
    out
}

impl Clone for Expr {
    fn clone(&self) -> (r: Self)
        ensures
            r.model() == self.model(),
        decreases self,
    {
        match self {
            Expr::Number(s) => Expr::Number(s.clone()),
            Expr::String(s) => Expr::String(s.clone()),
            Expr::Identifier(s) => Expr::Identifier(s.clone()),
            Expr::Binary(l, op, r) => Expr::Binary(Box::new((**l).clone()), *op, Box::new((**r).clone())),
            Expr::Unary(op, e) => Expr::Unary(*op, Box::new((**e).clone())),
            Expr::Call(c, args) => Expr::Call(Box::new((**c).clone()), clone_all(args)),
            Expr::Assign(t, v) => Expr::Assign(Box::new((**t).clone()), Box::new((**v).clone())),
        }
    }
}

} // verus!

verus! {

/// Clones each name of `v`, in order.
fn clone_names(v: &Vec<String>) -> (r: Vec<String>)
    ensures
        names_model(r@) == names_model(v@),
{
    let mut out: Vec<String> = Vec::new();
    let mut i: usize = 0;
    while i < v.len()
        invariant
            i <= v@.len(),
            out@.len() == i,
            forall|j: int| 0 <= j < i ==> #[trigger] out@[j]@ == v@[j]@,
        decreases v@.len() - i,
    {
        out.push(v[i].clone());
        i = i + 1;
    }
    assert(names_model(out@) =~= names_model(v@));
    out
}

/// Clones each statement of `v`, in order.
fn clone_stmts(v: &Vec<Stmt>) -> (r: Vec<Stmt>)
    ensures
        Stmt::models(r@) == Stmt::models(v@),
    decreases v,
{
    let mut out: Vec<Stmt> = Vec::new();
    let mut i: usize = 0;
    while i < v.len()
        invariant
            i <= v@.len(),
            out@.len() == i,
            forall|j: int| 0 <= j < i ==> #[trigger] out@[j].model() == v@[j].model(),
        decreases v@.len() - i,
    {
        proof {
            broadcast use vstd::std_specs::vec::group_vec_axioms;

            assert(decreases_to!(*v => v[i as int]));
        }
        out.push(v[i].clone());
        i = i + 1;
    }
    assert(Stmt::models(out@) =~= Stmt::models(v@)) by {
        assert forall|j: int| 0 <= j < out@.len() implies Stmt::models(out@)[j]
            == Stmt::models(v@)[j] by {
            assert(out@[j].model() == v@[j].model());
        }
    }
    out
}

impl Clone for Stmt {
    fn clone(&self) -> (r: Self)
        ensures
            r.model() == self.model(),
        decreases self,
    {
        match self {
            Stmt::Let(n, e) => Stmt::Let(n.clone(), e.clone()),
            Stmt::Const(n, e) => Stmt::Const(n.clone(), e.clone()),
            Stmt::Expr(e) => Stmt::Expr(e.clone()),
            Stmt::If(c, t, e) => {
                let e2 = match e {
                    Some(e) => Some(Box::new((**e).clone())),
                    None => None,
                };
                Stmt::If(c.clone(), Box::new((**t).clone()), e2)
            },
            Stmt::While(c, b) => Stmt::While(c.clone(), Box::new((**b).clone())),
            Stmt::Function(n, ps, b) => Stmt::Function(
                n.clone(),
                clone_names(ps),
                Box::new((**b).clone()),
            ),
            Stmt::Return(e) => Stmt::Return(
                match e {
                    Some(e) => Some(e.clone()),
                    None => None,
                },
            ),
            Stmt::Block(ss) => Stmt::Block(clone_stmts(ss)),
        }
    }
}

impl Clone for AstNode {
    fn clone(&self) -> Self {
        match self {
            AstNode::Expr(e) => AstNode::Expr(e.clone()),
            AstNode::Stmt(s) => AstNode::Stmt(s.clone()),
        }
    }
}

} // verus!
