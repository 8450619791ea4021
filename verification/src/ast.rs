use crate::rational::Rational;
use vstd::prelude::*;

verus! {

broadcast use vstd::std_specs::vec::group_vec_axioms;

/// Source-position metadata carried by every node, opaque to evaluation.
#[derive(Clone, Copy, Debug, PartialEq, Eq, Structural)]
pub struct Meta {
    pub line: u64,
    pub column: u64,
}

/// An identifier as first-class syntax.
#[derive(Debug, Clone)]
pub struct Symbol(pub String);

/// A literal: an exact rational number, or a string.
#[derive(Debug, Clone)]
pub enum Lit {
    Number(Rational),
    Str(String),
}

#[derive(Debug, Clone, PartialEq)]
pub enum BinaryOp {
    Add,
    Sub,
    Mul,
    Div,
    Mod,
    Pow,
}

#[derive(Debug, Clone, PartialEq)]
pub enum UnaryOp {
    Neg,
    Not,
}

/// An expression tree, as the parser hands it to the evaluator.
#[derive(Debug)]
pub enum Expr {
    Symbol { name: String, meta: Meta },
    Lit { value: Lit, meta: Meta },
    List { values: Vec<Expr>, meta: Meta },
    Lambda { params: Vec<Expr>, body: Box<Expr>, meta: Meta },
    Apply { fun: Box<Expr>, args: Vec<Expr>, meta: Meta },
    Let { name: String, value: Box<Expr>, body: Box<Expr>, meta: Meta },
    Quote { value: Box<Expr>, meta: Meta },
    Unquote { value: Box<Expr>, meta: Meta },
    UnquoteSplice { value: Box<Expr>, meta: Meta },
    If { cond: Box<Expr>, then_: Box<Expr>, else_: Box<Expr>, meta: Meta },
    Nil(Meta),
}

/// A top-level definition: binds `name` in the root environment.
#[derive(Debug)]
pub struct Def {
    pub name: String,
    pub value: Expr,
    pub meta: Meta,
}

/// One top-level form.
#[derive(Debug)]
pub enum Item {
    Def(Def),
    Expr(Expr),
}

/// A whole program, as produced by the parser.
#[derive(Debug)]
pub struct Root {
    pub items: Vec<Item>,
    pub meta: Meta,
}

/// The mathematical model of a literal.
pub enum LitV {
    Number(Rational),
    Str(Seq<char>),
}

/// The mathematical model of an expression tree.
pub enum ExprV {
    Symbol { name: Seq<char>, meta: Meta },
    Lit { value: LitV, meta: Meta },
    List { values: Seq<ExprV>, meta: Meta },
    Lambda { params: Seq<ExprV>, body: Box<ExprV>, meta: Meta },
    Apply { fun: Box<ExprV>, args: Seq<ExprV>, meta: Meta },
    Let { name: Seq<char>, value: Box<ExprV>, body: Box<ExprV>, meta: Meta },
    Quote { value: Box<ExprV>, meta: Meta },
    Unquote { value: Box<ExprV>, meta: Meta },
    UnquoteSplice { value: Box<ExprV>, meta: Meta },
    If { cond: Box<ExprV>, then_: Box<ExprV>, else_: Box<ExprV>, meta: Meta },
    Nil(Meta),
}

impl Lit {
    pub open spec fn to_view(&self) -> LitV {
        match self {
            Lit::Number(r) => LitV::Number(*r),
            Lit::Str(s) => LitV::Str(s@),
        }
    }
}

impl View for Lit {
    type V = LitV;

    open spec fn view(&self) -> LitV {
        self.to_view()
    }
}

impl Expr {
    pub open spec fn to_view(&self) -> ExprV
        decreases self,
    {
        match self {
            Expr::Symbol { name, meta } => ExprV::Symbol { name: name@, meta: *meta },
            Expr::Lit { value, meta } => ExprV::Lit { value: value.to_view(), meta: *meta },
            Expr::List { values, meta } => ExprV::List {
                values: view_exprs(values@),
                meta: *meta,
            },
            Expr::Lambda { params, body, meta } => ExprV::Lambda {
                params: view_exprs(params@),
                body: Box::new(body.to_view()),
                meta: *meta,
            },
            Expr::Apply { fun, args, meta } => ExprV::Apply {
                fun: Box::new(fun.to_view()),
                args: view_exprs(args@),
                meta: *meta,
            },
            Expr::Let { name, value, body, meta } => ExprV::Let {
                name: name@,
                value: Box::new(value.to_view()),
                body: Box::new(body.to_view()),
                meta: *meta,
            },
            Expr::Quote { value, meta } => ExprV::Quote {
                value: Box::new(value.to_view()),
                meta: *meta,
            },
            Expr::Unquote { value, meta } => ExprV::Unquote {
                value: Box::new(value.to_view()),
                meta: *meta,
            },
            Expr::UnquoteSplice { value, meta } => ExprV::UnquoteSplice {
                value: Box::new(value.to_view()),
                meta: *meta,
            },
            Expr::If { cond, then_, else_, meta } => ExprV::If {
                cond: Box::new(cond.to_view()),
                then_: Box::new(then_.to_view()),
                else_: Box::new(else_.to_view()),
                meta: *meta,
            },
            Expr::Nil(meta) => ExprV::Nil(*meta),
        }
    }
}

impl View for Expr {
    type V = ExprV;

    open spec fn view(&self) -> ExprV {
        self.to_view()
    }
}

pub open spec fn view_exprs(s: Seq<Expr>) -> Seq<ExprV>
    decreases s,
{
    if s.len() == 0 {
        Seq::empty()
    } else {
        view_exprs(s.drop_last()).push(s.last().to_view())
    }
}

pub proof fn lemma_view_exprs(s: Seq<Expr>)
    ensures
        view_exprs(s).len() == s.len(),
        forall|i: int| 0 <= i < s.len() ==> view_exprs(s)[i] == s[i].to_view(),
    decreases s.len(),
{
    if s.len() > 0 {
        lemma_view_exprs(s.drop_last());
    }
}

impl ExprV {
    /// The position carried by the model of a node.
    pub open spec fn meta_of(self) -> Meta {
        match self {
            ExprV::Symbol { meta, .. } => meta,
            ExprV::Lit { meta, .. } => meta,
            ExprV::List { meta, .. } => meta,
            ExprV::Lambda { meta, .. } => meta,
            ExprV::Apply { meta, .. } => meta,
            ExprV::Let { meta, .. } => meta,
            ExprV::Quote { meta, .. } => meta,
            ExprV::Unquote { meta, .. } => meta,
            ExprV::UnquoteSplice { meta, .. } => meta,
            ExprV::If { meta, .. } => meta,
            ExprV::Nil(meta) => meta,
        }
    }
}

impl Lit {
    pub fn duplicate(&self) -> (r: Lit)
        ensures
            r@ == self@,
    {
        match self {
            Lit::Number(n) => Lit::Number(*n),
            Lit::Str(s) => Lit::Str(s.clone()),
        }
    }
}

/// An element-wise copy of a sequence of expressions.
pub fn duplicate_exprs(v: &Vec<Expr>) -> (r: Vec<Expr>)
    ensures
        r@.len() == v@.len(),
        forall|i: int| 0 <= i < v@.len() ==> r@[i].to_view() == v@[i].to_view(),
    decreases *v,
{
    let mut out: Vec<Expr> = Vec::new();
    let mut i: usize = 0;
    while i < v.len()
        invariant
            i <= v.len(),
            out@.len() == i as int,
            forall|j: int| 0 <= j < i ==> out@[j].to_view() == v@[j].to_view(),
        decreases v.len() - i,
    {
        proof {
            assert(decreases_to!(*v => v@));
            assert(decreases_to!(v@ => v@[i as int]));
        }
        let c = v[i].duplicate();
        out.push(c);
        i = i + 1;
    }
    out
}

impl Expr {
    /// The node's source position.
    pub fn meta(&self) -> (r: &Meta)
        ensures
            *r == self.to_view().meta_of(),
    {
        match self {
            Expr::Symbol { meta, .. } => meta,
            Expr::Lit { meta, .. } => meta,
            Expr::List { meta, .. } => meta,
            Expr::Lambda { meta, .. } => meta,
            Expr::Apply { meta, .. } => meta,
            Expr::Let { meta, .. } => meta,
            Expr::Quote { meta, .. } => meta,
            Expr::Unquote { meta, .. } => meta,
            Expr::UnquoteSplice { meta, .. } => meta,
            Expr::If { meta, .. } => meta,
            Expr::Nil(m) => m,
        }
    }

    /// A structural copy with the same model.
    pub fn duplicate(&self) -> (r: Expr)
        ensures
            r.to_view() == self.to_view(),
        decreases *self,
    {
        match self {
            Expr::Symbol { name, meta } => Expr::Symbol { name: name.clone(), meta: *meta },
            Expr::Lit { value, meta } => Expr::Lit { value: value.duplicate(), meta: *meta },
            Expr::List { values, meta } => {
                let vs = duplicate_exprs(values);
                proof {
                    lemma_view_exprs(vs@);
                    lemma_view_exprs(values@);
                    assert(view_exprs(vs@) =~= view_exprs(values@));
                }
                Expr::List { values: vs, meta: *meta }
            }
            Expr::Lambda { params, body, meta } => {
                let ps = duplicate_exprs(params);
                proof {
                    lemma_view_exprs(ps@);
                    lemma_view_exprs(params@);
                    assert(view_exprs(ps@) =~= view_exprs(params@));
                }
                Expr::Lambda { params: ps, body: Box::new((**body).duplicate()), meta: *meta }
            }
            Expr::Apply { fun, args, meta } => {
                let ar = duplicate_exprs(args);
                proof {
                    lemma_view_exprs(ar@);
                    lemma_view_exprs(args@);
                    assert(view_exprs(ar@) =~= view_exprs(args@));
                }
                Expr::Apply { fun: Box::new((**fun).duplicate()), args: ar, meta: *meta }
            }
            Expr::Let { name, value, body, meta } => Expr::Let {
                name: name.clone(),
                value: Box::new((**value).duplicate()),
                body: Box::new((**body).duplicate()),
                meta: *meta,
            },
            Expr::Quote { value, meta } => Expr::Quote {
                value: Box::new((**value).duplicate()),
                meta: *meta,
            },
            Expr::Unquote { value, meta } => Expr::Unquote {
                value: Box::new((**value).duplicate()),
                meta: *meta,
            },
            Expr::UnquoteSplice { value, meta } => Expr::UnquoteSplice {
                value: Box::new((**value).duplicate()),
                meta: *meta,
            },
            Expr::If { cond, then_, else_, meta } => Expr::If {
                cond: Box::new((**cond).duplicate()),
                then_: Box::new((**then_).duplicate()),
                else_: Box::new((**else_).duplicate()),
                meta: *meta,
            },
            Expr::Nil(m) => Expr::Nil(*m),
        }
    }
}

} // verus!
