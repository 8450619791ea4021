use crate::ast::{Expr, ExprV};
use crate::env::{Env, EnvV};
use crate::error::TypeTag;
use crate::rational::Rational;
use vstd::prelude::*;

verus! {

broadcast use vstd::std_specs::vec::group_vec_axioms;

/// The identity tag of a built-in procedure; dispatch and equality go by it.
#[derive(Clone, Copy, Debug, PartialEq, Eq, Structural)]
pub enum NativeId {
    Add,
    Sub,
    Mul,
    Div,
    Mod,
}

/// A runtime value. Numbers are exact rationals; a closure pairs parameter
/// names and a body with the lexical environment captured at its definition
/// site. The captured chain does not include the global frame: globals are
/// consulted when the closure is called, so a closure sees top-level
/// definitions made after it was built — which is what lets a `Def`ed
/// function call itself.
#[derive(Debug)]
pub enum Value {
    Number(Rational),
    Str(String),
    Symbol(String),
    List(Vec<Value>),
    Nil,
    Closure { params: Vec<String>, body: Box<Expr>, env: Box<Env> },
    NativeProcedure(NativeId),
}

/// The mathematical model of a runtime value.
pub enum ValV {
    Number(Rational),
    Str(Seq<char>),
    Symbol(Seq<char>),
    List(Seq<ValV>),
    Nil,
    Closure { params: Seq<Seq<char>>, body: Box<ExprV>, env: Box<EnvV> },
    NativeProcedure(NativeId),
}

pub open spec fn view_strings(s: Seq<String>) -> Seq<Seq<char>> {
    Seq::new(s.len(), |i: int| s[i]@)
}

impl Value {
    pub open spec fn to_view(&self) -> ValV
        decreases self,
    {
        match self {
            Value::Number(r) => ValV::Number(*r),
            Value::Str(s) => ValV::Str(s@),
            Value::Symbol(s) => ValV::Symbol(s@),
            Value::List(items) => ValV::List(view_vals(items@)),
            Value::Nil => ValV::Nil,
            Value::Closure { params, body, env } => ValV::Closure {
                params: view_strings(params@),
                body: Box::new(body.to_view()),
                env: Box::new(env.to_view()),
            },
            Value::NativeProcedure(id) => ValV::NativeProcedure(*id),
        }
    }
}

impl View for Value {
    type V = ValV;

    open spec fn view(&self) -> ValV {
        self.to_view()
    }
}

pub open spec fn view_vals(s: Seq<Value>) -> Seq<ValV>
    decreases s,
{
    if s.len() == 0 {
        Seq::empty()
    } else {
        view_vals(s.drop_last()).push(s.last().to_view())
    }
}

pub proof fn lemma_view_vals(s: Seq<Value>)
    ensures
        view_vals(s).len() == s.len(),
        forall|i: int| 0 <= i < s.len() ==> view_vals(s)[i] == s[i].to_view(),
    decreases s.len(),
{
    if s.len() > 0 {
        lemma_view_vals(s.drop_last());
    }
}

impl ValV {
    /// The kind of a value, as named in type errors.
    pub open spec fn tag(self) -> TypeTag {
        match self {
            ValV::Number(_) => TypeTag::Number,
            ValV::Str(_) => TypeTag::Str,
            ValV::Symbol(_) => TypeTag::Symbol,
            ValV::List(_) => TypeTag::List,
            ValV::Nil => TypeTag::Nil,
            ValV::Closure { .. } => TypeTag::Closure,
            ValV::NativeProcedure(_) => TypeTag::NativeProcedure,
        }
    }
}

/// Structural equality of data: numbers, strings, symbols, `Nil` and lists
/// compare by content; native procedures by their identity tag; closures are
/// never equal, not even to themselves.
pub open spec fn val_eq(a: ValV, b: ValV) -> bool
    decreases a,
{
    match (a, b) {
        (ValV::Number(x), ValV::Number(y)) => x == y,
        (ValV::Str(x), ValV::Str(y)) => x == y,
        (ValV::Symbol(x), ValV::Symbol(y)) => x == y,
        (ValV::Nil, ValV::Nil) => true,
        (ValV::List(xs), ValV::List(ys)) => xs.len() == ys.len() && (forall|i: int|
            0 <= i < xs.len() ==> val_eq(#[trigger] xs[i], ys[i])),
        (ValV::NativeProcedure(x), ValV::NativeProcedure(y)) => x == y,
        _ => false,
    }
}

/// The model's constructor mirrors the value's constructor.
pub proof fn lemma_view_same_variant(v: &Value)
    ensures
        (v.to_view() is Number) == (v is Number),
        (v.to_view() is Str) == (v is Str),
        (v.to_view() is Symbol) == (v is Symbol),
        (v.to_view() is List) == (v is List),
        (v.to_view() is Nil) == (v is Nil),
        (v.to_view() is Closure) == (v is Closure),
        (v.to_view() is NativeProcedure) == (v is NativeProcedure),
{
    match v {
        Value::Number(_) => {}
        Value::Str(_) => {}
        Value::Symbol(_) => {}
        Value::List(_) => {}
        Value::Nil => {}
        Value::Closure { .. } => {}
        Value::NativeProcedure(_) => {}
    }
}

/// An element-wise copy of a vector of strings.
pub fn duplicate_strings(v: &Vec<String>) -> (r: Vec<String>)
    ensures
        r@ == v@,
{
    let mut out: Vec<String> = Vec::new();
    let mut i: usize = 0;
    while i < v.len()
        invariant
            i <= v.len(),
            out@.len() == i as int,
            forall|j: int| 0 <= j < i ==> out@[j] == v@[j],
        decreases v.len() - i,
    {
        let c = v[i].clone();
        out.push(c);
        i = i + 1;
    }
    proof {
        assert(out@ =~= v@);
    }
    out
}

/// An element-wise copy of a vector of values.
pub fn duplicate_vals(v: &Vec<Value>) -> (r: Vec<Value>)
    ensures
        r@.len() == v@.len(),
        forall|i: int| 0 <= i < v@.len() ==> r@[i].to_view() == v@[i].to_view(),
    decreases *v,
{
    let mut out: Vec<Value> = Vec::new();
    let mut i: usize = 0;
    while i < v.len()
        invariant
            i <= v.len(),
            out@.len() == i as int,
            forall|j: int| 0 <= j < i ==> out@[j].to_view() == v@[j].to_view(),
        decreases v.len() - i,
    {
        proof {
            assert(decreases_to!(*v => v@));
            assert(decreases_to!(v@ => v@[i as int]));
        }
        let c = v[i].duplicate();
        out.push(c);
        i = i + 1;
    }
    out
}

impl Value {
    /// A structural copy with the same model.
    pub fn duplicate(&self) -> (r: Value)
        ensures
            r.to_view() == self.to_view(),
        decreases *self,
    {
        match self {
            Value::Number(n) => Value::Number(*n),
            Value::Str(s) => Value::Str(s.clone()),
            Value::Symbol(s) => Value::Symbol(s.clone()),
            Value::List(items) => {
                let vs = duplicate_vals(items);
                proof {
                    lemma_view_vals(vs@);
                    lemma_view_vals(items@);
                    assert(view_vals(vs@) =~= view_vals(items@));
                }
                Value::List(vs)
            }
            Value::Nil => Value::Nil,
            Value::Closure { params, body, env } => Value::Closure {
                params: duplicate_strings(params),
                body: Box::new((**body).duplicate()),
                env: Box::new((**env).duplicate()),
            },
            Value::NativeProcedure(id) => Value::NativeProcedure(*id),
        }
    }

    /// Structural equality of data, as the REPL and `Quote`d round-trips use
    /// it: content for numbers, strings, symbols, `Nil` and lists; identity
    /// for native procedures; never for closures.
    pub fn datum_eq(&self, other: &Value) -> (r: bool)
        ensures
            r == val_eq(self.to_view(), other.to_view()),
        decreases *self,
    {
        match (self, other) {
            (Value::Number(x), Value::Number(y)) => x.numer == y.numer && x.denom == y.denom,
            (Value::Str(x), Value::Str(y)) => *x == *y,
            (Value::Symbol(x), Value::Symbol(y)) => *x == *y,
            (Value::Nil, Value::Nil) => true,
            (Value::List(xs), Value::List(ys)) => {
                proof {
                    lemma_view_vals(xs@);
                    lemma_view_vals(ys@);
                }
                if xs.len() != ys.len() {
                    return false;
                }
                let mut i: usize = 0;
                while i < xs.len()
                    invariant
                        *self == Value::List(*xs),
                        *other == Value::List(*ys),
                        i <= xs.len(),
                        xs@.len() == ys@.len(),
                        forall|j: int| 0 <= j < i ==> val_eq(
                            #[trigger] xs@[j].to_view(),
                            ys@[j].to_view(),
                        ),
                    decreases xs.len() - i,
                {
                    proof {
                        assert(decreases_to!(*self => self->List_0));
                        assert(self->List_0 == *xs);
                        assert(decreases_to!(*xs => xs@));
                        assert(decreases_to!(xs@ => xs@[i as int]));
                    }
                    if !xs[i].datum_eq(&ys[i]) {
                        proof {
                            lemma_view_vals(xs@);
                            lemma_view_vals(ys@);
                            assert(!val_eq(view_vals(xs@)[i as int], view_vals(ys@)[i as int]));
                        }
                        return false;
                    }
                    i = i + 1;
                }
                proof {
                    lemma_view_vals(xs@);
                    lemma_view_vals(ys@);
                    assert(forall|j: int| 0 <= j < xs@.len() ==> val_eq(
                        #[trigger] view_vals(xs@)[j],
                        view_vals(ys@)[j],
                    ));
                }
                true
            }
            (Value::NativeProcedure(x), Value::NativeProcedure(y)) => {
                match (x, y) {
                    (NativeId::Add, NativeId::Add) => true,
                    (NativeId::Sub, NativeId::Sub) => true,
                    (NativeId::Mul, NativeId::Mul) => true,
                    (NativeId::Div, NativeId::Div) => true,
                    (NativeId::Mod, NativeId::Mod) => true,
                    _ => false,
                }
            }
            _ => {
                proof {
                    lemma_view_same_variant(self);
                    lemma_view_same_variant(other);
                    assert(!val_eq(self.to_view(), other.to_view()));
                }
                false
            }
        }
    }

    /// The kind of this value.
    pub fn type_tag(&self) -> (r: TypeTag)
        ensures
            r == self.to_view().tag(),
    {
        match self {
            Value::Number(_) => TypeTag::Number,
            Value::Str(_) => TypeTag::Str,
            Value::Symbol(_) => TypeTag::Symbol,
            Value::List(_) => TypeTag::List,
            Value::Nil => TypeTag::Nil,
            Value::Closure { .. } => TypeTag::Closure,
            Value::NativeProcedure(_) => TypeTag::NativeProcedure,
        }
    }
}

} // verus!
