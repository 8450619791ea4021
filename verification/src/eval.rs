use crate::ast::{Expr, ExprV, Item, Lit, LitV, Meta};
use crate::ast::{lemma_view_exprs, view_exprs};
use crate::default_env::{apply_native, sem_native};
use crate::env::{
    child_env, empty_envv, lemma_view_frame, sem_lookup, sem_lookup_scoped, view_frame, Env, EnvV,
};
use crate::error::{Error, ErrorV, TypeTag};
use crate::value::{lemma_view_vals, view_strings, view_vals, ValV, Value};
use vstd::prelude::*;

verus! {

broadcast use vstd::std_specs::vec::group_vec_axioms;

/// The model of an evaluation outcome.
pub open spec fn res_view(r: Result<Value, Error>) -> Result<ValV, ErrorV> {
    match r {
        Result::Ok(v) => Result::Ok(v.to_view()),
        Result::Err(e) => Result::Err(e.to_view()),
    }
}

/// The model of an argument-list evaluation outcome.
pub open spec fn res_vals_view(r: Result<Vec<Value>, Error>) -> Result<Seq<ValV>, ErrorV> {
    match r {
        Result::Ok(vs) => Result::Ok(view_vals(vs@)),
        Result::Err(e) => Result::Err(e.to_view()),
    }
}

/// The frame of a closure call: each parameter name bound positionally to
/// the corresponding evaluated argument, falling back to the captured scope.
pub open spec fn call_env(env: EnvV, params: Seq<Seq<char>>, argvs: Seq<ValV>) -> EnvV {
    EnvV {
        frame: Seq::new(params.len(), |i: int| (params[i], argvs[i])),
        parent: Option::Some(Box::new(env)),
    }
}

/// A coarse kind for an unevaluated expression, used when a type error must
/// name what stood in a place that wanted a symbol.
pub open spec fn exprv_tag(e: ExprV) -> TypeTag {
    match e {
        ExprV::Symbol { .. } => TypeTag::Symbol,
        ExprV::Lit { value: LitV::Number(_), .. } => TypeTag::Number,
        ExprV::Lit { value: LitV::Str(_), .. } => TypeTag::Str,
        ExprV::Nil(_) => TypeTag::Nil,
        ExprV::Lambda { .. } => TypeTag::Closure,
        _ => TypeTag::List,
    }
}

/// The names of a lambda's parameters; a non-symbol in parameter position is
/// a `TypeMismatch` at that parameter.
pub open spec fn sem_param_names(params: Seq<ExprV>) -> Result<Seq<Seq<char>>, ErrorV>
    decreases params.len(),
{
    if params.len() == 0 {
        Result::Ok(Seq::empty())
    } else {
        match params[0] {
            ExprV::Symbol { name, .. } => match sem_param_names(params.drop_first()) {
                Result::Ok(rest) => Result::Ok(seq![name] + rest),
                Result::Err(e) => Result::Err(e),
            },
            p => Result::Err(
                ErrorV::TypeMismatch {
                    expected: TypeTag::Symbol,
                    got: exprv_tag(p),
                    position: p.meta_of(),
                },
            ),
        }
    }
}

/// One step of the evaluator, on models. The fuel bounds the number of
/// evaluation steps: every recursive step burns one unit, and exhausting
/// the budget is a `StackOverflow`.
pub open spec fn sem_eval(genv: EnvV, e: ExprV, env: EnvV, fuel: nat) -> Result<ValV, ErrorV>
    decreases fuel,
{
    if fuel == 0 {
        Result::Err(ErrorV::StackOverflow)
    } else {
        match e {
            ExprV::Symbol { name, .. } => match sem_lookup_scoped(genv, env, name) {
                Option::Some(v) => Result::Ok(v),
                Option::None => Result::Err(ErrorV::UnboundSymbol { name }),
            },
            ExprV::Lit { value: LitV::Number(r), .. } => Result::Ok(ValV::Number(r)),
            ExprV::Lit { value: LitV::Str(s), .. } => Result::Ok(ValV::Str(s)),
            ExprV::Nil(_) => Result::Ok(ValV::Nil),
            ExprV::List { values, .. } => match sem_eval_seq(genv, values, env, (fuel - 1) as nat) {
                Result::Ok(vs) => Result::Ok(ValV::List(vs)),
                Result::Err(er) => Result::Err(er),
            },
            ExprV::If { cond, then_, else_, .. } => match sem_eval(genv, 
                *cond,
                env,
                (fuel - 1) as nat,
            ) {
                Result::Ok(c) => if c is Nil {
                    sem_eval(genv, *else_, env, (fuel - 1) as nat)
                } else {
                    sem_eval(genv, *then_, env, (fuel - 1) as nat)
                },
                Result::Err(er) => Result::Err(er),
            },
            ExprV::Let { name, value, body, .. } => match sem_eval(genv, 
                *value,
                env,
                (fuel - 1) as nat,
            ) {
                Result::Ok(v) => sem_eval(genv, *body, child_env(env, name, v), (fuel - 1) as nat),
                Result::Err(er) => Result::Err(er),
            },
            ExprV::Lambda { params, body, .. } => match sem_param_names(params) {
                Result::Ok(names) => Result::Ok(
                    ValV::Closure { params: names, body, env: Box::new(env) },
                ),
                Result::Err(er) => Result::Err(er),
            },
            ExprV::Apply { fun, args, meta } => match sem_eval(genv, *fun, env, (fuel - 1) as nat) {
                Result::Ok(f) => match sem_eval_seq(genv, args, env, (fuel - 1) as nat) {
                    Result::Ok(vs) => sem_apply(genv, f, vs, meta, (fuel - 1) as nat),
                    Result::Err(er) => Result::Err(er),
                },
                Result::Err(er) => Result::Err(er),
            },
            ExprV::Quote { value, .. } => sem_quote(genv, *value, env, (fuel - 1) as nat),
            ExprV::Unquote { .. } => Result::Err(ErrorV::UnquoteOutsideQuote),
            ExprV::UnquoteSplice { .. } => Result::Err(ErrorV::UnquoteOutsideQuote),
        }
    }
}

/// Left-to-right evaluation of a sequence; the first error wins.
pub open spec fn sem_eval_seq(genv: EnvV, es: Seq<ExprV>, env: EnvV, fuel: nat) -> Result<Seq<ValV>, ErrorV>
    decreases fuel,
{
    if fuel == 0 {
        Result::Err(ErrorV::StackOverflow)
    } else if es.len() == 0 {
        Result::Ok(Seq::empty())
    } else {
        match sem_eval(genv, es[0], env, (fuel - 1) as nat) {
            Result::Ok(v) => match sem_eval_seq(genv, es.drop_first(), env, (fuel - 1) as nat) {
                Result::Ok(vs) => Result::Ok(seq![v] + vs),
                Result::Err(er) => Result::Err(er),
            },
            Result::Err(er) => Result::Err(er),
        }
    }
}

/// Application: a native dispatches on its identity; a closure binds its
/// parameters positionally in a child of its captured environment and
/// evaluates its body there; anything else is `NotCallable`.
pub open spec fn sem_apply(genv: EnvV, f: ValV, argvs: Seq<ValV>, pos: Meta, fuel: nat) -> Result<
    ValV,
    ErrorV,
>
    decreases fuel,
{
    if fuel == 0 {
        Result::Err(ErrorV::StackOverflow)
    } else {
        match f {
            ValV::NativeProcedure(id) => sem_native(id, argvs, pos),
            ValV::Closure { params, body, env } => if params.len() != argvs.len() {
                Result::Err(
                    ErrorV::ArityMismatch {
                        expected: params.len() as int,
                        got: argvs.len() as int,
                    },
                )
            } else {
                sem_eval(genv, *body, call_env(*env, params, argvs), (fuel - 1) as nat)
            },
            other => Result::Err(ErrorV::NotCallable { value: other }),
        }
    }
}

/// The quoted form of one node: symbols, literals, `Nil` and lists become
/// the corresponding data; `Unquote` re-enables evaluation; a splice is only
/// legal as a list element. A binding or control form becomes the list that
/// would read back as it, under its surface keyword.
pub open spec fn sem_quote(genv: EnvV, e: ExprV, env: EnvV, fuel: nat) -> Result<ValV, ErrorV>
    decreases fuel,
{
    if fuel == 0 {
        Result::Err(ErrorV::StackOverflow)
    } else {
        match e {
            ExprV::Symbol { name, .. } => Result::Ok(ValV::Symbol(name)),
            ExprV::Lit { value: LitV::Number(r), .. } => Result::Ok(ValV::Number(r)),
            ExprV::Lit { value: LitV::Str(s), .. } => Result::Ok(ValV::Str(s)),
            ExprV::Nil(_) => Result::Ok(ValV::Nil),
            ExprV::List { values, .. } => match sem_quote_items(genv, values, env, (fuel - 1) as nat) {
                Result::Ok(items) => Result::Ok(ValV::List(items)),
                Result::Err(er) => Result::Err(er),
            },
            ExprV::Unquote { value, .. } => sem_eval(genv, *value, env, (fuel - 1) as nat),
            ExprV::UnquoteSplice { .. } => Result::Err(ErrorV::SpliceNonList),
            ExprV::Lambda { params, body, .. } => match sem_quote_items(genv, 
                params,
                env,
                (fuel - 1) as nat,
            ) {
                Result::Ok(ps) => match sem_quote(genv, *body, env, (fuel - 1) as nat) {
                    Result::Ok(b) => Result::Ok(
                        ValV::List(seq![ValV::Symbol("fn"@), ValV::List(ps), b]),
                    ),
                    Result::Err(er) => Result::Err(er),
                },
                Result::Err(er) => Result::Err(er),
            },
            ExprV::Apply { fun, args, .. } => match sem_quote(genv, *fun, env, (fuel - 1) as nat) {
                Result::Ok(fv) => match sem_quote_items(genv, args, env, (fuel - 1) as nat) {
                    Result::Ok(avs) => Result::Ok(ValV::List(seq![fv] + avs)),
                    Result::Err(er) => Result::Err(er),
                },
                Result::Err(er) => Result::Err(er),
            },
            ExprV::Let { name, value, body, .. } => match sem_quote(genv, *value, env, (fuel - 1) as nat) {
                Result::Ok(v) => match sem_quote(genv, *body, env, (fuel - 1) as nat) {
                    Result::Ok(b) => Result::Ok(
                        ValV::List(seq![ValV::Symbol("let"@), ValV::Symbol(name), v, b]),
                    ),
                    Result::Err(er) => Result::Err(er),
                },
                Result::Err(er) => Result::Err(er),
            },
            ExprV::Quote { value, .. } => match sem_quote(genv, *value, env, (fuel - 1) as nat) {
                Result::Ok(v) => Result::Ok(ValV::List(seq![ValV::Symbol("quote"@), v])),
                Result::Err(er) => Result::Err(er),
            },
            ExprV::If { cond, then_, else_, .. } => match sem_quote(genv, *cond, env, (fuel - 1) as nat) {
                Result::Ok(c) => match sem_quote(genv, *then_, env, (fuel - 1) as nat) {
                    Result::Ok(t) => match sem_quote(genv, *else_, env, (fuel - 1) as nat) {
                        Result::Ok(el) => Result::Ok(
                            ValV::List(seq![ValV::Symbol("if"@), c, t, el]),
                        ),
                        Result::Err(er) => Result::Err(er),
                    },
                    Result::Err(er) => Result::Err(er),
                },
                Result::Err(er) => Result::Err(er),
            },
        }
    }
}

/// The elements of a quoted list, in order; an `UnquoteSplice` element is
/// evaluated and must yield a list, which is spliced element-wise.
pub open spec fn sem_quote_items(genv: EnvV, es: Seq<ExprV>, env: EnvV, fuel: nat) -> Result<
    Seq<ValV>,
    ErrorV,
>
    decreases fuel,
{
    if fuel == 0 {
        Result::Err(ErrorV::StackOverflow)
    } else if es.len() == 0 {
        Result::Ok(Seq::empty())
    } else {
        match es[0] {
            ExprV::UnquoteSplice { value, .. } => match sem_eval(genv, *value, env, (fuel - 1) as nat) {
                Result::Ok(ValV::List(items)) => match sem_quote_items(genv, 
                    es.drop_first(),
                    env,
                    (fuel - 1) as nat,
                ) {
                    Result::Ok(rest) => Result::Ok(items + rest),
                    Result::Err(er) => Result::Err(er),
                },
                Result::Ok(_) => Result::Err(ErrorV::SpliceNonList),
                Result::Err(er) => Result::Err(er),
            },
            _ => match sem_quote(genv, es[0], env, (fuel - 1) as nat) {
                Result::Ok(v) => match sem_quote_items(genv, es.drop_first(), env, (fuel - 1) as nat) {
                    Result::Ok(rest) => Result::Ok(seq![v] + rest),
                    Result::Err(er) => Result::Err(er),
                },
                Result::Err(er) => Result::Err(er),
            },
        }
    }
}

/// The coarse kind of an unevaluated expression.
fn expr_tag(e: &Expr) -> (r: TypeTag)
    ensures
        r == exprv_tag(e.to_view()),
{
    match e {
        Expr::Symbol { .. } => TypeTag::Symbol,
        Expr::Lit { value: Lit::Number(_), .. } => TypeTag::Number,
        Expr::Lit { value: Lit::Str(_), .. } => TypeTag::Str,
        Expr::Nil(_) => TypeTag::Nil,
        Expr::Lambda { .. } => TypeTag::Closure,
        _ => TypeTag::List,
    }
}

/// Collects the parameter names from index `i` on.
fn param_names_from(params: &Vec<Expr>, i: usize) -> (r: Result<Vec<String>, Error>)
    requires
        i <= params@.len(),
    ensures
        match r {
            Result::Ok(ns) => sem_param_names(view_exprs(params@).skip(i as int)) == Result::<
                Seq<Seq<char>>,
                ErrorV,
            >::Ok(view_strings(ns@)),
            Result::Err(e) => sem_param_names(view_exprs(params@).skip(i as int)) == Result::<
                Seq<Seq<char>>,
                ErrorV,
            >::Err(e@),
        },
    decreases params@.len() - i,
{
    let ghost pv = view_exprs(params@);
    proof {
        lemma_view_exprs(params@);
    }
    if i >= params.len() {
        proof {
            assert(pv.skip(i as int) =~= Seq::<ExprV>::empty());
            assert(view_strings(Seq::<String>::empty()) =~= Seq::<Seq<char>>::empty());
        }
        return Result::Ok(Vec::new());
    }
    proof {
        assert(pv.skip(i as int)[0] == pv[i as int]);
        assert(pv.skip(i as int).drop_first() =~= pv.skip(i as int + 1));
    }
    match &params[i] {
        Expr::Symbol { name, .. } => {
            match param_names_from(params, i + 1) {
                Result::Ok(rest) => {
                    let ghost rest_snap = rest@;
                    let mut out = rest;
                    let c = name.clone();
                    out.insert(0, c);
                    proof {
                        assert(out@.drop_first() =~= rest_snap);
                        assert(out@[0]@ == name@);
                        assert(view_strings(out@) =~= seq![name@] + view_strings(rest_snap));
                    }
                    Result::Ok(out)
                }
                Result::Err(e) => Result::Err(e),
            }
        }
        other => Result::Err(
            Error::TypeMismatch {
                expected: TypeTag::Symbol,
                got: expr_tag(other),
                position: *other.meta(),
            },
        ),
    }
}

/// The step budget used by `eval`. Every recursive step of the evaluator
/// burns one unit, so the budget also bounds the host-stack depth: it is
/// kept small enough that runaway recursion reports `StackOverflow` long
/// before the host stack is in danger. A driver that wants a larger budget
/// (and has the stack for it) calls `eval_with_fuel` directly.
pub const DEFAULT_STEP_LIMIT: u64 = 1_000;

/// Evaluates `expr` under an explicit step budget: `genv` is the global
/// environment that top-level definitions mutate, `env` the lexical chain of
/// the current scope. Symbols are looked up in the lexical chain first and
/// then in the globals; closures capture the lexical chain only, so they see
/// the globals as they stand when they are called.
pub fn eval_scoped(genv: &Env, expr: &Expr, env: &Env, fuel: u64) -> (r: Result<Value, Error>)
    ensures
        res_view(r) == sem_eval(genv.to_view(), expr.to_view(), env.to_view(), fuel as nat),
    decreases fuel,
{
    if fuel == 0 {
        return Result::Err(Error::StackOverflow);
    }
    match expr {
        Expr::Symbol { name, .. } => {
            match env.lookup(name) {
                Result::Ok(v) => Result::Ok(v),
                Result::Err(_) => genv.lookup(name),
            }
        }
        Expr::Lit { value: Lit::Number(n), .. } => Result::Ok(Value::Number(*n)),
        Expr::Lit { value: Lit::Str(s), .. } => Result::Ok(Value::Str(s.clone())),
        Expr::Nil(_) => Result::Ok(Value::Nil),
        Expr::List { values, .. } => {
            proof {
                assert(view_exprs(values@).skip(0) =~= view_exprs(values@));
            }
            match eval_seq_from(genv, values, 0, env, fuel - 1) {
                Result::Ok(vs) => {
                    proof {
                        lemma_view_vals(vs@);
                    }
                    Result::Ok(Value::List(vs))
                }
                Result::Err(e) => Result::Err(e),
            }
        }
        Expr::If { cond, then_, else_, .. } => {
            match eval_scoped(genv, &*cond, env, fuel - 1) {
                Result::Ok(c) => {
                    match c {
                        Value::Nil => eval_scoped(genv, &*else_, env, fuel - 1),
                        _ => eval_scoped(genv, &*then_, env, fuel - 1),
                    }
                }
                Result::Err(e) => Result::Err(e),
            }
        }
        Expr::Let { name, value, body, .. } => {
            match eval_scoped(genv, &*value, env, fuel - 1) {
                Result::Ok(v) => {
                    let ghost vv = v.to_view();
                    let mut cenv = Env::new_child(env);
                    cenv.define(name.clone(), v);
                    proof {
                        assert(cenv.to_view().frame =~= seq![(name@, vv)]);
                        assert(cenv.to_view() == child_env(env.to_view(), name@, vv));
                    }
                    eval_scoped(genv, &*body, &cenv, fuel - 1)
                }
                Result::Err(e) => Result::Err(e),
            }
        }
        Expr::Lambda { params, body, .. } => {
            proof {
                assert(view_exprs(params@).skip(0) =~= view_exprs(params@));
            }
            match param_names_from(params, 0) {
                Result::Ok(names) => Result::Ok(
                    Value::Closure {
                        params: names,
                        body: Box::new((**body).duplicate()),
                        env: Box::new(env.duplicate()),
                    },
                ),
                Result::Err(e) => Result::Err(e),
            }
        }
        Expr::Apply { fun, args, meta } => {
            match eval_scoped(genv, &*fun, env, fuel - 1) {
                Result::Ok(f) => {
                    proof {
                        assert(view_exprs(args@).skip(0) =~= view_exprs(args@));
                    }
                    match eval_seq_from(genv, args, 0, env, fuel - 1) {
                        Result::Ok(vs) => apply_value(genv, f, vs, *meta, fuel - 1),
                        Result::Err(e) => Result::Err(e),
                    }
                }
                Result::Err(e) => Result::Err(e),
            }
        }
        Expr::Quote { value, .. } => eval_quote(genv, &*value, env, fuel - 1),
        Expr::Unquote { .. } => Result::Err(Error::UnquoteOutsideQuote),
        Expr::UnquoteSplice { .. } => Result::Err(Error::UnquoteOutsideQuote),
    }
}

/// Evaluates the expressions from index `i` on, left to right; the first
/// error wins.
fn eval_seq_from(genv: &Env, es: &Vec<Expr>, i: usize, env: &Env, fuel: u64) -> (r: Result<Vec<Value>, Error>)
    requires
        i <= es@.len(),
    ensures
        res_vals_view(r) == sem_eval_seq(
            genv.to_view(),
            view_exprs(es@).skip(i as int),
            env.to_view(),
            fuel as nat,
        ),
    decreases fuel,
{
    let ghost pv = view_exprs(es@);
    proof {
        lemma_view_exprs(es@);
    }
    if fuel == 0 {
        return Result::Err(Error::StackOverflow);
    }
    if i >= es.len() {
        proof {
            assert(pv.skip(i as int) =~= Seq::<ExprV>::empty());
            assert(view_vals(Seq::<Value>::empty()) =~= Seq::<ValV>::empty());
        }
        return Result::Ok(Vec::new());
    }
    proof {
        assert(pv.skip(i as int)[0] == pv[i as int]);
        assert(pv.skip(i as int).drop_first() =~= pv.skip(i as int + 1));
    }
    match eval_scoped(genv, &es[i], env, fuel - 1) {
        Result::Ok(v) => {
            match eval_seq_from(genv, es, i + 1, env, fuel - 1) {
                Result::Ok(rest) => {
                    let ghost vv = v.to_view();
                    let ghost rest_snap = rest@;
                    let mut out = rest;
                    out.insert(0, v);
                    proof {
                        assert(out@.drop_first() =~= rest_snap);
                        assert(out@[0].to_view() == vv);
                        lemma_view_vals(out@);
                        lemma_view_vals(rest_snap);
                        assert(view_vals(out@) =~= seq![vv] + view_vals(rest_snap));
                    }
                    Result::Ok(out)
                }
                Result::Err(e) => Result::Err(e),
            }
        }
        Result::Err(e) => Result::Err(e),
    }
}

/// Applies an evaluated callable to evaluated arguments.
fn apply_value(genv: &Env, f: Value, args: Vec<Value>, pos: Meta, fuel: u64) -> (r: Result<Value, Error>)
    ensures
        res_view(r) == sem_apply(genv.to_view(), f.to_view(), view_vals(args@), pos, fuel as nat),
    decreases fuel,
{
    if fuel == 0 {
        return Result::Err(Error::StackOverflow);
    }
    proof {
        lemma_view_vals(args@);
    }
    match f {
        Value::NativeProcedure(id) => apply_native(id, &args, pos),
        Value::Closure { params, body, env } => {
            if params.len() != args.len() {
                return Result::Err(
                    Error::ArityMismatch { expected: params.len(), got: args.len() },
                );
            }
            let mut frame: Vec<(String, Value)> = Vec::new();
            let mut i: usize = 0;
            while i < params.len()
                invariant
                    i <= params.len(),
                    params@.len() == args@.len(),
                    frame@.len() == i as int,
                    forall|j: int| 0 <= j < i ==> frame@[j].0 == params@[j]
                        && frame@[j].1.to_view() == args@[j].to_view(),
                decreases params.len() - i,
            {
                let n = params[i].clone();
                let v = args[i].duplicate();
                proof {
                    assert(n == params@[i as int]);
                    assert(v.to_view() == args@[i as int].to_view());
                }
                frame.push((n, v));
                proof {
                    assert(frame@.last() == (n, v));
                }
                i = i + 1;
            }
            let cenv = Env { frame, parent: Option::Some(env) };
            proof {
                lemma_view_frame(cenv.frame@);
                lemma_view_vals(args@);
                assert(view_frame(cenv.frame@) =~= Seq::new(
                    view_strings(params@).len(),
                    |k: int| (view_strings(params@)[k], view_vals(args@)[k]),
                ));
                assert(cenv.to_view() == call_env(
                    *f.to_view()->Closure_env,
                    view_strings(params@),
                    view_vals(args@),
                )) by {
                    assert(cenv.to_view().frame == call_env(
                        *f.to_view()->Closure_env,
                        view_strings(params@),
                        view_vals(args@),
                    ).frame);
                }
            }
            eval_scoped(genv, &*body, &cenv, fuel - 1)
        }
        other => Result::Err(Error::NotCallable { value: other }),
    }
}

/// The quoted form of one node.
fn eval_quote(genv: &Env, e: &Expr, env: &Env, fuel: u64) -> (r: Result<Value, Error>)
    ensures
        res_view(r) == sem_quote(genv.to_view(), e.to_view(), env.to_view(), fuel as nat),
    decreases fuel,
{
    if fuel == 0 {
        return Result::Err(Error::StackOverflow);
    }
    match e {
        Expr::Symbol { name, .. } => Result::Ok(Value::Symbol(name.clone())),
        Expr::Lit { value: Lit::Number(n), .. } => Result::Ok(Value::Number(*n)),
        Expr::Lit { value: Lit::Str(s), .. } => Result::Ok(Value::Str(s.clone())),
        Expr::Nil(_) => Result::Ok(Value::Nil),
        Expr::List { values, .. } => {
            proof {
                assert(view_exprs(values@).skip(0) =~= view_exprs(values@));
            }
            match eval_quote_items(genv, values, 0, env, fuel - 1) {
                Result::Ok(items) => Result::Ok(Value::List(items)),
                Result::Err(er) => Result::Err(er),
            }
        }
        Expr::Unquote { value, .. } => eval_scoped(genv, &*value, env, fuel - 1),
        Expr::UnquoteSplice { .. } => Result::Err(Error::SpliceNonList),
        Expr::Lambda { params, body, .. } => {
            proof {
                assert(view_exprs(params@).skip(0) =~= view_exprs(params@));
            }
            match eval_quote_items(genv, params, 0, env, fuel - 1) {
                Result::Ok(ps) => {
                    match eval_quote(genv, &*body, env, fuel - 1) {
                        Result::Ok(b) => {
                            let ghost psv = view_vals(ps@);
                            let ghost bv = b.to_view();
                            let mut out: Vec<Value> = Vec::new();
                            out.push(Value::Symbol("fn".to_owned()));
                            out.push(Value::List(ps));
                            out.push(b);
                            proof {
                                lemma_view_vals(out@);
                                assert(view_vals(out@) =~= seq![
                                    ValV::Symbol("fn"@),
                                    ValV::List(psv),
                                    bv,
                                ]);
                            }
                            Result::Ok(Value::List(out))
                        }
                        Result::Err(er) => Result::Err(er),
                    }
                }
                Result::Err(er) => Result::Err(er),
            }
        }
        Expr::Apply { fun, args, .. } => {
            match eval_quote(genv, &*fun, env, fuel - 1) {
                Result::Ok(fv) => {
                    proof {
                        assert(view_exprs(args@).skip(0) =~= view_exprs(args@));
                    }
                    match eval_quote_items(genv, args, 0, env, fuel - 1) {
                        Result::Ok(avs) => {
                            let ghost fvv = fv.to_view();
                            let ghost avs_snap = avs@;
                            let mut out = avs;
                            out.insert(0, fv);
                            proof {
                                assert(out@.drop_first() =~= avs_snap);
                                assert(out@[0].to_view() == fvv);
                                lemma_view_vals(out@);
                                lemma_view_vals(avs_snap);
                                assert(view_vals(out@) =~= seq![fvv] + view_vals(avs_snap));
                            }
                            Result::Ok(Value::List(out))
                        }
                        Result::Err(er) => Result::Err(er),
                    }
                }
                Result::Err(er) => Result::Err(er),
            }
        }
        Expr::Let { name, value, body, .. } => {
            match eval_quote(genv, &*value, env, fuel - 1) {
                Result::Ok(v) => {
                    match eval_quote(genv, &*body, env, fuel - 1) {
                        Result::Ok(b) => {
                            let ghost vv = v.to_view();
                            let ghost bv = b.to_view();
                            let mut out: Vec<Value> = Vec::new();
                            out.push(Value::Symbol("let".to_owned()));
                            out.push(Value::Symbol(name.clone()));
                            out.push(v);
                            out.push(b);
                            proof {
                                lemma_view_vals(out@);
                                assert(view_vals(out@) =~= seq![
                                    ValV::Symbol("let"@),
                                    ValV::Symbol(name@),
                                    vv,
                                    bv,
                                ]);
                            }
                            Result::Ok(Value::List(out))
                        }
                        Result::Err(er) => Result::Err(er),
                    }
                }
                Result::Err(er) => Result::Err(er),
            }
        }
        Expr::Quote { value, .. } => {
            match eval_quote(genv, &*value, env, fuel - 1) {
                Result::Ok(v) => {
                    let ghost vv = v.to_view();
                    let mut out: Vec<Value> = Vec::new();
                    out.push(Value::Symbol("quote".to_owned()));
                    out.push(v);
                    proof {
                        lemma_view_vals(out@);
                        assert(view_vals(out@) =~= seq![ValV::Symbol("quote"@), vv]);
                    }
                    Result::Ok(Value::List(out))
                }
                Result::Err(er) => Result::Err(er),
            }
        }
        Expr::If { cond, then_, else_, .. } => {
            match eval_quote(genv, &*cond, env, fuel - 1) {
                Result::Ok(c) => {
                    match eval_quote(genv, &*then_, env, fuel - 1) {
                        Result::Ok(t) => {
                            match eval_quote(genv, &*else_, env, fuel - 1) {
                                Result::Ok(el) => {
                                    let ghost cv = c.to_view();
                                    let ghost tv = t.to_view();
                                    let ghost ev = el.to_view();
                                    let mut out: Vec<Value> = Vec::new();
                                    out.push(Value::Symbol("if".to_owned()));
                                    out.push(c);
                                    out.push(t);
                                    out.push(el);
                                    proof {
                                        lemma_view_vals(out@);
                                        assert(view_vals(out@) =~= seq![
                                            ValV::Symbol("if"@),
                                            cv,
                                            tv,
                                            ev,
                                        ]);
                                    }
                                    Result::Ok(Value::List(out))
                                }
                                Result::Err(er) => Result::Err(er),
                            }
                        }
                        Result::Err(er) => Result::Err(er),
                    }
                }
                Result::Err(er) => Result::Err(er),
            }
        }
    }
}

/// The elements of a quoted list from index `i` on, splicing as it goes.
fn eval_quote_items(genv: &Env, es: &Vec<Expr>, i: usize, env: &Env, fuel: u64) -> (r: Result<
    Vec<Value>,
    Error,
>)
    requires
        i <= es@.len(),
    ensures
        res_vals_view(r) == sem_quote_items(
            genv.to_view(),
            view_exprs(es@).skip(i as int),
            env.to_view(),
            fuel as nat,
        ),
    decreases fuel,
{
    let ghost pv = view_exprs(es@);
    proof {
        lemma_view_exprs(es@);
    }
    if fuel == 0 {
        return Result::Err(Error::StackOverflow);
    }
    if i >= es.len() {
        proof {
            assert(pv.skip(i as int) =~= Seq::<ExprV>::empty());
            assert(view_vals(Seq::<Value>::empty()) =~= Seq::<ValV>::empty());
        }
        return Result::Ok(Vec::new());
    }
    proof {
        assert(pv.skip(i as int)[0] == pv[i as int]);
        assert(pv.skip(i as int).drop_first() =~= pv.skip(i as int + 1));
    }
    match &es[i] {
        Expr::UnquoteSplice { value, .. } => {
            match eval_scoped(genv, &*value, env, fuel - 1) {
                Result::Ok(v) => {
                    match v {
                        Value::List(items) => {
                            match eval_quote_items(genv, es, i + 1, env, fuel - 1) {
                                Result::Ok(rest) => {
                                    let ghost items_snap = items@;
                                    let ghost rest_snap = rest@;
                                    let mut out = items;
                                    let mut r2 = rest;
                                    out.append(&mut r2);
                                    proof {
                                        lemma_view_vals(out@);
                                        lemma_view_vals(items_snap);
                                        lemma_view_vals(rest_snap);
                                        assert(view_vals(out@) =~= view_vals(items_snap)
                                            + view_vals(rest_snap));
                                    }
                                    Result::Ok(out)
                                }
                                Result::Err(er) => Result::Err(er),
                            }
                        }
                        _ => Result::Err(Error::SpliceNonList),
                    }
                }
                Result::Err(er) => Result::Err(er),
            }
        }
        _ => {
            match eval_quote(genv, &es[i], env, fuel - 1) {
                Result::Ok(v) => {
                    match eval_quote_items(genv, es, i + 1, env, fuel - 1) {
                        Result::Ok(rest) => {
                            let ghost vv = v.to_view();
                            let ghost rest_snap = rest@;
                            let mut out = rest;
                            out.insert(0, v);
                            proof {
                                assert(out@.drop_first() =~= rest_snap);
                                assert(out@[0].to_view() == vv);
                                lemma_view_vals(out@);
                                lemma_view_vals(rest_snap);
                                assert(view_vals(out@) =~= seq![vv] + view_vals(rest_snap));
                            }
                            Result::Ok(out)
                        }
                        Result::Err(er) => Result::Err(er),
                    }
                }
                Result::Err(er) => Result::Err(er),
            }
        }
    }
}

/// Evaluates one top-level expression against the global environment `env`,
/// with an empty lexical chain, under the default step budget.
pub fn eval(expr: &Expr, env: &Env) -> (r: Result<Value, Error>)
    ensures
        res_view(r) == sem_eval(
            env.to_view(),
            expr.to_view(),
            empty_envv(),
            DEFAULT_STEP_LIMIT as nat,
        ),
{
    eval_with_fuel(expr, env, DEFAULT_STEP_LIMIT)
}

/// As `eval`, under a caller-chosen step budget.
pub fn eval_with_fuel(expr: &Expr, env: &Env, fuel: u64) -> (r: Result<Value, Error>)
    ensures
        res_view(r) == sem_eval(env.to_view(), expr.to_view(), empty_envv(), fuel as nat),
{
    let locals = Env::new();
    eval_scoped(env, expr, &locals, fuel)
}

/// Drives one top-level form under the default step budget. See
/// `eval_item_with_fuel` for the contract.
pub fn eval_item(item: &Item, env: &mut Env) -> (r: Result<Value, Error>)
    ensures
        match item {
            Item::Expr(e) => res_view(r) == sem_eval(
                old(env).to_view(),
                e.to_view(),
                empty_envv(),
                DEFAULT_STEP_LIMIT as nat,
            ) && final(env).to_view() == old(env).to_view(),
            Item::Def(d) => match sem_eval(
                old(env).to_view(),
                d.value.to_view(),
                empty_envv(),
                DEFAULT_STEP_LIMIT as nat,
            ) {
                Result::Ok(v) => res_view(r) == Result::<ValV, ErrorV>::Ok(v)
                    && final(env).to_view() == (EnvV {
                    frame: old(env).to_view().frame.push((d.name@, v)),
                    parent: old(env).to_view().parent,
                }),
                Result::Err(er) => res_view(r) == Result::<ValV, ErrorV>::Err(er)
                    && final(env).to_view() == old(env).to_view(),
            },
        },
{
    eval_item_with_fuel(item, env, DEFAULT_STEP_LIMIT)
}

/// Drives one top-level form under a caller-chosen step budget. An
/// expression leaves the global environment `env` unchanged; a `Def`
/// evaluates its value against `env` and then binds the name in `env`'s own
/// frame permanently, handing the bound value back. This is the only way new
/// root-level bindings are introduced after startup, and such a binding is
/// visible to every later evaluation — including calls of closures that were
/// created before it, since closures capture only their lexical chain and
/// consult the globals when they run. That is what lets a `Def`ed function
/// call itself.
pub fn eval_item_with_fuel(item: &Item, env: &mut Env, fuel: u64) -> (r: Result<Value, Error>)
    ensures
        match item {
            Item::Expr(e) => res_view(r) == sem_eval(
                old(env).to_view(),
                e.to_view(),
                empty_envv(),
                fuel as nat,
            ) && final(env).to_view() == old(env).to_view(),
            Item::Def(d) => match sem_eval(
                old(env).to_view(),
                d.value.to_view(),
                empty_envv(),
                fuel as nat,
            ) {
                Result::Ok(v) => res_view(r) == Result::<ValV, ErrorV>::Ok(v)
                    && final(env).to_view() == (EnvV {
                    frame: old(env).to_view().frame.push((d.name@, v)),
                    parent: old(env).to_view().parent,
                }),
                Result::Err(er) => res_view(r) == Result::<ValV, ErrorV>::Err(er)
                    && final(env).to_view() == old(env).to_view(),
            },
        },
{
    match item {
        Item::Expr(e) => eval_with_fuel(e, env, fuel),
        Item::Def(d) => {
            match eval_with_fuel(&d.value, env, fuel) {
                Result::Ok(v) => {
                    let nm = d.name.clone();
                    let dup = v.duplicate();
                    env.define(nm, dup);
                    Result::Ok(v)
                }
                Result::Err(e) => Result::Err(e),
            }
        }
    }
}

} // verus!
