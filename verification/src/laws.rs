use crate::ast::{ExprV, LitV, Meta};
use crate::default_env::{rat_one, rat_zero, sem_mul, sem_sum};
use crate::env::{child_env, sem_lookup, sem_lookup_scoped, EnvV};
use crate::error::ErrorV;
use crate::eval::{
    call_env, sem_apply, sem_eval, sem_eval_seq, sem_param_names, sem_quote, sem_quote_items,
};
use crate::rational::Rational;
use crate::value::ValV;
use vstd::prelude::*;

verus! {

/// Evaluating a number literal yields exactly that number, for every number
/// and in every environment.
pub proof fn lemma_eval_lit_number(genv: EnvV, n: Rational, meta: Meta, env: EnvV, fuel: nat)
    requires
        fuel >= 1,
    ensures
        sem_eval(genv, ExprV::Lit { value: LitV::Number(n), meta }, env, fuel) == Result::<
            ValV,
            ErrorV,
        >::Ok(ValV::Number(n)),
{
}

/// A binding in an inner frame hides an outer binding of the same name: the
/// innermost definition wins.
pub proof fn lemma_inner_binding_shadows(env: EnvV, name: Seq<char>, v: ValV)
    ensures
        sem_lookup(child_env(env, name, v), name) == Option::Some(v),
{
}

/// An inner frame hides nothing else: looking up any other name falls
/// through to the enclosing scope, so outer bindings survive shadowing.
pub proof fn lemma_inner_binding_hides_nothing_else(
    env: EnvV,
    name: Seq<char>,
    v: ValV,
    other: Seq<char>,
)
    requires
        other != name,
    ensures
        sem_lookup(child_env(env, name, v), other) == sem_lookup(env, other),
{
    let f = child_env(env, name, v).frame;
    assert(f.drop_last() =~= Seq::<(Seq<char>, ValV)>::empty());
    assert(f.last() == (name, v));
    assert(crate::env::sem_frame_lookup(Seq::<(Seq<char>, ValV)>::empty(), other)
        == Option::<ValV>::None);
    assert(crate::env::sem_frame_lookup(f, other) == Option::<ValV>::None);
}

/// A lexical binding wins over a global one; where the lexical chain does
/// not bind a name, the current global environment decides. So a top-level
/// definition is seen by every later evaluation — in particular by calls of
/// closures created before it, whose captured chains do not bind it.
pub proof fn lemma_globals_seen_when_lexical_misses(genv: EnvV, env: EnvV, name: Seq<char>)
    ensures
        sem_lookup(env, name) == Option::<ValV>::None ==> sem_lookup_scoped(genv, env, name)
            == sem_lookup(genv, name),
        forall|v: ValV| sem_lookup(env, name) == Option::Some(v)
            ==> sem_lookup_scoped(genv, env, name) == Option::Some(v),
{
}

/// A lambda evaluates to a closure that captures the environment of its
/// definition site, unevaluated body and all.
pub proof fn lemma_lambda_captures_definition_env(
    genv: EnvV,
    params: Seq<ExprV>,
    body: Box<ExprV>,
    meta: Meta,
    env: EnvV,
    fuel: nat,
    names: Seq<Seq<char>>,
)
    requires
        fuel >= 1,
        sem_param_names(params) == Result::<Seq<Seq<char>>, ErrorV>::Ok(names),
    ensures
        sem_eval(genv, ExprV::Lambda { params, body, meta }, env, fuel) == Result::<
            ValV,
            ErrorV,
        >::Ok(ValV::Closure { params: names, body, env: Box::new(env) }),
{
}

/// Applying a closure evaluates its body in a child of the environment the
/// closure captured — not of the caller's environment: scoping is lexical,
/// not dynamic.
pub proof fn lemma_apply_closure_uses_captured_env(
    genv: EnvV,
    params: Seq<Seq<char>>,
    body: Box<ExprV>,
    captured: EnvV,
    argvs: Seq<ValV>,
    pos: Meta,
    fuel: nat,
)
    requires
        fuel >= 1,
        params.len() == argvs.len(),
    ensures
        sem_apply(genv, 
            ValV::Closure { params, body, env: Box::new(captured) },
            argvs,
            pos,
            fuel,
        ) == sem_eval(genv, *body, call_env(captured, params, argvs), (fuel - 1) as nat),
{
}

/// Calling a closure with the wrong number of arguments fails with an
/// `ArityMismatch` naming both counts, whatever the arguments are.
pub proof fn lemma_closure_arity_mismatch(
    genv: EnvV,
    params: Seq<Seq<char>>,
    body: Box<ExprV>,
    captured: EnvV,
    argvs: Seq<ValV>,
    pos: Meta,
    fuel: nat,
)
    requires
        fuel >= 1,
        params.len() != argvs.len(),
    ensures
        sem_apply(genv, 
            ValV::Closure { params, body, env: Box::new(captured) },
            argvs,
            pos,
            fuel,
        ) == Result::<ValV, ErrorV>::Err(
            ErrorV::ArityMismatch { expected: params.len() as int, got: argvs.len() as int },
        ),
{
}

/// Applying any value that is neither a closure nor a native procedure fails
/// with `NotCallable` carrying that value.
pub proof fn lemma_apply_non_callable(genv: EnvV, f: ValV, argvs: Seq<ValV>, pos: Meta, fuel: nat)
    requires
        fuel >= 1,
        !(f is Closure),
        !(f is NativeProcedure),
    ensures
        sem_apply(genv, f, argvs, pos, fuel) == Result::<ValV, ErrorV>::Err(
            ErrorV::NotCallable { value: f },
        ),
{
}

/// `Unquote` outside any enclosing `Quote` is an evaluation error, in every
/// environment.
pub proof fn lemma_unquote_outside_quote(
    genv: EnvV,
    value: Box<ExprV>,
    meta: Meta,
    env: EnvV,
    fuel: nat,
)
    requires
        fuel >= 1,
    ensures
        sem_eval(genv, ExprV::Unquote { value, meta }, env, fuel) == Result::<ValV, ErrorV>::Err(
            ErrorV::UnquoteOutsideQuote,
        ),
        sem_eval(genv, ExprV::UnquoteSplice { value, meta }, env, fuel) == Result::<
            ValV,
            ErrorV,
        >::Err(ErrorV::UnquoteOutsideQuote),
{
}

/// The step budget only cuts an evaluation short, it never changes its
/// answer: a result other than `StackOverflow` stays exactly the same under
/// any larger budget.
pub proof fn lemma_eval_fuel_monotone(genv: EnvV, e: ExprV, env: EnvV, f1: nat, f2: nat)
    requires
        f1 <= f2,
        sem_eval(genv, e, env, f1) != Result::<ValV, ErrorV>::Err(ErrorV::StackOverflow),
    ensures
        sem_eval(genv, e, env, f2) == sem_eval(genv, e, env, f1),
    decreases f1,
{
    let g1 = (f1 - 1) as nat;
    let g2 = (f2 - 1) as nat;
    match e {
        ExprV::List { values, .. } => {
            if sem_eval_seq(genv, values, env, g1) != Result::<Seq<ValV>, ErrorV>::Err(
                ErrorV::StackOverflow,
            ) {
                lemma_eval_seq_fuel_monotone(genv, values, env, g1, g2);
            }
        }
        ExprV::If { cond, then_, else_, .. } => {
            if sem_eval(genv, *cond, env, g1) != Result::<ValV, ErrorV>::Err(ErrorV::StackOverflow) {
                lemma_eval_fuel_monotone(genv, *cond, env, g1, g2);
                match sem_eval(genv, *cond, env, g1) {
                    Result::Ok(c) => {
                        if c is Nil {
                            if sem_eval(genv, *else_, env, g1) != Result::<ValV, ErrorV>::Err(
                                ErrorV::StackOverflow,
                            ) {
                                lemma_eval_fuel_monotone(genv, *else_, env, g1, g2);
                            }
                        } else {
                            if sem_eval(genv, *then_, env, g1) != Result::<ValV, ErrorV>::Err(
                                ErrorV::StackOverflow,
                            ) {
                                lemma_eval_fuel_monotone(genv, *then_, env, g1, g2);
                            }
                        }
                    }
                    Result::Err(_) => {}
                }
            }
        }
        ExprV::Let { name, value, body, .. } => {
            if sem_eval(genv, *value, env, g1) != Result::<ValV, ErrorV>::Err(ErrorV::StackOverflow) {
                lemma_eval_fuel_monotone(genv, *value, env, g1, g2);
                match sem_eval(genv, *value, env, g1) {
                    Result::Ok(v) => {
                        if sem_eval(genv, *body, child_env(env, name, v), g1) != Result::<
                            ValV,
                            ErrorV,
                        >::Err(ErrorV::StackOverflow) {
                            lemma_eval_fuel_monotone(genv, *body, child_env(env, name, v), g1, g2);
                        }
                    }
                    Result::Err(_) => {}
                }
            }
        }
        ExprV::Apply { fun, args, meta } => {
            if sem_eval(genv, *fun, env, g1) != Result::<ValV, ErrorV>::Err(ErrorV::StackOverflow) {
                lemma_eval_fuel_monotone(genv, *fun, env, g1, g2);
                match sem_eval(genv, *fun, env, g1) {
                    Result::Ok(f) => {
                        if sem_eval_seq(genv, args, env, g1) != Result::<Seq<ValV>, ErrorV>::Err(
                            ErrorV::StackOverflow,
                        ) {
                            lemma_eval_seq_fuel_monotone(genv, args, env, g1, g2);
                            match sem_eval_seq(genv, args, env, g1) {
                                Result::Ok(vs) => {
                                    if sem_apply(genv, f, vs, meta, g1) != Result::<ValV, ErrorV>::Err(
                                        ErrorV::StackOverflow,
                                    ) {
                                        lemma_apply_fuel_monotone(genv, f, vs, meta, g1, g2);
                                    }
                                }
                                Result::Err(_) => {}
                            }
                        }
                    }
                    Result::Err(_) => {}
                }
            }
        }
        ExprV::Quote { value, .. } => {
            if sem_quote(genv, *value, env, g1) != Result::<ValV, ErrorV>::Err(ErrorV::StackOverflow) {
                lemma_quote_fuel_monotone(genv, *value, env, g1, g2);
            }
        }
        _ => {}
    }
}

/// Fuel monotonicity for sequence evaluation.
pub proof fn lemma_eval_seq_fuel_monotone(genv: EnvV, es: Seq<ExprV>, env: EnvV, f1: nat, f2: nat)
    requires
        f1 <= f2,
        sem_eval_seq(genv, es, env, f1) != Result::<Seq<ValV>, ErrorV>::Err(ErrorV::StackOverflow),
    ensures
        sem_eval_seq(genv, es, env, f2) == sem_eval_seq(genv, es, env, f1),
    decreases f1,
{
    let g1 = (f1 - 1) as nat;
    let g2 = (f2 - 1) as nat;
    if es.len() != 0 {
        if sem_eval(genv, es[0], env, g1) != Result::<ValV, ErrorV>::Err(ErrorV::StackOverflow) {
            lemma_eval_fuel_monotone(genv, es[0], env, g1, g2);
            match sem_eval(genv, es[0], env, g1) {
                Result::Ok(_) => {
                    if sem_eval_seq(genv, es.drop_first(), env, g1) != Result::<Seq<ValV>, ErrorV>::Err(
                        ErrorV::StackOverflow,
                    ) {
                        lemma_eval_seq_fuel_monotone(genv, es.drop_first(), env, g1, g2);
                    }
                }
                Result::Err(_) => {}
            }
        }
    }
}

/// Fuel monotonicity for application.
pub proof fn lemma_apply_fuel_monotone(
    genv: EnvV,
    f: ValV,
    argvs: Seq<ValV>,
    pos: Meta,
    f1: nat,
    f2: nat,
)
    requires
        f1 <= f2,
        sem_apply(genv, f, argvs, pos, f1) != Result::<ValV, ErrorV>::Err(ErrorV::StackOverflow),
    ensures
        sem_apply(genv, f, argvs, pos, f2) == sem_apply(genv, f, argvs, pos, f1),
    decreases f1,
{
    let g1 = (f1 - 1) as nat;
    let g2 = (f2 - 1) as nat;
    match f {
        ValV::Closure { params, body, env } => {
            if params.len() == argvs.len() {
                if sem_eval(genv, *body, call_env(*env, params, argvs), g1) != Result::<
                    ValV,
                    ErrorV,
                >::Err(ErrorV::StackOverflow) {
                    lemma_eval_fuel_monotone(genv, *body, call_env(*env, params, argvs), g1, g2);
                }
            }
        }
        _ => {}
    }
}

/// Fuel monotonicity for quotation.
pub proof fn lemma_quote_fuel_monotone(genv: EnvV, e: ExprV, env: EnvV, f1: nat, f2: nat)
    requires
        f1 <= f2,
        sem_quote(genv, e, env, f1) != Result::<ValV, ErrorV>::Err(ErrorV::StackOverflow),
    ensures
        sem_quote(genv, e, env, f2) == sem_quote(genv, e, env, f1),
    decreases f1,
{
    let g1 = (f1 - 1) as nat;
    let g2 = (f2 - 1) as nat;
    match e {
        ExprV::List { values, .. } => {
            if sem_quote_items(genv, values, env, g1) != Result::<Seq<ValV>, ErrorV>::Err(
                ErrorV::StackOverflow,
            ) {
                lemma_quote_items_fuel_monotone(genv, values, env, g1, g2);
            }
        }
        ExprV::Unquote { value, .. } => {
            if sem_eval(genv, *value, env, g1) != Result::<ValV, ErrorV>::Err(ErrorV::StackOverflow) {
                lemma_eval_fuel_monotone(genv, *value, env, g1, g2);
            }
        }
        ExprV::Lambda { params, body, .. } => {
            if sem_quote_items(genv, params, env, g1) != Result::<Seq<ValV>, ErrorV>::Err(
                ErrorV::StackOverflow,
            ) {
                lemma_quote_items_fuel_monotone(genv, params, env, g1, g2);
                if sem_quote(genv, *body, env, g1) != Result::<ValV, ErrorV>::Err(
                    ErrorV::StackOverflow,
                ) {
                    lemma_quote_fuel_monotone(genv, *body, env, g1, g2);
                }
            }
        }
        ExprV::Apply { fun, args, .. } => {
            if sem_quote(genv, *fun, env, g1) != Result::<ValV, ErrorV>::Err(ErrorV::StackOverflow) {
                lemma_quote_fuel_monotone(genv, *fun, env, g1, g2);
                if sem_quote_items(genv, args, env, g1) != Result::<Seq<ValV>, ErrorV>::Err(
                    ErrorV::StackOverflow,
                ) {
                    lemma_quote_items_fuel_monotone(genv, args, env, g1, g2);
                }
            }
        }
        ExprV::Let { value, body, .. } => {
            if sem_quote(genv, *value, env, g1) != Result::<ValV, ErrorV>::Err(ErrorV::StackOverflow) {
                lemma_quote_fuel_monotone(genv, *value, env, g1, g2);
                if sem_quote(genv, *body, env, g1) != Result::<ValV, ErrorV>::Err(
                    ErrorV::StackOverflow,
                ) {
                    lemma_quote_fuel_monotone(genv, *body, env, g1, g2);
                }
            }
        }
        ExprV::Quote { value, .. } => {
            if sem_quote(genv, *value, env, g1) != Result::<ValV, ErrorV>::Err(ErrorV::StackOverflow) {
                lemma_quote_fuel_monotone(genv, *value, env, g1, g2);
            }
        }
        ExprV::If { cond, then_, else_, .. } => {
            if sem_quote(genv, *cond, env, g1) != Result::<ValV, ErrorV>::Err(ErrorV::StackOverflow) {
                lemma_quote_fuel_monotone(genv, *cond, env, g1, g2);
                if sem_quote(genv, *then_, env, g1) != Result::<ValV, ErrorV>::Err(
                    ErrorV::StackOverflow,
                ) {
                    lemma_quote_fuel_monotone(genv, *then_, env, g1, g2);
                    if sem_quote(genv, *else_, env, g1) != Result::<ValV, ErrorV>::Err(
                        ErrorV::StackOverflow,
                    ) {
                        lemma_quote_fuel_monotone(genv, *else_, env, g1, g2);
                    }
                }
            }
        }
        _ => {}
    }
}

/// Fuel monotonicity for quoted list elements.
pub proof fn lemma_quote_items_fuel_monotone(genv: EnvV, es: Seq<ExprV>, env: EnvV, f1: nat, f2: nat)
    requires
        f1 <= f2,
        sem_quote_items(genv, es, env, f1) != Result::<Seq<ValV>, ErrorV>::Err(ErrorV::StackOverflow),
    ensures
        sem_quote_items(genv, es, env, f2) == sem_quote_items(genv, es, env, f1),
    decreases f1,
{
    let g1 = (f1 - 1) as nat;
    let g2 = (f2 - 1) as nat;
    if es.len() != 0 {
        match es[0] {
            ExprV::UnquoteSplice { value, .. } => {
                if sem_eval(genv, *value, env, g1) != Result::<ValV, ErrorV>::Err(
                    ErrorV::StackOverflow,
                ) {
                    lemma_eval_fuel_monotone(genv, *value, env, g1, g2);
                    match sem_eval(genv, *value, env, g1) {
                        Result::Ok(ValV::List(_)) => {
                            if sem_quote_items(genv, es.drop_first(), env, g1) != Result::<
                                Seq<ValV>,
                                ErrorV,
                            >::Err(ErrorV::StackOverflow) {
                                lemma_quote_items_fuel_monotone(genv, es.drop_first(), env, g1, g2);
                            }
                        }
                        _ => {}
                    }
                }
            }
            _ => {
                if sem_quote(genv, es[0], env, g1) != Result::<ValV, ErrorV>::Err(
                    ErrorV::StackOverflow,
                ) {
                    lemma_quote_fuel_monotone(genv, es[0], env, g1, g2);
                    match sem_quote(genv, es[0], env, g1) {
                        Result::Ok(_) => {
                            if sem_quote_items(genv, es.drop_first(), env, g1) != Result::<
                                Seq<ValV>,
                                ErrorV,
                            >::Err(ErrorV::StackOverflow) {
                                lemma_quote_items_fuel_monotone(genv, es.drop_first(), env, g1, g2);
                            }
                        }
                        Result::Err(_) => {}
                    }
                }
            }
        }
    }
}

/// `+` of no arguments is the additive identity; `*` of no arguments is the
/// multiplicative identity.
pub proof fn lemma_empty_sum_and_product(pos: Meta)
    ensures
        sem_sum(Seq::empty(), pos) == Result::<Rational, ErrorV>::Ok(rat_zero()),
        sem_mul(Seq::empty(), pos) == Result::<Rational, ErrorV>::Ok(rat_one()),
{
}

} // verus!
