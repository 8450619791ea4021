use crate::ast::Meta;
use crate::env::{Env, EnvV};
use crate::error::{Error, ErrorV, TypeTag};
use crate::rational::{
    rat_add, rat_add_spec, rat_div, rat_div_spec, rat_mul, rat_mul_spec, rat_rem, rat_rem_spec,
    rat_sub, rat_sub_spec, Rational,
};
use crate::value::{lemma_view_vals, view_vals, NativeId, ValV, Value};
use vstd::prelude::*;

verus! {

broadcast use vstd::std_specs::vec::group_vec_axioms;

pub open spec fn rat_zero() -> Rational {
    Rational { numer: 0, denom: 1 }
}

pub open spec fn rat_one() -> Rational {
    Rational { numer: 1, denom: 1 }
}

/// Folds `+` over the values from the left, starting from `acc`; the first
/// non-number is a `TypeMismatch`, an intermediate out of machine range an
/// `Overflow`.
pub open spec fn sem_sum_acc(acc: Rational, vals: Seq<ValV>, pos: Meta) -> Result<
    Rational,
    ErrorV,
>
    decreases vals.len(),
{
    if vals.len() == 0 {
        Result::Ok(acc)
    } else {
        match vals[0] {
            ValV::Number(r) => match rat_add_spec(acc, r) {
                Option::Some(a2) => sem_sum_acc(a2, vals.drop_first(), pos),
                Option::None => Result::Err(ErrorV::Overflow),
            },
            v => Result::Err(
                ErrorV::TypeMismatch { expected: TypeTag::Number, got: v.tag(), position: pos },
            ),
        }
    }
}

/// `+`: the sum of all arguments; no arguments yield the additive identity.
pub open spec fn sem_sum(vals: Seq<ValV>, pos: Meta) -> Result<Rational, ErrorV> {
    sem_sum_acc(rat_zero(), vals, pos)
}

/// Folds `*` over the values from the left, starting from `acc`.
pub open spec fn sem_prod_acc(acc: Rational, vals: Seq<ValV>, pos: Meta) -> Result<
    Rational,
    ErrorV,
>
    decreases vals.len(),
{
    if vals.len() == 0 {
        Result::Ok(acc)
    } else {
        match vals[0] {
            ValV::Number(r) => match rat_mul_spec(acc, r) {
                Option::Some(a2) => sem_prod_acc(a2, vals.drop_first(), pos),
                Option::None => Result::Err(ErrorV::Overflow),
            },
            v => Result::Err(
                ErrorV::TypeMismatch { expected: TypeTag::Number, got: v.tag(), position: pos },
            ),
        }
    }
}

/// `*`: the product of all arguments; no arguments yield the multiplicative
/// identity.
pub open spec fn sem_mul(vals: Seq<ValV>, pos: Meta) -> Result<Rational, ErrorV> {
    sem_prod_acc(rat_one(), vals, pos)
}

/// `-`: `first - sum(rest)`; with a single argument the argument unchanged.
/// At least one argument is required.
pub open spec fn sem_sub(vals: Seq<ValV>, pos: Meta) -> Result<Rational, ErrorV> {
    if vals.len() == 0 {
        Result::Err(ErrorV::ArityMismatch { expected: 1, got: 0 })
    } else {
        match vals[0] {
            ValV::Number(first) => match sem_sum_acc(rat_zero(), vals.drop_first(), pos) {
                Result::Ok(s) => match rat_sub_spec(first, s) {
                    Option::Some(r) => Result::Ok(r),
                    Option::None => Result::Err(ErrorV::Overflow),
                },
                Result::Err(e) => Result::Err(e),
            },
            v => Result::Err(
                ErrorV::TypeMismatch { expected: TypeTag::Number, got: v.tag(), position: pos },
            ),
        }
    }
}

/// Walks the divisor factors in order: the first non-number is a
/// `TypeMismatch`, the first exact zero a `DivideByZero`.
pub open spec fn sem_check_divisors(vals: Seq<ValV>, pos: Meta) -> Option<ErrorV>
    decreases vals.len(),
{
    if vals.len() == 0 {
        Option::None
    } else {
        match vals[0] {
            ValV::Number(r) => if r.numer == 0 {
                Option::Some(ErrorV::DivideByZero)
            } else {
                sem_check_divisors(vals.drop_first(), pos)
            },
            v => Option::Some(
                ErrorV::TypeMismatch { expected: TypeTag::Number, got: v.tag(), position: pos },
            ),
        }
    }
}

/// `/`: `first / product(rest)`; every divisor factor is checked for zero
/// before any division is performed. At least one argument is required.
pub open spec fn sem_quo(vals: Seq<ValV>, pos: Meta) -> Result<Rational, ErrorV> {
    if vals.len() == 0 {
        Result::Err(ErrorV::ArityMismatch { expected: 1, got: 0 })
    } else {
        match vals[0] {
            ValV::Number(first) => match sem_check_divisors(vals.drop_first(), pos) {
                Option::Some(e) => Result::Err(e),
                Option::None => match sem_prod_acc(rat_one(), vals.drop_first(), pos) {
                    Result::Ok(p) => match rat_div_spec(first, p) {
                        Option::Some(r) => Result::Ok(r),
                        Option::None => Result::Err(ErrorV::Overflow),
                    },
                    Result::Err(e) => Result::Err(e),
                },
            },
            v => Result::Err(
                ErrorV::TypeMismatch { expected: TypeTag::Number, got: v.tag(), position: pos },
            ),
        }
    }
}

/// `mod`: exactly two number arguments; the truncated remainder
/// `a - trunc(a / b) * b`; a zero divisor is a `DivideByZero`.
pub open spec fn sem_mod(vals: Seq<ValV>, pos: Meta) -> Result<Rational, ErrorV> {
    if vals.len() != 2 {
        Result::Err(ErrorV::ArityMismatch { expected: 2, got: vals.len() as int })
    } else {
        match vals[0] {
            ValV::Number(a) => match vals[1] {
                ValV::Number(b) => if b.numer == 0 {
                    Result::Err(ErrorV::DivideByZero)
                } else {
                    match rat_rem_spec(a, b) {
                        Option::Some(r) => Result::Ok(r),
                        Option::None => Result::Err(ErrorV::Overflow),
                    }
                },
                v => Result::Err(
                    ErrorV::TypeMismatch { expected: TypeTag::Number, got: v.tag(), position: pos },
                ),
            },
            v => Result::Err(
                ErrorV::TypeMismatch { expected: TypeTag::Number, got: v.tag(), position: pos },
            ),
        }
    }
}

/// What each built-in procedure returns on evaluated arguments.
pub open spec fn sem_native(id: NativeId, vals: Seq<ValV>, pos: Meta) -> Result<ValV, ErrorV> {
    let r = match id {
        NativeId::Add => sem_sum(vals, pos),
        NativeId::Sub => sem_sub(vals, pos),
        NativeId::Mul => sem_mul(vals, pos),
        NativeId::Div => sem_quo(vals, pos),
        NativeId::Mod => sem_mod(vals, pos),
    };
    match r {
        Result::Ok(x) => Result::Ok(ValV::Number(x)),
        Result::Err(e) => Result::Err(e),
    }
}

/// The sum of a list of number values, folded from the left, as an exact
/// rational in lowest terms; intermediates out of machine range report
/// `Overflow`.
pub fn sum_num_list(args: &Vec<Value>, position: Meta) -> (r: Result<Rational, Error>)
    ensures
        match r {
            Result::Ok(x) => sem_sum(view_vals(args@), position) == Result::<
                Rational,
                ErrorV,
            >::Ok(x) && x.wf(),
            Result::Err(e) => sem_sum(view_vals(args@), position) == Result::<
                Rational,
                ErrorV,
            >::Err(e@),
        },
{
    let ghost vv = view_vals(args@);
    proof {
        lemma_view_vals(args@);
        assert(vv.skip(0) =~= vv);
    }
    let mut acc = Rational::from_integer(0);
    let mut i: usize = 0;
    while i < args.len()
        invariant
            i <= args.len(),
            vv == view_vals(args@),
            vv.len() == args@.len(),
            forall|j: int| 0 <= j < args@.len() ==> vv[j] == args@[j].to_view(),
            acc.wf(),
            sem_sum_acc(rat_zero(), vv, position) == sem_sum_acc(
                acc,
                vv.skip(i as int),
                position,
            ),
        decreases args.len() - i,
    {
        proof {
            assert(vv.skip(i as int)[0] == vv[i as int]);
            assert(vv.skip(i as int).drop_first() =~= vv.skip(i as int + 1));
        }
        match &args[i] {
            Value::Number(n) => {
                match rat_add(acc, *n) {
                    Option::Some(a2) => {
                        acc = a2;
                    }
                    Option::None => {
                        return Result::Err(Error::Overflow);
                    }
                }
            }
            other => {
                return Result::Err(
                    Error::TypeMismatch {
                        expected: TypeTag::Number,
                        got: other.type_tag(),
                        position,
                    },
                );
            }
        }
        i = i + 1;
    }
    proof {
        assert(vv.skip(args@.len() as int) =~= Seq::<ValV>::empty());
    }
    Result::Ok(acc)
}

/// The product of a list of number values, folded from the left, as an exact
/// rational in lowest terms; intermediates out of machine range report
/// `Overflow`.
pub fn mul_num_list(args: &Vec<Value>, position: Meta) -> (r: Result<Rational, Error>)
    ensures
        match r {
            Result::Ok(x) => sem_mul(view_vals(args@), position) == Result::<
                Rational,
                ErrorV,
            >::Ok(x) && x.wf(),
            Result::Err(e) => sem_mul(view_vals(args@), position) == Result::<
                Rational,
                ErrorV,
            >::Err(e@),
        },
{
    let ghost vv = view_vals(args@);
    proof {
        lemma_view_vals(args@);
        assert(vv.skip(0) =~= vv);
    }
    let mut acc = Rational::from_integer(1);
    let mut i: usize = 0;
    while i < args.len()
        invariant
            i <= args.len(),
            vv == view_vals(args@),
            vv.len() == args@.len(),
            forall|j: int| 0 <= j < args@.len() ==> vv[j] == args@[j].to_view(),
            acc.wf(),
            sem_prod_acc(rat_one(), vv, position) == sem_prod_acc(
                acc,
                vv.skip(i as int),
                position,
            ),
        decreases args.len() - i,
    {
        proof {
            assert(vv.skip(i as int)[0] == vv[i as int]);
            assert(vv.skip(i as int).drop_first() =~= vv.skip(i as int + 1));
        }
        match &args[i] {
            Value::Number(n) => {
                match rat_mul(acc, *n) {
                    Option::Some(a2) => {
                        acc = a2;
                    }
                    Option::None => {
                        return Result::Err(Error::Overflow);
                    }
                }
            }
            other => {
                return Result::Err(
                    Error::TypeMismatch {
                        expected: TypeTag::Number,
                        got: other.type_tag(),
                        position,
                    },
                );
            }
        }
        i = i + 1;
    }
    proof {
        assert(vv.skip(args@.len() as int) =~= Seq::<ValV>::empty());
    }
    Result::Ok(acc)
}

/// The sum of the values from index 1 on, folded from the left.
fn sum_rest(args: &Vec<Value>, position: Meta) -> (r: Result<Rational, Error>)
    requires
        args@.len() >= 1,
    ensures
        match r {
            Result::Ok(x) => sem_sum_acc(rat_zero(), view_vals(args@).drop_first(), position)
                == Result::<Rational, ErrorV>::Ok(x) && x.wf(),
            Result::Err(e) => sem_sum_acc(rat_zero(), view_vals(args@).drop_first(), position)
                == Result::<Rational, ErrorV>::Err(e@),
        },
{
    let ghost vv = view_vals(args@);
    proof {
        lemma_view_vals(args@);
        assert(vv.skip(1) =~= vv.drop_first());
    }
    let mut acc = Rational::from_integer(0);
    let mut i: usize = 1;
    while i < args.len()
        invariant
            1 <= i <= args.len(),
            vv == view_vals(args@),
            vv.len() == args@.len(),
            forall|j: int| 0 <= j < args@.len() ==> vv[j] == args@[j].to_view(),
            acc.wf(),
            sem_sum_acc(rat_zero(), vv.drop_first(), position) == sem_sum_acc(
                acc,
                vv.skip(i as int),
                position,
            ),
        decreases args.len() - i,
    {
        proof {
            assert(vv.skip(i as int)[0] == vv[i as int]);
            assert(vv.skip(i as int).drop_first() =~= vv.skip(i as int + 1));
        }
        match &args[i] {
            Value::Number(n) => {
                match rat_add(acc, *n) {
                    Option::Some(a2) => {
                        acc = a2;
                    }
                    Option::None => {
                        return Result::Err(Error::Overflow);
                    }
                }
            }
            other => {
                return Result::Err(
                    Error::TypeMismatch {
                        expected: TypeTag::Number,
                        got: other.type_tag(),
                        position,
                    },
                );
            }
        }
        i = i + 1;
    }
    proof {
        assert(vv.skip(args@.len() as int) =~= Seq::<ValV>::empty());
    }
    Result::Ok(acc)
}

/// `-`: the first argument minus the sum of the rest; a single argument comes
/// back unchanged. The result is an exact rational in lowest terms;
/// intermediates out of machine range report `Overflow`.
pub fn sub_num_list(args: &Vec<Value>, position: Meta) -> (r: Result<Rational, Error>)
    ensures
        match r {
            Result::Ok(x) => sem_sub(view_vals(args@), position) == Result::<
                Rational,
                ErrorV,
            >::Ok(x) && x.wf(),
            Result::Err(e) => sem_sub(view_vals(args@), position) == Result::<
                Rational,
                ErrorV,
            >::Err(e@),
        },
{
    proof {
        lemma_view_vals(args@);
    }
    if args.len() == 0 {
        return Result::Err(Error::ArityMismatch { expected: 1, got: 0 });
    }
    let first: Rational = match &args[0] {
        Value::Number(n) => *n,
        other => {
            return Result::Err(
                Error::TypeMismatch { expected: TypeTag::Number, got: other.type_tag(), position },
            );
        }
    };
    let rest_sum = match sum_rest(args, position) {
        Result::Ok(s) => s,
        Result::Err(e) => {
            return Result::Err(e);
        }
    };
    match rat_sub(first, rest_sum) {
        Option::Some(r) => Result::Ok(r),
        Option::None => Result::Err(Error::Overflow),
    }
}

/// The product of the values from index 1 on, folded from the left.
fn mul_rest(args: &Vec<Value>, position: Meta) -> (r: Result<Rational, Error>)
    requires
        args@.len() >= 1,
    ensures
        match r {
            Result::Ok(x) => sem_prod_acc(rat_one(), view_vals(args@).drop_first(), position)
                == Result::<Rational, ErrorV>::Ok(x) && x.wf(),
            Result::Err(e) => sem_prod_acc(rat_one(), view_vals(args@).drop_first(), position)
                == Result::<Rational, ErrorV>::Err(e@),
        },
{
    let ghost vv = view_vals(args@);
    proof {
        lemma_view_vals(args@);
        assert(vv.skip(1) =~= vv.drop_first());
    }
    let mut acc = Rational::from_integer(1);
    let mut i: usize = 1;
    while i < args.len()
        invariant
            1 <= i <= args.len(),
            vv == view_vals(args@),
            vv.len() == args@.len(),
            forall|j: int| 0 <= j < args@.len() ==> vv[j] == args@[j].to_view(),
            acc.wf(),
            sem_prod_acc(rat_one(), vv.drop_first(), position) == sem_prod_acc(
                acc,
                vv.skip(i as int),
                position,
            ),
        decreases args.len() - i,
    {
        proof {
            assert(vv.skip(i as int)[0] == vv[i as int]);
            assert(vv.skip(i as int).drop_first() =~= vv.skip(i as int + 1));
        }
        match &args[i] {
            Value::Number(n) => {
                match rat_mul(acc, *n) {
                    Option::Some(a2) => {
                        acc = a2;
                    }
                    Option::None => {
                        return Result::Err(Error::Overflow);
                    }
                }
            }
            other => {
                return Result::Err(
                    Error::TypeMismatch {
                        expected: TypeTag::Number,
                        got: other.type_tag(),
                        position,
                    },
                );
            }
        }
        i = i + 1;
    }
    proof {
        assert(vv.skip(args@.len() as int) =~= Seq::<ValV>::empty());
    }
    Result::Ok(acc)
}

/// `/`: the first argument divided by the product of the rest; every divisor
/// factor is checked for zero before any division happens. The result is an
/// exact rational in lowest terms; intermediates out of machine range report
/// `Overflow`.
pub fn quo_num_list(args: &Vec<Value>, position: Meta) -> (r: Result<Rational, Error>)
    ensures
        match r {
            Result::Ok(x) => sem_quo(view_vals(args@), position) == Result::<
                Rational,
                ErrorV,
            >::Ok(x) && x.wf(),
            Result::Err(e) => sem_quo(view_vals(args@), position) == Result::<
                Rational,
                ErrorV,
            >::Err(e@),
        },
{
    let ghost vv = view_vals(args@);
    proof {
        lemma_view_vals(args@);
    }
    if args.len() == 0 {
        return Result::Err(Error::ArityMismatch { expected: 1, got: 0 });
    }
    let first: Rational = match &args[0] {
        Value::Number(n) => *n,
        other => {
            return Result::Err(
                Error::TypeMismatch { expected: TypeTag::Number, got: other.type_tag(), position },
            );
        }
    };
    proof {
        assert(vv.skip(1) =~= vv.drop_first());
    }
    let mut i: usize = 1;
    while i < args.len()
        invariant
            1 <= i <= args.len(),
            vv == view_vals(args@),
            vv.len() == args@.len(),
            forall|j: int| 0 <= j < args@.len() ==> vv[j] == args@[j].to_view(),
            vv.len() >= 1,
            vv[0] == ValV::Number(first),
            sem_check_divisors(vv.drop_first(), position) == sem_check_divisors(
                vv.skip(i as int),
                position,
            ),
        decreases args.len() - i,
    {
        proof {
            assert(vv.skip(i as int)[0] == vv[i as int]);
            assert(vv.skip(i as int).drop_first() =~= vv.skip(i as int + 1));
        }
        match &args[i] {
            Value::Number(n) => {
                if n.is_zero() {
                    return Result::Err(Error::DivideByZero);
                }
            }
            other => {
                return Result::Err(
                    Error::TypeMismatch {
                        expected: TypeTag::Number,
                        got: other.type_tag(),
                        position,
                    },
                );
            }
        }
        i = i + 1;
    }
    proof {
        assert(vv.skip(args@.len() as int) =~= Seq::<ValV>::empty());
    }
    let prod = match mul_rest(args, position) {
        Result::Ok(p) => p,
        Result::Err(e) => {
            return Result::Err(e);
        }
    };
    match rat_div(first, prod) {
        Option::Some(r) => Result::Ok(r),
        Option::None => Result::Err(Error::Overflow),
    }
}

/// `mod`: the truncated remainder of exactly two number arguments, an exact
/// rational in lowest terms; intermediates out of machine range report
/// `Overflow`.
pub fn mod_num_list(args: &Vec<Value>, position: Meta) -> (r: Result<Rational, Error>)
    ensures
        match r {
            Result::Ok(x) => sem_mod(view_vals(args@), position) == Result::<
                Rational,
                ErrorV,
            >::Ok(x) && x.wf(),
            Result::Err(e) => sem_mod(view_vals(args@), position) == Result::<
                Rational,
                ErrorV,
            >::Err(e@),
        },
{
    proof {
        lemma_view_vals(args@);
    }
    if args.len() != 2 {
        return Result::Err(Error::ArityMismatch { expected: 2, got: args.len() });
    }
    let a: Rational = match &args[0] {
        Value::Number(n) => *n,
        other => {
            return Result::Err(
                Error::TypeMismatch { expected: TypeTag::Number, got: other.type_tag(), position },
            );
        }
    };
    let b: Rational = match &args[1] {
        Value::Number(n) => *n,
        other => {
            return Result::Err(
                Error::TypeMismatch { expected: TypeTag::Number, got: other.type_tag(), position },
            );
        }
    };
    if b.is_zero() {
        return Result::Err(Error::DivideByZero);
    }
    match rat_rem(a, b) {
        Option::Some(r) => Result::Ok(r),
        Option::None => Result::Err(Error::Overflow),
    }
}

/// Runs the built-in procedure `id` on evaluated arguments.
pub fn apply_native(id: NativeId, args: &Vec<Value>, position: Meta) -> (r: Result<Value, Error>)
    ensures
        match r {
            Result::Ok(v) => sem_native(id, view_vals(args@), position) == Result::<
                ValV,
                ErrorV,
            >::Ok(v.to_view()),
            Result::Err(e) => sem_native(id, view_vals(args@), position) == Result::<
                ValV,
                ErrorV,
            >::Err(e@),
        },
{
    let r = match id {
        NativeId::Add => sum_num_list(args, position),
        NativeId::Sub => sub_num_list(args, position),
        NativeId::Mul => mul_num_list(args, position),
        NativeId::Div => quo_num_list(args, position),
        NativeId::Mod => mod_num_list(args, position),
    };
    match r {
        Result::Ok(x) => Result::Ok(Value::Number(x)),
        Result::Err(e) => Result::Err(e),
    }
}

/// The bindings of the root environment, in insertion order.
pub open spec fn default_bindings() -> Seq<(Seq<char>, ValV)> {
    seq![
        ("+"@, ValV::NativeProcedure(NativeId::Add)),
        ("-"@, ValV::NativeProcedure(NativeId::Sub)),
        ("*"@, ValV::NativeProcedure(NativeId::Mul)),
        ("/"@, ValV::NativeProcedure(NativeId::Div)),
        ("mod"@, ValV::NativeProcedure(NativeId::Mod)),
    ]
}

/// The root environment: the five arithmetic procedures, nothing else.
/// `let`, `fn`, `if` and quotation are not procedures: they are handled as
/// special forms by the evaluator, which is the only construction that can
/// suspend evaluation and capture a lexical environment.
pub fn default_env() -> (env: Env)
    ensures
        env.to_view() == (EnvV { frame: default_bindings(), parent: Option::None }),
{
    let mut env = Env::new();
    env.define("+".to_owned(), Value::NativeProcedure(NativeId::Add));
    env.define("-".to_owned(), Value::NativeProcedure(NativeId::Sub));
    env.define("*".to_owned(), Value::NativeProcedure(NativeId::Mul));
    env.define("/".to_owned(), Value::NativeProcedure(NativeId::Div));
    env.define("mod".to_owned(), Value::NativeProcedure(NativeId::Mod));
    proof {
        assert(env.to_view().frame =~= default_bindings());
    }
    env
}

} // verus!
