use lisp_core::ast::{Expr, Item, Lit, Meta};
use lisp_core::default_env::default_env;
use lisp_core::error::{Error, TypeTag};
use lisp_core::eval::{eval, eval_item, eval_with_fuel};
use lisp_core::rational::Rational;
use lisp_core::value::{NativeId, Value};

fn m() -> Meta {
    Meta { line: 0, column: 0 }
}

fn num(n: i64) -> Expr {
    Expr::Lit { value: Lit::Number(Rational::from_integer(n)), meta: m() }
}

fn rat(n: i64, d: i64) -> Expr {
    Expr::Lit { value: Lit::Number(Rational::new(n, d).unwrap()), meta: m() }
}

fn sym(s: &str) -> Expr {
    Expr::Symbol { name: s.to_string(), meta: m() }
}

fn call(f: Expr, args: Vec<Expr>) -> Expr {
    Expr::Apply { fun: Box::new(f), args, meta: m() }
}

fn assert_num(r: Result<Value, Error>, n: i64, d: i64) {
    match r {
        Ok(Value::Number(q)) => {
            assert_eq!(q.numer, n);
            assert_eq!(q.denom, d);
        }
        other => panic!("expected the number {}/{}, got {:?}", n, d, other),
    }
}

#[test]
fn number_literal_round_trip() {
    let env = default_env();
    assert_num(eval(&num(0), &env), 0, 1);
    assert_num(eval(&num(42), &env), 42, 1);
    assert_num(eval(&num(-7), &env), -7, 1);
    assert_num(eval(&rat(1, 2), &env), 1, 2);
    assert_num(eval(&rat(-3, 9), &env), -1, 3);
}

#[test]
fn string_literal_round_trip() {
    let env = default_env();
    let e = Expr::Lit { value: Lit::Str("hello".to_string()), meta: m() };
    match eval(&e, &env) {
        Ok(Value::Str(s)) => assert_eq!(s, "hello"),
        other => panic!("expected a string, got {:?}", other),
    }
}

#[test]
fn empty_sum_is_zero_and_empty_product_is_one() {
    let env = default_env();
    assert_num(eval(&call(sym("+"), vec![]), &env), 0, 1);
    assert_num(eval(&call(sym("*"), vec![]), &env), 1, 1);
}

#[test]
fn products_multiply_exactly() {
    let env = default_env();
    assert_num(eval(&call(sym("*"), vec![num(2), num(3), num(4)]), &env), 24, 1);
    assert_num(eval(&call(sym("*"), vec![rat(1, 2), rat(2, 3)]), &env), 1, 3);
}

#[test]
fn a_larger_step_budget_gives_the_same_answer() {
    let env = default_env();
    let e = call(sym("+"), vec![num(1), call(sym("*"), vec![num(2), num(3)])]);
    let small = eval_with_fuel(&e, &env, 50).unwrap();
    let large = eval_with_fuel(&e, &env, 40_000).unwrap();
    assert!(small.datum_eq(&large));
    assert_num(Ok(small), 7, 1);
}

#[test]
fn sum_sub_and_divide_by_zero() {
    let env = default_env();
    assert_num(eval(&call(sym("+"), vec![num(1), num(2), num(3)]), &env), 6, 1);
    assert_num(eval(&call(sym("-"), vec![num(10), num(3), num(2)]), &env), 5, 1);
    match eval(&call(sym("/"), vec![num(1), num(0)]), &env) {
        Err(Error::DivideByZero) => {}
        other => panic!("expected DivideByZero, got {:?}", other),
    }
}

#[test]
fn subtraction_of_single_argument_is_unchanged() {
    let env = default_env();
    assert_num(eval(&call(sym("-"), vec![num(5)]), &env), 5, 1);
}

#[test]
fn subtraction_of_nothing_is_an_arity_mismatch() {
    let env = default_env();
    match eval(&call(sym("-"), vec![]), &env) {
        Err(Error::ArityMismatch { expected: 1, got: 0 }) => {}
        other => panic!("expected ArityMismatch, got {:?}", other),
    }
}

#[test]
fn division_keeps_exact_fractions() {
    let env = default_env();
    assert_num(eval(&call(sym("/"), vec![num(1), num(3)]), &env), 1, 3);
    assert_num(eval(&call(sym("/"), vec![num(10), num(4)]), &env), 5, 2);
    assert_num(eval(&call(sym("/"), vec![num(12), num(2), num(3)]), &env), 2, 1);
}

#[test]
fn modulo_of_integers() {
    let env = default_env();
    assert_num(eval(&call(sym("mod"), vec![num(7), num(3)]), &env), 1, 1);
    assert_num(eval(&call(sym("mod"), vec![num(-7), num(3)]), &env), -1, 1);
}

#[test]
fn modulo_of_fractions_follows_the_truncated_rule() {
    let env = default_env();
    // 7/2 mod 2 = 7/2 - trunc(7/4) * 2 = 7/2 - 2 = 3/2
    assert_num(eval(&call(sym("mod"), vec![rat(7, 2), num(2)]), &env), 3, 2);
}

#[test]
fn modulo_arity_mismatch() {
    let env = default_env();
    match eval(&call(sym("mod"), vec![num(7)]), &env) {
        Err(Error::ArityMismatch { expected: 2, got: 1 }) => {}
        other => panic!("expected ArityMismatch{{2,1}}, got {:?}", other),
    }
}

#[test]
fn modulo_by_zero_is_divide_by_zero() {
    let env = default_env();
    match eval(&call(sym("mod"), vec![num(7), num(0)]), &env) {
        Err(Error::DivideByZero) => {}
        other => panic!("expected DivideByZero, got {:?}", other),
    }
}

#[test]
fn non_number_argument_is_a_type_mismatch() {
    let env = default_env();
    let s = Expr::Lit { value: Lit::Str("x".to_string()), meta: m() };
    match eval(&call(sym("+"), vec![num(1), s]), &env) {
        Err(Error::TypeMismatch { expected: TypeTag::Number, got: TypeTag::Str, .. }) => {}
        other => panic!("expected TypeMismatch, got {:?}", other),
    }
}

#[test]
fn arithmetic_overflow_is_reported_not_wrapped() {
    let env = default_env();
    let big = Expr::Lit {
        value: Lit::Number(Rational::new(i64::MAX, 1).unwrap()),
        meta: m(),
    };
    let big2 = Expr::Lit {
        value: Lit::Number(Rational::new(i64::MAX, 1).unwrap()),
        meta: m(),
    };
    match eval(&call(sym("*"), vec![big, big2]), &env) {
        Err(Error::Overflow) => {}
        other => panic!("expected Overflow, got {:?}", other),
    }
}

#[test]
fn shadowing_inner_let_wins_and_leaves_outer_env_alone() {
    let env = default_env();
    let inner = Expr::Let {
        name: "x".to_string(),
        value: Box::new(num(2)),
        body: Box::new(sym("x")),
        meta: m(),
    };
    let outer = Expr::Let {
        name: "x".to_string(),
        value: Box::new(num(1)),
        body: Box::new(inner),
        meta: m(),
    };
    assert_num(eval(&outer, &env), 2, 1);
    // After both lets complete, `x` is unbound in the ambient environment.
    match eval(&sym("x"), &env) {
        Err(Error::UnboundSymbol { name }) => assert_eq!(name, "x"),
        other => panic!("expected UnboundSymbol, got {:?}", other),
    }
}

#[test]
fn unbound_symbol_reports_its_name() {
    let env = default_env();
    match eval(&sym("nonesuch"), &env) {
        Err(Error::UnboundSymbol { name }) => assert_eq!(name, "nonesuch"),
        other => panic!("expected UnboundSymbol, got {:?}", other),
    }
}

#[test]
fn closure_capture_is_lexical_not_dynamic() {
    let mut env = default_env();
    // def f = let y = 5 in \z -> y + z
    let lambda = Expr::Lambda {
        params: vec![sym("z")],
        body: Box::new(call(sym("+"), vec![sym("y"), sym("z")])),
        meta: m(),
    };
    let let_y = Expr::Let {
        name: "y".to_string(),
        value: Box::new(num(5)),
        body: Box::new(lambda),
        meta: m(),
    };
    let def = Item::Def(lisp_core::ast::Def { name: "f".to_string(), value: let_y, meta: m() });
    eval_item(&def, &mut env).unwrap();
    // `y` is unbound at the call site, yet (f 3) still sees the captured 5.
    match eval(&sym("y"), &env) {
        Err(Error::UnboundSymbol { .. }) => {}
        other => panic!("expected y to be unbound, got {:?}", other),
    }
    assert_num(eval(&call(sym("f"), vec![num(3)]), &env), 8, 1);
}

#[test]
fn definitions_are_seen_by_closures_made_earlier() {
    let mut env = default_env();
    // def g = \ -> (h), with h defined only afterwards
    let def_g = Item::Def(lisp_core::ast::Def {
        name: "g".to_string(),
        value: Expr::Lambda { params: vec![], body: Box::new(call(sym("h"), vec![])), meta: m() },
        meta: m(),
    });
    let def_h = Item::Def(lisp_core::ast::Def {
        name: "h".to_string(),
        value: Expr::Lambda { params: vec![], body: Box::new(num(7)), meta: m() },
        meta: m(),
    });
    eval_item(&def_g, &mut env).unwrap();
    eval_item(&def_h, &mut env).unwrap();
    assert_num(eval(&call(sym("g"), vec![]), &env), 7, 1);
}

#[test]
fn a_defined_function_can_call_itself() {
    let mut env = default_env();
    // def walk = \x -> if x then (walk nil) else 42
    let def_walk = Item::Def(lisp_core::ast::Def {
        name: "walk".to_string(),
        value: Expr::Lambda {
            params: vec![sym("x")],
            body: Box::new(Expr::If {
                cond: Box::new(sym("x")),
                then_: Box::new(call(sym("walk"), vec![Expr::Nil(m())])),
                else_: Box::new(num(42)),
                meta: m(),
            }),
            meta: m(),
        },
        meta: m(),
    });
    eval_item(&def_walk, &mut env).unwrap();
    assert_num(eval(&call(sym("walk"), vec![num(1)]), &env), 42, 1);
    // A function that calls itself forever resolves its own name (so the
    // budget, not an unbound symbol, is what stops it).
    let def_spin = Item::Def(lisp_core::ast::Def {
        name: "spin".to_string(),
        value: Expr::Lambda {
            params: vec![],
            body: Box::new(call(sym("spin"), vec![])),
            meta: m(),
        },
        meta: m(),
    });
    eval_item(&def_spin, &mut env).unwrap();
    match eval(&call(sym("spin"), vec![]), &env) {
        Err(Error::StackOverflow) => {}
        other => panic!("expected StackOverflow, got {:?}", other),
    }
}

#[test]
fn quote_with_unquote_evaluates_only_the_unquoted_part() {
    let env = default_env();
    let quoted = Expr::Quote {
        value: Box::new(Expr::List {
            values: vec![
                num(1),
                Expr::Unquote {
                    value: Box::new(call(sym("+"), vec![num(1), num(1)])),
                    meta: m(),
                },
                num(3),
            ],
            meta: m(),
        }),
        meta: m(),
    };
    match eval(&quoted, &env) {
        Ok(Value::List(items)) => {
            assert_eq!(items.len(), 3);
            for (i, want) in [1i64, 2, 3].iter().enumerate() {
                match &items[i] {
                    Value::Number(q) => {
                        assert_eq!(q.numer, *want);
                        assert_eq!(q.denom, 1);
                    }
                    other => panic!("expected a number, got {:?}", other),
                }
            }
        }
        other => panic!("expected a list, got {:?}", other),
    }
}

#[test]
fn unquote_outside_quote_is_an_error() {
    let env = default_env();
    let e = Expr::Unquote { value: Box::new(num(1)), meta: m() };
    match eval(&e, &env) {
        Err(Error::UnquoteOutsideQuote) => {}
        other => panic!("expected UnquoteOutsideQuote, got {:?}", other),
    }
}

#[test]
fn unquote_splice_flattens_one_level() {
    let env = default_env();
    let spliced = Expr::Quote {
        value: Box::new(Expr::List {
            values: vec![
                num(1),
                Expr::UnquoteSplice {
                    value: Box::new(Expr::Quote {
                        value: Box::new(Expr::List { values: vec![num(2), num(3)], meta: m() }),
                        meta: m(),
                    }),
                    meta: m(),
                },
                num(4),
            ],
            meta: m(),
        }),
        meta: m(),
    };
    match eval(&spliced, &env) {
        Ok(Value::List(items)) => {
            assert_eq!(items.len(), 4);
            for (i, want) in [1i64, 2, 3, 4].iter().enumerate() {
                match &items[i] {
                    Value::Number(q) => assert_eq!(q.numer, *want),
                    other => panic!("expected a number, got {:?}", other),
                }
            }
        }
        other => panic!("expected a list, got {:?}", other),
    }
}

#[test]
fn splicing_a_non_list_is_an_error() {
    let env = default_env();
    let bad = Expr::Quote {
        value: Box::new(Expr::List {
            values: vec![Expr::UnquoteSplice { value: Box::new(num(2)), meta: m() }],
            meta: m(),
        }),
        meta: m(),
    };
    match eval(&bad, &env) {
        Err(Error::SpliceNonList) => {}
        other => panic!("expected SpliceNonList, got {:?}", other),
    }
}

#[test]
fn quoted_symbol_is_a_symbol_datum() {
    let env = default_env();
    let e = Expr::Quote { value: Box::new(sym("abc")), meta: m() };
    match eval(&e, &env) {
        Ok(Value::Symbol(s)) => assert_eq!(s, "abc"),
        other => panic!("expected a symbol, got {:?}", other),
    }
}

#[test]
fn calling_a_number_is_not_callable() {
    let env = default_env();
    match eval(&call(num(5), vec![]), &env) {
        Err(Error::NotCallable { value: Value::Number(q) }) => assert_eq!(q.numer, 5),
        other => panic!("expected NotCallable, got {:?}", other),
    }
}

#[test]
fn closure_arity_mismatch() {
    let env = default_env();
    let two_param = Expr::Lambda {
        params: vec![sym("a"), sym("b")],
        body: Box::new(sym("a")),
        meta: m(),
    };
    match eval(&call(two_param, vec![num(1)]), &env) {
        Err(Error::ArityMismatch { expected: 2, got: 1 }) => {}
        other => panic!("expected ArityMismatch{{2,1}}, got {:?}", other),
    }
}

#[test]
fn if_takes_nil_as_the_only_false() {
    let env = default_env();
    let pick = |cond: Expr| Expr::If {
        cond: Box::new(cond),
        then_: Box::new(num(1)),
        else_: Box::new(num(2)),
        meta: m(),
    };
    assert_num(eval(&pick(Expr::Nil(m())), &env), 2, 1);
    assert_num(eval(&pick(num(0)), &env), 1, 1);
    assert_num(eval(&pick(num(7)), &env), 1, 1);
}

#[test]
fn list_expressions_evaluate_each_element() {
    let env = default_env();
    let e = Expr::List {
        values: vec![num(1), call(sym("+"), vec![num(1), num(1)])],
        meta: m(),
    };
    match eval(&e, &env) {
        Ok(Value::List(items)) => {
            assert_eq!(items.len(), 2);
            match &items[1] {
                Value::Number(q) => assert_eq!(q.numer, 2),
                other => panic!("expected a number, got {:?}", other),
            }
        }
        other => panic!("expected a list, got {:?}", other),
    }
}

#[test]
fn exhausting_the_step_budget_is_a_stack_overflow() {
    let env = default_env();
    match eval_with_fuel(&num(1), &env, 0) {
        Err(Error::StackOverflow) => {}
        other => panic!("expected StackOverflow, got {:?}", other),
    }
    // (\x -> (x x)) applied to itself never terminates; the budget stops it.
    let omega = Expr::Lambda {
        params: vec![sym("x")],
        body: Box::new(call(sym("x"), vec![sym("x")])),
        meta: m(),
    };
    let omega2 = Expr::Lambda {
        params: vec![sym("x")],
        body: Box::new(call(sym("x"), vec![sym("x")])),
        meta: m(),
    };
    match eval(&call(omega, vec![omega2]), &env) {
        Err(Error::StackOverflow) => {}
        other => panic!("expected StackOverflow, got {:?}", other),
    }
}

#[test]
fn lambda_parameter_must_be_a_symbol() {
    let env = default_env();
    let bad = Expr::Lambda { params: vec![num(1)], body: Box::new(num(1)), meta: m() };
    match eval(&bad, &env) {
        Err(Error::TypeMismatch { expected: TypeTag::Symbol, got: TypeTag::Number, .. }) => {}
        other => panic!("expected TypeMismatch, got {:?}", other),
    }
}

#[test]
fn top_level_def_binds_permanently() {
    let mut env = default_env();
    let def = Item::Def(lisp_core::ast::Def {
        name: "answer".to_string(),
        value: num(42),
        meta: m(),
    });
    assert_num(eval_item(&def, &mut env), 42, 1);
    assert_num(eval(&sym("answer"), &env), 42, 1);
    let use_it = Item::Expr(call(sym("+"), vec![sym("answer"), num(1)]));
    assert_num(eval_item(&use_it, &mut env), 43, 1);
}

#[test]
fn builtins_are_first_class_values() {
    let env = default_env();
    match eval(&sym("+"), &env) {
        Ok(Value::NativeProcedure(NativeId::Add)) => {}
        other => panic!("expected the native +, got {:?}", other),
    }
}
