use lisp_core::ast::{Expr, Lit, Meta};
use lisp_core::default_env::default_env;
use lisp_core::env::Env;
use lisp_core::error::Error;
use lisp_core::eval::eval;
use lisp_core::rational::Rational;
use lisp_core::render::render;
use lisp_core::value::Value;

fn m() -> Meta {
    Meta { line: 0, column: 0 }
}

#[test]
fn rationals_are_reduced_on_construction() {
    let r = Rational::new(2, 4).unwrap();
    assert_eq!(r.numer, 1);
    assert_eq!(r.denom, 2);
    let r = Rational::new(-3, -6).unwrap();
    assert_eq!(r.numer, 1);
    assert_eq!(r.denom, 2);
    let r = Rational::new(3, -6).unwrap();
    assert_eq!(r.numer, -1);
    assert_eq!(r.denom, 2);
    let r = Rational::new(0, 5).unwrap();
    assert_eq!(r.numer, 0);
    assert_eq!(r.denom, 1);
    assert!(Rational::new(1, 0).is_none());
}

#[test]
fn environment_lookup_walks_innermost_first() {
    let mut root = Env::new();
    root.define("a".to_string(), Value::Number(Rational::from_integer(1)));
    root.define("b".to_string(), Value::Number(Rational::from_integer(2)));
    let mut child = Env::new_child(&root);
    child.define("a".to_string(), Value::Number(Rational::from_integer(10)));
    match child.lookup(&"a".to_string()) {
        Ok(Value::Number(q)) => assert_eq!(q.numer, 10),
        other => panic!("expected the inner binding, got {:?}", other),
    }
    match child.lookup(&"b".to_string()) {
        Ok(Value::Number(q)) => assert_eq!(q.numer, 2),
        other => panic!("expected the outer binding, got {:?}", other),
    }
    match child.lookup(&"c".to_string()) {
        Err(Error::UnboundSymbol { name }) => assert_eq!(name, "c"),
        other => panic!("expected UnboundSymbol, got {:?}", other),
    }
    // The outer frame itself never saw the shadowing define.
    match root.lookup(&"a".to_string()) {
        Ok(Value::Number(q)) => assert_eq!(q.numer, 1),
        other => panic!("expected the original binding, got {:?}", other),
    }
}

#[test]
fn redefining_in_the_same_frame_overwrites() {
    let mut env = Env::new();
    env.define("x".to_string(), Value::Number(Rational::from_integer(1)));
    env.define("x".to_string(), Value::Number(Rational::from_integer(2)));
    match env.lookup(&"x".to_string()) {
        Ok(Value::Number(q)) => assert_eq!(q.numer, 2),
        other => panic!("expected the later binding, got {:?}", other),
    }
}

#[test]
fn quoting_a_control_form_reads_back_as_a_list() {
    let env = default_env();
    let quoted_if = Expr::Quote {
        value: Box::new(Expr::If {
            cond: Box::new(Expr::Nil(m())),
            then_: Box::new(Expr::Lit { value: Lit::Number(Rational::from_integer(1)), meta: m() }),
            else_: Box::new(Expr::Lit { value: Lit::Number(Rational::from_integer(2)), meta: m() }),
            meta: m(),
        }),
        meta: m(),
    };
    match eval(&quoted_if, &env) {
        Ok(Value::List(items)) => {
            assert_eq!(items.len(), 4);
            match &items[0] {
                Value::Symbol(s) => assert_eq!(s, "if"),
                other => panic!("expected the symbol if, got {:?}", other),
            }
            match &items[1] {
                Value::Nil => {}
                other => panic!("expected nil, got {:?}", other),
            }
        }
        other => panic!("expected a list, got {:?}", other),
    }
}

#[test]
fn datum_equality_is_structural_except_for_closures() {
    let a = Value::List(vec![
        Value::Number(Rational::from_integer(1)),
        Value::Str("x".to_string()),
        Value::Nil,
    ]);
    let b = Value::List(vec![
        Value::Number(Rational::from_integer(1)),
        Value::Str("x".to_string()),
        Value::Nil,
    ]);
    let c = Value::List(vec![
        Value::Number(Rational::from_integer(2)),
        Value::Str("x".to_string()),
        Value::Nil,
    ]);
    assert!(a.datum_eq(&b));
    assert!(!a.datum_eq(&c));
    assert!(!a.datum_eq(&Value::Nil));
    // A closure is not equal even to itself.
    let env = default_env();
    let lambda = Expr::Lambda {
        params: vec![Expr::Symbol { name: "x".to_string(), meta: m() }],
        body: Box::new(Expr::Symbol { name: "x".to_string(), meta: m() }),
        meta: m(),
    };
    let clo = eval(&lambda, &env).unwrap();
    assert!(!clo.datum_eq(&clo));
}

#[test]
fn rendering_is_canonical() {
    assert_eq!(render(&Value::Number(Rational::from_integer(42))), "42");
    assert_eq!(render(&Value::Number(Rational::from_integer(-7))), "-7");
    assert_eq!(render(&Value::Number(Rational::new(10, 4).unwrap())), "5/2");
    assert_eq!(render(&Value::Number(Rational::new(-1, 3).unwrap())), "-1/3");
    assert_eq!(render(&Value::Nil), "nil");
    assert_eq!(render(&Value::Str("hi".to_string())), "\"hi\"");
    assert_eq!(render(&Value::Symbol("abc".to_string())), "abc");
    let list = Value::List(vec![
        Value::Number(Rational::from_integer(1)),
        Value::List(vec![Value::Number(Rational::from_integer(2)), Value::Nil]),
        Value::Symbol("x".to_string()),
    ]);
    assert_eq!(render(&list), "(1 (2 nil) x)");
    assert_eq!(render(&Value::List(vec![])), "()");
}

#[test]
fn expr_meta_is_carried_through() {
    let e = Expr::Symbol { name: "x".to_string(), meta: Meta { line: 3, column: 9 } };
    let got = e.meta();
    assert_eq!(got.line, 3);
    assert_eq!(got.column, 9);
}
