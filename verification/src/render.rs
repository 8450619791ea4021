use crate::rational::abs_int;
use crate::value::{view_vals, ValV, Value};
use vstd::prelude::*;
use vstd::string::StringExecFns;

verus! {

broadcast use vstd::std_specs::vec::group_vec_axioms;

/// The decimal digit character for `d`.
pub open spec fn digit_char(d: nat) -> char {
    if d == 0 {
        '0'
    } else if d == 1 {
        '1'
    } else if d == 2 {
        '2'
    } else if d == 3 {
        '3'
    } else if d == 4 {
        '4'
    } else if d == 5 {
        '5'
    } else if d == 6 {
        '6'
    } else if d == 7 {
        '7'
    } else if d == 8 {
        '8'
    } else {
        '9'
    }
}

/// The decimal digits of `n`, most significant first.
pub open spec fn dec_nat(n: nat) -> Seq<char>
    decreases n,
{
    if n < 10 {
        seq![digit_char(n)]
    } else {
        dec_nat(n / 10).push(digit_char(n % 10))
    }
}

/// The decimal rendering of `n`, with a leading minus sign when negative.
pub open spec fn dec_int(n: int) -> Seq<char> {
    if n < 0 {
        "-"@ + dec_nat(abs_int(n))
    } else {
        dec_nat(n as nat)
    }
}

/// The canonical textual rendering: numbers as integers or reduced
/// fractions, strings between double quotes (characters verbatim; escaping
/// belongs to the reader's literal grammar, which is outside this core),
/// symbols as themselves, lists in parentheses with single spaces, and
/// callables opaquely.
pub open spec fn render_spec(v: ValV) -> Seq<char>
    decreases v,
{
    match v {
        ValV::Number(q) => if q.denom == 1 {
            dec_int(q.numer as int)
        } else {
            dec_int(q.numer as int) + "/"@ + dec_int(q.denom as int)
        },
        ValV::Str(s) => "\""@ + s + "\""@,
        ValV::Symbol(s) => s,
        ValV::List(items) => "("@ + render_items(items) + ")"@,
        ValV::Nil => "nil"@,
        ValV::Closure { .. } => "#<closure>"@,
        ValV::NativeProcedure(_) => "#<native procedure>"@,
    }
}

/// The renderings of a list's elements, separated by single spaces.
pub open spec fn render_items(items: Seq<ValV>) -> Seq<char>
    decreases items,
{
    if items.len() == 0 {
        Seq::empty()
    } else {
        render_spec(items[0]) + render_rest_spec(items.drop_first())
    }
}

/// The renderings of the elements after the first, each preceded by a space.
pub open spec fn render_rest_spec(items: Seq<ValV>) -> Seq<char>
    decreases items,
{
    if items.len() == 0 {
        Seq::<char>::empty()
    } else {
        " "@ + render_spec(items[0]) + render_rest_spec(items.drop_first())
    }
}

/// One decimal digit as a string slice.
fn digit_str(d: u64) -> (r: &'static str)
    requires
        d < 10,
    ensures
        r@ == seq![digit_char(d as nat)],
{
    proof {
        reveal_strlit("0");
        reveal_strlit("1");
        reveal_strlit("2");
        reveal_strlit("3");
        reveal_strlit("4");
        reveal_strlit("5");
        reveal_strlit("6");
        reveal_strlit("7");
        reveal_strlit("8");
        reveal_strlit("9");
    }
    if d == 0 {
        "0"
    } else if d == 1 {
        "1"
    } else if d == 2 {
        "2"
    } else if d == 3 {
        "3"
    } else if d == 4 {
        "4"
    } else if d == 5 {
        "5"
    } else if d == 6 {
        "6"
    } else if d == 7 {
        "7"
    } else if d == 8 {
        "8"
    } else {
        "9"
    }
}

/// The decimal digits of `n`.
fn dec_u64(n: u64) -> (r: String)
    ensures
        r@ == dec_nat(n as nat),
    decreases n,
{
    if n < 10 {
        String::from_str(digit_str(n))
    } else {
        let mut s = dec_u64(n / 10);
        s.append(digit_str(n % 10));
        proof {
            assert(dec_nat((n / 10) as nat).push(digit_char((n % 10) as nat)) =~= dec_nat(
                (n / 10) as nat,
            ) + seq![digit_char((n % 10) as nat)]);
        }
        s
    }
}

/// The decimal rendering of `n`, minus sign included.
fn dec_i64(n: i64) -> (r: String)
    ensures
        r@ == dec_int(n as int),
{
    if n >= 0 {
        dec_u64(n as u64)
    } else {
        let mag: u64 = if n == i64::MIN {
            9_223_372_036_854_775_808u64
        } else {
            (-n) as u64
        };
        proof {
            assert(mag as nat == abs_int(n as int));
        }
        let mut s = String::from_str("-");
        let digits = dec_u64(mag);
        s.append(digits.as_str());
        s
    }
}

/// The canonical textual rendering of a value; see `render_spec`.
pub fn render(v: &Value) -> (r: String)
    ensures
        r@ == render_spec(v.to_view()),
    decreases *v, 0int,
{
    match v {
        Value::Number(q) => {
            if q.denom == 1 {
                dec_i64(q.numer)
            } else {
                let mut s = dec_i64(q.numer);
                s.append("/");
                let den = dec_i64(q.denom);
                s.append(den.as_str());
                s
            }
        }
        Value::Str(t) => {
            let mut s = String::from_str("\"");
            s.append(t.as_str());
            s.append("\"");
            s
        }
        Value::Symbol(t) => t.clone(),
        Value::Nil => String::from_str("nil"),
        Value::Closure { .. } => String::from_str("#<closure>"),
        Value::NativeProcedure(_) => String::from_str("#<native procedure>"),
        Value::List(items) => {
            proof {
                assert(decreases_to!(*v => v->List_0));
                assert(v->List_0 == *items);
            }
            let mut s = String::from_str("(");
            if items.len() > 0 {
                proof {
                    assert(decreases_to!(*items => items@));
                    assert(decreases_to!(items@ => items@[0]));
                    crate::value::lemma_view_vals(items@);
                }
                let first = render(&items[0]);
                s.append(first.as_str());
                let rest = render_rest(items, 1);
                s.append(rest.as_str());
                proof {
                    assert(view_vals(items@).drop_first() =~= view_vals(items@).skip(1));
                }
            }
            s.append(")");
            s
        }
    }
}

/// The elements from index `i` on, each preceded by a single space.
fn render_rest(items: &Vec<Value>, i: usize) -> (r: String)
    requires
        1 <= i <= items@.len(),
    ensures
        r@ == render_rest_spec(view_vals(items@).skip(i as int)),
    decreases *items, items@.len() - i,
{
    proof {
        crate::value::lemma_view_vals(items@);
    }
    if i >= items.len() {
        proof {
            assert(view_vals(items@).skip(i as int) =~= Seq::<ValV>::empty());
        }
        return String::new();
    }
    proof {
        assert(decreases_to!(*items => items@));
        assert(decreases_to!(items@ => items@[i as int]));
        assert(view_vals(items@).skip(i as int)[0] == view_vals(items@)[i as int]);
        assert(view_vals(items@).skip(i as int).drop_first() =~= view_vals(items@).skip(
            i as int + 1,
        ));
    }
    let mut s = String::from_str(" ");
    let head = render(&items[i]);
    s.append(head.as_str());
    let rest = render_rest(items, i + 1);
    s.append(rest.as_str());
    s
}

} // verus!
