use vstd::prelude::*;

verus! {

/// An exact rational number: a numerator over a positive denominator, kept in
/// lowest terms. The arithmetic below delegates reduction to `num_rational`,
/// guarded so that every intermediate product stays within the symmetric
/// machine range `[-i64::MAX, i64::MAX]`; an operation whose intermediates
/// would leave that range reports `None` instead of overflowing.
#[derive(Clone, Copy, Debug, PartialEq, Eq, Structural)]
pub struct Rational {
    pub numer: i64,
    pub denom: i64,
}

pub open spec fn abs_int(x: int) -> nat {
    if x < 0 {
        (-x) as nat
    } else {
        x as nat
    }
}

pub open spec fn gcd_nat(a: nat, b: nat) -> nat
    decreases b,
{
    if b == 0 {
        a
    } else {
        gcd_nat(b, a % b)
    }
}

/// The lowest-terms representative, with positive denominator, of `n / d`.
pub open spec fn rat_norm(n: int, d: int) -> Rational
    recommends
        d != 0,
{
    let g = gcd_nat(abs_int(n), abs_int(d)) as int;
    if d < 0 {
        Rational { numer: ((-n) / g) as i64, denom: ((-d) / g) as i64 }
    } else {
        Rational { numer: (n / g) as i64, denom: (d / g) as i64 }
    }
}

/// Truncated integer division (rounding toward zero), as Rust's `/` on `i64`.
pub open spec fn trunc_div(p: int, q: int) -> int
    recommends
        q != 0,
{
    let m = (abs_int(p) / abs_int(q)) as int;
    if (p < 0) != (q < 0) {
        -m
    } else {
        m
    }
}

pub open spec fn in_range(x: int) -> bool {
    -(i64::MAX as int) <= x && x <= i64::MAX as int
}

impl Rational {
    /// Well-formed: positive denominator, and already in lowest terms, so
    /// that normalizing changes nothing.
    pub open spec fn wf(self) -> bool {
        self.denom > 0 && rat_norm(self.numer as int, self.denom as int) == self
    }
}

pub open spec fn rat_add_spec(a: Rational, b: Rational) -> Option<Rational> {
    let p1 = (a.numer as int) * (b.denom as int);
    let p2 = (b.numer as int) * (a.denom as int);
    let d = (a.denom as int) * (b.denom as int);
    if a.denom != 0 && b.denom != 0 && in_range(p1) && in_range(p2) && in_range(d) && in_range(
        p1 + p2,
    ) {
        Some(rat_norm(p1 + p2, d))
    } else {
        None
    }
}

pub open spec fn rat_sub_spec(a: Rational, b: Rational) -> Option<Rational> {
    let p1 = (a.numer as int) * (b.denom as int);
    let p2 = (b.numer as int) * (a.denom as int);
    let d = (a.denom as int) * (b.denom as int);
    if a.denom != 0 && b.denom != 0 && in_range(p1) && in_range(p2) && in_range(d) && in_range(
        p1 - p2,
    ) {
        Some(rat_norm(p1 - p2, d))
    } else {
        None
    }
}

pub open spec fn rat_mul_spec(a: Rational, b: Rational) -> Option<Rational> {
    let p = (a.numer as int) * (b.numer as int);
    let d = (a.denom as int) * (b.denom as int);
    if a.denom != 0 && b.denom != 0 && in_range(p) && in_range(d) {
        Some(rat_norm(p, d))
    } else {
        None
    }
}

pub open spec fn rat_div_spec(a: Rational, b: Rational) -> Option<Rational> {
    let p = (a.numer as int) * (b.denom as int);
    let q = (a.denom as int) * (b.numer as int);
    if a.denom != 0 && b.denom != 0 && b.numer != 0 && in_range(p) && in_range(q) {
        Some(rat_norm(p, q))
    } else {
        None
    }
}

/// The remainder rule used here, chosen and documented deliberately since
/// exact-rational modulo has no single standard: `a - trunc(a / b) * b`, the
/// truncated remainder, whose sign follows the dividend, extended to
/// non-integral operands. This is the rule of `%` on `num_rational::Ratio`.
/// It differs from a floor-based rule on negative dividends even for
/// integers: here `-7 mod 3` is `-1`, where the floor rule would give `2`.
pub open spec fn rat_rem_spec(a: Rational, b: Rational) -> Option<Rational> {
    let p = (a.numer as int) * (b.denom as int);
    let q = (b.numer as int) * (a.denom as int);
    let d = (a.denom as int) * (b.denom as int);
    if a.denom != 0 && b.denom != 0 && b.numer != 0 && in_range(p) && in_range(q) && in_range(
        d,
    ) {
        let t = trunc_div(p, q);
        Some(rat_norm(p - t * q, d))
    } else {
        None
    }
}

pub open spec fn rat_new_spec(n: i64, d: i64) -> Option<Rational> {
    if d != 0 && n != i64::MIN && d != i64::MIN {
        Some(rat_norm(n as int, d as int))
    } else {
        None
    }
}

/// Relies on `num_rational::Ratio::<i64>::new`, which puts the fraction into
/// lowest terms with a positive denominator.
#[verifier::external_body]
fn ratio_new(n: i64, d: i64) -> (r: Rational)
    requires
        d != 0,
        n != i64::MIN,
        d != i64::MIN,
    ensures
        r == rat_norm(n as int, d as int),
        r.wf(),
{
    let q = num_rational::Rational64::new(n, d);
    Rational { numer: *q.numer(), denom: *q.denom() }
}

/// Relies on `+` of `num_rational::Ratio::<i64>`: the exact sum, reduced to
/// lowest terms with a positive denominator.
#[verifier::external_body]
fn rat_add_raw(a: Rational, b: Rational) -> (r: Rational)
    requires
        a.denom != 0,
        b.denom != 0,
        in_range((a.numer as int) * (b.denom as int)),
        in_range((b.numer as int) * (a.denom as int)),
        in_range((a.denom as int) * (b.denom as int)),
        in_range((a.numer as int) * (b.denom as int) + (b.numer as int) * (a.denom as int)),
    ensures
        r == rat_norm(
            (a.numer as int) * (b.denom as int) + (b.numer as int) * (a.denom as int),
            (a.denom as int) * (b.denom as int),
        ),
        r.wf(),
{
    let x = num_rational::Rational64::new_raw(a.numer, a.denom);
    let y = num_rational::Rational64::new_raw(b.numer, b.denom);
    let z = x + y;
    Rational { numer: *z.numer(), denom: *z.denom() }
}

/// Relies on `-` of `num_rational::Ratio::<i64>`: the exact difference,
/// reduced to lowest terms with a positive denominator.
#[verifier::external_body]
fn rat_sub_raw(a: Rational, b: Rational) -> (r: Rational)
    requires
        a.denom != 0,
        b.denom != 0,
        in_range((a.numer as int) * (b.denom as int)),
        in_range((b.numer as int) * (a.denom as int)),
        in_range((a.denom as int) * (b.denom as int)),
        in_range((a.numer as int) * (b.denom as int) - (b.numer as int) * (a.denom as int)),
    ensures
        r == rat_norm(
            (a.numer as int) * (b.denom as int) - (b.numer as int) * (a.denom as int),
            (a.denom as int) * (b.denom as int),
        ),
        r.wf(),
{
    let x = num_rational::Rational64::new_raw(a.numer, a.denom);
    let y = num_rational::Rational64::new_raw(b.numer, b.denom);
    let z = x - y;
    Rational { numer: *z.numer(), denom: *z.denom() }
}

/// Relies on `*` of `num_rational::Ratio::<i64>`: the exact product, reduced
/// to lowest terms with a positive denominator.
#[verifier::external_body]
fn rat_mul_raw(a: Rational, b: Rational) -> (r: Rational)
    requires
        a.denom != 0,
        b.denom != 0,
        in_range((a.numer as int) * (b.numer as int)),
        in_range((a.denom as int) * (b.denom as int)),
    ensures
        r == rat_norm((a.numer as int) * (b.numer as int), (a.denom as int) * (b.denom as int)),
        r.wf(),
{
    let x = num_rational::Rational64::new_raw(a.numer, a.denom);
    let y = num_rational::Rational64::new_raw(b.numer, b.denom);
    let z = x * y;
    Rational { numer: *z.numer(), denom: *z.denom() }
}

/// Relies on `/` of `num_rational::Ratio::<i64>`: the exact quotient, reduced
/// to lowest terms with a positive denominator.
#[verifier::external_body]
fn rat_div_raw(a: Rational, b: Rational) -> (r: Rational)
    requires
        a.denom != 0,
        b.denom != 0,
        b.numer != 0,
        in_range((a.numer as int) * (b.denom as int)),
        in_range((a.denom as int) * (b.numer as int)),
    ensures
        r == rat_norm((a.numer as int) * (b.denom as int), (a.denom as int) * (b.numer as int)),
        r.wf(),
{
    let x = num_rational::Rational64::new_raw(a.numer, a.denom);
    let y = num_rational::Rational64::new_raw(b.numer, b.denom);
    let z = x / y;
    Rational { numer: *z.numer(), denom: *z.denom() }
}

/// Relies on `%` of `num_rational::Ratio::<i64>`: the truncated remainder
/// `a - trunc(a / b) * b`, reduced to lowest terms with a positive
/// denominator.
#[verifier::external_body]
fn rat_rem_raw(a: Rational, b: Rational) -> (r: Rational)
    requires
        a.denom != 0,
        b.denom != 0,
        b.numer != 0,
        in_range((a.numer as int) * (b.denom as int)),
        in_range((b.numer as int) * (a.denom as int)),
        in_range((a.denom as int) * (b.denom as int)),
    ensures
        r == rat_norm(
            (a.numer as int) * (b.denom as int) - trunc_div(
                (a.numer as int) * (b.denom as int),
                (b.numer as int) * (a.denom as int),
            ) * ((b.numer as int) * (a.denom as int)),
            (a.denom as int) * (b.denom as int),
        ),
        r.wf(),
{
    let x = num_rational::Rational64::new_raw(a.numer, a.denom);
    let y = num_rational::Rational64::new_raw(b.numer, b.denom);
    let z = x % y;
    Rational { numer: *z.numer(), denom: *z.denom() }
}

/// Checks that `x * y` stays within `[-i64::MAX, i64::MAX]`.
fn mul_in_range(x: i64, y: i64) -> (r: Option<i64>)
    ensures
        match r {
            Some(p) => p as int == (x as int) * (y as int) && in_range(p as int),
            None => !in_range((x as int) * (y as int)),
        },
{
    match x.checked_mul(y) {
        Some(p) => {
            if p == i64::MIN {
                None
            } else {
                Some(p)
            }
        }
        None => None,
    }
}

impl Rational {
    /// Builds the rational `n / d` in lowest terms. `None` when `d` is zero,
    /// or when an operand's magnitude exceeds `i64::MAX`.
    pub fn new(n: i64, d: i64) -> (r: Option<Rational>)
        ensures
            r == rat_new_spec(n, d),
            r matches Some(x) ==> x.wf(),
    {
        if d != 0 && n != i64::MIN && d != i64::MIN {
            Some(ratio_new(n, d))
        } else {
            None
        }
    }

    /// The rational `n / 1`.
    pub fn from_integer(n: i64) -> (r: Rational)
        ensures
            r == (Rational { numer: n, denom: 1 }),
            r.wf(),
    {
        proof {
            lemma_integer_wf(n);
        }
        Rational { numer: n, denom: 1 }
    }

    pub fn is_zero(&self) -> (r: bool)
        ensures
            r == (self.numer == 0),
    {
        self.numer == 0
    }
}

pub proof fn lemma_integer_wf(n: i64)
    ensures
        (Rational { numer: n, denom: 1 }).wf(),
{
    assert(abs_int(1) == 1);
    assert(abs_int(n as int) % 1 == 0);
    assert(gcd_nat(1, 0) == 1);
    assert(gcd_nat(abs_int(n as int), 1) == 1);
    assert((n as int) / 1 == n as int);
    assert((1 as int) / 1 == 1 as int);
    assert(rat_norm(n as int, 1) == Rational { numer: n, denom: 1 });
}

/// The sum in lowest terms, or `None` when an intermediate leaves the
/// machine range.
pub fn rat_add(a: Rational, b: Rational) -> (r: Option<Rational>)
    ensures
        r == rat_add_spec(a, b),
        r matches Some(x) ==> x.wf(),
{
    if a.denom == 0 || b.denom == 0 {
        return None;
    }
    let p1 = mul_in_range(a.numer, b.denom);
    let p2 = mul_in_range(b.numer, a.denom);
    let d = mul_in_range(a.denom, b.denom);
    match (p1, p2, d) {
        (Some(p1v), Some(p2v), Some(_dv)) => {
            match p1v.checked_add(p2v) {
                Some(s) => {
                    if s == i64::MIN {
                        None
                    } else {
                        Some(rat_add_raw(a, b))
                    }
                }
                None => None,
            }
        }
        _ => None,
    }
}

/// The difference in lowest terms, or `None` when an intermediate leaves the
/// machine range.
pub fn rat_sub(a: Rational, b: Rational) -> (r: Option<Rational>)
    ensures
        r == rat_sub_spec(a, b),
        r matches Some(x) ==> x.wf(),
{
    if a.denom == 0 || b.denom == 0 {
        return None;
    }
    let p1 = mul_in_range(a.numer, b.denom);
    let p2 = mul_in_range(b.numer, a.denom);
    let d = mul_in_range(a.denom, b.denom);
    match (p1, p2, d) {
        (Some(p1v), Some(p2v), Some(_dv)) => {
            match p1v.checked_sub(p2v) {
                Some(s) => {
                    if s == i64::MIN {
                        None
                    } else {
                        Some(rat_sub_raw(a, b))
                    }
                }
                None => None,
            }
        }
        _ => None,
    }
}

/// The product in lowest terms, or `None` when an intermediate leaves the
/// machine range.
pub fn rat_mul(a: Rational, b: Rational) -> (r: Option<Rational>)
    ensures
        r == rat_mul_spec(a, b),
        r matches Some(x) ==> x.wf(),
{
    if a.denom == 0 || b.denom == 0 {
        return None;
    }
    let p = mul_in_range(a.numer, b.numer);
    let d = mul_in_range(a.denom, b.denom);
    match (p, d) {
        (Some(_), Some(_)) => Some(rat_mul_raw(a, b)),
        _ => None,
    }
}

/// The quotient in lowest terms; `None` when the divisor is zero or an
/// intermediate leaves the machine range.
pub fn rat_div(a: Rational, b: Rational) -> (r: Option<Rational>)
    ensures
        r == rat_div_spec(a, b),
        r matches Some(x) ==> x.wf(),
{
    if a.denom == 0 || b.denom == 0 || b.numer == 0 {
        return None;
    }
    let p = mul_in_range(a.numer, b.denom);
    let q = mul_in_range(a.denom, b.numer);
    match (p, q) {
        (Some(_), Some(_)) => Some(rat_div_raw(a, b)),
        _ => None,
    }
}

/// The truncated remainder `a - trunc(a / b) * b` in lowest terms; `None`
/// when the divisor is zero or an intermediate leaves the machine range.
pub fn rat_rem(a: Rational, b: Rational) -> (r: Option<Rational>)
    ensures
        r == rat_rem_spec(a, b),
        r matches Some(x) ==> x.wf(),
{
    if a.denom == 0 || b.denom == 0 || b.numer == 0 {
        return None;
    }
    let p = mul_in_range(a.numer, b.denom);
    let q = mul_in_range(b.numer, a.denom);
    let d = mul_in_range(a.denom, b.denom);
    match (p, q, d) {
        (Some(_), Some(_), Some(_)) => Some(rat_rem_raw(a, b)),
        _ => None,
    }
}

} // verus!
