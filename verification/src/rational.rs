//! Exact rational arithmetic.
//!
//! Every coordinate the conversion algorithm produces is a rational
//! number: a normalized device coordinate is `(2*p - s) / s` for a pixel
//! coordinate `p` on a screen axis of `s` pixels, and a rescaled texture
//! coordinate is an anchor plus a texture width times a retained
//! fraction. Carrying numerator and denominator separately keeps the
//! algorithm exact, so its geometric properties can be stated as
//! equalities rather than error bounds.

use vstd::prelude::*;

verus! {

/// A mathematical rational, used only in specifications.
pub ghost struct Q {
    pub n: int,
    pub d: int,
}

/// A well-formed rational keeps its denominator positive.
pub open spec fn q_wf(q: Q) -> bool {
    q.d > 0
}

/// Equality of the represented values, by cross-multiplication.
pub open spec fn q_eq(a: Q, b: Q) -> bool {
    a.n * b.d == b.n * a.d
}

/// `a < b` on the represented values; sound when both denominators are
/// positive.
pub open spec fn q_lt(a: Q, b: Q) -> bool {
    a.n * b.d < b.n * a.d
}

pub open spec fn q_add(a: Q, b: Q) -> Q {
    Q { n: a.n * b.d + b.n * a.d, d: a.d * b.d }
}

pub open spec fn q_sub(a: Q, b: Q) -> Q {
    Q { n: a.n * b.d - b.n * a.d, d: a.d * b.d }
}

pub open spec fn q_mul(a: Q, b: Q) -> Q {
    Q { n: a.n * b.n, d: a.d * b.d }
}

pub open spec fn q_div(a: Q, b: Q) -> Q {
    Q { n: a.n * b.d, d: a.d * b.n }
}

/// An executable rational number. The operations below keep the
/// denominator positive; they do not reduce fractions, so each carries
/// the bounds under which its arithmetic cannot overflow.
#[derive(Clone, Copy, Debug, PartialEq, Eq, Structural)]
pub struct Rat {
    pub num: i128,
    pub den: i128,
}

impl View for Rat {
    type V = Q;

    open spec fn view(&self) -> Q {
        Q { n: self.num as int, d: self.den as int }
    }
}

pub open spec fn rat_wf(r: Rat) -> bool {
    r.den > 0
}

impl Rat {
    /// Builds the rational `num / den`.
    pub fn new(num: i128, den: i128) -> (r: Rat)
        requires
            den > 0,
        ensures
            r@ == (Q { n: num as int, d: den as int }),
            rat_wf(r),
    {
        Rat { num, den }
    }
}

/// Rational equality is transitive through a rational whose denominator
/// is not zero.
pub proof fn lemma_q_eq_trans(a: Q, b: Q, c: Q)
    requires
        q_eq(a, b),
        q_eq(b, c),
        b.d != 0,
    ensures
        q_eq(a, c),
{
    assert(a.n * c.d == c.n * a.d) by (nonlinear_arith)
        requires
            a.n * b.d == b.n * a.d,
            b.n * c.d == c.n * b.d,
            b.d != 0,
    ;
}

/// Multiplication respects rational equality.
pub proof fn lemma_q_eq_mul(a1: Q, a2: Q, b1: Q, b2: Q)
    requires
        q_eq(a1, a2),
        q_eq(b1, b2),
    ensures
        q_eq(q_mul(a1, b1), q_mul(a2, b2)),
{
    assert((a1.n * b1.n) * (a2.d * b2.d) == (a2.n * b2.n) * (a1.d * b1.d)) by (nonlinear_arith)
        requires
            a1.n * a2.d == a2.n * a1.d,
            b1.n * b2.d == b2.n * b1.d,
    ;
}

/// Addition respects rational equality.
pub proof fn lemma_q_eq_add(a1: Q, a2: Q, b1: Q, b2: Q)
    requires
        q_eq(a1, a2),
        q_eq(b1, b2),
    ensures
        q_eq(q_add(a1, b1), q_add(a2, b2)),
{
    assert((a1.n * b1.d) * (a2.d * b2.d) == (a2.n * b2.d) * (a1.d * b1.d)) by (nonlinear_arith)
        requires
            a1.n * a2.d == a2.n * a1.d,
    ;
    assert((b1.n * a1.d) * (a2.d * b2.d) == (b2.n * a2.d) * (a1.d * b1.d)) by (nonlinear_arith)
        requires
            b1.n * b2.d == b2.n * b1.d,
    ;
    assert((a1.n * b1.d + b1.n * a1.d) * (a2.d * b2.d) == (a2.n * b2.d + b2.n * a2.d) * (a1.d
        * b1.d)) by (nonlinear_arith)
        requires
            (a1.n * b1.d) * (a2.d * b2.d) == (a2.n * b2.d) * (a1.d * b1.d),
            (b1.n * a1.d) * (a2.d * b2.d) == (b2.n * a2.d) * (a1.d * b1.d),
    ;
}

/// Subtraction respects rational equality.
pub proof fn lemma_q_eq_sub(a1: Q, a2: Q, b1: Q, b2: Q)
    requires
        q_eq(a1, a2),
        q_eq(b1, b2),
    ensures
        q_eq(q_sub(a1, b1), q_sub(a2, b2)),
{
    assert((a1.n * b1.d) * (a2.d * b2.d) == (a2.n * b2.d) * (a1.d * b1.d)) by (nonlinear_arith)
        requires
            a1.n * a2.d == a2.n * a1.d,
    ;
    assert((b1.n * a1.d) * (a2.d * b2.d) == (b2.n * a2.d) * (a1.d * b1.d)) by (nonlinear_arith)
        requires
            b1.n * b2.d == b2.n * b1.d,
    ;
    assert((a1.n * b1.d - b1.n * a1.d) * (a2.d * b2.d) == (a2.n * b2.d - b2.n * a2.d) * (a1.d
        * b1.d)) by (nonlinear_arith)
        requires
            (a1.n * b1.d) * (a2.d * b2.d) == (a2.n * b2.d) * (a1.d * b1.d),
            (b1.n * a1.d) * (a2.d * b2.d) == (b2.n * a2.d) * (a1.d * b1.d),
    ;
}

/// Subtracting a term just added gives back that term, up to rational
/// equality.
pub proof fn lemma_q_add_sub(a: Q, x: Q)
    requires
        q_wf(a),
        q_wf(x),
    ensures
        q_eq(q_sub(q_add(a, x), a), x),
{
    let s = q_sub(q_add(a, x), a);
    assert(s.n == (a.n * x.d + x.n * a.d) * a.d - a.n * (a.d * x.d));
    assert(s.d == (a.d * x.d) * a.d);
    assert(((a.n * x.d + x.n * a.d) * a.d - a.n * (a.d * x.d)) * x.d == x.n * ((a.d * x.d) * a.d))
        by (nonlinear_arith);
}

} // verus!
