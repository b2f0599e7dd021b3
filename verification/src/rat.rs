//! Exact fractions. Metric values are carried as fractions of machine
//! integers so that merging and weighting accumulators is exact arithmetic:
//! the algebraic laws of the aggregation (commutativity, associativity,
//! composition of weights) hold on the nose, which no fixed-point rounding
//! scheme would give.

use vstd::prelude::*;

verus! {

/// Mathematical model of a fraction: an unbounded numerator over an
/// unbounded (positive) denominator. Fractions are kept unreduced, so two
/// model values are interchangeable exactly when they are equal field-wise.
pub ghost struct RatV {
    pub n: int,
    pub d: int,
}

/// A fraction `num / den` of machine integers. Well-formed values have
/// `den >= 1`.
#[derive(Clone, Copy, Debug, PartialEq, Eq, Structural)]
pub struct Rat {
    pub num: i128,
    pub den: i128,
}

impl View for Rat {
    type V = RatV;

    open spec fn view(&self) -> RatV {
        RatV { n: self.num as int, d: self.den as int }
    }
}

/// A fraction denotes a number only when its denominator is positive.
pub open spec fn rat_wf(a: RatV) -> bool {
    a.d >= 1
}

/// The zero fraction, identity of `rat_add`.
pub open spec fn rat_zero() -> RatV {
    RatV { n: 0, d: 1 }
}

/// Exact sum of two fractions, on the common denominator `a.d * b.d`.
pub open spec fn rat_add(a: RatV, b: RatV) -> RatV {
    RatV { n: a.n * b.d + b.n * a.d, d: a.d * b.d }
}

/// Exact product of two fractions.
pub open spec fn rat_mul(a: RatV, b: RatV) -> RatV {
    RatV { n: a.n * b.n, d: a.d * b.d }
}

/// Exact division of a fraction by a positive integer count.
pub open spec fn rat_div_count(a: RatV, k: int) -> RatV {
    RatV { n: a.n, d: a.d * k }
}

pub open spec fn fits_i128(x: int) -> bool {
    i128::MIN <= x <= i128::MAX
}

/// The sum of `a` and `b` can be computed without overflowing `i128`.
pub open spec fn rat_add_fits(a: RatV, b: RatV) -> bool {
    &&& fits_i128(a.n * b.d)
    &&& fits_i128(b.n * a.d)
    &&& fits_i128(a.n * b.d + b.n * a.d)
    &&& fits_i128(a.d * b.d)
}

/// The product of `a` and `b` can be computed without overflowing `i128`.
pub open spec fn rat_mul_fits(a: RatV, b: RatV) -> bool {
    &&& fits_i128(a.n * b.n)
    &&& fits_i128(a.d * b.d)
}

/// Division of `a` by the count `k` can be computed without overflow.
pub open spec fn rat_div_fits(a: RatV, k: int) -> bool {
    fits_i128(a.d * k)
}

impl Rat {
    /// A value is well-formed when its denominator is positive.
    pub open spec fn wf(self) -> bool {
        rat_wf(self@)
    }

    /// The zero fraction.
    pub fn zero() -> (r: Rat)
        ensures
            r@ == rat_zero(),
            r.wf(),
    {
        Rat { num: 0, den: 1 }
    }

    /// Builds the fraction `num / den`.
    pub fn new(num: i128, den: i128) -> (r: Rat)
        requires
            den >= 1,
        ensures
            r@ == (RatV { n: num as int, d: den as int }),
            r.wf(),
    {
        Rat { num, den }
    }

    /// Builds the whole number `num / 1`.
    pub fn integer(num: i128) -> (r: Rat)
        ensures
            r@ == (RatV { n: num as int, d: 1 }),
            r.wf(),
    {
        Rat { num, den: 1 }
    }

    /// Exact sum, or `None` when the unreduced result does not fit in
    /// machine integers.
    pub fn checked_add(self, other: Rat) -> (r: Option<Rat>)
        requires
            self.wf(),
            other.wf(),
        ensures
            match r {
                Some(s) => rat_add_fits(self@, other@) && s@ == rat_add(self@, other@) && s.wf(),
                None => !rat_add_fits(self@, other@),
            },
    {
        match (
            self.num.checked_mul(other.den),
            other.num.checked_mul(self.den),
            self.den.checked_mul(other.den),
        ) {
            (Some(p1), Some(p2), Some(d)) => match p1.checked_add(p2) {
                Some(n) => {
                    proof {
                        lemma_rat_ops_wf(self@, other@);
                    }
                    Some(Rat { num: n, den: d })
                },
                None => None,
            },
            _ => None,
        }
    }

    /// Exact product, or `None` when the result does not fit.
    pub fn checked_mul(self, other: Rat) -> (r: Option<Rat>)
        requires
            self.wf(),
            other.wf(),
        ensures
            match r {
                Some(s) => rat_mul_fits(self@, other@) && s@ == rat_mul(self@, other@) && s.wf(),
                None => !rat_mul_fits(self@, other@),
            },
    {
        match (self.num.checked_mul(other.num), self.den.checked_mul(other.den)) {
            (Some(n), Some(d)) => {
                proof {
                    lemma_rat_ops_wf(self@, other@);
                }
                Some(Rat { num: n, den: d })
            },
            _ => None,
        }
    }

    /// Exact division by a positive sample count, or `None` when the
    /// enlarged denominator does not fit.
    pub fn checked_div_count(self, k: u64) -> (r: Option<Rat>)
        requires
            self.wf(),
            k >= 1,
        ensures
            match r {
                Some(s) => rat_div_fits(self@, k as int) && s@ == rat_div_count(self@, k as int)
                    && s.wf(),
                None => !rat_div_fits(self@, k as int),
            },
    {
        match self.den.checked_mul(k as i128) {
            Some(d) => {
                proof {
                    assert(self.den as int * (k as i128) as int >= 1) by (nonlinear_arith)
                        requires
                            self.den as int >= 1,
                            (k as i128) as int >= 1,
                    ;
                }
                Some(Rat { num: self.num, den: d })
            },
            None => None,
        }
    }
}

/// Addition of fractions is commutative, exactly (the unreduced
/// representatives coincide).
pub proof fn lemma_rat_add_comm(a: RatV, b: RatV)
    ensures
        rat_add(a, b) == rat_add(b, a),
{
    assert(a.n * b.d + b.n * a.d == b.n * a.d + a.n * b.d) by (nonlinear_arith);
    assert(a.d * b.d == b.d * a.d) by (nonlinear_arith);
}

/// Addition of fractions is associative, exactly.
pub proof fn lemma_rat_add_assoc(a: RatV, b: RatV, c: RatV)
    ensures
        rat_add(rat_add(a, b), c) == rat_add(a, rat_add(b, c)),
{
    assert((a.n * b.d + b.n * a.d) * c.d == (a.n * b.d) * c.d + (b.n * a.d) * c.d)
        by (nonlinear_arith);
    assert((b.n * c.d + c.n * b.d) * a.d == (b.n * c.d) * a.d + (c.n * b.d) * a.d)
        by (nonlinear_arith);
    assert(a.n * (b.d * c.d) == (a.n * b.d) * c.d) by (nonlinear_arith);
    assert((b.n * a.d) * c.d == (b.n * c.d) * a.d) by (nonlinear_arith);
    assert(c.n * (a.d * b.d) == (c.n * b.d) * a.d) by (nonlinear_arith);
    assert((a.d * b.d) * c.d == a.d * (b.d * c.d)) by (nonlinear_arith);
}

/// The zero fraction is an identity for addition.
pub proof fn lemma_rat_add_zero(a: RatV)
    ensures
        rat_add(a, rat_zero()) == a,
        rat_add(rat_zero(), a) == a,
{
}

/// Scaling twice composes into scaling once by the product of the weights.
pub proof fn lemma_rat_mul_compose(v: RatV, w1: RatV, w2: RatV)
    ensures
        rat_mul(rat_mul(v, w1), w2) == rat_mul(v, rat_mul(w1, w2)),
{
    assert((v.n * w1.n) * w2.n == v.n * (w1.n * w2.n)) by (nonlinear_arith);
    assert((v.d * w1.d) * w2.d == v.d * (w1.d * w2.d)) by (nonlinear_arith);
}

/// Well-formedness is preserved by the arithmetic on fractions.
pub proof fn lemma_rat_ops_wf(a: RatV, b: RatV)
    requires
        rat_wf(a),
        rat_wf(b),
    ensures
        rat_wf(rat_add(a, b)),
        rat_wf(rat_mul(a, b)),
{
    assert(a.d * b.d >= 1) by (nonlinear_arith)
        requires
            a.d >= 1,
            b.d >= 1,
    ;
}

} // verus!
