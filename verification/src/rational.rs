use num_rational::Ratio;
use num_traits::CheckedAdd;
use vstd::arithmetic::mul::lemma_mul_is_distributive_add_other_way;
use vstd::prelude::*;

verus! {

/// A fraction `numer / denom` with a positive denominator. Every measured
/// quantity of a recipe (times, temperatures, masses, volumes, counts) is
/// kept as such a fraction of its base unit.
///
/// The fraction is not necessarily in lowest terms: two `Rational`s denote
/// the same number when `same_value` holds of them.
#[derive(Clone, Copy, Debug)]
pub struct Rational {
    /// numerator
    pub numer: i64,
    /// denominator, always positive
    pub denom: i64,
}

/// A mathematical fraction: numerator and denominator.
pub type Frac = (int, int);

/// `a + b` on mathematical fractions, without reduction.
pub open spec fn frac_add(a: Frac, b: Frac) -> Frac {
    (a.0 * b.1 + b.0 * a.1, a.1 * b.1)
}

/// `a` and `b` denote the same number (for nonzero denominators).
pub open spec fn frac_eq(a: Frac, b: Frac) -> bool {
    a.0 * b.1 == b.0 * a.1
}

/// The fraction zero.
pub open spec fn frac_zero() -> Frac {
    (0, 1)
}

impl Rational {
    /// The mathematical fraction this value denotes.
    pub open spec fn value(self) -> Frac {
        (self.numer as int, self.denom as int)
    }

    /// The invariant of every `Rational`: the denominator is positive.
    pub open spec fn wf(self) -> bool {
        self.denom > 0
    }

    /// `zero` returns `0/1`.
    pub fn zero() -> (r: Rational)
        ensures
            r.wf(),
            r.value() == frac_zero(),
    {
        Rational { numer: 0, denom: 1 }
    }

    /// `from_integer` returns `n/1`.
    pub fn from_integer(n: i64) -> (r: Rational)
        ensures
            r.wf(),
            r.value() == (n as int, 1int),
    {
        Rational { numer: n, denom: 1 }
    }

    /// `new` builds the fraction `numer / denom` with its sign moved to the
    /// numerator. It returns `None` when `denom` is zero, and when moving the
    /// sign would overflow (a negative denominator together with `i64::MIN`
    /// in either place).
    pub fn new(numer: i64, denom: i64) -> (r: Option<Rational>)
        ensures
            r is Some <==> (denom > 0 || (denom < 0 && denom != i64::MIN && numer != i64::MIN)),
            r matches Some(q) ==> q.wf() && frac_eq(q.value(), (numer as int, denom as int)),
            r matches Some(q) ==> (denom > 0 ==> q.numer == numer && q.denom == denom),
            r matches Some(q) ==> (denom < 0 ==> q.numer == -numer && q.denom == -denom),
    {
        if denom > 0 {
            Some(Rational { numer, denom })
        } else if denom < 0 && denom != i64::MIN && numer != i64::MIN {
            let r = Rational { numer: -numer, denom: -denom };
            assert(frac_eq(r.value(), (numer as int, denom as int))) by (nonlinear_arith)
                requires
                    r.numer == -numer,
                    r.denom == -denom,
            ;
            Some(r)
        } else {
            None
        }
    }

    /// `same_value` decides whether `self` and `other` denote the same number.
    pub fn same_value(&self, other: &Rational) -> (b: bool)
        ensures
            b == frac_eq(self.value(), other.value()),
    {
        proof {
            lemma_i64_product_fits(self.numer, other.denom);
            lemma_i64_product_fits(other.numer, self.denom);
        }
        let l: i128 = (self.numer as i128) * (other.denom as i128);
        let r: i128 = (other.numer as i128) * (self.denom as i128);
        l == r
    }

    /// `is_zero` decides whether the fraction is zero.
    pub fn is_zero(&self) -> (b: bool)
        ensures
            b == (self.numer == 0),
    {
        self.numer == 0
    }

    /// `checked_add` adds two fractions as `num_rational` does, reducing
    /// the sum to lowest terms. It returns `None` when the sum, or a value
    /// met on the way to it, does not fit in `i64`.
    pub fn checked_add(&self, other: &Rational) -> (r: Option<Rational>)
        requires
            self.wf(),
            other.wf(),
        ensures
            opt_pair(r) == ratio_sum(pair_of(*self), pair_of(*other)),
            r matches Some(s) ==> s.wf() && frac_eq(s.value(), frac_add(self.value(), other.value())),
            self.denom == 1 && other.denom == 1 ==> (r is Some <==> i64::MIN <= self.numer + other.numer
                <= i64::MAX),
            self.denom == 1 && other.denom == 1 && r is Some ==> r == Some(
                Rational { numer: (self.numer + other.numer) as i64, denom: 1 },
            ),
    {
        ratio_checked_add(*self, *other)
    }
}

/// The numerator and denominator of a fraction.
pub open spec fn pair_of(r: Rational) -> (i64, i64) {
    (r.numer, r.denom)
}

/// The numerator and denominator of an optional fraction.
pub open spec fn opt_pair(r: Option<Rational>) -> Option<(i64, i64)> {
    match r {
        Some(s) => Some(pair_of(s)),
        None => None,
    }
}

/// What `<Ratio<i64> as CheckedAdd>::checked_add` of `num_rational` returns
/// for `a + b`, each fraction given by numerator and denominator: `None`
/// where the common denominator, a scaled numerator or their sum overflows
/// `i64`, otherwise the sum reduced to lowest terms.
pub uninterp spec fn ratio_sum(a: (i64, i64), b: (i64, i64)) -> Option<(i64, i64)>;

/// Adds two fractions with `<Ratio<i64> as CheckedAdd>::checked_add` of
/// `num_rational`. Claimed of it: with positive denominators it does not
/// panic; its result is `ratio_sum` of the arguments; when that is `Some`,
/// it has a positive denominator and equals the mathematical sum. Two whole
/// numbers (denominator 1) add up exactly when their sum fits in `i64`, to
/// that sum over 1 (the common denominator is 1, so nothing else can
/// overflow and nothing is reduced). For other fractions, which inputs give
/// `None` (an overflow on the way) is named, not described.
#[verifier::external_body]
fn ratio_checked_add(a: Rational, b: Rational) -> (r: Option<Rational>)
    requires
        a.wf(),
        b.wf(),
    ensures
        opt_pair(r) == ratio_sum(pair_of(a), pair_of(b)),
        r matches Some(s) ==> s.wf() && frac_eq(s.value(), frac_add(a.value(), b.value())),
        a.denom == 1 && b.denom == 1 ==> (r is Some <==> i64::MIN <= a.numer + b.numer <= i64::MAX),
        a.denom == 1 && b.denom == 1 && r is Some ==> r == Some(
            Rational { numer: (a.numer + b.numer) as i64, denom: 1 },
        ),
{
    let x = Ratio::new_raw(a.numer, a.denom);
    let y = Ratio::new_raw(b.numer, b.denom);
    x.checked_add(&y).map(|s| Rational { numer: *s.numer(), denom: *s.denom() })
}

/// The product of two `i64` values fits in `i128`.
proof fn lemma_i64_product_fits(a: i64, b: i64)
    ensures
        i128::MIN <= (a as int) * (b as int) <= i128::MAX,
{
    let x = a as int;
    let y = b as int;
    assert(-0x8000_0000_0000_0000 <= x <= 0x7fff_ffff_ffff_ffff);
    assert(-0x8000_0000_0000_0000 <= y <= 0x7fff_ffff_ffff_ffff);
    assert(x * y <= 0x4000_0000_0000_0000_0000_0000_0000_0000) by (nonlinear_arith)
        requires
            -0x8000_0000_0000_0000 <= x <= 0x7fff_ffff_ffff_ffff,
            -0x8000_0000_0000_0000 <= y <= 0x7fff_ffff_ffff_ffff,
    ;
    assert(x * y >= -0x4000_0000_0000_0000_0000_0000_0000_0000) by (nonlinear_arith)
        requires
            -0x8000_0000_0000_0000 <= x <= 0x7fff_ffff_ffff_ffff,
            -0x8000_0000_0000_0000 <= y <= 0x7fff_ffff_ffff_ffff,
    ;
}

/// `frac_eq` is transitive through a fraction with a nonzero denominator.
pub proof fn lemma_frac_eq_trans(a: Frac, b: Frac, c: Frac)
    requires
        frac_eq(a, b),
        frac_eq(b, c),
        b.1 != 0,
    ensures
        frac_eq(a, c),
{
    assert(a.0 * c.1 * b.1 == c.0 * a.1 * b.1) by (nonlinear_arith)
        requires
            a.0 * b.1 == b.0 * a.1,
            b.0 * c.1 == c.0 * b.1,
    ;
    assert(a.0 * c.1 == c.0 * a.1) by (nonlinear_arith)
        requires
            a.0 * c.1 * b.1 == c.0 * a.1 * b.1,
            b.1 != 0,
    ;
}

/// Adding the same fraction to two equal fractions gives equal sums.
pub proof fn lemma_frac_add_congruent(a: Frac, b: Frac, x: Frac)
    requires
        frac_eq(a, b),
    ensures
        frac_eq(frac_add(a, x), frac_add(b, x)),
{
    let (a0, a1, b0, b1, x0, x1) = (a.0, a.1, b.0, b.1, x.0, x.1);
    lemma_mul_is_distributive_add_other_way(b1 * x1, a0 * x1, x0 * a1);
    lemma_mul_is_distributive_add_other_way(a1 * x1, b0 * x1, x0 * b1);
    assert((a0 * x1) * (b1 * x1) == (a0 * b1) * (x1 * x1)) by (nonlinear_arith);
    assert((b0 * x1) * (a1 * x1) == (b0 * a1) * (x1 * x1)) by (nonlinear_arith);
    assert((x0 * a1) * (b1 * x1) == (x0 * b1) * (a1 * x1)) by (nonlinear_arith);
}

/// The sum of two fractions with positive denominators has a positive
/// denominator.
pub proof fn lemma_frac_add_pos(a: Frac, b: Frac)
    requires
        a.1 > 0,
        b.1 > 0,
    ensures
        frac_add(a, b).1 > 0,
{
    assert(a.1 * b.1 > 0) by (nonlinear_arith)
        requires
            a.1 > 0,
            b.1 > 0,
    ;
}

/// Adding zero changes nothing.
pub proof fn lemma_frac_add_zero(a: Frac)
    ensures
        frac_add(a, frac_zero()) == a,
{
    assert(a.0 * 1 + 0 * a.1 == a.0 && a.1 * 1 == a.1) by (nonlinear_arith);
}

/// Zero plus a fraction is that fraction.
pub proof fn lemma_frac_zero_add(a: Frac)
    ensures
        frac_add(frac_zero(), a) == a,
{
    assert(0 * a.1 + a.0 * 1 == a.0 && 1 * a.1 == a.1) by (nonlinear_arith);
}

/// `x = s + v` and `s` equal to `t` give `x` equal to `t + v`.
pub proof fn lemma_frac_sum_step(x: Frac, s: Frac, t: Frac, v: Frac)
    requires
        frac_eq(x, frac_add(s, v)),
        frac_eq(s, t),
        s.1 > 0,
        v.1 > 0,
    ensures
        frac_eq(x, frac_add(t, v)),
{
    lemma_frac_add_congruent(s, t, v);
    lemma_frac_add_pos(s, v);
    lemma_frac_eq_trans(x, frac_add(s, v), frac_add(t, v));
}

} // verus!
