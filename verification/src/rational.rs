//! Exact rational scalars.
//!
//! [`Ratio`] is the mathematical model: an integer numerator over a positive
//! integer denominator, with no bound on either. [`Rat`] is the executable
//! counterpart, holding its numerator and denominator in 64-bit words; every
//! operation on it either returns the exact rational result or reports, with
//! `None`, that the result does not fit.

use vstd::prelude::*;

verus! {

/// Mathematical model of a rational scalar: `num / den`.
pub struct Ratio {
    pub num: int,
    pub den: int,
}

/// A model rational is well formed when its denominator is positive.
pub open spec fn r_wf(r: Ratio) -> bool {
    r.den > 0
}

/// `a` and `b` denote the same rational number (cross multiplication).
pub open spec fn r_same(a: Ratio, b: Ratio) -> bool {
    a.num * b.den == b.num * a.den
}

/// `a < b`, read under positive denominators.
pub open spec fn r_lt(a: Ratio, b: Ratio) -> bool {
    a.num * b.den < b.num * a.den
}

/// The exact difference `a - b`, as the unreduced fraction over `a.den * b.den`.
pub open spec fn r_sub(a: Ratio, b: Ratio) -> Ratio {
    Ratio { num: a.num * b.den - b.num * a.den, den: a.den * b.den }
}

/// The exact product `a * b`, as the unreduced fraction.
pub open spec fn r_mul(a: Ratio, b: Ratio) -> Ratio {
    Ratio { num: a.num * b.num, den: a.den * b.den }
}

/// The absolute value of `a`.
pub open spec fn r_abs(a: Ratio) -> Ratio {
    Ratio { num: if a.num < 0 { -a.num } else { a.num }, den: a.den }
}

/// The rational zero.
pub open spec fn r_zero() -> Ratio {
    Ratio { num: 0, den: 1 }
}

/// Whether a numerator fits the executable representation.
/// `i64::MIN` itself is excluded so that negation never overflows.
pub open spec fn i_fits(v: int) -> bool {
    -i64::MAX <= v <= i64::MAX
}

/// Whether a model rational fits the executable representation.
pub open spec fn r_fits(r: Ratio) -> bool {
    i_fits(r.num) && 1 <= r.den <= i64::MAX
}

/// An exact rational scalar in executable form.
#[derive(Clone, Copy, Debug)]
pub struct Rat {
    num: i64,
    den: i64,
}

impl View for Rat {
    type V = Ratio;

    closed spec fn view(&self) -> Ratio {
        Ratio { num: self.num as int, den: self.den as int }
    }
}

/// A product of two numerators or denominators stays well inside a 128-bit
/// word, so a sum or difference of two such products does too.
pub(crate) proof fn lemma_mul_fits_wide(a: int, b: int)
    by (nonlinear_arith)
    requires
        -i64::MAX <= a <= i64::MAX,
        -i64::MAX <= b <= i64::MAX,
    ensures
        -(i64::MAX * i64::MAX) <= a * b <= i64::MAX * i64::MAX,
{
}

/// A product of two positive denominators is a positive denominator.
pub(crate) proof fn lemma_den_mul(a: int, b: int)
    by (nonlinear_arith)
    requires
        1 <= a <= i64::MAX,
        1 <= b <= i64::MAX,
    ensures
        1 <= a * b <= i64::MAX * i64::MAX,
{
}

impl Rat {
    #[verifier::type_invariant]
    spec fn type_inv(self) -> bool {
        self.den > 0 && self.num > i64::MIN
    }

    /// Builds the rational `num / den`. The sign is carried by the numerator:
    /// a negative denominator is normalised away.
    pub fn new(num: i64, den: i64) -> (r: Rat)
        requires
            den != 0,
            num > i64::MIN,
            den > i64::MIN,
        ensures
            r@ == (if den > 0 {
                Ratio { num: num as int, den: den as int }
            } else {
                Ratio { num: -(num as int), den: -(den as int) }
            }),
            r_same(r@, Ratio { num: num as int, den: den as int }),
            r_wf(r@),
    {
        proof {
            if den < 0 {
                assert((-(num as int)) * (den as int) == (num as int) * (-(den as int)))
                    by (nonlinear_arith);
            }
        }
        if den > 0 {
            Rat { num, den }
        } else {
            Rat { num: -num, den: -den }
        }
    }

    /// The numerator; never `i64::MIN`, so its negation always fits.
    pub fn num(&self) -> (r: i64)
        ensures
            r == self@.num,
            r > i64::MIN,
    {
        proof {
            use_type_invariant(self);
        }
        self.num
    }

    /// The denominator; always positive.
    pub fn den(&self) -> (r: i64)
        ensures
            r == self@.den,
            r > 0,
    {
        proof {
            use_type_invariant(self);
        }
        self.den
    }

    /// The exact difference `self - other`, or `None` when it does not fit.
    pub fn sub(&self, other: &Rat) -> (r: Option<Rat>)
        ensures
            r matches Some(v) ==> v@ == r_sub(self@, other@),
            r is Some <==> r_fits(r_sub(self@, other@)),
    {
        proof {
            use_type_invariant(self);
            use_type_invariant(other);
            lemma_mul_fits_wide(self.num as int, other.den as int);
            lemma_mul_fits_wide(other.num as int, self.den as int);
            lemma_den_mul(self.den as int, other.den as int);
        }
        let num_wide: i128 = (self.num as i128) * (other.den as i128) - (other.num as i128)
            * (self.den as i128);
        let den_wide: i128 = (self.den as i128) * (other.den as i128);
        fit_ratio(num_wide, den_wide)
    }

    /// The exact product `self * other`, or `None` when it does not fit.
    pub fn mul(&self, other: &Rat) -> (r: Option<Rat>)
        ensures
            r matches Some(v) ==> v@ == r_mul(self@, other@),
            r is Some <==> r_fits(r_mul(self@, other@)),
    {
        proof {
            use_type_invariant(self);
            use_type_invariant(other);
            lemma_mul_fits_wide(self.num as int, other.num as int);
            lemma_den_mul(self.den as int, other.den as int);
        }
        let num_wide: i128 = (self.num as i128) * (other.num as i128);
        let den_wide: i128 = (self.den as i128) * (other.den as i128);
        fit_ratio(num_wide, den_wide)
    }

    /// The absolute value of `self`; always exact.
    pub fn abs(&self) -> (r: Rat)
        ensures
            r@ == r_abs(self@),
    {
        proof {
            use_type_invariant(self);
        }
        if self.num < 0 {
            Rat { num: -self.num, den: self.den }
        } else {
            Rat { num: self.num, den: self.den }
        }
    }

    /// Whether `self < other`, exactly.
    pub fn lt(&self, other: &Rat) -> (r: bool)
        ensures
            r == r_lt(self@, other@),
    {
        proof {
            use_type_invariant(self);
            use_type_invariant(other);
            lemma_mul_fits_wide(self.num as int, other.den as int);
            lemma_mul_fits_wide(other.num as int, self.den as int);
        }
        (self.num as i128) * (other.den as i128) < (other.num as i128) * (self.den as i128)
    }

    /// Whether `self` and `other` denote the same rational number, exactly.
    pub fn same_value(&self, other: &Rat) -> (r: bool)
        ensures
            r == r_same(self@, other@),
    {
        proof {
            use_type_invariant(self);
            use_type_invariant(other);
            lemma_mul_fits_wide(self.num as int, other.den as int);
            lemma_mul_fits_wide(other.num as int, self.den as int);
        }
        (self.num as i128) * (other.den as i128) == (other.num as i128) * (self.den as i128)
    }

    /// Whether `self` is zero.
    pub fn is_zero(&self) -> (r: bool)
        ensures
            r == r_same(self@, r_zero()),
    {
        proof {
            use_type_invariant(self);
        }
        self.num == 0
    }
}

/// Packs a numerator and a positive denominator, already exact in 128-bit
/// words, into a [`Rat`], or reports with `None` that they do not fit.
pub(crate) fn fit_ratio(num: i128, den: i128) -> (r: Option<Rat>)
    requires
        den > 0,
    ensures
        r matches Some(v) ==> v@ == (Ratio { num: num as int, den: den as int }),
        r is Some <==> r_fits((Ratio { num: num as int, den: den as int })),
{
    if num >= -(i64::MAX as i128) && num <= i64::MAX as i128 && den <= i64::MAX as i128 {
        Some(Rat { num: num as i64, den: den as i64 })
    } else {
        None
    }
}

} // verus!
