//! The quaternion value type.
//!
//! [`Quat`] is the mathematical model: four integer numerators over one
//! positive common denominator, so that a value stands for the quaternion
//! `(w + x·i + y·j + z·k) / den` with unbounded exact components.
//! [`Quaternion`] is the executable counterpart over 64-bit words; every
//! operation returns the mathematically exact result, or `None` when that
//! result does not fit the representation.

use vstd::prelude::*;

use crate::rational::{Rat, Ratio, i_fits, r_abs, r_fits, r_lt};
use crate::rational::{fit_ratio, lemma_den_mul, lemma_mul_fits_wide};

verus! {

/// Mathematical model of a quaternion: `(w + x·i + y·j + z·k) / den`.
pub struct Quat {
    pub w: int,
    pub x: int,
    pub y: int,
    pub z: int,
    pub den: int,
}

/// A model quaternion is well formed when its common denominator is positive.
pub open spec fn q_wf(q: Quat) -> bool {
    q.den > 0
}

/// Whether a model quaternion fits the executable representation.
pub open spec fn q_fits(q: Quat) -> bool {
    i_fits(q.w) && i_fits(q.x) && i_fits(q.y) && i_fits(q.z) && 1 <= q.den <= i64::MAX
}

/// The additive identity `(0, 0, 0, 0)`.
pub open spec fn q_zero() -> Quat {
    Quat { w: 0, x: 0, y: 0, z: 0, den: 1 }
}

/// The multiplicative identity `(1, 0, 0, 0)`.
pub open spec fn q_one() -> Quat {
    Quat { w: 1, x: 0, y: 0, z: 0, den: 1 }
}

/// Whether `q` denotes the zero quaternion.
pub open spec fn q_is_zero(q: Quat) -> bool {
    q.w == 0 && q.x == 0 && q.y == 0 && q.z == 0
}

/// `a` and `b` denote the same quaternion: every component agrees as a
/// rational number (cross multiplication with the common denominators).
pub open spec fn q_same(a: Quat, b: Quat) -> bool {
    &&& a.w * b.den == b.w * a.den
    &&& a.x * b.den == b.x * a.den
    &&& a.y * b.den == b.y * a.den
    &&& a.z * b.den == b.z * a.den
}

/// The exact component-wise sum `a + b`, over the denominator `a.den * b.den`.
pub open spec fn q_add(a: Quat, b: Quat) -> Quat {
    Quat {
        w: a.w * b.den + b.w * a.den,
        x: a.x * b.den + b.x * a.den,
        y: a.y * b.den + b.y * a.den,
        z: a.z * b.den + b.z * a.den,
        den: a.den * b.den,
    }
}

/// The exact component-wise difference `a - b`, over `a.den * b.den`.
pub open spec fn q_sub(a: Quat, b: Quat) -> Quat {
    Quat {
        w: a.w * b.den - b.w * a.den,
        x: a.x * b.den - b.x * a.den,
        y: a.y * b.den - b.y * a.den,
        z: a.z * b.den - b.z * a.den,
        den: a.den * b.den,
    }
}

/// The exact component-wise negation `-a`.
pub open spec fn q_neg(a: Quat) -> Quat {
    Quat { w: -a.w, x: -a.x, y: -a.y, z: -a.z, den: a.den }
}

/// The conjugate: the scalar part kept, the imaginary parts negated.
pub open spec fn q_conj(a: Quat) -> Quat {
    Quat { w: a.w, x: -a.x, y: -a.y, z: -a.z, den: a.den }
}

/// The exact Hamilton product `a * b`, over the denominator `a.den * b.den`.
/// The sign pattern follows from `i² = j² = k² = -1`, `ij = k`, `jk = i`,
/// `ki = j`; the product is not commutative.
pub open spec fn q_mul(a: Quat, b: Quat) -> Quat {
    Quat {
        w: a.w * b.w - a.x * b.x - a.y * b.y - a.z * b.z,
        x: a.w * b.x + a.x * b.w + a.y * b.z - a.z * b.y,
        y: a.w * b.y - a.x * b.z + a.y * b.w + a.z * b.x,
        z: a.w * b.z + a.x * b.y - a.y * b.x + a.z * b.w,
        den: a.den * b.den,
    }
}

/// The exact scaling of `a` by the rational scalar `s`.
pub open spec fn q_scale(a: Quat, s: Ratio) -> Quat {
    Quat { w: a.w * s.num, x: a.x * s.num, y: a.y * s.num, z: a.z * s.num, den: a.den * s.den }
}

/// The exact squared Euclidean norm: the sum of the squares of the four
/// components, as a rational number.
pub open spec fn q_norm_sq(a: Quat) -> Ratio {
    Ratio { num: a.w * a.w + a.x * a.x + a.y * a.y + a.z * a.z, den: a.den * a.den }
}

/// The exact multiplicative inverse: the conjugate divided by the squared
/// norm. Well formed exactly when `a` is not the zero quaternion.
pub open spec fn q_inverse(a: Quat) -> Quat {
    Quat {
        w: a.w * a.den,
        x: -a.x * a.den,
        y: -a.y * a.den,
        z: -a.z * a.den,
        den: a.w * a.w + a.x * a.x + a.y * a.y + a.z * a.z,
    }
}

/// The exact right quotient `a * b⁻¹`. The Hamilton product is not
/// commutative, so this differs in general from the left form `b⁻¹ * a`.
pub open spec fn q_div(a: Quat, b: Quat) -> Quat {
    q_mul(a, q_inverse(b))
}

/// The component of `a - b` along `w`, `x`, `y` or `z`, as a rational.
pub open spec fn q_diff_w(a: Quat, b: Quat) -> Ratio {
    Ratio { num: a.w * b.den - b.w * a.den, den: a.den * b.den }
}

/// See [`q_diff_w`].
pub open spec fn q_diff_x(a: Quat, b: Quat) -> Ratio {
    Ratio { num: a.x * b.den - b.x * a.den, den: a.den * b.den }
}

/// See [`q_diff_w`].
pub open spec fn q_diff_y(a: Quat, b: Quat) -> Ratio {
    Ratio { num: a.y * b.den - b.y * a.den, den: a.den * b.den }
}

/// See [`q_diff_w`].
pub open spec fn q_diff_z(a: Quat, b: Quat) -> Ratio {
    Ratio { num: a.z * b.den - b.z * a.den, den: a.den * b.den }
}

/// Approximate equality: the absolute difference of every matching component
/// is strictly below `eps`.
pub open spec fn q_approx(a: Quat, b: Quat, eps: Ratio) -> bool {
    &&& r_lt(r_abs(q_diff_w(a, b)), eps)
    &&& r_lt(r_abs(q_diff_x(a, b)), eps)
    &&& r_lt(r_abs(q_diff_y(a, b)), eps)
    &&& r_lt(r_abs(q_diff_z(a, b)), eps)
}

/// Whether the imaginary parts of `a` and `b`, read as rational 3-vectors,
/// are parallel: their cross product is zero. (For nonzero imaginary parts
/// this is exactly "one is a scalar multiple of the other"; it also holds
/// whenever one imaginary part is zero.)
pub open spec fn q_im_parallel(a: Quat, b: Quat) -> bool {
    &&& a.y * b.z == a.z * b.y
    &&& a.z * b.x == a.x * b.z
    &&& a.x * b.y == a.y * b.x
}

/// All sixteen pairwise products of the components of two fitting
/// quaternions stay well inside a 128-bit word.
pub(crate) proof fn lemma_products_fit(
    aw: int,
    ax: int,
    ay: int,
    az: int,
    bw: int,
    bx: int,
    by: int,
    bz: int,
)
    by (nonlinear_arith)
    requires
        -i64::MAX <= aw <= i64::MAX,
        -i64::MAX <= ax <= i64::MAX,
        -i64::MAX <= ay <= i64::MAX,
        -i64::MAX <= az <= i64::MAX,
        -i64::MAX <= bw <= i64::MAX,
        -i64::MAX <= bx <= i64::MAX,
        -i64::MAX <= by <= i64::MAX,
        -i64::MAX <= bz <= i64::MAX,
    ensures
        -(i64::MAX * i64::MAX) <= aw * bw <= i64::MAX * i64::MAX,
        -(i64::MAX * i64::MAX) <= aw * bx <= i64::MAX * i64::MAX,
        -(i64::MAX * i64::MAX) <= aw * by <= i64::MAX * i64::MAX,
        -(i64::MAX * i64::MAX) <= aw * bz <= i64::MAX * i64::MAX,
        -(i64::MAX * i64::MAX) <= ax * bw <= i64::MAX * i64::MAX,
        -(i64::MAX * i64::MAX) <= ax * bx <= i64::MAX * i64::MAX,
        -(i64::MAX * i64::MAX) <= ax * by <= i64::MAX * i64::MAX,
        -(i64::MAX * i64::MAX) <= ax * bz <= i64::MAX * i64::MAX,
        -(i64::MAX * i64::MAX) <= ay * bw <= i64::MAX * i64::MAX,
        -(i64::MAX * i64::MAX) <= ay * bx <= i64::MAX * i64::MAX,
        -(i64::MAX * i64::MAX) <= ay * by <= i64::MAX * i64::MAX,
        -(i64::MAX * i64::MAX) <= ay * bz <= i64::MAX * i64::MAX,
        -(i64::MAX * i64::MAX) <= az * bw <= i64::MAX * i64::MAX,
        -(i64::MAX * i64::MAX) <= az * bx <= i64::MAX * i64::MAX,
        -(i64::MAX * i64::MAX) <= az * by <= i64::MAX * i64::MAX,
        -(i64::MAX * i64::MAX) <= az * bz <= i64::MAX * i64::MAX,
{
}

/// A sum of four squares is never negative.
pub(crate) proof fn lemma_sum_squares_nonneg(w: int, x: int, y: int, z: int)
    by (nonlinear_arith)
    ensures
        w * w + x * x + y * y + z * z >= 0,
{
}

/// An exact quaternion in executable form: four 64-bit numerators over one
/// positive 64-bit common denominator.
#[derive(Clone, Copy, Debug)]
pub struct Quaternion {
    w: i64,
    x: i64,
    y: i64,
    z: i64,
    den: i64,
}

impl View for Quaternion {
    type V = Quat;

    closed spec fn view(&self) -> Quat {
        Quat {
            w: self.w as int,
            x: self.x as int,
            y: self.y as int,
            z: self.z as int,
            den: self.den as int,
        }
    }
}

/// Packs four numerators and a positive denominator, already exact in 128-bit
/// words, into a [`Quaternion`], or reports with `None` that they do not fit.
pub(crate) fn fit_quat(w: i128, x: i128, y: i128, z: i128, den: i128) -> (r: Option<Quaternion>)
    requires
        den > 0,
    ensures
        r matches Some(q) ==> q@ == (Quat {
            w: w as int,
            x: x as int,
            y: y as int,
            z: z as int,
            den: den as int,
        }),
        r is Some <==> q_fits((Quat {
            w: w as int,
            x: x as int,
            y: y as int,
            z: z as int,
            den: den as int,
        })),
{
    let lo: i128 = -(i64::MAX as i128);
    let hi: i128 = i64::MAX as i128;
    if w >= lo && w <= hi && x >= lo && x <= hi && y >= lo && y <= hi && z >= lo && z <= hi && den
        <= hi {
        Some(
            Quaternion {
                w: w as i64,
                x: x as i64,
                y: y as i64,
                z: z as i64,
                den: den as i64,
            },
        )
    } else {
        None
    }
}

impl Quaternion {
    #[verifier::type_invariant]
    spec fn type_inv(self) -> bool {
        &&& self.den > 0
        &&& self.w > i64::MIN
        &&& self.x > i64::MIN
        &&& self.y > i64::MIN
        &&& self.z > i64::MIN
    }

    /// Builds the quaternion with integer components `w + x·i + y·j + z·k`.
    pub fn new(w: i64, x: i64, y: i64, z: i64) -> (r: Quaternion)
        requires
            w > i64::MIN,
            x > i64::MIN,
            y > i64::MIN,
            z > i64::MIN,
        ensures
            r@ == (Quat { w: w as int, x: x as int, y: y as int, z: z as int, den: 1 }),
    {
        Quaternion { w, x, y, z, den: 1 }
    }

    /// Builds the quaternion `(w + x·i + y·j + z·k) / den`, for components
    /// that are not whole numbers.
    pub fn new_scaled(w: i64, x: i64, y: i64, z: i64, den: i64) -> (r: Quaternion)
        requires
            den > 0,
            w > i64::MIN,
            x > i64::MIN,
            y > i64::MIN,
            z > i64::MIN,
        ensures
            r@ == (Quat { w: w as int, x: x as int, y: y as int, z: z as int, den: den as int }),
    {
        Quaternion { w, x, y, z, den }
    }

    /// The additive identity `(0, 0, 0, 0)`.
    pub fn zero() -> (r: Quaternion)
        ensures
            r@ == q_zero(),
    {
        Quaternion { w: 0, x: 0, y: 0, z: 0, den: 1 }
    }

    /// The multiplicative identity `(1, 0, 0, 0)`.
    pub fn one() -> (r: Quaternion)
        ensures
            r@ == q_one(),
    {
        Quaternion { w: 1, x: 0, y: 0, z: 0, den: 1 }
    }

    /// The numerator of the scalar component.
    pub fn w(&self) -> (r: i64)
        ensures
            r == self@.w,
    {
        self.w
    }

    /// The numerator of the first imaginary component.
    pub fn x(&self) -> (r: i64)
        ensures
            r == self@.x,
    {
        self.x
    }

    /// The numerator of the second imaginary component.
    pub fn y(&self) -> (r: i64)
        ensures
            r == self@.y,
    {
        self.y
    }

    /// The numerator of the third imaginary component.
    pub fn z(&self) -> (r: i64)
        ensures
            r == self@.z,
    {
        self.z
    }

    /// The common denominator; always positive.
    pub fn den(&self) -> (r: i64)
        ensures
            r == self@.den,
            r > 0,
    {
        proof {
            use_type_invariant(self);
        }
        self.den
    }

    /// Whether `self` denotes the zero quaternion, exactly.
    pub fn is_zero(&self) -> (r: bool)
        ensures
            r == q_is_zero(self@),
    {
        self.w == 0 && self.x == 0 && self.y == 0 && self.z == 0
    }

    /// The conjugate: the scalar component kept, the three imaginary
    /// components negated. Always exact.
    pub fn conjugate(&self) -> (r: Quaternion)
        ensures
            r@ == q_conj(self@),
    {
        proof {
            use_type_invariant(self);
        }
        Quaternion { w: self.w, x: -self.x, y: -self.y, z: -self.z, den: self.den }
    }

    /// The component-wise negation. Always exact.
    pub fn neg(&self) -> (r: Quaternion)
        ensures
            r@ == q_neg(self@),
    {
        proof {
            use_type_invariant(self);
        }
        Quaternion { w: -self.w, x: -self.x, y: -self.y, z: -self.z, den: self.den }
    }

    /// Whether `self` and `other` denote the same quaternion, exactly:
    /// every component agrees as a rational number.
    pub fn exact_eq(&self, other: &Quaternion) -> (r: bool)
        ensures
            r == q_same(self@, other@),
    {
        proof {
            use_type_invariant(self);
            use_type_invariant(other);
            lemma_products_fit(
                self.w as int,
                self.x as int,
                self.y as int,
                self.z as int,
                other.w as int,
                other.x as int,
                other.y as int,
                other.z as int,
            );
            lemma_mul_fits_wide(self.w as int, other.den as int);
            lemma_mul_fits_wide(self.x as int, other.den as int);
            lemma_mul_fits_wide(self.y as int, other.den as int);
            lemma_mul_fits_wide(self.z as int, other.den as int);
            lemma_mul_fits_wide(other.w as int, self.den as int);
            lemma_mul_fits_wide(other.x as int, self.den as int);
            lemma_mul_fits_wide(other.y as int, self.den as int);
            lemma_mul_fits_wide(other.z as int, self.den as int);
        }
        let sd: i128 = self.den as i128;
        let od: i128 = other.den as i128;
        (self.w as i128) * od == (other.w as i128) * sd && (self.x as i128) * od == (other.x
            as i128) * sd && (self.y as i128) * od == (other.y as i128) * sd && (self.z as i128)
            * od == (other.z as i128) * sd
    }

    /// The exact component-wise sum, or `None` when it does not fit.
    pub fn add(&self, other: &Quaternion) -> (r: Option<Quaternion>)
        ensures
            r matches Some(q) ==> q@ == q_add(self@, other@),
            r is Some <==> q_fits(q_add(self@, other@)),
    {
        proof {
            use_type_invariant(self);
            use_type_invariant(other);
            lemma_mul_fits_wide(self.w as int, other.den as int);
            lemma_mul_fits_wide(self.x as int, other.den as int);
            lemma_mul_fits_wide(self.y as int, other.den as int);
            lemma_mul_fits_wide(self.z as int, other.den as int);
            lemma_mul_fits_wide(other.w as int, self.den as int);
            lemma_mul_fits_wide(other.x as int, self.den as int);
            lemma_mul_fits_wide(other.y as int, self.den as int);
            lemma_mul_fits_wide(other.z as int, self.den as int);
            lemma_den_mul(self.den as int, other.den as int);
        }
        let sd: i128 = self.den as i128;
        let od: i128 = other.den as i128;
        let w_wide: i128 = (self.w as i128) * od + (other.w as i128) * sd;
        let x_wide: i128 = (self.x as i128) * od + (other.x as i128) * sd;
        let y_wide: i128 = (self.y as i128) * od + (other.y as i128) * sd;
        let z_wide: i128 = (self.z as i128) * od + (other.z as i128) * sd;
        fit_quat(w_wide, x_wide, y_wide, z_wide, sd * od)
    }

    /// The exact component-wise difference, or `None` when it does not fit.
    pub fn sub(&self, other: &Quaternion) -> (r: Option<Quaternion>)
        ensures
            r matches Some(q) ==> q@ == q_sub(self@, other@),
            r is Some <==> q_fits(q_sub(self@, other@)),
    {
        proof {
            use_type_invariant(self);
            use_type_invariant(other);
            lemma_mul_fits_wide(self.w as int, other.den as int);
            lemma_mul_fits_wide(self.x as int, other.den as int);
            lemma_mul_fits_wide(self.y as int, other.den as int);
            lemma_mul_fits_wide(self.z as int, other.den as int);
            lemma_mul_fits_wide(other.w as int, self.den as int);
            lemma_mul_fits_wide(other.x as int, self.den as int);
            lemma_mul_fits_wide(other.y as int, self.den as int);
            lemma_mul_fits_wide(other.z as int, self.den as int);
            lemma_den_mul(self.den as int, other.den as int);
        }
        let sd: i128 = self.den as i128;
        let od: i128 = other.den as i128;
        let w_wide: i128 = (self.w as i128) * od - (other.w as i128) * sd;
        let x_wide: i128 = (self.x as i128) * od - (other.x as i128) * sd;
        let y_wide: i128 = (self.y as i128) * od - (other.y as i128) * sd;
        let z_wide: i128 = (self.z as i128) * od - (other.z as i128) * sd;
        fit_quat(w_wide, x_wide, y_wide, z_wide, sd * od)
    }

    /// The exact Hamilton product `self * other`, or `None` when it does not
    /// fit. Not commutative.
    pub fn mul(&self, other: &Quaternion) -> (r: Option<Quaternion>)
        ensures
            r matches Some(q) ==> q@ == q_mul(self@, other@),
            r is Some <==> q_fits(q_mul(self@, other@)),
    {
        proof {
            use_type_invariant(self);
            use_type_invariant(other);
            lemma_products_fit(
                self.w as int,
                self.x as int,
                self.y as int,
                self.z as int,
                other.w as int,
                other.x as int,
                other.y as int,
                other.z as int,
            );
            lemma_den_mul(self.den as int, other.den as int);
        }
        let aw: i128 = self.w as i128;
        let ax: i128 = self.x as i128;
        let ay: i128 = self.y as i128;
        let az: i128 = self.z as i128;
        let bw: i128 = other.w as i128;
        let bx: i128 = other.x as i128;
        let by: i128 = other.y as i128;
        let bz: i128 = other.z as i128;
        let w_wide: i128 = match (aw * bw - ax * bx).checked_sub(ay * by + az * bz) {
            Some(v) => v,
            None => {
                return None;
            },
        };
        let x_wide: i128 = match (aw * bx + ax * bw).checked_add(ay * bz - az * by) {
            Some(v) => v,
            None => {
                return None;
            },
        };
        let y_wide: i128 = match (aw * by - ax * bz).checked_add(ay * bw + az * bx) {
            Some(v) => v,
            None => {
                return None;
            },
        };
        let z_wide: i128 = match (aw * bz + ax * by).checked_add(az * bw - ay * bx) {
            Some(v) => v,
            None => {
                return None;
            },
        };
        fit_quat(w_wide, x_wide, y_wide, z_wide, (self.den as i128) * (other.den as i128))
    }

    /// The exact scaling of every component by the rational scalar `s`, or
    /// `None` when it does not fit.
    pub fn scale(&self, s: &Rat) -> (r: Option<Quaternion>)
        ensures
            r matches Some(q) ==> q@ == q_scale(self@, s@),
            r is Some <==> q_fits(q_scale(self@, s@)),
    {
        let sn: i64 = s.num();
        let sd: i64 = s.den();
        proof {
            use_type_invariant(self);
            lemma_mul_fits_wide(self.w as int, sn as int);
            lemma_mul_fits_wide(self.x as int, sn as int);
            lemma_mul_fits_wide(self.y as int, sn as int);
            lemma_mul_fits_wide(self.z as int, sn as int);
            lemma_den_mul(self.den as int, sd as int);
        }
        fit_quat(
            (self.w as i128) * (sn as i128),
            (self.x as i128) * (sn as i128),
            (self.y as i128) * (sn as i128),
            (self.z as i128) * (sn as i128),
            (self.den as i128) * (sd as i128),
        )
    }

    /// The exact squared Euclidean norm, as a rational scalar, or `None`
    /// when it does not fit.
    pub fn dot(&self) -> (r: Option<Rat>)
        ensures
            r matches Some(v) ==> v@ == q_norm_sq(self@),
            r is Some <==> r_fits(q_norm_sq(self@)),
    {
        proof {
            use_type_invariant(self);
            lemma_products_fit(
                self.w as int,
                self.x as int,
                self.y as int,
                self.z as int,
                self.w as int,
                self.x as int,
                self.y as int,
                self.z as int,
            );
            lemma_den_mul(self.den as int, self.den as int);
        }
        let w: i128 = self.w as i128;
        let x: i128 = self.x as i128;
        let y: i128 = self.y as i128;
        let z: i128 = self.z as i128;
        let num_wide: i128 = match (w * w + x * x).checked_add(y * y + z * z) {
            Some(v) => v,
            None => {
                return None;
            },
        };
        fit_ratio(num_wide, (self.den as i128) * (self.den as i128))
    }

    /// The exact multiplicative inverse: the conjugate divided by the squared
    /// norm. Returns `None` for the zero quaternion, whose inverse is
    /// undefined, and when the result does not fit.
    pub fn inverse(&self) -> (r: Option<Quaternion>)
        ensures
            r matches Some(q) ==> q@ == q_inverse(self@),
            r is Some <==> q_fits(q_inverse(self@)),
            q_is_zero(self@) ==> r is None,
    {
        proof {
            use_type_invariant(self);
            lemma_products_fit(
                self.w as int,
                self.x as int,
                self.y as int,
                self.z as int,
                self.w as int,
                self.x as int,
                self.y as int,
                self.z as int,
            );
            lemma_mul_fits_wide(self.w as int, self.den as int);
            lemma_mul_fits_wide(-(self.x as int), self.den as int);
            lemma_mul_fits_wide(-(self.y as int), self.den as int);
            lemma_mul_fits_wide(-(self.z as int), self.den as int);
            lemma_sum_squares_nonneg(self.w as int, self.x as int, self.y as int, self.z as int);
        }
        let w: i128 = self.w as i128;
        let x: i128 = self.x as i128;
        let y: i128 = self.y as i128;
        let z: i128 = self.z as i128;
        let norm_num: i128 = match (w * w + x * x).checked_add(y * y + z * z) {
            Some(v) => v,
            None => {
                return None;
            },
        };
        if norm_num == 0 {
            return None;
        }
        let d: i128 = self.den as i128;
        fit_quat(w * d, (-x) * d, (-y) * d, (-z) * d, norm_num)
    }

    /// The exact right quotient `self * other⁻¹`, or `None` when `other` is
    /// the zero quaternion or a step does not fit. The Hamilton product is
    /// not commutative: this is the right form, not `other⁻¹ * self`.
    pub fn div(&self, other: &Quaternion) -> (r: Option<Quaternion>)
        ensures
            r matches Some(q) ==> q@ == q_div(self@, other@),
            r is Some <==> q_fits(q_inverse(other@)) && q_fits(q_mul(self@, q_inverse(other@))),
            q_is_zero(other@) ==> r is None,
    {
        let inv: Quaternion = match other.inverse() {
            Some(v) => v,
            None => {
                return None;
            },
        };
        self.mul(&inv)
    }

    /// Tolerance-based equality: whether the absolute difference of every
    /// matching component is strictly below `eps`, read as exact rationals.
    /// `None` when the exact component-wise difference does not fit.
    pub fn eq(&self, other: &Quaternion, eps: &Rat) -> (r: Option<bool>)
        ensures
            r matches Some(v) ==> v == q_approx(self@, other@, eps@),
            r is Some <==> q_fits(q_sub(self@, other@)),
    {
        let d: Quaternion = match self.sub(other) {
            Some(v) => v,
            None => {
                return None;
            },
        };
        let en: i64 = eps.num();
        let ed: i64 = eps.den();
        proof {
            use_type_invariant(&d);
            lemma_mul_fits_wide(if d@.w < 0 { -d@.w } else { d@.w }, ed as int);
            lemma_mul_fits_wide(if d@.x < 0 { -d@.x } else { d@.x }, ed as int);
            lemma_mul_fits_wide(if d@.y < 0 { -d@.y } else { d@.y }, ed as int);
            lemma_mul_fits_wide(if d@.z < 0 { -d@.z } else { d@.z }, ed as int);
            lemma_mul_fits_wide(en as int, d@.den);
        }
        let dw: i128 = (if d.w < 0 { -d.w } else { d.w }) as i128;
        let dx: i128 = (if d.x < 0 { -d.x } else { d.x }) as i128;
        let dy: i128 = (if d.y < 0 { -d.y } else { d.y }) as i128;
        let dz: i128 = (if d.z < 0 { -d.z } else { d.z }) as i128;
        let bound: i128 = (en as i128) * (d.den as i128);
        let e: i128 = ed as i128;
        Some(dw * e < bound && dx * e < bound && dy * e < bound && dz * e < bound)
    }
}

} // verus!
