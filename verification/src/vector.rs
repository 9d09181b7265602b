//! 2D vectors over the fixed-point scalar.
//!
//! A vector is a pair of [`Fp`] components. Every operation is a pure
//! function of its inputs and is specified exactly over the raw Q16.16 bits
//! of the components; the spec functions alongside the methods state the
//! value each method returns.

use crate::fp::{
    cos_bits, div_bits, isqrt, lemma_isqrt_bounds, lemma_mul_bits_exact, lemma_tdiv_add_error,
    lemma_tdiv_magnitude, mul_bits, sin_bits, sqrt_bits, tdiv, Fp, FP_SCALE,
};
use vstd::arithmetic::div_mod::{lemma_div_multiples_vanish, lemma_div_pos_is_pos};
use vstd::prelude::*;

verus! {

/// A vector in 2D space, stored as two Q16.16 fixed-point components.
#[derive(Clone, Copy, Debug, PartialEq, Eq, Structural)]
pub struct Vector {
    pub x: Fp,
    pub y: Fp,
}

/// The magnitude of an integer.
pub open spec fn abs_int(x: int) -> int {
    if x < 0 {
        -x
    } else {
        x
    }
}

impl Vector {
    /// The vector with both raw components added; exact when the sums stay
    /// within 32 bits.
    pub open spec fn spec_add(self, rhs: Vector) -> Vector {
        Vector {
            x: Fp { bits: (self.x.bits + rhs.x.bits) as i32 },
            y: Fp { bits: (self.y.bits + rhs.y.bits) as i32 },
        }
    }

    /// The vector with both raw components subtracted.
    pub open spec fn spec_sub(self, rhs: Vector) -> Vector {
        Vector {
            x: Fp { bits: (self.x.bits - rhs.x.bits) as i32 },
            y: Fp { bits: (self.y.bits - rhs.y.bits) as i32 },
        }
    }

    /// The vector with both raw components negated.
    pub open spec fn spec_neg(self) -> Vector {
        Vector { x: Fp { bits: (-self.x.bits) as i32 }, y: Fp { bits: (-self.y.bits) as i32 } }
    }

    /// The vector scaled by `k` through the fixed-point multiplication of
    /// each component.
    pub open spec fn spec_scaled(self, k: Fp) -> Vector {
        Vector {
            x: Fp { bits: mul_bits(self.x.bits as int, k.bits as int) as i32 },
            y: Fp { bits: mul_bits(self.y.bits as int, k.bits as int) as i32 },
        }
    }

    /// The zero vector.
    pub open spec fn spec_zero() -> Vector {
        Vector { x: Fp { bits: 0 }, y: Fp { bits: 0 } }
    }

    /// Raw bits of the squared length: the fixed-point squares of both
    /// components, added without wrapping.
    pub open spec fn sqr_len_bits(self) -> int {
        tdiv(self.x.bits * self.x.bits, FP_SCALE as int) + tdiv(
            self.y.bits * self.y.bits,
            FP_SCALE as int,
        )
    }

    /// Creates the vector with the given components.
    #[inline]
    pub fn new(x: Fp, y: Fp) -> (r: Vector)
        ensures
            r.x == x,
            r.y == y,
    {
        Vector { x, y }
    }

    /// The unit vector pointing along the negative x-axis.
    #[inline]
    pub fn left() -> (r: Vector)
        ensures
            r.x.bits == -FP_SCALE,
            r.y.bits == 0,
    {
        Vector { x: Fp::neg_one(), y: Fp::zero() }
    }

    /// The unit vector pointing along the positive x-axis.
    #[inline]
    pub fn right() -> (r: Vector)
        ensures
            r.x.bits == FP_SCALE,
            r.y.bits == 0,
    {
        Vector { x: Fp::one(), y: Fp::zero() }
    }

    /// The unit vector pointing along the positive y-axis.
    #[inline]
    pub fn up() -> (r: Vector)
        ensures
            r.x.bits == 0,
            r.y.bits == FP_SCALE,
    {
        Vector { x: Fp::zero(), y: Fp::one() }
    }

    /// The unit vector pointing along the negative y-axis.
    #[inline]
    pub fn down() -> (r: Vector)
        ensures
            r.x.bits == 0,
            r.y.bits == -FP_SCALE,
    {
        Vector { x: Fp::zero(), y: Fp::neg_one() }
    }

    /// Vector addition, component-wise.
    pub fn add(self, rhs: Vector) -> (r: Vector)
        requires
            i32::MIN <= self.x.bits + rhs.x.bits <= i32::MAX,
            i32::MIN <= self.y.bits + rhs.y.bits <= i32::MAX,
        ensures
            r == self.spec_add(rhs),
            r.x.bits == self.x.bits + rhs.x.bits,
            r.y.bits == self.y.bits + rhs.y.bits,
    {
        Vector { x: self.x.add(rhs.x), y: self.y.add(rhs.y) }
    }

    /// Vector subtraction, component-wise.
    pub fn sub(self, rhs: Vector) -> (r: Vector)
        requires
            i32::MIN <= self.x.bits - rhs.x.bits <= i32::MAX,
            i32::MIN <= self.y.bits - rhs.y.bits <= i32::MAX,
        ensures
            r == self.spec_sub(rhs),
            r.x.bits == self.x.bits - rhs.x.bits,
            r.y.bits == self.y.bits - rhs.y.bits,
    {
        Vector { x: self.x.sub(rhs.x), y: self.y.sub(rhs.y) }
    }

    /// Vector negation, component-wise.
    pub fn neg(self) -> (r: Vector)
        requires
            self.x.bits != i32::MIN,
            self.y.bits != i32::MIN,
        ensures
            r == self.spec_neg(),
            r.x.bits == -self.x.bits,
            r.y.bits == -self.y.bits,
    {
        Vector { x: self.x.neg(), y: self.y.neg() }
    }

    /// In-place vector addition, component-wise.
    pub fn add_assign(&mut self, rhs: Vector)
        requires
            i32::MIN <= old(self).x.bits + rhs.x.bits <= i32::MAX,
            i32::MIN <= old(self).y.bits + rhs.y.bits <= i32::MAX,
        ensures
            final(self).x.bits == old(self).x.bits + rhs.x.bits,
            final(self).y.bits == old(self).y.bits + rhs.y.bits,
    {
        self.x = self.x.add(rhs.x);
        self.y = self.y.add(rhs.y);
    }

    /// Component-wise fixed-point multiplication. Total: each component
    /// follows `mul_bits`, wrapping included.
    pub fn mul(self, rhs: Vector) -> (r: Vector)
        ensures
            r.x.bits == mul_bits(self.x.bits as int, rhs.x.bits as int),
            r.y.bits == mul_bits(self.y.bits as int, rhs.y.bits as int),
    {
        Vector { x: self.x.mul(rhs.x), y: self.y.mul(rhs.y) }
    }

    /// Component-wise fixed-point division by another vector's components.
    pub fn div(self, rhs: Vector) -> (r: Vector)
        requires
            rhs.x.bits != 0,
            rhs.y.bits != 0,
            i32::MIN <= div_bits(self.x.bits as int, rhs.x.bits as int) <= i32::MAX,
            i32::MIN <= div_bits(self.y.bits as int, rhs.y.bits as int) <= i32::MAX,
        ensures
            r.x.bits == div_bits(self.x.bits as int, rhs.x.bits as int),
            r.y.bits == div_bits(self.y.bits as int, rhs.y.bits as int),
    {
        Vector { x: self.x.div(rhs.x), y: self.y.div(rhs.y) }
    }

    /// The vector scaled by a fixed-point factor on the right (`v * k`).
    pub fn mul_fp(self, rhs: Fp) -> (r: Vector)
        ensures
            r == self.spec_scaled(rhs),
            r.x.bits == mul_bits(self.x.bits as int, rhs.bits as int),
            r.y.bits == mul_bits(self.y.bits as int, rhs.bits as int),
    {
        Vector { x: self.x.mul(rhs), y: self.y.mul(rhs) }
    }

    /// The vector divided by a fixed-point scalar, component-wise.
    pub fn div_fp(self, rhs: Fp) -> (r: Vector)
        requires
            rhs.bits != 0,
            i32::MIN <= div_bits(self.x.bits as int, rhs.bits as int) <= i32::MAX,
            i32::MIN <= div_bits(self.y.bits as int, rhs.bits as int) <= i32::MAX,
        ensures
            r.x.bits == div_bits(self.x.bits as int, rhs.bits as int),
            r.y.bits == div_bits(self.y.bits as int, rhs.bits as int),
    {
        Vector { x: self.x.div(rhs), y: self.y.div(rhs) }
    }

    /// The vector scaled by a small integer (`v * n`), through the
    /// fixed-point multiplication with the converted integer.
    pub fn mul_int(self, rhs: i16) -> (r: Vector)
        ensures
            r.x.bits == mul_bits(self.x.bits as int, rhs * FP_SCALE),
            r.y.bits == mul_bits(self.y.bits as int, rhs * FP_SCALE),
    {
        let k = Fp::from(rhs);
        Vector { x: self.x.mul(k), y: self.y.mul(k) }
    }

    /// The vector divided by a small integer (`v / n`), through the
    /// fixed-point division by the converted integer.
    pub fn div_int(self, rhs: i16) -> (r: Vector)
        requires
            rhs != 0,
            i32::MIN <= div_bits(self.x.bits as int, rhs * FP_SCALE) <= i32::MAX,
            i32::MIN <= div_bits(self.y.bits as int, rhs * FP_SCALE) <= i32::MAX,
        ensures
            r.x.bits == div_bits(self.x.bits as int, rhs * FP_SCALE),
            r.y.bits == div_bits(self.y.bits as int, rhs * FP_SCALE),
    {
        let k = Fp::from(rhs);
        Vector { x: self.x.div(k), y: self.y.div(k) }
    }

    /// The dot product: the fixed-point products of matching components,
    /// added.
    pub fn dot(&self, other: &Vector) -> (r: Fp)
        requires
            i32::MIN <= mul_bits(self.x.bits as int, other.x.bits as int) + mul_bits(
                self.y.bits as int,
                other.y.bits as int,
            ) <= i32::MAX,
        ensures
            r.bits == mul_bits(self.x.bits as int, other.x.bits as int) + mul_bits(
                self.y.bits as int,
                other.y.bits as int,
            ),
    {
        self.x.mul(other.x).add(self.y.mul(other.y))
    }

    /// The scalar 2D cross product `x * other.y - y * other.x`; a positive
    /// result means `other` lies counter-clockwise from `self`.
    pub fn cross(&self, other: &Vector) -> (r: Fp)
        requires
            i32::MIN <= mul_bits(self.x.bits as int, other.y.bits as int) - mul_bits(
                self.y.bits as int,
                other.x.bits as int,
            ) <= i32::MAX,
        ensures
            r.bits == mul_bits(self.x.bits as int, other.y.bits as int) - mul_bits(
                self.y.bits as int,
                other.x.bits as int,
            ),
    {
        self.x.mul(other.y).sub(self.y.mul(other.x))
    }

    /// The vector scaled component-wise by another vector. Total, like
    /// `mul`.
    pub fn scale(&self, factor: &Vector) -> (r: Vector)
        ensures
            r.x.bits == mul_bits(self.x.bits as int, factor.x.bits as int),
            r.y.bits == mul_bits(self.y.bits as int, factor.y.bits as int),
    {
        Vector { x: self.x.mul(factor.x), y: self.y.mul(factor.y) }
    }

    /// The component-wise absolute value.
    pub fn abs(&self) -> (r: Vector)
        requires
            self.x.bits != i32::MIN,
            self.y.bits != i32::MIN,
        ensures
            r.x.bits == abs_int(self.x.bits as int),
            r.y.bits == abs_int(self.y.bits as int),
    {
        Vector { x: self.x.abs(), y: self.y.abs() }
    }

    /// The squared length `x * x + y * y`. Never fails; the zero vector has
    /// squared length zero.
    pub fn sqr_len(&self) -> (r: Fp)
        requires
            self.sqr_len_bits() <= i32::MAX,
        ensures
            r.bits == self.sqr_len_bits(),
            r.bits >= 0,
    {
        proof {
            lemma_sqr_term_bounds(self.x.bits as int);
            lemma_sqr_term_bounds(self.y.bits as int);
            lemma_mul_bits_exact(self.x.bits as int, self.x.bits as int);
            lemma_mul_bits_exact(self.y.bits as int, self.y.bits as int);
        }
        self.x.mul(self.x).add(self.y.mul(self.y))
    }

    /// The length: the fixed-point square root of the squared length.
    pub fn len(&self) -> (r: Fp)
        requires
            self.sqr_len_bits() <= i32::MAX,
        ensures
            r.bits == sqrt_bits(self.sqr_len_bits()),
            r.bits >= 0,
    {
        let s = self.sqr_len();
        proof {
            lemma_isqrt_bounds(s.bits * FP_SCALE);
        }
        s.sqrt()
    }

    /// The vector divided by its own length, or nothing when the length is
    /// zero. The length underflows to zero exactly when the squared length
    /// does, so the zero vector (and every vector shorter than the smallest
    /// representable square) yields no result rather than a division by
    /// zero.
    pub fn normalize(&self) -> (r: Option<Vector>)
        requires
            self.sqr_len_bits() <= i32::MAX,
            self.sqr_len_bits() > 0 ==> i32::MIN <= div_bits(
                self.x.bits as int,
                sqrt_bits(self.sqr_len_bits()),
            ) <= i32::MAX,
            self.sqr_len_bits() > 0 ==> i32::MIN <= div_bits(
                self.y.bits as int,
                sqrt_bits(self.sqr_len_bits()),
            ) <= i32::MAX,
        ensures
            r is Some <==> self.sqr_len_bits() > 0,
            self.x.bits == 0 && self.y.bits == 0 ==> r is None,
            r is Some ==> r->0.x.bits == div_bits(
                self.x.bits as int,
                sqrt_bits(self.sqr_len_bits()),
            ),
            r is Some ==> r->0.y.bits == div_bits(
                self.y.bits as int,
                sqrt_bits(self.sqr_len_bits()),
            ),
    {
        proof {
            lemma_sqr_term_bounds(self.x.bits as int);
            lemma_sqr_term_bounds(self.y.bits as int);
        }
        let length = self.len();
        proof {
            let s = self.sqr_len_bits();
            if s > 0 {
                lemma_isqrt_bounds(s * FP_SCALE);
                assert(s * FP_SCALE >= FP_SCALE);
                let r0 = isqrt(s * FP_SCALE);
                if r0 == 0 {
                    assert((r0 + 1) * (r0 + 1) == 1) by (nonlinear_arith)
                        requires
                            r0 == 0,
                    ;
                    assert(false);
                }
            }
        }
        if length.is_zero() {
            None
        } else {
            Some(Vector { x: self.x.div(length), y: self.y.div(length) })
        }
    }

    /// Rotation by an angle in Q16.16 radians, through the fixed-point
    /// sine and cosine of the collaborator. A zero angle leaves the vector
    /// unchanged.
    pub fn rotate(&self, angle: Fp) -> (r: Vector)
        requires
            abs_int(self.x.bits as int) + abs_int(self.y.bits as int) <= i32::MAX,
        ensures
            r.x.bits == mul_bits(self.x.bits as int, cos_bits(angle.bits as int)) - mul_bits(
                self.y.bits as int,
                sin_bits(angle.bits as int),
            ),
            r.y.bits == mul_bits(self.x.bits as int, sin_bits(angle.bits as int)) + mul_bits(
                self.y.bits as int,
                cos_bits(angle.bits as int),
            ),
            angle.bits == 0 ==> r == *self,
    {
        let cos_angle = angle.cos();
        let sin_angle = angle.sin();
        proof {
            lemma_scaled_product_bound(self.x.bits as int, cos_angle.bits as int);
            lemma_scaled_product_bound(self.x.bits as int, sin_angle.bits as int);
            lemma_scaled_product_bound(self.y.bits as int, cos_angle.bits as int);
            lemma_scaled_product_bound(self.y.bits as int, sin_angle.bits as int);
            if angle.bits == 0 {
                lemma_mul_by_one_bits(self.x.bits as int);
                lemma_mul_by_one_bits(self.y.bits as int);
                lemma_mul_by_zero_bits(self.x.bits as int);
                lemma_mul_by_zero_bits(self.y.bits as int);
            }
        }
        Vector {
            x: self.x.mul(cos_angle).sub(self.y.mul(sin_angle)),
            y: self.x.mul(sin_angle).add(self.y.mul(cos_angle)),
        }
    }
}

impl From<(i16, i16)> for Vector {
    /// Converts a pair of small integers to the vector with those
    /// coordinates.
    fn from(values: (i16, i16)) -> Vector {
        Vector { x: Fp::from(values.0), y: Fp::from(values.1) }
    }
}

impl vstd::std_specs::convert::FromSpecImpl<(i16, i16)> for Vector {
    open spec fn obeys_from_spec() -> bool {
        true
    }

    open spec fn from_spec(values: (i16, i16)) -> Vector {
        Vector {
            x: Fp { bits: (values.0 * FP_SCALE) as i32 },
            y: Fp { bits: (values.1 * FP_SCALE) as i32 },
        }
    }
}

impl Default for Vector {
    /// The default vector is the zero vector.
    fn default() -> (r: Vector)
        ensures
            r == Vector::spec_zero(),
    {
        Vector { x: Fp { bits: 0 }, y: Fp { bits: 0 } }
    }
}

/// Multiplying by the fixed-point one returns the value unchanged.
proof fn lemma_mul_by_one_bits(x: int)
    requires
        i32::MIN <= x <= i32::MAX,
    ensures
        mul_bits(x, FP_SCALE as int) == x,
{
    let s = FP_SCALE as int;
    if x >= 0 {
        lemma_div_multiples_vanish(x, s);
        assert(x * s == s * x) by (nonlinear_arith);
        assert(tdiv(x * s, s) == x);
    } else {
        lemma_div_multiples_vanish(-x, s);
        assert(-(x * s) == s * (-x)) by (nonlinear_arith);
        assert(tdiv(x * s, s) == x);
    }
    crate::fp::lemma_wrap_i32_in_range(x);
}

/// Multiplying by the fixed-point zero returns zero.
proof fn lemma_mul_by_zero_bits(x: int)
    ensures
        mul_bits(x, 0) == 0,
{
    let s = FP_SCALE as int;
    assert(x * 0 == 0) by (nonlinear_arith);
    lemma_div_pos_is_pos(0, s);
    lemma_div_multiples_vanish(0, s);
    assert(s * 0 == 0) by (nonlinear_arith);
    assert(tdiv(0, s) == 0);
    crate::fp::lemma_wrap_i32_in_range(0);
}

/// A fixed-point product with a factor no larger than one in magnitude is
/// no larger in magnitude than the other factor, so it does not wrap.
proof fn lemma_scaled_product_bound(x: int, c: int)
    requires
        i32::MIN < x <= i32::MAX,
        -FP_SCALE <= c <= FP_SCALE,
    ensures
        -abs_int(x) <= tdiv(x * c, FP_SCALE as int) <= abs_int(x),
        mul_bits(x, c) == tdiv(x * c, FP_SCALE as int),
{
    let s = FP_SCALE as int;
    let m = abs_int(x);
    assert(-(m * s) <= x * c <= m * s) by (nonlinear_arith)
        requires
            m == abs_int(x),
            -m <= x <= m,
            -s <= c <= s,
            s > 0,
    ;
    lemma_tdiv_magnitude(x * c, s, m);
    lemma_mul_bits_exact(x, c);
}

impl Fp {
    /// A vector scaled by this scalar on the left (`k * v`): the same
    /// fixed-point products as `Vector::mul_fp`, offered from the other
    /// side.
    pub fn mul_vec(self, rhs: Vector) -> (r: Vector)
        ensures
            r.x.bits == mul_bits(self.bits as int, rhs.x.bits as int),
            r.y.bits == mul_bits(self.bits as int, rhs.y.bits as int),
    {
        Vector { x: self.mul(rhs.x), y: self.mul(rhs.y) }
    }
}

/// A vector scaled by a small integer on the left (`n * v`). Each raw
/// component is multiplied by the integer directly, without rescaling.
pub fn int_mul_vec(n: i16, rhs: Vector) -> (r: Vector)
    requires
        i32::MIN <= n * rhs.x.bits <= i32::MAX,
        i32::MIN <= n * rhs.y.bits <= i32::MAX,
    ensures
        r.x.bits == n * rhs.x.bits,
        r.y.bits == n * rhs.y.bits,
{
    Vector { x: Fp { bits: (n as i32) * rhs.x.bits }, y: Fp { bits: (n as i32) * rhs.y.bits } }
}

/// A small integer divided by a vector, component-wise (`n / v`). Each
/// component is the machine quotient of the scaled integer by the raw
/// component, scaled up once more.
pub fn int_div_vec(n: i16, rhs: Vector) -> (r: Vector)
    requires
        rhs.x.bits != 0,
        rhs.y.bits != 0,
        !(n == -32768 && rhs.x.bits == -1),
        !(n == -32768 && rhs.y.bits == -1),
        i32::MIN <= tdiv(n * FP_SCALE, rhs.x.bits as int) * FP_SCALE <= i32::MAX,
        i32::MIN <= tdiv(n * FP_SCALE, rhs.y.bits as int) * FP_SCALE <= i32::MAX,
    ensures
        r.x.bits == tdiv(n * FP_SCALE, rhs.x.bits as int) * FP_SCALE,
        r.y.bits == tdiv(n * FP_SCALE, rhs.y.bits as int) * FP_SCALE,
{
    let a: i32 = (n as i32) * FP_SCALE;
    proof {
        lemma_exec_div_fits(a as int, rhs.x.bits as int);
        lemma_exec_div_fits(a as int, rhs.y.bits as int);
    }
    let qx: i32 = a / rhs.x.bits;
    let qy: i32 = a / rhs.y.bits;
    Vector { x: Fp { bits: qx * FP_SCALE }, y: Fp { bits: qy * FP_SCALE } }
}

/// The machine quotient of two 32-bit values fits in 32 bits whenever the
/// one overflowing pair (the smallest value divided by minus one) is
/// excluded.
proof fn lemma_exec_div_fits(a: int, b: int)
    requires
        i32::MIN <= a <= i32::MAX,
        b != 0,
        !(a == i32::MIN && b == -1),
    ensures
        i32::MIN <= tdiv(a, b) <= i32::MAX,
{
    let aa = abs_int(a);
    let d = abs_int(b);
    assert(0 <= aa / d <= aa) by (nonlinear_arith)
        requires
            aa >= 0,
            d > 0,
    ;
    if b < 0 {
        assert(a / b == -(a / d)) by (nonlinear_arith)
            requires
                d > 0,
                b == -d,
        ;
        assert((-a) / b == -((-a) / d)) by (nonlinear_arith)
            requires
                d > 0,
                b == -d,
        ;
    }
    if aa == 0x8000_0000 && d >= 2 {
        assert(aa / d <= 0x4000_0000) by (nonlinear_arith)
            requires
                aa == 0x8000_0000,
                d >= 2,
        ;
    }
}

/// Adding a vector to its own negation yields the zero vector.
pub proof fn lemma_add_neg_is_zero(v: Vector)
    requires
        v.x.bits != i32::MIN,
        v.y.bits != i32::MIN,
    ensures
        v.spec_add(v.spec_neg()) == Vector::spec_zero(),
{
}

/// Scaling the sum of two vectors and summing the two scaled vectors agree
/// to within one raw bit per component: each fixed-point product rounds
/// toward zero once, and the two orders of rounding can differ by at most
/// one unit.
pub proof fn lemma_scale_distributes(k: Fp, v: Vector, w: Vector)
    requires
        i32::MIN <= v.x.bits + w.x.bits <= i32::MAX,
        i32::MIN <= v.y.bits + w.y.bits <= i32::MAX,
        i32::MIN <= tdiv((v.x.bits + w.x.bits) * k.bits, FP_SCALE as int) <= i32::MAX,
        i32::MIN <= tdiv((v.y.bits + w.y.bits) * k.bits, FP_SCALE as int) <= i32::MAX,
        i32::MIN <= tdiv(v.x.bits * k.bits, FP_SCALE as int) <= i32::MAX,
        i32::MIN <= tdiv(v.y.bits * k.bits, FP_SCALE as int) <= i32::MAX,
        i32::MIN <= tdiv(w.x.bits * k.bits, FP_SCALE as int) <= i32::MAX,
        i32::MIN <= tdiv(w.y.bits * k.bits, FP_SCALE as int) <= i32::MAX,
        i32::MIN <= tdiv(v.x.bits * k.bits, FP_SCALE as int) + tdiv(
            w.x.bits * k.bits,
            FP_SCALE as int,
        ) <= i32::MAX,
        i32::MIN <= tdiv(v.y.bits * k.bits, FP_SCALE as int) + tdiv(
            w.y.bits * k.bits,
            FP_SCALE as int,
        ) <= i32::MAX,
    ensures
        -1 <= v.spec_add(w).spec_scaled(k).x.bits - v.spec_scaled(k).spec_add(
            w.spec_scaled(k),
        ).x.bits <= 1,
        -1 <= v.spec_add(w).spec_scaled(k).y.bits - v.spec_scaled(k).spec_add(
            w.spec_scaled(k),
        ).y.bits <= 1,
{
    lemma_scale_distributes_axis(k.bits as int, v.x.bits as int, w.x.bits as int);
    lemma_scale_distributes_axis(k.bits as int, v.y.bits as int, w.y.bits as int);
}

/// One axis of the distributivity law, stated over the raw bits.
proof fn lemma_scale_distributes_axis(k: int, a: int, b: int)
    requires
        i32::MIN <= a + b <= i32::MAX,
        i32::MIN <= tdiv((a + b) * k, FP_SCALE as int) <= i32::MAX,
        i32::MIN <= tdiv(a * k, FP_SCALE as int) <= i32::MAX,
        i32::MIN <= tdiv(b * k, FP_SCALE as int) <= i32::MAX,
        i32::MIN <= tdiv(a * k, FP_SCALE as int) + tdiv(b * k, FP_SCALE as int) <= i32::MAX,
    ensures
        -1 <= mul_bits(a + b, k) - (mul_bits(a, k) + mul_bits(b, k)) <= 1,
        mul_bits(a + b, k) == tdiv((a + b) * k, FP_SCALE as int),
        mul_bits(a, k) == tdiv(a * k, FP_SCALE as int),
        mul_bits(b, k) == tdiv(b * k, FP_SCALE as int),
{
    let s = FP_SCALE as int;
    assert((a + b) * k == a * k + b * k) by (nonlinear_arith);
    lemma_tdiv_add_error(a * k, b * k, s);
    lemma_mul_bits_exact(a + b, k);
    lemma_mul_bits_exact(a, k);
    lemma_mul_bits_exact(b, k);
}

/// The rescaled square of any value is non-negative.
proof fn lemma_sqr_term_bounds(x: int)
    requires
        i32::MIN <= x <= i32::MAX,
    ensures
        0 <= tdiv(x * x, FP_SCALE as int),
{
    assert(x * x >= 0) by (nonlinear_arith);
    lemma_div_pos_is_pos(x * x, FP_SCALE as int);
}

} // verus!
