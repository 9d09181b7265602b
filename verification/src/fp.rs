//! The fixed-point scalar type and its mathematical model.
//!
//! A value is stored as its raw Q16.16 bits: an `i32` whose numeric meaning
//! is `bits / 65536`. Addition and subtraction act directly on the bits;
//! multiplication and division rescale through a 64-bit intermediate with
//! truncating (round-toward-zero) division, and multiplication wraps the
//! rescaled product back into 32 bits. The spec functions in this module
//! state those bit-level results exactly, and every contract in the crate is
//! phrased over them.

use vstd::arithmetic::div_mod::{
    lemma_div_is_ordered, lemma_div_multiples_vanish, lemma_fundamental_div_mod,
    lemma_fundamental_div_mod_converse_div, lemma_fundamental_div_mod_converse_mod,
    lemma_mod_multiples_basic, lemma_mod_bound,
};
use vstd::prelude::*;

verus! {

/// The scaling factor of the Q16.16 representation: `1 << 16`.
pub const FP_SCALE: i32 = 65536;

/// Truncating (round-toward-zero) division, the rounding that `/` performs on
/// the machine's signed integers. Meaningful only for `b != 0`.
pub open spec fn tdiv(a: int, b: int) -> int {
    if a >= 0 {
        a / b
    } else {
        -((-a) / b)
    }
}

/// The value of `x` brought back into the `i32` range by two's-complement
/// wrapping.
pub open spec fn wrap_i32(x: int) -> int {
    let m = x % 0x1_0000_0000;
    if m >= 0x8000_0000 {
        m - 0x1_0000_0000
    } else {
        m
    }
}

/// Raw bits of the fixed-point product of two raw-bit values: the 64-bit
/// product is rescaled by a truncating division and wrapped into 32 bits.
pub open spec fn mul_bits(a: int, b: int) -> int {
    wrap_i32(tdiv(a * b, FP_SCALE as int))
}

/// Raw bits of the fixed-point quotient of two raw-bit values. Meaningful
/// only for `b != 0`; the exec division refuses a result outside `i32`.
pub open spec fn div_bits(a: int, b: int) -> int {
    tdiv(a * (FP_SCALE as int), b)
}

/// The integer square root: the greatest `r` with `r * r <= n` (and `0` for
/// negative `n`).
pub open spec fn isqrt(n: int) -> int
    decreases n,
{
    if n <= 0 {
        0
    } else {
        let r = isqrt(n - 1);
        if (r + 1) * (r + 1) <= n {
            r + 1
        } else {
            r
        }
    }
}

/// Raw bits of the fixed-point square root of a non-negative raw-bit value.
pub open spec fn sqrt_bits(a: int) -> int {
    isqrt(a * (FP_SCALE as int))
}

/// `isqrt` is the rounded-down square root: it is non-negative, its square
/// does not exceed `n`, and the next square is already too large.
pub proof fn lemma_isqrt_bounds(n: int)
    requires
        n >= 0,
    ensures
        0 <= isqrt(n),
        isqrt(n) * isqrt(n) <= n,
        n < (isqrt(n) + 1) * (isqrt(n) + 1),
    decreases n,
{
    if n == 0 {
    } else {
        lemma_isqrt_bounds(n - 1);
        let r = isqrt(n - 1);
        if (r + 1) * (r + 1) <= n {
            assert(n < (r + 2) * (r + 2)) by (nonlinear_arith)
                requires
                    n - 1 < (r + 1) * (r + 1),
                    0 <= r,
            ;
        }
    }
}

/// Values that stay within `i32` are unchanged by wrapping.
pub proof fn lemma_wrap_i32_in_range(x: int)
    requires
        i32::MIN <= x <= i32::MAX,
    ensures
        wrap_i32(x) == x,
{
    let m = 0x1_0000_0000int;
    if x >= 0 {
        lemma_fundamental_div_mod_converse_mod(x, m, 0, x);
    } else {
        lemma_fundamental_div_mod_converse_mod(x, m, -1, x + m);
    }
}

/// A 2D-geometry scalar: a fixed-point number in Q16.16 format.
///
/// `bits` is the raw two's-complement representation; the value it denotes is
/// `bits / 65536`. The field is public so that callers and specifications can
/// speak about the exact representation.
#[derive(Clone, Copy, Debug, PartialEq, Eq, Structural, PartialOrd, Ord, Hash)]
pub struct Fp {
    pub bits: i32,
}

impl Fp {
    /// Builds the scalar holding exactly the given raw Q16.16 bits.
    #[inline]
    pub fn from_bits(bits: i32) -> (r: Fp)
        ensures
            r.bits == bits,
    {
        Fp { bits }
    }

    /// Returns the raw Q16.16 bits.
    #[inline]
    pub fn to_bits(self) -> (r: i32)
        ensures
            r == self.bits,
    {
        self.bits
    }

    /// The scalar zero.
    #[inline]
    pub fn zero() -> (r: Fp)
        ensures
            r.bits == 0,
    {
        Fp { bits: 0 }
    }

    /// The scalar one.
    #[inline]
    pub fn one() -> (r: Fp)
        ensures
            r.bits == FP_SCALE,
    {
        Fp { bits: FP_SCALE }
    }

    /// The scalar negative one.
    #[inline]
    pub fn neg_one() -> (r: Fp)
        ensures
            r.bits == -FP_SCALE,
    {
        Fp { bits: -FP_SCALE }
    }

    /// A quarter turn in radians: the Q16.16 approximation `65536 * 1570 /
    /// 1000` of pi / 2 that the fixed-point collaborator defines.
    #[inline]
    pub fn frac_pi_2() -> (r: Fp)
        ensures
            r.bits == 102891,
    {
        Fp { bits: 102891 }
    }

    /// True exactly on the zero scalar.
    #[inline]
    pub fn is_zero(self) -> (r: bool)
        ensures
            r <==> self.bits == 0,
    {
        self.bits == 0
    }

    /// Fixed-point addition: the raw bits add directly.
    #[inline]
    pub fn add(self, rhs: Fp) -> (r: Fp)
        requires
            i32::MIN <= self.bits + rhs.bits <= i32::MAX,
        ensures
            r.bits == self.bits + rhs.bits,
    {
        Fp { bits: self.bits + rhs.bits }
    }

    /// Fixed-point subtraction: the raw bits subtract directly.
    #[inline]
    pub fn sub(self, rhs: Fp) -> (r: Fp)
        requires
            i32::MIN <= self.bits - rhs.bits <= i32::MAX,
        ensures
            r.bits == self.bits - rhs.bits,
    {
        Fp { bits: self.bits - rhs.bits }
    }

    /// Fixed-point negation.
    #[inline]
    pub fn neg(self) -> (r: Fp)
        requires
            self.bits != i32::MIN,
        ensures
            r.bits == -self.bits,
    {
        Fp { bits: -self.bits }
    }

    /// Fixed-point absolute value.
    #[inline]
    pub fn abs(self) -> (r: Fp)
        requires
            self.bits != i32::MIN,
        ensures
            r.bits == (if self.bits < 0 {
                -self.bits as int
            } else {
                self.bits as int
            }),
    {
        if self.bits < 0 {
            Fp { bits: -self.bits }
        } else {
            self
        }
    }

    /// The smaller of two scalars in the fixed-point order, which is the
    /// order of the raw bits.
    #[inline]
    pub fn min(self, rhs: Fp) -> (r: Fp)
        ensures
            r.bits == (if self.bits <= rhs.bits {
                self.bits
            } else {
                rhs.bits
            }),
    {
        if self.bits <= rhs.bits {
            self
        } else {
            rhs
        }
    }

    /// The larger of two scalars in the fixed-point order.
    #[inline]
    pub fn max(self, rhs: Fp) -> (r: Fp)
        ensures
            r.bits == (if self.bits >= rhs.bits {
                self.bits
            } else {
                rhs.bits
            }),
    {
        if self.bits >= rhs.bits {
            self
        } else {
            rhs
        }
    }

    /// Fixed-point multiplication. Total: the rescaled product is wrapped
    /// into 32 bits, exactly as `mul_bits` states.
    pub fn mul(self, rhs: Fp) -> (r: Fp)
        ensures
            r.bits == mul_bits(self.bits as int, rhs.bits as int),
    {
        proof {
            assert((self.bits as i64) * (rhs.bits as i64) == self.bits * rhs.bits
                && -0x4000_0000_0000_0000 <= self.bits * rhs.bits <= 0x4000_0000_0000_0000)
                by (nonlinear_arith)
                requires
                    -0x8000_0000 <= self.bits <= 0x7FFF_FFFF,
                    -0x8000_0000 <= rhs.bits <= 0x7FFF_FFFF,
            ;
        }
        let p: i64 = (self.bits as i64) * (rhs.bits as i64);
        let q: i64 = p / 65536;
        proof {
            lemma_tdiv_by_scale_in_range(p as int);
        }
        Fp { bits: wrap_i64_to_i32(q) }
    }

    /// Fixed-point division, rounding toward zero. The divisor must be
    /// non-zero and the quotient must fit in 32 bits; on those inputs the
    /// underlying machine division would fail instead of returning a value.
    pub fn div(self, rhs: Fp) -> (r: Fp)
        requires
            rhs.bits != 0,
            i32::MIN <= div_bits(self.bits as int, rhs.bits as int) <= i32::MAX,
        ensures
            r.bits == div_bits(self.bits as int, rhs.bits as int),
    {
        let num: i64 = (self.bits as i64) * 65536;
        let q: i64 = num / (rhs.bits as i64);
        proof {
            lemma_tdiv_small_quotient(num as int, rhs.bits as int);
        }
        Fp { bits: q as i32 }
    }
}

/// Raw bits of the sine of an angle given in Q16.16 radians. The value is
/// computed by the fixed-point collaborator from the angle's bits alone; no
/// short formula states it, so the contracts refer to it by this name.
pub uninterp spec fn sin_bits(a: int) -> int;

/// Raw bits of the cosine of an angle given in Q16.16 radians, named for the
/// same reason as `sin_bits`.
pub uninterp spec fn cos_bits(a: int) -> int;

impl Fp {
    /// Relies on `fixed32::Fp::sqrt`: a restoring square-root routine that
    /// returns the rounded-down square root of the raw bits shifted up by 16,
    /// which is `sqrt_bits`. It panics on negative input, so that input is
    /// excluded here.
    #[verifier::external_body]
    pub(crate) fn sqrt(self) -> (r: Fp)
        requires
            self.bits >= 0,
        ensures
            r.bits == sqrt_bits(self.bits as int),
    {
        Fp { bits: fixed32::Fp::from_bits(self.bits).sqrt().to_bits() }
    }

    /// Relies on `fixed32::Fp::sin`: a total table lookup driven by the
    /// angle's bits alone. Every table entry lies between minus one and one
    /// in Q16.16, and the entry selected for a zero angle is zero.
    #[verifier::external_body]
    pub(crate) fn sin(self) -> (r: Fp)
        ensures
            r.bits == sin_bits(self.bits as int),
            -FP_SCALE <= r.bits <= FP_SCALE,
            self.bits == 0 ==> r.bits == 0,
    {
        Fp { bits: fixed32::Fp::from_bits(self.bits).sin().to_bits() }
    }

    /// Relies on `fixed32::Fp::cos`: a total table lookup driven by the
    /// angle's bits alone. Every table entry lies between minus one and one
    /// in Q16.16, and the entry selected for a zero angle is one.
    #[verifier::external_body]
    pub(crate) fn cos(self) -> (r: Fp)
        ensures
            r.bits == cos_bits(self.bits as int),
            -FP_SCALE <= r.bits <= FP_SCALE,
            self.bits == 0 ==> r.bits == FP_SCALE,
    {
        Fp { bits: fixed32::Fp::from_bits(self.bits).cos().to_bits() }
    }
}

/// The truncating quotient by the scale factor stays within `i64` for any
/// 64-bit dividend.
proof fn lemma_tdiv_by_scale_in_range(p: int)
    requires
        i64::MIN <= p <= i64::MAX,
    ensures
        i64::MIN <= tdiv(p, FP_SCALE as int) <= i64::MAX,
{
    if p >= 0 {
        assert(0 <= p / 65536 <= p) by (nonlinear_arith)
            requires
                p >= 0,
        ;
    } else {
        assert(0 <= (-p) / 65536 <= -p) by (nonlinear_arith)
            requires
                -p > 0,
        ;
    }
}

/// For a dividend no larger than `2^47` in magnitude the truncating quotient
/// stays within `i64`, whatever the non-zero divisor.
proof fn lemma_tdiv_small_quotient(num: int, d: int)
    requires
        -0x1_0000_0000_0000 <= num <= 0x1_0000_0000_0000,
        d != 0,
    ensures
        i64::MIN <= tdiv(num, d) <= i64::MAX,
{
    if num >= 0 {
        assert(-num <= num / d <= num) by (nonlinear_arith)
            requires
                num >= 0,
                d != 0,
        ;
    } else {
        assert(-(-num) <= (-num) / d <= -num) by (nonlinear_arith)
            requires
                -num > 0,
                d != 0,
        ;
    }
}

impl From<i16> for Fp {
    /// Converts a small integer to the scalar with the same numeric value.
    fn from(v: i16) -> Fp {
        Fp { bits: (v as i32) * FP_SCALE }
    }
}

impl vstd::std_specs::convert::FromSpecImpl<i16> for Fp {
    open spec fn obeys_from_spec() -> bool {
        true
    }

    open spec fn from_spec(v: i16) -> Fp {
        Fp { bits: (v * FP_SCALE) as i32 }
    }
}

impl Default for Fp {
    /// The default scalar is zero.
    fn default() -> (r: Fp)
        ensures
            r.bits == 0,
    {
        Fp { bits: 0 }
    }
}

/// A quotient with divisor `b` of a dividend bounded by `m * b` is itself
/// bounded by `m`, also under truncating division.
pub proof fn lemma_tdiv_magnitude(a: int, b: int, m: int)
    requires
        b > 0,
        m >= 0,
        -(m * b) <= a <= m * b,
    ensures
        -m <= tdiv(a, b) <= m,
{
    lemma_div_multiples_vanish(m, b);
    if a >= 0 {
        lemma_div_is_ordered(a, m * b, b);
        assert(m * b == b * m) by (nonlinear_arith);
        assert(a / b >= 0) by (nonlinear_arith)
            requires
                a >= 0,
                b > 0,
        ;
    } else {
        lemma_div_is_ordered(-a, m * b, b);
        assert(m * b == b * m) by (nonlinear_arith);
        assert((-a) / b >= 0) by (nonlinear_arith)
            requires
                -a >= 0,
                b > 0,
        ;
    }
}

/// Truncating division decomposes the dividend into the scaled quotient and
/// a remainder smaller than the divisor that takes the dividend's sign.
pub proof fn lemma_tdiv_decomposition(a: int, d: int)
    requires
        d > 0,
    ensures
        -d < a - d * tdiv(a, d) < d,
        a >= 0 ==> a - d * tdiv(a, d) >= 0,
        a < 0 ==> a - d * tdiv(a, d) <= 0,
{
    if a >= 0 {
        lemma_fundamental_div_mod(a, d);
        lemma_mod_bound(a, d);
    } else {
        lemma_fundamental_div_mod(-a, d);
        lemma_mod_bound(-a, d);
        assert(a == d * tdiv(a, d) + -((-a) % d)) by (nonlinear_arith)
            requires
                -a == d * ((-a) / d) + (-a) % d,
                tdiv(a, d) == -((-a) / d),
        ;
    }
}

/// The converse: a decomposition with a remainder smaller than the divisor
/// and matching the dividend's sign identifies the truncating quotient.
pub proof fn lemma_tdiv_converse(a: int, d: int, q: int, r: int)
    requires
        d > 0,
        a == d * q + r,
        -d < r < d,
        a >= 0 ==> r >= 0,
        a < 0 ==> r <= 0,
    ensures
        tdiv(a, d) == q,
{
    if a >= 0 {
        assert(a == q * d + r) by (nonlinear_arith)
            requires
                a == d * q + r,
        ;
        lemma_fundamental_div_mod_converse_div(a, d, q, r);
    } else {
        assert(-a == (-q) * d + (-r)) by (nonlinear_arith)
            requires
                a == d * q + r,
        ;
        lemma_fundamental_div_mod_converse_div(-a, d, -q, -r);
    }
}

/// Truncating the division of a sum against summing the truncated parts
/// loses at most one unit in either direction.
pub proof fn lemma_tdiv_add_error(a: int, b: int, d: int)
    requires
        d > 0,
    ensures
        -1 <= tdiv(a + b, d) - (tdiv(a, d) + tdiv(b, d)) <= 1,
{
    let qa = tdiv(a, d);
    let ra = a - d * qa;
    let qb = tdiv(b, d);
    let rb = b - d * qb;
    lemma_tdiv_decomposition(a, d);
    lemma_tdiv_decomposition(b, d);
    let c = ra + rb;
    assert(a + b == d * (qa + qb) + c) by (nonlinear_arith)
        requires
            ra == a - d * qa,
            rb == b - d * qb,
            c == ra + rb,
    ;
    if c >= d {
        assert(a + b == d * (qa + qb + 1) + (c - d)) by (nonlinear_arith)
            requires
                a + b == d * (qa + qb) + c,
        ;
        lemma_tdiv_converse(a + b, d, qa + qb + 1, c - d);
    } else if c <= -d {
        assert(a + b == d * (qa + qb - 1) + (c + d)) by (nonlinear_arith)
            requires
                a + b == d * (qa + qb) + c,
        ;
        lemma_tdiv_converse(a + b, d, qa + qb - 1, c + d);
    } else {
        if (a + b >= 0 && c >= 0) || (a + b < 0 && c <= 0) {
            lemma_tdiv_converse(a + b, d, qa + qb, c);
        } else if a + b >= 0 {
            assert(a + b == d * (qa + qb - 1) + (c + d)) by (nonlinear_arith)
                requires
                    a + b == d * (qa + qb) + c,
            ;
            lemma_tdiv_converse(a + b, d, qa + qb - 1, c + d);
        } else {
            assert(a + b == d * (qa + qb + 1) + (c - d)) by (nonlinear_arith)
                requires
                    a + b == d * (qa + qb) + c,
            ;
            lemma_tdiv_converse(a + b, d, qa + qb + 1, c - d);
        }
    }
}

/// When the truncating quotient of the product already fits in 32 bits, the
/// fixed-point multiplication does not wrap.
pub proof fn lemma_mul_bits_exact(a: int, b: int)
    requires
        i32::MIN <= tdiv(a * b, FP_SCALE as int) <= i32::MAX,
    ensures
        mul_bits(a, b) == tdiv(a * b, FP_SCALE as int),
{
    lemma_wrap_i32_in_range(tdiv(a * b, FP_SCALE as int));
}

/// Wraps a 64-bit value into 32 bits by two's complement, the effect of the
/// narrowing cast in the fixed-point multiplication.
fn wrap_i64_to_i32(q: i64) -> (r: i32)
    ensures
        r as int == wrap_i32(q as int),
{
    let m: i64 = q % 4294967296;
    proof {
        lemma_trunc_rem_to_euclid(q as int, m as int);
    }
    let m2: i64 = if m < 0 {
        m + 4294967296
    } else {
        m
    };
    let r64: i64 = if m2 >= 2147483648 {
        m2 - 4294967296
    } else {
        m2
    };
    r64 as i32
}

/// Relates the machine's remainder (which takes the dividend's sign) to the
/// Euclidean remainder that specifications use, for the divisor `2^32`.
proof fn lemma_trunc_rem_to_euclid(q: int, m: int)
    requires
        m == (if q >= 0 {
            q % 0x1_0000_0000
        } else {
            -((-q) % 0x1_0000_0000)
        }),
    ensures
        (if m < 0 {
            m + 0x1_0000_0000
        } else {
            m
        }) == q % 0x1_0000_0000,
{
    let big = 0x1_0000_0000int;
    if q >= 0 {
    } else {
        let u = (-q) % big;
        lemma_fundamental_div_mod(-q, big);
        let k = (-q) / big;
        if u == 0 {
            lemma_mod_multiples_basic(-k, big);
        } else {
            lemma_fundamental_div_mod_converse_mod(q, big, -k - 1, big - u);
        }
    }
}

} // verus!
