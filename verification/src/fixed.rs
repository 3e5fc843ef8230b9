//! Exact fixed-point scalars for the fractal plane.
//!
//! A `Fixed` stores a signed 64-bit raw integer that denotes the real number
//! `raw / FX_SCALE`, with `FX_SCALE = 2^32`.  Every operation is total:
//! products are rounded to the nearest representable value (ties rounded
//! upward), quotients are floored, and both saturate at the ends of the raw
//! range.  All semantics are stated exactly over `int`, so callers can
//! reason about each operation without any appeal to machine behaviour.

use vstd::arithmetic::div_mod::{
    lemma_fundamental_div_mod, lemma_fundamental_div_mod_converse, lemma_mod_bound,
};
use vstd::prelude::*;

verus! {

/// Raw units per unit of value: the denominator of the representation.
pub const FX_SCALE: i64 = 0x1_0000_0000;

/// Clamp a mathematical integer into the raw `i64` range.
pub open spec fn fx_sat(v: int) -> int {
    if v > i64::MAX as int {
        i64::MAX as int
    } else if v < i64::MIN as int {
        i64::MIN as int
    } else {
        v
    }
}

/// Nearest-integer division of `n` by a positive `d`, ties rounded upward:
/// the quotient is `floor((n + d/2) / d)`.
pub open spec fn fx_rdiv(n: int, d: int) -> int
    recommends
        d > 0,
{
    (n + d / 2) / d
}

/// The value denoted by a sum of two raw scalars.
pub open spec fn fx_add_v(a: int, b: int) -> int {
    fx_sat(a + b)
}

/// The value denoted by a difference of two raw scalars.
pub open spec fn fx_sub_v(a: int, b: int) -> int {
    fx_sat(a - b)
}

/// The raw product of two raw scalars: scaled back down, rounded, saturated.
pub open spec fn fx_mul_v(a: int, b: int) -> int {
    fx_sat(fx_rdiv(a * b, FX_SCALE as int))
}

/// The raw quotient of two raw scalars (`b != 0`): scaled up and floored,
/// the ordinary floored quotient of fixed-point arithmetic, saturated.
pub open spec fn fx_div_v(a: int, b: int) -> int
    recommends
        b != 0,
{
    if b > 0 {
        fx_sat((a * (FX_SCALE as int)) / b)
    } else {
        fx_sat((-(a * (FX_SCALE as int))) / (-b))
    }
}

/// The value denoted by negating a raw scalar.
pub open spec fn fx_neg_v(a: int) -> int {
    fx_sat(-a)
}

/// The value denoted by the magnitude of a raw scalar.
pub open spec fn fx_abs_v(a: int) -> int {
    if a >= 0 {
        a
    } else {
        fx_sat(-a)
    }
}

/// Truncated remainder of `a` by a positive modulus `m`, carrying the sign of
/// the dividend, as the remainder operator of the host hardware does.
pub open spec fn fx_rem_v(a: int, m: int) -> int
    recommends
        m > 0,
{
    if a >= 0 {
        a % m
    } else {
        -((-a) % m)
    }
}

/// `r` is the integer square root of `x`.
pub open spec fn is_sqrt_of(r: int, x: int) -> bool {
    0 <= r && r * r <= x && x < (r + 1) * (r + 1)
}

/// The integer square root of a nonnegative `x`.
pub open spec fn int_sqrt(x: int) -> int {
    choose|r: int| is_sqrt_of(r, x)
}

/// The raw square root of a nonnegative raw scalar: since `a` denotes
/// `a / FX_SCALE`, the denoted root carries `FX_SCALE^2` back under the sign.
pub open spec fn fx_sqrt_v(a: int) -> int
    recommends
        a >= 0,
{
    int_sqrt(a * (FX_SCALE as int))
}

/// Two integer square roots of the same number agree.
pub proof fn lemma_sqrt_unique(r1: int, r2: int, x: int)
    by (nonlinear_arith)
    requires
        is_sqrt_of(r1, x),
        is_sqrt_of(r2, x),
    ensures
        r1 == r2,
{
}

/// An integer square root exists for every nonnegative number.
pub proof fn lemma_sqrt_exists(x: int)
    requires
        x >= 0,
    ensures
        is_sqrt_of(int_sqrt(x), x),
    decreases x,
{
    if x == 0 {
        assert(is_sqrt_of(0, 0));
    } else {
        lemma_sqrt_exists(x - 1);
        let r = int_sqrt(x - 1);
        if x < (r + 1) * (r + 1) {
            assert(is_sqrt_of(r, x));
        } else {
            assert(is_sqrt_of(r + 1, x)) by (nonlinear_arith)
                requires
                    is_sqrt_of(r, x - 1),
                    x >= (r + 1) * (r + 1),
        ;
        }
        assert(exists|r0: int| is_sqrt_of(r0, x));
    }
}

/// Dividing a negated positive number rounds the magnitude's quotient up.
proof fn lemma_floor_div_neg(a: int, d: int)
    requires
        a > 0,
        d > 0,
    ensures
        (-a) / d == -((a + d - 1) / d),
{
    let q = a / d;
    let r = a % d;
    lemma_fundamental_div_mod(a, d);
    lemma_mod_bound(a, d);
    if r == 0 {
        assert(a + d - 1 == q * (d as int) + (d - 1)) by (nonlinear_arith)
            requires
                a == d * q + r,
                r == 0,
        ;
        lemma_fundamental_div_mod_converse(a + d - 1, d, q, d - 1);
        assert(-a == (-q) * (d as int) + 0) by (nonlinear_arith)
            requires
                a == d * q + r,
                r == 0,
        ;
        lemma_fundamental_div_mod_converse(-a, d, -q, 0);
    } else {
        assert(a + d - 1 == (q + 1) * (d as int) + (r - 1)) by (nonlinear_arith)
            requires
                a == d * q + r,
        ;
        lemma_fundamental_div_mod_converse(a + d - 1, d, q + 1, r - 1);
        assert(-a == (-q - 1) * (d as int) + (d - r)) by (nonlinear_arith)
            requires
                a == d * q + r,
        ;
        lemma_fundamental_div_mod_converse(-a, d, -q - 1, d - r);
    }
}

/// Floor division of `n` by a positive `d`, the meaning of `/` on `int`.
fn floor_div_i128(n: i128, d: i128) -> (q: i128)
    requires
        0 < d <= 0x1_0000_0000_0000_0000,
        -0x4100_0000_0000_0000_0000_0000_0000_0000 <= n
            <= 0x4100_0000_0000_0000_0000_0000_0000_0000,
    ensures
        q as int == n as int / d as int,
{
    if n >= 0 {
        ((n as u128) / (d as u128)) as i128
    } else {
        let a = (-n) as u128;
        let k = (a + (d as u128) - 1) / (d as u128);
        proof {
            lemma_floor_div_neg(a as int, d as int);
        }
        -(k as i128)
    }
}

/// Nearest-integer division of `n` by a positive `d`, ties rounded upward.
fn round_div_i128(n: i128, d: i128) -> (q: i128)
    requires
        0 < d <= 0x1_0000_0000_0000_0000,
        -0x4000_0000_0000_0000_0000_0000_0000_0000 <= n
            <= 0x4000_0000_0000_0000_0000_0000_0000_0000,
    ensures
        q as int == fx_rdiv(n as int, d as int),
{
    let half = ((d as u128) / 2) as i128;
    floor_div_i128(n + half, d)
}

/// Clamp a 128-bit quotient into the raw 64-bit range.
fn sat_to_i64(q: i128) -> (r: i64)
    ensures
        r as int == fx_sat(q as int),
{
    if q > i64::MAX as i128 {
        i64::MAX
    } else if q < i64::MIN as i128 {
        i64::MIN
    } else {
        q as i64
    }
}

/// A scalar of the fractal plane: `raw / FX_SCALE` as a real quantity.
#[derive(Clone, Copy, PartialEq, Eq, Structural, Debug, Hash, PartialOrd, Ord)]
pub struct Fixed {
    raw: i64,
}

impl View for Fixed {
    type V = int;

    closed spec fn view(&self) -> int {
        self.raw as int
    }
}

impl Fixed {
    /// The raw underlying integer, `self@` exactly.
    pub fn raw(self) -> (r: i64)
        ensures
            r as int == self@,
    {
        self.raw
    }

    /// Rebuild a scalar from its raw underlying integer.
    pub fn from_raw(raw: i64) -> (r: Fixed)
        ensures
            r@ == raw as int,
    {
        Fixed { raw }
    }

    /// The scalar denoting zero.
    pub fn zero() -> (r: Fixed)
        ensures
            r@ == 0,
    {
        Fixed { raw: 0 }
    }

    /// The scalar denoting one.
    pub fn one() -> (r: Fixed)
        ensures
            r@ == FX_SCALE as int,
    {
        Fixed { raw: FX_SCALE }
    }

    /// The scalar denoting the integer `n`.
    pub fn from_int(n: i32) -> (r: Fixed)
        ensures
            r@ == n as int * (FX_SCALE as int),
    {
        proof {
            assert((i32::MIN as int) * (FX_SCALE as int) >= i64::MIN as int
                && (i32::MAX as int) * (FX_SCALE as int) <= i64::MAX as int)
                by (nonlinear_arith);
            assert((n as int) * (FX_SCALE as int) >= (i32::MIN as int) * (FX_SCALE as int)
                && (n as int) * (FX_SCALE as int) <= (i32::MAX as int) * (FX_SCALE as int))
                by (nonlinear_arith)
                requires
                    i32::MIN as int <= n as int <= i32::MAX as int,
        ;
        }
        Fixed { raw: (n as i64) * FX_SCALE }
    }

    /// The scalar nearest the integer `n`, clamped into the raw range.
    pub fn from_int_sat(n: i64) -> (r: Fixed)
        ensures
            r@ == fx_sat(n as int * (FX_SCALE as int)),
    {
        proof {
            assert(forall|x: int|
                -0x8000_0000 <= x <= 0x7fff_ffff ==> #[trigger] (x * (FX_SCALE as int))
                    == fx_sat(x * (FX_SCALE as int))) by (nonlinear_arith);
            assert(forall|x: int|
                x > 0x7fff_ffff ==> #[trigger] (x * (FX_SCALE as int)) > i64::MAX as int)
                by (nonlinear_arith);
            assert(forall|x: int|
                x < -0x8000_0000 ==> #[trigger] (x * (FX_SCALE as int)) < i64::MIN as int)
                by (nonlinear_arith);
        }
        if n > 0x7fff_ffff {
            Fixed { raw: i64::MAX }
        } else if n < -0x8000_0000 {
            Fixed { raw: i64::MIN }
        } else {
            Fixed { raw: (n as i64) * FX_SCALE }
        }
    }

    /// The scalar nearest the ratio `num / den`.
    pub fn from_ratio(num: i64, den: i64) -> (r: Fixed)
        requires
            den != 0,
        ensures
            r@ == (if den > 0 {
                fx_sat(fx_rdiv(num as int * (FX_SCALE as int), den as int))
            } else {
                fx_sat(fx_rdiv(-(num as int * (FX_SCALE as int)), -(den as int)))
            }),
    {
        proof {
            assert((i64::MIN as int) * (FX_SCALE as int) <= (num as int) * (FX_SCALE as int)
                <= (i64::MAX as int) * (FX_SCALE as int)) by (nonlinear_arith)
                requires
                    i64::MIN as int <= num as int <= i64::MAX as int,
        ;
        }
        let n: i128 = (num as i128) * (FX_SCALE as i128);
        if den > 0 {
            Fixed { raw: sat_to_i64(round_div_i128(n, den as i128)) }
        } else {
            Fixed { raw: sat_to_i64(round_div_i128(-n, -(den as i128))) }
        }
    }

    /// Saturating sum.
    pub fn plus(self, other: Fixed) -> (r: Fixed)
        ensures
            r@ == fx_add_v(self@, other@),
    {
        match self.raw.checked_add(other.raw) {
            Some(v) => Fixed { raw: v },
            None => {
                if self.raw >= 0 {
                    Fixed { raw: i64::MAX }
                } else {
                    Fixed { raw: i64::MIN }
                }
            },
        }
    }

    /// Saturating difference.
    pub fn minus(self, other: Fixed) -> (r: Fixed)
        ensures
            r@ == fx_sub_v(self@, other@),
    {
        match self.raw.checked_sub(other.raw) {
            Some(v) => Fixed { raw: v },
            None => {
                if self.raw >= 0 {
                    Fixed { raw: i64::MAX }
                } else {
                    Fixed { raw: i64::MIN }
                }
            },
        }
    }

    /// Saturating negation.
    pub fn neg(self) -> (r: Fixed)
        ensures
            r@ == fx_neg_v(self@),
    {
        if self.raw == i64::MIN {
            Fixed { raw: i64::MAX }
        } else {
            Fixed { raw: -self.raw }
        }
    }

    /// Saturating magnitude.
    pub fn abs_val(self) -> (r: Fixed)
        ensures
            r@ == fx_abs_v(self@),
    {
        if self.raw >= 0 {
            self
        } else {
            self.neg()
        }
    }

    /// Rounded, saturating product.
    pub fn times(self, other: Fixed) -> (r: Fixed)
        ensures
            r@ == fx_mul_v(self@, other@),
    {
        proof {
            assert(-0x4000_0000_0000_0000_0000_0000_0000_0000 <= (self.raw as int) * (
            other.raw as int) <= 0x4000_0000_0000_0000_0000_0000_0000_0000) by (nonlinear_arith)
                requires
                    i64::MIN as int <= self.raw as int <= i64::MAX as int,
                    i64::MIN as int <= other.raw as int <= i64::MAX as int,
        ;
        }
        let p: i128 = (self.raw as i128) * (other.raw as i128);
        Fixed { raw: sat_to_i64(round_div_i128(p, FX_SCALE as i128)) }
    }

    /// Floored, saturating quotient.
    pub fn div_by(self, other: Fixed) -> (r: Fixed)
        requires
            other@ != 0,
        ensures
            r@ == fx_div_v(self@, other@),
    {
        let n: i128 = (self.raw as i128) * (FX_SCALE as i128);
        proof {
            assert((i64::MIN as int) * (FX_SCALE as int) <= (self.raw as int) * (FX_SCALE as int)
                <= (i64::MAX as int) * (FX_SCALE as int)) by (nonlinear_arith)
                requires
                    i64::MIN as int <= self.raw as int <= i64::MAX as int,
        ;
        }
        if other.raw > 0 {
            Fixed { raw: sat_to_i64(floor_div_i128(n, other.raw as i128)) }
        } else {
            Fixed { raw: sat_to_i64(floor_div_i128(-n, -(other.raw as i128))) }
        }
    }

    /// Truncated remainder by a positive modulus, exact.
    pub fn rem_trunc(self, m: Fixed) -> (r: Fixed)
        requires
            m@ > 0,
        ensures
            r@ == fx_rem_v(self@, m@),
    {
        if self.raw >= 0 {
            let rr = ((self.raw as u64) % (m.raw as u64)) as i64;
            proof {
                lemma_mod_bound(self.raw as int, m.raw as int);
            }
            Fixed { raw: rr }
        } else {
            let a: u64 = (-(self.raw as i128)) as u64;
            let rr = (a % (m.raw as u64)) as i64;
            proof {
                lemma_mod_bound(a as int, m.raw as int);
            }
            Fixed { raw: -rr }
        }
    }

    /// The largest integer at or below the denoted value.
    pub fn to_int_floor(self) -> (r: i64)
        ensures
            r as int == self@ / (FX_SCALE as int),
    {
        let q = floor_div_i128(self.raw as i128, FX_SCALE as i128);
        proof {
            assert(i64::MIN as int <= (self.raw as int) / (FX_SCALE as int) <= i64::MAX as int)
                by (nonlinear_arith)
                requires
                    i64::MIN as int <= self.raw as int <= i64::MAX as int,
        ;
        }
        q as i64
    }

    /// Whether this value lies strictly below another.
    pub fn lt(self, other: Fixed) -> (r: bool)
        ensures
            r == (self@ < other@),
    {
        self.raw < other.raw
    }

    /// Whether this value lies at or below another.
    pub fn le(self, other: Fixed) -> (r: bool)
        ensures
            r == (self@ <= other@),
    {
        self.raw <= other.raw
    }

    /// Exact square root, floored to the raw grid; the result `r` satisfies
    /// `r@ * r@ <= self@ * FX_SCALE < (r@ + 1) * (r@ + 1)`.
    pub fn sqrt(self) -> (r: Fixed)
        requires
            self@ >= 0,
        ensures
            r@ == fx_sqrt_v(self@),
            is_sqrt_of(r@, self@ * (FX_SCALE as int)),
    {
        let x: u128 = (self.raw as u128) * (FX_SCALE as u128);
        proof {
            assert((self.raw as int) * (FX_SCALE as int) < 0x1_0000_0000_0000_0000_0000_0000)
                by (nonlinear_arith)
                requires
                    0 <= self.raw as int <= i64::MAX as int,
        ;
        }
        let s = isqrt_u128(x);
        proof {
            assert((s as int) < 0x1_0000_0000_0000) by (nonlinear_arith)
                requires
                    is_sqrt_of(s as int, x as int),
                    (x as int) < 0x1_0000_0000_0000_0000_0000_0000,
        ;
            lemma_sqrt_exists(x as int);
            lemma_sqrt_unique(s as int, int_sqrt(x as int), x as int);
        }
        Fixed { raw: s as i64 }
    }
}

/// Bisection integer square root for inputs below `2^96`.
fn isqrt_u128(x: u128) -> (r: u128)
    requires
        x < 0x1_0000_0000_0000_0000_0000_0000,
    ensures
        is_sqrt_of(r as int, x as int),
{
    let mut lo: u128 = 0;
    let mut hi: u128 = 0x1_0000_0000_0000;
    proof {
        assert((0x1_0000_0000_0000 as int) * (0x1_0000_0000_0000 as int)
            == 0x1_0000_0000_0000_0000_0000_0000) by (nonlinear_arith);
    }
    while hi - lo > 1
        invariant
            lo < hi,
            hi <= 0x1_0000_0000_0000,
            (lo as int) * (lo as int) <= x as int,
            (x as int) < (hi as int) * (hi as int),
        decreases hi - lo,
    {
        let mid = lo + (hi - lo) / 2;
        proof {
            assert((mid as int) * (mid as int) < 0x1_0000_0000_0000_0000_0000_0000)
                by (nonlinear_arith)
                requires
                    0 <= mid as int,
                    (mid as int) < 0x1_0000_0000_0000,
        ;
        }
        if mid * mid <= x {
            lo = mid;
        } else {
            hi = mid;
        }
    }
    lo
}

} // verus!
