//! Complex numbers over the fixed-point plane.
//!
//! Arithmetic follows the componentwise rules of complex numbers, with each
//! scalar step carried out by the exact rounded, saturating operations of
//! [`Fixed`].  The view of a `Complex` is the pair of raw components, so every
//! contract below pins the result down to the exact raw integers produced.

use crate::fixed::{
    fx_add_v, fx_mul_v, fx_sqrt_v, fx_sub_v, is_sqrt_of, Fixed, FX_SCALE,
};
use vstd::prelude::*;

verus! {

/// The raw component pair denoting one: `(FX_SCALE, 0)`.
pub open spec fn c_one_v() -> (int, int) {
    (FX_SCALE as int, 0)
}

/// Componentwise sum.
pub open spec fn c_add_v(a: (int, int), b: (int, int)) -> (int, int) {
    (fx_add_v(a.0, b.0), fx_add_v(a.1, b.1))
}

/// Componentwise difference.
pub open spec fn c_sub_v(a: (int, int), b: (int, int)) -> (int, int) {
    (fx_sub_v(a.0, b.0), fx_sub_v(a.1, b.1))
}

/// Complex product: real parts multiplied minus imaginary parts multiplied,
/// and the two cross products summed.
pub open spec fn c_mul_v(a: (int, int), b: (int, int)) -> (int, int) {
    (
        fx_sub_v(fx_mul_v(a.0, b.0), fx_mul_v(a.1, b.1)),
        fx_add_v(fx_mul_v(a.0, b.1), fx_mul_v(a.1, b.0)),
    )
}

/// Squared magnitude: the sum of the squared components.
pub open spec fn c_sq_len_v(a: (int, int)) -> int {
    fx_add_v(fx_mul_v(a.0, a.0), fx_mul_v(a.1, a.1))
}

/// The value multiplied by itself `n` times, with zero factors giving one.
pub open spec fn c_repeated_mul_v(a: (int, int), n: nat) -> (int, int)
    decreases n,
{
    if n == 0 {
        c_one_v()
    } else if n == 1 {
        a
    } else {
        c_mul_v(c_repeated_mul_v(a, (n - 1) as nat), a)
    }
}

/// One square-and-multiply pass: fold the low bit of `n` into `res`, square
/// `curr`, and continue on the remaining bits.
pub open spec fn c_binexp_v(res: (int, int), curr: (int, int), n: nat) -> (int, int)
    decreases n,
{
    if n == 0 {
        res
    } else {
        let folded = if n % 2 == 1 {
            c_mul_v(res, curr)
        } else {
            res
        };
        if n / 2 == 0 {
            folded
        } else {
            c_binexp_v(folded, c_mul_v(curr, curr), n / 2)
        }
    }
}

/// What `powi` computes: literal repeated products up to the cube, then
/// square-and-multiply from one.
pub open spec fn c_pow_v(a: (int, int), n: nat) -> (int, int) {
    if n == 0 {
        c_one_v()
    } else if n == 1 {
        a
    } else if n == 2 {
        c_mul_v(a, a)
    } else if n == 3 {
        c_mul_v(c_mul_v(a, a), a)
    } else {
        c_binexp_v(c_one_v(), a, n)
    }
}

/// Multiplying by the origin yields the origin exactly: both cross terms
/// vanish and the rounded scaling of zero is zero.
pub proof fn lemma_mul_by_origin(a: (int, int))
    ensures
        c_mul_v(a, (0int, 0int)) == (0int, 0int),
{
    assert(a.0 * 0 == 0) by (nonlinear_arith);
    assert(a.1 * 0 == 0) by (nonlinear_arith);
}

/// Square-and-multiply over the origin stays at the origin once a bit of
/// the exponent has been folded in.
proof fn lemma_binexp_origin(res: (int, int), n: nat)
    requires
        n >= 1,
    ensures
        c_binexp_v(res, (0int, 0int), n) == (0int, 0int),
    decreases n,
{
    lemma_mul_by_origin(res);
    lemma_mul_by_origin((0int, 0int));
    if n / 2 >= 1 {
        let folded = if n % 2 == 1 {
            c_mul_v(res, (0int, 0int))
        } else {
            res
        };
        lemma_binexp_origin(folded, n / 2);
    }
}

/// Every positive power of the origin is the origin.
pub proof fn lemma_pow_of_origin(p: nat)
    requires
        p >= 1,
    ensures
        c_pow_v((0int, 0int), p) == (0int, 0int),
{
    lemma_mul_by_origin((0int, 0int));
    if p >= 4 {
        lemma_binexp_origin(c_one_v(), p);
    } else if p == 3 {
        lemma_mul_by_origin(c_mul_v((0int, 0int), (0int, 0int)));
    }
}

/// A squared scalar is never negative.
pub proof fn lemma_square_nonneg(a: int)
    ensures
        fx_mul_v(a, a) >= 0,
{
    assert(a * a >= 0) by (nonlinear_arith);
    assert((a * a + (FX_SCALE as int) / 2) / (FX_SCALE as int) >= 0) by (nonlinear_arith)
        requires
            a * a >= 0,
    ;
}

/// A squared magnitude is never negative.
pub proof fn lemma_sq_len_nonneg(a: (int, int))
    ensures
        c_sq_len_v(a) >= 0,
{
    lemma_square_nonneg(a.0);
    lemma_square_nonneg(a.1);
}

/// For up to three factors, the power computed by `powi` is exactly the
/// value multiplied by itself that many times.
pub proof fn lemma_pow_matches_repeated_mul(a: (int, int), n: nat)
    requires
        n <= 3,
    ensures
        c_pow_v(a, n) == c_repeated_mul_v(a, n),
{
    if n == 2 {
        assert(c_repeated_mul_v(a, 2) == c_mul_v(c_repeated_mul_v(a, 1), a));
    } else if n == 3 {
        assert(c_repeated_mul_v(a, 2) == c_mul_v(c_repeated_mul_v(a, 1), a));
        assert(c_repeated_mul_v(a, 3) == c_mul_v(c_repeated_mul_v(a, 2), a));
    }
}

/// A point of the complex plane with fixed-point components.
#[derive(Clone, Copy, PartialEq, Eq, Structural, Debug)]
pub struct Complex {
    re: Fixed,
    im: Fixed,
}

impl View for Complex {
    type V = (int, int);

    closed spec fn view(&self) -> (int, int) {
        (self.re@, self.im@)
    }
}

impl Complex {
    /// Build a point from its two components.
    pub fn new(re: Fixed, im: Fixed) -> (r: Complex)
        ensures
            r@ == (re@, im@),
    {
        Complex { re, im }
    }

    /// The real component.
    pub fn real_part(&self) -> (r: Fixed)
        ensures
            r@ == self@.0,
    {
        self.re
    }

    /// The imaginary component.
    pub fn imag_part(&self) -> (r: Fixed)
        ensures
            r@ == self@.1,
    {
        self.im
    }

    /// Replace the real component.
    pub fn set_real(&mut self, re: Fixed)
        ensures
            final(self)@ == (re@, old(self)@.1),
    {
        self.re = re;
    }

    /// Replace the imaginary component.
    pub fn set_imag(&mut self, im: Fixed)
        ensures
            final(self)@ == (old(self)@.0, im@),
    {
        self.im = im;
    }

    /// The point denoting one.
    pub fn one() -> (r: Complex)
        ensures
            r@ == c_one_v(),
    {
        Complex { re: Fixed::one(), im: Fixed::zero() }
    }

    /// The origin.
    pub fn zero() -> (r: Complex)
        ensures
            r@ == (0int, 0int),
    {
        Complex { re: Fixed::zero(), im: Fixed::zero() }
    }

    /// Componentwise sum.
    pub fn plus(&self, other: &Complex) -> (r: Complex)
        ensures
            r@ == c_add_v(self@, other@),
    {
        Complex { re: self.re.plus(other.re), im: self.im.plus(other.im) }
    }

    /// Componentwise difference.
    pub fn minus(&self, other: &Complex) -> (r: Complex)
        ensures
            r@ == c_sub_v(self@, other@),
    {
        Complex { re: self.re.minus(other.re), im: self.im.minus(other.im) }
    }

    /// Complex product.
    pub fn mul_by(&self, other: &Complex) -> (r: Complex)
        ensures
            r@ == c_mul_v(self@, other@),
    {
        Complex {
            re: self.re.times(other.re).minus(self.im.times(other.im)),
            im: self.re.times(other.im).plus(self.im.times(other.re)),
        }
    }

    /// Squared magnitude; never negative.
    pub fn square_length(&self) -> (r: Fixed)
        ensures
            r@ == c_sq_len_v(self@),
            r@ >= 0,
    {
        proof {
            lemma_sq_len_nonneg(self@);
        }
        self.re.times(self.re).plus(self.im.times(self.im))
    }

    /// Magnitude: the exact floored square root of the squared magnitude.
    pub fn norm(&self) -> (r: Fixed)
        ensures
            r@ == fx_sqrt_v(c_sq_len_v(self@)),
            r@ >= 0,
            is_sqrt_of(r@, c_sq_len_v(self@) * (FX_SCALE as int)),
    {
        let sq = self.square_length();
        sq.sqrt()
    }

    /// Integer power by square-and-multiply, with the three smallest powers
    /// written as the literal repeated products.
    pub fn powi(&self, power: u32) -> (r: Complex)
        ensures
            r@ == c_pow_v(self@, power as nat),
            power <= 3 ==> r@ == c_repeated_mul_v(self@, power as nat),
    {
        proof {
            if power <= 3 {
                lemma_pow_matches_repeated_mul(self@, power as nat);
            }
        }
        match power {
            0 => Complex::one(),
            1 => *self,
            2 => self.mul_by(self),
            3 => self.mul_by(self).mul_by(self),
            _ => {
                let mut res = Complex::one();
                let mut curr = *self;
                let mut curr_pow = power;
                loop
                    invariant_except_break
                        curr_pow >= 1,
                        c_binexp_v(res@, curr@, curr_pow as nat) == c_binexp_v(
                            c_one_v(),
                            self@,
                            power as nat,
                        ),
                    ensures
                        res@ == c_binexp_v(c_one_v(), self@, power as nat),
                    decreases curr_pow,
                {
                    let ghost n: nat = curr_pow as nat;
                    let ghost entry_res = res@;
                    let ghost entry_curr = curr@;
                    if curr_pow % 2 == 1 {
                        res = res.mul_by(&curr);
                    }
                    curr_pow = curr_pow / 2;
                    proof {
                        reveal_with_fuel(c_binexp_v, 2);
                        assert(c_binexp_v(entry_res, entry_curr, n) == (if n / 2 == 0 {
                            res@
                        } else {
                            c_binexp_v(res@, c_mul_v(entry_curr, entry_curr), n / 2)
                        }));
                    }
                    if curr_pow == 0 {
                        break ;
                    }
                    curr = curr.mul_by(&curr);
                }
                res
            },
        }
    }
}

} // verus!
