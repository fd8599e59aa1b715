//! Signed fixed-point numbers with eight fractional bits, held as their raw `i32`.
use vstd::prelude::*;

verus! {

/// Number of fractional bits.
pub const FRAC_BITS: u32 = 8;

/// Raw value of one whole unit.
pub const ONE: i32 = 256;

/// Raw value of one half.
pub const HALF: i32 = 128;

/// Rust's `/` on integers: the quotient rounded towards zero.
pub open spec fn trunc_div(a: int, d: int) -> int
    recommends
        d > 0,
{
    if a >= 0 {
        a / d
    } else {
        -((-a) / d)
    }
}

/// Largest integer not above `raw / 256 + 1/2`: the nearest whole number, halves going up.
pub open spec fn round_raw(raw: int) -> int {
    (raw + HALF) / (ONE as int)
}

/// Raw value of the product of two raw values: the exact product, rounded down.
pub open spec fn mul_raw(a: int, b: int) -> int {
    (a * b) / (ONE as int)
}

pub open spec fn abs_int(a: int) -> int {
    if a < 0 {
        -a
    } else {
        a
    }
}

/// Multiplying by minus one negates exactly.
pub proof fn lemma_mul_minus_one(a: int)
    ensures
        mul_raw(a, -ONE) == -a,
{
    assert(a * -ONE == (-a) * ONE) by (nonlinear_arith);
    vstd::arithmetic::div_mod::lemma_div_multiples_vanish(-a, ONE as int);
}

/// A number `raw / 256`.
#[derive(Clone, Copy, Debug, PartialEq, Eq, Structural)]
pub struct Fixed {
    pub raw: i32,
}

impl Fixed {
    /// The raw value, as a mathematical integer.
    pub open spec fn val(self) -> int {
        self.raw as int
    }

    pub fn from_raw(raw: i32) -> (r: Fixed)
        ensures
            r.val() == raw,
    {
        Fixed { raw }
    }

    pub fn to_raw(self) -> (r: i32)
        ensures
            r == self.val(),
    {
        self.raw
    }

    /// The whole number `n`.
    pub fn new(n: i32) -> (r: Fixed)
        requires
            i32::MIN <= n * ONE <= i32::MAX,
        ensures
            r.val() == n * ONE,
    {
        Fixed { raw: n * ONE }
    }

    pub fn add(self, other: Fixed) -> (r: Fixed)
        requires
            i32::MIN <= self.val() + other.val() <= i32::MAX,
        ensures
            r.val() == self.val() + other.val(),
    {
        Fixed { raw: self.raw + other.raw }
    }

    pub fn sub(self, other: Fixed) -> (r: Fixed)
        requires
            i32::MIN <= self.val() - other.val() <= i32::MAX,
        ensures
            r.val() == self.val() - other.val(),
    {
        Fixed { raw: self.raw - other.raw }
    }

    pub fn neg(self) -> (r: Fixed)
        requires
            self.val() > i32::MIN,
        ensures
            r.val() == -self.val(),
    {
        Fixed { raw: -self.raw }
    }

    pub fn abs(self) -> (r: Fixed)
        requires
            self.val() > i32::MIN,
        ensures
            r.val() == abs_int(self.val()),
    {
        if self.raw < 0 {
            Fixed { raw: -self.raw }
        } else {
            self
        }
    }

    /// The product, rounded down to the nearest representable number.
    pub fn mul(self, other: Fixed) -> (r: Fixed)
        requires
            i32::MIN <= mul_raw(self.val(), other.val()) <= i32::MAX,
        ensures
            r.val() == mul_raw(self.val(), other.val()),
    {
        let p: i64 = (self.raw as i64) * (other.raw as i64);
        let q: i64 = p >> 8u32;
        proof {
            assert((p >> 8u32) == p / 256) by (bit_vector);
        }
        Fixed { raw: q as i32 }
    }

    /// Division by a positive integer, rounded towards zero.
    pub fn div_int(self, d: i32) -> (r: Fixed)
        requires
            d > 0,
        ensures
            r.val() == trunc_div(self.val(), d as int),
    {
        Fixed { raw: self.raw / d }
    }

    /// The nearest whole number; halves round up.
    pub fn round(self) -> (r: i32)
        requires
            self.val() + HALF <= i32::MAX,
        ensures
            r == round_raw(self.val()),
    {
        let v: i32 = self.raw + HALF;
        proof {
            assert((v >> 8u32) == v / 256) by (bit_vector);
        }
        v >> 8u32
    }
}

} // verus!
