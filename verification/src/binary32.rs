//! IEEE-754 binary32 numbers, held by their bit patterns.
//!
//! The angles of the camera are single-precision numbers. This crate never
//! does arithmetic on them; it stores them and puts them in order, and both
//! can be done on the bit pattern alone. What a pattern stands for is given
//! here as an integer: the number it encodes, counted in units of 2^-149, the
//! smallest step the format can take. Every finite binary32 number is a whole
//! multiple of that unit, so nothing is rounded.

use vstd::prelude::*;
use vstd::arithmetic::power2::{pow2, lemma_pow2_pos, lemma_pow2_unfold, lemma_pow2_adds, lemma_pow2_strictly_increases, lemma2_to64};
use vstd::arithmetic::mul::{lemma_mul_strict_inequality, lemma_mul_inequality, lemma_mul_is_associative};

verus! {

/// The sign bit of a pattern.
pub const SIGN_BIT: u32 = 0x8000_0000;

/// The pattern of positive infinity: every exponent bit set, no fraction bit.
pub const INFINITY_BITS: u32 = 0x7f80_0000;

/// Two to the power 23: one more than the largest fraction field.
pub const FRACTION_SPAN: u32 = 0x0080_0000;

/// A binary32 number, as the 32 bits that encode it.
#[derive(Clone, Copy, Debug)]
pub struct Binary32 {
    pub bits: u32,
}

impl Binary32 {
    /// The pattern without its sign bit.
    pub open spec fn abs_bits(self) -> nat {
        if self.bits >= SIGN_BIT {
            (self.bits - SIGN_BIT) as nat
        } else {
            self.bits as nat
        }
    }

    /// The sign bit is set. True of negative numbers, of negative zero and of
    /// some NaNs.
    pub open spec fn sign(self) -> bool {
        self.bits >= SIGN_BIT
    }

    /// The biased exponent field, 0 to 255.
    pub open spec fn exponent(self) -> nat {
        self.abs_bits() / (FRACTION_SPAN as nat)
    }

    /// The fraction field, 0 to 2^23 - 1.
    pub open spec fn fraction(self) -> nat {
        self.abs_bits() % (FRACTION_SPAN as nat)
    }

    /// The pattern encodes no number.
    pub open spec fn spec_is_nan(self) -> bool {
        self.abs_bits() > INFINITY_BITS
    }

    /// The size of the number in units of 2^-149, the sign left aside.
    ///
    /// With exponent field 0 the fraction counts units directly. Otherwise the
    /// fraction gets its hidden leading bit and is doubled once for every
    /// step of the exponent above 1. An infinity is read by the same rule and
    /// so stands at 2^128, beyond every finite number.
    pub open spec fn magnitude(self) -> nat {
        if self.exponent() == 0 {
            self.fraction()
        } else {
            ((FRACTION_SPAN + self.fraction()) * pow2((self.exponent() - 1) as nat)) as nat
        }
    }

    /// The number in units of 2^-149. Both zeros give 0.
    pub open spec fn scaled(self) -> int {
        if self.sign() {
            -(self.magnitude() as int)
        } else {
            self.magnitude() as int
        }
    }

    /// `self < other` as IEEE-754 orders them: both are numbers, and the
    /// first is the smaller one.
    pub open spec fn lt(self, other: Binary32) -> bool {
        &&& !self.spec_is_nan()
        &&& !other.spec_is_nan()
        &&& self.scaled() < other.scaled()
    }

    /// `self` is a number and lies between the whole numbers `low` and
    /// `high`, both included.
    pub open spec fn within(self, low: int, high: int) -> bool {
        &&& !self.spec_is_nan()
        &&& low * pow2(149) <= self.scaled() <= high * pow2(149)
    }

    /// The integer whose order is the order of the numbers: the pattern
    /// without its sign, negated where the sign is set.
    pub open spec fn order_key(self) -> int {
        if self.sign() {
            -(self.abs_bits() as int)
        } else {
            self.abs_bits() as int
        }
    }

    /// The number with the given bit pattern.
    pub fn from_bits(bits: u32) -> (x: Binary32)
        ensures
            x.bits == bits,
    {
        Binary32 { bits }
    }

    /// The bit pattern of the number.
    pub fn to_bits(self) -> (bits: u32)
        ensures
            bits == self.bits,
    {
        self.bits
    }

    /// Whether the pattern encodes no number.
    #[verifier::when_used_as_spec(spec_is_nan)]
    pub fn is_nan(self) -> (nan: bool)
        ensures
            nan == self.spec_is_nan(),
    {
        self.strip_sign() > INFINITY_BITS
    }

    /// Whether `self < other` holds as IEEE-754 defines it. False as soon as
    /// one of the two is NaN; the two zeros are equal.
    pub fn less_than(self, other: Binary32) -> (less: bool)
        ensures
            less == self.lt(other),
    {
        if self.is_nan() || other.is_nan() {
            return false;
        }
        proof {
            lemma_order_key(self, other);
        }
        self.key() < other.key()
    }

    fn strip_sign(self) -> (abs: u32)
        ensures
            abs == self.abs_bits(),
    {
        if self.bits >= SIGN_BIT {
            self.bits - SIGN_BIT
        } else {
            self.bits
        }
    }

    fn key(self) -> (k: i64)
        ensures
            k == self.order_key(),
    {
        let abs: u32 = self.strip_sign();
        if self.bits >= SIGN_BIT {
            -(abs as i64)
        } else {
            abs as i64
        }
    }
}

/// A pattern with a larger unsigned part encodes a larger magnitude.
pub proof fn lemma_magnitude_increases(x: Binary32, y: Binary32)
    requires
        x.abs_bits() < y.abs_bits(),
    ensures
        x.magnitude() < y.magnitude(),
{
    let span = FRACTION_SPAN as int;
    let ex = x.exponent();
    let ey = y.exponent();
    let fx = x.fraction() as int;
    let fy = y.fraction() as int;
    assert(ex <= ey);
    if ex == ey {
        assert(fx < fy);
        if ex > 0 {
            let p = pow2((ex - 1) as nat) as int;
            lemma_pow2_pos((ex - 1) as nat);
            lemma_mul_strict_inequality(span + fx, span + fy, p);
        }
    } else {
        // x stays below the first number of its successor exponent, and y is
        // at least the first number of its own.
        let q = pow2((ey - 1) as nat) as int;
        lemma_pow2_pos((ey - 1) as nat);
        lemma_mul_inequality(span, span + fy, q);
        assert(span * q <= y.magnitude());
        if ex == 0 {
            assert(x.magnitude() < span);
            lemma_mul_inequality(1, q, span);
            assert(span * q == q * span) by (nonlinear_arith);
        } else {
            let p = pow2((ex - 1) as nat) as int;
            lemma_pow2_pos((ex - 1) as nat);
            lemma_mul_strict_inequality(span + fx, 2 * span, p);
            lemma_pow2_unfold(ex);
            assert((2 * span) * p == span * (2 * p)) by (nonlinear_arith);
            assert(x.magnitude() < span * pow2(ex));
            if ex < ey - 1 {
                lemma_pow2_strictly_increases(ex, (ey - 1) as nat);
            }
            lemma_mul_inequality(pow2(ex) as int, q, span);
            assert(span * pow2(ex) == pow2(ex) * span) by (nonlinear_arith);
            assert(span * q == q * span) by (nonlinear_arith);
        }
    }
}

/// Among numbers, the order of the keys is the order of the values.
pub proof fn lemma_order_key(x: Binary32, y: Binary32)
    ensures
        x.order_key() < y.order_key() <==> x.scaled() < y.scaled(),
        x.order_key() == y.order_key() <==> x.scaled() == y.scaled(),
{
    let zero = Binary32 { bits: 0 };
    assert(zero.magnitude() == 0);
    if x.abs_bits() < y.abs_bits() {
        lemma_magnitude_increases(x, y);
    }
    if y.abs_bits() < x.abs_bits() {
        lemma_magnitude_increases(y, x);
    }
    if 0 < x.abs_bits() {
        lemma_magnitude_increases(zero, x);
    }
    if 0 < y.abs_bits() {
        lemma_magnitude_increases(zero, y);
    }
    if x.abs_bits() == y.abs_bits() {
        assert(x.magnitude() == y.magnitude());
    }
}

/// The pattern whose fraction field is `whole * 2^(23 - power)` under the
/// exponent field `127 + power` encodes the whole number `whole`, provided
/// `2^power <= whole < 2^(power + 1)`.
pub proof fn lemma_whole_number(x: Binary32, whole: nat, power: nat)
    requires
        power <= 23,
        pow2(power) <= whole < 2 * pow2(power),
        x.abs_bits() == (127 + power) * FRACTION_SPAN + (whole - pow2(power)) * pow2((23 - power) as nat),
    ensures
        !x.spec_is_nan(),
        x.magnitude() == whole * pow2(149),
{
    let span = FRACTION_SPAN as int;
    let up = pow2((23 - power) as nat) as int;
    let low = pow2(power) as int;
    let f = (whole - low) * up;
    lemma2_to64();
    lemma_pow2_adds(power, (23 - power) as nat);
    assert(low * up == span);
    lemma_pow2_pos((23 - power) as nat);
    assert(0 <= f < span) by (nonlinear_arith)
        requires
            f == (whole - low) * up,
            low <= whole < 2 * low,
            low * up == span,
            up > 0,
    ;
    assert(x.exponent() == 127 + power && x.fraction() == f) by (nonlinear_arith)
        requires
            x.abs_bits() == (127 + power) * span + f,
            0 <= f < span,
            span == 0x80_0000,
            x.exponent() == x.abs_bits() / (span as nat),
            x.fraction() == x.abs_bits() % (span as nat),
    ;
    assert(span + f == whole * up) by (nonlinear_arith)
        requires
            f == (whole - low) * up,
            low * up == span,
    ;
    lemma_pow2_adds((23 - power) as nat, 126 + power);
    assert(pow2(149) == up * pow2(126 + power));
    lemma_mul_is_associative(whole as int, up, pow2(126 + power) as int);
}

} // verus!
