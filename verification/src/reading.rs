//! Measured quantities as IEEE 754 binary64 bit patterns.
//!
//! The weather service reports temperature, humidity, pressure and wind speed
//! as JSON numbers, which decode to binary64. A [`Reading`] keeps the 64 bits
//! of such a number. Its exact value is a whole multiple of 2^-1074, so the
//! specifications count in that unit and never round.

use vstd::prelude::*;
use vstd::arithmetic::mul::{
    lemma_mul_basics, lemma_mul_inequality, lemma_mul_is_associative, lemma_mul_is_commutative,
    lemma_mul_nonnegative, lemma_mul_strict_inequality, lemma_mul_strictly_positive,
};
use vstd::arithmetic::power2::{
    lemma2_to64, lemma2_to64_rest, lemma_pow2_adds, lemma_pow2_pos,
    lemma_pow2_strictly_increases, pow2,
};
use vstd::bits::lemma_u64_shr_is_div;
use crate::arith::{
    lemma_pow2_reaches, lemma_quotient_order, lemma_scaled_order, lemma_small_quotient,
};

verus! {

/// Two to the 52nd: the weight of the lowest exponent bit.
pub const FRACTION_SPAN: u64 = 0x10_0000_0000_0000;

/// Two to the 63rd: the weight of the sign bit.
pub const SIGN_BIT: u64 = 0x8000_0000_0000_0000;

/// The exponent field of infinities and NaNs.
pub const EXPONENT_SPECIAL: u64 = 0x7ff;

/// The number of units of 2^-1074 in 1.
pub open spec fn unit() -> nat {
    pow2(1074)
}

/// One measured quantity: the bits of a binary64 number.
#[derive(Clone, Copy, Debug, PartialEq, Eq, Structural)]
pub struct Reading {
    pub bits: u64,
}

impl Reading {
    /// The sign bit is set.
    pub open spec fn sign_negative(self) -> bool {
        self.bits >= SIGN_BIT
    }

    /// The eleven exponent bits, as a number.
    pub open spec fn exponent_field(self) -> nat {
        ((self.bits as nat) / (FRACTION_SPAN as nat)) % 0x800
    }

    /// The fifty-two fraction bits, as a number.
    pub open spec fn fraction(self) -> nat {
        (self.bits as nat) % (FRACTION_SPAN as nat)
    }

    pub open spec fn is_nan(self) -> bool {
        self.exponent_field() == EXPONENT_SPECIAL && self.fraction() != 0
    }

    pub open spec fn is_infinite(self) -> bool {
        self.exponent_field() == EXPONENT_SPECIAL && self.fraction() == 0
    }

    pub open spec fn is_finite(self) -> bool {
        self.exponent_field() < EXPONENT_SPECIAL
    }

    /// The integer that the exponent scales: the fraction bits, with the
    /// implicit leading one unless the number is subnormal.
    pub open spec fn significand(self) -> nat {
        if self.exponent_field() == 0 {
            self.fraction()
        } else {
            FRACTION_SPAN as nat + self.fraction()
        }
    }

    /// The power of two by which the significand is multiplied to count
    /// units of 2^-1074.
    pub open spec fn scale(self) -> nat {
        if self.exponent_field() == 0 {
            0
        } else {
            (self.exponent_field() - 1) as nat
        }
    }

    /// The absolute value, in units of 2^-1074. An infinity counts as 2^1024;
    /// of a NaN the number means nothing.
    pub open spec fn magnitude(self) -> nat {
        self.significand() * pow2(self.scale())
    }

    /// The value, in units of 2^-1074.
    pub open spec fn units(self) -> int {
        if self.sign_negative() {
            -(self.magnitude() as int)
        } else {
            self.magnitude() as int
        }
    }

    /// The value is less than the integer `t`. False of a NaN, which is
    /// ordered with nothing.
    pub open spec fn below(self, t: int) -> bool {
        !self.is_nan() && self.units() < t * unit()
    }

    pub fn from_bits(bits: u64) -> (r: Reading)
        ensures
            r.bits == bits,
    {
        Reading { bits }
    }

    pub fn to_bits(&self) -> (bits: u64)
        ensures
            bits == self.bits,
    {
        self.bits
    }

    pub fn is_sign_negative(&self) -> (r: bool)
        ensures
            r == self.sign_negative(),
    {
        self.bits >= SIGN_BIT
    }

    pub fn exponent_bits(&self) -> (e: u64)
        ensures
            e == self.exponent_field(),
            e <= EXPONENT_SPECIAL,
    {
        (self.bits / FRACTION_SPAN) % 0x800
    }

    pub fn fraction_bits(&self) -> (f: u64)
        ensures
            f == self.fraction(),
            f < FRACTION_SPAN,
    {
        self.bits % FRACTION_SPAN
    }

    pub fn nan(&self) -> (r: bool)
        ensures
            r == self.is_nan(),
    {
        self.exponent_bits() == EXPONENT_SPECIAL && self.fraction_bits() != 0
    }

    pub fn infinite(&self) -> (r: bool)
        ensures
            r == self.is_infinite(),
    {
        self.exponent_bits() == EXPONENT_SPECIAL && self.fraction_bits() == 0
    }

    pub fn finite(&self) -> (r: bool)
        ensures
            r == self.is_finite(),
    {
        self.exponent_bits() < EXPONENT_SPECIAL
    }

    /// Whether the value is less than the integer `t`. As with the numbers
    /// themselves, a NaN is less than nothing.
    pub fn less_than(&self, t: u16) -> (r: bool)
        ensures
            r == self.below(t as int),
    {
        let e = self.exponent_bits();
        let f = self.fraction_bits();
        proof {
            lemma_pow2_pos(1074);
            lemma_pow2_pos(self.scale());
            lemma2_to64();
            lemma_mul_basics(pow2(self.scale()) as int);
            lemma_mul_basics(self.significand() as int);
            lemma_mul_nonnegative(t as int, unit() as int);
            if t > 0 {
                lemma_mul_strictly_positive(t as int, unit() as int);
            }
            if self.significand() > 0 {
                lemma_mul_strictly_positive(self.significand() as int, pow2(self.scale()) as int);
            }
        }
        if e == EXPONENT_SPECIAL && f != 0 {
            false
        } else if e == 0 && f == 0 {
            // Zero, of either sign.
            assert(self.magnitude() == 0);
            t > 0
        } else if self.bits >= SIGN_BIT {
            // Negative, and `t` is not.
            assert(self.magnitude() > 0);
            true
        } else if e == 0 {
            // Subnormal: more than zero and less than one.
            proof {
                lemma_unit_exceeds_fraction();
                if t > 0 {
                    lemma_mul_inequality(1, t as int, unit() as int);
                }
            }
            assert(self.magnitude() == f);
            t > 0
        } else if e >= 1075 {
            // A whole number of at least 2^52, or positive infinity.
            proof {
                lemma_large_exponent_magnitude(*self);
                lemma_mul_strict_inequality(t as int, FRACTION_SPAN as int, unit() as int);
            }
            false
        } else {
            // The significand over 2^k: compare its whole part with `t`.
            let k: u64 = 1075 - e;
            let m: u64 = FRACTION_SPAN + f;
            proof {
                let p = pow2((e - 1) as nat) as int;
                let q = pow2(k as nat) as int;
                lemma_pow2_adds((e - 1) as nat, k as nat);
                lemma_pow2_pos(k as nat);
                lemma_mul_is_associative(t as int, q, p);
                lemma_mul_is_commutative(p, q);
                lemma_scaled_order(m as int, t * q, p);
                lemma_quotient_order(m as int, t as int, q);
                assert(self.magnitude() == m * p);
                assert(unit() == q * p);
                assert(self.below(t as int) == ((m as int) / q < t));
            }
            if k >= 64 {
                proof {
                    lemma_pow2_reaches(64, k as nat);
                    lemma_small_quotient(m as int, pow2(k as nat) as int);
                }
                t > 0
            } else {
                proof {
                    lemma_u64_shr_is_div(m, k);
                }
                (m >> k) < t as u64
            }
        }
    }
}

/// Every fraction field is smaller than one whole, counted in units of 2^-1074.
pub proof fn lemma_unit_exceeds_fraction()
    ensures
        unit() > FRACTION_SPAN,
{
    lemma_pow2_strictly_increases(52, 1074);
    lemma2_to64_rest();
}

/// From exponent field 1075 on, a reading is a whole number of at least 2^52.
pub proof fn lemma_large_exponent_magnitude(r: Reading)
    requires
        r.exponent_field() >= 1075,
    ensures
        r.magnitude() == r.significand() * pow2((r.exponent_field() - 1075) as nat) * unit(),
        r.magnitude() >= FRACTION_SPAN * unit(),
{
    let s = r.significand() as int;
    let w = pow2((r.exponent_field() - 1075) as nat) as int;
    let u = unit() as int;
    lemma_pow2_adds((r.exponent_field() - 1075) as nat, 1074);
    lemma_pow2_pos((r.exponent_field() - 1075) as nat);
    lemma_pow2_pos(1074);
    lemma_mul_is_associative(s, w, u);
    lemma_mul_inequality(1, w, s);
    lemma_mul_is_commutative(s, w);
    lemma_mul_inequality(FRACTION_SPAN as int, s * w, u);
}

} // verus!
