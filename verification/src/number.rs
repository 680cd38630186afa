//! Numbers as the engine sees them: IEEE 754 binary64 values held as their
//! 64-bit patterns.
//!
//! The engine never does arithmetic on a number.  It only looks at the three
//! fields of the pattern (sign, biased exponent, fraction) to tell a zero or a
//! NaN, and flips the sign.  Everything else is asked of the host.
use vstd::arithmetic::power2::{lemma2_to64_rest, pow2};
use vstd::prelude::*;

verus! {

/// The pattern whose only set bit is the sign bit.
pub const SIGN_BIT: u64 = 0x8000_0000_0000_0000;

/// The number of fraction patterns: two to the power 52.
pub const FRACTION_SPAN: u64 = 0x0010_0000_0000_0000;

/// The biased exponent that the infinities and the NaNs share.
pub const EXPONENT_TOP: u64 = 0x7ff;

/// The pattern of the value one hundred.
pub const HUNDRED_BITS: u64 = 0x4059_0000_0000_0000;

/// A binary64 value, kept as its bit pattern.
///
/// Two numbers are equal when their patterns are equal, so a NaN equals
/// itself and the two zeros differ.
#[derive(Clone, Copy, Debug, PartialEq, Eq, Structural)]
pub struct Number {
    pub bits: u64,
}

impl Number {
    /// The sign bit is set.
    pub open spec fn is_negative(self) -> bool {
        self.bits >= SIGN_BIT
    }

    /// The pattern without its sign bit.
    pub open spec fn magnitude(self) -> nat {
        if self.bits >= SIGN_BIT {
            (self.bits - SIGN_BIT) as nat
        } else {
            self.bits as nat
        }
    }

    /// The biased exponent, from 0 to 2047.
    pub open spec fn exponent(self) -> nat {
        self.magnitude() / (FRACTION_SPAN as nat)
    }

    /// The 52 fraction bits.
    pub open spec fn fraction(self) -> nat {
        self.magnitude() % (FRACTION_SPAN as nat)
    }

    /// The number with the given sign, biased exponent and fraction.
    pub open spec fn compose(negative: bool, exponent: nat, fraction: nat) -> Number
        recommends
            exponent <= EXPONENT_TOP,
            fraction < FRACTION_SPAN,
    {
        let sign: nat = if negative { SIGN_BIT as nat } else { 0 };
        Number { bits: (sign + exponent * (FRACTION_SPAN as nat) + fraction) as u64 }
    }

    /// The integer that the fraction stands for: with the hidden leading bit,
    /// unless the exponent is zero.  A finite number is worth its significand
    /// times two to the power `exponent - 1075`.
    pub open spec fn significand(self) -> nat {
        if self.exponent() == 0 {
            self.fraction()
        } else {
            (FRACTION_SPAN as nat) + self.fraction()
        }
    }

    /// Not a number: the top exponent with a fraction other than zero.
    pub open spec fn spec_is_nan(self) -> bool {
        self.exponent() == EXPONENT_TOP && self.fraction() != 0
    }

    /// Positive or negative zero.
    pub open spec fn spec_is_zero(self) -> bool {
        self.exponent() == 0 && self.fraction() == 0
    }

    /// The same exponent and fraction under the opposite sign.
    pub open spec fn spec_negated(self) -> Number {
        Number::compose(!self.is_negative(), self.exponent(), self.fraction())
    }

    /// One hundred: positive, with the significand 25 * 2^48 scaled by 2^-46.
    pub open spec fn spec_hundred() -> Number {
        Number::compose(false, 1029, 0x0009_0000_0000_0000)
    }

    /// A pattern is its three fields put together again, and the fields are
    /// in range.
    pub proof fn lemma_fields(self)
        ensures
            self.exponent() <= EXPONENT_TOP,
            self.fraction() < FRACTION_SPAN,
            self == Number::compose(self.is_negative(), self.exponent(), self.fraction()),
    {
    }

    /// Composing a number from fields in range gives back those fields.
    pub proof fn lemma_compose(negative: bool, exponent: nat, fraction: nat)
        requires
            exponent <= EXPONENT_TOP,
            fraction < FRACTION_SPAN,
        ensures
            Number::compose(negative, exponent, fraction).is_negative() == negative,
            Number::compose(negative, exponent, fraction).exponent() == exponent,
            Number::compose(negative, exponent, fraction).fraction() == fraction,
    {
        let span = FRACTION_SPAN as nat;
        let m = exponent * span + fraction;
        assert(m < 0x800 * span) by (nonlinear_arith)
            requires
                exponent <= 0x7ff,
                fraction < span,
                m == exponent * span + fraction,
        ;
        assert(m / span == exponent && m % span == fraction) by (nonlinear_arith)
            requires
                fraction < span,
                span > 0,
                m == exponent * span + fraction,
        ;
    }

    /// Tells whether the number is a NaN.
    #[verifier::when_used_as_spec(spec_is_nan)]
    pub fn is_nan(self) -> (r: bool)
        ensures
            r == self.spec_is_nan(),
    {
        let bits = self.bits;
        let low: u64 = bits & 0x7fff_ffff_ffff_ffff;
        assert(low == if bits >= 0x8000_0000_0000_0000 {
            (bits - 0x8000_0000_0000_0000) as u64
        } else {
            bits
        }) by (bit_vector)
            requires
                low == bits & 0x7fff_ffff_ffff_ffff,
        ;
        low > 0x7ff0_0000_0000_0000
    }

    /// Tells whether the number is a zero of either sign.
    #[verifier::when_used_as_spec(spec_is_zero)]
    pub fn is_zero(self) -> (r: bool)
        ensures
            r == self.spec_is_zero(),
    {
        let bits = self.bits;
        let low: u64 = bits & 0x7fff_ffff_ffff_ffff;
        assert(low == if bits >= 0x8000_0000_0000_0000 {
            (bits - 0x8000_0000_0000_0000) as u64
        } else {
            bits
        }) by (bit_vector)
            requires
                low == bits & 0x7fff_ffff_ffff_ffff,
        ;
        low == 0
    }

    /// The number with its sign flipped; zeros and NaNs change sign too.
    #[verifier::when_used_as_spec(spec_negated)]
    pub fn negated(self) -> (r: Number)
        ensures
            r == self.spec_negated(),
    {
        let bits = self.bits;
        let flipped: u64 = bits ^ SIGN_BIT;
        assert(flipped == if bits >= 0x8000_0000_0000_0000 {
            (bits - 0x8000_0000_0000_0000) as u64
        } else {
            (bits + 0x8000_0000_0000_0000) as u64
        }) by (bit_vector)
            requires
                flipped == bits ^ 0x8000_0000_0000_0000,
        ;
        Number { bits: flipped }
    }

    /// The number one hundred.
    #[verifier::when_used_as_spec(spec_hundred)]
    pub fn hundred() -> (r: Number)
        ensures
            r == Number::spec_hundred(),
    {
        Number { bits: HUNDRED_BITS }
    }

    /// The pattern of one hundred denotes one hundred: it is positive, and
    /// its significand, 100 * 2^46, is scaled by 2^-46.
    pub proof fn lemma_hundred()
        ensures
            Number::spec_hundred().bits == HUNDRED_BITS,
            !Number::spec_hundred().is_negative(),
            Number::spec_hundred().exponent() == 1075 - 46,
            Number::spec_hundred().significand() == 100 * pow2(46),
    {
        lemma2_to64_rest();
        Number::lemma_compose(false, 1029, 0x0009_0000_0000_0000);
    }

    /// Flipping the sign twice gives the number back.
    pub proof fn lemma_negated_twice(self)
        ensures
            self.spec_negated().spec_negated() == self,
    {
    }

    /// Flipping the sign keeps a zero a zero and a NaN a NaN.
    pub proof fn lemma_negated_keeps_class(self)
        ensures
            self.spec_negated().spec_is_zero() == self.spec_is_zero(),
            self.spec_negated().spec_is_nan() == self.spec_is_nan(),
    {
    }
}

} // verus!
