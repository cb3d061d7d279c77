//! Channel values are IEEE-754 binary32 numbers. This module holds such a
//! number by its 32-bit encoding and works on the encoding with integer
//! arithmetic only: building a number from register words, ordering two
//! numbers, and truncating a number to a register word.

use vstd::arithmetic::div_mod::{
    lemma_basic_div, lemma_div_is_ordered, lemma_div_is_ordered_by_denominator,
    lemma_div_multiples_vanish, lemma_div_multiples_vanish_quotient,
};
use vstd::arithmetic::mul::{
    lemma_mul_inequality, lemma_mul_is_associative, lemma_mul_strict_inequality,
};
use vstd::arithmetic::power2::{
    lemma2_to64, lemma_pow2_adds, lemma_pow2_pos, lemma_pow2_strictly_increases,
    lemma_pow2_unfold, pow2,
};
use vstd::bits::lemma_u32_shr_is_div;
use vstd::prelude::*;

verus! {

/// Weight of the sign bit of an encoding.
pub const SIGN_WEIGHT: u32 = 0x8000_0000;

/// Weight of the lowest exponent bit; also the implicit leading bit of a
/// normal number's significand.
pub const HIDDEN_BIT: u32 = 0x0080_0000;

/// Encoding of positive infinity: every larger magnitude is a NaN.
pub const INFINITY_BITS: u32 = 0x7f80_0000;

/// Encoding of the number one.
pub const ONE_BITS: u32 = 0x3f80_0000;

/// The exponent field of the number one.
pub const EXPONENT_BIAS: u32 = 127;

/// An IEEE-754 binary32 number, held by its encoding. Two values are `==`
/// when their encodings are, so the two zeros differ and a NaN equals itself;
/// the numeric order is given by [`Binary32::lt`] and [`Binary32::gt`].
#[derive(Clone, Copy, Debug, PartialEq, Eq, Structural)]
pub struct Binary32 {
    pub bits: u32,
}

impl Binary32 {
    /// The encoding without its sign bit.
    pub open spec fn magnitude(&self) -> int {
        self.bits as int % 0x8000_0000
    }

    pub open spec fn is_negative(&self) -> bool {
        self.bits >= 0x8000_0000
    }

    /// The biased exponent, from 0 to 255.
    pub open spec fn exponent(&self) -> int {
        self.magnitude() / 0x80_0000
    }

    /// The 23 stored bits of the significand.
    pub open spec fn fraction(&self) -> int {
        self.bits as int % 0x80_0000
    }

    pub open spec fn is_nan(&self) -> bool {
        self.magnitude() > 0x7f80_0000
    }

    pub open spec fn is_infinite(&self) -> bool {
        self.magnitude() == 0x7f80_0000
    }

    pub open spec fn is_finite(&self) -> bool {
        self.magnitude() < 0x7f80_0000
    }

    /// For a finite encoding, the absolute value of the number multiplied by
    /// `2^149`, which is a natural number: a subnormal is `fraction * 2^-149`
    /// and a normal number is `(2^23 + fraction) * 2^(exponent - 150)`.
    pub open spec fn scaled_magnitude(&self) -> nat {
        if self.exponent() == 0 {
            self.fraction() as nat
        } else {
            ((0x80_0000 + self.fraction()) * (pow2((self.exponent() - 1) as nat) as int)) as nat
        }
    }

    /// The encoding is the non-negative finite number `x`.
    pub open spec fn holds_integer(&self, x: int) -> bool {
        &&& !self.is_negative()
        &&& self.is_finite()
        &&& self.scaled_magnitude() == x * pow2(149)
    }

    /// For a finite encoding, the number itself multiplied by `2^149`.
    pub open spec fn scaled(&self) -> int {
        if self.is_negative() {
            -(self.scaled_magnitude() as int)
        } else {
            self.scaled_magnitude() as int
        }
    }

    /// Position in the numeric order of the numbers that are not NaN: a
    /// sign-magnitude integer, on which both zeros fall together.
    pub open spec fn order_key(&self) -> int {
        if self.is_negative() {
            -self.magnitude()
        } else {
            self.magnitude()
        }
    }

    /// Numeric `<`: false as soon as one side is a NaN.
    pub open spec fn less_than(&self, other: Binary32) -> bool {
        &&& !self.is_nan()
        &&& !other.is_nan()
        &&& self.order_key() < other.order_key()
    }

    /// Numeric `>`: false as soon as one side is a NaN.
    pub open spec fn greater_than(&self, other: Binary32) -> bool {
        other.less_than(*self)
    }

    /// What a saturating, truncating conversion to a 16-bit register gives:
    /// 0 for a NaN and for every number below one, 65535 for every number
    /// from 65535 up, and the integer part in between.
    pub open spec fn truncated(&self) -> int {
        if self.is_nan() || self.is_negative() {
            0
        } else if self.is_infinite() {
            0xffff
        } else if self.scaled_magnitude() as int / (pow2(149) as int) > 0xffff {
            0xffff
        } else {
            self.scaled_magnitude() as int / (pow2(149) as int)
        }
    }

    pub fn from_bits(bits: u32) -> (out: Binary32)
        ensures
            out.bits == bits,
    {
        Binary32 { bits }
    }

    pub fn to_bits(self) -> (out: u32)
        ensures
            out == self.bits,
    {
        self.bits
    }

    /// Positive zero.
    pub fn zero() -> (out: Binary32)
        ensures
            out.bits == 0,
            out.holds_integer(0),
    {
        let out = Binary32 { bits: 0 };
        assert(out.scaled_magnitude() == 0);
        assert(0 * pow2(149) == 0);
        out
    }

    /// The number one.
    pub fn one() -> (out: Binary32)
        ensures
            out.bits == 0x3f80_0000,
            out.holds_integer(1),
    {
        let out = Binary32 { bits: ONE_BITS };
        proof {
            assert(out.exponent() == 127);
            assert(out.fraction() == 0);
            lemma2_to64();
            lemma_pow2_adds(23, 126);
            assert(out.scaled_magnitude() == 0x80_0000 * pow2(126));
            assert(pow2(23) == 0x80_0000);
        }
        out
    }

    /// The number whose encoding is two consecutive register words, the
    /// first word being the high-order half.
    pub fn from_words(high: u16, low: u16) -> (out: Binary32)
        ensures
            out.bits == high * 0x1_0000 + low,
    {
        let high_part: u32 = (high as u32) * 0x1_0000;
        Binary32 { bits: high_part + (low as u32) }
    }

    /// The number equal to an unsigned register word. Every 16-bit integer
    /// has an exact encoding.
    pub fn from_u16(x: u16) -> (out: Binary32)
        ensures
            out.holds_integer(x as int),
    {
        if x == 0 {
            return Binary32::zero();
        }
        let mut significand: u32 = x as u32;
        let mut exponent: u32 = EXPONENT_BIAS + 23;
        let ghost mut doublings: nat = 0;
        proof {
            lemma2_to64();
            assert(x * pow2(0) == x);
        }
        while significand < HIDDEN_BIT
            invariant
                x >= 1,
                significand >= 1,
                significand == x * pow2(doublings),
                doublings + exponent == 150,
                doublings <= 23,
                significand < 0x100_0000,
            decreases 23 - doublings,
        {
            proof {
                lemma2_to64();
                lemma_pow2_pos(doublings);
                if doublings >= 23 {
                    if doublings > 23 {
                        lemma_pow2_strictly_increases(23, doublings);
                    }
                    lemma_mul_inequality(1, x as int, pow2(doublings) as int);
                    assert(false);
                }
                lemma_pow2_unfold(doublings + 1);
                lemma_mul_is_associative(x as int, 2, pow2(doublings) as int);
                assert(x * (2 * pow2(doublings)) == 2 * (x * pow2(doublings))) by (nonlinear_arith);
            }
            significand = significand * 2;
            exponent = exponent - 1;
            proof {
                doublings = doublings + 1;
            }
        }
        let fraction: u32 = significand - HIDDEN_BIT;
        let out = Binary32 { bits: exponent * HIDDEN_BIT + fraction };
        proof {
            assert(out.magnitude() == out.bits);
            assert(out.exponent() == exponent);
            assert(out.fraction() == fraction);
            lemma_pow2_adds(doublings, (exponent - 1) as nat);
            lemma_mul_is_associative(
                x as int,
                pow2(doublings) as int,
                pow2((exponent - 1) as nat) as int,
            );
            assert(doublings + (exponent - 1) as nat == 149);
        }
        out
    }

    /// Numeric `<`.
    pub fn lt(self, other: Binary32) -> (out: bool)
        ensures
            out == self.less_than(other),
    {
        let a: u32 = self.bits % SIGN_WEIGHT;
        let b: u32 = other.bits % SIGN_WEIGHT;
        if a > INFINITY_BITS || b > INFINITY_BITS {
            return false;
        }
        let a_negative = self.bits >= SIGN_WEIGHT;
        let b_negative = other.bits >= SIGN_WEIGHT;
        if a_negative {
            if b_negative {
                b < a
            } else {
                a > 0 || b > 0
            }
        } else {
            if b_negative {
                false
            } else {
                a < b
            }
        }
    }

    /// Numeric `>`.
    pub fn gt(self, other: Binary32) -> (out: bool)
        ensures
            out == self.greater_than(other),
    {
        other.lt(self)
    }

    /// Saturating conversion to an unsigned register word, the fraction cut
    /// off.
    pub fn to_u16(self) -> (out: u16)
        ensures
            out == self.truncated(),
    {
        let magnitude: u32 = self.bits % SIGN_WEIGHT;
        if magnitude > INFINITY_BITS || self.bits >= SIGN_WEIGHT {
            return 0;
        }
        if magnitude == INFINITY_BITS {
            return 0xffff;
        }
        let exponent: u32 = magnitude / HIDDEN_BIT;
        let fraction: u32 = self.bits % HIDDEN_BIT;
        assert(self.exponent() == exponent);
        assert(self.fraction() == fraction);
        if exponent < EXPONENT_BIAS {
            proof {
                lemma_below_one(exponent as int, fraction as int);
            }
            return 0;
        }
        if exponent >= EXPONENT_BIAS + 16 {
            proof {
                lemma_above_range(exponent as int, fraction as int);
            }
            return 0xffff;
        }
        let significand: u32 = HIDDEN_BIT + fraction;
        let shift: u32 = EXPONENT_BIAS + 23 - exponent;
        let whole: u32 = significand >> shift;
        proof {
            lemma_u32_shr_is_div(significand, shift);
            lemma_integer_part(exponent as int, significand as int);
            lemma2_to64();
            lemma_pow2_pos(shift as nat);
            if shift > 8 {
                lemma_pow2_strictly_increases(8, shift as nat);
            }
            assert(whole <= significand as int / 0x100) by {
                lemma_div_is_ordered_by_divisor(significand as int, 0x100, pow2(shift as nat) as int);
            }
        }
        whole as u16
    }
}

/// The magnitude of a finite number lies in the binade that its exponent
/// names.
proof fn lemma_binade(x: Binary32)
    requires
        x.is_finite(),
    ensures
        0 <= x.exponent() < 255,
        0 <= x.fraction() < 0x80_0000,
        x.magnitude() == x.exponent() * 0x80_0000 + x.fraction(),
        x.exponent() == 0 ==> x.scaled_magnitude() == x.fraction(),
        x.exponent() > 0 ==> pow2((x.exponent() + 22) as nat) <= x.scaled_magnitude() < pow2(
            (x.exponent() + 23) as nat,
        ),
{
    let e = x.exponent();
    let f = x.fraction();
    if e > 0 {
        let p = pow2((e - 1) as nat) as int;
        lemma2_to64();
        lemma_pow2_pos((e - 1) as nat);
        lemma_pow2_adds(23, (e - 1) as nat);
        lemma_pow2_adds(24, (e - 1) as nat);
        assert(23 + (e - 1) as nat == (e + 22) as nat);
        assert(24 + (e - 1) as nat == (e + 23) as nat);
        assert(0x80_0000 * p <= (0x80_0000 + f) * p < 0x100_0000 * p) by (nonlinear_arith)
            requires
                0 <= f < 0x80_0000,
                p > 0,
        ;
    }
}

/// Among finite numbers a larger magnitude of the encoding is a larger
/// magnitude of the number.
proof fn lemma_magnitude_increases(a: Binary32, b: Binary32)
    requires
        a.is_finite(),
        b.is_finite(),
        a.magnitude() < b.magnitude(),
    ensures
        a.scaled_magnitude() < b.scaled_magnitude(),
{
    lemma_binade(a);
    lemma_binade(b);
    let ea = a.exponent();
    let eb = b.exponent();
    if ea == eb {
        if ea > 0 {
            let p = pow2((ea - 1) as nat) as int;
            lemma_pow2_pos((ea - 1) as nat);
            lemma_mul_strict_inequality(0x80_0000 + a.fraction(), 0x80_0000 + b.fraction(), p);
        }
    } else {
        assert(ea < eb);
        lemma2_to64();
        if ea + 23 < eb + 22 {
            lemma_pow2_strictly_increases((ea + 23) as nat, (eb + 22) as nat);
        }
    }
}

/// Among finite numbers the order of the encodings' keys is the order of
/// the numbers, and two keys are equal exactly when the numbers are: the
/// comparison by keys is the numeric comparison.
pub proof fn lemma_order_is_numeric(a: Binary32, b: Binary32)
    requires
        a.is_finite(),
        b.is_finite(),
    ensures
        a.less_than(b) <==> a.scaled() < b.scaled(),
        a.greater_than(b) <==> a.scaled() > b.scaled(),
        a.order_key() == b.order_key() <==> a.scaled() == b.scaled(),
{
    lemma_binade(a);
    lemma_binade(b);
    if a.magnitude() < b.magnitude() {
        lemma_magnitude_increases(a, b);
    }
    if b.magnitude() < a.magnitude() {
        lemma_magnitude_increases(b, a);
    }
    let zero = Binary32 { bits: 0 };
    assert(zero.scaled_magnitude() == 0);
    if 0 < a.magnitude() {
        lemma_magnitude_increases(zero, a);
    }
    if 0 < b.magnitude() {
        lemma_magnitude_increases(zero, b);
    }
}

/// An infinity lies beyond every number: the comparison puts positive
/// infinity above, and negative infinity below, everything that is finite.
pub proof fn lemma_infinity_is_outermost(a: Binary32, infinity: Binary32)
    requires
        a.is_finite(),
        infinity.is_infinite(),
    ensures
        !infinity.is_negative() ==> a.less_than(infinity),
        infinity.is_negative() ==> infinity.less_than(a),
{
}

/// A NaN is neither below nor above anything.
pub proof fn lemma_nan_is_unordered(a: Binary32, nan: Binary32)
    requires
        nan.is_nan(),
    ensures
        !a.less_than(nan),
        !nan.less_than(a),
        !a.greater_than(nan),
        !nan.greater_than(a),
{
}

/// No two encodings stand for the same non-negative integer: what
/// [`Binary32::holds_integer`] says of a number fixes its encoding.
pub proof fn lemma_integer_encoding_is_unique(a: Binary32, b: Binary32, x: int)
    requires
        a.holds_integer(x),
        b.holds_integer(x),
    ensures
        a == b,
{
    if a.magnitude() < b.magnitude() {
        lemma_magnitude_increases(a, b);
    }
    if b.magnitude() < a.magnitude() {
        lemma_magnitude_increases(b, a);
    }
}

/// A register word that was read as a number is written back as the same
/// word: truncating the number of an integer up to 65535 gives the integer.
pub proof fn lemma_word_survives(a: Binary32, x: int)
    requires
        a.holds_integer(x),
        0 <= x <= 0xffff,
    ensures
        a.truncated() == x,
{
    lemma_pow2_pos(149);
    lemma_div_multiples_vanish(x, pow2(149) as int);
    assert(x * pow2(149) == (pow2(149) as int) * x) by (nonlinear_arith);
}

/// A larger divisor gives no larger quotient.
proof fn lemma_div_is_ordered_by_divisor(x: int, small: int, large: int)
    requires
        0 <= x,
        0 < small <= large,
    ensures
        x / large <= x / small,
{
    lemma_div_is_ordered_by_denominator(x, small, large);
}

/// A number whose exponent is below the bias is smaller than one.
proof fn lemma_below_one(exponent: int, fraction: int)
    requires
        0 <= exponent < 127,
        0 <= fraction < 0x80_0000,
    ensures
        exponent == 0 ==> fraction / (pow2(149) as int) == 0,
        exponent > 0 ==> ((0x80_0000 + fraction) * (pow2((exponent - 1) as nat) as int)) / (pow2(
            149,
        ) as int) == 0,
{
    lemma2_to64();
    lemma_pow2_pos(149);
    lemma_pow2_adds(24, 125);
    lemma_pow2_strictly_increases(24, 149);
    if exponent == 0 {
        lemma_basic_div(fraction, pow2(149) as int);
    } else {
        let p = pow2((exponent - 1) as nat) as int;
        lemma_pow2_pos((exponent - 1) as nat);
        if exponent - 1 < 125 {
            lemma_pow2_strictly_increases((exponent - 1) as nat, 125);
        }
        let p125 = pow2(125) as int;
        assert(p <= p125);
        let s = 0x80_0000 + fraction;
        assert(0 <= s * p < 0x100_0000 * p125) by (nonlinear_arith)
            requires
                0 < s < 0x100_0000,
                0 < p <= p125,
        ;
        lemma_basic_div(s * p, pow2(149) as int);
    }
}

/// A number whose exponent is sixteen or more above the bias is at least
/// `2^16`.
proof fn lemma_above_range(exponent: int, fraction: int)
    requires
        143 <= exponent < 255,
        0 <= fraction < 0x80_0000,
    ensures
        ((0x80_0000 + fraction) * (pow2((exponent - 1) as nat) as int)) / (pow2(149) as int)
            > 0xffff,
{
    lemma2_to64();
    lemma_pow2_pos(149);
    lemma_pow2_pos(142);
    lemma_pow2_adds(16, 149);
    lemma_pow2_adds(23, 142);
    let p = pow2((exponent - 1) as nat) as int;
    let p142 = pow2(142) as int;
    let p149 = pow2(149) as int;
    if exponent - 1 > 142 {
        lemma_pow2_strictly_increases(142, (exponent - 1) as nat);
    }
    assert(p >= p142);
    let s = 0x80_0000 + fraction;
    assert(s * p >= 0x80_0000 * p142) by (nonlinear_arith)
        requires
            s >= 0x80_0000,
            p >= p142,
            p142 > 0,
    ;
    assert(0x80_0000 * p142 == 0x1_0000 * p149);
    assert(0x1_0000 * p149 == p149 * 0x1_0000) by (nonlinear_arith);
    lemma_div_is_ordered(p149 * 0x1_0000, s * p, p149);
    lemma_div_multiples_vanish(0x1_0000, p149);
}

/// The integer part of a normal number between one and `2^16`: its
/// significand with the fraction bits shifted out.
proof fn lemma_integer_part(exponent: int, significand: int)
    requires
        127 <= exponent <= 150,
        0 <= significand,
    ensures
        (significand * (pow2((exponent - 1) as nat) as int)) / (pow2(149) as int) == significand
            / (pow2((150 - exponent) as nat) as int),
{
    let low = pow2((exponent - 1) as nat) as int;
    let shift = pow2((150 - exponent) as nat) as int;
    lemma_pow2_pos((exponent - 1) as nat);
    lemma_pow2_pos((150 - exponent) as nat);
    lemma_pow2_adds((exponent - 1) as nat, (150 - exponent) as nat);
    assert((exponent - 1) as nat + (150 - exponent) as nat == 149);
    assert(pow2(149) as int == low * shift);
    lemma_div_multiples_vanish_quotient(low, significand, shift);
    assert(significand * low == low * significand) by (nonlinear_arith);
}

} // verus!
