//! Binary32 numbers carried by their bit patterns.
//!
//! The library never rounds: it compares, negates and truncates numbers, all
//! of which are exact, and leaves arithmetic that rounds to its callers.

use vstd::arithmetic::div_mod::{lemma_div_by_multiple, lemma_div_denominator};
use vstd::arithmetic::mul::lemma_mul_is_commutative;
use vstd::arithmetic::power2::{lemma2_to64, lemma_pow2_adds, lemma_pow2_pos, lemma_pow2_strictly_increases, lemma_pow2_unfold, pow2};
use vstd::prelude::*;

verus! {

/// An IEEE-754 binary32 number, held by its bit pattern.
///
/// The derived `==` compares bit patterns; `same_value` is numeric equality.
#[derive(Clone, Copy, Debug, PartialEq, Eq, Structural)]
pub struct Scalar {
    pub bits: u32,
}

/// The bit pattern of positive zero.
pub const ZERO_BITS: u32 = 0x0000_0000;

/// The bit pattern of one.
pub const ONE_BITS: u32 = 0x3f80_0000;

/// The bit pattern of minus one.
pub const MINUS_ONE_BITS: u32 = 0xbf80_0000;

impl Scalar {
    /// The number with the given bit pattern.
    pub open spec fn of(bits: u32) -> Scalar {
        Scalar { bits }
    }

    /// Whether the sign bit is set.
    pub open spec fn negative(self) -> bool {
        self.bits >= 0x8000_0000
    }

    /// The low 31 bits: exponent field and fraction field.
    pub open spec fn magnitude_bits(self) -> nat {
        (self.bits % 0x8000_0000) as nat
    }

    /// The biased exponent, 0 to 255.
    pub open spec fn exponent_field(self) -> nat {
        self.magnitude_bits() / 0x80_0000
    }

    /// The 23 fraction bits.
    pub open spec fn fraction_field(self) -> nat {
        self.magnitude_bits() % 0x80_0000
    }

    /// Not a number: exponent field 255 with a non-zero fraction.
    pub open spec fn nan(self) -> bool {
        self.magnitude_bits() > 0x7f80_0000
    }

    /// Plus or minus infinity.
    pub open spec fn infinite(self) -> bool {
        self.magnitude_bits() == 0x7f80_0000
    }

    /// The integer significand: the fraction, with the hidden bit for normal numbers.
    pub open spec fn significand(self) -> nat {
        if self.exponent_field() == 0 {
            self.fraction_field()
        } else {
            0x80_0000 + self.fraction_field()
        }
    }

    /// The power of two by which the significand is multiplied, counted from 2^-149.
    pub open spec fn shift(self) -> nat {
        if self.exponent_field() == 0 {
            0
        } else {
            (self.exponent_field() - 1) as nat
        }
    }

    /// The absolute value in units of 2^-149. An infinity takes 2^277, the
    /// first such magnitude above every finite number.
    pub open spec fn magnitude(self) -> nat {
        self.significand() * pow2(self.shift())
    }

    /// The value in units of 2^-149, for a number that is not NaN.
    pub open spec fn value(self) -> int {
        if self.negative() {
            -(self.magnitude() as int)
        } else {
            self.magnitude() as int
        }
    }

    /// Numeric `<`: false as soon as one side is NaN.
    pub open spec fn less_than(self, other: Scalar) -> bool {
        !self.nan() && !other.nan() && self.value() < other.value()
    }

    /// Numeric `<=`: false as soon as one side is NaN.
    pub open spec fn at_most(self, other: Scalar) -> bool {
        !self.nan() && !other.nan() && self.value() <= other.value()
    }

    /// Numeric `==`: false as soon as one side is NaN, true of the two zeros.
    pub open spec fn equals(self, other: Scalar) -> bool {
        !self.nan() && !other.nan() && self.value() == other.value()
    }

    /// The number cut to a byte: NaN and everything up to zero give 0,
    /// everything from 255 on gives 255, anything between loses its fraction.
    pub open spec fn byte(self) -> int {
        if self.nan() || self.value() <= 0 {
            0
        } else if self.value() / (pow2(149) as int) >= 255 {
            255
        } else {
            self.value() / (pow2(149) as int)
        }
    }

    /// The number with the sign bit flipped.
    pub open spec fn negated(self) -> Scalar {
        Scalar {
            bits: if self.bits >= 0x8000_0000 {
                (self.bits - 0x8000_0000) as u32
            } else {
                (self.bits + 0x8000_0000) as u32
            },
        }
    }

    /// The number with the sign bit cleared.
    pub open spec fn absolute(self) -> Scalar {
        Scalar { bits: (self.bits % 0x8000_0000) as u32 }
    }
}

impl Scalar {
    /// The integer by which the bit patterns of two numbers are compared:
    /// the low 31 bits, counted downwards where the sign bit is set.
    pub open spec fn key(self) -> int {
        if self.negative() {
            -(self.magnitude_bits() as int)
        } else {
            self.magnitude_bits() as int
        }
    }

    /// The number with the given bit pattern.
    pub fn from_bits(bits: u32) -> (r: Scalar)
        ensures
            r == Scalar::of(bits),
    {
        Scalar { bits }
    }

    /// The bit pattern.
    pub fn to_bits(self) -> (r: u32)
        ensures
            r == self.bits,
    {
        self.bits
    }

    /// Whether this is not a number.
    pub fn is_nan(self) -> (r: bool)
        ensures
            r == self.nan(),
    {
        self.bits % 0x8000_0000 > 0x7f80_0000
    }

    /// Whether this is plus or minus zero.
    pub fn is_zero(self) -> (r: bool)
        ensures
            r == (!self.nan() && self.value() == 0),
    {
        proof {
            lemma_zero_magnitude(self);
        }
        self.bits % 0x8000_0000 == 0
    }

    fn sort_key(self) -> (k: i64)
        ensures
            k == self.key(),
    {
        if self.bits >= 0x8000_0000 {
            let low: u32 = self.bits - 0x8000_0000;
            0 - (low as i64)
        } else {
            self.bits as i64
        }
    }

    /// Numeric `<`.
    pub fn lt(self, other: Scalar) -> (r: bool)
        ensures
            r == self.less_than(other),
    {
        proof {
            lemma_key_orders_values(self, other);
        }
        !self.is_nan() && !other.is_nan() && self.sort_key() < other.sort_key()
    }

    /// Numeric `<=`.
    pub fn le(self, other: Scalar) -> (r: bool)
        ensures
            r == self.at_most(other),
    {
        proof {
            lemma_key_orders_values(self, other);
        }
        !self.is_nan() && !other.is_nan() && self.sort_key() <= other.sort_key()
    }

    /// Numeric `>`.
    pub fn gt(self, other: Scalar) -> (r: bool)
        ensures
            r == other.less_than(self),
    {
        other.lt(self)
    }

    /// Numeric `==`.
    pub fn same_value(self, other: Scalar) -> (r: bool)
        ensures
            r == self.equals(other),
    {
        proof {
            lemma_key_orders_values(self, other);
        }
        !self.is_nan() && !other.is_nan() && self.sort_key() == other.sort_key()
    }

    /// The number with the opposite sign. Exact for every input, NaN included.
    pub fn neg(self) -> (r: Scalar)
        ensures
            r == self.negated(),
            r.nan() == self.nan(),
            !self.nan() ==> r.value() == -self.value(),
    {
        if self.bits >= 0x8000_0000 {
            Scalar { bits: self.bits - 0x8000_0000 }
        } else {
            Scalar { bits: self.bits + 0x8000_0000 }
        }
    }

    /// The number without its sign.
    pub fn abs(self) -> (r: Scalar)
        ensures
            r == self.absolute(),
            r.nan() == self.nan(),
            r.value() == self.magnitude(),
    {
        Scalar { bits: self.bits % 0x8000_0000 }
    }

    /// The number cut to a byte, as a saturating conversion does it.
    pub fn to_byte(self) -> (r: u8)
        ensures
            r == self.byte(),
    {
        let low: u32 = self.bits % 0x8000_0000;
        let exponent: u32 = low / 0x80_0000;
        if low > 0x7f80_0000 || self.bits >= 0x8000_0000 || exponent < 127 {
            proof {
                if exponent < 127 {
                    lemma_below_one(self);
                }
            }
            0
        } else if exponent >= 135 {
            proof {
                lemma_above_byte(self);
                lemma_zero_magnitude(self);
            }
            255
        } else {
            let significand: u32 = 0x80_0000 + low % 0x80_0000;
            let mut cut: u32 = significand;
            let mut left: u32 = 150 - exponent;
            proof {
                lemma2_to64();
                assert(significand as int / (pow2(0) as int) == significand as int);
            }
            while left > 0
                invariant
                    cut as int == significand as int / (pow2((150 - exponent - left) as nat) as int),
                    left <= 150 - exponent,
                    127 <= exponent < 135,
                decreases left,
            {
                proof {
                    let done = (150 - exponent - left) as nat;
                    lemma_pow2_pos(done);
                    lemma_pow2_unfold(done + 1);
                    lemma_div_denominator(significand as int, pow2(done) as int, 2);
                    lemma_mul_is_commutative(pow2(done) as int, 2);
                }
                cut = cut / 2;
                left = left - 1;
            }
            proof {
                lemma_truncation(self);
                lemma_zero_magnitude(self);
            }
            if cut >= 255 {
                255
            } else {
                cut as u8
            }
        }
    }
}

/// Among bit patterns without their sign, the larger pattern is the larger number.
pub proof fn lemma_magnitude_grows(a: Scalar, b: Scalar)
    requires
        a.magnitude_bits() < b.magnitude_bits(),
    ensures
        a.magnitude() < b.magnitude(),
{
    let (ea, eb) = (a.exponent_field(), b.exponent_field());
    let (sa, sb) = (a.significand() as int, b.significand() as int);
    let (pa, pb) = (pow2(a.shift()) as int, pow2(b.shift()) as int);
    lemma_pow2_pos(a.shift());
    lemma_pow2_pos(b.shift());
    if ea == eb {
        assert(sa * pa < sb * pa) by (nonlinear_arith)
            requires
                sa < sb,
                pa > 0,
        ;
    } else if ea == 0 {
        assert(pow2(0) == 1) by {
            lemma2_to64();
        }
        assert(sa * pa < sb * pb) by (nonlinear_arith)
            requires
                sa < 0x80_0000,
                pa == 1,
                sb >= 0x80_0000,
                pb >= 1,
        ;
    } else {
        lemma_pow2_unfold(a.shift() + 1);
        if a.shift() + 1 < b.shift() {
            lemma_pow2_strictly_increases(a.shift() + 1, b.shift());
        }
        assert(sa * pa < sb * pb) by (nonlinear_arith)
            requires
                sa < 0x100_0000,
                sb >= 0x80_0000,
                pa > 0,
                2 * pa <= pb,
        ;
    }
}

/// Only the two zeros have magnitude zero.
pub proof fn lemma_zero_magnitude(a: Scalar)
    ensures
        (a.magnitude_bits() == 0) == (a.magnitude() == 0),
        (a.magnitude_bits() == 0) == (!a.nan() && a.value() == 0),
{
    let zero = Scalar { bits: 0 };
    assert(zero.magnitude() == 0) by (nonlinear_arith)
        requires
            zero.significand() == 0,
            zero.magnitude() == zero.significand() * pow2(zero.shift()),
    ;
    if a.magnitude_bits() > 0 {
        lemma_magnitude_grows(zero, a);
    } else {
        assert(a.significand() == 0);
        assert(a.magnitude() == 0) by (nonlinear_arith)
            requires
                a.significand() == 0,
                a.magnitude() == a.significand() * pow2(a.shift()),
        ;
    }
}

/// Comparing two bit patterns by their keys is comparing the numbers they stand for.
pub proof fn lemma_key_orders_values(a: Scalar, b: Scalar)
    ensures
        (a.key() < b.key()) == (a.value() < b.value()),
        (a.key() == b.key()) == (a.value() == b.value()),
        (a.key() <= b.key()) == (a.value() <= b.value()),
{
    lemma_zero_magnitude(a);
    lemma_zero_magnitude(b);
    if a.magnitude_bits() < b.magnitude_bits() {
        lemma_magnitude_grows(a, b);
    } else if b.magnitude_bits() < a.magnitude_bits() {
        lemma_magnitude_grows(b, a);
    } else {
        assert(a.magnitude() == b.magnitude());
    }
}

/// A number whose exponent field is under 127 is under one.
proof fn lemma_below_one(a: Scalar)
    requires
        a.exponent_field() < 127,
    ensures
        a.magnitude() < pow2(149),
        a.magnitude() as int / (pow2(149) as int) == 0,
{
    let one = Scalar { bits: ONE_BITS };
    assert(one.exponent_field() == 127 && one.fraction_field() == 0);
    lemma_magnitude_grows(a, one);
    lemma_pow2_adds(23, 126);
    lemma2_to64();
    assert(one.magnitude() == pow2(149));
    vstd::arithmetic::div_mod::lemma_basic_div(a.magnitude() as int, pow2(149) as int);
}

/// A finite magnitude with exponent field `e` from 127 on, cut to an
/// integer, is its significand without its low `150 - e` bits.
proof fn lemma_truncation(a: Scalar)
    requires
        127 <= a.exponent_field() <= 150,
    ensures
        a.magnitude() as int / (pow2(149) as int) == a.significand() as int / (pow2(
            (150 - a.exponent_field()) as nat,
        ) as int),
{
    let up = a.shift();
    let down = (150 - a.exponent_field()) as nat;
    let s = a.significand() as int;
    lemma_pow2_adds(up, down);
    lemma_pow2_pos(up);
    lemma_pow2_pos(down);
    let (pu, pd) = (pow2(up) as int, pow2(down) as int);
    assert(pow2(149) == pu * pd);
    lemma_div_denominator(s * pu, pu, pd);
    lemma_div_by_multiple(s, pu);
}

/// A number whose exponent field is 135 or more is at least 256.
proof fn lemma_above_byte(a: Scalar)
    requires
        a.exponent_field() >= 135,
    ensures
        a.magnitude() as int / (pow2(149) as int) >= 255,
{
    let floor = Scalar { bits: 0x4380_0000 };
    assert(floor.exponent_field() == 135 && floor.fraction_field() == 0);
    if floor.magnitude_bits() < a.magnitude_bits() {
        lemma_magnitude_grows(floor, a);
    }
    lemma_truncation(floor);
    lemma2_to64();
    lemma_pow2_pos(149);
    assert(floor.significand() == 0x80_0000);
    assert(pow2(15) == 0x8000);
    assert(0x80_0000int / 0x8000int == 256);
    assert(floor.magnitude() as int / (pow2(149) as int) == 256);
    vstd::arithmetic::div_mod::lemma_div_is_ordered(
        floor.magnitude() as int,
        a.magnitude() as int,
        pow2(149) as int,
    );
}

} // verus!
