//! Difficulties, which are IEEE 754 double-precision numbers held by their bits.
//!
//! A number is a sign bit, eleven bits of exponent and fifty-two bits of fraction. The model
//! is its exact value in units of the smallest positive number, which is an integer.

use vstd::arithmetic::power2::{lemma_pow2_adds, lemma_pow2_pos, lemma_pow2_strictly_increases, pow2};
use vstd::prelude::*;

verus! {

const SIGN: u64 = 0x8000_0000_0000_0000;

const INFINITY: u64 = 0x7ff0_0000_0000_0000;

const ONE: u64 = 0x3ff0_0000_0000_0000;

/// The numbers that a fraction can be.
pub const FRACTIONS: u64 = 0x10_0000_0000_0000;

/// A double-precision number, by its bits.
#[derive(Debug, Clone, Copy, PartialEq, Eq, Structural)]
pub struct Difficulty {
    pub bits: u64,
}

/// The exact size of a finite number without its sign, in units of the smallest positive one.
pub open spec fn scaled_size(magnitude: u64) -> nat {
    let exponent = magnitude / FRACTIONS;
    let fraction = magnitude % FRACTIONS;
    if exponent == 0 {
        fraction as nat
    } else {
        (FRACTIONS + fraction) as nat * pow2((exponent - 1) as nat)
    }
}

/// The number one, in the same units.
pub open spec fn scaled_one() -> nat {
    pow2(1074)
}

impl Difficulty {
    /// The bits without the sign.
    pub open spec fn magnitude(self) -> u64 {
        self.bits % 0x8000_0000_0000_0000
    }

    /// Whether the sign bit is set.
    pub open spec fn is_negative(self) -> bool {
        self.bits >= 0x8000_0000_0000_0000
    }

    /// Whether this is a number, and neither infinite nor undefined.
    pub open spec fn is_finite(self) -> bool {
        self.magnitude() < 0x7ff0_0000_0000_0000
    }

    /// The exact value of a finite number, in units of the smallest positive one.
    pub open spec fn scaled(self) -> int {
        if self.is_negative() {
            -(scaled_size(self.magnitude()) as int)
        } else {
            scaled_size(self.magnitude()) as int
        }
    }

    /// Whether this can be the difficulty of a pulse: a number, and at least one.
    pub open spec fn is_pulse(self) -> bool {
        self.is_finite() && self.scaled() >= scaled_one()
    }

    /// Whether this can be the difficulty of a share: a number, and not below zero.
    pub open spec fn is_share(self) -> bool {
        self.is_finite() && self.scaled() >= 0
    }

    /// The number zero.
    pub fn zero() -> (zero: Difficulty)
        ensures
            zero.bits == 0,
            zero.is_share(),
            zero.scaled() == 0,
    {
        Difficulty { bits: 0 }
    }

    /// Tells whether this can be the difficulty of a pulse.
    pub fn can_be_pulse(&self) -> (can: bool)
        ensures
            can == self.is_pulse(),
            can == (0x3ff0_0000_0000_0000 <= self.bits < 0x7ff0_0000_0000_0000),
    {
        proof {
            pulses_by_bits(*self);
        }
        ONE <= self.bits && self.bits < INFINITY
    }

    /// Tells whether this can be the difficulty of a share.
    pub fn can_be_share(&self) -> (can: bool)
        ensures
            can == self.is_share(),
            can == (self.bits < 0x7ff0_0000_0000_0000 || self.bits == 0x8000_0000_0000_0000),
    {
        proof {
            shares_by_bits(*self);
        }
        self.bits < INFINITY || self.bits == SIGN
    }

    /// Returns the greater of two difficulties of shares: `self` where both are equal.
    pub fn max(self, other: Difficulty) -> (greater: Difficulty)
        requires
            self.is_share(),
            other.is_share(),
        ensures
            greater == (if self.scaled() < other.scaled() {
                other
            } else {
                self
            }),
    {
        proof {
            size_follows_bits(0, self.magnitude());
            size_follows_bits(0, other.magnitude());
            size_follows_bits(self.magnitude(), other.magnitude());
            size_follows_bits(other.magnitude(), self.magnitude());
        }
        if self.bits % SIGN < other.bits % SIGN {
            other
        } else {
            self
        }
    }
}

/// A number is finite and at least one exactly when its bits lie between those of one and those
/// of infinity.
pub proof fn pulses_by_bits(number: Difficulty)
    ensures
        number.is_pulse() <==> 0x3ff0_0000_0000_0000 <= number.bits < 0x7ff0_0000_0000_0000,
{
    lemma_one();
    lemma_pow2_pos(1074);
    if number.is_finite() && !number.is_negative() {
        size_follows_bits(ONE, number.bits);
        size_follows_bits(number.bits, ONE);
    }
}

/// A number is finite and not below zero exactly when its bits are below those of infinity, or
/// it is the zero with a sign.
pub proof fn shares_by_bits(number: Difficulty)
    ensures
        number.is_share() <==> number.bits < 0x7ff0_0000_0000_0000 || number.bits
            == 0x8000_0000_0000_0000,
{
    if number.is_finite() {
        size_follows_bits(0, number.magnitude());
    }
}

proof fn lemma_one()
    ensures
        scaled_size(ONE) == scaled_one(),
{
    assert(ONE / FRACTIONS == 1023 && ONE % FRACTIONS == 0);
    lemma_pow2_fraction();
    lemma_pow2_adds(52, 1022);
}

proof fn lemma_pow2_fraction()
    ensures
        FRACTIONS == pow2(52),
{
    vstd::arithmetic::power2::lemma2_to64();
    vstd::arithmetic::power2::lemma2_to64_rest();
}

/// Of two finite numbers without sign, the one with the greater bits is the greater number.
pub proof fn size_follows_bits(smaller: u64, greater: u64)
    requires
        greater < 0x7ff0_0000_0000_0000,
    ensures
        smaller < greater ==> scaled_size(smaller) < scaled_size(greater),
        smaller == greater ==> scaled_size(smaller) == scaled_size(greater),
{
    if smaller < greater {
        let e1 = smaller / FRACTIONS;
        let f1 = smaller % FRACTIONS;
        let e2 = greater / FRACTIONS;
        let f2 = greater % FRACTIONS;
        assert(e1 <= e2);
        if e1 == e2 {
            assert(f1 < f2);
            if e1 > 0 {
                let unit = pow2((e1 - 1) as nat);
                lemma_pow2_pos((e1 - 1) as nat);
                assert((FRACTIONS + f1) * unit < (FRACTIONS + f2) * unit) by (nonlinear_arith)
                    requires
                        f1 < f2,
                        unit > 0,
                ;
            }
        } else {
            let unit2 = pow2((e2 - 1) as nat);
            lemma_pow2_pos((e2 - 1) as nat);
            assert((FRACTIONS + f2) * unit2 >= FRACTIONS * unit2) by (nonlinear_arith)
                requires
                    f2 >= 0,
                    unit2 > 0,
            ;
            if e1 == 0 {
                assert(FRACTIONS * unit2 >= FRACTIONS) by (nonlinear_arith)
                    requires
                        unit2 > 0,
                ;
            } else {
                let unit1 = pow2((e1 - 1) as nat);
                lemma_pow2_pos((e1 - 1) as nat);
                assert((FRACTIONS + f1) * unit1 < FRACTIONS * (2 * unit1)) by (nonlinear_arith)
                    requires
                        f1 < FRACTIONS,
                        unit1 > 0,
                ;
                vstd::arithmetic::power2::lemma_pow2_unfold(e1 as nat);
                if e1 < e2 - 1 {
                    lemma_pow2_strictly_increases(e1 as nat, (e2 - 1) as nat);
                }
                assert(FRACTIONS * (2 * unit1) <= FRACTIONS * unit2) by (nonlinear_arith)
                    requires
                        2 * unit1 <= unit2,
                ;
            }
        }
    }
}

} // verus!
