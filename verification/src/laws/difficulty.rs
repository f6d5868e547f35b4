//! Difficulties.

use vstd::arithmetic::power2::pow2;
use vstd::prelude::*;

use crate::difficulty::{
    pulses_by_bits, scaled_one, shares_by_bits, size_follows_bits, Difficulty,
};

verus! {

/// What a finite number is worth, in units of the smallest positive one: with an exponent of
/// zero its fraction, and with any other the fraction behind a leading one, doubled once for
/// each step of the exponent beyond the first. One is 2^1074 such units.
pub proof fn numbers_are_fraction_and_exponent(number: Difficulty)
    requires
        number.bits < 0x7ff0_0000_0000_0000,
    ensures
        ({
            let exponent = number.bits / 0x10_0000_0000_0000;
            let fraction = number.bits % 0x10_0000_0000_0000;
            &&& number.is_finite() && !number.is_negative()
            &&& exponent == 0 ==> number.scaled() == fraction
            &&& exponent > 0 ==> number.scaled() == (0x10_0000_0000_0000 + fraction) * pow2(
                (exponent - 1) as nat,
            )
        }),
        scaled_one() == pow2(1074),
{
}

/// The sign bit turns a number into its negative.
pub proof fn sign_negates(number: Difficulty, negative: Difficulty)
    requires
        number.bits < 0x7ff0_0000_0000_0000,
        negative.bits == number.bits + 0x8000_0000_0000_0000,
    ensures
        negative.is_finite(),
        negative.scaled() == -number.scaled(),
{
}

/// Zero is worth nothing.
pub proof fn zero_is_zero(zero: Difficulty)
    requires
        call_ensures(Difficulty::zero, (), zero),
    ensures
        zero.bits == 0,
        zero.scaled() == 0,
{
}

/// A pulse is finite and at least one: its bits lie between those of one and of infinity.
pub proof fn pulses_are_at_least_one(number: &Difficulty, can: bool)
    requires
        call_ensures(Difficulty::can_be_pulse, (number,), can),
    ensures
        can <==> 0x3ff0_0000_0000_0000 <= number.bits < 0x7ff0_0000_0000_0000,
        can <==> number.is_finite() && number.scaled() >= pow2(1074),
{
    pulses_by_bits(*number);
}

/// A share is finite and not below zero: its bits are below those of infinity, or those of the
/// zero with a sign.
pub proof fn shares_are_not_below_zero(number: &Difficulty, can: bool)
    requires
        call_ensures(Difficulty::can_be_share, (number,), can),
    ensures
        can <==> number.bits < 0x7ff0_0000_0000_0000 || number.bits == 0x8000_0000_0000_0000,
        can <==> number.is_finite() && number.scaled() >= 0,
{
    shares_by_bits(*number);
}

/// Of two shares the second is the greater only where it is worth more, also next to a zero with
/// a sign.
pub proof fn the_greater_of_two_shares(first: Difficulty, second: Difficulty, greater: Difficulty)
    requires
        first.is_share(),
        second.is_share(),
        call_ensures(Difficulty::max, (first, second), greater),
    ensures
        second.scaled() > first.scaled() ==> greater == second,
        second.scaled() <= first.scaled() ==> greater == first,
{
}

/// The greater of two is one of them, and neither is greater.
pub proof fn the_greater_of_two(first: Difficulty, second: Difficulty, greater: Difficulty)
    requires
        first.bits < 0x7ff0_0000_0000_0000,
        second.bits < 0x7ff0_0000_0000_0000,
        call_ensures(Difficulty::max, (first, second), greater),
    ensures
        greater.bits == if first.bits < second.bits {
            second.bits
        } else {
            first.bits
        },
        greater.scaled() >= first.scaled(),
        greater.scaled() >= second.scaled(),
{
    size_follows_bits(first.bits, second.bits);
    size_follows_bits(second.bits, first.bits);
}

} // verus!
