//! Exact conversion of decoded readings into kilograms-force, pounds-force,
//! or a unit-tagged force quantity.
//!
//! A converted value is kept as an exact rational: an integer mantissa, a
//! power-of-ten exponent, and an integer divisor. The conversion factors are
//! the decimal constants 1000 g/kg, 453.592 g/lb, 35.274 g/oz and 16 oz/lb,
//! folded into the exponent and the divisor so that nothing is rounded. A
//! caller that wants a plain floating-point number performs the single final
//! division itself.

use vstd::arithmetic::power::lemma_pow_adds;
use vstd::arithmetic::power::pow;
use vstd::prelude::*;

use crate::dymo::Reading;
use crate::dymo::ReadingUnit;

verus! {

/// An exact force quantity: `mantissa` times ten to the `exp10`, divided by
/// `divisor`. Every conversion in this module produces a nonzero divisor.
#[derive(Clone, Copy, Debug, PartialEq, Eq, Structural)]
pub struct ScaledForce {
    /// The integer magnitude of the quantity.
    pub mantissa: u16,
    /// The power-of-ten exponent that scales the mantissa.
    pub exp10: i16,
    /// The divisor the scaled mantissa is divided by.
    pub divisor: u32,
}

/// A force quantity tagged with the unit it is expressed in, convertible to
/// any other force unit by the caller.
#[derive(Clone, Copy, Debug, PartialEq, Eq, Structural)]
pub enum Force {
    /// A quantity of kilograms-force.
    KilogramForce(ScaledForce),
    /// A quantity of ounces-force.
    OunceForce(ScaledForce),
}

/// The numerator contributed by a power-of-ten exponent: ten to the exponent
/// when it is non-negative, one otherwise.
pub open spec fn pow10_num(e: int) -> int {
    if e >= 0 {
        pow(10, e as nat)
    } else {
        1
    }
}

/// The denominator contributed by a power-of-ten exponent: one when it is
/// non-negative, ten to its negation otherwise.
pub open spec fn pow10_den(e: int) -> int {
    if e >= 0 {
        1
    } else {
        pow(10, (-e) as nat)
    }
}

/// The numerator of a scaled force read as an exact rational.
pub open spec fn scaled_num(s: ScaledForce) -> int {
    s.mantissa * pow10_num(s.exp10 as int)
}

/// The denominator of a scaled force read as an exact rational.
pub open spec fn scaled_den(s: ScaledForce) -> int {
    s.divisor * pow10_den(s.exp10 as int)
}

/// The numerator of a reading's magnitude (in the reading's own unit) read
/// as an exact rational.
pub open spec fn reading_num(r: Reading) -> int {
    r.raw * pow10_num(r.exponent as int)
}

/// The denominator of a reading's magnitude read as an exact rational.
pub open spec fn reading_den(r: Reading) -> int {
    pow10_den(r.exponent as int)
}

/// The kilograms-force value of a reading: grams divided by 1000, or ounces
/// divided by 35.274.
pub open spec fn kilograms_of(r: Reading) -> ScaledForce {
    match r.unit {
        ReadingUnit::Grams => ScaledForce {
            mantissa: r.raw,
            exp10: (r.exponent - 3) as i16,
            divisor: 1,
        },
        ReadingUnit::Ounces => ScaledForce {
            mantissa: r.raw,
            exp10: (r.exponent + 3) as i16,
            divisor: 35274,
        },
    }
}

/// The pounds-force value of a reading: grams divided by 453.592, or ounces
/// divided by 16.
pub open spec fn pounds_of(r: Reading) -> ScaledForce {
    match r.unit {
        ReadingUnit::Grams => ScaledForce {
            mantissa: r.raw,
            exp10: (r.exponent + 3) as i16,
            divisor: 453592,
        },
        ReadingUnit::Ounces => ScaledForce { mantissa: r.raw, exp10: r.exponent as i16, divisor: 16 },
    }
}

/// The unit-tagged force value of a reading: grams become kilograms-force,
/// ounces stay ounces-force.
pub open spec fn force_of(r: Reading) -> Force {
    match r.unit {
        ReadingUnit::Grams => Force::KilogramForce(
            ScaledForce { mantissa: r.raw, exp10: (r.exponent - 3) as i16, divisor: 1 },
        ),
        ReadingUnit::Ounces => Force::OunceForce(
            ScaledForce { mantissa: r.raw, exp10: r.exponent as i16, divisor: 1 },
        ),
    }
}

impl Reading {
    /// The number of kilograms-force this reading stands for, as an exact
    /// rational.
    pub fn to_kilograms(&self) -> (s: ScaledForce)
        ensures
            s == kilograms_of(*self),
    {
        match self.unit {
            ReadingUnit::Grams => ScaledForce {
                mantissa: self.raw,
                exp10: (self.exponent as i16) - 3,
                divisor: 1,
            },
            ReadingUnit::Ounces => ScaledForce {
                mantissa: self.raw,
                exp10: (self.exponent as i16) + 3,
                divisor: 35274,
            },
        }
    }

    /// The number of pounds-force this reading stands for, as an exact
    /// rational.
    pub fn to_pounds(&self) -> (s: ScaledForce)
        ensures
            s == pounds_of(*self),
    {
        match self.unit {
            ReadingUnit::Grams => ScaledForce {
                mantissa: self.raw,
                exp10: (self.exponent as i16) + 3,
                divisor: 453592,
            },
            ReadingUnit::Ounces => ScaledForce {
                mantissa: self.raw,
                exp10: self.exponent as i16,
                divisor: 16,
            },
        }
    }

    /// This reading as a unit-tagged force quantity.
    pub fn to_force(&self) -> (f: Force)
        ensures
            f == force_of(*self),
    {
        match self.unit {
            ReadingUnit::Grams => Force::KilogramForce(
                ScaledForce { mantissa: self.raw, exp10: (self.exponent as i16) - 3, divisor: 1 },
            ),
            ReadingUnit::Ounces => Force::OunceForce(
                ScaledForce { mantissa: self.raw, exp10: self.exponent as i16, divisor: 1 },
            ),
        }
    }
}

/// Both parts of the rational a power-of-ten exponent stands for are
/// positive, so none of the rationals built here has a zero denominator.
pub proof fn lemma_pow10_pos(e: int)
    ensures
        pow10_num(e) > 0,
        pow10_den(e) > 0,
{
    if e >= 0 {
        vstd::arithmetic::power::lemma_pow_positive(10, e as nat);
    } else {
        vstd::arithmetic::power::lemma_pow_positive(10, (-e) as nat);
    }
}

/// Shifting a power-of-ten exponent up by three multiplies the rational it
/// stands for by exactly 1000.
proof fn lemma_pow10_shift(e: int)
    ensures
        pow10_num(e + 3) * pow10_den(e) == 1000 * (pow10_num(e) * pow10_den(e + 3)),
{
    assert(pow(10, 3) == 1000) by {
        vstd::arithmetic::power::lemma_pow0(10);
        reveal_with_fuel(pow, 4);
    }
    if e >= 0 {
        lemma_pow_adds(10, e as nat, 3);
    } else if e >= -3 {
        lemma_pow_adds(10, (e + 3) as nat, (-e) as nat);
    } else {
        lemma_pow_adds(10, 3, (-(e + 3)) as nat);
    }
}

/// Conversion to kilograms is exact: for a reading in grams the result
/// equals the reading divided by 1000, and for a reading in ounces it equals
/// the reading divided by 35.274 (that is, times 1000 and divided by 35274),
/// both as equalities of cross-multiplied exact rationals.
pub proof fn lemma_to_kilograms_exact(r: Reading)
    ensures
        r.unit is Grams ==> scaled_num(kilograms_of(r)) * (1000 * reading_den(r)) == reading_num(
            r,
        ) * scaled_den(kilograms_of(r)),
        r.unit is Ounces ==> scaled_num(kilograms_of(r)) * (35274 * reading_den(r)) == (
        reading_num(r) * 1000) * scaled_den(kilograms_of(r)),
        reading_den(r) > 0,
        scaled_den(kilograms_of(r)) > 0,
{
    let e = r.exponent as int;
    let raw = r.raw as int;
    lemma_pow10_pos(e);
    lemma_pow10_pos(e - 3);
    lemma_pow10_pos(e + 3);
    if r.unit is Grams {
        lemma_pow10_shift(e - 3);
        assert((raw * pow10_num(e - 3)) * (1000 * pow10_den(e)) == (raw * pow10_num(e)) * (1
            * pow10_den(e - 3))) by (nonlinear_arith)
            requires
                pow10_num(e) * pow10_den(e - 3) == 1000 * (pow10_num(e - 3) * pow10_den(e)),
        ;
    } else {
        lemma_pow10_shift(e);
        assert((raw * pow10_num(e + 3)) * (35274 * pow10_den(e)) == ((raw * pow10_num(e)) * 1000)
            * (35274 * pow10_den(e + 3))) by (nonlinear_arith)
            requires
                pow10_num(e + 3) * pow10_den(e) == 1000 * (pow10_num(e) * pow10_den(e + 3)),
        ;
    }
}

/// Conversion to pounds is exact: for a reading in grams the result equals
/// the reading divided by 453.592 (that is, times 1000 and divided by
/// 453592), and for a reading in ounces it equals the reading divided by 16,
/// both as equalities of cross-multiplied exact rationals.
pub proof fn lemma_to_pounds_exact(r: Reading)
    ensures
        r.unit is Grams ==> scaled_num(pounds_of(r)) * (453592 * reading_den(r)) == (reading_num(
            r,
        ) * 1000) * scaled_den(pounds_of(r)),
        r.unit is Ounces ==> scaled_num(pounds_of(r)) * (16 * reading_den(r)) == reading_num(r)
            * scaled_den(pounds_of(r)),
        reading_den(r) > 0,
        scaled_den(pounds_of(r)) > 0,
{
    let e = r.exponent as int;
    let raw = r.raw as int;
    lemma_pow10_pos(e);
    lemma_pow10_pos(e + 3);
    if r.unit is Grams {
        lemma_pow10_shift(e);
        assert((raw * pow10_num(e + 3)) * (453592 * pow10_den(e)) == ((raw * pow10_num(e)) * 1000)
            * (453592 * pow10_den(e + 3))) by (nonlinear_arith)
            requires
                pow10_num(e + 3) * pow10_den(e) == 1000 * (pow10_num(e) * pow10_den(e + 3)),
        ;
    }
}

/// Conversion to a unit-tagged force is exact: a reading in grams becomes a
/// kilogram-force quantity equal to the reading divided by 1000, and a
/// reading in ounces becomes an ounce-force quantity with exactly the
/// reading's own magnitude.
pub proof fn lemma_to_force_exact(r: Reading)
    ensures
        r.unit is Grams ==> (force_of(r) matches Force::KilogramForce(s) && scaled_num(s) * (1000
            * reading_den(r)) == reading_num(r) * scaled_den(s)),
        r.unit is Ounces ==> (force_of(r) matches Force::OunceForce(s) && scaled_num(s)
            == reading_num(r) && scaled_den(s) == reading_den(r)),
        reading_den(r) > 0,
{
    let e = r.exponent as int;
    let raw = r.raw as int;
    lemma_pow10_pos(e);
    lemma_pow10_pos(e - 3);
    if r.unit is Grams {
        lemma_pow10_shift(e - 3);
        assert((raw * pow10_num(e - 3)) * (1000 * pow10_den(e)) == (raw * pow10_num(e)) * (1
            * pow10_den(e - 3))) by (nonlinear_arith)
            requires
                pow10_num(e) * pow10_den(e - 3) == 1000 * (pow10_num(e - 3) * pow10_den(e)),
        ;
    }
}

} // verus!
