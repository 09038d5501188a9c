//! Exact numbers for gauge values.
//!
//! Every decimal that the protocol carries is held as a binary fixed-point
//! number, and the shared scaling factor of the simulated readings as a
//! binary fraction. Products of the two are then exact integers, and what the
//! library says about readings (their bounds, their lockstep) holds without
//! rounding. The caller turns a number into a float only when it writes JSON.

use vstd::prelude::*;

verus! {

/// How many of a fixed-point number's bits lie behind the binary point.
pub const FRACTION_BITS: u32 = 25;

/// The raw value of the fixed-point number one: two to the power
/// `FRACTION_BITS`.
pub const ONE: i64 = 33_554_432;

/// The denominator of a `Factor`: two to the power 24.
pub const FACTOR_SCALE: u32 = 16_777_216;

/// The raw value that stands for "sensor offline": the largest that the type
/// can hold.
pub const OFFLINE_RAW: i64 = 9_223_372_036_854_775_807;

/// A signed fixed-point number: the rational `raw / ONE`.
#[derive(Clone, Copy, Debug, PartialEq, Eq, Structural)]
pub struct Fixed {
    pub raw: i64,
}

/// A fraction in `[0, 1)`: the rational `numerator / FACTOR_SCALE`.
#[derive(Clone, Copy, Debug, PartialEq, Eq, Structural)]
pub struct Factor {
    pub numerator: u32,
}

impl Fixed {
    /// The fixed-point number of a whole number.
    pub open spec fn whole(units: int) -> Fixed
        recommends
            i64::MIN <= units * ONE <= i64::MAX,
    {
        Fixed { raw: (units * ONE) as i64 }
    }

    /// This number times `factor`, rounded down to the next number that the
    /// type can hold.
    pub open spec fn scaled(self, factor: Factor) -> Fixed {
        Fixed { raw: ((self.raw * factor.numerator) / (FACTOR_SCALE as int)) as i64 }
    }

    /// The fixed-point number of a whole number.
    pub fn from_int(units: i32) -> (number: Fixed)
        ensures
            number == Fixed::whole(units as int),
            number.raw == units * ONE,
    {
        let wide: i64 = units as i64;
        Fixed { raw: wide * ONE }
    }

    /// This number times `factor`, rounded down.
    pub fn scale(self, factor: Factor) -> (product: Fixed)
        requires
            factor.wf(),
        ensures
            product == self.scaled(factor),
            product.raw == (self.raw * factor.numerator) / (FACTOR_SCALE as int),
            self.raw >= 0 ==> 0 <= product.raw <= self.raw,
            self.raw <= 0 ==> self.raw <= product.raw <= 0,
    {
        let n: u128 = factor.numerator as u128;
        let d: u128 = FACTOR_SCALE as u128;
        if self.raw >= 0 {
            let magnitude: u128 = self.raw as u128;
            assert(magnitude * n <= magnitude * d) by (nonlinear_arith)
                requires
                    n <= d,
                    magnitude >= 0,
            ;
            assert(magnitude * d <= u128::MAX) by (nonlinear_arith)
                requires
                    magnitude <= 0x7FFF_FFFF_FFFF_FFFF,
                    d == 16_777_216,
            ;
            let quotient: u128 = (magnitude * n) / d;
            assert(quotient <= magnitude) by (nonlinear_arith)
                requires
                    quotient == (magnitude * n) / (d as int),
                    magnitude * n <= magnitude * d,
                    d > 0,
            ;
            Fixed { raw: quotient as i64 }
        } else {
            let magnitude: u128 = (-(self.raw as i128)) as u128;
            assert(magnitude * n <= magnitude * d) by (nonlinear_arith)
                requires
                    n <= d,
                    magnitude >= 0,
            ;
            assert(magnitude * d + d <= u128::MAX) by (nonlinear_arith)
                requires
                    magnitude <= 0x8000_0000_0000_0000,
                    d == 16_777_216,
            ;
            let product: u128 = magnitude * n;
            let quotient: u128 = (product + (d - 1)) / d;
            assert(quotient <= magnitude) by (nonlinear_arith)
                requires
                    quotient == (product + (d - 1)) / (d as int),
                    product <= magnitude * d,
                    d > 0,
            ;
            assert(product == -(self.raw * factor.numerator)) by (nonlinear_arith)
                requires
                    product == magnitude * n,
                    magnitude == -self.raw,
                    n == factor.numerator,
            ;
            assert((-(product as int)) / 16_777_216 == -(((product + 16_777_215) as int)
                / 16_777_216));
            let negated: i128 = -(quotient as i128);
            Fixed { raw: negated as i64 }
        }
    }

    /// Whether this is the value that stands for "sensor offline".
    pub open spec fn is_offline(self) -> bool {
        self.raw == OFFLINE_RAW
    }
}

impl Factor {
    /// A factor's numerator is below its denominator: the factor is below
    /// one.
    pub open spec fn wf(self) -> bool {
        self.numerator < FACTOR_SCALE
    }

    /// The factor with this numerator, if there is one.
    pub fn new(numerator: u32) -> (factor: Option<Factor>)
        ensures
            factor is Some <==> numerator < FACTOR_SCALE,
            factor matches Some(f) ==> f.wf() && f.numerator == numerator,
    {
        if numerator < FACTOR_SCALE {
            Some(Factor { numerator })
        } else {
            None
        }
    }

    /// The factor that 32 uniformly random bits stand for: their upper 24
    /// bits as the numerator.
    pub fn from_bits(bits: u32) -> (factor: Factor)
        ensures
            factor.wf(),
            factor.numerator == bits as int / 256,
    {
        Factor { numerator: bits / 256 }
    }
}

} // verus!
