//! The three signed 16-bit fixed-point formats of the library, each held as
//! its raw bit pattern.
use fixed::types::{I2F14, I6F10};
use vstd::prelude::*;

verus! {

/// Fraction bits of the angle format (about ±8 rad, resolution 2^-12 rad).
pub const ANGLE_FRAC_BITS: u16 = 12;

/// Fraction bits of the magnitude format (resolution 2^-14).
pub const MAGNITUDE_FRAC_BITS: u16 = 14;

/// Fraction bits of the voltage format (about ±32 V, resolution 2^-10 V).
pub const VOLTAGE_FRAC_BITS: u16 = 10;

/// π in the angle format, truncated to 12 fraction bits.
pub const PI_BITS: i16 = 12867;

/// π/2 in the angle format, truncated to 12 fraction bits.
pub const FRAC_PI_2_BITS: i16 = 6433;

/// √3 in the voltage format, truncated to 10 fraction bits.
pub const SQRT_3_BITS: i16 = 1773;

/// Largest magnitude sample: 1 − 2^-14, the top of the range [−1, 1).
pub const MAGNITUDE_MAX_BITS: i16 = 16383;

/// Smallest magnitude sample: −1.
pub const MAGNITUDE_MIN_BITS: i16 = -16384;

/// An angle in radians: `bits / 2^12`.
#[derive(Clone, Copy, Debug, PartialEq, Eq, Structural)]
pub struct Angle {
    pub bits: i16,
}

/// A sine or cosine value: `bits / 2^14`.
#[derive(Clone, Copy, Debug, PartialEq, Eq, Structural)]
pub struct Magnitude {
    pub bits: i16,
}

/// A voltage in volts: `bits / 2^10`.
#[derive(Clone, Copy, Debug, PartialEq, Eq, Structural)]
pub struct Voltage {
    pub bits: i16,
}

impl Angle {
    pub fn from_bits(bits: i16) -> (r: Angle)
        ensures
            r.bits == bits,
    {
        Angle { bits }
    }

    pub fn to_bits(self) -> (r: i16)
        ensures
            r == self.bits,
    {
        self.bits
    }
}

impl Magnitude {
    pub fn from_bits(bits: i16) -> (r: Magnitude)
        ensures
            r.bits == bits,
    {
        Magnitude { bits }
    }

    pub fn to_bits(self) -> (r: i16)
        ensures
            r == self.bits,
    {
        self.bits
    }
}

impl Voltage {
    pub fn from_bits(bits: i16) -> (r: Voltage)
        ensures
            r.bits == bits,
    {
        Voltage { bits }
    }

    pub fn to_bits(self) -> (r: i16)
        ensures
            r == self.bits,
    {
        self.bits
    }
}

/// Whether an integer fits the 16 bits of a raw fixed-point value.
pub open spec fn fits_i16(x: int) -> bool {
    i16::MIN <= x <= i16::MAX
}

/// The product of two voltages, rounded toward −∞ to 10 fraction bits.
pub open spec fn voltage_mul(a: int, b: int) -> int {
    (a * b) / 1024
}

/// Whether `fixed`'s voltage product of `a` and `b` stays in range: it widens
/// `a` and `b << 6` to 32 bits and flags an overflow of that product.
pub open spec fn voltage_mul_in_range(a: int, b: int) -> bool {
    i32::MIN <= a * b * 64 <= i32::MAX
}

/// A magnitude in the voltage format: the four extra fraction bits dropped,
/// rounding toward −∞.
pub open spec fn magnitude_to_voltage(m: int) -> int {
    m / 16
}

/// Relies on `fixed`'s `Mul` for `I6F10`: the 32-bit product of the raw bits,
/// shifted right by the 10 fraction bits (it panics in debug builds when the
/// widened product overflows, which `requires` leaves out).
#[verifier::external_body]
pub(crate) fn mul_voltage(a: Voltage, b: Voltage) -> (r: Voltage)
    requires
        voltage_mul_in_range(a.bits as int, b.bits as int),
    ensures
        r.bits as int == voltage_mul(a.bits as int, b.bits as int),
{
    Voltage { bits: (I6F10::from_bits(a.bits) * I6F10::from_bits(b.bits)).to_bits() }
}

/// Relies on `fixed`'s `I6F10::from_num` from an `I2F14`: the extra fraction
/// bits are discarded, which rounds toward −∞.
#[verifier::external_body]
pub(crate) fn to_voltage(m: Magnitude) -> (r: Voltage)
    ensures
        r.bits as int == magnitude_to_voltage(m.bits as int),
{
    Voltage { bits: I6F10::from_num(I2F14::from_bits(m.bits)).to_bits() }
}

} // verus!
