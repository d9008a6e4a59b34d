//! The voltage transforms of field-oriented control: inverse Park (rotating
//! frame to stationary frame) and the modified inverse Clarke transform that
//! yields the coefficients space-vector PWM classifies.
use crate::fixed_point::{
    fits_i16, magnitude_to_voltage, mul_voltage, to_voltage, voltage_mul, voltage_mul_in_range,
    Angle, Voltage, SQRT_3_BITS,
};
use crate::trig::{cos_t, cos_value, sin_t, sin_value, table_fits};
use vstd::prelude::*;

verus! {

/// cos θ in the voltage format, as the inverse Park transform uses it.
pub open spec fn park_cos(table: Seq<i16>, shift: u16, theta: int) -> int {
    magnitude_to_voltage(cos_value(table, shift, theta))
}

/// sin θ in the voltage format, as the inverse Park transform uses it.
pub open spec fn park_sin(table: Seq<i16>, shift: u16, theta: int) -> int {
    magnitude_to_voltage(sin_value(table, shift, theta))
}

/// Vα = Vd·cos θ − Vq·sin θ, over raw voltage bits.
pub open spec fn park_alpha(vd: int, vq: int, c: int, s: int) -> int {
    voltage_mul(vd, c) - voltage_mul(vq, s)
}

/// Vβ = Vd·sin θ + Vq·cos θ, over raw voltage bits.
pub open spec fn park_beta(vd: int, vq: int, c: int, s: int) -> int {
    voltage_mul(vd, s) + voltage_mul(vq, c)
}

/// Whether the four products and both results of the inverse Park transform
/// fit the voltage format.
pub open spec fn inverse_park_in_range(vd: int, vq: int, c: int, s: int) -> bool {
    &&& voltage_mul_in_range(vd, c)
    &&& voltage_mul_in_range(vd, s)
    &&& voltage_mul_in_range(vq, c)
    &&& voltage_mul_in_range(vq, s)
    &&& fits_i16(park_alpha(vd, vq, c, s))
    &&& fits_i16(park_beta(vd, vq, c, s))
}

/// Rotates the rotor-frame voltages (`vd`, `vq`) by `theta` into the stationary
/// frame (Vα, Vβ), with sine and cosine from `table` at `division_shift`.
pub fn inverse_park(vd: Voltage, vq: Voltage, theta: Angle, table: &[i16], division_shift: u16) -> (r: (Voltage, Voltage))
    requires
        table_fits(table@, division_shift),
        inverse_park_in_range(
            vd.bits as int,
            vq.bits as int,
            park_cos(table@, division_shift, theta.bits as int),
            park_sin(table@, division_shift, theta.bits as int),
        ),
    ensures
        ({
            let c = park_cos(table@, division_shift, theta.bits as int);
            let s = park_sin(table@, division_shift, theta.bits as int);
            &&& r.0.bits as int == park_alpha(vd.bits as int, vq.bits as int, c, s)
            &&& r.1.bits as int == park_beta(vd.bits as int, vq.bits as int, c, s)
        }),
{
    let c = to_voltage(cos_t(theta, table, division_shift));
    let s = to_voltage(sin_t(theta, table, division_shift));
    let alpha = mul_voltage(vd, c).bits - mul_voltage(vq, s).bits;
    let beta = mul_voltage(vd, s).bits + mul_voltage(vq, c).bits;
    (Voltage { bits: alpha }, Voltage { bits: beta })
}

/// √3/2 in the voltage format: the truncated √3 halved, rounding toward zero.
pub open spec fn half_sqrt_3() -> int {
    SQRT_3_BITS as int / 2
}

/// Half of `x`, rounding toward zero (integer division of the raw bits).
pub open spec fn half_toward_zero(x: int) -> int {
    if x >= 0 {
        x / 2
    } else {
        -((-x) / 2)
    }
}

/// The coefficient i = (√3/2)·Vα − Vβ/2, over raw voltage bits.
pub open spec fn clarke_i(alpha: int, beta: int) -> int {
    voltage_mul(half_sqrt_3(), alpha) - half_toward_zero(beta)
}

/// The coefficient k = −(√3/2)·Vα − Vβ/2, over raw voltage bits.
pub open spec fn clarke_k(alpha: int, beta: int) -> int {
    voltage_mul(-half_sqrt_3(), alpha) - half_toward_zero(beta)
}

/// Halves raw voltage bits, rounding toward zero.
fn half_of(x: i16) -> (r: i16)
    ensures
        r as int == half_toward_zero(x as int),
{
    if x >= 0 {
        x / 2
    } else {
        let m: i32 = -(x as i32);
        -((m / 2) as i16)
    }
}

/// The coefficients (i, j, k) of the modified inverse Clarke transform of the
/// stationary-frame voltages: i = (√3/2)·Vα − Vβ/2, j = Vβ,
/// k = −(√3/2)·Vα − Vβ/2.
pub fn mod_inverse_clarke(valpha: Voltage, vbeta: Voltage) -> (r: (Voltage, Voltage, Voltage))
    requires
        fits_i16(clarke_i(valpha.bits as int, vbeta.bits as int)),
        fits_i16(clarke_k(valpha.bits as int, vbeta.bits as int)),
    ensures
        r.0.bits as int == clarke_i(valpha.bits as int, vbeta.bits as int),
        r.1 == vbeta,
        r.2.bits as int == clarke_k(valpha.bits as int, vbeta.bits as int),
{
    let h: i16 = SQRT_3_BITS / 2;
    assert(voltage_mul_in_range(h as int, valpha.bits as int)) by (nonlinear_arith)
        requires
            h == 886,
            -32768 <= valpha.bits <= 32767,
    ;
    assert(voltage_mul_in_range(-h as int, valpha.bits as int)) by (nonlinear_arith)
        requires
            h == 886,
            -32768 <= valpha.bits <= 32767,
    ;
    let half_beta = half_of(vbeta.bits);
    let i = mul_voltage(Voltage { bits: h }, valpha).bits - half_beta;
    let k = mul_voltage(Voltage { bits: -h }, valpha).bits - half_beta;
    (Voltage { bits: i }, vbeta, Voltage { bits: k })
}

} // verus!
