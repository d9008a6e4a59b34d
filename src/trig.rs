//! Sine and cosine of a fixed-point angle, from a table of the sine over the
//! first quadrant.
//!
//! Angles in [−2π, 2π) are folded into one of eight half-π bands, each mapped
//! onto a sub-angle of the first quadrant and a sign. The sub-angle's raw bits,
//! shifted right by the table's resolution shift, index the table.
use crate::fixed_point::{Angle, Magnitude, FRAC_PI_2_BITS, MAGNITUDE_MAX_BITS, PI_BITS};
use vstd::arithmetic::div_mod::{lemma_div_is_ordered, lemma_div_multiples_vanish};
use vstd::arithmetic::mul::lemma_mul_increases;
use vstd::arithmetic::power2::{lemma_pow2_pos, pow2};
use vstd::bits::lemma_u16_shr_is_div;
use vstd::prelude::*;

verus! {

/// π in raw angle bits.
pub open spec fn pi() -> int {
    PI_BITS as int
}

/// π/2 in raw angle bits.
pub open spec fn half_pi() -> int {
    FRAC_PI_2_BITS as int
}

/// 3π/2 in raw angle bits, as three times π/2.
pub open spec fn three_half_pi() -> int {
    3 * half_pi()
}

/// 2π in raw angle bits, as two times π.
pub open spec fn two_pi() -> int {
    2 * pi()
}

/// The largest sub-angle that folding can produce (2π − 3π/2 with the
/// truncated constants).
pub open spec fn max_sub_angle() -> int {
    two_pi() - three_half_pi()
}

/// Whether an angle lies strictly inside (−2π, 2π), where the table decides.
pub open spec fn in_table_range(a: int) -> bool {
    -two_pi() < a < two_pi()
}

/// The sub-angle and sign (true for +) of the sine's band of `a`.
pub open spec fn sin_fold(a: int) -> (int, bool) {
    if a < -three_half_pi() {
        (a + two_pi(), true)
    } else if a < -pi() {
        (-pi() - a, true)
    } else if a < -half_pi() {
        (a + pi(), false)
    } else if a < 0 {
        (-a, false)
    } else if a < half_pi() {
        (a, true)
    } else if a < pi() {
        (pi() - a, true)
    } else if a < three_half_pi() {
        (a - pi(), false)
    } else {
        (two_pi() - a, false)
    }
}

/// The sub-angle and sign (true for +) of the cosine's band of `a`.
pub open spec fn cos_fold(a: int) -> (int, bool) {
    if a < -three_half_pi() {
        (-three_half_pi() - a, true)
    } else if a < -pi() {
        (three_half_pi() + a, false)
    } else if a < -half_pi() {
        (-half_pi() - a, false)
    } else if a < 0 {
        (a + half_pi(), true)
    } else if a < half_pi() {
        (half_pi() - a, true)
    } else if a < pi() {
        (a - half_pi(), false)
    } else if a < three_half_pi() {
        (three_half_pi() - a, false)
    } else {
        (a - three_half_pi(), true)
    }
}

/// The table index of a sub-angle at resolution shift `shift`.
pub open spec fn table_index(sub: int, shift: u16) -> int {
    sub / (pow2(shift as nat) as int)
}

/// Whether `table` can serve lookups at resolution shift `shift`: the shift
/// fits the 16-bit angle, every sub-angle has an entry, and every entry is a
/// non-negative magnitude (the sine over the first quadrant).
pub open spec fn table_fits(table: Seq<i16>, shift: u16) -> bool {
    &&& shift < 16
    &&& table_index(max_sub_angle(), shift) < table.len()
    &&& forall|i: int| 0 <= i < table.len() ==> 0 <= #[trigger] table[i] <= MAGNITUDE_MAX_BITS
}

/// The table entry of a sub-angle, with its sign restored.
pub open spec fn signed_entry(table: Seq<i16>, shift: u16, fold: (int, bool)) -> int {
    let v = table[table_index(fold.0, shift)] as int;
    if fold.1 {
        v
    } else {
        -v
    }
}

/// The raw bits of the sine of the angle with raw bits `a`: 0 from 2π on in
/// either direction.
pub open spec fn sin_value(table: Seq<i16>, shift: u16, a: int) -> int {
    if in_table_range(a) {
        signed_entry(table, shift, sin_fold(a))
    } else {
        0
    }
}

/// The raw bits of the cosine of the angle with raw bits `a`: the largest
/// magnitude from 2π on in either direction.
pub open spec fn cos_value(table: Seq<i16>, shift: u16, a: int) -> int {
    if in_table_range(a) {
        signed_entry(table, shift, cos_fold(a))
    } else {
        MAGNITUDE_MAX_BITS as int
    }
}

/// Whether `a` is one of the band edges ±π/2, ±π, ±3π/2, where the truncated
/// constants make the two sides of zero fold onto sub-angles a step or two apart.
pub open spec fn is_band_edge(a: int) -> bool {
    a == half_pi() || a == -half_pi() || a == pi() || a == -pi() || a == three_half_pi() || a
        == -three_half_pi()
}

/// The sine is odd and the cosine even: `sin(−a) == −sin(a)` and
/// `cos(−a) == cos(a)` for every angle but the band edges (including ±2π and
/// beyond, where both sides take the boundary value). At zero the sine is odd
/// exactly when the table starts at 0.
pub proof fn lemma_sin_odd_cos_even(table: Seq<i16>, shift: u16, a: int)
    requires
        table_fits(table, shift),
        !is_band_edge(a),
    ensures
        (a != 0 || table[0] == 0) ==> sin_value(table, shift, -a) == -sin_value(table, shift, a),
        cos_value(table, shift, -a) == cos_value(table, shift, a),
{
    lemma_pow2_pos(shift as nat);
    assert(table_index(0, shift) == 0);
    if in_table_range(a) {
        assert(sin_fold(-a).0 == sin_fold(a).0 && sin_fold(-a).1 != sin_fold(a).1 || a == 0);
        assert(cos_fold(-a) == cos_fold(a));
    }
}

/// At the angles the table was sampled at, `k · 2^shift` below π/2, the sine is
/// the table entry `k` itself; the cosine of the complementary angle
/// `π/2 − k · 2^shift` (for `k ≥ 1`) is the same entry.
pub proof fn lemma_sample_angles_hit_table(table: Seq<i16>, shift: u16, k: int)
    requires
        table_fits(table, shift),
        0 <= k,
        k * pow2(shift as nat) < half_pi(),
    ensures
        sin_value(table, shift, k * pow2(shift as nat)) == table[k] as int,
        k >= 1 ==> cos_value(table, shift, half_pi() - k * pow2(shift as nat)) == table[k] as int,
{
    let p = pow2(shift as nat) as int;
    lemma_pow2_pos(shift as nat);
    lemma_div_multiples_vanish(k, p);
    lemma_div_is_ordered(k * p, max_sub_angle(), p);
    if k >= 1 {
        lemma_mul_increases(k, p);
    }
}

/// Looks up the entry of a sub-angle and applies the sign.
fn lookup(table: &[i16], shift: u16, sub: i16, positive: bool) -> (r: Magnitude)
    requires
        table_fits(table@, shift),
        0 <= sub <= max_sub_angle(),
    ensures
        r.bits as int == signed_entry(table@, shift, (sub as int, positive)),
{
    proof {
        lemma_u16_shr_is_div(sub as u16, shift);
        lemma_pow2_pos(shift as nat);
        lemma_div_is_ordered(sub as int, max_sub_angle(), pow2(shift as nat) as int);
    }
    let index = ((sub as u16) >> shift) as usize;
    let v = table[index];
    if positive {
        Magnitude { bits: v }
    } else {
        Magnitude { bits: -v }
    }
}

/// Sine of `angle` from `table`, which holds the sine over [0, π/2) sampled
/// every 2^`division_shift` raw angle steps.
///
/// From −2π down and from 2π up the result is 0.
pub fn sin_t(angle: Angle, table: &[i16], division_shift: u16) -> (r: Magnitude)
    requires
        table_fits(table@, division_shift),
    ensures
        r.bits as int == sin_value(table@, division_shift, angle.bits as int),
{
    let a = angle.bits;
    let pi: i16 = PI_BITS;
    let half_pi: i16 = FRAC_PI_2_BITS;
    let three_half_pi: i16 = 3 * FRAC_PI_2_BITS;
    let two_pi: i16 = 2 * PI_BITS;
    if a <= -two_pi {
        Magnitude { bits: 0 }
    } else if a < -three_half_pi {
        lookup(table, division_shift, a + two_pi, true)
    } else if a < -pi {
        lookup(table, division_shift, -pi - a, true)
    } else if a < -half_pi {
        lookup(table, division_shift, a + pi, false)
    } else if a < 0 {
        lookup(table, division_shift, -a, false)
    } else if a < half_pi {
        lookup(table, division_shift, a, true)
    } else if a < pi {
        lookup(table, division_shift, pi - a, true)
    } else if a < three_half_pi {
        lookup(table, division_shift, a - pi, false)
    } else if a < two_pi {
        lookup(table, division_shift, two_pi - a, false)
    } else {
        Magnitude { bits: 0 }
    }
}

/// Cosine of `angle` from `table`, which holds the sine over [0, π/2) sampled
/// every 2^`division_shift` raw angle steps.
///
/// From −2π down and from 2π up the result is the largest magnitude, 1 − 2^-14.
pub fn cos_t(angle: Angle, table: &[i16], division_shift: u16) -> (r: Magnitude)
    requires
        table_fits(table@, division_shift),
    ensures
        r.bits as int == cos_value(table@, division_shift, angle.bits as int),
{
    let a = angle.bits;
    let pi: i16 = PI_BITS;
    let half_pi: i16 = FRAC_PI_2_BITS;
    let three_half_pi: i16 = 3 * FRAC_PI_2_BITS;
    let two_pi: i16 = 2 * PI_BITS;
    if a <= -two_pi {
        Magnitude { bits: MAGNITUDE_MAX_BITS }
    } else if a < -three_half_pi {
        lookup(table, division_shift, -three_half_pi - a, true)
    } else if a < -pi {
        lookup(table, division_shift, three_half_pi + a, false)
    } else if a < -half_pi {
        lookup(table, division_shift, -half_pi - a, false)
    } else if a < 0 {
        lookup(table, division_shift, a + half_pi, true)
    } else if a < half_pi {
        lookup(table, division_shift, half_pi - a, true)
    } else if a < pi {
        lookup(table, division_shift, a - half_pi, false)
    } else if a < three_half_pi {
        lookup(table, division_shift, three_half_pi - a, false)
    } else if a < two_pi {
        lookup(table, division_shift, a - three_half_pi, true)
    } else {
        Magnitude { bits: MAGNITUDE_MAX_BITS }
    }
}

} // verus!
