//! Building the sine table: the angles to sample, and the saturating
//! quantization of the sampled values into the magnitude format.
use crate::fixed_point::{Angle, Magnitude, MAGNITUDE_MAX_BITS, MAGNITUDE_MIN_BITS};
use crate::trig::{half_pi, max_sub_angle, table_fits, table_index};
use vstd::arithmetic::div_mod::lemma_fundamental_div_mod_converse;
use vstd::arithmetic::power2::{lemma2_to64, lemma_pow2_pos, lemma_pow2_strictly_increases, pow2};
use vstd::bits::lemma_u32_shl_is_mul;
use vstd::prelude::*;

verus! {

/// The angular step between two samples, in raw angle bits.
pub open spec fn sample_step(shift: u16) -> int {
    pow2(shift as nat) as int
}

/// How many samples cover [start, end): ⌈(end − start) / step⌉, or none when
/// the interval is empty.
pub open spec fn sample_count(start: int, end: int, shift: u16) -> int {
    if start < end {
        (end - start + sample_step(shift) - 1) / sample_step(shift)
    } else {
        0
    }
}

/// A raw value clamped into the magnitude range [−1, 1 − 2^-14].
pub open spec fn clamp_magnitude(x: int) -> int {
    if x > MAGNITUDE_MAX_BITS {
        MAGNITUDE_MAX_BITS as int
    } else if x < MAGNITUDE_MIN_BITS {
        MAGNITUDE_MIN_BITS as int
    } else {
        x
    }
}

proof fn lemma_step_bounds(shift: u16)
    requires
        shift < 16,
    ensures
        1 <= sample_step(shift) <= 0x8000,
{
    lemma_pow2_pos(shift as nat);
    lemma2_to64();
    if shift < 15 {
        lemma_pow2_strictly_increases(shift as nat, 15);
    }
}

/// The angles at which the table samples the sine: `start`, `start + step`,
/// … while below `end`, with a step of 2^`division_shift` raw angle bits.
pub fn sample_angles(start_angle: Angle, end_angle: Angle, division_shift: u16) -> (r: Vec<Angle>)
    requires
        division_shift < 16,
    ensures
        r@.len() == sample_count(start_angle.bits as int, end_angle.bits as int, division_shift),
        forall|n: int|
            0 <= n < r@.len() ==> #[trigger] r@[n].bits as int == start_angle.bits as int + n
                * sample_step(division_shift),
{
    proof {
        lemma_step_bounds(division_shift);
        lemma_u32_shl_is_mul(1, division_shift as u32);
    }
    let step: i32 = (1u32 << division_shift) as i32;
    let start = start_angle.bits as i32;
    let end = end_angle.bits as i32;
    let mut angles: Vec<Angle> = Vec::new();
    let mut angle: i32 = start;
    assert(angles@.len() == 0);
    assert(angle as int == start + angles@.len() * step) by (nonlinear_arith)
        requires
            angles@.len() == 0,
            angle == start,
    ;
    while angle < end
        invariant
            step as int == sample_step(division_shift),
            1 <= step <= 0x8000,
            start == start_angle.bits,
            end == end_angle.bits,
            angle as int == start + angles@.len() * step,
            angles@.len() == 0 || start + (angles@.len() - 1) * step < end,
            start <= angle,
            angles@.len() > 0 ==> angle < end + step,
            forall|n: int|
                0 <= n < angles@.len() ==> #[trigger] angles@[n].bits as int == start + n * step,
        decreases end + step - angle,
    {
        angles.push(Angle { bits: angle as i16 });
        proof {
            assert(start + (angles@.len() - 1) * step == angle) by (nonlinear_arith)
                requires
                    angle as int == start + (angles@.len() - 1) * step,
            ;
            assert(start + angles@.len() * step == angle + step) by (nonlinear_arith)
                requires
                    angle as int == start + (angles@.len() - 1) * step,
            ;
        }
        angle = angle + step;
    }
    proof {
        let n = angles@.len() as int;
        if start < end {
            assert(n > 0);
            let x = end - start + step - 1;
            let rest = x - n * step;
            assert(0 <= rest < step) by (nonlinear_arith)
                requires
                    start + (n - 1) * step < end,
                    start + n * step >= end,
                    rest == end - start + step - 1 - n * step,
            ;
            lemma_fundamental_div_mod_converse(x, step as int, n, rest);
        }
    }
    angles
}

/// A table built over [0, π/2) at resolution shift `shift` from non-negative
/// samples (the sine over the first quadrant) serves lookups at that same
/// shift, for every shift from 2 on. (At shifts 0 and 1 the folding of the
/// truncated constants reaches one entry past such a table.)
pub proof fn lemma_built_table_fits(samples: Seq<i32>, table: Seq<i16>, shift: u16)
    requires
        2 <= shift < 16,
        samples.len() == sample_count(0, half_pi(), shift),
        forall|n: int| 0 <= n < samples.len() ==> #[trigger] samples[n] >= 0,
        table.len() == samples.len(),
        forall|n: int| 0 <= n < table.len() ==> #[trigger] table[n] as int == clamp_magnitude(samples[n] as int),
    ensures
        table_fits(table, shift),
{
    lemma2_to64();
    assert(max_sub_angle() == 6435 && half_pi() == 6433);
    assert(table_index(max_sub_angle(), shift) < sample_count(0, half_pi(), shift)) by {
        if shift == 2 {
            assert(pow2(shift as nat) == 4);
            lemma_fundamental_div_mod_converse(6435, 4, 1608, 3);
            lemma_fundamental_div_mod_converse(6433 + 4 - 1, 4, 1609, 0);
        } else if shift == 3 {
            assert(pow2(shift as nat) == 8);
            lemma_fundamental_div_mod_converse(6435, 8, 804, 3);
            lemma_fundamental_div_mod_converse(6433 + 8 - 1, 8, 805, 0);
        } else if shift == 4 {
            assert(pow2(shift as nat) == 16);
            lemma_fundamental_div_mod_converse(6435, 16, 402, 3);
            lemma_fundamental_div_mod_converse(6433 + 16 - 1, 16, 403, 0);
        } else if shift == 5 {
            assert(pow2(shift as nat) == 32);
            lemma_fundamental_div_mod_converse(6435, 32, 201, 3);
            lemma_fundamental_div_mod_converse(6433 + 32 - 1, 32, 202, 0);
        } else if shift == 6 {
            assert(pow2(shift as nat) == 64);
            lemma_fundamental_div_mod_converse(6435, 64, 100, 35);
            lemma_fundamental_div_mod_converse(6433 + 64 - 1, 64, 101, 32);
        } else if shift == 7 {
            assert(pow2(shift as nat) == 128);
            lemma_fundamental_div_mod_converse(6435, 128, 50, 35);
            lemma_fundamental_div_mod_converse(6433 + 128 - 1, 128, 51, 32);
        } else if shift == 8 {
            assert(pow2(shift as nat) == 256);
            lemma_fundamental_div_mod_converse(6435, 256, 25, 35);
            lemma_fundamental_div_mod_converse(6433 + 256 - 1, 256, 26, 32);
        } else if shift == 9 {
            assert(pow2(shift as nat) == 512);
            lemma_fundamental_div_mod_converse(6435, 512, 12, 291);
            lemma_fundamental_div_mod_converse(6433 + 512 - 1, 512, 13, 288);
        } else if shift == 10 {
            assert(pow2(shift as nat) == 1024);
            lemma_fundamental_div_mod_converse(6435, 1024, 6, 291);
            lemma_fundamental_div_mod_converse(6433 + 1024 - 1, 1024, 7, 288);
        } else if shift == 11 {
            assert(pow2(shift as nat) == 2048);
            lemma_fundamental_div_mod_converse(6435, 2048, 3, 291);
            lemma_fundamental_div_mod_converse(6433 + 2048 - 1, 2048, 4, 288);
        } else if shift == 12 {
            assert(pow2(shift as nat) == 4096);
            lemma_fundamental_div_mod_converse(6435, 4096, 1, 2339);
            lemma_fundamental_div_mod_converse(6433 + 4096 - 1, 4096, 2, 2336);
        } else if shift == 13 {
            assert(pow2(shift as nat) == 8192);
            lemma_fundamental_div_mod_converse(6435, 8192, 0, 6435);
            lemma_fundamental_div_mod_converse(6433 + 8192 - 1, 8192, 1, 6432);
        } else if shift == 14 {
            assert(pow2(shift as nat) == 16384);
            lemma_fundamental_div_mod_converse(6435, 16384, 0, 6435);
            lemma_fundamental_div_mod_converse(6433 + 16384 - 1, 16384, 1, 6432);
        } else {
            assert(pow2(shift as nat) == 32768);
            lemma_fundamental_div_mod_converse(6435, 32768, 0, 6435);
            lemma_fundamental_div_mod_converse(6433 + 32768 - 1, 32768, 1, 6432);
        }
    }
    assert forall|i: int| 0 <= i < table.len() implies 0 <= #[trigger] table[i] <= MAGNITUDE_MAX_BITS by {
        assert(samples[i] >= 0);
    }
}

/// A sampled value clamped into the magnitude range, so that a value above the
/// largest magnitude saturates instead of wrapping.
pub fn saturate_magnitude(raw: i32) -> (r: Magnitude)
    ensures
        r.bits as int == clamp_magnitude(raw as int),
{
    if raw > MAGNITUDE_MAX_BITS as i32 {
        Magnitude { bits: MAGNITUDE_MAX_BITS }
    } else if raw < MAGNITUDE_MIN_BITS as i32 {
        Magnitude { bits: MAGNITUDE_MIN_BITS }
    } else {
        Magnitude { bits: raw as i16 }
    }
}

/// The table of raw magnitudes for the sampled values `samples` (each the
/// reference sine of one sample angle, scaled by 2^14 and rounded), each
/// saturated into the magnitude range.
pub fn quantize_table(samples: &[i32]) -> (r: Vec<i16>)
    ensures
        r@.len() == samples@.len(),
        forall|n: int| 0 <= n < r@.len() ==> #[trigger] r@[n] as int == clamp_magnitude(samples@[n] as int),
{
    let mut table: Vec<i16> = Vec::new();
    let mut n: usize = 0;
    while n < samples.len()
        invariant
            n <= samples@.len(),
            table@.len() == n,
            forall|m: int| 0 <= m < n ==> #[trigger] table@[m] as int == clamp_magnitude(samples@[m] as int),
        decreases samples@.len() - n,
    {
        table.push(saturate_magnitude(samples[n]).bits);
        n = n + 1;
    }
    table
}

} // verus!
