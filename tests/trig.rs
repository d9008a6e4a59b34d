use fixed::types::{I2F14, I4F12, I6F10};
use foc_trig::fixed_point::{
    Angle, Magnitude, FRAC_PI_2_BITS, MAGNITUDE_MAX_BITS, PI_BITS, SQRT_3_BITS,
};
use foc_trig::table::{quantize_table, sample_angles, saturate_magnitude};
use foc_trig::trig::{cos_t, sin_t};

const SHIFT: u16 = 5;

fn reference_samples(angles: &[Angle]) -> Vec<i32> {
    angles
        .iter()
        .map(|a| {
            let x = I4F12::from_bits(a.bits).to_num::<f64>();
            I2F14::from_num(x.sin()).to_bits() as i32
        })
        .collect()
}

fn quarter_table(shift: u16) -> Vec<i16> {
    let angles = sample_angles(Angle::from_bits(0), Angle::from_bits(FRAC_PI_2_BITS), shift);
    quantize_table(&reference_samples(&angles))
}

fn to_f64(m: Magnitude) -> f64 {
    m.bits as f64 / 16384.0
}

#[test]
fn constants_match_fixed() {
    assert_eq!(PI_BITS, I4F12::PI.to_bits());
    assert_eq!(FRAC_PI_2_BITS, I4F12::FRAC_PI_2.to_bits());
    assert_eq!(SQRT_3_BITS, I6F10::SQRT_3.to_bits());
    assert_eq!(MAGNITUDE_MAX_BITS, I2F14::ONE.to_bits() - 1);
}

#[test]
fn table_size_at_shift_five() {
    let table = quarter_table(SHIFT);
    // ⌈6433 / 32⌉ samples over [0, π/2)
    assert_eq!(table.len(), (FRAC_PI_2_BITS as usize + 31) / 32);
    assert_eq!(table.len(), 202);
    assert_eq!(table[0], 0);
    // the last sample, sin(1.5703125), rounds up to 1 and saturates
    assert_eq!(table[201], MAGNITUDE_MAX_BITS);
}

#[test]
fn table_is_non_decreasing() {
    let table = quarter_table(SHIFT);
    for n in 1..table.len() {
        assert!(table[n - 1] <= table[n]);
    }
}

#[test]
fn sample_angles_steps_and_bounds() {
    let angles = sample_angles(Angle::from_bits(10), Angle::from_bits(20), 2);
    let bits: Vec<i16> = angles.iter().map(|a| a.bits).collect();
    assert_eq!(bits, vec![10, 14, 18]);
    let single = sample_angles(Angle::from_bits(-3), Angle::from_bits(0), 0);
    assert_eq!(single.len(), 3);
    assert!(sample_angles(Angle::from_bits(5), Angle::from_bits(5), 3).is_empty());
    assert!(sample_angles(Angle::from_bits(9), Angle::from_bits(5), 3).is_empty());
    let top = sample_angles(Angle::from_bits(32000), Angle::from_bits(i16::MAX), 15);
    assert_eq!(top.len(), 1);
}

#[test]
fn saturation_clamps_instead_of_wrapping() {
    assert_eq!(saturate_magnitude(16384).bits, MAGNITUDE_MAX_BITS);
    assert_eq!(saturate_magnitude(40000).bits, MAGNITUDE_MAX_BITS);
    assert_eq!(saturate_magnitude(-16385).bits, -16384);
    assert_eq!(saturate_magnitude(1234).bits, 1234);
    assert_eq!(quantize_table(&[0, 16384, -5, 70000]), vec![0, 16383, -5, 16383]);
}

#[test]
fn sin_cos_close_to_reference_over_full_turn() {
    let table = quarter_table(SHIFT);
    // one table step of 2^-7 rad, two raw angle steps lost to the truncated
    // constants, and the rounding of the samples
    let bound = (32.0 + 2.0) / 4096.0 + 1.0 / 16384.0;
    let two_pi = 2 * PI_BITS;
    let mut a: i16 = 0;
    while a < two_pi {
        let x = I4F12::from_bits(a).to_num::<f64>();
        let s = to_f64(sin_t(Angle::from_bits(a), &table, SHIFT));
        let c = to_f64(cos_t(Angle::from_bits(a), &table, SHIFT));
        assert!((s - x.sin()).abs() <= bound, "sin at {}", a);
        assert!((c - x.cos()).abs() <= bound, "cos at {}", a);
        a += 7;
    }
}

#[test]
fn sin_odd_cos_even_off_band_edges() {
    let table = quarter_table(SHIFT);
    let edges = [FRAC_PI_2_BITS, PI_BITS, 3 * FRAC_PI_2_BITS];
    for a in 1..=(2 * PI_BITS) {
        if edges.contains(&a) {
            continue;
        }
        let p = Angle::from_bits(a);
        let n = Angle::from_bits(-a);
        assert_eq!(sin_t(n, &table, SHIFT).bits, -sin_t(p, &table, SHIFT).bits);
        assert_eq!(cos_t(n, &table, SHIFT), cos_t(p, &table, SHIFT));
    }
}

#[test]
fn sin_cos_at_sample_angles_are_table_entries() {
    let table = quarter_table(SHIFT);
    for k in 0..table.len() {
        let a = (k as i16) << SHIFT;
        assert_eq!(sin_t(Angle::from_bits(a), &table, SHIFT).bits, table[k]);
        if k >= 1 {
            let c = cos_t(Angle::from_bits(FRAC_PI_2_BITS - a), &table, SHIFT);
            assert_eq!(c.bits, table[k]);
        }
    }
}

#[test]
fn boundary_at_minus_two_pi() {
    let table = quarter_table(SHIFT);
    let angle = Angle::from_bits(I4F12::from_num(-std::f64::consts::TAU).to_bits());
    assert_eq!(sin_t(angle, &table, SHIFT).bits, 0);
    let c = cos_t(angle, &table, SHIFT);
    assert_eq!(c.bits, MAGNITUDE_MAX_BITS);
    assert!((to_f64(c) - 0.99994).abs() < 0.00001);
    assert_eq!(sin_t(Angle::from_bits(2 * PI_BITS), &table, SHIFT).bits, 0);
    assert_eq!(cos_t(Angle::from_bits(i16::MAX), &table, SHIFT).bits, MAGNITUDE_MAX_BITS);
    assert_eq!(sin_t(Angle::from_bits(i16::MIN), &table, SHIFT).bits, 0);
}

#[test]
fn band_signs_follow_quadrants() {
    let table = quarter_table(SHIFT);
    let third = Angle::from_bits(PI_BITS + 2000);
    assert!(sin_t(third, &table, SHIFT).bits < 0);
    assert!(cos_t(third, &table, SHIFT).bits < 0);
    let fourth = Angle::from_bits(-2000);
    assert!(sin_t(fourth, &table, SHIFT).bits < 0);
    assert!(cos_t(fourth, &table, SHIFT).bits > 0);
    // sin(π/6) = 0.5 within a table step
    let sixth = Angle::from_bits(I4F12::from_num(std::f64::consts::FRAC_PI_6).to_bits());
    assert!((to_f64(sin_t(sixth, &table, SHIFT)) - 0.5).abs() < 0.01);
}

#[test]
fn table_built_at_shift_two_serves_every_angle() {
    let table = quarter_table(2);
    assert_eq!(table.len(), 1609);
    for a in i16::MIN..=i16::MAX {
        let s = sin_t(Angle::from_bits(a), &table, 2);
        let c = cos_t(Angle::from_bits(a), &table, 2);
        assert!(s.bits.abs() <= MAGNITUDE_MAX_BITS && c.bits.abs() <= MAGNITUDE_MAX_BITS);
    }
}
