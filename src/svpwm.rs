//! Space-vector PWM: classifies the coefficients (i, j, k) into one of the six
//! sectors of the voltage hexagon and turns them into three phase duties.
use crate::fixed_point::{fits_i16, Voltage};
use crate::foc::half_toward_zero;
use vstd::prelude::*;

verus! {

/// The 3-bit classification code: bit 0 for i ≥ 0, bit 1 for j ≥ 0, bit 2 for
/// k ≥ 0.
pub open spec fn sector_code(i: int, j: int, k: int) -> int {
    (if i >= 0 { 1int } else { 0int }) + (if j >= 0 { 2int } else { 0int }) + (if k >= 0 { 4int } else { 0int })
}

/// The hexagon sector of a classification code; 0 for the codes 0 and 7,
/// which consistent coefficients never give.
pub open spec fn sector_of_code(code: int) -> int {
    if code == 1 {
        6
    } else if code == 2 {
        2
    } else if code == 3 {
        1
    } else if code == 4 {
        4
    } else if code == 5 {
        5
    } else if code == 6 {
        3
    } else {
        0
    }
}

/// The active-vector timings (T1, T2) that a classification code selects.
pub open spec fn active_timings(i: int, j: int, k: int, code: int) -> (int, int) {
    if code == 1 {
        (-j, -k)
    } else if code == 2 {
        (-k, -i)
    } else if code == 3 {
        (i, j)
    } else if code == 4 {
        (-i, -j)
    } else if code == 5 {
        (k, i)
    } else {
        (j, k)
    }
}

/// The timings (T0, T1, T2): the two active ones and the zero-vector timing
/// T0 = max − T1 − T2.
pub open spec fn timings(i: int, j: int, k: int, max: int) -> (int, int, int) {
    let t = active_timings(i, j, k, sector_code(i, j, k));
    (max - t.0 - t.1, t.0, t.1)
}

/// The phase duties (U, V, W): each is T0/2 plus none, one or both active
/// timings, in the pattern of the sector; all zero for the codes 0 and 7.
pub open spec fn duties(i: int, j: int, k: int, max: int) -> (int, int, int) {
    let code = sector_code(i, j, k);
    let t = timings(i, j, k, max);
    let t1 = t.1;
    let t2 = t.2;
    let h = half_toward_zero(t.0);
    if code == 1 {
        (t1 + t2 + h, h, t1 + h)
    } else if code == 2 {
        (t1 + h, t1 + t2 + h, h)
    } else if code == 3 {
        (t1 + t2 + h, t2 + h, h)
    } else if code == 4 {
        (h, t1 + h, t1 + t2 + h)
    } else if code == 5 {
        (t2 + h, h, t1 + t2 + h)
    } else if code == 6 {
        (h, t1 + t2 + h, t2 + h)
    } else {
        (0, 0, 0)
    }
}

/// Whether the three duties fit the voltage format.
pub open spec fn duties_in_range(i: int, j: int, k: int, max: int) -> bool {
    let d = duties(i, j, k, max);
    fits_i16(d.0) && fits_i16(d.1) && fits_i16(d.2)
}

/// Whether the coefficients are of mixed signs, as coefficients that sum to
/// zero and are not all zero always are.
pub open spec fn mixed_signs(i: int, j: int, k: int) -> bool {
    !(i >= 0 && j >= 0 && k >= 0) && !(i < 0 && j < 0 && k < 0)
}

/// Coefficients that sum to zero and are not all zero are of mixed signs.
pub proof fn lemma_zero_sum_is_mixed(i: int, j: int, k: int)
    requires
        i + j + k == 0,
        !(i == 0 && j == 0 && k == 0),
    ensures
        mixed_signs(i, j, k),
{
}

/// For coefficients of mixed signs the sector is one of 1 to 6, both active
/// timings are non-negative, and T0 + T1 + T2 equals `max` exactly; where the
/// active timings leave room (T1 + T2 ≤ max) every duty lies in [0, max].
pub proof fn lemma_svpwm_timings(i: int, j: int, k: int, max: int)
    requires
        mixed_signs(i, j, k),
    ensures
        1 <= sector_of_code(sector_code(i, j, k)) <= 6,
        timings(i, j, k, max).0 + timings(i, j, k, max).1 + timings(i, j, k, max).2 == max,
        timings(i, j, k, max).1 >= 0,
        timings(i, j, k, max).2 >= 0,
        timings(i, j, k, max).1 + timings(i, j, k, max).2 <= max ==> {
            let d = duties(i, j, k, max);
            &&& 0 <= d.0 <= max
            &&& 0 <= d.1 <= max
            &&& 0 <= d.2 <= max
        },
{
    let t = timings(i, j, k, max);
    if t.1 + t.2 <= max {
        let h = half_toward_zero(t.0);
        assert(0 <= h && 2 * h <= t.0);
    }
}

/// Half of a timing, rounding toward zero.
fn half_timing(x: i32) -> (r: i32)
    requires
        -0x40000 <= x <= 0x40000,
    ensures
        r as int == half_toward_zero(x as int),
{
    if x >= 0 {
        x / 2
    } else {
        -((-x) / 2)
    }
}

/// The phase duties (U, V, W) and the sector (1 to 6) of the coefficients
/// (i, j, k) under the voltage ceiling `max`. Where the coefficients are all
/// negative or all non-negative the duties are zero and the sector is 0.
pub fn svpwm(i: Voltage, j: Voltage, k: Voltage, max: Voltage) -> (r: (Voltage, Voltage, Voltage, u8))
    requires
        duties_in_range(i.bits as int, j.bits as int, k.bits as int, max.bits as int),
    ensures
        ({
            let d = duties(i.bits as int, j.bits as int, k.bits as int, max.bits as int);
            &&& r.0.bits as int == d.0
            &&& r.1.bits as int == d.1
            &&& r.2.bits as int == d.2
            &&& r.3 as int == sector_of_code(sector_code(i.bits as int, j.bits as int, k.bits as int))
        }),
{
    let ii = i.bits as i32;
    let jj = j.bits as i32;
    let kk = k.bits as i32;
    let mut code: u8 = 0;
    if ii >= 0 {
        code = code + 1;
    }
    if jj >= 0 {
        code = code + 2;
    }
    if kk >= 0 {
        code = code + 4;
    }
    let (t1, t2, sector): (i32, i32, u8) = if code == 1 {
        (-jj, -kk, 6)
    } else if code == 2 {
        (-kk, -ii, 2)
    } else if code == 3 {
        (ii, jj, 1)
    } else if code == 4 {
        (-ii, -jj, 4)
    } else if code == 5 {
        (kk, ii, 5)
    } else if code == 6 {
        (jj, kk, 3)
    } else {
        let zero = Voltage { bits: 0 };
        return (zero, zero, zero, 0);
    };
    let t0 = max.bits as i32 - t1 - t2;
    let h = half_timing(t0);
    let (u, v, w): (i32, i32, i32) = if code == 1 {
        (t1 + t2 + h, h, t1 + h)
    } else if code == 2 {
        (t1 + h, t1 + t2 + h, h)
    } else if code == 3 {
        (t1 + t2 + h, t2 + h, h)
    } else if code == 4 {
        (h, t1 + h, t1 + t2 + h)
    } else if code == 5 {
        (t2 + h, h, t1 + t2 + h)
    } else {
        (h, t1 + t2 + h, t2 + h)
    };
    (Voltage { bits: u as i16 }, Voltage { bits: v as i16 }, Voltage { bits: w as i16 }, sector)
}

} // verus!
