use vstd::prelude::*;
use vstd::arithmetic::div_mod::lemma_div_is_ordered;

verus! {

/// Durations of the dough workflow, in milli-hours.
#[derive(Clone, Copy, Debug, PartialEq, Eq, Structural)]
pub struct Timeline {
    pub bulk_mh: u64,
    pub fridge_mh: u64,
    pub warmup_mh: u64,
    pub proof_mh: u64,
}

/// The reference temperature, 25 °C, in tenths of a degree.
pub const REFERENCE_TEMP_DC: i32 = 250;

pub open spec fn total_of(t: Timeline) -> int {
    t.bulk_mh + t.fridge_mh + t.warmup_mh + t.proof_mh
}

/// A ratio moved away from `base` by `step` per tenth of a degree from 25 °C:
/// down when warmer (not below `min`), up when colder (not above `max`).
pub open spec fn temp_adjusted(temp_dc: int, base: int, step: int, min: int, max: int) -> int {
    if temp_dc > 250 {
        let v = base - (temp_dc - 250) * step;
        if v < min { min } else { v }
    } else if temp_dc < 250 {
        let v = base + (250 - temp_dc) * step;
        if v > max { max } else { v }
    } else {
        base
    }
}

/// Bulk share of the time left after fridge and warmup, in millionths:
/// 35 %, less 1 % per degree above 25 °C, more 1 % per degree below, kept
/// within 20 % ..= 60 %.
pub open spec fn fridge_bulk_ratio_ppm(temp_dc: int) -> int {
    temp_adjusted(temp_dc, 350_000, 1_000, 200_000, 600_000)
}

/// Bulk share of a no-fridge process before the temperature shift: 55 %.
pub open spec fn base_bulk_mh(total_mh: int) -> int {
    total_mh * 55 / 100
}

/// Time moved from bulk to final proof in a no-fridge process (negative: from
/// proof to bulk). It is 0.05 h per degree away from 25 °C, at most one hour
/// and at most a fifth of the phase it is taken from.
pub open spec fn no_fridge_shift_mh(total_mh: int, temp_dc: int) -> int {
    let bulk = base_bulk_mh(total_mh);
    let proof = total_mh - bulk;
    if temp_dc > 250 {
        let delta = if (temp_dc - 250) * 5 > 1000 { 1000 } else { (temp_dc - 250) * 5 };
        if delta > bulk / 5 { bulk / 5 } else { delta }
    } else if temp_dc < 250 {
        let delta = if (250 - temp_dc) * 5 > 1000 { 1000 } else { (250 - temp_dc) * 5 };
        -(if delta > proof / 5 { proof / 5 } else { delta })
    } else {
        0
    }
}

/// Time left for bulk and final proof after fridge and warmup (none if those
/// fill the whole process).
pub open spec fn remaining_mh(total_mh: int, fridge_mh: int, warmup_mh: int) -> int {
    if fridge_mh + warmup_mh >= total_mh { 0 } else { total_mh - fridge_mh - warmup_mh }
}

fn temp_adjust_ratio(temp_dc: i32, base: u32, step: u32, min: u32, max: u32) -> (r: u32)
    ensures
        r == temp_adjusted(temp_dc as int, base as int, step as int, min as int, max as int),
        min <= base <= max ==> min <= r <= max,
{
    let off: i128 = temp_dc as i128 - REFERENCE_TEMP_DC as i128;
    assert(-0x1_0000_0000i128 <= off <= 0x1_0000_0000i128);
    if off > 0 {
        assert(off * (step as i128) <= 0x1_0000_0000i128 * 0x1_0000_0000i128) by (nonlinear_arith)
            requires
                0 < off <= 0x1_0000_0000i128,
                0 <= step <= 0xffff_ffffu32,
        ;
        let v: i128 = base as i128 - off * (step as i128);
        if v < min as i128 {
            min
        } else {
            v as u32
        }
    } else if off < 0 {
        assert((-off) * (step as i128) <= 0x1_0000_0000i128 * 0x1_0000_0000i128)
            by (nonlinear_arith)
            requires
                0 < -off <= 0x1_0000_0000i128,
                0 <= step <= 0xffff_ffffu32,
        ;
        assert((-off) * (step as i128) >= 0) by (nonlinear_arith)
            requires
                0 < -off,
                0 <= step,
        ;
        let v: i128 = base as i128 + (-off) * (step as i128);
        if v > max as i128 {
            max
        } else {
            v as u32
        }
    } else {
        base
    }
}

/// Timeline without a fridge: bulk rise and final proof split 55/45, with a
/// temperature shift between them. The two phases add up to the total.
pub fn timeline_no_fridge(total_mh: u64, temp_dc: i32) -> (r: Timeline)
    ensures
        r.bulk_mh == base_bulk_mh(total_mh as int) - no_fridge_shift_mh(total_mh as int, temp_dc as int),
        r.proof_mh == total_mh - base_bulk_mh(total_mh as int) + no_fridge_shift_mh(
            total_mh as int,
            temp_dc as int,
        ),
        r.fridge_mh == 0,
        r.warmup_mh == 0,
        r.bulk_mh + r.proof_mh == total_mh,
{
    let total: u128 = total_mh as u128;
    let mut bulk: u64 = (total * 55 / 100) as u64;
    let mut proof: u64 = total_mh - bulk;
    let off: i64 = temp_dc as i64 - REFERENCE_TEMP_DC as i64;
    if off > 0 {
        let delta: u64 = if off * 5 > 1000 { 1000 } else { (off * 5) as u64 };
        let adjust: u64 = if delta > bulk / 5 { bulk / 5 } else { delta };
        bulk = bulk - adjust;
        proof = proof + adjust;
    } else if off < 0 {
        let delta: u64 = if -off * 5 > 1000 { 1000 } else { (-off * 5) as u64 };
        let adjust: u64 = if delta > proof / 5 { proof / 5 } else { delta };
        bulk = bulk + adjust;
        proof = proof - adjust;
    }
    Timeline { bulk_mh: bulk, fridge_mh: 0, warmup_mh: 0, proof_mh: proof }
}

/// Timeline with a fridge step: fridge and warmup as given, and the time left
/// split into bulk rise and final proof by the temperature-adjusted bulk
/// ratio. When fridge and warmup fit within the total, the four phases add up
/// to it; otherwise bulk and proof are empty.
pub fn timeline_with_fridge(total_mh: u64, temp_dc: i32, fridge_mh: u64, warmup_mh: u64) -> (r:
    Timeline)
    ensures
        r.fridge_mh == fridge_mh,
        r.warmup_mh == warmup_mh,
        r.bulk_mh == remaining_mh(total_mh as int, fridge_mh as int, warmup_mh as int)
            * fridge_bulk_ratio_ppm(temp_dc as int) / 1_000_000,
        r.bulk_mh + r.proof_mh == remaining_mh(total_mh as int, fridge_mh as int, warmup_mh as int),
        remaining_mh(total_mh as int, fridge_mh as int, warmup_mh as int) * 200_000 / 1_000_000
            <= r.bulk_mh <= remaining_mh(total_mh as int, fridge_mh as int, warmup_mh as int)
            * 600_000 / 1_000_000,
        fridge_mh + warmup_mh <= total_mh ==> total_of(r) == total_mh,
        fridge_mh + warmup_mh >= total_mh ==> r.bulk_mh == 0 && r.proof_mh == 0,
{
    let used: u128 = fridge_mh as u128 + warmup_mh as u128;
    let remaining: u64 = if used >= total_mh as u128 {
        0
    } else {
        (total_mh as u128 - used) as u64
    };
    let ratio: u32 = temp_adjust_ratio(temp_dc, 350_000, 1_000, 200_000, 600_000);
    assert(remaining as u128 * ratio as u128 <= 0xffff_ffff_ffff_ffffu128 * 600_000)
        by (nonlinear_arith)
        requires
            remaining <= 0xffff_ffff_ffff_ffffu64,
            ratio <= 600_000,
    ;
    assert(remaining as u128 * ratio as u128 / 1_000_000 <= remaining as u128) by (nonlinear_arith)
        requires
            ratio <= 600_000,
    ;
    proof {
        assert(remaining * 200_000 <= remaining * ratio <= remaining * 600_000)
            by (nonlinear_arith)
            requires
                remaining >= 0,
                200_000 <= ratio <= 600_000,
        ;
        lemma_div_is_ordered(remaining * 200_000, remaining * ratio, 1_000_000);
        lemma_div_is_ordered(remaining * ratio, remaining * 600_000, 1_000_000);
    }
    let bulk: u64 = (remaining as u128 * ratio as u128 / 1_000_000) as u64;
    Timeline { bulk_mh: bulk, fridge_mh, warmup_mh, proof_mh: remaining - bulk }
}

} // verus!
