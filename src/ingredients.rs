use vstd::prelude::*;
use vstd::arithmetic::div_mod::{
    lemma_div_is_ordered, lemma_fundamental_div_mod, lemma_hoist_over_denominator,
    lemma_mod_pos_bound,
};
use crate::clamp;

verus! {

/// Kind of baker's yeast. Fresh yeast is used at three times the dry amount.
#[derive(Clone, Copy, Debug, PartialEq, Eq, Structural)]
pub enum YeastKind {
    Dry,
    Fresh,
}

/// Input of the ingredient computation, in fixed point.
#[derive(Clone, Copy, Debug)]
pub struct IngredientsInput {
    /// Total dough mass in milligrams (sum of all balls).
    pub total_dough_mg: u64,
    /// Water as a fraction of flour, in millionths (750_000 for 75 %).
    pub hydration_ppm: u32,
    /// Salt per kilogram of flour, in milligrams (20_000 for 20 g/kg);
    /// this is also the salt fraction of flour in millionths.
    pub salt_mg_per_kg: u32,
    /// Yeast type.
    pub yeast: YeastKind,
    /// Temperature factor `2^((25 - T) / 10)` for the ambient temperature
    /// `T` in °C, in millionths.
    pub temp_factor_ppm: u32,
    /// Flour strength factor `(W / 260)^0.2`, in millionths.
    pub strength_factor_ppm: u32,
    /// Effective fermentation time in milli-hours (must be positive).
    pub effective_mh: u64,
}

/// Ingredient masses in milligrams.
#[derive(Clone, Copy, Debug)]
pub struct Ingredients {
    pub flour_mg: u64,
    pub water_mg: u64,
    pub salt_mg: u64,
    /// Baker's yeast (dry or fresh).
    pub yeast_mg: u64,
    /// Sourdough starter; always zero, no sourdough path exists.
    pub starter_total_mg: u64,
}

pub open spec fn clamp_int(v: int, lo: int, hi: int) -> int {
    if v < lo { lo } else if v > hi { hi } else { v }
}

/// Dry yeast as a fraction of flour, in millionths: a baseline of 3500
/// (0.35 %) at 25 °C, W = 260 and 12 hours, scaled by the temperature and
/// strength factors (millionths) and by `12 h / effective time`, then kept
/// within 500 ..= 15000 (0.05 % ..= 1.5 %).
pub open spec fn dry_yeast_ppm(temp_factor: int, strength_factor: int, effective_mh: int) -> int {
    clamp_int(
        3500 * temp_factor * strength_factor * 12000 / (1_000_000_000_000 * effective_mh),
        500,
        15000,
    )
}

/// The yeast fraction actually used: the dry estimate, tripled for fresh yeast.
pub open spec fn working_yeast_ppm(
    kind: YeastKind,
    temp_factor: int,
    strength_factor: int,
    effective_mh: int,
) -> int {
    match kind {
        YeastKind::Dry => dry_yeast_ppm(temp_factor, strength_factor, effective_mh),
        YeastKind::Fresh => 3 * dry_yeast_ppm(temp_factor, strength_factor, effective_mh),
    }
}

/// Effective fermentation time: room time counts fully, fridge time (capped
/// at the total) at the fridge factor, itself kept within 5 % ..= 50 %.
pub open spec fn effective_mh_of(total_mh: int, fridge_mh: int, factor_ppm: int) -> int {
    let f = if fridge_mh > total_mh { total_mh } else { fridge_mh };
    (total_mh - f) + f * clamp_int(factor_ppm, 50_000, 500_000) / 1_000_000
}

pub open spec fn yeast_ppm_of(input: IngredientsInput) -> int {
    working_yeast_ppm(
        input.yeast,
        input.temp_factor_ppm as int,
        input.strength_factor_ppm as int,
        input.effective_mh as int,
    )
}

/// `1 + hydration + salt + yeast`, in millionths: dough mass per unit of flour.
pub open spec fn divisor_of(input: IngredientsInput) -> int {
    1_000_000 + input.hydration_ppm + input.salt_mg_per_kg + yeast_ppm_of(input)
}

/// The part of the dough that has `p` millionths of flour per unit of flour:
/// `total * p / divisor`, which is the back-solved flour times `p / 10^6`,
/// rounded down once.
pub open spec fn share_of(input: IngredientsInput, p: int) -> int {
    input.total_dough_mg * p / divisor_of(input)
}

/// Flour back-solved from the total: `total / (1 + hydration + salt + yeast)`.
pub open spec fn flour_of(input: IngredientsInput) -> int {
    share_of(input, 1_000_000)
}

/// Water: flour times the hydration.
pub open spec fn water_of(input: IngredientsInput) -> int {
    share_of(input, input.hydration_ppm as int)
}

/// Salt: flour times the salt fraction.
pub open spec fn salt_of(input: IngredientsInput) -> int {
    share_of(input, input.salt_mg_per_kg as int)
}

/// Yeast: flour times the working yeast fraction.
pub open spec fn yeast_of(input: IngredientsInput) -> int {
    share_of(input, yeast_ppm_of(input))
}

pub open spec fn dough_mass_of(input: IngredientsInput) -> int {
    flour_of(input) + water_of(input) + salt_of(input) + yeast_of(input)
}

/// Dry yeast fraction of flour, in millionths (3500 is 0.35 %). The
/// temperature factor `2^((25 - T) / 10)` and the strength factor
/// `(W / 260)^0.2` are real powers and come in as millionths; the effective
/// time is in milli-hours.
pub fn estimate_yeast_percent_dry(
    temp_factor_ppm: u32,
    strength_factor_ppm: u32,
    effective_mh: u64,
) -> (r: u64)
    requires
        effective_mh > 0,
    ensures
        r == dry_yeast_ppm(temp_factor_ppm as int, strength_factor_ppm as int, effective_mh as int),
        500 <= r <= 15000,
{
    let t: u128 = temp_factor_ppm as u128;
    let s: u128 = strength_factor_ppm as u128;
    let e: u128 = effective_mh as u128;
    assert(t * s <= 0xffff_ffffu128 * 0xffff_ffffu128) by (nonlinear_arith)
        requires
            t <= 0xffff_ffffu128,
            s <= 0xffff_ffffu128,
    ;
    assert(e * 1_000_000_000_000 <= 0xffff_ffff_ffff_ffffu128 * 1_000_000_000_000) by (nonlinear_arith)
        requires
            e <= 0xffff_ffff_ffff_ffffu128,
    ;
    let num: u128 = 42_000_000 * (t * s);
    let den: u128 = 1_000_000_000_000 * e;
    assert(3500 * t * s * 12000 == 42_000_000 * (t * s)) by (nonlinear_arith);
    let raw: u128 = num / den;
    let capped: u64 = if raw > 15000 { 15001 } else { raw as u64 };
    clamp(capped, 500, 15000)
}

/// Effective fermentation time in milli-hours: `(total - fridge) + fridge *
/// factor`, with the fridge time capped at the total and the factor (in
/// millionths) kept within 50_000 ..= 500_000.
pub fn effective_hours(total_mh: u64, fridge_mh: u64, fridge_factor_ppm: u32) -> (r: u64)
    ensures
        r == effective_mh_of(total_mh as int, fridge_mh as int, fridge_factor_ppm as int),
        r <= total_mh,
{
    let f: u64 = if fridge_mh > total_mh { total_mh } else { fridge_mh };
    let rf: u64 = clamp(fridge_factor_ppm as u64, 50_000, 500_000);
    assert((f as u128) * (rf as u128) <= 0xffff_ffff_ffff_ffffu128 * 500_000) by (nonlinear_arith)
        requires
            f <= 0xffff_ffff_ffff_ffffu64,
            rf <= 500_000,
    ;
    let scaled: u128 = (f as u128) * (rf as u128) / 1_000_000;
    assert(f * rf / 1_000_000 <= f) by (nonlinear_arith)
        requires
            rf <= 500_000,
    ;
    (total_mh - f) + scaled as u64
}

/// Floor division facts: `q = x / d` satisfies `q * d <= x < q * d + d`.
proof fn lemma_div_bounds(x: int, d: int)
    requires
        x >= 0,
        d > 0,
    ensures
        (x / d) * d <= x,
        x < (x / d) * d + d,
        x / d >= 0,
{
    lemma_fundamental_div_mod(x, d);
    lemma_mod_pos_bound(x, d);
    let q = x / d;
    let m = x % d;
    assert(q * d <= x && x < q * d + d && q >= 0) by (nonlinear_arith)
        requires
            x == d * q + m,
            0 <= m < d,
            x >= 0,
    ;
}

/// A share `total * p / d` of a total, for `p <= d`, is rounded down by less
/// than one and never exceeds the total.
proof fn lemma_share_bounds(total: int, p: int, d: int)
    requires
        total >= 0,
        0 <= p <= d,
        d > 0,
    ensures
        (total * p / d) * d <= total * p,
        total * p < (total * p / d) * d + d,
        0 <= total * p / d <= total,
{
    assert(0 <= total * p <= total * d) by (nonlinear_arith)
        requires
            total >= 0,
            0 <= p <= d,
    ;
    lemma_div_bounds(total * p, d);
    let q = total * p / d;
    assert(q <= total) by (nonlinear_arith)
        requires
            q * d <= total * p,
            total * p <= total * d,
            d > 0,
    ;
}

/// Ingredient masses for a dough: flour is back-solved from the total so that
/// flour, water, salt and yeast add up to it, and the other three are the
/// flour times their fractions. Each part is taken from the total directly,
/// so that each is rounded down once.
pub fn compute_ingredients(input: IngredientsInput) -> (r: Ingredients)
    requires
        input.effective_mh > 0,
    ensures
        r.flour_mg == flour_of(input),
        r.water_mg == water_of(input),
        r.salt_mg == salt_of(input),
        r.yeast_mg == yeast_of(input),
        r.starter_total_mg == 0,
{
    let dry = estimate_yeast_percent_dry(
        input.temp_factor_ppm,
        input.strength_factor_ppm,
        input.effective_mh,
    );
    let yeast_ppm: u64 = match input.yeast {
        YeastKind::Dry => dry,
        YeastKind::Fresh => dry * 3,
    };
    let h: u128 = input.hydration_ppm as u128;
    let s: u128 = input.salt_mg_per_kg as u128;
    let y: u128 = yeast_ppm as u128;
    let d: u128 = 1_000_000 + h + s + y;
    let total: u128 = input.total_dough_mg as u128;
    assert(total * d <= 0xffff_ffff_ffff_ffffu128 * 0x3_0000_0000u128) by (nonlinear_arith)
        requires
            total <= 0xffff_ffff_ffff_ffffu128,
            d <= 0x3_0000_0000u128,
    ;
    assert(total * 1_000_000 <= total * d && total * h <= total * d && total * s <= total * d
        && total * y <= total * d) by (nonlinear_arith)
        requires
            d == 1_000_000 + h + s + y,
    ;
    proof {
        lemma_share_bounds(total as int, 1_000_000, d as int);
        lemma_share_bounds(total as int, h as int, d as int);
        lemma_share_bounds(total as int, s as int, d as int);
        lemma_share_bounds(total as int, y as int, d as int);
    }
    let flour: u128 = total * 1_000_000 / d;
    let water: u128 = total * h / d;
    let salt: u128 = total * s / d;
    let yeast: u128 = total * y / d;
    Ingredients {
        flour_mg: flour as u64,
        water_mg: water as u64,
        salt_mg: salt as u64,
        yeast_mg: yeast as u64,
        starter_total_mg: 0,
    }
}

/// Flour, water, salt and yeast add up to the requested dough mass, short of
/// it only by rounding: by less than 4 milligrams, whatever the fractions.
pub proof fn law_dough_mass_balance(input: IngredientsInput)
    requires
        input.effective_mh > 0,
    ensures
        dough_mass_of(input) <= input.total_dough_mg,
        input.total_dough_mg - dough_mass_of(input) < 4,
{
    let t = input.total_dough_mg as int;
    let h = input.hydration_ppm as int;
    let s = input.salt_mg_per_kg as int;
    let y = yeast_ppm_of(input);
    let d = divisor_of(input);
    lemma_share_bounds(t, 1_000_000, d);
    lemma_share_bounds(t, h, d);
    lemma_share_bounds(t, s, d);
    lemma_share_bounds(t, y, d);
    let sum = dough_mass_of(input);
    assert(t * d == t * 1_000_000 + t * h + t * s + t * y) by (nonlinear_arith)
        requires
            d == 1_000_000 + h + s + y,
    ;
    assert(sum * d == flour_of(input) * d + water_of(input) * d + salt_of(input) * d
        + yeast_of(input) * d) by (nonlinear_arith)
        requires
            sum == flour_of(input) + water_of(input) + salt_of(input) + yeast_of(input),
    ;
    assert(sum <= t && t - sum < 4) by (nonlinear_arith)
        requires
            sum * d <= t * d,
            t * d < sum * d + 4 * d,
            d > 0,
    ;
}

/// The effective time lies between the total scaled by the fridge factor and
/// the total itself, when the fridge time is within the total and the factor
/// within 5 % ..= 50 %.
pub proof fn law_effective_hours_bounds(total_mh: int, fridge_mh: int, factor_ppm: int)
    requires
        0 <= fridge_mh <= total_mh,
        50_000 <= factor_ppm <= 500_000,
    ensures
        total_mh * factor_ppm / 1_000_000 <= effective_mh_of(total_mh, fridge_mh, factor_ppm),
        effective_mh_of(total_mh, fridge_mh, factor_ppm) <= total_mh,
{
    let room = total_mh - fridge_mh;
    assert(total_mh * factor_ppm <= fridge_mh * factor_ppm + room * 1_000_000) by (nonlinear_arith)
        requires
            room == total_mh - fridge_mh,
            room >= 0,
            factor_ppm <= 1_000_000,
    ;
    lemma_div_is_ordered(total_mh * factor_ppm, fridge_mh * factor_ppm + room * 1_000_000, 1_000_000);
    lemma_hoist_over_denominator(fridge_mh * factor_ppm, room, 1_000_000);
    assert(fridge_mh * factor_ppm <= fridge_mh * 1_000_000) by (nonlinear_arith)
        requires
            fridge_mh >= 0,
            factor_ppm <= 1_000_000,
    ;
    assert(fridge_mh * factor_ppm >= 0) by (nonlinear_arith)
        requires
            fridge_mh >= 0,
            factor_ppm >= 0,
    ;
    lemma_div_is_ordered(fridge_mh * factor_ppm, fridge_mh * 1_000_000, 1_000_000);
}

/// More time in the fridge never gives more effective time.
pub proof fn law_effective_hours_monotone(
    total_mh: int,
    fridge_a: int,
    fridge_b: int,
    factor_ppm: int,
)
    requires
        0 <= fridge_a <= fridge_b <= total_mh,
    ensures
        effective_mh_of(total_mh, fridge_b, factor_ppm) <= effective_mh_of(
            total_mh,
            fridge_a,
            factor_ppm,
        ),
{
    let rf = clamp_int(factor_ppm, 50_000, 500_000);
    let k = fridge_b - fridge_a;
    assert(fridge_b * rf <= fridge_a * rf + k * 1_000_000) by (nonlinear_arith)
        requires
            k == fridge_b - fridge_a,
            k >= 0,
            0 <= rf <= 1_000_000,
    ;
    lemma_div_is_ordered(fridge_b * rf, fridge_a * rf + k * 1_000_000, 1_000_000);
    lemma_hoist_over_denominator(fridge_a * rf, k, 1_000_000);
}

/// Fresh yeast is always used at exactly three times the dry fraction for the
/// same temperature, flour strength and time.
pub proof fn law_fresh_is_three_times_dry(
    temp_factor: int,
    strength_factor: int,
    effective_mh: int,
)
    ensures
        working_yeast_ppm(YeastKind::Fresh, temp_factor, strength_factor, effective_mh) == 3
            * working_yeast_ppm(YeastKind::Dry, temp_factor, strength_factor, effective_mh),
{
}

} // verus!
