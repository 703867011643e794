use pizza_core::{
    clamp, compute_ingredients, effective_hours, estimate_yeast_percent_dry, timeline_no_fridge,
    timeline_with_fridge, IngredientsInput, YeastKind,
};

/// Temperature factor `2^((25 - T) / 10)` in millionths, as a front end computes it.
fn temp_factor_ppm(temp_c: f64) -> u32 {
    (2f64.powf((25.0 - temp_c) / 10.0) * 1e6).round() as u32
}

/// Flour strength factor `(W / 260)^0.2` in millionths.
fn strength_factor_ppm(w: u16) -> u32 {
    ((w as f64 / 260.0).powf(0.2) * 1e6).round() as u32
}

fn dry_input_560() -> IngredientsInput {
    IngredientsInput {
        total_dough_mg: 560_000,
        hydration_ppm: 750_000,
        salt_mg_per_kg: 20_000,
        yeast: YeastKind::Dry,
        temp_factor_ppm: temp_factor_ppm(25.0),
        strength_factor_ppm: strength_factor_ppm(270),
        effective_mh: 11_000,
    }
}

#[test]
fn test_effective_hours_limits() {
    let e = effective_hours(12_000, 4_000, 250_000); // = 12 - 4 + 4*0.25 = 9.0 h
    assert_eq!(e, 9_000);

    // fridge factor is clamped to >= 0.05, so 0.01 -> 0.05
    let e2 = effective_hours(12_000, 4_000, 10_000); // = 12 - 4 + 4*0.05 = 8.2 h
    assert!(
        e2 < e,
        "with a slower fridge factor, effective hours should be lower"
    );
}

#[test]
fn test_yeast_percent_bounds() {
    let p_lo = estimate_yeast_percent_dry(temp_factor_ppm(35.0), strength_factor_ppm(260), 24_000);
    let p_hi = estimate_yeast_percent_dry(temp_factor_ppm(10.0), strength_factor_ppm(450), 6_000);
    assert!(p_lo >= 500 && p_lo <= 15_000);
    assert!(p_hi >= 500 && p_hi <= 15_000);
}

#[test]
fn test_ingredients_sum_dry() {
    let out = compute_ingredients(dry_input_560());
    let sum = out.flour_mg + out.water_mg + out.salt_mg + out.yeast_mg;
    assert!(sum <= 560_000 && 560_000 - sum <= 200);
}

#[test]
fn test_timeline_no_fridge_sums() {
    let t = timeline_no_fridge(11_000, 250);
    assert_eq!(t.bulk_mh + t.proof_mh, 11_000);
    assert_eq!(t.fridge_mh, 0);
}

#[test]
fn test_timeline_with_fridge_sums() {
    let t = timeline_with_fridge(12_000, 250, 4_000, 3_000);
    assert_eq!(t.bulk_mh + t.proof_mh + t.fridge_mh + t.warmup_mh, 12_000);
}

#[test]
fn effective_hours_clamps_factor_up() {
    assert_eq!(effective_hours(12_000, 4_000, 10_000), 8_200);
}

#[test]
fn effective_hours_clamps_factor_down() {
    assert_eq!(effective_hours(12_000, 4_000, 900_000), 10_000);
}

#[test]
fn effective_hours_caps_fridge_at_total() {
    assert_eq!(effective_hours(10_000, 20_000, 250_000), 2_500);
    assert_eq!(effective_hours(10_000, 0, 250_000), 10_000);
}

#[test]
fn effective_hours_bounded_and_monotone() {
    let total = 12_000;
    let mut prev = effective_hours(total, 0, 250_000);
    assert_eq!(prev, total);
    for f in (500..=total).step_by(500) {
        let e = effective_hours(total, f, 250_000);
        assert!(e <= prev);
        assert!(e >= total * 250_000 / 1_000_000 && e <= total);
        prev = e;
    }
    assert_eq!(prev, 3_000);
}

#[test]
fn yeast_baseline_is_exact() {
    assert_eq!(estimate_yeast_percent_dry(1_000_000, 1_000_000, 12_000), 3_500);
    assert_eq!(estimate_yeast_percent_dry(1_000_000, 1_000_000, 6_000), 7_000);
    assert_eq!(estimate_yeast_percent_dry(500_000, 1_000_000, 12_000), 1_750);
}

#[test]
fn yeast_clamped_to_range() {
    assert_eq!(estimate_yeast_percent_dry(1_000, 1_000_000, 12_000), 500);
    assert_eq!(estimate_yeast_percent_dry(4_000_000_000, 4_000_000_000, 1), 15_000);
    assert_eq!(estimate_yeast_percent_dry(0, 0, 12_000), 500);
}

#[test]
fn ingredients_exact_for_baseline() {
    let mut input = dry_input_560();
    input.temp_factor_ppm = 1_000_000;
    input.strength_factor_ppm = 1_000_000;
    input.effective_mh = 12_000;
    let out = compute_ingredients(input);
    assert_eq!(out.flour_mg, 315_759);
    assert_eq!(out.water_mg, 236_819);
    assert_eq!(out.salt_mg, 6_315);
    assert_eq!(out.yeast_mg, 1_105);
    assert_eq!(out.starter_total_mg, 0);
}

#[test]
fn ingredients_scenario_ratios() {
    let out = compute_ingredients(dry_input_560());
    let sum = out.flour_mg + out.water_mg + out.salt_mg + out.yeast_mg;
    assert!(560_000 - sum <= 200);
    assert_eq!(out.water_mg, out.flour_mg * 3 / 4);
    assert_eq!(out.salt_mg, out.flour_mg / 50);
}

#[test]
fn fresh_yeast_triples_dry() {
    let mut input = dry_input_560();
    input.temp_factor_ppm = 1_000_000;
    input.strength_factor_ppm = 1_000_000;
    input.effective_mh = 12_000;
    input.yeast = YeastKind::Fresh;
    let out = compute_ingredients(input);
    assert_eq!(out.flour_mg, 314_518);
    assert_eq!(out.water_mg, 235_888);
    assert_eq!(out.salt_mg, 6_290);
    assert_eq!(out.yeast_mg, 3_302);
}

#[test]
fn timeline_no_fridge_hot_and_cold() {
    let hot = timeline_no_fridge(11_000, 350);
    assert_eq!((hot.bulk_mh, hot.proof_mh), (5_550, 5_450));
    let cold = timeline_no_fridge(11_000, 50);
    assert_eq!((cold.bulk_mh, cold.proof_mh), (7_040, 3_960));
    let mild = timeline_no_fridge(11_000, 250);
    assert_eq!((mild.bulk_mh, mild.proof_mh), (6_050, 4_950));
}

#[test]
fn timeline_no_fridge_shift_capped_by_phase() {
    let t = timeline_no_fridge(1_000, 450);
    assert_eq!((t.bulk_mh, t.proof_mh), (440, 560));
    assert_eq!(t.warmup_mh, 0);
}

#[test]
fn timeline_with_fridge_scenario() {
    let t = timeline_with_fridge(12_000, 250, 4_000, 3_000);
    assert_eq!(t.fridge_mh, 4_000);
    assert_eq!(t.warmup_mh, 3_000);
    assert_eq!((t.bulk_mh, t.proof_mh), (1_750, 3_250));
}

#[test]
fn timeline_with_fridge_temperature_ratio() {
    let warm = timeline_with_fridge(12_000, 300, 4_000, 3_000);
    assert_eq!((warm.bulk_mh, warm.proof_mh), (1_500, 3_500));
    let very_cold = timeline_with_fridge(12_000, -100, 4_000, 3_000);
    assert_eq!((very_cold.bulk_mh, very_cold.proof_mh), (3_000, 2_000));
    let very_hot = timeline_with_fridge(12_000, 500, 4_000, 3_000);
    assert_eq!((very_hot.bulk_mh, very_hot.proof_mh), (1_000, 4_000));
}

#[test]
fn timeline_with_fridge_degenerate() {
    let t = timeline_with_fridge(5_000, 250, 4_000, 3_000);
    assert_eq!((t.bulk_mh, t.fridge_mh, t.warmup_mh, t.proof_mh), (0, 4_000, 3_000, 0));
}

#[test]
fn clamp_edges() {
    assert_eq!(clamp(3, 5, 10), 5);
    assert_eq!(clamp(12, 5, 10), 10);
    assert_eq!(clamp(7, 5, 10), 7);
    assert_eq!(clamp(5, 5, 5), 5);
}

#[test]
fn ingredients_sum_holds_for_extreme_salt() {
    let mut input = dry_input_560();
    input.salt_mg_per_kg = 4_000_000_000;
    input.temp_factor_ppm = 1_000_000;
    input.strength_factor_ppm = 1_000_000;
    input.effective_mh = 12_000;
    let out = compute_ingredients(input);
    assert_eq!((out.flour_mg, out.water_mg, out.salt_mg, out.yeast_mg), (139, 104, 559_754, 0));
    let sum = out.flour_mg + out.water_mg + out.salt_mg + out.yeast_mg;
    assert!(sum <= 560_000 && 560_000 - sum < 4);
}
