use cambio_torrefaction::curve::{
    COORD_LIMIT, CurveFit, CurveSettings, SIZE_LIMIT, extrema, fit, fit_flip, unfit, value_window,
};
use cambio_torrefaction::sensor::TempData;

// Values are millidegrees, instants milliseconds, sizes pixels.

#[test]
fn fit_maps_scenario_values() {
    // 20.0 degrees under Fixed(0, 100) bounds on a 100-pixel axis
    assert_eq!(fit(0, 100_000, 20_000, 100), 20);
    assert_eq!(fit_flip(0, 100_000, 20_000, 100), 80);
    // 22.0 degrees
    assert_eq!(fit_flip(0, 100_000, 22_000, 100), 78);
    // time axis: 5 s into a 5 s window spans the full width
    assert_eq!(fit(0, 5_000, 0, 100), 0);
    assert_eq!(fit(0, 5_000, 5_000, 100), 100);
    assert_eq!(fit(0, 5_000, 2_500, 100), 50);
}

#[test]
fn fit_floors_toward_minus_infinity() {
    // in-window rounding floors
    assert_eq!(fit(0, 3, 1, 2), 0);
    assert_eq!(fit(0, 3, 2, 2), 1);
    // a value below the window lands below zero, still floored
    assert_eq!(fit(0, 3, -1, 2), -1);
    assert_eq!(fit(0, 100_000, -10_000, 100), -10);
    // a collapsed window maps everything to zero
    assert_eq!(fit(5, 5, 7, 100), 0);
}

#[test]
fn unfit_inverts_fit_within_one_pixel_of_window() {
    let (lo, hi, size) = (0i64, 100_000i64, 100i64);
    for v in [0i64, 1, 999, 21_573, 50_000, 99_999, 100_000] {
        let p = fit(lo, hi, v, size);
        let w = unfit(lo, hi, p, size);
        assert!(w <= v);
        // within one pixel's worth of window: (hi - lo) / size
        assert!((v - w) * size < (hi - lo) + size);
    }
    // exact on pixel boundaries
    assert_eq!(unfit(0, 100_000, fit(0, 100_000, 21_573, 100), 100), 21_000);
    assert_eq!(unfit(0, 100_000, fit(0, 100_000, 21_000, 100), 100), 21_000);
}

#[test]
fn fit_is_exact_at_the_machine_limits() {
    let lo = -2 * COORD_LIMIT;
    let hi = 2 * COORD_LIMIT;
    assert_eq!(fit(lo, hi, hi, SIZE_LIMIT), SIZE_LIMIT);
    assert_eq!(fit(lo, hi, lo, SIZE_LIMIT), 0);
    assert_eq!(fit_flip(lo, hi, hi, SIZE_LIMIT), 0);
    let mid = fit(lo, hi, 0, SIZE_LIMIT);
    assert_eq!(mid, SIZE_LIMIT / 2);
    let w = unfit(lo, hi, mid, SIZE_LIMIT);
    assert!(w <= 0 && (0 - w) * SIZE_LIMIT < (hi - lo) + SIZE_LIMIT);
}

#[test]
fn fixed_bounds_never_change() {
    let cs = CurveSettings { min: 0, max: 230_000, fit: CurveFit::Normal };
    assert_eq!(cs.window(10_000, 20_000), (0, 230_000));
    assert_eq!(cs.window(-50_000, 500_000), (0, 230_000));
}

// Scenario: AlwaysFit(2, 2) with observed extrema (18, 24) yields bounds
// (16, 26); a later reading of 30 widens them to (16, 32) at once.
#[test]
fn always_fit_tracks_current_extrema() {
    let cs = CurveSettings { min: 0, max: 230_000, fit: CurveFit::AlwaysFit(2_000, 2_000) };
    assert_eq!(cs.window(18_000, 24_000), (16_000, 26_000));
    assert_eq!(cs.window(18_000, 30_000), (16_000, 32_000));
    // and it shrinks again when the extrema do
    assert_eq!(cs.window(20_000, 21_000), (18_000, 23_000));
}

#[test]
fn always_fit_degenerate_falls_back_to_base() {
    let cs = CurveSettings { min: 0, max: 230_000, fit: CurveFit::AlwaysFit(0, 0) };
    assert_eq!(cs.window(21_000, 21_000), (0, 230_000));
}

#[test]
fn padded_bounds_only_grow_outward() {
    let cs = CurveSettings { min: 0, max: 230_000, fit: CurveFit::Padding(1_000, 2_000) };
    // inside the base bounds: unchanged
    assert_eq!(cs.window(10_000, 20_000), (0, 230_000));
    // beyond them: pushed out by at least the padding
    let first = cs.window(-5_000, 231_000);
    assert_eq!(first, (-6_000, 233_000));
    // wider extrema never shrink either bound
    let second = cs.window(-7_000, 240_000);
    assert_eq!(second, (-8_000, 242_000));
    assert!(second.0 <= first.0 && first.1 <= second.1);
}

#[test]
fn extrema_of_series() {
    let empty: Vec<TempData> = Vec::new();
    assert_eq!(extrema(&empty), (0, 0));
    let one = vec![TempData { temp: 21_000, time: 5 }];
    assert_eq!(extrema(&one), (21_000, 21_000));
    let many = vec![
        TempData { temp: 21_000, time: 5 },
        TempData { temp: 18_000, time: 6 },
        TempData { temp: 24_000, time: 7 },
    ];
    assert_eq!(extrema(&many), (18_000, 24_000));
}

#[test]
fn degenerate_series_uses_base_bounds() {
    let cs = CurveSettings { min: 0, max: 230_000, fit: CurveFit::AlwaysFit(2_000, 2_000) };
    let empty: Vec<TempData> = Vec::new();
    assert_eq!(value_window(&cs, &empty), (0, 230_000));
    let one = vec![TempData { temp: 21_000, time: 5 }];
    assert_eq!(value_window(&cs, &one), (0, 230_000));
    let two = vec![
        TempData { temp: 18_000, time: 5 },
        TempData { temp: 24_000, time: 6 },
    ];
    assert_eq!(value_window(&cs, &two), (16_000, 26_000));
}
