//! Curve windowing and coordinate fitting.
//!
//! A curve is an ordered series of readings. For drawing, the series'
//! value extrema are resolved through a scaling policy into a window
//! `(lo, hi)` with `lo < hi`, and each reading is fitted linearly into a
//! pixel size. All arithmetic is on integers (millidegrees, milliseconds,
//! pixels), so the fit is exact up to the one flooring division.
use vstd::prelude::*;

verus! {

/// Largest magnitude accepted for a raw value or instant fed to the fit:
/// keeps every intermediate pixel product inside `i64`.
pub const COORD_LIMIT: i64 = 1_000_000_000_000;

/// Largest pixel size accepted by the fit, same purpose.
pub const SIZE_LIMIT: i64 = 1_000_000;

/// How plot bounds follow the observed extrema of a series.
#[derive(Clone, Copy, Debug, PartialEq, Eq, Structural)]
pub enum CurveFit {
    /// Bounds never change: always the configured base bounds.
    Normal,
    /// Bounds only ever grow outward, keeping at least the given padding
    /// beyond the observed extrema.
    Padding(i64, i64),
    /// Bounds track the current extrema plus padding exactly; they may
    /// shrink again.
    AlwaysFit(i64, i64),
}

/// A curve's base bounds and scaling policy.
#[derive(Clone, Copy, Debug, PartialEq, Eq, Structural)]
pub struct CurveSettings {
    pub min: i64,
    pub max: i64,
    pub fit: CurveFit,
}

/// Settings the library accepts: ordered base bounds and non-negative
/// padding, all within [`COORD_LIMIT`].
pub open spec fn settings_wf(cs: CurveSettings) -> bool {
    &&& -COORD_LIMIT <= cs.min < cs.max <= COORD_LIMIT
    &&& match cs.fit {
        CurveFit::Normal => true,
        CurveFit::Padding(pl, pr) => 0 <= pl <= COORD_LIMIT && 0 <= pr <= COORD_LIMIT,
        CurveFit::AlwaysFit(pl, pr) => 0 <= pl <= COORD_LIMIT && 0 <= pr <= COORD_LIMIT,
    }
}

/// Lower bound a policy yields from observed extrema, before the
/// degeneracy fallback.
pub open spec fn raw_window_lo(cs: CurveSettings, vmin: int, vmax: int) -> int {
    match cs.fit {
        CurveFit::Normal => cs.min as int,
        CurveFit::Padding(pl, _) => if cs.min <= vmin - pl {
            cs.min as int
        } else {
            vmin - pl
        },
        CurveFit::AlwaysFit(pl, _) => vmin - pl,
    }
}

/// Upper bound a policy yields from observed extrema, before the
/// degeneracy fallback.
pub open spec fn raw_window_hi(cs: CurveSettings, vmin: int, vmax: int) -> int {
    match cs.fit {
        CurveFit::Normal => cs.max as int,
        CurveFit::Padding(_, pr) => if cs.max >= vmax + pr {
            cs.max as int
        } else {
            vmax + pr
        },
        CurveFit::AlwaysFit(_, pr) => vmax + pr,
    }
}

/// Whether the policy's own result is usable; where it collapses (an
/// `AlwaysFit` with zero padding on a constant series), the base bounds
/// stand in so that the window invariant `lo < hi` always holds.
pub open spec fn window_degenerate(cs: CurveSettings, vmin: int, vmax: int) -> bool {
    raw_window_hi(cs, vmin, vmax) <= raw_window_lo(cs, vmin, vmax)
}

/// Lower plot bound resolved from observed extrema.
pub open spec fn window_lo(cs: CurveSettings, vmin: int, vmax: int) -> int {
    if window_degenerate(cs, vmin, vmax) {
        cs.min as int
    } else {
        raw_window_lo(cs, vmin, vmax)
    }
}

/// Upper plot bound resolved from observed extrema.
pub open spec fn window_hi(cs: CurveSettings, vmin: int, vmax: int) -> int {
    if window_degenerate(cs, vmin, vmax) {
        cs.max as int
    } else {
        raw_window_hi(cs, vmin, vmax)
    }
}

impl CurveSettings {
    /// Resolves the plot bounds for the observed extrema `(vmin, vmax)`.
    ///
    /// The result is always a proper window: `lo < hi`, within twice
    /// [`COORD_LIMIT`] in magnitude.
    pub fn window(&self, vmin: i64, vmax: i64) -> (w: (i64, i64))
        requires
            settings_wf(*self),
            -COORD_LIMIT <= vmin <= vmax <= COORD_LIMIT,
        ensures
            w.0 as int == window_lo(*self, vmin as int, vmax as int),
            w.1 as int == window_hi(*self, vmin as int, vmax as int),
            -2 * COORD_LIMIT <= w.0 < w.1 <= 2 * COORD_LIMIT,
    {
        match self.fit {
            CurveFit::Normal => (self.min, self.max),
            CurveFit::Padding(pl, pr) => {
                let lo = if self.min <= vmin - pl {
                    self.min
                } else {
                    vmin - pl
                };
                let hi = if self.max >= vmax + pr {
                    self.max
                } else {
                    vmax + pr
                };
                (lo, hi)
            },
            CurveFit::AlwaysFit(pl, pr) => {
                let lo = vmin - pl;
                let hi = vmax + pr;
                if lo < hi {
                    (lo, hi)
                } else {
                    (self.min, self.max)
                }
            },
        }
    }
}

/// Where a reading with value `v` lands when the window `[lo, hi]` is
/// fitted linearly onto `size` pixels: `(v - lo) / (hi - lo) * size`,
/// floored. A collapsed window maps everything to `0`.
pub open spec fn fit_spec(lo: int, hi: int, v: int, size: int) -> int {
    if hi <= lo {
        0
    } else {
        ((v - lo) * size) / (hi - lo)
    }
}

/// The same fit with the axis flipped: the plot origin is top-left, so
/// larger values land nearer to `0`.
pub open spec fn fit_flip_spec(lo: int, hi: int, v: int, size: int) -> int {
    size - fit_spec(lo, hi, v, size)
}

/// Inverse of [`fit_spec`]: the value whose pixel would be `p`, floored.
pub open spec fn unfit_spec(lo: int, hi: int, p: int, size: int) -> int {
    if size <= 0 {
        lo
    } else {
        lo + (p * (hi - lo)) / size
    }
}

/// Flooring division of a negated non-negative numerator, in terms of a
/// ceiling on the positive side.
proof fn lemma_neg_div(a: int, d: int)
    requires
        0 <= a,
        0 < d,
    ensures
        (-a) / d == -((a + d - 1) / d),
{
    vstd::arithmetic::div_mod::lemma_fundamental_div_mod(a, d);
    vstd::arithmetic::div_mod::lemma_mod_bound(a, d);
    let q = a / d;
    let r = a % d;
    if r == 0 {
        assert(-a == (-q) * d + 0) by (nonlinear_arith)
            requires
                a == d * q + r,
                r == 0,
        ;
        vstd::arithmetic::div_mod::lemma_fundamental_div_mod_converse(-a, d, -q, 0);
        assert(a + d - 1 == q * d + (d - 1)) by (nonlinear_arith)
            requires
                a == d * q + r,
                r == 0,
        ;
        vstd::arithmetic::div_mod::lemma_fundamental_div_mod_converse(a + d - 1, d, q, d - 1);
    } else {
        assert(-a == (-q - 1) * d + (d - r)) by (nonlinear_arith)
            requires
                a == d * q + r,
        ;
        vstd::arithmetic::div_mod::lemma_fundamental_div_mod_converse(-a, d, -q - 1, d - r);
        assert(a + d - 1 == (q + 1) * d + (r - 1)) by (nonlinear_arith)
            requires
                a == d * q + r,
        ;
        vstd::arithmetic::div_mod::lemma_fundamental_div_mod_converse(a + d - 1, d, q + 1, r - 1);
    }
}

/// Maps value `v` into `size` pixels under the window `(lo, hi)`,
/// exactly as [`fit_spec`] states. Values outside the window land outside
/// `[0, size]`; the host's canvas clips them.
pub fn fit(lo: i64, hi: i64, v: i64, size: i64) -> (r: i64)
    requires
        -2 * COORD_LIMIT <= lo <= 2 * COORD_LIMIT,
        -2 * COORD_LIMIT <= hi <= 2 * COORD_LIMIT,
        -2 * COORD_LIMIT <= v <= 2 * COORD_LIMIT,
        0 <= size <= SIZE_LIMIT,
    ensures
        r as int == fit_spec(lo as int, hi as int, v as int, size as int),
        -4 * (COORD_LIMIT as int) * (SIZE_LIMIT as int + 1) <= r as int
            <= 4 * (COORD_LIMIT as int) * (SIZE_LIMIT as int + 1),
{
    if hi <= lo {
        return 0;
    }
    let d = (hi - lo) as u64;
    let s = size as u64;
    if v >= lo {
        let num = (v - lo) as u64;
        proof {
            vstd::arithmetic::mul::lemma_mul_upper_bound(
                num as int,
                4 * COORD_LIMIT as int,
                s as int,
                SIZE_LIMIT as int,
            );
            vstd::arithmetic::div_mod::lemma_div_nonincreasing(
                (num * s) as int,
                d as int,
            );
            vstd::arithmetic::div_mod::lemma_div_pos_is_pos(
                (num * s) as int,
                d as int,
            );
        }
        let q = (num * s) / d;
        q as i64
    } else {
        let num = (lo - v) as u64;
        proof {
            vstd::arithmetic::mul::lemma_mul_upper_bound(
                num as int,
                4 * COORD_LIMIT as int,
                s as int,
                SIZE_LIMIT as int,
            );
            vstd::arithmetic::div_mod::lemma_div_nonincreasing(
                (num * s + d - 1) as int,
                d as int,
            );
            vstd::arithmetic::div_mod::lemma_div_pos_is_pos(
                (num * s + d - 1) as int,
                d as int,
            );
        }
        let q = (num * s + (d - 1)) / d;
        proof {
            lemma_neg_div(num as int * s as int, d as int);
            assert((v - lo) * size == -(num as int * s as int)) by (nonlinear_arith)
                requires
                    num as int == -((v - lo) as int),
                    s == size,
            ;
        }
        -(q as i64)
    }
}

/// Maps value `v` into `size` pixels with the axis flipped, exactly as
/// [`fit_flip_spec`] states.
pub fn fit_flip(lo: i64, hi: i64, v: i64, size: i64) -> (r: i64)
    requires
        -2 * COORD_LIMIT <= lo <= 2 * COORD_LIMIT,
        -2 * COORD_LIMIT <= hi <= 2 * COORD_LIMIT,
        -2 * COORD_LIMIT <= v <= 2 * COORD_LIMIT,
        0 <= size <= SIZE_LIMIT,
    ensures
        r as int == fit_flip_spec(lo as int, hi as int, v as int, size as int),
{
    let f = fit(lo, hi, v, size);
    size - f
}

/// Recovers from pixel `p` the value that [`fit`] mapped there, exactly
/// as [`unfit_spec`] states.
pub fn unfit(lo: i64, hi: i64, p: i64, size: i64) -> (r: i64)
    requires
        -2 * COORD_LIMIT <= lo <= 2 * COORD_LIMIT,
        -2 * COORD_LIMIT <= hi <= 2 * COORD_LIMIT,
        lo < hi,
        -SIZE_LIMIT <= p <= SIZE_LIMIT,
        0 < size <= SIZE_LIMIT,
    ensures
        r as int == unfit_spec(lo as int, hi as int, p as int, size as int),
{
    let d = (hi - lo) as u64;
    let s = size as u64;
    if p >= 0 {
        let m = p as u64;
        proof {
            vstd::arithmetic::mul::lemma_mul_upper_bound(
                m as int,
                SIZE_LIMIT as int,
                d as int,
                4 * COORD_LIMIT as int,
            );
            vstd::arithmetic::div_mod::lemma_div_nonincreasing((m * d) as int, s as int);
            vstd::arithmetic::div_mod::lemma_div_pos_is_pos((m * d) as int, s as int);
        }
        let q = (m * d) / s;
        lo + (q as i64)
    } else {
        let m = (-p) as u64;
        proof {
            vstd::arithmetic::mul::lemma_mul_upper_bound(
                m as int,
                SIZE_LIMIT as int,
                d as int,
                4 * COORD_LIMIT as int,
            );
            vstd::arithmetic::div_mod::lemma_div_nonincreasing(
                (m * d + s - 1) as int,
                s as int,
            );
            vstd::arithmetic::div_mod::lemma_div_pos_is_pos(
                (m * d + s - 1) as int,
                s as int,
            );
        }
        let q = (m * d + (s - 1)) / s;
        proof {
            lemma_neg_div(m as int * d as int, s as int);
            assert(p as int * (hi - lo) == -(m as int * d as int)) by (nonlinear_arith)
                requires
                    m as int == -(p as int),
                    d as int == hi - lo,
            ;
        }
        lo - (q as i64)
    }
}

/// The fit is invertible up to rounding: a value mapped into pixels and
/// back with the same window returns to at most one pixel's worth of
/// window below the original, and never above it.
pub proof fn lemma_fit_round_trip(lo: int, hi: int, v: int, size: int)
    requires
        lo < hi,
        0 < size,
        lo <= v <= hi,
    ensures
        unfit_spec(lo, hi, fit_spec(lo, hi, v, size), size) <= v,
        (v - unfit_spec(lo, hi, fit_spec(lo, hi, v, size), size)) * size < (hi - lo) + size,
{
    let d = hi - lo;
    let a = v - lo;
    let s = size;
    let x = a * s;
    vstd::arithmetic::div_mod::lemma_fundamental_div_mod(x, d);
    vstd::arithmetic::div_mod::lemma_mod_bound(x, d);
    let p = x / d;
    let r1 = x % d;
    assert(fit_spec(lo, hi, v, size) == p);
    assert(p * d == x - r1) by (nonlinear_arith)
        requires
            x == d * p + r1,
    ;
    vstd::arithmetic::div_mod::lemma_hoist_over_denominator(-r1, a, s as nat);
    assert(-r1 + a * s == p * d);
    assert((p * d) / s == (-r1) / s + a);
    lemma_neg_div(r1, s);
    let c = (r1 + s - 1) / s;
    assert((p * d) / s == a - c);
    assert(unfit_spec(lo, hi, p, size) == lo + (p * d) / s);
    assert(v - unfit_spec(lo, hi, p, size) == c);
    vstd::arithmetic::div_mod::lemma_div_pos_is_pos(r1 + s - 1, s);
    vstd::arithmetic::div_mod::lemma_fundamental_div_mod(r1 + s - 1, s);
    vstd::arithmetic::div_mod::lemma_mod_bound(r1 + s - 1, s);
    assert(c * s < d + s) by (nonlinear_arith)
        requires
            r1 + s - 1 == s * c + ((r1 + s - 1) % s),
            (r1 + s - 1) % s >= 0,
            r1 < d,
    ;
}

/// The flipped (plot-vertical) leg of the same law: a value mapped with
/// [`fit_flip_spec`] is recovered by un-flipping the pixel first.
pub proof fn lemma_fit_flip_round_trip(lo: int, hi: int, v: int, size: int)
    requires
        lo < hi,
        0 < size,
        lo <= v <= hi,
    ensures
        unfit_spec(lo, hi, size - fit_flip_spec(lo, hi, v, size), size) <= v,
        (v - unfit_spec(lo, hi, size - fit_flip_spec(lo, hi, v, size), size)) * size < (hi - lo)
            + size,
{
    assert(size - fit_flip_spec(lo, hi, v, size) == fit_spec(lo, hi, v, size));
    lemma_fit_round_trip(lo, hi, v, size);
}

/// A value inside the window lands inside `[0, size]`.
pub proof fn lemma_fit_in_window(lo: int, hi: int, v: int, size: int)
    requires
        lo < hi,
        0 <= size,
        lo <= v <= hi,
    ensures
        0 <= fit_spec(lo, hi, v, size) <= size,
        0 <= fit_flip_spec(lo, hi, v, size) <= size,
{
    let d = hi - lo;
    let a = v - lo;
    let x = a * size;
    vstd::arithmetic::mul::lemma_mul_nonnegative(a, size);
    vstd::arithmetic::div_mod::lemma_div_pos_is_pos(x, d);
    vstd::arithmetic::mul::lemma_mul_inequality(a, d, size);
    vstd::arithmetic::mul::lemma_mul_is_commutative(a, size);
    vstd::arithmetic::mul::lemma_mul_is_commutative(d, size);
    vstd::arithmetic::div_mod::lemma_div_is_ordered(x, d * size, d);
    vstd::arithmetic::div_mod::lemma_div_multiples_vanish(size, d);
}

/// The temperatures of a series of readings, in order.
pub open spec fn temps_of(points: Seq<crate::sensor::TempData>) -> Seq<i64> {
    points.map_values(|td: crate::sensor::TempData| td.temp)
}

/// Smallest value in a series; `0` for an empty series, the safe default
/// extremum.
pub open spec fn seq_min(s: Seq<i64>) -> int
    decreases s.len(),
{
    if s.len() == 0 {
        0
    } else if s.len() == 1 {
        s[0] as int
    } else {
        let m = seq_min(s.drop_last());
        if (s.last() as int) < m {
            s.last() as int
        } else {
            m
        }
    }
}

/// Largest value in a series; `0` for an empty series.
pub open spec fn seq_max(s: Seq<i64>) -> int
    decreases s.len(),
{
    if s.len() == 0 {
        0
    } else if s.len() == 1 {
        s[0] as int
    } else {
        let m = seq_max(s.drop_last());
        if (s.last() as int) > m {
            s.last() as int
        } else {
            m
        }
    }
}

/// The extrema of a non-empty series are among its values and ordered.
pub proof fn lemma_extrema_order(s: Seq<i64>)
    requires
        s.len() >= 1,
    ensures
        seq_min(s) <= seq_max(s),
        exists|i: int| 0 <= i < s.len() && s[i] == seq_min(s),
        exists|i: int| 0 <= i < s.len() && s[i] == seq_max(s),
    decreases s.len(),
{
    if s.len() == 1 {
        assert(s[0] == seq_min(s));
        assert(s[0] == seq_max(s));
    } else {
        lemma_extrema_order(s.drop_last());
        assert(s.drop_last().len() == s.len() - 1);
        assert(forall|i: int|
            0 <= i < s.len() - 1 ==> s.drop_last()[i] == s[i]);
        assert(s.last() == s[s.len() - 1]);
    }
}

/// The value extrema of a channel's own readings, `(min, max)`;
/// `(0, 0)` for an empty series.
pub fn extrema(points: &Vec<crate::sensor::TempData>) -> (r: (i64, i64))
    ensures
        r.0 as int == seq_min(temps_of(points@)),
        r.1 as int == seq_max(temps_of(points@)),
{
    let ghost temps = temps_of(points@);
    if points.len() == 0 {
        return (0, 0);
    }
    let mut mn = points[0].temp;
    let mut mx = points[0].temp;
    let mut i: usize = 1;
    while i < points.len()
        invariant
            1 <= i <= points@.len(),
            temps == temps_of(points@),
            temps.len() == points@.len(),
            mn as int == seq_min(temps.take(i as int)),
            mx as int == seq_max(temps.take(i as int)),
        decreases points@.len() - i,
    {
        proof {
            assert(temps.take(i + 1).drop_last() =~= temps.take(i as int));
            assert(temps.take(i + 1).last() == temps[i as int]);
            assert(temps[i as int] == points@[i as int].temp);
        }
        let t = points[i].temp;
        if t < mn {
            mn = t;
        }
        if t > mx {
            mx = t;
        }
        i = i + 1;
    }
    proof {
        assert(temps.take(points@.len() as int) =~= temps);
    }
    (mn, mx)
}

/// Lower plot bound for a series of temperatures: a degenerate series
/// (one sample or none) falls back to the policy's base bounds.
pub open spec fn value_window_lo(cs: CurveSettings, temps: Seq<i64>) -> int {
    if temps.len() <= 1 {
        cs.min as int
    } else {
        window_lo(cs, seq_min(temps), seq_max(temps))
    }
}

/// Upper plot bound for a series of temperatures, as [`value_window_lo`].
pub open spec fn value_window_hi(cs: CurveSettings, temps: Seq<i64>) -> int {
    if temps.len() <= 1 {
        cs.max as int
    } else {
        window_hi(cs, seq_min(temps), seq_max(temps))
    }
}

/// `Padding` bounds are monotonic: as the observed extrema widen, the
/// lower bound never rises and the upper bound never falls.
pub proof fn lemma_padding_monotonic(
    cs: CurveSettings,
    vmin1: int,
    vmax1: int,
    vmin2: int,
    vmax2: int,
)
    requires
        settings_wf(cs),
        cs.fit is Padding,
        vmin2 <= vmin1,
        vmax1 <= vmax2,
    ensures
        window_lo(cs, vmin2, vmax2) <= window_lo(cs, vmin1, vmax1),
        window_hi(cs, vmin1, vmax1) <= window_hi(cs, vmin2, vmax2),
{
}

/// `AlwaysFit` bounds track the current extrema plus padding exactly,
/// whatever came before (away from the degenerate fallback).
pub proof fn lemma_always_fit_tracks(cs: CurveSettings, vmin: int, vmax: int)
    requires
        settings_wf(cs),
        cs.fit is AlwaysFit,
        vmin - cs.fit->AlwaysFit_0 < vmax + cs.fit->AlwaysFit_1,
    ensures
        window_lo(cs, vmin, vmax) == vmin - cs.fit->AlwaysFit_0,
        window_hi(cs, vmin, vmax) == vmax + cs.fit->AlwaysFit_1,
{
}

/// Appending a reading to a series never shrinks `Padding` plot bounds:
/// the window of the longer series contains the window of the shorter,
/// across the degenerate fallback too.
pub proof fn lemma_padding_window_grows(cs: CurveSettings, temps: Seq<i64>, v: i64)
    requires
        settings_wf(cs),
        cs.fit is Padding,
    ensures
        value_window_lo(cs, temps.push(v)) <= value_window_lo(cs, temps),
        value_window_hi(cs, temps) <= value_window_hi(cs, temps.push(v)),
    decreases temps.len(),
{
    let longer = temps.push(v);
    assert(longer.drop_last() =~= temps);
    assert(longer.last() == v);
    if temps.len() == 0 {
    } else if temps.len() == 1 {
        assert(seq_min(temps) == temps[0] as int);
        assert(seq_max(temps) == temps[0] as int);
        assert(seq_min(longer) <= temps[0] as int);
        assert(seq_max(longer) >= temps[0] as int);
    } else {
        assert(seq_min(longer) <= seq_min(temps));
        assert(seq_max(longer) >= seq_max(temps));
        lemma_padding_monotonic(
            cs,
            seq_min(temps),
            seq_max(temps),
            seq_min(longer),
            seq_max(longer),
        );
    }
}

/// Resolves the plot bounds for a channel's series of readings.
pub fn value_window(cs: &CurveSettings, points: &Vec<crate::sensor::TempData>) -> (w: (
    i64,
    i64,
))
    requires
        settings_wf(*cs),
        forall|i: int|
            0 <= i < points@.len() ==> -COORD_LIMIT <= #[trigger] points@[i].temp
                <= COORD_LIMIT,
    ensures
        w.0 as int == value_window_lo(*cs, temps_of(points@)),
        w.1 as int == value_window_hi(*cs, temps_of(points@)),
        -2 * COORD_LIMIT <= w.0 < w.1 <= 2 * COORD_LIMIT,
{
    let ghost temps = temps_of(points@);
    if points.len() <= 1 {
        (cs.min, cs.max)
    } else {
        let (mn, mx) = extrema(points);
        proof {
            lemma_extrema_order(temps);
            let wi = choose|i: int| 0 <= i < temps.len() && temps[i] == seq_min(temps);
            assert(points@[wi].temp == temps[wi]);
            let wj = choose|i: int| 0 <= i < temps.len() && temps[i] == seq_max(temps);
            assert(points@[wj].temp == temps[wj]);
        }
        cs.window(mn, mx)
    }
}

} // verus!
