//! One bounded recording session aggregating readings across channels.
//!
//! A roast captures its start instant, keeps one ordered series of
//! readings per channel, and tracks the instant of the most recently
//! accepted reading anywhere. A reading whose timestamp does not exceed
//! its series' last accepted timestamp is dropped silently, so every
//! series is strictly increasing in time. Nothing survives the end of the
//! session.
use vstd::prelude::*;

use crate::curve::COORD_LIMIT;
use crate::curve::CurveSettings;
use crate::curve::SIZE_LIMIT;
use crate::curve::fit;
use crate::curve::fit_flip;
use crate::curve::fit_spec;
use crate::curve::fit_flip_spec;
use crate::curve::settings_wf;
use crate::curve::temps_of;
use crate::curve::value_window;
use crate::curve::value_window_hi;
use crate::curve::value_window_lo;
use crate::curve::window_hi;
use crate::curve::window_lo;
use crate::roasting::Rgb;
use crate::roasting::TempSensor;
use crate::sensor::TempData;

verus! {

/// A reading the plot pipeline can hold: value and instant within
/// [`COORD_LIMIT`], the instant non-negative.
pub open spec fn td_bounded(td: TempData) -> bool {
    &&& -COORD_LIMIT <= td.temp <= COORD_LIMIT
    &&& 0 <= td.time <= COORD_LIMIT
}

/// A well-formed series: bounded readings, strictly increasing in time.
pub open spec fn series_wf(points: Seq<TempData>) -> bool {
    &&& forall|i: int| 0 <= i < points.len() ==> td_bounded(#[trigger] points[i])
    &&& forall|i: int|
        0 <= i < points.len() - 1 ==> (#[trigger] points[i].time) < points[i + 1].time
}

/// One channel's curve within a roast: where the readings came from, how
/// they are drawn, and the readings accepted so far.
#[derive(Clone, Debug)]
pub struct RoastCurve {
    pub source_id: usize,
    pub color: Rgb,
    pub settings: CurveSettings,
    pub points: Vec<TempData>,
}

/// One recording session.
#[derive(Clone, Debug)]
pub struct Roast {
    /// Instant the session began; immutable for its lifetime.
    pub start_time: i64,
    /// Instant of the most recently accepted reading across all
    /// channels; never decreases.
    pub last_time: i64,
    pub curves: Vec<RoastCurve>,
    /// Scaling policy of the shared time axis.
    pub settings: CurveSettings,
}

/// The session invariant: ordered instants, well-formed settings, and
/// every series well-formed with no reading after `last_time`.
pub open spec fn roast_wf(r: Roast) -> bool {
    &&& 0 <= r.start_time <= r.last_time <= COORD_LIMIT
    &&& settings_wf(r.settings)
    &&& forall|c: int|
        0 <= c < r.curves.len() ==> settings_wf((#[trigger] r.curves[c]).settings)
    &&& forall|c: int| 0 <= c < r.curves.len() ==> series_wf((#[trigger] r.curves[c]).points@)
    &&& forall|c: int, i: int|
        0 <= c < r.curves.len() && 0 <= i < r.curves[c].points.len()
            ==> (#[trigger] r.curves[c].points[i]).time <= r.last_time
}

/// Whether a reading at instant `t` is accepted into channel `id`'s
/// series: always for an empty series, otherwise only past the last
/// accepted timestamp.
pub open spec fn accepts(r: Roast, id: int, t: int) -> bool {
    r.curves[id].points.len() == 0 || t > r.curves[id].points@.last().time
}

/// How a session changes when a reading is offered to channel `id`: the
/// reading is appended to that series alone and `last_time` advances if
/// the reading is later, or — when the reading is not strictly after the
/// series' last accepted timestamp — nothing changes at all.
pub open spec fn accept_post(o: Roast, n: Roast, id: int, td: TempData) -> bool {
    if accepts(o, id, td.time as int) {
        &&& n.start_time == o.start_time
        &&& n.settings == o.settings
        &&& n.curves@.len() == o.curves@.len()
        &&& n.curves@[id].points@ == o.curves@[id].points@.push(td)
        &&& n.curves@[id].source_id == o.curves@[id].source_id
        &&& n.curves@[id].color == o.curves@[id].color
        &&& n.curves@[id].settings == o.curves@[id].settings
        &&& forall|j: int| 0 <= j < o.curves@.len() && j != id ==> n.curves@[j] == o.curves@[j]
        &&& n.last_time == if td.time > o.last_time {
            td.time
        } else {
            o.last_time
        }
    } else {
        n == o
    }
}

impl RoastCurve {
    /// An empty curve for one channel, carrying the channel's color and
    /// scaling policy.
    pub fn new(id: usize, color: Rgb, curve_settings: CurveSettings) -> (r: Self)
        ensures
            r.source_id == id,
            r.color == color,
            r.settings == curve_settings,
            r.points@.len() == 0,
    {
        Self { source_id: id, color, settings: curve_settings, points: Vec::new() }
    }
}

impl Roast {
    /// Begins a session over the given channels at instant `now`: one
    /// empty curve per channel in channel order, and both session
    /// instants at `now`.
    pub fn new(sensors: &Vec<TempSensor>, settings: CurveSettings, now: i64) -> (r: Self)
        requires
            settings_wf(settings),
            0 <= now <= COORD_LIMIT,
            forall|i: int|
                0 <= i < sensors@.len() ==> settings_wf(
                    (#[trigger] sensors@[i]).curve_settings,
                ),
        ensures
            r.start_time == now,
            r.last_time == now,
            r.settings == settings,
            r.curves@.len() == sensors@.len(),
            forall|i: int|
                0 <= i < sensors@.len() ==> {
                    let c = #[trigger] r.curves@[i];
                    &&& c.source_id == sensors@[i].id
                    &&& c.color == sensors@[i].color
                    &&& c.settings == sensors@[i].curve_settings
                    &&& c.points@.len() == 0
                },
            roast_wf(r),
    {
        let mut curves: Vec<RoastCurve> = Vec::new();
        let mut i: usize = 0;
        while i < sensors.len()
            invariant
                0 <= i <= sensors@.len(),
                curves@.len() == i,
                forall|j: int|
                    0 <= j < i ==> {
                        let c = #[trigger] curves@[j];
                        &&& c.source_id == sensors@[j].id
                        &&& c.color == sensors@[j].color
                        &&& c.settings == sensors@[j].curve_settings
                        &&& c.points@.len() == 0
                    },
            decreases sensors@.len() - i,
        {
            curves.push(
                RoastCurve::new(sensors[i].id, sensors[i].color, sensors[i].curve_settings),
            );
            i = i + 1;
        }
        Self { start_time: now, last_time: now, curves, settings }
    }

    /// Offers a reading for channel `id`. An out-of-order or duplicate
    /// reading — one not strictly after the series' last accepted
    /// timestamp — is dropped silently and nothing changes; an accepted
    /// reading is appended to its series and advances `last_time` to its
    /// instant if that is later.
    pub fn accept(&mut self, id: usize, td: TempData) -> (accepted: bool)
        requires
            id < old(self).curves@.len(),
            roast_wf(*old(self)),
            td_bounded(td),
        ensures
            roast_wf(*final(self)),
            accepted == accepts(*old(self), id as int, td.time as int),
            accept_post(*old(self), *final(self), id as int, td),
    {
        let n = self.curves[id].points.len();
        let ok = if n == 0 {
            true
        } else {
            td.time > self.curves[id].points[n - 1].time
        };
        if ok {
            self.curves[id].points.push(td);
            if td.time > self.last_time {
                self.last_time = td.time;
            }
            proof {
                let idi = id as int;
                let oldpts = old(self).curves@[idi].points@;
                let newpts = self.curves@[idi].points@;
                assert(newpts == oldpts.push(td));
                assert forall|i: int| 0 <= i < newpts.len() implies td_bounded(
                    #[trigger] newpts[i],
                ) by {
                    if i < oldpts.len() {
                        assert(newpts[i] == oldpts[i]);
                    } else {
                        assert(newpts[i] == td);
                    }
                }
                assert forall|i: int|
                    0 <= i < newpts.len() - 1 implies (#[trigger] newpts[i].time) < newpts[
                    i + 1
                ].time by {
                    if i < oldpts.len() - 1 {
                        assert(newpts[i] == oldpts[i]);
                        assert(newpts[i + 1] == oldpts[i + 1]);
                    } else {
                        assert(newpts[i] == oldpts.last());
                        assert(newpts[i + 1] == td);
                    }
                }
                assert forall|c: int, i: int|
                    0 <= c < self.curves@.len() && 0 <= i < self.curves@[c].points.len()
                    implies (#[trigger] self.curves@[c].points[i]).time
                    <= self.last_time by {
                    if c == idi {
                        if i < oldpts.len() {
                            assert(self.curves@[c].points[i] == oldpts[i]);
                        } else {
                            assert(self.curves@[c].points[i] == td);
                        }
                    } else {
                        assert(self.curves@[c] == old(self).curves@[c]);
                    }
                }
            }
            true
        } else {
            false
        }
    }

    /// The fitted plot path of channel `id`'s curve for the current
    /// session window, recomputed from scratch.
    pub fn curve_path(&self, id: usize, width: i64, height: i64) -> (path: Vec<(i64, i64)>)
        requires
            id < self.curves@.len(),
            roast_wf(*self),
            0 <= width <= SIZE_LIMIT,
            0 <= height <= SIZE_LIMIT,
        ensures
            path@.len() == self.curves@[id as int].points@.len(),
            forall|i: int|
                0 <= i < path@.len() ==> #[trigger] path@[i] == curve_point(
                    self.settings,
                    self.curves@[id as int],
                    self.start_time as int,
                    self.last_time as int,
                    width as int,
                    height as int,
                    i,
                ),
    {
        self.curves[id].path(self.start_time, self.last_time, &self.settings, width, height)
    }
}

/// Pixel x of an instant `t` under the session's time axis: the time
/// window is the policy applied to the elapsed-time extrema
/// `(0, last - start)`, and `t` is fitted relative to `start`.
pub open spec fn path_x(
    ts: CurveSettings,
    start: int,
    last: int,
    t: int,
    width: int,
) -> int {
    fit_spec(
        window_lo(ts, 0, last - start),
        window_hi(ts, 0, last - start),
        t - start,
        width,
    )
}

/// Pixel y of a value `v` under a channel's value bounds for the series
/// `temps`, flipped because the plot origin is top-left.
pub open spec fn path_y(cs: CurveSettings, temps: Seq<i64>, v: int, height: int) -> int {
    fit_flip_spec(value_window_lo(cs, temps), value_window_hi(cs, temps), v, height)
}

/// The fitted pixel pair of reading `i` of a curve.
pub open spec fn curve_point(
    ts: CurveSettings,
    c: RoastCurve,
    start: int,
    last: int,
    width: int,
    height: int,
    i: int,
) -> (i64, i64) {
    (
        path_x(ts, start, last, c.points@[i].time as int, width) as i64,
        path_y(c.settings, temps_of(c.points@), c.points@[i].temp as int, height) as i64,
    )
}

impl RoastCurve {
    /// Fits every reading of this curve into a `width` by `height` plot:
    /// x from the shared time window `[start_time, last_time]` under
    /// `t_settings`, y from this curve's own value bounds. The host draws
    /// straight segments through the points in order.
    pub fn path(
        &self,
        start_time: i64,
        last_time: i64,
        t_settings: &CurveSettings,
        width: i64,
        height: i64,
    ) -> (path: Vec<(i64, i64)>)
        requires
            settings_wf(self.settings),
            settings_wf(*t_settings),
            series_wf(self.points@),
            0 <= start_time <= last_time <= COORD_LIMIT,
            0 <= width <= SIZE_LIMIT,
            0 <= height <= SIZE_LIMIT,
        ensures
            path@.len() == self.points@.len(),
            forall|i: int|
                0 <= i < path@.len() ==> #[trigger] path@[i] == curve_point(
                    *t_settings,
                    *self,
                    start_time as int,
                    last_time as int,
                    width as int,
                    height as int,
                    i,
                ),
    {
        let elapsed = last_time - start_time;
        let tw = t_settings.window(0, elapsed);
        let vw = value_window(&self.settings, &self.points);
        let mut path: Vec<(i64, i64)> = Vec::new();
        let mut i: usize = 0;
        while i < self.points.len()
            invariant
                0 <= i <= self.points@.len(),
                path@.len() == i,
                settings_wf(self.settings),
                settings_wf(*t_settings),
                series_wf(self.points@),
                0 <= start_time <= last_time <= COORD_LIMIT,
                0 <= width <= SIZE_LIMIT,
                0 <= height <= SIZE_LIMIT,
                tw.0 as int == window_lo(*t_settings, 0, last_time - start_time),
                tw.1 as int == window_hi(*t_settings, 0, last_time - start_time),
                -2 * COORD_LIMIT <= tw.0 < tw.1 <= 2 * COORD_LIMIT,
                vw.0 as int == value_window_lo(self.settings, temps_of(self.points@)),
                vw.1 as int == value_window_hi(self.settings, temps_of(self.points@)),
                -2 * COORD_LIMIT <= vw.0 < vw.1 <= 2 * COORD_LIMIT,
                forall|j: int|
                    0 <= j < i ==> #[trigger] path@[j] == curve_point(
                        *t_settings,
                        *self,
                        start_time as int,
                        last_time as int,
                        width as int,
                        height as int,
                        j,
                    ),
            decreases self.points@.len() - i,
        {
            let td = self.points[i];
            let x = fit(tw.0, tw.1, td.time - start_time, width);
            let y = fit_flip(vw.0, vw.1, td.temp, height);
            path.push((x, y));
            i = i + 1;
        }
        path
    }
}

} // verus!
