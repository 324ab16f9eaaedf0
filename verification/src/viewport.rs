//! The visible time window of a chart: fit, zoom and pan.
//!
//! All positions are whole milliseconds on an axis that starts at 0.  A zoom
//! step moves both edges by the same whole number of milliseconds: towards
//! each other by 15% of the width, rounded down, which leaves 70% of the
//! range in view around the same midpoint, or apart by 3/14 of the width,
//! rounded up, which undoes it.

use vstd::prelude::*;

verus! {

/// Shortest extent that a window is fitted to: one second.
pub const MIN_TOTAL: i64 = 1000;

/// The zoom level, in millionths, of a window that shows the whole extent.
pub const ZOOM_FULL: i64 = 1_000_000;

/// The mathematical value of a [`ChartViewport`].
pub struct ViewportModel {
    /// Start of the visible window.
    pub time_start: int,
    /// End of the visible window.
    pub time_end: int,
    /// Extent of all the data.
    pub time_total: int,
    /// The visible share of the extent, in millionths.
    pub zoom: int,
}

/// The share that `width` is of `total`, in millionths, rounded down.
pub open spec fn zoom_of(width: int, total: int) -> int {
    width * ZOOM_FULL / total
}

/// The larger of two integers.
pub open spec fn max_int(a: int, b: int) -> int {
    if a >= b {
        a
    } else {
        b
    }
}

/// The smaller of two integers.
pub open spec fn min_int(a: int, b: int) -> int {
    if a <= b {
        a
    } else {
        b
    }
}

impl ViewportModel {
    /// Width of the visible window.
    pub open spec fn width(self) -> int {
        self.time_end - self.time_start
    }

    /// What holds of every viewport: the window is not empty, lies within
    /// the extent, and `zoom` is its share of the extent.
    pub open spec fn valid(self) -> bool {
        &&& 0 <= self.time_start < self.time_end <= self.time_total
        &&& MIN_TOTAL <= self.time_total <= i64::MAX
        &&& self.zoom == zoom_of(self.width(), self.time_total)
    }

    /// The window that shows a whole extent of `total`, or of `MIN_TOTAL`
    /// where `total` is shorter.
    pub open spec fn fit(total: int) -> ViewportModel {
        let extent = max_int(total, MIN_TOTAL as int);
        ViewportModel { time_start: 0, time_end: extent, time_total: extent, zoom: ZOOM_FULL as int }
    }

    /// The window with the edges `start` and `end` cut back to the extent,
    /// and `zoom` set to its share.
    pub open spec fn clamped(self, start: int, end: int) -> ViewportModel {
        let time_start = max_int(start, 0);
        let time_end = min_int(end, self.time_total);
        ViewportModel {
            time_start,
            time_end,
            time_total: self.time_total,
            zoom: zoom_of(time_end - time_start, self.time_total),
        }
    }

    /// By how much a zoom-in step moves each edge: 15% of the width.
    pub open spec fn inset(self) -> int {
        3 * self.width() / 20
    }

    /// By how much a zoom-out step moves each edge: 3/14 of the width,
    /// rounded up.
    pub open spec fn outset(self) -> int {
        (3 * self.width() + 13) / 14
    }

    /// One zoom-in step.
    pub open spec fn zoom_in(self) -> ViewportModel {
        self.clamped(self.time_start + self.inset(), self.time_end - self.inset())
    }

    /// Whether a window of `width` shows more than 99% of `total`.
    pub open spec fn nearly_all(width: int, total: int) -> bool {
        100 * width > 99 * total
    }

    /// One zoom-out step: the window grows, and is fitted to the extent
    /// once it shows more than 99% of it.
    pub open spec fn zoom_out(self) -> ViewportModel {
        let grown = self.clamped(self.time_start - self.outset(), self.time_end + self.outset());
        if Self::nearly_all(grown.width(), self.time_total) {
            Self::fit(self.time_total)
        } else {
            grown
        }
    }

    /// `n` zoom-out steps.
    pub open spec fn zoom_out_times(self, n: nat) -> ViewportModel
        decreases n,
    {
        if n == 0 {
            self
        } else {
            self.zoom_out().zoom_out_times((n - 1) as nat)
        }
    }

    /// By how much a pan step moves the window: 20% of the width, rounded
    /// down.
    pub open spec fn shift(self) -> int {
        self.width() / 5
    }

    /// One pan step towards earlier times.  The width is kept; at the left
    /// edge of the extent nothing moves.
    pub open spec fn pan_left(self) -> ViewportModel {
        if self.time_start > 0 {
            let time_start = max_int(self.time_start - self.shift(), 0);
            ViewportModel { time_start, time_end: time_start + self.width(), ..self }
        } else {
            self
        }
    }

    /// One pan step towards later times.  The width is kept; at the right
    /// edge of the extent nothing moves.
    pub open spec fn pan_right(self) -> ViewportModel {
        if self.time_end < self.time_total {
            let time_end = min_int(self.time_end + self.shift(), self.time_total);
            ViewportModel { time_start: time_end - self.width(), time_end, ..self }
        } else {
            self
        }
    }

    /// A fitted window is valid and shows everything.
    pub proof fn lemma_fit_valid(total: int)
        requires
            total <= i64::MAX,
        ensures
            Self::fit(total).valid(),
            Self::fit(total).time_start == 0,
            Self::fit(total).time_end == Self::fit(total).time_total,
    {
        let extent = max_int(total, MIN_TOTAL as int);
        assert(extent * ZOOM_FULL / extent == ZOOM_FULL) by (nonlinear_arith)
            requires
                extent > 0,
        ;
    }

    /// A zoom-in step keeps the midpoint where it was and the window inside
    /// the one before; no less than 70% of the width stays in view, and a
    /// window of 7 ms or more gets strictly narrower.
    pub proof fn lemma_zoom_in(self)
        requires
            self.valid(),
        ensures
            self.zoom_in().valid(),
            self.zoom_in().time_total == self.time_total,
            self.zoom_in().time_start + self.zoom_in().time_end == self.time_start + self.time_end,
            self.time_start <= self.zoom_in().time_start,
            self.zoom_in().time_end <= self.time_end,
            10 * self.zoom_in().width() >= 7 * self.width(),
            10 * self.zoom_in().width() < 7 * self.width() + 20,
            self.width() >= 7 ==> self.zoom_in().width() < self.width(),
    {
    }

    /// A zoom-out step keeps the window that was in view in view; the
    /// result is the fitted window or is strictly wider.
    pub proof fn lemma_zoom_out(self)
        requires
            self.valid(),
        ensures
            self.zoom_out().valid(),
            self.zoom_out().time_total == self.time_total,
            self.zoom_out().time_start <= self.time_start,
            self.time_end <= self.zoom_out().time_end,
            self.zoom_out() == Self::fit(self.time_total) || self.zoom_out().width() > self.width(),
    {
        Self::lemma_fit_valid(self.time_total);
    }

    /// Zooming out often enough ends in the fitted window, and stays there:
    /// one step for each millisecond that is out of view, and one more,
    /// are enough.
    pub proof fn lemma_zoom_out_reaches_fit(self, n: nat)
        requires
            self.valid(),
            n > self.time_total - self.width(),
        ensures
            self.zoom_out_times(n) == Self::fit(self.time_total),
        decreases n,
    {
        self.lemma_zoom_out();
        let next = self.zoom_out();
        if n > 1 {
            next.lemma_zoom_out_reaches_fit((n - 1) as nat);
        } else {
            assert(next.zoom_out_times(0) == next);
        }
    }

    /// A pan step keeps the width and the zoom, and moves the window by no
    /// more than 20% of its width.
    pub proof fn lemma_pan(self)
        requires
            self.valid(),
        ensures
            self.pan_left().valid(),
            self.pan_right().valid(),
            self.pan_left().width() == self.width(),
            self.pan_right().width() == self.width(),
            self.time_start - self.shift() <= self.pan_left().time_start <= self.time_start,
            self.time_end <= self.pan_right().time_end <= self.time_end + self.shift(),
            self.time_start == 0 ==> self.pan_left() == self,
            self.time_end == self.time_total ==> self.pan_right() == self,
    {
    }
}

/// The visible time window of a chart.
#[derive(Debug, Clone, Copy)]
pub struct ChartViewport {
    time_start: i64,
    time_end: i64,
    time_total: i64,
    zoom: i64,
}

impl View for ChartViewport {
    type V = ViewportModel;

    closed spec fn view(&self) -> ViewportModel {
        ViewportModel {
            time_start: self.time_start as int,
            time_end: self.time_end as int,
            time_total: self.time_total as int,
            zoom: self.zoom as int,
        }
    }
}

/// The share that `width` is of `total`, in millionths.
fn zoom_level(width: i64, total: i64) -> (zoom: i64)
    requires
        0 <= width <= total,
        0 < total,
    ensures
        zoom == zoom_of(width as int, total as int),
        0 <= zoom <= ZOOM_FULL,
{
    let scaled: i128 = (width as i128) * (ZOOM_FULL as i128);
    let share: i128 = scaled / (total as i128);
    assert(0 <= share <= ZOOM_FULL) by (nonlinear_arith)
        requires
            share == (width * ZOOM_FULL) / (total as int),
            0 <= width <= total,
            0 < total,
            ZOOM_FULL == 1_000_000,
    ;
    share as i64
}

impl ChartViewport {
    #[verifier::type_invariant]
    closed spec fn well_formed(&self) -> bool {
        self@.valid()
    }

    /// A window of one second, all of it in view.
    pub fn new() -> (viewport: ChartViewport)
        ensures
            viewport@ == ViewportModel::fit(MIN_TOTAL as int),
            viewport@.valid(),
    {
        proof {
            ViewportModel::lemma_fit_valid(MIN_TOTAL as int);
        }
        ChartViewport { time_start: 0, time_end: MIN_TOTAL, time_total: MIN_TOTAL, zoom: ZOOM_FULL }
    }

    /// Shows the whole of an extent of `total` milliseconds.
    pub fn fit_data(&mut self, total: i64)
        ensures
            final(self)@ == ViewportModel::fit(total as int),
            final(self)@.valid(),
    {
        proof {
            ViewportModel::lemma_fit_valid(total as int);
        }
        let extent: i64 = if total >= MIN_TOTAL {
            total
        } else {
            MIN_TOTAL
        };
        *self = ChartViewport { time_start: 0, time_end: extent, time_total: extent, zoom: ZOOM_FULL };
    }

    /// Shows less of the extent: 70% of the range in view, around the same
    /// midpoint.
    pub fn zoom_in(&mut self)
        ensures
            final(self)@ == old(self)@.zoom_in(),
            final(self)@.valid(),
    {
        proof {
            use_type_invariant(&*self);
            self@.lemma_zoom_in();
        }
        let width: i64 = self.time_end - self.time_start;
        let inset: i64 = ((3 * (width as i128)) / 20) as i64;
        let time_start: i64 = self.time_start + inset;
        let time_end: i64 = self.time_end - inset;
        let zoom: i64 = zoom_level(time_end - time_start, self.time_total);
        *self = ChartViewport { time_start, time_end, time_total: self.time_total, zoom };
    }

    /// Shows more of the extent, around the same midpoint as far as the
    /// extent allows, and all of it once more than 99% would be in view.
    pub fn zoom_out(&mut self)
        ensures
            final(self)@ == old(self)@.zoom_out(),
            final(self)@.valid(),
    {
        proof {
            use_type_invariant(&*self);
            self@.lemma_zoom_out();
        }
        let total: i64 = self.time_total;
        let width: i64 = self.time_end - self.time_start;
        let outset: i64 = ((3 * (width as i128) + 13) / 14) as i64;
        let time_start: i64 = if outset >= self.time_start {
            0
        } else {
            self.time_start - outset
        };
        let time_end: i64 = if outset >= total - self.time_end {
            total
        } else {
            self.time_end + outset
        };
        let grown: i64 = time_end - time_start;
        if 100 * (grown as i128) > 99 * (total as i128) {
            *self = ChartViewport { time_start: 0, time_end: total, time_total: total, zoom: ZOOM_FULL };
        } else {
            let zoom: i64 = zoom_level(grown, total);
            *self = ChartViewport { time_start, time_end, time_total: total, zoom };
        }
    }

    /// Moves the window towards earlier times by 20% of its width, as far
    /// as the extent allows.
    pub fn pan_left(&mut self)
        ensures
            final(self)@ == old(self)@.pan_left(),
            final(self)@.valid(),
            old(self)@.time_start == 0 ==> final(self)@ == old(self)@,
    {
        proof {
            use_type_invariant(&*self);
            self@.lemma_pan();
        }
        let width: i64 = self.time_end - self.time_start;
        let shift: i64 = width / 5;
        if self.time_start > 0 {
            let time_start: i64 = if shift >= self.time_start {
                0
            } else {
                self.time_start - shift
            };
            *self = ChartViewport {
                time_start,
                time_end: time_start + width,
                time_total: self.time_total,
                zoom: self.zoom,
            };
        }
    }

    /// Moves the window towards later times by 20% of its width, as far as
    /// the extent allows.
    pub fn pan_right(&mut self)
        ensures
            final(self)@ == old(self)@.pan_right(),
            final(self)@.valid(),
            old(self)@.time_end == old(self)@.time_total ==> final(self)@ == old(self)@,
    {
        proof {
            use_type_invariant(&*self);
            self@.lemma_pan();
        }
        let width: i64 = self.time_end - self.time_start;
        let shift: i64 = width / 5;
        if self.time_end < self.time_total {
            let time_end: i64 = if shift >= self.time_total - self.time_end {
                self.time_total
            } else {
                self.time_end + shift
            };
            *self = ChartViewport {
                time_start: time_end - width,
                time_end,
                time_total: self.time_total,
                zoom: self.zoom,
            };
        }
    }

    /// The visible window: its start and its end.
    pub fn visible_range(&self) -> (range: (i64, i64))
        ensures
            range.0 == self@.time_start,
            range.1 == self@.time_end,
            self@.valid(),
    {
        proof {
            use_type_invariant(self);
        }
        (self.time_start, self.time_end)
    }

    /// The extent of all the data.
    pub fn time_total(&self) -> (total: i64)
        ensures
            total == self@.time_total,
            self@.valid(),
    {
        proof {
            use_type_invariant(self);
        }
        self.time_total
    }

    /// The visible share of the extent, in millionths.
    pub fn zoom(&self) -> (zoom: i64)
        ensures
            zoom == self@.zoom,
            self@.valid(),
    {
        proof {
            use_type_invariant(self);
        }
        self.zoom
    }
}

} // verus!
