//! What the views show, as far as it is computed: durations, the charge
//! bar, and the axes of the charts.

use vstd::prelude::*;
use vstd::string::StringExecFns;
use crate::chart::{elapsed_ms, saturate};
use crate::session::{ChargeSession, SessionModel};
use crate::text::{decimal_digits, decimal_text, two_digit_text, two_digits};
use crate::viewport::{max_int, min_int, ChartViewport};

verus! {

/// Number of cells of the charge bar.
pub const BAR_WIDTH: usize = 20;

/// Number of labels on a time axis.
pub const AXIS_LABELS: usize = 5;

/// Least distance, in microwatts, of either end of the power axis from 0,
/// and the fixed part of the margin round the plotted power.
pub const POWER_MARGIN: i64 = 500_000;

/// The text of a duration of `secs` seconds: hours and minutes, or minutes
/// alone below one hour.  A negative duration counts as none.
pub open spec fn duration_text(secs: int) -> Seq<char> {
    let total = max_int(secs, 0);
    let hours = (total / 3600) as nat;
    let minutes = ((total % 3600) / 60) as nat;
    if hours > 0 {
        decimal_digits(hours) + "h "@ + two_digits(minutes) + "m"@
    } else {
        decimal_digits(minutes) + "m"@
    }
}

/// Whole seconds from the start of a session to its end, rounded towards
/// 0; 0 while the session has no end.
pub open spec fn session_seconds(session: SessionModel) -> int {
    match session.end_time {
        Some(end) => {
            let span = saturate(end - session.start_time) as int;
            if span >= 0 {
                span / 1000
            } else {
                -((-span) / 1000)
            }
        },
        None => 0,
    }
}

/// Number of filled cells of the charge bar: one for every 5 percent, none
/// below 0 and all of them from 100 percent.
pub open spec fn bar_cells(capacity: int) -> int {
    min_int(max_int(capacity, 0) / 5, BAR_WIDTH as int)
}

/// The position of label `i` on a time axis from `start` to `end`: the
/// labels are evenly spaced, the first at `start` and the last at `end`.
pub open spec fn tick_position(start: int, end: int, i: int) -> int {
    start + (end - start) * i / (AXIS_LABELS - 1)
}

/// The instant at a chart position: as far from `reference` as the
/// position says; none without a reference, or out of the range of `i64`.
pub open spec fn instant_at(reference: Option<i64>, x: int) -> Option<i64> {
    match reference {
        Some(origin) => if i64::MIN <= origin + x <= i64::MAX {
            Some((origin + x) as i64)
        } else {
            None
        },
        None => None,
    }
}

/// The text of a time of day, `HH:MM`.
pub open spec fn clock_text(hour: nat, minute: nat) -> Seq<char> {
    two_digits(hour) + ":"@ + two_digits(minute)
}

/// The least value among `points`, which are not empty.
pub open spec fn lowest(points: Seq<(i64, i64)>) -> int
    decreases points.len(),
{
    if points.len() <= 1 {
        points[0].1 as int
    } else {
        min_int(lowest(points.drop_last()), points.last().1 as int)
    }
}

/// The greatest value among `points`, which are not empty.
pub open spec fn highest(points: Seq<(i64, i64)>) -> int
    decreases points.len(),
{
    if points.len() <= 1 {
        points[0].1 as int
    } else {
        max_int(highest(points.drop_last()), points.last().1 as int)
    }
}

/// The ends of the power axis for `points`: the least and the greatest
/// power, each moved out by a tenth of their distance and by
/// `POWER_MARGIN`, and never nearer to 0 than `POWER_MARGIN`.  Without
/// points there is no axis.
pub open spec fn power_axis(points: Seq<(i64, i64)>) -> Option<(i64, i64)> {
    if points.len() == 0 {
        None
    } else {
        let margin = (highest(points) - lowest(points)) / 10 + POWER_MARGIN;
        Some(
            (
                saturate(min_int(lowest(points) - margin, -POWER_MARGIN)),
                saturate(max_int(highest(points) + margin, POWER_MARGIN as int)),
            ),
        )
    }
}

/// `lowest` and `highest` bound every value and are values themselves.
pub proof fn lemma_lowest_highest(points: Seq<(i64, i64)>)
    requires
        points.len() > 0,
    ensures
        forall|i: int| 0 <= i < points.len() ==> lowest(points) <= (#[trigger] points[i]).1,
        forall|i: int| 0 <= i < points.len() ==> (#[trigger] points[i]).1 <= highest(points),
        exists|i: int| 0 <= i < points.len() && (#[trigger] points[i]).1 == lowest(points),
        exists|i: int| 0 <= i < points.len() && (#[trigger] points[i]).1 == highest(points),
    decreases points.len(),
{
    if points.len() > 1 {
        let head = points.drop_last();
        lemma_lowest_highest(head);
        let n = points.len() - 1;
        assert forall|i: int| 0 <= i < points.len() implies lowest(points) <= (
        #[trigger] points[i]).1 by {
            if i < n {
                assert(head[i] == points[i]);
            }
        }
        assert forall|i: int| 0 <= i < points.len() implies (#[trigger] points[i]).1 <= highest(
            points,
        ) by {
            if i < n {
                assert(head[i] == points[i]);
            }
        }
        let a = choose|i: int| 0 <= i < head.len() && (#[trigger] head[i]).1 == lowest(head);
        assert(head[a] == points[a]);
        let low = if lowest(points) == lowest(head) {
            a
        } else {
            n
        };
        assert(points[low].1 == lowest(points));
        let b = choose|i: int| 0 <= i < head.len() && (#[trigger] head[i]).1 == highest(head);
        assert(head[b] == points[b]);
        let high = if highest(points) == highest(head) {
            b
        } else {
            n
        };
        assert(points[high].1 == highest(points));
    } else {
        assert(points[0].1 == lowest(points));
        assert(points[0].1 == highest(points));
    }
}

/// Formats seconds as a duration.
pub fn format_duration(secs: i64) -> (text: String)
    ensures
        text@ == duration_text(secs as int),
{
    let total: u64 = if secs < 0 {
        0
    } else {
        secs as u64
    };
    let hours: u64 = total / 3600;
    let minutes: u64 = (total % 3600) / 60;
    if hours > 0 {
        let mut text: String = decimal_text(hours);
        text.append("h ");
        text.append(two_digit_text(minutes).as_str());
        text.append("m");
        text
    } else {
        let mut text: String = decimal_text(minutes);
        text.append("m");
        text
    }
}

/// Whole seconds from the start of a session to its end.
pub fn session_duration(session: &ChargeSession) -> (secs: i64)
    ensures
        secs == session_seconds(session@),
{
    match session.end_time {
        Some(end) => {
            let span: i64 = elapsed_ms(end, Some(session.start_time));
            if span >= 0 {
                span / 1000
            } else if span == i64::MIN {
                -(i64::MAX / 1000)
            } else {
                -((-span) / 1000)
            }
        },
        None => 0,
    }
}

/// Number of filled cells of the charge bar, of `BAR_WIDTH`.
pub fn capacity_bar_cells(capacity: i64) -> (filled: usize)
    ensures
        filled == bar_cells(capacity as int),
        filled <= BAR_WIDTH,
{
    if capacity <= 0 {
        0
    } else if capacity >= 100 {
        BAR_WIDTH
    } else {
        (capacity / 5) as usize
    }
}

/// The positions of the labels on the time axis of a window.
pub fn axis_ticks(viewport: &ChartViewport) -> (ticks: Vec<i64>)
    ensures
        ticks@.len() == AXIS_LABELS,
        forall|i: int|
            0 <= i < AXIS_LABELS ==> #[trigger] ticks@[i] == tick_position(
                viewport@.time_start,
                viewport@.time_end,
                i,
            ),
{
    let (start, end) = viewport.visible_range();
    let width: i64 = end - start;
    let mut ticks: Vec<i64> = Vec::new();
    let mut i: usize = 0;
    while i < AXIS_LABELS
        invariant
            i <= AXIS_LABELS,
            0 <= start < end,
            width == end - start,
            ticks@.len() == i,
            forall|k: int|
                0 <= k < i ==> #[trigger] ticks@[k] == tick_position(start as int, end as int, k),
        decreases AXIS_LABELS - i,
    {
        assert(0 <= width * i <= width * 4) by (nonlinear_arith)
            requires
                0 <= width,
                0 <= i <= 4,
        ;
        let offset: i128 = (width as i128) * (i as i128) / 4;
        ticks.push(start + (offset as i64));
        i += 1;
    }
    ticks
}

/// The positions of the labels on the time axis of a window, each with the
/// instant that it stands for where time is measured from `reference`.
pub fn axis_instants(viewport: &ChartViewport, reference: Option<i64>) -> (labels: Vec<
    (i64, Option<i64>),
>)
    ensures
        labels@.len() == AXIS_LABELS,
        forall|i: int|
            0 <= i < AXIS_LABELS ==> {
                &&& (#[trigger] labels@[i]).0 == tick_position(
                    viewport@.time_start,
                    viewport@.time_end,
                    i,
                )
                &&& labels@[i].1 == instant_at(reference, labels@[i].0 as int)
            },
{
    let ticks = axis_ticks(viewport);
    let mut labels: Vec<(i64, Option<i64>)> = Vec::new();
    let mut i: usize = 0;
    while i < AXIS_LABELS
        invariant
            i <= AXIS_LABELS,
            ticks@.len() == AXIS_LABELS,
            labels@.len() == i,
            forall|k: int| 0 <= k < i ==> (#[trigger] labels@[k]).0 == ticks@[k],
            forall|k: int|
                0 <= k < i ==> (#[trigger] labels@[k]).1 == instant_at(
                    reference,
                    labels@[k].0 as int,
                ),
        decreases AXIS_LABELS - i,
    {
        let x: i64 = ticks[i];
        let instant: Option<i64> = match reference {
            Some(origin) => origin.checked_add(x),
            None => None,
        };
        labels.push((x, instant));
        i += 1;
    }
    labels
}

/// Formats a time of day as `HH:MM`.
pub fn clock_label(hour: u32, minute: u32) -> (text: String)
    ensures
        text@ == clock_text(hour as nat, minute as nat),
{
    let mut text: String = two_digit_text(hour as u64);
    text.append(":");
    text.append(two_digit_text(minute as u64).as_str());
    text
}

/// The ends of the power axis for the points of a chart.
pub fn power_axis_bounds(points: &[(i64, i64)]) -> (bounds: Option<(i64, i64)>)
    ensures
        bounds == power_axis(points@),
{
    let n: usize = points.len();
    if n == 0 {
        return None;
    }
    let mut low: i64 = points[0].1;
    let mut high: i64 = points[0].1;
    let mut i: usize = 1;
    assert(points@.take(1).len() == 1);
    while i < n
        invariant
            1 <= i <= n,
            n == points@.len(),
            low == lowest(points@.take(i as int)),
            high == highest(points@.take(i as int)),
        decreases n - i,
    {
        let y: i64 = points[i].1;
        proof {
            let next = points@.take(i + 1);
            assert(next.drop_last() =~= points@.take(i as int));
            assert(next.last() == points@[i as int]);
        }
        if y < low {
            low = y;
        }
        if y > high {
            high = y;
        }
        i += 1;
    }
    assert(points@.take(n as int) =~= points@);
    let margin: i128 = ((high as i128) - (low as i128)) / 10 + (POWER_MARGIN as i128);
    let below: i128 = (low as i128) - margin;
    let above: i128 = (high as i128) + margin;
    let bottom: i128 = if below < -(POWER_MARGIN as i128) {
        below
    } else {
        -(POWER_MARGIN as i128)
    };
    let top: i128 = if above > (POWER_MARGIN as i128) {
        above
    } else {
        POWER_MARGIN as i128
    };
    let y_min: i64 = if bottom < (i64::MIN as i128) {
        i64::MIN
    } else {
        bottom as i64
    };
    let y_max: i64 = if top > (i64::MAX as i128) {
        i64::MAX
    } else {
        top as i64
    };
    Some((y_min, y_max))
}

} // verus!
