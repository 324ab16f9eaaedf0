//! Windowed queries: the points of a sample series that a viewport shows.
//!
//! A point pairs the time that has passed since a reference instant, in
//! milliseconds, with one field of the sample.  A query keeps the points
//! whose time lies within the visible window, both ends included, in the
//! order of the samples.

use vstd::prelude::*;
use crate::battery::BatterySample;
use crate::viewport::ChartViewport;

verus! {

/// The field of a sample that a chart plots.
#[derive(Debug, Clone, Copy, PartialEq, Eq, Structural)]
pub enum ChartField {
    /// Charge level, in percent.
    Capacity,
    /// Power flow, in microwatts.
    Power,
}

/// An integer cut back to the range of `i64`.
pub open spec fn saturate(value: int) -> i64 {
    if value > i64::MAX {
        i64::MAX
    } else if value < i64::MIN {
        i64::MIN
    } else {
        value as i64
    }
}

/// Milliseconds from `reference` to `timestamp`, cut back to the range of
/// `i64`; 0 where there is no reference.
pub open spec fn elapsed(timestamp: i64, reference: Option<i64>) -> i64 {
    match reference {
        Some(origin) => saturate(timestamp - origin),
        None => 0,
    }
}

/// The value that a chart of `field` plots for `sample`.
pub open spec fn field_value(sample: BatterySample, field: ChartField) -> i64 {
    match field {
        ChartField::Capacity => sample.capacity,
        ChartField::Power => sample.power_uw,
    }
}

/// The point that a chart of `field` plots for `sample`.
pub open spec fn chart_point(
    sample: BatterySample,
    reference: Option<i64>,
    field: ChartField,
) -> (i64, i64) {
    (elapsed(sample.timestamp, reference), field_value(sample, field))
}

/// Whether a point lies within the window from `start` to `end`.
pub open spec fn in_window(point: (i64, i64), start: int, end: int) -> bool {
    start <= point.0 <= end
}

/// The points of `samples` that lie within the window, in the order of the
/// samples.
pub open spec fn visible_points(
    samples: Seq<BatterySample>,
    reference: Option<i64>,
    field: ChartField,
    start: int,
    end: int,
) -> Seq<(i64, i64)> {
    samples.map_values(|s: BatterySample| chart_point(s, reference, field)).filter(
        |p: (i64, i64)| in_window(p, start, end),
    )
}

/// A window that none of the samples falls into shows no point.
pub proof fn lemma_empty_intersection(
    samples: Seq<BatterySample>,
    reference: Option<i64>,
    field: ChartField,
    start: int,
    end: int,
)
    requires
        forall|i: int|
            0 <= i < samples.len() ==> !in_window(
                chart_point(#[trigger] samples[i], reference, field),
                start,
                end,
            ),
    ensures
        visible_points(samples, reference, field, start, end) == Seq::<(i64, i64)>::empty(),
{
    let points = samples.map_values(|s: BatterySample| chart_point(s, reference, field));
    let pred = |p: (i64, i64)| in_window(p, start, end);
    assert(points.all(|p: (i64, i64)| !pred(p))) by {
        assert forall|i: int| 0 <= i < points.len() implies !pred(#[trigger] points[i]) by {
            assert(points[i] == chart_point(samples[i], reference, field));
        }
    }
    points.lemma_all_neg_filter_empty(pred);
    assert(points.filter(pred) =~= Seq::<(i64, i64)>::empty());
}

/// Every point that a query gives lies within the window, and there are no
/// more points than samples.
pub proof fn lemma_visible_points_in_window(
    samples: Seq<BatterySample>,
    reference: Option<i64>,
    field: ChartField,
    start: int,
    end: int,
)
    ensures
        visible_points(samples, reference, field, start, end).len() <= samples.len(),
        forall|i: int|
            0 <= i < visible_points(samples, reference, field, start, end).len() ==> in_window(
                #[trigger] visible_points(samples, reference, field, start, end)[i],
                start,
                end,
            ),
{
    let points = samples.map_values(|s: BatterySample| chart_point(s, reference, field));
    let pred = |p: (i64, i64)| in_window(p, start, end);
    points.lemma_filter_len(pred);
    assert forall|i: int| 0 <= i < points.filter(pred).len() implies in_window(
        #[trigger] points.filter(pred)[i],
        start,
        end,
    ) by {
        points.lemma_filter_pred(pred, i);
    }
}

/// Milliseconds from `reference` to `timestamp`.
pub fn elapsed_ms(timestamp: i64, reference: Option<i64>) -> (x: i64)
    ensures
        x == elapsed(timestamp, reference),
{
    match reference {
        Some(origin) => match timestamp.checked_sub(origin) {
            Some(difference) => difference,
            None => if timestamp >= origin {
                i64::MAX
            } else {
                i64::MIN
            },
        },
        None => 0,
    }
}

/// The points of `samples` that `viewport` shows.
pub fn chart_data(
    samples: &[BatterySample],
    reference: Option<i64>,
    field: ChartField,
    viewport: &ChartViewport,
) -> (points: Vec<(i64, i64)>)
    ensures
        points@ == visible_points(
            samples@,
            reference,
            field,
            viewport@.time_start,
            viewport@.time_end,
        ),
        points@.len() <= samples@.len(),
{
    let (start, end) = viewport.visible_range();
    let ghost map = |s: BatterySample| chart_point(s, reference, field);
    let ghost pred = |p: (i64, i64)| in_window(p, start as int, end as int);
    let mut points: Vec<(i64, i64)> = Vec::new();
    let mut i: usize = 0;
    assert(samples@.take(0).map_values(map) =~= Seq::empty());
    while i < samples.len()
        invariant
            i <= samples@.len(),
            map == |s: BatterySample| chart_point(s, reference, field),
            pred == |p: (i64, i64)| in_window(p, start as int, end as int),
            points@ == samples@.take(i as int).map_values(map).filter(pred),
        decreases samples@.len() - i,
    {
        let sample = samples[i];
        let x: i64 = elapsed_ms(sample.timestamp, reference);
        let y: i64 = match field {
            ChartField::Capacity => sample.capacity,
            ChartField::Power => sample.power_uw,
        };
        proof {
            let before = samples@.take(i as int).map_values(map);
            assert(samples@.take(i + 1).map_values(map) =~= before.push((x, y)));
            before.lemma_filter_push((x, y), pred);
        }
        if x >= start && x <= end {
            points.push((x, y));
        }
        i += 1;
    }
    proof {
        assert(samples@.take(i as int) =~= samples@);
        samples@.map_values(map).lemma_filter_len(pred);
    }
    points
}

/// The instant from which the chart of one session is measured: the
/// timestamp of the first of its samples.
pub open spec fn session_reference(samples: Seq<BatterySample>) -> Option<i64> {
    if samples.len() > 0 {
        Some(samples.first().timestamp)
    } else {
        None
    }
}

/// The points of the samples of one session that `viewport` shows, with
/// time measured from the first of the samples.
pub fn session_chart_data(
    samples: &[BatterySample],
    field: ChartField,
    viewport: &ChartViewport,
) -> (points: Vec<(i64, i64)>)
    ensures
        points@ == visible_points(
            samples@,
            session_reference(samples@),
            field,
            viewport@.time_start,
            viewport@.time_end,
        ),
        points@.len() <= samples@.len(),
{
    let reference: Option<i64> = if samples.len() > 0 {
        Some(samples[0].timestamp)
    } else {
        None
    };
    chart_data(samples, reference, field, viewport)
}

} // verus!
