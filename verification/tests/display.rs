use bathis::battery::{BatterySample, BatteryStatus};
use bathis::display::{
    axis_ticks, capacity_bar_cells, clock_label, format_duration, power_axis_bounds,
    session_duration, AXIS_LABELS, BAR_WIDTH,
};
use bathis::session::ChargeSession;
use bathis::viewport::ChartViewport;

fn reading(timestamp: i64) -> BatterySample {
    BatterySample {
        timestamp,
        capacity: 50,
        power_uw: 0,
        status: BatteryStatus::Charging,
        energy_now_uwh: 0,
        energy_full_uwh: 0,
        voltage_uv: 0,
    }
}

#[test]
fn durations_below_an_hour_show_minutes() {
    assert_eq!(format_duration(0), "0m");
    assert_eq!(format_duration(59), "0m");
    assert_eq!(format_duration(60), "1m");
    assert_eq!(format_duration(3599), "59m");
}

#[test]
fn durations_from_an_hour_show_both() {
    assert_eq!(format_duration(3600), "1h 00m");
    assert_eq!(format_duration(3660), "1h 01m");
    assert_eq!(format_duration(7_384), "2h 03m");
    assert_eq!(format_duration(360_000 + 59 * 60), "100h 59m");
}

#[test]
fn negative_durations_count_as_none() {
    assert_eq!(format_duration(-1), "0m");
    assert_eq!(format_duration(i64::MIN), "0m");
}

#[test]
fn session_duration_is_in_whole_seconds() {
    let mut session = ChargeSession::begin(reading(10_000));
    assert_eq!(session_duration(&session), 0);
    session.extend(reading(12_999));
    assert_eq!(session_duration(&session), 2);
    session.extend(reading(3_733_000));
    assert_eq!(session_duration(&session), 3723);
    assert_eq!(format_duration(session_duration(&session)), "1h 02m");
    session.extend(reading(8_001));
    assert_eq!(session_duration(&session), -1);
    session.extend(reading(9_001));
    assert_eq!(session_duration(&session), 0);
}

#[test]
fn bar_fills_one_cell_for_five_percent() {
    assert_eq!(BAR_WIDTH, 20);
    assert_eq!(capacity_bar_cells(0), 0);
    assert_eq!(capacity_bar_cells(4), 0);
    assert_eq!(capacity_bar_cells(5), 1);
    assert_eq!(capacity_bar_cells(87), 17);
    assert_eq!(capacity_bar_cells(99), 19);
    assert_eq!(capacity_bar_cells(100), 20);
    assert_eq!(capacity_bar_cells(250), 20);
    assert_eq!(capacity_bar_cells(-3), 0);
}

#[test]
fn ticks_are_evenly_spaced() {
    let mut viewport = ChartViewport::new();
    viewport.fit_data(100_000);
    assert_eq!(axis_ticks(&viewport), vec![0, 25_000, 50_000, 75_000, 100_000]);
    viewport.zoom_in();
    assert_eq!(axis_ticks(&viewport), vec![15_000, 32_500, 50_000, 67_500, 85_000]);
    viewport.fit_data(1_001);
    let ticks = axis_ticks(&viewport);
    assert_eq!(ticks.len(), AXIS_LABELS);
    assert_eq!(ticks, vec![0, 250, 500, 750, 1_001]);
}

#[test]
fn clock_has_two_places_each() {
    assert_eq!(clock_label(0, 0), "00:00");
    assert_eq!(clock_label(9, 5), "09:05");
    assert_eq!(clock_label(23, 59), "23:59");
}

#[test]
fn power_axis_has_a_margin() {
    let points = vec![(0, 2_000_000), (1, 12_000_000), (2, 7_000_000)];
    assert_eq!(power_axis_bounds(&points), Some((-500_000, 13_500_000)));
    let points = vec![(0, -12_000_000), (1, -2_000_000)];
    assert_eq!(power_axis_bounds(&points), Some((-13_500_000, 500_000)));
    let points = vec![(0, -4_000_000), (1, 6_000_000)];
    assert_eq!(power_axis_bounds(&points), Some((-5_500_000, 7_500_000)));
}

#[test]
fn power_axis_is_never_flat() {
    assert_eq!(power_axis_bounds(&[(0, 0)]), Some((-500_000, 500_000)));
    assert_eq!(power_axis_bounds(&[(0, 100_000), (5, 100_000)]), Some((-500_000, 600_000)));
}

#[test]
fn power_axis_needs_points() {
    assert_eq!(power_axis_bounds(&[]), None);
}

#[test]
fn power_axis_stays_in_range() {
    let points = vec![(0, i64::MIN), (1, i64::MAX)];
    assert_eq!(power_axis_bounds(&points), Some((i64::MIN, i64::MAX)));
}

#[test]
fn instants_follow_the_reference() {
    let mut viewport = ChartViewport::new();
    viewport.fit_data(4_000);
    let labels = bathis::display::axis_instants(&viewport, Some(i64::MAX - 2_000));
    assert_eq!(labels[0], (0, Some(i64::MAX - 2_000)));
    assert_eq!(labels[2], (2_000, Some(i64::MAX)));
    assert_eq!(labels[3], (3_000, None));
    let labels = bathis::display::axis_instants(&viewport, None);
    assert_eq!(labels[1], (1_000, None));
}
