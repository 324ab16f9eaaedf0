use bathis::battery::{BatterySample, BatteryStatus};
use bathis::history::History;
use bathis::monitor::{advance_tick, App, Command, Key, SAVE_INTERVAL};
use bathis::screen::View;

fn reading(timestamp: i64, capacity: i64, status: BatteryStatus) -> BatterySample {
    BatterySample {
        timestamp,
        capacity,
        power_uw: 3_000_000,
        status,
        energy_now_uwh: 0,
        energy_full_uwh: 0,
        voltage_uv: 0,
    }
}

fn press(app: &mut App, c: char) -> Command {
    app.handle_key(Key::Char { c, control: false })
}

fn app_with_sessions() -> App {
    let mut app = App::new("BAT0".to_string(), History::new());
    let mut at = 1_000_000;
    for _ in 0..2 {
        for capacity in [10, 50, 95] {
            app.add_sample(reading(at, capacity, BatteryStatus::Charging));
            at += 60_000;
        }
        app.add_sample(reading(at, 95, BatteryStatus::Discharging));
        at += 60_000;
    }
    app
}

#[test]
fn new_app_shows_the_dashboard() {
    let app = App::new("BAT0".to_string(), History::new());
    assert_eq!(app.view, View::Dashboard);
    assert!(app.running);
    assert_eq!(app.battery_name, "BAT0");
    assert_eq!(app.tick_count, 0);
    assert_eq!(app.ref_time, None);
    assert_eq!(app.last_sample, None);
    assert_eq!(app.viewport.visible_range(), (0, 1000));
    assert_eq!(app.session_viewport.visible_range(), (0, 1000));
}

#[test]
fn reference_is_the_first_sample_known() {
    let mut history = History::new();
    history.add_sample(reading(5_000, 50, BatteryStatus::Full));
    history.add_sample(reading(9_000, 50, BatteryStatus::Full));
    let mut app = App::new(String::new(), history);
    assert_eq!(app.ref_time, Some(5_000));
    app.add_sample(reading(12_000, 50, BatteryStatus::Full));
    assert_eq!(app.ref_time, Some(5_000));
    let mut fresh = App::new(String::new(), History::new());
    fresh.add_sample(reading(12_000, 50, BatteryStatus::Full));
    fresh.add_sample(reading(13_000, 50, BatteryStatus::Full));
    assert_eq!(fresh.ref_time, Some(12_000));
    assert_eq!(fresh.last_sample, Some(reading(13_000, 50, BatteryStatus::Full)));
    assert_eq!(fresh.history.all_samples().len(), 2);
}

#[test]
fn saving_is_due_every_sixty_samples() {
    assert_eq!(SAVE_INTERVAL, 60);
    let mut app = App::new(String::new(), History::new());
    for tick in 1..=180u64 {
        let save = app.add_sample(reading(tick as i64, 50, BatteryStatus::Full));
        assert_eq!(app.tick_count, tick);
        assert_eq!(save, tick % 60 == 0);
    }
}

#[test]
fn tick_count_wraps() {
    assert_eq!(advance_tick(0), (1, false));
    assert_eq!(advance_tick(58), (59, false));
    assert_eq!(advance_tick(59), (60, true));
    assert_eq!(advance_tick(u64::MAX - 1), (u64::MAX, false));
    assert_eq!(advance_tick(u64::MAX), (0, true));
}

#[test]
fn positions_and_instants_convert() {
    let mut app = App::new(String::new(), History::new());
    assert_eq!(app.time_to_x(5_000), 0);
    assert_eq!(app.x_to_time(5_000), None);
    app.add_sample(reading(10_000, 50, BatteryStatus::Full));
    assert_eq!(app.time_to_x(12_500), 2_500);
    assert_eq!(app.time_to_x(9_000), -1_000);
    assert_eq!(app.x_to_time(2_500), Some(12_500));
    assert_eq!(app.x_to_time(i64::MAX), None);
    assert_eq!(app.x_to_time(app.time_to_x(777_777)), Some(777_777));
}

#[test]
fn chart_data_follows_the_history_window() {
    let mut app = app_with_sessions();
    app.switch_to_history();
    assert_eq!(app.view, View::HistoryChart);
    assert_eq!(app.viewport.visible_range(), (0, 420_000));
    let capacity = app.capacity_chart_data(app.history.all_samples());
    assert_eq!(capacity.len(), 8);
    assert_eq!(capacity[0], (0, 10));
    assert_eq!(capacity[7], (420_000, 95));
    let power = app.power_chart_data(app.history.all_samples());
    assert_eq!(power[3], (180_000, 3_000_000));
    press(&mut app, '+');
    assert_eq!(app.viewport.visible_range(), (63_000, 357_000));
    let capacity = app.capacity_chart_data(app.history.all_samples());
    assert_eq!(capacity.first(), Some(&(120_000, 95)));
    assert_eq!(capacity.len(), 4);
}

#[test]
fn fitting_without_samples_changes_nothing() {
    let mut app = App::new(String::new(), History::new());
    app.viewport.fit_data(50_000);
    app.fit_viewport();
    assert_eq!(app.viewport.visible_range(), (0, 50_000));
    app.fit_session_viewport(0);
    assert_eq!(app.session_viewport.visible_range(), (0, 1000));
}

#[test]
fn session_view_needs_a_session() {
    let mut app = App::new(String::new(), History::new());
    app.switch_to_session(0);
    assert_eq!(app.view, View::Dashboard);
    let mut app = app_with_sessions();
    app.switch_to_session(2);
    assert_eq!(app.view, View::Dashboard);
    app.switch_to_session(1);
    assert_eq!(app.view, View::SessionDetail(1));
    assert_eq!(app.session_viewport.visible_range(), (0, 120_000));
    app.switch_to_dashboard();
    assert_eq!(app.view, View::Dashboard);
}

#[test]
fn active_window_goes_with_the_view() {
    let mut app = app_with_sessions();
    app.switch_to_history();
    app.active_viewport_mut().zoom_in();
    assert_eq!(app.viewport.visible_range(), (63_000, 357_000));
    assert_eq!(app.session_viewport.visible_range(), (0, 1000));
    app.switch_to_session(0);
    app.active_viewport_mut().zoom_in();
    assert_eq!(app.session_viewport.visible_range(), (18_000, 102_000));
    assert_eq!(app.viewport.visible_range(), (63_000, 357_000));
    app.switch_to_dashboard();
    app.active_viewport_mut().pan_left();
    assert_eq!(app.viewport.visible_range(), (4_200, 298_200));
}

#[test]
fn quit_keys_ask_for_a_save() {
    let mut app = app_with_sessions();
    assert_eq!(press(&mut app, 'q'), Command::SaveAndQuit);
    assert!(!app.running);
    let mut app = app_with_sessions();
    assert_eq!(app.handle_key(Key::Char { c: 'c', control: true }), Command::SaveAndQuit);
    assert!(app.running);
    assert_eq!(press(&mut app, 'c'), Command::Continue);
    assert_eq!(app.handle_key(Key::Other), Command::Continue);
    assert!(app.running);
}

#[test]
fn keys_switch_the_view() {
    let mut app = app_with_sessions();
    assert_eq!(press(&mut app, 'h'), Command::Continue);
    assert_eq!(app.view, View::HistoryChart);
    assert_eq!(app.viewport.visible_range(), (0, 420_000));
    press(&mut app, '1');
    assert_eq!(app.view, View::SessionDetail(0));
    press(&mut app, '2');
    assert_eq!(app.view, View::SessionDetail(1));
    press(&mut app, 'd');
    assert_eq!(app.view, View::Dashboard);
    let mut empty = App::new(String::new(), History::new());
    press(&mut empty, '1');
    assert_eq!(empty.view, View::Dashboard);
}

#[test]
fn keys_zoom_pan_and_fit() {
    let mut app = app_with_sessions();
    press(&mut app, 'h');
    press(&mut app, '=');
    assert_eq!(app.viewport.visible_range(), (63_000, 357_000));
    app.handle_key(Key::Left);
    assert_eq!(app.viewport.visible_range(), (4_200, 298_200));
    app.handle_key(Key::Right);
    assert_eq!(app.viewport.visible_range(), (63_000, 357_000));
    press(&mut app, '-');
    assert_eq!(app.viewport.visible_range(), (0, 420_000));
    press(&mut app, '+');
    press(&mut app, 'f');
    assert_eq!(app.viewport.visible_range(), (0, 420_000));
    press(&mut app, '1');
    press(&mut app, '+');
    assert_eq!(app.session_viewport.visible_range(), (18_000, 102_000));
    assert_eq!(app.viewport.visible_range(), (0, 420_000));
    press(&mut app, 'f');
    assert_eq!(app.session_viewport.visible_range(), (0, 120_000));
    press(&mut app, 'd');
    press(&mut app, '+');
    press(&mut app, 'f');
    assert_eq!(app.viewport.visible_range(), (63_000, 357_000));
}

#[test]
fn axis_labels_carry_their_instants() {
    let mut app = app_with_sessions();
    app.switch_to_history();
    let labels = app.time_axis_labels(app.history.all_samples());
    assert_eq!(
        labels,
        vec![
            (0, Some(1_000_000)),
            (105_000, Some(1_105_000)),
            (210_000, Some(1_210_000)),
            (315_000, Some(1_315_000)),
            (420_000, Some(1_420_000)),
        ]
    );
    app.switch_to_session(1);
    let samples = app.history.completed_sessions()[1].samples.clone();
    let labels = app.time_axis_labels(&samples);
    assert_eq!(labels[0], (0, Some(1_240_000)));
    assert_eq!(labels[4], (120_000, Some(1_360_000)));
    assert_eq!(app.time_axis_labels(&[])[2], (60_000, None));
    let empty = App::new(String::new(), History::new());
    assert_eq!(empty.time_axis_labels(&[])[4], (1_000, None));
}
