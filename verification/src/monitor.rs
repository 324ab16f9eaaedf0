//! The state of the monitor: the history, the two chart windows, and which
//! view is shown.

use vstd::prelude::*;
use crate::battery::BatterySample;
use crate::chart::{
    chart_data, elapsed, elapsed_ms, saturate, session_reference, visible_points, ChartField,
};
use crate::display::{axis_instants, instant_at, tick_position, AXIS_LABELS};
use crate::history::History;
// In this file `View` names the trait behind `@`, so the enum of the views
// goes by another name.
use crate::screen::View as Screen;
use crate::viewport::{ChartViewport, ViewportModel};

verus! {

/// Number of samples after which the history is due to be saved.
pub const SAVE_INTERVAL: u64 = 60;

/// A key press, as far as the monitor tells keys apart.
#[derive(Debug, Clone, Copy, PartialEq, Eq, Structural)]
pub enum Key {
    /// A character key, and whether Control was held with it.
    Char { c: char, control: bool },
    /// The left arrow.
    Left,
    /// The right arrow.
    Right,
    /// Any other key.
    Other,
}

/// What the caller is to do after a key press.
#[derive(Debug, Clone, Copy, PartialEq, Eq, Structural)]
pub enum Command {
    /// Go on.
    Continue,
    /// Save the history and leave.
    SaveAndQuit,
}

/// The tick count after one more sample, counted modulo 2^64.
pub open spec fn next_tick(tick_count: u64) -> u64 {
    if tick_count == u64::MAX {
        0
    } else {
        (tick_count + 1) as u64
    }
}

/// Whether the history is due to be saved at a tick count: at every
/// multiple of `SAVE_INTERVAL`.
pub open spec fn save_due(tick_count: u64) -> bool {
    tick_count % SAVE_INTERVAL == 0
}

/// Counts one more sample.  The result is the new tick count and whether
/// the history is now due to be saved.
pub fn advance_tick(tick_count: u64) -> (next: (u64, bool))
    ensures
        next.0 == next_tick(tick_count),
        next.1 == save_due(next.0),
{
    let count: u64 = if tick_count == u64::MAX {
        0
    } else {
        tick_count + 1
    };
    (count, count % SAVE_INTERVAL == 0)
}

/// The state of the monitor.
pub struct App {
    pub view: Screen,
    pub history: History,
    /// Window of the history chart.
    pub viewport: ChartViewport,
    /// Window of the session chart.
    pub session_viewport: ChartViewport,
    pub running: bool,
    pub battery_name: String,
    pub last_sample: Option<BatterySample>,
    /// Number of samples added since the start, counted modulo 2^64.
    pub tick_count: u64,
    /// The instant from which chart positions are measured: the timestamp
    /// of the first sample known.
    pub ref_time: Option<i64>,
}

/// The time from the first to the last of `samples`, as the chart measures
/// it from `reference`; `None` where there are no samples.
pub open spec fn time_span(samples: Seq<BatterySample>, reference: Option<i64>) -> Option<i64> {
    if samples.len() == 0 {
        None
    } else {
        Some(
            saturate(
                elapsed(samples.last().timestamp, reference) - elapsed(
                    samples.first().timestamp,
                    reference,
                ),
            ),
        )
    }
}

/// The window fitted to `samples`, or `current` where there are none.
pub open spec fn fitted(
    current: ViewportModel,
    samples: Seq<BatterySample>,
    reference: Option<i64>,
) -> ViewportModel {
    match time_span(samples, reference) {
        Some(total) => ViewportModel::fit(total as int),
        None => current,
    }
}

/// Computes [`time_span`].
fn span_of(samples: &[BatterySample], reference: Option<i64>) -> (span: Option<i64>)
    ensures
        span == time_span(samples@, reference),
{
    let n: usize = samples.len();
    if n == 0 {
        None
    } else {
        let first: i64 = elapsed_ms(samples[0].timestamp, reference);
        let last: i64 = elapsed_ms(samples[n - 1].timestamp, reference);
        Some(elapsed_ms(last, Some(first)))
    }
}

impl App {
    /// The monitor at its start, over a history that may have been
    /// restored.
    pub fn new(battery_name: String, history: History) -> (app: App)
        ensures
            app.view == Screen::Dashboard,
            app.history == history,
            app.viewport@ == ViewportModel::fit(0),
            app.session_viewport@ == ViewportModel::fit(0),
            app.running,
            app.battery_name == battery_name,
            app.last_sample is None,
            app.tick_count == 0,
            app.ref_time == if history@.samples.len() > 0 {
                Some(history@.samples.first().timestamp)
            } else {
                None
            },
    {
        let samples = history.all_samples();
        let ref_time: Option<i64> = if samples.len() > 0 {
            Some(samples[0].timestamp)
        } else {
            None
        };
        App {
            view: Screen::Dashboard,
            history,
            viewport: ChartViewport::new(),
            session_viewport: ChartViewport::new(),
            running: true,
            battery_name,
            last_sample: None,
            tick_count: 0,
            ref_time,
        }
    }

    /// Takes in a sample.  The result says whether the history is now due
    /// to be saved: after every `SAVE_INTERVAL` samples.
    pub fn add_sample(&mut self, sample: BatterySample) -> (save: bool)
        ensures
            final(self).ref_time == if old(self).ref_time is None {
                Some(sample.timestamp)
            } else {
                old(self).ref_time
            },
            final(self).last_sample == Some(sample),
            final(self).history@ == old(self).history@.add_sample(sample),
            final(self).history@.valid(),
            final(self).tick_count == next_tick(old(self).tick_count),
            save == save_due(final(self).tick_count),
            final(self).view == old(self).view,
            final(self).viewport == old(self).viewport,
            final(self).session_viewport == old(self).session_viewport,
            final(self).running == old(self).running,
            final(self).battery_name == old(self).battery_name,
    {
        if self.ref_time.is_none() {
            self.ref_time = Some(sample.timestamp);
        }
        self.last_sample = Some(sample);
        self.history.add_sample(sample);
        let (count, save) = advance_tick(self.tick_count);
        self.tick_count = count;
        save
    }

    /// The chart position of an instant: milliseconds since the reference
    /// instant, or 0 while there is none.
    pub fn time_to_x(&self, timestamp: i64) -> (x: i64)
        ensures
            x == elapsed(timestamp, self.ref_time),
    {
        elapsed_ms(timestamp, self.ref_time)
    }

    /// The instant of a chart position, where there is a reference instant
    /// and the result is in the range of `i64`.
    pub fn x_to_time(&self, x: i64) -> (timestamp: Option<i64>)
        ensures
            timestamp == instant_at(self.ref_time, x as int),
    {
        match self.ref_time {
            Some(origin) => origin.checked_add(x),
            None => None,
        }
    }

    /// The charge levels of `samples` that the history window shows.
    pub fn capacity_chart_data(&self, samples: &[BatterySample]) -> (points: Vec<(i64, i64)>)
        ensures
            points@ == visible_points(
                samples@,
                self.ref_time,
                ChartField::Capacity,
                self.viewport@.time_start,
                self.viewport@.time_end,
            ),
    {
        chart_data(samples, self.ref_time, ChartField::Capacity, &self.viewport)
    }

    /// The power flows of `samples` that the history window shows.
    pub fn power_chart_data(&self, samples: &[BatterySample]) -> (points: Vec<(i64, i64)>)
        ensures
            points@ == visible_points(
                samples@,
                self.ref_time,
                ChartField::Power,
                self.viewport@.time_start,
                self.viewport@.time_end,
            ),
    {
        chart_data(samples, self.ref_time, ChartField::Power, &self.viewport)
    }

    /// Fits the history window to the retained samples; with no samples the
    /// window stays as it is.
    pub fn fit_viewport(&mut self)
        ensures
            final(self).viewport@ == fitted(
                old(self).viewport@,
                old(self).history@.samples,
                old(self).ref_time,
            ),
            *final(self) == (App { viewport: final(self).viewport, ..*old(self) }),
    {
        let span = span_of(self.history.all_samples(), self.ref_time);
        if let Some(total) = span {
            self.viewport.fit_data(total);
        }
    }

    /// Fits the session window to the samples of the completed session at
    /// `session_idx`; with no such session, or no samples in it, the window
    /// stays as it is.
    pub fn fit_session_viewport(&mut self, session_idx: usize)
        ensures
            final(self).session_viewport@ == if session_idx
                < old(self).history@.completed_sessions.len() {
                fitted(
                    old(self).session_viewport@,
                    old(self).history@.completed_sessions[session_idx as int].samples,
                    old(self).ref_time,
                )
            } else {
                old(self).session_viewport@
            },
            *final(self) == (App { session_viewport: final(self).session_viewport, ..*old(self) }),
    {
        let sessions = self.history.completed_sessions();
        if session_idx < sessions.len() {
            let span = span_of(sessions[session_idx].samples.as_slice(), self.ref_time);
            if let Some(total) = span {
                self.session_viewport.fit_data(total);
            }
        }
    }

    /// The window of the view that is shown: the session window in a
    /// session view, the history window otherwise.
    pub fn active_viewport_mut(&mut self) -> (viewport: &mut ChartViewport)
        ensures
            old(self).view is SessionDetail ==> {
                &&& *viewport == old(self).session_viewport
                &&& *final(self) == (App { session_viewport: *final(viewport), ..*old(self) })
            },
            !(old(self).view is SessionDetail) ==> {
                &&& *viewport == old(self).viewport
                &&& *final(self) == (App { viewport: *final(viewport), ..*old(self) })
            },
    {
        match self.view {
            Screen::SessionDetail(_) => &mut self.session_viewport,
            _ => &mut self.viewport,
        }
    }

    /// The window of the view that is shown.
    pub open spec fn active_window(self) -> ViewportModel {
        if self.view is SessionDetail {
            self.session_viewport@
        } else {
            self.viewport@
        }
    }

    /// The instant from which the view that is shown measures the time of
    /// `samples`: their first timestamp in a session view, the reference
    /// instant otherwise.
    pub open spec fn active_reference(self, samples: Seq<BatterySample>) -> Option<i64> {
        if self.view is SessionDetail {
            session_reference(samples)
        } else {
            self.ref_time
        }
    }

    /// The positions of the labels on the time axis of the view that is
    /// shown, which charts `samples`, each with the instant that it stands
    /// for.
    pub fn time_axis_labels(&self, samples: &[BatterySample]) -> (labels: Vec<(i64, Option<i64>)>)
        ensures
            labels@.len() == AXIS_LABELS,
            forall|i: int|
                0 <= i < AXIS_LABELS ==> {
                    &&& (#[trigger] labels@[i]).0 == tick_position(
                        self.active_window().time_start,
                        self.active_window().time_end,
                        i,
                    )
                    &&& labels@[i].1 == instant_at(
                        self.active_reference(samples@),
                        labels@[i].0 as int,
                    )
                },
    {
        match self.view {
            Screen::SessionDetail(_) => {
                let reference: Option<i64> = if samples.len() > 0 {
                    Some(samples[0].timestamp)
                } else {
                    None
                };
                axis_instants(&self.session_viewport, reference)
            },
            _ => axis_instants(&self.viewport, self.ref_time),
        }
    }

    /// Shows the dashboard.
    pub fn switch_to_dashboard(&mut self)
        ensures
            *final(self) == (App { view: Screen::Dashboard, ..*old(self) }),
    {
        self.view = Screen::Dashboard;
    }

    /// Shows the history chart, fitted to the retained samples.
    pub fn switch_to_history(&mut self)
        ensures
            final(self).viewport@ == fitted(
                old(self).viewport@,
                old(self).history@.samples,
                old(self).ref_time,
            ),
            *final(self) == (App {
                view: Screen::HistoryChart,
                viewport: final(self).viewport,
                ..*old(self)
            }),
    {
        self.view = Screen::HistoryChart;
        self.fit_viewport();
    }

    /// Shows the completed session at `idx`, fitted to its samples; with no
    /// such session nothing changes.
    pub fn switch_to_session(&mut self, idx: usize)
        ensures
            idx >= old(self).history@.completed_sessions.len() ==> *final(self) == *old(self),
            idx < old(self).history@.completed_sessions.len() ==> {
                &&& final(self).session_viewport@ == fitted(
                    old(self).session_viewport@,
                    old(self).history@.completed_sessions[idx as int].samples,
                    old(self).ref_time,
                )
                &&& *final(self) == (App {
                    view: Screen::SessionDetail(idx),
                    session_viewport: final(self).session_viewport,
                    ..*old(self)
                })
            },
    {
        if idx < self.history.completed_sessions().len() {
            self.view = Screen::SessionDetail(idx);
            self.fit_session_viewport(idx);
        }
    }

    /// The state after a key press, but for the two windows.
    pub open spec fn after_key(self, key: Key) -> App {
        match key {
            Key::Char { c, control } => if c == 'q' {
                App { running: false, ..self }
            } else if c == 'd' {
                App { view: Screen::Dashboard, ..self }
            } else if c == 'h' {
                App { view: Screen::HistoryChart, ..self }
            } else if c == '1' && 0 < self.history@.completed_sessions.len() {
                App { view: Screen::SessionDetail(0), ..self }
            } else if c == '2' && 1 < self.history@.completed_sessions.len() {
                App { view: Screen::SessionDetail(1), ..self }
            } else {
                self
            },
            _ => self,
        }
    }

    /// The window, `window`, of the view that is shown after a zoom or pan
    /// key; any other key leaves it as it is.
    pub open spec fn moved(window: ViewportModel, key: Key) -> ViewportModel {
        match key {
            Key::Char { c, control } => if c == '+' || c == '=' {
                window.zoom_in()
            } else if c == '-' {
                window.zoom_out()
            } else {
                window
            },
            Key::Left => window.pan_left(),
            Key::Right => window.pan_right(),
            Key::Other => window,
        }
    }

    /// The session window fitted to the completed session at `idx`, or as
    /// it is where there is no such session.
    pub open spec fn session_fitted(self, idx: usize) -> ViewportModel {
        if idx < self.history@.completed_sessions.len() {
            fitted(
                self.session_viewport@,
                self.history@.completed_sessions[idx as int].samples,
                self.ref_time,
            )
        } else {
            self.session_viewport@
        }
    }

    /// The history window after a key press: fitted by `h`, and by `f` in
    /// the history view; zoomed and panned while no session is shown.
    pub open spec fn history_window_after_key(self, key: Key) -> ViewportModel {
        if Self::quits(key) {
            self.viewport@
        } else if key matches Key::Char { c, control } && (c == 'd' || c == '1' || c == '2') {
            self.viewport@
        } else if key matches Key::Char { c, control } && (c == 'h' || (c == 'f'
            && self.view is HistoryChart)) {
            fitted(self.viewport@, self.history@.samples, self.ref_time)
        } else if self.view is SessionDetail {
            self.viewport@
        } else {
            Self::moved(self.viewport@, key)
        }
    }

    /// The session window after a key press: fitted by `1` and `2`, and by
    /// `f` in a session view; zoomed and panned while a session is shown.
    pub open spec fn session_window_after_key(self, key: Key) -> ViewportModel {
        if Self::quits(key) {
            self.session_viewport@
        } else if key matches Key::Char { c, control } && (c == 'd' || c == 'h') {
            self.session_viewport@
        } else if key matches Key::Char { c, control } && c == '1' {
            self.session_fitted(0)
        } else if key matches Key::Char { c, control } && c == '2' {
            self.session_fitted(1)
        } else if key matches Key::Char { c, control } && c == 'f' {
            match self.view {
                Screen::SessionDetail(idx) => self.session_fitted(idx),
                _ => self.session_viewport@,
            }
        } else if self.view is SessionDetail {
            Self::moved(self.session_viewport@, key)
        } else {
            self.session_viewport@
        }
    }

    /// Whether a key press ends the monitor: `q`, or `c` with Control.
    pub open spec fn quits(key: Key) -> bool {
        key matches Key::Char { c, control } && (c == 'q' || (c == 'c' && control))
    }

    /// Acts on a key press: `q` and Control-`c` leave, `d`, `h`, `1` and `2`
    /// switch the view, `+`, `=` and `-` zoom, the arrows pan, and `f` fits
    /// the window of the view that is shown.
    pub fn handle_key(&mut self, key: Key) -> (command: Command)
        ensures
            command == if Self::quits(key) {
                Command::SaveAndQuit
            } else {
                Command::Continue
            },
            final(self).history == old(self).history,
            final(self).view == old(self).after_key(key).view,
            final(self).running == old(self).after_key(key).running,
            final(self).viewport@ == old(self).history_window_after_key(key),
            final(self).session_viewport@ == old(self).session_window_after_key(key),
            final(self).battery_name == old(self).battery_name,
            final(self).last_sample == old(self).last_sample,
            final(self).tick_count == old(self).tick_count,
            final(self).ref_time == old(self).ref_time,
    {
        match key {
            Key::Char { c, control } => {
                if c == 'q' {
                    self.running = false;
                    Command::SaveAndQuit
                } else if c == 'c' && control {
                    Command::SaveAndQuit
                } else {
                    if c == 'd' {
                        self.switch_to_dashboard();
                    } else if c == 'h' {
                        self.switch_to_history();
                    } else if c == '1' {
                        self.switch_to_session(0);
                    } else if c == '2' {
                        self.switch_to_session(1);
                    } else if c == '+' || c == '=' {
                        self.active_viewport_mut().zoom_in();
                    } else if c == '-' {
                        self.active_viewport_mut().zoom_out();
                    } else if c == 'f' {
                        match self.view {
                            Screen::HistoryChart => {
                                self.fit_viewport();
                            },
                            Screen::SessionDetail(idx) => {
                                self.fit_session_viewport(idx);
                            },
                            Screen::Dashboard => {},
                        }
                    }
                    Command::Continue
                }
            },
            Key::Left => {
                self.active_viewport_mut().pan_left();
                Command::Continue
            },
            Key::Right => {
                self.active_viewport_mut().pan_right();
                Command::Continue
            },
            Key::Other => Command::Continue,
        }
    }
}

} // verus!
