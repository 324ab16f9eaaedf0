//! The views that the monitor can show.

use vstd::prelude::*;

verus! {

/// Which view the monitor is showing.
#[derive(Debug, Clone, Copy, PartialEq, Eq, Structural)]
pub enum View {
    /// Live dashboard with the latest reading.
    Dashboard,
    /// Chart of all retained samples.
    HistoryChart,
    /// Chart of one completed session, by its index in the record.
    SessionDetail(usize),
}

} // verus!
