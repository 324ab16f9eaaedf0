//! Battery history engine.
//!
//! The crate keeps a bounded history of power-supply samples, detects charge
//! sessions in it, and slices the series by a zoomable time window.  Every
//! quantity is an integer: timestamps and chart positions are milliseconds,
//! charge levels are percent, and power, energy and voltage are kept in the
//! micro-units in which the kernel reports them.

pub mod text;
pub mod battery;
pub mod reader;
pub mod session;
pub mod history;
pub mod viewport;
pub mod chart;
pub mod screen;
pub mod monitor;
pub mod display;
