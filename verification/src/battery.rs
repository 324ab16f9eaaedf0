//! Battery readings: the charging state and one telemetry sample.

use vstd::prelude::*;
use crate::text::same_text;

verus! {

/// Battery charging state.
#[derive(Debug, Clone, Copy, PartialEq, Eq, Structural)]
pub enum BatteryStatus {
    Charging,
    Discharging,
    NotCharging,
    Full,
    Unknown,
}

/// One telemetry reading of the battery.
#[derive(Debug, Clone, Copy, PartialEq, Eq, Structural)]
pub struct BatterySample {
    /// Instant of the reading, in milliseconds since the Unix epoch.
    pub timestamp: i64,
    /// Charge level in percent.
    pub capacity: i64,
    /// Power flow in microwatts: positive while charging, negative while
    /// discharging.
    pub power_uw: i64,
    pub status: BatteryStatus,
    /// Energy now stored, in microwatt-hours.
    pub energy_now_uwh: i64,
    /// Energy stored when full, in microwatt-hours.
    pub energy_full_uwh: i64,
    /// Voltage in microvolts.
    pub voltage_uv: i64,
}

impl BatteryStatus {
    /// The status that a text of the kernel's `status` attribute names;
    /// `Unknown` for any text but the four that are known.
    pub open spec fn from_text(text: Seq<char>) -> BatteryStatus {
        if text == "Charging"@ {
            BatteryStatus::Charging
        } else if text == "Discharging"@ {
            BatteryStatus::Discharging
        } else if text == "Not charging"@ {
            BatteryStatus::NotCharging
        } else if text == "Full"@ {
            BatteryStatus::Full
        } else {
            BatteryStatus::Unknown
        }
    }

    /// The text that names a status.
    pub open spec fn label_text(self) -> Seq<char> {
        match self {
            BatteryStatus::Charging => "Charging"@,
            BatteryStatus::Discharging => "Discharging"@,
            BatteryStatus::NotCharging => "Not charging"@,
            BatteryStatus::Full => "Full"@,
            BatteryStatus::Unknown => "Unknown"@,
        }
    }

    /// Reading the name of a status gives that status back.
    pub proof fn lemma_label_round_trip(self)
        ensures
            Self::from_text(self.label_text()) == self,
    {
        reveal_strlit("Charging");
        reveal_strlit("Discharging");
        reveal_strlit("Not charging");
        reveal_strlit("Full");
        reveal_strlit("Unknown");
        assert("Charging"@.len() == 8);
        assert("Discharging"@.len() == 11);
        assert("Not charging"@.len() == 12);
        assert("Full"@.len() == 4);
        assert("Unknown"@.len() == 7);
    }

    /// Reads a status from the text of the kernel's `status` attribute.
    pub fn parse(text: &str) -> (status: BatteryStatus)
        ensures
            status == Self::from_text(text@),
    {
        if same_text(text, "Charging") {
            BatteryStatus::Charging
        } else if same_text(text, "Discharging") {
            BatteryStatus::Discharging
        } else if same_text(text, "Not charging") {
            BatteryStatus::NotCharging
        } else if same_text(text, "Full") {
            BatteryStatus::Full
        } else {
            BatteryStatus::Unknown
        }
    }

    /// The name of the status, as it is shown.
    pub fn label(&self) -> (text: String)
        ensures
            text@ == self.label_text(),
    {
        match self {
            BatteryStatus::Charging => "Charging".to_owned(),
            BatteryStatus::Discharging => "Discharging".to_owned(),
            BatteryStatus::NotCharging => "Not charging".to_owned(),
            BatteryStatus::Full => "Full".to_owned(),
            BatteryStatus::Unknown => "Unknown".to_owned(),
        }
    }

    /// Whether the battery is taking charge.
    pub fn is_charging(&self) -> (b: bool)
        ensures
            b == (*self == BatteryStatus::Charging),
    {
        match self {
            BatteryStatus::Charging => true,
            _ => false,
        }
    }
}

} // verus!
