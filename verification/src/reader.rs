//! Reading a battery from the attribute files of its power-supply device.
//!
//! A reader holds the text of the files as they were read; reading them
//! from disk is the caller's business.  The kernel reports power, energy
//! and voltage in micro-units, and the charge level in percent.

use vstd::prelude::*;
use vstd::string::StringExecFns;
use crate::battery::{BatterySample, BatteryStatus};
use crate::text::{parse_i64, parsed_i64, same_text, trim, trimmed};

verus! {

/// One attribute file of a power-supply device.
#[derive(Debug)]
pub struct SysfsFile {
    /// Name of the file within the device directory.
    pub name: String,
    /// What the file held.
    pub contents: String,
}

/// The mathematical value of a [`SysfsFile`].
pub struct FileModel {
    pub name: Seq<char>,
    pub contents: Seq<char>,
}

impl View for SysfsFile {
    type V = FileModel;

    open spec fn view(&self) -> FileModel {
        FileModel { name: self.name@, contents: self.contents@ }
    }
}

/// The values of a sequence of files.
pub open spec fn file_models(files: Seq<SysfsFile>) -> Seq<FileModel> {
    Seq::new(files.len(), |i: int| files[i]@)
}

/// What the first file of the given name holds.
pub open spec fn contents_of(files: Seq<FileModel>, name: Seq<char>) -> Option<Seq<char>>
    decreases files.len(),
{
    if files.len() == 0 {
        None
    } else if files.first().name == name {
        Some(files.first().contents)
    } else {
        contents_of(files.drop_first(), name)
    }
}

/// The power flow with its sign: as reported while charging, negated
/// while discharging (and cut back to the range of `i64`), and 0 in any
/// other state.
pub open spec fn signed_power(status: BatteryStatus, power: i64) -> i64 {
    match status {
        BatteryStatus::Charging => power,
        BatteryStatus::Discharging => if power == i64::MIN {
            i64::MAX
        } else {
            (-power) as i64
        },
        _ => 0,
    }
}

/// The value of an optional integer, 0 where there is none.
pub open spec fn or_zero(value: Option<i64>) -> i64 {
    match value {
        Some(v) => v,
        None => 0,
    }
}

/// The value of an optional text, the empty text where there is none.
pub open spec fn or_empty(text: Option<Seq<char>>) -> Seq<char> {
    match text {
        Some(t) => t,
        None => Seq::empty(),
    }
}

/// The mathematical value of a [`BatteryReader`].
pub struct ReaderModel {
    /// Name of the device directory, where it has one.
    pub device: Option<Seq<char>>,
    /// The attribute files that were read.
    pub files: Seq<FileModel>,
}

impl ReaderModel {
    /// The text of an attribute, without surrounding whitespace; `None`
    /// where the file was not read.
    pub open spec fn text(self, name: Seq<char>) -> Option<Seq<char>> {
        match contents_of(self.files, name) {
            Some(contents) => Some(trimmed(contents)),
            None => None,
        }
    }

    /// The integer that an attribute writes; `None` where the file was not
    /// read or holds no integer.
    pub open spec fn integer(self, name: Seq<char>) -> Option<i64> {
        match self.text(name) {
            Some(text) => parsed_i64(text),
            None => None,
        }
    }

    /// Whether the device is a battery, by its `type` attribute.
    pub open spec fn is_battery(self) -> bool {
        self.text("type"@) == Some("Battery"@)
    }

    /// The sample that the attributes make at the instant `timestamp`.
    /// There is none without a charge level and a status; power, energy
    /// and voltage count as 0 where they cannot be read.
    pub open spec fn sample(self, timestamp: i64) -> Option<BatterySample> {
        match (self.integer("capacity"@), self.text("status"@)) {
            (Some(capacity), Some(status_text)) => {
                let status = BatteryStatus::from_text(status_text);
                Some(
                    BatterySample {
                        timestamp,
                        capacity,
                        power_uw: signed_power(status, or_zero(self.integer("power_now"@))),
                        status,
                        energy_now_uwh: or_zero(self.integer("energy_now"@)),
                        energy_full_uwh: or_zero(self.integer("energy_full"@)),
                        voltage_uv: or_zero(self.integer("voltage_now"@)),
                    },
                )
            },
            _ => None,
        }
    }

    /// The name under which the battery is shown: manufacturer and model,
    /// or, where neither is known, the name of the device directory, or
    /// `Battery`.
    pub open spec fn name(self) -> Seq<char> {
        let model = or_empty(self.text("model_name"@));
        let maker = or_empty(self.text("manufacturer"@));
        if model.len() == 0 && maker.len() == 0 {
            match self.device {
                Some(device) => device,
                None => "Battery"@,
            }
        } else {
            trimmed(maker + " "@ + model)
        }
    }
}

/// The attribute files of one battery.
#[derive(Debug)]
pub struct BatteryReader {
    device: Option<String>,
    files: Vec<SysfsFile>,
}

impl View for BatteryReader {
    type V = ReaderModel;

    closed spec fn view(&self) -> ReaderModel {
        ReaderModel {
            device: match self.device {
                Some(name) => Some(name@),
                None => None,
            },
            files: file_models(self.files@),
        }
    }
}

/// The value of an optional text.
pub open spec fn text_option_model(text: Option<String>) -> Option<Seq<char>> {
    match text {
        Some(t) => Some(t@),
        None => None,
    }
}

/// The trimmed contents of the first of `files` that has the given name.
fn find_text(files: &Vec<SysfsFile>, filename: &str) -> (text: Option<String>)
    ensures
        text_option_model(text) == (ReaderModel { device: None, files: file_models(files@) }).text(
            filename@,
        ),
{
    let ghost all = file_models(files@);
    let mut i: usize = 0;
    assert(all.skip(0) =~= all);
    while i < files.len()
        invariant
            i <= files@.len(),
            all == file_models(files@),
            contents_of(all, filename@) == contents_of(all.skip(i as int), filename@),
        decreases files@.len() - i,
    {
        let ghost rest = all.skip(i as int);
        assert(rest.first() == files@[i as int]@);
        assert(rest.drop_first() =~= all.skip(i + 1));
        if same_text(files[i].name.as_str(), filename) {
            return Some(trim(files[i].contents.as_str()));
        }
        i += 1;
    }
    assert(all.skip(i as int).len() == 0);
    None
}

impl BatteryReader {
    /// The reader of a device, if the device is a battery: if its `type`
    /// attribute reads `Battery`.
    pub fn new(device: Option<String>, files: Vec<SysfsFile>) -> (reader: Option<BatteryReader>)
        ensures
            match reader {
                Some(r) => {
                    &&& r@.is_battery()
                    &&& r@.device == text_option_model(device)
                    &&& r@.files == file_models(files@)
                },
                None => !(ReaderModel {
                    device: text_option_model(device),
                    files: file_models(files@),
                }).is_battery(),
            },
    {
        let kind = find_text(&files, "type");
        let found: bool = match kind {
            Some(text) => same_text(text.as_str(), "Battery"),
            None => false,
        };
        if found {
            Some(BatteryReader { device, files })
        } else {
            None
        }
    }

    /// The text of an attribute, without surrounding whitespace.
    pub fn read_sysfs_string(&self, filename: &str) -> (text: Option<String>)
        ensures
            text_option_model(text) == self@.text(filename@),
    {
        find_text(&self.files, filename)
    }

    /// The integer that an attribute writes.
    pub fn read_sysfs_i64(&self, filename: &str) -> (value: Option<i64>)
        ensures
            value == self@.integer(filename@),
    {
        match self.read_sysfs_string(filename) {
            Some(text) => parse_i64(text.as_str()),
            None => None,
        }
    }

    /// The integer that an attribute writes, or 0.
    fn read_or_zero(&self, filename: &str) -> (value: i64)
        ensures
            value == or_zero(self@.integer(filename@)),
    {
        match self.read_sysfs_i64(filename) {
            Some(v) => v,
            None => 0,
        }
    }

    /// The sample that the attributes make at the instant `timestamp`, in
    /// milliseconds since the Unix epoch.
    pub fn sample(&self, timestamp: i64) -> (sample: Option<BatterySample>)
        ensures
            sample == self@.sample(timestamp),
    {
        let capacity: i64 = match self.read_sysfs_i64("capacity") {
            Some(c) => c,
            None => {
                return None;
            },
        };
        let status: BatteryStatus = match self.read_sysfs_string("status") {
            Some(text) => BatteryStatus::parse(text.as_str()),
            None => {
                return None;
            },
        };
        let power: i64 = self.read_or_zero("power_now");
        let power_uw: i64 = match status {
            BatteryStatus::Charging => power,
            BatteryStatus::Discharging => if power == i64::MIN {
                i64::MAX
            } else {
                -power
            },
            _ => 0,
        };
        let energy_now_uwh: i64 = self.read_or_zero("energy_now");
        let energy_full_uwh: i64 = self.read_or_zero("energy_full");
        let voltage_uv: i64 = self.read_or_zero("voltage_now");
        Some(
            BatterySample {
                timestamp,
                capacity,
                power_uw,
                status,
                energy_now_uwh,
                energy_full_uwh,
                voltage_uv,
            },
        )
    }

    /// The name under which the battery is shown.
    pub fn battery_name(&self) -> (name: String)
        ensures
            name@ == self@.name(),
    {
        let model: String = match self.read_sysfs_string("model_name") {
            Some(text) => text,
            None => String::new(),
        };
        let maker: String = match self.read_sysfs_string("manufacturer") {
            Some(text) => text,
            None => String::new(),
        };
        if model.as_str().unicode_len() == 0 && maker.as_str().unicode_len() == 0 {
            match &self.device {
                Some(device) => device.clone(),
                None => "Battery".to_owned(),
            }
        } else {
            let mut joined: String = maker;
            joined.append(" ");
            joined.append(model.as_str());
            trim(joined.as_str())
        }
    }
}

} // verus!
