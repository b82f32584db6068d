//! Hardware-monitor selection and temperature parsing.
//!
//! The OS layer hands this module a snapshot of the hardware-monitor
//! enumeration root — entry paths, device symlink targets, name-file
//! contents and which sensor files exist — and the raw sensor texts; the
//! selection of the GPU's monitor and the parsing of its readings are
//! verified here.

use vstd::prelude::*;

use crate::strutil::parse_i64_dec;
use crate::strutil::parse_u64_dec;
use crate::strutil::spec_contains;
use crate::strutil::spec_parse_i64_dec;
use crate::strutil::spec_parse_u64_dec;
use crate::strutil::spec_trim;
use crate::strutil::str_contains;
use crate::strutil::str_eq;
use crate::strutil::str_trim;
use crate::types::TemperatureStats;

verus! {

/// What the OS layer saw for one entry of the hardware-monitor root.
#[derive(Debug, Clone)]
pub struct HwmonEntry {
    /// The entry's own path.
    pub path: String,
    /// Target of the entry's device symlink, if readable.
    pub device_link: Option<String>,
    /// Contents of the entry's name file, if readable.
    pub name_text: Option<String>,
    /// Whether the entry has a temperature input file.
    pub has_temp_input: bool,
    /// Whether the entry has a fan input file.
    pub has_fan_input: bool,
    /// Whether the entry has a power input file.
    pub has_power_input: bool,
}

/// Whether an entry belongs to the GPU by bus address: the GPU's bus path is
/// known and occurs in the entry's device symlink target.
pub open spec fn spec_hwmon_matches_pci(e: HwmonEntry, pci_path: Seq<char>) -> bool {
    pci_path.len() > 0 && (e.device_link matches Some(t) && spec_contains(t@, pci_path))
}

/// Whether an entry is a GPU monitor by name: its name file says "i915" or
/// "xe" and it has a temperature input to confirm it monitors a GPU.
pub open spec fn spec_hwmon_named_gpu(e: HwmonEntry) -> bool {
    &&& (e.name_text matches Some(n) && (spec_trim(n@) == "i915"@ || spec_trim(n@) == "xe"@))
    &&& e.has_temp_input
}

/// Whether an entry is selected as the GPU's monitor.
pub open spec fn spec_hwmon_selected(e: HwmonEntry, pci_path: Seq<char>) -> bool {
    spec_hwmon_matches_pci(e, pci_path) || spec_hwmon_named_gpu(e)
}

/// Find the GPU's hardware monitor: the first entry that either matches the
/// GPU's bus address or carries a GPU driver name with a temperature input.
pub fn find_gpu_hwmon(entries: &Vec<HwmonEntry>, pci_path: &str) -> (r: Option<usize>)
    ensures
        r matches Some(ix) ==> ix < entries@.len() && spec_hwmon_selected(
            entries@[ix as int],
            pci_path@,
        ) && forall|k: int|
            0 <= k < ix ==> !spec_hwmon_selected(#[trigger] entries@[k], pci_path@),
        r is None ==> forall|k: int|
            0 <= k < entries@.len() ==> !spec_hwmon_selected(#[trigger] entries@[k], pci_path@),
{
    let n = entries.len();
    let pci_len = pci_path.unicode_len();
    let mut i: usize = 0;
    while i < n
        invariant
            n == entries@.len(),
            pci_len == pci_path@.len(),
            i <= n,
            forall|k: int| 0 <= k < i ==> !spec_hwmon_selected(#[trigger] entries@[k], pci_path@),
        decreases n - i,
    {
        let e = &entries[i];
        let by_pci = pci_len > 0 && (match &e.device_link {
            Some(t) => str_contains(t.as_str(), pci_path),
            None => false,
        });
        let by_name = (match &e.name_text {
            Some(n_text) => {
                let trimmed = str_trim(n_text.as_str());
                str_eq(trimmed.as_str(), "i915") || str_eq(trimmed.as_str(), "xe")
            },
            None => false,
        }) && e.has_temp_input;
        if by_pci || by_name {
            return Some(i);
        }
        i = i + 1;
    }
    None
}

/// The temperature encoded by the sensor texts: the temperature file holds
/// millidegrees Celsius, and a readable fan file adds the fan speed in RPM.
/// Nothing when the temperature text does not parse.
pub open spec fn spec_read_temperature(
    temp_text: Seq<char>,
    fan_text: Option<Seq<char>>,
) -> Option<TemperatureStats> {
    match spec_parse_i64_dec(spec_trim(temp_text)) {
        Some(millicelsius) => {
            let fan_rpm = match fan_text {
                Some(f) => match spec_parse_u64_dec(spec_trim(f)) {
                    Some(v) => if v <= u32::MAX {
                        Some(v as u32)
                    } else {
                        None
                    },
                    None => None,
                },
                None => None,
            };
            Some(TemperatureStats { gpu_millicelsius: millicelsius, fan_rpm })
        },
        None => None,
    }
}

/// Parse a temperature reading (and fan speed, when its text is given) out
/// of the monitor's sensor files.
pub fn read_temperature(temp_text: &str, fan_text: Option<&str>) -> (r: Option<TemperatureStats>)
    ensures
        r == spec_read_temperature(temp_text@, match fan_text {
            Some(f) => Some(f@),
            None => None,
        }),
{
    let trimmed = str_trim(temp_text);
    match parse_i64_dec(trimmed.as_str()) {
        Some(millicelsius) => {
            let fan_rpm = match fan_text {
                Some(f) => {
                    let f_trimmed = str_trim(f);
                    match parse_u64_dec(f_trimmed.as_str()) {
                        Some(v) => if v <= u32::MAX as u64 {
                            Some(v as u32)
                        } else {
                            None
                        },
                        None => None,
                    }
                },
                None => None,
            };
            Some(TemperatureStats { gpu_millicelsius: millicelsius, fan_rpm })
        },
        None => None,
    }
}

/// The GPU's hardware-monitor reader: the selected monitor's path and
/// whether it offers a fan input.
#[derive(Debug, Clone)]
pub struct HwmonReader {
    /// Path of the selected monitor, if one was found.
    pub hwmon_path: Option<String>,
    /// Whether the selected monitor has a fan input.
    pub fan_available: bool,
}

impl HwmonReader {
    /// Select the GPU's hardware monitor from the enumeration snapshot.
    pub fn new(entries: &Vec<HwmonEntry>, pci_path: &str) -> (r: Self)
        ensures
            (exists|k: int|
                0 <= k < entries@.len() && spec_hwmon_selected(
                    #[trigger] entries@[k],
                    pci_path@,
                )) ==> (r.hwmon_path matches Some(p) && exists|k: int|
                0 <= k < entries@.len() && spec_hwmon_selected(#[trigger] entries@[k], pci_path@)
                    && p@ == entries@[k].path@ && r.fan_available == entries@[k].has_fan_input),
            !(exists|k: int|
                0 <= k < entries@.len() && spec_hwmon_selected(
                    #[trigger] entries@[k],
                    pci_path@,
                )) ==> r.hwmon_path is None && !r.fan_available,
    {
        match find_gpu_hwmon(entries, pci_path) {
            Some(ix) => {
                let e = &entries[ix];
                proof {
                    assert(spec_hwmon_selected(entries@[ix as int], pci_path@));
                }
                HwmonReader { hwmon_path: Some(e.path.clone()), fan_available: e.has_fan_input }
            },
            None => HwmonReader { hwmon_path: None, fan_available: false },
        }
    }

    /// Whether a hardware monitor is available for this GPU.
    pub fn is_available(&self) -> (r: bool)
        ensures
            r == (self.hwmon_path is Some),
    {
        self.hwmon_path.is_some()
    }

    /// Whether fan speed monitoring is available.
    pub fn has_fan(&self) -> (r: bool)
        ensures
            r == self.fan_available,
    {
        self.fan_available
    }

    /// Parse the current temperature (and fan speed) readings; nothing when
    /// no monitor was selected.
    pub fn read(&self, temp_text: Option<&str>, fan_text: Option<&str>) -> (r: Option<
        TemperatureStats,
    >)
        ensures
            self.hwmon_path is None ==> r is None,
            (self.hwmon_path is Some && temp_text is None) ==> r is None,
            self.hwmon_path is Some ==> (temp_text matches Some(t) ==> r == spec_read_temperature(
                t@,
                match fan_text {
                    Some(f) => Some(f@),
                    None => None,
                },
            )),
    {
        if self.hwmon_path.is_none() {
            return None;
        }
        match temp_text {
            Some(t) => read_temperature(t, fan_text),
            None => None,
        }
    }
}

} // verus!
