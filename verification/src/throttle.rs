//! Throttle-reason decisions: locating the graphics-tile directory and
//! assembling the throttle flags the OS layer read from its reason files.

use vstd::prelude::*;

use crate::strutil::spec_trim;
use crate::strutil::str_eq;
use crate::strutil::str_trim;
use crate::types::ThrottleInfo;

verus! {

/// Which candidate graphics-tile directories exist for a card, as probed by
/// the OS layer.
#[derive(Debug, Clone, Copy, PartialEq, Eq, Structural)]
pub struct GtPathProbe {
    /// Whether the per-tile directory (gt/gt0) exists.
    pub gt0_exists: bool,
    /// Whether the bare tile directory (gt) exists.
    pub gt_exists: bool,
    /// Whether the device-level tile directory (device/gt) exists.
    pub device_gt_exists: bool,
}

/// The graphics-tile path for a card: the per-tile directory first, then the
/// bare one of older kernels, then the device-level one.
pub open spec fn spec_gt_path(card_id: Seq<char>, probe: GtPathProbe) -> Option<Seq<char>> {
    if probe.gt0_exists {
        Some("/sys/class/drm/"@ + card_id + "/gt/gt0"@)
    } else if probe.gt_exists {
        Some("/sys/class/drm/"@ + card_id + "/gt"@)
    } else if probe.device_gt_exists {
        Some("/sys/class/drm/"@ + card_id + "/device/gt"@)
    } else {
        None
    }
}

/// Find the graphics-tile directory for a card, given which candidates the
/// OS layer saw.
pub fn find_gt_path(card_id: &str, probe: &GtPathProbe) -> (r: Option<String>)
    ensures
        (r matches Some(p) ==> Some(p@) == spec_gt_path(card_id@, *probe)),
        (r is None ==> spec_gt_path(card_id@, *probe) is None),
{
    let base: String = "/sys/class/drm/".to_owned();
    if probe.gt0_exists {
        Some(base.concat(card_id).concat("/gt/gt0"))
    } else if probe.gt_exists {
        Some(base.concat(card_id).concat("/gt"))
    } else if probe.device_gt_exists {
        Some(base.concat(card_id).concat("/device/gt"))
    } else {
        None
    }
}

/// Whether a throttle-reason file reports the reason active: its trimmed
/// contents are exactly "1".
pub fn parse_throttle_text(text: &str) -> (r: bool)
    ensures
        r == (spec_trim(text@) == "1"@),
{
    let trimmed = str_trim(text);
    str_eq(trimmed.as_str(), "1")
}

/// The active flags of the throttle-reason files the OS layer could read:
/// each flag is present when its file existed.
#[derive(Debug, Clone, Copy, PartialEq, Eq, Structural)]
pub struct ThrottleReadings {
    /// The general status reason, if its file existed.
    pub status: Option<bool>,
    /// The power-limit reason, if its file existed.
    pub power_limit: Option<bool>,
    /// The thermal reason, if its file existed.
    pub thermal: Option<bool>,
    /// The PROCHOT reason, if its file existed.
    pub prochot: Option<bool>,
    /// The running-average thermal-limit reason, if its file existed.
    pub ratl: Option<bool>,
    /// The voltage-regulator thermal reason, if its file existed.
    pub vr_thermal: Option<bool>,
    /// The voltage-regulator current reason, if its file existed.
    pub vr_tdc: Option<bool>,
}

/// The flag a reading contributes: inactive when its file was absent.
pub open spec fn spec_flag(reading: Option<bool>) -> bool {
    match reading {
        Some(b) => b,
        None => false,
    }
}

/// Assemble the throttle information from the reason readings. Each reason
/// field carries its file's flag (inactive when the file was absent), and
/// the overall throttled flag is set exactly when any reason is active.
pub fn read_throttle_info(readings: &ThrottleReadings) -> (r: ThrottleInfo)
    ensures
        r.status == spec_flag(readings.status),
        r.power_limit == spec_flag(readings.power_limit),
        r.thermal == spec_flag(readings.thermal),
        r.prochot == spec_flag(readings.prochot),
        r.ratl == spec_flag(readings.ratl),
        r.vr_thermal == spec_flag(readings.vr_thermal),
        r.vr_tdc == spec_flag(readings.vr_tdc),
        r.is_throttled == (r.status || r.power_limit || r.thermal || r.prochot || r.ratl
            || r.vr_thermal || r.vr_tdc),
        r.is_throttled == r.spec_any(),
{
    let status = readings.status.unwrap_or(false);
    let power_limit = readings.power_limit.unwrap_or(false);
    let thermal = readings.thermal.unwrap_or(false);
    let prochot = readings.prochot.unwrap_or(false);
    let ratl = readings.ratl.unwrap_or(false);
    let vr_thermal = readings.vr_thermal.unwrap_or(false);
    let vr_tdc = readings.vr_tdc.unwrap_or(false);
    let is_throttled = status || power_limit || thermal || prochot || ratl || vr_thermal || vr_tdc;
    ThrottleInfo {
        is_throttled,
        status,
        power_limit,
        thermal,
        prochot,
        ratl,
        vr_thermal,
        vr_tdc,
    }
}

/// Throttle reader for continuous monitoring: the card id and its
/// graphics-tile directory, when one exists.
#[derive(Debug, Clone)]
pub struct ThrottleReader {
    /// Card id this reader belongs to.
    pub card_id: String,
    /// The graphics-tile directory holding the reason files, if any.
    pub gt_path: Option<String>,
}

impl ThrottleReader {
    /// Create a throttle reader for a card, given which tile directories the
    /// OS layer saw.
    pub fn new(card_id: &str, probe: &GtPathProbe) -> (r: Self)
        ensures
            r.card_id@ == card_id@,
            (r.gt_path matches Some(p) ==> Some(p@) == spec_gt_path(card_id@, *probe)),
            (r.gt_path is None ==> spec_gt_path(card_id@, *probe) is None),
    {
        ThrottleReader { card_id: card_id.to_owned(), gt_path: find_gt_path(card_id, probe) }
    }

    /// Whether throttle monitoring is available.
    pub fn is_available(&self) -> (r: bool)
        ensures
            r == (self.gt_path is Some),
    {
        self.gt_path.is_some()
    }

    /// Assemble the current throttle information from the reason readings;
    /// nothing when no tile directory was found.
    pub fn read(&self, readings: &ThrottleReadings) -> (r: Option<ThrottleInfo>)
        ensures
            self.gt_path is None ==> r is None,
            self.gt_path is Some ==> (r matches Some(info) && info.status == spec_flag(
                readings.status,
            ) && info.power_limit == spec_flag(readings.power_limit) && info.thermal == spec_flag(
                readings.thermal,
            ) && info.prochot == spec_flag(readings.prochot) && info.ratl == spec_flag(
                readings.ratl,
            ) && info.vr_thermal == spec_flag(readings.vr_thermal) && info.vr_tdc == spec_flag(
                readings.vr_tdc,
            ) && info.is_throttled == info.spec_any()),
    {
        if self.gt_path.is_some() {
            Some(read_throttle_info(readings))
        } else {
            None
        }
    }
}

} // verus!
