//! Data types for the GPU statistics snapshots.
//!
//! Percentages are held as hundredths of a percent (0 ..= 10_000 stands for
//! 0.00% ..= 100.00%), temperatures as millidegrees Celsius and power as
//! milliwatts, so that every field is a plain integer with exact contracts.

use vstd::prelude::*;

verus! {

/// One hundred percent, in hundredths of a percent.
pub const FULL_SCALE_CENTIPERCENT: u32 = 10000;

/// Intel GPU kernel driver type.
#[derive(Debug, Clone, Copy, PartialEq, Eq, Hash, Structural)]
pub enum GpuDriver {
    /// Legacy i915 driver.
    I915,
    /// Newer xe driver.
    Xe,
}

impl GpuDriver {
    /// The driver name as a string.
    pub fn name(&self) -> (s: &'static str)
        ensures
            *self is I915 ==> s@ == "i915"@,
            *self is Xe ==> s@ == "xe"@,
    {
        match self {
            GpuDriver::I915 => "i915",
            GpuDriver::Xe => "xe",
        }
    }
}

/// Information about a detected Intel GPU.
#[derive(Debug, Clone)]
pub struct GpuInfo {
    /// Unique identifier for this GPU (e.g., "card0").
    pub id: String,
    /// PCI device path.
    pub pci_path: String,
    /// Device name if available.
    pub device_name: Option<String>,
    /// PCI vendor ID (0x8086 for Intel).
    pub vendor_id: u16,
    /// PCI device ID.
    pub device_id: u16,
    /// DRM render node path (e.g., /dev/dri/renderD128).
    pub render_node: Option<String>,
    /// DRM card node path (e.g., /dev/dri/card0).
    pub card_node: Option<String>,
    /// Kernel driver in use.
    pub driver: Option<GpuDriver>,
}

impl GpuInfo {
    /// Whether this is an Intel GPU.
    pub fn is_intel(&self) -> (r: bool)
        ensures
            r == (self.vendor_id == 0x8086),
    {
        self.vendor_id == 0x8086
    }
}

/// Utilization of a single GPU engine, in hundredths of a percent.
#[derive(Debug, Clone, Copy, PartialEq, Eq, Structural)]
pub struct EngineUtilization {
    /// Time share the engine was actively processing (0 ..= 10_000).
    pub busy_centipercent: u32,
    /// Time share the engine was waiting for memory (0 ..= 10_000).
    pub wait_centipercent: u32,
    /// Time share the engine was waiting on semaphores (0 ..= 10_000).
    pub sema_centipercent: u32,
}

impl EngineUtilization {
    /// All three shares lie within 0% ..= 100%.
    pub open spec fn valid(&self) -> bool {
        self.busy_centipercent <= FULL_SCALE_CENTIPERCENT
            && self.wait_centipercent <= FULL_SCALE_CENTIPERCENT
            && self.sema_centipercent <= FULL_SCALE_CENTIPERCENT
    }

    /// Create a new utilization value from the three shares.
    pub fn new(busy_centipercent: u32, wait_centipercent: u32, sema_centipercent: u32) -> (r:
        Self)
        ensures
            r.busy_centipercent == busy_centipercent,
            r.wait_centipercent == wait_centipercent,
            r.sema_centipercent == sema_centipercent,
    {
        Self { busy_centipercent, wait_centipercent, sema_centipercent }
    }

    /// Whether this engine is idle (busy share below 0.1%).
    pub fn is_idle(&self) -> (r: bool)
        ensures
            r == (self.busy_centipercent < 10),
    {
        self.busy_centipercent < 10
    }

    /// Whether this engine is heavily loaded (busy share above 90%).
    pub fn is_busy(&self) -> (r: bool)
        ensures
            r == (self.busy_centipercent > 9000),
    {
        self.busy_centipercent > 9000
    }
}

impl Default for EngineUtilization {
    /// An idle engine: all shares zero.
    fn default() -> (r: Self)
        ensures
            r.busy_centipercent == 0,
            r.wait_centipercent == 0,
            r.sema_centipercent == 0,
    {
        Self { busy_centipercent: 0, wait_centipercent: 0, sema_centipercent: 0 }
    }
}

/// Utilization of all GPU engines.
#[derive(Debug, Clone)]
pub struct EngineStats {
    /// Render/3D engine.
    pub render: EngineUtilization,
    /// Video decode engine.
    pub video: EngineUtilization,
    /// Video enhance/encode engine.
    pub video_enhance: EngineUtilization,
    /// Blitter/copy engine.
    pub blitter: EngineUtilization,
    /// Compute engine (present only on hardware that advertises one).
    pub compute: Option<EngineUtilization>,
}

impl EngineStats {
    /// Every engine's shares lie within 0% ..= 100%.
    pub open spec fn valid(&self) -> bool {
        &&& self.render.valid()
        &&& self.video.valid()
        &&& self.video_enhance.valid()
        &&& self.blitter.valid()
        &&& (self.compute matches Some(c) ==> c.valid())
    }

    /// The busy share of the compute engine, or 0 when absent.
    pub open spec fn spec_compute_busy(&self) -> u32 {
        match self.compute {
            Some(c) => c.busy_centipercent,
            None => 0,
        }
    }

    /// The largest busy share over all engines.
    pub open spec fn spec_max_utilization(&self) -> u32 {
        let m1 = if self.render.busy_centipercent >= self.video.busy_centipercent {
            self.render.busy_centipercent
        } else {
            self.video.busy_centipercent
        };
        let m2 = if m1 >= self.video_enhance.busy_centipercent {
            m1
        } else {
            self.video_enhance.busy_centipercent
        };
        let m3 = if m2 >= self.blitter.busy_centipercent {
            m2
        } else {
            self.blitter.busy_centipercent
        };
        if m3 >= self.spec_compute_busy() {
            m3
        } else {
            self.spec_compute_busy()
        }
    }

    /// The overall maximum busy share across all engines, in hundredths of a percent.
    pub fn max_utilization(&self) -> (r: u32)
        ensures
            r == self.spec_max_utilization(),
    {
        let mut max: u32 = self.render.busy_centipercent;
        if self.video.busy_centipercent > max {
            max = self.video.busy_centipercent;
        }
        if self.video_enhance.busy_centipercent > max {
            max = self.video_enhance.busy_centipercent;
        }
        if self.blitter.busy_centipercent > max {
            max = self.blitter.busy_centipercent;
        }
        if let Some(compute) = &self.compute {
            if compute.busy_centipercent > max {
                max = compute.busy_centipercent;
            }
        }
        max
    }

    /// The Quick Sync busy share (the larger of video and video-enhance).
    pub fn quicksync_utilization(&self) -> (r: u32)
        ensures
            r == if self.video.busy_centipercent >= self.video_enhance.busy_centipercent {
                self.video.busy_centipercent
            } else {
                self.video_enhance.busy_centipercent
            },
    {
        if self.video.busy_centipercent >= self.video_enhance.busy_centipercent {
            self.video.busy_centipercent
        } else {
            self.video_enhance.busy_centipercent
        }
    }
}

impl Default for EngineStats {
    /// All engines idle, compute absent.
    fn default() -> (r: Self)
        ensures
            r.render == (EngineUtilization {
                busy_centipercent: 0,
                wait_centipercent: 0,
                sema_centipercent: 0,
            }),
            r.video == r.render,
            r.video_enhance == r.render,
            r.blitter == r.render,
            r.compute is None,
    {
        let zero = EngineUtilization { busy_centipercent: 0, wait_centipercent: 0, sema_centipercent: 0 };
        Self { render: zero, video: zero, video_enhance: zero, blitter: zero, compute: None }
    }
}

/// GPU frequency statistics.
#[derive(Debug, Clone, Copy, PartialEq, Eq, Structural)]
pub struct FrequencyStats {
    /// Actual current GPU frequency in MHz.
    pub actual_mhz: u32,
    /// Requested GPU frequency in MHz.
    pub requested_mhz: u32,
}

impl FrequencyStats {
    /// Create a new frequency value.
    pub fn new(actual_mhz: u32, requested_mhz: u32) -> (r: Self)
        ensures
            r.actual_mhz == actual_mhz,
            r.requested_mhz == requested_mhz,
    {
        Self { actual_mhz, requested_mhz }
    }

    /// The frequency efficiency, in whole percent: actual * 100 / requested,
    /// and 0 when no frequency was requested.
    pub fn efficiency(&self) -> (r: u64)
        ensures
            self.requested_mhz == 0 ==> r == 0,
            self.requested_mhz != 0 ==> r == (self.actual_mhz as int) * 100
                / (self.requested_mhz as int),
    {
        if self.requested_mhz == 0 {
            0
        } else {
            (self.actual_mhz as u64) * 100 / (self.requested_mhz as u64)
        }
    }
}

impl Default for FrequencyStats {
    /// Both frequencies zero.
    fn default() -> (r: Self)
        ensures
            r.actual_mhz == 0,
            r.requested_mhz == 0,
    {
        Self { actual_mhz: 0, requested_mhz: 0 }
    }
}

/// Power consumption statistics, in milliwatts.
#[derive(Debug, Clone, Copy, PartialEq, Eq, Structural)]
pub struct PowerStats {
    /// GPU power draw in milliwatts.
    pub gpu_milliwatts: u64,
    /// Package power draw in milliwatts, if available.
    pub package_milliwatts: Option<u64>,
}

impl PowerStats {
    /// Create a new power value.
    pub fn new(gpu_milliwatts: u64, package_milliwatts: Option<u64>) -> (r: Self)
        ensures
            r.gpu_milliwatts == gpu_milliwatts,
            r.package_milliwatts == package_milliwatts,
    {
        Self { gpu_milliwatts, package_milliwatts }
    }
}

/// Power-saving (RC6) state residency.
#[derive(Debug, Clone, Copy, PartialEq, Eq, Structural)]
pub struct Rc6Stats {
    /// Time share spent in the power-saving state (0 ..= 10_000).
    pub residency_centipercent: u32,
}

impl Rc6Stats {
    /// The residency share lies within 0% ..= 100%.
    pub open spec fn valid(&self) -> bool {
        self.residency_centipercent <= FULL_SCALE_CENTIPERCENT
    }

    /// Create a new residency value.
    pub fn new(residency_centipercent: u32) -> (r: Self)
        requires
            residency_centipercent <= FULL_SCALE_CENTIPERCENT,
        ensures
            r.residency_centipercent == residency_centipercent,
            r.valid(),
    {
        Self { residency_centipercent }
    }

    /// The active share: 100% minus the residency.
    pub fn active_percent(&self) -> (r: u32)
        requires
            self.valid(),
        ensures
            r == FULL_SCALE_CENTIPERCENT - self.residency_centipercent,
    {
        FULL_SCALE_CENTIPERCENT - self.residency_centipercent
    }
}

/// Engine class identifiers as defined by the kernel driver.
#[derive(Debug, Clone, Copy, PartialEq, Eq, Hash, Structural)]
pub enum EngineClass {
    /// Render/3D engine.
    Render,
    /// Copy/blitter engine.
    Copy,
    /// Video decode engine.
    Video,
    /// Video enhance/encode engine.
    VideoEnhance,
    /// Compute engine.
    Compute,
}

impl EngineClass {
    /// The numeric class identifier used in the counter config value.
    pub open spec fn spec_value(&self) -> u16 {
        match self {
            EngineClass::Render => 0,
            EngineClass::Copy => 1,
            EngineClass::Video => 2,
            EngineClass::VideoEnhance => 3,
            EngineClass::Compute => 4,
        }
    }

    /// The numeric class identifier used in the counter config value.
    pub fn value(&self) -> (v: u16)
        ensures
            v == self.spec_value(),
    {
        match self {
            EngineClass::Render => 0,
            EngineClass::Copy => 1,
            EngineClass::Video => 2,
            EngineClass::VideoEnhance => 3,
            EngineClass::Compute => 4,
        }
    }

    /// The engine class for a numeric value, if the value names one.
    pub fn from_u16(value: u16) -> (r: Option<Self>)
        ensures
            r matches Some(c) ==> c.spec_value() == value,
            value <= 4 ==> r is Some,
            value > 4 ==> r is None,
    {
        match value {
            0 => Some(EngineClass::Render),
            1 => Some(EngineClass::Copy),
            2 => Some(EngineClass::Video),
            3 => Some(EngineClass::VideoEnhance),
            4 => Some(EngineClass::Compute),
            _ => None,
        }
    }

    /// The display name for this engine class.
    pub fn name(&self) -> (s: &'static str)
        ensures
            s@.len() > 0,
            *self is Render ==> s@ == "Render/3D"@,
            *self is Copy ==> s@ == "Blitter"@,
            *self is Video ==> s@ == "Video"@,
            *self is VideoEnhance ==> s@ == "VideoEnhance"@,
            *self is Compute ==> s@ == "Compute"@,
    {
        match self {
            EngineClass::Render => {
                proof {
                    reveal_strlit("Render/3D");
                }
                "Render/3D"
            },
            EngineClass::Copy => {
                proof {
                    reveal_strlit("Blitter");
                }
                "Blitter"
            },
            EngineClass::Video => {
                proof {
                    reveal_strlit("Video");
                }
                "Video"
            },
            EngineClass::VideoEnhance => {
                proof {
                    reveal_strlit("VideoEnhance");
                }
                "VideoEnhance"
            },
            EngineClass::Compute => {
                proof {
                    reveal_strlit("Compute");
                }
                "Compute"
            },
        }
    }
}

/// Sample type identifiers for engine counters.
#[derive(Debug, Clone, Copy, PartialEq, Eq, Hash, Structural)]
pub enum SampleType {
    /// Engine busy time.
    Busy,
    /// Engine wait time.
    Wait,
    /// Engine semaphore wait time.
    Sema,
}

impl SampleType {
    /// The numeric sample-type identifier used in the counter config value.
    pub open spec fn spec_value(&self) -> u8 {
        match self {
            SampleType::Busy => 0,
            SampleType::Wait => 1,
            SampleType::Sema => 2,
        }
    }

    /// The numeric sample-type identifier used in the counter config value.
    pub fn value(&self) -> (v: u8)
        ensures
            v == self.spec_value(),
    {
        match self {
            SampleType::Busy => 0,
            SampleType::Wait => 1,
            SampleType::Sema => 2,
        }
    }

    /// The sample type for a numeric value, if the value names one.
    pub fn from_u8(value: u8) -> (r: Option<Self>)
        ensures
            r matches Some(t) ==> t.spec_value() == value,
            value <= 2 ==> r is Some,
            value > 2 ==> r is None,
    {
        match value {
            0 => Some(SampleType::Busy),
            1 => Some(SampleType::Wait),
            2 => Some(SampleType::Sema),
            _ => None,
        }
    }
}

/// GPU temperature statistics, in millidegrees Celsius.
#[derive(Debug, Clone, Copy, PartialEq, Eq, Structural)]
pub struct TemperatureStats {
    /// GPU temperature in millidegrees Celsius.
    pub gpu_millicelsius: i64,
    /// Fan speed in RPM, if available.
    pub fan_rpm: Option<u32>,
}

impl TemperatureStats {
    /// Create a new temperature value without fan data.
    pub fn new(gpu_millicelsius: i64) -> (r: Self)
        ensures
            r.gpu_millicelsius == gpu_millicelsius,
            r.fan_rpm is None,
    {
        Self { gpu_millicelsius, fan_rpm: None }
    }

    /// Create a new temperature value with fan speed.
    pub fn with_fan(gpu_millicelsius: i64, fan_rpm: u32) -> (r: Self)
        ensures
            r.gpu_millicelsius == gpu_millicelsius,
            r.fan_rpm == Some(fan_rpm),
    {
        Self { gpu_millicelsius, fan_rpm: Some(fan_rpm) }
    }

    /// Whether the temperature is critical (above 90 degrees Celsius).
    pub fn is_critical(&self) -> (r: bool)
        ensures
            r == (self.gpu_millicelsius > 90000),
    {
        self.gpu_millicelsius > 90000
    }

    /// Whether the temperature is high (above 80 degrees Celsius).
    pub fn is_high(&self) -> (r: bool)
        ensures
            r == (self.gpu_millicelsius > 80000),
    {
        self.gpu_millicelsius > 80000
    }
}

/// GPU throttling information.
#[derive(Debug, Clone, Copy, PartialEq, Eq, Structural)]
pub struct ThrottleInfo {
    /// Whether the GPU is currently throttled for any reason.
    pub is_throttled: bool,
    /// Throttled due to status/general reasons.
    pub status: bool,
    /// Throttled due to power limit (PL1).
    pub power_limit: bool,
    /// Throttled due to thermal limit.
    pub thermal: bool,
    /// Throttled due to the PROCHOT signal.
    pub prochot: bool,
    /// Throttled due to the running average thermal limit.
    pub ratl: bool,
    /// Throttled due to a voltage-regulator thermal limit.
    pub vr_thermal: bool,
    /// Throttled due to voltage-regulator thermal design current.
    pub vr_tdc: bool,
}

impl ThrottleInfo {
    /// Whether any throttle reason field is set.
    pub open spec fn spec_any(&self) -> bool {
        self.is_throttled || self.status || self.power_limit || self.thermal || self.prochot
            || self.ratl || self.vr_thermal || self.vr_tdc
    }

    /// Create a new value with no throttling.
    pub fn new() -> (r: Self)
        ensures
            !r.spec_any(),
    {
        Self {
            is_throttled: false,
            status: false,
            power_limit: false,
            thermal: false,
            prochot: false,
            ratl: false,
            vr_thermal: false,
            vr_tdc: false,
        }
    }

    /// Whether any throttling reason is active.
    pub fn any_throttling(&self) -> (r: bool)
        ensures
            r == self.spec_any(),
    {
        self.is_throttled || self.status || self.power_limit || self.thermal || self.prochot
            || self.ratl || self.vr_thermal || self.vr_tdc
    }
}

impl Default for ThrottleInfo {
    /// No throttling.
    fn default() -> (r: Self)
        ensures
            !r.spec_any(),
    {
        ThrottleInfo::new()
    }
}

/// Per-process (DRM client) GPU usage information.
#[derive(Debug, Clone)]
pub struct DrmClient {
    /// Process ID.
    pub pid: u32,
    /// Process name.
    pub name: String,
    /// Render/3D engine usage in nanoseconds.
    pub render_ns: u64,
    /// Copy/blitter engine usage in nanoseconds.
    pub copy_ns: u64,
    /// Video engine usage in nanoseconds.
    pub video_ns: u64,
    /// Video enhance engine usage in nanoseconds.
    pub video_enhance_ns: u64,
    /// Compute engine usage in nanoseconds.
    pub compute_ns: u64,
    /// Resident GPU memory in bytes.
    pub memory_bytes: u64,
}

impl DrmClient {
    /// The total usage over all engines, saturating at the largest
    /// representable value.
    pub open spec fn spec_total_usage_ns(&self) -> u64 {
        let total = self.render_ns + self.copy_ns + self.video_ns + self.video_enhance_ns
            + self.compute_ns;
        if total > u64::MAX {
            u64::MAX
        } else {
            total as u64
        }
    }

    /// Create a new client with the given identity and no recorded usage.
    pub fn new(pid: u32, name: String) -> (r: Self)
        ensures
            r.pid == pid,
            r.name == name,
            r.render_ns == 0,
            r.copy_ns == 0,
            r.video_ns == 0,
            r.video_enhance_ns == 0,
            r.compute_ns == 0,
            r.memory_bytes == 0,
    {
        Self {
            pid,
            name,
            render_ns: 0,
            copy_ns: 0,
            video_ns: 0,
            video_enhance_ns: 0,
            compute_ns: 0,
            memory_bytes: 0,
        }
    }

    /// Total engine usage across all engines, saturating on overflow.
    pub fn total_usage_ns(&self) -> (r: u64)
        ensures
            r == self.spec_total_usage_ns(),
    {
        self.render_ns.saturating_add(self.copy_ns).saturating_add(self.video_ns).saturating_add(
            self.video_enhance_ns,
        ).saturating_add(self.compute_ns)
    }

    /// Whether this client uses Quick Sync (video or video-enhance engines).
    pub fn is_using_quicksync(&self) -> (r: bool)
        ensures
            r == (self.video_ns > 0 || self.video_enhance_ns > 0),
    {
        self.video_ns > 0 || self.video_enhance_ns > 0
    }
}

/// Complete GPU statistics snapshot.
#[derive(Debug, Clone)]
pub struct GpuStats {
    /// Monotonic capture instant of this snapshot, in nanoseconds.
    pub timestamp_ns: u64,
    /// Time elapsed since the previous sample, in nanoseconds.
    pub sample_duration_ns: u64,
    /// Engine utilization statistics.
    pub engines: EngineStats,
    /// GPU frequency information.
    pub frequency: FrequencyStats,
    /// Power consumption, if available.
    pub power: Option<PowerStats>,
    /// Power-saving state residency, if available.
    pub rc6: Option<Rc6Stats>,
    /// Temperature information, if available.
    pub temperature: Option<TemperatureStats>,
    /// Throttle information, if available.
    pub throttle: Option<ThrottleInfo>,
}

impl GpuStats {
    /// Every percentage field lies within 0% ..= 100%.
    pub open spec fn valid(&self) -> bool {
        &&& self.engines.valid()
        &&& (self.rc6 matches Some(rc6) ==> rc6.valid())
    }

    /// All rate-based fields are exactly zero and all optional parts absent.
    pub open spec fn spec_is_zeroed(&self) -> bool {
        &&& self.engines.render == (EngineUtilization {
            busy_centipercent: 0,
            wait_centipercent: 0,
            sema_centipercent: 0,
        })
        &&& self.engines.video == self.engines.render
        &&& self.engines.video_enhance == self.engines.render
        &&& self.engines.blitter == self.engines.render
        &&& self.engines.compute is None
        &&& self.frequency.actual_mhz == 0
        &&& self.frequency.requested_mhz == 0
        &&& self.power is None
        &&& self.rc6 is None
        &&& self.temperature is None
        &&& self.throttle is None
    }

    /// Create a snapshot with the given capture instant and elapsed time,
    /// all engines idle and all optional parts absent.
    pub fn new(timestamp_ns: u64, sample_duration_ns: u64) -> (r: Self)
        ensures
            r.timestamp_ns == timestamp_ns,
            r.sample_duration_ns == sample_duration_ns,
            r.spec_is_zeroed(),
            r.valid(),
    {
        Self {
            timestamp_ns,
            sample_duration_ns,
            engines: EngineStats::default(),
            frequency: FrequencyStats::default(),
            power: None,
            rc6: None,
            temperature: None,
            throttle: None,
        }
    }
}

} // verus!
