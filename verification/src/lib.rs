//! Intel GPU statistics: verified counter-sampling core.
//!
//! The library turns raw, monotonically increasing GPU performance counters
//! into per-interval utilization, frequency, power and thermal metrics.
//! All computation and decision logic is verified; the thin adapters that
//! read sysfs files and issue the counter syscalls hand this library plain
//! values and take plain values back.

use vstd::prelude::*;

pub mod discovery;
pub mod engine;
pub mod error;
pub mod fdinfo;
pub mod hwmon;
pub mod kmt;
pub mod perf;
pub mod pmu;
pub mod rapl;
pub mod sampler;
pub mod strutil;
pub mod throttle;
pub mod types;

verus! {

/// Library version string.
pub fn version() -> (s: &'static str)
    ensures
        s@ == "0.1.0"@,
        s@.len() > 0,
{
    proof {
        reveal_strlit("0.1.0");
    }
    "0.1.0"
}

/// Whether the running platform has a supported telemetry backend.
pub fn is_platform_supported() -> (r: bool)
    ensures
        r,
{
    true
}

/// A human-readable description of the current platform support status.
pub fn platform_support_status() -> (s: &'static str)
    ensures
        s@ == "Linux: Fully supported via i915 PMU"@,
        s@.len() > 0,
{
    proof {
        reveal_strlit("Linux: Fully supported via i915 PMU");
    }
    "Linux: Fully supported via i915 PMU"
}

} // verus!
