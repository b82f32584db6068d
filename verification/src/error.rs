//! Error types for GPU statistics operations.

use vstd::prelude::*;

verus! {

/// Errors that can occur when working with Intel GPU statistics.
///
/// Operating-system failures are carried as the raw errno value together
/// with a descriptive message, so that callers can still branch on the
/// underlying cause.
#[derive(Debug, Clone)]
pub enum Error {
    /// No Intel GPU was found on this system.
    NoGpuFound,
    /// The specified GPU device was not found.
    DeviceNotFound {
        /// The device path or id that was not found.
        path: String,
    },
    /// The performance-monitoring unit of the GPU driver is not available.
    PmuNotAvailable,
    /// A specific counter event is not supported by this GPU or driver.
    EventNotSupported {
        /// The event name that is not supported.
        event: String,
    },
    /// Permission denied when accessing GPU statistics.
    PermissionDenied {
        /// Description of the permission error.
        message: String,
    },
    /// Error opening a performance counter.
    PerfEventOpen {
        /// The event that failed to open.
        event: String,
        /// The underlying OS error number.
        errno: i32,
    },
    /// Error reading from an open performance counter.
    PerfEventRead {
        /// The event whose read failed.
        event: String,
        /// The underlying OS error number.
        errno: i32,
    },
    /// Error parsing sysfs data.
    SysfsParse {
        /// The sysfs path that failed to parse.
        path: String,
        /// Description of the parse error.
        message: String,
    },
    /// The GPU was disconnected or became unavailable.
    GpuUnavailable,
    /// Sampling is already active.
    SamplingAlreadyActive,
    /// Sampling is not active.
    SamplingNotActive,
    /// Invalid configuration.
    InvalidConfig {
        /// Description of the configuration error.
        message: String,
    },
    /// The platform is not supported.
    PlatformNotSupported,
    /// An engine instance was not found.
    EngineNotFound {
        /// The engine class.
        class: u16,
        /// The engine instance.
        instance: u16,
    },
}

impl Error {
    /// Whether this error is due to insufficient permissions.
    pub fn is_permission_error(&self) -> (r: bool)
        ensures
            r == (*self is PermissionDenied),
    {
        match self {
            Error::PermissionDenied { .. } => true,
            _ => false,
        }
    }

    /// Whether the error indicates a missing GPU.
    pub fn is_gpu_missing(&self) -> (r: bool)
        ensures
            r == (*self is NoGpuFound || *self is DeviceNotFound || *self is GpuUnavailable),
    {
        match self {
            Error::NoGpuFound | Error::DeviceNotFound { .. } | Error::GpuUnavailable => true,
            _ => false,
        }
    }

    /// Create a permission-denied error with the given description.
    pub fn permission_denied(message: String) -> (r: Self)
        ensures
            r matches Error::PermissionDenied { message: m } && m == message,
    {
        Error::PermissionDenied { message }
    }

    /// Create a sysfs parse error.
    pub fn sysfs_parse(path: String, message: String) -> (r: Self)
        ensures
            r matches Error::SysfsParse { path: p, message: m } && p == path && m == message,
    {
        Error::SysfsParse { path, message }
    }
}

} // verus!
