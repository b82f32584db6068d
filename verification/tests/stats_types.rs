use intel_gpu_stats::types::DrmClient;
use intel_gpu_stats::types::EngineStats;
use intel_gpu_stats::types::EngineUtilization;
use intel_gpu_stats::types::FrequencyStats;
use intel_gpu_stats::types::GpuStats;
use intel_gpu_stats::types::PowerStats;
use intel_gpu_stats::types::Rc6Stats;
use intel_gpu_stats::types::TemperatureStats;
use intel_gpu_stats::types::ThrottleInfo;

#[test]
fn test_version() {
    assert!(!intel_gpu_stats::version().is_empty());
}

#[test]
fn test_platform_support() {
    let status = intel_gpu_stats::platform_support_status();
    assert!(!status.is_empty());
    assert!(intel_gpu_stats::is_platform_supported());
}

#[test]
fn test_engine_utilization() {
    // 50.00%, 10.00% and 5.00%, in hundredths of a percent.
    let util = EngineUtilization::new(5000, 1000, 500);
    assert!(!util.is_idle());
    assert!(!util.is_busy());
}

#[test]
fn test_engine_utilization_bounds() {
    let idle = EngineUtilization::new(9, 0, 0);
    assert!(idle.is_idle());
    let busy = EngineUtilization::new(9001, 0, 0);
    assert!(busy.is_busy());
}

#[test]
fn test_frequency_stats() {
    let freq = FrequencyStats::new(1000, 1200);
    assert!((freq.efficiency() as f64 - 83.33).abs() < 1.0);
}

#[test]
fn test_frequency_efficiency_zero_requested() {
    let freq = FrequencyStats::new(500, 0);
    assert_eq!(freq.efficiency(), 0);
}

#[test]
fn test_power_stats() {
    // 15.5 W and 45 W, in milliwatts.
    let stats = PowerStats::new(15500, Some(45000));
    assert_eq!(stats.gpu_milliwatts, 15500);
    assert_eq!(stats.package_milliwatts.unwrap(), 45000);
}

#[test]
fn test_temperature_stats() {
    // 45, 85 and 95 degrees Celsius, in millidegrees.
    let temp = TemperatureStats::new(45000);
    assert!(!temp.is_high());
    assert!(!temp.is_critical());

    let temp = TemperatureStats::new(85000);
    assert!(temp.is_high());
    assert!(!temp.is_critical());

    let temp = TemperatureStats::new(95000);
    assert!(temp.is_high());
    assert!(temp.is_critical());
}

#[test]
fn test_temperature_with_fan() {
    let temp = TemperatureStats::with_fan(60000, 1800);
    assert_eq!(temp.gpu_millicelsius, 60000);
    assert_eq!(temp.fan_rpm, Some(1800));
}

#[test]
fn test_throttle_info_default() {
    let info = ThrottleInfo::new();
    assert!(!info.any_throttling());
    assert!(!info.is_throttled);
}

#[test]
fn test_throttle_info_any() {
    let mut info = ThrottleInfo::new();
    assert!(!info.any_throttling());

    info.thermal = true;
    assert!(info.any_throttling());

    info.thermal = false;
    info.power_limit = true;
    assert!(info.any_throttling());
}

#[test]
fn test_drm_client() {
    let mut client = DrmClient::new(1234, "test".to_string());
    client.video_ns = 1000;
    assert!(client.is_using_quicksync());
    assert_eq!(client.total_usage_ns(), 1000);

    client.render_ns = 500;
    assert_eq!(client.total_usage_ns(), 1500);
}

#[test]
fn test_drm_client_total_saturates() {
    let mut client = DrmClient::new(1, "big".to_string());
    client.render_ns = u64::MAX;
    client.video_ns = 10;
    assert_eq!(client.total_usage_ns(), u64::MAX);
}

#[test]
fn test_gpu_stats_new_is_zeroed() {
    let stats = GpuStats::new(42, 0);
    assert_eq!(stats.timestamp_ns, 42);
    assert_eq!(stats.sample_duration_ns, 0);
    assert_eq!(stats.engines.render.busy_centipercent, 0);
    assert!(stats.engines.compute.is_none());
    assert_eq!(stats.frequency.actual_mhz, 0);
    assert!(stats.power.is_none());
    assert!(stats.rc6.is_none());
    assert!(stats.temperature.is_none());
    assert!(stats.throttle.is_none());
}

#[test]
fn test_max_and_quicksync_utilization() {
    let stats = EngineStats {
        render: EngineUtilization::new(1000, 0, 0),
        video: EngineUtilization::new(4000, 0, 0),
        video_enhance: EngineUtilization::new(2500, 0, 0),
        blitter: EngineUtilization::new(500, 0, 0),
        compute: Some(EngineUtilization::new(7000, 0, 0)),
    };
    assert_eq!(stats.max_utilization(), 7000);
    assert_eq!(stats.quicksync_utilization(), 4000);
}

#[test]
fn test_rc6_active_percent() {
    let rc6 = Rc6Stats::new(7500);
    assert_eq!(rc6.active_percent(), 2500);
}
