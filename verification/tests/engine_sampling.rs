use intel_gpu_stats::engine::counter_delta;
use intel_gpu_stats::engine::util_centipercent;
use intel_gpu_stats::engine::EngineCounters;
use intel_gpu_stats::engine::EngineReading;
use intel_gpu_stats::engine::RawSample;
use intel_gpu_stats::engine::SamplingEngine;
use intel_gpu_stats::kmt::EngineTracker;
use intel_gpu_stats::sampler::BackgroundSampler;
use intel_gpu_stats::types::GpuDriver;

#[test]
fn test_counter_delta_saturates() {
    // A counter reset or wraparound yields 0, never an underflow.
    assert_eq!(counter_delta(100, 40), 60);
    assert_eq!(counter_delta(40, 100), 0);
    assert_eq!(counter_delta(0, u64::MAX), 0);
}

#[test]
fn test_util_centipercent_bounds() {
    // Shares stay within 0..=100% and an empty window yields 0.
    assert_eq!(util_centipercent(50, 100), 5000);
    assert_eq!(util_centipercent(200, 100), 10000);
    assert_eq!(util_centipercent(u64::MAX, 1), 10000);
    assert_eq!(util_centipercent(123, 0), 0);
    assert_eq!(util_centipercent(0, 100), 0);
}

#[test]
fn test_engine_counters_read() {
    let baseline = EngineReading { busy: Some(1000), wait: Some(0), sema: None };
    let mut counters = EngineCounters::from_baseline(&baseline);
    let reading = EngineReading { busy: Some(1500), wait: Some(250), sema: None };
    let util = counters.read_utilization(&reading, 1000);
    assert_eq!(util.busy_centipercent, 5000);
    assert_eq!(util.wait_centipercent, 2500);
    assert_eq!(util.sema_centipercent, 0);
    // The same delta is never counted twice.
    let again = counters.read_utilization(&reading, 1000);
    assert_eq!(again.busy_centipercent, 0);
    assert_eq!(again.wait_centipercent, 0);
}

fn render_only_engine(baseline_busy: u64, now_ns: u64) -> SamplingEngine {
    let render = EngineReading { busy: Some(baseline_busy), wait: None, sema: None };
    let absent = EngineReading { busy: None, wait: None, sema: None };
    SamplingEngine::new(
        8,
        GpuDriver::I915,
        &render,
        &absent,
        &absent,
        &absent,
        &absent,
        false,
        None,
        None,
        None,
        now_ns,
    )
}

#[test]
fn test_render_busy_scenario() {
    // A mock interface exposing only a render-busy counter: two reads 100 ms
    // apart with 50 ms of busy time in between report about 50% busy and
    // leave every other engine field at zero.
    let mut engine = render_only_engine(0, 0);
    let mut sample = RawSample::empty(100_000_000);
    sample.render = EngineReading { busy: Some(50_000_000), wait: None, sema: None };
    let stats = engine.read_stats(&sample);
    assert_eq!(stats.sample_duration_ns, 100_000_000);
    let busy_percent = stats.engines.render.busy_centipercent as f64 / 100.0;
    assert!((busy_percent - 50.0).abs() <= 1.0);
    assert_eq!(stats.engines.render.wait_centipercent, 0);
    assert_eq!(stats.engines.video.busy_centipercent, 0);
    assert_eq!(stats.engines.video_enhance.busy_centipercent, 0);
    assert_eq!(stats.engines.blitter.busy_centipercent, 0);
    assert!(stats.engines.compute.is_none());
    assert_eq!(stats.frequency.actual_mhz, 0);
    assert!(stats.rc6.is_none());

    // A second read 100 ms later with no further busy time reports idle.
    let mut second = RawSample::empty(200_000_000);
    second.render = EngineReading { busy: Some(50_000_000), wait: None, sema: None };
    let stats2 = engine.read_stats(&second);
    assert_eq!(stats2.engines.render.busy_centipercent, 0);
}

#[test]
fn test_zero_engines_device_still_samples() {
    // A device whose interface advertises no engines still opens, and its
    // snapshots report every engine field at its default.
    let absent = EngineReading { busy: None, wait: None, sema: None };
    let mut engine = SamplingEngine::new(
        8,
        GpuDriver::Xe,
        &absent,
        &absent,
        &absent,
        &absent,
        &absent,
        false,
        None,
        None,
        None,
        0,
    );
    let sample = RawSample::empty(5_000_000);
    let stats = engine.read_stats(&sample);
    assert_eq!(stats.engines.render.busy_centipercent, 0);
    assert_eq!(stats.engines.video.busy_centipercent, 0);
    assert_eq!(stats.engines.video_enhance.busy_centipercent, 0);
    assert_eq!(stats.engines.blitter.busy_centipercent, 0);
    assert!(stats.engines.compute.is_none());
    assert_eq!(stats.frequency.actual_mhz, 0);
    assert_eq!(stats.frequency.requested_mhz, 0);
    assert!(stats.rc6.is_none());
    assert!(stats.power.is_none());
}

#[test]
fn test_zero_elapsed_rates_are_zero() {
    // With no elapsed time, every rate-based field is exactly zero.
    let render = EngineReading { busy: Some(100), wait: None, sema: None };
    let absent = EngineReading { busy: None, wait: None, sema: None };
    let mut engine = SamplingEngine::new(
        8,
        GpuDriver::I915,
        &render,
        &absent,
        &absent,
        &absent,
        &absent,
        false,
        Some(10),
        Some(20),
        Some(30),
        7_000,
    );
    let mut sample = RawSample::empty(7_000);
    sample.render = EngineReading { busy: Some(999_999), wait: None, sema: None };
    sample.freq_act = Some(1_000_000);
    sample.freq_req = Some(2_000_000);
    sample.rc6 = Some(3_000_000);
    let stats = engine.read_stats(&sample);
    assert_eq!(stats.sample_duration_ns, 0);
    assert_eq!(stats.engines.render.busy_centipercent, 0);
    assert_eq!(stats.frequency.actual_mhz, 0);
    assert_eq!(stats.frequency.requested_mhz, 0);
    assert_eq!(stats.rc6.unwrap().residency_centipercent, 0);
}

#[test]
fn test_frequency_and_rc6_from_deltas() {
    let absent = EngineReading { busy: None, wait: None, sema: None };
    let mut engine = SamplingEngine::new(
        8,
        GpuDriver::I915,
        &absent,
        &absent,
        &absent,
        &absent,
        &absent,
        false,
        Some(0),
        Some(0),
        Some(0),
        0,
    );
    let mut sample = RawSample::empty(1_000_000_000);
    // The frequency counter accumulates MHz x ns: one second at 1200 MHz.
    sample.freq_act = Some(1_200_000_000_000);
    sample.freq_req = Some(1_500_000_000_000);
    // Half the window spent in the power-saving state.
    sample.rc6 = Some(500_000_000);
    let stats = engine.read_stats(&sample);
    assert_eq!(stats.frequency.actual_mhz, 1200);
    assert_eq!(stats.frequency.requested_mhz, 1500);
    assert_eq!(stats.rc6.unwrap().residency_centipercent, 5000);
}

#[test]
fn test_background_sampler_scenario() {
    // Ten ticks with successful reads invoke the callback ten times; a stop
    // request ends the loop, stop is idempotent, and a stopped sampler
    // reports not running and never invokes again.
    let mut sampler = BackgroundSampler::new();
    assert!(sampler.is_running());
    let mut invocations: u64 = 0;
    for _ in 0..10 {
        if sampler.on_tick(false, true) {
            invocations += 1;
        }
    }
    assert_eq!(invocations, 10);
    assert_eq!(sampler.invocations, 10);
    assert!(sampler.is_running());

    sampler.stop();
    assert!(!sampler.is_running());
    sampler.stop();
    assert!(!sampler.is_running());
    assert!(!sampler.on_tick(false, true));
    assert_eq!(sampler.invocations, 10);
}

#[test]
fn test_background_sampler_stops_on_read_error() {
    let mut sampler = BackgroundSampler::new();
    assert!(sampler.on_tick(false, true));
    // A read failure ends the loop silently, without an invocation.
    assert!(!sampler.on_tick(false, false));
    assert!(!sampler.is_running());
    assert!(!sampler.on_tick(false, true));
}

#[test]
fn test_engine_tracker() {
    // 50 ms of running time over a 100 ms window is about 50% busy.
    let mut tracker = EngineTracker::new(0);
    let percent = tracker.update(50_000_000, 100_000_000);
    assert!(percent >= 4000 && percent <= 6000);
}
