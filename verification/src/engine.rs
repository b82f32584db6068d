//! The counter sampling core: delta-to-rate conversion and the stateful
//! sampling engine that turns raw counter readings into snapshots.
//!
//! Raw counter values are monotonically increasing 64-bit totals. Each read
//! cycle computes `delta = saturating_subtract(current, previous)` — so a
//! counter reset or wraparound yields 0 rather than underflowing — then
//! stores `current` as the new previous value unconditionally, and converts
//! the delta into a clamped percentage of the elapsed window.

use vstd::prelude::*;

use crate::types::EngineUtilization;
use crate::types::EngineStats;
use crate::types::FrequencyStats;
use crate::types::GpuDriver;
use crate::types::GpuStats;
use crate::types::PowerStats;
use crate::types::Rc6Stats;
use crate::types::TemperatureStats;
use crate::types::ThrottleInfo;
use crate::types::FULL_SCALE_CENTIPERCENT;

verus! {

/// The delta of a monotonically increasing counter: zero when the counter
/// went backwards (reset or wraparound), never an underflow.
pub open spec fn spec_counter_delta(current: u64, previous: u64) -> u64 {
    if current >= previous {
        (current - previous) as u64
    } else {
        0
    }
}

/// Compute the per-interval delta of a cumulative counter, saturating at 0
/// when the current value is below the previous one.
pub fn counter_delta(current: u64, previous: u64) -> (d: u64)
    ensures
        d == spec_counter_delta(current, previous),
{
    current.saturating_sub(previous)
}

/// A busy-time delta as a share of the elapsed window, in hundredths of a
/// percent, clamped to 100% and zero when no time has elapsed.
pub open spec fn spec_util_centipercent(delta: u64, elapsed_ns: u64) -> u32 {
    if elapsed_ns == 0 {
        0
    } else {
        let share = delta * (FULL_SCALE_CENTIPERCENT as int) / (elapsed_ns as int);
        if share > FULL_SCALE_CENTIPERCENT {
            FULL_SCALE_CENTIPERCENT
        } else {
            share as u32
        }
    }
}

/// Convert a counter delta over an elapsed window into hundredths of a
/// percent, clamped to 0% ..= 100%; 0 when the window is empty.
pub fn util_centipercent(delta: u64, elapsed_ns: u64) -> (r: u32)
    ensures
        r == spec_util_centipercent(delta, elapsed_ns),
        r <= FULL_SCALE_CENTIPERCENT,
{
    if elapsed_ns == 0 {
        0
    } else {
        let share: u128 = (delta as u128) * 10000u128 / (elapsed_ns as u128);
        if share > FULL_SCALE_CENTIPERCENT as u128 {
            FULL_SCALE_CENTIPERCENT
        } else {
            share as u32
        }
    }
}

/// Counter wraparound or driver reset never underflows: whenever the
/// current value is below the previous one, the computed delta saturates to
/// 0 rather than producing a huge erroneous spike.
pub proof fn lemma_counter_delta_saturates(current: u64, previous: u64)
    requires
        current < previous,
    ensures
        spec_counter_delta(current, previous) == 0,
{
}

/// For every counter delta and elapsed time, the utilization share lies
/// within 0% ..= 100%.
pub proof fn lemma_util_centipercent_bounded(delta: u64, elapsed_ns: u64)
    ensures
        spec_util_centipercent(delta, elapsed_ns) <= FULL_SCALE_CENTIPERCENT,
{
}

/// A frequency-accumulating counter delta (MHz x ns) divided by the elapsed
/// window gives the average frequency in MHz; zero when no time has elapsed,
/// saturating at the largest representable frequency.
pub open spec fn spec_freq_mhz(delta: u64, elapsed_ns: u64) -> u32 {
    if elapsed_ns == 0 {
        0
    } else {
        let mhz = delta as int / elapsed_ns as int;
        if mhz > u32::MAX {
            u32::MAX
        } else {
            mhz as u32
        }
    }
}

/// Convert a frequency-counter delta over an elapsed window into MHz.
pub fn freq_mhz(delta: u64, elapsed_ns: u64) -> (r: u32)
    ensures
        r == spec_freq_mhz(delta, elapsed_ns),
{
    if elapsed_ns == 0 {
        0
    } else {
        let mhz: u64 = delta / elapsed_ns;
        if mhz > u32::MAX as u64 {
            u32::MAX
        } else {
            mhz as u32
        }
    }
}

/// The current values of one engine's counters, as read by the OS layer in
/// one cycle. A channel is `None` exactly when its counter is not open.
#[derive(Debug, Clone, Copy, PartialEq, Eq, Structural)]
pub struct EngineReading {
    /// Current busy-time counter value, if the busy counter is open.
    pub busy: Option<u64>,
    /// Current wait-time counter value, if the wait counter is open.
    pub wait: Option<u64>,
    /// Current semaphore-wait counter value, if that counter is open.
    pub sema: Option<u64>,
}

impl EngineReading {
    /// A reading with no channels, for engines without open counters.
    pub fn absent() -> (r: Self)
        ensures
            r.busy is None,
            r.wait is None,
            r.sema is None,
    {
        EngineReading { busy: None, wait: None, sema: None }
    }
}

/// Tracks the state of a single engine's counters: which of the up-to-three
/// counters are open, and the last raw value seen on each.
#[derive(Debug, Clone, Copy, PartialEq, Eq, Structural)]
pub struct EngineCounters {
    /// Whether the busy counter is open.
    pub has_busy: bool,
    /// Whether the wait counter is open.
    pub has_wait: bool,
    /// Whether the semaphore-wait counter is open.
    pub has_sema: bool,
    /// Last raw busy value.
    pub last_busy: u64,
    /// Last raw wait value.
    pub last_wait: u64,
    /// Last raw semaphore-wait value.
    pub last_sema: u64,
}

/// The percentage one channel contributes: the clamped share of its delta,
/// or 0 when the channel is absent.
pub open spec fn spec_channel_percent(
    has: bool,
    reading: Option<u64>,
    last: u64,
    elapsed_ns: u64,
) -> u32 {
    match reading {
        Some(current) => if has {
            spec_util_centipercent(spec_counter_delta(current, last), elapsed_ns)
        } else {
            0
        },
        None => 0,
    }
}

/// The stored last value after a read cycle: the current reading when the
/// channel is present, the old value otherwise.
pub open spec fn spec_channel_new_last(has: bool, reading: Option<u64>, last: u64) -> u64 {
    match reading {
        Some(current) => if has {
            current
        } else {
            last
        },
        None => last,
    }
}

impl EngineCounters {
    /// The reading covers exactly the open channels.
    pub open spec fn matches_reading(&self, reading: EngineReading) -> bool {
        &&& self.has_busy == (reading.busy is Some)
        &&& self.has_wait == (reading.wait is Some)
        &&& self.has_sema == (reading.sema is Some)
    }

    /// The utilization produced from this state by the given reading.
    pub open spec fn spec_utilization(
        &self,
        reading: EngineReading,
        elapsed_ns: u64,
    ) -> EngineUtilization {
        EngineUtilization {
            busy_centipercent: spec_channel_percent(
                self.has_busy,
                reading.busy,
                self.last_busy,
                elapsed_ns,
            ),
            wait_centipercent: spec_channel_percent(
                self.has_wait,
                reading.wait,
                self.last_wait,
                elapsed_ns,
            ),
            sema_centipercent: spec_channel_percent(
                self.has_sema,
                reading.sema,
                self.last_sema,
                elapsed_ns,
            ),
        }
    }

    /// The state after a read cycle with the given reading.
    pub open spec fn spec_after_reading(&self, reading: EngineReading) -> EngineCounters {
        EngineCounters {
            has_busy: self.has_busy,
            has_wait: self.has_wait,
            has_sema: self.has_sema,
            last_busy: spec_channel_new_last(self.has_busy, reading.busy, self.last_busy),
            last_wait: spec_channel_new_last(self.has_wait, reading.wait, self.last_wait),
            last_sema: spec_channel_new_last(self.has_sema, reading.sema, self.last_sema),
        }
    }

    /// A group with no open counters and zero baselines.
    pub fn new() -> (r: Self)
        ensures
            !r.has_busy,
            !r.has_wait,
            !r.has_sema,
            r.last_busy == 0,
            r.last_wait == 0,
            r.last_sema == 0,
    {
        EngineCounters {
            has_busy: false,
            has_wait: false,
            has_sema: false,
            last_busy: 0,
            last_wait: 0,
            last_sema: 0,
        }
    }

    /// The group primed from the baseline values read right after opening.
    pub open spec fn spec_from_baseline(baseline: EngineReading) -> EngineCounters {
        EngineCounters {
            has_busy: baseline.busy is Some,
            has_wait: baseline.wait is Some,
            has_sema: baseline.sema is Some,
            last_busy: match baseline.busy {
                Some(v) => v,
                None => 0u64,
            },
            last_wait: match baseline.wait {
                Some(v) => v,
                None => 0u64,
            },
            last_sema: match baseline.sema {
                Some(v) => v,
                None => 0u64,
            },
        }
    }

    /// A group primed from the baseline values read right after opening:
    /// each channel is open exactly when a baseline was read for it, and the
    /// first real sample then reports the delta since this baseline.
    pub fn from_baseline(baseline: &EngineReading) -> (r: Self)
        ensures
            r == Self::spec_from_baseline(*baseline),
            r.matches_reading(*baseline),
    {
        EngineCounters {
            has_busy: baseline.busy.is_some(),
            has_wait: baseline.wait.is_some(),
            has_sema: baseline.sema.is_some(),
            last_busy: match baseline.busy {
                Some(v) => v,
                None => 0,
            },
            last_wait: match baseline.wait {
                Some(v) => v,
                None => 0,
            },
            last_sema: match baseline.sema {
                Some(v) => v,
                None => 0,
            },
        }
    }

    /// Compute the utilization over the elapsed window from the current
    /// counter values, updating the stored last values unconditionally so
    /// that the same delta is never counted twice.
    ///
    /// All percentages lie within 0% ..= 100%, and are exactly 0 when
    /// `elapsed_ns == 0`; a counter that went backwards contributes 0.
    pub fn read_utilization(&mut self, reading: &EngineReading, elapsed_ns: u64) -> (r:
        EngineUtilization)
        requires
            old(self).matches_reading(*reading),
        ensures
            r == old(self).spec_utilization(*reading, elapsed_ns),
            *final(self) == old(self).spec_after_reading(*reading),
            r.valid(),
            elapsed_ns == 0 ==> r.busy_centipercent == 0 && r.wait_centipercent == 0
                && r.sema_centipercent == 0,
    {
        let busy_percent: u32 = match &reading.busy {
            Some(current) => {
                let delta = counter_delta(*current, self.last_busy);
                self.last_busy = *current;
                util_centipercent(delta, elapsed_ns)
            },
            None => 0,
        };
        let wait_percent: u32 = match &reading.wait {
            Some(current) => {
                let delta = counter_delta(*current, self.last_wait);
                self.last_wait = *current;
                util_centipercent(delta, elapsed_ns)
            },
            None => 0,
        };
        let sema_percent: u32 = match &reading.sema {
            Some(current) => {
                let delta = counter_delta(*current, self.last_sema);
                self.last_sema = *current;
                util_centipercent(delta, elapsed_ns)
            },
            None => 0,
        };
        EngineUtilization {
            busy_centipercent: busy_percent,
            wait_centipercent: wait_percent,
            sema_centipercent: sema_percent,
        }
    }
}

/// Everything the OS layer read in one sampling cycle, handed to the
/// sampling engine as plain values.
#[derive(Debug, Clone)]
pub struct RawSample {
    /// Monotonic capture instant, in nanoseconds.
    pub now_ns: u64,
    /// Render engine counter values.
    pub render: EngineReading,
    /// Blitter/copy engine counter values.
    pub blitter: EngineReading,
    /// Video engine counter values.
    pub video: EngineReading,
    /// Video-enhance engine counter values.
    pub video_enhance: EngineReading,
    /// Compute engine counter values.
    pub compute: EngineReading,
    /// Current actual-frequency counter value, if that counter is open.
    pub freq_act: Option<u64>,
    /// Current requested-frequency counter value, if that counter is open.
    pub freq_req: Option<u64>,
    /// Current power-saving residency counter value, if that counter is open.
    pub rc6: Option<u64>,
    /// One-shot temperature reading, if available this cycle.
    pub temperature: Option<TemperatureStats>,
    /// One-shot throttle reading, if available this cycle.
    pub throttle: Option<ThrottleInfo>,
    /// One-shot power reading, if available this cycle.
    pub power: Option<PowerStats>,
}

impl RawSample {
    /// A sample at the given instant with no counters and no auxiliary data.
    pub fn empty(now_ns: u64) -> (r: Self)
        ensures
            r.now_ns == now_ns,
            r.render == (EngineReading { busy: None, wait: None, sema: None }),
            r.blitter == r.render,
            r.video == r.render,
            r.video_enhance == r.render,
            r.compute == r.render,
            r.freq_act is None,
            r.freq_req is None,
            r.rc6 is None,
            r.temperature is None,
            r.throttle is None,
            r.power is None,
    {
        RawSample {
            now_ns,
            render: EngineReading::absent(),
            blitter: EngineReading::absent(),
            video: EngineReading::absent(),
            video_enhance: EngineReading::absent(),
            compute: EngineReading::absent(),
            freq_act: None,
            freq_req: None,
            rc6: None,
            temperature: None,
            throttle: None,
            power: None,
        }
    }
}

/// The delta of an optional cumulative counter against its stored last
/// value: 0 when the counter is not open.
pub open spec fn spec_opt_delta(has: bool, reading: Option<u64>, last: u64) -> u64 {
    match reading {
        Some(current) => if has {
            spec_counter_delta(current, last)
        } else {
            0
        },
        None => 0,
    }
}

/// The stateful sampling engine: owns the per-engine counter groups, the
/// frequency and power-saving counters' last values, and the timestamp of
/// the previous sample.
#[derive(Debug, Clone)]
pub struct SamplingEngine {
    /// Numeric type id of the performance-monitoring interface.
    pub type_id: u32,
    /// Driver variant the interface belongs to.
    pub driver: GpuDriver,
    /// Render engine counter group.
    pub render: EngineCounters,
    /// Blitter/copy engine counter group.
    pub blitter: EngineCounters,
    /// Video engine counter group.
    pub video: EngineCounters,
    /// Video-enhance engine counter group.
    pub video_enhance: EngineCounters,
    /// Compute engine counter group.
    pub compute: EngineCounters,
    /// Whether the interface advertised a compute engine.
    pub compute_advertised: bool,
    /// Whether the actual-frequency counter is open.
    pub has_freq_act: bool,
    /// Whether the requested-frequency counter is open.
    pub has_freq_req: bool,
    /// Whether the power-saving residency counter is open.
    pub has_rc6: bool,
    /// Last actual-frequency counter value.
    pub last_freq_act: u64,
    /// Last requested-frequency counter value.
    pub last_freq_req: u64,
    /// Last power-saving residency counter value.
    pub last_rc6: u64,
    /// Timestamp of the previous sample, in nanoseconds.
    pub last_timestamp_ns: u64,
}

impl SamplingEngine {
    /// The raw sample covers exactly the counters this engine has open.
    pub open spec fn matches_sample(&self, s: RawSample) -> bool {
        &&& self.render.matches_reading(s.render)
        &&& self.blitter.matches_reading(s.blitter)
        &&& self.video.matches_reading(s.video)
        &&& self.video_enhance.matches_reading(s.video_enhance)
        &&& self.compute.matches_reading(s.compute)
        &&& self.has_freq_act == (s.freq_act is Some)
        &&& self.has_freq_req == (s.freq_req is Some)
        &&& self.has_rc6 == (s.rc6 is Some)
    }

    /// Construct the engine from the baseline values captured right after
    /// the OS layer opened the counters. A counter is open exactly when a
    /// baseline was read for it; opening a device whose interface advertises
    /// no engines at all is still a valid engine whose snapshots report every
    /// engine as idle.
    pub fn new(
        type_id: u32,
        driver: GpuDriver,
        render: &EngineReading,
        blitter: &EngineReading,
        video: &EngineReading,
        video_enhance: &EngineReading,
        compute: &EngineReading,
        compute_advertised: bool,
        freq_act: Option<u64>,
        freq_req: Option<u64>,
        rc6: Option<u64>,
        now_ns: u64,
    ) -> (r: Self)
        ensures
            r.type_id == type_id,
            r.driver == driver,
            r.render == EngineCounters::spec_from_baseline(*render),
            r.blitter == EngineCounters::spec_from_baseline(*blitter),
            r.video == EngineCounters::spec_from_baseline(*video),
            r.video_enhance == EngineCounters::spec_from_baseline(*video_enhance),
            r.compute == EngineCounters::spec_from_baseline(*compute),
            r.compute_advertised == compute_advertised,
            r.has_freq_act == (freq_act is Some),
            r.has_freq_req == (freq_req is Some),
            r.has_rc6 == (rc6 is Some),
            r.last_freq_act == (match freq_act {
                Some(v) => v,
                None => 0u64,
            }),
            r.last_freq_req == (match freq_req {
                Some(v) => v,
                None => 0u64,
            }),
            r.last_rc6 == (match rc6 {
                Some(v) => v,
                None => 0u64,
            }),
            r.last_timestamp_ns == now_ns,
    {
        SamplingEngine {
            type_id,
            driver,
            render: EngineCounters::from_baseline(render),
            blitter: EngineCounters::from_baseline(blitter),
            video: EngineCounters::from_baseline(video),
            video_enhance: EngineCounters::from_baseline(video_enhance),
            compute: EngineCounters::from_baseline(compute),
            compute_advertised,
            has_freq_act: freq_act.is_some(),
            has_freq_req: freq_req.is_some(),
            has_rc6: rc6.is_some(),
            last_freq_act: match freq_act {
                Some(v) => v,
                None => 0,
            },
            last_freq_req: match freq_req {
                Some(v) => v,
                None => 0,
            },
            last_rc6: match rc6 {
                Some(v) => v,
                None => 0,
            },
            last_timestamp_ns: now_ns,
        }
    }

    /// Whether a compute engine was advertised by the interface.
    pub fn has_compute_engine(&self) -> (r: bool)
        ensures
            r == self.compute_advertised,
    {
        self.compute_advertised
    }

    /// The driver variant in use.
    pub fn driver(&self) -> (r: GpuDriver)
        ensures
            r == self.driver,
    {
        self.driver
    }

    /// Assemble one snapshot from the raw values of this cycle, attributing
    /// every delta to the window since the previous sample and storing the
    /// current values and timestamp for the next cycle.
    ///
    /// Repeated calls always report the delta since the previous call, never
    /// since device open. When no time has elapsed, every rate-based field
    /// is exactly zero.
    pub fn read_stats(&mut self, sample: &RawSample) -> (r: GpuStats)
        requires
            old(self).matches_sample(*sample),
            sample.now_ns >= old(self).last_timestamp_ns,
        ensures
            ({
                let elapsed = (sample.now_ns - old(self).last_timestamp_ns) as u64;
                &&& r.timestamp_ns == sample.now_ns
                &&& r.sample_duration_ns == elapsed
                &&& r.engines.render == old(self).render.spec_utilization(sample.render, elapsed)
                &&& r.engines.blitter == old(self).blitter.spec_utilization(
                    sample.blitter,
                    elapsed,
                )
                &&& r.engines.video == old(self).video.spec_utilization(sample.video, elapsed)
                &&& r.engines.video_enhance == old(self).video_enhance.spec_utilization(
                    sample.video_enhance,
                    elapsed,
                )
                &&& r.engines.compute == (if old(self).compute.has_busy {
                    Some(old(self).compute.spec_utilization(sample.compute, elapsed))
                } else {
                    None::<EngineUtilization>
                })
                &&& r.frequency.actual_mhz == spec_freq_mhz(
                    spec_opt_delta(
                        old(self).has_freq_act,
                        sample.freq_act,
                        old(self).last_freq_act,
                    ),
                    elapsed,
                )
                &&& r.frequency.requested_mhz == spec_freq_mhz(
                    spec_opt_delta(
                        old(self).has_freq_req,
                        sample.freq_req,
                        old(self).last_freq_req,
                    ),
                    elapsed,
                )
                &&& r.rc6 == (if old(self).has_rc6 {
                    Some(
                        Rc6Stats {
                            residency_centipercent: spec_util_centipercent(
                                spec_opt_delta(true, sample.rc6, old(self).last_rc6),
                                elapsed,
                            ),
                        },
                    )
                } else {
                    None::<Rc6Stats>
                })
                &&& r.temperature == sample.temperature
                &&& r.throttle == sample.throttle
                &&& r.power == sample.power
                &&& r.valid()
                &&& elapsed == 0 ==> {
                    &&& r.engines.render == (EngineUtilization {
                        busy_centipercent: 0,
                        wait_centipercent: 0,
                        sema_centipercent: 0,
                    })
                    &&& r.engines.blitter == r.engines.render
                    &&& r.engines.video == r.engines.render
                    &&& r.engines.video_enhance == r.engines.render
                    &&& (r.engines.compute matches Some(c) ==> c == r.engines.render)
                    &&& r.frequency.actual_mhz == 0
                    &&& r.frequency.requested_mhz == 0
                    &&& (r.rc6 matches Some(rc6) ==> rc6.residency_centipercent == 0)
                }
            }),
            *final(self) == (SamplingEngine {
                render: old(self).render.spec_after_reading(sample.render),
                blitter: old(self).blitter.spec_after_reading(sample.blitter),
                video: old(self).video.spec_after_reading(sample.video),
                video_enhance: old(self).video_enhance.spec_after_reading(sample.video_enhance),
                compute: old(self).compute.spec_after_reading(sample.compute),
                last_freq_act: spec_channel_new_last(
                    old(self).has_freq_act,
                    sample.freq_act,
                    old(self).last_freq_act,
                ),
                last_freq_req: spec_channel_new_last(
                    old(self).has_freq_req,
                    sample.freq_req,
                    old(self).last_freq_req,
                ),
                last_rc6: spec_channel_new_last(old(self).has_rc6, sample.rc6, old(self).last_rc6),
                last_timestamp_ns: sample.now_ns,
                ..*old(self)
            }),
    {
        let now_ns = sample.now_ns;
        let elapsed_ns: u64 = now_ns - self.last_timestamp_ns;

        let render = self.render.read_utilization(&sample.render, elapsed_ns);
        let blitter = self.blitter.read_utilization(&sample.blitter, elapsed_ns);
        let video = self.video.read_utilization(&sample.video, elapsed_ns);
        let video_enhance = self.video_enhance.read_utilization(&sample.video_enhance, elapsed_ns);
        let has_compute_group = self.compute.has_busy;
        let compute_util = self.compute.read_utilization(&sample.compute, elapsed_ns);
        let compute = if has_compute_group {
            Some(compute_util)
        } else {
            None
        };

        let actual_mhz: u32 = match sample.freq_act {
            Some(current) => {
                let delta = counter_delta(current, self.last_freq_act);
                self.last_freq_act = current;
                freq_mhz(delta, elapsed_ns)
            },
            None => 0,
        };
        let requested_mhz: u32 = match sample.freq_req {
            Some(current) => {
                let delta = counter_delta(current, self.last_freq_req);
                self.last_freq_req = current;
                freq_mhz(delta, elapsed_ns)
            },
            None => 0,
        };

        let rc6 = match sample.rc6 {
            Some(current) => {
                let delta = counter_delta(current, self.last_rc6);
                self.last_rc6 = current;
                Some(Rc6Stats { residency_centipercent: util_centipercent(delta, elapsed_ns) })
            },
            None => None,
        };

        self.last_timestamp_ns = now_ns;

        GpuStats {
            timestamp_ns: now_ns,
            sample_duration_ns: elapsed_ns,
            engines: EngineStats { render, video, video_enhance, blitter, compute },
            frequency: FrequencyStats { actual_mhz, requested_mhz },
            power: sample.power,
            rc6,
            temperature: sample.temperature,
            throttle: sample.throttle,
        }
    }
}

/// A sampling engine with no open counters still produces a well-formed
/// snapshot in which every engine field is at its default: all utilization
/// shares zero and the compute slot absent.
pub proof fn lemma_no_engines_snapshot_is_default(e: SamplingEngine, s: RawSample)
    requires
        !e.render.has_busy && !e.render.has_wait && !e.render.has_sema,
        !e.blitter.has_busy && !e.blitter.has_wait && !e.blitter.has_sema,
        !e.video.has_busy && !e.video.has_wait && !e.video.has_sema,
        !e.video_enhance.has_busy && !e.video_enhance.has_wait && !e.video_enhance.has_sema,
        !e.compute.has_busy && !e.compute.has_wait && !e.compute.has_sema,
        e.matches_sample(s),
    ensures
        forall|elapsed: u64|
            e.render.spec_utilization(s.render, elapsed) == (EngineUtilization {
                busy_centipercent: 0,
                wait_centipercent: 0,
                sema_centipercent: 0,
            }),
        forall|elapsed: u64|
            e.blitter.spec_utilization(s.blitter, elapsed) == e.render.spec_utilization(
                s.render,
                elapsed,
            ),
        forall|elapsed: u64|
            e.video.spec_utilization(s.video, elapsed) == e.render.spec_utilization(
                s.render,
                elapsed,
            ),
        forall|elapsed: u64|
            e.video_enhance.spec_utilization(s.video_enhance, elapsed)
                == e.render.spec_utilization(s.render, elapsed),
        !e.compute.has_busy,
{
}

} // verus!
