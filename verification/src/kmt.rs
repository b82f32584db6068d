//! Decisions of the kernel-mode statistics backend that some platforms use
//! in place of the counter interface: the fixed engine-to-node mapping, the
//! running-time tracker, and adapter-name decoding. The raw adapter queries
//! themselves are platform calls the OS layer performs; everything decided
//! from their results is verified here.

use vstd::prelude::*;

use crate::engine::spec_counter_delta;
use crate::engine::counter_delta;
use crate::engine::spec_util_centipercent;
use crate::engine::util_centipercent;
use crate::types::DrmClient;
use crate::types::FULL_SCALE_CENTIPERCENT;

verus! {

/// The status value a successful kernel-mode query returns.
pub const STATUS_SUCCESS: i32 = 0;

/// Node ordinal of the render/3D engine.
pub const ENGINE_NODE_3D: u32 = 0;

/// Node ordinal of the copy/blitter engine.
pub const ENGINE_NODE_COPY: u32 = 1;

/// Node ordinal of the video decode engine.
pub const ENGINE_NODE_VIDEO: u32 = 2;

/// Node ordinal of the video encode/enhance engine.
pub const ENGINE_NODE_VIDEO_ENHANCE: u32 = 3;

/// Node ordinal of the compute engine.
pub const ENGINE_NODE_COMPUTE: u32 = 4;

/// The engine-class-to-node mapping of an adapter: each engine is present
/// exactly when the adapter has enough nodes to reach its fixed ordinal.
#[derive(Debug, Clone, Copy, PartialEq, Eq, Structural)]
pub struct NodeMapping {
    /// Node of the render engine, when present.
    pub render: Option<u32>,
    /// Node of the copy engine, when present.
    pub copy: Option<u32>,
    /// Node of the video engine, when present.
    pub video: Option<u32>,
    /// Node of the video-enhance engine, when present.
    pub video_enhance: Option<u32>,
    /// Node of the compute engine, when present.
    pub compute: Option<u32>,
}

/// Map the engine classes to the adapter's node ordinals: the hardware lays
/// engines out at fixed ordinals, so each class is present exactly when the
/// node count exceeds its ordinal.
pub fn query_node_mapping(node_count: u32) -> (r: NodeMapping)
    ensures
        r.render == (if node_count > ENGINE_NODE_3D {
            Some(ENGINE_NODE_3D)
        } else {
            None::<u32>
        }),
        r.copy == (if node_count > ENGINE_NODE_COPY {
            Some(ENGINE_NODE_COPY)
        } else {
            None::<u32>
        }),
        r.video == (if node_count > ENGINE_NODE_VIDEO {
            Some(ENGINE_NODE_VIDEO)
        } else {
            None::<u32>
        }),
        r.video_enhance == (if node_count > ENGINE_NODE_VIDEO_ENHANCE {
            Some(ENGINE_NODE_VIDEO_ENHANCE)
        } else {
            None::<u32>
        }),
        r.compute == (if node_count > ENGINE_NODE_COMPUTE {
            Some(ENGINE_NODE_COMPUTE)
        } else {
            None::<u32>
        }),
{
    NodeMapping {
        render: if node_count > ENGINE_NODE_3D {
            Some(ENGINE_NODE_3D)
        } else {
            None
        },
        copy: if node_count > ENGINE_NODE_COPY {
            Some(ENGINE_NODE_COPY)
        } else {
            None
        },
        video: if node_count > ENGINE_NODE_VIDEO {
            Some(ENGINE_NODE_VIDEO)
        } else {
            None
        },
        video_enhance: if node_count > ENGINE_NODE_VIDEO_ENHANCE {
            Some(ENGINE_NODE_VIDEO_ENHANCE)
        } else {
            None
        },
        compute: if node_count > ENGINE_NODE_COMPUTE {
            Some(ENGINE_NODE_COMPUTE)
        } else {
            None
        },
    }
}

/// A node's running time in nanoseconds: the raw query value counts
/// 100-nanosecond units, saturating at the largest representable time.
pub fn node_running_time_ns(raw_units: u64) -> (r: u64)
    ensures
        r == (if raw_units * 100 > u64::MAX {
            u64::MAX as int
        } else {
            raw_units * 100
        }),
{
    if raw_units > u64::MAX / 100 {
        u64::MAX
    } else {
        raw_units * 100
    }
}

/// Tracks one engine node's cumulative running time between samples.
#[derive(Debug, Clone, Copy, PartialEq, Eq, Structural)]
pub struct EngineTracker {
    /// Last cumulative running time seen, in nanoseconds.
    pub last_running_time: u64,
    /// Timestamp of the previous update, in nanoseconds.
    pub last_timestamp_ns: u64,
}

impl EngineTracker {
    /// A tracker starting from zero running time at the given instant.
    pub fn new(now_ns: u64) -> (r: Self)
        ensures
            r.last_running_time == 0,
            r.last_timestamp_ns == now_ns,
    {
        EngineTracker { last_running_time: 0, last_timestamp_ns: now_ns }
    }

    /// Fold one running-time sample into the tracker: the clamped share of
    /// the running-time delta over the elapsed window, in hundredths of a
    /// percent, storing the current values for the next update. Zero when no
    /// time has elapsed; a running-time counter that went backwards
    /// contributes zero rather than underflowing.
    pub fn update(&mut self, current_running_time: u64, now_ns: u64) -> (r: u32)
        requires
            now_ns >= old(self).last_timestamp_ns,
        ensures
            r == spec_util_centipercent(
                spec_counter_delta(current_running_time, old(self).last_running_time),
                (now_ns - old(self).last_timestamp_ns) as u64,
            ),
            r <= FULL_SCALE_CENTIPERCENT,
            final(self).last_running_time == current_running_time,
            final(self).last_timestamp_ns == now_ns,
    {
        let elapsed_ns: u64 = now_ns - self.last_timestamp_ns;
        let delta = counter_delta(current_running_time, self.last_running_time);
        self.last_running_time = current_running_time;
        self.last_timestamp_ns = now_ns;
        util_centipercent(delta, elapsed_ns)
    }
}

/// The UTF-16 code units of an adapter name before its first NUL (the whole
/// sequence when it has none).
pub open spec fn spec_prefix_before_nul(units: Seq<u16>) -> Seq<u16>
    decreases units.len(),
{
    if units.len() == 0 {
        Seq::empty()
    } else if units[0] == 0 {
        Seq::empty()
    } else {
        seq![units[0]] + spec_prefix_before_nul(units.drop_first())
    }
}

/// A NUL-free prefix bounded by a NUL (or the end) is the prefix before the
/// first NUL.
proof fn lemma_prefix_before_nul(units: Seq<u16>, i: int)
    requires
        0 <= i <= units.len(),
        forall|j: int| 0 <= j < i ==> units[j] != 0,
        i < units.len() ==> units[i] == 0,
    ensures
        spec_prefix_before_nul(units) == units.subrange(0, i),
    decreases i,
{
    if i == 0 {
        assert(units.subrange(0, 0) =~= Seq::<u16>::empty());
        if units.len() > 0 {
            assert(units[0] == 0);
        }
    } else {
        assert(units[0] != 0);
        lemma_prefix_before_nul(units.drop_first(), i - 1);
        assert(units.drop_first().subrange(0, i - 1) =~= units.subrange(1, i));
        assert(seq![units[0]] + units.subrange(1, i) =~= units.subrange(0, i));
        if i < units.len() {
            assert(units.drop_first()[i - 1] == 0);
        }
    }
}

/// The characters that lossy UTF-16 decoding yields for a sequence of code
/// units. The decoding is a fixed function of the units alone.
pub uninterp spec fn utf16_lossy_of(units: Seq<u16>) -> Seq<char>;

/// Relies on String::from_utf16_lossy: decodes UTF-16 code units, replacing
/// invalid data with the replacement character; the result depends on the
/// code units alone, and no units decode to no characters.
#[verifier::external_body]
fn utf16_lossy(units: &Vec<u16>) -> (r: String)
    ensures
        r@ == utf16_lossy_of(units@),
        units@.len() == 0 ==> r@.len() == 0,
{
    String::from_utf16_lossy(units.as_slice())
}

/// Decode an adapter's NUL-padded UTF-16 name: the code units up to the
/// first NUL (or all of them, when none is NUL), decoded lossily.
pub fn wchar_to_string(wchar: &Vec<u16>) -> (r: String)
    ensures
        r@ == utf16_lossy_of(spec_prefix_before_nul(wchar@)),
        spec_prefix_before_nul(wchar@).len() == 0 ==> r@.len() == 0,
{
    let n = wchar.len();
    let mut prefix: Vec<u16> = Vec::new();
    let mut i: usize = 0;
    proof {
        assert(wchar@.subrange(0, 0) =~= Seq::<u16>::empty());
    }
    while i < n && wchar[i] != 0
        invariant
            n == wchar@.len(),
            i <= n,
            prefix@ == wchar@.subrange(0, i as int),
            forall|j: int| 0 <= j < i ==> wchar@[j] != 0,
        decreases n - i,
    {
        prefix.push(wchar[i]);
        proof {
            assert(prefix@ =~= wchar@.subrange(0, i + 1));
        }
        i = i + 1;
    }
    proof {
        lemma_prefix_before_nul(wchar@, i as int);
    }
    utf16_lossy(&prefix)
}

/// Usage of one process on the alternate backend. Per-node process
/// accounting is not offered by the query interface this library relies on,
/// so every figure is zero until the platform grows one.
#[derive(Debug, Clone, Copy, PartialEq, Eq, Structural)]
pub struct ProcessGpuUsage {
    /// Render engine usage in nanoseconds.
    pub render_ns: u64,
    /// Copy engine usage in nanoseconds.
    pub copy_ns: u64,
    /// Video engine usage in nanoseconds.
    pub video_ns: u64,
    /// Video-enhance engine usage in nanoseconds.
    pub video_enhance_ns: u64,
    /// Compute engine usage in nanoseconds.
    pub compute_ns: u64,
}

/// Query a process's GPU usage: the alternate backend offers no per-process
/// accounting, so every figure is zero.
pub fn query_process_gpu_usage(_pid: u32) -> (r: ProcessGpuUsage)
    ensures
        r.render_ns == 0,
        r.copy_ns == 0,
        r.video_ns == 0,
        r.video_enhance_ns == 0,
        r.compute_ns == 0,
{
    ProcessGpuUsage { render_ns: 0, copy_ns: 0, video_ns: 0, video_enhance_ns: 0, compute_ns: 0 }
}

/// Build the client list for the enumerated processes: one client per
/// process, in order, each carrying the (all-zero) usage the backend can
/// attribute to it.
pub fn list_gpu_processes(processes: &Vec<(u32, String)>) -> (r: Vec<DrmClient>)
    ensures
        r@.len() == processes@.len(),
        forall|j: int|
            0 <= j < r@.len() ==> {
                &&& (#[trigger] r@[j]).pid == processes@[j].0
                &&& r@[j].name == processes@[j].1
                &&& r@[j].render_ns == 0
                &&& r@[j].video_ns == 0
                &&& r@[j].video_enhance_ns == 0
                &&& r@[j].copy_ns == 0
                &&& r@[j].compute_ns == 0
                &&& r@[j].memory_bytes == 0
            },
{
    let n = processes.len();
    let mut clients: Vec<DrmClient> = Vec::new();
    let mut i: usize = 0;
    while i < n
        invariant
            n == processes@.len(),
            i <= n,
            clients@.len() == i,
            forall|j: int|
                0 <= j < i ==> {
                    &&& (#[trigger] clients@[j]).pid == processes@[j].0
                    &&& clients@[j].name == processes@[j].1
                    &&& clients@[j].render_ns == 0
                    &&& clients@[j].video_ns == 0
                    &&& clients@[j].video_enhance_ns == 0
                    &&& clients@[j].copy_ns == 0
                    &&& clients@[j].compute_ns == 0
                    &&& clients@[j].memory_bytes == 0
                },
        decreases n - i,
    {
        let entry = &processes[i];
        let usage = query_process_gpu_usage(entry.0);
        clients.push(
            DrmClient {
                pid: entry.0,
                name: entry.1.clone(),
                render_ns: usage.render_ns,
                copy_ns: usage.copy_ns,
                video_ns: usage.video_ns,
                video_enhance_ns: usage.video_enhance_ns,
                compute_ns: usage.compute_ns,
                memory_bytes: 0,
            },
        );
        i = i + 1;
    }
    clients
}

} // verus!
// Adapter description decoding.

use crate::strutil::spec_u64_dec;
use crate::strutil::spec_u64_hex_pad;
use crate::strutil::u64_to_dec;
use crate::strutil::u64_to_hex_pad;
use crate::types::GpuInfo;

verus! {

/// Turn one enumerated adapter's description into device information: the
/// id names the adapter's position, the bus path carries the adapter's
/// locally unique identifier in fixed-width hexadecimal, and the ids keep
/// their low 16 bits. Device nodes and a driver variant do not apply on
/// this backend.
pub fn adapter_desc_to_gpu_info(
    description: &Vec<u16>,
    vendor_id: u32,
    device_id: u32,
    luid: i64,
    adapter_index: u32,
) -> (r: GpuInfo)
    ensures
        r.id@ == "adapter"@ + spec_u64_dec(adapter_index as u64),
        r.pci_path@ == "LUID:"@ + spec_u64_hex_pad(luid as u64, 16),
        (r.device_name matches Some(n) && n@ == utf16_lossy_of(
            spec_prefix_before_nul(description@),
        )),
        r.vendor_id == (vendor_id & 0xffff) as u16,
        r.device_id == (device_id & 0xffff) as u16,
        r.render_node is None,
        r.card_node is None,
        r.driver is None,
{
    let device_name = wchar_to_string(description);
    let id: String = "adapter".to_owned().concat(u64_to_dec(adapter_index as u64).as_str());
    let pci_path: String = "LUID:".to_owned().concat(
        u64_to_hex_pad(luid as u64, 16).as_str(),
    );
    GpuInfo {
        id,
        pci_path,
        device_name: Some(device_name),
        vendor_id: (vendor_id & 0xffff) as u16,
        device_id: (device_id & 0xffff) as u16,
        render_node: None,
        card_node: None,
        driver: None,
    }
}

} // verus!
