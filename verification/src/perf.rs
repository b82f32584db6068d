//! The kernel counter-ABI layer: the counter-open request structure and its
//! exact binary layout, the error classification for failed opens and reads,
//! and the decoding of the fixed 8-byte counter-value payload.
//!
//! The OS layer performs the actual open, read and control syscalls; it
//! passes the encoded request bytes to the kernel and hands raw payloads and
//! errno values back to the functions here.

use vstd::prelude::*;

use crate::error::Error;

verus! {

/// The byte size of the counter-open request structure, every field of its
/// layout revision included.
pub const PERF_ATTR_SIZE: u32 = 136;

/// Linux errno for a permission failure on a file or syscall.
pub const EACCES: i32 = 13;

/// Linux errno for an operation not permitted failure.
pub const EPERM: i32 = 1;

/// Linux errno for a missing entity (here: an unsupported event).
pub const ENOENT: i32 = 2;

/// Counter control operation: enable counting.
pub const PERF_EVENT_IOC_ENABLE: u64 = 0x2400;

/// Counter control operation: disable counting.
pub const PERF_EVENT_IOC_DISABLE: u64 = 0x2401;

/// Counter control operation: reset the accumulated value.
pub const PERF_EVENT_IOC_RESET: u64 = 0x2403;

/// Request flag: the counter starts disabled.
pub const FLAG_DISABLED: u64 = 1;

/// Request flag: child processes inherit the counter.
pub const FLAG_INHERIT: u64 = 2;

/// Request flag: the counter must always be on the monitoring unit.
pub const FLAG_PINNED: u64 = 4;

/// Request flag: the counter's group owns the monitoring unit alone.
pub const FLAG_EXCLUSIVE: u64 = 8;

/// The counter-open request structure, as one record of plain fields. The
/// kernel consumes it through the exact byte layout that [`PerfEventAttr::to_bytes`]
/// produces.
#[derive(Debug, Clone, Copy, PartialEq, Eq, Structural)]
pub struct PerfEventAttr {
    /// Major type: the monitoring interface's numeric type id.
    pub type_: u32,
    /// Size of the request structure in bytes.
    pub size: u32,
    /// Type-specific configuration selecting the counter.
    pub config: u64,
    /// Sample period or frequency.
    pub sample_period_or_freq: u64,
    /// Sampling type.
    pub sample_type: u64,
    /// Reading format.
    pub read_format: u64,
    /// Request flags (disabled, inherit, and so on).
    pub flags: u64,
    /// Wakeup events or watermark.
    pub wakeup_events_or_watermark: u32,
    /// Breakpoint type.
    pub bp_type: u32,
    /// First configuration extension.
    pub config1: u64,
    /// Second configuration extension.
    pub config2: u64,
    /// Branch sample type.
    pub branch_sample_type: u64,
    /// User-level registers to sample.
    pub sample_regs_user: u64,
    /// User-level stack bytes to sample.
    pub sample_stack_user: u32,
    /// Clock id.
    pub clockid: i32,
    /// Interrupt-level registers to sample.
    pub sample_regs_intr: u64,
    /// Auxiliary-area watermark.
    pub aux_watermark: u32,
    /// Maximum sampled stack depth.
    pub sample_max_stack: u16,
    /// Reserved; zero.
    pub reserved_2: u16,
    /// Auxiliary sample size.
    pub aux_sample_size: u32,
    /// Reserved; zero.
    pub reserved_3: u32,
    /// Signal data.
    pub sig_data: u64,
    /// Third configuration extension.
    pub config3: u64,
}

/// The little-endian bytes of a 16-bit value.
pub open spec fn spec_le16(v: u16) -> Seq<u8> {
    seq![(v & 0xff) as u8, ((v >> 8) & 0xff) as u8]
}

/// The little-endian bytes of a 32-bit value.
pub open spec fn spec_le32(v: u32) -> Seq<u8> {
    seq![
        (v & 0xff) as u8,
        ((v >> 8) & 0xff) as u8,
        ((v >> 16) & 0xff) as u8,
        ((v >> 24) & 0xff) as u8,
    ]
}

/// The little-endian bytes of a 64-bit value.
pub open spec fn spec_le64(v: u64) -> Seq<u8> {
    seq![
        (v & 0xff) as u8,
        ((v >> 8) & 0xff) as u8,
        ((v >> 16) & 0xff) as u8,
        ((v >> 24) & 0xff) as u8,
        ((v >> 32) & 0xff) as u8,
        ((v >> 40) & 0xff) as u8,
        ((v >> 48) & 0xff) as u8,
        ((v >> 56) & 0xff) as u8,
    ]
}

/// Append the little-endian bytes of a 16-bit value.
fn push_le16(out: &mut Vec<u8>, v: u16)
    ensures
        final(out)@ == old(out)@ + spec_le16(v),
{
    let ghost before = out@;
    out.push((v & 0xff) as u8);
    out.push(((v >> 8) & 0xff) as u8);
    proof {
        assert(out@ =~= before + spec_le16(v));
    }
}

/// Append the little-endian bytes of a 32-bit value.
fn push_le32(out: &mut Vec<u8>, v: u32)
    ensures
        final(out)@ == old(out)@ + spec_le32(v),
{
    let ghost before = out@;
    out.push((v & 0xff) as u8);
    out.push(((v >> 8) & 0xff) as u8);
    out.push(((v >> 16) & 0xff) as u8);
    out.push(((v >> 24) & 0xff) as u8);
    proof {
        assert(out@ =~= before + spec_le32(v));
    }
}

/// Append the little-endian bytes of a 64-bit value.
fn push_le64(out: &mut Vec<u8>, v: u64)
    ensures
        final(out)@ == old(out)@ + spec_le64(v),
{
    let ghost before = out@;
    out.push((v & 0xff) as u8);
    out.push(((v >> 8) & 0xff) as u8);
    out.push(((v >> 16) & 0xff) as u8);
    out.push(((v >> 24) & 0xff) as u8);
    out.push(((v >> 32) & 0xff) as u8);
    out.push(((v >> 40) & 0xff) as u8);
    out.push(((v >> 48) & 0xff) as u8);
    out.push(((v >> 56) & 0xff) as u8);
    proof {
        assert(out@ =~= before + spec_le64(v));
    }
}

/// The exact byte layout of a counter-open request: every field in
/// declaration order, little-endian, with no padding.
pub open spec fn spec_attr_bytes(a: PerfEventAttr) -> Seq<u8> {
    spec_le32(a.type_) + spec_le32(a.size) + spec_le64(a.config) + spec_le64(
        a.sample_period_or_freq,
    ) + spec_le64(a.sample_type) + spec_le64(a.read_format) + spec_le64(a.flags) + spec_le32(
        a.wakeup_events_or_watermark,
    ) + spec_le32(a.bp_type) + spec_le64(a.config1) + spec_le64(a.config2) + spec_le64(
        a.branch_sample_type,
    ) + spec_le64(a.sample_regs_user) + spec_le32(a.sample_stack_user) + spec_le32(
        a.clockid as u32,
    ) + spec_le64(a.sample_regs_intr) + spec_le32(a.aux_watermark) + spec_le16(a.sample_max_stack)
        + spec_le16(a.reserved_2) + spec_le32(a.aux_sample_size) + spec_le32(a.reserved_3)
        + spec_le64(a.sig_data) + spec_le64(a.config3)
}

impl PerfEventAttr {
    /// Create a request for a counter of the given monitoring interface,
    /// selecting the counter by its packed config value; every other field
    /// is zero ("all processes, one reference CPU, no group leader, default
    /// flags") and the size names this layout revision.
    pub fn new_i915(pmu_type: u32, config: u64) -> (r: Self)
        ensures
            r == (PerfEventAttr { type_: pmu_type, config, ..Self::spec_zeroed() }),
            r.size == PERF_ATTR_SIZE,
    {
        PerfEventAttr { type_: pmu_type, config, ..Self::default() }
    }

    /// The all-zero request with the layout-revision size filled in.
    pub open spec fn spec_zeroed() -> PerfEventAttr {
        PerfEventAttr {
            type_: 0,
            size: PERF_ATTR_SIZE,
            config: 0,
            sample_period_or_freq: 0,
            sample_type: 0,
            read_format: 0,
            flags: 0,
            wakeup_events_or_watermark: 0,
            bp_type: 0,
            config1: 0,
            config2: 0,
            branch_sample_type: 0,
            sample_regs_user: 0,
            sample_stack_user: 0,
            clockid: 0,
            sample_regs_intr: 0,
            aux_watermark: 0,
            sample_max_stack: 0,
            reserved_2: 0,
            aux_sample_size: 0,
            reserved_3: 0,
            sig_data: 0,
            config3: 0,
        }
    }

    /// Encode the request in the kernel's wire layout. The result always has
    /// exactly [`PERF_ATTR_SIZE`] bytes, matching the size field the
    /// constructors set.
    pub fn to_bytes(&self) -> (r: Vec<u8>)
        ensures
            r@ == spec_attr_bytes(*self),
            r@.len() == PERF_ATTR_SIZE,
    {
        let mut out: Vec<u8> = Vec::new();
        push_le32(&mut out, self.type_);
        push_le32(&mut out, self.size);
        push_le64(&mut out, self.config);
        push_le64(&mut out, self.sample_period_or_freq);
        push_le64(&mut out, self.sample_type);
        push_le64(&mut out, self.read_format);
        push_le64(&mut out, self.flags);
        push_le32(&mut out, self.wakeup_events_or_watermark);
        push_le32(&mut out, self.bp_type);
        push_le64(&mut out, self.config1);
        push_le64(&mut out, self.config2);
        push_le64(&mut out, self.branch_sample_type);
        push_le64(&mut out, self.sample_regs_user);
        push_le32(&mut out, self.sample_stack_user);
        push_le32(&mut out, self.clockid as u32);
        push_le64(&mut out, self.sample_regs_intr);
        push_le32(&mut out, self.aux_watermark);
        push_le16(&mut out, self.sample_max_stack);
        push_le16(&mut out, self.reserved_2);
        push_le32(&mut out, self.aux_sample_size);
        push_le32(&mut out, self.reserved_3);
        push_le64(&mut out, self.sig_data);
        push_le64(&mut out, self.config3);
        proof {
            assert(out@ =~= spec_attr_bytes(*self));
        }
        out
    }
}

impl Default for PerfEventAttr {
    /// The all-zero request with the layout-revision size filled in.
    fn default() -> (r: Self)
        ensures
            r == Self::spec_zeroed(),
            r.size == PERF_ATTR_SIZE,
    {
        PerfEventAttr {
            type_: 0,
            size: PERF_ATTR_SIZE,
            config: 0,
            sample_period_or_freq: 0,
            sample_type: 0,
            read_format: 0,
            flags: 0,
            wakeup_events_or_watermark: 0,
            bp_type: 0,
            config1: 0,
            config2: 0,
            branch_sample_type: 0,
            sample_regs_user: 0,
            sample_stack_user: 0,
            clockid: 0,
            sample_regs_intr: 0,
            aux_watermark: 0,
            sample_max_stack: 0,
            reserved_2: 0,
            aux_sample_size: 0,
            reserved_3: 0,
            sig_data: 0,
            config3: 0,
        }
    }
}

/// Classify a failed counter-open syscall: permission errors become the
/// distinguished permission-denied condition, a missing event becomes the
/// event-not-supported condition, and anything else carries the OS error
/// with the event name.
pub fn classify_open_error(errno: i32, event_name: String) -> (r: Error)
    ensures
        (errno == EACCES || errno == EPERM) ==> r is PermissionDenied,
        (errno != EACCES && errno != EPERM && errno == ENOENT) ==> (r matches
            Error::EventNotSupported { event } && event == event_name),
        (errno != EACCES && errno != EPERM && errno != ENOENT) ==> (r matches
            Error::PerfEventOpen { event, errno: e } && event == event_name && e == errno),
{
    if errno == EACCES || errno == EPERM {
        let message: String =
            "Cannot open perf event '".to_owned().concat(event_name.as_str()).concat(
            "'. Try: run as root, add user to 'render' group, or grant CAP_PERFMON",
        );
        Error::PermissionDenied { message }
    } else if errno == ENOENT {
        Error::EventNotSupported { event: event_name }
    } else {
        Error::PerfEventOpen { event: event_name, errno }
    }
}

/// The 64-bit value encoded by 8 little-endian bytes.
pub open spec fn spec_u64_from_le(b: Seq<u8>) -> u64
    recommends
        b.len() == 8,
{
    (b[0] as u64) | ((b[1] as u64) << 8) | ((b[2] as u64) << 16) | ((b[3] as u64) << 24) | ((
    b[4] as u64) << 32) | ((b[5] as u64) << 40) | ((b[6] as u64) << 48) | ((b[7] as u64) << 56)
}

/// Decode one counter-value payload: the cumulative 64-bit counter value as
/// a fixed 8-byte little-endian quantity. Anything shorter or longer is a
/// short read and a hard error, tagged with the event name for diagnosis.
pub fn decode_counter_value(payload: &Vec<u8>, event_name: &String) -> (r: Result<u64, Error>)
    ensures
        payload@.len() == 8 ==> r == Ok::<u64, Error>(spec_u64_from_le(payload@)),
        payload@.len() != 8 ==> (r matches Err(e) && e matches Error::PerfEventRead {
            event,
            errno,
        } && event == *event_name && errno == 0),
{
    if payload.len() != 8 {
        return Err(Error::PerfEventRead { event: event_name.clone(), errno: 0 });
    }
    let v = (payload[0] as u64) | ((payload[1] as u64) << 8u64) | ((payload[2] as u64) << 16u64)
        | ((payload[3] as u64) << 24u64) | ((payload[4] as u64) << 32u64) | ((payload[5] as u64)
        << 40u64) | ((payload[6] as u64) << 48u64) | ((payload[7] as u64) << 56u64);
    Ok(v)
}

/// Decoding inverts the little-endian encoding: a counter value written as
/// its 8-byte payload reads back unchanged.
pub proof fn lemma_le64_roundtrip(v: u64)
    ensures
        spec_u64_from_le(spec_le64(v)) == v,
{
    let b = spec_le64(v);
    assert(((v & 0xff) as u64) | ((((v >> 8) & 0xff) as u64) << 8) | ((((v >> 16) & 0xff) as u64)
        << 16) | ((((v >> 24) & 0xff) as u64) << 24) | ((((v >> 32) & 0xff) as u64) << 32) | (((
    (v >> 40) & 0xff) as u64) << 40) | ((((v >> 48) & 0xff) as u64) << 48) | ((((v >> 56) & 0xff)
        as u64) << 56) == v) by (bit_vector);
    assert(b[0] == (v & 0xff) as u8);
    assert((((v & 0xff) as u8) as u64) == ((v & 0xff) as u64)) by (bit_vector);
    assert(((((v >> 8) & 0xff) as u8) as u64) == (((v >> 8) & 0xff) as u64)) by (bit_vector);
    assert(((((v >> 16) & 0xff) as u8) as u64) == (((v >> 16) & 0xff) as u64)) by (bit_vector);
    assert(((((v >> 24) & 0xff) as u8) as u64) == (((v >> 24) & 0xff) as u64)) by (bit_vector);
    assert(((((v >> 32) & 0xff) as u8) as u64) == (((v >> 32) & 0xff) as u64)) by (bit_vector);
    assert(((((v >> 40) & 0xff) as u8) as u64) == (((v >> 40) & 0xff) as u64)) by (bit_vector);
    assert(((((v >> 48) & 0xff) as u8) as u64) == (((v >> 48) & 0xff) as u64)) by (bit_vector);
    assert(((((v >> 56) & 0xff) as u8) as u64) == (((v >> 56) & 0xff) as u64)) by (bit_vector);
}

/// Classify a failed counter read: the OS error is carried with the event
/// name for diagnosis.
pub fn classify_read_error(errno: i32, event_name: String) -> (r: Error)
    ensures
        r matches Error::PerfEventRead { event, errno: e } && event == event_name && e == errno,
{
    Error::PerfEventRead { event: event_name, errno }
}

} // verus!
