//! Performance-monitoring interface discovery and configuration: the named
//! event table, the engine counter config-value packing, and the parsers for
//! the interface's sysfs text files.

use vstd::prelude::*;

use crate::strutil::find_char;
use crate::strutil::parse_hex_or_dec;
use crate::strutil::spec_find_char;
use crate::strutil::spec_parse_hex_or_dec;
use crate::strutil::spec_starts_with;
use crate::strutil::spec_trim;
use crate::strutil::str_eq;
use crate::strutil::str_trim;
use crate::strutil::strip_prefix;
use crate::strutil::substring;
use crate::strutil::lemma_find_char_props;
use crate::types::EngineClass;
use crate::types::GpuDriver;

verus! {

/// The Intel PCI vendor id.
pub const INTEL_VENDOR_ID: u16 = 0x8086;

/// The packed config value selecting one engine counter:
/// `(class << 16) | (instance << 8) | sample_type`.
pub open spec fn spec_engine_config(class: u16, instance: u16, sample_type: u8) -> u64 {
    ((class as u64) << 16) | ((instance as u64) << 8) | (sample_type as u64)
}

/// The `(class, instance, sample_type)` triple a packed config value selects.
pub open spec fn spec_decode_engine_config(config: u64) -> (u16, u16, u8) {
    (((config >> 16) as u16), (((config >> 8) & 0xff) as u16), ((config & 0xff) as u8))
}

/// Decode a packed config value into its class, instance and sample type.
pub fn decode_engine_config(config: u64) -> (r: (u16, u16, u8))
    ensures
        r == spec_decode_engine_config(config),
{
    (((config >> 16) as u16), (((config >> 8) & 0xff) as u16), ((config & 0xff) as u8))
}

/// Packing then decoding recovers the class, instance and sample type, for
/// every instance below 256 (the width of its field in the packed value).
pub proof fn lemma_engine_config_roundtrip(class: u16, instance: u16, sample_type: u8)
    requires
        instance < 256,
    ensures
        spec_decode_engine_config(spec_engine_config(class, instance, sample_type)) == (
            class,
            instance,
            sample_type,
        ),
{
    assert((((((class as u64) << 16) | ((instance as u64) << 8) | (sample_type as u64)) >> 16)
        as u16) == class) by (bit_vector)
        requires
            instance < 256,
    ;
    assert(((((((class as u64) << 16) | ((instance as u64) << 8) | (sample_type as u64)) >> 8)
        & 0xff) as u16) == instance) by (bit_vector)
        requires
            instance < 256,
    ;
    assert((((((class as u64) << 16) | ((instance as u64) << 8) | (sample_type as u64)) & 0xff)
        as u8) == sample_type) by (bit_vector);
}

/// Decoding then re-packing yields the original config value, for every
/// packed value within the documented 32-bit range.
pub proof fn lemma_engine_config_reencode(config: u64)
    requires
        config < 0x1_0000_0000,
    ensures
        ({
            let (class, instance, sample_type) = spec_decode_engine_config(config);
            spec_engine_config(class, instance, sample_type) == config
        }),
{
    assert(((((config >> 16) as u16) as u64) << 16) | (((((config >> 8) & 0xff) as u16) as u64)
        << 8) | (((config & 0xff) as u8) as u64) == config) by (bit_vector)
        requires
            config < 0x1_0000_0000,
    ;
}

/// The config value bound to the first event of the given name, if any.
pub open spec fn spec_event_lookup(events: Seq<(String, u64)>, name: Seq<char>) -> Option<u64>
    decreases events.len(),
{
    if events.len() == 0 {
        None
    } else if events[0].0@ == name {
        Some(events[0].1)
    } else {
        spec_event_lookup(events.drop_first(), name)
    }
}

/// Intel GPU performance-monitoring interface information.
#[derive(Debug, Clone)]
pub struct PmuInfo {
    /// Numeric interface type id for counter-open requests.
    pub type_id: u32,
    /// Path of the interface's sysfs directory.
    pub path: String,
    /// The named-event table: event name and its packed config value.
    pub events: Vec<(String, u64)>,
    /// Card id this interface belongs to (e.g., "card0").
    pub card_id: String,
    /// Driver variant the interface belongs to.
    pub driver: GpuDriver,
}

impl PmuInfo {
    /// The config value for a named event, if the table has it.
    pub fn event_config(&self, name: &str) -> (r: Option<u64>)
        ensures
            r == spec_event_lookup(self.events@, name@),
    {
        let n = self.events.len();
        let mut i: usize = 0;
        proof {
            assert(self.events@.subrange(0, n as int) =~= self.events@);
        }
        while i < n
            invariant
                n == self.events@.len(),
                i <= n,
                spec_event_lookup(self.events@, name@) == spec_event_lookup(
                    self.events@.subrange(i as int, n as int),
                    name@,
                ),
            decreases n - i,
        {
            let ghost pending = self.events@.subrange(i as int, n as int);
            proof {
                assert(pending[0] == self.events@[i as int]);
                assert(pending.drop_first() =~= self.events@.subrange(i + 1, n as int));
            }
            let entry = &self.events[i];
            if str_eq(entry.0.as_str(), name) {
                return Some(entry.1);
            }
            i = i + 1;
        }
        proof {
            assert(self.events@.subrange(n as int, n as int) =~= Seq::<(String, u64)>::empty());
        }
        None
    }

    /// Build the config value for an engine counter:
    /// `(class << 16) | (instance << 8) | sample_type`.
    pub fn engine_config(class: EngineClass, instance: u16, sample_type: u8) -> (r: u64)
        ensures
            r == spec_engine_config(class.spec_value(), instance, sample_type),
    {
        ((class.value() as u64) << 16u64) | ((instance as u64) << 8u64) | (sample_type as u64)
    }

    /// Whether a specific named event is available.
    pub fn has_event(&self, name: &str) -> (r: bool)
        ensures
            r == (spec_event_lookup(self.events@, name@) is Some),
    {
        self.event_config(name).is_some()
    }
}

/// The text after `config=` in the first comma-separated part of `s` whose
/// trimmed form starts with that key, if any part does.
pub open spec fn spec_find_config_part(s: Seq<char>) -> Option<Seq<char>>
    decreases s.len(),
{
    let part = match spec_find_char(s, ',') {
        Some(j) => if 0 <= j < s.len() {
            s.subrange(0, j)
        } else {
            s
        },
        None => s,
    };
    let trimmed = spec_trim(part);
    if spec_starts_with(trimmed, "config="@) {
        Some(trimmed.subrange("config="@.len() as int, trimmed.len() as int))
    } else {
        match spec_find_char(s, ',') {
            Some(j) => if 0 <= j < s.len() {
                spec_find_config_part(s.subrange(j + 1, s.len() as int))
            } else {
                None
            },
            None => None,
        }
    }
}

/// Find the value text of the first `config=` part.
fn find_config_part(s: &str) -> (r: Option<String>)
    ensures
        spec_find_config_part(s@) matches Some(v) ==> (r matches Some(out) && out@ == v),
        spec_find_config_part(s@) is None ==> r is None,
    decreases s@.len(),
{
    let len = s.unicode_len();
    let comma = find_char(s, ',');
    proof {
        lemma_find_char_props(s@, ',');
    }
    let part: String = match comma {
        Some(j) => substring(s, 0, j),
        None => {
            let whole = substring(s, 0, len);
            proof {
                assert(s@.subrange(0, len as int) =~= s@);
            }
            whole
        },
    };
    let trimmed = str_trim(part.as_str());
    match strip_prefix(trimmed.as_str(), "config=") {
        Some(rest) => Some(rest),
        None => match comma {
            Some(j) => {
                let tail = substring(s, j + 1, len);
                find_config_part(tail.as_str())
            },
            None => None,
        },
    }
}

/// The event config encoded by a sysfs event file: the value of the first
/// `config=` part if one exists, else the whole trimmed text, parsed as a
/// hexadecimal or decimal number.
pub open spec fn spec_parse_event_config(s: Seq<char>) -> Option<u64> {
    let t = spec_trim(s);
    match spec_find_config_part(t) {
        Some(v) => spec_parse_hex_or_dec(v),
        None => spec_parse_hex_or_dec(t),
    }
}

/// Parse an event config from its sysfs text (e.g. `config=0x1`).
pub fn parse_event_config(config_str: &str) -> (r: Option<u64>)
    ensures
        r == spec_parse_event_config(config_str@),
{
    let t = str_trim(config_str);
    match find_config_part(t.as_str()) {
        Some(value) => parse_hex_or_dec(value.as_str()),
        None => parse_hex_or_dec(t.as_str()),
    }
}

} // verus!
// Engine advertisement: which logical engines the interface's named-event
// table announces, per driver variant's naming convention.

use crate::strutil::spec_contains;
use crate::strutil::spec_ends_with;
use crate::strutil::spec_parse_u64_dec;
use crate::strutil::parse_u64_dec;
use crate::strutil::str_contains;
use crate::strutil::str_ends_with;
use crate::strutil::str_starts_with;
use crate::strutil::strip_suffix;

verus! {

/// A strictly ascending sequence: sorted with no duplicates.
pub open spec fn spec_sorted_unique(s: Seq<u16>) -> bool {
    forall|i: int, j: int| 0 <= i < j < s.len() ==> s[i] < s[j]
}

/// Insert a value into a strictly ascending vector, keeping it strictly
/// ascending; a value already present is not duplicated.
fn insert_sorted_unique(v: &mut Vec<u16>, x: u16)
    requires
        spec_sorted_unique(old(v)@),
    ensures
        spec_sorted_unique(final(v)@),
        forall|y: u16| #[trigger] final(v)@.contains(y) <==> (old(v)@.contains(y) || y == x),
{
    let n = v.len();
    let mut i: usize = 0;
    while i < n && v[i] < x
        invariant
            n == v@.len(),
            v@ == old(v)@,
            i <= n,
            forall|j: int| 0 <= j < i ==> v@[j] < x,
        decreases n - i,
    {
        i = i + 1;
    }
    if i < n && v[i] == x {
        proof {
            assert(old(v)@.contains(x));
            assert forall|y: u16| #[trigger] v@.contains(y) <==> (old(v)@.contains(y) || y == x)
            by {}
        }
        return ;
    }
    proof {
        if i < n {
            assert(v@[i as int] > x);
        }
        assert forall|j: int| i <= j < n implies #[trigger] v@[j] > x by {
            if v@[j] == x {
                if j == i {
                } else {
                    assert(v@[i as int] < v@[j]);
                }
            }
        }
    }
    let ghost olds = v@;
    v.insert(i, x);
    proof {
        olds.insert_ensures(i as int, x);
        let news = v@;
        assert(news.len() == olds.len() + 1);
        assert forall|y: u16| #[trigger] news.contains(y) implies (olds.contains(y) || y == x) by {
            let k = choose|k: int| 0 <= k < news.len() && news[k] == y;
            if k < i {
                assert(olds[k] == y);
            } else if k == i {
            } else {
                assert(news[k] == olds[k - 1]);
                assert(olds[k - 1] == y);
            }
        }
        assert forall|y: u16| (olds.contains(y) || y == x) implies #[trigger] news.contains(y) by {
            if olds.contains(y) {
                let k = choose|k: int| 0 <= k < olds.len() && olds[k] == y;
                if k < i {
                    assert(news[k] == y);
                } else {
                    assert(news[k + 1] == olds[k]);
                }
            } else {
                assert(news[i as int] == x);
            }
        }
        assert forall|a: int, b: int| 0 <= a < b < news.len() implies news[a] < news[b] by {
            if b < i {
                assert(news[a] == olds[a] && news[b] == olds[b]);
            } else if a < i && b == i {
                assert(news[a] == olds[a] && olds[a] < x);
            } else if a < i && b > i {
                assert(news[a] == olds[a] && news[b] == olds[b - 1]);
                assert(olds[a] < x && olds[b - 1] > x);
            } else if a == i {
                assert(news[b] == olds[b - 1] && olds[b - 1] > x);
            } else {
                assert(news[a] == olds[a - 1] && news[b] == olds[b - 1]);
            }
        }
    }
}

/// Whether a `u16` vector holds a given value.
pub fn vec_contains_u16(v: &Vec<u16>, x: u16) -> (r: bool)
    ensures
        r == v@.contains(x),
{
    let n = v.len();
    let mut i: usize = 0;
    while i < n
        invariant
            n == v@.len(),
            i <= n,
            forall|j: int| 0 <= j < i ==> v@[j] != x,
        decreases n - i,
    {
        if v[i] == x {
            return true;
        }
        i = i + 1;
    }
    proof {
        if v@.contains(x) {
            let k = choose|k: int| 0 <= k < v@.len() && v@[k] == x;
            assert(v@[k] != x);
        }
    }
    false
}

/// The engine class and instance a legacy-driver event name advertises:
/// a `<prefix>-busy` name whose prefix is one of the documented engine
/// names or `ccs<n>` for a numbered compute engine.
pub open spec fn spec_i915_engine(name: Seq<char>) -> Option<(u16, u16)> {
    if !spec_ends_with(name, "-busy"@) {
        None
    } else {
        let prefix = name.subrange(0, name.len() - "-busy"@.len());
        if prefix == "render"@ || prefix == "rcs0"@ {
            Some((0u16, 0u16))
        } else if prefix == "blitter"@ || prefix == "bcs0"@ {
            Some((1u16, 0u16))
        } else if prefix == "video"@ || prefix == "vcs0"@ {
            Some((2u16, 0u16))
        } else if prefix == "vcs1"@ {
            Some((2u16, 1u16))
        } else if prefix == "video_enhance"@ || prefix == "vecs0"@ {
            Some((3u16, 0u16))
        } else if prefix == "vecs1"@ {
            Some((3u16, 1u16))
        } else if prefix == "compute"@ || prefix == "ccs0"@ {
            Some((4u16, 0u16))
        } else if spec_starts_with(prefix, "ccs"@) {
            match spec_parse_u64_dec(prefix.subrange("ccs"@.len() as int, prefix.len() as int)) {
                Some(v) => if v <= u16::MAX {
                    Some((4u16, v as u16))
                } else {
                    None
                },
                None => None,
            }
        } else {
            None
        }
    }
}

/// Classify a legacy-driver event name.
fn classify_i915(name: &str) -> (r: Option<(u16, u16)>)
    ensures
        r == spec_i915_engine(name@),
        r matches Some(ci) ==> ci.0 <= 4,
{
    match strip_suffix(name, "-busy") {
        None => None,
        Some(prefix) => {
            let p = prefix.as_str();
            if str_eq(p, "render") || str_eq(p, "rcs0") {
                Some((0, 0))
            } else if str_eq(p, "blitter") || str_eq(p, "bcs0") {
                Some((1, 0))
            } else if str_eq(p, "video") || str_eq(p, "vcs0") {
                Some((2, 0))
            } else if str_eq(p, "vcs1") {
                Some((2, 1))
            } else if str_eq(p, "video_enhance") || str_eq(p, "vecs0") {
                Some((3, 0))
            } else if str_eq(p, "vecs1") {
                Some((3, 1))
            } else if str_eq(p, "compute") || str_eq(p, "ccs0") {
                Some((4, 0))
            } else {
                match strip_prefix(p, "ccs") {
                    Some(digits) => match parse_u64_dec(digits.as_str()) {
                        Some(v) => if v <= u16::MAX as u64 {
                            Some((4, v as u16))
                        } else {
                            None
                        },
                        None => None,
                    },
                    None => None,
                }
            }
        },
    }
}

/// The engine group a next-generation-driver event name advertises: names
/// hold `-group-busy` and begin with the group's name. 0 is render, 1 copy,
/// 2 media (video and video-enhance together), 3 compute.
pub open spec fn spec_xe_engine_group(name: Seq<char>) -> Option<u8> {
    if !spec_contains(name, "-group-busy"@) {
        None
    } else if spec_starts_with(name, "render-group-busy"@) {
        Some(0u8)
    } else if spec_starts_with(name, "copy-group-busy"@) {
        Some(1u8)
    } else if spec_starts_with(name, "media-group-busy"@) {
        Some(2u8)
    } else if spec_starts_with(name, "compute-group-busy"@) {
        Some(3u8)
    } else {
        None
    }
}

/// Classify a next-generation-driver event name.
fn classify_xe(name: &str) -> (r: Option<u8>)
    ensures
        r == spec_xe_engine_group(name@),
{
    if !str_contains(name, "-group-busy") {
        None
    } else if str_starts_with(name, "render-group-busy") {
        Some(0)
    } else if str_starts_with(name, "copy-group-busy") {
        Some(1)
    } else if str_starts_with(name, "media-group-busy") {
        Some(2)
    } else if str_starts_with(name, "compute-group-busy") {
        Some(3)
    } else {
        None
    }
}

/// Whether an event name advertises the given engine class and instance
/// under the given driver variant's naming convention.
pub open spec fn spec_event_advertises(
    driver: GpuDriver,
    name: Seq<char>,
    class: u16,
    instance: u16,
) -> bool {
    match driver {
        GpuDriver::I915 => spec_i915_engine(name) == Some((class, instance)),
        GpuDriver::Xe => match spec_xe_engine_group(name) {
            Some(g) => instance == 0 && ((g == 0 && class == 0) || (g == 1 && class == 1) || (g
                == 2 && (class == 2 || class == 3)) || (g == 3 && class == 4)),
            None => false,
        },
    }
}

/// Whether an event name advertises any engine under the driver's convention.
pub open spec fn spec_event_classifies(driver: GpuDriver, name: Seq<char>) -> bool {
    match driver {
        GpuDriver::I915 => spec_i915_engine(name) is Some,
        GpuDriver::Xe => spec_xe_engine_group(name) is Some,
    }
}

/// Whether one of the first `n` events advertises the given class/instance.
pub open spec fn spec_advertised_upto(
    events: Seq<(String, u64)>,
    driver: GpuDriver,
    n: int,
    class: u16,
    instance: u16,
) -> bool {
    exists|k: int|
        0 <= k < n && spec_event_advertises(driver, (#[trigger] events[k]).0@, class, instance)
}

/// Whether any event advertises the given class/instance.
pub open spec fn spec_advertised(
    events: Seq<(String, u64)>,
    driver: GpuDriver,
    class: u16,
    instance: u16,
) -> bool {
    spec_advertised_upto(events, driver, events.len() as int, class, instance)
}

/// Extending the scanned prefix by one event extends the advertised set by
/// exactly what that event advertises.
proof fn lemma_advertised_step(events: Seq<(String, u64)>, driver: GpuDriver, i: int)
    requires
        0 <= i < events.len(),
    ensures
        forall|c: u16, y: u16| #[trigger]
            spec_advertised_upto(events, driver, i + 1, c, y) <==> (spec_advertised_upto(
                events,
                driver,
                i,
                c,
                y,
            ) || spec_event_advertises(driver, events[i].0@, c, y)),
{
    assert forall|c: u16, y: u16| #[trigger]
        spec_advertised_upto(events, driver, i + 1, c, y) implies (spec_advertised_upto(
        events,
        driver,
        i,
        c,
        y,
    ) || spec_event_advertises(driver, events[i].0@, c, y)) by {
        let k = choose|k: int|
            0 <= k < i + 1 && spec_event_advertises(driver, (#[trigger] events[k]).0@, c, y);
        if k < i {
            assert(spec_advertised_upto(events, driver, i, c, y));
        }
    }
    assert forall|c: u16, y: u16|
        (spec_advertised_upto(events, driver, i, c, y) || spec_event_advertises(
            driver,
            events[i].0@,
            c,
            y,
        )) implies #[trigger] spec_advertised_upto(events, driver, i + 1, c, y) by {
        if spec_advertised_upto(events, driver, i, c, y) {
            let k = choose|k: int|
                0 <= k < i && spec_event_advertises(driver, (#[trigger] events[k]).0@, c, y);
            assert(spec_event_advertises(driver, events[k].0@, c, y));
        } else {
            assert(spec_event_advertises(driver, events[i].0@, c, y));
        }
    }
}

/// The engine instances the interface advertises, one strictly ascending
/// list per engine class.
#[derive(Debug, Clone)]
pub struct EngineInstances {
    /// Advertised render engine instances.
    pub render: Vec<u16>,
    /// Advertised copy/blitter engine instances.
    pub copy: Vec<u16>,
    /// Advertised video engine instances.
    pub video: Vec<u16>,
    /// Advertised video-enhance engine instances.
    pub video_enhance: Vec<u16>,
    /// Advertised compute engine instances.
    pub compute: Vec<u16>,
}

impl EngineInstances {
    /// Every per-class list is strictly ascending.
    pub open spec fn well_formed(&self) -> bool {
        &&& spec_sorted_unique(self.render@)
        &&& spec_sorted_unique(self.copy@)
        &&& spec_sorted_unique(self.video@)
        &&& spec_sorted_unique(self.video_enhance@)
        &&& spec_sorted_unique(self.compute@)
    }
}

/// Collect the engine instances the interface's named-event table
/// advertises, deduplicated and sorted per class. When the table advertises
/// no engine at all, fall back to assuming instance 0 of the four basic
/// engines — an over-optimistic default kept from the interface's
/// documentation, since hardware may genuinely lack some of them.
pub fn get_engine_instances(pmu: &PmuInfo) -> (r: EngineInstances)
    ensures
        r.well_formed(),
        (exists|k: int|
            0 <= k < pmu.events@.len() && spec_event_classifies(
                pmu.driver,
                (#[trigger] pmu.events@[k]).0@,
            )) ==> {
            &&& (forall|y: u16| #[trigger]
                r.render@.contains(y) <==> spec_advertised(pmu.events@, pmu.driver, 0, y))
            &&& (forall|y: u16| #[trigger]
                r.copy@.contains(y) <==> spec_advertised(pmu.events@, pmu.driver, 1, y))
            &&& (forall|y: u16| #[trigger]
                r.video@.contains(y) <==> spec_advertised(pmu.events@, pmu.driver, 2, y))
            &&& (forall|y: u16| #[trigger]
                r.video_enhance@.contains(y) <==> spec_advertised(pmu.events@, pmu.driver, 3, y))
            &&& (forall|y: u16| #[trigger]
                r.compute@.contains(y) <==> spec_advertised(pmu.events@, pmu.driver, 4, y))
        },
        !(exists|k: int|
            0 <= k < pmu.events@.len() && spec_event_classifies(
                pmu.driver,
                (#[trigger] pmu.events@[k]).0@,
            )) ==> {
            &&& r.render@ == seq![0u16]
            &&& r.copy@ == seq![0u16]
            &&& r.video@ == seq![0u16]
            &&& r.video_enhance@ == seq![0u16]
            &&& r.compute@ == Seq::<u16>::empty()
        },
{
    let n = pmu.events.len();
    let mut render: Vec<u16> = Vec::new();
    let mut copy: Vec<u16> = Vec::new();
    let mut video: Vec<u16> = Vec::new();
    let mut video_enhance: Vec<u16> = Vec::new();
    let mut compute: Vec<u16> = Vec::new();
    let mut i: usize = 0;
    while i < n
        invariant
            n == pmu.events@.len(),
            i <= n,
            spec_sorted_unique(render@),
            spec_sorted_unique(copy@),
            spec_sorted_unique(video@),
            spec_sorted_unique(video_enhance@),
            spec_sorted_unique(compute@),
            forall|y: u16| #[trigger]
                render@.contains(y) <==> spec_advertised_upto(
                    pmu.events@,
                    pmu.driver,
                    i as int,
                    0,
                    y,
                ),
            forall|y: u16| #[trigger]
                copy@.contains(y) <==> spec_advertised_upto(pmu.events@, pmu.driver, i as int, 1, y),
            forall|y: u16| #[trigger]
                video@.contains(y) <==> spec_advertised_upto(
                    pmu.events@,
                    pmu.driver,
                    i as int,
                    2,
                    y,
                ),
            forall|y: u16| #[trigger]
                video_enhance@.contains(y) <==> spec_advertised_upto(
                    pmu.events@,
                    pmu.driver,
                    i as int,
                    3,
                    y,
                ),
            forall|y: u16| #[trigger]
                compute@.contains(y) <==> spec_advertised_upto(
                    pmu.events@,
                    pmu.driver,
                    i as int,
                    4,
                    y,
                ),
        decreases n - i,
    {
        proof {
            lemma_advertised_step(pmu.events@, pmu.driver, i as int);
        }
        let name = &pmu.events[i].0;
        match pmu.driver {
            GpuDriver::I915 => {
                match classify_i915(name.as_str()) {
                    Some(ci) => {
                        let (class, instance) = ci;
                        if class == 0 {
                            insert_sorted_unique(&mut render, instance);
                        } else if class == 1 {
                            insert_sorted_unique(&mut copy, instance);
                        } else if class == 2 {
                            insert_sorted_unique(&mut video, instance);
                        } else if class == 3 {
                            insert_sorted_unique(&mut video_enhance, instance);
                        } else {
                            insert_sorted_unique(&mut compute, instance);
                        }
                    },
                    None => {},
                }
            },
            GpuDriver::Xe => {
                match classify_xe(name.as_str()) {
                    Some(group) => {
                        if group == 0 {
                            insert_sorted_unique(&mut render, 0);
                        } else if group == 1 {
                            insert_sorted_unique(&mut copy, 0);
                        } else if group == 2 {
                            insert_sorted_unique(&mut video, 0);
                            insert_sorted_unique(&mut video_enhance, 0);
                        } else {
                            insert_sorted_unique(&mut compute, 0);
                        }
                    },
                    None => {},
                }
            },
        }
        i = i + 1;
    }
    let nothing_advertised = render.len() == 0 && copy.len() == 0 && video.len() == 0
        && video_enhance.len() == 0 && compute.len() == 0;
    if nothing_advertised {
        proof {
            assert forall|k: int|
                0 <= k < pmu.events@.len() implies !spec_event_classifies(
                pmu.driver,
                (#[trigger] pmu.events@[k]).0@,
            ) by {
                let name = pmu.events@[k].0@;
                if spec_event_classifies(pmu.driver, name) {
                    match pmu.driver {
                        GpuDriver::I915 => {
                            let ci = spec_i915_engine(name)->Some_0;
                            assert(spec_event_advertises(pmu.driver, name, ci.0, ci.1));
                            assert(spec_advertised_upto(pmu.events@, pmu.driver, n as int, ci.0, ci.1));
                            assert(ci.0 <= 4);
                            if ci.0 == 0 {
                                assert(render@.contains(ci.1));
                            } else if ci.0 == 1 {
                                assert(copy@.contains(ci.1));
                            } else if ci.0 == 2 {
                                assert(video@.contains(ci.1));
                            } else if ci.0 == 3 {
                                assert(video_enhance@.contains(ci.1));
                            } else {
                                assert(compute@.contains(ci.1));
                            }
                        },
                        GpuDriver::Xe => {
                            let g = spec_xe_engine_group(name)->Some_0;
                            assert(g <= 3);
                            if g == 0 {
                                assert(spec_event_advertises(pmu.driver, name, 0, 0));
                                assert(spec_advertised_upto(pmu.events@, pmu.driver, n as int, 0, 0));
                                assert(render@.contains(0));
                            } else if g == 1 {
                                assert(spec_event_advertises(pmu.driver, name, 1, 0));
                                assert(spec_advertised_upto(pmu.events@, pmu.driver, n as int, 1, 0));
                                assert(copy@.contains(0));
                            } else if g == 2 {
                                assert(spec_event_advertises(pmu.driver, name, 2, 0));
                                assert(spec_advertised_upto(pmu.events@, pmu.driver, n as int, 2, 0));
                                assert(video@.contains(0));
                            } else {
                                assert(spec_event_advertises(pmu.driver, name, 4, 0));
                                assert(spec_advertised_upto(pmu.events@, pmu.driver, n as int, 4, 0));
                                assert(compute@.contains(0));
                            }
                        },
                    }
                }
            }
        }
        let mut basic_render: Vec<u16> = Vec::new();
        basic_render.push(0);
        let mut basic_copy: Vec<u16> = Vec::new();
        basic_copy.push(0);
        let mut basic_video: Vec<u16> = Vec::new();
        basic_video.push(0);
        let mut basic_video_enhance: Vec<u16> = Vec::new();
        basic_video_enhance.push(0);
        proof {
            assert(basic_render@ =~= seq![0u16]);
            assert(basic_copy@ =~= seq![0u16]);
            assert(basic_video@ =~= seq![0u16]);
            assert(basic_video_enhance@ =~= seq![0u16]);
        }
        return EngineInstances {
            render: basic_render,
            copy: basic_copy,
            video: basic_video,
            video_enhance: basic_video_enhance,
            compute,
        };
    }
    proof {
        if exists|k: int|
            0 <= k < pmu.events@.len() && spec_event_classifies(
                pmu.driver,
                (#[trigger] pmu.events@[k]).0@,
            ) {
        } else {
            if render@.len() > 0 {
                let y = render@[0];
                assert(render@.contains(y));
                let k = choose|k: int|
                    0 <= k < n && spec_event_advertises(
                        pmu.driver,
                        (#[trigger] pmu.events@[k]).0@,
                        0,
                        y,
                    );
                assert(spec_event_classifies(pmu.driver, pmu.events@[k].0@));
            } else if copy@.len() > 0 {
                let y = copy@[0];
                assert(copy@.contains(y));
                let k = choose|k: int|
                    0 <= k < n && spec_event_advertises(
                        pmu.driver,
                        (#[trigger] pmu.events@[k]).0@,
                        1,
                        y,
                    );
                assert(spec_event_classifies(pmu.driver, pmu.events@[k].0@));
            } else if video@.len() > 0 {
                let y = video@[0];
                assert(video@.contains(y));
                let k = choose|k: int|
                    0 <= k < n && spec_event_advertises(
                        pmu.driver,
                        (#[trigger] pmu.events@[k]).0@,
                        2,
                        y,
                    );
                assert(spec_event_classifies(pmu.driver, pmu.events@[k].0@));
            } else if video_enhance@.len() > 0 {
                let y = video_enhance@[0];
                assert(video_enhance@.contains(y));
                let k = choose|k: int|
                    0 <= k < n && spec_event_advertises(
                        pmu.driver,
                        (#[trigger] pmu.events@[k]).0@,
                        3,
                        y,
                    );
                assert(spec_event_classifies(pmu.driver, pmu.events@[k].0@));
            } else {
                let y = compute@[0];
                assert(compute@.contains(y));
                let k = choose|k: int|
                    0 <= k < n && spec_event_advertises(
                        pmu.driver,
                        (#[trigger] pmu.events@[k]).0@,
                        4,
                        y,
                    );
                assert(spec_event_classifies(pmu.driver, pmu.events@[k].0@));
            }
        }
    }
    EngineInstances { render, copy, video, video_enhance, compute }
}

} // verus!
