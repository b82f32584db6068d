//! Device and interface discovery decisions.
//!
//! The OS layer walks the two well-known enumeration roots and hands this
//! module a plain snapshot of what it saw: entry names, small file contents
//! and symlink targets. Everything decided from those snapshots — filtering,
//! correlation, identifier parsing and the distinct not-found outcomes — is
//! verified here.

use vstd::prelude::*;

use crate::error::Error;
use crate::pmu::spec_parse_event_config;
use crate::pmu::parse_event_config;
use crate::pmu::PmuInfo;
use crate::strutil::find_char;
use crate::strutil::parse_u64_dec;
use crate::strutil::spec_contains;
use crate::strutil::spec_find_char;
use crate::strutil::spec_parse_hex_or_dec;
use crate::strutil::spec_parse_u64_dec;
use crate::strutil::spec_starts_with;
use crate::strutil::spec_trim;
use crate::strutil::spec_u64_dec;
use crate::strutil::parse_hex_or_dec;
use crate::strutil::str_contains;
use crate::strutil::str_eq;
use crate::strutil::str_starts_with;
use crate::strutil::str_trim;
use crate::strutil::strip_prefix;
use crate::strutil::substring;
use crate::strutil::u64_to_dec;
use crate::types::GpuDriver;
use crate::types::GpuInfo;

verus! {

/// What the OS layer saw for one entry of the device enumeration root.
#[derive(Debug, Clone)]
pub struct CardEntry {
    /// The entry's name (e.g., "card0").
    pub name: String,
    /// Contents of the device's vendor id file, if readable.
    pub vendor_text: Option<String>,
    /// Contents of the device's device id file, if readable.
    pub device_text: Option<String>,
    /// Target of the device's bus-address symlink; empty when unreadable.
    pub pci_path: String,
    /// Base name of the device's driver symlink target, if readable.
    pub driver_name: Option<String>,
    /// Whether the card device node exists for this entry.
    pub has_card_node: bool,
    /// Whether the render device node exists for this entry.
    pub has_render_node: bool,
}

/// The view of an optional string.
pub open spec fn spec_opt_view(o: Option<String>) -> Option<Seq<char>> {
    match o {
        Some(s) => Some(s@),
        None => None,
    }
}

/// The 16-bit id encoded by an id file's text, if the text parses.
pub open spec fn spec_parsed_id(text: Option<String>) -> Option<u16> {
    match text {
        Some(t) => match spec_parse_hex_or_dec(t@) {
            Some(v) => Some((v & 0xffff) as u16),
            None => None,
        },
        None => None,
    }
}

/// Parse a vendor or device id file: a hexadecimal or decimal number whose
/// low 16 bits are the id.
pub fn parse_id_text(text: &Option<String>) -> (r: Option<u16>)
    ensures
        r == spec_parsed_id(*text),
{
    match text {
        Some(t) => match parse_hex_or_dec(t.as_str()) {
            Some(v) => Some((v & 0xffff) as u16),
            None => None,
        },
        None => None,
    }
}

/// The driver variant named by a driver symlink's base name.
pub open spec fn spec_driver_of_name(name: Option<String>) -> Option<GpuDriver> {
    match name {
        Some(s) => if s@ == "i915"@ {
            Some(GpuDriver::I915)
        } else if s@ == "xe"@ {
            Some(GpuDriver::Xe)
        } else {
            None
        },
        None => None,
    }
}

/// Detect which kernel driver manages a device from its driver symlink.
pub fn detect_gpu_driver(driver_name: &Option<String>) -> (r: Option<GpuDriver>)
    ensures
        r == spec_driver_of_name(*driver_name),
{
    match driver_name {
        Some(s) => {
            if str_eq(s.as_str(), "i915") {
                Some(GpuDriver::I915)
            } else if str_eq(s.as_str(), "xe") {
                Some(GpuDriver::Xe)
            } else {
                None
            }
        },
        None => None,
    }
}

/// The render node path for a card entry: render node numbers start at 128,
/// so "cardN" maps to "/dev/dri/renderD(128+N)" — present only when the OS
/// layer saw that node.
pub open spec fn spec_render_node(name: Seq<char>, has_render_node: bool) -> Option<Seq<char>> {
    if spec_starts_with(name, "card"@) {
        match spec_parse_u64_dec(name.subrange("card"@.len() as int, name.len() as int)) {
            Some(v) => if v <= u32::MAX && has_render_node {
                Some("/dev/dri/renderD"@ + spec_u64_dec((128 + v) as u64))
            } else {
                None
            },
            None => None,
        }
    } else {
        None
    }
}

/// Find the render node path for a card.
pub fn find_render_node(card_id: &str, has_render_node: bool) -> (r: Option<String>)
    ensures
        spec_opt_view(r) == spec_render_node(card_id@, has_render_node),
{
    match strip_prefix(card_id, "card") {
        Some(num_str) => match parse_u64_dec(num_str.as_str()) {
            Some(v) => if v <= u32::MAX as u64 && has_render_node {
                let base: String = "/dev/dri/renderD".to_owned();
                Some(base.concat(u64_to_dec(128 + v).as_str()))
            } else {
                None
            },
            None => None,
        },
        None => None,
    }
}

/// The card node path for a card entry: "/dev/dri/card" followed by the
/// entry's number text (or "0" for an unconventional name) — present only
/// when the OS layer saw that node.
pub open spec fn spec_card_node(name: Seq<char>, has_card_node: bool) -> Option<Seq<char>> {
    if has_card_node {
        let num = if spec_starts_with(name, "card"@) {
            name.subrange("card"@.len() as int, name.len() as int)
        } else {
            "0"@
        };
        Some("/dev/dri/card"@ + num)
    } else {
        None
    }
}

/// Find the card node path for a card.
pub fn find_card_node(card_id: &str, has_card_node: bool) -> (r: Option<String>)
    ensures
        spec_opt_view(r) == spec_card_node(card_id@, has_card_node),
{
    if has_card_node {
        let base: String = "/dev/dri/card".to_owned();
        match strip_prefix(card_id, "card") {
            Some(num_str) => Some(base.concat(num_str.as_str())),
            None => Some(base.concat("0")),
        }
    } else {
        None
    }
}

/// The marketing name for a known device id.
pub open spec fn spec_device_name(device_id: u16) -> Option<Seq<char>> {
    if (0x3e90 <= device_id && device_id <= 0x3e92) || device_id == 0x3e98 {
        Some("Intel UHD Graphics 630"@)
    } else if device_id == 0x5917 {
        Some("Intel UHD Graphics 620"@)
    } else if device_id == 0x9a49 || device_id == 0x9a40 {
        Some("Intel UHD Graphics (11th Gen)"@)
    } else if device_id == 0x4680 {
        Some("Intel UHD Graphics 770"@)
    } else if device_id == 0x4692 {
        Some("Intel UHD Graphics 730"@)
    } else if device_id == 0x8a52 {
        Some("Intel Iris Plus Graphics G7"@)
    } else if device_id == 0x8a56 {
        Some("Intel Iris Plus Graphics G1"@)
    } else if device_id == 0x9a78 || device_id == 0x46a6 {
        Some("Intel Iris Xe Graphics"@)
    } else if device_id == 0x5690 {
        Some("Intel Arc A770M"@)
    } else if device_id == 0x5691 {
        Some("Intel Arc A730M"@)
    } else if device_id == 0x5692 {
        Some("Intel Arc A550M"@)
    } else if device_id == 0x56a0 {
        Some("Intel Arc A770"@)
    } else if device_id == 0x56a1 {
        Some("Intel Arc A750"@)
    } else if device_id == 0x56a5 {
        Some("Intel Arc A380"@)
    } else {
        None
    }
}

/// The marketing name for a device id, for the ids this library knows.
pub fn get_device_name(device_id: u16) -> (r: Option<String>)
    ensures
        spec_opt_view(r) == spec_device_name(device_id),
{
    let name: &'static str = if (0x3e90 <= device_id && device_id <= 0x3e92) || device_id
        == 0x3e98 {
        "Intel UHD Graphics 630"
    } else if device_id == 0x5917 {
        "Intel UHD Graphics 620"
    } else if device_id == 0x9a49 || device_id == 0x9a40 {
        "Intel UHD Graphics (11th Gen)"
    } else if device_id == 0x4680 {
        "Intel UHD Graphics 770"
    } else if device_id == 0x4692 {
        "Intel UHD Graphics 730"
    } else if device_id == 0x8a52 {
        "Intel Iris Plus Graphics G7"
    } else if device_id == 0x8a56 {
        "Intel Iris Plus Graphics G1"
    } else if device_id == 0x9a78 || device_id == 0x46a6 {
        "Intel Iris Xe Graphics"
    } else if device_id == 0x5690 {
        "Intel Arc A770M"
    } else if device_id == 0x5691 {
        "Intel Arc A730M"
    } else if device_id == 0x5692 {
        "Intel Arc A550M"
    } else if device_id == 0x56a0 {
        "Intel Arc A770"
    } else if device_id == 0x56a1 {
        "Intel Arc A750"
    } else if device_id == 0x56a5 {
        "Intel Arc A380"
    } else {
        return None;
    };
    Some(name.to_owned())
}

/// Whether a card entry parses into device information: both id files were
/// readable and hold numbers.
pub open spec fn spec_card_parses(e: CardEntry) -> bool {
    spec_parsed_id(e.vendor_text) is Some && spec_parsed_id(e.device_text) is Some
}

/// Assemble the device information of one card entry. Fails exactly when an
/// id file is missing or malformed, with a sysfs-parse error.
pub fn read_gpu_info(entry: &CardEntry) -> (r: Result<GpuInfo, Error>)
    ensures
        r is Ok <==> spec_card_parses(*entry),
        r matches Ok(g) ==> {
            &&& g.id@ == entry.name@
            &&& g.pci_path@ == entry.pci_path@
            &&& Some(g.vendor_id) == spec_parsed_id(entry.vendor_text)
            &&& Some(g.device_id) == spec_parsed_id(entry.device_text)
            &&& g.driver == spec_driver_of_name(entry.driver_name)
            &&& spec_opt_view(g.render_node) == spec_render_node(
                entry.name@,
                entry.has_render_node,
            )
            &&& spec_opt_view(g.card_node) == spec_card_node(entry.name@, entry.has_card_node)
            &&& spec_opt_view(g.device_name) == spec_device_name(g.device_id)
        },
        r matches Err(e) ==> e is SysfsParse,
{
    let vendor_id = match parse_id_text(&entry.vendor_text) {
        Some(v) => v,
        None => {
            return Err(
                Error::sysfs_parse(entry.name.clone(), "invalid or unreadable vendor id".to_owned()),
            );
        },
    };
    let device_id = match parse_id_text(&entry.device_text) {
        Some(v) => v,
        None => {
            return Err(
                Error::sysfs_parse(entry.name.clone(), "invalid or unreadable device id".to_owned()),
            );
        },
    };
    let driver = detect_gpu_driver(&entry.driver_name);
    let render_node = find_render_node(entry.name.as_str(), entry.has_render_node);
    let card_node = find_card_node(entry.name.as_str(), entry.has_card_node);
    let device_name = get_device_name(device_id);
    Ok(
        GpuInfo {
            id: entry.name.clone(),
            pci_path: entry.pci_path.clone(),
            device_name,
            vendor_id,
            device_id,
            render_node,
            card_node,
            driver,
        },
    )
}

/// Whether a card entry is an Intel GPU candidate: a plain card entry (name
/// begins with "card" and holds no dash), its id files parse, and the vendor
/// id is Intel's.
pub open spec fn spec_card_selected(e: CardEntry) -> bool {
    &&& spec_starts_with(e.name@, "card"@)
    &&& spec_find_char(e.name@, '-') is None
    &&& spec_card_parses(e)
    &&& spec_parsed_id(e.vendor_text) == Some(0x8086u16)
}

/// Filter the enumeration snapshot down to Intel GPUs. An empty result is
/// never a success: when no candidate passes the vendor filter the outcome
/// is the distinguished no-GPU-found error.
pub fn discover_gpus(entries: &Vec<CardEntry>) -> (r: Result<Vec<GpuInfo>, Error>)
    ensures
        r is Ok <==> exists|i: int|
            0 <= i < entries@.len() && spec_card_selected(#[trigger] entries@[i]),
        r matches Err(e) ==> e is NoGpuFound,
        r matches Ok(gpus) ==> {
            &&& gpus@.len() > 0
            &&& forall|j: int|
                0 <= j < gpus@.len() ==> (#[trigger] gpus@[j]).vendor_id == 0x8086
            &&& forall|j: int|
                0 <= j < gpus@.len() ==> exists|i: int|
                    0 <= i < entries@.len() && spec_card_selected(#[trigger] entries@[i]) && (
                    #[trigger] gpus@[j]).id@ == entries@[i].name@ && gpus@[j].pci_path@
                        == entries@[i].pci_path@ && Some(gpus@[j].device_id) == spec_parsed_id(
                        entries@[i].device_text,
                    ) && gpus@[j].driver == spec_driver_of_name(entries@[i].driver_name)
                        && spec_opt_view(gpus@[j].render_node) == spec_render_node(
                        entries@[i].name@,
                        entries@[i].has_render_node,
                    ) && spec_opt_view(gpus@[j].card_node) == spec_card_node(
                        entries@[i].name@,
                        entries@[i].has_card_node,
                    ) && spec_opt_view(gpus@[j].device_name) == spec_device_name(
                        gpus@[j].device_id,
                    )
        },
{
    let n = entries.len();
    let mut gpus: Vec<GpuInfo> = Vec::new();
    let mut i: usize = 0;
    while i < n
        invariant
            n == entries@.len(),
            i <= n,
            gpus@.len() > 0 ==> exists|k: int|
                0 <= k < i && spec_card_selected(#[trigger] entries@[k]),
            (exists|k: int| 0 <= k < i && spec_card_selected(#[trigger] entries@[k]))
                ==> gpus@.len() > 0,
            forall|j: int| 0 <= j < gpus@.len() ==> (#[trigger] gpus@[j]).vendor_id == 0x8086,
            forall|j: int|
                0 <= j < gpus@.len() ==> exists|k: int|
                    0 <= k < i && spec_card_selected(#[trigger] entries@[k]) && (
                    #[trigger] gpus@[j]).id@ == entries@[k].name@ && gpus@[j].pci_path@
                        == entries@[k].pci_path@ && Some(gpus@[j].device_id) == spec_parsed_id(
                        entries@[k].device_text,
                    ) && gpus@[j].driver == spec_driver_of_name(entries@[k].driver_name)
                        && spec_opt_view(gpus@[j].render_node) == spec_render_node(
                        entries@[k].name@,
                        entries@[k].has_render_node,
                    ) && spec_opt_view(gpus@[j].card_node) == spec_card_node(
                        entries@[k].name@,
                        entries@[k].has_card_node,
                    ) && spec_opt_view(gpus@[j].device_name) == spec_device_name(
                        gpus@[j].device_id,
                    ),
        decreases n - i,
    {
        let entry = &entries[i];
        let plain_card = str_starts_with(entry.name.as_str(), "card") && find_char(
            entry.name.as_str(),
            '-',
        ).is_none();
        if plain_card {
            match read_gpu_info(entry) {
                Ok(gpu) => {
                    if gpu.is_intel() {
                        proof {
                            assert(spec_card_selected(entries@[i as int]));
                        }
                        gpus.push(gpu);
                    }
                },
                Err(_) => {},
            }
        }
        proof {
            if exists|k: int| 0 <= k < i + 1 && spec_card_selected(#[trigger] entries@[k]) {
                let k = choose|k: int|
                    0 <= k < i + 1 && spec_card_selected(#[trigger] entries@[k]);
                if k < i {
                    assert(gpus@.len() > 0);
                } else {
                    assert(spec_card_selected(entries@[i as int]));
                    assert(spec_parsed_id(entries@[i as int].vendor_text) == Some(0x8086u16));
                    assert(gpus@.len() > 0);
                }
            }
        }
        i = i + 1;
    }
    if gpus.len() == 0 {
        Err(Error::NoGpuFound)
    } else {
        Ok(gpus)
    }
}

} // verus!
// Interface discovery: classify interface names per driver variant, parse
// the embedded physical-bus address, and correlate interfaces to devices.

verus! {

/// The driver variant an interface name belongs to: legacy names begin with
/// "i915", next-generation names with "xe_".
pub open spec fn spec_pmu_driver(name: Seq<char>) -> Option<GpuDriver> {
    if spec_starts_with(name, "i915"@) {
        Some(GpuDriver::I915)
    } else if spec_starts_with(name, "xe_"@) {
        Some(GpuDriver::Xe)
    } else {
        None
    }
}

/// Classify an interface name by driver variant.
pub fn pmu_driver_of_name(name: &str) -> (r: Option<GpuDriver>)
    ensures
        r == spec_pmu_driver(name@),
{
    if str_starts_with(name, "i915") {
        Some(GpuDriver::I915)
    } else if str_starts_with(name, "xe_") {
        Some(GpuDriver::Xe)
    } else {
        None
    }
}

/// The text with its first two underscores replaced by colons, turning a
/// next-generation interface's bus-address spelling into the canonical one.
pub open spec fn spec_underscores_to_colons2(s: Seq<char>) -> Seq<char> {
    match spec_find_char(s, '_') {
        Some(j1) => if 0 <= j1 < s.len() {
            let head = s.subrange(0, j1);
            let rest = s.subrange(j1 + 1, s.len() as int);
            match spec_find_char(rest, '_') {
                Some(j2) => if 0 <= j2 < rest.len() {
                    head + ":"@ + rest.subrange(0, j2) + ":"@ + rest.subrange(
                        j2 + 1,
                        rest.len() as int,
                    )
                } else {
                    head + ":"@ + rest
                },
                None => head + ":"@ + rest,
            }
        } else {
            s
        },
        None => s,
    }
}

/// Replace the first two underscores with colons.
pub fn underscores_to_colons2(s: &str) -> (r: String)
    ensures
        r@ == spec_underscores_to_colons2(s@),
{
    let len = s.unicode_len();
    match find_char(s, '_') {
        Some(j1) => {
            proof {
                crate::strutil::lemma_find_char_props(s@, '_');
            }
            let head = substring(s, 0, j1);
            let rest = substring(s, j1 + 1, len);
            let rest_len = rest.as_str().unicode_len();
            match find_char(rest.as_str(), '_') {
                Some(j2) => {
                    proof {
                        crate::strutil::lemma_find_char_props(rest@, '_');
                    }
                    let mid = substring(rest.as_str(), 0, j2);
                    let tail = substring(rest.as_str(), j2 + 1, rest_len);
                    let out = head.concat(":").concat(mid.as_str()).concat(":").concat(
                        tail.as_str(),
                    );
                    out
                },
                None => head.concat(":").concat(rest.as_str()),
            }
        },
        None => {
            let whole = substring(s, 0, len);
            proof {
                assert(s@.subrange(0, len as int) =~= s@);
            }
            whole
        },
    }
}

/// Whether a card entry resolves the given bus address: a plain card entry
/// whose bus-address symlink target holds the address.
pub open spec fn spec_card_matches_pci(e: CardEntry, addr: Seq<char>) -> bool {
    &&& spec_starts_with(e.name@, "card"@)
    &&& spec_find_char(e.name@, '-') is None
    &&& spec_contains(e.pci_path@, addr)
}

/// The name of the first card entry that resolves the given bus address.
pub open spec fn spec_find_card_by_pci(entries: Seq<CardEntry>, addr: Seq<char>) -> Option<
    Seq<char>,
>
    decreases entries.len(),
{
    if entries.len() == 0 {
        None
    } else if spec_card_matches_pci(entries[0], addr) {
        Some(entries[0].name@)
    } else {
        spec_find_card_by_pci(entries.drop_first(), addr)
    }
}

/// Resolve a bus address against the device snapshot.
pub fn find_card_by_pci(entries: &Vec<CardEntry>, pci_addr: &str) -> (r: Option<String>)
    ensures
        spec_opt_view(r) == spec_find_card_by_pci(entries@, pci_addr@),
{
    let n = entries.len();
    let mut i: usize = 0;
    proof {
        assert(entries@.subrange(0, n as int) =~= entries@);
    }
    while i < n
        invariant
            n == entries@.len(),
            i <= n,
            spec_find_card_by_pci(entries@, pci_addr@) == spec_find_card_by_pci(
                entries@.subrange(i as int, n as int),
                pci_addr@,
            ),
        decreases n - i,
    {
        let ghost pending = entries@.subrange(i as int, n as int);
        proof {
            assert(pending[0] == entries@[i as int]);
            assert(pending.drop_first() =~= entries@.subrange(i + 1, n as int));
        }
        let entry = &entries[i];
        let matches_addr = str_starts_with(entry.name.as_str(), "card") && find_char(
            entry.name.as_str(),
            '-',
        ).is_none() && str_contains(entry.pci_path.as_str(), pci_addr);
        if matches_addr {
            return Some(entry.name.clone());
        }
        i = i + 1;
    }
    proof {
        assert(entries@.subrange(n as int, n as int) =~= Seq::<CardEntry>::empty());
    }
    None
}

/// The card id an interface name designates: the bare legacy name means the
/// first card; a name with an embedded bus address resolves through the
/// device snapshot; anything unresolved falls back to the first card.
pub open spec fn spec_parse_card_id(
    name: Seq<char>,
    driver: GpuDriver,
    entries: Seq<CardEntry>,
) -> Seq<char> {
    match driver {
        GpuDriver::I915 => {
            if name == "i915"@ {
                "card0"@
            } else if spec_starts_with(name, "i915-"@) {
                let addr = name.subrange("i915-"@.len() as int, name.len() as int);
                match spec_find_card_by_pci(entries, addr) {
                    Some(card) => card,
                    None => "card0"@,
                }
            } else {
                "card0"@
            }
        },
        GpuDriver::Xe => {
            if spec_starts_with(name, "xe_"@) {
                let addr = spec_underscores_to_colons2(
                    name.subrange("xe_"@.len() as int, name.len() as int),
                );
                match spec_find_card_by_pci(entries, addr) {
                    Some(card) => card,
                    None => "card0"@,
                }
            } else {
                "card0"@
            }
        },
    }
}

/// Parse the card id out of an interface name, resolving an embedded bus
/// address against the device snapshot.
pub fn parse_card_id(name: &str, driver: GpuDriver, entries: &Vec<CardEntry>) -> (r: String)
    ensures
        r@ == spec_parse_card_id(name@, driver, entries@),
{
    match driver {
        GpuDriver::I915 => {
            if str_eq(name, "i915") {
                "card0".to_owned()
            } else {
                match strip_prefix(name, "i915-") {
                    Some(addr) => match find_card_by_pci(entries, addr.as_str()) {
                        Some(card) => card,
                        None => "card0".to_owned(),
                    },
                    None => "card0".to_owned(),
                }
            }
        },
        GpuDriver::Xe => {
            match strip_prefix(name, "xe_") {
                Some(pci_part) => {
                    let addr = underscores_to_colons2(pci_part.as_str());
                    match find_card_by_pci(entries, addr.as_str()) {
                        Some(card) => card,
                        None => "card0".to_owned(),
                    }
                },
                None => "card0".to_owned(),
            }
        },
    }
}

/// What the OS layer saw for one entry of the interface enumeration root.
#[derive(Debug, Clone)]
pub struct PmuEntry {
    /// The entry's name (e.g., "i915" or "xe_0000_00_02.0").
    pub name: String,
    /// The entry's sysfs path.
    pub path: String,
    /// Contents of the interface's numeric type id file, if readable.
    pub type_text: Option<String>,
    /// Each named event file and its contents.
    pub event_files: Vec<(String, String)>,
}

/// The named-event table encoded by the event files: each file whose
/// contents parse contributes its name and config value, in file order.
pub open spec fn spec_parse_pmu_events(files: Seq<(String, String)>) -> Seq<(String, u64)>
    decreases files.len(),
{
    if files.len() == 0 {
        Seq::empty()
    } else {
        let rest = spec_parse_pmu_events(files.drop_first());
        match spec_parse_event_config(files[0].1@) {
            Some(v) => seq![(files[0].0, v)] + rest,
            None => rest,
        }
    }
}

/// Parse the named-event table out of the event files' contents.
pub fn parse_pmu_events(files: &Vec<(String, String)>) -> (r: Vec<(String, u64)>)
    ensures
        r@ == spec_parse_pmu_events(files@),
{
    let n = files.len();
    let mut events: Vec<(String, u64)> = Vec::new();
    let mut i: usize = 0;
    proof {
        assert(files@.subrange(0, 0) =~= Seq::<(String, String)>::empty());
    }
    while i < n
        invariant
            n == files@.len(),
            i <= n,
            spec_parse_pmu_events(files@.subrange(0, i as int)) == events@,
        decreases n - i,
    {
        let ghost before = events@;
        let entry = &files[i];
        match parse_event_config(entry.1.as_str()) {
            Some(config) => {
                events.push((entry.0.clone(), config));
            },
            None => {},
        }
        proof {
            lemma_parse_pmu_events_snoc(files@, i as int);
            assert(events@ =~= (match spec_parse_event_config(files@[i as int].1@) {
                Some(v) => before + seq![(files@[i as int].0, v)],
                None => before,
            }));
        }
        i = i + 1;
    }
    proof {
        assert(files@.subrange(0, n as int) =~= files@);
    }
    events
}

/// Extending the parsed prefix by one file appends exactly that file's
/// entry, when its contents parse.
proof fn lemma_parse_pmu_events_snoc(files: Seq<(String, String)>, i: int)
    requires
        0 <= i < files.len(),
    ensures
        spec_parse_pmu_events(files.subrange(0, i + 1)) == (match spec_parse_event_config(
            files[i].1@,
        ) {
            Some(v) => spec_parse_pmu_events(files.subrange(0, i)) + seq![(files[i].0, v)],
            None => spec_parse_pmu_events(files.subrange(0, i)),
        }),
    decreases i,
{
    let pre1 = files.subrange(0, i + 1);
    let pre0 = files.subrange(0, i);
    if i == 0 {
        assert(pre1.len() == 1);
        assert(pre1[0] == files[0]);
        assert(pre1.drop_first() =~= Seq::<(String, String)>::empty());
        assert(pre0 =~= Seq::<(String, String)>::empty());
        match spec_parse_event_config(files[0].1@) {
            Some(v) => {
                assert(spec_parse_pmu_events(pre1.drop_first()) == Seq::<(String, u64)>::empty());
                assert(spec_parse_pmu_events(pre1) == seq![(files[0].0, v)] + Seq::<(
                    String,
                    u64,
                )>::empty());
                assert(seq![(files[0].0, v)] + Seq::<(String, u64)>::empty()
                    =~= spec_parse_pmu_events(pre0) + seq![(files[0].0, v)]);
            },
            None => {
                assert(spec_parse_pmu_events(pre1) == spec_parse_pmu_events(pre1.drop_first()));
            },
        }
    } else {
        lemma_parse_pmu_events_snoc(files.drop_first(), i - 1);
        assert(pre1[0] == files[0]);
        assert(pre1.drop_first() =~= files.drop_first().subrange(0, i));
        assert(pre0[0] == files[0]);
        assert(pre0.drop_first() =~= files.drop_first().subrange(0, i - 1));
        assert(files.drop_first()[i - 1] == files[i]);
        match spec_parse_event_config(files[0].1@) {
            Some(v0) => {
                match spec_parse_event_config(files[i].1@) {
                    Some(v) => {
                        assert(spec_parse_pmu_events(pre1) =~= seq![(files[0].0, v0)] + (
                        spec_parse_pmu_events(files.drop_first().subrange(0, i - 1)) + seq![
                            (files[i].0, v),
                        ]));
                        assert(seq![(files[0].0, v0)] + (spec_parse_pmu_events(
                            files.drop_first().subrange(0, i - 1),
                        ) + seq![(files[i].0, v)]) =~= (seq![(files[0].0, v0)]
                            + spec_parse_pmu_events(files.drop_first().subrange(0, i - 1))) + seq![
                            (files[i].0, v),
                        ]);
                    },
                    None => {},
                }
            },
            None => {},
        }
    }
}

/// Assemble one interface's information from its snapshot entry. Fails
/// exactly when the type id file is missing or malformed.
pub fn read_pmu_info(entry: &PmuEntry, driver: GpuDriver, drm_entries: &Vec<CardEntry>) -> (r:
    Result<PmuInfo, Error>)
    ensures
        r is Ok <==> spec_pmu_type_id(entry.type_text) is Some,
        r matches Ok(p) ==> {
            &&& Some(p.type_id) == spec_pmu_type_id(entry.type_text)
            &&& p.path@ == entry.path@
            &&& p.events@ == spec_parse_pmu_events(entry.event_files@)
            &&& p.card_id@ == spec_parse_card_id(entry.name@, driver, drm_entries@)
            &&& p.driver == driver
        },
        r matches Err(e) ==> e is SysfsParse,
{
    let type_id = match parse_pmu_type_text(&entry.type_text) {
        Some(v) => v,
        None => {
            return Err(
                Error::sysfs_parse(entry.path.clone(), "invalid or unreadable type id".to_owned()),
            );
        },
    };
    let card_id = parse_card_id(entry.name.as_str(), driver, drm_entries);
    let events = parse_pmu_events(&entry.event_files);
    Ok(PmuInfo { type_id, path: entry.path.clone(), events, card_id, driver })
}

/// The interface type id encoded by the type file's text: trimmed decimal,
/// within the 32-bit range.
pub open spec fn spec_pmu_type_id(text: Option<String>) -> Option<u32> {
    match text {
        Some(t) => match spec_parse_u64_dec(spec_trim(t@)) {
            Some(v) => if v <= u32::MAX {
                Some(v as u32)
            } else {
                None
            },
            None => None,
        },
        None => None,
    }
}

/// Parse an interface type id file.
pub fn parse_pmu_type_text(text: &Option<String>) -> (r: Option<u32>)
    ensures
        r == spec_pmu_type_id(*text),
{
    match text {
        Some(t) => {
            let trimmed = str_trim(t.as_str());
            match parse_u64_dec(trimmed.as_str()) {
                Some(v) => if v <= u32::MAX as u64 {
                    Some(v as u32)
                } else {
                    None
                },
                None => None,
            }
        },
        None => None,
    }
}

/// Whether an interface entry is usable: its name names a driver variant
/// and its type id parses.
pub open spec fn spec_pmu_selected(e: PmuEntry) -> bool {
    spec_pmu_driver(e.name@) is Some && spec_pmu_type_id(e.type_text) is Some
}

/// Filter the interface snapshot down to usable performance-monitoring
/// interfaces. An empty result is never a success: with no usable interface
/// the outcome is the distinguished interface-unavailable error.
pub fn discover_pmu(entries: &Vec<PmuEntry>, drm_entries: &Vec<CardEntry>) -> (r: Result<
    Vec<PmuInfo>,
    Error,
>)
    ensures
        r is Ok <==> exists|i: int|
            0 <= i < entries@.len() && spec_pmu_selected(#[trigger] entries@[i]),
        r matches Err(e) ==> e is PmuNotAvailable,
        r matches Ok(pmus) ==> {
            &&& pmus@.len() > 0
            &&& forall|j: int|
                0 <= j < pmus@.len() ==> exists|i: int|
                    0 <= i < entries@.len() && spec_pmu_selected(#[trigger] entries@[i]) && Some(
                        (#[trigger] pmus@[j]).driver,
                    ) == spec_pmu_driver(entries@[i].name@) && Some(pmus@[j].type_id)
                        == spec_pmu_type_id(entries@[i].type_text) && pmus@[j].card_id@
                        == spec_parse_card_id(entries@[i].name@, pmus@[j].driver, drm_entries@)
                        && pmus@[j].events@ == spec_parse_pmu_events(entries@[i].event_files@)
        },
{
    let n = entries.len();
    let mut pmus: Vec<PmuInfo> = Vec::new();
    let mut i: usize = 0;
    while i < n
        invariant
            n == entries@.len(),
            i <= n,
            pmus@.len() > 0 ==> exists|k: int|
                0 <= k < i && spec_pmu_selected(#[trigger] entries@[k]),
            (exists|k: int| 0 <= k < i && spec_pmu_selected(#[trigger] entries@[k]))
                ==> pmus@.len() > 0,
            forall|j: int|
                0 <= j < pmus@.len() ==> exists|k: int|
                    0 <= k < i && spec_pmu_selected(#[trigger] entries@[k]) && Some(
                        (#[trigger] pmus@[j]).driver,
                    ) == spec_pmu_driver(entries@[k].name@) && Some(pmus@[j].type_id)
                        == spec_pmu_type_id(entries@[k].type_text) && pmus@[j].card_id@
                        == spec_parse_card_id(entries@[k].name@, pmus@[j].driver, drm_entries@)
                        && pmus@[j].events@ == spec_parse_pmu_events(entries@[k].event_files@),
        decreases n - i,
    {
        let entry = &entries[i];
        match pmu_driver_of_name(entry.name.as_str()) {
            Some(driver) => {
                match read_pmu_info(entry, driver, drm_entries) {
                    Ok(pmu) => {
                        proof {
                            assert(spec_pmu_selected(entries@[i as int]));
                        }
                        pmus.push(pmu);
                    },
                    Err(_) => {},
                }
            },
            None => {},
        }
        proof {
            if exists|k: int| 0 <= k < i + 1 && spec_pmu_selected(#[trigger] entries@[k]) {
                let k = choose|k: int| 0 <= k < i + 1 && spec_pmu_selected(#[trigger] entries@[k]);
                if k < i {
                    assert(pmus@.len() > 0);
                } else {
                    assert(spec_pmu_selected(entries@[i as int]));
                    assert(pmus@.len() > 0);
                }
            }
        }
        i = i + 1;
    }
    if pmus.len() == 0 {
        Err(Error::PmuNotAvailable)
    } else {
        Ok(pmus)
    }
}

/// The interface to use for a device: the first one discovered for that
/// device's card id, or the first interface of all as a fallback.
pub fn select_pmu(pmus: &Vec<PmuInfo>, card_id: &str) -> (r: Option<usize>)
    ensures
        pmus@.len() == 0 ==> r is None,
        pmus@.len() > 0 ==> (r matches Some(ix) && ix < pmus@.len() && ((
        pmus@[ix as int].card_id@ == card_id@ && forall|k: int|
            0 <= k < ix ==> (#[trigger] pmus@[k]).card_id@ != card_id@) || (pmus@[ix as int]
            == pmus@[0] && ix == 0 && forall|k: int|
            0 <= k < pmus@.len() ==> (#[trigger] pmus@[k]).card_id@ != card_id@))),
{
    let n = pmus.len();
    let mut i: usize = 0;
    while i < n
        invariant
            n == pmus@.len(),
            i <= n,
            forall|k: int| 0 <= k < i ==> (#[trigger] pmus@[k]).card_id@ != card_id@,
        decreases n - i,
    {
        if str_eq(pmus[i].card_id.as_str(), card_id) {
            return Some(i);
        }
        i = i + 1;
    }
    if n > 0 {
        Some(0)
    } else {
        None
    }
}

} // verus!
