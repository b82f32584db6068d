//! Power monitoring decisions: selecting the energy-counter domains from the
//! powercap snapshot, and turning energy-counter deltas into power.
//!
//! Power is computed as an energy delta in microjoules divided by the
//! elapsed time in microseconds, which is watts; this module carries it as
//! milliwatts. Reads closer together than one millisecond decline to produce
//! a value rather than amplify noise.

use vstd::prelude::*;

use crate::engine::counter_delta;
use crate::engine::spec_counter_delta;
use crate::strutil::spec_contains;
use crate::strutil::spec_starts_with;
use crate::strutil::spec_trim;
use crate::strutil::str_contains;
use crate::strutil::str_eq;
use crate::strutil::str_starts_with;
use crate::strutil::str_trim;
use crate::discovery::spec_opt_view;
use crate::types::PowerStats;

verus! {

/// The least spacing between power reads, in microseconds.
pub const MIN_POWER_READ_SPACING_US: u64 = 1000;

/// One sub-domain of a powercap domain, as the OS layer saw it.
#[derive(Debug, Clone)]
pub struct PowercapSubentry {
    /// The sub-domain entry's name.
    pub name: String,
    /// Contents of the sub-domain's name file, if readable.
    pub domain_name: Option<String>,
    /// Whether the sub-domain has an energy counter file.
    pub has_energy: bool,
    /// Path of the sub-domain's energy counter file.
    pub energy_path: String,
}

/// One entry of the powercap enumeration root, as the OS layer saw it.
#[derive(Debug, Clone)]
pub struct PowercapEntry {
    /// The entry's name.
    pub name: String,
    /// Contents of the entry's name file, if readable.
    pub domain_name: Option<String>,
    /// Whether the entry has an energy counter file.
    pub has_energy: bool,
    /// Path of the entry's energy counter file.
    pub energy_path: String,
    /// The entry's sub-domains.
    pub subentries: Vec<PowercapSubentry>,
}

/// The package energy path an entry contributes: an intel-rapl domain whose
/// name file says "package-0" (or any package), with an energy counter.
pub open spec fn spec_entry_package(e: PowercapEntry) -> Option<Seq<char>> {
    if spec_starts_with(e.name@, "intel-rapl:"@) && (e.domain_name matches Some(d) && (spec_trim(
        d@,
    ) == "package-0"@ || spec_starts_with(spec_trim(d@), "package"@))) && e.has_energy {
        Some(e.energy_path@)
    } else {
        None
    }
}

/// The GPU energy path an entry itself contributes: an intel-rapl domain
/// whose name file says "uncore" or holds "gpu", with an energy counter.
pub open spec fn spec_entry_gpu(e: PowercapEntry) -> Option<Seq<char>> {
    if spec_starts_with(e.name@, "intel-rapl:"@) && (e.domain_name matches Some(d) && (spec_trim(
        d@,
    ) == "uncore"@ || spec_contains(d@, "gpu"@))) && e.has_energy {
        Some(e.energy_path@)
    } else {
        None
    }
}

/// The GPU energy path a sub-domain contributes: one named like an
/// intel-rapl domain whose name file says "uncore", with an energy counter.
pub open spec fn spec_sub_gpu(s: PowercapSubentry) -> Option<Seq<char>> {
    if spec_contains(s.name@, "intel-rapl:"@) && (s.domain_name matches Some(d) && spec_trim(d@)
        == "uncore"@) && s.has_energy {
        Some(s.energy_path@)
    } else {
        None
    }
}

/// The GPU energy path after scanning an entry's sub-domains, a later
/// matching sub-domain replacing an earlier choice.
pub open spec fn spec_gpu_after_subs(
    subs: Seq<PowercapSubentry>,
    acc: Option<Seq<char>>,
) -> Option<Seq<char>>
    decreases subs.len(),
{
    if subs.len() == 0 {
        acc
    } else {
        let next = match spec_sub_gpu(subs[0]) {
            Some(p) => Some(p),
            None => acc,
        };
        spec_gpu_after_subs(subs.drop_first(), next)
    }
}

/// The (package, GPU) energy paths after scanning the snapshot in order,
/// later matches replacing earlier ones; within an entry, the entry's own
/// match is considered before its sub-domains.
pub open spec fn spec_rapl_fold(
    entries: Seq<PowercapEntry>,
    package: Option<Seq<char>>,
    gpu: Option<Seq<char>>,
) -> (Option<Seq<char>>, Option<Seq<char>>)
    decreases entries.len(),
{
    if entries.len() == 0 {
        (package, gpu)
    } else {
        let e = entries[0];
        let package1 = if spec_starts_with(e.name@, "intel-rapl:"@) {
            match spec_entry_package(e) {
                Some(p) => Some(p),
                None => package,
            }
        } else {
            package
        };
        let gpu1 = if spec_starts_with(e.name@, "intel-rapl:"@) {
            let own = match spec_entry_gpu(e) {
                Some(p) => Some(p),
                None => gpu,
            };
            spec_gpu_after_subs(e.subentries@, own)
        } else {
            gpu
        };
        spec_rapl_fold(entries.drop_first(), package1, gpu1)
    }
}

/// Whether a sub-domain's text marks it as an intel-rapl uncore domain.
fn sub_gpu_path(s: &PowercapSubentry) -> (r: Option<String>)
    ensures
        (r matches Some(p) ==> Some(p@) == spec_sub_gpu(*s)),
        (r is None ==> spec_sub_gpu(*s) is None),
{
    let named = match &s.domain_name {
        Some(d) => {
            let trimmed = str_trim(d.as_str());
            str_eq(trimmed.as_str(), "uncore")
        },
        None => false,
    };
    if str_contains(s.name.as_str(), "intel-rapl:") && named && s.has_energy {
        Some(s.energy_path.clone())
    } else {
        None
    }
}

/// Select the package and GPU energy-counter paths from the powercap
/// snapshot.
pub fn find_rapl_paths(entries: &Vec<PowercapEntry>) -> (r: (Option<String>, Option<String>))
    ensures
        ({
            let folded = spec_rapl_fold(entries@, None, None);
            &&& spec_opt_view(r.0) == folded.0
            &&& spec_opt_view(r.1) == folded.1
        }),
{
    let n = entries.len();
    let mut package: Option<String> = None;
    let mut gpu: Option<String> = None;
    let mut i: usize = 0;
    proof {
        assert(entries@.subrange(0, n as int) =~= entries@);
    }
    while i < n
        invariant
            n == entries@.len(),
            i <= n,
            spec_rapl_fold(entries@, None, None) == spec_rapl_fold(
                entries@.subrange(i as int, n as int),
                spec_opt_view(package),
                spec_opt_view(gpu),
            ),
        decreases n - i,
    {
        let ghost pending = entries@.subrange(i as int, n as int);
        proof {
            assert(pending[0] == entries@[i as int]);
            assert(pending.drop_first() =~= entries@.subrange(i + 1, n as int));
        }
        let e = &entries[i];
        if str_starts_with(e.name.as_str(), "intel-rapl:") {
            let is_package = match &e.domain_name {
                Some(d) => {
                    let trimmed = str_trim(d.as_str());
                    str_eq(trimmed.as_str(), "package-0") || str_starts_with(
                        trimmed.as_str(),
                        "package",
                    )
                },
                None => false,
            };
            if is_package && e.has_energy {
                package = Some(e.energy_path.clone());
            }
            let is_gpu = match &e.domain_name {
                Some(d) => {
                    let trimmed = str_trim(d.as_str());
                    str_eq(trimmed.as_str(), "uncore") || str_contains(d.as_str(), "gpu")
                },
                None => false,
            };
            if is_gpu && e.has_energy {
                gpu = Some(e.energy_path.clone());
            }
            let ghost own = spec_opt_view(gpu);
            let subs = &e.subentries;
            let m = subs.len();
            let mut j: usize = 0;
            proof {
                assert(subs@.subrange(0, m as int) =~= subs@);
            }
            while j < m
                invariant
                    m == subs@.len(),
                    j <= m,
                    subs@ == entries@[i as int].subentries@,
                    spec_gpu_after_subs(subs@, own) == spec_gpu_after_subs(
                        subs@.subrange(j as int, m as int),
                        spec_opt_view(gpu),
                    ),
                decreases m - j,
            {
                let ghost subs_pending = subs@.subrange(j as int, m as int);
                proof {
                    assert(subs_pending[0] == subs@[j as int]);
                    assert(subs_pending.drop_first() =~= subs@.subrange(j + 1, m as int));
                }
                match sub_gpu_path(&subs[j]) {
                    Some(p) => {
                        gpu = Some(p);
                    },
                    None => {},
                }
                j = j + 1;
            }
            proof {
                assert(subs@.subrange(m as int, m as int) =~= Seq::<PowercapSubentry>::empty());
            }
        }
        i = i + 1;
    }
    proof {
        assert(entries@.subrange(n as int, n as int) =~= Seq::<PowercapEntry>::empty());
    }
    (package, gpu)
}

} // verus!
// The power reader: energy deltas over elapsed time, with the minimum
// inter-read spacing below which no value is produced.

use crate::engine::spec_channel_new_last;
use crate::hwmon::HwmonEntry;

verus! {

/// The power in milliwatts of an energy delta in microjoules over an
/// elapsed window in microseconds, saturating at the largest representable
/// value.
pub open spec fn spec_power_milliwatts(delta_uj: u64, elapsed_us: u64) -> u64
    recommends
        elapsed_us > 0,
{
    let mw = delta_uj * 1000 / (elapsed_us as int);
    if mw > u64::MAX {
        u64::MAX
    } else {
        mw as u64
    }
}

/// Convert an energy delta over an elapsed window into milliwatts.
pub fn power_milliwatts(delta_uj: u64, elapsed_us: u64) -> (r: u64)
    requires
        elapsed_us > 0,
    ensures
        r == spec_power_milliwatts(delta_uj, elapsed_us),
{
    let mw: u128 = (delta_uj as u128) * 1000u128 / (elapsed_us as u128);
    if mw > u64::MAX as u128 {
        u64::MAX
    } else {
        mw as u64
    }
}

/// The package power of one read cycle: the energy delta against the stored
/// last value, over the elapsed window; nothing when the package counter is
/// not readable.
pub open spec fn spec_package_milliwatts(
    last_package_uj: u64,
    package_uj: Option<u64>,
    elapsed_us: u64,
) -> Option<u64> {
    match package_uj {
        Some(current) => Some(
            spec_power_milliwatts(spec_counter_delta(current, last_package_uj), elapsed_us),
        ),
        None => None,
    }
}

/// The first hardware-monitor entry matching the GPU's bus address that has
/// a direct power input, and the path of that input.
pub open spec fn spec_find_hwmon_power(
    entries: Seq<HwmonEntry>,
    pci_path: Seq<char>,
) -> Option<Seq<char>>
    decreases entries.len(),
{
    if entries.len() == 0 {
        None
    } else if pci_path.len() > 0 && (entries[0].device_link matches Some(t) && spec_contains(
        t@,
        pci_path,
    )) && entries[0].has_power_input {
        Some(entries[0].path@ + "/power1_input"@)
    } else {
        spec_find_hwmon_power(entries.drop_first(), pci_path)
    }
}

/// Find a direct power input for the GPU among the hardware monitors.
pub fn find_hwmon_power(entries: &Vec<HwmonEntry>, pci_path: &str) -> (r: Option<String>)
    ensures
        spec_opt_view(r) == spec_find_hwmon_power(entries@, pci_path@),
{
    let n = entries.len();
    let pci_len = pci_path.unicode_len();
    let mut i: usize = 0;
    proof {
        assert(entries@.subrange(0, n as int) =~= entries@);
    }
    while i < n
        invariant
            n == entries@.len(),
            pci_len == pci_path@.len(),
            i <= n,
            spec_find_hwmon_power(entries@, pci_path@) == spec_find_hwmon_power(
                entries@.subrange(i as int, n as int),
                pci_path@,
            ),
        decreases n - i,
    {
        let ghost pending = entries@.subrange(i as int, n as int);
        proof {
            assert(pending[0] == entries@[i as int]);
            assert(pending.drop_first() =~= entries@.subrange(i + 1, n as int));
        }
        let e = &entries[i];
        let by_pci = pci_len > 0 && (match &e.device_link {
            Some(t) => str_contains(t.as_str(), pci_path),
            None => false,
        });
        if by_pci && e.has_power_input {
            return Some(e.path.clone().concat("/power1_input"));
        }
        i = i + 1;
    }
    proof {
        assert(entries@.subrange(n as int, n as int) =~= Seq::<HwmonEntry>::empty());
    }
    None
}

/// The power reader: the selected energy and power paths, the last energy
/// readings, and the timestamp of the previous read.
#[derive(Debug, Clone)]
pub struct RaplReader {
    /// Path of the package energy counter, if one was selected.
    pub package_energy_path: Option<String>,
    /// Path of the GPU energy counter, if one was selected.
    pub gpu_energy_path: Option<String>,
    /// Path of a direct power input, if one was selected.
    pub hwmon_power_path: Option<String>,
    /// Last package energy reading, in microjoules.
    pub last_package_uj: u64,
    /// Last GPU energy reading, in microjoules.
    pub last_gpu_uj: u64,
    /// Timestamp of the previous read, in microseconds.
    pub last_timestamp_us: u64,
}

impl RaplReader {
    /// Create a power reader from the selected paths and the initial energy
    /// readings taken right after selection.
    pub fn new(
        package_energy_path: Option<String>,
        gpu_energy_path: Option<String>,
        hwmon_power_path: Option<String>,
        initial_package_uj: Option<u64>,
        initial_gpu_uj: Option<u64>,
        now_us: u64,
    ) -> (r: Self)
        ensures
            r.package_energy_path == package_energy_path,
            r.gpu_energy_path == gpu_energy_path,
            r.hwmon_power_path == hwmon_power_path,
            r.last_package_uj == (match initial_package_uj {
                Some(v) => v,
                None => 0u64,
            }),
            r.last_gpu_uj == (match initial_gpu_uj {
                Some(v) => v,
                None => 0u64,
            }),
            r.last_timestamp_us == now_us,
    {
        RaplReader {
            package_energy_path,
            gpu_energy_path,
            hwmon_power_path,
            last_package_uj: match initial_package_uj {
                Some(v) => v,
                None => 0,
            },
            last_gpu_uj: match initial_gpu_uj {
                Some(v) => v,
                None => 0,
            },
            last_timestamp_us: now_us,
        }
    }

    /// Whether any power monitoring is available.
    pub fn is_available(&self) -> (r: bool)
        ensures
            r == (self.package_energy_path is Some || self.gpu_energy_path is Some
                || self.hwmon_power_path is Some),
    {
        self.package_energy_path.is_some() || self.gpu_energy_path.is_some()
            || self.hwmon_power_path.is_some()
    }

    /// Whether GPU-specific power is available.
    pub fn has_gpu_power(&self) -> (r: bool)
        ensures
            r == (self.gpu_energy_path is Some || self.hwmon_power_path is Some),
    {
        self.gpu_energy_path.is_some() || self.hwmon_power_path.is_some()
    }

    /// Compute the power of one read cycle from the current readings. Reads
    /// less than one millisecond apart decline and change nothing. A direct
    /// power input is preferred for the GPU figure; otherwise the GPU energy
    /// delta is used, and with neither available but a package reading, the
    /// GPU figure is zero. The last energy values are updated exactly for
    /// the counters that were read, so a delta is never counted twice.
    pub fn read(
        &mut self,
        now_us: u64,
        hwmon_power_uw: Option<u64>,
        package_uj: Option<u64>,
        gpu_uj: Option<u64>,
    ) -> (r: Option<PowerStats>)
        requires
            now_us >= old(self).last_timestamp_us,
        ensures
            ({
                let elapsed = (now_us - old(self).last_timestamp_us) as u64;
                &&& final(self).package_energy_path == old(self).package_energy_path
                &&& final(self).gpu_energy_path == old(self).gpu_energy_path
                &&& final(self).hwmon_power_path == old(self).hwmon_power_path
                &&& elapsed < MIN_POWER_READ_SPACING_US ==> (r is None && *final(self) == *old(
                    self,
                ))
                &&& elapsed >= MIN_POWER_READ_SPACING_US ==> {
                    &&& final(self).last_timestamp_us == now_us
                    &&& final(self).last_package_uj == spec_channel_new_last(
                        true,
                        package_uj,
                        old(self).last_package_uj,
                    )
                    &&& (hwmon_power_uw matches Some(uw) ==> {
                        &&& final(self).last_gpu_uj == old(self).last_gpu_uj
                        &&& r == Some(
                            PowerStats {
                                gpu_milliwatts: (uw / 1000) as u64,
                                package_milliwatts: spec_package_milliwatts(
                                    old(self).last_package_uj,
                                    package_uj,
                                    elapsed,
                                ),
                            },
                        )
                    })
                    &&& (hwmon_power_uw is None ==> {
                        &&& final(self).last_gpu_uj == spec_channel_new_last(
                            true,
                            gpu_uj,
                            old(self).last_gpu_uj,
                        )
                        &&& (gpu_uj matches Some(current) ==> r == Some(
                            PowerStats {
                                gpu_milliwatts: spec_power_milliwatts(
                                    spec_counter_delta(current, old(self).last_gpu_uj),
                                    elapsed,
                                ),
                                package_milliwatts: spec_package_milliwatts(
                                    old(self).last_package_uj,
                                    package_uj,
                                    elapsed,
                                ),
                            },
                        ))
                        &&& ((gpu_uj is None && package_uj matches Some(_p)) ==> r == Some(
                            PowerStats {
                                gpu_milliwatts: 0u64,
                                package_milliwatts: spec_package_milliwatts(
                                    old(self).last_package_uj,
                                    package_uj,
                                    elapsed,
                                ),
                            },
                        ))
                        &&& ((gpu_uj is None && package_uj is None) ==> r is None)
                    })
                }
            }),
    {
        let elapsed_us: u64 = now_us - self.last_timestamp_us;
        if elapsed_us < MIN_POWER_READ_SPACING_US {
            return None;
        }
        let package_milliwatts = match package_uj {
            Some(current) => {
                let delta = counter_delta(current, self.last_package_uj);
                self.last_package_uj = current;
                Some(power_milliwatts(delta, elapsed_us))
            },
            None => None,
        };
        match hwmon_power_uw {
            Some(uw) => {
                self.last_timestamp_us = now_us;
                Some(PowerStats { gpu_milliwatts: uw / 1000, package_milliwatts })
            },
            None => {
                let gpu_milliwatts = match gpu_uj {
                    Some(current) => {
                        let delta = counter_delta(current, self.last_gpu_uj);
                        self.last_gpu_uj = current;
                        Some(power_milliwatts(delta, elapsed_us))
                    },
                    None => None,
                };
                self.last_timestamp_us = now_us;
                match gpu_milliwatts {
                    Some(mw) => Some(PowerStats { gpu_milliwatts: mw, package_milliwatts }),
                    None => match package_milliwatts {
                        Some(_) => Some(PowerStats { gpu_milliwatts: 0, package_milliwatts }),
                        None => None,
                    },
                }
            },
        }
    }
}

} // verus!
