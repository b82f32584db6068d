//! Per-process GPU usage: parsing of the per-client usage text the kernel
//! exposes for each open render-node file descriptor, aggregation of the
//! records per process, and the descending-usage ordering of the result.
//!
//! The OS layer walks the process tree and hands this module the usage text
//! and process identity as plain values.

use vstd::prelude::*;

use crate::strutil::find_char;
use crate::strutil::first_token;
use crate::strutil::parse_u64_dec;
use crate::strutil::spec_contains;
use crate::strutil::spec_find_char;
use crate::strutil::spec_first_token;
use crate::strutil::spec_parse_u64_dec;
use crate::strutil::spec_starts_with;
use crate::strutil::spec_trim;
use crate::strutil::str_contains;
use crate::strutil::str_eq;
use crate::strutil::str_starts_with;
use crate::strutil::str_trim;
use crate::strutil::substring;
use crate::strutil::lemma_find_char_props;
use crate::types::DrmClient;

verus! {

/// The usage data parsed out of one file descriptor's usage text.
#[derive(Debug, Clone, Copy, PartialEq, Eq, Structural)]
pub struct FdinfoData {
    /// The kernel's client id for this descriptor, if the line parsed.
    pub client_id: Option<u64>,
    /// Render/3D engine usage in nanoseconds.
    pub render_ns: u64,
    /// Copy/blitter engine usage in nanoseconds.
    pub copy_ns: u64,
    /// Video engine usage in nanoseconds.
    pub video_ns: u64,
    /// Video enhance engine usage in nanoseconds.
    pub video_enhance_ns: u64,
    /// Compute engine usage in nanoseconds.
    pub compute_ns: u64,
    /// Resident GPU memory in bytes.
    pub memory_bytes: u64,
}

impl FdinfoData {
    /// All-zero usage data.
    pub open spec fn spec_empty() -> FdinfoData {
        FdinfoData {
            client_id: None,
            render_ns: 0,
            copy_ns: 0,
            video_ns: 0,
            video_enhance_ns: 0,
            compute_ns: 0,
            memory_bytes: 0,
        }
    }

    /// Create all-zero usage data.
    pub fn new() -> (r: Self)
        ensures
            r == Self::spec_empty(),
    {
        FdinfoData {
            client_id: None,
            render_ns: 0,
            copy_ns: 0,
            video_ns: 0,
            video_enhance_ns: 0,
            compute_ns: 0,
            memory_bytes: 0,
        }
    }
}

/// The text between the first and second colon of a line (to the end when
/// there is no second colon); nothing when the line has no colon.
pub open spec fn spec_colon_segment(s: Seq<char>) -> Option<Seq<char>> {
    match spec_find_char(s, ':') {
        Some(j) => if 0 <= j < s.len() {
            let rest = s.subrange(j + 1, s.len() as int);
            match spec_find_char(rest, ':') {
                Some(k) => if 0 <= k < rest.len() {
                    Some(rest.subrange(0, k))
                } else {
                    Some(rest)
                },
                None => Some(rest),
            }
        } else {
            None
        },
        None => None,
    }
}

/// Extract the text between the first and second colon of a line.
fn colon_segment(s: &str) -> (r: Option<String>)
    ensures
        spec_colon_segment(s@) matches Some(v) ==> (r matches Some(out) && out@ == v),
        spec_colon_segment(s@) is None ==> r is None,
{
    let len = s.unicode_len();
    match find_char(s, ':') {
        Some(j) => {
            proof {
                lemma_find_char_props(s@, ':');
            }
            let rest = substring(s, j + 1, len);
            let rest_len = rest.as_str().unicode_len();
            match find_char(rest.as_str(), ':') {
                Some(k) => {
                    proof {
                        lemma_find_char_props(rest@, ':');
                    }
                    Some(substring(rest.as_str(), 0, k))
                },
                None => Some(rest),
            }
        },
        None => None,
    }
}

/// The engine time named by a usage line: the first token after the first
/// colon, as a decimal nanosecond count; 0 when absent or malformed.
pub open spec fn spec_parse_engine_ns(line: Seq<char>) -> u64 {
    match spec_colon_segment(line) {
        Some(seg) => match spec_parse_u64_dec(spec_first_token(seg)) {
            Some(v) => v,
            None => 0,
        },
        None => 0,
    }
}

/// Parse the engine time in nanoseconds out of a usage line such as
/// `drm-engine-render:      12345678 ns`.
pub fn parse_engine_ns(line: &str) -> (r: u64)
    ensures
        r == spec_parse_engine_ns(line@),
{
    match colon_segment(line) {
        Some(seg) => {
            let token = first_token(seg.as_str());
            match parse_u64_dec(token.as_str()) {
                Some(v) => v,
                None => 0,
            }
        },
        None => 0,
    }
}

/// The byte count named by a usage line: the trimmed text after the first
/// colon as a decimal count; 0 when absent or malformed.
pub open spec fn spec_parse_memory_bytes(line: Seq<char>) -> u64 {
    match spec_colon_segment(line) {
        Some(seg) => match spec_parse_u64_dec(spec_trim(seg)) {
            Some(v) => v,
            None => 0,
        },
        None => 0,
    }
}

/// Parse the resident memory in bytes out of a usage line such as
/// `drm-memory-resident:    1234567`.
pub fn parse_memory_bytes(line: &str) -> (r: u64)
    ensures
        r == spec_parse_memory_bytes(line@),
{
    match colon_segment(line) {
        Some(seg) => {
            let trimmed = str_trim(seg.as_str());
            match parse_u64_dec(trimmed.as_str()) {
                Some(v) => v,
                None => 0,
            }
        },
        None => 0,
    }
}

/// The accumulator state after one usage line: the updated data and whether
/// a driver line has identified the descriptor as one of this library's
/// drivers.
pub open spec fn spec_apply_fdinfo_line(d: FdinfoData, seen_driver: bool, raw: Seq<char>) -> (
    FdinfoData,
    bool,
) {
    let line = spec_trim(raw);
    if spec_starts_with(line, "drm-driver:"@) {
        let is_ours = match spec_colon_segment(line) {
            Some(seg) => spec_trim(seg) == "i915"@ || spec_trim(seg) == "xe"@,
            None => false,
        };
        (d, seen_driver || is_ours)
    } else if spec_starts_with(line, "drm-client-id:"@) {
        let id = match spec_colon_segment(line) {
            Some(seg) => spec_parse_u64_dec(spec_trim(seg)),
            None => d.client_id,
        };
        (FdinfoData { client_id: id, ..d }, seen_driver)
    } else if spec_starts_with(line, "drm-engine-render:"@) {
        (FdinfoData { render_ns: spec_parse_engine_ns(line), ..d }, seen_driver)
    } else if spec_starts_with(line, "drm-engine-copy:"@) {
        (FdinfoData { copy_ns: spec_parse_engine_ns(line), ..d }, seen_driver)
    } else if spec_starts_with(line, "drm-engine-video:"@) && !spec_contains(
        line,
        "video-enhance"@,
    ) {
        (FdinfoData { video_ns: spec_parse_engine_ns(line), ..d }, seen_driver)
    } else if spec_starts_with(line, "drm-engine-video-enhance:"@) {
        (FdinfoData { video_enhance_ns: spec_parse_engine_ns(line), ..d }, seen_driver)
    } else if spec_starts_with(line, "drm-engine-compute:"@) {
        (FdinfoData { compute_ns: spec_parse_engine_ns(line), ..d }, seen_driver)
    } else if spec_starts_with(line, "drm-memory-resident:"@) {
        (FdinfoData { memory_bytes: spec_parse_memory_bytes(line), ..d }, seen_driver)
    } else {
        (d, seen_driver)
    }
}

/// Apply one usage line to the accumulator.
fn apply_fdinfo_line(d: FdinfoData, seen_driver: bool, raw: &str) -> (r: (FdinfoData, bool))
    ensures
        r == spec_apply_fdinfo_line(d, seen_driver, raw@),
{
    let line_string = str_trim(raw);
    let line = line_string.as_str();
    if str_starts_with(line, "drm-driver:") {
        let is_ours = match colon_segment(line) {
            Some(seg) => {
                let driver = str_trim(seg.as_str());
                str_eq(driver.as_str(), "i915") || str_eq(driver.as_str(), "xe")
            },
            None => false,
        };
        (d, seen_driver || is_ours)
    } else if str_starts_with(line, "drm-client-id:") {
        let id = match colon_segment(line) {
            Some(seg) => {
                let trimmed = str_trim(seg.as_str());
                parse_u64_dec(trimmed.as_str())
            },
            None => d.client_id,
        };
        (FdinfoData { client_id: id, ..d }, seen_driver)
    } else if str_starts_with(line, "drm-engine-render:") {
        (FdinfoData { render_ns: parse_engine_ns(line), ..d }, seen_driver)
    } else if str_starts_with(line, "drm-engine-copy:") {
        (FdinfoData { copy_ns: parse_engine_ns(line), ..d }, seen_driver)
    } else if str_starts_with(line, "drm-engine-video:") && !str_contains(line, "video-enhance") {
        (FdinfoData { video_ns: parse_engine_ns(line), ..d }, seen_driver)
    } else if str_starts_with(line, "drm-engine-video-enhance:") {
        (FdinfoData { video_enhance_ns: parse_engine_ns(line), ..d }, seen_driver)
    } else if str_starts_with(line, "drm-engine-compute:") {
        (FdinfoData { compute_ns: parse_engine_ns(line), ..d }, seen_driver)
    } else if str_starts_with(line, "drm-memory-resident:") {
        (FdinfoData { memory_bytes: parse_memory_bytes(line), ..d }, seen_driver)
    } else {
        (d, seen_driver)
    }
}

/// The accumulator after every line of the usage text, processed in order.
pub open spec fn spec_fdinfo_fold(text: Seq<char>, d: FdinfoData, seen_driver: bool) -> (
    FdinfoData,
    bool,
)
    decreases text.len(),
{
    match spec_find_char(text, '\n') {
        Some(j) => if 0 <= j < text.len() {
            let stepped = spec_apply_fdinfo_line(d, seen_driver, text.subrange(0, j));
            spec_fdinfo_fold(text.subrange(j + 1, text.len() as int), stepped.0, stepped.1)
        } else {
            spec_apply_fdinfo_line(d, seen_driver, text)
        },
        None => spec_apply_fdinfo_line(d, seen_driver, text),
    }
}

/// Fold the usage lines of the text.
fn fdinfo_fold(text: &str, d: FdinfoData, seen_driver: bool) -> (r: (FdinfoData, bool))
    ensures
        r == spec_fdinfo_fold(text@, d, seen_driver),
    decreases text@.len(),
{
    let len = text.unicode_len();
    match find_char(text, '\n') {
        Some(j) => {
            proof {
                lemma_find_char_props(text@, '\n');
            }
            let line = substring(text, 0, j);
            let stepped = apply_fdinfo_line(d, seen_driver, line.as_str());
            let rest = substring(text, j + 1, len);
            fdinfo_fold(rest.as_str(), stepped.0, stepped.1)
        },
        None => apply_fdinfo_line(d, seen_driver, text),
    }
}

/// Parse one descriptor's usage text. The result is present exactly when a
/// driver line identified the descriptor as belonging to one of this
/// library's drivers; the data is the fold of every line in order, later
/// lines overriding earlier ones.
pub fn parse_fdinfo(text: &str) -> (r: Option<FdinfoData>)
    ensures
        ({
            let folded = spec_fdinfo_fold(text@, FdinfoData::spec_empty(), false);
            r == if folded.1 {
                Some(folded.0)
            } else {
                None::<FdinfoData>
            }
        }),
{
    let folded = fdinfo_fold(text, FdinfoData::new(), false);
    if folded.1 {
        Some(folded.0)
    } else {
        None
    }
}

} // verus!
// Aggregation per process and descending-usage ordering.

verus! {

/// Descending order by total engine usage.
pub open spec fn spec_sorted_by_usage_desc(s: Seq<DrmClient>) -> bool {
    forall|i: int, j: int|
        0 <= i < j < s.len() ==> s[i].spec_total_usage_ns() >= s[j].spec_total_usage_ns()
}

/// Inserting into a sequence inserts into its multiset.
proof fn lemma_insert_to_multiset(s: Seq<DrmClient>, i: int, x: DrmClient)
    requires
        0 <= i <= s.len(),
    ensures
        s.insert(i, x).to_multiset() =~= s.to_multiset().insert(x),
{
    broadcast use vstd::seq_lib::group_to_multiset_ensures;

    let a = s.subrange(0, i);
    let b = s.subrange(i, s.len() as int);
    assert(s =~= a + b);
    vstd::seq_lib::lemma_multiset_commutative(a, b);
    assert(s.insert(i, x) == a.push(x) + b);
    vstd::seq_lib::lemma_multiset_commutative(a.push(x), b);
    assert(a.push(x).to_multiset() =~= a.to_multiset().insert(x));
    assert(a.to_multiset().insert(x).add(b.to_multiset()) =~= a.to_multiset().add(
        b.to_multiset(),
    ).insert(x));
}

/// An exact copy of a client record.
fn clone_client(c: &DrmClient) -> (r: DrmClient)
    ensures
        r == *c,
{
    DrmClient {
        pid: c.pid,
        name: c.name.clone(),
        render_ns: c.render_ns,
        copy_ns: c.copy_ns,
        video_ns: c.video_ns,
        video_enhance_ns: c.video_enhance_ns,
        compute_ns: c.compute_ns,
        memory_bytes: c.memory_bytes,
    }
}

/// Insert a client into a descending-ordered vector, keeping the order.
fn insert_by_usage_desc(v: &mut Vec<DrmClient>, c: DrmClient)
    requires
        spec_sorted_by_usage_desc(old(v)@),
    ensures
        spec_sorted_by_usage_desc(final(v)@),
        final(v)@.to_multiset() =~= old(v)@.to_multiset().insert(c),
{
    let total = c.total_usage_ns();
    let n = v.len();
    let mut i: usize = 0;
    while i < n && v[i].total_usage_ns() >= total
        invariant
            n == v@.len(),
            v@ == old(v)@,
            i <= n,
            total == c.spec_total_usage_ns(),
            forall|j: int| 0 <= j < i ==> v@[j].spec_total_usage_ns() >= total,
        decreases n - i,
    {
        i = i + 1;
    }
    let ghost olds = v@;
    v.insert(i, c);
    proof {
        olds.insert_ensures(i as int, c);
        lemma_insert_to_multiset(olds, i as int, c);
        let news = v@;
        assert forall|a: int, b: int|
            0 <= a < b < news.len() implies news[a].spec_total_usage_ns()
            >= news[b].spec_total_usage_ns() by {
            if b < i {
            } else if a < i && b == i {
                assert(news[a] == olds[a]);
            } else if a < i && b > i {
                assert(news[a] == olds[a] && news[b] == olds[b - 1]);
            } else if a == i {
                assert(news[b] == olds[b - 1]);
                assert(i < olds.len());
                assert(olds[i as int].spec_total_usage_ns() < total);
                assert(olds[b - 1].spec_total_usage_ns() <= olds[i as int].spec_total_usage_ns());
            } else {
                assert(news[a] == olds[a - 1] && news[b] == olds[b - 1]);
            }
        }
    }
}

/// Merge one descriptor's usage into a process's accumulated client record:
/// engine times add (saturating) because a process may hold several
/// descriptors, while resident memory takes the largest single value.
pub fn merge_client(c: &DrmClient, d: &FdinfoData) -> (r: DrmClient)
    ensures
        r.pid == c.pid,
        r.name == c.name,
        r.render_ns == (if c.render_ns + d.render_ns > u64::MAX {
            u64::MAX as int
        } else {
            c.render_ns + d.render_ns
        }),
        r.copy_ns == (if c.copy_ns + d.copy_ns > u64::MAX {
            u64::MAX as int
        } else {
            c.copy_ns + d.copy_ns
        }),
        r.video_ns == (if c.video_ns + d.video_ns > u64::MAX {
            u64::MAX as int
        } else {
            c.video_ns + d.video_ns
        }),
        r.video_enhance_ns == (if c.video_enhance_ns + d.video_enhance_ns > u64::MAX {
            u64::MAX as int
        } else {
            c.video_enhance_ns + d.video_enhance_ns
        }),
        r.compute_ns == (if c.compute_ns + d.compute_ns > u64::MAX {
            u64::MAX as int
        } else {
            c.compute_ns + d.compute_ns
        }),
        r.memory_bytes == (if c.memory_bytes >= d.memory_bytes {
            c.memory_bytes
        } else {
            d.memory_bytes
        }),
{
    DrmClient {
        pid: c.pid,
        name: c.name.clone(),
        render_ns: c.render_ns.saturating_add(d.render_ns),
        copy_ns: c.copy_ns.saturating_add(d.copy_ns),
        video_ns: c.video_ns.saturating_add(d.video_ns),
        video_enhance_ns: c.video_enhance_ns.saturating_add(d.video_enhance_ns),
        compute_ns: c.compute_ns.saturating_add(d.compute_ns),
        memory_bytes: if c.memory_bytes >= d.memory_bytes {
            c.memory_bytes
        } else {
            d.memory_bytes
        },
    }
}

/// The set of process ids the usage records mention.
pub open spec fn spec_record_pids(records: Seq<(u32, String, FdinfoData)>) -> Set<u32>
    decreases records.len(),
{
    if records.len() == 0 {
        Set::empty()
    } else {
        spec_record_pids(records.drop_last()).insert(records.last().0)
    }
}

/// The set of process ids the clients carry.
pub open spec fn spec_client_pids(clients: Seq<DrmClient>) -> Set<u32>
    decreases clients.len(),
{
    if clients.len() == 0 {
        Set::empty()
    } else {
        spec_client_pids(clients.drop_last()).insert(clients.last().pid)
    }
}

/// The set of (process id, name) identities the clients carry.
pub open spec fn spec_client_idents(clients: Seq<DrmClient>) -> Set<(u32, Seq<char>)>
    decreases clients.len(),
{
    if clients.len() == 0 {
        Set::empty()
    } else {
        spec_client_idents(clients.drop_last()).insert(
            (clients.last().pid, clients.last().name@),
        )
    }
}

/// The set of (process id, name) identities the usage records mention.
pub open spec fn spec_record_idents(records: Seq<(u32, String, FdinfoData)>) -> Set<
    (u32, Seq<char>),
>
    decreases records.len(),
{
    if records.len() == 0 {
        Set::empty()
    } else {
        spec_record_idents(records.drop_last()).insert((records.last().0, records.last().1@))
    }
}

/// A client's pid set holds a pid exactly when some client carries it.
proof fn lemma_client_pids_contains(clients: Seq<DrmClient>, p: u32)
    ensures
        spec_client_pids(clients).contains(p) <==> exists|j: int|
            0 <= j < clients.len() && (#[trigger] clients[j]).pid == p,
    decreases clients.len(),
{
    if clients.len() > 0 {
        lemma_client_pids_contains(clients.drop_last(), p);
        if spec_client_pids(clients).contains(p) {
            if clients.last().pid == p {
                assert(clients[clients.len() - 1].pid == p);
            } else {
                let j = choose|j: int|
                    0 <= j < clients.drop_last().len() && (#[trigger] clients.drop_last()[j]).pid
                        == p;
                assert(clients[j].pid == p);
            }
        }
        if exists|j: int| 0 <= j < clients.len() && (#[trigger] clients[j]).pid == p {
            let j = choose|j: int| 0 <= j < clients.len() && (#[trigger] clients[j]).pid == p;
            if j < clients.len() - 1 {
                assert(clients.drop_last()[j].pid == p);
            }
        }
    }
}

/// A client's ident set holds a pair exactly when some client carries it.
proof fn lemma_client_idents_contains(clients: Seq<DrmClient>, q: (u32, Seq<char>))
    ensures
        spec_client_idents(clients).contains(q) <==> exists|j: int|
            0 <= j < clients.len() && (#[trigger] clients[j]).pid == q.0 && clients[j].name@
                == q.1,
    decreases clients.len(),
{
    if clients.len() > 0 {
        lemma_client_idents_contains(clients.drop_last(), q);
        if spec_client_idents(clients).contains(q) {
            if clients.last().pid == q.0 && clients.last().name@ == q.1 {
                assert(clients[clients.len() - 1].pid == q.0 && clients[clients.len()
                    - 1].name@ == q.1);
            } else {
                let j = choose|j: int|
                    0 <= j < clients.drop_last().len() && (#[trigger] clients.drop_last()[j]).pid
                        == q.0 && clients.drop_last()[j].name@ == q.1;
                assert(clients[j].pid == q.0 && clients[j].name@ == q.1);
            }
        }
        if exists|j: int|
            0 <= j < clients.len() && (#[trigger] clients[j]).pid == q.0 && clients[j].name@
                == q.1 {
            let j = choose|j: int|
                0 <= j < clients.len() && (#[trigger] clients[j]).pid == q.0 && clients[j].name@
                    == q.1;
            if j < clients.len() - 1 {
                assert(clients.drop_last()[j].pid == q.0 && clients.drop_last()[j].name@ == q.1);
            }
        }
    }
}

/// Clients with pointwise equal pids and names carry the same pid and
/// ident sets.
proof fn lemma_sets_pointwise(s1: Seq<DrmClient>, s2: Seq<DrmClient>)
    requires
        s1.len() == s2.len(),
        forall|j: int|
            0 <= j < s1.len() ==> (#[trigger] s1[j]).pid == s2[j].pid && s1[j].name@
                == s2[j].name@,
    ensures
        spec_client_pids(s1) == spec_client_pids(s2),
        spec_client_idents(s1) == spec_client_idents(s2),
    decreases s1.len(),
{
    if s1.len() > 0 {
        assert forall|j: int|
            0 <= j < s1.drop_last().len() implies (#[trigger] s1.drop_last()[j]).pid
            == s2.drop_last()[j].pid && s1.drop_last()[j].name@ == s2.drop_last()[j].name@ by {
            assert(s1[j].pid == s2[j].pid && s1[j].name@ == s2[j].name@);
        }
        lemma_sets_pointwise(s1.drop_last(), s2.drop_last());
        assert(s1.last().pid == s2.last().pid && s1.last().name@ == s2.last().name@);
    }
}

/// The record sets of one more record extend the record sets of the prefix
/// by exactly that record's pid and identity.
proof fn lemma_record_sets_snoc(records: Seq<(u32, String, FdinfoData)>, i: int)
    requires
        0 <= i < records.len(),
    ensures
        spec_record_pids(records.subrange(0, i + 1)) == spec_record_pids(
            records.subrange(0, i),
        ).insert(records[i].0),
        spec_record_idents(records.subrange(0, i + 1)) == spec_record_idents(
            records.subrange(0, i),
        ).insert((records[i].0, records[i].1@)),
{
    let pre1 = records.subrange(0, i + 1);
    assert(pre1.drop_last() =~= records.subrange(0, i));
    assert(pre1.last() == records[i]);
}

/// Sequences with equal multisets carry the same pid and ident sets.
proof fn lemma_sets_from_multiset(s1: Seq<DrmClient>, s2: Seq<DrmClient>)
    requires
        s1.to_multiset() == s2.to_multiset(),
    ensures
        spec_client_pids(s1) =~= spec_client_pids(s2),
        spec_client_idents(s1) =~= spec_client_idents(s2),
{
    broadcast use vstd::seq_lib::group_to_multiset_ensures;

    assert forall|p: u32|
        spec_client_pids(s1).contains(p) == spec_client_pids(s2).contains(p) by {
        lemma_client_pids_contains(s1, p);
        lemma_client_pids_contains(s2, p);
        if spec_client_pids(s1).contains(p) {
            let j = choose|j: int| 0 <= j < s1.len() && (#[trigger] s1[j]).pid == p;
            let c = s1[j];
            assert(s1.contains(c));
            assert(s2.to_multiset().count(c) > 0);
            assert(s2.contains(c));
            let j2 = choose|j2: int| 0 <= j2 < s2.len() && s2[j2] == c;
            assert(s2[j2].pid == p);
        }
        if spec_client_pids(s2).contains(p) {
            let j = choose|j: int| 0 <= j < s2.len() && (#[trigger] s2[j]).pid == p;
            let c = s2[j];
            assert(s2.contains(c));
            assert(s1.to_multiset().count(c) > 0);
            assert(s1.contains(c));
            let j2 = choose|j2: int| 0 <= j2 < s1.len() && s1[j2] == c;
            assert(s1[j2].pid == p);
        }
    }
    assert forall|q: (u32, Seq<char>)|
        spec_client_idents(s1).contains(q) == spec_client_idents(s2).contains(q) by {
        lemma_client_idents_contains(s1, q);
        lemma_client_idents_contains(s2, q);
        if spec_client_idents(s1).contains(q) {
            let j = choose|j: int|
                0 <= j < s1.len() && (#[trigger] s1[j]).pid == q.0 && s1[j].name@ == q.1;
            let c = s1[j];
            assert(s1.contains(c));
            assert(s2.to_multiset().count(c) > 0);
            assert(s2.contains(c));
            let j2 = choose|j2: int| 0 <= j2 < s2.len() && s2[j2] == c;
            assert(s2[j2].pid == q.0 && s2[j2].name@ == q.1);
        }
        if spec_client_idents(s2).contains(q) {
            let j = choose|j: int|
                0 <= j < s2.len() && (#[trigger] s2[j]).pid == q.0 && s2[j].name@ == q.1;
            let c = s2[j];
            assert(s2.contains(c));
            assert(s1.to_multiset().count(c) > 0);
            assert(s1.contains(c));
            let j2 = choose|j2: int| 0 <= j2 < s1.len() && s1[j2] == c;
            assert(s1[j2].pid == q.0 && s1[j2].name@ == q.1);
        }
    }
}

/// The index of the client with the given process id, if one is present.
fn find_pid(v: &Vec<DrmClient>, pid: u32) -> (r: Option<usize>)
    ensures
        r matches Some(ix) ==> ix < v@.len() && v@[ix as int].pid == pid,
        r is None ==> forall|j: int| 0 <= j < v@.len() ==> (#[trigger] v@[j]).pid != pid,
{
    let n = v.len();
    let mut i: usize = 0;
    while i < n
        invariant
            n == v@.len(),
            i <= n,
            forall|j: int| 0 <= j < i ==> (#[trigger] v@[j]).pid != pid,
        decreases n - i,
    {
        if v[i].pid == pid {
            return Some(i);
        }
        i = i + 1;
    }
    None
}

/// Aggregate per-descriptor usage records into one client per process: a
/// process's descriptors are merged into a single record carrying the
/// process id and name of its first record. The result covers exactly the
/// process ids the records mention, each once, and every client's id and
/// name pair comes from one of the records.
pub fn aggregate_drm_clients(records: &Vec<(u32, String, FdinfoData)>) -> (r: Vec<DrmClient>)
    ensures
        forall|a: int, b: int|
            0 <= a < b < r@.len() ==> (#[trigger] r@[a]).pid != (#[trigger] r@[b]).pid,
        spec_client_pids(r@) == spec_record_pids(records@),
        spec_client_idents(r@).subset_of(spec_record_idents(records@)),
{
    let n = records.len();
    let mut clients: Vec<DrmClient> = Vec::new();
    let mut i: usize = 0;
    proof {
        assert(records@.subrange(0, 0) =~= Seq::<(u32, String, FdinfoData)>::empty());
    }
    while i < n
        invariant
            n == records@.len(),
            i <= n,
            forall|a: int, b: int|
                0 <= a < b < clients@.len() ==> (#[trigger] clients@[a]).pid != (
                #[trigger] clients@[b]).pid,
            spec_client_pids(clients@) == spec_record_pids(records@.subrange(0, i as int)),
            spec_client_idents(clients@).subset_of(
                spec_record_idents(records@.subrange(0, i as int)),
            ),
        decreases n - i,
    {
        let record = &records[i];
        let pid = record.0;
        proof {
            lemma_record_sets_snoc(records@, i as int);
        }
        match find_pid(&clients, pid) {
            Some(ix) => {
                let ghost before = clients@;
                let merged = merge_client(&clients[ix], &record.2);
                clients.set(ix, merged);
                proof {
                    assert(clients@ =~= before.update(ix as int, merged));
                    assert forall|j: int|
                        0 <= j < before.len() implies (#[trigger] before[j]).pid
                        == clients@[j].pid && before[j].name@ == clients@[j].name@ by {
                        if j != ix {
                            assert(clients@[j] == before[j]);
                        }
                    }
                    lemma_sets_pointwise(before, clients@);
                    // The merged pid was already present, so the pid set of
                    // the grown record prefix is unchanged.
                    lemma_client_pids_contains(before, pid);
                    assert(before[ix as int].pid == pid);
                    assert(spec_client_pids(before).contains(pid));
                    assert(spec_record_pids(records@.subrange(0, i + 1))
                        =~= spec_record_pids(records@.subrange(0, i as int)));
                    assert(spec_record_idents(records@.subrange(0, i as int)).subset_of(
                        spec_record_idents(records@.subrange(0, i + 1)),
                    ));
                }
            },
            None => {
                let ghost before = clients@;
                clients.push(DrmClient {
                    pid,
                    name: record.1.clone(),
                    render_ns: record.2.render_ns,
                    copy_ns: record.2.copy_ns,
                    video_ns: record.2.video_ns,
                    video_enhance_ns: record.2.video_enhance_ns,
                    compute_ns: record.2.compute_ns,
                    memory_bytes: record.2.memory_bytes,
                });
                proof {
                    assert(clients@.drop_last() =~= before);
                    assert(clients@.last().pid == pid);
                    assert(clients@.last().name@ == records@[i as int].1@);
                    assert(spec_client_pids(clients@) == spec_client_pids(before).insert(pid));
                    assert(spec_client_idents(clients@) == spec_client_idents(before).insert(
                        (pid, records@[i as int].1@),
                    ));
                    assert(spec_client_idents(clients@).subset_of(
                        spec_record_idents(records@.subrange(0, i + 1)),
                    ));
                    assert forall|a: int, b: int|
                        0 <= a < b < clients@.len() implies (#[trigger] clients@[a]).pid != (
                    #[trigger] clients@[b]).pid by {
                        if b == before.len() {
                            assert(clients@[a] == before[a]);
                            assert(before[a].pid != pid);
                        } else {
                            assert(clients@[a] == before[a] && clients@[b] == before[b]);
                        }
                    }
                }
            },
        }
        i = i + 1;
    }
    proof {
        assert(records@.subrange(0, n as int) =~= records@);
    }
    clients
}


/// Order clients by descending total usage; the collection of clients is
/// unchanged.
pub fn sort_clients_by_usage(clients: Vec<DrmClient>) -> (r: Vec<DrmClient>)
    ensures
        spec_sorted_by_usage_desc(r@),
        r@.to_multiset() =~= clients@.to_multiset(),
{
    broadcast use vstd::seq_lib::group_to_multiset_ensures;

    let n = clients.len();
    let mut out: Vec<DrmClient> = Vec::new();
    let mut i: usize = 0;
    proof {
        assert(clients@.subrange(0, 0) =~= Seq::<DrmClient>::empty());
    }
    while i < n
        invariant
            n == clients@.len(),
            i <= n,
            spec_sorted_by_usage_desc(out@),
            out@.to_multiset() =~= clients@.subrange(0, i as int).to_multiset(),
        decreases n - i,
    {
        let ghost pre = clients@.subrange(0, i as int);
        insert_by_usage_desc(&mut out, clone_client(&clients[i]));
        proof {
            broadcast use vstd::seq_lib::group_to_multiset_ensures;

            assert(clients@.subrange(0, i + 1).drop_last() =~= pre);
            assert(clients@.subrange(0, i + 1).last() == clients@[i as int]);
            assert(clients@.subrange(0, i + 1) =~= pre.push(clients@[i as int]));
            assert(pre.push(clients@[i as int]).to_multiset() =~= pre.to_multiset().insert(
                clients@[i as int],
            ));
        }
        i = i + 1;
    }
    proof {
        assert(clients@.subrange(0, n as int) =~= clients@);
    }
    out
}

/// Aggregate per-descriptor usage records into per-process clients, ordered
/// by descending total usage. The result covers exactly the process ids the
/// records mention, each once, and every client's id and name pair comes
/// from one of the records.
#[verifier::rlimit(30)]
pub fn list_drm_clients(records: &Vec<(u32, String, FdinfoData)>) -> (r: Vec<DrmClient>)
    ensures
        spec_sorted_by_usage_desc(r@),
        forall|a: int, b: int|
            0 <= a < b < r@.len() ==> (#[trigger] r@[a]).pid != (#[trigger] r@[b]).pid,
        spec_client_pids(r@) == spec_record_pids(records@),
        spec_client_idents(r@).subset_of(spec_record_idents(records@)),
{
    broadcast use vstd::seq_lib::group_to_multiset_ensures;

    let aggregated = aggregate_drm_clients(records);
    let ghost agg = aggregated@;
    let sorted = sort_clients_by_usage(aggregated);
    proof {
        lemma_sets_from_multiset(agg, sorted@);
        assert forall|a: int, b: int|
            0 <= a < b < sorted@.len() implies (#[trigger] sorted@[a]).pid != (
        #[trigger] sorted@[b]).pid by {
            let ca = sorted@[a];
            let cb = sorted@[b];
            if ca == cb {
                let withouta = sorted@.remove(a);
                assert(sorted@.to_multiset().count(ca) >= 2) by {
                    assert(withouta.to_multiset() =~= sorted@.to_multiset().remove(ca));
                    assert(withouta[b - 1] == cb);
                    assert(withouta.contains(cb));
                    assert(withouta.to_multiset().count(cb) > 0);
                }
                assert(agg.to_multiset().count(ca) >= 2);
                let k1 = choose|k1: int| 0 <= k1 < agg.len() && agg[k1] == ca;
                let without1 = agg.remove(k1);
                assert(without1.to_multiset() =~= agg.to_multiset().remove(ca));
                assert(without1.to_multiset().count(ca) >= 1);
                assert(without1.contains(ca));
                let k2 = choose|k2: int| 0 <= k2 < without1.len() && without1[k2] == ca;
                if k2 < k1 {
                    assert(without1[k2] == agg[k2]);
                    assert(agg[k2].pid == agg[k1].pid);
                } else {
                    assert(without1[k2] == agg[k2 + 1]);
                    assert(agg[k2 + 1].pid == agg[k1].pid);
                }
            } else {
                if ca.pid == cb.pid {
                    assert(sorted@.contains(ca));
                    assert(agg.to_multiset().count(ca) > 0);
                    assert(agg.contains(ca));
                    let withouta = sorted@.remove(a);
                    assert(withouta.to_multiset() =~= sorted@.to_multiset().remove(ca));
                    assert(withouta[b - 1] == cb);
                    assert(withouta.contains(cb));
                    assert(withouta.to_multiset().count(cb) > 0);
                    assert(sorted@.to_multiset().count(cb) > 0);
                    assert(agg.contains(cb));
                    let k1 = choose|k1: int| 0 <= k1 < agg.len() && agg[k1] == ca;
                    let k2 = choose|k2: int| 0 <= k2 < agg.len() && agg[k2] == cb;
                    assert(k1 != k2);
                    assert(agg[k1].pid == agg[k2].pid);
                }
            }
        }
    }
    sorted
}

/// The clients that use Quick Sync, in their original order.
pub open spec fn spec_quicksync_filter(s: Seq<DrmClient>) -> Seq<DrmClient>
    decreases s.len(),
{
    if s.len() == 0 {
        Seq::empty()
    } else {
        let rest = spec_quicksync_filter(s.drop_first());
        if s[0].video_ns > 0 || s[0].video_enhance_ns > 0 {
            seq![s[0]] + rest
        } else {
            rest
        }
    }
}

/// Appending one client to the scanned prefix appends it to the filtered
/// result exactly when it uses Quick Sync.
proof fn lemma_quicksync_filter_snoc(s: Seq<DrmClient>, i: int)
    requires
        0 <= i < s.len(),
    ensures
        spec_quicksync_filter(s.subrange(0, i + 1)) == (if s[i].video_ns > 0
            || s[i].video_enhance_ns > 0 {
            spec_quicksync_filter(s.subrange(0, i)) + seq![s[i]]
        } else {
            spec_quicksync_filter(s.subrange(0, i))
        }),
    decreases i,
{
    let pre1 = s.subrange(0, i + 1);
    let pre0 = s.subrange(0, i);
    if i == 0 {
        assert(pre1.len() == 1);
        assert(pre1[0] == s[0]);
        assert(pre1.drop_first() =~= Seq::<DrmClient>::empty());
        assert(pre0 =~= Seq::<DrmClient>::empty());
        if s[0].video_ns > 0 || s[0].video_enhance_ns > 0 {
            assert(spec_quicksync_filter(pre1.drop_first()) == Seq::<DrmClient>::empty());
            assert(spec_quicksync_filter(pre1) == seq![s[0]] + Seq::<DrmClient>::empty());
            assert(seq![s[0]] + Seq::<DrmClient>::empty() =~= spec_quicksync_filter(pre0) + seq![
                s[0],
            ]);
        }
    } else {
        lemma_quicksync_filter_snoc(s.drop_first(), i - 1);
        assert(pre1[0] == s[0]);
        assert(pre1.drop_first() =~= s.drop_first().subrange(0, i));
        assert(pre0[0] == s[0]);
        assert(pre0.drop_first() =~= s.drop_first().subrange(0, i - 1));
        assert(s.drop_first()[i - 1] == s[i]);
        if s[0].video_ns > 0 || s[0].video_enhance_ns > 0 {
            if s[i].video_ns > 0 || s[i].video_enhance_ns > 0 {
                assert(spec_quicksync_filter(pre1) =~= seq![s[0]] + (spec_quicksync_filter(
                    s.drop_first().subrange(0, i - 1),
                ) + seq![s[i]]));
                assert(seq![s[0]] + (spec_quicksync_filter(s.drop_first().subrange(0, i - 1))
                    + seq![s[i]]) =~= (seq![s[0]] + spec_quicksync_filter(
                    s.drop_first().subrange(0, i - 1),
                )) + seq![s[i]]);
            }
        }
    }
}

/// Keep only the clients that use Quick Sync (video or video-enhance
/// engines), in order.
pub fn find_quicksync_clients(clients: &Vec<DrmClient>) -> (r: Vec<DrmClient>)
    ensures
        r@ == spec_quicksync_filter(clients@),
{
    let n = clients.len();
    let mut out: Vec<DrmClient> = Vec::new();
    let mut i: usize = 0;
    proof {
        assert(clients@.subrange(0, 0) =~= Seq::<DrmClient>::empty());
    }
    while i < n
        invariant
            n == clients@.len(),
            i <= n,
            out@ == spec_quicksync_filter(clients@.subrange(0, i as int)),
        decreases n - i,
    {
        let ghost before = out@;
        let c = &clients[i];
        if c.is_using_quicksync() {
            out.push(clone_client(c));
            proof {
                assert(clients@[i as int].video_ns > 0 || clients@[i as int].video_enhance_ns > 0);
                assert(out@ =~= before + seq![clients@[i as int]]);
            }
        }
        proof {
            lemma_quicksync_filter_snoc(clients@, i as int);
        }
        i = i + 1;
    }
    proof {
        assert(clients@.subrange(0, n as int) =~= clients@);
    }
    out
}

} // verus!
