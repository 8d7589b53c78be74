//! Plain data carried through the sampling pipeline.
//!
//! All telemetry values are kept in the integer units the driver reports —
//! milliseconds, bytes, degrees Celsius, MHz, milliwatts, kilobytes per
//! second; unit conversions for display are a rendering concern and happen
//! outside the library.

use vstd::prelude::*;

verus! {

/// One telemetry reading of the monitored device.
///
/// `timestamp` is milliseconds since the monitor was constructed and is the
/// ordering key for windowing; the sampler produces samples with strictly
/// increasing timestamps.
#[derive(Clone, Copy, Debug, PartialEq, Eq, Structural)]
pub struct GpuData {
    /// Milliseconds since monitor start.
    pub timestamp: u64,
    /// GPU utilization in percent.
    pub utilization: u32,
    /// Used device memory in bytes.
    pub memory_used: u64,
    /// Total device memory in bytes.
    pub memory_total: u64,
    /// Temperature in degrees Celsius.
    pub temperature: u32,
    /// Graphics clock in MHz.
    pub gpu_clock: u32,
    /// Memory clock in MHz.
    pub memory_clock: u32,
    /// Power draw in milliwatts.
    pub power_usage: u32,
    /// Power cap in milliwatts; zero when unknown.
    pub power_limit: u32,
    /// Fan speed in percent.
    pub fan_speed: u32,
    /// PCIe send throughput in KB/s.
    pub pcie_throughput_tx: u32,
    /// PCIe receive throughput in KB/s.
    pub pcie_throughput_rx: u32,
}

/// Immutable per-device identity, fetched once at startup.
///
/// Fields that the driver could not report hold the placeholder `"N/A"`
/// (strings) or zero (numbers).
#[derive(Clone, Debug, PartialEq)]
pub struct GpuInfo {
    pub name: String,
    pub uuid: String,
    pub pcie_gen: u32,
    pub pcie_width: u32,
    pub driver_version: String,
    pub vbios_version: String,
}

impl core::default::Default for GpuInfo {
    /// All strings empty, all numbers zero.
    fn default() -> (r: Self)
        ensures
            r.name@ == Seq::<char>::empty(),
            r.uuid@ == Seq::<char>::empty(),
            r.pcie_gen == 0,
            r.pcie_width == 0,
            r.driver_version@ == Seq::<char>::empty(),
            r.vbios_version@ == Seq::<char>::empty(),
    {
        GpuInfo {
            name: String::new(),
            uuid: String::new(),
            pcie_gen: 0,
            pcie_width: 0,
            driver_version: String::new(),
            vbios_version: String::new(),
        }
    }
}

impl GpuInfo {
    /// Field-for-field copy with a verified contract (the derived `Clone`
    /// carries none).
    pub fn duplicate(&self) -> (r: Self)
        ensures
            r.name@ == self.name@,
            r.uuid@ == self.uuid@,
            r.pcie_gen == self.pcie_gen,
            r.pcie_width == self.pcie_width,
            r.driver_version@ == self.driver_version@,
            r.vbios_version@ == self.vbios_version@,
    {
        GpuInfo {
            name: self.name.clone(),
            uuid: self.uuid.clone(),
            pcie_gen: self.pcie_gen,
            pcie_width: self.pcie_width,
            driver_version: self.driver_version.clone(),
            vbios_version: self.vbios_version.clone(),
        }
    }
}

/// One process currently holding GPU memory.
#[derive(Clone, Debug, PartialEq)]
pub struct ProcessInfo {
    pub pid: u32,
    /// Display name; the sentinel `"unknown"` when resolution failed.
    pub name: String,
    /// GPU memory footprint in bytes.
    pub memory_usage: u64,
}

impl ProcessInfo {
    /// Field-for-field copy with a verified contract (the derived `Clone`
    /// carries none).
    pub fn duplicate(&self) -> (r: Self)
        ensures
            r.pid == self.pid,
            r.name@ == self.name@,
            r.memory_usage == self.memory_usage,
    {
        ProcessInfo { pid: self.pid, name: self.name.clone(), memory_usage: self.memory_usage }
    }
}

/// Some process of `s` has this id.
pub open spec fn contains_pid(s: Seq<ProcessInfo>, pid: u32) -> bool {
    exists|i: int| 0 <= i < s.len() && s[i].pid == pid
}

/// No two processes of `s` share an id.
pub open spec fn unique_pids(s: Seq<ProcessInfo>) -> bool {
    forall|i: int, j: int| 0 <= i < j < s.len() ==> s[i].pid != s[j].pid
}

/// Deduplication by process id, first occurrence wins: an entry stays
/// exactly when no earlier entry carries the same id, and the survivors keep
/// their order.
pub open spec fn dedup_by_pid(s: Seq<ProcessInfo>) -> Seq<ProcessInfo>
    decreases s.len(),
{
    if s.len() == 0 {
        Seq::empty()
    } else {
        let rest = dedup_by_pid(s.drop_last());
        if contains_pid(s.drop_last(), s.last().pid) {
            rest
        } else {
            rest.push(s.last())
        }
    }
}

/// An id found among all but the last entry is found in the whole list.
proof fn lemma_contains_pid_drop_last(s: Seq<ProcessInfo>, pid: u32)
    requires
        s.len() > 0,
        contains_pid(s.drop_last(), pid),
    ensures
        contains_pid(s, pid),
{
    let j = choose|j: int| 0 <= j < s.drop_last().len() && s.drop_last()[j].pid == pid;
    assert(s[j].pid == pid);
}

/// Deduplication keeps exactly the ids that were there.
pub proof fn lemma_dedup_same_pids(s: Seq<ProcessInfo>)
    ensures
        forall|pid: u32| contains_pid(dedup_by_pid(s), pid) <==> contains_pid(s, pid),
    decreases s.len(),
{
    if s.len() > 0 {
        let last = s.last();
        let rest_s = s.drop_last();
        let d = dedup_by_pid(s);
        let rest_d = dedup_by_pid(rest_s);
        lemma_dedup_same_pids(rest_s);
        assert forall|pid: u32| contains_pid(s, pid) implies contains_pid(d, pid) by {
            let i = choose|i: int| 0 <= i < s.len() && s[i].pid == pid;
            if i < s.len() - 1 {
                assert(rest_s[i] == s[i]);
                assert(contains_pid(rest_s, pid));
                let m = choose|m: int| 0 <= m < rest_d.len() && rest_d[m].pid == pid;
                if contains_pid(rest_s, last.pid) {
                    assert(d == rest_d);
                } else {
                    assert(d == rest_d.push(last));
                    assert(d[m].pid == pid);
                }
            } else {
                assert(pid == last.pid);
                if contains_pid(rest_s, last.pid) {
                    assert(d == rest_d);
                    assert(contains_pid(rest_d, pid));
                } else {
                    assert(d == rest_d.push(last));
                    assert(d[d.len() - 1].pid == pid);
                }
            }
        }
        assert forall|pid: u32| contains_pid(d, pid) implies contains_pid(s, pid) by {
            let m = choose|m: int| 0 <= m < d.len() && d[m].pid == pid;
            if contains_pid(rest_s, last.pid) {
                assert(d == rest_d);
                assert(contains_pid(rest_s, pid));
                lemma_contains_pid_drop_last(s, pid);
            } else {
                assert(d == rest_d.push(last));
                if m < d.len() - 1 {
                    assert(d[m] == rest_d[m]);
                    assert(contains_pid(rest_d, pid));
                    assert(contains_pid(rest_s, pid));
                    lemma_contains_pid_drop_last(s, pid);
                } else {
                    assert(d[m] == last);
                    assert(s[s.len() - 1].pid == pid);
                }
            }
        }
    }
}

/// After deduplication every id occurs exactly once.
pub proof fn lemma_dedup_unique(s: Seq<ProcessInfo>)
    ensures
        unique_pids(dedup_by_pid(s)),
    decreases s.len(),
{
    if s.len() > 0 {
        lemma_dedup_unique(s.drop_last());
        lemma_dedup_same_pids(s.drop_last());
        let d = dedup_by_pid(s);
        let rest = dedup_by_pid(s.drop_last());
        if !contains_pid(s.drop_last(), s.last().pid) {
            assert forall|i: int, j: int| 0 <= i < j < d.len() implies d[i].pid != d[j].pid by {
                if j < d.len() - 1 {
                    assert(d[i] == rest[i] && d[j] == rest[j]);
                } else {
                    assert(d[i] == rest[i]);
                    assert(0 <= i < rest.len() && rest[i].pid == rest[i].pid);
                    assert(contains_pid(rest, rest[i].pid));
                    assert(d[j] == s.last());
                }
            }
        }
    }
}

/// Remove later entries that repeat an earlier entry's process id; the first
/// occurrence wins, as driver APIs may report one process once per usage
/// context.
pub fn dedup_processes(list: Vec<ProcessInfo>) -> (r: Vec<ProcessInfo>)
    ensures
        r@ == dedup_by_pid(list@),
        unique_pids(r@),
{
    let ghost entire = list@;
    let mut list = list;
    let mut r: Vec<ProcessInfo> = Vec::new();
    while list.len() > 0
        invariant
            list@.len() <= entire.len(),
            list@ == entire.skip((entire.len() - list@.len()) as int),
            r@ == dedup_by_pid(entire.take((entire.len() - list@.len()) as int)),
        decreases list@.len(),
    {
        let ghost i = (entire.len() - list@.len()) as int;
        proof {
            assert(entire.take(i + 1).drop_last() =~= entire.take(i));
            assert(entire.take(i + 1).last() == entire[i]);
            lemma_dedup_same_pids(entire.take(i));
        }
        let entry = list.remove(0);
        assert(entry == entire[i]);
        assert(list@ =~= entire.skip(i + 1));
        let mut seen = false;
        let mut j: usize = 0;
        while j < r.len()
            invariant
                j <= r@.len(),
                seen <==> exists|k: int| 0 <= k < j && r@[k].pid == entry.pid,
            decreases r@.len() - j,
        {
            if r[j].pid == entry.pid {
                seen = true;
            }
            j += 1;
        }
        assert(seen == contains_pid(r@, entry.pid));
        if !seen {
            r.push(entry);
            assert(r@ =~= dedup_by_pid(entire.take(i)).push(entire[i]));
        }
    }
    proof {
        assert(entire.take(entire.len() as int) =~= entire);
        lemma_dedup_unique(entire);
    }
    r
}

} // verus!
