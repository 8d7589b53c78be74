//! The sliding window of recent samples and the latest-only process table.
//!
//! The consumer side of the pipeline drains the channel into these two
//! stores; the renderer reads them. `History` keeps samples ordered by
//! arrival and, after each append, evicts from the front every sample whose
//! timestamp lies before `newest.timestamp - display_duration`.

use vstd::prelude::*;
use std::collections::VecDeque;
use crate::data::GpuData;
use crate::data::ProcessInfo;

verus! {

/// The eviction threshold for a window whose newest sample has timestamp
/// `newest`: `max(0, newest - duration)`, in milliseconds.
pub open spec fn window_start(newest: u64, duration: u64) -> u64 {
    if newest >= duration {
        (newest - duration) as u64
    } else {
        0
    }
}

/// Front eviction: drop leading samples with a timestamp before `start`.
pub open spec fn evict_front(s: Seq<GpuData>, start: u64) -> Seq<GpuData>
    decreases s.len(),
{
    if s.len() > 0 && s[0].timestamp < start {
        evict_front(s.drop_first(), start)
    } else {
        s
    }
}

/// One append step of the window: push `x` at the back, then evict from the
/// front by the threshold computed from `x`'s own timestamp.
pub open spec fn appended(s: Seq<GpuData>, x: GpuData, duration: u64) -> Seq<GpuData> {
    evict_front(s.push(x), window_start(x.timestamp, duration))
}

/// A whole drain: append every sample of `xs` in order.
pub open spec fn appended_all(s: Seq<GpuData>, xs: Seq<GpuData>, duration: u64) -> Seq<GpuData>
    decreases xs.len(),
{
    if xs.len() == 0 {
        s
    } else {
        appended(appended_all(s, xs.drop_last(), duration), xs.last(), duration)
    }
}

/// Samples ordered oldest first: the ordering invariant of the window.
pub open spec fn sorted_by_timestamp(s: Seq<GpuData>) -> bool {
    forall|i: int, j: int| 0 <= i <= j < s.len() ==> s[i].timestamp <= s[j].timestamp
}

/// Timestamp of the newest sample, or zero for an empty window.
pub open spec fn latest_timestamp(s: Seq<GpuData>) -> u64 {
    if s.len() > 0 {
        s.last().timestamp
    } else {
        0
    }
}

/// Eviction only drops a prefix: what remains is a suffix of the input.
pub proof fn lemma_evict_front_suffix(s: Seq<GpuData>, start: u64)
    ensures
        exists|k: int| 0 <= k <= s.len() && evict_front(s, start) == s.skip(k),
    decreases s.len(),
{
    if s.len() > 0 && s[0].timestamp < start {
        lemma_evict_front_suffix(s.drop_first(), start);
        let k = choose|k: int|
            0 <= k <= s.drop_first().len() && evict_front(s.drop_first(), start)
                == s.drop_first().skip(k);
        assert(s.drop_first().skip(k) =~= s.skip(k + 1));
    } else {
        assert(evict_front(s, start) =~= s.skip(0));
    }
}

/// In a sorted window nothing older than `start` survives eviction: every
/// remaining sample has `timestamp >= start`.
pub proof fn lemma_evict_front_bound(s: Seq<GpuData>, start: u64)
    requires
        sorted_by_timestamp(s),
    ensures
        forall|i: int|
            0 <= i < evict_front(s, start).len() ==> evict_front(s, start)[i].timestamp >= start,
    decreases s.len(),
{
    if s.len() > 0 && s[0].timestamp < start {
        assert(sorted_by_timestamp(s.drop_first())) by {
            assert(forall|i: int, j: int|
                0 <= i <= j < s.drop_first().len() ==> s.drop_first()[i].timestamp
                    <= s.drop_first()[j].timestamp) by {
                assert(forall|i: int| 0 <= i < s.drop_first().len() ==> s.drop_first()[i]
                    == s[i + 1]);
            }
        }
        lemma_evict_front_bound(s.drop_first(), start);
        assert(evict_front(s, start) == evict_front(s.drop_first(), start));
    } else if s.len() > 0 {
        assert(evict_front(s, start) == s);
        assert(forall|i: int| 0 <= i < s.len() ==> s[0].timestamp <= #[trigger] s[i].timestamp);
    }
}

/// A suffix of a sorted window is sorted.
pub proof fn lemma_suffix_sorted(s: Seq<GpuData>, k: int)
    requires
        sorted_by_timestamp(s),
        0 <= k <= s.len(),
    ensures
        sorted_by_timestamp(s.skip(k)),
{
    assert(forall|i: int| 0 <= i < s.skip(k).len() ==> s.skip(k)[i] == s[i + k]);
}

/// Eviction never removes the newest sample when its own timestamp is at or
/// past the threshold: it stays, still at the back.
pub proof fn lemma_evict_front_keeps_last(s: Seq<GpuData>, start: u64)
    requires
        s.len() > 0,
        s.last().timestamp >= start,
    ensures
        evict_front(s, start).len() > 0,
        evict_front(s, start).last() == s.last(),
    decreases s.len(),
{
    if s[0].timestamp < start {
        assert(s.len() > 1);
        assert(s.drop_first().last() == s.last());
        lemma_evict_front_keeps_last(s.drop_first(), start);
    }
}

/// The window bound, the central safety property of the store: appending a
/// sample `x` no older than the window's newest evicts exactly far enough
/// that no remaining sample is older than `x.timestamp - duration`, `x`
/// itself survives as the newest, and the order by timestamp is kept.
pub proof fn lemma_window_bound(s: Seq<GpuData>, x: GpuData, duration: u64)
    requires
        sorted_by_timestamp(s),
        s.len() > 0 ==> s.last().timestamp <= x.timestamp,
    ensures
        appended(s, x, duration).len() > 0,
        appended(s, x, duration).last() == x,
        forall|i: int|
            0 <= i < appended(s, x, duration).len() ==> appended(s, x, duration)[i].timestamp
                >= window_start(x.timestamp, duration),
        sorted_by_timestamp(appended(s, x, duration)),
{
    let p = s.push(x);
    let start = window_start(x.timestamp, duration);
    assert(sorted_by_timestamp(p)) by {
        assert(forall|i: int| 0 <= i < s.len() ==> p[i] == s[i]);
        assert(p.last() == x);
        assert(forall|i: int| 0 <= i < p.len() ==> p[i].timestamp <= x.timestamp);
    }
    assert(p.last().timestamp >= start);
    lemma_evict_front_keeps_last(p, start);
    lemma_evict_front_bound(p, start);
    lemma_evict_front_suffix(p, start);
    let k = choose|k: int| 0 <= k <= p.len() && evict_front(p, start) == p.skip(k);
    lemma_suffix_sorted(p, k);
}

/// A whole drain only ever drops from the front: the window after appending
/// every sample of `xs` is a suffix of the old contents followed by `xs`.
pub proof fn lemma_appended_all_suffix(s: Seq<GpuData>, xs: Seq<GpuData>, duration: u64)
    ensures
        exists|k: int|
            0 <= k <= s.len() + xs.len() && appended_all(s, xs, duration) == (s + xs).skip(k),
    decreases xs.len(),
{
    if xs.len() == 0 {
        assert((s + xs).skip(0) =~= s);
    } else {
        let prev = s + xs.drop_last();
        lemma_appended_all_suffix(s, xs.drop_last(), duration);
        let k = choose|k: int|
            0 <= k <= prev.len() && appended_all(s, xs.drop_last(), duration) == prev.skip(k);
        let p = appended_all(s, xs.drop_last(), duration).push(xs.last());
        let start = window_start(xs.last().timestamp, duration);
        lemma_evict_front_suffix(p, start);
        let m = choose|m: int| 0 <= m <= p.len() && evict_front(p, start) == p.skip(m);
        assert(p =~= (s + xs).skip(k)) by {
            assert(s + xs =~= prev.push(xs.last()));
        }
        assert(p.skip(m) =~= (s + xs).skip(k + m));
    }
}

/// Order is kept end to end: if the window is sorted and the drained batch
/// continues the order, the window after any whole drain is still sorted by
/// timestamp, oldest first.
pub proof fn lemma_drain_preserves_order(s: Seq<GpuData>, xs: Seq<GpuData>, duration: u64)
    requires
        sorted_by_timestamp(s + xs),
    ensures
        sorted_by_timestamp(appended_all(s, xs, duration)),
{
    lemma_appended_all_suffix(s, xs, duration);
    let k = choose|k: int|
        0 <= k <= s.len() + xs.len() && appended_all(s, xs, duration) == (s + xs).skip(k);
    lemma_suffix_sorted(s + xs, k);
}

/// The window bound after a whole drain: once the last sample of a batch is
/// in, nothing in the window is older than that newest timestamp minus the
/// display duration, whatever the window held before.
pub proof fn lemma_window_bound_after_drain(s: Seq<GpuData>, xs: Seq<GpuData>, duration: u64)
    requires
        sorted_by_timestamp(s + xs),
        xs.len() > 0,
    ensures
        appended_all(s, xs, duration).len() > 0,
        appended_all(s, xs, duration).last() == xs.last(),
        forall|i: int|
            0 <= i < appended_all(s, xs, duration).len() ==> appended_all(s, xs, duration)[i].timestamp
                >= window_start(xs.last().timestamp, duration),
{
    let prev = s + xs.drop_last();
    let w = appended_all(s, xs.drop_last(), duration);
    assert(sorted_by_timestamp(prev)) by {
        assert(forall|i: int| 0 <= i < prev.len() ==> prev[i] == (s + xs)[i]);
    }
    lemma_drain_preserves_order(s, xs.drop_last(), duration);
    lemma_appended_all_suffix(s, xs.drop_last(), duration);
    let k = choose|k: int| 0 <= k <= prev.len() && w == prev.skip(k);
    assert(w.len() > 0 ==> w.last().timestamp <= xs.last().timestamp) by {
        if w.len() > 0 {
            assert(w.last() == prev[k + w.len() - 1]);
            assert(prev[k + w.len() - 1] == (s + xs)[k + w.len() - 1]);
            assert((s + xs)[k + w.len() - 1].timestamp <= (s + xs).last().timestamp);
        }
    }
    lemma_window_bound(w, xs.last(), duration);
    assert(appended_all(s, xs, duration) == appended(w, xs.last(), duration));
}

/// Changing the display duration takes effect at the very next append: the
/// window then satisfies the new bound everywhere, no matter what span its
/// present contents were admitted under.
pub proof fn lemma_duration_change_immediate(s: Seq<GpuData>, x: GpuData, new_duration: u64)
    requires
        sorted_by_timestamp(s),
        s.len() > 0 ==> s.last().timestamp <= x.timestamp,
    ensures
        forall|i: int|
            0 <= i < appended(s, x, new_duration).len() ==> appended(s, x, new_duration)[i].timestamp
                >= window_start(x.timestamp, new_duration),
{
    lemma_window_bound(s, x, new_duration);
}

/// The time-bounded sliding window of telemetry samples.
pub struct History {
    samples: VecDeque<GpuData>,
    display_duration: u64,
}

impl History {
    /// The samples currently held, oldest first.
    pub closed spec fn samples_seq(&self) -> Seq<GpuData> {
        self.samples@
    }

    /// The configured window span in milliseconds.
    pub closed spec fn duration(&self) -> u64 {
        self.display_duration
    }

    /// An empty window with the given span in milliseconds.
    pub fn new(display_duration: u64) -> (h: History)
        ensures
            h.samples_seq() == Seq::<GpuData>::empty(),
            h.duration() == display_duration,
    {
        History { samples: VecDeque::new(), display_duration }
    }

    pub fn len(&self) -> (n: usize)
        ensures
            n == self.samples_seq().len(),
    {
        self.samples.len()
    }

    pub fn get(&self, i: usize) -> (x: GpuData)
        requires
            i < self.samples_seq().len(),
        ensures
            x == self.samples_seq()[i as int],
    {
        self.samples[i]
    }

    /// The newest sample, if any.
    pub fn latest(&self) -> (r: Option<GpuData>)
        ensures
            self.samples_seq().len() == 0 ==> r is None,
            self.samples_seq().len() > 0 ==> r == Some(self.samples_seq().last()),
    {
        if self.samples.len() > 0 {
            Some(self.samples[self.samples.len() - 1])
        } else {
            None
        }
    }

    /// Change the window span. Takes effect at the very next append: no
    /// samples are touched here, only the threshold used from now on.
    pub fn set_display_duration(&mut self, display_duration: u64)
        ensures
            final(self).samples_seq() == old(self).samples_seq(),
            final(self).duration() == display_duration,
    {
        self.display_duration = display_duration;
    }

    /// Append one sample at the back, then evict from the front every sample
    /// older than `x.timestamp - display_duration`.
    pub fn push(&mut self, x: GpuData)
        ensures
            final(self).duration() == old(self).duration(),
            final(self).samples_seq() == appended(
                old(self).samples_seq(),
                x,
                old(self).duration(),
            ),
    {
        self.samples.push_back(x);
        let start: u64 = if x.timestamp >= self.display_duration {
            x.timestamp - self.display_duration
        } else {
            0
        };
        assert(start == window_start(x.timestamp, old(self).duration()));
        while self.samples.len() > 0 && self.samples[0].timestamp < start
            invariant
                self.display_duration == old(self).display_duration,
                evict_front(self.samples@, start) == appended(
                    old(self).samples_seq(),
                    x,
                    old(self).duration(),
                ),
            decreases self.samples@.len(),
        {
            let _ = self.samples.pop_front();
        }
    }

    /// A copy of the whole window, oldest first, for a renderer to iterate
    /// outside the lock.
    pub fn snapshot(&self) -> (v: Vec<GpuData>)
        ensures
            v@ == self.samples_seq(),
    {
        let mut v: Vec<GpuData> = Vec::new();
        let mut i: usize = 0;
        while i < self.samples.len()
            invariant
                i <= self.samples@.len(),
                v@ == self.samples@.subrange(0, i as int),
            decreases self.samples@.len() - i,
        {
            v.push(self.samples[i]);
            assert(v@ =~= self.samples@.subrange(0, i + 1 as int));
            i += 1;
        }
        assert(v@ =~= self.samples@);
        v
    }
}

/// How long ago a sample was taken, relative to the newest timestamp of the
/// window; clamped at zero.
pub open spec fn age_of(latest: u64, ts: u64) -> u64 {
    if latest >= ts {
        (latest - ts) as u64
    } else {
        0
    }
}

/// The plot point a sample contributes to the power series: its age and its
/// raw power draw and cap, or nothing when the cap is unknown (zero), since
/// a percentage of zero is meaningless.
pub open spec fn power_point_of(latest: u64, x: GpuData) -> Option<(u64, u32, u32)> {
    if x.power_limit > 0 {
        Some((age_of(latest, x.timestamp), x.power_usage, x.power_limit))
    } else {
        None
    }
}

/// The power series of a window: one point per sample with a known power
/// cap, in window order; samples with `power_limit == 0` are left out.
pub open spec fn power_series(s: Seq<GpuData>, latest: u64) -> Seq<(u64, u32, u32)> {
    s.filter_map(|x: GpuData| power_point_of(latest, x))
}

/// Exclusion is the only filtering the power series does: every point it
/// holds carries a nonzero power cap, taken unchanged from some sample of
/// the window.
pub proof fn lemma_power_zero_excluded(s: Seq<GpuData>, latest: u64)
    ensures
        forall|i: int|
            0 <= i < power_series(s, latest).len() ==> (#[trigger] power_series(s, latest)[i]).2
                > 0,
{
    let ps = power_series(s, latest);
    assert forall|i: int| 0 <= i < ps.len() implies (#[trigger] ps[i]).2 > 0 by {
        assert(ps.contains(ps[i]));
        s.lemma_filter_map_contains(|x: GpuData| power_point_of(latest, x), ps[i]);
    }
}

impl History {
    /// One plot point per sample, oldest first: its age relative to the
    /// newest timestamp, and the sample itself, unmodified. Every series
    /// except the power series is drawn from these points.
    pub fn series_points(&self) -> (v: Vec<(u64, GpuData)>)
        ensures
            v@.len() == self.samples_seq().len(),
            forall|i: int|
                0 <= i < v@.len() ==> (#[trigger] v@[i]) == (
                    age_of(
                        latest_timestamp(self.samples_seq()),
                        self.samples_seq()[i].timestamp,
                    ),
                    self.samples_seq()[i],
                ),
    {
        let n = self.samples.len();
        let latest: u64 = if n > 0 {
            self.samples[n - 1].timestamp
        } else {
            0
        };
        assert(latest == latest_timestamp(self.samples_seq()));
        let mut v: Vec<(u64, GpuData)> = Vec::new();
        let mut i: usize = 0;
        while i < n
            invariant
                n == self.samples@.len(),
                latest == latest_timestamp(self.samples@),
                i <= n,
                v@.len() == i,
                forall|j: int|
                    0 <= j < i ==> (#[trigger] v@[j]) == (
                        age_of(latest, self.samples@[j].timestamp),
                        self.samples@[j],
                    ),
            decreases n - i,
        {
            let x = self.samples[i];
            let age: u64 = if latest >= x.timestamp {
                latest - x.timestamp
            } else {
                0
            };
            v.push((age, x));
            i += 1;
        }
        v
    }

    /// The power series of the window: age plus raw power draw and cap, for
    /// exactly the samples whose cap is known (nonzero).
    pub fn power_points(&self) -> (v: Vec<(u64, u32, u32)>)
        ensures
            v@ == power_series(self.samples_seq(), latest_timestamp(self.samples_seq())),
    {
        let n = self.samples.len();
        let latest: u64 = if n > 0 {
            self.samples[n - 1].timestamp
        } else {
            0
        };
        assert(latest == latest_timestamp(self.samples_seq()));
        let mut v: Vec<(u64, u32, u32)> = Vec::new();
        let mut i: usize = 0;
        while i < n
            invariant
                n == self.samples@.len(),
                latest == latest_timestamp(self.samples@),
                i <= n,
                v@ == self.samples@.take(i as int).filter_map(
                    |x: GpuData| power_point_of(latest, x),
                ),
            decreases n - i,
        {
            let x = self.samples[i];
            proof {
                self.samples@.lemma_filter_map_take_succ(
                    |y: GpuData| power_point_of(latest, y),
                    i as int,
                );
            }
            if x.power_limit > 0 {
                let age: u64 = if latest >= x.timestamp {
                    latest - x.timestamp
                } else {
                    0
                };
                v.push((age, x.power_usage, x.power_limit));
            }
            assert(v@ =~= self.samples@.take(i + 1 as int).filter_map(
                |y: GpuData| power_point_of(latest, y),
            ));
            i += 1;
        }
        assert(self.samples@.take(n as int) =~= self.samples@);
        v
    }
}

/// The latest-only table of processes holding GPU memory; replaced wholesale
/// on each drain, never merged or diffed.
pub struct ProcessTable {
    entries: Vec<ProcessInfo>,
}

impl ProcessTable {
    pub closed spec fn entries_seq(&self) -> Seq<ProcessInfo> {
        self.entries@
    }

    pub fn new() -> (t: ProcessTable)
        ensures
            t.entries_seq() == Seq::<ProcessInfo>::empty(),
    {
        ProcessTable { entries: Vec::new() }
    }

    pub fn len(&self) -> (n: usize)
        ensures
            n == self.entries_seq().len(),
    {
        self.entries.len()
    }

    pub fn get(&self, i: usize) -> (p: &ProcessInfo)
        requires
            i < self.entries_seq().len(),
        ensures
            *p == self.entries_seq()[i as int],
    {
        &self.entries[i]
    }

    /// Wholesale replacement: afterwards the table holds exactly `list`,
    /// with no element of the old list left behind.
    pub fn replace(&mut self, list: Vec<ProcessInfo>)
        ensures
            final(self).entries_seq() == list@,
    {
        self.entries = list;
    }

    /// A copy of the current list for a renderer to iterate outside the lock.
    pub fn snapshot(&self) -> (v: Vec<ProcessInfo>)
        ensures
            v@.len() == self.entries_seq().len(),
            forall|i: int|
                0 <= i < v@.len() ==> {
                    &&& v@[i].pid == self.entries_seq()[i].pid
                    &&& v@[i].name@ == self.entries_seq()[i].name@
                    &&& v@[i].memory_usage == self.entries_seq()[i].memory_usage
                },
    {
        let mut v: Vec<ProcessInfo> = Vec::new();
        let mut i: usize = 0;
        while i < self.entries.len()
            invariant
                i <= self.entries@.len(),
                v@.len() == i,
                forall|j: int|
                    0 <= j < i ==> {
                        &&& v@[j].pid == self.entries@[j].pid
                        &&& v@[j].name@ == self.entries@[j].name@
                        &&& v@[j].memory_usage == self.entries@[j].memory_usage
                    },
            decreases self.entries@.len() - i,
        {
            v.push(self.entries[i].duplicate());
            i += 1;
        }
        v
    }
}

} // verus!
