//! Timing statistics for the host shell: how long event handling,
//! presentation, and update phases took, recorded as nanosecond durations.

use vstd::prelude::*;

verus! {

/// The sum of a sequence of durations.
pub open spec fn sum_ns(s: Seq<u64>) -> int
    decreases s.len(),
{
    if s.len() == 0 {
        0
    } else {
        sum_ns(s.drop_last()) + s.last()
    }
}

/// The duration between two nanosecond timestamps; a stop that lies before
/// its start counts as zero, as a monotonic clock's difference does.
pub open spec fn duration_ns(start: u64, stop: u64) -> u64 {
    if stop >= start {
        (stop - start) as u64
    } else {
        0
    }
}

/// Recorded phase durations, in nanoseconds.
#[derive(Debug)]
pub struct Bench {
    pub bench_events: Vec<u64>,
    pub present_events: Vec<u64>,
    pub update_events: Vec<u64>,
}

/// The statistics a summary reports.  Averages are integer quotients; an
/// average over no recorded events is reported as zero.
#[derive(Debug, Clone, Copy, PartialEq, Eq, Structural)]
pub struct Stats {
    pub events: usize,
    pub average_ns: u128,
    pub presents: usize,
    pub average_present_ns: u128,
    pub updates: usize,
    pub average_update_ns: u128,
    pub min_ns: u64,
    pub max_ns: u64,
}

fn total_of(v: &Vec<u64>) -> (t: u128)
    ensures
        t == sum_ns(v@),
{
    let mut t: u128 = 0;
    let n = v.len();
    let mut i: usize = 0;
    while i < n
        invariant
            i <= n,
            n == v@.len(),
            t == sum_ns(v@.take(i as int)),
            t <= i * u64::MAX,
        decreases n - i,
    {
        proof {
            assert(v@.take(i + 1 as int).drop_last() =~= v@.take(i as int));
            assert(v@.take(i + 1 as int).last() == v@[i as int]);
            assert(i * u64::MAX + u64::MAX == (i + 1) * u64::MAX) by (nonlinear_arith);
            assert((i + 1) * u64::MAX <= usize::MAX * u64::MAX) by (nonlinear_arith)
                requires i + 1 <= usize::MAX;
            assert(usize::MAX * u64::MAX < u128::MAX) by (nonlinear_arith)
                requires usize::MAX <= u64::MAX;
        }
        t = t + (v[i] as u128);
        i = i + 1;
    }
    proof {
        assert(v@.take(n as int) =~= v@);
    }
    t
}

fn min_of(v: &Vec<u64>) -> (m: u64)
    requires
        v@.len() > 0,
    ensures
        exists|i: int| 0 <= i < v@.len() && v@[i] == m,
        forall|i: int| 0 <= i < v@.len() ==> m <= #[trigger] v@[i],
{
    let mut m = v[0];
    let n = v.len();
    let mut i: usize = 1;
    while i < n
        invariant
            1 <= i <= n,
            n == v@.len(),
            exists|j: int| 0 <= j < i && v@[j] == m,
            forall|j: int| 0 <= j < i ==> m <= #[trigger] v@[j],
        decreases n - i,
    {
        if v[i] < m {
            m = v[i];
        }
        i = i + 1;
    }
    m
}

fn max_of(v: &Vec<u64>) -> (m: u64)
    requires
        v@.len() > 0,
    ensures
        exists|i: int| 0 <= i < v@.len() && v@[i] == m,
        forall|i: int| 0 <= i < v@.len() ==> m >= #[trigger] v@[i],
{
    let mut m = v[0];
    let n = v.len();
    let mut i: usize = 1;
    while i < n
        invariant
            1 <= i <= n,
            n == v@.len(),
            exists|j: int| 0 <= j < i && v@[j] == m,
            forall|j: int| 0 <= j < i ==> m >= #[trigger] v@[j],
        decreases n - i,
    {
        if v[i] > m {
            m = v[i];
        }
        i = i + 1;
    }
    m
}

/// Relies on std's `format!` to render the computed statistics as text.
#[verifier::external_body]
fn format_summary(stats: &Stats) -> String {
    format!(
        "events: {}\naverage event (ns): {}\npresents: {}\naverage present (ns): {}\nupdates: {}\naverage update (ns): {}\nmin: {}\nmax: {}",
        stats.events,
        stats.average_ns,
        stats.presents,
        stats.average_present_ns,
        stats.updates,
        stats.average_update_ns,
        stats.min_ns,
        stats.max_ns,
    )
}

impl Bench {
    /// A recorder with nothing recorded yet.
    pub fn new() -> (b: Bench)
        ensures
            b.bench_events@ == Seq::<u64>::empty(),
            b.present_events@ == Seq::<u64>::empty(),
            b.update_events@ == Seq::<u64>::empty(),
    {
        Bench { bench_events: Vec::new(), present_events: Vec::new(), update_events: Vec::new() }
    }

    /// The statistics over everything recorded so far.
    pub fn stats(&self) -> (r: Stats)
        requires
            self.bench_events@.len() > 0,
        ensures
            r.events == self.bench_events@.len(),
            r.average_ns == sum_ns(self.bench_events@) / self.bench_events@.len() as int,
            r.presents == self.present_events@.len(),
            r.average_present_ns == if self.present_events@.len() > 0 {
                sum_ns(self.present_events@) / self.present_events@.len() as int
            } else {
                0
            },
            r.updates == self.update_events@.len(),
            r.average_update_ns == if self.update_events@.len() > 0 {
                sum_ns(self.update_events@) / self.update_events@.len() as int
            } else {
                0
            },
            exists|i: int| 0 <= i < self.bench_events@.len() && self.bench_events@[i] == r.min_ns,
            forall|i: int| 0 <= i < self.bench_events@.len()
                ==> r.min_ns <= #[trigger] self.bench_events@[i],
            exists|i: int| 0 <= i < self.bench_events@.len() && self.bench_events@[i] == r.max_ns,
            forall|i: int| 0 <= i < self.bench_events@.len()
                ==> r.max_ns >= #[trigger] self.bench_events@[i],
    {
        let events = self.bench_events.len();
        let average_ns = total_of(&self.bench_events) / (events as u128);
        let presents = self.present_events.len();
        let average_present_ns = if presents > 0 {
            total_of(&self.present_events) / (presents as u128)
        } else {
            0
        };
        let updates = self.update_events.len();
        let average_update_ns = if updates > 0 {
            total_of(&self.update_events) / (updates as u128)
        } else {
            0
        };
        let min_ns = min_of(&self.bench_events);
        let max_ns = max_of(&self.bench_events);
        Stats {
            events,
            average_ns,
            presents,
            average_present_ns,
            updates,
            average_update_ns,
            min_ns,
            max_ns,
        }
    }

    /// Renders the statistics as text, or "N/A" when nothing was recorded.
    pub fn summary(&self) -> (s: String)
        ensures
            self.bench_events@.len() == 0 ==> s@ == "N/A"@,
    {
        if self.bench_events.len() == 0 {
            return "N/A".to_owned();
        }
        let stats = self.stats();
        format_summary(&stats)
    }

    /// Records the duration of handling one event.
    pub fn add_total(&mut self, start: u64, stop: u64)
        ensures
            final(self).bench_events@ == old(self).bench_events@.push(duration_ns(start, stop)),
            final(self).present_events@ == old(self).present_events@,
            final(self).update_events@ == old(self).update_events@,
    {
        self.bench_events.push(if stop >= start {
            stop - start
        } else {
            0
        });
    }

    /// Records the duration of one presentation phase.
    pub fn add_present(&mut self, start: u64, stop: u64)
        ensures
            final(self).present_events@ == old(self).present_events@.push(duration_ns(start, stop)),
            final(self).bench_events@ == old(self).bench_events@,
            final(self).update_events@ == old(self).update_events@,
    {
        self.present_events.push(if stop >= start {
            stop - start
        } else {
            0
        });
    }

    /// Records the duration of one update phase.
    pub fn add_update(&mut self, start: u64, stop: u64)
        ensures
            final(self).update_events@ == old(self).update_events@.push(duration_ns(start, stop)),
            final(self).bench_events@ == old(self).bench_events@,
            final(self).present_events@ == old(self).present_events@,
    {
        self.update_events.push(if stop >= start {
            stop - start
        } else {
            0
        });
    }
}

impl Default for Bench {
    /// The same as [`Bench::new`].
    fn default() -> (b: Self)
        ensures
            b.bench_events@ == Seq::<u64>::empty(),
            b.present_events@ == Seq::<u64>::empty(),
            b.update_events@ == Seq::<u64>::empty(),
    {
        Bench::new()
    }
}

} // verus!
