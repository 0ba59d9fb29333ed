use vstd::prelude::*;
use vstd::relations::{sorted_by, total_ordering};

verus! {

/// The most samples kept per kind of call; recording stops once it is reached.
pub const MAX_ENTRIES: usize = 1_000_000;

/// A view or update call that takes longer than this many nanoseconds
/// (one millisecond) is slow: such calls are only a part of a frame's budget.
pub const SLOW_CALL_THRESHOLD: u64 = 1_000_000;

/// std's `Instant`, a reading of the monotonic clock, carried opaquely.
#[verifier::external_type_specification]
#[verifier::external_body]
pub struct ExInstant(std::time::Instant);

/// Relies on `Instant::now`: reads the monotonic clock. Nothing is promised
/// of the reading.
pub assume_specification[ std::time::Instant::now ]() -> std::time::Instant;

/// Relies on `Instant::elapsed`: the time passed since the reading.
pub assume_specification[ std::time::Instant::elapsed ](i: &std::time::Instant) -> core::time::Duration;

/// Relies on `Duration::as_nanos`: the whole number of nanoseconds in a duration.
pub assume_specification[ core::time::Duration::as_nanos ](d: &core::time::Duration) -> u128;

/// Relies on `slice::sort_unstable`: the elements afterwards are the same
/// ones, in ascending order.
#[verifier::external_body]
fn sort_ascending(v: &mut Vec<u64>)
    ensures
        sorted_by(final(v)@, nanos_le()),
        final(v)@.to_multiset() == old(v)@.to_multiset(),
{
    v.sort_unstable();
}

/// The order samples are ranked by.
pub open spec fn nanos_le() -> spec_fn(u64, u64) -> bool {
    |a: u64, b: u64| a <= b
}

/// The samples in ascending order.
pub open spec fn sorted_samples(s: Seq<u64>) -> Seq<u64> {
    s.sort_by(nanos_le())
}

/// The index of the `p`-th percentile among `n` sorted samples:
/// `floor(p * n / 100)`, clamped to the last index.
pub open spec fn percentile_index(n: nat, p: nat) -> int {
    let i = (p * n / 100) as int;
    if i < n - 1 { i } else { n - 1 }
}

/// The `p`-th percentile of non-empty samples.
pub open spec fn percentile_of(s: Seq<u64>, p: nat) -> u64 {
    sorted_samples(s)[percentile_index(s.len(), p)]
}

/// The sum of the samples.
pub open spec fn total(s: Seq<u64>) -> int
    decreases s.len(),
{
    if s.len() == 0 {
        0
    } else {
        total(s.drop_last()) + s.last()
    }
}

/// The number of samples above the slow-call threshold.
pub open spec fn slow_count(s: Seq<u64>) -> nat
    decreases s.len(),
{
    if s.len() == 0 {
        0
    } else {
        slow_count(s.drop_last()) + if s.last() > SLOW_CALL_THRESHOLD { 1nat } else { 0nat }
    }
}

/// `m` is the smallest of the samples.
pub open spec fn is_min(s: Seq<u64>, m: u64) -> bool {
    s.contains(m) && forall|i: int| 0 <= i < s.len() ==> m <= #[trigger] s[i]
}

/// `m` is the largest of the samples.
pub open spec fn is_max(s: Seq<u64>, m: u64) -> bool {
    s.contains(m) && forall|i: int| 0 <= i < s.len() ==> #[trigger] s[i] <= m
}

/// The last sample, if any.
pub open spec fn last_of(s: Seq<u64>) -> Option<u64> {
    if s.len() == 0 { None } else { Some(s.last()) }
}

/// The mean of the samples, rounded down, if any.
pub open spec fn average_of(s: Seq<u64>) -> Option<u64> {
    if s.len() == 0 { None } else { Some((total(s) / s.len() as int) as u64) }
}

/// `m` describes the smallest sample: nothing when there are none.
pub open spec fn min_result(s: Seq<u64>, m: Option<u64>) -> bool {
    match m {
        None => s.len() == 0,
        Some(v) => is_min(s, v),
    }
}

/// `m` describes the largest sample: nothing when there are none.
pub open spec fn max_result(s: Seq<u64>, m: Option<u64>) -> bool {
    match m {
        None => s.len() == 0,
        Some(v) => is_max(s, v),
    }
}

/// The `p`-th percentile, if there are samples.
pub open spec fn percentile_result(s: Seq<u64>, p: nat) -> Option<u64> {
    if s.len() == 0 { None } else { Some(percentile_of(s, p)) }
}

proof fn lemma_total_bound(s: Seq<u64>)
    ensures
        0 <= total(s) <= s.len() * (u64::MAX as int),
    decreases s.len(),
{
    if s.len() > 0 {
        lemma_total_bound(s.drop_last());
    }
}

proof fn lemma_slow_count_bound(s: Seq<u64>)
    ensures
        slow_count(s) <= s.len(),
    decreases s.len(),
{
    if s.len() > 0 {
        lemma_slow_count_bound(s.drop_last());
    }
}

proof fn lemma_nanos_le_total()
    ensures
        total_ordering(nanos_le()),
{
    assert(vstd::relations::reflexive(nanos_le()));
    assert(vstd::relations::antisymmetric(nanos_le()));
    assert(vstd::relations::transitive(nanos_le()));
    assert(vstd::relations::strongly_connected(nanos_le()));
}

/// The last element of `times`, if any.
fn last_sample(times: &Vec<u64>) -> (r: Option<u64>)
    ensures
        r == last_of(times@),
{
    if times.len() == 0 {
        None
    } else {
        Some(times[times.len() - 1])
    }
}

/// The mean of `times`, rounded down, if any.
fn average(times: &Vec<u64>) -> (r: Option<u64>)
    ensures
        r == average_of(times@),
{
    if times.len() == 0 {
        return None;
    }
    let mut sum: u128 = 0;
    let mut i: usize = 0;
    while i < times.len()
        invariant
            0 <= i <= times.len(),
            sum == total(times@.take(i as int)),
        decreases times.len() - i,
    {
        proof {
            assert(times@.take(i as int + 1).drop_last() =~= times@.take(i as int));
            lemma_total_bound(times@.take(i as int));
            assert((i as int) < (u64::MAX as int));
            assert((i as int) * (u64::MAX as int) + (u64::MAX as int) <= (u64::MAX as int) * (u64::MAX as int)) by (nonlinear_arith)
                requires (i as int) < (u64::MAX as int);
        }
        sum = sum + times[i] as u128;
        i = i + 1;
    }
    proof {
        assert(times@.take(times.len() as int) =~= times@);
        lemma_total_bound(times@);
        let n = times@.len() as int;
        let t = total(times@);
        assert(t / n <= u64::MAX as int) by (nonlinear_arith)
            requires 0 <= t <= n * (u64::MAX as int), n > 0;
    }
    Some((sum / times.len() as u128) as u64)
}

/// The smallest element of `times`, if any.
fn minimum(times: &Vec<u64>) -> (r: Option<u64>)
    ensures
        min_result(times@, r),
{
    if times.len() == 0 {
        return None;
    }
    let mut m = times[0];
    let mut i: usize = 1;
    assert(times@.take(1)[0] == m);
    while i < times.len()
        invariant
            1 <= i <= times.len(),
            times@.take(i as int).contains(m),
            forall|j: int| 0 <= j < i ==> m <= #[trigger] times@[j],
        decreases times.len() - i,
    {
        if times[i] < m {
            m = times[i];
            assert(times@.take(i as int + 1)[i as int] == m);
        } else {
            proof {
                let k = choose|k: int| 0 <= k < i && times@.take(i as int)[k] == m;
                assert(times@.take(i as int + 1)[k] == m);
            }
        }
        i = i + 1;
    }
    assert(times@.take(times.len() as int) =~= times@);
    Some(m)
}

/// The largest element of `times`, if any.
fn maximum(times: &Vec<u64>) -> (r: Option<u64>)
    ensures
        max_result(times@, r),
{
    if times.len() == 0 {
        return None;
    }
    let mut m = times[0];
    let mut i: usize = 1;
    assert(times@.take(1)[0] == m);
    while i < times.len()
        invariant
            1 <= i <= times.len(),
            times@.take(i as int).contains(m),
            forall|j: int| 0 <= j < i ==> #[trigger] times@[j] <= m,
        decreases times.len() - i,
    {
        if times[i] > m {
            m = times[i];
            assert(times@.take(i as int + 1)[i as int] == m);
        } else {
            proof {
                let k = choose|k: int| 0 <= k < i && times@.take(i as int)[k] == m;
                assert(times@.take(i as int + 1)[k] == m);
            }
        }
        i = i + 1;
    }
    assert(times@.take(times.len() as int) =~= times@);
    Some(m)
}

/// The number of elements of `times` above the slow-call threshold.
fn count_slow(times: &Vec<u64>) -> (r: usize)
    ensures
        r == slow_count(times@),
{
    let mut n: usize = 0;
    let mut i: usize = 0;
    while i < times.len()
        invariant
            0 <= i <= times.len(),
            n == slow_count(times@.take(i as int)),
        decreases times.len() - i,
    {
        proof {
            assert(times@.take(i as int + 1).drop_last() =~= times@.take(i as int));
            lemma_slow_count_bound(times@.take(i as int));
        }
        if times[i] > SLOW_CALL_THRESHOLD {
            n = n + 1;
        }
        i = i + 1;
    }
    assert(times@.take(times.len() as int) =~= times@);
    n
}

/// The element at the `p`-th percentile of `sorted`, or zero when it is empty.
fn percentile(sorted: &Vec<u64>, p: usize) -> (r: u64)
    requires
        p <= 100,
    ensures
        sorted@.len() == 0 ==> r == 0,
        sorted@.len() > 0 ==> r == sorted@[percentile_index(sorted@.len(), p as nat)],
{
    if sorted.len() == 0 {
        return 0;
    }
    let n = sorted.len() as u128;
    proof {
        assert(p * n <= 100 * n) by (nonlinear_arith)
            requires p <= 100;
        assert(p * n / 100 <= n) by (nonlinear_arith)
            requires p <= 100, n >= 0;
    }
    let index = ((p as u128) * n / 100) as usize;
    let index = if index < sorted.len() - 1 { index } else { sorted.len() - 1 };
    sorted[index]
}

/// The 50th, 90th and 99th percentiles of `times`, none when it is empty.
fn compute_percentiles(times: &Vec<u64>) -> (r: (Option<u64>, Option<u64>, Option<u64>))
    ensures
        r.0 == percentile_result(times@, 50),
        r.1 == percentile_result(times@, 90),
        r.2 == percentile_result(times@, 99),
{
    if times.len() == 0 {
        return (None, None, None);
    }
    let mut sorted = times.clone();
    assert(sorted@ =~= times@);
    sort_ascending(&mut sorted);
    proof {
        lemma_nanos_le_total();
        times@.lemma_sort_by_ensures(nanos_le());
        vstd::seq_lib::lemma_sorted_unique(sorted@, sorted_samples(times@), nanos_le());
        assert(sorted@ == sorted_samples(times@));
        times@.to_multiset_ensures();
        sorted@.to_multiset_ensures();
    }
    let p50 = percentile(&sorted, 50);
    let p90 = percentile(&sorted, 90);
    let p99 = percentile(&sorted, 99);
    (Some(p50), Some(p90), Some(p99))
}

/// Statistics derived from one kind of timing samples, in nanoseconds.
#[derive(Debug, Clone, Copy, Default)]
pub struct Stats {
    /// Number of recorded measurements.
    pub count: usize,
    /// The most recent measurement.
    pub last: Option<u64>,
    /// Average of all measurements, rounded down.
    pub avg: Option<u64>,
    /// Minimum measurement.
    pub min: Option<u64>,
    /// Maximum measurement.
    pub max: Option<u64>,
    /// 50th percentile (median).
    pub p50: Option<u64>,
    /// 90th percentile.
    pub p90: Option<u64>,
    /// 99th percentile.
    pub p99: Option<u64>,
    /// Number of calls exceeding [`SLOW_CALL_THRESHOLD`].
    pub slow_call_count: usize,
}

/// Health of a preview's timings, from no data to severe.
#[derive(Debug, Clone, Copy, PartialEq, Eq, Structural, Default)]
pub enum Indicator {
    /// No samples to judge by.
    #[default]
    Unknown,
    /// p90 under [`SLOW_CALL_THRESHOLD`] and under 1% slow calls.
    Healthy,
    /// p90 under twice [`SLOW_CALL_THRESHOLD`] and under 5% slow calls.
    Degraded,
    /// p90 at twice [`SLOW_CALL_THRESHOLD`] or over, or 5% slow calls or more.
    Severe,
}

/// The rank of an indicator: severe > degraded > healthy > unknown.
pub open spec fn severity(i: Indicator) -> nat {
    match i {
        Indicator::Unknown => 0,
        Indicator::Healthy => 1,
        Indicator::Degraded => 2,
        Indicator::Severe => 3,
    }
}

/// Fewer than `percent` percent of the calls were slow (true when there were none).
pub open spec fn slow_share_below(slow: nat, count: nat, percent: nat) -> bool {
    count == 0 || slow * 100 < percent * count
}

/// The health shown by `count` calls with the given p90 and number of slow
/// calls: unknown without a p90; otherwise judged by p90 against the
/// threshold and by the share of slow calls.
pub open spec fn indicator_of(count: nat, p90: Option<u64>, slow: nat) -> Indicator {
    match p90 {
        None => Indicator::Unknown,
        Some(p90) => if p90 < SLOW_CALL_THRESHOLD && slow_share_below(slow, count, 1) {
            Indicator::Healthy
        } else if p90 < 2 * SLOW_CALL_THRESHOLD && slow_share_below(slow, count, 5) {
            Indicator::Degraded
        } else {
            Indicator::Severe
        },
    }
}

/// The health shown by the samples `s`.
pub open spec fn samples_indicator(s: Seq<u64>) -> Indicator {
    indicator_of(s.len(), percentile_result(s, 90), slow_count(s))
}

/// The worse of two indicators, by [`severity`].
pub open spec fn worse(a: Indicator, b: Indicator) -> Indicator {
    if severity(a) >= severity(b) { a } else { b }
}

impl Stats {
    /// These statistics describe the samples `s`.
    pub open spec fn describes(self, s: Seq<u64>) -> bool {
        &&& self.count == s.len()
        &&& self.last == last_of(s)
        &&& self.avg == average_of(s)
        &&& min_result(s, self.min)
        &&& max_result(s, self.max)
        &&& self.p50 == percentile_result(s, 50)
        &&& self.p90 == percentile_result(s, 90)
        &&& self.p99 == percentile_result(s, 99)
        &&& self.slow_call_count == slow_count(s)
    }

    /// The health these statistics show.
    pub open spec fn spec_indicator(self) -> Indicator {
        indicator_of(self.count as nat, self.p90, self.slow_call_count as nat)
    }

    /// Classifies these statistics, using p90 as the main measure since it is
    /// what most frames see, and the share of slow calls as the second.
    pub fn indicator(&self) -> (r: Indicator)
        ensures
            r == self.spec_indicator(),
    {
        let p90 = match self.p90 {
            None => return Indicator::Unknown,
            Some(p90) => p90,
        };
        let slow = self.slow_call_count as u128;
        let count = self.count as u128;
        let under_one_percent = count == 0 || slow * 100 < count;
        let under_five_percent = count == 0 || slow * 100 < 5 * count;
        if p90 < SLOW_CALL_THRESHOLD && under_one_percent {
            Indicator::Healthy
        } else if p90 < 2 * SLOW_CALL_THRESHOLD && under_five_percent {
            Indicator::Degraded
        } else {
            Indicator::Severe
        }
    }
}

impl Indicator {
    /// Every indicator.
    pub const ALL: [Indicator; 4] = [
        Indicator::Healthy,
        Indicator::Degraded,
        Indicator::Severe,
        Indicator::Unknown,
    ];

    /// The worse of two indicators.
    pub fn combine(self, other: Self) -> (r: Self)
        ensures
            r == worse(self, other),
    {
        match (self, other) {
            (Indicator::Severe, _) | (_, Indicator::Severe) => Indicator::Severe,
            (Indicator::Degraded, _) | (_, Indicator::Degraded) => Indicator::Degraded,
            (Indicator::Healthy, _) | (_, Indicator::Healthy) => Indicator::Healthy,
            (Indicator::Unknown, Indicator::Unknown) => Indicator::Unknown,
        }
    }

    /// The indicator's display name.
    pub fn name(&self) -> (r: &'static str)
        ensures
            r@ == match self {
                Indicator::Unknown => "Unknown"@,
                Indicator::Healthy => "Healthy"@,
                Indicator::Degraded => "Degraded"@,
                Indicator::Severe => "Severe"@,
            },
    {
        match self {
            Indicator::Unknown => "Unknown",
            Indicator::Healthy => "Healthy",
            Indicator::Degraded => "Degraded",
            Indicator::Severe => "Severe",
        }
    }
}

/// Statistics of the samples `times`.
fn stats_of(times: &Vec<u64>) -> (r: Stats)
    ensures
        r.describes(times@),
{
    let (p50, p90, p99) = compute_percentiles(times);
    Stats {
        count: times.len(),
        last: last_sample(times),
        avg: average(times),
        min: minimum(times),
        max: maximum(times),
        p50,
        p90,
        p99,
        slow_call_count: count_slow(times),
    }
}

/// The duration since `start` in nanoseconds, saturating at `u64::MAX`.
fn elapsed_nanos(start: &std::time::Instant) -> u64 {
    let elapsed = start.elapsed();
    let nanos = elapsed.as_nanos();
    if nanos > u64::MAX as u128 {
        u64::MAX
    } else {
        nanos as u64
    }
}

/// `after` is `before` with one sample appended, or unchanged at the cap.
pub open spec fn recorded_one(before: Seq<u64>, after: Seq<u64>) -> bool {
    if before.len() < MAX_ENTRIES {
        exists|d: u64| after == before.push(d)
    } else {
        after == before
    }
}

/// Timing samples of a preview's view and update calls, in nanoseconds.
#[derive(Debug, Default)]
pub struct Performance {
    /// Recorded durations of view calls.
    view_times: Vec<u64>,
    /// Recorded durations of update calls.
    update_times: Vec<u64>,
}

impl Performance {
    /// The recorded view-call durations, oldest first.
    pub closed spec fn view_samples(&self) -> Seq<u64> {
        self.view_times@
    }

    /// The recorded update-call durations, oldest first.
    pub closed spec fn update_samples(&self) -> Seq<u64> {
        self.update_times@
    }

    /// A tracker that starts from the given samples.
    pub fn new(view: Vec<u64>, update: Vec<u64>) -> (r: Self)
        ensures
            r.view_samples() == view@,
            r.update_samples() == update@,
    {
        Performance { view_times: view, update_times: update }
    }

    /// Runs the view call `f`, records how long it took, and returns its result.
    /// Once [`MAX_ENTRIES`] samples are kept, the duration is not recorded.
    pub fn record_view<T, F: FnOnce() -> T>(&mut self, f: F) -> (r: T)
        requires
            f.requires(()),
        ensures
            f.ensures((), r),
            recorded_one(old(self).view_samples(), final(self).view_samples()),
            final(self).update_samples() == old(self).update_samples(),
    {
        let start = std::time::Instant::now();
        let result = f();
        let elapsed = elapsed_nanos(&start);
        if self.view_times.len() < MAX_ENTRIES {
            self.view_times.push(elapsed);
        }
        result
    }

    /// Runs the update call `f`, records how long it took, and returns its result.
    /// Once [`MAX_ENTRIES`] samples are kept, the duration is not recorded.
    pub fn record_update<T, F: FnOnce() -> T>(&mut self, f: F) -> (r: T)
        requires
            f.requires(()),
        ensures
            f.ensures((), r),
            recorded_one(old(self).update_samples(), final(self).update_samples()),
            final(self).view_samples() == old(self).view_samples(),
    {
        let start = std::time::Instant::now();
        let result = f();
        let elapsed = elapsed_nanos(&start);
        if self.update_times.len() < MAX_ENTRIES {
            self.update_times.push(elapsed);
        }
        result
    }

    /// Drops every sample.
    pub fn reset(&mut self)
        ensures
            final(self).view_samples() == Seq::<u64>::empty(),
            final(self).update_samples() == Seq::<u64>::empty(),
    {
        self.view_times.clear();
        self.update_times.clear();
    }

    /// The number of recorded view calls.
    pub fn view_count(&self) -> (r: usize)
        ensures
            r == self.view_samples().len(),
    {
        self.view_times.len()
    }

    /// The number of recorded update calls.
    pub fn update_count(&self) -> (r: usize)
        ensures
            r == self.update_samples().len(),
    {
        self.update_times.len()
    }

    /// The most recent view duration.
    pub fn last_view_time(&self) -> (r: Option<u64>)
        ensures
            r == last_of(self.view_samples()),
    {
        last_sample(&self.view_times)
    }

    /// The most recent update duration.
    pub fn last_update_time(&self) -> (r: Option<u64>)
        ensures
            r == last_of(self.update_samples()),
    {
        last_sample(&self.update_times)
    }

    /// The mean view duration, rounded down.
    pub fn avg_view_time(&self) -> (r: Option<u64>)
        ensures
            r == average_of(self.view_samples()),
    {
        average(&self.view_times)
    }

    /// The mean update duration, rounded down.
    pub fn avg_update_time(&self) -> (r: Option<u64>)
        ensures
            r == average_of(self.update_samples()),
    {
        average(&self.update_times)
    }

    /// The shortest view duration.
    pub fn min_view_time(&self) -> (r: Option<u64>)
        ensures
            min_result(self.view_samples(), r),
    {
        minimum(&self.view_times)
    }

    /// The shortest update duration.
    pub fn min_update_time(&self) -> (r: Option<u64>)
        ensures
            min_result(self.update_samples(), r),
    {
        minimum(&self.update_times)
    }

    /// The longest view duration.
    pub fn max_view_time(&self) -> (r: Option<u64>)
        ensures
            max_result(self.view_samples(), r),
    {
        maximum(&self.view_times)
    }

    /// The longest update duration.
    pub fn max_update_time(&self) -> (r: Option<u64>)
        ensures
            max_result(self.update_samples(), r),
    {
        maximum(&self.update_times)
    }

    /// Statistics of the view durations.
    pub fn view_stats(&self) -> (r: Stats)
        ensures
            r.describes(self.view_samples()),
    {
        stats_of(&self.view_times)
    }

    /// Statistics of the update durations.
    pub fn update_stats(&self) -> (r: Stats)
        ensures
            r.describes(self.update_samples()),
    {
        stats_of(&self.update_times)
    }

    /// The worse of the view and the update indicators.
    pub fn overall_status(&self) -> (r: Indicator)
        ensures
            r == worse(samples_indicator(self.view_samples()), samples_indicator(self.update_samples())),
    {
        let view = self.view_stats();
        let update = self.update_stats();
        view.indicator().combine(update.indicator())
    }
}

} // verus!
