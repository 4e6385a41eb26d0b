use vstd::prelude::*;
use vstd::multiset::Multiset;

verus! {

#[verifier::external_type_specification]
#[verifier::external_body]
pub struct ExRecordError(hdrhistogram::RecordError);

#[verifier::external_type_specification]
#[verifier::external_body]
pub struct ExInstant(std::time::Instant);

/// Width of the bucket that holds `v` in a histogram of 3 significant digits
/// with lowest value 1: values below 2048 have a bucket each, and each further
/// power of two doubles the width.
pub open spec fn bucket_width(v: nat) -> nat
    decreases v,
{
    if v < 2048 {
        1
    } else {
        2 * bucket_width(v / 2)
    }
}

/// The value a histogram keeps for a recorded `v`: the bottom of its bucket.
pub open spec fn bucket_low(v: u64) -> u64 {
    (v as int - (v as int) % (bucket_width(v as nat) as int)) as u64
}

/// The top of the bucket that holds `v`.
pub open spec fn bucket_top(v: u64) -> nat {
    (bucket_low(v) + bucket_width(v as nat) - 1) as nat
}

/// Highest value an auto-resizing histogram can grow to track (`i64::MAX / 2`).
pub const HISTOGRAM_MAX_TRACKABLE: u64 = 0x3fff_ffff_ffff_ffff;

/// An hdrhistogram `Histogram<u64>` of latencies in microseconds. Verus sees
/// it only through the methods below and `samples`.
#[verifier::external_body]
pub struct LatencyHistogram {
    pub inner: hdrhistogram::Histogram<u64>,
}

/// What a histogram holds: for each recorded value, the bottom of its bucket.
pub uninterp spec fn samples(h: LatencyHistogram) -> Multiset<u64>;

impl LatencyHistogram {
    /// Relies on hdrhistogram's `Histogram::new`: an auto-resizing histogram
    /// with lowest value 1 and no samples; with 3 significant figures it is
    /// always created.
    #[verifier::external_body]
    fn with_sigfig(sigfig: u8) -> (r: LatencyHistogram)
        requires
            sigfig == 3,
        ensures
            samples(r).len() == 0,
    {
        LatencyHistogram { inner: hdrhistogram::Histogram::<u64>::new(sigfig).unwrap() }
    }

    /// Relies on hdrhistogram's `Histogram::record`: the histogram resizes to
    /// track any value up to `i64::MAX / 2`, so recording succeeds, and the
    /// value's bucket count grows by one (counts saturate at `u64::MAX`).
    #[verifier::external_body]
    fn record(&mut self, value: u64) -> (r: Result<(), hdrhistogram::RecordError>)
        requires
            value <= HISTOGRAM_MAX_TRACKABLE,
        ensures
            r is Ok,
            samples(*old(self)).len() < u64::MAX ==> samples(*final(self)) == samples(
                *old(self),
            ).insert(bucket_low(value)),
    {
        self.inner.record(value)
    }

    /// Relies on hdrhistogram's `Histogram::min`: the bottom of the lowest
    /// bucket recorded, 0 when there is no sample.
    #[verifier::external_body]
    fn min(&self) -> (r: u64)
        ensures
            samples(*self).len() == 0 ==> r == 0,
            samples(*self).len() > 0 ==> is_lowest(samples(*self), r),
    {
        self.inner.min()
    }

    /// Relies on hdrhistogram's `Histogram::max`: the top of the highest bucket
    /// recorded; a histogram with no sample still holds its initial maximum, 0.
    #[verifier::external_body]
    fn max(&self) -> (r: u64)
        ensures
            samples(*self).len() == 0 ==> r == 0,
            samples(*self).len() > 0 ==> is_top(samples(*self), r),
    {
        self.inner.max()
    }
}

/// `x` is the smallest element of `s`.
pub open spec fn is_lowest(s: Multiset<u64>, x: u64) -> bool {
    s.contains(x) && forall|v: u64| #[trigger] s.contains(v) ==> x <= v
}

/// `y` is the top of the bucket of the largest element of `s`.
pub open spec fn is_top(s: Multiset<u64>, y: u64) -> bool {
    exists|m: u64|
        s.contains(m) && (forall|v: u64| #[trigger] s.contains(v) ==> v <= m) && y == bucket_top(m)
}

pub proof fn lemma_bucket_width_positive(v: nat)
    ensures
        bucket_width(v) >= 1,
    decreases v,
{
    if v >= 2048 {
        lemma_bucket_width_positive(v / 2);
    }
}

/// Every element of a histogram's samples lies between its reported minimum
/// and maximum.
pub proof fn lemma_samples_within_range(s: Multiset<u64>, lo: u64, hi: u64, v: u64)
    requires
        is_lowest(s, lo),
        is_top(s, hi),
        s.contains(v),
    ensures
        lo <= v <= hi,
{
    let m = choose|m: u64|
        s.contains(m) && (forall|v: u64| #[trigger] s.contains(v) ==> v <= m) && hi == bucket_top(
            m,
        );
    lemma_bucket_width_positive(m as nat);
    assert(v <= m);
}

/// Values below 2048 are kept exactly.
pub proof fn lemma_small_values_exact(v: u64)
    requires
        v < 2048,
    ensures
        bucket_low(v) == v,
        bucket_top(v) == v,
{
    assert(bucket_width(v as nat) == 1);
}

/// Recording the same values in either order leaves the same samples.
pub proof fn lemma_record_order_irrelevant(s: Multiset<u64>, a: u64, b: u64)
    ensures
        s.insert(bucket_low(a)).insert(bucket_low(b)) =~= s.insert(bucket_low(b)).insert(
            bucket_low(a),
        ),
{
}

/// Relies on std's `Instant::now`: the current reading of the monotonic clock.
#[verifier::external_body]
fn clock_now() -> (r: std::time::Instant) {
    std::time::Instant::now()
}

/// The four run counters. Each update adds modulo 2^64, as an atomic
/// `fetch_add` does, so the counters never fault.
#[derive(Debug, Default)]
pub struct AtomicStats {
    pub requests: u64,
    pub success: u64,
    pub errors: u64,
    pub bytes: u64,
}

/// Latency distribution in microseconds with 3 significant digits.
pub const HISTOGRAM_SIGFIG: u8 = 3;

/// The aggregator: counters, a latency histogram, and the time it was created.
pub struct Statistics {
    stats: AtomicStats,
    histogram: LatencyHistogram,
    start_time: std::time::Instant,
}

/// The microseconds that a latency given in nanoseconds lasts, rounded down.
pub open spec fn micros_of(latency_ns: u64) -> u64 {
    (latency_ns / 1000) as u64
}

impl Statistics {
    pub closed spec fn requests(&self) -> u64 {
        self.stats.requests
    }

    pub closed spec fn successes(&self) -> u64 {
        self.stats.success
    }

    pub closed spec fn errors(&self) -> u64 {
        self.stats.errors
    }

    pub closed spec fn bytes(&self) -> u64 {
        self.stats.bytes
    }

    /// The latency samples (in microseconds) the histogram holds.
    pub closed spec fn latencies(&self) -> Multiset<u64> {
        samples(self.histogram)
    }

    /// Requests are successes plus errors, counted modulo 2^64.
    pub closed spec fn wf(&self) -> bool {
        self.stats.requests == (self.stats.success + self.stats.errors) % 0x1_0000_0000_0000_0000int
    }

    /// An aggregator with all counters at zero and an empty histogram of 3
    /// significant digits that grows to any latency a `u64` of nanoseconds holds.
    pub fn new() -> (r: Statistics)
        ensures
            r.wf(),
            r.requests() == 0,
            r.successes() == 0,
            r.errors() == 0,
            r.bytes() == 0,
            r.latencies().len() == 0,
    {
        Statistics {
            stats: AtomicStats { requests: 0, success: 0, errors: 0, bytes: 0 },
            histogram: LatencyHistogram::with_sigfig(HISTOGRAM_SIGFIG),
            start_time: clock_now(),
        }
    }

    /// Records one (possibly synthetic) request: it always counts; a success
    /// adds its bytes and puts its latency, in whole microseconds, into the
    /// histogram; an error adds neither.
    pub fn record_request(&mut self, success: bool, bytes: u64, latency_ns: u64)
        requires
            old(self).wf(),
        ensures
            final(self).wf(),
            final(self).requests() == old(self).requests().wrapping_add(1),
            success ==> final(self).successes() == old(self).successes().wrapping_add(1)
                && final(self).errors() == old(self).errors()
                && final(self).bytes() == old(self).bytes().wrapping_add(bytes),
            success && old(self).latencies().len() < u64::MAX ==> final(self).latencies()
                == old(self).latencies().insert(bucket_low(micros_of(latency_ns))),
            !success ==> final(self).successes() == old(self).successes()
                && final(self).errors() == old(self).errors().wrapping_add(1)
                && final(self).bytes() == old(self).bytes()
                && final(self).latencies() == old(self).latencies(),
    {
        let ghost s0 = self.stats;
        self.stats.requests = self.stats.requests.wrapping_add(1);
        if success {
            self.stats.success = self.stats.success.wrapping_add(1);
            self.stats.bytes = self.stats.bytes.wrapping_add(bytes);
            let _ = self.histogram.record(latency_ns / 1000);
        } else {
            self.stats.errors = self.stats.errors.wrapping_add(1);
        }
        proof {
            let w = 0x1_0000_0000_0000_0000int;
            vstd::arithmetic::div_mod::lemma_add_mod_noop(s0.success + s0.errors, 1, w);
            vstd::arithmetic::div_mod::lemma_add_mod_noop(s0.success as int, 1, w);
            vstd::arithmetic::div_mod::lemma_add_mod_noop(s0.errors as int, 1, w);
            vstd::arithmetic::div_mod::lemma_add_mod_noop(s0.success + 1, s0.errors as int, w);
            vstd::arithmetic::div_mod::lemma_add_mod_noop(s0.success as int, s0.errors + 1, w);
            vstd::arithmetic::div_mod::lemma_small_mod(s0.requests as nat, w as nat);
            vstd::arithmetic::div_mod::lemma_small_mod(1, w as nat);
        }
    }

    /// The counters.
    pub fn counters(&self) -> (r: &AtomicStats)
        ensures
            r.requests == self.requests(),
            r.success == self.successes(),
            r.errors == self.errors(),
            r.bytes == self.bytes(),
    {
        &self.stats
    }

    /// The latency histogram, in microseconds.
    pub fn histogram(&self) -> (r: &LatencyHistogram)
        ensures
            samples(*r) == self.latencies(),
    {
        &self.histogram
    }

    /// When the aggregator was created.
    pub fn start_time(&self) -> &std::time::Instant {
        &self.start_time
    }

    /// The lowest latency sample and the top of the highest sample's bucket,
    /// in microseconds; both 0 when nothing was recorded.
    pub fn latency_range_us(&self) -> (r: (u64, u64))
        ensures
            self.latencies().len() == 0 ==> r.0 == 0 && r.1 == 0,
            self.latencies().len() > 0 ==> is_lowest(self.latencies(), r.0) && is_top(
                self.latencies(),
                r.1,
            ),
            forall|v: u64| #[trigger] self.latencies().contains(v) ==> r.0 <= v && v <= r.1,
    {
        let lo = self.histogram.min();
        let hi = self.histogram.max();
        proof {
            assert forall|v: u64| #[trigger] self.latencies().contains(v) implies lo <= v && v
                <= hi by {
                lemma_samples_within_range(self.latencies(), lo, hi, v);
            }
        }
        (lo, hi)
    }
}

} // verus!
