use vstd::prelude::*;

verus! {

use crate::stats::{Statistics, bucket_low, micros_of};
use vstd::multiset::Multiset;
use crate::tally::Tally;

/// 2^64: `u64` counters add modulo this.
pub open spec fn wrap() -> nat {
    0x1_0000_0000_0000_0000
}

/// Run totals over every driver of a worker, wide enough never to overflow.
#[derive(Clone, Copy, Debug, PartialEq, Eq, Structural)]
pub struct Totals {
    pub requests: u128,
    pub successes: u128,
    pub errors: u128,
    pub bytes: u128,
    pub latency_ns: u128,
}

/// The mathematical sums over what the drivers returned; a failed driver
/// (`None`) counts as an empty tally.
pub struct TotalsModel {
    pub requests: nat,
    pub successes: nat,
    pub errors: nat,
    pub bytes: nat,
    pub latency_ns: nat,
}

impl Totals {
    pub open spec fn view(&self) -> TotalsModel {
        TotalsModel {
            requests: self.requests as nat,
            successes: self.successes as nat,
            errors: self.errors as nat,
            bytes: self.bytes as nat,
            latency_ns: self.latency_ns as nat,
        }
    }
}

pub open spec fn sum_tallies(s: Seq<Option<Tally>>) -> TotalsModel
    decreases s.len(),
{
    if s.len() == 0 {
        TotalsModel { requests: 0, successes: 0, errors: 0, bytes: 0, latency_ns: 0 }
    } else {
        let p = sum_tallies(s.drop_last());
        match s.last() {
            Some(t) => TotalsModel {
                requests: p.requests + t.requests as nat,
                successes: p.successes + t.successes as nat,
                errors: p.errors + t.errors as nat,
                bytes: p.bytes + t.bytes as nat,
                latency_ns: p.latency_ns + t.total_latency_ns as nat,
            },
            None => p,
        }
    }
}

/// Whether a driver result feeds one synthetic record into the aggregator.
pub open spec fn feeds(o: Option<Tally>) -> bool {
    o is Some && o->0.requests > 0
}

/// How many results feed a record.
pub open spec fn fed_count(s: Seq<Option<Tally>>) -> nat
    decreases s.len(),
{
    if s.len() == 0 {
        0
    } else {
        fed_count(s.drop_last()) + if feeds(s.last()) { 1nat } else { 0nat }
    }
}

/// How many of those records are successes (the driver had at least one).
pub open spec fn fed_successes(s: Seq<Option<Tally>>) -> nat
    decreases s.len(),
{
    if s.len() == 0 {
        0
    } else {
        fed_successes(s.drop_last()) + if feeds(s.last()) && s.last()->0.successes > 0 {
            1nat
        } else {
            0nat
        }
    }
}

/// The bytes those records carry: each success record carries its driver's
/// average bytes per request.
pub open spec fn fed_bytes(s: Seq<Option<Tally>>) -> nat
    decreases s.len(),
{
    if s.len() == 0 {
        0
    } else {
        fed_bytes(s.drop_last()) + if feeds(s.last()) && s.last()->0.successes > 0 {
            (s.last()->0.bytes / s.last()->0.requests) as nat
        } else {
            0nat
        }
    }
}

/// The latency samples those records put into the histogram: for each success
/// record, the bucket of its driver's mean latency in microseconds.
pub open spec fn fed_samples(s: Seq<Option<Tally>>) -> Multiset<u64>
    decreases s.len(),
{
    if s.len() == 0 {
        Multiset::empty()
    } else if feeds(s.last()) && s.last()->0.successes > 0 {
        fed_samples(s.drop_last()).insert(
            bucket_low(micros_of((s.last()->0.total_latency_ns / s.last()->0.requests) as u64)),
        )
    } else {
        fed_samples(s.drop_last())
    }
}

/// Every result is a balanced tally or a failure.
pub open spec fn all_balanced(s: Seq<Option<Tally>>) -> bool {
    forall|i: int| 0 <= i < s.len() && s[i] is Some ==> (#[trigger] s[i])->0.wf()
}

/// Totals over balanced tallies are balanced: requests are successes plus errors.
pub proof fn lemma_totals_balanced(s: Seq<Option<Tally>>)
    requires
        all_balanced(s),
    ensures
        sum_tallies(s).requests == sum_tallies(s).successes + sum_tallies(s).errors,
    decreases s.len(),
{
    if s.len() > 0 {
        let q = s.drop_last();
        assert forall|i: int| 0 <= i < q.len() && q[i] is Some implies (#[trigger] q[i])->0.wf() by {
            assert(q[i] == s[i]);
        }
        lemma_totals_balanced(q);
        if s.last() is Some {
            assert(s[s.len() - 1] == s.last());
            crate::tally::lemma_tally_balanced(s.last()->0.history@);
        }
    }
}

/// When every attempt of every driver timed out, the totals hold no success,
/// as many errors as requests, and no bytes.
pub proof fn lemma_all_timeouts_totals(s: Seq<Option<Tally>>)
    requires
        all_balanced(s),
        forall|i: int, j: int|
            0 <= i < s.len() && s[i] is Some && 0 <= j < s[i]->0.history@.len() ==> (
            #[trigger] s[i]->0.history@[j]) is Timeout,
    ensures
        sum_tallies(s).successes == 0,
        sum_tallies(s).errors == sum_tallies(s).requests,
        sum_tallies(s).bytes == 0,
    decreases s.len(),
{
    if s.len() > 0 {
        let q = s.drop_last();
        assert forall|i: int| 0 <= i < q.len() && q[i] is Some implies (#[trigger] q[i])->0.wf() by {
            assert(q[i] == s[i]);
        }
        assert forall|i: int, j: int|
            0 <= i < q.len() && q[i] is Some && 0 <= j < q[i]->0.history@.len() implies (
            #[trigger] q[i]->0.history@[j]) is Timeout by {
            assert(q[i] == s[i]);
        }
        lemma_all_timeouts_totals(q);
        lemma_totals_balanced(s);
        if s.last() is Some {
            let k = s.len() - 1;
            assert(s[k] == s.last());
            let h = s.last()->0.history@;
            assert forall|j: int| 0 <= j < h.len() implies !(h[j] is Success) by {
                assert(s[k]->0.history@[j] is Timeout);
            }
            crate::tally::lemma_bytes_only_from_successes(h);
        }
    }
}

proof fn lemma_wrap_step(a: u64, k: nat, b: u64)
    requires
        a == (b + k) % (wrap() as int),
    ensures
        a.wrapping_add(1) == (b + k + 1) % (wrap() as int),
{
    vstd::arithmetic::div_mod::lemma_add_mod_noop(b + k, 1, wrap() as int);
}

proof fn lemma_wrap_add(a: u64, k: nat, b: u64, x: u64)
    requires
        a == (b + k) % (wrap() as int),
    ensures
        a.wrapping_add(x) == (b + k + x) % (wrap() as int),
{
    vstd::arithmetic::div_mod::lemma_add_mod_noop(b + k, x as int, wrap() as int);
    vstd::arithmetic::div_mod::lemma_small_mod(x as nat, wrap());
}

/// One worker: the aggregator for its drivers and how many drivers it runs.
pub struct Worker {
    stats: Statistics,
    connections: usize,
}

impl Worker {
    pub closed spec fn stats_spec(&self) -> Statistics {
        self.stats
    }

    pub closed spec fn connections_spec(&self) -> usize {
        self.connections
    }

    pub closed spec fn wf(&self) -> bool {
        self.stats.wf()
    }

    /// A worker that will run `connections` drivers, with a fresh aggregator.
    pub fn new(connections: usize) -> (r: Worker)
        ensures
            r.wf(),
            r.connections_spec() == connections,
            r.stats_spec().requests() == 0,
            r.stats_spec().successes() == 0,
            r.stats_spec().errors() == 0,
            r.stats_spec().bytes() == 0,
            r.stats_spec().latencies().len() == 0,
    {
        Worker { stats: Statistics::new(), connections }
    }

    /// How many drivers this worker runs.
    pub fn connections(&self) -> (r: usize)
        ensures
            r == self.connections_spec(),
    {
        self.connections
    }

    /// The aggregator.
    pub fn stats(&self) -> (r: &Statistics)
        ensures
            *r == self.stats_spec(),
    {
        &self.stats
    }

    /// Reduces what the drivers returned (`None` for a driver that failed):
    /// sums every tally into the totals, and feeds one synthetic record per
    /// tally with requests — a success when it had any success, with its
    /// average bytes and average latency per request.
    pub fn collect(&mut self, results: &Vec<Option<Tally>>) -> (r: Totals)
        requires
            old(self).wf(),
        ensures
            final(self).wf(),
            old(self).stats_spec().latencies().len() + results@.len() < u64::MAX
                ==> final(self).stats_spec().latencies() == old(self).stats_spec().latencies().add(
                fed_samples(results@),
            ),
            r@ == sum_tallies(results@),
            all_balanced(results@) ==> r.requests == r.successes + r.errors,
            final(self).connections_spec() == old(self).connections_spec(),
            final(self).stats_spec().requests() == (old(self).stats_spec().requests() + fed_count(
                results@,
            )) % (wrap() as int),
            final(self).stats_spec().successes() == (old(self).stats_spec().successes()
                + fed_successes(results@)) % (wrap() as int),
            final(self).stats_spec().errors() == (old(self).stats_spec().errors() + (fed_count(
                results@,
            ) - fed_successes(results@))) % (wrap() as int),
            final(self).stats_spec().bytes() == (old(self).stats_spec().bytes() + fed_bytes(
                results@,
            )) % (wrap() as int),
    {
        let ghost s0 = self.stats;
        let mut t = Totals { requests: 0, successes: 0, errors: 0, bytes: 0, latency_ns: 0 };
        let n = results.len();
        let mut i: usize = 0;
        proof {
            vstd::arithmetic::div_mod::lemma_small_mod(s0.requests() as nat, wrap());
            vstd::arithmetic::div_mod::lemma_small_mod(s0.successes() as nat, wrap());
            vstd::arithmetic::div_mod::lemma_small_mod(s0.errors() as nat, wrap());
            vstd::arithmetic::div_mod::lemma_small_mod(s0.bytes() as nat, wrap());
            assert(results@.take(0) =~= Seq::<Option<Tally>>::empty());
        }
        while i < n
            invariant
                n == results@.len(),
                i <= n,
                t@ == sum_tallies(results@.take(i as int)),
                t.requests <= i * 0xffff_ffff_ffff_ffffu128,
                t.successes <= i * 0xffff_ffff_ffff_ffffu128,
                t.errors <= i * 0xffff_ffff_ffff_ffffu128,
                t.bytes <= i * 0xffff_ffff_ffff_ffffu128,
                t.latency_ns <= i * 0xffff_ffff_ffff_ffffu128,
                self.connections == old(self).connections,
                self.stats.requests() == (s0.requests() + fed_count(results@.take(i as int))) % (
                wrap() as int),
                self.stats.successes() == (s0.successes() + fed_successes(results@.take(i as int)))
                    % (wrap() as int),
                self.stats.errors() == (s0.errors() + (fed_count(results@.take(i as int))
                    - fed_successes(results@.take(i as int)))) % (wrap() as int),
                self.stats.bytes() == (s0.bytes() + fed_bytes(results@.take(i as int))) % (
                wrap() as int),
                fed_successes(results@.take(i as int)) <= fed_count(results@.take(i as int)),
                s0 == old(self).stats,
                self.stats.wf(),
                s0.latencies().len() + n < u64::MAX ==> self.stats.latencies() == s0.latencies().add(
                    fed_samples(results@.take(i as int)),
                ) && fed_samples(results@.take(i as int)).len() <= i,
            decreases n - i,
        {
            let ghost pre = results@.take(i as int);
            let ghost next = results@.take(i + 1);
            proof {
                assert(next.drop_last() =~= pre);
                assert(next.last() == results@[i as int]);
                assert((i + 1) * 0xffff_ffff_ffff_ffffu128 == i * 0xffff_ffff_ffff_ffffu128
                    + 0xffff_ffff_ffff_ffffu128) by (nonlinear_arith);
                assert((i + 1) * 0xffff_ffff_ffff_ffffu128 <= 0xffff_ffff_ffff_ffff
                    * 0xffff_ffff_ffff_ffffu128) by (nonlinear_arith)
                    requires
                        i < n,
                        n <= usize::MAX,
                ;
            }
            match &results[i] {
                Some(tally) => {
                    t.requests = t.requests + tally.requests as u128;
                    t.successes = t.successes + tally.successes as u128;
                    t.errors = t.errors + tally.errors as u128;
                    t.bytes = t.bytes + tally.bytes as u128;
                    t.latency_ns = t.latency_ns + tally.total_latency_ns as u128;
                    if tally.requests > 0 {
                        let success = tally.successes > 0;
                        let avg_bytes = tally.bytes / tally.requests;
                        let avg_latency = tally.total_latency_ns / tally.requests;
                        let ghost sb = self.stats;
                        self.stats.record_request(success, avg_bytes, avg_latency);
                        proof {
                            if s0.latencies().len() + n < u64::MAX && success {
                                assert(self.stats.latencies() =~= s0.latencies().add(
                                    fed_samples(next),
                                ));
                            }
                            lemma_wrap_step(sb.requests(), fed_count(pre), s0.requests());
                            if success {
                                lemma_wrap_step(sb.successes(), fed_successes(pre), s0.successes());
                                lemma_wrap_add(sb.bytes(), fed_bytes(pre), s0.bytes(), avg_bytes);
                            } else {
                                lemma_wrap_step(
                                    sb.errors(),
                                    (fed_count(pre) - fed_successes(pre)) as nat,
                                    s0.errors(),
                                );
                            }
                        }
                    }
                },
                None => {},
            }
            i = i + 1;
        }
        proof {
            assert(results@.take(n as int) =~= results@);
            if all_balanced(results@) {
                lemma_totals_balanced(results@);
            }
        }
        t
    }
}

/// Connections per worker: `connections` split evenly over `threads`, the
/// remainder dropped; `None` when there is no worker to split over.
pub fn connections_per_worker(connections: usize, threads: usize) -> (r: Option<usize>)
    ensures
        threads == 0 <==> r is None,
        threads > 0 ==> r == Some((connections / threads) as usize),
{
    if threads == 0 {
        None
    } else {
        Some(connections / threads)
    }
}

} // verus!
