use vstd::prelude::*;

verus! {

use crate::stats::{Statistics, is_lowest, is_top};
use vstd::multiset::Multiset;
use crate::worker::Totals;

pub const NANOS_PER_SEC: u128 = 1_000_000_000;

pub const BYTES_PER_MB: u128 = 1_048_576;

/// `a / b` rounded to the nearest integer, halves up.
pub open spec fn rounded(a: nat, b: nat) -> nat
    recommends
        b > 0,
{
    a / b + if (a % b) * 2 >= b {
        1nat
    } else {
        0nat
    }
}

/// `num * scale / den` rounded, and 0 when the denominator is 0.
pub open spec fn scaled(num: nat, scale: nat, den: nat) -> nat {
    if den == 0 {
        0
    } else {
        rounded(num * scale, den)
    }
}

/// Executable `rounded`.
pub fn round_div(a: u128, b: u128) -> (r: u128)
    requires
        b > 0,
    ensures
        r == rounded(a as nat, b as nat),
{
    let q = a / b;
    let rem = a % b;
    if rem >= b - rem {
        proof {
            assert(b >= 2);
            assert(q <= a / 2) by {
                vstd::arithmetic::div_mod::lemma_div_is_ordered_by_denominator(a as int, 2, b as int);
            }
        }
        q + 1
    } else {
        q
    }
}

/// The "Summary:" part of the report, in hundredths where it shows two decimals.
#[derive(Clone, Copy, Debug, PartialEq, Eq, Structural)]
pub struct Summary {
    pub total_requests: u64,
    pub successful: u64,
    pub failed: u64,
    /// Present exactly when there was at least one request.
    pub rates: Option<SummaryRates>,
}

#[derive(Clone, Copy, Debug, PartialEq, Eq, Structural)]
pub struct SummaryRates {
    /// Success rate in hundredths of a percent.
    pub success_rate_centi: u128,
    /// Mean latency per request in hundredths of a millisecond.
    pub avg_latency_centi_ms: u128,
    /// Transferred volume in hundredths of a MiB.
    pub total_centi_mb: u128,
}

/// Whether every total fits the 64-bit fields of a report.
pub open spec fn reportable(t: Totals) -> bool {
    t.requests <= u64::MAX && t.successes <= u64::MAX && t.errors <= u64::MAX && t.bytes
        <= u64::MAX && t.latency_ns <= u64::MAX
}

/// The summary that the totals give.
pub open spec fn summary_spec(t: Totals) -> Summary {
    Summary {
        total_requests: t.requests as u64,
        successful: t.successes as u64,
        failed: t.errors as u64,
        rates: if t.requests == 0 {
            None
        } else {
            Some(
                SummaryRates {
                    success_rate_centi: scaled(t.successes as nat, 10000, t.requests as nat) as u128,
                    avg_latency_centi_ms: scaled(t.latency_ns as nat, 1, t.requests as nat * 10000)
                        as u128,
                    total_centi_mb: scaled(t.bytes as nat, 100, BYTES_PER_MB as nat) as u128,
                },
            )
        },
    }
}

/// A run that made no request reports no rates in its summary, and every
/// rate over zero requests or zero elapsed time is 0 rather than a fault.
pub proof fn lemma_empty_run_reports_zero(t: Totals, num: nat, scale: nat)
    requires
        t.requests == 0,
    ensures
        summary_spec(t).rates is None,
        summary_spec(t).total_requests == 0,
        scaled(num, scale, 0) == 0,
{
}

/// Two runs that both made requests report the same fields: each summary
/// carries its rates, whatever the numbers.
pub proof fn lemma_runs_report_same_fields(a: Totals, b: Totals)
    requires
        a.requests > 0,
        b.requests > 0,
    ensures
        summary_spec(a).rates is Some,
        summary_spec(b).rates is Some,
{
}

/// Builds the summary of a worker's totals; `None` when a total is too large
/// for the report.
pub fn summarize(t: &Totals) -> (r: Option<Summary>)
    ensures
        r is Some <==> reportable(*t),
        r is Some ==> r->0 == summary_spec(*t),
{
    if t.requests > u64::MAX as u128 || t.successes > u64::MAX as u128 || t.errors > u64::MAX
        as u128 || t.bytes > u64::MAX as u128 || t.latency_ns > u64::MAX as u128 {
        return None;
    }
    let rates = if t.requests == 0 {
        None
    } else {
        Some(
            SummaryRates {
                success_rate_centi: round_div(t.successes * 10000, t.requests),
                avg_latency_centi_ms: round_div(t.latency_ns, t.requests * 10000),
                total_centi_mb: round_div(t.bytes * 100, BYTES_PER_MB),
            },
        )
    };
    Some(
        Summary {
            total_requests: t.requests as u64,
            successful: t.successes as u64,
            failed: t.errors as u64,
            rates,
        },
    )
}

/// The "Statistics:", "Latency:" and closing lines of the report, from the
/// aggregator, in hundredths where they show two decimals. The histogram's
/// mean and 99th percentile are read from the histogram itself.
#[derive(Clone, Copy, Debug, PartialEq, Eq, Structural)]
pub struct StatsReport {
    pub requests: u64,
    pub successes: u64,
    pub errors: u64,
    pub requests_per_sec_centi: u128,
    pub transfer_centi_mb_per_sec: u128,
    pub min_latency_centi_ms: u128,
    pub max_latency_centi_ms: u128,
    pub success_pct_centi: u128,
    pub error_pct_centi: u128,
}

/// `lo` is the smallest sample and `hi` the top of the largest sample's bucket
/// (both 0 for no sample), so every sample lies between them.
pub open spec fn latency_bounds(s: Multiset<u64>, lo: u64, hi: u64) -> bool {
    (s.len() == 0 ==> lo == 0 && hi == 0) && (s.len() > 0 ==> is_lowest(s, lo) && is_top(s, hi))
        && forall|v: u64| #[trigger] s.contains(v) ==> lo <= v && v <= hi
}

/// A latency in microseconds as hundredths of a millisecond.
pub open spec fn centi_ms_of_us(us: u64) -> nat {
    rounded(us as nat, 10)
}

impl Statistics {
    /// The report after `elapsed_ns` of wall-clock time: every rate is 0 when
    /// its denominator (requests, or elapsed time) is 0.
    pub fn report(&self, elapsed_ns: u64) -> (r: StatsReport)
        ensures
            r.requests == self.requests(),
            r.successes == self.successes(),
            r.errors == self.errors(),
            r.requests_per_sec_centi == scaled(
                self.requests() as nat,
                100 * NANOS_PER_SEC as nat,
                elapsed_ns as nat,
            ),
            r.transfer_centi_mb_per_sec == scaled(
                self.bytes() as nat,
                100 * NANOS_PER_SEC as nat,
                elapsed_ns as nat * BYTES_PER_MB as nat,
            ),
            r.success_pct_centi == scaled(self.successes() as nat, 10000, self.requests() as nat),
            r.error_pct_centi == scaled(self.errors() as nat, 10000, self.requests() as nat),
            self.latencies().len() == 0 ==> r.min_latency_centi_ms == 0 && r.max_latency_centi_ms
                == 0,
            exists|lo: u64, hi: u64|
                latency_bounds(self.latencies(), lo, hi) && r.min_latency_centi_ms
                    == centi_ms_of_us(lo) && r.max_latency_centi_ms == centi_ms_of_us(hi),
    {
        let c = self.counters();
        let (min_us, max_us) = self.latency_range_us();
        let requests = c.requests as u128;
        let elapsed = elapsed_ns as u128;
        let (rps, mbps) = if elapsed_ns == 0 {
            (0u128, 0u128)
        } else {
            proof {
                assert(requests * (100 * NANOS_PER_SEC) <= u64::MAX * 100_000_000_000u128)
                    by (nonlinear_arith)
                    requires
                        requests <= u64::MAX,
                ;
                assert(c.bytes as u128 * (100 * NANOS_PER_SEC) <= u64::MAX * 100_000_000_000u128)
                    by (nonlinear_arith);
                assert(elapsed * BYTES_PER_MB <= u64::MAX * 1_048_576u128) by (nonlinear_arith)
                    requires
                        elapsed <= u64::MAX,
                ;
                assert(elapsed * BYTES_PER_MB > 0) by (nonlinear_arith)
                    requires
                        elapsed > 0,
                ;
            }
            (
                round_div(requests * (100 * NANOS_PER_SEC), elapsed),
                round_div(c.bytes as u128 * (100 * NANOS_PER_SEC), elapsed * BYTES_PER_MB),
            )
        };
        let (spct, epct) = if c.requests == 0 {
            (0u128, 0u128)
        } else {
            (
                round_div(c.success as u128 * 10000, requests),
                round_div(c.errors as u128 * 10000, requests),
            )
        };
        proof {
            assert(latency_bounds(self.latencies(), min_us, max_us));
        }
        StatsReport {
            requests: c.requests,
            successes: c.success,
            errors: c.errors,
            requests_per_sec_centi: rps,
            transfer_centi_mb_per_sec: mbps,
            min_latency_centi_ms: round_div(min_us as u128, 10),
            max_latency_centi_ms: round_div(max_us as u128, 10),
            success_pct_centi: spct,
            error_pct_centi: epct,
        }
    }
}

} // verus!
