use loadgen::driver::{Action, Driver};
use loadgen::outcome::{classify_response, Outcome};
use loadgen::report::{round_div, summarize, SummaryRates};
use loadgen::stats::Statistics;
use loadgen::tally::Tally;
use loadgen::worker::{connections_per_worker, Totals, Worker};

fn tally_of(outcomes: &[Outcome]) -> Tally {
    let mut t = Tally::new();
    for o in outcomes {
        assert!(t.has_room_for(o));
        t.record(*o);
    }
    t
}

#[test]
fn classify_status_boundaries() {
    assert_eq!(classify_response(200, 2, 7), Outcome::Success { bytes: 2, latency_ns: 7 });
    assert_eq!(classify_response(299, 0, 7), Outcome::Success { bytes: 0, latency_ns: 7 });
    assert_eq!(classify_response(300, 9, 7), Outcome::HttpError { latency_ns: 7 });
    assert_eq!(classify_response(199, 9, 7), Outcome::HttpError { latency_ns: 7 });
    assert_eq!(classify_response(500, 9, 7), Outcome::HttpError { latency_ns: 7 });
}

#[test]
fn tally_counts_latency_of_every_outcome() {
    let t = tally_of(&[
        Outcome::Success { bytes: 5, latency_ns: 10 },
        Outcome::HttpError { latency_ns: 20 },
        Outcome::TransportError { latency_ns: 30 },
        Outcome::Timeout { latency_ns: 40 },
    ]);
    assert_eq!(t.requests, 4);
    assert_eq!(t.successes, 1);
    assert_eq!(t.errors, 3);
    assert_eq!(t.bytes, 5);
    assert_eq!(t.total_latency_ns, 100);
    assert_eq!(t.requests, t.successes + t.errors);
}

#[test]
fn tally_refuses_overflowing_bytes() {
    let t = tally_of(&[Outcome::Success { bytes: u64::MAX, latency_ns: 1 }]);
    assert!(!t.has_room_for(&Outcome::Success { bytes: 1, latency_ns: 1 }));
    assert!(t.has_room_for(&Outcome::HttpError { latency_ns: 1 }));
}

#[test]
fn happy_path_bytes_are_two_per_success() {
    let mut results = Vec::new();
    for _ in 0..4 {
        let o: Vec<Outcome> = (0..25).map(|_| classify_response(200, 2, 1_000_000)).collect();
        results.push(Some(tally_of(&o)));
    }
    let mut w = Worker::new(4);
    let t = w.collect(&results);
    assert_eq!(t.requests, 100);
    assert_eq!(t.successes, t.requests);
    assert_eq!(t.errors, 0);
    assert_eq!(t.bytes, 2 * t.successes);
    let s = summarize(&t).unwrap();
    assert_eq!(s.rates.unwrap().success_rate_centi, 10000);
    let c = w.stats().counters();
    assert_eq!((c.requests, c.success, c.errors, c.bytes), (4, 4, 0, 8));
}

#[test]
fn all_server_errors_move_no_bytes() {
    let o: Vec<Outcome> = (0..10).map(|_| classify_response(500, 37, 1_000)).collect();
    let mut w = Worker::new(1);
    let t = w.collect(&vec![Some(tally_of(&o))]);
    assert_eq!(t.successes, 0);
    assert_eq!(t.errors, t.requests);
    assert_eq!(t.bytes, 0);
    assert_eq!(summarize(&t).unwrap().rates.unwrap().success_rate_centi, 0);
    assert_eq!(w.stats().counters().bytes, 0);
}

#[test]
fn every_attempt_timing_out() {
    let o: Vec<Outcome> = (0..3).map(|_| Outcome::Timeout { latency_ns: 1_000_000_000 }).collect();
    let t = tally_of(&o);
    assert!(t.requests > 0);
    assert_eq!(t.successes, 0);
    assert_eq!(t.errors, t.requests);
    assert_eq!(t.bytes, 0);
}

#[test]
fn alternating_statuses_balance() {
    let o: Vec<Outcome> =
        (0..101u16).map(|i| classify_response(if i % 2 == 0 { 200 } else { 500 }, 2, 5)).collect();
    let t = tally_of(&o);
    assert!(t.successes.abs_diff(t.errors) <= 1);
    assert_eq!(t.requests, 101);
}

#[test]
fn no_completed_requests_report_cleanly() {
    let mut w = Worker::new(2);
    let t = w.collect(&vec![Some(Tally::new()), None]);
    assert_eq!(t, Totals { requests: 0, successes: 0, errors: 0, bytes: 0, latency_ns: 0 });
    let s = summarize(&t).unwrap();
    assert_eq!(s.total_requests, 0);
    assert!(s.rates.is_none());
    let r = w.stats().report(0);
    assert_eq!(r.requests_per_sec_centi, 0);
    assert_eq!(r.transfer_centi_mb_per_sec, 0);
    assert_eq!(r.success_pct_centi, 0);
    assert_eq!(r.error_pct_centi, 0);
    assert_eq!((r.min_latency_centi_ms, r.max_latency_centi_ms), (0, 0));
}

#[test]
fn transport_failures_are_errors() {
    let o: Vec<Outcome> = (0..4).map(|_| Outcome::TransportError { latency_ns: 100 }).collect();
    let mut w = Worker::new(1);
    let t = w.collect(&vec![Some(tally_of(&o))]);
    assert_eq!(t.errors, 4);
    let r = w.stats().report(1_000_000_000);
    assert_eq!(r.errors, 1);
    assert_eq!(r.error_pct_centi, 10000);
}

#[test]
fn synthetic_record_uses_driver_averages() {
    let a = tally_of(&[
        Outcome::Success { bytes: 10, latency_ns: 2_000_000 },
        Outcome::HttpError { latency_ns: 4_000_000 },
        Outcome::Success { bytes: 5, latency_ns: 3_000_000 },
    ]);
    let b = tally_of(&[Outcome::Timeout { latency_ns: 1_000_000_000 }]);
    let mut w = Worker::new(3);
    let t = w.collect(&vec![Some(a), None, Some(b)]);
    assert_eq!(t.requests, 4);
    assert_eq!(t.successes, 2);
    assert_eq!(t.errors, 2);
    assert_eq!(t.bytes, 15);
    assert_eq!(t.latency_ns, 1_009_000_000);
    let c = w.stats().counters();
    assert_eq!((c.requests, c.success, c.errors, c.bytes), (2, 1, 1, 5));
    // one success record of 3 ms average latency: 3000 us in the histogram
    let r = w.stats().report(2_000_000_000);
    assert_eq!(r.min_latency_centi_ms, 300);
    assert_eq!(r.max_latency_centi_ms, 300);
    assert_eq!(r.requests_per_sec_centi, 100);
    assert_eq!(r.success_pct_centi, 5000);
    let s = summarize(&t).unwrap();
    assert_eq!(
        s.rates,
        Some(SummaryRates { success_rate_centi: 5000, avg_latency_centi_ms: 25225, total_centi_mb: 0 })
    );
}

#[test]
fn statistics_record_request() {
    let mut s = Statistics::new();
    s.record_request(true, 1_048_576, 1_500_000);
    s.record_request(false, 99, 7_000_000);
    let c = s.counters();
    assert_eq!((c.requests, c.success, c.errors, c.bytes), (2, 1, 1, 1_048_576));
    assert_eq!(s.histogram().inner.len(), 1);
    assert_eq!(s.latency_range_us(), (1500, 1500));
    let r = s.report(1_000_000_000);
    assert_eq!(r.transfer_centi_mb_per_sec, 100);
    assert_eq!(r.requests_per_sec_centi, 200);
    assert_eq!(r.min_latency_centi_ms, 150);
}

#[test]
fn rounding_is_half_up() {
    assert_eq!(round_div(5, 2), 3);
    assert_eq!(round_div(7, 3), 2);
    assert_eq!(round_div(20000, 3), 6667);
    assert_eq!(round_div(10000, 3), 3333);
    assert_eq!(round_div(0, 9), 0);
    assert_eq!(round_div(u128::MAX, 1), u128::MAX);
}

#[test]
fn summary_formulas() {
    let t = Totals { requests: 3, successes: 2, errors: 1, bytes: 3 * 1_048_576, latency_ns: 30_000_000 };
    let s = summarize(&t).unwrap();
    assert_eq!((s.total_requests, s.successful, s.failed), (3, 2, 1));
    assert_eq!(
        s.rates,
        Some(SummaryRates { success_rate_centi: 6667, avg_latency_centi_ms: 1000, total_centi_mb: 300 })
    );
    let big = Totals { requests: u64::MAX as u128 + 1, successes: 0, errors: 0, bytes: 0, latency_ns: 0 };
    assert!(summarize(&big).is_none());
}

#[test]
fn two_runs_report_the_same_fields() {
    let mut w1 = Worker::new(1);
    let mut w2 = Worker::new(1);
    let t1 = w1.collect(&vec![Some(tally_of(&[classify_response(200, 2, 1)]))]);
    let t2 = w2.collect(&vec![Some(tally_of(&[classify_response(200, 2, 9), classify_response(200, 2, 9)]))]);
    let s1 = summarize(&t1).unwrap();
    let s2 = summarize(&t2).unwrap();
    assert_eq!(s1.rates.is_some(), s2.rates.is_some());
    assert_eq!(s1.rates.unwrap().success_rate_centi, s2.rates.unwrap().success_rate_centi);
}

#[test]
fn driver_admits_until_deadline() {
    let mut d = Driver::new(100);
    assert_eq!(d.poll(10), Action::Send);
    assert!(d.complete(Outcome::Success { bytes: 2, latency_ns: 50 }));
    assert_eq!(d.poll(99), Action::Send);
    assert!(d.complete(Outcome::Timeout { latency_ns: 5 }));
    assert_eq!(d.poll(100), Action::Finish);
    assert_eq!(d.poll(0), Action::Finish);
    let t = d.into_tally();
    assert_eq!((t.requests, t.successes, t.errors, t.bytes, t.total_latency_ns), (2, 1, 1, 2, 55));
}

#[test]
fn driver_with_past_deadline_sends_nothing() {
    let mut d = Driver::new(0);
    assert_eq!(d.poll(0), Action::Finish);
    assert_eq!(d.into_tally().requests, 0);
}

#[test]
fn driver_stops_when_counters_are_full() {
    let mut d = Driver::new(u64::MAX);
    assert_eq!(d.poll(0), Action::Send);
    assert!(d.complete(Outcome::Success { bytes: u64::MAX, latency_ns: 1 }));
    assert_eq!(d.poll(1), Action::Send);
    assert!(!d.complete(Outcome::Success { bytes: 1, latency_ns: 1 }));
    assert_eq!(d.poll(2), Action::Finish);
    assert_eq!(d.into_tally().requests, 1);
}

#[test]
fn connections_split_over_workers() {
    assert_eq!(connections_per_worker(100, 8), Some(12));
    assert_eq!(connections_per_worker(4, 1), Some(4));
    assert_eq!(connections_per_worker(3, 4), Some(0));
    assert_eq!(connections_per_worker(10, 0), None);
}

#[test]
fn histogram_keeps_bucket_bottoms() {
    let mut s = Statistics::new();
    s.record_request(true, 0, 2_049_000);
    s.record_request(true, 0, 1_000_000);
    s.record_request(false, 0, 1);
    assert_eq!(s.histogram().inner.len(), 2);
    assert_eq!(s.latency_range_us(), (1000, 2049));
    let mut t = Statistics::new();
    t.record_request(true, 0, 2_048_000);
    assert_eq!(t.latency_range_us(), (2048, 2049));
    let r = s.report(1_000_000_000);
    assert_eq!((r.min_latency_centi_ms, r.max_latency_centi_ms), (100, 205));
}
