use pubsub_latency::codec::stamp_payload;
use pubsub_latency::collector::{Collector, Progress};
use pubsub_latency::config::{plan_run, Plan, RunConfig};
use pubsub_latency::driver::Publisher;
use pubsub_latency::error::ErrorKind;
use pubsub_latency::probe::probe_needed;
use pubsub_latency::format::bandwidth;
use pubsub_latency::report::analyze;
use pubsub_latency::stats::Median;

fn config(rate: u32, duration: &str, size: u32) -> RunConfig {
    let server = String::from("nats://localhost:4222");
    match plan_run(server.clone(), server, size, rate, duration).unwrap() {
        Plan::Run(config) => config,
        Plan::PayloadTooSmall => panic!("payload too small"),
    }
}

#[test]
fn publisher_starts_at_the_period_of_the_target() {
    let p = Publisher::new(&config(1000, "1s", 64), 5_000);
    assert_eq!(p.sent(), 0);
    assert_eq!(p.delay_ns(), 1_000_000);
    assert!(!p.is_finished());
}

#[test]
fn publisher_of_an_empty_run_is_finished() {
    let p = Publisher::new(&config(1000, "0s", 64), 0);
    assert!(p.is_finished());
}

#[test]
fn publisher_counts_and_paces() {
    let mut p = Publisher::new(&config(1000, "1s", 64), 1_000_000_000);
    // far ahead of the target after the first message: the delay grows by a twentieth
    assert_eq!(p.published(1_000_001_000), 1_050_000);
    assert_eq!(p.sent(), 1);
    // two messages in one second are behind a target of 1000
    assert_eq!(p.published(2_000_000_000), 997_500);
    assert_eq!(p.delay_ns(), 997_500);
    assert_eq!(p.sent(), 2);
}

#[test]
fn publisher_skips_the_correction_at_the_start_instant() {
    let mut p = Publisher::new(&config(1000, "1s", 64), 1_000_000_000);
    assert_eq!(p.published(1_000_000_000), 1_000_000);
    assert_eq!(p.sent(), 1);
}

#[test]
fn publisher_finishes_after_the_last_message() {
    let mut p = Publisher::new(&config(5, "1s", 64), 0);
    let mut now = 0u64;
    let mut rounds = 0;
    while !p.is_finished() {
        now += 200_000_000;
        p.published(now);
        rounds += 1;
    }
    assert_eq!(rounds, 5);
    assert_eq!(p.sent(), 5);
}

#[test]
fn analyze_reports_a_run() {
    let samples = vec![4_000u64, 1_000, 3_000, 2_000];
    let report = analyze(samples, 2_000_000_000).unwrap();
    assert_eq!(report.samples, vec![1_000, 2_000, 3_000, 4_000]);
    assert_eq!(report.summary.min, 1_000);
    assert_eq!(report.summary.median, Median { whole_ns: 2_500, half: false });
    assert_eq!(report.summary.max, 4_000);
    assert_eq!(report.msgs_per_sec, 2);
    assert_eq!(bandwidth(report.msgs_per_sec, 1024), "32Kbps");
    assert_eq!(report.histogram.inner.len(), 4);
    assert_eq!(report.histogram.inner.high(), 4_000);
}

#[test]
fn analyze_needs_a_latency_of_two_nanoseconds() {
    let err = analyze(vec![0, 1, 1, 0], 1_000_000_000).err().unwrap();
    assert_eq!(err.kind, ErrorKind::HistogramBounds);
    assert!(analyze(vec![0, 2, 1], 1_000_000_000).is_ok());
}

#[test]
fn end_to_end_run_of_one_second() {
    let config = config(1000, "1s", 64);
    assert_eq!(config.expected, 1000);
    assert!(!probe_needed(&config.publish_server, &config.subscribe_server));

    let start: u64 = 1_700_000_000_000_000_000;
    let mut publisher = Publisher::new(&config, start);
    let mut collector = Collector::new(config.expected);
    let mut payload = vec![0u8; config.msg_size as usize];
    let mut now = start;
    let mut last = Progress::Collecting;
    while !publisher.is_finished() {
        now += 20_000;
        stamp_payload(&mut payload, now);
        let in_flight = 150_000 + (publisher.sent() * 7919) % 50_000;
        last = collector.record(now + in_flight, &payload).unwrap();
        now += publisher.published(now);
    }
    assert_eq!(last, Progress::Complete);
    assert!(collector.is_complete());
    assert_eq!(collector.received(), 1000);

    let samples = collector.into_samples();
    assert_eq!(samples.len(), 1000);
    let report = analyze(samples, (now - start) as u128).unwrap();
    assert_eq!(report.samples.len(), 1000);
    assert!(report.summary.min <= report.summary.median.whole_ns);
    assert!(report.summary.median.whole_ns <= report.summary.max);
    assert!(report.histogram.inner.high() >= report.summary.max);
    assert!(report.summary.min >= 150_000 && report.summary.max < 200_000);
    assert!(report.msgs_per_sec >= 900 && report.msgs_per_sec <= 1100);

    let mut previous = 0u64;
    for p in [10.0, 50.0, 75.0, 90.0, 99.0, 99.9, 99.99, 99.999, 99.9999, 99.99999, 100.0] {
        let v = report.histogram.inner.value_at_percentile(p);
        assert!(v >= previous);
        assert!(v >= report.summary.min);
        assert!(report.histogram.inner.equivalent(v, report.summary.max) || v < report.summary.max);
        previous = v;
    }
}
