use pubsub_latency::config::{
    check_exponents, plan_for, plan_run, run_length, Plan, MAX_EXPONENT_DIGITS,
};
use pubsub_latency::error::ErrorKind;

fn endpoint() -> String {
    String::from("nats://localhost:4222")
}

#[test]
fn run_length_is_rate_times_duration() {
    assert_eq!(run_length(1000, 1_000_000_000), Some(1000));
    assert_eq!(run_length(1000, 5_000_000_000), Some(5000));
    assert_eq!(run_length(1, 1_000_000_000), Some(1));
    assert_eq!(run_length(0, 1_000_000_000), Some(0));
    assert_eq!(run_length(1000, 0), Some(0));
}

#[test]
fn run_length_is_cut_down_to_whole_messages() {
    assert_eq!(run_length(1000, 1_500_000_000), Some(1500));
    assert_eq!(run_length(1, 999_999_999), Some(0));
    assert_eq!(run_length(3, 500_000_000), Some(1));
    assert_eq!(run_length(7, 1_999_999_999), Some(13));
}

#[test]
fn run_length_beyond_64_bits_is_none() {
    let second: u128 = 1_000_000_000;
    assert_eq!(run_length(1, u64::MAX as u128 * second), Some(u64::MAX));
    assert_eq!(run_length(1, (u64::MAX as u128 + 1) * second), None);
    assert_eq!(run_length(2, u64::MAX as u128 * second), None);
    assert_eq!(run_length(u32::MAX, u128::MAX), None);
    assert_eq!(run_length(2, u128::MAX), None);
}

#[test]
fn plan_of_a_run() {
    match plan_run(endpoint(), String::from("nats://other:4222"), 64, 1000, "1s").unwrap() {
        Plan::Run(config) => {
            assert_eq!(config.publish_server, "nats://localhost:4222");
            assert_eq!(config.subscribe_server, "nats://other:4222");
            assert_eq!(config.msg_size, 64);
            assert_eq!(config.target_rate, 1000);
            assert_eq!(config.expected, 1000);
        }
        Plan::PayloadTooSmall => panic!("a payload of 64 bytes has room"),
    }
}

#[test]
fn plan_reads_durations_as_texts() {
    for (text, expected) in [
        ("5s", 5_000u64),
        ("1 minute", 60_000),
        ("1h", 3_600_000),
        ("2", 2_000),
        ("1500ms", 1_500),
        ("1.5s", 1_500),
        ("1 min 30 s", 90_000),
        ("0s", 0),
    ] {
        match plan_run(endpoint(), endpoint(), 8, 1000, text).unwrap() {
            Plan::Run(config) => assert_eq!(config.expected, expected, "for {}", text),
            Plan::PayloadTooSmall => panic!("a payload of 8 bytes has room"),
        }
    }
}

#[test]
fn plan_rejects_a_text_that_is_no_duration() {
    for text in ["", "soon", "5 parsecs", "s"] {
        let err = plan_run(endpoint(), endpoint(), 64, 1000, text).unwrap_err();
        assert_eq!(err.kind, ErrorKind::Config, "for {:?}", text);
        assert!(err.details.starts_with("Error converting test duration: "));
        assert!(err.details.len() > "Error converting test duration: ".len());
    }
}

#[test]
fn plan_rejects_a_negative_duration() {
    let err = plan_run(endpoint(), endpoint(), 64, 1000, "-5s").unwrap_err();
    assert_eq!(err.kind, ErrorKind::Config);
}

#[test]
fn plan_with_a_small_payload_runs_nothing() {
    for size in 0..8u32 {
        match plan_run(endpoint(), endpoint(), size, 1000, "5s").unwrap() {
            Plan::PayloadTooSmall => {}
            Plan::Run(_) => panic!("a payload of {} bytes has no room", size),
        }
    }
    assert!(matches!(plan_for(endpoint(), endpoint(), 8, 1000, 1).unwrap(), Plan::Run(_)));
}

#[test]
fn bad_duration_comes_before_small_payload() {
    let err = plan_run(endpoint(), endpoint(), 4, 1000, "whenever").unwrap_err();
    assert_eq!(err.kind, ErrorKind::Config);
}

#[test]
fn plan_rejects_a_rate_of_zero() {
    let err = plan_for(endpoint(), endpoint(), 64, 0, 1_000_000_000).unwrap_err();
    assert_eq!(err.kind, ErrorKind::Config);
    let err = plan_run(endpoint(), endpoint(), 4, 0, "1s").unwrap_err();
    assert_eq!(err.kind, ErrorKind::Config);
}

#[test]
fn plan_rejects_a_run_too_long_to_count() {
    let err = plan_for(endpoint(), endpoint(), 64, 2, u64::MAX as u128 * 1_000_000_000)
        .unwrap_err();
    assert_eq!(err.kind, ErrorKind::Config);
}

#[test]
fn plan_for_nanoseconds() {
    match plan_for(endpoint(), endpoint(), 8, 250, 4_000_000_000).unwrap() {
        Plan::Run(config) => assert_eq!(config.expected, 1000),
        Plan::PayloadTooSmall => panic!("a payload of 8 bytes has room"),
    }
}

#[test]
fn exponents_of_up_to_four_digits_are_read() {
    assert_eq!(MAX_EXPONENT_DIGITS, 4);
    for text in ["5s", "", "1e5s", "1e-3s", "1E+0002 s", "1e9999s", "seconds", "1 e 12345"] {
        assert!(check_exponents(text), "for {:?}", text);
    }
    match plan_run(endpoint(), endpoint(), 8, 1000, "1e2s").unwrap() {
        Plan::Run(config) => assert_eq!(config.expected, 100_000),
        Plan::PayloadTooSmall => panic!("a payload of 8 bytes has room"),
    }
    match plan_run(endpoint(), endpoint(), 8, 1000, "15e-1 s").unwrap() {
        Plan::Run(config) => assert_eq!(config.expected, 1_500),
        Plan::PayloadTooSmall => panic!("a payload of 8 bytes has room"),
    }
}

#[test]
fn longer_exponents_are_refused_unread() {
    for text in [
        "1e12345s",
        "1e-12345s",
        "1E+99999 s",
        "2 min 1e999999999999s",
        "1e00000s",
        "\u{3bc}s 1e123456789",
    ] {
        assert!(!check_exponents(text), "for {:?}", text);
        let err = plan_run(endpoint(), endpoint(), 64, 1000, text).unwrap_err();
        assert_eq!(err.kind, ErrorKind::Config);
        assert_eq!(err.details, "Error converting test duration: exponent is too long");
    }
}
