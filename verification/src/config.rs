//! The configuration of a run, from what the operator asks for.

use crate::codec::TIMESTAMP_LEN;
use crate::error::{ErrorKind, LatencyTestError};
use crate::rate::NANOS_PER_SEC;
use parse_duration::parse::Error;
use vstd::prelude::*;
use vstd::string::*;

verus! {

/// What one run is to do. Made once, before any connection, and not changed.
#[derive(Debug)]
pub struct RunConfig {
    /// Endpoint the publisher connects to.
    pub publish_server: String,
    /// Endpoint the subscriber connects to; may be the same.
    pub subscribe_server: String,
    /// Payload size in bytes; the first eight carry the send timestamp.
    pub msg_size: u32,
    /// Target publish rate in messages per second.
    pub target_rate: u32,
    /// Number of messages the run publishes and collects.
    pub expected: u64,
}

impl RunConfig {
    /// A payload has room for its timestamp, and the rate is positive.
    pub open spec fn wf(&self) -> bool {
        self.msg_size >= TIMESTAMP_LEN && self.target_rate > 0
    }
}

/// What becomes of a request for a run.
#[derive(Debug)]
pub enum Plan {
    /// The run can start.
    Run(RunConfig),
    /// The payload has no room for a timestamp. Nothing is run, and that is
    /// no failure.
    PayloadTooSmall,
}

/// The number of messages of a run: the target rate times the test
/// duration, cut down to a whole number of messages.
pub open spec fn run_length_spec(target_rate: u32, duration_ns: nat) -> nat {
    target_rate as nat * duration_ns / NANOS_PER_SEC as nat
}

/// The most digits an exponent in a test duration may have. The duration
/// parser raises ten to the power it is given, whatever its size, so longer
/// exponents are refused before they reach it.
pub const MAX_EXPONENT_DIGITS: usize = 4;

/// A decimal digit of ASCII.
pub open spec fn is_digit(c: char) -> bool {
    '0' <= c <= '9'
}

/// Where the digits of an exponent begin whose `e` stands at `i`: behind
/// the `e` and a sign, if there is one.
pub open spec fn exponent_start(text: Seq<char>, i: int) -> int {
    if i + 1 < text.len() && (text[i + 1] == '+' || text[i + 1] == '-') {
        i + 2
    } else {
        i + 1
    }
}

/// More than `MAX_EXPONENT_DIGITS` digits stand in a row from `from` on.
pub open spec fn long_digit_run(text: Seq<char>, from: int) -> bool {
    &&& 0 <= from
    &&& from + MAX_EXPONENT_DIGITS < text.len()
    &&& forall|k: int| 0 <= k <= MAX_EXPONENT_DIGITS ==> is_digit(#[trigger] text[from + k])
}

/// No `e` or `E` in the text is followed by an exponent of more than
/// `MAX_EXPONENT_DIGITS` digits.
pub open spec fn exponents_bounded(text: Seq<char>) -> bool {
    forall|i: int|
        0 <= i < text.len() && (#[trigger] text[i] == 'e' || text[i] == 'E') ==> !long_digit_run(
            text,
            exponent_start(text, i),
        )
}

/// `parse_duration::parse::Error`: why a text is no duration.
#[verifier::external_type_specification]
#[verifier::external_body]
pub struct ExParseError(Error);

/// The duration that `parse_duration` reads in a text, in nanoseconds, where
/// it reads one.
pub uninterp spec fn parsed_nanos(text: Seq<char>) -> Option<u128>;

/// `parse_duration::parse`, with the duration it returns taken in
/// nanoseconds (`Duration::as_nanos`). What it reads depends on the text
/// alone. Texts with long exponents, on which it may not come back in any
/// reasonable time, are not handed to it.
#[verifier::external_body]
fn parse_nanos(text: &str) -> (r: Result<u128, Error>)
    requires
        exponents_bounded(text@),
    ensures
        r is Ok <==> parsed_nanos(text@) is Some,
        r matches Ok(ns) ==> parsed_nanos(text@) == Some(ns),
{
    match parse_duration::parse(text) {
        Ok(d) => Ok(d.as_nanos()),
        Err(e) => Err(e),
    }
}

/// The text `parse_duration` gives for one of its errors (its `Display`).
#[verifier::external_body]
fn parse_error_text(e: &Error) -> (text: String) {
    format!("{}", e)
}

fn digit_at(text: &str, len: usize, at: usize) -> (r: bool)
    requires
        len == text@.len(),
    ensures
        r == (at < len && is_digit(text@[at as int])),
{
    if at < len {
        let c = text.get_char(at);
        '0' <= c && c <= '9'
    } else {
        false
    }
}

/// Whether every exponent in a test duration is short enough to be read.
pub fn check_exponents(text: &str) -> (ok: bool)
    ensures
        ok == exponents_bounded(text@),
{
    let len = text.unicode_len();
    let mut i: usize = 0;
    while i < len
        invariant
            len == text@.len(),
            i <= len,
            forall|j: int|
                0 <= j < i && (#[trigger] text@[j] == 'e' || text@[j] == 'E') ==> !long_digit_run(
                    text@,
                    exponent_start(text@, j),
                ),
        decreases len - i,
    {
        let c = text.get_char(i);
        if c == 'e' || c == 'E' {
            let mut start = i + 1;
            if start < len {
                let sign = text.get_char(start);
                if sign == '+' || sign == '-' {
                    start = start + 1;
                }
            }
            assert(start == exponent_start(text@, i as int));
            if len - start > MAX_EXPONENT_DIGITS {
                let long = digit_at(text, len, start) && digit_at(text, len, start + 1)
                    && digit_at(text, len, start + 2) && digit_at(text, len, start + 3)
                    && digit_at(text, len, start + 4);
                if long {
                    assert forall|k: int| 0 <= k <= MAX_EXPONENT_DIGITS implies is_digit(
                        #[trigger] text@[start + k],
                    ) by {
                        assert(k == 0 || k == 1 || k == 2 || k == 3 || k == 4);
                    }
                    assert(long_digit_run(text@, exponent_start(text@, i as int)));
                    return false;
                }
                assert(!long_digit_run(text@, start as int)) by {
                    if long_digit_run(text@, start as int) {
                        assert(is_digit(text@[start + 0]));
                        assert(is_digit(text@[start + 1]));
                        assert(is_digit(text@[start + 2]));
                        assert(is_digit(text@[start + 3]));
                        assert(is_digit(text@[start + 4]));
                    }
                }
            }
        }
        i += 1;
    }
    true
}

fn config_error(msg: &str) -> (e: LatencyTestError)
    ensures
        e.kind == ErrorKind::Config,
        e.details@ == msg@,
{
    LatencyTestError::of_kind(ErrorKind::Config, msg)
}

/// The number of messages of a run, where 64 bits can count them.
pub fn run_length(target_rate: u32, duration_ns: u128) -> (n: Option<u64>)
    ensures
        n == if run_length_spec(target_rate, duration_ns as nat) <= u64::MAX {
            Some(run_length_spec(target_rate, duration_ns as nat) as u64)
        } else {
            None
        },
{
    match (target_rate as u128).checked_mul(duration_ns) {
        Some(product) => {
            let n = product / (NANOS_PER_SEC as u128);
            if n <= u64::MAX as u128 {
                Some(n as u64)
            } else {
                None
            }
        },
        None => {
            assert(target_rate as nat * duration_ns as nat / NANOS_PER_SEC as nat > u64::MAX)
                by (nonlinear_arith)
                requires
                    target_rate as nat * duration_ns as nat > u128::MAX,
                    NANOS_PER_SEC == 1_000_000_000,
            ;
            None
        },
    }
}

/// What a request for a run comes to, for a test duration of `duration_ns`
/// nanoseconds. A rate of zero and a run too long to count are refused. A
/// payload under eight bytes is no failure, but nothing is run. Otherwise the
/// run is configured as asked, with its length worked out.
pub open spec fn plan_outcome(
    r: Result<Plan, LatencyTestError>,
    publish_server: Seq<char>,
    subscribe_server: Seq<char>,
    msg_size: u32,
    target_rate: u32,
    duration_ns: nat,
) -> bool {
    if target_rate == 0 || run_length_spec(target_rate, duration_ns) > u64::MAX {
        r matches Err(e) && e.kind == ErrorKind::Config
    } else if msg_size < TIMESTAMP_LEN {
        r matches Ok(Plan::PayloadTooSmall)
    } else {
        &&& r matches Ok(Plan::Run(config))
        &&& config.wf()
        &&& config.publish_server@ == publish_server
        &&& config.subscribe_server@ == subscribe_server
        &&& config.msg_size == msg_size
        &&& config.target_rate == target_rate
        &&& config.expected == run_length_spec(target_rate, duration_ns)
    }
}

/// Plans a run whose test duration is already known in nanoseconds.
pub fn plan_for(
    publish_server: String,
    subscribe_server: String,
    msg_size: u32,
    target_rate: u32,
    duration_ns: u128,
) -> (r: Result<Plan, LatencyTestError>)
    ensures
        plan_outcome(
            r,
            publish_server@,
            subscribe_server@,
            msg_size,
            target_rate,
            duration_ns as nat,
        ),
{
    if target_rate == 0 {
        return Err(config_error("Target rate must be at least one message per second"));
    }
    let expected = match run_length(target_rate, duration_ns) {
        Some(n) => n,
        None => {
            return Err(config_error("Test duration is too long for the target rate"));
        },
    };
    if msg_size < TIMESTAMP_LEN as u32 {
        return Ok(Plan::PayloadTooSmall);
    }
    Ok(Plan::Run(RunConfig { publish_server, subscribe_server, msg_size, target_rate, expected }))
}

/// Plans a run from what the operator asked for, the test duration given as
/// a text such as `5s`. A text with an exponent of more than
/// `MAX_EXPONENT_DIGITS` digits, and a text that is no duration, are
/// configuration errors; for any other, the plan is that of `plan_for` on
/// its nanoseconds.
pub fn plan_run(
    publish_server: String,
    subscribe_server: String,
    msg_size: u32,
    target_rate: u32,
    test_duration: &str,
) -> (r: Result<Plan, LatencyTestError>)
    ensures
        !exponents_bounded(test_duration@) ==> (r matches Err(e) && e.kind == ErrorKind::Config),
        exponents_bounded(test_duration@) ==> match parsed_nanos(test_duration@) {
            Some(ns) => plan_outcome(
                r,
                publish_server@,
                subscribe_server@,
                msg_size,
                target_rate,
                ns as nat,
            ),
            None => r matches Err(e) && e.kind == ErrorKind::Config,
        },
{
    if !check_exponents(test_duration) {
        return Err(config_error("Error converting test duration: exponent is too long"));
    }
    match parse_nanos(test_duration) {
        Ok(ns) => plan_for(publish_server, subscribe_server, msg_size, target_rate, ns),
        Err(e) => {
            let mut details = String::from_str("Error converting test duration: ");
            let reason = parse_error_text(&e);
            details.append(reason.as_str());
            Err(LatencyTestError { kind: ErrorKind::Config, details })
        },
    }
}

} // verus!
