//! The latency histogram, kept by the `hdrhistogram` crate.

use crate::error::{ErrorKind, LatencyTestError};
use hdrhistogram::{CreationError, Histogram, RecordError};
use vstd::multiset::{lemma_multiset_empty_len, Multiset};
use vstd::prelude::*;
use vstd::seq_lib::{to_multiset_build, to_multiset_len};

verus! {

/// The lowest latency the histogram tells apart from zero, in nanoseconds.
pub const LOWEST_DISCERNIBLE: u64 = 1;

/// Significant decimal digits the histogram keeps of every latency.
pub const SIGNIFICANT_DIGITS: u8 = 3;

/// A histogram of the `hdrhistogram` crate with 64-bit counts: buckets of
/// bounded relative error, in memory that does not grow with the number of
/// samples. Nothing of its layout is known to the proofs; what they know of
/// it, they know from `recorded` and `highest_trackable`.
#[verifier::external_body]
pub struct LatencyHistogram {
    pub inner: Histogram<u64>,
}

/// `hdrhistogram::CreationError`: why a histogram could not be made.
#[verifier::external_type_specification]
#[verifier::external_body]
pub struct ExCreationError(CreationError);

/// `hdrhistogram::RecordError`: why a value could not be recorded.
#[verifier::external_type_specification]
#[verifier::external_body]
pub struct ExRecordError(RecordError);

/// What a histogram holds. It keeps no value as it came but a count for
/// each of its slots, so a value is held as the lowest value of its slot:
/// this is the multiset of those, each as often as its slot counts (counts
/// stop at the 64-bit limit).
pub uninterp spec fn recorded(h: LatencyHistogram) -> Multiset<u64>;

/// The highest value a histogram is able to track.
pub uninterp spec fn highest_trackable(h: LatencyHistogram) -> u64;

/// The lowest value a histogram tells apart from zero.
pub uninterp spec fn lowest_discernible(h: LatencyHistogram) -> u64;

/// The number of significant decimal digits a histogram keeps of a value.
pub uninterp spec fn significant_digits(h: LatencyHistogram) -> u8;

/// Ten to the power of `digits`.
pub open spec fn pow10(digits: nat) -> nat
    decreases digits,
{
    if digits == 0 {
        1
    } else {
        10 * pow10((digits - 1) as nat)
    }
}

/// How a histogram of the given lowest value and precision may hold a
/// value: never as more than it is. Where the lowest value is 1, a value
/// under twice ten to the digits is held as it is, and any other with an
/// error of less than one part in ten to the digits.
pub open spec fn stands_for(low: u64, digits: u8, value: u64, held: u64) -> bool {
    &&& held <= value
    &&& low == 1 && value < 2 * pow10(digits as nat) ==> held == value
    &&& low == 1 ==> (value - held) * pow10(digits as nat) <= value
}

/// `Histogram::<u64>::new_with_bounds`. The crate refuses a lowest value of
/// zero, a highest value under twice the lowest, and more than five
/// significant digits; with a lowest value of 1 it refuses nothing else. A
/// histogram that it returns is empty and has the bounds and the precision
/// that were asked for.
#[verifier::external_body]
fn new_with_bounds(low: u64, high: u64, sigfig: u8) -> (r: Result<
    LatencyHistogram,
    CreationError,
>)
    ensures
        r is Ok ==> low >= 1 && high >= 2 * low && sigfig <= 5,
        low == 1 && high >= 2 && sigfig <= 5 ==> r is Ok,
        r matches Ok(h) ==> recorded(h) == Multiset::<u64>::empty() && highest_trackable(h)
            == high && lowest_discernible(h) == low && significant_digits(h) == sigfig,
{
    match Histogram::<u64>::new_with_bounds(low, high, sigfig) {
        Ok(inner) => Ok(LatencyHistogram { inner }),
        Err(e) => Err(e),
    }
}

/// `Histogram::record`. A value up to the highest trackable one is always
/// taken. A value that is taken raises the count of its slot by one, so the
/// histogram holds one item more, which stands for the value; a value that
/// is refused leaves the histogram as it was. The lowest value and the
/// precision stay, and the highest trackable value never goes down.
#[verifier::external_body]
fn record(h: &mut LatencyHistogram, value: u64) -> (r: Result<(), RecordError>)
    ensures
        value <= highest_trackable(*old(h)) ==> r is Ok,
        r is Ok ==> exists|held: u64|
            stands_for(lowest_discernible(*old(h)), significant_digits(*old(h)), value, held)
                && recorded(*final(h)) == recorded(*old(h)).insert(held),
        r is Err ==> recorded(*final(h)) == recorded(*old(h)),
        highest_trackable(*final(h)) >= highest_trackable(*old(h)),
        lowest_discernible(*final(h)) == lowest_discernible(*old(h)),
        significant_digits(*final(h)) == significant_digits(*old(h)),
{
    h.inner.record(value)
}

/// The text `hdrhistogram` gives for a `CreationError` (its `Display`).
#[verifier::external_body]
fn creation_error_text(e: &CreationError) -> (text: String) {
    format!("{}", e)
}

/// The text `hdrhistogram` gives for a `RecordError` (its `Display`).
#[verifier::external_body]
fn record_error_text(e: &RecordError) -> (text: String) {
    format!("{}", e)
}

impl LatencyTestError {
    /// The failure to bound a histogram, with the histogram's own words for it.
    pub fn from_creation_error(e: CreationError) -> (err: LatencyTestError)
        ensures
            err.kind == ErrorKind::HistogramBounds,
    {
        LatencyTestError { kind: ErrorKind::HistogramBounds, details: creation_error_text(&e) }
    }

    /// The failure to record a sample, with the histogram's own words for it.
    pub fn from_record_error(e: RecordError) -> (err: LatencyTestError)
        ensures
            err.kind == ErrorKind::HistogramRange,
    {
        LatencyTestError { kind: ErrorKind::HistogramRange, details: record_error_text(&e) }
    }
}

/// The upper bound for a histogram of latencies in ascending order: the last
/// of them, which is the largest, or the full 64-bit range when there is none.
pub fn histogram_ceiling(sorted: &Vec<u64>) -> (high: u64)
    ensures
        high == if sorted.len() == 0 {
            u64::MAX
        } else {
            sorted@.last()
        },
{
    if sorted.len() == 0 {
        u64::MAX
    } else {
        sorted[sorted.len() - 1]
    }
}

/// A latency as a histogram of a run holds it: never as more than it is,
/// as it is under 2000 ns, and to three significant digits above.
pub open spec fn held_as(sample: u64, held: u64) -> bool {
    stands_for(LOWEST_DISCERNIBLE, SIGNIFICANT_DIGITS, sample, held)
}

/// A histogram holds the samples: one item for each, which stands for it,
/// and nothing else.
pub open spec fn holds(h: LatencyHistogram, samples: Seq<u64>) -> bool {
    exists|held: Seq<u64>|
        {
            &&& held.len() == samples.len()
            &&& forall|i: int| 0 <= i < samples.len() ==> held_as(samples[i], #[trigger] held[i])
            &&& recorded(h) == held.to_multiset()
        }
}

/// Builds the histogram of a run: three significant digits, from 1 ns to
/// `high`, with every sample recorded as its whole number of nanoseconds.
///
/// A `high` under 2 cannot bound a histogram. Samples up to `high` are always
/// recorded; whether a larger one still fits is for the histogram to say, and
/// where it refuses, the run fails.
pub fn build_histogram(samples: &Vec<u64>, high: u64) -> (r: Result<
    LatencyHistogram,
    LatencyTestError,
>)
    ensures
        high >= 2 && (forall|i: int| 0 <= i < samples.len() ==> samples[i] <= high) ==> r is Ok,
        high < 2 ==> r is Err,
        r matches Ok(h) ==> {
            &&& holds(h, samples@)
            &&& highest_trackable(h) >= high
            &&& lowest_discernible(h) == LOWEST_DISCERNIBLE
            &&& significant_digits(h) == SIGNIFICANT_DIGITS
        },
        r matches Err(e) ==> (e.kind == ErrorKind::HistogramBounds && high < 2) || (e.kind
            == ErrorKind::HistogramRange && high >= 2 && exists|i: int|
            0 <= i < samples.len() && samples[i] > high),
{
    let mut h = match new_with_bounds(LOWEST_DISCERNIBLE, high, SIGNIFICANT_DIGITS) {
        Ok(h) => h,
        Err(e) => {
            return Err(LatencyTestError::from_creation_error(e));
        },
    };
    let mut i: usize = 0;
    let ghost mut held: Seq<u64> = Seq::empty();
    proof {
        to_multiset_len(held);
        lemma_multiset_empty_len(held.to_multiset());
    }
    while i < samples.len()
        invariant
            i <= samples.len(),
            high >= 2,
            highest_trackable(h) >= high,
            lowest_discernible(h) == LOWEST_DISCERNIBLE,
            significant_digits(h) == SIGNIFICANT_DIGITS,
            held.len() == i,
            forall|j: int| 0 <= j < i ==> held_as(samples[j], #[trigger] held[j]),
            recorded(h) == held.to_multiset(),
        decreases samples.len() - i,
    {
        let value = samples[i];
        let ghost before = recorded(h);
        match record(&mut h, value) {
            Ok(()) => {},
            Err(e) => {
                return Err(LatencyTestError::from_record_error(e));
            },
        }
        proof {
            let item = choose|item: u64|
                stands_for(LOWEST_DISCERNIBLE, SIGNIFICANT_DIGITS, value, item) && recorded(h)
                    == before.insert(item);
            to_multiset_build(held, item);
            held = held.push(item);
        }
        i += 1;
    }
    Ok(h)
}

} // verus!
