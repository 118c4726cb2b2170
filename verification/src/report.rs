//! The reduction of a completed run to its report.

use crate::error::{ErrorKind, LatencyTestError};
use crate::histogram::{
    build_histogram, highest_trackable, histogram_ceiling, holds, lowest_discernible,
    significant_digits, LatencyHistogram, LOWEST_DISCERNIBLE, SIGNIFICANT_DIGITS,
};
use crate::rate::{rps, rps_spec};
use crate::stats::{is_sorted, sort_samples, summarize, twice_median, Summary};
use vstd::prelude::*;

verus! {

/// What a completed run comes to.
pub struct Report {
    /// The latencies of the run in ascending order, in nanoseconds.
    pub samples: Vec<u64>,
    /// The histogram of the latencies, for percentile queries.
    pub histogram: LatencyHistogram,
    /// Smallest, middle and largest latency.
    pub summary: Summary,
    /// Achieved throughput in whole messages per second.
    pub msgs_per_sec: u32,
}

/// Whether a report says of the samples of a run and of the time its
/// publish phase took what it has to say.
pub open spec fn reports(report: Report, samples: Seq<u64>, publish_ns: u128) -> bool {
    &&& is_sorted(report.samples@)
    &&& report.samples@.to_multiset() == samples.to_multiset()
    &&& report.samples@.len() == samples.len()
    &&& holds(report.histogram, report.samples@)
    &&& highest_trackable(report.histogram) >= report.summary.max
    &&& lowest_discernible(report.histogram) == LOWEST_DISCERNIBLE
    &&& significant_digits(report.histogram) == SIGNIFICANT_DIGITS
    &&& report.summary.min == report.samples@.first()
    &&& report.summary.median.doubled() == twice_median(report.samples@)
    &&& report.summary.max == report.samples@.last()
    &&& 2 * report.summary.min <= report.summary.median.doubled() <= 2 * report.summary.max
    &&& report.msgs_per_sec == rps_spec(samples.len(), publish_ns as nat)
}

/// Reduces the samples of a completed run to its report: sorts them, builds
/// the histogram up to the largest of them, and works out the summary and
/// the throughput over the `publish_ns` nanoseconds of the publish phase.
///
/// A histogram that starts at 1 ns needs a largest latency of 2 ns or more;
/// a run without one has no report.
pub fn analyze(samples: Vec<u64>, publish_ns: u128) -> (r: Result<
    Report,
    LatencyTestError,
>)
    requires
        samples.len() > 0,
    ensures
        r is Ok <==> exists|i: int| 0 <= i < samples.len() && samples[i] >= 2,
        r matches Ok(report) ==> reports(report, samples@, publish_ns),
        r matches Err(e) ==> e.kind == ErrorKind::HistogramBounds,
{
    let mut sorted = samples;
    sort_samples(&mut sorted);
    let high = histogram_ceiling(&sorted);
    proof {
        samples@.to_multiset_ensures();
        sorted@.to_multiset_ensures();
        let last = sorted@.len() - 1;
        assert(sorted@.contains(sorted@[last]));
        assert(sorted@.to_multiset().count(high) > 0);
        assert(samples@.to_multiset().count(high) > 0);
        assert(samples@.contains(high));
        let k = choose|k: int| 0 <= k < samples@.len() && samples@[k] == high;
        assert(high >= 2 ==> samples[k] >= 2);
        if exists|i: int| 0 <= i < samples.len() && samples[i] >= 2 {
            let i = choose|i: int| 0 <= i < samples.len() && samples[i] >= 2;
            assert(samples@.contains(samples@[i]));
            assert(samples@.to_multiset().count(samples@[i]) > 0);
            assert(sorted@.to_multiset().count(samples@[i]) > 0);
            assert(sorted@.contains(samples@[i]));
            let j = choose|j: int| 0 <= j < sorted@.len() && sorted@[j] == samples@[i];
            assert(sorted@[j] <= sorted@[last]);
        }
        assert forall|k: int| 0 <= k < sorted.len() implies sorted[k] <= high by {
            assert(sorted@[k] <= sorted@[last]);
        }
    }
    let histogram = match build_histogram(&sorted, high) {
        Ok(h) => h,
        Err(e) => {
            return Err(e);
        },
    };
    let summary = summarize(&sorted);
    let msgs_per_sec = rps(sorted.len() as u64, publish_ns);
    Ok(Report { samples: sorted, histogram, summary, msgs_per_sec })
}

} // verus!
