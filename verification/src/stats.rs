//! Order statistics of the samples of a run.

use vstd::prelude::*;

verus! {

/// Latencies in ascending order.
pub open spec fn is_sorted(s: Seq<u64>) -> bool {
    forall|i: int, j: int| 0 <= i <= j < s.len() ==> s[i] <= s[j]
}

/// A median, in nanoseconds. The mean of two whole numbers of nanoseconds
/// may end in a half, which is carried beside the whole part.
#[derive(Clone, Copy, Debug, PartialEq, Eq, Structural)]
pub struct Median {
    /// Whole nanoseconds.
    pub whole_ns: u64,
    /// Whether half a nanosecond comes on top.
    pub half: bool,
}

impl Median {
    /// Twice the median, which is a whole number.
    pub open spec fn doubled(self) -> int {
        2 * self.whole_ns + if self.half {
            1int
        } else {
            0int
        }
    }
}

/// Twice the sample median: twice the middle element of an odd number of
/// samples, the sum of the two middle elements of an even number.
pub open spec fn twice_median(s: Seq<u64>) -> int
    recommends
        s.len() > 0,
{
    let half = s.len() as int / 2;
    if s.len() % 2 == 0 {
        s[half - 1] + s[half]
    } else {
        2 * s[half]
    }
}

/// Smallest, middle and largest latency of a run, in nanoseconds.
#[derive(Clone, Copy, Debug, PartialEq, Eq, Structural)]
pub struct Summary {
    pub min: u64,
    pub median: Median,
    pub max: u64,
}

/// `<[u64]>::sort` of std: afterwards the elements stand in ascending order,
/// and they are the elements that were there, each as often as before.
#[verifier::external_body]
fn std_sort(samples: &mut Vec<u64>)
    ensures
        is_sorted(final(samples)@),
        final(samples)@.to_multiset() == old(samples)@.to_multiset(),
{
    samples.sort();
}

/// Puts the samples of a finished run in ascending order. No sample is lost
/// and none is made up.
pub fn sort_samples(samples: &mut Vec<u64>)
    ensures
        is_sorted(final(samples)@),
        final(samples)@.to_multiset() == old(samples)@.to_multiset(),
        final(samples)@.len() == old(samples)@.len(),
{
    std_sort(samples);
    proof {
        old(samples)@.to_multiset_ensures();
        samples@.to_multiset_ensures();
    }
}

/// The median of samples in ascending order, with no rounding. Of no
/// samples there is none.
pub fn get_median(values: &Vec<u64>) -> (median: Median)
    requires
        values.len() > 0,
    ensures
        median.doubled() == twice_median(values@),
{
    let l = values.len();
    if l % 2 == 0 {
        let sum: u128 = values[l / 2 - 1] as u128 + values[l / 2] as u128;
        Median { whole_ns: (sum / 2) as u64, half: sum % 2 == 1 }
    } else {
        Median { whole_ns: values[l / 2], half: false }
    }
}

/// The median of samples in ascending order lies between the first and the
/// last of them.
pub proof fn lemma_median_between(s: Seq<u64>)
    requires
        s.len() > 0,
        is_sorted(s),
    ensures
        2 * s.first() <= twice_median(s) <= 2 * s.last(),
{
    let l = s.len() as int;
    if l % 2 == 0 {
        assert(s[0] <= s[l / 2 - 1]);
        assert(s[l / 2 - 1] <= s[l / 2]);
        assert(s[l / 2] <= s[l - 1]);
    } else {
        assert(s[0] <= s[l / 2]);
        assert(s[l / 2] <= s[l - 1]);
    }
}

/// Smallest, middle and largest of the samples of a run, which stand in
/// ascending order.
pub fn summarize(sorted: &Vec<u64>) -> (summary: Summary)
    requires
        sorted.len() > 0,
        is_sorted(sorted@),
    ensures
        summary.min == sorted@.first(),
        summary.median.doubled() == twice_median(sorted@),
        summary.max == sorted@.last(),
        2 * summary.min <= summary.median.doubled() <= 2 * summary.max,
{
    proof {
        lemma_median_between(sorted@);
    }
    Summary { min: sorted[0], median: get_median(sorted), max: sorted[sorted.len() - 1] }
}

} // verus!
