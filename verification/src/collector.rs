//! The sample collector: one latency per received message, up to the
//! expected number.

use crate::codec::{decode_timestamp, timestamp_value, TIMESTAMP_LEN};
use crate::error::{ErrorKind, LatencyTestError};
use vstd::prelude::*;

verus! {

/// Where a collection stands after a message.
#[derive(Clone, Copy, Debug, PartialEq, Eq, Structural)]
pub enum Progress {
    /// Samples are still owed.
    Collecting,
    /// Every expected sample is there; the completion signal is due.
    Complete,
}

/// The sample store of one run: one latency per received message, in order
/// of arrival, until the expected number is reached.
pub struct Collector {
    expected: u64,
    samples: Vec<u64>,
}

impl Collector {
    /// The number of samples the run is to collect.
    pub closed spec fn expected_count(&self) -> u64 {
        self.expected
    }

    /// The latencies collected so far, in nanoseconds, in order of arrival.
    pub closed spec fn collected(&self) -> Seq<u64> {
        self.samples@
    }

    /// The store never holds more than the run expects.
    pub open spec fn wf(&self) -> bool {
        self.collected().len() <= self.expected_count()
    }

    /// The run is complete when exactly the expected number of samples is there.
    pub open spec fn complete(&self) -> bool {
        self.collected().len() == self.expected_count()
    }

    /// An empty store for a run of `expected` messages, with room set aside
    /// for them where the machine has it.
    pub fn new(expected: u64) -> (c: Collector)
        ensures
            c.wf(),
            c.expected_count() == expected,
            c.collected() == Seq::<u64>::empty(),
    {
        let mut samples: Vec<u64> = Vec::new();
        if expected <= usize::MAX as u64 {
            let _ = samples.try_reserve(expected as usize);
        }
        Collector { expected, samples }
    }

    /// The number of samples the run is to collect.
    pub fn expected(&self) -> (n: u64)
        ensures
            n == self.expected_count(),
    {
        self.expected
    }

    /// The number of samples collected so far.
    pub fn received(&self) -> (n: u64)
        requires
            self.wf(),
        ensures
            n == self.collected().len(),
    {
        self.samples.len() as u64
    }

    /// Whether every expected sample has been collected.
    pub fn is_complete(&self) -> (done: bool)
        requires
            self.wf(),
        ensures
            done == self.complete(),
    {
        self.samples.len() as u64 == self.expected
    }

    /// Takes one received message into the store.
    ///
    /// The latency of a message is the instant it was received less the
    /// instant stamped into its first eight bytes; an instant of receipt
    /// before the stamped one has no latency. A message that is too short to
    /// hold a stamp is malformed and ends the run. Once the store is
    /// complete, further messages are left out.
    pub fn record(&mut self, receive_ns: u64, payload: &[u8]) -> (r: Result<
        Progress,
        LatencyTestError,
    >)
        requires
            old(self).wf(),
            !old(self).complete() && payload@.len() >= TIMESTAMP_LEN ==> timestamp_value(payload@)
                <= receive_ns,
        ensures
            final(self).wf(),
            final(self).expected_count() == old(self).expected_count(),
            old(self).complete() ==> r == Ok::<Progress, LatencyTestError>(Progress::Complete)
                && final(self).collected() == old(self).collected(),
            !old(self).complete() && payload@.len() < TIMESTAMP_LEN ==> r is Err
                && final(self).collected() == old(self).collected(),
            !old(self).complete() && payload@.len() >= TIMESTAMP_LEN ==> r is Ok
                && final(self).collected() == old(self).collected().push(
                (receive_ns - timestamp_value(payload@)) as u64,
            ),
            r matches Ok(p) ==> (p == Progress::Complete <==> final(self).complete()),
            r matches Err(e) ==> e.kind == ErrorKind::MalformedMessage,
    {
        if self.samples.len() as u64 == self.expected {
            return Ok(Progress::Complete);
        }
        let send_ns = match decode_timestamp(payload) {
            Ok(t) => t,
            Err(e) => {
                return Err(e);
            },
        };
        self.samples.push(receive_ns - send_ns);
        if self.samples.len() as u64 == self.expected {
            Ok(Progress::Complete)
        } else {
            Ok(Progress::Collecting)
        }
    }

    /// The samples collected so far, in order of arrival.
    pub fn samples(&self) -> (s: &Vec<u64>)
        ensures
            s@ == self.collected(),
    {
        &self.samples
    }

    /// Hands over the samples of a completed run: exactly as many as were
    /// expected.
    pub fn into_samples(self) -> (s: Vec<u64>)
        requires
            self.wf(),
            self.complete(),
        ensures
            s@ == self.collected(),
            s@.len() == self.expected_count(),
    {
        self.samples
    }
}

/// The samples a store for `expected` messages holds after it was empty and
/// then took one well-formed message for each of the latencies `offered`, in
/// that order: all of them, or the first `expected` if there were more.
pub open spec fn kept(expected: u64, offered: Seq<u64>) -> Seq<u64> {
    if offered.len() <= expected {
        offered
    } else {
        offered.take(expected as int)
    }
}

/// A store never holds more samples than the run expects, and it holds
/// exactly that many as soon as that many messages have come in, however
/// many follow.
pub proof fn lemma_kept_count(expected: u64, offered: Seq<u64>)
    ensures
        kept(expected, offered).len() <= expected,
        kept(expected, offered).len() == expected <==> offered.len() >= expected,
        kept(expected, offered).is_prefix_of(offered),
{
}

/// One more message changes what is kept as `Collector::record` changes the
/// store: it is left out where the store is complete, and added at the end
/// where it is not.
pub proof fn lemma_kept_step(expected: u64, offered: Seq<u64>, latency: u64)
    ensures
        kept(expected, offered.push(latency)) == if kept(expected, offered).len() == expected {
            kept(expected, offered)
        } else {
            kept(expected, offered).push(latency)
        },
{
    if offered.len() >= expected {
        assert(offered.push(latency).take(expected as int) =~= offered.take(expected as int));
    }
}

} // verus!
