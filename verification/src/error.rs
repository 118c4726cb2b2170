//! The failures that end a run.

use vstd::prelude::*;
use vstd::string::*;

verus! {

/// The class of a failure. Every fatal condition of a run falls under one of these.
#[derive(Clone, Copy, Debug, PartialEq, Eq, Structural)]
pub enum ErrorKind {
    /// The run configuration is unusable: the test duration cannot be read, the
    /// target rate is zero, or the run would be longer than can be counted.
    Config,
    /// A transport primitive (connect, flush, publish, subscribe) failed.
    Transport,
    /// A received message is too short to carry a send timestamp.
    MalformedMessage,
    /// The observed maximum latency is too small to bound a histogram.
    HistogramBounds,
    /// A sample lies outside the bounds the histogram was built with.
    HistogramRange,
}

/// A fatal condition, with a diagnostic for the operator.
#[derive(Debug)]
pub struct LatencyTestError {
    pub kind: ErrorKind,
    pub details: String,
}

impl LatencyTestError {
    /// A transport failure described by `msg`.
    pub fn new(msg: String) -> (e: LatencyTestError)
        ensures
            e.kind == ErrorKind::Transport,
            e.details@ == msg@,
    {
        LatencyTestError { kind: ErrorKind::Transport, details: msg }
    }

    /// A failure of class `kind` described by `msg`.
    pub fn of_kind(kind: ErrorKind, msg: &str) -> (e: LatencyTestError)
        ensures
            e.kind == kind,
            e.details@ == msg@,
    {
        LatencyTestError { kind, details: String::from_str(msg) }
    }

    /// The diagnostic text.
    pub fn description(&self) -> (s: &str)
        ensures
            s@ == self.details@,
    {
        self.details.as_str()
    }

    /// The diagnostic text, as an owned string.
    pub fn to_text(&self) -> (s: String)
        ensures
            s@ == self.details@,
    {
        self.details.clone()
    }
}

} // verus!
