//! The route-readiness probe: its decisions, step by step.

use vstd::prelude::*;

verus! {

/// Pause between two probe messages, in milliseconds.
pub const PROBE_INTERVAL_MS: u64 = 10;

/// How long the probe waits for a probe message to come through, in
/// nanoseconds (two seconds).
pub const PROBE_TIMEOUT_NS: u64 = 2_000_000_000;

/// How the probe ended.
#[derive(Clone, Copy, Debug, PartialEq, Eq, Structural)]
pub enum ProbeOutcome {
    /// A probe message reached the subscribing side.
    Routed,
    /// None came through in time. The run goes on all the same, with a warning.
    TimedOut,
}

/// What the probe does next.
#[derive(Clone, Copy, Debug, PartialEq, Eq, Structural)]
pub enum ProbeStep {
    /// Publish one empty probe message, pause for the probe interval, look again.
    Publish,
    /// Stop probing.
    Finish(ProbeOutcome),
}

/// The step that follows from what the probe sees: the number of probe
/// messages that have arrived and the time since probing began.
pub open spec fn probe_step_spec(arrived: i32, elapsed_ns: u64) -> ProbeStep {
    if arrived != 0 {
        ProbeStep::Finish(ProbeOutcome::Routed)
    } else if elapsed_ns > PROBE_TIMEOUT_NS {
        ProbeStep::Finish(ProbeOutcome::TimedOut)
    } else {
        ProbeStep::Publish
    }
}

/// Whether routes have to be probed before the run: only where publisher and
/// subscriber talk to different endpoints can interest in a subject reach the
/// publisher's side late.
pub fn probe_needed(publish_server: &String, subscribe_server: &String) -> (needed: bool)
    ensures
        needed == (publish_server@ != subscribe_server@),
{
    !(*publish_server == *subscribe_server)
}

/// Decides the next step of the probe. The probe ends as soon as one probe
/// message has arrived, and gives up once more than the timeout has passed.
pub fn next_probe_step(arrived: i32, elapsed_ns: u64) -> (step: ProbeStep)
    ensures
        step == probe_step_spec(arrived, elapsed_ns),
{
    if arrived != 0 {
        ProbeStep::Finish(ProbeOutcome::Routed)
    } else if elapsed_ns > PROBE_TIMEOUT_NS {
        ProbeStep::Finish(ProbeOutcome::TimedOut)
    } else {
        ProbeStep::Publish
    }
}

/// A probe that keeps its interval ends: whatever arrives or not, the step
/// after the timeout has passed is to stop.
pub proof fn lemma_probe_ends(arrived: i32, elapsed_ns: u64)
    requires
        elapsed_ns > PROBE_TIMEOUT_NS,
    ensures
        probe_step_spec(arrived, elapsed_ns) is Finish,
{
}

} // verus!
