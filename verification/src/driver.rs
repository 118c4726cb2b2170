//! The publish loop's state: messages sent, and the pace between them.

use crate::config::RunConfig;
use crate::rate::{adjust, adjust_spec, initial_delay, initial_delay_spec};
use vstd::prelude::*;

verus! {

/// The publishing side of one run: how many messages are out, and the delay
/// the rate controller currently asks for between two of them.
pub struct Publisher {
    target_rate: u32,
    total: u64,
    sent: u64,
    delay_ns: u64,
    start_ns: u64,
}

impl Publisher {
    /// Target rate of the run, in messages per second.
    pub closed spec fn target(&self) -> u32 {
        self.target_rate
    }

    /// Number of messages the run publishes.
    pub closed spec fn total_count(&self) -> u64 {
        self.total
    }

    /// Number of messages published so far.
    pub closed spec fn sent_count(&self) -> u64 {
        self.sent
    }

    /// The current delay between two publications, in nanoseconds.
    pub closed spec fn delay(&self) -> u64 {
        self.delay_ns
    }

    /// The instant the publish phase began, in nanoseconds since the epoch.
    pub closed spec fn started_at(&self) -> u64 {
        self.start_ns
    }

    /// No more messages are out than the run has, and the rate is positive.
    pub open spec fn wf(&self) -> bool {
        self.sent_count() <= self.total_count() && self.target() > 0
    }

    /// Every message of the run is out.
    pub open spec fn finished(&self) -> bool {
        self.sent_count() == self.total_count()
    }

    /// The publisher of a run that starts publishing at `start_ns`. Nothing
    /// is out yet, and the delay is the one that by itself gives the target
    /// rate.
    pub fn new(config: &RunConfig, start_ns: u64) -> (p: Publisher)
        requires
            config.wf(),
        ensures
            p.wf(),
            p.target() == config.target_rate,
            p.total_count() == config.expected,
            p.sent_count() == 0,
            p.delay() == initial_delay_spec(config.target_rate),
            p.started_at() == start_ns,
    {
        Publisher {
            target_rate: config.target_rate,
            total: config.expected,
            sent: 0,
            delay_ns: initial_delay(config.target_rate),
            start_ns,
        }
    }

    /// Whether every message of the run is out.
    pub fn is_finished(&self) -> (done: bool)
        ensures
            done == self.finished(),
    {
        self.sent == self.total
    }

    /// Number of messages published so far.
    pub fn sent(&self) -> (n: u64)
        ensures
            n == self.sent_count(),
    {
        self.sent
    }

    /// The current delay between two publications, in nanoseconds.
    pub fn delay_ns(&self) -> (d: u64)
        ensures
            d == self.delay(),
    {
        self.delay_ns
    }

    /// Accounts for the message that was stamped at `now_ns` and has been
    /// published: counts it, corrects the delay by the rate seen since the
    /// start, and returns the pause to make before the next message, in
    /// nanoseconds. A pause of zero is none. No message is stamped before
    /// the publish phase began.
    pub fn published(&mut self, now_ns: u64) -> (pause_ns: u64)
        requires
            old(self).wf(),
            !old(self).finished(),
            now_ns >= old(self).started_at(),
        ensures
            final(self).wf(),
            final(self).target() == old(self).target(),
            final(self).total_count() == old(self).total_count(),
            final(self).started_at() == old(self).started_at(),
            final(self).sent_count() == old(self).sent_count() + 1,
            final(self).delay() == adjust_spec(
                old(self).delay(),
                (now_ns - old(self).started_at()) as u64,
                (old(self).sent_count() + 1) as u64,
                old(self).target(),
            ),
            pause_ns == final(self).delay(),
    {
        let elapsed = now_ns - self.start_ns;
        self.sent = self.sent + 1;
        self.delay_ns = adjust(self.delay_ns, elapsed, self.sent, self.target_rate);
        self.delay_ns
    }
}

} // verus!
