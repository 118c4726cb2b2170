//! The rate controller: a proportional correction of the delay between two
//! publications, and the throughput it is steered by.

use vstd::prelude::*;

verus! {

/// Nanoseconds in one second.
pub const NANOS_PER_SEC: u64 = 1_000_000_000;

/// A twentieth of the current delay is one correction step (5%).
pub const STEP_DIVISOR: u64 = 20;

/// Whole messages per second when `count` messages took `elapsed_ns`
/// nanoseconds: the quotient truncated toward zero and held to the 32-bit
/// range. Over no time at all the rate of no messages is 0 and that of any
/// message is the largest rate there is.
pub open spec fn rps_spec(count: nat, elapsed_ns: nat) -> nat {
    if elapsed_ns == 0 {
        if count == 0 {
            0
        } else {
            u32::MAX as nat
        }
    } else if count * NANOS_PER_SEC as nat / elapsed_ns > u32::MAX {
        u32::MAX as nat
    } else {
        count * NANOS_PER_SEC as nat / elapsed_ns
    }
}

/// The delay between two publications that by itself gives `target_rate`
/// messages per second, in nanoseconds.
pub open spec fn initial_delay_spec(target_rate: u32) -> nat
    recommends
        target_rate > 0,
{
    NANOS_PER_SEC as nat / target_rate as nat
}

/// One correction step for a delay: a twentieth of it, in whole nanoseconds,
/// and never less than one nanosecond while there is a delay at all.
pub open spec fn step_spec(delay_ns: u64) -> u64 {
    if delay_ns == 0 {
        0
    } else if delay_ns < STEP_DIVISOR {
        1
    } else {
        delay_ns / STEP_DIVISOR
    }
}

/// The publisher is behind the target: `count` messages in `elapsed_ns`
/// nanoseconds are fewer per second than `target_rate`. The two rates are
/// compared as they are, with no rounding.
pub open spec fn is_behind(elapsed_ns: u64, count: u64, target_rate: u32) -> bool {
    count * NANOS_PER_SEC < target_rate * elapsed_ns
}

/// The publisher is ahead of the target: `count` messages in `elapsed_ns`
/// nanoseconds are more per second than `target_rate`.
pub open spec fn is_ahead(elapsed_ns: u64, count: u64, target_rate: u32) -> bool {
    count * NANOS_PER_SEC > target_rate * elapsed_ns
}

/// The delay after one correction. While no time has passed the rate cannot
/// be measured and the delay stays. Otherwise a publisher that is behind the
/// target shortens the delay by one step, one that is ahead lengthens it by
/// one step (as far as 64 bits reach), and one that is on target keeps it.
pub open spec fn adjust_spec(delay_ns: u64, elapsed_ns: u64, count: u64, target_rate: u32) -> u64 {
    let step = step_spec(delay_ns);
    if elapsed_ns == 0 {
        delay_ns
    } else if is_behind(elapsed_ns, count, target_rate) {
        (delay_ns - step) as u64
    } else if is_ahead(elapsed_ns, count, target_rate) {
        if delay_ns + step > u64::MAX {
            u64::MAX
        } else {
            (delay_ns + step) as u64
        }
    } else {
        delay_ns
    }
}

/// One reading of the publish loop: the time since the run started and the
/// number of messages sent in it.
pub struct Reading {
    pub elapsed_ns: u64,
    pub count: u64,
}

/// The delay after one correction for each reading in turn.
pub open spec fn adjust_each(delay_ns: u64, target_rate: u32, readings: Seq<Reading>) -> u64
    decreases readings.len(),
{
    if readings.len() == 0 {
        delay_ns
    } else {
        adjust_spec(
            adjust_each(delay_ns, target_rate, readings.drop_last()),
            readings.last().elapsed_ns,
            readings.last().count,
            target_rate,
        )
    }
}

/// The target is a fixed point of the controller: however often the delay is
/// corrected, it stays what it was as long as every reading shows exactly the
/// target rate.
pub proof fn lemma_adjust_fixed_point(delay_ns: u64, target_rate: u32, readings: Seq<Reading>)
    requires
        forall|i: int|
            0 <= i < readings.len() ==> (#[trigger] readings[i]).count * NANOS_PER_SEC
                == target_rate * readings[i].elapsed_ns,
    ensures
        adjust_each(delay_ns, target_rate, readings) == delay_ns,
    decreases readings.len(),
{
    if readings.len() > 0 {
        let earlier = readings.drop_last();
        assert forall|i: int| 0 <= i < earlier.len() implies (#[trigger] earlier[i]).count
            * NANOS_PER_SEC == target_rate * earlier[i].elapsed_ns by {
            assert(earlier[i] == readings[i]);
        }
        lemma_adjust_fixed_point(delay_ns, target_rate, earlier);
        assert(readings.last() == readings[readings.len() - 1]);
    }
}

/// A correction moves the delay by one step at most, and toward the target:
/// every delay that is not zero gets shorter when the publisher is behind,
/// and longer when it is ahead, unless it is the longest there is.
pub proof fn lemma_adjust_direction(delay_ns: u64, elapsed_ns: u64, count: u64, target_rate: u32)
    ensures
        ({
            let next = adjust_spec(delay_ns, elapsed_ns, count, target_rate);
            &&& delay_ns - step_spec(delay_ns) <= next <= delay_ns + step_spec(delay_ns)
            &&& elapsed_ns > 0 && delay_ns > 0 && is_behind(elapsed_ns, count, target_rate)
                ==> next < delay_ns
            &&& elapsed_ns > 0 && 0 < delay_ns < u64::MAX && is_ahead(
                elapsed_ns,
                count,
                target_rate,
            ) ==> next > delay_ns
        }),
{
}

/// Whole messages per second achieved by `count` messages in `elapsed_ns`
/// nanoseconds.
pub fn rps(count: u64, elapsed_ns: u128) -> (rate: u32)
    ensures
        rate == rps_spec(count as nat, elapsed_ns as nat),
{
    if elapsed_ns == 0 {
        if count == 0 {
            0
        } else {
            u32::MAX
        }
    } else {
        assert(count * NANOS_PER_SEC <= u128::MAX) by (nonlinear_arith)
            requires
                count <= u64::MAX,
                NANOS_PER_SEC == 1_000_000_000,
        ;
        let scaled: u128 = count as u128 * NANOS_PER_SEC as u128;
        let rate: u128 = scaled / elapsed_ns;
        if rate > u32::MAX as u128 {
            u32::MAX
        } else {
            rate as u32
        }
    }
}

/// The delay the controller starts from, before any feedback.
pub fn initial_delay(target_rate: u32) -> (delay_ns: u64)
    requires
        target_rate > 0,
    ensures
        delay_ns == initial_delay_spec(target_rate),
{
    NANOS_PER_SEC / target_rate as u64
}

/// Corrects the delay between publications after `count` messages were sent
/// in `elapsed_ns` nanoseconds. The caller pauses for the returned delay
/// before it publishes again, unless that delay is zero.
pub fn adjust(delay_ns: u64, elapsed_ns: u64, count: u64, target_rate: u32) -> (next_ns: u64)
    ensures
        next_ns == adjust_spec(delay_ns, elapsed_ns, count, target_rate),
{
    if elapsed_ns == 0 {
        return delay_ns;
    }
    assert(count * NANOS_PER_SEC <= u128::MAX && target_rate * elapsed_ns <= u128::MAX)
        by (nonlinear_arith)
        requires
            count <= u64::MAX,
            elapsed_ns <= u64::MAX,
            target_rate <= u32::MAX,
            NANOS_PER_SEC == 1_000_000_000,
    ;
    let sent: u128 = count as u128 * NANOS_PER_SEC as u128;
    let due: u128 = target_rate as u128 * elapsed_ns as u128;
    let step = if delay_ns == 0 {
        0
    } else if delay_ns < STEP_DIVISOR {
        1
    } else {
        delay_ns / STEP_DIVISOR
    };
    if sent < due {
        delay_ns - step
    } else if sent > due {
        delay_ns.saturating_add(step)
    } else {
        delay_ns
    }
}

} // verus!
