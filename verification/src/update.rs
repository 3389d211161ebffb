//! The edge-triggered update step: what one iteration of the steady-state
//! loop does once the hardware edge has fired. The caller suspends on the
//! edge, performs the raw reads and writes, and feeds their outcomes in; the
//! step turns the fresh clock reading into the pattern of the same iteration
//! and applies it through the facade — or leaves the previous pattern
//! standing when anything failed, without ever halting the loop.

use vstd::prelude::*;

use crate::bus::{BusArbiter, BusHandle};
use crate::errors::{BusError, DriverError};
use crate::leds::{ChannelState, CurrentLimit, LedFacade, OutputMode, NUM_CHANNELS};
use crate::time::ClockReading;

verus! {

/// The mode every channel gets for a given timestamp: lit on even seconds,
/// dark on odd ones.
pub open spec fn pattern_mode(timestamp: int) -> OutputMode {
    if timestamp % 2 == 0 {
        OutputMode::On
    } else {
        OutputMode::Off
    }
}

/// What one channel of a freshly computed pattern holds: its own index, the
/// parity-driven mode of `timestamp`, and the one configured duty and current
/// shared by all channels of the iteration.
pub open spec fn channel_matches(
    c: ChannelState,
    i: int,
    timestamp: int,
    duty: u8,
    current: CurrentLimit,
) -> bool {
    &&& c.index == i
    &&& c.current == current
    &&& c.mode == pattern_mode(timestamp)
    &&& c.duty == duty
}

/// Computes the 36-channel pattern for one timestamp: every channel On
/// exactly when the timestamp is even, every channel with the same duty and
/// current limit.
pub fn compute_pattern(timestamp: i64, duty: u8, current: CurrentLimit) -> (p: Vec<ChannelState>)
    ensures
        p@.len() == 36,
        forall|i: int|
            0 <= i < 36 ==> channel_matches(
                #[trigger] p@[i],
                i,
                timestamp as int,
                duty,
                current,
            ),
{
    let even = timestamp % 2 == 0;
    let mode = if even {
        OutputMode::On
    } else {
        OutputMode::Off
    };
    proof {
        assert(mode == pattern_mode(timestamp as int));
    }
    let mut p: Vec<ChannelState> = Vec::new();
    let mut i: usize = 0;
    while i < NUM_CHANNELS
        invariant
            i <= 36,
            p@.len() == i,
            forall|k: int|
                0 <= k < i ==> channel_matches(
                    #[trigger] p@[k],
                    k,
                    timestamp as int,
                    duty,
                    current,
                ),
            mode == pattern_mode(timestamp as int),
        decreases 36 - i,
    {
        p.push(ChannelState { index: i as u8, current, mode, duty });
        i = i + 1;
    }
    p
}

/// The whole channel array shows the pattern of `timestamp`: one entry per
/// channel, mode by the timestamp's parity, one shared duty and current.
pub open spec fn pattern_applied(
    channels: Seq<ChannelState>,
    timestamp: int,
    duty: u8,
    current: CurrentLimit,
) -> bool {
    &&& channels.len() == 36
    &&& forall|i: int|
        0 <= i < 36 ==> channel_matches(#[trigger] channels[i], i, timestamp, duty, current)
}

/// How one iteration of the update loop ended. There is no halting variant:
/// whatever failed, the loop goes back to waiting for the next edge.
#[derive(Clone, Copy, Debug, PartialEq, Eq, Structural)]
pub enum StepOutcome {
    /// Fresh pattern computed and fully applied.
    Applied,
    /// The clock gave no reading; nothing was written.
    ClockFailed(BusError),
    /// The clock was read but writing the pattern failed part-way; the
    /// visible channel state is still the previous iteration's.
    WriteFailed(DriverError),
}

/// One iteration of the edge-triggered update loop, entered after the edge
/// fired: read the clock through its handle, compute the pattern from that
/// same reading, write it through the facade. `clock_read` is what the
/// clock's two transfers (calendar time, temperature) returned;
/// `write_outcomes` is what the wire reported for each of the facade's 72
/// transfers. A failed iteration leaves the channel state of the previous
/// one untouched.
pub fn update_step(
    leds: &mut LedFacade,
    arb: &mut BusArbiter,
    clock: &BusHandle,
    clock_read: Result<ClockReading, BusError>,
    write_outcomes: &Vec<Option<BusError>>,
    duty: u8,
    current: CurrentLimit,
) -> (r: StepOutcome)
    requires
        old(leds).wf(),
        old(leds).ready(),
        old(arb).wf(),
        !old(arb).busy,
        old(arb).now < u64::MAX - 160,
        clock_read matches Ok(c) ==> c.time.wf(),
        write_outcomes@.len() == 72,
    ensures
        final(leds).wf(),
        final(leds).ready(),
        final(arb).wf(),
        !final(arb).busy,
        final(arb).now <= old(arb).now + 150,
        final(leds).handle == old(leds).handle,
        r is Applied <==> clock_read is Ok && (forall|k: int|
            0 <= k < 72 ==> write_outcomes@[k] is None),
        clock_read matches Err(e) ==> r == StepOutcome::ClockFailed(e) && final(leds).channels@
            == old(leds).channels@ && final(arb).log@.len() == old(arb).log@.len() + 1,
        clock_read matches Ok(c) ==> r is Applied ==> pattern_applied(
            final(leds).channels@,
            c.time.epoch(),
            duty,
            current,
        ) && final(arb).log@.len() == old(arb).log@.len() + 74,
        r is WriteFailed ==> final(leds).channels@ == old(leds).channels@,
        clock_read is Ok && !(forall|k: int| 0 <= k < 72 ==> write_outcomes@[k] is None) ==> r
            is WriteFailed,
        r matches StepOutcome::WriteFailed(e) ==> {
            let f = crate::leds::first_failure(write_outcomes@);
            &&& 0 <= f < 72
            &&& write_outcomes@[f] matches Some(b) && e == DriverError::Bus(b)
            &&& final(arb).log@.len() == old(arb).log@.len() + 3 + f
        },
{
    match clock_read {
        Err(e) => {
            // the failed read still occupied the bus once
            let _ = arb.transact(clock, Some(e));
            StepOutcome::ClockFailed(e)
        },
        Ok(reading) => {
            // calendar read, then temperature read, both acknowledged
            let _ = arb.transact(clock, None);
            let _ = arb.transact(clock, None);
            let ts = crate::time::epoch_from_civil(&reading.time);
            let pattern = compute_pattern(ts, duty, current);
            match leds.apply_pattern(arb, &pattern, write_outcomes) {
                Ok(()) => StepOutcome::Applied,
                Err(e) => StepOutcome::WriteFailed(e),
            }
        },
    }
}

} // verus!
