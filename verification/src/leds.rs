//! The LED channel driver facade: the 36-channel array as one addressable
//! unit over the arbitrated bus. The facade owns the channel state; every
//! operation costs bus transactions through the arbiter, and a whole-pattern
//! write is atomic from the control loop's point of view — a failed iteration
//! leaves the previous pattern standing.

use vstd::prelude::*;

use crate::bus::{BusArbiter, BusHandle, Transaction};
use crate::errors::{BusError, DriverError};

verus! {

/// Number of LED channels the driver peripheral exposes.
pub const NUM_CHANNELS: usize = 36;

/// Whether a channel drives its LED.
#[derive(Clone, Copy, Debug, PartialEq, Eq, Structural)]
pub enum OutputMode {
    On,
    Off,
}

/// Per-channel current limit, as a fraction of the driver's maximum.
#[derive(Clone, Copy, Debug, PartialEq, Eq, Structural)]
pub enum CurrentLimit {
    Max,
    MaxDiv2,
    MaxDiv3,
    MaxDiv4,
}

/// The state of one LED channel.
#[derive(Clone, Copy, Debug, PartialEq, Eq, Structural)]
pub struct ChannelState {
    pub index: u8,
    pub current: CurrentLimit,
    pub mode: OutputMode,
    pub duty: u8,
}

/// Index of the first `Some` in a sequence of transaction outcomes — the
/// point where a multi-transaction operation stops — or the length if every
/// transaction succeeded.
pub open spec fn first_failure(s: Seq<Option<BusError>>) -> int
    decreases s.len(),
{
    if s.len() == 0 {
        0
    } else if s[0] is Some {
        0
    } else {
        1 + first_failure(s.subrange(1, s.len() as int))
    }
}

/// If everything before `k` succeeded and `k` failed, then `k` is the first
/// failure.
proof fn lemma_first_failure_at(s: Seq<Option<BusError>>, k: int)
    requires
        0 <= k < s.len(),
        s[k] is Some,
        forall|j: int| 0 <= j < k ==> s[j] is None,
    ensures
        first_failure(s) == k,
    decreases k,
{
    if k == 0 {
    } else {
        let tail = s.subrange(1, s.len() as int);
        lemma_first_failure_at(tail, k - 1);
    }
}

/// The LED driver facade. `shutdown_cleared` and `output_enabled` trace the
/// required initialization order: the peripheral ignores channel commands
/// until software shutdown is cleared and global output is enabled.
pub struct LedFacade {
    pub handle: BusHandle,
    pub channels: Vec<ChannelState>,
    pub shutdown_cleared: bool,
    pub output_enabled: bool,
}

impl LedFacade {
    /// The channel array always holds one entry per channel, each knowing its
    /// own index.
    pub open spec fn wf(self) -> bool {
        &&& self.channels@.len() == 36
        &&& forall|i: int| 0 <= i < 36 ==> (#[trigger] self.channels@[i]).index == i
    }

    /// The initialization sequence is complete and channel commands reach the
    /// peripheral.
    pub open spec fn ready(self) -> bool {
        self.shutdown_cleared && self.output_enabled
    }

    /// A facade for the driver peripheral at `device_addr`: all 36 channels
    /// dark, initialization not yet begun.
    pub fn new(device_addr: u8) -> (f: LedFacade)
        ensures
            f.wf(),
            !f.shutdown_cleared,
            !f.output_enabled,
            f.handle.addr == device_addr,
            forall|i: int|
                0 <= i < 36 ==> (#[trigger] f.channels@[i]).mode == OutputMode::Off
                    && f.channels@[i].duty == 0,
    {
        let mut channels: Vec<ChannelState> = Vec::new();
        let mut i: usize = 0;
        while i < NUM_CHANNELS
            invariant
                i <= 36,
                channels@.len() == i,
                forall|k: int|
                    0 <= k < i ==> (#[trigger] channels@[k]) == (ChannelState {
                        index: k as u8,
                        current: CurrentLimit::MaxDiv3,
                        mode: OutputMode::Off,
                        duty: 0,
                    }),
            decreases 36 - i,
        {
            channels.push(
                ChannelState {
                    index: i as u8,
                    current: CurrentLimit::MaxDiv3,
                    mode: OutputMode::Off,
                    duty: 0,
                },
            );
            i = i + 1;
        }
        LedFacade {
            handle: BusHandle { addr: device_addr },
            channels,
            shutdown_cleared: false,
            output_enabled: false,
        }
    }

    /// First initialization step: take the peripheral out of software
    /// shutdown. One bus transaction; on failure the facade is unchanged.
    pub fn clear_shutdown(&mut self, arb: &mut BusArbiter, outcome: Option<BusError>) -> (r:
        Result<(), DriverError>)
        requires
            old(self).wf(),
            old(arb).wf(),
            !old(arb).busy,
            old(arb).now < u64::MAX - 1,
        ensures
            final(self).wf(),
            final(arb).wf(),
            !final(arb).busy,
            final(arb).now == old(arb).now + 2,
            final(self).handle == old(self).handle,
            final(self).channels@ == old(self).channels@,
            final(self).output_enabled == old(self).output_enabled,
            final(arb).log@ == old(arb).log@.push(
                Transaction {
                    addr: old(self).handle.addr,
                    start: old(arb).now,
                    end: (old(arb).now + 1) as u64,
                },
            ),
            r is Ok <==> outcome is None,
            outcome is None ==> final(self).shutdown_cleared,
            outcome matches Some(e) ==> r == Err::<(), DriverError>(DriverError::Bus(e))
                && final(self).shutdown_cleared == old(self).shutdown_cleared,
    {
        match arb.transact(&self.handle, outcome) {
            Ok(()) => {
                self.shutdown_cleared = true;
                Ok(())
            },
            Err(e) => Err(DriverError::Bus(e)),
        }
    }

    /// Second initialization step, and the global kill switch thereafter:
    /// set the peripheral's global output enable. Requires shutdown already
    /// cleared — the other order would leave channel commands ignored.
    pub fn set_global_enable(
        &mut self,
        arb: &mut BusArbiter,
        enabled: bool,
        outcome: Option<BusError>,
    ) -> (r: Result<(), DriverError>)
        requires
            old(self).wf(),
            old(self).shutdown_cleared,
            old(arb).wf(),
            !old(arb).busy,
            old(arb).now < u64::MAX - 1,
        ensures
            final(self).wf(),
            final(arb).wf(),
            !final(arb).busy,
            final(arb).now == old(arb).now + 2,
            final(self).handle == old(self).handle,
            final(self).channels@ == old(self).channels@,
            final(self).shutdown_cleared,
            final(arb).log@ == old(arb).log@.push(
                Transaction {
                    addr: old(self).handle.addr,
                    start: old(arb).now,
                    end: (old(arb).now + 1) as u64,
                },
            ),
            r is Ok <==> outcome is None,
            outcome is None ==> final(self).output_enabled == enabled,
            outcome matches Some(e) ==> r == Err::<(), DriverError>(DriverError::Bus(e))
                && final(self).output_enabled == old(self).output_enabled,
    {
        match arb.transact(&self.handle, outcome) {
            Ok(()) => {
                self.output_enabled = enabled;
                Ok(())
            },
            Err(e) => Err(DriverError::Bus(e)),
        }
    }

    /// Sets one channel's current limit and on/off mode, leaving its duty
    /// untouched. Rejects an index outside the array without touching the
    /// bus; otherwise one transaction, and the channel changes exactly when
    /// it succeeds.
    pub fn set_channel(
        &mut self,
        arb: &mut BusArbiter,
        index: u8,
        current: CurrentLimit,
        mode: OutputMode,
        outcome: Option<BusError>,
    ) -> (r: Result<(), DriverError>)
        requires
            old(self).wf(),
            old(self).ready(),
            old(arb).wf(),
            !old(arb).busy,
            old(arb).now < u64::MAX - 1,
        ensures
            final(self).wf(),
            final(self).ready(),
            final(arb).wf(),
            !final(arb).busy,
            final(self).handle == old(self).handle,
            final(arb).now <= old(arb).now + 2,
            r is Ok <==> index < 36 && outcome is None,
            index >= 36 ==> r == Err::<(), DriverError>(DriverError::InvalidChannel)
                && final(self).channels@ == old(self).channels@ && *final(arb) == *old(arb),
            index < 36 ==> final(arb).log@ == old(arb).log@.push(
                Transaction {
                    addr: old(self).handle.addr,
                    start: old(arb).now,
                    end: (old(arb).now + 1) as u64,
                },
            ),
            index < 36 && outcome is None ==> final(self).channels@ == old(self).channels@.update(
                index as int,
                ChannelState {
                    index,
                    current,
                    mode,
                    duty: old(self).channels@[index as int].duty,
                },
            ),
            outcome matches Some(e) ==> index < 36 ==> r == Err::<(), DriverError>(
                DriverError::Bus(e),
            ) && final(self).channels@ == old(self).channels@,
    {
        if index as usize >= NUM_CHANNELS {
            return Err(DriverError::InvalidChannel);
        }
        match arb.transact(&self.handle, outcome) {
            Ok(()) => {
                let duty = self.channels[index as usize].duty;
                self.channels[index as usize] = ChannelState { index, current, mode, duty };
                Ok(())
            },
            Err(e) => Err(DriverError::Bus(e)),
        }
    }

    /// Sets one channel's PWM duty, leaving mode and current untouched. Same
    /// bus behaviour as `set_channel`.
    pub fn set_duty(
        &mut self,
        arb: &mut BusArbiter,
        index: u8,
        duty: u8,
        outcome: Option<BusError>,
    ) -> (r: Result<(), DriverError>)
        requires
            old(self).wf(),
            old(self).ready(),
            old(arb).wf(),
            !old(arb).busy,
            old(arb).now < u64::MAX - 1,
        ensures
            final(self).wf(),
            final(self).ready(),
            final(arb).wf(),
            !final(arb).busy,
            final(self).handle == old(self).handle,
            final(arb).now <= old(arb).now + 2,
            r is Ok <==> index < 36 && outcome is None,
            index >= 36 ==> r == Err::<(), DriverError>(DriverError::InvalidChannel)
                && final(self).channels@ == old(self).channels@ && *final(arb) == *old(arb),
            index < 36 ==> final(arb).log@ == old(arb).log@.push(
                Transaction {
                    addr: old(self).handle.addr,
                    start: old(arb).now,
                    end: (old(arb).now + 1) as u64,
                },
            ),
            index < 36 && outcome is None ==> final(self).channels@ == old(self).channels@.update(
                index as int,
                ChannelState {
                    index,
                    current: old(self).channels@[index as int].current,
                    mode: old(self).channels@[index as int].mode,
                    duty,
                },
            ),
            outcome matches Some(e) ==> index < 36 ==> r == Err::<(), DriverError>(
                DriverError::Bus(e),
            ) && final(self).channels@ == old(self).channels@,
    {
        if index as usize >= NUM_CHANNELS {
            return Err(DriverError::InvalidChannel);
        }
        match arb.transact(&self.handle, outcome) {
            Ok(()) => {
                let old_c = self.channels[index as usize];
                self.channels[index as usize] = ChannelState {
                    index,
                    current: old_c.current,
                    mode: old_c.mode,
                    duty,
                };
                Ok(())
            },
            Err(e) => Err(DriverError::Bus(e)),
        }
    }

    /// Writes a whole 36-channel pattern: per channel one mode/current
    /// transaction and one duty transaction, 72 in all, stopping at the first
    /// failure. Atomic at the control-loop level: the facade's channel state
    /// becomes the pattern when every transaction succeeds, and stays exactly
    /// the previous pattern when any fails.
    pub fn apply_pattern(
        &mut self,
        arb: &mut BusArbiter,
        pattern: &Vec<ChannelState>,
        outcomes: &Vec<Option<BusError>>,
    ) -> (r: Result<(), DriverError>)
        requires
            old(self).wf(),
            old(self).ready(),
            old(arb).wf(),
            !old(arb).busy,
            old(arb).now < u64::MAX - 150,
            pattern@.len() == 36,
            forall|i: int| 0 <= i < 36 ==> (#[trigger] pattern@[i]).index == i,
            outcomes@.len() == 72,
        ensures
            final(self).wf(),
            final(self).ready(),
            final(arb).wf(),
            !final(arb).busy,
            final(arb).now <= old(arb).now + 144,
            final(self).handle == old(self).handle,
            r is Ok <==> (forall|k: int| 0 <= k < 72 ==> outcomes@[k] is None),
            r is Ok ==> final(self).channels@ == pattern@ && final(arb).log@.len() == old(arb).log@.len()
                + 72,
            r is Err ==> final(self).channels@ == old(self).channels@,
            r matches Err(e) ==> {
                let f = first_failure(outcomes@);
                &&& 0 <= f < 72
                &&& outcomes@[f] matches Some(b) && e == DriverError::Bus(b)
                &&& final(arb).log@.len() == old(arb).log@.len() + f + 1
            },
            forall|k: int|
                old(arb).log@.len() <= k < final(arb).log@.len() ==> (#[trigger] final(arb).log@[k]).addr
                    == old(self).handle.addr,
            forall|k: int|
                0 <= k < old(arb).log@.len() ==> final(arb).log@[k] == old(arb).log@[k],
    {
        let handle = self.handle;
        if let Err(e) = issue_all(arb, &handle, outcomes) {
            return Err(DriverError::Bus(e));
        }
        let mut staged: Vec<ChannelState> = Vec::new();
        let mut i: usize = 0;
        while i < NUM_CHANNELS
            invariant
                i <= 36,
                pattern@.len() == 36,
                staged@ == pattern@.subrange(0, i as int),
            decreases 36 - i,
        {
            staged.push(pattern[i]);
            proof {
                assert(staged@ =~= pattern@.subrange(0, i + 1 as int));
            }
            i = i + 1;
        }
        proof {
            assert(staged@ =~= pattern@);
        }
        self.channels = staged;
        Ok(())
    }
}

/// Issues one operation's run of bus transactions for `h`'s peripheral, in
/// outcome order, stopping at the first failure; reports that failure.
#[verifier::rlimit(100)]
#[verifier::spinoff_prover]
fn issue_all(arb: &mut BusArbiter, h: &BusHandle, outcomes: &Vec<Option<BusError>>) -> (r:
    Result<(), BusError>)
    requires
        old(arb).wf(),
        !old(arb).busy,
        old(arb).now < u64::MAX - 150,
        outcomes@.len() == 72,
    ensures
        final(arb).wf(),
        !final(arb).busy,
        final(arb).now <= old(arb).now + 144,
        r is Ok <==> (forall|k: int| 0 <= k < 72 ==> outcomes@[k] is None),
        r is Ok ==> final(arb).log@.len() == old(arb).log@.len() + 72,
        r matches Err(e) ==> {
            let f = first_failure(outcomes@);
            &&& 0 <= f < 72
            &&& outcomes@[f] matches Some(b) && e == b
            &&& final(arb).log@.len() == old(arb).log@.len() + f + 1
        },
        forall|k: int|
            old(arb).log@.len() <= k < final(arb).log@.len() ==> (#[trigger] final(arb).log@[k]).addr
                == h.addr,
        forall|k: int| 0 <= k < old(arb).log@.len() ==> final(arb).log@[k] == old(arb).log@[k],
{
    let ghost old_len = arb.log@.len() as int;
    let mut j: usize = 0;
    while j < 72
        invariant
            j <= 72,
            arb.wf(),
            !arb.busy,
            old(arb).now < u64::MAX - 150,
            outcomes@.len() == 72,
            arb.now == old(arb).now + 2 * j,
            arb.log@.len() == old_len + j,
            old_len == old(arb).log@.len(),
            forall|k: int| 0 <= k < j ==> outcomes@[k] is None,
            forall|k: int|
                old_len <= k < arb.log@.len() ==> (#[trigger] arb.log@[k]).addr == h.addr,
            forall|k: int| 0 <= k < old_len ==> arb.log@[k] == old(arb).log@[k],
        decreases 72 - j,
    {
        let o = outcomes[j];
        if let Err(e) = arb.transact(h, o) {
            proof {
                lemma_first_failure_at(outcomes@, j as int);
            }
            return Err(e);
        }
        j = j + 1;
    }
    Ok(())
}

} // verus!
