//! The clock-bootstrap state machine: read the clock once at startup, decide
//! whether its time can be trusted, and plan the commands that follow — a
//! write of the build timestamp when the peripheral's time is factory-fresh,
//! and in every case the arming of the 1 Hz pulse output. A failed read is
//! unrecoverable: with no time source, startup halts.

use vstd::prelude::*;

use crate::bus::{BusArbiter, BusHandle, Transaction};
use crate::errors::{BootstrapError, BusError};
use crate::time::{civil_from_epoch, CalendarTime, ClockReading, MAX_EPOCH};

verus! {

/// The first calendar year the bootstrap controller accepts as real time: a
/// clock that lost backup power reports an earlier year.
pub const MIN_TRUSTED_YEAR: u16 = 2020;

/// What the bootstrap controller decided about the peripheral's time.
#[derive(Clone, Copy, Debug, PartialEq, Eq, Structural)]
pub enum BootstrapDecision {
    /// The clock already holds trustworthy time; leave it untouched.
    TrustPeripheral,
    /// The clock's time is unset; write the build timestamp over it.
    OverwriteFromBuildTime,
}

/// A command the bootstrap plan asks the caller to send to the clock.
#[derive(Clone, Copy, Debug, PartialEq, Eq, Structural)]
pub enum ClockCommand {
    /// Write this calendar time into the peripheral.
    WriteTime(CalendarTime),
    /// Arm the periodic 1 Hz pulse output (idempotent when already armed).
    ArmPulse,
}

/// The decision a given reading leads to.
pub open spec fn spec_decision(c: ClockReading) -> BootstrapDecision {
    if c.time.year < MIN_TRUSTED_YEAR {
        BootstrapDecision::OverwriteFromBuildTime
    } else {
        BootstrapDecision::TrustPeripheral
    }
}

/// The command plan for an untrusted reading: exactly one write of a calendar
/// time carrying `build_epoch`, followed by arming the pulse output.
pub open spec fn overwrite_commands(cmds: Seq<ClockCommand>, build_epoch: int) -> bool {
    &&& cmds.len() == 2
    &&& cmds[0] matches ClockCommand::WriteTime(t) && t.wf() && t.epoch() == build_epoch
    &&& cmds[1] == ClockCommand::ArmPulse
}

/// The command plan for a trusted reading: no write at all, only arming the
/// pulse output.
pub open spec fn trust_commands(cmds: Seq<ClockCommand>) -> bool {
    &&& cmds.len() == 1
    &&& cmds[0] == ClockCommand::ArmPulse
}

/// Whether the peripheral's time is trusted: a reading whose year is before
/// `MIN_TRUSTED_YEAR` can only be the unset, factory-fresh value.
pub fn decide(reading: &ClockReading) -> (d: BootstrapDecision)
    ensures
        d == spec_decision(*reading),
{
    if reading.time.year < MIN_TRUSTED_YEAR {
        BootstrapDecision::OverwriteFromBuildTime
    } else {
        BootstrapDecision::TrustPeripheral
    }
}

/// The whole bootstrap step. `clock_read` is what the clock's startup read
/// returned over the bus; the read occupies the bus once either way. On
/// success the plan holds the decision and the commands to send, in order;
/// on failure startup cannot continue and the one unrecoverable error comes
/// back.
pub fn bootstrap_plan(
    arb: &mut BusArbiter,
    clock: &BusHandle,
    clock_read: Result<ClockReading, BusError>,
    build_epoch: i64,
) -> (r: Result<(BootstrapDecision, Vec<ClockCommand>), BootstrapError>)
    requires
        0 <= build_epoch <= MAX_EPOCH,
        old(arb).wf(),
        !old(arb).busy,
        old(arb).now < u64::MAX - 1,
    ensures
        final(arb).wf(),
        !final(arb).busy,
        final(arb).now == old(arb).now + 2,
        final(arb).log@ == old(arb).log@.push(
            Transaction { addr: clock.addr, start: old(arb).now, end: (old(arb).now + 1) as u64 },
        ),
        r is Ok <==> clock_read is Ok,
        clock_read matches Err(e) ==> r == Err::<(BootstrapDecision, Vec<ClockCommand>),
            BootstrapError,
        >(BootstrapError::ClockUnavailable(e)),
        clock_read matches Ok(c) ==> r matches Ok(plan) && plan.0 == spec_decision(c) && (
        c.time.year < MIN_TRUSTED_YEAR ==> overwrite_commands(plan.1@, build_epoch as int)) && (
        c.time.year >= MIN_TRUSTED_YEAR ==> trust_commands(plan.1@)),
{
    let read_err = match &clock_read {
        Ok(_) => None,
        Err(e) => Some(*e),
    };
    let _ = arb.transact(clock, read_err);
    match clock_read {
        Err(e) => Err(BootstrapError::ClockUnavailable(e)),
        Ok(reading) => {
            let d = decide(&reading);
            let mut cmds: Vec<ClockCommand> = Vec::new();
            if reading.time.year < MIN_TRUSTED_YEAR {
                let t = civil_from_epoch(build_epoch);
                cmds.push(ClockCommand::WriteTime(t));
            }
            cmds.push(ClockCommand::ArmPulse);
            Ok((d, cmds))
        },
    }
}

} // verus!
