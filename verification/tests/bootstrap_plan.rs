use ledpulse::bootstrap::{bootstrap_plan, decide, BootstrapDecision, ClockCommand};
use ledpulse::bus::BusArbiter;
use ledpulse::errors::{BootstrapError, BusError};
use ledpulse::time::{epoch_from_civil, CalendarTime, ClockReading};

fn reading(year: u16) -> ClockReading {
    ClockReading {
        time: CalendarTime { year, month: 1, day: 1, hour: 0, minute: 0, second: 0 },
        temp_quarters: 100,
    }
}

#[test]
fn stale_clock_gets_one_write_then_arm() {
    let mut arb = BusArbiter::new();
    let clock = arb.acquire(0x68);
    let plan = bootstrap_plan(&mut arb, &clock, Ok(reading(2000)), 1700000000);
    let (d, cmds) = plan.unwrap();
    assert_eq!(d, BootstrapDecision::OverwriteFromBuildTime);
    assert_eq!(cmds.len(), 2);
    match cmds[0] {
        ClockCommand::WriteTime(t) => {
            assert_eq!(t.year, 2023);
            assert_eq!(t.month, 11);
            assert_eq!(t.day, 14);
            assert_eq!(t.hour, 22);
            assert_eq!(t.minute, 13);
            assert_eq!(t.second, 20);
            assert_eq!(epoch_from_civil(&t), 1700000000);
        }
        ClockCommand::ArmPulse => panic!("first command must write the build time"),
    }
    assert_eq!(cmds[1], ClockCommand::ArmPulse);
    assert_eq!(arb.log.len(), 1);
    assert_eq!(arb.log[0].addr, 0x68);
}

#[test]
fn trusted_clock_keeps_time() {
    let mut arb = BusArbiter::new();
    let clock = arb.acquire(0x68);
    let plan = bootstrap_plan(&mut arb, &clock, Ok(reading(2023)), 1700000000);
    let (d, cmds) = plan.unwrap();
    assert_eq!(d, BootstrapDecision::TrustPeripheral);
    assert_eq!(cmds.len(), 1);
    assert_eq!(cmds[0], ClockCommand::ArmPulse);
}

#[test]
fn unreadable_clock_is_fatal() {
    let mut arb = BusArbiter::new();
    let clock = arb.acquire(0x68);
    let plan = bootstrap_plan(&mut arb, &clock, Err(BusError::Nack), 1700000000);
    assert_eq!(plan, Err(BootstrapError::ClockUnavailable(BusError::Nack)));
    assert_eq!(arb.log.len(), 1);
}

#[test]
fn trust_threshold_sits_at_2020() {
    assert_eq!(decide(&reading(2019)), BootstrapDecision::OverwriteFromBuildTime);
    assert_eq!(decide(&reading(2020)), BootstrapDecision::TrustPeripheral);
    assert_eq!(decide(&reading(1970)), BootstrapDecision::OverwriteFromBuildTime);
}
