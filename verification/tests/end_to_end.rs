use ledpulse::bootstrap::{bootstrap_plan, BootstrapDecision, ClockCommand};
use ledpulse::bus::BusArbiter;
use ledpulse::errors::BusError;
use ledpulse::leds::{CurrentLimit, LedFacade, OutputMode};
use ledpulse::time::{CalendarTime, ClockReading};
use ledpulse::update::{update_step, StepOutcome};

fn all_ok() -> Vec<Option<BusError>> {
    let mut v = Vec::new();
    let mut k = 0;
    while k < 72 {
        v.push(None);
        k += 1;
    }
    v
}

#[test]
fn cold_boot_writes_build_time_then_first_edge_lights_all() {
    let mut arb = BusArbiter::new();
    let clock = arb.acquire(0x68);
    let mut leds = LedFacade::new(0x3c);
    leds.clear_shutdown(&mut arb, None).unwrap();
    leds.set_global_enable(&mut arb, true, None).unwrap();

    // the peripheral lost its time: it reports year 2000
    let stale = ClockReading {
        time: CalendarTime { year: 2000, month: 1, day: 1, hour: 0, minute: 0, second: 0 },
        temp_quarters: 80,
    };
    let (d, cmds) = bootstrap_plan(&mut arb, &clock, Ok(stale), 1700000000).unwrap();
    assert_eq!(d, BootstrapDecision::OverwriteFromBuildTime);
    assert_eq!(cmds.len(), 2);
    let written = match cmds[0] {
        ClockCommand::WriteTime(t) => t,
        ClockCommand::ArmPulse => panic!("the write must come before the arming"),
    };
    assert_eq!(cmds[1], ClockCommand::ArmPulse);

    // first edge: the clock now reports the written time, an even second
    let fresh = ClockReading { time: written, temp_quarters: 80 };
    let r = update_step(&mut leds, &mut arb, &clock, Ok(fresh), &all_ok(), 0x3f, CurrentLimit::MaxDiv3);
    assert_eq!(r, StepOutcome::Applied);
    let mut i = 0;
    while i < 36 {
        assert_eq!(leds.channels[i].mode, OutputMode::On);
        assert_eq!(leds.channels[i].duty, 0x3f);
        i += 1;
    }
}

#[test]
fn warm_boot_trusts_clock_and_updates_from_existing_time() {
    let mut arb = BusArbiter::new();
    let clock = arb.acquire(0x68);
    let mut leds = LedFacade::new(0x3c);
    leds.clear_shutdown(&mut arb, None).unwrap();
    leds.set_global_enable(&mut arb, true, None).unwrap();

    let current = ClockReading {
        time: CalendarTime { year: 2023, month: 11, day: 14, hour: 22, minute: 13, second: 21 },
        temp_quarters: 80,
    };
    let (d, cmds) = bootstrap_plan(&mut arb, &clock, Ok(current), 1700000000).unwrap();
    assert_eq!(d, BootstrapDecision::TrustPeripheral);
    assert_eq!(cmds.len(), 1);
    assert_eq!(cmds[0], ClockCommand::ArmPulse);

    // edges proceed from the existing time: 22:13:21 is an odd second
    let r = update_step(&mut leds, &mut arb, &clock, Ok(current), &all_ok(), 0x3f, CurrentLimit::MaxDiv3);
    assert_eq!(r, StepOutcome::Applied);
    let mut i = 0;
    while i < 36 {
        assert_eq!(leds.channels[i].mode, OutputMode::Off);
        assert_eq!(leds.channels[i].duty, 0x3f);
        i += 1;
    }
}
