use ledpulse::bus::BusArbiter;
use ledpulse::errors::{BusError, DriverError};
use ledpulse::leds::LedFacade;

#[test]
fn explicit_transaction_brackets() {
    let mut arb = BusArbiter::new();
    let h = arb.acquire(0x42);
    arb.begin(&h);
    assert!(arb.busy);
    let r = arb.end(None);
    assert_eq!(r, Ok(()));
    assert!(!arb.busy);
    assert_eq!(arb.log.len(), 1);
    assert_eq!(arb.log[0].addr, 0x42);
    assert!(arb.log[0].start < arb.log[0].end);

    let r = arb.transact(&h, Some(BusError::Timeout));
    assert_eq!(r, Err(BusError::Timeout));
    assert_eq!(arb.log.len(), 2);
    assert!(arb.log[0].end <= arb.log[1].start);
}

#[test]
fn failed_init_step_leaves_facade_unready() {
    let mut arb = BusArbiter::new();
    let mut leds = LedFacade::new(0x3c);
    let r = leds.clear_shutdown(&mut arb, Some(BusError::Nack));
    assert_eq!(r, Err(DriverError::Bus(BusError::Nack)));
    assert!(!leds.shutdown_cleared);
    // the failed attempt still occupied the bus once
    assert_eq!(arb.log.len(), 1);

    let r = leds.clear_shutdown(&mut arb, None);
    assert_eq!(r, Ok(()));
    assert!(leds.shutdown_cleared);
    let r = leds.set_global_enable(&mut arb, true, None);
    assert_eq!(r, Ok(()));
    assert!(leds.output_enabled);
}
