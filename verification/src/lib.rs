//! Control logic for a 36-channel LED array whose pattern is phase-locked to a
//! once-per-second pulse from a battery-backed real-time clock, with the
//! clock's absolute time bootstrapped from a build timestamp when the
//! peripheral holds no trustworthy time.
//!
//! The library holds the decision and bookkeeping layer: the bus arbitration
//! model, the clock-bootstrap state machine, the LED channel facade, the
//! edge-triggered update step and the second core's heartbeat. The hardware
//! itself (I2C transfers, GPIO edges) sits outside, hands the library plain
//! values, and carries its answers back to the peripherals.

pub mod bootstrap;
pub mod bus;
pub mod errors;
pub mod heartbeat;
pub mod leds;
pub mod time;
pub mod update;
