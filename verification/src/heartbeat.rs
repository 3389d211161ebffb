//! The second core's heartbeat: a diagnostic output toggled on a fixed
//! busy-wait cadence, with no bus handle and no data from the first core.
//! Its law is independence — after any run of first-core events of equal
//! length, the heartbeat's level is the same, whatever those events were.

use vstd::prelude::*;

verus! {

/// The diagnostic output's state on the second core: its current level and
/// how many times it has toggled since spawn.
#[derive(Clone, Copy, Debug, PartialEq, Eq, Structural)]
pub struct Heartbeat {
    pub level: bool,
    pub ticks: u64,
}

/// Anything the first core can be seen doing during one heartbeat period.
/// The heartbeat never reads these; the type exists to state that.
#[derive(Clone, Copy, Debug, PartialEq, Eq, Structural)]
pub enum CoreAEvent {
    /// An iteration that applied a fresh pattern.
    EdgeApplied,
    /// An iteration whose clock read failed.
    EdgeClockFailed,
    /// An iteration whose pattern write failed part-way.
    EdgeWriteFailed,
    /// No edge at all: the first core stalled or sat suspended.
    Stalled,
}

/// The level an initially-`initial` heartbeat shows after `ticks` toggles.
pub open spec fn level_after(initial: bool, ticks: nat) -> bool {
    if ticks % 2 == 0 {
        initial
    } else {
        !initial
    }
}

/// The heartbeat's level after living beside a run of first-core events, one
/// toggle per event period — defined without ever looking at an event.
pub open spec fn level_beside(initial: bool, events: Seq<CoreAEvent>) -> bool
    decreases events.len(),
{
    if events.len() == 0 {
        initial
    } else {
        level_beside(!initial, events.drop_first())
    }
}

impl Heartbeat {
    /// A heartbeat at its spawn state.
    pub fn new(initial: bool) -> (h: Heartbeat)
        ensures
            h.level == initial,
            h.ticks == 0,
    {
        Heartbeat { level: initial, ticks: 0 }
    }

    /// One period of the second core's loop: flip the diagnostic output.
    pub fn toggle(&mut self)
        requires
            old(self).ticks < u64::MAX,
        ensures
            final(self).level == !old(self).level,
            final(self).ticks == old(self).ticks + 1,
    {
        self.level = !self.level;
        self.ticks = self.ticks + 1;
    }
}

/// Cadence law: beside any run of first-core events the heartbeat's level is
/// a function of its initial level and the run's length alone.
pub proof fn lemma_heartbeat_cadence(initial: bool, events: Seq<CoreAEvent>)
    ensures
        level_beside(initial, events) == level_after(initial, events.len()),
    decreases events.len(),
{
    if events.len() > 0 {
        lemma_heartbeat_cadence(!initial, events.drop_first());
    }
}

/// Independence law: two runs of first-core events of the same length — one
/// may be all clean iterations, the other full of failures and stalls —
/// leave the heartbeat at the same level.
pub proof fn lemma_heartbeat_independent(
    initial: bool,
    run_a: Seq<CoreAEvent>,
    run_b: Seq<CoreAEvent>,
)
    requires
        run_a.len() == run_b.len(),
    ensures
        level_beside(initial, run_a) == level_beside(initial, run_b),
{
    lemma_heartbeat_cadence(initial, run_a);
    lemma_heartbeat_cadence(initial, run_b);
}

/// Runs a fresh heartbeat beside a recorded run of first-core events and
/// returns its final level — the executable face of the cadence law.
pub fn run_beside(initial: bool, events: &Vec<CoreAEvent>) -> (level: bool)
    ensures
        level == level_beside(initial, events@),
{
    let mut hb = Heartbeat::new(initial);
    let n = events.len();
    let mut i: usize = 0;
    while i < n
        invariant
            i <= n,
            n == events@.len(),
            hb.ticks == i,
            hb.level == level_after(initial, i as nat),
        decreases n - i,
    {
        hb.toggle();
        i = i + 1;
    }
    proof {
        lemma_heartbeat_cadence(initial, events@);
    }
    hb.level
}

} // verus!
