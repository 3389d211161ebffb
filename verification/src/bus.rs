//! The bus arbiter: exclusive, non-overlapping access to the one shared
//! peripheral bus from any number of logical device handles. One exclusion
//! token (`busy`) serialises transactions; a logical clock stamps each
//! transaction's start and end, and the arbiter keeps the log of completed
//! transactions, so that non-overlap is an invariant of the type rather than
//! a convention.

use vstd::prelude::*;

use crate::errors::BusError;

verus! {

/// A lease on the shared bus for one peripheral, identified by its bus
/// address. Handles carry no authority of their own: every transaction goes
/// through the arbiter that issued them.
#[derive(Clone, Copy, Debug, PartialEq, Eq, Structural)]
pub struct BusHandle {
    pub addr: u8,
}

/// One completed bus transaction: which peripheral it addressed and the
/// half-open span of logical time it occupied the bus.
#[derive(Clone, Copy, Debug, PartialEq, Eq, Structural)]
pub struct Transaction {
    pub addr: u8,
    pub start: u64,
    pub end: u64,
}

/// The single exclusion point of the shared bus. `busy` is the exclusion
/// token; `now` is a logical clock that advances at every transaction
/// boundary; `log` records every completed transaction in order.
pub struct BusArbiter {
    pub busy: bool,
    pub open_addr: u8,
    pub open_start: u64,
    pub now: u64,
    pub log: Vec<Transaction>,
}

impl BusArbiter {
    /// Well-formedness: every logged transaction took time, the log is in
    /// chronological order with no two spans overlapping, and whatever is
    /// still open started after the last logged transaction ended.
    pub open spec fn wf(self) -> bool {
        &&& forall|i: int|
            0 <= i < self.log@.len() ==> (#[trigger] self.log@[i]).start < self.log@[i].end
        &&& forall|i: int|
            0 <= i < self.log@.len() - 1 ==> (#[trigger] self.log@[i]).end <= self.log@[i
                + 1].start
        &&& self.log@.len() > 0 ==> self.log@.last().end <= if self.busy {
            self.open_start
        } else {
            self.now
        }
        &&& self.busy ==> self.open_start < self.now
    }

    /// A fresh arbiter: bus idle, nothing logged yet.
    pub fn new() -> (a: BusArbiter)
        ensures
            a.wf(),
            !a.busy,
            a.now == 0,
            a.log@.len() == 0,
    {
        BusArbiter { busy: false, open_addr: 0, open_start: 0, now: 0, log: Vec::new() }
    }

    /// Issues a lease on the bus for the peripheral at `device_addr`. Handles
    /// for distinct peripherals are distinct, yet all contend for this
    /// arbiter's one exclusion token.
    pub fn acquire(&self, device_addr: u8) -> (h: BusHandle)
        ensures
            h.addr == device_addr,
    {
        BusHandle { addr: device_addr }
    }

    /// Claims the bus for one transaction by `h`'s peripheral. A caller that
    /// holds no other open transaction sees `busy` false and never blocks.
    pub fn begin(&mut self, h: &BusHandle)
        requires
            old(self).wf(),
            !old(self).busy,
            old(self).now < u64::MAX,
        ensures
            final(self).wf(),
            final(self).busy,
            final(self).open_addr == h.addr,
            final(self).open_start == old(self).now,
            final(self).now == old(self).now + 1,
            final(self).log@ == old(self).log@,
    {
        self.open_addr = h.addr;
        self.open_start = self.now;
        self.busy = true;
        self.now = self.now + 1;
    }

    /// Releases the bus, logging the completed transaction. `outcome` is the
    /// transfer's result as the wire reported it; the transaction occupied
    /// the bus either way.
    pub fn end(&mut self, outcome: Option<BusError>) -> (r: Result<(), BusError>)
        requires
            old(self).wf(),
            old(self).busy,
            old(self).now < u64::MAX,
        ensures
            final(self).wf(),
            !final(self).busy,
            final(self).now == old(self).now + 1,
            final(self).log@ == old(self).log@.push(
                Transaction {
                    addr: old(self).open_addr,
                    start: old(self).open_start,
                    end: old(self).now,
                },
            ),
            r is Ok <==> outcome is None,
            outcome matches Some(e) ==> r == Err::<(), BusError>(e),
    {
        let t = Transaction { addr: self.open_addr, start: self.open_start, end: self.now };
        self.log.push(t);
        self.busy = false;
        self.now = self.now + 1;
        match outcome {
            None => Ok(()),
            Some(e) => Err(e),
        }
    }

    /// One whole transaction by `h`'s peripheral: claim, transfer, release.
    /// Exactly one entry is appended to the log, whatever the outcome.
    pub fn transact(&mut self, h: &BusHandle, outcome: Option<BusError>) -> (r: Result<
        (),
        BusError,
    >)
        requires
            old(self).wf(),
            !old(self).busy,
            old(self).now < u64::MAX - 1,
        ensures
            final(self).wf(),
            !final(self).busy,
            final(self).now == old(self).now + 2,
            final(self).log@ == old(self).log@.push(
                Transaction { addr: h.addr, start: old(self).now, end: (old(self).now + 1) as u64 },
            ),
            r is Ok <==> outcome is None,
            outcome matches Some(e) ==> r == Err::<(), BusError>(e),
    {
        self.begin(h);
        self.end(outcome)
    }
}

/// Arbitration invariant: in a well-formed log no two transactions overlap —
/// of any two, the earlier has ended before the later begins, whichever
/// peripherals they addressed and however their issuers interleaved.
pub proof fn lemma_no_overlap(a: BusArbiter, i: int, j: int)
    requires
        a.wf(),
        0 <= i < j < a.log@.len(),
    ensures
        a.log@[i].end <= a.log@[j].start,
    decreases j - i,
{
    if j == i + 1 {
        assert(a.log@[i].end <= a.log@[i + 1].start);
    } else {
        lemma_no_overlap(a, i, j - 1);
        assert(a.log@[j - 1].end <= a.log@[(j - 1) + 1].start);
    }
}

} // verus!
