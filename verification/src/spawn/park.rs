//! The park of a thread spawner: an unyield that comes while the service is not parked is kept,
//! so that the next yield skips instead of waiting; a kept unyield is never lost, and several
//! unyields before a yield let only that one yield skip.
use vstd::prelude::*;

verus! {

/// Whether an unyield is waiting for the next yield.
#[derive(Clone, Copy, Debug, PartialEq, Eq, Structural)]
pub struct ParkFlag {
    pub unparked: bool,
}

impl ParkFlag {
    pub open spec fn spec_unyield(self) -> (ParkFlag, bool) {
        (ParkFlag { unparked: true }, !self.unparked)
    }

    pub open spec fn spec_pass(self) -> (ParkFlag, bool) {
        (ParkFlag { unparked: false }, self.unparked)
    }

    /// No unyield is waiting.
    pub fn new() -> (r: ParkFlag)
        ensures
            !r.unparked,
    {
        ParkFlag { unparked: false }
    }

    /// Keeps an unyield; tells whether the parked thread must be notified (no unyield was
    /// waiting already).
    pub fn unyield(&mut self) -> (notify: bool)
        ensures
            (*final(self), notify) == old(self).spec_unyield(),
            final(self).unparked,
            notify == !old(self).unparked,
    {
        let notify = !self.unparked;
        self.unparked = true;
        notify
    }

    /// Whether a yield can go on now, taking the waiting unyield; when it cannot, the thread
    /// waits for a notify and asks again.
    pub fn pass(&mut self) -> (passes: bool)
        ensures
            (*final(self), passes) == old(self).spec_pass(),
            !final(self).unparked,
            passes == old(self).unparked,
    {
        let passes = self.unparked;
        self.unparked = false;
        passes
    }
}

/// No lost unyield: whatever the flag, a yield that comes after an unyield goes on at once.
pub proof fn lemma_unyield_then_yield_passes(f: ParkFlag)
    ensures
        f.spec_unyield().0.spec_pass().1,
        !f.spec_unyield().0.spec_pass().0.unparked,
{
}

/// Unyields coalesce: after two unyields, the first yield goes on and the second one waits.
pub proof fn lemma_unyields_coalesce(f: ParkFlag)
    ensures
        ({
            let g = f.spec_unyield().0.spec_unyield().0;
            &&& g.spec_pass().1
            &&& !g.spec_pass().0.spec_pass().1
        }),
        !f.spec_unyield().0.spec_unyield().1,
{
}

/// A yield never leaves an unyield waiting, whether it went on or not: so after a yield that
/// had to wait, the next unyield asks for a notify (no lost wake-up), and without an unyield
/// in between no second yield goes on.
pub proof fn lemma_pass_leaves_nothing_waiting(f: ParkFlag)
    ensures
        !f.spec_pass().0.unparked,
        f.spec_pass().0.spec_unyield().1,
        !f.spec_pass().0.spec_pass().1,
        f.spec_pass().1 <==> f.unparked,
{
}

} // verus!
