use vstd::prelude::*;

verus! {

use crate::outcome::Outcome;
use crate::tally::{Tally, add_outcome};

/// What a connection driver asks its runner to do next.
#[derive(Clone, Copy, Debug, PartialEq, Eq, Structural)]
pub enum Action {
    /// Issue one GET attempt and report its outcome through `complete`.
    Send,
    /// The loop is over: take the tally with `into_tally`.
    Finish,
}

/// One sequential request pipeline. The deadline admits new attempts; at most
/// one attempt is outstanding at a time.
pub struct Driver {
    tally: Tally,
    end_ns: u64,
    in_flight: bool,
    stopped: bool,
}

impl Driver {
    pub closed spec fn wf(&self) -> bool {
        self.tally.wf() && !(self.in_flight && self.stopped)
    }

    pub closed spec fn tally_spec(&self) -> Tally {
        self.tally
    }

    pub closed spec fn deadline(&self) -> u64 {
        self.end_ns
    }

    /// Whether an attempt has been admitted and its outcome not yet reported.
    pub closed spec fn outstanding(&self) -> bool {
        self.in_flight
    }

    /// Whether the driver has left its loop.
    pub closed spec fn finished(&self) -> bool {
        self.stopped
    }

    /// A driver whose loop admits attempts while the clock reads below `end_ns`.
    pub fn new(end_ns: u64) -> (r: Driver)
        ensures
            r.wf(),
            r.deadline() == end_ns,
            !r.outstanding(),
            !r.finished(),
            r.tally_spec()@ == crate::tally::empty_model(),
            r.tally_spec().history@.len() == 0,
    {
        Driver { tally: Tally::new(), end_ns, in_flight: false, stopped: false }
    }

    /// The loop check: with no attempt outstanding, admit one when `now_ns` is
    /// before the deadline, otherwise leave the loop for good.
    pub fn poll(&mut self, now_ns: u64) -> (r: Action)
        requires
            old(self).wf(),
            !old(self).outstanding(),
        ensures
            final(self).wf(),
            final(self).deadline() == old(self).deadline(),
            final(self).tally_spec() == old(self).tally_spec(),
            r == Action::Send <==> (!old(self).finished() && now_ns < old(self).deadline()),
            r == Action::Send ==> final(self).outstanding() && !final(self).finished(),
            r == Action::Finish ==> !final(self).outstanding() && final(self).finished(),
    {
        if !self.stopped && now_ns < self.end_ns {
            self.in_flight = true;
            Action::Send
        } else {
            self.stopped = true;
            Action::Finish
        }
    }

    /// Reports the outcome of the outstanding attempt. It is counted; should a
    /// counter have no room left for it, it is dropped and the loop ends.
    pub fn complete(&mut self, o: Outcome) -> (counted: bool)
        requires
            old(self).wf(),
            old(self).outstanding(),
        ensures
            final(self).wf(),
            !final(self).outstanding(),
            final(self).deadline() == old(self).deadline(),
            counted == old(self).tally_spec().room_for(o),
            counted ==> final(self).tally_spec()@ == add_outcome(old(self).tally_spec()@, o)
                && final(self).tally_spec().history@ == old(self).tally_spec().history@.push(o)
                && !final(self).finished(),
            !counted ==> final(self).tally_spec() == old(self).tally_spec()
                && final(self).finished(),
    {
        self.in_flight = false;
        if self.tally.has_room_for(&o) {
            self.tally.record(o);
            true
        } else {
            self.stopped = true;
            false
        }
    }

    /// The tally the driver returns when its loop ends.
    pub fn into_tally(self) -> (r: Tally)
        requires
            self.wf(),
        ensures
            r == self.tally_spec(),
            r.wf(),
    {
        self.tally
    }
}

} // verus!
