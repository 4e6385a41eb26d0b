use vstd::prelude::*;

verus! {

use crate::outcome::Outcome;

/// The mathematical value of a tally: five unbounded counters.
pub struct TallyModel {
    pub requests: nat,
    pub successes: nat,
    pub errors: nat,
    pub bytes: nat,
    pub latency_ns: nat,
}

pub open spec fn empty_model() -> TallyModel {
    TallyModel { requests: 0, successes: 0, errors: 0, bytes: 0, latency_ns: 0 }
}

/// The tally after one more outcome: one more request, a success or an error,
/// bytes from a success only, latency from every outcome.
pub open spec fn add_outcome(m: TallyModel, o: Outcome) -> TallyModel {
    TallyModel {
        requests: m.requests + 1,
        successes: if o is Success { m.successes + 1 } else { m.successes },
        errors: if o is Success { m.errors } else { m.errors + 1 },
        bytes: m.bytes + o.bytes_spec() as nat,
        latency_ns: m.latency_ns + o.latency_spec() as nat,
    }
}

/// The tally of a sequence of outcomes, in order.
pub open spec fn tally_of(s: Seq<Outcome>) -> TallyModel
    decreases s.len(),
{
    if s.len() == 0 {
        empty_model()
    } else {
        add_outcome(tally_of(s.drop_last()), s.last())
    }
}

/// A connection driver's local accumulator. `history` holds the outcomes
/// recorded so far; the counters are always their tally.
pub struct Tally {
    pub requests: u64,
    pub successes: u64,
    pub errors: u64,
    pub bytes: u64,
    pub total_latency_ns: u64,
    pub history: Ghost<Seq<Outcome>>,
}

impl Tally {
    pub open spec fn view(&self) -> TallyModel {
        TallyModel {
            requests: self.requests as nat,
            successes: self.successes as nat,
            errors: self.errors as nat,
            bytes: self.bytes as nat,
            latency_ns: self.total_latency_ns as nat,
        }
    }

    /// The counters are exactly the tally of the recorded outcomes.
    pub open spec fn wf(&self) -> bool {
        self@ == tally_of(self.history@)
    }

    /// Whether one more `o` can be counted without any counter leaving `u64`.
    pub open spec fn room_for(&self, o: Outcome) -> bool {
        self.requests < u64::MAX
            && self.bytes + o.bytes_spec() <= u64::MAX
            && self.total_latency_ns + o.latency_spec() <= u64::MAX
    }

    /// An empty tally.
    pub fn new() -> (r: Tally)
        ensures
            r.wf(),
            r.history@ == Seq::<Outcome>::empty(),
            r@ == empty_model(),
    {
        Tally {
            requests: 0,
            successes: 0,
            errors: 0,
            bytes: 0,
            total_latency_ns: 0,
            history: Ghost(Seq::empty()),
        }
    }

    /// Executable form of `room_for`.
    pub fn has_room_for(&self, o: &Outcome) -> (r: bool)
        ensures
            r == self.room_for(*o),
    {
        let lat = o.latency_ns();
        let b: u64 = match o {
            Outcome::Success { bytes, .. } => *bytes,
            _ => 0,
        };
        self.requests < u64::MAX && b <= u64::MAX - self.bytes && lat <= u64::MAX
            - self.total_latency_ns
    }

    /// Counts one outcome.
    pub fn record(&mut self, o: Outcome)
        requires
            old(self).wf(),
            old(self).room_for(o),
        ensures
            final(self).wf(),
            final(self).history@ == old(self).history@.push(o),
            final(self)@ == add_outcome(old(self)@, o),
    {
        proof {
            lemma_tally_balanced(self.history@);
        }
        self.requests = self.requests + 1;
        self.total_latency_ns = self.total_latency_ns + o.latency_ns();
        match o {
            Outcome::Success { bytes, .. } => {
                self.successes = self.successes + 1;
                self.bytes = self.bytes + bytes;
            },
            _ => {
                self.errors = self.errors + 1;
            },
        }
        self.history = Ghost(self.history@.push(o));
        assert(self.history@.drop_last() =~= old(self).history@);
    }
}

/// Every tally is balanced: its requests are its successes plus its errors.
pub proof fn lemma_tally_balanced(s: Seq<Outcome>)
    ensures
        tally_of(s).requests == tally_of(s).successes + tally_of(s).errors,
        tally_of(s).requests == s.len(),
    decreases s.len(),
{
    if s.len() > 0 {
        lemma_tally_balanced(s.drop_last());
    }
}

/// Bytes accumulate from successes only: a run with no success has moved no bytes.
pub proof fn lemma_bytes_only_from_successes(s: Seq<Outcome>)
    requires
        forall|i: int| 0 <= i < s.len() ==> !(s[i] is Success),
    ensures
        tally_of(s).bytes == 0,
        tally_of(s).successes == 0,
    decreases s.len(),
{
    if s.len() > 0 {
        lemma_bytes_only_from_successes(s.drop_last());
    }
}

/// A run in which every attempt timed out has made requests, no success,
/// as many errors as requests, and moved no bytes.
pub proof fn lemma_all_timeouts(s: Seq<Outcome>)
    requires
        s.len() > 0,
        forall|i: int| 0 <= i < s.len() ==> s[i] is Timeout,
    ensures
        tally_of(s).requests > 0,
        tally_of(s).successes == 0,
        tally_of(s).errors == tally_of(s).requests,
        tally_of(s).bytes == 0,
{
    lemma_tally_balanced(s);
    lemma_bytes_only_from_successes(s);
}

} // verus!
