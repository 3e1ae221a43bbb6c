//! The probe state machine for one target.
//!
//! A `Prober` owns a target's attempt sequence: it hands out one outcome per
//! attempt, numbered `0, 1, ...` up to the configured attempt count, and
//! never stops early — a failed attempt produces its outcome and the
//! sequence moves on. The network work itself happens outside the library:
//! the caller performs one resolution and one connect attempt per step and
//! reports what happened as an [`AttemptEvent`]; `record` turns it into the
//! attempt's [`Outcome`]. The ghost `emitted` history ties the outcomes a
//! run produced to the state machine's invariant.

use vstd::prelude::*;

use crate::outcome::AttemptEvent;
use crate::outcome::Outcome;
use crate::outcome::outcome_for;
use crate::outcome::outcome_matches_event;

verus! {

/// Per-target probe sequence: emits `count` outcomes, one per attempt.
pub struct Prober {
    pub host: String,
    pub count: usize,
    pub next_seq: usize,
    /// History of the outcomes this prober has produced, in order.
    pub emitted: Ghost<Seq<Outcome>>,
}

impl Prober {
    pub open spec fn wf(&self) -> bool {
        &&& self.next_seq <= self.count
        &&& self.emitted@.len() == self.next_seq
        &&& forall|i: int|
            0 <= i < self.emitted@.len() ==> (#[trigger] self.emitted@[i]).host@ == self.host@
                && self.emitted@[i].sequence_number as int == i
    }

    /// A fresh prober for one normalized target, with no attempt made yet.
    pub fn new(host: String, count: usize) -> (p: Prober)
        ensures
            p.wf(),
            p.host@ == host@,
            p.count == count,
            p.next_seq == 0,
            p.emitted@ == Seq::<Outcome>::empty(),
    {
        Prober { host, count, next_seq: 0, emitted: Ghost(Seq::empty()) }
    }

    /// Whether all `count` attempts have produced their outcome.
    pub fn done(&self) -> (d: bool)
        ensures
            d == (self.next_seq == self.count),
    {
        self.next_seq == self.count
    }

    /// The normalized target this prober probes.
    pub fn target(&self) -> (h: &String)
        ensures
            h@ == self.host@,
    {
        &self.host
    }

    /// Records what the current attempt observed and returns the attempt's
    /// outcome, carrying this target's name and the attempt's sequence
    /// number. Every attempt — success or failure — produces exactly one
    /// outcome, and the sequence advances by one.
    pub fn record(&mut self, event: AttemptEvent) -> (o: Outcome)
        requires
            old(self).wf(),
            old(self).next_seq < old(self).count,
        ensures
            final(self).wf(),
            final(self).host@ == old(self).host@,
            final(self).count == old(self).count,
            final(self).next_seq == old(self).next_seq + 1,
            final(self).emitted@ == old(self).emitted@.push(o),
            o.host@ == old(self).host@,
            o.sequence_number == old(self).next_seq,
            outcome_matches_event(o, event),
    {
        let o = outcome_for(&self.host, self.next_seq, event);
        proof {
            self.emitted@ = self.emitted@.push(o);
        }
        self.next_seq = self.next_seq + 1;
        o
    }
}

/// A completed probe run emitted exactly `count` outcomes, all for this
/// prober's target, with sequence numbers `0 .. count-1` in order, each
/// sequence number appearing exactly once — whatever mix of successes and
/// failures the attempts saw.
pub proof fn lemma_probe_emits_full_sequence(p: &Prober)
    requires
        p.wf(),
        p.next_seq == p.count,
    ensures
        p.emitted@.len() == p.count,
        forall|i: int|
            0 <= i < p.count ==> (#[trigger] p.emitted@[i]).host@ == p.host@
                && p.emitted@[i].sequence_number as int == i,
        forall|i: int, j: int|
            #![trigger p.emitted@[i], p.emitted@[j]]
            0 <= i < p.emitted@.len() && 0 <= j < p.emitted@.len() && i != j
                ==> p.emitted@[i].sequence_number != p.emitted@[j].sequence_number,
{
}

} // verus!
