//! Background navigations that have started and not been drained yet.
use vstd::prelude::*;

use crate::tables::IdTable;

verus! {

/// The cancellations of the listed navigations that are pending, each once, in
/// the order of the list.
pub open spec fn cancelled(pending: Map<u64, u64>, superseded: Seq<u64>) -> Seq<u64>
    decreases superseded.len(),
{
    if superseded.len() == 0 {
        Seq::empty()
    } else {
        let before = cancelled(pending, superseded.drop_last());
        let key = superseded.last();
        if pending.contains_key(key) && !superseded.drop_last().contains(key) {
            before.push(pending[key])
        } else {
            before
        }
    }
}

/// The pending navigations without the listed ones.
pub open spec fn without(pending: Map<u64, u64>, superseded: Seq<u64>) -> Map<u64, u64> {
    Map::new(|key: u64| pending.contains_key(key) && !superseded.contains(key), |key: u64| pending[key])
}

/// Navigations in flight, by their key, with what cancels each.
pub struct BackgroundNavigationGate {
    pub pending: IdTable<u64>,
}

impl View for BackgroundNavigationGate {
    type V = Map<u64, u64>;

    open spec fn view(&self) -> Map<u64, u64> {
        self.pending@
    }
}

impl BackgroundNavigationGate {
    pub open spec fn wf(&self) -> bool {
        self.pending.wf()
    }

    pub fn new() -> (gate: BackgroundNavigationGate)
        ensures
            gate.wf(),
            gate@ == Map::<u64, u64>::empty(),
    {
        BackgroundNavigationGate { pending: IdTable::new() }
    }

    pub fn has_inflight_navigation(&self) -> (inflight: bool)
        requires
            self.wf(),
        ensures
            inflight == (self@ != Map::<u64, u64>::empty()),
    {
        let inflight = self.pending.len() > 0;
        proof {
            self.pending.lemma_count();
            if self@.dom().len() == 0 {
                assert(self@ =~= Map::<u64, u64>::empty());
            } else {
                assert(Map::<u64, u64>::empty().dom() =~= Set::empty());
            }
        }
        inflight
    }

    /// A navigation has started. The listed ones, which it supersedes, are no
    /// longer waited for, and are to be cancelled. A navigation that is known
    /// already changes nothing.
    pub fn note_navigation_started(&mut self, key: u64, cancellation: u64, superseded: &Vec<u64>) -> (
    cancel: Vec<u64>)
        requires
            old(self).wf(),
        ensures
            final(self).wf(),
            if old(self)@.contains_key(key) {
                final(self)@ == old(self)@ && cancel@ == Seq::<u64>::empty()
            } else {
                &&& final(self)@ == without(old(self)@, superseded@).insert(key, cancellation)
                &&& cancel@ == cancelled(old(self)@, superseded@)
            },
    {
        let mut cancel: Vec<u64> = Vec::new();
        if self.pending.contains(key) {
            return cancel;
        }
        let mut index: usize = 0;
        assert(without(old(self)@, superseded@.take(0)) =~= old(self)@);
        while index < superseded.len()
            invariant
                self.wf(),
                index <= superseded.len(),
                self@ == without(old(self)@, superseded@.take(index as int)),
                cancel@ == cancelled(old(self)@, superseded@.take(index as int)),
            decreases superseded.len() - index,
        {
            let ghost before = superseded@.take(index as int);
            let ghost upto = superseded@.take(index + 1);
            assert(upto.drop_last() =~= before);
            assert(upto.last() == superseded@[index as int]);
            assert(upto =~= before.push(superseded@[index as int]));
            assert forall|known: u64| #[trigger]
                upto.contains(known) == (before.contains(known) || known
                    == superseded@[index as int]) by {
                if before.contains(known) {
                    let at = choose|at: int| 0 <= at < before.len() && before[at] == known;
                    assert(upto[at] == known);
                }
                if known == superseded@[index as int] {
                    assert(upto[index as int] == known);
                }
            }
            if let Some(cancellation) = self.pending.remove(superseded[index]) {
                cancel.push(cancellation);
            }
            assert(self@ =~= without(old(self)@, upto));
            index += 1;
        }
        assert(superseded@.take(superseded@.len() as int) =~= superseded@);
        self.pending.insert(key, cancellation);
        cancel
    }

    /// The completion of a navigation has been drained. An unknown one changes
    /// nothing.
    pub fn note_navigation_completion_drained(&mut self, key: u64)
        requires
            old(self).wf(),
        ensures
            final(self).wf(),
            final(self)@ == old(self)@.remove(key),
    {
        self.pending.remove(key);
    }
}

/// A navigation that has started is in flight until it is drained, and drained
/// it is not.
pub proof fn law_gate_opens_and_closes(pending: Map<u64, u64>, key: u64, cancellation: u64)
    requires
        !pending.contains_key(key),
    ensures
        pending.insert(key, cancellation).contains_key(key),
        pending.insert(key, cancellation).remove(key) == pending,
{
    assert(pending.insert(key, cancellation).remove(key) =~= pending);
}

} // verus!
