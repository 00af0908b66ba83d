//! The order of Network events during a foreground navigation that waits for
//! load: what belongs to subresources leaves after the response of the
//! Document has begun.
use vstd::multiset::Multiset;
use vstd::prelude::*;

use crate::connection::background_output::BackgroundProtocolEvent;
use crate::scheduler::commands::DevToolsNavigationWait;
use crate::scheduler::output::ProtocolOutputSequence;

verus! {

/// The barrier, as a value.
pub struct NetworkBarrier {
    /// Whether the response of the Document has yet to begin.
    pub waiting: bool,
    /// What is held back, oldest first.
    pub parked: Seq<BackgroundProtocolEvent>,
}

impl NetworkBarrier {
    /// The barrier of a navigation.
    pub open spec fn of(wait: Option<DevToolsNavigationWait>) -> NetworkBarrier {
        NetworkBarrier { waiting: wait == Some(DevToolsNavigationWait::Load), parked: Seq::empty() }
    }

    /// The barrier after an event, and what leaves.
    pub open spec fn after_event(self, event: BackgroundProtocolEvent) -> (
        NetworkBarrier,
        Seq<BackgroundProtocolEvent>,
    ) {
        if !self.waiting {
            (self, seq![event])
        } else if event.facts.document_response_started {
            (
                NetworkBarrier { waiting: false, parked: Seq::empty() },
                seq![event] + self.parked,
            )
        } else if event.facts.non_document_network {
            (NetworkBarrier { parked: self.parked.push(event), ..self }, Seq::empty())
        } else {
            (self, seq![event])
        }
    }

    /// The barrier after several events, and what leaves.
    pub open spec fn after(self, events: Seq<BackgroundProtocolEvent>) -> (
        NetworkBarrier,
        Seq<BackgroundProtocolEvent>,
    )
        decreases events.len(),
    {
        if events.len() == 0 {
            (self, Seq::empty())
        } else {
            let (before, left) = self.after(events.drop_last());
            let (after, leaves) = before.after_event(events.last());
            (after, left + leaves)
        }
    }
}

/// Holds subresource events back until the response of the Document has begun.
pub struct ForegroundNavigationNetworkBarrier {
    pub wait_for_document_response_started: bool,
    pub pending_subresource_events: Vec<BackgroundProtocolEvent>,
}

impl View for ForegroundNavigationNetworkBarrier {
    type V = NetworkBarrier;

    open spec fn view(&self) -> NetworkBarrier {
        NetworkBarrier {
            waiting: self.wait_for_document_response_started,
            parked: self.pending_subresource_events@,
        }
    }
}

impl ForegroundNavigationNetworkBarrier {
    pub fn for_navigation_wait(wait: Option<DevToolsNavigationWait>) -> (barrier: Self)
        ensures
            barrier@ == NetworkBarrier::of(wait),
    {
        ForegroundNavigationNetworkBarrier {
            wait_for_document_response_started: match wait {
                Some(DevToolsNavigationWait::Load) => true,
                _ => false,
            },
            pending_subresource_events: Vec::new(),
        }
    }

    /// Places one event.
    pub fn route_event(&mut self, event: BackgroundProtocolEvent) -> (output:
        ProtocolOutputSequence)
        ensures
            (final(self)@, output@) == old(self)@.after_event(event),
    {
        if !self.wait_for_document_response_started {
            return ProtocolOutputSequence::from_background_event(event);
        }
        if event.facts.document_response_started {
            self.wait_for_document_response_started = false;
            let mut output = ProtocolOutputSequence::from_background_event(event);
            output.append(self.drain_pending());
            return output;
        }
        if event.facts.non_document_network {
            self.pending_subresource_events.push(event);
            return ProtocolOutputSequence::empty();
        }
        ProtocolOutputSequence::from_background_event(event)
    }

    /// Places several events, in their order.
    pub fn route_output(&mut self, output: ProtocolOutputSequence) -> (routed:
        ProtocolOutputSequence)
        ensures
            (final(self)@, routed@) == old(self)@.after(output@),
    {
        let ghost whole = output@;
        let mut routed = ProtocolOutputSequence::empty();
        for event in given: output.into_background_events()
            invariant
                given.seq() == whole,
                (self@, routed@) == old(self)@.after(whole.take(given.index() as int)),
        {
            proof {
                let upto = whole.take(given.index() + 1);
                assert(upto.drop_last() =~= whole.take(given.index() as int));
                assert(upto.last() == event);
            }
            routed.append(self.route_event(event));
        }
        assert(whole.take(whole.len() as int) =~= whole);
        routed
    }

    fn drain_pending(&mut self) -> (output: ProtocolOutputSequence)
        ensures
            output@ == old(self)@.parked,
            final(self)@ == (NetworkBarrier { parked: Seq::empty(), ..old(self)@ }),
    {
        let mut events: Vec<BackgroundProtocolEvent> = Vec::new();
        events.append(&mut self.pending_subresource_events);
        assert(events@ =~= old(self)@.parked);
        assert(self.pending_subresource_events@ =~= Seq::empty());
        ProtocolOutputSequence::from_background_events(events)
    }

    /// Ends the navigation: what is still held back leaves.
    pub fn finish(self) -> (output: ProtocolOutputSequence)
        ensures
            output@ == self@.parked,
    {
        ProtocolOutputSequence::from_background_events(self.pending_subresource_events)
    }
}

/// Nothing is lost or made up at the barrier: what has left and what is held
/// back is what came in and what was held back before.
pub proof fn law_barrier_conserves(barrier: NetworkBarrier, events: Seq<BackgroundProtocolEvent>)
    ensures
        barrier.after(events).1.to_multiset().add(barrier.after(events).0.parked.to_multiset())
            =~= barrier.parked.to_multiset().add(events.to_multiset()),
    decreases events.len(),
{
    broadcast use vstd::seq_lib::group_to_multiset_ensures;

    let none = Seq::<BackgroundProtocolEvent>::empty();
    assert(none.to_multiset() =~= Multiset::empty());
    if events.len() == 0 {
        assert(events =~= none);
    } else {
        law_barrier_conserves(barrier, events.drop_last());
        let event = events.last();
        let (before, left) = barrier.after(events.drop_last());
        let (after, leaves) = before.after_event(event);
        assert(events =~= events.drop_last().push(event));
        assert(seq![event] =~= none.push(event));
        vstd::seq_lib::lemma_multiset_commutative(left, leaves);
        vstd::seq_lib::lemma_multiset_commutative(seq![event], before.parked);
        assert(leaves.to_multiset().add(after.parked.to_multiset())
            =~= before.parked.to_multiset().insert(event));
        assert((left + leaves).to_multiset().add(after.parked.to_multiset())
            =~= left.to_multiset().add(before.parked.to_multiset()).insert(event));
    }
}

/// The events that are held back: those of subresources.
pub open spec fn of_subresources() -> spec_fn(BackgroundProtocolEvent) -> bool {
    |event: BackgroundProtocolEvent|
        event.facts.non_document_network && !event.facts.document_response_started
}

/// The events that are never held back.
pub open spec fn of_others() -> spec_fn(BackgroundProtocolEvent) -> bool {
    |event: BackgroundProtocolEvent| !of_subresources()(event)
}

/// Whether the response of the Document begins among some events.
pub open spec fn response_begins(events: Seq<BackgroundProtocolEvent>) -> bool {
    exists|at: int|
        0 <= at < events.len() && (#[trigger] events[at]).facts.document_response_started
}

/// Filtering one event more.
proof fn lemma_filter_push(
    events: Seq<BackgroundProtocolEvent>,
    kept: spec_fn(BackgroundProtocolEvent) -> bool,
)
    requires
        events.len() > 0,
    ensures
        events.filter(kept) == events.drop_last().filter(kept) + (if kept(events.last()) {
            seq![events.last()]
        } else {
            Seq::empty()
        }),
{
    reveal(Seq::filter);
    assert(events.filter(kept) =~= events.drop_last().filter(kept) + (if kept(events.last()) {
        seq![events.last()]
    } else {
        Seq::empty()
    }));
}

/// What is held back is all of subresources.
proof fn lemma_held(held: Seq<BackgroundProtocolEvent>)
    requires
        forall|at: int| 0 <= at < held.len() ==> of_subresources()(#[trigger] held[at]),
    ensures
        held.filter(of_subresources()) == held,
        held.filter(of_others()) == Seq::<BackgroundProtocolEvent>::empty(),
    decreases held.len(),
{
    reveal(Seq::filter);
    if held.len() > 0 {
        let front = held.drop_last();
        assert forall|at: int| 0 <= at < front.len() implies of_subresources()(
            #[trigger] front[at],
        ) by {
            assert(of_subresources()(held[at]));
        }
        lemma_held(front);
        assert(of_subresources()(held[held.len() - 1]));
        assert(front.push(held.last()) =~= held);
    } else {
        assert(held.filter(of_subresources()) =~= held);
    }
}

impl NetworkBarrier {
    /// Whether the barrier is one that events can have led to: only what belongs
    /// to subresources is held back, and nothing once the response has begun.
    pub open spec fn inv(self) -> bool {
        &&& !self.waiting ==> self.parked.len() == 0
        &&& forall|at: int|
            0 <= at < self.parked.len() ==> of_subresources()(#[trigger] self.parked[at])
    }
}

/// A barrier begins as one that events can have led to, and stays one. It waits
/// until the response of the Document has begun, and once it has, nothing is
/// held back.
pub proof fn law_begun_response_holds_nothing(
    wait: Option<DevToolsNavigationWait>,
    barrier: NetworkBarrier,
    events: Seq<BackgroundProtocolEvent>,
)
    requires
        barrier.inv(),
    ensures
        NetworkBarrier::of(wait).inv(),
        barrier.after(events).0.inv(),
        barrier.after(events).0.waiting == (barrier.waiting && !response_begins(events)),
        response_begins(events) ==> barrier.after(events).0.parked.len() == 0,
    decreases events.len(),
{
    if events.len() > 0 {
        let front = events.drop_last();
        law_begun_response_holds_nothing(wait, barrier, front);
        let last = events.len() - 1;
        if response_begins(front) {
            let at = choose|at: int|
                0 <= at < front.len() && (#[trigger] front[at]).facts.document_response_started;
            assert(events[at].facts.document_response_started);
        }
        if response_begins(events) && !events[last].facts.document_response_started {
            let at = choose|at: int|
                0 <= at < events.len() && (#[trigger] events[at]).facts.document_response_started;
            assert(front[at].facts.document_response_started);
        }
        if events[last].facts.document_response_started {
            assert(response_begins(events));
        }
    }
}

/// The barrier keeps the order of events: those of subresources leave, or are
/// held back, in the order in which they came, what was held back before first,
/// and all others leave in the order in which they came.
pub proof fn law_barrier_keeps_order(barrier: NetworkBarrier, events: Seq<BackgroundProtocolEvent>)
    requires
        barrier.inv(),
    ensures
        barrier.after(events).1.filter(of_subresources()) + barrier.after(events).0.parked
            == barrier.parked + events.filter(of_subresources()),
        barrier.after(events).1.filter(of_others()) == events.filter(of_others()),
    decreases events.len(),
{
    let none = Seq::<BackgroundProtocolEvent>::empty();
    let (after, leaves) = barrier.after(events);
    reveal(Seq::filter);
    if events.len() == 0 {
        assert(events.filter(of_subresources()) =~= none);
        assert(events.filter(of_others()) =~= none);
        assert(none + barrier.parked =~= barrier.parked + none);
    } else {
        let front = events.drop_last();
        let event = events.last();
        let (before, left) = barrier.after(front);
        let (_, more) = before.after_event(event);
        law_barrier_keeps_order(barrier, front);
        law_begun_response_holds_nothing(None, barrier, front);
        lemma_filter_push(events, of_subresources());
        lemma_filter_push(events, of_others());
        Seq::filter_distributes_over_add(left, more, of_subresources());
        Seq::filter_distributes_over_add(left, more, of_others());
        lemma_filter_push(seq![event], of_subresources());
        lemma_filter_push(seq![event], of_others());
        assert(seq![event].drop_last() =~= none);
        lemma_held(before.parked);
        Seq::filter_distributes_over_add(seq![event], before.parked, of_subresources());
        Seq::filter_distributes_over_add(seq![event], before.parked, of_others());
        let earlier = left.filter(of_subresources());
        let came = barrier.parked + front.filter(of_subresources());
        let tail = if of_subresources()(event) {
            seq![event]
        } else {
            none
        };
        assert(earlier + before.parked == came);
        assert(barrier.parked + events.filter(of_subresources()) =~= came + tail);
        assert(more.filter(of_subresources()) + after.parked =~= before.parked + tail) by {
            if before.waiting && !event.facts.document_response_started
                && event.facts.non_document_network {
                assert(more.filter(of_subresources()) =~= none);
                assert(before.parked.push(event) =~= before.parked + seq![event]);
            } else {
                assert(none + tail =~= tail);
                assert(tail + before.parked =~= before.parked + tail);
            }
        }
        assert(leaves.filter(of_subresources()) + after.parked =~= earlier + (more.filter(
            of_subresources(),
        ) + after.parked));
        assert(earlier + (before.parked + tail) =~= (earlier + before.parked) + tail);
        assert(leaves.filter(of_others()) =~= events.filter(of_others()));
    }
}

/// Without a wait for the load, all events leave as they came.
pub proof fn law_no_load_wait_passes_all(
    wait: Option<DevToolsNavigationWait>,
    events: Seq<BackgroundProtocolEvent>,
)
    requires
        wait != Some(DevToolsNavigationWait::Load),
    ensures
        NetworkBarrier::of(wait).after(events) == (NetworkBarrier::of(wait), events),
    decreases events.len(),
{
    if events.len() > 0 {
        law_no_load_wait_passes_all(wait, events.drop_last());
        assert(events.drop_last() + seq![events.last()] =~= events);
    } else {
        assert(events =~= Seq::<BackgroundProtocolEvent>::empty());
    }
}

/// While the response of the Document has yet to begin, no subresource event
/// leaves.
pub proof fn law_subresources_wait(
    barrier: NetworkBarrier,
    events: Seq<BackgroundProtocolEvent>,
    at: int,
)
    requires
        barrier.after(events).0.waiting,
        0 <= at < barrier.after(events).1.len(),
    ensures
        !barrier.after(events).1[at].facts.non_document_network,
    decreases events.len(),
{
    if events.len() > 0 {
        let (before, left) = barrier.after(events.drop_last());
        if at < left.len() {
            law_subresources_wait(barrier, events.drop_last(), at);
        }
    }
}

} // verus!
