//! Laws on how the scheduler places events around navigations in flight.
use vstd::prelude::*;

use crate::connection::background_output::BackgroundProtocolEvent;
use crate::scheduler::state;
use crate::scheduler::state::SchedulerModel;

verus! {

/// Whether an event leaves at once.
pub open spec fn passes(scheduler: SchedulerModel, event: BackgroundProtocolEvent) -> bool {
    state::is_current(event, scheduler.routes) && !(scheduler.inflight()
        && event.facts.waits_for_navigation)
}

/// Whether an event waits for the navigations in flight.
pub open spec fn is_held(scheduler: SchedulerModel, event: BackgroundProtocolEvent) -> bool {
    state::is_current(event, scheduler.routes) && scheduler.inflight()
        && event.facts.waits_for_navigation
}

/// The events that leave at once.
pub open spec fn passing(
    scheduler: SchedulerModel,
    events: Seq<BackgroundProtocolEvent>,
) -> Seq<BackgroundProtocolEvent> {
    events.filter(|event: BackgroundProtocolEvent| passes(scheduler, event))
}

/// The events that wait for the navigations in flight.
pub open spec fn held(
    scheduler: SchedulerModel,
    events: Seq<BackgroundProtocolEvent>,
) -> Seq<BackgroundProtocolEvent> {
    events.filter(|event: BackgroundProtocolEvent| is_held(scheduler, event))
}

/// Placing events keeps their order, among those that leave and among those
/// that wait, and changes nothing else.
pub proof fn law_routing_keeps_order(
    scheduler: SchedulerModel,
    events: Seq<BackgroundProtocolEvent>,
)
    ensures
        scheduler.routed(events).1 == passing(scheduler, events),
        scheduler.routed(events).0 == (SchedulerModel {
            parked: scheduler.parked + held(scheduler, events),
            ..scheduler
        }),
    decreases events.len(),
{
    reveal(Seq::filter);
    if events.len() == 0 {
        assert(scheduler.parked + held(scheduler, events) =~= scheduler.parked);
    } else {
        let earlier = events.drop_last();
        law_routing_keeps_order(scheduler, earlier);
        let before = scheduler.routed(earlier).0;
        let leaves = before.routed_one(events.last()).1;
        assert(before.inflight() == scheduler.inflight());
        assert(scheduler.routed(earlier).1 + leaves =~= passing(scheduler, events));
        assert(before.routed_one(events.last()).0.parked =~= scheduler.parked + held(
            scheduler,
            events,
        ));
    }
}

/// Every event that still leads anywhere leaves or waits, once.
pub proof fn law_routing_loses_nothing(
    scheduler: SchedulerModel,
    events: Seq<BackgroundProtocolEvent>,
)
    ensures
        passing(scheduler, events).to_multiset().add(held(scheduler, events).to_multiset())
            =~= state::current_part(events, scheduler.routes).to_multiset(),
    decreases events.len(),
{
    broadcast use vstd::seq_lib::group_to_multiset_ensures;

    reveal(Seq::filter);
    if events.len() > 0 {
        let earlier = events.drop_last();
        law_routing_loses_nothing(scheduler, earlier);
        let left = passing(scheduler, earlier).to_multiset();
        let kept = held(scheduler, earlier).to_multiset();
        let last = events.last();
        if passes(scheduler, last) {
            assert(left.insert(last).add(kept) =~= left.add(kept).insert(last));
        } else if is_held(scheduler, last) {
            assert(left.add(kept.insert(last)) =~= left.add(kept).insert(last));
        }
    }
}

/// While a navigation is in flight, no event passes it that must not.
pub proof fn law_nothing_passes_a_navigation(
    scheduler: SchedulerModel,
    events: Seq<BackgroundProtocolEvent>,
    at: int,
)
    requires
        scheduler.inflight(),
        0 <= at < scheduler.routed(events).1.len(),
    ensures
        !scheduler.routed(events).1[at].facts.waits_for_navigation,
{
    broadcast use vstd::seq_lib::group_filter_ensures;

    law_routing_keeps_order(scheduler, events);
    let may_pass = |event: BackgroundProtocolEvent| passes(scheduler, event);
    assert(may_pass(events.filter(may_pass)[at]));
}

/// The held part of events still leads where it did.
proof fn lemma_held_is_current(scheduler: SchedulerModel, events: Seq<BackgroundProtocolEvent>)
    ensures
        state::current_part(held(scheduler, events), scheduler.routes) == held(scheduler, events),
    decreases events.len(),
{
    reveal(Seq::filter);
    if events.len() > 0 {
        let earlier = events.drop_last();
        lemma_held_is_current(scheduler, earlier);
        if is_held(scheduler, events.last()) {
            assert(held(scheduler, events).drop_last() =~= held(scheduler, earlier));
        }
    }
}

/// What was placed while a navigation was in flight has all left, each event
/// once and those that waited in the order they came, when what waited is let
/// go with the routes unchanged.
pub proof fn law_release_delivers_all(
    scheduler: SchedulerModel,
    events: Seq<BackgroundProtocolEvent>,
    gate: Map<u64, u64>,
)
    requires
        scheduler.parked.len() == 0,
    ensures
        ({
            let (after, left) = scheduler.routed(events);
            let released = (SchedulerModel { gate, ..after }).unparked();
            &&& released.0.parked.len() == 0
            &&& released.1 == held(scheduler, events)
            &&& left.to_multiset().add(released.1.to_multiset()) =~= state::current_part(
                events,
                scheduler.routes,
            ).to_multiset()
        }),
{
    law_routing_keeps_order(scheduler, events);
    law_routing_loses_nothing(scheduler, events);
    lemma_held_is_current(scheduler, events);
    assert(scheduler.parked + held(scheduler, events) =~= held(scheduler, events));
}

} // verus!
