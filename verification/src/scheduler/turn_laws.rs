//! What the turns of the scheduler promise, said of the events, the navigations
//! in flight and the queue themselves.
use vstd::prelude::*;

use crate::connection::background_output::BackgroundProtocolEvent;
use crate::scheduler::gate;
use crate::scheduler::publications::RendererOutputCursor;
use crate::scheduler::residences;
use crate::scheduler::residences::{
    ClientTurnPredecessor, ProtocolSchedulerStep, ProtocolSchedulerWork,
    ProtocolSchedulerWorkKind, Residence, Waiting,
};
use crate::scheduler::runs::{RunKind, RunModel};
use crate::scheduler::state;
use crate::scheduler::state::{CdpSchedulerEvent, CdpTurnOutcome, SchedulerModel};

verus! {

/// A navigation is in flight exactly while one is listed.
proof fn lemma_inflight(scheduler: SchedulerModel)
    ensures
        scheduler.inflight() <==> exists|key: u64| #[trigger] scheduler.gate.contains_key(key),
{
    let none = Map::<u64, u64>::empty();
    if forall|key: u64| !#[trigger] scheduler.gate.contains_key(key) {
        assert(scheduler.gate =~= none);
    }
    if exists|key: u64| #[trigger] scheduler.gate.contains_key(key) {
        let key = choose|key: u64| #[trigger] scheduler.gate.contains_key(key);
        assert(!none.contains_key(key));
    }
}

/// An event that was frozen with a route that no longer leads anywhere is
/// dropped. Of the others, one that must not pass a navigation waits behind
/// those that wait already, while a navigation is in flight; every other leaves
/// at once.
pub proof fn law_event_leaves_waits_or_is_dropped(
    scheduler: SchedulerModel,
    event: BackgroundProtocolEvent,
)
    ensures
        ({
            let (after, leaves) = scheduler.routed_one(event);
            let leads = event.facts.route is None || exists|at: int|
                0 <= at < scheduler.routes.len() && #[trigger] scheduler.routes[at]
                    == event.facts.route->Some_0;
            let inflight = exists|key: u64| #[trigger] scheduler.gate.contains_key(key);
            &&& !leads ==> leaves.len() == 0 && after == scheduler
            &&& leads && inflight && event.facts.waits_for_navigation ==> leaves.len() == 0
                && after.parked == scheduler.parked.push(event)
            &&& leads && !(inflight && event.facts.waits_for_navigation) ==> leaves == seq![event]
                && after == scheduler
            &&& after.gate == scheduler.gate
            &&& after.queue == scheduler.queue
            &&& after.routes == scheduler.routes
        }),
{
    lemma_inflight(scheduler);
    if event.facts.route is Some {
        let route = event.facts.route->Some_0;
        if scheduler.routes.contains(route) {
            let at = choose|at: int|
                0 <= at < scheduler.routes.len() && scheduler.routes[at] == route;
            assert(scheduler.routes[at] == route);
        }
    }
}

/// The events that waited are let go together, in their order, each asked again
/// whether its route still leads anywhere.
pub proof fn law_waiting_events_are_let_go(scheduler: SchedulerModel)
    ensures
        scheduler.unparked().0.parked.len() == 0,
        scheduler.unparked().1 == scheduler.parked.filter(
            |event: BackgroundProtocolEvent|
                event.facts.route is None || scheduler.routes.contains(event.facts.route->Some_0),
        ),
        scheduler.unparked().0.gate == scheduler.gate,
        scheduler.unparked().0.queue == scheduler.queue,
{
    let leads = |event: BackgroundProtocolEvent|
        event.facts.route is None || scheduler.routes.contains(event.facts.route->Some_0);
    let current = |event: BackgroundProtocolEvent| state::is_current(event, scheduler.routes);
    assert(leads =~= current);
}

/// Whether a cancellation is that of a navigation in flight that is listed.
pub open spec fn cancels_one_of(
    pending: Map<u64, u64>,
    listed: Seq<u64>,
    cancellation: u64,
) -> bool {
    exists|key: u64|
        pending.contains_key(key) && #[trigger] listed.contains(key) && pending[key]
            == cancellation
}

/// The cancellations are those of the navigations that are superseded.
proof fn lemma_cancelled(pending: Map<u64, u64>, superseded: Seq<u64>)
    ensures
        forall|key: u64|
            pending.contains_key(key) && #[trigger] superseded.contains(key) ==> gate::cancelled(
                pending,
                superseded,
            ).contains(pending[key]),
        forall|at: int|
            0 <= at < gate::cancelled(pending, superseded).len() ==> cancels_one_of(
                pending,
                superseded,
                #[trigger] gate::cancelled(pending, superseded)[at],
            ),
        gate::cancelled(pending, superseded).len() <= superseded.len(),
    decreases superseded.len(),
{
    if superseded.len() > 0 {
        let front = superseded.drop_last();
        let last = superseded.last();
        let before = gate::cancelled(pending, front);
        let all = gate::cancelled(pending, superseded);
        lemma_cancelled(pending, front);
        assert(superseded[superseded.len() - 1] == last);
        assert forall|key: u64| pending.contains_key(key) && #[trigger] superseded.contains(
            key,
        ) implies all.contains(pending[key]) by {
            if front.contains(key) {
                assert(before.contains(pending[key]));
                let at = choose|at: int| 0 <= at < before.len() && before[at] == pending[key];
                assert(all[at] == pending[key]);
            } else {
                let at = choose|at: int| 0 <= at < superseded.len() && superseded[at] == key;
                if at < front.len() {
                    assert(front[at] == key);
                }
                assert(key == last);
                assert(all[before.len() as int] == pending[key]);
            }
        }
        assert forall|at: int| 0 <= at < all.len() implies cancels_one_of(
            pending,
            superseded,
            #[trigger] all[at],
        ) by {
            if at < before.len() {
                assert(all[at] == before[at]);
                assert(cancels_one_of(pending, front, before[at]));
                let key = choose|key: u64|
                    pending.contains_key(key) && #[trigger] front.contains(key) && pending[key]
                        == before[at];
                let place = choose|place: int| 0 <= place < front.len() && front[place] == key;
                assert(superseded[place] == key);
                assert(superseded.contains(key));
            } else {
                assert(superseded.contains(last));
            }
        }
    }
}

/// A navigation that starts is in flight, the ones that it supersedes no longer
/// are, and all others still are. The cancellations of exactly those that were
/// in flight and are superseded are added behind the earlier ones. A navigation
/// that is in flight already changes nothing.
pub proof fn law_started_navigation_supersedes(
    scheduler: SchedulerModel,
    event: CdpSchedulerEvent,
    after_loads: Seq<u64>,
    future: Option<u64>,
    other: u64,
)
    requires
        event is BackgroundNavigationStarted,
    ensures
        ({
            let key = event->BackgroundNavigationStarted_key;
            let superseded = event->superseded@;
            let after = scheduler.applied_one(event, after_loads, future);
            &&& scheduler.gate.contains_key(key) ==> after == scheduler
            &&& !scheduler.gate.contains_key(key) ==> {
                &&& after.gate.contains_key(key)
                &&& after.gate[key] == event->cancellation
                &&& other != key ==> (after.gate.contains_key(other)
                    <==> scheduler.gate.contains_key(other) && !superseded.contains(other))
                &&& other != key && after.gate.contains_key(other) ==> after.gate[other]
                    == scheduler.gate[other]
                &&& scheduler.cancellations.is_prefix_of(after.cancellations)
                &&& scheduler.gate.contains_key(other) && superseded.contains(other)
                    ==> after.cancellations.skip(scheduler.cancellations.len() as int).contains(
                    scheduler.gate[other],
                )
                &&& forall|at: int|
                    scheduler.cancellations.len() <= at < after.cancellations.len()
                        ==> cancels_one_of(
                        scheduler.gate,
                        superseded,
                        #[trigger] after.cancellations[at],
                    )
                &&& after.queue == scheduler.queue
                &&& after.parked == scheduler.parked
            }
        }),
{
    let superseded = event->superseded@;
    let after = scheduler.applied_one(event, after_loads, future);
    lemma_cancelled(scheduler.gate, superseded);
    if !scheduler.gate.contains_key(event->BackgroundNavigationStarted_key) {
        let added = gate::cancelled(scheduler.gate, superseded);
        assert(after.cancellations.skip(scheduler.cancellations.len() as int) =~= added);
        assert forall|at: int|
            scheduler.cancellations.len() <= at
                < after.cancellations.len() implies cancels_one_of(
            scheduler.gate,
            superseded,
            #[trigger] after.cancellations[at],
        ) by {
            assert(after.cancellations[at] == added[at - scheduler.cancellations.len()]);
        }
    }
}

/// A navigation whose completion was drained is no longer in flight once it is
/// over; all others still are.
pub proof fn law_drained_navigation_is_over(
    scheduler: SchedulerModel,
    gate_key: Option<u64>,
    is_terminal: bool,
    other: u64,
)
    ensures
        ({
            let after = scheduler.drained(gate_key, is_terminal);
            &&& after.gate.contains_key(other) <==> scheduler.gate.contains_key(other) && !(
            is_terminal && gate_key == Some(other))
            &&& after.gate.contains_key(other) ==> after.gate[other] == scheduler.gate[other]
            &&& after.parked == scheduler.parked
            &&& after.queue == scheduler.queue
        }),
{
}

/// Work that is published waits at the end of the queue, for the loads that come
/// before it and for a turn of the clients.
pub proof fn law_published_work_waits_last(
    scheduler: SchedulerModel,
    work: ProtocolSchedulerWork,
    after_loads: Seq<u64>,
    future: Option<u64>,
)
    ensures
        ({
            let after = scheduler.applied_one(
                CdpSchedulerEvent::ProtocolWorkPublished { work },
                after_loads,
                future,
            );
            &&& after.queue.len() == scheduler.queue.len() + 1
            &&& after.queue.drop_last() == scheduler.queue
            &&& after.queue.last().content == Waiting::Work(work)
            &&& after.queue.last().client_turn == ClientTurnPredecessor::Pending
            &&& after.queue.last().after == after_loads
            &&& after.gate == scheduler.gate
            &&& after.parked == scheduler.parked
        }),
{
    let after = scheduler.applied_one(
        CdpSchedulerEvent::ProtocolWorkPublished { work },
        after_loads,
        future,
    );
    assert(after.queue.drop_last() =~= scheduler.queue);
}

/// What a turn asks of the scheduler is carried out before its events are
/// placed: a navigation that the turn starts holds back what must not pass it,
/// though the turn itself has brought it.
pub proof fn law_turn_starts_before_its_events_leave(
    scheduler: SchedulerModel,
    outcome: CdpTurnOutcome,
    at: int,
)
    requires
        outcome.scheduler_events@.len() == 1,
        outcome.scheduler_events@[0] is BackgroundNavigationStarted,
        0 <= at < scheduler.turned(outcome).1.len(),
    ensures
        !scheduler.turned(outcome).1[at].facts.waits_for_navigation,
        outcome.events@.contains(scheduler.turned(outcome).1[at]),
{
    broadcast use vstd::seq_lib::group_filter_ensures;

    let events = outcome.scheduler_events@;
    let started = scheduler.applied(events, Seq::empty(), None);
    assert(events.drop_last() =~= Seq::empty());
    assert(scheduler.applied(events.drop_last(), Seq::empty(), None) == scheduler);
    assert(started == scheduler.applied_one(events[0], Seq::empty(), None));
    let key = events[0]->BackgroundNavigationStarted_key;
    assert(started.gate.contains_key(key));
    lemma_inflight(started);
    crate::scheduler::laws::law_nothing_passes_a_navigation(started, outcome.events@, at);
    crate::scheduler::laws::law_routing_keeps_order(started, outcome.events@);
    let may_pass = |event: BackgroundProtocolEvent|
        crate::scheduler::laws::passes(started, event);
    lemma_kept_is_given(outcome.events@, may_pass, at);
}

/// What a filter keeps was given.
proof fn lemma_kept_is_given(
    events: Seq<BackgroundProtocolEvent>,
    kept: spec_fn(BackgroundProtocolEvent) -> bool,
    at: int,
)
    requires
        0 <= at < events.filter(kept).len(),
    ensures
        events.contains(events.filter(kept)[at]),
    decreases events.len(),
{
    reveal(Seq::filter);
    if events.len() > 0 {
        let front = events.drop_last();
        if at < front.filter(kept).len() {
            lemma_kept_is_given(front, kept, at);
            let place = choose|place: int|
                0 <= place < front.len() && front[place] == front.filter(kept)[at];
            assert(events[place] == events.filter(kept)[at]);
        } else {
            assert(events[events.len() - 1] == events.filter(kept)[at]);
        }
    }
}

/// The events of a turn leave before those behind renderer output, and those
/// before the ones behind the answer, each placed as the scheduler then stands.
pub proof fn law_turn_places_events_in_order(scheduler: SchedulerModel, outcome: CdpTurnOutcome)
    ensures
        ({
            let asked = scheduler.applied(outcome.scheduler_events@, Seq::empty(), None);
            let (after, leaves, later) = scheduler.turned(outcome);
            &&& leaves == asked.routed(outcome.events@).1
            &&& later == asked.routed(outcome.events@).0.routed(
                outcome.post_renderer_output_events@ + outcome.post_response_events@,
            ).1
            &&& after.gate == asked.gate
            &&& after.queue == asked.queue
        }),
{
    let asked = scheduler.applied(outcome.scheduler_events@, Seq::empty(), None);
    let behind = outcome.post_renderer_output_events@ + outcome.post_response_events@;
    crate::scheduler::laws::law_routing_keeps_order(asked, outcome.events@);
    crate::scheduler::laws::law_routing_keeps_order(asked.routed(outcome.events@).0, behind);
}

/// Nothing of the queue runs while a navigation is in flight. Otherwise its
/// front is given its turn of the clients, and completes once it has had one and
/// waits for no load any more; nothing overtakes it.
pub proof fn law_front_runs_when_nothing_comes_first(scheduler: SchedulerModel)
    ensures
        ({
            let step = scheduler.next_step();
            let inflight = exists|key: u64| #[trigger] scheduler.gate.contains_key(key);
            &&& step == ProtocolSchedulerStep::CompleteReadyResidence <==> !inflight
                && scheduler.queue.len() > 0 && scheduler.queue[0].client_turn
                == ClientTurnPredecessor::Satisfied && scheduler.queue[0].after.len() == 0
            &&& step == ProtocolSchedulerStep::SatisfyClientTurnPredecessor <==> !inflight
                && scheduler.queue.len() > 0 && scheduler.queue[0].client_turn
                == ClientTurnPredecessor::Pending
        }),
{
    lemma_inflight(scheduler);
}

/// A load is taken out of the queue only from its front, when no navigation is
/// in flight, the load has happened, and it waits for no other load; it is then
/// the one that waited there. Otherwise nothing leaves the queue.
pub proof fn law_load_is_taken_from_the_front(scheduler: SchedulerModel)
    ensures
        ({
            let (after, taken) = scheduler.load_taken();
            let inflight = exists|key: u64| #[trigger] scheduler.gate.contains_key(key);
            &&& taken matches Some(work) ==> {
                &&& !inflight
                &&& scheduler.queue.len() > 0
                &&& scheduler.queue[0].content == Waiting::Work(work)
                &&& work.kind == ProtocolSchedulerWorkKind::MainDocumentLoadFactProjection
                &&& work.is_ready
                &&& scheduler.queue[0].after.len() == 0
                &&& after.queue == scheduler.queue.skip(1)
            }
            &&& !inflight && scheduler.queue.len() > 0 && scheduler.queue[0].after.len() == 0 && (
            scheduler.queue[0].content matches Waiting::Work(work) && work.kind
                == ProtocolSchedulerWorkKind::MainDocumentLoadFactProjection && work.is_ready)
                ==> taken is Some
            &&& taken is None ==> after.queue.len() == scheduler.queue.len() && forall|at: int|
                0 <= at < scheduler.queue.len() ==> (#[trigger] after.queue[at]).content
                    == scheduler.queue[at].content && after.queue[at].after
                    == scheduler.queue[at].after && (at > 0 ==> after.queue[at]
                    == scheduler.queue[at])
            &&& after.gate == scheduler.gate
            &&& after.parked == scheduler.parked
        }),
{
    lemma_inflight(scheduler);
    if scheduler.queue.len() > 0 {
        let turned = residences::front_turned(scheduler.queue);
        assert(turned.skip(1) =~= scheduler.queue.skip(1));
    }
}

/// What a filter keeps of numbers.
proof fn lemma_others(observations: Seq<u64>, observation: u64, waited: u64)
    ensures
        residences::others(observations, observation).contains(waited) <==> observations.contains(
            waited,
        ) && waited != observation,
    decreases observations.len(),
{
    reveal(Seq::filter);
    if observations.len() > 0 {
        let front = observations.drop_last();
        let last = observations.last();
        let before = residences::others(front, observation);
        let all = residences::others(observations, observation);
        lemma_others(front, observation, waited);
        assert(observations[observations.len() - 1] == last);
        if front.contains(waited) {
            let at = choose|at: int| 0 <= at < front.len() && front[at] == waited;
            assert(observations[at] == waited);
        }
        if observations.contains(waited) && waited != last {
            let at = choose|at: int| 0 <= at < observations.len() && observations[at] == waited;
            assert(front[at] == waited);
        }
        if last != observation {
            assert(all =~= before.push(last));
            assert(all[before.len() as int] == last);
            if before.contains(waited) {
                let at = choose|at: int| 0 <= at < before.len() && before[at] == waited;
                assert(all[at] == waited);
            }
            if all.contains(waited) && waited != last {
                let at = choose|at: int| 0 <= at < all.len() && all[at] == waited;
                assert(before[at] == waited);
            }
        }
    }
}

/// Once a load was observed nothing waits for it any more, and everything waits
/// for all else that it waited for.
pub proof fn law_observed_load_is_no_longer_waited_for(
    queue: Seq<Residence>,
    observation: u64,
    at: int,
    waited: u64,
)
    requires
        0 <= at < queue.len(),
    ensures
        ({
            let after = residences::load_observed(queue, observation);
            &&& after.len() == queue.len()
            &&& after[at].content == queue[at].content
            &&& after[at].client_turn == queue[at].client_turn
            &&& after[at].future == queue[at].future
            &&& after[at].after.contains(waited) <==> queue[at].after.contains(waited) && waited
                != observation
        }),
{
    lemma_others(queue[at].after, observation, waited);
}

/// After a command nothing is completed while a navigation is in flight or a
/// dialog is open: what was taken out goes back to the front, in its order.
pub proof fn law_blocked_run_completes_nothing(run: RunModel, scheduler: SchedulerModel)
    requires
        run.kind == RunKind::AfterCommand,
        (exists|key: u64| #[trigger] scheduler.gate.contains_key(key)) || scheduler.dialog,
    ensures
        ({
            let (after, placed, work) = run.advanced(scheduler);
            &&& work is None
            &&& after.output == run.output
            &&& after.snapshot.len() == 0
            &&& placed.queue == run.snapshot + scheduler.queue
            &&& placed.parked == scheduler.parked
        }),
{
    lemma_inflight(scheduler);
    if run.snapshot.len() == 0 {
        assert(run.snapshot + scheduler.queue =~= scheduler.queue);
    }
}

/// What a run does with the first that it took out, where it is not blocked. One
/// that waits for a load goes back to the front of the queue with all behind it,
/// having had its turn of the clients; so does, while a load is waited for, the
/// showing of a load that has not happened. Work is handed out. Output is placed,
/// and the run goes on with the rest.
pub proof fn law_run_completes_the_first(run: RunModel, scheduler: SchedulerModel)
    requires
        run.snapshot.len() > 0,
        !(run.kind == RunKind::AfterCommand && ((exists|key: u64| #[trigger]
            scheduler.gate.contains_key(key)) || scheduler.dialog)),
    ensures
        ({
            let (after, placed, work) = run.advanced(scheduler);
            let first = run.snapshot[0];
            let early = run.kind == RunKind::LoadWait && (first.content matches Waiting::Work(shows)
                && shows.kind == ProtocolSchedulerWorkKind::MainDocumentLoadFactProjection
                && !shows.is_ready);
            &&& first.after.len() > 0 || early ==> {
                &&& work is None
                &&& after.output == run.output
                &&& placed.queue.len() == run.snapshot.len() + scheduler.queue.len()
                &&& placed.queue[0].content == first.content
                &&& placed.queue[0].after == first.after
                &&& placed.queue[0].client_turn == ClientTurnPredecessor::Satisfied
                &&& placed.queue.skip(1) == run.snapshot.skip(1) + scheduler.queue
            }
            &&& first.after.len() == 0 && !early ==> {
                &&& first.content matches Waiting::Work(shows) ==> work == Some(shows)
                    && after.snapshot == run.snapshot.skip(1) && after.output == run.output
                    && placed == scheduler
                &&& first.content matches Waiting::Output { events, .. } ==> run.advanced(scheduler)
                    == (RunModel {
                    kind: run.kind,
                    snapshot: run.snapshot.skip(1),
                    output: run.output + scheduler.routed(events).1,
                }).advanced(scheduler.routed(events).0)
            }
        }),
{
    lemma_inflight(scheduler);
    let (after, placed, work) = run.advanced(scheduler);
    let first = run.snapshot[0];
    let rest = run.snapshot.skip(1);
    if run.keeps(first.after_client_turn()) {
        let back = seq![first.after_client_turn()] + rest;
        assert(placed.queue =~= back + scheduler.queue);
        assert(placed.queue.skip(1) =~= rest + scheduler.queue);
    }
}

/// Work that showed a load takes that load from all that waited for it, and what
/// it has brought leaves in the order of its turn.
pub proof fn law_done_work_ends_its_load(
    scheduler: SchedulerModel,
    work: ProtocolSchedulerWork,
    outcome: CdpTurnOutcome,
    at: int,
    waited: u64,
)
    requires
        0 <= at < scheduler.turned(outcome).0.queue.len(),
    ensures
        ({
            let (turned, leaves, later) = scheduler.turned(outcome);
            let (after, left) = scheduler.worked(work, outcome);
            &&& left == leaves + later
            &&& after.queue.len() == turned.queue.len()
            &&& after.queue[at].content == turned.queue[at].content
            &&& after.queue[at].after.contains(waited) <==> turned.queue[at].after.contains(waited)
                && work.main_document_load_observation_id != Some(waited)
        }),
{
    let turned = scheduler.turned(outcome).0;
    if let Some(id) = work.main_document_load_observation_id {
        law_observed_load_is_no_longer_waited_for(turned.queue, id, at, waited);
    }
}

/// A renderer stream has been projected as far as each of its own positions, and
/// all before them, and no further; other streams say nothing of it.
pub proof fn law_projection_reaches_its_position(
    projected: Seq<RendererOutputCursor>,
    cursor: RendererOutputCursor,
    at: int,
)
    ensures
        0 <= at < projected.len() && projected[at].stream == cursor.stream && cursor.position
            <= projected[at].position ==> state::reaches(projected, cursor),
        (forall|place: int|
            0 <= place < projected.len() && (#[trigger] projected[place]).stream == cursor.stream
                ==> projected[place].position < cursor.position) ==> !state::reaches(
            projected,
            cursor,
        ),
{
}

/// Output of a renderer stream is told by its stream and by its position, which
/// may be the one that is asked for or an earlier one. Work is never output.
pub proof fn law_output_is_told_by_its_stream(residence: Residence, cursor: RendererOutputCursor)
    ensures
        residence.content is Work ==> !residence.is_output_upto(cursor),
        residence.content matches Waiting::Output { cursor: at, .. } ==> (residence.is_output_upto(
            cursor,
        ) <==> at.stream == cursor.stream && at.position <= cursor.position),
{
}

} // verus!
