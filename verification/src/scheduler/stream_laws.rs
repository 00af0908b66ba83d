//! What becomes of renderer output on its way in, said of the publications, the
//! streams and the events themselves.
use vstd::prelude::*;

use crate::connection::background_output::BackgroundProtocolEvent;
use crate::lists;
use crate::scheduler::fences::{
    CompletionModel, CompletionStep, FenceKind, FenceModel, FenceStep,
};
use crate::scheduler::ingress;
use crate::scheduler::ingress::RendererIngress;
use crate::scheduler::inputs;
use crate::scheduler::inputs::{
    BrowserHostExecutionWake, CdpSchedulerInterleavedInput, InterleavedAction, OwnerSelection,
};
use crate::scheduler::output;
use crate::scheduler::publications;
use crate::scheduler::publications::{
    PublicationBuffer, RendererOutputCursor, RendererOutputItem, RendererOutputTransportMessage,
};
use crate::scheduler::residences::{ClientTurnPredecessor, Residence, Waiting};
use crate::scheduler::state::{CdpTurnOutcome, SchedulerModel};

verus! {

/// What arrives passes, or is held back behind what is held already. Controls
/// always pass. A publication passes where its stream is the one that is let
/// through, which then is no longer blocked, and where no navigation is in
/// flight. Otherwise it is held back where its stream is blocked or where it
/// shows the commit of a main Document, and from then on its stream is blocked.
pub proof fn law_replacement_streams_are_held_back(
    buffer: PublicationBuffer,
    message: RendererOutputTransportMessage,
    gate_open: bool,
    released_stream: Option<u64>,
)
    ensures
        ({
            let (after, passed) = buffer.arrived(message, gate_open, released_stream);
            &&& message !is Publication ==> passed == Some(message) && after == buffer
            &&& message matches RendererOutputTransportMessage::Publication(publication) ==> {
                let stream = publication.cursor.stream;
                let commits = exists|at: int|
                    0 <= at < publication.records@.len() && #[trigger] publication.records@[at]
                        == RendererOutputItem::MainDocumentCommit;
                &&& released_stream == Some(stream) ==> passed == Some(message) && after.held
                    == buffer.held && !after.blocked.contains(stream)
                &&& released_stream != Some(stream) && !gate_open ==> passed == Some(message)
                    && after == buffer
                &&& released_stream != Some(stream) && gate_open && (buffer.blocked.contains(stream)
                    || commits) ==> passed is None && after.held == buffer.held.push(message)
                    && after.blocked.contains(stream)
                &&& released_stream != Some(stream) && gate_open && !buffer.blocked.contains(stream)
                    && !commits ==> passed == Some(message) && after.held == buffer.held
                    && !after.blocked.contains(stream)
                &&& forall|other: u64|
                    other != stream ==> (#[trigger] after.blocked.contains(other)
                        <==> buffer.blocked.contains(other))
            }
        }),
{
    if let RendererOutputTransportMessage::Publication(publication) = message {
        if publication.records@.contains(RendererOutputItem::MainDocumentCommit) {
            let at = choose|at: int|
                0 <= at < publication.records@.len() && publication.records@[at]
                    == RendererOutputItem::MainDocumentCommit;
            assert(publication.records@[at] == RendererOutputItem::MainDocumentCommit);
        }
    }
}

/// Where something holds somewhere there is a first place.
proof fn lemma_first_message(
    messages: Seq<RendererOutputTransportMessage>,
    holds: spec_fn(RendererOutputTransportMessage) -> bool,
)
    ensures
        lists::first_where(messages, holds) matches Some(first) ==> 0 <= first < messages.len()
            && holds(messages[first]) && forall|earlier: int|
            0 <= earlier < first ==> !holds(#[trigger] messages[earlier]),
        lists::first_where(messages, holds) is None ==> forall|at: int|
            0 <= at < messages.len() ==> !holds(#[trigger] messages[at]),
{
    match lists::first_where(messages, holds) {
        Some(first) => {
            assert(exists|at: int| lists::is_first(messages, holds, at));
            assert(lists::is_first(messages, holds, first));
        },
        None => {
            assert forall|at: int| 0 <= at < messages.len() implies !holds(
                #[trigger] messages[at],
            ) by {
                if holds(messages[at]) {
                    lemma_some_first(messages, holds, at);
                }
            }
        },
    }
}

proof fn lemma_some_first(
    messages: Seq<RendererOutputTransportMessage>,
    holds: spec_fn(RendererOutputTransportMessage) -> bool,
    at: int,
)
    requires
        0 <= at < messages.len(),
        holds(messages[at]),
    ensures
        lists::first_where(messages, holds) is Some,
    decreases at,
{
    if forall|earlier: int| 0 <= earlier < at ==> !holds(#[trigger] messages[earlier]) {
        assert(lists::is_first(messages, holds, at));
    } else {
        let earlier = choose|earlier: int|
            0 <= earlier < at && holds(#[trigger] messages[earlier]);
        lemma_some_first(messages, holds, earlier);
    }
}

/// Once no navigation is in flight everything that is held back goes, oldest
/// first, and no stream is blocked. While one is, the oldest goes that belongs
/// to no blocked stream; where all belong to one, none goes.
pub proof fn law_held_output_goes_when_it_may(buffer: PublicationBuffer, gate_open: bool)
    ensures
        ({
            let (after, released) = buffer.released(gate_open);
            &&& !gate_open ==> after.blocked == Set::<u64>::empty()
            &&& !gate_open && buffer.held.len() > 0 ==> released == Some(buffer.held[0])
                && after.held == buffer.held.remove(0)
            &&& !gate_open && buffer.held.len() == 0 ==> released is None
            &&& gate_open ==> after.blocked == buffer.blocked
            &&& gate_open && released is Some ==> exists|at: int|
                0 <= at < buffer.held.len() && (#[trigger] buffer.held[at]) == released->Some_0
                    && after.held == buffer.held.remove(at) && !(
                buffer.held[at] matches RendererOutputTransportMessage::Publication(publication)
                    && buffer.blocked.contains(publication.cursor.stream)) && forall|earlier: int|
                    0 <= earlier < at ==> ((
                    #[trigger] buffer.held[earlier]) matches RendererOutputTransportMessage::Publication(
                        publication,
                    ) && buffer.blocked.contains(publication.cursor.stream))
            &&& gate_open && released is None ==> after.held == buffer.held && forall|at: int|
                0 <= at < buffer.held.len() ==> ((
                #[trigger] buffer.held[at]) matches RendererOutputTransportMessage::Publication(
                    publication,
                ) && buffer.blocked.contains(publication.cursor.stream))
        }),
{
    let free = |message: RendererOutputTransportMessage|
        publications::is_free(message, buffer.blocked);
    lemma_first_message(buffer.held, free);
    if gate_open {
        if let Some(at) = lists::first_where(buffer.held, free) {
            assert(free(buffer.held[at]));
            assert forall|earlier: int| 0 <= earlier < at implies ((
            #[trigger] buffer.held[earlier]) matches RendererOutputTransportMessage::Publication(
                publication,
            ) && buffer.blocked.contains(publication.cursor.stream)) by {
                assert(!free(buffer.held[earlier]));
            }
        } else {
            assert forall|at: int| 0 <= at < buffer.held.len() implies ((
            #[trigger] buffer.held[at]) matches RendererOutputTransportMessage::Publication(
                publication,
            ) && buffer.blocked.contains(publication.cursor.stream)) by {
                assert(!free(buffer.held[at]));
            }
        }
    }
}

/// A fence is given what is held of its own stream, oldest first. That of a
/// navigation unblocks its stream; any other gets nothing of a stream that is
/// blocked. What is held of the stream is not passed over.
pub proof fn law_fence_is_given_its_stream(buffer: PublicationBuffer, stream: u64, unblocks: bool)
    ensures
        ({
            let (after, released) = buffer.released_for(stream, unblocks);
            let may_go = unblocks || !buffer.blocked.contains(stream);
            let is_its = |message: RendererOutputTransportMessage|
                message matches RendererOutputTransportMessage::Publication(publication)
                    && publication.cursor.stream == stream;
            &&& unblocks ==> after.blocked == buffer.blocked.remove(stream)
            &&& !unblocks ==> after.blocked == buffer.blocked
            &&& released is Some ==> may_go && exists|at: int|
                0 <= at < buffer.held.len() && (#[trigger] buffer.held[at]) == released->Some_0
                    && is_its(buffer.held[at]) && after.held == buffer.held.remove(at)
                    && forall|earlier: int|
                    0 <= earlier < at ==> !is_its(#[trigger] buffer.held[earlier])
            &&& released is None ==> after.held == buffer.held
            &&& released is None && may_go ==> forall|at: int|
                0 <= at < buffer.held.len() ==> !is_its(#[trigger] buffer.held[at])
        }),
{
    let blocked = if unblocks {
        buffer.blocked.remove(stream)
    } else {
        buffer.blocked
    };
    let wanted = |message: RendererOutputTransportMessage|
        message.stream() == Some(stream) && !blocked.contains(stream);
    let is_its = |message: RendererOutputTransportMessage|
        message matches RendererOutputTransportMessage::Publication(publication)
            && publication.cursor.stream == stream;
    lemma_first_message(buffer.held, wanted);
    let (after, released) = buffer.released_for(stream, unblocks);
    if let Some(at) = lists::first_where(buffer.held, wanted) {
        assert(wanted(buffer.held[at]));
        assert forall|earlier: int| 0 <= earlier < at implies !is_its(
            #[trigger] buffer.held[earlier],
        ) by {
            assert(!wanted(buffer.held[earlier]));
        }
        assert(buffer.held[at] == released->Some_0);
    } else if unblocks || !buffer.blocked.contains(stream) {
        assert forall|at: int| 0 <= at < buffer.held.len() implies !is_its(
            #[trigger] buffer.held[at],
        ) by {
            assert(!wanted(buffer.held[at]));
        }
    }
}

/// A fence is reached exactly when its stream has been projected as far as its
/// position. Until then it takes in what is held of its stream, and waits for
/// more where nothing is.
pub proof fn law_fence_waits_for_its_position(
    fence: FenceModel,
    scheduler: SchedulerModel,
    buffer: PublicationBuffer,
)
    ensures
        ({
            let (after, step) = fence.next(scheduler, buffer);
            let reached = exists|at: int|
                0 <= at < scheduler.projected.len() && (#[trigger] scheduler.projected[at]).stream
                    == fence.cursor.stream && fence.cursor.position
                    <= scheduler.projected[at].position;
            &&& step is Complete <==> reached
            &&& reached ==> after == buffer
            &&& step matches FenceStep::Ingest(message) ==> (
            message matches RendererOutputTransportMessage::Publication(publication)
                && publication.cursor.stream == fence.cursor.stream)
        }),
{
    let stream = fence.cursor.stream;
    law_fence_is_given_its_stream(buffer, stream, fence.kind.unblocks());
}

/// The fence before the answer or the end of a navigation unblocks its stream;
/// one before another command does not. When the transport ends before a fence,
/// the error names what the fence stood before.
pub proof fn law_fences_are_told_by_what_they_stand_before(fence: FenceModel)
    ensures
        fence.kind == FenceKind::Command ==> fence.unblocked() is None && fence.kind.boundary()
            == "the command predecessor was projected"@,
        fence.kind == FenceKind::NavigationAnswer ==> fence.unblocked() == Some(fence.cursor.stream)
            && fence.kind.boundary() == "the navigation renderer boundary was projected"@,
        fence.kind == FenceKind::NavigationCompletion ==> fence.unblocked() == Some(
            fence.cursor.stream,
        ) && fence.kind.boundary() == "navigation completion"@,
{
}

/// What arrives at a fence goes in where it passes; where it is held back the
/// fence goes on with what is held.
pub proof fn law_fence_takes_in_what_arrives(
    fence: FenceModel,
    scheduler: SchedulerModel,
    buffer: PublicationBuffer,
    message: RendererOutputTransportMessage,
)
    ensures
        ({
            let (after, step) = fence.next_with(scheduler, buffer, message);
            let (held, passed) = buffer.arrived(message, scheduler.inflight(), fence.unblocked());
            &&& passed is Some ==> step == FenceStep::Ingest(message) && after == held
            &&& passed is None ==> (after, step) == fence.next(scheduler, held)
            &&& message !is Publication ==> step == FenceStep::Ingest(message)
        }),
{
    law_replacement_streams_are_held_back(
        buffer,
        message,
        scheduler.inflight(),
        fence.unblocked(),
    );
}

/// After the boundary of a navigation has passed, what was held back goes as far
/// as it may, and then the end is reached. Where the transport has ended, nothing
/// more is taken in.
pub proof fn law_held_output_goes_after_the_boundary(
    completion: CompletionModel,
    scheduler: SchedulerModel,
    buffer: PublicationBuffer,
)
    ensures
        ({
            let (after, step) = completion.next(scheduler, buffer);
            let (left, released) = buffer.released(scheduler.inflight());
            &&& completion is Release && released is Some ==> after == left && step
                == CompletionStep::Ingest(released->Some_0)
            &&& completion is Release && released is None ==> after == left && step is Done
            &&& completion is Failed ==> after == buffer && step is Done
            &&& completion is Fence ==> step !is Done
        }),
{
}

/// What leaves before the boundary of a navigation that has completed is what
/// left earlier, then what its turn has brought, then, where no navigation is in
/// flight any more, what waited for it and still leads anywhere. While one is,
/// what waits goes on waiting. Behind the boundary stand the tail of the turn and
/// what was published meanwhile.
pub proof fn law_completion_lets_go_what_waited(
    scheduler: SchedulerModel,
    earlier: Seq<BackgroundProtocolEvent>,
    published: Seq<BackgroundProtocolEvent>,
    gate_key: Option<u64>,
    is_terminal: bool,
    outcome: CdpTurnOutcome,
)
    ensures
        ({
            let (placed, prefix, suffix) = scheduler.completed(
                earlier,
                published,
                gate_key,
                is_terminal,
                outcome,
            );
            let (turned, leaves, later) = scheduler.drained(gate_key, is_terminal).turned(outcome);
            let inflight = exists|key: u64| #[trigger] turned.gate.contains_key(key);
            &&& (earlier + leaves).is_prefix_of(prefix)
            &&& later.is_prefix_of(suffix)
            &&& inflight ==> prefix == earlier + leaves && turned.parked.is_prefix_of(placed.parked)
            &&& !inflight ==> prefix == earlier + leaves + turned.parked.filter(
                |event: BackgroundProtocolEvent|
                    event.facts.route is None || turned.routes.contains(event.facts.route->Some_0),
            )
            &&& placed.gate == turned.gate
            &&& placed.queue == turned.queue
        }),
{
    let (turned, leaves, later) = scheduler.drained(gate_key, is_terminal).turned(outcome);
    let none = Map::<u64, u64>::empty();
    if forall|key: u64| !#[trigger] turned.gate.contains_key(key) {
        assert(turned.gate =~= none);
    }
    if exists|key: u64| #[trigger] turned.gate.contains_key(key) {
        let key = choose|key: u64| #[trigger] turned.gate.contains_key(key);
        assert(!none.contains_key(key));
        assert(turned.inflight());
        ingress::lemma_routed_keeps_queue(turned, published);
        assert(earlier + leaves + Seq::<BackgroundProtocolEvent>::empty() =~= earlier + leaves);
    } else {
        crate::scheduler::turn_laws::law_waiting_events_are_let_go(turned);
        ingress::lemma_routed_keeps_queue(turned.unparked().0, published);
    }
}

/// The loads that waiting work wants to precede a publication are those of the
/// work that is listed, and no others.
pub proof fn law_queued_loads_are_those_of_listed_work(
    queue: Seq<Residence>,
    queueing: Seq<u64>,
    load: u64,
)
    ensures
        ingress::queued_loads(queue, queueing).contains(load) <==> exists|at: int|
            0 <= at < queue.len() && ((#[trigger] queue[at]).content matches Waiting::Work(work)
                && work.main_document_load_observation_id == Some(load) && queueing.contains(
                work.publish_sequence,
            )),
    decreases queue.len(),
{
    if queue.len() > 0 {
        let front = queue.drop_last();
        let last = queue.len() - 1;
        let before = ingress::queued_loads(front, queueing);
        let all = ingress::queued_loads(queue, queueing);
        law_queued_loads_are_those_of_listed_work(front, queueing, load);
        if before.contains(load) {
            let at = choose|at: int|
                0 <= at < front.len() && ((#[trigger] front[at]).content matches Waiting::Work(work)
                    && work.main_document_load_observation_id == Some(load) && queueing.contains(
                    work.publish_sequence,
                ));
            assert(queue[at] == front[at]);
            let place = choose|place: int| 0 <= place < before.len() && before[place] == load;
            assert(all[place] == load);
        }
        if all.contains(load) && !before.contains(load) {
            let place = choose|place: int| 0 <= place < all.len() && all[place] == load;
            if place < before.len() {
                assert(before[place] == load);
            }
            assert(queue[last].content is Work);
        }
        if exists|at: int|
            0 <= at < queue.len() && ((#[trigger] queue[at]).content matches Waiting::Work(work)
                && work.main_document_load_observation_id == Some(load) && queueing.contains(
                work.publish_sequence,
            )) {
            let at = choose|at: int|
                0 <= at < queue.len() && ((#[trigger] queue[at]).content matches Waiting::Work(work)
                    && work.main_document_load_observation_id == Some(load) && queueing.contains(
                    work.publish_sequence,
                ));
            if at < last {
                assert(front[at] == queue[at]);
                assert(before.contains(load));
            } else {
                assert(all[before.len() as int] == load);
            }
        }
    }
}

/// A publication waits for the loads that it was given, in their order, and for
/// those that waiting work wants to precede it, each once.
pub proof fn law_loads_are_merged_once(numbers: Seq<u64>, others: Seq<u64>, load: u64)
    ensures
        ingress::merged(numbers, others).contains(load) <==> numbers.contains(load)
            || others.contains(load),
        numbers.is_prefix_of(ingress::merged(numbers, others)),
        numbers.no_duplicates() ==> ingress::merged(numbers, others).no_duplicates(),
    decreases others.len(),
{
    if others.len() > 0 {
        let front = others.drop_last();
        let last = others.last();
        let before = ingress::merged(numbers, front);
        let all = ingress::merged(numbers, others);
        law_loads_are_merged_once(numbers, front, load);
        assert(others[others.len() - 1] == last);
        if front.contains(load) {
            let at = choose|at: int| 0 <= at < front.len() && front[at] == load;
            assert(others[at] == load);
        }
        if others.contains(load) && load != last {
            let at = choose|at: int| 0 <= at < others.len() && others[at] == load;
            assert(front[at] == load);
        }
        if !before.contains(last) {
            assert(all[before.len() as int] == last);
            if before.contains(load) {
                let at = choose|at: int| 0 <= at < before.len() && before[at] == load;
                assert(all[at] == load);
            }
            if all.contains(load) && load != last {
                let at = choose|at: int| 0 <= at < all.len() && all[at] == load;
                assert(before[at] == load);
            }
        }
    }
}

/// What a publication shows. Where it waits for a load, known or yet to come, all
/// but its Network observations wait in the queue, in their order, behind what
/// waits there and for those loads; the Network observations are placed at once.
/// Where it waits for none, all is placed at once.
pub proof fn law_publication_waits_for_its_loads(
    scheduler: SchedulerModel,
    ingress: RendererIngress,
    outcome: CdpTurnOutcome,
)
    ensures
        ({
            let (after, leaves) = scheduler.ingested(ingress, outcome);
            let shown = outcome.events@ + outcome.post_renderer_output_events@
                + outcome.post_response_events@;
            let rest = shown.filter(
                |event: BackgroundProtocolEvent| !event.facts.network_observation,
            );
            let waits = ingress.load_predecessors@.len() > 0 || ingress.future_load_predecessor
                is Some;
            let place = scheduler.queue.len() as int;
            &&& waits && rest.len() > 0 ==> {
                &&& after.queue.len() > place
                &&& after.queue.take(place) == scheduler.queue
                &&& after.queue[place].content == (Waiting::Output {
                    cursor: ingress.cursor->Some_0,
                    events: rest,
                })
                &&& after.queue[place].after == ingress.load_predecessors@
                &&& after.queue[place].future == ingress.future_load_predecessor
                &&& after.queue[place].client_turn == ClientTurnPredecessor::Pending
            }
            &&& !waits ==> (after, leaves) == scheduler.applied(
                outcome.scheduler_events@,
                ingress.load_predecessors@,
                ingress.future_load_predecessor,
            ).routed(shown)
        }),
{
    let shown = outcome.events@ + outcome.post_renderer_output_events@
        + outcome.post_response_events@;
    let waits = ingress.load_predecessors@.len() > 0 || ingress.future_load_predecessor is Some;
    let others = |event: BackgroundProtocolEvent| !event.facts.network_observation;
    assert(output::remaining_part(shown) == shown.filter(others));
    assert(ingress::all_events(outcome) == shown);
    let place = scheduler.queue.len() as int;
    if waits && shown.filter(others).len() > 0 {
        ingress::law_output_precedes_its_work(scheduler, ingress, outcome);
        let after = scheduler.ingested(ingress, outcome).0;
        let longer = scheduler.queue.push(
            crate::scheduler::residences::entering_output(
                ingress.cursor->0,
                shown.filter(others),
                ingress.load_predecessors@,
                ingress.future_load_predecessor,
            ),
        );
        assert(longer.is_prefix_of(after.queue));
        assert(after.queue[place] == longer[place]);
        assert(after.queue.take(place) =~= scheduler.queue) by {
            assert forall|at: int| 0 <= at < place implies after.queue[at]
                == scheduler.queue[at] by {
                assert(after.queue[at] == longer[at]);
            }
        }
    }
}

/// What wakes the owner is handed on as what it is, with what it carries. Where
/// the sender is gone there is no input.
pub proof fn law_selection_is_the_input(selection: OwnerSelection, gate_open: bool)
    ensures
        ({
            let input = inputs::input_of(selection, gate_open);
            match selection {
                OwnerSelection::Host(BrowserHostExecutionWake::TurnSelected) => input == Some(
                    CdpSchedulerInterleavedInput::BrowserHostTurn,
                ),
                OwnerSelection::Host(BrowserHostExecutionWake::ParticipantCompleted(completed)) => {
                    input == Some(CdpSchedulerInterleavedInput::BrowserHostCompletion(completed))
                },
                OwnerSelection::Host(
                    BrowserHostExecutionWake::DetachedNavigationCompleted(completed),
                ) => input == Some(
                    CdpSchedulerInterleavedInput::DetachedNavigationCompletion(completed),
                ),
                OwnerSelection::Host(BrowserHostExecutionWake::Closed) => input is None,
                OwnerSelection::BrowserFactWake(woken) => {
                    &&& input is Some <==> woken is Some
                    &&& woken matches Some(sequence) ==> input == Some(
                        CdpSchedulerInterleavedInput::BrowserFactWake(sequence),
                    )
                },
                OwnerSelection::BackgroundNavigationCompletion(completed) => {
                    &&& input is Some <==> completed is Some
                    &&& completed matches Some(completion) ==> input == Some(
                        CdpSchedulerInterleavedInput::BackgroundNavigationCompletion(completion),
                    )
                },
                OwnerSelection::BackgroundEvent(received) => {
                    &&& input is Some <==> received is Some
                    &&& received matches Some(event) ==> input == Some(
                        CdpSchedulerInterleavedInput::BackgroundEvent(event),
                    )
                },
                OwnerSelection::RendererPublication(received) => {
                    &&& input is Some <==> received is Some
                    &&& received matches Some(publication) ==> input == Some(
                        CdpSchedulerInterleavedInput::RendererPublication {
                            publication,
                            navigation_gate_open: gate_open,
                        },
                    )
                },
            }
        }),
{
}

/// An input that others carry out is handed on to exactly the one that does.
pub proof fn law_input_is_handed_on_as_it_is(input: CdpSchedulerInterleavedInput)
    ensures
        input is BrowserHostTurn ==> inputs::handed_on(input) == InterleavedAction::StartOwnerTurn,
        input matches CdpSchedulerInterleavedInput::BrowserHostCompletion(completed)
            ==> inputs::handed_on(input) == InterleavedAction::CompleteParticipant(completed),
        input matches CdpSchedulerInterleavedInput::DetachedNavigationCompletion(completed)
            ==> inputs::handed_on(input) == InterleavedAction::CompleteDetachedNavigation(
            completed,
        ),
        input matches CdpSchedulerInterleavedInput::BrowserFactWake(sequence) ==> inputs::handed_on(
            input,
        ) == InterleavedAction::CaptureFacts(sequence),
        input matches CdpSchedulerInterleavedInput::BackgroundNavigationCompletion(completion)
            ==> inputs::handed_on(input) == InterleavedAction::DrainNavigationCompletion(
            completion,
        ),
{
}

/// A detached navigation that has completed is waited for no more, once; all
/// others still are.
pub proof fn law_completed_navigation_is_forgotten_once(
    detached: Seq<u64>,
    completed: u64,
    selection: OwnerSelection,
)
    ensures
        detached.contains(completed) ==> inputs::without_first(detached, completed).to_multiset()
            =~= detached.to_multiset().remove(completed),
        !detached.contains(completed) ==> inputs::without_first(detached, completed) == detached,
        selection matches OwnerSelection::Host(
            BrowserHostExecutionWake::DetachedNavigationCompleted(gone),
        ) ==> inputs::still_detached(detached, selection) == inputs::without_first(detached, gone),
        !(selection matches OwnerSelection::Host(
            BrowserHostExecutionWake::DetachedNavigationCompleted(_),
        )) ==> inputs::still_detached(detached, selection) == detached,
{
    broadcast use vstd::seq_lib::group_to_multiset_ensures;

    let same = inputs::being(completed);
    if detached.contains(completed) {
        let some = choose|at: int| 0 <= at < detached.len() && detached[at] == completed;
        lemma_first_number(detached, completed, some);
        let at = lists::first_where(detached, same)->Some_0;
        let last = detached.len() - 1;
        let updated = detached.update(at, detached.last());
        let after = updated.drop_last();
        assert(detached =~= detached.take(at) + seq![detached[at]] + detached.skip(at + 1));
        assert(detached.remove(at).to_multiset() =~= detached.to_multiset().remove(completed));
        if at == last {
            assert(after =~= detached.remove(at));
        } else {
            assert(updated =~= after.push(detached.last()));
            let head = detached.remove(at);
            assert(head =~= head.drop_last().push(detached.last()));
            assert(updated.to_multiset() =~= detached.to_multiset().insert(
                detached.last(),
            ).remove(completed));
            assert(updated.to_multiset() =~= after.to_multiset().insert(detached.last()));
            let left = detached.to_multiset().remove(completed);
            assert(detached.to_multiset().count(completed) > 0);
            assert(after.to_multiset().insert(detached.last()) =~= left.insert(detached.last()));
            assert forall|number: u64| #[trigger]
                after.to_multiset().count(number) == left.count(number) by {
                assert(after.to_multiset().insert(detached.last()).count(number) == left.insert(
                    detached.last(),
                ).count(number));
            }
            assert(after.to_multiset() =~= left);
        }
    } else {
        assert forall|at: int| 0 <= at < detached.len() implies !same(#[trigger] detached[at]) by {
            if detached[at] == completed {
                assert(detached.contains(completed));
            }
        }
        lists::lemma_nowhere(detached, same);
    }
}

proof fn lemma_first_number(numbers: Seq<u64>, number: u64, some: int)
    requires
        0 <= some < numbers.len(),
        numbers[some] == number,
    ensures
        lists::first_where(numbers, inputs::being(number)) matches Some(at) && 0 <= at
            < numbers.len() && numbers[at] == number,
    decreases some,
{
    let same = inputs::being(number);
    if exists|earlier: int| 0 <= earlier < some && numbers[earlier] == number {
        let earlier = choose|earlier: int| 0 <= earlier < some && numbers[earlier] == number;
        lemma_first_number(numbers, number, earlier);
    } else {
        lists::lemma_first(numbers, same, some);
    }
}

/// What is brought at the end of a navigation follows all that was gathered
/// before, whatever the end has come to, and changes nothing else of it.
pub proof fn law_brought_output_follows_what_was_gathered(
    completion: CompletionModel,
    brought: Seq<BackgroundProtocolEvent>,
)
    ensures
        ({
            let after = completion.gathers(brought);
            &&& completion matches CompletionModel::Fence(fence) ==> (
            after matches CompletionModel::Fence(grown) && grown.gathered.output.len()
                == fence.gathered.output.len() + brought.len()
                && fence.gathered.output.is_prefix_of(grown.gathered.output)
                && brought.is_suffix_of(grown.gathered.output) && grown.cursor == fence.cursor
                && grown.kind == fence.kind && grown.gathered.refusal == fence.gathered.refusal)
            &&& completion matches CompletionModel::Release(output) ==> (
            after matches CompletionModel::Release(grown) && grown.len() == output.len()
                + brought.len() && output.is_prefix_of(grown) && brought.is_suffix_of(grown))
            &&& completion matches CompletionModel::Failed(gathered) ==> (
            after matches CompletionModel::Failed(grown) && grown.output.len()
                == gathered.output.len() + brought.len() && gathered.output.is_prefix_of(
                grown.output,
            ) && brought.is_suffix_of(grown.output) && grown.refusal == gathered.refusal)
        }),
{
}

} // verus!
