//! What the scheduler's own steps do, said of what its functions take and return.
use vstd::prelude::*;

use crate::connection::background_output::{
    BackgroundOutputQueue, BackgroundProtocolEvent, BrowserBackgroundOutput,
};
use crate::facts::types::RendererDocumentLifecycleMilestone;
use crate::json;
use crate::json::JsonTree;
use crate::scheduler::fences;
use crate::scheduler::fences::{FenceKind, NavigationCompletion, RendererOutputFence};
use crate::scheduler::gate::BackgroundNavigationGate;
use crate::scheduler::ingress::RendererIngress;
use crate::scheduler::inputs;
use crate::scheduler::inputs::{
    CdpRendererCommandAccess, CdpSchedulerInterleavedInput, CommandStartAction, OwnerInputs,
};
use crate::scheduler::lifecycle_wait;
use crate::scheduler::lifecycle_wait::{DocumentLifecycleWait, ProgressDeadline};
use crate::scheduler::output::{DevToolsDocumentLifecycleWaitKey, ProtocolOutputSequence};
use crate::scheduler::pending::{PendingCommandWait, PendingKind};
use crate::scheduler::publications;
use crate::scheduler::publications::{
    RendererOutputCursor, RendererOutputItem, RendererOutputTransportMessage,
};
use crate::scheduler::residences::{
    ProtocolSchedulerResidence, ProtocolSchedulerWork, Residence, ResidenceContent,
    SchedulerQueues, Waiting,
};
use crate::scheduler::runs::{ResidenceCompletion, ResidenceRun};
use crate::scheduler::screencast;
use crate::scheduler::screencast::{
    PageScreencastCaptureCompletion, PageScreencastCaptureRequest, PageScreencastSubscription,
    PageScreencasts, Schedule, ScheduledPageScreencastFrame,
};
use crate::scheduler::screencast_laws;
use crate::scheduler::state::{CdpScheduler, CdpSchedulerEvent, HostAdapterView};
use crate::scheduler::waits::{
    DeferredLoadWait, DocumentLifecycleObserver, InflightNavigationDrain, ReadyProgress,
};

verus! {

/// A command waits for the navigation of its session exactly where it needs the
/// main thread of a renderer whose Document is being replaced; any other is
/// dispatched at once.
pub proof fn law_only_main_thread_commands_wait(
    access: CdpRendererCommandAccess,
    is_suspended: bool,
    waits: bool,
    action: CommandStartAction,
)
    requires
        call_ensures(inputs::command_waits_for_navigation_flush, (access, is_suspended), waits),
        call_ensures(
            inputs::start_command_or_request_background_navigation_flush,
            (access, is_suspended),
            action,
        ),
    ensures
        !is_suspended || access !is MainThread ==> !waits,
        is_suspended && access is MainThread ==> waits,
        waits <==> action is NeedsBackgroundNavigationFlush,
        !waits <==> action is Dispatch,
{
}

/// Progress is waited for as long as is left of its time: without an end where it
/// has none, and no longer once more has passed.
pub proof fn law_deadline_is_what_is_left(
    timeout: Option<u64>,
    elapsed: u64,
    deadline: ProgressDeadline,
)
    ensures
        call_ensures(lifecycle_wait::progress_deadline, (timeout, elapsed), deadline) ==> {
            &&& timeout is None <==> deadline is Unbounded
            &&& timeout is Some && elapsed > timeout->Some_0 <==> deadline is Expired
            &&& deadline matches ProgressDeadline::Within(left) ==> left + elapsed
                == timeout->Some_0
        },
{
}

/// Streams are held back while a navigation is in flight, in the background or
/// detached from its caller. What was held back and may go is handed on, together
/// with whether one was in flight.
pub proof fn law_held_publication_is_handed_on(
    owner: &mut OwnerInputs,
    other: OwnerInputs,
    gate_open: bool,
    open: bool,
    input: Option<CdpSchedulerInterleavedInput>,
)
    ensures
        call_ensures(OwnerInputs::renderer_navigation_gate_open, (&other, gate_open), open) ==> (
        open <==> gate_open || other.detached_navigations@.len() > 0),
        call_ensures(OwnerInputs::take_buffered_input, (owner, gate_open), input) ==> {
            let held = old(owner).publications@.held;
            let flying = gate_open || old(owner).detached_navigations@.len() > 0;
            &&& final(owner).detached_navigations == old(owner).detached_navigations
            &&& input is None ==> final(owner).publications@.held == held
            &&& input matches Some(taken) ==> (taken matches CdpSchedulerInterleavedInput::RendererPublication {
                publication,
                navigation_gate_open,
            } && navigation_gate_open == flying && held.contains(publication)
                && final(owner).publications@.held.len() == held.len() - 1)
            &&& !flying && held.len() > 0 ==> (input matches Some(
                CdpSchedulerInterleavedInput::RendererPublication { publication, .. },
            ) && publication == held[0])
        },
{
    let buffer = old(owner).publications@;
    let free = |message: RendererOutputTransportMessage|
        publications::is_free(message, buffer.blocked);
    if gate_open || old(owner).detached_navigations@.len() > 0 {
        if exists|at: int| crate::lists::is_first(buffer.held, free, at) {
            let at = choose|at: int| crate::lists::is_first(buffer.held, free, at);
            assert(buffer.held.contains(buffer.held[at]));
        }
    } else if buffer.held.len() > 0 {
        assert(buffer.held.contains(buffer.held[0]));
    }
}

/// The command that an event answers, read from its message.
pub open spec fn answers_to(event: BackgroundProtocolEvent) -> Option<JsonTree> {
    json::member(event.tree(), "id"@)
}

/// Output is cut at its first answer to one of several commands: what came before
/// it, the answer and what is left are the output as it was, and nothing before
/// it answers one of them. Where nothing does, the output stays.
pub proof fn law_output_is_cut_at_the_first_answer(
    output: &mut ProtocolOutputSequence,
    command_ids: Vec<u64>,
    split: Option<(ProtocolOutputSequence, u64, BackgroundProtocolEvent)>,
    at: int,
    id: u64,
)
    requires
        command_ids@.contains(id),
    ensures
        call_ensures(
            ProtocolOutputSequence::split_next_protocol_message_with_any_id,
            (output, &command_ids),
            split,
        ) ==> {
            let events = old(output)@;
            &&& split matches Some((before, answered, event)) ==> {
                &&& before@ + seq![event] + final(output)@ == events
                &&& answers_to(event) == Some(JsonTree::Unsigned(answered))
                &&& command_ids@.contains(answered)
                &&& 0 <= at < before@.len() ==> answers_to(before@[at]) != Some(
                    JsonTree::Unsigned(id),
                )
            }
            &&& split is None ==> final(output)@ == events && (0 <= at < events.len()
                ==> answers_to(events[at]) != Some(JsonTree::Unsigned(id)))
        },
{
    if let Some((before, answered, event)) = split {
        assert(before@.push(event) + final(output)@ =~= before@ + seq![event] + final(output)@);
    }
}

/// Output is cut at its first inspector response in the same way.
pub proof fn law_output_is_cut_at_the_first_ready_response(
    output: &mut ProtocolOutputSequence,
    split: Option<(ProtocolOutputSequence, u64)>,
    at: int,
)
    ensures
        call_ensures(
            ProtocolOutputSequence::split_next_runtime_response_ready,
            (output,),
            split,
        ) ==> {
            let events = old(output)@;
            &&& split matches Some((before, response)) ==> {
                &&& before@.len() + 1 + final(output)@.len() == events.len()
                &&& before@.is_prefix_of(events)
                &&& final(output)@.is_suffix_of(events)
                &&& events[before@.len() as int].facts.runtime_response == Some(response)
                &&& 0 <= at < before@.len() ==> before@[at].facts.runtime_response is None
            }
            &&& split is None ==> final(output)@ == events && (0 <= at < events.len()
                ==> events[at].facts.runtime_response is None)
        },
{
}

/// The stream that a publication replaces is that of its position, where it shows
/// the commit of a main Document; no other message replaces one.
pub proof fn law_commit_names_its_stream(
    message: RendererOutputTransportMessage,
    stream: Option<u64>,
)
    ensures
        call_ensures(
            publications::renderer_main_document_commit_stream,
            (&message,),
            stream,
        ) ==> {
            &&& message !is Publication ==> stream is None
            &&& message matches RendererOutputTransportMessage::Publication(publication) ==> {
                let shown = exists|at: int|
                    0 <= at < publication.records@.len() && (
                    #[trigger] publication.records@[at]) is MainDocumentCommit;
                &&& shown ==> stream == Some(publication.cursor.stream)
                &&& !shown ==> stream is None
            }
        },
{
    if let RendererOutputTransportMessage::Publication(publication) = message {
        let records = publication.records@;
        if records.contains(RendererOutputItem::MainDocumentCommit) {
            let at = records.index_of(RendererOutputItem::MainDocumentCommit);
            assert(records[at] is MainDocumentCommit);
        }
        if exists|at: int|
            0 <= at < records.len() && (#[trigger] records[at]) is MainDocumentCommit {
            let at = choose|at: int|
                0 <= at < records.len() && (#[trigger] records[at]) is MainDocumentCommit;
            assert(records[at] == RendererOutputItem::MainDocumentCommit);
        }
    }
}

/// What stands at the front of the queue is taken out first, and the rest moves
/// up.
pub proof fn law_front_of_the_queue_is_taken_out(
    queues: &mut SchedulerQueues,
    residence: Option<ProtocolSchedulerResidence>,
)
    ensures
        call_ensures(SchedulerQueues::pop_next_protocol_residence, (queues,), residence) ==> {
            let queue = old(queues)@;
            &&& residence is Some <==> queue.len() > 0
            &&& residence matches Some(taken) ==> {
                &&& taken@ == queue[0]
                &&& final(queues)@.len() == queue.len() - 1
                &&& forall|at: int|
                    0 <= at < queue.len() - 1 ==> #[trigger] final(queues)@[at] == queue[at + 1]
            }
            &&& residence is None ==> final(queues)@.len() == 0
        },
{
}

/// What waits is seen as it is: its output with the position in its stream, or
/// its work, whether it is the clients' turn first, and the loads that come
/// before it.
pub proof fn law_waiting_is_seen_as_it_is(residence: ProtocolSchedulerResidence)
    ensures
        residence@.client_turn == residence.client_turn_predecessor,
        residence@.after == residence.load_predecessors@,
        residence@.future == residence.future_load_predecessor,
        residence.content matches ResidenceContent::ProtocolWork(work) ==> residence@.content
            == Waiting::Work(work),
        residence.content matches ResidenceContent::RendererOutputPublication { cursor, output }
            ==> (residence@.content matches Waiting::Output { cursor: at, events } && at == cursor
            && events == output.events@),
{
}

/// The front of the queue shows a load where it is work of that kind. It shows
/// one that has happened only where that work is ready, waits for no other load,
/// and no navigation is in flight.
pub proof fn law_front_shows_a_load(scheduler: CdpScheduler, shows: bool, ready: bool)
    ensures
        call_ensures(
            CdpScheduler::front_protocol_residence_is_main_document_load_action,
            (&scheduler,),
            shows,
        ) ==> (shows <==> scheduler@.queue.len() > 0 && (
        scheduler@.queue[0].content matches Waiting::Work(work)
            && work.kind is MainDocumentLoadFactProjection)),
        call_ensures(
            CdpScheduler::has_causally_ready_main_document_load_residence,
            (&scheduler,),
            ready,
        ) ==> (ready <==> (forall|key: u64| !#[trigger] scheduler@.gate.contains_key(key))
            && scheduler@.queue.len() > 0 && scheduler@.queue[0].after.len() == 0 && (
        scheduler@.queue[0].content matches Waiting::Work(work)
            && work.kind is MainDocumentLoadFactProjection && work.is_ready)),
{
    if forall|key: u64| !#[trigger] scheduler@.gate.contains_key(key) {
        assert(scheduler@.gate =~= Map::<u64, u64>::empty());
    }
}

/// The work that shows a load is taken from the front once nothing comes before
/// it; nothing is taken otherwise.
pub proof fn law_load_work_is_started_from_the_front(
    scheduler: &mut CdpScheduler,
    work: Option<ProtocolSchedulerWork>,
)
    ensures
        call_ensures(
            CdpScheduler::start_next_deferred_load_completion,
            (scheduler,),
            work,
        ) ==> {
            let before = old(scheduler)@;
            let front = before.queue[0];
            let starts = before.queue.len() > 0 && front.client_turn is Satisfied
                && front.after.len() == 0 && (front.content matches Waiting::Work(work)
                && work.kind is MainDocumentLoadFactProjection);
            &&& work is Some <==> starts
            &&& work matches Some(work) ==> front.content == Waiting::Work(work)
                && final(scheduler)@.queue == before.queue.skip(1)
            &&& work is None ==> final(scheduler)@ == before
            &&& final(scheduler)@.gate == before.gate && final(scheduler)@.parked == before.parked
                && final(scheduler)@.routes == before.routes
        },
{
}

/// A publication waits for the loads that are given and for those of the queueing
/// work. A load that may yet turn out to come first counts only where it waits
/// for none that is known.
pub proof fn law_publication_finds_its_loads(
    scheduler: &mut CdpScheduler,
    asked: Vec<CdpSchedulerEvent>,
    publication: RendererOutputTransportMessage,
    loads: Vec<u64>,
    future: Option<u64>,
    queueing: Vec<u64>,
    ingress: RendererIngress,
    load: u64,
)
    ensures
        call_ensures(
            CdpScheduler::begin_renderer_ingress,
            (scheduler, asked, &publication, loads, future, &queueing),
            ingress,
        ) ==> {
            &&& publication matches RendererOutputTransportMessage::Publication(shown)
                ==> ingress.cursor == Some(shown.cursor)
            &&& publication !is Publication ==> ingress.cursor is None
            &&& ingress.load_predecessors@.len() == 0 ==> ingress.future_load_predecessor == future
            &&& ingress.load_predecessors@.len() > 0 ==> ingress.future_load_predecessor is None
        },
{
}

/// After a command, all that waits is completed in order; but nothing is while a
/// navigation is in flight or a dialog is open.
pub proof fn law_waiting_is_completed_after_a_command(
    scheduler: &mut CdpScheduler,
    run: ResidenceRun,
)
    ensures
        call_ensures(
            CdpScheduler::complete_ready_protocol_residences_after_command,
            (scheduler,),
            run,
        ) ==> {
            let before = old(scheduler)@;
            let held = before.dialog || exists|key: u64| #[trigger] before.gate.contains_key(key);
            &&& run@.output.len() == 0
            &&& held ==> run@.snapshot.len() == 0 && final(scheduler)@ == before
            &&& !held ==> run@.snapshot == before.queue && final(scheduler)@.queue.len() == 0
                && final(scheduler)@.parked == before.parked
        },
{
    let before = old(scheduler)@;
    if !(exists|key: u64| #[trigger] before.gate.contains_key(key)) {
        assert(before.gate =~= Map::<u64, u64>::empty());
    }
}

/// Before a runtime response, the output of its stream up to its position is
/// completed and all else waits on, each in order; but nothing is while a
/// navigation is in flight.
pub proof fn law_earlier_output_of_the_stream_is_completed(
    scheduler: &mut CdpScheduler,
    predecessor: RendererOutputCursor,
    run: ResidenceRun,
    at: int,
)
    ensures
        call_ensures(
            CdpScheduler::complete_renderer_output_predecessor_before_runtime_response,
            (scheduler, predecessor),
            run,
        ) ==> {
            let before = old(scheduler)@;
            let after = final(scheduler)@;
            let held = exists|key: u64| #[trigger] before.gate.contains_key(key);
            &&& run@.output.len() == 0
            &&& held ==> run@.snapshot.len() == 0 && after == before
            &&& !held ==> run@.snapshot.len() + after.queue.len() == before.queue.len()
            &&& !held && 0 <= at < run@.snapshot.len() ==> (
            run@.snapshot[at].content matches Waiting::Output { cursor, .. } && cursor.stream
                == predecessor.stream && cursor.position <= predecessor.position)
            &&& !held && 0 <= at < after.queue.len() ==> !(
            after.queue[at].content matches Waiting::Output { cursor, .. } && cursor.stream
                == predecessor.stream && cursor.position <= predecessor.position)
        },
{
    let before = old(scheduler)@;
    if !(exists|key: u64| #[trigger] before.gate.contains_key(key)) {
        assert(before.gate =~= Map::<u64, u64>::empty());
    }
    lemma_parted(before.queue, predecessor);
    let upto = |residence: Residence| residence.is_output_upto(predecessor);
    let rest = |residence: Residence| !residence.is_output_upto(predecessor);
    if 0 <= at < before.queue.filter(upto).len() {
        before.queue.lemma_filter_pred(upto, at);
    }
    if 0 <= at < before.queue.filter(rest).len() {
        before.queue.lemma_filter_pred(rest, at);
    }
}

proof fn lemma_parted(queue: Seq<Residence>, predecessor: RendererOutputCursor)
    ensures
        queue.filter(|residence: Residence| residence.is_output_upto(predecessor)).len()
            + queue.filter(|residence: Residence| !residence.is_output_upto(predecessor)).len()
            == queue.len(),
    decreases queue.len(),
{
    reveal(Seq::filter);
    if queue.len() > 0 {
        lemma_parted(queue.drop_last(), predecessor);
    }
}

/// Work at the front is handed out and output is placed. The front goes, and
/// nothing happens where the queue is empty.
pub proof fn law_front_is_completed(
    scheduler: &mut CdpScheduler,
    completion: Option<ResidenceCompletion>,
)
    ensures
        call_ensures(
            CdpScheduler::complete_next_protocol_residence,
            (scheduler,),
            completion,
        ) ==> {
            let before = old(scheduler)@;
            &&& completion is Some <==> before.queue.len() > 0
            &&& completion is None ==> final(scheduler)@ == before
            &&& before.queue.len() > 0 ==> {
                &&& before.queue[0].content matches Waiting::Work(work) ==> completion == Some(
                    ResidenceCompletion::Work(work),
                ) && final(scheduler)@.queue == before.queue.skip(1)
                &&& before.queue[0].content is Output ==> completion->Some_0 is Output
            }
        },
{
}

/// A boundary is fenced behind the prefix, and the suffix comes after it. Without
/// one the prefix leaves with the suffix behind it.
pub proof fn law_completion_is_fenced_at_its_boundary(
    completion: NavigationCompletion,
    parts: (Option<RendererOutputFence>, ProtocolOutputSequence),
)
    ensures
        call_ensures(NavigationCompletion::into_fence, (completion,), parts) ==> {
            &&& parts.0 is Some <==> completion.boundary is Some
            &&& parts.0 matches Some(fence) ==> Some(fence@.cursor) == completion.boundary
                && fence@.gathered.output == completion.prefix@ && fence@.gathered.refusal is None
                && parts.1@ == completion.suffix@
            &&& parts.0 is None ==> parts.1@ == completion.prefix@ + completion.suffix@
        },
{
}

/// A navigation that starts is in flight from then on, and those that it
/// supersedes no longer are. One that is known already changes nothing and
/// cancels nothing.
pub proof fn law_started_navigation_is_in_flight(
    gate: &mut BackgroundNavigationGate,
    key: u64,
    cancellation: u64,
    superseded: Vec<u64>,
    cancel: Vec<u64>,
    other: u64,
)
    ensures
        call_ensures(
            BackgroundNavigationGate::note_navigation_started,
            (gate, key, cancellation, &superseded),
            cancel,
        ) ==> {
            let known = old(gate)@.contains_key(key);
            &&& known ==> final(gate)@ == old(gate)@ && cancel@.len() == 0
            &&& !known ==> {
                &&& final(gate)@.contains_key(key) && final(gate)@[key] == cancellation
                &&& other != key ==> (final(gate)@.contains_key(other) <==> old(
                    gate,
                )@.contains_key(other) && !superseded@.contains(other))
                &&& other != key && final(gate)@.contains_key(other) ==> final(gate)@[other]
                    == old(gate)@[other]
            }
        },
{
}

/// Whether a schedule is that of a session and a generation.
pub open spec fn schedule_of(
    schedule: Schedule,
    session: Option<String>,
    generation: i32,
) -> bool {
    &&& schedule.generation == generation
    &&& schedule.session is Some <==> session is Some
    &&& session matches Some(session) ==> schedule.session->Some_0 == session@
}

/// A captured frame is handed on while its session still has the schedule that it
/// was captured for, and changes none. A stale capture ends exactly that
/// schedule. One without a change, and one to be tried again, leave all schedules
/// there.
pub proof fn law_frame_is_handed_on_while_scheduled(
    screencasts: &mut PageScreencasts,
    session: Option<String>,
    generation: i32,
    completion: PageScreencastCaptureCompletion,
    now: u64,
    frame: Option<ScheduledPageScreencastFrame>,
    at: int,
)
    ensures
        call_ensures(
            PageScreencasts::complete_page_screencast_capture,
            (screencasts, session, generation, completion, now),
            frame,
        ) ==> {
            let before = old(screencasts)@;
            let after = final(screencasts)@;
            let wanted = exists|place: int|
                0 <= place < before.len() && schedule_of(
                    #[trigger] before[place],
                    session,
                    generation,
                );
            &&& frame is Some <==> completion is Frame && wanted
            &&& frame matches Some(frame) ==> frame.session_id == session && frame.generation
                == generation && (completion matches PageScreencastCaptureCompletion::Frame {
                event,
                visual_state,
            } && frame.event == event && frame.visual_state == visual_state)
            &&& completion is Frame ==> after == before
            &&& completion is Unchanged || completion is Retry ==> after.len() == before.len()
            &&& completion is Retry && 0 <= at < before.len() && schedule_of(
                before[at],
                session,
                generation,
            ) && now + 1000 <= u64::MAX ==> after[at].due == now + 1000
            &&& completion is Unchanged && 0 <= at < before.len() && schedule_of(
                before[at],
                session,
                generation,
            ) && now + before[at].interval <= u64::MAX ==> after[at].due == now
                + before[at].interval
            &&& (completion is Unchanged || completion is Retry) && 0 <= at < before.len()
                && !schedule_of(before[at], session, generation) ==> after[at] == before[at]
            &&& completion is Stale && 0 <= at < after.len() ==> !schedule_of(
                after[at],
                session,
                generation,
            )
        },
{
    let before = old(screencasts)@;
    let named = match session {
        Some(session) => Some(session@),
        None => None,
    };
    assert forall|place: int| 0 <= place < before.len() implies schedule_of(
        #[trigger] before[place],
        session,
        generation,
    ) == before[place].is(named, generation) by {}
    if completion is Stale {
        let others = |schedule: Schedule| !schedule.is(named, generation);
        if 0 <= at < before.filter(others).len() {
            before.lemma_filter_pred(others, at);
        }
    }
}

/// A capture that is to begin is one of a schedule that is due: for its session
/// and its generation, with the state that is known there. There is no other
/// capture than those, and a schedule that is not due begins none.
pub proof fn law_capture_is_that_of_a_due_schedule(
    screencasts: &mut PageScreencasts,
    subscriptions: Vec<PageScreencastSubscription>,
    now: u64,
    requests: Vec<PageScreencastCaptureRequest>,
    at: int,
)
    ensures
        call_ensures(
            PageScreencasts::start_due_page_screencast_captures,
            (screencasts, &subscriptions, now),
            requests,
        ) && 0 <= at < requests@.len() ==> exists|place: int|
            0 <= place < old(screencasts)@.len() && schedule_of(
                #[trigger] old(screencasts)@[place],
                requests@[at].session_id,
                requests@[at].generation,
            ) && old(screencasts)@[place].known == requests@[at].known_visual_state && old(
                screencasts,
            )@[place].due <= now,
{
    let schedules = old(screencasts)@;
    let is_due = |schedule: Schedule|
        schedule.due <= now && screencast::status(subscriptions@, schedule) is Ready;
    let due = screencast::due(schedules, subscriptions@, now);
    assert(due == schedules.filter(is_due));
    if call_ensures(
        PageScreencasts::start_due_page_screencast_captures,
        (screencasts, &subscriptions, now),
        requests,
    ) && 0 <= at < requests@.len() {
        let schedule = due[at];
        assert(screencast::asks_for(requests@[at], schedule));
        assert(due.contains(schedule));
        screencast_laws::lemma_filter_contains(schedules, is_due, schedule);
        let place = schedules.index_of(schedule);
        assert(schedules[place] == schedule);
        assert(schedule_of(
            schedules[place],
            requests@[at].session_id,
            requests@[at].generation,
        ));
    }
}

/// A queue is drained of all that waits in it, in order, each as it leaves.
pub proof fn law_queue_is_drained_in_order(
    events: Seq<BackgroundProtocolEvent>,
    queue: BackgroundOutputQueue,
    at: int,
)
    requires
        fences::drained_of(events, queue),
    ensures
        events.len() == queue.items@.len(),
        0 <= at < events.len() ==> {
            &&& queue.items@[at] matches BrowserBackgroundOutput::ProtocolEvent(entered)
                ==> events[at] == entered
            &&& queue.items@[at] matches BrowserBackgroundOutput::NavigateCommandOutcome(delivery)
                ==> events[at].tree() == delivery.response()
        },
{
    if 0 <= at < events.len() {
        assert(queue.items@[at].leaves_as(events[at]));
    }
}

/// A scheduler begins with nothing in flight and nothing that waits, and so do
/// the inputs of its owner.
pub proof fn law_scheduler_begins_with_nothing(
    seen: HostAdapterView,
    scheduler: CdpScheduler,
    owner: OwnerInputs,
    inflight: bool,
)
    ensures
        call_ensures(CdpScheduler::new, (seen,), scheduler) ==> {
            &&& scheduler.view == seen
            &&& forall|key: u64| !#[trigger] scheduler@.gate.contains_key(key)
            &&& scheduler@.parked.len() == 0
            &&& scheduler@.queue.len() == 0
            &&& scheduler@.screencasts.len() == 0
            &&& scheduler@.cancellations.len() == 0
        },
        call_ensures(OwnerInputs::new, (), owner) ==> {
            &&& owner.publications@.held.len() == 0
            &&& forall|stream: u64| !#[trigger] owner.publications@.blocked.contains(stream)
            &&& owner.detached_navigations@.len() == 0
        },
        call_ensures(
            BackgroundNavigationGate::has_inflight_navigation,
            (&scheduler.background_navigation_gate,),
            inflight,
        ) ==> (inflight <==> exists|key: u64| #[trigger]
            scheduler.background_navigation_gate@.contains_key(key)),
{
    let navigations = scheduler.background_navigation_gate@;
    if !(exists|key: u64| #[trigger] navigations.contains_key(key)) {
        assert(navigations =~= Map::<u64, u64>::empty());
    }
}

/// A wait begins with its first step, and with neither output nor an answer. It
/// waits for what it was begun for.
pub proof fn law_waits_begin_with_their_first_step(
    milestone: RendererDocumentLifecycleMilestone,
    lifecycle: DocumentLifecycleWait,
    kind: PendingKind,
    command: PendingCommandWait,
    ready: ReadyProgress,
    key: DevToolsDocumentLifecycleWaitKey,
    observer: DocumentLifecycleObserver,
    load: DeferredLoadWait,
)
    ensures
        call_ensures(DocumentLifecycleWait::new, (milestone,), lifecycle) ==> {
            &&& lifecycle@.stage is ReadNavigation
            &&& lifecycle@.milestone == milestone
            &&& lifecycle@.seen is Unavailable
            &&& !lifecycle@.has_key
            &&& lifecycle@.output.len() == 0
            &&& lifecycle@.result is None
        },
        call_ensures(PendingCommandWait::new, (kind,), command) ==> {
            &&& command@.stage is Poll
            &&& command@.kind == kind
            &&& !command@.abandoned
            &&& command@.output.len() == 0
            &&& command@.result is None
        },
        call_ensures(ReadyProgress::new, (), ready) ==> {
            &&& ready@.stage is OwnerTurns
            &&& ready@.gathered.output.len() == 0
            &&& ready@.gathered.refusal is None
        },
        call_ensures(DocumentLifecycleObserver::new, (&key,), observer) ==> {
            &&& observer@.stage is CompleteReady
            &&& observer@.notice == key.notice()
            &&& observer@.gathered.output.len() == 0
            &&& observer@.gathered.refusal is None
        },
        call_ensures(DeferredLoadWait::new, (), load) ==> {
            &&& load@.stage is DrainEvents
            &&& load@.gathered.output.len() == 0
            &&& load@.gathered.refusal is None
        },
{
}

/// Inputs are received for a navigation in flight until none is, or until a
/// failure. A fence begins with the output that is given, at the position that is
/// given.
pub proof fn law_drain_goes_on_while_a_navigation_is_in_flight(
    drain: InflightNavigationDrain,
    scheduler: CdpScheduler,
    receives: bool,
    kind: FenceKind,
    cursor: RendererOutputCursor,
    output: ProtocolOutputSequence,
    fence: RendererOutputFence,
)
    ensures
        call_ensures(InflightNavigationDrain::receives, (&drain, &scheduler), receives) ==> (
        receives <==> drain@.refusal is None && exists|key: u64| #[trigger]
            scheduler@.gate.contains_key(key)),
        call_ensures(InflightNavigationDrain::new, (), drain) ==> drain@.output.len() == 0
            && drain@.refusal is None,
        call_ensures(RendererOutputFence::new, (kind, cursor, output), fence) ==> {
            &&& fence@.kind == kind
            &&& fence@.cursor == cursor
            &&& fence@.gathered.output == output@
            &&& fence@.gathered.refusal is None
        },
{
    let navigations = scheduler@.gate;
    if !(exists|key: u64| #[trigger] navigations.contains_key(key)) {
        assert(navigations =~= Map::<u64, u64>::empty());
    }
}

} // verus!
