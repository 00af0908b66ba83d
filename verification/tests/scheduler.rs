//! The scheduler: the order in which events, output and answers leave.
use moli_protocol::connection::background_output::{
    BackgroundOutputQueue, BackgroundProtocolEvent, BrowserNavigateCommandOutcomeDelivery,
    DocumentLifecycleNotice,
};
use moli_protocol::connection::core_record::PageResidence;
use moli_protocol::connection::navigation::{
    DevToolsCommandContext, DevToolsDocumentNavigationState, DevToolsProtocol,
};
use moli_protocol::devtools::{
    DevToolsCommandResult, DevToolsError, DevToolsErrorKind, DevToolsNavigateResult,
};
use moli_protocol::facts::types::{PageResidenceIdentity, RendererDocumentLifecycleMilestone};
use moli_protocol::scheduler::barrier::ForegroundNavigationNetworkBarrier;
use moli_protocol::scheduler::commands::{
    devtools_command_uses_browser_owner_context_disposal,
    devtools_command_uses_browser_owner_dispatch, devtools_command_uses_interleaved_fetch_dispatch,
    devtools_command_uses_interleaved_runtime_dispatch, devtools_document_lifecycle_wait_error,
    devtools_navigation_lifecycle_milestone, devtools_navigation_result_loader_id,
    devtools_navigation_wait, renderer_output_transport_terminal_error, CommandDispatch,
    DevToolsCommand, DevToolsDocumentLifecycleWaitState, DevToolsFailInterceptedRequestCommand,
    DevToolsHistoryTraversalDestination, DevToolsInterceptedRequestCommand,
    DevToolsNavigateCommand, DevToolsNavigationWait, DevToolsOpaqueCommand, DevToolsReloadCommand,
    DevToolsRemoveBrowserContextCommand, DevToolsTraverseHistoryCommand,
};
use moli_protocol::scheduler::dispatch::{
    CommandOutcomeFinish, DevToolsCommandDispatchOutcome, DispatchEvent, DispatchStage,
};
use moli_protocol::scheduler::execution::{CommandCourse, CommandEvent, CommandStage};
use moli_protocol::scheduler::fences::{
    CompletionStage, CompletionStep, FenceKind, FenceStep, NavigationCompletion,
    NavigationCompletionCourse, RendererOutputFence,
};
use moli_protocol::scheduler::gate::BackgroundNavigationGate;
use moli_protocol::scheduler::inputs::{
    command_waits_for_navigation_flush,
    route_registered_runtime_inspector_response,
    start_command_or_request_background_navigation_flush, BrowserHostExecutionWake,
    CdpCommandTaskStep, CdpRendererCommandAccess, CdpSchedulerInterleavedInput,
    CommandStartAction, CommandTaskStep, InterleavedAction, OwnerInputs, OwnerSelection,
};
use moli_protocol::scheduler::lifecycle_wait::{
    progress_deadline, progress_of, DocumentLifecycleWait, LifecycleEvent, LifecycleStage,
    ProgressDeadline, ProgressEnd,
};
use moli_protocol::scheduler::output::{
    CdpSchedulerProgressFailure, DevToolsCommandExecution, DevToolsDocumentLifecycleWaitKey,
    ProtocolOutputSequence,
};
use moli_protocol::scheduler::pending::{
    navigation_timeout_execution, owner_command_step, pending_kind, OwnerCommandStart,
    OwnerCommandStep, PendingCommandWait, PendingEvent, PendingKind, PendingSelection,
    PendingStage,
};
use moli_protocol::scheduler::progress::WaitInput;
use moli_protocol::scheduler::publications::{
    renderer_main_document_commit_stream, renderer_publication_stream,
    NavigationRendererPublicationBuffer, RendererOutputCursor, RendererOutputItem,
    RendererOutputPublication, RendererOutputTransportMessage,
};
use moli_protocol::scheduler::residences::{
    ClientTurnPredecessor, ProtocolSchedulerStep, ProtocolSchedulerWork, ProtocolSchedulerWorkKind,
    ResidenceContent, SchedulerQueues,
};
use moli_protocol::scheduler::runs::{ResidenceCompletion, RunStep};
use moli_protocol::scheduler::screencast::{
    page_screencast_interval, PageScreencastCaptureCompletion, PageScreencastCaptureStart,
    PageScreencastRegistration, PageScreencastSubscription, PageScreencastSubscriptionStatus,
    PageScreencasts, PAGE_SCREENCAST_RETRY_INTERVAL,
};
use moli_protocol::scheduler::state::{
    CdpScheduler, CdpSchedulerEvent, CdpTurnOutcome, HostAdapterView,
};
use moli_protocol::scheduler::waits::{
    DeferredLoadWait, DocumentLifecycleObserver, InflightNavigationDrain, LoadEvent, LoadStage,
    ObserverEvent, ObserverStage, ReadyEvent, ReadyProgress, ReadyStage,
};
use serde_json::Value;

const DOM: RendererDocumentLifecycleMilestone =
    RendererDocumentLifecycleMilestone::DomContentLoaded;
const LOAD: RendererDocumentLifecycleMilestone = RendererDocumentLifecycleMilestone::Load;

fn event(label: u64) -> BackgroundProtocolEvent {
    BackgroundProtocolEvent::immediate(Value::from(label))
}

fn waiting(label: u64) -> BackgroundProtocolEvent {
    let mut event = event(label);
    event.facts.waits_for_navigation = true;
    event
}

fn routed(label: u64, route: u64) -> BackgroundProtocolEvent {
    let mut event = event(label);
    event.facts.route = Some(route);
    event
}

fn network(label: u64) -> BackgroundProtocolEvent {
    let mut event = event(label);
    event.facts.network_observation = true;
    event
}

fn subresource(label: u64) -> BackgroundProtocolEvent {
    let mut event = event(label);
    event.facts.non_document_network = true;
    event
}

fn response_started(label: u64) -> BackgroundProtocolEvent {
    let mut event = event(label);
    event.facts.document_response_started = true;
    event
}

fn announcement(
    label: u64,
    document: u64,
    milestone: RendererDocumentLifecycleMilestone,
) -> BackgroundProtocolEvent {
    let mut event = event(label);
    event.facts.lifecycle = Some(DocumentLifecycleNotice {
        document,
        milestone,
    });
    event
}

fn download(label: u64, frame: &str) -> BackgroundProtocolEvent {
    let mut event = event(label);
    event.facts.download_frame_id = Some(frame.to_owned());
    event
}

fn answer(id: u64) -> BackgroundProtocolEvent {
    let mut message = serde_json::Map::new();
    message.insert("id".to_owned(), Value::from(id));
    BackgroundProtocolEvent::immediate(Value::Object(message))
}

fn sequence(events: Vec<BackgroundProtocolEvent>) -> ProtocolOutputSequence {
    ProtocolOutputSequence::from_background_events(events)
}

fn one(event: BackgroundProtocolEvent) -> ProtocolOutputSequence {
    ProtocolOutputSequence::from_background_event(event)
}

fn nothing() -> ProtocolOutputSequence {
    ProtocolOutputSequence::empty()
}

fn labels(output: &ProtocolOutputSequence) -> Vec<u64> {
    output
        .events
        .iter()
        .map(|event| event.message.as_u64().unwrap_or(0))
        .collect()
}

fn event_labels(events: &[BackgroundProtocolEvent]) -> Vec<u64> {
    events
        .iter()
        .map(|event| event.message.as_u64().unwrap_or(0))
        .collect()
}

fn failure(label: u64, message: &str) -> CdpSchedulerProgressFailure {
    CdpSchedulerProgressFailure::new(
        one(event(label)),
        DevToolsError::new(DevToolsErrorKind::Internal, message),
    )
}

fn outcome(events: Vec<BackgroundProtocolEvent>) -> CdpTurnOutcome {
    CdpTurnOutcome {
        events,
        post_renderer_output_events: Vec::new(),
        renderer_output_boundary: None,
        post_response_events: Vec::new(),
        scheduler_events: Vec::new(),
        renderer_output_predecessor: None,
    }
}

fn started(key: u64, cancellation: u64, superseded: Vec<u64>) -> CdpSchedulerEvent {
    CdpSchedulerEvent::BackgroundNavigationStarted {
        key,
        cancellation,
        superseded,
    }
}

fn scheduler() -> CdpScheduler {
    CdpScheduler::new(HostAdapterView {
        current_routes: vec![1, 2],
        pending_javascript_dialog: false,
        projected: Vec::new(),
    })
}

fn navigating() -> CdpScheduler {
    let mut scheduler = scheduler();
    scheduler.apply_scheduler_events(vec![started(9, 90, Vec::new())]);
    scheduler
}

fn work(publish_sequence: u64) -> ProtocolSchedulerWork {
    ProtocolSchedulerWork {
        publish_sequence,
        kind: ProtocolSchedulerWorkKind::Other,
        is_ready: true,
        main_document_load_observation_id: None,
    }
}

fn load_work(publish_sequence: u64, observation: u64, is_ready: bool) -> ProtocolSchedulerWork {
    ProtocolSchedulerWork {
        publish_sequence,
        kind: ProtocolSchedulerWorkKind::MainDocumentLoadFactProjection,
        is_ready,
        main_document_load_observation_id: Some(observation),
    }
}

fn cursor(stream: u64, position: u64) -> RendererOutputCursor {
    RendererOutputCursor { stream, position }
}

fn publication(
    stream: u64,
    position: u64,
    records: Vec<RendererOutputItem>,
    content: u64,
) -> RendererOutputTransportMessage {
    RendererOutputTransportMessage::Publication(RendererOutputPublication {
        cursor: cursor(stream, position),
        records,
        content,
    })
}

fn command_context(target: Option<&str>) -> DevToolsCommandContext {
    DevToolsCommandContext {
        protocol: DevToolsProtocol::WebDriverBidi,
        session_id: None,
        target_id: target.map(str::to_owned),
        browser_context_id: None,
    }
}

fn navigate(wait: DevToolsNavigationWait) -> DevToolsCommand {
    DevToolsCommand::Navigate(DevToolsNavigateCommand {
        context: command_context(Some("target-1")),
        url: "https://example.test/".to_owned(),
        wait,
    })
}

fn navigated(loader: Option<&str>, navigation: Option<&str>) -> DevToolsCommandResult {
    DevToolsCommandResult::Navigate(DevToolsNavigateResult {
        loader_id: loader.map(str::to_owned),
        navigation_id: navigation.map(str::to_owned),
    })
}

fn page(instance: u64) -> PageResidenceIdentity {
    PageResidenceIdentity {
        browser_context_id: "context-1".to_owned(),
        target_id: Some("target-1".to_owned()),
        residence: PageResidence {
            instance,
            generation: 0,
        },
    }
}

fn wait_key(document: u64) -> DevToolsDocumentLifecycleWaitKey {
    DevToolsDocumentLifecycleWaitKey {
        document,
        milestone: LOAD,
        frame_id: "frame-1".to_owned(),
    }
}

#[test]
fn remove_browser_context_uses_interleaved_owner_dispatch() {
    let command = DevToolsCommand::RemoveBrowserContext(DevToolsRemoveBrowserContextCommand {
        context: DevToolsCommandContext {
            protocol: DevToolsProtocol::WebDriverBidi,
            session_id: None,
            target_id: None,
            browser_context_id: None,
        },
        browser_context_id: "BID-owner".to_owned(),
    });

    assert!(devtools_command_uses_browser_owner_context_disposal(
        &command
    ));
}

#[test]
fn terminal_fetch_decision_uses_interleaved_dispatch() {
    let command = DevToolsCommand::FailInterceptedRequest(DevToolsFailInterceptedRequestCommand {
        context: DevToolsCommandContext {
            protocol: DevToolsProtocol::WebDriverBidi,
            session_id: None,
            target_id: None,
            browser_context_id: None,
        },
        request_id: "request-owner".to_owned(),
        error_text: "Aborted".to_owned(),
    });

    assert!(devtools_command_uses_interleaved_fetch_dispatch(&command));
}

#[test]
fn history_delta_enters_browser_owner_dispatch() {
    let command = DevToolsCommand::TraverseHistory(DevToolsTraverseHistoryCommand {
        context: DevToolsCommandContext {
            protocol: DevToolsProtocol::WebDriverBidi,
            session_id: None,
            target_id: Some("target-history".to_owned()),
            browser_context_id: None,
        },
        destination: DevToolsHistoryTraversalDestination::Delta(-1),
        wait: DevToolsNavigationWait::Load,
    });

    assert!(devtools_command_uses_browser_owner_dispatch(&command));
}

#[test]
fn navigation_publication_buffer_releases_only_the_exact_commit_stream() {
    let navigation_stream = 801;
    let unrelated_stream = 802;
    let commit_publication = publication(
        navigation_stream,
        1,
        vec![RendererOutputItem::MainDocumentCommit],
        1,
    );
    let mut buffer = NavigationRendererPublicationBuffer::new();

    assert!(
        buffer
            .admit_or_buffer(commit_publication.clone(), true, None)
            .is_none(),
        "a main-Document publication must wait for the Browser commit"
    );
    assert!(buffer.take_releasable(true).is_none());
    assert!(
        buffer
            .take_for_predecessor(unrelated_stream, false)
            .is_none(),
        "an unrelated command fence must skip the held navigation stream"
    );

    let control = RendererOutputTransportMessage::StreamControl(unrelated_stream);
    assert_eq!(
        buffer.admit_or_buffer(control.clone(), true, None),
        Some(control),
        "stream controls remain admissible while a navigation commit is pending"
    );
    assert_eq!(
        buffer.take_for_predecessor(navigation_stream, true),
        Some(commit_publication),
        "the exact navigation boundary releases its own concrete publication"
    );
}

#[test]
fn every_command_is_carried_out_in_one_way() {
    let opaque = || DevToolsOpaqueCommand {
        context: command_context(None),
        content: 5,
    };
    let held = || DevToolsInterceptedRequestCommand {
        context: command_context(None),
        request_id: "request-1".to_owned(),
    };
    let commands = vec![
        (DevToolsCommand::Runtime(opaque()), CommandDispatch::Runtime),
        (DevToolsCommand::Other(opaque()), CommandDispatch::Direct),
        (
            DevToolsCommand::ContinueInterceptedRequest(held()),
            CommandDispatch::Fetch,
        ),
        (
            DevToolsCommand::ContinueInterceptedResponse(held()),
            CommandDispatch::Fetch,
        ),
        (
            DevToolsCommand::ContinueWithAuth(held()),
            CommandDispatch::Fetch,
        ),
        (
            DevToolsCommand::FulfillInterceptedRequest(held()),
            CommandDispatch::Fetch,
        ),
        (
            navigate(DevToolsNavigationWait::Immediate),
            CommandDispatch::OwnerNavigation,
        ),
        (
            DevToolsCommand::Reload(DevToolsReloadCommand {
                context: command_context(None),
                wait: DevToolsNavigationWait::Load,
            }),
            CommandDispatch::OwnerNavigation,
        ),
    ];
    for (command, expected) in &commands {
        assert_eq!(command.dispatch(), *expected);
    }
    assert!(devtools_command_uses_interleaved_runtime_dispatch(
        &commands[0].0
    ));
    assert!(!devtools_command_uses_browser_owner_dispatch(
        &commands[0].0
    ));
}

#[test]
fn only_navigations_wait_for_a_milestone() {
    assert_eq!(
        devtools_navigation_wait(&navigate(DevToolsNavigationWait::Load)),
        Some(DevToolsNavigationWait::Load)
    );
    let other = DevToolsCommand::Other(DevToolsOpaqueCommand {
        context: command_context(None),
        content: 1,
    });
    assert_eq!(devtools_navigation_wait(&other), None);
    assert_eq!(
        devtools_navigation_lifecycle_milestone(Some(DevToolsNavigationWait::DomContentLoaded)),
        Some(DOM)
    );
    assert_eq!(
        devtools_navigation_lifecycle_milestone(Some(DevToolsNavigationWait::Load)),
        Some(LOAD)
    );
    assert_eq!(
        devtools_navigation_lifecycle_milestone(Some(DevToolsNavigationWait::Immediate)),
        None
    );
    assert_eq!(devtools_navigation_lifecycle_milestone(None), None);
}

#[test]
fn loader_comes_from_the_answer_or_its_navigation() {
    let loader = |result: Result<DevToolsCommandResult, DevToolsError>| {
        devtools_navigation_result_loader_id(&result)
    };
    assert_eq!(
        loader(Ok(navigated(Some("loader-1"), Some("navigation-2")))),
        Some("loader-1".to_owned())
    );
    assert_eq!(
        loader(Ok(navigated(None, Some("navigation-loader-2")))),
        Some("loader-2".to_owned())
    );
    assert_eq!(
        loader(Ok(navigated(None, Some("navigation-")))),
        Some(String::new())
    );
    assert_eq!(loader(Ok(navigated(None, Some("loader-2")))), None);
    assert_eq!(loader(Ok(DevToolsCommandResult::Empty)), None);
    assert_eq!(
        loader(Err(DevToolsError::new(DevToolsErrorKind::Internal, "x"))),
        None
    );
}

#[test]
fn lifecycle_wait_errors_say_what_happened() {
    let text = |state, milestone| {
        devtools_document_lifecycle_wait_error(state, milestone)
            .map(|error| (error.kind, error.message))
    };
    assert_eq!(text(DevToolsDocumentLifecycleWaitState::Reached, LOAD), None);
    assert_eq!(
        text(DevToolsDocumentLifecycleWaitState::Interrupted, LOAD),
        Some((
            DevToolsErrorKind::Internal,
            "Navigation interrupted before load".to_owned()
        ))
    );
    assert_eq!(
        text(DevToolsDocumentLifecycleWaitState::Superseded, DOM),
        Some((
            DevToolsErrorKind::NavigationChangingDocument,
            "Navigation was superseded before DOMContentLoaded".to_owned()
        ))
    );
    assert_eq!(
        text(DevToolsDocumentLifecycleWaitState::Unavailable, LOAD),
        Some((
            DevToolsErrorKind::NoSuchTarget,
            "Target closed before navigation load".to_owned()
        ))
    );
    assert_eq!(
        text(DevToolsDocumentLifecycleWaitState::Pending, DOM),
        Some((
            DevToolsErrorKind::Internal,
            "Navigation DOMContentLoaded wait was cancelled".to_owned()
        ))
    );
}

#[test]
fn transport_errors_say_how_it_ended() {
    assert_eq!(
        renderer_output_transport_terminal_error(true, "navigation completion").message,
        "Renderer output transport exceeded its bounded admission budget before navigation completion"
    );
    let closed = renderer_output_transport_terminal_error(false, "navigation completion");
    assert_eq!(
        closed.message,
        "Renderer output transport closed before navigation completion"
    );
    assert_eq!(closed.kind, DevToolsErrorKind::Internal);
}

#[test]
fn gate_is_open_until_all_navigations_are_drained() {
    let mut gate = BackgroundNavigationGate::new();
    assert!(!gate.has_inflight_navigation());
    assert!(gate.note_navigation_started(1, 10, &Vec::new()).is_empty());
    assert!(gate.note_navigation_started(2, 20, &Vec::new()).is_empty());
    assert_eq!(gate.note_navigation_started(3, 30, &vec![2, 7]), vec![20]);
    assert!(gate.note_navigation_started(3, 31, &vec![1]).is_empty());
    gate.note_navigation_completion_drained(3);
    assert!(gate.has_inflight_navigation());
    gate.note_navigation_completion_drained(2);
    gate.note_navigation_completion_drained(1);
    assert!(!gate.has_inflight_navigation());
}

#[test]
fn subresources_leave_after_the_document_response() {
    let mut barrier =
        ForegroundNavigationNetworkBarrier::for_navigation_wait(Some(DevToolsNavigationWait::Load));
    let output = barrier.route_output(sequence(vec![
        subresource(1),
        event(2),
        subresource(3),
        response_started(4),
        subresource(5),
    ]));
    assert_eq!(labels(&output), vec![2, 4, 1, 3, 5]);
    assert!(!barrier.wait_for_document_response_started);
}

#[test]
fn other_waits_hold_no_subresources_back() {
    let mut barrier = ForegroundNavigationNetworkBarrier::for_navigation_wait(Some(
        DevToolsNavigationWait::DomContentLoaded,
    ));
    let output = barrier.route_output(sequence(vec![subresource(1), event(2)]));
    assert_eq!(labels(&output), vec![1, 2]);
}

#[test]
fn held_streams_let_others_pass_in_order() {
    let mut buffer = NavigationRendererPublicationBuffer::new();
    let commit = publication(5, 1, vec![RendererOutputItem::MainDocumentCommit], 1);
    let later = publication(5, 2, vec![RendererOutputItem::Other], 2);
    let unrelated = publication(6, 1, vec![RendererOutputItem::Other], 3);
    assert_eq!(renderer_publication_stream(&later), Some(5));
    assert_eq!(renderer_main_document_commit_stream(&commit), Some(5));
    assert_eq!(renderer_main_document_commit_stream(&later), None);
    assert_eq!(buffer.admit_or_buffer(commit.clone(), true, None), None);
    assert_eq!(buffer.admit_or_buffer(later.clone(), true, None), None);
    assert_eq!(
        buffer.admit_or_buffer(unrelated.clone(), true, None),
        Some(unrelated)
    );
    assert_eq!(buffer.take_for_predecessor(5, false), None);
    assert_eq!(buffer.take_releasable(false), Some(commit));
    assert_eq!(buffer.take_releasable(false), Some(later));
    assert_eq!(buffer.take_releasable(false), None);
}

#[test]
fn a_released_stream_passes_at_once() {
    let mut buffer = NavigationRendererPublicationBuffer::new();
    let commit = publication(5, 1, vec![RendererOutputItem::MainDocumentCommit], 1);
    assert_eq!(
        buffer.admit_or_buffer(commit.clone(), true, Some(5)),
        Some(commit.clone())
    );
    assert_eq!(
        buffer.admit_or_buffer(commit.clone(), false, None),
        Some(commit)
    );
}

#[test]
fn output_is_cut_at_the_first_answer() {
    let mut output = sequence(vec![event(1), answer(7), answer(8), event(2)]);
    let (prefix, id, taken) = output
        .split_next_protocol_message_with_any_id(&vec![8, 7])
        .expect("an answer is there");
    assert_eq!(labels(&prefix), vec![1]);
    assert_eq!(id, 7);
    assert_eq!(taken.protocol_message_id(), Some(7));
    assert_eq!(output.len(), 2);
    assert!(output
        .split_next_protocol_message_with_any_id(&vec![9])
        .is_none());
    assert_eq!(output.take_protocol_events_with_id(8).len(), 1);
    assert_eq!(labels(&output), vec![2]);
}

#[test]
fn output_is_cut_at_the_first_ready_inspector_response() {
    let mut ready = event(2);
    ready.facts.runtime_response = Some(40);
    let mut output = sequence(vec![event(1), ready, event(3)]);
    let (prefix, response) = output
        .split_next_runtime_response_ready()
        .expect("a response is ready");
    assert_eq!(labels(&prefix), vec![1]);
    assert_eq!(response, 40);
    assert_eq!(labels(&output), vec![3]);
    assert!(output.split_next_runtime_response_ready().is_none());
}

#[test]
fn output_is_parted_and_searched_in_order() {
    let (networked, remaining) =
        sequence(vec![network(1), event(2), network(3), event(4)]).split_network_observations();
    assert_eq!(labels(&networked), vec![1, 3]);
    assert_eq!(labels(&remaining), vec![2, 4]);
    let output = sequence(vec![
        announcement(1, 5, LOAD),
        download(2, "frame-1"),
        announcement(3, 5, DOM),
    ]);
    assert!(output.contains_document_lifecycle_for_since(&wait_key(5), 0));
    assert!(!output.contains_document_lifecycle_for_since(&wait_key(5), 1));
    assert!(!output.contains_document_lifecycle_for_since(&wait_key(6), 0));
    assert!(output.contains_download_start_for_frame_since("frame-1", 1));
    assert!(!output.contains_download_start_for_frame_since("frame-1", 2));
    assert!(!output.contains_download_start_for_frame_since("frame-2", 0));
}

#[test]
fn residences_wait_for_clients_and_loads() {
    let mut queues = SchedulerQueues::new();
    queues.enqueue_renderer_output_publication(cursor(1, 1), one(event(1)), vec![30, 31], None);
    queues.enqueue_protocol_work(work(2), Vec::new(), None);
    assert_eq!(queues.protocol_residence_len(), 2);
    assert!(queues.front_needs_client_turn_predecessor());
    assert!(!queues.should_complete_next_residence());
    queues.satisfy_front_client_turn_predecessor();
    assert!(!queues.front_needs_client_turn_predecessor());
    assert!(!queues.should_complete_next_residence());
    queues.satisfy_load_predecessor(30);
    assert!(!queues.should_complete_next_residence());
    queues.satisfy_load_predecessor(31);
    assert!(queues.should_complete_next_residence());
    let residence = queues
        .pop_next_protocol_residence()
        .expect("the front is ready");
    assert!(matches!(
        residence.content,
        ResidenceContent::RendererOutputPublication { .. }
    ));
    assert_eq!(
        residence.client_turn_predecessor,
        ClientTurnPredecessor::Satisfied
    );
    assert_eq!(queues.protocol_residence_len(), 1);
}

#[test]
fn snapshot_goes_back_to_the_front() {
    let mut queues = SchedulerQueues::new();
    queues.enqueue_protocol_work(work(1), Vec::new(), None);
    queues.enqueue_renderer_output_publication(cursor(1, 1), one(event(1)), Vec::new(), None);
    queues.enqueue_renderer_output_publication(cursor(1, 9), one(event(2)), Vec::new(), None);
    let predecessors = queues.take_renderer_output_predecessor_snapshot(cursor(1, 5));
    assert_eq!(predecessors.len(), 1);
    assert_eq!(queues.protocol_residence_len(), 2);
    queues.restore_snapshot_to_front(predecessors);
    let snapshot = queues.take_snapshot();
    assert_eq!(snapshot.len(), 3);
    assert!(matches!(
        snapshot[0].content,
        ResidenceContent::RendererOutputPublication { .. }
    ));
    assert_eq!(queues.protocol_residence_len(), 0);
}

fn subscription(
    session: &str,
    generation: i32,
    status: PageScreencastSubscriptionStatus,
) -> PageScreencastSubscription {
    PageScreencastSubscription {
        session_id: Some(session.to_owned()),
        generation,
        status,
    }
}

fn registration(session: &str, generation: i32, nth: u32) -> PageScreencastRegistration {
    PageScreencastRegistration {
        session_id: Some(session.to_owned()),
        generation,
        every_nth_frame: nth,
    }
}

#[test]
fn screencast_frames_follow_their_interval() {
    assert_eq!(page_screencast_interval(3), 3_000);
    assert_eq!(PAGE_SCREENCAST_RETRY_INTERVAL, 1_000);
    let ready = PageScreencastSubscriptionStatus::Ready;
    let mut screencasts = PageScreencasts::new();
    screencasts.register_page_screencast(registration("s", 1, 2), 100);
    assert!(screencasts.page_screencast_schedule_matches(Some("s"), 1));
    assert!(!screencasts.page_screencast_schedule_matches(Some("s"), 2));
    let subscriptions = vec![subscription("s", 1, ready)];
    assert_eq!(
        screencasts.next_page_screencast_deadline(&subscriptions),
        Some(100)
    );
    let requests = screencasts.start_due_page_screencast_captures(&subscriptions, 100);
    assert_eq!(requests.len(), 1);
    assert_eq!(requests[0].known_visual_state, None);
    screencasts.note_page_screencast_capture_start(
        Some("s"),
        1,
        PageScreencastCaptureStart::Pending,
        100,
    );
    let frame = screencasts
        .complete_page_screencast_capture(
            Some("s".to_owned()),
            1,
            PageScreencastCaptureCompletion::Frame {
                event: event(5),
                visual_state: 77,
            },
            110,
        )
        .expect("a frame was captured");
    assert_eq!(frame.visual_state, 77);
    screencasts.note_page_screencast_frame_emitted(Some("s"), 1, 77, 120);
    assert_eq!(
        screencasts.next_page_screencast_deadline(&subscriptions),
        Some(2_120)
    );
    assert!(screencasts
        .start_due_page_screencast_captures(&subscriptions, 2_119)
        .is_empty());
    let requests = screencasts.start_due_page_screencast_captures(&subscriptions, 2_120);
    assert_eq!(requests[0].known_visual_state, Some(77));
}

#[test]
fn a_failed_screencast_capture_is_tried_again() {
    let ready = PageScreencastSubscriptionStatus::Ready;
    let mut screencasts = PageScreencasts::new();
    screencasts.register_page_screencast(registration("s", 1, 5), 0);
    let subscriptions = vec![subscription("s", 1, ready)];
    assert!(screencasts
        .complete_page_screencast_capture(
            Some("s".to_owned()),
            1,
            PageScreencastCaptureCompletion::Retry,
            40,
        )
        .is_none());
    assert_eq!(
        screencasts.next_page_screencast_deadline(&subscriptions),
        Some(1_040)
    );
    screencasts.complete_page_screencast_capture(
        Some("s".to_owned()),
        1,
        PageScreencastCaptureCompletion::Stale,
        50,
    );
    assert!(!screencasts.page_screencast_schedule_matches(Some("s"), 1));
}

#[test]
fn screencasts_of_other_generations_are_left_alone() {
    let ready = PageScreencastSubscriptionStatus::Ready;
    let mut screencasts = PageScreencasts::new();
    screencasts.register_page_screencast(registration("s", 1, 1), 10);
    screencasts.register_page_screencast(registration("s", 2, 1), 20);
    screencasts.register_page_screencast(registration("t", 1, 1), 30);
    assert!(!screencasts.page_screencast_schedule_matches(Some("s"), 1));
    screencasts.note_page_screencast_frame_emitted(Some("s"), 1, 5, 500);
    let subscriptions = vec![subscription("s", 2, ready), subscription("t", 1, ready)];
    assert_eq!(
        screencasts.next_page_screencast_deadline(&subscriptions),
        Some(20)
    );
    let only_t = vec![subscription("t", 1, ready)];
    assert_eq!(
        screencasts.next_page_screencast_deadline(&only_t),
        Some(30)
    );
    assert!(!screencasts.page_screencast_schedule_matches(Some("s"), 2));
}

#[test]
fn events_wait_for_a_navigation_and_stale_ones_are_dropped() {
    let mut scheduler = navigating();
    assert!(scheduler.has_inflight_background_navigation());
    let output = scheduler.route_background_events_around_inflight_navigation(vec![
        waiting(1),
        event(2),
        routed(3, 8),
        routed(4, 2),
        waiting(5),
    ]);
    assert_eq!(labels(&output), vec![2, 4]);
    let kept =
        scheduler.append_navigation_gate_release_before_renderer_boundary(one(event(6)));
    assert_eq!(labels(&kept), vec![6]);
    let (first, later) = scheduler.drain_background_navigation_completion(
        Some(9),
        true,
        outcome(vec![waiting(7)]),
    );
    assert_eq!(labels(&first), vec![7]);
    assert!(later.is_empty());
    let released =
        scheduler.append_navigation_gate_release_before_renderer_boundary(one(event(8)));
    assert_eq!(labels(&released), vec![8, 1, 5]);
    assert!(scheduler.pending_navigation_background_events.is_empty());
}

#[test]
fn an_event_whose_route_is_gone_is_not_released() {
    let mut scheduler = navigating();
    let mut parked = routed(1, 2);
    parked.facts.waits_for_navigation = true;
    scheduler.route_background_event_around_inflight_navigation(parked);
    scheduler.view.current_routes = vec![1];
    let output = scheduler.drain_pending_navigation_background_events();
    assert!(output.is_empty());
}

#[test]
fn a_superseded_navigation_is_cancelled() {
    let mut scheduler = navigating();
    scheduler.apply_scheduler_events(vec![started(10, 91, vec![9])]);
    assert_eq!(scheduler.cancellations, vec![90]);
    scheduler.drain_background_navigation_completion(Some(9), true, outcome(Vec::new()));
    assert!(scheduler.has_inflight_background_navigation());
    scheduler.drain_background_navigation_completion(Some(10), false, outcome(Vec::new()));
    assert!(scheduler.has_inflight_background_navigation());
    scheduler.drain_background_navigation_completion(Some(10), true, outcome(Vec::new()));
    assert!(!scheduler.has_inflight_background_navigation());
}

#[test]
fn a_queue_is_drained_in_order() {
    let mut scheduler = scheduler();
    let mut queue = BackgroundOutputQueue::new();
    assert!(queue.send(event(1)).is_ok());
    assert!(queue
        .send_browser_navigate_outcome(BrowserNavigateCommandOutcomeDelivery::completed(
            7,
            Some("session-1"),
            "https://example.test/",
            Value::from(3u64),
        ))
        .is_ok());
    assert!(queue.send(event(2)).is_ok());
    let output = scheduler.drain_background_events_around_inflight_navigation(&mut queue);
    assert_eq!(output.len(), 3);
    assert_eq!(output.events[1].protocol_message_id(), Some(7));
    assert_eq!(labels(&output), vec![1, 0, 2]);
}

#[test]
fn steps_wait_for_navigations_clients_and_loads() {
    let mut scheduler = scheduler();
    assert_eq!(
        scheduler.next_protocol_scheduler_step(),
        ProtocolSchedulerStep::Wait
    );
    scheduler.apply_scheduler_events_with_load_predecessors(
        vec![CdpSchedulerEvent::ProtocolWorkPublished { work: work(1) }],
        &vec![50],
        None,
    );
    assert_eq!(
        scheduler.next_protocol_scheduler_step(),
        ProtocolSchedulerStep::SatisfyClientTurnPredecessor
    );
    scheduler.queues.satisfy_front_client_turn_predecessor();
    assert_eq!(
        scheduler.next_protocol_scheduler_step(),
        ProtocolSchedulerStep::Wait
    );
    let output = scheduler.complete_deferred_load_completion(50, outcome(vec![event(3)]));
    assert_eq!(labels(&output), vec![3]);
    assert_eq!(
        scheduler.next_protocol_scheduler_step(),
        ProtocolSchedulerStep::CompleteReadyResidence
    );
    scheduler.apply_scheduler_events(vec![started(9, 90, Vec::new())]);
    assert_eq!(
        scheduler.next_protocol_scheduler_step(),
        ProtocolSchedulerStep::Wait
    );
}

#[test]
fn a_deferred_load_starts_only_at_the_front() {
    let mut scheduler = scheduler();
    scheduler
        .queues
        .enqueue_protocol_work(load_work(1, 50, true), Vec::new(), None);
    assert!(scheduler.front_protocol_residence_is_main_document_load_action());
    assert!(scheduler.has_causally_ready_main_document_load_residence());
    assert!(!scheduler.next_ready_protocol_residence_is_main_document_load_action());
    assert!(scheduler.start_next_deferred_load_completion().is_none());
    scheduler.queues.satisfy_front_client_turn_predecessor();
    let work = scheduler
        .start_next_deferred_load_completion()
        .expect("the load is at the front");
    assert_eq!(work.publish_sequence, 1);
    assert_eq!(scheduler.queues.protocol_residence_len(), 0);
}

#[test]
fn a_turn_places_its_events_behind_its_effects() {
    let mut scheduler = scheduler();
    let mut turn = outcome(vec![waiting(1), event(2)]);
    turn.scheduler_events = vec![started(9, 90, Vec::new())];
    turn.post_renderer_output_events = vec![event(3)];
    turn.post_response_events = vec![waiting(4), event(5)];
    let output = scheduler.apply_protocol_only_turn_outcome(turn);
    assert_eq!(labels(&output), vec![2, 3, 5]);
    assert_eq!(
        event_labels(&scheduler.pending_navigation_background_events),
        vec![1, 4]
    );
}

#[test]
fn a_command_turn_keeps_its_parts_apart() {
    let mut scheduler = scheduler();
    let mut turn = outcome(vec![event(1)]);
    turn.post_response_events = vec![event(2)];
    turn.post_renderer_output_events = vec![event(3)];
    turn.scheduler_events = vec![started(9, 90, Vec::new())];
    turn.renderer_output_boundary = Some(cursor(4, 4));
    let turn = scheduler.complete_command_turn(turn);
    assert_eq!(labels(&turn.output), vec![1]);
    assert_eq!(event_labels(&turn.post_response_events), vec![2]);
    assert_eq!(labels(&turn.post_renderer_output), vec![3]);
    assert_eq!(turn.scheduler_events.len(), 1);
    assert_eq!(turn.renderer_output_boundary, Some(cursor(4, 4)));
    assert!(!scheduler.has_inflight_background_navigation());
    let output =
        route_registered_runtime_inspector_response(vec![event(9)], vec![event(7), event(8)]);
    assert_eq!(labels(&output), vec![7, 8, 9]);
}

#[test]
fn page_effects_wait_for_the_load_they_follow() {
    let mut scheduler = scheduler();
    scheduler
        .queues
        .enqueue_protocol_work(load_work(6, 60, false), Vec::new(), None);
    let message = publication(3, 7, vec![RendererOutputItem::Other], 1);
    let ingress = scheduler.begin_renderer_ingress(
        Vec::new(),
        &message,
        vec![59],
        Some(99),
        &vec![6],
    );
    assert_eq!(ingress.cursor, Some(cursor(3, 7)));
    assert_eq!(ingress.load_predecessors, vec![59, 60]);
    assert_eq!(ingress.future_load_predecessor, None);
    let mut turn = outcome(vec![event(1), network(2)]);
    turn.post_response_events = vec![event(3)];
    turn.scheduler_events = vec![CdpSchedulerEvent::ProtocolWorkPublished { work: work(8) }];
    let output = scheduler.finish_renderer_ingress(ingress, turn);
    assert_eq!(labels(&output), vec![2]);
    assert_eq!(scheduler.queues.protocol_residence_len(), 3);
    match &scheduler.queues.protocol_residences[1].content {
        ResidenceContent::RendererOutputPublication { output, .. } => {
            assert_eq!(labels(output), vec![1, 3]);
        }
        ResidenceContent::ProtocolWork(_) => panic!("output precedes its work"),
    }
}

#[test]
fn a_publication_without_a_load_before_it_leaves_at_once() {
    let mut scheduler = scheduler();
    let message = publication(3, 7, vec![RendererOutputItem::Other], 1);
    let ingress =
        scheduler.begin_renderer_ingress(Vec::new(), &message, Vec::new(), None, &Vec::new());
    let output = scheduler.finish_renderer_ingress(ingress, outcome(vec![event(1), network(2)]));
    assert_eq!(labels(&output), vec![1, 2]);
    assert_eq!(scheduler.queues.protocol_residence_len(), 0);
}

#[test]
fn a_run_completes_what_is_ready_in_order() {
    let mut scheduler = scheduler();
    scheduler.queues.enqueue_renderer_output_publication(
        cursor(1, 1),
        one(event(1)),
        Vec::new(),
        None,
    );
    scheduler
        .queues
        .enqueue_protocol_work(load_work(2, 70, true), Vec::new(), None);
    scheduler.queues.enqueue_renderer_output_publication(
        cursor(1, 2),
        one(event(3)),
        vec![70],
        None,
    );
    scheduler.queues.enqueue_protocol_work(work(4), vec![71], None);
    let mut run = scheduler.complete_ready_protocol_residences_after_command();
    let step = run.advance(&mut scheduler);
    let handed = match step {
        RunStep::Work(work) => work,
        RunStep::Done => panic!("work is ready"),
    };
    assert_eq!(handed.publish_sequence, 2);
    run.work_completed(&mut scheduler, handed, outcome(vec![event(2)]));
    assert!(matches!(run.advance(&mut scheduler), RunStep::Done));
    let output = run.into_output();
    assert_eq!(labels(&output), vec![1, 2]);
    assert_eq!(scheduler.queues.protocol_residence_len(), 2);
}

#[test]
fn a_run_after_a_command_stops_at_a_navigation() {
    let mut scheduler = navigating();
    scheduler.queues.enqueue_renderer_output_publication(
        cursor(1, 1),
        one(event(1)),
        Vec::new(),
        None,
    );
    let mut run = scheduler.complete_ready_protocol_residences_after_command();
    assert!(matches!(run.advance(&mut scheduler), RunStep::Done));
    assert!(run.into_output().is_empty());
    assert_eq!(scheduler.queues.protocol_residence_len(), 1);
    let mut run =
        scheduler.complete_renderer_output_predecessor_before_runtime_response(cursor(1, 0));
    assert!(matches!(run.advance(&mut scheduler), RunStep::Done));
    assert!(run.into_output().is_empty());
    assert_eq!(scheduler.queues.protocol_residence_len(), 1);
}

#[test]
fn a_load_wait_does_not_start_a_load_that_has_not_happened() {
    let mut scheduler = scheduler();
    scheduler
        .queues
        .enqueue_protocol_work(load_work(2, 70, false), Vec::new(), None);
    let mut run = scheduler.complete_ready_protocol_residences_for_external_load_wait();
    assert!(matches!(run.advance(&mut scheduler), RunStep::Done));
    assert_eq!(scheduler.queues.protocol_residence_len(), 1);
    assert!(scheduler.has_deferred_main_document_load_completion(&vec![2]));
    assert!(!scheduler.has_deferred_main_document_load_completion(&vec![3]));
}

#[test]
fn a_drain_goes_on_while_a_navigation_is_in_flight() {
    let mut scheduler = navigating();
    let mut drain = InflightNavigationDrain::new();
    assert!(drain.receives(&scheduler));
    drain.received(WaitInput::Applied(Ok(one(event(1)))));
    assert!(drain.receives(&scheduler));
    scheduler.drain_background_navigation_completion(Some(9), true, outcome(Vec::new()));
    assert!(!drain.receives(&scheduler));
    let output = drain.finish().unwrap_or_else(|_| panic!("the drain is done"));
    assert_eq!(labels(&output), vec![1]);

    let scheduler = navigating();
    let mut drain = InflightNavigationDrain::new();
    drain.received(WaitInput::Applied(Ok(one(event(1)))));
    drain.received(WaitInput::Closed { over_budget: false });
    assert!(!drain.receives(&scheduler));
    let (output, error) = match drain.finish() {
        Ok(_) => panic!("the transport closed"),
        Err(failure) => failure.into_parts(),
    };
    assert_eq!(labels(&output), vec![1]);
    assert_eq!(
        error.message,
        "Renderer output transport closed before the in-flight navigation completed"
    );
}

#[test]
fn an_observer_ends_once_the_milestone_is_announced() {
    let mut observer = DocumentLifecycleObserver::new(&wait_key(5));
    observer.advance(ObserverEvent::Ready(Ok(one(announcement(1, 4, LOAD)))));
    assert_eq!(observer.stage, ObserverStage::ReadState);
    observer.advance(ObserverEvent::State(
        DevToolsDocumentLifecycleWaitState::Pending,
    ));
    assert_eq!(observer.stage, ObserverStage::Receive);
    observer.advance(ObserverEvent::Input(WaitInput::Applied(Ok(one(event(2))))));
    assert_eq!(observer.stage, ObserverStage::CompleteReady);
    observer.advance(ObserverEvent::Ready(Ok(one(announcement(3, 5, LOAD)))));
    assert_eq!(observer.stage, ObserverStage::Done);
    let output = observer
        .finish()
        .unwrap_or_else(|_| panic!("the milestone was announced"));
    assert_eq!(labels(&output), vec![1, 2, 3]);
}

#[test]
fn an_observer_ends_when_the_document_is_gone() {
    let mut observer = DocumentLifecycleObserver::new(&wait_key(5));
    observer.advance(ObserverEvent::Ready(Ok(nothing())));
    observer.advance(ObserverEvent::State(
        DevToolsDocumentLifecycleWaitState::Superseded,
    ));
    assert_eq!(observer.stage, ObserverStage::Done);
    assert!(observer.finish().is_ok());

    let mut observer = DocumentLifecycleObserver::new(&wait_key(5));
    observer.advance(ObserverEvent::Ready(Err(failure(1, "broken"))));
    assert_eq!(observer.stage, ObserverStage::Done);
    match observer.finish() {
        Ok(_) => panic!("progress failed"),
        Err(failure) => assert_eq!(labels(&failure.protocol_output), vec![1]),
    }
}

#[test]
fn a_deferred_load_wait_takes_its_stages_in_turn() {
    let mut wait = DeferredLoadWait::new();
    wait.advance(LoadEvent::Drained(one(event(1))));
    assert_eq!(wait.stage, LoadStage::DrainLoads);
    wait.advance(LoadEvent::Drained(one(event(2))));
    wait.advance(LoadEvent::DrainedAgain {
        output: one(event(3)),
        waits: true,
    });
    assert_eq!(wait.stage, LoadStage::CompleteReady);
    wait.advance(LoadEvent::Ready {
        progress: Ok(nothing()),
        waits: true,
    });
    assert_eq!(wait.stage, LoadStage::Receive);
    wait.advance(LoadEvent::Input {
        input: WaitInput::Applied(Ok(one(event(4)))),
        waits: false,
    });
    assert_eq!(wait.stage, LoadStage::Done);
    let output = wait.finish().unwrap_or_else(|_| panic!("the load is shown"));
    assert_eq!(labels(&output), vec![1, 2, 3, 4]);
}

#[test]
fn a_deferred_load_wait_ends_with_the_transport() {
    let mut wait = DeferredLoadWait::new();
    wait.advance(LoadEvent::Drained(one(event(1))));
    wait.advance(LoadEvent::Drained(nothing()));
    wait.advance(LoadEvent::DrainedAgain {
        output: nothing(),
        waits: true,
    });
    wait.advance(LoadEvent::Ready {
        progress: Ok(nothing()),
        waits: true,
    });
    wait.advance(LoadEvent::Input {
        input: WaitInput::Closed { over_budget: true },
        waits: true,
    });
    match wait.finish() {
        Ok(_) => panic!("the transport ended"),
        Err(failure) => {
            assert_eq!(labels(&failure.protocol_output), vec![1]);
            assert_eq!(
                failure.error.message,
                "Renderer output transport exceeded its bounded admission budget before the deferred document load completed"
            );
        }
    }
}

#[test]
fn a_fence_takes_in_what_is_held_of_its_stream_first() {
    let mut scheduler = navigating();
    let mut buffer = NavigationRendererPublicationBuffer::new();
    let commit = publication(5, 1, vec![RendererOutputItem::MainDocumentCommit], 1);
    let other = publication(6, 1, vec![RendererOutputItem::Other], 2);
    buffer.admit_or_buffer(commit.clone(), true, None);
    let mut fence = RendererOutputFence::new(
        FenceKind::NavigationCompletion,
        cursor(5, 1),
        one(event(1)),
    );
    match fence.next(&scheduler, &mut buffer) {
        FenceStep::Ingest(message) => assert_eq!(message, commit),
        _ => panic!("the stream is unblocked"),
    }
    fence.brought(one(event(2)));
    assert!(matches!(
        fence.next(&scheduler, &mut buffer),
        FenceStep::Receive
    ));
    match fence.received(&scheduler, &mut buffer, other.clone()) {
        FenceStep::Ingest(message) => assert_eq!(message, other),
        _ => panic!("an unrelated stream passes"),
    }
    scheduler.view.projected = vec![cursor(5, 1)];
    assert!(matches!(
        fence.next(&scheduler, &mut buffer),
        FenceStep::Complete
    ));
    let output = fence.finish().unwrap_or_else(|_| panic!("reached"));
    assert_eq!(labels(&output), vec![1, 2]);
}

#[test]
fn a_fence_keeps_what_came_before_the_end_of_the_transport() {
    for (kind, text) in [
        (
            FenceKind::Command,
            "Renderer output transport closed before the command predecessor was projected",
        ),
        (
            FenceKind::NavigationAnswer,
            "Renderer output transport closed before the navigation renderer boundary was projected",
        ),
        (
            FenceKind::NavigationCompletion,
            "Renderer output transport closed before navigation completion",
        ),
    ] {
        let mut fence = RendererOutputFence::new(kind, cursor(5, 1), one(event(1)));
        fence.closed(false);
        match fence.finish() {
            Ok(_) => panic!("the transport closed"),
            Err(failure) => {
                assert_eq!(labels(&failure.protocol_output), vec![1]);
                assert_eq!(failure.error.message, text);
            }
        }
    }
}

#[test]
fn an_owner_turn_leaves_behind_its_renderer_output() {
    let mut scheduler = scheduler();
    let mut turn = outcome(vec![event(2)]);
    turn.renderer_output_predecessor = Some(cursor(1, 1));
    turn.post_response_events = vec![event(3)];
    let turn = scheduler.apply_renderer_owner_turn_outcome(turn);
    assert_eq!(turn.predecessor, Some(cursor(1, 1)));
    let output = turn
        .finish(Ok(one(event(1))))
        .unwrap_or_else(|_| panic!("nothing failed"));
    assert_eq!(labels(&output), vec![1, 2, 3]);
    let turn = scheduler.apply_renderer_owner_turn_outcome(outcome(vec![event(2)]));
    match turn.finish(Err(failure(7, "broken"))) {
        Ok(_) => panic!("what comes first failed"),
        Err(failure) => assert_eq!(labels(&failure.protocol_output), vec![7]),
    }
}

#[test]
fn a_navigation_completion_releases_before_its_boundary() {
    let mut scheduler = navigating();
    scheduler.route_background_event_around_inflight_navigation(waiting(1));
    let mut queue = BackgroundOutputQueue::new();
    assert!(queue.send(event(2)).is_ok());
    let earlier = scheduler.drain_background_events_around_inflight_navigation(&mut queue);
    assert_eq!(labels(&earlier), vec![2]);
    let mut turn = outcome(vec![event(3)]);
    turn.renderer_output_boundary = Some(cursor(5, 5));
    turn.post_renderer_output_events = vec![event(4)];
    assert!(queue.send(event(6)).is_ok());
    let completion = scheduler
        .materialize_background_navigation_completion_with_progress_barrier(
            earlier,
            &mut queue,
            Some(9),
            true,
            turn,
        );
    assert_eq!(labels(&completion.prefix), vec![2, 3, 1]);
    assert_eq!(labels(&completion.suffix), vec![4, 6]);
    let (fence, rest) = completion.into_fence();
    let fence = fence.expect("there is a boundary");
    assert_eq!(fence.cursor, cursor(5, 5));
    assert_eq!(labels(&rest), vec![4, 6]);
}

#[test]
fn a_navigation_that_goes_on_keeps_what_waits_for_it() {
    let mut scheduler = navigating();
    scheduler.route_background_event_around_inflight_navigation(waiting(1));
    let mut queue = BackgroundOutputQueue::new();
    let earlier = scheduler.drain_background_events_around_inflight_navigation(&mut queue);
    assert!(queue.send(waiting(2)).is_ok());
    assert!(queue.send(event(3)).is_ok());
    let completion = scheduler
        .materialize_background_navigation_completion_with_progress_barrier(
            earlier,
            &mut queue,
            Some(9),
            false,
            outcome(vec![event(4)]),
        );
    assert_eq!(labels(&completion.prefix), vec![4]);
    assert_eq!(labels(&completion.suffix), vec![3]);
    let (fence, output) = completion.into_fence();
    assert!(fence.is_none());
    assert_eq!(labels(&output), vec![4, 3]);
}

#[test]
fn inputs_become_actions() {
    let mut scheduler = scheduler();
    let mut inputs = OwnerInputs::new();
    assert!(matches!(
        inputs.selected(
            OwnerSelection::Host(BrowserHostExecutionWake::TurnSelected),
            false
        ),
        Some(CdpSchedulerInterleavedInput::BrowserHostTurn)
    ));
    assert!(inputs
        .selected(OwnerSelection::Host(BrowserHostExecutionWake::Closed), false)
        .is_none());
    assert!(inputs.selected(OwnerSelection::BackgroundEvent(None), false).is_none());
    assert!(matches!(
        scheduler.complete_interleaved_scheduler_input(
            &mut inputs,
            CdpSchedulerInterleavedInput::BrowserFactWake(4)
        ),
        InterleavedAction::CaptureFacts(4)
    ));
    let commit = publication(5, 1, vec![RendererOutputItem::MainDocumentCommit], 1);
    let held = inputs
        .selected(
            OwnerSelection::RendererPublication(Some(commit.clone())),
            true,
        )
        .expect("a publication came");
    match scheduler.complete_interleaved_scheduler_input(&mut inputs, held) {
        InterleavedAction::Output(output) => assert!(output.is_empty()),
        _ => panic!("the publication is held back"),
    }
    inputs.detach_navigation_completion(31);
    inputs.detach_navigation_completion(32);
    assert!(inputs.renderer_navigation_gate_open(false));
    assert!(inputs.take_buffered_input(false).is_none());
    for completed in [33, 31, 32] {
        assert!(inputs.has_detached_navigation_wait());
        match inputs.selected(
            OwnerSelection::Host(BrowserHostExecutionWake::DetachedNavigationCompleted(completed)),
            false,
        ) {
            Some(CdpSchedulerInterleavedInput::DetachedNavigationCompletion(found)) => {
                assert_eq!(found, completed);
            }
            _ => panic!("a detached navigation has completed"),
        }
    }
    assert!(!inputs.has_detached_navigation_wait());
    match inputs.take_buffered_input(false) {
        Some(CdpSchedulerInterleavedInput::RendererPublication { publication, .. }) => {
            assert_eq!(publication, commit);
        }
        _ => panic!("the publication may go"),
    }
}

#[test]
fn only_main_thread_commands_wait_for_a_navigation_flush() {
    assert!(command_waits_for_navigation_flush(
        CdpRendererCommandAccess::MainThread,
        true
    ));
    assert!(!command_waits_for_navigation_flush(
        CdpRendererCommandAccess::MainThread,
        false
    ));
    assert!(!command_waits_for_navigation_flush(
        CdpRendererCommandAccess::Io,
        true
    ));
    assert!(!command_waits_for_navigation_flush(
        CdpRendererCommandAccess::NoRenderer,
        true
    ));
}

fn dispatched() -> DevToolsCommandDispatchOutcome {
    DevToolsCommandDispatchOutcome {
        result: Ok(DevToolsCommandResult::Empty),
        scheduler_events: Vec::new(),
        protocol_events: vec![event(2)],
        renderer_output_boundary: None,
        post_renderer_output_events: vec![event(4)],
        post_response_events: vec![event(5)],
        renderer_output_predecessor: None,
    }
}

#[test]
fn an_outcome_is_placed_around_its_renderer_output() {
    let mut scheduler = scheduler();
    let mut result = dispatched();
    result.renderer_output_predecessor = Some(cursor(1, 1));
    result.renderer_output_boundary = Some(cursor(1, 2));
    let wait = Some(DevToolsNavigationWait::Load);
    let mut finish = CommandOutcomeFinish::begin(&mut scheduler, result, wait, true, true);
    assert_eq!(finish.stage, DispatchStage::ProjectPredecessor(cursor(1, 1)));
    finish.advance(
        &mut scheduler,
        DispatchEvent::Projected(Ok(one(event(1)))),
    );
    assert_eq!(finish.stage, DispatchStage::ProjectBoundary(cursor(1, 2)));
    finish.advance(
        &mut scheduler,
        DispatchEvent::Projected(Ok(one(event(3)))),
    );
    assert_eq!(finish.stage, DispatchStage::DrainLoads);
    finish.advance(&mut scheduler, DispatchEvent::Completed(one(event(6))));
    assert_eq!(finish.stage, DispatchStage::Done);
    let execution = finish.finish();
    assert!(execution.result.is_ok());
    assert_eq!(labels(&execution.protocol_output), vec![1, 2, 3, 4, 5, 6]);
}

#[test]
fn renderer_output_that_nobody_receives_is_an_error() {
    let mut scheduler = scheduler();
    let mut result = dispatched();
    result.renderer_output_predecessor = Some(cursor(1, 1));
    let finish = CommandOutcomeFinish::begin(&mut scheduler, result, None, false, false);
    let execution = finish.finish();
    assert_eq!(labels(&execution.protocol_output), vec![2, 4, 5]);
    match execution.result {
        Ok(_) => panic!("the output was not received"),
        Err(error) => assert_eq!(
            error.message,
            "DevTools command produced renderer output without an ingress receiver"
        ),
    }
    let mut result = dispatched();
    result.renderer_output_boundary = Some(cursor(1, 1));
    let finish = CommandOutcomeFinish::begin(&mut scheduler, result, None, false, false);
    match finish.finish().result {
        Ok(_) => panic!("the output was not received"),
        Err(error) => assert_eq!(
            error.message,
            "DevTools command produced a renderer insertion boundary without an ingress receiver"
        ),
    }
    scheduler.view.projected = vec![cursor(1, 3)];
    let mut result = dispatched();
    result.renderer_output_boundary = Some(cursor(1, 1));
    let finish = CommandOutcomeFinish::begin(&mut scheduler, result, None, false, false);
    assert_eq!(finish.stage, DispatchStage::CompleteBoundary(cursor(1, 1)));
}

#[test]
fn a_pending_command_gathers_progress_until_it_is_complete() {
    let mut wait = PendingCommandWait::new(PendingKind::Navigation);
    wait.advance(PendingEvent::Polled { is_complete: false });
    wait.advance(PendingEvent::Ready(one(event(1))));
    assert_eq!(wait.stage, PendingStage::Poll);
    wait.advance(PendingEvent::Polled { is_complete: false });
    wait.advance(PendingEvent::Ready(nothing()));
    assert_eq!(wait.stage, PendingStage::Select);
    wait.advance(PendingEvent::Selected(PendingSelection::Applied(Ok(one(
        event(2),
    )))));
    wait.advance(PendingEvent::Polled { is_complete: true });
    assert_eq!(wait.stage, PendingStage::Finish);
    wait.advance(PendingEvent::Finished(DevToolsCommandExecution {
        result: Ok(DevToolsCommandResult::Other(3)),
        protocol_output: one(event(3)),
    }));
    assert!(!wait.abandoned);
    let execution = wait.finish();
    assert_eq!(labels(&execution.protocol_output), vec![1, 2, 3]);
    assert!(matches!(
        execution.result,
        Ok(DevToolsCommandResult::Other(3))
    ));
}

#[test]
fn a_pending_command_is_abandoned_only_at_its_deadline() {
    let select = || {
        let mut wait = PendingCommandWait::new(PendingKind::Navigation);
        wait.advance(PendingEvent::Polled { is_complete: false });
        wait.advance(PendingEvent::Ready(nothing()));
        wait
    };
    let mut wait = select();
    wait.advance(PendingEvent::Selected(PendingSelection::Deadline));
    assert!(wait.abandoned);
    match wait.finish().result {
        Ok(_) => panic!("the deadline has passed"),
        Err(error) => {
            assert_eq!(error.kind, DevToolsErrorKind::Timeout);
            assert_eq!(error.message, "script timed out");
        }
    }
    let mut wait = select();
    wait.advance(PendingEvent::Selected(PendingSelection::Closed));
    assert!(!wait.abandoned);
    match wait.finish().result {
        Ok(_) => panic!("no input comes"),
        Err(error) => assert_eq!(error.message, "SchedulerInputClosed"),
    }
    let mut wait = select();
    wait.advance(PendingEvent::Selected(PendingSelection::Applied(Err(
        failure(4, "broken"),
    ))));
    assert!(!wait.abandoned);
    let execution = wait.finish();
    assert_eq!(labels(&execution.protocol_output), vec![4]);
    let late = navigation_timeout_execution(one(event(5)));
    assert_eq!(labels(&late.protocol_output), vec![5]);
    assert!(late.result.is_err());
}

#[test]
fn a_lifecycle_wait_follows_the_document() {
    let committed = || DevToolsDocumentNavigationState::Committed {
        loader_id: "loader-1".to_owned(),
    };
    let mut wait = DocumentLifecycleWait::new(LOAD);
    wait.advance(LifecycleEvent::Navigation(
        DevToolsDocumentNavigationState::PendingNavigation,
    ));
    assert_eq!(wait.stage, LifecycleStage::CompleteReady);
    wait.advance(LifecycleEvent::Ready(Ok(nothing())));
    assert_eq!(wait.stage, LifecycleStage::RecheckNavigation);
    wait.advance(LifecycleEvent::Navigation(
        DevToolsDocumentNavigationState::PendingNavigation,
    ));
    assert_eq!(wait.stage, LifecycleStage::WaitProgress);
    wait.advance(LifecycleEvent::Progress(Ok(one(event(1)))));
    assert_eq!(wait.stage, LifecycleStage::ReadNavigation);
    wait.advance(LifecycleEvent::Navigation(committed()));
    assert_eq!(wait.stage, LifecycleStage::CaptureKey);
    wait.advance(LifecycleEvent::Captured { is_known: true });
    wait.advance(LifecycleEvent::Key(
        DevToolsDocumentLifecycleWaitState::Superseded,
    ));
    assert_eq!(wait.stage, LifecycleStage::ReadNavigation);
    wait.advance(LifecycleEvent::Navigation(committed()));
    wait.advance(LifecycleEvent::Captured { is_known: true });
    wait.advance(LifecycleEvent::Key(
        DevToolsDocumentLifecycleWaitState::Pending,
    ));
    wait.advance(LifecycleEvent::Ready(Ok(nothing())));
    assert_eq!(wait.stage, LifecycleStage::RecheckKey);
    wait.advance(LifecycleEvent::Key(
        DevToolsDocumentLifecycleWaitState::Pending,
    ));
    wait.advance(LifecycleEvent::Progress(progress_of(ProgressEnd::Applied(
        Ok(one(event(2))),
    ))));
    assert_eq!(wait.stage, LifecycleStage::ReadKey);
    wait.advance(LifecycleEvent::Key(
        DevToolsDocumentLifecycleWaitState::Reached,
    ));
    let execution = wait.finish();
    assert!(matches!(
        execution.result,
        Ok(DevToolsCommandResult::Empty)
    ));
    assert_eq!(labels(&execution.protocol_output), vec![1, 2]);
}

#[test]
fn a_lifecycle_wait_ends_with_its_deadline_or_target() {
    assert!(matches!(
        progress_deadline(None, 5),
        ProgressDeadline::Unbounded
    ));
    assert!(matches!(
        progress_deadline(Some(9), 5),
        ProgressDeadline::Within(4)
    ));
    assert!(matches!(
        progress_deadline(Some(5), 5),
        ProgressDeadline::Within(0)
    ));
    assert!(matches!(
        progress_deadline(Some(4), 5),
        ProgressDeadline::Expired
    ));
    let message = |end: ProgressEnd| match progress_of(end) {
        Ok(_) => panic!("the wait has ended"),
        Err(failure) => failure.error.message,
    };
    assert_eq!(message(ProgressEnd::TimedOut), "navigation wait timed out");
    assert_eq!(
        message(ProgressEnd::Closed),
        "Protocol runtime stopped while waiting for document navigation"
    );
    let mut wait = DocumentLifecycleWait::new(DOM);
    wait.advance(LifecycleEvent::Navigation(
        DevToolsDocumentNavigationState::Unavailable,
    ));
    match wait.finish().result {
        Ok(_) => panic!("the Target is gone"),
        Err(error) => assert_eq!(
            error.message,
            "Target closed while waiting for document navigation"
        ),
    }
}

fn begun(wait: DevToolsNavigationWait, expected: Option<PageResidenceIdentity>) -> CommandCourse {
    let mut course = CommandCourse::begin(
        &navigate(wait),
        true,
        Some("target-1".to_owned()),
        expected,
    );
    course.advance(CommandEvent::Drained(Ok(one(event(1)))));
    course
}

#[test]
fn a_navigation_answers_behind_its_milestone() {
    let mut course = begun(DevToolsNavigationWait::Load, None);
    assert_eq!(course.dispatch, CommandDispatch::OwnerNavigation);
    course.advance(CommandEvent::Page(Some(page(4))));
    assert_eq!(course.stage, CommandStage::Execute);
    course.advance(CommandEvent::Executed(DevToolsCommandExecution {
        result: Ok(navigated(Some("loader-1"), None)),
        protocol_output: sequence(vec![subresource(2), event(3)]),
    }));
    assert_eq!(course.stage, CommandStage::CaptureKey);
    assert_eq!(course.loader_id(), Some("loader-1".to_owned()));
    course.advance(CommandEvent::Key(None));
    course.advance(CommandEvent::Ready(one(response_started(4))));
    assert_eq!(course.stage, CommandStage::DrainLoad);
    course.advance(CommandEvent::LoadDrained(Ok(one(event(5)))));
    course.advance(CommandEvent::Ready(nothing()));
    assert_eq!(course.stage, CommandStage::CaptureKeyAgain);
    course.advance(CommandEvent::Key(Some(wait_key(7))));
    assert_eq!(course.stage, CommandStage::Observe);
    course.advance(CommandEvent::Observed(Ok(one(announcement(6, 7, LOAD)))));
    assert_eq!(course.stage, CommandStage::Done);
    let done = course.finish();
    assert!(done.execution.result.is_ok());
    assert_eq!(
        labels(&done.execution.protocol_output),
        vec![1, 3, 4, 2, 5, 6]
    );
    assert_eq!(done.page_residence, Some(page(4)));
}

#[test]
fn a_command_for_a_replaced_page_is_refused() {
    let mut course = begun(DevToolsNavigationWait::Load, Some(page(4)));
    course.advance(CommandEvent::Page(Some(page(5))));
    assert_eq!(course.stage, CommandStage::Done);
    let done = course.finish();
    assert_eq!(labels(&done.execution.protocol_output), vec![1]);
    match done.execution.result {
        Ok(_) => panic!("the Page was replaced"),
        Err(error) => {
            assert_eq!(error.kind, DevToolsErrorKind::NoSuchNode);
            assert_eq!(error.message, "DOM reference belongs to a replaced Page");
        }
    }
}

#[test]
fn a_navigation_whose_target_closes_is_an_error() {
    let mut course = begun(DevToolsNavigationWait::DomContentLoaded, None);
    course.advance(CommandEvent::Page(None));
    course.advance(CommandEvent::Executed(DevToolsCommandExecution {
        result: Ok(DevToolsCommandResult::Empty),
        protocol_output: nothing(),
    }));
    course.advance(CommandEvent::Ready(nothing()));
    assert_eq!(course.stage, CommandStage::CheckRoute);
    course.advance(CommandEvent::Route {
        is_top_level: false,
    });
    match course.finish().execution.result {
        Ok(_) => panic!("the Target is gone"),
        Err(error) => assert_eq!(error.message, "Target closed before navigation load"),
    }
}

#[test]
fn a_download_counts_as_the_end_of_a_navigation() {
    let mut course = begun(DevToolsNavigationWait::DomContentLoaded, None);
    course.advance(CommandEvent::Page(None));
    course.advance(CommandEvent::Executed(DevToolsCommandExecution {
        result: Ok(navigated(Some("loader-1"), None)),
        protocol_output: one(download(2, "target-1")),
    }));
    course.advance(CommandEvent::Key(None));
    course.advance(CommandEvent::Ready(nothing()));
    assert_eq!(course.stage, CommandStage::CaptureKeyAgain);
    course.advance(CommandEvent::Key(None));
    assert_eq!(course.stage, CommandStage::Done);
    assert!(course.finish().execution.result.is_ok());
}

#[test]
fn a_course_keeps_its_output_when_progress_fails() {
    let mut course = CommandCourse::begin(
        &navigate(DevToolsNavigationWait::Load),
        true,
        Some("target-1".to_owned()),
        None,
    );
    course.advance(CommandEvent::Drained(Err(failure(1, "broken"))));
    assert_eq!(course.stage, CommandStage::Done);
    let done = course.finish();
    assert_eq!(labels(&done.execution.protocol_output), vec![1]);
    match done.execution.result {
        Ok(_) => panic!("progress failed"),
        Err(error) => assert_eq!(error.message, "broken"),
    }
}

#[test]
fn a_course_that_times_out_still_completes_what_is_ready() {
    let mut course = begun(DevToolsNavigationWait::Load, None);
    course.advance(CommandEvent::Page(None));
    course.advance(CommandEvent::TimedOut);
    assert_eq!(course.stage, CommandStage::CompleteReady);
    course.advance(CommandEvent::Ready(one(event(2))));
    assert_eq!(course.stage, CommandStage::Done);
    let done = course.finish();
    assert_eq!(labels(&done.execution.protocol_output), vec![1, 2]);
    match done.execution.result {
        Ok(_) => panic!("the command took too long"),
        Err(error) => assert_eq!(error.message, "script timed out"),
    }
}

#[test]
fn pending_commands_differ_in_what_they_hold_back() {
    assert_eq!(
        pending_kind(CommandDispatch::OwnerNavigation, false),
        Some(PendingKind::Navigation)
    );
    assert_eq!(
        pending_kind(CommandDispatch::Fetch, true),
        Some(PendingKind::Fetch { holds_gate: true })
    );
    assert_eq!(
        pending_kind(CommandDispatch::ContextDisposal, true),
        Some(PendingKind::ContextDisposal)
    );
    assert_eq!(pending_kind(CommandDispatch::Direct, true), None);
    assert!(PendingKind::Navigation.navigation_gate_open());
    assert!(!PendingKind::ContextDisposal.navigation_gate_open());
    assert!(!PendingKind::Fetch { holds_gate: false }.navigation_gate_open());
    for (kind, detaches) in [
        (PendingKind::Navigation, true),
        (PendingKind::ContextDisposal, false),
        (PendingKind::Fetch { holds_gate: true }, false),
    ] {
        let mut wait = PendingCommandWait::new(kind);
        wait.advance(PendingEvent::Polled { is_complete: false });
        wait.advance(PendingEvent::Ready(nothing()));
        assert!(!wait.detaches_completion());
        wait.advance(PendingEvent::Selected(PendingSelection::Deadline));
        assert_eq!(wait.detaches_completion(), detaches);
    }
}

#[test]
fn a_command_that_has_begun_is_finished_or_waited_for() {
    let wait = Some(DevToolsNavigationWait::Load);
    assert_eq!(
        owner_command_step(PendingKind::Navigation, OwnerCommandStart::NotOwned, wait),
        OwnerCommandStep::Direct {
            within_timeout: true
        }
    );
    assert_eq!(
        owner_command_step(PendingKind::ContextDisposal, OwnerCommandStart::NotOwned, wait),
        OwnerCommandStep::Direct {
            within_timeout: false
        }
    );
    assert_eq!(
        owner_command_step(PendingKind::Navigation, OwnerCommandStart::Complete, wait),
        OwnerCommandStep::Finish { wait }
    );
    assert_eq!(
        owner_command_step(
            PendingKind::Fetch { holds_gate: false },
            OwnerCommandStart::Complete,
            wait
        ),
        OwnerCommandStep::Finish { wait: None }
    );
    assert_eq!(
        owner_command_step(PendingKind::Navigation, OwnerCommandStart::Pending, wait),
        OwnerCommandStep::Wait
    );
}

#[test]
fn the_end_of_a_navigation_leaves_in_order() {
    let mut scheduler = scheduler();
    let mut buffer = NavigationRendererPublicationBuffer::new();
    let commit = publication(5, 1, vec![RendererOutputItem::MainDocumentCommit], 1);
    let other = publication(6, 1, vec![RendererOutputItem::MainDocumentCommit], 2);
    buffer.admit_or_buffer(commit.clone(), true, None);
    buffer.admit_or_buffer(other.clone(), true, None);
    let mut course = NavigationCompletionCourse::begin(NavigationCompletion {
        prefix: one(event(1)),
        suffix: one(event(4)),
        boundary: Some(cursor(5, 1)),
    });
    match course.next(&scheduler, &mut buffer) {
        CompletionStep::Ingest(message) => assert_eq!(message, commit),
        _ => panic!("the stream of the navigation is unblocked"),
    }
    course.ingested(one(event(2)));
    assert!(matches!(
        course.next(&scheduler, &mut buffer),
        CompletionStep::Receive
    ));
    scheduler.view.projected = vec![cursor(5, 1)];
    assert!(matches!(
        course.next(&scheduler, &mut buffer),
        CompletionStep::Complete
    ));
    let mut course = course.completed(one(event(3)));
    match course.next(&scheduler, &mut buffer) {
        CompletionStep::Ingest(message) => assert_eq!(message, other),
        _ => panic!("what was held back may go"),
    }
    course.ingested(one(event(5)));
    assert!(matches!(
        course.next(&scheduler, &mut buffer),
        CompletionStep::Done
    ));
    let output = course.finish().unwrap_or_else(|_| panic!("reached"));
    assert_eq!(labels(&output), vec![1, 2, 3, 4, 5]);
}

#[test]
fn the_end_of_a_navigation_without_a_boundary_leaves_at_once() {
    let scheduler = scheduler();
    let mut buffer = NavigationRendererPublicationBuffer::new();
    let course = NavigationCompletionCourse::begin(NavigationCompletion {
        prefix: one(event(1)),
        suffix: one(event(2)),
        boundary: None,
    });
    assert!(matches!(
        course.next(&scheduler, &mut buffer),
        CompletionStep::Done
    ));
    let output = course.finish().unwrap_or_else(|_| panic!("reached"));
    assert_eq!(labels(&output), vec![1, 2]);

    let course = NavigationCompletionCourse::begin(NavigationCompletion {
        prefix: one(event(1)),
        suffix: one(event(2)),
        boundary: Some(cursor(5, 1)),
    });
    let course = course.closed(false);
    assert!(matches!(course.stage, CompletionStage::Failed(_)));
    match course.finish() {
        Ok(_) => panic!("the transport ended"),
        Err(failure) => {
            assert_eq!(labels(&failure.protocol_output), vec![1]);
            assert_eq!(
                failure.error.message,
                "Renderer output transport closed before navigation completion"
            );
        }
    }
}

#[test]
fn ready_turns_come_before_what_waits() {
    let mut ready = ReadyProgress::new();
    ready.advance(ReadyEvent::Turned(Ok(one(event(1)))));
    ready.advance(ReadyEvent::Turned(Ok(one(event(2)))));
    ready.advance(ReadyEvent::NoTurn);
    assert_eq!(ready.stage, ReadyStage::Residences);
    ready.advance(ReadyEvent::Completed(one(event(3))));
    let output = ready.finish().unwrap_or_else(|_| panic!("nothing failed"));
    assert_eq!(labels(&output), vec![1, 2, 3]);

    let mut ready = ReadyProgress::new();
    ready.advance(ReadyEvent::Turned(Ok(one(event(1)))));
    ready.advance(ReadyEvent::Turned(Err(failure(2, "broken"))));
    assert_eq!(ready.stage, ReadyStage::Done);
    match ready.finish() {
        Ok(_) => panic!("a turn failed"),
        Err(failure) => assert_eq!(labels(&failure.protocol_output), vec![1, 2]),
    }
}

#[test]
fn a_pending_command_is_applied_at_once_and_a_complete_one_after_its_output() {
    assert_eq!(
        start_command_or_request_background_navigation_flush(
            CdpRendererCommandAccess::MainThread,
            true
        ),
        CommandStartAction::NeedsBackgroundNavigationFlush
    );
    assert_eq!(
        start_command_or_request_background_navigation_flush(CdpRendererCommandAccess::Io, true),
        CommandStartAction::Dispatch
    );
    let mut scheduler = scheduler();
    let step = scheduler.complete_pending_command_dispatch(CdpCommandTaskStep::Pending {
        dispatch: 8,
        scheduler_events: vec![started(9, 90, Vec::new())],
    });
    assert!(matches!(step, CommandTaskStep::Pending(8)));
    assert!(scheduler.has_inflight_background_navigation());
    let mut turn = outcome(vec![event(1), waiting(2)]);
    turn.scheduler_events = vec![started(10, 91, vec![9])];
    let complete = scheduler.complete_pending_command_dispatch(CdpCommandTaskStep::Complete(turn));
    let turn = match complete {
        CommandTaskStep::Complete(turn) => turn,
        CommandTaskStep::Pending(_) => panic!("the command is complete"),
    };
    assert_eq!(labels(&turn.output), vec![1]);
    assert!(scheduler.cancellations.is_empty());
    let output = scheduler.finish_command_dispatch_output_flush(
        turn.scheduler_events,
        Some(outcome(vec![event(3)])),
    );
    assert_eq!(labels(&output), vec![3]);
    assert_eq!(scheduler.cancellations, vec![90]);
    assert!(scheduler
        .finish_command_dispatch_output_flush(Vec::new(), None)
        .is_empty());
}

#[test]
fn the_front_of_the_queue_is_completed() {
    let mut scheduler = scheduler();
    assert!(scheduler.complete_next_protocol_residence().is_none());
    scheduler.queues.enqueue_renderer_output_publication(
        cursor(1, 1),
        one(event(1)),
        Vec::new(),
        None,
    );
    scheduler.queues.enqueue_protocol_work(work(2), Vec::new(), None);
    match scheduler.complete_next_protocol_residence() {
        Some(ResidenceCompletion::Output(output)) => assert_eq!(labels(&output), vec![1]),
        _ => panic!("the front is output"),
    }
    match scheduler.complete_next_protocol_residence() {
        Some(ResidenceCompletion::Work(handed)) => assert_eq!(handed.publish_sequence, 2),
        _ => panic!("the front is work"),
    }
}
