//! What can wake the owner of a scheduler, and what is done about it.
use vstd::prelude::*;

use crate::connection::background_output::BackgroundProtocolEvent;
use crate::connection::state::{CdpConnection, ConnectionModel};
use crate::devtools::{DevToolsError, DevToolsErrorKind, DevToolsRefusal};
use crate::facts::errors::BrowserFactProjectionError;
use crate::facts::model;
use crate::facts::projector;
use crate::facts::texts;
use crate::lists;
use crate::scheduler::output::{CdpSchedulerProgressFailure, ProtocolOutputSequence};
use crate::scheduler::progress;
use crate::scheduler::publications::{
    NavigationRendererPublicationBuffer, PublicationBuffer, RendererOutputCursor,
    RendererOutputTransportMessage,
};
use crate::scheduler::state::{CdpScheduler, CdpSchedulerEvent, CdpTurnOutcome};

verus! {

/// What the lane of the Browser owner wakes with. Numbers stand for the
/// completed values themselves.
#[derive(Clone, Copy, Debug, PartialEq, Eq, Structural)]
pub enum BrowserHostExecutionWake {
    TurnSelected,
    ParticipantCompleted(u64),
    DetachedNavigationCompleted(u64),
    Closed,
}

/// What was received first, of all that can wake the owner. `None` where the
/// sender is gone.
pub enum OwnerSelection {
    Host(BrowserHostExecutionWake),
    BrowserFactWake(Option<u64>),
    BackgroundNavigationCompletion(Option<u64>),
    BackgroundEvent(Option<BackgroundProtocolEvent>),
    RendererPublication(Option<RendererOutputTransportMessage>),
}

/// One input, to be carried out before another is received.
pub enum CdpSchedulerInterleavedInput {
    BrowserHostTurn,
    BrowserHostCompletion(u64),
    DetachedNavigationCompletion(u64),
    BrowserFactWake(u64),
    BackgroundNavigationCompletion(u64),
    BackgroundEvent(BackgroundProtocolEvent),
    RendererPublication {
        publication: RendererOutputTransportMessage,
        navigation_gate_open: bool,
    },
}

/// The input that a selection is. There is none where a sender is gone.
pub open spec fn input_of(selection: OwnerSelection, gate_open: bool) -> Option<
    CdpSchedulerInterleavedInput,
> {
    match selection {
        OwnerSelection::Host(wake) => match wake {
            BrowserHostExecutionWake::TurnSelected => Some(
                CdpSchedulerInterleavedInput::BrowserHostTurn,
            ),
            BrowserHostExecutionWake::ParticipantCompleted(completed) => Some(
                CdpSchedulerInterleavedInput::BrowserHostCompletion(completed),
            ),
            BrowserHostExecutionWake::DetachedNavigationCompleted(completed) => Some(
                CdpSchedulerInterleavedInput::DetachedNavigationCompletion(completed),
            ),
            BrowserHostExecutionWake::Closed => None,
        },
        OwnerSelection::BrowserFactWake(Some(sequence)) => Some(
            CdpSchedulerInterleavedInput::BrowserFactWake(sequence),
        ),
        OwnerSelection::BackgroundNavigationCompletion(Some(completion)) => Some(
            CdpSchedulerInterleavedInput::BackgroundNavigationCompletion(completion),
        ),
        OwnerSelection::BackgroundEvent(Some(event)) => Some(
            CdpSchedulerInterleavedInput::BackgroundEvent(event),
        ),
        OwnerSelection::RendererPublication(Some(publication)) => Some(
            CdpSchedulerInterleavedInput::RendererPublication {
                publication,
                navigation_gate_open: gate_open,
            },
        ),
        _ => None,
    }
}

/// The input that a selection is.
fn interleaved_input(selection: OwnerSelection, navigation_gate_open: bool) -> (input: Option<
    CdpSchedulerInterleavedInput,
>)
    ensures
        input == input_of(selection, navigation_gate_open),
{
    match selection {
        OwnerSelection::Host(wake) => match wake {
            BrowserHostExecutionWake::TurnSelected => Some(
                CdpSchedulerInterleavedInput::BrowserHostTurn,
            ),
            BrowserHostExecutionWake::ParticipantCompleted(completed) => Some(
                CdpSchedulerInterleavedInput::BrowserHostCompletion(completed),
            ),
            BrowserHostExecutionWake::DetachedNavigationCompleted(completed) => Some(
                CdpSchedulerInterleavedInput::DetachedNavigationCompletion(completed),
            ),
            BrowserHostExecutionWake::Closed => None,
        },
        OwnerSelection::BrowserFactWake(Some(sequence)) => Some(
            CdpSchedulerInterleavedInput::BrowserFactWake(sequence),
        ),
        OwnerSelection::BackgroundNavigationCompletion(Some(completion)) => Some(
            CdpSchedulerInterleavedInput::BackgroundNavigationCompletion(completion),
        ),
        OwnerSelection::BackgroundEvent(Some(event)) => Some(
            CdpSchedulerInterleavedInput::BackgroundEvent(event),
        ),
        OwnerSelection::RendererPublication(Some(publication)) => Some(
            CdpSchedulerInterleavedInput::RendererPublication { publication, navigation_gate_open },
        ),
        _ => None,
    }
}

/// Being a given number.
pub open spec fn being(number: u64) -> spec_fn(u64) -> bool {
    |listed: u64| listed == number
}

/// Numbers without the first that is a given one. The last takes its place.
pub open spec fn without_first(numbers: Seq<u64>, number: u64) -> Seq<u64> {
    match lists::first_where(numbers, being(number)) {
        Some(at) => numbers.update(at, numbers.last()).drop_last(),
        None => numbers,
    }
}

/// The navigations whose completion is still to come after a selection.
pub open spec fn still_detached(detached: Seq<u64>, selection: OwnerSelection) -> Seq<u64> {
    match selection {
        OwnerSelection::Host(
            BrowserHostExecutionWake::DetachedNavigationCompleted(completed),
        ) => without_first(detached, completed),
        _ => detached,
    }
}

/// What the owner keeps beside its receivers: renderer output that is held
/// back, and navigations whose caller no longer waits.
pub struct OwnerInputs {
    pub publications: NavigationRendererPublicationBuffer,
    /// By which the completions that are still to come are found.
    pub detached_navigations: Vec<u64>,
}

impl OwnerInputs {
    pub fn new() -> (inputs: OwnerInputs)
        ensures
            inputs.publications@ == PublicationBuffer::empty(),
            inputs.detached_navigations@ == Seq::<u64>::empty(),
    {
        OwnerInputs {
            publications: NavigationRendererPublicationBuffer::new(),
            detached_navigations: Vec::new(),
        }
    }

    pub fn has_detached_navigation_wait(&self) -> (waits: bool)
        ensures
            waits == (self.detached_navigations@.len() > 0),
    {
        self.detached_navigations.len() > 0
    }

    /// A navigation whose caller no longer waits.
    pub fn detach_navigation_completion(&mut self, completion: u64)
        ensures
            final(self).detached_navigations@ == old(self).detached_navigations@.push(completion),
            final(self).publications == old(self).publications,
    {
        self.detached_navigations.push(completion);
    }

    /// A detached navigation has completed, if it is one of them.
    fn forget_detached_navigation(&mut self, completed: u64)
        ensures
            final(self).detached_navigations@ == without_first(
                old(self).detached_navigations@,
                completed,
            ),
            final(self).publications == old(self).publications,
    {
        let ghost before = self.detached_navigations@;
        let mut index: usize = 0;
        while index < self.detached_navigations.len()
            invariant
                index <= self.detached_navigations@.len(),
                self.detached_navigations@ == before,
                before == old(self).detached_navigations@,
                self.publications == old(self).publications,
                forall|at: int| 0 <= at < index ==> #[trigger] before[at] != completed,
            decreases self.detached_navigations@.len() - index,
        {
            if self.detached_navigations[index] == completed {
                proof {
                    lists::lemma_first(before, being(completed), index as int);
                }
                self.detached_navigations.swap_remove(index);
                return ;
            }
            index += 1;
        }
        proof {
            lists::lemma_nowhere(before, being(completed));
        }
    }

    /// The input that a selection is. A detached navigation that has completed
    /// is waited for no more.
    pub fn selected(&mut self, selection: OwnerSelection, background_navigation_gate_open: bool) -> (
    input: Option<CdpSchedulerInterleavedInput>)
        ensures
            input == input_of(
                selection,
                background_navigation_gate_open || old(self).detached_navigations@.len() > 0,
            ),
            final(self).detached_navigations@ == still_detached(
                old(self).detached_navigations@,
                selection,
            ),
            final(self).publications == old(self).publications,
    {
        let navigation_gate_open = self.renderer_navigation_gate_open(
            background_navigation_gate_open,
        );
        match &selection {
            OwnerSelection::Host(
                BrowserHostExecutionWake::DetachedNavigationCompleted(completed),
            ) => {
                self.forget_detached_navigation(*completed);
            },
            _ => {},
        }
        interleaved_input(selection, navigation_gate_open)
    }

    /// Whether replacement streams are held back: while a navigation is in
    /// flight, in the background or detached from its caller.
    pub fn renderer_navigation_gate_open(&self, background_navigation_gate_open: bool) -> (open:
        bool)
        ensures
            open == (background_navigation_gate_open || self.detached_navigations@.len() > 0),
    {
        background_navigation_gate_open || self.has_detached_navigation_wait()
    }

    /// Renderer output that was held back and may go, before anything else is
    /// received.
    pub fn take_buffered_input(&mut self, background_navigation_gate_open: bool) -> (input: Option<
        CdpSchedulerInterleavedInput,
    >)
        ensures
            final(self).detached_navigations == old(self).detached_navigations,
            ({
                let open = background_navigation_gate_open || old(
                    self,
                ).detached_navigations@.len() > 0;
                let (buffer, released) = old(self).publications@.released(open);
                &&& final(self).publications@ == buffer
                &&& input == (match released {
                    Some(publication) => Some(
                        CdpSchedulerInterleavedInput::RendererPublication {
                            publication,
                            navigation_gate_open: open,
                        },
                    ),
                    None => None,
                })
            }),
    {
        let navigation_gate_open = self.renderer_navigation_gate_open(
            background_navigation_gate_open,
        );
        match self.publications.take_releasable(navigation_gate_open) {
            Some(publication) => Some(
                CdpSchedulerInterleavedInput::RendererPublication {
                    publication,
                    navigation_gate_open,
                },
            ),
            None => None,
        }
    }
}

/// What is done about an input.
pub enum InterleavedAction {
    /// The turn that was selected is to be started.
    StartOwnerTurn,
    CompleteParticipant(u64),
    CompleteDetachedNavigation(u64),
    /// Facts are to be read up to a position.
    CaptureFacts(u64),
    DrainNavigationCompletion(u64),
    /// A publication is to be taken in.
    Ingest(RendererOutputTransportMessage),
    /// It is done; this leaves.
    Output(ProtocolOutputSequence),
}

impl CdpScheduler {
    /// What is done about an input. An event is placed at once; a publication is
    /// taken in, or held back.
    pub fn complete_interleaved_scheduler_input(
        &mut self,
        inputs: &mut OwnerInputs,
        input: CdpSchedulerInterleavedInput,
    ) -> (action: InterleavedAction)
        requires
            old(self).wf(),
        ensures
            final(self).wf(),
            final(inputs).detached_navigations == old(inputs).detached_navigations,
            match input {
                CdpSchedulerInterleavedInput::BackgroundEvent(event) => {
                    &&& action matches InterleavedAction::Output(output) && (
                        final(self)@,
                        output@,
                    ) == old(self)@.routed_one(event)
                    &&& final(inputs).publications@ == old(inputs).publications@
                },
                CdpSchedulerInterleavedInput::RendererPublication {
                    publication,
                    navigation_gate_open,
                } => {
                    let (buffer, passed) = old(inputs).publications@.arrived(
                        publication,
                        navigation_gate_open,
                        None,
                    );
                    &&& final(self)@ == old(self)@
                    &&& final(inputs).publications@ == buffer
                    &&& match passed {
                        Some(message) => action == InterleavedAction::Ingest(message),
                        None => action matches InterleavedAction::Output(output) && output@.len()
                            == 0,
                    }
                },
                _ => {
                    &&& final(self)@ == old(self)@
                    &&& final(inputs).publications@ == old(inputs).publications@
                    &&& action == handed_on(input)
                },
            },
    {
        match input {
            CdpSchedulerInterleavedInput::BrowserHostTurn => InterleavedAction::StartOwnerTurn,
            CdpSchedulerInterleavedInput::BrowserHostCompletion(completed) => {
                InterleavedAction::CompleteParticipant(completed)
            },
            CdpSchedulerInterleavedInput::DetachedNavigationCompletion(completed) => {
                InterleavedAction::CompleteDetachedNavigation(completed)
            },
            CdpSchedulerInterleavedInput::BrowserFactWake(sequence) => {
                InterleavedAction::CaptureFacts(sequence)
            },
            CdpSchedulerInterleavedInput::BackgroundNavigationCompletion(completion) => {
                InterleavedAction::DrainNavigationCompletion(completion)
            },
            CdpSchedulerInterleavedInput::BackgroundEvent(event) => InterleavedAction::Output(
                self.route_background_event_around_inflight_navigation(event),
            ),
            CdpSchedulerInterleavedInput::RendererPublication {
                publication,
                navigation_gate_open,
            } => match inputs.publications.admit_or_buffer(publication, navigation_gate_open, None) {
                Some(message) => InterleavedAction::Ingest(message),
                None => InterleavedAction::Output(ProtocolOutputSequence::empty()),
            },
        }
    }
}

/// What is done about an input that others carry out.
pub open spec fn handed_on(input: CdpSchedulerInterleavedInput) -> InterleavedAction {
    match input {
        CdpSchedulerInterleavedInput::BrowserHostCompletion(completed) => {
            InterleavedAction::CompleteParticipant(completed)
        },
        CdpSchedulerInterleavedInput::DetachedNavigationCompletion(completed) => {
            InterleavedAction::CompleteDetachedNavigation(completed)
        },
        CdpSchedulerInterleavedInput::BrowserFactWake(sequence) => {
            InterleavedAction::CaptureFacts(sequence)
        },
        CdpSchedulerInterleavedInput::BackgroundNavigationCompletion(completion) => {
            InterleavedAction::DrainNavigationCompletion(completion)
        },
        _ => InterleavedAction::StartOwnerTurn,
    }
}

/// The error when facts could not be read.
pub open spec fn fact_ingress_refusal(error: BrowserFactProjectionError) -> DevToolsRefusal {
    DevToolsRefusal {
        kind: DevToolsErrorKind::Internal,
        message: "Browser fact frontend ingress failed: "@ + texts::message_text(error),
    }
}

/// Reads the facts up to a position that a wake announced. Nothing leaves.
pub fn complete_browser_fact_wake(connection: &mut CdpConnection, through: u64) -> (progress: Result<
    ProtocolOutputSequence,
    CdpSchedulerProgressFailure,
>)
    requires
        old(connection).wf(),
    ensures
        final(connection).wf(),
        final(connection)@ == (ConnectionModel {
            facts: model::capture_wake(old(connection)@.facts, through),
            ..old(connection)@
        }),
        progress::brought(progress) == Seq::<BackgroundProtocolEvent>::empty(),
        progress::refused(progress) == (match projector::outcome(final(connection)@.facts) {
            Ok(()) => None,
            Err(error) => Some(fact_ingress_refusal(error)),
        }),
{
    match connection.capture_browser_fact_wake(through) {
        Ok(()) => Ok(ProtocolOutputSequence::empty()),
        Err(error) => Err(
            CdpSchedulerProgressFailure::without_output(
                DevToolsError {
                    kind: DevToolsErrorKind::Internal,
                    message: "Browser fact frontend ingress failed: ".to_owned().concat(
                        error.message().as_str(),
                    ),
                },
            ),
        ),
    }
}

/// How a command reaches the renderer.
#[derive(Clone, Copy, Debug, PartialEq, Eq, Structural)]
pub enum CdpRendererCommandAccess {
    NoRenderer,
    Io,
    MainThread,
}

/// Whether a command waits until the navigation of its session has passed: only
/// if it needs the main thread of a renderer whose Document is being replaced.
pub fn command_waits_for_navigation_flush(access: CdpRendererCommandAccess, is_suspended: bool) -> (
waits: bool)
    ensures
        waits == (access is MainThread && is_suspended),
{
    access == CdpRendererCommandAccess::MainThread && is_suspended
}

/// What a command that is complete hands to its frontend.
pub struct CommandTurnOutput {
    pub output: ProtocolOutputSequence,
    pub post_response_events: Vec<BackgroundProtocolEvent>,
    /// What is asked of the scheduler once the output has left.
    pub scheduler_events: Vec<CdpSchedulerEvent>,
    pub renderer_output_boundary: Option<RendererOutputCursor>,
    pub post_renderer_output: ProtocolOutputSequence,
    pub renderer_output_predecessor: Option<RendererOutputCursor>,
}

impl CdpScheduler {
    /// Places the events of a command that is complete: its own, then those
    /// behind the response, then those behind the boundary.
    pub fn complete_command_turn(&mut self, outcome: CdpTurnOutcome) -> (turn: CommandTurnOutput)
        requires
            old(self).wf(),
        ensures
            final(self).wf(),
            ({
                let (first, leaves) = old(self)@.routed(outcome.events@);
                let (second, responded) = first.routed(outcome.post_response_events@);
                let (third, rendered) = second.routed(outcome.post_renderer_output_events@);
                &&& final(self)@ == third
                &&& turn.output@ == leaves
                &&& turn.post_response_events@ == responded
                &&& turn.post_renderer_output@ == rendered
            }),
            turn.scheduler_events == outcome.scheduler_events,
            turn.renderer_output_boundary == outcome.renderer_output_boundary,
            turn.renderer_output_predecessor == outcome.renderer_output_predecessor,
    {
        let output = self.route_background_events_around_inflight_navigation(outcome.events);
        let responded = self.route_background_events_around_inflight_navigation(
            outcome.post_response_events,
        );
        let rendered = self.route_background_events_around_inflight_navigation(
            outcome.post_renderer_output_events,
        );
        CommandTurnOutput {
            output,
            post_response_events: responded.into_background_events(),
            scheduler_events: outcome.scheduler_events,
            renderer_output_boundary: outcome.renderer_output_boundary,
            post_renderer_output: rendered,
            renderer_output_predecessor: outcome.renderer_output_predecessor,
        }
    }
}

/// What comes of a command that is to begin.
#[derive(Clone, Copy, Debug, PartialEq, Eq, Structural)]
pub enum CommandStartAction {
    /// The navigation of its session has to pass first.
    NeedsBackgroundNavigationFlush,
    /// It is dispatched.
    Dispatch,
}

/// What comes of a command that is to begin.
pub fn start_command_or_request_background_navigation_flush(
    access: CdpRendererCommandAccess,
    is_suspended: bool,
) -> (action: CommandStartAction)
    ensures
        action == (if access is MainThread && is_suspended {
            CommandStartAction::NeedsBackgroundNavigationFlush
        } else {
            CommandStartAction::Dispatch
        }),
{
    if command_waits_for_navigation_flush(access, is_suspended) {
        CommandStartAction::NeedsBackgroundNavigationFlush
    } else {
        CommandStartAction::Dispatch
    }
}

/// How far a dispatched command is.
pub enum CdpCommandTaskStep {
    /// It goes on; what it asks of the scheduler meanwhile.
    Pending { dispatch: u64, scheduler_events: Vec<CdpSchedulerEvent> },
    Complete(CdpTurnOutcome),
}

/// How far a command is once the scheduler has seen to it.
pub enum CommandTaskStep {
    Pending(u64),
    Complete(CommandTurnOutput),
}

impl CdpScheduler {
    /// Sees to a command that was dispatched or has gone on. What a pending
    /// command asks of the scheduler is carried out at once; what a complete one
    /// asks waits until its output has left.
    pub fn complete_pending_command_dispatch(&mut self, step: CdpCommandTaskStep) -> (task:
        CommandTaskStep)
        requires
            old(self).wf(),
        ensures
            final(self).wf(),
            match step {
                CdpCommandTaskStep::Pending { dispatch, scheduler_events } => {
                    &&& task == CommandTaskStep::Pending(dispatch)
                    &&& final(self)@ == old(self)@.applied(scheduler_events@, Seq::empty(), None)
                },
                CdpCommandTaskStep::Complete(outcome) => {
                    let (first, leaves) = old(self)@.routed(outcome.events@);
                    let (second, responded) = first.routed(outcome.post_response_events@);
                    let (third, rendered) = second.routed(outcome.post_renderer_output_events@);
                    &&& task matches CommandTaskStep::Complete(turn) && {
                        &&& turn.output@ == leaves
                        &&& turn.post_response_events@ == responded
                        &&& turn.post_renderer_output@ == rendered
                        &&& turn.scheduler_events == outcome.scheduler_events
                        &&& turn.renderer_output_boundary == outcome.renderer_output_boundary
                        &&& turn.renderer_output_predecessor == outcome.renderer_output_predecessor
                    }
                    &&& final(self)@ == third
                },
            },
    {
        match step {
            CdpCommandTaskStep::Pending { dispatch, scheduler_events } => {
                self.apply_scheduler_events(scheduler_events);
                CommandTaskStep::Pending(dispatch)
            },
            CdpCommandTaskStep::Complete(outcome) => CommandTaskStep::Complete(
                self.complete_command_turn(outcome),
            ),
        }
    }

    /// Carries out what a command has asked of the scheduler, once its output
    /// has left. Output that its barrier held back, if there is one, is then
    /// placed.
    pub fn finish_command_dispatch_output_flush(
        &mut self,
        post_flush_scheduler_events: Vec<CdpSchedulerEvent>,
        released: Option<CdpTurnOutcome>,
    ) -> (output: ProtocolOutputSequence)
        requires
            old(self).wf(),
            released matches Some(outcome) ==> outcome.renderer_output_boundary is None,
        ensures
            final(self).wf(),
            ({
                let applied = old(self)@.applied(post_flush_scheduler_events@, Seq::empty(), None);
                match released {
                    Some(outcome) => {
                        let (after, leaves, later) = applied.turned(outcome);
                        final(self)@ == after && output@ == leaves + later
                    },
                    None => final(self)@ == applied && output@.len() == 0,
                }
            }),
    {
        self.apply_scheduler_events(post_flush_scheduler_events);
        match released {
            Some(outcome) => self.apply_protocol_only_turn_outcome(outcome),
            None => ProtocolOutputSequence::empty(),
        }
    }
}

/// The output of an inspector response that was routed: what it has brought
/// beside comes first.
pub fn route_registered_runtime_inspector_response(
    response_events: Vec<BackgroundProtocolEvent>,
    background_events: Vec<BackgroundProtocolEvent>,
) -> (output: ProtocolOutputSequence)
    ensures
        output@ == background_events@ + response_events@,
{
    let mut output = ProtocolOutputSequence::from_background_events(background_events);
    output.append(ProtocolOutputSequence::from_background_events(response_events));
    output
}

} // verus!
