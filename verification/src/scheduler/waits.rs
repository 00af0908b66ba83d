//! Waits that go on until something has happened, with the output gathered on
//! the way.
//!
//! A wait says what it needs next, and is told what came of it. What was not
//! asked for changes nothing.
use vstd::prelude::*;

use crate::connection::background_output::{BackgroundProtocolEvent, DocumentLifecycleNotice};
use crate::devtools::{DevToolsError, DevToolsRefusal};
use crate::scheduler::commands::DevToolsDocumentLifecycleWaitState;
use crate::scheduler::output;
use crate::scheduler::output::{
    lists, CdpSchedulerProgressFailure, DevToolsDocumentLifecycleWaitKey, ProtocolOutputSequence,
};
use crate::scheduler::progress;
use crate::scheduler::progress::WaitInput;
use crate::scheduler::residences;
use crate::scheduler::residences::{
    ProtocolSchedulerWork, Residence, ResidenceContent, Waiting,
};
use crate::scheduler::state::{CdpScheduler, SchedulerModel};

verus! {

/// A finished wait, as a value: the output, and the error it ended with.
pub struct Gathered {
    pub output: Seq<BackgroundProtocolEvent>,
    pub refusal: Option<DevToolsRefusal>,
}

/// What a finished wait came to.
pub open spec fn outcome_of(
    outcome: Result<ProtocolOutputSequence, CdpSchedulerProgressFailure>,
) -> Gathered {
    Gathered { output: progress::brought(outcome), refusal: progress::refused(outcome) }
}

/// Hands out gathered output, with the error if there is one.
fn handed_out(output: ProtocolOutputSequence, error: Option<DevToolsError>) -> (outcome: Result<
    ProtocolOutputSequence,
    CdpSchedulerProgressFailure,
>)
    ensures
        outcome_of(outcome) == (Gathered {
            output: output@,
            refusal: progress::opt_refusal(error),
        }),
{
    match error {
        Some(error) => Err(CdpSchedulerProgressFailure::new(output, error)),
        None => Ok(output),
    }
}

/// A wait for the navigations in flight to end, before a command starts.
pub struct InflightNavigationDrain {
    pub output: ProtocolOutputSequence,
    pub error: Option<DevToolsError>,
}

impl View for InflightNavigationDrain {
    type V = Gathered;

    open spec fn view(&self) -> Gathered {
        Gathered { output: self.output@, refusal: progress::opt_refusal(self.error) }
    }
}

impl InflightNavigationDrain {
    pub fn new() -> (drain: InflightNavigationDrain)
        ensures
            drain@ == (Gathered { output: Seq::empty(), refusal: None }),
    {
        InflightNavigationDrain { output: ProtocolOutputSequence::empty(), error: None }
    }

    /// Whether another input is to be received.
    pub fn receives(&self, scheduler: &CdpScheduler) -> (receives: bool)
        requires
            scheduler.wf(),
        ensures
            receives == (self@.refusal is None && scheduler@.inflight()),
    {
        self.error.is_none() && scheduler.has_inflight_background_navigation()
    }

    /// Goes on with what was received.
    pub fn received(&mut self, input: WaitInput)
        ensures
            final(self)@ == (Gathered {
                output: old(self)@.output + progress::input_brought(input),
                refusal: progress::input_refused(input, "the in-flight navigation completed"@),
            }),
    {
        self.error = self.output.absorb_input(input, "the in-flight navigation completed");
    }

    pub fn finish(self) -> (outcome: Result<ProtocolOutputSequence, CdpSchedulerProgressFailure>)
        ensures
            outcome_of(outcome) == self@,
    {
        handed_out(self.output, self.error)
    }
}

/// Where the completion of what is ready is.
#[derive(Clone, Copy, Debug, PartialEq, Eq, Structural)]
pub enum ReadyStage {
    /// Turns of the Browser owner that are ready are to be carried out.
    OwnerTurns,
    /// What waits for its turn is to be completed.
    Residences,
    Done,
}

/// What came of what was needed.
pub enum ReadyEvent {
    /// A turn was ready, and was carried out.
    Turned(Result<ProtocolOutputSequence, CdpSchedulerProgressFailure>),
    /// No turn is ready any more.
    NoTurn,
    /// What waits for its turn was completed as far as it can be.
    Completed(ProtocolOutputSequence),
}

/// The completion of what is ready, as a value.
pub struct ReadyModel {
    pub stage: ReadyStage,
    pub gathered: Gathered,
}

impl ReadyModel {
    /// After what was needed. All turns of the Browser owner come before what
    /// waits; one that fails ends it.
    pub open spec fn after(self, event: ReadyEvent) -> ReadyModel {
        match (self.stage, event) {
            (ReadyStage::OwnerTurns, ReadyEvent::Turned(progress)) => ReadyModel {
                stage: if progress::refused(progress) is Some {
                    ReadyStage::Done
                } else {
                    ReadyStage::OwnerTurns
                },
                gathered: Gathered {
                    output: self.gathered.output + progress::brought(progress),
                    refusal: progress::refused(progress),
                },
            },
            (ReadyStage::OwnerTurns, ReadyEvent::NoTurn) => ReadyModel {
                stage: ReadyStage::Residences,
                ..self
            },
            (ReadyStage::Residences, ReadyEvent::Completed(output)) => ReadyModel {
                stage: ReadyStage::Done,
                gathered: Gathered {
                    output: self.gathered.output + output@,
                    ..self.gathered
                },
            },
            _ => self,
        }
    }
}

/// The completion of what is ready while a load is waited for: turns of the
/// Browser owner, and then what waits for its turn.
pub struct ReadyProgress {
    pub stage: ReadyStage,
    pub output: ProtocolOutputSequence,
    pub error: Option<DevToolsError>,
}

impl View for ReadyProgress {
    type V = ReadyModel;

    open spec fn view(&self) -> ReadyModel {
        ReadyModel {
            stage: self.stage,
            gathered: Gathered {
                output: self.output@,
                refusal: progress::opt_refusal(self.error),
            },
        }
    }
}

impl ReadyProgress {
    pub fn new() -> (ready: ReadyProgress)
        ensures
            ready@ == (ReadyModel {
                stage: ReadyStage::OwnerTurns,
                gathered: Gathered { output: Seq::empty(), refusal: None },
            }),
    {
        ReadyProgress {
            stage: ReadyStage::OwnerTurns,
            output: ProtocolOutputSequence::empty(),
            error: None,
        }
    }

    /// Goes on with what came of what was needed.
    pub fn advance(&mut self, event: ReadyEvent)
        ensures
            final(self)@ == old(self)@.after(event),
    {
        match (self.stage, event) {
            (ReadyStage::OwnerTurns, ReadyEvent::Turned(progress)) => {
                self.error = self.output.absorb(progress);
                if self.error.is_some() {
                    self.stage = ReadyStage::Done;
                }
            },
            (ReadyStage::OwnerTurns, ReadyEvent::NoTurn) => {
                self.stage = ReadyStage::Residences;
            },
            (ReadyStage::Residences, ReadyEvent::Completed(output)) => {
                self.output.append(output);
                self.stage = ReadyStage::Done;
            },
            _ => {},
        }
    }

    pub fn finish(self) -> (outcome: Result<ProtocolOutputSequence, CdpSchedulerProgressFailure>)
        ensures
            outcome_of(outcome) == self@.gathered,
    {
        handed_out(self.output, self.error)
    }
}

/// Completing what is ready loses no output, and after a turn that failed
/// nothing else is completed.
pub proof fn law_ready_keeps_output(ready: ReadyModel, event: ReadyEvent)
    ensures
        ready.gathered.output.is_prefix_of(ready.after(event).gathered.output),
        ready.stage is Done ==> ready.after(event) == ready,
        ready.stage is OwnerTurns && ready.after(event).gathered.refusal is Some
            && ready.gathered.refusal is None ==> ready.after(event).stage is Done,
{
}

/// Where the wait for an observed milestone is.
#[derive(Clone, Copy, Debug, PartialEq, Eq, Structural)]
pub enum ObserverStage {
    /// What is ready is to be completed.
    CompleteReady,
    /// How far the Document is is to be read.
    ReadState,
    /// An input is to be received.
    Receive,
    Done,
}

/// What came of what the wait needed.
pub enum ObserverEvent {
    Ready(Result<ProtocolOutputSequence, CdpSchedulerProgressFailure>),
    State(DevToolsDocumentLifecycleWaitState),
    Input(WaitInput),
}

/// The wait, as a value.
pub struct ObserverModel {
    pub stage: ObserverStage,
    pub notice: DocumentLifecycleNotice,
    pub gathered: Gathered,
}

/// Whether a Document can still reach its milestone, or has.
pub open spec fn is_open(state: DevToolsDocumentLifecycleWaitState) -> bool {
    state is Pending || state is Reached
}

impl ObserverModel {
    /// With output gathered, at the next stage, or at the end with an error.
    pub open spec fn gathers(
        self,
        brought: Seq<BackgroundProtocolEvent>,
        refusal: Option<DevToolsRefusal>,
        next: ObserverStage,
    ) -> ObserverModel {
        ObserverModel {
            stage: if refusal is Some {
                ObserverStage::Done
            } else {
                next
            },
            gathered: Gathered { output: self.gathered.output + brought, refusal },
            ..self
        }
    }

    /// The wait after what it needed. It ends once the milestone is announced,
    /// or can no longer be reached.
    pub open spec fn after(self, event: ObserverEvent) -> ObserverModel {
        match (self.stage, event) {
            (ObserverStage::CompleteReady, ObserverEvent::Ready(progress)) => {
                let output = self.gathered.output + progress::brought(progress);
                self.gathers(
                    progress::brought(progress),
                    progress::refused(progress),
                    if output::announced_since(output, self.notice, 0) {
                        ObserverStage::Done
                    } else {
                        ObserverStage::ReadState
                    },
                )
            },
            (ObserverStage::ReadState, ObserverEvent::State(state)) => ObserverModel {
                stage: if is_open(state) {
                    ObserverStage::Receive
                } else {
                    ObserverStage::Done
                },
                ..self
            },
            (ObserverStage::Receive, ObserverEvent::Input(input)) => self.gathers(
                progress::input_brought(input),
                progress::input_refused(input, "the document lifecycle observation completed"@),
                ObserverStage::CompleteReady,
            ),
            _ => self,
        }
    }
}

/// A wait until the milestone of one exact Document is announced.
pub struct DocumentLifecycleObserver {
    pub stage: ObserverStage,
    pub key: DevToolsDocumentLifecycleWaitKey,
    pub output: ProtocolOutputSequence,
    pub error: Option<DevToolsError>,
}

impl View for DocumentLifecycleObserver {
    type V = ObserverModel;

    open spec fn view(&self) -> ObserverModel {
        ObserverModel {
            stage: self.stage,
            notice: self.key.notice(),
            gathered: Gathered {
                output: self.output@,
                refusal: progress::opt_refusal(self.error),
            },
        }
    }
}

impl DocumentLifecycleObserver {
    pub fn new(key: &DevToolsDocumentLifecycleWaitKey) -> (observer: DocumentLifecycleObserver)
        ensures
            observer@ == (ObserverModel {
                stage: ObserverStage::CompleteReady,
                notice: key.notice(),
                gathered: Gathered { output: Seq::empty(), refusal: None },
            }),
    {
        DocumentLifecycleObserver {
            stage: ObserverStage::CompleteReady,
            key: key.copy(),
            output: ProtocolOutputSequence::empty(),
            error: None,
        }
    }

    /// Goes on with what came of what was needed.
    pub fn advance(&mut self, event: ObserverEvent)
        ensures
            final(self)@ == old(self)@.after(event),
    {
        match (self.stage, event) {
            (ObserverStage::CompleteReady, ObserverEvent::Ready(progress)) => {
                self.error = self.output.absorb(progress);
                self.stage = if self.error.is_some()
                    || self.output.contains_document_lifecycle_for_since(&self.key, 0) {
                    ObserverStage::Done
                } else {
                    ObserverStage::ReadState
                };
            },
            (ObserverStage::ReadState, ObserverEvent::State(state)) => {
                self.stage = match state {
                    DevToolsDocumentLifecycleWaitState::Pending => ObserverStage::Receive,
                    DevToolsDocumentLifecycleWaitState::Reached => ObserverStage::Receive,
                    _ => ObserverStage::Done,
                };
            },
            (ObserverStage::Receive, ObserverEvent::Input(input)) => {
                self.error = self.output.absorb_input(
                    input,
                    "the document lifecycle observation completed",
                );
                self.stage = if self.error.is_some() {
                    ObserverStage::Done
                } else {
                    ObserverStage::CompleteReady
                };
            },
            _ => {},
        }
    }

    pub fn finish(self) -> (outcome: Result<ProtocolOutputSequence, CdpSchedulerProgressFailure>)
        ensures
            outcome_of(outcome) == self@.gathered,
    {
        handed_out(self.output, self.error)
    }
}

/// Whether waiting work observes a load. The work that does is listed.
pub open spec fn observes(queue: Seq<Residence>, observing: Seq<u64>) -> bool {
    exists|at: int|
        0 <= at < queue.len() && ((#[trigger] queue[at]).content matches Waiting::Work(work)
            && observing.contains(work.publish_sequence))
}

impl SchedulerModel {
    /// After the front of the queue was looked at, if it shows a load: taken out
    /// if the load has happened and nothing has to come first.
    pub open spec fn load_taken(self) -> (SchedulerModel, Option<ProtocolSchedulerWork>) {
        if self.inflight() || self.queue.len() == 0 || !self.queue[0].is_load_work() {
            (self, None)
        } else {
            let turned = residences::front_turned(self.queue);
            if turned[0].is_ready() && turned[0].is_ready_load_work() {
                (
                    SchedulerModel { queue: turned.skip(1), ..self },
                    Some(turned[0].content->Work_0),
                )
            } else {
                (SchedulerModel { queue: turned, ..self }, None)
            }
        }
    }
}

impl CdpScheduler {
    /// Takes out the front of the queue if it shows a load that has happened,
    /// and nothing has to come first.
    pub fn take_deferred_main_document_load_completion_for_wait(&mut self) -> (work: Option<
        ProtocolSchedulerWork,
    >)
        requires
            old(self).wf(),
        ensures
            final(self).wf(),
            (final(self)@, work) == old(self)@.load_taken(),
    {
        if self.has_inflight_background_navigation()
            || !self.front_protocol_residence_is_main_document_load_action() {
            return None;
        }
        if self.queues.front_needs_client_turn_predecessor() {
            self.queues.satisfy_front_client_turn_predecessor();
        } else {
            assert(residences::front_turned(self@.queue) =~= self@.queue);
        }
        if !self.queues.should_complete_next_residence()
            || !self.queues.protocol_residences[0].is_ready_main_document_load_action() {
            return None;
        }
        match self.queues.pop_next_protocol_residence() {
            Some(residence) => match residence.content {
                ResidenceContent::ProtocolWork(work) => Some(work),
                ResidenceContent::RendererOutputPublication { .. } => {
                    vstd::pervasive::unreached()
                },
            },
            None => None,
        }
    }

    /// Whether waiting work observes a load that is waited for. The work that
    /// does is listed.
    pub fn has_deferred_main_document_load_completion(&self, observing: &Vec<u64>) -> (waits: bool)
        ensures
            waits == observes(self@.queue, observing@),
    {
        let mut index: usize = 0;
        while index < self.queues.protocol_residences.len()
            invariant
                index <= self@.queue.len(),
                forall|at: int|
                    0 <= at < index ==> !((#[trigger] self@.queue[at]).content matches Waiting::Work(
                        work,
                    ) && observing@.contains(work.publish_sequence)),
            decreases self@.queue.len() - index,
        {
            if let ResidenceContent::ProtocolWork(work) =
                &self.queues.protocol_residences[index].content {
                if lists(observing, work.publish_sequence) {
                    assert(self@.queue[index as int].content == Waiting::Work(*work));
                    return true;
                }
            }
            index += 1;
        }
        false
    }
}

/// Where the wait for a deferred load is.
#[derive(Clone, Copy, Debug, PartialEq, Eq, Structural)]
pub enum LoadStage {
    /// Background events are to be drained, then loads that have happened.
    DrainEvents,
    DrainLoads,
    DrainEventsAgain,
    CompleteReady,
    Receive,
    Done,
}

/// What came of what the wait needed. Where it says so, whether the load is
/// still waited for afterwards.
pub enum LoadEvent {
    Drained(ProtocolOutputSequence),
    DrainedAgain { output: ProtocolOutputSequence, waits: bool },
    Ready {
        progress: Result<ProtocolOutputSequence, CdpSchedulerProgressFailure>,
        waits: bool,
    },
    Input { input: WaitInput, waits: bool },
}

/// The wait, as a value.
pub struct LoadWaitModel {
    pub stage: LoadStage,
    pub gathered: Gathered,
}

impl LoadWaitModel {
    /// With output gathered. The wait ends with an error, or when the load is no
    /// longer waited for.
    pub open spec fn gathers(
        self,
        brought: Seq<BackgroundProtocolEvent>,
        refusal: Option<DevToolsRefusal>,
        waits: bool,
        next: LoadStage,
    ) -> LoadWaitModel {
        LoadWaitModel {
            stage: if refusal is Some || !waits {
                LoadStage::Done
            } else {
                next
            },
            gathered: Gathered { output: self.gathered.output + brought, refusal },
        }
    }

    /// The wait after what it needed.
    pub open spec fn after(self, event: LoadEvent) -> LoadWaitModel {
        match (self.stage, event) {
            (LoadStage::DrainEvents, LoadEvent::Drained(output)) => self.gathers(
                output@,
                None,
                true,
                LoadStage::DrainLoads,
            ),
            (LoadStage::DrainLoads, LoadEvent::Drained(output)) => self.gathers(
                output@,
                None,
                true,
                LoadStage::DrainEventsAgain,
            ),
            (LoadStage::DrainEventsAgain, LoadEvent::DrainedAgain { output, waits }) => self.gathers(
                output@,
                None,
                waits,
                LoadStage::CompleteReady,
            ),
            (LoadStage::CompleteReady, LoadEvent::Ready { progress, waits }) => self.gathers(
                progress::brought(progress),
                progress::refused(progress),
                waits,
                LoadStage::Receive,
            ),
            (LoadStage::Receive, LoadEvent::Input { input, waits }) => self.gathers(
                progress::input_brought(input),
                progress::input_refused(input, "the deferred document load completed"@),
                waits,
                LoadStage::DrainEvents,
            ),
            _ => self,
        }
    }
}

/// A wait until a deferred load has been shown.
pub struct DeferredLoadWait {
    pub stage: LoadStage,
    pub output: ProtocolOutputSequence,
    pub error: Option<DevToolsError>,
}

impl View for DeferredLoadWait {
    type V = LoadWaitModel;

    open spec fn view(&self) -> LoadWaitModel {
        LoadWaitModel {
            stage: self.stage,
            gathered: Gathered {
                output: self.output@,
                refusal: progress::opt_refusal(self.error),
            },
        }
    }
}

impl DeferredLoadWait {
    pub fn new() -> (wait: DeferredLoadWait)
        ensures
            wait@ == (LoadWaitModel {
                stage: LoadStage::DrainEvents,
                gathered: Gathered { output: Seq::empty(), refusal: None },
            }),
    {
        DeferredLoadWait {
            stage: LoadStage::DrainEvents,
            output: ProtocolOutputSequence::empty(),
            error: None,
        }
    }

    /// Goes on with what came of what was needed.
    pub fn advance(&mut self, event: LoadEvent)
        ensures
            final(self)@ == old(self)@.after(event),
    {
        match (self.stage, event) {
            (LoadStage::DrainEvents, LoadEvent::Drained(output)) => {
                self.output.append(output);
                self.error = None;
                self.stage = LoadStage::DrainLoads;
            },
            (LoadStage::DrainLoads, LoadEvent::Drained(output)) => {
                self.output.append(output);
                self.error = None;
                self.stage = LoadStage::DrainEventsAgain;
            },
            (LoadStage::DrainEventsAgain, LoadEvent::DrainedAgain { output, waits }) => {
                self.output.append(output);
                self.error = None;
                self.stage = if waits {
                    LoadStage::CompleteReady
                } else {
                    LoadStage::Done
                };
            },
            (LoadStage::CompleteReady, LoadEvent::Ready { progress, waits }) => {
                self.error = self.output.absorb(progress);
                self.stage = if self.error.is_some() || !waits {
                    LoadStage::Done
                } else {
                    LoadStage::Receive
                };
            },
            (LoadStage::Receive, LoadEvent::Input { input, waits }) => {
                self.error = self.output.absorb_input(
                    input,
                    "the deferred document load completed",
                );
                self.stage = if self.error.is_some() || !waits {
                    LoadStage::Done
                } else {
                    LoadStage::DrainEvents
                };
            },
            _ => {},
        }
    }

    pub fn finish(self) -> (outcome: Result<ProtocolOutputSequence, CdpSchedulerProgressFailure>)
        ensures
            outcome_of(outcome) == self@.gathered,
    {
        handed_out(self.output, self.error)
    }
}

/// The wait for an announced milestone never loses output, whatever it is told.
pub proof fn law_observer_keeps_output(wait: ObserverModel, event: ObserverEvent)
    ensures
        wait.gathered.output.is_prefix_of(wait.after(event).gathered.output),
{
}

/// The wait for a deferred load never loses output, whatever it is told.
pub proof fn law_load_wait_keeps_output(wait: LoadWaitModel, event: LoadEvent)
    ensures
        wait.gathered.output.is_prefix_of(wait.after(event).gathered.output),
{
}

/// The wait for an announced milestone ends without an error only when the
/// milestone was announced or can no longer be reached.
pub proof fn law_observer_ends_for_a_reason(wait: ObserverModel, event: ObserverEvent)
    requires
        wait.stage !is Done,
        wait.after(event).stage is Done,
        wait.after(event).gathered.refusal is None,
    ensures
        output::announced_since(wait.after(event).gathered.output, wait.notice, 0) || (
        event matches ObserverEvent::State(state) && !is_open(state)),
{
}

} // verus!
