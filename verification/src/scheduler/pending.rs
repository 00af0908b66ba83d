//! Waiting for a command that the Browser owner or a Page carries out, while
//! everything else goes on.
//!
//! The completion of the command is looked for before other work is selected,
//! so that nothing which the same turn has published overtakes the answer.
use vstd::prelude::*;

use crate::connection::background_output::BackgroundProtocolEvent;
use crate::devtools::{DevToolsCommandResult, DevToolsError, DevToolsErrorKind, DevToolsRefusal};
use crate::scheduler::commands::{CommandDispatch, DevToolsNavigationWait};
use crate::scheduler::dispatch;
use crate::scheduler::output::{
    CdpSchedulerProgressFailure, DevToolsCommandExecution, ProtocolOutputSequence,
};
use crate::scheduler::progress;

verus! {

/// What kind of command is pending.
#[derive(Clone, Copy, Debug, PartialEq, Eq, Structural)]
pub enum PendingKind {
    /// A navigation that the Browser owner carries out.
    Navigation,
    /// The disposal of a context.
    ContextDisposal,
    /// A decision on a held request, and whether that request holds the
    /// renderer output of a navigation back.
    Fetch { holds_gate: bool },
}

impl PendingKind {
    /// Whether renderer output of a replacing Document is held back meanwhile.
    /// It must not come before the commit that the command itself brings about.
    pub open spec fn holds_publications(self) -> bool {
        match self {
            PendingKind::Navigation => true,
            PendingKind::ContextDisposal => false,
            PendingKind::Fetch { holds_gate } => holds_gate,
        }
    }

    pub fn navigation_gate_open(&self) -> (open: bool)
        ensures
            open == self.holds_publications(),
    {
        match *self {
            PendingKind::Navigation => true,
            PendingKind::ContextDisposal => false,
            PendingKind::Fetch { holds_gate } => holds_gate,
        }
    }
}

/// How the beginning of a command went.
#[derive(Clone, Copy, Debug, PartialEq, Eq, Structural)]
pub enum OwnerCommandStart {
    /// The command is not one for the Browser owner, such as a navigation of a
    /// child frame.
    NotOwned,
    /// It is complete already.
    Complete,
    Pending,
}

/// What comes after the beginning of a command.
#[derive(Clone, Copy, Debug, PartialEq, Eq, Structural)]
pub enum OwnerCommandStep {
    /// The command is carried out in one piece, within the time it has or not.
    Direct { within_timeout: bool },
    /// Its outcome is placed. A navigation says what it waits for.
    Finish { wait: Option<DevToolsNavigationWait> },
    /// Its completion is waited for.
    Wait,
}

/// What comes after the beginning of a command. Only a navigation that is
/// carried out in one piece is bound by the time it has.
pub open spec fn step_after(
    kind: PendingKind,
    start: OwnerCommandStart,
    wait: Option<DevToolsNavigationWait>,
) -> OwnerCommandStep {
    match start {
        OwnerCommandStart::NotOwned => OwnerCommandStep::Direct {
            within_timeout: kind is Navigation,
        },
        OwnerCommandStart::Complete => OwnerCommandStep::Finish {
            wait: if kind is Navigation {
                wait
            } else {
                None
            },
        },
        OwnerCommandStart::Pending => OwnerCommandStep::Wait,
    }
}

/// What comes after the beginning of a command.
pub fn owner_command_step(
    kind: PendingKind,
    start: OwnerCommandStart,
    wait: Option<DevToolsNavigationWait>,
) -> (step: OwnerCommandStep)
    ensures
        step == step_after(kind, start, wait),
{
    let is_navigation = kind == PendingKind::Navigation;
    match start {
        OwnerCommandStart::NotOwned => OwnerCommandStep::Direct { within_timeout: is_navigation },
        OwnerCommandStart::Complete => OwnerCommandStep::Finish {
            wait: if is_navigation {
                wait
            } else {
                None
            },
        },
        OwnerCommandStart::Pending => OwnerCommandStep::Wait,
    }
}

/// The kind of wait that a command calls for, if it is carried out by others
/// than the scheduler. `holds_gate` is what a held request says.
pub fn pending_kind(dispatch: CommandDispatch, holds_gate: bool) -> (kind: Option<PendingKind>)
    ensures
        kind == (match dispatch {
            CommandDispatch::OwnerNavigation => Some(PendingKind::Navigation),
            CommandDispatch::ContextDisposal => Some(PendingKind::ContextDisposal),
            CommandDispatch::Fetch => Some(PendingKind::Fetch { holds_gate }),
            _ => None,
        }),
{
    match dispatch {
        CommandDispatch::OwnerNavigation => Some(PendingKind::Navigation),
        CommandDispatch::ContextDisposal => Some(PendingKind::ContextDisposal),
        CommandDispatch::Fetch => Some(PendingKind::Fetch { holds_gate }),
        _ => None,
    }
}

/// What comes next while the command is pending.
#[derive(Clone, Copy, Debug, PartialEq, Eq, Structural)]
pub enum PendingStage {
    /// The completion is to be looked for.
    Poll,
    /// What is ready is to be completed.
    CompleteReady,
    /// The completion, the deadline or an input is to be waited for, in this
    /// order.
    Select,
    /// The completion is to be turned into an answer.
    Finish,
    Done,
}

/// What was waited for first.
pub enum PendingSelection {
    Completed,
    Deadline,
    /// No input will come any more.
    Closed,
    /// An input came, and was carried out.
    Applied(Result<ProtocolOutputSequence, CdpSchedulerProgressFailure>),
}

/// What came of what was needed.
pub enum PendingEvent {
    Polled { is_complete: bool },
    Ready(ProtocolOutputSequence),
    Selected(PendingSelection),
    Finished(DevToolsCommandExecution),
}

/// The wait, as a value.
pub struct PendingModel {
    pub kind: PendingKind,
    pub stage: PendingStage,
    pub output: Seq<BackgroundProtocolEvent>,
    pub result: Option<Result<DevToolsCommandResult, DevToolsRefusal>>,
    /// Whether the completion is no longer waited for, though it may come.
    pub abandoned: bool,
}

/// The error of a command that took too long.
pub open spec fn script_timeout() -> DevToolsRefusal {
    DevToolsRefusal { kind: DevToolsErrorKind::Timeout, message: "script timed out"@ }
}

/// The error of a command after which no input comes.
pub open spec fn input_closed() -> DevToolsRefusal {
    DevToolsRefusal { kind: DevToolsErrorKind::Internal, message: "SchedulerInputClosed"@ }
}

impl PendingModel {
    /// The wait at its beginning.
    pub open spec fn begun(kind: PendingKind) -> PendingModel {
        PendingModel {
            kind,
            stage: PendingStage::Poll,
            output: Seq::empty(),
            result: None,
            abandoned: false,
        }
    }

    /// Whether the completion is still to be taken when it comes, though nobody
    /// waits for the answer. A navigation goes on; what it brings about leaves.
    pub open spec fn detaches(self) -> bool {
        self.abandoned && self.kind is Navigation
    }

    /// The wait ended with an error.
    pub open spec fn ended(self, refusal: DevToolsRefusal) -> PendingModel {
        PendingModel { stage: PendingStage::Done, result: Some(Err(refusal)), ..self }
    }

    /// The wait after what it needed.
    pub open spec fn after(self, event: PendingEvent) -> PendingModel {
        match (self.stage, event) {
            (PendingStage::Poll, PendingEvent::Polled { is_complete }) => PendingModel {
                stage: if is_complete {
                    PendingStage::Finish
                } else {
                    PendingStage::CompleteReady
                },
                ..self
            },
            (PendingStage::CompleteReady, PendingEvent::Ready(output)) => PendingModel {
                stage: if output@.len() > 0 {
                    PendingStage::Poll
                } else {
                    PendingStage::Select
                },
                output: self.output + output@,
                ..self
            },
            (PendingStage::Select, PendingEvent::Selected(selection)) => match selection {
                PendingSelection::Completed => PendingModel { stage: PendingStage::Finish, ..self },
                PendingSelection::Deadline => (PendingModel { abandoned: true, ..self }).ended(
                    script_timeout(),
                ),
                PendingSelection::Closed => self.ended(input_closed()),
                PendingSelection::Applied(progress) => {
                    let gathered = PendingModel {
                        stage: PendingStage::Poll,
                        output: self.output + progress::brought(progress),
                        ..self
                    };
                    match progress::refused(progress) {
                        Some(refusal) => gathered.ended(refusal),
                        None => gathered,
                    }
                },
            },
            (PendingStage::Finish, PendingEvent::Finished(execution)) => PendingModel {
                stage: PendingStage::Done,
                output: self.output + execution.protocol_output@,
                result: Some(dispatch::result_of(execution.result)),
                ..self
            },
            _ => self,
        }
    }
}

/// An answer if there is one, as a value.
pub open spec fn opt_result_of(
    result: Option<Result<DevToolsCommandResult, DevToolsError>>,
) -> Option<Result<DevToolsCommandResult, DevToolsRefusal>> {
    match result {
        Some(result) => Some(dispatch::result_of(result)),
        None => None,
    }
}

/// A wait for a pending command.
pub struct PendingCommandWait {
    pub kind: PendingKind,
    pub stage: PendingStage,
    pub output: ProtocolOutputSequence,
    pub result: Option<Result<DevToolsCommandResult, DevToolsError>>,
    pub abandoned: bool,
}

impl View for PendingCommandWait {
    type V = PendingModel;

    open spec fn view(&self) -> PendingModel {
        PendingModel {
            kind: self.kind,
            stage: self.stage,
            output: self.output@,
            result: opt_result_of(self.result),
            abandoned: self.abandoned,
        }
    }
}

impl PendingCommandWait {
    /// There is an answer when the wait is over, and not before.
    pub open spec fn wf(&self) -> bool {
        self.result is Some <==> self.stage is Done
    }

    pub fn new(kind: PendingKind) -> (wait: PendingCommandWait)
        ensures
            wait.wf(),
            wait@ == PendingModel::begun(kind),
    {
        PendingCommandWait {
            kind,
            stage: PendingStage::Poll,
            output: ProtocolOutputSequence::empty(),
            result: None,
            abandoned: false,
        }
    }

    /// Goes on with what came of what was needed.
    pub fn advance(&mut self, event: PendingEvent)
        requires
            old(self).wf(),
        ensures
            final(self).wf(),
            final(self)@ == old(self)@.after(event),
    {
        match (self.stage, event) {
            (PendingStage::Poll, PendingEvent::Polled { is_complete }) => {
                self.stage = if is_complete {
                    PendingStage::Finish
                } else {
                    PendingStage::CompleteReady
                };
            },
            (PendingStage::CompleteReady, PendingEvent::Ready(output)) => {
                self.stage = if output.is_empty() {
                    PendingStage::Select
                } else {
                    PendingStage::Poll
                };
                self.output.append(output);
            },
            (PendingStage::Select, PendingEvent::Selected(selection)) => match selection {
                PendingSelection::Completed => {
                    self.stage = PendingStage::Finish;
                },
                PendingSelection::Deadline => {
                    self.abandoned = true;
                    self.end(DevToolsError::new(DevToolsErrorKind::Timeout, "script timed out"));
                },
                PendingSelection::Closed => {
                    self.end(
                        DevToolsError::new(DevToolsErrorKind::Internal, "SchedulerInputClosed"),
                    );
                },
                PendingSelection::Applied(progress) => {
                    match self.output.absorb(progress) {
                        Some(error) => {
                            self.end(error);
                        },
                        None => {
                            self.stage = PendingStage::Poll;
                        },
                    }
                },
            },
            (PendingStage::Finish, PendingEvent::Finished(execution)) => {
                self.output.append(execution.protocol_output);
                self.result = Some(execution.result);
                self.stage = PendingStage::Done;
            },
            _ => {},
        }
    }

    /// Whether the completion is still to be taken when it comes.
    pub fn detaches_completion(&self) -> (detaches: bool)
        ensures
            detaches == self@.detaches(),
    {
        self.abandoned && self.kind == PendingKind::Navigation
    }

    fn end(&mut self, error: DevToolsError)
        ensures
            final(self).wf(),
            final(self)@ == old(self)@.ended(error@),
    {
        self.result = Some(Err(error));
        self.stage = PendingStage::Done;
    }

    /// What a wait that is over came to.
    pub fn finish(self) -> (execution: DevToolsCommandExecution)
        requires
            self.wf(),
            self@.stage is Done,
        ensures
            Some(dispatch::result_of(execution.result)) == self@.result,
            execution.protocol_output@ == self@.output,
    {
        match self.result {
            Some(result) => DevToolsCommandExecution { result, protocol_output: self.output },
            None => vstd::pervasive::unreached(),
        }
    }
}

/// What a command that took too long comes to.
pub fn navigation_timeout_execution(protocol_output: ProtocolOutputSequence) -> (execution:
    DevToolsCommandExecution)
    ensures
        dispatch::result_of(execution.result) == Err::<DevToolsCommandResult, DevToolsRefusal>(
            script_timeout(),
        ),
        execution.protocol_output == protocol_output,
{
    DevToolsCommandExecution {
        result: Err(DevToolsError::new(DevToolsErrorKind::Timeout, "script timed out")),
        protocol_output,
    }
}

/// While a command is pending no output is lost, whatever comes.
pub proof fn law_pending_wait_keeps_output(wait: PendingModel, event: PendingEvent)
    ensures
        wait.output.is_prefix_of(wait.after(event).output),
{
}

/// A command is abandoned only at its deadline, and is then answered with a
/// timeout.
pub proof fn law_only_the_deadline_abandons(wait: PendingModel, event: PendingEvent)
    requires
        !wait.abandoned,
        wait.after(event).abandoned,
    ensures
        event == PendingEvent::Selected(PendingSelection::Deadline),
        wait.after(event).result == Some(
            Err::<DevToolsCommandResult, DevToolsRefusal>(script_timeout()),
        ),
        wait.after(event).detaches() <==> wait.kind is Navigation,
{
}

} // verus!
