//! Waiting for the current Document of a Target to reach a milestone.
//!
//! A navigation in flight is waited for until it commits; then the exact
//! Document that was committed is waited for. When another Document takes its
//! place the wait begins again with the Target.
use vstd::prelude::*;

use crate::connection::background_output::BackgroundProtocolEvent;
use crate::connection::navigation::{DevToolsDocumentNavigationState, DocumentState};
use crate::devtools::{DevToolsCommandResult, DevToolsError, DevToolsErrorKind, DevToolsRefusal};
use crate::facts::types::RendererDocumentLifecycleMilestone;
use crate::scheduler::commands;
use crate::scheduler::commands::{
    devtools_document_lifecycle_wait_error, DevToolsDocumentLifecycleWaitState,
};
use crate::scheduler::dispatch;
use crate::scheduler::output::{
    CdpSchedulerProgressFailure, DevToolsCommandExecution, ProtocolOutputSequence,
};
use crate::scheduler::pending;
use crate::scheduler::progress;

verus! {

/// How long progress may be waited for.
#[derive(Clone, Copy, Debug, PartialEq, Eq, Structural)]
pub enum ProgressDeadline {
    Unbounded,
    Within(u64),
    Expired,
}

/// How long progress may still be waited for, given how long it may take and
/// how long it has taken.
pub fn progress_deadline(timeout: Option<u64>, elapsed: u64) -> (deadline: ProgressDeadline)
    ensures
        deadline == (match timeout {
            None => ProgressDeadline::Unbounded,
            Some(timeout) => if elapsed <= timeout {
                ProgressDeadline::Within((timeout - elapsed) as u64)
            } else {
                ProgressDeadline::Expired
            },
        }),
{
    match timeout {
        None => ProgressDeadline::Unbounded,
        Some(timeout) => match timeout.checked_sub(elapsed) {
            Some(remaining) => ProgressDeadline::Within(remaining),
            None => ProgressDeadline::Expired,
        },
    }
}

/// How a wait for progress has ended.
pub enum ProgressEnd {
    TimedOut,
    /// No input will come any more.
    Closed,
    /// An input came, and was carried out.
    Applied(Result<ProtocolOutputSequence, CdpSchedulerProgressFailure>),
}

/// The error when a navigation was waited for too long.
pub open spec fn navigation_timeout() -> DevToolsRefusal {
    DevToolsRefusal { kind: DevToolsErrorKind::Timeout, message: "navigation wait timed out"@ }
}

/// The error when a navigation was waited for and no input comes.
pub open spec fn runtime_stopped() -> DevToolsRefusal {
    DevToolsRefusal {
        kind: DevToolsErrorKind::NoSuchSession,
        message: "Protocol runtime stopped while waiting for document navigation"@,
    }
}

/// The progress that a wait has come to.
pub fn progress_of(end: ProgressEnd) -> (progress: Result<
    ProtocolOutputSequence,
    CdpSchedulerProgressFailure,
>)
    ensures
        progress::brought(progress) == (match end {
            ProgressEnd::Applied(progress) => progress::brought(progress),
            _ => Seq::<BackgroundProtocolEvent>::empty(),
        }),
        progress::refused(progress) == (match end {
            ProgressEnd::TimedOut => Some(navigation_timeout()),
            ProgressEnd::Closed => Some(runtime_stopped()),
            ProgressEnd::Applied(progress) => progress::refused(progress),
        }),
{
    match end {
        ProgressEnd::TimedOut => Err(
            CdpSchedulerProgressFailure::without_output(
                DevToolsError::new(DevToolsErrorKind::Timeout, "navigation wait timed out"),
            ),
        ),
        ProgressEnd::Closed => Err(
            CdpSchedulerProgressFailure::without_output(
                DevToolsError::new(
                    DevToolsErrorKind::NoSuchSession,
                    "Protocol runtime stopped while waiting for document navigation",
                ),
            ),
        ),
        ProgressEnd::Applied(progress) => progress,
    }
}

/// What comes next in the wait.
#[derive(Clone, Copy, Debug, PartialEq, Eq, Structural)]
pub enum LifecycleStage {
    /// How far the navigation of the Target is is to be read.
    ReadNavigation,
    /// The Document that was committed is to be looked up.
    CaptureKey,
    /// How far the Document is is to be read.
    ReadKey,
    /// What is ready is to be completed.
    CompleteReady,
    /// The same is to be read once more, to see whether it has changed.
    RecheckNavigation,
    RecheckKey,
    /// Progress is to be waited for.
    WaitProgress,
    Done,
}

/// What came of what was needed.
pub enum LifecycleEvent {
    Navigation(DevToolsDocumentNavigationState),
    Captured { is_known: bool },
    Key(DevToolsDocumentLifecycleWaitState),
    Ready(Result<ProtocolOutputSequence, CdpSchedulerProgressFailure>),
    Progress(Result<ProtocolOutputSequence, CdpSchedulerProgressFailure>),
}

/// The wait, as a value.
pub struct LifecycleModel {
    pub stage: LifecycleStage,
    pub milestone: RendererDocumentLifecycleMilestone,
    /// The navigation as it was last read.
    pub seen: DocumentState,
    /// Whether the wait is for a Document, and not for a navigation.
    pub has_key: bool,
    pub output: Seq<BackgroundProtocolEvent>,
    pub result: Option<Result<DevToolsCommandResult, DevToolsRefusal>>,
}

/// The error when the Target is gone.
pub open spec fn target_closed() -> DevToolsRefusal {
    DevToolsRefusal {
        kind: DevToolsErrorKind::NoSuchTarget,
        message: "Target closed while waiting for document navigation"@,
    }
}

impl LifecycleModel {
    /// The wait at its beginning.
    pub open spec fn begun(milestone: RendererDocumentLifecycleMilestone) -> LifecycleModel {
        LifecycleModel {
            stage: LifecycleStage::ReadNavigation,
            milestone,
            seen: DocumentState::Unavailable,
            has_key: false,
            output: Seq::empty(),
            result: None,
        }
    }

    pub open spec fn at(self, stage: LifecycleStage) -> LifecycleModel {
        LifecycleModel { stage, ..self }
    }

    pub open spec fn ended(
        self,
        result: Result<DevToolsCommandResult, DevToolsRefusal>,
    ) -> LifecycleModel {
        LifecycleModel { stage: LifecycleStage::Done, result: Some(result), ..self }
    }

    /// Where the wait reads again what it is for.
    pub open spec fn rereads(self) -> LifecycleStage {
        if self.has_key {
            LifecycleStage::ReadKey
        } else {
            LifecycleStage::ReadNavigation
        }
    }

    /// With output gathered, or ended by a failure.
    pub open spec fn gathers(
        self,
        progress: Result<ProtocolOutputSequence, CdpSchedulerProgressFailure>,
        next: LifecycleStage,
    ) -> LifecycleModel {
        let gathered = LifecycleModel {
            stage: next,
            output: self.output + progress::brought(progress),
            ..self
        };
        match progress::refused(progress) {
            Some(refusal) => gathered.ended(Err(refusal)),
            None => gathered,
        }
    }

    /// The wait after what it needed.
    pub open spec fn after(self, event: LifecycleEvent) -> LifecycleModel {
        match (self.stage, event) {
            (LifecycleStage::ReadNavigation, LifecycleEvent::Navigation(state)) => {
                let read = LifecycleModel { seen: state@, has_key: false, ..self };
                match state@ {
                    DocumentState::Unavailable => self.ended(Err(target_closed())),
                    DocumentState::Committed { .. } => read.at(LifecycleStage::CaptureKey),
                    _ => read.at(LifecycleStage::CompleteReady),
                }
            },
            (LifecycleStage::CaptureKey, LifecycleEvent::Captured { is_known }) => if is_known {
                (LifecycleModel { has_key: true, ..self }).at(LifecycleStage::ReadKey)
            } else {
                self.at(LifecycleStage::CompleteReady)
            },
            (LifecycleStage::ReadKey, LifecycleEvent::Key(state)) => match state {
                DevToolsDocumentLifecycleWaitState::Reached => self.ended(
                    Ok(DevToolsCommandResult::Empty),
                ),
                DevToolsDocumentLifecycleWaitState::Superseded => self.at(
                    LifecycleStage::ReadNavigation,
                ),
                DevToolsDocumentLifecycleWaitState::Pending => self.at(
                    LifecycleStage::CompleteReady,
                ),
                _ => self.ended(Err(commands::wait_refusal(state, self.milestone)->0)),
            },
            (LifecycleStage::CompleteReady, LifecycleEvent::Ready(progress)) => self.gathers(
                progress,
                if progress::brought(progress).len() > 0 {
                    self.rereads()
                } else if self.has_key {
                    LifecycleStage::RecheckKey
                } else {
                    LifecycleStage::RecheckNavigation
                },
            ),
            (LifecycleStage::RecheckNavigation, LifecycleEvent::Navigation(state)) => if state@
                == self.seen {
                self.at(LifecycleStage::WaitProgress)
            } else {
                self.at(LifecycleStage::ReadNavigation)
            },
            (LifecycleStage::RecheckKey, LifecycleEvent::Key(state)) => if state is Pending {
                self.at(LifecycleStage::WaitProgress)
            } else {
                self.at(LifecycleStage::ReadKey)
            },
            (LifecycleStage::WaitProgress, LifecycleEvent::Progress(progress)) => self.gathers(
                progress,
                self.rereads(),
            ),
            _ => self,
        }
    }
}

/// A wait for the current Document of a Target to reach a milestone.
pub struct DocumentLifecycleWait {
    pub stage: LifecycleStage,
    pub milestone: RendererDocumentLifecycleMilestone,
    pub seen: DevToolsDocumentNavigationState,
    pub has_key: bool,
    pub output: ProtocolOutputSequence,
    pub result: Option<Result<DevToolsCommandResult, DevToolsError>>,
}

impl View for DocumentLifecycleWait {
    type V = LifecycleModel;

    open spec fn view(&self) -> LifecycleModel {
        LifecycleModel {
            stage: self.stage,
            milestone: self.milestone,
            seen: self.seen@,
            has_key: self.has_key,
            output: self.output@,
            result: pending::opt_result_of(self.result),
        }
    }
}

impl DocumentLifecycleWait {
    /// There is an answer when the wait is over, and not before.
    pub open spec fn wf(&self) -> bool {
        self.result is Some <==> self.stage is Done
    }

    pub fn new(milestone: RendererDocumentLifecycleMilestone) -> (wait: DocumentLifecycleWait)
        ensures
            wait.wf(),
            wait@ == LifecycleModel::begun(milestone),
    {
        DocumentLifecycleWait {
            stage: LifecycleStage::ReadNavigation,
            milestone,
            seen: DevToolsDocumentNavigationState::Unavailable,
            has_key: false,
            output: ProtocolOutputSequence::empty(),
            result: None,
        }
    }

    fn end(&mut self, result: Result<DevToolsCommandResult, DevToolsError>)
        ensures
            final(self).wf(),
            final(self)@ == old(self)@.ended(dispatch::result_of(result)),
    {
        self.result = Some(result);
        self.stage = LifecycleStage::Done;
    }

    fn reread(&mut self)
        requires
            old(self).result is None,
        ensures
            final(self).wf(),
            final(self)@ == old(self)@.at(old(self)@.rereads()),
    {
        self.stage = if self.has_key {
            LifecycleStage::ReadKey
        } else {
            LifecycleStage::ReadNavigation
        };
    }

    /// Goes on with what came of what was needed.
    pub fn advance(&mut self, event: LifecycleEvent)
        requires
            old(self).wf(),
        ensures
            final(self).wf(),
            final(self)@ == old(self)@.after(event),
    {
        match (self.stage, event) {
            (LifecycleStage::ReadNavigation, LifecycleEvent::Navigation(state)) => {
                match &state {
                    DevToolsDocumentNavigationState::Unavailable => {
                        self.end(
                            Err(
                                DevToolsError::new(
                                    DevToolsErrorKind::NoSuchTarget,
                                    "Target closed while waiting for document navigation",
                                ),
                            ),
                        );
                        return ;
                    },
                    DevToolsDocumentNavigationState::Committed { .. } => {
                        self.stage = LifecycleStage::CaptureKey;
                    },
                    _ => {
                        self.stage = LifecycleStage::CompleteReady;
                    },
                }
                self.seen = state;
                self.has_key = false;
            },
            (LifecycleStage::CaptureKey, LifecycleEvent::Captured { is_known }) => {
                if is_known {
                    self.has_key = true;
                    self.stage = LifecycleStage::ReadKey;
                } else {
                    self.stage = LifecycleStage::CompleteReady;
                }
            },
            (LifecycleStage::ReadKey, LifecycleEvent::Key(state)) => match state {
                DevToolsDocumentLifecycleWaitState::Reached => {
                    self.end(Ok(DevToolsCommandResult::Empty));
                },
                DevToolsDocumentLifecycleWaitState::Superseded => {
                    self.stage = LifecycleStage::ReadNavigation;
                },
                DevToolsDocumentLifecycleWaitState::Pending => {
                    self.stage = LifecycleStage::CompleteReady;
                },
                _ => {
                    match devtools_document_lifecycle_wait_error(state, self.milestone) {
                        Some(error) => {
                            self.end(Err(error));
                        },
                        None => vstd::pervasive::unreached(),
                    }
                },
            },
            (LifecycleStage::CompleteReady, LifecycleEvent::Ready(progress)) => {
                let before: usize = self.output.len();
                match self.output.absorb(progress) {
                    Some(error) => {
                        self.end(Err(error));
                    },
                    None => {
                        if self.output.len() > before {
                            self.reread();
                        } else if self.has_key {
                            self.stage = LifecycleStage::RecheckKey;
                        } else {
                            self.stage = LifecycleStage::RecheckNavigation;
                        }
                    },
                }
            },
            (LifecycleStage::RecheckNavigation, LifecycleEvent::Navigation(state)) => {
                self.stage = if state.is_same(&self.seen) {
                    LifecycleStage::WaitProgress
                } else {
                    LifecycleStage::ReadNavigation
                };
            },
            (LifecycleStage::RecheckKey, LifecycleEvent::Key(state)) => {
                self.stage = match state {
                    DevToolsDocumentLifecycleWaitState::Pending => LifecycleStage::WaitProgress,
                    _ => LifecycleStage::ReadKey,
                };
            },
            (LifecycleStage::WaitProgress, LifecycleEvent::Progress(progress)) => {
                match self.output.absorb(progress) {
                    Some(error) => {
                        self.end(Err(error));
                    },
                    None => {
                        self.reread();
                    },
                }
            },
            _ => {},
        }
    }

    /// What a wait that is over came to.
    pub fn finish(self) -> (execution: DevToolsCommandExecution)
        requires
            self.wf(),
            self@.stage is Done,
        ensures
            Some(dispatch::result_of(execution.result)) == self@.result,
            execution.protocol_output@ == self@.output,
    {
        match self.result {
            Some(result) => DevToolsCommandExecution { result, protocol_output: self.output },
            None => vstd::pervasive::unreached(),
        }
    }
}

/// The wait never loses output, whatever it is told.
pub proof fn law_lifecycle_wait_keeps_output(wait: LifecycleModel, event: LifecycleEvent)
    ensures
        wait.output.is_prefix_of(wait.after(event).output),
{
}

/// The wait succeeds only when the Document that was looked up last has reached
/// its milestone.
pub proof fn law_success_means_reached(wait: LifecycleModel, event: LifecycleEvent)
    requires
        wait.result is None,
        wait.after(event).result matches Some(result) && result is Ok,
    ensures
        wait.stage is ReadKey,
        event == LifecycleEvent::Key(DevToolsDocumentLifecycleWaitState::Reached),
        wait.after(event).result == Some(
            Ok::<DevToolsCommandResult, DevToolsRefusal>(DevToolsCommandResult::Empty),
        ),
{
}

/// A Document that was replaced does not end the wait: it begins again with the
/// Target.
pub proof fn law_replaced_document_restarts(wait: LifecycleModel)
    requires
        wait.stage is ReadKey,
    ensures
        wait.after(
            LifecycleEvent::Key(DevToolsDocumentLifecycleWaitState::Superseded),
        ) == wait.at(LifecycleStage::ReadNavigation),
{
}

} // verus!
