//! Carrying a command out again when a navigation has changed its Document.
//!
//! The wait for the navigation has a time of its own, and each try takes no
//! longer than what is left of it. Times are in milliseconds, counted from the
//! end of the first try.
use vstd::prelude::*;

use crate::connection::background_output::BackgroundProtocolEvent;
use crate::devtools::{DevToolsCommandResult, DevToolsError, DevToolsErrorKind, DevToolsRefusal};
use crate::facts::types::PageResidenceIdentity;
use crate::scheduler::dispatch;
use crate::scheduler::lifecycle_wait;
use crate::scheduler::output::{
    CdpSchedulerProgressFailure, DevToolsCommandExecution, DevToolsPageCommandExecution,
    ProtocolOutputSequence,
};
use crate::scheduler::pending;
use crate::scheduler::progress;

verus! {

/// What comes next.
#[derive(Clone, Copy, Debug, PartialEq, Eq, Structural)]
pub enum RetryStage {
    /// The command is to be carried out, within a time if there is one.
    Execute(Option<u64>),
    /// The time that has passed is to be read, before the wait goes on.
    ReadWaitTime,
    /// What is ready is to be completed; the time that is left is kept.
    CompleteReady(u64),
    /// An input is to be received within a time.
    Receive(u64),
    /// The time that has passed is to be read, before the command is carried out
    /// again.
    ReadRetryTime,
    Done,
}

/// What was received.
pub enum RetryInput {
    TimedOut,
    /// No input will come any more.
    Closed,
    /// An input came, and was carried out.
    Applied(Result<ProtocolOutputSequence, CdpSchedulerProgressFailure>),
}

/// What came of what was needed.
pub enum RetryEvent {
    Executed(DevToolsPageCommandExecution),
    Elapsed(u64),
    Ready(Result<ProtocolOutputSequence, CdpSchedulerProgressFailure>),
    Received(RetryInput),
}

/// The course, as a value.
pub struct RetryModel {
    pub stage: RetryStage,
    pub timeout: Option<u64>,
    pub navigation_timeout: Option<u64>,
    pub output: Seq<BackgroundProtocolEvent>,
    pub page: Option<PageResidenceIdentity>,
    pub result: Option<Result<DevToolsCommandResult, DevToolsRefusal>>,
}

/// Whether an answer says that a navigation has changed the Document.
pub open spec fn is_changing_document(result: Result<DevToolsCommandResult, DevToolsRefusal>) -> bool {
    result matches Err(refusal) && refusal.kind is NavigationChangingDocument
}

/// Whether an answer says that a navigation has changed the Document.
pub fn result_is_navigation_changing_document(
    result: &Result<DevToolsCommandResult, DevToolsError>,
) -> (changing: bool)
    ensures
        changing == is_changing_document(dispatch::result_of(*result)),
{
    match result {
        Ok(_) => false,
        Err(error) => match error.kind {
            DevToolsErrorKind::NavigationChangingDocument => true,
            _ => false,
        },
    }
}

/// The error when the navigation was waited for too long.
pub fn pending_navigation_timeout_error() -> (error: DevToolsError)
    ensures
        error@ == lifecycle_wait::navigation_timeout(),
{
    DevToolsError::new(DevToolsErrorKind::Timeout, "navigation wait timed out")
}

/// The error when the Host has stopped meanwhile.
pub open spec fn host_stopped_waiting() -> DevToolsRefusal {
    DevToolsRefusal {
        kind: DevToolsErrorKind::NoSuchSession,
        message: "DevTools Host stopped while waiting for navigation"@,
    }
}

impl RetryModel {
    /// The course at its beginning.
    pub open spec fn begun(timeout: Option<u64>, navigation_timeout: Option<u64>) -> RetryModel {
        RetryModel {
            stage: RetryStage::Execute(timeout),
            timeout,
            navigation_timeout,
            output: Seq::empty(),
            page: None,
            result: None,
        }
    }

    pub open spec fn at(self, stage: RetryStage) -> RetryModel {
        RetryModel { stage, ..self }
    }

    pub open spec fn refused(self, refusal: DevToolsRefusal) -> RetryModel {
        RetryModel { stage: RetryStage::Done, result: Some(Err(refusal)), ..self }
    }

    /// Where the command is carried out again: at once, or once the time that is
    /// left is known.
    pub open spec fn at_retry(self) -> RetryModel {
        match self.timeout {
            Some(_) => self.at(RetryStage::ReadRetryTime),
            None => self.at(RetryStage::Execute(None)),
        }
    }

    /// After a try. It is the last one unless a navigation has changed the
    /// Document and there is time to wait for it.
    pub open spec fn tried(
        self,
        result: Result<DevToolsCommandResult, DevToolsRefusal>,
        page: Option<PageResidenceIdentity>,
        events: Seq<BackgroundProtocolEvent>,
    ) -> RetryModel {
        RetryModel {
            stage: if self.navigation_timeout is Some && is_changing_document(result) {
                RetryStage::ReadWaitTime
            } else {
                RetryStage::Done
            },
            output: self.output + events,
            page,
            result: Some(result),
            ..self
        }
    }

    /// With what progress has brought: a failure, or the next stage.
    pub open spec fn progressed(
        self,
        progress: Result<ProtocolOutputSequence, CdpSchedulerProgressFailure>,
    ) -> RetryModel {
        let gathered = RetryModel { output: self.output + progress::brought(progress), ..self };
        match progress::refused(progress) {
            Some(refusal) => gathered.refused(refusal),
            None => gathered.at_retry(),
        }
    }

    /// The course after what it needed.
    pub open spec fn after(self, event: RetryEvent) -> RetryModel {
        match (self.stage, event) {
            (RetryStage::Execute(_), RetryEvent::Executed(tried)) => self.tried(
                dispatch::result_of(tried.execution.result),
                tried.page_residence,
                tried.execution.protocol_output@,
            ),
            (RetryStage::ReadWaitTime, RetryEvent::Elapsed(elapsed)) => {
                let limit = self.navigation_timeout->0;
                if elapsed <= limit {
                    self.at(RetryStage::CompleteReady((limit - elapsed) as u64))
                } else {
                    self.refused(lifecycle_wait::navigation_timeout())
                }
            },
            (RetryStage::CompleteReady(remaining), RetryEvent::Ready(progress)) => {
                if progress is Ok && progress::brought(progress).len() == 0 {
                    self.at(RetryStage::Receive(remaining))
                } else {
                    self.progressed(progress)
                }
            },
            (RetryStage::Receive(_), RetryEvent::Received(input)) => match input {
                RetryInput::TimedOut => self.refused(lifecycle_wait::navigation_timeout()),
                RetryInput::Closed => self.refused(host_stopped_waiting()),
                RetryInput::Applied(progress) => self.progressed(progress),
            },
            (RetryStage::ReadRetryTime, RetryEvent::Elapsed(elapsed)) => {
                let limit = self.navigation_timeout->0;
                if elapsed <= limit {
                    let remaining = (limit - elapsed) as u64;
                    self.at(
                        RetryStage::Execute(
                            Some(
                                if self.timeout->0 <= remaining {
                                    self.timeout->0
                                } else {
                                    remaining
                                },
                            ),
                        ),
                    )
                } else {
                    self.refused(lifecycle_wait::navigation_timeout())
                }
            },
            _ => self,
        }
    }

    /// Whether the course is one that can be taken.
    pub open spec fn inv(self) -> bool {
        &&& self.stage is Done ==> self.result is Some
        &&& !(self.stage is Execute || self.stage is Done) ==> self.navigation_timeout is Some
        &&& self.stage is ReadRetryTime ==> self.timeout is Some
    }
}

/// A command that is carried out again while a navigation changes its Document.
pub struct PendingNavigationRetry {
    pub stage: RetryStage,
    pub timeout: Option<u64>,
    pub navigation_timeout: Option<u64>,
    pub output: ProtocolOutputSequence,
    pub page: Option<PageResidenceIdentity>,
    pub result: Option<Result<DevToolsCommandResult, DevToolsError>>,
}

impl View for PendingNavigationRetry {
    type V = RetryModel;

    open spec fn view(&self) -> RetryModel {
        RetryModel {
            stage: self.stage,
            timeout: self.timeout,
            navigation_timeout: self.navigation_timeout,
            output: self.output@,
            page: self.page,
            result: pending::opt_result_of(self.result),
        }
    }
}

impl PendingNavigationRetry {
    pub open spec fn wf(&self) -> bool {
        self@.inv()
    }

    pub fn new(timeout: Option<u64>, pending_navigation_timeout: Option<u64>) -> (retry:
        PendingNavigationRetry)
        ensures
            retry.wf(),
            retry@ == RetryModel::begun(timeout, pending_navigation_timeout),
    {
        PendingNavigationRetry {
            stage: RetryStage::Execute(timeout),
            timeout,
            navigation_timeout: pending_navigation_timeout,
            output: ProtocolOutputSequence::empty(),
            page: None,
            result: None,
        }
    }

    fn refuse(&mut self, error: DevToolsError)
        ensures
            final(self).wf(),
            final(self)@ == old(self)@.refused(error@),
    {
        self.result = Some(Err(error));
        self.stage = RetryStage::Done;
    }

    fn progress(&mut self, progress: Result<ProtocolOutputSequence, CdpSchedulerProgressFailure>)
        requires
            old(self)@.navigation_timeout is Some,
        ensures
            final(self).wf(),
            final(self)@ == old(self)@.progressed(progress),
    {
        match self.output.absorb(progress) {
            Some(error) => {
                self.refuse(error);
            },
            None => {
                self.stage = if self.timeout.is_some() {
                    RetryStage::ReadRetryTime
                } else {
                    RetryStage::Execute(None)
                };
            },
        }
    }

    /// The time that is left of the wait.
    fn remaining(&self, elapsed: u64) -> (remaining: Option<u64>)
        requires
            self@.navigation_timeout is Some,
        ensures
            remaining == (if elapsed <= self@.navigation_timeout->0 {
                Some((self@.navigation_timeout->0 - elapsed) as u64)
            } else {
                None
            }),
    {
        match self.navigation_timeout {
            Some(limit) => limit.checked_sub(elapsed),
            None => None,
        }
    }

    /// Goes on with what came of what was needed.
    pub fn advance(&mut self, event: RetryEvent)
        requires
            old(self).wf(),
        ensures
            final(self).wf(),
            final(self)@ == old(self)@.after(event),
    {
        match (self.stage, event) {
            (RetryStage::Execute(_), RetryEvent::Executed(tried)) => {
                self.stage = if self.navigation_timeout.is_some()
                    && result_is_navigation_changing_document(&tried.execution.result) {
                    RetryStage::ReadWaitTime
                } else {
                    RetryStage::Done
                };
                self.output.append(tried.execution.protocol_output);
                self.page = tried.page_residence;
                self.result = Some(tried.execution.result);
            },
            (RetryStage::ReadWaitTime, RetryEvent::Elapsed(elapsed)) => {
                match self.remaining(elapsed) {
                    Some(remaining) => {
                        self.stage = RetryStage::CompleteReady(remaining);
                    },
                    None => {
                        self.refuse(pending_navigation_timeout_error());
                    },
                }
            },
            (RetryStage::CompleteReady(remaining), RetryEvent::Ready(progress)) => {
                let is_idle = match &progress {
                    Ok(output) => output.is_empty(),
                    Err(_) => false,
                };
                if is_idle {
                    self.stage = RetryStage::Receive(remaining);
                } else {
                    self.progress(progress);
                }
            },
            (RetryStage::Receive(_), RetryEvent::Received(input)) => match input {
                RetryInput::TimedOut => {
                    self.refuse(pending_navigation_timeout_error());
                },
                RetryInput::Closed => {
                    self.refuse(
                        DevToolsError::new(
                            DevToolsErrorKind::NoSuchSession,
                            "DevTools Host stopped while waiting for navigation",
                        ),
                    );
                },
                RetryInput::Applied(progress) => {
                    self.progress(progress);
                },
            },
            (RetryStage::ReadRetryTime, RetryEvent::Elapsed(elapsed)) => {
                match (self.remaining(elapsed), self.timeout) {
                    (Some(remaining), Some(timeout)) => {
                        self.stage = RetryStage::Execute(
                            Some(
                                if timeout <= remaining {
                                    timeout
                                } else {
                                    remaining
                                },
                            ),
                        );
                    },
                    _ => {
                        self.refuse(pending_navigation_timeout_error());
                    },
                }
            },
            _ => {},
        }
    }

    /// What a course that is over came to.
    pub fn finish(self) -> (execution: DevToolsPageCommandExecution)
        requires
            self.wf(),
            self@.stage is Done,
        ensures
            Some(dispatch::result_of(execution.execution.result)) == self@.result,
            execution.execution.protocol_output@ == self@.output,
            execution.page_residence == self@.page,
    {
        match self.result {
            Some(result) => DevToolsPageCommandExecution {
                execution: DevToolsCommandExecution { result, protocol_output: self.output },
                page_residence: self.page,
            },
            None => vstd::pervasive::unreached(),
        }
    }
}

/// No output is lost between tries.
pub proof fn law_retry_keeps_output(retry: RetryModel, event: RetryEvent)
    ensures
        retry.output.is_prefix_of(retry.after(event).output),
{
}

/// Without a time for the wait the command is carried out once.
pub proof fn law_no_wait_no_retry(retry: RetryModel, tried: DevToolsPageCommandExecution)
    requires
        retry.stage is Execute,
        retry.navigation_timeout is None,
    ensures
        retry.after(RetryEvent::Executed(tried)).stage is Done,
{
}

/// No try takes longer than a try may, nor than what is left of the wait.
pub proof fn law_retry_is_bounded(retry: RetryModel, elapsed: u64, within: u64)
    requires
        retry.inv(),
        retry.stage is ReadRetryTime,
        retry.after(RetryEvent::Elapsed(elapsed)).stage == RetryStage::Execute(Some(within)),
    ensures
        within <= retry.timeout->0,
        within + elapsed <= retry.navigation_timeout->0,
{
}

} // verus!
