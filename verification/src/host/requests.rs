//! What the Host decides about the requests of frontends.
use vstd::prelude::*;

use crate::devtools::{DevToolsError, DevToolsErrorKind, DevToolsRefusal};

verus! {

/// What becomes of the owner loop after a request.
#[derive(Clone, Copy, Debug, PartialEq, Eq, Structural)]
pub enum DevToolsHostRequestOutcome {
    Continue,
    /// A BiDi frontend is attached now.
    AttachedBidi,
    /// The attached BiDi frontend is gone.
    DetachBidi,
    Shutdown,
}

/// The error when the Host has no browser context.
pub open spec fn no_browser_context() -> DevToolsRefusal {
    DevToolsRefusal {
        kind: DevToolsErrorKind::NoSuchTarget,
        message: "DevTools Host has no browser context"@,
    }
}

/// The error when the Host no longer serves requests.
pub open spec fn host_stopped() -> DevToolsRefusal {
    DevToolsRefusal {
        kind: DevToolsErrorKind::NoSuchSession,
        message: "DevTools Host service is closed"@,
    }
}

/// Why a request was refused.
pub open spec fn refusal_of(result: Result<(), DevToolsError>) -> Option<DevToolsRefusal> {
    match result {
        Ok(()) => None,
        Err(error) => Some(error@),
    }
}

/// What becomes of the loop after a request that has brought output. The output
/// went to the attached frontend, if there is one, which says whether it is
/// still there.
pub fn answered_request_outcome(kept: Option<bool>) -> (outcome: DevToolsHostRequestOutcome)
    ensures
        outcome == (if kept == Some(false) {
            DevToolsHostRequestOutcome::DetachBidi
        } else {
            DevToolsHostRequestOutcome::Continue
        }),
{
    match kept {
        Some(false) => DevToolsHostRequestOutcome::DetachBidi,
        _ => DevToolsHostRequestOutcome::Continue,
    }
}

/// The answer to a request that turns the handling of dialogs on or off, given
/// whether there was a context to do it for.
pub fn dialog_handler_result(applied: bool) -> (result: Result<(), DevToolsError>)
    ensures
        refusal_of(result) == (if applied {
            None
        } else {
            Some(no_browser_context())
        }),
{
    if applied {
        Ok(())
    } else {
        Err(
            DevToolsError::new(
                DevToolsErrorKind::NoSuchTarget,
                "DevTools Host has no browser context",
            ),
        )
    }
}

/// The session that a BiDi frontend speaks for.
pub enum BidiFrontendSession {
    Standalone,
    Existing { session_id: String, file_prompt_handler: Option<String> },
}

/// What comes first when a BiDi frontend wants to attach.
#[derive(Clone, Copy, Debug, PartialEq, Eq, Structural)]
pub enum BidiAttachStep {
    /// One is attached already.
    Refuse,
    /// It is to be bound to its session first.
    BindSession,
    Attach,
}

/// What comes first when a BiDi frontend wants to attach. There is only ever
/// one.
pub fn bidi_attach_step(already_attached: bool, session: &BidiFrontendSession) -> (step:
    BidiAttachStep)
    ensures
        step == (if already_attached {
            BidiAttachStep::Refuse
        } else if session is Existing {
            BidiAttachStep::BindSession
        } else {
            BidiAttachStep::Attach
        }),
{
    if already_attached {
        return BidiAttachStep::Refuse;
    }
    match session {
        BidiFrontendSession::Standalone => BidiAttachStep::Attach,
        BidiFrontendSession::Existing { .. } => BidiAttachStep::BindSession,
    }
}

/// What comes after the frontend was to be bound to its session.
pub fn bidi_bound_step(bound: bool) -> (step: BidiAttachStep)
    ensures
        step == (if bound {
            BidiAttachStep::Attach
        } else {
            BidiAttachStep::Refuse
        }),
{
    if bound {
        BidiAttachStep::Attach
    } else {
        BidiAttachStep::Refuse
    }
}

/// What becomes of the loop after a frontend wanted to attach.
pub fn bidi_attach_outcome(step: BidiAttachStep) -> (outcome: DevToolsHostRequestOutcome)
    ensures
        outcome == (if step is Attach {
            DevToolsHostRequestOutcome::AttachedBidi
        } else {
            DevToolsHostRequestOutcome::Continue
        }),
{
    match step {
        BidiAttachStep::Attach => DevToolsHostRequestOutcome::AttachedBidi,
        _ => DevToolsHostRequestOutcome::Continue,
    }
}

/// The error when the Host no longer serves requests.
pub fn devtools_host_stopped_error() -> (error: DevToolsError)
    ensures
        error@ == host_stopped(),
{
    DevToolsError::new(DevToolsErrorKind::NoSuchSession, "DevTools Host service is closed")
}

/// The answer to a request: the one that came, or that the Host is gone where
/// none will come.
pub fn reply_or_stopped<T>(reply: Option<Result<T, DevToolsError>>) -> (result: Result<
    T,
    DevToolsError,
>)
    ensures
        match reply {
            Some(reply) => result == reply,
            None => result matches Err(error) && error@ == host_stopped(),
        },
{
    match reply {
        Some(reply) => reply,
        None => Err(devtools_host_stopped_error()),
    }
}

} // verus!
