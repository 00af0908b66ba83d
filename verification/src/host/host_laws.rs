//! What the Host does with requests, with its frontend and with commands whose
//! Document a navigation changes, said of what came and what comes next.
use vstd::prelude::*;

use crate::devtools::{DevToolsCommandResult, DevToolsError, DevToolsErrorKind, DevToolsRefusal};
use crate::host::requests;
use crate::host::requests::{BidiAttachStep, BidiFrontendSession, DevToolsHostRequestOutcome};
use crate::host::retry::{
    PendingNavigationRetry, RetryEvent, RetryInput, RetryModel, RetryStage,
};
use crate::host::service;
use crate::host::service::{HostAction, HostFollowup, HostHandled, HostSelection};
use crate::scheduler::output::{
    CdpSchedulerProgressFailure, DevToolsPageCommandExecution, ProtocolOutputSequence,
};

verus! {

/// A frontend that attaches while another is attached is refused. One that
/// speaks for a session that exists is bound to it before it is attached, and is
/// refused where that fails. Only one that is attached counts as attached.
pub proof fn law_one_frontend_attaches_at_a_time(
    already_attached: bool,
    session: BidiFrontendSession,
    step: BidiAttachStep,
    bound: bool,
    next: BidiAttachStep,
    outcome: DevToolsHostRequestOutcome,
)
    ensures
        call_ensures(requests::bidi_attach_step, (already_attached, &session), step) ==> {
            &&& already_attached ==> step is Refuse
            &&& !already_attached && session is Existing ==> step is BindSession
            &&& !already_attached && session is Standalone ==> step is Attach
        },
        call_ensures(requests::bidi_bound_step, (bound,), next) ==> {
            &&& bound ==> next is Attach
            &&& !bound ==> next is Refuse
        },
        call_ensures(requests::bidi_attach_outcome, (step,), outcome) ==> {
            &&& step is Attach <==> outcome is AttachedBidi
            &&& step !is Attach <==> outcome is Continue
        },
{
}

/// A frontend that is gone when output is sent is detached; with one that is
/// there, and with none, the loop goes on.
pub proof fn law_frontend_that_is_gone_is_detached(
    kept: Option<bool>,
    outcome: DevToolsHostRequestOutcome,
)
    ensures
        call_ensures(requests::answered_request_outcome, (kept,), outcome) ==> {
            &&& kept is Some && !kept->Some_0 ==> outcome is DetachBidi
            &&& kept is None || kept->Some_0 ==> outcome is Continue
        },
{
}

/// A request is answered with what came for it. Where nothing will come, the
/// answer is that the Host is closed; where there is no context, that there is
/// none.
pub proof fn law_requests_are_answered(
    reply: Option<Result<u64, DevToolsError>>,
    answer: Result<u64, DevToolsError>,
    applied: bool,
    handled: Result<(), DevToolsError>,
)
    ensures
        call_ensures(requests::reply_or_stopped::<u64>, (reply,), answer) ==> {
            &&& reply is Some ==> answer == reply->Some_0
            &&& reply is None ==> answer is Err && answer->Err_0.kind is NoSuchSession
                && answer->Err_0.message@ == "DevTools Host service is closed"@
        },
        call_ensures(requests::dialog_handler_result, (applied,), handled) ==> {
            &&& applied <==> handled is Ok
            &&& handled is Err ==> handled->Err_0.kind is NoSuchTarget
                && handled->Err_0.message@ == "DevTools Host has no browser context"@
        },
{
}

/// Whether what was received tells that a sender is gone.
pub open spec fn sender_is_gone(selection: HostSelection) -> bool {
    match selection {
        HostSelection::LoadProjection { is_closed } => is_closed,
        HostSelection::BrowserHost { is_closed } => is_closed,
        HostSelection::BackgroundNavigationCompletion { is_closed } => is_closed,
        HostSelection::BackgroundEvent { is_closed } => is_closed,
        HostSelection::RendererPublication { is_closed } => is_closed,
        HostSelection::Socket { is_closed } => is_closed,
        HostSelection::RuntimeResponse { is_closed } => is_closed,
        HostSelection::Request { is_closed } => is_closed,
        HostSelection::AdapterScheduler => false,
    }
}

/// What came is carried out. Where a sender is gone instead, the loop ends,
/// unless it was the attached frontend's, which is released.
pub proof fn law_gone_senders_end_the_loop(selection: HostSelection)
    ensures
        !sender_is_gone(selection) <==> service::action_for(selection) is Handle,
        sender_is_gone(selection) && (selection is Socket || selection is RuntimeResponse)
            <==> service::action_for(selection) is ReleaseFrontend,
        sender_is_gone(selection) && !(selection is Socket || selection is RuntimeResponse)
            <==> service::action_for(selection) is Stop,
{
}

/// The loop ends on a shutdown and on a failure that nobody can be told, and on
/// nothing else. Output that is ready is taken in at once after a request that
/// leaves no frontend attached. A frontend is attached exactly where one attached
/// now, or one was attached and was neither detached nor gone.
pub proof fn law_loop_goes_on_as_it_should(attached: bool, handled: HostHandled)
    ensures
        ({
            let after = service::followup(attached, handled).0;
            let next = service::followup(attached, handled).1;
            let gone = handled matches HostHandled::Sent { is_kept } && !is_kept;
            let detached = handled == HostHandled::Request(DevToolsHostRequestOutcome::DetachBidi);
            let arrived = handled == HostHandled::Request(
                DevToolsHostRequestOutcome::AttachedBidi,
            );
            let continued = handled == HostHandled::Request(DevToolsHostRequestOutcome::Continue);
            let shut = handled == HostHandled::Request(DevToolsHostRequestOutcome::Shutdown);
            &&& next is Stop <==> shut || handled is Failed
            &&& after <==> arrived || (attached && !gone && !detached)
            &&& next is IngestReady <==> !attached && (continued || detached)
            &&& next is ReleaseFrontend <==> attached && (gone || detached)
            &&& next is ReleaseDuplicate <==> attached && arrived
        }),
{
}

/// Renderer output is received only while no script is stopped at a dialog and no
/// navigation is in flight. What the adapter scheduled is received by the loop
/// only while no frontend is attached and no script is stopped.
pub proof fn law_receiving_waits_for_dialogs(
    host: service::HostServiceLoop,
    blocked: bool,
    in_flight: bool,
    publications: bool,
    scheduled: bool,
    releases: bool,
)
    ensures
        call_ensures(
            service::HostServiceLoop::receives_publications,
            (&host, blocked, in_flight),
            publications,
        ) ==> (publications <==> !(blocked || in_flight)),
        call_ensures(
            service::HostServiceLoop::receives_adapter_input,
            (&host, blocked),
            scheduled,
        ) ==> (scheduled <==> !(host.attached || blocked)),
        call_ensures(service::HostServiceLoop::stop, (host,), releases) ==> (releases
            <==> host.attached),
{
}

/// A try is the last, with its answer and its Page, unless it says that a
/// navigation has changed the Document and a time was given to wait for it. Its
/// output follows what came before.
pub proof fn law_changed_document_is_tried_again(
    retry: RetryModel,
    tried: DevToolsPageCommandExecution,
)
    requires
        retry.stage is Execute,
    ensures
        ({
            let after = retry.after(RetryEvent::Executed(tried));
            let changed = tried.execution.result is Err
                && tried.execution.result->Err_0.kind is NavigationChangingDocument;
            &&& changed && retry.navigation_timeout is Some <==> after.stage is ReadWaitTime
            &&& !changed || retry.navigation_timeout is None <==> after.stage is Done
            &&& after.output == retry.output + tried.execution.protocol_output@
            &&& after.page == tried.page_residence
            &&& after.timeout == retry.timeout
            &&& after.navigation_timeout == retry.navigation_timeout
            &&& after.result is Some
            &&& tried.execution.result matches Ok(answer) ==> after.result == Some(
                Ok::<DevToolsCommandResult, DevToolsRefusal>(answer),
            )
            &&& tried.execution.result matches Err(error) ==> after.result->Some_0 is Err
                && after.result->Some_0->Err_0.kind == error.kind
                && after.result->Some_0->Err_0.message == error.message@
        }),
{
}

/// Whether a course is over with an error that reads so.
pub open spec fn over_with(retry: RetryModel, kind: DevToolsErrorKind, message: Seq<char>) -> bool {
    &&& retry.stage is Done
    &&& retry.result is Some
    &&& retry.result->Some_0 is Err
    &&& retry.result->Some_0->Err_0.kind == kind
    &&& retry.result->Some_0->Err_0.message == message
}

/// The wait for a navigation has what is left of its time, and is over once more
/// has passed. An input that does not come in time, or not at all, ends it too.
pub proof fn law_wait_for_the_navigation_ends(retry: RetryModel, elapsed: u64)
    requires
        retry.navigation_timeout is Some,
    ensures
        ({
            let limit = retry.navigation_timeout->Some_0;
            let waited = retry.after(RetryEvent::Elapsed(elapsed));
            &&& retry.stage is ReadWaitTime && elapsed <= limit ==> (
            waited.stage matches RetryStage::CompleteReady(left) && left + elapsed == limit)
            &&& retry.stage is ReadWaitTime && elapsed > limit ==> over_with(
                waited,
                DevToolsErrorKind::Timeout,
                "navigation wait timed out"@,
            )
            &&& retry.stage is ReadRetryTime && elapsed > limit ==> over_with(
                waited,
                DevToolsErrorKind::Timeout,
                "navigation wait timed out"@,
            )
            &&& waited.output == retry.output
        }),
        retry.stage is Receive ==> {
            &&& over_with(
                retry.after(RetryEvent::Received(RetryInput::TimedOut)),
                DevToolsErrorKind::Timeout,
                "navigation wait timed out"@,
            )
            &&& over_with(
                retry.after(RetryEvent::Received(RetryInput::Closed)),
                DevToolsErrorKind::NoSuchSession,
                "DevTools Host stopped while waiting for navigation"@,
            )
        },
{
}

/// A try after the wait has the time of a try, or what is left of the wait where
/// that is less.
pub proof fn law_next_try_has_the_lesser_time(retry: RetryModel, elapsed: u64)
    requires
        retry.stage is ReadRetryTime,
        retry.timeout is Some,
        retry.navigation_timeout is Some,
        elapsed <= retry.navigation_timeout->Some_0,
    ensures
        ({
            let after = retry.after(RetryEvent::Elapsed(elapsed));
            let left = retry.navigation_timeout->Some_0 - elapsed;
            &&& after.stage is Execute
            &&& after.stage->Execute_0 matches Some(within) && within <= retry.timeout->Some_0
                && within <= left && (within == retry.timeout->Some_0 || within == left)
            &&& after.output == retry.output && after.result == retry.result
        }),
{
}

/// What is ready is gathered, and so is what an input brings. A failure ends the
/// course with its error. Where nothing was ready an input is waited for, for the
/// time that is left. Otherwise the command is tried again: at once where a try
/// has no limit, and else once the time is read.
pub proof fn law_progress_is_gathered(
    retry: RetryModel,
    output: ProtocolOutputSequence,
    failure: CdpSchedulerProgressFailure,
)
    requires
        retry.stage is CompleteReady || retry.stage is Receive,
    ensures
        ({
            let on = |progress: Result<ProtocolOutputSequence, CdpSchedulerProgressFailure>|
                if retry.stage is CompleteReady {
                    retry.after(RetryEvent::Ready(progress))
                } else {
                    retry.after(RetryEvent::Received(RetryInput::Applied(progress)))
                };
            let went = on(Ok(output));
            let failed = on(Err(failure));
            let idle = retry.stage is CompleteReady && output@.len() == 0;
            &&& failed.output == retry.output + failure.protocol_output@
            &&& over_with(failed, failure.error.kind, failure.error.message@)
            &&& went.output == retry.output + output@
            &&& idle ==> went.stage == RetryStage::Receive(retry.stage->CompleteReady_0)
            &&& !idle && retry.timeout is None ==> went.stage == RetryStage::Execute(None)
            &&& !idle && retry.timeout is Some ==> went.stage is ReadRetryTime
        }),
{
}

/// A command that may be tried again begins with its first try, in the time of a
/// try. A course that is over hands on its answer, its output and its Page.
pub proof fn law_retry_begins_and_ends(
    timeout: Option<u64>,
    navigation_timeout: Option<u64>,
    begun: PendingNavigationRetry,
    over: PendingNavigationRetry,
    execution: DevToolsPageCommandExecution,
)
    ensures
        call_ensures(PendingNavigationRetry::new, (timeout, navigation_timeout), begun) ==> {
            &&& begun@.stage == RetryStage::Execute(timeout)
            &&& begun@.timeout == timeout
            &&& begun@.navigation_timeout == navigation_timeout
            &&& begun@.output.len() == 0
            &&& begun@.page is None
            &&& begun@.result is None
        },
        call_ensures(PendingNavigationRetry::finish, (over,), execution) ==> {
            &&& execution.execution.protocol_output@ == over@.output
            &&& execution.page_residence == over@.page
            &&& execution.execution.result matches Ok(answer) ==> over@.result == Some(
                Ok::<DevToolsCommandResult, DevToolsRefusal>(answer),
            )
            &&& execution.execution.result matches Err(error) ==> over@.result is Some
                && over@.result->Some_0 is Err && over@.result->Some_0->Err_0.kind == error.kind
                && over@.result->Some_0->Err_0.message == error.message@
        },
{
}

} // verus!
