//! The DevTools Host: its requests, its loop, and tries that a navigation interrupts.
use moli_protocol::connection::background_output::BackgroundProtocolEvent;
use moli_protocol::devtools::{DevToolsCommandResult, DevToolsError, DevToolsErrorKind};
use moli_protocol::host::requests::{
    answered_request_outcome, bidi_attach_outcome, bidi_attach_step, bidi_bound_step,
    devtools_host_stopped_error, dialog_handler_result, reply_or_stopped, BidiAttachStep,
    BidiFrontendSession, DevToolsHostRequestOutcome,
};
use moli_protocol::host::retry::{
    pending_navigation_timeout_error, result_is_navigation_changing_document,
    PendingNavigationRetry, RetryEvent, RetryInput, RetryStage,
};
use moli_protocol::host::service::{
    HostAction, HostFollowup, HostHandled, HostSelection, HostServiceLoop,
};
use moli_protocol::scheduler::output::{
    CdpSchedulerProgressFailure, DevToolsCommandExecution, DevToolsPageCommandExecution,
    ProtocolOutputSequence,
};
use serde_json::Value;

fn output(labels: &[u64]) -> ProtocolOutputSequence {
    ProtocolOutputSequence::from_background_events(
        labels
            .iter()
            .map(|label| BackgroundProtocolEvent::immediate(Value::from(*label)))
            .collect(),
    )
}

fn labels(output: &ProtocolOutputSequence) -> Vec<u64> {
    output
        .events
        .iter()
        .map(|event| event.message.as_u64().unwrap_or(0))
        .collect()
}

fn tried(
    result: Result<DevToolsCommandResult, DevToolsError>,
    label: u64,
) -> DevToolsPageCommandExecution {
    DevToolsPageCommandExecution {
        execution: DevToolsCommandExecution {
            result,
            protocol_output: output(&[label]),
        },
        page_residence: None,
    }
}

fn changing() -> Result<DevToolsCommandResult, DevToolsError> {
    Err(DevToolsError::new(
        DevToolsErrorKind::NavigationChangingDocument,
        "Navigation was superseded before load",
    ))
}

#[test]
fn a_try_that_a_navigation_interrupts_is_made_again() {
    assert!(result_is_navigation_changing_document(&changing()));
    assert!(!result_is_navigation_changing_document(&Ok(
        DevToolsCommandResult::Empty
    )));
    let mut retry = PendingNavigationRetry::new(Some(100), Some(50));
    assert_eq!(retry.stage, RetryStage::Execute(Some(100)));
    retry.advance(RetryEvent::Executed(tried(changing(), 1)));
    assert_eq!(retry.stage, RetryStage::ReadWaitTime);
    retry.advance(RetryEvent::Elapsed(20));
    assert_eq!(retry.stage, RetryStage::CompleteReady(30));
    retry.advance(RetryEvent::Ready(Ok(output(&[]))));
    assert_eq!(retry.stage, RetryStage::Receive(30));
    retry.advance(RetryEvent::Received(RetryInput::Applied(Ok(output(&[2])))));
    assert_eq!(retry.stage, RetryStage::ReadRetryTime);
    retry.advance(RetryEvent::Elapsed(40));
    assert_eq!(retry.stage, RetryStage::Execute(Some(10)));
    retry.advance(RetryEvent::Executed(tried(Ok(DevToolsCommandResult::Empty), 3)));
    assert_eq!(retry.stage, RetryStage::Done);
    let done = retry.finish();
    assert!(done.execution.result.is_ok());
    assert_eq!(labels(&done.execution.protocol_output), vec![1, 2, 3]);
}

#[test]
fn without_time_to_wait_there_is_one_try() {
    let mut retry = PendingNavigationRetry::new(None, None);
    retry.advance(RetryEvent::Executed(tried(changing(), 1)));
    assert_eq!(retry.stage, RetryStage::Done);
    assert!(result_is_navigation_changing_document(
        &retry.finish().execution.result
    ));
}

#[test]
fn a_navigation_that_takes_too_long_is_an_error() {
    let mut retry = PendingNavigationRetry::new(None, Some(50));
    retry.advance(RetryEvent::Executed(tried(changing(), 1)));
    retry.advance(RetryEvent::Elapsed(51));
    let done = retry.finish();
    assert_eq!(labels(&done.execution.protocol_output), vec![1]);
    match done.execution.result {
        Ok(_) => panic!("the time is up"),
        Err(error) => {
            assert_eq!(error.kind, DevToolsErrorKind::Timeout);
            assert_eq!(error.message, "navigation wait timed out");
        }
    }
    assert_eq!(
        pending_navigation_timeout_error().message,
        "navigation wait timed out"
    );
}

#[test]
fn a_host_that_stops_ends_the_wait() {
    let waiting = || {
        let mut retry = PendingNavigationRetry::new(None, Some(50));
        retry.advance(RetryEvent::Executed(tried(changing(), 1)));
        retry.advance(RetryEvent::Elapsed(0));
        retry
    };
    let mut retry = waiting();
    retry.advance(RetryEvent::Ready(Ok(output(&[]))));
    retry.advance(RetryEvent::Received(RetryInput::Closed));
    match retry.finish().execution.result {
        Ok(_) => panic!("the Host has stopped"),
        Err(error) => assert_eq!(
            error.message,
            "DevTools Host stopped while waiting for navigation"
        ),
    }
    let mut retry = waiting();
    retry.advance(RetryEvent::Ready(Err(CdpSchedulerProgressFailure::new(
        output(&[2]),
        DevToolsError::new(DevToolsErrorKind::Internal, "broken"),
    ))));
    let done = retry.finish();
    assert_eq!(labels(&done.execution.protocol_output), vec![1, 2]);
    let mut retry = waiting();
    retry.advance(RetryEvent::Ready(Ok(output(&[2]))));
    assert_eq!(retry.stage, RetryStage::Execute(None));
}

#[test]
fn one_frontend_is_attached_at_a_time() {
    let mut service = HostServiceLoop::new();
    assert!(service.receives_adapter_input(false));
    assert!(!service.receives_adapter_input(true));
    let attached = HostHandled::Request(DevToolsHostRequestOutcome::AttachedBidi);
    assert_eq!(service.handled(attached), HostFollowup::Continue);
    assert!(!service.receives_adapter_input(false));
    assert_eq!(service.handled(attached), HostFollowup::ReleaseDuplicate);
    assert_eq!(
        service.handled(HostHandled::Sent { is_kept: false }),
        HostFollowup::ReleaseFrontend
    );
    assert!(!service.attached);
    assert_eq!(
        service.handled(HostHandled::Request(DevToolsHostRequestOutcome::Continue)),
        HostFollowup::IngestReady
    );
    assert_eq!(service.handled(HostHandled::Failed), HostFollowup::Stop);
    assert!(!service.stop());
}

#[test]
fn a_closed_socket_releases_the_frontend_and_no_more() {
    let mut service = HostServiceLoop { attached: true };
    assert_eq!(
        service.selected(HostSelection::AdapterScheduler),
        HostAction::Handle
    );
    assert_eq!(
        service.selected(HostSelection::Socket { is_closed: true }),
        HostAction::ReleaseFrontend
    );
    assert!(!service.attached);
    assert_eq!(
        service.selected(HostSelection::Request { is_closed: true }),
        HostAction::Stop
    );
    assert!(service.receives_publications(false, false));
    assert!(!service.receives_publications(true, false));
    assert!(!service.receives_publications(false, true));
    assert!(HostServiceLoop { attached: true }.stop());
}

#[test]
fn requests_are_answered_or_the_host_is_gone() {
    assert_eq!(
        answered_request_outcome(Some(false)),
        DevToolsHostRequestOutcome::DetachBidi
    );
    assert_eq!(
        answered_request_outcome(Some(true)),
        DevToolsHostRequestOutcome::Continue
    );
    assert_eq!(
        answered_request_outcome(None),
        DevToolsHostRequestOutcome::Continue
    );
    assert!(dialog_handler_result(true).is_ok());
    match dialog_handler_result(false) {
        Ok(()) => panic!("there is no context"),
        Err(error) => assert_eq!(error.message, "DevTools Host has no browser context"),
    }
    assert_eq!(
        devtools_host_stopped_error().message,
        "DevTools Host service is closed"
    );
    assert!(matches!(reply_or_stopped(Some(Ok(7u64))), Ok(7)));
    match reply_or_stopped::<u64>(None) {
        Ok(_) => panic!("no answer comes"),
        Err(error) => assert_eq!(error.kind, DevToolsErrorKind::NoSuchSession),
    }
}

#[test]
fn a_frontend_is_bound_to_its_session_first() {
    let existing = BidiFrontendSession::Existing {
        session_id: "session-1".to_owned(),
        file_prompt_handler: None,
    };
    assert_eq!(
        bidi_attach_step(false, &existing),
        BidiAttachStep::BindSession
    );
    assert_eq!(
        bidi_attach_step(false, &BidiFrontendSession::Standalone),
        BidiAttachStep::Attach
    );
    assert_eq!(bidi_attach_step(true, &existing), BidiAttachStep::Refuse);
    assert_eq!(bidi_bound_step(true), BidiAttachStep::Attach);
    assert_eq!(bidi_bound_step(false), BidiAttachStep::Refuse);
    assert_eq!(
        bidi_attach_outcome(BidiAttachStep::Attach),
        DevToolsHostRequestOutcome::AttachedBidi
    );
    assert_eq!(
        bidi_attach_outcome(BidiAttachStep::Refuse),
        DevToolsHostRequestOutcome::Continue
    );
}
