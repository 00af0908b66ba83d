//! What the course of a command promises, said of the command, of what came of
//! each of its stages, and of the output and the answer themselves.
use vstd::prelude::*;

use crate::connection::background_output::BackgroundProtocolEvent;
use crate::devtools::{DevToolsCommandResult, DevToolsErrorKind, DevToolsRefusal};
use crate::facts::types::{PageResidenceIdentity, RendererDocumentLifecycleMilestone};
use crate::scheduler::barrier::NetworkBarrier;
use crate::scheduler::commands::{
    CommandDispatch, DevToolsCommand, DevToolsDocumentLifecycleWaitState, DevToolsNavigationWait,
};
use crate::scheduler::execution::{CommandEvent, CommandModel, CommandStage, WaitKey};
use crate::scheduler::output;
use crate::text;

verus! {

/// A navigation, a reload and a traversal of the history wait for what they
/// name; no other command waits. Only a wait for `DOMContentLoaded` or for the
/// load, of a top-level Target, is held against a Document, and only a wait for
/// the load holds subresource events back. A command begins with the navigations
/// in flight, with no output and no answer.
pub proof fn law_command_begins_with_its_wait(
    command: DevToolsCommand,
    is_top_level: bool,
    target_id: Option<Seq<char>>,
    expected: Option<PageResidenceIdentity>,
)
    ensures
        ({
            let course = CommandModel::begun(command, is_top_level, target_id, expected);
            let awaits = course.wait == Some(DevToolsNavigationWait::DomContentLoaded)
                || course.wait == Some(DevToolsNavigationWait::Load);
            &&& command matches DevToolsCommand::Navigate(navigate) ==> course.wait == Some(
                navigate.wait,
            )
            &&& command matches DevToolsCommand::Reload(reload) ==> course.wait == Some(reload.wait)
            &&& command matches DevToolsCommand::TraverseHistory(traverse) ==> course.wait == Some(
                traverse.wait,
            )
            &&& !(command is Navigate) && !(command is Reload) && !(command is TraverseHistory)
                ==> course.wait is None
            &&& course.validates == (is_top_level && awaits)
            &&& course.barrier.waiting == (course.wait == Some(DevToolsNavigationWait::Load))
            &&& course.barrier.parked.len() == 0
            &&& course.stage == CommandStage::DrainInflight
            &&& course.target_id == target_id
            &&& course.expected == expected
            &&& course.output.len() == 0
            &&& course.result is None
            &&& course.key is None
            &&& course.loader is None
            &&& course.page is None
        }),
{
}

/// A command is carried out by what its name says: navigations, reloads and
/// traversals by the Browser owner, the removal of a context by its disposal, a
/// decision on a held request by the request, a script by its runtime, and
/// everything else in one piece.
pub proof fn law_command_is_carried_out_by_its_name(command: DevToolsCommand)
    ensures
        command.spec_dispatch() == CommandDispatch::OwnerNavigation <==> command is Navigate
            || command is Reload || command is TraverseHistory,
        command.spec_dispatch() == CommandDispatch::ContextDisposal
            <==> command is RemoveBrowserContext,
        command.spec_dispatch() == CommandDispatch::Runtime <==> command is Runtime,
        command.spec_dispatch() == CommandDispatch::Direct <==> command is Other,
        command.spec_dispatch() == CommandDispatch::Fetch <==> command is ContinueInterceptedRequest
            || command is ContinueInterceptedResponse || command is ContinueWithAuth
            || command is FailInterceptedRequest || command is FulfillInterceptedRequest,
{
}

/// Nothing is carried out before the navigations in flight were drained and the
/// Page was looked up. A command that names a Page is carried out only on that
/// Page: in the same context, of the same Target, in the same place and of the
/// same count. On any other it is refused and over.
pub proof fn law_command_runs_on_the_named_page(course: CommandModel, event: CommandEvent)
    ensures
        course.after(event).stage is CapturePage && !(course.stage is CapturePage) ==> course.stage
            is DrainInflight && event is Drained && event->Drained_0 is Ok,
        course.after(event).stage is Execute && !(course.stage is Execute) ==> course.stage
            is CapturePage && event is Page,
        course.stage is DrainInflight && event is Drained && event->Drained_0 is Ok
            ==> course.after(event).stage is CapturePage,
        course.stage is CapturePage && event is Page ==> ({
            let page = event->Page_0;
            let after = course.after(event);
            let is_named = match course.expected {
                None => true,
                Some(expected) => page matches Some(found) && found.browser_context_id@
                    == expected.browser_context_id@ && text::opt_chars(found.target_id)
                    == text::opt_chars(expected.target_id) && found.residence.instance
                    == expected.residence.instance && found.residence.generation
                    == expected.residence.generation,
            };
            &&& after.page == page
            &&& after.start == course.output.len()
            &&& is_named ==> after.stage is Execute && after.result == course.result
                && after.output == course.output
            &&& !is_named ==> after.stage is Done && after.result == Some(
                Err::<DevToolsCommandResult, DevToolsRefusal>(
                    DevToolsRefusal {
                        kind: DevToolsErrorKind::NoSuchNode,
                        message: "DOM reference belongs to a replaced Page"@,
                    },
                ),
            )
        }),
{
}

/// The answer of a command is the one that it was carried out with. Only a
/// failure of what was waited for, or the verdict on its Document, takes its
/// place: a failed drain answers with the error of the drain, and a command that
/// took too long with a timeout.
pub proof fn law_answer_is_the_one_carried_out(course: CommandModel, event: CommandEvent)
    requires
        course.accepts(event),
    ensures
        ({
            let after = course.after(event);
            match event {
                CommandEvent::Executed(execution) => match execution.result {
                    Ok(answer) => after.result == Some(
                        Ok::<DevToolsCommandResult, DevToolsRefusal>(answer),
                    ),
                    Err(error) => after.result matches Some(Err(refusal)) && refusal.kind
                        == error.kind && refusal.message == error.message@,
                },
                CommandEvent::TimedOut => after.result matches Some(Err(refusal)) && refusal.kind
                    == DevToolsErrorKind::Timeout && refusal.message == "script timed out"@,
                CommandEvent::Drained(Err(failure)) => after.stage is Done && (
                after.result matches Some(Err(refusal)) && refusal.kind == failure.error.kind
                    && refusal.message == failure.error.message@),
                CommandEvent::LoadDrained(Err(failure)) => after.result matches Some(Err(refusal))
                    && refusal.kind == failure.error.kind && refusal.message
                    == failure.error.message@,
                CommandEvent::Observed(Err(failure)) => after.stage is Done && (
                after.result matches Some(Err(refusal)) && refusal.kind == failure.error.kind
                    && refusal.message == failure.error.message@),
                CommandEvent::Drained(Ok(_)) => after.result == course.result,
                CommandEvent::LoadDrained(Ok(_)) => after.result == course.result,
                CommandEvent::Observed(Ok(_)) => after.result == course.result,
                CommandEvent::Key(_) => after.result == course.result,
                CommandEvent::Ready(_) => after.result == course.result,
                _ => true,
            }
        }),
{
}

/// The Document of a navigation is looked up exactly where the navigation has
/// succeeded, is held against a Document, and names what it has loaded: by the
/// loader itself, or by a navigation that is named after it.
pub proof fn law_document_is_looked_up_by_its_loader(course: CommandModel, event: CommandEvent)
    requires
        course.stage is Execute,
        event is Executed,
    ensures
        ({
            let after = course.after(event);
            let answer = event->Executed_0.result;
            &&& after.stage is CaptureKey || after.stage is CompleteReady
            &&& after.stage is CaptureKey <==> answer is Ok && course.validates && after.loader
                is Some
            &&& answer matches Ok(DevToolsCommandResult::Navigate(navigated)) ==> {
                &&& navigated.loader_id matches Some(loader_id) ==> after.loader == Some(loader_id@)
                &&& navigated.loader_id is None && navigated.navigation_id is None ==> after.loader
                    is None
                &&& (navigated.loader_id is None && navigated.navigation_id is Some) ==> {
                    let name = navigated.navigation_id->Some_0@;
                    &&& after.loader matches Some(loader) ==> name == "navigation-"@ + loader
                    &&& after.loader is None ==> forall|rest: Seq<char>|
                        name != #[trigger] ("navigation-"@ + rest)
                }
            }
            &&& !(answer matches Ok(DevToolsCommandResult::Navigate(_))) ==> after.loader is None
        }),
{
    let after = course.after(event);
    let answer = event->Executed_0.result;
    if let Ok(DevToolsCommandResult::Navigate(navigated)) = answer {
        if navigated.loader_id is None && navigated.navigation_id is Some {
            let name = navigated.navigation_id->Some_0@;
            let prefix = "navigation-"@;
            if let Some(loader) = after.loader {
                assert(name =~= prefix + loader);
            } else {
                assert forall|rest: Seq<char>| name != #[trigger] (prefix + rest) by {
                    if name == prefix + rest {
                        assert(prefix.is_prefix_of(name));
                    }
                }
            }
        }
    }
}

/// A Document that was not found at first is looked up once more, after what is
/// ready was completed; what is found then is what counts.
pub proof fn law_document_is_looked_up_again(course: CommandModel, event: CommandEvent)
    requires
        course.accepts(event),
    ensures
        event matches CommandEvent::Key(found) ==> ({
            let after = course.after(event);
            &&& after.key is Some <==> found is Some
            &&& found matches Some(found) ==> {
                &&& after.key->Some_0.notice.document == found.document
                &&& after.key->Some_0.notice.milestone == found.milestone
                &&& after.key->Some_0.frame_id == found.frame_id@
            }
            &&& course.stage is CaptureKey ==> after.stage is CompleteReady
            &&& after.stage !is CaptureKey && after.stage !is CaptureKeyAgain
        }),
        !(event is Key) ==> course.after(event).key == course.key,
        course.after(event).stage is CaptureKeyAgain <==> event is Ready && (course.result matches Some(
            Ok(_),
        )) && course.validates && course.loader is Some && course.key is None && !(
        course.stage is CompleteReady && course.wait == Some(DevToolsNavigationWait::Load)),
{
}

/// A navigation that has succeeded and waits for the load drains the load once;
/// no other command does.
pub proof fn law_load_is_drained_for_its_wait(course: CommandModel, event: CommandEvent)
    requires
        course.accepts(event),
    ensures
        course.after(event).stage is DrainLoad <==> course.stage is CompleteReady && course.wait
            == Some(DevToolsNavigationWait::Load) && (course.result matches Some(Ok(_))),
        course.stage is DrainLoad ==> course.after(event).stage is CompleteReadyAgain,
        course.after(event).stage is CompleteReadyAgain ==> course.stage is DrainLoad,
{
}

/// As long as the milestone of a known Document is not in the output of a
/// navigation that waits for `DOMContentLoaded` or for the load, and nothing has
/// failed, the milestone is waited for: once what is ready was completed and the
/// Document was looked up, the wait is what comes next, and neither a verdict
/// nor the end comes before it.
pub proof fn law_unannounced_milestone_is_waited_for(
    course: CommandModel,
    event: CommandEvent,
    key: WaitKey,
)
    requires
        course.wait == Some(DevToolsNavigationWait::DomContentLoaded) || course.wait == Some(
            DevToolsNavigationWait::Load,
        ),
        course.stage !is Observe,
        course.stage !is ReadKeyState,
        course.stage !is CheckRoute,
        course.stage !is Done,
        course.after(event).result matches Some(Ok(_)),
        course.after(event).key == Some(key),
        forall|at: int|
            course.after(event).start <= at < course.after(event).output.len() ==> (
            #[trigger] course.after(event).output[at]).facts.lifecycle != Some(key.notice),
    ensures
        course.after(event).stage !is ReadKeyState,
        course.after(event).stage !is CheckRoute,
        course.after(event).stage !is Done,
        course.stage is CaptureKeyAgain && event is Key ==> course.after(event).stage is Observe,
        course.stage is CompleteReadyAgain && event is Ready ==> course.after(event).stage
            is Observe,
        course.stage is CompleteReady && event is Ready && course.wait == Some(
            DevToolsNavigationWait::DomContentLoaded,
        ) ==> course.after(event).stage is Observe,
{
    let after = course.after(event);
    assert forall|held: CommandModel|
        #![trigger held.done()]
        held.key == Some(key) && held.start == after.start && held.done().output == after.output
        implies !output::announced_since(
        held.output,
        key.notice,
        held.start as int,
    ) by {
        if output::announced_since(held.output, key.notice, held.start as int) {
            let at = choose|at: int|
                held.start <= at < held.output.len() && output::announces(
                    #[trigger] held.output[at],
                    key.notice,
                );
            assert(after.output[at] == held.output[at]);
        }
    }
}

/// The milestone is waited for only by a navigation that has succeeded so far,
/// waits for one, and knows its Document, and only while its output does not
/// show it. The wait ends with the first thing that is observed.
pub proof fn law_only_unannounced_milestones_are_waited_for(
    course: CommandModel,
    event: CommandEvent,
)
    requires
        course.accepts(event),
    ensures
        course.stage is Observe ==> course.after(event).stage !is Observe,
        course.after(event).stage is Observe ==> ({
            let after = course.after(event);
            &&& after.result matches Some(Ok(_))
            &&& after.wait == Some(DevToolsNavigationWait::DomContentLoaded) || after.wait == Some(
                DevToolsNavigationWait::Load,
            )
            &&& after.key matches Some(key) && forall|at: int|
                after.start <= at < after.output.len() ==> (
                #[trigger] after.output[at]).facts.lifecycle != Some(key.notice)
        }),
{
    let after = course.after(event);
    if after.stage is Observe {
        let key = after.key->Some_0;
        assert forall|at: int| after.start <= at < after.output.len() implies (
        #[trigger] after.output[at]).facts.lifecycle != Some(key.notice) by {
            if after.output[at].facts.lifecycle == Some(key.notice) {
                assert(output::announces(after.output[at], key.notice));
            }
        }
    }
}

/// What comes after the last wait. A navigation that is held against a Document
/// is over with success only where its own output shows the milestone of that
/// Document, or a download in its frame (in the Target that it names, where no
/// Document is known); otherwise the Document is read, or the Target is looked
/// up where no Document is known. A command that is not held against a Document,
/// or that has failed, is over.
pub proof fn law_success_needs_a_sign(course: CommandModel, event: CommandEvent)
    requires
        course.accepts(event),
    ensures
        ({
            let after = course.after(event);
            let announced = after.key is Some && exists|at: int|
                after.start <= at < after.output.len() && (
                #[trigger] after.output[at]).facts.lifecycle == Some(after.key->Some_0.notice);
            let frame = match after.key {
                Some(key) => Some(key.frame_id),
                None => after.target_id,
            };
            let downloads = frame is Some && exists|at: int|
                after.start <= at < after.output.len() && text::opt_chars(
                    (#[trigger] after.output[at]).facts.download_frame_id,
                ) == frame;
            &&& after.stage is Done && after.result is Some && after.result->Some_0 is Ok
                && after.validates ==> announced || downloads || event == CommandEvent::KeyState(
                DevToolsDocumentLifecycleWaitState::Reached,
            ) || event == (CommandEvent::Route { is_top_level: true })
            &&& after.stage is ReadKeyState || after.stage is CheckRoute ==> {
                &&& after.result is Some && after.result->Some_0 is Ok
                &&& after.validates
                &&& !announced
                &&& !downloads
            }
            &&& after.stage is ReadKeyState ==> after.key is Some
            &&& after.stage is CheckRoute ==> after.key is None
        }),
{
    lemma_signs(course, event);
}

/// Signs in the output, and after it is over.
proof fn lemma_signs(course: CommandModel, event: CommandEvent)
    ensures
        forall|held: CommandModel|
            #![trigger held.is_shown()]
            held.is_shown() ==> ({
                let done = held.done();
                let frame = match held.key {
                    Some(key) => Some(key.frame_id),
                    None => held.target_id,
                };
                ||| held.key is Some && exists|at: int|
                    done.start <= at < done.output.len() && (
                    #[trigger] done.output[at]).facts.lifecycle == Some(held.key->Some_0.notice)
                ||| frame is Some && exists|at: int|
                    done.start <= at < done.output.len() && text::opt_chars(
                        (#[trigger] done.output[at]).facts.download_frame_id,
                    ) == frame
            }),
        forall|held: CommandModel|
            #![trigger held.is_shown()]
            !held.is_shown() ==> ({
                let frame = match held.key {
                    Some(key) => Some(key.frame_id),
                    None => held.target_id,
                };
                &&& held.key is Some ==> forall|at: int|
                    held.start <= at < held.output.len() ==> (
                    #[trigger] held.output[at]).facts.lifecycle != Some(held.key->Some_0.notice)
                &&& frame is Some ==> forall|at: int|
                    held.start <= at < held.output.len() ==> text::opt_chars(
                        (#[trigger] held.output[at]).facts.download_frame_id,
                    ) != frame
            }),
{
    assert forall|held: CommandModel|
        #![trigger held.is_shown()]
        held.is_shown() implies ({
        let done = held.done();
        let frame = match held.key {
            Some(key) => Some(key.frame_id),
            None => held.target_id,
        };
        ||| held.key is Some && exists|at: int|
            done.start <= at < done.output.len() && (#[trigger] done.output[at]).facts.lifecycle
                == Some(held.key->Some_0.notice)
        ||| frame is Some && exists|at: int|
            done.start <= at < done.output.len() && text::opt_chars(
                (#[trigger] done.output[at]).facts.download_frame_id,
            ) == frame
    }) by {
        let done = held.done();
        if held.key is Some && output::announced_since(
            held.output,
            held.key->Some_0.notice,
            held.start as int,
        ) {
            let at = choose|at: int|
                held.start <= at < held.output.len() && output::announces(
                    #[trigger] held.output[at],
                    held.key->Some_0.notice,
                );
            assert(done.output[at] == held.output[at]);
        } else {
            let frame_id = held.download_frame()->Some_0;
            let at = choose|at: int|
                held.start <= at < held.output.len() && output::begins_download(
                    #[trigger] held.output[at],
                    frame_id,
                );
            assert(done.output[at] == held.output[at]);
        }
    }
    assert forall|held: CommandModel|
        #![trigger held.is_shown()]
        !held.is_shown() implies ({
        let frame = match held.key {
            Some(key) => Some(key.frame_id),
            None => held.target_id,
        };
        &&& held.key is Some ==> forall|at: int|
            held.start <= at < held.output.len() ==> (
            #[trigger] held.output[at]).facts.lifecycle != Some(held.key->Some_0.notice)
        &&& frame is Some ==> forall|at: int|
            held.start <= at < held.output.len() ==> text::opt_chars(
                (#[trigger] held.output[at]).facts.download_frame_id,
            ) != frame
    }) by {
        if held.key is Some {
            assert forall|at: int| held.start <= at < held.output.len() implies (
            #[trigger] held.output[at]).facts.lifecycle != Some(held.key->Some_0.notice) by {
                if held.output[at].facts.lifecycle == Some(held.key->Some_0.notice) {
                    assert(output::announces(
                        held.output[at],
                        held.key->Some_0.notice,
                    ));
                }
            }
        }
        let frame = match held.key {
            Some(key) => Some(key.frame_id),
            None => held.target_id,
        };
        if frame is Some {
            assert forall|at: int| held.start <= at < held.output.len() implies text::opt_chars(
                (#[trigger] held.output[at]).facts.download_frame_id,
            ) != frame by {
                if text::opt_chars(held.output[at].facts.download_frame_id) == frame {
                    assert(output::begins_download(
                        held.output[at],
                        frame->Some_0,
                    ));
                }
            }
        }
    }
}

/// The verdict on a Document: one that has reached the milestone leaves the
/// answer as it is. Otherwise the answer names the milestone and says what came
/// between: an interruption, a later navigation, the end of the Target, or the
/// end of the wait.
pub proof fn law_document_state_decides(
    course: CommandModel,
    state: DevToolsDocumentLifecycleWaitState,
    key: WaitKey,
)
    requires
        course.stage is ReadKeyState,
        course.key == Some(key),
    ensures
        ({
            let after = course.after(CommandEvent::KeyState(state));
            let name = if key.notice.milestone == RendererDocumentLifecycleMilestone::Load {
                "load"@
            } else {
                "DOMContentLoaded"@
            };
            &&& after.stage is Done
            &&& state is Reached ==> after.result == course.result
            &&& state !is Reached ==> after.result is Some && after.result->Some_0 is Err && ({
                let refusal = after.result->Some_0->Err_0;
                &&& state is Interrupted ==> refusal.kind == DevToolsErrorKind::Internal
                    && refusal.message == "Navigation interrupted before "@ + name
                &&& state is Superseded ==> refusal.kind
                    == DevToolsErrorKind::NavigationChangingDocument && refusal.message
                    == "Navigation was superseded before "@ + name
                &&& state is Unavailable ==> refusal.kind == DevToolsErrorKind::NoSuchTarget
                    && refusal.message == "Target closed before navigation "@ + name
                &&& state is Pending ==> refusal.kind == DevToolsErrorKind::Internal
                    && refusal.message == "Navigation "@ + name + " wait was cancelled"@
            })
        }),
{
}

/// Where no Document is known, a navigation stands as long as its Target does.
pub proof fn law_target_decides_without_a_document(course: CommandModel, is_top_level: bool)
    requires
        course.stage is CheckRoute,
    ensures
        ({
            let after = course.after(CommandEvent::Route { is_top_level });
            &&& after.stage is Done
            &&& is_top_level ==> after.result == course.result
            &&& !is_top_level ==> after.result == Some(
                Err::<DevToolsCommandResult, DevToolsRefusal>(
                    DevToolsRefusal {
                        kind: DevToolsErrorKind::NoSuchTarget,
                        message: "Target closed before navigation load"@,
                    },
                ),
            )
        }),
{
}

/// A barrier that does not wait lets everything pass.
proof fn lemma_open_barrier_passes(
    barrier: NetworkBarrier,
    events: Seq<BackgroundProtocolEvent>,
)
    requires
        !barrier.waiting,
    ensures
        barrier.after(events) == (barrier, events),
    decreases events.len(),
{
    if events.len() > 0 {
        lemma_open_barrier_passes(barrier, events.drop_last());
        assert(events.drop_last() + seq![events.last()] =~= events);
    } else {
        assert(events =~= Seq::<BackgroundProtocolEvent>::empty());
    }
}

/// Once the response of the Document has begun, or where the load is not waited
/// for, the output of a command is what its stages have brought, in their order
/// and nothing else.
pub proof fn law_open_course_passes_output(course: CommandModel, event: CommandEvent)
    requires
        course.accepts(event),
        !course.barrier.waiting,
        course.barrier.parked.len() == 0,
    ensures
        ({
            let after = course.after(event);
            &&& !after.barrier.waiting
            &&& after.barrier.parked.len() == 0
            &&& after.output == course.output + (match event {
                CommandEvent::Drained(Ok(output)) => output@,
                CommandEvent::Drained(Err(failure)) => failure.protocol_output@,
                CommandEvent::Executed(execution) => execution.protocol_output@,
                CommandEvent::Ready(output) => output@,
                CommandEvent::LoadDrained(Ok(output)) => output@,
                CommandEvent::LoadDrained(Err(failure)) => failure.protocol_output@,
                CommandEvent::Observed(Ok(output)) => output@,
                CommandEvent::Observed(Err(failure)) => failure.protocol_output@,
                _ => Seq::empty(),
            })
        }),
{
    let none = Seq::<BackgroundProtocolEvent>::empty();
    let events = CommandModel::brings(event);
    lemma_open_barrier_passes(course.barrier, events);
    assert(course.barrier.parked =~= none);
    assert(course.output + none =~= course.output);
    assert((course.output + events) + none =~= course.output + events);
}

} // verus!
