//! What the waits of the scheduler promise, said of what came of them and of
//! the answers themselves.
use vstd::prelude::*;

use crate::connection::background_output::BackgroundProtocolEvent;
use crate::connection::navigation::DocumentState;
use crate::devtools::{DevToolsCommandResult, DevToolsErrorKind, DevToolsRefusal};
use crate::facts::types::RendererDocumentLifecycleMilestone;
use crate::scheduler::commands;
use crate::scheduler::commands::{DevToolsDocumentLifecycleWaitState, DevToolsNavigationWait};
use crate::scheduler::dispatch::{DispatchEvent, DispatchModel};
use crate::scheduler::lifecycle_wait::{LifecycleEvent, LifecycleModel};
use crate::scheduler::output;
use crate::scheduler::pending;
use crate::scheduler::pending::{
    OwnerCommandStart, OwnerCommandStep, PendingEvent, PendingKind, PendingModel, PendingSelection,
};
use crate::scheduler::progress;
use crate::scheduler::progress::WaitInput;
use crate::scheduler::state::SchedulerModel;
use crate::scheduler::waits::{
    LoadEvent, LoadWaitModel, ObserverEvent, ObserverModel, ReadyEvent, ReadyModel,
};

verus! {

/// When the transport of renderer output ends, the error says whether too much
/// was sent and what was waited for. Output that was carried out is brought, and
/// only a failure of it ends a wait.
pub proof fn law_ended_transport_says_why(input: WaitInput, boundary: Seq<char>)
    ensures
        input matches WaitInput::Closed { over_budget } ==> {
            &&& progress::input_brought(input).len() == 0
            &&& progress::input_refused(input, boundary) is Some
            &&& progress::input_refused(input, boundary)->Some_0.kind == DevToolsErrorKind::Internal
            &&& over_budget ==> progress::input_refused(input, boundary)->Some_0.message
                == "Renderer output transport "@ + "exceeded its bounded admission budget"@
                + " before "@ + boundary
            &&& !over_budget ==> progress::input_refused(input, boundary)->Some_0.message
                == "Renderer output transport "@ + "closed"@ + " before "@ + boundary
        },
        input matches WaitInput::Applied(Ok(output)) ==> progress::input_brought(input) == output@
            && progress::input_refused(input, boundary) is None,
        input matches WaitInput::Applied(Err(failure)) ==> {
            &&& progress::input_brought(input) == failure.protocol_output@
            &&& progress::input_refused(input, boundary) == Some(
                DevToolsRefusal { kind: failure.error.kind, message: failure.error.message@ },
            )
        },
{
}

/// The wait for an announced milestone. Once what is ready was completed it is
/// over where the milestone is in what was gathered, from its beginning on;
/// otherwise the Document is read. While the Document can still reach the
/// milestone, or has reached it unannounced, an input is waited for. A failure
/// ends the wait and is its error.
pub proof fn law_observer_waits_for_the_announcement(wait: ObserverModel, event: ObserverEvent)
    ensures
        ({
            let after = wait.after(event);
            let announced = exists|at: int|
                0 <= at < after.gathered.output.len() && (
                #[trigger] after.gathered.output[at]).facts.lifecycle == Some(wait.notice);
            &&& after.notice == wait.notice
            &&& wait.stage is CompleteReady ==> {
                &&& event matches ObserverEvent::Ready(Ok(output)) ==> {
                    &&& after.gathered.output == wait.gathered.output + output@
                    &&& after.gathered.refusal is None
                    &&& announced ==> after.stage is Done
                    &&& !announced ==> after.stage is ReadState
                }
                &&& event matches ObserverEvent::Ready(Err(failure)) ==> {
                    &&& after.gathered.output == wait.gathered.output + failure.protocol_output@
                    &&& after.stage is Done
                    &&& after.gathered.refusal == Some(failure.error@)
                }
            }
            &&& wait.stage is ReadState ==> {
                &&& event == ObserverEvent::State(DevToolsDocumentLifecycleWaitState::Pending)
                    || event == ObserverEvent::State(DevToolsDocumentLifecycleWaitState::Reached)
                    ==> after.stage is Receive && after.gathered == wait.gathered
                &&& event == ObserverEvent::State(DevToolsDocumentLifecycleWaitState::Interrupted)
                    || event == ObserverEvent::State(DevToolsDocumentLifecycleWaitState::Superseded)
                    || event == ObserverEvent::State(
                    DevToolsDocumentLifecycleWaitState::Unavailable,
                ) ==> after.stage is Done && after.gathered == wait.gathered
            }
            &&& wait.stage is Receive ==> {
                &&& event matches ObserverEvent::Input(WaitInput::Applied(Ok(output))) ==> {
                    &&& after.stage is CompleteReady
                    &&& after.gathered.output == wait.gathered.output + output@
                    &&& after.gathered.refusal is None
                }
                &&& event matches ObserverEvent::Input(WaitInput::Applied(Err(failure))) ==> {
                    &&& after.stage is Done
                    &&& after.gathered.output == wait.gathered.output + failure.protocol_output@
                    &&& after.gathered.refusal == Some(failure.error@)
                }
                &&& event matches ObserverEvent::Input(WaitInput::Closed { over_budget }) ==> {
                    &&& after.stage is Done
                    &&& after.gathered.refusal is Some
                }
            }
            &&& wait.stage is Done ==> after == wait
        }),
{
    let after = wait.after(event);
    let gathered = after.gathered.output;
    assert(output::announced_since(gathered, wait.notice, 0) == (exists|at: int|
        0 <= at < gathered.len() && (#[trigger] gathered[at]).facts.lifecycle == Some(wait.notice)))
        by {
        if output::announced_since(gathered, wait.notice, 0) {
            let at = choose|at: int|
                0 <= at < gathered.len() && output::announces(#[trigger] gathered[at], wait.notice);
            assert(gathered[at].facts.lifecycle == Some(wait.notice));
        }
        if exists|at: int|
            0 <= at < gathered.len() && (#[trigger] gathered[at]).facts.lifecycle == Some(
                wait.notice,
            ) {
            let at = choose|at: int|
                0 <= at < gathered.len() && (#[trigger] gathered[at]).facts.lifecycle == Some(
                    wait.notice,
                );
            assert(output::announces(gathered[at], wait.notice));
        }
    }
}

/// The wait for a deferred load drains events, then loads, then events again,
/// then completes what is ready, and then waits for an input, over and over,
/// until the load is no longer waited for or something has failed. All output
/// is gathered in the order in which it came.
pub proof fn law_load_wait_goes_round(wait: LoadWaitModel, event: LoadEvent)
    ensures
        ({
            let after = wait.after(event);
            let before = wait.gathered.output;
            &&& wait.stage is DrainEvents ==> (event matches LoadEvent::Drained(output)
                ==> after.stage is DrainLoads && after.gathered.output == before + output@
                && after.gathered.refusal is None)
            &&& wait.stage is DrainLoads ==> (event matches LoadEvent::Drained(output)
                ==> after.stage is DrainEventsAgain && after.gathered.output == before + output@
                && after.gathered.refusal is None)
            &&& wait.stage is DrainEventsAgain ==> (event matches LoadEvent::DrainedAgain {
                output,
                waits,
            } ==> {
                &&& waits ==> after.stage is CompleteReady
                &&& !waits ==> after.stage is Done
                &&& after.gathered.output == before + output@
                &&& after.gathered.refusal is None
            })
            &&& wait.stage is CompleteReady ==> {
                &&& event matches LoadEvent::Ready { progress: Ok(output), waits } ==> {
                    &&& waits ==> after.stage is Receive
                    &&& !waits ==> after.stage is Done
                    &&& after.gathered.output == before + output@
                    &&& after.gathered.refusal is None
                }
                &&& event matches LoadEvent::Ready { progress: Err(failure), .. } ==> {
                    &&& after.stage is Done
                    &&& after.gathered.output == before + failure.protocol_output@
                    &&& after.gathered.refusal == Some(failure.error@)
                }
            }
            &&& wait.stage is Receive ==> {
                &&& event matches LoadEvent::Input {
                    input: WaitInput::Applied(Ok(output)),
                    waits,
                } ==> {
                    &&& waits ==> after.stage is DrainEvents
                    &&& !waits ==> after.stage is Done
                    &&& after.gathered.output == before + output@
                    &&& after.gathered.refusal is None
                }
                &&& event matches LoadEvent::Input {
                    input: WaitInput::Applied(Err(failure)),
                    ..
                } ==> {
                    &&& after.stage is Done
                    &&& after.gathered.output == before + failure.protocol_output@
                    &&& after.gathered.refusal == Some(failure.error@)
                }
                &&& event matches LoadEvent::Input { input: WaitInput::Closed { .. }, .. }
                    ==> after.stage is Done && after.gathered.refusal is Some
            }
            &&& wait.stage is Done ==> after == wait
        }),
{
}

/// While what is ready is completed, the turns of the Browser owner come first,
/// all of them, and what waits for its turn after them. A turn that fails ends
/// it with its error.
pub proof fn law_owner_turns_come_first(ready: ReadyModel, event: ReadyEvent)
    ensures
        ({
            let after = ready.after(event);
            let before = ready.gathered.output;
            &&& ready.stage is OwnerTurns ==> {
                &&& event matches ReadyEvent::Turned(Ok(output)) ==> after.stage is OwnerTurns
                    && after.gathered.output == before + output@ && after.gathered.refusal is None
                &&& event matches ReadyEvent::Turned(Err(failure)) ==> after.stage is Done
                    && after.gathered.output == before + failure.protocol_output@
                    && after.gathered.refusal == Some(failure.error@)
                &&& event is NoTurn ==> after.stage is Residences && after.gathered
                    == ready.gathered
                &&& event is Completed ==> after == ready
            }
            &&& ready.stage is Residences ==> {
                &&& event matches ReadyEvent::Completed(output) ==> after.stage is Done
                    && after.gathered.output == before + output@ && after.gathered.refusal
                    == ready.gathered.refusal
                &&& event is Turned || event is NoTurn ==> after == ready
            }
            &&& ready.stage is Done ==> after == ready
        }),
{
}

/// A pending command. Its completion is looked for before other work is
/// selected: after every piece of output it is looked for again, and only where
/// nothing is ready is something waited for. What completes it is its answer;
/// the deadline answers with a timeout, the end of all inputs with an error, and
/// a failure with itself. All output is gathered in the order in which it came.
pub proof fn law_pending_command_is_polled_first(wait: PendingModel, event: PendingEvent)
    ensures
        ({
            let after = wait.after(event);
            &&& after.kind == wait.kind
            &&& wait.stage is Poll ==> (event matches PendingEvent::Polled { is_complete } ==> {
                &&& is_complete ==> after.stage is Finish
                &&& !is_complete ==> after.stage is CompleteReady
                &&& after.output == wait.output
                &&& after.result == wait.result
            })
            &&& wait.stage is CompleteReady ==> (event matches PendingEvent::Ready(output) ==> {
                &&& output@.len() > 0 ==> after.stage is Poll
                &&& output@.len() == 0 ==> after.stage is Select
                &&& after.output == wait.output + output@
                &&& after.result == wait.result
            })
            &&& wait.stage is Select ==> {
                &&& event == PendingEvent::Selected(PendingSelection::Completed) ==> after.stage
                    is Finish && after.output == wait.output && after.result == wait.result
                    && after.abandoned == wait.abandoned
                &&& event == PendingEvent::Selected(PendingSelection::Deadline) ==> after.stage
                    is Done && after.abandoned && after.output == wait.output && (
                after.result matches Some(Err(refusal)) && refusal.kind
                    == DevToolsErrorKind::Timeout && refusal.message == "script timed out"@)
                &&& event == PendingEvent::Selected(PendingSelection::Closed) ==> after.stage
                    is Done && after.abandoned == wait.abandoned && after.output == wait.output && (
                after.result matches Some(Err(refusal)) && refusal.kind
                    == DevToolsErrorKind::Internal && refusal.message == "SchedulerInputClosed"@)
                &&& event matches PendingEvent::Selected(PendingSelection::Applied(Ok(output)))
                    ==> after.stage is Poll && after.output == wait.output + output@
                    && after.result == wait.result
                &&& event matches PendingEvent::Selected(PendingSelection::Applied(Err(failure)))
                    ==> after.stage is Done && after.output == wait.output
                    + failure.protocol_output@ && after.result == Some(
                    Err::<DevToolsCommandResult, DevToolsRefusal>(failure.error@),
                )
            }
            &&& wait.stage is Finish ==> (event matches PendingEvent::Finished(execution) ==> {
                &&& after.stage is Done
                &&& after.output == wait.output + execution.protocol_output@
                &&& execution.result matches Ok(answer) ==> after.result == Some(
                    Ok::<DevToolsCommandResult, DevToolsRefusal>(answer),
                )
                &&& execution.result matches Err(error) ==> after.result == Some(
                    Err::<DevToolsCommandResult, DevToolsRefusal>(error@),
                )
            })
            &&& wait.stage is Done ==> after == wait
        }),
{
}

/// What comes after the beginning of a command: one that is not the Browser
/// owner's is carried out in one piece, a navigation within the time it has; one
/// that is complete is placed, a navigation with what it waits for; and only one
/// that is pending is waited for. Renderer output is held back meanwhile by a
/// navigation, and by a held request that says so, and by nothing else.
pub proof fn law_owner_commands_go_on_by_their_kind(
    kind: PendingKind,
    start: OwnerCommandStart,
    wait: Option<DevToolsNavigationWait>,
)
    ensures
        start is NotOwned ==> pending::step_after(kind, start, wait) == (OwnerCommandStep::Direct {
            within_timeout: kind == PendingKind::Navigation,
        }),
        start is Pending ==> pending::step_after(kind, start, wait) == OwnerCommandStep::Wait,
        start is Complete && kind == PendingKind::Navigation ==> pending::step_after(
            kind,
            start,
            wait,
        ) == (OwnerCommandStep::Finish { wait }),
        start is Complete && kind != PendingKind::Navigation ==> pending::step_after(
            kind,
            start,
            wait,
        ) == (OwnerCommandStep::Finish { wait: None }),
        kind.holds_publications() <==> kind == PendingKind::Navigation || kind
            == (PendingKind::Fetch { holds_gate: true }),
{
}

/// The way from the outcome of a command to its answer. The renderer output that
/// the command has brought leaves first, then its events, then renderer output
/// up to the boundary, then the events behind that, then those behind the
/// answer. Output of a renderer that nobody receives and that was not projected
/// makes the answer an error, and the events leave all the same.
pub proof fn law_outcome_leaves_in_order(
    finish: DispatchModel,
    event: DispatchEvent,
    scheduler: SchedulerModel,
)
    ensures
        ({
            let (after, placed) = finish.after(event, scheduler);
            let (events_placed, events) = scheduler.routed(finish.protocol_events);
            let (rest_placed, rest) = scheduler.routed(finish.post_renderer_events);
            let (last_placed, last) = rest_placed.routed(finish.post_response_events);
            &&& finish.stage is ProjectPredecessor ==> {
                &&& event matches DispatchEvent::Projected(Ok(output)) ==> (finish.output + output@
                    + events).is_prefix_of(after.output) && (finish.result is Err ==> after.result
                    is Err)
                &&& event matches DispatchEvent::Projected(Err(failure)) ==> (finish.output
                    + failure.protocol_output@ + events).is_prefix_of(after.output) && after.result
                    is Err
                &&& event is Projected ==> after.protocol_events.len() == 0
                &&& event is Projected && finish.boundary is Some && finish.has_receivers
                    ==> after.stage is ProjectBoundary && after.output.len() == finish.output.len()
                    + progress::brought(event->Projected_0).len() + events.len()
                    && after.post_renderer_events == finish.post_renderer_events
                    && after.post_response_events == finish.post_response_events
            }
            &&& finish.stage is CompletePredecessor ==> (event matches DispatchEvent::Completed(
                output,
            ) ==> (finish.output + output@ + events).is_prefix_of(after.output))
            &&& finish.stage is ProjectBoundary ==> {
                &&& event matches DispatchEvent::Projected(Ok(output)) ==> after.output
                    == finish.output + output@ + rest + last && after.result == finish.result
                    && placed == last_placed
                &&& event matches DispatchEvent::Projected(Err(failure)) ==> after.output
                    == finish.output + failure.protocol_output@ + rest + last && after.result
                    == Err::<DevToolsCommandResult, DevToolsRefusal>(failure.error@) && placed
                    == last_placed
            }
            &&& finish.stage is CompleteBoundary ==> (event matches DispatchEvent::Completed(output)
                ==> after.output == finish.output + output@ + rest + last && after.result
                == finish.result && placed == last_placed)
            &&& (finish.stage is ProjectBoundary && event is Projected || finish.stage
                is CompleteBoundary && event is Completed) ==> {
                &&& after.stage is DrainLoads <==> finish.drains_loads && after.result is Ok
                &&& after.stage is DrainLoads || after.stage is Done
            }
            &&& finish.stage is DrainLoads ==> (event matches DispatchEvent::Completed(output)
                ==> after.stage is Done && after.output == finish.output + output@ && after.result
                == finish.result)
            &&& finish.stage is Done ==> after == finish && placed == scheduler
        }),
{
}

/// Where the outcome of a command begins: with the renderer output that it has
/// brought, where that is received or was projected; otherwise with its events,
/// and then its answer is an error.
pub proof fn law_outcome_begins_with_renderer_output(
    outcome: crate::scheduler::dispatch::DevToolsCommandDispatchOutcome,
    has_receivers: bool,
    drains_loads: bool,
    scheduler: SchedulerModel,
)
    ensures
        ({
            let model = DispatchModel::of(outcome, has_receivers, drains_loads);
            let (after, placed) = model.at_predecessor(
                outcome.renderer_output_predecessor,
                scheduler,
            );
            let (events_placed, events) = scheduler.routed(outcome.protocol_events@);
            let (rest_placed, rest) = events_placed.routed(outcome.post_renderer_output_events@);
            let (last_placed, last) = rest_placed.routed(outcome.post_response_events@);
            let none = Seq::<BackgroundProtocolEvent>::empty();
            &&& outcome.renderer_output_predecessor is Some && has_receivers ==> after.output.len()
                == 0 && placed == scheduler && after.stage
                == crate::scheduler::dispatch::DispatchStage::ProjectPredecessor(
                outcome.renderer_output_predecessor->Some_0,
            )
            &&& outcome.renderer_output_predecessor is None && outcome.renderer_output_boundary
                is None ==> {
                &&& after.output == none + events + rest + last
                &&& placed == last_placed
                &&& outcome.result matches Ok(answer) ==> after.result == Ok::<
                    DevToolsCommandResult,
                    DevToolsRefusal,
                >(answer)
                &&& outcome.result matches Err(error) ==> after.result == Err::<
                    DevToolsCommandResult,
                    DevToolsRefusal,
                >(error@)
                &&& after.stage is DrainLoads <==> drains_loads && outcome.result is Ok
            }
            &&& outcome.renderer_output_predecessor is None && outcome.renderer_output_boundary
                is Some && has_receivers ==> after.output == none + events && placed
                == events_placed && after.stage
                == crate::scheduler::dispatch::DispatchStage::ProjectBoundary(
                outcome.renderer_output_boundary->Some_0,
            )
            &&& outcome.renderer_output_predecessor is Some && !has_receivers && (forall|at: int|
                0 <= at < scheduler.projected.len() ==> (#[trigger] scheduler.projected[at]).stream
                    != outcome.renderer_output_predecessor->Some_0.stream)
                ==> after.result is Err
        }),
{
}

/// The wait for the current Document. A Target that is gone ends it with an
/// error; a navigation that has committed leads to its Document; anything else
/// is waited for. The Document ends it with success once it has reached the
/// milestone, begins it anew once it was replaced, is waited for while it is
/// pending, and otherwise ends it with the error that says why.
pub proof fn law_lifecycle_wait_follows_the_document(wait: LifecycleModel, event: LifecycleEvent)
    ensures
        ({
            let after = wait.after(event);
            let name = if wait.milestone == RendererDocumentLifecycleMilestone::Load {
                "load"@
            } else {
                "DOMContentLoaded"@
            };
            &&& after.milestone == wait.milestone
            &&& wait.stage is ReadNavigation ==> (event matches LifecycleEvent::Navigation(state)
                ==> {
                &&& state@ is Unavailable ==> after.stage is Done && (
                after.result matches Some(Err(refusal)) && refusal.kind
                    == DevToolsErrorKind::NoSuchTarget && refusal.message
                    == "Target closed while waiting for document navigation"@)
                &&& state@ is Committed ==> after.stage is CaptureKey && after.seen == state@
                &&& !(state@ is Unavailable) && !(state@ is Committed) ==> after.stage
                    is CompleteReady && after.seen == state@ && !after.has_key
                &&& after.output == wait.output
            })
            &&& wait.stage is CaptureKey ==> (event matches LifecycleEvent::Captured { is_known }
                ==> {
                &&& is_known ==> after.stage is ReadKey && after.has_key
                &&& !is_known ==> after.stage is CompleteReady && after.has_key == wait.has_key
            })
            &&& wait.stage is ReadKey ==> (event matches LifecycleEvent::Key(state) ==> {
                &&& state is Reached ==> after.stage is Done && after.result == Some(
                    Ok::<DevToolsCommandResult, DevToolsRefusal>(DevToolsCommandResult::Empty),
                )
                &&& state is Superseded ==> after.stage is ReadNavigation && after.result
                    == wait.result
                &&& state is Pending ==> after.stage is CompleteReady && after.result
                    == wait.result
                &&& state is Interrupted ==> after.stage is Done && (
                after.result matches Some(Err(refusal)) && refusal.kind
                    == DevToolsErrorKind::Internal && refusal.message
                    == "Navigation interrupted before "@ + name)
                &&& state is Unavailable ==> after.stage is Done && (
                after.result matches Some(Err(refusal)) && refusal.kind
                    == DevToolsErrorKind::NoSuchTarget && refusal.message
                    == "Target closed before navigation "@ + name)
            })
            &&& wait.stage is CompleteReady ==> {
                &&& event matches LifecycleEvent::Ready(Ok(output)) ==> {
                    &&& after.output == wait.output + output@
                    &&& after.result == wait.result
                    &&& output@.len() > 0 && wait.has_key ==> after.stage is ReadKey
                    &&& output@.len() > 0 && !wait.has_key ==> after.stage is ReadNavigation
                    &&& output@.len() == 0 && wait.has_key ==> after.stage is RecheckKey
                    &&& output@.len() == 0 && !wait.has_key ==> after.stage is RecheckNavigation
                }
                &&& event matches LifecycleEvent::Ready(Err(failure)) ==> after.stage is Done
                    && after.output == wait.output + failure.protocol_output@ && after.result
                    == Some(Err::<DevToolsCommandResult, DevToolsRefusal>(failure.error@))
            }
            &&& wait.stage is RecheckNavigation ==> (event matches LifecycleEvent::Navigation(state)
                ==> {
                &&& state@ == wait.seen ==> after.stage is WaitProgress
                &&& state@ != wait.seen ==> after.stage is ReadNavigation
            })
            &&& wait.stage is RecheckKey ==> (event matches LifecycleEvent::Key(state) ==> {
                &&& state is Pending ==> after.stage is WaitProgress
                &&& !(state is Pending) ==> after.stage is ReadKey
            })
            &&& wait.stage is WaitProgress ==> {
                &&& event matches LifecycleEvent::Progress(Ok(output)) ==> {
                    &&& after.output == wait.output + output@
                    &&& wait.has_key ==> after.stage is ReadKey
                    &&& !wait.has_key ==> after.stage is ReadNavigation
                }
                &&& event matches LifecycleEvent::Progress(Err(failure)) ==> after.stage is Done
                    && after.output == wait.output + failure.protocol_output@ && after.result
                    == Some(Err::<DevToolsCommandResult, DevToolsRefusal>(failure.error@))
            }
            &&& wait.stage is Done ==> after == wait
        }),
{
}

/// What a wait looks for is the milestone that it is named after, and only a
/// wait for `DOMContentLoaded` or for the load looks for one.
pub proof fn law_wait_names_its_milestone(wait: Option<DevToolsNavigationWait>)
    ensures
        commands::awaited_milestone(wait) == Some(
            RendererDocumentLifecycleMilestone::DomContentLoaded,
        ) <==> wait == Some(DevToolsNavigationWait::DomContentLoaded),
        commands::awaited_milestone(wait) == Some(RendererDocumentLifecycleMilestone::Load)
            <==> wait == Some(DevToolsNavigationWait::Load),
        commands::awaited_milestone(wait) is None <==> wait is None || wait == Some(
            DevToolsNavigationWait::Immediate,
        ),
{
}

} // verus!
