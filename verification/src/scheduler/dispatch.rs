//! From the outcome of a command to its answer, with the output that leaves
//! before it.
//!
//! Renderer output that the command has brought leaves first, then its events,
//! then renderer output up to the boundary it names, then the rest.
use vstd::prelude::*;

use crate::connection::background_output::BackgroundProtocolEvent;
use crate::devtools::{DevToolsCommandResult, DevToolsError, DevToolsErrorKind, DevToolsRefusal};
use crate::scheduler::commands::DevToolsNavigationWait;
use crate::scheduler::output::{
    CdpSchedulerProgressFailure, DevToolsCommandExecution, ProtocolOutputSequence,
};
use crate::scheduler::progress;
use crate::scheduler::publications::RendererOutputCursor;
use crate::scheduler::state;
use crate::scheduler::state::{CdpScheduler, CdpSchedulerEvent, SchedulerModel};

verus! {

/// What a command has brought about.
pub struct DevToolsCommandDispatchOutcome {
    pub result: Result<DevToolsCommandResult, DevToolsError>,
    pub scheduler_events: Vec<CdpSchedulerEvent>,
    pub protocol_events: Vec<BackgroundProtocolEvent>,
    pub renderer_output_boundary: Option<RendererOutputCursor>,
    pub post_renderer_output_events: Vec<BackgroundProtocolEvent>,
    pub post_response_events: Vec<BackgroundProtocolEvent>,
    pub renderer_output_predecessor: Option<RendererOutputCursor>,
}

/// An answer, as a value.
pub open spec fn result_of(result: Result<DevToolsCommandResult, DevToolsError>) -> Result<
    DevToolsCommandResult,
    DevToolsRefusal,
> {
    match result {
        Ok(answer) => Ok(answer),
        Err(error) => Err(error@),
    }
}

/// What comes next on the way to the answer.
#[derive(Clone, Copy, Debug, PartialEq, Eq, Structural)]
pub enum DispatchStage {
    /// The renderer output that the command has brought is to be projected.
    ProjectPredecessor(RendererOutputCursor),
    /// It has been projected; what waits of it is to be completed.
    CompletePredecessor(RendererOutputCursor),
    /// The same for renderer output up to the boundary.
    ProjectBoundary(RendererOutputCursor),
    CompleteBoundary(RendererOutputCursor),
    /// Loads that have happened are to be drained.
    DrainLoads,
    Done,
}

/// What came of it.
pub enum DispatchEvent {
    Projected(Result<ProtocolOutputSequence, CdpSchedulerProgressFailure>),
    Completed(ProtocolOutputSequence),
}

/// The way to the answer, as a value.
pub struct DispatchModel {
    pub stage: DispatchStage,
    /// Whether renderer output can be received.
    pub has_receivers: bool,
    /// Whether loads are drained before the answer of a command that succeeded.
    pub drains_loads: bool,
    pub result: Result<DevToolsCommandResult, DevToolsRefusal>,
    pub output: Seq<BackgroundProtocolEvent>,
    pub protocol_events: Seq<BackgroundProtocolEvent>,
    pub boundary: Option<RendererOutputCursor>,
    pub post_renderer_events: Seq<BackgroundProtocolEvent>,
    pub post_response_events: Seq<BackgroundProtocolEvent>,
}

/// The error of a command whose renderer output nobody receives.
pub open spec fn unreceived_predecessor() -> DevToolsRefusal {
    DevToolsRefusal {
        kind: DevToolsErrorKind::Internal,
        message: "DevTools command produced renderer output without an ingress receiver"@,
    }
}

/// The error of a command whose renderer boundary nobody receives.
pub open spec fn unreceived_boundary() -> DevToolsRefusal {
    DevToolsRefusal {
        kind: DevToolsErrorKind::Internal,
        message:
            "DevTools command produced a renderer insertion boundary without an ingress receiver"@,
    }
}

impl DispatchModel {
    /// After an outcome, before anything was placed.
    pub open spec fn of(
        outcome: DevToolsCommandDispatchOutcome,
        has_receivers: bool,
        drains_loads: bool,
    ) -> DispatchModel {
        DispatchModel {
            stage: DispatchStage::Done,
            has_receivers,
            drains_loads,
            result: result_of(outcome.result),
            output: Seq::empty(),
            protocol_events: outcome.protocol_events@,
            boundary: outcome.renderer_output_boundary,
            post_renderer_events: outcome.post_renderer_output_events@,
            post_response_events: outcome.post_response_events@,
        }
    }

    /// At the renderer output that leaves first.
    pub open spec fn at_predecessor(
        self,
        predecessor: Option<RendererOutputCursor>,
        scheduler: SchedulerModel,
    ) -> (DispatchModel, SchedulerModel) {
        match predecessor {
            Some(cursor) => if self.has_receivers {
                (
                    DispatchModel { stage: DispatchStage::ProjectPredecessor(cursor), ..self },
                    scheduler,
                )
            } else if state::reaches(scheduler.projected, cursor) {
                (
                    DispatchModel { stage: DispatchStage::CompletePredecessor(cursor), ..self },
                    scheduler,
                )
            } else {
                (DispatchModel { result: Err(unreceived_predecessor()), ..self }).at_events(
                    scheduler,
                )
            },
            None => self.at_events(scheduler),
        }
    }

    /// At the events, and then at the boundary.
    pub open spec fn at_events(self, scheduler: SchedulerModel) -> (DispatchModel, SchedulerModel) {
        let (routed, leaves) = scheduler.routed(self.protocol_events);
        let after = DispatchModel {
            output: self.output + leaves,
            protocol_events: Seq::empty(),
            ..self
        };
        match self.boundary {
            Some(cursor) => if self.has_receivers {
                (DispatchModel { stage: DispatchStage::ProjectBoundary(cursor), ..after }, routed)
            } else if state::reaches(routed.projected, cursor) {
                (DispatchModel { stage: DispatchStage::CompleteBoundary(cursor), ..after }, routed)
            } else {
                (DispatchModel { result: Err(unreceived_boundary()), ..after }).at_rest(routed)
            },
            None => after.at_rest(routed),
        }
    }

    /// At the rest, and then at the loads or the end.
    pub open spec fn at_rest(self, scheduler: SchedulerModel) -> (DispatchModel, SchedulerModel) {
        let (routed, leaves) = scheduler.routed(self.post_renderer_events);
        let (after, later) = routed.routed(self.post_response_events);
        (
            DispatchModel {
                stage: if self.drains_loads && self.result is Ok {
                    DispatchStage::DrainLoads
                } else {
                    DispatchStage::Done
                },
                output: self.output + leaves + later,
                post_renderer_events: Seq::empty(),
                post_response_events: Seq::empty(),
                ..self
            },
            after,
        )
    }

    /// With output gathered. A failure becomes the answer.
    pub open spec fn gathers(
        self,
        progress: Result<ProtocolOutputSequence, CdpSchedulerProgressFailure>,
    ) -> DispatchModel {
        DispatchModel {
            output: self.output + progress::brought(progress),
            result: match progress::refused(progress) {
                Some(refusal) => Err(refusal),
                None => self.result,
            },
            ..self
        }
    }

    /// After what was needed.
    pub open spec fn after(self, event: DispatchEvent, scheduler: SchedulerModel) -> (
        DispatchModel,
        SchedulerModel,
    ) {
        match (self.stage, event) {
            (DispatchStage::ProjectPredecessor(_), DispatchEvent::Projected(progress)) => {
                self.gathers(progress).at_events(scheduler)
            },
            (DispatchStage::CompletePredecessor(_), DispatchEvent::Completed(output)) => {
                self.gathers(Ok(output)).at_events(scheduler)
            },
            (DispatchStage::ProjectBoundary(_), DispatchEvent::Projected(progress)) => {
                self.gathers(progress).at_rest(scheduler)
            },
            (DispatchStage::CompleteBoundary(_), DispatchEvent::Completed(output)) => {
                self.gathers(Ok(output)).at_rest(scheduler)
            },
            (DispatchStage::DrainLoads, DispatchEvent::Completed(output)) => (
                DispatchModel { stage: DispatchStage::Done, ..self.gathers(Ok(output)) },
                scheduler,
            ),
            _ => (self, scheduler),
        }
    }
}

/// The way from the outcome of a command to its answer.
pub struct CommandOutcomeFinish {
    pub stage: DispatchStage,
    pub has_receivers: bool,
    pub drains_loads: bool,
    pub result: Result<DevToolsCommandResult, DevToolsError>,
    pub output: ProtocolOutputSequence,
    pub protocol_events: Vec<BackgroundProtocolEvent>,
    pub boundary: Option<RendererOutputCursor>,
    pub post_renderer_events: Vec<BackgroundProtocolEvent>,
    pub post_response_events: Vec<BackgroundProtocolEvent>,
}

impl View for CommandOutcomeFinish {
    type V = DispatchModel;

    open spec fn view(&self) -> DispatchModel {
        DispatchModel {
            stage: self.stage,
            has_receivers: self.has_receivers,
            drains_loads: self.drains_loads,
            result: result_of(self.result),
            output: self.output@,
            protocol_events: self.protocol_events@,
            boundary: self.boundary,
            post_renderer_events: self.post_renderer_events@,
            post_response_events: self.post_response_events@,
        }
    }
}

/// Takes all events out of a list.
fn take_all(events: &mut Vec<BackgroundProtocolEvent>) -> (taken: Vec<BackgroundProtocolEvent>)
    ensures
        taken@ == old(events)@,
        final(events)@ == Seq::<BackgroundProtocolEvent>::empty(),
{
    let mut taken: Vec<BackgroundProtocolEvent> = Vec::new();
    taken.append(events);
    assert(taken@ =~= old(events)@);
    taken
}

impl CommandOutcomeFinish {
    /// Carries out what a command asks of the scheduler, and goes on to what is
    /// needed first.
    pub fn begin(
        scheduler: &mut CdpScheduler,
        outcome: DevToolsCommandDispatchOutcome,
        navigation_wait: Option<DevToolsNavigationWait>,
        has_receivers: bool,
        drain_load_completion: bool,
    ) -> (finish: CommandOutcomeFinish)
        requires
            old(scheduler).wf(),
        ensures
            final(scheduler).wf(),
            (finish@, final(scheduler)@) == DispatchModel::of(
                outcome,
                has_receivers,
                drain_load_completion && navigation_wait == Some(DevToolsNavigationWait::Load),
            ).at_predecessor(
                outcome.renderer_output_predecessor,
                old(scheduler)@.applied(outcome.scheduler_events@, Seq::empty(), None),
            ),
    {
        let is_load_wait = match navigation_wait {
            Some(DevToolsNavigationWait::Load) => true,
            _ => false,
        };
        scheduler.apply_scheduler_events(outcome.scheduler_events);
        let mut finish = CommandOutcomeFinish {
            stage: DispatchStage::Done,
            has_receivers,
            drains_loads: drain_load_completion && is_load_wait,
            result: outcome.result,
            output: ProtocolOutputSequence::empty(),
            protocol_events: outcome.protocol_events,
            boundary: outcome.renderer_output_boundary,
            post_renderer_events: outcome.post_renderer_output_events,
            post_response_events: outcome.post_response_events,
        };
        if let Some(cursor) = outcome.renderer_output_predecessor {
            if has_receivers {
                finish.stage = DispatchStage::ProjectPredecessor(cursor);
                return finish;
            }
            if scheduler.view.renderer_output_cursor_is_projected(cursor) {
                finish.stage = DispatchStage::CompletePredecessor(cursor);
                return finish;
            }
            finish.result = Err(
                DevToolsError::new(
                    DevToolsErrorKind::Internal,
                    "DevTools command produced renderer output without an ingress receiver",
                ),
            );
        }
        finish.place_events(scheduler);
        finish
    }

    fn place_events(&mut self, scheduler: &mut CdpScheduler)
        requires
            old(scheduler).wf(),
        ensures
            final(scheduler).wf(),
            (final(self)@, final(scheduler)@) == old(self)@.at_events(old(scheduler)@),
    {
        let events = take_all(&mut self.protocol_events);
        self.output.append(scheduler.route_background_events_around_inflight_navigation(events));
        if let Some(cursor) = self.boundary {
            if self.has_receivers {
                self.stage = DispatchStage::ProjectBoundary(cursor);
                return ;
            }
            if scheduler.view.renderer_output_cursor_is_projected(cursor) {
                self.stage = DispatchStage::CompleteBoundary(cursor);
                return ;
            }
            self.result = Err(
                DevToolsError::new(
                    DevToolsErrorKind::Internal,
                    "DevTools command produced a renderer insertion boundary without an ingress receiver",
                ),
            );
        }
        self.place_rest(scheduler);
    }

    fn place_rest(&mut self, scheduler: &mut CdpScheduler)
        requires
            old(scheduler).wf(),
        ensures
            final(scheduler).wf(),
            (final(self)@, final(scheduler)@) == old(self)@.at_rest(old(scheduler)@),
    {
        let events = take_all(&mut self.post_renderer_events);
        self.output.append(scheduler.route_background_events_around_inflight_navigation(events));
        let events = take_all(&mut self.post_response_events);
        self.output.append(scheduler.route_background_events_around_inflight_navigation(events));
        self.stage = if self.drains_loads && self.result.is_ok() {
            DispatchStage::DrainLoads
        } else {
            DispatchStage::Done
        };
    }

    fn gather(&mut self, progress: Result<ProtocolOutputSequence, CdpSchedulerProgressFailure>)
        ensures
            final(self)@ == old(self)@.gathers(progress),
    {
        if let Some(error) = self.output.absorb(progress) {
            self.result = Err(error);
        }
    }

    /// Goes on with what came of what was needed.
    pub fn advance(&mut self, scheduler: &mut CdpScheduler, event: DispatchEvent)
        requires
            old(scheduler).wf(),
        ensures
            final(scheduler).wf(),
            (final(self)@, final(scheduler)@) == old(self)@.after(event, old(scheduler)@),
    {
        match (self.stage, event) {
            (DispatchStage::ProjectPredecessor(_), DispatchEvent::Projected(progress)) => {
                self.gather(progress);
                self.place_events(scheduler);
            },
            (DispatchStage::CompletePredecessor(_), DispatchEvent::Completed(output)) => {
                self.gather(Ok(output));
                self.place_events(scheduler);
            },
            (DispatchStage::ProjectBoundary(_), DispatchEvent::Projected(progress)) => {
                self.gather(progress);
                self.place_rest(scheduler);
            },
            (DispatchStage::CompleteBoundary(_), DispatchEvent::Completed(output)) => {
                self.gather(Ok(output));
                self.place_rest(scheduler);
            },
            (DispatchStage::DrainLoads, DispatchEvent::Completed(output)) => {
                self.gather(Ok(output));
                self.stage = DispatchStage::Done;
            },
            _ => {},
        }
    }

    pub fn finish(self) -> (execution: DevToolsCommandExecution)
        ensures
            execution.result == self.result,
            execution.protocol_output@ == self@.output,
    {
        DevToolsCommandExecution { result: self.result, protocol_output: self.output }
    }
}

/// On the way to the answer no output is lost, and an error stays an error.
pub proof fn law_dispatch_keeps_output(
    finish: DispatchModel,
    event: DispatchEvent,
    scheduler: SchedulerModel,
)
    ensures
        finish.output.is_prefix_of(finish.after(event, scheduler).0.output),
        finish.result is Err ==> finish.after(event, scheduler).0.result is Err,
{
}

/// Renderer output that leaves before the answer comes before the command's own
/// events, and those before what stands behind the boundary.
pub proof fn law_dispatch_order(
    finish: DispatchModel,
    projected: Result<ProtocolOutputSequence, CdpSchedulerProgressFailure>,
    scheduler: SchedulerModel,
)
    requires
        finish.stage is ProjectPredecessor,
        finish.boundary is None,
    ensures
        ({
            let (after, placed) = finish.after(DispatchEvent::Projected(projected), scheduler);
            let (events_placed, events) = scheduler.routed(finish.protocol_events);
            let (rest_placed, rest) = events_placed.routed(finish.post_renderer_events);
            let (last_placed, last) = rest_placed.routed(finish.post_response_events);
            after.output == finish.output + progress::brought(projected) + events + rest + last
        }),
{
}

} // verus!
