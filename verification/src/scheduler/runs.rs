//! Completing what waits, one residence at a time.
//!
//! A run takes its residences out of the queue first, so that what enters
//! meanwhile comes later. Output leaves at once; work is handed out, and the
//! run goes on with what the work has brought. What cannot complete goes back
//! to the front of the queue.
use std::collections::VecDeque;
use vstd::prelude::*;

use crate::connection::background_output::BackgroundProtocolEvent;
use crate::scheduler::output::ProtocolOutputSequence;
use crate::scheduler::publications::RendererOutputCursor;
use crate::scheduler::residences;
use crate::scheduler::residences::{
    ProtocolSchedulerResidence, ProtocolSchedulerWork, Residence, ResidenceContent, Waiting,
};
use crate::scheduler::state::{CdpScheduler, CdpTurnOutcome, SchedulerModel};

verus! {

/// What ends a run early.
#[derive(Clone, Copy, Debug, PartialEq, Eq, Structural)]
pub enum RunKind {
    /// After a command: a navigation in flight, or a dialog.
    AfterCommand,
    /// While a load is waited for: a load that has not happened yet.
    LoadWait,
}

/// What a residence completes with.
pub enum ResidenceCompletion {
    Output(ProtocolOutputSequence),
    /// The work is to be done first.
    Work(ProtocolSchedulerWork),
}

/// What comes next in a run.
pub enum RunStep {
    /// The work is to be done; the run goes on after it.
    Work(ProtocolSchedulerWork),
    Done,
}

/// A run, as a value.
pub struct RunModel {
    pub kind: RunKind,
    pub snapshot: Seq<Residence>,
    pub output: Seq<BackgroundProtocolEvent>,
}

impl SchedulerModel {
    /// With residences put back to the front of the queue.
    pub open spec fn restored(self, snapshot: Seq<Residence>) -> SchedulerModel {
        SchedulerModel { queue: snapshot + self.queue, ..self }
    }

    /// After work was done.
    pub open spec fn worked(self, work: ProtocolSchedulerWork, outcome: CdpTurnOutcome) -> (
        SchedulerModel,
        Seq<BackgroundProtocolEvent>,
    ) {
        let (turned, leaves, later) = self.turned(outcome);
        (
            match work.main_document_load_observation_id {
                Some(id) => SchedulerModel {
                    queue: residences::load_observed(turned.queue, id),
                    ..turned
                },
                None => turned,
            },
            leaves + later,
        )
    }
}

impl RunModel {
    /// Whether the run ends before it looks at its next residence.
    pub open spec fn is_blocked(self, scheduler: SchedulerModel) -> bool {
        self.kind is AfterCommand && (scheduler.inflight() || scheduler.dialog)
    }

    /// Whether a residence cannot complete yet.
    pub open spec fn keeps(self, residence: Residence) -> bool {
        ||| !residence.is_ready()
        ||| self.kind is LoadWait && residence.is_load_work() && !residence.is_ready_load_work()
    }

    /// The run and the scheduler when the next work is reached, or the end.
    pub open spec fn advanced(self, scheduler: SchedulerModel) -> (
        RunModel,
        SchedulerModel,
        Option<ProtocolSchedulerWork>,
    )
        decreases self.snapshot.len(),
    {
        if self.snapshot.len() == 0 {
            (self, scheduler, None)
        } else if self.is_blocked(scheduler) {
            (
                RunModel { snapshot: Seq::empty(), ..self },
                scheduler.restored(self.snapshot),
                None,
            )
        } else {
            let next = self.snapshot[0].after_client_turn();
            let rest = self.snapshot.skip(1);
            if self.keeps(next) {
                (
                    RunModel { snapshot: Seq::empty(), ..self },
                    scheduler.restored(seq![next] + rest),
                    None,
                )
            } else {
                match next.content {
                    Waiting::Output { events, .. } => {
                        let (routed, leaves) = scheduler.routed(events);
                        (RunModel { snapshot: rest, output: self.output + leaves, ..self }).advanced(
                            routed,
                        )
                    },
                    Waiting::Work(work) => (
                        RunModel { snapshot: rest, ..self },
                        scheduler,
                        Some(work),
                    ),
                }
            }
        }
    }
}

impl CdpScheduler {
    /// Completes a residence that waits for no load any more: its output is
    /// placed, or its work is handed out.
    pub fn complete_protocol_residence(&mut self, residence: ProtocolSchedulerResidence) -> (
    completion: ResidenceCompletion)
        requires
            old(self).wf(),
            residence@.after.len() == 0,
        ensures
            final(self).wf(),
            match residence@.content {
                Waiting::Output { events, .. } => {
                    &&& completion matches ResidenceCompletion::Output(output) && (
                        final(self)@,
                        output@,
                    ) == old(self)@.routed(events)
                },
                Waiting::Work(work) => {
                    &&& completion == ResidenceCompletion::Work(work)
                    &&& final(self)@ == old(self)@
                },
            },
    {
        match residence.content {
            ResidenceContent::RendererOutputPublication { output, .. } => {
                ResidenceCompletion::Output(
                    self.route_background_events_around_inflight_navigation(
                        output.into_background_events(),
                    ),
                )
            },
            ResidenceContent::ProtocolWork(work) => ResidenceCompletion::Work(work),
        }
    }

    /// Takes out the residence at the front, which waits for no load any more,
    /// and completes it.
    pub fn complete_next_protocol_residence(&mut self) -> (completion: Option<ResidenceCompletion>)
        requires
            old(self).wf(),
            old(self)@.queue.len() > 0 ==> old(self)@.queue[0].after.len() == 0,
        ensures
            final(self).wf(),
            if old(self)@.queue.len() == 0 {
                completion is None && final(self)@ == old(self)@
            } else {
                let popped = SchedulerModel { queue: old(self)@.queue.skip(1), ..old(self)@ };
                match old(self)@.queue[0].content {
                    Waiting::Output { events, .. } => {
                        &&& completion matches Some(ResidenceCompletion::Output(output)) && (
                            final(self)@,
                            output@,
                        ) == popped.routed(events)
                    },
                    Waiting::Work(work) => {
                        &&& completion == Some(ResidenceCompletion::Work(work))
                        &&& final(self)@ == popped
                    },
                }
            },
    {
        match self.queues.pop_next_protocol_residence() {
            Some(residence) => Some(self.complete_protocol_residence(residence)),
            None => None,
        }
    }

    /// Places what work has brought. What waited for its load no longer does.
    pub fn finish_protocol_work(&mut self, work: ProtocolSchedulerWork, outcome: CdpTurnOutcome) -> (
    output: ProtocolOutputSequence)
        requires
            old(self).wf(),
            outcome.renderer_output_boundary is None,
        ensures
            final(self).wf(),
            (final(self)@, output@) == old(self)@.worked(work, outcome),
    {
        let output = self.apply_protocol_only_turn_outcome(outcome);
        if let Some(id) = work.main_document_load_observation_id {
            self.queues.satisfy_load_predecessor(id);
        }
        output
    }

    /// Begins to complete what is ready after a command. While a navigation is
    /// in flight or a dialog is open nothing is.
    pub fn complete_ready_protocol_residences_after_command(&mut self) -> (run: ResidenceRun)
        requires
            old(self).wf(),
        ensures
            final(self).wf(),
            run@.kind is AfterCommand,
            run@.output == Seq::<BackgroundProtocolEvent>::empty(),
            if old(self)@.inflight() || old(self)@.dialog {
                run@.snapshot == Seq::<Residence>::empty() && final(self)@ == old(self)@
            } else {
                &&& run@.snapshot == old(self)@.queue
                &&& final(self)@ == (SchedulerModel { queue: Seq::empty(), ..old(self)@ })
            },
    {
        if self.has_inflight_background_navigation() || self.has_pending_javascript_dialog() {
            return ResidenceRun::over(RunKind::AfterCommand, VecDeque::new());
        }
        let snapshot = self.queues.take_snapshot();
        ResidenceRun::over(RunKind::AfterCommand, snapshot)
    }

    /// Begins to complete the output of a renderer stream up to a fence. While a
    /// navigation is in flight none is.
    pub fn complete_renderer_output_predecessor_before_runtime_response(
        &mut self,
        predecessor: RendererOutputCursor,
    ) -> (run: ResidenceRun)
        requires
            old(self).wf(),
        ensures
            final(self).wf(),
            run@.kind is AfterCommand,
            run@.output == Seq::<BackgroundProtocolEvent>::empty(),
            if old(self)@.inflight() {
                run@.snapshot == Seq::<Residence>::empty() && final(self)@ == old(self)@
            } else {
                &&& run@.snapshot == old(self)@.queue.filter(
                    |residence: Residence| residence.is_output_upto(predecessor),
                )
                &&& final(self)@ == (SchedulerModel {
                    queue: old(self)@.queue.filter(
                        |residence: Residence| !residence.is_output_upto(predecessor),
                    ),
                    ..old(self)@
                })
            },
    {
        if self.has_inflight_background_navigation() {
            return ResidenceRun::over(RunKind::AfterCommand, VecDeque::new());
        }
        let snapshot = self.queues.take_renderer_output_predecessor_snapshot(predecessor);
        ResidenceRun::over(RunKind::AfterCommand, snapshot)
    }

    /// Begins to complete what is ready while a load is waited for.
    pub fn complete_ready_protocol_residences_for_external_load_wait(&mut self) -> (run: ResidenceRun)
        requires
            old(self).wf(),
        ensures
            final(self).wf(),
            run@ == (RunModel {
                kind: RunKind::LoadWait,
                snapshot: old(self)@.queue,
                output: Seq::empty(),
            }),
            final(self)@ == (SchedulerModel { queue: Seq::empty(), ..old(self)@ }),
    {
        let snapshot = self.queues.take_snapshot();
        ResidenceRun::over(RunKind::LoadWait, snapshot)
    }
}

/// Residences on their way to completion, and the output so far.
pub struct ResidenceRun {
    pub kind: RunKind,
    pub snapshot: VecDeque<ProtocolSchedulerResidence>,
    pub output: ProtocolOutputSequence,
}

impl View for ResidenceRun {
    type V = RunModel;

    open spec fn view(&self) -> RunModel {
        RunModel {
            kind: self.kind,
            snapshot: residences::models(self.snapshot@),
            output: self.output@,
        }
    }
}

impl ResidenceRun {
    fn over(kind: RunKind, snapshot: VecDeque<ProtocolSchedulerResidence>) -> (run: ResidenceRun)
        ensures
            run@ == (RunModel {
                kind,
                snapshot: residences::models(snapshot@),
                output: Seq::empty(),
            }),
            snapshot@.len() == 0 ==> run@.snapshot == Seq::<Residence>::empty(),
    {
        proof {
            if snapshot@.len() == 0 {
                assert(residences::models(snapshot@) =~= Seq::<Residence>::empty());
            }
        }
        ResidenceRun { kind, snapshot, output: ProtocolOutputSequence::empty() }
    }

    /// Goes on until work is to be done, or to the end.
    pub fn advance(&mut self, scheduler: &mut CdpScheduler) -> (step: RunStep)
        requires
            old(scheduler).wf(),
        ensures
            final(scheduler).wf(),
            ({
                let (run, after, work) = old(self)@.advanced(old(scheduler)@);
                &&& final(self)@ == run
                &&& final(scheduler)@ == after
                &&& step == (match work {
                    Some(work) => RunStep::Work(work),
                    None => RunStep::Done,
                })
            }),
    {
        while self.snapshot.len() > 0
            invariant
                scheduler.wf(),
                self@.advanced(scheduler@) == old(self)@.advanced(old(scheduler)@),
            decreases self.snapshot@.len(),
        {
            let ghost before = self@;
            if self.kind == RunKind::AfterCommand && (
            scheduler.has_inflight_background_navigation()
                || scheduler.has_pending_javascript_dialog()) {
                self.put_back(scheduler);
                return RunStep::Done;
            }
            let next = match self.snapshot.pop_front() {
                Some(next) => next,
                None => vstd::pervasive::unreached(),
            };
            assert(residences::models(self.snapshot@) =~= before.snapshot.skip(1));
            let next = next.satisfy_client_turn_predecessor();
            let is_early_load = self.kind == RunKind::LoadWait
                && next.is_main_document_load_action()
                && !next.is_ready_main_document_load_action();
            if !next.is_ready_to_complete() || is_early_load {
                let ghost kept = next@;
                self.snapshot.push_front(next);
                assert(residences::models(self.snapshot@) =~= seq![kept]
                    + before.snapshot.skip(1));
                self.put_back(scheduler);
                return RunStep::Done;
            }
            match scheduler.complete_protocol_residence(next) {
                ResidenceCompletion::Output(output) => {
                    self.output.append(output);
                },
                ResidenceCompletion::Work(work) => {
                    return RunStep::Work(work);
                },
            }
        }
        RunStep::Done
    }

    /// Puts the rest back to the front of the queue.
    fn put_back(&mut self, scheduler: &mut CdpScheduler)
        requires
            old(scheduler).wf(),
        ensures
            final(scheduler).wf(),
            final(self)@ == (RunModel { snapshot: Seq::empty(), ..old(self)@ }),
            final(scheduler)@ == old(scheduler)@.restored(old(self)@.snapshot),
    {
        let mut rest: VecDeque<ProtocolSchedulerResidence> = VecDeque::new();
        rest.append(&mut self.snapshot);
        assert(rest@ =~= old(self).snapshot@);
        assert(residences::models(self.snapshot@) =~= Seq::<Residence>::empty());
        scheduler.queues.restore_snapshot_to_front(rest);
    }

    /// Goes on after work was done.
    pub fn work_completed(
        &mut self,
        scheduler: &mut CdpScheduler,
        work: ProtocolSchedulerWork,
        outcome: CdpTurnOutcome,
    )
        requires
            old(scheduler).wf(),
            outcome.renderer_output_boundary is None,
        ensures
            final(scheduler).wf(),
            final(scheduler)@ == old(scheduler)@.worked(work, outcome).0,
            final(self)@ == (RunModel {
                output: old(self)@.output + old(scheduler)@.worked(work, outcome).1,
                ..old(self)@
            }),
    {
        let output = scheduler.finish_protocol_work(work, outcome);
        self.output.append(output);
    }

    /// The output of a run that has ended.
    pub fn into_output(self) -> (output: ProtocolOutputSequence)
        ensures
            output@ == self@.output,
    {
        self.output
    }
}

/// A run never takes back output.
pub proof fn law_run_keeps_output(run: RunModel, scheduler: SchedulerModel)
    ensures
        run.output.is_prefix_of(run.advanced(scheduler).0.output),
    decreases run.snapshot.len(),
{
    if run.snapshot.len() > 0 && !run.is_blocked(scheduler) {
        let next = run.snapshot[0].after_client_turn();
        if !run.keeps(next) {
            if let Waiting::Output { events, .. } = next.content {
                let (routed, leaves) = scheduler.routed(events);
                let rest = RunModel {
                    snapshot: run.snapshot.skip(1),
                    output: run.output + leaves,
                    ..run
                };
                law_run_keeps_output(rest, routed);
                assert(run.output.is_prefix_of(run.output + leaves));
            }
        }
    }
}

/// What a run does not complete goes back before what has entered meanwhile, in
/// the order in which it was taken out.
pub proof fn law_run_puts_back_in_order(run: RunModel, scheduler: SchedulerModel)
    ensures
        ({
            let (after, restored, work) = run.advanced(scheduler);
            exists|done: int|
                0 <= done <= run.snapshot.len() && #[trigger] put_back_from(
                    run,
                    done,
                    scheduler.queue,
                    after.snapshot + restored.queue,
                )
        }),
    decreases run.snapshot.len(),
{
    let (after, restored, work) = run.advanced(scheduler);
    let queue = after.snapshot + restored.queue;
    if run.snapshot.len() == 0 {
        assert(queue =~= run.snapshot.skip(0) + scheduler.queue);
        assert(put_back_from(run, 0, scheduler.queue, queue));
    } else if run.is_blocked(scheduler) {
        assert(queue =~= run.snapshot.skip(0) + scheduler.queue);
        assert(put_back_from(run, 0, scheduler.queue, queue));
    } else {
        let next = run.snapshot[0].after_client_turn();
        let rest = run.snapshot.skip(1);
        if run.keeps(next) {
            assert(queue.len() == run.snapshot.skip(0).len() + scheduler.queue.len());
            assert(put_back_from(run, 0, scheduler.queue, queue));
        } else {
            match next.content {
                Waiting::Output { events, .. } => {
                    let (routed, leaves) = scheduler.routed(events);
                    crate::scheduler::ingress::lemma_routed_keeps_queue(scheduler, events);
                    let on = RunModel { snapshot: rest, output: run.output + leaves, ..run };
                    law_run_puts_back_in_order(on, routed);
                    let done = choose|done: int|
                        0 <= done <= on.snapshot.len() && #[trigger] put_back_from(
                            on,
                            done,
                            routed.queue,
                            queue,
                        );
                    assert(on.snapshot.skip(done) =~= run.snapshot.skip(done + 1));
                    assert(put_back_from(run, done + 1, scheduler.queue, queue));
                },
                Waiting::Work(_) => {
                    assert(queue =~= run.snapshot.skip(1) + scheduler.queue);
                    assert(put_back_from(run, 1, scheduler.queue, queue));
                },
            }
        }
    }
}

/// Whether a queue holds what a run took out from a place on, and then what has
/// entered meanwhile. The first may have seen its client turn.
pub open spec fn put_back_from(
    run: RunModel,
    done: int,
    entered: Seq<Residence>,
    queue: Seq<Residence>,
) -> bool {
    let expected = run.snapshot.skip(done) + entered;
    &&& queue.len() == expected.len()
    &&& forall|at: int|
        0 <= at < queue.len() ==> (#[trigger] queue[at] == expected[at] || at == 0 && queue[at]
            == expected[at].after_client_turn())
}

} // verus!
