//! Renderer output that has to leave before something else: before the answer
//! of a command, or before the end of a navigation.
//!
//! A fence names a position in one renderer stream. Publications are taken in
//! until the stream has been projected that far; then what waits of it in the
//! queue is completed.
use vstd::prelude::*;

use crate::connection::background_output::{BackgroundOutputQueue, BackgroundProtocolEvent};
use crate::devtools::DevToolsError;
use crate::scheduler::commands;
use crate::scheduler::commands::renderer_output_transport_terminal_error;
use crate::scheduler::output::{CdpSchedulerProgressFailure, ProtocolOutputSequence};
use crate::scheduler::progress;
use crate::scheduler::publications::{
    NavigationRendererPublicationBuffer, PublicationBuffer, RendererOutputCursor,
    RendererOutputTransportMessage,
};
use crate::scheduler::state;
use crate::scheduler::state::{CdpScheduler, CdpTurnOutcome, SchedulerModel};
use crate::scheduler::waits;
use crate::scheduler::waits::Gathered;

verus! {

/// What a fence stands before.
#[derive(Clone, Copy, Debug, PartialEq, Eq, Structural)]
pub enum FenceKind {
    /// The answer of a command, or the rest of a turn.
    Command,
    /// The answer of a foreground navigation, whose stream it unblocks.
    NavigationAnswer,
    /// The end of a background navigation, whose stream it unblocks.
    NavigationCompletion,
}

impl FenceKind {
    /// Whether the fence unblocks its stream.
    pub open spec fn unblocks(self) -> bool {
        self !is Command
    }

    /// What the fence stands before, in words.
    pub open spec fn boundary(self) -> Seq<char> {
        match self {
            FenceKind::Command => "the command predecessor was projected"@,
            FenceKind::NavigationAnswer => "the navigation renderer boundary was projected"@,
            FenceKind::NavigationCompletion => "navigation completion"@,
        }
    }
}

/// What comes next at a fence.
pub enum FenceStep {
    /// A publication is to be taken in.
    Ingest(RendererOutputTransportMessage),
    /// The next message of the renderer transport is to be received.
    Receive,
    /// What waits of the stream is to be completed.
    Complete,
}

/// A fence, as a value.
pub struct FenceModel {
    pub kind: FenceKind,
    pub cursor: RendererOutputCursor,
    pub gathered: Gathered,
}

impl FenceModel {
    /// The stream that the fence unblocks.
    pub open spec fn unblocked(self) -> Option<u64> {
        if self.kind.unblocks() {
            Some(self.cursor.stream)
        } else {
            None
        }
    }

    /// What comes next, and the buffer then. What is held of the stream comes
    /// before what has yet to arrive.
    pub open spec fn next(self, scheduler: SchedulerModel, buffer: PublicationBuffer) -> (
        PublicationBuffer,
        FenceStep,
    ) {
        if state::reaches(scheduler.projected, self.cursor) {
            (buffer, FenceStep::Complete)
        } else {
            let (taken, held) = buffer.released_for(self.cursor.stream, self.kind.unblocks());
            match held {
                Some(message) => {
                    let (after, passed) = taken.arrived(
                        message,
                        scheduler.inflight(),
                        self.unblocked(),
                    );
                    (
                        after,
                        match passed {
                            Some(message) => FenceStep::Ingest(message),
                            None => FenceStep::Receive,
                        },
                    )
                },
                None => (taken, FenceStep::Receive),
            }
        }
    }

    /// What comes next once a message has arrived, and the buffer then.
    pub open spec fn next_with(
        self,
        scheduler: SchedulerModel,
        buffer: PublicationBuffer,
        message: RendererOutputTransportMessage,
    ) -> (PublicationBuffer, FenceStep) {
        let (after, passed) = buffer.arrived(message, scheduler.inflight(), self.unblocked());
        match passed {
            Some(message) => (after, FenceStep::Ingest(message)),
            None => self.next(scheduler, after),
        }
    }
}

/// A fence, and the output gathered on the way to it.
pub struct RendererOutputFence {
    pub kind: FenceKind,
    pub cursor: RendererOutputCursor,
    pub output: ProtocolOutputSequence,
    pub error: Option<DevToolsError>,
}

impl View for RendererOutputFence {
    type V = FenceModel;

    open spec fn view(&self) -> FenceModel {
        FenceModel {
            kind: self.kind,
            cursor: self.cursor,
            gathered: Gathered {
                output: self.output@,
                refusal: progress::opt_refusal(self.error),
            },
        }
    }
}

impl RendererOutputFence {
    /// A fence with output that comes before it.
    pub fn new(kind: FenceKind, cursor: RendererOutputCursor, output: ProtocolOutputSequence) -> (
    fence: RendererOutputFence)
        ensures
            fence@ == (FenceModel {
                kind,
                cursor,
                gathered: Gathered { output: output@, refusal: None },
            }),
    {
        RendererOutputFence { kind, cursor, output, error: None }
    }

    fn unblocked_stream(&self) -> (stream: Option<u64>)
        ensures
            stream == self@.unblocked(),
    {
        match self.kind {
            FenceKind::Command => None,
            _ => Some(self.cursor.stream),
        }
    }

    /// What comes next.
    pub fn next(
        &self,
        scheduler: &CdpScheduler,
        buffer: &mut NavigationRendererPublicationBuffer,
    ) -> (step: FenceStep)
        requires
            scheduler.wf(),
        ensures
            (final(buffer)@, step) == self@.next(scheduler@, old(buffer)@),
    {
        if scheduler.view.renderer_output_cursor_is_projected(self.cursor) {
            return FenceStep::Complete;
        }
        let unblocked = self.unblocked_stream();
        match buffer.take_for_predecessor(self.cursor.stream, unblocked.is_some()) {
            Some(message) => match buffer.admit_or_buffer(
                message,
                scheduler.has_inflight_background_navigation(),
                unblocked,
            ) {
                Some(message) => FenceStep::Ingest(message),
                None => FenceStep::Receive,
            },
            None => FenceStep::Receive,
        }
    }

    /// What comes next once a message of the renderer transport has arrived.
    pub fn received(
        &self,
        scheduler: &CdpScheduler,
        buffer: &mut NavigationRendererPublicationBuffer,
        message: RendererOutputTransportMessage,
    ) -> (step: FenceStep)
        requires
            scheduler.wf(),
        ensures
            (final(buffer)@, step) == self@.next_with(scheduler@, old(buffer)@, message),
    {
        match buffer.admit_or_buffer(
            message,
            scheduler.has_inflight_background_navigation(),
            self.unblocked_stream(),
        ) {
            Some(message) => FenceStep::Ingest(message),
            None => self.next(scheduler, buffer),
        }
    }

    /// The renderer transport has ended. `over_budget` says whether it ended
    /// because too much was sent.
    pub fn closed(&mut self, over_budget: bool)
        ensures
            final(self)@ == (FenceModel {
                gathered: Gathered {
                    output: old(self)@.gathered.output,
                    refusal: Some(
                        commands::transport_refusal(over_budget, old(self)@.kind.boundary()),
                    ),
                },
                ..old(self)@
            }),
    {
        let boundary: &str = match self.kind {
            FenceKind::Command => "the command predecessor was projected",
            FenceKind::NavigationAnswer => "the navigation renderer boundary was projected",
            FenceKind::NavigationCompletion => "navigation completion",
        };
        self.error = Some(renderer_output_transport_terminal_error(over_budget, boundary));
    }

    /// A publication was taken in, or what waits of the stream was completed.
    pub fn brought(&mut self, output: ProtocolOutputSequence)
        ensures
            final(self)@ == (FenceModel {
                gathered: Gathered {
                    output: old(self)@.gathered.output + output@,
                    ..old(self)@.gathered
                },
                ..old(self)@
            }),
    {
        self.output.append(output);
    }

    pub fn finish(self) -> (outcome: Result<ProtocolOutputSequence, CdpSchedulerProgressFailure>)
        ensures
            waits::outcome_of(outcome) == self@.gathered,
    {
        match self.error {
            Some(error) => Err(CdpSchedulerProgressFailure::new(self.output, error)),
            None => Ok(self.output),
        }
    }
}

/// A turn of the Browser owner that was carried out, before its output leaves.
pub struct OwnerTurn {
    /// Renderer output that leaves first.
    pub predecessor: Option<RendererOutputCursor>,
    pub output: ProtocolOutputSequence,
    pub post_output: ProtocolOutputSequence,
}

impl CdpScheduler {
    /// Carries out a turn of the Browser owner that stands before no renderer
    /// output.
    pub fn apply_renderer_owner_turn_outcome(&mut self, outcome: CdpTurnOutcome) -> (turn: OwnerTurn)
        requires
            old(self).wf(),
            outcome.renderer_output_boundary is None,
        ensures
            final(self).wf(),
            (final(self)@, turn.output@, turn.post_output@) == old(self)@.turned(outcome),
            turn.predecessor == outcome.renderer_output_predecessor,
    {
        let predecessor = outcome.renderer_output_predecessor;
        let (output, post_output) = self.materialize_turn_outcome(outcome);
        OwnerTurn { predecessor, output, post_output }
    }
}

impl OwnerTurn {
    /// The output of a turn, behind the renderer output that leaves first. Where
    /// that failed, so has the turn.
    pub fn finish(
        self,
        preceding: Result<ProtocolOutputSequence, CdpSchedulerProgressFailure>,
    ) -> (outcome: Result<ProtocolOutputSequence, CdpSchedulerProgressFailure>)
        ensures
            progress::refused(outcome) == progress::refused(preceding),
            progress::brought(outcome) == (match preceding {
                Ok(output) => output@ + self.output@ + self.post_output@,
                Err(failure) => failure.protocol_output@,
            }),
    {
        match preceding {
            Ok(output) => {
                let mut causal = output;
                causal.append(self.output);
                causal.append(self.post_output);
                Ok(causal)
            },
            Err(failure) => Err(failure),
        }
    }
}

/// The end of a background navigation, with what was there before it.
pub struct NavigationCompletion {
    /// What leaves before renderer output up to the boundary.
    pub prefix: ProtocolOutputSequence,
    /// What leaves after it.
    pub suffix: ProtocolOutputSequence,
    pub boundary: Option<RendererOutputCursor>,
}

/// Whether events are what a queue is drained of.
pub open spec fn drained_of(
    events: Seq<BackgroundProtocolEvent>,
    queue: BackgroundOutputQueue,
) -> bool {
    &&& events.len() == queue.items@.len()
    &&& forall|at: int|
        0 <= at < events.len() ==> (#[trigger] queue.items@[at]).leaves_as(events[at])
}

impl SchedulerModel {
    /// After a background navigation has completed, given what left before its
    /// turn, and the events that the queue holds after it. What waited for the
    /// navigation leaves before the boundary, and what the turn has published
    /// after it.
    pub open spec fn completed(
        self,
        earlier: Seq<BackgroundProtocolEvent>,
        published: Seq<BackgroundProtocolEvent>,
        gate_key: Option<u64>,
        is_terminal: bool,
        outcome: CdpTurnOutcome,
    ) -> (SchedulerModel, Seq<BackgroundProtocolEvent>, Seq<BackgroundProtocolEvent>) {
        let (turned, leaves, later) = self.drained(gate_key, is_terminal).turned(outcome);
        let (released, parked) = if turned.inflight() {
            (turned, Seq::empty())
        } else {
            turned.unparked()
        };
        let (placed, more) = released.routed(published);
        (placed, earlier + leaves + parked, later + more)
    }
}

impl CdpScheduler {
    /// Carries out the end of a background navigation, once its turn is over.
    /// `earlier` is what the queue held before the turn, as it was placed then;
    /// it leaves first. Then comes what the turn has brought, then what waited
    /// for the navigation. Renderer output up to the boundary comes after all of
    /// it. Behind that stand the tail of the navigation, and what the queue holds
    /// now.
    pub fn materialize_background_navigation_completion_with_progress_barrier(
        &mut self,
        earlier: ProtocolOutputSequence,
        background_events: &mut BackgroundOutputQueue,
        gate_key: Option<u64>,
        is_terminal: bool,
        outcome: CdpTurnOutcome,
    ) -> (completion: NavigationCompletion)
        requires
            old(self).wf(),
            outcome.renderer_output_predecessor is None,
        ensures
            final(self).wf(),
            completion.boundary == outcome.renderer_output_boundary,
            final(background_events).items@.len() == 0,
            final(background_events).receiver_closed == old(background_events).receiver_closed,
            final(background_events).senders_closed == old(background_events).senders_closed,
            exists|published: Seq<BackgroundProtocolEvent>|
                #![trigger drained_of(published, *old(background_events))]
                {
                    &&& drained_of(published, *old(background_events))
                    &&& (final(self)@, completion.prefix@, completion.suffix@)
                        == old(self)@.completed(
                        earlier@,
                        published,
                        gate_key,
                        is_terminal,
                        outcome,
                    )
                },
    {
        let boundary = outcome.renderer_output_boundary;
        let (leaves, mut suffix) = self.drain_background_navigation_completion(
            gate_key,
            is_terminal,
            outcome,
        );
        let mut prefix = earlier;
        prefix.append(leaves);
        let ghost turned = self@;
        let ghost before = prefix@;
        let prefix = self.append_navigation_gate_release_before_renderer_boundary(prefix);
        let ghost released = self@;
        let more = self.drain_background_events_around_inflight_navigation(background_events);
        proof {
            let published = choose|published: Seq<BackgroundProtocolEvent>|
                #![trigger released.routed(published)]
                {
                    &&& published.len() == old(background_events).items@.len()
                    &&& forall|at: int|
                        0 <= at < published.len() ==> (
                        #[trigger] old(background_events).items@[at]).leaves_as(published[at])
                    &&& (self@, more@) == released.routed(published)
                };
            assert(drained_of(published, *old(background_events)));
            if turned.inflight() {
                assert(before + Seq::<BackgroundProtocolEvent>::empty() =~= before);
            }
        }
        suffix.append(more);
        NavigationCompletion { prefix, suffix, boundary }
    }
}

impl NavigationCompletion {
    /// The fence at the boundary, behind the prefix. Without a boundary the
    /// whole output leaves at once.
    pub fn into_fence(self) -> (parts: (Option<RendererOutputFence>, ProtocolOutputSequence))
        ensures
            match self.boundary {
                Some(cursor) => {
                    &&& parts.0 matches Some(fence) && fence@ == (FenceModel {
                        kind: FenceKind::NavigationCompletion,
                        cursor,
                        gathered: Gathered { output: self.prefix@, refusal: None },
                    })
                    &&& parts.1@ == self.suffix@
                },
                None => parts.0 is None && parts.1@ == self.prefix@ + self.suffix@,
            },
    {
        match self.boundary {
            Some(cursor) => (
                Some(
                    RendererOutputFence::new(FenceKind::NavigationCompletion, cursor, self.prefix),
                ),
                self.suffix,
            ),
            None => {
                let mut output = self.prefix;
                output.append(self.suffix);
                (None, output)
            },
        }
    }
}

/// Where the end of a background navigation is.
pub enum CompletionStage {
    /// Renderer output up to the boundary is to be projected.
    Fence(RendererOutputFence),
    /// What was held back is to be taken in, as far as it may go.
    Release(ProtocolOutputSequence),
    /// The renderer transport has ended before the boundary.
    Failed(CdpSchedulerProgressFailure),
}

/// What comes next at the end of a background navigation.
pub enum CompletionStep {
    /// A publication is to be taken in.
    Ingest(RendererOutputTransportMessage),
    /// The next message of the renderer transport is to be received.
    Receive,
    /// What waits of the stream up to the boundary is to be completed.
    Complete,
    Done,
}

/// The end of a background navigation, as a value.
pub enum CompletionModel {
    Fence(FenceModel),
    Release(Seq<BackgroundProtocolEvent>),
    Failed(Gathered),
}

impl View for CompletionStage {
    type V = CompletionModel;

    open spec fn view(&self) -> CompletionModel {
        match *self {
            CompletionStage::Fence(fence) => CompletionModel::Fence(fence@),
            CompletionStage::Release(output) => CompletionModel::Release(output@),
            CompletionStage::Failed(failure) => CompletionModel::Failed(
                Gathered {
                    output: failure.protocol_output@,
                    refusal: Some(failure.error@),
                },
            ),
        }
    }
}

impl CompletionModel {
    /// The output so far.
    pub open spec fn output(self) -> Seq<BackgroundProtocolEvent> {
        match self {
            CompletionModel::Fence(fence) => fence.gathered.output,
            CompletionModel::Release(output) => output,
            CompletionModel::Failed(gathered) => gathered.output,
        }
    }

    /// What comes next, and the buffer then.
    pub open spec fn next(self, scheduler: SchedulerModel, buffer: PublicationBuffer) -> (
        PublicationBuffer,
        CompletionStep,
    ) {
        match self {
            CompletionModel::Fence(fence) => {
                let (after, step) = fence.next(scheduler, buffer);
                (after, as_step(step))
            },
            CompletionModel::Release(_) => {
                let (after, released) = buffer.released(scheduler.inflight());
                (
                    after,
                    match released {
                        Some(message) => CompletionStep::Ingest(message),
                        None => CompletionStep::Done,
                    },
                )
            },
            CompletionModel::Failed(_) => (buffer, CompletionStep::Done),
        }
    }

    /// After output was brought: by a publication, or by what was completed at
    /// the boundary, behind which the suffix leaves.
    pub open spec fn gathers(self, brought: Seq<BackgroundProtocolEvent>) -> CompletionModel {
        match self {
            CompletionModel::Fence(fence) => CompletionModel::Fence(
                FenceModel {
                    gathered: Gathered {
                        output: fence.gathered.output + brought,
                        ..fence.gathered
                    },
                    ..fence
                },
            ),
            CompletionModel::Release(output) => CompletionModel::Release(output + brought),
            CompletionModel::Failed(gathered) => CompletionModel::Failed(
                Gathered { output: gathered.output + brought, ..gathered },
            ),
        }
    }
}

/// A fence's step, as one at the end of a navigation.
pub open spec fn as_step(step: FenceStep) -> CompletionStep {
    match step {
        FenceStep::Ingest(message) => CompletionStep::Ingest(message),
        FenceStep::Receive => CompletionStep::Receive,
        FenceStep::Complete => CompletionStep::Complete,
    }
}

fn into_step(step: FenceStep) -> (completion: CompletionStep)
    ensures
        completion == as_step(step),
{
    match step {
        FenceStep::Ingest(message) => CompletionStep::Ingest(message),
        FenceStep::Receive => CompletionStep::Receive,
        FenceStep::Complete => CompletionStep::Complete,
    }
}

/// The course of the end of a background navigation: what leaves before the
/// boundary, renderer output up to it, what leaves after it, and then what was
/// held back.
pub struct NavigationCompletionCourse {
    pub stage: CompletionStage,
    /// What leaves after the boundary.
    pub suffix: ProtocolOutputSequence,
}

impl NavigationCompletionCourse {
    pub fn begin(completion: NavigationCompletion) -> (course: NavigationCompletionCourse)
        ensures
            match completion.boundary {
                Some(cursor) => {
                    &&& course.stage@ == CompletionModel::Fence(
                        FenceModel {
                            kind: FenceKind::NavigationCompletion,
                            cursor,
                            gathered: Gathered { output: completion.prefix@, refusal: None },
                        },
                    )
                    &&& course.suffix@ == completion.suffix@
                },
                None => {
                    &&& course.stage@ == CompletionModel::Release(
                        completion.prefix@ + completion.suffix@,
                    )
                    &&& course.suffix@.len() == 0
                },
            },
    {
        let (fence, rest) = completion.into_fence();
        match fence {
            Some(fence) => NavigationCompletionCourse {
                stage: CompletionStage::Fence(fence),
                suffix: rest,
            },
            None => NavigationCompletionCourse {
                stage: CompletionStage::Release(rest),
                suffix: ProtocolOutputSequence::empty(),
            },
        }
    }

    /// What comes next.
    pub fn next(
        &self,
        scheduler: &CdpScheduler,
        buffer: &mut NavigationRendererPublicationBuffer,
    ) -> (step: CompletionStep)
        requires
            scheduler.wf(),
        ensures
            (final(buffer)@, step) == self.stage@.next(scheduler@, old(buffer)@),
    {
        match &self.stage {
            CompletionStage::Fence(fence) => into_step(fence.next(scheduler, buffer)),
            CompletionStage::Release(_) => match buffer.take_releasable(
                scheduler.has_inflight_background_navigation(),
            ) {
                Some(message) => CompletionStep::Ingest(message),
                None => CompletionStep::Done,
            },
            CompletionStage::Failed(_) => CompletionStep::Done,
        }
    }

    /// What comes next once a message of the renderer transport has arrived.
    pub fn received(
        &self,
        scheduler: &CdpScheduler,
        buffer: &mut NavigationRendererPublicationBuffer,
        message: RendererOutputTransportMessage,
    ) -> (step: CompletionStep)
        requires
            scheduler.wf(),
            self.stage is Fence,
        ensures
            self.stage@ matches CompletionModel::Fence(fence) && ({
                let (after, next) = fence.next_with(scheduler@, old(buffer)@, message);
                final(buffer)@ == after && step == as_step(next)
            }),
    {
        match &self.stage {
            CompletionStage::Fence(fence) => into_step(fence.received(scheduler, buffer, message)),
            _ => vstd::pervasive::unreached(),
        }
    }

    /// The renderer transport has ended. What came before is kept.
    pub fn closed(self, over_budget: bool) -> (course: NavigationCompletionCourse)
        requires
            self.stage is Fence,
        ensures
            course.stage@ == CompletionModel::Failed(
                Gathered {
                    output: self.stage@.output(),
                    refusal: Some(
                        commands::transport_refusal(
                            over_budget,
                            self.stage->Fence_0.kind.boundary(),
                        ),
                    ),
                },
            ),
            course.suffix == self.suffix,
    {
        match self.stage {
            CompletionStage::Fence(fence) => {
                let mut fence = fence;
                fence.closed(over_budget);
                match fence.finish() {
                    Err(failure) => NavigationCompletionCourse {
                        stage: CompletionStage::Failed(failure),
                        suffix: self.suffix,
                    },
                    Ok(_) => vstd::pervasive::unreached(),
                }
            },
            _ => vstd::pervasive::unreached(),
        }
    }

    /// A publication was taken in.
    pub fn ingested(&mut self, output: ProtocolOutputSequence)
        ensures
            final(self).stage@ == old(self).stage@.gathers(output@),
            final(self).suffix == old(self).suffix,
    {
        match &mut self.stage {
            CompletionStage::Fence(fence) => {
                fence.brought(output);
            },
            CompletionStage::Release(gathered) => {
                gathered.append(output);
            },
            CompletionStage::Failed(failure) => {
                failure.protocol_output.append(output);
            },
        }
    }

    /// The boundary was reached, and what waits of its stream was completed.
    /// Behind it the suffix leaves; then what was held back may go.
    pub fn completed(self, output: ProtocolOutputSequence) -> (course: NavigationCompletionCourse)
        requires
            self.stage is Fence,
        ensures
            course.stage@ == CompletionModel::Release(
                self.stage@.output() + output@ + self.suffix@,
            ),
            course.suffix@.len() == 0,
    {
        match self.stage {
            CompletionStage::Fence(fence) => {
                let mut gathered = fence.output;
                gathered.append(output);
                gathered.append(self.suffix);
                NavigationCompletionCourse {
                    stage: CompletionStage::Release(gathered),
                    suffix: ProtocolOutputSequence::empty(),
                }
            },
            _ => vstd::pervasive::unreached(),
        }
    }

    /// What the end of the navigation has come to.
    pub fn finish(self) -> (outcome: Result<ProtocolOutputSequence, CdpSchedulerProgressFailure>)
        requires
            self.stage !is Fence,
        ensures
            progress::brought(outcome) == self.stage@.output(),
            match self.stage@ {
                CompletionModel::Failed(gathered) => progress::refused(outcome)
                    == gathered.refusal,
                _ => progress::refused(outcome) is None,
            },
    {
        match self.stage {
            CompletionStage::Release(output) => Ok(output),
            CompletionStage::Failed(failure) => Err(failure),
            CompletionStage::Fence(_) => vstd::pervasive::unreached(),
        }
    }
}

/// No output is lost on the way to the end of a navigation, and the prefix
/// leaves first.
pub proof fn law_completion_keeps_output(
    completion: CompletionModel,
    brought: Seq<BackgroundProtocolEvent>,
)
    ensures
        completion.gathers(brought).output() == completion.output() + brought,
{
}

/// What a fence lets through of its own stream keeps its order: what is held of
/// the stream comes before what has yet to arrive.
pub proof fn law_held_comes_first(
    fence: FenceModel,
    scheduler: SchedulerModel,
    buffer: PublicationBuffer,
)
    requires
        fence.kind.unblocks(),
        !state::reaches(scheduler.projected, fence.cursor),
        fence.next(scheduler, buffer).1 is Receive,
    ensures
        crate::scheduler::publications::of_stream(buffer.held, fence.cursor.stream).len() == 0,
{
    let stream = fence.cursor.stream;
    let blocked = buffer.blocked.remove(stream);
    let wanted = |message: RendererOutputTransportMessage|
        message.stream() == Some(stream) && !blocked.contains(stream);
    let (taken, held) = buffer.released_for(stream, true);
    assert(held is None);
    assert forall|at: int| 0 <= at < buffer.held.len() implies (
    #[trigger] buffer.held[at]).stream() != Some(stream) by {
        if buffer.held[at].stream() == Some(stream) {
            lemma_has_first(buffer.held, wanted, at);
        }
    }
    let of_one = |message: RendererOutputTransportMessage| message.stream() == Some(stream);
    if buffer.held.filter(of_one).len() > 0 {
        buffer.held.lemma_filter_pred(of_one, 0);
        lemma_filter_from(buffer.held, of_one);
    }
}

/// Where something holds somewhere there is a first place.
proof fn lemma_has_first(
    messages: Seq<RendererOutputTransportMessage>,
    holds: spec_fn(RendererOutputTransportMessage) -> bool,
    at: int,
)
    requires
        0 <= at < messages.len(),
        holds(messages[at]),
    ensures
        crate::lists::first_where(messages, holds) is Some,
    decreases at,
{
    if forall|earlier: int| 0 <= earlier < at ==> !holds(#[trigger] messages[earlier]) {
        assert(crate::lists::is_first(messages, holds, at));
    } else {
        let earlier = choose|earlier: int|
            0 <= earlier < at && holds(#[trigger] messages[earlier]);
        lemma_has_first(messages, holds, earlier);
    }
}

/// What is kept was there.
proof fn lemma_filter_from(
    messages: Seq<RendererOutputTransportMessage>,
    kept: spec_fn(RendererOutputTransportMessage) -> bool,
)
    requires
        messages.filter(kept).len() > 0,
    ensures
        exists|at: int| 0 <= at < messages.len() && kept(#[trigger] messages[at]),
    decreases messages.len(),
{
    reveal(Seq::filter);
    if messages.len() > 0 {
        let last = messages[messages.len() - 1];
        if !kept(last) {
            lemma_filter_from(messages.drop_last(), kept);
            let at = choose|at: int|
                0 <= at < messages.drop_last().len() && kept(#[trigger] messages.drop_last()[at]);
            assert(kept(messages[at]));
        }
    }
}

} // verus!
