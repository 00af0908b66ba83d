//! The scheduler's own state, and what one turn does to it.
use vstd::prelude::*;

use crate::connection::background_output::{BackgroundOutputQueue, BackgroundProtocolEvent};
use crate::scheduler::gate;
use crate::scheduler::gate::BackgroundNavigationGate;
use crate::scheduler::output::{lists, ProtocolOutputSequence};
use crate::scheduler::publications::RendererOutputCursor;
use crate::scheduler::residences;
use crate::scheduler::residences::{
    ProtocolSchedulerStep, ProtocolSchedulerWork, Residence, ResidenceContent, SchedulerQueues,
    Waiting,
};
use crate::scheduler::screencast;
use crate::scheduler::screencast::{PageScreencastRegistration, PageScreencasts, Schedule};
use crate::text;

verus! {

/// What a turn asks of the scheduler.
pub enum CdpSchedulerEvent {
    /// A background navigation has started, and supersedes others.
    BackgroundNavigationStarted { key: u64, cancellation: u64, superseded: Vec<u64> },
    ProtocolWorkPublished { work: ProtocolSchedulerWork },
    PageScreencastStarted { registration: PageScreencastRegistration, now: u64 },
}

/// What a turn has brought about.
pub struct CdpTurnOutcome {
    pub events: Vec<BackgroundProtocolEvent>,
    /// What leaves after renderer output up to the boundary.
    pub post_renderer_output_events: Vec<BackgroundProtocolEvent>,
    pub renderer_output_boundary: Option<RendererOutputCursor>,
    pub post_response_events: Vec<BackgroundProtocolEvent>,
    pub scheduler_events: Vec<CdpSchedulerEvent>,
    /// Renderer output that leaves before all of it.
    pub renderer_output_predecessor: Option<RendererOutputCursor>,
}

/// What the DevTools adapter shows of itself.
pub struct HostAdapterView {
    /// The routes of events that still lead where they did.
    pub current_routes: Vec<u64>,
    pub pending_javascript_dialog: bool,
    /// How far each renderer stream has been projected.
    pub projected: Vec<RendererOutputCursor>,
}

/// Whether a stream has been projected as far as a cursor.
pub open spec fn reaches(projected: Seq<RendererOutputCursor>, cursor: RendererOutputCursor) -> bool {
    exists|at: int|
        0 <= at < projected.len() && (#[trigger] projected[at]).stream == cursor.stream
            && cursor.position <= projected[at].position
}

impl HostAdapterView {
    pub fn renderer_output_cursor_is_projected(&self, cursor: RendererOutputCursor) -> (reached:
        bool)
        ensures
            reached == reaches(self.projected@, cursor),
    {
        let mut index: usize = 0;
        while index < self.projected.len()
            invariant
                index <= self.projected@.len(),
                forall|at: int|
                    0 <= at < index ==> !((#[trigger] self.projected@[at]).stream == cursor.stream
                        && cursor.position <= self.projected@[at].position),
            decreases self.projected@.len() - index,
        {
            if self.projected[index].stream == cursor.stream && cursor.position
                <= self.projected[index].position {
                assert(self.projected@[index as int].stream == cursor.stream);
                return true;
            }
            index += 1;
        }
        false
    }
}

/// The scheduler, as a value.
pub struct SchedulerModel {
    pub routes: Seq<u64>,
    pub dialog: bool,
    pub projected: Seq<RendererOutputCursor>,
    /// The navigations in flight, with what cancels each.
    pub gate: Map<u64, u64>,
    /// Events that wait for the navigations in flight.
    pub parked: Seq<BackgroundProtocolEvent>,
    pub queue: Seq<Residence>,
    pub screencasts: Seq<Schedule>,
    /// The cancellations to carry out, oldest first.
    pub cancellations: Seq<u64>,
}

/// Whether an event still leads where it did.
pub open spec fn is_current(event: BackgroundProtocolEvent, routes: Seq<u64>) -> bool {
    event.facts.route matches Some(route) ==> routes.contains(route)
}

/// The events that still lead where they did.
pub open spec fn current_part(events: Seq<BackgroundProtocolEvent>, routes: Seq<u64>) -> Seq<
    BackgroundProtocolEvent,
> {
    events.filter(|event: BackgroundProtocolEvent| is_current(event, routes))
}

impl SchedulerModel {
    /// Whether a background navigation is in flight.
    pub open spec fn inflight(self) -> bool {
        self.gate != Map::<u64, u64>::empty()
    }

    /// After an event was placed, and what leaves. An event that no longer leads
    /// anywhere is dropped; one that must not pass a navigation in flight waits.
    pub open spec fn routed_one(self, event: BackgroundProtocolEvent) -> (
        SchedulerModel,
        Seq<BackgroundProtocolEvent>,
    ) {
        if !is_current(event, self.routes) {
            (self, Seq::empty())
        } else if self.inflight() && event.facts.waits_for_navigation {
            (SchedulerModel { parked: self.parked.push(event), ..self }, Seq::empty())
        } else {
            (self, seq![event])
        }
    }

    /// After several events were placed in turn, and what leaves.
    pub open spec fn routed(self, events: Seq<BackgroundProtocolEvent>) -> (
        SchedulerModel,
        Seq<BackgroundProtocolEvent>,
    )
        decreases events.len(),
    {
        if events.len() == 0 {
            (self, Seq::empty())
        } else {
            let (before, left) = self.routed(events.drop_last());
            let (after, leaves) = before.routed_one(events.last());
            (after, left + leaves)
        }
    }

    /// After the events that waited for a navigation are let go, and what of
    /// them still leads anywhere.
    pub open spec fn unparked(self) -> (SchedulerModel, Seq<BackgroundProtocolEvent>) {
        (
            SchedulerModel { parked: Seq::empty(), ..self },
            current_part(self.parked, self.routes),
        )
    }

    /// After one event for the scheduler. Work that it publishes waits for the
    /// given loads.
    pub open spec fn applied_one(
        self,
        event: CdpSchedulerEvent,
        after: Seq<u64>,
        future: Option<u64>,
    ) -> SchedulerModel {
        match event {
            CdpSchedulerEvent::BackgroundNavigationStarted { key, cancellation, superseded } => {
                if self.gate.contains_key(key) {
                    self
                } else {
                    SchedulerModel {
                        gate: gate::without(self.gate, superseded@).insert(key, cancellation),
                        cancellations: self.cancellations + gate::cancelled(
                            self.gate,
                            superseded@,
                        ),
                        ..self
                    }
                }
            },
            CdpSchedulerEvent::ProtocolWorkPublished { work } => SchedulerModel {
                queue: self.queue.push(residences::entering_work(work, after, future)),
                ..self
            },
            CdpSchedulerEvent::PageScreencastStarted { registration, now } => SchedulerModel {
                screencasts: screencast::registered(
                    self.screencasts,
                    Schedule {
                        session: text::opt_chars(registration.session_id),
                        generation: registration.generation,
                        interval: (registration.every_nth_frame * 1000) as u64,
                        due: now,
                        known: None,
                    },
                ),
                ..self
            },
        }
    }

    /// After several events for the scheduler, in turn.
    pub open spec fn applied(
        self,
        events: Seq<CdpSchedulerEvent>,
        after: Seq<u64>,
        future: Option<u64>,
    ) -> SchedulerModel
        decreases events.len(),
    {
        if events.len() == 0 {
            self
        } else {
            self.applied(events.drop_last(), after, future).applied_one(
                events.last(),
                after,
                future,
            )
        }
    }

    /// After the outcome of a turn: what leaves at once, and what leaves after
    /// renderer output.
    pub open spec fn turned(self, outcome: CdpTurnOutcome) -> (
        SchedulerModel,
        Seq<BackgroundProtocolEvent>,
        Seq<BackgroundProtocolEvent>,
    ) {
        let (routed, leaves) = self.applied(outcome.scheduler_events@, Seq::empty(), None).routed(
            outcome.events@,
        );
        let (after, later) = routed.routed(
            outcome.post_renderer_output_events@ + outcome.post_response_events@,
        );
        (after, leaves, later)
    }

    /// The step that comes next.
    pub open spec fn next_step(self) -> ProtocolSchedulerStep {
        if self.inflight() {
            ProtocolSchedulerStep::Wait
        } else {
            residences::next_step(self.queue)
        }
    }

    /// Whether the next residence shows a load and waits for nothing that comes
    /// before it.
    pub open spec fn starts_load(self) -> bool {
        self.queue.len() > 0 && self.queue[0].is_ready() && self.queue[0].is_load_work()
    }
}

/// The scheduler of one DevTools Host.
pub struct CdpScheduler {
    pub view: HostAdapterView,
    pub background_navigation_gate: BackgroundNavigationGate,
    pub pending_navigation_background_events: Vec<BackgroundProtocolEvent>,
    pub queues: SchedulerQueues,
    pub page_screencasts: PageScreencasts,
    pub cancellations: Vec<u64>,
}

impl View for CdpScheduler {
    type V = SchedulerModel;

    open spec fn view(&self) -> SchedulerModel {
        SchedulerModel {
            routes: self.view.current_routes@,
            dialog: self.view.pending_javascript_dialog,
            projected: self.view.projected@,
            gate: self.background_navigation_gate@,
            parked: self.pending_navigation_background_events@,
            queue: self.queues@,
            screencasts: self.page_screencasts@,
            cancellations: self.cancellations@,
        }
    }
}

impl CdpScheduler {
    pub open spec fn wf(&self) -> bool {
        self.background_navigation_gate.wf() && self.page_screencasts.wf()
    }

    pub fn new(view: HostAdapterView) -> (scheduler: CdpScheduler)
        ensures
            scheduler.wf(),
            scheduler.view == view,
            scheduler@.gate == Map::<u64, u64>::empty(),
            scheduler@.parked == Seq::<BackgroundProtocolEvent>::empty(),
            scheduler@.queue == Seq::<Residence>::empty(),
            scheduler@.screencasts == Seq::<Schedule>::empty(),
            scheduler@.cancellations == Seq::<u64>::empty(),
    {
        CdpScheduler {
            view,
            background_navigation_gate: BackgroundNavigationGate::new(),
            pending_navigation_background_events: Vec::new(),
            queues: SchedulerQueues::new(),
            page_screencasts: PageScreencasts::new(),
            cancellations: Vec::new(),
        }
    }

    pub fn has_pending_javascript_dialog(&self) -> (pending: bool)
        ensures
            pending == self@.dialog,
    {
        self.view.pending_javascript_dialog
    }

    pub fn has_inflight_background_navigation(&self) -> (inflight: bool)
        requires
            self.wf(),
        ensures
            inflight == self@.inflight(),
    {
        self.background_navigation_gate.has_inflight_navigation()
    }

    fn background_event_route_is_current(&self, event: &BackgroundProtocolEvent) -> (current: bool)
        ensures
            current == is_current(*event, self@.routes),
    {
        match event.facts.route {
            Some(route) => lists(&self.view.current_routes, route),
            None => true,
        }
    }

    /// Places an event: it leaves, waits for the navigations in flight, or is
    /// dropped because it no longer leads anywhere.
    pub fn route_background_event_around_inflight_navigation(
        &mut self,
        event: BackgroundProtocolEvent,
    ) -> (output: ProtocolOutputSequence)
        requires
            old(self).wf(),
        ensures
            final(self).wf(),
            (final(self)@, output@) == old(self)@.routed_one(event),
    {
        if !self.background_event_route_is_current(&event) {
            return ProtocolOutputSequence::empty();
        }
        if self.has_inflight_background_navigation() && event.facts.waits_for_navigation {
            self.pending_navigation_background_events.push(event);
            return ProtocolOutputSequence::empty();
        }
        ProtocolOutputSequence::from_background_event(event)
    }

    /// Places several events in turn.
    pub fn route_background_events_around_inflight_navigation(
        &mut self,
        events: Vec<BackgroundProtocolEvent>,
    ) -> (output: ProtocolOutputSequence)
        requires
            old(self).wf(),
        ensures
            final(self).wf(),
            (final(self)@, output@) == old(self)@.routed(events@),
    {
        let ghost whole = events@;
        let mut output = ProtocolOutputSequence::empty();
        for event in given: events
            invariant
                given.seq() == whole,
                self.wf(),
                (self@, output@) == old(self)@.routed(whole.take(given.index() as int)),
        {
            proof {
                let upto = whole.take(given.index() + 1);
                assert(upto.drop_last() =~= whole.take(given.index() as int));
                assert(upto.last() == event);
            }
            output.append(self.route_background_event_around_inflight_navigation(event));
        }
        assert(whole.take(whole.len() as int) =~= whole);
        output
    }

    /// Places all that waits in a queue, oldest first.
    pub fn drain_background_events_around_inflight_navigation(
        &mut self,
        background_events: &mut BackgroundOutputQueue,
    ) -> (output: ProtocolOutputSequence)
        requires
            old(self).wf(),
        ensures
            final(self).wf(),
            final(background_events).items@.len() == 0,
            final(background_events).receiver_closed == old(background_events).receiver_closed,
            final(background_events).senders_closed == old(background_events).senders_closed,
            exists|events: Seq<BackgroundProtocolEvent>|
                #![trigger old(self)@.routed(events)]
                {
                    &&& events.len() == old(background_events).items@.len()
                    &&& forall|at: int|
                        0 <= at < events.len() ==> (
                        #[trigger] old(background_events).items@[at]).leaves_as(events[at])
                    &&& (final(self)@, output@) == old(self)@.routed(events)
                },
    {
        let ghost items = background_events.items@;
        let ghost mut drained: Seq<BackgroundProtocolEvent> = Seq::empty();
        let mut output = ProtocolOutputSequence::empty();
        while background_events.items.len() > 0
            invariant
                self.wf(),
                items == old(background_events).items@,
                background_events.receiver_closed == old(background_events).receiver_closed,
                background_events.senders_closed == old(background_events).senders_closed,
                drained.len() <= items.len(),
                background_events.items@ == items.skip(drained.len() as int),
                forall|at: int|
                    0 <= at < drained.len() ==> (#[trigger] items[at]).leaves_as(drained[at]),
                (self@, output@) == old(self)@.routed(drained),
            decreases background_events.items@.len(),
        {
            let ghost before = drained;
            if let Ok(event) = background_events.try_recv() {
                proof {
                    drained = before.push(event);
                    assert(drained.drop_last() =~= before);
                    assert(items.skip(before.len() as int).skip(1) =~= items.skip(
                        drained.len() as int,
                    ));
                }
                output.append(self.route_background_event_around_inflight_navigation(event));
            }
        }
        output
    }

    /// Lets the events go that waited for a navigation. Each is asked again
    /// whether it still leads anywhere.
    pub fn drain_pending_navigation_background_events(&mut self) -> (output: ProtocolOutputSequence)
        requires
            old(self).wf(),
        ensures
            final(self).wf(),
            (final(self)@, output@) == old(self)@.unparked(),
    {
        let ghost whole = self@.parked;
        let ghost routes = self@.routes;
        let mut events: Vec<BackgroundProtocolEvent> = Vec::new();
        events.append(&mut self.pending_navigation_background_events);
        assert(events@ =~= whole);
        assert(self.pending_navigation_background_events@ =~= Seq::empty());
        let mut current: Vec<BackgroundProtocolEvent> = Vec::new();
        for event in given: events
            invariant
                given.seq() == whole,
                routes == self@.routes,
                current@ == current_part(whole.take(given.index() as int), routes),
        {
            proof {
                let upto = whole.take(given.index() + 1);
                assert(upto.drop_last() =~= whole.take(given.index() as int));
                assert(upto.last() == event);
                reveal(Seq::filter);
            }
            if self.background_event_route_is_current(&event) {
                current.push(event);
            }
        }
        assert(whole.take(whole.len() as int) =~= whole);
        ProtocolOutputSequence::from_background_events(current)
    }

    /// Once no navigation is in flight, lets the events that waited for it leave
    /// behind a prefix.
    pub fn append_navigation_gate_release_before_renderer_boundary(
        &mut self,
        prefix: ProtocolOutputSequence,
    ) -> (output: ProtocolOutputSequence)
        requires
            old(self).wf(),
        ensures
            final(self).wf(),
            if old(self)@.inflight() {
                final(self)@ == old(self)@ && output@ == prefix@
            } else {
                &&& final(self)@ == old(self)@.unparked().0
                &&& output@ == prefix@ + old(self)@.unparked().1
            },
    {
        let mut output = prefix;
        if self.has_inflight_background_navigation() {
            return output;
        }
        output.append(self.drain_pending_navigation_background_events());
        output
    }

    fn apply_scheduler_event(
        &mut self,
        event: CdpSchedulerEvent,
        load_predecessors: &Vec<u64>,
        future_load_predecessor: Option<u64>,
    )
        requires
            old(self).wf(),
        ensures
            final(self).wf(),
            final(self)@ == old(self)@.applied_one(
                event,
                load_predecessors@,
                future_load_predecessor,
            ),
    {
        match event {
            CdpSchedulerEvent::BackgroundNavigationStarted { key, cancellation, superseded } => {
                let mut cancel = self.background_navigation_gate.note_navigation_started(
                    key,
                    cancellation,
                    &superseded,
                );
                self.cancellations.append(&mut cancel);
                assert(old(self)@.gate.contains_key(key) ==> self@.cancellations
                    =~= old(self)@.cancellations);
            },
            CdpSchedulerEvent::ProtocolWorkPublished { work } => {
                self.queues.enqueue_protocol_work(
                    work,
                    copy_numbers(load_predecessors),
                    future_load_predecessor,
                );
            },
            CdpSchedulerEvent::PageScreencastStarted { registration, now } => {
                self.page_screencasts.register_page_screencast(registration, now);
            },
        }
    }

    /// Carries out what a turn asks of the scheduler. Work that is published
    /// waits for the given loads.
    pub fn apply_scheduler_events_with_load_predecessors(
        &mut self,
        events: Vec<CdpSchedulerEvent>,
        load_predecessors: &Vec<u64>,
        future_load_predecessor: Option<u64>,
    )
        requires
            old(self).wf(),
        ensures
            final(self).wf(),
            final(self)@ == old(self)@.applied(
                events@,
                load_predecessors@,
                future_load_predecessor,
            ),
    {
        let ghost whole = events@;
        for event in given: events
            invariant
                given.seq() == whole,
                self.wf(),
                self@ == old(self)@.applied(
                    whole.take(given.index() as int),
                    load_predecessors@,
                    future_load_predecessor,
                ),
        {
            proof {
                let upto = whole.take(given.index() + 1);
                assert(upto.drop_last() =~= whole.take(given.index() as int));
                assert(upto.last() == event);
            }
            self.apply_scheduler_event(event, load_predecessors, future_load_predecessor);
        }
        assert(whole.take(whole.len() as int) =~= whole);
    }

    /// Carries out what a turn asks of the scheduler.
    pub fn apply_scheduler_events(&mut self, events: Vec<CdpSchedulerEvent>)
        requires
            old(self).wf(),
        ensures
            final(self).wf(),
            final(self)@ == old(self)@.applied(events@, Seq::empty(), None),
    {
        let none: Vec<u64> = Vec::new();
        self.apply_scheduler_events_with_load_predecessors(events, &none, None);
    }

    /// Carries out what a turn asks of the scheduler, and places its events:
    /// what leaves at once, and what leaves after renderer output.
    pub fn materialize_turn_outcome(&mut self, outcome: CdpTurnOutcome) -> (materialized: (
        ProtocolOutputSequence,
        ProtocolOutputSequence,
    ))
        requires
            old(self).wf(),
        ensures
            final(self).wf(),
            (final(self)@, materialized.0@, materialized.1@) == old(self)@.turned(outcome),
    {
        let mut later = outcome.post_renderer_output_events;
        let mut post_response = outcome.post_response_events;
        later.append(&mut post_response);
        self.apply_scheduler_events(outcome.scheduler_events);
        let output = self.route_background_events_around_inflight_navigation(outcome.events);
        let post_output = self.route_background_events_around_inflight_navigation(later);
        (output, post_output)
    }

    /// Carries out a turn that stands behind no renderer output.
    pub fn apply_protocol_only_turn_outcome(&mut self, outcome: CdpTurnOutcome) -> (output:
        ProtocolOutputSequence)
        requires
            old(self).wf(),
            outcome.renderer_output_boundary is None,
        ensures
            final(self).wf(),
            final(self)@ == old(self)@.turned(outcome).0,
            output@ == old(self)@.turned(outcome).1 + old(self)@.turned(outcome).2,
    {
        let (mut output, post_output) = self.materialize_turn_outcome(outcome);
        output.append(post_output);
        output
    }

    /// What runs next in the queue.
    pub fn next_protocol_scheduler_step(&self) -> (step: ProtocolSchedulerStep)
        requires
            self.wf(),
        ensures
            step == self@.next_step(),
    {
        if self.has_inflight_background_navigation() {
            return ProtocolSchedulerStep::Wait;
        }
        if self.queues.front_needs_client_turn_predecessor() {
            return ProtocolSchedulerStep::SatisfyClientTurnPredecessor;
        }
        if self.queues.should_complete_next_residence() {
            return ProtocolSchedulerStep::CompleteReadyResidence;
        }
        ProtocolSchedulerStep::Wait
    }

    pub fn front_protocol_residence_is_main_document_load_action(&self) -> (is_load: bool)
        ensures
            is_load == (self@.queue.len() > 0 && self@.queue[0].is_load_work()),
    {
        self.queues.protocol_residences.len() > 0
            && self.queues.protocol_residences[0].is_main_document_load_action()
    }

    pub fn next_ready_protocol_residence_is_main_document_load_action(&self) -> (is_load: bool)
        ensures
            is_load == self@.starts_load(),
    {
        self.queues.protocol_residences.len() > 0
            && self.queues.protocol_residences[0].is_ready_to_complete()
            && self.queues.protocol_residences[0].is_main_document_load_action()
    }

    /// Whether the front of the queue shows a load that has already happened,
    /// and waits for no other load. It may still be the clients' turn first.
    pub fn has_causally_ready_main_document_load_residence(&self) -> (ready: bool)
        requires
            self.wf(),
        ensures
            ready == (!self@.inflight() && self@.queue.len() > 0
                && self@.queue[0].is_ready_load_work() && self@.queue[0].after.len() == 0),
    {
        !self.has_inflight_background_navigation() && self.queues.protocol_residences.len() > 0
            && self.queues.protocol_residences[0].is_ready_main_document_load_action()
            && self.queues.protocol_residences[0].load_predecessors.is_empty()
    }

    /// Takes out the next residence if it shows a load and waits for nothing
    /// that comes before it; the load itself may still be waited for.
    pub fn start_next_deferred_load_completion(&mut self) -> (work: Option<ProtocolSchedulerWork>)
        requires
            old(self).wf(),
        ensures
            final(self).wf(),
            if old(self)@.starts_load() {
                &&& work matches Some(work) && old(self)@.queue[0].content == Waiting::Work(work)
                &&& final(self)@ == (SchedulerModel {
                    queue: old(self)@.queue.skip(1),
                    ..old(self)@
                })
            } else {
                work is None && final(self)@ == old(self)@
            },
    {
        if !self.next_ready_protocol_residence_is_main_document_load_action() {
            return None;
        }
        match self.queues.pop_next_protocol_residence() {
            Some(residence) => match residence.content {
                ResidenceContent::ProtocolWork(work) => Some(work),
                ResidenceContent::RendererOutputPublication { .. } => {
                    vstd::pervasive::unreached()
                },
            },
            None => None,
        }
    }

    /// Carries out the turn of a load that was waited for. What waited for the
    /// load no longer does.
    pub fn complete_deferred_load_completion(&mut self, observation_id: u64, outcome: CdpTurnOutcome) -> (
    output: ProtocolOutputSequence)
        requires
            old(self).wf(),
            outcome.renderer_output_boundary is None,
        ensures
            final(self).wf(),
            output@ == old(self)@.turned(outcome).1 + old(self)@.turned(outcome).2,
            final(self)@ == ({
                let turned = old(self)@.turned(outcome).0;
                SchedulerModel {
                    queue: residences::load_observed(turned.queue, observation_id),
                    ..turned
                }
            }),
    {
        let output = self.apply_protocol_only_turn_outcome(outcome);
        self.queues.satisfy_load_predecessor(observation_id);
        output
    }

    /// Carries out the turn of a background navigation that has completed. A
    /// navigation that is over is no longer in flight.
    pub fn drain_background_navigation_completion(
        &mut self,
        gate_key: Option<u64>,
        is_terminal: bool,
        outcome: CdpTurnOutcome,
    ) -> (materialized: (ProtocolOutputSequence, ProtocolOutputSequence))
        requires
            old(self).wf(),
        ensures
            final(self).wf(),
            (final(self)@, materialized.0@, materialized.1@) == old(self)@.drained(
                gate_key,
                is_terminal,
            ).turned(outcome),
    {
        if is_terminal {
            if let Some(key) = gate_key {
                self.background_navigation_gate.note_navigation_completion_drained(key);
            }
        }
        self.materialize_turn_outcome(outcome)
    }
}

impl SchedulerModel {
    /// After the completion of a background navigation was seen.
    pub open spec fn drained(self, gate_key: Option<u64>, is_terminal: bool) -> SchedulerModel {
        match gate_key {
            Some(key) if is_terminal => SchedulerModel { gate: self.gate.remove(key), ..self },
            _ => self,
        }
    }
}

/// A copy of a list of numbers.
pub fn copy_numbers(numbers: &Vec<u64>) -> (copy: Vec<u64>)
    ensures
        copy@ == numbers@,
{
    let mut copy: Vec<u64> = Vec::new();
    let mut index: usize = 0;
    while index < numbers.len()
        invariant
            index <= numbers@.len(),
            copy@ == numbers@.take(index as int),
        decreases numbers@.len() - index,
    {
        copy.push(numbers[index]);
        assert(copy@ =~= numbers@.take(index + 1));
        index += 1;
    }
    assert(numbers@.take(numbers@.len() as int) =~= numbers@);
    copy
}

} // verus!
