//! Renderer output on its way in.
//!
//! A publication is consumed at once. What it shows may have to wait for a load
//! that the clients must see first; Network observations never do.
use vstd::prelude::*;

use crate::connection::background_output::BackgroundProtocolEvent;
use crate::scheduler::output;
use crate::scheduler::output::{lists, ProtocolOutputSequence};
use crate::scheduler::publications::{RendererOutputCursor, RendererOutputTransportMessage};
use crate::scheduler::residences;
use crate::scheduler::residences::{Residence, ResidenceContent, Waiting};
use crate::scheduler::state::{
    copy_numbers, CdpScheduler, CdpSchedulerEvent, CdpTurnOutcome, SchedulerModel,
};

verus! {

/// The loads that waiting work wants to precede a publication. The work that
/// does is listed.
pub open spec fn queued_loads(queue: Seq<Residence>, queueing: Seq<u64>) -> Seq<u64>
    decreases queue.len(),
{
    if queue.len() == 0 {
        Seq::empty()
    } else {
        let before = queued_loads(queue.drop_last(), queueing);
        match queue.last().content {
            Waiting::Work(work) => match work.main_document_load_observation_id {
                Some(id) => if queueing.contains(work.publish_sequence) {
                    before.push(id)
                } else {
                    before
                },
                None => before,
            },
            Waiting::Output { .. } => before,
        }
    }
}

/// A list with others added that it does not hold yet.
pub open spec fn merged(numbers: Seq<u64>, others: Seq<u64>) -> Seq<u64>
    decreases others.len(),
{
    if others.len() == 0 {
        numbers
    } else {
        let before = merged(numbers, others.drop_last());
        if before.contains(others.last()) {
            before
        } else {
            before.push(others.last())
        }
    }
}

/// What a publication waits for.
pub struct RendererIngress {
    pub cursor: Option<RendererOutputCursor>,
    pub load_predecessors: Vec<u64>,
    pub future_load_predecessor: Option<u64>,
}

impl RendererIngress {
    /// Whether the publication waits for a load.
    pub open spec fn waits(&self) -> bool {
        self.load_predecessors@.len() > 0 || self.future_load_predecessor is Some
    }
}

/// All events that a turn has brought, in order.
pub open spec fn all_events(outcome: CdpTurnOutcome) -> Seq<BackgroundProtocolEvent> {
    outcome.events@ + outcome.post_renderer_output_events@ + outcome.post_response_events@
}

impl SchedulerModel {
    /// After what a publication shows has been placed, and what leaves at once.
    /// Where it waits for a load, what is no Network observation enters the
    /// queue, before work that the same publication has brought.
    pub open spec fn ingested(self, ingress: RendererIngress, outcome: CdpTurnOutcome) -> (
        SchedulerModel,
        Seq<BackgroundProtocolEvent>,
    ) {
        let after = ingress.load_predecessors@;
        let future = ingress.future_load_predecessor;
        let events = all_events(outcome);
        if ingress.waits() && output::remaining_part(events).len() > 0 {
            (SchedulerModel {
                queue: self.queue.push(
                    residences::entering_output(
                        ingress.cursor->0,
                        output::remaining_part(events),
                        after,
                        future,
                    ),
                ),
                ..self
            }).applied(outcome.scheduler_events@, after, future).routed(
                output::network_part(events),
            )
        } else {
            self.applied(outcome.scheduler_events@, after, future).routed(events)
        }
    }
}

impl CdpScheduler {
    /// The loads that waiting work wants to precede a publication.
    pub fn queued_load_predecessors_for_renderer_output(&self, queueing: &Vec<u64>) -> (loads: Vec<
        u64,
    >)
        ensures
            loads@ == queued_loads(self@.queue, queueing@),
    {
        let mut loads: Vec<u64> = Vec::new();
        let mut index: usize = 0;
        while index < self.queues.protocol_residences.len()
            invariant
                index <= self@.queue.len(),
                loads@ == queued_loads(self@.queue.take(index as int), queueing@),
            decreases self@.queue.len() - index,
        {
            proof {
                let upto = self@.queue.take(index + 1);
                assert(upto.drop_last() =~= self@.queue.take(index as int));
                assert(upto.last() == self@.queue[index as int]);
            }
            match &self.queues.protocol_residences[index].content {
                ResidenceContent::ProtocolWork(work) => {
                    if let Some(id) = work.main_document_load_observation_id {
                        if lists(queueing, work.publish_sequence) {
                            loads.push(id);
                        }
                    }
                },
                ResidenceContent::RendererOutputPublication { .. } => {},
            }
            index += 1;
        }
        assert(self@.queue.take(self@.queue.len() as int) =~= self@.queue);
        loads
    }

    /// Finds what a publication waits for. What turns have asked of the
    /// scheduler so far is carried out first. A load that is known supersedes
    /// one that may yet turn out to come first.
    pub fn begin_renderer_ingress(
        &mut self,
        pending: Vec<CdpSchedulerEvent>,
        publication: &RendererOutputTransportMessage,
        load_predecessors: Vec<u64>,
        future_load_predecessor: Option<u64>,
        queueing: &Vec<u64>,
    ) -> (ingress: RendererIngress)
        requires
            old(self).wf(),
        ensures
            final(self).wf(),
            final(self)@ == old(self)@.applied(pending@, Seq::empty(), None),
            ingress.cursor == publication.spec_cursor(),
            ingress.load_predecessors@ == merged(
                load_predecessors@,
                queued_loads(final(self)@.queue, queueing@),
            ),
            ingress.future_load_predecessor == (if ingress.load_predecessors@.len() > 0 {
                None
            } else {
                future_load_predecessor
            }),
    {
        self.apply_scheduler_events(pending);
        let queued = self.queued_load_predecessors_for_renderer_output(queueing);
        let mut loads = load_predecessors;
        let mut index: usize = 0;
        assert(queued@.take(0) =~= Seq::<u64>::empty());
        while index < queued.len()
            invariant
                index <= queued@.len(),
                loads@ == merged(load_predecessors@, queued@.take(index as int)),
            decreases queued@.len() - index,
        {
            proof {
                let upto = queued@.take(index + 1);
                assert(upto.drop_last() =~= queued@.take(index as int));
                assert(upto.last() == queued@[index as int]);
            }
            if !lists(&loads, queued[index]) {
                loads.push(queued[index]);
            }
            index += 1;
        }
        assert(queued@.take(queued@.len() as int) =~= queued@);
        let future_load_predecessor = if loads.len() > 0 {
            None
        } else {
            future_load_predecessor
        };
        RendererIngress {
            cursor: publication.cursor(),
            load_predecessors: loads,
            future_load_predecessor,
        }
    }

    /// Places what a publication has shown.
    pub fn finish_renderer_ingress(&mut self, ingress: RendererIngress, outcome: CdpTurnOutcome) -> (
    output: ProtocolOutputSequence)
        requires
            old(self).wf(),
            outcome.renderer_output_boundary is None,
            ingress.waits() && output::remaining_part(all_events(outcome)).len() > 0
                ==> ingress.cursor is Some,
        ensures
            final(self).wf(),
            (final(self)@, output@) == old(self)@.ingested(ingress, outcome),
    {
        let mut events = outcome.events;
        let mut post_renderer = outcome.post_renderer_output_events;
        let mut post_response = outcome.post_response_events;
        events.append(&mut post_renderer);
        events.append(&mut post_response);
        assert(events@ =~= all_events(outcome));
        let waits = ingress.load_predecessors.len() > 0
            || ingress.future_load_predecessor.is_some();
        if !waits {
            self.apply_scheduler_events_with_load_predecessors(
                outcome.scheduler_events,
                &ingress.load_predecessors,
                ingress.future_load_predecessor,
            );
            return self.route_background_events_around_inflight_navigation(events);
        }
        let ghost whole = events@;
        let (immediate, resident) = ProtocolOutputSequence::from_background_events(
            events,
        ).split_network_observations();
        if !resident.is_empty() {
            match ingress.cursor {
                Some(cursor) => {
                    self.queues.enqueue_renderer_output_publication(
                        cursor,
                        resident,
                        copy_numbers(&ingress.load_predecessors),
                        ingress.future_load_predecessor,
                    );
                },
                None => vstd::pervasive::unreached(),
            }
        } else {
            proof {
                lemma_all_network(whole);
            }
        }
        self.apply_scheduler_events_with_load_predecessors(
            outcome.scheduler_events,
            &ingress.load_predecessors,
            ingress.future_load_predecessor,
        );
        self.route_background_events_around_inflight_navigation(immediate.into_background_events())
    }
}

/// Where nothing remains beside the Network observations, they are all there is.
proof fn lemma_all_network(events: Seq<BackgroundProtocolEvent>)
    requires
        output::remaining_part(events).len() == 0,
    ensures
        output::network_part(events) == events,
    decreases events.len(),
{
    reveal(Seq::filter);
    if events.len() > 0 {
        lemma_all_network(events.drop_last());
        assert(events =~= events.drop_last().push(events.last()));
    } else {
        assert(output::network_part(events) =~= events);
    }
}

/// What leaves was among what was to be placed, or what was to be placed is
/// where it was.
pub proof fn lemma_routed_from(
    scheduler: SchedulerModel,
    events: Seq<BackgroundProtocolEvent>,
    at: int,
)
    requires
        0 <= at < scheduler.routed(events).1.len(),
    ensures
        events.contains(scheduler.routed(events).1[at]),
    decreases events.len(),
{
    if events.len() > 0 {
        let (before, left) = scheduler.routed(events.drop_last());
        if at < left.len() {
            lemma_routed_from(scheduler, events.drop_last(), at);
            let event = left[at];
            let place = choose|place: int|
                0 <= place < events.drop_last().len() && events.drop_last()[place] == event;
            assert(events[place] == event);
        } else {
            assert(events[events.len() - 1] == events.last());
        }
    }
}

/// Placing events moves no residence.
pub proof fn lemma_routed_keeps_queue(
    scheduler: SchedulerModel,
    events: Seq<BackgroundProtocolEvent>,
)
    ensures
        scheduler.routed(events).0.queue == scheduler.queue,
        scheduler.routed(events).0.gate == scheduler.gate,
        scheduler.routed(events).0.routes == scheduler.routes,
        scheduler.parked.is_prefix_of(scheduler.routed(events).0.parked),
    decreases events.len(),
{
    if events.len() > 0 {
        lemma_routed_keeps_queue(scheduler, events.drop_last());
    }
}

/// What turns ask of the scheduler lets residences enter only behind those that
/// wait.
pub proof fn lemma_applied_extends_queue(
    scheduler: SchedulerModel,
    events: Seq<CdpSchedulerEvent>,
    after: Seq<u64>,
    future: Option<u64>,
)
    ensures
        scheduler.queue.is_prefix_of(scheduler.applied(events, after, future).queue),
    decreases events.len(),
{
    if events.len() > 0 {
        lemma_applied_extends_queue(scheduler, events.drop_last(), after, future);
    }
}

/// Of a publication that waits for a load, only Network observations leave
/// before the load.
pub proof fn law_page_effects_wait_for_load(
    scheduler: SchedulerModel,
    ingress: RendererIngress,
    outcome: CdpTurnOutcome,
    at: int,
)
    requires
        ingress.waits(),
        0 <= at < scheduler.ingested(ingress, outcome).1.len(),
    ensures
        scheduler.ingested(ingress, outcome).1[at].facts.network_observation,
{
    broadcast use vstd::seq_lib::group_filter_ensures;

    let events = all_events(outcome);
    let is_network = |event: BackgroundProtocolEvent| event.facts.network_observation;
    let network = output::network_part(events);
    if output::remaining_part(events).len() == 0 {
        lemma_all_network(events);
    }
    let event = scheduler.ingested(ingress, outcome).1[at];
    let placed = if output::remaining_part(events).len() > 0 {
        (SchedulerModel {
            queue: scheduler.queue.push(
                residences::entering_output(
                    ingress.cursor->0,
                    output::remaining_part(events),
                    ingress.load_predecessors@,
                    ingress.future_load_predecessor,
                ),
            ),
            ..scheduler
        }).applied(
            outcome.scheduler_events@,
            ingress.load_predecessors@,
            ingress.future_load_predecessor,
        )
    } else {
        scheduler.applied(
            outcome.scheduler_events@,
            ingress.load_predecessors@,
            ingress.future_load_predecessor,
        )
    };
    lemma_routed_from(placed, network, at);
    let place = choose|place: int| 0 <= place < network.len() && network[place] == event;
    assert(is_network(events.filter(is_network)[place]));
}

/// What a publication shows enters the queue before the work that it brings,
/// and behind all that waits already.
pub proof fn law_output_precedes_its_work(
    scheduler: SchedulerModel,
    ingress: RendererIngress,
    outcome: CdpTurnOutcome,
)
    requires
        ingress.waits(),
        output::remaining_part(all_events(outcome)).len() > 0,
    ensures
        scheduler.queue.push(
            residences::entering_output(
                ingress.cursor->0,
                output::remaining_part(all_events(outcome)),
                ingress.load_predecessors@,
                ingress.future_load_predecessor,
            ),
        ).is_prefix_of(scheduler.ingested(ingress, outcome).0.queue),
{
    let entered = SchedulerModel {
        queue: scheduler.queue.push(
            residences::entering_output(
                ingress.cursor->0,
                output::remaining_part(all_events(outcome)),
                ingress.load_predecessors@,
                ingress.future_load_predecessor,
            ),
        ),
        ..scheduler
    };
    lemma_applied_extends_queue(
        entered,
        outcome.scheduler_events@,
        ingress.load_predecessors@,
        ingress.future_load_predecessor,
    );
    lemma_routed_keeps_queue(
        entered.applied(
            outcome.scheduler_events@,
            ingress.load_predecessors@,
            ingress.future_load_predecessor,
        ),
        output::network_part(all_events(outcome)),
    );
}

} // verus!
