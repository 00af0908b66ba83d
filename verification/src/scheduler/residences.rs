//! Work and output that wait for their turn.
//!
//! A residence waits for the load observations that precede it, and for one
//! turn of the clients after the turn that brought it. Residences run in the
//! order in which they entered.
use std::collections::VecDeque;
use vstd::prelude::*;

use crate::connection::background_output::BackgroundProtocolEvent;
use crate::scheduler::output::ProtocolOutputSequence;
use crate::scheduler::publications::RendererOutputCursor;

verus! {

/// What protocol work does.
#[derive(Clone, Copy, Debug, PartialEq, Eq, Structural)]
pub enum ProtocolSchedulerWorkKind {
    /// It shows that a main Document has loaded.
    MainDocumentLoadFactProjection,
    Other,
}

/// Work that the protocol side has published.
#[derive(Clone, Copy, Debug, PartialEq, Eq, Structural)]
pub struct ProtocolSchedulerWork {
    /// By which the work itself is found.
    pub publish_sequence: u64,
    pub kind: ProtocolSchedulerWorkKind,
    /// Whether what it waits for in the renderer has happened.
    pub is_ready: bool,
    /// The load observation that ends with it.
    pub main_document_load_observation_id: Option<u64>,
}

impl ProtocolSchedulerWork {
    /// Whether it shows that a main Document has loaded.
    pub open spec fn shows_load(self) -> bool {
        self.kind == ProtocolSchedulerWorkKind::MainDocumentLoadFactProjection
    }
}

/// Whether the clients have had a turn since a residence came.
#[derive(Clone, Copy, Debug, PartialEq, Eq, Structural)]
pub enum ClientTurnPredecessor {
    Pending,
    Satisfied,
}

/// What waits.
pub enum ResidenceContent {
    RendererOutputPublication { cursor: RendererOutputCursor, output: ProtocolOutputSequence },
    ProtocolWork(ProtocolSchedulerWork),
}

/// What waits, as a value.
pub enum Waiting {
    Output { cursor: RendererOutputCursor, events: Seq<BackgroundProtocolEvent> },
    Work(ProtocolSchedulerWork),
}

impl View for ResidenceContent {
    type V = Waiting;

    open spec fn view(&self) -> Waiting {
        match *self {
            ResidenceContent::RendererOutputPublication { cursor, output } => Waiting::Output {
                cursor,
                events: output@,
            },
            ResidenceContent::ProtocolWork(work) => Waiting::Work(work),
        }
    }
}

/// What waits, and for what.
pub struct ProtocolSchedulerResidence {
    pub content: ResidenceContent,
    pub client_turn_predecessor: ClientTurnPredecessor,
    /// The load observations that come first.
    pub load_predecessors: Vec<u64>,
    /// A load that may yet turn out to come first. It is carried with the
    /// residence and not bound: nothing here ties it to an observation.
    pub future_load_predecessor: Option<u64>,
}

/// A residence, as a value.
pub struct Residence {
    pub content: Waiting,
    pub client_turn: ClientTurnPredecessor,
    pub after: Seq<u64>,
    pub future: Option<u64>,
}

impl View for ProtocolSchedulerResidence {
    type V = Residence;

    open spec fn view(&self) -> Residence {
        Residence {
            content: self.content@,
            client_turn: self.client_turn_predecessor,
            after: self.load_predecessors@,
            future: self.future_load_predecessor,
        }
    }
}

/// The load observations but one.
pub open spec fn others(observations: Seq<u64>, observation: u64) -> Seq<u64> {
    observations.filter(|waited: u64| waited != observation)
}

impl Residence {
    /// Whether nothing has to come first any more.
    pub open spec fn is_ready(self) -> bool {
        self.client_turn == ClientTurnPredecessor::Satisfied && self.after.len() == 0
    }

    /// The residence after the clients have had a turn.
    pub open spec fn after_client_turn(self) -> Residence {
        Residence { client_turn: ClientTurnPredecessor::Satisfied, ..self }
    }

    /// The residence after a load was observed.
    pub open spec fn after_load(self, observation: u64) -> Residence {
        Residence { after: others(self.after, observation), ..self }
    }

    /// Whether it is work that shows a load.
    pub open spec fn is_load_work(self) -> bool {
        self.content matches Waiting::Work(work) && work.shows_load()
    }

    /// Whether it is work that shows a load, and the load has happened.
    pub open spec fn is_ready_load_work(self) -> bool {
        self.content matches Waiting::Work(work) && work.shows_load() && work.is_ready
    }

    /// Whether it is output of a renderer stream up to a position.
    pub open spec fn is_output_upto(self, cursor: RendererOutputCursor) -> bool {
        self.content matches Waiting::Output { cursor: at, .. } && at.stream == cursor.stream
            && at.position <= cursor.position
    }
}

impl ProtocolSchedulerResidence {
    pub fn is_ready_to_complete(&self) -> (ready: bool)
        ensures
            ready == self@.is_ready(),
    {
        self.client_turn_predecessor == ClientTurnPredecessor::Satisfied
            && self.load_predecessors.is_empty()
    }

    pub fn is_main_document_load_action(&self) -> (is_load: bool)
        ensures
            is_load == self@.is_load_work(),
    {
        match &self.content {
            ResidenceContent::ProtocolWork(work) => work.kind
                == ProtocolSchedulerWorkKind::MainDocumentLoadFactProjection,
            ResidenceContent::RendererOutputPublication { .. } => false,
        }
    }

    pub fn is_ready_main_document_load_action(&self) -> (is_load: bool)
        ensures
            is_load == self@.is_ready_load_work(),
    {
        match &self.content {
            ResidenceContent::ProtocolWork(work) => work.kind
                == ProtocolSchedulerWorkKind::MainDocumentLoadFactProjection && work.is_ready,
            ResidenceContent::RendererOutputPublication { .. } => false,
        }
    }

    pub fn satisfy_client_turn_predecessor(self) -> (residence: ProtocolSchedulerResidence)
        ensures
            residence@ == self@.after_client_turn(),
    {
        ProtocolSchedulerResidence {
            client_turn_predecessor: ClientTurnPredecessor::Satisfied,
            ..self
        }
    }

    fn satisfy_load_predecessor(self, observation_id: u64) -> (residence:
        ProtocolSchedulerResidence)
        ensures
            residence@ == self@.after_load(observation_id),
    {
        let ghost waited = self.load_predecessors@;
        let mut remaining: Vec<u64> = Vec::new();
        let mut index: usize = 0;
        while index < self.load_predecessors.len()
            invariant
                waited == self.load_predecessors@,
                index <= waited.len(),
                remaining@ == others(waited.take(index as int), observation_id),
            decreases waited.len() - index,
        {
            proof {
                let upto = waited.take(index + 1);
                assert(upto.drop_last() =~= waited.take(index as int));
                assert(upto.last() == waited[index as int]);
                reveal(Seq::filter);
            }
            if self.load_predecessors[index] != observation_id {
                remaining.push(self.load_predecessors[index]);
            }
            index += 1;
        }
        assert(waited.take(waited.len() as int) =~= waited);
        ProtocolSchedulerResidence { load_predecessors: remaining, ..self }
    }
}

/// Residences, as values.
pub open spec fn models(residences: Seq<ProtocolSchedulerResidence>) -> Seq<Residence> {
    residences.map_values(|residence: ProtocolSchedulerResidence| residence@)
}

/// What runs next.
#[derive(Clone, Copy, Debug, PartialEq, Eq, Structural)]
pub enum ProtocolSchedulerStep {
    Wait,
    SatisfyClientTurnPredecessor,
    CompleteReadyResidence,
}

/// The step that a queue calls for.
pub open spec fn next_step(queue: Seq<Residence>) -> ProtocolSchedulerStep {
    if queue.len() == 0 {
        ProtocolSchedulerStep::Wait
    } else if queue[0].client_turn == ClientTurnPredecessor::Pending {
        ProtocolSchedulerStep::SatisfyClientTurnPredecessor
    } else if queue[0].is_ready() {
        ProtocolSchedulerStep::CompleteReadyResidence
    } else {
        ProtocolSchedulerStep::Wait
    }
}

/// A queue after the clients have had a turn since its front came.
pub open spec fn front_turned(queue: Seq<Residence>) -> Seq<Residence> {
    if queue.len() == 0 {
        queue
    } else {
        queue.update(0, queue[0].after_client_turn())
    }
}

/// A queue after a load was observed.
pub open spec fn load_observed(queue: Seq<Residence>, observation: u64) -> Seq<Residence> {
    queue.map_values(|residence: Residence| residence.after_load(observation))
}

/// Protocol work as it enters.
pub open spec fn entering_work(
    work: ProtocolSchedulerWork,
    after: Seq<u64>,
    future: Option<u64>,
) -> Residence {
    Residence {
        content: Waiting::Work(work),
        client_turn: ClientTurnPredecessor::Pending,
        after,
        future,
    }
}

/// Renderer output as it enters.
pub open spec fn entering_output(
    cursor: RendererOutputCursor,
    events: Seq<BackgroundProtocolEvent>,
    after: Seq<u64>,
    future: Option<u64>,
) -> Residence {
    Residence {
        content: Waiting::Output { cursor, events },
        client_turn: ClientTurnPredecessor::Pending,
        after,
        future,
    }
}

/// What waits, in the order in which it entered.
pub struct SchedulerQueues {
    pub protocol_residences: VecDeque<ProtocolSchedulerResidence>,
}

impl View for SchedulerQueues {
    type V = Seq<Residence>;

    open spec fn view(&self) -> Seq<Residence> {
        models(self.protocol_residences@)
    }
}

impl SchedulerQueues {
    pub fn new() -> (queues: SchedulerQueues)
        ensures
            queues@ == Seq::<Residence>::empty(),
    {
        let queues = SchedulerQueues { protocol_residences: VecDeque::new() };
        assert(queues@ =~= Seq::<Residence>::empty());
        queues
    }

    pub fn protocol_residence_len(&self) -> (count: usize)
        ensures
            count == self@.len(),
    {
        self.protocol_residences.len()
    }

    pub fn enqueue_protocol_work(
        &mut self,
        work: ProtocolSchedulerWork,
        load_predecessors: Vec<u64>,
        future_load_predecessor: Option<u64>,
    )
        ensures
            final(self)@ == old(self)@.push(
                entering_work(work, load_predecessors@, future_load_predecessor),
            ),
    {
        self.protocol_residences.push_back(
            ProtocolSchedulerResidence {
                content: ResidenceContent::ProtocolWork(work),
                client_turn_predecessor: ClientTurnPredecessor::Pending,
                load_predecessors,
                future_load_predecessor,
            },
        );
        assert(self@ =~= old(self)@.push(
            entering_work(work, load_predecessors@, future_load_predecessor),
        ));
    }

    pub fn enqueue_renderer_output_publication(
        &mut self,
        cursor: RendererOutputCursor,
        output: ProtocolOutputSequence,
        load_predecessors: Vec<u64>,
        future_load_predecessor: Option<u64>,
    )
        ensures
            final(self)@ == old(self)@.push(
                entering_output(cursor, output@, load_predecessors@, future_load_predecessor),
            ),
    {
        self.protocol_residences.push_back(
            ProtocolSchedulerResidence {
                content: ResidenceContent::RendererOutputPublication { cursor, output },
                client_turn_predecessor: ClientTurnPredecessor::Pending,
                load_predecessors,
                future_load_predecessor,
            },
        );
        assert(self@ =~= old(self)@.push(
            entering_output(cursor, output@, load_predecessors@, future_load_predecessor),
        ));
    }

    pub fn front_needs_client_turn_predecessor(&self) -> (needs: bool)
        ensures
            needs == (next_step(self@) is SatisfyClientTurnPredecessor),
    {
        self.protocol_residences.len() > 0 && self.protocol_residences[0].client_turn_predecessor
            == ClientTurnPredecessor::Pending
    }

    pub fn should_complete_next_residence(&self) -> (ready: bool)
        ensures
            ready == (next_step(self@) is CompleteReadyResidence),
    {
        self.protocol_residences.len() > 0 && self.protocol_residences[0].is_ready_to_complete()
    }

    pub fn satisfy_front_client_turn_predecessor(&mut self)
        ensures
            final(self)@ == front_turned(old(self)@),
    {
        if let Some(front) = self.protocol_residences.pop_front() {
            self.protocol_residences.push_front(front.satisfy_client_turn_predecessor());
        }
        assert(self@ =~= front_turned(old(self)@));
    }

    pub fn pop_next_protocol_residence(&mut self) -> (residence: Option<ProtocolSchedulerResidence>)
        ensures
            match residence {
                Some(residence) => {
                    &&& old(self)@.len() > 0
                    &&& residence@ == old(self)@[0]
                    &&& final(self)@ == old(self)@.skip(1)
                },
                None => old(self)@.len() == 0 && final(self)@ == old(self)@,
            },
    {
        let residence = self.protocol_residences.pop_front();
        proof {
            if residence is Some {
                assert(self@ =~= old(self)@.skip(1));
            } else {
                assert(self@ =~= old(self)@);
            }
        }
        residence
    }

    /// A load was observed: nothing waits for it any more.
    pub fn satisfy_load_predecessor(&mut self, observation_id: u64)
        ensures
            final(self)@ == load_observed(old(self)@, observation_id),
    {
        let ghost before = self.protocol_residences@;
        let mut satisfied: VecDeque<ProtocolSchedulerResidence> = VecDeque::new();
        assert(models(satisfied@) =~= load_observed(models(before.take(0)), observation_id));
        while self.protocol_residences.len() > 0
            invariant
                satisfied@.len() <= before.len(),
                self.protocol_residences@ == before.skip(satisfied@.len() as int),
                models(satisfied@) == load_observed(
                    models(before.take(satisfied@.len() as int)),
                    observation_id,
                ),
            decreases self.protocol_residences@.len(),
        {
            let ghost done = satisfied@.len() as int;
            let ghost earlier = models(satisfied@);
            let ghost first = self.protocol_residences@[0];
            if let Some(residence) = self.protocol_residences.pop_front() {
                satisfied.push_back(residence.satisfy_load_predecessor(observation_id));
                assert(self.protocol_residences@ =~= before.skip(done + 1));
                assert(before.take(done + 1) =~= before.take(done).push(first));
                assert(models(before.take(done + 1)) =~= models(before.take(done)).push(first@));
                assert(models(satisfied@) =~= earlier.push(first@.after_load(observation_id)));
                assert(models(satisfied@) =~= load_observed(
                    models(before.take(done + 1)),
                    observation_id,
                ));
            }
        }
        assert(before.take(before.len() as int) =~= before);
        self.protocol_residences = satisfied;
    }

    /// Takes out all that waits, so that what enters meanwhile comes later.
    pub fn take_snapshot(&mut self) -> (snapshot: VecDeque<ProtocolSchedulerResidence>)
        ensures
            models(snapshot@) == old(self)@,
            final(self)@ == Seq::<Residence>::empty(),
    {
        let mut snapshot: VecDeque<ProtocolSchedulerResidence> = VecDeque::new();
        snapshot.append(&mut self.protocol_residences);
        assert(snapshot@ =~= old(self).protocol_residences@);
        assert(self@ =~= Seq::<Residence>::empty());
        snapshot
    }

    /// Takes out the output of a renderer stream up to a position. The rest
    /// keeps its order.
    pub fn take_renderer_output_predecessor_snapshot(&mut self, cursor: RendererOutputCursor) -> (
    snapshot: VecDeque<ProtocolSchedulerResidence>)
        ensures
            models(snapshot@) == old(self)@.filter(
                |residence: Residence| residence.is_output_upto(cursor),
            ),
            final(self)@ == old(self)@.filter(
                |residence: Residence| !residence.is_output_upto(cursor),
            ),
    {
        let ghost whole = self@;
        let ghost is_taken = |residence: Residence| residence.is_output_upto(cursor);
        let ghost is_left = |residence: Residence| !residence.is_output_upto(cursor);
        let mut snapshot: VecDeque<ProtocolSchedulerResidence> = VecDeque::new();
        let mut remaining: VecDeque<ProtocolSchedulerResidence> = VecDeque::new();
        let ghost mut done: int = 0;
        reveal(Seq::filter);
        assert(models(snapshot@) =~= whole.take(0).filter(is_taken));
        assert(models(remaining@) =~= whole.take(0).filter(is_left));
        assert(self@ =~= whole.skip(0));
        while self.protocol_residences.len() > 0
            invariant
                is_taken == (|residence: Residence| residence.is_output_upto(cursor)),
                is_left == (|residence: Residence| !residence.is_output_upto(cursor)),
                0 <= done <= whole.len(),
                self@ == whole.skip(done),
                models(snapshot@) == whole.take(done).filter(is_taken),
                models(remaining@) == whole.take(done).filter(is_left),
            decreases self.protocol_residences@.len(),
        {
            let ghost taken_before = models(snapshot@);
            let ghost left_before = models(remaining@);
            let ghost first = self@[0];
            let ghost waiting = self@;
            if let Some(residence) = self.protocol_residences.pop_front() {
                proof {
                    assert(self@ =~= waiting.skip(1));
                    let upto = whole.take(done + 1);
                    assert(upto.drop_last() =~= whole.take(done));
                    assert(upto.last() == first);
                    reveal(Seq::filter);
                }
                let is_output = match &residence.content {
                    ResidenceContent::RendererOutputPublication { cursor: at, .. } => at.stream
                        == cursor.stream && at.position <= cursor.position,
                    ResidenceContent::ProtocolWork(_) => false,
                };
                if is_output {
                    snapshot.push_back(residence);
                    assert(models(snapshot@) =~= taken_before.push(first));
                } else {
                    remaining.push_back(residence);
                    assert(models(remaining@) =~= left_before.push(first));
                }
                proof {
                    done = done + 1;
                }
                assert(self@ =~= whole.skip(done));
            }
        }
        assert(whole.take(whole.len() as int) =~= whole);
        self.protocol_residences = remaining;
        snapshot
    }

    /// Puts back what was taken out, before what has entered meanwhile.
    pub fn restore_snapshot_to_front(&mut self, snapshot: VecDeque<ProtocolSchedulerResidence>)
        ensures
            final(self)@ == models(snapshot@) + old(self)@,
    {
        let mut residences = snapshot;
        residences.append(&mut self.protocol_residences);
        self.protocol_residences = residences;
        assert(self@ =~= models(snapshot@) + old(self)@);
    }
}

/// Observing a load removes no residence and changes the order of none.
pub proof fn law_observation_keeps_order(queue: Seq<Residence>, observation: u64, at: int)
    requires
        0 <= at < queue.len(),
    ensures
        load_observed(queue, observation).len() == queue.len(),
        load_observed(queue, observation)[at].content == queue[at].content,
        !load_observed(queue, observation)[at].after.contains(observation),
{
    broadcast use vstd::seq_lib::group_filter_ensures;

    let after = load_observed(queue, observation)[at].after;
    if after.contains(observation) {
        let place = choose|place: int| 0 <= place < after.len() && after[place] == observation;
        let is_other = |waited: u64| waited != observation;
        assert(is_other(queue[at].after.filter(is_other)[place]));
    }
}

} // verus!
