//! Protocol output on its way to the frontends, in order.
use vstd::prelude::*;

use crate::connection::background_output::{BackgroundProtocolEvent, DocumentLifecycleNotice};
use crate::devtools::{DevToolsCommandResult, DevToolsError};
use crate::facts::types::{PageResidenceIdentity, RendererDocumentLifecycleMilestone};
use crate::text;
use crate::text::same_text;

verus! {

/// What a wait for a milestone of one exact Document looks for.
pub struct DevToolsDocumentLifecycleWaitKey {
    pub document: u64,
    pub milestone: RendererDocumentLifecycleMilestone,
    pub frame_id: String,
}

impl DevToolsDocumentLifecycleWaitKey {
    /// The notice that ends the wait.
    pub open spec fn notice(&self) -> DocumentLifecycleNotice {
        DocumentLifecycleNotice { document: self.document, milestone: self.milestone }
    }

    pub fn copy(&self) -> (key: DevToolsDocumentLifecycleWaitKey)
        ensures
            key == *self,
    {
        DevToolsDocumentLifecycleWaitKey {
            document: self.document,
            milestone: self.milestone,
            frame_id: self.frame_id.clone(),
        }
    }
}

/// Whether an event announces the milestone that a wait looks for.
pub open spec fn announces(event: BackgroundProtocolEvent, notice: DocumentLifecycleNotice) -> bool {
    event.facts.lifecycle == Some(notice)
}

/// Whether an event tells of a download that begins in a frame.
pub open spec fn begins_download(event: BackgroundProtocolEvent, frame_id: Seq<char>) -> bool {
    text::opt_chars(event.facts.download_frame_id) == Some(frame_id)
}

/// Whether the milestone is announced from a position on.
pub open spec fn announced_since(
    events: Seq<BackgroundProtocolEvent>,
    notice: DocumentLifecycleNotice,
    start: int,
) -> bool {
    exists|at: int| start <= at < events.len() && announces(#[trigger] events[at], notice)
}

/// Whether a download begins in a frame from a position on.
pub open spec fn download_since(
    events: Seq<BackgroundProtocolEvent>,
    frame_id: Seq<char>,
    start: int,
) -> bool {
    exists|at: int| start <= at < events.len() && begins_download(#[trigger] events[at], frame_id)
}

/// Whether an event answers one of several commands.
pub open spec fn answers_any(event: BackgroundProtocolEvent, command_ids: Seq<u64>) -> bool {
    event.answered() matches Some(id) && command_ids.contains(id)
}

/// Whether a number is listed.
pub fn lists(numbers: &Vec<u64>, number: u64) -> (listed: bool)
    ensures
        listed == numbers@.contains(number),
{
    let mut index: usize = 0;
    while index < numbers.len()
        invariant
            index <= numbers.len(),
            forall|at: int| 0 <= at < index ==> numbers@[at] != number,
        decreases numbers.len() - index,
    {
        if numbers[index] == number {
            return true;
        }
        index += 1;
    }
    false
}

/// Protocol output in the order in which it leaves.
pub struct ProtocolOutputSequence {
    pub events: Vec<BackgroundProtocolEvent>,
}

impl View for ProtocolOutputSequence {
    type V = Seq<BackgroundProtocolEvent>;

    open spec fn view(&self) -> Seq<BackgroundProtocolEvent> {
        self.events@
    }
}

impl ProtocolOutputSequence {
    pub fn empty() -> (output: ProtocolOutputSequence)
        ensures
            output@ == Seq::<BackgroundProtocolEvent>::empty(),
    {
        ProtocolOutputSequence { events: Vec::new() }
    }

    pub fn from_background_event(event: BackgroundProtocolEvent) -> (output: ProtocolOutputSequence)
        ensures
            output@ == seq![event],
    {
        let mut events: Vec<BackgroundProtocolEvent> = Vec::new();
        events.push(event);
        assert(events@ =~= seq![event]);
        ProtocolOutputSequence { events }
    }

    pub fn from_background_events(events: Vec<BackgroundProtocolEvent>) -> (output:
        ProtocolOutputSequence)
        ensures
            output@ == events@,
    {
        ProtocolOutputSequence { events }
    }

    pub fn is_empty(&self) -> (is_empty: bool)
        ensures
            is_empty == (self@.len() == 0),
    {
        self.events.is_empty()
    }

    pub fn len(&self) -> (count: usize)
        ensures
            count == self@.len(),
    {
        self.events.len()
    }

    /// Whether the milestone that a wait looks for is announced from a
    /// position on.
    pub fn contains_document_lifecycle_for_since(
        &self,
        key: &DevToolsDocumentLifecycleWaitKey,
        start_index: usize,
    ) -> (found: bool)
        ensures
            found == announced_since(self@, key.notice(), start_index as int),
    {
        let notice = DocumentLifecycleNotice { document: key.document, milestone: key.milestone };
        let mut index: usize = start_index;
        while index < self.events.len()
            invariant
                start_index <= index,
                notice == key.notice(),
                forall|at: int| start_index <= at < index && at < self@.len() ==> !announces(
                    #[trigger] self@[at],
                    notice,
                ),
            decreases self.events.len() - index,
        {
            if let Some(announced) = self.events[index].facts.lifecycle {
                if announced == notice {
                    assert(announces(self@[index as int], notice));
                    return true;
                }
            }
            index += 1;
        }
        false
    }

    /// Whether a download begins in a frame from a position on.
    pub fn contains_download_start_for_frame_since(&self, frame_id: &str, start_index: usize) -> (
    found: bool)
        ensures
            found == download_since(self@, frame_id@, start_index as int),
    {
        let mut index: usize = start_index;
        while index < self.events.len()
            invariant
                start_index <= index,
                forall|at: int|
                    start_index <= at < index && at < self@.len() ==> !begins_download(
                        #[trigger] self@[at],
                        frame_id@,
                    ),
            decreases self.events.len() - index,
        {
            if let Some(begun) = &self.events[index].facts.download_frame_id {
                if same_text(begun.as_str(), frame_id) {
                    assert(begins_download(self@[index as int], frame_id@));
                    return true;
                }
            }
            index += 1;
        }
        false
    }

    /// Lets other output leave after this.
    pub fn append(&mut self, other: ProtocolOutputSequence)
        ensures
            final(self)@ == old(self)@ + other@,
    {
        let mut events = other.events;
        self.events.append(&mut events);
    }

    /// Parts the Network observations from the rest. Both keep their order.
    pub fn split_network_observations(self) -> (parts: (
        ProtocolOutputSequence,
        ProtocolOutputSequence,
    ))
        ensures
            parts.0@ == network_part(self@),
            parts.1@ == remaining_part(self@),
    {
        let mut network: Vec<BackgroundProtocolEvent> = Vec::new();
        let mut remaining: Vec<BackgroundProtocolEvent> = Vec::new();
        let ghost whole = self@;
        for event in given: self.events
            invariant
                given.seq() == whole,
                network@ == network_part(whole.take(given.index() as int)),
                remaining@ == remaining_part(whole.take(given.index() as int)),
        {
            proof {
                let upto = whole.take(given.index() + 1);
                assert(upto.drop_last() =~= whole.take(given.index() as int));
                assert(upto.last() == event);
                reveal(Seq::filter);
            }
            if event.facts.network_observation {
                network.push(event);
            } else {
                remaining.push(event);
            }
        }
        assert(whole.take(whole.len() as int) =~= whole);
        (
            ProtocolOutputSequence::from_background_events(network),
            ProtocolOutputSequence::from_background_events(remaining),
        )
    }

    /// Takes out the answers to a command. The rest keeps its order.
    pub fn take_protocol_events_with_id(&mut self, command_id: u64) -> (taken: Vec<
        BackgroundProtocolEvent,
    >)
        ensures
            taken@ == old(self)@.filter(|event: BackgroundProtocolEvent| event.answered() == Some(command_id)),
            final(self)@ == old(self)@.filter(|event: BackgroundProtocolEvent| event.answered() != Some(command_id)),
    {
        let ghost whole = self@;
        let ghost is_answer = |event: BackgroundProtocolEvent| event.answered() == Some(command_id);
        let ghost is_other = |event: BackgroundProtocolEvent| event.answered() != Some(command_id);
        let mut taken: Vec<BackgroundProtocolEvent> = Vec::new();
        let mut retained: Vec<BackgroundProtocolEvent> = Vec::new();
        let mut events: Vec<BackgroundProtocolEvent> = Vec::new();
        events.append(&mut self.events);
        assert(events@ =~= whole);
        for event in given: events
            invariant
                given.seq() == whole,
                is_answer == (|event: BackgroundProtocolEvent| event.answered() == Some(command_id)),
                is_other == (|event: BackgroundProtocolEvent| event.answered() != Some(command_id)),
                taken@ == whole.take(given.index() as int).filter(is_answer),
                retained@ == whole.take(given.index() as int).filter(is_other),
        {
            proof {
                let upto = whole.take(given.index() + 1);
                assert(upto.drop_last() =~= whole.take(given.index() as int));
                assert(upto.last() == event);
                reveal(Seq::filter);
            }
            let is_match = match event.protocol_message_id() {
                Some(id) => id == command_id,
                None => false,
            };
            if is_match {
                taken.push(event);
            } else {
                retained.push(event);
            }
        }
        assert(whole.take(whole.len() as int) =~= whole);
        self.events = retained;
        taken
    }

    /// Cuts the output at its first answer to one of several commands: what
    /// comes before it, the command, and the answer. What follows stays. Without
    /// such an answer nothing changes.
    pub fn split_next_protocol_message_with_any_id(&mut self, command_ids: &Vec<u64>) -> (split:
        Option<(ProtocolOutputSequence, u64, BackgroundProtocolEvent)>)
        ensures
            match split {
                Some((prefix, command_id, event)) => {
                    &&& prefix@.push(event) + final(self)@ == old(self)@
                    &&& event.answered() == Some(command_id)
                    &&& command_ids@.contains(command_id)
                    &&& forall|at: int| 0 <= at < prefix@.len() ==> !answers_any(#[trigger] prefix@[at], command_ids@)
                },
                None => {
                    &&& final(self)@ == old(self)@
                    &&& forall|at: int|
                        0 <= at < old(self)@.len() ==> !answers_any(#[trigger] old(self)@[at], command_ids@)
                },
            },
    {
        let mut index: usize = 0;
        while index < self.events.len()
            invariant
                self@ == old(self)@,
                index <= self.events.len(),
                forall|at: int|
                    0 <= at < index ==> !answers_any(#[trigger] self@[at], command_ids@),
            decreases self.events.len() - index,
        {
            if let Some(command_id) = self.events[index].protocol_message_id() {
                if lists(command_ids, command_id) {
                    let (prefix, event) = self.cut_at(index);
                    return Some((prefix, command_id, event));
                }
            }
            index += 1;
        }
        None
    }

    /// Cuts the output at its first inspector response that has become ready.
    pub fn split_next_runtime_response_ready(&mut self) -> (split: Option<
        (ProtocolOutputSequence, u64),
    >)
        ensures
            match split {
                Some((prefix, response)) => {
                    &&& prefix@.len() < old(self)@.len()
                    &&& prefix@ == old(self)@.take(prefix@.len() as int)
                    &&& old(self)@[prefix@.len() as int].facts.runtime_response == Some(response)
                    &&& final(self)@ == old(self)@.skip((prefix@.len() + 1) as int)
                    &&& forall|at: int|
                        0 <= at < prefix@.len() ==> (#[trigger] prefix@[at]).facts.runtime_response is None
                },
                None => {
                    &&& final(self)@ == old(self)@
                    &&& forall|at: int|
                        0 <= at < old(self)@.len() ==> (
                        #[trigger] old(self)@[at]).facts.runtime_response is None
                },
            },
    {
        let mut index: usize = 0;
        while index < self.events.len()
            invariant
                self@ == old(self)@,
                index <= self.events.len(),
                forall|at: int|
                    0 <= at < index ==> (#[trigger] self@[at]).facts.runtime_response is None,
            decreases self.events.len() - index,
        {
            if let Some(response) = self.events[index].facts.runtime_response {
                let (prefix, event) = self.cut_at(index);
                assert(self@ =~= old(self)@.skip((prefix@.len() + 1) as int));
                assert(prefix@ =~= old(self)@.take(prefix@.len() as int));
                return Some((prefix, response));
            }
            index += 1;
        }
        None
    }

    /// Cuts the output at a position: what comes before it, and the event there.
    fn cut_at(&mut self, index: usize) -> (cut: (ProtocolOutputSequence, BackgroundProtocolEvent))
        requires
            index < old(self)@.len(),
        ensures
            cut.0@ == old(self)@.take(index as int),
            cut.1 == old(self)@[index as int],
            final(self)@ == old(self)@.skip(index + 1),
            cut.0@.push(cut.1) + final(self)@ == old(self)@,
    {
        let mut rest = self.events.split_off(index);
        let event = rest.remove(0);
        let mut prefix: Vec<BackgroundProtocolEvent> = Vec::new();
        prefix.append(&mut self.events);
        self.events = rest;
        assert(prefix@ =~= old(self)@.take(index as int));
        assert(self@ =~= old(self)@.skip(index + 1));
        assert(prefix@.push(event) + self@ =~= old(self)@);
        (ProtocolOutputSequence::from_background_events(prefix), event)
    }

    pub fn into_background_events(self) -> (events: Vec<BackgroundProtocolEvent>)
        ensures
            events@ == self@,
    {
        self.events
    }
}

/// The Network observations among events.
pub open spec fn network_part(events: Seq<BackgroundProtocolEvent>) -> Seq<
    BackgroundProtocolEvent,
> {
    events.filter(|event: BackgroundProtocolEvent| event.facts.network_observation)
}

/// What else there is among events.
pub open spec fn remaining_part(events: Seq<BackgroundProtocolEvent>) -> Seq<
    BackgroundProtocolEvent,
> {
    events.filter(|event: BackgroundProtocolEvent| !event.facts.network_observation)
}

/// Why progress ended, with the output that came before.
pub struct CdpSchedulerProgressFailure {
    pub protocol_output: ProtocolOutputSequence,
    pub error: DevToolsError,
}

impl CdpSchedulerProgressFailure {
    pub fn new(protocol_output: ProtocolOutputSequence, error: DevToolsError) -> (failure:
        CdpSchedulerProgressFailure)
        ensures
            failure.protocol_output == protocol_output,
            failure.error == error,
    {
        CdpSchedulerProgressFailure { protocol_output, error }
    }

    pub fn without_output(error: DevToolsError) -> (failure: CdpSchedulerProgressFailure)
        ensures
            failure.protocol_output@ == Seq::<BackgroundProtocolEvent>::empty(),
            failure.error == error,
    {
        CdpSchedulerProgressFailure::new(ProtocolOutputSequence::empty(), error)
    }

    pub fn into_parts(self) -> (parts: (ProtocolOutputSequence, DevToolsError))
        ensures
            parts == (self.protocol_output, self.error),
    {
        (self.protocol_output, self.error)
    }
}

/// What a command came to, with the output that leaves before its answer.
pub struct DevToolsCommandExecution {
    pub result: Result<DevToolsCommandResult, DevToolsError>,
    pub protocol_output: ProtocolOutputSequence,
}

/// What a command came to, and the Page it was carried out on.
pub struct DevToolsPageCommandExecution {
    pub execution: DevToolsCommandExecution,
    pub page_residence: Option<PageResidenceIdentity>,
}

} // verus!
