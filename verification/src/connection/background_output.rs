//! The queue of what a frontend is told without having asked.
//!
//! Events enter as protocol messages. The outcome of a navigate command enters
//! as such and becomes a message when it is taken out, so that it keeps its
//! place among the events around it.
use vstd::prelude::*;

use crate::facts::types::RendererDocumentLifecycleMilestone;
use crate::json;
use crate::json::{
    json_empty_object, json_from_str, json_from_u64, json_member_u64, json_set, JsonTree,
};
use crate::text;

verus! {

/// The milestone of a Document that an event announces.
#[derive(Clone, Copy, Debug, PartialEq, Eq, Structural)]
pub struct DocumentLifecycleNotice {
    pub document: u64,
    pub milestone: RendererDocumentLifecycleMilestone,
}

/// What the scheduler goes by when it places an event.
pub struct BackgroundEventFacts {
    /// The route that the event was frozen with, if it depends on one.
    pub route: Option<u64>,
    /// Whether the event must not pass a navigation in flight.
    pub waits_for_navigation: bool,
    /// Whether it tells of a Network-domain observation.
    pub network_observation: bool,
    /// Whether it tells that the response of a Document has begun.
    pub document_response_started: bool,
    /// Whether it belongs to a request that is not for a Document.
    pub non_document_network: bool,
    pub lifecycle: Option<DocumentLifecycleNotice>,
    /// The frame in which a download begins.
    pub download_frame_id: Option<String>,
    /// The inspector response that has become ready.
    pub runtime_response: Option<u64>,
}

impl BackgroundEventFacts {
    /// Whether nothing special holds of the event.
    pub open spec fn is_plain(&self) -> bool {
        &&& self.route is None
        &&& !self.waits_for_navigation
        &&& !self.network_observation
        &&& !self.document_response_started
        &&& !self.non_document_network
        &&& self.lifecycle is None
        &&& self.download_frame_id is None
        &&& self.runtime_response is None
    }

    pub fn plain() -> (facts: BackgroundEventFacts)
        ensures
            facts.is_plain(),
    {
        BackgroundEventFacts {
            route: None,
            waits_for_navigation: false,
            network_observation: false,
            document_response_started: false,
            non_document_network: false,
            lifecycle: None,
            download_frame_id: None,
            runtime_response: None,
        }
    }
}

/// A protocol message for a frontend.
pub struct BackgroundProtocolEvent {
    pub message: serde_json::Value,
    pub facts: BackgroundEventFacts,
}

impl BackgroundProtocolEvent {
    /// The message.
    pub open spec fn tree(&self) -> JsonTree {
        json::json_tree(self.message)
    }

    pub fn immediate(message: serde_json::Value) -> (event: BackgroundProtocolEvent)
        ensures
            event.message == message,
            event.facts.is_plain(),
    {
        BackgroundProtocolEvent { message, facts: BackgroundEventFacts::plain() }
    }

    /// The command that the message answers.
    pub open spec fn answered(&self) -> Option<u64> {
        json::member_unsigned(self.tree(), "id"@)
    }

    pub fn protocol_message_id(&self) -> (id: Option<u64>)
        ensures
            id == self.answered(),
    {
        json_member_u64(&self.message, "id")
    }

    pub fn into_protocol_message(self) -> (message: serde_json::Value)
        ensures
            message == self.message,
    {
        self.message
    }
}

/// The outcome of a navigate command, for the session that sent it.
pub struct BrowserNavigateCommandOutcomeDelivery {
    pub request_id: u64,
    pub session_id: Option<String>,
    pub url: String,
    pub result: serde_json::Value,
}

impl BrowserNavigateCommandOutcomeDelivery {
    pub fn completed(
        request_id: u64,
        session_id: Option<&str>,
        url: &str,
        result: serde_json::Value,
    ) -> (delivery: BrowserNavigateCommandOutcomeDelivery)
        ensures
            delivery.request_id == request_id,
            text::opt_chars(delivery.session_id) == text::opt_str_chars(session_id),
            delivery.url@ == url@,
            delivery.result == result,
    {
        BrowserNavigateCommandOutcomeDelivery {
            request_id,
            session_id: text::copy_opt_text(session_id),
            url: url.to_owned(),
            result,
        }
    }

    /// The answer to the command.
    pub open spec fn response(&self) -> JsonTree {
        let answer = json::with_member(
            json::with_member(
                JsonTree::Members(Map::empty()),
                "id"@,
                JsonTree::Unsigned(self.request_id),
            ),
            "result"@,
            json::json_tree(self.result),
        );
        match self.session_id {
            Some(session_id) => json::with_member(
                answer,
                "sessionId"@,
                JsonTree::Text(session_id@),
            ),
            None => answer,
        }
    }

    /// The answer to the command, as a message.
    pub fn into_background_protocol_event(self) -> (event: BackgroundProtocolEvent)
        ensures
            event.tree() == self.response(),
            event.facts.is_plain(),
    {
        let mut message = json_empty_object();
        json_set(&mut message, "id", json_from_u64(self.request_id));
        json_set(&mut message, "result", self.result);
        if let Some(session_id) = &self.session_id {
            json_set(&mut message, "sessionId", json_from_str(session_id.as_str()));
        }
        BackgroundProtocolEvent::immediate(message)
    }
}

/// What waits in the queue.
pub enum BrowserBackgroundOutput {
    ProtocolEvent(BackgroundProtocolEvent),
    NavigateCommandOutcome(BrowserNavigateCommandOutcomeDelivery),
}

impl BrowserBackgroundOutput {
    /// The message that the frontend is sent.
    pub open spec fn tree(&self) -> JsonTree {
        match *self {
            BrowserBackgroundOutput::ProtocolEvent(event) => event.tree(),
            BrowserBackgroundOutput::NavigateCommandOutcome(delivery) => delivery.response(),
        }
    }

    /// Whether an event is what the item is taken out as.
    pub open spec fn leaves_as(&self, event: BackgroundProtocolEvent) -> bool {
        match *self {
            BrowserBackgroundOutput::ProtocolEvent(entered) => event == entered,
            BrowserBackgroundOutput::NavigateCommandOutcome(delivery) => event.tree()
                == delivery.response() && event.facts.is_plain(),
        }
    }

    pub fn into_protocol_event(self) -> (event: BackgroundProtocolEvent)
        ensures
            event.tree() == self.tree(),
            self.leaves_as(event),
    {
        match self {
            BrowserBackgroundOutput::ProtocolEvent(event) => event,
            BrowserBackgroundOutput::NavigateCommandOutcome(delivery) => {
                delivery.into_background_protocol_event()
            },
        }
    }
}

/// The queue was closed before an item could enter.
#[derive(Clone, Copy, Debug, PartialEq, Eq, Structural)]
pub struct BackgroundOutputClosed;

/// Why nothing was taken out.
#[derive(Clone, Copy, Debug, PartialEq, Eq, Structural)]
pub enum TryReceiveError {
    /// Nothing waits.
    Empty,
    /// Nothing waits and nothing will come.
    Disconnected,
}

/// What waits for a frontend, oldest first.
pub struct BackgroundOutputQueue {
    pub items: std::collections::VecDeque<BrowserBackgroundOutput>,
    /// Whether the frontend is gone.
    pub receiver_closed: bool,
    /// Whether all senders are gone.
    pub senders_closed: bool,
}

impl BackgroundOutputQueue {
    pub fn new() -> (queue: BackgroundOutputQueue)
        ensures
            queue.items@ == Seq::<BrowserBackgroundOutput>::empty(),
            !queue.receiver_closed,
            !queue.senders_closed,
    {
        BackgroundOutputQueue {
            items: std::collections::VecDeque::new(),
            receiver_closed: false,
            senders_closed: false,
        }
    }

    fn push(&mut self, output: BrowserBackgroundOutput) -> (sent: Result<
        (),
        BackgroundOutputClosed,
    >)
        ensures
            sent is Err <==> old(self).receiver_closed,
            final(self).items@ == (if old(self).receiver_closed {
                old(self).items@
            } else {
                old(self).items@.push(output)
            }),
            final(self).receiver_closed == old(self).receiver_closed,
            final(self).senders_closed == old(self).senders_closed,
    {
        if self.receiver_closed {
            return Err(BackgroundOutputClosed);
        }
        self.items.push_back(output);
        Ok(())
    }

    /// Lets an event enter, last.
    pub fn send(&mut self, event: BackgroundProtocolEvent) -> (sent: Result<
        (),
        BackgroundOutputClosed,
    >)
        ensures
            sent is Err <==> old(self).receiver_closed,
            final(self).items@ == (if old(self).receiver_closed {
                old(self).items@
            } else {
                old(self).items@.push(BrowserBackgroundOutput::ProtocolEvent(event))
            }),
            final(self).receiver_closed == old(self).receiver_closed,
            final(self).senders_closed == old(self).senders_closed,
    {
        self.push(BrowserBackgroundOutput::ProtocolEvent(event))
    }

    /// Lets the outcome of a navigate command enter, last.
    pub fn send_browser_navigate_outcome(
        &mut self,
        delivery: BrowserNavigateCommandOutcomeDelivery,
    ) -> (sent: Result<(), BackgroundOutputClosed>)
        ensures
            sent is Err <==> old(self).receiver_closed,
            final(self).items@ == (if old(self).receiver_closed {
                old(self).items@
            } else {
                old(self).items@.push(BrowserBackgroundOutput::NavigateCommandOutcome(delivery))
            }),
            final(self).receiver_closed == old(self).receiver_closed,
            final(self).senders_closed == old(self).senders_closed,
    {
        self.push(BrowserBackgroundOutput::NavigateCommandOutcome(delivery))
    }

    pub fn is_closed(&self) -> (closed: bool)
        ensures
            closed == self.receiver_closed,
    {
        self.receiver_closed
    }

    /// Takes out what waits longest.
    pub fn try_recv(&mut self) -> (received: Result<BackgroundProtocolEvent, TryReceiveError>)
        ensures
            final(self).receiver_closed == old(self).receiver_closed,
            final(self).senders_closed == old(self).senders_closed,
            if old(self).items@.len() > 0 {
                &&& received matches Ok(event) && old(self).items@[0].leaves_as(event)
                    && event.tree() == old(self).items@[0].tree()
                &&& final(self).items@ == old(self).items@.skip(1)
            } else {
                &&& received == Err::<BackgroundProtocolEvent, TryReceiveError>(
                    if old(self).senders_closed {
                        TryReceiveError::Disconnected
                    } else {
                        TryReceiveError::Empty
                    },
                )
                &&& final(self).items@ == old(self).items@
            },
    {
        match self.items.pop_front() {
            Some(output) => {
                assert(self.items@ =~= old(self).items@.skip(1));
                Ok(output.into_protocol_event())
            },
            None => if self.senders_closed {
                Err(TryReceiveError::Disconnected)
            } else {
                Err(TryReceiveError::Empty)
            },
        }
    }
}

} // verus!
