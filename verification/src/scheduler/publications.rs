//! Renderer output that has arrived before the Browser commit it belongs
//! behind.
//!
//! Only publications are held back, and only those of a stream that has shown
//! the commit of a main Document while a navigation was in flight. Other
//! streams and the stream controls pass them.
use std::collections::HashSet;
use std::collections::VecDeque;
use vstd::prelude::*;

use crate::lists;

verus! {

/// A position in the output of one renderer stream.
#[derive(Clone, Copy, Debug, PartialEq, Eq, Structural)]
pub struct RendererOutputCursor {
    pub stream: u64,
    pub position: u64,
}

/// What a record of renderer output is.
#[derive(Clone, Copy, Debug, PartialEq, Eq, Structural)]
pub enum RendererOutputItem {
    /// The commit of a main Document.
    MainDocumentCommit,
    Other,
}

/// Records that a renderer stream publishes together.
#[derive(Clone, Debug, PartialEq, Eq)]
pub struct RendererOutputPublication {
    pub cursor: RendererOutputCursor,
    pub records: Vec<RendererOutputItem>,
    /// By which the records themselves are found.
    pub content: u64,
}

/// What the renderer transport carries.
#[derive(Clone, Debug, PartialEq, Eq)]
pub enum RendererOutputTransportMessage {
    Publication(RendererOutputPublication),
    StreamControl(u64),
    PageReservationReleased(u64),
    CursorLeaseDeclared(u64),
    CursorLeaseReleased(u64),
}

impl RendererOutputTransportMessage {
    /// The cursor of a publication.
    pub open spec fn spec_cursor(&self) -> Option<RendererOutputCursor> {
        match self {
            RendererOutputTransportMessage::Publication(publication) => Some(publication.cursor),
            _ => None,
        }
    }

    /// The stream of a publication.
    pub open spec fn stream(&self) -> Option<u64> {
        match self.spec_cursor() {
            Some(cursor) => Some(cursor.stream),
            None => None,
        }
    }

    /// Whether it shows the commit of a main Document.
    pub open spec fn shows_commit(&self) -> bool {
        match self {
            RendererOutputTransportMessage::Publication(publication) => publication.records@.contains(
                RendererOutputItem::MainDocumentCommit,
            ),
            _ => false,
        }
    }

    pub fn cursor(&self) -> (cursor: Option<RendererOutputCursor>)
        ensures
            cursor == self.spec_cursor(),
    {
        match self {
            RendererOutputTransportMessage::Publication(publication) => Some(publication.cursor),
            _ => None,
        }
    }
}

/// The stream of a publication.
pub fn renderer_publication_stream(message: &RendererOutputTransportMessage) -> (stream: Option<u64>)
    ensures
        stream == message.stream(),
{
    match message.cursor() {
        Some(cursor) => Some(cursor.stream),
        None => None,
    }
}

/// Whether the commit of a main Document is among records.
fn show_commit(records: &Vec<RendererOutputItem>) -> (shown: bool)
    ensures
        shown == records@.contains(RendererOutputItem::MainDocumentCommit),
{
    let mut index: usize = 0;
    while index < records.len()
        invariant
            index <= records.len(),
            forall|at: int|
                0 <= at < index ==> records@[at] != RendererOutputItem::MainDocumentCommit,
        decreases records.len() - index,
    {
        if records[index] == RendererOutputItem::MainDocumentCommit {
            return true;
        }
        index += 1;
    }
    false
}

/// The stream of a publication that shows the commit of a main Document.
pub fn renderer_main_document_commit_stream(message: &RendererOutputTransportMessage) -> (stream:
    Option<u64>)
    ensures
        stream == (if message.shows_commit() {
            message.stream()
        } else {
            None
        }),
{
    match message {
        RendererOutputTransportMessage::Publication(publication) => if show_commit(
            &publication.records,
        ) {
            Some(publication.cursor.stream)
        } else {
            None
        },
        _ => None,
    }
}

/// The buffer, as a value.
pub struct PublicationBuffer {
    /// What is held back, oldest first.
    pub held: Seq<RendererOutputTransportMessage>,
    /// The streams whose publications are held back.
    pub blocked: Set<u64>,
}

/// Whether a message belongs to no blocked stream.
pub open spec fn is_free(message: RendererOutputTransportMessage, blocked: Set<u64>) -> bool {
    message.stream() matches Some(stream) ==> !blocked.contains(stream)
}

impl PublicationBuffer {
    pub open spec fn empty() -> PublicationBuffer {
        PublicationBuffer { held: Seq::empty(), blocked: Set::empty() }
    }

    /// The buffer without what it holds at a place, and what that is.
    pub open spec fn taken_at(self, place: Option<int>) -> (
        PublicationBuffer,
        Option<RendererOutputTransportMessage>,
    ) {
        match place {
            Some(at) => (
                PublicationBuffer { held: self.held.remove(at), ..self },
                Some(self.held[at]),
            ),
            None => (self, None),
        }
    }

    /// After one message is let go. Once no navigation is in flight nothing is
    /// blocked any more.
    pub open spec fn released(self, gate_open: bool) -> (
        PublicationBuffer,
        Option<RendererOutputTransportMessage>,
    ) {
        if gate_open {
            self.taken_at(
                lists::first_where(
                    self.held,
                    |message: RendererOutputTransportMessage| is_free(message, self.blocked),
                ),
            )
        } else {
            (PublicationBuffer { held: self.held, blocked: Set::empty() }).taken_at(
                if self.held.len() > 0 {
                    Some(0)
                } else {
                    None
                },
            )
        }
    }

    /// After a message has arrived: it passes, or is held back.
    pub open spec fn arrived(
        self,
        message: RendererOutputTransportMessage,
        gate_open: bool,
        released_stream: Option<u64>,
    ) -> (PublicationBuffer, Option<RendererOutputTransportMessage>) {
        match message.stream() {
            None => (self, Some(message)),
            Some(stream) => if released_stream == Some(stream) {
                (PublicationBuffer { blocked: self.blocked.remove(stream), ..self }, Some(message))
            } else if !gate_open {
                (self, Some(message))
            } else {
                let blocked = if message.shows_commit() {
                    self.blocked.insert(stream)
                } else {
                    self.blocked
                };
                if blocked.contains(stream) {
                    (PublicationBuffer { held: self.held.push(message), blocked }, None)
                } else {
                    (PublicationBuffer { blocked, ..self }, Some(message))
                }
            },
        }
    }

    /// After the next message of a stream is let go, for a fence in it. The
    /// boundary of a navigation unblocks its stream first.
    pub open spec fn released_for(self, stream: u64, unblocks: bool) -> (
        PublicationBuffer,
        Option<RendererOutputTransportMessage>,
    ) {
        let blocked = if unblocks {
            self.blocked.remove(stream)
        } else {
            self.blocked
        };
        (PublicationBuffer { blocked, ..self }).taken_at(
            lists::first_where(
                self.held,
                |message: RendererOutputTransportMessage|
                    message.stream() == Some(stream) && !blocked.contains(stream),
            ),
        )
    }
}

/// Holds publications back until the Browser commit they belong behind.
pub struct NavigationRendererPublicationBuffer {
    pub publications: VecDeque<RendererOutputTransportMessage>,
    pub blocked_streams: HashSet<u64>,
}

impl View for NavigationRendererPublicationBuffer {
    type V = PublicationBuffer;

    open spec fn view(&self) -> PublicationBuffer {
        PublicationBuffer { held: self.publications@, blocked: self.blocked_streams@ }
    }
}

impl NavigationRendererPublicationBuffer {
    pub fn new() -> (buffer: NavigationRendererPublicationBuffer)
        ensures
            buffer@ == PublicationBuffer::empty(),
    {
        NavigationRendererPublicationBuffer {
            publications: VecDeque::new(),
            blocked_streams: HashSet::new(),
        }
    }

    /// Lets one message go, if one may.
    pub fn take_releasable(&mut self, navigation_gate_open: bool) -> (released: Option<
        RendererOutputTransportMessage,
    >)
        ensures
            (final(self)@, released) == old(self)@.released(navigation_gate_open),
    {
        broadcast use vstd::std_specs::hash::group_hash_axioms;

        let ghost before = self@;
        let ghost free = |message: RendererOutputTransportMessage| is_free(message, before.blocked);
        if !navigation_gate_open {
            self.blocked_streams = HashSet::new();
            let released = self.publications.pop_front();
            proof {
                if before.held.len() > 0 {
                    assert(self.publications@ =~= before.held.remove(0));
                }
            }
            return released;
        }
        let mut index: usize = 0;
        while index < self.publications.len()
            invariant
                self@ == before,
                before == old(self)@,
                free == (|message: RendererOutputTransportMessage| is_free(message, before.blocked)),
                index <= self.publications@.len(),
                navigation_gate_open,
                forall|at: int| 0 <= at < index ==> !free(#[trigger] before.held[at]),
            decreases self.publications@.len() - index,
        {
            broadcast use vstd::std_specs::hash::group_hash_axioms;

            let is_free_message = match renderer_publication_stream(&self.publications[index]) {
                Some(stream) => !self.blocked_streams.contains(&stream),
                None => true,
            };
            if is_free_message {
                proof {
                    assert(free(before.held[index as int]));
                    lists::lemma_first(before.held, free, index as int);
                }
                return self.publications.remove(index);
            }
            index += 1;
        }
        proof {
            lists::lemma_nowhere(before.held, free);
        }
        None
    }

    /// Lets a message pass, or holds it back. Only the exact boundary of a
    /// navigation unblocks a stream.
    pub fn admit_or_buffer(
        &mut self,
        publication: RendererOutputTransportMessage,
        navigation_gate_open: bool,
        released_navigation_stream: Option<u64>,
    ) -> (passed: Option<RendererOutputTransportMessage>)
        ensures
            (final(self)@, passed) == old(self)@.arrived(
                publication,
                navigation_gate_open,
                released_navigation_stream,
            ),
    {
        broadcast use vstd::std_specs::hash::group_hash_axioms;

        let stream: u64 = match renderer_publication_stream(&publication) {
            Some(stream) => stream,
            None => {
                return Some(publication);
            },
        };
        if let Some(released) = released_navigation_stream {
            if released == stream {
                self.blocked_streams.remove(&stream);
                return Some(publication);
            }
        }
        if !navigation_gate_open {
            return Some(publication);
        }
        if renderer_main_document_commit_stream(&publication).is_some() {
            self.blocked_streams.insert(stream);
        }
        if !self.blocked_streams.contains(&stream) {
            return Some(publication);
        }
        self.publications.push_back(publication);
        None
    }

    /// Lets the next message of a stream go, for a fence in it.
    pub fn take_for_predecessor(
        &mut self,
        predecessor_stream: u64,
        releases_navigation_stream: bool,
    ) -> (released: Option<RendererOutputTransportMessage>)
        ensures
            (final(self)@, released) == old(self)@.released_for(
                predecessor_stream,
                releases_navigation_stream,
            ),
    {
        broadcast use vstd::std_specs::hash::group_hash_axioms;

        if releases_navigation_stream {
            self.blocked_streams.remove(&predecessor_stream);
        }
        let is_blocked = self.blocked_streams.contains(&predecessor_stream);
        let ghost blocked = self@.blocked;
        let ghost wanted = |message: RendererOutputTransportMessage|
            message.stream() == Some(predecessor_stream) && !blocked.contains(predecessor_stream);
        let ghost held = self@.held;
        let mut index: usize = 0;
        while index < self.publications.len()
            invariant
                self@ == (PublicationBuffer { held, blocked }),
                held == old(self)@.held,
                blocked == (if releases_navigation_stream {
                    old(self)@.blocked.remove(predecessor_stream)
                } else {
                    old(self)@.blocked
                }),
                wanted == (|message: RendererOutputTransportMessage|
                    message.stream() == Some(predecessor_stream) && !blocked.contains(
                        predecessor_stream,
                    )),
                is_blocked == blocked.contains(predecessor_stream),
                index <= held.len(),
                forall|at: int| 0 <= at < index ==> !wanted(#[trigger] held[at]),
            decreases held.len() - index,
        {
            let is_wanted = match renderer_publication_stream(&self.publications[index]) {
                Some(stream) => stream == predecessor_stream && !is_blocked,
                None => false,
            };
            if is_wanted {
                proof {
                    assert(wanted(held[index as int]));
                    lists::lemma_first(held, wanted, index as int);
                }
                return self.publications.remove(index);
            }
            index += 1;
        }
        proof {
            lists::lemma_nowhere(held, wanted);
        }
        None
    }
}

/// The messages of one stream among several.
pub open spec fn of_stream(messages: Seq<RendererOutputTransportMessage>, stream: u64) -> Seq<
    RendererOutputTransportMessage,
> {
    messages.filter(|message: RendererOutputTransportMessage| message.stream() == Some(stream))
}

/// Removing the first message of a stream leaves the others of that stream in
/// order, and other streams alone.
proof fn lemma_first_of_stream_removed(
    held: Seq<RendererOutputTransportMessage>,
    at: int,
    stream: u64,
    other: u64,
)
    requires
        0 <= at < held.len(),
        held[at].stream() == Some(stream),
        forall|earlier: int| 0 <= earlier < at ==> (#[trigger] held[earlier]).stream() != Some(stream),
    ensures
        of_stream(held, stream).len() > 0,
        of_stream(held, stream)[0] == held[at],
        of_stream(held.remove(at), other) == (if other == stream {
            of_stream(held, stream).skip(1)
        } else {
            of_stream(held, other)
        }),
{
    let first = held[at];
    let head = held.take(at);
    let tail = held.skip(at + 1);
    assert(held =~= head + seq![first] + tail);
    assert(held.remove(at) =~= head + tail);
    let of_one = |message: RendererOutputTransportMessage| message.stream() == Some(stream);
    let of_other = |message: RendererOutputTransportMessage| message.stream() == Some(other);
    lemma_none_kept(head, of_one);
    Seq::filter_distributes_over_add(head + seq![first], tail, of_one);
    Seq::filter_distributes_over_add(head, seq![first], of_one);
    Seq::filter_distributes_over_add(head + seq![first], tail, of_other);
    Seq::filter_distributes_over_add(head, seq![first], of_other);
    Seq::filter_distributes_over_add(head, tail, of_one);
    Seq::filter_distributes_over_add(head, tail, of_other);
    lemma_one_kept(first, of_one);
    lemma_one_kept(first, of_other);
    assert(of_stream(held, stream) =~= seq![first] + tail.filter(of_one));
    assert(of_stream(held, stream).skip(1) =~= tail.filter(of_one));
    assert(of_stream(held.remove(at), stream) =~= tail.filter(of_one));
    assert(other != stream ==> of_stream(held.remove(at), other) =~= of_stream(held, other));
}

proof fn lemma_none_kept(
    messages: Seq<RendererOutputTransportMessage>,
    kept: spec_fn(RendererOutputTransportMessage) -> bool,
)
    requires
        forall|at: int| 0 <= at < messages.len() ==> !kept(#[trigger] messages[at]),
    ensures
        messages.filter(kept) == Seq::<RendererOutputTransportMessage>::empty(),
    decreases messages.len(),
{
    reveal(Seq::filter);
    if messages.len() > 0 {
        assert forall|at: int| 0 <= at < messages.drop_last().len() implies !kept(
            #[trigger] messages.drop_last()[at],
        ) by {
            assert(!kept(messages[at]));
        }
        lemma_none_kept(messages.drop_last(), kept);
        assert(!kept(messages[messages.len() - 1]));
    }
}

proof fn lemma_one_kept(
    message: RendererOutputTransportMessage,
    kept: spec_fn(RendererOutputTransportMessage) -> bool,
)
    ensures
        seq![message].filter(kept) == (if kept(message) {
            seq![message]
        } else {
            Seq::<RendererOutputTransportMessage>::empty()
        }),
{
    reveal_with_fuel(Seq::filter, 2);
    let one = seq![message];
    assert(one.drop_last() =~= Seq::<RendererOutputTransportMessage>::empty());
    assert(one.last() == message);
    assert(one.filter(kept) =~= if kept(message) {
        one
    } else {
        Seq::<RendererOutputTransportMessage>::empty()
    });
}

/// What is let go of a stream is what was held longest of it. The rest of the
/// stream keeps its order, and other streams keep all they held.
pub proof fn law_release_keeps_stream_order(
    buffer: PublicationBuffer,
    gate_open: bool,
    stream: u64,
    other: u64,
)
    requires
        buffer.released(gate_open).1 matches Some(message) && message.stream() == Some(stream),
    ensures
        buffer.released(gate_open).1 == Some(of_stream(buffer.held, stream)[0]),
        of_stream(buffer.released(gate_open).0.held, other) == (if other == stream {
            of_stream(buffer.held, stream).skip(1)
        } else {
            of_stream(buffer.held, other)
        }),
{
    if gate_open {
        let free = |message: RendererOutputTransportMessage| is_free(message, buffer.blocked);
        let at = lists::first_where(buffer.held, free)->0;
        assert(lists::is_first(buffer.held, free, at));
        assert forall|earlier: int| 0 <= earlier < at implies (
        #[trigger] buffer.held[earlier]).stream() != Some(stream) by {
            assert(!free(buffer.held[earlier]));
        }
        lemma_first_of_stream_removed(buffer.held, at, stream, other);
    } else {
        lemma_first_of_stream_removed(buffer.held, 0, stream, other);
    }
}

/// A fence in a stream lets go what was held longest of exactly that stream,
/// and leaves all other streams held and blocked as they were.
pub proof fn law_fence_releases_only_its_stream(
    buffer: PublicationBuffer,
    stream: u64,
    unblocks: bool,
    other: u64,
)
    requires
        other != stream,
    ensures
        of_stream(buffer.released_for(stream, unblocks).0.held, other) == of_stream(
            buffer.held,
            other,
        ),
        buffer.released_for(stream, unblocks).0.blocked.contains(other) == buffer.blocked.contains(
            other,
        ),
        buffer.released_for(stream, unblocks).1 matches Some(message) ==> {
            &&& message.stream() == Some(stream)
            &&& message == of_stream(buffer.held, stream)[0]
        },
{
    let blocked = if unblocks {
        buffer.blocked.remove(stream)
    } else {
        buffer.blocked
    };
    let wanted = |message: RendererOutputTransportMessage|
        message.stream() == Some(stream) && !blocked.contains(stream);
    if let Some(at) = lists::first_where(buffer.held, wanted) {
        assert(lists::is_first(buffer.held, wanted, at));
        assert forall|earlier: int| 0 <= earlier < at implies (
        #[trigger] buffer.held[earlier]).stream() != Some(stream) by {
            assert(!wanted(buffer.held[earlier]));
        }
        lemma_first_of_stream_removed(buffer.held, at, stream, other);
    }
}

/// Nothing is lost or made up at the buffer: a message that arrives passes or
/// is held, last.
pub proof fn law_arrival_is_kept(
    buffer: PublicationBuffer,
    message: RendererOutputTransportMessage,
    gate_open: bool,
    released_stream: Option<u64>,
)
    ensures
        match buffer.arrived(message, gate_open, released_stream) {
            (after, Some(passed)) => passed == message && after.held == buffer.held,
            (after, None) => after.held == buffer.held.push(message) && message.stream() is Some
                && after.blocked.contains(message.stream()->0),
        },
{
}

} // verus!
