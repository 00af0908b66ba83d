//! One frontend's cursor over the Browser facts.
//!
//! The cursor publishes nothing and waits for nothing. A frontend may show an
//! occurrence only by claiming the fact that says it happened.
use vstd::prelude::*;

use crate::facts::errors::BrowserFactProjectionError;
use crate::facts::fact_laws;
use crate::facts::laws;
use crate::facts::model;
use crate::facts::model::{
    BrowserDocumentLifecycleFactProjection, Claimed, FactClaim, JournalEnd, PendingBrowserFact,
    ProjectorModel, Shown, MAX_PENDING_BROWSER_FACTS,
};
use crate::facts::types::{
    BrowserFact, BrowserFactEnvelope, BrowserNavigationFailure, BrowserTargetMetadataTransition,
    BrowserTargetTermination, BrowserTargetTerminationKind, CommittedRendererDocumentBinding,
    DocumentNavigationToken, PageResidenceIdentity, RendererDocumentLifecycleEvent,
    RendererDocumentLifecycleEventKind, RendererDocumentLifecycleIdentity,
    RendererDocumentLifecycleMilestone, RendererLifecycleEventStamp,
};
use crate::tables::IdTable;
use crate::text::same_text;

verus! {

/// The facts that the journal delivered to one cursor.
pub struct BrowserFactSubscriber {
    pub queued: std::collections::VecDeque<BrowserFactEnvelope>,
    pub end: JournalEnd,
}

impl BrowserFactSubscriber {
    pub fn new() -> (subscriber: BrowserFactSubscriber)
        ensures
            subscriber.queued@ == Seq::<BrowserFactEnvelope>::empty(),
            subscriber.end == JournalEnd::Empty,
    {
        BrowserFactSubscriber {
            queued: std::collections::VecDeque::new(),
            end: JournalEnd::Empty,
        }
    }

    /// Delivers one fact.
    pub fn deliver(&mut self, envelope: BrowserFactEnvelope)
        ensures
            final(self).queued@ == old(self).queued@.push(envelope),
            final(self).end == old(self).end,
    {
        self.queued.push_back(envelope);
    }
}

/// The creation of a Target, claimed for its announcement.
pub struct BrowserTargetCreatedFactProjection {
    pub envelope: BrowserFactEnvelope,
}

impl BrowserTargetCreatedFactProjection {
    pub fn envelope(&self) -> (envelope: &BrowserFactEnvelope)
        ensures
            *envelope == self.envelope,
    {
        &self.envelope
    }

    /// Whether the Target still stands in the place where it was created.
    pub fn matches_residence_instance(&self, current: &PageResidenceIdentity) -> (matches: bool)
        ensures
            matches == self.envelope.page_residence.same_place(current),
    {
        self.envelope.page_residence.same_residence_instance(current)
    }
}

/// A change of what a Target shows, claimed for its announcement.
pub struct BrowserTargetMetadataFactProjection {
    pub envelope: BrowserFactEnvelope,
}

impl BrowserTargetMetadataFactProjection {
    /// The claimed fact is such a change.
    pub open spec fn wf(&self) -> bool {
        self.envelope.fact is TargetMetadataChanged
    }

    pub fn envelope(&self) -> (envelope: &BrowserFactEnvelope)
        ensures
            *envelope == self.envelope,
    {
        &self.envelope
    }

    pub fn transition(&self) -> (transition: &BrowserTargetMetadataTransition)
        requires
            self.wf(),
        ensures
            self.envelope.fact == (BrowserFact::TargetMetadataChanged { transition: *transition }),
    {
        match &self.envelope.fact {
            BrowserFact::TargetMetadataChanged { transition } => transition,
            _ => vstd::pervasive::unreached(),
        }
    }
}

/// The commit of a request, claimed for its announcement.
pub struct BrowserNavigationCommitFactProjection {
    pub committed: BrowserFactEnvelope,
}

impl BrowserNavigationCommitFactProjection {
    pub fn sequence(&self) -> (sequence: u64)
        ensures
            sequence == self.committed.sequence,
    {
        self.committed.sequence
    }
}

/// The end of a Target, claimed for its announcement.
pub struct BrowserTargetTerminationFactProjection {
    pub terminal: BrowserFactEnvelope,
}

impl BrowserTargetTerminationFactProjection {
    pub fn envelope(&self) -> (envelope: &BrowserFactEnvelope)
        ensures
            *envelope == self.terminal,
    {
        &self.terminal
    }
}

impl BrowserDocumentLifecycleFactProjection {
    pub fn envelope(&self) -> (envelope: &BrowserFactEnvelope)
        ensures
            *envelope == self.envelope,
    {
        &self.envelope
    }

    pub fn binding(&self) -> (binding: &CommittedRendererDocumentBinding)
        ensures
            *binding == self.binding,
    {
        &self.binding
    }

    /// What was reached, of which Document and when.
    pub fn reached(&self) -> (reached: Option<
        (
            RendererDocumentLifecycleIdentity,
            RendererDocumentLifecycleMilestone,
            RendererLifecycleEventStamp,
        ),
    >)
        ensures
            reached == (match self.envelope.fact {
                BrowserFact::DocumentLifecycleReached { document, milestone, stamp } => Some(
                    (document, milestone, stamp),
                ),
                _ => None,
            }),
    {
        match &self.envelope.fact {
            BrowserFact::DocumentLifecycleReached { document, milestone, stamp } => Some(
                (*document, *milestone, *stamp),
            ),
            _ => None,
        }
    }
}

/// Whether a fact is the one that `claim` needs.
fn answers(envelope: &BrowserFactEnvelope, claim: &FactClaim) -> (answers: bool)
    ensures
        answers == model::answers(*envelope, *claim),
{
    match claim {
        FactClaim::TargetCreated { page } => {
            let created = match &envelope.fact {
                BrowserFact::TargetCreated => true,
                _ => false,
            };
            let target = match &page.target_id {
                Some(target_id) => same_text(envelope.target_id.as_str(), target_id.as_str()),
                None => envelope.target_id.as_str().is_empty(),
            };
            proof {
                if page.target_id is None {
                    assert(envelope.target_id@.len() == 0 <==> envelope.target_id@ =~= Seq::<
                        char,
                    >::empty());
                }
            }
            created && envelope.page_residence.is_same(page) && same_text(
                envelope.browser_context_id.as_str(),
                page.browser_context_id.as_str(),
            ) && target
        },
        FactClaim::TargetMetadata { navigation, page } => envelope.page_residence.is_same(page)
            && match &envelope.fact {
            BrowserFact::TargetMetadataChanged { transition } => transition.navigation.is_same(
                navigation,
            ),
            _ => false,
        },
        FactClaim::NavigationAdmission { navigation } => match &envelope.fact {
            BrowserFact::NavigationAccepted { navigation: accepted, .. } => accepted.is_same(
                navigation,
            ),
            _ => false,
        },
        FactClaim::NavigationFailure { navigation, failure } => match &envelope.fact {
            BrowserFact::NavigationFailed { navigation: failed, failure: observed, .. } => {
                failed.is_same(navigation) && observed.is_same(failure)
            },
            _ => false,
        },
        FactClaim::NavigationDownload { navigation } => match &envelope.fact {
            BrowserFact::NavigationConvertedToDownload { navigation: downloaded } => {
                downloaded.is_same(navigation)
            },
            _ => false,
        },
        FactClaim::NavigationCommit { navigation, page } => envelope.page_residence.is_same(page)
            && match &envelope.fact {
            BrowserFact::NavigationCommitted { navigation: committed, .. } => committed.is_same(
                navigation,
            ),
            _ => false,
        },
        FactClaim::TargetTermination { termination } => same_text(
            envelope.target_id.as_str(),
            termination.target_id.as_str(),
        ) && envelope.page_residence.is_same(&termination.terminal_page) && match (
            termination.kind,
            &envelope.fact,
        ) {
            (
                BrowserTargetTerminationKind::Crash,
                BrowserFact::TargetCrashed { previous_page, .. },
            ) => previous_page.is_same(&termination.previous_page),
            (
                BrowserTargetTerminationKind::Close,
                BrowserFact::TargetClosed { previous_page, .. },
            ) => previous_page.is_same(&termination.previous_page),
            _ => false,
        },
    }
}

/// What is reported when the fact that `claim` needs is not there.
fn missing(claim: FactClaim) -> (error: BrowserFactProjectionError)
    ensures
        error == model::missing(claim),
{
    match claim {
        FactClaim::TargetCreated { page } => {
            BrowserFactProjectionError::MissingTargetCreationFact { page }
        },
        FactClaim::TargetMetadata { navigation, page } => {
            BrowserFactProjectionError::MissingNavigationTargetMetadataFact { navigation, page }
        },
        FactClaim::NavigationAdmission { navigation } => {
            BrowserFactProjectionError::MissingNavigationAdmissionFact { navigation }
        },
        FactClaim::NavigationFailure { navigation, failure } => {
            BrowserFactProjectionError::MissingNavigationFailureFact { navigation, failure }
        },
        FactClaim::NavigationDownload { navigation } => {
            BrowserFactProjectionError::MissingNavigationDownloadFact { navigation }
        },
        FactClaim::NavigationCommit { navigation, page } => {
            BrowserFactProjectionError::MissingNavigationCommitFact { navigation, page }
        },
        FactClaim::TargetTermination { termination } => {
            BrowserFactProjectionError::MissingTargetTerminationFact {
                target_id: termination.target_id,
                previous_page: termination.previous_page,
                terminal_page: termination.terminal_page,
                kind: termination.kind,
            }
        },
    }
}

/// Whether a lifecycle fact is about the Document that `binding` shows, on
/// `page`.
fn lifecycle_fact_matches_binding(
    envelope: &BrowserFactEnvelope,
    page: &PageResidenceIdentity,
    binding: &CommittedRendererDocumentBinding,
) -> (matches: bool)
    ensures
        matches == model::fact_matches_binding(*envelope, *page, *binding),
{
    page.is_same(&envelope.page_residence) && match &envelope.fact {
        BrowserFact::DocumentLifecycleReached { document, .. } => document.frame
            == binding.renderer_frame && document.document == binding.renderer_document,
        _ => false,
    }
}

/// The Page that a fact retires.
fn retired_page_residence(fact: &BrowserFact) -> (page: Option<&PageResidenceIdentity>)
    ensures
        match page {
            Some(page) => model::retired_page(*fact) == Some(*page),
            None => model::retired_page(*fact) is None,
        },
{
    match fact {
        BrowserFact::NavigationFailed { previous_page, .. } => previous_page.as_ref(),
        BrowserFact::NavigationCommitted { previous_page, .. } => Some(previous_page),
        BrowserFact::TargetCrashed { previous_page, .. } => Some(previous_page),
        BrowserFact::TargetClosed { previous_page, .. } => Some(previous_page),
        _ => None,
    }
}

fn is_voided_by(pending: &PendingBrowserFact, page: &PageResidenceIdentity) -> (voided: bool)
    ensures
        voided == model::voided_by(*pending, *page),
{
    match &pending.envelope.fact {
        BrowserFact::TargetCreated => pending.envelope.page_residence.same_residence_instance(
            page,
        ),
        BrowserFact::TargetMetadataChanged { .. } => pending.envelope.page_residence.is_same(page),
        BrowserFact::DocumentLifecycleReached { .. } => pending.envelope.page_residence.is_same(
            page,
        ),
        _ => false,
    }
}

fn is_frozen_to(
    frozen: &Option<CommittedRendererDocumentBinding>,
    binding: &CommittedRendererDocumentBinding,
) -> (same: bool)
    ensures
        same == (frozen matches Some(frozen) && frozen.same(binding)),
{
    match frozen {
        Some(frozen) => frozen.is_same(binding),
        None => false,
    }
}

fn is_overtaken(
    pending: &PendingBrowserFact,
    page: &PageResidenceIdentity,
    binding: &CommittedRendererDocumentBinding,
    sequence: u64,
) -> (overtaken: bool)
    ensures
        overtaken == model::overtaken(*pending, *page, *binding, sequence),
{
    let reached = match &pending.envelope.fact {
        BrowserFact::DocumentLifecycleReached { .. } => true,
        _ => false,
    };
    reached && pending.envelope.page_residence.is_same(page) && is_frozen_to(
        &pending.document_binding,
        binding,
    ) && pending.envelope.sequence < sequence
}

fn reports(
    pending: &PendingBrowserFact,
    page: &PageResidenceIdentity,
    binding: &CommittedRendererDocumentBinding,
    event: &RendererDocumentLifecycleEvent,
) -> (reports: bool)
    ensures
        reports == model::reports(*pending, *page, *binding, *event),
{
    let reached = match &pending.envelope.fact {
        BrowserFact::DocumentLifecycleReached { document, milestone, stamp } => {
            let same_milestone = match event.kind {
                RendererDocumentLifecycleEventKind::Milestone(reported) => reported == *milestone,
                _ => false,
            };
            *document == event.identity() && same_milestone && *stamp == event.stamp()
        },
        _ => false,
    };
    reached && pending.envelope.page_residence.is_same(page) && is_frozen_to(
        &pending.document_binding,
        binding,
    )
}

fn is_visible(
    event: &RendererDocumentLifecycleEvent,
    binding: &CommittedRendererDocumentBinding,
) -> (is_visible: bool)
    ensures
        is_visible == model::visible(*event, *binding),
{
    let milestone = match event.kind {
        RendererDocumentLifecycleEventKind::Milestone(_) => true,
        _ => false,
    };
    event.frame == binding.renderer_frame && event.document == binding.renderer_document
        && milestone
}

/// One frontend's cursor over the Browser facts.
pub struct CdpBrowserFactProjector {
    subscriber: Option<BrowserFactSubscriber>,
    pending_facts: Vec<PendingBrowserFact>,
    lifecycle_causal_links: IdTable<CommittedRendererDocumentBinding>,
    last_observed_sequence: Option<u64>,
    last_projected_sequence: Option<u64>,
    terminal_error: Option<BrowserFactProjectionError>,
}

impl View for CdpBrowserFactProjector {
    type V = ProjectorModel;

    closed spec fn view(&self) -> ProjectorModel {
        ProjectorModel {
            subscribed: self.subscriber is Some,
            inbox: match self.subscriber {
                Some(subscriber) => subscriber.queued@,
                None => Seq::empty(),
            },
            end: match self.subscriber {
                Some(subscriber) => subscriber.end,
                None => JournalEnd::Empty,
            },
            pending: self.pending_facts@,
            links: self.lifecycle_causal_links@,
            last_observed: self.last_observed_sequence,
            last_projected: self.last_projected_sequence,
            terminal: self.terminal_error,
        }
    }
}

impl CdpBrowserFactProjector {
    spec fn links_wf(&self) -> bool {
        self.lifecycle_causal_links.wf()
    }

    /// The cursor keeps its invariant.
    pub closed spec fn wf(&self) -> bool {
        self.links_wf() && model::projector_inv(self@)
    }

    /// A cursor at the start of the journal.
    pub fn new(subscriber: BrowserFactSubscriber) -> (projector: CdpBrowserFactProjector)
        ensures
            projector.wf(),
            projector@ == (ProjectorModel {
                subscribed: true,
                inbox: subscriber.queued@,
                end: subscriber.end,
                pending: Seq::empty(),
                links: Map::empty(),
                last_observed: None,
                last_projected: None,
                terminal: None,
            }),
    {
        CdpBrowserFactProjector {
            subscriber: Some(subscriber),
            pending_facts: Vec::new(),
            lifecycle_causal_links: IdTable::new(),
            last_observed_sequence: None,
            last_projected_sequence: None,
            terminal_error: None,
        }
    }

    /// Delivers one fact of the journal. A cursor that was lost takes none.
    pub fn deliver(&mut self, envelope: BrowserFactEnvelope)
        requires
            old(self).wf(),
        ensures
            final(self).wf(),
            final(self)@ == (if old(self)@.subscribed {
                ProjectorModel { inbox: old(self)@.inbox.push(envelope), ..old(self)@ }
            } else {
                old(self)@
            }),
    {
        match self.subscriber.take() {
            Some(mut subscriber) => {
                subscriber.deliver(envelope);
                self.subscriber = Some(subscriber);
            },
            None => {},
        }
    }

    /// Notes that the journal dropped facts, or that it is gone.
    pub fn end_journal(&mut self, end: JournalEnd)
        requires
            old(self).wf(),
        ensures
            final(self).wf(),
            final(self)@ == (if old(self)@.subscribed {
                ProjectorModel { end, ..old(self)@ }
            } else {
                old(self)@
            }),
    {
        match self.subscriber.take() {
            Some(mut subscriber) => {
                subscriber.end = end;
                self.subscriber = Some(subscriber);
            },
            None => {},
        }
    }

    fn fail(&mut self, error: BrowserFactProjectionError) -> (reported: BrowserFactProjectionError)
        requires
            old(self).links_wf(),
        ensures
            final(self).links_wf(),
            reported == error,
            final(self)@ == model::failed(old(self)@, error),
    {
        self.subscriber = None;
        self.pending_facts.clear();
        self.lifecycle_causal_links = IdTable::new();
        let reported = error.copy();
        self.terminal_error = Some(error);
        reported
    }

    fn record_projected(&mut self, sequence: u64)
        requires
            old(self).links_wf(),
        ensures
            final(self).links_wf(),
            final(self)@ == (ProjectorModel {
                last_projected: model::newest(old(self)@.last_projected, sequence),
                ..old(self)@
            }),
    {
        self.last_projected_sequence = match self.last_projected_sequence {
            Some(previous) => if previous > sequence {
                Some(previous)
            } else {
                Some(sequence)
            },
            None => Some(sequence),
        };
    }

    /// Drops the waiting facts that end with `page`.
    fn drop_voided(&mut self, page: &PageResidenceIdentity)
        requires
            old(self).links_wf(),
        ensures
            final(self).links_wf(),
            final(self)@ == (ProjectorModel {
                pending: model::without_voided(old(self)@.pending, *page),
                ..old(self)@
            }),
    {
        let ghost before = self.pending_facts@;
        let ghost mut read: int = 0;
        let mut index: usize = 0;
        proof {
            assert(before.take(0) =~= Seq::<PendingBrowserFact>::empty());
            assert(before.skip(0) =~= before);
        }
        while index < self.pending_facts.len()
            invariant
                self.links_wf(),
                self@ == (ProjectorModel { pending: self.pending_facts@, ..old(self)@ }),
                0 <= read <= before.len(),
                index == model::without_voided(before.take(read), *page).len(),
                self.pending_facts@ == model::without_voided(before.take(read), *page)
                    + before.skip(read),
            decreases before.len() - read,
        {
            proof {
                assert(self.pending_facts@[index as int] == before[read]);
                assert(before.take(read + 1).drop_last() =~= before.take(read));
                assert(before.take(read + 1).last() == before[read]);
            }
            let ghost kept = model::without_voided(before.take(read), *page);
            if is_voided_by(&self.pending_facts[index], page) {
                let _ = self.pending_facts.remove(index);
                assert(self.pending_facts@ =~= kept + before.skip(read + 1));
            } else {
                index = index + 1;
                assert(self.pending_facts@ =~= kept.push(before[read]) + before.skip(read + 1));
            }
            proof {
                read = read + 1;
            }
        }
        proof {
            assert(before.take(read) =~= before);
            assert(self.pending_facts@ =~= model::without_voided(before, *page));
        }
    }

    /// Drops the waiting lifecycle facts that `sequence` overtook.
    fn drop_overtaken(
        &mut self,
        page: &PageResidenceIdentity,
        binding: &CommittedRendererDocumentBinding,
        sequence: u64,
    )
        requires
            old(self).links_wf(),
        ensures
            final(self).links_wf(),
            final(self)@ == (ProjectorModel {
                pending: model::without_overtaken(old(self)@.pending, *page, *binding, sequence),
                ..old(self)@
            }),
    {
        let ghost before = self.pending_facts@;
        let ghost mut read: int = 0;
        let mut index: usize = 0;
        proof {
            assert(before.take(0) =~= Seq::<PendingBrowserFact>::empty());
            assert(before.skip(0) =~= before);
        }
        while index < self.pending_facts.len()
            invariant
                self.links_wf(),
                self@ == (ProjectorModel { pending: self.pending_facts@, ..old(self)@ }),
                0 <= read <= before.len(),
                index == model::without_overtaken(
                    before.take(read),
                    *page,
                    *binding,
                    sequence,
                ).len(),
                self.pending_facts@ == model::without_overtaken(
                    before.take(read),
                    *page,
                    *binding,
                    sequence,
                ) + before.skip(read),
            decreases before.len() - read,
        {
            proof {
                assert(self.pending_facts@[index as int] == before[read]);
                assert(before.take(read + 1).drop_last() =~= before.take(read));
                assert(before.take(read + 1).last() == before[read]);
            }
            let ghost kept = model::without_overtaken(
                before.take(read),
                *page,
                *binding,
                sequence,
            );
            if is_overtaken(&self.pending_facts[index], page, binding, sequence) {
                let _ = self.pending_facts.remove(index);
                assert(self.pending_facts@ =~= kept + before.skip(read + 1));
            } else {
                index = index + 1;
                assert(self.pending_facts@ =~= kept.push(before[read]) + before.skip(read + 1));
            }
            proof {
                read = read + 1;
            }
        }
        proof {
            assert(before.take(read) =~= before);
            assert(self.pending_facts@ =~= model::without_overtaken(
                before,
                *page,
                *binding,
                sequence,
            ));
        }
    }

    fn observe(&mut self, envelope: BrowserFactEnvelope) -> (observed: Result<
        (),
        BrowserFactProjectionError,
    >)
        requires
            old(self).links_wf(),
            old(self)@.terminal is None,
        ensures
            final(self).links_wf(),
            final(self)@ == model::observe(old(self)@, envelope),
            outcome(final(self)@) == observed,
    {
        if let Some(previous) = self.last_observed_sequence {
            if envelope.sequence <= previous {
                return Err(
                    self.fail(
                        BrowserFactProjectionError::NonMonotonicSequence {
                            previous,
                            received: envelope.sequence,
                        },
                    ),
                );
            }
        }
        self.last_observed_sequence = Some(envelope.sequence);
        if let BrowserFact::DocumentLifecycleTerminated { .. } = &envelope.fact {
            return Ok(());
        }
        if let Some(page) = retired_page_residence(&envelope.fact) {
            self.drop_voided(page);
        }
        if self.pending_facts.len() == MAX_PENDING_BROWSER_FACTS {
            return Err(
                self.fail(
                    BrowserFactProjectionError::PendingBrowserFactCapacityExceeded {
                        capacity: MAX_PENDING_BROWSER_FACTS,
                    },
                ),
            );
        }
        let reached = match &envelope.fact {
            BrowserFact::DocumentLifecycleReached { .. } => true,
            _ => false,
        };
        let document_binding = if reached {
            self.lifecycle_causal_links.remove(envelope.sequence)
        } else {
            None
        };
        self.pending_facts.push(PendingBrowserFact { envelope, document_binding });
        Ok(())
    }

    /// Reads all facts that were delivered.
    pub fn capture_available(&mut self) -> (captured: Result<(), BrowserFactProjectionError>)
        requires
            old(self).wf(),
        ensures
            final(self).wf(),
            final(self)@ == model::capture(old(self)@),
            outcome(final(self)@) == captured,
    {
        proof {
            laws::law_capture_keeps_inv(self@);
        }
        if let Some(error) = &self.terminal_error {
            return Err(error.copy());
        }
        loop
            invariant
                self.links_wf(),
                self@.terminal is None,
                model::capture(self@) == model::capture(old(self)@),
                model::projector_inv(model::capture(old(self)@)),
            decreases self@.inbox.len(),
        {
            let ghost before = self@;
            let mut subscriber = match self.subscriber.take() {
                Some(subscriber) => subscriber,
                None => {
                    return Err(self.fail(BrowserFactProjectionError::SubscriberClosed));
                },
            };
            let received = subscriber.queued.pop_front();
            let end = subscriber.end;
            self.subscriber = Some(subscriber);
            match received {
                Some(envelope) => {
                    proof {
                        assert(before.inbox[0] == envelope);
                        assert(self@ =~= ProjectorModel { inbox: before.inbox.skip(1), ..before });
                    }
                    match self.observe(envelope) {
                        Ok(()) => {},
                        Err(error) => {
                            return Err(error);
                        },
                    }
                },
                None => {
                    assert(self@ =~= before);
                    match end {
                        JournalEnd::Empty => {
                            return Ok(());
                        },
                        JournalEnd::Lagged { skipped } => {
                            return Err(
                                self.fail(BrowserFactProjectionError::SubscriberLagged { skipped }),
                            );
                        },
                        JournalEnd::Closed => {
                            return Err(self.fail(BrowserFactProjectionError::SubscriberClosed));
                        },
                    }
                },
            }
        }
    }

    /// Reads all facts that were delivered, up to a journal position that a
    /// wake announced.
    pub fn capture_wake(&mut self, through: u64) -> (captured: Result<
        (),
        BrowserFactProjectionError,
    >)
        requires
            old(self).wf(),
        ensures
            final(self).wf(),
            final(self)@ == model::capture_wake(old(self)@, through),
            outcome(final(self)@) == captured,
    {
        match self.capture_available() {
            Ok(()) => {},
            Err(error) => {
                return Err(error);
            },
        }
        let observed = match self.last_observed_sequence {
            Some(observed) => observed >= through,
            None => false,
        };
        if !observed {
            let observed = self.last_observed_sequence;
            return Err(
                self.fail(
                    BrowserFactProjectionError::WakeSequenceNotObserved { wake: through, observed },
                ),
            );
        }
        Ok(())
    }

    /// Claims the first fact that `claim` needs.
    fn claim(&mut self, claim: FactClaim) -> (claimed: Result<
        BrowserFactEnvelope,
        BrowserFactProjectionError,
    >)
        requires
            old(self).wf(),
        ensures
            final(self).wf(),
            model::claim_fact(old(self)@, claim) == (Claimed {
                model: final(self)@,
                result: claimed,
            }),
    {
        proof {
            laws::law_claim_keeps_inv(self@, claim);
        }
        match self.capture_available() {
            Ok(()) => {},
            Err(error) => {
                return Err(error);
            },
        }
        let mut index: usize = 0;
        while index < self.pending_facts.len()
            invariant
                self.wf(),
                self@ == model::capture(old(self)@),
                self@.terminal is None,
                index <= self.pending_facts@.len(),
                model::first_answer(self@.pending, claim, 0) == model::first_answer(
                    self@.pending,
                    claim,
                    index as nat,
                ),
                model::projector_inv(model::claim_fact(old(self)@, claim).model),
            decreases self.pending_facts@.len() - index,
        {
            if answers(&self.pending_facts[index].envelope, &claim) {
                let pending = self.pending_facts.remove(index);
                self.record_projected(pending.envelope.sequence);
                return Ok(pending.envelope);
            }
            index = index + 1;
        }
        Err(self.fail(missing(claim)))
    }

    /// Claims the creation of a Target.
    pub fn take_target_created_fact(&mut self, page: &PageResidenceIdentity) -> (claimed: Result<
        BrowserTargetCreatedFactProjection,
        BrowserFactProjectionError,
    >)
        requires
            old(self).wf(),
        ensures
            final(self).wf(),
            claimed matches Ok(projection) ==> {
                &&& projection.envelope.fact is TargetCreated
                &&& fact_laws::one_page(projection.envelope.page_residence, *page)
            },
            model::claim_fact(old(self)@, FactClaim::TargetCreated { page: *page }) == (Claimed {
                model: final(self)@,
                result: match claimed {
                    Ok(projection) => Ok(projection.envelope),
                    Err(error) => Err(error),
                },
            }),
    {
        proof {
            fact_laws::law_claimed_fact_is_the_one_asked_for(self@, FactClaim::TargetCreated { page: *page });
        }
        match self.claim(FactClaim::TargetCreated { page: page.copy() }) {
            Ok(envelope) => Ok(BrowserTargetCreatedFactProjection { envelope }),
            Err(error) => Err(error),
        }
    }

    /// Claims the change of what a Target shows that came with a commit.
    pub fn take_navigation_target_metadata_changed_fact(
        &mut self,
        navigation: &DocumentNavigationToken,
        page: &PageResidenceIdentity,
    ) -> (claimed: Result<BrowserTargetMetadataFactProjection, BrowserFactProjectionError>)
        requires
            old(self).wf(),
        ensures
            final(self).wf(),
            claimed matches Ok(projection) ==> projection.wf(),
            claimed matches Ok(projection) ==> {
                &&& projection.envelope.fact is TargetMetadataChanged
                &&& fact_laws::one_page(projection.envelope.page_residence, *page)
                &&& fact_laws::one_navigation(
                    projection.envelope.fact->TargetMetadataChanged_transition.navigation,
                    *navigation,
                )
            },
            model::claim_fact(
                old(self)@,
                FactClaim::TargetMetadata { navigation: *navigation, page: *page },
            ) == (Claimed {
                model: final(self)@,
                result: match claimed {
                    Ok(projection) => Ok(projection.envelope),
                    Err(error) => Err(error),
                },
            }),
    {
        proof {
            fact_laws::law_claimed_fact_is_the_one_asked_for(self@, FactClaim::TargetMetadata { navigation: *navigation, page: *page });
        }
        proof {
            laws::law_claim_answers(
                self@,
                FactClaim::TargetMetadata { navigation: *navigation, page: *page },
            );
        }
        match self.claim(
            FactClaim::TargetMetadata { navigation: navigation.copy(), page: page.copy() },
        ) {
            Ok(envelope) => Ok(BrowserTargetMetadataFactProjection { envelope }),
            Err(error) => Err(error),
        }
    }

    /// Claims the admission of a request.
    pub fn take_navigation_admission_fact(&mut self, navigation: &DocumentNavigationToken) -> (
        claimed: Result<BrowserFactEnvelope, BrowserFactProjectionError>)
        requires
            old(self).wf(),
        ensures
            final(self).wf(),
            claimed matches Ok(envelope) ==> {
                &&& envelope.fact is NavigationAccepted
                &&& fact_laws::one_navigation(envelope.fact->NavigationAccepted_navigation, *navigation)
            },
            model::claim_fact(
                old(self)@,
                FactClaim::NavigationAdmission { navigation: *navigation },
            ) == (Claimed { model: final(self)@, result: claimed }),
    {
        proof {
            fact_laws::law_claimed_fact_is_the_one_asked_for(self@, FactClaim::NavigationAdmission { navigation: *navigation });
        }
        self.claim(FactClaim::NavigationAdmission { navigation: navigation.copy() })
    }

    /// Claims the failure of a request.
    pub fn take_navigation_failure_fact(
        &mut self,
        navigation: &DocumentNavigationToken,
        failure: &BrowserNavigationFailure,
    ) -> (claimed: Result<BrowserFactEnvelope, BrowserFactProjectionError>)
        requires
            old(self).wf(),
        ensures
            final(self).wf(),
            claimed matches Ok(envelope) ==> {
                &&& envelope.fact is NavigationFailed
                &&& fact_laws::one_navigation(envelope.fact->NavigationFailed_navigation, *navigation)
                &&& fact_laws::one_failure(envelope.fact->NavigationFailed_failure, *failure)
            },
            model::claim_fact(
                old(self)@,
                FactClaim::NavigationFailure { navigation: *navigation, failure: *failure },
            ) == (Claimed { model: final(self)@, result: claimed }),
    {
        proof {
            fact_laws::law_claimed_fact_is_the_one_asked_for(self@, FactClaim::NavigationFailure { navigation: *navigation, failure: *failure });
        }
        self.claim(
            FactClaim::NavigationFailure {
                navigation: navigation.copy(),
                failure: failure.copy(),
            },
        )
    }

    /// Claims the turn of a request into a download.
    pub fn take_navigation_download_fact(&mut self, navigation: &DocumentNavigationToken) -> (
        claimed: Result<BrowserFactEnvelope, BrowserFactProjectionError>)
        requires
            old(self).wf(),
        ensures
            final(self).wf(),
            claimed matches Ok(envelope) ==> {
                &&& envelope.fact is NavigationConvertedToDownload
                &&& fact_laws::one_navigation(
                    envelope.fact->NavigationConvertedToDownload_navigation,
                    *navigation,
                )
            },
            model::claim_fact(
                old(self)@,
                FactClaim::NavigationDownload { navigation: *navigation },
            ) == (Claimed { model: final(self)@, result: claimed }),
    {
        proof {
            fact_laws::law_claimed_fact_is_the_one_asked_for(self@, FactClaim::NavigationDownload { navigation: *navigation });
        }
        self.claim(FactClaim::NavigationDownload { navigation: navigation.copy() })
    }

    /// Claims the commit of a request to a Page.
    pub fn take_navigation_commit_fact(
        &mut self,
        navigation: &DocumentNavigationToken,
        page: &PageResidenceIdentity,
    ) -> (claimed: Result<BrowserNavigationCommitFactProjection, BrowserFactProjectionError>)
        requires
            old(self).wf(),
        ensures
            final(self).wf(),
            claimed matches Ok(projection) ==> {
                &&& projection.committed.fact is NavigationCommitted
                &&& fact_laws::one_page(projection.committed.page_residence, *page)
                &&& fact_laws::one_navigation(
                    projection.committed.fact->NavigationCommitted_navigation,
                    *navigation,
                )
            },
            model::claim_fact(
                old(self)@,
                FactClaim::NavigationCommit { navigation: *navigation, page: *page },
            ) == (Claimed {
                model: final(self)@,
                result: match claimed {
                    Ok(projection) => Ok(projection.committed),
                    Err(error) => Err(error),
                },
            }),
    {
        proof {
            fact_laws::law_claimed_fact_is_the_one_asked_for(self@, FactClaim::NavigationCommit { navigation: *navigation, page: *page });
        }
        match self.claim(
            FactClaim::NavigationCommit { navigation: navigation.copy(), page: page.copy() },
        ) {
            Ok(committed) => Ok(BrowserNavigationCommitFactProjection { committed }),
            Err(error) => Err(error),
        }
    }

    /// Claims the end of a Target.
    pub fn take_target_termination_fact(&mut self, termination: &BrowserTargetTermination) -> (
        claimed: Result<BrowserTargetTerminationFactProjection, BrowserFactProjectionError>)
        requires
            old(self).wf(),
        ensures
            final(self).wf(),
            claimed matches Ok(projection) ==> {
                &&& projection.terminal.target_id@ == termination.target_id@
                &&& fact_laws::one_page(projection.terminal.page_residence, termination.terminal_page)
                &&& termination.kind is Crash ==> projection.terminal.fact is TargetCrashed
                &&& termination.kind is Close ==> projection.terminal.fact is TargetClosed
            },
            model::claim_fact(
                old(self)@,
                FactClaim::TargetTermination { termination: *termination },
            ) == (Claimed {
                model: final(self)@,
                result: match claimed {
                    Ok(projection) => Ok(projection.terminal),
                    Err(error) => Err(error),
                },
            }),
    {
        proof {
            fact_laws::law_claimed_fact_is_the_one_asked_for(self@, FactClaim::TargetTermination { termination: *termination });
        }
        let termination = BrowserTargetTermination {
            browser_context_id: termination.browser_context_id.clone(),
            target_id: termination.target_id.clone(),
            previous_page: termination.previous_page.copy(),
            terminal_page: termination.terminal_page.copy(),
            kind: termination.kind,
        };
        match self.claim(FactClaim::TargetTermination { termination }) {
            Ok(terminal) => Ok(BrowserTargetTerminationFactProjection { terminal }),
            Err(error) => Err(error),
        }
    }

    /// Freezes one lifecycle fact to the attachment it came through.
    fn link_fact(
        &mut self,
        page: &PageResidenceIdentity,
        binding: &CommittedRendererDocumentBinding,
        envelope: &BrowserFactEnvelope,
    ) -> (linked: Result<(), BrowserFactProjectionError>)
        requires
            old(self).links_wf(),
            old(self)@.terminal is None,
        ensures
            final(self).links_wf(),
            final(self)@ == model::link_fact(old(self)@, *page, *binding, *envelope),
            outcome(final(self)@) == linked,
    {
        let document = match &envelope.fact {
            BrowserFact::DocumentLifecycleReached { document, .. } => *document,
            _ => {
                return Ok(());
            },
        };
        let sequence: u64 = envelope.sequence;
        if !lifecycle_fact_matches_binding(envelope, page, binding) {
            return Err(
                self.fail(
                    BrowserFactProjectionError::MismatchedDocumentLifecycleCausalLink {
                        sequence,
                        page: page.copy(),
                        document,
                    },
                ),
            );
        }
        let mut index: usize = 0;
        while index < self.pending_facts.len()
            invariant
                *self == *old(self),
                self.links_wf(),
                self@.terminal is None,
                index <= self.pending_facts@.len(),
                sequence == envelope.sequence,
                envelope.fact matches BrowserFact::DocumentLifecycleReached { document: reached, .. }
                    && reached == document,
                model::fact_matches_binding(*envelope, *page, *binding),
                model::pending_at(self@.pending, sequence, 0) == model::pending_at(
                    self@.pending,
                    sequence,
                    index as nat,
                ),
            decreases self.pending_facts@.len() - index,
        {
            if self.pending_facts[index].envelope.sequence == sequence {
                if self.pending_facts[index].document_binding.is_some() {
                    if is_frozen_to(&self.pending_facts[index].document_binding, binding) {
                        return Ok(());
                    }
                    return Err(
                        self.fail(
                            BrowserFactProjectionError::ConflictingDocumentLifecycleCausalLink {
                                sequence,
                            },
                        ),
                    );
                }
                let ghost before = self.pending_facts@;
                let pending = self.pending_facts.remove(index);
                self.pending_facts.insert(
                    index,
                    PendingBrowserFact {
                        envelope: pending.envelope,
                        document_binding: Some(binding.copy()),
                    },
                );
                assert(self.pending_facts@ =~= before.update(
                    index as int,
                    PendingBrowserFact {
                        envelope: before[index as int].envelope,
                        document_binding: Some(*binding),
                    },
                ));
                return Ok(());
            }
            index = index + 1;
        }
        let conflicting = match self.lifecycle_causal_links.get(sequence) {
            Some(previous) => Some(!previous.is_same(binding)),
            None => None,
        };
        match conflicting {
            Some(conflicting) => {
                if conflicting {
                    return Err(
                        self.fail(
                            BrowserFactProjectionError::ConflictingDocumentLifecycleCausalLink {
                                sequence,
                            },
                        ),
                    );
                }
            },
            None => {
                self.lifecycle_causal_links.insert(sequence, binding.copy());
            },
        }
        Ok(())
    }

    /// Freezes the lifecycle facts that a renderer report published to the
    /// attachment it came through, and forgets the attachments whose facts
    /// can no longer be delivered.
    pub fn register_document_lifecycle_causal_links(
        &mut self,
        page: &PageResidenceIdentity,
        binding: &CommittedRendererDocumentBinding,
        published: &Vec<BrowserFactEnvelope>,
    ) -> (registered: Result<(), BrowserFactProjectionError>)
        requires
            old(self).wf(),
        ensures
            final(self).wf(),
            final(self)@ == model::register_links(old(self)@, *page, *binding, published@),
            outcome(final(self)@) == registered,
    {
        proof {
            laws::law_register_keeps_inv(self@, *page, *binding, published@);
        }
        if let Some(error) = &self.terminal_error {
            return Err(error.copy());
        }
        let mut index: usize = 0;
        while index < published.len()
            invariant
                self.links_wf(),
                self@.terminal is None,
                index <= published@.len(),
                model::link_facts(old(self)@, *page, *binding, published@, 0) == model::link_facts(
                    self@,
                    *page,
                    *binding,
                    published@,
                    index as nat,
                ),
                model::projector_inv(
                    model::register_links(old(self)@, *page, *binding, published@),
                ),
            decreases published@.len() - index,
        {
            match self.link_fact(page, binding, &published[index]) {
                Ok(()) => {},
                Err(error) => {
                    assert(model::link_facts(
                        self@,
                        *page,
                        *binding,
                        published@,
                        (index + 1) as nat,
                    ) == self@);
                    return Err(error);
                },
            }
            index = index + 1;
        }
        if published.len() > 0 {
            let latest: u64 = published[published.len() - 1].sequence;
            let floor: u64 = latest.saturating_sub(1023);
            self.lifecycle_causal_links.keep_from(floor);
            assert(self@.links =~= model::retained_links(
                model::link_facts(old(self)@, *page, *binding, published@, 0).links,
                latest,
            ));
        }
        Ok(())
    }

    /// Claims the facts of the milestones that a frontend may show now. Facts
    /// of the same attachment that a later one overtook are dropped.
    pub fn take_visible_document_lifecycle_facts(
        &mut self,
        page: Option<&PageResidenceIdentity>,
        binding: &CommittedRendererDocumentBinding,
        visible_events: &Vec<RendererDocumentLifecycleEvent>,
    ) -> (shown: Result<
        Vec<BrowserDocumentLifecycleFactProjection>,
        BrowserFactProjectionError,
    >)
        requires
            old(self).wf(),
        ensures
            final(self).wf(),
            model::show(
                old(self)@,
                match page {
                    Some(page) => Some(*page),
                    None => None,
                },
                *binding,
                visible_events@,
            ) == (Shown {
                model: final(self)@,
                result: match shown {
                    Ok(projected) => Ok(projected@),
                    Err(error) => Err(error),
                },
            }),
    {
        proof {
            laws::law_show_keeps_inv(
                self@,
                match page {
                    Some(page) => Some(*page),
                    None => None,
                },
                *binding,
                visible_events@,
            );
        }
        let mut first: usize = 0;
        while first < visible_events.len() && !is_visible(&visible_events[first], binding)
            invariant
                first <= visible_events@.len(),
                model::first_visible(visible_events@, *binding, 0) == model::first_visible(
                    visible_events@,
                    *binding,
                    first as nat,
                ),
            decreases visible_events@.len() - first,
        {
            first = first + 1;
        }
        if first == visible_events.len() {
            return Ok(Vec::new());
        }
        let shown_page = match page {
            Some(page) => page,
            None => {
                let milestone = match visible_events[first].kind {
                    RendererDocumentLifecycleEventKind::Milestone(milestone) => milestone,
                    _ => vstd::pervasive::unreached(),
                };
                return Err(
                    self.fail(
                        BrowserFactProjectionError::NoCurrentPageForDocumentLifecycle {
                            document: binding.renderer_document_identity(),
                            milestone,
                            stamp: visible_events[first].stamp(),
                        },
                    ),
                );
            },
        };
        match self.capture_available() {
            Ok(()) => {},
            Err(error) => {
                return Err(error);
            },
        }
        let ghost captured = self@;
        let mut projected: Vec<BrowserDocumentLifecycleFactProjection> = Vec::new();
        let mut index: usize = 0;
        while index < visible_events.len()
            invariant
                self.links_wf(),
                self@.terminal is None,
                page == Some(shown_page),
                index <= visible_events@.len(),
                model::show_from(
                    captured,
                    *shown_page,
                    *binding,
                    visible_events@,
                    0,
                    Seq::empty(),
                ) == model::show_from(
                    self@,
                    *shown_page,
                    *binding,
                    visible_events@,
                    index as nat,
                    projected@,
                ),
                model::show(old(self)@, Some(*shown_page), *binding, visible_events@)
                    == model::show_from(
                    captured,
                    *shown_page,
                    *binding,
                    visible_events@,
                    0,
                    Seq::empty(),
                ),
                model::projector_inv(
                    model::show(old(self)@, Some(*shown_page), *binding, visible_events@).model,
                ),
            decreases visible_events@.len() - index,
        {
            if is_visible(&visible_events[index], binding) {
                let event = &visible_events[index];
                match self.position_of_report(shown_page, binding, event) {
                    None => {
                        let milestone = match event.kind {
                            RendererDocumentLifecycleEventKind::Milestone(milestone) => milestone,
                            _ => vstd::pervasive::unreached(),
                        };
                        return Err(
                            self.fail(
                                BrowserFactProjectionError::MissingDocumentLifecycleFact {
                                    page: shown_page.copy(),
                                    document: event.identity(),
                                    milestone,
                                    stamp: event.stamp(),
                                },
                            ),
                        );
                    },
                    Some(position) => {
                        let pending = self.pending_facts.remove(position);
                        self.drop_overtaken(shown_page, binding, pending.envelope.sequence);
                        self.record_projected(pending.envelope.sequence);
                        let frozen = match pending.document_binding {
                            Some(frozen) => frozen,
                            None => vstd::pervasive::unreached(),
                        };
                        projected.push(
                            BrowserDocumentLifecycleFactProjection {
                                envelope: pending.envelope,
                                binding: frozen,
                            },
                        );
                    },
                }
            }
            index = index + 1;
        }
        Ok(projected)
    }

    /// The first waiting fact that a visible milestone reports.
    fn position_of_report(
        &self,
        page: &PageResidenceIdentity,
        binding: &CommittedRendererDocumentBinding,
        event: &RendererDocumentLifecycleEvent,
    ) -> (position: Option<usize>)
        ensures
            match position {
                Some(position) => {
                    &&& model::first_report(self@.pending, *page, *binding, *event, 0) == Some(
                        position as nat,
                    )
                    &&& position < self@.pending.len()
                    &&& model::reports(self@.pending[position as int], *page, *binding, *event)
                },
                None => model::first_report(self@.pending, *page, *binding, *event, 0) is None,
            },
    {
        let mut index: usize = 0;
        while index < self.pending_facts.len()
            invariant
                index <= self.pending_facts@.len(),
                model::first_report(self@.pending, *page, *binding, *event, 0)
                    == model::first_report(
                    self@.pending,
                    *page,
                    *binding,
                    *event,
                    index as nat,
                ),
            decreases self.pending_facts@.len() - index,
        {
            if reports(&self.pending_facts[index], page, binding, event) {
                return Some(index);
            }
            index = index + 1;
        }
        None
    }

    /// How many lifecycle facts wait for their projection.
    pub fn pending_document_lifecycle_fact_count(&self) -> (count: usize)
        ensures
            count == model::lifecycle_facts(self@.pending).len(),
    {
        let mut count: usize = 0;
        let mut index: usize = 0;
        proof {
            assert(self.pending_facts@.take(0) =~= Seq::<PendingBrowserFact>::empty());
        }
        while index < self.pending_facts.len()
            invariant
                index <= self.pending_facts@.len(),
                count <= index,
                count == model::lifecycle_facts(self.pending_facts@.take(index as int)).len(),
            decreases self.pending_facts@.len() - index,
        {
            proof {
                assert(self.pending_facts@.take(index + 1).drop_last()
                    =~= self.pending_facts@.take(index as int));
            }
            let reached = match &self.pending_facts[index].envelope.fact {
                BrowserFact::DocumentLifecycleReached { .. } => true,
                _ => false,
            };
            if reached {
                count = count + 1;
            }
            index = index + 1;
        }
        proof {
            assert(self.pending_facts@.take(index as int) =~= self.pending_facts@);
        }
        count
    }

    /// How many facts wait for their projection.
    pub fn pending_fact_count(&self) -> (count: usize)
        ensures
            count == self@.pending.len(),
    {
        self.pending_facts.len()
    }

    /// How many attachments wait for their facts.
    pub fn lifecycle_causal_link_count(&self) -> (count: usize)
        requires
            self.wf(),
        ensures
            self@.links.dom().finite(),
            count == self@.links.dom().len(),
    {
        proof {
            self.lifecycle_causal_links.lemma_count();
        }
        self.lifecycle_causal_links.len()
    }

    /// The newest journal position projected so far.
    pub fn last_projected_sequence(&self) -> (sequence: Option<u64>)
        ensures
            sequence == self@.last_projected,
    {
        self.last_projected_sequence
    }

    /// The newest journal position read so far.
    pub fn last_observed_sequence(&self) -> (sequence: Option<u64>)
        ensures
            sequence == self@.last_observed,
    {
        self.last_observed_sequence
    }

    /// Why the cursor was lost.
    pub fn terminal_error(&self) -> (error: Option<&BrowserFactProjectionError>)
        ensures
            match error {
                Some(error) => self@.terminal == Some(*error),
                None => self@.terminal is None,
            },
    {
        self.terminal_error.as_ref()
    }
}

/// What an operation that reads facts returns.
pub open spec fn outcome(model: ProjectorModel) -> Result<(), BrowserFactProjectionError> {
    match model.terminal {
        Some(error) => Err(error),
        None => Ok(()),
    }
}

} // verus!
