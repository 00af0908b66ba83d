//! What a frontend's cursor over the Browser facts does.
use vstd::prelude::*;

use crate::facts::errors::BrowserFactProjectionError;
use crate::facts::types::{
    BrowserFact, BrowserFactEnvelope, BrowserNavigationFailure, BrowserTargetTermination,
    BrowserTargetTerminationKind, CommittedRendererDocumentBinding, DocumentNavigationToken,
    PageResidenceIdentity, RendererDocumentLifecycleEvent, RendererDocumentLifecycleEventKind,
};

verus! {

/// How many facts may wait for their projection.
pub const MAX_PENDING_BROWSER_FACTS: usize = 1024;

/// What follows the facts that were delivered.
#[derive(Clone, Copy, Debug, PartialEq, Eq, Structural)]
pub enum JournalEnd {
    /// Nothing yet.
    Empty,
    /// The journal dropped facts that the cursor had not read.
    Lagged { skipped: u64 },
    /// The journal is gone.
    Closed,
}

/// A fact that waits for its projection, with the attachment that it was
/// frozen to.
pub struct PendingBrowserFact {
    pub envelope: BrowserFactEnvelope,
    pub document_binding: Option<CommittedRendererDocumentBinding>,
}

/// A frontend's cursor.
#[verifier::ext_equal]
pub struct ProjectorModel {
    /// Whether the cursor still reads the journal.
    pub subscribed: bool,
    /// The facts delivered and not read yet.
    pub inbox: Seq<BrowserFactEnvelope>,
    pub end: JournalEnd,
    pub pending: Seq<PendingBrowserFact>,
    /// Attachments frozen to facts that were not read yet.
    pub links: Map<u64, CommittedRendererDocumentBinding>,
    pub last_observed: Option<u64>,
    pub last_projected: Option<u64>,
    pub terminal: Option<BrowserFactProjectionError>,
}

/// What holds of every cursor: few facts wait, in the order of the journal and
/// none newer than the last one read; a cursor that was lost holds nothing.
pub open spec fn projector_inv(model: ProjectorModel) -> bool {
    &&& model.pending.len() <= MAX_PENDING_BROWSER_FACTS
    &&& forall|left: int, right: int|
        0 <= left < right < model.pending.len() ==> (#[trigger] model.pending[left]).envelope.sequence
            < (#[trigger] model.pending[right]).envelope.sequence
    &&& forall|index: int|
        0 <= index < model.pending.len() ==> (model.last_observed matches Some(observed) && (
        #[trigger] model.pending[index]).envelope.sequence <= observed)
    &&& model.terminal is Some ==> !model.subscribed && model.pending.len() == 0
        && model.links == Map::<u64, CommittedRendererDocumentBinding>::empty()
    &&& !model.subscribed ==> model.inbox.len() == 0
}

/// A cursor that was lost.
pub open spec fn failed(model: ProjectorModel, error: BrowserFactProjectionError) -> ProjectorModel {
    ProjectorModel {
        subscribed: false,
        inbox: Seq::empty(),
        end: JournalEnd::Empty,
        pending: Seq::empty(),
        links: Map::empty(),
        terminal: Some(error),
        ..model
    }
}

/// The Page that a fact retires.
pub open spec fn retired_page(fact: BrowserFact) -> Option<PageResidenceIdentity> {
    match fact {
        BrowserFact::NavigationFailed { previous_page, .. } => previous_page,
        BrowserFact::NavigationCommitted { previous_page, .. } => Some(previous_page),
        BrowserFact::TargetCrashed { previous_page, .. } => Some(previous_page),
        BrowserFact::TargetClosed { previous_page, .. } => Some(previous_page),
        _ => None,
    }
}

/// Whether a waiting fact is void once `page` is retired: the creation of a
/// Target in the same place, or what was reported of exactly that Page.
pub open spec fn voided_by(pending: PendingBrowserFact, page: PageResidenceIdentity) -> bool {
    match pending.envelope.fact {
        BrowserFact::TargetCreated => pending.envelope.page_residence.same_place(&page),
        BrowserFact::TargetMetadataChanged { .. } => pending.envelope.page_residence.same(&page),
        BrowserFact::DocumentLifecycleReached { .. } => pending.envelope.page_residence.same(
            &page,
        ),
        _ => false,
    }
}

/// The waiting facts that outlive `page`.
pub open spec fn without_voided(
    pending: Seq<PendingBrowserFact>,
    page: PageResidenceIdentity,
) -> Seq<PendingBrowserFact>
    decreases pending.len(),
{
    if pending.len() == 0 {
        pending
    } else {
        let rest = without_voided(pending.drop_last(), page);
        if voided_by(pending.last(), page) {
            rest
        } else {
            rest.push(pending.last())
        }
    }
}

/// The waiting facts once `fact` was read.
pub open spec fn outlasting(pending: Seq<PendingBrowserFact>, fact: BrowserFact) -> Seq<
    PendingBrowserFact,
> {
    match retired_page(fact) {
        Some(page) => without_voided(pending, page),
        None => pending,
    }
}

/// Reads one fact.
pub open spec fn observe(model: ProjectorModel, envelope: BrowserFactEnvelope) -> ProjectorModel {
    if model.last_observed matches Some(previous) && envelope.sequence <= previous {
        failed(
            model,
            BrowserFactProjectionError::NonMonotonicSequence {
                previous: model.last_observed->Some_0,
                received: envelope.sequence,
            },
        )
    } else {
        let read = ProjectorModel { last_observed: Some(envelope.sequence), ..model };
        let kept = outlasting(model.pending, envelope.fact);
        if envelope.fact is DocumentLifecycleTerminated {
            read
        } else if kept.len() == MAX_PENDING_BROWSER_FACTS {
            failed(
                read,
                BrowserFactProjectionError::PendingBrowserFactCapacityExceeded {
                    capacity: MAX_PENDING_BROWSER_FACTS,
                },
            )
        } else if envelope.fact is DocumentLifecycleReached {
            let binding = if model.links.contains_key(envelope.sequence) {
                Some(model.links[envelope.sequence])
            } else {
                None
            };
            ProjectorModel {
                pending: kept.push(PendingBrowserFact { envelope, document_binding: binding }),
                links: model.links.remove(envelope.sequence),
                ..read
            }
        } else {
            ProjectorModel {
                pending: kept.push(PendingBrowserFact { envelope, document_binding: None }),
                ..read
            }
        }
    }
}

/// Reads all facts that were delivered.
pub open spec fn capture(model: ProjectorModel) -> ProjectorModel
    decreases model.inbox.len(),
{
    if model.terminal is Some {
        model
    } else if !model.subscribed {
        failed(model, BrowserFactProjectionError::SubscriberClosed)
    } else if model.inbox.len() > 0 {
        let rest = ProjectorModel { inbox: model.inbox.skip(1), ..model };
        let read = observe(rest, model.inbox[0]);
        if read.terminal is Some {
            read
        } else {
            capture(read)
        }
    } else {
        match model.end {
            JournalEnd::Empty => model,
            JournalEnd::Lagged { skipped } => failed(
                model,
                BrowserFactProjectionError::SubscriberLagged { skipped },
            ),
            JournalEnd::Closed => failed(model, BrowserFactProjectionError::SubscriberClosed),
        }
    }
}

/// Reads all facts that were delivered, up to a journal position that a wake
/// announced.
pub open spec fn capture_wake(model: ProjectorModel, through: u64) -> ProjectorModel {
    let captured = capture(model);
    if captured.terminal is Some {
        captured
    } else if captured.last_observed matches Some(observed) && observed >= through {
        captured
    } else {
        failed(
            captured,
            BrowserFactProjectionError::WakeSequenceNotObserved {
                wake: through,
                observed: captured.last_observed,
            },
        )
    }
}

/// The fact that a projection needs.
pub enum FactClaim {
    TargetCreated { page: PageResidenceIdentity },
    TargetMetadata { navigation: DocumentNavigationToken, page: PageResidenceIdentity },
    NavigationAdmission { navigation: DocumentNavigationToken },
    NavigationFailure { navigation: DocumentNavigationToken, failure: BrowserNavigationFailure },
    NavigationDownload { navigation: DocumentNavigationToken },
    NavigationCommit { navigation: DocumentNavigationToken, page: PageResidenceIdentity },
    TargetTermination { termination: BrowserTargetTermination },
}

/// Whether a fact is the one that `claim` needs.
pub open spec fn answers(envelope: BrowserFactEnvelope, claim: FactClaim) -> bool {
    match claim {
        FactClaim::TargetCreated { page } => {
            &&& envelope.fact is TargetCreated
            &&& envelope.page_residence.same(&page)
            &&& envelope.browser_context_id@ == page.browser_context_id@
            &&& envelope.target_id@ == target_name(page)
        },
        FactClaim::TargetMetadata { navigation, page } => {
            &&& envelope.page_residence.same(&page)
            &&& envelope.fact matches BrowserFact::TargetMetadataChanged { transition }
                && transition.navigation.same(&navigation)
        },
        FactClaim::NavigationAdmission { navigation } => envelope.fact matches BrowserFact::NavigationAccepted {
            navigation: accepted,
            ..
        } && accepted.same(&navigation),
        FactClaim::NavigationFailure { navigation, failure } => envelope.fact matches BrowserFact::NavigationFailed {
            navigation: failed,
            failure: observed,
            ..
        } && failed.same(&navigation) && observed.same(&failure),
        FactClaim::NavigationDownload { navigation } => envelope.fact matches BrowserFact::NavigationConvertedToDownload {
            navigation: downloaded,
        } && downloaded.same(&navigation),
        FactClaim::NavigationCommit { navigation, page } => {
            &&& envelope.page_residence.same(&page)
            &&& envelope.fact matches BrowserFact::NavigationCommitted { navigation: committed, .. }
                && committed.same(&navigation)
        },
        FactClaim::TargetTermination { termination } => {
            &&& envelope.target_id@ == termination.target_id@
            &&& envelope.page_residence.same(&termination.terminal_page)
            &&& match (termination.kind, envelope.fact) {
                (
                    BrowserTargetTerminationKind::Crash,
                    BrowserFact::TargetCrashed { previous_page, .. },
                ) => previous_page.same(&termination.previous_page),
                (
                    BrowserTargetTerminationKind::Close,
                    BrowserFact::TargetClosed { previous_page, .. },
                ) => previous_page.same(&termination.previous_page),
                _ => false,
            }
        },
    }
}

/// The name of a Page's Target, empty where it has none.
pub open spec fn target_name(page: PageResidenceIdentity) -> Seq<char> {
    match page.target_id {
        Some(target_id) => target_id@,
        None => Seq::empty(),
    }
}

/// What is reported when the fact that `claim` needs is not there.
pub open spec fn missing(claim: FactClaim) -> BrowserFactProjectionError {
    match claim {
        FactClaim::TargetCreated { page } => {
            BrowserFactProjectionError::MissingTargetCreationFact { page }
        },
        FactClaim::TargetMetadata { navigation, page } => {
            BrowserFactProjectionError::MissingNavigationTargetMetadataFact { navigation, page }
        },
        FactClaim::NavigationAdmission { navigation } => {
            BrowserFactProjectionError::MissingNavigationAdmissionFact { navigation }
        },
        FactClaim::NavigationFailure { navigation, failure } => {
            BrowserFactProjectionError::MissingNavigationFailureFact { navigation, failure }
        },
        FactClaim::NavigationDownload { navigation } => {
            BrowserFactProjectionError::MissingNavigationDownloadFact { navigation }
        },
        FactClaim::NavigationCommit { navigation, page } => {
            BrowserFactProjectionError::MissingNavigationCommitFact { navigation, page }
        },
        FactClaim::TargetTermination { termination } => {
            BrowserFactProjectionError::MissingTargetTerminationFact {
                target_id: termination.target_id,
                previous_page: termination.previous_page,
                terminal_page: termination.terminal_page,
                kind: termination.kind,
            }
        },
    }
}

/// The first waiting fact from `from` on that `claim` needs.
pub open spec fn first_answer(
    pending: Seq<PendingBrowserFact>,
    claim: FactClaim,
    from: nat,
) -> Option<nat>
    decreases pending.len() - from,
{
    if from >= pending.len() {
        None
    } else if answers(pending[from as int].envelope, claim) {
        Some(from)
    } else {
        first_answer(pending, claim, from + 1)
    }
}

/// The newest journal position projected so far.
pub open spec fn newest(projected: Option<u64>, sequence: u64) -> Option<u64> {
    match projected {
        Some(previous) => if previous > sequence {
            Some(previous)
        } else {
            Some(sequence)
        },
        None => Some(sequence),
    }
}

/// A cursor after a claim, and the fact that was claimed.
pub struct Claimed {
    pub model: ProjectorModel,
    pub result: Result<BrowserFactEnvelope, BrowserFactProjectionError>,
}

/// Claims the first fact that `claim` needs. A claim that cannot be met loses
/// the cursor.
pub open spec fn claim_fact(model: ProjectorModel, claim: FactClaim) -> Claimed {
    let captured = capture(model);
    match captured.terminal {
        Some(error) => Claimed { model: captured, result: Err(error) },
        None => match first_answer(captured.pending, claim, 0) {
            Some(index) => {
                let envelope = captured.pending[index as int].envelope;
                Claimed {
                    model: ProjectorModel {
                        pending: captured.pending.remove(index as int),
                        last_projected: newest(captured.last_projected, envelope.sequence),
                        ..captured
                    },
                    result: Ok(envelope),
                }
            },
            None => Claimed {
                model: failed(captured, missing(claim)),
                result: Err(missing(claim)),
            },
        },
    }
}

/// Whether a lifecycle fact is about the Document that `binding` shows, on
/// `page`.
pub open spec fn fact_matches_binding(
    envelope: BrowserFactEnvelope,
    page: PageResidenceIdentity,
    binding: CommittedRendererDocumentBinding,
) -> bool {
    &&& page.same(&envelope.page_residence)
    &&& envelope.fact matches BrowserFact::DocumentLifecycleReached { document, .. }
        && document.frame == binding.renderer_frame && document.document
        == binding.renderer_document
}

/// The first waiting fact from `from` on with that journal position.
pub open spec fn pending_at(
    pending: Seq<PendingBrowserFact>,
    sequence: u64,
    from: nat,
) -> Option<nat>
    decreases pending.len() - from,
{
    if from >= pending.len() {
        None
    } else if pending[from as int].envelope.sequence == sequence {
        Some(from)
    } else {
        pending_at(pending, sequence, from + 1)
    }
}

/// Freezes one lifecycle fact to an attachment.
pub open spec fn link_fact(
    model: ProjectorModel,
    page: PageResidenceIdentity,
    binding: CommittedRendererDocumentBinding,
    envelope: BrowserFactEnvelope,
) -> ProjectorModel {
    let conflict = BrowserFactProjectionError::ConflictingDocumentLifecycleCausalLink {
        sequence: envelope.sequence,
    };
    match envelope.fact {
        BrowserFact::DocumentLifecycleReached { document, .. } => if !fact_matches_binding(
            envelope,
            page,
            binding,
        ) {
            failed(
                model,
                BrowserFactProjectionError::MismatchedDocumentLifecycleCausalLink {
                    sequence: envelope.sequence,
                    page,
                    document,
                },
            )
        } else {
            match pending_at(model.pending, envelope.sequence, 0) {
                Some(index) => match model.pending[index as int].document_binding {
                    Some(previous) => if previous.same(&binding) {
                        model
                    } else {
                        failed(model, conflict)
                    },
                    None => ProjectorModel {
                        pending: model.pending.update(
                            index as int,
                            PendingBrowserFact {
                                envelope: model.pending[index as int].envelope,
                                document_binding: Some(binding),
                            },
                        ),
                        ..model
                    },
                },
                None => if model.links.contains_key(envelope.sequence) {
                    if model.links[envelope.sequence].same(&binding) {
                        model
                    } else {
                        failed(model, conflict)
                    }
                } else {
                    ProjectorModel {
                        links: model.links.insert(envelope.sequence, binding),
                        ..model
                    }
                },
            }
        },
        _ => model,
    }
}

/// Freezes the lifecycle facts from `from` on, until the cursor is lost.
pub open spec fn link_facts(
    model: ProjectorModel,
    page: PageResidenceIdentity,
    binding: CommittedRendererDocumentBinding,
    published: Seq<BrowserFactEnvelope>,
    from: nat,
) -> ProjectorModel
    decreases published.len() - from,
{
    if from >= published.len() || model.terminal is Some {
        model
    } else {
        link_facts(
            link_fact(model, page, binding, published[from as int]),
            page,
            binding,
            published,
            from + 1,
        )
    }
}

/// The oldest journal position that can still be delivered after `latest`.
pub open spec fn retained_floor(latest: u64) -> u64 {
    if latest >= 1023 {
        (latest - 1023) as u64
    } else {
        0
    }
}

/// The attachments that can still meet their facts after `latest`.
pub open spec fn retained_links(
    links: Map<u64, CommittedRendererDocumentBinding>,
    latest: u64,
) -> Map<u64, CommittedRendererDocumentBinding> {
    Map::new(
        |sequence: u64| links.contains_key(sequence) && sequence >= retained_floor(latest),
        |sequence: u64| links[sequence],
    )
}

/// Freezes the lifecycle facts that a renderer report published to the
/// attachment it came through.
pub open spec fn register_links(
    model: ProjectorModel,
    page: PageResidenceIdentity,
    binding: CommittedRendererDocumentBinding,
    published: Seq<BrowserFactEnvelope>,
) -> ProjectorModel {
    let linked = link_facts(model, page, binding, published, 0);
    if linked.terminal is Some || published.len() == 0 {
        linked
    } else {
        ProjectorModel {
            links: retained_links(linked.links, published.last().sequence),
            ..linked
        }
    }
}

/// Whether a renderer report is a milestone of the Document that `binding`
/// shows.
pub open spec fn visible(
    event: RendererDocumentLifecycleEvent,
    binding: CommittedRendererDocumentBinding,
) -> bool {
    &&& event.frame == binding.renderer_frame
    &&& event.document == binding.renderer_document
    &&& event.kind is Milestone
}

/// The first visible milestone from `from` on.
pub open spec fn first_visible(
    events: Seq<RendererDocumentLifecycleEvent>,
    binding: CommittedRendererDocumentBinding,
    from: nat,
) -> Option<nat>
    decreases events.len() - from,
{
    if from >= events.len() {
        None
    } else if visible(events[from as int], binding) {
        Some(from)
    } else {
        first_visible(events, binding, from + 1)
    }
}

/// Whether a waiting fact is what a visible milestone reports.
pub open spec fn reports(
    pending: PendingBrowserFact,
    page: PageResidenceIdentity,
    binding: CommittedRendererDocumentBinding,
    event: RendererDocumentLifecycleEvent,
) -> bool {
    &&& pending.envelope.page_residence.same(&page)
    &&& pending.document_binding matches Some(frozen) && frozen.same(&binding)
    &&& pending.envelope.fact matches BrowserFact::DocumentLifecycleReached {
        document,
        milestone,
        stamp,
    } && document == event.spec_identity() && event.kind
        == RendererDocumentLifecycleEventKind::Milestone(milestone) && stamp == event.spec_stamp()
}

/// The first waiting fact from `from` on that a visible milestone reports.
pub open spec fn first_report(
    pending: Seq<PendingBrowserFact>,
    page: PageResidenceIdentity,
    binding: CommittedRendererDocumentBinding,
    event: RendererDocumentLifecycleEvent,
    from: nat,
) -> Option<nat>
    decreases pending.len() - from,
{
    if from >= pending.len() {
        None
    } else if reports(pending[from as int], page, binding, event) {
        Some(from)
    } else {
        first_report(pending, page, binding, event, from + 1)
    }
}

/// Whether a waiting fact is a lifecycle fact of an attachment.
pub open spec fn of_attachment(
    pending: PendingBrowserFact,
    page: PageResidenceIdentity,
    binding: CommittedRendererDocumentBinding,
) -> bool {
    &&& pending.envelope.fact is DocumentLifecycleReached
    &&& pending.envelope.page_residence.same(&page)
    &&& pending.document_binding matches Some(frozen) && frozen.same(&binding)
}

/// Whether a waiting lifecycle fact of the same attachment is older than
/// `sequence`.
pub open spec fn overtaken(
    pending: PendingBrowserFact,
    page: PageResidenceIdentity,
    binding: CommittedRendererDocumentBinding,
    sequence: u64,
) -> bool {
    of_attachment(pending, page, binding) && pending.envelope.sequence < sequence
}

/// The waiting facts without those that `sequence` overtook.
pub open spec fn without_overtaken(
    pending: Seq<PendingBrowserFact>,
    page: PageResidenceIdentity,
    binding: CommittedRendererDocumentBinding,
    sequence: u64,
) -> Seq<PendingBrowserFact>
    decreases pending.len(),
{
    if pending.len() == 0 {
        pending
    } else {
        let rest = without_overtaken(pending.drop_last(), page, binding, sequence);
        if overtaken(pending.last(), page, binding, sequence) {
            rest
        } else {
            rest.push(pending.last())
        }
    }
}

/// The waiting lifecycle facts.
pub open spec fn lifecycle_facts(pending: Seq<PendingBrowserFact>) -> Seq<PendingBrowserFact>
    decreases pending.len(),
{
    if pending.len() == 0 {
        pending
    } else {
        let rest = lifecycle_facts(pending.drop_last());
        if pending.last().envelope.fact is DocumentLifecycleReached {
            rest.push(pending.last())
        } else {
            rest
        }
    }
}

/// A lifecycle fact that a frontend may show, with the attachment it was frozen
/// to.
pub struct BrowserDocumentLifecycleFactProjection {
    pub envelope: BrowserFactEnvelope,
    pub binding: CommittedRendererDocumentBinding,
}

/// A cursor after visible milestones were claimed, and what may be shown.
pub struct Shown {
    pub model: ProjectorModel,
    pub result: Result<Seq<BrowserDocumentLifecycleFactProjection>, BrowserFactProjectionError>,
}

/// The fact that the report `event` of `page` lacks.
pub open spec fn missing_report(
    page: PageResidenceIdentity,
    event: RendererDocumentLifecycleEvent,
) -> BrowserFactProjectionError {
    BrowserFactProjectionError::MissingDocumentLifecycleFact {
        page,
        document: event.spec_identity(),
        milestone: event.kind->Milestone_0,
        stamp: event.spec_stamp(),
    }
}

/// The cursor after the fact at `index` was claimed for a visible milestone.
pub open spec fn after_report(
    model: ProjectorModel,
    page: PageResidenceIdentity,
    binding: CommittedRendererDocumentBinding,
    index: nat,
) -> ProjectorModel {
    let sequence = model.pending[index as int].envelope.sequence;
    ProjectorModel {
        pending: without_overtaken(model.pending.remove(index as int), page, binding, sequence),
        last_projected: newest(model.last_projected, sequence),
        ..model
    }
}

/// Claims the facts of the visible milestones from `from` on.
pub open spec fn show_from(
    model: ProjectorModel,
    page: PageResidenceIdentity,
    binding: CommittedRendererDocumentBinding,
    events: Seq<RendererDocumentLifecycleEvent>,
    from: nat,
    shown: Seq<BrowserDocumentLifecycleFactProjection>,
) -> Shown
    decreases events.len() - from,
{
    if from >= events.len() {
        Shown { model, result: Ok(shown) }
    } else if !visible(events[from as int], binding) {
        show_from(model, page, binding, events, from + 1, shown)
    } else {
        match first_report(model.pending, page, binding, events[from as int], 0) {
            None => {
                let error = missing_report(page, events[from as int]);
                Shown { model: failed(model, error), result: Err(error) }
            },
            Some(index) => {
                let pending = model.pending[index as int];
                show_from(
                    after_report(model, page, binding, index),
                    page,
                    binding,
                    events,
                    from + 1,
                    shown.push(
                        BrowserDocumentLifecycleFactProjection {
                            envelope: pending.envelope,
                            binding: pending.document_binding->Some_0,
                        },
                    ),
                )
            },
        }
    }
}

/// Claims the facts of the milestones that a frontend may show.
pub open spec fn show(
    model: ProjectorModel,
    page: Option<PageResidenceIdentity>,
    binding: CommittedRendererDocumentBinding,
    events: Seq<RendererDocumentLifecycleEvent>,
) -> Shown {
    match first_visible(events, binding, 0) {
        None => Shown { model, result: Ok(Seq::empty()) },
        Some(first) => match page {
            None => {
                let error = BrowserFactProjectionError::NoCurrentPageForDocumentLifecycle {
                    document: binding.spec_identity(),
                    milestone: events[first as int].kind->Milestone_0,
                    stamp: events[first as int].spec_stamp(),
                };
                Shown { model: failed(model, error), result: Err(error) }
            },
            Some(page) => {
                let captured = capture(model);
                match captured.terminal {
                    Some(error) => Shown { model: captured, result: Err(error) },
                    None => show_from(captured, page, binding, events, 0, Seq::empty()),
                }
            },
        },
    }
}

} // verus!
