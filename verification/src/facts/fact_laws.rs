//! What the cursor over the Browser facts promises, said of the facts, the
//! Pages and the navigations themselves.
use vstd::prelude::*;

use crate::facts::errors::BrowserFactProjectionError;
use crate::facts::laws;
use crate::facts::model;
use crate::facts::model::{
    BrowserDocumentLifecycleFactProjection, FactClaim, PendingBrowserFact, ProjectorModel,
};
use crate::facts::types::{
    BrowserFact, BrowserFactEnvelope, BrowserNavigationFailure, BrowserTargetTerminationKind,
    CommittedRendererDocumentBinding, DocumentNavigationToken, PageResidenceIdentity,
    RendererDocumentLifecycleEvent, RendererDocumentLifecycleEventKind,
};
use crate::text;

verus! {

/// Whether two identities are those of one Page: in one context, of one Target,
/// in one place and with one count.
pub open spec fn one_page(left: PageResidenceIdentity, right: PageResidenceIdentity) -> bool {
    &&& left.browser_context_id@ == right.browser_context_id@
    &&& left.target_id is Some <==> right.target_id is Some
    &&& left.target_id is Some ==> left.target_id->Some_0@ == right.target_id->Some_0@
    &&& left.residence.instance == right.residence.instance
    &&& left.residence.generation == right.residence.generation
}

/// Whether two tokens are those of one navigation: of one Target, with one
/// loader and one request.
pub open spec fn one_navigation(
    left: DocumentNavigationToken,
    right: DocumentNavigationToken,
) -> bool {
    &&& left.target_id@ == right.target_id@
    &&& left.loader_id@ == right.loader_id@
    &&& left.request == right.request
}

/// Whether two failures are of one kind and read the same.
pub open spec fn one_failure(
    left: BrowserNavigationFailure,
    right: BrowserNavigationFailure,
) -> bool {
    ||| left is Network && right is Network && left->Network_error_text@
        == right->Network_error_text@
    ||| left is Canceled && right is Canceled && left->Canceled_error_text@
        == right->Canceled_error_text@
}

/// Whether two attachments show one Document of one navigation, in one frame and
/// by one attachment.
pub open spec fn one_attachment(
    left: CommittedRendererDocumentBinding,
    right: CommittedRendererDocumentBinding,
) -> bool {
    &&& left.renderer_frame == right.renderer_frame
    &&& left.renderer_document == right.renderer_document
    &&& left.renderer_epoch == right.renderer_epoch
    &&& left.navigation is Some <==> right.navigation is Some
    &&& left.navigation is Some ==> one_navigation(
        left.navigation->Some_0,
        right.navigation->Some_0,
    )
    &&& left.frame_id@ == right.frame_id@
    &&& left.loader_id@ == right.loader_id@
    &&& left.page_attachment_id == right.page_attachment_id
    &&& left.document_open_replacement_epoch == right.document_open_replacement_epoch
}

/// Pages, navigations, failures and attachments are told apart by all that they
/// hold.
pub proof fn law_identities_differ_in_any_part(
    pages: (PageResidenceIdentity, PageResidenceIdentity),
    navigations: (DocumentNavigationToken, DocumentNavigationToken),
    failures: (BrowserNavigationFailure, BrowserNavigationFailure),
    attachments: (CommittedRendererDocumentBinding, CommittedRendererDocumentBinding),
)
    ensures
        pages.0.same(&pages.1) == one_page(pages.0, pages.1),
        pages.0.same_place(&pages.1) == (pages.0.residence.instance == pages.1.residence.instance),
        navigations.0.same(&navigations.1) == one_navigation(navigations.0, navigations.1),
        failures.0.same(&failures.1) == one_failure(failures.0, failures.1),
        attachments.0.same(&attachments.1) == one_attachment(attachments.0, attachments.1),
{
}

/// A claim that is met gives the fact that was asked for, as its own fields say:
/// - the creation of exactly that Page, told of its context and its Target;
/// - the change of what a Target shows, by that navigation and on that Page;
/// - the admission of that navigation;
/// - the failure of that navigation, with that error;
/// - the turn of that navigation into a download;
/// - the commit of that navigation to that Page;
/// - the end of that Target, from that Page to that Page, by a crash or by a
///   close as asked.
pub proof fn law_claimed_fact_is_the_one_asked_for(model: ProjectorModel, claim: FactClaim)
    ensures
        model::claim_fact(model, claim).result matches Ok(envelope) ==> match claim {
            FactClaim::TargetCreated { page } => {
                &&& envelope.fact is TargetCreated
                &&& one_page(envelope.page_residence, page)
                &&& envelope.browser_context_id@ == page.browser_context_id@
                &&& page.target_id matches Some(target_id) ==> envelope.target_id@ == target_id@
                &&& page.target_id is None ==> envelope.target_id@.len() == 0
            },
            FactClaim::TargetMetadata { navigation, page } => {
                &&& envelope.fact is TargetMetadataChanged
                &&& one_page(envelope.page_residence, page)
                &&& one_navigation(
                    envelope.fact->TargetMetadataChanged_transition.navigation,
                    navigation,
                )
            },
            FactClaim::NavigationAdmission { navigation } => {
                &&& envelope.fact is NavigationAccepted
                &&& one_navigation(envelope.fact->NavigationAccepted_navigation, navigation)
            },
            FactClaim::NavigationFailure { navigation, failure } => {
                &&& envelope.fact is NavigationFailed
                &&& one_navigation(envelope.fact->NavigationFailed_navigation, navigation)
                &&& one_failure(envelope.fact->NavigationFailed_failure, failure)
            },
            FactClaim::NavigationDownload { navigation } => {
                &&& envelope.fact is NavigationConvertedToDownload
                &&& one_navigation(
                    envelope.fact->NavigationConvertedToDownload_navigation,
                    navigation,
                )
            },
            FactClaim::NavigationCommit { navigation, page } => {
                &&& envelope.fact is NavigationCommitted
                &&& one_page(envelope.page_residence, page)
                &&& one_navigation(envelope.fact->NavigationCommitted_navigation, navigation)
            },
            FactClaim::TargetTermination { termination } => {
                &&& envelope.target_id@ == termination.target_id@
                &&& one_page(envelope.page_residence, termination.terminal_page)
                &&& termination.kind == BrowserTargetTerminationKind::Crash ==> envelope.fact
                    is TargetCrashed && one_page(
                    envelope.fact->TargetCrashed_previous_page,
                    termination.previous_page,
                )
                &&& termination.kind == BrowserTargetTerminationKind::Close ==> envelope.fact
                    is TargetClosed && one_page(
                    envelope.fact->TargetClosed_previous_page,
                    termination.previous_page,
                )
            },
        },
{
    laws::lemma_first_answer(model::capture(model).pending, claim, 0);
}

/// A fact that waits can be claimed, by naming what it says: the claim is then
/// met, with that fact or with an older one.
pub proof fn law_waiting_fact_can_be_claimed(model: ProjectorModel, claim: FactClaim, at: int)
    requires
        model::projector_inv(model),
        model::capture(model).terminal is None,
        0 <= at < model::capture(model).pending.len(),
        ({
            let envelope = model::capture(model).pending[at].envelope;
            match (envelope.fact, claim) {
                (BrowserFact::TargetCreated, FactClaim::TargetCreated { page }) => {
                    &&& one_page(envelope.page_residence, page)
                    &&& envelope.browser_context_id@ == page.browser_context_id@
                    &&& page.target_id matches Some(target_id) ==> envelope.target_id@ == target_id@
                    &&& page.target_id is None ==> envelope.target_id@.len() == 0
                },
                (
                    BrowserFact::TargetMetadataChanged { transition },
                    FactClaim::TargetMetadata { navigation, page },
                ) => one_page(envelope.page_residence, page) && one_navigation(
                    transition.navigation,
                    navigation,
                ),
                (
                    BrowserFact::NavigationAccepted { navigation: accepted, .. },
                    FactClaim::NavigationAdmission { navigation },
                ) => one_navigation(accepted, navigation),
                (
                    BrowserFact::NavigationFailed { navigation: failed, failure: reason, .. },
                    FactClaim::NavigationFailure { navigation, failure },
                ) => one_navigation(failed, navigation) && one_failure(reason, failure),
                (
                    BrowserFact::NavigationConvertedToDownload { navigation: turned },
                    FactClaim::NavigationDownload { navigation },
                ) => one_navigation(turned, navigation),
                (
                    BrowserFact::NavigationCommitted { navigation: committed, .. },
                    FactClaim::NavigationCommit { navigation, page },
                ) => one_page(envelope.page_residence, page) && one_navigation(
                    committed,
                    navigation,
                ),
                (
                    BrowserFact::TargetCrashed { previous_page, .. },
                    FactClaim::TargetTermination { termination },
                ) => {
                    &&& termination.kind == BrowserTargetTerminationKind::Crash
                    &&& envelope.target_id@ == termination.target_id@
                    &&& one_page(envelope.page_residence, termination.terminal_page)
                    &&& one_page(previous_page, termination.previous_page)
                },
                (
                    BrowserFact::TargetClosed { previous_page, .. },
                    FactClaim::TargetTermination { termination },
                ) => {
                    &&& termination.kind == BrowserTargetTerminationKind::Close
                    &&& envelope.target_id@ == termination.target_id@
                    &&& one_page(envelope.page_residence, termination.terminal_page)
                    &&& one_page(previous_page, termination.previous_page)
                },
                _ => false,
            }
        }),
    ensures
        model::claim_fact(model, claim).result matches Ok(envelope) && envelope.sequence
            <= model::capture(model).pending[at].envelope.sequence,
{
    let waiting = model::capture(model).pending;
    laws::law_capture_keeps_inv(model);
    laws::lemma_first_answer(waiting, claim, 0);
    let envelope = waiting[at].envelope;
    if let FactClaim::TargetCreated { page } = claim {
        if page.target_id is None {
            assert(envelope.target_id@ =~= Seq::<char>::empty());
        }
    }
    assert(model::answers(envelope, claim));
    let first = model::first_answer(waiting, claim, 0)->Some_0;
    if at < first {
        assert(!model::answers(waiting[at].envelope, claim));
    }
}

/// A claim takes one waiting fact and leaves all others as they were, in their
/// order. It can only take what was delivered and read.
pub proof fn law_claim_leaves_other_facts(model: ProjectorModel, claim: FactClaim)
    ensures
        model::claim_fact(model, claim).result matches Ok(envelope) ==> ({
            let before = model::capture(model);
            let after = model::claim_fact(model, claim).model;
            &&& exists|at: int|
                0 <= at < before.pending.len() && (#[trigger] before.pending[at]).envelope
                    == envelope && after.pending == before.pending.remove(at)
            &&& after.last_observed == before.last_observed
            &&& after.links == before.links
            &&& after.terminal is None
            &&& after.last_projected is Some
            &&& after.last_projected->Some_0 >= envelope.sequence
            &&& after.last_projected->Some_0 == envelope.sequence || after.last_projected
                == before.last_projected
            &&& before.last_projected matches Some(previous) ==> previous
                <= after.last_projected->Some_0
        }),
{
    let before = model::capture(model);
    laws::lemma_first_answer(before.pending, claim, 0);
    if let Ok(envelope) = model::claim_fact(model, claim).result {
        let at = model::first_answer(before.pending, claim, 0)->Some_0 as int;
        assert(before.pending[at].envelope == envelope);
    }
}

/// A claim that cannot be met says what was missing, by naming exactly what was
/// asked for, and the cursor is lost. Where the cursor is lost already, it says
/// why that was.
pub proof fn law_unmet_claim_names_what_is_missing(model: ProjectorModel, claim: FactClaim)
    ensures
        model::claim_fact(model, claim).result matches Err(error) ==> ({
            let before = model::capture(model);
            let after = model::claim_fact(model, claim).model;
            &&& after.terminal == Some(error)
            &&& before.terminal matches Some(reason) ==> error == reason
            &&& before.terminal is None ==> after.pending.len() == 0 && !after.subscribed && error
                == match claim {
                FactClaim::TargetCreated { page } => {
                    BrowserFactProjectionError::MissingTargetCreationFact { page }
                },
                FactClaim::TargetMetadata { navigation, page } => {
                    BrowserFactProjectionError::MissingNavigationTargetMetadataFact {
                        navigation,
                        page,
                    }
                },
                FactClaim::NavigationAdmission { navigation } => {
                    BrowserFactProjectionError::MissingNavigationAdmissionFact { navigation }
                },
                FactClaim::NavigationFailure { navigation, failure } => {
                    BrowserFactProjectionError::MissingNavigationFailureFact { navigation, failure }
                },
                FactClaim::NavigationDownload { navigation } => {
                    BrowserFactProjectionError::MissingNavigationDownloadFact { navigation }
                },
                FactClaim::NavigationCommit { navigation, page } => {
                    BrowserFactProjectionError::MissingNavigationCommitFact { navigation, page }
                },
                FactClaim::TargetTermination { termination } => {
                    BrowserFactProjectionError::MissingTargetTerminationFact {
                        target_id: termination.target_id,
                        previous_page: termination.previous_page,
                        terminal_page: termination.terminal_page,
                        kind: termination.kind,
                    }
                },
            }
        }),
        model::capture(model).terminal is Some ==> model::claim_fact(model, claim).result is Err,
{
}

/// Whether a waiting fact ends with a Page: the creation of a Target in the
/// same place, or what was told of exactly that Page (a change of what it shows,
/// or a milestone).
pub open spec fn ends_with(pending: PendingBrowserFact, page: PageResidenceIdentity) -> bool {
    let envelope = pending.envelope;
    ||| envelope.fact is TargetCreated && envelope.page_residence.residence.instance
        == page.residence.instance
    ||| envelope.fact is TargetMetadataChanged && one_page(envelope.page_residence, page)
    ||| envelope.fact is DocumentLifecycleReached && one_page(envelope.page_residence, page)
}

proof fn lemma_outlasting(pending: Seq<PendingBrowserFact>, page: PageResidenceIdentity)
    ensures
        model::without_voided(pending, page) == pending.filter(
            |waiting: PendingBrowserFact| !ends_with(waiting, page),
        ),
    decreases pending.len(),
{
    reveal(Seq::filter);
    let stays = |waiting: PendingBrowserFact| !ends_with(waiting, page);
    if pending.len() > 0 {
        lemma_outlasting(pending.drop_last(), page);
        assert(model::voided_by(pending.last(), page) == ends_with(pending.last(), page));
    } else {
        assert(pending.filter(stays) =~= pending);
    }
}

/// Reading a fact makes it wait, behind all that waits. A failed or committed
/// navigation, a crash and a close take with them what ends with the Page that
/// they replace, and nothing else; every other fact takes nothing. The end of a
/// Document's lifecycle is read and does not wait.
pub proof fn law_read_fact_waits(model: ProjectorModel, envelope: BrowserFactEnvelope)
    requires
        model::projector_inv(model),
        model.terminal is None,
        model.last_observed matches Some(previous) ==> previous < envelope.sequence,
        model.pending.len() < model::MAX_PENDING_BROWSER_FACTS,
    ensures
        ({
            let after = model::observe(model, envelope);
            let replaced = match envelope.fact {
                BrowserFact::NavigationFailed { previous_page, .. } => previous_page,
                BrowserFact::NavigationCommitted { previous_page, .. } => Some(previous_page),
                BrowserFact::TargetCrashed { previous_page, .. } => Some(previous_page),
                BrowserFact::TargetClosed { previous_page, .. } => Some(previous_page),
                _ => None,
            };
            let kept = match replaced {
                Some(page) => model.pending.filter(
                    |waiting: PendingBrowserFact| !ends_with(waiting, page),
                ),
                None => model.pending,
            };
            &&& after.terminal is None
            &&& after.last_observed == Some(envelope.sequence)
            &&& envelope.fact is DocumentLifecycleTerminated ==> after.pending == model.pending
                && after.links == model.links
            &&& !(envelope.fact is DocumentLifecycleTerminated) ==> {
                &&& after.pending.drop_last() == kept
                &&& after.pending.len() == kept.len() + 1
                &&& after.pending.last().envelope == envelope
                &&& envelope.fact is DocumentLifecycleReached && model.links.contains_key(
                    envelope.sequence,
                ) ==> after.pending.last().document_binding == Some(model.links[envelope.sequence])
                    && after.links == model.links.remove(envelope.sequence)
                &&& !(envelope.fact is DocumentLifecycleReached && model.links.contains_key(
                    envelope.sequence,
                )) ==> after.pending.last().document_binding is None && after.links == model.links
            }
        }),
{
    let after = model::observe(model, envelope);
    if let Some(page) = model::retired_page(envelope.fact) {
        lemma_outlasting(model.pending, page);
        laws::lemma_without_voided_thins(model.pending, page);
    }
    let kept = model::outlasting(model.pending, envelope.fact);
    if !(envelope.fact is DocumentLifecycleTerminated) {
        assert(after.pending.drop_last() =~= kept);
    }
    if envelope.fact is DocumentLifecycleReached && !model.links.contains_key(envelope.sequence) {
        assert(after.links =~= model.links);
    }
}

/// A fact that is not newer than all that were read, and one more than may wait,
/// loses the cursor, with the reason.
pub proof fn law_bad_fact_loses_the_cursor(model: ProjectorModel, envelope: BrowserFactEnvelope)
    ensures
        ({
            let after = model::observe(model, envelope);
            &&& model.last_observed matches Some(previous) ==> (envelope.sequence <= previous
                ==> after.terminal == Some(
                BrowserFactProjectionError::NonMonotonicSequence {
                    previous,
                    received: envelope.sequence,
                },
            ))
            &&& (model.last_observed is None || model.last_observed->Some_0 < envelope.sequence)
                && model.pending.len() == 1024 && (envelope.fact is TargetCreated || envelope.fact
                is TargetMetadataChanged || envelope.fact is NavigationAccepted || envelope.fact
                is NavigationConvertedToDownload || envelope.fact is DocumentLifecycleReached)
                ==> after.terminal == Some(
                BrowserFactProjectionError::PendingBrowserFactCapacityExceeded { capacity: 1024 },
            )
            &&& after.terminal != model.terminal ==> after.pending.len() == 0 && !after.subscribed
                && after.inbox.len() == 0
        }),
{
}

/// Reading takes the delivered facts in their order, each once, and ends with
/// what the journal says: nothing more, a gap, or its end. A wake that announced
/// more than was read loses the cursor.
pub proof fn law_reading_takes_facts_in_order(model: ProjectorModel, through: u64)
    requires
        model.terminal is None,
        model.subscribed,
    ensures
        model.inbox.len() == 0 && model.end is Empty ==> model::capture(model) == model,
        model.inbox.len() == 0 && model.end is Closed ==> model::capture(model).terminal == Some(
            BrowserFactProjectionError::SubscriberClosed,
        ),
        model.inbox.len() == 0 ==> (model.end matches model::JournalEnd::Lagged { skipped }
            ==> model::capture(model).terminal == Some(
            BrowserFactProjectionError::SubscriberLagged { skipped },
        )),
        model.inbox.len() > 0 ==> ({
            let read = model::observe(
                ProjectorModel { inbox: model.inbox.skip(1), ..model },
                model.inbox[0],
            );
            &&& read.terminal is None ==> model::capture(model) == model::capture(read)
            &&& read.terminal is Some ==> model::capture(model) == read
        }),
        ({
            let read = model::capture(model);
            let woken = model::capture_wake(model, through);
            &&& read.terminal is Some ==> woken == read
            &&& read.terminal is None && read.last_observed is Some && read.last_observed->Some_0
                >= through ==> woken == read
            &&& read.terminal is None && !(read.last_observed is Some
                && read.last_observed->Some_0 >= through) ==> woken.terminal == Some(
                BrowserFactProjectionError::WakeSequenceNotObserved {
                    wake: through,
                    observed: read.last_observed,
                },
            )
        }),
{
}

/// The renderer reports that a frontend may show: milestones of the Document
/// that an attachment shows.
pub open spec fn of_document(binding: CommittedRendererDocumentBinding) -> spec_fn(
    RendererDocumentLifecycleEvent,
) -> bool {
    |event: RendererDocumentLifecycleEvent|
        event.frame == binding.renderer_frame && event.document == binding.renderer_document
            && event.kind is Milestone
}

/// Whether a fact to show is what a renderer report said: the same Document, the
/// same milestone, the same stamp, on that Page and through that attachment.
pub open spec fn says(
    shown: BrowserDocumentLifecycleFactProjection,
    event: RendererDocumentLifecycleEvent,
    page: PageResidenceIdentity,
    binding: CommittedRendererDocumentBinding,
) -> bool {
    &&& shown.envelope.fact matches BrowserFact::DocumentLifecycleReached {
        document,
        milestone,
        stamp,
    } && document.frame == event.frame && document.document == event.document && document.epoch
        == event.epoch && event.kind == RendererDocumentLifecycleEventKind::Milestone(milestone)
        && stamp.sequence == event.sequence && stamp.timestamp_micros == event.timestamp_micros
    &&& one_page(shown.envelope.page_residence, page)
    &&& one_attachment(shown.binding, binding)
}

proof fn lemma_shown_are_reported(
    model: ProjectorModel,
    page: PageResidenceIdentity,
    binding: CommittedRendererDocumentBinding,
    events: Seq<RendererDocumentLifecycleEvent>,
    from: nat,
    shown: Seq<BrowserDocumentLifecycleFactProjection>,
)
    requires
        from <= events.len(),
    ensures
        model::show_from(model, page, binding, events, from, shown).result matches Ok(all) ==> ({
            let reports = events.skip(from as int).filter(of_document(binding));
            &&& all.len() == shown.len() + reports.len()
            &&& forall|at: int| 0 <= at < shown.len() ==> all[at] == #[trigger] shown[at]
            &&& forall|at: int|
                0 <= at < reports.len() ==> says(
                    all[shown.len() + at],
                    #[trigger] reports[at],
                    page,
                    binding,
                )
        }),
    decreases events.len() - from,
{
    let pred = of_document(binding);
    let reports = events.skip(from as int).filter(pred);
    if from >= events.len() {
        reveal(Seq::filter);
        assert(events.skip(from as int) =~= Seq::empty());
    } else {
        let event = events[from as int];
        let tail = events.skip((from + 1) as int);
        assert(events.skip(from as int) =~= seq![event] + tail);
        Seq::filter_distributes_over_add(seq![event], tail, pred);
        assert(seq![event].filter(pred) =~= if pred(event) {
            seq![event]
        } else {
            Seq::empty()
        }) by {
            reveal(Seq::filter);
            assert(seq![event].drop_last() =~= Seq::empty());
            assert(seq![event].last() == event);
            assert(Seq::<RendererDocumentLifecycleEvent>::empty().filter(pred) =~= Seq::empty());
        }
        if !model::visible(event, binding) {
            assert(Seq::<RendererDocumentLifecycleEvent>::empty() + tail.filter(pred)
                =~= tail.filter(pred));
            lemma_shown_are_reported(model, page, binding, events, from + 1, shown);
        } else {
            laws::lemma_first_report(model.pending, page, binding, event, 0);
            if let Some(index) = model::first_report(model.pending, page, binding, event, 0) {
                let pending = model.pending[index as int];
                let one = BrowserDocumentLifecycleFactProjection {
                    envelope: pending.envelope,
                    binding: pending.document_binding->Some_0,
                };
                let more = shown.push(one);
                lemma_shown_are_reported(
                    model::after_report(model, page, binding, index),
                    page,
                    binding,
                    events,
                    from + 1,
                    more,
                );
                assert(says(one, event, page, binding));
                if let Ok(all) = model::show_from(
                    model,
                    page,
                    binding,
                    events,
                    from,
                    shown,
                ).result {
                    let rest = tail.filter(pred);
                    assert(all[shown.len() as int] == more[shown.len() as int]);
                    assert forall|at: int| 0 <= at < shown.len() implies all[at]
                        == #[trigger] shown[at] by {
                        assert(more[at] == shown[at]);
                    }
                    assert forall|at: int| 0 <= at < reports.len() implies says(
                        all[shown.len() + at],
                        #[trigger] reports[at],
                        page,
                        binding,
                    ) by {
                        if at == 0 {
                            assert(reports[0] == event);
                        } else {
                            assert(reports[at] == rest[at - 1]);
                            assert(says(all[more.len() + (at - 1)], rest[at - 1], page, binding));
                        }
                    }
                }
            }
        }
    }
}

/// What may be shown is, one for one and in their order, the milestones of the
/// Document among the renderer reports: each with the fact that says the same of
/// the same Page, through the same attachment.
pub proof fn law_shown_facts_are_those_reported(
    model: ProjectorModel,
    page: PageResidenceIdentity,
    binding: CommittedRendererDocumentBinding,
    events: Seq<RendererDocumentLifecycleEvent>,
)
    ensures
        model::show(model, Some(page), binding, events).result matches Ok(shown) ==> ({
            let reports = events.filter(of_document(binding));
            &&& shown.len() == reports.len()
            &&& forall|at: int|
                0 <= at < shown.len() ==> says(#[trigger] shown[at], reports[at], page, binding)
        }),
{
    let captured = model::capture(model);
    assert(events.skip(0) =~= events);
    lemma_shown_are_reported(captured, page, binding, events, 0, Seq::empty());
    lemma_none_visible(events, binding, 0);
    if let Ok(shown) = model::show(model, Some(page), binding, events).result {
        let reports = events.filter(of_document(binding));
        assert forall|at: int| 0 <= at < shown.len() implies says(
            #[trigger] shown[at],
            reports[at],
            page,
            binding,
        ) by {
            assert(says(shown[0 + at], reports[at], page, binding));
        }
    }
}

proof fn lemma_none_visible(
    events: Seq<RendererDocumentLifecycleEvent>,
    binding: CommittedRendererDocumentBinding,
    from: nat,
)
    requires
        from <= events.len(),
    ensures
        model::first_visible(events, binding, from) is None ==> events.skip(from as int).filter(
            of_document(binding),
        ).len() == 0,
        model::first_visible(events, binding, from) matches Some(first) ==> {
            &&& from <= first < events.len()
            &&& of_document(binding)(events[first as int])
            &&& forall|at: int|
                from <= at < first ==> !of_document(binding)(#[trigger] events[at])
        },
    decreases events.len() - from,
{
    let pred = of_document(binding);
    reveal(Seq::filter);
    if from >= events.len() {
        assert(events.skip(from as int) =~= Seq::empty());
    } else if !model::visible(events[from as int], binding) {
        let event = events[from as int];
        let tail = events.skip((from + 1) as int);
        lemma_none_visible(events, binding, from + 1);
        assert(events.skip(from as int) =~= seq![event] + tail);
        Seq::filter_distributes_over_add(seq![event], tail, pred);
        assert(!pred(event));
        assert(seq![event].filter(pred) =~= Seq::empty()) by {
            assert(seq![event].drop_last() =~= Seq::empty());
            assert(seq![event].last() == event);
            assert(Seq::<RendererDocumentLifecycleEvent>::empty().filter(pred) =~= Seq::empty());
        }
    }
}

/// Without a Page nothing can be shown: a milestone that could be loses the
/// cursor, and without one nothing happens.
pub proof fn law_nothing_is_shown_without_a_page(
    model: ProjectorModel,
    binding: CommittedRendererDocumentBinding,
    events: Seq<RendererDocumentLifecycleEvent>,
)
    ensures
        ({
            let shown = model::show(model, None, binding, events);
            &&& (forall|at: int| 0 <= at < events.len() ==> !of_document(binding)(#[trigger] events[at]))
                ==> shown.model == model && (shown.result matches Ok(facts) && facts.len() == 0)
            &&& (exists|at: int| 0 <= at < events.len() && of_document(binding)(#[trigger] events[at]))
                ==> shown.result is Err && shown.result->Err_0
                is NoCurrentPageForDocumentLifecycle && shown.model.terminal == Some(
                shown.result->Err_0,
            ) && shown.model.pending.len() == 0
        }),
{
    lemma_none_visible(events, binding, 0);
    let pred = of_document(binding);
    if model::first_visible(events, binding, 0) is None {
        assert(events.skip(0) =~= events);
        if exists|at: int| 0 <= at < events.len() && pred(#[trigger] events[at]) {
            let at = choose|at: int| 0 <= at < events.len() && pred(#[trigger] events[at]);
            events.filter_lemma(pred);
            assert(events.filter(pred).contains(events[at]));
        }
    }
}

/// A lifecycle fact is frozen only to an attachment of the same Document, on the
/// same Page, and to one attachment only. A fact that waits carries it from then
/// on; one that was not read yet finds it when it is. Nothing else changes.
pub proof fn law_lifecycle_fact_is_frozen_once(
    model: ProjectorModel,
    page: PageResidenceIdentity,
    binding: CommittedRendererDocumentBinding,
    envelope: BrowserFactEnvelope,
    at: int,
)
    requires
        model::projector_inv(model),
        model.terminal is None,
        envelope.fact is DocumentLifecycleReached,
    ensures
        ({
            let after = model::link_fact(model, page, binding, envelope);
            let document = envelope.fact->DocumentLifecycleReached_document;
            let fits = one_page(envelope.page_residence, page) && document.frame
                == binding.renderer_frame && document.document == binding.renderer_document;
            let waits = 0 <= at < model.pending.len() && model.pending[at].envelope.sequence
                == envelope.sequence;
            let frozen = if waits {
                model.pending[at].document_binding
            } else if model.links.contains_key(envelope.sequence) {
                Some(model.links[envelope.sequence])
            } else {
                None
            };
            let waits_nowhere = forall|index: int|
                0 <= index < model.pending.len() ==> (
                #[trigger] model.pending[index]).envelope.sequence != envelope.sequence;
            &&& !fits ==> after.terminal == Some(
                BrowserFactProjectionError::MismatchedDocumentLifecycleCausalLink {
                    sequence: envelope.sequence,
                    page,
                    document,
                },
            )
            &&& fits && (waits || waits_nowhere) ==> {
                &&& frozen matches Some(previous) ==> {
                    &&& one_attachment(previous, binding) ==> after == model
                    &&& !one_attachment(previous, binding) ==> after.terminal == Some(
                        BrowserFactProjectionError::ConflictingDocumentLifecycleCausalLink {
                            sequence: envelope.sequence,
                        },
                    )
                }
                &&& frozen is None && waits ==> {
                    &&& after.pending.len() == model.pending.len()
                    &&& after.pending[at].envelope == model.pending[at].envelope
                    &&& after.pending[at].document_binding == Some(binding)
                    &&& forall|index: int|
                        0 <= index < model.pending.len() && index != at ==> after.pending[index]
                            == #[trigger] model.pending[index]
                    &&& after.links == model.links
                    &&& after.terminal is None
                }
                &&& frozen is None && !waits ==> {
                    &&& after.pending == model.pending
                    &&& after.links == model.links.insert(envelope.sequence, binding)
                    &&& after.terminal is None
                }
            }
        }),
{
    laws::lemma_pending_at(model.pending, envelope.sequence, 0);
    lemma_pending_at_finds(model.pending, envelope.sequence, 0);
    if let Some(index) = model::pending_at(model.pending, envelope.sequence, 0) {
        if 0 <= at < model.pending.len() && at != index {
            assert(model.pending[at].envelope.sequence != model.pending[index as int].envelope.sequence);
        }
    }
}

proof fn lemma_pending_at_finds(pending: Seq<PendingBrowserFact>, sequence: u64, from: nat)
    ensures
        model::pending_at(pending, sequence, from) is None ==> forall|index: int|
            from <= index < pending.len() ==> (#[trigger] pending[index]).envelope.sequence
                != sequence,
    decreases pending.len() - from,
{
    if from < pending.len() && pending[from as int].envelope.sequence != sequence {
        lemma_pending_at_finds(pending, sequence, from + 1);
    }
}

/// An attachment that was frozen to a fact that was not read yet is kept as long
/// as the journal can still deliver that fact: within the last 1024 positions
/// up to the newest one that the report published.
pub proof fn law_frozen_attachments_are_kept_while_needed(
    model: ProjectorModel,
    page: PageResidenceIdentity,
    binding: CommittedRendererDocumentBinding,
    published: Seq<BrowserFactEnvelope>,
    sequence: u64,
)
    requires
        model::link_facts(model, page, binding, published, 0).terminal is None,
        published.len() > 0,
    ensures
        ({
            let linked = model::link_facts(model, page, binding, published, 0);
            let after = model::register_links(model, page, binding, published);
            &&& after.pending == linked.pending
            &&& after.links.contains_key(sequence) <==> linked.links.contains_key(sequence)
                && sequence + 1024 > published.last().sequence
            &&& after.links.contains_key(sequence) ==> after.links[sequence]
                == linked.links[sequence]
        }),
{
}

/// Whether a waiting fact is a milestone of one Page that was frozen to one
/// attachment, and is older than another.
pub open spec fn older_of_attachment(
    page: PageResidenceIdentity,
    binding: CommittedRendererDocumentBinding,
    sequence: u64,
) -> spec_fn(PendingBrowserFact) -> bool {
    |pending: PendingBrowserFact|
        {
            &&& pending.envelope.fact is DocumentLifecycleReached
            &&& one_page(pending.envelope.page_residence, page)
            &&& pending.document_binding is Some
            &&& one_attachment(pending.document_binding->Some_0, binding)
            &&& pending.envelope.sequence < sequence
        }
}

/// Whether a waiting fact is none of these.
pub open spec fn not_older_of_attachment(
    page: PageResidenceIdentity,
    binding: CommittedRendererDocumentBinding,
    sequence: u64,
) -> spec_fn(PendingBrowserFact) -> bool {
    |pending: PendingBrowserFact| !older_of_attachment(page, binding, sequence)(pending)
}

proof fn lemma_older_dropped(
    pending: Seq<PendingBrowserFact>,
    page: PageResidenceIdentity,
    binding: CommittedRendererDocumentBinding,
    sequence: u64,
)
    ensures
        model::without_overtaken(pending, page, binding, sequence) == pending.filter(
            not_older_of_attachment(page, binding, sequence),
        ),
    decreases pending.len(),
{
    reveal(Seq::filter);
    if pending.len() == 0 {
        assert(pending.filter(not_older_of_attachment(page, binding, sequence)) =~= pending);
    } else {
        lemma_older_dropped(pending.drop_last(), page, binding, sequence);
        assert(model::overtaken(pending.last(), page, binding, sequence) == older_of_attachment(
            page,
            binding,
            sequence,
        )(pending.last()));
    }
}

/// A milestone that is shown no longer waits, and neither do the older ones of
/// the same Page and attachment. Those of another, those that are as new, and
/// all other facts wait on, in order.
pub proof fn law_shown_milestone_overtakes_older_ones(
    cursor: ProjectorModel,
    page: PageResidenceIdentity,
    binding: CommittedRendererDocumentBinding,
    index: nat,
)
    requires
        index < cursor.pending.len(),
    ensures
        ({
            let after = model::after_report(cursor, page, binding, index);
            let sequence = cursor.pending[index as int].envelope.sequence;
            &&& after.pending == cursor.pending.remove(index as int).filter(
                not_older_of_attachment(page, binding, sequence),
            )
            &&& after.last_projected is Some && after.last_projected->Some_0 >= sequence
            &&& after.last_projected->Some_0 == sequence || after.last_projected
                == cursor.last_projected
            &&& after.links == cursor.links && after.terminal == cursor.terminal
                && after.inbox == cursor.inbox
        }),
{
    lemma_older_dropped(
        cursor.pending.remove(index as int),
        page,
        binding,
        cursor.pending[index as int].envelope.sequence,
    );
}

/// The milestones that wait are told in order, and nothing else with them.
pub proof fn law_waiting_milestones_are_told(pending: Seq<PendingBrowserFact>)
    ensures
        model::lifecycle_facts(pending) == pending.filter(
            |fact: PendingBrowserFact| fact.envelope.fact is DocumentLifecycleReached,
        ),
    decreases pending.len(),
{
    reveal(Seq::filter);
    let milestone = |fact: PendingBrowserFact| fact.envelope.fact is DocumentLifecycleReached;
    if pending.len() == 0 {
        assert(pending.filter(milestone) =~= pending);
    } else {
        law_waiting_milestones_are_told(pending.drop_last());
    }
}

} // verus!
