//! Laws of the cursor over the Browser facts.
use vstd::prelude::*;

use crate::facts::errors::BrowserFactProjectionError;
use crate::facts::model;
use crate::facts::model::{
    BrowserDocumentLifecycleFactProjection, Claimed, FactClaim, JournalEnd, PendingBrowserFact,
    ProjectorModel,
};
use crate::facts::types::{
    BrowserFactEnvelope, CommittedRendererDocumentBinding, PageResidenceIdentity,
    RendererDocumentLifecycleEvent,
};

verus! {

/// Whether `part` keeps some of the facts of `whole`, in their order.
pub open spec fn thinned(part: Seq<PendingBrowserFact>, whole: Seq<PendingBrowserFact>) -> bool {
    &&& part.len() <= whole.len()
    &&& forall|index: int|
        0 <= index < part.len() ==> whole.contains(#[trigger] part[index])
    &&& increasing(whole) ==> increasing(part)
}

/// Whether the facts stand in the order of the journal.
pub open spec fn increasing(pending: Seq<PendingBrowserFact>) -> bool {
    forall|left: int, right: int|
        0 <= left < right < pending.len() ==> (#[trigger] pending[left]).envelope.sequence < (
        #[trigger] pending[right]).envelope.sequence
}

proof fn lemma_thinned_push(
    part: Seq<PendingBrowserFact>,
    whole: Seq<PendingBrowserFact>,
    keep: bool,
)
    requires
        whole.len() > 0,
        thinned(part, whole.drop_last()),
    ensures
        thinned(
            if keep {
                part.push(whole.last())
            } else {
                part
            },
            whole,
        ),
{
    let after = if keep {
        part.push(whole.last())
    } else {
        part
    };
    let rest = whole.drop_last();
    assert forall|index: int| 0 <= index < after.len() implies whole.contains(
        #[trigger] after[index],
    ) by {
        if index < part.len() {
            assert(rest.contains(part[index]));
            let at = rest.index_of(part[index]);
            assert(whole[at] == part[index]);
        } else {
            assert(whole[whole.len() - 1] == after[index]);
        }
    }
    if increasing(whole) {
        assert(increasing(rest)) by {
            assert forall|left: int, right: int| 0 <= left < right < rest.len() implies (
            #[trigger] rest[left]).envelope.sequence < (
            #[trigger] rest[right]).envelope.sequence by {
                assert(rest[left] == whole[left] && rest[right] == whole[right]);
            }
        }
        assert forall|left: int, right: int| 0 <= left < right < after.len() implies (
        #[trigger] after[left]).envelope.sequence < (#[trigger] after[right]).envelope.sequence by {
            if right == part.len() {
                let at = rest.index_of(part[left]);
                assert(rest.contains(part[left]));
                assert(whole[at] == part[left]);
                assert(whole[whole.len() - 1] == after[right]);
            }
        }
    }
}

/// Dropping the facts that end with a Page keeps the order of the others.
pub proof fn lemma_without_voided_thins(
    pending: Seq<PendingBrowserFact>,
    page: PageResidenceIdentity,
)
    ensures
        thinned(model::without_voided(pending, page), pending),
    decreases pending.len(),
{
    if pending.len() > 0 {
        lemma_without_voided_thins(pending.drop_last(), page);
        lemma_thinned_push(
            model::without_voided(pending.drop_last(), page),
            pending,
            !model::voided_by(pending.last(), page),
        );
    }
}

/// Dropping the facts that were overtaken keeps the order of the others.
pub proof fn lemma_without_overtaken_thins(
    pending: Seq<PendingBrowserFact>,
    page: PageResidenceIdentity,
    binding: CommittedRendererDocumentBinding,
    sequence: u64,
)
    ensures
        thinned(model::without_overtaken(pending, page, binding, sequence), pending),
    decreases pending.len(),
{
    if pending.len() > 0 {
        lemma_without_overtaken_thins(pending.drop_last(), page, binding, sequence);
        lemma_thinned_push(
            model::without_overtaken(pending.drop_last(), page, binding, sequence),
            pending,
            !model::overtaken(pending.last(), page, binding, sequence),
        );
    }
}

/// Reading a fact keeps the invariant.
pub proof fn law_observe_keeps_inv(model: ProjectorModel, envelope: BrowserFactEnvelope)
    requires
        model::projector_inv(model),
        model.terminal is None,
    ensures
        model::projector_inv(model::observe(model, envelope)),
{
    match model::retired_page(envelope.fact) {
        Some(page) => {
            lemma_without_voided_thins(model.pending, page);
        },
        None => {},
    }
    let kept = model::outlasting(model.pending, envelope.fact);
    assert(increasing(model.pending));
    assert(increasing(kept));
    let after = model::observe(model, envelope);
    assert forall|index: int| 0 <= index < kept.len() implies model.pending.contains(
        #[trigger] kept[index],
    ) by {}
    if after.terminal is None {
        assert forall|index: int| 0 <= index < after.pending.len() implies (
        #[trigger] after.pending[index]).envelope.sequence <= envelope.sequence by {
            if index < kept.len() && after.pending[index] == kept[index] {
                let at = model.pending.index_of(kept[index]);
                assert(model.pending[at] == kept[index]);
            } else if after.pending == model.pending {
                assert(model.pending[index].envelope.sequence <= model.last_observed->Some_0);
            }
        }
        assert forall|left: int, right: int| 0 <= left < right < after.pending.len() implies (
        #[trigger] after.pending[left]).envelope.sequence < (
        #[trigger] after.pending[right]).envelope.sequence by {
            if after.pending.len() == kept.len() + 1 && right == kept.len() {
                let at = model.pending.index_of(kept[left]);
                assert(model.pending[at] == kept[left]);
                assert(model.pending[at].envelope.sequence <= model.last_observed->Some_0);
            }
        }
    }
}

/// Reading the delivered facts keeps the invariant.
pub proof fn law_capture_keeps_inv(model: ProjectorModel)
    requires
        model::projector_inv(model),
    ensures
        model::projector_inv(model::capture(model)),
    decreases model.inbox.len(),
{
    if model.terminal is None && model.subscribed && model.inbox.len() > 0 {
        let rest = ProjectorModel { inbox: model.inbox.skip(1), ..model };
        law_observe_keeps_inv(rest, model.inbox[0]);
        let read = model::observe(rest, model.inbox[0]);
        if read.terminal is None {
            law_capture_keeps_inv(read);
        }
    }
}

/// The first fact that a claim needs, and that none before it is one.
pub proof fn lemma_first_answer(pending: Seq<PendingBrowserFact>, claim: FactClaim, from: nat)
    ensures
        model::first_answer(pending, claim, from) matches Some(index) ==> from <= index
            < pending.len() && model::answers(pending[index as int].envelope, claim)
            && forall|earlier: int|
            from <= earlier < index ==> !model::answers(
                (#[trigger] pending[earlier]).envelope,
                claim,
            ),
        model::first_answer(pending, claim, from) is None ==> forall|index: int|
            from <= index < pending.len() ==> !model::answers(
                (#[trigger] pending[index]).envelope,
                claim,
            ),
    decreases pending.len() - from,
{
    if from < pending.len() && !model::answers(pending[from as int].envelope, claim) {
        lemma_first_answer(pending, claim, from + 1);
    }
}

/// Claiming a fact keeps the invariant.
pub proof fn law_claim_keeps_inv(model: ProjectorModel, claim: FactClaim)
    requires
        model::projector_inv(model),
    ensures
        model::projector_inv(model::claim_fact(model, claim).model),
{
    law_capture_keeps_inv(model);
    let captured = model::capture(model);
    lemma_first_answer(captured.pending, claim, 0);
}

/// A claim that is met gives a fact that answers it, and gives it away: no
/// fact of that journal position waits any more.
pub proof fn law_claim_answers(model: ProjectorModel, claim: FactClaim)
    requires
        model::projector_inv(model),
    ensures
        model::claim_fact(model, claim).result matches Ok(envelope) ==> {
            let after = model::claim_fact(model, claim).model;
            &&& model::answers(envelope, claim)
            &&& forall|index: int|
                0 <= index < after.pending.len() ==> (
                #[trigger] after.pending[index]).envelope.sequence != envelope.sequence
            &&& after.last_observed matches Some(observed) && envelope.sequence <= observed
        },
{
    law_capture_keeps_inv(model);
    let captured = model::capture(model);
    lemma_first_answer(captured.pending, claim, 0);
    if let Ok(envelope) = model::claim_fact(model, claim).result {
        let at = model::first_answer(captured.pending, claim, 0)->Some_0 as int;
        let after = model::claim_fact(model, claim).model;
        assert forall|index: int| 0 <= index < after.pending.len() implies (
        #[trigger] after.pending[index]).envelope.sequence != envelope.sequence by {
            if index < at {
                assert(after.pending[index] == captured.pending[index]);
            } else {
                assert(after.pending[index] == captured.pending[index + 1]);
            }
        }
    }
}

/// The fact at a journal position is one of those that wait.
pub proof fn lemma_pending_at(pending: Seq<PendingBrowserFact>, sequence: u64, from: nat)
    ensures
        model::pending_at(pending, sequence, from) matches Some(index) ==> from <= index
            < pending.len() && pending[index as int].envelope.sequence == sequence,
    decreases pending.len() - from,
{
    if from < pending.len() && pending[from as int].envelope.sequence != sequence {
        lemma_pending_at(pending, sequence, from + 1);
    }
}

proof fn lemma_link_facts_keeps_inv(
    model: ProjectorModel,
    page: PageResidenceIdentity,
    binding: CommittedRendererDocumentBinding,
    published: Seq<BrowserFactEnvelope>,
    from: nat,
)
    requires
        model::projector_inv(model),
    ensures
        model::projector_inv(model::link_facts(model, page, binding, published, from)),
    decreases published.len() - from,
{
    if from < published.len() && model.terminal is None {
        lemma_pending_at(model.pending, published[from as int].sequence, 0);
        let linked = model::link_fact(model, page, binding, published[from as int]);
        assert(model::projector_inv(linked));
        lemma_link_facts_keeps_inv(linked, page, binding, published, from + 1);
    }
}

/// Freezing lifecycle facts to an attachment keeps the invariant.
pub proof fn law_register_keeps_inv(
    model: ProjectorModel,
    page: PageResidenceIdentity,
    binding: CommittedRendererDocumentBinding,
    published: Seq<BrowserFactEnvelope>,
)
    requires
        model::projector_inv(model),
    ensures
        model::projector_inv(model::register_links(model, page, binding, published)),
{
    lemma_link_facts_keeps_inv(model, page, binding, published, 0);
}

/// The fact that a milestone reports is one of those that wait.
pub proof fn lemma_first_report(
    pending: Seq<PendingBrowserFact>,
    page: PageResidenceIdentity,
    binding: CommittedRendererDocumentBinding,
    event: RendererDocumentLifecycleEvent,
    from: nat,
)
    ensures
        model::first_report(pending, page, binding, event, from) matches Some(index) ==> from
            <= index < pending.len() && model::reports(
            pending[index as int],
            page,
            binding,
            event,
        ),
    decreases pending.len() - from,
{
    if from < pending.len() && !model::reports(pending[from as int], page, binding, event) {
        lemma_first_report(pending, page, binding, event, from + 1);
    }
}

proof fn lemma_after_report_keeps_inv(
    model: ProjectorModel,
    page: PageResidenceIdentity,
    binding: CommittedRendererDocumentBinding,
    index: nat,
)
    requires
        model::projector_inv(model),
        index < model.pending.len(),
    ensures
        model::projector_inv(model::after_report(model, page, binding, index)),
{
    let rest = model.pending.remove(index as int);
    let sequence = model.pending[index as int].envelope.sequence;
    lemma_without_overtaken_thins(rest, page, binding, sequence);
    let after = model::after_report(model, page, binding, index);
    assert(increasing(rest));
    assert forall|at: int| 0 <= at < after.pending.len() implies (after.last_observed matches Some(
        observed,
    ) && (#[trigger] after.pending[at]).envelope.sequence <= observed) by {
        assert(rest.contains(after.pending[at]));
        let found = rest.index_of(after.pending[at]);
        assert(rest[found] == model.pending[if found < index {
            found
        } else {
            found + 1
        }]);
    }
}

proof fn lemma_show_from_keeps_inv(
    model: ProjectorModel,
    page: PageResidenceIdentity,
    binding: CommittedRendererDocumentBinding,
    events: Seq<RendererDocumentLifecycleEvent>,
    from: nat,
    shown: Seq<BrowserDocumentLifecycleFactProjection>,
)
    requires
        model::projector_inv(model),
        model.terminal is None,
    ensures
        model::projector_inv(
            model::show_from(model, page, binding, events, from, shown).model,
        ),
    decreases events.len() - from,
{
    if from < events.len() {
        if !model::visible(events[from as int], binding) {
            lemma_show_from_keeps_inv(model, page, binding, events, from + 1, shown);
        } else {
            lemma_first_report(model.pending, page, binding, events[from as int], 0);
            match model::first_report(model.pending, page, binding, events[from as int], 0) {
                Some(index) => {
                    lemma_after_report_keeps_inv(model, page, binding, index);
                    lemma_show_from_keeps_inv(
                        model::after_report(model, page, binding, index),
                        page,
                        binding,
                        events,
                        from + 1,
                        shown.push(
                            BrowserDocumentLifecycleFactProjection {
                                envelope: model.pending[index as int].envelope,
                                binding: model.pending[index as int].document_binding->Some_0,
                            },
                        ),
                    );
                },
                None => {},
            }
        }
    }
}

/// Claiming visible milestones keeps the invariant.
pub proof fn law_show_keeps_inv(
    model: ProjectorModel,
    page: Option<PageResidenceIdentity>,
    binding: CommittedRendererDocumentBinding,
    events: Seq<RendererDocumentLifecycleEvent>,
)
    requires
        model::projector_inv(model),
    ensures
        model::projector_inv(model::show(model, page, binding, events).model),
{
    law_capture_keeps_inv(model);
    if let Some(page) = page {
        if model::capture(model).terminal is None {
            lemma_show_from_keeps_inv(
                model::capture(model),
                page,
                binding,
                events,
                0,
                Seq::empty(),
            );
        }
    }
}

/// Whether no fact at that journal position waits, and none will: the cursor
/// is past it.
pub open spec fn passed(model: ProjectorModel, sequence: u64) -> bool {
    &&& model.last_observed matches Some(observed) && sequence <= observed
    &&& forall|index: int|
        0 <= index < model.pending.len() ==> (#[trigger] model.pending[index]).envelope.sequence
            != sequence
}

proof fn lemma_observe_keeps_passed(
    model: ProjectorModel,
    envelope: BrowserFactEnvelope,
    sequence: u64,
)
    requires
        passed(model, sequence),
    ensures
        passed(model::observe(model, envelope), sequence),
{
    if let Some(page) = model::retired_page(envelope.fact) {
        lemma_without_voided_thins(model.pending, page);
    }
    let kept = model::outlasting(model.pending, envelope.fact);
    let after = model::observe(model, envelope);
    assert forall|index: int| 0 <= index < after.pending.len() implies (
    #[trigger] after.pending[index]).envelope.sequence != sequence by {
        if index < kept.len() && after.pending[index] == kept[index] {
            assert(model.pending.contains(kept[index]));
            let at = model.pending.index_of(kept[index]);
            assert(model.pending[at] == kept[index]);
        } else if after.pending == model.pending {
            assert(model.pending[index].envelope.sequence != sequence);
        }
    }
}

/// A journal position that the cursor passed stays passed, whatever is
/// delivered.
pub proof fn law_capture_keeps_passed(model: ProjectorModel, sequence: u64)
    requires
        passed(model, sequence),
    ensures
        passed(model::capture(model), sequence),
    decreases model.inbox.len(),
{
    if model.terminal is None && model.subscribed && model.inbox.len() > 0 {
        let rest = ProjectorModel { inbox: model.inbox.skip(1), ..model };
        lemma_observe_keeps_passed(rest, model.inbox[0], sequence);
        let read = model::observe(rest, model.inbox[0]);
        if read.terminal is None {
            law_capture_keeps_passed(read, sequence);
        }
    }
}

/// No fact is claimed twice: once a claim took the fact of a journal position,
/// no later claim gives that position again, whatever was delivered meanwhile.
pub proof fn law_fact_is_claimed_once(
    model: ProjectorModel,
    claim: FactClaim,
    delivered: Seq<BrowserFactEnvelope>,
    end: JournalEnd,
    later: FactClaim,
)
    requires
        model::projector_inv(model),
        model::claim_fact(model, claim).result is Ok,
    ensures
        ({
            let envelope = model::claim_fact(model, claim).result->Ok_0;
            let after = ProjectorModel {
                inbox: delivered,
                end,
                ..model::claim_fact(model, claim).model
            };
            model::claim_fact(after, later).result matches Ok(other) ==> other.sequence
                != envelope.sequence
        }),
{
    law_claim_answers(model, claim);
    let envelope = model::claim_fact(model, claim).result->Ok_0;
    let after = ProjectorModel { inbox: delivered, end, ..model::claim_fact(model, claim).model };
    law_capture_keeps_passed(after, envelope.sequence);
    lemma_first_answer(model::capture(after).pending, later, 0);
}

/// A cursor that was lost stays lost for the same reason: reading, waking,
/// claiming and freezing change nothing and report that reason again.
pub proof fn law_lost_cursor_stays_lost(
    model: ProjectorModel,
    through: u64,
    claim: FactClaim,
    page: PageResidenceIdentity,
    binding: CommittedRendererDocumentBinding,
    published: Seq<BrowserFactEnvelope>,
)
    requires
        model.terminal is Some,
    ensures
        model::capture(model) == model,
        model::capture_wake(model, through) == model,
        model::claim_fact(model, claim) == (Claimed {
            model,
            result: Err(model.terminal->Some_0),
        }),
        model::register_links(model, page, binding, published) == model,
{
}

/// A cursor that was lost shows no milestone: it reports its reason again, or
/// that no Page is current where that is so.
pub proof fn law_lost_cursor_shows_nothing(
    model: ProjectorModel,
    page: Option<PageResidenceIdentity>,
    binding: CommittedRendererDocumentBinding,
    events: Seq<RendererDocumentLifecycleEvent>,
)
    requires
        model.terminal is Some,
    ensures
        model::show(model, page, binding, events).result matches Ok(shown) ==> shown.len() == 0,
        page is Some && model::first_visible(events, binding, 0) is Some ==> model::show(
            model,
            page,
            binding,
            events,
        ).result == Err::<
            Seq<BrowserDocumentLifecycleFactProjection>,
            BrowserFactProjectionError,
        >(model.terminal->Some_0),
{
}

/// What ended with a Page is gone.
pub proof fn lemma_without_voided_drops(
    pending: Seq<PendingBrowserFact>,
    page: PageResidenceIdentity,
)
    ensures
        forall|index: int|
            0 <= index < model::without_voided(pending, page).len() ==> !model::voided_by(
                #[trigger] model::without_voided(pending, page)[index],
                page,
            ),
    decreases pending.len(),
{
    if pending.len() > 0 {
        let rest = model::without_voided(pending.drop_last(), page);
        let kept = model::without_voided(pending, page);
        lemma_without_voided_drops(pending.drop_last(), page);
        assert forall|index: int| 0 <= index < kept.len() implies !model::voided_by(
            #[trigger] kept[index],
            page,
        ) by {
            if index < rest.len() {
                assert(kept[index] == rest[index]);
            }
        }
    }
}

/// Once a fact that retires a Page was read, nothing that was reported of that
/// Page waits any more, and it can no longer be shown.
pub proof fn law_retired_page_keeps_nothing(
    model: ProjectorModel,
    envelope: BrowserFactEnvelope,
    page: PageResidenceIdentity,
)
    requires
        model::projector_inv(model),
        model.terminal is None,
        model::retired_page(envelope.fact) == Some(page),
    ensures
        forall|index: int|
            0 <= index < model::observe(model, envelope).pending.len() ==> !model::voided_by(
                #[trigger] model::observe(model, envelope).pending[index],
                page,
            ),
{
    lemma_without_voided_drops(model.pending, page);
}

/// Whether the facts to show come in the order of the journal.
pub open spec fn in_order(shown: Seq<BrowserDocumentLifecycleFactProjection>) -> bool {
    forall|left: int, right: int|
        0 <= left < right < shown.len() ==> (#[trigger] shown[left]).envelope.sequence < (
        #[trigger] shown[right]).envelope.sequence
}

/// Whether all waiting lifecycle facts of an attachment are newer than what
/// was shown.
spec fn newer_than_shown(
    pending: Seq<PendingBrowserFact>,
    page: PageResidenceIdentity,
    binding: CommittedRendererDocumentBinding,
    shown: Seq<BrowserDocumentLifecycleFactProjection>,
) -> bool {
    forall|at: int, index: int|
        0 <= at < shown.len() && 0 <= index < pending.len() && model::of_attachment(
            #[trigger] pending[index],
            page,
            binding,
        ) ==> (#[trigger] shown[at]).envelope.sequence < pending[index].envelope.sequence
}

/// What was overtaken is gone.
pub proof fn lemma_without_overtaken_drops(
    pending: Seq<PendingBrowserFact>,
    page: PageResidenceIdentity,
    binding: CommittedRendererDocumentBinding,
    sequence: u64,
)
    ensures
        forall|index: int|
            0 <= index < model::without_overtaken(pending, page, binding, sequence).len()
                ==> !model::overtaken(
                #[trigger] model::without_overtaken(pending, page, binding, sequence)[index],
                page,
                binding,
                sequence,
            ),
    decreases pending.len(),
{
    if pending.len() > 0 {
        let rest = model::without_overtaken(pending.drop_last(), page, binding, sequence);
        let kept = model::without_overtaken(pending, page, binding, sequence);
        lemma_without_overtaken_drops(pending.drop_last(), page, binding, sequence);
        assert forall|index: int| 0 <= index < kept.len() implies !model::overtaken(
            #[trigger] kept[index],
            page,
            binding,
            sequence,
        ) by {
            if index < rest.len() {
                assert(kept[index] == rest[index]);
            }
        }
    }
}

proof fn lemma_show_from_in_order(
    model: ProjectorModel,
    page: PageResidenceIdentity,
    binding: CommittedRendererDocumentBinding,
    events: Seq<RendererDocumentLifecycleEvent>,
    from: nat,
    shown: Seq<BrowserDocumentLifecycleFactProjection>,
)
    requires
        model::projector_inv(model),
        model.terminal is None,
        in_order(shown),
        newer_than_shown(model.pending, page, binding, shown),
    ensures
        model::show_from(model, page, binding, events, from, shown).result matches Ok(all)
            ==> in_order(all),
    decreases events.len() - from,
{
    if from < events.len() {
        if !model::visible(events[from as int], binding) {
            lemma_show_from_in_order(model, page, binding, events, from + 1, shown);
        } else {
            lemma_first_report(model.pending, page, binding, events[from as int], 0);
            match model::first_report(model.pending, page, binding, events[from as int], 0) {
                Some(index) => {
                    let after = model::after_report(model, page, binding, index);
                    let claimed = model.pending[index as int];
                    let more = shown.push(
                        BrowserDocumentLifecycleFactProjection {
                            envelope: claimed.envelope,
                            binding: claimed.document_binding->Some_0,
                        },
                    );
                    let rest = model.pending.remove(index as int);
                    lemma_after_report_keeps_inv(model, page, binding, index);
                    lemma_without_overtaken_thins(
                        rest,
                        page,
                        binding,
                        claimed.envelope.sequence,
                    );
                    lemma_without_overtaken_drops(
                        rest,
                        page,
                        binding,
                        claimed.envelope.sequence,
                    );
                    assert forall|at: int| 0 <= at < after.pending.len() implies exists|found: int|
                        0 <= found < model.pending.len() && found != index && #[trigger] model.pending[found]
                            == #[trigger] after.pending[at] by {
                        assert(rest.contains(after.pending[at]));
                        let found = rest.index_of(after.pending[at]);
                        let source = if found < index {
                            found
                        } else {
                            found + 1
                        };
                        assert(model.pending[source] == after.pending[at]);
                    }
                    assert(model::of_attachment(claimed, page, binding));
                    assert(in_order(more));
                    assert(newer_than_shown(after.pending, page, binding, more)) by {
                        assert forall|at: int, pick: int|
                            0 <= at < more.len() && 0 <= pick < after.pending.len()
                                && model::of_attachment(
            #[trigger] after.pending[pick],
            page,
            binding,
        ) implies (#[trigger] more[at]).envelope.sequence
                            < after.pending[pick].envelope.sequence by {
                            let found = choose|found: int|
                                0 <= found < model.pending.len() && found != index
                                    && #[trigger] model.pending[found] == after.pending[pick];
                            assert(model.pending[found].envelope.sequence
                                != claimed.envelope.sequence);
                            assert(!model::overtaken(
                                after.pending[pick],
                                page,
                                binding,
                                claimed.envelope.sequence,
                            ));
                            if at < shown.len() {
                                assert(more[at] == shown[at]);
                            }
                        }
                    }
                    lemma_show_from_in_order(after, page, binding, events, from + 1, more);
                },
                None => {},
            }
        }
    }
}

/// Milestones are never shown backwards: the facts that one claim gives come
/// in the order of the journal.
pub proof fn law_milestones_are_shown_in_order(
    model: ProjectorModel,
    page: Option<PageResidenceIdentity>,
    binding: CommittedRendererDocumentBinding,
    events: Seq<RendererDocumentLifecycleEvent>,
)
    requires
        model::projector_inv(model),
    ensures
        model::show(model, page, binding, events).result matches Ok(shown) ==> in_order(shown),
{
    law_capture_keeps_inv(model);
    if let Some(page) = page {
        if model::capture(model).terminal is None {
            lemma_show_from_in_order(
                model::capture(model),
                page,
                binding,
                events,
                0,
                Seq::empty(),
            );
        }
    }
}

} // verus!
