//! Laws on the agreement of the slots with Browser Core's Targets when Targets
//! come to the front, end or crash.
//!
//! A Target ends in Browser Core first; the slots follow. `before` is what Core
//! reported until then, with which the slots agreed.
use vstd::prelude::*;

use crate::connection::agreement;
use crate::connection::contexts::CoreCommit;
use crate::connection::core_record::{BrowserCoreRecord, CoreTarget};
use crate::connection::errors::BrowserTargetRegistryError;
use crate::connection::laws;
use crate::connection::slots::{
    ActiveTarget, BrowserTargetSlotProjection, ContextModel, TargetPageAbsenceReason, TargetPlace,
    TargetRuntimeSlot,
};
use crate::connection::state;
use crate::connection::state::ConnectionModel;
use crate::connection::targets;
use crate::connection::targets::BrowserTargetRegistration;
use crate::connection::terminations;
use crate::facts::types::BrowserTargetTermination;

verus! {

/// The slots of a context whose empty front is taken.
proof fn lemma_front_taken(context: ContextModel, front: ActiveTarget) -> (slot:
    BrowserTargetSlotProjection)
    requires
        context.active.handle is None,
        front.handle is Some,
    ensures
        slot.handle == front.handle->Some_0,
        slot.page_instance == front.slot.page_instance,
        (ContextModel { active: front, ..context }).slots() == context.slots().insert(0, slot),
{
    let slot = BrowserTargetSlotProjection {
        handle: front.handle->Some_0,
        page_instance: front.slot.page_instance,
        session_storage: front.slot.session_storage,
    };
    let changed = ContextModel { active: front, ..context };
    assert(changed.slots() =~= context.slots().insert(0, slot));
    slot
}

/// The slots of a context whose front is emptied.
proof fn lemma_front_emptied(context: ContextModel, target: Seq<char>)
    requires
        context.active.handle is Some,
    ensures
        context.slots().len() > 0,
        context.slots()[0].handle == context.active.handle->Some_0,
        terminations::emptied_front(context.without_sessions(target)).slots()
            == context.slots().remove(0),
        terminations::emptied_front(context.without_sessions(target)).active_id() is None,
{
    let emptied = terminations::emptied_front(context.without_sessions(target));
    assert(emptied.slots() =~= context.slots().remove(0));
}

/// Where the slots agree with Browser Core's Targets, they still do after a
/// Target was registered in the empty front of the selected context, as long as
/// Core adds exactly that Target, under a name that it did not know, in front.
pub proof fn law_front_registration_keeps_agreement(
    model: ConnectionModel,
    answer: Result<CoreCommit<BrowserTargetRegistration>, BrowserTargetRegistryError>,
    added: CoreTarget,
)
    requires
        targets::register_front(model, answer).result is Ok,
        model.selected->Some_0.active.handle is None,
        laws::distinct_ids(model.contexts()),
        agreement::core_added_front(
            model.core,
            answer->Ok_0.core,
            model.selected->Some_0.id@,
            added,
        ),
        added.handle == answer->Ok_0.outcome.handle,
        added.page.instance == answer->Ok_0.outcome.page.residence.instance,
    ensures
        targets::register_front(model, answer).model.target_topology_refusal() is None,
{
    agreement::law_target_agreement(model);
    let commit = answer->Ok_0;
    let context = model.selected->Some_0;
    let front = ActiveTarget {
        handle: Some(commit.outcome.handle),
        slot: commit.outcome.bound_slot(context.active.slot),
        ..context.active
    };
    let changed = ContextModel { active: front, ..context };
    assert(model.contexts()[0] == context);
    lemma_front_in(model.core, commit.core, model.contexts(), added, front);
    let after = targets::register_front(model, answer).model;
    assert(after.contexts() =~= model.contexts().update(0, changed));
    agreement::law_target_agreement(after);
}

/// Where the slots agree with Browser Core's Targets, they still do after the
/// Target in front of the selected context was replaced, as long as Core removes
/// exactly that one, as `between` shows, and then adds the new one in front.
pub proof fn law_front_replacement_keeps_agreement(
    model: ConnectionModel,
    answer: Result<CoreCommit<BrowserTargetRegistration>, BrowserTargetRegistryError>,
    between: BrowserCoreRecord,
    removed: int,
    added: CoreTarget,
)
    requires
        targets::register_front(model, answer).result is Ok,
        model.selected->Some_0.active.handle is Some,
        laws::distinct_ids(model.contexts()),
        agreement::core_removed_front(
            model.core,
            between,
            model.selected->Some_0.id@,
            model.selected->Some_0.active.handle->Some_0.target_id@,
            removed,
        ),
        agreement::core_added_front(
            between,
            answer->Ok_0.core,
            model.selected->Some_0.id@,
            added,
        ),
        added.handle == answer->Ok_0.outcome.handle,
        added.page.instance == answer->Ok_0.outcome.page.residence.instance,
    ensures
        targets::register_front(model, answer).model.target_topology_refusal() is None,
{
    agreement::law_target_agreement(model);
    let commit = answer->Ok_0;
    let context = model.selected->Some_0;
    let front = ActiveTarget {
        handle: Some(commit.outcome.handle),
        slot: commit.outcome.bound_slot(context.active.slot),
        ..context.active
    };
    let changed = ContextModel { active: front, ..context };
    assert(model.contexts()[0] == context);
    lemma_front_replaced(
        model.core,
        between,
        commit.core,
        model.contexts(),
        removed,
        added,
        front,
    );
    let after = targets::register_front(model, answer).model;
    assert(after.contexts() =~= model.contexts().update(0, changed));
    agreement::law_target_agreement(after);
}

/// The slots agree after the Target in front of the first context was replaced.
proof fn lemma_front_replaced(
    before: BrowserCoreRecord,
    between: BrowserCoreRecord,
    after: BrowserCoreRecord,
    contexts: Seq<ContextModel>,
    removed: int,
    added: CoreTarget,
    front: ActiveTarget,
)
    requires
        contexts.len() > 0,
        contexts[0].active.handle is Some,
        laws::distinct_ids(contexts),
        agreement::targets_agree(before, contexts),
        agreement::core_removed_front(
            before,
            between,
            contexts[0].id@,
            contexts[0].active.handle->Some_0.target_id@,
            removed,
        ),
        agreement::core_added_front(between, after, contexts[0].id@, added),
        front.handle == Some(added.handle),
        front.slot.page_instance == added.page.instance,
    ensures
        agreement::targets_agree(
            after,
            contexts.update(0, ContextModel { active: front, ..contexts[0] }),
        ),
{
    let emptied = lemma_front_out(before, between, contexts, removed);
    let emptied_contexts = contexts.update(0, emptied);
    lemma_same_ids(contexts, 0, emptied);
    lemma_front_in(between, after, emptied_contexts, added, front);
    let changed = ContextModel { active: front, ..contexts[0] };
    assert(changed == ContextModel { active: front, ..emptied });
    assert(emptied_contexts.update(0, changed) =~= contexts.update(0, changed));
}

/// The slots agree after a Target was added in front of the first context.
proof fn lemma_front_in(
    before: BrowserCoreRecord,
    after: BrowserCoreRecord,
    contexts: Seq<ContextModel>,
    added: CoreTarget,
    front: ActiveTarget,
)
    requires
        contexts.len() > 0,
        contexts[0].active.handle is None,
        laws::distinct_ids(contexts),
        agreement::targets_agree(before, contexts),
        agreement::core_added_front(before, after, contexts[0].id@, added),
        front.handle == Some(added.handle),
        front.slot.page_instance == added.page.instance,
    ensures
        agreement::targets_agree(
            after,
            contexts.update(0, ContextModel { active: front, ..contexts[0] }),
        ),
{
    let changed = ContextModel { active: front, ..contexts[0] };
    let slot = lemma_front_taken(contexts[0], front);
    agreement::lemma_agree_after_add(before, after, added, contexts, 0, changed, 0, slot);
}

/// The slots agree after the Target in front of the first context was removed.
proof fn lemma_front_out(
    before: BrowserCoreRecord,
    between: BrowserCoreRecord,
    contexts: Seq<ContextModel>,
    removed: int,
) -> (emptied: ContextModel)
    requires
        contexts.len() > 0,
        contexts[0].active.handle is Some,
        laws::distinct_ids(contexts),
        agreement::targets_agree(before, contexts),
        agreement::core_removed_front(
            before,
            between,
            contexts[0].id@,
            contexts[0].active.handle->Some_0.target_id@,
            removed,
        ),
    ensures
        emptied == (ContextModel {
            active: ActiveTarget { handle: None, ..contexts[0].active },
            ..contexts[0]
        }),
        agreement::targets_agree(between, contexts.update(0, emptied)),
{
    let context = contexts[0];
    let emptied = ContextModel { active: ActiveTarget { handle: None, ..context.active }, ..context };
    assert(emptied.slots() =~= context.slots().remove(0));
    agreement::lemma_agree_after_remove(
        before,
        between,
        context.active.handle->Some_0.target_id@,
        removed,
        contexts,
        0,
        emptied,
        0,
    );
    emptied
}

/// Contexts with one changed that keeps its name have different names.
proof fn lemma_same_ids(contexts: Seq<ContextModel>, at: int, changed: ContextModel)
    requires
        0 <= at < contexts.len(),
        laws::distinct_ids(contexts),
        changed.id == contexts[at].id,
    ensures
        laws::distinct_ids(contexts.update(at, changed)),
{
    let now = contexts.update(at, changed);
    assert forall|left: int, right: int| 0 <= left < right < now.len() implies (
    #[trigger] now[left]).id@ != (#[trigger] now[right]).id@ by {
        assert(contexts[left].id@ != contexts[right].id@);
    }
}

/// After Browser Core has removed a Target behind, the slots agree again once
/// its close is projected.
pub proof fn law_background_close_restores_agreement(
    model: ConnectionModel,
    termination: BrowserTargetTermination,
    reason: String,
    before: BrowserCoreRecord,
    removed: int,
)
    requires
        terminations::close_background(model, termination, reason).1 is Some,
        agreement::targets_agree(before, model.contexts()),
        laws::distinct_ids(model.contexts()),
        model.inactive.len() <= usize::MAX,
        agreement::core_removed(
            before,
            model.core,
            termination.browser_context_id@,
            termination.target_id@,
            removed,
        ),
    ensures
        terminations::close_background(
            model,
            termination,
            reason,
        ).0.target_topology_refusal() is None,
{
    let id = termination.browser_context_id@;
    let target = termination.target_id@;
    let context = model.context_at(model.place_of(id)->Some_0);
    let index = context.background_index(target)->Some_0 as int;
    let changed = ContextModel {
        background: context.background.remove(index),
        ..context.without_sessions(target)
    };
    let place = agreement::lemma_slot_gone(context, target);
    assert(changed.slots() == ContextModel {
        background: context.background.remove(index),
        ..context
    }.slots());
    let at = agreement::lemma_place(model, id, changed);
    assert(agreement::context_agrees(before, model.contexts()[at]));
    agreement::lemma_agree_after_remove(
        before,
        model.core,
        target,
        removed,
        model.contexts(),
        at,
        changed,
        place,
    );
    let after = terminations::close_background(model, termination, reason).0;
    assert(after.contexts() == model.changing_context(
        model.place_of(id)->Some_0,
        changed,
    ).contexts());
    agreement::law_target_agreement(after);
}

/// After Browser Core has removed the Target in front of a context, the slots
/// agree again once its close is projected. None is in front until another is
/// brought there.
pub proof fn law_front_close_restores_agreement(
    model: ConnectionModel,
    termination: BrowserTargetTermination,
    before: BrowserCoreRecord,
    removed: int,
)
    requires
        terminations::close_front(model, termination).1 is Some,
        agreement::targets_agree(before, model.contexts()),
        laws::distinct_ids(model.contexts()),
        model.inactive.len() <= usize::MAX,
        agreement::core_removed_front(
            before,
            model.core,
            termination.browser_context_id@,
            terminations::close_front(model, termination).1->Some_0.target_id@,
            removed,
        ),
    ensures
        terminations::close_front(model, termination).0.target_topology_refusal() is None,
{
    let id = termination.browser_context_id@;
    let context = model.context_at(model.place_of(id)->Some_0);
    let target = context.active.handle->Some_0.target_id@;
    let changed = terminations::emptied_front(context.without_sessions(target));
    lemma_front_emptied(context, target);
    let at = agreement::lemma_place(model, id, changed);
    agreement::lemma_agree_after_remove(
        before,
        model.core,
        target,
        removed,
        model.contexts(),
        at,
        changed,
        0,
    );
    let after = terminations::close_front(model, termination).0;
    assert(after.contexts() == model.changing_context(
        model.place_of(id)->Some_0,
        changed,
    ).contexts());
    agreement::law_target_agreement(after);
}

/// After Browser Core has removed a Target that its Page closed, the slots agree
/// again once the close is projected, whether the Target was in front or behind.
pub proof fn law_page_close_restores_agreement(
    model: ConnectionModel,
    session: Option<Seq<char>>,
    termination: BrowserTargetTermination,
    before: BrowserCoreRecord,
    removed: int,
)
    requires
        terminations::close_by_page(model, session, termination).1 is Some,
        agreement::targets_agree(before, model.contexts()),
        laws::distinct_ids(model.contexts()),
        model.inactive.len() <= usize::MAX,
        model.session_place(session) matches Some(place) && model.has_slot(place) && {
            let id = model.context_at(place.context).id@;
            let target =
                terminations::close_by_page(model, session, termination).1->Some_0.target_id@;
            if place.target is Active {
                agreement::core_removed_front(before, model.core, id, target, removed)
            } else {
                agreement::core_removed(before, model.core, id, target, removed)
            }
        },
    ensures
        terminations::close_by_page(
            model,
            session,
            termination,
        ).0.target_topology_refusal() is None,
{
    let place = model.session_place(session)->Some_0;
    let context = model.context_at(place.context);
    let after = terminations::close_by_page(model, session, termination).0;
    lemma_session_context(model, session);
    match place.target {
        TargetPlace::Active => {
            let target = context.active.handle->Some_0.target_id@;
            let changed = terminations::emptied_front(context.without_sessions(target));
            lemma_front_emptied(context, target);
            let at = agreement::lemma_place(model, context.id@, changed);
            agreement::lemma_agree_after_remove(
                before,
                model.core,
                target,
                removed,
                model.contexts(),
                at,
                changed,
                0,
            );
            assert(after.contexts() == model.contexts().update(at, changed));
        },
        TargetPlace::Background(index) => {
            let target = context.background[index as int].handle.target_id@;
            let changed = ContextModel {
                background: context.background.remove(index as int),
                ..context.without_sessions(target)
            };
            let gone = lemma_behind_gone(context, index as int, changed);
            let at = agreement::lemma_place(model, context.id@, changed);
            assert(agreement::context_agrees(before, model.contexts()[at]));
            agreement::lemma_agree_after_remove(
                before,
                model.core,
                target,
                removed,
                model.contexts(),
                at,
                changed,
                gone,
            );
            assert(after.contexts() == model.contexts().update(at, changed));
        },
    }
    agreement::law_target_agreement(after);
}

/// The slots of a context without the Target at a place behind.
proof fn lemma_behind_gone(context: ContextModel, index: int, changed: ContextModel) -> (gone: int)
    requires
        0 <= index < context.background.len(),
        changed.active == context.active,
        changed.background == context.background.remove(index),
    ensures
        0 <= gone < context.slots().len(),
        context.slots()[gone].handle == context.background[index].handle,
        changed.slots() == context.slots().remove(gone),
{
    let gone = if context.active.handle is Some {
        index + 1
    } else {
        index
    };
    assert(changed.slots() =~= context.slots().remove(gone));
    gone
}

/// The slots of a context do not depend on what its Targets show.
proof fn lemma_ended_slots(context: ContextModel, place: TargetPlace, slot: TargetRuntimeSlot)
    requires
        place matches TargetPlace::Background(index) ==> index < context.background.len(),
        slot.page_instance == context.slot_at(place).page_instance,
        slot.session_storage == context.slot_at(place).session_storage,
    ensures
        context.with_slot(place, slot).slots() == context.slots(),
        context.with_slot(place, slot).id == context.id,
        context.with_slot(place, slot).active_id() == context.active_id(),
{
    assert(context.with_slot(place, slot).background_slots() =~= context.background_slots());
    assert(context.with_slot(place, slot).slots() =~= context.slots());
}

/// The context of the slot that a session speaks of is found by its name.
proof fn lemma_session_context(model: ConnectionModel, session: Option<Seq<char>>)
    requires
        model.inactive.len() <= usize::MAX,
    ensures
        model.session_place(session) matches Some(place) ==> model.place_of(
            model.context_at(place.context).id@,
        ) == Some(place.context),
{
    if let Some(owner) = model.session_owner(session) {
        state::lemma_find_context(model.inactive, owner.browser_context_id@, 0);
    }
}

/// A crash leaves the Targets in their slots: where these agreed with Browser
/// Core, they still do.
pub proof fn law_crash_keeps_agreement(
    model: ConnectionModel,
    session: Option<Seq<char>>,
    termination: BrowserTargetTermination,
)
    requires
        model.target_topology_refusal() is None,
        model.inactive.len() <= usize::MAX,
        model.session_place(session) matches Some(place) ==> model.has_slot(place),
    ensures
        terminations::crash(model, session, termination).0.target_topology_refusal() is None,
{
    agreement::law_target_agreement(model);
    let after = terminations::crash(model, session, termination).0;
    if let Some(place) = model.session_place(session) {
        let context = model.context_at(place.context);
        let slot = terminations::ended_slot(
            context.slot_at(place.target),
            TargetPageAbsenceReason::TargetCrashed,
        );
        let changed = context.with_slot(place.target, slot);
        lemma_ended_slots(context, place.target, slot);
        lemma_session_context(model, session);
        let at = agreement::lemma_place(model, context.id@, changed);
        assert(after.contexts() == model.contexts().update(at, changed));
        agreement::lemma_same_slots_agree(model.core, model.contexts(), at, changed);
        agreement::law_target_agreement(after);
    }
}

} // verus!
