//! What becomes of the contexts and the Targets in them, said of the slots
//! before and after each change.
use vstd::prelude::*;

use crate::connection::contexts;
use crate::connection::contexts::{
    BrowserContextDisposalReservation, BrowserContextRemovalPermit, ContextRegistration,
    ContextRemoval, CoreCommit, SessionStorageAccess,
};
use crate::connection::core_record::BrowserContextHandle;
use crate::connection::errors::{
    BrowserContextRuntimeRegistryError, ContextRefusal, CoreContextRefusal, TargetRefusal,
};
use crate::connection::lifecycle;
use crate::connection::slots::{BackgroundTarget, ContextModel, TargetRuntimeSlot};
use crate::connection::state;
use crate::connection::state::ConnectionModel;
use crate::connection::targets;
use crate::connection::targets::{BrowserTargetRegistration, PhysicalBrowserContextSlot};
use crate::facts::model;
use crate::facts::model::FactClaim;
use crate::facts::types::BrowserFactEnvelope;

verus! {

/// The first of the contexts that has a name.
pub open spec fn first_named(contexts: Seq<ContextModel>, id: Seq<char>, at: int) -> bool {
    &&& 0 <= at < contexts.len()
    &&& contexts[at].id@ == id
    &&& forall|earlier: int| 0 <= earlier < at ==> (#[trigger] contexts[earlier]).id@ != id
}

proof fn lemma_first_named(contexts: Seq<ContextModel>, id: Seq<char>, from: nat, at: int)
    requires
        first_named(contexts, id, at),
        from <= at,
    ensures
        state::find_context(contexts, id, from) == Some(at as nat),
    decreases at - from,
{
    if from < at {
        assert(contexts[from as int].id@ != id);
        lemma_first_named(contexts, id, from + 1, at);
    }
}

/// Whether two connections differ in nothing but their contexts and in what
/// Browser Core reports.
pub open spec fn only_contexts_change(before: ConnectionModel, after: ConnectionModel) -> bool {
    &&& after.facts == before.facts
    &&& after.browser_sessions == before.browser_sessions
    &&& after.effects == before.effects
}

/// An activation that Browser Core committed puts the context in the selected
/// place and the one from there behind all others, which keep their order. It
/// says that the selection changed. One that was selected stays where it is, and
/// nothing changed. A commit that says that nothing changed does not fit another
/// context. A context that has no slot is missing.
pub proof fn law_activated_context_changes_places(
    model: ConnectionModel,
    id: Seq<char>,
    commit: CoreCommit<bool>,
    at: int,
)
    requires
        model.context_topology_refusal() is None,
        model.core.has_context(id),
        model.selected is Some,
    ensures
        ({
            let changed = contexts::activate(model, id, Ok(commit));
            let front = model.selected->Some_0;
            let after = changed.model;
            &&& front.id@ == id || first_named(model.inactive, id, at) ==> after.core
                == commit.core && only_contexts_change(model, after)
            &&& front.id@ == id ==> changed.result == Ok::<bool, ContextRefusal>(false)
                && after.selected == model.selected && after.inactive == model.inactive
            &&& front.id@ != id && first_named(model.inactive, id, at) && commit.outcome ==> {
                &&& changed.result == Ok::<bool, ContextRefusal>(true)
                &&& after.selected == Some(model.inactive[at])
                &&& after.inactive.len() == model.inactive.len()
                &&& after.inactive.last() == front
                &&& forall|other: int|
                    0 <= other < at ==> #[trigger] after.inactive[other] == model.inactive[other]
                &&& forall|other: int|
                    at <= other < after.inactive.len() - 1 ==> #[trigger] after.inactive[other]
                        == model.inactive[other + 1]
            }
            &&& front.id@ != id && first_named(model.inactive, id, at) && !commit.outcome ==> {
                &&& changed.result == Err::<bool, ContextRefusal>(
                    ContextRefusal::UnexpectedUnchangedActivation(id),
                )
                &&& after.selected == model.selected
                &&& after.inactive == model.inactive
            }
            &&& (forall|other: int|
                0 <= other < model.contexts().len() ==> (#[trigger] model.contexts()[other]).id@
                    != id) ==> after == model && changed.result == Err::<bool, ContextRefusal>(
                ContextRefusal::PhysicalContextMissing(id),
            )
        }),
{
    if first_named(model.inactive, id, at) {
        lemma_first_named(model.inactive, id, 0, at);
    }
    state::lemma_find_context(model.inactive, id, 0);
    assert(model.contexts()[0] == model.selected->Some_0);
    if let Some(found) = state::find_context(model.inactive, id, 0) {
        assert(model.contexts()[found as int + 1] == model.inactive[found as int]);
    }
}

/// Without agreement on the contexts nothing is activated, registered or
/// removed, and a context that Browser Core does not know is not activated. A
/// context without its renderer runtime is not registered. What refuses is told,
/// and the connection stays as it was.
pub proof fn law_disagreement_refuses_context_changes(
    model: ConnectionModel,
    id: Seq<char>,
    context: ContextModel,
    activation: CoreCommit<bool>,
    registration: CoreCommit<ContextRegistration>,
)
    ensures
        ({
            let activated = contexts::activate(model, id, Ok(activation));
            let registered = contexts::register(model, context, Ok(registration));
            &&& model.context_topology_refusal() matches Some(refusal) ==> {
                &&& activated.result == Err::<bool, ContextRefusal>(refusal) && activated.model
                    == model
                &&& registered.result == Err::<bool, ContextRefusal>(refusal) && registered.model
                    == model
            }
            &&& model.context_topology_refusal() is None && !model.core.has_context(id) ==> {
                &&& activated.result == Err::<bool, ContextRefusal>(
                    ContextRefusal::Core(CoreContextRefusal::UnknownBrowserContext(id)),
                )
                &&& activated.model == model
            }
            &&& model.context_topology_refusal() is None && context.runtime_owner is None ==> {
                &&& registered.result == Err::<bool, ContextRefusal>(
                    ContextRefusal::PhysicalRuntimeOwnerMissing(context.id@),
                )
                &&& registered.model == model
            }
        }),
{
}

/// Whether nothing of a context but the stores of its Targets differs.
pub open spec fn only_stores_differ(before: ContextModel, after: ContextModel) -> bool {
    &&& after.id == before.id
    &&& after.handle == before.handle
    &&& after.auxiliary == before.auxiliary
    &&& after.workers == before.workers
    &&& after.dialog == before.dialog
    &&& after.active.handle == before.active.handle
    &&& after.active.session_id == before.active.session_id
    &&& only_store_differs(before.active.slot, after.active.slot)
    &&& after.background.len() == before.background.len()
    &&& forall|at: int|
        0 <= at < before.background.len() ==> {
            &&& (#[trigger] after.background[at]).handle == before.background[at].handle
            &&& after.background[at].session_id == before.background[at].session_id
            &&& after.background[at].promotable == before.background[at].promotable
            &&& only_store_differs(before.background[at].slot, after.background[at].slot)
        }
}

/// Whether nothing of a slot but its store differs.
pub open spec fn only_store_differs(before: TargetRuntimeSlot, after: TargetRuntimeSlot) -> bool {
    &&& after.page_instance == before.page_instance
    &&& after.loaded_page == before.loaded_page
    &&& after.absence == before.absence
    &&& after.target_url == before.target_url
    &&& after.security_origin == before.security_origin
    &&& after.secure_context_type == before.secure_context_type
    &&& after.pending_navigation == before.pending_navigation
    &&& after.binding == before.binding
    &&& after.popup_id == before.popup_id
}

/// The last of the stores that is for a Target.
pub open spec fn last_store(
    stores: Seq<SessionStorageAccess>,
    target: Seq<char>,
    from: int,
    at: int,
) -> bool {
    &&& from <= at < stores.len()
    &&& stores[at].target_id@ == target
    &&& forall|later: int|
        at < later < stores.len() ==> (#[trigger] stores[later]).target_id@ != target
}

/// Whether a Target is behind at a place, and nowhere before.
pub open spec fn first_behind(context: ContextModel, target: Seq<char>, at: int) -> bool {
    &&& 0 <= at < context.background.len()
    &&& context.background[at].handle.target_id@ == target
    &&& context.active.handle matches Some(handle) ==> handle.target_id@ != target
    &&& forall|earlier: int|
        0 <= earlier < at ==> (#[trigger] context.background[earlier]).handle.target_id@ != target
}

proof fn lemma_first_behind(context: ContextModel, target: Seq<char>, from: nat, at: int)
    requires
        first_behind(context, target, at),
        from <= at,
    ensures
        context.background_from(target, from) == Some(at as nat),
    decreases at - from,
{
    if from < at {
        assert(context.background[from as int].handle.target_id@ != target);
        lemma_first_behind(context, target, from + 1, at);
    }
}

/// A store for the Target in front is put there, one for a Target behind in its
/// slot.
proof fn lemma_store(context: ContextModel, target: Seq<char>, store: u64)
    ensures
        only_stores_differ(context, context.with_store(target, store)),
        context.with_store(target, store).runtime_owner == context.runtime_owner,
        ({
            let after = context.with_store(target, store);
            &&& after.active.slot.session_storage == (if context.active.handle is Some
                && context.active.handle->Some_0.target_id@ == target {
                store
            } else {
                context.active.slot.session_storage
            })
            &&& forall|at: int|
                0 <= at < context.background.len() ==> (
                #[trigger] after.background[at]).slot.session_storage == (if first_behind(
                    context,
                    target,
                    at,
                ) {
                    store
                } else {
                    context.background[at].slot.session_storage
                })
        }),
{
    context.lemma_background_from(target, 0);
    assert forall|at: int| first_behind(context, target, at) implies context.background_index(
        target,
    ) == Some(at as nat) by {
        lemma_first_behind(context, target, 0, at);
    }
    if let Some(index) = context.background_index(target) {
        lemma_found_first(context, target, 0);
        if !(context.active.handle is Some && context.active.handle->Some_0.target_id@ == target) {
            assert(first_behind(context, target, index as int));
        }
    }
}

/// A Target that is found behind is found at the first place that has it.
pub proof fn lemma_found_first(context: ContextModel, target: Seq<char>, from: nat)
    ensures
        context.background_from(target, from) matches Some(at) ==> from <= at
            < context.background.len() && context.background[at as int].handle.target_id@ == target
            && forall|earlier: int|
            from <= earlier < at ==> (#[trigger] context.background[earlier]).handle.target_id@
                != target,
    decreases context.background.len() - from,
{
    if from < context.background.len() && context.background[from as int].handle.target_id@
        != target {
        lemma_found_first(context, target, from + 1);
    }
}

/// A Target that is not found behind is at no place there.
pub proof fn lemma_none_found(context: ContextModel, target: Seq<char>, from: nat)
    ensures
        context.background_from(target, from) is None ==> forall|at: int|
            from <= at < context.background.len() ==> (
            #[trigger] context.background[at]).handle.target_id@ != target,
    decreases context.background.len() - from,
{
    if from < context.background.len() && context.background[from as int].handle.target_id@
        != target {
        lemma_none_found(context, target, from + 1);
    }
}

proof fn lemma_stores(context: ContextModel, stores: Seq<SessionStorageAccess>, from: nat)
    ensures
        only_stores_differ(context, contexts::with_stores(context, stores, from)),
        contexts::with_stores(context, stores, from).runtime_owner == context.runtime_owner,
    decreases stores.len() - from,
{
    if from < stores.len() {
        let store = stores[from as int];
        lemma_store(context, store.target_id@, store.store);
        lemma_stores(context.with_store(store.target_id@, store.store), stores, from + 1);
    }
}

proof fn lemma_store_in_front(
    context: ContextModel,
    stores: Seq<SessionStorageAccess>,
    from: nat,
    target: Seq<char>,
    at: int,
)
    requires
        context.active.handle is Some,
        context.active.handle->Some_0.target_id@ == target,
    ensures
        last_store(stores, target, from as int, at) ==> contexts::with_stores(
            context,
            stores,
            from,
        ).active.slot.session_storage == stores[at].store,
        (forall|other: int|
            from <= other < stores.len() ==> (#[trigger] stores[other]).target_id@ != target)
            ==> contexts::with_stores(context, stores, from).active.slot.session_storage
            == context.active.slot.session_storage,
    decreases stores.len() - from,
{
    if from < stores.len() {
        let store = stores[from as int];
        lemma_store(context, store.target_id@, store.store);
        let next = context.with_store(store.target_id@, store.store);
        lemma_store_in_front(next, stores, from + 1, target, at);
        if at == from as int {
            assert(last_store(stores, target, from as int, at) ==> forall|other: int|
                from + 1 <= other < stores.len() ==> (#[trigger] stores[other]).target_id@
                    != target);
        }
    }
}

proof fn lemma_store_behind(
    context: ContextModel,
    stores: Seq<SessionStorageAccess>,
    from: nat,
    target: Seq<char>,
    behind: int,
    at: int,
)
    requires
        first_behind(context, target, behind),
    ensures
        last_store(stores, target, from as int, at) ==> contexts::with_stores(
            context,
            stores,
            from,
        ).background[behind].slot.session_storage == stores[at].store,
        (forall|other: int|
            from <= other < stores.len() ==> (#[trigger] stores[other]).target_id@ != target)
            ==> contexts::with_stores(context, stores, from).background[behind].slot.session_storage
            == context.background[behind].slot.session_storage,
    decreases stores.len() - from,
{
    if from < stores.len() {
        let store = stores[from as int];
        lemma_store(context, store.target_id@, store.store);
        let next = context.with_store(store.target_id@, store.store);
        assert(next.background[behind].handle == context.background[behind].handle);
        assert forall|earlier: int| 0 <= earlier < behind implies (
        #[trigger] next.background[earlier]).handle.target_id@ != target by {
            assert(context.background[earlier].handle.target_id@ != target);
        }
        assert(first_behind(next, target, behind));
        lemma_store_behind(next, stores, from + 1, target, behind, at);
        if store.target_id@ != target {
            assert(!first_behind(context, store.target_id@, behind));
        }
        if at == from as int {
            assert(last_store(stores, target, from as int, at) ==> forall|other: int|
                from + 1 <= other < stores.len() ==> (#[trigger] stores[other]).target_id@
                    != target);
        }
    }
}

/// A registered context is in the selected place exactly where Browser Core
/// selected it, and behind all others where it did not; the others stay where
/// they are. Core has its renderer runtime from then on.
pub proof fn law_registered_context_is_placed(
    model: ConnectionModel,
    context: ContextModel,
    commit: CoreCommit<ContextRegistration>,
)
    requires
        model.context_topology_refusal() is None,
        context.runtime_owner is Some,
    ensures
        ({
            let changed = contexts::register(model, context, Ok(commit));
            let after = changed.model;
            let placed = if commit.outcome.selected {
                after.selected->Some_0
            } else {
                after.inactive.last()
            };
            &&& changed.result == Ok::<bool, ContextRefusal>(commit.outcome.selected)
            &&& after.core == commit.core
            &&& after.browser_sessions == model.browser_sessions
            &&& after.effects == model.effects
            &&& commit.outcome.selected ==> after.selected is Some && after.inactive
                == model.inactive
            &&& !commit.outcome.selected ==> {
                &&& after.selected == model.selected
                &&& after.inactive.len() == model.inactive.len() + 1
                &&& forall|other: int|
                    0 <= other < model.inactive.len() ==> #[trigger] after.inactive[other]
                        == model.inactive[other]
            }
            &&& placed.runtime_owner is None
            &&& only_stores_differ(context, placed)
        }),
{
    let bare = ContextModel { runtime_owner: None, ..context };
    lemma_stores(bare, commit.outcome.session_storage@, 0);
}

/// The Targets of a registered context have the stores that Browser Core keeps
/// for them: each the last that is named for it, and its own where none is.
pub proof fn law_registered_targets_have_cores_stores(
    model: ConnectionModel,
    context: ContextModel,
    commit: CoreCommit<ContextRegistration>,
    target: Seq<char>,
    behind: int,
    at: int,
)
    requires
        model.context_topology_refusal() is None,
        context.runtime_owner is Some,
    ensures
        ({
            let after = contexts::register(model, context, Ok(commit)).model;
            let stores = commit.outcome.session_storage@;
            let placed = if commit.outcome.selected {
                after.selected->Some_0
            } else {
                after.inactive.last()
            };
            let unnamed = forall|other: int|
                0 <= other < stores.len() ==> (#[trigger] stores[other]).target_id@ != target;
            &&& context.active.handle is Some && context.active.handle->Some_0.target_id@ == target
                ==> {
                &&& last_store(stores, target, 0, at) ==> placed.active.slot.session_storage
                    == stores[at].store
                &&& unnamed ==> placed.active.slot.session_storage
                    == context.active.slot.session_storage
            }
            &&& first_behind(context, target, behind) ==> {
                &&& last_store(stores, target, 0, at)
                    ==> placed.background[behind].slot.session_storage == stores[at].store
                &&& unnamed ==> placed.background[behind].slot.session_storage
                    == context.background[behind].slot.session_storage
            }
        }),
{
    let bare = ContextModel { runtime_owner: None, ..context };
    let stores = commit.outcome.session_storage@;
    if context.active.handle is Some && context.active.handle->Some_0.target_id@ == target {
        lemma_store_in_front(bare, stores, 0, target, at);
    }
    if first_behind(context, target, behind) {
        assert(first_behind(bare, target, behind));
        lemma_store_behind(bare, stores, 0, target, behind, at);
    }
}

/// The creation of a registered context's only Target is claimed as that of the
/// Page that Browser Core reports for it. Without a Target nothing is claimed.
pub proof fn law_creation_is_claimed_with_the_registration(
    model: ConnectionModel,
    context: ContextModel,
    commit: CoreCommit<ContextRegistration>,
)
    requires
        model.context_topology_refusal() is None,
        context.runtime_owner is Some,
        context.background.len() == 0,
    ensures
        ({
            let after = contexts::register(model, context, Ok(commit)).model;
            &&& context.active.handle is None ==> after.facts == model.facts
            &&& context.active.handle matches Some(handle) ==> {
                let page = contexts::page_identity(commit.core, context.id, handle.target_id);
                &&& page matches Some(page) ==> after.facts == model::claim_fact(
                    model.facts,
                    FactClaim::TargetCreated { page },
                ).model
                &&& page is None ==> after.facts == model.facts
            }
        }),
{
    reveal_with_fuel(contexts::claim_creations, 2);
    assert(context.background_slots().len() == 0);
}

/// A removal hands the context of that name back, and says that the selection
/// changed where it was the selected one. Its successor then takes the selected
/// place; without one that place is empty. No other context moves, but those
/// behind it close up.
pub proof fn law_removed_context_is_handed_back(
    model: ConnectionModel,
    id: Seq<char>,
    permit: BrowserContextRemovalPermit,
    commit: CoreCommit<ContextRemoval>,
    at: int,
)
    ensures
        ({
            let changed = contexts::remove(model, id, permit, Ok(commit));
            let after = changed.model;
            let others = |gone: int|
                after.inactive.len() == model.inactive.len() - 1 && (forall|other: int|
                    0 <= other < gone ==> #[trigger] after.inactive[other]
                        == model.inactive[other]) && forall|other: int|
                    gone <= other < after.inactive.len() ==> #[trigger] after.inactive[other]
                        == model.inactive[other + 1];
            &&& changed.result matches Ok(removed) ==> {
                &&& removed.context.id@ == id
                &&& removed.selection_changed == permit.was_selected
                &&& removed.retired_page_owners == commit.outcome.retired_page_owners@
                &&& removed.runtime_owner == commit.outcome.runtime_owner
                &&& after.core == commit.core
                &&& only_contexts_change(model, after)
            }
            &&& permit.was_selected && model.selected is Some && model.selected->Some_0.id@ == id
                ==> {
                &&& permit.successor_browser_context_id is None ==> changed.result is Ok
                    && changed.result->Ok_0.context == model.selected->Some_0 && after.selected
                    is None && after.inactive == model.inactive
                &&& permit.successor_browser_context_id matches Some(successor) ==> (first_named(
                    model.inactive,
                    successor@,
                    at,
                ) ==> {
                    &&& changed.result is Ok
                    &&& changed.result->Ok_0.context == model.selected->Some_0
                    &&& after.selected == Some(model.inactive[at])
                    &&& others(at)
                })
            }
            &&& !permit.was_selected && first_named(model.inactive, id, at) ==> {
                &&& changed.result is Ok
                &&& changed.result->Ok_0.context == model.inactive[at]
                &&& after.selected == model.selected
                &&& others(at)
            }
        }),
{
    if permit.was_selected {
        if let Some(successor) = permit.successor_browser_context_id {
            state::lemma_find_context(model.inactive, successor@, 0);
            if first_named(model.inactive, successor@, at) {
                lemma_first_named(model.inactive, successor@, 0, at);
            }
        }
    } else {
        state::lemma_find_context(model.inactive, id, 0);
        if first_named(model.inactive, id, at) {
            lemma_first_named(model.inactive, id, 0, at);
        }
    }
}

/// What Browser Core refuses, and what a removal names that is not there, is
/// told, and no slot changes.
pub proof fn law_refused_removal_is_told(
    model: ConnectionModel,
    id: Seq<char>,
    expected: Option<BrowserContextHandle>,
    permit: BrowserContextRemovalPermit,
    answer: Result<CoreCommit<ContextRemoval>, BrowserContextRuntimeRegistryError>,
)
    ensures
        ({
            let asked = contexts::request_removal(model, id, expected, Ok(permit), answer);
            let agreed = model.context_topology_refusal() is None;
            &&& agreed && model.context(id) is None ==> asked.model == model && asked.result
                == Err::<contexts::RemovedContext, ContextRefusal>(
                ContextRefusal::PhysicalContextMissing(id),
            )
            &&& agreed && expected is Some ==> (model.context(id) matches Some(context) ==> (
            context.handle.browser_context_id@ != expected->Some_0.browser_context_id@
                || context.handle.instance != expected->Some_0.instance ==> asked.model == model
                && asked.result == Err::<contexts::RemovedContext, ContextRefusal>(
                ContextRefusal::Core(CoreContextRefusal::BrowserContextHandleProjectionMismatch(id)),
            )))
            &&& agreed && (model.context(id) matches Some(context) && (expected is None || (
            context.handle.browser_context_id@ == expected->Some_0.browser_context_id@
                && context.handle.instance == expected->Some_0.instance))) ==> asked
                == contexts::remove(model, id, permit, answer)
            &&& permit.was_selected && model.selected is Some && model.selected->Some_0.id@ != id
                ==> contexts::remove(model, id, permit, answer).result == Err::<
                contexts::RemovedContext,
                ContextRefusal,
            >(
                ContextRefusal::PhysicalSelectionMismatch {
                    authoritative: Some(id),
                    projected: Some(model.selected->Some_0.id@),
                },
            )
        }),
{
}

/// What is left to do when the selection changes: on an activation the new
/// context's engine takes the fetch overrides, then the resource runtime is made
/// anew; on a disposal the runtime comes first; on an insertion only the
/// overrides are taken. Nothing is left where the selection stays.
pub proof fn law_new_selection_takes_overrides(
    model: ConnectionModel,
    id: Seq<char>,
    context: ContextModel,
    reservation: BrowserContextDisposalReservation,
    activation: CoreCommit<bool>,
    registration: CoreCommit<ContextRegistration>,
    permit: BrowserContextRemovalPermit,
    removal: CoreCommit<ContextRemoval>,
)
    ensures
        ({
            let activated = lifecycle::try_activate(model, id, Ok(activation));
            let inserted = lifecycle::try_insert(model, context, Ok(registration));
            let disposed = lifecycle::dispose(model, reservation, Ok(permit), Ok(removal));
            let left = |after: ConnectionModel, at: int| after.effects[model.effects.len() + at];
            &&& activated.result == Ok::<bool, ContextRefusal>(true) ==> {
                &&& activated.model.effects.len() == model.effects.len() + 2
                &&& activated.model.effects.take(model.effects.len() as int) == model.effects
                &&& left(activated.model, 0) is ApplyFetchOverrides
                &&& left(activated.model, 1) is InvalidateResourceRuntime
            }
            &&& activated.result != Ok::<bool, ContextRefusal>(true) ==> activated.model.effects
                == model.effects
            &&& inserted.result is Ok && registration.outcome.selected ==> {
                &&& inserted.model.effects.len() == model.effects.len() + 1
                &&& inserted.model.effects.take(model.effects.len() as int) == model.effects
                &&& left(inserted.model, 0) is ApplyFetchOverrides
            }
            &&& inserted.result is Err || !registration.outcome.selected
                ==> inserted.model.effects == model.effects
            &&& disposed.result is Ok && permit.was_selected ==> {
                &&& disposed.model.effects.len() == model.effects.len() + 2
                &&& disposed.model.effects.take(model.effects.len() as int) == model.effects
                &&& left(disposed.model, 0) is InvalidateResourceRuntime
                &&& left(disposed.model, 1) is ApplyFetchOverrides
            }
            &&& disposed.result is Err || !permit.was_selected ==> disposed.model.effects
                == model.effects
            &&& activated.result == contexts::activate(model, id, Ok(activation)).result
            &&& (inserted.result is Ok) == (contexts::register(
                model,
                context,
                Ok(registration),
            ).result is Ok)
        }),
{
}

/// Whether no context but the one at a place differs.
pub open spec fn only_place_changes(
    before: ConnectionModel,
    after: ConnectionModel,
    place: PhysicalBrowserContextSlot,
) -> bool {
    match place {
        PhysicalBrowserContextSlot::Selected => after.selected is Some && after.inactive
            == before.inactive,
        PhysicalBrowserContextSlot::Inactive(at) => {
            &&& after.selected == before.selected
            &&& after.inactive.len() == before.inactive.len()
            &&& forall|other: int|
                0 <= other < before.inactive.len() && other != at
                    ==> #[trigger] after.inactive[other] == before.inactive[other]
        },
    }
}

/// The context at a place.
pub open spec fn at_place(
    model: ConnectionModel,
    place: PhysicalBrowserContextSlot,
) -> ContextModel {
    match place {
        PhysicalBrowserContextSlot::Selected => model.selected->Some_0,
        PhysicalBrowserContextSlot::Inactive(at) => model.inactive[at as int],
    }
}

/// Whether there is a context at a place.
pub open spec fn is_place(model: ConnectionModel, place: PhysicalBrowserContextSlot) -> bool {
    match place {
        PhysicalBrowserContextSlot::Selected => model.selected is Some,
        PhysicalBrowserContextSlot::Inactive(at) => at < model.inactive.len(),
    }
}

/// A context that changes stays in its place, and nothing else changes with it.
pub proof fn law_changed_context_stays_in_place(
    model: ConnectionModel,
    place: PhysicalBrowserContextSlot,
    context: ContextModel,
)
    requires
        is_place(model, place),
    ensures
        ({
            let after = model.changing_context(place, context);
            &&& at_place(after, place) == context
            &&& only_place_changes(model, after, place)
            &&& after.core == model.core
            &&& only_contexts_change(model, after)
        }),
{
}

/// Where a context of a name is found there is one.
pub proof fn lemma_place_is_there(model: ConnectionModel, id: Seq<char>)
    requires
        model.inactive.len() <= usize::MAX,
    ensures
        model.place_of(id) matches Some(place) ==> is_place(model, place) && at_place(
            model,
            place,
        ).id@ == id && model.context_at(place) == at_place(model, place),
{
    state::lemma_find_context(model.inactive, id, 0);
}

/// A Target that is registered behind is the last behind, in the context of that
/// name, with the instance, the place of the Page and the store that Browser Core
/// gave it, and otherwise as it was handed over. Its creation is claimed as that
/// of the Page that Core made.
pub proof fn law_registered_target_is_last_behind(
    model: ConnectionModel,
    id: Seq<char>,
    target: BackgroundTarget,
    commit: CoreCommit<BrowserTargetRegistration>,
)
    requires
        model.inactive.len() <= usize::MAX,
    ensures
        ({
            let changed = targets::register_background(model, id, target, Ok(commit));
            let claimed = model::claim_fact(
                model.facts,
                FactClaim::TargetCreated { page: commit.outcome.page },
            );
            let after = changed.model;
            &&& model.target_topology_refusal() matches Some(refusal) ==> after == model
                && changed.result == Err::<Option<BrowserFactEnvelope>, TargetRefusal>(refusal)
            &&& model.target_topology_refusal() is None && model.place_of(id) is None ==> after
                == model && changed.result == Err::<Option<BrowserFactEnvelope>, TargetRefusal>(
                TargetRefusal::PhysicalBrowserContextMissing(id),
            )
            &&& model.target_topology_refusal() is None ==> (model.place_of(id) matches Some(place)
                ==> {
                let before = at_place(model, place);
                let context = at_place(after, place);
                let behind = context.background.last();
                &&& changed.result is Ok
                &&& claimed.result matches Ok(fact) ==> changed.result->Ok_0 == Some(fact)
                &&& claimed.result is Err ==> changed.result->Ok_0 is None
                &&& after.facts == claimed.model
                &&& after.core == commit.core
                &&& after.effects == model.effects
                &&& only_place_changes(model, after, place)
                &&& context.background.len() == before.background.len() + 1
                &&& context.background.drop_last() == before.background
                &&& context.active == before.active && context.id == before.id
                    && context.auxiliary == before.auxiliary && context.workers == before.workers
                    && context.dialog == before.dialog && context.handle == before.handle
                    && context.runtime_owner == before.runtime_owner
                &&& behind.handle == commit.outcome.handle
                &&& behind.session_id == target.session_id
                &&& behind.promotable == target.promotable
                &&& behind.slot.page_instance == commit.outcome.page.residence.instance
                &&& behind.slot.session_storage == commit.outcome.session_storage
                &&& behind.slot == (TargetRuntimeSlot {
                    page_instance: behind.slot.page_instance,
                    session_storage: behind.slot.session_storage,
                    ..target.slot
                })
            })
        }),
{
    lemma_place_is_there(model, id);
    if model.target_topology_refusal() is None && model.place_of(id) is Some {
        let place = model.place_of(id)->Some_0;
        let before = at_place(model, place);
        let after = targets::register_background(model, id, target, Ok(commit)).model;
        let behind = BackgroundTarget {
            handle: commit.outcome.handle,
            slot: commit.outcome.bound_slot(target.slot),
            ..target
        };
        let grown = ContextModel { background: before.background.push(behind), ..before };
        law_changed_context_stays_in_place(
            ConnectionModel { core: commit.core, ..model },
            place,
            grown,
        );
        assert(at_place(after, place) == grown);
        assert(grown.background.drop_last() =~= before.background);
    }
}

/// A Target that is registered in front takes the front place of the selected
/// context, with the instance, the place of the Page and the store that Browser
/// Core gave it. What else the front slot held stays, as do the Targets behind.
pub proof fn law_registered_target_is_in_front(
    model: ConnectionModel,
    commit: CoreCommit<BrowserTargetRegistration>,
)
    requires
        model.target_topology_refusal() is None,
        model.selected is Some,
    ensures
        ({
            let changed = targets::register_front(model, Ok(commit));
            let claimed = model::claim_fact(
                model.facts,
                FactClaim::TargetCreated { page: commit.outcome.page },
            );
            let after = changed.model;
            let before = model.selected->Some_0;
            let context = after.selected->Some_0;
            &&& changed.result is Ok && after.selected is Some
            &&& claimed.result matches Ok(fact) ==> changed.result->Ok_0 == Some(fact)
            &&& claimed.result is Err ==> changed.result->Ok_0 is None
            &&& after.facts == claimed.model
            &&& after.core == commit.core
            &&& after.inactive == model.inactive && after.effects == model.effects
            &&& context.active.handle == Some(commit.outcome.handle)
            &&& context.active.session_id == before.active.session_id
            &&& context.active.slot.page_instance == commit.outcome.page.residence.instance
            &&& context.active.slot.session_storage == commit.outcome.session_storage
            &&& context.active.slot == (TargetRuntimeSlot {
                page_instance: context.active.slot.page_instance,
                session_storage: context.active.slot.session_storage,
                ..before.active.slot
            })
            &&& context == (ContextModel { active: context.active, ..before })
        }),
{
}

/// An activated Target is in front of the selected context with its own session
/// and slot. The one from there is the last behind and may come back; those
/// behind keep their order. The Page is brought up to date where the front
/// changed and no dialog is open.
pub proof fn law_activated_target_is_in_front(
    model: ConnectionModel,
    target: Seq<char>,
    commit: CoreCommit<bool>,
    at: int,
)
    requires
        model.target_topology_refusal() is None,
        model.selected is Some,
    ensures
        ({
            let changed = targets::activate_target(model, target, Ok(commit));
            let before = model.selected->Some_0;
            let after = changed.model;
            let context = after.selected->Some_0;
            let front = before.active.handle is Some && before.active.handle->Some_0.target_id@
                == target;
            &&& front || first_behind(before, target, at) ==> {
                &&& changed.result is Ok && after.selected is Some
                &&& changed.result->Ok_0.synchronize_loaded_page <==> commit.outcome
                    && !before.dialog
                &&& after.core == commit.core && after.inactive == model.inactive
                &&& only_contexts_change(model, after)
            }
            &&& front ==> after.selected == model.selected
            &&& first_behind(before, target, at) ==> {
                let moved = before.background[at];
                &&& context.active.handle == Some(moved.handle)
                &&& context.active.session_id == moved.session_id
                &&& context.active.slot == moved.slot
                &&& forall|other: int|
                    0 <= other < at ==> #[trigger] context.background[other]
                        == before.background[other]
                &&& forall|other: int|
                    at <= other < before.background.len() - 1
                        ==> #[trigger] context.background[other] == before.background[other + 1]
                &&& before.active.handle is None ==> context.background.len()
                    == before.background.len() - 1
                &&& before.active.handle matches Some(handle) ==> {
                    let last = context.background.last();
                    &&& context.background.len() == before.background.len()
                    &&& last.handle == handle
                    &&& last.session_id == before.active.session_id
                    &&& last.slot == before.active.slot
                    &&& last.promotable
                }
                &&& context == (ContextModel {
                    active: context.active,
                    background: context.background,
                    ..before
                })
            }
            &&& !front && (forall|other: int|
                0 <= other < before.background.len() ==> (
                #[trigger] before.background[other]).handle.target_id@ != target) ==> after == model
                && changed.result == Err::<targets::ProjectedTargetActivation, TargetRefusal>(
                TargetRefusal::PhysicalTargetMissing {
                    browser_context_id: before.id@,
                    target_id: target,
                },
            )
        }),
{
    let before = model.selected->Some_0;
    before.lemma_background_from(target, 0);
    if first_behind(before, target, at) {
        lemma_first_behind(before, target, 0, at);
    }
}

/// A registration that is undone takes the Target's slot out, hands it back with
/// the Page's owner that Browser Core retired, and leaves the rest as it was.
pub proof fn law_undone_registration_takes_the_slot_out(
    model: ConnectionModel,
    id: Seq<char>,
    target: Seq<char>,
    commit: CoreCommit<Option<u64>>,
    place: PhysicalBrowserContextSlot,
    at: int,
)
    requires
        model.inactive.len() <= usize::MAX,
        model.target_topology_refusal() is None,
        model.place_of(id) == Some(place),
        first_behind(at_place(model, place), target, at),
    ensures
        ({
            let changed = targets::rollback(model, id, target, Ok(commit));
            let before = at_place(model, place);
            let context = at_place(changed.model, place);
            &&& changed.result is Ok
            &&& changed.result->Ok_0.target == before.background[at]
            &&& changed.result->Ok_0.retired_page_owner == commit.outcome
            &&& changed.model.core == commit.core
            &&& only_contexts_change(model, changed.model)
            &&& only_place_changes(model, changed.model, place)
            &&& context.background.len() == before.background.len() - 1
            &&& forall|other: int|
                0 <= other < at ==> #[trigger] context.background[other]
                    == before.background[other]
            &&& forall|other: int|
                at <= other < context.background.len() ==> #[trigger] context.background[other]
                    == before.background[other + 1]
            &&& context == (ContextModel { background: context.background, ..before })
        }),
{
    lemma_place_is_there(model, id);
    let before = at_place(model, place);
    lemma_first_behind(before, target, 0, at);
    law_changed_context_stays_in_place(
        ConnectionModel { core: commit.core, ..model },
        place,
        ContextModel { background: before.background.remove(at), ..before },
    );
}

/// A registration behind that is undone leaves the contexts as they were.
pub proof fn law_undoing_restores_the_contexts(
    model: ConnectionModel,
    id: Seq<char>,
    target: BackgroundTarget,
    registered: CoreCommit<BrowserTargetRegistration>,
    undone: CoreCommit<Option<u64>>,
    place: PhysicalBrowserContextSlot,
)
    requires
        model.inactive.len() <= usize::MAX,
        model.target_topology_refusal() is None,
        model.place_of(id) == Some(place),
        ({
            let after = targets::register_background(model, id, target, Ok(registered)).model;
            let name = registered.outcome.handle.target_id@;
            let context = at_place(after, place);
            &&& after.target_topology_refusal() is None
            &&& first_behind(context, name, context.background.len() - 1)
        }),
    ensures
        ({
            let after = targets::register_background(model, id, target, Ok(registered)).model;
            let back = targets::rollback(
                after,
                id,
                registered.outcome.handle.target_id@,
                Ok(undone),
            ).model;
            back.selected == model.selected && back.inactive == model.inactive
        }),
{
    let after = targets::register_background(model, id, target, Ok(registered)).model;
    let name = registered.outcome.handle.target_id@;
    law_registered_target_is_last_behind(model, id, target, registered);
    lemma_place_is_there(model, id);
    let before = at_place(model, place);
    let context = at_place(after, place);
    lemma_same_place(model, after, id, place);
    law_undone_registration_takes_the_slot_out(
        after,
        id,
        name,
        undone,
        place,
        context.background.len() - 1,
    );
    let back = targets::rollback(after, id, name, Ok(undone)).model;
    assert(at_place(back, place).background =~= before.background);
    assert(at_place(back, place) == before);
    assert(back.inactive =~= model.inactive);
}

/// A context that keeps its name keeps its place.
proof fn lemma_same_place(
    before: ConnectionModel,
    after: ConnectionModel,
    id: Seq<char>,
    place: PhysicalBrowserContextSlot,
)
    requires
        before.inactive.len() <= usize::MAX,
        before.place_of(id) == Some(place),
        only_place_changes(before, after, place),
        at_place(after, place).id == at_place(before, place).id,
    ensures
        after.place_of(id) == Some(place),
        after.inactive.len() == before.inactive.len(),
{
    lemma_place_is_there(before, id);
    if let PhysicalBrowserContextSlot::Inactive(at) = place {
        state::lemma_find_context(before.inactive, id, 0);
        lemma_same_find(before.inactive, after.inactive, id, 0, at as int);
    }
}

proof fn lemma_same_find(
    before: Seq<ContextModel>,
    after: Seq<ContextModel>,
    id: Seq<char>,
    from: nat,
    at: int,
)
    requires
        before.len() == after.len(),
        0 <= at < before.len(),
        before[at].id == after[at].id,
        forall|other: int|
            0 <= other < before.len() && other != at ==> #[trigger] after[other] == before[other],
    ensures
        state::find_context(after, id, from) == state::find_context(before, id, from),
    decreases before.len() - from,
{
    if from < before.len() {
        lemma_same_find(before, after, id, from + 1, at);
    }
}

} // verus!
