//! Laws of the connection.
use vstd::prelude::*;

use crate::connection::contexts;
use crate::connection::contexts::{
    BrowserContextRemovalPermit, ContextRegistration, ContextRemoval, CoreCommit,
    SessionStorageAccess,
};
use crate::connection::core_record::{BrowserContextHandle, BrowserCoreRecord};
use crate::connection::errors::{
    BrowserContextRegistryError, BrowserContextRuntimeRegistryError, BrowserTargetRegistryError,
    ContextRefusal,
};
use crate::connection::lifecycle;
use crate::connection::navigation;
use crate::connection::slots::{BackgroundTarget, ContextModel};
use crate::connection::snapshots;
use crate::connection::snapshots::BrowserTargetStateSnapshot;
use crate::connection::state;
use crate::connection::state::ConnectionModel;
use crate::connection::targets;
use crate::connection::targets::BrowserTargetRegistration;
use crate::devtools::DevToolsTargetInfo;
use crate::text;

verus! {

/// Whether two connections hold the same contexts in the same places.
pub open spec fn same_slots(left: ConnectionModel, right: ConnectionModel) -> bool {
    left.selected == right.selected && left.inactive == right.inactive
}

/// A change of the contexts that is refused, by the slots or by Browser Core,
/// leaves every context where it was.
pub proof fn law_refused_context_change_leaves_slots(
    model: ConnectionModel,
    id: Seq<char>,
    context: ContextModel,
    permit: BrowserContextRemovalPermit,
    activation: Result<CoreCommit<bool>, BrowserContextRegistryError>,
    registration: Result<CoreCommit<ContextRegistration>, BrowserContextRuntimeRegistryError>,
    removal: Result<CoreCommit<ContextRemoval>, BrowserContextRuntimeRegistryError>,
)
    ensures
        contexts::activate(model, id, activation).result is Err ==> same_slots(
            contexts::activate(model, id, activation).model,
            model,
        ),
        contexts::register(model, context, registration).result is Err ==> contexts::register(
            model,
            context,
            registration,
        ).model == model,
        contexts::remove(model, id, permit, removal).result is Err ==> contexts::remove(
            model,
            id,
            permit,
            removal,
        ).model == model,
{
}

/// A change of the Targets that is refused, by the slots or by Browser Core,
/// leaves the connection as it was.
pub proof fn law_refused_target_change_leaves_connection(
    model: ConnectionModel,
    id: Seq<char>,
    target: Seq<char>,
    behind: BackgroundTarget,
    registration: Result<CoreCommit<BrowserTargetRegistration>, BrowserTargetRegistryError>,
    activation: Result<CoreCommit<bool>, BrowserTargetRegistryError>,
    withdrawal: Result<CoreCommit<Option<u64>>, BrowserTargetRegistryError>,
)
    ensures
        targets::register_background(model, id, behind, registration).result is Err
            ==> targets::register_background(model, id, behind, registration).model == model,
        targets::register_front(model, registration).result is Err ==> targets::register_front(
            model,
            registration,
        ).model == model,
        targets::activate_target(model, target, activation).result is Err
            ==> targets::activate_target(model, target, activation).model == model,
        targets::rollback(model, id, target, withdrawal).result is Err ==> targets::rollback(
            model,
            id,
            target,
            withdrawal,
        ).model == model,
{
}

/// A context that is taken out of its place and put back is exactly where it
/// was.
pub proof fn law_context_is_put_back(model: ConnectionModel, id: Seq<char>)
    ensures
        model.place_of(id) matches Some(place) ==> model.without_context(place).with_context(
            place,
            model.context_at(place),
        ) == model,
{
    targets::lemma_put_back(model, id);
}

/// An activation that changes the selection selects the context of that name,
/// and loses, adds and changes no context.
pub proof fn law_activation_only_moves(
    model: ConnectionModel,
    id: Seq<char>,
    answer: Result<CoreCommit<bool>, BrowserContextRegistryError>,
)
    requires
        contexts::activate(model, id, answer).result == Ok::<bool, ContextRefusal>(true),
    ensures
        contexts::activate(model, id, answer).model.selected_id() == Some(id),
        contexts::activate(model, id, answer).model.contexts().to_multiset()
            == model.contexts().to_multiset(),
        contexts::activate(model, id, answer).model.inactive.last() == model.selected->Some_0,
{
    broadcast use vstd::seq_lib::group_to_multiset_ensures;

    state::lemma_find_context(model.inactive, id, 0);
    let index = state::find_context(model.inactive, id, 0)->Some_0 as int;
    let previous = model.selected->Some_0;
    let candidate = model.inactive[index];
    let after = contexts::activate(model, id, answer).model;
    assert(after.contexts() =~= seq![candidate] + model.inactive.remove(index).push(previous));
    vstd::seq_lib::lemma_multiset_commutative(seq![previous], model.inactive);
    vstd::seq_lib::lemma_multiset_commutative(
        seq![candidate],
        model.inactive.remove(index).push(previous),
    );
    let one = seq![candidate];
    let other = seq![previous];
    assert(one =~= Seq::<ContextModel>::empty().push(candidate));
    assert(other =~= Seq::<ContextModel>::empty().push(previous));
    assert(model.inactive.remove(index).to_multiset() =~= model.inactive.to_multiset().remove(
        candidate,
    ));
    assert(model.inactive.to_multiset().count(candidate) > 0);
    assert(after.contexts().to_multiset() =~= model.contexts().to_multiset());
}

/// Whether no two contexts share a name.
pub open spec fn distinct_ids(contexts: Seq<ContextModel>) -> bool {
    forall|left: int, right: int|
        0 <= left < right < contexts.len() ==> (#[trigger] contexts[left]).id@ != (
        #[trigger] contexts[right]).id@
}

/// Whether Browser Core knows each context as exactly that instance.
pub open spec fn known_contexts(core: BrowserCoreRecord, contexts: Seq<ContextModel>) -> bool {
    forall|index: int|
        0 <= index < contexts.len() ==> {
            &&& core.has_context((#[trigger] contexts[index]).id@)
            &&& core.context_handle_current(contexts[index].handle)
        }
}

proof fn lemma_no_refusal_from(core: BrowserCoreRecord, contexts: Seq<ContextModel>, from: nat)
    requires
        from <= contexts.len(),
    ensures
        state::context_refusal_from(core, contexts, from) is None <==> forall|index: int|
            from <= index < contexts.len() ==> {
                &&& !state::listed_before(contexts, index, (#[trigger] contexts[index]).id@)
                &&& core.has_context(contexts[index].id@)
                &&& core.context_handle_current(contexts[index].handle)
            },
    decreases contexts.len() - from,
{
    if from < contexts.len() {
        lemma_no_refusal_from(core, contexts, from + 1);
    }
}

/// The slots agree with Browser Core's contexts exactly where the names are
/// as many as Core's, the selection is Core's, no name occurs twice, and Core
/// knows each context as that instance.
pub proof fn law_agreement(model: ConnectionModel)
    ensures
        model.context_topology_refusal() is None <==> {
            &&& model.contexts().len() == model.core.contexts@.len()
            &&& model.selected_id() == text::opt_chars(model.core.selected_browser_context_id)
            &&& distinct_ids(model.contexts())
            &&& known_contexts(model.core, model.contexts())
        },
{
    let contexts = model.contexts();
    lemma_no_refusal_from(model.core, contexts, 0);
    if distinct_ids(contexts) {
        assert forall|index: int| 0 <= index < contexts.len() implies !state::listed_before(
            contexts,
            index,
            (#[trigger] contexts[index]).id@,
        ) by {}
    }
    if state::context_refusal_from(model.core, contexts, 0) is None {
        assert forall|left: int, right: int| 0 <= left < right < contexts.len() implies (
        #[trigger] contexts[left]).id@ != (#[trigger] contexts[right]).id@ by {
            assert(!state::listed_before(contexts, right, contexts[right].id@));
        }
    }
}

/// Where the slots agree with Browser Core, they still do after an activation,
/// as long as Core keeps its contexts and selects the one that was named.
pub proof fn law_activation_keeps_agreement(
    model: ConnectionModel,
    id: Seq<char>,
    answer: Result<CoreCommit<bool>, BrowserContextRegistryError>,
)
    requires
        contexts::activate(model, id, answer).result == Ok::<bool, ContextRefusal>(true),
        answer->Ok_0.core.contexts == model.core.contexts,
        text::opt_chars(answer->Ok_0.core.selected_browser_context_id) == Some(id),
    ensures
        contexts::activate(model, id, answer).model.context_topology_refusal() is None,
{
    law_agreement(model);
    state::lemma_find_context(model.inactive, id, 0);
    let index = state::find_context(model.inactive, id, 0)->Some_0 as int;
    let before = model.contexts();
    let after = contexts::activate(model, id, answer).model;
    let now = after.contexts();
    let count = model.inactive.len() as int;
    let source = |at: int|
        if at == 0 {
            index + 1
        } else if at <= index {
            at
        } else if at < count {
            at + 1
        } else {
            0
        };
    assert(now.len() == before.len());
    assert forall|at: int| 0 <= at < now.len() implies #[trigger] now[at] == before[source(at)]
        && 0 <= source(at) < before.len() by {}
    assert forall|left: int, right: int| 0 <= left < right < now.len() implies (
    #[trigger] now[left]).id@ != (#[trigger] now[right]).id@ by {
        assert(now[left] == before[source(left)]);
        assert(now[right] == before[source(right)]);
        assert(source(left) != source(right));
        if source(left) < source(right) {
            assert(before[source(left)].id@ != before[source(right)].id@);
        } else {
            assert(before[source(right)].id@ != before[source(left)].id@);
        }
    }
    assert(known_contexts(after.core, now)) by {
        assert forall|at: int| 0 <= at < now.len() implies after.core.has_context(
            (#[trigger] now[at]).id@,
        ) && after.core.context_handle_current(now[at].handle) by {
            let context = before[source(at)];
            assert(now[at] == context);
            assert(model.core.has_context(context.id@));
            let known = choose|known: int| model.core.context_is(known, context.id@);
            assert(after.core.context_is(known, context.id@));
            let held = choose|held: int|
                0 <= held < model.core.contexts@.len() && (
                #[trigger] model.core.contexts@[held]).handle.same(&context.handle);
            assert(after.core.contexts@[held].handle.same(&context.handle));
        }
    }
    law_agreement(after);
}

/// Whether Browser Core has selected the context of a name, has said whether
/// that changed its selection, and has kept its contexts.
pub open spec fn core_selects(
    before: BrowserCoreRecord,
    commit: CoreCommit<bool>,
    id: Seq<char>,
) -> bool {
    &&& commit.core.contexts == before.contexts
    &&& text::opt_chars(commit.core.selected_browser_context_id) == Some(id)
    &&& commit.outcome == (text::opt_chars(before.selected_browser_context_id) != Some(id))
}

/// Contexts that Browser Core knows it still knows while it keeps its contexts.
proof fn lemma_still_known(
    before: BrowserCoreRecord,
    after: BrowserCoreRecord,
    contexts: Seq<ContextModel>,
)
    requires
        known_contexts(before, contexts),
        after.contexts == before.contexts,
    ensures
        known_contexts(after, contexts),
{
    assert forall|at: int| 0 <= at < contexts.len() implies after.has_context(
        (#[trigger] contexts[at]).id@,
    ) && after.context_handle_current(contexts[at].handle) by {
        let context = contexts[at];
        assert(before.has_context(context.id@));
        let known = choose|known: int| before.context_is(known, context.id@);
        assert(after.context_is(known, context.id@));
        let held = choose|held: int|
            0 <= held < before.contexts@.len() && (#[trigger] before.contexts@[held]).handle.same(
                &context.handle,
            );
        assert(after.contexts@[held].handle.same(&context.handle));
    }
}

/// An activation either fails and changes nothing, or has the slots and Browser
/// Core both select the context of that name, loses, adds and changes no
/// context, and leaves both sides in agreement. Core, where it accepts, selects
/// what it was asked to.
pub proof fn law_activation_selects(
    model: ConnectionModel,
    id: Seq<char>,
    answer: Result<CoreCommit<bool>, BrowserContextRegistryError>,
)
    requires
        answer matches Ok(commit) ==> core_selects(model.core, commit, id),
    ensures
        ({
            let changed = lifecycle::try_activate(model, id, answer);
            let after = changed.model;
            match changed.result {
                Err(_) => after == model,
                Ok(_) => {
                    &&& after.selected_id() == Some(id)
                    &&& text::opt_chars(after.core.selected_browser_context_id) == Some(id)
                    &&& after.contexts().to_multiset() == model.contexts().to_multiset()
                    &&& after.context_topology_refusal() is None
                },
            }
        }),
{
    law_agreement(model);
    let changed = contexts::activate(model, id, answer);
    let after = lifecycle::try_activate(model, id, answer).model;
    if changed.result == Ok::<bool, ContextRefusal>(true) {
        law_activation_only_moves(model, id, answer);
        law_activation_keeps_agreement(model, id, answer);
        assert(after.contexts() == changed.model.contexts());
        law_agreement(changed.model);
        law_agreement(after);
    } else if changed.result is Ok {
        lemma_still_known(model.core, after.core, model.contexts());
        assert(after.contexts() == model.contexts());
        law_agreement(after);
    }
}

/// A context that was activated can be activated once more: the second
/// activation succeeds, and changes neither the selection nor the order of the
/// contexts, in the slots or in Browser Core, and leaves nothing more to do.
/// Core, where it accepts, selects what it was asked to, and it accepts the
/// second time.
pub proof fn law_repeated_activation_changes_nothing(
    model: ConnectionModel,
    id: Seq<char>,
    first: Result<CoreCommit<bool>, BrowserContextRegistryError>,
    second: CoreCommit<bool>,
)
    requires
        first matches Ok(commit) ==> core_selects(model.core, commit, id),
        lifecycle::try_activate(model, id, first).result is Ok,
        core_selects(lifecycle::try_activate(model, id, first).model.core, second, id),
    ensures
        ({
            let once = lifecycle::try_activate(model, id, first).model;
            let again = lifecycle::try_activate(once, id, Ok(second));
            &&& again.result == Ok::<bool, ContextRefusal>(false)
            &&& same_slots(again.model, once)
            &&& again.model.effects == once.effects
            &&& again.model.core.contexts == once.core.contexts
            &&& text::opt_chars(again.model.core.selected_browser_context_id) == text::opt_chars(
                once.core.selected_browser_context_id,
            )
        }),
{
    law_activation_selects(model, id, first);
    let once = lifecycle::try_activate(model, id, first).model;
    law_agreement(once);
    assert(once.contexts()[0].id@ == id);
    assert(once.core.has_context(once.contexts()[0].id@));
}

/// A removal removes exactly the context of that name, and loses, adds and
/// changes no other. Where the removed one was selected its successor is
/// selected.
pub proof fn law_removal_removes_one(
    model: ConnectionModel,
    id: Seq<char>,
    permit: BrowserContextRemovalPermit,
    answer: Result<CoreCommit<ContextRemoval>, BrowserContextRuntimeRegistryError>,
)
    requires
        contexts::remove(model, id, permit, answer).result is Ok,
    ensures
        ({
            let after = contexts::remove(model, id, permit, answer);
            let removed = after.result->Ok_0;
            &&& removed.context.id@ == id
            &&& removed.selection_changed == permit.was_selected
            &&& permit.was_selected ==> after.model.selected_id() == text::opt_chars(
                permit.successor_browser_context_id,
            )
            &&& !permit.was_selected ==> after.model.selected == model.selected
            &&& after.model.contexts().to_multiset().insert(removed.context)
                =~= model.contexts().to_multiset()
        }),
{
    broadcast use vstd::seq_lib::group_to_multiset_ensures;

    let after = contexts::remove(model, id, permit, answer);
    let removed = after.result->Ok_0.context;
    let at = lemma_removed_from(model, id, permit, answer);
    let before = model.contexts();
    assert(before.remove(at).to_multiset() =~= before.to_multiset().remove(removed));
    assert(before.to_multiset().count(removed) > 0);
    assert(before.to_multiset().remove(removed).insert(removed) =~= before.to_multiset());
    if permit.was_selected && permit.successor_browser_context_id is Some {
        let successor = after.model.selected->Some_0;
        let index = state::find_context(
            model.inactive,
            permit.successor_browser_context_id->Some_0@,
            0,
        )->Some_0 as int;
        state::lemma_find_context(model.inactive, permit.successor_browser_context_id->Some_0@, 0);
        assert(after.model.contexts() =~= model.inactive.remove(index).insert(0, successor));
        vstd::seq_lib::to_multiset_insert(model.inactive.remove(index), 0, successor);
        assert(model.inactive.remove(index).to_multiset() =~= model.inactive.to_multiset().remove(
            successor,
        ));
        assert(model.inactive.to_multiset().count(successor) > 0);
        assert(before.remove(at) =~= model.inactive);
    } else {
        assert(after.model.contexts() =~= before.remove(at));
    }
}

/// Where a removed context was among all.
proof fn lemma_removed_from(
    model: ConnectionModel,
    id: Seq<char>,
    permit: BrowserContextRemovalPermit,
    answer: Result<CoreCommit<ContextRemoval>, BrowserContextRuntimeRegistryError>,
) -> (at: int)
    requires
        contexts::remove(model, id, permit, answer).result is Ok,
    ensures
        0 <= at < model.contexts().len(),
        model.contexts()[at] == contexts::remove(model, id, permit, answer).result->Ok_0.context,
        model.contexts()[at].id@ == id,
        if permit.was_selected {
            at == 0
        } else {
            contexts::remove(model, id, permit, answer).model.contexts()
                == model.contexts().remove(at)
        },
{
    state::lemma_find_context(model.inactive, id, 0);
    if permit.was_selected {
        0
    } else {
        let index = state::find_context(model.inactive, id, 0)->Some_0 as int;
        let at = if model.selected is Some {
            index + 1
        } else {
            index
        };
        assert(contexts::remove(model, id, permit, answer).model.contexts()
            =~= model.contexts().remove(at));
        at
    }
}

/// Browser Core after a context was added under a name that it did not know.
pub open spec fn core_context_added(
    before: BrowserCoreRecord,
    after: BrowserCoreRecord,
    handle: BrowserContextHandle,
) -> bool {
    &&& after.contexts@.len() == before.contexts@.len() + 1
    &&& after.contexts@.drop_last() == before.contexts@
    &&& after.contexts@.last().handle == handle
    &&& !before.has_context(handle.browser_context_id@)
}

/// Where the slots agree with Browser Core's contexts, they still do after a
/// context was registered, as long as Core adds exactly that context, under a
/// name that it did not know, and selects it only where none was selected.
pub proof fn law_registration_keeps_agreement(
    model: ConnectionModel,
    context: ContextModel,
    answer: Result<CoreCommit<ContextRegistration>, BrowserContextRuntimeRegistryError>,
)
    requires
        contexts::register(model, context, answer).result is Ok,
        context.handle.browser_context_id@ == context.id@,
        core_context_added(model.core, answer->Ok_0.core, context.handle),
        if answer->Ok_0.outcome.selected {
            model.selected is None && text::opt_chars(
                answer->Ok_0.core.selected_browser_context_id,
            ) == Some(context.id@)
        } else {
            answer->Ok_0.core.selected_browser_context_id == model.core.selected_browser_context_id
        },
    ensures
        contexts::register(model, context, answer).model.context_topology_refusal() is None,
{
    law_agreement(model);
    let commit = answer->Ok_0;
    let before = model.contexts();
    let after = contexts::register(model, context, answer).model;
    let now = after.contexts();
    let taken = contexts::with_stores(
        ContextModel { runtime_owner: None, ..context },
        commit.outcome.session_storage@,
        0,
    );
    lemma_stores_keep_name(
        ContextModel { runtime_owner: None, ..context },
        commit.outcome.session_storage@,
        0,
    );
    if commit.outcome.selected {
        assert(now =~= before.insert(0, taken));
    } else {
        assert(now =~= before.push(taken));
    }
    let place = if commit.outcome.selected {
        0
    } else {
        before.len() as int
    };
    assert(now =~= before.insert(place, taken));
    lemma_context_in(model.core, commit.core, before, context, taken, place);
    law_agreement(after);
}

/// Contexts have different names and are known after one more was registered.
proof fn lemma_context_in(
    core: BrowserCoreRecord,
    after: BrowserCoreRecord,
    before: Seq<ContextModel>,
    context: ContextModel,
    taken: ContextModel,
    place: int,
)
    requires
        0 <= place <= before.len(),
        distinct_ids(before),
        known_contexts(core, before),
        context.handle.browser_context_id@ == context.id@,
        core_context_added(core, after, context.handle),
        taken.id == context.id,
        taken.handle == context.handle,
    ensures
        distinct_ids(before.insert(place, taken)),
        known_contexts(after, before.insert(place, taken)),
{
    let now = before.insert(place, taken);
    assert forall|at: int| 0 <= at < now.len() && at != place implies (#[trigger] now[at])
        == before[source_of(place, at)] && now[at].id@ != taken.id@ && after.has_context(
        now[at].id@,
    ) && after.context_handle_current(now[at].handle) by {
        let kept = before[source_of(place, at)];
        assert(now[at] == kept);
        assert(core.has_context(kept.id@));
        let known = choose|known: int| core.context_is(known, kept.id@);
        assert(after.contexts@[known] == after.contexts@.drop_last()[known]);
        assert(after.context_is(known, kept.id@));
        let held = choose|held: int|
            0 <= held < core.contexts@.len() && (#[trigger] core.contexts@[held]).handle.same(
                &kept.handle,
            );
        assert(after.contexts@[held] == after.contexts@.drop_last()[held]);
        assert(after.contexts@[held].handle.same(&kept.handle));
    }
    let last = after.contexts@.len() - 1;
    assert(after.contexts@[last] == after.contexts@.last());
    assert(after.context_is(last, taken.id@));
    assert(after.contexts@[last].handle.same(&taken.handle));
    assert forall|left: int, right: int| 0 <= left < right < now.len() implies (
    #[trigger] now[left]).id@ != (#[trigger] now[right]).id@ by {
        if left != place && right != place {
            assert(before[source_of(place, left)].id@ != before[source_of(place, right)].id@);
        }
    }
}

/// Where an element was before one was inserted at a place.
spec fn source_of(place: int, at: int) -> int {
    if at < place {
        at
    } else {
        at - 1
    }
}

/// Taking over stores changes no context's name or handle.
proof fn lemma_stores_keep_name(
    context: ContextModel,
    stores: Seq<SessionStorageAccess>,
    from: nat,
)
    ensures
        contexts::with_stores(context, stores, from).id == context.id,
        contexts::with_stores(context, stores, from).handle == context.handle,
    decreases stores.len() - from,
{
    if from < stores.len() {
        lemma_stores_keep_name(
            context.with_store(stores[from as int].target_id@, stores[from as int].store),
            stores,
            from + 1,
        );
    }
}

/// Browser Core after its only context of a name was removed.
pub open spec fn core_context_removed(
    before: BrowserCoreRecord,
    after: BrowserCoreRecord,
    id: Seq<char>,
    at: int,
) -> bool {
    &&& before.context_is(at, id)
    &&& after.contexts@ == before.contexts@.remove(at)
}

/// Where the slots agree with Browser Core's contexts, they still do after a
/// context was removed, as long as Core removes exactly that one, and selects
/// the successor where it was selected.
pub proof fn law_removal_keeps_agreement(
    model: ConnectionModel,
    id: Seq<char>,
    permit: BrowserContextRemovalPermit,
    answer: Result<CoreCommit<ContextRemoval>, BrowserContextRuntimeRegistryError>,
    removed: int,
)
    requires
        contexts::remove(model, id, permit, answer).result is Ok,
        model.context_topology_refusal() is None,
        named_after_handles(model.contexts()),
        core_context_removed(model.core, answer->Ok_0.core, id, removed),
        if permit.was_selected {
            text::opt_chars(answer->Ok_0.core.selected_browser_context_id) == text::opt_chars(
                permit.successor_browser_context_id,
            )
        } else {
            answer->Ok_0.core.selected_browser_context_id == model.core.selected_browser_context_id
        },
    ensures
        contexts::remove(model, id, permit, answer).model.context_topology_refusal() is None,
{
    law_agreement(model);
    let after = contexts::remove(model, id, permit, answer).model;
    let before = model.contexts();
    let at = lemma_removed_from(model, id, permit, answer);
    let left = before.remove(at);
    lemma_context_out(model.core, after.core, before, id, removed, at);
    if permit.was_selected {
        match permit.successor_browser_context_id {
            Some(successor) => {
                state::lemma_find_context(model.inactive, successor@, 0);
                let index = state::find_context(model.inactive, successor@, 0)->Some_0 as int;
                assert(left =~= model.inactive);
                lemma_moved_first(after.core, left, index);
                assert(after.contexts() =~= left.remove(index).insert(0, left[index]));
            },
            None => {
                assert(after.contexts() =~= left);
            },
        }
    }
    law_agreement(after);
}

/// Whether each context is called as its handle says.
pub open spec fn named_after_handles(contexts: Seq<ContextModel>) -> bool {
    forall|at: int|
        0 <= at < contexts.len() ==> (#[trigger] contexts[at]).handle.browser_context_id@
            == contexts[at].id@
}

/// Contexts have different names and are known after one was removed.
proof fn lemma_context_out(
    core: BrowserCoreRecord,
    after: BrowserCoreRecord,
    before: Seq<ContextModel>,
    id: Seq<char>,
    removed: int,
    at: int,
)
    requires
        0 <= at < before.len(),
        before[at].id@ == id,
        distinct_ids(before),
        known_contexts(core, before),
        named_after_handles(before),
        core_context_removed(core, after, id, removed),
    ensures
        distinct_ids(before.remove(at)),
        known_contexts(after, before.remove(at)),
{
    let left = before.remove(at);
    assert forall|place: int| 0 <= place < left.len() implies after.has_context(
        (#[trigger] left[place]).id@,
    ) && after.context_handle_current(left[place].handle) by {
        let source = if place < at {
            place
        } else {
            place + 1
        };
        let kept = before[source];
        assert(left[place] == kept);
        if source < at {
            assert(before[source].id@ != before[at].id@);
        } else {
            assert(before[at].id@ != before[source].id@);
        }
        assert(core.has_context(kept.id@));
        let known = choose|known: int| core.context_is(known, kept.id@);
        let now = if known < removed {
            known
        } else {
            known - 1
        };
        assert(known != removed);
        assert(after.contexts@[now] == core.contexts@[known]);
        assert(after.context_is(now, kept.id@));
        let held = choose|held: int|
            0 <= held < core.contexts@.len() && (#[trigger] core.contexts@[held]).handle.same(
                &kept.handle,
            );
        assert(held != removed);
        let moved = if held < removed {
            held
        } else {
            held - 1
        };
        assert(after.contexts@[moved] == core.contexts@[held]);
        assert(after.contexts@[moved].handle.same(&kept.handle));
    }
    assert forall|one: int, other: int| 0 <= one < other < left.len() implies (
    #[trigger] left[one]).id@ != (#[trigger] left[other]).id@ by {
        let first = if one < at {
            one
        } else {
            one + 1
        };
        let second = if other < at {
            other
        } else {
            other + 1
        };
        assert(before[first].id@ != before[second].id@);
    }
}

/// Contexts have different names and are known in whatever order.
proof fn lemma_moved_first(core: BrowserCoreRecord, contexts: Seq<ContextModel>, index: int)
    requires
        0 <= index < contexts.len(),
        distinct_ids(contexts),
        known_contexts(core, contexts),
    ensures
        distinct_ids(contexts.remove(index).insert(0, contexts[index])),
        known_contexts(core, contexts.remove(index).insert(0, contexts[index])),
{
    let now = contexts.remove(index).insert(0, contexts[index]);
    assert forall|at: int| 0 <= at < now.len() implies (#[trigger] now[at]) == contexts[front_source(
        index,
        at,
    )] && 0 <= front_source(index, at) < contexts.len() by {}
    assert forall|left: int, right: int| 0 <= left < right < now.len() implies (
    #[trigger] now[left]).id@ != (#[trigger] now[right]).id@ by {
        let one = front_source(index, left);
        let other = front_source(index, right);
        assert(now[left] == contexts[one]);
        assert(now[right] == contexts[other]);
        if one < other {
            assert(contexts[one].id@ != contexts[other].id@);
        } else {
            assert(contexts[other].id@ != contexts[one].id@);
        }
    }
}

/// Where an element was before another was moved to the front.
spec fn front_source(index: int, at: int) -> int {
    if at == 0 {
        index
    } else if at <= index {
        at - 1
    } else {
        at
    }
}

/// Bringing a Target to the front puts it there, and loses and adds none: the
/// one that was in front goes behind.
pub proof fn law_target_comes_to_front(context: ContextModel, target: Seq<char>)
    requires
        context.active_id() != Some(target),
        context.background_index(target) is Some,
    ensures
        ({
            let after = targets::brought_to_front(
                context,
                context.background_index(target)->Some_0 as int,
            );
            &&& after.active_id() == Some(target)
            &&& after.slots().len() == context.slots().len()
            &&& context.active.handle matches Some(handle) ==> {
                &&& after.background.last().handle == handle
                &&& after.background.last().slot == context.active.slot
            }
            &&& after.id == context.id
            &&& after.handle == context.handle
        }),
{
    context.lemma_background_from(target, 0);
}

proof fn lemma_targets_in_order(
    model: ConnectionModel,
    snapshots: Seq<BrowserTargetStateSnapshot>,
    from: nat,
    listed: Seq<DevToolsTargetInfo>,
    start: int,
)
    requires
        0 <= start,
        from <= snapshots.len(),
        listed.len() == start + from,
        forall|index: int|
            0 <= index < from ==> (#[trigger] snapshots[index]).target.target_id@ == listed[start
                + index].target_id@,
    ensures
        snapshots::project_targets(model, snapshots, from, listed) matches Ok(all) ==> {
            &&& all.len() == start + snapshots.len()
            &&& forall|index: int|
                0 <= index < snapshots.len() ==> (#[trigger] snapshots[index]).target.target_id@
                    == all[start + index].target_id@
        },
    decreases snapshots.len() - from,
{
    if from < snapshots.len() {
        let snapshot = snapshots[from as int];
        if let Ok(info) = snapshots::project_listed_target(model, snapshot) {
            let context = model.context(snapshot.browser_context.browser_context_id@)->Some_0;
            context.lemma_background_from(snapshot.target.target_id@, 0);
            assert(info.target_id@ == snapshot.target.target_id@);
            let more = listed.push(info);
            assert forall|index: int| 0 <= index < from + 1 implies (
            #[trigger] snapshots[index]).target.target_id@ == more[start + index].target_id@ by {
                if index < from {
                    assert(more[start + index] == listed[start + index]);
                }
            }
            lemma_targets_in_order(model, snapshots, from + 1, more, start);
        }
    }
}

/// The Targets of a context are listed in the order in which Browser Core saw
/// them, all of them and no others.
pub proof fn law_targets_are_listed_in_order(
    model: ConnectionModel,
    snapshots: Seq<BrowserTargetStateSnapshot>,
)
    ensures
        snapshots::project_targets(model, snapshots, 0, Seq::empty()) matches Ok(all) ==> {
            &&& all.len() == snapshots.len()
            &&& forall|index: int|
                0 <= index < snapshots.len() ==> (#[trigger] snapshots[index]).target.target_id@
                    == all[index].target_id@
        },
{
    lemma_targets_in_order(model, snapshots, 0, Seq::empty(), 0);
}

/// What was seen of a Target lists it only while Browser Core and the slot
/// still hold exactly that Target: one made again under its old name is not
/// listed.
pub proof fn law_old_snapshot_lists_nothing_new(
    model: ConnectionModel,
    snapshot: BrowserTargetStateSnapshot,
)
    requires
        snapshots::project_target(model, snapshot) is Ok,
    ensures
        model.core.target_handle_current(snapshot.target),
        model.context(snapshot.browser_context.browser_context_id@) matches Some(context)
            && context.handle.same(&snapshot.browser_context) && (context.target_place(
            snapshot.target.target_id@,
        ) matches Some(place) && context.handle_at(place).same(&snapshot.target)),
{
}

/// Forgetting the tail of a request touches neither Browser Core's requests nor
/// the facts, and leaves what the renderer was told of any other request.
pub proof fn law_tail_leaves_successor(
    model: ConnectionModel,
    session: Option<String>,
    loader_id: String,
)
    ensures
        navigation::clear_tail(model, session, loader_id).core == model.core,
        navigation::clear_tail(model, session, loader_id).facts == model.facts,
        model.session_place(text::opt_chars(session)) matches Some(place) && (
        model.context_at(place.context).slot_at(place.target).pending_navigation matches Some(
            pending,
        ) && pending.loader_id@ != loader_id@) ==> same_slots(
            navigation::clear_tail(model, session, loader_id),
            model,
        ),
{
}

/// The connection with another payload in the selected place.
pub open spec fn with_selected(model: ConnectionModel, context: ContextModel) -> ConnectionModel {
    ConnectionModel { selected: Some(context), ..model }
}

/// What the slots forget, Browser Core keeps: whether a request is on its way
/// is Core's to say, and a change of the payload in front does not change it.
pub proof fn law_requests_survive_slots(
    model: ConnectionModel,
    context: ContextModel,
    changed: ContextModel,
)
    requires
        model.selected == Some(context),
        changed.id == context.id,
        changed.active.handle == context.active.handle,
    ensures
        with_selected(model, changed).navigation_pending(None) == model.navigation_pending(None),
        with_selected(model, changed).session_navigation(None) == model.session_navigation(None),
{
}

} // verus!
