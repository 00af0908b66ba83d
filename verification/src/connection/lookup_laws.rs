//! What is found in Browser Core's record and in the slots, said of the
//! registered contexts and Targets, the slots and the sessions themselves.
use vstd::prelude::*;

use crate::connection::contexts;
use crate::connection::core_record::{
    BrowserContextHandle, BrowserCoreRecord, BrowserTargetHandle, CoreNavigation, CoreTarget,
};
use crate::connection::lifecycle;
use crate::connection::navigation;
use crate::connection::navigation::{
    DevToolsCommandContext, DevToolsDocumentNavigationState, DocumentAccessError,
};
use crate::connection::sessions;
use crate::connection::slots::{ContextModel, TargetPlace};
use crate::connection::state;
use crate::connection::state::ConnectionModel;
use crate::connection::targets::PhysicalBrowserContextSlot;
use crate::facts::types::DocumentNavigationToken;
use crate::text;

verus! {

/// Where something is registered there is a first.
proof fn lemma_target_index(core: BrowserCoreRecord, id: Seq<char>)
    ensures
        core.target_index(id) matches Some(index) ==> 0 <= index < core.targets@.len()
            && core.targets@[index].handle.target_id@ == id && forall|earlier: int|
            0 <= earlier < index ==> (#[trigger] core.targets@[earlier]).handle.target_id@ != id,
        core.target_index(id) is None ==> forall|index: int|
            0 <= index < core.targets@.len() ==> (
            #[trigger] core.targets@[index]).handle.target_id@ != id,
{
    if exists|index: int| core.target_is(index, id) {
        let some = choose|index: int| core.target_is(index, id);
        let first = lemma_first_named(core, id, some);
        core.lemma_first_target(id, first);
        assert forall|earlier: int| 0 <= earlier < first implies (
        #[trigger] core.targets@[earlier]).handle.target_id@ != id by {
            assert(!core.target_is(earlier, id));
        }
    } else {
        assert forall|index: int| 0 <= index < core.targets@.len() implies (
        #[trigger] core.targets@[index]).handle.target_id@ != id by {
            assert(!core.target_is(index, id));
        }
    }
}

proof fn lemma_first_named(core: BrowserCoreRecord, id: Seq<char>, some: int) -> (first: int)
    requires
        core.target_is(some, id),
    ensures
        core.target_is(first, id),
        forall|earlier: int| 0 <= earlier < first ==> !#[trigger] core.target_is(earlier, id),
    decreases some,
{
    if exists|earlier: int| 0 <= earlier < some && #[trigger] core.target_is(earlier, id) {
        let earlier = choose|earlier: int|
            0 <= earlier < some && #[trigger] core.target_is(earlier, id);
        lemma_first_named(core, id, earlier)
    } else {
        some
    }
}

/// A context is registered where its name is, and is current where its name is
/// with exactly its instance. The same holds of a Target.
pub proof fn law_core_knows_what_is_registered(
    core: BrowserCoreRecord,
    id: Seq<char>,
    context: BrowserContextHandle,
    target: BrowserTargetHandle,
)
    ensures
        core.has_context(id) <==> exists|at: int|
            0 <= at < core.contexts@.len() && (
            #[trigger] core.contexts@[at]).handle.browser_context_id@ == id,
        core.context_handle_current(context) <==> exists|at: int|
            0 <= at < core.contexts@.len() && (
            #[trigger] core.contexts@[at]).handle.browser_context_id@ == context.browser_context_id@
                && core.contexts@[at].handle.instance == context.instance,
        core.target_handle_current(target) <==> exists|at: int|
            0 <= at < core.targets@.len() && (#[trigger] core.targets@[at]).handle.target_id@
                == target.target_id@ && core.targets@[at].handle.instance == target.instance,
{
    if core.has_context(id) {
        let at = choose|at: int| core.context_is(at, id);
        assert(core.contexts@[at].handle.browser_context_id@ == id);
    }
    if exists|at: int|
        0 <= at < core.contexts@.len() && (#[trigger] core.contexts@[at]).handle.browser_context_id@
            == id {
        let at = choose|at: int|
            0 <= at < core.contexts@.len() && (
            #[trigger] core.contexts@[at]).handle.browser_context_id@ == id;
        assert(core.context_is(at, id));
    }
    if core.context_handle_current(context) {
        let at = choose|at: int|
            0 <= at < core.contexts@.len() && (#[trigger] core.contexts@[at]).handle.same(&context);
        assert(core.contexts@[at].handle.browser_context_id@ == context.browser_context_id@);
    }
    if exists|at: int|
        0 <= at < core.contexts@.len() && (#[trigger] core.contexts@[at]).handle.browser_context_id@
            == context.browser_context_id@ && core.contexts@[at].handle.instance
            == context.instance {
        let at = choose|at: int|
            0 <= at < core.contexts@.len() && (
            #[trigger] core.contexts@[at]).handle.browser_context_id@ == context.browser_context_id@
                && core.contexts@[at].handle.instance == context.instance;
        assert(core.contexts@[at].handle.same(&context));
    }
    if core.target_handle_current(target) {
        let at = choose|at: int|
            0 <= at < core.targets@.len() && (#[trigger] core.targets@[at]).handle.same(&target);
        assert(core.targets@[at].handle.target_id@ == target.target_id@);
    }
    if exists|at: int|
        0 <= at < core.targets@.len() && (#[trigger] core.targets@[at]).handle.target_id@
            == target.target_id@ && core.targets@[at].handle.instance == target.instance {
        let at = choose|at: int|
            0 <= at < core.targets@.len() && (#[trigger] core.targets@[at]).handle.target_id@
                == target.target_id@ && core.targets@[at].handle.instance == target.instance;
        assert(core.targets@[at].handle.same(&target));
    }
}

/// Of a Target, its context, its Page and its requests are those that it is
/// registered with; the Page and the requests only for the context that it is
/// registered in. Of a name that no Target has there is none of them.
pub proof fn law_core_tells_of_a_target(
    core: BrowserCoreRecord,
    context: Seq<char>,
    target: Seq<char>,
    at: int,
)
    ensures
        0 <= at < core.targets@.len() && core.targets@[at].handle.target_id@ == target && (forall|
            earlier: int,
        |
            0 <= earlier < at ==> (#[trigger] core.targets@[earlier]).handle.target_id@ != target)
            ==> {
            let found = core.targets@[at];
            &&& core.target_context(target) == Some(found.browser_context_id@)
            &&& found.browser_context_id@ == context ==> core.page_of(context, target) == Some(
                found.page,
            ) && core.navigation_of(context, target) == Some(found.navigation)
            &&& found.browser_context_id@ != context ==> core.page_of(context, target) is None
                && core.navigation_of(context, target) is None
            &&& forall|instance: u64| #[trigger]
                core.page_current(context, target, instance) <==> found.browser_context_id@
                    == context && found.page.instance == instance
        },
        (forall|index: int|
            0 <= index < core.targets@.len() ==> (
            #[trigger] core.targets@[index]).handle.target_id@ != target) ==> core.target_context(
            target,
        ) is None && core.page_of(context, target) is None && core.navigation_of(context, target)
            is None,
{
    lemma_target_index(core, target);
    if core.target_index(target) is Some {
        let index = core.target_index(target)->Some_0;
        assert(core.targets@[index].handle.target_id@ == target);
        if 0 <= at < core.targets@.len() && core.targets@[at].handle.target_id@ == target && (
        forall|earlier: int|
            0 <= earlier < at ==> (#[trigger] core.targets@[earlier]).handle.target_id@ != target) {
            assert(index == at);
        }
    }
}

/// The Target in front of a context is the one that Browser Core has there: of
/// the first context that is registered under the name. Of a name that no context
/// has there is none.
pub proof fn law_core_tells_the_target_in_front(core: BrowserCoreRecord, id: Seq<char>, at: int)
    ensures
        0 <= at < core.contexts@.len() && core.contexts@[at].handle.browser_context_id@ == id && (
        forall|earlier: int|
            0 <= earlier < at ==> (
            #[trigger] core.contexts@[earlier]).handle.browser_context_id@ != id) ==> {
            &&& core.active_target(id) is Some <==> core.contexts@[at].active_target_id is Some
            &&& core.contexts@[at].active_target_id matches Some(front) ==> core.active_target(id)
                == Some(front@)
        },
        !core.has_context(id) ==> core.active_target(id) is None,
{
    if 0 <= at < core.contexts@.len() && core.contexts@[at].handle.browser_context_id@ == id && (
    forall|earlier: int|
        0 <= earlier < at ==> (#[trigger] core.contexts@[earlier]).handle.browser_context_id@
            != id) {
        assert(core.context_is(at, id));
        assert forall|earlier: int| 0 <= earlier < at implies !#[trigger] core.context_is(
            earlier,
            id,
        ) by {
            assert(core.contexts@[earlier].handle.browser_context_id@ != id);
        }
        let found = core.context_index(id);
        assert(core.context_is(found, id));
        if found < at {
            assert(core.contexts@[found].handle.browser_context_id@ != id);
        }
        assert(found == at);
    }
}

/// The Targets of a context are counted as they are registered.
pub proof fn law_targets_of_a_context_are_counted(core: BrowserCoreRecord, context: Seq<char>)
    ensures
        core.context_target_count(context) == core.targets@.filter(
            |target: CoreTarget| target.browser_context_id@ == context,
        ).len(),
{
    lemma_targets_counted(core, context, core.targets@.len());
    assert(core.targets@.take(core.targets@.len() as int) =~= core.targets@);
}

proof fn lemma_targets_counted(core: BrowserCoreRecord, context: Seq<char>, count: nat)
    requires
        count <= core.targets@.len(),
    ensures
        core.targets_of(context, count) == core.targets@.take(count as int).filter(
            |target: CoreTarget| target.browser_context_id@ == context,
        ).len(),
    decreases count,
{
    reveal(Seq::filter);
    if count > 0 {
        lemma_targets_counted(core, context, (count - 1) as nat);
        let upto = core.targets@.take(count as int);
        assert(upto.drop_last() =~= core.targets@.take(count - 1));
        assert(upto.last() == core.targets@[count - 1]);
    }
}

/// Whether a slot or a further session of a context ties a session to a Target.
pub open spec fn attaches(context: ContextModel, session: Seq<char>, target: Seq<char>) -> bool {
    ||| context.active.handle is Some && context.active.session_id is Some
        && context.active.session_id->Some_0@ == session && context.active.handle->Some_0.target_id@
        == target
    ||| exists|at: int|
        0 <= at < context.background.len() && (#[trigger] context.background[at]).session_id is Some
            && context.background[at].session_id->Some_0@ == session
            && context.background[at].handle.target_id@ == target
    ||| exists|at: int|
        0 <= at < context.auxiliary.len() && (#[trigger] context.auxiliary[at]).session_id@
            == session && context.auxiliary[at].target_id@ == target
}

proof fn lemma_background_session(context: ContextModel, session: Seq<char>, from: nat)
    ensures
        context.background_session_from(session, from) matches Some(at) ==> from <= at
            < context.background.len() && text::opt_chars(
            context.background[at as int].session_id,
        ) == Some(session),
        context.background_session_from(session, from) is None ==> forall|at: int|
            from <= at < context.background.len() ==> text::opt_chars(
                (#[trigger] context.background[at]).session_id,
            ) != Some(session),
    decreases context.background.len() - from,
{
    if from < context.background.len() && text::opt_chars(
        context.background[from as int].session_id,
    ) != Some(session) {
        lemma_background_session(context, session, from + 1);
    }
}

proof fn lemma_auxiliary_session(context: ContextModel, session: Seq<char>, from: nat)
    ensures
        context.auxiliary_from(session, from) matches Some(at) ==> from <= at
            < context.auxiliary.len() && context.auxiliary[at as int].session_id@ == session,
        context.auxiliary_from(session, from) is None ==> forall|at: int|
            from <= at < context.auxiliary.len() ==> (#[trigger] context.auxiliary[at]).session_id@
                != session,
    decreases context.auxiliary.len() - from,
{
    if from < context.auxiliary.len() && context.auxiliary[from as int].session_id@ != session {
        lemma_auxiliary_session(context, session, from + 1);
    }
}

/// In a context a session speaks of a Target that it is attached to there: of
/// the one in front where it is that one's, and of none where it is attached to
/// none.
pub proof fn law_session_speaks_of_its_target(context: ContextModel, session: Seq<char>)
    ensures
        context.session_target(session) matches Some(target) ==> attaches(
            context,
            session,
            target@,
        ),
        context.session_target(session) is None ==> forall|target: Seq<char>|
            !attaches(context, session, target),
        context.active.handle is Some && context.active.session_id is Some
            && context.active.session_id->Some_0@ == session ==> context.session_target(session)
            == Some(context.active.handle->Some_0.target_id),
{
    lemma_background_session(context, session, 0);
    lemma_auxiliary_session(context, session, 0);
    if context.session_target(session) is Some && !(text::opt_chars(context.active.session_id)
        == Some(session) && context.active.handle is Some) {
        if let Some(at) = context.background_session_from(session, 0) {
            assert(context.background[at as int].session_id is Some);
        } else {
            let at = context.auxiliary_from(session, 0)->Some_0;
            assert(context.auxiliary[at as int].session_id@ == session);
        }
    }
}

proof fn lemma_owner_from(contexts: Seq<ContextModel>, session: Seq<char>, from: nat)
    ensures
        sessions::owner_from(contexts, session, from) matches Some(owner) ==> exists|at: int|
            from <= at < contexts.len() && (#[trigger] contexts[at]).id == owner.browser_context_id
                && contexts[at].session_target(session) == Some(owner.target_id) && forall|
                earlier: int,
            |
                from <= earlier < at ==> (#[trigger] contexts[earlier]).session_target(session)
                    is None,
        sessions::owner_from(contexts, session, from) is None ==> forall|at: int|
            from <= at < contexts.len() ==> (#[trigger] contexts[at]).session_target(session)
                is None,
    decreases contexts.len() - from,
{
    if from < contexts.len() {
        if contexts[from as int].session_target(session) is None {
            lemma_owner_from(contexts, session, from + 1);
        } else {
            assert(contexts[from as int].session_target(session) is Some);
        }
    }
}

/// A session speaks of a Target that it is attached to, in a context that is
/// there, the selected one first; and of none only where it is attached to none.
/// Without a session the Target in front of the selected context is meant.
pub proof fn law_session_owner_is_attached(model: ConnectionModel, session: Seq<char>)
    ensures
        model.session_owner(Some(session)) matches Some(owner) ==> exists|at: int|
            0 <= at < model.contexts().len() && (#[trigger] model.contexts()[at]).id
                == owner.browser_context_id && attaches(
                model.contexts()[at],
                session,
                owner.target_id@,
            ) && forall|earlier: int|
                0 <= earlier < at ==> forall|target: Seq<char>|
                    !attaches(#[trigger] model.contexts()[earlier], session, target),
        model.session_owner(Some(session)) is None ==> forall|at: int, target: Seq<char>|
            0 <= at < model.contexts().len() ==> !#[trigger] attaches(
                model.contexts()[at],
                session,
                target,
            ),
        model.session_owner(None) is Some <==> model.selected is Some
            && model.selected->Some_0.active.handle is Some,
        model.session_owner(None) matches Some(owner) ==> owner.browser_context_id
            == model.selected->Some_0.id && owner.target_id
            == model.selected->Some_0.active.handle->Some_0.target_id,
{
    let contexts = model.contexts();
    lemma_owner_from(contexts, session, 0);
    assert forall|at: int| 0 <= at < contexts.len() implies (
    #[trigger] contexts[at]).session_target(session) is None ==> forall|target: Seq<char>|
        !attaches(contexts[at], session, target) by {
        law_session_speaks_of_its_target(contexts[at], session);
    }
    if let Some(owner) = model.session_owner(Some(session)) {
        let at = choose|at: int|
            0 <= at < contexts.len() && (#[trigger] contexts[at]).id == owner.browser_context_id
                && contexts[at].session_target(session) == Some(owner.target_id) && forall|
                earlier: int,
            |
                0 <= earlier < at ==> (#[trigger] contexts[earlier]).session_target(session)
                    is None;
        law_session_speaks_of_its_target(contexts[at], session);
        assert forall|earlier: int| 0 <= earlier < at implies forall|target: Seq<char>|
            !attaches(#[trigger] contexts[earlier], session, target) by {
            assert(contexts[earlier].session_target(session) is None);
        }
    } else {
        assert forall|at: int, target: Seq<char>| 0 <= at < contexts.len() implies !#[trigger]
            attaches(contexts[at], session, target) by {
            assert(contexts[at].session_target(session) is None);
        }
    }
}

/// A session of the browser as a whole speaks of no context; any other speaks of
/// the context of its Target, and one that is attached to none of nothing.
pub proof fn law_session_route_is_its_owners(model: ConnectionModel, session: Seq<char>)
    ensures
        ({
            let listed = exists|at: int|
                0 <= at < model.browser_sessions.len() && (
                #[trigger] model.browser_sessions[at])@ == session;
            let route = model.session_route(session);
            &&& listed ==> route is Some && route->Some_0.browser_context_id is None
            &&& !listed && model.session_owner(Some(session)) is None ==> route is None
            &&& !listed ==> (model.session_owner(Some(session)) matches Some(owner) ==> route
                is Some && route->Some_0.browser_context_id == Some(owner.browser_context_id))
        }),
{
}

proof fn lemma_find_context_first(contexts: Seq<ContextModel>, id: Seq<char>, from: nat)
    ensures
        state::find_context(contexts, id, from) matches Some(at) ==> from <= at < contexts.len()
            && contexts[at as int].id@ == id && forall|earlier: int|
            from <= earlier < at ==> (#[trigger] contexts[earlier]).id@ != id,
        state::find_context(contexts, id, from) is None ==> forall|at: int|
            from <= at < contexts.len() ==> (#[trigger] contexts[at]).id@ != id,
    decreases contexts.len() - from,
{
    if from < contexts.len() && contexts[from as int].id@ != id {
        lemma_find_context_first(contexts, id, from + 1);
    }
}

/// A context is found by its name: the selected one where it is called so, or
/// else the first of the others that is. Where none is called so, none is found.
pub proof fn law_context_is_found_by_its_name(model: ConnectionModel, id: Seq<char>)
    ensures
        model.context(id) matches Some(context) ==> context.id@ == id && model.contexts().contains(
            context,
        ),
        model.context(id) is None ==> forall|at: int|
            0 <= at < model.contexts().len() ==> (#[trigger] model.contexts()[at]).id@ != id,
        model.selected is Some && model.selected->Some_0.id@ == id ==> model.context(id)
            == model.selected && model.place_of(id) == Some(PhysicalBrowserContextSlot::Selected),
        model.place_of(id) is Some <==> model.context(id) is Some,
        model.inactive.len() <= usize::MAX ==> (model.place_of(id) matches Some(place)
            ==> model.context_at(place).id@ == id),
        model.inactive.len() <= usize::MAX ==> (model.place_of(id) matches Some(
            PhysicalBrowserContextSlot::Inactive(at),
        ) ==> at < model.inactive.len() && forall|earlier: int|
            0 <= earlier < at ==> (#[trigger] model.inactive[earlier]).id@ != id),
{
    let contexts = model.contexts();
    lemma_find_context_first(contexts, id, 0);
    lemma_find_context_first(model.inactive, id, 0);
    if let Some(at) = state::find_context(contexts, id, 0) {
        assert(contexts.contains(contexts[at as int]));
    }
    if model.selected is Some {
        assert(contexts[0] == model.selected->Some_0);
        if model.selected->Some_0.id@ == id {
            assert(state::find_context(contexts, id, 0) == Some(0nat));
        }
        assert forall|at: int| 0 <= at < model.inactive.len() implies contexts[at + 1]
            == #[trigger] model.inactive[at] by {}
        if state::find_context(model.inactive, id, 0) is Some {
            let at = state::find_context(model.inactive, id, 0)->Some_0 as int;
            assert(contexts[at + 1].id@ == id);
        }
        if state::find_context(contexts, id, 0) is Some {
            let at = state::find_context(contexts, id, 0)->Some_0 as int;
            if at > 0 {
                assert(model.inactive[at - 1].id@ == id);
            }
        }
    }
}

/// Whether a slot of a context holds a Target.
pub open spec fn holds_target(context: ContextModel, target: Seq<char>) -> bool {
    ||| context.active.handle is Some && context.active.handle->Some_0.target_id@ == target
    ||| exists|at: int|
        0 <= at < context.background.len() && (#[trigger] context.background[at]).handle.target_id@
            == target
}

proof fn lemma_background_first(context: ContextModel, target: Seq<char>, from: nat)
    ensures
        context.background_from(target, from) matches Some(at) ==> from <= at
            < context.background.len() && context.background[at as int].handle.target_id@ == target
            && forall|earlier: int|
            from <= earlier < at ==> (#[trigger] context.background[earlier]).handle.target_id@
                != target,
        context.background_from(target, from) is None ==> forall|at: int|
            from <= at < context.background.len() ==> (
            #[trigger] context.background[at]).handle.target_id@ != target,
    decreases context.background.len() - from,
{
    if from < context.background.len() && context.background[from as int].handle.target_id@
        != target {
        lemma_background_first(context, target, from + 1);
    }
}

/// The slot of a Target is the one in front where that holds it, or else the
/// first behind that does.
pub proof fn law_slot_is_found_by_its_target(context: ContextModel, target: Seq<char>)
    ensures
        context.has_target(target) <==> holds_target(context, target),
        context.target_place(target) is Some <==> holds_target(context, target),
        context.target_place(target) == Some(TargetPlace::Active) <==> context.active.handle is Some
            && context.active.handle->Some_0.target_id@ == target,
        context.background.len() <= usize::MAX ==> (context.target_place(target) matches Some(
            TargetPlace::Background(at),
        ) ==> at < context.background.len() && context.background[at as int].handle.target_id@
            == target && forall|earlier: int|
            0 <= earlier < at ==> (#[trigger] context.background[earlier]).handle.target_id@
                != target),
{
    lemma_background_first(context, target, 0);
    if let Some(at) = context.background_index(target) {
        assert(context.background[at as int].handle.target_id@ == target);
    }
}

proof fn lemma_holder_from(contexts: Seq<ContextModel>, target: Seq<char>, from: nat)
    ensures
        sessions::holder_from(contexts, target, from) matches Some(at) ==> from <= at
            < contexts.len() && contexts[at as int].has_target(target) && forall|earlier: int|
            from <= earlier < at ==> !(#[trigger] contexts[earlier]).has_target(target),
        sessions::holder_from(contexts, target, from) is None ==> forall|at: int|
            from <= at < contexts.len() ==> !(#[trigger] contexts[at]).has_target(target),
    decreases contexts.len() - from,
{
    if from < contexts.len() && !contexts[from as int].has_target(target) {
        lemma_holder_from(contexts, target, from + 1);
    }
}

/// A Target is held by the first context that has a slot for it, the selected
/// one first, and by none where no context has.
pub proof fn law_target_is_held_by_its_context(model: ConnectionModel, target: Seq<char>)
    ensures
        model.target_holder(target) matches Some(id) ==> exists|at: int|
            0 <= at < model.contexts().len() && (#[trigger] model.contexts()[at]).id == id
                && holds_target(model.contexts()[at], target),
        model.target_holder(target) is None ==> forall|at: int|
            0 <= at < model.contexts().len() ==> !holds_target(
                #[trigger] model.contexts()[at],
                target,
            ),
{
    let contexts = model.contexts();
    lemma_holder_from(contexts, target, 0);
    assert forall|at: int| 0 <= at < contexts.len() implies (
    #[trigger] contexts[at]).has_target(target) == holds_target(contexts[at], target) by {
        law_slot_is_found_by_its_target(contexts[at], target);
    }
    if let Some(at) = sessions::holder_from(contexts, target, 0) {
        assert(contexts[at as int].has_target(target));
    }
}

proof fn lemma_worker_from(contexts: Seq<ContextModel>, target: Seq<char>, from: nat)
    ensures
        lifecycle::worker_context_from(contexts, target, from) matches Some(at) ==> from <= at
            < contexts.len() && contexts[at as int].has_worker(target),
        lifecycle::worker_context_from(contexts, target, from) is None ==> forall|at: int|
            from <= at < contexts.len() ==> !(#[trigger] contexts[at]).has_worker(target),
    decreases contexts.len() - from,
{
    if from < contexts.len() && !contexts[from as int].has_worker(target) {
        lemma_worker_from(contexts, target, from + 1);
    }
}

/// A Target belongs to the context that Browser Core registers it in. What Core
/// does not know belongs to a context that runs it as a worker, and to none
/// where none does.
pub proof fn law_target_belongs_to_its_context(model: ConnectionModel, target: Seq<char>)
    ensures
        model.core.target_context(target) is Some ==> lifecycle::context_of_target(model, target)
            == model.core.target_context(target),
        model.core.target_context(target) is None ==> {
            &&& lifecycle::context_of_target(model, target) matches Some(id) ==> exists|
                at: int,
                worker: int,
            |
                0 <= at < model.contexts().len() && 0 <= worker
                    < model.contexts()[at].workers.len() && (
                #[trigger] model.contexts()[at].workers[worker]).target_id@ == target
                    && model.contexts()[at].id@ == id
            &&& lifecycle::context_of_target(model, target) is None ==> forall|
                at: int,
                worker: int,
            |
                0 <= at < model.contexts().len() && 0 <= worker
                    < model.contexts()[at].workers.len() ==> (
                #[trigger] model.contexts()[at].workers[worker]).target_id@ != target
        },
{
    let contexts = model.contexts();
    lemma_worker_from(contexts, target, 0);
    if model.core.target_context(target) is None {
        if let Some(at) = lifecycle::worker_context_from(contexts, target, 0) {
            let worker = choose|worker: int|
                0 <= worker < contexts[at as int].workers.len() && (
                #[trigger] contexts[at as int].workers[worker]).target_id@ == target;
            assert(contexts[at as int].workers[worker].target_id@ == target);
        } else {
            assert forall|at: int, worker: int|
                0 <= at < contexts.len() && 0 <= worker < contexts[at].workers.len() implies (
            #[trigger] contexts[at].workers[worker]).target_id@ != target by {
                assert(!contexts[at].has_worker(target));
            }
        }
    }
}

/// How far a Document is. While a request is on its way that comes first. Then
/// the loader is that of the request that was committed, or else that of the
/// empty Document that a new Target shows; without either a commit is awaited.
pub proof fn law_document_is_as_far_as_its_requests(requests: CoreNavigation)
    ensures
        ({
            let state = ConnectionModel::document_state(Some(requests));
            &&& requests.pending is Some ==> state is PendingNavigation
            &&& requests.pending is None && requests.committed is Some ==> state
                == (DevToolsDocumentNavigationState::Committed {
                loader_id: requests.committed->Some_0.loader_id,
            })
            &&& requests.pending is None && requests.committed is None
                && requests.initial_loader_id is Some ==> state
                == (DevToolsDocumentNavigationState::Committed {
                loader_id: requests.initial_loader_id->Some_0,
            })
            &&& requests.pending is None && requests.committed is None
                && requests.initial_loader_id is None ==> state is AwaitingCommit
        }),
        ConnectionModel::document_state(None) is AwaitingCommit,
{
}

/// A command that names a Target is about that Target, whatever its session;
/// one that names none is about the Target of its session. Where there is no such
/// Target, its Document is unavailable.
pub proof fn law_named_target_counts_before_the_session(
    model: ConnectionModel,
    command: DevToolsCommandContext,
)
    ensures
        ({
            let state = model.addressed_state(command);
            let session = match command.session_id {
                Some(session) => Some(session@),
                None => None,
            };
            &&& command.target_id matches Some(target) ==> {
                &&& model.target_holder(target@) is None ==> state is Unavailable
                &&& model.target_holder(target@) matches Some(id) ==> state
                    == ConnectionModel::document_state(model.core.navigation_of(id@, target@))
            }
            &&& command.target_id is None ==> {
                &&& model.session_owner(session) is None ==> state is Unavailable
                &&& model.session_owner(session) matches Some(owner) ==> state
                    == ConnectionModel::document_state(
                    model.core.navigation_of(owner.browser_context_id@, owner.target_id@),
                )
            }
        }),
{
}

/// A request is recorded where exactly that request is: of the same Target, with
/// the same loader and the same number.
pub proof fn law_recorded_request_is_exactly_that_one(
    record: Option<DocumentNavigationToken>,
    token: DocumentNavigationToken,
)
    ensures
        navigation::holds(record, token) <==> record is Some && record->Some_0.target_id@
            == token.target_id@ && record->Some_0.loader_id@ == token.loader_id@
            && record->Some_0.request == token.request,
{
}

/// A request of the Target that a session speaks of is on its way exactly while
/// Browser Core keeps one for that Target.
pub proof fn law_pending_request_is_cores(model: ConnectionModel, session: Option<Seq<char>>)
    ensures
        model.navigation_pending(session) <==> (model.session_owner(session) matches Some(owner)
            && (model.core.navigation_of(owner.browser_context_id@, owner.target_id@) matches Some(
            requests,
        ) && requests.pending is Some)),
{
}

/// The attachment of a Document is current while it belongs to no request, or to
/// exactly the request that Browser Core has committed for that Target.
pub proof fn law_attachment_is_current_with_its_request(
    model: ConnectionModel,
    session: Option<Seq<char>>,
)
    ensures
        model.current_binding(session) matches Some(binding) ==> {
            &&& model.session_place(session) is Some
            &&& model.context_at(model.session_place(session)->Some_0.context).slot_at(
                model.session_place(session)->Some_0.target,
            ).binding == Some(binding)
            &&& binding.navigation matches Some(token) ==> (
            model.session_owner(session) matches Some(owner) && (
            model.core.navigation_of(owner.browser_context_id@, owner.target_id@) matches Some(
                requests,
            ) && (requests.committed matches Some(committed) && committed.target_id@
                == token.target_id@ && committed.loader_id@ == token.loader_id@
                && committed.request == token.request)))
        },
        model.session_owner(session) is Some && (model.session_place(session) matches Some(place)
            && (model.context_at(place.context).slot_at(place.target).binding matches Some(binding)
            && binding.navigation is None)) ==> model.current_binding(session) is Some,
{
}

/// The Page that is attached is that of the slot that the session speaks of.
/// Without a slot, and without a Page in it, the error says which is missing.
pub proof fn law_attached_page_is_the_slots(model: ConnectionModel, session: Option<Seq<char>>)
    ensures
        ({
            let page = navigation::interruptible_page(model, session);
            &&& model.session_place(session) is None ==> page == Err::<u64, DocumentAccessError>(
                DocumentAccessError::NoSlot,
            )
            &&& model.session_place(session) matches Some(place) ==> {
                let slot = model.context_at(place.context).slot_at(place.target);
                &&& slot.loaded_page matches Some(shown) ==> page == Ok::<
                    u64,
                    DocumentAccessError,
                >(shown)
                &&& slot.loaded_page is None ==> page == Err::<u64, DocumentAccessError>(
                    DocumentAccessError::NoDocumentLoaded,
                )
            }
        }),
{
}

/// The Page of a Target is named after the context and the Target, and is the one
/// that Browser Core reports.
pub proof fn law_page_is_named_after_its_target(
    core: BrowserCoreRecord,
    context: String,
    target: String,
)
    ensures
        contexts::page_identity(core, context, target) is Some <==> core.page_of(
            context@,
            target@,
        ) is Some,
        contexts::page_identity(core, context, target) matches Some(page) ==> {
            &&& page.browser_context_id == context
            &&& page.target_id == Some(target)
            &&& core.page_of(context@, target@) == Some(page.residence)
        },
{
}

} // verus!
