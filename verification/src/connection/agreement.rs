//! Laws on the agreement of the slots with Browser Core's Targets.
//!
//! The slots agree with Core when each context has the active Target and as
//! many Targets as Core says, each slot holds a Target that Core knows as
//! exactly that, and the Targets in all slots are Core's, each once.
use vstd::prelude::*;

use crate::connection::contexts::CoreCommit;
use crate::connection::core_record::{BrowserCoreRecord, CoreTarget};
use crate::connection::errors::BrowserTargetRegistryError;
use crate::connection::laws;
use crate::connection::slots::{
    BackgroundTarget, BrowserTargetSlotProjection, ContextModel,
};
use crate::connection::state;
use crate::connection::state::ConnectionModel;
use crate::connection::targets;
use crate::connection::targets::{BrowserTargetRegistration, PhysicalBrowserContextSlot};

verus! {

/// The Targets in slots.
pub open spec fn slot_names(slots: Seq<BrowserTargetSlotProjection>) -> Seq<Seq<char>> {
    Seq::new(slots.len(), |at: int| slots[at].handle.target_id@)
}

/// The Targets in the slots of contexts.
pub open spec fn all_names(contexts: Seq<ContextModel>) -> Seq<Seq<char>>
    decreases contexts.len(),
{
    if contexts.len() == 0 {
        Seq::empty()
    } else {
        slot_names(contexts[0].slots()) + all_names(contexts.skip(1))
    }
}

/// Whether a slot of a context agrees with Browser Core.
#[verifier::opaque]
pub open spec fn slot_agrees(
    core: BrowserCoreRecord,
    id: Seq<char>,
    slot: BrowserTargetSlotProjection,
) -> bool {
    targets::slot_refusal(core, id, slot) is None
}

/// Whether a context's slots agree with Browser Core.
pub open spec fn context_agrees(core: BrowserCoreRecord, context: ContextModel) -> bool {
    &&& core.active_target(context.id@) == context.active_id()
    &&& core.context_target_count(context.id@) == context.slots().len()
    &&& forall|at: int|
        0 <= at < context.slots().len() ==> slot_agrees(
            core,
            context.id@,
            #[trigger] context.slots()[at],
        )
}

/// Whether the slots of all contexts agree with Browser Core.
pub open spec fn targets_agree(core: BrowserCoreRecord, contexts: Seq<ContextModel>) -> bool {
    &&& forall|at: int| 0 <= at < contexts.len() ==> context_agrees(core, #[trigger] contexts[at])
    &&& all_names(contexts).no_duplicates()
    &&& all_names(contexts).len() == core.targets@.len()
}

/// What holds of a slot that agrees.
proof fn lemma_slot_facts(core: BrowserCoreRecord, id: Seq<char>, slot: BrowserTargetSlotProjection)
    requires
        slot_agrees(core, id, slot),
    ensures
        core.target_context(slot.handle.target_id@) == Some(id),
        core.target_index(slot.handle.target_id@) is Some,
        core.target_handle_current(slot.handle),
{
    reveal(slot_agrees);
}

proof fn lemma_slots_agree(
    core: BrowserCoreRecord,
    id: Seq<char>,
    slots: Seq<BrowserTargetSlotProjection>,
    from: nat,
    seen: Seq<Seq<char>>,
)
    requires
        from <= slots.len(),
        seen.no_duplicates(),
    ensures
        targets::seen_after(slots, from, seen) == seen + slot_names(slots).skip(from as int),
        targets::slots_refusal_from(core, id, slots, from, seen) is None <==> {
            &&& forall|at: int|
                from <= at < slots.len() ==> slot_agrees(
                    core,
                    id,
                    #[trigger] slots[at],
                )
            &&& (seen + slot_names(slots).skip(from as int)).no_duplicates()
        },
    decreases slots.len() - from,
{
    reveal(slot_agrees);
    let names = slot_names(slots);
    let rest = names.skip(from as int);
    if from == slots.len() {
        assert(seen + rest =~= seen);
    } else {
        let target = slots[from as int].handle.target_id@;
        assert(rest[0] == target);
        assert(seen.push(target) + names.skip((from + 1) as int) =~= seen + rest);
        if seen.contains(target) {
            let at = choose|at: int| 0 <= at < seen.len() && seen[at] == target;
            assert((seen + rest)[at] == target);
            assert((seen + rest)[seen.len() as int] == target);
            lemma_seen_grows(slots, from, seen);
        } else {
            assert(seen.push(target).no_duplicates());
            lemma_slots_agree(core, id, slots, from + 1, seen.push(target));
        }
    }
}

proof fn lemma_seen_grows(
    slots: Seq<BrowserTargetSlotProjection>,
    from: nat,
    seen: Seq<Seq<char>>,
)
    requires
        from <= slots.len(),
    ensures
        targets::seen_after(slots, from, seen) == seen + slot_names(slots).skip(from as int),
    decreases slots.len() - from,
{
    let rest = slot_names(slots).skip(from as int);
    if from == slots.len() {
        assert(seen + rest =~= seen);
    } else {
        let target = slots[from as int].handle.target_id@;
        lemma_seen_grows(slots, from + 1, seen.push(target));
        assert(seen.push(target) + slot_names(slots).skip((from + 1) as int) =~= seen + rest);
    }
}

proof fn lemma_context_agrees(
    core: BrowserCoreRecord,
    context: ContextModel,
    seen: Seq<Seq<char>>,
)
    requires
        seen.no_duplicates(),
    ensures
        targets::seen_after(context.slots(), 0, seen) == seen + slot_names(context.slots()),
        targets::context_target_refusal(core, context, seen) is None <==> context_agrees(
            core,
            context,
        ) && (seen + slot_names(context.slots())).no_duplicates(),
{
    lemma_slots_agree(core, context.id@, context.slots(), 0, seen);
    assert(slot_names(context.slots()).skip(0) =~= slot_names(context.slots()));
}

/// Names that occur twice do so among more names.
proof fn lemma_repeats_stay(names: Seq<Seq<char>>, more: Seq<Seq<char>>)
    requires
        (names + more).no_duplicates(),
    ensures
        names.no_duplicates(),
{
    assert forall|left: int, right: int|
        0 <= left < names.len() && 0 <= right < names.len() && left != right implies names[left]
        != names[right] by {
        assert((names + more)[left] == names[left]);
        assert((names + more)[right] == names[right]);
    }
}

/// Whether the contexts from a place on agree.
spec fn agree_from(core: BrowserCoreRecord, contexts: Seq<ContextModel>, from: int) -> bool {
    forall|at: int| from <= at < contexts.len() ==> context_agrees(core, #[trigger] contexts[at])
}

proof fn lemma_contexts_agree(
    core: BrowserCoreRecord,
    contexts: Seq<ContextModel>,
    from: nat,
    seen: Seq<Seq<char>>,
)
    requires
        from <= contexts.len(),
        seen.no_duplicates(),
    ensures
        targets::target_refusal_from(core, contexts, from, seen) is None <==> {
            &&& agree_from(core, contexts, from as int)
            &&& (seen + all_names(contexts.skip(from as int))).no_duplicates()
            &&& (seen + all_names(contexts.skip(from as int))).len() == core.targets@.len()
        },
    decreases contexts.len() - from,
{
    let left = contexts.skip(from as int);
    if from == contexts.len() {
        assert(seen + all_names(left) =~= seen);
    } else {
        let context = contexts[from as int];
        let names = slot_names(context.slots());
        let rest = all_names(left.skip(1));
        let more = seen + names;
        assert(left[0] == context);
        assert(left.skip(1) =~= contexts.skip((from + 1) as int));
        assert(more + rest =~= seen + all_names(left));
        lemma_context_agrees(core, context, seen);
        if (more + rest).no_duplicates() {
            lemma_repeats_stay(more, rest);
        }
        if agree_from(core, contexts, from as int) {
            assert(context_agrees(core, contexts[from as int]));
            assert(agree_from(core, contexts, (from + 1) as int));
        }
        if targets::context_target_refusal(core, context, seen) is None {
            lemma_contexts_agree(core, contexts, from + 1, more);
            if agree_from(core, contexts, (from + 1) as int) {
                assert forall|at: int| from <= at < contexts.len() implies context_agrees(
                    core,
                    #[trigger] contexts[at],
                ) by {
                    if at > from {
                        assert(from + 1 <= at);
                    }
                }
            }
        }
    }
}

/// The slots agree with Browser Core's Targets exactly where those of each
/// context do, no Target is in two slots, and there are as many as Core has.
pub proof fn law_target_agreement(model: ConnectionModel)
    ensures
        model.target_topology_refusal() is None <==> targets_agree(model.core, model.contexts()),
{
    let contexts = model.contexts();
    let none = Seq::<Seq<char>>::empty();
    lemma_contexts_agree(model.core, contexts, 0, none);
    assert(contexts.skip(0) =~= contexts);
    assert(none + all_names(contexts) =~= all_names(contexts));
}

/// Replacing one context replaces its Targets among all.
proof fn lemma_names_update(contexts: Seq<ContextModel>, at: int, context: ContextModel)
    requires
        0 <= at < contexts.len(),
    ensures
        all_names(contexts.update(at, context)).to_multiset().add(
            slot_names(contexts[at].slots()).to_multiset(),
        ) =~= all_names(contexts).to_multiset().add(slot_names(context.slots()).to_multiset()),
        all_names(contexts.update(at, context)).len() + contexts[at].slots().len() == all_names(
            contexts,
        ).len() + context.slots().len(),
    decreases contexts.len(),
{
    broadcast use vstd::seq_lib::group_to_multiset_ensures;

    let after = contexts.update(at, context);
    let first = slot_names(contexts[0].slots());
    let rest = all_names(contexts.skip(1));
    vstd::seq_lib::lemma_multiset_commutative(first, rest);
    if at == 0 {
        assert(after.skip(1) =~= contexts.skip(1));
        vstd::seq_lib::lemma_multiset_commutative(slot_names(context.slots()), rest);
    } else {
        lemma_names_update(contexts.skip(1), at - 1, context);
        assert(after.skip(1) =~= contexts.skip(1).update(at - 1, context));
        let changed = all_names(after.skip(1));
        vstd::seq_lib::lemma_multiset_commutative(first, changed);
        let gone = slot_names(contexts[at].slots()).to_multiset();
        let come = slot_names(context.slots()).to_multiset();
        assert(contexts.skip(1)[at - 1] == contexts[at]);
        assert(changed.to_multiset().add(gone) =~= rest.to_multiset().add(come));
        assert(first.to_multiset().add(changed.to_multiset()).add(gone)
            =~= first.to_multiset().add(changed.to_multiset().add(gone)));
        assert(first.to_multiset().add(rest.to_multiset()).add(come)
            =~= first.to_multiset().add(rest.to_multiset().add(come)));
    }
}

/// Names that occur as often as others, none of them twice, occur once each.
proof fn lemma_no_repeats(names: Seq<Seq<char>>, others: Seq<Seq<char>>)
    requires
        names.no_duplicates(),
        forall|name: Seq<char>|
            #[trigger] others.to_multiset().count(name) <= names.to_multiset().count(name),
    ensures
        others.no_duplicates(),
{
    names.lemma_multiset_has_no_duplicates();
    assert forall|name: Seq<char>| others.to_multiset().contains(name) implies
        #[trigger] others.to_multiset().count(name) == 1 by {
        assert(names.to_multiset().contains(name));
    }
    others.lemma_multiset_has_no_duplicates_conv();
}

/// Every Target in a slot that agrees is one of Core's.
proof fn lemma_names_known(core: BrowserCoreRecord, contexts: Seq<ContextModel>, name: Seq<char>)
    requires
        forall|at: int| 0 <= at < contexts.len() ==> context_agrees(core, #[trigger] contexts[at]),
        all_names(contexts).contains(name),
    ensures
        core.target_index(name) is Some,
    decreases contexts.len(),
{
    if contexts.len() > 0 {
        let first = slot_names(contexts[0].slots());
        let rest = all_names(contexts.skip(1));
        let at = choose|at: int| 0 <= at < (first + rest).len() && (first + rest)[at] == name;
        if at < first.len() {
            assert(context_agrees(core, contexts[0]));
            let slot = contexts[0].slots()[at];
            assert(slot_agrees(core, contexts[0].id@, slot));
            lemma_slot_facts(core, contexts[0].id@, slot);
        } else {
            assert(rest[at - first.len()] == name);
            assert forall|place: int| 0 <= place < contexts.skip(1).len() implies context_agrees(
                core,
                #[trigger] contexts.skip(1)[place],
            ) by {
                assert(context_agrees(core, contexts[place + 1]));
            }
            lemma_names_known(core, contexts.skip(1), name);
        }
    }
}

/// Whether two records look a Target up alike.
pub open spec fn looks_up_alike(
    before: BrowserCoreRecord,
    after: BrowserCoreRecord,
    name: Seq<char>,
) -> bool {
    match (before.target_index(name), after.target_index(name)) {
        (Some(left), Some(right)) => before.targets@[left] == after.targets@[right],
        (None, None) => true,
        _ => false,
    }
}

/// A slot agrees with two records alike that look its Target up alike and know
/// its handle.
proof fn lemma_slot_alike(
    before: BrowserCoreRecord,
    after: BrowserCoreRecord,
    id: Seq<char>,
    slot: BrowserTargetSlotProjection,
)
    requires
        looks_up_alike(before, after, slot.handle.target_id@),
        slot_agrees(before, id, slot),
        after.target_handle_current(slot.handle),
    ensures
        slot_agrees(after, id, slot),
{
    reveal(slot_agrees);
}

/// Records with the same Targets look all up alike.
proof fn lemma_same_targets(before: BrowserCoreRecord, after: BrowserCoreRecord, name: Seq<char>)
    requires
        before.targets@ == after.targets@,
    ensures
        looks_up_alike(before, after, name),
{
    if exists|at: int| before.target_is(at, name) {
        let at = lemma_first_named(before, name);
        assert(after.target_is(at, name));
        assert forall|earlier: int| 0 <= earlier < at implies !#[trigger] after.target_is(
            earlier,
            name,
        ) by {
            assert(!before.target_is(earlier, name));
        }
        before.lemma_first_target(name, at);
        after.lemma_first_target(name, at);
    } else {
        assert forall|at: int| !after.target_is(at, name) by {
            assert(!before.target_is(at, name));
        }
    }
}

/// A slot agrees as before with records that have the same Targets.
proof fn lemma_same_targets_slot(
    before: BrowserCoreRecord,
    after: BrowserCoreRecord,
    id: Seq<char>,
    slot: BrowserTargetSlotProjection,
)
    requires
        before.targets@ == after.targets@,
        slot_agrees(before, id, slot),
    ensures
        slot_agrees(after, id, slot),
{
    lemma_slot_facts(before, id, slot);
    lemma_same_targets(before, after, slot.handle.target_id@);
    let held = choose|held: int|
        0 <= held < before.targets@.len() && (#[trigger] before.targets@[held]).handle.same(
            &slot.handle,
        );
    assert(after.targets@[held].handle.same(&slot.handle));
    lemma_slot_alike(before, after, id, slot);
}

/// The first Target of a name.
proof fn lemma_first_named(core: BrowserCoreRecord, name: Seq<char>) -> (first: int)
    requires
        exists|at: int| core.target_is(at, name),
    ensures
        core.target_is(first, name),
        forall|earlier: int| 0 <= earlier < first ==> !#[trigger] core.target_is(earlier, name),
{
    let at = choose|at: int| core.target_is(at, name);
    lemma_first_named_upto(core, name, at)
}

proof fn lemma_first_named_upto(core: BrowserCoreRecord, name: Seq<char>, at: int) -> (first: int)
    requires
        core.target_is(at, name),
    ensures
        core.target_is(first, name),
        forall|earlier: int| 0 <= earlier < first ==> !#[trigger] core.target_is(earlier, name),
    decreases at,
{
    if exists|earlier: int| 0 <= earlier < at && core.target_is(earlier, name) {
        let earlier = choose|earlier: int| 0 <= earlier < at && core.target_is(earlier, name);
        lemma_first_named_upto(core, name, earlier)
    } else {
        at
    }
}

/// Counts of Targets depend on the Targets alone.
proof fn lemma_same_counts(
    before: BrowserCoreRecord,
    after: BrowserCoreRecord,
    id: Seq<char>,
    count: nat,
)
    requires
        count <= before.targets@.len(),
        count <= after.targets@.len(),
        forall|at: int| 0 <= at < count ==> #[trigger] before.targets@[at] == after.targets@[at],
    ensures
        before.targets_of(id, count) == after.targets_of(id, count),
    decreases count,
{
    if count > 0 {
        lemma_same_counts(before, after, id, (count - 1) as nat);
        assert(before.targets@[count - 1] == after.targets@[count - 1]);
    }
}

/// Browser Core after the active Target of a context has changed.
pub open spec fn core_activated(
    before: BrowserCoreRecord,
    after: BrowserCoreRecord,
    id: Seq<char>,
    target: Seq<char>,
) -> bool {
    &&& after.targets@ == before.targets@
    &&& forall|other: Seq<char>| #[trigger]
        after.active_target(other) == (if other == id {
            Some(target)
        } else {
            before.active_target(other)
        })
}

/// A context agrees as before with records that have the same Targets.
proof fn lemma_context_alike(
    before: BrowserCoreRecord,
    after: BrowserCoreRecord,
    context: ContextModel,
)
    requires
        before.targets@ == after.targets@,
        context_agrees(before, context),
        after.active_target(context.id@) == before.active_target(context.id@),
    ensures
        context_agrees(after, context),
{
    lemma_same_counts(before, after, context.id@, before.targets@.len());
    assert forall|at: int| 0 <= at < context.slots().len() implies slot_agrees(
        after,
        context.id@,
        #[trigger] context.slots()[at],
    ) by {
        let slot = context.slots()[at];
        assert(slot_agrees(before, context.id@, slot));
        lemma_same_targets_slot(before, after, context.id@, slot);
    }
}

/// Bringing a Target to the front keeps all slots of the context.
proof fn lemma_front_keeps_slots(context: ContextModel, target: Seq<char>)
    requires
        context.active_id() != Some(target),
        context.background_index(target) is Some,
    ensures
        ({
            let index = context.background_index(target)->Some_0 as int;
            let after = targets::brought_to_front(context, index);
            &&& after.active_id() == Some(target)
            &&& after.slots().len() == context.slots().len()
            &&& slot_names(after.slots()).to_multiset() =~= slot_names(
                context.slots(),
            ).to_multiset()
            &&& forall|at: int|
                0 <= at < after.slots().len() ==> context.slots().contains(
                    #[trigger] after.slots()[at],
                )
        }),
{
    broadcast use vstd::seq_lib::group_to_multiset_ensures;

    context.lemma_background_from(target, 0);
    let index = context.background_index(target)->Some_0 as int;
    let after = targets::brought_to_front(context, index);
    let behind = context.background_slots();
    let moved = behind[index];
    let behind_names = slot_names(behind);
    let rest = behind.remove(index);
    let none = Seq::<Seq<char>>::empty();
    assert(slot_names(rest) =~= behind_names.remove(index));
    assert(behind_names[index] == target);
    assert(behind_names.remove(index).to_multiset() =~= behind_names.to_multiset().remove(target));
    assert(behind_names.to_multiset().count(target) > 0);
    let offset: int = if context.active.handle is Some {
        1
    } else {
        0
    };
    match context.active.handle {
        Some(handle) => {
            let front = context.active_slot()->0;
            assert(after.slots() =~= seq![moved] + rest.push(front));
            assert(slot_names(after.slots()) =~= seq![target] + slot_names(rest).push(
                handle.target_id@,
            ));
            assert(slot_names(context.slots()) =~= seq![handle.target_id@] + behind_names);
            assert(seq![target] =~= none.push(target));
            assert(seq![handle.target_id@] =~= none.push(handle.target_id@));
            vstd::seq_lib::lemma_multiset_commutative(
                seq![target],
                slot_names(rest).push(handle.target_id@),
            );
            vstd::seq_lib::lemma_multiset_commutative(seq![handle.target_id@], behind_names);
            assert forall|at: int| 0 <= at < after.slots().len() implies context.slots().contains(
                #[trigger] after.slots()[at],
            ) by {
                let from = if at == 0 {
                    index + 1
                } else if at - 1 < index {
                    at
                } else if at < behind.len() {
                    at + 1
                } else {
                    0
                };
                assert(context.slots()[from] == after.slots()[at]);
            }
        },
        None => {
            assert(after.slots() =~= seq![moved] + rest);
            assert(slot_names(after.slots()) =~= seq![target] + slot_names(rest));
            assert(context.slots() =~= behind);
            assert(seq![target] =~= none.push(target));
            vstd::seq_lib::lemma_multiset_commutative(seq![target], slot_names(rest));
            assert forall|at: int| 0 <= at < after.slots().len() implies context.slots().contains(
                #[trigger] after.slots()[at],
            ) by {
                let from = if at == 0 {
                    index
                } else if at - 1 < index {
                    at - 1
                } else {
                    at
                };
                assert(context.slots()[from] == after.slots()[at]);
            }
        },
    }
}

/// A context with the same slots in another order agrees as before.
proof fn lemma_front_agrees(
    before: BrowserCoreRecord,
    after: BrowserCoreRecord,
    context: ContextModel,
    changed: ContextModel,
)
    requires
        before.targets@ == after.targets@,
        context_agrees(before, context),
        changed.id == context.id,
        changed.slots().len() == context.slots().len(),
        forall|at: int|
            0 <= at < changed.slots().len() ==> context.slots().contains(
                #[trigger] changed.slots()[at],
            ),
        after.active_target(context.id@) == changed.active_id(),
    ensures
        context_agrees(after, changed),
{
    lemma_same_counts(before, after, context.id@, before.targets@.len());
    assert forall|at: int| 0 <= at < changed.slots().len() implies slot_agrees(
        after,
        changed.id@,
        #[trigger] changed.slots()[at],
    ) by {
        let slot = changed.slots()[at];
        assert(context.slots().contains(slot));
        let from = choose|from: int|
            0 <= from < context.slots().len() && context.slots()[from] == slot;
        assert(slot_agrees(before, context.id@, context.slots()[from]));
        lemma_same_targets_slot(before, after, context.id@, slot);
    }
}

/// A context with the same Targets can take the place of another.
proof fn lemma_same_names_replaced(
    contexts: Seq<ContextModel>,
    at: int,
    changed: ContextModel,
)
    requires
        0 <= at < contexts.len(),
        all_names(contexts).no_duplicates(),
        slot_names(changed.slots()).to_multiset() == slot_names(contexts[at].slots()).to_multiset(),
        changed.slots().len() == contexts[at].slots().len(),
    ensures
        all_names(contexts.update(at, changed)).no_duplicates(),
        all_names(contexts.update(at, changed)).len() == all_names(contexts).len(),
{
    let now = all_names(contexts.update(at, changed)).to_multiset();
    let earlier = all_names(contexts).to_multiset();
    let same = slot_names(changed.slots()).to_multiset();
    lemma_names_update(contexts, at, changed);
    assert forall|name: Seq<char>| #[trigger] now.count(name) <= earlier.count(name) by {
        assert(now.add(same).count(name) == earlier.add(same).count(name));
    }
    lemma_no_repeats(all_names(contexts), all_names(contexts.update(at, changed)));
}

/// Where the slots agree with Browser Core's Targets, they still do after a
/// Target came to the front, as long as Core keeps its Targets and makes that
/// one active.
pub proof fn law_target_activation_keeps_agreement(
    model: ConnectionModel,
    target: Seq<char>,
    answer: Result<CoreCommit<bool>, BrowserTargetRegistryError>,
)
    requires
        targets::activate_target(model, target, answer).result is Ok,
        laws::distinct_ids(model.contexts()),
        core_activated(model.core, answer->Ok_0.core, model.selected->Some_0.id@, target),
    ensures
        targets::activate_target(model, target, answer).model.target_topology_refusal() is None,
{
    law_target_agreement(model);
    let after = targets::activate_target(model, target, answer).model;
    let contexts = model.contexts();
    let context = model.selected->Some_0;
    let changed = after.selected->Some_0;
    assert(after.contexts() =~= contexts.update(0, changed));
    assert(contexts[0] == context);
    assert(context_agrees(model.core, contexts[0]));
    if context.active_id() != Some(target) {
        lemma_front_keeps_slots(context, target);
        lemma_front_agrees(model.core, after.core, context, changed);
    } else {
        assert(after.core.active_target(context.id@) == Some(target));
        lemma_context_alike(model.core, after.core, context);
    }
    lemma_same_names_replaced(contexts, 0, changed);
    assert forall|at: int| 0 <= at < after.contexts().len() implies context_agrees(
        after.core,
        #[trigger] after.contexts()[at],
    ) by {
        if at > 0 {
            assert(contexts[0].id@ != contexts[at].id@);
            assert(context_agrees(model.core, contexts[at]));
            lemma_context_alike(model.core, after.core, contexts[at]);
        }
    }
    law_target_agreement(after);
}

/// A context that changes neither its slots nor its front agrees as before.
pub proof fn lemma_same_slots_agree(
    core: BrowserCoreRecord,
    contexts: Seq<ContextModel>,
    at: int,
    changed: ContextModel,
)
    requires
        0 <= at < contexts.len(),
        targets_agree(core, contexts),
        changed.id == contexts[at].id,
        changed.active_id() == contexts[at].active_id(),
        changed.slots() == contexts[at].slots(),
    ensures
        targets_agree(core, contexts.update(at, changed)),
{
    let now = contexts.update(at, changed);
    assert forall|other: int| 0 <= other < now.len() implies context_agrees(
        core,
        #[trigger] now[other],
    ) by {
        assert(context_agrees(core, contexts[other]));
    }
    lemma_names_update(contexts, at, changed);
    let names = all_names(contexts).to_multiset();
    let own = slot_names(changed.slots()).to_multiset();
    assert forall|name: Seq<char>| #[trigger]
        all_names(now).to_multiset().count(name) <= names.count(name) by {
        assert(all_names(now).to_multiset().add(own).count(name) == names.add(own).count(name));
    }
    lemma_no_repeats(all_names(contexts), all_names(now));
}

/// Where a context is among all, and what changing it there does.
pub proof fn lemma_place(model: ConnectionModel, id: Seq<char>, changed: ContextModel) -> (at: int)
    requires
        model.place_of(id) is Some,
        model.inactive.len() <= usize::MAX,
    ensures
        0 <= at < model.contexts().len(),
        model.contexts()[at] == model.context_at(model.place_of(id)->Some_0),
        model.contexts()[at].id@ == id,
        model.changing_context(model.place_of(id)->Some_0, changed).contexts()
            == model.contexts().update(at, changed),
        model.changing_context(model.place_of(id)->Some_0, changed).core == model.core,
{
    let place = model.place_of(id)->Some_0;
    let after = model.changing_context(place, changed);
    match place {
        PhysicalBrowserContextSlot::Selected => {
            assert(after.contexts() =~= model.contexts().update(0, changed));
            0
        },
        PhysicalBrowserContextSlot::Inactive(index) => {
            state::lemma_find_context(model.inactive, id, 0);
            let at = if model.selected is Some {
                index + 1
            } else {
                index as int
            };
            assert(after.inactive =~= model.inactive.update(index as int, changed));
            assert(after.contexts() =~= model.contexts().update(at, changed));
            at
        },
    }
}

/// Browser Core's Targets after one was added to a context, under a name that
/// Core did not know.
#[verifier::opaque]
pub open spec fn core_gained(
    before: BrowserCoreRecord,
    after: BrowserCoreRecord,
    id: Seq<char>,
    added: CoreTarget,
) -> bool {
    &&& after.targets@ == before.targets@.push(added)
    &&& added.browser_context_id@ == id
    &&& before.target_index(added.handle.target_id@) is None
}

/// Whether all contexts but one have the active Target they had.
pub open spec fn others_keep_active(
    before: BrowserCoreRecord,
    after: BrowserCoreRecord,
    id: Seq<char>,
) -> bool {
    forall|other: Seq<char>|
        other != id ==> #[trigger] after.active_target(other) == before.active_target(other)
}

/// Browser Core after a Target was added behind in a context.
pub open spec fn core_added(
    before: BrowserCoreRecord,
    after: BrowserCoreRecord,
    id: Seq<char>,
    added: CoreTarget,
) -> bool {
    &&& core_gained(before, after, id, added)
    &&& others_keep_active(before, after, id)
    &&& after.active_target(id) == before.active_target(id)
}

/// Browser Core after a Target was added in front of a context.
pub open spec fn core_added_front(
    before: BrowserCoreRecord,
    after: BrowserCoreRecord,
    id: Seq<char>,
    added: CoreTarget,
) -> bool {
    &&& core_gained(before, after, id, added)
    &&& others_keep_active(before, after, id)
    &&& after.active_target(id) == Some(added.handle.target_id@)
}

/// What holds of an added Target.
proof fn lemma_gained_facts(
    before: BrowserCoreRecord,
    after: BrowserCoreRecord,
    id: Seq<char>,
    added: CoreTarget,
)
    requires
        core_gained(before, after, id, added),
    ensures
        after.targets@.len() == before.targets@.len() + 1,
        before.target_index(added.handle.target_id@) is None,
{
    reveal(core_gained);
}

/// A Target that was known is looked up as before after another was added.
proof fn lemma_added_lookup(
    before: BrowserCoreRecord,
    after: BrowserCoreRecord,
    id: Seq<char>,
    added: CoreTarget,
    name: Seq<char>,
)
    requires
        core_gained(before, after, id, added),
        before.target_index(name) is Some,
    ensures
        looks_up_alike(before, after, name),
{
    reveal(core_gained);
    let at = lemma_first_named(before, name);
    assert(after.targets@[at] == before.targets@[at]);
    assert(after.target_is(at, name));
    assert forall|earlier: int| 0 <= earlier < at implies !#[trigger] after.target_is(
        earlier,
        name,
    ) by {
        assert(after.targets@[earlier] == before.targets@[earlier]);
        assert(!before.target_is(earlier, name));
    }
    before.lemma_first_target(name, at);
    after.lemma_first_target(name, at);
}

/// A slot that agreed still does after another Target was added.
proof fn lemma_added_slot(
    before: BrowserCoreRecord,
    after: BrowserCoreRecord,
    id: Seq<char>,
    added: CoreTarget,
    owner: Seq<char>,
    slot: BrowserTargetSlotProjection,
)
    requires
        core_gained(before, after, id, added),
        slot_agrees(before, owner, slot),
    ensures
        slot_agrees(after, owner, slot),
{
    reveal(core_gained);
    lemma_slot_facts(before, owner, slot);
    lemma_added_lookup(before, after, id, added, slot.handle.target_id@);
    let held = choose|held: int|
        0 <= held < before.targets@.len() && (#[trigger] before.targets@[held]).handle.same(
            &slot.handle,
        );
    assert(after.targets@[held] == before.targets@[held]);
    assert(after.targets@[held].handle.same(&slot.handle));
    lemma_slot_alike(before, after, owner, slot);
}

/// The slot of the added Target agrees.
proof fn lemma_new_slot(
    before: BrowserCoreRecord,
    after: BrowserCoreRecord,
    id: Seq<char>,
    added: CoreTarget,
    slot: BrowserTargetSlotProjection,
)
    requires
        core_gained(before, after, id, added),
        slot.handle == added.handle,
        slot.page_instance == added.page.instance,
    ensures
        slot_agrees(after, id, slot),
{
    reveal(core_gained);
    let name = added.handle.target_id@;
    let at = before.targets@.len() as int;
    assert(after.targets@[at] == added);
    assert(after.target_is(at, name));
    assert forall|earlier: int| 0 <= earlier < at implies !#[trigger] after.target_is(
        earlier,
        name,
    ) by {
        assert(after.targets@[earlier] == before.targets@[earlier]);
        assert(!before.target_is(earlier, name));
    }
    after.lemma_first_target(name, at);
    assert(after.targets@[at].handle.same(&slot.handle));
    reveal(slot_agrees);
}

/// How many Targets contexts have after one was added.
proof fn lemma_added_count(
    before: BrowserCoreRecord,
    after: BrowserCoreRecord,
    id: Seq<char>,
    added: CoreTarget,
    owner: Seq<char>,
)
    requires
        core_gained(before, after, id, added),
    ensures
        after.context_target_count(owner) == before.context_target_count(owner) + (if owner == id {
            1nat
        } else {
            0nat
        }),
{
    reveal(core_gained);
    let count = before.targets@.len();
    lemma_same_counts(before, after, owner, count);
    assert(after.targets@[count as int] == added);
}

/// A name that was not there, added to names without repeats, repeats none.
proof fn lemma_fresh_name(names: Seq<Seq<char>>, now: Seq<Seq<char>>, name: Seq<char>)
    requires
        names.no_duplicates(),
        !names.contains(name),
        forall|other: Seq<char>| #[trigger]
            now.to_multiset().count(other) == names.to_multiset().count(other) + (if other == name {
                1nat
            } else {
                0nat
            }),
    ensures
        now.no_duplicates(),
{
    broadcast use vstd::seq_lib::group_to_multiset_ensures;

    assert(names.push(name).no_duplicates());
    lemma_no_repeats(names.push(name), now);
}

/// Where the slots agree with Browser Core's Targets, they still do after a
/// Target was registered behind, as long as Core adds exactly that Target, under
/// a name that it did not know, and keeps its active Targets.
pub proof fn law_background_registration_keeps_agreement(
    model: ConnectionModel,
    id: Seq<char>,
    target: BackgroundTarget,
    answer: Result<CoreCommit<BrowserTargetRegistration>, BrowserTargetRegistryError>,
    added: CoreTarget,
)
    requires
        targets::register_background(model, id, target, answer).result is Ok,
        laws::distinct_ids(model.contexts()),
        model.inactive.len() <= usize::MAX,
        core_added(model.core, answer->Ok_0.core, id, added),
        added.handle == answer->Ok_0.outcome.handle,
        added.page.instance == answer->Ok_0.outcome.page.residence.instance,
    ensures
        targets::register_background(
            model,
            id,
            target,
            answer,
        ).model.target_topology_refusal() is None,
{
    law_target_agreement(model);
    let commit = answer->Ok_0;
    let core = commit.core;
    let context = model.context_at(model.place_of(id)->Some_0);
    let behind = BackgroundTarget {
        handle: commit.outcome.handle,
        slot: commit.outcome.bound_slot(target.slot),
        ..target
    };
    let changed = ContextModel { background: context.background.push(behind), ..context };
    let committed = ConnectionModel { core, ..model };
    assert(committed.place_of(id) == model.place_of(id));
    let at = lemma_place(committed, id, changed);
    assert(committed.contexts() == model.contexts());
    let slot = lemma_slot_behind(context, behind);
    lemma_agree_after_add(
        model.core,
        core,
        added,
        model.contexts(),
        at,
        changed,
        context.slots().len() as int,
        slot,
    );
    law_target_agreement(targets::register_background(model, id, target, answer).model);
}

/// The slots of a context with one more Target behind.
proof fn lemma_slot_behind(context: ContextModel, behind: BackgroundTarget) -> (slot:
    BrowserTargetSlotProjection)
    ensures
        slot.handle == behind.handle,
        slot.page_instance == behind.slot.page_instance,
        (ContextModel { background: context.background.push(behind), ..context }).slots()
            == context.slots().insert(context.slots().len() as int, slot),
{
    let slot = BrowserTargetSlotProjection {
        handle: behind.handle,
        page_instance: behind.slot.page_instance,
        session_storage: behind.slot.session_storage,
    };
    let changed = ContextModel { background: context.background.push(behind), ..context };
    assert(changed.slots() =~= context.slots().insert(context.slots().len() as int, slot));
    slot
}

/// The slots of all contexts agree after a Target was added to one.
pub proof fn lemma_agree_after_add(
    before: BrowserCoreRecord,
    after: BrowserCoreRecord,
    added: CoreTarget,
    contexts: Seq<ContextModel>,
    at: int,
    changed: ContextModel,
    place: int,
    slot: BrowserTargetSlotProjection,
)
    requires
        0 <= at < contexts.len(),
        laws::distinct_ids(contexts),
        targets_agree(before, contexts),
        core_gained(before, after, contexts[at].id@, added),
        others_keep_active(before, after, contexts[at].id@),
        after.active_target(contexts[at].id@) == changed.active_id(),
        changed.id == contexts[at].id,
        0 <= place <= contexts[at].slots().len(),
        changed.slots() == contexts[at].slots().insert(place, slot),
        slot.handle == added.handle,
        slot.page_instance == added.page.instance,
    ensures
        targets_agree(after, contexts.update(at, changed)),
{
    let id = contexts[at].id@;
    let context = contexts[at];
    assert(context_agrees(before, contexts[at]));
    lemma_gained_facts(before, after, id, added);
    lemma_added_count(before, after, id, added, id);
    lemma_new_slot(before, after, id, added, slot);
    lemma_slots_after_add(before, after, id, added, context, changed, place, slot);
    assert(context_agrees(after, changed));
    let now = contexts.update(at, changed);
    assert forall|other: int| 0 <= other < now.len() implies context_agrees(
        after,
        #[trigger] now[other],
    ) by {
        if other != at {
            assert(context_agrees(before, contexts[other]));
            lemma_other_context_after_add(
                before,
                after,
                id,
                added,
                contexts[other],
                contexts,
                at,
                other,
            );
        }
    }
    lemma_names_after_add(before, contexts, at, changed, place, slot);
}

/// The slots of a context that a Target was added to agree.
proof fn lemma_slots_after_add(
    before: BrowserCoreRecord,
    after: BrowserCoreRecord,
    id: Seq<char>,
    added: CoreTarget,
    context: ContextModel,
    changed: ContextModel,
    place: int,
    slot: BrowserTargetSlotProjection,
)
    requires
        core_gained(before, after, id, added),
        context_agrees(before, context),
        context.id@ == id,
        slot_agrees(after, id, slot),
        0 <= place <= context.slots().len(),
        changed.slots() == context.slots().insert(place, slot),
    ensures
        forall|here: int|
            0 <= here < changed.slots().len() ==> slot_agrees(
                after,
                id,
                #[trigger] changed.slots()[here],
            ),
{
    assert forall|here: int| 0 <= here < changed.slots().len() implies slot_agrees(
        after,
        id,
        #[trigger] changed.slots()[here],
    ) by {
        if here != place {
            let source = if here < place {
                here
            } else {
                here - 1
            };
            assert(changed.slots()[here] == context.slots()[source]);
            assert(slot_agrees(before, id, context.slots()[source]));
            lemma_added_slot(before, after, id, added, id, context.slots()[source]);
        }
    }
}

/// A context that another Target was not added to agrees as before.
proof fn lemma_other_context_after_add(
    before: BrowserCoreRecord,
    after: BrowserCoreRecord,
    id: Seq<char>,
    added: CoreTarget,
    context: ContextModel,
    contexts: Seq<ContextModel>,
    at: int,
    other: int,
)
    requires
        core_gained(before, after, id, added),
        laws::distinct_ids(contexts),
        0 <= at < contexts.len(),
        0 <= other < contexts.len(),
        at != other,
        contexts[at].id@ == id,
        context == contexts[other],
        context_agrees(before, context),
        others_keep_active(before, after, id),
    ensures
        context_agrees(after, context),
{
    if at < other {
        assert(contexts[at].id@ != contexts[other].id@);
    } else {
        assert(contexts[other].id@ != contexts[at].id@);
    }
    lemma_added_count(before, after, id, added, context.id@);
    assert forall|place: int| 0 <= place < context.slots().len() implies slot_agrees(
        after,
        context.id@,
        #[trigger] context.slots()[place],
    ) by {
        assert(slot_agrees(before, context.id@, context.slots()[place]));
        lemma_added_slot(before, after, id, added, context.id@, context.slots()[place]);
    }
}

/// With a slot for a Target that Core did not know, no Target is in two slots.
proof fn lemma_names_after_add(
    core: BrowserCoreRecord,
    contexts: Seq<ContextModel>,
    at: int,
    changed: ContextModel,
    place: int,
    slot: BrowserTargetSlotProjection,
)
    requires
        targets_agree(core, contexts),
        0 <= at < contexts.len(),
        0 <= place <= contexts[at].slots().len(),
        changed.slots() == contexts[at].slots().insert(place, slot),
        core.target_index(slot.handle.target_id@) is None,
    ensures
        all_names(contexts.update(at, changed)).no_duplicates(),
        all_names(contexts.update(at, changed)).len() == all_names(contexts).len() + 1,
{
    broadcast use vstd::seq_lib::group_to_multiset_ensures;

    let name = slot.handle.target_id@;
    let earlier = slot_names(contexts[at].slots());
    let names = all_names(contexts);
    let now = all_names(contexts.update(at, changed));
    assert(slot_names(changed.slots()) =~= earlier.insert(place, name));
    vstd::seq_lib::to_multiset_insert(earlier, place, name);
    lemma_names_update(contexts, at, changed);
    if names.contains(name) {
        lemma_names_known(core, contexts, name);
    }
    assert forall|other: Seq<char>| #[trigger]
        now.to_multiset().count(other) == names.to_multiset().count(other) + (if other == name {
            1nat
        } else {
            0nat
        }) by {
        assert(now.to_multiset().add(earlier.to_multiset()).count(other)
            == names.to_multiset().add(earlier.insert(place, name).to_multiset()).count(other));
    }
    lemma_fresh_name(names, now, name);
}

/// Browser Core's Targets after its only Target of a name was removed from a
/// context.
#[verifier::opaque]
pub open spec fn core_lost(
    before: BrowserCoreRecord,
    after: BrowserCoreRecord,
    id: Seq<char>,
    name: Seq<char>,
    at: int,
) -> bool {
    &&& before.target_is(at, name)
    &&& forall|other: int| #[trigger] before.target_is(other, name) ==> other == at
    &&& before.targets@[at].browser_context_id@ == id
    &&& after.targets@ == before.targets@.remove(at)
}

/// Browser Core after a Target behind was removed from a context.
pub open spec fn core_removed(
    before: BrowserCoreRecord,
    after: BrowserCoreRecord,
    id: Seq<char>,
    name: Seq<char>,
    at: int,
) -> bool {
    &&& core_lost(before, after, id, name, at)
    &&& others_keep_active(before, after, id)
    &&& after.active_target(id) == before.active_target(id)
}

/// Browser Core after the Target in front of a context was removed.
pub open spec fn core_removed_front(
    before: BrowserCoreRecord,
    after: BrowserCoreRecord,
    id: Seq<char>,
    name: Seq<char>,
    at: int,
) -> bool {
    &&& core_lost(before, after, id, name, at)
    &&& others_keep_active(before, after, id)
    &&& after.active_target(id) is None
}

/// What holds of a removed Target.
proof fn lemma_lost_facts(
    before: BrowserCoreRecord,
    after: BrowserCoreRecord,
    id: Seq<char>,
    name: Seq<char>,
    at: int,
)
    requires
        core_lost(before, after, id, name, at),
    ensures
        after.targets@.len() + 1 == before.targets@.len(),
{
    reveal(core_lost);
}

/// Where a Target is after the one at a place was removed.
spec fn shifted(at: int, held: int) -> int {
    if held < at {
        held
    } else {
        held - 1
    }
}

/// A Target of another name is looked up as before after one was removed.
proof fn lemma_removed_lookup(
    before: BrowserCoreRecord,
    after: BrowserCoreRecord,
    id: Seq<char>,
    name: Seq<char>,
    at: int,
    kept: Seq<char>,
)
    requires
        core_lost(before, after, id, name, at),
        kept != name,
        before.target_index(kept) is Some,
    ensures
        looks_up_alike(before, after, kept),
{
    reveal(core_lost);
    let first = lemma_first_named(before, kept);
    before.lemma_first_target(kept, first);
    lemma_first_after_remove(before, after, at, kept, first);
}

/// The first Target of a name is the first after one of another name was removed.
proof fn lemma_first_after_remove(
    before: BrowserCoreRecord,
    after: BrowserCoreRecord,
    at: int,
    kept: Seq<char>,
    first: int,
)
    requires
        0 <= at < before.targets@.len(),
        after.targets@ == before.targets@.remove(at),
        before.target_is(first, kept),
        first != at,
        forall|earlier: int| 0 <= earlier < first ==> !#[trigger] before.target_is(earlier, kept),
    ensures
        after.target_index(kept) == Some(shifted(at, first)),
        after.targets@[shifted(at, first)] == before.targets@[first],
{
    let now = shifted(at, first);
    lemma_shifted(before, after, at, first, kept);
    assert forall|earlier: int| 0 <= earlier < now implies !#[trigger] after.target_is(
        earlier,
        kept,
    ) by {
        let source = if earlier < at {
            earlier
        } else {
            earlier + 1
        };
        assert(!before.target_is(source, kept));
        lemma_shifted(before, after, at, source, kept);
    }
    after.lemma_first_target(kept, now);
}

/// Where a Target is after another was removed.
proof fn lemma_shifted(
    before: BrowserCoreRecord,
    after: BrowserCoreRecord,
    at: int,
    held: int,
    name: Seq<char>,
)
    requires
        0 <= at < before.targets@.len(),
        0 <= held < before.targets@.len(),
        held != at,
        after.targets@ == before.targets@.remove(at),
    ensures
        after.targets@[shifted(at, held)] == before.targets@[held],
        after.target_is(shifted(at, held), name) == before.target_is(held, name),
{
    assert(after.targets@[shifted(at, held)] == before.targets@[held]);
}

/// The handle of a Target of another name is known after one was removed.
proof fn lemma_removed_handle(
    before: BrowserCoreRecord,
    after: BrowserCoreRecord,
    id: Seq<char>,
    name: Seq<char>,
    at: int,
    slot: BrowserTargetSlotProjection,
)
    requires
        core_lost(before, after, id, name, at),
        slot.handle.target_id@ != name,
        before.target_handle_current(slot.handle),
    ensures
        after.target_handle_current(slot.handle),
{
    reveal(core_lost);
    let held = choose|held: int|
        0 <= held < before.targets@.len() && (#[trigger] before.targets@[held]).handle.same(
            &slot.handle,
        );
    assert(held != at);
    assert(after.targets@[shifted(at, held)] == before.targets@[held]);
    assert(after.targets@[shifted(at, held)].handle.same(&slot.handle));
}

/// A slot of a Target of another name agrees after one was removed.
proof fn lemma_removed_slot(
    before: BrowserCoreRecord,
    after: BrowserCoreRecord,
    id: Seq<char>,
    name: Seq<char>,
    at: int,
    owner: Seq<char>,
    slot: BrowserTargetSlotProjection,
)
    requires
        core_lost(before, after, id, name, at),
        slot.handle.target_id@ != name,
        slot_agrees(before, owner, slot),
    ensures
        slot_agrees(after, owner, slot),
{
    lemma_slot_facts(before, owner, slot);
    lemma_removed_lookup(before, after, id, name, at, slot.handle.target_id@);
    lemma_removed_handle(before, after, id, name, at, slot);
    lemma_slot_alike(before, after, owner, slot);
}

/// How many Targets contexts have after one was removed.
proof fn lemma_removed_count(
    before: BrowserCoreRecord,
    after: BrowserCoreRecord,
    owner: Seq<char>,
    at: int,
    count: nat,
)
    requires
        0 <= at < before.targets@.len(),
        after.targets@ == before.targets@.remove(at),
        at <= count <= after.targets@.len(),
    ensures
        after.targets_of(owner, count) + (if before.targets@[at].browser_context_id@ == owner {
            1nat
        } else {
            0nat
        }) == before.targets_of(owner, count + 1),
    decreases count,
{
    if count == at {
        assert forall|place: int| 0 <= place < count implies #[trigger] before.targets@[place]
            == after.targets@[place] by {}
        lemma_same_counts(before, after, owner, count);
    } else {
        lemma_removed_count(before, after, owner, at, (count - 1) as nat);
        assert(after.targets@[count - 1] == before.targets@[count as int]);
    }
}

/// The Targets of one context are among all.
proof fn lemma_names_part(contexts: Seq<ContextModel>, at: int)
    requires
        0 <= at < contexts.len(),
        all_names(contexts).no_duplicates(),
    ensures
        slot_names(contexts[at].slots()).no_duplicates(),
    decreases contexts.len(),
{
    let first = slot_names(contexts[0].slots());
    let rest = all_names(contexts.skip(1));
    if at == 0 {
        lemma_repeats_stay(first, rest);
    } else {
        assert forall|left: int, right: int|
            0 <= left < rest.len() && 0 <= right < rest.len() && left != right implies rest[left]
            != rest[right] by {
            assert((first + rest)[first.len() + left] == rest[left]);
            assert((first + rest)[first.len() + right] == rest[right]);
        }
        assert(contexts.skip(1)[at - 1] == contexts[at]);
        lemma_names_part(contexts.skip(1), at - 1);
    }
}

/// Without one slot no Target is in two slots either.
proof fn lemma_names_after_remove(
    contexts: Seq<ContextModel>,
    at: int,
    changed: ContextModel,
    place: int,
)
    requires
        0 <= at < contexts.len(),
        0 <= place < contexts[at].slots().len(),
        all_names(contexts).no_duplicates(),
        changed.slots() == contexts[at].slots().remove(place),
    ensures
        all_names(contexts.update(at, changed)).no_duplicates(),
        all_names(contexts.update(at, changed)).len() + 1 == all_names(contexts).len(),
{
    broadcast use vstd::seq_lib::group_to_multiset_ensures;

    let earlier = slot_names(contexts[at].slots());
    let names = all_names(contexts);
    let now = all_names(contexts.update(at, changed));
    assert(slot_names(changed.slots()) =~= earlier.remove(place));
    lemma_names_update(contexts, at, changed);
    assert forall|other: Seq<char>| #[trigger]
        now.to_multiset().count(other) <= names.to_multiset().count(other) by {
        assert(now.to_multiset().add(earlier.to_multiset()).count(other)
            == names.to_multiset().add(earlier.remove(place).to_multiset()).count(other));
        assert(earlier.remove(place).to_multiset() =~= earlier.to_multiset().remove(
            earlier[place],
        ));
    }
    lemma_no_repeats(names, now);
}

/// A context agrees after one of its Targets was removed, and so do others.
proof fn lemma_context_after_remove(
    before: BrowserCoreRecord,
    after: BrowserCoreRecord,
    id: Seq<char>,
    name: Seq<char>,
    at: int,
    context: ContextModel,
    changed: ContextModel,
)
    requires
        core_lost(before, after, id, name, at),
        context_agrees(before, context),
        changed.id == context.id,
        after.active_target(context.id@) == changed.active_id(),
        changed.slots().len() + (if context.id@ == id {
            1nat
        } else {
            0nat
        }) == context.slots().len(),
        forall|place: int|
            0 <= place < changed.slots().len() ==> context.slots().contains(
                #[trigger] changed.slots()[place],
            ) && changed.slots()[place].handle.target_id@ != name,
    ensures
        context_agrees(after, changed),
{
    reveal(core_lost);
    lemma_removed_count(before, after, context.id@, at, after.targets@.len());
    lemma_slots_after_remove(before, after, id, name, at, context, changed);
}

/// The slots that are left agree after a Target was removed.
proof fn lemma_slots_after_remove(
    before: BrowserCoreRecord,
    after: BrowserCoreRecord,
    id: Seq<char>,
    name: Seq<char>,
    at: int,
    context: ContextModel,
    changed: ContextModel,
)
    requires
        core_lost(before, after, id, name, at),
        context_agrees(before, context),
        changed.id == context.id,
        forall|place: int|
            0 <= place < changed.slots().len() ==> context.slots().contains(
                #[trigger] changed.slots()[place],
            ) && changed.slots()[place].handle.target_id@ != name,
    ensures
        forall|place: int|
            0 <= place < changed.slots().len() ==> slot_agrees(
                after,
                changed.id@,
                #[trigger] changed.slots()[place],
            ),
{
    assert forall|place: int| 0 <= place < changed.slots().len() implies slot_agrees(
        after,
        changed.id@,
        #[trigger] changed.slots()[place],
    ) by {
        let slot = changed.slots()[place];
        let from = choose|from: int|
            0 <= from < context.slots().len() && context.slots()[from] == slot;
        assert(slot_agrees(before, context.id@, context.slots()[from]));
        lemma_removed_slot(before, after, id, name, at, context.id@, slot);
    }
}

/// Where the slots agree with Browser Core's Targets, they still do after a
/// Target behind was taken back, as long as Core removes exactly that Target and
/// keeps its active ones.
pub proof fn law_rollback_keeps_agreement(
    model: ConnectionModel,
    id: Seq<char>,
    target: Seq<char>,
    answer: Result<CoreCommit<Option<u64>>, BrowserTargetRegistryError>,
    removed: int,
)
    requires
        targets::rollback(model, id, target, answer).result is Ok,
        laws::distinct_ids(model.contexts()),
        model.inactive.len() <= usize::MAX,
        core_removed(model.core, answer->Ok_0.core, id, target, removed),
    ensures
        targets::rollback(model, id, target, answer).model.target_topology_refusal() is None,
{
    law_target_agreement(model);
    let core = answer->Ok_0.core;
    let context = model.context_at(model.place_of(id)->Some_0);
    let index = context.background_index(target)->Some_0 as int;
    let changed = ContextModel { background: context.background.remove(index), ..context };
    let committed = ConnectionModel { core, ..model };
    assert(committed.place_of(id) == model.place_of(id));
    let at = lemma_place(committed, id, changed);
    assert(committed.contexts() == model.contexts());
    let place = lemma_slot_gone(context, target);
    lemma_agree_after_remove(
        model.core,
        core,
        target,
        removed,
        model.contexts(),
        at,
        changed,
        place,
    );
    law_target_agreement(targets::rollback(model, id, target, answer).model);
}

/// The slots of a context without one of its Targets behind.
pub proof fn lemma_slot_gone(context: ContextModel, target: Seq<char>) -> (place: int)
    requires
        context.background_index(target) is Some,
    ensures
        0 <= place < context.slots().len(),
        context.slots()[place].handle.target_id@ == target,
        (ContextModel {
            background: context.background.remove(context.background_index(target)->Some_0 as int),
            ..context
        }).slots() == context.slots().remove(place),
{
    context.lemma_background_from(target, 0);
    let index = context.background_index(target)->Some_0 as int;
    let changed = ContextModel { background: context.background.remove(index), ..context };
    let place = if context.active.handle is Some {
        index + 1
    } else {
        index
    };
    assert(changed.slots() =~= context.slots().remove(place));
    place
}

/// The slots of all contexts agree after a Target of one was removed.
pub proof fn lemma_agree_after_remove(
    before: BrowserCoreRecord,
    after: BrowserCoreRecord,
    name: Seq<char>,
    removed: int,
    contexts: Seq<ContextModel>,
    at: int,
    changed: ContextModel,
    place: int,
)
    requires
        0 <= at < contexts.len(),
        laws::distinct_ids(contexts),
        targets_agree(before, contexts),
        core_lost(before, after, contexts[at].id@, name, removed),
        others_keep_active(before, after, contexts[at].id@),
        after.active_target(contexts[at].id@) == changed.active_id(),
        changed.id == contexts[at].id,
        0 <= place < contexts[at].slots().len(),
        contexts[at].slots()[place].handle.target_id@ == name,
        changed.slots() == contexts[at].slots().remove(place),
    ensures
        targets_agree(after, contexts.update(at, changed)),
{
    let id = contexts[at].id@;
    let context = contexts[at];
    assert(context_agrees(before, contexts[at]));
    lemma_lost_facts(before, after, id, name, removed);
    lemma_names_part(contexts, at);
    lemma_others_named_otherwise(context.slots(), place);
    lemma_context_after_remove(before, after, id, name, removed, context, changed);
    let now = contexts.update(at, changed);
    assert forall|other: int| 0 <= other < now.len() implies context_agrees(
        after,
        #[trigger] now[other],
    ) by {
        if other != at {
            let kept = contexts[other];
            assert(context_agrees(before, contexts[other]));
            if at < other {
                assert(contexts[at].id@ != contexts[other].id@);
            } else {
                assert(contexts[other].id@ != contexts[at].id@);
            }
            lemma_only_owner(before, after, id, name, removed, kept);
            lemma_context_after_remove(before, after, id, name, removed, kept, kept);
        }
    }
    lemma_names_after_remove(contexts, at, changed, place);
}

/// Where no name occurs twice, the slots but one have other names than that one.
proof fn lemma_others_named_otherwise(slots: Seq<BrowserTargetSlotProjection>, place: int)
    requires
        0 <= place < slots.len(),
        slot_names(slots).no_duplicates(),
    ensures
        forall|other: int|
            0 <= other < slots.len() - 1 ==> slots.contains(
                #[trigger] slots.remove(place)[other],
            ) && slots.remove(place)[other].handle.target_id@ != slots[place].handle.target_id@,
{
    let names = slot_names(slots);
    let left = slots.remove(place);
    assert forall|other: int| 0 <= other < slots.len() - 1 implies slots.contains(
        #[trigger] left[other],
    ) && left[other].handle.target_id@ != slots[place].handle.target_id@ by {
        let source = if other < place {
            other
        } else {
            other + 1
        };
        assert(left[other] == slots[source]);
        assert(names[source] != names[place]);
    }
}

/// A context that agrees holds no Target of another context.
proof fn lemma_only_owner(
    before: BrowserCoreRecord,
    after: BrowserCoreRecord,
    id: Seq<char>,
    name: Seq<char>,
    at: int,
    context: ContextModel,
)
    requires
        core_lost(before, after, id, name, at),
        context_agrees(before, context),
        context.id@ != id,
    ensures
        forall|place: int|
            0 <= place < context.slots().len() ==> context.slots().contains(
                #[trigger] context.slots()[place],
            ) && context.slots()[place].handle.target_id@ != name,
{
    reveal(core_lost);
    assert forall|earlier: int| 0 <= earlier < at implies !#[trigger] before.target_is(
        earlier,
        name,
    ) by {}
    before.lemma_first_target(name, at);
    assert forall|place: int| 0 <= place < context.slots().len() implies context.slots().contains(
        #[trigger] context.slots()[place],
    ) && context.slots()[place].handle.target_id@ != name by {
        assert(slot_agrees(before, context.id@, context.slots()[place]));
        lemma_slot_facts(before, context.id@, context.slots()[place]);
    }
}

} // verus!
