//! The Targets in the slots, held against Browser Core's, and changes of them.
use vstd::prelude::*;

use crate::connection::contexts::{Changed, CoreCommit};
use crate::connection::core_record::{BrowserCoreRecord, BrowserTargetHandle};
use crate::connection::errors::{BrowserTargetRegistryError, TargetProjectionError, TargetRefusal};
use crate::connection::slots::{
    ActiveTarget, BackgroundTarget, BrowserContext, BrowserTargetSlotProjection,
    BrowserTargetTopologyProjection, ContextModel, TargetRuntimeSlot,
};
use crate::connection::state;
use crate::connection::state::{CdpConnection, ConnectionModel};
use crate::facts::model;
use crate::facts::model::FactClaim;
use crate::facts::projector::BrowserTargetCreatedFactProjection;
use crate::facts::types::{BrowserFactEnvelope, PageResidenceIdentity};
use crate::text::{copy_opt_text, same_opt_text, same_text};

verus! {

/// Why a slot does not agree with Browser Core: its Target is another
/// context's, another instance, or keeps its Page in another place.
pub open spec fn slot_refusal(
    core: BrowserCoreRecord,
    id: Seq<char>,
    slot: BrowserTargetSlotProjection,
) -> Option<TargetRefusal> {
    let target = slot.handle.target_id@;
    if core.target_context(target) != Some(id) {
        Some(
            TargetRefusal::PhysicalTargetContextMismatch {
                target_id: target,
                authoritative: core.target_context(target),
                projected: id,
            },
        )
    } else if !core.target_handle_current(slot.handle) {
        Some(
            TargetRefusal::PhysicalTargetHandleMismatch {
                browser_context_id: id,
                target_id: target,
            },
        )
    } else if !core.page_current(id, target, slot.page_instance) {
        Some(
            TargetRefusal::PhysicalPageResidenceMismatch {
                browser_context_id: id,
                target_id: target,
            },
        )
    } else {
        None
    }
}

/// Why the slots from `from` on do not agree with Browser Core, where the
/// Targets `seen` were met before.
pub open spec fn slots_refusal_from(
    core: BrowserCoreRecord,
    id: Seq<char>,
    slots: Seq<BrowserTargetSlotProjection>,
    from: nat,
    seen: Seq<Seq<char>>,
) -> Option<TargetRefusal>
    decreases slots.len() - from,
{
    if from >= slots.len() {
        None
    } else {
        let target = slots[from as int].handle.target_id@;
        match slot_refusal(core, id, slots[from as int]) {
            Some(refusal) => Some(refusal),
            None => if seen.contains(target) {
                Some(TargetRefusal::DuplicatePhysicalTarget(target))
            } else {
                slots_refusal_from(core, id, slots, from + 1, seen.push(target))
            },
        }
    }
}

/// The Targets met once the slots from `from` on were met too.
pub open spec fn seen_after(
    slots: Seq<BrowserTargetSlotProjection>,
    from: nat,
    seen: Seq<Seq<char>>,
) -> Seq<Seq<char>>
    decreases slots.len() - from,
{
    if from >= slots.len() {
        seen
    } else {
        seen_after(slots, from + 1, seen.push(slots[from as int].handle.target_id@))
    }
}

/// Why a context's slots do not agree with Browser Core.
pub open spec fn context_target_refusal(
    core: BrowserCoreRecord,
    context: ContextModel,
    seen: Seq<Seq<char>>,
) -> Option<TargetRefusal> {
    let id = context.id@;
    if core.active_target(id) != context.active_id() {
        Some(
            TargetRefusal::PhysicalActiveTargetMismatch {
                browser_context_id: id,
                authoritative: core.active_target(id),
                projected: context.active_id(),
            },
        )
    } else if core.context_target_count(id) != context.slots().len() {
        Some(
            TargetRefusal::PhysicalContextTargetCountMismatch {
                browser_context_id: id,
                authoritative: core.context_target_count(id) as usize,
                projected: context.slots().len() as usize,
            },
        )
    } else {
        slots_refusal_from(core, id, context.slots(), 0, seen)
    }
}

/// Why the slots of the contexts from `from` on do not agree with Browser
/// Core.
pub open spec fn target_refusal_from(
    core: BrowserCoreRecord,
    contexts: Seq<ContextModel>,
    from: nat,
    seen: Seq<Seq<char>>,
) -> Option<TargetRefusal>
    decreases contexts.len() - from,
{
    if from >= contexts.len() {
        if core.targets@.len() != seen.len() {
            Some(
                TargetRefusal::PhysicalTargetCountMismatch {
                    authoritative: core.targets@.len() as usize,
                    projected: seen.len() as usize,
                },
            )
        } else {
            None
        }
    } else {
        match context_target_refusal(core, contexts[from as int], seen) {
            Some(refusal) => Some(refusal),
            None => target_refusal_from(
                core,
                contexts,
                from + 1,
                seen_after(contexts[from as int].slots(), 0, seen),
            ),
        }
    }
}

/// The characters of a list of names.
pub open spec fn names(list: Seq<String>) -> Seq<Seq<char>> {
    Seq::new(list.len(), |index: int| list[index]@)
}

/// Whether a name is on a list.
fn is_listed(list: &Vec<String>, name: &str) -> (listed: bool)
    ensures
        listed == names(list@).contains(name@),
{
    let mut index: usize = 0;
    while index < list.len()
        invariant
            index <= list@.len(),
            forall|earlier: int| 0 <= earlier < index ==> (#[trigger] names(list@)[earlier]) != name@,
        decreases list@.len() - index,
    {
        assert(names(list@)[index as int] == list@[index as int]@);
        if same_text(list[index].as_str(), name) {
            return true;
        }
        index = index + 1;
    }
    false
}

/// Where a context is.
#[derive(Clone, Copy, Debug, PartialEq, Eq, Structural)]
pub enum PhysicalBrowserContextSlot {
    Selected,
    Inactive(usize),
}

/// A context taken out of its place while its Targets change.
pub struct StagedPhysicalBrowserContext {
    pub slot: PhysicalBrowserContextSlot,
    pub browser_context: BrowserContext,
}

impl ConnectionModel {
    /// Why the slots and Browser Core's Targets do not agree, if they do not.
    pub open spec fn target_topology_refusal(self) -> Option<TargetRefusal> {
        target_refusal_from(self.core, self.contexts(), 0, Seq::empty())
    }

    /// Where the context called `id` is.
    pub open spec fn place_of(self, id: Seq<char>) -> Option<PhysicalBrowserContextSlot> {
        if self.selected_id() == Some(id) {
            Some(PhysicalBrowserContextSlot::Selected)
        } else {
            match state::find_context(self.inactive, id, 0) {
                Some(index) => Some(PhysicalBrowserContextSlot::Inactive(index as usize)),
                None => None,
            }
        }
    }

    /// The context at a place.
    pub open spec fn context_at(self, place: PhysicalBrowserContextSlot) -> ContextModel {
        match place {
            PhysicalBrowserContextSlot::Selected => self.selected->Some_0,
            PhysicalBrowserContextSlot::Inactive(index) => self.inactive[index as int],
        }
    }

    /// The connection with the context at a place taken out.
    pub open spec fn without_context(self, place: PhysicalBrowserContextSlot) -> ConnectionModel {
        match place {
            PhysicalBrowserContextSlot::Selected => ConnectionModel { selected: None, ..self },
            PhysicalBrowserContextSlot::Inactive(index) => ConnectionModel {
                inactive: self.inactive.remove(index as int),
                ..self
            },
        }
    }

    /// The connection with a context put back. A context that took the
    /// selected place meanwhile goes last among the others.
    pub open spec fn with_context(
        self,
        place: PhysicalBrowserContextSlot,
        context: ContextModel,
    ) -> ConnectionModel {
        match place {
            PhysicalBrowserContextSlot::Selected => ConnectionModel {
                selected: Some(context),
                inactive: match self.selected {
                    Some(displaced) => self.inactive.push(displaced),
                    None => self.inactive,
                },
                ..self
            },
            PhysicalBrowserContextSlot::Inactive(index) => ConnectionModel {
                inactive: self.inactive.insert(
                    if index <= self.inactive.len() {
                        index as int
                    } else {
                        self.inactive.len() as int
                    },
                    context,
                ),
                ..self
            },
        }
    }

    /// The connection with the context at a place changed.
    pub open spec fn changing_context(
        self,
        place: PhysicalBrowserContextSlot,
        context: ContextModel,
    ) -> ConnectionModel {
        self.without_context(place).with_context(place, context)
    }
}

/// What came of registering a Target.
pub struct BrowserTargetRegistration {
    pub handle: BrowserTargetHandle,
    pub page: PageResidenceIdentity,
    pub session_storage: u64,
}

impl BrowserTargetRegistration {
    /// The slot of a Target once Browser Core registered it.
    pub open spec fn bound_slot(&self, slot: TargetRuntimeSlot) -> TargetRuntimeSlot {
        TargetRuntimeSlot {
            page_instance: self.page.residence.instance,
            session_storage: self.session_storage,
            ..slot
        }
    }
}

/// A Target that was registered, with its creation where it could be claimed.
pub struct ProjectedTargetRegistration {
    pub browser_fact: Option<BrowserTargetCreatedFactProjection>,
}

impl ProjectedTargetRegistration {
    pub fn into_browser_fact(self) -> (fact: Option<BrowserTargetCreatedFactProjection>)
        ensures
            fact == self.browser_fact,
    {
        self.browser_fact
    }

    /// The claimed creation.
    pub open spec fn envelope(&self) -> Option<BrowserFactEnvelope> {
        match self.browser_fact {
            Some(fact) => Some(fact.envelope),
            None => None,
        }
    }
}

/// A Target that came to the front.
#[derive(Clone, Copy, Debug, PartialEq, Eq, Structural)]
pub struct ProjectedTargetActivation {
    /// Whether the Page that it shows has to be brought up to date.
    pub synchronize_loaded_page: bool,
}

impl ProjectedTargetActivation {
    pub fn synchronize_loaded_page(&self) -> (synchronize: bool)
        ensures
            synchronize == self.synchronize_loaded_page,
    {
        self.synchronize_loaded_page
    }
}

/// The connection once a registered Target's creation was claimed, and the
/// creation where it could be.
pub open spec fn claim_registration(model: ConnectionModel, page: PageResidenceIdentity) -> Changed<
    Option<BrowserFactEnvelope>,
    TargetRefusal,
> {
    let claimed = model::claim_fact(model.facts, FactClaim::TargetCreated { page });
    Changed {
        model: ConnectionModel { facts: claimed.model, ..model },
        result: Ok(
            match claimed.result {
                Ok(envelope) => Some(envelope),
                Err(_) => None,
            },
        ),
    }
}

/// Why no Target can be registered behind in a context.
pub open spec fn background_refusal(model: ConnectionModel, id: Seq<char>) -> Option<
    TargetRefusal,
> {
    match model.target_topology_refusal() {
        Some(refusal) => Some(refusal),
        None => if model.place_of(id) is None {
            Some(TargetRefusal::PhysicalBrowserContextMissing(id))
        } else {
            None
        },
    }
}

/// Registers a Target behind, given what Browser Core answered.
pub open spec fn register_background(
    model: ConnectionModel,
    id: Seq<char>,
    target: BackgroundTarget,
    answer: Result<CoreCommit<BrowserTargetRegistration>, BrowserTargetRegistryError>,
) -> Changed<Option<BrowserFactEnvelope>, TargetRefusal> {
    match background_refusal(model, id) {
        Some(refusal) => Changed { model, result: Err(refusal) },
        None => match answer {
            Err(error) => Changed { model, result: Err(TargetRefusal::Core(error@)) },
            Ok(commit) => {
                let place = model.place_of(id)->Some_0;
                let context = model.context_at(place);
                let behind = BackgroundTarget {
                    handle: commit.outcome.handle,
                    slot: commit.outcome.bound_slot(target.slot),
                    ..target
                };
                let projected = ConnectionModel { core: commit.core, ..model }.changing_context(
                    place,
                    ContextModel { background: context.background.push(behind), ..context },
                );
                claim_registration(projected, commit.outcome.page)
            },
        },
    }
}

/// Why the Target in front cannot change.
pub open spec fn front_refusal(model: ConnectionModel) -> Option<TargetRefusal> {
    match model.target_topology_refusal() {
        Some(refusal) => Some(refusal),
        None => if model.selected is None {
            Some(TargetRefusal::PhysicalBrowserContextMissing("<selected>"@))
        } else {
            None
        },
    }
}

/// Registers a Target in front of the selected context, given what Browser
/// Core answered.
pub open spec fn register_front(
    model: ConnectionModel,
    answer: Result<CoreCommit<BrowserTargetRegistration>, BrowserTargetRegistryError>,
) -> Changed<Option<BrowserFactEnvelope>, TargetRefusal> {
    match front_refusal(model) {
        Some(refusal) => Changed { model, result: Err(refusal) },
        None => match answer {
            Err(error) => Changed { model, result: Err(TargetRefusal::Core(error@)) },
            Ok(commit) => {
                let context = model.selected->Some_0;
                let front = ActiveTarget {
                    handle: Some(commit.outcome.handle),
                    slot: commit.outcome.bound_slot(context.active.slot),
                    ..context.active
                };
                let projected = ConnectionModel {
                    core: commit.core,
                    selected: Some(ContextModel { active: front, ..context }),
                    ..model
                };
                claim_registration(projected, commit.outcome.page)
            },
        },
    }
}

/// Why a Target cannot come to the front.
pub open spec fn target_activation_refusal(model: ConnectionModel, target: Seq<char>) -> Option<
    TargetRefusal,
> {
    match front_refusal(model) {
        Some(refusal) => Some(refusal),
        None => {
            let context = model.selected->Some_0;
            if context.has_target(target) {
                None
            } else {
                Some(
                    TargetRefusal::PhysicalTargetMissing {
                        browser_context_id: context.id@,
                        target_id: target,
                    },
                )
            }
        },
    }
}

/// The context with the Target at `index` behind brought to the front. The one
/// that was in front goes last behind.
pub open spec fn brought_to_front(context: ContextModel, index: int) -> ContextModel {
    let candidate = context.background[index];
    let rest = context.background.remove(index);
    ContextModel {
        active: ActiveTarget {
            handle: Some(candidate.handle),
            session_id: candidate.session_id,
            slot: candidate.slot,
        },
        background: match context.active.handle {
            Some(handle) => rest.push(
                BackgroundTarget {
                    handle,
                    session_id: context.active.session_id,
                    slot: context.active.slot,
                    promotable: true,
                },
            ),
            None => rest,
        },
        ..context
    }
}

/// Brings a Target of the selected context to the front, given what Browser
/// Core answered: whether its active Target changed, or why it refused.
pub open spec fn activate_target(
    model: ConnectionModel,
    target: Seq<char>,
    answer: Result<CoreCommit<bool>, BrowserTargetRegistryError>,
) -> Changed<ProjectedTargetActivation, TargetRefusal> {
    match target_activation_refusal(model, target) {
        Some(refusal) => Changed { model, result: Err(refusal) },
        None => match answer {
            Err(error) => Changed { model, result: Err(TargetRefusal::Core(error@)) },
            Ok(commit) => {
                let context = model.selected->Some_0;
                Changed {
                    model: ConnectionModel {
                        core: commit.core,
                        selected: Some(
                            if context.active_id() == Some(target) {
                                context
                            } else {
                                brought_to_front(
                                    context,
                                    context.background_index(target)->Some_0 as int,
                                )
                            },
                        ),
                        ..model
                    },
                    result: Ok(
                        ProjectedTargetActivation {
                            synchronize_loaded_page: commit.outcome && !context.dialog,
                        },
                    ),
                }
            },
        },
    }
}

/// Why a Target behind cannot be taken back.
pub open spec fn rollback_refusal(
    model: ConnectionModel,
    id: Seq<char>,
    target: Seq<char>,
) -> Option<TargetRefusal> {
    match background_refusal(model, id) {
        Some(refusal) => Some(refusal),
        None => if model.context_at(model.place_of(id)->Some_0).background_index(target) is None {
            Some(
                TargetRefusal::PhysicalTargetMissing { browser_context_id: id, target_id: target },
            )
        } else {
            None
        },
    }
}

/// A Target that was taken back, with the owner of its Page.
pub struct RolledBackTarget {
    pub target: BackgroundTarget,
    pub retired_page_owner: Option<u64>,
}

/// Takes back a Target behind, given what Browser Core answered.
pub open spec fn rollback(
    model: ConnectionModel,
    id: Seq<char>,
    target: Seq<char>,
    answer: Result<CoreCommit<Option<u64>>, BrowserTargetRegistryError>,
) -> Changed<RolledBackTarget, TargetRefusal> {
    match rollback_refusal(model, id, target) {
        Some(refusal) => Changed { model, result: Err(refusal) },
        None => match answer {
            Err(error) => Changed { model, result: Err(TargetRefusal::Core(error@)) },
            Ok(commit) => {
                let place = model.place_of(id)->Some_0;
                let context = model.context_at(place);
                let index = context.background_index(target)->Some_0 as int;
                Changed {
                    model: ConnectionModel { core: commit.core, ..model }.changing_context(
                        place,
                        ContextModel { background: context.background.remove(index), ..context },
                    ),
                    result: Ok(
                        RolledBackTarget {
                            target: context.background[index],
                            retired_page_owner: commit.outcome,
                        },
                    ),
                }
            },
        },
    }
}

impl CdpConnection {
    fn validate_physical_target_projection(
        &self,
        browser_context_id: &str,
        slot: &BrowserTargetSlotProjection,
    ) -> (valid: Result<(), TargetProjectionError>)
        ensures
            match valid {
                Ok(()) => slot_refusal(self@.core, browser_context_id@, *slot) is None,
                Err(error) => slot_refusal(self@.core, browser_context_id@, *slot) == Some(error@),
            },
    {
        let target_id = slot.handle.target_id.as_str();
        let authoritative = self.core.target_browser_context_id(target_id);
        if !same_opt_text(authoritative, Some(browser_context_id)) {
            return Err(
                TargetProjectionError::PhysicalTargetContextMismatch {
                    target_id: target_id.to_owned(),
                    authoritative: copy_opt_text(authoritative),
                    projected: browser_context_id.to_owned(),
                },
            );
        }
        if !self.core.target_handle_is_current(&slot.handle) {
            return Err(
                TargetProjectionError::PhysicalTargetHandleMismatch {
                    browser_context_id: browser_context_id.to_owned(),
                    target_id: target_id.to_owned(),
                },
            );
        }
        if !self.core.page_residence_is_current(browser_context_id, target_id, slot.page_instance) {
            return Err(
                TargetProjectionError::PhysicalPageResidenceMismatch {
                    browser_context_id: browser_context_id.to_owned(),
                    target_id: target_id.to_owned(),
                },
            );
        }
        Ok(())
    }

    /// Holds one context's slots against Browser Core, and notes their Targets
    /// in `seen`.
    fn validate_context_targets(&self, context: &BrowserContext, seen: &mut Vec<String>) -> (valid:
        Result<(), TargetProjectionError>)
        ensures
            match valid {
                Ok(()) => {
                    &&& context_target_refusal(self@.core, context@, names(old(seen)@)) is None
                    &&& names(final(seen)@) == seen_after(
                        context@.slots(),
                        0,
                        names(old(seen)@),
                    )
                },
                Err(error) => context_target_refusal(self@.core, context@, names(old(seen)@))
                    == Some(error@),
            },
    {
        let id = context.id.as_str();
        let authoritative_active = self.core.active_target_id_for_browser_context(id);
        if !same_opt_text(authoritative_active, context.active_target_id()) {
            return Err(
                TargetProjectionError::PhysicalActiveTargetMismatch {
                    browser_context_id: id.to_owned(),
                    authoritative: copy_opt_text(authoritative_active),
                    projected: copy_opt_text(context.active_target_id()),
                },
            );
        }
        let slots = context.target_slots();
        let authoritative: usize = self.core.browser_context_target_count(id);
        if authoritative != slots.len() {
            return Err(
                TargetProjectionError::PhysicalContextTargetCountMismatch {
                    browser_context_id: id.to_owned(),
                    authoritative,
                    projected: slots.len(),
                },
            );
        }
        let mut index: usize = 0;
        while index < slots.len()
            invariant
                index <= slots@.len(),
                slots@ == context@.slots(),
                id@ == context@.id@,
                context_target_refusal(self@.core, context@, names(old(seen)@))
                    == slots_refusal_from(
                    self@.core,
                    context@.id@,
                    context@.slots(),
                    index as nat,
                    names(seen@),
                ),
                seen_after(context@.slots(), 0, names(old(seen)@)) == seen_after(
                    context@.slots(),
                    index as nat,
                    names(seen@),
                ),
            decreases slots@.len() - index,
        {
            match self.validate_physical_target_projection(id, &slots[index]) {
                Ok(()) => {},
                Err(error) => {
                    return Err(error);
                },
            }
            let target_id = slots[index].handle.target_id.as_str();
            if is_listed(seen, target_id) {
                return Err(TargetProjectionError::DuplicatePhysicalTarget(target_id.to_owned()));
            }
            let ghost met = seen@;
            seen.push(target_id.to_owned());
            assert(names(seen@) =~= names(met).push(target_id@));
            index = index + 1;
        }
        Ok(())
    }

    /// Holds the slots against Browser Core's Targets.
    pub fn validate_browser_target_topology_projection(&self) -> (valid: Result<
        (),
        TargetProjectionError,
    >)
        ensures
            match valid {
                Ok(()) => self@.target_topology_refusal() is None,
                Err(error) => self@.target_topology_refusal() == Some(error@),
            },
    {
        let contexts = self.browser_contexts();
        let mut seen: Vec<String> = Vec::new();
        let mut index: usize = 0;
        assert(names(seen@) =~= Seq::<Seq<char>>::empty());
        while index < contexts.len()
            invariant
                index <= contexts@.len(),
                contexts@.len() == self@.contexts().len(),
                forall|at: int|
                    0 <= at < contexts@.len() ==> (#[trigger] contexts@[at])@
                        == self@.contexts()[at],
                self@.target_topology_refusal() == target_refusal_from(
                    self@.core,
                    self@.contexts(),
                    index as nat,
                    names(seen@),
                ),
            decreases contexts@.len() - index,
        {
            let context = contexts[index];
            assert(context@ == self@.contexts()[index as int]);
            match self.validate_context_targets(context, &mut seen) {
                Ok(()) => {},
                Err(error) => {
                    return Err(error);
                },
            }
            index = index + 1;
        }
        let authoritative: usize = self.core.targets.len();
        if authoritative != seen.len() {
            return Err(
                TargetProjectionError::PhysicalTargetCountMismatch {
                    authoritative,
                    projected: seen.len(),
                },
            );
        }
        Ok(())
    }

    /// Takes a context out of its place.
    pub fn take_physical_browser_context_for_target_projection(
        &mut self,
        browser_context_id: &str,
    ) -> (taken: Result<StagedPhysicalBrowserContext, TargetProjectionError>)
        requires
            old(self).wf(),
        ensures
            final(self).wf(),
            match taken {
                Ok(staged) => {
                    &&& old(self)@.place_of(browser_context_id@) == Some(staged.slot)
                    &&& staged.browser_context@ == old(self)@.context_at(staged.slot)
                    &&& staged.browser_context@.id@ == browser_context_id@
                    &&& final(self)@ == old(self)@.without_context(staged.slot)
                    &&& staged.slot matches PhysicalBrowserContextSlot::Inactive(index) ==> index
                        < old(self)@.inactive.len()
                },
                Err(error) => {
                    &&& old(self)@.place_of(browser_context_id@) is None
                    &&& error@ == TargetRefusal::PhysicalBrowserContextMissing(
                        browser_context_id@,
                    )
                    &&& final(self)@ == old(self)@
                },
            },
    {
        if same_opt_text(self.selected_id(), Some(browser_context_id)) {
            match self.browser_context.take() {
                Some(browser_context) => {
                    assert(self@ =~= old(self)@.without_context(
                        PhysicalBrowserContextSlot::Selected,
                    ));
                    return Ok(
                        StagedPhysicalBrowserContext {
                            slot: PhysicalBrowserContextSlot::Selected,
                            browser_context,
                        },
                    );
                },
                None => vstd::pervasive::unreached(),
            }
        }
        match self.inactive_position(browser_context_id) {
            Some(index) => {
                let browser_context = self.inactive_browser_contexts.remove(index);
                assert(self@ =~= old(self)@.without_context(
                    PhysicalBrowserContextSlot::Inactive(index),
                ));
                Ok(
                    StagedPhysicalBrowserContext {
                        slot: PhysicalBrowserContextSlot::Inactive(index),
                        browser_context,
                    },
                )
            },
            None => Err(
                TargetProjectionError::PhysicalBrowserContextMissing(
                    browser_context_id.to_owned(),
                ),
            ),
        }
    }

    /// Puts a context back.
    pub fn restore_physical_browser_context_after_target_projection(
        &mut self,
        staged: StagedPhysicalBrowserContext,
    )
        requires
            old(self).wf(),
        ensures
            final(self).wf(),
            final(self)@ == old(self)@.with_context(staged.slot, staged.browser_context@),
    {
        match staged.slot {
            PhysicalBrowserContextSlot::Selected => {
                let displaced = self.browser_context.take();
                self.browser_context = Some(staged.browser_context);
                if let Some(displaced) = displaced {
                    self.inactive_browser_contexts.push(displaced);
                }
            },
            PhysicalBrowserContextSlot::Inactive(index) => {
                let place: usize = if index <= self.inactive_browser_contexts.len() {
                    index
                } else {
                    self.inactive_browser_contexts.len()
                };
                self.inactive_browser_contexts.insert(place, staged.browser_context);
            },
        }
        assert(self@ =~= old(self)@.with_context(staged.slot, staged.browser_context@));
    }

    /// Claims the creation of a Target that Browser Core registered. A
    /// creation that cannot be claimed does not undo the registration.
    fn claim_target_created_fact_for_registration(&mut self, page: &PageResidenceIdentity) -> (
        registered: ProjectedTargetRegistration)
        requires
            old(self).wf(),
        ensures
            final(self).wf(),
            claim_registration(old(self)@, *page) == (Changed {
                model: final(self)@,
                result: Ok::<Option<BrowserFactEnvelope>, TargetRefusal>(registered.envelope()),
            }),
    {
        let ghost before = self@;
        match self.facts.take_target_created_fact(page) {
            Ok(projection) => {
                assert(self@ =~= claim_registration(before, *page).model);
                ProjectedTargetRegistration { browser_fact: Some(projection) }
            },
            Err(_) => {
                assert(self@ =~= claim_registration(before, *page).model);
                ProjectedTargetRegistration { browser_fact: None }
            },
        }
    }

    /// Checks the slots for a change behind, and says what Browser Core is
    /// told of them.
    pub fn prepare_background_target_change(&self, browser_context_id: &str) -> (prepared: Result<
        BrowserTargetTopologyProjection,
        TargetProjectionError,
    >)
        ensures
            match prepared {
                Ok(topology) => {
                    &&& background_refusal(self@, browser_context_id@) is None
                    &&& ({
                        let context = self@.context_at(
                            self@.place_of(browser_context_id@)->Some_0,
                        );
                        &&& topology.browser_context_id == context.id
                        &&& topology.active == context.active_slot()
                        &&& topology.background@ == context.background_slots()
                    })
                },
                Err(error) => background_refusal(self@, browser_context_id@) == Some(error@),
            },
    {
        match self.validate_browser_target_topology_projection() {
            Ok(()) => {},
            Err(error) => {
                return Err(error);
            },
        }
        if let Some(context) = &self.browser_context {
            if same_text(context.id.as_str(), browser_context_id) {
                return Ok(context.browser_target_topology_projection());
            }
        }
        match self.inactive_position(browser_context_id) {
            Some(index) => {
                assert(self@.inactive[index as int]
                    == self.inactive_browser_contexts@[index as int]@);
                Ok(self.inactive_browser_contexts[index].browser_target_topology_projection())
            },
            None => Err(
                TargetProjectionError::PhysicalBrowserContextMissing(
                    browser_context_id.to_owned(),
                ),
            ),
        }
    }

    /// Registers a Target behind in a context, given what Browser Core
    /// answered. Its slot takes the place and the store that Core keeps for
    /// it.
    pub fn register_background_target_with_creation_metadata_projection(
        &mut self,
        browser_context_id: &str,
        target: BackgroundTarget,
        answer: Result<CoreCommit<BrowserTargetRegistration>, BrowserTargetRegistryError>,
    ) -> (registered: Result<ProjectedTargetRegistration, TargetProjectionError>)
        requires
            old(self).wf(),
        ensures
            final(self).wf(),
            register_background(old(self)@, browser_context_id@, target, answer) == (Changed {
                model: final(self)@,
                result: match registered {
                    Ok(registration) => Ok::<Option<BrowserFactEnvelope>, TargetRefusal>(
                        registration.envelope(),
                    ),
                    Err(error) => Err(error@),
                },
            }),
    {
        let ghost before = self@;
        match self.prepare_background_target_change(browser_context_id) {
            Ok(_) => {},
            Err(error) => {
                return Err(error);
            },
        }
        let commit = match answer {
            Ok(commit) => commit,
            Err(error) => {
                return Err(TargetProjectionError::Core(error));
            },
        };
        let mut staged = match self.take_physical_browser_context_for_target_projection(
            browser_context_id,
        ) {
            Ok(staged) => staged,
            Err(error) => {
                return Err(error);
            },
        };
        self.core = commit.core;
        let registration = commit.outcome;
        let mut behind = target;
        behind.handle = registration.handle;
        behind.slot.page_instance = registration.page.residence.instance;
        behind.slot.session_storage = registration.session_storage;
        staged.browser_context.background_targets.push(behind);
        self.restore_physical_browser_context_after_target_projection(staged);
        proof {
            let place = before.place_of(browser_context_id@)->Some_0;
            let context = before.context_at(place);
            assert(self@ =~= ConnectionModel { core: commit.core, ..before }.changing_context(
                place,
                ContextModel { background: context.background.push(behind), ..context },
            ));
        }
        Ok(self.claim_target_created_fact_for_registration(&registration.page))
    }

    /// Checks the slots for a change in front, and says what Browser Core is
    /// told of them.
    pub fn prepare_active_target_change(&self) -> (prepared: Result<
        BrowserTargetTopologyProjection,
        TargetProjectionError,
    >)
        ensures
            match prepared {
                Ok(topology) => {
                    &&& front_refusal(self@) is None
                    &&& topology.browser_context_id == self@.selected->Some_0.id
                    &&& topology.active == self@.selected->Some_0.active_slot()
                    &&& topology.background@ == self@.selected->Some_0.background_slots()
                },
                Err(error) => front_refusal(self@) == Some(error@),
            },
    {
        match self.validate_browser_target_topology_projection() {
            Ok(()) => {},
            Err(error) => {
                return Err(error);
            },
        }
        match &self.browser_context {
            Some(context) => Ok(context.browser_target_topology_projection()),
            None => Err(
                TargetProjectionError::PhysicalBrowserContextMissing("<selected>".to_owned()),
            ),
        }
    }

    /// Registers a Target in front of the selected context, given what Browser
    /// Core answered.
    pub fn register_active_target_with_creation_metadata_projection(
        &mut self,
        answer: Result<CoreCommit<BrowserTargetRegistration>, BrowserTargetRegistryError>,
    ) -> (registered: Result<ProjectedTargetRegistration, TargetProjectionError>)
        requires
            old(self).wf(),
        ensures
            final(self).wf(),
            register_front(old(self)@, answer) == (Changed {
                model: final(self)@,
                result: match registered {
                    Ok(registration) => Ok::<Option<BrowserFactEnvelope>, TargetRefusal>(
                        registration.envelope(),
                    ),
                    Err(error) => Err(error@),
                },
            }),
    {
        let ghost before = self@;
        match self.prepare_active_target_change() {
            Ok(_) => {},
            Err(error) => {
                return Err(error);
            },
        }
        let commit = match answer {
            Ok(commit) => commit,
            Err(error) => {
                return Err(TargetProjectionError::Core(error));
            },
        };
        let mut context = match self.browser_context.take() {
            Some(context) => context,
            None => vstd::pervasive::unreached(),
        };
        self.core = commit.core;
        let registration = commit.outcome;
        context.active_target.handle = Some(registration.handle);
        context.active_target.slot.page_instance = registration.page.residence.instance;
        context.active_target.slot.session_storage = registration.session_storage;
        self.browser_context = Some(context);
        proof {
            let selected = before.selected->Some_0;
            assert(self@ =~= ConnectionModel {
                core: commit.core,
                selected: Some(
                    ContextModel {
                        active: ActiveTarget {
                            handle: Some(registration.handle),
                            slot: registration.bound_slot(selected.active.slot),
                            ..selected.active
                        },
                        ..selected
                    },
                ),
                ..before
            });
        }
        Ok(self.claim_target_created_fact_for_registration(&registration.page))
    }

    /// Replaces the Target in front of the selected context, given what
    /// Browser Core answered.
    pub fn replace_active_target_with_creation_metadata_projection(
        &mut self,
        answer: Result<CoreCommit<BrowserTargetRegistration>, BrowserTargetRegistryError>,
    ) -> (registered: Result<ProjectedTargetRegistration, TargetProjectionError>)
        requires
            old(self).wf(),
        ensures
            final(self).wf(),
            register_front(old(self)@, answer) == (Changed {
                model: final(self)@,
                result: match registered {
                    Ok(registration) => Ok::<Option<BrowserFactEnvelope>, TargetRefusal>(
                        registration.envelope(),
                    ),
                    Err(error) => Err(error@),
                },
            }),
    {
        self.register_active_target_with_creation_metadata_projection(answer)
    }

    /// Checks the slots for bringing a Target to the front.
    pub fn prepare_target_activation(&self, target_id: &str) -> (prepared: Result<
        BrowserTargetTopologyProjection,
        TargetProjectionError,
    >)
        ensures
            match prepared {
                Ok(topology) => {
                    &&& target_activation_refusal(self@, target_id@) is None
                    &&& topology.browser_context_id == self@.selected->Some_0.id
                    &&& topology.active == self@.selected->Some_0.active_slot()
                    &&& topology.background@ == self@.selected->Some_0.background_slots()
                },
                Err(error) => target_activation_refusal(self@, target_id@) == Some(error@),
            },
    {
        let topology = match self.prepare_active_target_change() {
            Ok(topology) => topology,
            Err(error) => {
                return Err(error);
            },
        };
        match &self.browser_context {
            Some(context) => if context.has_target(target_id) {
                Ok(topology)
            } else {
                Err(
                    TargetProjectionError::PhysicalTargetMissing {
                        browser_context_id: context.id.clone(),
                        target_id: target_id.to_owned(),
                    },
                )
            },
            None => vstd::pervasive::unreached(),
        }
    }

    /// Brings a Target of the selected context to the front, given what
    /// Browser Core answered: whether its active Target changed, or why it
    /// refused.
    pub fn activate_target_projection(
        &mut self,
        target_id: &str,
        answer: Result<CoreCommit<bool>, BrowserTargetRegistryError>,
    ) -> (activated: Result<ProjectedTargetActivation, TargetProjectionError>)
        requires
            old(self).wf(),
        ensures
            final(self).wf(),
            activate_target(old(self)@, target_id@, answer) == (Changed {
                model: final(self)@,
                result: match activated {
                    Ok(activation) => Ok::<ProjectedTargetActivation, TargetRefusal>(activation),
                    Err(error) => Err(error@),
                },
            }),
    {
        let ghost before = self@;
        match self.prepare_target_activation(target_id) {
            Ok(_) => {},
            Err(error) => {
                return Err(error);
            },
        }
        let commit = match answer {
            Ok(commit) => commit,
            Err(error) => {
                return Err(TargetProjectionError::Core(error));
            },
        };
        let mut context = match self.browser_context.take() {
            Some(context) => context,
            None => vstd::pervasive::unreached(),
        };
        let synchronize_loaded_page = commit.outcome && !context.has_pending_javascript_dialog;
        self.core = commit.core;
        if !context.is_active_target(target_id) {
            match context.background_position(target_id) {
                Some(index) => context.bring_to_front(index),
                None => vstd::pervasive::unreached(),
            }
        }
        self.browser_context = Some(context);
        assert(self@ =~= activate_target(before, target_id@, answer).model);
        Ok(ProjectedTargetActivation { synchronize_loaded_page })
    }

    /// Takes back a Target behind, given what Browser Core answered.
    pub fn rollback_staged_background_target_projection(
        &mut self,
        browser_context_id: &str,
        target_id: &str,
        answer: Result<CoreCommit<Option<u64>>, BrowserTargetRegistryError>,
    ) -> (rolled_back: Result<RolledBackTarget, TargetProjectionError>)
        requires
            old(self).wf(),
        ensures
            final(self).wf(),
            rollback(old(self)@, browser_context_id@, target_id@, answer) == (Changed {
                model: final(self)@,
                result: match rolled_back {
                    Ok(target) => Ok::<RolledBackTarget, TargetRefusal>(target),
                    Err(error) => Err(error@),
                },
            }),
    {
        let ghost before = self@;
        match self.prepare_background_target_change(browser_context_id) {
            Ok(_) => {},
            Err(error) => {
                return Err(error);
            },
        }
        let mut staged = match self.take_physical_browser_context_for_target_projection(
            browser_context_id,
        ) {
            Ok(staged) => staged,
            Err(error) => {
                return Err(error);
            },
        };
        let ghost place = staged.slot;
        proof {
            lemma_put_back(before, browser_context_id@);
        }
        let index = match staged.browser_context.background_position(target_id) {
            Some(index) => index,
            None => {
                self.restore_physical_browser_context_after_target_projection(staged);
                return Err(
                    TargetProjectionError::PhysicalTargetMissing {
                        browser_context_id: browser_context_id.to_owned(),
                        target_id: target_id.to_owned(),
                    },
                );
            },
        };
        let commit = match answer {
            Ok(commit) => commit,
            Err(error) => {
                self.restore_physical_browser_context_after_target_projection(staged);
                return Err(TargetProjectionError::Core(error));
            },
        };
        self.core = commit.core;
        let ghost context = staged.browser_context@;
        let target = staged.browser_context.background_targets.remove(index);
        self.restore_physical_browser_context_after_target_projection(staged);
        assert(self@ =~= ConnectionModel { core: commit.core, ..before }.changing_context(
            place,
            ContextModel { background: context.background.remove(index as int), ..context },
        ));
        Ok(RolledBackTarget { target, retired_page_owner: commit.outcome })
    }
}

impl BrowserContext {
    /// Brings the Target at `index` behind to the front.
    pub fn bring_to_front(&mut self, index: usize)
        requires
            index < old(self)@.background.len(),
        ensures
            final(self)@ == brought_to_front(old(self)@, index as int),
    {
        let candidate = self.background_targets.remove(index);
        if self.active_target.handle.is_some() {
            let front = ActiveTarget {
                handle: Some(candidate.handle),
                session_id: candidate.session_id,
                slot: candidate.slot,
            };
            let mut previous = front;
            std::mem::swap(&mut self.active_target, &mut previous);
            if let Some(handle) = previous.handle {
                self.background_targets.push(
                    BackgroundTarget {
                        handle,
                        session_id: previous.session_id,
                        slot: previous.slot,
                        promotable: true,
                    },
                );
            }
        } else {
            self.active_target = ActiveTarget {
                handle: Some(candidate.handle),
                session_id: candidate.session_id,
                slot: candidate.slot,
            };
        }
        assert(self@ =~= brought_to_front(old(self)@, index as int));
    }
}

/// A context that is put back at once is where it was.
pub proof fn lemma_put_back(model: ConnectionModel, id: Seq<char>)
    ensures
        model.place_of(id) matches Some(place) ==> model.changing_context(
            place,
            model.context_at(place),
        ) == model,
{
    state::lemma_find_context(model.inactive, id, 0);
    if let Some(place) = model.place_of(id) {
        assert(model.changing_context(place, model.context_at(place)) =~= model);
    }
}

} // verus!
