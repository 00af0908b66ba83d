//! Changes of the contexts: each is prepared against the slots, committed by
//! Browser Core, and then projected into the slots or refused without a trace.
use vstd::prelude::*;

use crate::connection::core_record::{BrowserContextHandle, BrowserCoreRecord};
use crate::connection::errors::{
    BrowserContextProjectionError, BrowserContextRegistryError, BrowserContextRuntimeRegistryError,
    ContextRefusal, CoreContextRefusal,
};
use crate::connection::slots::{
    BrowserContext, BrowserTargetSlotProjection, BrowserTargetTopologyProjection, ContextModel,
};
use crate::connection::state;
use crate::connection::state::{CdpConnection, ConnectionModel};
use crate::facts::model;
use crate::facts::model::{FactClaim, ProjectorModel};
use crate::facts::types::PageResidenceIdentity;
use crate::text;
use crate::text::{copy_opt_text, same_opt_text, same_text};

verus! {

/// A change that Browser Core committed: what came of it, and the registries
/// as they then stand.
pub struct CoreCommit<T> {
    pub core: BrowserCoreRecord,
    pub outcome: T,
}

/// What Browser Core is asked to activate.
pub struct ContextActivationRequest {
    pub handle: BrowserContextHandle,
    pub selected_browser_context_id: Option<String>,
}

/// A store that Browser Core keeps for a Target.
pub struct SessionStorageAccess {
    pub target_id: String,
    pub store: u64,
}

/// What Browser Core is asked to register.
pub struct ContextRegistrationRequest {
    pub handle: BrowserContextHandle,
    pub topology: BrowserTargetTopologyProjection,
    pub runtime_owner: u64,
    pub selected_browser_context_id: Option<String>,
}

/// What came of a registration.
pub struct ContextRegistration {
    pub selected: bool,
    pub session_storage: Vec<SessionStorageAccess>,
}

/// Browser Core's permit to remove a context.
pub struct BrowserContextRemovalPermit {
    pub was_selected: bool,
    /// The context that is selected next.
    pub successor_browser_context_id: Option<String>,
}

/// What came of a removal.
pub struct ContextRemoval {
    pub retired_page_owners: Vec<u64>,
    pub runtime_owner: u64,
}

/// Browser Core's promise to remove one exact context.
pub struct BrowserContextDisposalReservation {
    pub handle: BrowserContextHandle,
}

/// A context that was removed, and what is left of it.
pub struct ProjectedBrowserContextRemoval {
    pub browser_context: BrowserContext,
    pub selection_changed: bool,
    pub retired_page_owners: Vec<u64>,
    pub runtime_owner: u64,
}

/// A context that was removed, with its lists as sequences.
#[verifier::ext_equal]
pub struct RemovedContext {
    pub context: ContextModel,
    pub selection_changed: bool,
    pub retired_page_owners: Seq<u64>,
    pub runtime_owner: u64,
}

impl View for ProjectedBrowserContextRemoval {
    type V = RemovedContext;

    open spec fn view(&self) -> RemovedContext {
        RemovedContext {
            context: self.browser_context@,
            selection_changed: self.selection_changed,
            retired_page_owners: self.retired_page_owners@,
            runtime_owner: self.runtime_owner,
        }
    }
}

/// A connection after a change, and what was returned.
#[verifier::ext_equal]
pub struct Changed<T, E> {
    pub model: ConnectionModel,
    pub result: Result<T, E>,
}

/// Why a context cannot be activated, before Browser Core is asked.
pub open spec fn activation_refusal(model: ConnectionModel, id: Seq<char>) -> Option<
    ContextRefusal,
> {
    match model.context_topology_refusal() {
        Some(refusal) => Some(refusal),
        None => if !model.core.has_context(id) {
            Some(ContextRefusal::Core(CoreContextRefusal::UnknownBrowserContext(id)))
        } else if model.selected_id() == Some(id) {
            None
        } else if state::find_context(model.inactive, id, 0) is None {
            Some(ContextRefusal::PhysicalContextMissing(id))
        } else if model.selected is None {
            Some(ContextRefusal::PhysicalContextMissing("<selected>"@))
        } else {
            None
        },
    }
}

/// Activates a context, given what Browser Core answered: whether its
/// selection changed, or why it refused. The context takes the selected place
/// and the one that held it goes last among the others.
pub open spec fn activate(
    model: ConnectionModel,
    id: Seq<char>,
    answer: Result<CoreCommit<bool>, BrowserContextRegistryError>,
) -> Changed<bool, ContextRefusal> {
    match activation_refusal(model, id) {
        Some(refusal) => Changed { model, result: Err(refusal) },
        None => match answer {
            Err(error) => Changed { model, result: Err(ContextRefusal::Core(error@)) },
            Ok(commit) => {
                let committed = ConnectionModel { core: commit.core, ..model };
                if model.selected_id() == Some(id) {
                    Changed { model: committed, result: Ok(false) }
                } else if !commit.outcome {
                    Changed {
                        model: committed,
                        result: Err(ContextRefusal::UnexpectedUnchangedActivation(id)),
                    }
                } else {
                    let index = state::find_context(model.inactive, id, 0)->Some_0 as int;
                    Changed {
                        model: ConnectionModel {
                            selected: Some(model.inactive[index]),
                            inactive: model.inactive.remove(index).push(model.selected->Some_0),
                            ..committed
                        },
                        result: Ok(true),
                    }
                }
            },
        },
    }
}

/// Why a context cannot be registered, before Browser Core is asked.
pub open spec fn registration_refusal(model: ConnectionModel, context: ContextModel) -> Option<
    ContextRefusal,
> {
    match model.context_topology_refusal() {
        Some(refusal) => Some(refusal),
        None => if context.runtime_owner is None {
            Some(ContextRefusal::PhysicalRuntimeOwnerMissing(context.id@))
        } else {
            None
        },
    }
}

/// The context once its Targets took over the stores from `from` on.
pub open spec fn with_stores(
    context: ContextModel,
    stores: Seq<SessionStorageAccess>,
    from: nat,
) -> ContextModel
    decreases stores.len() - from,
{
    if from >= stores.len() {
        context
    } else {
        with_stores(
            context.with_store(stores[from as int].target_id@, stores[from as int].store),
            stores,
            from + 1,
        )
    }
}

/// The Page that Browser Core reports for a Target.
pub open spec fn page_identity(
    core: BrowserCoreRecord,
    browser_context_id: String,
    target_id: String,
) -> Option<PageResidenceIdentity> {
    match core.page_of(browser_context_id@, target_id@) {
        Some(residence) => Some(
            PageResidenceIdentity { browser_context_id, target_id: Some(target_id), residence },
        ),
        None => None,
    }
}

/// The cursor once the creations of a context's Targets, from slot `from` on,
/// were claimed.
pub open spec fn claim_creations(
    facts: ProjectorModel,
    core: BrowserCoreRecord,
    id: String,
    slots: Seq<BrowserTargetSlotProjection>,
    from: nat,
) -> ProjectorModel
    decreases slots.len() - from,
{
    if from >= slots.len() {
        facts
    } else {
        let claimed = match page_identity(core, id, slots[from as int].handle.target_id) {
            Some(page) => model::claim_fact(facts, FactClaim::TargetCreated { page }).model,
            None => facts,
        };
        claim_creations(claimed, core, id, slots, from + 1)
    }
}

/// Registers a context, given what Browser Core answered. Core takes over the
/// renderer runtime and the stores. The creations of the context's Targets
/// are claimed at once. The context takes the selected place where Core
/// selected it, and goes last among the others where it did not.
pub open spec fn register(
    model: ConnectionModel,
    context: ContextModel,
    answer: Result<CoreCommit<ContextRegistration>, BrowserContextRuntimeRegistryError>,
) -> Changed<bool, ContextRefusal> {
    match registration_refusal(model, context) {
        Some(refusal) => Changed { model, result: Err(refusal) },
        None => match answer {
            Err(error) => Changed { model, result: Err(runtime_refusal(error)) },
            Ok(commit) => {
                let taken = with_stores(
                    ContextModel { runtime_owner: None, ..context },
                    commit.outcome.session_storage@,
                    0,
                );
                let committed = ConnectionModel {
                    core: commit.core,
                    facts: claim_creations(
                        model.facts,
                        commit.core,
                        context.id,
                        context.slots(),
                        0,
                    ),
                    ..model
                };
                Changed {
                    model: if commit.outcome.selected {
                        ConnectionModel { selected: Some(taken), ..committed }
                    } else {
                        ConnectionModel { inactive: model.inactive.push(taken), ..committed }
                    },
                    result: Ok(commit.outcome.selected),
                }
            },
        },
    }
}

/// What Core's refusal to move a renderer runtime is reported as.
pub open spec fn runtime_refusal(error: BrowserContextRuntimeRegistryError) -> ContextRefusal {
    match error {
        BrowserContextRuntimeRegistryError::Context(error) => ContextRefusal::Core(error@),
        BrowserContextRuntimeRegistryError::Runtime(reason) => ContextRefusal::Runtime(reason@),
    }
}

/// Why a permitted removal cannot be projected.
pub open spec fn removal_refusal(
    model: ConnectionModel,
    id: Seq<char>,
    permit: BrowserContextRemovalPermit,
) -> Option<ContextRefusal> {
    if permit.was_selected {
        if model.selected_id() != Some(id) {
            Some(
                ContextRefusal::PhysicalSelectionMismatch {
                    authoritative: Some(id),
                    projected: model.selected_id(),
                },
            )
        } else {
            match permit.successor_browser_context_id {
                Some(successor) => if state::find_context(
                    model.inactive,
                    successor@,
                    0,
                ) is None {
                    Some(ContextRefusal::PhysicalContextMissing(successor@))
                } else {
                    None
                },
                None => None,
            }
        }
    } else if state::find_context(model.inactive, id, 0) is None {
        Some(ContextRefusal::PhysicalContextMissing(id))
    } else {
        None
    }
}

/// Removes a context as the permit says, given what Browser Core answered.
/// Where it was selected, the successor takes its place.
pub open spec fn remove(
    model: ConnectionModel,
    id: Seq<char>,
    permit: BrowserContextRemovalPermit,
    answer: Result<CoreCommit<ContextRemoval>, BrowserContextRuntimeRegistryError>,
) -> Changed<RemovedContext, ContextRefusal> {
    match removal_refusal(model, id, permit) {
        Some(refusal) => Changed { model, result: Err(refusal) },
        None => match answer {
            Err(error) => Changed { model, result: Err(runtime_refusal(error)) },
            Ok(commit) => {
                let committed = ConnectionModel { core: commit.core, ..model };
                if permit.was_selected {
                    Changed {
                        model: match permit.successor_browser_context_id {
                            Some(successor) => {
                                let index = state::find_context(
                                    model.inactive,
                                    successor@,
                                    0,
                                )->Some_0 as int;
                                ConnectionModel {
                                    selected: Some(model.inactive[index]),
                                    inactive: model.inactive.remove(index),
                                    ..committed
                                }
                            },
                            None => ConnectionModel { selected: None, ..committed },
                        },
                        result: Ok(
                            RemovedContext {
                                context: model.selected->Some_0,
                                selection_changed: true,
                                retired_page_owners: commit.outcome.retired_page_owners@,
                                runtime_owner: commit.outcome.runtime_owner,
                            },
                        ),
                    }
                } else {
                    let index = state::find_context(model.inactive, id, 0)->Some_0 as int;
                    Changed {
                        model: ConnectionModel {
                            inactive: model.inactive.remove(index),
                            ..committed
                        },
                        result: Ok(
                            RemovedContext {
                                context: model.inactive[index],
                                selection_changed: false,
                                retired_page_owners: commit.outcome.retired_page_owners@,
                                runtime_owner: commit.outcome.runtime_owner,
                            },
                        ),
                    }
                }
            },
        },
    }
}

/// Why no removal may be asked for.
pub open spec fn removal_request_refusal(
    model: ConnectionModel,
    id: Seq<char>,
    expected: Option<BrowserContextHandle>,
) -> Option<ContextRefusal> {
    match model.context_topology_refusal() {
        Some(refusal) => Some(refusal),
        None => match model.context(id) {
            None => Some(ContextRefusal::PhysicalContextMissing(id)),
            Some(context) => if expected matches Some(expected) && !context.handle.same(&expected) {
                Some(
                    ContextRefusal::Core(
                        CoreContextRefusal::BrowserContextHandleProjectionMismatch(id),
                    ),
                )
            } else {
                None
            },
        },
    }
}

/// Removes a context, given Browser Core's permit, or its refusal to give one,
/// and its answer to the removal.
pub open spec fn request_removal(
    model: ConnectionModel,
    id: Seq<char>,
    expected: Option<BrowserContextHandle>,
    permit: Result<BrowserContextRemovalPermit, BrowserContextRegistryError>,
    answer: Result<CoreCommit<ContextRemoval>, BrowserContextRuntimeRegistryError>,
) -> Changed<RemovedContext, ContextRefusal> {
    match removal_request_refusal(model, id, expected) {
        Some(refusal) => Changed { model, result: Err(refusal) },
        None => match permit {
            Err(error) => Changed { model, result: Err(ContextRefusal::Core(error@)) },
            Ok(permit) => remove(model, id, permit, answer),
        },
    }
}

impl CdpConnection {
    /// Checks the slots for an activation, and says what Browser Core is asked.
    pub fn prepare_browser_context_activation(&self, browser_context_id: &str) -> (prepared: Result<
        ContextActivationRequest,
        BrowserContextProjectionError,
    >)
        ensures
            match prepared {
                Ok(request) => {
                    &&& activation_refusal(self@, browser_context_id@) is None
                    &&& self@.context(browser_context_id@) matches Some(context)
                        && request.handle == context.handle
                    &&& text::opt_chars(request.selected_browser_context_id)
                        == self@.selected_id()
                },
                Err(error) => activation_refusal(self@, browser_context_id@) == Some(error@),
            },
    {
        match self.validate_browser_context_topology_projection() {
            Ok(()) => {},
            Err(error) => {
                return Err(error);
            },
        }
        if !self.core.has_browser_context(browser_context_id) {
            return Err(
                BrowserContextProjectionError::Core(
                    BrowserContextRegistryError::UnknownBrowserContext(
                        browser_context_id.to_owned(),
                    ),
                ),
            );
        }
        if let Some(context) = &self.browser_context {
            if same_text(context.id.as_str(), browser_context_id) {
                assert(self@.contexts()[0] == context@);
                return Ok(
                    ContextActivationRequest {
                        handle: context.handle.copy(),
                        selected_browser_context_id: copy_opt_text(self.selected_id()),
                    },
                );
            }
        }
        let index = match self.inactive_position(browser_context_id) {
            Some(index) => index,
            None => {
                return Err(
                    BrowserContextProjectionError::PhysicalContextMissing(
                        browser_context_id.to_owned(),
                    ),
                );
            },
        };
        if self.browser_context.is_none() {
            return Err(
                BrowserContextProjectionError::PhysicalContextMissing("<selected>".to_owned()),
            );
        }
        proof {
            lemma_find_after_selected(self@, browser_context_id@);
        }
        Ok(
            ContextActivationRequest {
                handle: self.inactive_browser_contexts[index].handle.copy(),
                selected_browser_context_id: copy_opt_text(self.selected_id()),
            },
        )
    }

    /// Activates a context, given what Browser Core answered to the prepared
    /// request: whether its selection changed, or why it refused.
    pub fn activate_browser_context_projection_by_id(
        &mut self,
        browser_context_id: &str,
        answer: Result<CoreCommit<bool>, BrowserContextRegistryError>,
    ) -> (activated: Result<bool, BrowserContextProjectionError>)
        requires
            old(self).wf(),
        ensures
            final(self).wf(),
            activate(old(self)@, browser_context_id@, answer) == (Changed {
                model: final(self)@,
                result: match activated {
                    Ok(changed) => Ok::<bool, ContextRefusal>(changed),
                    Err(error) => Err(error@),
                },
            }),
    {
        let ghost before = self@;
        match self.prepare_browser_context_activation(browser_context_id) {
            Ok(_) => {},
            Err(error) => {
                return Err(error);
            },
        }
        let commit = match answer {
            Ok(commit) => commit,
            Err(error) => {
                return Err(BrowserContextProjectionError::Core(error));
            },
        };
        let already_selected = same_opt_text(self.selected_id(), Some(browser_context_id));
        self.core = commit.core;
        if already_selected {
            assert(self@ =~= activate(before, browser_context_id@, answer).model);
            return Ok(false);
        }
        if !commit.outcome {
            assert(self@ =~= activate(before, browser_context_id@, answer).model);
            return Err(
                BrowserContextProjectionError::UnexpectedUnchangedActivation(
                    browser_context_id.to_owned(),
                ),
            );
        }
        match (self.inactive_position(browser_context_id), self.browser_context.take()) {
            (Some(index), Some(previous)) => {
                let candidate = self.inactive_browser_contexts.remove(index);
                self.browser_context = Some(candidate);
                self.inactive_browser_contexts.push(previous);
                assert(self@ =~= activate(before, browser_context_id@, answer).model);
                Ok(true)
            },
            _ => vstd::pervasive::unreached(),
        }
    }

    /// Checks the slots for a registration, and says what Browser Core is
    /// asked.
    pub fn prepare_browser_context_registration(&self, browser_context: &BrowserContext) -> (
        prepared: Result<ContextRegistrationRequest, BrowserContextProjectionError>)
        ensures
            match prepared {
                Ok(request) => {
                    &&& registration_refusal(self@, browser_context@) is None
                    &&& request.handle == browser_context@.handle
                    &&& request.topology.browser_context_id == browser_context@.id
                    &&& request.topology.active == browser_context@.active_slot()
                    &&& request.topology.background@ == browser_context@.background_slots()
                    &&& Some(request.runtime_owner) == browser_context@.runtime_owner
                    &&& text::opt_chars(request.selected_browser_context_id)
                        == self@.selected_id()
                },
                Err(error) => registration_refusal(self@, browser_context@) == Some(error@),
            },
    {
        match self.validate_browser_context_topology_projection() {
            Ok(()) => {},
            Err(error) => {
                return Err(error);
            },
        }
        match browser_context.runtime_owner {
            Some(runtime_owner) => Ok(
                ContextRegistrationRequest {
                    handle: browser_context.handle.copy(),
                    topology: browser_context.browser_target_topology_projection(),
                    runtime_owner,
                    selected_browser_context_id: copy_opt_text(self.selected_id()),
                },
            ),
            None => Err(
                BrowserContextProjectionError::PhysicalRuntimeOwnerMissing(
                    browser_context.id.clone(),
                ),
            ),
        }
    }

    /// Registers a context, given what Browser Core answered to the prepared
    /// request.
    pub fn register_browser_context_projection_with_metadata(
        &mut self,
        browser_context: BrowserContext,
        answer: Result<CoreCommit<ContextRegistration>, BrowserContextRuntimeRegistryError>,
    ) -> (registered: Result<bool, BrowserContextProjectionError>)
        requires
            old(self).wf(),
        ensures
            final(self).wf(),
            register(old(self)@, browser_context@, answer) == (Changed {
                model: final(self)@,
                result: match registered {
                    Ok(selected) => Ok::<bool, ContextRefusal>(selected),
                    Err(error) => Err(error@),
                },
            }),
    {
        let ghost before = self@;
        let ghost given = browser_context@;
        match self.prepare_browser_context_registration(&browser_context) {
            Ok(_) => {},
            Err(error) => {
                return Err(error);
            },
        }
        let commit = match answer {
            Ok(commit) => commit,
            Err(error) => {
                return Err(BrowserContextProjectionError::from_runtime(error));
            },
        };
        let mut context = browser_context;
        let slots = context.target_slots();
        context.runtime_owner = None;
        let stores = &commit.outcome.session_storage;
        let mut index: usize = 0;
        while index < stores.len()
            invariant
                index <= stores@.len(),
                with_stores(context@, stores@, index as nat) == with_stores(
                    ContextModel { runtime_owner: None, ..given },
                    stores@,
                    0,
                ),
            decreases stores@.len() - index,
        {
            let _ = context.bind_target_session_storage_access(
                stores[index].target_id.as_str(),
                stores[index].store,
            );
            index = index + 1;
        }
        let selected: bool = commit.outcome.selected;
        self.core = commit.core;
        self.claim_created_facts(&context.id, &slots);
        proof {
            lemma_stores_keep_id(
                ContextModel { runtime_owner: None, ..given },
                stores@,
                0,
            );
        }
        if selected {
            self.browser_context = Some(context);
        } else {
            self.inactive_browser_contexts.push(context);
        }
        assert(self@ =~= register(before, given, answer).model);
        Ok(selected)
    }

    /// Claims the creations of a new context's Targets. A creation that cannot
    /// be claimed does not undo the registration.
    fn claim_created_facts(&mut self, id: &String, slots: &Vec<BrowserTargetSlotProjection>)
        requires
            old(self).wf(),
        ensures
            final(self).wf(),
            final(self)@ == (ConnectionModel {
                facts: claim_creations(
                    old(self)@.facts,
                    old(self)@.core,
                    *id,
                    slots@,
                    0,
                ),
                ..old(self)@
            }),
    {
        let mut index: usize = 0;
        while index < slots.len()
            invariant
                self.wf(),
                index <= slots@.len(),
                self@ == (ConnectionModel { facts: self@.facts, ..old(self)@ }),
                claim_creations(self@.facts, self@.core, *id, slots@, index as nat)
                    == claim_creations(old(self)@.facts, old(self)@.core, *id, slots@, 0),
            decreases slots@.len() - index,
        {
            let target_id = &slots[index].handle.target_id;
            if let Some(page) = self.target_page_identity(id, target_id) {
                let _ = self.facts.take_target_created_fact(&page);
            }
            index = index + 1;
        }
    }

    /// The Page that Browser Core reports for a Target.
    pub fn target_page_identity(&self, browser_context_id: &String, target_id: &String) -> (page:
        Option<PageResidenceIdentity>)
        ensures
            page == page_identity(self@.core, *browser_context_id, *target_id),
    {
        match self.core.capture_page_residence(browser_context_id.as_str(), target_id.as_str()) {
            Some(residence) => Some(
                PageResidenceIdentity {
                    browser_context_id: browser_context_id.clone(),
                    target_id: Some(target_id.clone()),
                    residence,
                },
            ),
            None => None,
        }
    }

    /// Removes a context as the permit says, given what Browser Core answered.
    pub fn remove_browser_context_projection_with_permit(
        &mut self,
        browser_context_id: &str,
        permit: BrowserContextRemovalPermit,
        answer: Result<CoreCommit<ContextRemoval>, BrowserContextRuntimeRegistryError>,
    ) -> (removed: Result<ProjectedBrowserContextRemoval, BrowserContextProjectionError>)
        requires
            old(self).wf(),
        ensures
            final(self).wf(),
            remove(old(self)@, browser_context_id@, permit, answer) == (Changed {
                model: final(self)@,
                result: match removed {
                    Ok(removal) => Ok::<RemovedContext, ContextRefusal>(removal@),
                    Err(error) => Err(error@),
                },
            }),
    {
        let ghost before = self@;
        let moved: Option<usize> = if permit.was_selected {
            if !same_opt_text(self.selected_id(), Some(browser_context_id)) {
                return Err(
                    BrowserContextProjectionError::PhysicalSelectionMismatch {
                        authoritative: Some(browser_context_id.to_owned()),
                        projected: copy_opt_text(self.selected_id()),
                    },
                );
            }
            match &permit.successor_browser_context_id {
                Some(successor) => match self.inactive_position(successor.as_str()) {
                    Some(index) => Some(index),
                    None => {
                        return Err(
                            BrowserContextProjectionError::PhysicalContextMissing(
                                successor.clone(),
                            ),
                        );
                    },
                },
                None => None,
            }
        } else {
            match self.inactive_position(browser_context_id) {
                Some(index) => Some(index),
                None => {
                    return Err(
                        BrowserContextProjectionError::PhysicalContextMissing(
                            browser_context_id.to_owned(),
                        ),
                    );
                },
            }
        };
        let commit = match answer {
            Ok(commit) => commit,
            Err(error) => {
                return Err(BrowserContextProjectionError::from_runtime(error));
            },
        };
        self.core = commit.core;
        let taken = match moved {
            Some(index) => Some(self.inactive_browser_contexts.remove(index)),
            None => None,
        };
        let removed = if permit.was_selected {
            let removed = self.browser_context.take();
            self.browser_context = taken;
            removed
        } else {
            taken
        };
        assert(self@ =~= remove(before, browser_context_id@, permit, answer).model);
        match removed {
            Some(browser_context) => Ok(
                ProjectedBrowserContextRemoval {
                    browser_context,
                    selection_changed: permit.was_selected,
                    retired_page_owners: commit.outcome.retired_page_owners,
                    runtime_owner: commit.outcome.runtime_owner,
                },
            ),
            None => vstd::pervasive::unreached(),
        }
    }

    /// Checks the slots for a removal, and says which instance Browser Core is
    /// asked to permit.
    pub fn prepare_browser_context_removal(
        &self,
        browser_context_id: &str,
        expected: Option<&BrowserContextHandle>,
    ) -> (prepared: Result<BrowserContextHandle, BrowserContextProjectionError>)
        ensures
            ({
                let refusal = removal_request_refusal(
                    self@,
                    browser_context_id@,
                    match expected {
                        Some(expected) => Some(*expected),
                        None => None,
                    },
                );
                match prepared {
                    Ok(handle) => {
                        &&& refusal is None
                        &&& self@.context(browser_context_id@) matches Some(context) && handle
                            == context.handle
                    },
                    Err(error) => refusal == Some(error@),
                }
            }),
    {
        match self.validate_browser_context_topology_projection() {
            Ok(()) => {},
            Err(error) => {
                return Err(error);
            },
        }
        let context = match self.browser_context_by_id(browser_context_id) {
            Some(context) => context,
            None => {
                return Err(
                    BrowserContextProjectionError::PhysicalContextMissing(
                        browser_context_id.to_owned(),
                    ),
                );
            },
        };
        if let Some(expected) = expected {
            if !context.handle.is_same(expected) {
                return Err(
                    BrowserContextProjectionError::Core(
                        BrowserContextRegistryError::BrowserContextHandleProjectionMismatch(
                            browser_context_id.to_owned(),
                        ),
                    ),
                );
            }
        }
        Ok(context.handle.copy())
    }

    /// Removes the context of that name, given Browser Core's permit, or its
    /// refusal to give one, and its answer to the removal.
    pub fn remove_browser_context_projection_by_id(
        &mut self,
        browser_context_id: &str,
        permit: Result<BrowserContextRemovalPermit, BrowserContextRegistryError>,
        answer: Result<CoreCommit<ContextRemoval>, BrowserContextRuntimeRegistryError>,
    ) -> (removed: Result<ProjectedBrowserContextRemoval, BrowserContextProjectionError>)
        requires
            old(self).wf(),
        ensures
            final(self).wf(),
            request_removal(old(self)@, browser_context_id@, None, permit, answer) == (Changed {
                model: final(self)@,
                result: match removed {
                    Ok(removal) => Ok::<RemovedContext, ContextRefusal>(removal@),
                    Err(error) => Err(error@),
                },
            }),
    {
        match self.prepare_browser_context_removal(browser_context_id, None) {
            Ok(_) => {},
            Err(error) => {
                return Err(error);
            },
        }
        match permit {
            Ok(permit) => self.remove_browser_context_projection_with_permit(
                browser_context_id,
                permit,
                answer,
            ),
            Err(error) => Err(BrowserContextProjectionError::Core(error)),
        }
    }

    /// Removes the exact context that Browser Core promised to remove. Which
    /// context is selected next is decided now, not when the promise was made.
    pub fn remove_browser_context_projection_for_disposal(
        &mut self,
        reservation: &BrowserContextDisposalReservation,
        permit: Result<BrowserContextRemovalPermit, BrowserContextRegistryError>,
        answer: Result<CoreCommit<ContextRemoval>, BrowserContextRuntimeRegistryError>,
    ) -> (removed: Result<ProjectedBrowserContextRemoval, BrowserContextProjectionError>)
        requires
            old(self).wf(),
        ensures
            final(self).wf(),
            request_removal(
                old(self)@,
                reservation.handle.browser_context_id@,
                Some(reservation.handle),
                permit,
                answer,
            ) == (Changed {
                model: final(self)@,
                result: match removed {
                    Ok(removal) => Ok::<RemovedContext, ContextRefusal>(removal@),
                    Err(error) => Err(error@),
                },
            }),
    {
        let browser_context_id = reservation.handle.browser_context_id.as_str();
        match self.prepare_browser_context_removal(browser_context_id, Some(&reservation.handle)) {
            Ok(_) => {},
            Err(error) => {
                return Err(error);
            },
        }
        match permit {
            Ok(permit) => self.remove_browser_context_projection_with_permit(
                browser_context_id,
                permit,
                answer,
            ),
            Err(error) => Err(BrowserContextProjectionError::Core(error)),
        }
    }
}

proof fn lemma_find_shifted(first: ContextModel, rest: Seq<ContextModel>, id: Seq<char>, from: nat)
    ensures
        state::find_context(seq![first] + rest, id, from + 1) == (match state::find_context(
            rest,
            id,
            from,
        ) {
            Some(index) => Some(index + 1),
            None => None,
        }),
    decreases rest.len() - from,
{
    if from < rest.len() {
        assert((seq![first] + rest)[(from + 1) as int] == rest[from as int]);
        if rest[from as int].id@ != id {
            lemma_find_shifted(first, rest, id, from + 1);
        }
    }
}

/// A context that is not selected is found among the others.
proof fn lemma_find_after_selected(model: ConnectionModel, id: Seq<char>)
    requires
        model.selected_id() != Some(id),
    ensures
        model.context(id) == (match state::find_context(model.inactive, id, 0) {
            Some(index) => Some(model.inactive[index as int]),
            None => None,
        }),
{
    state::lemma_find_context(model.inactive, id, 0);
    if let Some(selected) = model.selected {
        assert(model.contexts()[0] == selected);
        lemma_find_shifted(selected, model.inactive, id, 0);
    }
}

proof fn lemma_stores_keep_id(
    context: ContextModel,
    stores: Seq<SessionStorageAccess>,
    from: nat,
)
    ensures
        with_stores(context, stores, from).id == context.id,
    decreases stores.len() - from,
{
    if from < stores.len() {
        let stored = context.with_store(stores[from as int].target_id@, stores[from as int].store);
        lemma_stores_keep_id(stored, stores, from + 1);
    }
}

} // verus!
