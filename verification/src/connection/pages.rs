//! Changes of the Page that a Target shows.
use vstd::prelude::*;

use crate::addresses::NavigationUrl;
use crate::connection::contexts::{Changed, CoreCommit};
use crate::connection::errors::{
    PageRefusal, PageResidenceProjectionError, TargetProjectionError, TargetRefusal,
};
use crate::connection::sessions::BrowserPageOwnerKey;
use crate::connection::slots::{
    ActiveTarget, BackgroundTarget, BrowserContext, ContextModel, TargetPageAbsenceReason,
    TargetPlace, TargetRuntimeSlot,
};
use crate::connection::state::{CdpConnection, ConnectionEffect, ConnectionModel, TargetChange};
use crate::connection::targets::PhysicalBrowserContextSlot;
use crate::facts::model;
use crate::facts::model::FactClaim;
use crate::facts::types::{
    BrowserNavigationFailure, DocumentNavigationToken, PageResidenceIdentity,
};
use crate::text;
use crate::text::same_opt_text;

verus! {

/// Browser Core's permit to change a Target's Page.
pub struct BrowserPageResidenceTransitionPermit {
    pub owner: BrowserPageOwnerKey,
    pub previous_page: PageResidenceIdentity,
}

/// What came of installing a first Page.
#[derive(Clone, Copy, Debug, PartialEq, Eq, Structural)]
pub enum InitialDocumentPageInstallResult {
    /// The Target no longer waits for it.
    Stale,
    Installed,
}

/// Where the slot of a permitted change is.
#[derive(Clone, Copy, Debug, PartialEq, Eq, Structural)]
pub struct StagedPhysicalPageResidenceProjection {
    pub context: PhysicalBrowserContextSlot,
    pub target: TargetPlace,
}

impl ContextModel {
    /// Where the slot of a Target is.
    pub open spec fn target_place(self, target: Seq<char>) -> Option<TargetPlace> {
        if self.active_id() == Some(target) {
            Some(TargetPlace::Active)
        } else {
            match self.background_index(target) {
                Some(index) => Some(TargetPlace::Background(index as usize)),
                None => None,
            }
        }
    }

    /// The slot at a place.
    pub open spec fn slot_at(self, place: TargetPlace) -> TargetRuntimeSlot {
        match place {
            TargetPlace::Active => self.active.slot,
            TargetPlace::Background(index) => self.background[index as int].slot,
        }
    }

    /// The context with the slot at a place changed.
    pub open spec fn with_slot(self, place: TargetPlace, slot: TargetRuntimeSlot) -> ContextModel {
        match place {
            TargetPlace::Active => ContextModel {
                active: ActiveTarget { slot, ..self.active },
                ..self
            },
            TargetPlace::Background(index) => ContextModel {
                background: self.background.update(
                    index as int,
                    BackgroundTarget { slot, ..self.background[index as int] },
                ),
                ..self
            },
        }
    }
}

/// What is left to do to one Target.
pub open spec fn target_effects(owner: BrowserPageOwnerKey, changes: Seq<TargetChange>) -> Seq<
    ConnectionEffect,
> {
    Seq::new(
        changes.len(),
        |index: int|
            ConnectionEffect::Target {
                browser_context_id: owner.browser_context_id,
                target_id: owner.target_id,
                change: changes[index],
            },
    )
}

/// Why a permitted change of a Page has no slot to take place in.
pub open spec fn page_refusal(
    model: ConnectionModel,
    permit: BrowserPageResidenceTransitionPermit,
    require_absent_page: bool,
) -> Option<PageRefusal> {
    let id = permit.owner.browser_context_id@;
    let target = permit.owner.target_id@;
    match model.place_of(id) {
        None => Some(
            PageRefusal::TargetTopology(TargetRefusal::PhysicalBrowserContextMissing(id)),
        ),
        Some(place) => match model.context_at(place).target_place(target) {
            None => Some(
                PageRefusal::TargetTopology(
                    TargetRefusal::PhysicalTargetMissing {
                        browser_context_id: id,
                        target_id: target,
                    },
                ),
            ),
            Some(at) => {
                let slot = model.context_at(place).slot_at(at);
                let expected = permit.previous_page.residence;
                if slot.page_instance != expected.instance || model.core.page_of(id, target)
                    != Some(expected) {
                    Some(
                        PageRefusal::PhysicalResidenceMismatch {
                            browser_context_id: id,
                            target_id: target,
                        },
                    )
                } else if require_absent_page && slot.loaded_page is Some {
                    Some(
                        PageRefusal::InitialDocumentPageAlreadyPresent {
                            browser_context_id: id,
                            target_id: target,
                        },
                    )
                } else {
                    None
                }
            },
        },
    }
}

/// The connection with the slot of a Target changed.
pub open spec fn changing_slot(
    model: ConnectionModel,
    owner: BrowserPageOwnerKey,
    change: spec_fn(TargetRuntimeSlot) -> TargetRuntimeSlot,
) -> ConnectionModel {
    let place = model.place_of(owner.browser_context_id@)->Some_0;
    let context = model.context_at(place);
    let at = context.target_place(owner.target_id@)->Some_0;
    model.changing_context(place, context.with_slot(at, change(context.slot_at(at))))
}

/// Where the slot of a Target is, if it is in front.
pub open spec fn is_in_front(model: ConnectionModel, owner: BrowserPageOwnerKey) -> bool {
    let context = model.context_at(model.place_of(owner.browser_context_id@)->Some_0);
    context.target_place(owner.target_id@) == Some(TargetPlace::Active)
}

/// What is left to do once a first Page was installed.
pub open spec fn initial_changes(in_front: bool, loader_id: String) -> Seq<TargetChange> {
    if in_front {
        seq![TargetChange::BindRendererDocumentLifecycle { loader_id }]
    } else {
        seq![
            TargetChange::ClearCommittedNavigationState,
            TargetChange::ClearLoadedDocumentSessions,
            TargetChange::ResetSubresourceCursor,
            TargetChange::ClearWebsocketArtifacts,
            TargetChange::BindRendererDocumentLifecycle { loader_id },
        ]
    }
}

/// What is left to do once a Page gave way to a failed request.
pub open spec fn failure_changes(in_front: bool) -> Seq<TargetChange> {
    if in_front {
        seq![TargetChange::ClearRendererDocumentState, TargetChange::ClearRemoteObjectTracking]
    } else {
        seq![
            TargetChange::ClearCommittedNavigationState,
            TargetChange::ClearLoadedDocumentSessions,
            TargetChange::ClearRendererDocumentState,
            TargetChange::ResetSubresourceCursor,
            TargetChange::ClearWebsocketArtifacts,
        ]
    }
}

/// The slot once it holds a first Page.
pub open spec fn installed_slot(slot: TargetRuntimeSlot, page: u64) -> TargetRuntimeSlot {
    TargetRuntimeSlot { loaded_page: Some(page), ..slot }
}

/// The slot once its Page gave way to a failed request.
pub open spec fn failed_slot(slot: TargetRuntimeSlot, url: NavigationUrl) -> TargetRuntimeSlot {
    TargetRuntimeSlot {
        loaded_page: None,
        absence: TargetPageAbsenceReason::NavigationFailed,
        target_url: url.text,
        security_origin: url.origin,
        pending_navigation: None,
        binding: None,
        ..slot
    }
}

/// Installs a first Page, given what Browser Core said: its permit, the loader
/// of the empty Document, and its answer.
pub open spec fn install_initial_page(
    model: ConnectionModel,
    owner: BrowserPageOwnerKey,
    permit: Option<BrowserPageResidenceTransitionPermit>,
    loader_id: Option<String>,
    has_renderer_owner: bool,
    answer: Option<CoreCommit<u64>>,
) -> Changed<InitialDocumentPageInstallResult, PageRefusal> {
    let stale = Changed { model, result: Ok(InitialDocumentPageInstallResult::Stale) };
    match model.target_topology_refusal() {
        Some(refusal) => Changed { model, result: Err(PageRefusal::TargetTopology(refusal)) },
        None => match (permit, loader_id) {
            (Some(permit), Some(loader_id)) => match page_refusal(model, permit, true) {
                Some(refusal) => Changed { model, result: Err(refusal) },
                None => if !has_renderer_owner {
                    Changed {
                        model,
                        result: Err(
                            PageRefusal::RendererPageOwnerMissing {
                                browser_context_id: owner.browser_context_id@,
                                target_id: owner.target_id@,
                            },
                        ),
                    }
                } else {
                    match answer {
                        None => stale,
                        Some(commit) => {
                            let projected = changing_slot(
                                ConnectionModel { core: commit.core, ..model },
                                permit.owner,
                                |slot: TargetRuntimeSlot| installed_slot(slot, commit.outcome),
                            );
                            Changed {
                                model: ConnectionModel {
                                    effects: model.effects + target_effects(
                                        permit.owner,
                                        initial_changes(
                                            is_in_front(model, permit.owner),
                                            loader_id,
                                        ),
                                    ),
                                    ..projected
                                },
                                result: Ok(InitialDocumentPageInstallResult::Installed),
                            }
                        },
                    }
                },
            },
            _ => stale,
        },
    }
}

/// Discards the Page of a Target whose request failed, given what Browser Core
/// said: its permit and its answer. The failure is claimed; where that fails,
/// the Page is discarded all the same, and nothing is announced.
pub open spec fn discard_failed_page(
    model: ConnectionModel,
    session: Option<Seq<char>>,
    navigation: DocumentNavigationToken,
    failure: BrowserNavigationFailure,
    url: NavigationUrl,
    permit: Option<BrowserPageResidenceTransitionPermit>,
    answer: Option<CoreCommit<()>>,
) -> Changed<Option<()>, PageRefusal> {
    let nothing = Changed { model, result: Ok(None) };
    if model.session_owner(session) is None {
        nothing
    } else {
        match model.target_topology_refusal() {
            Some(refusal) => Changed { model, result: Err(PageRefusal::TargetTopology(refusal)) },
            None => match permit {
                None => nothing,
                Some(permit) => match page_refusal(model, permit, false) {
                    Some(refusal) => Changed { model, result: Err(refusal) },
                    None => match answer {
                        None => nothing,
                        Some(commit) => {
                            let claimed = model::claim_fact(
                                model.facts,
                                FactClaim::NavigationFailure { navigation, failure },
                            );
                            let projected = changing_slot(
                                ConnectionModel {
                                    core: commit.core,
                                    facts: claimed.model,
                                    ..model
                                },
                                permit.owner,
                                |slot: TargetRuntimeSlot| failed_slot(slot, url),
                            );
                            Changed {
                                model: ConnectionModel {
                                    effects: model.effects + target_effects(
                                        permit.owner,
                                        failure_changes(is_in_front(model, permit.owner)),
                                    ),
                                    ..projected
                                },
                                result: Ok(
                                    if claimed.result is Ok {
                                        Some(())
                                    } else {
                                        None
                                    },
                                ),
                            }
                        },
                    },
                },
            },
        }
    }
}

impl BrowserPageOwnerKey {
    pub fn copy(&self) -> (copy: BrowserPageOwnerKey)
        ensures
            copy == *self,
    {
        BrowserPageOwnerKey {
            browser_context_id: self.browser_context_id.clone(),
            target_id: self.target_id.clone(),
        }
    }
}

impl NavigationUrl {
    pub fn copy(&self) -> (copy: NavigationUrl)
        ensures
            copy == *self,
    {
        NavigationUrl { text: self.text.clone(), origin: self.origin.clone() }
    }
}

impl BrowserContext {
    /// Where the slot of a Target is.
    pub fn target_place(&self, target_id: &str) -> (place: Option<TargetPlace>)
        ensures
            place == self@.target_place(target_id@),
            place matches Some(TargetPlace::Background(index)) ==> index < self@.background.len(),
    {
        if self.is_active_target(target_id) {
            return Some(TargetPlace::Active);
        }
        match self.background_position(target_id) {
            Some(index) => Some(TargetPlace::Background(index)),
            None => None,
        }
    }

    /// Changes the slot at a place into one that holds a first Page.
    fn install_page(&mut self, place: TargetPlace, page: u64)
        requires
            place matches TargetPlace::Background(index) ==> index < old(self)@.background.len(),
        ensures
            final(self)@ == old(self)@.with_slot(
                place,
                installed_slot(old(self)@.slot_at(place), page),
            ),
    {
        match place {
            TargetPlace::Active => {
                self.active_target.slot.loaded_page = Some(page);
            },
            TargetPlace::Background(index) => {
                let ghost before = self.background_targets@;
                let mut target = self.background_targets.remove(index);
                target.slot.loaded_page = Some(page);
                self.background_targets.insert(index, target);
                assert(self.background_targets@ =~= before.update(index as int, target));
            },
        }
    }

    /// Changes the slot at a place into one whose request failed.
    fn discard_page(&mut self, place: TargetPlace, url: &NavigationUrl)
        requires
            place matches TargetPlace::Background(index) ==> index < old(self)@.background.len(),
        ensures
            final(self)@ == old(self)@.with_slot(
                place,
                failed_slot(old(self)@.slot_at(place), *url),
            ),
    {
        match place {
            TargetPlace::Active => {
                self.active_target.slot.project_failed_navigation(url);
            },
            TargetPlace::Background(index) => {
                let ghost before = self.background_targets@;
                let mut target = self.background_targets.remove(index);
                target.slot.project_failed_navigation(url);
                self.background_targets.insert(index, target);
                assert(self.background_targets@ =~= before.update(index as int, target));
            },
        }
    }
}

impl TargetRuntimeSlot {
    fn project_failed_navigation(&mut self, url: &NavigationUrl)
        ensures
            *final(self) == failed_slot(*old(self), *url),
    {
        self.loaded_page = None;
        self.absence = TargetPageAbsenceReason::NavigationFailed;
        self.target_url = url.text.clone();
        self.security_origin = url.origin.clone();
        self.clear_renderer_document_protocol_state();
    }

    /// Forgets what the renderer was told of the Document. Browser Core's
    /// request is not touched.
    pub fn clear_renderer_document_protocol_state(&mut self)
        ensures
            *final(self) == (TargetRuntimeSlot {
                pending_navigation: None,
                binding: None,
                ..*old(self)
            }),
    {
        self.pending_navigation = None;
        self.binding = None;
    }
}

impl CdpConnection {
    /// Notes what is left to do to a Target.
    pub fn note_change(&mut self, owner: &BrowserPageOwnerKey, change: TargetChange)
        requires
            old(self).wf(),
        ensures
            final(self).wf(),
            final(self)@ == (ConnectionModel {
                effects: old(self)@.effects.push(
                    ConnectionEffect::Target {
                        browser_context_id: owner.browser_context_id,
                        target_id: owner.target_id,
                        change,
                    },
                ),
                ..old(self)@
            }),
    {
        self.effects.push(
            ConnectionEffect::Target {
                browser_context_id: owner.browser_context_id.clone(),
                target_id: owner.target_id.clone(),
                change,
            },
        );
    }

    /// Finds the slot that a permitted change of a Page takes place in.
    pub fn stage_physical_page_residence_projection(
        &self,
        permit: &BrowserPageResidenceTransitionPermit,
        require_absent_page: bool,
    ) -> (staged: Result<StagedPhysicalPageResidenceProjection, PageResidenceProjectionError>)
        ensures
            match staged {
                Ok(staged) => {
                    &&& page_refusal(self@, *permit, require_absent_page) is None
                    &&& self@.place_of(permit.owner.browser_context_id@) == Some(staged.context)
                    &&& self@.context_at(staged.context).target_place(permit.owner.target_id@)
                        == Some(staged.target)
                },
                Err(error) => page_refusal(self@, *permit, require_absent_page) == Some(error@),
            },
    {
        let id = permit.owner.browser_context_id.as_str();
        let target_id = permit.owner.target_id.as_str();
        let selected = same_opt_text(self.selected_id(), Some(id));
        let (place, context) = match (selected, &self.browser_context) {
            (true, Some(context)) => (PhysicalBrowserContextSlot::Selected, context),
            _ => match self.inactive_position(id) {
                Some(index) => {
                    assert(self@.inactive[index as int]
                        == self.inactive_browser_contexts@[index as int]@);
                    (
                        PhysicalBrowserContextSlot::Inactive(index),
                        &self.inactive_browser_contexts[index],
                    )
                },
                None => {
                    return Err(
                        PageResidenceProjectionError::TargetTopology(
                            TargetProjectionError::PhysicalBrowserContextMissing(id.to_owned()),
                        ),
                    );
                },
            },
        };
        assert(context@ == self@.context_at(place));
        let at = match context.target_place(target_id) {
            Some(at) => at,
            None => {
                return Err(
                    PageResidenceProjectionError::TargetTopology(
                        TargetProjectionError::PhysicalTargetMissing {
                            browser_context_id: id.to_owned(),
                            target_id: target_id.to_owned(),
                        },
                    ),
                );
            },
        };
        let slot = match at {
            TargetPlace::Active => &context.active_target.slot,
            TargetPlace::Background(index) => &context.background_targets[index].slot,
        };
        let expected = permit.previous_page.residence;
        let current = match self.core.capture_page_residence(id, target_id) {
            Some(current) => current == expected,
            None => false,
        };
        if slot.page_instance != expected.instance || !current {
            return Err(
                PageResidenceProjectionError::PhysicalResidenceMismatch {
                    browser_context_id: id.to_owned(),
                    target_id: target_id.to_owned(),
                },
            );
        }
        if require_absent_page && slot.has_loaded_page() {
            return Err(
                PageResidenceProjectionError::InitialDocumentPageAlreadyPresent {
                    browser_context_id: id.to_owned(),
                    target_id: target_id.to_owned(),
                },
            );
        }
        Ok(StagedPhysicalPageResidenceProjection { context: place, target: at })
    }

    /// Puts a first Page into a slot.
    fn project_initial_page(
        &mut self,
        owner: &BrowserPageOwnerKey,
        staged: StagedPhysicalPageResidenceProjection,
        page: u64,
    )
        requires
            old(self).wf(),
            old(self)@.place_of(owner.browser_context_id@) == Some(staged.context),
            old(self)@.context_at(staged.context).target_place(owner.target_id@) == Some(
                staged.target,
            ),
        ensures
            final(self).wf(),
            final(self)@ == changing_slot(
                old(self)@,
                *owner,
                |slot: TargetRuntimeSlot| installed_slot(slot, page),
            ),
    {
        let mut context = match self.take_physical_browser_context_for_target_projection(
            owner.browser_context_id.as_str(),
        ) {
            Ok(context) => context,
            Err(_) => vstd::pervasive::unreached(),
        };
        proof {
            context.browser_context@.lemma_background_from(owner.target_id@, 0);
        }
        context.browser_context.install_page(staged.target, page);
        self.restore_physical_browser_context_after_target_projection(context);
        assert(self@ =~= changing_slot(
            old(self)@,
            *owner,
            |slot: TargetRuntimeSlot| installed_slot(slot, page),
        ));
    }

    /// Takes the Page out of a slot whose request failed.
    fn project_failed_page(
        &mut self,
        owner: &BrowserPageOwnerKey,
        staged: StagedPhysicalPageResidenceProjection,
        url: &NavigationUrl,
    )
        requires
            old(self).wf(),
            old(self)@.place_of(owner.browser_context_id@) == Some(staged.context),
            old(self)@.context_at(staged.context).target_place(owner.target_id@) == Some(
                staged.target,
            ),
        ensures
            final(self).wf(),
            final(self)@ == changing_slot(
                old(self)@,
                *owner,
                |slot: TargetRuntimeSlot| failed_slot(slot, *url),
            ),
    {
        let mut context = match self.take_physical_browser_context_for_target_projection(
            owner.browser_context_id.as_str(),
        ) {
            Ok(context) => context,
            Err(_) => vstd::pervasive::unreached(),
        };
        proof {
            context.browser_context@.lemma_background_from(owner.target_id@, 0);
        }
        context.browser_context.discard_page(staged.target, url);
        self.restore_physical_browser_context_after_target_projection(context);
        assert(self@ =~= changing_slot(
            old(self)@,
            *owner,
            |slot: TargetRuntimeSlot| failed_slot(slot, *url),
        ));
    }

    fn note_initial_changes(
        &mut self,
        owner: &BrowserPageOwnerKey,
        in_front: bool,
        loader_id: String,
    )
        requires
            old(self).wf(),
        ensures
            final(self).wf(),
            final(self)@ == (ConnectionModel {
                effects: old(self)@.effects + target_effects(
                    *owner,
                    initial_changes(in_front, loader_id),
                ),
                ..old(self)@
            }),
    {
        if !in_front {
            self.note_change(owner, TargetChange::ClearCommittedNavigationState);
            self.note_change(owner, TargetChange::ClearLoadedDocumentSessions);
            self.note_change(owner, TargetChange::ResetSubresourceCursor);
            self.note_change(owner, TargetChange::ClearWebsocketArtifacts);
        }
        self.note_change(owner, TargetChange::BindRendererDocumentLifecycle { loader_id });
        assert(self@.effects =~= old(self)@.effects + target_effects(
            *owner,
            initial_changes(in_front, loader_id),
        ));
    }

    fn note_failure_changes(&mut self, owner: &BrowserPageOwnerKey, in_front: bool)
        requires
            old(self).wf(),
        ensures
            final(self).wf(),
            final(self)@ == (ConnectionModel {
                effects: old(self)@.effects + target_effects(*owner, failure_changes(in_front)),
                ..old(self)@
            }),
    {
        if in_front {
            self.note_change(owner, TargetChange::ClearRendererDocumentState);
            self.note_change(owner, TargetChange::ClearRemoteObjectTracking);
        } else {
            self.note_change(owner, TargetChange::ClearCommittedNavigationState);
            self.note_change(owner, TargetChange::ClearLoadedDocumentSessions);
            self.note_change(owner, TargetChange::ClearRendererDocumentState);
            self.note_change(owner, TargetChange::ResetSubresourceCursor);
            self.note_change(owner, TargetChange::ClearWebsocketArtifacts);
        }
        assert(self@.effects =~= old(self)@.effects + target_effects(
            *owner,
            failure_changes(in_front),
        ));
    }

    /// Installs the first Page of a Target, given what Browser Core said: its
    /// permit, the loader of the empty Document, and its answer, which is
    /// absent where the permit was void by then. A Page that is not installed
    /// is closed.
    pub fn install_initial_loaded_page_for_page_owner(
        &mut self,
        owner: &BrowserPageOwnerKey,
        permit: Option<BrowserPageResidenceTransitionPermit>,
        loader_id: Option<String>,
        has_renderer_owner: bool,
        answer: Option<CoreCommit<u64>>,
    ) -> (installed: Result<InitialDocumentPageInstallResult, PageResidenceProjectionError>)
        requires
            old(self).wf(),
        ensures
            final(self).wf(),
            install_initial_page(
                old(self)@,
                *owner,
                permit,
                loader_id,
                has_renderer_owner,
                answer,
            ) == (Changed {
                model: final(self)@,
                result: match installed {
                    Ok(result) => Ok::<InitialDocumentPageInstallResult, PageRefusal>(result),
                    Err(error) => Err(error@),
                },
            }),
    {
        match self.validate_browser_target_topology_projection() {
            Ok(()) => {},
            Err(error) => {
                return Err(PageResidenceProjectionError::TargetTopology(error));
            },
        }
        let (permit, loader_id) = match (permit, loader_id) {
            (Some(permit), Some(loader_id)) => (permit, loader_id),
            _ => {
                return Ok(InitialDocumentPageInstallResult::Stale);
            },
        };
        let staged = match self.stage_physical_page_residence_projection(&permit, true) {
            Ok(staged) => staged,
            Err(error) => {
                return Err(error);
            },
        };
        if !has_renderer_owner {
            return Err(
                PageResidenceProjectionError::RendererPageOwnerMissing {
                    browser_context_id: owner.browser_context_id.clone(),
                    target_id: owner.target_id.clone(),
                },
            );
        }
        let commit = match answer {
            Some(commit) => commit,
            None => {
                return Ok(InitialDocumentPageInstallResult::Stale);
            },
        };
        self.core = commit.core;
        let in_front = staged.target == TargetPlace::Active;
        self.project_initial_page(&permit.owner, staged, commit.outcome);
        self.note_initial_changes(&permit.owner, in_front, loader_id);
        Ok(InitialDocumentPageInstallResult::Installed)
    }

    /// Discards the Page of the Target that a session speaks of, whose request
    /// failed, given what Browser Core said: its permit, and its answer, which
    /// is absent where the permit was void by then.
    pub fn discard_loaded_page_after_failed_navigation_for_session_owner(
        &mut self,
        session_id: Option<&str>,
        navigation: &DocumentNavigationToken,
        failure: &BrowserNavigationFailure,
        final_url: &NavigationUrl,
        permit: Option<BrowserPageResidenceTransitionPermit>,
        answer: Option<CoreCommit<()>>,
    ) -> (discarded: Result<Option<()>, PageResidenceProjectionError>)
        requires
            old(self).wf(),
        ensures
            final(self).wf(),
            discard_failed_page(
                old(self)@,
                text::opt_str_chars(session_id),
                *navigation,
                *failure,
                *final_url,
                permit,
                answer,
            ) == (Changed {
                model: final(self)@,
                result: match discarded {
                    Ok(announced) => Ok::<Option<()>, PageRefusal>(announced),
                    Err(error) => Err(error@),
                },
            }),
    {
        if self.target_page_owner_key_for_session(session_id).is_none() {
            return Ok(None);
        }
        match self.validate_browser_target_topology_projection() {
            Ok(()) => {},
            Err(error) => {
                return Err(PageResidenceProjectionError::TargetTopology(error));
            },
        }
        let permit = match permit {
            Some(permit) => permit,
            None => {
                return Ok(None);
            },
        };
        let staged = match self.stage_physical_page_residence_projection(&permit, false) {
            Ok(staged) => staged,
            Err(error) => {
                return Err(error);
            },
        };
        let commit = match answer {
            Some(commit) => commit,
            None => {
                return Ok(None);
            },
        };
        self.core = commit.core;
        let announced = self.facts.take_navigation_failure_fact(navigation, failure).is_ok();
        let in_front = staged.target == TargetPlace::Active;
        self.project_failed_page(&permit.owner, staged, final_url);
        self.note_failure_changes(&permit.owner, in_front);
        Ok(
            if announced {
                Some(())
            } else {
                None
            },
        )
    }
}

} // verus!
