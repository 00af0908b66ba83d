//! The end of a Target: crashes and closes that Browser Core committed.
use vstd::prelude::*;

use crate::connection::pages;
use crate::connection::pages::StagedPhysicalPageResidenceProjection;
use crate::connection::sessions::BrowserPageOwnerKey;
use crate::connection::slots::{
    ActiveTarget, AuxiliarySession, BrowserContext, ContextModel, TargetPageAbsenceReason,
    TargetPlace, TargetRuntimeSlot,
};
use crate::connection::state::{CdpConnection, ConnectionEffect, ConnectionModel, TargetChange};
use crate::connection::targets;
use crate::connection::targets::PhysicalBrowserContextSlot;
use crate::facts::types::BrowserTargetTermination;
use crate::text;
use crate::text::{copy_owned, same_text};

verus! {

/// A Target that was closed.
pub struct ClosedPageTarget {
    pub target_id: String,
    pub primary_session_id: Option<String>,
    pub auxiliary_session_ids: Vec<String>,
    /// The Target that comes to the front.
    pub promoted_target_id: Option<String>,
}

/// A Target that was closed, with the Page that it showed.
pub struct ProjectedClosedPageTarget {
    pub closed: ClosedPageTarget,
    pub retired_page: Option<u64>,
}

/// A Target that was closed, with its lists as sequences.
#[verifier::ext_equal]
pub struct ClosedModel {
    pub target_id: String,
    pub primary_session_id: Option<String>,
    pub auxiliary_session_ids: Seq<String>,
    pub promoted_target_id: Option<String>,
    pub retired_page: Option<u64>,
}

impl View for ProjectedClosedPageTarget {
    type V = ClosedModel;

    open spec fn view(&self) -> ClosedModel {
        ClosedModel {
            target_id: self.closed.target_id,
            primary_session_id: self.closed.primary_session_id,
            auxiliary_session_ids: self.closed.auxiliary_session_ids@,
            promoted_target_id: self.closed.promoted_target_id,
            retired_page: self.retired_page,
        }
    }
}

/// The further sessions of a Target.
pub open spec fn sessions_of(auxiliary: Seq<AuxiliarySession>, target: Seq<char>) -> Seq<String>
    decreases auxiliary.len(),
{
    if auxiliary.len() == 0 {
        Seq::empty()
    } else {
        let rest = sessions_of(auxiliary.drop_last(), target);
        if auxiliary.last().target_id@ == target {
            rest.push(auxiliary.last().session_id)
        } else {
            rest
        }
    }
}

/// The further sessions without those of a Target.
pub open spec fn without_sessions_of(auxiliary: Seq<AuxiliarySession>, target: Seq<char>) -> Seq<
    AuxiliarySession,
>
    decreases auxiliary.len(),
{
    if auxiliary.len() == 0 {
        auxiliary
    } else {
        let rest = without_sessions_of(auxiliary.drop_last(), target);
        if auxiliary.last().target_id@ == target {
            rest
        } else {
            rest.push(auxiliary.last())
        }
    }
}

impl ContextModel {
    /// The context without the further sessions of a Target.
    pub open spec fn without_sessions(self, target: Seq<char>) -> ContextModel {
        ContextModel { auxiliary: without_sessions_of(self.auxiliary, target), ..self }
    }
}

impl ConnectionModel {
    /// Where the slot is that a session speaks of. Without a session it is the
    /// one in front of the selected context.
    pub open spec fn session_place(self, session: Option<Seq<char>>) -> Option<
        StagedPhysicalPageResidenceProjection,
    > {
        match session {
            None => match self.selected {
                Some(_) => Some(
                    StagedPhysicalPageResidenceProjection {
                        context: PhysicalBrowserContextSlot::Selected,
                        target: TargetPlace::Active,
                    },
                ),
                None => None,
            },
            Some(_) => match self.session_owner(session) {
                Some(owner) => self.owner_place(owner),
                None => None,
            },
        }
    }

    /// Where the slot of a Target of a context is.
    pub open spec fn owner_place(self, owner: BrowserPageOwnerKey) -> Option<
        StagedPhysicalPageResidenceProjection,
    > {
        match self.place_of(owner.browser_context_id@) {
            Some(context) => match self.context_at(context).target_place(owner.target_id@) {
                Some(target) => Some(StagedPhysicalPageResidenceProjection { context, target }),
                None => None,
            },
            None => None,
        }
    }

    /// Whether there is a slot at a place.
    pub open spec fn has_slot(self, place: StagedPhysicalPageResidenceProjection) -> bool {
        &&& match place.context {
            PhysicalBrowserContextSlot::Selected => self.selected is Some,
            PhysicalBrowserContextSlot::Inactive(index) => index < self.inactive.len(),
        }
        &&& place.target matches TargetPlace::Background(index) ==> index < self.context_at(
            place.context,
        ).background.len()
    }
}

/// The Target that ended.
pub open spec fn terminated_owner(termination: BrowserTargetTermination) -> BrowserPageOwnerKey {
    BrowserPageOwnerKey {
        browser_context_id: termination.browser_context_id,
        target_id: termination.target_id,
    }
}

/// The slot once its Target ended.
pub open spec fn ended_slot(slot: TargetRuntimeSlot, reason: TargetPageAbsenceReason) -> TargetRuntimeSlot {
    TargetRuntimeSlot {
        loaded_page: None,
        absence: reason,
        pending_navigation: None,
        binding: None,
        ..slot
    }
}

/// What is left to do once a Target crashed.
pub open spec fn crash_changes(in_front: bool) -> Seq<TargetChange> {
    if in_front {
        seq![
            TargetChange::MarkCrashed,
            TargetChange::ClearRendererDocumentState,
            TargetChange::IngestOutputUpdates,
            TargetChange::ClearLoadedDocumentContext,
            TargetChange::ClearLoadedDocumentSessions,
            TargetChange::ClearPendingFetch,
            TargetChange::ClearNetworkObservations,
        ]
    } else {
        seq![
            TargetChange::MarkCrashed,
            TargetChange::ClearLoadedDocumentContext,
            TargetChange::ClearLoadedDocumentSessions,
            TargetChange::ClearRendererDocumentState,
            TargetChange::ResetSubresourceCursor,
            TargetChange::ResetNetworkArtifacts,
            TargetChange::ClearPendingFetch,
            TargetChange::ClearNetworkObservations,
        ]
    }
}

/// What is left to do once a Target in front was closed by its Page.
pub open spec fn front_page_close_changes() -> Seq<TargetChange> {
    seq![
        TargetChange::CollectNetworkArtifacts,
        TargetChange::TakeParkedNetworkArtifacts,
        TargetChange::ForgetReferences,
        TargetChange::ClearSessionScopedState,
        TargetChange::ClearCrashState,
        TargetChange::ClearRendererDocumentState,
        TargetChange::IngestOutputUpdates,
        TargetChange::ClearLoadedDocumentContext,
        TargetChange::ClearLoadedDocumentSessions,
        TargetChange::ClearPageLocalState,
        TargetChange::ResetIdentityToAboutBlank,
        TargetChange::ResetNetworkArtifacts,
        TargetChange::ClearObservableOutput,
        TargetChange::ResetFetchRequestCounter,
        TargetChange::RecordNetworkArtifacts,
    ]
}

/// What is left to do once a Target behind was closed by its Page.
pub open spec fn background_page_close_changes() -> Seq<TargetChange> {
    seq![
        TargetChange::CollectNetworkArtifacts,
        TargetChange::TakeParkedNetworkArtifacts,
        TargetChange::DropAttachment,
        TargetChange::ForgetReferences,
        TargetChange::DropParkedState,
        TargetChange::RecordNetworkArtifacts,
    ]
}

/// What is left to do once the slot in front was emptied.
pub open spec fn front_close_changes() -> Seq<TargetChange> {
    seq![
        TargetChange::CollectNetworkArtifacts,
        TargetChange::ClearSessionScopedState,
        TargetChange::ClearCrashState,
        TargetChange::ForgetReferences,
        TargetChange::ClearRendererDocumentState,
        TargetChange::IngestOutputUpdates,
        TargetChange::ClearLoadedDocumentContext,
        TargetChange::ClearLoadedDocumentSessions,
        TargetChange::ClearPendingFetch,
        TargetChange::ClearPageLocalState,
        TargetChange::RestoreCookieManager,
        TargetChange::ResetIdentityToNewTab,
        TargetChange::ResetNetworkArtifacts,
        TargetChange::ClearObservableOutput,
        TargetChange::ResetFetchRequestCounter,
        TargetChange::RecordNetworkArtifacts,
    ]
}

/// The connection once the slot that a session speaks of crashed, and the Page
/// that it showed.
pub open spec fn crash(
    model: ConnectionModel,
    session: Option<Seq<char>>,
    termination: BrowserTargetTermination,
) -> (ConnectionModel, Option<Option<u64>>) {
    match model.session_place(session) {
        None => (model, None),
        Some(place) => {
            let context = model.context_at(place.context);
            let slot = context.slot_at(place.target);
            let projected = model.changing_context(
                place.context,
                context.with_slot(
                    place.target,
                    ended_slot(slot, TargetPageAbsenceReason::TargetCrashed),
                ),
            );
            (
                ConnectionModel {
                    effects: model.effects + pages::target_effects(
                        terminated_owner(termination),
                        crash_changes(place.target == TargetPlace::Active),
                    ),
                    ..projected
                },
                Some(slot.loaded_page),
            )
        },
    }
}

/// The context with its front slot emptied.
pub open spec fn emptied_front(context: ContextModel) -> ContextModel {
    ContextModel {
        active: ActiveTarget {
            handle: None,
            session_id: None,
            slot: ended_slot(context.active.slot, TargetPageAbsenceReason::TargetClosed),
        },
        ..context
    }
}

/// The connection once the slot that a session speaks of was closed by its
/// Page, and what was closed. Where no Target is in the slot in front, none is
/// closed, but what was parked of the Target that ended is taken out.
pub open spec fn close_by_page(
    model: ConnectionModel,
    session: Option<Seq<char>>,
    termination: BrowserTargetTermination,
) -> (ConnectionModel, Option<ClosedModel>) {
    let owner = terminated_owner(termination);
    match model.session_place(session) {
        None => (model, None),
        Some(place) => {
            let context = model.context_at(place.context);
            match place.target {
                TargetPlace::Active => match context.active.handle {
                    None => (
                        ConnectionModel {
                            effects: model.effects + pages::target_effects(
                                owner,
                                seq![TargetChange::TakeParkedNetworkArtifacts],
                            ),
                            ..model
                        },
                        None,
                    ),
                    Some(handle) => (
                        ConnectionModel {
                            effects: model.effects + pages::target_effects(
                                owner,
                                front_page_close_changes(),
                            ),
                            ..model.changing_context(
                                place.context,
                                emptied_front(context.without_sessions(handle.target_id@)),
                            )
                        },
                        Some(
                            ClosedModel {
                                target_id: handle.target_id,
                                primary_session_id: context.active.session_id,
                                auxiliary_session_ids: sessions_of(
                                    context.auxiliary,
                                    handle.target_id@,
                                ),
                                promoted_target_id: None,
                                retired_page: context.active.slot.loaded_page,
                            },
                        ),
                    ),
                },
                TargetPlace::Background(index) => {
                    let target = context.background[index as int];
                    (
                        ConnectionModel {
                            effects: model.effects + pages::target_effects(
                                owner,
                                background_page_close_changes(),
                            ),
                            ..model.changing_context(
                                place.context,
                                ContextModel {
                                    background: context.background.remove(index as int),
                                    ..context.without_sessions(target.handle.target_id@)
                                },
                            )
                        },
                        Some(
                            ClosedModel {
                                target_id: target.handle.target_id,
                                primary_session_id: target.session_id,
                                auxiliary_session_ids: sessions_of(
                                    context.auxiliary,
                                    target.handle.target_id@,
                                ),
                                promoted_target_id: None,
                                retired_page: target.slot.loaded_page,
                            },
                        ),
                    )
                },
            }
        },
    }
}

/// The connection once a Target behind was closed, and what was closed. The
/// sessions of the Target end even where no slot holds it.
pub open spec fn close_background(
    model: ConnectionModel,
    termination: BrowserTargetTermination,
    reason: String,
) -> (ConnectionModel, Option<ClosedModel>) {
    let owner = terminated_owner(termination);
    let target = termination.target_id@;
    match model.place_of(termination.browser_context_id@) {
        None => (model, None),
        Some(place) => {
            let context = model.context_at(place);
            let ended = context.without_sessions(target);
            match context.background_index(target) {
                None => (
                    ConnectionModel {
                        effects: model.effects + pages::target_effects(
                            owner,
                            seq![
                                TargetChange::FailPendingAwaits { reason },
                                TargetChange::DropAttachment,
                            ],
                        ),
                        ..model.changing_context(place, ended)
                    },
                    None,
                ),
                Some(index) => {
                    let behind = context.background[index as int];
                    (
                        ConnectionModel {
                            effects: model.effects + pages::target_effects(
                                owner,
                                seq![
                                    TargetChange::FailPendingAwaits { reason },
                                    TargetChange::DropAttachment,
                                    TargetChange::CollectNetworkArtifacts,
                                    TargetChange::TakeParkedNetworkArtifacts,
                                    TargetChange::ForgetReferences,
                                    TargetChange::DropParkedState,
                                    TargetChange::RecordNetworkArtifacts,
                                ],
                            ),
                            ..model.changing_context(
                                place,
                                ContextModel {
                                    background: context.background.remove(index as int),
                                    ..ended
                                },
                            )
                        },
                        Some(
                            ClosedModel {
                                target_id: termination.target_id,
                                primary_session_id: behind.session_id,
                                auxiliary_session_ids: sessions_of(context.auxiliary, target),
                                promoted_target_id: None,
                                retired_page: behind.slot.loaded_page,
                            },
                        ),
                    )
                },
            }
        },
    }
}

/// The connection once the Target in front of a context was closed, and what
/// was closed. The last slot behind that may is named to come to the front.
pub open spec fn close_front(model: ConnectionModel, termination: BrowserTargetTermination) -> (
    ConnectionModel,
    Option<ClosedModel>,
) {
    match model.place_of(termination.browser_context_id@) {
        None => (model, None),
        Some(place) => {
            let context = model.context_at(place);
            match context.active.handle {
                None => (model, None),
                Some(handle) => (
                    ConnectionModel {
                        effects: model.effects + pages::target_effects(
                            terminated_owner(termination),
                            front_close_changes(),
                        ),
                        ..model.changing_context(
                            place,
                            emptied_front(context.without_sessions(handle.target_id@)),
                        )
                    },
                    Some(
                        ClosedModel {
                            target_id: handle.target_id,
                            primary_session_id: context.active.session_id,
                            auxiliary_session_ids: sessions_of(
                                context.auxiliary,
                                handle.target_id@,
                            ),
                            promoted_target_id: match context.last_promotable(
                                context.background.len(),
                            ) {
                                Some(index) => Some(
                                    context.background[index as int].handle.target_id,
                                ),
                                None => None,
                            },
                            retired_page: context.active.slot.loaded_page,
                        },
                    ),
                ),
            }
        },
    }
}

impl TargetRuntimeSlot {
    /// Ends the slot's Target, and gives the Page that it showed.
    fn project_target_termination(&mut self, reason: TargetPageAbsenceReason) -> (retired: Option<
        u64,
    >)
        ensures
            *final(self) == ended_slot(*old(self), reason),
            retired == old(self).loaded_page,
    {
        let retired = self.loaded_page.take();
        self.absence = reason;
        self.clear_renderer_document_protocol_state();
        retired
    }
}

impl BrowserContext {
    /// Ends the further sessions of a Target, and names them.
    pub fn remove_auxiliary_sessions_for_target(&mut self, target_id: &str) -> (removed: Vec<
        String,
    >)
        ensures
            removed@ == sessions_of(old(self)@.auxiliary, target_id@),
            final(self)@ == old(self)@.without_sessions(target_id@),
    {
        let ghost before = self.auxiliary_sessions@;
        let ghost mut read: int = 0;
        let mut removed: Vec<String> = Vec::new();
        let mut index: usize = 0;
        proof {
            assert(before.take(0) =~= Seq::<AuxiliarySession>::empty());
            assert(before.skip(0) =~= before);
        }
        while index < self.auxiliary_sessions.len()
            invariant
                self@ == (ContextModel { auxiliary: self.auxiliary_sessions@, ..old(self)@ }),
                0 <= read <= before.len(),
                removed@ == sessions_of(before.take(read), target_id@),
                index == without_sessions_of(before.take(read), target_id@).len(),
                self.auxiliary_sessions@ == without_sessions_of(before.take(read), target_id@)
                    + before.skip(read),
            decreases before.len() - read,
        {
            proof {
                assert(self.auxiliary_sessions@[index as int] == before[read]);
                assert(before.take(read + 1).drop_last() =~= before.take(read));
                assert(before.take(read + 1).last() == before[read]);
            }
            let ghost kept = without_sessions_of(before.take(read), target_id@);
            if same_text(self.auxiliary_sessions[index].target_id.as_str(), target_id) {
                let session = self.auxiliary_sessions.remove(index);
                removed.push(session.session_id);
                assert(self.auxiliary_sessions@ =~= kept + before.skip(read + 1));
            } else {
                index = index + 1;
                assert(self.auxiliary_sessions@ =~= kept.push(before[read]) + before.skip(
                    read + 1,
                ));
            }
            proof {
                read = read + 1;
            }
        }
        proof {
            assert(before.take(read) =~= before);
            assert(self.auxiliary_sessions@ =~= without_sessions_of(before, target_id@));
        }
        removed
    }

    /// Ends the Target of the slot at a place, and gives the Page it showed.
    fn end_slot(&mut self, place: TargetPlace, reason: TargetPageAbsenceReason) -> (retired: Option<
        u64,
    >)
        requires
            place matches TargetPlace::Background(index) ==> index < old(self)@.background.len(),
        ensures
            final(self)@ == old(self)@.with_slot(
                place,
                ended_slot(old(self)@.slot_at(place), reason),
            ),
            retired == old(self)@.slot_at(place).loaded_page,
    {
        match place {
            TargetPlace::Active => self.active_target.slot.project_target_termination(reason),
            TargetPlace::Background(index) => {
                let ghost before = self.background_targets@;
                let mut target = self.background_targets.remove(index);
                let retired = target.slot.project_target_termination(reason);
                self.background_targets.insert(index, target);
                assert(self.background_targets@ =~= before.update(index as int, target));
                retired
            },
        }
    }

    /// Empties the slot in front, and gives the Page that it showed.
    fn empty_front(&mut self) -> (retired: Option<u64>)
        ensures
            final(self)@ == emptied_front(old(self)@),
            retired == old(self)@.active.slot.loaded_page,
    {
        self.active_target.handle = None;
        self.active_target.session_id = None;
        self.active_target.slot.project_target_termination(TargetPageAbsenceReason::TargetClosed)
    }
}

/// What is left to do once a Target ended.
fn ending_changes(kind: TargetEnding) -> (changes: Vec<TargetChange>)
    ensures
        changes@ == ending_changes_spec(kind),
{
    match kind {
        TargetEnding::Crash { in_front: true } => vec![
            TargetChange::MarkCrashed,
            TargetChange::ClearRendererDocumentState,
            TargetChange::IngestOutputUpdates,
            TargetChange::ClearLoadedDocumentContext,
            TargetChange::ClearLoadedDocumentSessions,
            TargetChange::ClearPendingFetch,
            TargetChange::ClearNetworkObservations,
        ],
        TargetEnding::Crash { in_front: false } => vec![
            TargetChange::MarkCrashed,
            TargetChange::ClearLoadedDocumentContext,
            TargetChange::ClearLoadedDocumentSessions,
            TargetChange::ClearRendererDocumentState,
            TargetChange::ResetSubresourceCursor,
            TargetChange::ResetNetworkArtifacts,
            TargetChange::ClearPendingFetch,
            TargetChange::ClearNetworkObservations,
        ],
        TargetEnding::FrontPageClose => vec![
            TargetChange::CollectNetworkArtifacts,
            TargetChange::TakeParkedNetworkArtifacts,
            TargetChange::ForgetReferences,
            TargetChange::ClearSessionScopedState,
            TargetChange::ClearCrashState,
            TargetChange::ClearRendererDocumentState,
            TargetChange::IngestOutputUpdates,
            TargetChange::ClearLoadedDocumentContext,
            TargetChange::ClearLoadedDocumentSessions,
            TargetChange::ClearPageLocalState,
            TargetChange::ResetIdentityToAboutBlank,
            TargetChange::ResetNetworkArtifacts,
            TargetChange::ClearObservableOutput,
            TargetChange::ResetFetchRequestCounter,
            TargetChange::RecordNetworkArtifacts,
        ],
        TargetEnding::BackgroundPageClose => vec![
            TargetChange::CollectNetworkArtifacts,
            TargetChange::TakeParkedNetworkArtifacts,
            TargetChange::DropAttachment,
            TargetChange::ForgetReferences,
            TargetChange::DropParkedState,
            TargetChange::RecordNetworkArtifacts,
        ],
        TargetEnding::FrontClose => vec![
            TargetChange::CollectNetworkArtifacts,
            TargetChange::ClearSessionScopedState,
            TargetChange::ClearCrashState,
            TargetChange::ForgetReferences,
            TargetChange::ClearRendererDocumentState,
            TargetChange::IngestOutputUpdates,
            TargetChange::ClearLoadedDocumentContext,
            TargetChange::ClearLoadedDocumentSessions,
            TargetChange::ClearPendingFetch,
            TargetChange::ClearPageLocalState,
            TargetChange::RestoreCookieManager,
            TargetChange::ResetIdentityToNewTab,
            TargetChange::ResetNetworkArtifacts,
            TargetChange::ClearObservableOutput,
            TargetChange::ResetFetchRequestCounter,
            TargetChange::RecordNetworkArtifacts,
        ],
    }
}

/// How a Target ended.
enum TargetEnding {
    Crash { in_front: bool },
    FrontPageClose,
    BackgroundPageClose,
    FrontClose,
}

spec fn ending_changes_spec(kind: TargetEnding) -> Seq<TargetChange> {
    match kind {
        TargetEnding::Crash { in_front } => crash_changes(in_front),
        TargetEnding::FrontPageClose => front_page_close_changes(),
        TargetEnding::BackgroundPageClose => background_page_close_changes(),
        TargetEnding::FrontClose => front_close_changes(),
    }
}

impl CdpConnection {
    /// Where the slot is that a session speaks of.
    pub fn session_place(&self, session_id: Option<&str>) -> (place: Option<
        StagedPhysicalPageResidenceProjection,
    >)
        ensures
            place == self@.session_place(text::opt_str_chars(session_id)),
            place matches Some(place) ==> self@.has_slot(place),
    {
        if session_id.is_none() {
            return if self.browser_context.is_some() {
                Some(
                    StagedPhysicalPageResidenceProjection {
                        context: PhysicalBrowserContextSlot::Selected,
                        target: TargetPlace::Active,
                    },
                )
            } else {
                None
            };
        }
        match self.target_page_owner_key_for_session(session_id) {
            Some(owner) => self.owner_place(&owner),
            None => None,
        }
    }

    /// Where the slot of a Target of a context is.
    pub fn owner_place(&self, owner: &BrowserPageOwnerKey) -> (place: Option<
        StagedPhysicalPageResidenceProjection,
    >)
        ensures
            place == self@.owner_place(*owner),
            place matches Some(place) ==> self@.has_slot(place),
    {
        if let Some(context) = &self.browser_context {
            if same_text(context.id.as_str(), owner.browser_context_id.as_str()) {
                return match context.target_place(owner.target_id.as_str()) {
                    Some(target) => Some(
                        StagedPhysicalPageResidenceProjection {
                            context: PhysicalBrowserContextSlot::Selected,
                            target,
                        },
                    ),
                    None => None,
                };
            }
        }
        match self.inactive_position(owner.browser_context_id.as_str()) {
            Some(index) => {
                assert(self@.inactive[index as int]
                    == self.inactive_browser_contexts@[index as int]@);
                match self.inactive_browser_contexts[index].target_place(
                    owner.target_id.as_str(),
                ) {
                    Some(target) => Some(
                        StagedPhysicalPageResidenceProjection {
                            context: PhysicalBrowserContextSlot::Inactive(index),
                            target,
                        },
                    ),
                    None => None,
                }
            },
            None => None,
        }
    }

    /// The slot at a place.
    pub fn slot_at(&self, place: StagedPhysicalPageResidenceProjection) -> (slot: &TargetRuntimeSlot)
        requires
            self@.has_slot(place),
        ensures
            *slot == self@.context_at(place.context).slot_at(place.target),
    {
        let context = match (place.context, &self.browser_context) {
            (PhysicalBrowserContextSlot::Selected, Some(context)) => context,
            (PhysicalBrowserContextSlot::Inactive(index), _) => {
                assert(self@.inactive[index as int]
                    == self.inactive_browser_contexts@[index as int]@);
                &self.inactive_browser_contexts[index]
            },
            _ => vstd::pervasive::unreached(),
        };
        match place.target {
            TargetPlace::Active => &context.active_target.slot,
            TargetPlace::Background(index) => &context.background_targets[index].slot,
        }
    }

    /// Takes the context at a place out of it.
    pub fn take_context_at(&mut self, place: PhysicalBrowserContextSlot) -> (context: BrowserContext)
        requires
            old(self).wf(),
            match place {
                PhysicalBrowserContextSlot::Selected => old(self)@.selected is Some,
                PhysicalBrowserContextSlot::Inactive(index) => index < old(self)@.inactive.len(),
            },
        ensures
            final(self).wf(),
            context@ == old(self)@.context_at(place),
            final(self)@ == old(self)@.without_context(place),
    {
        let context = match place {
            PhysicalBrowserContextSlot::Selected => match self.browser_context.take() {
                Some(context) => context,
                None => vstd::pervasive::unreached(),
            },
            PhysicalBrowserContextSlot::Inactive(index) => self.inactive_browser_contexts.remove(
                index,
            ),
        };
        assert(self@ =~= old(self)@.without_context(place));
        context
    }

    /// Notes what is left to do to a Target, in order.
    fn note_changes(&mut self, owner: &BrowserPageOwnerKey, changes: Vec<TargetChange>)
        requires
            old(self).wf(),
        ensures
            final(self).wf(),
            final(self)@ == (ConnectionModel {
                effects: old(self)@.effects + pages::target_effects(*owner, changes@),
                ..old(self)@
            }),
    {
        let mut rest = changes;
        let ghost mut noted: int = 0;
        assert(pages::target_effects(*owner, changes@.take(0)) =~= Seq::<
            ConnectionEffect,
        >::empty());
        assert(rest@ =~= changes@.skip(0));
        while rest.len() > 0
            invariant
                self.wf(),
                0 <= noted <= changes@.len(),
                rest@ == changes@.skip(noted),
                self@ == (ConnectionModel {
                    effects: old(self)@.effects + pages::target_effects(
                        *owner,
                        changes@.take(noted),
                    ),
                    ..old(self)@
                }),
            decreases rest@.len(),
        {
            let change = rest.remove(0);
            self.note_change(owner, change);
            proof {
                assert(change == changes@[noted]);
                assert(rest@ =~= changes@.skip(noted + 1));
                assert(pages::target_effects(*owner, changes@.take(noted + 1))
                    =~= pages::target_effects(*owner, changes@.take(noted)).push(
                    ConnectionEffect::Target {
                        browser_context_id: owner.browser_context_id,
                        target_id: owner.target_id,
                        change,
                    },
                ));
                noted = noted + 1;
                assert(self@.effects =~= old(self)@.effects + pages::target_effects(
                    *owner,
                    changes@.take(noted),
                ));
            }
        }
        assert(changes@.take(noted) =~= changes@);
    }

    /// Projects a crash that Browser Core committed into the slot that a
    /// session speaks of, and gives the Page that it showed.
    pub fn project_target_crash_after_browser_owner_commit(
        &mut self,
        session_id: Option<&str>,
        termination: &BrowserTargetTermination,
    ) -> (retired: Option<Option<u64>>)
        requires
            old(self).wf(),
        ensures
            final(self).wf(),
            (final(self)@, retired) == crash(
                old(self)@,
                text::opt_str_chars(session_id),
                *termination,
            ),
    {
        let ghost before = self@;
        let place = match self.session_place(session_id) {
            Some(place) => place,
            None => {
                return None;
            },
        };
        let mut context = self.take_context_at(place.context);
        let retired = context.end_slot(place.target, TargetPageAbsenceReason::TargetCrashed);
        self.restore_physical_browser_context_after_target_projection(
            targets::StagedPhysicalBrowserContext { slot: place.context, browser_context: context },
        );
        let owner = BrowserPageOwnerKey {
            browser_context_id: termination.browser_context_id.clone(),
            target_id: termination.target_id.clone(),
        };
        let in_front = place.target == TargetPlace::Active;
        self.note_changes(&owner, ending_changes(TargetEnding::Crash { in_front }));
        assert(self@ =~= crash(before, text::opt_str_chars(session_id), *termination).0);
        Some(retired)
    }

    /// Projects a close that a Page asked for and Browser Core committed.
    pub fn project_page_close_after_browser_owner_commit(
        &mut self,
        session_id: Option<&str>,
        termination: &BrowserTargetTermination,
    ) -> (closed: Option<ProjectedClosedPageTarget>)
        requires
            old(self).wf(),
        ensures
            final(self).wf(),
            close_by_page(old(self)@, text::opt_str_chars(session_id), *termination) == (
                final(self)@,
                match closed {
                    Some(closed) => Some(closed@),
                    None => None,
                },
            ),
    {
        let ghost before = self@;
        let place = match self.session_place(session_id) {
            Some(place) => place,
            None => {
                return None;
            },
        };
        let owner = BrowserPageOwnerKey {
            browser_context_id: termination.browser_context_id.clone(),
            target_id: termination.target_id.clone(),
        };
        let mut context = self.take_context_at(place.context);
        let (closed, changes) = match place.target {
            TargetPlace::Active => {
                let target_id = match &context.active_target.handle {
                    Some(handle) => handle.target_id.clone(),
                    None => {
                        self.restore_physical_browser_context_after_target_projection(
                            targets::StagedPhysicalBrowserContext {
                                slot: place.context,
                                browser_context: context,
                            },
                        );
                        assert(self@ =~= before);
                        let changes = vec![TargetChange::TakeParkedNetworkArtifacts];
                        assert(changes@ =~= seq![TargetChange::TakeParkedNetworkArtifacts]);
                        self.note_changes(&owner, changes);
                        return None;
                    },
                };
                let primary_session_id = copy_owned(&context.active_target.session_id);
                let auxiliary_session_ids = context.remove_auxiliary_sessions_for_target(
                    target_id.as_str(),
                );
                let retired_page = context.empty_front();
                (
                    ProjectedClosedPageTarget {
                        closed: ClosedPageTarget {
                            target_id,
                            primary_session_id,
                            auxiliary_session_ids,
                            promoted_target_id: None,
                        },
                        retired_page,
                    },
                    ending_changes(TargetEnding::FrontPageClose),
                )
            },
            TargetPlace::Background(index) => {
                let target = context.background_targets.remove(index);
                let auxiliary_session_ids = context.remove_auxiliary_sessions_for_target(
                    target.handle.target_id.as_str(),
                );
                (
                    ProjectedClosedPageTarget {
                        closed: ClosedPageTarget {
                            target_id: target.handle.target_id,
                            primary_session_id: target.session_id,
                            auxiliary_session_ids,
                            promoted_target_id: None,
                        },
                        retired_page: target.slot.loaded_page,
                    },
                    ending_changes(TargetEnding::BackgroundPageClose),
                )
            },
        };
        self.restore_physical_browser_context_after_target_projection(
            targets::StagedPhysicalBrowserContext { slot: place.context, browser_context: context },
        );
        self.note_changes(&owner, changes);
        assert(self@ =~= close_by_page(
            before,
            text::opt_str_chars(session_id),
            *termination,
        ).0);
        Some(closed)
    }

    /// Projects the close of a Target behind that Browser Core committed. The
    /// calls that wait in its sessions fail for `reason`.
    pub fn project_background_target_close_after_browser_owner_commit(
        &mut self,
        termination: &BrowserTargetTermination,
        reason: String,
    ) -> (closed: Option<ProjectedClosedPageTarget>)
        requires
            old(self).wf(),
        ensures
            final(self).wf(),
            close_background(old(self)@, *termination, reason) == (
                final(self)@,
                match closed {
                    Some(closed) => Some(closed@),
                    None => None,
                },
            ),
    {
        let ghost before = self@;
        let target_id = termination.target_id.as_str();
        let owner = BrowserPageOwnerKey {
            browser_context_id: termination.browser_context_id.clone(),
            target_id: termination.target_id.clone(),
        };
        let mut staged = match self.take_physical_browser_context_for_target_projection(
            termination.browser_context_id.as_str(),
        ) {
            Ok(staged) => staged,
            Err(_) => {
                return None;
            },
        };
        let position = staged.browser_context.background_position(target_id);
        let auxiliary_session_ids = staged.browser_context.remove_auxiliary_sessions_for_target(
            target_id,
        );
        let target = match position {
            Some(index) => Some(staged.browser_context.background_targets.remove(index)),
            None => None,
        };
        self.restore_physical_browser_context_after_target_projection(staged);
        let mut changes = vec![
            TargetChange::FailPendingAwaits { reason },
            TargetChange::DropAttachment,
        ];
        let target = match target {
            Some(target) => target,
            None => {
                assert(changes@ =~= seq![
                    TargetChange::FailPendingAwaits { reason },
                    TargetChange::DropAttachment,
                ]);
                self.note_changes(&owner, changes);
                assert(self@ =~= close_background(before, *termination, reason).0);
                return None;
            },
        };
        changes.push(TargetChange::CollectNetworkArtifacts);
        changes.push(TargetChange::TakeParkedNetworkArtifacts);
        changes.push(TargetChange::ForgetReferences);
        changes.push(TargetChange::DropParkedState);
        changes.push(TargetChange::RecordNetworkArtifacts);
        assert(changes@ =~= seq![
            TargetChange::FailPendingAwaits { reason },
            TargetChange::DropAttachment,
            TargetChange::CollectNetworkArtifacts,
            TargetChange::TakeParkedNetworkArtifacts,
            TargetChange::ForgetReferences,
            TargetChange::DropParkedState,
            TargetChange::RecordNetworkArtifacts,
        ]);
        self.note_changes(&owner, changes);
        assert(self@ =~= close_background(before, *termination, reason).0);
        Some(
            ProjectedClosedPageTarget {
                closed: ClosedPageTarget {
                    target_id: termination.target_id.clone(),
                    primary_session_id: target.session_id,
                    auxiliary_session_ids,
                    promoted_target_id: None,
                },
                retired_page: target.slot.loaded_page,
            },
        )
    }

    /// Projects the close of the Target in front of a context that Browser
    /// Core committed.
    pub fn project_active_target_close_after_browser_owner_commit(
        &mut self,
        termination: &BrowserTargetTermination,
    ) -> (closed: Option<ProjectedClosedPageTarget>)
        requires
            old(self).wf(),
        ensures
            final(self).wf(),
            close_front(old(self)@, *termination) == (
                final(self)@,
                match closed {
                    Some(closed) => Some(closed@),
                    None => None,
                },
            ),
    {
        let ghost before = self@;
        let owner = BrowserPageOwnerKey {
            browser_context_id: termination.browser_context_id.clone(),
            target_id: termination.target_id.clone(),
        };
        let mut staged = match self.take_physical_browser_context_for_target_projection(
            termination.browser_context_id.as_str(),
        ) {
            Ok(staged) => staged,
            Err(_) => {
                return None;
            },
        };
        let target_id = match &staged.browser_context.active_target.handle {
            Some(handle) => handle.target_id.clone(),
            None => {
                proof {
                    targets::lemma_put_back(before, termination.browser_context_id@);
                }
                self.restore_physical_browser_context_after_target_projection(staged);
                return None;
            },
        };
        let primary_session_id = copy_owned(&staged.browser_context.active_target.session_id);
        let auxiliary_session_ids = staged.browser_context.remove_auxiliary_sessions_for_target(
            target_id.as_str(),
        );
        let promoted_target_id = staged.browser_context.last_promotable_background_target_id();
        let retired_page = staged.browser_context.empty_front();
        self.restore_physical_browser_context_after_target_projection(staged);
        self.note_changes(&owner, ending_changes(TargetEnding::FrontClose));
        proof {
            lemma_last_promotable(before.context_at(
                before.place_of(termination.browser_context_id@)->Some_0,
            ), target_id@);
        }
        assert(self@ =~= close_front(before, *termination).0);
        Some(
            ProjectedClosedPageTarget {
                closed: ClosedPageTarget {
                    target_id,
                    primary_session_id,
                    auxiliary_session_ids,
                    promoted_target_id,
                },
                retired_page,
            },
        )
    }
}

proof fn lemma_last_promotable_count(context: ContextModel, other: ContextModel, count: nat)
    requires
        context.background == other.background,
    ensures
        context.last_promotable(count) == other.last_promotable(count),
    decreases count,
{
    if count > 0 {
        lemma_last_promotable_count(context, other, (count - 1) as nat);
    }
}

/// Ending sessions does not change which slot comes to the front.
proof fn lemma_last_promotable(context: ContextModel, target: Seq<char>)
    ensures
        context.without_sessions(target).last_promotable(context.background.len())
            == context.last_promotable(context.background.len()),
{
    lemma_last_promotable_count(
        context.without_sessions(target),
        context,
        context.background.len(),
    );
}

} // verus!
