//! The Page that a committed request brings.
use vstd::prelude::*;

use crate::addresses::NavigationUrl;
use crate::connection::pages;
use crate::connection::slots::{BrowserContext, ContextModel, TargetPlace, TargetRuntimeSlot};
use crate::connection::state::{CdpConnection, ConnectionModel, TargetChange};
use crate::connection::targets;
use crate::connection::sessions::BrowserPageOwnerKey;
use crate::text;

verus! {

/// How the renderer was attached to a new Page.
#[derive(Clone, Copy, Debug, PartialEq, Eq, Structural)]
pub struct RendererAttachment {
    pub previous: Option<u64>,
    pub current: u64,
}

/// A new Page that is ready to be committed.
#[derive(Clone, Copy, Debug, PartialEq, Eq, Structural)]
pub struct PreparedLoadedNavigationPageCommit {
    pub page: u64,
    /// The Page that it replaces.
    pub retiring_page: Option<u64>,
    /// Whether calls that wait for the old attachment wait for the new one.
    pub replaces_calls: bool,
}

/// Whether calls have to be handed from one attachment to the next.
pub open spec fn replaces_calls(attachment: RendererAttachment) -> bool {
    attachment.previous matches Some(previous) && previous != attachment.current
}

/// Makes a new Page ready, given how the renderer was attached to it, and how
/// the calls that wait were handed over where they had to be.
pub open spec fn prepare_loaded_page(
    model: ConnectionModel,
    session: Option<Seq<char>>,
    page: u64,
    attached: Result<RendererAttachment, String>,
    handed_over: Result<(), String>,
) -> Option<Result<PreparedLoadedNavigationPageCommit, String>> {
    match model.session_place(session) {
        None => None,
        Some(place) => Some(
            match attached {
                Err(error) => Err(error),
                Ok(attachment) => match (replaces_calls(attachment), handed_over) {
                    (true, Err(error)) => Err(error),
                    (replaces_calls, _) => Ok(
                        PreparedLoadedNavigationPageCommit {
                            page,
                            retiring_page: model.context_at(place.context).slot_at(
                                place.target,
                            ).loaded_page,
                            replaces_calls,
                        },
                    ),
                },
            },
        ),
    }
}

/// What the new Document says of its origin.
pub struct RendererMainDocumentCommit {
    pub security_origin: String,
    pub secure_context_type: String,
}

/// The slot once it holds the new Page.
pub open spec fn loaded_slot(
    slot: TargetRuntimeSlot,
    url: NavigationUrl,
    commit: RendererMainDocumentCommit,
    page: u64,
) -> TargetRuntimeSlot {
    TargetRuntimeSlot {
        loaded_page: Some(page),
        target_url: url.text,
        security_origin: commit.security_origin,
        secure_context_type: commit.secure_context_type,
        ..slot
    }
}

/// What is left to do once a slot behind holds a new Page.
pub open spec fn loaded_changes(in_front: bool) -> Seq<TargetChange> {
    if in_front {
        Seq::empty()
    } else {
        seq![
            TargetChange::ClearCommittedNavigationState,
            TargetChange::ClearLoadedDocumentSessions,
            TargetChange::ResetSubresourceCursor,
            TargetChange::ClearWebsocketArtifacts,
        ]
    }
}

impl ContextModel {
    /// The Target of the slot at a place.
    pub open spec fn owner_at(self, place: TargetPlace) -> Option<BrowserPageOwnerKey> {
        match place {
            TargetPlace::Active => match self.active.handle {
                Some(handle) => Some(
                    BrowserPageOwnerKey {
                        browser_context_id: self.id,
                        target_id: handle.target_id,
                    },
                ),
                None => None,
            },
            TargetPlace::Background(index) => Some(
                BrowserPageOwnerKey {
                    browser_context_id: self.id,
                    target_id: self.background[index as int].handle.target_id,
                },
            ),
        }
    }
}

/// The connection once the slot that a session speaks of holds the new Page.
pub open spec fn project_loaded_page(
    model: ConnectionModel,
    session: Option<Seq<char>>,
    url: NavigationUrl,
    commit: RendererMainDocumentCommit,
    page: u64,
) -> (ConnectionModel, Option<()>) {
    match model.session_place(session) {
        None => (model, None),
        Some(place) => {
            let context = model.context_at(place.context);
            let projected = model.changing_context(
                place.context,
                context.with_slot(
                    place.target,
                    loaded_slot(context.slot_at(place.target), url, commit, page),
                ),
            );
            (
                match context.owner_at(place.target) {
                    Some(owner) => ConnectionModel {
                        effects: model.effects + pages::target_effects(
                            owner,
                            loaded_changes(place.target == TargetPlace::Active),
                        ),
                        ..projected
                    },
                    None => projected,
                },
                Some(()),
            )
        },
    }
}

impl BrowserContext {
    fn load_page(
        &mut self,
        place: TargetPlace,
        url: &NavigationUrl,
        commit: &RendererMainDocumentCommit,
        page: u64,
    )
        requires
            place matches TargetPlace::Background(index) ==> index < old(self)@.background.len(),
        ensures
            final(self)@ == old(self)@.with_slot(
                place,
                loaded_slot(old(self)@.slot_at(place), *url, *commit, page),
            ),
    {
        match place {
            TargetPlace::Active => {
                self.active_target.slot.load_page(url, commit, page);
            },
            TargetPlace::Background(index) => {
                let ghost before = self.background_targets@;
                let mut target = self.background_targets.remove(index);
                target.slot.load_page(url, commit, page);
                self.background_targets.insert(index, target);
                assert(self.background_targets@ =~= before.update(index as int, target));
            },
        }
    }

    fn owner_at(&self, place: TargetPlace) -> (owner: Option<BrowserPageOwnerKey>)
        requires
            place matches TargetPlace::Background(index) ==> index < self@.background.len(),
        ensures
            owner == self@.owner_at(place),
    {
        let target_id = match place {
            TargetPlace::Active => match &self.active_target.handle {
                Some(handle) => handle.target_id.clone(),
                None => {
                    return None;
                },
            },
            TargetPlace::Background(index) => {
                self.background_targets[index].handle.target_id.clone()
            },
        };
        Some(BrowserPageOwnerKey { browser_context_id: self.id.clone(), target_id })
    }
}

impl TargetRuntimeSlot {
    fn load_page(&mut self, url: &NavigationUrl, commit: &RendererMainDocumentCommit, page: u64)
        ensures
            *final(self) == loaded_slot(*old(self), *url, *commit, page),
    {
        self.loaded_page = Some(page);
        self.target_url = url.text.clone();
        self.security_origin = commit.security_origin.clone();
        self.secure_context_type = commit.secure_context_type.clone();
    }
}

impl CdpConnection {
    /// Makes a new Page ready for the slot that a session speaks of, given how
    /// the renderer was attached to it, and how the calls that wait were
    /// handed over where they had to be.
    pub fn prepare_loaded_navigation_page_for_session_owner(
        &self,
        session_id: Option<&str>,
        page: u64,
        attached: Result<RendererAttachment, String>,
        handed_over: Result<(), String>,
    ) -> (prepared: Option<Result<PreparedLoadedNavigationPageCommit, String>>)
        ensures
            prepared == prepare_loaded_page(
                self@,
                text::opt_str_chars(session_id),
                page,
                attached,
                handed_over,
            ),
    {
        let place = match self.session_place(session_id) {
            Some(place) => place,
            None => {
                return None;
            },
        };
        let attachment = match attached {
            Ok(attachment) => attachment,
            Err(error) => {
                return Some(Err(error));
            },
        };
        let replaces_calls = match attachment.previous {
            Some(previous) => previous != attachment.current,
            None => false,
        };
        if replaces_calls {
            if let Err(error) = handed_over {
                return Some(Err(error));
            }
        }
        let retiring_page = self.slot_at(place).loaded_page;
        Some(Ok(PreparedLoadedNavigationPageCommit { page, retiring_page, replaces_calls }))
    }

    /// Puts the new Page into the slot that a session speaks of, once Browser
    /// Core committed it.
    pub fn project_loaded_navigation_page_for_session_owner(
        &mut self,
        session_id: Option<&str>,
        target_url: &NavigationUrl,
        main_document_commit: &RendererMainDocumentCommit,
        page: u64,
    ) -> (projected: Option<()>)
        requires
            old(self).wf(),
        ensures
            final(self).wf(),
            (final(self)@, projected) == project_loaded_page(
                old(self)@,
                text::opt_str_chars(session_id),
                *target_url,
                *main_document_commit,
                page,
            ),
    {
        let ghost before = self@;
        let place = match self.session_place(session_id) {
            Some(place) => place,
            None => {
                return None;
            },
        };
        let mut context = self.take_context_at(place.context);
        let owner = context.owner_at(place.target);
        context.load_page(place.target, target_url, main_document_commit, page);
        self.restore_physical_browser_context_after_target_projection(
            targets::StagedPhysicalBrowserContext { slot: place.context, browser_context: context },
        );
        if let Some(owner) = owner {
            if place.target != TargetPlace::Active {
                self.note_change(&owner, TargetChange::ClearCommittedNavigationState);
                self.note_change(&owner, TargetChange::ClearLoadedDocumentSessions);
                self.note_change(&owner, TargetChange::ResetSubresourceCursor);
                self.note_change(&owner, TargetChange::ClearWebsocketArtifacts);
            }
        }
        assert(self@ =~= project_loaded_page(
            before,
            text::opt_str_chars(session_id),
            *target_url,
            *main_document_commit,
            page,
        ).0);
        Some(())
    }
}

} // verus!
