//! Cross-document requests: from a session to the Target that Browser Core
//! keeps the request of.
//!
//! Pending and committed requests live in Core. A slot keeps only what the
//! renderer was told of them.
use vstd::prelude::*;

use crate::connection::contexts::CoreCommit;
use crate::connection::core_record::CoreNavigation;
use crate::connection::pages::StagedPhysicalPageResidenceProjection;
use crate::connection::sessions::BrowserPageOwnerKey;
use crate::connection::slots::{BrowserContext, TargetPlace, TargetRuntimeSlot};
use crate::connection::state::{CdpConnection, ConnectionEffect, ConnectionModel};
use crate::connection::targets;
use crate::facts::model;
use crate::facts::model::FactClaim;
use crate::facts::types::{
    BrowserNavigationFailure, CommittedRendererDocumentBinding, DocumentNavigationToken,
    PageResidenceIdentity,
};
use crate::text;
use crate::text::{copy_owned, same_text};

verus! {

/// How far the Document of a Target is.
pub enum DevToolsDocumentNavigationState {
    /// There is no such Target.
    Unavailable,
    /// A request is on its way.
    PendingNavigation,
    Committed { loader_id: String },
    AwaitingCommit,
}

/// How far the Document of a Target is, as a value.
pub enum DocumentState {
    Unavailable,
    PendingNavigation,
    Committed { loader_id: Seq<char> },
    AwaitingCommit,
}

impl View for DevToolsDocumentNavigationState {
    type V = DocumentState;

    open spec fn view(&self) -> DocumentState {
        match *self {
            DevToolsDocumentNavigationState::Unavailable => DocumentState::Unavailable,
            DevToolsDocumentNavigationState::PendingNavigation => DocumentState::PendingNavigation,
            DevToolsDocumentNavigationState::Committed { loader_id } => DocumentState::Committed {
                loader_id: loader_id@,
            },
            DevToolsDocumentNavigationState::AwaitingCommit => DocumentState::AwaitingCommit,
        }
    }
}

impl DevToolsDocumentNavigationState {
    pub fn is_same(&self, other: &DevToolsDocumentNavigationState) -> (same: bool)
        ensures
            same == (self@ == other@),
    {
        match (self, other) {
            (
                DevToolsDocumentNavigationState::Unavailable,
                DevToolsDocumentNavigationState::Unavailable,
            ) => true,
            (
                DevToolsDocumentNavigationState::PendingNavigation,
                DevToolsDocumentNavigationState::PendingNavigation,
            ) => true,
            (
                DevToolsDocumentNavigationState::Committed { loader_id: left },
                DevToolsDocumentNavigationState::Committed { loader_id: right },
            ) => same_text(left.as_str(), right.as_str()),
            (
                DevToolsDocumentNavigationState::AwaitingCommit,
                DevToolsDocumentNavigationState::AwaitingCommit,
            ) => true,
            _ => false,
        }
    }
}

/// The protocol that a command came by.
#[derive(Clone, Copy, Debug, PartialEq, Eq, Structural)]
pub enum DevToolsProtocol {
    Cdp,
    WebDriverClassic,
    WebDriverBidi,
}

/// What a command is addressed to.
pub struct DevToolsCommandContext {
    pub protocol: DevToolsProtocol,
    pub session_id: Option<String>,
    pub target_id: Option<String>,
    pub browser_context_id: Option<String>,
}

/// Why a Document cannot be reached.
#[derive(Clone, Copy, Debug, PartialEq, Eq, Structural)]
pub enum DocumentAccessError {
    NavigationChangingDocument,
    /// The session speaks of no slot.
    NoSlot,
    NoDocumentLoaded,
}

/// Where a request came from.
#[derive(Clone, Copy, Debug, PartialEq, Eq, Structural)]
pub enum BrowserNavigationTraceSource {
    FrontendCommand,
    RendererIntent,
    Network,
    Lifecycle,
}

impl BrowserNavigationTraceSource {
    /// How a trace names it.
    pub open spec fn trace_name(self) -> Seq<char> {
        match self {
            BrowserNavigationTraceSource::FrontendCommand => "frontend-command"@,
            BrowserNavigationTraceSource::RendererIntent => "renderer-output"@,
            BrowserNavigationTraceSource::Network => "network"@,
            BrowserNavigationTraceSource::Lifecycle => "lifecycle"@,
        }
    }

    pub fn name(self) -> (name: &'static str)
        ensures
            name@ == self.trace_name(),
    {
        match self {
            BrowserNavigationTraceSource::FrontendCommand => "frontend-command",
            BrowserNavigationTraceSource::RendererIntent => "renderer-output",
            BrowserNavigationTraceSource::Network => "network",
            BrowserNavigationTraceSource::Lifecycle => "lifecycle",
        }
    }
}

impl DocumentAccessError {
    /// How the error reads. `no_slot` is how the lack of a slot reads.
    pub fn message(self, no_slot: &str) -> (message: String)
        ensures
            message@ == (match self {
                DocumentAccessError::NavigationChangingDocument => {
                    "Navigation is changing the document"@
                },
                DocumentAccessError::NoSlot => no_slot@,
                DocumentAccessError::NoDocumentLoaded => "NoDocumentLoaded"@,
            }),
    {
        match self {
            DocumentAccessError::NavigationChangingDocument => {
                "Navigation is changing the document".to_owned()
            },
            DocumentAccessError::NoSlot => no_slot.to_owned(),
            DocumentAccessError::NoDocumentLoaded => "NoDocumentLoaded".to_owned(),
        }
    }
}

/// Whether a record of requests holds exactly that request.
pub open spec fn holds(record: Option<DocumentNavigationToken>, token: DocumentNavigationToken) -> bool {
    record matches Some(recorded) && recorded.same(&token)
}

impl ConnectionModel {
    /// The Target that a request is of.
    pub open spec fn token_owner(self, token: DocumentNavigationToken) -> Option<
        (Seq<char>, Seq<char>),
    > {
        match self.target_holder(token.target_id@) {
            Some(id) => Some((id@, token.target_id@)),
            None => None,
        }
    }

    /// The requests of the Target that a session speaks of.
    pub open spec fn session_navigation(self, session: Option<Seq<char>>) -> Option<
        CoreNavigation,
    > {
        match self.session_owner(session) {
            Some(owner) => self.core.navigation_of(
                owner.browser_context_id@,
                owner.target_id@,
            ),
            None => None,
        }
    }

    /// Whether a session speaks of the Target that a request is of.
    pub open spec fn speaks_of(
        self,
        session: Option<Seq<char>>,
        token: DocumentNavigationToken,
    ) -> bool {
        self.session_owner(session) matches Some(owner) && owner.target_id@ == token.target_id@
    }

    /// Whether a request of the Target that a session speaks of is on its way.
    pub open spec fn navigation_pending(self, session: Option<Seq<char>>) -> bool {
        self.session_navigation(session) matches Some(navigation) && navigation.pending is Some
    }

    /// How far the Document of a Target is, given the Target's requests. The
    /// empty Document that a new Target shows has a loader too.
    pub open spec fn document_state(navigation: Option<CoreNavigation>) -> DevToolsDocumentNavigationState {
        match navigation {
            Some(navigation) => if navigation.pending is Some {
                DevToolsDocumentNavigationState::PendingNavigation
            } else {
                match (navigation.committed, navigation.initial_loader_id) {
                    (Some(token), _) => DevToolsDocumentNavigationState::Committed {
                        loader_id: token.loader_id,
                    },
                    (None, Some(loader_id)) => DevToolsDocumentNavigationState::Committed {
                        loader_id,
                    },
                    (None, None) => DevToolsDocumentNavigationState::AwaitingCommit,
                }
            },
            None => DevToolsDocumentNavigationState::AwaitingCommit,
        }
    }

    /// How far the Document is that a command is addressed to. A named Target
    /// counts before the session.
    pub open spec fn addressed_state(self, context: DevToolsCommandContext) -> DevToolsDocumentNavigationState {
        match context.target_id {
            Some(target_id) => match self.target_holder(target_id@) {
                Some(id) => Self::document_state(self.core.navigation_of(id@, target_id@)),
                None => DevToolsDocumentNavigationState::Unavailable,
            },
            None => {
                let session = text::opt_chars(context.session_id);
                if self.session_owner(session) is None {
                    DevToolsDocumentNavigationState::Unavailable
                } else {
                    Self::document_state(self.session_navigation(session))
                }
            },
        }
    }

    /// The connection with what the renderer was told of a request changed, in
    /// the slot at a place.
    pub open spec fn with_pending(
        self,
        place: StagedPhysicalPageResidenceProjection,
        pending: Option<DocumentNavigationToken>,
    ) -> ConnectionModel {
        let context = self.context_at(place.context);
        let slot = context.slot_at(place.target);
        self.changing_context(
            place.context,
            context.with_slot(
                place.target,
                TargetRuntimeSlot { pending_navigation: pending, ..slot },
            ),
        )
    }

    /// The attachment of the Document that a session speaks of, while its
    /// request is the one that Browser Core committed.
    pub open spec fn current_binding(self, session: Option<Seq<char>>) -> Option<
        CommittedRendererDocumentBinding,
    > {
        match (self.session_owner(session), self.session_place(session)) {
            (Some(_), Some(place)) => match self.context_at(place.context).slot_at(
                place.target,
            ).binding {
                Some(binding) => match binding.navigation {
                    None => Some(binding),
                    Some(token) => if self.session_navigation(session) matches Some(navigation)
                        && holds(navigation.committed, token) {
                        Some(binding)
                    } else {
                        None
                    },
                },
                None => None,
            },
            _ => None,
        }
    }
}

/// The connection once a request was started, and the request. Browser Core
/// answered with the request it accepted, or with none.
pub open spec fn start(
    model: ConnectionModel,
    session: Option<Seq<char>>,
    answer: Option<CoreCommit<DocumentNavigationToken>>,
) -> (ConnectionModel, Option<DocumentNavigationToken>) {
    match (model.session_owner(session), model.session_place(session), answer) {
        (Some(_), Some(place), Some(commit)) => (
            ConnectionModel { core: commit.core, ..model }.with_pending(
                place,
                Some(commit.outcome),
            ),
            Some(commit.outcome),
        ),
        _ => (model, None),
    }
}

/// The connection once a request ended, and whether that may be announced:
/// Browser Core ended exactly that request and the fact of it could be claimed.
pub open spec fn end(
    model: ConnectionModel,
    session: Option<Seq<char>>,
    token: DocumentNavigationToken,
    claim: FactClaim,
    answer: Option<CoreCommit<()>>,
) -> (ConnectionModel, bool) {
    match (model.speaks_of(session, token), answer) {
        (true, Some(commit)) => {
            let claimed = model::claim_fact(model.facts, claim);
            (
                ConnectionModel { core: commit.core, facts: claimed.model, ..model },
                claimed.result is Ok,
            )
        },
        _ => (model, false),
    }
}

fn is_held(record: &Option<DocumentNavigationToken>, token: &DocumentNavigationToken) -> (held: bool)
    ensures
        held == holds(*record, *token),
{
    match record {
        Some(recorded) => recorded.is_same(token),
        None => false,
    }
}

impl CoreNavigation {
    /// How far the Document is.
    fn document_state(&self) -> (state: DevToolsDocumentNavigationState)
        ensures
            state == ConnectionModel::document_state(Some(*self)),
    {
        if self.pending.is_some() {
            return DevToolsDocumentNavigationState::PendingNavigation;
        }
        match (&self.committed, &self.initial_loader_id) {
            (Some(token), _) => DevToolsDocumentNavigationState::Committed {
                loader_id: token.loader_id.clone(),
            },
            (None, Some(loader_id)) => DevToolsDocumentNavigationState::Committed {
                loader_id: loader_id.clone(),
            },
            (None, None) => DevToolsDocumentNavigationState::AwaitingCommit,
        }
    }
}

impl BrowserContext {
    fn set_pending(&mut self, place: TargetPlace, pending: Option<DocumentNavigationToken>)
        requires
            place matches TargetPlace::Background(index) ==> index < old(self)@.background.len(),
        ensures
            final(self)@ == old(self)@.with_slot(
                place,
                TargetRuntimeSlot { pending_navigation: pending, ..old(self)@.slot_at(place) },
            ),
    {
        match place {
            TargetPlace::Active => {
                self.active_target.slot.pending_navigation = pending;
            },
            TargetPlace::Background(index) => {
                let ghost before = self.background_targets@;
                let mut target = self.background_targets.remove(index);
                target.slot.pending_navigation = pending;
                self.background_targets.insert(index, target);
                assert(self.background_targets@ =~= before.update(index as int, target));
            },
        }
    }
}

impl CdpConnection {
    /// The requests of the Target that a session speaks of.
    fn session_navigation(&self, session_id: Option<&str>) -> (navigation: Option<&CoreNavigation>)
        ensures
            match navigation {
                Some(navigation) => self@.session_navigation(text::opt_str_chars(session_id))
                    == Some(*navigation),
                None => self@.session_navigation(text::opt_str_chars(session_id)) is None,
            },
    {
        match self.target_page_owner_key_for_session(session_id) {
            Some(owner) => self.core.navigation(
                owner.browser_context_id.as_str(),
                owner.target_id.as_str(),
            ),
            None => None,
        }
    }

    fn speaks_of(&self, session_id: Option<&str>, token: &DocumentNavigationToken) -> (speaks: bool)
        ensures
            speaks == self@.speaks_of(text::opt_str_chars(session_id), *token),
    {
        match self.target_page_owner_key_for_session(session_id) {
            Some(owner) => same_text(owner.target_id.as_str(), token.target_id.as_str()),
            None => false,
        }
    }

    /// The Page that a committed request shows.
    pub fn current_page_residence_for_document_navigation(
        &self,
        token: &DocumentNavigationToken,
    ) -> (page: Option<PageResidenceIdentity>)
        ensures
            match self@.token_owner(*token) {
                Some((id, target)) => if self@.core.navigation_of(id, target) matches Some(
                    navigation,
                ) && holds(navigation.committed, *token) {
                    match self@.core.page_of(id, target) {
                        Some(residence) => page matches Some(page) && page.residence == residence
                            && page.browser_context_id@ == id && text::opt_chars(page.target_id)
                            == Some(target),
                        None => page is None,
                    }
                } else {
                    page is None
                },
                None => page is None,
            },
    {
        let id = match self.target_holder(token.target_id.as_str()) {
            Some(id) => id,
            None => {
                return None;
            },
        };
        let committed = match self.core.navigation(id.as_str(), token.target_id.as_str()) {
            Some(navigation) => is_held(&navigation.committed, token),
            None => false,
        };
        if committed {
            self.target_page_identity(&id, &token.target_id)
        } else {
            None
        }
    }

    /// Whether a request is on its way.
    pub fn accepts_pending_document_navigation_token(&self, token: &DocumentNavigationToken) -> (
        accepts: bool)
        ensures
            accepts == (self@.token_owner(*token) matches Some((id, target))
                && self@.core.navigation_of(id, target) matches Some(navigation) && holds(
                navigation.pending,
                *token,
            )),
    {
        match self.target_holder(token.target_id.as_str()) {
            Some(id) => match self.core.navigation(id.as_str(), token.target_id.as_str()) {
                Some(navigation) => is_held(&navigation.pending, token),
                None => false,
            },
            None => false,
        }
    }

    /// Whether a request of a Target is on its way.
    pub fn has_pending_document_navigation_for_target_id(&self, target_id: &str) -> (pending: bool)
        ensures
            pending == (self@.target_holder(target_id@) matches Some(id)
                && self@.core.navigation_of(id@, target_id@) matches Some(navigation)
                && navigation.pending is Some),
    {
        match self.target_holder(target_id) {
            Some(id) => match self.core.navigation(id.as_str(), target_id) {
                Some(navigation) => navigation.pending.is_some(),
                None => false,
            },
            None => false,
        }
    }

    /// Whether a request of the Target that a session speaks of is on its way.
    pub fn has_pending_document_navigation_for_session_owner(&self, session_id: Option<&str>) -> (
        pending: bool)
        ensures
            pending == self@.navigation_pending(text::opt_str_chars(session_id)),
    {
        match self.session_navigation(session_id) {
            Some(navigation) => navigation.pending.is_some(),
            None => false,
        }
    }

    /// How far the Document is that a command is addressed to. A named Target
    /// counts before the session.
    pub fn devtools_context_document_navigation_state(&self, context: &DevToolsCommandContext) -> (
        state: DevToolsDocumentNavigationState)
        ensures
            state == self@.addressed_state(*context),
    {
        if let Some(target_id) = &context.target_id {
            return match self.target_holder(target_id.as_str()) {
                Some(id) => match self.core.navigation(id.as_str(), target_id.as_str()) {
                    Some(navigation) => navigation.document_state(),
                    None => DevToolsDocumentNavigationState::AwaitingCommit,
                },
                None => DevToolsDocumentNavigationState::Unavailable,
            };
        }
        let session_id = text::opt_as_str(&context.session_id);
        if self.target_page_owner_key_for_session(session_id).is_none() {
            return DevToolsDocumentNavigationState::Unavailable;
        }
        match self.session_navigation(session_id) {
            Some(navigation) => navigation.document_state(),
            None => DevToolsDocumentNavigationState::AwaitingCommit,
        }
    }

    /// Whether a request of the Target that a session speaks of is on its way.
    pub fn accepts_pending_document_navigation_for_session_owner(
        &self,
        session_id: Option<&str>,
        token: &DocumentNavigationToken,
    ) -> (accepts: bool)
        ensures
            accepts == (self@.speaks_of(text::opt_str_chars(session_id), *token) && (
            self@.session_navigation(text::opt_str_chars(session_id)) matches Some(navigation)
                && holds(navigation.pending, *token))),
    {
        self.speaks_of(session_id, token) && match self.session_navigation(session_id) {
            Some(navigation) => is_held(&navigation.pending, token),
            None => false,
        }
    }

    /// Whether the body of a request may still complete.
    pub fn accepts_document_body_completion_for_session_owner(
        &self,
        session_id: Option<&str>,
        token: &DocumentNavigationToken,
    ) -> (accepts: bool)
        ensures
            accepts == (self@.speaks_of(text::opt_str_chars(session_id), *token) && (
            self@.session_navigation(text::opt_str_chars(session_id)) matches Some(navigation)
                && holds(navigation.body, *token))),
    {
        self.speaks_of(session_id, token) && match self.session_navigation(session_id) {
            Some(navigation) => is_held(&navigation.body, token),
            None => false,
        }
    }

    /// Whether the Document that a session speaks of came from a request.
    pub fn accepts_committed_document_navigation_for_session_owner(
        &self,
        session_id: Option<&str>,
        token: &DocumentNavigationToken,
    ) -> (accepts: bool)
        ensures
            accepts == (self@.speaks_of(text::opt_str_chars(session_id), *token) && (
            self@.session_navigation(text::opt_str_chars(session_id)) matches Some(navigation)
                && holds(navigation.committed, *token))),
    {
        self.speaks_of(session_id, token) && match self.session_navigation(session_id) {
            Some(navigation) => is_held(&navigation.committed, token),
            None => false,
        }
    }

    /// Whether the Document that a session speaks of can be reached now.
    pub fn ensure_document_accessible_for_session_owner(&self, session_id: Option<&str>) -> (
        accessible: Result<(), DocumentAccessError>)
        ensures
            accessible == (if self@.navigation_pending(text::opt_str_chars(session_id)) {
                Err::<(), DocumentAccessError>(DocumentAccessError::NavigationChangingDocument)
            } else {
                Ok(())
            }),
    {
        if self.has_pending_document_navigation_for_session_owner(session_id) {
            return Err(DocumentAccessError::NavigationChangingDocument);
        }
        Ok(())
    }

    /// The loader of the Document that a session speaks of.
    pub fn current_document_loader_id_for_session_owner(&self, session_id: Option<&str>) -> (
        loader_id: Option<String>)
        ensures
            loader_id == (match self@.session_navigation(text::opt_str_chars(session_id)) {
                Some(navigation) => navigation.current_loader_id,
                None => None,
            }),
    {
        match self.session_navigation(session_id) {
            Some(navigation) => copy_owned(&navigation.current_loader_id),
            None => None,
        }
    }

    /// The loader of the request that the Document came from.
    pub fn committed_document_loader_id_for_session_owner(&self, session_id: Option<&str>) -> (
        loader_id: Option<String>)
        ensures
            loader_id == (match self@.session_navigation(text::opt_str_chars(session_id)) {
                Some(navigation) => match navigation.committed {
                    Some(token) => Some(token.loader_id),
                    None => None,
                },
                None => None,
            }),
    {
        match self.session_navigation(session_id) {
            Some(navigation) => match &navigation.committed {
                Some(token) => Some(token.loader_id.clone()),
                None => None,
            },
            None => None,
        }
    }

    /// The Page that a command may enter. While a request is on its way, the
    /// command waits for the Page that it brings.
    pub fn loaded_page_for_protocol_access(&self, session_id: Option<&str>) -> (page: Result<
        u64,
        DocumentAccessError,
    >)
        ensures
            page == (if self@.navigation_pending(text::opt_str_chars(session_id)) {
                Err::<u64, DocumentAccessError>(DocumentAccessError::NavigationChangingDocument)
            } else {
                interruptible_page(self@, text::opt_str_chars(session_id))
            }),
    {
        match self.ensure_document_accessible_for_session_owner(session_id) {
            Ok(()) => self.loaded_page_for_interruptible_protocol_access(session_id),
            Err(error) => Err(error),
        }
    }

    /// The Page that is attached, also while a request is on its way.
    pub fn loaded_page_for_interruptible_protocol_access(&self, session_id: Option<&str>) -> (page:
        Result<u64, DocumentAccessError>)
        ensures
            page == interruptible_page(self@, text::opt_str_chars(session_id)),
    {
        match self.session_place(session_id) {
            Some(place) => match self.slot_at(place).loaded_page {
                Some(page) => Ok(page),
                None => Err(DocumentAccessError::NoDocumentLoaded),
            },
            None => Err(DocumentAccessError::NoSlot),
        }
    }

    /// Checks that a request can be started, before Browser Core is asked, and
    /// says for which Target.
    pub fn prepare_document_navigation(&self, session_id: Option<&str>) -> (owner: Option<
        BrowserPageOwnerKey,
    >)
        ensures
            owner == (if self@.session_place(text::opt_str_chars(session_id)) is Some {
                self@.session_owner(text::opt_str_chars(session_id))
            } else {
                None
            }),
    {
        if self.session_place(session_id).is_none() {
            return None;
        }
        self.target_page_owner_key_for_session(session_id)
    }

    /// Starts a request, given the one that Browser Core accepted.
    pub fn start_document_navigation_for_session_owner_with_trace(
        &mut self,
        session_id: Option<&str>,
        answer: Option<CoreCommit<DocumentNavigationToken>>,
    ) -> (started: Option<DocumentNavigationToken>)
        requires
            old(self).wf(),
        ensures
            final(self).wf(),
            (final(self)@, started) == start(old(self)@, text::opt_str_chars(session_id), answer),
    {
        let ghost before = self@;
        if self.target_page_owner_key_for_session(session_id).is_none() {
            return None;
        }
        let place = match self.session_place(session_id) {
            Some(place) => place,
            None => {
                return None;
            },
        };
        let commit = match answer {
            Some(commit) => commit,
            None => {
                return None;
            },
        };
        self.core = commit.core;
        self.set_pending(place, Some(commit.outcome.copy()));
        assert(self@ =~= start(before, text::opt_str_chars(session_id), answer).0);
        Some(commit.outcome)
    }

    /// Starts a request, given the one that Browser Core accepted, and claims
    /// its admission. An admission that cannot be claimed does not undo it.
    pub fn start_document_navigation_for_session_owner(
        &mut self,
        session_id: Option<&str>,
        answer: Option<CoreCommit<DocumentNavigationToken>>,
    ) -> (started: Option<DocumentNavigationToken>)
        requires
            old(self).wf(),
        ensures
            final(self).wf(),
            started == start(old(self)@, text::opt_str_chars(session_id), answer).1,
            ({
                let model = start(old(self)@, text::opt_str_chars(session_id), answer).0;
                match started {
                    Some(navigation) => final(self)@ == (ConnectionModel {
                        facts: model::claim_fact(
                            model.facts,
                            FactClaim::NavigationAdmission { navigation },
                        ).model,
                        ..model
                    }),
                    None => final(self)@ == model,
                }
            }),
    {
        match self.start_document_navigation_for_session_owner_with_trace(session_id, answer) {
            Some(navigation) => {
                let _ = self.facts.take_navigation_admission_fact(&navigation);
                Some(navigation)
            },
            None => None,
        }
    }

    fn set_pending(
        &mut self,
        place: StagedPhysicalPageResidenceProjection,
        pending: Option<DocumentNavigationToken>,
    )
        requires
            old(self).wf(),
            old(self)@.has_slot(place),
        ensures
            final(self).wf(),
            final(self)@ == old(self)@.with_pending(place, pending),
    {
        let mut context = self.take_context_at(place.context);
        context.set_pending(place.target, pending);
        self.restore_physical_browser_context_after_target_projection(
            targets::StagedPhysicalBrowserContext { slot: place.context, browser_context: context },
        );
    }

    /// Fails a request of the Target that a session speaks of. Browser Core
    /// answers where it ended exactly that request.
    pub fn fail_document_navigation_for_session_owner_if_matches(
        &mut self,
        session_id: Option<&str>,
        token: &DocumentNavigationToken,
        failure: &BrowserNavigationFailure,
        answer: Option<CoreCommit<()>>,
    ) -> (announced: bool)
        requires
            old(self).wf(),
        ensures
            final(self).wf(),
            (final(self)@, announced) == end(
                old(self)@,
                text::opt_str_chars(session_id),
                *token,
                FactClaim::NavigationFailure { navigation: *token, failure: *failure },
                answer,
            ),
    {
        if !self.speaks_of(session_id, token) {
            return false;
        }
        match answer {
            Some(commit) => {
                self.core = commit.core;
                self.facts.take_navigation_failure_fact(token, failure).is_ok()
            },
            None => false,
        }
    }

    /// Turns a request of the Target that a session speaks of into a download.
    /// Browser Core answers where it turned exactly that request.
    pub fn convert_document_navigation_to_download_for_session_owner_if_matches(
        &mut self,
        session_id: Option<&str>,
        token: &DocumentNavigationToken,
        answer: Option<CoreCommit<()>>,
    ) -> (announced: bool)
        requires
            old(self).wf(),
        ensures
            final(self).wf(),
            (final(self)@, announced) == end(
                old(self)@,
                text::opt_str_chars(session_id),
                *token,
                FactClaim::NavigationDownload { navigation: *token },
                answer,
            ),
    {
        if !self.speaks_of(session_id, token) {
            return false;
        }
        match answer {
            Some(commit) => {
                self.core = commit.core;
                self.facts.take_navigation_download_fact(token).is_ok()
            },
            None => false,
        }
    }

    /// Forgets what the renderer was told of a request that has ended, and
    /// drops its document resource. Browser Core's requests are not touched,
    /// and neither is a later request.
    pub fn clear_document_navigation_protocol_tail_for_session_owner_if_loader_matches(
        &mut self,
        session_id: Option<&String>,
        loader_id: &String,
    )
        requires
            old(self).wf(),
        ensures
            final(self).wf(),
            final(self)@ == clear_tail(
                old(self)@,
                match session_id {
                    Some(session_id) => Some(*session_id),
                    None => None,
                },
                *loader_id,
            ),
    {
        let ghost before = self@;
        let session = match session_id {
            Some(session_id) => Some(session_id.as_str()),
            None => None,
        };
        if let Some(place) = self.session_place(session) {
            let matches = match &self.slot_at(place).pending_navigation {
                Some(pending) => same_text(pending.loader_id.as_str(), loader_id.as_str()),
                None => false,
            };
            if matches {
                self.set_pending(place, None);
            }
        }
        let session_copy = match session_id {
            Some(session_id) => Some(session_id.clone()),
            None => None,
        };
        self.effects.push(
            ConnectionEffect::DiscardUncommittedDocument {
                session_id: session_copy,
                loader_id: loader_id.clone(),
            },
        );
        assert(self@ =~= clear_tail(before, session_copy, *loader_id));
    }

    /// The attachment of the Document that a session speaks of, while its
    /// request is the one that Browser Core committed.
    pub fn committed_renderer_document_binding_for_session_owner(
        &self,
        session_id: Option<&str>,
    ) -> (binding: Option<&CommittedRendererDocumentBinding>)
        ensures
            match binding {
                Some(binding) => self@.current_binding(text::opt_str_chars(session_id)) == Some(
                    *binding,
                ),
                None => self@.current_binding(text::opt_str_chars(session_id)) is None,
            },
    {
        if self.target_page_owner_key_for_session(session_id).is_none() {
            return None;
        }
        let place = match self.session_place(session_id) {
            Some(place) => place,
            None => {
                return None;
            },
        };
        let binding = match &self.slot_at(place).binding {
            Some(binding) => binding,
            None => {
                return None;
            },
        };
        let current = match &binding.navigation {
            Some(token) => match self.session_navigation(session_id) {
                Some(navigation) => is_held(&navigation.committed, token),
                None => false,
            },
            None => true,
        };
        if current {
            Some(binding)
        } else {
            None
        }
    }

    /// Whether an attachment is the current one of the Document that a session
    /// speaks of.
    pub fn renderer_document_binding_is_current_for_session_owner(
        &self,
        session_id: Option<&str>,
        binding: &CommittedRendererDocumentBinding,
    ) -> (current: bool)
        ensures
            current == (self@.current_binding(text::opt_str_chars(session_id)) matches Some(
                committed,
            ) && committed.same(binding)),
    {
        match self.committed_renderer_document_binding_for_session_owner(session_id) {
            Some(committed) => committed.is_same(binding),
            None => false,
        }
    }
}

/// The Page that is attached to the slot that a session speaks of.
pub open spec fn interruptible_page(model: ConnectionModel, session: Option<Seq<char>>) -> Result<
    u64,
    DocumentAccessError,
> {
    match model.session_place(session) {
        Some(place) => match model.context_at(place.context).slot_at(place.target).loaded_page {
            Some(page) => Ok(page),
            None => Err(DocumentAccessError::NoDocumentLoaded),
        },
        None => Err(DocumentAccessError::NoSlot),
    }
}

/// The connection once the tail of a request was forgotten.
pub open spec fn clear_tail(
    model: ConnectionModel,
    session: Option<String>,
    loader_id: String,
) -> ConnectionModel {
    let cleared = match model.session_place(text::opt_chars(session)) {
        Some(place) => match model.context_at(place.context).slot_at(
            place.target,
        ).pending_navigation {
            Some(pending) => if pending.loader_id@ == loader_id@ {
                model.with_pending(place, None)
            } else {
                model
            },
            None => model,
        },
        None => model,
    };
    ConnectionModel {
        effects: cleared.effects.push(
            ConnectionEffect::DiscardUncommittedDocument { session_id: session, loader_id },
        ),
        ..cleared
    }
}

} // verus!
