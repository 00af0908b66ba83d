//! The routing state of one browser's frontends.
use vstd::prelude::*;

use crate::command;
use crate::command::ParsedCdpCommand;
use crate::json;
use crate::json::{
    json_as_str, json_empty_object, json_from_i32, json_from_str, json_from_u64, json_get,
    json_is_null, json_member_text, json_member_u64, json_nested_text, json_null, json_set,
    json_unset,
};
use crate::routing::laws;
use crate::routing::model;
use crate::routing::model::{
    CdpSessionFrontendKind, CdpSocketSink, FrontendModel, PendingModel, PreparedModel,
    RoutingModel, SessionModel, SessionNode, TargetReference,
};
use crate::tables;
use crate::tables::{IdTable, NameTable};
use crate::text;
use crate::text::{copy_opt_text, opt_as_str, same_opt_text, same_text};

verus! {

struct CdpCommandFrontend {
    frontend_id: u64,
    dispatch_session_id: Option<String>,
    client_session_id: Option<String>,
}

struct PendingCommandRoute {
    frontend: CdpCommandFrontend,
    client_command_id: u64,
    method: String,
    attach_target_id: Option<String>,
}

impl View for PendingCommandRoute {
    type V = PendingModel;

    closed spec fn view(&self) -> PendingModel {
        PendingModel {
            frontend_id: self.frontend.frontend_id,
            dispatch_session_id: text::opt_chars(self.frontend.dispatch_session_id),
            client_session_id: text::opt_chars(self.frontend.client_session_id),
            client_command_id: self.client_command_id,
            method: self.method@,
            attach_target_id: text::opt_chars(self.attach_target_id),
        }
    }
}

struct CdpSessionFrontendRoute {
    kind: CdpSessionFrontendKind,
    target_id: Option<String>,
    base_session_id: String,
    sink: CdpSocketSink,
}

impl View for CdpSessionFrontendRoute {
    type V = FrontendModel;

    closed spec fn view(&self) -> FrontendModel {
        FrontendModel {
            kind: self.kind,
            target_id: text::opt_chars(self.target_id),
            base_session_id: self.base_session_id@,
            sink: self.sink,
        }
    }
}

enum FrontendSessionKind {
    Base,
    Child { parent_session_id: Option<String>, target_id: Option<String> },
}

struct FrontendSessionRoute {
    frontend_id: u64,
    kind: FrontendSessionKind,
}

impl View for FrontendSessionRoute {
    type V = SessionModel;

    closed spec fn view(&self) -> SessionModel {
        SessionModel {
            frontend_id: self.frontend_id,
            node: match self.kind {
                FrontendSessionKind::Base => SessionNode::Base,
                FrontendSessionKind::Child { parent_session_id, target_id } => SessionNode::Child {
                    parent: text::opt_chars(parent_session_id),
                    target: text::opt_chars(target_id),
                },
            },
        }
    }
}

impl FrontendSessionRoute {
    fn is_base(&self) -> (is_base: bool)
        ensures
            is_base == (self@.node is Base),
    {
        match &self.kind {
            FrontendSessionKind::Base => true,
            FrontendSessionKind::Child { .. } => false,
        }
    }

    /// Whether this is a child session directly below `parent`.
    fn is_below(&self, parent: Option<&str>) -> (below: bool)
        ensures
            below == (self@.node is Child && self@.node->parent == text::opt_str_chars(parent)),
    {
        match &self.kind {
            FrontendSessionKind::Base => false,
            FrontendSessionKind::Child { parent_session_id, .. } => same_opt_text(
                opt_as_str(parent_session_id),
                parent,
            ),
        }
    }

    /// Whether this is a child session that debugs `target`.
    fn debugs(&self, target: &str) -> (debugs: bool)
        ensures
            debugs == (self@.node is Child && self@.node->target == Some(target@)),
    {
        match &self.kind {
            FrontendSessionKind::Base => false,
            FrontendSessionKind::Child { target_id, .. } => same_opt_text(
                opt_as_str(target_id),
                Some(target),
            ),
        }
    }

    /// The session above a child session.
    fn parent(&self) -> (parent: Option<String>)
        ensures
            self@.node is Child ==> text::opt_chars(parent) == self@.node->parent,
            self@.node is Base ==> parent is None,
    {
        match &self.kind {
            FrontendSessionKind::Base => None,
            FrontendSessionKind::Child { parent_session_id, .. } => copy_opt_text(
                opt_as_str(parent_session_id),
            ),
        }
    }
}

/// What a frontend's command turns into.
pub enum CdpPreparedFrontendCommand {
    /// A command for the shared connection.
    Command(ParsedCdpCommand),
    /// An answer that needs no dispatch.
    ImmediateResponse { frontend_id: u64, message: serde_json::Value },
}

impl View for CdpPreparedFrontendCommand {
    type V = PreparedModel;

    open spec fn view(&self) -> PreparedModel {
        match *self {
            CdpPreparedFrontendCommand::Command(command) => PreparedModel::Command(command@),
            CdpPreparedFrontendCommand::ImmediateResponse { frontend_id, message } => {
                PreparedModel::ImmediateResponse { frontend_id, message: json::json_tree(message) }
            },
        }
    }
}

/// What an optional prepared command means.
pub open spec fn prepared_view(prepared: Option<CdpPreparedFrontendCommand>) -> Option<
    PreparedModel,
> {
    match prepared {
        Some(prepared) => Some(prepared@),
        None => None,
    }
}

/// A frontend that a message goes to.
#[derive(Clone, Copy, Debug, PartialEq, Eq, Structural)]
pub struct CdpRoutedFrontend {
    pub frontend_id: u64,
    pub sink: CdpSocketSink,
}

impl CdpRoutedFrontend {
    pub fn frontend_id(&self) -> (frontend_id: u64)
        ensures
            frontend_id == self.frontend_id,
    {
        self.frontend_id
    }
}

/// A frontend that cannot be registered.
#[derive(Clone, Copy, Debug, PartialEq, Eq, Structural)]
pub enum RegisterFrontendError {
    FrontendIdTaken,
    SessionTaken,
}

impl RegisterFrontendError {
    pub fn message(&self) -> (message: &'static str)
        ensures
            message@ == (match *self {
                RegisterFrontendError::FrontendIdTaken => "CDP frontend id is already registered"@,
                RegisterFrontendError::SessionTaken => "CDP frontend session is already registered"@,
            }),
    {
        match self {
            RegisterFrontendError::FrontendIdTaken => "CDP frontend id is already registered",
            RegisterFrontendError::SessionTaken => "CDP frontend session is already registered",
        }
    }
}

/// Why a `Target` command's session reference was refused.
struct CdpTargetSessionReferenceError {
    code: i32,
    message: &'static str,
}

spec fn reference_view(
    reference: Result<Option<String>, CdpTargetSessionReferenceError>,
) -> TargetReference {
    match reference {
        Ok(None) => TargetReference::Unchanged,
        Ok(Some(session)) => TargetReference::Session(session@),
        Err(error) => TargetReference::Refused { code: error.code as int, message: error.message@ },
    }
}

/// The frontends of one browser, their sessions and their commands on the way.
///
/// The shared connection serves all frontends, so neither a client's command
/// number nor its session is enough to tell one frontend from another.
pub struct CdpFrontendRoutingState {
    next_internal_command_id: u64,
    pending_commands: IdTable<PendingCommandRoute>,
    frontends: IdTable<CdpSessionFrontendRoute>,
    sessions: NameTable<FrontendSessionRoute>,
    private_sessions: NameTable<()>,
    closing: Vec<CdpSocketSink>,
}

impl View for CdpFrontendRoutingState {
    type V = RoutingModel;

    closed spec fn view(&self) -> RoutingModel {
        RoutingModel {
            next_internal_command_id: self.next_internal_command_id,
            pending: self.pending_commands@,
            frontends: self.frontends@,
            sessions: self.sessions@,
            private_sessions: self.private_sessions@.dom(),
            closing: self.closing@,
        }
    }
}

impl CdpFrontendRoutingState {
    spec fn tables_wf(&self) -> bool {
        &&& self.pending_commands.wf()
        &&& self.frontends.wf()
        &&& self.sessions.wf()
        &&& self.private_sessions.wf()
    }

    /// The tables are well formed and the state keeps its invariant.
    pub closed spec fn wf(&self) -> bool {
        self.tables_wf() && model::routing_inv(self@)
    }

    /// How many commands are on their way.
    pub open spec fn pending_count(&self) -> nat {
        self@.pending.dom().len()
    }

    /// A state keeps its invariant, and there is an end to its commands.
    pub proof fn lemma_wf(&self)
        requires
            self.wf(),
        ensures
            model::routing_inv(self@),
            self@.pending.dom().finite(),
    {
        self.pending_commands.lemma_count();
    }
}

impl Default for CdpFrontendRoutingState {
    fn default() -> (state: Self)
        ensures
            state.wf(),
            state@ == model::initial(),
            state.pending_count() == 0,
    {
        let state = CdpFrontendRoutingState {
            next_internal_command_id: 0,
            pending_commands: IdTable::new(),
            frontends: IdTable::new(),
            sessions: NameTable::new(),
            private_sessions: NameTable::new(),
            closing: Vec::new(),
        };
        assert(state@ =~= model::initial());
        state
    }
}

/// The answer that refuses a command.
fn cdp_error_response(id: Option<u64>, code: i32, message: &str) -> (response: serde_json::Value)
    ensures
        json::json_tree(response) == model::error_response(id, code as int, message@),
{
    let mut error = json_empty_object();
    json_set(&mut error, "code", json_from_i32(code));
    json_set(&mut error, "message", json_from_str(message));
    let mut response = json_empty_object();
    let id = match id {
        Some(id) => json_from_u64(id),
        None => json_null(),
    };
    json_set(&mut response, "id", id);
    json_set(&mut response, "error", error);
    response
}

/// Puts a message under another top-level session.
fn set_top_level_session_id(message: &mut serde_json::Value, session_id: Option<&str>)
    requires
        json::json_tree(*old(message)) is Members,
    ensures
        json::json_tree(*final(message)) == model::with_session(
            json::json_tree(*old(message)),
            text::opt_str_chars(session_id),
        ),
{
    match session_id {
        Some(session_id) => json_set(message, "sessionId", json_from_str(session_id)),
        None => json_unset(message, "sessionId"),
    }
}

impl CdpFrontendRoutingState {
    fn resolve_target_session_reference(
        &self,
        frontend_id: u64,
        dispatch_session_id: Option<&str>,
        method: &str,
        params: Option<&serde_json::Value>,
    ) -> (reference: Result<Option<String>, CdpTargetSessionReferenceError>)
        requires
            self.tables_wf(),
        ensures
            reference_view(reference) == model::target_reference(
                self@,
                frontend_id,
                text::opt_str_chars(dispatch_session_id),
                method@,
                match params {
                    Some(params) => Some(json::json_tree(*params)),
                    None => None,
                },
            ),
    {
        if !same_text(method, "Target.detachFromTarget") && !same_text(
            method,
            "Target.sendMessageToTarget",
        ) {
            return Ok(None);
        }
        let params = match params {
            Some(params) => params,
            None => {
                return Ok(None);
            },
        };
        if let Some(session) = json_get(params, "sessionId") {
            if let Some(session_id) = json_as_str(session) {
                let owned_direct_child = match self.sessions.get(session_id) {
                    Some(session) => session.frontend_id == frontend_id && session.is_below(
                        dispatch_session_id,
                    ),
                    None => false,
                };
                return if owned_direct_child {
                    Ok(None)
                } else {
                    Err(
                        CdpTargetSessionReferenceError {
                            code: -32602,
                            message: "No session with given id",
                        },
                    )
                };
            }
            if !json_is_null(session) {
                return Ok(None);
            }
        }
        match json_member_text(params, "targetId") {
            Some(target_id) => self.resolve_session_by_target(
                frontend_id,
                dispatch_session_id,
                target_id.as_str(),
            ),
            None => Ok(None),
        }
    }

    /// The one direct child session that debugs `target_id`.
    fn resolve_session_by_target(
        &self,
        frontend_id: u64,
        dispatch_session_id: Option<&str>,
        target_id: &str,
    ) -> (reference: Result<Option<String>, CdpTargetSessionReferenceError>)
        requires
            self.tables_wf(),
        ensures
            reference_view(reference) == model::reference_by_target(
                self@,
                frontend_id,
                text::opt_str_chars(dispatch_session_id),
                Some(target_id@),
            ),
    {
        let ghost dispatch = text::opt_str_chars(dispatch_session_id);
        let ghost target = target_id@;
        proof {
            self.sessions.lemma_entries();
        }
        let mut found: Option<String> = None;
        let mut index: usize = 0;
        while index < self.sessions.len()
            invariant
                self.tables_wf(),
                index <= self.sessions.count(),
                dispatch == text::opt_str_chars(dispatch_session_id),
                target == target_id@,
                forall|at: int|
                    0 <= at < index && model::direct_child_of_target(self@, frontend_id, dispatch, target, #[trigger] self.sessions.entry_key(at)) ==> (
                    found matches Some(session) && session@ == self.sessions.entry_key(at)),
                found matches Some(session) ==> model::direct_child_of_target(self@, frontend_id, dispatch, target, session@) && exists|at: int|
                    0 <= at < index && #[trigger] self.sessions.entry_key(at) == session@,
            decreases self.sessions.count() - index,
        {
            proof {
                self.sessions.lemma_entries();
            }
            let session = self.sessions.value_at(index);
            let key = self.sessions.key_at(index);
            if session.frontend_id == frontend_id && session.is_below(dispatch_session_id)
                && session.debugs(target_id) {
                assert(model::direct_child_of_target(self@, frontend_id, dispatch, target, key@));
                if let Some(first) = &found {
                    assert(model::direct_child_of_target(self@, frontend_id, dispatch, target, first@) && model::direct_child_of_target(self@, frontend_id, dispatch, target, key@) && first@ != key@);
                    return Err(
                        CdpTargetSessionReferenceError {
                            code: -32000,
                            message: "Multiple sessions attached, specify id.",
                        },
                    );
                }
                found = Some(key.to_owned());
            } else {
                assert(!model::direct_child_of_target(self@, frontend_id, dispatch, target, key@));
            }
            index = index + 1;
        }
        proof {
            self.sessions.lemma_entries();
            assert forall|session: Seq<char>| #[trigger] model::direct_child_of_target(self@, frontend_id, dispatch, target, session) implies (
            found matches Some(first) && first@ == session) by {
                assert(self.sessions@.contains_key(session));
            }
        }
        match found {
            Some(session_id) => {
                assert(model::direct_child_of_target(self@, frontend_id, dispatch, target, session_id@));
                Ok(Some(session_id))
            },
            None => Err(
                CdpTargetSessionReferenceError {
                    code: -32602,
                    message: "No session for given target id",
                },
            ),
        }
    }

    fn allocate_internal_command_id(&mut self) -> (id: u64)
        requires
            old(self).tables_wf(),
            old(self).pending_count() < usize::MAX,
        ensures
            final(self).tables_wf(),
            final(self).pending_count() == old(self).pending_count(),
            id == model::fresh_id(old(self)@),
            !model::taken(old(self)@, id),
            final(self)@ == (RoutingModel { next_internal_command_id: id, ..old(self)@ }),
    {
        let ghost before = self@;
        let ghost mut steps: int = 0;
        proof {
            self.pending_commands.lemma_count();
        }
        loop
            invariant
                self.tables_wf(),
                self.pending_count() == old(self).pending_count(),
                self.pending_count() < usize::MAX,
                before == old(self)@,
                before.pending.dom().finite(),
                before.pending.dom().len() == self.pending_count(),
                self@ == (RoutingModel {
                    next_internal_command_id: self.next_internal_command_id,
                    ..before
                }),
                0 <= steps < 0x1_0000_0000_0000_0000,
                self.next_internal_command_id == model::wrapped(
                    before.next_internal_command_id,
                    steps,
                ),
                forall|earlier: int|
                    1 <= earlier <= steps ==> model::taken(
                        before,
                        #[trigger] model::wrapped(before.next_internal_command_id, earlier),
                    ),
            decreases 0x1_0000_0000_0000_0000 - steps,
        {
            self.next_internal_command_id = self.next_internal_command_id.wrapping_add(1);
            proof {
                steps = steps + 1;
            }
            if self.next_internal_command_id != 0 && !self.pending_commands.contains(
                self.next_internal_command_id,
            ) {
                proof {
                    assert(model::fresh_after(before, steps));
                    laws::lemma_fresh_unique(before, steps);
                }
                return self.next_internal_command_id;
            }
            proof {
                if steps == 0x1_0000_0000_0000_0000 {
                    laws::lemma_numbers_left(before);
                }
            }
        }
    }

    /// Registers a frontend that debugs the browser.
    pub fn register_browser_frontend(
        &mut self,
        frontend_id: u64,
        session_id: String,
        sink: CdpSocketSink,
    ) -> (registered: Result<(), RegisterFrontendError>)
        requires
            old(self).wf(),
        ensures
            final(self).wf(),
            final(self).pending_count() == old(self).pending_count(),
            registration_result(old(self)@, frontend_id, session_id@) == registered,
            registered is Err ==> final(self)@ == old(self)@,
            registered is Ok ==> final(self)@ == (RoutingModel {
                private_sessions: old(self)@.private_sessions.remove(session_id@),
                ..model::with_frontend(
                    old(self)@,
                    frontend_id,
                    FrontendModel {
                        kind: CdpSessionFrontendKind::Browser,
                        target_id: None,
                        base_session_id: session_id@,
                        sink,
                    },
                )
            }),
    {
        let listed = session_id.clone();
        match self.register_session_frontend(
            frontend_id,
            CdpSessionFrontendKind::Browser,
            None,
            session_id,
            sink,
        ) {
            Ok(()) => {
                let ghost registered = self@;
                let _ = self.private_sessions.remove(listed.as_str());
                proof {
                    assert(self@.private_sessions =~= registered.private_sessions.remove(listed@));
                    laws::lemma_same_routes_inv(registered, self@);
                }
                Ok(())
            },
            Err(error) => Err(error),
        }
    }

    /// Registers a frontend that debugs the page `target_id`.
    pub fn register_page_frontend(
        &mut self,
        frontend_id: u64,
        target_id: String,
        session_id: String,
        sink: CdpSocketSink,
    ) -> (registered: Result<(), RegisterFrontendError>)
        requires
            old(self).wf(),
        ensures
            final(self).wf(),
            final(self).pending_count() == old(self).pending_count(),
            registration_result(old(self)@, frontend_id, session_id@) == registered,
            registered is Err ==> final(self)@ == old(self)@,
            registered is Ok ==> final(self)@ == model::with_frontend(
                old(self)@,
                frontend_id,
                FrontendModel {
                    kind: CdpSessionFrontendKind::Page,
                    target_id: Some(target_id@),
                    base_session_id: session_id@,
                    sink,
                },
            ),
    {
        self.register_session_frontend(
            frontend_id,
            CdpSessionFrontendKind::Page,
            Some(target_id),
            session_id,
            sink,
        )
    }

    fn register_session_frontend(
        &mut self,
        frontend_id: u64,
        kind: CdpSessionFrontendKind,
        target_id: Option<String>,
        session_id: String,
        sink: CdpSocketSink,
    ) -> (registered: Result<(), RegisterFrontendError>)
        requires
            old(self).wf(),
        ensures
            final(self).wf(),
            final(self).pending_count() == old(self).pending_count(),
            registration_result(old(self)@, frontend_id, session_id@) == registered,
            registered is Err ==> final(self)@ == old(self)@,
            registered is Ok ==> final(self)@ == model::with_frontend(
                old(self)@,
                frontend_id,
                FrontendModel {
                    kind,
                    target_id: text::opt_chars(target_id),
                    base_session_id: session_id@,
                    sink,
                },
            ),
    {
        if self.frontends.contains(frontend_id) {
            return Err(RegisterFrontendError::FrontendIdTaken);
        }
        if self.sessions.contains(session_id.as_str()) {
            return Err(RegisterFrontendError::SessionTaken);
        }
        let ghost frontend = FrontendModel {
            kind,
            target_id: text::opt_chars(target_id),
            base_session_id: session_id@,
            sink,
        };
        proof {
            laws::law_register_keeps_inv(self@, frontend_id, frontend);
        }
        self.sessions.insert(
            session_id.clone(),
            FrontendSessionRoute { frontend_id, kind: FrontendSessionKind::Base },
        );
        self.frontends.insert(
            frontend_id,
            CdpSessionFrontendRoute { kind, target_id, base_session_id: session_id, sink },
        );
        Ok(())
    }

    /// Releases a frontend that debugs the browser, and returns the session
    /// that its commands went to.
    pub fn unregister_browser_frontend(&mut self, frontend_id: u64) -> (session_id: Option<String>)
        requires
            old(self).wf(),
        ensures
            final(self).wf(),
            released(
                old(self)@,
                final(self)@,
                frontend_id,
                CdpSessionFrontendKind::Browser,
                text::opt_chars(session_id),
            ),
            final(self).pending_count() <= old(self).pending_count(),
    {
        self.unregister_session_frontend(frontend_id, CdpSessionFrontendKind::Browser)
    }

    /// Releases a frontend that debugs a page, and returns the session that
    /// its commands went to.
    pub fn unregister_page_frontend(&mut self, frontend_id: u64) -> (session_id: Option<String>)
        requires
            old(self).wf(),
        ensures
            final(self).wf(),
            released(
                old(self)@,
                final(self)@,
                frontend_id,
                CdpSessionFrontendKind::Page,
                text::opt_chars(session_id),
            ),
            final(self).pending_count() <= old(self).pending_count(),
    {
        self.unregister_session_frontend(frontend_id, CdpSessionFrontendKind::Page)
    }

    fn unregister_session_frontend(
        &mut self,
        frontend_id: u64,
        expected_kind: CdpSessionFrontendKind,
    ) -> (session_id: Option<String>)
        requires
            old(self).wf(),
        ensures
            final(self).wf(),
            released(
                old(self)@,
                final(self)@,
                frontend_id,
                expected_kind,
                text::opt_chars(session_id),
            ),
            final(self).pending_count() <= old(self).pending_count(),
    {
        match self.frontends.get(frontend_id) {
            Some(route) => {
                if route.kind != expected_kind {
                    return None;
                }
            },
            None => {
                return None;
            },
        }
        let ghost before = self@;
        proof {
            self.lemma_wf();
            laws::law_release_adds_none(before, frontend_id);
            laws::law_unregister_keeps_inv(before, frontend_id);
        }
        match self.frontends.remove(frontend_id) {
            Some(route) => {
                let elsewhere = |session: &FrontendSessionRoute| -> (keep: bool)
                    ensures
                        keep == (session@.frontend_id != frontend_id),
                    { session.frontend_id != frontend_id };
                self.sessions.retain(
                    elsewhere,
                    Ghost(|session: SessionModel| session.frontend_id != frontend_id),
                );
                self.remove_pending_commands_for_frontend(frontend_id);
                self.closing.push(route.sink);
                proof {
                    let after = model::without_frontend(before, frontend_id);
                    assert(self@.sessions =~= after.sessions);
                    assert(self@ =~= after);
                }
                Some(route.base_session_id)
            },
            None => None,
        }
    }

    fn remove_pending_commands_for_frontend(&mut self, frontend_id: u64)
        requires
            old(self).tables_wf(),
        ensures
            final(self).tables_wf(),
            final(self)@ == (RoutingModel {
                pending: tables::kept_entries(
                    old(self)@.pending,
                    |pending: PendingModel| pending.frontend_id != frontend_id,
                ),
                ..old(self)@
            }),
    {
        let ghost before = self@;
        let elsewhere = |pending: &PendingCommandRoute| -> (keep: bool)
            ensures
                keep == (pending@.frontend_id != frontend_id),
            { pending.frontend.frontend_id != frontend_id };
        self.pending_commands.retain(
            elsewhere,
            Ghost(|pending: PendingModel| pending.frontend_id != frontend_id),
        );
        proof {
            assert(self@.pending =~= tables::kept_entries(
                before.pending,
                |pending: PendingModel| pending.frontend_id != frontend_id,
            ));
        }
    }

    /// Keeps the events of `session_id` from every frontend.
    pub fn register_private_session(&mut self, session_id: String)
        requires
            old(self).wf(),
        ensures
            final(self).wf(),
            final(self).pending_count() == old(self).pending_count(),
            final(self)@ == (RoutingModel {
                private_sessions: old(self)@.private_sessions.insert(session_id@),
                ..old(self)@
            }),
    {
        let ghost before = self@;
        let ghost session = session_id@;
        self.private_sessions.insert(session_id, ());
        proof {
            assert(self@.private_sessions =~= before.private_sessions.insert(session));
            laws::lemma_same_routes_inv(before, self@);
        }
    }

    /// The frontend under `frontend_id`.
    pub fn frontend_by_id(&self, frontend_id: u64) -> (frontend: Option<CdpRoutedFrontend>)
        requires
            self.wf(),
        ensures
            frontend == (if self@.frontends.contains_key(frontend_id) {
                Some(
                    CdpRoutedFrontend {
                        frontend_id,
                        sink: self@.frontends[frontend_id].sink,
                    },
                )
            } else {
                None
            }),
    {
        match self.frontends.get(frontend_id) {
            Some(route) => Some(CdpRoutedFrontend { frontend_id, sink: route.sink }),
            None => None,
        }
    }

    /// Takes the sinks that are to be closed once they are flushed.
    pub fn take_closing_sinks(&mut self) -> (sinks: Vec<CdpSocketSink>)
        requires
            old(self).wf(),
        ensures
            final(self).wf(),
            final(self).pending_count() == old(self).pending_count(),
            sinks@ == old(self)@.closing,
            final(self)@ == (RoutingModel { closing: Seq::empty(), ..old(self)@ }),
    {
        let ghost before = self@;
        let mut sinks: Vec<CdpSocketSink> = Vec::new();
        std::mem::swap(&mut sinks, &mut self.closing);
        proof {
            assert(self@ =~= RoutingModel { closing: Seq::empty(), ..before });
            laws::lemma_same_routes_inv(before, self@);
        }
        sinks
    }

    /// How many commands are on their way.
    pub fn pending_command_count(&self) -> (count: usize)
        requires
            self.wf(),
        ensures
            count == self.pending_count(),
    {
        proof {
            self.pending_commands.lemma_count();
        }
        self.pending_commands.len()
    }

    /// Notes a child session of `frontend_id`, unless its parent is not one of
    /// that frontend's sessions or the session belongs elsewhere.
    pub fn register_child_session(
        &mut self,
        frontend_id: u64,
        parent_session_id: Option<&str>,
        child_session_id: &str,
        target_id: Option<&str>,
    )
        requires
            old(self).wf(),
        ensures
            final(self).wf(),
            final(self).pending_count() == old(self).pending_count(),
            final(self)@ == model::with_child(
                old(self)@,
                frontend_id,
                text::opt_str_chars(parent_session_id),
                child_session_id@,
                text::opt_str_chars(target_id),
            ),
    {
        proof {
            laws::law_child_keeps_inv(
                self@,
                frontend_id,
                text::opt_str_chars(parent_session_id),
                child_session_id@,
                text::opt_str_chars(target_id),
            );
        }
        let browser = match self.frontends.get(frontend_id) {
            Some(frontend) => frontend.kind == CdpSessionFrontendKind::Browser,
            None => {
                return ;
            },
        };
        match parent_session_id {
            Some(parent_session_id) => match self.sessions.get(parent_session_id) {
                Some(parent) => {
                    if parent.frontend_id != frontend_id {
                        return ;
                    }
                },
                None => {
                    return ;
                },
            },
            None => {
                if !browser {
                    return ;
                }
            },
        }
        if let Some(existing) = self.sessions.get(child_session_id) {
            if existing.frontend_id != frontend_id || existing.is_base() {
                return ;
            }
        }
        self.sessions.insert(
            child_session_id.to_owned(),
            FrontendSessionRoute {
                frontend_id,
                kind: FrontendSessionKind::Child {
                    parent_session_id: copy_opt_text(parent_session_id),
                    target_id: copy_opt_text(target_id),
                },
            },
        );
    }

    /// Forgets a child session and those below it.
    fn remove_child_session_cascade(&mut self, session_id: &str)
        requires
            old(self).wf(),
        ensures
            final(self).wf(),
            final(self).pending_count() == old(self).pending_count(),
            final(self)@ == model::with_sessions(
                old(self)@,
                model::without_child_cascade(old(self)@.sessions, session_id@),
            ),
    {
        proof {
            laws::law_cascade_keeps_inv(self@, session_id@);
        }
        match self.sessions.get(session_id) {
            Some(session) => {
                if session.is_base() {
                    return ;
                }
            },
            None => {
                return ;
            },
        }
        self.remove_session_descendants(session_id);
        let _ = self.sessions.remove(session_id);
    }

    /// Forgets the sessions below `session_id`.
    fn remove_session_descendants(&mut self, session_id: &str)
        requires
            old(self).tables_wf(),
        ensures
            final(self).tables_wf(),
            final(self).pending_count() == old(self).pending_count(),
            final(self)@ == model::with_sessions(
                old(self)@,
                model::without_descendants(old(self)@.sessions, session_id@),
            ),
    {
        let ghost sessions = self.sessions@;
        let ghost root = session_id@;
        let descendants = self.session_descendants(session_id);
        let mut index: usize = 0;
        while index < descendants.len()
            invariant
                self.tables_wf(),
                self.pending_count() == old(self).pending_count(),
                self@ == model::with_sessions(old(self)@, self.sessions@),
                sessions == old(self)@.sessions,
                index <= descendants@.len(),
                forall|session: Seq<char>| #[trigger]
                    self.sessions@.contains_key(session) ==> sessions.contains_key(session)
                        && self.sessions@[session] == sessions[session],
                forall|session: Seq<char>| #[trigger]
                    sessions.contains_key(session) ==> (self.sessions@.contains_key(session)
                        <==> !(exists|at: int|
                        0 <= at < index && #[trigger] descendants@[at]@ == session)),
            decreases descendants@.len() - index,
        {
            let ghost before = self.sessions@;
            let _ = self.sessions.remove(descendants[index].as_str());
            proof {
                let gone = descendants@[index as int]@;
                assert forall|session: Seq<char>| #[trigger]
                    sessions.contains_key(session) implies (self.sessions@.contains_key(session)
                    <==> !(exists|at: int|
                    0 <= at < index + 1 && #[trigger] descendants@[at]@ == session)) by {
                    if session == gone {
                        assert(descendants@[index as int]@ == session);
                    } else {
                        assert(self.sessions@.contains_key(session) == before.contains_key(
                            session,
                        ));
                    }
                }
            }
            index = index + 1;
        }
        proof {
            let pruned = model::without_descendants(sessions, root);
            assert forall|session: Seq<char>|
                self.sessions@.contains_key(session) == pruned.contains_key(session) by {
                assert(model::descends(sessions, root, session) == model::descends(
                    old(self)@.sessions,
                    session_id@,
                    session,
                ));
            }
            assert(self.sessions@ =~= pruned);
        }
    }

    /// The sessions below `session_id`.
    fn session_descendants(&self, session_id: &str) -> (descendants: Vec<String>)
        requires
            self.tables_wf(),
        ensures
            forall|session: Seq<char>|
                (exists|at: int|
                    0 <= at < descendants@.len() && #[trigger] descendants@[at]@ == session) <==> (
                session != session_id@ && #[trigger] model::descends(
                    self@.sessions,
                    session_id@,
                    session,
                )),
    {
        let ghost sessions = self.sessions@;
        let ghost root = session_id@;
        let mut pending: Vec<String> = Vec::new();
        pending.push(session_id.to_owned());
        let mut descendants: Vec<String> = Vec::new();
        let mut visited: NameTable<()> = NameTable::new();
        visited.insert(session_id.to_owned(), ());
        proof {
            self.sessions.lemma_count();
            assert(pending@[0]@ == root);
        }
        while pending.len() > 0
            invariant
                self.tables_wf(),
                visited.wf(),
                sessions == self.sessions@,
                sessions.dom().finite(),
                root == session_id@,
                visited@.contains_key(root),
                visited_below(sessions, root, visited@.dom()),
                forall|at: int|
                    0 <= at < pending@.len() ==> visited@.contains_key(#[trigger] pending@[at]@),
                listed(descendants@, root, visited@.dom()),
                forall|parent: Seq<char>, child: Seq<char>|
                    visited@.contains_key(parent) && #[trigger] model::child_link(
                        sessions,
                        parent,
                        child,
                    ) && !visited@.contains_key(child) ==> waits(pending@, parent),
            decreases sessions.dom().difference(visited@.dom()).len(), pending@.len(),
        {
            let ghost waiting = pending@;
            let parent_session_id = match pending.pop() {
                Some(parent_session_id) => parent_session_id,
                None => String::new(),
            };
            let ghost parent = parent_session_id@;
            let ghost unvisited = sessions.dom().difference(visited@.dom()).len();
            proof {
                self.sessions.lemma_entries();
                assert(waiting[waiting.len() - 1]@ == parent);
                assert forall|from: Seq<char>, child: Seq<char>|
                    visited@.contains_key(from) && #[trigger] model::child_link(
                        sessions,
                        from,
                        child,
                    ) && !visited@.contains_key(child) implies waits(pending@, from) || from
                    == parent by {
                    let at = choose|at: int|
                        0 <= at < waiting.len() && #[trigger] waiting[at]@ == from;
                    if at < pending@.len() {
                        assert(pending@[at]@ == from);
                    }
                }
            }
            let mut index: usize = 0;
            while index < self.sessions.len()
                invariant
                    self.tables_wf(),
                    visited.wf(),
                    sessions == self.sessions@,
                    sessions.dom().finite(),
                    root == session_id@,
                    parent == parent_session_id@,
                    index <= self.sessions.count(),
                    visited@.contains_key(root),
                    visited@.contains_key(parent),
                    visited_below(sessions, root, visited@.dom()),
                    forall|at: int|
                        0 <= at < pending@.len() ==> visited@.contains_key(
                            #[trigger] pending@[at]@,
                        ),
                    listed(descendants@, root, visited@.dom()),
                    forall|from: Seq<char>, child: Seq<char>|
                        visited@.contains_key(from) && #[trigger] model::child_link(
                            sessions,
                            from,
                            child,
                        ) && !visited@.contains_key(child) ==> waits(pending@, from) || from
                            == parent,
                    forall|at: int|
                        0 <= at < index && model::child_link(
                            sessions,
                            parent,
                            #[trigger] self.sessions.entry_key(at),
                        ) ==> visited@.contains_key(self.sessions.entry_key(at)),
                    sessions.dom().difference(visited@.dom()).len() < unvisited || (
                    sessions.dom().difference(visited@.dom()).len() == unvisited && pending@.len()
                        == waiting.len() - 1),
                decreases self.sessions.count() - index,
            {
                proof {
                    self.sessions.lemma_entries();
                }
                let session = self.sessions.value_at(index);
                let child_session_id = self.sessions.key_at(index);
                let ghost child = child_session_id@;
                if session.is_below(Some(parent_session_id.as_str())) && !visited.contains(
                    child_session_id,
                ) {
                    let ghost seen = visited@.dom();
                    let ghost earlier = pending@;
                    let ghost found = descendants@;
                    visited.insert(child_session_id.to_owned(), ());
                    pending.push(child_session_id.to_owned());
                    descendants.push(child_session_id.to_owned());
                    proof {
                        assert(model::child_link(sessions, parent, child));
                        laws::lemma_descent_step(sessions, root, parent, child);
                        assert(visited@.dom() =~= seen.insert(child));
                        assert(sessions.dom().difference(seen.insert(child))
                            =~= sessions.dom().difference(seen).remove(child));
                        assert(sessions.dom().difference(seen).contains(child));
                        assert forall|at: int| 0 <= at < pending@.len() implies visited@.contains_key(
                            #[trigger] pending@[at]@,
                        ) by {
                            if at < earlier.len() {
                                assert(pending@[at] == earlier[at]);
                            }
                        }
                        lemma_listed_push(found, descendants@, root, seen, child);
                        lemma_waits_push(earlier, pending@, child);
                    }
                }
                index = index + 1;
            }
            proof {
                self.sessions.lemma_entries();
                assert forall|from: Seq<char>, child: Seq<char>|
                    visited@.contains_key(from) && #[trigger] model::child_link(
                        sessions,
                        from,
                        child,
                    ) && !visited@.contains_key(child) implies waits(pending@, from) by {
                    if !waits(pending@, from) {
                        assert(sessions.contains_key(child));
                    }
                }
            }
        }
        proof {
            assert forall|session: Seq<char>|
                (exists|at: int|
                    0 <= at < descendants@.len() && #[trigger] descendants@[at]@ == session) <==> (
                session != session_id@ && #[trigger] model::descends(
                    self@.sessions,
                    session_id@,
                    session,
                )) by {
                if model::descends(sessions, root, session) {
                    laws::lemma_closed_below(sessions, visited@.dom(), root, session);
                }
            }
        }
        descendants
    }

    /// Prepares what a frontend sent for the shared connection. A message that
    /// is no command is refused without dispatch.
    pub fn prepare_command_str(&mut self, frontend_id: u64, raw: String) -> (prepared: Option<
        CdpPreparedFrontendCommand,
    >)
        requires
            old(self).wf(),
            old(self).pending_count() < usize::MAX,
        ensures
            final(self).wf(),
            preparation_of_text(old(self)@, frontend_id, json::parsed_tree(raw@))
                == (model::Preparation { model: final(self)@, prepared: prepared_view(prepared) }),
            prepared matches Some(CdpPreparedFrontendCommand::Command(routed)) ==> routed.wf()
                && routed.wire_text() == json::written_text(routed@),
            final(self).pending_count() == old(self).pending_count() + (if prepared matches Some(
                CdpPreparedFrontendCommand::Command(_),
            ) {
                1int
            } else {
                0int
            }),
    {
        match ParsedCdpCommand::parse_str(raw) {
            Ok(command) => self.prepare_command(frontend_id, command),
            Err(error) => Some(
                CdpPreparedFrontendCommand::ImmediateResponse {
                    frontend_id,
                    message: cdp_error_response(
                        error.command_id(),
                        error.response_code(),
                        error.response_message(),
                    ),
                },
            ),
        }
    }

    /// Prepares a command of `frontend_id` for the shared connection.
    pub fn prepare_command(&mut self, frontend_id: u64, command: ParsedCdpCommand) -> (prepared:
        Option<CdpPreparedFrontendCommand>)
        requires
            old(self).wf(),
            old(self).pending_count() < usize::MAX,
            command.wf(),
        ensures
            final(self).wf(),
            model::prepare(old(self)@, frontend_id, command@) == (model::Preparation {
                model: final(self)@,
                prepared: prepared_view(prepared),
            }),
            prepared matches Some(CdpPreparedFrontendCommand::Command(routed)) ==> routed.wf()
                && routed.wire_text() == json::written_text(routed@),
            final(self).pending_count() == old(self).pending_count() + (if prepared matches Some(
                CdpPreparedFrontendCommand::Command(_),
            ) {
                1int
            } else {
                0int
            }),
    {
        proof {
            self.pending_commands.lemma_count();
            laws::law_preparation_counts(self@, frontend_id, command@);
            laws::law_prepare_keeps_inv(self@, frontend_id, command@);
        }
        let client_command_id = command.id();
        let method = command.method();
        let client_session_id = command.session_id();
        let attach_target_id = if same_text(method.as_str(), "Target.attachToTarget") {
            match command.params() {
                Some(params) => json_member_text(params, "targetId"),
                None => None,
            }
        } else {
            None
        };
        let base_session_id = match self.frontends.get(frontend_id) {
            Some(frontend) => frontend.base_session_id.clone(),
            None => {
                return None;
            },
        };
        let dispatch_session_id = match &client_session_id {
            Some(session_id) => {
                let owned_child = match self.sessions.get(session_id.as_str()) {
                    Some(session) => session.frontend_id == frontend_id && !session.is_base(),
                    None => false,
                };
                if !owned_child {
                    return Some(
                        CdpPreparedFrontendCommand::ImmediateResponse {
                            frontend_id,
                            message: cdp_error_response(
                                Some(client_command_id),
                                -32001,
                                "Unknown sessionId",
                            ),
                        },
                    );
                }
                session_id.clone()
            },
            None => base_session_id,
        };
        let reference = self.resolve_target_session_reference(
            frontend_id,
            Some(dispatch_session_id.as_str()),
            method.as_str(),
            command.params(),
        );
        let command = match reference {
            Ok(Some(session_id)) => match command.rewrite_target_session_reference(
                session_id.as_str(),
            ) {
                Ok(command) => command,
                Err(_) => {
                    return Some(
                        CdpPreparedFrontendCommand::ImmediateResponse {
                            frontend_id,
                            message: cdp_error_response(
                                Some(client_command_id),
                                -32603,
                                "Internal error",
                            ),
                        },
                    );
                },
            },
            Ok(None) => command,
            Err(error) => {
                return Some(
                    CdpPreparedFrontendCommand::ImmediateResponse {
                        frontend_id,
                        message: cdp_error_response(
                            Some(client_command_id),
                            error.code,
                            error.message,
                        ),
                    },
                );
            },
        };
        let internal_command_id = self.allocate_internal_command_id();
        match command.rewrite_frontend_route(
            internal_command_id,
            Some(dispatch_session_id.as_str()),
        ) {
            Ok(command) => {
                self.pending_commands.insert(
                    internal_command_id,
                    PendingCommandRoute {
                        frontend: CdpCommandFrontend {
                            frontend_id,
                            dispatch_session_id: Some(dispatch_session_id),
                            client_session_id,
                        },
                        client_command_id,
                        method,
                        attach_target_id,
                    },
                );
                Some(CdpPreparedFrontendCommand::Command(command))
            },
            Err(_) => Some(
                CdpPreparedFrontendCommand::ImmediateResponse {
                    frontend_id,
                    message: cdp_error_response(Some(client_command_id), -32603, "Internal error"),
                },
            ),
        }
    }

    /// Routes a message of the shared connection to the frontend it is for.
    /// `wire_session_id` is the session under which the message was sent.
    pub fn route_message(&mut self, message: serde_json::Value, wire_session_id: Option<&str>) -> (
        routed: Option<(CdpRoutedFrontend, serde_json::Value)>)
        requires
            old(self).wf(),
        ensures
            final(self).wf(),
            model::route(
                old(self)@,
                json::json_tree(message),
                text::opt_str_chars(wire_session_id),
            ) == (model::Routed { model: final(self)@, delivery: delivery_view(routed) }),
            final(self).pending_count() + (if json::member_unsigned(
                json::json_tree(message),
                "id"@,
            ) matches Some(id) && old(self)@.pending.contains_key(id) {
                1int
            } else {
                0int
            }) == old(self).pending_count(),
    {
        proof {
            self.lemma_wf();
            laws::law_routing_counts(
                self@,
                json::json_tree(message),
                text::opt_str_chars(wire_session_id),
            );
            laws::law_route_keeps_inv(
                self@,
                json::json_tree(message),
                text::opt_str_chars(wire_session_id),
            );
        }
        if let Some(id) = json_member_u64(&message, "id") {
            return self.route_response(message, id);
        }
        let announced_session_id = match json_member_text(&message, "method") {
            Some(method) => if same_text(method.as_str(), "Target.attachedToTarget") {
                json_nested_text(&message, "params", "sessionId")
            } else {
                None
            },
            None => None,
        };
        if let Some(child_session_id) = &announced_session_id {
            if self.private_sessions.contains(child_session_id.as_str()) {
                return None;
            }
        }
        self.note_attachment(&message, announced_session_id, wire_session_id);
        match wire_session_id {
            Some(session_id) => self.route_session_event(message, session_id),
            None => self.route_root_event(message),
        }
    }

    /// Notes the child session whose attachment an event announces.
    fn note_attachment(
        &mut self,
        message: &serde_json::Value,
        announced_session_id: Option<String>,
        wire_session_id: Option<&str>,
    )
        requires
            old(self).wf(),
            text::opt_chars(announced_session_id) == model::announced_session(
                json::json_tree(*message),
            ),
        ensures
            final(self).wf(),
            final(self)@ == model::note_attachment(
                old(self)@,
                json::json_tree(*message),
                text::opt_str_chars(wire_session_id),
            ),
    {
        let (child_session_id, parent_session_id) = match (announced_session_id, wire_session_id) {
            (Some(child_session_id), Some(parent_session_id)) => {
                (child_session_id, parent_session_id)
            },
            _ => {
                return ;
            },
        };
        let target_id = match json_get(message, "params") {
            Some(params) => json_nested_text(params, "targetInfo", "targetId"),
            None => None,
        };
        let owner = match self.sessions.get(parent_session_id) {
            Some(parent) => parent.frontend_id,
            None => {
                return ;
            },
        };
        self.register_child_session(
            owner,
            Some(parent_session_id),
            child_session_id.as_str(),
            opt_as_str(&target_id),
        );
    }

    fn route_response(&mut self, message: serde_json::Value, id: u64) -> (routed: Option<
        (CdpRoutedFrontend, serde_json::Value),
    >)
        requires
            old(self).wf(),
            json::member_unsigned(json::json_tree(message), "id"@) == Some(id),
        ensures
            final(self).tables_wf(),
            model::route(old(self)@, json::json_tree(message), None) == (model::Routed {
                model: final(self)@,
                delivery: delivery_view(routed),
            }),
    {
        let ghost before = self@;
        let pending = match self.pending_commands.remove(id) {
            Some(pending) => pending,
            None => {
                assert(self@ =~= before);
                return None;
            },
        };
        proof {
            laws::lemma_answered_inv(before, id);
        }
        let mut message = message;
        json_set(&mut message, "id", json_from_u64(pending.client_command_id));
        let frontend_id = pending.frontend.frontend_id;
        let sink = match self.frontends.get(frontend_id) {
            Some(frontend) => frontend.sink,
            None => {
                return None;
            },
        };
        if same_text(pending.method.as_str(), "Target.attachToTarget") && json_get(
            &message,
            "error",
        ).is_none() {
            if let Some(child_session_id) = json_nested_text(&message, "result", "sessionId") {
                self.register_child_session(
                    frontend_id,
                    opt_as_str(&pending.frontend.dispatch_session_id),
                    child_session_id.as_str(),
                    opt_as_str(&pending.attach_target_id),
                );
            }
        }
        set_top_level_session_id(
            &mut message,
            opt_as_str(&pending.frontend.client_session_id),
        );
        Some((CdpRoutedFrontend { frontend_id, sink }, message))
    }

    fn route_session_event(&mut self, message: serde_json::Value, session_id: &str) -> (routed:
        Option<(CdpRoutedFrontend, serde_json::Value)>)
        requires
            old(self).wf(),
        ensures
            final(self).wf(),
            model::route_session_event(old(self)@, json::json_tree(message), session_id@) == (
            model::Routed { model: final(self)@, delivery: delivery_view(routed) }),
    {
        if self.private_sessions.contains(session_id) {
            return None;
        }
        let (frontend_id, base) = match self.sessions.get(session_id) {
            Some(session) => (session.frontend_id, session.is_base()),
            None => {
                return None;
            },
        };
        let sink = match self.frontends.get(frontend_id) {
            Some(frontend) => frontend.sink,
            None => {
                return None;
            },
        };
        let detached_session_id = detached_session(&message);
        let mut message = message;
        if base {
            json_unset(&mut message, "sessionId");
        }
        if let Some(detached_session_id) = detached_session_id {
            self.remove_child_session_cascade(detached_session_id.as_str());
        }
        Some((CdpRoutedFrontend { frontend_id, sink }, message))
    }

    fn route_root_event(&mut self, message: serde_json::Value) -> (routed: Option<
        (CdpRoutedFrontend, serde_json::Value),
    >)
        requires
            old(self).wf(),
        ensures
            final(self).wf(),
            model::route_root_event(old(self)@, json::json_tree(message)) == (model::Routed {
                model: final(self)@,
                delivery: delivery_view(routed),
            }),
    {
        let ghost before = self@;
        let session_id = match detached_session(&message) {
            Some(session_id) => session_id,
            None => {
                return None;
            },
        };
        proof {
            laws::law_cascade_keeps_inv(before, session_id@);
        }
        if self.private_sessions.remove(session_id.as_str()).is_some() {
            proof {
                assert(self@.private_sessions =~= before.private_sessions.remove(session_id@));
                laws::lemma_same_routes_inv(before, self@);
            }
            return None;
        }
        proof {
            assert(self@.private_sessions =~= before.private_sessions);
            assert(self@ =~= before);
        }
        let (owner, base, parent_session_id) = match self.sessions.get(session_id.as_str()) {
            Some(session) => (session.frontend_id, session.is_base(), session.parent()),
            None => {
                return None;
            },
        };
        if base {
            self.remove_session_descendants(session_id.as_str());
            return None;
        }
        let (sink, under_base) = match self.frontends.get(owner) {
            Some(frontend) => (
                frontend.sink,
                same_opt_text(
                    opt_as_str(&parent_session_id),
                    Some(frontend.base_session_id.as_str()),
                ),
            ),
            None => {
                return None;
            },
        };
        let mut message = message;
        let visible_parent = if under_base {
            None
        } else {
            opt_as_str(&parent_session_id)
        };
        set_top_level_session_id(&mut message, visible_parent);
        self.remove_child_session_cascade(session_id.as_str());
        Some((CdpRoutedFrontend { frontend_id: owner, sink }, message))
    }

    /// Releases the frontends that debug the page `target_id`.
    pub fn unregister_page_frontends_for_target(&mut self, target_id: &str)
        requires
            old(self).wf(),
        ensures
            final(self).wf(),
            exists|order: Seq<u64>| #[trigger]
                model::release_order(old(self)@, target_id@, order) && final(self)@
                    == model::without_frontends(old(self)@, order),
            final(self).pending_count() <= old(self).pending_count(),
    {
        let ghost before = self@;
        let mut frontend_ids: Vec<u64> = Vec::new();
        let mut index: usize = 0;
        proof {
            self.frontends.lemma_entries();
        }
        while index < self.frontends.len()
            invariant
                self.wf(),
                self@ == before,
                index <= self.frontends.count(),
                forall|at: int|
                    0 <= at < frontend_ids@.len() ==> model::debugs_page(
                        before,
                        #[trigger] frontend_ids@[at],
                        target_id@,
                    ) && exists|entry: int|
                        0 <= entry < index && #[trigger] self.frontends.entry_key(entry)
                            == frontend_ids@[at],
                forall|entry: int|
                    0 <= entry < index && model::debugs_page(
                        before,
                        #[trigger] self.frontends.entry_key(entry),
                        target_id@,
                    ) ==> frontend_ids@.contains(self.frontends.entry_key(entry)),
                frontend_ids@.no_duplicates(),
            decreases self.frontends.count() - index,
        {
            proof {
                self.frontends.lemma_entries();
            }
            let frontend = self.frontends.value_at(index);
            let frontend_id = self.frontends.key_at(index);
            let ghost listed = frontend_ids@;
            if frontend.kind == CdpSessionFrontendKind::Page && same_opt_text(
                opt_as_str(&frontend.target_id),
                Some(target_id),
            ) {
                frontend_ids.push(frontend_id);
                proof {
                    assert(model::debugs_page(before, frontend_id, target_id@));
                    assert(frontend_ids@[listed.len() as int] == frontend_id);
                    assert forall|at: int| 0 <= at < listed.len() implies listed[at]
                        != frontend_id by {
                        let entry = choose|entry: int|
                            0 <= entry < index && #[trigger] self.frontends.entry_key(entry)
                                == listed[at];
                        assert(self.frontends.entry_key(entry) != self.frontends.entry_key(
                            index as int,
                        ));
                    }
                    assert forall|entry: int|
                        0 <= entry < index + 1 && model::debugs_page(
                            before,
                            #[trigger] self.frontends.entry_key(entry),
                            target_id@,
                        ) implies frontend_ids@.contains(self.frontends.entry_key(entry)) by {
                        if entry < index {
                            let at = listed.index_of(self.frontends.entry_key(entry));
                            assert(frontend_ids@[at] == self.frontends.entry_key(entry));
                        }
                    }
                }
            }
            index = index + 1;
        }
        let ghost order = frontend_ids@;
        proof {
            self.frontends.lemma_entries();
            assert forall|frontend_id: u64|
                order.contains(frontend_id) == model::debugs_page(
                    before,
                    frontend_id,
                    target_id@,
                ) by {
                if model::debugs_page(before, frontend_id, target_id@) {
                    assert(self.frontends@.contains_key(frontend_id));
                }
            }
            assert(model::release_order(before, target_id@, order));
        }
        let mut index: usize = 0;
        while index < frontend_ids.len()
            invariant
                self.wf(),
                self.pending_count() <= old(self).pending_count(),
                order == frontend_ids@,
                index <= order.len(),
                model::release_order(before, target_id@, order),
                self@ == model::without_frontends(before, order.take(index as int)),
                forall|at: int|
                    index <= at < order.len() ==> model::debugs_page(
                        self@,
                        #[trigger] order[at],
                        target_id@,
                    ),
            decreases order.len() - index,
        {
            let ghost current = self@;
            let _ = self.unregister_page_frontend(frontend_ids[index]);
            proof {
                assert(order.take(index + 1).drop_last() =~= order.take(index as int));
                assert(model::debugs_page(current, order[index as int], target_id@));
                assert forall|at: int| index + 1 <= at < order.len() implies model::debugs_page(
                    self@,
                    #[trigger] order[at],
                    target_id@,
                ) by {
                    assert(order[at] != order[index as int]);
                }
            }
            index = index + 1;
        }
        proof {
            assert(order.take(order.len() as int) =~= order);
        }
    }
}

/// Whether `session` is among those that wait.
spec fn waits(pending: Seq<String>, session: Seq<char>) -> bool {
    exists|at: int| 0 <= at < pending.len() && #[trigger] pending[at]@ == session
}

/// Whether every visited session is `root` or stands below it.
spec fn visited_below(
    sessions: Map<Seq<char>, SessionModel>,
    root: Seq<char>,
    visited: Set<Seq<char>>,
) -> bool {
    forall|session: Seq<char>| #[trigger]
        visited.contains(session) ==> session == root || model::descends(sessions, root, session)
}

/// Whether `descendants` lists the visited sessions other than `root`.
spec fn listed(descendants: Seq<String>, root: Seq<char>, visited: Set<Seq<char>>) -> bool {
    &&& forall|at: int|
        0 <= at < descendants.len() ==> visited.contains(#[trigger] descendants[at]@)
            && descendants[at]@ != root
    &&& forall|session: Seq<char>| #[trigger]
        visited.contains(session) && session != root ==> waits(descendants, session)
}

proof fn lemma_waits_push(before: Seq<String>, after: Seq<String>, child: Seq<char>)
    requires
        after.len() == before.len() + 1,
        after[before.len() as int]@ == child,
        forall|at: int| 0 <= at < before.len() ==> after[at] == before[at],
    ensures
        forall|session: Seq<char>| #[trigger]
            waits(after, session) <==> waits(before, session) || session == child,
{
    assert forall|session: Seq<char>| #[trigger]
        waits(after, session) <==> waits(before, session) || session == child by {
        if waits(before, session) {
            let at = choose|at: int| 0 <= at < before.len() && #[trigger] before[at]@ == session;
            assert(after[at]@ == session);
        }
        if waits(after, session) {
            let at = choose|at: int| 0 <= at < after.len() && #[trigger] after[at]@ == session;
            if at < before.len() {
                assert(before[at]@ == session);
            }
        }
    }
}

proof fn lemma_listed_push(
    before: Seq<String>,
    after: Seq<String>,
    root: Seq<char>,
    visited: Set<Seq<char>>,
    child: Seq<char>,
)
    requires
        listed(before, root, visited),
        visited.contains(root),
        !visited.contains(child),
        after.len() == before.len() + 1,
        after[before.len() as int]@ == child,
        forall|at: int| 0 <= at < before.len() ==> after[at] == before[at],
    ensures
        listed(after, root, visited.insert(child)),
{
    lemma_waits_push(before, after, child);
    assert forall|at: int| 0 <= at < after.len() implies visited.insert(child).contains(
        #[trigger] after[at]@,
    ) && after[at]@ != root by {
        if at < before.len() {
            assert(after[at] == before[at]);
            assert(visited.contains(before[at]@));
        }
    }
}

/// What becomes of a text that a frontend sent, from what it reads as.
pub open spec fn preparation_of_text(
    model: RoutingModel,
    frontend_id: u64,
    parsed: Option<json::JsonTree>,
) -> model::Preparation {
    match parsed {
        None => model::Preparation {
            model,
            prepared: Some(
                PreparedModel::ImmediateResponse {
                    frontend_id,
                    message: model::error_response(None, -32700, "Parse error"@),
                },
            ),
        },
        Some(tree) => if command::command_shape(tree) {
            model::prepare(model, frontend_id, command::normal_command(tree))
        } else {
            model::Preparation {
                model,
                prepared: Some(
                    PreparedModel::ImmediateResponse {
                        frontend_id,
                        message: model::error_response(
                            json::member_unsigned(tree, "id"@),
                            -32600,
                            "Invalid Request"@,
                        ),
                    },
                ),
            }
        },
    }
}

/// The session that an event says was detached.
fn detached_session(message: &serde_json::Value) -> (session_id: Option<String>)
    ensures
        text::opt_chars(session_id) == (if model::is_event(
            json::json_tree(*message),
            "Target.detachedFromTarget"@,
        ) {
            model::event_session(json::json_tree(*message))
        } else {
            None
        }),
{
    match json_member_text(message, "method") {
        Some(method) => if same_text(method.as_str(), "Target.detachedFromTarget") {
            json_nested_text(message, "params", "sessionId")
        } else {
            None
        },
        None => None,
    }
}

/// What a routed message means.
pub open spec fn delivery_view(
    routed: Option<(CdpRoutedFrontend, serde_json::Value)>,
) -> Option<model::Delivery> {
    match routed {
        Some((frontend, message)) => Some(
            model::Delivery {
                frontend_id: frontend.frontend_id,
                sink: frontend.sink,
                message: json::json_tree(message),
            },
        ),
        None => None,
    }
}

/// Whether a frontend can be registered.
pub open spec fn registration_result(
    model: RoutingModel,
    frontend_id: u64,
    session: Seq<char>,
) -> Result<(), RegisterFrontendError> {
    if model.frontends.contains_key(frontend_id) {
        Err(RegisterFrontendError::FrontendIdTaken)
    } else if model.sessions.contains_key(session) {
        Err(RegisterFrontendError::SessionTaken)
    } else {
        Ok(())
    }
}

/// What the release of a frontend of `kind` does, and the session it returns.
pub open spec fn released(
    before: RoutingModel,
    after: RoutingModel,
    frontend_id: u64,
    kind: CdpSessionFrontendKind,
    session: Option<Seq<char>>,
) -> bool {
    if model::is_frontend(before, frontend_id, kind) {
        &&& session == Some(before.frontends[frontend_id].base_session_id)
        &&& after == model::without_frontend(before, frontend_id)
    } else {
        &&& session is None
        &&& after == before
    }
}

} // verus!
