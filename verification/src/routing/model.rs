//! What the routing state means, and what each step does to it.
use vstd::prelude::*;

use crate::command;
use crate::json;
use crate::json::JsonTree;

verus! {

/// Whether a frontend debugs the browser or one page.
#[derive(Clone, Copy, PartialEq, Eq, Structural)]
pub enum CdpSessionFrontendKind {
    Browser,
    Page,
}

/// The outgoing side of one frontend's socket, by its number.
#[derive(Clone, Copy, Debug, PartialEq, Eq, Structural)]
pub struct CdpSocketSink {
    pub number: u64,
}

/// Where a session stands in its frontend.
pub enum SessionNode {
    /// The hidden session that a frontend's own commands go to.
    Base,
    /// A session that a client sees, below another one.
    Child { parent: Option<Seq<char>>, target: Option<Seq<char>> },
}

/// One session: the frontend that owns it and its place there.
pub struct SessionModel {
    pub frontend_id: u64,
    pub node: SessionNode,
}

/// One registered frontend.
pub struct FrontendModel {
    pub kind: CdpSessionFrontendKind,
    pub target_id: Option<Seq<char>>,
    pub base_session_id: Seq<char>,
    pub sink: CdpSocketSink,
}

/// One command on its way, under its internal number.
pub struct PendingModel {
    pub frontend_id: u64,
    pub dispatch_session_id: Option<Seq<char>>,
    pub client_session_id: Option<Seq<char>>,
    pub client_command_id: u64,
    pub method: Seq<char>,
    pub attach_target_id: Option<Seq<char>>,
}

/// The routing state.
#[verifier::ext_equal]
pub struct RoutingModel {
    pub next_internal_command_id: u64,
    pub pending: Map<u64, PendingModel>,
    pub frontends: Map<u64, FrontendModel>,
    pub sessions: Map<Seq<char>, SessionModel>,
    pub private_sessions: Set<Seq<char>>,
    /// The sinks to close once they are flushed, in the order of their release.
    pub closing: Seq<CdpSocketSink>,
}

/// The state without frontends.
pub open spec fn initial() -> RoutingModel {
    RoutingModel {
        next_internal_command_id: 0,
        pending: Map::empty(),
        frontends: Map::empty(),
        sessions: Map::empty(),
        private_sessions: Set::empty(),
        closing: Seq::empty(),
    }
}

/// What holds of every state: sessions and pending commands belong to
/// registered frontends, every frontend has exactly its own base session, and
/// the parent of a child session is a session of the same frontend.
pub open spec fn routing_inv(model: RoutingModel) -> bool {
    &&& forall|session: Seq<char>| #[trigger]
        model.sessions.contains_key(session) ==> session_inv(model, session)
    &&& forall|frontend_id: u64| #[trigger]
        model.frontends.contains_key(frontend_id) ==> frontend_inv(model, frontend_id)
    &&& forall|id: u64| #[trigger] model.pending.contains_key(id) ==> pending_inv(model, id)
}

/// What holds of each session.
pub open spec fn session_inv(model: RoutingModel, session: Seq<char>) -> bool {
    let owner = model.sessions[session].frontend_id;
    &&& model.frontends.contains_key(owner)
    &&& match model.sessions[session].node {
        SessionNode::Base => model.frontends[owner].base_session_id == session,
        SessionNode::Child { parent: Some(parent), target: _ } => model.sessions.contains_key(
            parent,
        ) && model.sessions[parent].frontend_id == owner,
        SessionNode::Child { parent: None, target: _ } => model.frontends[owner].kind
            == CdpSessionFrontendKind::Browser,
    }
}

/// What holds of each frontend.
pub open spec fn frontend_inv(model: RoutingModel, frontend_id: u64) -> bool {
    let base = model.frontends[frontend_id].base_session_id;
    &&& model.sessions.contains_key(base)
    &&& model.sessions[base].frontend_id == frontend_id
    &&& model.sessions[base].node is Base
}

/// What holds of each pending command.
pub open spec fn pending_inv(model: RoutingModel, id: u64) -> bool {
    let pending = model.pending[id];
    &&& id != 0
    &&& model.frontends.contains_key(pending.frontend_id)
    &&& pending.client_session_id != Some(model.frontends[pending.frontend_id].base_session_id)
}

/// The answer that refuses a command.
pub open spec fn error_response(id: Option<u64>, code: int, message: Seq<char>) -> JsonTree {
    let id = match id {
        Some(id) => JsonTree::Unsigned(id),
        None => JsonTree::Null,
    };
    let error = JsonTree::Members(
        Map::empty().insert("code"@, json::integer_tree(code)).insert(
            "message"@,
            JsonTree::Text(message),
        ),
    );
    JsonTree::Members(Map::empty().insert("id"@, id).insert("error"@, error))
}

/// The number `steps` after `start`, wrapping at the end.
pub open spec fn wrapped(start: u64, steps: int) -> u64 {
    ((start + steps) % 0x1_0000_0000_0000_0000) as u64
}

/// Whether a number cannot be given to a new command.
pub open spec fn taken(model: RoutingModel, id: u64) -> bool {
    id == 0 || model.pending.contains_key(id)
}

/// Whether the first number after the last one given that is not taken lies
/// `steps` ahead.
pub open spec fn fresh_after(model: RoutingModel, steps: int) -> bool {
    &&& 1 <= steps <= 0x1_0000_0000_0000_0000
    &&& !taken(model, wrapped(model.next_internal_command_id, steps))
    &&& forall|earlier: int|
        1 <= earlier < steps ==> taken(
            model,
            #[trigger] wrapped(model.next_internal_command_id, earlier),
        )
}

/// The number that the next command gets.
pub open spec fn fresh_id(model: RoutingModel) -> u64 {
    wrapped(model.next_internal_command_id, choose|steps: int| fresh_after(model, steps))
}

/// The session that a command of `frontend_id` runs in: the base session, or
/// the session that it names if that is one of the frontend's child sessions.
pub open spec fn dispatch_session(
    model: RoutingModel,
    frontend_id: u64,
    client_session: Option<Seq<char>>,
) -> Option<Seq<char>> {
    match client_session {
        Some(session) => if owned_child(model, frontend_id, session) {
            Some(session)
        } else {
            None
        },
        None => Some(model.frontends[frontend_id].base_session_id),
    }
}

/// Whether `session` is a child session of `frontend_id`.
pub open spec fn owned_child(model: RoutingModel, frontend_id: u64, session: Seq<char>) -> bool {
    &&& model.sessions.contains_key(session)
    &&& model.sessions[session].frontend_id == frontend_id
    &&& model.sessions[session].node is Child
}

/// Whether `session` is a child session of `frontend_id` directly below
/// `parent`.
pub open spec fn direct_child(
    model: RoutingModel,
    frontend_id: u64,
    parent: Option<Seq<char>>,
    session: Seq<char>,
) -> bool {
    &&& owned_child(model, frontend_id, session)
    &&& model.sessions[session].node->parent == parent
}

/// Whether `session` is such a child and debugs `target`.
pub open spec fn direct_child_of_target(
    model: RoutingModel,
    frontend_id: u64,
    parent: Option<Seq<char>>,
    target: Seq<char>,
    session: Seq<char>,
) -> bool {
    &&& direct_child(model, frontend_id, parent, session)
    &&& model.sessions[session].node->target == Some(target)
}

/// Whether a direct child debugs `target`.
pub open spec fn any_child_of_target(
    model: RoutingModel,
    frontend_id: u64,
    parent: Option<Seq<char>>,
    target: Seq<char>,
) -> bool {
    exists|session: Seq<char>| #[trigger]
        direct_child_of_target(model, frontend_id, parent, target, session)
}

/// Whether several direct children debug `target`.
pub open spec fn many_children_of_target(
    model: RoutingModel,
    frontend_id: u64,
    parent: Option<Seq<char>>,
    target: Seq<char>,
) -> bool {
    exists|left: Seq<char>, right: Seq<char>|
        left != right && #[trigger] direct_child_of_target(
            model,
            frontend_id,
            parent,
            target,
            left,
        ) && #[trigger] direct_child_of_target(model, frontend_id, parent, target, right)
}

/// What becomes of the session that a command's parameters refer to.
pub enum TargetReference {
    /// The parameters stay as they are.
    Unchanged,
    /// The parameters get the session that was meant.
    Session(Seq<char>),
    /// The command is refused.
    Refused { code: int, message: Seq<char> },
}

/// Resolves the session that a `Target` command refers to, by its identity or
/// by its target.
pub open spec fn target_reference(
    model: RoutingModel,
    frontend_id: u64,
    dispatch: Option<Seq<char>>,
    method: Seq<char>,
    params: Option<JsonTree>,
) -> TargetReference {
    if method != "Target.detachFromTarget"@ && method != "Target.sendMessageToTarget"@ {
        TargetReference::Unchanged
    } else {
        match params {
            None => TargetReference::Unchanged,
            Some(params) => match json::member(params, "sessionId"@) {
                Some(JsonTree::Text(session)) => if direct_child(
                    model,
                    frontend_id,
                    dispatch,
                    session,
                ) {
                    TargetReference::Unchanged
                } else {
                    TargetReference::Refused { code: -32602, message: "No session with given id"@ }
                },
                Some(JsonTree::Null) | None => reference_by_target(
                    model,
                    frontend_id,
                    dispatch,
                    json::member_text(params, "targetId"@),
                ),
                Some(_) => TargetReference::Unchanged,
            },
        }
    }
}

/// Resolves a session by its target: exactly one direct child must debug it.
pub open spec fn reference_by_target(
    model: RoutingModel,
    frontend_id: u64,
    dispatch: Option<Seq<char>>,
    target: Option<Seq<char>>,
) -> TargetReference {
    match target {
        None => TargetReference::Unchanged,
        Some(target) => {
            if !any_child_of_target(model, frontend_id, dispatch, target) {
                TargetReference::Refused { code: -32602, message: "No session for given target id"@ }
            } else if many_children_of_target(model, frontend_id, dispatch, target) {
                TargetReference::Refused {
                    code: -32000,
                    message: "Multiple sessions attached, specify id."@,
                }
            } else {
                TargetReference::Session(
                    choose|session: Seq<char>| #[trigger]
                        direct_child_of_target(model, frontend_id, dispatch, target, session),
                )
            }
        },
    }
}

/// What a frontend's command turns into.
pub enum PreparedModel {
    /// A command for the shared connection.
    Command(JsonTree),
    /// An answer that needs no dispatch.
    ImmediateResponse { frontend_id: u64, message: JsonTree },
}

/// The state after a command was prepared, and what it turned into.
pub struct Preparation {
    pub model: RoutingModel,
    pub prepared: Option<PreparedModel>,
}

/// The refusal of a command without a change of state.
pub open spec fn refused(
    model: RoutingModel,
    frontend_id: u64,
    id: u64,
    code: int,
    message: Seq<char>,
) -> Preparation {
    Preparation {
        model,
        prepared: Some(
            PreparedModel::ImmediateResponse {
                frontend_id,
                message: error_response(Some(id), code, message),
            },
        ),
    }
}

/// The target that an attach command names.
pub open spec fn attach_target(command: JsonTree) -> Option<Seq<char>> {
    if command::command_method(command) == "Target.attachToTarget"@ {
        match command::command_params(command) {
            Some(params) => json::member_text(params, "targetId"@),
            None => None,
        }
    } else {
        None
    }
}

/// Gives a command its internal number and its session.
pub open spec fn enroll(
    model: RoutingModel,
    frontend_id: u64,
    command: JsonTree,
    referred: JsonTree,
    dispatch: Seq<char>,
) -> Preparation {
    let id = fresh_id(model);
    let counted = RoutingModel { next_internal_command_id: id, ..model };
    let routed = command::frontend_route_rewrite(referred, id, Some(dispatch));
    let pending = PendingModel {
        frontend_id,
        dispatch_session_id: Some(dispatch),
        client_session_id: command::command_session(command),
        client_command_id: command::command_id(command),
        method: command::command_method(command),
        attach_target_id: attach_target(command),
    };
    Preparation {
        model: RoutingModel { pending: counted.pending.insert(id, pending), ..counted },
        prepared: Some(PreparedModel::Command(routed)),
    }
}

/// Prepares a command of `frontend_id` for the shared connection.
pub open spec fn prepare(model: RoutingModel, frontend_id: u64, command: JsonTree) -> Preparation {
    let id = command::command_id(command);
    if !model.frontends.contains_key(frontend_id) {
        Preparation { model, prepared: None }
    } else {
        match dispatch_session(model, frontend_id, command::command_session(command)) {
            None => refused(model, frontend_id, id, -32001, "Unknown sessionId"@),
            Some(dispatch) => match target_reference(
                model,
                frontend_id,
                Some(dispatch),
                command::command_method(command),
                command::command_params(command),
            ) {
                TargetReference::Refused { code, message } => refused(
                    model,
                    frontend_id,
                    id,
                    code,
                    message,
                ),
                TargetReference::Session(session) => enroll(
                    model,
                    frontend_id,
                    command,
                    command::target_session_rewrite(command, session),
                    dispatch,
                ),
                TargetReference::Unchanged => enroll(model, frontend_id, command, command, dispatch),
            },
        }
    }
}

/// A frontend with its base session, registered.
pub open spec fn with_frontend(
    model: RoutingModel,
    frontend_id: u64,
    frontend: FrontendModel,
) -> RoutingModel {
    RoutingModel {
        sessions: model.sessions.insert(
            frontend.base_session_id,
            SessionModel { frontend_id, node: SessionNode::Base },
        ),
        frontends: model.frontends.insert(frontend_id, frontend),
        ..model
    }
}

/// A frontend released, with its sessions and its pending commands.
pub open spec fn without_frontend(model: RoutingModel, frontend_id: u64) -> RoutingModel {
    RoutingModel {
        frontends: model.frontends.remove(frontend_id),
        sessions: crate::tables::kept_entries(
            model.sessions,
            |session: SessionModel| session.frontend_id != frontend_id,
        ),
        pending: crate::tables::kept_entries(
            model.pending,
            |pending: PendingModel| pending.frontend_id != frontend_id,
        ),
        closing: model.closing.push(model.frontends[frontend_id].sink),
        ..model
    }
}

/// Whether `frontend_id` is registered as a frontend of `kind`.
pub open spec fn is_frontend(
    model: RoutingModel,
    frontend_id: u64,
    kind: CdpSessionFrontendKind,
) -> bool {
    model.frontends.contains_key(frontend_id) && model.frontends[frontend_id].kind == kind
}

/// Whether `frontend_id` debugs the page `target`.
pub open spec fn debugs_page(model: RoutingModel, frontend_id: u64, target: Seq<char>) -> bool {
    &&& is_frontend(model, frontend_id, CdpSessionFrontendKind::Page)
    &&& model.frontends[frontend_id].target_id == Some(target)
}

/// Whether `order` lists each frontend that debugs the page `target` once.
pub open spec fn release_order(model: RoutingModel, target: Seq<char>, order: Seq<u64>) -> bool {
    &&& order.no_duplicates()
    &&& forall|frontend_id: u64|
        order.contains(frontend_id) <==> #[trigger] debugs_page(model, frontend_id, target)
}

/// The frontends in `order` released, one after the other.
pub open spec fn without_frontends(model: RoutingModel, order: Seq<u64>) -> RoutingModel
    decreases order.len(),
{
    if order.len() == 0 {
        model
    } else {
        without_frontend(without_frontends(model, order.drop_last()), order.last())
    }
}

/// Whether a child session may be registered.
pub open spec fn child_admitted(
    model: RoutingModel,
    frontend_id: u64,
    parent: Option<Seq<char>>,
    child: Seq<char>,
) -> bool {
    &&& model.frontends.contains_key(frontend_id)
    &&& match parent {
        Some(parent) => model.sessions.contains_key(parent) && model.sessions[parent].frontend_id
            == frontend_id,
        None => model.frontends[frontend_id].kind == CdpSessionFrontendKind::Browser,
    }
    &&& model.sessions.contains_key(child) ==> owned_child(model, frontend_id, child)
}

/// A child session registered, if it may be.
pub open spec fn with_child(
    model: RoutingModel,
    frontend_id: u64,
    parent: Option<Seq<char>>,
    child: Seq<char>,
    target: Option<Seq<char>>,
) -> RoutingModel {
    if child_admitted(model, frontend_id, parent, child) {
        RoutingModel {
            sessions: model.sessions.insert(
                child,
                SessionModel { frontend_id, node: SessionNode::Child { parent, target } },
            ),
            ..model
        }
    } else {
        model
    }
}

/// Whether `child` stands directly below `parent`.
pub open spec fn child_link(
    sessions: Map<Seq<char>, SessionModel>,
    parent: Seq<char>,
    child: Seq<char>,
) -> bool {
    &&& sessions.contains_key(child)
    &&& sessions[child].node is Child
    &&& sessions[child].node->parent == Some(parent)
}

/// Whether `path` leads downwards from `from` to `to`.
pub open spec fn descent(
    sessions: Map<Seq<char>, SessionModel>,
    path: Seq<Seq<char>>,
    from: Seq<char>,
    to: Seq<char>,
) -> bool {
    &&& path.len() >= 2
    &&& path[0] == from
    &&& path[path.len() - 1] == to
    &&& forall|index: int|
        0 <= index < path.len() - 1 ==> child_link(
            sessions,
            #[trigger] path[index],
            path[index + 1],
        )
}

/// Whether `session` stands somewhere below `root`.
pub open spec fn descends(
    sessions: Map<Seq<char>, SessionModel>,
    root: Seq<char>,
    session: Seq<char>,
) -> bool {
    exists|path: Seq<Seq<char>>| descent(sessions, path, root, session)
}

/// The sessions without those below `root`.
pub open spec fn without_descendants(
    sessions: Map<Seq<char>, SessionModel>,
    root: Seq<char>,
) -> Map<Seq<char>, SessionModel> {
    Map::new(
        |session: Seq<char>|
            sessions.contains_key(session) && !(session != root && descends(
                sessions,
                root,
                session,
            )),
        |session: Seq<char>| sessions[session],
    )
}

/// The sessions without a child session and those below it.
pub open spec fn without_child_cascade(
    sessions: Map<Seq<char>, SessionModel>,
    root: Seq<char>,
) -> Map<Seq<char>, SessionModel> {
    if sessions.contains_key(root) && sessions[root].node is Child {
        without_descendants(sessions, root).remove(root)
    } else {
        sessions
    }
}

/// The state with other sessions.
pub open spec fn with_sessions(
    model: RoutingModel,
    sessions: Map<Seq<char>, SessionModel>,
) -> RoutingModel {
    RoutingModel { sessions, ..model }
}

/// A message under another top-level session.
pub open spec fn with_session(tree: JsonTree, session: Option<Seq<char>>) -> JsonTree {
    match session {
        Some(session) => json::with_member(tree, "sessionId"@, JsonTree::Text(session)),
        None => json::without_member(tree, "sessionId"@),
    }
}

/// A message for one frontend.
pub struct Delivery {
    pub frontend_id: u64,
    pub sink: CdpSocketSink,
    pub message: JsonTree,
}

/// The state after a message was routed, and where the message goes.
pub struct Routed {
    pub model: RoutingModel,
    pub delivery: Option<Delivery>,
}

/// A message that goes to the sink of `frontend_id`.
pub open spec fn delivered(model: RoutingModel, frontend_id: u64, sink: CdpSocketSink, message: JsonTree) -> Routed {
    Routed { model, delivery: Some(Delivery { frontend_id, sink, message }) }
}

/// A message that goes nowhere.
pub open spec fn dropped(model: RoutingModel) -> Routed {
    Routed { model, delivery: None }
}

/// Routes a message of the shared connection.
pub open spec fn route(model: RoutingModel, message: JsonTree, wire: Option<Seq<char>>) -> Routed {
    match json::member_unsigned(message, "id"@) {
        Some(id) => if model.pending.contains_key(id) {
            route_response(model, message, id)
        } else {
            dropped(model)
        },
        None => route_event(model, message, wire),
    }
}

/// Routes the answer to the command under the internal number `id`.
pub open spec fn route_response(model: RoutingModel, message: JsonTree, id: u64) -> Routed {
    let pending = model.pending[id];
    let answered = RoutingModel { pending: model.pending.remove(id), ..model };
    let renumbered = json::with_member(
        message,
        "id"@,
        JsonTree::Unsigned(pending.client_command_id),
    );
    if !model.frontends.contains_key(pending.frontend_id) {
        dropped(answered)
    } else {
        let attached = if pending.method == "Target.attachToTarget"@ && json::member(
            renumbered,
            "error"@,
        ) is None {
            match json::nested_text(renumbered, "result"@, "sessionId"@) {
                Some(child) => with_child(
                    answered,
                    pending.frontend_id,
                    pending.dispatch_session_id,
                    child,
                    pending.attach_target_id,
                ),
                None => answered,
            }
        } else {
            answered
        };
        delivered(
            attached,
            pending.frontend_id,
            model.frontends[pending.frontend_id].sink,
            with_session(renumbered, pending.client_session_id),
        )
    }
}

/// The session that an event tells of.
pub open spec fn event_session(message: JsonTree) -> Option<Seq<char>> {
    json::nested_text(message, "params"@, "sessionId"@)
}

/// The target that an attachment event tells of.
pub open spec fn event_target(message: JsonTree) -> Option<Seq<char>> {
    match json::member(message, "params"@) {
        Some(params) => json::nested_text(params, "targetInfo"@, "targetId"@),
        None => None,
    }
}

/// Whether a message is an event of `method`.
pub open spec fn is_event(message: JsonTree, method: Seq<char>) -> bool {
    json::member_text(message, "method"@) == Some(method)
}

/// The session whose attachment an event announces.
pub open spec fn announced_session(message: JsonTree) -> Option<Seq<char>> {
    if is_event(message, "Target.attachedToTarget"@) {
        event_session(message)
    } else {
        None
    }
}

/// The state after the attachment that an event announces is noted.
pub open spec fn note_attachment(
    model: RoutingModel,
    message: JsonTree,
    wire: Option<Seq<char>>,
) -> RoutingModel {
    match (announced_session(message), wire) {
        (Some(child), Some(parent)) => if model.sessions.contains_key(parent) {
            with_child(
                model,
                model.sessions[parent].frontend_id,
                Some(parent),
                child,
                event_target(message),
            )
        } else {
            model
        },
        _ => model,
    }
}

/// Routes an event that came under the session `wire`, or under none.
pub open spec fn route_event(model: RoutingModel, message: JsonTree, wire: Option<Seq<char>>) -> Routed {
    if announced_session(message) matches Some(child) && model.private_sessions.contains(child) {
        dropped(model)
    } else {
        let noted = note_attachment(model, message, wire);
        match wire {
            Some(session) => route_session_event(noted, message, session),
            None => route_root_event(noted, message),
        }
    }
}

/// Routes an event of `session` to the frontend that owns it.
pub open spec fn route_session_event(
    model: RoutingModel,
    message: JsonTree,
    session: Seq<char>,
) -> Routed {
    if model.private_sessions.contains(session) || !model.sessions.contains_key(session)
        || !model.frontends.contains_key(model.sessions[session].frontend_id) {
        dropped(model)
    } else {
        let owner = model.sessions[session].frontend_id;
        let visible = if model.sessions[session].node is Base {
            json::without_member(message, "sessionId"@)
        } else {
            message
        };
        let after = if is_event(message, "Target.detachedFromTarget"@) {
            match event_session(message) {
                Some(detached) => with_sessions(
                    model,
                    without_child_cascade(model.sessions, detached),
                ),
                None => model,
            }
        } else {
            model
        };
        delivered(after, owner, model.frontends[owner].sink, visible)
    }
}

/// Routes an event that came under no session. Only the end of a child
/// session reaches a frontend this way.
pub open spec fn route_root_event(model: RoutingModel, message: JsonTree) -> Routed {
    if !is_event(message, "Target.detachedFromTarget"@) {
        dropped(model)
    } else {
        match event_session(message) {
            None => dropped(model),
            Some(detached) => route_root_detach(model, message, detached),
        }
    }
}

/// Routes the end of `detached` to the frontend that owned it.
pub open spec fn route_root_detach(
    model: RoutingModel,
    message: JsonTree,
    detached: Seq<char>,
) -> Routed {
    if model.private_sessions.contains(detached) {
        dropped(
            RoutingModel { private_sessions: model.private_sessions.remove(detached), ..model },
        )
    } else if !model.sessions.contains_key(detached) {
        dropped(model)
    } else {
        match model.sessions[detached].node {
            SessionNode::Base => dropped(
                with_sessions(model, without_descendants(model.sessions, detached)),
            ),
            SessionNode::Child { parent, target: _ } => {
                let owner = model.sessions[detached].frontend_id;
                if !model.frontends.contains_key(owner) {
                    dropped(model)
                } else {
                    let visible_parent = if parent == Some(model.frontends[owner].base_session_id) {
                        None
                    } else {
                        parent
                    };
                    delivered(
                        with_sessions(model, without_child_cascade(model.sessions, detached)),
                        owner,
                        model.frontends[owner].sink,
                        with_session(message, visible_parent),
                    )
                }
            },
        }
    }
}

} // verus!
