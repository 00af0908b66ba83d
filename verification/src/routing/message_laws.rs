//! What routing promises, said of the members of the messages, of the frontends
//! and of the sessions themselves.
use vstd::prelude::*;

use crate::command;
use crate::json;
use crate::json::JsonTree;
use crate::routing::laws;
use crate::routing::model;
use crate::routing::model::{PreparedModel, RoutingModel, SessionModel, SessionNode};

verus! {

/// The names that messages go by differ from each other.
proof fn reveal_message_names()
    ensures
        "id"@ != "method"@,
        "id"@ != "sessionId"@,
        "id"@ != "params"@,
        "id"@ != "error"@,
        "id"@ != "result"@,
        "error"@ != "result"@,
        "code"@ != "message"@,
        "sessionId"@ != "targetId"@,
        "method"@ != "sessionId"@,
        "method"@ != "params"@,
        "sessionId"@ != "params"@,
        "Target.attachedToTarget"@ != "Target.detachedFromTarget"@,
        "Target.detachFromTarget"@ != "Target.sendMessageToTarget"@,
{
    command::reveal_names();
    reveal_strlit("id");
    reveal_strlit("error");
    reveal_strlit("result");
    reveal_strlit("code");
    reveal_strlit("message");
    reveal_strlit("sessionId");
    reveal_strlit("targetId");
    reveal_strlit("Target.attachedToTarget");
    reveal_strlit("Target.detachedFromTarget");
    reveal_strlit("Target.detachFromTarget");
    reveal_strlit("Target.sendMessageToTarget");
    assert("id"@.len() == 2);
    assert("error"@.len() == 5);
    assert("result"@.len() == 6);
    assert("code"@.len() == 4);
    assert("message"@.len() == 7);
    assert("sessionId"@.len() == 9);
    assert("targetId"@.len() == 8);
    assert("Target.attachedToTarget"@.len() == 23);
    assert("Target.detachedFromTarget"@.len() == 25);
    assert("Target.detachFromTarget"@.len() == 23);
    assert("Target.sendMessageToTarget"@.len() == 26);
}

/// An event that comes under a session of a registered frontend, is not private
/// and announces no private session, reaches exactly that frontend, by its sink.
/// Under a child session it arrives with every member that it came with, its
/// session too. Under the base session it arrives with every member but that
/// one.
pub proof fn law_session_event_reaches_its_owner(
    model: RoutingModel,
    message: JsonTree,
    session: Seq<char>,
)
    requires
        json::member_unsigned(message, "id"@) is None,
        model.sessions.contains_key(session),
        model.frontends.contains_key(model.sessions[session].frontend_id),
        !model.private_sessions.contains(session),
        json::member(message, "method"@) == Some(JsonTree::Text("Target.attachedToTarget"@)) ==> (
        json::nested_text(message, "params"@, "sessionId"@) matches Some(child)
            ==> !model.private_sessions.contains(child)),
    ensures
        model::route(model, message, Some(session)).delivery matches Some(delivery) && {
            let owner = model.sessions[session].frontend_id;
            &&& delivery.frontend_id == owner
            &&& delivery.sink == model.frontends[owner].sink
            &&& model.sessions[session].node is Child ==> forall|key: Seq<char>| #[trigger]
                json::member(delivery.message, key) == json::member(message, key)
            &&& model.sessions[session].node is Base ==> forall|key: Seq<char>| #[trigger]
                json::member(delivery.message, key) == (if key == "sessionId"@ {
                    None
                } else {
                    json::member(message, key)
                })
        },
{
}

/// An event under a session that is private, or that belongs to no registered
/// frontend, reaches nobody. So does an event that announces a private session,
/// and an event under no session that does not tell of the end of one.
pub proof fn law_events_of_others_reach_nobody(
    model: RoutingModel,
    message: JsonTree,
    wire: Option<Seq<char>>,
)
    requires
        model::routing_inv(model),
        json::member_unsigned(message, "id"@) is None,
        ({
            ||| wire is Some && model.private_sessions.contains(wire->Some_0)
            ||| wire is Some && !model.sessions.contains_key(wire->Some_0)
            ||| json::member(message, "method"@) == Some(JsonTree::Text("Target.attachedToTarget"@))
                && (json::nested_text(message, "params"@, "sessionId"@) matches Some(child)
                && model.private_sessions.contains(child))
            ||| wire is None && json::member(message, "method"@) != Some(
                JsonTree::Text("Target.detachedFromTarget"@),
            )
            ||| wire is None && json::nested_text(message, "params"@, "sessionId"@) is None
        }),
    ensures
        model::route(model, message, wire).delivery is None,
        wire is None || !model.sessions.contains_key(wire->Some_0) ==> model::route(
            model,
            message,
            wire,
        ).model == model,
{
}

/// The announcement of a session, under a session of a frontend, makes it a
/// child of that session in the same frontend, with the target that it tells of,
/// unless the name is that of a session of another frontend or of a base
/// session. All other sessions stay as they are.
pub proof fn law_announced_session_becomes_a_child(
    model: RoutingModel,
    message: JsonTree,
    parent: Seq<char>,
    child: Seq<char>,
)
    requires
        model::routing_inv(model),
        json::member_unsigned(message, "id"@) is None,
        json::member(message, "method"@) == Some(JsonTree::Text("Target.attachedToTarget"@)),
        json::nested_text(message, "params"@, "sessionId"@) == Some(child),
        model.sessions.contains_key(parent),
        !model.private_sessions.contains(child),
    ensures
        ({
            let after = model::route(model, message, Some(parent)).model;
            let owner = model.sessions[parent].frontend_id;
            let free = !model.sessions.contains_key(child) || (model.sessions[child].frontend_id
                == owner && model.sessions[child].node is Child);
            let target = match json::member(message, "params"@) {
                Some(params) => match json::member(params, "targetInfo"@) {
                    Some(info) => match json::member(info, "targetId"@) {
                        Some(JsonTree::Text(target)) => Some(target),
                        _ => None,
                    },
                    None => None,
                },
                None => None,
            };
            &&& free ==> {
                &&& after.sessions.contains_key(child)
                &&& after.sessions[child].frontend_id == owner
                &&& after.sessions[child].node == (SessionNode::Child {
                    parent: Some(parent),
                    target,
                })
            }
            &&& !free ==> after.sessions == model.sessions
            &&& forall|other: Seq<char>|
                other != child ==> (#[trigger] after.sessions.contains_key(other)
                    <==> model.sessions.contains_key(other)) && (model.sessions.contains_key(other)
                    ==> after.sessions[other] == model.sessions[other])
            &&& after.pending == model.pending
            &&& after.frontends == model.frontends
        }),
{
    reveal_message_names();
    assert(model::session_inv(model, parent));
}

/// An answer to an attach command that names the new session makes it a child of
/// the session that the command ran in, with the target that the command named.
/// An answer that is an error, or that answers any other command, changes no
/// session.
pub proof fn law_attach_answer_makes_a_child(
    model: RoutingModel,
    message: JsonTree,
    wire: Option<Seq<char>>,
    id: u64,
)
    requires
        model::routing_inv(model),
        json::member_unsigned(message, "id"@) == Some(id),
        model.pending.contains_key(id),
    ensures
        ({
            let after = model::route(model, message, wire).model;
            let sent = model.pending[id];
            let attaches = sent.method == "Target.attachToTarget"@ && json::member(message, "error"@)
                is None && json::nested_text(message, "result"@, "sessionId"@) is Some;
            let child = json::nested_text(message, "result"@, "sessionId"@)->Some_0;
            &&& !attaches ==> after.sessions == model.sessions
            &&& attaches ==> forall|other: Seq<char>|
                other != child ==> (#[trigger] after.sessions.contains_key(other)
                    <==> model.sessions.contains_key(other)) && (model.sessions.contains_key(other)
                    ==> after.sessions[other] == model.sessions[other])
            &&& attaches && !model.sessions.contains_key(child) && (
            sent.dispatch_session_id matches Some(parent) && model.sessions.contains_key(parent)
                && model.sessions[parent].frontend_id == sent.frontend_id) ==> {
                &&& after.sessions.contains_key(child)
                &&& after.sessions[child].frontend_id == sent.frontend_id
                &&& after.sessions[child].node == (SessionNode::Child {
                    parent: sent.dispatch_session_id,
                    target: sent.attach_target_id,
                })
            }
            &&& attaches && model.sessions.contains_key(child) && (
            model.sessions[child].frontend_id != sent.frontend_id || model.sessions[child].node
                is Base) ==> after.sessions == model.sessions
            &&& after.frontends == model.frontends
            &&& after.private_sessions == model.private_sessions
        }),
{
    reveal_message_names();
    assert(model::pending_inv(model, id));
}

/// Whether some sessions are gone, the child session `root` first: with it went
/// exactly what stood below it. What is gone stood below something that is gone,
/// what is left stands below nothing that is gone, and is unchanged.
pub open spec fn gone_with(
    before: Map<Seq<char>, SessionModel>,
    after: Map<Seq<char>, SessionModel>,
    root: Seq<char>,
) -> bool {
    &&& !after.contains_key(root)
    &&& forall|session: Seq<char>| #[trigger]
        after.contains_key(session) ==> before.contains_key(session) && after[session]
            == before[session] && (after[session].node matches SessionNode::Child {
            parent: Some(parent),
            ..
        } ==> parent != root && (before.contains_key(parent) ==> after.contains_key(parent)))
    &&& forall|session: Seq<char>| #[trigger]
        before.contains_key(session) && !after.contains_key(session) && session != root
            ==> (before[session].node matches SessionNode::Child { parent: Some(parent), .. } && (
        parent == root || !after.contains_key(parent)))
}

proof fn lemma_cascade_is_gone(sessions: Map<Seq<char>, SessionModel>, root: Seq<char>)
    requires
        sessions.contains_key(root),
        sessions[root].node is Child,
    ensures
        gone_with(sessions, model::without_child_cascade(sessions, root), root),
{
    let after = model::without_child_cascade(sessions, root);
    assert forall|session: Seq<char>| #[trigger] after.contains_key(session) implies (
    after[session].node matches SessionNode::Child { parent: Some(parent), .. } ==> parent != root
        && (sessions.contains_key(parent) ==> after.contains_key(parent))) by {
        if let SessionNode::Child { parent: Some(parent), target } = after[session].node {
            if parent == root || model::descends(sessions, root, parent) {
                assert(model::child_link(sessions, parent, session));
                laws::lemma_descent_step(sessions, root, parent, session);
            }
        }
    }
    assert forall|session: Seq<char>| #[trigger]
        sessions.contains_key(session) && !after.contains_key(session) && session
            != root implies (sessions[session].node matches SessionNode::Child {
        parent: Some(parent),
        ..
    } && (parent == root || !after.contains_key(parent))) by {
        laws::lemma_descent_last(sessions, root, session);
    }
}

/// The end of a child session, told of under a session of a frontend, takes the
/// session and all that stand below it. The end of a session that is not there,
/// or of a base session, takes none. Any event that tells neither of the end nor
/// of the beginning of a session leaves all sessions.
pub proof fn law_ended_session_takes_its_descent(
    model: RoutingModel,
    message: JsonTree,
    wire: Seq<char>,
)
    requires
        model::routing_inv(model),
        json::member_unsigned(message, "id"@) is None,
        model.sessions.contains_key(wire),
        !model.private_sessions.contains(wire),
        json::member(message, "method"@) != Some(JsonTree::Text("Target.attachedToTarget"@)),
    ensures
        ({
            let after = model::route(model, message, Some(wire)).model;
            let ends = json::member(message, "method"@) == Some(
                JsonTree::Text("Target.detachedFromTarget"@),
            );
            let ended = json::nested_text(message, "params"@, "sessionId"@);
            &&& ends && (ended matches Some(session) && model.sessions.contains_key(session)
                && model.sessions[session].node is Child) ==> gone_with(
                model.sessions,
                after.sessions,
                ended->Some_0,
            )
            &&& !(ends && (ended matches Some(session) && model.sessions.contains_key(session)
                && model.sessions[session].node is Child)) ==> after.sessions == model.sessions
            &&& after.pending == model.pending
            &&& after.frontends == model.frontends
            &&& after.private_sessions == model.private_sessions
        }),
{
    assert(model::session_inv(model, wire));
    if let Some(session) = json::nested_text(message, "params"@, "sessionId"@) {
        if model.sessions.contains_key(session) && model.sessions[session].node is Child {
            lemma_cascade_is_gone(model.sessions, session);
        }
    }
}

/// The end of a session, told of under no session. Of a child session it reaches
/// the frontend that owns the session, under the session above it, or under none
/// where that is the base session, with every other member that it came with,
/// and takes what stands below. Of a private session it reaches nobody, and the
/// session is forgotten.
pub proof fn law_end_is_told_under_the_session_above(
    model: RoutingModel,
    message: JsonTree,
    ended: Seq<char>,
)
    requires
        model::routing_inv(model),
        json::member_unsigned(message, "id"@) is None,
        message is Members,
        json::member(message, "method"@) == Some(JsonTree::Text("Target.detachedFromTarget"@)),
        json::nested_text(message, "params"@, "sessionId"@) == Some(ended),
    ensures
        ({
            let routed = model::route(model, message, None);
            &&& model.private_sessions.contains(ended) ==> routed.delivery is None
                && routed.model.private_sessions == model.private_sessions.remove(ended)
                && routed.model.sessions == model.sessions
            &&& !model.private_sessions.contains(ended) && !model.sessions.contains_key(ended)
                ==> routed.delivery is None && routed.model == model
            &&& !model.private_sessions.contains(ended) && model.sessions.contains_key(ended) && (
            model.sessions[ended].node matches SessionNode::Child { parent, .. }) ==> {
                let owner = model.sessions[ended].frontend_id;
                let above = model.sessions[ended].node->parent;
                &&& routed.delivery is Some
                &&& routed.delivery->Some_0.frontend_id == owner
                &&& routed.delivery->Some_0.sink == model.frontends[owner].sink
                &&& forall|key: Seq<char>|
                    key != "sessionId"@ ==> #[trigger] json::member(
                        routed.delivery->Some_0.message,
                        key,
                    ) == json::member(message, key)
                &&& json::member(routed.delivery->Some_0.message, "sessionId"@) == (if above is Some
                    && above->Some_0 != model.frontends[owner].base_session_id {
                    Some(JsonTree::Text(above->Some_0))
                } else {
                    None
                })
                &&& gone_with(model.sessions, routed.model.sessions, ended)
            }
        }),
{
    reveal_message_names();
    if model.sessions.contains_key(ended) {
        assert(model::session_inv(model, ended));
        if model.sessions[ended].node is Child {
            lemma_cascade_is_gone(model.sessions, ended);
        }
    }
}

/// A command that is sent on keeps every member but its number, its session and,
/// where it refers to a session by its target, its parameters. It has a number
/// that no other command on its way has, and runs in the session that it names,
/// or in the base session of its frontend where it names none. What is kept of
/// it is what the client sent.
pub proof fn law_sent_command_is_the_one_received(
    model: RoutingModel,
    frontend_id: u64,
    command: JsonTree,
    sent: JsonTree,
)
    requires
        command::normal_shape(command),
        model.pending.dom().finite(),
        model.pending.dom().len() < 0xffff_ffff_ffff_ffff,
        model::prepare(model, frontend_id, command).prepared == Some(PreparedModel::Command(sent)),
    ensures
        ({
            let after = model::prepare(model, frontend_id, command).model;
            let dispatch = match json::member(command, "sessionId"@) {
                Some(JsonTree::Text(session)) => session,
                _ => model.frontends[frontend_id].base_session_id,
            };
            let id = json::member(sent, "id"@)->Some_0->Unsigned_0;
            &&& json::member(sent, "id"@) == Some(JsonTree::Unsigned(id))
            &&& id != 0
            &&& !model.pending.contains_key(id)
            &&& json::member(sent, "sessionId"@) == Some(JsonTree::Text(dispatch))
            &&& forall|key: Seq<char>|
                key != "id"@ && key != "sessionId"@ && key != "params"@ ==> #[trigger] json::member(
                    sent,
                    key,
                ) == json::member(command, key)
            &&& json::member(command, "params"@) is None ==> json::member(sent, "params"@) is None
            &&& json::member(command, "method"@) != Some(JsonTree::Text("Target.detachFromTarget"@))
                && json::member(command, "method"@) != Some(
                JsonTree::Text("Target.sendMessageToTarget"@),
            ) ==> json::member(sent, "params"@) == json::member(command, "params"@)
            &&& json::member(command, "params"@) is Some ==> json::member(sent, "params"@) is Some
                && forall|key: Seq<char>|
                key != "sessionId"@ ==> #[trigger] json::member(
                    json::member(sent, "params"@)->Some_0,
                    key,
                ) == json::member(json::member(command, "params"@)->Some_0, key)
            &&& model.frontends.contains_key(frontend_id)
            &&& json::member(command, "sessionId"@) is Some ==> model.sessions.contains_key(
                dispatch,
            ) && model.sessions[dispatch].frontend_id == frontend_id
                && model.sessions[dispatch].node is Child
            &&& after.sessions == model.sessions
            &&& after.frontends == model.frontends
            &&& after.pending.contains_key(id)
            &&& after.pending.remove(id) == model.pending
            &&& after.pending[id].frontend_id == frontend_id
            &&& after.pending[id].dispatch_session_id == Some(dispatch)
            &&& json::member(command, "id"@) == Some(
                JsonTree::Unsigned(after.pending[id].client_command_id),
            )
            &&& json::member(command, "method"@) == Some(JsonTree::Text(after.pending[id].method))
            &&& json::member(command, "sessionId"@) == (match after.pending[id].client_session_id {
                Some(session) => Some(JsonTree::Text(session)),
                None => None,
            })
            &&& after.pending[id].attach_target_id == (if json::member(command, "method"@) == Some(
                JsonTree::Text("Target.attachToTarget"@),
            ) {
                json::nested_text(command, "params"@, "targetId"@)
            } else {
                None
            })
        }),
{
    reveal_message_names();
    laws::lemma_fresh_free(model);
    let after = model::prepare(model, frontend_id, command).model;
    let id = model::fresh_id(model);
    assert(after.pending.remove(id) =~= model.pending);
}

/// A command that refers to a session by its target gets the one session that
/// debugs it directly below the session that the command runs in. Where there is
/// none, or more than one, and where it names a session that is not there, it is
/// refused, with the code and the text that say so.
pub proof fn law_target_reference_is_the_only_child(
    model: RoutingModel,
    frontend_id: u64,
    command: JsonTree,
    dispatch: Seq<char>,
    one: Seq<char>,
    two: Seq<char>,
)
    requires
        command::normal_shape(command),
        model.frontends.contains_key(frontend_id),
        json::member(command, "method"@) == Some(JsonTree::Text("Target.detachFromTarget"@))
            || json::member(command, "method"@) == Some(
            JsonTree::Text("Target.sendMessageToTarget"@),
        ),
        json::member(command, "params"@) is Some,
        match json::member(command, "sessionId"@) {
            None => dispatch == model.frontends[frontend_id].base_session_id,
            Some(session) => session == JsonTree::Text(dispatch) && model.sessions.contains_key(
                dispatch,
            ) && model.sessions[dispatch].frontend_id == frontend_id
                && model.sessions[dispatch].node is Child,
        },
    ensures
        ({
            let prepared = model::prepare(model, frontend_id, command);
            let params = json::member(command, "params"@)->Some_0;
            let named = json::member(params, "sessionId"@);
            let target = json::member(params, "targetId"@);
            let stands_below = |session: Seq<char>|
                model.sessions.contains_key(session) && model.sessions[session].frontend_id
                    == frontend_id && (model.sessions[session].node matches SessionNode::Child {
                    parent,
                    ..
                } && parent == Some(dispatch));
            let debugs_it = |session: Seq<char>|
                stands_below(session) && target == Some(
                    JsonTree::Text(model.sessions[session].node->target->Some_0),
                ) && model.sessions[session].node->target is Some;
            &&& named matches Some(JsonTree::Text(session)) ==> {
                &&& stands_below(session) ==> prepared.prepared is Some
                    && prepared.prepared->Some_0 is Command && json::member(
                    prepared.prepared->Some_0->Command_0,
                    "params"@,
                ) == Some(params)
                &&& !stands_below(session) ==> refuses(
                    prepared,
                    model,
                    frontend_id,
                    command,
                    -32602,
                    "No session with given id"@,
                )
            }
            &&& (named is None || named == Some(JsonTree::Null)) && target is Some
                && target->Some_0 is Text ==> {
                &&& (forall|session: Seq<char>| !#[trigger] debugs_it(session)) ==> refuses(
                    prepared,
                    model,
                    frontend_id,
                    command,
                    -32602,
                    "No session for given target id"@,
                )
                &&& debugs_it(one) && debugs_it(two) && one != two ==> refuses(
                    prepared,
                    model,
                    frontend_id,
                    command,
                    -32000,
                    "Multiple sessions attached, specify id."@,
                )
                &&& debugs_it(one) && (forall|session: Seq<char>| #[trigger]
                    debugs_it(session) ==> session == one) ==> prepared.prepared is Some
                    && prepared.prepared->Some_0 is Command && json::nested_text(
                    prepared.prepared->Some_0->Command_0,
                    "params"@,
                    "sessionId"@,
                ) == Some(one)
            }
        }),
{
    reveal_message_names();
    let prepared = model::prepare(model, frontend_id, command);
    let params = json::member(command, "params"@)->Some_0;
    let named = json::member(params, "sessionId"@);
    let stands_below = |session: Seq<char>|
        model.sessions.contains_key(session) && model.sessions[session].frontend_id == frontend_id
            && (model.sessions[session].node matches SessionNode::Child { parent, .. } && parent
            == Some(dispatch));
    let debugs_it = |session: Seq<char>|
        stands_below(session) && json::member(params, "targetId"@) == Some(
            JsonTree::Text(model.sessions[session].node->target->Some_0),
        ) && model.sessions[session].node->target is Some;
    let method = command::command_method(command);
    assert(command::command_session(command) is None
        || command::command_session(command) == Some(dispatch));
    assert(model::dispatch_session(model, frontend_id, command::command_session(command)) == Some(
        dispatch,
    ));
    assert(model::target_reference(model, frontend_id, Some(dispatch), method, Some(params)) == (
    match named {
        Some(JsonTree::Text(session)) => if model::direct_child(
            model,
            frontend_id,
            Some(dispatch),
            session,
        ) {
            model::TargetReference::Unchanged
        } else {
            model::TargetReference::Refused { code: -32602, message: "No session with given id"@ }
        },
        Some(JsonTree::Null) | None => model::reference_by_target(
            model,
            frontend_id,
            Some(dispatch),
            json::member_text(params, "targetId"@),
        ),
        Some(_) => model::TargetReference::Unchanged,
    }));
    if let Some(JsonTree::Text(session)) = named {
        assert(stands_below(session) == model::direct_child(
            model,
            frontend_id,
            Some(dispatch),
            session,
        ));
    } else if (named is None || named == Some(JsonTree::Null)) && json::member(params, "targetId"@)
        is Some && json::member(params, "targetId"@)->Some_0 is Text {
        let target = json::member(params, "targetId"@)->Some_0->Text_0;
        assert forall|session: Seq<char>| #[trigger]
            debugs_it(session) == model::direct_child_of_target(
                model,
                frontend_id,
                Some(dispatch),
                target,
                session,
            ) by {}
        if debugs_it(one) {
            assert(model::direct_child_of_target(
                model,
                frontend_id,
                Some(dispatch),
                target,
                one,
            ));
            if debugs_it(two) && one != two {
                assert(model::direct_child_of_target(
                    model,
                    frontend_id,
                    Some(dispatch),
                    target,
                    two,
                ));
                assert(model::many_children_of_target(
                    model,
                    frontend_id,
                    Some(dispatch),
                    target,
                ));
            }
            if forall|session: Seq<char>| #[trigger] debugs_it(session) ==> session == one {
                assert forall|session: Seq<char>| #[trigger]
                    model::direct_child_of_target(
                        model,
                        frontend_id,
                        Some(dispatch),
                        target,
                        session,
                    ) implies session == one by {
                    assert(debugs_it(session));
                }
                assert(!model::many_children_of_target(
                    model,
                    frontend_id,
                    Some(dispatch),
                    target,
                ));
            }
        }
        if forall|session: Seq<char>| !#[trigger] debugs_it(session) {
            assert forall|session: Seq<char>| !#[trigger]
                model::direct_child_of_target(
                    model,
                    frontend_id,
                    Some(dispatch),
                    target,
                    session,
                ) by {
                assert(!debugs_it(session));
            }
            assert(!model::any_child_of_target(model, frontend_id, Some(dispatch), target));
        }
    }
}

/// Whether a command was refused at once, and nothing else happened: the answer
/// goes to its frontend, under the number that the client used, and holds an
/// error with a code and a text.
pub open spec fn refuses(
    prepared: model::Preparation,
    model: RoutingModel,
    frontend_id: u64,
    command: JsonTree,
    code: int,
    text: Seq<char>,
) -> bool {
    &&& prepared.model == model
    &&& prepared.prepared matches Some(
        PreparedModel::ImmediateResponse { frontend_id: sender, message },
    ) && {
        &&& sender == frontend_id
        &&& json::member(message, "id"@) == json::member(command, "id"@)
        &&& json::member(message, "result"@) is None
        &&& json::member(message, "error"@) is Some
        &&& json::member(json::member(message, "error"@)->Some_0, "code"@) == Some(
            JsonTree::Negative(code as i64),
        )
        &&& json::member(json::member(message, "error"@)->Some_0, "message"@) == Some(
            JsonTree::Text(text),
        )
    }
}

/// A command for a session that its frontend does not own, or that is the base
/// session, is refused. A command of a frontend that is not registered is
/// dropped.
pub proof fn law_command_for_a_foreign_session_is_refused(
    model: RoutingModel,
    frontend_id: u64,
    command: JsonTree,
    session: Seq<char>,
)
    requires
        command::normal_shape(command),
        json::member(command, "sessionId"@) == Some(JsonTree::Text(session)),
        !model.sessions.contains_key(session) || model.sessions[session].frontend_id != frontend_id
            || model.sessions[session].node is Base,
    ensures
        model.frontends.contains_key(frontend_id) ==> refuses(
            model::prepare(model, frontend_id, command),
            model,
            frontend_id,
            command,
            -32001,
            "Unknown sessionId"@,
        ),
        !model.frontends.contains_key(frontend_id) ==> model::prepare(
            model,
            frontend_id,
            command,
        ).prepared is None && model::prepare(model, frontend_id, command).model == model,
{
    reveal_message_names();
}

} // verus!
