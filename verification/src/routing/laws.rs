//! Laws of the routing state.
use vstd::prelude::*;

use crate::command;
use crate::json;
use crate::json::JsonTree;
use crate::routing::model;
use crate::routing::model::{
    Delivery, FrontendModel, PendingModel, PreparedModel, RoutingModel, SessionModel, SessionNode,
    TargetReference,
};
use crate::tables;

verus! {

/// A number that is `steps` ahead of the last one given and the first that is
/// not taken is the one that the next command gets.
pub proof fn lemma_fresh_unique(model: RoutingModel, steps: int)
    requires
        model::fresh_after(model, steps),
    ensures
        model::fresh_id(model) == model::wrapped(model.next_internal_command_id, steps),
{
    let start = model.next_internal_command_id;
    let chosen = choose|chosen: int| model::fresh_after(model, chosen);
    assert(model::fresh_after(model, chosen));
    if chosen < steps {
        assert(model::taken(model, model::wrapped(start, chosen)));
    } else if steps < chosen {
        assert(model::taken(model, model::wrapped(start, steps)));
    }
}

/// While fewer commands are pending than there are numbers, one of the numbers
/// ahead is not taken.
pub proof fn lemma_numbers_left(model: RoutingModel)
    requires
        model.pending.dom().finite(),
        model.pending.dom().len() < 0xffff_ffff_ffff_ffff,
    ensures
        exists|steps: int|
            1 <= steps <= 0x1_0000_0000_0000_0000 && !model::taken(
                model,
                #[trigger] model::wrapped(model.next_internal_command_id, steps),
            ),
{
    let start = model.next_internal_command_id;
    if forall|steps: int|
        1 <= steps <= 0x1_0000_0000_0000_0000 ==> model::taken(
            model,
            #[trigger] model::wrapped(start, steps),
        ) {
        lemma_all_taken(model);
    }
}

/// Where all numbers ahead are taken, every number but zero is pending.
proof fn lemma_all_taken(model: RoutingModel)
    requires
        model.pending.dom().finite(),
        forall|steps: int|
            1 <= steps <= 0x1_0000_0000_0000_0000 ==> model::taken(
                model,
                #[trigger] model::wrapped(model.next_internal_command_id, steps),
            ),
    ensures
        model.pending.dom().len() >= 0xffff_ffff_ffff_ffff,
{
    let start = model.next_internal_command_id;
    let range = vstd::set_lib::set_int_range(1, 0x1_0000_0000_0000_0000);
    let number = |index: int| index as u64;
    let numbers = range.map(number);
    vstd::set_lib::lemma_int_range(1, 0x1_0000_0000_0000_0000);
    assert forall|left: int, right: int|
        range.contains(left) && range.contains(right) && #[trigger] number(left)
            == #[trigger] number(right) implies left == right by {}
    vstd::set_lib::lemma_map_size(range, numbers, number);
    assert forall|id: u64| #[trigger] numbers.contains(id) implies model.pending.dom().contains(
        id,
    ) by {
        let index = choose|index: int| range.contains(index) && id == #[trigger] number(index);
        let steps: int = if id > start {
            id - start
        } else {
            id - start + 0x1_0000_0000_0000_0000
        };
        assert(model::wrapped(start, steps) == id);
    }
    vstd::set_lib::lemma_len_subset(numbers, model.pending.dom());
}

/// Registering a frontend under a free number and a free session keeps the
/// invariant.
pub proof fn law_register_keeps_inv(
    model: RoutingModel,
    frontend_id: u64,
    frontend: FrontendModel,
)
    requires
        model::routing_inv(model),
        !model.frontends.contains_key(frontend_id),
        !model.sessions.contains_key(frontend.base_session_id),
    ensures
        model::routing_inv(model::with_frontend(model, frontend_id, frontend)),
{
    let after = model::with_frontend(model, frontend_id, frontend);
    assert forall|session: Seq<char>| #[trigger]
        after.sessions.contains_key(session) implies model::session_inv(after, session) by {
        if session != frontend.base_session_id {
            assert(model.sessions.contains_key(session));
            assert(model::session_inv(model, session));
        }
    }
    assert forall|id: u64| #[trigger] after.frontends.contains_key(id) implies model::frontend_inv(
        after,
        id,
    ) by {
        if id != frontend_id {
            assert(model.frontends.contains_key(id));
            assert(model::frontend_inv(model, id));
        }
    }
    assert forall|id: u64| #[trigger] after.pending.contains_key(id) implies model::pending_inv(
        after,
        id,
    ) by {
        assert(model.pending.contains_key(id));
        assert(model::pending_inv(model, id));
    }
}

/// Releasing a frontend keeps the invariant.
pub proof fn law_unregister_keeps_inv(model: RoutingModel, frontend_id: u64)
    requires
        model::routing_inv(model),
        model.frontends.contains_key(frontend_id),
    ensures
        model::routing_inv(model::without_frontend(model, frontend_id)),
{
    let after = model::without_frontend(model, frontend_id);
    assert forall|session: Seq<char>| #[trigger]
        after.sessions.contains_key(session) implies model::session_inv(after, session) by {
        assert(model.sessions.contains_key(session));
        assert(model::session_inv(model, session));
        match model.sessions[session].node {
            SessionNode::Child { parent: Some(parent), target: _ } => {
                assert(model.sessions.contains_key(parent));
            },
            _ => {},
        }
    }
    assert forall|id: u64| #[trigger] after.frontends.contains_key(id) implies model::frontend_inv(
        after,
        id,
    ) by {
        assert(model.frontends.contains_key(id));
        assert(model::frontend_inv(model, id));
    }
    assert forall|id: u64| #[trigger] after.pending.contains_key(id) implies model::pending_inv(
        after,
        id,
    ) by {
        assert(model.pending.contains_key(id));
        assert(model::pending_inv(model, id));
    }
}

/// Registering a child session keeps the invariant.
pub proof fn law_child_keeps_inv(
    model: RoutingModel,
    frontend_id: u64,
    parent: Option<Seq<char>>,
    child: Seq<char>,
    target: Option<Seq<char>>,
)
    requires
        model::routing_inv(model),
    ensures
        model::routing_inv(model::with_child(model, frontend_id, parent, child, target)),
{
    let after = model::with_child(model, frontend_id, parent, child, target);
    if model::child_admitted(model, frontend_id, parent, child) {
        assert forall|session: Seq<char>| #[trigger]
            after.sessions.contains_key(session) implies model::session_inv(after, session) by {
            if session != child {
                assert(model.sessions.contains_key(session));
                assert(model::session_inv(model, session));
            }
        }
        assert forall|id: u64| #[trigger]
            after.frontends.contains_key(id) implies model::frontend_inv(after, id) by {
            assert(model.frontends.contains_key(id));
            assert(model::frontend_inv(model, id));
        }
        assert forall|id: u64| #[trigger]
            after.pending.contains_key(id) implies model::pending_inv(after, id) by {
            assert(model.pending.contains_key(id));
            assert(model::pending_inv(model, id));
        }
    }
}

/// What stands directly below a session that stands below `root`, or below
/// `root` itself, stands below `root`.
pub proof fn lemma_descent_step(
    sessions: Map<Seq<char>, SessionModel>,
    root: Seq<char>,
    parent: Seq<char>,
    child: Seq<char>,
)
    requires
        parent == root || model::descends(sessions, root, parent),
        model::child_link(sessions, parent, child),
    ensures
        model::descends(sessions, root, child),
{
    if model::descends(sessions, root, parent) {
        let path = choose|path: Seq<Seq<char>>| model::descent(sessions, path, root, parent);
        let longer = path.push(child);
        assert forall|index: int| 0 <= index < longer.len() - 1 implies model::child_link(
            sessions,
            #[trigger] longer[index],
            longer[index + 1],
        ) by {
            if index < path.len() - 1 {
                assert(longer[index] == path[index] && longer[index + 1] == path[index + 1]);
            }
        }
        assert(model::descent(sessions, longer, root, child));
    } else {
        let path = seq![root, child];
        assert(path[0] == root && path[1] == child);
        assert(model::descent(sessions, path, root, child));
    }
}

/// What stands below a session is a child session directly below one that
/// stands below it too, or below the session itself.
pub proof fn lemma_descent_last(
    sessions: Map<Seq<char>, SessionModel>,
    root: Seq<char>,
    session: Seq<char>,
)
    requires
        model::descends(sessions, root, session),
    ensures
        sessions.contains_key(session),
        sessions[session].node is Child,
        sessions[session].node->parent matches Some(parent) && (parent == root || model::descends(
            sessions,
            root,
            parent,
        )),
{
    let path = choose|path: Seq<Seq<char>>| model::descent(sessions, path, root, session);
    let last = path.len() - 2;
    assert(model::child_link(sessions, path[last], path[last + 1]));
    if last > 0 {
        let shorter = path.drop_last();
        assert forall|index: int| 0 <= index < shorter.len() - 1 implies model::child_link(
            sessions,
            #[trigger] shorter[index],
            shorter[index + 1],
        ) by {
            assert(shorter[index] == path[index] && shorter[index + 1] == path[index + 1]);
        }
        assert(model::descent(sessions, shorter, root, path[last]));
    }
}

/// Removing the sessions below a base session, or a child session with those
/// below it, keeps the invariant.
pub proof fn law_cascade_keeps_inv(model: RoutingModel, root: Seq<char>)
    requires
        model::routing_inv(model),
    ensures
        model.sessions.contains_key(root) && model.sessions[root].node is Base
            ==> model::routing_inv(
            model::with_sessions(model, model::without_descendants(model.sessions, root)),
        ),
        model::routing_inv(
            model::with_sessions(model, model::without_child_cascade(model.sessions, root)),
        ),
{
    let below = model::without_descendants(model.sessions, root);
    let cascade = model::without_child_cascade(model.sessions, root);
    if model.sessions.contains_key(root) {
        let left = if model.sessions[root].node is Base {
            below
        } else {
            cascade
        };
        lemma_pruned_inv(model, root, left);
        if model.sessions[root].node is Base {
            assert(cascade == model.sessions);
            assert(model::with_sessions(model, cascade) == model);
        }
    } else {
        assert(model::with_sessions(model, cascade) == model);
    }
}

proof fn lemma_pruned_inv(
    model: RoutingModel,
    root: Seq<char>,
    left: Map<Seq<char>, SessionModel>,
)
    requires
        model::routing_inv(model),
        model.sessions.contains_key(root),
        left == (if model.sessions[root].node is Base {
            model::without_descendants(model.sessions, root)
        } else {
            model::without_descendants(model.sessions, root).remove(root)
        }),
    ensures
        model::routing_inv(model::with_sessions(model, left)),
{
    let after = model::with_sessions(model, left);
    assert forall|session: Seq<char>| #[trigger]
        after.sessions.contains_key(session) implies model::session_inv(after, session) by {
        assert(model.sessions.contains_key(session));
        assert(model::session_inv(model, session));
        match model.sessions[session].node {
            SessionNode::Child { parent: Some(parent), target: _ } => {
                assert(model::child_link(model.sessions, parent, session));
                if !left.contains_key(parent) {
                    assert(parent == root || model::descends(model.sessions, root, parent));
                    lemma_descent_step(model.sessions, root, parent, session);
                }
            },
            _ => {},
        }
    }
    assert forall|id: u64| #[trigger] after.frontends.contains_key(id) implies model::frontend_inv(
        after,
        id,
    ) by {
        assert(model.frontends.contains_key(id));
        assert(model::frontend_inv(model, id));
        let base = model.frontends[id].base_session_id;
        if model::descends(model.sessions, root, base) {
            lemma_descent_last(model.sessions, root, base);
        }
    }
    assert forall|id: u64| #[trigger] after.pending.contains_key(id) implies model::pending_inv(
        after,
        id,
    ) by {
        assert(model.pending.contains_key(id));
        assert(model::pending_inv(model, id));
    }
}

/// Preparing a command keeps the invariant, while numbers are left.
pub proof fn law_prepare_keeps_inv(model: RoutingModel, frontend_id: u64, command: JsonTree)
    requires
        model::routing_inv(model),
        model.pending.dom().finite(),
        model.pending.dom().len() < 0xffff_ffff_ffff_ffff,
    ensures
        model::routing_inv(model::prepare(model, frontend_id, command).model),
{
    lemma_fresh_free(model);
    let after = model::prepare(model, frontend_id, command).model;
    let id = model::fresh_id(model);
    assert forall|session: Seq<char>| #[trigger]
        after.sessions.contains_key(session) implies model::session_inv(after, session) by {
        assert(model.sessions.contains_key(session));
        assert(model::session_inv(model, session));
    }
    assert forall|id: u64| #[trigger] after.frontends.contains_key(id) implies model::frontend_inv(
        after,
        id,
    ) by {
        assert(model.frontends.contains_key(id));
        assert(model::frontend_inv(model, id));
    }
    assert forall|other: u64| #[trigger]
        after.pending.contains_key(other) implies model::pending_inv(after, other) by {
        if model.pending.contains_key(other) {
            assert(model::pending_inv(model, other));
        } else {
            assert(other == id);
            assert(model::frontend_inv(model, frontend_id));
        }
    }
}

/// The number that the next command gets is neither zero nor pending.
pub proof fn lemma_fresh_free(model: RoutingModel)
    requires
        model.pending.dom().finite(),
        model.pending.dom().len() < 0xffff_ffff_ffff_ffff,
    ensures
        !model::taken(model, model::fresh_id(model)),
{
    lemma_numbers_left(model);
    let start = model.next_internal_command_id;
    let some = choose|steps: int|
        1 <= steps <= 0x1_0000_0000_0000_0000 && !model::taken(
            model,
            #[trigger] model::wrapped(start, steps),
        );
    let first = lemma_first_free(model, some);
    lemma_fresh_unique(model, first);
}

proof fn lemma_first_free(model: RoutingModel, some: int) -> (first: int)
    requires
        1 <= some <= 0x1_0000_0000_0000_0000,
        !model::taken(model, model::wrapped(model.next_internal_command_id, some)),
    ensures
        model::fresh_after(model, first),
    decreases some,
{
    let start = model.next_internal_command_id;
    if model::fresh_after(model, some) {
        some
    } else {
        let earlier = choose|earlier: int|
            1 <= earlier < some && !model::taken(model, #[trigger] model::wrapped(start, earlier));
        lemma_first_free(model, earlier)
    }
}

/// Routing a message keeps the invariant.
pub proof fn law_route_keeps_inv(model: RoutingModel, message: JsonTree, wire: Option<Seq<char>>)
    requires
        model::routing_inv(model),
    ensures
        model::routing_inv(model::route(model, message, wire).model),
{
    match json::member_unsigned(message, "id"@) {
        Some(id) => {
            if model.pending.contains_key(id) {
                lemma_response_keeps_inv(model, message, id);
            }
        },
        None => {
            let noted = model::note_attachment(model, message, wire);
            match (model::announced_session(message), wire) {
                (Some(child), Some(parent)) => {
                    if model.sessions.contains_key(parent) {
                        law_child_keeps_inv(
                            model,
                            model.sessions[parent].frontend_id,
                            Some(parent),
                            child,
                            model::event_target(message),
                        );
                    }
                },
                _ => {},
            }
            assert(model::routing_inv(noted));
            match model::event_session(message) {
                Some(detached) => {
                    law_cascade_keeps_inv(noted, detached);
                    let unlisted = RoutingModel {
                        private_sessions: noted.private_sessions.remove(detached),
                        ..noted
                    };
                    lemma_same_routes_inv(noted, unlisted);
                },
                None => {},
            }
        },
    }
}

/// The invariant does not speak of private sessions, of the last number given
/// or of the sinks to close.
pub(crate) proof fn lemma_same_routes_inv(model: RoutingModel, other: RoutingModel)
    requires
        model::routing_inv(model),
        other.pending == model.pending,
        other.frontends == model.frontends,
        other.sessions == model.sessions,
    ensures
        model::routing_inv(other),
{
    assert forall|session: Seq<char>| #[trigger]
        other.sessions.contains_key(session) implies model::session_inv(other, session) by {
        assert(model::session_inv(model, session));
    }
    assert forall|id: u64| #[trigger] other.frontends.contains_key(id) implies model::frontend_inv(
        other,
        id,
    ) by {
        assert(model::frontend_inv(model, id));
    }
    assert forall|id: u64| #[trigger] other.pending.contains_key(id) implies model::pending_inv(
        other,
        id,
    ) by {
        assert(model::pending_inv(model, id));
    }
}

/// Forgetting an answered command keeps the invariant.
pub(crate) proof fn lemma_answered_inv(model: RoutingModel, id: u64)
    requires
        model::routing_inv(model),
        model.pending.contains_key(id),
    ensures
        model::routing_inv(RoutingModel { pending: model.pending.remove(id), ..model }),
{
    let answered = RoutingModel { pending: model.pending.remove(id), ..model };
    assert forall|session: Seq<char>| #[trigger]
        answered.sessions.contains_key(session) implies model::session_inv(answered, session) by {
        assert(model::session_inv(model, session));
    }
    assert forall|id: u64| #[trigger]
        answered.frontends.contains_key(id) implies model::frontend_inv(answered, id) by {
        assert(model::frontend_inv(model, id));
    }
    assert forall|id: u64| #[trigger] answered.pending.contains_key(id) implies model::pending_inv(
        answered,
        id,
    ) by {
        assert(model.pending.contains_key(id));
        assert(model::pending_inv(model, id));
    }
}

proof fn lemma_response_keeps_inv(model: RoutingModel, message: JsonTree, id: u64)
    requires
        model::routing_inv(model),
        model.pending.contains_key(id),
    ensures
        model::routing_inv(model::route_response(model, message, id).model),
{
    lemma_answered_inv(model, id);
    let answered = RoutingModel { pending: model.pending.remove(id), ..model };
    let pending = model.pending[id];
    let renumbered = json::with_member(
        message,
        "id"@,
        JsonTree::Unsigned(pending.client_command_id),
    );
    match json::nested_text(renumbered, "result"@, "sessionId"@) {
        Some(child) => {
            law_child_keeps_inv(
                answered,
                pending.frontend_id,
                pending.dispatch_session_id,
                child,
                pending.attach_target_id,
            );
        },
        None => {},
    }
}

/// A set that holds `root` and, with each session, what stands directly below
/// it, holds all that stands below `root`.
pub(crate) proof fn lemma_closed_below(
    sessions: Map<Seq<char>, SessionModel>,
    visited: Set<Seq<char>>,
    root: Seq<char>,
    session: Seq<char>,
)
    requires
        visited.contains(root),
        forall|parent: Seq<char>, child: Seq<char>|
            visited.contains(parent) && #[trigger] model::child_link(sessions, parent, child)
                ==> visited.contains(child),
        model::descends(sessions, root, session),
    ensures
        visited.contains(session),
{
    let path = choose|path: Seq<Seq<char>>| model::descent(sessions, path, root, session);
    lemma_closed_path(sessions, visited, root, session, path, path.len() - 1);
}

proof fn lemma_closed_path(
    sessions: Map<Seq<char>, SessionModel>,
    visited: Set<Seq<char>>,
    root: Seq<char>,
    session: Seq<char>,
    path: Seq<Seq<char>>,
    index: int,
)
    requires
        visited.contains(root),
        forall|parent: Seq<char>, child: Seq<char>|
            visited.contains(parent) && #[trigger] model::child_link(sessions, parent, child)
                ==> visited.contains(child),
        model::descent(sessions, path, root, session),
        0 <= index < path.len(),
    ensures
        visited.contains(path[index]),
    decreases index,
{
    if index > 0 {
        lemma_closed_path(sessions, visited, root, session, path, index - 1);
        assert(model::child_link(sessions, path[index - 1], path[index - 1 + 1]));
    }
}

/// The number under which a prepared command is sent.
pub open spec fn sent_id(prepared: Option<PreparedModel>) -> Option<u64> {
    match prepared {
        Some(PreparedModel::Command(command)) => json::member_unsigned(command, "id"@),
        _ => None,
    }
}

/// Whether an answer goes to the frontend of a command that is on its way,
/// under the number and the session that the client used, with all else that it
/// holds.
pub open spec fn answers(
    model: RoutingModel,
    pending: PendingModel,
    answer: JsonTree,
    delivery: Option<Delivery>,
) -> bool {
    delivery matches Some(delivery) && {
        &&& delivery.frontend_id == pending.frontend_id
        &&& delivery.sink == model.frontends[pending.frontend_id].sink
        &&& delivery.message is Members
        &&& json::member_unsigned(delivery.message, "id"@) == Some(pending.client_command_id)
        &&& json::member_text(delivery.message, "sessionId"@) == pending.client_session_id
        &&& pending.client_session_id is None ==> json::member(delivery.message, "sessionId"@)
            is None
        &&& forall|key: Seq<char>|
            key != "id"@ && key != "sessionId"@ ==> #[trigger] json::member(delivery.message, key)
                == json::member(answer, key)
    }
}

/// A command that is on its way is answered once, whenever the answer comes: it
/// goes to the frontend that sent the command, under the number and the session
/// that the client used, with all else that it holds. A second answer under the
/// number reaches nobody and changes nothing.
pub proof fn law_pending_is_answered_once(
    model: RoutingModel,
    id: u64,
    answer: JsonTree,
    wire: Option<Seq<char>>,
    second: JsonTree,
    second_wire: Option<Seq<char>>,
)
    requires
        model::routing_inv(model),
        model.pending.contains_key(id),
        json::member_unsigned(answer, "id"@) == Some(id),
        json::member_unsigned(second, "id"@) == Some(id),
    ensures
        ({
            let once = model::route(model, answer, wire);
            &&& answers(model, model.pending[id], answer, once.delivery)
            &&& !once.model.pending.contains_key(id)
            &&& model::route(once.model, second, second_wire) == model::dropped(once.model)
        }),
{
    command::reveal_names();
    assert(model::pending_inv(model, id));
}

/// The command that a frontend sent, as it is kept while it is on its way.
pub open spec fn kept_command(
    model: RoutingModel,
    frontend_id: u64,
    command: JsonTree,
) -> PendingModel {
    PendingModel {
        frontend_id,
        dispatch_session_id: model::dispatch_session(
            model,
            frontend_id,
            command::command_session(command),
        ),
        client_session_id: command::command_session(command),
        client_command_id: command::command_id(command),
        method: command::command_method(command),
        attach_target_id: model::attach_target(command),
    }
}

/// An answer to a command goes to the frontend that sent the command, under
/// the number and the session that the client used, with all else that it holds.
/// A second answer under the number reaches nobody and changes nothing.
pub proof fn law_answer_returns_to_sender(
    model: RoutingModel,
    frontend_id: u64,
    command: JsonTree,
    answer: JsonTree,
    wire: Option<Seq<char>>,
    second: JsonTree,
    second_wire: Option<Seq<char>>,
)
    requires
        model::routing_inv(model),
        model.pending.dom().finite(),
        model.pending.dom().len() < 0xffff_ffff_ffff_ffff,
        command::normal_shape(command),
        model::prepare(model, frontend_id, command).prepared matches Some(
            PreparedModel::Command(_),
        ),
        json::member_unsigned(answer, "id"@) == sent_id(
            model::prepare(model, frontend_id, command).prepared,
        ),
        json::member_unsigned(second, "id"@) == json::member_unsigned(answer, "id"@),
    ensures
        ({
            let sent = model::prepare(model, frontend_id, command);
            let once = model::route(sent.model, answer, wire);
            &&& answers(model, kept_command(model, frontend_id, command), answer, once.delivery)
            &&& model::route(once.model, second, second_wire) == model::dropped(once.model)
        }),
{
    command::reveal_names();
    law_prepare_keeps_inv(model, frontend_id, command);
    let after = model::prepare(model, frontend_id, command).model;
    let id = json::member_unsigned(answer, "id"@)->Some_0;
    assert(id == model::fresh_id(model));
    assert(after.pending[id] == kept_command(model, frontend_id, command));
    law_pending_is_answered_once(after, id, answer, wire, second, second_wire);
}

/// Whether a command that is on its way is so still, unchanged.
pub open spec fn stays_pending(before: RoutingModel, after: RoutingModel, id: u64) -> bool {
    after.pending.contains_key(id) && after.pending[id] == before.pending[id]
}

/// A command stays on its way, unchanged, until its answer comes or its frontend
/// is released: whatever else is sent, whatever else comes, and whichever
/// frontends and sessions come and go.
pub proof fn law_command_stays_pending(
    model: RoutingModel,
    id: u64,
    frontend_id: u64,
    frontend: FrontendModel,
    command: JsonTree,
    message: JsonTree,
    session: Option<Seq<char>>,
    child: Seq<char>,
    target: Option<Seq<char>>,
)
    requires
        model.pending.dom().finite(),
        model.pending.dom().len() < 0xffff_ffff_ffff_ffff,
        model.pending.contains_key(id),
    ensures
        stays_pending(model, model::prepare(model, frontend_id, command).model, id),
        json::member_unsigned(message, "id"@) != Some(id) ==> stays_pending(
            model,
            model::route(model, message, session).model,
            id,
        ),
        stays_pending(model, model::with_frontend(model, frontend_id, frontend), id),
        stays_pending(model, model::with_child(model, frontend_id, session, child, target), id),
        model.pending[id].frontend_id != frontend_id ==> stays_pending(
            model,
            model::without_frontend(model, frontend_id),
            id,
        ),
{
    lemma_fresh_free(model);
    law_routing_counts(model, message, session);
}

/// Events leave the commands that are on their way.
proof fn lemma_event_keeps_commands(
    model: RoutingModel,
    message: JsonTree,
    wire: Option<Seq<char>>,
)
    ensures
        model::route_event(model, message, wire).model.pending == model.pending,
{
}

/// A command that is sent on is one more on its way, and nothing else that a
/// frontend sends is.
pub proof fn law_preparation_counts(model: RoutingModel, frontend_id: u64, command: JsonTree)
    requires
        model.pending.dom().finite(),
        model.pending.dom().len() < 0xffff_ffff_ffff_ffff,
    ensures
        ({
            let after = model::prepare(model, frontend_id, command);
            let sent: nat = if after.prepared matches Some(PreparedModel::Command(_)) {
                1
            } else {
                0
            };
            &&& after.model.pending.dom().finite()
            &&& after.model.pending.dom().len() == model.pending.dom().len() + sent
        }),
{
    lemma_fresh_free(model);
    let after = model::prepare(model, frontend_id, command);
    if after.prepared matches Some(PreparedModel::Command(_)) {
        assert(after.model.pending.dom() =~= model.pending.dom().insert(model::fresh_id(model)));
    }
}

/// An answer to a command that is on its way takes that one away, and nothing
/// else that comes from the shared connection takes or adds one.
pub proof fn law_routing_counts(model: RoutingModel, message: JsonTree, wire: Option<Seq<char>>)
    requires
        model.pending.dom().finite(),
    ensures
        ({
            let after = model::route(model, message, wire).model;
            match json::member_unsigned(message, "id"@) {
                Some(id) => after.pending == model.pending.remove(id),
                None => after.pending == model.pending,
            }
        }),
        ({
            let after = model::route(model, message, wire).model;
            let answered: nat = if json::member_unsigned(message, "id"@) matches Some(id)
                && model.pending.contains_key(id) {
                1
            } else {
                0
            };
            &&& after.pending.dom().finite()
            &&& after.pending.dom().len() + answered == model.pending.dom().len()
        }),
{
    match json::member_unsigned(message, "id"@) {
        Some(id) => {
            let after = model::route(model, message, wire).model;
            assert(after.pending =~= model.pending.remove(id));
            assert(after.pending.dom() =~= model.pending.dom().remove(id));
        },
        None => {
            lemma_event_keeps_commands(model, message, wire);
        },
    }
}

/// Releasing a frontend adds no command.
pub proof fn law_release_adds_none(model: RoutingModel, frontend_id: u64)
    requires
        model.pending.dom().finite(),
    ensures
        model::without_frontend(model, frontend_id).pending.dom().finite(),
        model::without_frontend(model, frontend_id).pending.dom().len() <= model.pending.dom().len(),
{
    let after = model::without_frontend(model, frontend_id);
    assert(after.pending.dom().subset_of(model.pending.dom()));
    vstd::set_lib::lemma_len_subset(after.pending.dom(), model.pending.dom());
}

/// Two commands that are on their way at once have different numbers, and
/// neither number is zero.
pub proof fn law_numbers_differ(
    model: RoutingModel,
    first_frontend: u64,
    first: JsonTree,
    second_frontend: u64,
    second: JsonTree,
)
    requires
        model.pending.dom().finite(),
        model.pending.dom().len() < 0xffff_ffff_ffff_fffe,
        model::prepare(model, first_frontend, first).prepared matches Some(
            PreparedModel::Command(_),
        ),
        model::prepare(
            model::prepare(model, first_frontend, first).model,
            second_frontend,
            second,
        ).prepared matches Some(PreparedModel::Command(_)),
    ensures
        ({
            let once = model::prepare(model, first_frontend, first);
            let twice = model::prepare(once.model, second_frontend, second);
            &&& sent_id(once.prepared) matches Some(first_id) && first_id != 0
            &&& sent_id(twice.prepared) matches Some(second_id) && second_id != 0
            &&& sent_id(once.prepared) != sent_id(twice.prepared)
        }),
{
    command::reveal_names();
    let once = model::prepare(model, first_frontend, first);
    lemma_fresh_free(model);
    assert(once.model.pending.dom() =~= model.pending.dom().insert(model::fresh_id(model)));
    lemma_fresh_free(once.model);
}

/// A command for a session that is not a child session of its frontend is
/// refused, and nothing changes.
pub proof fn law_foreign_session_refused(
    model: RoutingModel,
    frontend_id: u64,
    command: JsonTree,
    session: Seq<char>,
)
    requires
        model.frontends.contains_key(frontend_id),
        command::command_session(command) == Some(session),
        !model::owned_child(model, frontend_id, session),
    ensures
        model::prepare(model, frontend_id, command).model == model,
        model::prepare(model, frontend_id, command).prepared == Some(
            PreparedModel::ImmediateResponse {
                frontend_id,
                message: model::error_response(
                    Some(command::command_id(command)),
                    -32001,
                    "Unknown sessionId"@,
                ),
            },
        ),
{
}

/// A command that detaches from a target or sends it a message names a child
/// session of its own frontend, directly below the session it runs in.
pub proof fn law_reference_stays_in_frontend(
    model: RoutingModel,
    frontend_id: u64,
    command: JsonTree,
    sent: JsonTree,
    session: Seq<char>,
)
    requires
        command::normal_shape(command),
        command::command_method(command) == "Target.detachFromTarget"@ || command::command_method(
            command,
        ) == "Target.sendMessageToTarget"@,
        model::prepare(model, frontend_id, command).prepared == Some(PreparedModel::Command(sent)),
        json::nested_text(sent, "params"@, "sessionId"@) == Some(session),
    ensures
        model::direct_child(
            model,
            frontend_id,
            json::member_text(sent, "sessionId"@),
            session,
        ),
{
    command::reveal_names();
    let dispatch = model::dispatch_session(
        model,
        frontend_id,
        command::command_session(command),
    );
    let params = command::command_params(command);
    let reference = model::target_reference(
        model,
        frontend_id,
        dispatch,
        command::command_method(command),
        params,
    );
    assert(json::member_text(sent, "sessionId"@) == dispatch);
    match reference {
        TargetReference::Session(found) => {
            let target = json::member_text(params->Some_0, "targetId"@)->Some_0;
            assert(model::any_child_of_target(model, frontend_id, dispatch, target));
            let chosen = choose|session: Seq<char>| #[trigger]
                model::direct_child_of_target(model, frontend_id, dispatch, target, session);
            assert(model::direct_child_of_target(model, frontend_id, dispatch, target, chosen));
            assert(found == chosen);
            assert(session == found);
        },
        _ => {
            assert(json::member(sent, "params"@) == params);
        },
    }
}

/// Releasing a frontend leaves the sessions and the commands of the others.
pub proof fn law_release_is_local(model: RoutingModel, frontend_id: u64, other: u64)
    requires
        model.frontends.contains_key(frontend_id),
        other != frontend_id,
    ensures
        ({
            let after = model::without_frontend(model, frontend_id);
            &&& after.frontends.contains_key(other) <==> model.frontends.contains_key(other)
            &&& model.frontends.contains_key(other) ==> after.frontends[other]
                == model.frontends[other]
            &&& forall|session: Seq<char>|
                model.sessions.contains_key(session) && model.sessions[session].frontend_id == other
                    ==> after.sessions.contains_key(session) && #[trigger] after.sessions[session]
                    == model.sessions[session]
            &&& forall|id: u64|
                model.pending.contains_key(id) && model.pending[id].frontend_id == other
                    ==> after.pending.contains_key(id) && #[trigger] after.pending[id]
                    == model.pending[id]
            &&& forall|session: Seq<char>| #[trigger]
                after.sessions.contains_key(session) ==> after.sessions[session].frontend_id
                    != frontend_id
            &&& forall|id: u64| #[trigger]
                after.pending.contains_key(id) ==> after.pending[id].frontend_id != frontend_id
        }),
{
}

/// Releasing the frontends of a page leaves exactly the frontends that do not
/// debug it, with their sessions and commands, whatever the order.
pub proof fn law_page_release(model: RoutingModel, target: Seq<char>, order: Seq<u64>)
    requires
        model::release_order(model, target, order),
    ensures
        ({
            let after = model::without_frontends(model, order);
            &&& after.frontends == Map::new(
                |id: u64| model.frontends.contains_key(id) && !model::debugs_page(model, id, target),
                |id: u64| model.frontends[id],
            )
            &&& after.sessions == tables::kept_entries(
                model.sessions,
                |session: SessionModel| !model::debugs_page(model, session.frontend_id, target),
            )
            &&& after.pending == tables::kept_entries(
                model.pending,
                |pending: PendingModel| !model::debugs_page(model, pending.frontend_id, target),
            )
            &&& after.private_sessions == model.private_sessions
            &&& after.next_internal_command_id == model.next_internal_command_id
            &&& after.closing == model.closing + order.map_values(
                |id: u64| model.frontends[id].sink,
            )
        }),
{
    lemma_release_all(model, order);
    let after = model::without_frontends(model, order);
    assert forall|at: int| 0 <= at < order.len() implies model.frontends.contains_key(
        #[trigger] order[at],
    ) by {
        assert(order.contains(order[at]));
        assert(model::debugs_page(model, order[at], target));
    }
    assert(after.frontends =~= Map::new(
        |id: u64| model.frontends.contains_key(id) && !model::debugs_page(model, id, target),
        |id: u64| model.frontends[id],
    ));
    assert(after.sessions =~= tables::kept_entries(
        model.sessions,
        |session: SessionModel| !model::debugs_page(model, session.frontend_id, target),
    ));
    assert(after.pending =~= tables::kept_entries(
        model.pending,
        |pending: PendingModel| !model::debugs_page(model, pending.frontend_id, target),
    ));
}

proof fn lemma_release_all(model: RoutingModel, order: Seq<u64>)
    requires
        order.no_duplicates(),
    ensures
        ({
            let after = model::without_frontends(model, order);
            &&& after.frontends == Map::new(
                |id: u64| model.frontends.contains_key(id) && !order.contains(id),
                |id: u64| model.frontends[id],
            )
            &&& after.sessions == tables::kept_entries(
                model.sessions,
                |session: SessionModel| !order.contains(session.frontend_id),
            )
            &&& after.pending == tables::kept_entries(
                model.pending,
                |pending: PendingModel| !order.contains(pending.frontend_id),
            )
            &&& after.private_sessions == model.private_sessions
            &&& after.next_internal_command_id == model.next_internal_command_id
            &&& (forall|at: int|
                0 <= at < order.len() ==> model.frontends.contains_key(#[trigger] order[at]))
                ==> after.closing == model.closing + order.map_values(
                |id: u64| model.frontends[id].sink,
            )
        }),
    decreases order.len(),
{
    let after = model::without_frontends(model, order);
    if order.len() > 0 {
        let rest = order.drop_last();
        let last = order.last();
        let before = model::without_frontends(model, rest);
        lemma_release_all(model, rest);
        assert forall|id: u64| order.contains(id) == (rest.contains(id) || id == last) by {
            if rest.contains(id) {
                let at = rest.index_of(id);
                assert(order[at] == id);
            }
            if order.contains(id) {
                let at = order.index_of(id);
                if at < rest.len() {
                    assert(rest[at] == id);
                }
            }
            assert(order[order.len() - 1] == last);
        }
        if forall|at: int|
            0 <= at < order.len() ==> model.frontends.contains_key(#[trigger] order[at]) {
            assert forall|at: int| 0 <= at < rest.len() implies model.frontends.contains_key(
                #[trigger] rest[at],
            ) by {
                assert(order[at] == rest[at]);
            }
            assert(model.frontends.contains_key(order[order.len() - 1]));
            assert(!rest.contains(last)) by {
                if rest.contains(last) {
                    let at = rest.index_of(last);
                    assert(order[at] == order[order.len() - 1]);
                }
            }
            assert(before.frontends.contains_key(last));
            assert(order.map_values(|id: u64| model.frontends[id].sink) =~= rest.map_values(
                |id: u64| model.frontends[id].sink,
            ).push(model.frontends[last].sink));
            assert(after.closing =~= model.closing + order.map_values(
                |id: u64| model.frontends[id].sink,
            ));
        }
    }
    assert(after.frontends =~= Map::new(
        |id: u64| model.frontends.contains_key(id) && !order.contains(id),
        |id: u64| model.frontends[id],
    ));
    assert(after.sessions =~= tables::kept_entries(
        model.sessions,
        |session: SessionModel| !order.contains(session.frontend_id),
    ));
    assert(after.pending =~= tables::kept_entries(
        model.pending,
        |pending: PendingModel| !order.contains(pending.frontend_id),
    ));
    if order.len() == 0 {
        assert(after.closing =~= model.closing + order.map_values(
            |id: u64| model.frontends[id].sink,
        ));
    }
}

/// An answer that nobody waits for, and an event of a session that no frontend
/// owns, reach no frontend and change nothing.
pub proof fn law_orphans_are_dropped(
    model: RoutingModel,
    message: JsonTree,
    wire: Option<Seq<char>>,
)
    requires
        match json::member_unsigned(message, "id"@) {
            Some(id) => !model.pending.contains_key(id),
            None => wire matches Some(session) && !model.sessions.contains_key(session),
        },
    ensures
        model::route(model, message, wire) == (model::Routed { model, delivery: None }),
{
}

/// The events of a private session, and the announcement of one, reach no
/// frontend.
pub proof fn law_private_sessions_are_silent(
    model: RoutingModel,
    message: JsonTree,
    wire: Option<Seq<char>>,
    private: Seq<char>,
)
    requires
        model.private_sessions.contains(private),
        json::member_unsigned(message, "id"@) is None,
        wire == Some(private) || model::announced_session(message) == Some(private),
    ensures
        model::route(model, message, wire).delivery is None,
{
}

/// A message goes to a registered frontend, by that frontend's sink, and never
/// shows it its own base session.
pub proof fn law_base_session_is_hidden(
    model: RoutingModel,
    message: JsonTree,
    wire: Option<Seq<char>>,
)
    requires
        model::routing_inv(model),
        json::member_unsigned(message, "id"@) is None ==> json::member_text(
            message,
            "sessionId"@,
        ) == wire,
    ensures
        model::route(model, message, wire).delivery matches Some(delivery) ==> {
            &&& model.frontends.contains_key(delivery.frontend_id)
            &&& delivery.sink == model.frontends[delivery.frontend_id].sink
            &&& json::member_text(delivery.message, "sessionId"@) != Some(
                model.frontends[delivery.frontend_id].base_session_id,
            )
        },
{
    command::reveal_names();
    match json::member_unsigned(message, "id"@) {
        Some(id) => {
            if model.pending.contains_key(id) {
                assert(model::pending_inv(model, id));
            }
        },
        None => {
            let noted = model::note_attachment(model, message, wire);
            assert(noted.frontends == model.frontends);
            assert(model::routing_inv(noted)) by {
                match (model::announced_session(message), wire) {
                    (Some(child), Some(parent)) => {
                        if model.sessions.contains_key(parent) {
                            law_child_keeps_inv(
                                model,
                                model.sessions[parent].frontend_id,
                                Some(parent),
                                child,
                                model::event_target(message),
                            );
                        }
                    },
                    _ => {},
                }
            }
            match wire {
                Some(session) => {
                    if noted.sessions.contains_key(session) {
                        assert(model::session_inv(noted, session));
                        assert(model::frontend_inv(noted, noted.sessions[session].frontend_id));
                    }
                },
                None => {
                    match model::event_session(message) {
                        Some(detached) => {
                            if noted.sessions.contains_key(detached) {
                                assert(model::session_inv(noted, detached));
                            }
                        },
                        None => {},
                    }
                },
            }
        },
    }
}

} // verus!
