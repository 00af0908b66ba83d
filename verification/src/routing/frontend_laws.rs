//! What becomes of frontends and of what they send, said of the frontends, the
//! sessions and the commands before and after.
use vstd::prelude::*;

use crate::command;
use crate::json;
use crate::json::JsonTree;
use crate::routing::laws;
use crate::routing::model;
use crate::routing::model::{
    CdpSocketSink, FrontendModel, PreparedModel, RoutingModel,
};
use crate::routing::state;
use crate::routing::state::{
    CdpFrontendRoutingState, CdpRoutedFrontend, RegisterFrontendError,
};

verus! {

/// Whether a frontend is one more, with its own hidden session, and all other
/// frontends and sessions and all commands are as they were.
pub open spec fn joins(
    before: RoutingModel,
    after: RoutingModel,
    frontend_id: u64,
    session: Seq<char>,
) -> bool {
    &&& after.frontends.contains_key(frontend_id)
    &&& after.frontends[frontend_id].base_session_id == session
    &&& after.sessions.contains_key(session)
    &&& after.sessions[session].frontend_id == frontend_id
    &&& after.sessions[session].node is Base
    &&& forall|other: u64|
        other != frontend_id ==> (#[trigger] after.frontends.contains_key(other)
            <==> before.frontends.contains_key(other)) && (before.frontends.contains_key(other)
            ==> after.frontends[other] == before.frontends[other])
    &&& forall|other: Seq<char>|
        other != session ==> (#[trigger] after.sessions.contains_key(other)
            <==> before.sessions.contains_key(other)) && (before.sessions.contains_key(other)
            ==> after.sessions[other] == before.sessions[other])
    &&& after.pending == before.pending
    &&& after.closing == before.closing
    &&& after.next_internal_command_id == before.next_internal_command_id
}

/// A frontend of the browser is registered where both its number and its session
/// are free, with the session and the sink that it came with; its session is no
/// private one then. Otherwise what is taken is told, and nothing changes.
pub proof fn law_browser_frontend_joins(
    state: &mut CdpFrontendRoutingState,
    frontend_id: u64,
    session_id: String,
    sink: CdpSocketSink,
    registered: Result<(), RegisterFrontendError>,
)
    ensures
        call_ensures(
            CdpFrontendRoutingState::register_browser_frontend,
            (state, frontend_id, session_id, sink),
            registered,
        ) ==> {
            let before = old(state)@;
            let after = final(state)@;
            let number_taken = before.frontends.contains_key(frontend_id);
            let session_taken = before.sessions.contains_key(session_id@);
            &&& registered is Ok <==> !number_taken && !session_taken
            &&& number_taken ==> registered == Err::<(), RegisterFrontendError>(
                RegisterFrontendError::FrontendIdTaken,
            )
            &&& !number_taken && session_taken ==> registered == Err::<(), RegisterFrontendError>(
                RegisterFrontendError::SessionTaken,
            )
            &&& registered is Err ==> after == before
            &&& registered is Ok ==> {
                &&& joins(before, after, frontend_id, session_id@)
                &&& after.frontends[frontend_id].kind is Browser
                &&& after.frontends[frontend_id].target_id is None
                &&& after.frontends[frontend_id].sink == sink
                &&& !after.private_sessions.contains(session_id@)
                &&& forall|other: Seq<char>|
                    other != session_id@ ==> (#[trigger] after.private_sessions.contains(other)
                        <==> before.private_sessions.contains(other))
            }
        },
{
}

/// A frontend of a page is registered in the same way, for the page that it
/// debugs. The private sessions stay as they are.
pub proof fn law_page_frontend_joins(
    state: &mut CdpFrontendRoutingState,
    frontend_id: u64,
    target_id: String,
    session_id: String,
    sink: CdpSocketSink,
    registered: Result<(), RegisterFrontendError>,
)
    ensures
        call_ensures(
            CdpFrontendRoutingState::register_page_frontend,
            (state, frontend_id, target_id, session_id, sink),
            registered,
        ) ==> {
            let before = old(state)@;
            let after = final(state)@;
            let number_taken = before.frontends.contains_key(frontend_id);
            let session_taken = before.sessions.contains_key(session_id@);
            &&& registered is Ok <==> !number_taken && !session_taken
            &&& number_taken ==> registered == Err::<(), RegisterFrontendError>(
                RegisterFrontendError::FrontendIdTaken,
            )
            &&& !number_taken && session_taken ==> registered == Err::<(), RegisterFrontendError>(
                RegisterFrontendError::SessionTaken,
            )
            &&& registered is Err ==> after == before
            &&& registered is Ok ==> {
                &&& joins(before, after, frontend_id, session_id@)
                &&& after.frontends[frontend_id].kind is Page
                &&& after.frontends[frontend_id].target_id == Some(target_id@)
                &&& after.frontends[frontend_id].sink == sink
                &&& after.private_sessions == before.private_sessions
            }
        },
{
}

/// Whether a frontend is gone with its sessions and its commands, those of the
/// others are as they were, and its sink is the next to be closed.
pub open spec fn leaves(before: RoutingModel, after: RoutingModel, frontend_id: u64) -> bool {
    &&& !after.frontends.contains_key(frontend_id)
    &&& forall|other: u64|
        other != frontend_id ==> (#[trigger] after.frontends.contains_key(other)
            <==> before.frontends.contains_key(other)) && (before.frontends.contains_key(other)
            ==> after.frontends[other] == before.frontends[other])
    &&& forall|session: Seq<char>|
        (#[trigger] after.sessions.contains_key(session) <==> before.sessions.contains_key(session)
            && before.sessions[session].frontend_id != frontend_id) && (
        after.sessions.contains_key(session) ==> after.sessions[session]
            == before.sessions[session])
    &&& forall|id: u64|
        (#[trigger] after.pending.contains_key(id) <==> before.pending.contains_key(id)
            && before.pending[id].frontend_id != frontend_id) && (after.pending.contains_key(id)
            ==> after.pending[id] == before.pending[id])
    &&& after.closing.len() == before.closing.len() + 1
    &&& after.closing.drop_last() == before.closing
    &&& after.closing.last() == before.frontends[frontend_id].sink
    &&& after.private_sessions == before.private_sessions
    &&& after.next_internal_command_id == before.next_internal_command_id
}

/// A frontend of the browser is released as one, and one of a page as one of a
/// page: it is gone with all that is its own, and its hidden session is told. A
/// number that no such frontend has releases none.
pub proof fn law_frontend_leaves_with_its_own(
    state: &mut CdpFrontendRoutingState,
    frontend_id: u64,
    session_id: Option<String>,
)
    ensures
        call_ensures(
            CdpFrontendRoutingState::unregister_browser_frontend,
            (state, frontend_id),
            session_id,
        ) ==> {
            let before = old(state)@;
            let known = before.frontends.contains_key(frontend_id)
                && before.frontends[frontend_id].kind is Browser;
            &&& known ==> leaves(before, final(state)@, frontend_id) && session_id is Some
                && session_id->Some_0@ == before.frontends[frontend_id].base_session_id
            &&& !known ==> final(state)@ == before && session_id is None
        },
        call_ensures(
            CdpFrontendRoutingState::unregister_page_frontend,
            (state, frontend_id),
            session_id,
        ) ==> {
            let before = old(state)@;
            let known = before.frontends.contains_key(frontend_id)
                && before.frontends[frontend_id].kind is Page;
            &&& known ==> leaves(before, final(state)@, frontend_id) && session_id is Some
                && session_id->Some_0@ == before.frontends[frontend_id].base_session_id
            &&& !known ==> final(state)@ == before && session_id is None
        },
{
    let before = old(state)@;
    let after = model::without_frontend(before, frontend_id);
    assert(after.closing.drop_last() =~= before.closing);
    assert(leaves(before, after, frontend_id));
}

/// A frontend that is registered and released again leaves nothing behind but
/// its sink to be closed.
pub proof fn law_release_undoes_registration(
    before: RoutingModel,
    frontend_id: u64,
    frontend: FrontendModel,
)
    requires
        model::routing_inv(before),
        !before.frontends.contains_key(frontend_id),
        !before.sessions.contains_key(frontend.base_session_id),
    ensures
        ({
            let after = model::without_frontend(
                model::with_frontend(before, frontend_id, frontend),
                frontend_id,
            );
            &&& after.frontends == before.frontends
            &&& after.sessions == before.sessions
            &&& after.pending == before.pending
            &&& after.closing == before.closing.push(frontend.sink)
        }),
{
    let after = model::without_frontend(
        model::with_frontend(before, frontend_id, frontend),
        frontend_id,
    );
    assert forall|session: Seq<char>| #[trigger]
        before.sessions.contains_key(session) implies before.sessions[session].frontend_id
        != frontend_id by {
        assert(model::session_inv(before, session));
    }
    assert forall|id: u64| #[trigger] before.pending.contains_key(id) implies before.pending[id]
        .frontend_id != frontend_id by {
        assert(model::pending_inv(before, id));
    }
    assert(after.frontends =~= before.frontends);
    assert(after.sessions =~= before.sessions);
    assert(after.pending =~= before.pending);
}

/// The frontends of a page that is gone are released: those of the page and no
/// others are gone, each with its own, and their sinks are to be closed.
pub proof fn law_page_takes_its_frontends(
    state: &mut CdpFrontendRoutingState,
    target_id: &str,
    frontend_id: u64,
    session: Seq<char>,
    id: u64,
)
    requires
        old(state).wf(),
    ensures
        call_ensures(
            CdpFrontendRoutingState::unregister_page_frontends_for_target,
            (state, target_id),
            (),
        ) ==> {
            let before = old(state)@;
            let after = final(state)@;
            let gone = |number: u64|
                before.frontends.contains_key(number) && before.frontends[number].kind is Page
                    && before.frontends[number].target_id == Some(target_id@);
            &&& after.frontends.contains_key(frontend_id) <==> before.frontends.contains_key(
                frontend_id,
            ) && !gone(frontend_id)
            &&& after.sessions.contains_key(session) <==> before.sessions.contains_key(session)
                && !gone(before.sessions[session].frontend_id)
            &&& after.pending.contains_key(id) <==> before.pending.contains_key(id) && !gone(
                before.pending[id].frontend_id,
            )
            &&& after.frontends.contains_key(frontend_id) ==> after.frontends[frontend_id]
                == before.frontends[frontend_id]
            &&& after.sessions.contains_key(session) ==> after.sessions[session]
                == before.sessions[session]
            &&& after.pending.contains_key(id) ==> after.pending[id] == before.pending[id]
        },
{
    let before = old(state)@;
    let after = final(state)@;
    if call_ensures(
        CdpFrontendRoutingState::unregister_page_frontends_for_target,
        (state, target_id),
        (),
    ) {
        let order = choose|order: Seq<u64>| #[trigger]
            model::release_order(before, target_id@, order) && after == model::without_frontends(
                before,
                order,
            );
        lemma_released_in_order(before, order, frontend_id, session, id);
        assert forall|number: u64| order.contains(number) <==> (before.frontends.contains_key(
            number,
        ) && before.frontends[number].kind is Page && before.frontends[number].target_id == Some(
            target_id@,
        )) by {
            assert(order.contains(number) <==> model::debugs_page(before, number, target_id@));
        }
    }
}

/// Releasing frontends one after another takes what is theirs, and only that.
proof fn lemma_released_in_order(
    before: RoutingModel,
    order: Seq<u64>,
    frontend_id: u64,
    session: Seq<char>,
    id: u64,
)
    ensures
        ({
            let after = model::without_frontends(before, order);
            &&& after.frontends.contains_key(frontend_id) <==> before.frontends.contains_key(
                frontend_id,
            ) && !order.contains(frontend_id)
            &&& after.sessions.contains_key(session) <==> before.sessions.contains_key(session)
                && !order.contains(before.sessions[session].frontend_id)
            &&& after.pending.contains_key(id) <==> before.pending.contains_key(id)
                && !order.contains(before.pending[id].frontend_id)
            &&& after.frontends.contains_key(frontend_id) ==> after.frontends[frontend_id]
                == before.frontends[frontend_id]
            &&& after.sessions.contains_key(session) ==> after.sessions[session]
                == before.sessions[session]
            &&& after.pending.contains_key(id) ==> after.pending[id] == before.pending[id]
        }),
    decreases order.len(),
{
    if order.len() > 0 {
        let front = order.drop_last();
        lemma_released_in_order(before, front, frontend_id, session, id);
        assert forall|number: u64| order.contains(number) <==> front.contains(number) || number
            == order.last() by {
            if order.contains(number) {
                let at = order.index_of(number);
                if at < order.len() - 1 {
                    assert(front[at] == number);
                }
            }
            if front.contains(number) {
                let at = front.index_of(number);
                assert(order[at] == number);
            }
            assert(order[order.len() - 1] == order.last());
        }
    }
}

/// A private session is one more, and nothing else changes. A frontend is found
/// under its number with its sink. The sinks to be closed are handed over once,
/// in the order in which they were released.
pub proof fn law_private_sessions_and_sinks(
    state: &mut CdpFrontendRoutingState,
    session_id: String,
    sinks: Vec<CdpSocketSink>,
    again: CdpFrontendRoutingState,
    frontend_id: u64,
    found: Option<CdpRoutedFrontend>,
)
    ensures
        call_ensures(
            CdpFrontendRoutingState::register_private_session,
            (state, session_id),
            (),
        ) ==> {
            &&& forall|session: Seq<char>| #[trigger]
                final(state)@.private_sessions.contains(session) <==> old(
                    state,
                )@.private_sessions.contains(session) || session == session_id@
            &&& final(state)@.frontends == old(state)@.frontends
            &&& final(state)@.sessions == old(state)@.sessions
            &&& final(state)@.pending == old(state)@.pending
        },
        call_ensures(CdpFrontendRoutingState::take_closing_sinks, (state,), sinks) ==> {
            &&& sinks@ == old(state)@.closing
            &&& final(state)@.closing.len() == 0
            &&& final(state)@.frontends == old(state)@.frontends
            &&& final(state)@.sessions == old(state)@.sessions
            &&& final(state)@.pending == old(state)@.pending
        },
        call_ensures(CdpFrontendRoutingState::frontend_by_id, (&again, frontend_id), found) ==> {
            &&& found is Some <==> again@.frontends.contains_key(frontend_id)
            &&& found matches Some(found) ==> found.frontend_id == frontend_id && found.sink
                == again@.frontends[frontend_id].sink
        },
{
}

/// What a frontend is told when it cannot be registered.
pub proof fn law_taken_numbers_are_told(error: RegisterFrontendError, message: &'static str)
    ensures
        call_ensures(RegisterFrontendError::message, (&error,), message) ==> {
            &&& error is FrontendIdTaken ==> message@ == "CDP frontend id is already registered"@
            &&& error is SessionTaken ==> message@ == "CDP frontend session is already registered"@
        },
{
}

/// The end of a private session is told to nobody, and the session is no longer
/// a private one.
pub proof fn law_ended_private_session_is_forgotten(
    model: RoutingModel,
    message: JsonTree,
    session: Seq<char>,
)
    requires
        model.private_sessions.contains(session),
        json::member_unsigned(message, "id"@) is None,
        json::member(message, "method"@) == Some(
            JsonTree::Text("Target.detachedFromTarget"@),
        ),
        json::member(message, "params"@) is Some,
        json::member(json::member(message, "params"@)->Some_0, "sessionId"@) == Some(
            JsonTree::Text(session),
        ),
    ensures
        ({
            let routed = model::route(model, message, None);
            &&& routed.delivery is None
            &&& !routed.model.private_sessions.contains(session)
            &&& forall|other: Seq<char>|
                other != session ==> (#[trigger] routed.model.private_sessions.contains(other)
                    <==> model.private_sessions.contains(other))
            &&& routed.model.frontends == model.frontends
            &&& routed.model.sessions == model.sessions
            &&& routed.model.pending == model.pending
        }),
{
    reveal_strlit("Target.detachedFromTarget");
    reveal_strlit("Target.attachedToTarget");
    assert("Target.detachedFromTarget"@.len() != "Target.attachedToTarget"@.len());
}

/// Whether an answer refuses a command under a number, or under null, with a
/// code below zero and a text, and holds nothing else.
pub open spec fn tells_error(
    answer: JsonTree,
    id: Option<u64>,
    code: int,
    message: Seq<char>,
) -> bool {
    &&& answer is Members
    &&& answer->Members_0.contains_key("id"@)
    &&& id is None ==> answer->Members_0["id"@] is Null
    &&& id matches Some(id) ==> answer->Members_0["id"@] == JsonTree::Unsigned(id)
    &&& answer->Members_0.contains_key("error"@)
    &&& answer->Members_0["error"@] is Members
    &&& answer->Members_0["error"@]->Members_0.contains_key("code"@)
    &&& answer->Members_0["error"@]->Members_0["code"@] == JsonTree::Negative(code as i64)
    &&& answer->Members_0["error"@]->Members_0.contains_key("message"@)
    &&& answer->Members_0["error"@]->Members_0["message"@] == JsonTree::Text(message)
    &&& forall|key: Seq<char>| #[trigger]
        answer->Members_0.contains_key(key) ==> key == "id"@ || key == "error"@
    &&& forall|key: Seq<char>| #[trigger]
        answer->Members_0["error"@]->Members_0.contains_key(key) ==> key == "code"@ || key
            == "message"@
}

/// A text that is no JSON is answered under null with a parse error, and one that
/// is no command under its number with an invalid request. Neither is sent on,
/// and nothing changes. A command that is read is prepared as such.
pub proof fn law_bad_text_is_answered_at_once(
    model: RoutingModel,
    frontend_id: u64,
    tree: JsonTree,
)
    ensures
        ({
            let unread = state::preparation_of_text(model, frontend_id, None);
            &&& unread.model == model
            &&& unread.prepared matches Some(PreparedModel::ImmediateResponse {
                frontend_id: told,
                message,
            }) && told == frontend_id && tells_error(message, None, -32700, "Parse error"@)
        }),
        !command::command_shape(tree) ==> {
            let refused = state::preparation_of_text(model, frontend_id, Some(tree));
            let id = match json::member(tree, "id"@) {
                Some(JsonTree::Unsigned(id)) => Some(id),
                _ => None,
            };
            &&& refused.model == model
            &&& refused.prepared matches Some(PreparedModel::ImmediateResponse {
                frontend_id: told,
                message,
            }) && told == frontend_id && tells_error(message, id, -32600, "Invalid Request"@)
        },
        command::command_shape(tree) ==> state::preparation_of_text(model, frontend_id, Some(tree))
            == model::prepare(model, frontend_id, command::normal_command(tree)),
{
    reveal_error_names();
}

/// The member names of an error answer differ from each other.
proof fn reveal_error_names()
    ensures
        "id"@ != "error"@,
        "code"@ != "message"@,
{
    reveal_strlit("id");
    reveal_strlit("error");
    reveal_strlit("code");
    reveal_strlit("message");
    assert("id"@.len() != "error"@.len());
    assert("code"@.len() != "message"@.len());
}

/// The next command gets the number after the last one given, where that is
/// neither zero nor on its way, and else the next that is neither.
pub proof fn law_numbers_are_given_in_order(model: RoutingModel, next: u64)
    requires
        model.pending.dom().finite(),
        model.pending.dom().len() < 0xffff_ffff_ffff_ffff,
    ensures
        next > model.next_internal_command_id && !model.pending.contains_key(next) && (forall|
            between: u64,
        |
            model.next_internal_command_id < between < next ==> #[trigger] model.pending.contains_key(
                between,
            )) ==> model::fresh_id(model) == next,
{
    let start = model.next_internal_command_id;
    if next > start && !model.pending.contains_key(next) && (forall|between: u64|
        start < between < next ==> #[trigger] model.pending.contains_key(between)) {
        let steps = next - start;
        assert forall|earlier: int| 1 <= earlier < steps implies model::taken(
            model,
            #[trigger] model::wrapped(start, earlier),
        ) by {
            assert(model::wrapped(start, earlier) == start + earlier);
            assert(model.pending.contains_key((start + earlier) as u64));
        }
        assert(model::wrapped(start, steps) == next);
        assert(model::fresh_after(model, steps));
        laws::lemma_fresh_unique(model, steps);
    }
}

/// What is kept of a command that is sent on: who sent it, the session that it
/// runs in, its own number and session, its method, and, where it attaches to a
/// Target, that Target.
pub proof fn law_sent_command_is_kept(model: RoutingModel, frontend_id: u64, command: JsonTree)
    requires
        command::normal_shape(command),
        model.frontends.contains_key(frontend_id),
        model::prepare(model, frontend_id, command).prepared matches Some(PreparedModel::Command(_)),
    ensures
        ({
            let after = model::prepare(model, frontend_id, command).model;
            let id = after.next_internal_command_id;
            let kept = after.pending[id];
            let session = json::member(command, "sessionId"@);
            &&& after.pending.contains_key(id)
            &&& forall|other: u64|
                other != id ==> (#[trigger] after.pending.contains_key(other)
                    <==> model.pending.contains_key(other)) && (model.pending.contains_key(other)
                    ==> after.pending[other] == model.pending[other])
            &&& after.frontends == model.frontends && after.sessions == model.sessions
                && after.private_sessions == model.private_sessions
            &&& kept.frontend_id == frontend_id
            &&& JsonTree::Unsigned(kept.client_command_id) == json::member(command, "id"@)->Some_0
            &&& JsonTree::Text(kept.method) == json::member(command, "method"@)->Some_0
            &&& session is None ==> kept.client_session_id is None && kept.dispatch_session_id
                == Some(model.frontends[frontend_id].base_session_id)
            &&& session matches Some(session) ==> kept.client_session_id is Some && session
                == JsonTree::Text(kept.client_session_id->Some_0) && kept.dispatch_session_id
                == kept.client_session_id
            &&& kept.method != "Target.attachToTarget"@ ==> kept.attach_target_id is None
            &&& kept.method == "Target.attachToTarget"@ ==> ({
                let params = json::member(command, "params"@);
                &&& params is None ==> kept.attach_target_id is None
                &&& params matches Some(params) ==> (json::member(params, "targetId"@) matches Some(
                    JsonTree::Text(target),
                ) ==> kept.attach_target_id == Some(target))
            })
        }),
{
}

} // verus!
