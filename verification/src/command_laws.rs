//! What a message has to be to count as a command, what is read of it and what
//! becomes of it, said of its members.
use vstd::prelude::*;

use crate::command;
use crate::command::{CdpCommandParseError, CdpCommandRewriteError, ParsedCdpCommand};
use crate::connection::background_output::{
    BackgroundProtocolEvent, BrowserBackgroundOutput, BrowserNavigateCommandOutcomeDelivery,
};
use crate::json;
use crate::json::JsonTree;

verus! {

/// A message is a command exactly where it is an object with an unsigned number
/// under "id" and a text under "method", and where "sessionId" is a text and
/// "params" an object, unless they are absent or null.
pub proof fn law_command_is_known_by_its_members(tree: JsonTree)
    ensures
        command::command_shape(tree) <==> (tree matches JsonTree::Members(members) && {
            &&& members.contains_key("id"@) && members["id"@] is Unsigned
            &&& members.contains_key("method"@) && members["method"@] is Text
            &&& members.contains_key("sessionId"@) ==> members["sessionId"@] is Text
                || members["sessionId"@] is Null
            &&& members.contains_key("params"@) ==> members["params"@] is Members
                || members["params"@] is Null
        }),
{
}

/// A command that is taken keeps every member, but for a session or parameters
/// that are null, which count as absent. Its number, method, session and
/// parameters are the members under these names.
pub proof fn law_command_keeps_its_members(tree: JsonTree, key: Seq<char>)
    requires
        command::command_shape(tree),
    ensures
        ({
            let taken = command::normal_command(tree);
            let before = tree->Members_0;
            let after = taken->Members_0;
            let dropped = (key == "sessionId"@ || key == "params"@) && before.contains_key(key)
                && before[key] is Null;
            &&& taken is Members
            &&& dropped ==> !after.contains_key(key)
            &&& !dropped ==> (after.contains_key(key) <==> before.contains_key(key))
            &&& !dropped && before.contains_key(key) ==> after[key] == before[key]
            &&& JsonTree::Unsigned(command::command_id(taken)) == before["id"@]
            &&& JsonTree::Text(command::command_method(taken)) == before["method"@]
            &&& command::command_session(taken) matches Some(session) ==> before.contains_key(
                "sessionId"@,
            ) && before["sessionId"@] == JsonTree::Text(session)
            &&& command::command_session(taken) is None ==> !before.contains_key("sessionId"@)
                || before["sessionId"@] is Null
            &&& command::command_params(taken) matches Some(params) ==> params is Members
                && before.contains_key("params"@) && before["params"@] == params
            &&& command::command_params(taken) is None ==> !before.contains_key("params"@)
                || before["params"@] is Null
        }),
{
    command::reveal_names();
}

/// A message that is no JSON is refused as a parse error, without a number. One
/// that is no command is refused as an invalid request, under its number where it
/// has one. A command is carried by the text that it came as.
pub proof fn law_refused_message_is_told(
    raw: String,
    parsed: Result<ParsedCdpCommand, CdpCommandParseError>,
    code: i32,
    message: &'static str,
    id: Option<u64>,
)
    ensures
        call_ensures(ParsedCdpCommand::parse_str, (raw,), parsed) ==> {
            let read = json::parsed_tree(raw@);
            &&& parsed is Ok <==> read is Some && command::command_shape(read->Some_0)
            &&& parsed matches Ok(taken) ==> taken.wire_text() == raw@ && taken@
                == command::normal_command(read->Some_0)
            &&& parsed matches Err(error) ==> {
                &&& call_ensures(CdpCommandParseError::response_code, (&error,), code) ==> (code
                    == -32700 <==> read is None) && (code == -32600 <==> read is Some)
                &&& call_ensures(CdpCommandParseError::response_message, (&error,), message) ==> {
                    &&& read is None ==> message@ == "Parse error"@
                    &&& read is Some ==> message@ == "Invalid Request"@
                }
                &&& call_ensures(CdpCommandParseError::command_id, (&error,), id) ==> {
                    &&& read is None ==> id is None
                    &&& read matches Some(JsonTree::Members(members)) ==> (members.contains_key(
                        "id"@,
                    ) && members["id"@] is Unsigned ==> id == Some(members["id"@]->Unsigned_0))
                }
            }
        },
{
}

/// A command under another number and for another session has those and keeps
/// every other member; without a session it has none.
pub proof fn law_rewritten_route_changes_two_members(
    sent: ParsedCdpCommand,
    id: u64,
    session: Option<&str>,
    rewritten: Result<ParsedCdpCommand, CdpCommandRewriteError>,
    key: Seq<char>,
)
    requires
        sent.wf(),
    ensures
        call_ensures(ParsedCdpCommand::rewrite_frontend_route, (sent, id, session), rewritten) ==> {
            let before = sent@->Members_0;
            let after = rewritten->Ok_0@->Members_0;
            &&& rewritten is Ok && rewritten->Ok_0@ is Members
            &&& after.contains_key("id"@) && after["id"@] == JsonTree::Unsigned(id)
            &&& session matches Some(session) ==> after.contains_key("sessionId"@)
                && after["sessionId"@] == JsonTree::Text(session@)
            &&& session is None ==> !after.contains_key("sessionId"@)
            &&& key != "id"@ && key != "sessionId"@ ==> (after.contains_key(key)
                <==> before.contains_key(key)) && (before.contains_key(key) ==> after[key]
                == before[key])
        },
{
    command::reveal_names();
}

/// A command that names another session in its parameters has that one there and
/// keeps every other parameter and every other member.
pub proof fn law_rewritten_reference_changes_one_parameter(
    sent: ParsedCdpCommand,
    session: &str,
    rewritten: Result<ParsedCdpCommand, CdpCommandRewriteError>,
    key: Seq<char>,
)
    requires
        sent.wf(),
        command::command_params(sent@) is Some,
    ensures
        call_ensures(
            ParsedCdpCommand::rewrite_target_session_reference,
            (sent, session),
            rewritten,
        ) ==> {
            let before = sent@->Members_0;
            let after = rewritten->Ok_0@->Members_0;
            let named = before["params"@]->Members_0;
            let renamed = after["params"@]->Members_0;
            &&& rewritten is Ok && rewritten->Ok_0@ is Members
            &&& after.contains_key("params"@) && after["params"@] is Members
            &&& renamed.contains_key("sessionId"@) && renamed["sessionId"@] == JsonTree::Text(
                session@,
            )
            &&& key != "sessionId"@ ==> (renamed.contains_key(key) <==> named.contains_key(key))
                && (named.contains_key(key) ==> renamed[key] == named[key])
            &&& key != "params"@ ==> (after.contains_key(key) <==> before.contains_key(key)) && (
            before.contains_key(key) ==> after[key] == before[key])
        },
{
    command::reveal_names();
}

/// The outcome of a navigate command is told as the answer to that command: under
/// its number, with its result, for its session, and with nothing else.
pub proof fn law_outcome_answers_its_command(
    delivery: BrowserNavigateCommandOutcomeDelivery,
    event: BackgroundProtocolEvent,
    key: Seq<char>,
)
    ensures
        delivery.response() is Members,
        ({
            let told = delivery.response()->Members_0;
            &&& told.contains_key("id"@) && told["id"@] == JsonTree::Unsigned(delivery.request_id)
            &&& told.contains_key("result"@) && told["result"@] == json::json_tree(delivery.result)
            &&& delivery.session_id matches Some(session) ==> told.contains_key("sessionId"@)
                && told["sessionId"@] == JsonTree::Text(session@)
            &&& delivery.session_id is None ==> !told.contains_key("sessionId"@)
            &&& told.contains_key(key) ==> key == "id"@ || key == "result"@ || key == "sessionId"@
        }),
        BrowserBackgroundOutput::NavigateCommandOutcome(delivery).leaves_as(event) ==> event.tree()
            == delivery.response() && event.answered() == Some(delivery.request_id)
            && event.facts.route is None && !event.facts.waits_for_navigation
            && event.facts.lifecycle is None && event.facts.runtime_response is None,
{
    reveal_outcome_names();
}

/// An event leaves the queue as it entered it.
pub proof fn law_event_leaves_as_it_entered(
    entered: BackgroundProtocolEvent,
    left: BackgroundProtocolEvent,
)
    ensures
        BrowserBackgroundOutput::ProtocolEvent(entered).leaves_as(left) <==> left == entered,
{
}

/// The member names of an outcome differ from each other.
proof fn reveal_outcome_names()
    ensures
        "id"@ != "result"@,
        "id"@ != "sessionId"@,
        "result"@ != "sessionId"@,
{
    reveal_strlit("id");
    reveal_strlit("result");
    reveal_strlit("sessionId");
    assert("id"@.len() != "result"@.len());
    assert("id"@.len() != "sessionId"@.len());
    assert("result"@.len() != "sessionId"@.len());
}

} // verus!
