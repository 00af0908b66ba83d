//! One DevTools command as a frontend sends it.
use vstd::prelude::*;

use crate::json;
use crate::json::{
    json_as_str, json_clone, json_from_str, json_from_u64, json_get, json_is_null, json_is_object,
    json_member_text, json_member_u64, json_parse, json_set, json_unset, json_write, JsonTree,
};
use crate::text;

verus! {

/// Whether `tree` is an optional member that is absent or null.
pub open spec fn absent(value: Option<JsonTree>) -> bool {
    value is None || value == Some(JsonTree::Null)
}

/// Whether `tree` has the shape of a command: a number to answer to, a method,
/// and, if they are there, the text of a session and an object of parameters.
pub open spec fn command_shape(tree: JsonTree) -> bool {
    &&& tree is Members
    &&& json::member_unsigned(tree, "id"@) is Some
    &&& json::member_text(tree, "method"@) is Some
    &&& absent(json::member(tree, "sessionId"@)) || json::member_text(tree, "sessionId"@) is Some
    &&& absent(json::member(tree, "params"@)) || json::member(tree, "params"@)->Some_0 is Members
}

/// `tree` without the member under `key` if that member is null.
pub open spec fn without_null(tree: JsonTree, key: Seq<char>) -> JsonTree {
    if json::member(tree, key) == Some(JsonTree::Null) {
        json::without_member(tree, key)
    } else {
        tree
    }
}

/// A command with its null options left out.
pub open spec fn normal_command(tree: JsonTree) -> JsonTree {
    without_null(without_null(tree, "sessionId"@), "params"@)
}

/// A command whose null options are left out.
pub open spec fn normal_shape(tree: JsonTree) -> bool {
    &&& command_shape(tree)
    &&& json::member(tree, "sessionId"@) != Some(JsonTree::Null)
    &&& json::member(tree, "params"@) != Some(JsonTree::Null)
}

/// The number that a command is to be answered under.
pub open spec fn command_id(tree: JsonTree) -> u64 {
    json::member_unsigned(tree, "id"@)->Some_0
}

/// The method of a command.
pub open spec fn command_method(tree: JsonTree) -> Seq<char> {
    json::member_text(tree, "method"@)->Some_0
}

/// The session that a command names.
pub open spec fn command_session(tree: JsonTree) -> Option<Seq<char>> {
    json::member_text(tree, "sessionId"@)
}

/// The parameters of a command.
pub open spec fn command_params(tree: JsonTree) -> Option<JsonTree> {
    json::member(tree, "params"@)
}

/// A command whose parameters name `session_id`.
pub open spec fn target_session_rewrite(tree: JsonTree, session_id: Seq<char>) -> JsonTree {
    json::with_member(
        tree,
        "params"@,
        json::with_member(command_params(tree)->Some_0, "sessionId"@, JsonTree::Text(session_id)),
    )
}

/// A command under another number, for another session.
pub open spec fn frontend_route_rewrite(
    tree: JsonTree,
    command_id: u64,
    session_id: Option<Seq<char>>,
) -> JsonTree {
    let numbered = json::with_member(tree, "id"@, JsonTree::Unsigned(command_id));
    match session_id {
        Some(session_id) => json::with_member(numbered, "sessionId"@, JsonTree::Text(session_id)),
        None => json::without_member(numbered, "sessionId"@),
    }
}

/// A message that is no command.
pub struct CdpCommandParseError {
    command_id: Option<u64>,
    malformed: bool,
}

impl CdpCommandParseError {
    /// The number under which the refusal is answered, where it could be read.
    pub closed spec fn id(&self) -> Option<u64> {
        self.command_id
    }

    /// Whether the message was not even JSON.
    pub closed spec fn is_malformed(&self) -> bool {
        self.malformed
    }

    pub fn command_id(&self) -> (id: Option<u64>)
        ensures
            id == self.id(),
    {
        self.command_id
    }

    pub fn response_code(&self) -> (code: i32)
        ensures
            code == (if self.is_malformed() {
                -32700i32
            } else {
                -32600i32
            }),
    {
        if self.malformed {
            -32700
        } else {
            -32600
        }
    }

    pub fn response_message(&self) -> (message: &'static str)
        ensures
            message@ == (if self.is_malformed() {
                "Parse error"@
            } else {
                "Invalid Request"@
            }),
    {
        if self.malformed {
            "Parse error"
        } else {
            "Invalid Request"
        }
    }
}

/// A rewritten command that could not be written out as text.
pub struct CdpCommandRewriteError {
    pub cause: serde_json::Error,
}

/// A command, together with the text that carries it.
pub struct ParsedCdpCommand {
    message: serde_json::Value,
    text: String,
}

impl View for ParsedCdpCommand {
    type V = JsonTree;

    closed spec fn view(&self) -> JsonTree {
        json::json_tree(self.message)
    }
}

impl ParsedCdpCommand {
    /// The text that carries the command.
    pub closed spec fn wire_text(&self) -> Seq<char> {
        self.text@
    }

    /// The command has the shape of one.
    pub open spec fn wf(&self) -> bool {
        normal_shape(self@)
    }

    /// Reads a command from what a frontend sent.
    pub fn parse_str(raw: String) -> (parsed: Result<ParsedCdpCommand, CdpCommandParseError>)
        ensures
            match json::parsed_tree(raw@) {
                None => parsed matches Err(error) && error.is_malformed() && error.id() is None,
                Some(tree) => if command_shape(tree) {
                    parsed matches Ok(command) && command.wf() && command@ == normal_command(tree)
                        && command.wire_text() == raw@
                } else {
                    parsed matches Err(error) && !error.is_malformed() && error.id()
                        == json::member_unsigned(tree, "id"@)
                },
            },
    {
        match json_parse(raw.as_str()) {
            Ok(message) => Self::from_message(message, raw),
            Err(_) => Err(CdpCommandParseError { command_id: None, malformed: true }),
        }
    }

    /// Takes a JSON value for the command that `text` carries.
    pub fn from_message(message: serde_json::Value, text: String) -> (parsed: Result<
        ParsedCdpCommand,
        CdpCommandParseError,
    >)
        ensures
            command_shape(json::json_tree(message)) ==> (parsed matches Ok(command) && command.wf()
                && command@ == normal_command(json::json_tree(message)) && command.wire_text() == text@),
            !command_shape(json::json_tree(message)) ==> (parsed matches Err(error)
                && !error.is_malformed() && error.id() == json::member_unsigned(
                json::json_tree(message),
                "id"@,
            )),
    {
        let command_id = json_member_u64(&message, "id");
        let session_shape = match json_get(&message, "sessionId") {
            Some(session) => json_is_null(session) || json_as_str(session).is_some(),
            None => true,
        };
        let params_shape = match json_get(&message, "params") {
            Some(params) => json_is_null(params) || json_is_object(params),
            None => true,
        };
        let method = json_member_text(&message, "method");
        if !json_is_object(&message) || command_id.is_none() || method.is_none() || !session_shape
            || !params_shape {
            return Err(CdpCommandParseError { command_id, malformed: false });
        }
        let mut message = message;
        proof {
            reveal_names();
        }
        let null_session = match json_get(&message, "sessionId") {
            Some(session) => json_is_null(session),
            None => false,
        };
        if null_session {
            json_unset(&mut message, "sessionId");
        }
        let null_params = match json_get(&message, "params") {
            Some(params) => json_is_null(params),
            None => false,
        };
        if null_params {
            json_unset(&mut message, "params");
        }
        Ok(ParsedCdpCommand { message, text })
    }

    /// The number under which the command is to be answered.
    pub fn id(&self) -> (id: u64)
        requires
            self.wf(),
        ensures
            id == command_id(self@),
    {
        match json_member_u64(&self.message, "id") {
            Some(id) => id,
            None => 0,
        }
    }

    pub fn method(&self) -> (method: String)
        requires
            self.wf(),
        ensures
            method@ == command_method(self@),
    {
        match json_member_text(&self.message, "method") {
            Some(method) => method,
            None => String::new(),
        }
    }

    pub fn session_id(&self) -> (session_id: Option<String>)
        ensures
            text::opt_chars(session_id) == command_session(self@),
    {
        json_member_text(&self.message, "sessionId")
    }

    pub fn params(&self) -> (params: Option<&serde_json::Value>)
        ensures
            params is Some <==> command_params(self@) is Some,
            params matches Some(params) ==> command_params(self@) == Some(json::json_tree(*params)),
    {
        json_get(&self.message, "params")
    }

    /// The text that carries the command.
    pub fn json(&self) -> (text: &str)
        ensures
            text@ == self.wire_text(),
    {
        self.text.as_str()
    }

    /// Names `session_id` in the parameters.
    pub fn rewrite_target_session_reference(self, session_id: &str) -> (rewritten: Result<
        ParsedCdpCommand,
        CdpCommandRewriteError,
    >)
        requires
            self.wf(),
            command_params(self@) is Some,
        ensures
            rewritten matches Ok(command) && {
                &&& command.wf()
                &&& command@ == target_session_rewrite(self@, session_id@)
                &&& command.wire_text() == json::written_text(command@)
            },
    {
        let mut message = self.message;
        proof {
            reveal_names();
        }
        if let Some(params) = json_get(&message, "params") {
            let mut params = json_clone(params);
            json_set(&mut params, "sessionId", json_from_str(session_id));
            json_set(&mut message, "params", params);
        }
        Self::written(message)
    }

    /// Puts the command under another number and another session.
    pub fn rewrite_frontend_route(self, id: u64, session_id: Option<&str>) -> (rewritten: Result<
        ParsedCdpCommand,
        CdpCommandRewriteError,
    >)
        requires
            self.wf(),
        ensures
            rewritten matches Ok(command) && {
                &&& command.wf()
                &&& command@ == frontend_route_rewrite(self@, id, text::opt_str_chars(session_id))
                &&& command.wire_text() == json::written_text(command@)
            },
    {
        let mut message = self.message;
        proof {
            reveal_names();
        }
        json_set(&mut message, "id", json_from_u64(id));
        match session_id {
            Some(session_id) => json_set(&mut message, "sessionId", json_from_str(session_id)),
            None => json_unset(&mut message, "sessionId"),
        }
        Self::written(message)
    }

    /// The command that `message` is, carried by the text it is written as.
    fn written(message: serde_json::Value) -> (written: Result<
        ParsedCdpCommand,
        CdpCommandRewriteError,
    >)
        requires
            normal_shape(json::json_tree(message)),
        ensures
            written matches Ok(command) && command@ == json::json_tree(message)
                && command.wire_text() == json::written_text(command@),
    {
        match json_write(&message) {
            Ok(text) => Ok(ParsedCdpCommand { message, text }),
            Err(cause) => Err(CdpCommandRewriteError { cause }),
        }
    }
}

/// The member names of a command differ from each other.
pub(crate) proof fn reveal_names()
    ensures
        "id"@ != "method"@,
        "id"@ != "sessionId"@,
        "id"@ != "params"@,
        "method"@ != "sessionId"@,
        "method"@ != "params"@,
        "sessionId"@ != "params"@,
{
    reveal_strlit("id");
    reveal_strlit("method");
    reveal_strlit("sessionId");
    reveal_strlit("params");
    assert("id"@.len() == 2);
    assert("method"@.len() == 6 && "method"@[0] == 'm');
    assert("sessionId"@.len() == 9);
    assert("params"@.len() == 6 && "params"@[0] == 'p');
}

} // verus!
