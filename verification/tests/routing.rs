//! Routing of frontends: commands, sessions and messages.
use moli_protocol::command::ParsedCdpCommand;
use moli_protocol::routing::model::CdpSocketSink;
use moli_protocol::routing::state::{
    CdpFrontendRoutingState, CdpPreparedFrontendCommand, RegisterFrontendError,
};
use serde_json::Value;

fn test_sink() -> CdpSocketSink {
    CdpSocketSink { number: 0 }
}

fn json(text: &str) -> Value {
    serde_json::from_str(text).expect("test JSON")
}

fn parsed_command(raw: &str) -> ParsedCdpCommand {
    match ParsedCdpCommand::parse_str(raw.to_owned()) {
        Ok(command) => command,
        Err(_) => panic!("test command must be valid CDP JSON"),
    }
}

fn expect_prepared_command(
    prepared: Option<CdpPreparedFrontendCommand>,
    label: &str,
) -> ParsedCdpCommand {
    match prepared.unwrap_or_else(|| panic!("missing prepared {label} command")) {
        CdpPreparedFrontendCommand::Command(command) => command,
        CdpPreparedFrontendCommand::ImmediateResponse { .. } => {
            panic!("{label} command unexpectedly produced an immediate response")
        }
    }
}

fn expect_immediate(prepared: Option<CdpPreparedFrontendCommand>) -> (u64, Value) {
    match prepared {
        Some(CdpPreparedFrontendCommand::ImmediateResponse {
            frontend_id,
            message,
        }) => (frontend_id, message),
        _ => panic!("command was not refused"),
    }
}

fn command_json(command: &ParsedCdpCommand) -> Value {
    json(command.json())
}

fn internal_id(command: &ParsedCdpCommand) -> u64 {
    command_json(command)["id"].as_u64().expect("internal id")
}

#[test]
fn browser_and_page_client_command_ids_are_isolated_and_restored() {
    let mut routing = CdpFrontendRoutingState::default();
    routing
        .register_browser_frontend(5, "SID-browser".to_owned(), test_sink())
        .expect("register browser frontend");
    routing
        .register_page_frontend(10, "TID-1".to_owned(), "SID-page".to_owned(), test_sink())
        .expect("register page frontend");

    let browser_command = expect_prepared_command(
        routing.prepare_command(
            5,
            parsed_command(r#"{"id":7,"method":"Browser.getVersion"}"#),
        ),
        "browser",
    );
    let page_command = expect_prepared_command(
        routing.prepare_command(
            10,
            parsed_command(r#"{"id":7,"method":"Page.getFrameTree"}"#),
        ),
        "page",
    );
    let browser_internal_id = internal_id(&browser_command);
    assert_eq!(
        command_json(&browser_command)["sessionId"],
        Value::from("SID-browser")
    );
    let page_internal_id = internal_id(&page_command);
    assert_ne!(browser_internal_id, page_internal_id);

    let (browser_frontend, browser_response) = routing
        .route_message(
            json(&format!(
                r#"{{"id":{browser_internal_id},"result":{{}},"sessionId":"SID-browser"}}"#
            )),
            Some("SID-browser"),
        )
        .expect("route browser response");
    assert_eq!(browser_frontend.frontend_id, 5);
    assert_eq!(browser_response["id"], Value::from(7));
    assert!(browser_response.get("sessionId").is_none());

    let (page_frontend, page_response) = routing
        .route_message(
            json(&format!(
                r#"{{"id":{page_internal_id},"result":{{}},"sessionId":"SID-page"}}"#
            )),
            Some("SID-page"),
        )
        .expect("route page response");
    assert_eq!(page_frontend.frontend_id, 10);
    assert_eq!(page_response["id"], Value::from(7));
    assert!(page_response.get("sessionId").is_none());
}

#[test]
fn browser_frontends_with_the_same_client_command_id_route_independently() {
    let mut routing = CdpFrontendRoutingState::default();
    routing
        .register_browser_frontend(5, "SID-browser-1".to_owned(), test_sink())
        .expect("register first browser frontend");
    routing
        .register_browser_frontend(6, "SID-browser-2".to_owned(), test_sink())
        .expect("register second browser frontend");

    let first = expect_prepared_command(
        routing.prepare_command(
            5,
            parsed_command(r#"{"id":7,"method":"Browser.getVersion"}"#),
        ),
        "first browser",
    );
    let second = expect_prepared_command(
        routing.prepare_command(
            6,
            parsed_command(r#"{"id":7,"method":"Browser.getVersion"}"#),
        ),
        "second browser",
    );
    let first = command_json(&first);
    let second = command_json(&second);
    assert_ne!(first["id"], second["id"]);
    assert_eq!(first["sessionId"], Value::from("SID-browser-1"));
    assert_eq!(second["sessionId"], Value::from("SID-browser-2"));

    let (frontend, response) = routing
        .route_message(
            json(&format!(
                r#"{{"id":{},"result":{{"product":"second"}},"sessionId":"SID-browser-2"}}"#,
                second["id"]
            )),
            Some("SID-browser-2"),
        )
        .expect("route second response");
    assert_eq!(frontend.frontend_id(), 6);
    assert_eq!(response["id"], Value::from(7));
    assert_eq!(response["result"]["product"], Value::from("second"));
    assert!(response.get("sessionId").is_none());

    let (frontend, response) = routing
        .route_message(
            json(&format!(
                r#"{{"id":{},"result":{{"product":"first"}},"sessionId":"SID-browser-1"}}"#,
                first["id"]
            )),
            Some("SID-browser-1"),
        )
        .expect("route first response");
    assert_eq!(frontend.frontend_id(), 5);
    assert_eq!(response["id"], Value::from(7));
    assert_eq!(response["result"]["product"], Value::from("first"));
    assert!(response.get("sessionId").is_none());
}

#[test]
fn browser_base_session_events_are_private_and_frontend_scoped() {
    let mut routing = CdpFrontendRoutingState::default();
    routing
        .register_browser_frontend(5, "SID-browser-1".to_owned(), test_sink())
        .expect("register first browser frontend");
    routing
        .register_browser_frontend(6, "SID-browser-2".to_owned(), test_sink())
        .expect("register second browser frontend");

    let (frontend, event) = routing
        .route_message(
            json(
                r#"{"method":"Target.targetCreated","sessionId":"SID-browser-1",
                    "params":{"targetInfo":{"targetId":"TID-1"}}}"#,
            ),
            Some("SID-browser-1"),
        )
        .expect("route first browser event");
    assert_eq!(frontend.frontend_id(), 5);
    assert!(event.get("sessionId").is_none());

    assert!(
        routing
            .route_message(
                json(
                    r#"{"method":"Target.targetCreated",
                        "params":{"targetInfo":{"targetId":"TID-root"}}}"#,
                ),
                None,
            )
            .is_none(),
        "unowned root event must not be assigned to an arbitrary browser frontend"
    );
}

#[test]
fn root_detach_with_a_known_child_routes_to_its_exact_frontend() {
    let mut routing = CdpFrontendRoutingState::default();
    routing
        .register_browser_frontend(5, "SID-browser-1".to_owned(), test_sink())
        .expect("register first browser frontend");
    routing
        .register_browser_frontend(6, "SID-browser-2".to_owned(), test_sink())
        .expect("register second browser frontend");
    routing.register_child_session(5, Some("SID-browser-1"), "SID-child-1", Some("TID-1"));
    routing.register_child_session(6, Some("SID-browser-2"), "SID-child-2", Some("TID-1"));

    let (frontend, event) = routing
        .route_message(
            json(
                r#"{"method":"Target.detachedFromTarget",
                    "params":{"targetId":"TID-1","sessionId":"SID-child-1"}}"#,
            ),
            None,
        )
        .expect("route owner-qualified root detach");
    assert_eq!(frontend.frontend_id(), 5);
    assert!(event.get("sessionId").is_none());

    assert!(matches!(
        routing.prepare_command(
            5,
            parsed_command(r#"{"id":1,"method":"Runtime.evaluate","sessionId":"SID-child-1"}"#),
        ),
        Some(CdpPreparedFrontendCommand::ImmediateResponse { .. })
    ));
    assert!(matches!(
        routing.prepare_command(
            6,
            parsed_command(r#"{"id":1,"method":"Runtime.evaluate","sessionId":"SID-child-2"}"#),
        ),
        Some(CdpPreparedFrontendCommand::Command(_))
    ));
}

#[test]
fn root_detach_restores_visible_parent_for_nested_child() {
    let mut routing = CdpFrontendRoutingState::default();
    routing
        .register_browser_frontend(5, "SID-browser".to_owned(), test_sink())
        .expect("register browser frontend");
    routing.register_child_session(5, Some("SID-browser"), "SID-child", Some("TID-child"));
    routing.register_child_session(5, Some("SID-child"), "SID-grandchild", Some("TID-grandchild"));

    let (_, event) = routing
        .route_message(
            json(
                r#"{"method":"Target.detachedFromTarget",
                    "params":{"targetId":"TID-grandchild","sessionId":"SID-grandchild"}}"#,
            ),
            None,
        )
        .expect("route nested root detach");
    assert_eq!(event["sessionId"], Value::from("SID-child"));
}

#[test]
fn commands_are_counted_until_they_are_answered() {
    let mut routing = CdpFrontendRoutingState::default();
    routing
        .register_browser_frontend(5, "SID-browser".to_owned(), test_sink())
        .expect("register browser frontend");
    let prepared = expect_prepared_command(
        routing.prepare_command(
            5,
            parsed_command(r#"{"id":1,"method":"Browser.getVersion"}"#),
        ),
        "browser",
    );
    assert_eq!(routing.pending_command_count(), 1);
    let id = internal_id(&prepared);
    let (_, answer) = routing
        .route_message(
            json(&format!(r#"{{"id":{id},"result":{{"product":"Moli"}},"extra":7}}"#)),
            None,
        )
        .expect("the answer goes to its sender");
    assert_eq!(answer, json(r#"{"id":1,"result":{"product":"Moli"},"extra":7}"#));
    assert_eq!(routing.pending_command_count(), 0);
    assert!(routing
        .route_message(json(&format!(r#"{{"id":{id},"result":{{}}}}"#)), None)
        .is_none());
}

#[test]
fn unregistering_one_browser_drops_only_its_pending_commands() {
    let mut routing = CdpFrontendRoutingState::default();
    routing
        .register_browser_frontend(5, "SID-browser-1".to_owned(), test_sink())
        .expect("register first browser frontend");
    routing
        .register_browser_frontend(6, "SID-browser-2".to_owned(), test_sink())
        .expect("register second browser frontend");
    let first = expect_prepared_command(
        routing.prepare_command(
            5,
            parsed_command(r#"{"id":1,"method":"Browser.getVersion"}"#),
        ),
        "first browser",
    );
    let second = expect_prepared_command(
        routing.prepare_command(
            6,
            parsed_command(r#"{"id":1,"method":"Browser.getVersion"}"#),
        ),
        "second browser",
    );
    let first_internal_id = internal_id(&first);
    let second_internal_id = internal_id(&second);

    assert_eq!(
        routing.unregister_browser_frontend(5).as_deref(),
        Some("SID-browser-1")
    );
    assert!(routing
        .route_message(
            json(&format!(
                r#"{{"id":{first_internal_id},"result":{{}},"sessionId":"SID-browser-1"}}"#
            )),
            Some("SID-browser-1"),
        )
        .is_none());
    let (frontend, response) = routing
        .route_message(
            json(&format!(
                r#"{{"id":{second_internal_id},"result":{{}},"sessionId":"SID-browser-2"}}"#
            )),
            Some("SID-browser-2"),
        )
        .expect("second browser response remains routable");
    assert_eq!(frontend.frontend_id(), 6);
    assert_eq!(response["id"], Value::from(1));
}

#[test]
fn browser_child_session_is_preserved_on_browser_frontend() {
    let mut routing = CdpFrontendRoutingState::default();
    routing
        .register_browser_frontend(5, "SID-browser".to_owned(), test_sink())
        .expect("register browser frontend");
    routing.register_child_session(5, Some("SID-browser"), "SID-client-child", Some("TID-child"));

    let command = expect_prepared_command(
        routing.prepare_command(
            5,
            parsed_command(
                r#"{"id":9,"method":"Runtime.evaluate","sessionId":"SID-client-child"}"#,
            ),
        ),
        "child-session",
    );
    let command_json = command_json(&command);
    assert_eq!(command_json["sessionId"], Value::from("SID-client-child"));
    let internal_id = command_json["id"].as_u64().expect("internal id");

    let (_, response) = routing
        .route_message(
            json(&format!(
                r#"{{"id":{internal_id},"result":{{}},"sessionId":"SID-client-child"}}"#
            )),
            Some("SID-client-child"),
        )
        .expect("route child response");
    assert_eq!(response["sessionId"], Value::from("SID-client-child"));
}

#[test]
fn legacy_target_session_references_cannot_cross_browser_frontends() {
    let mut routing = CdpFrontendRoutingState::default();
    routing
        .register_browser_frontend(5, "SID-browser-1".to_owned(), test_sink())
        .expect("register first browser frontend");
    routing
        .register_browser_frontend(6, "SID-browser-2".to_owned(), test_sink())
        .expect("register second browser frontend");
    routing.register_child_session(5, Some("SID-browser-1"), "SID-child-1", Some("TID-shared"));
    routing.register_child_session(6, Some("SID-browser-2"), "SID-child-2", Some("TID-shared"));

    for method in ["Target.detachFromTarget", "Target.sendMessageToTarget"] {
        let (frontend_id, message) = expect_immediate(routing.prepare_command(
            6,
            parsed_command(&format!(
                r#"{{"id":11,"method":"{method}",
                    "params":{{"sessionId":"SID-child-1","message":"{{}}"}}}}"#
            )),
        ));
        assert_eq!(frontend_id, 6);
        assert_eq!(message["id"], Value::from(11));
        assert_eq!(message["error"]["code"], Value::from(-32602));
    }

    let command = expect_prepared_command(
        routing.prepare_command(
            6,
            parsed_command(
                r#"{"id":12,"method":"Target.detachFromTarget","params":{"targetId":"TID-shared"}}"#,
            ),
        ),
        "owned target-id detach",
    );
    let command = command_json(&command);
    assert_eq!(command["sessionId"], Value::from("SID-browser-2"));
    assert_eq!(command["params"]["sessionId"], Value::from("SID-child-2"));
    assert_eq!(command["params"]["targetId"], Value::from("TID-shared"));
}

#[test]
fn legacy_target_id_reference_requires_one_direct_child_session() {
    let mut routing = CdpFrontendRoutingState::default();
    routing
        .register_browser_frontend(5, "SID-browser".to_owned(), test_sink())
        .expect("register browser frontend");
    routing.register_child_session(5, Some("SID-browser"), "SID-child-1", Some("TID-shared"));
    routing.register_child_session(5, Some("SID-browser"), "SID-child-2", Some("TID-shared"));
    routing.register_child_session(
        5,
        Some("SID-child-1"),
        "SID-grandchild",
        Some("TID-grandchild"),
    );

    let (_, message) = expect_immediate(routing.prepare_command(
        5,
        parsed_command(
            r#"{"id":20,"method":"Target.detachFromTarget","params":{"targetId":"TID-shared"}}"#,
        ),
    ));
    assert_eq!(message["error"]["code"], Value::from(-32000));

    let (_, message) = expect_immediate(routing.prepare_command(
        5,
        parsed_command(
            r#"{"id":21,"method":"Target.detachFromTarget","params":{"sessionId":"SID-grandchild"}}"#,
        ),
    ));
    assert_eq!(message["error"]["code"], Value::from(-32602));

    let command = expect_prepared_command(
        routing.prepare_command(
            5,
            parsed_command(
                r#"{"id":22,"method":"Target.detachFromTarget","sessionId":"SID-child-1",
                    "params":{"sessionId":"SID-grandchild"}}"#,
            ),
        ),
        "direct grandchild detach",
    );
    let command = command_json(&command);
    assert_eq!(command["sessionId"], Value::from("SID-child-1"));
    assert_eq!(command["params"]["sessionId"], Value::from("SID-grandchild"));
}

#[test]
fn attached_event_registers_child_before_attach_response() {
    let mut routing = CdpFrontendRoutingState::default();
    routing
        .register_browser_frontend(5, "SID-browser".to_owned(), test_sink())
        .expect("register browser frontend");
    let attach = expect_prepared_command(
        routing.prepare_command(
            5,
            parsed_command(
                r#"{"id":30,"method":"Target.attachToTarget",
                    "params":{"targetId":"TID-child","flatten":true}}"#,
            ),
        ),
        "attach",
    );
    let attach_internal_id = internal_id(&attach);

    let (frontend, event) = routing
        .route_message(
            json(
                r#"{"method":"Target.attachedToTarget","sessionId":"SID-browser",
                    "params":{"sessionId":"SID-child",
                        "targetInfo":{"targetId":"TID-child","type":"page"},
                        "waitingForDebugger":false}}"#,
            ),
            Some("SID-browser"),
        )
        .expect("route attached event");
    assert_eq!(frontend.frontend_id(), 5);
    assert!(event.get("sessionId").is_none());
    assert_eq!(event["params"]["sessionId"], Value::from("SID-child"));

    let child_command = expect_prepared_command(
        routing.prepare_command(
            5,
            parsed_command(
                r#"{"id":31,"method":"Runtime.evaluate","sessionId":"SID-child",
                    "params":{"expression":"1"}}"#,
            ),
        ),
        "event-registered child",
    );
    assert_eq!(
        command_json(&child_command)["sessionId"],
        Value::from("SID-child")
    );

    let (_, response) = routing
        .route_message(
            json(&format!(
                r#"{{"id":{attach_internal_id},"result":{{"sessionId":"SID-child"}},"sessionId":"SID-browser"}}"#
            )),
            Some("SID-browser"),
        )
        .expect("route attach response");
    assert_eq!(response["id"], Value::from(30));
    assert!(response.get("sessionId").is_none());
}

#[test]
fn browser_frontend_hides_base_session_on_wire() {
    let mut routing = CdpFrontendRoutingState::default();
    routing
        .register_browser_frontend(5, "SID-browser".to_owned(), test_sink())
        .expect("register browser frontend");

    let command = expect_prepared_command(
        routing.prepare_command(
            5,
            parsed_command(r#"{"id":9,"method":"Page.getFrameTree"}"#),
        ),
        "browser",
    );
    let command_json = command_json(&command);
    assert_eq!(command_json["sessionId"], Value::from("SID-browser"));
    let internal_id = command_json["id"].as_u64().expect("internal id");

    let (_, response) = routing
        .route_message(
            json(&format!(
                r#"{{"id":{internal_id},"result":{{}},"sessionId":"SID-browser"}}"#
            )),
            Some("SID-browser"),
        )
        .expect("route browser response");
    assert_eq!(response["id"], Value::from(9));
    assert!(response.get("sessionId").is_none());
}

#[test]
fn frontend_route_rewrite_preserves_unknown_command_fields() {
    let mut routing = CdpFrontendRoutingState::default();
    routing
        .register_page_frontend(10, "TID-1".to_owned(), "SID-page".to_owned(), test_sink())
        .expect("register page frontend");

    let command = expect_prepared_command(
        routing.prepare_command(
            10,
            parsed_command(
                r#"{"id":9,"method":"Runtime.getIsolateId","params":null,"futureExtension":{"enabled":true}}"#,
            ),
        ),
        "extension-field",
    );
    let command_json = command_json(&command);
    assert_ne!(command_json["id"], Value::from(9));
    assert_eq!(command_json["sessionId"], Value::from("SID-page"));
    assert!(command_json.get("params").is_none());
    assert_eq!(command_json["futureExtension"], json(r#"{"enabled":true}"#));
}

#[test]
fn malformed_command_keeps_its_originating_frontend() {
    let mut routing = CdpFrontendRoutingState::default();
    routing
        .register_browser_frontend(5, "SID-browser".to_owned(), test_sink())
        .expect("register browser frontend");
    routing
        .register_page_frontend(10, "TID-1".to_owned(), "SID-page".to_owned(), test_sink())
        .expect("register page frontend");

    assert!(matches!(
        routing.prepare_command_str(5, "{".to_owned()),
        Some(CdpPreparedFrontendCommand::ImmediateResponse { frontend_id: 5, .. })
    ));
    assert!(matches!(
        routing.prepare_command_str(10, "{".to_owned()),
        Some(CdpPreparedFrontendCommand::ImmediateResponse {
            frontend_id: 10,
            ..
        })
    ));
}

#[test]
fn routed_text_carries_the_rewritten_command() {
    let mut routing = CdpFrontendRoutingState::default();
    routing
        .register_browser_frontend(5, "SID-browser".to_owned(), test_sink())
        .expect("register browser frontend");
    let raw = r#"{ "id": 42, "method": "Browser.getVersion" }"#;
    let command = expect_prepared_command(
        routing.prepare_command_str(5, raw.to_owned()),
        "browser",
    );
    let id = internal_id(&command);
    assert_eq!(
        command.json(),
        format!(r#"{{"id":{id},"method":"Browser.getVersion","sessionId":"SID-browser"}}"#)
    );
}

#[test]
fn structurally_invalid_command_preserves_frontend_id_in_invalid_request() {
    let mut routing = CdpFrontendRoutingState::default();
    routing
        .register_browser_frontend(5, "SID-browser".to_owned(), test_sink())
        .expect("register browser frontend");

    let (frontend_id, message) = expect_immediate(routing.prepare_command_str(
        5,
        r#"{"id":42,"method":"Runtime.evaluate","params":[]}"#.to_owned(),
    ));

    assert_eq!(frontend_id, 5);
    assert_eq!(
        message,
        json(r#"{"id":42,"error":{"code":-32600,"message":"Invalid Request"}}"#)
    );
}

#[test]
fn private_page_session_detach_does_not_fall_back_to_browser_frontend() {
    let mut routing = CdpFrontendRoutingState::default();
    routing
        .register_browser_frontend(5, "SID-browser".to_owned(), test_sink())
        .expect("register browser frontend");
    routing
        .register_page_frontend(10, "TID-1".to_owned(), "SID-page".to_owned(), test_sink())
        .expect("register page frontend");
    routing.register_child_session(5, Some("SID-browser"), "SID-browser-child", Some("TID-root"));

    assert!(routing
        .route_message(
            json(
                r#"{"method":"Target.detachedFromTarget",
                    "params":{"targetId":"TID-1","sessionId":"SID-page",
                        "reason":"Render process gone."}}"#,
            ),
            None
        )
        .is_none());

    let (frontend, message) = routing
        .route_message(
            json(
                r#"{"method":"Target.detachedFromTarget","sessionId":"SID-browser",
                    "params":{"targetId":"TID-root","sessionId":"SID-browser-child"}}"#,
            ),
            Some("SID-browser"),
        )
        .expect("route browser-owned target detach");
    assert_eq!(frontend.frontend_id, 5);
    assert_eq!(
        message["params"]["sessionId"],
        Value::from("SID-browser-child")
    );
}

#[test]
fn page_child_sessions_are_scoped_to_their_frontend_and_removed_on_detach() {
    let mut routing = CdpFrontendRoutingState::default();
    routing
        .register_page_frontend(10, "TID-1".to_owned(), "SID-page-1".to_owned(), test_sink())
        .expect("register first page frontend");
    routing
        .register_page_frontend(20, "TID-2".to_owned(), "SID-page-2".to_owned(), test_sink())
        .expect("register second page frontend");

    let attach = expect_prepared_command(
        routing.prepare_command(
            10,
            parsed_command(
                r#"{"id":1,"method":"Target.attachToTarget",
                    "params":{"targetId":"TID-2","flatten":true}}"#,
            ),
        ),
        "attach",
    );
    let attach_internal_id = internal_id(&attach);
    routing
        .route_message(
            json(&format!(
                r#"{{"id":{attach_internal_id},"result":{{"sessionId":"SID-child"}},"sessionId":"SID-page-1"}}"#
            )),
            Some("SID-page-1"),
        )
        .expect("route attach response");

    let child = expect_prepared_command(
        routing.prepare_command(
            10,
            parsed_command(
                r#"{"id":2,"method":"Runtime.evaluate","sessionId":"SID-child",
                    "params":{"expression":"1"}}"#,
            ),
        ),
        "owned child",
    );
    assert_eq!(command_json(&child)["sessionId"], Value::from("SID-child"));

    let (_, message) = expect_immediate(routing.prepare_command(
        20,
        parsed_command(
            r#"{"id":3,"method":"Runtime.evaluate","sessionId":"SID-child",
                "params":{"expression":"2"}}"#,
        ),
    ));
    assert_eq!(message["error"]["code"], Value::from(-32001));

    routing
        .route_message(
            json(
                r#"{"method":"Target.detachedFromTarget","sessionId":"SID-page-1",
                    "params":{"targetId":"TID-2","sessionId":"SID-child"}}"#,
            ),
            Some("SID-page-1"),
        )
        .expect("route child detach");
    assert!(matches!(
        routing.prepare_command(
            10,
            parsed_command(
                r#"{"id":4,"method":"Runtime.evaluate","sessionId":"SID-child",
                    "params":{"expression":"3"}}"#,
            ),
        ),
        Some(CdpPreparedFrontendCommand::ImmediateResponse { .. })
    ));
}

#[test]
fn browser_frontends_register_with_independent_base_sessions() {
    let mut routing = CdpFrontendRoutingState::default();
    routing
        .register_browser_frontend(5, "SID-browser-1".to_owned(), test_sink())
        .expect("register first browser frontend");
    routing
        .register_browser_frontend(6, "SID-browser-2".to_owned(), test_sink())
        .expect("register second browser frontend");
    assert!(routing.frontend_by_id(5).is_some());
    assert!(routing.frontend_by_id(6).is_some());
    assert_eq!(
        routing.unregister_browser_frontend(5).as_deref(),
        Some("SID-browser-1")
    );
    assert!(routing.frontend_by_id(5).is_none());
    assert!(routing.frontend_by_id(6).is_some());
}

#[test]
fn private_control_session_events_do_not_reach_browser_frontend() {
    let mut routing = CdpFrontendRoutingState::default();
    routing
        .register_browser_frontend(5, "SID-browser".to_owned(), test_sink())
        .expect("register browser frontend");
    routing.register_private_session("SID-control".to_owned());

    assert!(routing
        .route_message(
            json(
                r#"{"method":"Target.attachedToTarget",
                    "params":{"sessionId":"SID-control","targetInfo":{"targetId":"browser"}}}"#,
            ),
            None
        )
        .is_none());
    assert!(routing
        .route_message(
            json(
                r#"{"method":"Target.targetCreated","sessionId":"SID-control",
                    "params":{"targetInfo":{"targetId":"TID-private"}}}"#,
            ),
            Some("SID-control")
        )
        .is_none());
    assert!(routing
        .route_message(
            json(
                r#"{"method":"Target.detachedFromTarget","params":{"sessionId":"SID-control"}}"#,
            ),
            None
        )
        .is_none());
}

#[test]
fn orphaned_responses_and_unknown_session_events_do_not_fall_back_to_browser() {
    let mut routing = CdpFrontendRoutingState::default();
    routing
        .register_browser_frontend(5, "SID-browser".to_owned(), test_sink())
        .expect("register browser frontend");

    assert!(routing
        .route_message(json(r#"{"id":999,"result":{}}"#), None)
        .is_none());
    assert!(routing
        .route_message(
            json(
                r#"{"method":"Runtime.consoleAPICalled","sessionId":"SID-stale",
                    "params":{"type":"log"}}"#,
            ),
            Some("SID-stale")
        )
        .is_none());
}

#[test]
fn events_of_two_frontends_go_to_their_own_sinks() {
    let mut routing = CdpFrontendRoutingState::default();
    routing
        .register_browser_frontend(5, "SID-browser".to_owned(), CdpSocketSink { number: 1 })
        .expect("register browser frontend");
    routing
        .register_page_frontend(
            10,
            "TID-page".to_owned(),
            "SID-page".to_owned(),
            CdpSocketSink { number: 2 },
        )
        .expect("register page frontend");

    let (root, root_message) = routing
        .route_message(
            json(
                r#"{"method":"Target.targetCreated","sessionId":"SID-browser",
                    "params":{"targetInfo":{"targetId":"TID-root"}}}"#,
            ),
            Some("SID-browser"),
        )
        .expect("route browser event");
    assert_eq!(root.sink, CdpSocketSink { number: 1 });
    assert_eq!(root_message["method"], Value::from("Target.targetCreated"));
    let (page, page_message) = routing
        .route_message(
            json(
                r#"{"method":"Runtime.consoleAPICalled","params":{"type":"log"},
                    "sessionId":"SID-page"}"#,
            ),
            Some("SID-page"),
        )
        .expect("route page event");
    assert_eq!(page.sink, CdpSocketSink { number: 2 });
    assert_eq!(
        page_message["method"],
        Value::from("Runtime.consoleAPICalled")
    );
    assert!(page_message.get("sessionId").is_none());
}

#[test]
fn registration_refuses_a_taken_number_and_a_taken_session() {
    let mut routing = CdpFrontendRoutingState::default();
    routing
        .register_browser_frontend(5, "SID-browser".to_owned(), test_sink())
        .expect("register browser frontend");
    let taken_id = routing.register_browser_frontend(5, "SID-other".to_owned(), test_sink());
    assert_eq!(taken_id, Err(RegisterFrontendError::FrontendIdTaken));
    assert_eq!(
        RegisterFrontendError::FrontendIdTaken.message(),
        "CDP frontend id is already registered"
    );
    let taken_session = routing.register_page_frontend(
        6,
        "TID-1".to_owned(),
        "SID-browser".to_owned(),
        test_sink(),
    );
    assert_eq!(taken_session, Err(RegisterFrontendError::SessionTaken));
    assert_eq!(
        RegisterFrontendError::SessionTaken.message(),
        "CDP frontend session is already registered"
    );
    assert!(routing.frontend_by_id(6).is_none());
}

#[test]
fn releasing_a_page_closes_each_of_its_frontends() {
    let mut routing = CdpFrontendRoutingState::default();
    for (frontend_id, target, session) in [
        (10, "TID-1", "SID-page-1"),
        (11, "TID-1", "SID-page-2"),
        (12, "TID-2", "SID-page-3"),
    ] {
        routing
            .register_page_frontend(
                frontend_id,
                target.to_owned(),
                session.to_owned(),
                CdpSocketSink {
                    number: frontend_id,
                },
            )
            .expect("register page frontend");
    }
    routing.unregister_page_frontends_for_target("TID-1");
    assert!(routing.frontend_by_id(10).is_none());
    assert!(routing.frontend_by_id(11).is_none());
    assert!(routing.frontend_by_id(12).is_some());
    let mut closing: Vec<u64> = routing
        .take_closing_sinks()
        .into_iter()
        .map(|sink| sink.number)
        .collect();
    closing.sort();
    assert_eq!(closing, vec![10, 11]);
    assert!(routing.take_closing_sinks().is_empty());
    assert_eq!(routing.unregister_browser_frontend(12), None);
    assert_eq!(
        routing.unregister_page_frontend(12).as_deref(),
        Some("SID-page-3")
    );
}

#[test]
fn detaching_a_session_forgets_those_below_it() {
    let mut routing = CdpFrontendRoutingState::default();
    routing
        .register_browser_frontend(5, "SID-browser".to_owned(), test_sink())
        .expect("register browser frontend");
    routing.register_child_session(5, Some("SID-browser"), "SID-child", None);
    routing.register_child_session(5, Some("SID-child"), "SID-grandchild", None);
    routing.register_child_session(5, Some("SID-grandchild"), "SID-deep", None);
    routing.register_child_session(5, Some("SID-browser"), "SID-sibling", None);
    routing
        .route_message(
            json(
                r#"{"method":"Target.detachedFromTarget","sessionId":"SID-browser",
                    "params":{"sessionId":"SID-child"}}"#,
            ),
            Some("SID-browser"),
        )
        .expect("route detach");
    for gone in ["SID-child", "SID-grandchild", "SID-deep"] {
        let (_, message) = expect_immediate(routing.prepare_command(
            5,
            parsed_command(&format!(
                r#"{{"id":1,"method":"Runtime.enable","sessionId":"{gone}"}}"#
            )),
        ));
        assert_eq!(message["error"]["code"], Value::from(-32001));
    }
    assert!(matches!(
        routing.prepare_command(
            5,
            parsed_command(r#"{"id":1,"method":"Runtime.enable","sessionId":"SID-sibling"}"#),
        ),
        Some(CdpPreparedFrontendCommand::Command(_))
    ));
}

#[test]
fn a_parse_error_is_answered_without_a_number() {
    let mut routing = CdpFrontendRoutingState::default();
    let (frontend_id, message) =
        expect_immediate(routing.prepare_command_str(3, "not json".to_owned()));
    assert_eq!(frontend_id, 3);
    assert_eq!(
        message,
        json(r#"{"id":null,"error":{"code":-32700,"message":"Parse error"}}"#)
    );
    assert!(routing
        .prepare_command_str(3, r#"{"id":1,"method":"Page.enable"}"#.to_owned())
        .is_none());
}
