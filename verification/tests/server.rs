//! The addresses, headers and routes of the server.
use moli_protocol::server::addresses::{bind_failure_message, http_cache_dir, server_addresses};
use moli_protocol::server::headers::{
    classic_webdriver_response_headers, is_classic_webdriver_http_path,
    is_classic_webdriver_json_response, is_websocket_upgrade_request,
};
use moli_protocol::server::routes::{all_routes, Endpoint, HttpMethod, ServerRoute};

#[test]
fn addresses_are_formed_from_where_the_server_listens() {
    let addresses = server_addresses("127.0.0.1:9222", "TID-1");
    assert_eq!(
        addresses.browser_ws_url,
        "ws://127.0.0.1:9222/devtools/browser/moli-browser"
    );
    assert_eq!(
        addresses.page_ws_url,
        "ws://127.0.0.1:9222/devtools/page/TID-1"
    );
    assert_eq!(addresses.bidi_ws_url, "ws://127.0.0.1:9222/session");
    assert_eq!(
        addresses.devtools_frontend_url,
        "/devtools/inspector.html?ws=127.0.0.1:9222/devtools/page/TID-1"
    );
    assert_eq!(
        bind_failure_message("0.0.0.0", 9_222),
        "failed to bind protocol server to 0.0.0.0:9222"
    );
}

#[test]
fn a_configured_cache_goes_before_the_profile() {
    let some = |text: &str| Some(text.to_owned());
    assert_eq!(http_cache_dir(some("/c"), some("/p")), some("/c"));
    assert_eq!(http_cache_dir(None, some("/p")), some("/p"));
    assert_eq!(http_cache_dir(None, None), None);
}

#[test]
fn json_answers_are_known_by_their_content_type() {
    assert!(is_classic_webdriver_json_response(Some("application/json")));
    assert!(is_classic_webdriver_json_response(Some(
        " \tApplication/JSON\u{3000}; charset=utf-8"
    )));
    assert!(!is_classic_webdriver_json_response(Some("application/json5")));
    assert!(!is_classic_webdriver_json_response(Some("application json")));
    assert!(!is_classic_webdriver_json_response(Some("; application/json")));
    assert!(!is_classic_webdriver_json_response(Some("")));
    assert!(!is_classic_webdriver_json_response(None));
}

#[test]
fn white_space_is_what_unicode_says() {
    for code in 0..0x1_0000u32 {
        if let Some(character) = char::from_u32(code) {
            if character != ';' {
                assert_eq!(
                    is_classic_webdriver_json_response(Some(&format!("{character}application/json"))),
                    character.is_whitespace(),
                    "{code:x}"
                );
            }
        }
    }
}

#[test]
fn ports_are_written_in_decimal() {
    for port in [0, 7, 10, 99, 100, 8_080, u16::MAX] {
        assert_eq!(
            bind_failure_message("h", port),
            format!("failed to bind protocol server to h:{port}")
        );
    }
}

#[test]
fn paths_differ() {
    let mut paths: Vec<String> = all_routes().iter().flat_map(|route| route.paths()).collect();
    let count = paths.len();
    paths.sort();
    paths.dedup();
    assert_eq!(paths.len(), count);
    assert_eq!(count, 131);
}

#[test]
fn websocket_upgrades_are_known_whatever_their_case() {
    let bytes = |text: &str| text.as_bytes().to_vec();
    assert!(is_websocket_upgrade_request(Some(&bytes("WebSocket"))));
    assert!(is_websocket_upgrade_request(Some(&bytes("websocket"))));
    assert!(!is_websocket_upgrade_request(Some(&bytes("websockets"))));
    assert!(!is_websocket_upgrade_request(Some(&bytes("webso{ket"))));
    assert!(!is_websocket_upgrade_request(None));
}

#[test]
fn classic_paths_are_told_apart_from_devtools() {
    assert!(is_classic_webdriver_http_path("/status"));
    assert!(is_classic_webdriver_http_path("/session"));
    assert!(is_classic_webdriver_http_path("/session/abc/url"));
    assert!(!is_classic_webdriver_http_path("/json/version"));
    assert!(!is_classic_webdriver_http_path("/sessions"));
    let json = Some("application/json");
    let headers = classic_webdriver_response_headers("/status", false, json)
        .expect("the answer is classic JSON");
    assert_eq!(headers.cache_control, "no-cache");
    assert_eq!(headers.content_type, "application/json; charset=utf-8");
    assert!(classic_webdriver_response_headers("/status", true, json).is_none());
    assert!(classic_webdriver_response_headers("/json/version", false, json).is_none());
    assert!(classic_webdriver_response_headers("/status", false, Some("text/html")).is_none());
}

#[test]
fn every_path_leads_to_one_route() {
    let routes = all_routes();
    let mut paths: Vec<String> = Vec::new();
    for route in &routes {
        assert!(!route.handlers().is_empty());
        for path in route.paths() {
            assert!(!paths.contains(&path), "{path} is there twice");
            paths.push(path);
        }
    }
    assert_eq!(paths.len(), 131);
    assert!(paths.contains(&"/status".to_owned()));
    assert!(paths.contains(&"/session/{session_id}/element/{element_id}/click".to_owned()));
}

#[test]
fn a_route_has_a_handler_for_each_of_its_methods() {
    let routes = all_routes();
    let of = |wanted: &str| -> Vec<(HttpMethod, Endpoint)> {
        routes
            .iter()
            .find(|route| route.path() == wanted)
            .map(ServerRoute::handlers)
            .unwrap_or_default()
    };
    let methods = |wanted: &str| -> Vec<HttpMethod> {
        of(wanted).into_iter().map(|handler| handler.0).collect()
    };
    assert_eq!(methods("/status"), vec![HttpMethod::Get]);
    assert!(methods("/session/{session_id}/url").contains(&HttpMethod::Get));
    assert!(methods("/session/{session_id}/url").contains(&HttpMethod::Post));
    assert!(methods("/no/such/path").is_empty());
}
