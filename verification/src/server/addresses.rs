//! The addresses under which the server can be reached.
use vstd::prelude::*;

use crate::text;
use crate::text::decimal;

verus! {

/// The addresses that a server hands out.
pub struct ServerAddresses {
    pub browser_ws_url: String,
    pub page_ws_url: String,
    pub bidi_ws_url: String,
    pub devtools_frontend_url: String,
}

/// The addresses of a server, given where it listens, as text, and the Target
/// that is there from the beginning.
pub fn server_addresses(addr: &str, default_target_id: &str) -> (addresses: ServerAddresses)
    ensures
        addresses.browser_ws_url@ == "ws://"@ + addr@ + "/devtools/browser/moli-browser"@,
        addresses.page_ws_url@ == "ws://"@ + addr@ + "/devtools/page/"@ + default_target_id@,
        addresses.bidi_ws_url@ == "ws://"@ + addr@ + "/session"@,
        addresses.devtools_frontend_url@ == "/devtools/inspector.html?ws="@ + addr@
            + "/devtools/page/"@ + default_target_id@,
{
    ServerAddresses {
        browser_ws_url: "ws://".to_owned().concat(addr).concat("/devtools/browser/moli-browser"),
        page_ws_url: "ws://".to_owned().concat(addr).concat("/devtools/page/").concat(
            default_target_id,
        ),
        bidi_ws_url: "ws://".to_owned().concat(addr).concat("/session"),
        devtools_frontend_url: "/devtools/inspector.html?ws=".to_owned().concat(addr).concat(
            "/devtools/page/",
        ).concat(default_target_id),
    }
}

/// What is said when the server cannot listen where it should.
pub fn bind_failure_message(host: &str, port: u16) -> (message: String)
    ensures
        message@ == "failed to bind protocol server to "@ + host@ + ":"@ + text::decimal_text(
            port as nat,
        ),
{
    "failed to bind protocol server to ".to_owned().concat(host).concat(":").concat(
        decimal(port as u64).as_str(),
    )
}

/// Where the HTTP cache is kept: where it is configured to be, or else in the
/// profile.
pub fn http_cache_dir(configured: Option<String>, profile_root: Option<String>) -> (dir: Option<
    String,
>)
    ensures
        dir == (if configured is Some {
            configured
        } else {
            profile_root
        }),
{
    match configured {
        Some(dir) => Some(dir),
        None => profile_root,
    }
}

} // verus!
