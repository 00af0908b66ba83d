//! What each served path is answered with, said of the paths themselves.
use vstd::prelude::*;

use crate::server::routes;
use crate::server::routes::{Endpoint, HttpMethod, ServerRoute};

verus! {

/// A path is that of one route.
proof fn lemma_one_route(left: ServerRoute, right: ServerRoute)
    requires
        left.spec_path() == right.spec_path(),
    ensures
        left == right,
{
    assert(left.spec_paths()[0] == right.spec_paths()[0]);
    routes::law_no_two_routes_share_a_path(left, 0, right, 0);
}

/// The paths of the server's state, of the Targets and of the sockets are served,
/// and each is answered to exactly its methods, by exactly its endpoints.
#[verifier::rlimit(50)]
pub proof fn law_targets_are_served(route: ServerRoute)
    ensures
        exists|served: ServerRoute| #[trigger] served.spec_path() == "/status"@,
        route.spec_path() == "/status"@ ==> route.spec_handlers() == seq![
            (HttpMethod::Get, Endpoint::Status),
        ],
        exists|served: ServerRoute| #[trigger] served.spec_path() == "/json"@,
        route.spec_path() == "/json"@ ==> route.spec_handlers() == seq![
            (HttpMethod::Any, Endpoint::JsonList),
        ],
        exists|served: ServerRoute| #[trigger] served.spec_path() == "/json/list"@,
        route.spec_path() == "/json/list"@ ==> route.spec_handlers() == seq![
            (HttpMethod::Any, Endpoint::JsonList),
        ],
        exists|served: ServerRoute| #[trigger] served.spec_path() == "/json/version"@,
        route.spec_path() == "/json/version"@ ==> route.spec_handlers() == seq![
            (HttpMethod::Get, Endpoint::JsonVersion),
        ],
        exists|served: ServerRoute| #[trigger] served.spec_path() == "/json/protocol"@,
        route.spec_path() == "/json/protocol"@ ==> route.spec_handlers() == seq![
            (HttpMethod::Get, Endpoint::JsonProtocol),
        ],
        exists|served: ServerRoute| #[trigger] served.spec_path() == "/json/new"@,
        route.spec_path() == "/json/new"@ ==> route.spec_handlers() == seq![
            (HttpMethod::Put, Endpoint::JsonNewTarget),
        ],
        exists|served: ServerRoute| #[trigger] served.spec_path() == "/json/activate/{target_id}"@,
        route.spec_path() == "/json/activate/{target_id}"@ ==> route.spec_handlers() == seq![
            (HttpMethod::Get, Endpoint::JsonActivateTarget),
        ],
        exists|served: ServerRoute| #[trigger] served.spec_path() == "/json/close/{target_id}"@,
        route.spec_path() == "/json/close/{target_id}"@ ==> route.spec_handlers() == seq![
            (HttpMethod::Get, Endpoint::JsonCloseTarget),
        ],
        exists|served: ServerRoute| #[trigger] served.spec_path() == "/devtools/browser/{browser_id}"@,
        route.spec_path() == "/devtools/browser/{browser_id}"@ ==> route.spec_handlers() == seq![
            (HttpMethod::Get, Endpoint::BrowserSocket),
        ],
        exists|served: ServerRoute| #[trigger] served.spec_path() == "/devtools/page/{target_id}"@,
        route.spec_path() == "/devtools/page/{target_id}"@ ==> route.spec_handlers() == seq![
            (HttpMethod::Get, Endpoint::TargetSocket),
        ],
        exists|served: ServerRoute| #[trigger] served.spec_path() == "/session"@,
        route.spec_path() == "/session"@ ==> route.spec_handlers() == seq![
            (HttpMethod::Get, Endpoint::BidiSessionSocket),
            (HttpMethod::Post, Endpoint::NewSession),
        ],
{
    reveal_strlit("/session/{session_id}");
    reveal_strlit("/element/{element_id}");
    reveal_strlit("/shadow/{shadow_root_id}");
    assert(ServerRoute::Status.spec_path() =~= "/status"@) by {
        reveal_strlit("/status");
    }
    if route.spec_path() == "/status"@ {
        lemma_one_route(route, ServerRoute::Status);
    }
    assert(ServerRoute::Json.spec_path() =~= "/json"@) by {
        reveal_strlit("/json");
    }
    if route.spec_path() == "/json"@ {
        lemma_one_route(route, ServerRoute::Json);
    }
    assert(ServerRoute::JsonList.spec_path() =~= "/json/list"@) by {
        reveal_strlit("/json/list");
    }
    if route.spec_path() == "/json/list"@ {
        lemma_one_route(route, ServerRoute::JsonList);
    }
    assert(ServerRoute::JsonVersion.spec_path() =~= "/json/version"@) by {
        reveal_strlit("/json/version");
    }
    if route.spec_path() == "/json/version"@ {
        lemma_one_route(route, ServerRoute::JsonVersion);
    }
    assert(ServerRoute::JsonProtocol.spec_path() =~= "/json/protocol"@) by {
        reveal_strlit("/json/protocol");
    }
    if route.spec_path() == "/json/protocol"@ {
        lemma_one_route(route, ServerRoute::JsonProtocol);
    }
    assert(ServerRoute::JsonNew.spec_path() =~= "/json/new"@) by {
        reveal_strlit("/json/new");
    }
    if route.spec_path() == "/json/new"@ {
        lemma_one_route(route, ServerRoute::JsonNew);
    }
    assert(ServerRoute::JsonActivate.spec_path() =~= "/json/activate/{target_id}"@) by {
        reveal_strlit("/json/activate/{target_id}");
    }
    if route.spec_path() == "/json/activate/{target_id}"@ {
        lemma_one_route(route, ServerRoute::JsonActivate);
    }
    assert(ServerRoute::JsonClose.spec_path() =~= "/json/close/{target_id}"@) by {
        reveal_strlit("/json/close/{target_id}");
    }
    if route.spec_path() == "/json/close/{target_id}"@ {
        lemma_one_route(route, ServerRoute::JsonClose);
    }
    assert(ServerRoute::DevtoolsBrowser.spec_path() =~= "/devtools/browser/{browser_id}"@) by {
        reveal_strlit("/devtools/browser/{browser_id}");
    }
    if route.spec_path() == "/devtools/browser/{browser_id}"@ {
        lemma_one_route(route, ServerRoute::DevtoolsBrowser);
    }
    assert(ServerRoute::DevtoolsPage.spec_path() =~= "/devtools/page/{target_id}"@) by {
        reveal_strlit("/devtools/page/{target_id}");
    }
    if route.spec_path() == "/devtools/page/{target_id}"@ {
        lemma_one_route(route, ServerRoute::DevtoolsPage);
    }
    assert(ServerRoute::Sessions.spec_path() =~= "/session"@) by {
        reveal_strlit("/session");
    }
    if route.spec_path() == "/session"@ {
        lemma_one_route(route, ServerRoute::Sessions);
    }
}

/// The paths of a session, of its Page and of its files are served, and each is
/// answered to exactly its methods, by exactly its endpoints.
#[verifier::rlimit(50)]
pub proof fn law_session_paths_are_served(route: ServerRoute)
    ensures
        exists|served: ServerRoute| #[trigger] served.spec_path() == "/session/{session_id}"@,
        route.spec_path() == "/session/{session_id}"@ ==> route.spec_handlers() == seq![
            (HttpMethod::Get, Endpoint::BidiExistingSessionSocket),
            (HttpMethod::Delete, Endpoint::DeleteSession),
        ],
        exists|served: ServerRoute| #[trigger] served.spec_path() == "/session/{session_id}/url"@,
        route.spec_path() == "/session/{session_id}/url"@ ==> route.spec_handlers() == seq![
            (HttpMethod::Get, Endpoint::GetUrl),
            (HttpMethod::Post, Endpoint::Navigate),
        ],
        exists|served: ServerRoute| #[trigger] served.spec_path() == "/session/{session_id}/title"@,
        route.spec_path() == "/session/{session_id}/title"@ ==> route.spec_handlers() == seq![
            (HttpMethod::Get, Endpoint::GetTitle),
        ],
        exists|served: ServerRoute| #[trigger] served.spec_path() == "/session/{session_id}/timeouts"@,
        route.spec_path() == "/session/{session_id}/timeouts"@ ==> route.spec_handlers() == seq![
            (HttpMethod::Get, Endpoint::GetTimeouts),
            (HttpMethod::Post, Endpoint::SetTimeouts),
        ],
        exists|served: ServerRoute| #[trigger] served.spec_path() == "/session/{session_id}/source"@,
        route.spec_path() == "/session/{session_id}/source"@ ==> route.spec_handlers() == seq![
            (HttpMethod::Get, Endpoint::GetSource),
        ],
        exists|served: ServerRoute| #[trigger] served.spec_path() == "/session/{session_id}/screenshot"@,
        route.spec_path() == "/session/{session_id}/screenshot"@ ==> route.spec_handlers() == seq![
            (HttpMethod::Get, Endpoint::TakeScreenshot),
        ],
        exists|served: ServerRoute| #[trigger] served.spec_path() == "/session/{session_id}/print"@,
        route.spec_path() == "/session/{session_id}/print"@ ==> route.spec_handlers() == seq![
            (HttpMethod::Post, Endpoint::PrintPage),
        ],
        exists|served: ServerRoute| #[trigger] served.spec_path() == "/session/{session_id}/file"@,
        route.spec_path() == "/session/{session_id}/file"@ ==> route.spec_handlers() == seq![
            (HttpMethod::Post, Endpoint::UploadFile),
        ],
        exists|served: ServerRoute| #[trigger] served.spec_path() == "/session/{session_id}/se/file"@,
        route.spec_path() == "/session/{session_id}/se/file"@ ==> route.spec_handlers() == seq![
            (HttpMethod::Post, Endpoint::UploadFile),
        ],
        exists|served: ServerRoute| #[trigger] served.spec_path() == "/session/{session_id}/se/files"@,
        route.spec_path() == "/session/{session_id}/se/files"@ ==> route.spec_handlers() == seq![
            (HttpMethod::Get, Endpoint::GetDownloadableFiles),
            (HttpMethod::Post, Endpoint::DownloadFile),
            (HttpMethod::Delete, Endpoint::DeleteDownloadableFiles),
        ],
        exists|served: ServerRoute| #[trigger] served.spec_path() == "/session/{session_id}/moli/service-workers"@,
        route.spec_path() == "/session/{session_id}/moli/service-workers"@ ==> route.spec_handlers() == seq![
            (HttpMethod::Get, Endpoint::GetServiceWorkers),
        ],
{
    reveal_strlit("/session/{session_id}");
    reveal_strlit("/element/{element_id}");
    reveal_strlit("/shadow/{shadow_root_id}");
    assert(ServerRoute::Session.spec_path() =~= "/session/{session_id}"@) by {
    }
    if route.spec_path() == "/session/{session_id}"@ {
        lemma_one_route(route, ServerRoute::Session);
    }
    assert(ServerRoute::Url.spec_path() =~= "/session/{session_id}/url"@) by {
        reveal_strlit("/url");
        reveal_strlit("/session/{session_id}/url");
    }
    if route.spec_path() == "/session/{session_id}/url"@ {
        lemma_one_route(route, ServerRoute::Url);
    }
    assert(ServerRoute::Title.spec_path() =~= "/session/{session_id}/title"@) by {
        reveal_strlit("/title");
        reveal_strlit("/session/{session_id}/title");
    }
    if route.spec_path() == "/session/{session_id}/title"@ {
        lemma_one_route(route, ServerRoute::Title);
    }
    assert(ServerRoute::Timeouts.spec_path() =~= "/session/{session_id}/timeouts"@) by {
        reveal_strlit("/timeouts");
        reveal_strlit("/session/{session_id}/timeouts");
    }
    if route.spec_path() == "/session/{session_id}/timeouts"@ {
        lemma_one_route(route, ServerRoute::Timeouts);
    }
    assert(ServerRoute::Source.spec_path() =~= "/session/{session_id}/source"@) by {
        reveal_strlit("/source");
        reveal_strlit("/session/{session_id}/source");
    }
    if route.spec_path() == "/session/{session_id}/source"@ {
        lemma_one_route(route, ServerRoute::Source);
    }
    assert(ServerRoute::Screenshot.spec_path() =~= "/session/{session_id}/screenshot"@) by {
        reveal_strlit("/screenshot");
        reveal_strlit("/session/{session_id}/screenshot");
    }
    if route.spec_path() == "/session/{session_id}/screenshot"@ {
        lemma_one_route(route, ServerRoute::Screenshot);
    }
    assert(ServerRoute::Print.spec_path() =~= "/session/{session_id}/print"@) by {
        reveal_strlit("/print");
        reveal_strlit("/session/{session_id}/print");
    }
    if route.spec_path() == "/session/{session_id}/print"@ {
        lemma_one_route(route, ServerRoute::Print);
    }
    assert(ServerRoute::File.spec_path() =~= "/session/{session_id}/file"@) by {
        reveal_strlit("/file");
        reveal_strlit("/session/{session_id}/file");
    }
    if route.spec_path() == "/session/{session_id}/file"@ {
        lemma_one_route(route, ServerRoute::File);
    }
    assert(ServerRoute::SeFile.spec_path() =~= "/session/{session_id}/se/file"@) by {
        reveal_strlit("/se/file");
        reveal_strlit("/session/{session_id}/se/file");
    }
    if route.spec_path() == "/session/{session_id}/se/file"@ {
        lemma_one_route(route, ServerRoute::SeFile);
    }
    assert(ServerRoute::SeFiles.spec_path() =~= "/session/{session_id}/se/files"@) by {
        reveal_strlit("/se/files");
        reveal_strlit("/session/{session_id}/se/files");
    }
    if route.spec_path() == "/session/{session_id}/se/files"@ {
        lemma_one_route(route, ServerRoute::SeFiles);
    }
    assert(ServerRoute::MoliServiceWorkers.spec_path() =~= "/session/{session_id}/moli/service-workers"@) by {
        reveal_strlit("/moli/service-workers");
        reveal_strlit("/session/{session_id}/moli/service-workers");
    }
    if route.spec_path() == "/session/{session_id}/moli/service-workers"@ {
        lemma_one_route(route, ServerRoute::MoliServiceWorkers);
    }
}

/// The paths of workers, windows, frames and dialogs are served, and each is
/// answered to exactly its methods, by exactly its endpoints.
#[verifier::rlimit(50)]
pub proof fn law_window_paths_are_served(route: ServerRoute)
    ensures
        exists|served: ServerRoute| #[trigger] served.spec_path() == "/session/{session_id}/window"@,
        route.spec_path() == "/session/{session_id}/window"@ ==> route.spec_handlers() == seq![
            (HttpMethod::Get, Endpoint::GetWindow),
            (HttpMethod::Post, Endpoint::SwitchWindow),
            (HttpMethod::Delete, Endpoint::CloseWindow),
        ],
        exists|served: ServerRoute| #[trigger] served.spec_path() == "/session/{session_id}/window/handles"@,
        route.spec_path() == "/session/{session_id}/window/handles"@ ==> route.spec_handlers() == seq![
            (HttpMethod::Get, Endpoint::GetWindowHandles),
        ],
        exists|served: ServerRoute| #[trigger] served.spec_path() == "/session/{session_id}/window/rect"@,
        route.spec_path() == "/session/{session_id}/window/rect"@ ==> route.spec_handlers() == seq![
            (HttpMethod::Get, Endpoint::GetWindowRect),
            (HttpMethod::Post, Endpoint::SetWindowRect),
        ],
        exists|served: ServerRoute| #[trigger] served.spec_path() == "/session/{session_id}/window/maximize"@,
        route.spec_path() == "/session/{session_id}/window/maximize"@ ==> route.spec_handlers() == seq![
            (HttpMethod::Post, Endpoint::MaximizeWindow),
        ],
        exists|served: ServerRoute| #[trigger] served.spec_path() == "/session/{session_id}/window/minimize"@,
        route.spec_path() == "/session/{session_id}/window/minimize"@ ==> route.spec_handlers() == seq![
            (HttpMethod::Post, Endpoint::MinimizeWindow),
        ],
        exists|served: ServerRoute| #[trigger] served.spec_path() == "/session/{session_id}/window/fullscreen"@,
        route.spec_path() == "/session/{session_id}/window/fullscreen"@ ==> route.spec_handlers() == seq![
            (HttpMethod::Post, Endpoint::FullscreenWindow),
        ],
        exists|served: ServerRoute| #[trigger] served.spec_path() == "/session/{session_id}/window/new"@,
        route.spec_path() == "/session/{session_id}/window/new"@ ==> route.spec_handlers() == seq![
            (HttpMethod::Post, Endpoint::NewWindow),
        ],
        exists|served: ServerRoute| #[trigger] served.spec_path() == "/session/{session_id}/frame"@,
        route.spec_path() == "/session/{session_id}/frame"@ ==> route.spec_handlers() == seq![
            (HttpMethod::Post, Endpoint::SwitchFrame),
        ],
        exists|served: ServerRoute| #[trigger] served.spec_path() == "/session/{session_id}/frame/parent"@,
        route.spec_path() == "/session/{session_id}/frame/parent"@ ==> route.spec_handlers() == seq![
            (HttpMethod::Post, Endpoint::SwitchParentFrame),
        ],
        exists|served: ServerRoute| #[trigger] served.spec_path() == "/session/{session_id}/alert/text"@,
        route.spec_path() == "/session/{session_id}/alert/text"@ ==> route.spec_handlers() == seq![
            (HttpMethod::Get, Endpoint::GetAlertText),
            (HttpMethod::Post, Endpoint::SendAlertText),
        ],
        exists|served: ServerRoute| #[trigger] served.spec_path() == "/session/{session_id}/alert/accept"@,
        route.spec_path() == "/session/{session_id}/alert/accept"@ ==> route.spec_handlers() == seq![
            (HttpMethod::Post, Endpoint::AcceptAlert),
        ],
{
    reveal_strlit("/session/{session_id}");
    reveal_strlit("/element/{element_id}");
    reveal_strlit("/shadow/{shadow_root_id}");
    assert(ServerRoute::Window.spec_path() =~= "/session/{session_id}/window"@) by {
        reveal_strlit("/window");
        reveal_strlit("/session/{session_id}/window");
    }
    if route.spec_path() == "/session/{session_id}/window"@ {
        lemma_one_route(route, ServerRoute::Window);
    }
    assert(ServerRoute::WindowHandles.spec_path() =~= "/session/{session_id}/window/handles"@) by {
        reveal_strlit("/window/handles");
        reveal_strlit("/session/{session_id}/window/handles");
    }
    if route.spec_path() == "/session/{session_id}/window/handles"@ {
        lemma_one_route(route, ServerRoute::WindowHandles);
    }
    assert(ServerRoute::WindowRect.spec_path() =~= "/session/{session_id}/window/rect"@) by {
        reveal_strlit("/window/rect");
        reveal_strlit("/session/{session_id}/window/rect");
    }
    if route.spec_path() == "/session/{session_id}/window/rect"@ {
        lemma_one_route(route, ServerRoute::WindowRect);
    }
    assert(ServerRoute::WindowMaximize.spec_path() =~= "/session/{session_id}/window/maximize"@) by {
        reveal_strlit("/window/maximize");
        reveal_strlit("/session/{session_id}/window/maximize");
    }
    if route.spec_path() == "/session/{session_id}/window/maximize"@ {
        lemma_one_route(route, ServerRoute::WindowMaximize);
    }
    assert(ServerRoute::WindowMinimize.spec_path() =~= "/session/{session_id}/window/minimize"@) by {
        reveal_strlit("/window/minimize");
        reveal_strlit("/session/{session_id}/window/minimize");
    }
    if route.spec_path() == "/session/{session_id}/window/minimize"@ {
        lemma_one_route(route, ServerRoute::WindowMinimize);
    }
    assert(ServerRoute::WindowFullscreen.spec_path() =~= "/session/{session_id}/window/fullscreen"@) by {
        reveal_strlit("/window/fullscreen");
        reveal_strlit("/session/{session_id}/window/fullscreen");
    }
    if route.spec_path() == "/session/{session_id}/window/fullscreen"@ {
        lemma_one_route(route, ServerRoute::WindowFullscreen);
    }
    assert(ServerRoute::WindowNew.spec_path() =~= "/session/{session_id}/window/new"@) by {
        reveal_strlit("/window/new");
        reveal_strlit("/session/{session_id}/window/new");
    }
    if route.spec_path() == "/session/{session_id}/window/new"@ {
        lemma_one_route(route, ServerRoute::WindowNew);
    }
    assert(ServerRoute::Frame.spec_path() =~= "/session/{session_id}/frame"@) by {
        reveal_strlit("/frame");
        reveal_strlit("/session/{session_id}/frame");
    }
    if route.spec_path() == "/session/{session_id}/frame"@ {
        lemma_one_route(route, ServerRoute::Frame);
    }
    assert(ServerRoute::FrameParent.spec_path() =~= "/session/{session_id}/frame/parent"@) by {
        reveal_strlit("/frame/parent");
        reveal_strlit("/session/{session_id}/frame/parent");
    }
    if route.spec_path() == "/session/{session_id}/frame/parent"@ {
        lemma_one_route(route, ServerRoute::FrameParent);
    }
    assert(ServerRoute::AlertText.spec_path() =~= "/session/{session_id}/alert/text"@) by {
        reveal_strlit("/alert/text");
        reveal_strlit("/session/{session_id}/alert/text");
    }
    if route.spec_path() == "/session/{session_id}/alert/text"@ {
        lemma_one_route(route, ServerRoute::AlertText);
    }
    assert(ServerRoute::AlertAccept.spec_path() =~= "/session/{session_id}/alert/accept"@) by {
        reveal_strlit("/alert/accept");
        reveal_strlit("/session/{session_id}/alert/accept");
    }
    if route.spec_path() == "/session/{session_id}/alert/accept"@ {
        lemma_one_route(route, ServerRoute::AlertAccept);
    }
}

/// The paths of dialogs, of the history, of scripts and of the search for elements
/// are served, and each is answered to exactly its methods, by exactly its
/// endpoints.
#[verifier::rlimit(50)]
pub proof fn law_search_paths_are_served(route: ServerRoute)
    ensures
        exists|served: ServerRoute| #[trigger] served.spec_path() == "/session/{session_id}/alert/dismiss"@,
        route.spec_path() == "/session/{session_id}/alert/dismiss"@ ==> route.spec_handlers() == seq![
            (HttpMethod::Post, Endpoint::DismissAlert),
        ],
        exists|served: ServerRoute| #[trigger] served.spec_path() == "/session/{session_id}/refresh"@,
        route.spec_path() == "/session/{session_id}/refresh"@ ==> route.spec_handlers() == seq![
            (HttpMethod::Post, Endpoint::Refresh),
        ],
        exists|served: ServerRoute| #[trigger] served.spec_path() == "/session/{session_id}/back"@,
        route.spec_path() == "/session/{session_id}/back"@ ==> route.spec_handlers() == seq![
            (HttpMethod::Post, Endpoint::Back),
        ],
        exists|served: ServerRoute| #[trigger] served.spec_path() == "/session/{session_id}/forward"@,
        route.spec_path() == "/session/{session_id}/forward"@ ==> route.spec_handlers() == seq![
            (HttpMethod::Post, Endpoint::Forward),
        ],
        exists|served: ServerRoute| #[trigger] served.spec_path() == "/session/{session_id}/execute/sync"@,
        route.spec_path() == "/session/{session_id}/execute/sync"@ ==> route.spec_handlers() == seq![
            (HttpMethod::Post, Endpoint::ExecuteSync),
        ],
        exists|served: ServerRoute| #[trigger] served.spec_path() == "/session/{session_id}/execute/async"@,
        route.spec_path() == "/session/{session_id}/execute/async"@ ==> route.spec_handlers() == seq![
            (HttpMethod::Post, Endpoint::ExecuteAsync),
        ],
        exists|served: ServerRoute| #[trigger] served.spec_path() == "/session/{session_id}/element"@,
        route.spec_path() == "/session/{session_id}/element"@ ==> route.spec_handlers() == seq![
            (HttpMethod::Post, Endpoint::FindElement),
        ],
        exists|served: ServerRoute| #[trigger] served.spec_path() == "/session/{session_id}/elements"@,
        route.spec_path() == "/session/{session_id}/elements"@ ==> route.spec_handlers() == seq![
            (HttpMethod::Post, Endpoint::FindElements),
        ],
        exists|served: ServerRoute| #[trigger] served.spec_path() == "/session/{session_id}/element/active"@,
        route.spec_path() == "/session/{session_id}/element/active"@ ==> route.spec_handlers() == seq![
            (HttpMethod::Get, Endpoint::GetActiveElement),
        ],
        exists|served: ServerRoute| #[trigger] served.spec_path() == "/session/{session_id}/element/{element_id}/element"@,
        route.spec_path() == "/session/{session_id}/element/{element_id}/element"@ ==> route.spec_handlers() == seq![
            (HttpMethod::Post, Endpoint::FindChildElement),
        ],
        exists|served: ServerRoute| #[trigger] served.spec_path() == "/session/{session_id}/element/{element_id}/elements"@,
        route.spec_path() == "/session/{session_id}/element/{element_id}/elements"@ ==> route.spec_handlers() == seq![
            (HttpMethod::Post, Endpoint::FindChildElements),
        ],
{
    reveal_strlit("/session/{session_id}");
    reveal_strlit("/element/{element_id}");
    reveal_strlit("/shadow/{shadow_root_id}");
    assert(ServerRoute::AlertDismiss.spec_path() =~= "/session/{session_id}/alert/dismiss"@) by {
        reveal_strlit("/alert/dismiss");
        reveal_strlit("/session/{session_id}/alert/dismiss");
    }
    if route.spec_path() == "/session/{session_id}/alert/dismiss"@ {
        lemma_one_route(route, ServerRoute::AlertDismiss);
    }
    assert(ServerRoute::Refresh.spec_path() =~= "/session/{session_id}/refresh"@) by {
        reveal_strlit("/refresh");
        reveal_strlit("/session/{session_id}/refresh");
    }
    if route.spec_path() == "/session/{session_id}/refresh"@ {
        lemma_one_route(route, ServerRoute::Refresh);
    }
    assert(ServerRoute::Back.spec_path() =~= "/session/{session_id}/back"@) by {
        reveal_strlit("/back");
        reveal_strlit("/session/{session_id}/back");
    }
    if route.spec_path() == "/session/{session_id}/back"@ {
        lemma_one_route(route, ServerRoute::Back);
    }
    assert(ServerRoute::Forward.spec_path() =~= "/session/{session_id}/forward"@) by {
        reveal_strlit("/forward");
        reveal_strlit("/session/{session_id}/forward");
    }
    if route.spec_path() == "/session/{session_id}/forward"@ {
        lemma_one_route(route, ServerRoute::Forward);
    }
    assert(ServerRoute::ExecuteSync.spec_path() =~= "/session/{session_id}/execute/sync"@) by {
        reveal_strlit("/execute/sync");
        reveal_strlit("/session/{session_id}/execute/sync");
    }
    if route.spec_path() == "/session/{session_id}/execute/sync"@ {
        lemma_one_route(route, ServerRoute::ExecuteSync);
    }
    assert(ServerRoute::ExecuteAsync.spec_path() =~= "/session/{session_id}/execute/async"@) by {
        reveal_strlit("/execute/async");
        reveal_strlit("/session/{session_id}/execute/async");
    }
    if route.spec_path() == "/session/{session_id}/execute/async"@ {
        lemma_one_route(route, ServerRoute::ExecuteAsync);
    }
    assert(ServerRoute::FindElement.spec_path() =~= "/session/{session_id}/element"@) by {
        reveal_strlit("/element");
        reveal_strlit("/session/{session_id}/element");
    }
    if route.spec_path() == "/session/{session_id}/element"@ {
        lemma_one_route(route, ServerRoute::FindElement);
    }
    assert(ServerRoute::FindElements.spec_path() =~= "/session/{session_id}/elements"@) by {
        reveal_strlit("/elements");
        reveal_strlit("/session/{session_id}/elements");
    }
    if route.spec_path() == "/session/{session_id}/elements"@ {
        lemma_one_route(route, ServerRoute::FindElements);
    }
    assert(ServerRoute::ElementActive.spec_path() =~= "/session/{session_id}/element/active"@) by {
        reveal_strlit("/element/active");
        reveal_strlit("/session/{session_id}/element/active");
    }
    if route.spec_path() == "/session/{session_id}/element/active"@ {
        lemma_one_route(route, ServerRoute::ElementActive);
    }
    assert(ServerRoute::ElementElement.spec_path() =~= "/session/{session_id}/element/{element_id}/element"@) by {
        reveal_strlit("/element");
        reveal_strlit("/session/{session_id}/element/{element_id}/element");
    }
    if route.spec_path() == "/session/{session_id}/element/{element_id}/element"@ {
        lemma_one_route(route, ServerRoute::ElementElement);
    }
    assert(ServerRoute::ElementElements.spec_path() =~= "/session/{session_id}/element/{element_id}/elements"@) by {
        reveal_strlit("/elements");
        reveal_strlit("/session/{session_id}/element/{element_id}/elements");
    }
    if route.spec_path() == "/session/{session_id}/element/{element_id}/elements"@ {
        lemma_one_route(route, ServerRoute::ElementElements);
    }
}

/// The paths of elements below others and of what is read of an element are
/// served, and each is answered to exactly its methods, by exactly its endpoints.
#[verifier::rlimit(50)]
pub proof fn law_element_paths_are_served(route: ServerRoute)
    ensures
        exists|served: ServerRoute| #[trigger] served.spec_path() == "/session/{session_id}/element/{element_id}/shadow"@,
        route.spec_path() == "/session/{session_id}/element/{element_id}/shadow"@ ==> route.spec_handlers() == seq![
            (HttpMethod::Get, Endpoint::GetElementShadowRoot),
        ],
        exists|served: ServerRoute| #[trigger] served.spec_path() == "/session/{session_id}/shadow/{shadow_root_id}/element"@,
        route.spec_path() == "/session/{session_id}/shadow/{shadow_root_id}/element"@ ==> route.spec_handlers() == seq![
            (HttpMethod::Post, Endpoint::FindShadowElement),
        ],
        exists|served: ServerRoute| #[trigger] served.spec_path() == "/session/{session_id}/shadow/{shadow_root_id}/elements"@,
        route.spec_path() == "/session/{session_id}/shadow/{shadow_root_id}/elements"@ ==> route.spec_handlers() == seq![
            (HttpMethod::Post, Endpoint::FindShadowElements),
        ],
        exists|served: ServerRoute| #[trigger] served.spec_path() == "/session/{session_id}/element/{element_id}/attribute/{name}"@,
        route.spec_path() == "/session/{session_id}/element/{element_id}/attribute/{name}"@ ==> route.spec_handlers() == seq![
            (HttpMethod::Get, Endpoint::GetElementAttribute),
        ],
        exists|served: ServerRoute| #[trigger] served.spec_path() == "/session/{session_id}/element/{element_id}/text"@,
        route.spec_path() == "/session/{session_id}/element/{element_id}/text"@ ==> route.spec_handlers() == seq![
            (HttpMethod::Get, Endpoint::GetElementText),
        ],
        exists|served: ServerRoute| #[trigger] served.spec_path() == "/session/{session_id}/element/{element_id}/name"@,
        route.spec_path() == "/session/{session_id}/element/{element_id}/name"@ ==> route.spec_handlers() == seq![
            (HttpMethod::Get, Endpoint::GetElementTagName),
        ],
        exists|served: ServerRoute| #[trigger] served.spec_path() == "/session/{session_id}/element/{element_id}/equals/{other_element_id}"@,
        route.spec_path() == "/session/{session_id}/element/{element_id}/equals/{other_element_id}"@ ==> route.spec_handlers() == seq![
            (HttpMethod::Get, Endpoint::ElementEquals),
        ],
        exists|served: ServerRoute| #[trigger] served.spec_path() == "/session/{session_id}/element/{element_id}/enabled"@,
        route.spec_path() == "/session/{session_id}/element/{element_id}/enabled"@ ==> route.spec_handlers() == seq![
            (HttpMethod::Get, Endpoint::IsElementEnabled),
        ],
        exists|served: ServerRoute| #[trigger] served.spec_path() == "/session/{session_id}/element/{element_id}/displayed"@,
        route.spec_path() == "/session/{session_id}/element/{element_id}/displayed"@ ==> route.spec_handlers() == seq![
            (HttpMethod::Get, Endpoint::IsElementDisplayed),
        ],
        exists|served: ServerRoute| #[trigger] served.spec_path() == "/session/{session_id}/element/{element_id}/selected"@,
        route.spec_path() == "/session/{session_id}/element/{element_id}/selected"@ ==> route.spec_handlers() == seq![
            (HttpMethod::Get, Endpoint::IsElementSelected),
        ],
        exists|served: ServerRoute| #[trigger] served.spec_path() == "/session/{session_id}/element/{element_id}/rect"@,
        route.spec_path() == "/session/{session_id}/element/{element_id}/rect"@ ==> route.spec_handlers() == seq![
            (HttpMethod::Get, Endpoint::GetElementRect),
        ],
{
    reveal_strlit("/session/{session_id}");
    reveal_strlit("/element/{element_id}");
    reveal_strlit("/shadow/{shadow_root_id}");
    assert(ServerRoute::ElementShadow.spec_path() =~= "/session/{session_id}/element/{element_id}/shadow"@) by {
        reveal_strlit("/shadow");
        reveal_strlit("/session/{session_id}/element/{element_id}/shadow");
    }
    if route.spec_path() == "/session/{session_id}/element/{element_id}/shadow"@ {
        lemma_one_route(route, ServerRoute::ElementShadow);
    }
    assert(ServerRoute::ShadowElement.spec_path() =~= "/session/{session_id}/shadow/{shadow_root_id}/element"@) by {
        reveal_strlit("/element");
        reveal_strlit("/session/{session_id}/shadow/{shadow_root_id}/element");
    }
    if route.spec_path() == "/session/{session_id}/shadow/{shadow_root_id}/element"@ {
        lemma_one_route(route, ServerRoute::ShadowElement);
    }
    assert(ServerRoute::ShadowElements.spec_path() =~= "/session/{session_id}/shadow/{shadow_root_id}/elements"@) by {
        reveal_strlit("/elements");
        reveal_strlit("/session/{session_id}/shadow/{shadow_root_id}/elements");
    }
    if route.spec_path() == "/session/{session_id}/shadow/{shadow_root_id}/elements"@ {
        lemma_one_route(route, ServerRoute::ShadowElements);
    }
    assert(ServerRoute::ElementAttribute.spec_path() =~= "/session/{session_id}/element/{element_id}/attribute/{name}"@) by {
        reveal_strlit("/attribute/{name}");
        reveal_strlit("/session/{session_id}/element/{element_id}/attribute/{name}");
    }
    if route.spec_path() == "/session/{session_id}/element/{element_id}/attribute/{name}"@ {
        lemma_one_route(route, ServerRoute::ElementAttribute);
    }
    assert(ServerRoute::ElementText.spec_path() =~= "/session/{session_id}/element/{element_id}/text"@) by {
        reveal_strlit("/text");
        reveal_strlit("/session/{session_id}/element/{element_id}/text");
    }
    if route.spec_path() == "/session/{session_id}/element/{element_id}/text"@ {
        lemma_one_route(route, ServerRoute::ElementText);
    }
    assert(ServerRoute::ElementName.spec_path() =~= "/session/{session_id}/element/{element_id}/name"@) by {
        reveal_strlit("/name");
        reveal_strlit("/session/{session_id}/element/{element_id}/name");
    }
    if route.spec_path() == "/session/{session_id}/element/{element_id}/name"@ {
        lemma_one_route(route, ServerRoute::ElementName);
    }
    assert(ServerRoute::ElementEquals.spec_path() =~= "/session/{session_id}/element/{element_id}/equals/{other_element_id}"@) by {
        reveal_strlit("/equals/{other_element_id}");
        reveal_strlit("/session/{session_id}/element/{element_id}/equals/{other_element_id}");
    }
    if route.spec_path() == "/session/{session_id}/element/{element_id}/equals/{other_element_id}"@ {
        lemma_one_route(route, ServerRoute::ElementEquals);
    }
    assert(ServerRoute::ElementEnabled.spec_path() =~= "/session/{session_id}/element/{element_id}/enabled"@) by {
        reveal_strlit("/enabled");
        reveal_strlit("/session/{session_id}/element/{element_id}/enabled");
    }
    if route.spec_path() == "/session/{session_id}/element/{element_id}/enabled"@ {
        lemma_one_route(route, ServerRoute::ElementEnabled);
    }
    assert(ServerRoute::ElementDisplayed.spec_path() =~= "/session/{session_id}/element/{element_id}/displayed"@) by {
        reveal_strlit("/displayed");
        reveal_strlit("/session/{session_id}/element/{element_id}/displayed");
    }
    if route.spec_path() == "/session/{session_id}/element/{element_id}/displayed"@ {
        lemma_one_route(route, ServerRoute::ElementDisplayed);
    }
    assert(ServerRoute::ElementSelected.spec_path() =~= "/session/{session_id}/element/{element_id}/selected"@) by {
        reveal_strlit("/selected");
        reveal_strlit("/session/{session_id}/element/{element_id}/selected");
    }
    if route.spec_path() == "/session/{session_id}/element/{element_id}/selected"@ {
        lemma_one_route(route, ServerRoute::ElementSelected);
    }
    assert(ServerRoute::ElementRect.spec_path() =~= "/session/{session_id}/element/{element_id}/rect"@) by {
        reveal_strlit("/rect");
        reveal_strlit("/session/{session_id}/element/{element_id}/rect");
    }
    if route.spec_path() == "/session/{session_id}/element/{element_id}/rect"@ {
        lemma_one_route(route, ServerRoute::ElementRect);
    }
}

/// The paths of what an element looks like, of what is done to it, of input and of
/// cookies are served, and each is answered to exactly its methods, by exactly its
/// endpoints.
#[verifier::rlimit(50)]
pub proof fn law_input_paths_are_served(route: ServerRoute)
    ensures
        exists|served: ServerRoute| #[trigger] served.spec_path() == "/session/{session_id}/element/{element_id}/screenshot"@,
        route.spec_path() == "/session/{session_id}/element/{element_id}/screenshot"@ ==> route.spec_handlers() == seq![
            (HttpMethod::Get, Endpoint::TakeElementScreenshot),
        ],
        exists|served: ServerRoute| #[trigger] served.spec_path() == "/session/{session_id}/element/{element_id}/css/{property_name}"@,
        route.spec_path() == "/session/{session_id}/element/{element_id}/css/{property_name}"@ ==> route.spec_handlers() == seq![
            (HttpMethod::Get, Endpoint::GetElementCssValue),
        ],
        exists|served: ServerRoute| #[trigger] served.spec_path() == "/session/{session_id}/element/{element_id}/computedlabel"@,
        route.spec_path() == "/session/{session_id}/element/{element_id}/computedlabel"@ ==> route.spec_handlers() == seq![
            (HttpMethod::Get, Endpoint::GetElementComputedLabel),
        ],
        exists|served: ServerRoute| #[trigger] served.spec_path() == "/session/{session_id}/element/{element_id}/computedrole"@,
        route.spec_path() == "/session/{session_id}/element/{element_id}/computedrole"@ ==> route.spec_handlers() == seq![
            (HttpMethod::Get, Endpoint::GetElementComputedRole),
        ],
        exists|served: ServerRoute| #[trigger] served.spec_path() == "/session/{session_id}/element/{element_id}/property/{name}"@,
        route.spec_path() == "/session/{session_id}/element/{element_id}/property/{name}"@ ==> route.spec_handlers() == seq![
            (HttpMethod::Get, Endpoint::GetElementProperty),
        ],
        exists|served: ServerRoute| #[trigger] served.spec_path() == "/session/{session_id}/element/{element_id}/clear"@,
        route.spec_path() == "/session/{session_id}/element/{element_id}/clear"@ ==> route.spec_handlers() == seq![
            (HttpMethod::Post, Endpoint::ClearElement),
        ],
        exists|served: ServerRoute| #[trigger] served.spec_path() == "/session/{session_id}/element/{element_id}/click"@,
        route.spec_path() == "/session/{session_id}/element/{element_id}/click"@ ==> route.spec_handlers() == seq![
            (HttpMethod::Post, Endpoint::ClickElement),
        ],
        exists|served: ServerRoute| #[trigger] served.spec_path() == "/session/{session_id}/element/{element_id}/value"@,
        route.spec_path() == "/session/{session_id}/element/{element_id}/value"@ ==> route.spec_handlers() == seq![
            (HttpMethod::Post, Endpoint::SendKeysToElement),
        ],
        exists|served: ServerRoute| #[trigger] served.spec_path() == "/session/{session_id}/actions"@,
        route.spec_path() == "/session/{session_id}/actions"@ ==> route.spec_handlers() == seq![
            (HttpMethod::Post, Endpoint::PerformActions),
            (HttpMethod::Delete, Endpoint::ReleaseActions),
        ],
        exists|served: ServerRoute| #[trigger] served.spec_path() == "/session/{session_id}/cookie"@,
        route.spec_path() == "/session/{session_id}/cookie"@ ==> route.spec_handlers() == seq![
            (HttpMethod::Get, Endpoint::GetCookies),
            (HttpMethod::Post, Endpoint::AddCookie),
            (HttpMethod::Delete, Endpoint::DeleteAllCookies),
        ],
        exists|served: ServerRoute| #[trigger] served.spec_path() == "/session/{session_id}/cookie/{name}"@,
        route.spec_path() == "/session/{session_id}/cookie/{name}"@ ==> route.spec_handlers() == seq![
            (HttpMethod::Get, Endpoint::GetNamedCookie),
            (HttpMethod::Delete, Endpoint::DeleteCookie),
        ],
{
    reveal_strlit("/session/{session_id}");
    reveal_strlit("/element/{element_id}");
    reveal_strlit("/shadow/{shadow_root_id}");
    assert(ServerRoute::ElementScreenshot.spec_path() =~= "/session/{session_id}/element/{element_id}/screenshot"@) by {
        reveal_strlit("/screenshot");
        reveal_strlit("/session/{session_id}/element/{element_id}/screenshot");
    }
    if route.spec_path() == "/session/{session_id}/element/{element_id}/screenshot"@ {
        lemma_one_route(route, ServerRoute::ElementScreenshot);
    }
    assert(ServerRoute::ElementCss.spec_path() =~= "/session/{session_id}/element/{element_id}/css/{property_name}"@) by {
        reveal_strlit("/css/{property_name}");
        reveal_strlit("/session/{session_id}/element/{element_id}/css/{property_name}");
    }
    if route.spec_path() == "/session/{session_id}/element/{element_id}/css/{property_name}"@ {
        lemma_one_route(route, ServerRoute::ElementCss);
    }
    assert(ServerRoute::ElementComputedlabel.spec_path() =~= "/session/{session_id}/element/{element_id}/computedlabel"@) by {
        reveal_strlit("/computedlabel");
        reveal_strlit("/session/{session_id}/element/{element_id}/computedlabel");
    }
    if route.spec_path() == "/session/{session_id}/element/{element_id}/computedlabel"@ {
        lemma_one_route(route, ServerRoute::ElementComputedlabel);
    }
    assert(ServerRoute::ElementComputedrole.spec_path() =~= "/session/{session_id}/element/{element_id}/computedrole"@) by {
        reveal_strlit("/computedrole");
        reveal_strlit("/session/{session_id}/element/{element_id}/computedrole");
    }
    if route.spec_path() == "/session/{session_id}/element/{element_id}/computedrole"@ {
        lemma_one_route(route, ServerRoute::ElementComputedrole);
    }
    assert(ServerRoute::ElementProperty.spec_path() =~= "/session/{session_id}/element/{element_id}/property/{name}"@) by {
        reveal_strlit("/property/{name}");
        reveal_strlit("/session/{session_id}/element/{element_id}/property/{name}");
    }
    if route.spec_path() == "/session/{session_id}/element/{element_id}/property/{name}"@ {
        lemma_one_route(route, ServerRoute::ElementProperty);
    }
    assert(ServerRoute::ElementClear.spec_path() =~= "/session/{session_id}/element/{element_id}/clear"@) by {
        reveal_strlit("/clear");
        reveal_strlit("/session/{session_id}/element/{element_id}/clear");
    }
    if route.spec_path() == "/session/{session_id}/element/{element_id}/clear"@ {
        lemma_one_route(route, ServerRoute::ElementClear);
    }
    assert(ServerRoute::ElementClick.spec_path() =~= "/session/{session_id}/element/{element_id}/click"@) by {
        reveal_strlit("/click");
        reveal_strlit("/session/{session_id}/element/{element_id}/click");
    }
    if route.spec_path() == "/session/{session_id}/element/{element_id}/click"@ {
        lemma_one_route(route, ServerRoute::ElementClick);
    }
    assert(ServerRoute::ElementValue.spec_path() =~= "/session/{session_id}/element/{element_id}/value"@) by {
        reveal_strlit("/value");
        reveal_strlit("/session/{session_id}/element/{element_id}/value");
    }
    if route.spec_path() == "/session/{session_id}/element/{element_id}/value"@ {
        lemma_one_route(route, ServerRoute::ElementValue);
    }
    assert(ServerRoute::Actions.spec_path() =~= "/session/{session_id}/actions"@) by {
        reveal_strlit("/actions");
        reveal_strlit("/session/{session_id}/actions");
    }
    if route.spec_path() == "/session/{session_id}/actions"@ {
        lemma_one_route(route, ServerRoute::Actions);
    }
    assert(ServerRoute::Cookies.spec_path() =~= "/session/{session_id}/cookie"@) by {
        reveal_strlit("/cookie");
        reveal_strlit("/session/{session_id}/cookie");
    }
    if route.spec_path() == "/session/{session_id}/cookie"@ {
        lemma_one_route(route, ServerRoute::Cookies);
    }
    assert(ServerRoute::NamedCookie.spec_path() =~= "/session/{session_id}/cookie/{name}"@) by {
        reveal_strlit("/cookie/{name}");
        reveal_strlit("/session/{session_id}/cookie/{name}");
    }
    if route.spec_path() == "/session/{session_id}/cookie/{name}"@ {
        lemma_one_route(route, ServerRoute::NamedCookie);
    }
}

/// The route that an endpoint answers on, the first where it has two.
spec fn home(endpoint: Endpoint) -> ServerRoute {
    match endpoint {
        Endpoint::Status => ServerRoute::Status,
        Endpoint::JsonList => ServerRoute::Json,
        Endpoint::JsonVersion => ServerRoute::JsonVersion,
        Endpoint::JsonProtocol => ServerRoute::JsonProtocol,
        Endpoint::JsonNewTarget => ServerRoute::JsonNew,
        Endpoint::JsonActivateTarget => ServerRoute::JsonActivate,
        Endpoint::JsonCloseTarget => ServerRoute::JsonClose,
        Endpoint::BrowserSocket => ServerRoute::DevtoolsBrowser,
        Endpoint::TargetSocket => ServerRoute::DevtoolsPage,
        Endpoint::BidiSessionSocket => ServerRoute::Sessions,
        Endpoint::NewSession => ServerRoute::Sessions,
        Endpoint::BidiExistingSessionSocket => ServerRoute::Session,
        Endpoint::DeleteSession => ServerRoute::Session,
        Endpoint::GetUrl => ServerRoute::Url,
        Endpoint::Navigate => ServerRoute::Url,
        Endpoint::GetTitle => ServerRoute::Title,
        Endpoint::GetTimeouts => ServerRoute::Timeouts,
        Endpoint::SetTimeouts => ServerRoute::Timeouts,
        Endpoint::GetSource => ServerRoute::Source,
        Endpoint::TakeScreenshot => ServerRoute::Screenshot,
        Endpoint::PrintPage => ServerRoute::Print,
        Endpoint::UploadFile => ServerRoute::File,
        Endpoint::GetDownloadableFiles => ServerRoute::SeFiles,
        Endpoint::DownloadFile => ServerRoute::SeFiles,
        Endpoint::DeleteDownloadableFiles => ServerRoute::SeFiles,
        Endpoint::GetServiceWorkers => ServerRoute::MoliServiceWorkers,
        Endpoint::GetWindow => ServerRoute::Window,
        Endpoint::SwitchWindow => ServerRoute::Window,
        Endpoint::CloseWindow => ServerRoute::Window,
        Endpoint::GetWindowHandles => ServerRoute::WindowHandles,
        Endpoint::GetWindowRect => ServerRoute::WindowRect,
        Endpoint::SetWindowRect => ServerRoute::WindowRect,
        Endpoint::MaximizeWindow => ServerRoute::WindowMaximize,
        Endpoint::MinimizeWindow => ServerRoute::WindowMinimize,
        Endpoint::FullscreenWindow => ServerRoute::WindowFullscreen,
        Endpoint::NewWindow => ServerRoute::WindowNew,
        Endpoint::SwitchFrame => ServerRoute::Frame,
        Endpoint::SwitchParentFrame => ServerRoute::FrameParent,
        Endpoint::GetAlertText => ServerRoute::AlertText,
        Endpoint::SendAlertText => ServerRoute::AlertText,
        Endpoint::AcceptAlert => ServerRoute::AlertAccept,
        Endpoint::DismissAlert => ServerRoute::AlertDismiss,
        Endpoint::Refresh => ServerRoute::Refresh,
        Endpoint::Back => ServerRoute::Back,
        Endpoint::Forward => ServerRoute::Forward,
        Endpoint::ExecuteSync => ServerRoute::ExecuteSync,
        Endpoint::ExecuteAsync => ServerRoute::ExecuteAsync,
        Endpoint::FindElement => ServerRoute::FindElement,
        Endpoint::FindElements => ServerRoute::FindElements,
        Endpoint::GetActiveElement => ServerRoute::ElementActive,
        Endpoint::FindChildElement => ServerRoute::ElementElement,
        Endpoint::FindChildElements => ServerRoute::ElementElements,
        Endpoint::GetElementShadowRoot => ServerRoute::ElementShadow,
        Endpoint::FindShadowElement => ServerRoute::ShadowElement,
        Endpoint::FindShadowElements => ServerRoute::ShadowElements,
        Endpoint::GetElementAttribute => ServerRoute::ElementAttribute,
        Endpoint::GetElementText => ServerRoute::ElementText,
        Endpoint::GetElementTagName => ServerRoute::ElementName,
        Endpoint::ElementEquals => ServerRoute::ElementEquals,
        Endpoint::IsElementEnabled => ServerRoute::ElementEnabled,
        Endpoint::IsElementDisplayed => ServerRoute::ElementDisplayed,
        Endpoint::IsElementSelected => ServerRoute::ElementSelected,
        Endpoint::GetElementRect => ServerRoute::ElementRect,
        Endpoint::TakeElementScreenshot => ServerRoute::ElementScreenshot,
        Endpoint::GetElementCssValue => ServerRoute::ElementCss,
        Endpoint::GetElementComputedLabel => ServerRoute::ElementComputedlabel,
        Endpoint::GetElementComputedRole => ServerRoute::ElementComputedrole,
        Endpoint::GetElementProperty => ServerRoute::ElementProperty,
        Endpoint::ClearElement => ServerRoute::ElementClear,
        Endpoint::ClickElement => ServerRoute::ElementClick,
        Endpoint::SendKeysToElement => ServerRoute::ElementValue,
        Endpoint::PerformActions => ServerRoute::Actions,
        Endpoint::ReleaseActions => ServerRoute::Actions,
        Endpoint::GetCookies => ServerRoute::Cookies,
        Endpoint::AddCookie => ServerRoute::Cookies,
        Endpoint::DeleteAllCookies => ServerRoute::Cookies,
        Endpoint::GetNamedCookie => ServerRoute::NamedCookie,
        Endpoint::DeleteCookie => ServerRoute::NamedCookie,
    }
}

/// No endpoint answers on two paths, but for the list of Targets, which is found
/// in two places, and the upload of a file, which has two names. No route answers
/// a method twice.
pub proof fn law_endpoint_answers_on_one_path(
    left: ServerRoute,
    left_at: int,
    right: ServerRoute,
    right_at: int,
)
    requires
        0 <= left_at < left.spec_handlers().len(),
        0 <= right_at < right.spec_handlers().len(),
    ensures
        left.spec_handlers()[left_at].1 == right.spec_handlers()[right_at].1 ==> left == right || ((
        left == ServerRoute::Json || left == ServerRoute::JsonList) && (right == ServerRoute::Json
            || right == ServerRoute::JsonList)) || ((left == ServerRoute::File || left
            == ServerRoute::SeFile) && (right == ServerRoute::File || right
            == ServerRoute::SeFile)),
        left == right && left.spec_handlers()[left_at].0 == right.spec_handlers()[right_at].0
            ==> left_at == right_at,
{
    lemma_home(left, left_at);
    lemma_home(right, right_at);
}

proof fn lemma_home(route: ServerRoute, at: int)
    requires
        0 <= at < route.spec_handlers().len(),
    ensures
        route == ServerRoute::JsonList || route == ServerRoute::SeFile || home(
            route.spec_handlers()[at].1,
        ) == route,
        route == ServerRoute::JsonList ==> home(route.spec_handlers()[at].1) == ServerRoute::Json,
        route == ServerRoute::SeFile ==> home(route.spec_handlers()[at].1) == ServerRoute::File,
{
}

/// Every path is served without and with a slash at its end, but for the list of
/// Targets at the root.
pub proof fn law_paths_may_end_in_a_slash(route: ServerRoute)
    ensures
        route.spec_path() == "/json"@ ==> route.spec_paths() == seq!["/json"@],
        route.spec_path() != "/json"@ ==> route.spec_paths() == seq![
            route.spec_path(),
            route.spec_path() + "/"@,
        ],
{
    if route.spec_path() == "/json"@ {
        lemma_one_route(route, ServerRoute::Json);
    }
}

} // verus!
