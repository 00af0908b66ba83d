//! What the server answers to: each path with its methods, and what answers.
//!
//! Every path is also answered with a slash at its end, but for the one that
//! lists Targets at the root.
use vstd::prelude::*;

use crate::server::headers;

verus! {

/// The method of a request.
#[derive(Clone, Copy, Debug, PartialEq, Eq, Structural)]
pub enum HttpMethod {
    /// Whatever the method.
    Any,
    Get,
    Post,
    Put,
    Delete,
}

/// What answers.
#[derive(Clone, Copy, Debug, PartialEq, Eq, Structural)]
pub enum Endpoint {
    Status,
    JsonList,
    JsonVersion,
    JsonProtocol,
    JsonNewTarget,
    JsonActivateTarget,
    JsonCloseTarget,
    BrowserSocket,
    TargetSocket,
    BidiSessionSocket,
    NewSession,
    BidiExistingSessionSocket,
    DeleteSession,
    GetUrl,
    Navigate,
    GetTitle,
    GetTimeouts,
    SetTimeouts,
    GetSource,
    TakeScreenshot,
    PrintPage,
    UploadFile,
    GetDownloadableFiles,
    DownloadFile,
    DeleteDownloadableFiles,
    GetServiceWorkers,
    GetWindow,
    SwitchWindow,
    CloseWindow,
    GetWindowHandles,
    GetWindowRect,
    SetWindowRect,
    MaximizeWindow,
    MinimizeWindow,
    FullscreenWindow,
    NewWindow,
    SwitchFrame,
    SwitchParentFrame,
    GetAlertText,
    SendAlertText,
    AcceptAlert,
    DismissAlert,
    Refresh,
    Back,
    Forward,
    ExecuteSync,
    ExecuteAsync,
    FindElement,
    FindElements,
    GetActiveElement,
    FindChildElement,
    FindChildElements,
    GetElementShadowRoot,
    FindShadowElement,
    FindShadowElements,
    GetElementAttribute,
    GetElementText,
    GetElementTagName,
    ElementEquals,
    IsElementEnabled,
    IsElementDisplayed,
    IsElementSelected,
    GetElementRect,
    TakeElementScreenshot,
    GetElementCssValue,
    GetElementComputedLabel,
    GetElementComputedRole,
    GetElementProperty,
    ClearElement,
    ClickElement,
    SendKeysToElement,
    PerformActions,
    ReleaseActions,
    GetCookies,
    AddCookie,
    DeleteAllCookies,
    GetNamedCookie,
    DeleteCookie,
}

/// What is answered to.
#[derive(Clone, Copy, Debug, PartialEq, Eq, Structural)]
pub enum ServerRoute {
    Status,
    Json,
    JsonList,
    JsonVersion,
    JsonProtocol,
    JsonNew,
    JsonActivate,
    JsonClose,
    DevtoolsBrowser,
    DevtoolsPage,
    Sessions,
    Session,
    Url,
    Title,
    Timeouts,
    Source,
    Screenshot,
    Print,
    File,
    SeFile,
    SeFiles,
    MoliServiceWorkers,
    Window,
    WindowHandles,
    WindowRect,
    WindowMaximize,
    WindowMinimize,
    WindowFullscreen,
    WindowNew,
    Frame,
    FrameParent,
    AlertText,
    AlertAccept,
    AlertDismiss,
    Refresh,
    Back,
    Forward,
    ExecuteSync,
    ExecuteAsync,
    FindElement,
    FindElements,
    ElementActive,
    ElementElement,
    ElementElements,
    ElementShadow,
    ShadowElement,
    ShadowElements,
    ElementAttribute,
    ElementText,
    ElementName,
    ElementEquals,
    ElementEnabled,
    ElementDisplayed,
    ElementSelected,
    ElementRect,
    ElementScreenshot,
    ElementCss,
    ElementComputedlabel,
    ElementComputedrole,
    ElementProperty,
    ElementClear,
    ElementClick,
    ElementValue,
    Actions,
    Cookies,
    NamedCookie,
}

/// Where a session is found.
pub open spec fn session_path() -> Seq<char> {
    "/session/{session_id}"@
}

/// Where an element of a session is found.
pub open spec fn element_path() -> Seq<char> {
    session_path() + "/element/{element_id}"@
}

/// Where a shadow root of a session is found.
pub open spec fn shadow_path() -> Seq<char> {
    session_path() + "/shadow/{shadow_root_id}"@
}

impl ServerRoute {
    /// The path, with names in braces for its variable parts.
    pub open spec fn spec_path(self) -> Seq<char> {
        match self {
            ServerRoute::Status => "/status"@,
            ServerRoute::Json => "/json"@,
            ServerRoute::JsonList => "/json/list"@,
            ServerRoute::JsonVersion => "/json/version"@,
            ServerRoute::JsonProtocol => "/json/protocol"@,
            ServerRoute::JsonNew => "/json/new"@,
            ServerRoute::JsonActivate => "/json/activate/{target_id}"@,
            ServerRoute::JsonClose => "/json/close/{target_id}"@,
            ServerRoute::DevtoolsBrowser => "/devtools/browser/{browser_id}"@,
            ServerRoute::DevtoolsPage => "/devtools/page/{target_id}"@,
            ServerRoute::Sessions => "/session"@,
            ServerRoute::Session => session_path(),
            ServerRoute::Url => session_path() + "/url"@,
            ServerRoute::Title => session_path() + "/title"@,
            ServerRoute::Timeouts => session_path() + "/timeouts"@,
            ServerRoute::Source => session_path() + "/source"@,
            ServerRoute::Screenshot => session_path() + "/screenshot"@,
            ServerRoute::Print => session_path() + "/print"@,
            ServerRoute::File => session_path() + "/file"@,
            ServerRoute::SeFile => session_path() + "/se/file"@,
            ServerRoute::SeFiles => session_path() + "/se/files"@,
            ServerRoute::MoliServiceWorkers => session_path() + "/moli/service-workers"@,
            ServerRoute::Window => session_path() + "/window"@,
            ServerRoute::WindowHandles => session_path() + "/window/handles"@,
            ServerRoute::WindowRect => session_path() + "/window/rect"@,
            ServerRoute::WindowMaximize => session_path() + "/window/maximize"@,
            ServerRoute::WindowMinimize => session_path() + "/window/minimize"@,
            ServerRoute::WindowFullscreen => session_path() + "/window/fullscreen"@,
            ServerRoute::WindowNew => session_path() + "/window/new"@,
            ServerRoute::Frame => session_path() + "/frame"@,
            ServerRoute::FrameParent => session_path() + "/frame/parent"@,
            ServerRoute::AlertText => session_path() + "/alert/text"@,
            ServerRoute::AlertAccept => session_path() + "/alert/accept"@,
            ServerRoute::AlertDismiss => session_path() + "/alert/dismiss"@,
            ServerRoute::Refresh => session_path() + "/refresh"@,
            ServerRoute::Back => session_path() + "/back"@,
            ServerRoute::Forward => session_path() + "/forward"@,
            ServerRoute::ExecuteSync => session_path() + "/execute/sync"@,
            ServerRoute::ExecuteAsync => session_path() + "/execute/async"@,
            ServerRoute::FindElement => session_path() + "/element"@,
            ServerRoute::FindElements => session_path() + "/elements"@,
            ServerRoute::ElementActive => session_path() + "/element/active"@,
            ServerRoute::ElementElement => element_path() + "/element"@,
            ServerRoute::ElementElements => element_path() + "/elements"@,
            ServerRoute::ElementShadow => element_path() + "/shadow"@,
            ServerRoute::ShadowElement => shadow_path() + "/element"@,
            ServerRoute::ShadowElements => shadow_path() + "/elements"@,
            ServerRoute::ElementAttribute => element_path() + "/attribute/{name}"@,
            ServerRoute::ElementText => element_path() + "/text"@,
            ServerRoute::ElementName => element_path() + "/name"@,
            ServerRoute::ElementEquals => element_path() + "/equals/{other_element_id}"@,
            ServerRoute::ElementEnabled => element_path() + "/enabled"@,
            ServerRoute::ElementDisplayed => element_path() + "/displayed"@,
            ServerRoute::ElementSelected => element_path() + "/selected"@,
            ServerRoute::ElementRect => element_path() + "/rect"@,
            ServerRoute::ElementScreenshot => element_path() + "/screenshot"@,
            ServerRoute::ElementCss => element_path() + "/css/{property_name}"@,
            ServerRoute::ElementComputedlabel => element_path() + "/computedlabel"@,
            ServerRoute::ElementComputedrole => element_path() + "/computedrole"@,
            ServerRoute::ElementProperty => element_path() + "/property/{name}"@,
            ServerRoute::ElementClear => element_path() + "/clear"@,
            ServerRoute::ElementClick => element_path() + "/click"@,
            ServerRoute::ElementValue => element_path() + "/value"@,
            ServerRoute::Actions => session_path() + "/actions"@,
            ServerRoute::Cookies => session_path() + "/cookie"@,
            ServerRoute::NamedCookie => session_path() + "/cookie/{name}"@,
        }
    }

    /// The methods that are answered, and what answers each.
    pub open spec fn spec_handlers(self) -> Seq<(HttpMethod, Endpoint)> {
        match self {
            ServerRoute::Status => seq![(HttpMethod::Get, Endpoint::Status)],
            ServerRoute::Json => seq![(HttpMethod::Any, Endpoint::JsonList)],
            ServerRoute::JsonList => seq![(HttpMethod::Any, Endpoint::JsonList)],
            ServerRoute::JsonVersion => seq![(HttpMethod::Get, Endpoint::JsonVersion)],
            ServerRoute::JsonProtocol => seq![(HttpMethod::Get, Endpoint::JsonProtocol)],
            ServerRoute::JsonNew => seq![(HttpMethod::Put, Endpoint::JsonNewTarget)],
            ServerRoute::JsonActivate => seq![(HttpMethod::Get, Endpoint::JsonActivateTarget)],
            ServerRoute::JsonClose => seq![(HttpMethod::Get, Endpoint::JsonCloseTarget)],
            ServerRoute::DevtoolsBrowser => seq![(HttpMethod::Get, Endpoint::BrowserSocket)],
            ServerRoute::DevtoolsPage => seq![(HttpMethod::Get, Endpoint::TargetSocket)],
            ServerRoute::Sessions => seq![
                (HttpMethod::Get, Endpoint::BidiSessionSocket),
                (HttpMethod::Post, Endpoint::NewSession),
            ],
            ServerRoute::Session => seq![
                (HttpMethod::Get, Endpoint::BidiExistingSessionSocket),
                (HttpMethod::Delete, Endpoint::DeleteSession),
            ],
            ServerRoute::Url => seq![
                (HttpMethod::Get, Endpoint::GetUrl),
                (HttpMethod::Post, Endpoint::Navigate),
            ],
            ServerRoute::Title => seq![(HttpMethod::Get, Endpoint::GetTitle)],
            ServerRoute::Timeouts => seq![
                (HttpMethod::Get, Endpoint::GetTimeouts),
                (HttpMethod::Post, Endpoint::SetTimeouts),
            ],
            ServerRoute::Source => seq![(HttpMethod::Get, Endpoint::GetSource)],
            ServerRoute::Screenshot => seq![(HttpMethod::Get, Endpoint::TakeScreenshot)],
            ServerRoute::Print => seq![(HttpMethod::Post, Endpoint::PrintPage)],
            ServerRoute::File => seq![(HttpMethod::Post, Endpoint::UploadFile)],
            ServerRoute::SeFile => seq![(HttpMethod::Post, Endpoint::UploadFile)],
            ServerRoute::SeFiles => seq![
                (HttpMethod::Get, Endpoint::GetDownloadableFiles),
                (HttpMethod::Post, Endpoint::DownloadFile),
                (HttpMethod::Delete, Endpoint::DeleteDownloadableFiles),
            ],
            ServerRoute::MoliServiceWorkers => seq![(HttpMethod::Get, Endpoint::GetServiceWorkers)],
            ServerRoute::Window => seq![
                (HttpMethod::Get, Endpoint::GetWindow),
                (HttpMethod::Post, Endpoint::SwitchWindow),
                (HttpMethod::Delete, Endpoint::CloseWindow),
            ],
            ServerRoute::WindowHandles => seq![(HttpMethod::Get, Endpoint::GetWindowHandles)],
            ServerRoute::WindowRect => seq![
                (HttpMethod::Get, Endpoint::GetWindowRect),
                (HttpMethod::Post, Endpoint::SetWindowRect),
            ],
            ServerRoute::WindowMaximize => seq![(HttpMethod::Post, Endpoint::MaximizeWindow)],
            ServerRoute::WindowMinimize => seq![(HttpMethod::Post, Endpoint::MinimizeWindow)],
            ServerRoute::WindowFullscreen => seq![(HttpMethod::Post, Endpoint::FullscreenWindow)],
            ServerRoute::WindowNew => seq![(HttpMethod::Post, Endpoint::NewWindow)],
            ServerRoute::Frame => seq![(HttpMethod::Post, Endpoint::SwitchFrame)],
            ServerRoute::FrameParent => seq![(HttpMethod::Post, Endpoint::SwitchParentFrame)],
            ServerRoute::AlertText => seq![
                (HttpMethod::Get, Endpoint::GetAlertText),
                (HttpMethod::Post, Endpoint::SendAlertText),
            ],
            ServerRoute::AlertAccept => seq![(HttpMethod::Post, Endpoint::AcceptAlert)],
            ServerRoute::AlertDismiss => seq![(HttpMethod::Post, Endpoint::DismissAlert)],
            ServerRoute::Refresh => seq![(HttpMethod::Post, Endpoint::Refresh)],
            ServerRoute::Back => seq![(HttpMethod::Post, Endpoint::Back)],
            ServerRoute::Forward => seq![(HttpMethod::Post, Endpoint::Forward)],
            ServerRoute::ExecuteSync => seq![(HttpMethod::Post, Endpoint::ExecuteSync)],
            ServerRoute::ExecuteAsync => seq![(HttpMethod::Post, Endpoint::ExecuteAsync)],
            ServerRoute::FindElement => seq![(HttpMethod::Post, Endpoint::FindElement)],
            ServerRoute::FindElements => seq![(HttpMethod::Post, Endpoint::FindElements)],
            ServerRoute::ElementActive => seq![(HttpMethod::Get, Endpoint::GetActiveElement)],
            ServerRoute::ElementElement => seq![(HttpMethod::Post, Endpoint::FindChildElement)],
            ServerRoute::ElementElements => seq![(HttpMethod::Post, Endpoint::FindChildElements)],
            ServerRoute::ElementShadow => seq![(HttpMethod::Get, Endpoint::GetElementShadowRoot)],
            ServerRoute::ShadowElement => seq![(HttpMethod::Post, Endpoint::FindShadowElement)],
            ServerRoute::ShadowElements => seq![(HttpMethod::Post, Endpoint::FindShadowElements)],
            ServerRoute::ElementAttribute => seq![(HttpMethod::Get, Endpoint::GetElementAttribute)],
            ServerRoute::ElementText => seq![(HttpMethod::Get, Endpoint::GetElementText)],
            ServerRoute::ElementName => seq![(HttpMethod::Get, Endpoint::GetElementTagName)],
            ServerRoute::ElementEquals => seq![(HttpMethod::Get, Endpoint::ElementEquals)],
            ServerRoute::ElementEnabled => seq![(HttpMethod::Get, Endpoint::IsElementEnabled)],
            ServerRoute::ElementDisplayed => seq![(HttpMethod::Get, Endpoint::IsElementDisplayed)],
            ServerRoute::ElementSelected => seq![(HttpMethod::Get, Endpoint::IsElementSelected)],
            ServerRoute::ElementRect => seq![(HttpMethod::Get, Endpoint::GetElementRect)],
            ServerRoute::ElementScreenshot => seq![(HttpMethod::Get, Endpoint::TakeElementScreenshot)],
            ServerRoute::ElementCss => seq![(HttpMethod::Get, Endpoint::GetElementCssValue)],
            ServerRoute::ElementComputedlabel => seq![(HttpMethod::Get, Endpoint::GetElementComputedLabel)],
            ServerRoute::ElementComputedrole => seq![(HttpMethod::Get, Endpoint::GetElementComputedRole)],
            ServerRoute::ElementProperty => seq![(HttpMethod::Get, Endpoint::GetElementProperty)],
            ServerRoute::ElementClear => seq![(HttpMethod::Post, Endpoint::ClearElement)],
            ServerRoute::ElementClick => seq![(HttpMethod::Post, Endpoint::ClickElement)],
            ServerRoute::ElementValue => seq![(HttpMethod::Post, Endpoint::SendKeysToElement)],
            ServerRoute::Actions => seq![
                (HttpMethod::Post, Endpoint::PerformActions),
                (HttpMethod::Delete, Endpoint::ReleaseActions),
            ],
            ServerRoute::Cookies => seq![
                (HttpMethod::Get, Endpoint::GetCookies),
                (HttpMethod::Post, Endpoint::AddCookie),
                (HttpMethod::Delete, Endpoint::DeleteAllCookies),
            ],
            ServerRoute::NamedCookie => seq![
                (HttpMethod::Get, Endpoint::GetNamedCookie),
                (HttpMethod::Delete, Endpoint::DeleteCookie),
            ],
        }
    }

    /// The paths, without and with a slash at the end.
    pub open spec fn spec_paths(self) -> Seq<Seq<char>> {
        if self is Json {
            seq![self.spec_path()]
        } else {
            seq![self.spec_path(), self.spec_path() + "/"@]
        }
    }

    /// Whether the route belongs to classic WebDriver.
    pub open spec fn is_classic_route(self) -> bool {
        match self {
            ServerRoute::Json => false,
            ServerRoute::JsonList => false,
            ServerRoute::JsonVersion => false,
            ServerRoute::JsonProtocol => false,
            ServerRoute::JsonNew => false,
            ServerRoute::JsonActivate => false,
            ServerRoute::JsonClose => false,
            ServerRoute::DevtoolsBrowser => false,
            ServerRoute::DevtoolsPage => false,
            _ => true,
        }
    }

    /// The path, with names in braces for its variable parts.
    pub fn path(&self) -> (path: String)
        ensures
            path@ == self.spec_path(),
    {
        let session: &str = "/session/{session_id}";
        let element: &str = "/element/{element_id}";
        let shadow: &str = "/shadow/{shadow_root_id}";
        match self {
            ServerRoute::Status => "/status".to_owned(),
            ServerRoute::Json => "/json".to_owned(),
            ServerRoute::JsonList => "/json/list".to_owned(),
            ServerRoute::JsonVersion => "/json/version".to_owned(),
            ServerRoute::JsonProtocol => "/json/protocol".to_owned(),
            ServerRoute::JsonNew => "/json/new".to_owned(),
            ServerRoute::JsonActivate => "/json/activate/{target_id}".to_owned(),
            ServerRoute::JsonClose => "/json/close/{target_id}".to_owned(),
            ServerRoute::DevtoolsBrowser => "/devtools/browser/{browser_id}".to_owned(),
            ServerRoute::DevtoolsPage => "/devtools/page/{target_id}".to_owned(),
            ServerRoute::Sessions => "/session".to_owned(),
            ServerRoute::Session => session.to_owned(),
            ServerRoute::Url => session.to_owned().concat("/url"),
            ServerRoute::Title => session.to_owned().concat("/title"),
            ServerRoute::Timeouts => session.to_owned().concat("/timeouts"),
            ServerRoute::Source => session.to_owned().concat("/source"),
            ServerRoute::Screenshot => session.to_owned().concat("/screenshot"),
            ServerRoute::Print => session.to_owned().concat("/print"),
            ServerRoute::File => session.to_owned().concat("/file"),
            ServerRoute::SeFile => session.to_owned().concat("/se/file"),
            ServerRoute::SeFiles => session.to_owned().concat("/se/files"),
            ServerRoute::MoliServiceWorkers => session.to_owned().concat("/moli/service-workers"),
            ServerRoute::Window => session.to_owned().concat("/window"),
            ServerRoute::WindowHandles => session.to_owned().concat("/window/handles"),
            ServerRoute::WindowRect => session.to_owned().concat("/window/rect"),
            ServerRoute::WindowMaximize => session.to_owned().concat("/window/maximize"),
            ServerRoute::WindowMinimize => session.to_owned().concat("/window/minimize"),
            ServerRoute::WindowFullscreen => session.to_owned().concat("/window/fullscreen"),
            ServerRoute::WindowNew => session.to_owned().concat("/window/new"),
            ServerRoute::Frame => session.to_owned().concat("/frame"),
            ServerRoute::FrameParent => session.to_owned().concat("/frame/parent"),
            ServerRoute::AlertText => session.to_owned().concat("/alert/text"),
            ServerRoute::AlertAccept => session.to_owned().concat("/alert/accept"),
            ServerRoute::AlertDismiss => session.to_owned().concat("/alert/dismiss"),
            ServerRoute::Refresh => session.to_owned().concat("/refresh"),
            ServerRoute::Back => session.to_owned().concat("/back"),
            ServerRoute::Forward => session.to_owned().concat("/forward"),
            ServerRoute::ExecuteSync => session.to_owned().concat("/execute/sync"),
            ServerRoute::ExecuteAsync => session.to_owned().concat("/execute/async"),
            ServerRoute::FindElement => session.to_owned().concat("/element"),
            ServerRoute::FindElements => session.to_owned().concat("/elements"),
            ServerRoute::ElementActive => session.to_owned().concat("/element/active"),
            ServerRoute::ElementElement => session.to_owned().concat(element).concat("/element"),
            ServerRoute::ElementElements => session.to_owned().concat(element).concat("/elements"),
            ServerRoute::ElementShadow => session.to_owned().concat(element).concat("/shadow"),
            ServerRoute::ShadowElement => session.to_owned().concat(shadow).concat("/element"),
            ServerRoute::ShadowElements => session.to_owned().concat(shadow).concat("/elements"),
            ServerRoute::ElementAttribute => session.to_owned().concat(element).concat("/attribute/{name}"),
            ServerRoute::ElementText => session.to_owned().concat(element).concat("/text"),
            ServerRoute::ElementName => session.to_owned().concat(element).concat("/name"),
            ServerRoute::ElementEquals => session.to_owned().concat(element).concat("/equals/{other_element_id}"),
            ServerRoute::ElementEnabled => session.to_owned().concat(element).concat("/enabled"),
            ServerRoute::ElementDisplayed => session.to_owned().concat(element).concat("/displayed"),
            ServerRoute::ElementSelected => session.to_owned().concat(element).concat("/selected"),
            ServerRoute::ElementRect => session.to_owned().concat(element).concat("/rect"),
            ServerRoute::ElementScreenshot => session.to_owned().concat(element).concat("/screenshot"),
            ServerRoute::ElementCss => session.to_owned().concat(element).concat("/css/{property_name}"),
            ServerRoute::ElementComputedlabel => session.to_owned().concat(element).concat("/computedlabel"),
            ServerRoute::ElementComputedrole => session.to_owned().concat(element).concat("/computedrole"),
            ServerRoute::ElementProperty => session.to_owned().concat(element).concat("/property/{name}"),
            ServerRoute::ElementClear => session.to_owned().concat(element).concat("/clear"),
            ServerRoute::ElementClick => session.to_owned().concat(element).concat("/click"),
            ServerRoute::ElementValue => session.to_owned().concat(element).concat("/value"),
            ServerRoute::Actions => session.to_owned().concat("/actions"),
            ServerRoute::Cookies => session.to_owned().concat("/cookie"),
            ServerRoute::NamedCookie => session.to_owned().concat("/cookie/{name}"),
        }
    }

    /// The methods that are answered, and what answers each.
    pub fn handlers(&self) -> (handlers: Vec<(HttpMethod, Endpoint)>)
        ensures
            handlers@ == self.spec_handlers(),
    {
        let handlers = match self {
            ServerRoute::Status => vec![(HttpMethod::Get, Endpoint::Status)],
            ServerRoute::Json => vec![(HttpMethod::Any, Endpoint::JsonList)],
            ServerRoute::JsonList => vec![(HttpMethod::Any, Endpoint::JsonList)],
            ServerRoute::JsonVersion => vec![(HttpMethod::Get, Endpoint::JsonVersion)],
            ServerRoute::JsonProtocol => vec![(HttpMethod::Get, Endpoint::JsonProtocol)],
            ServerRoute::JsonNew => vec![(HttpMethod::Put, Endpoint::JsonNewTarget)],
            ServerRoute::JsonActivate => vec![(HttpMethod::Get, Endpoint::JsonActivateTarget)],
            ServerRoute::JsonClose => vec![(HttpMethod::Get, Endpoint::JsonCloseTarget)],
            ServerRoute::DevtoolsBrowser => vec![(HttpMethod::Get, Endpoint::BrowserSocket)],
            ServerRoute::DevtoolsPage => vec![(HttpMethod::Get, Endpoint::TargetSocket)],
            ServerRoute::Sessions => vec![
                (HttpMethod::Get, Endpoint::BidiSessionSocket),
                (HttpMethod::Post, Endpoint::NewSession),
            ],
            ServerRoute::Session => vec![
                (HttpMethod::Get, Endpoint::BidiExistingSessionSocket),
                (HttpMethod::Delete, Endpoint::DeleteSession),
            ],
            ServerRoute::Url => vec![
                (HttpMethod::Get, Endpoint::GetUrl),
                (HttpMethod::Post, Endpoint::Navigate),
            ],
            ServerRoute::Title => vec![(HttpMethod::Get, Endpoint::GetTitle)],
            ServerRoute::Timeouts => vec![
                (HttpMethod::Get, Endpoint::GetTimeouts),
                (HttpMethod::Post, Endpoint::SetTimeouts),
            ],
            ServerRoute::Source => vec![(HttpMethod::Get, Endpoint::GetSource)],
            ServerRoute::Screenshot => vec![(HttpMethod::Get, Endpoint::TakeScreenshot)],
            ServerRoute::Print => vec![(HttpMethod::Post, Endpoint::PrintPage)],
            ServerRoute::File => vec![(HttpMethod::Post, Endpoint::UploadFile)],
            ServerRoute::SeFile => vec![(HttpMethod::Post, Endpoint::UploadFile)],
            ServerRoute::SeFiles => vec![
                (HttpMethod::Get, Endpoint::GetDownloadableFiles),
                (HttpMethod::Post, Endpoint::DownloadFile),
                (HttpMethod::Delete, Endpoint::DeleteDownloadableFiles),
            ],
            ServerRoute::MoliServiceWorkers => vec![(HttpMethod::Get, Endpoint::GetServiceWorkers)],
            ServerRoute::Window => vec![
                (HttpMethod::Get, Endpoint::GetWindow),
                (HttpMethod::Post, Endpoint::SwitchWindow),
                (HttpMethod::Delete, Endpoint::CloseWindow),
            ],
            ServerRoute::WindowHandles => vec![(HttpMethod::Get, Endpoint::GetWindowHandles)],
            ServerRoute::WindowRect => vec![
                (HttpMethod::Get, Endpoint::GetWindowRect),
                (HttpMethod::Post, Endpoint::SetWindowRect),
            ],
            ServerRoute::WindowMaximize => vec![(HttpMethod::Post, Endpoint::MaximizeWindow)],
            ServerRoute::WindowMinimize => vec![(HttpMethod::Post, Endpoint::MinimizeWindow)],
            ServerRoute::WindowFullscreen => vec![(HttpMethod::Post, Endpoint::FullscreenWindow)],
            ServerRoute::WindowNew => vec![(HttpMethod::Post, Endpoint::NewWindow)],
            ServerRoute::Frame => vec![(HttpMethod::Post, Endpoint::SwitchFrame)],
            ServerRoute::FrameParent => vec![(HttpMethod::Post, Endpoint::SwitchParentFrame)],
            ServerRoute::AlertText => vec![
                (HttpMethod::Get, Endpoint::GetAlertText),
                (HttpMethod::Post, Endpoint::SendAlertText),
            ],
            ServerRoute::AlertAccept => vec![(HttpMethod::Post, Endpoint::AcceptAlert)],
            ServerRoute::AlertDismiss => vec![(HttpMethod::Post, Endpoint::DismissAlert)],
            ServerRoute::Refresh => vec![(HttpMethod::Post, Endpoint::Refresh)],
            ServerRoute::Back => vec![(HttpMethod::Post, Endpoint::Back)],
            ServerRoute::Forward => vec![(HttpMethod::Post, Endpoint::Forward)],
            ServerRoute::ExecuteSync => vec![(HttpMethod::Post, Endpoint::ExecuteSync)],
            ServerRoute::ExecuteAsync => vec![(HttpMethod::Post, Endpoint::ExecuteAsync)],
            ServerRoute::FindElement => vec![(HttpMethod::Post, Endpoint::FindElement)],
            ServerRoute::FindElements => vec![(HttpMethod::Post, Endpoint::FindElements)],
            ServerRoute::ElementActive => vec![(HttpMethod::Get, Endpoint::GetActiveElement)],
            ServerRoute::ElementElement => vec![(HttpMethod::Post, Endpoint::FindChildElement)],
            ServerRoute::ElementElements => vec![(HttpMethod::Post, Endpoint::FindChildElements)],
            ServerRoute::ElementShadow => vec![(HttpMethod::Get, Endpoint::GetElementShadowRoot)],
            ServerRoute::ShadowElement => vec![(HttpMethod::Post, Endpoint::FindShadowElement)],
            ServerRoute::ShadowElements => vec![(HttpMethod::Post, Endpoint::FindShadowElements)],
            ServerRoute::ElementAttribute => vec![(HttpMethod::Get, Endpoint::GetElementAttribute)],
            ServerRoute::ElementText => vec![(HttpMethod::Get, Endpoint::GetElementText)],
            ServerRoute::ElementName => vec![(HttpMethod::Get, Endpoint::GetElementTagName)],
            ServerRoute::ElementEquals => vec![(HttpMethod::Get, Endpoint::ElementEquals)],
            ServerRoute::ElementEnabled => vec![(HttpMethod::Get, Endpoint::IsElementEnabled)],
            ServerRoute::ElementDisplayed => vec![(HttpMethod::Get, Endpoint::IsElementDisplayed)],
            ServerRoute::ElementSelected => vec![(HttpMethod::Get, Endpoint::IsElementSelected)],
            ServerRoute::ElementRect => vec![(HttpMethod::Get, Endpoint::GetElementRect)],
            ServerRoute::ElementScreenshot => vec![(HttpMethod::Get, Endpoint::TakeElementScreenshot)],
            ServerRoute::ElementCss => vec![(HttpMethod::Get, Endpoint::GetElementCssValue)],
            ServerRoute::ElementComputedlabel => vec![(HttpMethod::Get, Endpoint::GetElementComputedLabel)],
            ServerRoute::ElementComputedrole => vec![(HttpMethod::Get, Endpoint::GetElementComputedRole)],
            ServerRoute::ElementProperty => vec![(HttpMethod::Get, Endpoint::GetElementProperty)],
            ServerRoute::ElementClear => vec![(HttpMethod::Post, Endpoint::ClearElement)],
            ServerRoute::ElementClick => vec![(HttpMethod::Post, Endpoint::ClickElement)],
            ServerRoute::ElementValue => vec![(HttpMethod::Post, Endpoint::SendKeysToElement)],
            ServerRoute::Actions => vec![
                (HttpMethod::Post, Endpoint::PerformActions),
                (HttpMethod::Delete, Endpoint::ReleaseActions),
            ],
            ServerRoute::Cookies => vec![
                (HttpMethod::Get, Endpoint::GetCookies),
                (HttpMethod::Post, Endpoint::AddCookie),
                (HttpMethod::Delete, Endpoint::DeleteAllCookies),
            ],
            ServerRoute::NamedCookie => vec![
                (HttpMethod::Get, Endpoint::GetNamedCookie),
                (HttpMethod::Delete, Endpoint::DeleteCookie),
            ],
        };
        assert(handlers@ =~= self.spec_handlers());
        handlers
    }

    /// The paths, without and with a slash at the end.
    pub fn paths(&self) -> (paths: Vec<String>)
        ensures
            paths@.len() == self.spec_paths().len(),
            forall|at: int| 0 <= at < paths@.len() ==> (#[trigger] paths@[at])@ == self.spec_paths()[at],
    {
        let mut paths: Vec<String> = Vec::new();
        paths.push(self.path());
        if *self != ServerRoute::Json {
            paths.push(self.path().concat("/"));
        }
        paths
    }
}

/// All routes, in order.
pub open spec fn route_order() -> Seq<ServerRoute> {
    seq![
        ServerRoute::Status,
        ServerRoute::Json,
        ServerRoute::JsonList,
        ServerRoute::JsonVersion,
        ServerRoute::JsonProtocol,
        ServerRoute::JsonNew,
        ServerRoute::JsonActivate,
        ServerRoute::JsonClose,
        ServerRoute::DevtoolsBrowser,
        ServerRoute::DevtoolsPage,
        ServerRoute::Sessions,
        ServerRoute::Session,
        ServerRoute::Url,
        ServerRoute::Title,
        ServerRoute::Timeouts,
        ServerRoute::Source,
        ServerRoute::Screenshot,
        ServerRoute::Print,
        ServerRoute::File,
        ServerRoute::SeFile,
        ServerRoute::SeFiles,
        ServerRoute::MoliServiceWorkers,
        ServerRoute::Window,
        ServerRoute::WindowHandles,
        ServerRoute::WindowRect,
        ServerRoute::WindowMaximize,
        ServerRoute::WindowMinimize,
        ServerRoute::WindowFullscreen,
        ServerRoute::WindowNew,
        ServerRoute::Frame,
        ServerRoute::FrameParent,
        ServerRoute::AlertText,
        ServerRoute::AlertAccept,
        ServerRoute::AlertDismiss,
        ServerRoute::Refresh,
        ServerRoute::Back,
        ServerRoute::Forward,
        ServerRoute::ExecuteSync,
        ServerRoute::ExecuteAsync,
        ServerRoute::FindElement,
        ServerRoute::FindElements,
        ServerRoute::ElementActive,
        ServerRoute::ElementElement,
        ServerRoute::ElementElements,
        ServerRoute::ElementShadow,
        ServerRoute::ShadowElement,
        ServerRoute::ShadowElements,
        ServerRoute::ElementAttribute,
        ServerRoute::ElementText,
        ServerRoute::ElementName,
        ServerRoute::ElementEquals,
        ServerRoute::ElementEnabled,
        ServerRoute::ElementDisplayed,
        ServerRoute::ElementSelected,
        ServerRoute::ElementRect,
        ServerRoute::ElementScreenshot,
        ServerRoute::ElementCss,
        ServerRoute::ElementComputedlabel,
        ServerRoute::ElementComputedrole,
        ServerRoute::ElementProperty,
        ServerRoute::ElementClear,
        ServerRoute::ElementClick,
        ServerRoute::ElementValue,
        ServerRoute::Actions,
        ServerRoute::Cookies,
        ServerRoute::NamedCookie,
    ]
}

/// All routes, in order.
pub fn all_routes() -> (routes: Vec<ServerRoute>)
    ensures
        routes@ == route_order(),
{
    let routes = vec![
        ServerRoute::Status,
        ServerRoute::Json,
        ServerRoute::JsonList,
        ServerRoute::JsonVersion,
        ServerRoute::JsonProtocol,
        ServerRoute::JsonNew,
        ServerRoute::JsonActivate,
        ServerRoute::JsonClose,
        ServerRoute::DevtoolsBrowser,
        ServerRoute::DevtoolsPage,
        ServerRoute::Sessions,
        ServerRoute::Session,
        ServerRoute::Url,
        ServerRoute::Title,
        ServerRoute::Timeouts,
        ServerRoute::Source,
        ServerRoute::Screenshot,
        ServerRoute::Print,
        ServerRoute::File,
        ServerRoute::SeFile,
        ServerRoute::SeFiles,
        ServerRoute::MoliServiceWorkers,
        ServerRoute::Window,
        ServerRoute::WindowHandles,
        ServerRoute::WindowRect,
        ServerRoute::WindowMaximize,
        ServerRoute::WindowMinimize,
        ServerRoute::WindowFullscreen,
        ServerRoute::WindowNew,
        ServerRoute::Frame,
        ServerRoute::FrameParent,
        ServerRoute::AlertText,
        ServerRoute::AlertAccept,
        ServerRoute::AlertDismiss,
        ServerRoute::Refresh,
        ServerRoute::Back,
        ServerRoute::Forward,
        ServerRoute::ExecuteSync,
        ServerRoute::ExecuteAsync,
        ServerRoute::FindElement,
        ServerRoute::FindElements,
        ServerRoute::ElementActive,
        ServerRoute::ElementElement,
        ServerRoute::ElementElements,
        ServerRoute::ElementShadow,
        ServerRoute::ShadowElement,
        ServerRoute::ShadowElements,
        ServerRoute::ElementAttribute,
        ServerRoute::ElementText,
        ServerRoute::ElementName,
        ServerRoute::ElementEquals,
        ServerRoute::ElementEnabled,
        ServerRoute::ElementDisplayed,
        ServerRoute::ElementSelected,
        ServerRoute::ElementRect,
        ServerRoute::ElementScreenshot,
        ServerRoute::ElementCss,
        ServerRoute::ElementComputedlabel,
        ServerRoute::ElementComputedrole,
        ServerRoute::ElementProperty,
        ServerRoute::ElementClear,
        ServerRoute::ElementClick,
        ServerRoute::ElementValue,
        ServerRoute::Actions,
        ServerRoute::Cookies,
        ServerRoute::NamedCookie,
    ];
    assert(routes@ =~= route_order());
    routes
}

/// The place of a route among all.
pub open spec fn place(route: ServerRoute) -> int {
    match route {
        ServerRoute::Status => 0,
        ServerRoute::Json => 1,
        ServerRoute::JsonList => 2,
        ServerRoute::JsonVersion => 3,
        ServerRoute::JsonProtocol => 4,
        ServerRoute::JsonNew => 5,
        ServerRoute::JsonActivate => 6,
        ServerRoute::JsonClose => 7,
        ServerRoute::DevtoolsBrowser => 8,
        ServerRoute::DevtoolsPage => 9,
        ServerRoute::Sessions => 10,
        ServerRoute::Session => 11,
        ServerRoute::Url => 12,
        ServerRoute::Title => 13,
        ServerRoute::Timeouts => 14,
        ServerRoute::Source => 15,
        ServerRoute::Screenshot => 16,
        ServerRoute::Print => 17,
        ServerRoute::File => 18,
        ServerRoute::SeFile => 19,
        ServerRoute::SeFiles => 20,
        ServerRoute::MoliServiceWorkers => 21,
        ServerRoute::Window => 22,
        ServerRoute::WindowHandles => 23,
        ServerRoute::WindowRect => 24,
        ServerRoute::WindowMaximize => 25,
        ServerRoute::WindowMinimize => 26,
        ServerRoute::WindowFullscreen => 27,
        ServerRoute::WindowNew => 28,
        ServerRoute::Frame => 29,
        ServerRoute::FrameParent => 30,
        ServerRoute::AlertText => 31,
        ServerRoute::AlertAccept => 32,
        ServerRoute::AlertDismiss => 33,
        ServerRoute::Refresh => 34,
        ServerRoute::Back => 35,
        ServerRoute::Forward => 36,
        ServerRoute::ExecuteSync => 37,
        ServerRoute::ExecuteAsync => 38,
        ServerRoute::FindElement => 39,
        ServerRoute::FindElements => 40,
        ServerRoute::ElementActive => 41,
        ServerRoute::ElementElement => 42,
        ServerRoute::ElementElements => 43,
        ServerRoute::ElementShadow => 44,
        ServerRoute::ShadowElement => 45,
        ServerRoute::ShadowElements => 46,
        ServerRoute::ElementAttribute => 47,
        ServerRoute::ElementText => 48,
        ServerRoute::ElementName => 49,
        ServerRoute::ElementEquals => 50,
        ServerRoute::ElementEnabled => 51,
        ServerRoute::ElementDisplayed => 52,
        ServerRoute::ElementSelected => 53,
        ServerRoute::ElementRect => 54,
        ServerRoute::ElementScreenshot => 55,
        ServerRoute::ElementCss => 56,
        ServerRoute::ElementComputedlabel => 57,
        ServerRoute::ElementComputedrole => 58,
        ServerRoute::ElementProperty => 59,
        ServerRoute::ElementClear => 60,
        ServerRoute::ElementClick => 61,
        ServerRoute::ElementValue => 62,
        ServerRoute::Actions => 63,
        ServerRoute::Cookies => 64,
        ServerRoute::NamedCookie => 65,
    }
}

/// Every route is listed, at its place.
pub proof fn law_every_route_is_listed(route: ServerRoute)
    ensures
        0 <= place(route) < route_order().len(),
        route_order()[place(route)] == route,
{
}

/// The route of a path, told by its length and a few of its characters.
spec fn route_of(path: Seq<char>) -> ServerRoute {
    if path.len() == 5 {
        ServerRoute::Json
    } else if path.len() == 7 {
        ServerRoute::Status
    } else if path.len() == 8 {
        ServerRoute::Sessions
    } else if path.len() == 9 {
        ServerRoute::JsonNew
    } else if path.len() == 10 {
        ServerRoute::JsonList
    } else if path.len() == 13 {
        ServerRoute::JsonVersion
    } else if path.len() == 14 {
        ServerRoute::JsonProtocol
    } else if path.len() == 21 {
        ServerRoute::Session
    } else if path.len() == 23 {
        ServerRoute::JsonClose
    } else if path.len() == 25 {
        ServerRoute::Url
    } else if path.len() == 26 {
        if path[25] == 'e' {
            ServerRoute::File
        } else if path[25] == 'k' {
            ServerRoute::Back
        } else {
            if path[12] == 'g' {
                ServerRoute::DevtoolsPage
            } else {
                ServerRoute::JsonActivate
            }
        }
    } else if path.len() == 27 {
        if path[25] == 'l' {
            ServerRoute::Title
        } else if path[25] == 'm' {
            ServerRoute::Frame
        } else {
            ServerRoute::Print
        }
    } else if path.len() == 28 {
        if path[26] == 'c' {
            ServerRoute::Source
        } else if path[26] == 'i' {
            ServerRoute::Cookies
        } else {
            ServerRoute::Window
        }
    } else if path.len() == 29 {
        if path[28] == 'd' {
            ServerRoute::Forward
        } else if path[28] == 'e' {
            ServerRoute::SeFile
        } else if path[28] == 'h' {
            ServerRoute::Refresh
        } else if path[28] == 's' {
            ServerRoute::Actions
        } else {
            ServerRoute::FindElement
        }
    } else if path.len() == 30 {
        if path[27] == 'i' {
            ServerRoute::DevtoolsBrowser
        } else if path[27] == 'l' {
            ServerRoute::SeFiles
        } else if path[27] == 'n' {
            ServerRoute::FindElements
        } else {
            ServerRoute::Timeouts
        }
    } else if path.len() == 32 {
        if path[30] == 'e' {
            ServerRoute::WindowNew
        } else if path[30] == 'o' {
            ServerRoute::Screenshot
        } else {
            ServerRoute::AlertText
        }
    } else if path.len() == 33 {
        ServerRoute::WindowRect
    } else if path.len() == 34 {
        if path[30] == 'c' {
            ServerRoute::AlertAccept
        } else if path[30] == 'r' {
            ServerRoute::FrameParent
        } else {
            ServerRoute::ExecuteSync
        }
    } else if path.len() == 35 {
        if path[34] == 'c' {
            ServerRoute::ExecuteAsync
        } else if path[34] == 's' {
            ServerRoute::AlertDismiss
        } else {
            ServerRoute::NamedCookie
        }
    } else if path.len() == 36 {
        if path[35] == 'e' {
            ServerRoute::ElementActive
        } else {
            ServerRoute::WindowHandles
        }
    } else if path.len() == 37 {
        if path[31] == 'n' {
            ServerRoute::WindowMinimize
        } else {
            ServerRoute::WindowMaximize
        }
    } else if path.len() == 39 {
        ServerRoute::WindowFullscreen
    } else if path.len() == 42 {
        ServerRoute::MoliServiceWorkers
    } else if path.len() == 47 {
        if path[45] == 'c' {
            ServerRoute::ElementRect
        } else if path[45] == 'm' {
            ServerRoute::ElementName
        } else {
            ServerRoute::ElementText
        }
    } else if path.len() == 48 {
        if path[47] == 'e' {
            ServerRoute::ElementValue
        } else if path[47] == 'k' {
            ServerRoute::ElementClick
        } else {
            ServerRoute::ElementClear
        }
    } else if path.len() == 49 {
        ServerRoute::ElementShadow
    } else if path.len() == 50 {
        if path[49] == 'd' {
            ServerRoute::ElementEnabled
        } else {
            ServerRoute::ElementElement
        }
    } else if path.len() == 51 {
        if path[50] == 'd' {
            ServerRoute::ElementSelected
        } else {
            ServerRoute::ElementElements
        }
    } else if path.len() == 52 {
        ServerRoute::ElementDisplayed
    } else if path.len() == 53 {
        if path[51] == 'n' {
            ServerRoute::ShadowElement
        } else {
            ServerRoute::ElementScreenshot
        }
    } else if path.len() == 54 {
        ServerRoute::ShadowElements
    } else if path.len() == 55 {
        ServerRoute::ElementComputedrole
    } else if path.len() == 56 {
        ServerRoute::ElementComputedlabel
    } else if path.len() == 58 {
        ServerRoute::ElementProperty
    } else if path.len() == 59 {
        ServerRoute::ElementAttribute
    } else if path.len() == 62 {
        ServerRoute::ElementCss
    } else {
        ServerRoute::ElementEquals
    }
}

/// A path tells its route, and ends in no slash.
proof fn lemma_path_tells_route(route: ServerRoute)
    ensures
        route_of(route.spec_path()) == route,
        route.spec_path().len() > 0,
        route.spec_path().last() != '/',
{
    reveal_strlit("/session/{session_id}");
    reveal_strlit("/element/{element_id}");
    reveal_strlit("/shadow/{shadow_root_id}");
    match route {
        ServerRoute::Status => {
            reveal_strlit("/status");
        },
        ServerRoute::Json => {
            reveal_strlit("/json");
        },
        ServerRoute::JsonList => {
            reveal_strlit("/json/list");
        },
        ServerRoute::JsonVersion => {
            reveal_strlit("/json/version");
        },
        ServerRoute::JsonProtocol => {
            reveal_strlit("/json/protocol");
        },
        ServerRoute::JsonNew => {
            reveal_strlit("/json/new");
        },
        ServerRoute::JsonActivate => {
            reveal_strlit("/json/activate/{target_id}");
        },
        ServerRoute::JsonClose => {
            reveal_strlit("/json/close/{target_id}");
        },
        ServerRoute::DevtoolsBrowser => {
            reveal_strlit("/devtools/browser/{browser_id}");
        },
        ServerRoute::DevtoolsPage => {
            reveal_strlit("/devtools/page/{target_id}");
        },
        ServerRoute::Sessions => {
            reveal_strlit("/session");
        },
        ServerRoute::Session => {},
        ServerRoute::Url => {
            reveal_strlit("/url");
        },
        ServerRoute::Title => {
            reveal_strlit("/title");
        },
        ServerRoute::Timeouts => {
            reveal_strlit("/timeouts");
        },
        ServerRoute::Source => {
            reveal_strlit("/source");
        },
        ServerRoute::Screenshot => {
            reveal_strlit("/screenshot");
        },
        ServerRoute::Print => {
            reveal_strlit("/print");
        },
        ServerRoute::File => {
            reveal_strlit("/file");
        },
        ServerRoute::SeFile => {
            reveal_strlit("/se/file");
        },
        ServerRoute::SeFiles => {
            reveal_strlit("/se/files");
        },
        ServerRoute::MoliServiceWorkers => {
            reveal_strlit("/moli/service-workers");
        },
        ServerRoute::Window => {
            reveal_strlit("/window");
        },
        ServerRoute::WindowHandles => {
            reveal_strlit("/window/handles");
        },
        ServerRoute::WindowRect => {
            reveal_strlit("/window/rect");
        },
        ServerRoute::WindowMaximize => {
            reveal_strlit("/window/maximize");
        },
        ServerRoute::WindowMinimize => {
            reveal_strlit("/window/minimize");
        },
        ServerRoute::WindowFullscreen => {
            reveal_strlit("/window/fullscreen");
        },
        ServerRoute::WindowNew => {
            reveal_strlit("/window/new");
        },
        ServerRoute::Frame => {
            reveal_strlit("/frame");
        },
        ServerRoute::FrameParent => {
            reveal_strlit("/frame/parent");
        },
        ServerRoute::AlertText => {
            reveal_strlit("/alert/text");
        },
        ServerRoute::AlertAccept => {
            reveal_strlit("/alert/accept");
        },
        ServerRoute::AlertDismiss => {
            reveal_strlit("/alert/dismiss");
        },
        ServerRoute::Refresh => {
            reveal_strlit("/refresh");
        },
        ServerRoute::Back => {
            reveal_strlit("/back");
        },
        ServerRoute::Forward => {
            reveal_strlit("/forward");
        },
        ServerRoute::ExecuteSync => {
            reveal_strlit("/execute/sync");
        },
        ServerRoute::ExecuteAsync => {
            reveal_strlit("/execute/async");
        },
        ServerRoute::FindElement => {
            reveal_strlit("/element");
        },
        ServerRoute::FindElements => {
            reveal_strlit("/elements");
        },
        ServerRoute::ElementActive => {
            reveal_strlit("/element/active");
        },
        ServerRoute::ElementElement => {
            reveal_strlit("/element");
        },
        ServerRoute::ElementElements => {
            reveal_strlit("/elements");
        },
        ServerRoute::ElementShadow => {
            reveal_strlit("/shadow");
        },
        ServerRoute::ShadowElement => {
            reveal_strlit("/element");
        },
        ServerRoute::ShadowElements => {
            reveal_strlit("/elements");
        },
        ServerRoute::ElementAttribute => {
            reveal_strlit("/attribute/{name}");
        },
        ServerRoute::ElementText => {
            reveal_strlit("/text");
        },
        ServerRoute::ElementName => {
            reveal_strlit("/name");
        },
        ServerRoute::ElementEquals => {
            reveal_strlit("/equals/{other_element_id}");
        },
        ServerRoute::ElementEnabled => {
            reveal_strlit("/enabled");
        },
        ServerRoute::ElementDisplayed => {
            reveal_strlit("/displayed");
        },
        ServerRoute::ElementSelected => {
            reveal_strlit("/selected");
        },
        ServerRoute::ElementRect => {
            reveal_strlit("/rect");
        },
        ServerRoute::ElementScreenshot => {
            reveal_strlit("/screenshot");
        },
        ServerRoute::ElementCss => {
            reveal_strlit("/css/{property_name}");
        },
        ServerRoute::ElementComputedlabel => {
            reveal_strlit("/computedlabel");
        },
        ServerRoute::ElementComputedrole => {
            reveal_strlit("/computedrole");
        },
        ServerRoute::ElementProperty => {
            reveal_strlit("/property/{name}");
        },
        ServerRoute::ElementClear => {
            reveal_strlit("/clear");
        },
        ServerRoute::ElementClick => {
            reveal_strlit("/click");
        },
        ServerRoute::ElementValue => {
            reveal_strlit("/value");
        },
        ServerRoute::Actions => {
            reveal_strlit("/actions");
        },
        ServerRoute::Cookies => {
            reveal_strlit("/cookie");
        },
        ServerRoute::NamedCookie => {
            reveal_strlit("/cookie/{name}");
        },
    }
}

/// A path without the slash at its end.
spec fn bare(path: Seq<char>) -> Seq<char> {
    if path.last() == '/' {
        path.drop_last()
    } else {
        path
    }
}

/// A path of a route is its own, without or with a slash at its end.
proof fn lemma_bare_path(route: ServerRoute, at: int)
    requires
        0 <= at < route.spec_paths().len(),
    ensures
        bare(route.spec_paths()[at]) == route.spec_path(),
{
    reveal_strlit("/");
    lemma_path_tells_route(route);
    assert((route.spec_path() + "/"@).drop_last() =~= route.spec_path());
}

/// No two routes share a path, and no route has a path twice.
pub proof fn law_no_two_routes_share_a_path(
    left: ServerRoute,
    left_at: int,
    right: ServerRoute,
    right_at: int,
)
    requires
        0 <= left_at < left.spec_paths().len(),
        0 <= right_at < right.spec_paths().len(),
        left.spec_paths()[left_at] == right.spec_paths()[right_at],
    ensures
        left == right,
        left_at == right_at,
{
    reveal_strlit("/");
    lemma_bare_path(left, left_at);
    lemma_bare_path(right, right_at);
    lemma_path_tells_route(left);
    lemma_path_tells_route(right);
}

/// All that belongs to classic WebDriver is known by its path.
pub proof fn law_classic_routes_have_classic_paths(route: ServerRoute, at: int)
    requires
        route.is_classic_route(),
        0 <= at < route.spec_paths().len(),
    ensures
        headers::is_classic(route.spec_paths()[at]),
{
    reveal_strlit("/session/{session_id}");
    reveal_strlit("/session/");
    reveal_strlit("/session");
    reveal_strlit("/status");
    reveal_strlit("/status/");
    reveal_strlit("/");
    assert("/session/"@.is_prefix_of(session_path()));
    assert("/session"@ + "/"@ =~= "/session/"@);
    assert("/status"@ + "/"@ =~= "/status/"@);
    let path = route.spec_path();
    if !(route is Sessions || route is Status) {
        assert("/session/"@.is_prefix_of(path));
        assert("/session/"@.is_prefix_of(path + "/"@));
    }
}

} // verus!
