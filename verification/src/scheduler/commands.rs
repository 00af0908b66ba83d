//! Commands as the scheduler sees them: how each is carried out, and what a
//! navigation command waits for.
use vstd::prelude::*;

use crate::connection::navigation::DevToolsCommandContext;
use crate::devtools::{DevToolsCommandResult, DevToolsError, DevToolsErrorKind, DevToolsRefusal};
use crate::facts::types::RendererDocumentLifecycleMilestone;
use crate::text;

verus! {

/// What a navigation command waits for.
#[derive(Clone, Copy, Debug, PartialEq, Eq, Structural)]
pub enum DevToolsNavigationWait {
    /// For nothing.
    Immediate,
    DomContentLoaded,
    Load,
}

/// Where a traversal of the history leads.
#[derive(Clone, Copy, Debug, PartialEq, Eq, Structural)]
pub enum DevToolsHistoryTraversalDestination {
    Delta(i64),
}

/// A command that leads a Target elsewhere.
pub struct DevToolsNavigateCommand {
    pub context: DevToolsCommandContext,
    pub url: String,
    pub wait: DevToolsNavigationWait,
}

pub struct DevToolsReloadCommand {
    pub context: DevToolsCommandContext,
    pub wait: DevToolsNavigationWait,
}

pub struct DevToolsTraverseHistoryCommand {
    pub context: DevToolsCommandContext,
    pub destination: DevToolsHistoryTraversalDestination,
    pub wait: DevToolsNavigationWait,
}

pub struct DevToolsRemoveBrowserContextCommand {
    pub context: DevToolsCommandContext,
    pub browser_context_id: String,
}

/// A decision on a request that was held.
pub struct DevToolsInterceptedRequestCommand {
    pub context: DevToolsCommandContext,
    pub request_id: String,
}

pub struct DevToolsFailInterceptedRequestCommand {
    pub context: DevToolsCommandContext,
    pub request_id: String,
    pub error_text: String,
}

/// A command whose content the scheduler does not read.
pub struct DevToolsOpaqueCommand {
    pub context: DevToolsCommandContext,
    pub content: u64,
}

/// A command of a DevTools frontend.
pub enum DevToolsCommand {
    Navigate(DevToolsNavigateCommand),
    Reload(DevToolsReloadCommand),
    TraverseHistory(DevToolsTraverseHistoryCommand),
    RemoveBrowserContext(DevToolsRemoveBrowserContextCommand),
    ContinueInterceptedRequest(DevToolsInterceptedRequestCommand),
    ContinueInterceptedResponse(DevToolsInterceptedRequestCommand),
    ContinueWithAuth(DevToolsInterceptedRequestCommand),
    FailInterceptedRequest(DevToolsFailInterceptedRequestCommand),
    FulfillInterceptedRequest(DevToolsInterceptedRequestCommand),
    /// A command that runs script in a Page.
    Runtime(DevToolsOpaqueCommand),
    Other(DevToolsOpaqueCommand),
}

/// How a command is carried out.
#[derive(Clone, Copy, Debug, PartialEq, Eq, Structural)]
pub enum CommandDispatch {
    /// As a renderer call, with progress in between.
    Runtime,
    /// As the disposal of a context by the Browser owner.
    ContextDisposal,
    /// As a decision on a held request.
    Fetch,
    /// As a navigation by the Browser owner.
    OwnerNavigation,
    /// In one piece.
    Direct,
}

impl DevToolsCommand {
    /// How the command is carried out.
    pub open spec fn spec_dispatch(&self) -> CommandDispatch {
        match self {
            DevToolsCommand::Runtime(_) => CommandDispatch::Runtime,
            DevToolsCommand::RemoveBrowserContext(_) => CommandDispatch::ContextDisposal,
            DevToolsCommand::ContinueInterceptedRequest(_) => CommandDispatch::Fetch,
            DevToolsCommand::ContinueInterceptedResponse(_) => CommandDispatch::Fetch,
            DevToolsCommand::ContinueWithAuth(_) => CommandDispatch::Fetch,
            DevToolsCommand::FailInterceptedRequest(_) => CommandDispatch::Fetch,
            DevToolsCommand::FulfillInterceptedRequest(_) => CommandDispatch::Fetch,
            DevToolsCommand::Navigate(_) => CommandDispatch::OwnerNavigation,
            DevToolsCommand::Reload(_) => CommandDispatch::OwnerNavigation,
            DevToolsCommand::TraverseHistory(_) => CommandDispatch::OwnerNavigation,
            DevToolsCommand::Other(_) => CommandDispatch::Direct,
        }
    }

    /// What the command waits for, if it is a navigation.
    pub open spec fn spec_wait(&self) -> Option<DevToolsNavigationWait> {
        match self {
            DevToolsCommand::Navigate(command) => Some(command.wait),
            DevToolsCommand::Reload(command) => Some(command.wait),
            DevToolsCommand::TraverseHistory(command) => Some(command.wait),
            _ => None,
        }
    }

    /// How the command is carried out. The kinds are asked for in turn; no
    /// command is of two.
    pub fn dispatch(&self) -> (dispatch: CommandDispatch)
        ensures
            dispatch == self.spec_dispatch(),
    {
        if devtools_command_uses_interleaved_runtime_dispatch(self) {
            CommandDispatch::Runtime
        } else if devtools_command_uses_browser_owner_context_disposal(self) {
            CommandDispatch::ContextDisposal
        } else if devtools_command_uses_interleaved_fetch_dispatch(self) {
            CommandDispatch::Fetch
        } else if devtools_command_uses_browser_owner_dispatch(self) {
            CommandDispatch::OwnerNavigation
        } else {
            CommandDispatch::Direct
        }
    }
}

/// Whether a command runs script in a Page.
pub fn devtools_command_uses_interleaved_runtime_dispatch(command: &DevToolsCommand) -> (uses: bool)
    ensures
        uses == (command.spec_dispatch() is Runtime),
{
    matches!(command, DevToolsCommand::Runtime(_))
}

/// Whether a command disposes of a context.
pub fn devtools_command_uses_browser_owner_context_disposal(command: &DevToolsCommand) -> (uses:
    bool)
    ensures
        uses == (command.spec_dispatch() is ContextDisposal),
{
    matches!(command, DevToolsCommand::RemoveBrowserContext(_))
}

/// Whether a command decides on a held request.
pub fn devtools_command_uses_interleaved_fetch_dispatch(command: &DevToolsCommand) -> (uses: bool)
    ensures
        uses == (command.spec_dispatch() is Fetch),
{
    matches!(
        command,
        DevToolsCommand::ContinueInterceptedRequest(_)
            | DevToolsCommand::ContinueInterceptedResponse(_)
            | DevToolsCommand::ContinueWithAuth(_)
            | DevToolsCommand::FailInterceptedRequest(_)
            | DevToolsCommand::FulfillInterceptedRequest(_)
    )
}

/// Whether a command is a navigation that the Browser owner carries out.
pub fn devtools_command_uses_browser_owner_dispatch(command: &DevToolsCommand) -> (uses: bool)
    ensures
        uses == (command.spec_dispatch() is OwnerNavigation),
{
    matches!(
        command,
        DevToolsCommand::Navigate(_)
            | DevToolsCommand::Reload(_)
            | DevToolsCommand::TraverseHistory(_)
    )
}

/// What a command waits for, if it is a navigation.
pub fn devtools_navigation_wait(command: &DevToolsCommand) -> (wait: Option<DevToolsNavigationWait>)
    ensures
        wait == command.spec_wait(),
{
    match command {
        DevToolsCommand::Navigate(command) => Some(command.wait),
        DevToolsCommand::Reload(command) => Some(command.wait),
        DevToolsCommand::TraverseHistory(command) => Some(command.wait),
        _ => None,
    }
}

/// The milestone that a wait is for.
pub open spec fn awaited_milestone(wait: Option<DevToolsNavigationWait>) -> Option<
    RendererDocumentLifecycleMilestone,
> {
    match wait {
        Some(DevToolsNavigationWait::DomContentLoaded) => Some(
            RendererDocumentLifecycleMilestone::DomContentLoaded,
        ),
        Some(DevToolsNavigationWait::Load) => Some(RendererDocumentLifecycleMilestone::Load),
        _ => None,
    }
}

/// The milestone that a wait is for.
pub fn devtools_navigation_lifecycle_milestone(wait: Option<DevToolsNavigationWait>) -> (milestone:
    Option<RendererDocumentLifecycleMilestone>)
    ensures
        milestone == awaited_milestone(wait),
{
    match wait {
        Some(DevToolsNavigationWait::DomContentLoaded) => Some(
            RendererDocumentLifecycleMilestone::DomContentLoaded,
        ),
        Some(DevToolsNavigationWait::Load) => Some(RendererDocumentLifecycleMilestone::Load),
        _ => None,
    }
}

/// What a navigation's identity says of its loader: what follows the word
/// "navigation-".
pub open spec fn named_loader(navigation_id: Seq<char>) -> Option<Seq<char>> {
    if "navigation-"@.is_prefix_of(navigation_id) {
        Some(navigation_id.skip("navigation-"@.len() as int))
    } else {
        None
    }
}

/// The loader that an answer names: by itself, or within the identity of its
/// navigation.
pub open spec fn result_loader(result: Result<DevToolsCommandResult, DevToolsError>) -> Option<
    Seq<char>,
> {
    match result {
        Ok(DevToolsCommandResult::Navigate(navigated)) => match navigated.loader_id {
            Some(loader_id) => Some(loader_id@),
            None => match navigated.navigation_id {
                Some(navigation_id) => named_loader(navigation_id@),
                None => None,
            },
        },
        _ => None,
    }
}

/// The loader that a navigation's answer names.
pub fn devtools_navigation_result_loader_id(
    result: &Result<DevToolsCommandResult, DevToolsError>,
) -> (loader_id: Option<String>)
    ensures
        text::opt_chars(loader_id) == result_loader(*result),
{
    match result {
        Ok(DevToolsCommandResult::Navigate(navigated)) => match &navigated.loader_id {
            Some(loader_id) => Some(loader_id.clone()),
            None => match &navigated.navigation_id {
                Some(navigation_id) => text::strip_prefix(
                    navigation_id.as_str(),
                    "navigation-",
                ),
                None => None,
            },
        },
        _ => None,
    }
}

/// How far a wait for a milestone is.
#[derive(Clone, Copy, Debug, PartialEq, Eq, Structural)]
pub enum DevToolsDocumentLifecycleWaitState {
    Pending,
    Reached,
    Interrupted,
    /// Another Document has taken the place of the one waited for.
    Superseded,
    Unavailable,
}

/// A milestone as error texts name it.
pub open spec fn milestone_name(milestone: RendererDocumentLifecycleMilestone) -> Seq<char> {
    match milestone {
        RendererDocumentLifecycleMilestone::DomContentLoaded => "DOMContentLoaded"@,
        RendererDocumentLifecycleMilestone::Load => "load"@,
    }
}

/// The error that a wait ends with, given how far it is.
pub open spec fn wait_refusal(
    state: DevToolsDocumentLifecycleWaitState,
    milestone: RendererDocumentLifecycleMilestone,
) -> Option<DevToolsRefusal> {
    let name = milestone_name(milestone);
    match state {
        DevToolsDocumentLifecycleWaitState::Reached => None,
        DevToolsDocumentLifecycleWaitState::Interrupted => Some(
            DevToolsRefusal {
                kind: DevToolsErrorKind::Internal,
                message: "Navigation interrupted before "@ + name,
            },
        ),
        DevToolsDocumentLifecycleWaitState::Superseded => Some(
            DevToolsRefusal {
                kind: DevToolsErrorKind::NavigationChangingDocument,
                message: "Navigation was superseded before "@ + name,
            },
        ),
        DevToolsDocumentLifecycleWaitState::Unavailable => Some(
            DevToolsRefusal {
                kind: DevToolsErrorKind::NoSuchTarget,
                message: "Target closed before navigation "@ + name,
            },
        ),
        DevToolsDocumentLifecycleWaitState::Pending => Some(
            DevToolsRefusal {
                kind: DevToolsErrorKind::Internal,
                message: "Navigation "@ + name + " wait was cancelled"@,
            },
        ),
    }
}

/// The error that a wait ends with, given how far it is.
pub fn devtools_document_lifecycle_wait_error(
    state: DevToolsDocumentLifecycleWaitState,
    milestone: RendererDocumentLifecycleMilestone,
) -> (error: Option<DevToolsError>)
    ensures
        match error {
            Some(error) => wait_refusal(state, milestone) == Some(error@),
            None => wait_refusal(state, milestone) is None,
        },
{
    let name: &str = match milestone {
        RendererDocumentLifecycleMilestone::DomContentLoaded => "DOMContentLoaded",
        RendererDocumentLifecycleMilestone::Load => "load",
    };
    match state {
        DevToolsDocumentLifecycleWaitState::Reached => None,
        DevToolsDocumentLifecycleWaitState::Interrupted => Some(
            DevToolsError {
                kind: DevToolsErrorKind::Internal,
                message: "Navigation interrupted before ".to_owned().concat(name),
            },
        ),
        DevToolsDocumentLifecycleWaitState::Superseded => Some(
            DevToolsError {
                kind: DevToolsErrorKind::NavigationChangingDocument,
                message: "Navigation was superseded before ".to_owned().concat(name),
            },
        ),
        DevToolsDocumentLifecycleWaitState::Unavailable => Some(
            DevToolsError {
                kind: DevToolsErrorKind::NoSuchTarget,
                message: "Target closed before navigation ".to_owned().concat(name),
            },
        ),
        DevToolsDocumentLifecycleWaitState::Pending => Some(
            DevToolsError {
                kind: DevToolsErrorKind::Internal,
                message: "Navigation ".to_owned().concat(name).concat(" wait was cancelled"),
            },
        ),
    }
}

/// The error when the renderer transport ends before a point was reached.
pub open spec fn transport_refusal(over_budget: bool, boundary: Seq<char>) -> DevToolsRefusal {
    DevToolsRefusal {
        kind: DevToolsErrorKind::Internal,
        message: "Renderer output transport "@ + (if over_budget {
            "exceeded its bounded admission budget"@
        } else {
            "closed"@
        }) + " before "@ + boundary,
    }
}

/// The error when the renderer transport ends before a point was reached.
/// `over_budget` says whether it ended because too much was sent.
pub fn renderer_output_transport_terminal_error(over_budget: bool, boundary: &str) -> (error:
    DevToolsError)
    ensures
        error@ == transport_refusal(over_budget, boundary@),
{
    let reason: &str = if over_budget {
        "exceeded its bounded admission budget"
    } else {
        "closed"
    };
    DevToolsError {
        kind: DevToolsErrorKind::Internal,
        message: "Renderer output transport ".to_owned().concat(reason).concat(" before ").concat(
            boundary,
        ),
    }
}

} // verus!
