//! The owner loop of the Host.
//!
//! With a BiDi frontend attached, output goes to it, and its socket is one of
//! the inputs. Without one, output is dropped. The frontend is released when it
//! is gone, and when the loop ends.
use vstd::prelude::*;

use crate::host::requests::DevToolsHostRequestOutcome;

verus! {

/// What the loop has received first. A sender that is gone is told apart.
#[derive(Clone, Copy, Debug, PartialEq, Eq, Structural)]
pub enum HostSelection {
    /// The load that comes before any turn of the Browser owner.
    LoadProjection { is_closed: bool },
    /// A wake of the Browser owner's lane.
    BrowserHost { is_closed: bool },
    BackgroundNavigationCompletion { is_closed: bool },
    BackgroundEvent { is_closed: bool },
    RendererPublication { is_closed: bool },
    /// The socket of the attached frontend.
    Socket { is_closed: bool },
    AdapterScheduler,
    /// An inspector response for the attached frontend.
    RuntimeResponse { is_closed: bool },
    Request { is_closed: bool },
}

/// What is done about it.
#[derive(Clone, Copy, Debug, PartialEq, Eq, Structural)]
pub enum HostAction {
    /// It is carried out.
    Handle,
    /// The attached frontend is released, and the loop goes on.
    ReleaseFrontend,
    /// The loop ends.
    Stop,
}

/// What came of carrying it out.
#[derive(Clone, Copy, Debug, PartialEq, Eq, Structural)]
pub enum HostHandled {
    /// The output went to the attached frontend, which is still there or not.
    Sent { is_kept: bool },
    /// There was nobody to send output to.
    Dropped,
    /// It failed, and there was nobody to tell.
    Failed,
    Request(DevToolsHostRequestOutcome),
}

/// What comes after it.
#[derive(Clone, Copy, Debug, PartialEq, Eq, Structural)]
pub enum HostFollowup {
    Continue,
    /// The attached frontend is released, and the loop goes on.
    ReleaseFrontend,
    /// A frontend that attached beside another is released.
    ReleaseDuplicate,
    /// Renderer output that is there is taken in at once.
    IngestReady,
    /// The loop ends.
    Stop,
}

/// What is done about what was received. When a sender is gone the loop ends,
/// but for what belongs to the attached frontend.
pub open spec fn action_for(selection: HostSelection) -> HostAction {
    match selection {
        HostSelection::Socket { is_closed: true } => HostAction::ReleaseFrontend,
        HostSelection::RuntimeResponse { is_closed: true } => HostAction::ReleaseFrontend,
        HostSelection::LoadProjection { is_closed: true } => HostAction::Stop,
        HostSelection::BrowserHost { is_closed: true } => HostAction::Stop,
        HostSelection::BackgroundNavigationCompletion { is_closed: true } => HostAction::Stop,
        HostSelection::BackgroundEvent { is_closed: true } => HostAction::Stop,
        HostSelection::RendererPublication { is_closed: true } => HostAction::Stop,
        HostSelection::Request { is_closed: true } => HostAction::Stop,
        _ => HostAction::Handle,
    }
}

/// Whether a frontend is attached afterwards, and what comes next.
pub open spec fn followup(attached: bool, handled: HostHandled) -> (bool, HostFollowup) {
    match handled {
        HostHandled::Sent { is_kept } => if attached && !is_kept {
            (false, HostFollowup::ReleaseFrontend)
        } else {
            (attached, HostFollowup::Continue)
        },
        HostHandled::Dropped => (attached, HostFollowup::Continue),
        HostHandled::Failed => (attached, HostFollowup::Stop),
        HostHandled::Request(outcome) => match outcome {
            DevToolsHostRequestOutcome::Continue => if attached {
                (true, HostFollowup::Continue)
            } else {
                (false, HostFollowup::IngestReady)
            },
            DevToolsHostRequestOutcome::AttachedBidi => if attached {
                (true, HostFollowup::ReleaseDuplicate)
            } else {
                (true, HostFollowup::Continue)
            },
            DevToolsHostRequestOutcome::DetachBidi => if attached {
                (false, HostFollowup::ReleaseFrontend)
            } else {
                (false, HostFollowup::IngestReady)
            },
            DevToolsHostRequestOutcome::Shutdown => (attached, HostFollowup::Stop),
        },
    }
}

/// The owner loop.
pub struct HostServiceLoop {
    /// Whether a BiDi frontend is attached.
    pub attached: bool,
}

impl HostServiceLoop {
    pub fn new() -> (service: HostServiceLoop)
        ensures
            !service.attached,
    {
        HostServiceLoop { attached: false }
    }

    /// Whether renderer output is received: not while page scripts are stopped
    /// at a dialog, nor while a navigation is in flight.
    pub fn receives_publications(&self, page_javascript_blocked: bool, navigation_gate_open: bool) -> (
    receives: bool)
        ensures
            receives == (!page_javascript_blocked && !navigation_gate_open),
    {
        !page_javascript_blocked && !navigation_gate_open
    }

    /// Whether the loop itself receives what the adapter has scheduled. An
    /// attached frontend receives it in its place.
    pub fn receives_adapter_input(&self, page_javascript_blocked: bool) -> (receives: bool)
        ensures
            receives == (!self.attached && !page_javascript_blocked),
    {
        !self.attached && !page_javascript_blocked
    }

    /// What is done about what was received.
    pub fn selected(&mut self, selection: HostSelection) -> (action: HostAction)
        ensures
            action == action_for(selection),
            final(self).attached == (old(self).attached && action !is ReleaseFrontend),
    {
        match selection {
            HostSelection::Socket { is_closed: true } => {
                self.attached = false;
                HostAction::ReleaseFrontend
            },
            HostSelection::RuntimeResponse { is_closed: true } => {
                self.attached = false;
                HostAction::ReleaseFrontend
            },
            HostSelection::LoadProjection { is_closed: true } => HostAction::Stop,
            HostSelection::BrowserHost { is_closed: true } => HostAction::Stop,
            HostSelection::BackgroundNavigationCompletion { is_closed: true } => HostAction::Stop,
            HostSelection::BackgroundEvent { is_closed: true } => HostAction::Stop,
            HostSelection::RendererPublication { is_closed: true } => HostAction::Stop,
            HostSelection::Request { is_closed: true } => HostAction::Stop,
            _ => HostAction::Handle,
        }
    }

    /// What comes after what was carried out.
    pub fn handled(&mut self, handled: HostHandled) -> (next: HostFollowup)
        ensures
            (final(self).attached, next) == followup(old(self).attached, handled),
    {
        match handled {
            HostHandled::Sent { is_kept } => {
                if self.attached && !is_kept {
                    self.attached = false;
                    HostFollowup::ReleaseFrontend
                } else {
                    HostFollowup::Continue
                }
            },
            HostHandled::Dropped => HostFollowup::Continue,
            HostHandled::Failed => HostFollowup::Stop,
            HostHandled::Request(outcome) => match outcome {
                DevToolsHostRequestOutcome::Continue => if self.attached {
                    HostFollowup::Continue
                } else {
                    HostFollowup::IngestReady
                },
                DevToolsHostRequestOutcome::AttachedBidi => if self.attached {
                    HostFollowup::ReleaseDuplicate
                } else {
                    self.attached = true;
                    HostFollowup::Continue
                },
                DevToolsHostRequestOutcome::DetachBidi => if self.attached {
                    self.attached = false;
                    HostFollowup::ReleaseFrontend
                } else {
                    HostFollowup::IngestReady
                },
                DevToolsHostRequestOutcome::Shutdown => HostFollowup::Stop,
            },
        }
    }

    /// Ends the loop, and says whether a frontend is still to be released.
    pub fn stop(self) -> (releases: bool)
        ensures
            releases == self.attached,
    {
        self.attached
    }
}

/// A frontend that stops being attached is released, exactly then.
pub proof fn law_detached_frontend_is_released(attached: bool, handled: HostHandled)
    ensures
        attached && !followup(attached, handled).0 <==> followup(attached, handled).1
            is ReleaseFrontend,
{
}

/// There is never more than one attached frontend: a second one is released at
/// once, and the first stays.
pub proof fn law_one_attached_frontend(attached: bool)
    ensures
        followup(
            attached,
            HostHandled::Request(DevToolsHostRequestOutcome::AttachedBidi),
        ).0,
        followup(
            attached,
            HostHandled::Request(DevToolsHostRequestOutcome::AttachedBidi),
        ).1 is ReleaseDuplicate <==> attached,
{
}

} // verus!
