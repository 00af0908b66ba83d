//! What the DevTools front door answers.
use vstd::prelude::*;

verus! {

/// What kind of error an answer is.
#[derive(Clone, Copy, Debug, PartialEq, Eq, Structural)]
pub enum DevToolsErrorKind {
    Internal,
    NoSuchNode,
    NoSuchTarget,
    NoSuchSession,
    NavigationChangingDocument,
    Timeout,
    Other,
}

/// An error answer.
#[derive(Clone, Debug, PartialEq, Eq)]
pub struct DevToolsError {
    pub kind: DevToolsErrorKind,
    pub message: String,
}

impl DevToolsError {
    /// Whether the error is of a kind and reads so.
    pub open spec fn reads(&self, kind: DevToolsErrorKind, message: Seq<char>) -> bool {
        self.kind == kind && self.message@ == message
    }

    pub fn new(kind: DevToolsErrorKind, message: &str) -> (error: DevToolsError)
        ensures
            error.reads(kind, message@),
    {
        DevToolsError { kind, message: message.to_owned() }
    }
}

/// An error answer, as its kind and its text.
pub struct DevToolsRefusal {
    pub kind: DevToolsErrorKind,
    pub message: Seq<char>,
}

impl View for DevToolsError {
    type V = DevToolsRefusal;

    open spec fn view(&self) -> DevToolsRefusal {
        DevToolsRefusal { kind: self.kind, message: self.message@ }
    }
}

/// Where a navigation has led.
pub struct DevToolsNavigateResult {
    pub loader_id: Option<String>,
    pub navigation_id: Option<String>,
}

/// What a command answers with.
pub enum DevToolsCommandResult {
    Empty,
    Navigate(DevToolsNavigateResult),
    /// An answer that the scheduler does not read.
    Other(u64),
}

/// What kind of Target is listed.
#[derive(Clone, Copy, Debug, PartialEq, Eq, Structural)]
pub enum DevToolsTargetKind {
    Page,
    Worker,
}

/// One listed Target.
#[derive(Clone, Debug, PartialEq, Eq)]
pub struct DevToolsTargetInfo {
    pub target_id: String,
    pub browser_context_id: String,
    pub kind: DevToolsTargetKind,
    pub url: String,
    pub moli_popup_id: Option<u64>,
}

} // verus!
