//! Browser facts and the identities they speak of.
use vstd::prelude::*;

use crate::connection::core_record::PageResidence;
use crate::text;
use crate::text::{copy_owned, opt_as_str, same_opt_text, same_text};

verus! {

/// One Page of one Target.
#[derive(Clone, Debug, PartialEq, Eq)]
pub struct PageResidenceIdentity {
    pub browser_context_id: String,
    pub target_id: Option<String>,
    pub residence: PageResidence,
}

impl PageResidenceIdentity {
    /// Whether both name the same Page.
    pub open spec fn same(&self, other: &PageResidenceIdentity) -> bool {
        &&& self.browser_context_id@ == other.browser_context_id@
        &&& text::opt_chars(self.target_id) == text::opt_chars(other.target_id)
        &&& self.residence == other.residence
    }

    /// Whether both Pages are held by the same place.
    pub open spec fn same_place(&self, other: &PageResidenceIdentity) -> bool {
        self.residence.instance == other.residence.instance
    }

    pub fn is_same(&self, other: &PageResidenceIdentity) -> (same: bool)
        ensures
            same == self.same(other),
    {
        same_text(self.browser_context_id.as_str(), other.browser_context_id.as_str())
            && same_opt_text(opt_as_str(&self.target_id), opt_as_str(&other.target_id))
            && self.residence == other.residence
    }

    pub fn same_residence_instance(&self, other: &PageResidenceIdentity) -> (same: bool)
        ensures
            same == self.same_place(other),
    {
        self.residence.instance == other.residence.instance
    }

    pub fn copy(&self) -> (copy: PageResidenceIdentity)
        ensures
            copy == *self,
    {
        PageResidenceIdentity {
            browser_context_id: self.browser_context_id.clone(),
            target_id: copy_owned(&self.target_id),
            residence: self.residence,
        }
    }
}

/// One cross-document request of a Target.
#[derive(Clone, Debug, PartialEq, Eq)]
pub struct DocumentNavigationToken {
    pub target_id: String,
    pub loader_id: String,
    /// Tells apart requests that share Target and loader.
    pub request: u64,
}

impl DocumentNavigationToken {
    /// Whether both name the same request.
    pub open spec fn same(&self, other: &DocumentNavigationToken) -> bool {
        &&& self.target_id@ == other.target_id@
        &&& self.loader_id@ == other.loader_id@
        &&& self.request == other.request
    }

    pub fn is_same(&self, other: &DocumentNavigationToken) -> (same: bool)
        ensures
            same == self.same(other),
    {
        same_text(self.target_id.as_str(), other.target_id.as_str()) && same_text(
            self.loader_id.as_str(),
            other.loader_id.as_str(),
        ) && self.request == other.request
    }

    pub fn copy(&self) -> (copy: DocumentNavigationToken)
        ensures
            copy == *self,
    {
        DocumentNavigationToken {
            target_id: self.target_id.clone(),
            loader_id: self.loader_id.clone(),
            request: self.request,
        }
    }

    pub fn target_id(&self) -> (id: &str)
        ensures
            id@ == self.target_id@,
    {
        self.target_id.as_str()
    }

    pub fn loader_id(&self) -> (id: &str)
        ensures
            id@ == self.loader_id@,
    {
        self.loader_id.as_str()
    }
}

/// Whether two optional requests are the same, or both absent.
pub open spec fn same_opt_navigation(
    left: Option<DocumentNavigationToken>,
    right: Option<DocumentNavigationToken>,
) -> bool {
    match (left, right) {
        (Some(left), Some(right)) => left.same(&right),
        (None, None) => true,
        _ => false,
    }
}

fn is_same_opt_navigation(
    left: &Option<DocumentNavigationToken>,
    right: &Option<DocumentNavigationToken>,
) -> (same: bool)
    ensures
        same == same_opt_navigation(*left, *right),
{
    match (left, right) {
        (Some(left), Some(right)) => left.is_same(right),
        (None, None) => true,
        _ => false,
    }
}

pub(crate) fn copy_opt_navigation(value: &Option<DocumentNavigationToken>) -> (copy: Option<
    DocumentNavigationToken,
>)
    ensures
        copy == *value,
{
    match value {
        Some(navigation) => Some(navigation.copy()),
        None => None,
    }
}

/// How a request failed.
#[derive(Clone, Debug, PartialEq, Eq)]
pub enum BrowserNavigationFailure {
    Network { error_text: String },
    Canceled { error_text: String },
}

impl BrowserNavigationFailure {
    /// Whether both name the same failure.
    pub open spec fn same(&self, other: &BrowserNavigationFailure) -> bool {
        match (*self, *other) {
            (
                BrowserNavigationFailure::Network { error_text: left },
                BrowserNavigationFailure::Network { error_text: right },
            ) => left@ == right@,
            (
                BrowserNavigationFailure::Canceled { error_text: left },
                BrowserNavigationFailure::Canceled { error_text: right },
            ) => left@ == right@,
            _ => false,
        }
    }

    pub fn is_same(&self, other: &BrowserNavigationFailure) -> (same: bool)
        ensures
            same == self.same(other),
    {
        match (self, other) {
            (
                BrowserNavigationFailure::Network { error_text: left },
                BrowserNavigationFailure::Network { error_text: right },
            ) => same_text(left.as_str(), right.as_str()),
            (
                BrowserNavigationFailure::Canceled { error_text: left },
                BrowserNavigationFailure::Canceled { error_text: right },
            ) => same_text(left.as_str(), right.as_str()),
            _ => false,
        }
    }

    pub fn copy(&self) -> (copy: BrowserNavigationFailure)
        ensures
            copy == *self,
    {
        match self {
            BrowserNavigationFailure::Network { error_text } => {
                BrowserNavigationFailure::Network { error_text: error_text.clone() }
            },
            BrowserNavigationFailure::Canceled { error_text } => {
                BrowserNavigationFailure::Canceled { error_text: error_text.clone() }
            },
        }
    }
}

/// A point in the life of a Document.
#[derive(Clone, Copy, Debug, PartialEq, Eq, Structural)]
pub enum RendererDocumentLifecycleMilestone {
    DomContentLoaded,
    Load,
}

/// One life of one Document in one frame.
#[derive(Clone, Copy, Debug, PartialEq, Eq, Structural)]
pub struct RendererDocumentLifecycleIdentity {
    pub frame: u64,
    pub document: u64,
    pub epoch: u64,
}

/// When a renderer reached a milestone.
#[derive(Clone, Copy, Debug, PartialEq, Eq, Structural)]
pub struct RendererLifecycleEventStamp {
    pub sequence: u64,
    pub timestamp_micros: u64,
}

/// What a renderer says of a Document's life.
#[derive(Clone, Copy, Debug, PartialEq, Eq, Structural)]
pub enum RendererDocumentLifecycleEventKind {
    Milestone(RendererDocumentLifecycleMilestone),
    Terminated,
    Other,
}

/// One renderer report of a Document's life.
#[derive(Clone, Copy, Debug, PartialEq, Eq, Structural)]
pub struct RendererDocumentLifecycleEvent {
    pub frame: u64,
    pub document: u64,
    pub epoch: u64,
    pub sequence: u64,
    pub timestamp_micros: u64,
    pub kind: RendererDocumentLifecycleEventKind,
}

impl RendererDocumentLifecycleEvent {
    /// The life that the report is about.
    pub open spec fn spec_identity(&self) -> RendererDocumentLifecycleIdentity {
        RendererDocumentLifecycleIdentity {
            frame: self.frame,
            document: self.document,
            epoch: self.epoch,
        }
    }

    /// When the report was made.
    pub open spec fn spec_stamp(&self) -> RendererLifecycleEventStamp {
        RendererLifecycleEventStamp {
            sequence: self.sequence,
            timestamp_micros: self.timestamp_micros,
        }
    }

    pub fn identity(&self) -> (identity: RendererDocumentLifecycleIdentity)
        ensures
            identity == self.spec_identity(),
    {
        RendererDocumentLifecycleIdentity {
            frame: self.frame,
            document: self.document,
            epoch: self.epoch,
        }
    }

    pub fn stamp(&self) -> (stamp: RendererLifecycleEventStamp)
        ensures
            stamp == self.spec_stamp(),
    {
        RendererLifecycleEventStamp {
            sequence: self.sequence,
            timestamp_micros: self.timestamp_micros,
        }
    }
}

/// The frontend attachment of one committed Document.
#[derive(Clone, Debug, PartialEq, Eq)]
pub struct CommittedRendererDocumentBinding {
    pub renderer_frame: u64,
    pub renderer_document: u64,
    pub renderer_epoch: u64,
    pub navigation: Option<DocumentNavigationToken>,
    pub frame_id: String,
    pub loader_id: String,
    pub page_attachment_id: u64,
    pub document_open_replacement_epoch: Option<u64>,
}

impl View for CommittedRendererDocumentBinding {
    type V = CommittedRendererDocumentBinding;

    open spec fn view(&self) -> CommittedRendererDocumentBinding {
        *self
    }
}

impl CommittedRendererDocumentBinding {
    /// Whether both are the same attachment.
    pub open spec fn same(&self, other: &CommittedRendererDocumentBinding) -> bool {
        &&& self.renderer_frame == other.renderer_frame
        &&& self.renderer_document == other.renderer_document
        &&& self.renderer_epoch == other.renderer_epoch
        &&& same_opt_navigation(self.navigation, other.navigation)
        &&& self.frame_id@ == other.frame_id@
        &&& self.loader_id@ == other.loader_id@
        &&& self.page_attachment_id == other.page_attachment_id
        &&& self.document_open_replacement_epoch == other.document_open_replacement_epoch
    }

    pub fn is_same(&self, other: &CommittedRendererDocumentBinding) -> (same: bool)
        ensures
            same == self.same(other),
    {
        let same_epoch = match (
            self.document_open_replacement_epoch,
            other.document_open_replacement_epoch,
        ) {
            (Some(left), Some(right)) => left == right,
            (None, None) => true,
            _ => false,
        };
        self.renderer_frame == other.renderer_frame && self.renderer_document
            == other.renderer_document && self.renderer_epoch == other.renderer_epoch
            && is_same_opt_navigation(&self.navigation, &other.navigation) && same_text(
            self.frame_id.as_str(),
            other.frame_id.as_str(),
        ) && same_text(self.loader_id.as_str(), other.loader_id.as_str())
            && self.page_attachment_id == other.page_attachment_id && same_epoch
    }

    pub fn copy(&self) -> (copy: CommittedRendererDocumentBinding)
        ensures
            copy == *self,
    {
        CommittedRendererDocumentBinding {
            renderer_frame: self.renderer_frame,
            renderer_document: self.renderer_document,
            renderer_epoch: self.renderer_epoch,
            navigation: copy_opt_navigation(&self.navigation),
            frame_id: self.frame_id.clone(),
            loader_id: self.loader_id.clone(),
            page_attachment_id: self.page_attachment_id,
            document_open_replacement_epoch: self.document_open_replacement_epoch,
        }
    }

    /// The life of the Document that the attachment shows.
    pub open spec fn spec_identity(&self) -> RendererDocumentLifecycleIdentity {
        RendererDocumentLifecycleIdentity {
            frame: self.renderer_frame,
            document: self.renderer_document,
            epoch: self.renderer_epoch,
        }
    }

    pub fn renderer_document_identity(&self) -> (identity: RendererDocumentLifecycleIdentity)
        ensures
            identity == self.spec_identity(),
    {
        RendererDocumentLifecycleIdentity {
            frame: self.renderer_frame,
            document: self.renderer_document,
            epoch: self.renderer_epoch,
        }
    }
}

/// A change of what a Target shows.
#[derive(Clone, Debug, PartialEq, Eq)]
pub struct BrowserTargetMetadataTransition {
    pub navigation: DocumentNavigationToken,
    pub url: String,
    pub title: String,
}

/// How a Target ended.
#[derive(Clone, Copy, Debug, PartialEq, Eq, Structural)]
pub enum BrowserTargetTerminationKind {
    Crash,
    Close,
}

/// The end of a Target, as Browser Core committed it.
#[derive(Clone, Debug, PartialEq, Eq)]
pub struct BrowserTargetTermination {
    pub browser_context_id: String,
    pub target_id: String,
    pub previous_page: PageResidenceIdentity,
    pub terminal_page: PageResidenceIdentity,
    pub kind: BrowserTargetTerminationKind,
}

/// Something that happened in the browser.
#[derive(Clone, Debug, PartialEq, Eq)]
pub enum BrowserFact {
    TargetCreated,
    TargetMetadataChanged { transition: BrowserTargetMetadataTransition },
    NavigationAccepted {
        navigation: DocumentNavigationToken,
        superseded_navigation: Option<DocumentNavigationToken>,
    },
    NavigationFailed {
        navigation: DocumentNavigationToken,
        failure: BrowserNavigationFailure,
        previous_page: Option<PageResidenceIdentity>,
    },
    NavigationConvertedToDownload { navigation: DocumentNavigationToken },
    NavigationCommitted {
        navigation: DocumentNavigationToken,
        previous_page: PageResidenceIdentity,
    },
    TargetCrashed {
        previous_page: PageResidenceIdentity,
        pending_navigation: Option<DocumentNavigationToken>,
    },
    TargetClosed {
        previous_page: PageResidenceIdentity,
        pending_navigation: Option<DocumentNavigationToken>,
    },
    DocumentLifecycleReached {
        document: RendererDocumentLifecycleIdentity,
        milestone: RendererDocumentLifecycleMilestone,
        stamp: RendererLifecycleEventStamp,
    },
    DocumentLifecycleTerminated { document: RendererDocumentLifecycleIdentity },
}

/// One fact, its place in the journal and the Page it is about.
#[derive(Clone, Debug, PartialEq, Eq)]
pub struct BrowserFactEnvelope {
    pub sequence: u64,
    pub browser_context_id: String,
    pub target_id: String,
    pub page_residence: PageResidenceIdentity,
    pub fact: BrowserFact,
}

} // verus!
