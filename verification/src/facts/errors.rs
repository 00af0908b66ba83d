//! Why a frontend lost its cursor over the Browser facts.
use vstd::prelude::*;

use crate::facts::types::{
    BrowserNavigationFailure, BrowserTargetTerminationKind, DocumentNavigationToken,
    PageResidenceIdentity, RendererDocumentLifecycleIdentity, RendererDocumentLifecycleMilestone,
    RendererLifecycleEventStamp,
};

verus! {

#[derive(Clone, Debug, PartialEq, Eq)]
pub enum BrowserFactProjectionError {
    SubscriberLagged { skipped: u64 },
    SubscriberClosed,
    NonMonotonicSequence { previous: u64, received: u64 },
    WakeSequenceNotObserved { wake: u64, observed: Option<u64> },
    PendingBrowserFactCapacityExceeded { capacity: usize },
    MissingTargetCreationFact { page: PageResidenceIdentity },
    MissingNavigationTargetMetadataFact {
        navigation: DocumentNavigationToken,
        page: PageResidenceIdentity,
    },
    MissingNavigationAdmissionFact { navigation: DocumentNavigationToken },
    MissingNavigationFailureFact {
        navigation: DocumentNavigationToken,
        failure: BrowserNavigationFailure,
    },
    MissingNavigationDownloadFact { navigation: DocumentNavigationToken },
    MissingNavigationCommitFact {
        navigation: DocumentNavigationToken,
        page: PageResidenceIdentity,
    },
    MissingTargetTerminationFact {
        target_id: String,
        previous_page: PageResidenceIdentity,
        terminal_page: PageResidenceIdentity,
        kind: BrowserTargetTerminationKind,
    },
    NoCurrentPageForDocumentLifecycle {
        document: RendererDocumentLifecycleIdentity,
        milestone: RendererDocumentLifecycleMilestone,
        stamp: RendererLifecycleEventStamp,
    },
    MissingDocumentLifecycleFact {
        page: PageResidenceIdentity,
        document: RendererDocumentLifecycleIdentity,
        milestone: RendererDocumentLifecycleMilestone,
        stamp: RendererLifecycleEventStamp,
    },
    ConflictingDocumentLifecycleCausalLink { sequence: u64 },
    MismatchedDocumentLifecycleCausalLink {
        sequence: u64,
        page: PageResidenceIdentity,
        document: RendererDocumentLifecycleIdentity,
    },
}

impl BrowserFactProjectionError {
    pub fn copy(&self) -> (copy: BrowserFactProjectionError)
        ensures
            copy == *self,
    {
        match self {
            BrowserFactProjectionError::SubscriberLagged { skipped } => {
                BrowserFactProjectionError::SubscriberLagged { skipped: *skipped }
            },
            BrowserFactProjectionError::SubscriberClosed => {
                BrowserFactProjectionError::SubscriberClosed
            },
            BrowserFactProjectionError::NonMonotonicSequence { previous, received } => {
                BrowserFactProjectionError::NonMonotonicSequence {
                    previous: *previous,
                    received: *received,
                }
            },
            BrowserFactProjectionError::WakeSequenceNotObserved { wake, observed } => {
                BrowserFactProjectionError::WakeSequenceNotObserved {
                    wake: *wake,
                    observed: *observed,
                }
            },
            BrowserFactProjectionError::PendingBrowserFactCapacityExceeded { capacity } => {
                BrowserFactProjectionError::PendingBrowserFactCapacityExceeded {
                    capacity: *capacity,
                }
            },
            BrowserFactProjectionError::MissingTargetCreationFact { page } => {
                BrowserFactProjectionError::MissingTargetCreationFact { page: page.copy() }
            },
            BrowserFactProjectionError::MissingNavigationTargetMetadataFact {
                navigation,
                page,
            } => BrowserFactProjectionError::MissingNavigationTargetMetadataFact {
                navigation: navigation.copy(),
                page: page.copy(),
            },
            BrowserFactProjectionError::MissingNavigationAdmissionFact { navigation } => {
                BrowserFactProjectionError::MissingNavigationAdmissionFact {
                    navigation: navigation.copy(),
                }
            },
            BrowserFactProjectionError::MissingNavigationFailureFact { navigation, failure } => {
                BrowserFactProjectionError::MissingNavigationFailureFact {
                    navigation: navigation.copy(),
                    failure: failure.copy(),
                }
            },
            BrowserFactProjectionError::MissingNavigationDownloadFact { navigation } => {
                BrowserFactProjectionError::MissingNavigationDownloadFact {
                    navigation: navigation.copy(),
                }
            },
            BrowserFactProjectionError::MissingNavigationCommitFact { navigation, page } => {
                BrowserFactProjectionError::MissingNavigationCommitFact {
                    navigation: navigation.copy(),
                    page: page.copy(),
                }
            },
            BrowserFactProjectionError::MissingTargetTerminationFact {
                target_id,
                previous_page,
                terminal_page,
                kind,
            } => BrowserFactProjectionError::MissingTargetTerminationFact {
                target_id: target_id.clone(),
                previous_page: previous_page.copy(),
                terminal_page: terminal_page.copy(),
                kind: *kind,
            },
            BrowserFactProjectionError::NoCurrentPageForDocumentLifecycle {
                document,
                milestone,
                stamp,
            } => BrowserFactProjectionError::NoCurrentPageForDocumentLifecycle {
                document: *document,
                milestone: *milestone,
                stamp: *stamp,
            },
            BrowserFactProjectionError::MissingDocumentLifecycleFact {
                page,
                document,
                milestone,
                stamp,
            } => BrowserFactProjectionError::MissingDocumentLifecycleFact {
                page: page.copy(),
                document: *document,
                milestone: *milestone,
                stamp: *stamp,
            },
            BrowserFactProjectionError::ConflictingDocumentLifecycleCausalLink { sequence } => {
                BrowserFactProjectionError::ConflictingDocumentLifecycleCausalLink {
                    sequence: *sequence,
                }
            },
            BrowserFactProjectionError::MismatchedDocumentLifecycleCausalLink {
                sequence,
                page,
                document,
            } => BrowserFactProjectionError::MismatchedDocumentLifecycleCausalLink {
                sequence: *sequence,
                page: page.copy(),
                document: *document,
            },
        }
    }
}

} // verus!
