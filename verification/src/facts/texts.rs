//! How the cursor's errors read.
use vstd::prelude::*;

use crate::facts::errors::BrowserFactProjectionError;
use crate::facts::types::{
    BrowserNavigationFailure, BrowserTargetTerminationKind, DocumentNavigationToken,
    PageResidenceIdentity, RendererDocumentLifecycleIdentity, RendererDocumentLifecycleMilestone,
};
use crate::text;
use crate::text::{decimal, opt_as_str, opt_quoted, quoted};

verus! {

/// A Page, spelled out.
pub open spec fn page_text(page: PageResidenceIdentity) -> Seq<char> {
    "PageResidenceIdentity { browser_context_id: "@ + text::quoted_text(page.browser_context_id@)
        + ", target_id: "@ + text::opt_quoted_text(text::opt_chars(page.target_id))
        + ", residence: PageResidence { instance: "@ + text::decimal_text(
        page.residence.instance as nat,
    ) + ", generation: "@ + text::decimal_text(page.residence.generation as nat) + " } }"@
}

fn page_spelled(page: &PageResidenceIdentity) -> (spelled: String)
    ensures
        spelled@ == page_text(*page),
{
    "PageResidenceIdentity { browser_context_id: ".to_owned().concat(
        quoted(page.browser_context_id.as_str()).as_str(),
    ).concat(", target_id: ").concat(
        opt_quoted(opt_as_str(&page.target_id)).as_str(),
    ).concat(", residence: PageResidence { instance: ").concat(
        decimal(page.residence.instance).as_str(),
    ).concat(", generation: ").concat(decimal(page.residence.generation).as_str()).concat(" } }")
}

/// A request, spelled out.
pub open spec fn navigation_text(navigation: DocumentNavigationToken) -> Seq<char> {
    "DocumentNavigationToken { target_id: "@ + text::quoted_text(navigation.target_id@)
        + ", loader_id: "@ + text::quoted_text(navigation.loader_id@) + ", request: "@
        + text::decimal_text(navigation.request as nat) + " }"@
}

fn navigation_spelled(navigation: &DocumentNavigationToken) -> (spelled: String)
    ensures
        spelled@ == navigation_text(*navigation),
{
    "DocumentNavigationToken { target_id: ".to_owned().concat(
        quoted(navigation.target_id.as_str()).as_str(),
    ).concat(", loader_id: ").concat(quoted(navigation.loader_id.as_str()).as_str()).concat(
        ", request: ",
    ).concat(decimal(navigation.request).as_str()).concat(" }")
}

/// A failure, spelled out.
pub open spec fn failure_text(failure: BrowserNavigationFailure) -> Seq<char> {
    match failure {
        BrowserNavigationFailure::Network { error_text } => "Network { error_text: "@
            + text::quoted_text(error_text@) + " }"@,
        BrowserNavigationFailure::Canceled { error_text } => "Canceled { error_text: "@
            + text::quoted_text(error_text@) + " }"@,
    }
}

fn failure_spelled(failure: &BrowserNavigationFailure) -> (spelled: String)
    ensures
        spelled@ == failure_text(*failure),
{
    match failure {
        BrowserNavigationFailure::Network { error_text } => "Network { error_text: ".to_owned().concat(
            quoted(error_text.as_str()).as_str(),
        ).concat(" }"),
        BrowserNavigationFailure::Canceled { error_text } => {
            "Canceled { error_text: ".to_owned().concat(
                quoted(error_text.as_str()).as_str(),
            ).concat(" }")
        },
    }
}

/// How a Target ended, spelled out.
pub open spec fn kind_text(kind: BrowserTargetTerminationKind) -> Seq<char> {
    match kind {
        BrowserTargetTerminationKind::Crash => "Crash"@,
        BrowserTargetTerminationKind::Close => "Close"@,
    }
}

fn kind_spelled(kind: BrowserTargetTerminationKind) -> (spelled: &'static str)
    ensures
        spelled@ == kind_text(kind),
{
    match kind {
        BrowserTargetTerminationKind::Crash => "Crash",
        BrowserTargetTerminationKind::Close => "Close",
    }
}

/// A milestone, spelled out.
pub open spec fn milestone_text(milestone: RendererDocumentLifecycleMilestone) -> Seq<char> {
    match milestone {
        RendererDocumentLifecycleMilestone::DomContentLoaded => "DomContentLoaded"@,
        RendererDocumentLifecycleMilestone::Load => "Load"@,
    }
}

fn milestone_spelled(milestone: RendererDocumentLifecycleMilestone) -> (spelled: &'static str)
    ensures
        spelled@ == milestone_text(milestone),
{
    match milestone {
        RendererDocumentLifecycleMilestone::DomContentLoaded => "DomContentLoaded",
        RendererDocumentLifecycleMilestone::Load => "Load",
    }
}

/// A Document, spelled out.
pub open spec fn document_text(document: RendererDocumentLifecycleIdentity) -> Seq<char> {
    "RendererDocumentLifecycleIdentity { frame: "@ + text::decimal_text(document.frame as nat)
        + ", document: "@ + text::decimal_text(document.document as nat) + ", epoch: "@
        + text::decimal_text(document.epoch as nat) + " }"@
}

fn document_spelled(document: RendererDocumentLifecycleIdentity) -> (spelled: String)
    ensures
        spelled@ == document_text(document),
{
    "RendererDocumentLifecycleIdentity { frame: ".to_owned().concat(
        decimal(document.frame).as_str(),
    ).concat(", document: ").concat(decimal(document.document).as_str()).concat(
        ", epoch: ",
    ).concat(decimal(document.epoch).as_str()).concat(" }")
}

/// How an error reads.
pub open spec fn message_text(error: BrowserFactProjectionError) -> Seq<char> {
    match error {
        BrowserFactProjectionError::SubscriberLagged { skipped } => {
            "Browser fact projector lagged by "@ + text::decimal_text(skipped as nat) + " facts"@
        },
        BrowserFactProjectionError::SubscriberClosed => "Browser fact projector closed"@,
        BrowserFactProjectionError::NonMonotonicSequence { previous, received } => {
            "Browser fact sequence moved from "@ + text::decimal_text(previous as nat)
                + " to non-monotonic "@ + text::decimal_text(received as nat)
        },
        BrowserFactProjectionError::WakeSequenceNotObserved { wake, observed } => {
            "Browser fact wake reached sequence "@ + text::decimal_text(wake as nat)
                + " but the frontend cursor reached only "@ + text::decimal_text(
                match observed {
                    Some(observed) => observed as nat,
                    None => 0,
                },
            )
        },
        BrowserFactProjectionError::PendingBrowserFactCapacityExceeded { capacity } => {
            "Browser fact projector exceeded its "@ + text::decimal_text(capacity as nat)
                + "-fact pending projection window"@
        },
        BrowserFactProjectionError::MissingTargetCreationFact { page } => {
            "Target "@ + text::quoted_text(crate::facts::model::target_name(page))
                + " in BrowserContext "@ + text::quoted_text(page.browser_context_id@)
                + " at Page "@ + page_text(page) + " has no exact Browser creation fact"@
        },
        BrowserFactProjectionError::MissingNavigationTargetMetadataFact { navigation, page } => {
            "committed navigation "@ + navigation_text(navigation) + " for Page "@ + page_text(page)
                + " has no exact Target metadata Browser fact"@
        },
        BrowserFactProjectionError::MissingNavigationAdmissionFact { navigation } => {
            "accepted navigation "@ + navigation_text(navigation) + " has no exact Browser fact"@
        },
        BrowserFactProjectionError::MissingNavigationFailureFact { navigation, failure } => {
            "failed navigation "@ + navigation_text(navigation) + " with terminal "@ + failure_text(
                failure,
            ) + " has no exact Browser fact"@
        },
        BrowserFactProjectionError::MissingNavigationDownloadFact { navigation } => {
            "download navigation "@ + navigation_text(navigation) + " has no exact Browser fact"@
        },
        BrowserFactProjectionError::MissingNavigationCommitFact { navigation, page } => {
            "committed navigation "@ + navigation_text(navigation) + " for Page "@ + page_text(page)
                + " has no exact Browser fact"@
        },
        BrowserFactProjectionError::MissingTargetTerminationFact {
            target_id,
            previous_page,
            terminal_page,
            kind,
        } => {
            "Target "@ + text::quoted_text(target_id@) + " "@ + kind_text(kind) + " from Page "@
                + page_text(previous_page) + " to terminal Page "@ + page_text(terminal_page)
                + " has no exact Browser fact"@
        },
        BrowserFactProjectionError::NoCurrentPageForDocumentLifecycle {
            document,
            milestone,
            stamp,
        } => {
            "protocol-visible renderer lifecycle "@ + milestone_text(milestone) + " at sequence "@
                + text::decimal_text(stamp.sequence as nat) + " for Document "@ + document_text(
                document,
            ) + " has no current Browser Page"@
        },
        BrowserFactProjectionError::MissingDocumentLifecycleFact {
            page,
            document,
            milestone,
            stamp,
        } => {
            "protocol-visible renderer lifecycle "@ + milestone_text(milestone) + " at sequence "@
                + text::decimal_text(stamp.sequence as nat) + " for Page "@ + page_text(page)
                + ", Document "@ + document_text(document) + " has no exact Browser fact"@
        },
        BrowserFactProjectionError::ConflictingDocumentLifecycleCausalLink { sequence } => {
            "Browser lifecycle fact "@ + text::decimal_text(sequence as nat)
                + " was linked to conflicting frontend bindings"@
        },
        BrowserFactProjectionError::MismatchedDocumentLifecycleCausalLink {
            sequence,
            page,
            document,
        } => {
            "Browser lifecycle fact "@ + text::decimal_text(sequence as nat) + " for Page "@
                + page_text(page) + ", Document "@ + document_text(document)
                + " does not match its frozen frontend binding"@
        },
    }
}

impl BrowserFactProjectionError {
    /// How the error reads.
    pub fn message(&self) -> (message: String)
        ensures
            message@ == message_text(*self),
    {
        match self {
            BrowserFactProjectionError::SubscriberLagged { skipped } => {
                "Browser fact projector lagged by ".to_owned().concat(
                    decimal(*skipped).as_str(),
                ).concat(" facts")
            },
            BrowserFactProjectionError::SubscriberClosed => {
                "Browser fact projector closed".to_owned()
            },
            BrowserFactProjectionError::NonMonotonicSequence { previous, received } => {
                "Browser fact sequence moved from ".to_owned().concat(
                    decimal(*previous).as_str(),
                ).concat(" to non-monotonic ").concat(decimal(*received).as_str())
            },
            BrowserFactProjectionError::WakeSequenceNotObserved { wake, observed } => {
                let observed: u64 = match observed {
                    Some(observed) => *observed,
                    None => 0,
                };
                "Browser fact wake reached sequence ".to_owned().concat(
                    decimal(*wake).as_str(),
                ).concat(" but the frontend cursor reached only ").concat(
                    decimal(observed).as_str(),
                )
            },
            BrowserFactProjectionError::PendingBrowserFactCapacityExceeded { capacity } => {
                "Browser fact projector exceeded its ".to_owned().concat(
                    decimal(*capacity as u64).as_str(),
                ).concat("-fact pending projection window")
            },
            BrowserFactProjectionError::MissingTargetCreationFact { page } => {
                let target_id = match &page.target_id {
                    Some(target_id) => target_id.clone(),
                    None => String::new(),
                };
                "Target ".to_owned().concat(quoted(target_id.as_str()).as_str()).concat(
                    " in BrowserContext ",
                ).concat(quoted(page.browser_context_id.as_str()).as_str()).concat(
                    " at Page ",
                ).concat(page_spelled(page).as_str()).concat(
                    " has no exact Browser creation fact",
                )
            },
            BrowserFactProjectionError::MissingNavigationTargetMetadataFact {
                navigation,
                page,
            } => {
                "committed navigation ".to_owned().concat(
                    navigation_spelled(navigation).as_str(),
                ).concat(" for Page ").concat(page_spelled(page).as_str()).concat(
                    " has no exact Target metadata Browser fact",
                )
            },
            BrowserFactProjectionError::MissingNavigationAdmissionFact { navigation } => {
                "accepted navigation ".to_owned().concat(
                    navigation_spelled(navigation).as_str(),
                ).concat(" has no exact Browser fact")
            },
            BrowserFactProjectionError::MissingNavigationFailureFact { navigation, failure } => {
                "failed navigation ".to_owned().concat(
                    navigation_spelled(navigation).as_str(),
                ).concat(" with terminal ").concat(failure_spelled(failure).as_str()).concat(
                    " has no exact Browser fact",
                )
            },
            BrowserFactProjectionError::MissingNavigationDownloadFact { navigation } => {
                "download navigation ".to_owned().concat(
                    navigation_spelled(navigation).as_str(),
                ).concat(" has no exact Browser fact")
            },
            BrowserFactProjectionError::MissingNavigationCommitFact { navigation, page } => {
                "committed navigation ".to_owned().concat(
                    navigation_spelled(navigation).as_str(),
                ).concat(" for Page ").concat(page_spelled(page).as_str()).concat(
                    " has no exact Browser fact",
                )
            },
            BrowserFactProjectionError::MissingTargetTerminationFact {
                target_id,
                previous_page,
                terminal_page,
                kind,
            } => {
                "Target ".to_owned().concat(quoted(target_id.as_str()).as_str()).concat(
                    " ",
                ).concat(kind_spelled(*kind)).concat(" from Page ").concat(
                    page_spelled(previous_page).as_str(),
                ).concat(" to terminal Page ").concat(
                    page_spelled(terminal_page).as_str(),
                ).concat(" has no exact Browser fact")
            },
            BrowserFactProjectionError::NoCurrentPageForDocumentLifecycle {
                document,
                milestone,
                stamp,
            } => {
                "protocol-visible renderer lifecycle ".to_owned().concat(
                    milestone_spelled(*milestone),
                ).concat(" at sequence ").concat(decimal(stamp.sequence).as_str()).concat(
                    " for Document ",
                ).concat(document_spelled(*document).as_str()).concat(
                    " has no current Browser Page",
                )
            },
            BrowserFactProjectionError::MissingDocumentLifecycleFact {
                page,
                document,
                milestone,
                stamp,
            } => {
                "protocol-visible renderer lifecycle ".to_owned().concat(
                    milestone_spelled(*milestone),
                ).concat(" at sequence ").concat(decimal(stamp.sequence).as_str()).concat(
                    " for Page ",
                ).concat(page_spelled(page).as_str()).concat(", Document ").concat(
                    document_spelled(*document).as_str(),
                ).concat(" has no exact Browser fact")
            },
            BrowserFactProjectionError::ConflictingDocumentLifecycleCausalLink { sequence } => {
                "Browser lifecycle fact ".to_owned().concat(decimal(*sequence).as_str()).concat(
                    " was linked to conflicting frontend bindings",
                )
            },
            BrowserFactProjectionError::MismatchedDocumentLifecycleCausalLink {
                sequence,
                page,
                document,
            } => {
                "Browser lifecycle fact ".to_owned().concat(decimal(*sequence).as_str()).concat(
                    " for Page ",
                ).concat(page_spelled(page).as_str()).concat(", Document ").concat(
                    document_spelled(*document).as_str(),
                ).concat(" does not match its frozen frontend binding")
            },
        }
    }
}

} // verus!
