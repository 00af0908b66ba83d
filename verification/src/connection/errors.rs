//! Why Browser Core or the connection refused a change.
//!
//! Each error has a view over character sequences, in which the contracts speak
//! of it, and reads as a sentence.
use vstd::prelude::*;

use crate::text;
use crate::text::{decimal, opt_as_str, opt_quoted, quoted};

verus! {

/// Why Browser Core refused a change of its contexts.
pub enum BrowserContextRegistryError {
    UnknownBrowserContext(String),
    DuplicateBrowserContext(String),
    BrowserContextHandleProjectionMismatch(String),
    EngineOwnerMismatch(String),
    /// Another reason, as Core writes it.
    Other(String),
}

/// Why Browser Core refused a change of its contexts, over characters.
#[verifier::ext_equal]
pub enum CoreContextRefusal {
    UnknownBrowserContext(Seq<char>),
    DuplicateBrowserContext(Seq<char>),
    BrowserContextHandleProjectionMismatch(Seq<char>),
    EngineOwnerMismatch(Seq<char>),
    Other(Seq<char>),
}

impl View for BrowserContextRegistryError {
    type V = CoreContextRefusal;

    open spec fn view(&self) -> CoreContextRefusal {
        match *self {
            BrowserContextRegistryError::UnknownBrowserContext(id) => {
                CoreContextRefusal::UnknownBrowserContext(id@)
            },
            BrowserContextRegistryError::DuplicateBrowserContext(id) => {
                CoreContextRefusal::DuplicateBrowserContext(id@)
            },
            BrowserContextRegistryError::BrowserContextHandleProjectionMismatch(id) => {
                CoreContextRefusal::BrowserContextHandleProjectionMismatch(id@)
            },
            BrowserContextRegistryError::EngineOwnerMismatch(id) => {
                CoreContextRefusal::EngineOwnerMismatch(id@)
            },
            BrowserContextRegistryError::Other(reason) => CoreContextRefusal::Other(reason@),
        }
    }
}

/// Why Browser Core refused a change that moves a renderer runtime.
pub enum BrowserContextRuntimeRegistryError {
    Context(BrowserContextRegistryError),
    /// The runtime's own reason, as Core writes it.
    Runtime(String),
}

/// Why Browser Core refused a change of its Targets.
pub enum BrowserTargetRegistryError {
    DuplicateTarget(String),
    /// Another reason, as Core writes it.
    Other(String),
}

/// Why Browser Core refused a change of its Targets, over characters.
#[verifier::ext_equal]
pub enum CoreTargetRefusal {
    DuplicateTarget(Seq<char>),
    Other(Seq<char>),
}

impl View for BrowserTargetRegistryError {
    type V = CoreTargetRefusal;

    open spec fn view(&self) -> CoreTargetRefusal {
        match *self {
            BrowserTargetRegistryError::DuplicateTarget(id) => {
                CoreTargetRefusal::DuplicateTarget(id@)
            },
            BrowserTargetRegistryError::Other(reason) => CoreTargetRefusal::Other(reason@),
        }
    }
}

/// Why a change of the contexts was refused.
pub enum BrowserContextProjectionError {
    Core(BrowserContextRegistryError),
    /// The renderer runtime's own reason, as Core writes it.
    Runtime(String),
    PhysicalContextCountMismatch { authoritative: usize, projected: usize },
    PhysicalSelectionMismatch { authoritative: Option<String>, projected: Option<String> },
    DuplicatePhysicalContext(String),
    PhysicalContextMissingFromCore(String),
    PhysicalContextMissing(String),
    PhysicalRuntimeOwnerMissing(String),
    UnexpectedUnchangedActivation(String),
}

/// Why a change of the contexts was refused, over characters.
#[verifier::ext_equal]
pub enum ContextRefusal {
    Core(CoreContextRefusal),
    Runtime(Seq<char>),
    PhysicalContextCountMismatch { authoritative: usize, projected: usize },
    PhysicalSelectionMismatch { authoritative: Option<Seq<char>>, projected: Option<Seq<char>> },
    DuplicatePhysicalContext(Seq<char>),
    PhysicalContextMissingFromCore(Seq<char>),
    PhysicalContextMissing(Seq<char>),
    PhysicalRuntimeOwnerMissing(Seq<char>),
    UnexpectedUnchangedActivation(Seq<char>),
}

impl View for BrowserContextProjectionError {
    type V = ContextRefusal;

    open spec fn view(&self) -> ContextRefusal {
        match *self {
            BrowserContextProjectionError::Core(error) => ContextRefusal::Core(error@),
            BrowserContextProjectionError::Runtime(reason) => ContextRefusal::Runtime(reason@),
            BrowserContextProjectionError::PhysicalContextCountMismatch { authoritative, projected } => ContextRefusal::PhysicalContextCountMismatch {
                authoritative,
                projected,
            },
            BrowserContextProjectionError::PhysicalSelectionMismatch { authoritative, projected } => ContextRefusal::PhysicalSelectionMismatch {
                authoritative: text::opt_chars(authoritative),
                projected: text::opt_chars(projected),
            },
            BrowserContextProjectionError::DuplicatePhysicalContext(browser_context_id) => {
                ContextRefusal::DuplicatePhysicalContext(browser_context_id@)
            },
            BrowserContextProjectionError::PhysicalContextMissingFromCore(browser_context_id) => {
                ContextRefusal::PhysicalContextMissingFromCore(browser_context_id@)
            },
            BrowserContextProjectionError::PhysicalContextMissing(browser_context_id) => {
                ContextRefusal::PhysicalContextMissing(browser_context_id@)
            },
            BrowserContextProjectionError::PhysicalRuntimeOwnerMissing(browser_context_id) => {
                ContextRefusal::PhysicalRuntimeOwnerMissing(browser_context_id@)
            },
            BrowserContextProjectionError::UnexpectedUnchangedActivation(browser_context_id) => {
                ContextRefusal::UnexpectedUnchangedActivation(browser_context_id@)
            },
        }
    }
}

impl ContextRefusal {
    /// How the refusal reads. `core_text` is how Browser Core's own error
    /// reads.
    pub open spec fn message(self, core_text: Seq<char>) -> Seq<char> {
        match self {
            ContextRefusal::Core(_) => core_text,
            ContextRefusal::Runtime(_) => core_text,
            ContextRefusal::PhysicalContextCountMismatch { authoritative, projected } => {
                "Browser Core has "@ + text::decimal_text(authoritative as nat)
                    + " BrowserContexts but the physical projection has "@
                    + text::decimal_text(projected as nat)
            },
            ContextRefusal::PhysicalSelectionMismatch { authoritative, projected } => {
                "authoritative selected BrowserContext "@ + text::opt_quoted_text(authoritative)
                    + " does not match physical selection "@ + text::opt_quoted_text(projected)
            },
            ContextRefusal::DuplicatePhysicalContext(browser_context_id) => {
                "physical BrowserContext projection contains duplicate identity "@
                    + text::quoted_text(browser_context_id)
            },
            ContextRefusal::PhysicalContextMissingFromCore(browser_context_id) => {
                "physical BrowserContext "@ + text::quoted_text(browser_context_id)
                    + " is not registered in Browser Core"@
            },
            ContextRefusal::PhysicalContextMissing(browser_context_id) => {
                "Core-known BrowserContext "@ + text::quoted_text(browser_context_id)
                    + " has no exact physical projection"@
            },
            ContextRefusal::PhysicalRuntimeOwnerMissing(browser_context_id) => {
                "new physical BrowserContext "@ + text::quoted_text(browser_context_id)
                    + " has no renderer runtime owner to register"@
            },
            ContextRefusal::UnexpectedUnchangedActivation(browser_context_id) => {
                "Core reported unchanged activation for physically inactive BrowserContext "@
                    + text::quoted_text(browser_context_id)
            },
        }
    }
}

impl BrowserContextProjectionError {
    /// How the error reads. `core_text` is how Browser Core's own error reads.
    pub fn message(&self, core_text: &str) -> (message: String)
        ensures
            message@ == self@.message(core_text@),
    {
        match self {
            BrowserContextProjectionError::Core(_) => core_text.to_owned(),
            BrowserContextProjectionError::Runtime(_) => core_text.to_owned(),
            BrowserContextProjectionError::PhysicalContextCountMismatch { authoritative, projected } => {
                "Browser Core has ".to_owned().concat(decimal(*authoritative as u64).as_str())
                    .concat(" BrowserContexts but the physical projection has ")
                    .concat(decimal(*projected as u64).as_str())
            },
            BrowserContextProjectionError::PhysicalSelectionMismatch { authoritative, projected } => {
                "authoritative selected BrowserContext ".to_owned()
                    .concat(opt_quoted(opt_as_str(authoritative)).as_str())
                    .concat(" does not match physical selection ")
                    .concat(opt_quoted(opt_as_str(projected)).as_str())
            },
            BrowserContextProjectionError::DuplicatePhysicalContext(browser_context_id) => {
                "physical BrowserContext projection contains duplicate identity ".to_owned()
                    .concat(quoted(browser_context_id.as_str()).as_str())
            },
            BrowserContextProjectionError::PhysicalContextMissingFromCore(browser_context_id) => {
                "physical BrowserContext ".to_owned()
                    .concat(quoted(browser_context_id.as_str()).as_str())
                    .concat(" is not registered in Browser Core")
            },
            BrowserContextProjectionError::PhysicalContextMissing(browser_context_id) => {
                "Core-known BrowserContext ".to_owned()
                    .concat(quoted(browser_context_id.as_str()).as_str())
                    .concat(" has no exact physical projection")
            },
            BrowserContextProjectionError::PhysicalRuntimeOwnerMissing(browser_context_id) => {
                "new physical BrowserContext ".to_owned()
                    .concat(quoted(browser_context_id.as_str()).as_str())
                    .concat(" has no renderer runtime owner to register")
            },
            BrowserContextProjectionError::UnexpectedUnchangedActivation(browser_context_id) => {
                "Core reported unchanged activation for physically inactive BrowserContext ".to_owned()
                    .concat(quoted(browser_context_id.as_str()).as_str())
            },
        }
    }
}

impl BrowserContextProjectionError {
    /// Whether Browser Core does not know the context.
    pub fn is_unknown_context(&self) -> (unknown: bool)
        ensures
            unknown == (self@ matches ContextRefusal::Core(
                CoreContextRefusal::UnknownBrowserContext(_),
            )),
    {
        match self {
            BrowserContextProjectionError::Core(
                BrowserContextRegistryError::UnknownBrowserContext(_),
            ) => true,
            _ => false,
        }
    }

    /// What Core's refusal to move a renderer runtime is reported as.
    pub fn from_runtime(error: BrowserContextRuntimeRegistryError) -> (reported:
        BrowserContextProjectionError)
        ensures
            reported == (match error {
                BrowserContextRuntimeRegistryError::Context(error) => {
                    BrowserContextProjectionError::Core(error)
                },
                BrowserContextRuntimeRegistryError::Runtime(reason) => {
                    BrowserContextProjectionError::Runtime(reason)
                },
            }),
    {
        match error {
            BrowserContextRuntimeRegistryError::Context(error) => {
                BrowserContextProjectionError::Core(error)
            },
            BrowserContextRuntimeRegistryError::Runtime(reason) => {
                BrowserContextProjectionError::Runtime(reason)
            },
        }
    }
}

/// Why a change of the Targets was refused.
pub enum TargetProjectionError {
    Core(BrowserTargetRegistryError),
    PhysicalTargetCountMismatch { authoritative: usize, projected: usize },
    PhysicalContextTargetCountMismatch {
        browser_context_id: String,
        authoritative: usize,
        projected: usize,
    },
    PhysicalActiveTargetMismatch {
        browser_context_id: String,
        authoritative: Option<String>,
        projected: Option<String>,
    },
    DuplicatePhysicalTarget(String),
    PhysicalTargetContextMismatch {
        target_id: String,
        authoritative: Option<String>,
        projected: String,
    },
    PhysicalTargetHandleMismatch { browser_context_id: String, target_id: String },
    PhysicalPageResidenceMismatch { browser_context_id: String, target_id: String },
    PhysicalBrowserContextHandleMismatch(String),
    ForeignBrowserTopLevelTargetSnapshot,
    StaleBrowserContextTargetSnapshot(String),
    StaleTopLevelTargetSnapshot { browser_context_id: String, target_id: String },
    PhysicalBrowserContextMissing(String),
    PhysicalTargetMissing { browser_context_id: String, target_id: String },
}

/// Why a change of the Targets was refused, over characters.
#[verifier::ext_equal]
pub enum TargetRefusal {
    Core(CoreTargetRefusal),
    PhysicalTargetCountMismatch { authoritative: usize, projected: usize },
    PhysicalContextTargetCountMismatch {
        browser_context_id: Seq<char>,
        authoritative: usize,
        projected: usize,
    },
    PhysicalActiveTargetMismatch {
        browser_context_id: Seq<char>,
        authoritative: Option<Seq<char>>,
        projected: Option<Seq<char>>,
    },
    DuplicatePhysicalTarget(Seq<char>),
    PhysicalTargetContextMismatch {
        target_id: Seq<char>,
        authoritative: Option<Seq<char>>,
        projected: Seq<char>,
    },
    PhysicalTargetHandleMismatch { browser_context_id: Seq<char>, target_id: Seq<char> },
    PhysicalPageResidenceMismatch { browser_context_id: Seq<char>, target_id: Seq<char> },
    PhysicalBrowserContextHandleMismatch(Seq<char>),
    ForeignBrowserTopLevelTargetSnapshot,
    StaleBrowserContextTargetSnapshot(Seq<char>),
    StaleTopLevelTargetSnapshot { browser_context_id: Seq<char>, target_id: Seq<char> },
    PhysicalBrowserContextMissing(Seq<char>),
    PhysicalTargetMissing { browser_context_id: Seq<char>, target_id: Seq<char> },
}

impl View for TargetProjectionError {
    type V = TargetRefusal;

    open spec fn view(&self) -> TargetRefusal {
        match *self {
            TargetProjectionError::Core(error) => TargetRefusal::Core(error@),
            TargetProjectionError::PhysicalTargetCountMismatch { authoritative, projected } => TargetRefusal::PhysicalTargetCountMismatch {
                authoritative,
                projected,
            },
            TargetProjectionError::PhysicalContextTargetCountMismatch { browser_context_id, authoritative, projected } => TargetRefusal::PhysicalContextTargetCountMismatch {
                browser_context_id: browser_context_id@,
                authoritative,
                projected,
            },
            TargetProjectionError::PhysicalActiveTargetMismatch { browser_context_id, authoritative, projected } => TargetRefusal::PhysicalActiveTargetMismatch {
                browser_context_id: browser_context_id@,
                authoritative: text::opt_chars(authoritative),
                projected: text::opt_chars(projected),
            },
            TargetProjectionError::DuplicatePhysicalTarget(target_id) => {
                TargetRefusal::DuplicatePhysicalTarget(target_id@)
            },
            TargetProjectionError::PhysicalTargetContextMismatch { target_id, authoritative, projected } => TargetRefusal::PhysicalTargetContextMismatch {
                target_id: target_id@,
                authoritative: text::opt_chars(authoritative),
                projected: projected@,
            },
            TargetProjectionError::PhysicalTargetHandleMismatch { browser_context_id, target_id } => TargetRefusal::PhysicalTargetHandleMismatch {
                browser_context_id: browser_context_id@,
                target_id: target_id@,
            },
            TargetProjectionError::PhysicalPageResidenceMismatch { browser_context_id, target_id } => TargetRefusal::PhysicalPageResidenceMismatch {
                browser_context_id: browser_context_id@,
                target_id: target_id@,
            },
            TargetProjectionError::PhysicalBrowserContextHandleMismatch(browser_context_id) => {
                TargetRefusal::PhysicalBrowserContextHandleMismatch(browser_context_id@)
            },
            TargetProjectionError::ForeignBrowserTopLevelTargetSnapshot => {
                TargetRefusal::ForeignBrowserTopLevelTargetSnapshot
            },
            TargetProjectionError::StaleBrowserContextTargetSnapshot(browser_context_id) => {
                TargetRefusal::StaleBrowserContextTargetSnapshot(browser_context_id@)
            },
            TargetProjectionError::StaleTopLevelTargetSnapshot { browser_context_id, target_id } => TargetRefusal::StaleTopLevelTargetSnapshot {
                browser_context_id: browser_context_id@,
                target_id: target_id@,
            },
            TargetProjectionError::PhysicalBrowserContextMissing(browser_context_id) => {
                TargetRefusal::PhysicalBrowserContextMissing(browser_context_id@)
            },
            TargetProjectionError::PhysicalTargetMissing { browser_context_id, target_id } => TargetRefusal::PhysicalTargetMissing {
                browser_context_id: browser_context_id@,
                target_id: target_id@,
            },
        }
    }
}

impl TargetRefusal {
    /// How the refusal reads. `core_text` is how Browser Core's own error
    /// reads.
    pub open spec fn message(self, core_text: Seq<char>) -> Seq<char> {
        match self {
            TargetRefusal::Core(_) => core_text,
            TargetRefusal::PhysicalTargetCountMismatch { authoritative, projected } => {
                "Browser Core has "@ + text::decimal_text(authoritative as nat)
                    + " Targets but the physical projection has "@
                    + text::decimal_text(projected as nat)
            },
            TargetRefusal::PhysicalContextTargetCountMismatch { browser_context_id, authoritative, projected } => {
                "BrowserContext "@ + text::quoted_text(browser_context_id) + " has "@
                    + text::decimal_text(authoritative as nat) + " Core Targets but "@
                    + text::decimal_text(projected as nat) + " physical Targets"@
            },
            TargetRefusal::PhysicalActiveTargetMismatch { browser_context_id, authoritative, projected } => {
                "BrowserContext "@ + text::quoted_text(browser_context_id)
                    + " has authoritative active Target "@ + text::opt_quoted_text(authoritative)
                    + " but physical active Target "@ + text::opt_quoted_text(projected)
            },
            TargetRefusal::DuplicatePhysicalTarget(target_id) => {
                "physical Target projection contains duplicate identity "@
                    + text::quoted_text(target_id)
            },
            TargetRefusal::PhysicalTargetContextMismatch { target_id, authoritative, projected } => {
                "physical Target "@ + text::quoted_text(target_id)
                    + " belongs to BrowserContext "@ + text::quoted_text(projected)
                    + ", but Browser Core reports "@ + text::opt_quoted_text(authoritative)
            },
            TargetRefusal::PhysicalTargetHandleMismatch { browser_context_id, target_id } => {
                "physical Target "@ + text::quoted_text(target_id) + " in BrowserContext "@
                    + text::quoted_text(browser_context_id)
                    + " does not carry the exact live Browser Core handle"@
            },
            TargetRefusal::PhysicalPageResidenceMismatch { browser_context_id, target_id } => {
                "physical Target "@ + text::quoted_text(target_id) + " in BrowserContext "@
                    + text::quoted_text(browser_context_id)
                    + " does not carry the exact Browser Core Page residence"@
            },
            TargetRefusal::PhysicalBrowserContextHandleMismatch(browser_context_id) => {
                "physical BrowserContext "@ + text::quoted_text(browser_context_id)
                    + " does not carry the exact Browser Core handle from the current-state snapshot"@
            },
            TargetRefusal::ForeignBrowserTopLevelTargetSnapshot => {
                { "top-level Target current-state snapshot belongs to another Browser instance"@ }
            },
            TargetRefusal::StaleBrowserContextTargetSnapshot(browser_context_id) => {
                "BrowserContext current-state snapshot for "@
                    + text::quoted_text(browser_context_id) + " is no longer live"@
            },
            TargetRefusal::StaleTopLevelTargetSnapshot { browser_context_id, target_id } => {
                "top-level Target current-state snapshot for "@ + text::quoted_text(target_id)
                    + " in BrowserContext "@ + text::quoted_text(browser_context_id)
                    + " is no longer live"@
            },
            TargetRefusal::PhysicalBrowserContextMissing(browser_context_id) => {
                "BrowserContext "@ + text::quoted_text(browser_context_id)
                    + " has no exact physical Target projection"@
            },
            TargetRefusal::PhysicalTargetMissing { browser_context_id, target_id } => {
                "Target "@ + text::quoted_text(target_id)
                    + " has no physical payload in BrowserContext "@
                    + text::quoted_text(browser_context_id)
            },
        }
    }
}

impl TargetProjectionError {
    /// How the error reads. `core_text` is how Browser Core's own error reads.
    pub fn message(&self, core_text: &str) -> (message: String)
        ensures
            message@ == self@.message(core_text@),
    {
        match self {
            TargetProjectionError::Core(_) => core_text.to_owned(),
            TargetProjectionError::PhysicalTargetCountMismatch { authoritative, projected } => {
                "Browser Core has ".to_owned().concat(decimal(*authoritative as u64).as_str())
                    .concat(" Targets but the physical projection has ")
                    .concat(decimal(*projected as u64).as_str())
            },
            TargetProjectionError::PhysicalContextTargetCountMismatch { browser_context_id, authoritative, projected } => {
                "BrowserContext ".to_owned().concat(quoted(browser_context_id.as_str()).as_str())
                    .concat(" has ").concat(decimal(*authoritative as u64).as_str())
                    .concat(" Core Targets but ").concat(decimal(*projected as u64).as_str())
                    .concat(" physical Targets")
            },
            TargetProjectionError::PhysicalActiveTargetMismatch { browser_context_id, authoritative, projected } => {
                "BrowserContext ".to_owned().concat(quoted(browser_context_id.as_str()).as_str())
                    .concat(" has authoritative active Target ")
                    .concat(opt_quoted(opt_as_str(authoritative)).as_str())
                    .concat(" but physical active Target ")
                    .concat(opt_quoted(opt_as_str(projected)).as_str())
            },
            TargetProjectionError::DuplicatePhysicalTarget(target_id) => {
                "physical Target projection contains duplicate identity ".to_owned()
                    .concat(quoted(target_id.as_str()).as_str())
            },
            TargetProjectionError::PhysicalTargetContextMismatch { target_id, authoritative, projected } => {
                "physical Target ".to_owned().concat(quoted(target_id.as_str()).as_str())
                    .concat(" belongs to BrowserContext ")
                    .concat(quoted(projected.as_str()).as_str())
                    .concat(", but Browser Core reports ")
                    .concat(opt_quoted(opt_as_str(authoritative)).as_str())
            },
            TargetProjectionError::PhysicalTargetHandleMismatch { browser_context_id, target_id } => {
                "physical Target ".to_owned().concat(quoted(target_id.as_str()).as_str())
                    .concat(" in BrowserContext ")
                    .concat(quoted(browser_context_id.as_str()).as_str())
                    .concat(" does not carry the exact live Browser Core handle")
            },
            TargetProjectionError::PhysicalPageResidenceMismatch { browser_context_id, target_id } => {
                "physical Target ".to_owned().concat(quoted(target_id.as_str()).as_str())
                    .concat(" in BrowserContext ")
                    .concat(quoted(browser_context_id.as_str()).as_str())
                    .concat(" does not carry the exact Browser Core Page residence")
            },
            TargetProjectionError::PhysicalBrowserContextHandleMismatch(browser_context_id) => {
                "physical BrowserContext ".to_owned()
                    .concat(quoted(browser_context_id.as_str()).as_str())
                    .concat(" does not carry the exact Browser Core handle from the current-state snapshot")
            },
            TargetProjectionError::ForeignBrowserTopLevelTargetSnapshot => {
                { "top-level Target current-state snapshot belongs to another Browser instance".to_owned() }
            },
            TargetProjectionError::StaleBrowserContextTargetSnapshot(browser_context_id) => {
                "BrowserContext current-state snapshot for ".to_owned()
                    .concat(quoted(browser_context_id.as_str()).as_str())
                    .concat(" is no longer live")
            },
            TargetProjectionError::StaleTopLevelTargetSnapshot { browser_context_id, target_id } => {
                "top-level Target current-state snapshot for ".to_owned()
                    .concat(quoted(target_id.as_str()).as_str()).concat(" in BrowserContext ")
                    .concat(quoted(browser_context_id.as_str()).as_str())
                    .concat(" is no longer live")
            },
            TargetProjectionError::PhysicalBrowserContextMissing(browser_context_id) => {
                "BrowserContext ".to_owned().concat(quoted(browser_context_id.as_str()).as_str())
                    .concat(" has no exact physical Target projection")
            },
            TargetProjectionError::PhysicalTargetMissing { browser_context_id, target_id } => {
                "Target ".to_owned().concat(quoted(target_id.as_str()).as_str())
                    .concat(" has no physical payload in BrowserContext ")
                    .concat(quoted(browser_context_id.as_str()).as_str())
            },
        }
    }
}

/// Why a change of a Page was refused.
pub enum PageResidenceProjectionError {
    TargetTopology(TargetProjectionError),
    PhysicalResidenceMismatch { browser_context_id: String, target_id: String },
    InitialDocumentPageAlreadyPresent { browser_context_id: String, target_id: String },
    RendererPageOwnerMissing { browser_context_id: String, target_id: String },
}

/// Why a change of a Page was refused, over characters.
#[verifier::ext_equal]
pub enum PageRefusal {
    TargetTopology(TargetRefusal),
    PhysicalResidenceMismatch { browser_context_id: Seq<char>, target_id: Seq<char> },
    InitialDocumentPageAlreadyPresent { browser_context_id: Seq<char>, target_id: Seq<char> },
    RendererPageOwnerMissing { browser_context_id: Seq<char>, target_id: Seq<char> },
}

impl View for PageResidenceProjectionError {
    type V = PageRefusal;

    open spec fn view(&self) -> PageRefusal {
        match *self {
            PageResidenceProjectionError::TargetTopology(error) => {
                PageRefusal::TargetTopology(error@)
            },
            PageResidenceProjectionError::PhysicalResidenceMismatch { browser_context_id, target_id } => PageRefusal::PhysicalResidenceMismatch {
                browser_context_id: browser_context_id@,
                target_id: target_id@,
            },
            PageResidenceProjectionError::InitialDocumentPageAlreadyPresent { browser_context_id, target_id } => PageRefusal::InitialDocumentPageAlreadyPresent {
                browser_context_id: browser_context_id@,
                target_id: target_id@,
            },
            PageResidenceProjectionError::RendererPageOwnerMissing { browser_context_id, target_id } => PageRefusal::RendererPageOwnerMissing {
                browser_context_id: browser_context_id@,
                target_id: target_id@,
            },
        }
    }
}

impl PageRefusal {
    /// How the refusal reads. `core_text` is how Browser Core's own error
    /// reads.
    pub open spec fn message(self, core_text: Seq<char>) -> Seq<char> {
        match self {
            PageRefusal::TargetTopology(refusal) => refusal.message(core_text),
            PageRefusal::PhysicalResidenceMismatch { browser_context_id, target_id } => {
                "physical Page residence for Target "@ + text::quoted_text(target_id)
                    + " in BrowserContext "@ + text::quoted_text(browser_context_id)
                    + " does not match the prepared Browser Core permit"@
            },
            PageRefusal::InitialDocumentPageAlreadyPresent { browser_context_id, target_id } => {
                "initial Document materialization for Target "@ + text::quoted_text(target_id)
                    + " in BrowserContext "@ + text::quoted_text(browser_context_id)
                    + " requires an empty physical Page slot"@
            },
            PageRefusal::RendererPageOwnerMissing { browser_context_id, target_id } => {
                "Page candidate for Target "@ + text::quoted_text(target_id)
                    + " in BrowserContext "@ + text::quoted_text(browser_context_id)
                    + " has no renderer lifetime owner"@
            },
        }
    }
}

impl PageResidenceProjectionError {
    /// How the error reads. `core_text` is how Browser Core's own error reads.
    pub fn message(&self, core_text: &str) -> (message: String)
        ensures
            message@ == self@.message(core_text@),
    {
        match self {
            PageResidenceProjectionError::TargetTopology(error) => error.message(core_text),
            PageResidenceProjectionError::PhysicalResidenceMismatch { browser_context_id, target_id } => {
                "physical Page residence for Target ".to_owned()
                    .concat(quoted(target_id.as_str()).as_str()).concat(" in BrowserContext ")
                    .concat(quoted(browser_context_id.as_str()).as_str())
                    .concat(" does not match the prepared Browser Core permit")
            },
            PageResidenceProjectionError::InitialDocumentPageAlreadyPresent { browser_context_id, target_id } => {
                "initial Document materialization for Target ".to_owned()
                    .concat(quoted(target_id.as_str()).as_str()).concat(" in BrowserContext ")
                    .concat(quoted(browser_context_id.as_str()).as_str())
                    .concat(" requires an empty physical Page slot")
            },
            PageResidenceProjectionError::RendererPageOwnerMissing { browser_context_id, target_id } => {
                "Page candidate for Target ".to_owned()
                    .concat(quoted(target_id.as_str()).as_str()).concat(" in BrowserContext ")
                    .concat(quoted(browser_context_id.as_str()).as_str())
                    .concat(" has no renderer lifetime owner")
            },
        }
    }
}

} // verus!
