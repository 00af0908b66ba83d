//! The connection and its model.
use vstd::prelude::*;

use crate::connection::core_record::BrowserCoreRecord;
use crate::connection::errors::{
    BrowserContextProjectionError, BrowserContextRegistryError, ContextRefusal, CoreContextRefusal,
};
use crate::connection::slots::{BrowserContext, ContextModel};
use crate::facts::model::ProjectorModel;
use crate::facts::projector::{BrowserFactSubscriber, CdpBrowserFactProjector};
use crate::text;
use crate::text::{copy_opt_text, same_opt_text, same_text};

verus! {

/// What is left to do to a Target's payload.
pub enum TargetChange {
    MarkCrashed,
    ClearCrashState,
    ClearRendererDocumentState,
    ClearRemoteObjectTracking,
    ClearCommittedNavigationState,
    ClearLoadedDocumentContext,
    ClearLoadedDocumentSessions,
    ClearPendingFetch,
    ClearNetworkObservations,
    ClearSessionScopedState,
    ClearPageLocalState,
    ClearObservableOutput,
    ClearWebsocketArtifacts,
    ForgetReferences,
    IngestOutputUpdates,
    BindRendererDocumentLifecycle { loader_id: String },
    RestoreCookieManager,
    ResetNetworkArtifacts,
    ResetFetchRequestCounter,
    ResetSubresourceCursor,
    DropAttachment,
    DropParkedState,
    /// What the slot has collected of the network is read, to be recorded.
    CollectNetworkArtifacts,
    /// What was parked of it is taken out. It is lost where nothing is recorded.
    TakeParkedNetworkArtifacts,
    RecordNetworkArtifacts,
    ResetIdentityToAboutBlank,
    ResetIdentityToNewTab,
    FailPendingAwaits { reason: String },
}

/// What is left to do once a change of the slots is done.
pub enum ConnectionEffect {
    /// The active engine takes the fetch overrides.
    ApplyFetchOverrides,
    /// The resource runtime is made anew.
    InvalidateResourceRuntime,
    /// A document resource that no commit took over is dropped.
    DiscardUncommittedDocument { session_id: Option<String>, loader_id: String },
    /// A Target's payload changes, where its context is there.
    Target { browser_context_id: String, target_id: String, change: TargetChange },
}

/// One frontend connection.
pub struct CdpConnection {
    /// The selected context.
    pub browser_context: Option<BrowserContext>,
    pub inactive_browser_contexts: Vec<BrowserContext>,
    /// What Browser Core reports.
    pub core: BrowserCoreRecord,
    /// The cursor over the Browser facts.
    pub facts: CdpBrowserFactProjector,
    /// The sessions that speak of the browser as a whole.
    pub browser_sessions: Vec<String>,
    /// What is left to do, oldest first.
    pub effects: Vec<ConnectionEffect>,
}

/// A connection, with its lists as sequences.
#[verifier::ext_equal]
pub struct ConnectionModel {
    pub selected: Option<ContextModel>,
    pub inactive: Seq<ContextModel>,
    pub core: BrowserCoreRecord,
    pub facts: ProjectorModel,
    pub browser_sessions: Seq<String>,
    pub effects: Seq<ConnectionEffect>,
}

/// The models of a list of contexts.
pub open spec fn context_models(contexts: Seq<BrowserContext>) -> Seq<ContextModel> {
    Seq::new(contexts.len(), |index: int| contexts[index]@)
}

impl View for CdpConnection {
    type V = ConnectionModel;

    open spec fn view(&self) -> ConnectionModel {
        ConnectionModel {
            selected: match self.browser_context {
                Some(context) => Some(context@),
                None => None,
            },
            inactive: context_models(self.inactive_browser_contexts@),
            core: self.core,
            facts: self.facts@,
            browser_sessions: self.browser_sessions@,
            effects: self.effects@,
        }
    }
}

/// The first context from `from` on that is called `id`.
pub open spec fn find_context(contexts: Seq<ContextModel>, id: Seq<char>, from: nat) -> Option<nat>
    decreases contexts.len() - from,
{
    if from >= contexts.len() {
        None
    } else if contexts[from as int].id@ == id {
        Some(from)
    } else {
        find_context(contexts, id, from + 1)
    }
}

/// What `find_context` finds is there and is called `id`.
pub proof fn lemma_find_context(contexts: Seq<ContextModel>, id: Seq<char>, from: nat)
    ensures
        find_context(contexts, id, from) matches Some(index) ==> from <= index < contexts.len()
            && contexts[index as int].id@ == id,
    decreases contexts.len() - from,
{
    if from < contexts.len() && contexts[from as int].id@ != id {
        lemma_find_context(contexts, id, from + 1);
    }
}

impl ConnectionModel {
    /// All contexts, the selected one first.
    pub open spec fn contexts(self) -> Seq<ContextModel> {
        match self.selected {
            Some(context) => seq![context] + self.inactive,
            None => self.inactive,
        }
    }

    /// The name of the selected context.
    pub open spec fn selected_id(self) -> Option<Seq<char>> {
        match self.selected {
            Some(context) => Some(context.id@),
            None => None,
        }
    }

    /// The context called `id`, the selected one first.
    pub open spec fn context(self, id: Seq<char>) -> Option<ContextModel> {
        match find_context(self.contexts(), id, 0) {
            Some(index) => Some(self.contexts()[index as int]),
            None => None,
        }
    }

    /// Why the slots and Browser Core's contexts do not agree, if they do not.
    pub open spec fn context_topology_refusal(self) -> Option<ContextRefusal> {
        let contexts = self.contexts();
        let selection = text::opt_chars(self.core.selected_browser_context_id);
        if contexts.len() != self.core.contexts@.len() {
            Some(
                ContextRefusal::PhysicalContextCountMismatch {
                    authoritative: self.core.contexts@.len() as usize,
                    projected: contexts.len() as usize,
                },
            )
        } else if self.selected_id() != selection {
            Some(
                ContextRefusal::PhysicalSelectionMismatch {
                    authoritative: selection,
                    projected: self.selected_id(),
                },
            )
        } else {
            context_refusal_from(self.core, contexts, 0)
        }
    }
}

/// Whether one of the first `count` contexts is called `id`.
pub open spec fn listed_before(contexts: Seq<ContextModel>, count: int, id: Seq<char>) -> bool {
    exists|index: int| 0 <= index < count && (#[trigger] contexts[index]).id@ == id
}

/// Why the contexts from `from` on do not agree with Browser Core's: a name
/// occurs twice, is unknown to Core, or names another instance there.
pub open spec fn context_refusal_from(
    core: BrowserCoreRecord,
    contexts: Seq<ContextModel>,
    from: nat,
) -> Option<ContextRefusal>
    decreases contexts.len() - from,
{
    if from >= contexts.len() {
        None
    } else {
        let context = contexts[from as int];
        if listed_before(contexts, from as int, context.id@) {
            Some(ContextRefusal::DuplicatePhysicalContext(context.id@))
        } else if !core.has_context(context.id@) {
            Some(ContextRefusal::PhysicalContextMissingFromCore(context.id@))
        } else if !core.context_handle_current(context.handle) {
            Some(
                ContextRefusal::Core(
                    CoreContextRefusal::BrowserContextHandleProjectionMismatch(context.id@),
                ),
            )
        } else {
            context_refusal_from(core, contexts, from + 1)
        }
    }
}

impl CdpConnection {
    /// The cursor keeps its invariant.
    pub open spec fn wf(&self) -> bool {
        self.facts.wf()
    }

    /// A connection without contexts.
    pub fn new(browser_instance: u64, subscriber: BrowserFactSubscriber) -> (connection:
        CdpConnection)
        ensures
            connection.wf(),
            connection@.selected is None,
            connection@.inactive == Seq::<ContextModel>::empty(),
            connection@.core.browser_instance == browser_instance,
            connection@.core.contexts@.len() == 0,
            connection@.core.targets@.len() == 0,
            connection@.core.selected_browser_context_id is None,
            connection@.facts.inbox == subscriber.queued@,
            connection@.facts.end == subscriber.end,
            connection@.facts.subscribed,
            connection@.facts.pending.len() == 0,
            connection@.facts.terminal is None,
            connection@.browser_sessions.len() == 0,
            connection@.effects.len() == 0,
    {
        CdpConnection {
            browser_context: None,
            inactive_browser_contexts: Vec::new(),
            core: BrowserCoreRecord::new(browser_instance),
            facts: CdpBrowserFactProjector::new(subscriber),
            browser_sessions: Vec::new(),
            effects: Vec::new(),
        }
    }

    /// Takes the registries as Browser Core reports them.
    pub fn adopt_core_record(&mut self, core: BrowserCoreRecord)
        requires
            old(self).wf(),
        ensures
            final(self).wf(),
            final(self)@ == (ConnectionModel { core, ..old(self)@ }),
    {
        self.core = core;
    }

    /// All contexts, the selected one first.
    pub fn browser_contexts(&self) -> (contexts: Vec<&BrowserContext>)
        ensures
            contexts@.len() == self@.contexts().len(),
            forall|index: int|
                0 <= index < contexts@.len() ==> (#[trigger] contexts@[index])@
                    == self@.contexts()[index],
    {
        let mut contexts: Vec<&BrowserContext> = Vec::new();
        let ghost offset: int = if self.browser_context is Some {
            1
        } else {
            0
        };
        if let Some(context) = &self.browser_context {
            contexts.push(context);
        }
        let mut index: usize = 0;
        while index < self.inactive_browser_contexts.len()
            invariant
                index <= self.inactive_browser_contexts@.len(),
                offset == (if self.browser_context is Some {
                    1int
                } else {
                    0int
                }),
                contexts@.len() == offset + index,
                forall|at: int|
                    0 <= at < contexts@.len() ==> (#[trigger] contexts@[at])@
                        == self@.contexts()[at],
            decreases self.inactive_browser_contexts@.len() - index,
        {
            contexts.push(&self.inactive_browser_contexts[index]);
            assert(self@.contexts()[offset + index]
                == self.inactive_browser_contexts@[index as int]@);
            index = index + 1;
        }
        contexts
    }

    /// The name of the selected context.
    pub fn selected_id(&self) -> (id: Option<&str>)
        ensures
            text::opt_str_chars(id) == self@.selected_id(),
    {
        match &self.browser_context {
            Some(context) => Some(context.id.as_str()),
            None => None,
        }
    }

    pub fn registered_browser_context_count(&self) -> (count: usize)
        ensures
            count == self@.core.contexts@.len(),
    {
        self.core.contexts.len()
    }

    /// The context called `id`, the selected one first.
    pub fn browser_context_by_id(&self, id: &str) -> (context: Option<&BrowserContext>)
        ensures
            match context {
                Some(context) => self@.context(id@) == Some(context@),
                None => self@.context(id@) is None,
            },
    {
        let contexts = self.browser_contexts();
        let mut index: usize = 0;
        while index < contexts.len()
            invariant
                index <= contexts@.len(),
                contexts@.len() == self@.contexts().len(),
                forall|at: int|
                    0 <= at < contexts@.len() ==> (#[trigger] contexts@[at])@
                        == self@.contexts()[at],
                find_context(self@.contexts(), id@, 0) == find_context(
                    self@.contexts(),
                    id@,
                    index as nat,
                ),
            decreases contexts@.len() - index,
        {
            let context = contexts[index];
            assert(context@ == self@.contexts()[index as int]);
            if same_text(context.id.as_str(), id) {
                return Some(context);
            }
            index = index + 1;
        }
        None
    }

    /// Where an inactive context is.
    pub fn inactive_position(&self, id: &str) -> (position: Option<usize>)
        ensures
            match position {
                Some(position) => {
                    &&& find_context(self@.inactive, id@, 0) == Some(position as nat)
                    &&& position < self.inactive_browser_contexts@.len()
                    &&& self.inactive_browser_contexts@[position as int].id@ == id@
                },
                None => find_context(self@.inactive, id@, 0) is None,
            },
    {
        let mut index: usize = 0;
        while index < self.inactive_browser_contexts.len()
            invariant
                index <= self.inactive_browser_contexts@.len(),
                find_context(self@.inactive, id@, 0) == find_context(
                    self@.inactive,
                    id@,
                    index as nat,
                ),
            decreases self.inactive_browser_contexts@.len() - index,
        {
            assert(self@.inactive[index as int]
                == self.inactive_browser_contexts@[index as int]@);
            if same_text(self.inactive_browser_contexts[index].id.as_str(), id) {
                return Some(index);
            }
            index = index + 1;
        }
        None
    }

    /// Holds the slots against Browser Core's contexts.
    pub fn validate_browser_context_topology_projection(&self) -> (valid: Result<
        (),
        BrowserContextProjectionError,
    >)
        ensures
            match valid {
                Ok(()) => self@.context_topology_refusal() is None,
                Err(error) => self@.context_topology_refusal() == Some(error@),
            },
    {
        let contexts = self.browser_contexts();
        let authoritative: usize = self.core.contexts.len();
        if contexts.len() != authoritative {
            return Err(
                BrowserContextProjectionError::PhysicalContextCountMismatch {
                    authoritative,
                    projected: contexts.len(),
                },
            );
        }
        let selection = self.core.selected_browser_context_id();
        if !same_opt_text(self.selected_id(), selection) {
            return Err(
                BrowserContextProjectionError::PhysicalSelectionMismatch {
                    authoritative: copy_opt_text(selection),
                    projected: copy_opt_text(self.selected_id()),
                },
            );
        }
        let mut index: usize = 0;
        while index < contexts.len()
            invariant
                index <= contexts@.len(),
                contexts@.len() == self@.contexts().len(),
                forall|at: int|
                    0 <= at < contexts@.len() ==> (#[trigger] contexts@[at])@
                        == self@.contexts()[at],
                self@.context_topology_refusal() == context_refusal_from(
                    self@.core,
                    self@.contexts(),
                    index as nat,
                ),
            decreases contexts@.len() - index,
        {
            let context = contexts[index];
            assert(context@ == self@.contexts()[index as int]);
            let mut earlier: usize = 0;
            while earlier < index && !same_text(
                contexts[earlier].id.as_str(),
                context.id.as_str(),
            )
                invariant
                    earlier <= index < contexts@.len(),
                    contexts@.len() == self@.contexts().len(),
                    forall|at: int|
                        0 <= at < contexts@.len() ==> (#[trigger] contexts@[at])@
                            == self@.contexts()[at],
                    forall|at: int|
                        0 <= at < earlier ==> (#[trigger] self@.contexts()[at]).id@ != context.id@,
                decreases index - earlier,
            {
                assert(contexts@[earlier as int]@ == self@.contexts()[earlier as int]);
                earlier = earlier + 1;
            }
            if earlier < index {
                assert(contexts@[earlier as int]@ == self@.contexts()[earlier as int]);
                return Err(
                    BrowserContextProjectionError::DuplicatePhysicalContext(context.id.clone()),
                );
            }
            if !self.core.has_browser_context(context.id.as_str()) {
                return Err(
                    BrowserContextProjectionError::PhysicalContextMissingFromCore(
                        context.id.clone(),
                    ),
                );
            }
            if !self.core.browser_context_handle_is_current(&context.handle) {
                return Err(
                    BrowserContextProjectionError::Core(
                        BrowserContextRegistryError::BrowserContextHandleProjectionMismatch(
                            context.id.clone(),
                        ),
                    ),
                );
            }
            index = index + 1;
        }
        Ok(())
    }
}

} // verus!
