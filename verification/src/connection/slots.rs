//! The physical slots of the connection: contexts, and the Targets in them.
use vstd::prelude::*;

use crate::connection::core_record::{BrowserContextHandle, BrowserTargetHandle};
use crate::facts::types::{CommittedRendererDocumentBinding, DocumentNavigationToken};
use crate::text;
use crate::text::same_text;

verus! {

/// Why a slot holds no Page.
#[derive(Clone, Copy, Debug, PartialEq, Eq, Structural)]
pub enum TargetPageAbsenceReason {
    /// No Page was made yet.
    NotLoaded,
    NavigationFailed,
    TargetCrashed,
    TargetClosed,
}

/// What a Target's slot holds.
pub struct TargetRuntimeSlot {
    /// The place that holds the Page.
    pub page_instance: u64,
    /// The Page, where there is one.
    pub loaded_page: Option<u64>,
    pub absence: TargetPageAbsenceReason,
    pub target_url: String,
    pub security_origin: String,
    pub secure_context_type: String,
    /// The store of the Target's session storage.
    pub session_storage: u64,
    /// The request that the renderer is told of.
    pub pending_navigation: Option<DocumentNavigationToken>,
    /// The attachment of the shown Document.
    pub binding: Option<CommittedRendererDocumentBinding>,
    /// The popup that the Target was opened as.
    pub popup_id: Option<u64>,
}

/// The slot that is in front.
pub struct ActiveTarget {
    pub handle: Option<BrowserTargetHandle>,
    pub session_id: Option<String>,
    pub slot: TargetRuntimeSlot,
}

/// A slot behind.
pub struct BackgroundTarget {
    pub handle: BrowserTargetHandle,
    pub session_id: Option<String>,
    pub slot: TargetRuntimeSlot,
    /// Whether the slot may come to the front when the active one closes.
    pub promotable: bool,
}

/// A further session of a Target.
pub struct AuxiliarySession {
    pub target_id: String,
    pub session_id: String,
}

/// A worker that a context's renderers run.
pub struct WorkerTarget {
    pub target_id: String,
    pub url: String,
}

/// One physical BrowserContext.
pub struct BrowserContext {
    pub id: String,
    pub handle: BrowserContextHandle,
    pub active_target: ActiveTarget,
    pub background_targets: Vec<BackgroundTarget>,
    pub auxiliary_sessions: Vec<AuxiliarySession>,
    /// The workers that the context's renderers run.
    pub worker_targets: Vec<WorkerTarget>,
    /// The renderer runtime, until Browser Core takes it over.
    pub runtime_owner: Option<u64>,
    pub has_pending_javascript_dialog: bool,
}

/// What Browser Core is told of one slot.
pub struct BrowserTargetSlotProjection {
    pub handle: BrowserTargetHandle,
    pub page_instance: u64,
    pub session_storage: u64,
}

/// What Browser Core is told of a context's slots.
pub struct BrowserTargetTopologyProjection {
    pub browser_context_id: String,
    pub active: Option<BrowserTargetSlotProjection>,
    pub background: Vec<BrowserTargetSlotProjection>,
}

/// A physical BrowserContext, with its lists as sequences.
#[verifier::ext_equal]
pub struct ContextModel {
    pub id: String,
    pub handle: BrowserContextHandle,
    pub active: ActiveTarget,
    pub background: Seq<BackgroundTarget>,
    pub auxiliary: Seq<AuxiliarySession>,
    pub workers: Seq<WorkerTarget>,
    pub runtime_owner: Option<u64>,
    pub dialog: bool,
}

impl View for BrowserContext {
    type V = ContextModel;

    open spec fn view(&self) -> ContextModel {
        ContextModel {
            id: self.id,
            handle: self.handle,
            active: self.active_target,
            background: self.background_targets@,
            auxiliary: self.auxiliary_sessions@,
            workers: self.worker_targets@,
            runtime_owner: self.runtime_owner,
            dialog: self.has_pending_javascript_dialog,
        }
    }
}

impl ContextModel {
    /// The Target in front.
    pub open spec fn active_id(self) -> Option<Seq<char>> {
        match self.active.handle {
            Some(handle) => Some(handle.target_id@),
            None => None,
        }
    }

    /// The first slot behind, from `from` on, of a Target.
    pub open spec fn background_from(self, target: Seq<char>, from: nat) -> Option<nat>
        decreases self.background.len() - from,
    {
        if from >= self.background.len() {
            None
        } else if self.background[from as int].handle.target_id@ == target {
            Some(from)
        } else {
            self.background_from(target, from + 1)
        }
    }

    /// The first slot behind of a Target.
    pub open spec fn background_index(self, target: Seq<char>) -> Option<nat> {
        self.background_from(target, 0)
    }

    /// Whether a slot holds the Target.
    pub open spec fn has_target(self, target: Seq<char>) -> bool {
        self.active_id() == Some(target) || self.background_index(target) is Some
    }

    /// The slots behind, each with its Target.
    pub open spec fn background_slots(self) -> Seq<BrowserTargetSlotProjection> {
        Seq::new(
            self.background.len(),
            |index: int|
                BrowserTargetSlotProjection {
                    handle: self.background[index].handle,
                    page_instance: self.background[index].slot.page_instance,
                    session_storage: self.background[index].slot.session_storage,
                },
        )
    }

    /// The slot in front, with its Target.
    pub open spec fn active_slot(self) -> Option<BrowserTargetSlotProjection> {
        match self.active.handle {
            Some(handle) => Some(
                BrowserTargetSlotProjection {
                    handle,
                    page_instance: self.active.slot.page_instance,
                    session_storage: self.active.slot.session_storage,
                },
            ),
            None => None,
        }
    }

    /// The slots with their Targets, the one in front first.
    pub open spec fn slots(self) -> Seq<BrowserTargetSlotProjection> {
        match self.active_slot() {
            Some(slot) => seq![slot] + self.background_slots(),
            None => self.background_slots(),
        }
    }

    /// The context with the store of a Target replaced.
    pub open spec fn with_store(self, target: Seq<char>, store: u64) -> ContextModel {
        if self.active_id() == Some(target) {
            ContextModel {
                active: ActiveTarget {
                    slot: TargetRuntimeSlot { session_storage: store, ..self.active.slot },
                    ..self.active
                },
                ..self
            }
        } else {
            match self.background_index(target) {
                Some(index) => {
                    let behind = self.background[index as int];
                    ContextModel {
                        background: self.background.update(
                            index as int,
                            BackgroundTarget {
                                slot: TargetRuntimeSlot { session_storage: store, ..behind.slot },
                                ..behind
                            },
                        ),
                        ..self
                    }
                },
                None => self,
            }
        }
    }

    /// Whether a worker of the context is called `target`.
    pub open spec fn has_worker(self, target: Seq<char>) -> bool {
        exists|index: int| 0 <= index < self.workers.len() && (#[trigger] self.workers[index]).target_id@
            == target
    }

    /// The last slot behind, among the first `count`, that may come to the
    /// front.
    pub open spec fn last_promotable(self, count: nat) -> Option<nat>
        decreases count,
    {
        if count == 0 {
            None
        } else if self.background[count - 1].promotable {
            Some((count - 1) as nat)
        } else {
            self.last_promotable((count - 1) as nat)
        }
    }

    /// Whether a Target's first slot behind is at `index` or later.
    pub proof fn lemma_background_from(self, target: Seq<char>, from: nat)
        ensures
            self.background_from(target, from) matches Some(index) ==> from <= index
                < self.background.len() && self.background[index as int].handle.target_id@ == target,
        decreases self.background.len() - from,
    {
        if from < self.background.len() && self.background[from as int].handle.target_id@ != target {
            self.lemma_background_from(target, from + 1);
        }
    }
}

/// Where a Target's slot is.
#[derive(Clone, Copy, Debug, PartialEq, Eq, Structural)]
pub enum TargetPlace {
    Active,
    Background(usize),
}

impl TargetRuntimeSlot {
    /// An empty slot.
    pub fn new(page_instance: u64, target_url: String) -> (slot: TargetRuntimeSlot)
        ensures
            slot.page_instance == page_instance,
            slot.target_url == target_url,
            slot.loaded_page is None,
            slot.absence == TargetPageAbsenceReason::NotLoaded,
            slot.security_origin@ == Seq::<char>::empty(),
            slot.secure_context_type@ == Seq::<char>::empty(),
            slot.session_storage == 0,
            slot.pending_navigation is None,
            slot.binding is None,
            slot.popup_id is None,
    {
        TargetRuntimeSlot {
            page_instance,
            loaded_page: None,
            absence: TargetPageAbsenceReason::NotLoaded,
            target_url,
            security_origin: String::new(),
            secure_context_type: String::new(),
            session_storage: 0,
            pending_navigation: None,
            binding: None,
            popup_id: None,
        }
    }

    pub fn has_loaded_page(&self) -> (loaded: bool)
        ensures
            loaded == (self.loaded_page is Some),
    {
        self.loaded_page.is_some()
    }
}

impl BackgroundTarget {
    pub fn target_id(&self) -> (id: &str)
        ensures
            id@ == self.handle.target_id@,
    {
        self.handle.target_id.as_str()
    }

    pub fn is_target(&self, target_id: &str) -> (same: bool)
        ensures
            same == (self.handle.target_id@ == target_id@),
    {
        same_text(self.handle.target_id.as_str(), target_id)
    }
}

impl BrowserContext {
    /// A context without Targets.
    pub fn new(id: String, instance: u64) -> (context: BrowserContext)
        ensures
            context.id == id,
            context.handle == (BrowserContextHandle { browser_context_id: id, instance }),
            context.active_target.handle is None,
            context.active_target.session_id is None,
            context.background_targets@ == Seq::<BackgroundTarget>::empty(),
            context.auxiliary_sessions@ == Seq::<AuxiliarySession>::empty(),
            context.worker_targets@ == Seq::<WorkerTarget>::empty(),
            context.runtime_owner == Some(instance),
            !context.has_pending_javascript_dialog,
    {
        BrowserContext {
            handle: BrowserContextHandle { browser_context_id: id.clone(), instance },
            id,
            active_target: ActiveTarget {
                handle: None,
                session_id: None,
                slot: TargetRuntimeSlot::new(0, "about:blank".to_owned()),
            },
            background_targets: Vec::new(),
            auxiliary_sessions: Vec::new(),
            worker_targets: Vec::new(),
            runtime_owner: Some(instance),
            has_pending_javascript_dialog: false,
        }
    }

    pub fn active_target_id(&self) -> (id: Option<&str>)
        ensures
            text::opt_str_chars(id) == self@.active_id(),
    {
        match &self.active_target.handle {
            Some(handle) => Some(handle.target_id.as_str()),
            None => None,
        }
    }

    pub fn is_active_target(&self, target_id: &str) -> (active: bool)
        ensures
            active == (self@.active_id() == Some(target_id@)),
    {
        match &self.active_target.handle {
            Some(handle) => same_text(handle.target_id.as_str(), target_id),
            None => false,
        }
    }

    /// Names the Target in front. The Target that is in front already keeps
    /// its exact identity; another one is staged as instance `instance`.
    pub fn set_active_target_id(&mut self, target_id: &str, instance: u64)
        ensures
            final(self)@.active_id() == Some(target_id@),
            old(self)@.active_id() == Some(target_id@) ==> *final(self) == *old(self),
            old(self)@.active_id() != Some(target_id@) ==> final(self)@ == (ContextModel {
                active: ActiveTarget {
                    handle: final(self)@.active.handle,
                    ..old(self)@.active
                },
                ..old(self)@
            }) && final(self)@.active.handle->Some_0.instance == instance,
    {
        if !self.is_active_target(target_id) {
            self.active_target.handle = Some(
                BrowserTargetHandle { target_id: target_id.to_owned(), instance },
            );
        }
    }

    fn active_slot_projection(&self) -> (slot: Option<BrowserTargetSlotProjection>)
        ensures
            slot == self@.active_slot(),
    {
        match &self.active_target.handle {
            Some(handle) => Some(
                BrowserTargetSlotProjection {
                    handle: handle.copy(),
                    page_instance: self.active_target.slot.page_instance,
                    session_storage: self.active_target.slot.session_storage,
                },
            ),
            None => None,
        }
    }

    fn background_slot_projections(&self) -> (slots: Vec<BrowserTargetSlotProjection>)
        ensures
            slots@ == self@.background_slots(),
    {
        let mut slots: Vec<BrowserTargetSlotProjection> = Vec::new();
        let mut index: usize = 0;
        while index < self.background_targets.len()
            invariant
                index <= self.background_targets@.len(),
                slots@ == self@.background_slots().take(index as int),
            decreases self.background_targets@.len() - index,
        {
            let target = &self.background_targets[index];
            slots.push(
                BrowserTargetSlotProjection {
                    handle: target.handle.copy(),
                    page_instance: target.slot.page_instance,
                    session_storage: target.slot.session_storage,
                },
            );
            assert(slots@ =~= self@.background_slots().take(index + 1));
            index = index + 1;
        }
        assert(self@.background_slots().take(index as int) =~= self@.background_slots());
        slots
    }

    /// The slots with their Targets, the one in front first.
    pub fn target_slots(&self) -> (slots: Vec<BrowserTargetSlotProjection>)
        ensures
            slots@ == self@.slots(),
    {
        let mut slots: Vec<BrowserTargetSlotProjection> = Vec::new();
        if let Some(slot) = self.active_slot_projection() {
            slots.push(slot);
        }
        let mut behind = self.background_slot_projections();
        slots.append(&mut behind);
        assert(slots@ =~= self@.slots());
        slots
    }

    /// What Browser Core is told of the slots.
    pub fn browser_target_topology_projection(&self) -> (topology: BrowserTargetTopologyProjection)
        ensures
            topology.browser_context_id == self@.id,
            topology.active == self@.active_slot(),
            topology.background@ == self@.background_slots(),
    {
        BrowserTargetTopologyProjection {
            browser_context_id: self.id.clone(),
            active: self.active_slot_projection(),
            background: self.background_slot_projections(),
        }
    }

    /// Gives a Target the store that Browser Core keeps for it.
    pub fn bind_target_session_storage_access(&mut self, target_id: &str, store: u64) -> (bound:
        bool)
        ensures
            bound == old(self)@.has_target(target_id@),
            final(self)@ == old(self)@.with_store(target_id@, store),
    {
        if self.is_active_target(target_id) {
            self.active_target.slot.session_storage = store;
            return true;
        }
        match self.background_position(target_id) {
            Some(index) => {
                let ghost before = self.background_targets@;
                let mut target = self.background_targets.remove(index);
                target.slot.session_storage = store;
                self.background_targets.insert(index, target);
                assert(self.background_targets@ =~= before.update(index as int, target));
                true
            },
            None => false,
        }
    }

    /// Where the first slot behind of a Target is.
    pub fn background_position(&self, target_id: &str) -> (position: Option<usize>)
        ensures
            match position {
                Some(position) => {
                    &&& self@.background_index(target_id@) == Some(position as nat)
                    &&& position < self@.background.len()
                    &&& self@.background[position as int].handle.target_id@ == target_id@
                },
                None => self@.background_index(target_id@) is None,
            },
    {
        let mut index: usize = 0;
        while index < self.background_targets.len()
            invariant
                index <= self.background_targets@.len(),
                self@.background_index(target_id@) == self@.background_from(
                    target_id@,
                    index as nat,
                ),
            decreases self.background_targets@.len() - index,
        {
            if self.background_targets[index].is_target(target_id) {
                return Some(index);
            }
            index = index + 1;
        }
        None
    }

    /// Whether a slot holds the Target.
    pub fn has_target(&self, target_id: &str) -> (found: bool)
        ensures
            found == self@.has_target(target_id@),
    {
        self.is_active_target(target_id) || self.background_position(target_id).is_some()
    }

    /// Whether a worker of the context is called `target_id`.
    pub fn has_worker_target(&self, target_id: &str) -> (found: bool)
        ensures
            found == self@.has_worker(target_id@),
    {
        let mut index: usize = 0;
        while index < self.worker_targets.len()
            invariant
                index <= self.worker_targets@.len(),
                forall|earlier: int|
                    0 <= earlier < index ==> (#[trigger] self.worker_targets@[earlier]).target_id@
                        != target_id@,
            decreases self.worker_targets@.len() - index,
        {
            if same_text(self.worker_targets[index].target_id.as_str(), target_id) {
                assert(self@.workers[index as int].target_id@ == target_id@);
                return true;
            }
            index = index + 1;
        }
        false
    }

    /// The last slot behind that may come to the front.
    pub fn last_promotable_background_target_id(&self) -> (id: Option<String>)
        ensures
            match self@.last_promotable(self@.background.len()) {
                Some(index) => id == Some(self@.background[index as int].handle.target_id),
                None => id is None,
            },
    {
        let mut index: usize = self.background_targets.len();
        while index > 0
            invariant
                index <= self.background_targets@.len(),
                self@.last_promotable(self@.background.len()) == self@.last_promotable(
                    index as nat,
                ),
            decreases index,
        {
            index = index - 1;
            if self.background_targets[index].promotable {
                return Some(self.background_targets[index].handle.target_id.clone());
            }
        }
        None
    }
}

} // verus!
