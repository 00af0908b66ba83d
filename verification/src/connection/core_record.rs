//! What Browser Core reports of its registries, as plain values.
//!
//! Browser Core is the authority on which contexts, Targets and Pages exist.
//! The connection holds its physical slots against this record. With each
//! change that Core commits, it hands back the record as it then stands.
use vstd::prelude::*;

use crate::facts::types::DocumentNavigationToken;
use crate::text::same_text;

verus! {

/// The exact identity of one BrowserContext: a context that is closed and made
/// again under its old name is another instance.
pub struct BrowserContextHandle {
    pub browser_context_id: String,
    pub instance: u64,
}

/// The exact identity of one Target.
pub struct BrowserTargetHandle {
    pub target_id: String,
    pub instance: u64,
}

/// The place that holds a Target's Page, and which Page it holds.
#[derive(Clone, Copy, Debug, PartialEq, Eq, Structural)]
pub struct PageResidence {
    /// The place.
    pub instance: u64,
    /// Counts the Pages that the place has held.
    pub generation: u64,
}

/// One registered BrowserContext.
pub struct CoreContext {
    pub handle: BrowserContextHandle,
    pub active_target_id: Option<String>,
}

/// The cross-document requests of one Target.
pub struct CoreNavigation {
    /// The request that waits for its commit.
    pub pending: Option<DocumentNavigationToken>,
    /// The request that the shown Document came from.
    pub committed: Option<DocumentNavigationToken>,
    /// The request whose body may still complete.
    pub body: Option<DocumentNavigationToken>,
    /// The loader of the shown Document.
    pub current_loader_id: Option<String>,
    /// The loader of the empty Document that a new Target shows.
    pub initial_loader_id: Option<String>,
}

/// One registered Target.
pub struct CoreTarget {
    pub handle: BrowserTargetHandle,
    pub browser_context_id: String,
    pub page: PageResidence,
    pub navigation: CoreNavigation,
}

/// Browser Core's registries.
pub struct BrowserCoreRecord {
    /// Which browser this is.
    pub browser_instance: u64,
    pub contexts: Vec<CoreContext>,
    pub selected_browser_context_id: Option<String>,
    pub targets: Vec<CoreTarget>,
}

impl BrowserContextHandle {
    /// Whether both name the same instance.
    pub open spec fn same(&self, other: &BrowserContextHandle) -> bool {
        self.browser_context_id@ == other.browser_context_id@ && self.instance == other.instance
    }

    pub fn is_same(&self, other: &BrowserContextHandle) -> (same: bool)
        ensures
            same == self.same(other),
    {
        same_text(self.browser_context_id.as_str(), other.browser_context_id.as_str())
            && self.instance == other.instance
    }

    pub fn copy(&self) -> (copy: BrowserContextHandle)
        ensures
            copy == *self,
    {
        BrowserContextHandle {
            browser_context_id: self.browser_context_id.clone(),
            instance: self.instance,
        }
    }
}

impl BrowserTargetHandle {
    /// Whether both name the same instance.
    pub open spec fn same(&self, other: &BrowserTargetHandle) -> bool {
        self.target_id@ == other.target_id@ && self.instance == other.instance
    }

    pub fn is_same(&self, other: &BrowserTargetHandle) -> (same: bool)
        ensures
            same == self.same(other),
    {
        same_text(self.target_id.as_str(), other.target_id.as_str()) && self.instance
            == other.instance
    }

    pub fn copy(&self) -> (copy: BrowserTargetHandle)
        ensures
            copy == *self,
    {
        BrowserTargetHandle { target_id: self.target_id.clone(), instance: self.instance }
    }
}

impl BrowserCoreRecord {
    /// Whether context `index` is registered as `id`.
    pub open spec fn context_is(&self, index: int, id: Seq<char>) -> bool {
        0 <= index < self.contexts@.len() && self.contexts@[index].handle.browser_context_id@ == id
    }

    /// Whether a context is registered as `id`.
    pub open spec fn has_context(&self, id: Seq<char>) -> bool {
        exists|index: int| self.context_is(index, id)
    }

    /// The first context registered as `id`.
    pub open spec fn context_index(&self, id: Seq<char>) -> int {
        choose|index: int|
            self.context_is(index, id) && forall|earlier: int|
                0 <= earlier < index ==> !#[trigger] self.context_is(earlier, id)
    }

    /// Whether `handle` names a registered context's exact instance.
    pub open spec fn context_handle_current(&self, handle: BrowserContextHandle) -> bool {
        exists|index: int|
            0 <= index < self.contexts@.len() && (#[trigger] self.contexts@[index]).handle.same(
                &handle,
            )
    }

    /// Whether Target `index` is registered as `id`.
    pub open spec fn target_is(&self, index: int, id: Seq<char>) -> bool {
        0 <= index < self.targets@.len() && self.targets@[index].handle.target_id@ == id
    }

    /// The first Target registered as `id`.
    pub open spec fn target_index(&self, id: Seq<char>) -> Option<int> {
        if exists|index: int| self.target_is(index, id) {
            Some(
                choose|index: int|
                    self.target_is(index, id) && forall|earlier: int|
                        0 <= earlier < index ==> !#[trigger] self.target_is(earlier, id),
            )
        } else {
            None
        }
    }

    /// The context of the Target registered as `id`.
    pub open spec fn target_context(&self, id: Seq<char>) -> Option<Seq<char>> {
        match self.target_index(id) {
            Some(index) => Some(self.targets@[index].browser_context_id@),
            None => None,
        }
    }

    /// Whether `handle` names a registered Target's exact instance.
    pub open spec fn target_handle_current(&self, handle: BrowserTargetHandle) -> bool {
        exists|index: int|
            0 <= index < self.targets@.len() && (#[trigger] self.targets@[index]).handle.same(
                &handle,
            )
    }

    /// The Page of a Target of a context.
    pub open spec fn page_of(&self, context: Seq<char>, target: Seq<char>) -> Option<
        PageResidence,
    > {
        match self.target_index(target) {
            Some(index) => if self.targets@[index].browser_context_id@ == context {
                Some(self.targets@[index].page)
            } else {
                None
            },
            None => None,
        }
    }

    /// Whether the place `instance` holds the Page of that Target.
    pub open spec fn page_current(
        &self,
        context: Seq<char>,
        target: Seq<char>,
        instance: u64,
    ) -> bool {
        self.page_of(context, target) matches Some(page) && page.instance == instance
    }

    /// The requests of a Target of a context.
    pub open spec fn navigation_of(&self, context: Seq<char>, target: Seq<char>) -> Option<
        CoreNavigation,
    > {
        match self.target_index(target) {
            Some(index) => if self.targets@[index].browser_context_id@ == context {
                Some(self.targets@[index].navigation)
            } else {
                None
            },
            None => None,
        }
    }

    /// The active Target of the context registered as `id`.
    pub open spec fn active_target(&self, id: Seq<char>) -> Option<Seq<char>> {
        if self.has_context(id) {
            crate::text::opt_chars(self.contexts@[self.context_index(id)].active_target_id)
        } else {
            None
        }
    }

    /// How many Targets a context has, counting from the first `count` on.
    pub open spec fn targets_of(&self, context: Seq<char>, count: nat) -> nat
        decreases count,
    {
        if count == 0 {
            0
        } else {
            let rest = self.targets_of(context, (count - 1) as nat);
            if self.targets@[count - 1].browser_context_id@ == context {
                rest + 1
            } else {
                rest
            }
        }
    }

    /// How many Targets a context has.
    pub open spec fn context_target_count(&self, context: Seq<char>) -> nat {
        self.targets_of(context, self.targets@.len())
    }

    proof fn lemma_first_context(&self, id: Seq<char>, index: int)
        requires
            self.context_is(index, id),
            forall|earlier: int| 0 <= earlier < index ==> !#[trigger] self.context_is(earlier, id),
        ensures
            self.has_context(id),
            self.context_index(id) == index,
    {
        let chosen = self.context_index(id);
        assert(self.context_is(chosen, id) && forall|earlier: int|
            0 <= earlier < chosen ==> !#[trigger] self.context_is(earlier, id));
        if chosen < index {
            assert(!self.context_is(chosen, id));
        } else if index < chosen {
            assert(!self.context_is(index, id));
        }
    }

    pub proof fn lemma_first_target(&self, id: Seq<char>, index: int)
        requires
            self.target_is(index, id),
            forall|earlier: int| 0 <= earlier < index ==> !#[trigger] self.target_is(earlier, id),
        ensures
            self.target_index(id) == Some(index),
    {
        let chosen = choose|chosen: int|
            self.target_is(chosen, id) && forall|earlier: int|
                0 <= earlier < chosen ==> !#[trigger] self.target_is(earlier, id);
        assert(self.target_is(chosen, id) && forall|earlier: int|
            0 <= earlier < chosen ==> !#[trigger] self.target_is(earlier, id));
        if chosen < index {
            assert(!self.target_is(chosen, id));
        } else if index < chosen {
            assert(!self.target_is(index, id));
        }
    }

    pub fn new(browser_instance: u64) -> (record: BrowserCoreRecord)
        ensures
            record.browser_instance == browser_instance,
            record.contexts@ == Seq::<CoreContext>::empty(),
            record.selected_browser_context_id is None,
            record.targets@ == Seq::<CoreTarget>::empty(),
    {
        BrowserCoreRecord {
            browser_instance,
            contexts: Vec::new(),
            selected_browser_context_id: None,
            targets: Vec::new(),
        }
    }

    fn context_position(&self, id: &str) -> (found: Option<usize>)
        ensures
            found is Some <==> self.has_context(id@),
            found matches Some(index) ==> index < self.contexts@.len() && self.context_index(id@)
                == index,
    {
        let mut index: usize = 0;
        while index < self.contexts.len()
            invariant
                index <= self.contexts@.len(),
                forall|earlier: int|
                    0 <= earlier < index ==> !#[trigger] self.context_is(earlier, id@),
            decreases self.contexts@.len() - index,
        {
            if same_text(self.contexts[index].handle.browser_context_id.as_str(), id) {
                proof {
                    assert(self.context_is(index as int, id@));
                    self.lemma_first_context(id@, index as int);
                }
                return Some(index);
            }
            index = index + 1;
        }
        None
    }

    pub fn has_browser_context(&self, id: &str) -> (found: bool)
        ensures
            found == self.has_context(id@),
    {
        self.context_position(id).is_some()
    }

    pub fn browser_context_handle_is_current(&self, handle: &BrowserContextHandle) -> (current:
        bool)
        ensures
            current == self.context_handle_current(*handle),
    {
        let mut index: usize = 0;
        while index < self.contexts.len()
            invariant
                index <= self.contexts@.len(),
                forall|earlier: int|
                    0 <= earlier < index ==> !(#[trigger] self.contexts@[earlier]).handle.same(
                        handle,
                    ),
            decreases self.contexts@.len() - index,
        {
            if self.contexts[index].handle.is_same(handle) {
                return true;
            }
            index = index + 1;
        }
        false
    }

    pub fn selected_browser_context_id(&self) -> (id: Option<&str>)
        ensures
            crate::text::opt_str_chars(id) == crate::text::opt_chars(
                self.selected_browser_context_id,
            ),
    {
        crate::text::opt_as_str(&self.selected_browser_context_id)
    }

    pub fn active_target_id_for_browser_context(&self, id: &str) -> (target: Option<&str>)
        ensures
            crate::text::opt_str_chars(target) == self.active_target(id@),
    {
        match self.context_position(id) {
            Some(index) => crate::text::opt_as_str(&self.contexts[index].active_target_id),
            None => None,
        }
    }

    pub fn browser_context_target_count(&self, id: &str) -> (count: usize)
        ensures
            count == self.context_target_count(id@),
    {
        let mut index: usize = 0;
        let mut count: usize = 0;
        while index < self.targets.len()
            invariant
                index <= self.targets@.len(),
                count <= index,
                count == self.targets_of(id@, index as nat),
            decreases self.targets@.len() - index,
        {
            if same_text(self.targets[index].browser_context_id.as_str(), id) {
                count = count + 1;
            }
            index = index + 1;
        }
        count
    }

    fn target_position(&self, id: &str) -> (found: Option<usize>)
        ensures
            found is Some <==> self.target_index(id@) is Some,
            found matches Some(index) ==> index < self.targets@.len() && self.target_index(id@)
                == Some(index as int) && self.target_is(index as int, id@),
    {
        let mut index: usize = 0;
        while index < self.targets.len()
            invariant
                index <= self.targets@.len(),
                forall|earlier: int|
                    0 <= earlier < index ==> !#[trigger] self.target_is(earlier, id@),
            decreases self.targets@.len() - index,
        {
            if same_text(self.targets[index].handle.target_id.as_str(), id) {
                proof {
                    assert(self.target_is(index as int, id@));
                    self.lemma_first_target(id@, index as int);
                }
                return Some(index);
            }
            index = index + 1;
        }
        None
    }

    pub fn target_browser_context_id(&self, id: &str) -> (context: Option<&str>)
        ensures
            crate::text::opt_str_chars(context) == self.target_context(id@),
    {
        match self.target_position(id) {
            Some(index) => Some(self.targets[index].browser_context_id.as_str()),
            None => None,
        }
    }

    pub fn has_target(&self, id: &str) -> (found: bool)
        ensures
            found == (self.target_index(id@) is Some),
    {
        self.target_position(id).is_some()
    }

    pub fn target_handle_is_current(&self, handle: &BrowserTargetHandle) -> (current: bool)
        ensures
            current == self.target_handle_current(*handle),
    {
        let mut index: usize = 0;
        while index < self.targets.len()
            invariant
                index <= self.targets@.len(),
                forall|earlier: int|
                    0 <= earlier < index ==> !(#[trigger] self.targets@[earlier]).handle.same(
                        handle,
                    ),
            decreases self.targets@.len() - index,
        {
            if self.targets[index].handle.is_same(handle) {
                return true;
            }
            index = index + 1;
        }
        false
    }

    pub fn capture_page_residence(&self, context: &str, target: &str) -> (page: Option<
        PageResidence,
    >)
        ensures
            page == self.page_of(context@, target@),
    {
        match self.target_position(target) {
            Some(index) => if same_text(self.targets[index].browser_context_id.as_str(), context) {
                Some(self.targets[index].page)
            } else {
                None
            },
            None => None,
        }
    }

    pub fn navigation(&self, context: &str, target: &str) -> (navigation: Option<&CoreNavigation>)
        ensures
            match navigation {
                Some(navigation) => self.navigation_of(context@, target@) == Some(*navigation),
                None => self.navigation_of(context@, target@) is None,
            },
    {
        match self.target_position(target) {
            Some(index) => if same_text(self.targets[index].browser_context_id.as_str(), context) {
                Some(&self.targets[index].navigation)
            } else {
                None
            },
            None => None,
        }
    }

    pub fn page_residence_is_current(&self, context: &str, target: &str, instance: u64) -> (current:
        bool)
        ensures
            current == self.page_current(context@, target@, instance),
    {
        match self.capture_page_residence(context, target) {
            Some(page) => page.instance == instance,
            None => false,
        }
    }
}

} // verus!
