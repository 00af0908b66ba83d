//! Which Target a session speaks of.
use vstd::prelude::*;

use crate::connection::slots::{BrowserContext, ContextModel};
use crate::connection::state::{CdpConnection, ConnectionModel};
use crate::text;
use crate::text::{opt_as_str, same_opt_text, same_text};

verus! {

/// A Target of a context, by their names.
pub struct BrowserPageOwnerKey {
    pub browser_context_id: String,
    pub target_id: String,
}

/// What a session speaks of.
pub struct CdpSessionRoute {
    /// The context, where the session speaks of one.
    pub browser_context_id: Option<String>,
}

impl ContextModel {
    /// The first slot behind, from `from` on, that a session is attached to.
    pub open spec fn background_session_from(self, session: Seq<char>, from: nat) -> Option<nat>
        decreases self.background.len() - from,
    {
        if from >= self.background.len() {
            None
        } else if text::opt_chars(self.background[from as int].session_id) == Some(session) {
            Some(from)
        } else {
            self.background_session_from(session, from + 1)
        }
    }

    /// The first further session, from `from` on, of that name.
    pub open spec fn auxiliary_from(self, session: Seq<char>, from: nat) -> Option<nat>
        decreases self.auxiliary.len() - from,
    {
        if from >= self.auxiliary.len() {
            None
        } else if self.auxiliary[from as int].session_id@ == session {
            Some(from)
        } else {
            self.auxiliary_from(session, from + 1)
        }
    }

    /// The Target that a session is attached to: the one in front, then those
    /// behind, then the further sessions.
    pub open spec fn session_target(self, session: Seq<char>) -> Option<String> {
        if text::opt_chars(self.active.session_id) == Some(session) && self.active.handle is Some {
            Some(self.active.handle->Some_0.target_id)
        } else {
            match self.background_session_from(session, 0) {
                Some(index) => Some(self.background[index as int].handle.target_id),
                None => match self.auxiliary_from(session, 0) {
                    Some(index) => Some(self.auxiliary[index as int].target_id),
                    None => None,
                },
            }
        }
    }
}

/// The Target that a session is attached to, in the first context from `from`
/// on that knows the session.
pub open spec fn owner_from(contexts: Seq<ContextModel>, session: Seq<char>, from: nat) -> Option<
    BrowserPageOwnerKey,
>
    decreases contexts.len() - from,
{
    if from >= contexts.len() {
        None
    } else {
        match contexts[from as int].session_target(session) {
            Some(target_id) => Some(
                BrowserPageOwnerKey { browser_context_id: contexts[from as int].id, target_id },
            ),
            None => owner_from(contexts, session, from + 1),
        }
    }
}

/// The first context from `from` on with a slot that holds the Target.
pub open spec fn holder_from(contexts: Seq<ContextModel>, target: Seq<char>, from: nat) -> Option<
    nat,
>
    decreases contexts.len() - from,
{
    if from >= contexts.len() {
        None
    } else if contexts[from as int].has_target(target) {
        Some(from)
    } else {
        holder_from(contexts, target, from + 1)
    }
}

impl ConnectionModel {
    /// The Target that a session speaks of. Without a session it is the one in
    /// front of the selected context.
    pub open spec fn session_owner(self, session: Option<Seq<char>>) -> Option<
        BrowserPageOwnerKey,
    > {
        match session {
            Some(session) => owner_from(self.contexts(), session, 0),
            None => match self.selected {
                Some(context) => match context.active.handle {
                    Some(handle) => Some(
                        BrowserPageOwnerKey {
                            browser_context_id: context.id,
                            target_id: handle.target_id,
                        },
                    ),
                    None => None,
                },
                None => None,
            },
        }
    }

    /// The context that holds a Target.
    pub open spec fn target_holder(self, target: Seq<char>) -> Option<String> {
        match holder_from(self.contexts(), target, 0) {
            Some(index) => Some(self.contexts()[index as int].id),
            None => None,
        }
    }

    /// Whether a session speaks of the browser as a whole.
    pub open spec fn is_browser_session(self, session: Seq<char>) -> bool {
        exists|index: int|
            0 <= index < self.browser_sessions.len() && (
            #[trigger] self.browser_sessions[index])@ == session
    }

    /// What a session speaks of.
    pub open spec fn session_route(self, session: Seq<char>) -> Option<CdpSessionRoute> {
        if self.is_browser_session(session) {
            Some(CdpSessionRoute { browser_context_id: None })
        } else {
            match self.session_owner(Some(session)) {
                Some(owner) => Some(
                    CdpSessionRoute { browser_context_id: Some(owner.browser_context_id) },
                ),
                None => None,
            }
        }
    }
}

impl BrowserContext {
    /// The Target that a session is attached to.
    pub fn session_target(&self, session: &str) -> (target: Option<String>)
        ensures
            target == self@.session_target(session@),
    {
        if same_opt_text(opt_as_str(&self.active_target.session_id), Some(session)) {
            if let Some(handle) = &self.active_target.handle {
                return Some(handle.target_id.clone());
            }
        }
        let mut index: usize = 0;
        while index < self.background_targets.len()
            invariant
                index <= self.background_targets@.len(),
                !(text::opt_chars(self@.active.session_id) == Some(session@)
                    && self@.active.handle is Some),
                self@.background_session_from(session@, 0) == self@.background_session_from(
                    session@,
                    index as nat,
                ),
            decreases self.background_targets@.len() - index,
        {
            if same_opt_text(opt_as_str(&self.background_targets[index].session_id), Some(session)) {
                return Some(self.background_targets[index].handle.target_id.clone());
            }
            index = index + 1;
        }
        let mut index: usize = 0;
        while index < self.auxiliary_sessions.len()
            invariant
                index <= self.auxiliary_sessions@.len(),
                !(text::opt_chars(self@.active.session_id) == Some(session@)
                    && self@.active.handle is Some),
                self@.background_session_from(session@, 0) is None,
                self@.auxiliary_from(session@, 0) == self@.auxiliary_from(
                    session@,
                    index as nat,
                ),
            decreases self.auxiliary_sessions@.len() - index,
        {
            if same_text(self.auxiliary_sessions[index].session_id.as_str(), session) {
                return Some(self.auxiliary_sessions[index].target_id.clone());
            }
            index = index + 1;
        }
        None
    }
}

impl CdpConnection {
    /// The Target that a session speaks of. Without a session it is the one in
    /// front of the selected context.
    pub fn target_page_owner_key_for_session(&self, session_id: Option<&str>) -> (owner: Option<
        BrowserPageOwnerKey,
    >)
        ensures
            owner == self@.session_owner(text::opt_str_chars(session_id)),
    {
        let session = match session_id {
            Some(session) => session,
            None => {
                if let Some(context) = &self.browser_context {
                    if let Some(handle) = &context.active_target.handle {
                        return Some(
                            BrowserPageOwnerKey {
                                browser_context_id: context.id.clone(),
                                target_id: handle.target_id.clone(),
                            },
                        );
                    }
                }
                return None;
            },
        };
        let contexts = self.browser_contexts();
        let mut index: usize = 0;
        while index < contexts.len()
            invariant
                index <= contexts@.len(),
                text::opt_str_chars(session_id) == Some(session@),
                contexts@.len() == self@.contexts().len(),
                forall|at: int|
                    0 <= at < contexts@.len() ==> (#[trigger] contexts@[at])@
                        == self@.contexts()[at],
                owner_from(self@.contexts(), session@, 0) == owner_from(
                    self@.contexts(),
                    session@,
                    index as nat,
                ),
            decreases contexts@.len() - index,
        {
            let context = contexts[index];
            assert(context@ == self@.contexts()[index as int]);
            if let Some(target_id) = context.session_target(session) {
                return Some(
                    BrowserPageOwnerKey { browser_context_id: context.id.clone(), target_id },
                );
            }
            index = index + 1;
        }
        None
    }

    /// The context that holds a Target.
    pub fn target_holder(&self, target_id: &str) -> (id: Option<String>)
        ensures
            id == self@.target_holder(target_id@),
    {
        let contexts = self.browser_contexts();
        let mut index: usize = 0;
        while index < contexts.len()
            invariant
                index <= contexts@.len(),
                contexts@.len() == self@.contexts().len(),
                forall|at: int|
                    0 <= at < contexts@.len() ==> (#[trigger] contexts@[at])@
                        == self@.contexts()[at],
                holder_from(self@.contexts(), target_id@, 0) == holder_from(
                    self@.contexts(),
                    target_id@,
                    index as nat,
                ),
            decreases contexts@.len() - index,
        {
            let context = contexts[index];
            assert(context@ == self@.contexts()[index as int]);
            if context.has_target(target_id) {
                return Some(context.id.clone());
            }
            index = index + 1;
        }
        None
    }

    /// What a session speaks of.
    pub fn session_route(&self, session_id: &str) -> (route: Option<CdpSessionRoute>)
        ensures
            route == self@.session_route(session_id@),
    {
        let mut index: usize = 0;
        while index < self.browser_sessions.len()
            invariant
                index <= self.browser_sessions@.len(),
                forall|earlier: int|
                    0 <= earlier < index ==> (#[trigger] self.browser_sessions@[earlier])@
                        != session_id@,
            decreases self.browser_sessions@.len() - index,
        {
            if same_text(self.browser_sessions[index].as_str(), session_id) {
                assert(self@.browser_sessions[index as int]@ == session_id@);
                return Some(CdpSessionRoute { browser_context_id: None });
            }
            index = index + 1;
        }
        match self.target_page_owner_key_for_session(Some(session_id)) {
            Some(owner) => Some(
                CdpSessionRoute { browser_context_id: Some(owner.browser_context_id) },
            ),
            None => None,
        }
    }
}

} // verus!
