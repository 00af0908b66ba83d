//! Selecting, adding and disposing of contexts on behalf of a frontend.
use vstd::prelude::*;

use crate::connection::contexts;
use crate::connection::contexts::{
    BrowserContextDisposalReservation, BrowserContextRemovalPermit, Changed, ContextRegistration,
    ContextRemoval, CoreCommit, ProjectedBrowserContextRemoval, RemovedContext,
};
use crate::connection::errors::{
    BrowserContextProjectionError, BrowserContextRegistryError, BrowserContextRuntimeRegistryError,
    ContextRefusal,
};
use crate::connection::slots::{BrowserContext, ContextModel};
use crate::connection::state;
use crate::connection::state::{CdpConnection, ConnectionEffect, ConnectionModel};

verus! {

/// The connection with `more` left to do.
pub open spec fn with_effects(model: ConnectionModel, more: Seq<ConnectionEffect>) -> ConnectionModel {
    ConnectionModel { effects: model.effects + more, ..model }
}

/// Activates a context; a change of the selection renews the engine.
pub open spec fn try_activate(
    model: ConnectionModel,
    id: Seq<char>,
    answer: Result<CoreCommit<bool>, BrowserContextRegistryError>,
) -> Changed<bool, ContextRefusal> {
    let changed = contexts::activate(model, id, answer);
    if changed.result == Ok::<bool, ContextRefusal>(true) {
        Changed {
            model: with_effects(
                changed.model,
                seq![ConnectionEffect::ApplyFetchOverrides, ConnectionEffect::InvalidateResourceRuntime],
            ),
            result: changed.result,
        }
    } else {
        changed
    }
}

/// Registers a context; the engine takes over where the context is selected.
pub open spec fn try_insert(
    model: ConnectionModel,
    context: ContextModel,
    answer: Result<CoreCommit<ContextRegistration>, BrowserContextRuntimeRegistryError>,
) -> Changed<(), ContextRefusal> {
    let changed = contexts::register(model, context, answer);
    match changed.result {
        Err(refusal) => Changed { model: changed.model, result: Err(refusal) },
        Ok(selected) => Changed {
            model: if selected {
                with_effects(changed.model, seq![ConnectionEffect::ApplyFetchOverrides])
            } else {
                changed.model
            },
            result: Ok(()),
        },
    }
}

/// Removes a context that Browser Core promised to remove; a change of the
/// selection renews the engine.
pub open spec fn dispose(
    model: ConnectionModel,
    reservation: BrowserContextDisposalReservation,
    permit: Result<BrowserContextRemovalPermit, BrowserContextRegistryError>,
    answer: Result<CoreCommit<ContextRemoval>, BrowserContextRuntimeRegistryError>,
) -> Changed<RemovedContext, ContextRefusal> {
    let changed = contexts::request_removal(
        model,
        reservation.handle.browser_context_id@,
        Some(reservation.handle),
        permit,
        answer,
    );
    match changed.result {
        Err(_) => changed,
        Ok(removed) => if removed.selection_changed {
            Changed {
                model: with_effects(
                    changed.model,
                    seq![
                        ConnectionEffect::InvalidateResourceRuntime,
                        ConnectionEffect::ApplyFetchOverrides,
                    ],
                ),
                result: changed.result,
            }
        } else {
            changed
        },
    }
}

/// The first context from `from` on with a worker called `target`.
pub open spec fn worker_context_from(
    contexts: Seq<ContextModel>,
    target: Seq<char>,
    from: nat,
) -> Option<nat>
    decreases contexts.len() - from,
{
    if from >= contexts.len() {
        None
    } else if contexts[from as int].has_worker(target) {
        Some(from)
    } else {
        worker_context_from(contexts, target, from + 1)
    }
}

/// The context that a Target belongs to: the one that Browser Core reports, or
/// else the first one that runs it as a worker.
pub open spec fn context_of_target(model: ConnectionModel, target: Seq<char>) -> Option<Seq<char>> {
    match model.core.target_context(target) {
        Some(id) => Some(id),
        None => match worker_context_from(model.contexts(), target, 0) {
            Some(index) => Some(model.contexts()[index as int].id@),
            None => None,
        },
    }
}

/// Whether `picked` is the first of the contexts that `matches` accepts.
pub open spec fn picks<F: Fn(&BrowserContext) -> bool>(
    matches: F,
    contexts: Seq<BrowserContext>,
    picked: Option<int>,
) -> bool {
    match picked {
        Some(index) => {
            &&& 0 <= index < contexts.len()
            &&& matches.ensures((&contexts[index],), true)
            &&& forall|earlier: int|
                0 <= earlier < index ==> matches.ensures((&#[trigger] contexts[earlier],), false)
        },
        None => forall|index: int|
            0 <= index < contexts.len() ==> matches.ensures((&#[trigger] contexts[index],), false),
    }
}

impl CdpConnection {
    /// All contexts, the selected one first.
    pub open spec fn listed(&self) -> Seq<BrowserContext> {
        match self.browser_context {
            Some(context) => seq![context] + self.inactive_browser_contexts@,
            None => self.inactive_browser_contexts@,
        }
    }

    /// Activates a context, given what Browser Core answered.
    pub fn try_activate_browser_context_by_id(
        &mut self,
        browser_context_id: &str,
        answer: Result<CoreCommit<bool>, BrowserContextRegistryError>,
    ) -> (activated: Result<bool, BrowserContextProjectionError>)
        requires
            old(self).wf(),
        ensures
            final(self).wf(),
            try_activate(old(self)@, browser_context_id@, answer) == (Changed {
                model: final(self)@,
                result: match activated {
                    Ok(changed) => Ok::<bool, ContextRefusal>(changed),
                    Err(error) => Err(error@),
                },
            }),
    {
        match self.activate_browser_context_projection_by_id(browser_context_id, answer) {
            Ok(changed) => {
                if changed {
                    self.refresh_active_browser_context_loader();
                }
                Ok(changed)
            },
            Err(error) => Err(error),
        }
    }

    /// Has the active engine take the fetch overrides and the resource runtime
    /// made anew.
    pub fn refresh_active_browser_context_loader(&mut self)
        requires
            old(self).wf(),
        ensures
            final(self).wf(),
            final(self)@ == with_effects(
                old(self)@,
                seq![ConnectionEffect::ApplyFetchOverrides, ConnectionEffect::InvalidateResourceRuntime],
            ),
    {
        self.effects.push(ConnectionEffect::ApplyFetchOverrides);
        self.effects.push(ConnectionEffect::InvalidateResourceRuntime);
        assert(self@ =~= with_effects(
            old(self)@,
            seq![ConnectionEffect::ApplyFetchOverrides, ConnectionEffect::InvalidateResourceRuntime],
        ));
    }

    /// Activates a context, given what Browser Core answered, and says whether
    /// it is active now.
    pub fn activate_browser_context_by_id(
        &mut self,
        browser_context_id: &str,
        answer: Result<CoreCommit<bool>, BrowserContextRegistryError>,
    ) -> (active: bool)
        requires
            old(self).wf(),
        ensures
            final(self).wf(),
            final(self)@ == try_activate(old(self)@, browser_context_id@, answer).model,
            active == (try_activate(old(self)@, browser_context_id@, answer).result is Ok),
    {
        self.try_activate_browser_context_by_id(browser_context_id, answer).is_ok()
    }

    /// Activates the context that a session speaks of, given what Browser Core
    /// answered. A session of the whole browser needs no context.
    pub fn activate_browser_context_for_session(
        &mut self,
        session_id: &str,
        answer: Result<CoreCommit<bool>, BrowserContextRegistryError>,
    ) -> (active: bool)
        requires
            old(self).wf(),
        ensures
            final(self).wf(),
            match old(self)@.session_route(session_id@) {
                None => !active && final(self)@ == old(self)@,
                Some(route) => match route.browser_context_id {
                    None => active && final(self)@ == old(self)@,
                    Some(id) => {
                        &&& final(self)@ == try_activate(old(self)@, id@, answer).model
                        &&& active == (try_activate(old(self)@, id@, answer).result is Ok)
                    },
                },
            },
    {
        match self.session_route(session_id) {
            None => false,
            Some(route) => match route.browser_context_id {
                None => true,
                Some(id) => self.activate_browser_context_by_id(id.as_str(), answer),
            },
        }
    }

    /// Activates the context of a Target, given what Browser Core answered. A
    /// Target that Core does not know may be a worker of a context.
    pub fn activate_browser_context_for_target(
        &mut self,
        target_id: &str,
        answer: Result<CoreCommit<bool>, BrowserContextRegistryError>,
    ) -> (active: bool)
        requires
            old(self).wf(),
        ensures
            final(self).wf(),
            match context_of_target(old(self)@, target_id@) {
                None => !active && final(self)@ == old(self)@,
                Some(id) => {
                    &&& final(self)@ == try_activate(old(self)@, id, answer).model
                    &&& active == (try_activate(old(self)@, id, answer).result is Ok)
                },
            },
    {
        if let Some(id) = self.core.target_browser_context_id(target_id) {
            let id = id.to_owned();
            return self.activate_browser_context_by_id(id.as_str(), answer);
        }
        let matches = |context: &BrowserContext| -> (found: bool)
            ensures
                found == context@.has_worker(target_id@),
            { context.has_worker_target(target_id) };
        let ghost before = *self;
        let active = self.activate_matching_browser_context(matches, answer);
        proof {
            let picked = choose|picked: Option<int>|
                #[trigger] picks(matches, before.listed(), picked) && match picked {
                    None => !active && self@ == before@,
                    Some(index) => {
                        let id = before.listed()[index].id@;
                        &&& self@ == try_activate(before@, id, answer).model
                        &&& active == (try_activate(before@, id, answer).result is Ok)
                    },
                };
            lemma_listed(before);
            lemma_worker_picked(
                before@.contexts(),
                target_id@,
                0,
                match picked {
                    Some(index) => Some(index as nat),
                    None => None,
                },
            );
        }
        active
    }

    /// Activates the first context that `matches` accepts, given what Browser
    /// Core answered.
    pub fn activate_matching_browser_context<F: Fn(&BrowserContext) -> bool>(
        &mut self,
        matches: F,
        answer: Result<CoreCommit<bool>, BrowserContextRegistryError>,
    ) -> (active: bool)
        requires
            old(self).wf(),
            forall|context: &BrowserContext| #[trigger] matches.requires((context,)),
        ensures
            final(self).wf(),
            exists|picked: Option<int>|
                #[trigger] picks(matches, old(self).listed(), picked) && match picked {
                    None => !active && final(self)@ == old(self)@,
                    Some(index) => {
                        let id = old(self).listed()[index].id@;
                        &&& final(self)@ == try_activate(old(self)@, id, answer).model
                        &&& active == (try_activate(old(self)@, id, answer).result is Ok)
                    },
                },
    {
        let ghost before = *self;
        let ghost offset: int = if self.browser_context is Some {
            1
        } else {
            0
        };
        if let Some(context) = &self.browser_context {
            if matches(context) {
                let id = context.id.clone();
                let ghost picked = Some(0int);
                assert(picks(matches, before.listed(), picked));
                return self.activate_browser_context_by_id(id.as_str(), answer);
            }
        }
        let mut index: usize = 0;
        while index < self.inactive_browser_contexts.len()
            invariant
                *self == before,
                *self == *old(self),
                self.wf(),
                index <= self.inactive_browser_contexts@.len(),
                offset == (if self.browser_context is Some {
                    1int
                } else {
                    0int
                }),
                forall|context: &BrowserContext| #[trigger] matches.requires((context,)),
                forall|earlier: int|
                    0 <= earlier < offset + index ==> matches.ensures(
                        (&#[trigger] before.listed()[earlier],),
                        false,
                    ),
            decreases self.inactive_browser_contexts@.len() - index,
        {
            assert(before.listed()[offset + index]
                == self.inactive_browser_contexts@[index as int]);
            if matches(&self.inactive_browser_contexts[index]) {
                let id = self.inactive_browser_contexts[index].id.clone();
                let ghost picked = Some(offset + index);
                assert(picks(matches, before.listed(), picked));
                return self.activate_browser_context_by_id(id.as_str(), answer);
            }
            index = index + 1;
        }
        let ghost picked: Option<int> = None;
        assert(picks(matches, before.listed(), picked));
        false
    }

    /// Registers a context, given what Browser Core answered.
    pub fn try_insert_browser_context(
        &mut self,
        browser_context: BrowserContext,
        answer: Result<CoreCommit<ContextRegistration>, BrowserContextRuntimeRegistryError>,
    ) -> (inserted: Result<(), BrowserContextProjectionError>)
        requires
            old(self).wf(),
        ensures
            final(self).wf(),
            try_insert(old(self)@, browser_context@, answer) == (Changed {
                model: final(self)@,
                result: match inserted {
                    Ok(()) => Ok::<(), ContextRefusal>(()),
                    Err(error) => Err(error@),
                },
            }),
    {
        match self.register_browser_context_projection_with_metadata(browser_context, answer) {
            Ok(selected) => {
                if selected {
                    let ghost registered = self@;
                    self.effects.push(ConnectionEffect::ApplyFetchOverrides);
                    assert(self@ =~= with_effects(
                        registered,
                        seq![ConnectionEffect::ApplyFetchOverrides],
                    ));
                }
                Ok(())
            },
            Err(error) => Err(error),
        }
    }

    /// Registers a context, given what Browser Core answered. A context that
    /// is refused is dropped.
    pub fn insert_browser_context(
        &mut self,
        browser_context: BrowserContext,
        answer: Result<CoreCommit<ContextRegistration>, BrowserContextRuntimeRegistryError>,
    )
        requires
            old(self).wf(),
        ensures
            final(self).wf(),
            final(self)@ == try_insert(old(self)@, browser_context@, answer).model,
    {
        let _ = self.try_insert_browser_context(browser_context, answer);
    }

    /// Removes the exact context that Browser Core promised to remove.
    pub fn remove_browser_context_for_disposal(
        &mut self,
        reservation: &BrowserContextDisposalReservation,
        permit: Result<BrowserContextRemovalPermit, BrowserContextRegistryError>,
        answer: Result<CoreCommit<ContextRemoval>, BrowserContextRuntimeRegistryError>,
    ) -> (removed: Result<ProjectedBrowserContextRemoval, BrowserContextProjectionError>)
        requires
            old(self).wf(),
        ensures
            final(self).wf(),
            dispose(old(self)@, *reservation, permit, answer) == (Changed {
                model: final(self)@,
                result: match removed {
                    Ok(removal) => Ok::<RemovedContext, ContextRefusal>(removal@),
                    Err(error) => Err(error@),
                },
            }),
    {
        match self.remove_browser_context_projection_for_disposal(reservation, permit, answer) {
            Ok(removal) => {
                if removal.selection_changed {
                    let ghost removed = self@;
                    self.effects.push(ConnectionEffect::InvalidateResourceRuntime);
                    self.effects.push(ConnectionEffect::ApplyFetchOverrides);
                    assert(self@ =~= with_effects(
                        removed,
                        seq![
                            ConnectionEffect::InvalidateResourceRuntime,
                            ConnectionEffect::ApplyFetchOverrides,
                        ],
                    ));
                }
                Ok(removal)
            },
            Err(error) => Err(error),
        }
    }
}

proof fn lemma_listed(connection: CdpConnection)
    ensures
        connection@.contexts() =~= state::context_models(connection.listed()),
{
}

proof fn lemma_worker_picked(
    contexts: Seq<ContextModel>,
    target: Seq<char>,
    from: nat,
    picked: Option<nat>,
)
    requires
        picked matches Some(index) ==> from <= index < contexts.len()
            && contexts[index as int].has_worker(target) && forall|earlier: int|
            from <= earlier < index ==> !(#[trigger] contexts[earlier]).has_worker(target),
        picked is None ==> forall|index: int|
            from <= index < contexts.len() ==> !(#[trigger] contexts[index]).has_worker(target),
    ensures
        worker_context_from(contexts, target, from) == picked,
    decreases contexts.len() - from,
{
    if from < contexts.len() && !contexts[from as int].has_worker(target) {
        lemma_worker_picked(contexts, target, from + 1, picked);
    }
}

} // verus!
