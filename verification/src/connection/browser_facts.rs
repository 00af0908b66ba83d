//! The connection's dealings with the Browser facts.
use vstd::prelude::*;

use crate::connection::contexts;
use crate::connection::state::{CdpConnection, ConnectionModel};
use crate::facts::errors::BrowserFactProjectionError;
use crate::facts::model;
use crate::facts::model::{BrowserDocumentLifecycleFactProjection, Shown};
use crate::facts::projector;
use crate::facts::projector::BrowserTargetCreatedFactProjection;
use crate::facts::types::{
    BrowserFactEnvelope, CommittedRendererDocumentBinding, PageResidenceIdentity,
    RendererDocumentLifecycleEvent,
};
use crate::text;

verus! {

impl ConnectionModel {
    /// The Page of the Target that a session speaks of.
    pub open spec fn session_page(self, session: Option<Seq<char>>) -> Option<
        PageResidenceIdentity,
    > {
        match self.session_owner(session) {
            Some(owner) => contexts::page_identity(
                self.core,
                owner.browser_context_id,
                owner.target_id,
            ),
            None => None,
        }
    }
}

impl CdpConnection {
    /// Takes a fact that the journal delivered.
    pub fn deliver_browser_fact(&mut self, envelope: BrowserFactEnvelope)
        requires
            old(self).wf(),
        ensures
            final(self).wf(),
            final(self)@ == (ConnectionModel {
                facts: if old(self)@.facts.subscribed {
                    model::ProjectorModel {
                        inbox: old(self)@.facts.inbox.push(envelope),
                        ..old(self)@.facts
                    }
                } else {
                    old(self)@.facts
                },
                ..old(self)@
            }),
    {
        self.facts.deliver(envelope);
    }

    /// Freezes the facts that Browser Core published for a renderer's report
    /// to the attachment that the report came through. Core published nothing
    /// where it refused the report, or where no Page is current.
    pub fn record_authoritative_renderer_document_lifecycle_facts(
        &mut self,
        page: Option<&PageResidenceIdentity>,
        binding: Option<&CommittedRendererDocumentBinding>,
        events: &Vec<RendererDocumentLifecycleEvent>,
        published: Option<Vec<BrowserFactEnvelope>>,
    )
        requires
            old(self).wf(),
        ensures
            final(self).wf(),
            match (page, binding, published) {
                (Some(page), Some(binding), Some(published)) => if events@.len() > 0 {
                    final(self)@ == (ConnectionModel {
                        facts: model::register_links(
                            old(self)@.facts,
                            *page,
                            *binding,
                            published@,
                        ),
                        ..old(self)@
                    })
                } else {
                    final(self)@ == old(self)@
                },
                _ => final(self)@ == old(self)@,
            },
    {
        if events.len() == 0 {
            return;
        }
        if let (Some(page), Some(binding), Some(published)) = (page, binding, published) {
            let _ = self.facts.register_document_lifecycle_causal_links(page, binding, &published);
        }
    }

    /// Reads the facts up to a position that a wake announced.
    pub fn capture_browser_fact_wake(&mut self, through: u64) -> (captured: Result<
        (),
        BrowserFactProjectionError,
    >)
        requires
            old(self).wf(),
        ensures
            final(self).wf(),
            final(self)@ == (ConnectionModel {
                facts: model::capture_wake(old(self)@.facts, through),
                ..old(self)@
            }),
            projector::outcome(final(self)@.facts) == captured,
    {
        self.facts.capture_wake(through)
    }

    /// Whether a claimed creation is still that of the Target of that name. A
    /// Target that was closed and made again under its old name is another
    /// one.
    pub fn target_created_fact_matches_current_target(
        &self,
        projection: &BrowserTargetCreatedFactProjection,
    ) -> (matches: bool)
        ensures
            matches == (contexts::page_identity(
                self@.core,
                projection.envelope.browser_context_id,
                projection.envelope.target_id,
            ) matches Some(current) && projection.envelope.page_residence.same_place(&current)),
    {
        match self.target_page_identity(
            &projection.envelope.browser_context_id,
            &projection.envelope.target_id,
        ) {
            Some(current) => projection.matches_residence_instance(&current),
            None => false,
        }
    }

    /// The Page of the Target that a session speaks of.
    pub fn target_page_residence_identity_for_session(&self, session_id: Option<&str>) -> (page:
        Option<PageResidenceIdentity>)
        ensures
            page == self@.session_page(text::opt_str_chars(session_id)),
    {
        match self.target_page_owner_key_for_session(session_id) {
            Some(owner) => self.target_page_identity(&owner.browser_context_id, &owner.target_id),
            None => None,
        }
    }

    /// Claims the facts of the milestones that a session may show now.
    pub fn take_visible_renderer_document_lifecycle_facts(
        &mut self,
        session_id: Option<&str>,
        binding: &CommittedRendererDocumentBinding,
        events: &Vec<RendererDocumentLifecycleEvent>,
    ) -> (shown: Result<
        Vec<BrowserDocumentLifecycleFactProjection>,
        BrowserFactProjectionError,
    >)
        requires
            old(self).wf(),
        ensures
            final(self).wf(),
            final(self)@ == (ConnectionModel { facts: final(self)@.facts, ..old(self)@ }),
            model::show(
                old(self)@.facts,
                old(self)@.session_page(text::opt_str_chars(session_id)),
                *binding,
                events@,
            ) == (Shown {
                model: final(self)@.facts,
                result: match shown {
                    Ok(projected) => Ok(projected@),
                    Err(error) => Err(error),
                },
            }),
    {
        let page = self.target_page_residence_identity_for_session(session_id);
        self.facts.take_visible_document_lifecycle_facts(page.as_ref(), binding, events)
    }
}

} // verus!
