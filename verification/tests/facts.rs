//! The cursor over the Browser facts.
use moli_protocol::connection::core_record::PageResidence;
use moli_protocol::facts::errors::BrowserFactProjectionError;
use moli_protocol::facts::model::JournalEnd;
use moli_protocol::facts::projector::{BrowserFactSubscriber, CdpBrowserFactProjector};
use moli_protocol::facts::types::{
    BrowserFact, BrowserFactEnvelope, BrowserNavigationFailure, BrowserTargetMetadataTransition,
    BrowserTargetTermination, BrowserTargetTerminationKind, CommittedRendererDocumentBinding,
    DocumentNavigationToken, PageResidenceIdentity, RendererDocumentLifecycleEvent,
    RendererDocumentLifecycleEventKind, RendererDocumentLifecycleIdentity,
    RendererDocumentLifecycleMilestone, RendererLifecycleEventStamp,
};

/// A journal of one Target's facts, with the retention of Browser Core.
struct Journal {
    facts: Vec<BrowserFactEnvelope>,
    read: usize,
    page: PageResidenceIdentity,
    requests: u64,
}

const RETAINED: usize = 1_024;

fn page(instance: u64, generation: u64) -> PageResidenceIdentity {
    PageResidenceIdentity {
        browser_context_id: "context-1".to_owned(),
        target_id: Some("target-1".to_owned()),
        residence: PageResidence {
            instance,
            generation,
        },
    }
}

impl Journal {
    fn with_target() -> Journal {
        let mut journal = Journal {
            facts: Vec::new(),
            read: 0,
            page: page(1, 0),
            requests: 0,
        };
        let created = journal.page.clone();
        journal.publish(&created, BrowserFact::TargetCreated);
        journal
    }

    fn publish(&mut self, page: &PageResidenceIdentity, fact: BrowserFact) -> BrowserFactEnvelope {
        let envelope = BrowserFactEnvelope {
            sequence: self.facts.len() as u64 + 1,
            browser_context_id: "context-1".to_owned(),
            target_id: "target-1".to_owned(),
            page_residence: page.clone(),
            fact,
        };
        self.facts.push(envelope.clone());
        envelope
    }

    fn subscribe(&self) -> CdpBrowserFactProjector {
        CdpBrowserFactProjector::new(BrowserFactSubscriber::new())
    }

    /// Delivers what was not delivered yet, as far as it is retained.
    fn deliver(&mut self, projector: &mut CdpBrowserFactProjector) {
        let behind = self.facts.len() - self.read;
        if behind > RETAINED {
            projector.end_journal(JournalEnd::Lagged {
                skipped: (behind - RETAINED) as u64,
            });
            return;
        }
        for envelope in &self.facts[self.read..] {
            projector.deliver(envelope.clone());
        }
        self.read = self.facts.len();
    }

    fn start(&mut self, loader: &str, superseded: Option<&DocumentNavigationToken>) -> DocumentNavigationToken {
        self.requests += 1;
        let navigation = DocumentNavigationToken {
            target_id: "target-1".to_owned(),
            loader_id: loader.to_owned(),
            request: self.requests,
        };
        let current = self.page.clone();
        self.publish(
            &current,
            BrowserFact::NavigationAccepted {
                navigation: navigation.clone(),
                superseded_navigation: superseded.cloned(),
            },
        );
        navigation
    }

    /// Commits a request: the next Page, its commit and its metadata.
    fn commit(&mut self, navigation: &DocumentNavigationToken, url: &str, title: &str) -> PageResidenceIdentity {
        let previous = self.page.clone();
        self.page = page(
            previous.residence.instance,
            previous.residence.generation + 1,
        );
        let current = self.page.clone();
        self.publish(
            &current,
            BrowserFact::NavigationCommitted {
                navigation: navigation.clone(),
                previous_page: previous,
            },
        );
        self.publish(
            &current,
            BrowserFact::TargetMetadataChanged {
                transition: BrowserTargetMetadataTransition {
                    navigation: navigation.clone(),
                    url: url.to_owned(),
                    title: title.to_owned(),
                },
            },
        );
        current
    }

    fn report(&mut self, page: &PageResidenceIdentity, events: &[RendererDocumentLifecycleEvent]) -> Vec<BrowserFactEnvelope> {
        events
            .iter()
            .map(|event| {
                let milestone = match event.kind {
                    RendererDocumentLifecycleEventKind::Milestone(milestone) => milestone,
                    _ => panic!("only milestones are reported here"),
                };
                self.publish(
                    page,
                    BrowserFact::DocumentLifecycleReached {
                        document: event.identity(),
                        milestone,
                        stamp: event.stamp(),
                    },
                )
            })
            .collect()
    }
}

fn lifecycle_event(sequence: u64) -> RendererDocumentLifecycleEvent {
    RendererDocumentLifecycleEvent {
        frame: 71,
        document: 3,
        epoch: 2,
        sequence,
        timestamp_micros: sequence * 10,
        kind: RendererDocumentLifecycleEventKind::Milestone(RendererDocumentLifecycleMilestone::Load),
    }
}

fn binding(event: &RendererDocumentLifecycleEvent) -> CommittedRendererDocumentBinding {
    CommittedRendererDocumentBinding {
        renderer_frame: event.frame,
        renderer_document: event.document,
        renderer_epoch: event.epoch,
        navigation: Some(DocumentNavigationToken {
            target_id: "target-1".to_owned(),
            loader_id: "loader-1".to_owned(),
            request: 0,
        }),
        frame_id: "target-1".to_owned(),
        loader_id: "loader-1".to_owned(),
        page_attachment_id: 1,
        document_open_replacement_epoch: None,
    }
}

fn projector_after_target_creation(journal: &mut Journal) -> (CdpBrowserFactProjector, u64) {
    let mut projector = journal.subscribe();
    journal.deliver(&mut projector);
    let created = projector
        .take_target_created_fact(&journal.page)
        .expect("test frontend should claim the exact Target occurrence");
    assert!(matches!(created.envelope().fact, BrowserFact::TargetCreated));
    assert_eq!(created.envelope().page_residence, journal.page);
    let sequence = created.envelope().sequence;
    (projector, sequence)
}

#[test]
fn target_creation_claim_survives_document_generation_but_rejects_id_reuse() {
    let mut journal = Journal::with_target();
    let mut projector = journal.subscribe();
    journal.deliver(&mut projector);
    let first = journal.page.clone();
    let created = projector
        .take_target_created_fact(&first)
        .expect("exact Target creation should be projectable once");

    let current = page(1, 1);
    assert!(created.matches_residence_instance(&current));

    let reused_public_id = page(2, 0);
    assert!(!created.matches_residence_instance(&reused_public_id));
    assert_eq!(projector.pending_fact_count(), 0);
    assert!(matches!(
        projector.take_target_created_fact(&first),
        Err(BrowserFactProjectionError::MissingTargetCreationFact { .. })
    ));
}

#[test]
fn exact_fact_waits_for_visibility_and_cannot_project_twice() {
    let mut journal = Journal::with_target();
    let (mut projector, created_sequence) = projector_after_target_creation(&mut journal);
    let current = journal.page.clone();
    let event = lifecycle_event(1);
    let binding = binding(&event);

    let published = journal.report(&current, &[event]);
    projector
        .register_document_lifecycle_causal_links(&current, &binding, &published)
        .expect("renderer ingress should freeze the projection binding");
    journal.deliver(&mut projector);
    projector
        .capture_available()
        .expect("frontend cursor should capture the fact independently");
    assert_eq!(projector.pending_document_lifecycle_fact_count(), 1);
    assert!(projector
        .take_visible_document_lifecycle_facts(Some(&current), &binding, &vec![])
        .expect("an unreleased fact is not an error")
        .is_empty());

    let projected = projector
        .take_visible_document_lifecycle_facts(Some(&current), &binding, &vec![event])
        .expect("the matching visibility record should release the fact");
    assert_eq!(projected.len(), 1);
    assert_eq!(projected[0].envelope().sequence, created_sequence + 1);
    assert_eq!(projector.last_projected_sequence(), Some(created_sequence + 1));
    assert_eq!(projector.pending_document_lifecycle_fact_count(), 0);

    assert!(matches!(
        projector.take_visible_document_lifecycle_facts(Some(&current), &binding, &vec![event]),
        Err(BrowserFactProjectionError::MissingDocumentLifecycleFact { .. })
    ));
}

#[test]
fn navigation_fact_families_share_one_exact_frontend_cursor() {
    let mut journal = Journal::with_target();
    let (mut projector, _) = projector_after_target_creation(&mut journal);
    let current = journal.page.clone();

    let first = journal.start("loader-first", None);
    journal.deliver(&mut projector);
    let first_admission = projector
        .take_navigation_admission_fact(&first)
        .expect("accepted request should project from its Browser fact");
    assert!(matches!(
        &first_admission.fact,
        BrowserFact::NavigationAccepted { navigation, superseded_navigation: None }
            if navigation == &first
    ));

    let replacement = journal.start("loader-replacement", Some(&first));
    journal.deliver(&mut projector);
    let replacement_admission = projector
        .take_navigation_admission_fact(&replacement)
        .expect("successor admission should carry its superseded request");
    assert!(matches!(
        &replacement_admission.fact,
        BrowserFact::NavigationAccepted { navigation, superseded_navigation: Some(superseded) }
            if navigation == &replacement && superseded == &first
    ));
    assert_eq!(projector.pending_fact_count(), 0);

    let failure = BrowserNavigationFailure::Canceled {
        error_text: "canceled by test".to_owned(),
    };
    journal.publish(
        &current,
        BrowserFact::NavigationFailed {
            navigation: replacement.clone(),
            failure: failure.clone(),
            previous_page: None,
        },
    );
    journal.deliver(&mut projector);
    projector
        .take_navigation_failure_fact(&replacement, &failure)
        .expect("terminal request should project from its exact failure fact");

    let download = journal.start("loader-download", None);
    journal.deliver(&mut projector);
    projector
        .take_navigation_admission_fact(&download)
        .expect("download request admission");
    journal.publish(
        &current,
        BrowserFact::NavigationConvertedToDownload {
            navigation: download.clone(),
        },
    );
    journal.deliver(&mut projector);
    projector
        .take_navigation_download_fact(&download)
        .expect("download terminal should project from its exact fact");

    let committed = journal.start("loader-committed", None);
    journal.deliver(&mut projector);
    projector
        .take_navigation_admission_fact(&committed)
        .expect("committed request admission");
    let successor = journal.commit(&committed, "https://example.test/committed", "committed");
    journal.deliver(&mut projector);
    let commit_projection = projector
        .take_navigation_commit_fact(&committed, &successor)
        .expect("renderer commit should require the atomic commit fact");
    let metadata_projection = projector
        .take_navigation_target_metadata_changed_fact(&committed, &successor)
        .expect("Target metadata should require the same committed navigation fact batch");
    assert_eq!(
        metadata_projection.envelope().sequence,
        commit_projection.sequence() + 1
    );
    assert_eq!(metadata_projection.transition().navigation, committed);
    assert_eq!(
        metadata_projection.transition().url,
        "https://example.test/committed"
    );
    assert_eq!(metadata_projection.transition().title, "committed");
    assert_eq!(projector.pending_fact_count(), 0);
}

#[test]
fn page_replacement_retires_unprojected_predecessor_lifecycle_facts() {
    let mut journal = Journal::with_target();
    let (mut projector, _) = projector_after_target_creation(&mut journal);
    let previous_page = journal.page.clone();
    let lifecycle = lifecycle_event(1);
    let lifecycle_binding = binding(&lifecycle);

    let published = journal.report(&previous_page, &[lifecycle]);
    projector
        .register_document_lifecycle_causal_links(&previous_page, &lifecycle_binding, &published)
        .expect("predecessor projection binding should freeze");
    journal.deliver(&mut projector);
    projector
        .capture_available()
        .expect("frontend cursor should retain the unreleased lifecycle fact");
    assert_eq!(projector.pending_document_lifecycle_fact_count(), 1);

    let navigation = journal.start("loader-successor", None);
    journal.deliver(&mut projector);
    projector
        .take_navigation_admission_fact(&navigation)
        .expect("successor admission should project");
    let successor = journal.commit(&navigation, "https://example.test/successor", "successor");
    journal.deliver(&mut projector);
    projector
        .take_navigation_commit_fact(&navigation, &successor)
        .expect("successor commit should project from its exact fact");
    projector
        .take_navigation_target_metadata_changed_fact(&navigation, &successor)
        .expect("successor metadata should project from the same commit batch");

    assert_eq!(projector.pending_document_lifecycle_fact_count(), 0);
    assert_eq!(projector.pending_fact_count(), 0);
}

#[test]
fn page_replacement_retires_unprojected_predecessor_metadata_fact() {
    let mut journal = Journal::with_target();
    let (mut projector, _) = projector_after_target_creation(&mut journal);

    let first = journal.start("loader-first", None);
    journal.deliver(&mut projector);
    projector
        .take_navigation_admission_fact(&first)
        .expect("first navigation admission should project");
    let first_page = journal.commit(&first, "https://example.test/first", "first");
    journal.deliver(&mut projector);
    projector
        .take_navigation_commit_fact(&first, &first_page)
        .expect("first commit fact should project");
    assert_eq!(projector.pending_fact_count(), 1);

    let second = journal.start("loader-second", None);
    journal.deliver(&mut projector);
    projector
        .take_navigation_admission_fact(&second)
        .expect("second navigation admission should project");
    let second_page = journal.commit(&second, "https://example.test/second", "second");
    journal.deliver(&mut projector);
    projector
        .take_navigation_commit_fact(&second, &second_page)
        .expect("second commit fact should project");
    let second_metadata = projector
        .take_navigation_target_metadata_changed_fact(&second, &second_page)
        .expect("second metadata should remain claimable");

    assert_eq!(second_metadata.transition().navigation, second);
    assert_eq!(projector.pending_fact_count(), 0);
}

#[test]
fn page_replacement_retires_unclaimed_creation_across_document_generation() {
    let mut journal = Journal::with_target();
    let mut projector = journal.subscribe();
    journal.page = page(1, 1);

    let navigation = journal.start("loader-successor", None);
    journal.deliver(&mut projector);
    projector
        .take_navigation_admission_fact(&navigation)
        .expect("navigation admission should share the creation cursor");
    assert_eq!(
        projector.pending_fact_count(),
        1,
        "the unclaimed generation-zero Target occurrence should remain pending"
    );

    assert_eq!(journal.page.residence.generation, 1);
    let successor = journal.commit(&navigation, "https://example.test/successor", "successor");
    journal.deliver(&mut projector);
    projector
        .take_navigation_commit_fact(&navigation, &successor)
        .expect("successor commit should project its exact fact");
    projector
        .take_navigation_target_metadata_changed_fact(&navigation, &successor)
        .expect("successor metadata should project from the same commit batch");

    assert_eq!(projector.pending_fact_count(), 0);
}

#[test]
fn target_terminal_carries_its_pending_navigation_on_the_common_cursor() {
    let mut journal = Journal::with_target();
    let (mut projector, _) = projector_after_target_creation(&mut journal);
    let live = journal.page.clone();
    let navigation = journal.start("loader-closing", None);
    journal.deliver(&mut projector);
    projector
        .take_navigation_admission_fact(&navigation)
        .expect("pending navigation admission should project");
    let terminal = page(1, 1);
    journal.publish(
        &terminal,
        BrowserFact::TargetClosed {
            previous_page: live.clone(),
            pending_navigation: Some(navigation.clone()),
        },
    );
    journal.deliver(&mut projector);
    let termination = BrowserTargetTermination {
        browser_context_id: "context-1".to_owned(),
        target_id: "target-1".to_owned(),
        previous_page: live,
        terminal_page: terminal,
        kind: BrowserTargetTerminationKind::Close,
    };

    let projected = projector
        .take_target_termination_fact(&termination)
        .expect("Target close should consume its exact terminal fact batch");

    assert!(matches!(
        &projected.envelope().fact,
        BrowserFact::TargetClosed { pending_navigation: Some(pending), .. } if pending == &navigation
    ));
    assert_eq!(projector.pending_fact_count(), 0);
}

#[test]
fn application_wake_advances_the_same_frontend_cursor_through_its_committed_tail() {
    let mut journal = Journal::with_target();
    let (mut projector, created_sequence) = projector_after_target_creation(&mut journal);
    let current = journal.page.clone();
    let event = lifecycle_event(1);
    let binding = binding(&event);

    let published = journal.report(&current, &[event]);
    projector
        .register_document_lifecycle_causal_links(&current, &binding, &published)
        .expect("renderer ingress should freeze the projection binding");
    assert_eq!(
        projector.pending_document_lifecycle_fact_count(),
        0,
        "registering the causal link must not consume the frontend cursor"
    );
    assert_eq!(projector.last_observed_sequence(), Some(created_sequence));
    let through = published[0].sequence;
    journal.deliver(&mut projector);
    projector
        .capture_wake(through)
        .expect("the frontend cursor should reach the coalesced wake sequence");

    assert_eq!(through, created_sequence + 1);
    assert_eq!(projector.pending_document_lifecycle_fact_count(), 1);
    let projected = projector
        .take_visible_document_lifecycle_facts(Some(&current), &binding, &vec![event])
        .expect("a wake-captured fact should retain its causal projection binding");
    assert_eq!(projected.len(), 1);
}

#[test]
fn attachment_replacement_cannot_claim_an_old_lifecycle_fact() {
    let mut journal = Journal::with_target();
    let (mut projector, _) = projector_after_target_creation(&mut journal);
    let current = journal.page.clone();
    let event = lifecycle_event(1);
    let old_binding = binding(&event);

    let published = journal.report(&current, &[event]);
    projector
        .register_document_lifecycle_causal_links(&current, &old_binding, &published)
        .expect("old attachment should freeze the fact mapping");
    journal.deliver(&mut projector);
    projector
        .capture_available()
        .expect("frontend cursor should advance independently of the visible record");
    let mut replacement_binding = old_binding.clone();
    replacement_binding.page_attachment_id = 2;

    assert!(matches!(
        projector.take_visible_document_lifecycle_facts(
            Some(&current),
            &replacement_binding,
            &vec![event],
        ),
        Err(BrowserFactProjectionError::MissingDocumentLifecycleFact { .. })
    ));
}

#[test]
fn completed_epoch_uses_the_same_frozen_document_binding() {
    let mut journal = Journal::with_target();
    let (mut projector, _) = projector_after_target_creation(&mut journal);
    let current = journal.page.clone();
    let event = lifecycle_event(1);
    let mut active_epoch_binding = binding(&event);
    active_epoch_binding.renderer_epoch = event.epoch + 1;

    let published = journal.report(&current, &[event]);
    projector
        .register_document_lifecycle_causal_links(&current, &active_epoch_binding, &published)
        .expect("the root Document binding should retain its completed epoch fact");
    journal.deliver(&mut projector);
    projector
        .capture_available()
        .expect("frontend cursor should capture the completed epoch fact");
    let projected = projector
        .take_visible_document_lifecycle_facts(Some(&current), &active_epoch_binding, &vec![event])
        .expect("the completed epoch should remain projectable");

    assert_eq!(projected.len(), 1);
    assert_eq!(
        projected[0].reached().map(|(document, _, _)| document.epoch),
        Some(event.epoch)
    );
    assert_eq!(projected[0].binding(), &active_epoch_binding);
}

#[test]
fn later_visible_load_retires_an_unselected_earlier_dcl_fact() {
    let mut journal = Journal::with_target();
    let (mut projector, created_sequence) = projector_after_target_creation(&mut journal);
    let current = journal.page.clone();
    let load = lifecycle_event(2);
    let dcl = RendererDocumentLifecycleEvent {
        sequence: 1,
        timestamp_micros: 10,
        kind: RendererDocumentLifecycleEventKind::Milestone(
            RendererDocumentLifecycleMilestone::DomContentLoaded,
        ),
        ..load
    };
    let binding = binding(&load);

    let published = journal.report(&current, &[dcl, load]);
    projector
        .register_document_lifecycle_causal_links(&current, &binding, &published)
        .expect("renderer ingress should freeze both lifecycle links");
    journal.deliver(&mut projector);
    projector
        .capture_available()
        .expect("frontend cursor should capture both facts independently");

    let projected = projector
        .take_visible_document_lifecycle_facts(Some(&current), &binding, &vec![load])
        .expect("a frontend may first observe the exact load fact");
    assert_eq!(projected.len(), 1);
    assert_eq!(projected[0].envelope().sequence, created_sequence + 2);
    assert_eq!(projector.pending_document_lifecycle_fact_count(), 0);
    assert!(matches!(
        projector.take_visible_document_lifecycle_facts(Some(&current), &binding, &vec![dcl]),
        Err(BrowserFactProjectionError::MissingDocumentLifecycleFact { .. })
    ));
}

#[test]
fn slow_frontend_reports_journal_lag_instead_of_guessing_events() {
    let mut journal = Journal::with_target();
    let (mut projector, _) = projector_after_target_creation(&mut journal);
    let current = journal.page.clone();
    let binding = binding(&lifecycle_event(1));
    for sequence in 1..=1_025 {
        let published = journal.report(&current, &[lifecycle_event(sequence)]);
        projector
            .register_document_lifecycle_causal_links(&current, &binding, &published)
            .expect("causal-link registration must not backpressure Browser publication");
    }
    assert_eq!(
        projector.lifecycle_causal_link_count(),
        RETAINED,
        "the causal join must stay bounded with the Browser retention window"
    );

    journal.deliver(&mut projector);
    assert_eq!(
        projector.capture_available(),
        Err(BrowserFactProjectionError::SubscriberLagged { skipped: 1 })
    );
    assert_eq!(
        projector.terminal_error(),
        Some(&BrowserFactProjectionError::SubscriberLagged { skipped: 1 })
    );
    assert_eq!(projector.pending_document_lifecycle_fact_count(), 0);
    assert_eq!(projector.lifecycle_causal_link_count(), 0);
}

#[test]
fn lost_cursor_reports_its_first_reason_again() {
    let mut journal = Journal::with_target();
    let (mut projector, _) = projector_after_target_creation(&mut journal);
    let current = journal.page.clone();
    let missing = DocumentNavigationToken {
        target_id: "target-1".to_owned(),
        loader_id: "loader-missing".to_owned(),
        request: 9,
    };
    let reason = BrowserFactProjectionError::MissingNavigationAdmissionFact {
        navigation: missing.clone(),
    };
    assert_eq!(
        projector.take_navigation_admission_fact(&missing),
        Err(reason.clone())
    );
    journal.start("loader-late", None);
    journal.deliver(&mut projector);
    assert_eq!(projector.capture_available(), Err(reason.clone()));
    assert_eq!(projector.capture_wake(1), Err(reason.clone()));
    assert_eq!(
        projector.register_document_lifecycle_causal_links(
            &current,
            &binding(&lifecycle_event(1)),
            &vec![],
        ),
        Err(reason.clone())
    );
    assert!(matches!(
        projector.take_visible_document_lifecycle_facts(
            Some(&current),
            &binding(&lifecycle_event(1)),
            &vec![lifecycle_event(1)],
        ),
        Err(error) if error == reason
    ));
    assert_eq!(projector.terminal_error(), Some(&reason));
}

#[test]
fn wake_past_the_journal_is_reported() {
    let mut journal = Journal::with_target();
    let (mut projector, created) = projector_after_target_creation(&mut journal);
    assert_eq!(projector.capture_wake(created), Ok(()));
    assert_eq!(
        projector.capture_wake(created + 1),
        Err(BrowserFactProjectionError::WakeSequenceNotObserved {
            wake: created + 1,
            observed: Some(created),
        })
    );
}

#[test]
fn journal_that_runs_backwards_is_reported() {
    let mut journal = Journal::with_target();
    let mut projector = journal.subscribe();
    journal.deliver(&mut projector);
    projector.deliver(journal.facts[0].clone());
    assert_eq!(
        projector.capture_available(),
        Err(BrowserFactProjectionError::NonMonotonicSequence {
            previous: 1,
            received: 1,
        })
    );
}

#[test]
fn closed_journal_is_reported_behind_its_facts() {
    let mut journal = Journal::with_target();
    let mut projector = journal.subscribe();
    journal.deliver(&mut projector);
    projector.end_journal(JournalEnd::Closed);
    assert_eq!(
        projector.capture_available(),
        Err(BrowserFactProjectionError::SubscriberClosed)
    );
    assert_eq!(projector.last_observed_sequence(), Some(1));
    assert_eq!(projector.pending_fact_count(), 0);
}

#[test]
fn too_many_waiting_facts_lose_the_cursor() {
    let mut journal = Journal::with_target();
    let mut projector = journal.subscribe();
    let current = journal.page.clone();
    for _ in 0..RETAINED {
        journal.start("loader", None);
    }
    for envelope in &journal.facts {
        projector.deliver(envelope.clone());
    }
    assert_eq!(
        projector.capture_available(),
        Err(BrowserFactProjectionError::PendingBrowserFactCapacityExceeded { capacity: RETAINED })
    );
    assert!(matches!(
        projector.take_target_created_fact(&current),
        Err(BrowserFactProjectionError::PendingBrowserFactCapacityExceeded { .. })
    ));
}

#[test]
fn document_termination_only_moves_the_cursor() {
    let mut journal = Journal::with_target();
    let (mut projector, created) = projector_after_target_creation(&mut journal);
    let current = journal.page.clone();
    journal.publish(
        &current,
        BrowserFact::DocumentLifecycleTerminated {
            document: lifecycle_event(1).identity(),
        },
    );
    journal.deliver(&mut projector);
    assert_eq!(projector.capture_available(), Ok(()));
    assert_eq!(projector.pending_fact_count(), 0);
    assert_eq!(projector.last_observed_sequence(), Some(created + 1));
    assert_eq!(projector.last_projected_sequence(), Some(created));
}

#[test]
fn conflicting_and_mismatched_links_lose_the_cursor() {
    let mut journal = Journal::with_target();
    let (mut projector, _) = projector_after_target_creation(&mut journal);
    let current = journal.page.clone();
    let event = lifecycle_event(1);
    let first = binding(&event);
    let published = journal.report(&current, &[event]);
    let sequence = published[0].sequence;
    assert_eq!(
        projector.register_document_lifecycle_causal_links(&current, &first, &published),
        Ok(())
    );
    assert_eq!(
        projector.register_document_lifecycle_causal_links(&current, &first, &published),
        Ok(()),
        "the same attachment may be frozen again"
    );
    let mut second = first.clone();
    second.page_attachment_id = 2;
    assert_eq!(
        projector.register_document_lifecycle_causal_links(&current, &second, &published),
        Err(BrowserFactProjectionError::ConflictingDocumentLifecycleCausalLink { sequence })
    );

    let mut journal = Journal::with_target();
    let (mut projector, _) = projector_after_target_creation(&mut journal);
    let published = journal.report(&current, &[event]);
    journal.deliver(&mut projector);
    projector.capture_available().expect("captured");
    assert_eq!(
        projector.register_document_lifecycle_causal_links(&current, &first, &published),
        Ok(())
    );
    assert_eq!(
        projector.register_document_lifecycle_causal_links(&current, &second, &published),
        Err(BrowserFactProjectionError::ConflictingDocumentLifecycleCausalLink { sequence })
    );

    let mut journal = Journal::with_target();
    let (mut projector, _) = projector_after_target_creation(&mut journal);
    let published = journal.report(&current, &[event]);
    let other = page(1, 7);
    assert_eq!(
        projector.register_document_lifecycle_causal_links(&other, &first, &published),
        Err(BrowserFactProjectionError::MismatchedDocumentLifecycleCausalLink {
            sequence: published[0].sequence,
            page: other.clone(),
            document: event.identity(),
        })
    );
}

#[test]
fn milestones_are_shown_in_journal_order() {
    let mut journal = Journal::with_target();
    let (mut projector, created) = projector_after_target_creation(&mut journal);
    let current = journal.page.clone();
    let load = lifecycle_event(2);
    let dcl = RendererDocumentLifecycleEvent {
        sequence: 1,
        timestamp_micros: 10,
        kind: RendererDocumentLifecycleEventKind::Milestone(
            RendererDocumentLifecycleMilestone::DomContentLoaded,
        ),
        ..load
    };
    let other = RendererDocumentLifecycleEvent {
        document: 4,
        ..load
    };
    let unrelated = RendererDocumentLifecycleEvent {
        kind: RendererDocumentLifecycleEventKind::Terminated,
        ..load
    };
    let binding = binding(&load);
    let published = journal.report(&current, &[dcl, load]);
    projector
        .register_document_lifecycle_causal_links(&current, &binding, &published)
        .expect("links");
    journal.deliver(&mut projector);
    let shown = projector
        .take_visible_document_lifecycle_facts(
            Some(&current),
            &binding,
            &vec![other, dcl, unrelated, load],
        )
        .expect("both milestones are shown");
    let sequences: Vec<u64> = shown.iter().map(|fact| fact.envelope().sequence).collect();
    assert_eq!(sequences, vec![created + 1, created + 2]);
    assert_eq!(
        shown[0].reached().map(|(_, milestone, stamp)| (milestone, stamp)),
        Some((
            RendererDocumentLifecycleMilestone::DomContentLoaded,
            RendererLifecycleEventStamp {
                sequence: 1,
                timestamp_micros: 10,
            }
        ))
    );
}

#[test]
fn visible_milestone_without_a_page_loses_the_cursor() {
    let mut journal = Journal::with_target();
    let (mut projector, _) = projector_after_target_creation(&mut journal);
    let event = lifecycle_event(3);
    assert!(matches!(
        projector.take_visible_document_lifecycle_facts(None, &binding(&event), &vec![event]),
        Err(BrowserFactProjectionError::NoCurrentPageForDocumentLifecycle {
            document,
            milestone: RendererDocumentLifecycleMilestone::Load,
            stamp,
        }) if document == event.identity() && stamp == event.stamp()
    ));
    assert!(projector.terminal_error().is_some());
}

fn token() -> DocumentNavigationToken {
    DocumentNavigationToken {
        target_id: "T".to_owned(),
        loader_id: "L\"1".to_owned(),
        request: 4,
    }
}

fn spelled_page() -> PageResidenceIdentity {
    PageResidenceIdentity {
        browser_context_id: "C".to_owned(),
        target_id: Some("T".to_owned()),
        residence: PageResidence {
            instance: 12,
            generation: 0,
        },
    }
}

#[test]
fn errors_spell_out_what_they_are_about() {
    let page = spelled_page();
    let navigation = token();
    let document = RendererDocumentLifecycleIdentity {
        frame: 1,
        document: 20,
        epoch: 300,
    };
    let stamp = RendererLifecycleEventStamp {
        sequence: 1_000,
        timestamp_micros: 5,
    };
    let page_text = format!("{page:?}");
    let navigation_text = format!("{navigation:?}");
    let document_text = format!("{document:?}");
    let failure = BrowserNavigationFailure::Network {
        error_text: "net::ERR".to_owned(),
    };
    let failure_text = format!("{failure:?}");
    let cases = vec![
        (
            BrowserFactProjectionError::SubscriberLagged { skipped: 10 },
            "Browser fact projector lagged by 10 facts".to_owned(),
        ),
        (
            BrowserFactProjectionError::SubscriberClosed,
            "Browser fact projector closed".to_owned(),
        ),
        (
            BrowserFactProjectionError::NonMonotonicSequence {
                previous: 9,
                received: 8,
            },
            "Browser fact sequence moved from 9 to non-monotonic 8".to_owned(),
        ),
        (
            BrowserFactProjectionError::WakeSequenceNotObserved {
                wake: 7,
                observed: None,
            },
            "Browser fact wake reached sequence 7 but the frontend cursor reached only 0".to_owned(),
        ),
        (
            BrowserFactProjectionError::PendingBrowserFactCapacityExceeded { capacity: 1_024 },
            "Browser fact projector exceeded its 1024-fact pending projection window".to_owned(),
        ),
        (
            BrowserFactProjectionError::MissingTargetCreationFact { page: page.clone() },
            format!("Target \"T\" in BrowserContext \"C\" at Page {page_text} has no exact Browser creation fact"),
        ),
        (
            BrowserFactProjectionError::MissingNavigationTargetMetadataFact {
                navigation: navigation.clone(),
                page: page.clone(),
            },
            format!("committed navigation {navigation_text} for Page {page_text} has no exact Target metadata Browser fact"),
        ),
        (
            BrowserFactProjectionError::MissingNavigationAdmissionFact {
                navigation: navigation.clone(),
            },
            format!("accepted navigation {navigation_text} has no exact Browser fact"),
        ),
        (
            BrowserFactProjectionError::MissingNavigationFailureFact {
                navigation: navigation.clone(),
                failure,
            },
            format!("failed navigation {navigation_text} with terminal {failure_text} has no exact Browser fact"),
        ),
        (
            BrowserFactProjectionError::MissingNavigationDownloadFact {
                navigation: navigation.clone(),
            },
            format!("download navigation {navigation_text} has no exact Browser fact"),
        ),
        (
            BrowserFactProjectionError::MissingNavigationCommitFact {
                navigation,
                page: page.clone(),
            },
            format!("committed navigation {navigation_text} for Page {page_text} has no exact Browser fact"),
        ),
        (
            BrowserFactProjectionError::MissingTargetTerminationFact {
                target_id: "T".to_owned(),
                previous_page: page.clone(),
                terminal_page: page.clone(),
                kind: BrowserTargetTerminationKind::Crash,
            },
            format!("Target \"T\" Crash from Page {page_text} to terminal Page {page_text} has no exact Browser fact"),
        ),
        (
            BrowserFactProjectionError::NoCurrentPageForDocumentLifecycle {
                document,
                milestone: RendererDocumentLifecycleMilestone::Load,
                stamp,
            },
            format!("protocol-visible renderer lifecycle Load at sequence 1000 for Document {document_text} has no current Browser Page"),
        ),
        (
            BrowserFactProjectionError::MissingDocumentLifecycleFact {
                page: page.clone(),
                document,
                milestone: RendererDocumentLifecycleMilestone::DomContentLoaded,
                stamp,
            },
            format!("protocol-visible renderer lifecycle DomContentLoaded at sequence 1000 for Page {page_text}, Document {document_text} has no exact Browser fact"),
        ),
        (
            BrowserFactProjectionError::ConflictingDocumentLifecycleCausalLink { sequence: 6 },
            "Browser lifecycle fact 6 was linked to conflicting frontend bindings".to_owned(),
        ),
        (
            BrowserFactProjectionError::MismatchedDocumentLifecycleCausalLink {
                sequence: 6,
                page,
                document,
            },
            format!("Browser lifecycle fact 6 for Page {page_text}, Document {document_text} does not match its frozen frontend binding"),
        ),
    ];
    for (error, expected) in cases {
        assert_eq!(error.message(), expected);
    }
}
