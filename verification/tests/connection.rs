//! The connection's slots, held against Browser Core.
use moli_protocol::addresses::read_navigation_url;
use moli_protocol::connection::background_output::{
    BackgroundOutputClosed, BackgroundOutputQueue, BackgroundProtocolEvent,
    BrowserBackgroundOutput, BrowserNavigateCommandOutcomeDelivery, TryReceiveError,
};
use moli_protocol::connection::contexts::{
    BrowserContextDisposalReservation, BrowserContextRemovalPermit, ContextRegistration,
    ContextRemoval, CoreCommit, SessionStorageAccess,
};
use moli_protocol::connection::core_record::{
    BrowserContextHandle, BrowserCoreRecord, BrowserTargetHandle, CoreContext, CoreNavigation,
    CoreTarget, PageResidence,
};
use moli_protocol::connection::errors::{
    BrowserContextProjectionError, BrowserContextRegistryError, BrowserContextRuntimeRegistryError,
    BrowserTargetRegistryError, PageResidenceProjectionError, TargetProjectionError,
};
use moli_protocol::connection::loaded_page::{RendererAttachment, RendererMainDocumentCommit};
use moli_protocol::connection::navigation::{
    BrowserNavigationTraceSource, DevToolsCommandContext, DevToolsDocumentNavigationState,
    DevToolsProtocol, DocumentAccessError,
};
use moli_protocol::connection::pages::{
    BrowserPageResidenceTransitionPermit, InitialDocumentPageInstallResult,
};
use moli_protocol::connection::sessions::BrowserPageOwnerKey;
use moli_protocol::connection::slots::{
    AuxiliarySession, BackgroundTarget, BrowserContext, TargetPageAbsenceReason,
    TargetRuntimeSlot, WorkerTarget,
};
use moli_protocol::connection::snapshots::{
    BrowserContextTargetSnapshot, BrowserTargetStateSnapshot, BrowserTopLevelTargetSnapshot,
};
use moli_protocol::connection::state::{CdpConnection, ConnectionEffect, TargetChange};
use moli_protocol::connection::targets::BrowserTargetRegistration;
use moli_protocol::connection::turn_executor::BrowserHostTurnExecutorOwner;
use moli_protocol::facts::projector::{BrowserFactSubscriber, BrowserTargetCreatedFactProjection};
use moli_protocol::facts::types::{
    BrowserFact, BrowserFactEnvelope, BrowserNavigationFailure, BrowserTargetTermination,
    BrowserTargetTerminationKind, CommittedRendererDocumentBinding, DocumentNavigationToken,
    PageResidenceIdentity, RendererDocumentLifecycleEvent, RendererDocumentLifecycleEventKind,
    RendererDocumentLifecycleMilestone,
};
use serde_json::Value;

/// One Target as the stand-in for Browser Core keeps it.
#[derive(Clone)]
struct Target {
    id: String,
    instance: u64,
    context: String,
    page: PageResidence,
    pending: Option<DocumentNavigationToken>,
    committed: Option<DocumentNavigationToken>,
    initial_loader: Option<String>,
}

/// A stand-in for Browser Core: it registers whatever is new.
struct Core {
    instance: u64,
    contexts: Vec<(String, u64, Option<String>)>,
    selected: Option<String>,
    targets: Vec<Target>,
    facts: u64,
    next: u64,
}

fn copy_token(token: &Option<DocumentNavigationToken>) -> Option<DocumentNavigationToken> {
    token.as_ref().map(|token| token.copy())
}

impl Core {
    fn new(instance: u64) -> Core {
        Core {
            instance,
            contexts: Vec::new(),
            selected: None,
            targets: Vec::new(),
            facts: 0,
            next: 100,
        }
    }

    fn fresh(&mut self) -> u64 {
        self.next += 1;
        self.next
    }

    fn record(&self) -> BrowserCoreRecord {
        BrowserCoreRecord {
            browser_instance: self.instance,
            contexts: self
                .contexts
                .iter()
                .map(|(id, instance, active)| CoreContext {
                    handle: BrowserContextHandle {
                        browser_context_id: id.clone(),
                        instance: *instance,
                    },
                    active_target_id: active.clone(),
                })
                .collect(),
            selected_browser_context_id: self.selected.clone(),
            targets: self
                .targets
                .iter()
                .map(|target| CoreTarget {
                    handle: BrowserTargetHandle {
                        target_id: target.id.clone(),
                        instance: target.instance,
                    },
                    browser_context_id: target.context.clone(),
                    page: target.page,
                    navigation: CoreNavigation {
                        pending: copy_token(&target.pending),
                        committed: copy_token(&target.committed),
                        body: copy_token(&target.pending),
                        current_loader_id: target.committed.as_ref().map(|token| token.loader_id.clone()),
                        initial_loader_id: target.initial_loader.clone(),
                    },
                })
                .collect(),
        }
    }

    fn commit<T>(&self, outcome: T) -> CoreCommit<T> {
        CoreCommit {
            core: self.record(),
            outcome,
        }
    }

    fn target(&mut self, id: &str) -> &mut Target {
        self.targets
            .iter_mut()
            .find(|target| target.id == id)
            .expect("registered Target")
    }

    fn identity(&self, id: &str) -> PageResidenceIdentity {
        let target = self
            .targets
            .iter()
            .find(|target| target.id == id)
            .expect("registered Target");
        PageResidenceIdentity {
            browser_context_id: target.context.clone(),
            target_id: Some(id.to_owned()),
            residence: target.page,
        }
    }

    fn publish(&mut self, connection: &mut CdpConnection, page: &PageResidenceIdentity, fact: BrowserFact) {
        self.facts += 1;
        connection.deliver_browser_fact(BrowserFactEnvelope {
            sequence: self.facts,
            browser_context_id: page.browser_context_id.clone(),
            target_id: page.target_id.clone().unwrap_or_default(),
            page_residence: page.clone(),
            fact,
        });
    }

    fn add_target(&mut self, connection: &mut CdpConnection, context: &str, id: &str, instance: u64, page_instance: u64) {
        self.targets.push(Target {
            id: id.to_owned(),
            instance,
            context: context.to_owned(),
            page: PageResidence {
                instance: page_instance,
                generation: 0,
            },
            pending: None,
            committed: None,
            initial_loader: None,
        });
        let page = self.identity(id);
        self.publish(connection, &page, BrowserFact::TargetCreated);
    }

    /// Registers a context with its Targets.
    fn insert(&mut self, connection: &mut CdpConnection, context: BrowserContext) -> Result<(), BrowserContextProjectionError> {
        let request = match connection.prepare_browser_context_registration(&context) {
            Ok(request) => request,
            Err(error) => return Err(error),
        };
        let id = request.topology.browser_context_id.clone();
        if self.contexts.iter().any(|(known, _, _)| *known == id) {
            let answer = Err(BrowserContextRuntimeRegistryError::Context(
                BrowserContextRegistryError::DuplicateBrowserContext(id),
            ));
            return connection.try_insert_browser_context(context, answer);
        }
        let selected = self.selected.is_none();
        if selected {
            self.selected = Some(id.clone());
        }
        let active = request.topology.active.as_ref().map(|slot| slot.handle.target_id.clone());
        self.contexts.push((id.clone(), request.handle.instance, active));
        let mut session_storage = Vec::new();
        for slot in request.topology.active.iter().chain(request.topology.background.iter()) {
            self.add_target(
                connection,
                &id,
                &slot.handle.target_id,
                slot.handle.instance,
                slot.page_instance,
            );
            session_storage.push(SessionStorageAccess {
                target_id: slot.handle.target_id.clone(),
                store: slot.session_storage,
            });
        }
        let answer = Ok(self.commit(ContextRegistration {
            selected,
            session_storage,
        }));
        connection.try_insert_browser_context(context, answer)
    }

    /// Registers a Target behind in a context.
    fn register_background(
        &mut self,
        connection: &mut CdpConnection,
        context: &str,
        target: BackgroundTarget,
    ) -> Result<Option<BrowserTargetCreatedFactProjection>, TargetProjectionError> {
        if let Err(error) = connection.prepare_background_target_change(context) {
            return Err(error);
        }
        let id = target.target_id().to_owned();
        let answer = if self.targets.iter().any(|known| known.id == id) {
            Err(BrowserTargetRegistryError::DuplicateTarget(id))
        } else {
            let instance = self.fresh();
            let place = self.fresh();
            let store = self.fresh();
            self.add_target(connection, context, &id, instance, place);
            let page = self.identity(&id);
            Ok(self.commit(BrowserTargetRegistration {
                handle: BrowserTargetHandle {
                    target_id: id,
                    instance,
                },
                page,
                session_storage: store,
            }))
        };
        connection
            .register_background_target_with_creation_metadata_projection(context, target, answer)
            .map(|registration| registration.into_browser_fact())
    }

    fn activate_context(&mut self, connection: &mut CdpConnection, id: &str) -> bool {
        let answer = match connection.prepare_browser_context_activation(id) {
            Ok(_) => {
                let changed = self.selected.as_deref() != Some(id);
                self.selected = Some(id.to_owned());
                Ok(self.commit(changed))
            }
            Err(_) => Err(BrowserContextRegistryError::Other("never asked".to_owned())),
        };
        connection.activate_browser_context_by_id(id, answer)
    }

    fn start(&mut self, connection: &mut CdpConnection, session: Option<&str>, loader: &str) -> Option<DocumentNavigationToken> {
        let owner = connection.prepare_document_navigation(session)?;
        let request = self.fresh();
        let token = DocumentNavigationToken {
            target_id: owner.target_id.clone(),
            loader_id: loader.to_owned(),
            request,
        };
        let superseded = copy_token(&self.target(&owner.target_id).pending);
        self.target(&owner.target_id).pending = Some(token.copy());
        let page = self.identity(&owner.target_id);
        self.publish(
            connection,
            &page,
            BrowserFact::NavigationAccepted {
                navigation: token.copy(),
                superseded_navigation: superseded,
            },
        );
        let answer = Some(self.commit(token));
        connection.start_document_navigation_for_session_owner(session, answer)
    }
}

fn empty_connection() -> (CdpConnection, Core) {
    (
        CdpConnection::new(1, BrowserFactSubscriber::new()),
        Core::new(1),
    )
}

fn context(id: &str, instance: u64) -> BrowserContext {
    BrowserContext::new(id.to_owned(), instance)
}

fn background(id: &str, session: Option<&str>) -> BackgroundTarget {
    BackgroundTarget {
        handle: BrowserTargetHandle {
            target_id: id.to_owned(),
            instance: 900,
        },
        session_id: session.map(str::to_owned),
        slot: TargetRuntimeSlot::new(901, format!("about:blank#{id}")),
        promotable: true,
    }
}

fn connection_with_two_contexts() -> (CdpConnection, Core) {
    let (mut connection, mut core) = empty_connection();
    for (index, (id, target)) in [("context-a", "target-a"), ("context-b", "target-b")]
        .into_iter()
        .enumerate()
    {
        let mut added = context(id, 10 + index as u64);
        added.set_active_target_id(target, 20 + index as u64);
        added.active_target.slot.page_instance = 30 + index as u64;
        assert!(
            core.insert(&mut connection, added).is_ok(),
            "BrowserContext should register"
        );
    }
    (connection, core)
}

fn connection_with_two_empty_contexts() -> (CdpConnection, Core) {
    let (mut connection, mut core) = empty_connection();
    assert!(core.insert(&mut connection, context("context-a", 10)).is_ok());
    assert!(core.insert(&mut connection, context("context-b", 11)).is_ok());
    (connection, core)
}

/// A connection with one context and its Target in front.
fn connection_with_active_target() -> (CdpConnection, Core) {
    let (mut connection, mut core) = empty_connection();
    let mut added = context("context-1", 10);
    added.set_active_target_id("target-a", 20);
    added.active_target.slot.page_instance = 30;
    assert!(core.insert(&mut connection, added).is_ok());
    (connection, core)
}

fn inject_physical_engine_owner_divergence(connection: &mut CdpConnection) {
    connection
        .browser_context
        .as_mut()
        .expect("selected physical BrowserContext")
        .set_active_target_id("physical-only-target", 77);
}

fn selected_id(connection: &CdpConnection) -> Option<String> {
    connection.selected_id().map(str::to_owned)
}

fn inactive_ids(connection: &CdpConnection) -> Vec<String> {
    connection
        .inactive_browser_contexts
        .iter()
        .map(|context| context.id.clone())
        .collect()
}

fn assert_original_physical_context_order(connection: &CdpConnection) {
    assert_eq!(selected_id(connection).as_deref(), Some("context-a"));
    assert_eq!(inactive_ids(connection), vec!["context-b"]);
}

fn engine_owner_mismatch() -> BrowserContextRegistryError {
    BrowserContextRegistryError::EngineOwnerMismatch("context-a".to_owned())
}

#[test]
fn physically_matched_unregistered_context_is_rejected_without_panicking() {
    let (mut connection, core) = empty_connection();
    connection.browser_context = Some(context("physical-only", 5));

    let answer = Ok(core.commit(true));
    assert!(!connection.activate_matching_browser_context(|_: &BrowserContext| true, answer));

    assert_eq!(selected_id(&connection).as_deref(), Some("physical-only"));
    assert_eq!(connection.registered_browser_context_count(), 0);
    assert_eq!(connection.core.selected_browser_context_id(), None);
}

#[test]
fn default_target_creation_metadata_commits_with_browser_context_registration() {
    let (mut connection, mut core) = empty_connection();
    let mut default = context("default-context", 10);
    default.set_active_target_id("default-target", 20);
    default.active_target.slot.page_instance = 30;
    assert_eq!(default.active_target.slot.target_url, "about:blank");
    assert!(core.insert(&mut connection, default).is_ok());

    core.target("default-target").initial_loader = Some("LOADER-initial".to_owned());
    connection.adopt_core_record(core.record());
    assert!(matches!(
        connection.devtools_context_document_navigation_state(&DevToolsCommandContext {
            protocol: DevToolsProtocol::Cdp,
            session_id: None,
            target_id: None,
            browser_context_id: None,
        }),
        DevToolsDocumentNavigationState::Committed { loader_id } if loader_id == "LOADER-initial"
    ));
    assert_eq!(connection.registered_browser_context_count(), 1);

    assert_eq!(
        connection.facts.last_projected_sequence(),
        Some(1),
        "bootstrap projection must consume the occurrence before later discovery resnapshot"
    );
    assert_eq!(connection.facts.pending_fact_count(), 0);
    assert!(matches!(
        connection.effects.as_slice(),
        [ConnectionEffect::ApplyFetchOverrides]
    ));
}

#[test]
fn browser_context_registration_moves_all_target_session_storage_into_core() {
    let (mut connection, mut core) = empty_connection();
    let mut added = context("context-storage", 10);
    added.set_active_target_id("target-storage", 20);
    added.active_target.slot.page_instance = 30;
    added.active_target.slot.session_storage = 61;
    let mut behind = background("target-background", None);
    behind.slot.session_storage = 62;
    added.background_targets.push(behind);

    let request = match connection.prepare_browser_context_registration(&added) {
        Ok(request) => request,
        Err(_) => panic!("BrowserContext should be registrable"),
    };
    assert_eq!(
        request.topology.active.as_ref().map(|slot| slot.session_storage),
        Some(61)
    );
    assert_eq!(request.topology.background[0].session_storage, 62);
    assert_eq!(request.runtime_owner, 10);

    core.contexts.push((
        "context-storage".to_owned(),
        10,
        Some("target-storage".to_owned()),
    ));
    core.selected = Some("context-storage".to_owned());
    core.add_target(&mut connection, "context-storage", "target-storage", 20, 30);
    core.add_target(&mut connection, "context-storage", "target-background", 900, 901);
    let answer = Ok(core.commit(ContextRegistration {
        selected: true,
        session_storage: vec![
            SessionStorageAccess {
                target_id: "target-storage".to_owned(),
                store: 71,
            },
            SessionStorageAccess {
                target_id: "target-background".to_owned(),
                store: 72,
            },
        ],
    }));
    assert!(connection.try_insert_browser_context(added, answer).is_ok());

    let stored = match connection.browser_context_by_id("context-storage") {
        Some(stored) => stored,
        None => panic!("physical BrowserContext projection"),
    };
    assert_eq!(stored.active_target.slot.session_storage, 71);
    assert_eq!(stored.background_targets[0].slot.session_storage, 72);
    assert_eq!(stored.runtime_owner, None, "Core owns the runtime now");
    assert!(connection.core.target_handle_is_current(&stored.background_targets[0].handle));
}

#[test]
fn registration_core_rejection_does_not_publish_candidate_projection() {
    let (mut connection, mut core) = connection_with_two_contexts();

    let error = core.insert(&mut connection, context("context-a", 50));

    assert!(matches!(
        error,
        Err(BrowserContextProjectionError::Core(
            BrowserContextRegistryError::DuplicateBrowserContext(_)
        ))
    ));
    assert_original_physical_context_order(&connection);
    assert_eq!(connection.registered_browser_context_count(), 2);
    assert_eq!(connection.core.selected_browser_context_id(), Some("context-a"));
}

#[test]
fn physical_context_miss_rejects_activation_before_core_mutation() {
    let (mut connection, core) = connection_with_two_contexts();
    let missing = connection.inactive_browser_contexts.remove(0);

    assert!(matches!(
        connection.prepare_browser_context_activation("context-b"),
        Err(BrowserContextProjectionError::PhysicalContextCountMismatch {
            authoritative: 2,
            projected: 1,
        })
    ));
    let error = connection
        .activate_browser_context_projection_by_id("context-b", Ok(core.commit(true)));

    assert!(matches!(
        error,
        Err(BrowserContextProjectionError::PhysicalContextCountMismatch {
            authoritative: 2,
            projected: 1,
        })
    ));
    assert_eq!(missing.id, "context-b");
    assert_eq!(connection.core.selected_browser_context_id(), Some("context-a"));
    assert_eq!(selected_id(&connection).as_deref(), Some("context-a"));
    assert!(connection.inactive_browser_contexts.is_empty());
}

#[test]
fn activation_core_rejection_restores_exact_physical_slots() {
    let (mut connection, _core) = connection_with_two_empty_contexts();
    inject_physical_engine_owner_divergence(&mut connection);

    let error = connection
        .activate_browser_context_projection_by_id("context-b", Err(engine_owner_mismatch()));

    assert!(matches!(
        error,
        Err(BrowserContextProjectionError::Core(
            BrowserContextRegistryError::EngineOwnerMismatch(_)
        ))
    ));
    assert_original_physical_context_order(&connection);
    assert_eq!(connection.core.selected_browser_context_id(), Some("context-a"));
    assert_eq!(
        connection.browser_context.as_ref().and_then(|context| context.active_target_id()),
        Some("physical-only-target")
    );
}

fn removal(core: &Core) -> CoreCommit<ContextRemoval> {
    core.commit(ContextRemoval {
        retired_page_owners: vec![8],
        runtime_owner: 10,
    })
}

#[test]
fn selected_removal_core_rejection_restores_exact_physical_slots() {
    let (mut connection, _core) = connection_with_two_empty_contexts();
    inject_physical_engine_owner_divergence(&mut connection);

    let error = connection.remove_browser_context_projection_by_id(
        "context-a",
        Ok(BrowserContextRemovalPermit {
            was_selected: true,
            successor_browser_context_id: Some("context-b".to_owned()),
        }),
        Err(BrowserContextRuntimeRegistryError::Context(engine_owner_mismatch())),
    );

    assert!(matches!(
        error,
        Err(BrowserContextProjectionError::Core(
            BrowserContextRegistryError::EngineOwnerMismatch(_)
        ))
    ));
    assert_original_physical_context_order(&connection);
    assert_eq!(connection.registered_browser_context_count(), 2);
    assert_eq!(connection.core.selected_browser_context_id(), Some("context-a"));
    assert_eq!(
        connection.browser_context.as_ref().and_then(|context| context.active_target_id()),
        Some("physical-only-target")
    );
}

#[test]
fn last_selected_removal_core_rejection_restores_physical_selection() {
    let (mut connection, mut core) = empty_connection();
    assert!(core.insert(&mut connection, context("context-a", 10)).is_ok());
    inject_physical_engine_owner_divergence(&mut connection);

    let error = connection.remove_browser_context_projection_by_id(
        "context-a",
        Ok(BrowserContextRemovalPermit {
            was_selected: true,
            successor_browser_context_id: None,
        }),
        Err(BrowserContextRuntimeRegistryError::Context(engine_owner_mismatch())),
    );

    assert!(matches!(
        error,
        Err(BrowserContextProjectionError::Core(
            BrowserContextRegistryError::EngineOwnerMismatch(_)
        ))
    ));
    assert_eq!(selected_id(&connection).as_deref(), Some("context-a"));
    assert_eq!(
        connection.browser_context.as_ref().and_then(|context| context.active_target_id()),
        Some("physical-only-target")
    );
    assert!(connection.inactive_browser_contexts.is_empty());
    assert_eq!(connection.registered_browser_context_count(), 1);
    assert_eq!(connection.core.selected_browser_context_id(), Some("context-a"));
}

#[test]
fn inactive_removal_core_rejection_restores_exact_vector_index() {
    let (mut connection, mut core) = connection_with_two_empty_contexts();
    assert!(core.insert(&mut connection, context("context-c", 12)).is_ok());
    inject_physical_engine_owner_divergence(&mut connection);

    let error = connection.remove_browser_context_projection_by_id(
        "context-b",
        Ok(BrowserContextRemovalPermit {
            was_selected: false,
            successor_browser_context_id: None,
        }),
        Err(BrowserContextRuntimeRegistryError::Context(engine_owner_mismatch())),
    );

    assert!(matches!(
        error,
        Err(BrowserContextProjectionError::Core(
            BrowserContextRegistryError::EngineOwnerMismatch(_)
        ))
    ));
    assert_eq!(selected_id(&connection).as_deref(), Some("context-a"));
    assert_eq!(
        connection.browser_context.as_ref().and_then(|context| context.active_target_id()),
        Some("physical-only-target")
    );
    assert_eq!(
        inactive_ids(&connection),
        vec!["context-b", "context-c"],
        "typed rejection must restore the removed inactive payload at its exact index"
    );
    assert_eq!(connection.registered_browser_context_count(), 3);
    assert_eq!(connection.core.selected_browser_context_id(), Some("context-a"));
}

#[test]
fn same_public_id_wrong_context_handle_rejects_projection_before_core_mutation() {
    let (mut connection, core) = connection_with_two_empty_contexts();
    let wrong = BrowserContextHandle {
        browser_context_id: "context-a".to_owned(),
        instance: 999,
    };
    let selected = connection
        .browser_context
        .as_mut()
        .expect("selected physical BrowserContext");
    let authoritative = selected.handle.copy();
    selected.handle = wrong.copy();

    let error = connection
        .activate_browser_context_projection_by_id("context-b", Ok(core.commit(true)));

    assert!(matches!(
        error,
        Err(BrowserContextProjectionError::Core(
            BrowserContextRegistryError::BrowserContextHandleProjectionMismatch(id)
        )) if id == "context-a"
    ));
    assert!(connection.core.browser_context_handle_is_current(&authoritative));
    assert!(!connection.core.browser_context_handle_is_current(&wrong));
    assert_eq!(connection.core.selected_browser_context_id(), Some("context-a"));
    assert_original_physical_context_order(&connection);
}

#[test]
fn activation_swaps_the_selected_context_and_renews_the_engine() {
    let (mut connection, mut core) = connection_with_two_contexts();
    assert!(core.insert(&mut connection, context("context-c", 12)).is_ok());
    connection.effects.clear();

    assert!(core.activate_context(&mut connection, "context-b"));
    assert_eq!(selected_id(&connection).as_deref(), Some("context-b"));
    assert_eq!(inactive_ids(&connection), vec!["context-c", "context-a"]);
    assert!(connection.validate_browser_context_topology_projection().is_ok());
    assert!(matches!(
        connection.effects.as_slice(),
        [
            ConnectionEffect::ApplyFetchOverrides,
            ConnectionEffect::InvalidateResourceRuntime
        ]
    ));

    connection.effects.clear();
    assert!(core.activate_context(&mut connection, "context-b"));
    assert!(connection.effects.is_empty(), "already selected");
    assert!(!core.activate_context(&mut connection, "context-x"));
    assert!(matches!(
        connection.prepare_browser_context_activation("context-x"),
        Err(error) if error.is_unknown_context()
    ));
}

#[test]
fn a_second_activation_changes_nothing() {
    let (mut connection, mut core) = connection_with_two_contexts();
    assert!(core.activate_context(&mut connection, "context-b"));
    assert_eq!(selected_id(&connection).as_deref(), Some("context-b"));
    assert_eq!(connection.core.selected_browser_context_id(), Some("context-b"));
    let left_to_do = connection.effects.len();
    assert!(core.activate_context(&mut connection, "context-b"));
    assert_eq!(selected_id(&connection).as_deref(), Some("context-b"));
    assert_eq!(inactive_ids(&connection), vec!["context-a"]);
    assert_eq!(connection.core.selected_browser_context_id(), Some("context-b"));
    assert_eq!(connection.effects.len(), left_to_do);
    assert!(!core.activate_context(&mut connection, "context-x"));
    assert_eq!(selected_id(&connection).as_deref(), Some("context-b"));
    assert_eq!(inactive_ids(&connection), vec!["context-a"]);
}

#[test]
fn unchanged_activation_of_an_inactive_context_is_refused() {
    let (mut connection, core) = connection_with_two_contexts();
    let answer = Ok(core.commit(false));
    assert!(matches!(
        connection.activate_browser_context_projection_by_id("context-b", answer),
        Err(BrowserContextProjectionError::UnexpectedUnchangedActivation(id)) if id == "context-b"
    ));
    assert_original_physical_context_order(&connection);
}

#[test]
fn sessions_and_targets_name_their_contexts() {
    let (mut connection, mut core) = connection_with_two_contexts();
    connection.browser_sessions.push("SID-browser".to_owned());
    connection.inactive_browser_contexts[0].active_target.session_id = Some("SID-b".to_owned());
    connection.inactive_browser_contexts[0].worker_targets.push(WorkerTarget {
        target_id: "worker-b".to_owned(),
        url: "https://worker.example/".to_owned(),
    });

    let refused = || Err(BrowserContextRegistryError::Other("unused".to_owned()));
    assert!(connection.activate_browser_context_for_session("SID-browser", refused()));
    assert!(!connection.activate_browser_context_for_session("SID-unknown", refused()));
    assert_original_physical_context_order(&connection);

    core.selected = Some("context-b".to_owned());
    let answer = Ok(core.commit(true));
    assert!(connection.activate_browser_context_for_session("SID-b", answer));
    assert_eq!(selected_id(&connection).as_deref(), Some("context-b"));

    core.selected = Some("context-a".to_owned());
    let answer = Ok(core.commit(true));
    assert!(connection.activate_browser_context_for_target("target-a", answer));
    assert_eq!(selected_id(&connection).as_deref(), Some("context-a"));

    core.selected = Some("context-b".to_owned());
    let answer = Ok(core.commit(true));
    assert!(connection.activate_browser_context_for_target("worker-b", answer));
    assert_eq!(selected_id(&connection).as_deref(), Some("context-b"));
    assert!(!connection.activate_browser_context_for_target("worker-x", refused()));
}

#[test]
fn disposal_removes_the_exact_context_and_selects_its_successor() {
    let (mut connection, mut core) = connection_with_two_contexts();
    connection.effects.clear();
    let reservation = BrowserContextDisposalReservation {
        handle: BrowserContextHandle {
            browser_context_id: "context-a".to_owned(),
            instance: 10,
        },
    };
    let wrong = BrowserContextDisposalReservation {
        handle: BrowserContextHandle {
            browser_context_id: "context-a".to_owned(),
            instance: 11,
        },
    };
    let permit = || {
        Ok(BrowserContextRemovalPermit {
            was_selected: true,
            successor_browser_context_id: Some("context-b".to_owned()),
        })
    };
    assert!(matches!(
        connection.remove_browser_context_for_disposal(&wrong, permit(), Ok(removal(&core))),
        Err(BrowserContextProjectionError::Core(
            BrowserContextRegistryError::BrowserContextHandleProjectionMismatch(_)
        ))
    ));

    core.contexts.remove(0);
    core.targets.remove(0);
    core.selected = Some("context-b".to_owned());
    let removed =
        match connection.remove_browser_context_for_disposal(&reservation, permit(), Ok(removal(&core))) {
            Ok(removed) => removed,
            Err(_) => panic!("exact context should be removed"),
        };
    assert_eq!(removed.browser_context.id, "context-a");
    assert!(removed.selection_changed);
    assert_eq!(removed.retired_page_owners, vec![8]);
    assert_eq!(removed.runtime_owner, 10);
    assert_eq!(selected_id(&connection).as_deref(), Some("context-b"));
    assert!(connection.inactive_browser_contexts.is_empty());
    assert!(connection.validate_browser_context_topology_projection().is_ok());
    assert!(matches!(
        connection.effects.as_slice(),
        [
            ConnectionEffect::InvalidateResourceRuntime,
            ConnectionEffect::ApplyFetchOverrides
        ]
    ));
}

#[test]
fn removal_refuses_what_the_slots_do_not_hold() {
    let (mut connection, core) = connection_with_two_contexts();
    let permit = |was_selected, successor: Option<&str>| BrowserContextRemovalPermit {
        was_selected,
        successor_browser_context_id: successor.map(str::to_owned),
    };
    assert!(matches!(
        connection.remove_browser_context_projection_with_permit(
            "context-b",
            permit(true, None),
            Ok(removal(&core)),
        ),
        Err(BrowserContextProjectionError::PhysicalSelectionMismatch { authoritative, projected })
            if authoritative.as_deref() == Some("context-b") && projected.as_deref() == Some("context-a")
    ));
    assert!(matches!(
        connection.remove_browser_context_projection_with_permit(
            "context-a",
            permit(true, Some("context-x")),
            Ok(removal(&core)),
        ),
        Err(BrowserContextProjectionError::PhysicalContextMissing(id)) if id == "context-x"
    ));
    assert!(matches!(
        connection.remove_browser_context_projection_with_permit(
            "context-a",
            permit(false, None),
            Ok(removal(&core)),
        ),
        Err(BrowserContextProjectionError::PhysicalContextMissing(id)) if id == "context-a"
    ));
    assert!(matches!(
        connection.remove_browser_context_projection_by_id(
            "context-a",
            Err(BrowserContextRegistryError::Other("busy".to_owned())),
            Ok(removal(&core)),
        ),
        Err(BrowserContextProjectionError::Core(BrowserContextRegistryError::Other(_)))
    ));
    assert!(matches!(
        connection.remove_browser_context_projection_by_id(
            "context-x",
            Ok(permit(false, None)),
            Ok(removal(&core)),
        ),
        Err(BrowserContextProjectionError::PhysicalContextMissing(id)) if id == "context-x"
    ));
    assert!(matches!(
        connection.remove_browser_context_projection_with_permit(
            "context-b",
            permit(false, None),
            Err(BrowserContextRuntimeRegistryError::Runtime("gone".to_owned())),
        ),
        Err(BrowserContextProjectionError::Runtime(reason)) if reason == "gone"
    ));
    assert_original_physical_context_order(&connection);
}

#[test]
fn registration_needs_a_renderer_runtime() {
    let (mut connection, mut core) = empty_connection();
    let mut added = context("context-a", 10);
    added.runtime_owner = None;
    assert!(matches!(
        core.insert(&mut connection, added),
        Err(BrowserContextProjectionError::PhysicalRuntimeOwnerMissing(id)) if id == "context-a"
    ));
    assert!(connection.browser_context.is_none());
}

#[test]
fn context_errors_read_as_sentences() {
    let cases = vec![
        (
            BrowserContextProjectionError::Core(BrowserContextRegistryError::UnknownBrowserContext(
                "c".to_owned(),
            )),
            "core says so",
        ),
        (
            BrowserContextProjectionError::Runtime("runtime".to_owned()),
            "core says so",
        ),
        (
            BrowserContextProjectionError::PhysicalContextCountMismatch {
                authoritative: 2,
                projected: 10,
            },
            "Browser Core has 2 BrowserContexts but the physical projection has 10",
        ),
        (
            BrowserContextProjectionError::PhysicalSelectionMismatch {
                authoritative: Some("a\"b".to_owned()),
                projected: None,
            },
            "authoritative selected BrowserContext Some(\"a\\\"b\") does not match physical selection None",
        ),
        (
            BrowserContextProjectionError::DuplicatePhysicalContext("c".to_owned()),
            "physical BrowserContext projection contains duplicate identity \"c\"",
        ),
        (
            BrowserContextProjectionError::PhysicalContextMissingFromCore("c".to_owned()),
            "physical BrowserContext \"c\" is not registered in Browser Core",
        ),
        (
            BrowserContextProjectionError::PhysicalContextMissing("c".to_owned()),
            "Core-known BrowserContext \"c\" has no exact physical projection",
        ),
        (
            BrowserContextProjectionError::PhysicalRuntimeOwnerMissing("c".to_owned()),
            "new physical BrowserContext \"c\" has no renderer runtime owner to register",
        ),
        (
            BrowserContextProjectionError::UnexpectedUnchangedActivation("c".to_owned()),
            "Core reported unchanged activation for physically inactive BrowserContext \"c\"",
        ),
    ];
    for (error, expected) in cases {
        assert_eq!(error.message("core says so"), expected);
        assert_eq!(
            error.to_devtools_error("core says so").message,
            format!("BrowserContextProjectionRejected: {expected}")
        );
    }
}

#[test]
fn projected_target_registration_claims_occurrence_without_discovery_subscription() {
    let (mut connection, mut core) = connection_with_active_target();

    let created = match core.register_background(&mut connection, "context-1", background("target-b", None)) {
        Ok(Some(created)) => created,
        _ => panic!("top-level Target registration should claim its exact Browser fact"),
    };

    assert!(matches!(created.envelope().fact, BrowserFact::TargetCreated));
    assert_eq!(created.envelope().target_id, "target-b");
    assert!(connection.target_created_fact_matches_current_target(&created));
    assert_eq!(
        connection.facts.last_projected_sequence(),
        Some(created.envelope().sequence)
    );
}

fn rollback(connection: &mut CdpConnection, core: &mut Core, context: &str, target: &str) -> BackgroundTarget {
    core.targets.retain(|known| known.id != target);
    let answer = Ok(core.commit(None));
    match connection.rollback_staged_background_target_projection(context, target, answer) {
        Ok(rolled_back) => {
            assert!(rolled_back.retired_page_owner.is_none());
            rolled_back.target
        }
        Err(_) => panic!("staged background Target should roll back"),
    }
}

#[test]
fn reused_public_target_id_cannot_project_predecessor_creation_fact() {
    let (mut connection, mut core) = connection_with_active_target();
    let register = |connection: &mut CdpConnection, core: &mut Core| {
        match core.register_background(connection, "context-1", background("target-b", None)) {
            Ok(Some(created)) => created,
            _ => panic!("background Target projection should register"),
        }
    };
    let predecessor = register(&mut connection, &mut core);

    rollback(&mut connection, &mut core, "context-1", "target-b");
    let successor = register(&mut connection, &mut core);

    assert!(!connection.target_created_fact_matches_current_target(&predecessor));
    assert!(connection.target_created_fact_matches_current_target(&successor));
    assert!(!predecessor
        .envelope()
        .page_residence
        .same_residence_instance(&successor.envelope().page_residence));
}

#[test]
fn reused_public_target_id_cannot_rebind_predecessor_session_storage() {
    let (mut connection, mut core) = connection_with_active_target();
    let store = |connection: &CdpConnection| {
        let context = connection.browser_context.as_ref().expect("selected BrowserContext");
        (
            context.background_targets[0].slot.session_storage,
            context.background_targets[0].handle.copy(),
        )
    };
    assert!(core.register_background(&mut connection, "context-1", background("target-b", None)).is_ok());
    let (predecessor_store, predecessor) = store(&connection);
    assert!(connection.core.target_handle_is_current(&predecessor));

    rollback(&mut connection, &mut core, "context-1", "target-b");
    assert!(core.register_background(&mut connection, "context-1", background("target-b", None)).is_ok());
    let (successor_store, successor) = store(&connection);

    assert!(!connection.core.target_handle_is_current(&predecessor));
    assert!(connection.core.target_handle_is_current(&successor));
    assert!(!predecessor.is_same(&successor));
    assert_ne!(predecessor_store, successor_store);
}

#[test]
fn registration_and_activation_keep_core_and_physical_topology_exact() {
    let (mut connection, mut core) = connection_with_active_target();
    assert!(core.register_background(&mut connection, "context-1", background("target-b", None)).is_ok());

    assert_eq!(
        connection.core.target_browser_context_id("target-b"),
        Some("context-1")
    );
    assert!(connection.prepare_target_activation("target-b").is_ok());
    core.contexts[0].2 = Some("target-b".to_owned());
    let answer = Ok(core.commit(true));
    let activation = match connection.activate_target_projection("target-b", answer) {
        Ok(activation) => activation,
        Err(_) => panic!("registered background Target should activate"),
    };

    assert!(activation.synchronize_loaded_page());
    let browser_context = connection.browser_context.as_ref().expect("selected BrowserContext");
    assert_eq!(browser_context.active_target_id(), Some("target-b"));
    assert_eq!(browser_context.background_targets.len(), 1);
    assert_eq!(browser_context.background_targets[0].target_id(), "target-a");
    assert_eq!(
        connection.core.active_target_id_for_browser_context("context-1"),
        Some("target-b")
    );
    assert!(
        connection.validate_browser_target_topology_projection().is_ok(),
        "Core and physical Target topology should remain exact"
    );
}

#[test]
fn active_placeholder_replacement_keeps_one_core_and_physical_target() {
    let (mut connection, mut core) = connection_with_active_target();
    let placeholder = connection
        .browser_context
        .as_ref()
        .and_then(|context| context.active_target.handle.as_ref())
        .expect("placeholder handle")
        .copy();

    core.targets.clear();
    core.contexts[0].2 = Some("target-bootstrap".to_owned());
    core.add_target(&mut connection, "context-1", "target-bootstrap", 21, 31);
    let page = core.identity("target-bootstrap");
    let answer = Ok(core.commit(BrowserTargetRegistration {
        handle: BrowserTargetHandle {
            target_id: "target-bootstrap".to_owned(),
            instance: 21,
        },
        page,
        session_storage: 5,
    }));
    assert!(
        connection
            .replace_active_target_with_creation_metadata_projection(answer)
            .is_ok(),
        "active placeholder projection should be replaced"
    );

    let browser_context = connection.browser_context.as_ref().expect("selected BrowserContext");
    assert_eq!(browser_context.active_target_id(), Some("target-bootstrap"));
    assert!(browser_context.background_targets.is_empty());
    assert!(!connection.core.target_handle_is_current(&placeholder));
    assert!(browser_context
        .active_target
        .handle
        .as_ref()
        .is_some_and(|handle| connection.core.target_handle_is_current(handle)));
    assert!(!connection.core.has_target("target-a"));
    assert_eq!(connection.core.targets.len(), 1);
    assert!(connection.validate_browser_target_topology_projection().is_ok());
}

#[test]
fn staged_background_rollback_removes_core_and_physical_projection_together() {
    let (mut connection, mut core) = connection_with_active_target();
    assert!(core.register_background(&mut connection, "context-1", background("target-b", None)).is_ok());

    let removed = rollback(&mut connection, &mut core, "context-1", "target-b");

    assert_eq!(removed.target_id(), "target-b");
    assert!(!connection.core.target_handle_is_current(&removed.handle));
    assert!(!connection.core.has_target("target-b"));
    assert!(connection
        .browser_context
        .as_ref()
        .is_some_and(|context| context.background_targets.is_empty()));
    assert!(connection.validate_browser_target_topology_projection().is_ok());
}

#[test]
fn same_public_id_wrong_target_handle_cannot_authorize_activation() {
    let (mut connection, mut core) = connection_with_active_target();
    assert!(core.register_background(&mut connection, "context-1", background("target-b", None)).is_ok());
    let behind = &mut connection
        .browser_context
        .as_mut()
        .expect("selected BrowserContext")
        .background_targets[0];
    let authoritative = behind.handle.copy();
    let wrong_instance = BrowserTargetHandle {
        target_id: "target-b".to_owned(),
        instance: 4_000,
    };
    behind.handle = wrong_instance.copy();

    let error = connection.activate_target_projection("target-b", Ok(core.commit(true)));
    assert!(matches!(
        error,
        Err(TargetProjectionError::PhysicalTargetHandleMismatch { browser_context_id, target_id })
            if browser_context_id == "context-1" && target_id == "target-b"
    ));
    assert_eq!(
        connection.core.active_target_id_for_browser_context("context-1"),
        Some("target-a")
    );
    assert_eq!(
        connection.browser_context.as_ref().and_then(|context| context.active_target_id()),
        Some("target-a")
    );
    assert!(connection.core.target_handle_is_current(&authoritative));
    assert!(!connection.core.target_handle_is_current(&wrong_instance));
}

#[test]
fn same_target_wrong_page_handle_cannot_authorize_activation() {
    let (mut connection, mut core) = connection_with_active_target();
    assert!(core.register_background(&mut connection, "context-1", background("target-b", None)).is_ok());
    let behind = &mut connection
        .browser_context
        .as_mut()
        .expect("selected BrowserContext")
        .background_targets[0];
    let authoritative = behind.slot.page_instance;
    let wrong_instance = 5_000;
    behind.slot.page_instance = wrong_instance;

    let error = connection.activate_target_projection("target-b", Ok(core.commit(true)));
    assert!(matches!(
        error,
        Err(TargetProjectionError::PhysicalPageResidenceMismatch { browser_context_id, target_id })
            if browser_context_id == "context-1" && target_id == "target-b"
    ));
    assert_eq!(
        connection.core.active_target_id_for_browser_context("context-1"),
        Some("target-a")
    );
    assert_eq!(
        connection.browser_context.as_ref().and_then(|context| context.active_target_id()),
        Some("target-a")
    );
    assert!(connection.core.page_residence_is_current("context-1", "target-b", authoritative));
    assert!(!connection.core.page_residence_is_current("context-1", "target-b", wrong_instance));
}

#[test]
fn idempotent_physical_target_id_write_preserves_core_handle() {
    let (mut connection, _core) = connection_with_active_target();
    let before = connection
        .browser_context
        .as_ref()
        .and_then(|context| context.active_target.handle.as_ref())
        .expect("active Target handle")
        .copy();

    connection
        .browser_context
        .as_mut()
        .expect("selected BrowserContext")
        .set_active_target_id("target-a", 6_000);

    let after = connection
        .browser_context
        .as_ref()
        .and_then(|context| context.active_target.handle.as_ref())
        .expect("active Target handle");
    assert!(after.is_same(&before));
    assert!(connection.core.target_handle_is_current(after));
}

#[test]
fn physical_only_target_mutation_is_rejected_instead_of_becoming_authority() {
    let (mut connection, mut core) = connection_with_active_target();
    connection
        .browser_context
        .as_mut()
        .expect("selected BrowserContext")
        .background_targets
        .push(background("rogue-target", None));

    let error = core.register_background(&mut connection, "context-1", background("target-b", None));

    assert!(matches!(
        error,
        Err(TargetProjectionError::PhysicalContextTargetCountMismatch {
            browser_context_id,
            authoritative: 1,
            projected: 2,
        }) if browser_context_id == "context-1"
    ));
    assert!(!connection.core.has_target("target-b"));
    assert!(!connection.core.has_target("rogue-target"));
}

#[test]
fn core_registration_rejection_restores_the_exact_physical_context_slot() {
    let (mut connection, mut core) = connection_with_active_target();
    assert!(core.register_background(&mut connection, "context-1", background("target-b", None)).is_ok());
    let handles = |connection: &CdpConnection| {
        let context = connection.browser_context.as_ref().expect("selected BrowserContext");
        (
            context.active_target.handle.as_ref().expect("active Target handle").copy(),
            context.background_targets[0].handle.copy(),
        )
    };
    let (active_handle, background_handle) = handles(&connection);

    let error = core.register_background(&mut connection, "context-1", background("target-b", None));

    assert!(matches!(
        error,
        Err(TargetProjectionError::Core(BrowserTargetRegistryError::DuplicateTarget(id)))
            if id == "target-b"
    ));
    let (active_after, background_after) = handles(&connection);
    assert!(active_after.is_same(&active_handle));
    assert!(background_after.is_same(&background_handle));
    assert_eq!(
        connection.browser_context.as_ref().map(|context| context.background_targets.len()),
        Some(1)
    );
    assert_eq!(connection.core.targets.len(), 2);
    assert!(connection.validate_browser_target_topology_projection().is_ok());
}

#[test]
fn core_registration_rejection_restores_the_exact_inactive_context_index() {
    let (mut connection, mut core) = connection_with_active_target();
    assert!(core.register_background(&mut connection, "context-1", background("target-b", None)).is_ok());
    for (index, (context_id, target_id)) in [("context-2", "target-c"), ("context-3", "target-d")]
        .into_iter()
        .enumerate()
    {
        let mut added = context(context_id, 40 + index as u64);
        added.set_active_target_id(target_id, 50 + index as u64);
        added.active_target.slot.page_instance = 60 + index as u64;
        assert!(core.insert(&mut connection, added).is_ok());
    }
    assert_eq!(inactive_ids(&connection), vec!["context-2", "context-3"]);

    let error = core.register_background(&mut connection, "context-3", background("target-b", None));

    assert!(matches!(
        error,
        Err(TargetProjectionError::Core(BrowserTargetRegistryError::DuplicateTarget(id)))
            if id == "target-b"
    ));
    assert_eq!(
        inactive_ids(&connection),
        vec!["context-2", "context-3"],
        "typed Core rejection must restore the removed inactive Context at its original index"
    );
    assert!(connection.validate_browser_target_topology_projection().is_ok());
}

#[test]
fn target_divergence_is_named() {
    let (mut connection, mut core) = connection_with_active_target();
    core.contexts[0].2 = Some("target-z".to_owned());
    connection.adopt_core_record(core.record());
    assert!(matches!(
        connection.validate_browser_target_topology_projection(),
        Err(TargetProjectionError::PhysicalActiveTargetMismatch { authoritative, projected, .. })
            if authoritative.as_deref() == Some("target-z") && projected.as_deref() == Some("target-a")
    ));
    core.contexts[0].2 = Some("target-a".to_owned());
    core.targets[0].context = "context-9".to_owned();
    connection.adopt_core_record(core.record());
    assert!(matches!(
        connection.validate_browser_target_topology_projection(),
        Err(TargetProjectionError::PhysicalContextTargetCountMismatch { authoritative: 0, projected: 1, .. })
    ));
    core.targets[0].context = "context-1".to_owned();
    core.targets.push(Target {
        id: "target-elsewhere".to_owned(),
        context: "context-9".to_owned(),
        ..core.targets[0].clone()
    });
    connection.adopt_core_record(core.record());
    assert!(matches!(
        connection.validate_browser_target_topology_projection(),
        Err(TargetProjectionError::PhysicalTargetCountMismatch { authoritative: 2, projected: 1 })
    ));
    assert!(matches!(
        connection.activate_target_projection("target-a", Ok(core.commit(false))),
        Err(TargetProjectionError::PhysicalTargetCountMismatch { .. })
    ));
}

#[test]
fn target_changes_need_a_selected_context_and_a_slot() {
    let (mut connection, core) = empty_connection();
    assert!(matches!(
        connection.activate_target_projection("target-a", Ok(core.commit(true))),
        Err(TargetProjectionError::PhysicalBrowserContextMissing(id)) if id == "<selected>"
    ));
    let (mut connection, core) = connection_with_active_target();
    assert!(matches!(
        connection.activate_target_projection("target-x", Ok(core.commit(true))),
        Err(TargetProjectionError::PhysicalTargetMissing { target_id, .. }) if target_id == "target-x"
    ));
    assert!(matches!(
        connection.rollback_staged_background_target_projection("context-1", "target-x", Ok(core.commit(None))),
        Err(TargetProjectionError::PhysicalTargetMissing { .. })
    ));
    assert!(matches!(
        connection.rollback_staged_background_target_projection("context-x", "target-x", Ok(core.commit(None))),
        Err(TargetProjectionError::PhysicalBrowserContextMissing(id)) if id == "context-x"
    ));
    assert!(matches!(
        connection.activate_target_projection("target-a", Ok(core.commit(false))),
        Ok(activation) if !activation.synchronize_loaded_page()
    ));
}

#[test]
fn target_errors_read_as_sentences() {
    let id = || "c".to_owned();
    let target = || "t".to_owned();
    let cases = vec![
        (
            TargetProjectionError::Core(BrowserTargetRegistryError::Other("x".to_owned())),
            "core says so",
        ),
        (
            TargetProjectionError::PhysicalTargetCountMismatch { authoritative: 1, projected: 2 },
            "Browser Core has 1 Targets but the physical projection has 2",
        ),
        (
            TargetProjectionError::PhysicalContextTargetCountMismatch {
                browser_context_id: id(),
                authoritative: 3,
                projected: 4,
            },
            "BrowserContext \"c\" has 3 Core Targets but 4 physical Targets",
        ),
        (
            TargetProjectionError::PhysicalActiveTargetMismatch {
                browser_context_id: id(),
                authoritative: None,
                projected: Some(target()),
            },
            "BrowserContext \"c\" has authoritative active Target None but physical active Target Some(\"t\")",
        ),
        (
            TargetProjectionError::DuplicatePhysicalTarget(target()),
            "physical Target projection contains duplicate identity \"t\"",
        ),
        (
            TargetProjectionError::PhysicalTargetContextMismatch {
                target_id: target(),
                authoritative: Some("d".to_owned()),
                projected: id(),
            },
            "physical Target \"t\" belongs to BrowserContext \"c\", but Browser Core reports Some(\"d\")",
        ),
        (
            TargetProjectionError::PhysicalTargetHandleMismatch { browser_context_id: id(), target_id: target() },
            "physical Target \"t\" in BrowserContext \"c\" does not carry the exact live Browser Core handle",
        ),
        (
            TargetProjectionError::PhysicalPageResidenceMismatch { browser_context_id: id(), target_id: target() },
            "physical Target \"t\" in BrowserContext \"c\" does not carry the exact Browser Core Page residence",
        ),
        (
            TargetProjectionError::PhysicalBrowserContextHandleMismatch(id()),
            "physical BrowserContext \"c\" does not carry the exact Browser Core handle from the current-state snapshot",
        ),
        (
            TargetProjectionError::ForeignBrowserTopLevelTargetSnapshot,
            "top-level Target current-state snapshot belongs to another Browser instance",
        ),
        (
            TargetProjectionError::StaleBrowserContextTargetSnapshot(id()),
            "BrowserContext current-state snapshot for \"c\" is no longer live",
        ),
        (
            TargetProjectionError::StaleTopLevelTargetSnapshot { browser_context_id: id(), target_id: target() },
            "top-level Target current-state snapshot for \"t\" in BrowserContext \"c\" is no longer live",
        ),
        (
            TargetProjectionError::PhysicalBrowserContextMissing(id()),
            "BrowserContext \"c\" has no exact physical Target projection",
        ),
        (
            TargetProjectionError::PhysicalTargetMissing { browser_context_id: id(), target_id: target() },
            "Target \"t\" has no physical payload in BrowserContext \"c\"",
        ),
    ];
    for (error, expected) in cases {
        assert_eq!(error.message("core says so"), expected);
        assert_eq!(
            error.to_devtools_error("core says so").message,
            format!("TargetProjectionRejected: {expected}")
        );
        assert_eq!(
            PageResidenceProjectionError::TargetTopology(error).message("core says so"),
            expected
        );
    }
    let pages = vec![
        (
            PageResidenceProjectionError::PhysicalResidenceMismatch { browser_context_id: id(), target_id: target() },
            "physical Page residence for Target \"t\" in BrowserContext \"c\" does not match the prepared Browser Core permit",
        ),
        (
            PageResidenceProjectionError::InitialDocumentPageAlreadyPresent { browser_context_id: id(), target_id: target() },
            "initial Document materialization for Target \"t\" in BrowserContext \"c\" requires an empty physical Page slot",
        ),
        (
            PageResidenceProjectionError::RendererPageOwnerMissing { browser_context_id: id(), target_id: target() },
            "Page candidate for Target \"t\" in BrowserContext \"c\" has no renderer lifetime owner",
        ),
    ];
    for (error, expected) in pages {
        assert_eq!(error.message(""), expected);
    }
}

fn permit(core: &Core, target: &str) -> BrowserPageResidenceTransitionPermit {
    let previous_page = core.identity(target);
    BrowserPageResidenceTransitionPermit {
        owner: BrowserPageOwnerKey {
            browser_context_id: previous_page.browser_context_id.clone(),
            target_id: target.to_owned(),
        },
        previous_page,
    }
}

fn network_failure() -> BrowserNavigationFailure {
    BrowserNavigationFailure::Network {
        error_text: "net::ERR_FAILED".to_owned(),
    }
}

#[test]
fn physical_residence_divergence_rejects_failed_discard_before_core_commit() {
    let (mut connection, mut core) = connection_with_active_target();
    let generation_before = core.targets[0].page.generation;
    let had_loaded_page = connection
        .browser_context
        .as_ref()
        .is_some_and(|context| context.active_target.slot.has_loaded_page());
    let navigation = core
        .start(&mut connection, None, "LOADER-failed")
        .expect("default Target should start failed navigation");
    let wrong_residence = 7_000;
    connection
        .browser_context
        .as_mut()
        .expect("selected BrowserContext")
        .active_target
        .slot
        .page_instance = wrong_residence;

    let allowed = permit(&core, "target-a");
    let answer = Some(core.commit(()));
    let error = connection.discard_loaded_page_after_failed_navigation_for_session_owner(
        None,
        &navigation,
        &network_failure(),
        &read_navigation_url("https://failed.example/").expect("failure URL"),
        Some(allowed),
        answer,
    );

    assert!(matches!(
        error,
        Err(PageResidenceProjectionError::TargetTopology(
            TargetProjectionError::PhysicalPageResidenceMismatch { browser_context_id, target_id }
        )) if browser_context_id == "context-1" && target_id == "target-a"
    ));
    assert_eq!(
        core.targets[0].page.generation,
        generation_before,
        "rejected physical projection must not advance Browser Core"
    );
    let physical = connection
        .browser_context
        .as_ref()
        .expect("physical BrowserContext must remain installed");
    assert_eq!(physical.active_target.slot.has_loaded_page(), had_loaded_page);
    assert_eq!(
        physical.active_target.slot.page_instance, wrong_residence,
        "typed rejection must preserve the exact divergent physical payload"
    );
}

#[test]
fn occupied_initial_document_slot_is_rejected_before_materialization_commit() {
    let (mut connection, core) = connection_with_active_target();
    connection
        .browser_context
        .as_mut()
        .expect("selected BrowserContext")
        .active_target
        .slot
        .loaded_page = Some(55);
    let allowed = permit(&core, "target-a");

    let error = connection.stage_physical_page_residence_projection(&allowed, true);

    assert!(matches!(
        error,
        Err(PageResidenceProjectionError::InitialDocumentPageAlreadyPresent {
            browser_context_id,
            target_id,
        }) if browser_context_id == "context-1" && target_id == "target-a"
    ));
    assert!(connection
        .browser_context
        .as_ref()
        .is_some_and(|context| context.active_target.slot.has_loaded_page()));
    assert!(connection.stage_physical_page_residence_projection(&allowed, false).is_ok());
    let owner = allowed.owner.copy();
    assert!(matches!(
        connection.install_initial_loaded_page_for_page_owner(
            &owner,
            Some(allowed),
            Some("LOADER".to_owned()),
            true,
            Some(core.commit(56)),
        ),
        Err(PageResidenceProjectionError::InitialDocumentPageAlreadyPresent { .. })
    ));
}

#[test]
fn background_failed_discard_restores_exact_target_index_after_projection() {
    let (mut connection, mut core) = empty_connection();
    let mut added = context("CTX-background-discard", 10);
    added.set_active_target_id("TID-active", 20);
    added.active_target.slot.page_instance = 30;
    for (index, name) in ["before", "selected", "after"].into_iter().enumerate() {
        let mut behind = background(&format!("TID-{name}"), Some(&format!("SID-{name}")));
        behind.handle.instance = 21 + index as u64;
        behind.slot.page_instance = 31 + index as u64;
        added.background_targets.push(behind);
    }
    assert!(core.insert(&mut connection, added).is_ok());
    connection.effects.clear();
    let generation_before = core.target("TID-selected").page.generation;
    let final_url = read_navigation_url("https://failed.example/background").expect("failure URL");
    let navigation = core
        .start(&mut connection, Some("SID-selected"), "LOADER-background-failed")
        .expect("background Target should start failed navigation");
    let admission_sequence = connection
        .facts
        .last_projected_sequence()
        .expect("navigation admission should claim its exact Browser fact");

    let allowed = permit(&core, "TID-selected");
    let previous = core.identity("TID-selected");
    core.target("TID-selected").page.generation += 1;
    core.target("TID-selected").pending = None;
    let current = core.identity("TID-selected");
    core.publish(
        &mut connection,
        &current,
        BrowserFact::NavigationFailed {
            navigation: navigation.copy(),
            failure: network_failure(),
            previous_page: Some(previous),
        },
    );
    let answer = Some(core.commit(()));
    assert!(matches!(
        connection.discard_loaded_page_after_failed_navigation_for_session_owner(
            Some("SID-selected"),
            &navigation,
            &network_failure(),
            &final_url,
            Some(allowed),
            answer,
        ),
        Ok(Some(()))
    ));

    let discarded = connection
        .browser_context
        .as_ref()
        .expect("selected BrowserContext must be restored");
    assert_eq!(
        discarded
            .background_targets
            .iter()
            .map(|target| target.target_id())
            .collect::<Vec<_>>(),
        ["TID-before", "TID-selected", "TID-after"],
        "same-turn transaction must restore the exact background index"
    );
    assert_eq!(
        discarded.background_targets[1].slot.target_url,
        "https://failed.example/background"
    );
    assert_eq!(discarded.background_targets[1].slot.security_origin, "https://failed.example");
    assert_eq!(
        discarded.background_targets[1].slot.absence,
        TargetPageAbsenceReason::NavigationFailed
    );
    assert_eq!(core.target("TID-selected").page.generation, generation_before + 1);
    assert_eq!(
        connection.facts.last_projected_sequence(),
        Some(admission_sequence + 1),
        "failed Page discard must consume its exact NavigationFailed fact after admission"
    );
    assert!(connection.validate_browser_target_topology_projection().is_ok());
    assert!(matches!(
        connection.effects.as_slice(),
        [
            ConnectionEffect::Target { change: TargetChange::ClearCommittedNavigationState, .. },
            ConnectionEffect::Target { change: TargetChange::ClearLoadedDocumentSessions, .. },
            ConnectionEffect::Target { change: TargetChange::ClearRendererDocumentState, .. },
            ConnectionEffect::Target { change: TargetChange::ResetSubresourceCursor, .. },
            ConnectionEffect::Target { change: TargetChange::ClearWebsocketArtifacts, target_id, .. },
        ] if target_id == "TID-selected"
    ));
}

#[test]
fn first_page_is_installed_once_and_stale_candidates_are_not() {
    let (mut connection, core) = connection_with_active_target();
    connection.effects.clear();
    let owner = permit(&core, "target-a").owner.copy();
    let loader = || Some("LOADER-initial".to_owned());
    assert!(matches!(
        connection.install_initial_loaded_page_for_page_owner(&owner, None, loader(), true, Some(core.commit(5))),
        Ok(InitialDocumentPageInstallResult::Stale)
    ));
    assert!(matches!(
        connection.install_initial_loaded_page_for_page_owner(
            &owner,
            Some(permit(&core, "target-a")),
            None,
            true,
            Some(core.commit(5)),
        ),
        Ok(InitialDocumentPageInstallResult::Stale)
    ));
    assert!(matches!(
        connection.install_initial_loaded_page_for_page_owner(
            &owner,
            Some(permit(&core, "target-a")),
            loader(),
            false,
            Some(core.commit(5)),
        ),
        Err(PageResidenceProjectionError::RendererPageOwnerMissing { .. })
    ));
    assert!(matches!(
        connection.install_initial_loaded_page_for_page_owner(
            &owner,
            Some(permit(&core, "target-a")),
            loader(),
            true,
            None,
        ),
        Ok(InitialDocumentPageInstallResult::Stale)
    ));
    let mut old = permit(&core, "target-a");
    old.previous_page.residence.generation = 9;
    assert!(matches!(
        connection.install_initial_loaded_page_for_page_owner(&owner, Some(old), loader(), true, Some(core.commit(5))),
        Err(PageResidenceProjectionError::PhysicalResidenceMismatch { .. })
    ));
    assert!(connection.effects.is_empty());
    assert!(matches!(
        connection.install_initial_loaded_page_for_page_owner(
            &owner,
            Some(permit(&core, "target-a")),
            loader(),
            true,
            Some(core.commit(5)),
        ),
        Ok(InitialDocumentPageInstallResult::Installed)
    ));
    assert_eq!(connection.loaded_page_for_protocol_access(None), Ok(5));
    assert!(matches!(
        connection.effects.as_slice(),
        [ConnectionEffect::Target {
            change: TargetChange::BindRendererDocumentLifecycle { loader_id },
            ..
        }] if loader_id == "LOADER-initial"
    ));
}

#[test]
fn clearing_protocol_projection_does_not_clear_browser_request_authority() {
    let (mut connection, mut core) = connection_with_active_target();
    let token = core
        .start(&mut connection, None, "LOADER-core-owned")
        .expect("default target should start a navigation");

    connection
        .browser_context
        .as_mut()
        .expect("default target runtime slot")
        .active_target
        .slot
        .clear_renderer_document_protocol_state();

    assert!(connection.has_pending_document_navigation_for_session_owner(None));
    assert!(connection.accepts_pending_document_navigation_for_session_owner(None, &token));
}

#[test]
fn delayed_protocol_tail_cannot_clear_a_successor_browser_request() {
    let (mut connection, mut core) = connection_with_active_target();
    let first = core
        .start(&mut connection, None, "LOADER-first")
        .expect("first navigation");
    let second = core
        .start(&mut connection, None, "LOADER-second")
        .expect("successor navigation");

    connection.clear_document_navigation_protocol_tail_for_session_owner_if_loader_matches(
        None,
        &first.loader_id,
    );

    assert!(!connection.accepts_pending_document_navigation_for_session_owner(None, &first));
    assert!(connection.accepts_pending_document_navigation_for_session_owner(None, &second));
    let slot = &connection.browser_context.as_ref().expect("slot").active_target.slot;
    assert!(slot.pending_navigation.as_ref().is_some_and(|pending| pending.is_same(&second)));

    connection.clear_document_navigation_protocol_tail_for_session_owner_if_loader_matches(
        None,
        &second.loader_id,
    );
    let slot = &connection.browser_context.as_ref().expect("slot").active_target.slot;
    assert!(slot.pending_navigation.is_none());
    assert!(connection.accepts_pending_document_navigation_for_session_owner(None, &second));
}

#[test]
fn document_state_follows_core_and_prefers_the_named_target() {
    let (mut connection, mut core) = connection_with_active_target();
    assert!(core
        .register_background(&mut connection, "context-1", background("target-b", Some("SID-b")))
        .is_ok());
    let state = |connection: &CdpConnection, target: Option<&str>, session: Option<&str>| {
        match connection.devtools_context_document_navigation_state(&DevToolsCommandContext {
            protocol: DevToolsProtocol::Cdp,
            session_id: session.map(str::to_owned),
            target_id: target.map(str::to_owned),
            browser_context_id: None,
        }) {
            DevToolsDocumentNavigationState::Unavailable => "unavailable".to_owned(),
            DevToolsDocumentNavigationState::PendingNavigation => "pending".to_owned(),
            DevToolsDocumentNavigationState::Committed { loader_id } => loader_id,
            DevToolsDocumentNavigationState::AwaitingCommit => "awaiting".to_owned(),
        }
    };
    assert_eq!(state(&connection, None, None), "awaiting");
    let token = core.start(&mut connection, Some("SID-b"), "LOADER-b").expect("request");
    assert_eq!(state(&connection, None, Some("SID-b")), "pending");
    assert_eq!(state(&connection, Some("target-b"), None), "pending");
    assert_eq!(state(&connection, Some("target-a"), Some("SID-b")), "awaiting");
    assert_eq!(state(&connection, Some("target-x"), None), "unavailable");
    assert_eq!(state(&connection, None, Some("SID-x")), "unavailable");
    assert!(connection.has_pending_document_navigation_for_target_id("target-b"));
    assert!(!connection.has_pending_document_navigation_for_target_id("target-a"));
    assert!(connection.accepts_pending_document_navigation_token(&token));
    assert!(connection.accepts_document_body_completion_for_session_owner(Some("SID-b"), &token));
    assert!(!connection.accepts_document_body_completion_for_session_owner(None, &token));
    assert_eq!(
        connection.ensure_document_accessible_for_session_owner(Some("SID-b")),
        Err(DocumentAccessError::NavigationChangingDocument)
    );
    assert_eq!(
        DocumentAccessError::NavigationChangingDocument.message(""),
        "Navigation is changing the document"
    );
    assert_eq!(DocumentAccessError::NoDocumentLoaded.message(""), "NoDocumentLoaded");
    assert_eq!(DocumentAccessError::NoSlot.message("no target"), "no target");
    assert_eq!(
        connection.loaded_page_for_protocol_access(Some("SID-b")),
        Err(DocumentAccessError::NavigationChangingDocument)
    );
    assert_eq!(
        connection.loaded_page_for_interruptible_protocol_access(Some("SID-b")),
        Err(DocumentAccessError::NoDocumentLoaded)
    );
    assert_eq!(
        connection.loaded_page_for_protocol_access(Some("SID-x")),
        Err(DocumentAccessError::NoSlot)
    );

    core.target("target-b").pending = None;
    core.target("target-b").committed = Some(token.copy());
    connection.adopt_core_record(core.record());
    assert_eq!(state(&connection, Some("target-b"), None), "LOADER-b");
    assert!(connection.accepts_committed_document_navigation_for_session_owner(Some("SID-b"), &token));
    assert_eq!(
        connection.committed_document_loader_id_for_session_owner(Some("SID-b")).as_deref(),
        Some("LOADER-b")
    );
    assert_eq!(
        connection.current_document_loader_id_for_session_owner(Some("SID-b")).as_deref(),
        Some("LOADER-b")
    );
    assert_eq!(
        connection.current_page_residence_for_document_navigation(&token),
        Some(core.identity("target-b"))
    );
}

#[test]
fn ended_requests_are_announced_only_with_their_exact_fact() {
    let (mut connection, mut core) = connection_with_active_target();
    let token = core.start(&mut connection, None, "LOADER-1").expect("request");
    let stranger = DocumentNavigationToken {
        target_id: "target-x".to_owned(),
        loader_id: "LOADER-1".to_owned(),
        request: token.request,
    };
    let answer = Some(core.commit(()));
    assert!(!connection.fail_document_navigation_for_session_owner_if_matches(
        None,
        &stranger,
        &network_failure(),
        answer,
    ));
    assert!(!connection.fail_document_navigation_for_session_owner_if_matches(
        None,
        &token,
        &network_failure(),
        None,
    ));
    let page = core.identity("target-a");
    core.publish(
        &mut connection,
        &page,
        BrowserFact::NavigationFailed {
            navigation: token.copy(),
            failure: network_failure(),
            previous_page: None,
        },
    );
    let answer = Some(core.commit(()));
    assert!(connection.fail_document_navigation_for_session_owner_if_matches(
        None,
        &token,
        &network_failure(),
        answer,
    ));
    let download = core.start(&mut connection, None, "LOADER-2").expect("request");
    core.publish(
        &mut connection,
        &page,
        BrowserFact::NavigationConvertedToDownload {
            navigation: download.copy(),
        },
    );
    let answer = Some(core.commit(()));
    assert!(connection.convert_document_navigation_to_download_for_session_owner_if_matches(
        None, &download, answer,
    ));
    let answer = Some(core.commit(()));
    assert!(!connection.convert_document_navigation_to_download_for_session_owner_if_matches(
        None, &download, answer,
    ));
}

#[test]
fn attachment_is_current_while_core_commits_its_request() {
    let (mut connection, mut core) = connection_with_active_target();
    let token = core.start(&mut connection, None, "LOADER-1").expect("request");
    let binding = CommittedRendererDocumentBinding {
        renderer_frame: 1,
        renderer_document: 2,
        renderer_epoch: 3,
        navigation: Some(token.copy()),
        frame_id: "target-a".to_owned(),
        loader_id: "LOADER-1".to_owned(),
        page_attachment_id: 4,
        document_open_replacement_epoch: None,
    };
    connection
        .browser_context
        .as_mut()
        .expect("slot")
        .active_target
        .slot
        .binding = Some(binding.copy());
    assert!(connection.committed_renderer_document_binding_for_session_owner(None).is_none());
    core.target("target-a").committed = Some(token);
    connection.adopt_core_record(core.record());
    assert!(connection.renderer_document_binding_is_current_for_session_owner(None, &binding));
    let mut other = binding.copy();
    other.page_attachment_id = 5;
    assert!(!connection.renderer_document_binding_is_current_for_session_owner(None, &other));
}

fn snapshot(core: &Core) -> BrowserTopLevelTargetSnapshot {
    BrowserTopLevelTargetSnapshot {
        browser_instance: core.instance,
        contexts: core
            .contexts
            .iter()
            .map(|(id, instance, _)| BrowserContextTargetSnapshot {
                browser_context: BrowserContextHandle {
                    browser_context_id: id.clone(),
                    instance: *instance,
                },
                targets: core
                    .targets
                    .iter()
                    .filter(|target| target.context == *id)
                    .map(|target| BrowserTargetStateSnapshot {
                        browser_context: BrowserContextHandle {
                            browser_context_id: id.clone(),
                            instance: *instance,
                        },
                        target: BrowserTargetHandle {
                            target_id: target.id.clone(),
                            instance: target.instance,
                        },
                        page: core.identity(&target.id),
                    })
                    .collect(),
            })
            .collect(),
    }
}

fn connection_with_active_and_background_targets() -> (CdpConnection, Core) {
    let (mut connection, mut core) = empty_connection();
    let mut added = context("context-1", 10);
    added.set_active_target_id("target-active", 20);
    added.active_target.slot.page_instance = 30;
    assert!(core.insert(&mut connection, added).is_ok());
    assert!(core
        .register_background(&mut connection, "context-1", background("target-background", None))
        .is_ok());
    (connection, core)
}

fn capture(connection: &CdpConnection, core: &Core) -> BrowserTopLevelTargetSnapshot {
    match connection.capture_browser_top_level_target_snapshot(Ok(snapshot(core))) {
        Ok(captured) => captured,
        Err(_) => panic!("exact physical state should snapshot"),
    }
}

#[test]
fn frontend_projection_uses_browser_snapshot_order() {
    let (mut connection, core) = connection_with_active_and_background_targets();
    let selected = connection.browser_context.as_mut().expect("selected BrowserContext");
    selected.active_target.slot.popup_id = Some(3);
    selected.worker_targets.push(WorkerTarget {
        target_id: "worker-1".to_owned(),
        url: "https://worker.example/".to_owned(),
    });
    let captured = capture(&connection, &core);
    let infos = match connection.project_devtools_target_infos_from_browser_snapshot(&captured) {
        Ok(infos) => infos,
        Err(_) => panic!("exact snapshot should project"),
    };
    let target_ids: Vec<&str> = infos.iter().map(|info| info.target_id.as_str()).collect();
    assert_eq!(target_ids, ["target-active", "target-background", "worker-1"]);
    assert_eq!(infos[0].moli_popup_id, Some(3));
    assert_eq!(infos[1].url, "about:blank#target-background");
    assert_eq!(infos[2].url, "https://worker.example/");
    assert!(matches!(
        connection.project_top_level_target_snapshot(&captured.contexts[0].targets[0]),
        Ok(info) if info.moli_popup_id.is_none() && info.browser_context_id == "context-1"
    ));
}

#[test]
fn stale_target_snapshot_cannot_project_replacement_payload() {
    let (mut connection, mut core) = connection_with_active_and_background_targets();
    let captured = capture(&connection, &core);
    let stale = &captured.contexts[0].targets[1];

    rollback(&mut connection, &mut core, "context-1", "target-background");
    assert!(core
        .register_background(&mut connection, "context-1", background("target-background", None))
        .is_ok());

    let error = match connection.project_top_level_target_snapshot(stale) {
        Err(error) => error.to_devtools_error(""),
        Ok(_) => panic!("predecessor snapshot must not project successor metadata"),
    };
    assert!(error.message.contains("current-state snapshot"));
    assert!(!connection.browser_target_state_snapshot_is_current(stale));
    assert!(connection.browser_context_target_snapshot_is_current(&captured.contexts[0]));
}

#[test]
fn exact_snapshot_rejects_wrong_physical_page_slot() {
    let (mut connection, core) = connection_with_active_and_background_targets();
    let captured = capture(&connection, &core);
    connection
        .browser_context
        .as_mut()
        .expect("browser context")
        .background_targets[0]
        .slot
        .page_instance = 8_000;

    let error = match connection.project_top_level_target_snapshot(&captured.contexts[0].targets[1]) {
        Err(error) => error.to_devtools_error(""),
        Ok(_) => panic!("wrong physical Page slot must not project"),
    };
    assert!(error.message.contains("Page residence"));
    assert!(connection.capture_browser_top_level_target_snapshot(Ok(snapshot(&core))).is_err());
}

#[test]
fn empty_snapshot_from_another_browser_cannot_project() {
    let source = CdpConnection::new(1, BrowserFactSubscriber::new());
    let captured = capture(&source, &Core::new(1));
    let destination = CdpConnection::new(2, BrowserFactSubscriber::new());

    let error = match destination.project_devtools_target_infos_from_browser_snapshot(&captured) {
        Err(error) => error.to_devtools_error(""),
        Ok(_) => panic!("foreign empty snapshot must retain Browser provenance"),
    };
    assert!(error.message.contains("another Browser instance"));
}

fn termination(core: &Core, target: &str, kind: BrowserTargetTerminationKind) -> BrowserTargetTermination {
    let previous_page = core.identity(target);
    let mut terminal_page = previous_page.clone();
    terminal_page.residence.generation += 1;
    BrowserTargetTermination {
        browser_context_id: previous_page.browser_context_id.clone(),
        target_id: target.to_owned(),
        previous_page,
        terminal_page,
        kind,
    }
}

fn sessions_connection() -> (CdpConnection, Core) {
    let (mut connection, core) = connection_with_active_and_background_targets();
    let selected = connection.browser_context.as_mut().expect("selected BrowserContext");
    selected.active_target.session_id = Some("SID-active".to_owned());
    selected.active_target.slot.loaded_page = Some(70);
    selected.background_targets[0].session_id = Some("SID-background".to_owned());
    selected.background_targets[0].slot.loaded_page = Some(71);
    for (target, session) in [
        ("target-active", "AUX-1"),
        ("target-background", "AUX-2"),
        ("target-active", "AUX-3"),
    ] {
        selected.auxiliary_sessions.push(AuxiliarySession {
            target_id: target.to_owned(),
            session_id: session.to_owned(),
        });
    }
    connection.effects.clear();
    (connection, core)
}

#[test]
fn crash_takes_the_page_and_leaves_the_target() {
    let (mut connection, core) = sessions_connection();
    let crashed = termination(&core, "target-active", BrowserTargetTerminationKind::Crash);
    assert_eq!(
        connection.project_target_crash_after_browser_owner_commit(None, &crashed),
        Some(Some(70))
    );
    let selected = connection.browser_context.as_ref().expect("selected BrowserContext");
    assert_eq!(selected.active_target_id(), Some("target-active"));
    assert_eq!(selected.active_target.slot.loaded_page, None);
    assert_eq!(selected.active_target.slot.absence, TargetPageAbsenceReason::TargetCrashed);
    assert_eq!(connection.effects.len(), 7);

    let behind = termination(&core, "target-background", BrowserTargetTerminationKind::Crash);
    assert_eq!(
        connection.project_target_crash_after_browser_owner_commit(Some("AUX-2"), &behind),
        Some(Some(71))
    );
    assert_eq!(connection.effects.len(), 15);
    assert_eq!(
        connection.project_target_crash_after_browser_owner_commit(Some("SID-x"), &behind),
        None
    );
}

#[test]
fn page_close_ends_the_target_and_its_sessions() {
    let (mut connection, core) = sessions_connection();
    let closed_by_page = termination(&core, "target-background", BrowserTargetTerminationKind::Close);
    let closed = connection
        .project_page_close_after_browser_owner_commit(Some("SID-background"), &closed_by_page)
        .expect("background Target closes");
    assert_eq!(closed.closed.target_id, "target-background");
    assert_eq!(closed.closed.primary_session_id.as_deref(), Some("SID-background"));
    assert_eq!(closed.closed.auxiliary_session_ids, vec!["AUX-2"]);
    assert_eq!(closed.retired_page, Some(71));

    let closed_by_page = termination(&core, "target-active", BrowserTargetTerminationKind::Close);
    let closed = connection
        .project_page_close_after_browser_owner_commit(None, &closed_by_page)
        .expect("active Target closes");
    assert_eq!(closed.closed.target_id, "target-active");
    assert_eq!(closed.closed.auxiliary_session_ids, vec!["AUX-1", "AUX-3"]);
    assert_eq!(closed.retired_page, Some(70));
    let selected = connection.browser_context.as_ref().expect("selected BrowserContext");
    assert_eq!(selected.active_target_id(), None);
    assert!(selected.background_targets.is_empty());
    assert!(selected.auxiliary_sessions.is_empty());
    connection.effects.clear();
    assert!(connection
        .project_page_close_after_browser_owner_commit(None, &closed_by_page)
        .is_none());
    assert!(matches!(
        connection.effects.as_slice(),
        [ConnectionEffect::Target {
            change: TargetChange::TakeParkedNetworkArtifacts,
            target_id,
            ..
        }] if target_id == "target-active"
    ));
}

#[test]
fn front_close_names_the_target_to_promote() {
    let (mut connection, core) = sessions_connection();
    let ended = termination(&core, "target-active", BrowserTargetTerminationKind::Close);
    let closed = connection
        .project_active_target_close_after_browser_owner_commit(&ended)
        .expect("active Target closes");
    assert_eq!(closed.closed.promoted_target_id.as_deref(), Some("target-background"));
    assert_eq!(closed.closed.primary_session_id.as_deref(), Some("SID-active"));
    assert_eq!(closed.retired_page, Some(70));
    assert_eq!(connection.effects.len(), 16);
    assert!(connection.project_active_target_close_after_browser_owner_commit(&ended).is_none());
}

#[test]
fn background_close_fails_waiting_calls_even_without_a_slot() {
    let (mut connection, core) = sessions_connection();
    let ended = termination(&core, "target-background", BrowserTargetTerminationKind::Close);
    let closed = connection
        .project_background_target_close_after_browser_owner_commit(&ended, "closed".to_owned())
        .expect("background Target closes");
    assert_eq!(closed.closed.auxiliary_session_ids, vec!["AUX-2"]);
    assert_eq!(connection.effects.len(), 7);
    assert!(matches!(
        &connection.effects[0],
        ConnectionEffect::Target { change: TargetChange::FailPendingAwaits { reason }, .. }
            if reason == "closed"
    ));
    assert!(connection
        .project_background_target_close_after_browser_owner_commit(&ended, "again".to_owned())
        .is_none());
    assert_eq!(connection.effects.len(), 9);
}

#[test]
fn reported_milestones_are_shown_once_to_their_session() {
    let (mut connection, mut core) = connection_with_active_target();
    let page = core.identity("target-a");
    let event = RendererDocumentLifecycleEvent {
        frame: 71,
        document: 3,
        epoch: 2,
        sequence: 1,
        timestamp_micros: 10,
        kind: RendererDocumentLifecycleEventKind::Milestone(RendererDocumentLifecycleMilestone::Load),
    };
    let attached = CommittedRendererDocumentBinding {
        renderer_frame: event.frame,
        renderer_document: event.document,
        renderer_epoch: event.epoch,
        navigation: None,
        frame_id: "target-a".to_owned(),
        loader_id: "loader-a".to_owned(),
        page_attachment_id: 1,
        document_open_replacement_epoch: None,
    };
    let reached = BrowserFact::DocumentLifecycleReached {
        document: event.identity(),
        milestone: RendererDocumentLifecycleMilestone::Load,
        stamp: event.stamp(),
    };
    let published = BrowserFactEnvelope {
        sequence: core.facts + 1,
        browser_context_id: page.browser_context_id.clone(),
        target_id: "target-a".to_owned(),
        page_residence: page.clone(),
        fact: reached.clone(),
    };
    connection.record_authoritative_renderer_document_lifecycle_facts(
        Some(&page),
        Some(&attached),
        &vec![],
        Some(vec![published.clone()]),
    );
    assert_eq!(connection.facts.lifecycle_causal_link_count(), 0);
    connection.record_authoritative_renderer_document_lifecycle_facts(
        Some(&page),
        Some(&attached),
        &vec![event],
        Some(vec![published]),
    );
    assert_eq!(connection.facts.lifecycle_causal_link_count(), 1);
    core.publish(&mut connection, &page, reached);
    assert!(connection.capture_browser_fact_wake(core.facts).is_ok());

    let shown = connection
        .take_visible_renderer_document_lifecycle_facts(None, &attached, &vec![event])
        .expect("the milestone is visible");
    assert_eq!(shown.len(), 1);
    assert_eq!(shown[0].envelope().sequence, core.facts);
    assert!(connection
        .take_visible_renderer_document_lifecycle_facts(None, &attached, &vec![event])
        .is_err());
}

#[test]
fn refused_context_is_dropped() {
    let (mut connection, core) = connection_with_two_empty_contexts();
    connection.insert_browser_context(
        context("context-a", 12),
        Err(BrowserContextRuntimeRegistryError::Context(
            BrowserContextRegistryError::DuplicateBrowserContext("context-a".to_owned()),
        )),
    );
    assert_original_physical_context_order(&connection);
    assert_eq!(connection.registered_browser_context_count(), core.contexts.len());
}

/// Browser Core after a Target has ended: it is gone, and in front of its
/// context no more.
fn end_target(connection: &mut CdpConnection, core: &mut Core, target: &str) {
    core.targets.retain(|known| known.id != target);
    for (_, _, active) in core.contexts.iter_mut() {
        if active.as_deref() == Some(target) {
            *active = None;
        }
    }
    connection.adopt_core_record(core.record());
}

#[test]
fn slots_agree_again_after_targets_end() {
    let (mut connection, mut core) = sessions_connection();
    assert!(connection.validate_browser_target_topology_projection().is_ok());

    let crashed = termination(&core, "target-active", BrowserTargetTerminationKind::Crash);
    assert!(connection.project_target_crash_after_browser_owner_commit(None, &crashed).is_some());
    assert!(connection.validate_browser_target_topology_projection().is_ok());

    let ended = termination(&core, "target-background", BrowserTargetTerminationKind::Close);
    end_target(&mut connection, &mut core, "target-background");
    assert!(connection.validate_browser_target_topology_projection().is_err());
    assert!(connection
        .project_background_target_close_after_browser_owner_commit(&ended, "closed".to_owned())
        .is_some());
    assert!(connection.validate_browser_target_topology_projection().is_ok());

    let ended = termination(&core, "target-active", BrowserTargetTerminationKind::Close);
    end_target(&mut connection, &mut core, "target-active");
    assert!(connection.validate_browser_target_topology_projection().is_err());
    assert!(connection.project_active_target_close_after_browser_owner_commit(&ended).is_some());
    assert!(connection.validate_browser_target_topology_projection().is_ok());
}

#[test]
fn slots_agree_again_after_a_page_closes_itself() {
    let (mut connection, mut core) = sessions_connection();
    for (session, target) in [(Some("SID-background"), "target-background"), (None, "target-active")] {
        let ended = termination(&core, target, BrowserTargetTerminationKind::Close);
        end_target(&mut connection, &mut core, target);
        assert!(connection.validate_browser_target_topology_projection().is_err());
        assert!(connection.project_page_close_after_browser_owner_commit(session, &ended).is_some());
        assert!(connection.validate_browser_target_topology_projection().is_ok());
    }
}

#[test]
fn slots_agree_after_contexts_come_and_go() {
    let (mut connection, mut core) = connection_with_two_empty_contexts();
    assert!(core.insert(&mut connection, context("context-c", 12)).is_ok());
    assert!(connection.validate_browser_context_topology_projection().is_ok());

    core.contexts.remove(1);
    let permit = Ok(BrowserContextRemovalPermit {
        was_selected: false,
        successor_browser_context_id: None,
    });
    assert!(connection
        .remove_browser_context_projection_by_id("context-b", permit, Ok(removal(&core)))
        .is_ok());
    assert!(connection.validate_browser_context_topology_projection().is_ok());
    assert_eq!(selected_id(&connection).as_deref(), Some("context-a"));
    assert_eq!(inactive_ids(&connection), vec!["context-c"]);

    core.contexts.remove(0);
    core.selected = Some("context-c".to_owned());
    let permit = Ok(BrowserContextRemovalPermit {
        was_selected: true,
        successor_browser_context_id: Some("context-c".to_owned()),
    });
    assert!(connection
        .remove_browser_context_projection_by_id("context-a", permit, Ok(removal(&core)))
        .is_ok());
    assert!(connection.validate_browser_context_topology_projection().is_ok());
    assert_eq!(selected_id(&connection).as_deref(), Some("context-c"));
    assert!(inactive_ids(&connection).is_empty());
}

#[test]
fn loaded_page_replaces_the_one_before_it() {
    let (mut connection, _core) = sessions_connection();
    let attached = |previous, current| Ok(RendererAttachment { previous, current });
    assert!(matches!(
        connection.prepare_loaded_navigation_page_for_session_owner(None, 80, attached(Some(1), 2), Ok(())),
        Some(Ok(prepared)) if prepared.retiring_page == Some(70) && prepared.replaces_calls
    ));
    assert!(matches!(
        connection.prepare_loaded_navigation_page_for_session_owner(
            None,
            80,
            attached(Some(1), 1),
            Err("unused".to_owned()),
        ),
        Some(Ok(prepared)) if !prepared.replaces_calls
    ));
    assert!(matches!(
        connection.prepare_loaded_navigation_page_for_session_owner(
            None,
            80,
            attached(Some(1), 2),
            Err("calls".to_owned()),
        ),
        Some(Err(error)) if error == "calls"
    ));
    assert!(matches!(
        connection.prepare_loaded_navigation_page_for_session_owner(None, 80, Err("attach".to_owned()), Ok(())),
        Some(Err(error)) if error == "attach"
    ));
    assert!(connection
        .prepare_loaded_navigation_page_for_session_owner(Some("SID-x"), 80, attached(None, 1), Ok(()))
        .is_none());

    let url = read_navigation_url("https://example.test/loaded").expect("url");
    let commit = RendererMainDocumentCommit {
        security_origin: "https://example.test".to_owned(),
        secure_context_type: "Secure".to_owned(),
    };
    assert_eq!(
        connection.project_loaded_navigation_page_for_session_owner(Some("SID-background"), &url, &commit, 81),
        Some(())
    );
    let slot = &connection.browser_context.as_ref().expect("selected").background_targets[0].slot;
    assert_eq!(slot.loaded_page, Some(81));
    assert_eq!(slot.target_url, "https://example.test/loaded");
    assert_eq!(slot.secure_context_type, "Secure");
    assert_eq!(connection.effects.len(), 4);
    assert_eq!(
        connection.project_loaded_navigation_page_for_session_owner(None, &url, &commit, 82),
        Some(())
    );
    assert_eq!(connection.effects.len(), 4);
    assert_eq!(
        connection.project_loaded_navigation_page_for_session_owner(Some("SID-x"), &url, &commit, 83),
        None
    );
}

#[test]
fn addresses_are_read_by_the_url_crate() {
    let url = read_navigation_url("HTTPS://Example.test:443/a b").expect("absolute URL");
    assert_eq!(url.text, "https://example.test/a%20b");
    assert_eq!(url.origin, "https://example.test");
    assert_eq!(read_navigation_url("data:text/html,x").expect("data URL").origin, "null");
    assert!(read_navigation_url("not a url").is_none());
}

#[test]
fn trace_sources_have_names() {
    assert_eq!(BrowserNavigationTraceSource::FrontendCommand.name(), "frontend-command");
    assert_eq!(BrowserNavigationTraceSource::RendererIntent.name(), "renderer-output");
    assert_eq!(BrowserNavigationTraceSource::Network.name(), "network");
    assert_eq!(BrowserNavigationTraceSource::Lifecycle.name(), "lifecycle");
}

#[test]
fn executor_turn_works_on_the_bound_connection() {
    let (mut connection, core) = connection_with_two_contexts();
    let mut executor = BrowserHostTurnExecutorOwner::for_application_owner_lane();
    {
        let turn = executor.bind_turn(&mut connection);
        turn.connection.adopt_core_record(core.record());
        turn.connection.effects.clear();
    }
    assert!(connection.effects.is_empty());
}

fn json(text: &str) -> Value {
    serde_json::from_str(text).expect("test JSON")
}

#[test]
fn navigate_outcome_retains_fifo_position_between_protocol_events() {
    let mut queue = BackgroundOutputQueue::new();
    let before = json(r#"{"method":"Network.beforeNavigateOutcome","params":{"sequence":1}}"#);
    let after = json(r#"{"method":"Network.afterNavigateOutcome","params":{"sequence":2}}"#);
    queue
        .send(BackgroundProtocolEvent::immediate(before.clone()))
        .expect("prefix event should enter output FIFO");
    queue
        .send_browser_navigate_outcome(BrowserNavigateCommandOutcomeDelivery::completed(
            42,
            Some("SID-nav"),
            "https://example.test/",
            json(r#"{"frameId":"FRAME-1","loaderId":"LOADER-1"}"#),
        ))
        .expect("navigate outcome should enter output FIFO");
    queue
        .send(BackgroundProtocolEvent::immediate(after.clone()))
        .expect("suffix event should enter output FIFO");

    assert!(matches!(&queue.items[0], BrowserBackgroundOutput::ProtocolEvent(_)));
    assert!(matches!(&queue.items[1], BrowserBackgroundOutput::NavigateCommandOutcome(_)));
    assert!(matches!(&queue.items[2], BrowserBackgroundOutput::ProtocolEvent(_)));

    let messages: Vec<Value> = (0..3)
        .map(|_| match queue.try_recv() {
            Ok(event) => event.into_protocol_message(),
            Err(_) => panic!("queued output should remain available"),
        })
        .collect();
    assert_eq!(
        messages,
        vec![
            before,
            json(
                r#"{"id":42,"result":{"frameId":"FRAME-1","loaderId":"LOADER-1"},"sessionId":"SID-nav"}"#
            ),
            after,
        ]
    );
    assert!(matches!(queue.try_recv(), Err(TryReceiveError::Empty)));
    queue.senders_closed = true;
    assert!(matches!(queue.try_recv(), Err(TryReceiveError::Disconnected)));
    queue.receiver_closed = true;
    assert!(queue.is_closed());
    assert_eq!(
        queue.send(BackgroundProtocolEvent::immediate(json("{}"))),
        Err(BackgroundOutputClosed)
    );
}
