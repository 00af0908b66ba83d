//! What becomes of the Pages in the slots, of the requests for Documents and of
//! the listed Targets, said of the slots before and after each change.
use vstd::prelude::*;

use crate::addresses::NavigationUrl;
use crate::connection::context_laws;
use crate::connection::contexts::CoreCommit;
use crate::connection::errors::{PageRefusal, TargetRefusal};
use crate::connection::loaded_page;
use crate::connection::loaded_page::{RendererAttachment, RendererMainDocumentCommit};
use crate::connection::navigation;
use crate::connection::navigation::BrowserNavigationTraceSource;
use crate::connection::pages;
use crate::connection::pages::{
    BrowserPageResidenceTransitionPermit, InitialDocumentPageInstallResult,
    StagedPhysicalPageResidenceProjection,
};
use crate::connection::sessions::BrowserPageOwnerKey;
use crate::connection::slots::{
    AuxiliarySession, ContextModel, TargetPageAbsenceReason, TargetPlace, TargetRuntimeSlot,
};
use crate::connection::snapshots;
use crate::connection::snapshots::{BrowserTargetStateSnapshot, BrowserTopLevelTargetSnapshot};
use crate::connection::state::{ConnectionEffect, ConnectionModel, TargetChange};
use crate::connection::targets::PhysicalBrowserContextSlot;
use crate::connection::terminations;
use crate::devtools::DevToolsTargetInfo;
use crate::facts::model;
use crate::facts::model::FactClaim;
use crate::facts::types::{
    BrowserNavigationFailure, BrowserTargetTermination, DocumentNavigationToken,
};

verus! {

/// Whether a context has a slot at a place.
pub open spec fn is_slot(context: ContextModel, at: TargetPlace) -> bool {
    at matches TargetPlace::Background(index) ==> index < context.background.len()
}

/// The slot at a place of a context.
pub open spec fn slot_in(context: ContextModel, at: TargetPlace) -> TargetRuntimeSlot {
    match at {
        TargetPlace::Active => context.active.slot,
        TargetPlace::Background(index) => context.background[index as int].slot,
    }
}

/// Whether no more than the slot at one place of a context differs, and that
/// neither changed its Target nor its session.
pub open spec fn only_slot_changes(
    before: ContextModel,
    after: ContextModel,
    at: TargetPlace,
) -> bool {
    &&& after.id == before.id
    &&& after.handle == before.handle
    &&& after.auxiliary == before.auxiliary
    &&& after.workers == before.workers
    &&& after.runtime_owner == before.runtime_owner
    &&& after.dialog == before.dialog
    &&& match at {
        TargetPlace::Active => {
            &&& after.background == before.background
            &&& after.active.handle == before.active.handle
            &&& after.active.session_id == before.active.session_id
        },
        TargetPlace::Background(index) => {
            &&& after.active == before.active
            &&& after.background.len() == before.background.len()
            &&& after.background[index as int].handle == before.background[index as int].handle
            &&& after.background[index as int].session_id
                == before.background[index as int].session_id
            &&& after.background[index as int].promotable
                == before.background[index as int].promotable
            &&& forall|other: int|
                0 <= other < before.background.len() && other != index
                    ==> #[trigger] after.background[other] == before.background[other]
        },
    }
}

/// A slot that changes does so alone.
pub proof fn law_changed_slot_changes_alone(
    context: ContextModel,
    at: TargetPlace,
    slot: TargetRuntimeSlot,
)
    requires
        is_slot(context, at),
    ensures
        only_slot_changes(context, context.with_slot(at, slot), at),
        slot_in(context.with_slot(at, slot), at) == slot,
        context.slot_at(at) == slot_in(context, at),
{
}

/// Whether changes of one Target were left to do, behind what was left before.
pub open spec fn left_to_do(
    before: Seq<ConnectionEffect>,
    after: Seq<ConnectionEffect>,
    context: String,
    target: String,
    changes: Seq<TargetChange>,
) -> bool {
    &&& after.len() == before.len() + changes.len()
    &&& forall|at: int| 0 <= at < before.len() ==> #[trigger] after[at] == before[at]
    &&& forall|at: int|
        0 <= at < changes.len() ==> after[before.len() + at] == (ConnectionEffect::Target {
            browser_context_id: context,
            target_id: target,
            change: #[trigger] changes[at],
        })
}

proof fn lemma_left_to_do(
    before: Seq<ConnectionEffect>,
    owner: BrowserPageOwnerKey,
    changes: Seq<TargetChange>,
)
    ensures
        left_to_do(
            before,
            before + pages::target_effects(owner, changes),
            owner.browser_context_id,
            owner.target_id,
            changes,
        ),
{
}

/// Where the slot of a Target is, with the lists that fit a machine.
pub open spec fn places(
    model: ConnectionModel,
    id: Seq<char>,
    target: Seq<char>,
    place: PhysicalBrowserContextSlot,
    at: TargetPlace,
) -> bool {
    &&& model.inactive.len() <= usize::MAX
    &&& model.place_of(id) == Some(place)
    &&& context_laws::at_place(model, place).background.len() <= usize::MAX
    &&& context_laws::at_place(model, place).target_place(target) == Some(at)
}

proof fn lemma_places(
    model: ConnectionModel,
    id: Seq<char>,
    target: Seq<char>,
    place: PhysicalBrowserContextSlot,
    at: TargetPlace,
)
    requires
        places(model, id, target, place, at),
    ensures
        context_laws::is_place(model, place),
        model.context_at(place) == context_laws::at_place(model, place),
        is_slot(context_laws::at_place(model, place), at),
{
    context_laws::lemma_place_is_there(model, id);
    context_laws::at_place(model, place).lemma_background_from(target, 0);
}

/// A permit to change a Page fits only the context and the Target that it names,
/// and only while both the slot and Browser Core keep the Page in the place that
/// it was given for. A first Page fits only a slot without one.
pub proof fn law_page_permit_fits_its_place(
    model: ConnectionModel,
    permit: BrowserPageResidenceTransitionPermit,
    first: bool,
    place: PhysicalBrowserContextSlot,
    at: TargetPlace,
)
    ensures
        ({
            let id = permit.owner.browser_context_id@;
            let target = permit.owner.target_id@;
            let refusal = pages::page_refusal(model, permit, first);
            &&& model.place_of(id) is None ==> refusal == Some(
                PageRefusal::TargetTopology(TargetRefusal::PhysicalBrowserContextMissing(id)),
            )
            &&& model.inactive.len() <= usize::MAX && model.place_of(id) == Some(place)
                && context_laws::at_place(model, place).target_place(target) is None ==> refusal
                == Some(
                PageRefusal::TargetTopology(
                    TargetRefusal::PhysicalTargetMissing {
                        browser_context_id: id,
                        target_id: target,
                    },
                ),
            )
            &&& places(model, id, target, place, at) ==> {
                let slot = slot_in(context_laws::at_place(model, place), at);
                let kept = slot.page_instance == permit.previous_page.residence.instance
                    && model.core.page_of(id, target) == Some(permit.previous_page.residence);
                &&& refusal is None <==> kept && !(first && slot.loaded_page is Some)
                &&& !kept ==> refusal == Some(
                    PageRefusal::PhysicalResidenceMismatch {
                        browser_context_id: id,
                        target_id: target,
                    },
                )
                &&& kept && first && slot.loaded_page is Some ==> refusal == Some(
                    PageRefusal::InitialDocumentPageAlreadyPresent {
                        browser_context_id: id,
                        target_id: target,
                    },
                )
            }
        }),
{
    if model.inactive.len() <= usize::MAX {
        context_laws::lemma_place_is_there(model, permit.owner.browser_context_id@);
    }
    if places(model, permit.owner.browser_context_id@, permit.owner.target_id@, place, at) {
        lemma_places(model, permit.owner.browser_context_id@, permit.owner.target_id@, place, at);
    }
}

/// A first Page is put in the slot of the Target that the permit names, where
/// that waits for one, and the slot keeps all else. The renderer is then bound to
/// the Document's loader; behind the front, what the old Document left is
/// cleared before.
pub proof fn law_first_page_is_installed(
    model: ConnectionModel,
    owner: BrowserPageOwnerKey,
    permit: BrowserPageResidenceTransitionPermit,
    loader_id: String,
    commit: CoreCommit<u64>,
    place: PhysicalBrowserContextSlot,
    at: TargetPlace,
)
    requires
        places(model, permit.owner.browser_context_id@, permit.owner.target_id@, place, at),
        model.target_topology_refusal() is None,
        pages::page_refusal(model, permit, true) is None,
    ensures
        ({
            let changed = pages::install_initial_page(
                model,
                owner,
                Some(permit),
                Some(loader_id),
                true,
                Some(commit),
            );
            let after = changed.model;
            let before = context_laws::at_place(model, place);
            let context = context_laws::at_place(after, place);
            &&& changed.result == Ok::<InitialDocumentPageInstallResult, PageRefusal>(
                InitialDocumentPageInstallResult::Installed,
            )
            &&& after.core == commit.core && after.facts == model.facts
            &&& after.browser_sessions == model.browser_sessions
            &&& context_laws::only_place_changes(model, after, place)
            &&& only_slot_changes(before, context, at)
            &&& slot_in(context, at).loaded_page == Some(commit.outcome)
            &&& slot_in(context, at) == (TargetRuntimeSlot {
                loaded_page: Some(commit.outcome),
                ..slot_in(before, at)
            })
            &&& at is Active ==> left_to_do(
                model.effects,
                after.effects,
                permit.owner.browser_context_id,
                permit.owner.target_id,
                seq![TargetChange::BindRendererDocumentLifecycle { loader_id }],
            )
            &&& at is Background ==> left_to_do(
                model.effects,
                after.effects,
                permit.owner.browser_context_id,
                permit.owner.target_id,
                seq![
                    TargetChange::ClearCommittedNavigationState,
                    TargetChange::ClearLoadedDocumentSessions,
                    TargetChange::ResetSubresourceCursor,
                    TargetChange::ClearWebsocketArtifacts,
                    TargetChange::BindRendererDocumentLifecycle { loader_id },
                ],
            )
        }),
{
    lemma_places(model, permit.owner.browser_context_id@, permit.owner.target_id@, place, at);
    let before = context_laws::at_place(model, place);
    let slot = TargetRuntimeSlot { loaded_page: Some(commit.outcome), ..slot_in(before, at) };
    law_changed_slot_changes_alone(before, at, slot);
    let committed = ConnectionModel { core: commit.core, ..model };
    assert(committed.place_of(permit.owner.browser_context_id@) == Some(place));
    context_laws::law_changed_context_stays_in_place(committed, place, before.with_slot(at, slot));
    lemma_left_to_do(
        model.effects,
        permit.owner,
        pages::initial_changes(at is Active, loader_id),
    );
}

/// A first Page is not put where the Target no longer waits for it: without a
/// permit, without a loader, or where Browser Core does not commit. Without a
/// renderer that owns it, it is refused. The connection then stays as it was.
pub proof fn law_unawaited_page_changes_nothing(
    model: ConnectionModel,
    owner: BrowserPageOwnerKey,
    permit: Option<BrowserPageResidenceTransitionPermit>,
    loader_id: Option<String>,
    owned: bool,
    answer: Option<CoreCommit<u64>>,
)
    requires
        model.target_topology_refusal() is None,
        permit matches Some(permit) ==> pages::page_refusal(model, permit, true) is None,
    ensures
        ({
            let changed = pages::install_initial_page(
                model,
                owner,
                permit,
                loader_id,
                owned,
                answer,
            );
            &&& permit is None || loader_id is None || (owned && answer is None) ==> changed.model
                == model && changed.result == Ok::<InitialDocumentPageInstallResult, PageRefusal>(
                InitialDocumentPageInstallResult::Stale,
            )
            &&& permit is Some && loader_id is Some && !owned ==> changed.model == model
                && changed.result == Err::<InitialDocumentPageInstallResult, PageRefusal>(
                PageRefusal::RendererPageOwnerMissing {
                    browser_context_id: owner.browser_context_id@,
                    target_id: owner.target_id@,
                },
            )
        }),
{
}

/// A Page whose request failed is gone from its slot, which shows the address
/// that failed and waits for no request and for no Document. That the request
/// failed is claimed. What the old Document left is cleared.
#[verifier::rlimit(60)]
#[verifier::spinoff_prover]
pub proof fn law_failed_page_is_gone(
    model: ConnectionModel,
    session: Option<Seq<char>>,
    token: DocumentNavigationToken,
    failure: BrowserNavigationFailure,
    url: NavigationUrl,
    permit: BrowserPageResidenceTransitionPermit,
    commit: CoreCommit<()>,
    place: PhysicalBrowserContextSlot,
    at: TargetPlace,
)
    requires
        places(model, permit.owner.browser_context_id@, permit.owner.target_id@, place, at),
        model.target_topology_refusal() is None,
        pages::page_refusal(model, permit, false) is None,
        model.session_owner(session) is Some,
    ensures
        ({
            let changed = pages::discard_failed_page(
                model,
                session,
                token,
                failure,
                url,
                Some(permit),
                Some(commit),
            );
            let claimed = model::claim_fact(
                model.facts,
                FactClaim::NavigationFailure { navigation: token, failure },
            );
            let after = changed.model;
            let before = context_laws::at_place(model, place);
            let context = context_laws::at_place(after, place);
            let slot = slot_in(context, at);
            &&& changed.result is Ok
            &&& changed.result->Ok_0 is Some <==> claimed.result is Ok
            &&& after.core == commit.core && after.facts == claimed.model
            &&& context_laws::only_place_changes(model, after, place)
            &&& only_slot_changes(before, context, at)
            &&& slot.loaded_page is None
            &&& slot.absence is NavigationFailed
            &&& slot.target_url == url.text
            &&& slot.security_origin == url.origin
            &&& slot.pending_navigation is None
            &&& slot.binding is None
            &&& slot.page_instance == slot_in(before, at).page_instance
            &&& slot.secure_context_type == slot_in(before, at).secure_context_type
            &&& slot.session_storage == slot_in(before, at).session_storage
            &&& slot.popup_id == slot_in(before, at).popup_id
            &&& at is Active ==> left_to_do(
                model.effects,
                after.effects,
                permit.owner.browser_context_id,
                permit.owner.target_id,
                seq![
                    TargetChange::ClearRendererDocumentState,
                    TargetChange::ClearRemoteObjectTracking,
                ],
            )
            &&& at is Background ==> left_to_do(
                model.effects,
                after.effects,
                permit.owner.browser_context_id,
                permit.owner.target_id,
                seq![
                    TargetChange::ClearCommittedNavigationState,
                    TargetChange::ClearLoadedDocumentSessions,
                    TargetChange::ClearRendererDocumentState,
                    TargetChange::ResetSubresourceCursor,
                    TargetChange::ClearWebsocketArtifacts,
                ],
            )
        }),
{
    lemma_places(model, permit.owner.browser_context_id@, permit.owner.target_id@, place, at);
    let before = context_laws::at_place(model, place);
    let slot = pages::failed_slot(slot_in(before, at), url);
    law_changed_slot_changes_alone(before, at, slot);
    let claimed = model::claim_fact(
        model.facts,
        FactClaim::NavigationFailure { navigation: token, failure },
    );
    let committed = ConnectionModel { core: commit.core, facts: claimed.model, ..model };
    assert(committed.place_of(permit.owner.browser_context_id@) == Some(place));
    context_laws::law_changed_context_stays_in_place(committed, place, before.with_slot(at, slot));
    lemma_left_to_do(model.effects, permit.owner, pages::failure_changes(at is Active));
}

/// The place of a slot that there is, with the lists that fit a machine.
pub open spec fn session_slot(
    model: ConnectionModel,
    session: Option<Seq<char>>,
    place: StagedPhysicalPageResidenceProjection,
) -> bool {
    &&& model.session_place(session) == Some(place)
    &&& model.inactive.len() <= usize::MAX
    &&& forall|context: PhysicalBrowserContextSlot| #[trigger]
        context_laws::is_place(model, context) ==> context_laws::at_place(
            model,
            context,
        ).background.len() <= usize::MAX
}

/// The slot that a session speaks of is there. With a session it is that of the
/// Target that the session is attached to, in the context that it is attached
/// in; without one it is the front slot of the selected context.
pub proof fn law_session_slot_is_its_targets(
    model: ConnectionModel,
    session: Option<Seq<char>>,
    place: StagedPhysicalPageResidenceProjection,
)
    requires
        session_slot(model, session, place),
    ensures
        context_laws::is_place(model, place.context),
        is_slot(context_laws::at_place(model, place.context), place.target),
        model.context_at(place.context) == context_laws::at_place(model, place.context),
        session is None ==> place.context is Selected && place.target is Active,
        session is Some ==> (model.session_owner(session) matches Some(owner)
            && context_laws::at_place(model, place.context).id@ == owner.browser_context_id@ && (
        match place.target {
            TargetPlace::Active => context_laws::at_place(
                model,
                place.context,
            ).active.handle is Some && context_laws::at_place(
                model,
                place.context,
            ).active.handle->Some_0.target_id@ == owner.target_id@,
            TargetPlace::Background(index) => context_laws::at_place(
                model,
                place.context,
            ).background[index as int].handle.target_id@ == owner.target_id@,
        })),
{
    if session is Some {
        let owner = model.session_owner(session)->Some_0;
        context_laws::lemma_place_is_there(model, owner.browser_context_id@);
        let context = context_laws::at_place(model, place.context);
        assert(context_laws::is_place(model, place.context));
        context.lemma_background_from(owner.target_id@, 0);
    }
}

/// A session speaks of a slot exactly where the Target that it is attached to has
/// one in the context that it is attached in; without a session, exactly where a
/// context is selected.
pub proof fn law_attached_session_has_its_slot(model: ConnectionModel, session: Seq<char>)
    requires
        model.inactive.len() <= usize::MAX,
    ensures
        model.session_place(None) is Some <==> model.selected is Some,
        model.session_owner(Some(session)) is None ==> model.session_place(Some(session)) is None,
        model.session_owner(Some(session)) matches Some(owner) ==> (model.session_place(
            Some(session),
        ) is Some <==> (model.place_of(owner.browser_context_id@) matches Some(place)
            && context_laws::at_place(model, place).target_place(owner.target_id@) is Some)),
{
    if let Some(owner) = model.session_owner(Some(session)) {
        context_laws::lemma_place_is_there(model, owner.browser_context_id@);
    }
}

/// A Page that a request loaded is shown in the slot that the session speaks of,
/// with the address that was asked for and the origin and the kind of context
/// that the renderer committed. Behind the front, what the old Document left is
/// cleared.
pub proof fn law_loaded_page_is_shown(
    model: ConnectionModel,
    session: Option<Seq<char>>,
    url: NavigationUrl,
    commit: RendererMainDocumentCommit,
    page: u64,
    place: StagedPhysicalPageResidenceProjection,
)
    requires
        session_slot(model, session, place),
    ensures
        ({
            let projected = loaded_page::project_loaded_page(model, session, url, commit, page);
            let after = projected.0;
            let before = context_laws::at_place(model, place.context);
            let context = context_laws::at_place(after, place.context);
            let slot = slot_in(context, place.target);
            &&& projected.1 is Some
            &&& after.core == model.core && after.facts == model.facts
            &&& context_laws::only_place_changes(model, after, place.context)
            &&& only_slot_changes(before, context, place.target)
            &&& slot.loaded_page == Some(page)
            &&& slot.target_url == url.text
            &&& slot.security_origin == commit.security_origin
            &&& slot.secure_context_type == commit.secure_context_type
            &&& slot == (TargetRuntimeSlot {
                loaded_page: slot.loaded_page,
                target_url: slot.target_url,
                security_origin: slot.security_origin,
                secure_context_type: slot.secure_context_type,
                ..slot_in(before, place.target)
            })
            &&& place.target is Active ==> after.effects == model.effects
            &&& place.target matches TargetPlace::Background(index) ==> left_to_do(
                model.effects,
                after.effects,
                before.id,
                before.background[index as int].handle.target_id,
                seq![
                    TargetChange::ClearCommittedNavigationState,
                    TargetChange::ClearLoadedDocumentSessions,
                    TargetChange::ResetSubresourceCursor,
                    TargetChange::ClearWebsocketArtifacts,
                ],
            )
        }),
        forall|other: Option<Seq<char>>|
            model.session_place(other) is None ==> (
            #[trigger] loaded_page::project_loaded_page(model, other, url, commit, page)).0 == model
                && loaded_page::project_loaded_page(model, other, url, commit, page).1 is None,
{
    law_session_slot_is_its_targets(model, session, place);
    let before = context_laws::at_place(model, place.context);
    let slot = loaded_page::loaded_slot(slot_in(before, place.target), url, commit, page);
    law_changed_slot_changes_alone(before, place.target, slot);
    context_laws::law_changed_context_stays_in_place(
        model,
        place.context,
        before.with_slot(place.target, slot),
    );
    if let Some(owner) = before.owner_at(place.target) {
        lemma_left_to_do(
            model.effects,
            owner,
            loaded_page::loaded_changes(place.target is Active),
        );
    }
}

/// A Page that is about to be shown retires the one in its slot. The calls that
/// wait for the renderer are handed over exactly where there was another
/// attachment before; what fails there, or in attaching, is told.
pub proof fn law_prepared_page_retires_the_old(
    model: ConnectionModel,
    session: Option<Seq<char>>,
    page: u64,
    attachment: RendererAttachment,
    handed_over: Result<(), String>,
    place: StagedPhysicalPageResidenceProjection,
)
    requires
        session_slot(model, session, place),
    ensures
        ({
            let prepared = loaded_page::prepare_loaded_page(
                model,
                session,
                page,
                Ok(attachment),
                handed_over,
            );
            let moves = attachment.previous is Some && attachment.previous->Some_0
                != attachment.current;
            &&& prepared is Some
            &&& moves && handed_over is Err ==> prepared->Some_0 is Err
                && prepared->Some_0->Err_0 == handed_over->Err_0
            &&& !moves || handed_over is Ok ==> {
                &&& prepared->Some_0 is Ok
                &&& prepared->Some_0->Ok_0.page == page
                &&& prepared->Some_0->Ok_0.retiring_page == slot_in(
                    context_laws::at_place(model, place.context),
                    place.target,
                ).loaded_page
                &&& prepared->Some_0->Ok_0.replaces_calls == moves
            }
            &&& forall|error: String| (
                #[trigger] loaded_page::prepare_loaded_page(
                    model,
                    session,
                    page,
                    Err(error),
                    handed_over,
                )) == Some(
                    Err::<loaded_page::PreparedLoadedNavigationPageCommit, String>(error),
                )
        }),
{
    law_session_slot_is_its_targets(model, session, place);
}

/// Whether a slot lost its Page for a reason, with its request and its Document,
/// and kept all else.
pub open spec fn page_is_gone(
    before: TargetRuntimeSlot,
    after: TargetRuntimeSlot,
    reason: TargetPageAbsenceReason,
) -> bool {
    &&& after.loaded_page is None
    &&& after.absence == reason
    &&& after.pending_navigation is None
    &&& after.binding is None
    &&& after.page_instance == before.page_instance
    &&& after.target_url == before.target_url
    &&& after.security_origin == before.security_origin
    &&& after.secure_context_type == before.secure_context_type
    &&& after.session_storage == before.session_storage
    &&& after.popup_id == before.popup_id
}

/// A crash takes the Page out of the slot that the session speaks of and hands
/// it back. The Target stays where it is, with its sessions. It is marked as
/// crashed, and what its Document left is cleared.
pub proof fn law_crash_takes_the_page(
    model: ConnectionModel,
    session: Option<Seq<char>>,
    termination: BrowserTargetTermination,
    place: StagedPhysicalPageResidenceProjection,
)
    requires
        session_slot(model, session, place),
    ensures
        ({
            let crashed = terminations::crash(model, session, termination);
            let after = crashed.0;
            let before = context_laws::at_place(model, place.context);
            let context = context_laws::at_place(after, place.context);
            &&& crashed.1 == Some(slot_in(before, place.target).loaded_page)
            &&& after.core == model.core && after.facts == model.facts
            &&& context_laws::only_place_changes(model, after, place.context)
            &&& only_slot_changes(before, context, place.target)
            &&& page_is_gone(
                slot_in(before, place.target),
                slot_in(context, place.target),
                TargetPageAbsenceReason::TargetCrashed,
            )
            &&& place.target is Active ==> left_to_do(
                model.effects,
                after.effects,
                termination.browser_context_id,
                termination.target_id,
                seq![
                    TargetChange::MarkCrashed,
                    TargetChange::ClearRendererDocumentState,
                    TargetChange::IngestOutputUpdates,
                    TargetChange::ClearLoadedDocumentContext,
                    TargetChange::ClearLoadedDocumentSessions,
                    TargetChange::ClearPendingFetch,
                    TargetChange::ClearNetworkObservations,
                ],
            )
            &&& place.target is Background ==> left_to_do(
                model.effects,
                after.effects,
                termination.browser_context_id,
                termination.target_id,
                seq![
                    TargetChange::MarkCrashed,
                    TargetChange::ClearLoadedDocumentContext,
                    TargetChange::ClearLoadedDocumentSessions,
                    TargetChange::ClearRendererDocumentState,
                    TargetChange::ResetSubresourceCursor,
                    TargetChange::ResetNetworkArtifacts,
                    TargetChange::ClearPendingFetch,
                    TargetChange::ClearNetworkObservations,
                ],
            )
        }),
{
    law_session_slot_is_its_targets(model, session, place);
    let before = context_laws::at_place(model, place.context);
    let slot = terminations::ended_slot(
        slot_in(before, place.target),
        TargetPageAbsenceReason::TargetCrashed,
    );
    law_changed_slot_changes_alone(before, place.target, slot);
    context_laws::law_changed_context_stays_in_place(
        model,
        place.context,
        before.with_slot(place.target, slot),
    );
    lemma_left_to_do(
        model.effects,
        terminations::terminated_owner(termination),
        terminations::crash_changes(place.target is Active),
    );
}

/// That a further session is one of a Target.
pub open spec fn of_target(target: Seq<char>) -> spec_fn(AuxiliarySession) -> bool {
    |session: AuxiliarySession| session.target_id@ == target
}

/// That a further session is one of another Target.
pub open spec fn of_others(target: Seq<char>) -> spec_fn(AuxiliarySession) -> bool {
    |session: AuxiliarySession| session.target_id@ != target
}

/// The name of a further session.
pub open spec fn its_name() -> spec_fn(AuxiliarySession) -> String {
    |session: AuxiliarySession| session.session_id
}

/// The further sessions of a Target, and those of others, each in order.
pub proof fn law_further_sessions_are_told_apart(
    auxiliary: Seq<AuxiliarySession>,
    target: Seq<char>,
)
    ensures
        terminations::without_sessions_of(auxiliary, target) == auxiliary.filter(
            of_others(target),
        ),
        terminations::sessions_of(auxiliary, target) == auxiliary.filter(
            of_target(target),
        ).map_values(its_name()),
    decreases auxiliary.len(),
{
    reveal(Seq::filter);
    let others = of_others(target);
    let its = of_target(target);
    let named = its_name();
    if auxiliary.len() == 0 {
        assert(auxiliary.filter(others) =~= auxiliary);
        assert(auxiliary.filter(its) =~= auxiliary);
        assert(auxiliary.filter(its).map_values(named) =~= Seq::<String>::empty());
    } else {
        law_further_sessions_are_told_apart(auxiliary.drop_last(), target);
        let rest = auxiliary.drop_last().filter(its);
        if its(auxiliary.last()) {
            assert(rest.push(auxiliary.last()).map_values(named) =~= rest.map_values(named).push(
                auxiliary.last().session_id,
            ));
        }
    }
}

/// Whether a Target is gone from the front of a context: the place is empty, its
/// slot without a Page, its further sessions ended, and all else as it was.
pub open spec fn front_is_emptied(before: ContextModel, after: ContextModel) -> bool {
    &&& before.active.handle is Some
    &&& after.active.handle is None
    &&& after.active.session_id is None
    &&& page_is_gone(before.active.slot, after.active.slot, TargetPageAbsenceReason::TargetClosed)
    &&& after.auxiliary == before.auxiliary.filter(
        of_others(before.active.handle->Some_0.target_id@),
    )
    &&& after == (ContextModel { active: after.active, auxiliary: after.auxiliary, ..before })
}

proof fn lemma_front_is_emptied(before: ContextModel)
    requires
        before.active.handle is Some,
    ensures
        front_is_emptied(
            before,
            terminations::emptied_front(
                before.without_sessions(before.active.handle->Some_0.target_id@),
            ),
        ),
{
    let target = before.active.handle->Some_0.target_id@;
    law_further_sessions_are_told_apart(before.auxiliary, target);
}

/// A Target that closes at its Page's wish, in front, leaves the front place
/// empty. It is handed back with its session, its further sessions and its Page;
/// no other comes to the front. Behind the front its slot is taken out.
pub proof fn law_target_closed_by_its_page_is_gone(
    model: ConnectionModel,
    session: Option<Seq<char>>,
    termination: BrowserTargetTermination,
    place: StagedPhysicalPageResidenceProjection,
)
    requires
        session_slot(model, session, place),
    ensures
        ({
            let closed = terminations::close_by_page(model, session, termination);
            let after = closed.0;
            let before = context_laws::at_place(model, place.context);
            let context = context_laws::at_place(after, place.context);
            &&& after.core == model.core && after.facts == model.facts
            &&& place.target is Active && before.active.handle is None ==> {
                &&& closed.1 is None
                &&& after.selected == model.selected && after.inactive == model.inactive
                &&& left_to_do(
                    model.effects,
                    after.effects,
                    termination.browser_context_id,
                    termination.target_id,
                    seq![TargetChange::TakeParkedNetworkArtifacts],
                )
            }
            &&& place.target is Active ==> (before.active.handle matches Some(handle) ==> {
                &&& context_laws::only_place_changes(model, after, place.context)
                &&& front_is_emptied(before, context)
                &&& closed.1 is Some
                &&& closed.1->Some_0.target_id == handle.target_id
                &&& closed.1->Some_0.primary_session_id == before.active.session_id
                &&& closed.1->Some_0.auxiliary_session_ids == before.auxiliary.filter(
                    of_target(handle.target_id@),
                ).map_values(its_name())
                &&& closed.1->Some_0.promoted_target_id is None
                &&& closed.1->Some_0.retired_page == before.active.slot.loaded_page
                &&& left_to_do(
                    model.effects,
                    after.effects,
                    termination.browser_context_id,
                    termination.target_id,
                    seq![
                        TargetChange::CollectNetworkArtifacts,
                        TargetChange::TakeParkedNetworkArtifacts,
                        TargetChange::ForgetReferences,
                        TargetChange::ClearSessionScopedState,
                        TargetChange::ClearCrashState,
                        TargetChange::ClearRendererDocumentState,
                        TargetChange::IngestOutputUpdates,
                        TargetChange::ClearLoadedDocumentContext,
                        TargetChange::ClearLoadedDocumentSessions,
                        TargetChange::ClearPageLocalState,
                        TargetChange::ResetIdentityToAboutBlank,
                        TargetChange::ResetNetworkArtifacts,
                        TargetChange::ClearObservableOutput,
                        TargetChange::ResetFetchRequestCounter,
                        TargetChange::RecordNetworkArtifacts,
                    ],
                )
            })
            &&& place.target matches TargetPlace::Background(index) ==> {
                let behind = before.background[index as int];
                &&& context_laws::only_place_changes(model, after, place.context)
                &&& context.background == before.background.remove(index as int)
                &&& context.active == before.active
                &&& context.auxiliary == before.auxiliary.filter(
                    of_others(behind.handle.target_id@),
                )
                &&& closed.1 is Some
                &&& closed.1->Some_0.target_id == behind.handle.target_id
                &&& closed.1->Some_0.primary_session_id == behind.session_id
                &&& closed.1->Some_0.auxiliary_session_ids == before.auxiliary.filter(
                    of_target(behind.handle.target_id@),
                ).map_values(its_name())
                &&& closed.1->Some_0.promoted_target_id is None
                &&& closed.1->Some_0.retired_page == behind.slot.loaded_page
                &&& left_to_do(
                    model.effects,
                    after.effects,
                    termination.browser_context_id,
                    termination.target_id,
                    seq![
                        TargetChange::CollectNetworkArtifacts,
                        TargetChange::TakeParkedNetworkArtifacts,
                        TargetChange::DropAttachment,
                        TargetChange::ForgetReferences,
                        TargetChange::DropParkedState,
                        TargetChange::RecordNetworkArtifacts,
                    ],
                )
            }
        }),
{
    law_session_slot_is_its_targets(model, session, place);
    let before = context_laws::at_place(model, place.context);
    let owner = terminations::terminated_owner(termination);
    match place.target {
        TargetPlace::Active => {
            if let Some(handle) = before.active.handle {
                law_further_sessions_are_told_apart(before.auxiliary, handle.target_id@);
                lemma_front_is_emptied(before);
                context_laws::law_changed_context_stays_in_place(
                    model,
                    place.context,
                    terminations::emptied_front(before.without_sessions(handle.target_id@)),
                );
                lemma_left_to_do(model.effects, owner, terminations::front_page_close_changes());
            } else {
                lemma_left_to_do(
                    model.effects,
                    owner,
                    seq![TargetChange::TakeParkedNetworkArtifacts],
                );
            }
        },
        TargetPlace::Background(index) => {
            let behind = before.background[index as int];
            law_further_sessions_are_told_apart(before.auxiliary, behind.handle.target_id@);
            context_laws::law_changed_context_stays_in_place(
                model,
                place.context,
                ContextModel {
                    background: before.background.remove(index as int),
                    ..before.without_sessions(behind.handle.target_id@)
                },
            );
            lemma_left_to_do(model.effects, owner, terminations::background_page_close_changes());
        },
    }
}

/// The last behind that may come to the front, where one may.
proof fn lemma_last_promotable(context: ContextModel, count: nat)
    requires
        count <= context.background.len(),
    ensures
        context.last_promotable(count) matches Some(at) ==> at < count
            && context.background[at as int].promotable && forall|later: int|
            at < later < count ==> !(#[trigger] context.background[later]).promotable,
        context.last_promotable(count) is None ==> forall|at: int|
            0 <= at < count ==> !(#[trigger] context.background[at]).promotable,
    decreases count,
{
    if count > 0 && !context.background[count - 1].promotable {
        lemma_last_promotable(context, (count - 1) as nat);
    }
}

/// A Target that is closed in front leaves the front place empty, and the last
/// behind that may is named to come there. It is handed back with its sessions
/// and its Page. Nothing happens where the front is empty.
pub proof fn law_target_closed_in_front_names_the_next(
    model: ConnectionModel,
    termination: BrowserTargetTermination,
    place: PhysicalBrowserContextSlot,
)
    requires
        model.inactive.len() <= usize::MAX,
        model.place_of(termination.browser_context_id@) == Some(place),
    ensures
        ({
            let closed = terminations::close_front(model, termination);
            let after = closed.0;
            let before = context_laws::at_place(model, place);
            let context = context_laws::at_place(after, place);
            &&& before.active.handle is None ==> after == model && closed.1 is None
            &&& before.active.handle matches Some(handle) ==> {
                &&& after.core == model.core && after.facts == model.facts
                &&& context_laws::only_place_changes(model, after, place)
                &&& front_is_emptied(before, context)
                &&& closed.1 is Some
                &&& closed.1->Some_0.target_id == handle.target_id
                &&& closed.1->Some_0.primary_session_id == before.active.session_id
                &&& closed.1->Some_0.auxiliary_session_ids == before.auxiliary.filter(
                    of_target(handle.target_id@),
                ).map_values(its_name())
                &&& closed.1->Some_0.retired_page == before.active.slot.loaded_page
                &&& closed.1->Some_0.promoted_target_id matches Some(next) ==> exists|at: int|
                    0 <= at < before.background.len() && (
                    #[trigger] before.background[at]).promotable
                        && before.background[at].handle.target_id == next && forall|later: int|
                        at < later < before.background.len() ==> !(
                        #[trigger] before.background[later]).promotable
                &&& closed.1->Some_0.promoted_target_id is None ==> forall|at: int|
                    0 <= at < before.background.len() ==> !(
                    #[trigger] before.background[at]).promotable
                &&& left_to_do(
                    model.effects,
                    after.effects,
                    termination.browser_context_id,
                    termination.target_id,
                    seq![
                        TargetChange::CollectNetworkArtifacts,
                        TargetChange::ClearSessionScopedState,
                        TargetChange::ClearCrashState,
                        TargetChange::ForgetReferences,
                        TargetChange::ClearRendererDocumentState,
                        TargetChange::IngestOutputUpdates,
                        TargetChange::ClearLoadedDocumentContext,
                        TargetChange::ClearLoadedDocumentSessions,
                        TargetChange::ClearPendingFetch,
                        TargetChange::ClearPageLocalState,
                        TargetChange::RestoreCookieManager,
                        TargetChange::ResetIdentityToNewTab,
                        TargetChange::ResetNetworkArtifacts,
                        TargetChange::ClearObservableOutput,
                        TargetChange::ResetFetchRequestCounter,
                        TargetChange::RecordNetworkArtifacts,
                    ],
                )
            }
        }),
{
    context_laws::lemma_place_is_there(model, termination.browser_context_id@);
    let before = context_laws::at_place(model, place);
    if let Some(handle) = before.active.handle {
        law_further_sessions_are_told_apart(before.auxiliary, handle.target_id@);
        lemma_front_is_emptied(before);
        context_laws::law_changed_context_stays_in_place(
            model,
            place,
            terminations::emptied_front(before.without_sessions(handle.target_id@)),
        );
        lemma_last_promotable(before, before.background.len());
        lemma_left_to_do(
            model.effects,
            terminations::terminated_owner(termination),
            terminations::front_close_changes(),
        );
        if let Some(at) = before.last_promotable(before.background.len()) {
            assert(before.background[at as int].promotable);
        }
    }
}

/// A Target that is closed behind the front is taken out, and handed back with
/// its sessions and its Page. Its further sessions end even where it has no slot.
/// The awaits on it fail with the reason that is given.
pub proof fn law_target_closed_behind_is_taken_out(
    model: ConnectionModel,
    termination: BrowserTargetTermination,
    reason: String,
    place: PhysicalBrowserContextSlot,
    at: int,
)
    requires
        model.inactive.len() <= usize::MAX,
        model.place_of(termination.browser_context_id@) == Some(place),
    ensures
        ({
            let closed = terminations::close_background(model, termination, reason);
            let after = closed.0;
            let target = termination.target_id@;
            let before = context_laws::at_place(model, place);
            let context = context_laws::at_place(after, place);
            let first = 0 <= at < before.background.len()
                && before.background[at].handle.target_id@ == target && forall|earlier: int|
                0 <= earlier < at ==> (
                #[trigger] before.background[earlier]).handle.target_id@ != target;
            &&& after.core == model.core && after.facts == model.facts
            &&& context_laws::only_place_changes(model, after, place)
            &&& context.active == before.active && context.workers == before.workers
                && context.id == before.id
            &&& context.auxiliary == before.auxiliary.filter(
                of_others(target),
            )
            &&& first ==> {
                &&& context.background == before.background.remove(at)
                &&& closed.1 is Some
                &&& closed.1->Some_0.target_id == termination.target_id
                &&& closed.1->Some_0.primary_session_id == before.background[at].session_id
                &&& closed.1->Some_0.auxiliary_session_ids == before.auxiliary.filter(
                    of_target(target),
                ).map_values(its_name())
                &&& closed.1->Some_0.promoted_target_id is None
                &&& closed.1->Some_0.retired_page == before.background[at].slot.loaded_page
                &&& left_to_do(
                    model.effects,
                    after.effects,
                    termination.browser_context_id,
                    termination.target_id,
                    seq![
                        TargetChange::FailPendingAwaits { reason },
                        TargetChange::DropAttachment,
                        TargetChange::CollectNetworkArtifacts,
                        TargetChange::TakeParkedNetworkArtifacts,
                        TargetChange::ForgetReferences,
                        TargetChange::DropParkedState,
                        TargetChange::RecordNetworkArtifacts,
                    ],
                )
            }
            &&& (forall|other: int|
                0 <= other < before.background.len() ==> (
                #[trigger] before.background[other]).handle.target_id@ != target) ==> {
                &&& context.background == before.background
                &&& closed.1 is None
                &&& left_to_do(
                    model.effects,
                    after.effects,
                    termination.browser_context_id,
                    termination.target_id,
                    seq![
                        TargetChange::FailPendingAwaits { reason },
                        TargetChange::DropAttachment,
                    ],
                )
            }
        }),
{
    let target = termination.target_id@;
    context_laws::lemma_place_is_there(model, termination.browser_context_id@);
    let before = context_laws::at_place(model, place);
    let owner = terminations::terminated_owner(termination);
    law_further_sessions_are_told_apart(before.auxiliary, target);
    context_laws::lemma_found_first(before, target, 0);
    let ended = before.without_sessions(target);
    if let Some(index) = before.background_index(target) {
        assert(before.background[index as int].handle.target_id@ == target);
        context_laws::law_changed_context_stays_in_place(
            model,
            place,
            ContextModel { background: before.background.remove(index as int), ..ended },
        );
        lemma_left_to_do(
            model.effects,
            owner,
            seq![
                TargetChange::FailPendingAwaits { reason },
                TargetChange::DropAttachment,
                TargetChange::CollectNetworkArtifacts,
                TargetChange::TakeParkedNetworkArtifacts,
                TargetChange::ForgetReferences,
                TargetChange::DropParkedState,
                TargetChange::RecordNetworkArtifacts,
            ],
        );
    } else {
        context_laws::lemma_none_found(before, target, 0);
        context_laws::law_changed_context_stays_in_place(model, place, ended);
        lemma_left_to_do(
            model.effects,
            owner,
            seq![TargetChange::FailPendingAwaits { reason }, TargetChange::DropAttachment],
        );
    }
}

/// A request that Browser Core starts is the one that is told, and the slot that
/// the session speaks of waits for it. Nothing starts where the session speaks of
/// no Target, or where Core starts nothing.
pub proof fn law_started_request_is_awaited(
    model: ConnectionModel,
    session: Option<Seq<char>>,
    commit: CoreCommit<DocumentNavigationToken>,
    place: StagedPhysicalPageResidenceProjection,
)
    ensures
        navigation::start(model, session, None) == (model, None::<DocumentNavigationToken>),
        model.session_owner(session) is None ==> navigation::start(model, session, Some(commit))
            == (model, None::<DocumentNavigationToken>),
        session_slot(model, session, place) && model.session_owner(session) is Some ==> {
            let started = navigation::start(model, session, Some(commit));
            let after = started.0;
            let before = context_laws::at_place(model, place.context);
            let context = context_laws::at_place(after, place.context);
            &&& started.1 == Some(commit.outcome)
            &&& after.core == commit.core
            &&& context_laws::only_contexts_change(model, after)
            &&& context_laws::only_place_changes(model, after, place.context)
            &&& only_slot_changes(before, context, place.target)
            &&& slot_in(context, place.target) == (TargetRuntimeSlot {
                pending_navigation: Some(commit.outcome),
                ..slot_in(before, place.target)
            })
        },
{
    if session_slot(model, session, place) && model.session_owner(session) is Some {
        law_session_slot_is_its_targets(model, session, place);
        let before = context_laws::at_place(model, place.context);
        let slot = TargetRuntimeSlot {
            pending_navigation: Some(commit.outcome),
            ..slot_in(before, place.target)
        };
        law_changed_slot_changes_alone(before, place.target, slot);
        context_laws::law_changed_context_stays_in_place(
            ConnectionModel { core: commit.core, ..model },
            place.context,
            before.with_slot(place.target, slot),
        );
    }
}

/// A request ends where it is one of the Target that the session speaks of and
/// Browser Core ends it. The fact is claimed then, and the end is told where the
/// fact was there. No slot changes.
pub proof fn law_ended_request_is_claimed(
    model: ConnectionModel,
    session: Option<Seq<char>>,
    token: DocumentNavigationToken,
    claim: FactClaim,
    answer: Option<CoreCommit<()>>,
)
    ensures
        ({
            let ended = navigation::end(model, session, token, claim, answer);
            let its = model.session_owner(session) is Some && model.session_owner(
                session,
            )->Some_0.target_id@ == token.target_id@;
            let claimed = model::claim_fact(model.facts, claim);
            &&& !its || answer is None ==> ended == (model, false)
            &&& its ==> (answer matches Some(commit) ==> {
                &&& ended.0.core == commit.core
                &&& ended.0.facts == claimed.model
                &&& ended.0.selected == model.selected
                &&& ended.0.inactive == model.inactive
                &&& ended.0.effects == model.effects
                &&& ended.1 <==> claimed.result is Ok
            })
        }),
{
}

/// The tail of a request ends the wait of its slot where that waits for a request
/// with the same loader, and leaves a later one. The uncommitted Document of that
/// loader is left to be dropped.
pub proof fn law_tail_ends_its_own_wait(
    model: ConnectionModel,
    session: Option<String>,
    loader_id: String,
    place: StagedPhysicalPageResidenceProjection,
)
    ensures
        ({
            let after = navigation::clear_tail(model, session, loader_id);
            let named = match session {
                Some(session) => Some(session@),
                None => None,
            };
            let left = after.effects.last();
            &&& after.effects.len() == model.effects.len() + 1
            &&& after.effects.drop_last() == model.effects
            &&& left == (ConnectionEffect::DiscardUncommittedDocument {
                session_id: session,
                loader_id,
            })
            &&& after.core == model.core && after.facts == model.facts
            &&& model.session_place(named) is None ==> after.selected == model.selected
                && after.inactive == model.inactive
            &&& session_slot(model, named, place) ==> {
                let before = context_laws::at_place(model, place.context);
                let slot = slot_in(before, place.target);
                let its = slot.pending_navigation is Some
                    && slot.pending_navigation->Some_0.loader_id@ == loader_id@;
                &&& !its ==> after.selected == model.selected && after.inactive == model.inactive
                &&& its ==> {
                    let context = context_laws::at_place(after, place.context);
                    &&& context_laws::only_place_changes(model, after, place.context)
                    &&& only_slot_changes(before, context, place.target)
                    &&& slot_in(context, place.target) == (TargetRuntimeSlot {
                        pending_navigation: None,
                        ..slot
                    })
                }
            }
        }),
{
    let named = match session {
        Some(session) => Some(session@),
        None => None,
    };
    let after = navigation::clear_tail(model, session, loader_id);
    assert(after.effects.drop_last() =~= model.effects) by {
        if model.session_place(named) is Some {
            let found = model.session_place(named)->Some_0;
            let context = model.context_at(found.context);
            assert(model.with_pending(found, None).effects == model.effects);
        }
    }
    if session_slot(model, named, place) {
        law_session_slot_is_its_targets(model, named, place);
        let before = context_laws::at_place(model, place.context);
        let slot = slot_in(before, place.target);
        let cleared = TargetRuntimeSlot { pending_navigation: None, ..slot };
        law_changed_slot_changes_alone(before, place.target, cleared);
        context_laws::law_changed_context_stays_in_place(
            model,
            place.context,
            before.with_slot(place.target, cleared),
        );
    }
}

/// Each source of a request is traced under a name of its own.
pub proof fn law_sources_are_traced_by_name()
    ensures
        BrowserNavigationTraceSource::FrontendCommand.trace_name() == "frontend-command"@,
        BrowserNavigationTraceSource::RendererIntent.trace_name() == "renderer-output"@,
        BrowserNavigationTraceSource::Network.trace_name() == "network"@,
        BrowserNavigationTraceSource::Lifecycle.trace_name() == "lifecycle"@,
{
}

/// A Target of a snapshot is listed where Browser Core and the slots still hold
/// exactly its context, its instance and the place of its Page. It is then listed
/// as a Page under its name and its context's, with the address that its slot
/// shows and the popup that it was opened as.
pub proof fn law_listed_target_is_the_one_that_is_there(
    model: ConnectionModel,
    snapshot: BrowserTargetStateSnapshot,
)
    requires
        model.inactive.len() <= usize::MAX,
        model.context(snapshot.browser_context.browser_context_id@) matches Some(context)
            ==> context.background.len() <= usize::MAX,
    ensures
        snapshots::project_listed_target(model, snapshot) matches Ok(info) ==> {
            let id = snapshot.browser_context.browser_context_id@;
            let target = snapshot.target.target_id@;
            let context = model.context(id)->Some_0;
            &&& model.core.context_handle_current(snapshot.browser_context)
            &&& model.core.target_handle_current(snapshot.target)
            &&& model.core.page_current(id, target, snapshot.page.residence.instance)
            &&& model.context(id) is Some
            &&& context.handle.browser_context_id@ == id
            &&& context.handle.instance == snapshot.browser_context.instance
            &&& context.target_place(target) is Some
            &&& ({
                let at = context.target_place(target)->Some_0;
                let slot = slot_in(context, at);
                let handle = match at {
                    TargetPlace::Active => context.active.handle->Some_0,
                    TargetPlace::Background(index) => context.background[index as int].handle,
                };
                &&& handle.target_id@ == target
                &&& handle.instance == snapshot.target.instance
                &&& slot.page_instance == snapshot.page.residence.instance
                &&& info.target_id == handle.target_id
                &&& info.browser_context_id == context.id
                &&& info.kind is Page
                &&& info.url == slot.target_url
                &&& info.moli_popup_id == slot.popup_id
            })
        },
        !model.core.context_handle_current(snapshot.browser_context)
            || !model.core.target_handle_current(snapshot.target) || !model.core.page_current(
            snapshot.browser_context.browser_context_id@,
            snapshot.target.target_id@,
            snapshot.page.residence.instance,
        ) ==> snapshots::project_listed_target(model, snapshot) == Err::<
            DevToolsTargetInfo,
            TargetRefusal,
        >(
            TargetRefusal::StaleTopLevelTargetSnapshot {
                browser_context_id: snapshot.browser_context.browser_context_id@,
                target_id: snapshot.target.target_id@,
            },
        ),
{
}

/// The workers of a context are listed in order, each as a worker of its context
/// under its name and its address.
pub proof fn law_workers_are_listed_in_order(context: ContextModel, at: int)
    ensures
        context.worker_infos().len() == context.workers.len(),
        0 <= at < context.workers.len() ==> {
            let info = context.worker_infos()[at];
            &&& info.target_id == context.workers[at].target_id
            &&& info.url == context.workers[at].url
            &&& info.browser_context_id == context.id
            &&& info.kind is Worker
            &&& info.moli_popup_id is None
        },
{
}

/// A snapshot of another browser lists nothing, and one without contexts lists
/// no Target.
pub proof fn law_foreign_snapshot_is_refused(
    model: ConnectionModel,
    snapshot: BrowserTopLevelTargetSnapshot,
)
    ensures
        snapshot.browser_instance != model.core.browser_instance ==> snapshots::project_snapshot(
            model,
            snapshot,
        ) == Err::<Seq<DevToolsTargetInfo>, TargetRefusal>(
            TargetRefusal::ForeignBrowserTopLevelTargetSnapshot,
        ),
        snapshot.browser_instance == model.core.browser_instance && snapshot.contexts@.len() == 0
            ==> snapshots::project_snapshot(model, snapshot) == Ok::<
            Seq<DevToolsTargetInfo>,
            TargetRefusal,
        >(Seq::empty()),
{
}

} // verus!
