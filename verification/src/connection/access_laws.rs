//! What the connection answers when it is asked about requests, Pages, contexts
//! and Targets, said of what its functions take and return.
use vstd::prelude::*;

use crate::connection::background_output::{
    BackgroundOutputClosed, BackgroundOutputQueue, BackgroundProtocolEvent,
    BrowserBackgroundOutput, BrowserNavigateCommandOutcomeDelivery, TryReceiveError,
};
use crate::connection::context_laws;
use crate::connection::contexts::{ContextActivationRequest, ContextRegistrationRequest, CoreCommit};
use crate::connection::core_record::BrowserContextHandle;
use crate::connection::errors::{
    BrowserContextProjectionError, BrowserContextRegistryError, TargetProjectionError,
    TargetRefusal,
};
use crate::connection::lifecycle;
use crate::connection::navigation::DocumentAccessError;
use crate::connection::sessions::BrowserPageOwnerKey;
use crate::connection::slots::{BrowserContext, BrowserTargetTopologyProjection, ContextModel};
use crate::connection::state::CdpConnection;
use crate::facts::projector::BrowserTargetCreatedFactProjection;
use crate::facts::types::{DocumentNavigationToken, PageResidenceIdentity};

verus! {

/// Whether a record holds exactly a request.
pub open spec fn is_that_request(
    record: Option<DocumentNavigationToken>,
    token: DocumentNavigationToken,
) -> bool {
    &&& record is Some
    &&& record->Some_0.target_id@ == token.target_id@
    &&& record->Some_0.loader_id@ == token.loader_id@
    &&& record->Some_0.request == token.request
}

/// The characters of a session, where there is one.
pub open spec fn named(session: Option<&str>) -> Option<Seq<char>> {
    match session {
        Some(session) => Some(session@),
        None => None,
    }
}

/// A request counts for a session where it is one of the Target that the session
/// speaks of and Browser Core keeps exactly it: as the one on its way, as the one
/// whose body may complete, or as the one that was committed.
pub proof fn law_session_request_is_the_one_core_keeps(
    connection: CdpConnection,
    session: Option<&str>,
    token: DocumentNavigationToken,
    pending: bool,
    body: bool,
    committed: bool,
)
    ensures
        ({
            let owner = connection@.session_owner(named(session));
            let requests = connection@.core.navigation_of(
                owner->Some_0.browser_context_id@,
                owner->Some_0.target_id@,
            );
            let its = owner is Some && owner->Some_0.target_id@ == token.target_id@ && requests
                is Some;
            &&& call_ensures(
                CdpConnection::accepts_pending_document_navigation_for_session_owner,
                (&connection, session, &token),
                pending,
            ) ==> (pending <==> its && is_that_request(requests->Some_0.pending, token))
            &&& call_ensures(
                CdpConnection::accepts_document_body_completion_for_session_owner,
                (&connection, session, &token),
                body,
            ) ==> (body <==> its && is_that_request(requests->Some_0.body, token))
            &&& call_ensures(
                CdpConnection::accepts_committed_document_navigation_for_session_owner,
                (&connection, session, &token),
                committed,
            ) ==> (committed <==> its && is_that_request(requests->Some_0.committed, token))
        }),
{
}

/// A request that a Target's context keeps as on its way is told, and so is that
/// one is on its way at all. A committed request shows the Page that Browser Core
/// reports for its Target.
pub proof fn law_target_request_is_the_one_core_keeps(
    connection: CdpConnection,
    token: DocumentNavigationToken,
    target: &str,
    pending: bool,
    any: bool,
    page: Option<PageResidenceIdentity>,
)
    requires
        target@ == token.target_id@,
    ensures
        ({
            let holder = connection@.target_holder(token.target_id@);
            let requests = connection@.core.navigation_of(holder->Some_0@, token.target_id@);
            let place = connection@.core.page_of(holder->Some_0@, token.target_id@);
            let held = holder is Some && requests is Some;
            &&& call_ensures(
                CdpConnection::accepts_pending_document_navigation_token,
                (&connection, &token),
                pending,
            ) ==> (pending <==> held && is_that_request(requests->Some_0.pending, token))
            &&& call_ensures(
                CdpConnection::has_pending_document_navigation_for_target_id,
                (&connection, target),
                any,
            ) ==> (any <==> held && requests->Some_0.pending is Some)
            &&& call_ensures(
                CdpConnection::current_page_residence_for_document_navigation,
                (&connection, &token),
                page,
            ) ==> {
                &&& page is Some <==> held && is_that_request(requests->Some_0.committed, token)
                    && place is Some
                &&& page matches Some(page) ==> page.residence == place->Some_0
                    && page.browser_context_id@ == holder->Some_0@ && page.target_id is Some
                    && page.target_id->Some_0@ == token.target_id@
            }
        }),
{
}

/// While a request of a session's Target is on its way, its Document cannot be
/// reached and its Page not be entered, but a Page that is there can be
/// interrupted all the same. Without one on its way, the Page is entered exactly
/// as it would be interrupted.
pub proof fn law_pending_request_closes_the_document(
    connection: CdpConnection,
    session: Option<&str>,
    token: DocumentNavigationToken,
    pending: bool,
    accessible: Result<(), DocumentAccessError>,
    entered: Result<u64, DocumentAccessError>,
)
    requires
        call_ensures(
            CdpConnection::ensure_document_accessible_for_session_owner,
            (&connection, session),
            accessible,
        ),
        call_ensures(
            CdpConnection::loaded_page_for_protocol_access,
            (&connection, session),
            entered,
        ),
        call_ensures(
            CdpConnection::accepts_pending_document_navigation_for_session_owner,
            (&connection, session, &token),
            pending,
        ),
    ensures
        pending ==> accessible is Err,
        accessible is Err ==> accessible->Err_0 is NavigationChangingDocument && entered is Err
            && entered->Err_0 is NavigationChangingDocument,
        accessible is Ok <==> !(connection@.session_owner(named(session)) matches Some(owner) && (
        connection@.core.navigation_of(
            owner.browser_context_id@,
            owner.target_id@,
        ) matches Some(requests) && requests.pending is Some)),
        accessible is Ok ==> {
            let place = connection@.session_place(named(session));
            &&& place is None ==> entered is Err && entered->Err_0 is NoSlot
            &&& place matches Some(place) ==> {
                let shown = connection@.context_at(place.context).slot_at(place.target).loaded_page;
                &&& shown is None ==> entered is Err && entered->Err_0 is NoDocumentLoaded
                &&& shown is Some ==> entered is Ok && entered->Ok_0 == shown->Some_0
            }
        },
{
}

/// A request can be started for the Target that a session speaks of, where that
/// has a slot.
pub proof fn law_request_starts_for_the_sessions_target(
    connection: CdpConnection,
    session: Option<&str>,
    owner: Option<BrowserPageOwnerKey>,
)
    ensures
        call_ensures(
            CdpConnection::prepare_document_navigation,
            (&connection, session),
            owner,
        ) ==> {
            &&& owner is Some <==> connection@.session_place(named(session)) is Some
                && connection@.session_owner(named(session)) is Some
            &&& owner is Some ==> owner == connection@.session_owner(named(session))
        },
{
}

/// A claimed creation is still that of the Target of its name while Browser Core
/// keeps that Target's Page in the same place.
pub proof fn law_creation_is_that_of_the_same_place(
    connection: CdpConnection,
    projection: BrowserTargetCreatedFactProjection,
    matches: bool,
)
    ensures
        call_ensures(
            CdpConnection::target_created_fact_matches_current_target,
            (&connection, &projection),
            matches,
        ) ==> (matches <==> (connection@.core.page_of(
            projection.envelope.browser_context_id@,
            projection.envelope.target_id@,
        ) matches Some(place) && place.instance
            == projection.envelope.page_residence.residence.instance)),
{
}

/// The context that a session speaks of is activated, as by its name. A session
/// of the whole browser needs none, and one that speaks of nothing activates
/// none.
pub proof fn law_session_activates_its_context(
    connection: &mut CdpConnection,
    session: &str,
    answer: Result<CoreCommit<bool>, BrowserContextRegistryError>,
    active: bool,
)
    ensures
        call_ensures(
            CdpConnection::activate_browser_context_for_session,
            (connection, session, answer),
            active,
        ) ==> {
            let before = old(connection)@;
            let whole = exists|at: int|
                0 <= at < before.browser_sessions.len() && (
                #[trigger] before.browser_sessions[at])@ == session@;
            let owner = before.session_owner(Some(session@));
            &&& whole ==> active && final(connection)@ == before
            &&& !whole && owner is None ==> !active && final(connection)@ == before
            &&& !whole && owner is Some ==> {
                let activated = lifecycle::try_activate(
                    before,
                    owner->Some_0.browser_context_id@,
                    answer,
                );
                &&& active <==> activated.result is Ok
                &&& final(connection)@ == activated.model
            }
        },
{
}

/// The context of a Target is activated, as by its name; a Target that is in
/// none activates none.
pub proof fn law_target_activates_its_context(
    connection: &mut CdpConnection,
    target: &str,
    answer: Result<CoreCommit<bool>, BrowserContextRegistryError>,
    active: bool,
)
    ensures
        call_ensures(
            CdpConnection::activate_browser_context_for_target,
            (connection, target, answer),
            active,
        ) ==> {
            let before = old(connection)@;
            let id = lifecycle::context_of_target(before, target@);
            &&& id is None ==> !active && final(connection)@ == before
            &&& id is Some ==> {
                let activated = lifecycle::try_activate(before, id->Some_0, answer);
                &&& active <==> activated.result is Ok
                &&& final(connection)@ == activated.model
            }
        },
{
}

/// Whether what Browser Core is told of a context's Targets is what its slots
/// hold: the one in front, where there is one, and those behind in order, each
/// with its instance, the place of its Page and its store.
pub open spec fn tells_of(
    topology: BrowserTargetTopologyProjection,
    context: ContextModel,
) -> bool {
    &&& topology.browser_context_id == context.id
    &&& topology.active is Some <==> context.active.handle is Some
    &&& topology.active matches Some(front) ==> Some(front.handle) == context.active.handle
        && front.page_instance == context.active.slot.page_instance && front.session_storage
        == context.active.slot.session_storage
    &&& topology.background@.len() == context.background.len()
    &&& forall|at: int|
        0 <= at < context.background.len() ==> {
            &&& (#[trigger] topology.background@[at]).handle == context.background[at].handle
            &&& topology.background@[at].page_instance == context.background[at].slot.page_instance
            &&& topology.background@[at].session_storage
                == context.background[at].slot.session_storage
        }
}

/// What Browser Core is told before a Target changes is what the slots hold, and
/// it is told only where the slots agree with it and the context, or the Target
/// that is to come to the front, is there.
pub proof fn law_core_is_told_of_the_slots(
    connection: CdpConnection,
    id: &str,
    target: &str,
    behind: Result<BrowserTargetTopologyProjection, TargetProjectionError>,
    front: Result<BrowserTargetTopologyProjection, TargetProjectionError>,
    activated: Result<BrowserTargetTopologyProjection, TargetProjectionError>,
)
    requires
        connection@.inactive.len() <= usize::MAX,
    ensures
        ({
            let model = connection@;
            let agreed = model.target_topology_refusal() is None;
            &&& call_ensures(
                CdpConnection::prepare_background_target_change,
                (&connection, id),
                behind,
            ) ==> {
                &&& behind is Ok <==> agreed && model.place_of(id@) is Some
                &&& behind matches Ok(topology) ==> tells_of(
                    topology,
                    context_laws::at_place(model, model.place_of(id@)->Some_0),
                )
                &&& !agreed ==> behind is Err && Some(behind->Err_0@)
                    == model.target_topology_refusal()
                &&& agreed && model.place_of(id@) is None ==> behind is Err && behind->Err_0@
                    == TargetRefusal::PhysicalBrowserContextMissing(id@)
            }
            &&& call_ensures(
                CdpConnection::prepare_active_target_change,
                (&connection,),
                front,
            ) ==> {
                &&& front is Ok <==> agreed && model.selected is Some
                &&& front matches Ok(topology) ==> tells_of(topology, model.selected->Some_0)
                &&& !agreed ==> front is Err && Some(front->Err_0@)
                    == model.target_topology_refusal()
            }
            &&& call_ensures(
                CdpConnection::prepare_target_activation,
                (&connection, target),
                activated,
            ) ==> {
                &&& activated is Ok <==> agreed && model.selected is Some
                    && model.selected->Some_0.has_target(target@)
                &&& activated matches Ok(topology) ==> tells_of(topology, model.selected->Some_0)
                &&& agreed && model.selected is Some && !model.selected->Some_0.has_target(target@)
                    ==> activated is Err && activated->Err_0@ == (
                TargetRefusal::PhysicalTargetMissing {
                    browser_context_id: model.selected->Some_0.id@,
                    target_id: target@,
                })
            }
        }),
{
    context_laws::lemma_place_is_there(connection@, id@);
}

/// What Browser Core is asked before a context changes: to activate or remove the
/// very instance that the slots hold under that name, or to register a new one
/// with its Targets and its renderer runtime, beside the one that is selected.
pub proof fn law_core_is_asked_for_the_exact_context(
    connection: CdpConnection,
    id: &str,
    context: BrowserContext,
    expected: Option<&BrowserContextHandle>,
    activation: Result<ContextActivationRequest, BrowserContextProjectionError>,
    registration: Result<ContextRegistrationRequest, BrowserContextProjectionError>,
    removal: Result<BrowserContextHandle, BrowserContextProjectionError>,
)
    ensures
        ({
            let model = connection@;
            let found = model.context(id@);
            &&& call_ensures(
                CdpConnection::prepare_browser_context_activation,
                (&connection, id),
                activation,
            ) ==> (activation matches Ok(request) ==> {
                &&& model.context_topology_refusal() is None
                &&& model.core.has_context(id@)
                &&& found is Some && request.handle == found->Some_0.handle
                &&& request.selected_browser_context_id is Some <==> model.selected is Some
                &&& request.selected_browser_context_id matches Some(selected) ==> selected@
                    == model.selected->Some_0.id@
            })
            &&& call_ensures(
                CdpConnection::prepare_browser_context_registration,
                (&connection, &context),
                registration,
            ) ==> {
                &&& registration is Ok <==> model.context_topology_refusal() is None
                    && context.runtime_owner is Some
                &&& registration matches Ok(request) ==> {
                    &&& request.handle == context.handle
                    &&& tells_of(request.topology, context@)
                    &&& Some(request.runtime_owner) == context.runtime_owner
                    &&& request.selected_browser_context_id is Some <==> model.selected is Some
                }
            }
            &&& call_ensures(
                CdpConnection::prepare_browser_context_removal,
                (&connection, id, expected),
                removal,
            ) ==> {
                &&& removal is Ok <==> model.context_topology_refusal() is None && found is Some && (
                expected matches Some(expected) ==> found->Some_0.handle.browser_context_id@
                    == expected.browser_context_id@ && found->Some_0.handle.instance
                    == expected.instance)
                &&& removal matches Ok(handle) ==> handle == found->Some_0.handle
            }
        }),
{
}

/// The Target that is named in front is in front. One that was there keeps its
/// exact identity, and another is a new instance; all else stays as it was.
pub proof fn law_named_front_target_is_in_front(
    context: &mut BrowserContext,
    target: &str,
    instance: u64,
)
    ensures
        call_ensures(
            BrowserContext::set_active_target_id,
            (context, target, instance),
            (),
        ) ==> {
            let before = old(context).active_target.handle;
            let after = final(context).active_target.handle;
            &&& after is Some && after->Some_0.target_id@ == target@
            &&& before is Some && before->Some_0.target_id@ == target@ ==> after == before
            &&& !(before is Some && before->Some_0.target_id@ == target@)
                ==> after->Some_0.instance == instance
            &&& final(context).active_target.slot == old(context).active_target.slot
            &&& final(context).active_target.session_id == old(context).active_target.session_id
            &&& final(context).background_targets@ == old(context).background_targets@
            &&& final(context).id == old(context).id
        },
{
    assert(old(context)@.active == old(context).active_target);
    assert(final(context)@.active == final(context).active_target);
    assert(final(context)@.background == final(context).background_targets@);
}

/// What enters the queue of a frontend that is there waits last in it, and
/// nothing enters the queue of one that is gone.
pub proof fn law_output_waits_in_order(
    queue: &mut BackgroundOutputQueue,
    event: BackgroundProtocolEvent,
    delivery: BrowserNavigateCommandOutcomeDelivery,
    sent: Result<(), BackgroundOutputClosed>,
)
    ensures
        call_ensures(BackgroundOutputQueue::send, (queue, event), sent) ==> {
            &&& sent is Err <==> old(queue).receiver_closed
            &&& sent is Err ==> final(queue).items@ == old(queue).items@
            &&& sent is Ok ==> final(queue).items@.len() == old(queue).items@.len() + 1
                && final(queue).items@.drop_last() == old(queue).items@
                && final(queue).items@.last() == BrowserBackgroundOutput::ProtocolEvent(event)
        },
        call_ensures(
            BackgroundOutputQueue::send_browser_navigate_outcome,
            (queue, delivery),
            sent,
        ) ==> {
            &&& sent is Err <==> old(queue).receiver_closed
            &&& sent is Err ==> final(queue).items@ == old(queue).items@
            &&& sent is Ok ==> final(queue).items@.len() == old(queue).items@.len() + 1
                && final(queue).items@.drop_last() == old(queue).items@
                && final(queue).items@.last() == BrowserBackgroundOutput::NavigateCommandOutcome(
                delivery,
            )
        },
{
    let items = old(queue).items@;
    assert(items.push(BrowserBackgroundOutput::ProtocolEvent(event)).drop_last() =~= items);
    assert(items.push(BrowserBackgroundOutput::NavigateCommandOutcome(delivery)).drop_last()
        =~= items);
}

/// What waits longest is taken out first, and only that. Where nothing waits it
/// is told whether anything can still come.
pub proof fn law_oldest_output_is_taken_out(
    queue: &mut BackgroundOutputQueue,
    received: Result<BackgroundProtocolEvent, TryReceiveError>,
)
    ensures
        call_ensures(BackgroundOutputQueue::try_recv, (queue,), received) ==> {
            let items = old(queue).items@;
            &&& received is Ok <==> items.len() > 0
            &&& received matches Ok(event) ==> {
                &&& final(queue).items@.len() == items.len() - 1
                &&& forall|at: int|
                    0 <= at < items.len() - 1 ==> #[trigger] final(queue).items@[at]
                        == items[at + 1]
                &&& items[0] matches BrowserBackgroundOutput::ProtocolEvent(entered) ==> event
                    == entered
                &&& items[0] matches BrowserBackgroundOutput::NavigateCommandOutcome(delivery)
                    ==> event.tree() == delivery.response()
            }
            &&& received is Err ==> final(queue).items@ == items
            &&& received is Err ==> (received->Err_0 is Disconnected <==> old(queue).senders_closed)
        },
{
}

/// The context that is picked is one that is accepted, and no context before it
/// is; where none is picked, none is accepted.
pub proof fn law_first_accepted_context_is_picked<F: Fn(&BrowserContext) -> bool>(
    accepts: F,
    contexts: Seq<BrowserContext>,
    picked: Option<int>,
    at: int,
)
    requires
        lifecycle::picks(accepts, contexts, picked),
        0 <= at < contexts.len(),
    ensures
        picked is None ==> accepts.ensures((&contexts[at],), false),
        picked matches Some(place) ==> 0 <= place < contexts.len() && accepts.ensures(
            (&contexts[place],),
            true,
        ) && (at < place ==> accepts.ensures((&contexts[at],), false)),
{
}

} // verus!
