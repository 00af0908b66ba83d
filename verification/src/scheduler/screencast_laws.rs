//! What the schedules of page screencasts promise, said of the subscriptions,
//! the times and the sessions themselves.
use vstd::prelude::*;

use crate::lists;
use crate::scheduler::screencast;
use crate::scheduler::screencast::{
    PageScreencastSubscription, PageScreencastSubscriptionStatus, Schedule,
};
use crate::text;

verus! {

/// Whether the first subscription that is listed for a session and a generation
/// stands so.
#[verifier::opaque]
pub open spec fn listed_as(
    subscriptions: Seq<PageScreencastSubscription>,
    session: Option<Seq<char>>,
    generation: i32,
    status: PageScreencastSubscriptionStatus,
) -> bool {
    exists|at: int|
        0 <= at < subscriptions.len() && text::opt_chars(
            (#[trigger] subscriptions[at]).session_id,
        ) == session && subscriptions[at].generation == generation && subscriptions[at].status
            == status && forall|earlier: int|
            0 <= earlier < at ==> !(text::opt_chars((#[trigger] subscriptions[earlier]).session_id)
                == session && subscriptions[earlier].generation == generation)
}

/// The wish of a schedule stands as the first subscription of its session and
/// generation says. Where none is listed, the wish is over.
pub proof fn law_wish_stands_as_listed(
    subscriptions: Seq<PageScreencastSubscription>,
    schedule: Schedule,
)
    ensures
        ({
            let status = screencast::status(subscriptions, schedule);
            &&& status == PageScreencastSubscriptionStatus::Ready <==> listed_as(
                subscriptions,
                schedule.session,
                schedule.generation,
                PageScreencastSubscriptionStatus::Ready,
            )
            &&& status == PageScreencastSubscriptionStatus::AwaitingAck <==> listed_as(
                subscriptions,
                schedule.session,
                schedule.generation,
                PageScreencastSubscriptionStatus::AwaitingAck,
            )
            &&& status == PageScreencastSubscriptionStatus::CaptureInProgress <==> listed_as(
                subscriptions,
                schedule.session,
                schedule.generation,
                PageScreencastSubscriptionStatus::CaptureInProgress,
            )
            &&& status == PageScreencastSubscriptionStatus::Inactive <==> !listed_as(
                subscriptions,
                schedule.session,
                schedule.generation,
                PageScreencastSubscriptionStatus::Ready,
            ) && !listed_as(
                subscriptions,
                schedule.session,
                schedule.generation,
                PageScreencastSubscriptionStatus::AwaitingAck,
            ) && !listed_as(
                subscriptions,
                schedule.session,
                schedule.generation,
                PageScreencastSubscriptionStatus::CaptureInProgress,
            )
        }),
{
    reveal(listed_as);
    let wanted = |subscription: PageScreencastSubscription|
        screencast::subscribes(subscription, schedule.session, schedule.generation);
    let found = lists::first_where(subscriptions, wanted);
    let status = screencast::status(subscriptions, schedule);
    assert(screencast::status(subscriptions, schedule) == match found {
        Some(at) => subscriptions[at].status,
        None => PageScreencastSubscriptionStatus::Inactive,
    });
    if exists|at: int| 0 <= at < subscriptions.len() && wanted(#[trigger] subscriptions[at]) {
        let some = choose|at: int|
            0 <= at < subscriptions.len() && wanted(#[trigger] subscriptions[at]);
        lemma_first_exists(subscriptions, wanted, some);
        let first = found->Some_0;
        assert forall|earlier: int| 0 <= earlier < first implies !(text::opt_chars(
            (#[trigger] subscriptions[earlier]).session_id,
        ) == schedule.session && subscriptions[earlier].generation == schedule.generation) by {
            assert(!wanted(subscriptions[earlier]));
        }
        assert(wanted(subscriptions[first]));
        assert(listed_as(subscriptions, schedule.session, schedule.generation, status));
        assert forall|other: PageScreencastSubscriptionStatus| #[trigger]
            listed_as(subscriptions, schedule.session, schedule.generation, other) implies other
            == status by {
            let at = choose|at: int|
                0 <= at < subscriptions.len() && text::opt_chars(
                    (#[trigger] subscriptions[at]).session_id,
                ) == schedule.session && subscriptions[at].generation == schedule.generation
                    && subscriptions[at].status == other && forall|earlier: int|
                    0 <= earlier < at ==> !(text::opt_chars(
                        (#[trigger] subscriptions[earlier]).session_id,
                    ) == schedule.session && subscriptions[earlier].generation
                        == schedule.generation);
            assert(wanted(subscriptions[at]));
            assert(at == first);
        }
    } else {
        lists::lemma_nowhere(subscriptions, wanted);
        assert forall|other: PageScreencastSubscriptionStatus| !#[trigger]
            listed_as(subscriptions, schedule.session, schedule.generation, other) by {
            if listed_as(subscriptions, schedule.session, schedule.generation, other) {
                let at = choose|at: int|
                    0 <= at < subscriptions.len() && text::opt_chars(
                        (#[trigger] subscriptions[at]).session_id,
                    ) == schedule.session && subscriptions[at].generation == schedule.generation
                        && subscriptions[at].status == other && forall|earlier: int|
                        0 <= earlier < at ==> !(text::opt_chars(
                            (#[trigger] subscriptions[earlier]).session_id,
                        ) == schedule.session && subscriptions[earlier].generation
                            == schedule.generation);
                assert(wanted(subscriptions[at]));
            }
        }
    }
}

/// Where something is listed, there is a first.
proof fn lemma_first_exists(
    subscriptions: Seq<PageScreencastSubscription>,
    wanted: spec_fn(PageScreencastSubscription) -> bool,
    some: int,
)
    requires
        0 <= some < subscriptions.len(),
        wanted(subscriptions[some]),
    ensures
        lists::first_where(subscriptions, wanted) matches Some(first) && 0 <= first
            < subscriptions.len() && wanted(subscriptions[first]) && forall|earlier: int|
            0 <= earlier < first ==> !wanted(#[trigger] subscriptions[earlier]),
    decreases some,
{
    if exists|earlier: int| 0 <= earlier < some && wanted(#[trigger] subscriptions[earlier]) {
        let earlier = choose|earlier: int|
            0 <= earlier < some && wanted(#[trigger] subscriptions[earlier]);
        lemma_first_exists(subscriptions, wanted, earlier);
    } else {
        lists::lemma_first(subscriptions, wanted, some);
    }
}

/// Every frame that is captured is one that a schedule has due by now and whose
/// wish is listed as ready, and every such frame is captured. While a capture is
/// in progress or a frame is not acknowledged, and once the wish is over, none
/// is.
pub proof fn law_only_ready_wishes_are_captured(
    schedules: Seq<Schedule>,
    subscriptions: Seq<PageScreencastSubscription>,
    now: u64,
    schedule: Schedule,
)
    ensures
        screencast::due(schedules, subscriptions, now).contains(schedule) <==> schedules.contains(
            schedule,
        ) && schedule.due <= now && listed_as(
            subscriptions,
            schedule.session,
            schedule.generation,
            PageScreencastSubscriptionStatus::Ready,
        ),
{
    let is_due = |schedule: Schedule|
        schedule.due <= now && screencast::status(subscriptions, schedule) is Ready;
    law_wish_stands_as_listed(subscriptions, schedule);
    lemma_filter_contains(schedules, is_due, schedule);
    assert(screencast::due(schedules, subscriptions, now) == schedules.filter(is_due));
}

/// What a filter keeps.
pub proof fn lemma_filter_contains(
    schedules: Seq<Schedule>,
    kept: spec_fn(Schedule) -> bool,
    schedule: Schedule,
)
    ensures
        schedules.filter(kept).contains(schedule) <==> schedules.contains(schedule) && kept(
            schedule,
        ),
    decreases schedules.len(),
{
    reveal(Seq::filter);
    if schedules.len() > 0 {
        let front = schedules.drop_last();
        let last = schedules.len() - 1;
        let before = front.filter(kept);
        lemma_filter_contains(front, kept, schedule);
        assert(schedules =~= front.push(schedules[last]));
        assert(schedules.contains(schedule) <==> front.contains(schedule) || schedule
            == schedules[last]) by {
            if front.contains(schedule) {
                let at = choose|at: int| 0 <= at < front.len() && front[at] == schedule;
                assert(schedules[at] == schedule);
            }
            if schedules.contains(schedule) && schedule != schedules[last] {
                let at = choose|at: int| 0 <= at < schedules.len() && schedules[at] == schedule;
                assert(front[at] == schedule);
            }
        }
        if kept(schedules[last]) {
            let longer = before.push(schedules[last]);
            assert(longer[before.len() as int] == schedules[last]);
            if before.contains(schedule) {
                let at = choose|at: int| 0 <= at < before.len() && before[at] == schedule;
                assert(longer[at] == schedule);
            }
            if longer.contains(schedule) && schedule != schedules[last] {
                let at = choose|at: int| 0 <= at < longer.len() && longer[at] == schedule;
                assert(before[at] == schedule);
            }
        }
    }
}

/// A schedule is dropped only when its wish is over: when a deadline is asked
/// for, at once, and when captures begin, once its frame is due.
pub proof fn law_schedules_end_with_their_wish(
    schedules: Seq<Schedule>,
    subscriptions: Seq<PageScreencastSubscription>,
    now: u64,
    schedule: Schedule,
)
    ensures
        ({
            let lives = listed_as(
                subscriptions,
                schedule.session,
                schedule.generation,
                PageScreencastSubscriptionStatus::Ready,
            ) || listed_as(
                subscriptions,
                schedule.session,
                schedule.generation,
                PageScreencastSubscriptionStatus::CaptureInProgress,
            ) || listed_as(
                subscriptions,
                schedule.session,
                schedule.generation,
                PageScreencastSubscriptionStatus::AwaitingAck,
            );
            &&& screencast::alive(schedules, subscriptions).contains(schedule)
                <==> schedules.contains(schedule) && lives
            &&& screencast::alive_or_early(schedules, subscriptions, now).contains(schedule)
                <==> schedules.contains(schedule) && (lives || schedule.due > now)
        }),
{
    law_wish_stands_as_listed(subscriptions, schedule);
    lemma_filter_contains(
        schedules,
        |schedule: Schedule| screencast::status(subscriptions, schedule) !is Inactive,
        schedule,
    );
    lemma_filter_contains(
        schedules,
        |schedule: Schedule|
            schedule.due > now || screencast::status(subscriptions, schedule) !is Inactive,
        schedule,
    );
}

/// The deadline is the earliest time at which a schedule whose wish is listed as
/// ready has a frame due. Without such a schedule there is none.
pub proof fn law_deadline_is_that_of_a_ready_wish(
    schedules: Seq<Schedule>,
    subscriptions: Seq<PageScreencastSubscription>,
)
    ensures
        ({
            let deadline = screencast::earliest(schedules, subscriptions);
            &&& forall|at: int|
                0 <= at < schedules.len() && listed_as(
                    subscriptions,
                    (#[trigger] schedules[at]).session,
                    schedules[at].generation,
                    PageScreencastSubscriptionStatus::Ready,
                ) ==> deadline is Some && deadline->Some_0 <= schedules[at].due
            &&& deadline is Some ==> exists|at: int|
                0 <= at < schedules.len() && (#[trigger] schedules[at]).due == deadline->Some_0
                    && listed_as(
                    subscriptions,
                    schedules[at].session,
                    schedules[at].generation,
                    PageScreencastSubscriptionStatus::Ready,
                )
        }),
    decreases schedules.len(),
{
    if schedules.len() > 0 {
        let front = schedules.drop_last();
        let last = schedules.len() - 1;
        law_deadline_is_that_of_a_ready_wish(front, subscriptions);
        law_wish_stands_as_listed(subscriptions, schedules[last]);
        let before = screencast::earliest(front, subscriptions);
        let deadline = screencast::earliest(schedules, subscriptions);
        if before is Some {
            let at = choose|at: int|
                0 <= at < front.len() && (#[trigger] front[at]).due == before->Some_0 && listed_as(
                    subscriptions,
                    front[at].session,
                    front[at].generation,
                    PageScreencastSubscriptionStatus::Ready,
                );
            assert(schedules[at] == front[at]);
        }
        assert forall|at: int|
            0 <= at < schedules.len() && listed_as(
                subscriptions,
                (#[trigger] schedules[at]).session,
                schedules[at].generation,
                PageScreencastSubscriptionStatus::Ready,
            ) implies deadline is Some && deadline->Some_0 <= schedules[at].due by {
            if at < last {
                assert(front[at] == schedules[at]);
            }
        }
        if deadline is Some && deadline != before {
            assert(schedules[last].due == deadline->Some_0);
        }
    }
}

/// A new wish of a session takes the place of its earlier one; the schedules of
/// all other sessions stay.
pub proof fn law_new_wish_replaces_the_old(
    schedules: Seq<Schedule>,
    wish: Schedule,
    schedule: Schedule,
)
    ensures
        screencast::registered(schedules, wish).contains(schedule) <==> schedule == wish || (
        schedules.contains(schedule) && schedule.session != wish.session),
{
    let other = |known: Schedule| known.session != wish.session;
    lemma_filter_contains(schedules, other, schedule);
    let kept = schedules.filter(other);
    let result = screencast::registered(schedules, wish);
    assert(result =~= kept.push(wish));
    assert(result[kept.len() as int] == wish);
    if kept.contains(schedule) {
        let at = choose|at: int| 0 <= at < kept.len() && kept[at] == schedule;
        assert(result[at] == schedule);
    }
    if result.contains(schedule) && schedule != wish {
        let at = choose|at: int| 0 <= at < result.len() && result[at] == schedule;
        assert(kept[at] == schedule);
    }
}

/// After a delay the next frame of exactly that session and generation is due as
/// much later as was said, or its own interval later; what its Page looks like
/// changes only where that was seen. What has ended loses exactly its own
/// schedule.
pub proof fn law_delay_moves_one_schedule(
    schedules: Seq<Schedule>,
    session: Option<Seq<char>>,
    generation: i32,
    now: u64,
    wait: Option<u64>,
    seen: Option<u64>,
    schedule: Schedule,
)
    requires
        screencast::in_range(now),
        screencast::bounded(schedules),
        wait is Some ==> wait->Some_0 <= screencast::LONGEST_INTERVAL,
    ensures
        ({
            let after = screencast::changed(
                schedules,
                session,
                generation,
                screencast::delay_of(now, wait, seen),
            );
            &&& after.len() == schedules.len()
            &&& forall|at: int|
                0 <= at < schedules.len() ==> {
                    let before = #[trigger] schedules[at];
                    let named = before.session == session && before.generation == generation;
                    &&& !named ==> after[at] == before
                    &&& named ==> {
                        &&& after[at].session == before.session
                        &&& after[at].generation == before.generation
                        &&& after[at].interval == before.interval
                        &&& wait is Some ==> after[at].due == now + wait->Some_0
                        &&& wait is None ==> after[at].due == now + before.interval
                        &&& seen is Some ==> after[at].known == seen
                        &&& seen is None ==> after[at].known == before.known
                    }
                }
        }),
        screencast::dropped(schedules, session, generation).contains(schedule)
            <==> schedules.contains(schedule) && !(schedule.session == session
            && schedule.generation == generation),
{
    lemma_filter_contains(
        schedules,
        |schedule: Schedule| !schedule.is(session, generation),
        schedule,
    );
}

} // verus!
