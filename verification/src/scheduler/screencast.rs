//! When the frames of page screencasts are captured.
//!
//! Points in time are in milliseconds. Each session has at most one schedule,
//! and a schedule changes only for the generation it was registered with.
use vstd::prelude::*;

use crate::connection::background_output::BackgroundProtocolEvent;
use crate::lists;
use crate::scheduler::screencast_laws;
use crate::text;
use crate::text::{copy_owned, opt_as_str, same_opt_text};

verus! {

/// How long a capture that failed waits.
pub const PAGE_SCREENCAST_RETRY_INTERVAL: u64 = 1000;

/// The longest interval between frames.
pub const LONGEST_INTERVAL: u64 = 4_294_967_295_000;

/// A session's wish for frames.
pub struct PageScreencastRegistration {
    pub session_id: Option<String>,
    pub generation: i32,
    pub every_nth_frame: u32,
}

/// When the next frame of a session is due.
pub struct PageScreencastSchedule {
    pub session_id: Option<String>,
    pub generation: i32,
    pub interval: u64,
    pub next_due_at: u64,
    /// What the Page looked like in the last frame.
    pub known_visual_state: Option<u64>,
}

/// A schedule, as a value.
pub struct Schedule {
    pub session: Option<Seq<char>>,
    pub generation: i32,
    pub interval: u64,
    pub due: u64,
    pub known: Option<u64>,
}

impl View for PageScreencastSchedule {
    type V = Schedule;

    open spec fn view(&self) -> Schedule {
        Schedule {
            session: text::opt_chars(self.session_id),
            generation: self.generation,
            interval: self.interval,
            due: self.next_due_at,
            known: self.known_visual_state,
        }
    }
}

impl Schedule {
    /// Whether it is a session's schedule of a generation.
    pub open spec fn is(self, session: Option<Seq<char>>, generation: i32) -> bool {
        self.session == session && self.generation == generation
    }
}

impl PageScreencastSchedule {
    fn matches(&self, session_id: Option<&str>, generation: i32) -> (matches: bool)
        ensures
            matches == self@.is(text::opt_str_chars(session_id), generation),
    {
        same_opt_text(opt_as_str(&self.session_id), session_id) && self.generation == generation
    }
}

/// How a session's wish for frames stands.
#[derive(Clone, Copy, Debug, PartialEq, Eq, Structural)]
pub enum PageScreencastSubscriptionStatus {
    Inactive,
    Ready,
    CaptureInProgress,
    AwaitingAck,
}

/// How the wish of one session stands.
pub struct PageScreencastSubscription {
    pub session_id: Option<String>,
    pub generation: i32,
    pub status: PageScreencastSubscriptionStatus,
}

/// Whether a subscription is a session's of a generation.
pub open spec fn subscribes(
    subscription: PageScreencastSubscription,
    session: Option<Seq<char>>,
    generation: i32,
) -> bool {
    text::opt_chars(subscription.session_id) == session && subscription.generation == generation
}

/// How the wish stands that a schedule is for. What is not listed is inactive.
pub open spec fn status(
    subscriptions: Seq<PageScreencastSubscription>,
    schedule: Schedule,
) -> PageScreencastSubscriptionStatus {
    match lists::first_where(
        subscriptions,
        |subscription: PageScreencastSubscription|
            subscribes(subscription, schedule.session, schedule.generation),
    ) {
        Some(at) => subscriptions[at].status,
        None => PageScreencastSubscriptionStatus::Inactive,
    }
}

/// How the wish stands that a schedule is for.
pub fn page_screencast_subscription_status(
    subscriptions: &Vec<PageScreencastSubscription>,
    schedule: &PageScreencastSchedule,
) -> (found: PageScreencastSubscriptionStatus)
    ensures
        found == status(subscriptions@, schedule@),
{
    let ghost wanted = |subscription: PageScreencastSubscription|
        subscribes(subscription, schedule@.session, schedule@.generation);
    let mut index: usize = 0;
    while index < subscriptions.len()
        invariant
            index <= subscriptions@.len(),
            wanted == (|subscription: PageScreencastSubscription|
                subscribes(subscription, schedule@.session, schedule@.generation)),
            forall|at: int| 0 <= at < index ==> !wanted(#[trigger] subscriptions@[at]),
        decreases subscriptions@.len() - index,
    {
        if schedule.matches(
            opt_as_str(&subscriptions[index].session_id),
            subscriptions[index].generation,
        ) {
            proof {
                assert(wanted(subscriptions@[index as int]));
                lists::lemma_first(subscriptions@, wanted, index as int);
            }
            return subscriptions[index].status;
        }
        index += 1;
    }
    proof {
        lists::lemma_nowhere(subscriptions@, wanted);
    }
    PageScreencastSubscriptionStatus::Inactive
}

/// The interval between frames: as many seconds as frames are skipped to.
pub fn page_screencast_interval(every_nth_frame: u32) -> (interval: u64)
    ensures
        interval == every_nth_frame * 1000,
        interval <= LONGEST_INTERVAL,
{
    every_nth_frame as u64 * 1000
}

/// Whether an interval can be added to a point in time.
pub open spec fn in_range(now: u64) -> bool {
    now + LONGEST_INTERVAL <= u64::MAX
}

/// A capture that is to begin.
pub struct PageScreencastCaptureRequest {
    pub session_id: Option<String>,
    pub generation: i32,
    pub known_visual_state: Option<u64>,
}

/// Whether a request is for the frame that a schedule has due.
pub open spec fn asks_for(request: PageScreencastCaptureRequest, schedule: Schedule) -> bool {
    &&& text::opt_chars(request.session_id) == schedule.session
    &&& request.generation == schedule.generation
    &&& request.known_visual_state == schedule.known
}

/// What became of the beginning of a capture.
#[derive(Clone, Copy, Debug, PartialEq, Eq, Structural)]
pub enum PageScreencastCaptureStart {
    Pending,
    Retry,
    Stale,
}

/// What a capture came to.
pub enum PageScreencastCaptureCompletion {
    Frame { event: BackgroundProtocolEvent, visual_state: u64 },
    Unchanged,
    Retry,
    Stale,
}

/// A frame to be sent.
pub struct ScheduledPageScreencastFrame {
    pub event: BackgroundProtocolEvent,
    pub session_id: Option<String>,
    pub generation: i32,
    pub visual_state: u64,
}

/// Schedules, as values.
pub open spec fn values(schedules: Seq<PageScreencastSchedule>) -> Seq<Schedule> {
    schedules.map_values(|schedule: PageScreencastSchedule| schedule@)
}

/// Whether a session has a schedule of a generation.
pub open spec fn scheduled(
    schedules: Seq<Schedule>,
    session: Option<Seq<char>>,
    generation: i32,
) -> bool {
    exists|at: int| 0 <= at < schedules.len() && (#[trigger] schedules[at]).is(session, generation)
}

/// A session's schedule changed, and the others as they are.
pub open spec fn changed(
    schedules: Seq<Schedule>,
    session: Option<Seq<char>>,
    generation: i32,
    change: spec_fn(Schedule) -> Schedule,
) -> Seq<Schedule> {
    schedules.map_values(
        |schedule: Schedule|
            if schedule.is(session, generation) {
                change(schedule)
            } else {
                schedule
            },
    )
}

/// A session's schedule gone, and the others as they are.
pub open spec fn dropped(
    schedules: Seq<Schedule>,
    session: Option<Seq<char>>,
    generation: i32,
) -> Seq<Schedule> {
    schedules.filter(|schedule: Schedule| !schedule.is(session, generation))
}

/// The schedules with a session's new one in place of the old.
pub open spec fn registered(schedules: Seq<Schedule>, schedule: Schedule) -> Seq<Schedule> {
    schedules.filter(|other: Schedule| other.session != schedule.session).push(schedule)
}

/// The schedules whose wish is still alive.
pub open spec fn alive(
    schedules: Seq<Schedule>,
    subscriptions: Seq<PageScreencastSubscription>,
) -> Seq<Schedule> {
    schedules.filter(|schedule: Schedule| status(subscriptions, schedule) !is Inactive)
}

/// The schedules that remain when due ones whose wish has ended are dropped.
pub open spec fn alive_or_early(
    schedules: Seq<Schedule>,
    subscriptions: Seq<PageScreencastSubscription>,
    now: u64,
) -> Seq<Schedule> {
    schedules.filter(
        |schedule: Schedule| schedule.due > now || status(subscriptions, schedule) !is Inactive,
    )
}

/// The schedules with a frame due that can be captured.
pub open spec fn due(
    schedules: Seq<Schedule>,
    subscriptions: Seq<PageScreencastSubscription>,
    now: u64,
) -> Seq<Schedule> {
    schedules.filter(
        |schedule: Schedule| schedule.due <= now && status(subscriptions, schedule) is Ready,
    )
}

/// The earliest time at which a frame can be captured.
pub open spec fn earliest(
    schedules: Seq<Schedule>,
    subscriptions: Seq<PageScreencastSubscription>,
) -> Option<u64>
    decreases schedules.len(),
{
    if schedules.len() == 0 {
        None
    } else {
        let before = earliest(schedules.drop_last(), subscriptions);
        let last = schedules.last();
        if status(subscriptions, last) is Ready {
            match before {
                Some(time) => Some(if time <= last.due { time } else { last.due }),
                None => Some(last.due),
            }
        } else {
            before
        }
    }
}

/// The schedules of all sessions.
pub struct PageScreencasts {
    pub schedules: Vec<PageScreencastSchedule>,
}

impl View for PageScreencasts {
    type V = Seq<Schedule>;

    open spec fn view(&self) -> Seq<Schedule> {
        values(self.schedules@)
    }
}

/// No interval is longer than the longest.
pub open spec fn bounded(schedules: Seq<Schedule>) -> bool {
    forall|at: int|
        0 <= at < schedules.len() ==> (#[trigger] schedules[at]).interval <= LONGEST_INTERVAL
}

/// What is kept of bounded schedules is bounded.
proof fn lemma_kept_bounded(schedules: Seq<Schedule>, kept: spec_fn(Schedule) -> bool)
    requires
        bounded(schedules),
    ensures
        bounded(schedules.filter(kept)),
    decreases schedules.len(),
{
    reveal(Seq::filter);
    if schedules.len() > 0 {
        assert forall|at: int| 0 <= at < schedules.drop_last().len() implies (
        #[trigger] schedules.drop_last()[at]).interval <= LONGEST_INTERVAL by {
            assert(schedules[at].interval <= LONGEST_INTERVAL);
        }
        lemma_kept_bounded(schedules.drop_last(), kept);
        assert(schedules[schedules.len() - 1].interval <= LONGEST_INTERVAL);
    }
}

/// Whether no session has two schedules.
pub open spec fn one_each(schedules: Seq<Schedule>) -> bool {
    forall|left: int, right: int|
        0 <= left < right < schedules.len() ==> (#[trigger] schedules[left]).session != (
        #[trigger] schedules[right]).session
}

/// What is kept of one schedule for each session is that too.
proof fn lemma_kept_one_each(schedules: Seq<Schedule>, kept: spec_fn(Schedule) -> bool)
    requires
        one_each(schedules),
    ensures
        one_each(schedules.filter(kept)),
        forall|at: int|
            0 <= at < schedules.filter(kept).len() ==> schedules.contains(
                #[trigger] schedules.filter(kept)[at],
            ),
    decreases schedules.len(),
{
    reveal(Seq::filter);
    if schedules.len() > 0 {
        let front = schedules.drop_last();
        assert forall|left: int, right: int| 0 <= left < right < front.len() implies (
        #[trigger] front[left]).session != (#[trigger] front[right]).session by {
            assert(schedules[left].session != schedules[right].session);
        }
        lemma_kept_one_each(front, kept);
        let before = front.filter(kept);
        assert forall|at: int| 0 <= at < before.len() implies schedules.contains(#[trigger] before[at])
            && before[at].session != schedules.last().session by {
            assert(front.contains(before[at]));
            let place = choose|place: int| 0 <= place < front.len() && front[place] == before[at];
            assert(schedules[place] == before[at]);
            assert(schedules[place].session != schedules[schedules.len() - 1].session);
        }
        assert(schedules.contains(schedules[schedules.len() - 1]));
    }
}

/// What is kept of well-formed schedules is well formed.
proof fn lemma_kept(schedules: Seq<Schedule>, kept: spec_fn(Schedule) -> bool)
    requires
        bounded(schedules),
        one_each(schedules),
    ensures
        bounded(schedules.filter(kept)),
        one_each(schedules.filter(kept)),
{
    lemma_kept_bounded(schedules, kept);
    lemma_kept_one_each(schedules, kept);
}

impl PageScreencasts {
    /// No interval is too long, and each session has at most one schedule.
    pub open spec fn wf(&self) -> bool {
        bounded(self@) && one_each(self@)
    }

    pub fn new() -> (screencasts: PageScreencasts)
        ensures
            screencasts.wf(),
            screencasts@ == Seq::<Schedule>::empty(),
    {
        let screencasts = PageScreencasts { schedules: Vec::new() };
        assert(screencasts@ =~= Seq::<Schedule>::empty());
        screencasts
    }

    /// Takes all schedules out.
    fn take(&mut self) -> (schedules: Vec<PageScreencastSchedule>)
        ensures
            values(schedules@) == old(self)@,
            final(self)@ == Seq::<Schedule>::empty(),
    {
        let mut schedules: Vec<PageScreencastSchedule> = Vec::new();
        schedules.append(&mut self.schedules);
        assert(schedules@ =~= old(self).schedules@);
        assert(self@ =~= Seq::<Schedule>::empty());
        schedules
    }

    /// A session wants frames. Its first is due at once; an earlier wish of the
    /// session is forgotten.
    pub fn register_page_screencast(
        &mut self,
        registration: PageScreencastRegistration,
        now: u64,
    )
        requires
            old(self).wf(),
        ensures
            final(self).wf(),
            final(self)@ == registered(
                old(self)@,
                (Schedule {
                    session: text::opt_chars(registration.session_id),
                    generation: registration.generation,
                    interval: (registration.every_nth_frame * 1000) as u64,
                    due: now,
                    known: None,
                }),
            ),
    {
        let interval = page_screencast_interval(registration.every_nth_frame);
        let schedule = PageScreencastSchedule {
            session_id: registration.session_id,
            generation: registration.generation,
            interval,
            next_due_at: now,
            known_visual_state: None,
        };
        let ghost whole = self@;
        let ghost other = |other: Schedule| other.session != schedule@.session;
        let mut kept: Vec<PageScreencastSchedule> = Vec::new();
        reveal(Seq::filter);
        assert(values(kept@) =~= whole.take(0).filter(other));
        let taken = self.take();
        for known in given: taken
            invariant
                values(given.seq()) == whole,
                other == (|other: Schedule| other.session != schedule@.session),
                values(kept@) == whole.take(given.index() as int).filter(other),
        {
            let ghost before = values(kept@);
            proof {
                let upto = whole.take(given.index() + 1);
                assert(upto.drop_last() =~= whole.take(given.index() as int));
                assert(upto.last() == known@);
                reveal(Seq::filter);
            }
            if !same_opt_text(opt_as_str(&known.session_id), opt_as_str(&schedule.session_id)) {
                kept.push(known);
                assert(values(kept@) =~= before.push(known@));
            }
        }
        assert(whole.take(whole.len() as int) =~= whole);
        proof {
            lemma_kept(whole, other);
        }
        let ghost before = values(kept@);
        kept.push(schedule);
        assert(values(kept@) =~= before.push(schedule@));
        assert(bounded(before.push(schedule@)));
        proof {
            law_one_schedule_each(whole, schedule@);
        }
        self.schedules = kept;
    }

    /// Whether a session has a schedule of a generation.
    pub fn page_screencast_schedule_matches(&self, session_id: Option<&str>, generation: i32) -> (
    matches: bool)
        ensures
            matches == scheduled(self@, text::opt_str_chars(session_id), generation),
    {
        let mut index: usize = 0;
        while index < self.schedules.len()
            invariant
                index <= self.schedules@.len(),
                forall|at: int|
                    0 <= at < index ==> !(#[trigger] self@[at]).is(
                        text::opt_str_chars(session_id),
                        generation,
                    ),
            decreases self.schedules@.len() - index,
        {
            if self.schedules[index].matches(session_id, generation) {
                assert(self@[index as int].is(text::opt_str_chars(session_id), generation));
                return true;
            }
            index += 1;
        }
        false
    }

    /// The earliest time at which a frame can be captured. Schedules whose wish
    /// has ended are dropped.
    pub fn next_page_screencast_deadline(
        &mut self,
        subscriptions: &Vec<PageScreencastSubscription>,
    ) -> (deadline: Option<u64>)
        requires
            old(self).wf(),
        ensures
            final(self).wf(),
            final(self)@ == alive(old(self)@, subscriptions@),
            deadline == earliest(old(self)@, subscriptions@),
    {
        let ghost whole = self@;
        let mut kept: Vec<PageScreencastSchedule> = Vec::new();
        let mut deadline: Option<u64> = None;
        reveal(Seq::filter);
        assert(values(kept@) =~= alive(whole.take(0), subscriptions@));
        let taken = self.take();
        for schedule in given: taken
            invariant
                values(given.seq()) == whole,
                values(kept@) == alive(whole.take(given.index() as int), subscriptions@),
                deadline == earliest(whole.take(given.index() as int), subscriptions@),
        {
            let ghost before = values(kept@);
            proof {
                let upto = whole.take(given.index() + 1);
                assert(upto.drop_last() =~= whole.take(given.index() as int));
                assert(upto.last() == schedule@);
                reveal(Seq::filter);
            }
            let found = page_screencast_subscription_status(subscriptions, &schedule);
            if found == PageScreencastSubscriptionStatus::Ready {
                deadline = match deadline {
                    Some(time) => Some(
                        if time <= schedule.next_due_at { time } else { schedule.next_due_at },
                    ),
                    None => Some(schedule.next_due_at),
                };
            }
            if found != PageScreencastSubscriptionStatus::Inactive {
                kept.push(schedule);
                assert(values(kept@) =~= before.push(schedule@));
            }
        }
        assert(whole.take(whole.len() as int) =~= whole);
        proof {
            lemma_kept(
                whole,
                |schedule: Schedule| status(subscriptions@, schedule) !is Inactive,
            );
        }
        self.schedules = kept;
        deadline
    }

    /// The captures to begin now. Due schedules whose wish has ended are
    /// dropped.
    pub fn start_due_page_screencast_captures(
        &mut self,
        subscriptions: &Vec<PageScreencastSubscription>,
        now: u64,
    ) -> (requests: Vec<PageScreencastCaptureRequest>)
        requires
            old(self).wf(),
        ensures
            final(self).wf(),
            final(self)@ == alive_or_early(old(self)@, subscriptions@, now),
            requests@.len() == due(old(self)@, subscriptions@, now).len(),
            forall|at: int|
                0 <= at < requests@.len() ==> asks_for(
                    #[trigger] requests@[at],
                    due(old(self)@, subscriptions@, now)[at],
                ),
            forall|at: int|
                0 <= at < requests@.len() ==> screencast_laws::listed_as(
                    subscriptions@,
                    text::opt_chars((#[trigger] requests@[at]).session_id),
                    requests@[at].generation,
                    PageScreencastSubscriptionStatus::Ready,
                ),
    {
        let ghost whole = self@;
        let mut kept: Vec<PageScreencastSchedule> = Vec::new();
        let mut requests: Vec<PageScreencastCaptureRequest> = Vec::new();
        reveal(Seq::filter);
        assert(values(kept@) =~= alive_or_early(whole.take(0), subscriptions@, now));
        let taken = self.take();
        for schedule in given: taken
            invariant
                values(given.seq()) == whole,
                values(kept@) == alive_or_early(
                    whole.take(given.index() as int),
                    subscriptions@,
                    now,
                ),
                requests@.len() == due(whole.take(given.index() as int), subscriptions@, now).len(),
                forall|at: int|
                    0 <= at < requests@.len() ==> asks_for(
                        #[trigger] requests@[at],
                        due(whole.take(given.index() as int), subscriptions@, now)[at],
                    ),
        {
            let ghost before = values(kept@);
            proof {
                let upto = whole.take(given.index() + 1);
                assert(upto.drop_last() =~= whole.take(given.index() as int));
                assert(upto.last() == schedule@);
                reveal(Seq::filter);
            }
            let found = page_screencast_subscription_status(subscriptions, &schedule);
            if schedule.next_due_at <= now && found == PageScreencastSubscriptionStatus::Ready {
                requests.push(
                    PageScreencastCaptureRequest {
                        session_id: copy_owned(&schedule.session_id),
                        generation: schedule.generation,
                        known_visual_state: schedule.known_visual_state,
                    },
                );
            }
            if schedule.next_due_at > now || found != PageScreencastSubscriptionStatus::Inactive {
                kept.push(schedule);
                assert(values(kept@) =~= before.push(schedule@));
            }
        }
        assert(whole.take(whole.len() as int) =~= whole);
        proof {
            lemma_kept(
                whole,
                |schedule: Schedule|
                    schedule.due > now || status(subscriptions@, schedule) !is Inactive,
            );
            let frames = due(whole, subscriptions@, now);
            assert forall|at: int| 0 <= at < requests@.len() implies screencast_laws::listed_as(
                subscriptions@,
                text::opt_chars((#[trigger] requests@[at]).session_id),
                requests@[at].generation,
                PageScreencastSubscriptionStatus::Ready,
            ) by {
                assert(asks_for(requests@[at], frames[at]));
                assert(frames.contains(frames[at]));
                screencast_laws::law_only_ready_wishes_are_captured(
                    whole,
                    subscriptions@,
                    now,
                    frames[at],
                );
            }
        }
        self.schedules = kept;
        requests
    }

    /// Drops a session's schedule of a generation.
    fn forget(&mut self, session_id: Option<&str>, generation: i32)
        requires
            old(self).wf(),
        ensures
            final(self).wf(),
            final(self)@ == dropped(old(self)@, text::opt_str_chars(session_id), generation),
    {
        let ghost whole = self@;
        let ghost session = text::opt_str_chars(session_id);
        let mut kept: Vec<PageScreencastSchedule> = Vec::new();
        reveal(Seq::filter);
        assert(values(kept@) =~= dropped(whole.take(0), session, generation));
        let taken = self.take();
        for schedule in given: taken
            invariant
                values(given.seq()) == whole,
                session == text::opt_str_chars(session_id),
                values(kept@) == dropped(whole.take(given.index() as int), session, generation),
        {
            let ghost before = values(kept@);
            proof {
                let upto = whole.take(given.index() + 1);
                assert(upto.drop_last() =~= whole.take(given.index() as int));
                assert(upto.last() == schedule@);
                reveal(Seq::filter);
            }
            if !schedule.matches(session_id, generation) {
                kept.push(schedule);
                assert(values(kept@) =~= before.push(schedule@));
            }
        }
        assert(whole.take(whole.len() as int) =~= whole);
        proof {
            lemma_kept(whole, |schedule: Schedule| !schedule.is(session, generation));
        }
        self.schedules = kept;
    }

    /// Sets when the next frame of a session is due: a given time from now, or
    /// its interval from now. What its Page looks like may have become known.
    fn delay(
        &mut self,
        session_id: Option<&str>,
        generation: i32,
        now: u64,
        wait: Option<u64>,
        visual_state: Option<u64>,
    )
        requires
            old(self).wf(),
            in_range(now),
            wait matches Some(time) ==> time <= LONGEST_INTERVAL,
        ensures
            final(self).wf(),
            final(self)@ == changed(
                old(self)@,
                text::opt_str_chars(session_id),
                generation,
                delay_of(now, wait, visual_state),
            ),
    {
        let ghost whole = self@;
        let ghost session = text::opt_str_chars(session_id);
        let ghost change = delay_of(now, wait, visual_state);
        let mut kept: Vec<PageScreencastSchedule> = Vec::new();
        let taken = self.take();
        for schedule in given: taken
            invariant
                values(given.seq()) == whole,
                bounded(whole),
                one_each(whole),
                in_range(now),
                wait matches Some(time) ==> time <= LONGEST_INTERVAL,
                session == text::opt_str_chars(session_id),
                change == delay_of(now, wait, visual_state),
                kept@.len() == given.index(),
                bounded(values(kept@)),
                forall|at: int|
                    0 <= at < kept@.len() ==> (#[trigger] kept@[at])@ == changed(
                        whole,
                        session,
                        generation,
                        change,
                    )[at],
        {
            let ghost before = values(kept@);
            assert(schedule@ == whole[given.index() as int]);
            let mut delayed = schedule;
            if delayed.matches(session_id, generation) {
                let added = match wait {
                    Some(time) => time,
                    None => delayed.interval,
                };
                delayed.next_due_at = now + added;
                if let Some(seen) = visual_state {
                    delayed.known_visual_state = Some(seen);
                }
            }
            kept.push(delayed);
            assert(values(kept@) =~= before.push(delayed@));
        }
        self.schedules = kept;
        assert(self@ =~= changed(whole, session, generation, change));
        assert forall|left: int, right: int| 0 <= left < right < self@.len() implies (
        #[trigger] self@[left]).session != (#[trigger] self@[right]).session by {
            assert(whole[left].session != whole[right].session);
        }
    }

    /// A capture has begun, or not: it is tried again, or the wish has ended.
    pub fn note_page_screencast_capture_start(
        &mut self,
        session_id: Option<&str>,
        generation: i32,
        start: PageScreencastCaptureStart,
        now: u64,
    )
        requires
            old(self).wf(),
            in_range(now),
        ensures
            final(self).wf(),
            final(self)@ == (match start {
                PageScreencastCaptureStart::Pending => old(self)@,
                PageScreencastCaptureStart::Retry => changed(
                    old(self)@,
                    text::opt_str_chars(session_id),
                    generation,
                    delay_of(now, Some(PAGE_SCREENCAST_RETRY_INTERVAL), None),
                ),
                PageScreencastCaptureStart::Stale => dropped(
                    old(self)@,
                    text::opt_str_chars(session_id),
                    generation,
                ),
            }),
    {
        match start {
            PageScreencastCaptureStart::Pending => {},
            PageScreencastCaptureStart::Retry => {
                self.delay(
                    session_id,
                    generation,
                    now,
                    Some(PAGE_SCREENCAST_RETRY_INTERVAL),
                    None,
                );
            },
            PageScreencastCaptureStart::Stale => {
                self.forget(session_id, generation);
            },
        }
    }

    /// A capture has ended. A frame is handed on while its session still has
    /// the schedule it was captured for.
    pub fn complete_page_screencast_capture(
        &mut self,
        session_id: Option<String>,
        generation: i32,
        completion: PageScreencastCaptureCompletion,
        now: u64,
    ) -> (frame: Option<ScheduledPageScreencastFrame>)
        requires
            old(self).wf(),
            in_range(now),
        ensures
            final(self).wf(),
            final(self)@ == (match completion {
                PageScreencastCaptureCompletion::Frame { .. } => old(self)@,
                PageScreencastCaptureCompletion::Unchanged => changed(
                    old(self)@,
                    text::opt_chars(session_id),
                    generation,
                    delay_of(now, None, None),
                ),
                PageScreencastCaptureCompletion::Retry => changed(
                    old(self)@,
                    text::opt_chars(session_id),
                    generation,
                    delay_of(now, Some(PAGE_SCREENCAST_RETRY_INTERVAL), None),
                ),
                PageScreencastCaptureCompletion::Stale => dropped(
                    old(self)@,
                    text::opt_chars(session_id),
                    generation,
                ),
            }),
            frame == (match completion {
                PageScreencastCaptureCompletion::Frame { event, visual_state } => if scheduled(
                    old(self)@,
                    text::opt_chars(session_id),
                    generation,
                ) {
                    Some(
                        ScheduledPageScreencastFrame { event, session_id, generation, visual_state },
                    )
                } else {
                    None
                },
                _ => None,
            }),
    {
        match completion {
            PageScreencastCaptureCompletion::Frame { event, visual_state } => {
                if self.page_screencast_schedule_matches(opt_as_str(&session_id), generation) {
                    Some(
                        ScheduledPageScreencastFrame { event, session_id, generation, visual_state },
                    )
                } else {
                    None
                }
            },
            PageScreencastCaptureCompletion::Unchanged => {
                self.delay(opt_as_str(&session_id), generation, now, None, None);
                None
            },
            PageScreencastCaptureCompletion::Retry => {
                self.delay(
                    opt_as_str(&session_id),
                    generation,
                    now,
                    Some(PAGE_SCREENCAST_RETRY_INTERVAL),
                    None,
                );
                None
            },
            PageScreencastCaptureCompletion::Stale => {
                self.forget(opt_as_str(&session_id), generation);
                None
            },
        }
    }

    /// A frame was sent. The next is due after the interval, and then only if
    /// the Page looks different.
    pub fn note_page_screencast_frame_emitted(
        &mut self,
        session_id: Option<&str>,
        generation: i32,
        visual_state: u64,
        now: u64,
    )
        requires
            old(self).wf(),
            in_range(now),
        ensures
            final(self).wf(),
            final(self)@ == changed(
                old(self)@,
                text::opt_str_chars(session_id),
                generation,
                delay_of(now, None, Some(visual_state)),
            ),
    {
        self.delay(session_id, generation, now, None, Some(visual_state));
    }
}

/// What a delay does to a schedule: its next frame is due a given time from
/// now, or its interval from now.
pub open spec fn delay_of(now: u64, wait: Option<u64>, visual_state: Option<u64>) -> spec_fn(
    Schedule,
) -> Schedule {
    |schedule: Schedule|
        Schedule {
            due: (now + (match wait {
                Some(time) => time,
                None => schedule.interval,
            })) as u64,
            known: match visual_state {
                Some(seen) => Some(seen),
                None => schedule.known,
            },
            ..schedule
        }
}

/// Registering keeps one schedule for each session.
pub proof fn law_one_schedule_each(schedules: Seq<Schedule>, schedule: Schedule)
    requires
        one_each(schedules),
    ensures
        one_each(registered(schedules, schedule)),
{
    broadcast use vstd::seq_lib::group_filter_ensures;

    let other = |known: Schedule| known.session != schedule.session;
    let kept = schedules.filter(other);
    lemma_kept_one_each(schedules, other);
    assert(kept == schedules.filter(|known: Schedule| known.session != schedule.session));
    let result = registered(schedules, schedule);
    assert(result =~= kept.push(schedule));
    assert forall|left: int, right: int| 0 <= left < right < result.len() implies (
    #[trigger] result[left]).session != (#[trigger] result[right]).session by {
        assert(result[left] == kept[left]);
        assert(other(kept[left]));
        if right < kept.len() {
            assert(result[right] == kept[right]);
        }
    }
}

/// What is done for one generation of a session's wish leaves the schedules of
/// other sessions and generations alone.
pub proof fn law_other_generations_are_left_alone(
    schedules: Seq<Schedule>,
    session: Option<Seq<char>>,
    generation: i32,
    change: spec_fn(Schedule) -> Schedule,
    at: int,
)
    requires
        0 <= at < schedules.len(),
        !schedules[at].is(session, generation),
    ensures
        changed(schedules, session, generation, change)[at] == schedules[at],
        dropped(schedules, session, generation).contains(schedules[at]),
{
    broadcast use vstd::seq_lib::group_filter_ensures;

    let other = |schedule: Schedule| !schedule.is(session, generation);
    assert(other(schedules[at]));
    assert(schedules.filter(other).contains(schedules[at]));
}

/// No frame that can be captured is due before the deadline.
pub proof fn law_deadline_is_earliest(
    schedules: Seq<Schedule>,
    subscriptions: Seq<PageScreencastSubscription>,
    at: int,
)
    requires
        0 <= at < schedules.len(),
        status(subscriptions, schedules[at]) is Ready,
    ensures
        earliest(schedules, subscriptions) matches Some(time) && time <= schedules[at].due,
    decreases schedules.len(),
{
    if at < schedules.len() - 1 {
        assert(schedules.drop_last()[at] == schedules[at]);
        law_deadline_is_earliest(schedules.drop_last(), subscriptions, at);
    }
}

} // verus!
