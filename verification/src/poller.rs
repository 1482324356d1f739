//! The schedule by which a reader of a thread asks for new posts: a state
//! machine from a state and an event to the next state and the one thing to
//! do. It keeps no clock and arms no timer; its driver reports the time with
//! each event and carries out the action.
//!
//! Times and intervals are whole milliseconds.

use vstd::prelude::*;

verus! {

/// The mark up to which a reader has seen a thread.
#[derive(Debug, Clone, PartialEq, Eq)]
pub struct PollCursor {
    pub handle: String,
    pub post_id: String,
    /// The content digest of the last post seen.
    pub last_cid: String,
}

/// The value of a `PollCursor`.
pub struct CursorModel {
    pub handle: Seq<char>,
    pub post_id: Seq<char>,
    pub last_cid: Seq<char>,
}

impl View for PollCursor {
    type V = CursorModel;

    open spec fn view(&self) -> CursorModel {
        CursorModel { handle: self.handle@, post_id: self.post_id@, last_cid: self.last_cid@ }
    }
}

/// How a poll ended.
#[derive(Debug, Clone, PartialEq, Eq)]
pub enum PollOutcome {
    /// Nothing new, and the thread is still live.
    NoChange,
    /// New posts; `last_cid` is the digest of the last of them.
    NewPosts { last_cid: String },
    /// Nothing new, and the thread has been quiet for too long.
    Stale,
    /// The poll did not get through.
    TransportError,
}

/// The value of a `PollOutcome`.
pub enum OutcomeModel {
    NoChange,
    NewPosts { last_cid: Seq<char> },
    Stale,
    TransportError,
}

impl View for PollOutcome {
    type V = OutcomeModel;

    open spec fn view(&self) -> OutcomeModel {
        match self {
            PollOutcome::NoChange => OutcomeModel::NoChange,
            PollOutcome::NewPosts { last_cid } => OutcomeModel::NewPosts { last_cid: last_cid@ },
            PollOutcome::Stale => OutcomeModel::Stale,
            PollOutcome::TransportError => OutcomeModel::TransportError,
        }
    }
}

/// What happens to a poller. Each event carries the time at which it
/// happened.
#[derive(Debug, Clone, PartialEq, Eq)]
pub enum PollerEvent {
    /// The timer that the last `Wait` armed has run down.
    TimerFired { now: u64 },
    /// The poll that the last `Poll` started has ended.
    PollFinished { outcome: PollOutcome, now: u64 },
    /// The page has come to the foreground or left it.
    VisibilityChanged { visible: bool, now: u64 },
    /// The reader asks for a refresh.
    ManualRefresh { now: u64 },
}

/// The value of a `PollerEvent`.
pub enum PollerEventModel {
    TimerFired { now: u64 },
    PollFinished { outcome: OutcomeModel, now: u64 },
    VisibilityChanged { visible: bool, now: u64 },
    ManualRefresh { now: u64 },
}

impl View for PollerEvent {
    type V = PollerEventModel;

    open spec fn view(&self) -> PollerEventModel {
        match self {
            PollerEvent::TimerFired { now } => PollerEventModel::TimerFired { now: *now },
            PollerEvent::PollFinished { outcome, now } => PollerEventModel::PollFinished {
                outcome: outcome@,
                now: *now,
            },
            PollerEvent::VisibilityChanged { visible, now } => PollerEventModel::VisibilityChanged {
                visible: *visible,
                now: *now,
            },
            PollerEvent::ManualRefresh { now } => PollerEventModel::ManualRefresh { now: *now },
        }
    }
}

/// What the driver is to do after an event. Each action replaces the one
/// before it: a timer armed earlier is dropped.
#[derive(Debug, Clone, Copy, PartialEq, Eq, Structural)]
pub enum PollerAction {
    /// Do nothing and keep no timer.
    Rest,
    /// Poll now.
    Poll,
    /// Arm a timer that fires after `delay`.
    Wait { delay: u64 },
}

/// The state of a poller.
#[derive(Debug, Clone, PartialEq, Eq)]
pub struct PollerState {
    pub cursor: PollCursor,
    /// The interval that polls start with, and return to when posts arrive.
    pub initial_interval: u64,
    /// The longest interval between polls.
    pub max_interval: u64,
    /// The interval to wait before the next poll.
    pub interval: u64,
    /// Whether polls are made on the timer. A stale thread turns this off;
    /// a manual refresh turns it on again.
    pub automatic: bool,
    pub visible: bool,
    /// Whether a poll is on its way.
    pub in_flight: bool,
    /// When the last poll was started.
    pub last_poll: Option<u64>,
}

/// The value of a `PollerState`.
pub struct PollerModel {
    pub cursor: CursorModel,
    pub initial_interval: u64,
    pub max_interval: u64,
    pub interval: u64,
    pub automatic: bool,
    pub visible: bool,
    pub in_flight: bool,
    pub last_poll: Option<u64>,
}

impl View for PollerState {
    type V = PollerModel;

    open spec fn view(&self) -> PollerModel {
        PollerModel {
            cursor: self.cursor@,
            initial_interval: self.initial_interval,
            max_interval: self.max_interval,
            interval: self.interval,
            automatic: self.automatic,
            visible: self.visible,
            in_flight: self.in_flight,
            last_poll: self.last_poll,
        }
    }
}

/// The lesser of two numbers.
pub open spec fn lesser(a: int, b: int) -> int {
    if a <= b {
        a
    } else {
        b
    }
}

/// The interval after a poll that found nothing: one and a half times the
/// interval, in whole milliseconds, and `max` at most.
pub open spec fn backed_off(interval: u64, max: u64) -> u64 {
    lesser(max as int, interval + interval / 2) as u64
}

/// The interval after a poll that did not get through: twice the interval,
/// and `max` at most.
pub open spec fn doubled(interval: u64, max: u64) -> u64 {
    lesser(max as int, 2 * interval) as u64
}

/// A count of seconds in milliseconds, as far as 64 bits reach.
pub open spec fn in_millis(seconds: u64) -> u64 {
    lesser(u64::MAX as int, seconds * 1000) as u64
}

/// The time since the last poll, if there was one and the clock has not
/// run backward.
pub open spec fn since_last_poll(state: PollerModel, now: u64) -> Option<u64> {
    match state.last_poll {
        Some(last) => if now >= last {
            Some((now - last) as u64)
        } else {
            Some(0)
        },
        None => None,
    }
}

/// The state in which a poll has just been started.
pub open spec fn polling(state: PollerModel, now: u64) -> PollerModel {
    PollerModel { in_flight: true, last_poll: Some(now), ..state }
}

/// What to do once the interval is settled and no poll is on its way: wait
/// out the interval where polls are automatic and the page is visible, else
/// rest.
pub open spec fn scheduled(state: PollerModel) -> PollerAction {
    if state.automatic && state.visible {
        PollerAction::Wait { delay: state.interval }
    } else {
        PollerAction::Rest
    }
}

/// The state after the end of a poll.
pub open spec fn settled(state: PollerModel, outcome: OutcomeModel) -> PollerModel {
    let idle = PollerModel { in_flight: false, ..state };
    match outcome {
        OutcomeModel::NoChange => PollerModel {
            interval: backed_off(state.interval, state.max_interval),
            ..idle
        },
        OutcomeModel::NewPosts { last_cid } => PollerModel {
            interval: state.initial_interval,
            cursor: CursorModel { last_cid, ..state.cursor },
            ..idle
        },
        OutcomeModel::Stale => PollerModel { automatic: false, ..idle },
        OutcomeModel::TransportError => PollerModel {
            interval: doubled(state.interval, state.max_interval),
            ..idle
        },
    }
}

/// The next state and the action for an event.
///
/// - The timer starts a poll where polls are automatic, the page is visible
///   and no poll is on its way; else it is ignored.
/// - The end of a poll settles the interval: one and a half times as long
///   after no change, the initial one (and a new cursor) after new posts,
///   twice as long after a transport error, each `max_interval` at most; a
///   stale thread ends automatic polling. The next poll is then scheduled.
///   An end without a poll on its way is ignored.
/// - A page that leaves the foreground drops its timer. A page that comes
///   back polls at once where more than the interval has passed since the
///   last poll, and else waits out what is left of the interval.
/// - A manual refresh polls at once, timer or not, and makes polls automatic
///   again; while a poll is on its way it only does the latter.
pub open spec fn stepped(state: PollerModel, event: PollerEventModel) -> (
    PollerModel,
    PollerAction,
) {
    match event {
        PollerEventModel::TimerFired { now } => if state.automatic && state.visible
            && !state.in_flight {
            (polling(state, now), PollerAction::Poll)
        } else {
            (state, PollerAction::Rest)
        },
        PollerEventModel::PollFinished { outcome, now } => if state.in_flight {
            (settled(state, outcome), scheduled(settled(state, outcome)))
        } else {
            (state, PollerAction::Rest)
        },
        PollerEventModel::VisibilityChanged { visible, now } => {
            let shown = PollerModel { visible, ..state };
            if !visible || !state.automatic || state.in_flight {
                (shown, PollerAction::Rest)
            } else {
                match since_last_poll(state, now) {
                    Some(elapsed) => if elapsed > state.interval {
                        (polling(shown, now), PollerAction::Poll)
                    } else {
                        (shown, PollerAction::Wait { delay: (state.interval - elapsed) as u64 })
                    },
                    None => (shown, PollerAction::Wait { delay: state.interval }),
                }
            }
        },
        PollerEventModel::ManualRefresh { now } => {
            let resumed = PollerModel { automatic: true, ..state };
            if state.in_flight {
                (resumed, PollerAction::Rest)
            } else {
                (polling(resumed, now), PollerAction::Poll)
            }
        },
    }
}

/// The state of a poller for a thread that has just been loaded, and the
/// first action: wait out the initial interval, or rest where the thread is
/// stale already.
pub open spec fn begun(
    cursor: CursorModel,
    initial_seconds: u64,
    max_seconds: u64,
    stale: bool,
) -> (PollerModel, PollerAction) {
    let state = PollerModel {
        cursor,
        initial_interval: in_millis(initial_seconds),
        max_interval: in_millis(max_seconds),
        interval: in_millis(initial_seconds),
        automatic: !stale,
        visible: true,
        in_flight: false,
        last_poll: None,
    };
    (state, scheduled(state))
}

/// What a reader needs to start polling a thread that has just been loaded.
#[derive(Debug, Clone, PartialEq, Eq)]
pub struct PollingConfig {
    pub handle: String,
    pub post_id: String,
    /// The content digest of the last post that was loaded.
    pub last_cid: String,
    /// The first interval between two polls, in seconds.
    pub initial_interval: u64,
    /// The longest interval between two polls, in seconds.
    pub max_interval: u64,
    /// The age of its last post, in seconds, from which a thread is stale.
    pub disable_after: u64,
    /// Whether the thread was stale already when it was loaded.
    pub stale: bool,
    /// When the last post was written, in RFC 3339; empty for a thread
    /// without posts.
    pub last_post_iso: String,
}

/// The value of a `PollingConfig`.
pub struct PollingModel {
    pub handle: Seq<char>,
    pub post_id: Seq<char>,
    pub last_cid: Seq<char>,
    pub initial_interval: u64,
    pub max_interval: u64,
    pub disable_after: u64,
    pub stale: bool,
    pub last_post_iso: Seq<char>,
}

impl View for PollingConfig {
    type V = PollingModel;

    open spec fn view(&self) -> PollingModel {
        PollingModel {
            handle: self.handle@,
            post_id: self.post_id@,
            last_cid: self.last_cid@,
            initial_interval: self.initial_interval,
            max_interval: self.max_interval,
            disable_after: self.disable_after,
            stale: self.stale,
            last_post_iso: self.last_post_iso@,
        }
    }
}

impl PollingConfig {
    /// The poller that this configuration starts, with the first thing to
    /// do.
    pub fn start(self) -> (r: (PollerState, PollerAction))
        ensures
            r.0@ == begun(
                CursorModel {
                    handle: self@.handle,
                    post_id: self@.post_id,
                    last_cid: self@.last_cid,
                },
                self.initial_interval,
                self.max_interval,
                self.stale,
            ).0,
            r.1 == begun(
                CursorModel {
                    handle: self@.handle,
                    post_id: self@.post_id,
                    last_cid: self@.last_cid,
                },
                self.initial_interval,
                self.max_interval,
                self.stale,
            ).1,
    {
        let cursor = PollCursor {
            handle: self.handle,
            post_id: self.post_id,
            last_cid: self.last_cid,
        };
        PollerState::begin(cursor, self.initial_interval, self.max_interval, self.stale)
    }
}

fn millis(seconds: u64) -> (r: u64)
    ensures
        r == in_millis(seconds),
{
    if seconds > u64::MAX / 1000 {
        u64::MAX
    } else {
        seconds * 1000
    }
}

/// The interval after a poll that found nothing.
pub fn back_off(interval: u64, max: u64) -> (r: u64)
    ensures
        r == backed_off(interval, max),
        r <= max,
        interval <= max ==> interval <= r,
{
    if interval >= max {
        max
    } else {
        let half: u64 = interval / 2;
        if half >= max - interval {
            max
        } else {
            interval + half
        }
    }
}

/// The interval after a poll that did not get through.
pub fn double(interval: u64, max: u64) -> (r: u64)
    ensures
        r == doubled(interval, max),
        r <= max,
        interval <= max ==> interval <= r,
{
    if interval >= max {
        max
    } else if interval >= max - interval {
        max
    } else {
        interval + interval
    }
}

impl PollerState {
    /// A poller for a thread that has just been loaded, with the first
    /// thing to do.
    pub fn begin(cursor: PollCursor, initial_seconds: u64, max_seconds: u64, stale: bool) -> (r: (
        PollerState,
        PollerAction,
    ))
        ensures
            r.0@ == begun(cursor@, initial_seconds, max_seconds, stale).0,
            r.1 == begun(cursor@, initial_seconds, max_seconds, stale).1,
    {
        let state = PollerState {
            cursor,
            initial_interval: millis(initial_seconds),
            max_interval: millis(max_seconds),
            interval: millis(initial_seconds),
            automatic: !stale,
            visible: true,
            in_flight: false,
            last_poll: None,
        };
        let action = state.schedule();
        (state, action)
    }

    fn schedule(&self) -> (action: PollerAction)
        ensures
            action == scheduled(self@),
    {
        if self.automatic && self.visible {
            PollerAction::Wait { delay: self.interval }
        } else {
            PollerAction::Rest
        }
    }

    fn settle(self, outcome: PollOutcome) -> (r: PollerState)
        ensures
            r@ == settled(self@, outcome@),
    {
        let mut next = self;
        next.in_flight = false;
        match outcome {
            PollOutcome::NoChange => {
                next.interval = back_off(next.interval, next.max_interval);
            },
            PollOutcome::NewPosts { last_cid } => {
                next.interval = next.initial_interval;
                next.cursor.last_cid = last_cid;
            },
            PollOutcome::Stale => {
                next.automatic = false;
            },
            PollOutcome::TransportError => {
                next.interval = double(next.interval, next.max_interval);
            },
        }
        next
    }

    /// Takes an event: the next state, and what the driver is to do.
    pub fn step(self, event: PollerEvent) -> (r: (PollerState, PollerAction))
        ensures
            r.0@ == stepped(self@, event@).0,
            r.1 == stepped(self@, event@).1,
    {
        let mut next = self;
        match event {
            PollerEvent::TimerFired { now } => {
                if next.automatic && next.visible && !next.in_flight {
                    next.in_flight = true;
                    next.last_poll = Some(now);
                    (next, PollerAction::Poll)
                } else {
                    (next, PollerAction::Rest)
                }
            },
            PollerEvent::PollFinished { outcome, now: _ } => {
                if next.in_flight {
                    let next = next.settle(outcome);
                    let action = next.schedule();
                    (next, action)
                } else {
                    (next, PollerAction::Rest)
                }
            },
            PollerEvent::VisibilityChanged { visible, now } => {
                next.visible = visible;
                if !visible || !next.automatic || next.in_flight {
                    (next, PollerAction::Rest)
                } else {
                    match next.last_poll {
                        Some(last) => {
                            let elapsed: u64 = if now >= last {
                                now - last
                            } else {
                                0
                            };
                            if elapsed > next.interval {
                                next.in_flight = true;
                                next.last_poll = Some(now);
                                (next, PollerAction::Poll)
                            } else {
                                let delay: u64 = next.interval - elapsed;
                                (next, PollerAction::Wait { delay })
                            }
                        },
                        None => {
                            let delay: u64 = next.interval;
                            (next, PollerAction::Wait { delay })
                        },
                    }
                }
            },
            PollerEvent::ManualRefresh { now } => {
                next.automatic = true;
                if next.in_flight {
                    (next, PollerAction::Rest)
                } else {
                    next.in_flight = true;
                    next.last_poll = Some(now);
                    (next, PollerAction::Poll)
                }
            },
        }
    }
}

/// The state after a run of events, and the actions they called for.
pub open spec fn ran(state: PollerModel, events: Seq<PollerEventModel>) -> (
    PollerModel,
    Seq<PollerAction>,
)
    decreases events.len(),
{
    if events.len() == 0 {
        (state, Seq::empty())
    } else {
        let before = ran(state, events.drop_last());
        let last = stepped(before.0, events.last());
        (last.0, before.1.push(last.1))
    }
}

/// A poller that a stale thread has stopped: polls are not automatic, and
/// none is on its way.
pub open spec fn stopped(state: PollerModel) -> bool {
    !state.automatic && !state.in_flight
}

/// A stale outcome stops the poller, with no timer left.
pub proof fn lemma_stale_stops(state: PollerModel, now: u64)
    requires
        state.in_flight,
    ensures
        stopped(stepped(state, PollerEventModel::PollFinished { outcome: OutcomeModel::Stale, now }).0),
        stepped(state, PollerEventModel::PollFinished { outcome: OutcomeModel::Stale, now }).1
            == PollerAction::Rest,
{
}

/// A stopped poller stays stopped, polls nothing and arms no timer, whatever
/// happens, until the reader asks for a refresh.
pub proof fn lemma_stopped_until_refresh(state: PollerModel, events: Seq<PollerEventModel>)
    requires
        stopped(state),
        forall|i: int| 0 <= i < events.len() ==> !(#[trigger] events[i] is ManualRefresh),
    ensures
        stopped(ran(state, events).0),
        ran(state, events).1.len() == events.len(),
        forall|i: int|
            0 <= i < events.len() ==> (#[trigger] ran(state, events).1[i]) == PollerAction::Rest,
    decreases events.len(),
{
    if events.len() > 0 {
        lemma_stopped_until_refresh(state, events.drop_last());
        assert forall|i: int| 0 <= i < events.drop_last().len() implies !(
        #[trigger] events.drop_last()[i] is ManualRefresh) by {
            assert(events.drop_last()[i] == events[i]);
        }
        assert(!(events[events.len() - 1] is ManualRefresh));
    }
}

/// A manual refresh polls at once, stopped or not, unless a poll is on its
/// way already.
pub proof fn lemma_refresh_polls(state: PollerModel, now: u64)
    requires
        !state.in_flight,
    ensures
        stepped(state, PollerEventModel::ManualRefresh { now }).1 == PollerAction::Poll,
        stepped(state, PollerEventModel::ManualRefresh { now }).0.automatic,
{
}

/// An interval between the initial one and the longest one.
pub open spec fn in_bounds(state: PollerModel) -> bool {
    state.initial_interval <= state.interval <= state.max_interval
}

/// The interval stays between the initial one and the longest one, whatever
/// happens.
pub proof fn lemma_interval_stays_in_bounds(state: PollerModel, event: PollerEventModel)
    requires
        in_bounds(state),
    ensures
        in_bounds(stepped(state, event).0),
        stepped(state, event).0.initial_interval == state.initial_interval,
        stepped(state, event).0.max_interval == state.max_interval,
{
}

/// A poller begins within its bounds where the initial interval is no
/// longer than the longest one.
pub proof fn lemma_begins_in_bounds(
    cursor: CursorModel,
    initial_seconds: u64,
    max_seconds: u64,
    stale: bool,
)
    requires
        initial_seconds <= max_seconds,
    ensures
        in_bounds(begun(cursor, initial_seconds, max_seconds, stale).0),
{
}

/// Backing off never shortens an interval that is within the maximum, and
/// never passes the maximum; at the maximum it stays.
pub proof fn lemma_back_off_bounds(interval: u64, max: u64)
    ensures
        backed_off(interval, max) <= max,
        interval <= max ==> interval <= backed_off(interval, max),
        interval >= max ==> backed_off(interval, max) == max,
        interval + interval / 2 <= max ==> backed_off(interval, max) == interval + interval / 2,
{
}

} // verus!
