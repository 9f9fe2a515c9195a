//! How fast the view moves: the axis lock, the step pacer and the
//! auto-scroll that follows a drag out of the viewport.

use crate::time::{millis, nanos_since, Clock, Duration, Timestamp};
use vstd::prelude::*;

verus! {

/// Lines to scroll per auto-scroll step, negative for up. Zero while the cursor
/// is inside `[content_top, content_bottom)`; one line at the edge, and one more
/// for every three rows farther out, up to four.
pub open spec fn autoscroll_step_spec(mouse_y: int, content_top: int, content_bottom: int) -> int {
    let lines = 1 + autoscroll_distance_spec(mouse_y, content_top, content_bottom) / 3;
    let capped = if lines < 4 { lines } else { 4 };
    if mouse_y < content_top {
        -capped
    } else if mouse_y >= content_bottom {
        capped
    } else {
        0
    }
}

/// Rows between the cursor and the viewport edge it has crossed; zero inside.
pub open spec fn autoscroll_distance_spec(
    mouse_y: int,
    content_top: int,
    content_bottom: int,
) -> int {
    if mouse_y < content_top {
        content_top - mouse_y
    } else if mouse_y >= content_bottom {
        mouse_y - content_bottom + 1
    } else {
        0
    }
}

/// Whether the rows past the viewport edge can be counted in a `u16`. Only a
/// cursor on the last of 65536 rows over a viewport that ends at row zero fails.
pub open spec fn distance_fits(mouse_y: u16, content_bottom: u16) -> bool {
    mouse_y - content_bottom < u16::MAX
}

/// Number of lines to scroll per step, signed (negative = up).
pub fn autoscroll_step(mouse_y: u16, content_top: u16, content_bottom: u16) -> (r: i32)
    requires
        distance_fits(mouse_y, content_bottom),
    ensures
        r == autoscroll_step_spec(mouse_y as int, content_top as int, content_bottom as int),
{
    if mouse_y < content_top {
        let dist: u16 = content_top - mouse_y;
        let lines: u16 = (1 + dist / 3).min(4);
        -(lines as i32)
    } else if mouse_y >= content_bottom {
        let dist: u16 = mouse_y - content_bottom + 1;
        let lines: u16 = (1 + dist / 3).min(4);
        lines as i32
    } else {
        0
    }
}

/// Milliseconds between two auto-scroll steps at `distance` rows past the edge:
/// 90 divided by one plus half the distance, but never under 15.
pub open spec fn autoscroll_interval_millis(distance: int) -> int {
    let shared = 90int / (1 + distance / 2);
    if shared > 15 {
        shared
    } else {
        15
    }
}

/// Least time between two auto-scroll steps: close to the edge slow, far from it
/// fast.
pub fn autoscroll_interval(distance: u16) -> (r: Duration)
    ensures
        r.nanos == millis(autoscroll_interval_millis(distance as int)),
{
    let denom: u64 = 1 + (distance as u64) / 2;
    let ms: u64 = (90 / denom).max(15);
    assert(90u64 / denom <= 90) by (nonlinear_arith)
        requires
            denom >= 1,
    ;
    Duration::from_millis(ms)
}

/// Whether a step at `distance` still falls into the cool-off of the last one.
pub open spec fn autoscroll_throttled_spec(
    last_at: Option<Timestamp>,
    distance: int,
    now: Timestamp,
) -> bool {
    match last_at {
        Some(at) => nanos_since(now, at) < millis(autoscroll_interval_millis(distance)),
        None => false,
    }
}

/// `true` when a tick at `distance` from the viewport edge comes too early after
/// the last step. The first step after a press always passes.
pub fn autoscroll_throttled(last_at: Option<Timestamp>, distance: u16, now: Timestamp) -> (r: bool)
    ensures
        r == autoscroll_throttled_spec(last_at, distance as int, now),
{
    match last_at {
        Some(at) => now.duration_since(at).nanos < autoscroll_interval(distance).nanos,
        None => false,
    }
}

/// Distance in terminal rows between `mouse_y` and the viewport edge it has crossed.
pub fn autoscroll_distance(mouse_y: u16, content_top: u16, content_bottom: u16) -> (r: u16)
    requires
        distance_fits(mouse_y, content_bottom),
    ensures
        r == autoscroll_distance_spec(mouse_y as int, content_top as int, content_bottom as int),
{
    if mouse_y < content_top {
        content_top - mouse_y
    } else if mouse_y >= content_bottom {
        mouse_y - content_bottom + 1
    } else {
        0
    }
}

/// After an event on one axis, events on the other are dropped for this many
/// milliseconds.
pub const AXIS_LOCK_WINDOW_MILLIS: u64 = 120;

/// A pause of more than this many milliseconds starts a new streak.
pub const AXIS_LOCK_STREAK_GAP_MILLIS: u64 = 150;

/// How many events in a row it takes before an axis locks out the other one. A
/// single stray event never does.
pub const AXIS_LOCK_STREAK_THRESHOLD: u32 = 2;

/// Scroll lock of one axis: when it last moved, and how many events in a row it
/// has seen.
#[derive(Clone, Copy, Debug, PartialEq, Eq, Structural)]
pub struct AxisLock {
    pub last_at: Option<Timestamp>,
    pub streak: u32,
}

impl Default for AxisLock {
    fn default() -> (r: AxisLock)
        ensures
            r == (AxisLock { last_at: None, streak: 0 }),
    {
        AxisLock { last_at: None, streak: 0 }
    }
}

impl AxisLock {
    /// The lock after an event at `now`.
    pub open spec fn observed(self, now: Timestamp) -> AxisLock {
        AxisLock {
            last_at: Some(now),
            streak: match self.last_at {
                Some(at) if nanos_since(now, at) <= millis(AXIS_LOCK_STREAK_GAP_MILLIS as int) =>
                    if self.streak < u32::MAX {
                        (self.streak + 1) as u32
                    } else {
                        u32::MAX
                    },
                _ => 1,
            },
        }
    }

    /// Whether the axis locks out the other one at `now`.
    pub open spec fn is_locked(self, now: Timestamp) -> bool {
        match self.last_at {
            Some(at) => nanos_since(now, at) < millis(AXIS_LOCK_WINDOW_MILLIS as int)
                && self.streak >= AXIS_LOCK_STREAK_THRESHOLD,
            None => false,
        }
    }

    pub fn new() -> (r: AxisLock)
        ensures
            r == (AxisLock { last_at: None, streak: 0 }),
    {
        AxisLock::default()
    }

    /// Records an event that happens now.
    pub fn observe(&mut self, clock: &Clock)
        ensures
            exists|now: Timestamp| *final(self) == #[trigger] old(self).observed(now),
    {
        let now = clock.now();
        self.observe_at(now);
    }

    /// Whether the axis locks out the other one right now.
    pub fn locked(&self, clock: &Clock) -> (r: bool)
        ensures
            exists|now: Timestamp| r == #[trigger] self.is_locked(now),
    {
        let now = clock.now();
        self.locked_at(now)
    }

    /// Records an event at `now`.
    pub fn observe_at(&mut self, now: Timestamp)
        ensures
            *final(self) == old(self).observed(now),
    {
        let stale = match self.last_at {
            Some(at) => now.duration_since(at).nanos > Duration::from_millis(
                AXIS_LOCK_STREAK_GAP_MILLIS,
            ).nanos,
            None => true,
        };
        self.streak = if stale {
            1
        } else {
            self.streak.saturating_add(1)
        };
        self.last_at = Some(now);
    }

    /// Whether the axis locks out the other one at `now`.
    pub fn locked_at(&self, now: Timestamp) -> (r: bool)
        ensures
            r == self.is_locked(now),
    {
        match self.last_at {
            Some(at) => {
                now.duration_since(at).nanos < Duration::from_millis(AXIS_LOCK_WINDOW_MILLIS).nanos
                    && self.streak >= AXIS_LOCK_STREAK_THRESHOLD
            },
            None => false,
        }
    }
}

/// Events closer together than this many milliseconds come from a trackpad, the
/// others from a wheel.
pub const TRACKPAD_INTERVAL_MILLIS: u64 = 60;

/// Lines per event at wheel cadence.
pub const SPARSE_STEP: usize = 3;

/// Lines per event at trackpad cadence, before a long swipe speeds it up.
pub const DENSE_STEP_BASE: usize = 1;

/// From this many trackpad events in a row on, a step is two lines.
pub const DENSE_ACCEL_AT_2: u32 = 8;

/// From this many trackpad events in a row on, a step is three lines.
pub const DENSE_ACCEL_AT_3: u32 = 24;

/// Step size of wheel and trackpad scrolling on one axis. It gives magnitudes
/// only; the dispatcher puts the sign.
#[derive(Clone, Copy, Debug, PartialEq, Eq, Structural)]
pub struct ScrollPacer {
    pub last_at: Option<Timestamp>,
    pub dense_streak: u32,
}

impl Default for ScrollPacer {
    fn default() -> (r: ScrollPacer)
        ensures
            r == (ScrollPacer { last_at: None, dense_streak: 0 }),
    {
        ScrollPacer { last_at: None, dense_streak: 0 }
    }
}

impl ScrollPacer {
    /// Whether an event at `now` follows the last one at trackpad cadence.
    pub open spec fn is_dense(self, now: Timestamp) -> bool {
        match self.last_at {
            Some(at) => nanos_since(now, at) < millis(TRACKPAD_INTERVAL_MILLIS as int),
            None => false,
        }
    }

    /// The pacer after an event at `now`.
    pub open spec fn stepped(self, now: Timestamp) -> ScrollPacer {
        ScrollPacer {
            last_at: Some(now),
            dense_streak: if !self.is_dense(now) {
                0
            } else if self.dense_streak < u32::MAX {
                (self.dense_streak + 1) as u32
            } else {
                u32::MAX
            },
        }
    }

    /// Lines that an event at `now` scrolls.
    pub open spec fn step_size(self, now: Timestamp) -> usize {
        let streak = self.stepped(now).dense_streak;
        if !self.is_dense(now) {
            SPARSE_STEP
        } else if streak >= DENSE_ACCEL_AT_3 {
            3
        } else if streak >= DENSE_ACCEL_AT_2 {
            2
        } else {
            DENSE_STEP_BASE
        }
    }

    pub fn new() -> (r: ScrollPacer)
        ensures
            r == (ScrollPacer { last_at: None, dense_streak: 0 }),
    {
        ScrollPacer::default()
    }

    /// Lines to scroll for an event that happens now.
    pub fn step(&mut self, clock: &Clock) -> (r: usize)
        ensures
            exists|now: Timestamp|
                *final(self) == #[trigger] old(self).stepped(now) && r == old(self).step_size(now),
    {
        let now = clock.now();
        self.step_at(now)
    }

    /// Lines to scroll for an event at `now`.
    pub fn step_at(&mut self, now: Timestamp) -> (r: usize)
        ensures
            *final(self) == old(self).stepped(now),
            r == old(self).step_size(now),
    {
        let dense = match self.last_at {
            Some(at) => now.duration_since(at).nanos < Duration::from_millis(
                TRACKPAD_INTERVAL_MILLIS,
            ).nanos,
            None => false,
        };
        self.last_at = Some(now);
        if dense {
            self.dense_streak = self.dense_streak.saturating_add(1);
            if self.dense_streak >= DENSE_ACCEL_AT_3 {
                3
            } else if self.dense_streak >= DENSE_ACCEL_AT_2 {
                2
            } else {
                DENSE_STEP_BASE
            }
        } else {
            self.dense_streak = 0;
            SPARSE_STEP
        }
    }
}

/// Auto-scroll stands still exactly while the cursor is inside the viewport,
/// moves toward the side the cursor left by, and takes at most four lines a step.
pub proof fn autoscroll_follows_the_cursor(mouse_y: int, content_top: int, content_bottom: int)
    requires
        content_top <= content_bottom,
    ensures
        ({
            let step = autoscroll_step_spec(mouse_y, content_top, content_bottom);
            let distance = autoscroll_distance_spec(mouse_y, content_top, content_bottom);
            &&& -4 <= step <= 4
            &&& step == 0 <==> content_top <= mouse_y < content_bottom
            &&& step < 0 <==> mouse_y < content_top
            &&& step > 0 <==> mouse_y >= content_bottom
            &&& distance == 0 <==> step == 0
        }),
{
}

/// The farther the cursor is past the edge, the shorter the pause between two
/// steps, which stays between 15 and 90 milliseconds.
pub proof fn autoscroll_interval_shrinks_with_distance(near: int, far: int)
    requires
        0 <= near <= far,
    ensures
        15 <= autoscroll_interval_millis(far) <= autoscroll_interval_millis(near) <= 90,
{
    let a = 1 + near / 2;
    let b = 1 + far / 2;
    assert(90int / b <= 90int / a <= 90) by (nonlinear_arith)
        requires
            1 <= a <= b,
    ;
}

/// A single event never locks an axis: after a pause, and at the very start, one
/// event leaves the other axis free at every later time.
pub proof fn one_event_never_locks(lock: AxisLock, event: Timestamp, later: Timestamp)
    requires
        match lock.last_at {
            Some(at) => nanos_since(event, at) > millis(AXIS_LOCK_STREAK_GAP_MILLIS as int),
            None => true,
        },
    ensures
        lock.observed(event).streak == 1,
        !lock.observed(event).is_locked(later),
{
}

/// Two events no farther apart than the streak gap lock the axis, whatever came
/// before, for exactly the lock window after the second.
pub proof fn two_events_lock_for_the_window(
    lock: AxisLock,
    first: Timestamp,
    second: Timestamp,
    later: Timestamp,
)
    requires
        nanos_since(second, first) <= millis(AXIS_LOCK_STREAK_GAP_MILLIS as int),
        lock.last_at is Some ==> lock.streak >= 1,
    ensures
        lock.observed(first).observed(second).is_locked(later) <==> nanos_since(later, second)
            < millis(AXIS_LOCK_WINDOW_MILLIS as int),
{
}

/// A lock after a run of events, first to last.
pub open spec fn observed_all(lock: AxisLock, events: Seq<Timestamp>) -> AxisLock
    decreases events.len(),
{
    if events.len() == 0 {
        lock
    } else {
        observed_all(lock, events.drop_last()).observed(events.last())
    }
}

/// Whether each event comes within the lock window of the one before it.
pub open spec fn is_swipe(events: Seq<Timestamp>) -> bool {
    forall|i: int|
        0 < i < events.len() ==> nanos_since(#[trigger] events[i], events[i - 1]) < millis(
            AXIS_LOCK_WINDOW_MILLIS as int,
        )
}

/// A swipe holds the lock for its whole length: each event renews it, so that the
/// axis is still locked when the next one arrives.
pub proof fn swipe_holds_the_lock(events: Seq<Timestamp>, next: Timestamp)
    requires
        events.len() >= 2,
        is_swipe(events.push(next)),
    ensures
        observed_all(AxisLock { last_at: None, streak: 0 }, events).is_locked(next),
{
    let all = events.push(next);
    assert(all[events.len() as int] == next);
    assert(all[events.len() - 1] == events.last());
    assert(is_swipe(events)) by {
        assert forall|i: int| 0 < i < events.len() implies nanos_since(
            #[trigger] events[i],
            events[i - 1],
        ) < millis(AXIS_LOCK_WINDOW_MILLIS as int) by {
            assert(all[i] == events[i] && all[i - 1] == events[i - 1]);
        }
    }
    swipe_streak_grows(events);
}

proof fn swipe_streak_grows(events: Seq<Timestamp>)
    ensures
        is_swipe(events) && events.len() >= 1 ==> {
            let lock = observed_all(AxisLock { last_at: None, streak: 0 }, events);
            &&& lock.last_at == Some(events.last())
            &&& lock.streak >= 1
            &&& events.len() >= 2 ==> lock.streak >= 2
        },
    decreases events.len(),
{
    if events.len() >= 2 && is_swipe(events) {
        let head = events.drop_last();
        assert(is_swipe(head)) by {
            assert forall|i: int| 0 < i < head.len() implies nanos_since(
                #[trigger] head[i],
                head[i - 1],
            ) < millis(AXIS_LOCK_WINDOW_MILLIS as int) by {
                assert(head[i] == events[i] && head[i - 1] == events[i - 1]);
            }
        }
        swipe_streak_grows(head);
        assert(events[events.len() - 1] == events.last());
        assert(head.last() == events[events.len() - 2]);
    } else if events.len() == 1 {
        assert(events.drop_last().len() == 0);
        assert(observed_all(AxisLock { last_at: None, streak: 0 }, events.drop_last())
            == (AxisLock { last_at: None, streak: 0 }));
    }
}

/// A step is one to three lines; a sparse event takes three and starts the count
/// of dense ones over.
pub proof fn pacer_steps_stay_small(pacer: ScrollPacer, now: Timestamp)
    ensures
        1 <= pacer.step_size(now) <= 3,
        !pacer.is_dense(now) ==> pacer.step_size(now) == SPARSE_STEP && pacer.stepped(
            now,
        ).dense_streak == 0,
{
}

/// Within a dense run a step never gets smaller.
pub proof fn pacer_never_slows_in_a_swipe(pacer: ScrollPacer, now: Timestamp, next: Timestamp)
    requires
        pacer.is_dense(now),
        pacer.stepped(now).is_dense(next),
    ensures
        pacer.step_size(now) <= pacer.stepped(now).step_size(next),
{
}

/// The farther the cursor is past the edge, the more lines a step goes: one within the first two
/// rows, two within the next three, three within the next three, and four from then on.
pub proof fn autoscroll_steps_grow(mouse_y: int, content_top: int, content_bottom: int)
    requires
        content_top <= content_bottom,
    ensures
        ({
            let step = autoscroll_step_spec(mouse_y, content_top, content_bottom);
            let lines = if step < 0 {
                -step
            } else {
                step
            };
            let away = if mouse_y < content_top {
                content_top - mouse_y
            } else {
                mouse_y - content_bottom + 1
            };
            mouse_y < content_top || mouse_y >= content_bottom ==> {
                &&& autoscroll_distance_spec(mouse_y, content_top, content_bottom) == away
                &&& away < 3 ==> lines == 1
                &&& 3 <= away < 6 ==> lines == 2
                &&& 6 <= away < 9 ==> lines == 3
                &&& 9 <= away ==> lines == 4
            }
        }),
{
}

/// A drag right past the edge scrolls every ninety milliseconds, and one that is ten rows or
/// more away every fifteen.
pub proof fn autoscroll_pauses(distance: int)
    requires
        0 <= distance,
    ensures
        distance < 2 ==> autoscroll_interval_millis(distance) == 90,
        2 <= distance < 4 ==> autoscroll_interval_millis(distance) == 45,
        4 <= distance < 6 ==> autoscroll_interval_millis(distance) == 30,
        10 <= distance ==> autoscroll_interval_millis(distance) == 15,
{
    if 10 <= distance {
        let n = 1 + distance / 2;
        assert(90int / n <= 15) by (nonlinear_arith)
            requires
                n >= 6,
        ;
    }
}

/// The first step of a drag is due at once, and the next one when the pause is over.
pub proof fn autoscroll_waits_for_the_pause(at: Timestamp, distance: int, now: Timestamp)
    requires
        0 <= distance < 2,
    ensures
        !autoscroll_throttled_spec(None, distance, now),
        autoscroll_throttled_spec(Some(at), distance, now) <==> now.nanos < at.nanos + 90_000_000,
{
}

} // verus!
