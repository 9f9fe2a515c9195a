//! Keys that wait for a second key.

use crate::event::{KeyCode, KeyEvent, KeyModifiers};
use crate::time::{nanos_since, Duration, Timestamp};
use vstd::prelude::*;

verus! {

/// A Space leader waits this many milliseconds for its second key.
pub const LEADER_TIMEOUT_MILLIS: u64 = 800;

/// A `g` waits this many milliseconds for its second key.
pub const G_CHORD_TIMEOUT_MILLIS: u64 = 500;

/// What to do about a key and the Space leader.
#[derive(Clone, Copy, Debug, PartialEq, Eq, Structural)]
pub enum LeaderVerdict {
    /// Remember the leader; the key is done.
    Arm,
    /// The chord is complete: do what it stands for and forget the leader.
    Fire,
    /// Forget the leader; the key keeps its own meaning.
    Consume,
    /// The leader has nothing to do with the key.
    Pass,
}

/// Whether the key is Space on its own.
pub open spec fn is_bare_space(key: KeyEvent) -> bool {
    key.code == KeyCode::Char(' ') && key.modifiers.is_empty()
}

/// Whether the key completes a Space chord: `p`, `f`, `h` or `v` on its own, or one of
/// their capitals, with or without Shift reported.
pub open spec fn is_chord_target(key: KeyEvent) -> bool {
    match key.code {
        KeyCode::Char(c) => {
            ||| (c == 'p' || c == 'f' || c == 'h' || c == 'v') && key.modifiers.is_empty()
            ||| (c == 'P' || c == 'F' || c == 'H' || c == 'V') && (key.modifiers.is_empty()
                || key.modifiers == KeyModifiers::shift())
        },
        _ => false,
    }
}

/// What to do about `key`, where arming is allowed or not and a leader may wait since
/// `leader_at`. A waiting leader fires on a chord target in time, is renewed by
/// another Space, and is dropped by anything else.
pub open spec fn leader_verdict(
    key: KeyEvent,
    allow_arm: bool,
    leader_at: Option<Timestamp>,
    now: Timestamp,
    timeout_nanos: int,
) -> LeaderVerdict {
    match leader_at {
        Some(t) => if nanos_since(now, t) < timeout_nanos && is_chord_target(key) {
            LeaderVerdict::Fire
        } else if allow_arm && is_bare_space(key) {
            LeaderVerdict::Arm
        } else {
            LeaderVerdict::Consume
        },
        None => if allow_arm && is_bare_space(key) {
            LeaderVerdict::Arm
        } else {
            LeaderVerdict::Pass
        },
    }
}

/// What to do about `key`.
pub fn leader_decision(
    key: &KeyEvent,
    allow_arm: bool,
    leader_at: Option<Timestamp>,
    now: Timestamp,
    timeout: Duration,
) -> (r: LeaderVerdict)
    ensures
        r == leader_verdict(*key, allow_arm, leader_at, now, timeout.nanos as int),
{
    let bare_space = key.code == KeyCode::Char(' ') && key.modifiers.is_empty();
    let lower = match key.code {
        KeyCode::Char('p' | 'f' | 'h' | 'v') => key.modifiers.is_empty(),
        _ => false,
    };
    let upper = match key.code {
        KeyCode::Char('P' | 'F' | 'H' | 'V') => key.modifiers.is_empty() || key.modifiers
            == KeyModifiers::shift(),
        _ => false,
    };
    if allow_arm && leader_at.is_none() && bare_space {
        return LeaderVerdict::Arm;
    }
    if let Some(t) = leader_at {
        let within = now.duration_since(t).nanos < timeout.nanos;
        if within && (lower || upper) {
            return LeaderVerdict::Fire;
        }
        if allow_arm && bare_space {
            return LeaderVerdict::Arm;
        }
        return LeaderVerdict::Consume;
    }
    LeaderVerdict::Pass
}

/// Whether a key pressed at `t` still waits for its second key at `now`.
pub open spec fn is_fresh(t: Timestamp, now: Timestamp, timeout_millis: int) -> bool {
    nanos_since(now, t) < crate::time::millis(timeout_millis)
}

/// Whether a key pressed at `t` still waits for its second key at `now`.
pub fn still_waits(t: Timestamp, now: Timestamp, timeout_millis: u64) -> (r: bool)
    requires
        timeout_millis <= crate::time::MAX_MILLIS,
    ensures
        r == is_fresh(t, now, timeout_millis as int),
{
    now.duration_since(t).nanos < Duration::from_millis(timeout_millis).nanos
}

/// A leader that has waited too long never fires.
pub proof fn stale_leaders_never_fire(
    key: KeyEvent,
    allow_arm: bool,
    armed: Timestamp,
    now: Timestamp,
    timeout_nanos: int,
)
    requires
        nanos_since(now, armed) >= timeout_nanos,
    ensures
        leader_verdict(key, allow_arm, Some(armed), now, timeout_nanos) != LeaderVerdict::Fire,
{
}

/// Where arming is not allowed, as in a text field, no key arms a leader.
pub proof fn text_fields_keep_their_spaces(
    key: KeyEvent,
    leader_at: Option<Timestamp>,
    now: Timestamp,
    timeout_nanos: int,
)
    ensures
        leader_verdict(key, false, leader_at, now, timeout_nanos) != LeaderVerdict::Arm,
        leader_at is None ==> leader_verdict(key, false, leader_at, now, timeout_nanos)
            == LeaderVerdict::Pass,
{
}

} // verus!
