use reef_tui::event::{KeyCode, KeyEvent, KeyModifiers};
use reef_tui::input::leader::{leader_decision, LeaderVerdict, LEADER_TIMEOUT_MILLIS};
use reef_tui::time::{Duration, Timestamp};

fn ke(code: KeyCode, modifiers: KeyModifiers) -> KeyEvent {
    KeyEvent::new(code, modifiers)
}

fn space() -> KeyEvent {
    ke(KeyCode::Char(' '), KeyModifiers::none())
}

fn lower_p() -> KeyEvent {
    ke(KeyCode::Char('p'), KeyModifiers::none())
}

fn upper_p() -> KeyEvent {
    ke(KeyCode::Char('P'), KeyModifiers::none())
}

fn at(ms: u64) -> Timestamp {
    Timestamp::from_millis(ms)
}

fn decide(key: &KeyEvent, can_arm: bool, armed: Option<Timestamp>, now: Timestamp) -> LeaderVerdict {
    leader_decision(key, can_arm, armed, now, Duration::from_millis(LEADER_TIMEOUT_MILLIS))
}

#[test]
fn space_with_no_leader_arms() {
    assert_eq!(decide(&space(), true, None, at(0)), LeaderVerdict::Arm);
}

#[test]
fn space_when_arm_not_allowed_does_not_arm() {
    assert_eq!(decide(&space(), false, None, at(0)), LeaderVerdict::Pass);
}

#[test]
fn p_after_arm_within_window_fires() {
    let now = at(1000);
    assert_eq!(decide(&lower_p(), true, Some(now), now), LeaderVerdict::Fire);
}

#[test]
fn uppercase_p_after_arm_also_fires() {
    let now = at(1000);
    assert_eq!(decide(&upper_p(), true, Some(now), now), LeaderVerdict::Fire);
}

#[test]
fn f_after_arm_fires_for_global_search() {
    let now = at(1000);
    let f = ke(KeyCode::Char('f'), KeyModifiers::none());
    assert_eq!(decide(&f, true, Some(now), now), LeaderVerdict::Fire);
}

#[test]
fn uppercase_f_after_arm_also_fires() {
    let now = at(1000);
    let f = ke(KeyCode::Char('F'), KeyModifiers::none());
    assert_eq!(decide(&f, true, Some(now), now), LeaderVerdict::Fire);
}

#[test]
fn shift_uppercase_f_after_arm_fires_for_global_search() {
    let now = at(1000);
    let shift_f = ke(KeyCode::Char('F'), KeyModifiers::shift());
    assert_eq!(decide(&shift_f, true, Some(now), now), LeaderVerdict::Fire);
}

#[test]
fn g_is_not_a_chord_target_and_consumes_leader() {
    let now = at(1000);
    let g = ke(KeyCode::Char('g'), KeyModifiers::none());
    assert_eq!(decide(&g, true, Some(now), now), LeaderVerdict::Consume);
    let shift_g = ke(KeyCode::Char('G'), KeyModifiers::shift());
    assert_eq!(decide(&shift_g, true, Some(now), now), LeaderVerdict::Consume);
}

#[test]
fn ctrl_f_is_not_a_chord_target() {
    let now = at(1000);
    let ctrl_f = ke(KeyCode::Char('f'), KeyModifiers::control());
    assert_eq!(decide(&ctrl_f, true, Some(now), now), LeaderVerdict::Consume);
}

#[test]
fn p_after_window_expired_consumes() {
    let now = at(LEADER_TIMEOUT_MILLIS + 50);
    assert_eq!(decide(&lower_p(), true, Some(at(0)), now), LeaderVerdict::Consume);
}

#[test]
fn p_with_ctrl_does_not_fire_even_when_armed() {
    let now = at(1000);
    let ctrl_p = ke(KeyCode::Char('p'), KeyModifiers::control());
    assert_eq!(decide(&ctrl_p, true, Some(now), now), LeaderVerdict::Consume);
}

#[test]
fn second_space_rearms_the_leader() {
    assert_eq!(decide(&space(), true, Some(at(0)), at(100)), LeaderVerdict::Arm);
}

#[test]
fn non_chord_key_after_arm_consumes() {
    let now = at(1000);
    let j = ke(KeyCode::Char('j'), KeyModifiers::none());
    assert_eq!(decide(&j, true, Some(now), now), LeaderVerdict::Consume);
}

#[test]
fn no_leader_and_non_space_is_passthrough() {
    let j = ke(KeyCode::Char('j'), KeyModifiers::none());
    assert_eq!(decide(&j, true, None, at(0)), LeaderVerdict::Pass);
}

#[test]
fn shift_space_does_not_arm() {
    let shift_space = ke(KeyCode::Char(' '), KeyModifiers::shift());
    assert_eq!(decide(&shift_space, true, None, at(0)), LeaderVerdict::Pass);
}
