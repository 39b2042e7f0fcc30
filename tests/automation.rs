use autores::config::{CursorLockRule, ResolutionProfile};
use autores::display::Resolution;
use autores::engine::{AutomationState, FocusAction, LockAction, TickAction};

fn profile(name: &str, width: u32, height: u32, frequency: u32) -> ResolutionProfile {
    ResolutionProfile { process_name: name.to_string(), width, height, frequency }
}

fn lock_rule(name: &str, padding_x: u32, padding_y: u32) -> CursorLockRule {
    CursorLockRule { process_name: name.to_string(), padding_x, padding_y }
}

const DESKTOP: Resolution = Resolution { width: 2560, height: 1440, frequency: 144 };
const GAME: Resolution = Resolution { width: 1280, height: 720, frequency: 60 };

/// Focus on `name`, carrying out an `Apply` with the given display answer.
fn focus(state: &mut AutomationState, profiles: &Vec<ResolutionProfile>, name: &str, now: u64, applied: bool) -> FocusAction {
    let action = state.on_focus(profiles, name, now);
    if let FocusAction::Apply { profile, capture_original } = action {
        let captured = if capture_original { Some(DESKTOP) } else { None };
        state.finish_activation(&profiles[profile], captured, applied);
    }
    action
}

#[test]
fn matching_focus_asks_to_apply_and_records_profile() {
    let profiles = vec![profile("game.exe", 1280, 720, 60)];
    let mut s = AutomationState::new();
    let a = s.on_focus(&profiles, "Game.exe", 10);
    assert_eq!(a, FocusAction::Apply { profile: 0, capture_original: true });
    assert_eq!(s.active_profile(), None);
    s.finish_activation(&profiles[0], Some(DESKTOP), true);
    assert_eq!(s.active_profile(), Some("game.exe".to_string()));
    assert_eq!(s.original_resolution(), Some(DESKTOP));
    assert_eq!(s.revert_deadline(), None);
    assert_eq!(profiles[0].resolution(), GAME);
}

#[test]
fn reentry_cancels_pending_revert_without_reapplying() {
    let profiles = vec![profile("a.exe", 1280, 720, 60)];
    let mut s = AutomationState::new();
    assert_eq!(focus(&mut s, &profiles, "a.exe", 0, true), FocusAction::Apply { profile: 0, capture_original: true });
    assert_eq!(s.on_focus(&profiles, "b.exe", 100), FocusAction::RevertPending);
    assert_eq!(s.revert_deadline(), Some(100));
    assert_eq!(s.on_tick(600, 1000, None), TickAction::Nothing);
    assert_eq!(s.on_focus(&profiles, "a.exe", 700), FocusAction::Reconfirmed { profile: 0 });
    assert_eq!(s.revert_deadline(), None);
    assert_eq!(s.active_profile(), Some("a.exe".to_string()));
    assert_eq!(s.original_resolution(), Some(DESKTOP));
    assert_eq!(s.on_tick(5000, 1000, None), TickAction::Nothing);
    assert_eq!(s.on_focus(&profiles, "a.exe", 5100), FocusAction::Nothing);
}

#[test]
fn revert_fires_at_the_delay_not_before() {
    let profiles = vec![profile("a.exe", 1280, 720, 60)];
    let mut s = AutomationState::new();
    focus(&mut s, &profiles, "a.exe", 0, true);
    let t0 = 50_000;
    assert_eq!(s.on_focus(&profiles, "explorer.exe", t0), FocusAction::RevertPending);
    assert_eq!(s.on_tick(t0 + 999, 1000, None), TickAction::Nothing);
    assert_eq!(s.revert_deadline(), Some(t0));
    assert_eq!(s.on_tick(t0 + 1000, 1000, None), TickAction::Revert(DESKTOP));
    s.finish_revert(true);
    assert_eq!(s.active_profile(), None);
    assert_eq!(s.original_resolution(), None);
    assert_eq!(s.revert_deadline(), None);
}

#[test]
fn default_mode_takes_precedence_over_original() {
    let profiles = vec![profile("a.exe", 1280, 720, 60)];
    let default = Resolution { width: 1920, height: 1080, frequency: 120 };
    let mut s = AutomationState::new();
    focus(&mut s, &profiles, "a.exe", 0, true);
    assert_eq!(s.original_resolution(), Some(DESKTOP));
    s.on_focus(&profiles, "other.exe", 10);
    assert_eq!(s.on_tick(2000, 1000, Some(default)), TickAction::Revert(default));
}

#[test]
fn no_rules_keep_state_idle() {
    let profiles: Vec<ResolutionProfile> = Vec::new();
    let rules: Vec<CursorLockRule> = Vec::new();
    let mut s = AutomationState::new();
    for (i, name) in ["a.exe", "b.exe", "a.exe", "explorer.exe", "a.exe"].iter().enumerate() {
        assert_eq!(s.on_focus(&profiles, name, i as u64 * 10), FocusAction::Nothing);
        assert_eq!(s.on_focus_lock(&rules, name, i as u64), LockAction::Nothing);
        assert_eq!(s.active_profile(), None);
        assert_eq!(s.original_resolution(), None);
        assert_eq!(s.revert_deadline(), None);
        assert_eq!(s.lock_target(), None);
        assert_eq!(s.locked_process(), None);
    }
}

#[test]
fn failed_switch_leaves_state_unchanged() {
    let profiles = vec![profile("a.exe", 1280, 720, 60), profile("c.exe", 800, 600, 60)];
    let mut s = AutomationState::new();
    focus(&mut s, &profiles, "a.exe", 0, true);
    s.on_focus(&profiles, "b.exe", 10);
    assert_eq!(focus(&mut s, &profiles, "c.exe", 20, false), FocusAction::Apply { profile: 1, capture_original: false });
    assert_eq!(s.active_profile(), Some("a.exe".to_string()));
    assert_eq!(s.revert_deadline(), Some(10));
    assert_eq!(s.original_resolution(), Some(DESKTOP));
}

#[test]
fn switching_between_profiles_keeps_first_original() {
    let profiles = vec![profile("a.exe", 1280, 720, 60), profile("c.exe", 800, 600, 60)];
    let mut s = AutomationState::new();
    focus(&mut s, &profiles, "a.exe", 0, true);
    let a = s.on_focus(&profiles, "c.exe", 5);
    assert_eq!(a, FocusAction::Apply { profile: 1, capture_original: false });
    s.finish_activation(&profiles[1], Some(GAME), true);
    assert_eq!(s.active_profile(), Some("c.exe".to_string()));
    assert_eq!(s.original_resolution(), Some(DESKTOP));
}

#[test]
fn failed_revert_is_retried() {
    let profiles = vec![profile("a.exe", 1280, 720, 60)];
    let mut s = AutomationState::new();
    focus(&mut s, &profiles, "a.exe", 0, true);
    s.on_focus(&profiles, "b.exe", 0);
    assert_eq!(s.on_tick(1000, 1000, None), TickAction::Revert(DESKTOP));
    s.finish_revert(false);
    assert_eq!(s.active_profile(), Some("a.exe".to_string()));
    assert_eq!(s.on_tick(2000, 1000, None), TickAction::Revert(DESKTOP));
}

#[test]
fn nothing_to_revert_to_clears_profile() {
    let profiles = vec![profile("a.exe", 1280, 720, 60)];
    let mut s = AutomationState::new();
    s.on_focus(&profiles, "a.exe", 0);
    s.finish_activation(&profiles[0], None, true);
    assert_eq!(s.original_resolution(), None);
    s.on_focus(&profiles, "b.exe", 0);
    assert_eq!(s.on_tick(1000, 1000, None), TickAction::Nothing);
    assert_eq!(s.active_profile(), None);
    assert_eq!(s.revert_deadline(), None);
}

#[test]
fn forced_revert_is_due_at_once() {
    let profiles = vec![profile("a.exe", 1280, 720, 60)];
    let mut s = AutomationState::new();
    assert!(!s.force_revert());
    focus(&mut s, &profiles, "a.exe", 0, true);
    assert!(!s.force_revert());
    s.on_focus(&profiles, "b.exe", 10_000);
    assert_eq!(s.on_tick(10_001, 15_000, None), TickAction::Nothing);
    assert!(s.force_revert());
    assert_eq!(s.on_tick(10_002, 15_000, None), TickAction::Revert(DESKTOP));
}

#[test]
fn cursor_lock_announces_only_changes() {
    let rules = vec![lock_rule("game.exe", 10, 5), lock_rule("tool", 0, 0)];
    let mut s = AutomationState::new();
    assert_eq!(s.on_focus_lock(&rules, "game.exe", 7), LockAction::Lock { rule: 0, announce: true });
    assert_eq!(s.lock_target(), Some((7, 10, 5)));
    assert_eq!(s.locked_process(), Some("game.exe".to_string()));
    assert_eq!(s.on_focus_lock(&rules, "game.exe", 8), LockAction::Lock { rule: 0, announce: false });
    assert_eq!(s.lock_target(), Some((8, 10, 5)));
    assert_eq!(s.on_focus_lock(&rules, "tool.exe", 9), LockAction::Lock { rule: 1, announce: true });
    assert_eq!(s.on_focus_lock(&rules, "explorer.exe", 3), LockAction::Release);
    assert_eq!(s.lock_target(), None);
    assert_eq!(s.locked_process(), None);
    assert_eq!(s.on_focus_lock(&rules, "explorer.exe", 3), LockAction::Nothing);
    assert_eq!(s.on_focus_lock(&rules, "game.exe", 7), LockAction::Lock { rule: 0, announce: true });
}
