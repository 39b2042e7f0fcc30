//! The automation state machine. Each focus change and each timer tick is a
//! step from the current state to the next one, with an action that the
//! caller carries out (switch the display mode, confine or free the cursor,
//! tell observers). Steps that need the display's answer are split in two:
//! the first decides what to ask, the second records the answer.

use vstd::prelude::*;
use crate::config::{CursorLockRule, ResolutionProfile};
use crate::display::Resolution;
use crate::matcher::{find_rule, first_match, keys_of};

verus! {

/// The automation state as a mathematical value.
pub struct AutomationView {
    /// The mode seen just before the first switch.
    pub original: Option<Resolution>,
    /// Key of the profile whose mode is applied.
    pub active: Option<Seq<char>>,
    /// When focus left the active profile's process (milliseconds).
    pub deadline: Option<u64>,
    /// The pending revert is due at once, whatever the delay.
    pub forced: bool,
    /// The window the cursor is confined to.
    pub locked_window: Option<u64>,
    /// Inward padding of the confinement, horizontal then vertical.
    pub padding: (u32, u32),
    /// The process whose window the cursor is confined to.
    pub locked_process: Option<Seq<char>>,
}

impl AutomationView {
    /// Nothing applied, nothing pending, nothing locked.
    pub open spec fn idle() -> AutomationView {
        AutomationView {
            original: None,
            active: None,
            deadline: None,
            forced: false,
            locked_window: None,
            padding: (0, 0),
            locked_process: None,
        }
    }

    /// A pending revert belongs to an active profile; a forced revert is a
    /// pending one; a locked window always has its process recorded.
    pub open spec fn wf(self) -> bool {
        &&& self.deadline.is_some() ==> self.active.is_some()
        &&& self.forced ==> self.deadline.is_some()
        &&& self.locked_window.is_some() <==> self.locked_process.is_some()
    }

    /// No profile applied and no revert pending.
    pub open spec fn resolution_idle(self) -> bool {
        self.original.is_none() && self.active.is_none() && self.deadline.is_none() && !self.forced
    }

    /// `self` with no revert pending.
    pub open spec fn without_deadline(self) -> AutomationView {
        AutomationView { deadline: None, forced: false, ..self }
    }

    /// `self` with the profile state dropped: back to `resolution_idle`.
    pub open spec fn cleared(self) -> AutomationView {
        AutomationView { original: None, active: None, deadline: None, forced: false, ..self }
    }
}

/// What to do after a focus change, as far as the display mode goes.
#[derive(Debug, Clone, Copy, PartialEq, Eq, Structural)]
pub enum FocusAction {
    /// Nothing to do and nothing to tell.
    Nothing,
    /// Switch to the mode of `profiles[profile]`, after reading the current
    /// mode when `capture_original` holds; then report with `finish_activation`.
    Apply { profile: usize, capture_original: bool },
    /// Focus came back to the active profile's process: its pending revert is
    /// cancelled; tell observers that `profiles[profile]` is still in force.
    Reconfirmed { profile: usize },
    /// Focus left the active profile's process: a revert is now pending.
    RevertPending,
}

/// What to do on a timer tick.
#[derive(Debug, Clone, Copy, PartialEq, Eq, Structural)]
pub enum TickAction {
    Nothing,
    /// Switch to this mode, then report with `finish_revert`.
    Revert(Resolution),
}

/// What to do with the cursor after a focus change.
#[derive(Debug, Clone, Copy, PartialEq, Eq, Structural)]
pub enum LockAction {
    Nothing,
    /// Confine the cursor to the focused window as `rules[rule]` asks; when
    /// `announce` holds the locked process changed and observers are told.
    Lock { rule: usize, announce: bool },
    /// Free the cursor and tell observers that the lock is off.
    Release,
}

/// The next state and the action after focus moves to the process `name`.
pub open spec fn focus_step(
    v: AutomationView,
    profiles: Seq<ResolutionProfile>,
    name: Seq<char>,
    now: u64,
) -> (AutomationView, FocusAction) {
    match first_match(keys_of(profiles), name) {
        Some(i) => if v.active == Some(profiles[i].process_name@) {
            (
                v.without_deadline(),
                if v.deadline.is_some() {
                    FocusAction::Reconfirmed { profile: i as usize }
                } else {
                    FocusAction::Nothing
                },
            )
        } else {
            (v, FocusAction::Apply { profile: i as usize, capture_original: v.original.is_none() })
        },
        None => if v.active.is_some() && v.deadline.is_none() {
            (AutomationView { deadline: Some(now), forced: false, ..v }, FocusAction::RevertPending)
        } else {
            (v, FocusAction::Nothing)
        },
    }
}

/// The state after the mode of the profile keyed `key` was applied, where
/// `captured` is the mode read just before (if it was asked for and read).
pub open spec fn activated(v: AutomationView, key: Seq<char>, captured: Option<Resolution>) -> AutomationView {
    AutomationView {
        original: if v.original.is_some() { v.original } else { captured },
        active: Some(key),
        deadline: None,
        forced: false,
        ..v
    }
}

/// The pending revert is due at time `now` under a delay of `delay` milliseconds.
pub open spec fn revert_due(v: AutomationView, now: u64, delay: u64) -> bool {
    match v.deadline {
        Some(d) => v.forced || now - d >= delay,
        None => false,
    }
}

/// The mode a revert goes back to: the default mode if configured, else the
/// mode seen before switching.
pub open spec fn revert_target(v: AutomationView, default: Option<Resolution>) -> Option<Resolution> {
    if default.is_some() {
        default
    } else {
        v.original
    }
}

/// The next state and the action on a timer tick at time `now`.
pub open spec fn tick_step(
    v: AutomationView,
    now: u64,
    delay: u64,
    default: Option<Resolution>,
) -> (AutomationView, TickAction) {
    if revert_due(v, now, delay) {
        match revert_target(v, default) {
            Some(t) => (v, TickAction::Revert(t)),
            None => (v.cleared(), TickAction::Nothing),
        }
    } else {
        (v, TickAction::Nothing)
    }
}

/// The next state and the cursor action after focus moves to the window
/// `window` of the process `name`.
pub open spec fn lock_step(
    v: AutomationView,
    rules: Seq<CursorLockRule>,
    name: Seq<char>,
    window: u64,
) -> (AutomationView, LockAction) {
    match first_match(keys_of(rules), name) {
        Some(i) => (
            AutomationView {
                locked_window: Some(window),
                padding: (rules[i].padding_x, rules[i].padding_y),
                locked_process: Some(name),
                ..v
            },
            LockAction::Lock { rule: i as usize, announce: v.locked_process != Some(name) },
        ),
        None => (
            AutomationView { locked_window: None, padding: (0, 0), locked_process: None, ..v },
            if v.locked_window.is_some() {
                LockAction::Release
            } else {
                LockAction::Nothing
            },
        ),
    }
}

/// The characters of an optional string.
pub open spec fn opt_view(s: Option<String>) -> Option<Seq<char>> {
    match s {
        Some(x) => Some(x@),
        None => None,
    }
}

/// The automation state shared by the focus handler and the two timers.
#[derive(Debug)]
pub struct AutomationState {
    original_resolution: Option<Resolution>,
    active_profile: Option<String>,
    revert_deadline: Option<u64>,
    revert_forced: bool,
    locked_window: Option<u64>,
    locked_padding: (u32, u32),
    locked_process: Option<String>,
}

impl View for AutomationState {
    type V = AutomationView;

    closed spec fn view(&self) -> AutomationView {
        AutomationView {
            original: self.original_resolution,
            active: opt_view(self.active_profile),
            deadline: self.revert_deadline,
            forced: self.revert_forced,
            locked_window: self.locked_window,
            padding: self.locked_padding,
            locked_process: opt_view(self.locked_process),
        }
    }
}

impl AutomationState {
    /// The state at start-up: idle.
    pub fn new() -> (r: AutomationState)
        ensures
            r@ == AutomationView::idle(),
            r@.wf(),
    {
        AutomationState {
            original_resolution: None,
            active_profile: None,
            revert_deadline: None,
            revert_forced: false,
            locked_window: None,
            locked_padding: (0, 0),
            locked_process: None,
        }
    }

    /// Focus moved, at time `now`, to the process `process`: decides what
    /// happens to the display mode under the ordered `profiles`.
    pub fn on_focus(&mut self, profiles: &Vec<ResolutionProfile>, process: &str, now: u64) -> (r:
        FocusAction)
        ensures
            (final(self)@, r) == focus_step(old(self)@, profiles@, process@, now),
            old(self)@.wf() ==> final(self)@.wf(),
    {
        match find_rule(profiles, process) {
            Some(i) => {
                let same = match &self.active_profile {
                    Some(a) => *a == profiles[i].process_name,
                    None => false,
                };
                if same {
                    let was_pending = self.revert_deadline.is_some();
                    self.revert_deadline = None;
                    self.revert_forced = false;
                    if was_pending {
                        FocusAction::Reconfirmed { profile: i }
                    } else {
                        FocusAction::Nothing
                    }
                } else {
                    FocusAction::Apply { profile: i, capture_original: self.original_resolution.is_none() }
                }
            },
            None => {
                if self.active_profile.is_some() && self.revert_deadline.is_none() {
                    self.revert_deadline = Some(now);
                    self.revert_forced = false;
                    FocusAction::RevertPending
                } else {
                    FocusAction::Nothing
                }
            },
        }
    }

    /// Records the outcome of an `Apply`: `applied` tells whether the mode of
    /// `profile` is now in force, and `captured` is the mode read before the
    /// switch, if any. A failed switch leaves the state as it was.
    pub fn finish_activation(
        &mut self,
        profile: &ResolutionProfile,
        captured: Option<Resolution>,
        applied: bool,
    )
        ensures
            final(self)@ == (if applied {
                activated(old(self)@, profile.process_name@, captured)
            } else {
                old(self)@
            }),
            old(self)@.wf() ==> final(self)@.wf(),
    {
        if applied {
            if self.original_resolution.is_none() {
                self.original_resolution = captured;
            }
            self.active_profile = Some(profile.process_name.clone());
            self.revert_deadline = None;
            self.revert_forced = false;
        }
    }

    /// A timer tick at time `now`, with the revert delay `delay` (milliseconds)
    /// and the configured default mode read afresh.
    pub fn on_tick(&mut self, now: u64, delay: u64, default: Option<Resolution>) -> (r: TickAction)
        ensures
            (final(self)@, r) == tick_step(old(self)@, now, delay, default),
            old(self)@.wf() ==> final(self)@.wf(),
    {
        let due = match self.revert_deadline {
            Some(d) => self.revert_forced || (now >= d && now - d >= delay),
            None => false,
        };
        if !due {
            return TickAction::Nothing;
        }
        let target = if default.is_some() {
            default
        } else {
            self.original_resolution
        };
        match target {
            Some(t) => TickAction::Revert(t),
            None => {
                self.clear_profile();
                TickAction::Nothing
            },
        }
    }

    /// Records the outcome of a `Revert`: when `applied`, the profile state is
    /// dropped; otherwise it stays, and the next tick tries again.
    pub fn finish_revert(&mut self, applied: bool)
        ensures
            final(self)@ == (if applied {
                old(self)@.cleared()
            } else {
                old(self)@
            }),
            old(self)@.wf() ==> final(self)@.wf(),
    {
        if applied {
            self.clear_profile();
        }
    }

    fn clear_profile(&mut self)
        ensures
            final(self)@ == old(self)@.cleared(),
    {
        self.original_resolution = None;
        self.active_profile = None;
        self.revert_deadline = None;
        self.revert_forced = false;
    }

    /// Makes a pending revert due at once. Returns whether one was pending.
    pub fn force_revert(&mut self) -> (r: bool)
        ensures
            r == old(self)@.deadline.is_some(),
            final(self)@ == (if r {
                AutomationView { forced: true, ..old(self)@ }
            } else {
                old(self)@
            }),
            old(self)@.wf() ==> final(self)@.wf(),
    {
        if self.revert_deadline.is_some() {
            self.revert_forced = true;
            true
        } else {
            false
        }
    }

    /// Focus moved to the window `window` of the process `process`: decides
    /// whether the cursor is confined to it under the ordered `rules`.
    pub fn on_focus_lock(&mut self, rules: &Vec<CursorLockRule>, process: &str, window: u64) -> (r:
        LockAction)
        ensures
            (final(self)@, r) == lock_step(old(self)@, rules@, process@, window),
            old(self)@.wf() ==> final(self)@.wf(),
    {
        match find_rule(rules, process) {
            Some(i) => {
                let name = String::from_str(process);
                let announce = match &self.locked_process {
                    Some(p) => !(*p == name),
                    None => true,
                };
                self.locked_window = Some(window);
                self.locked_padding = (rules[i].padding_x, rules[i].padding_y);
                self.locked_process = Some(name);
                LockAction::Lock { rule: i, announce }
            },
            None => {
                let was_locked = self.locked_window.is_some();
                self.locked_window = None;
                self.locked_padding = (0, 0);
                self.locked_process = None;
                if was_locked {
                    LockAction::Release
                } else {
                    LockAction::Nothing
                }
            },
        }
    }

    /// Key of the profile whose mode is applied.
    pub fn active_profile(&self) -> (r: Option<String>)
        ensures
            opt_view(r) == self@.active,
    {
        match &self.active_profile {
            Some(p) => Some(p.clone()),
            None => None,
        }
    }

    /// The mode seen just before the first switch.
    pub fn original_resolution(&self) -> (r: Option<Resolution>)
        ensures
            r == self@.original,
    {
        self.original_resolution
    }

    /// When focus left the active profile's process, if a revert is pending.
    pub fn revert_deadline(&self) -> (r: Option<u64>)
        ensures
            r == self@.deadline,
    {
        self.revert_deadline
    }

    /// The process whose window the cursor is confined to.
    pub fn locked_process(&self) -> (r: Option<String>)
        ensures
            opt_view(r) == self@.locked_process,
    {
        match &self.locked_process {
            Some(p) => Some(p.clone()),
            None => None,
        }
    }

    /// The window the cursor is confined to and the padding, horizontal then
    /// vertical, that the confinement keeps from its edges.
    pub fn lock_target(&self) -> (r: Option<(u64, u32, u32)>)
        ensures
            r == (match self@.locked_window {
                Some(w) => Some((w, self@.padding.0, self@.padding.1)),
                None => None,
            }),
    {
        match self.locked_window {
            Some(w) => Some((w, self.locked_padding.0, self.locked_padding.1)),
            None => None,
        }
    }
}

} // verus!
