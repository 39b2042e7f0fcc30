//! Properties of the automation that relate several steps.

use vstd::prelude::*;
use crate::config::{CursorLockRule, ResolutionProfile};
use crate::display::Resolution;
use crate::engine::{
    activated, focus_step, lock_step, revert_target, tick_step, AutomationView, FocusAction,
    LockAction, TickAction,
};
use crate::matcher::{first_match, keys_of};

verus! {

/// A focus change: the focused process, its window and the time.
pub struct FocusEvent {
    pub name: Seq<char>,
    pub window: u64,
    pub now: u64,
}

/// Both focus steps, display mode then cursor, for one event.
pub open spec fn focus_event_step(
    v: AutomationView,
    profiles: Seq<ResolutionProfile>,
    rules: Seq<CursorLockRule>,
    e: FocusEvent,
) -> (AutomationView, FocusAction, LockAction) {
    let (v1, a) = focus_step(v, profiles, e.name, e.now);
    let (v2, l) = lock_step(v1, rules, e.name, e.window);
    (v2, a, l)
}

/// The state after handling `events` in order, starting from `v`.
pub open spec fn replay(
    v: AutomationView,
    profiles: Seq<ResolutionProfile>,
    rules: Seq<CursorLockRule>,
    events: Seq<FocusEvent>,
) -> AutomationView
    decreases events.len(),
{
    if events.len() == 0 {
        v
    } else {
        focus_event_step(replay(v, profiles, rules, events.drop_last()), profiles, rules, events.last()).0
    }
}

/// Handling `events` in order from `v` asks for no action at any step.
pub open spec fn quiet(
    v: AutomationView,
    profiles: Seq<ResolutionProfile>,
    rules: Seq<CursorLockRule>,
    events: Seq<FocusEvent>,
) -> bool {
    forall|k: int|
        0 <= k < events.len() ==> {
            let r = #[trigger] focus_event_step(
                replay(v, profiles, rules, events.subrange(0, k)),
                profiles,
                rules,
                events[k],
            );
            r.1 == FocusAction::Nothing && r.2 == LockAction::Nothing
        }
}

/// Re-entry: once the mode of the profile for process `a` is applied, focus
/// moving to a process `b` that no profile covers starts a countdown, a tick
/// before the delay has run out changes nothing, and focus coming back to `a`
/// cancels the countdown without switching the mode again, leaving the state
/// as it was after the switch.
pub proof fn lemma_reentry_cancels_revert(
    v0: AutomationView,
    profiles: Seq<ResolutionProfile>,
    a: Seq<char>,
    b: Seq<char>,
    captured: Option<Resolution>,
    t0: u64,
    t1: u64,
    t_tick: u64,
    t2: u64,
    delay: u64,
    default: Option<Resolution>,
)
    requires
        v0.wf(),
        first_match(keys_of(profiles), a).is_some(),
        first_match(keys_of(profiles), b).is_none(),
        t_tick < t1 + delay,
    ensures
        ({
            let i = first_match(keys_of(profiles), a).unwrap();
            let key = profiles[i].process_name@;
            let v1 = activated(v0, key, captured);
            let (v2, x2) = focus_step(v1, profiles, b, t1);
            let (v3, x3) = tick_step(v2, t_tick, delay, default);
            let (v4, x4) = focus_step(v3, profiles, a, t2);
            &&& v0.active != Some(key) ==> focus_step(v0, profiles, a, t0) == (
                v0,
                FocusAction::Apply { profile: i as usize, capture_original: v0.original.is_none() },
            )
            &&& x2 == FocusAction::RevertPending
            &&& v2.deadline == Some(t1)
            &&& v3 == v2 && x3 == TickAction::Nothing
            &&& x4 == FocusAction::Reconfirmed { profile: i as usize }
            &&& v4 == v1
        }),
{
}

/// The revert boundary: a countdown started at `t0` is not due before
/// `t0 + delay`, and at any tick from then on the revert happens (or, with
/// nothing to revert to, the profile state is dropped).
pub proof fn lemma_revert_boundary(
    v: AutomationView,
    t0: u64,
    delay: u64,
    default: Option<Resolution>,
    now: u64,
)
    requires
        v.deadline == Some(t0),
        !v.forced,
    ensures
        now < t0 + delay ==> tick_step(v, now, delay, default) == (v, TickAction::Nothing),
        now >= t0 + delay ==> tick_step(v, now, delay, default) == (match revert_target(v, default) {
            Some(t) => (v, TickAction::Revert(t)),
            None => (v.cleared(), TickAction::Nothing),
        }),
{
}

/// A configured default mode takes precedence: a due revert goes to it, never
/// to the mode seen before switching.
pub proof fn lemma_default_mode_wins(
    v: AutomationView,
    now: u64,
    delay: u64,
    default: Resolution,
)
    requires
        v.deadline.is_some(),
        v.forced || now - v.deadline.unwrap() >= delay,
    ensures
        tick_step(v, now, delay, Some(default)) == (v, TickAction::Revert(default)),
{
}

proof fn lemma_no_rules_no_match<R: crate::matcher::Keyed>(rules: Seq<R>, name: Seq<char>)
    requires
        rules.len() == 0,
    ensures
        first_match(keys_of(rules), name).is_none(),
{
}

proof fn lemma_idle_replay(
    profiles: Seq<ResolutionProfile>,
    rules: Seq<CursorLockRule>,
    events: Seq<FocusEvent>,
)
    requires
        profiles.len() == 0,
        rules.len() == 0,
    ensures
        replay(AutomationView::idle(), profiles, rules, events) == AutomationView::idle(),
    decreases events.len(),
{
    if events.len() > 0 {
        lemma_idle_replay(profiles, rules, events.drop_last());
        lemma_no_rules_no_match(profiles, events.last().name);
        lemma_no_rules_no_match(rules, events.last().name);
    }
}

/// With no profiles and no lock rules, any sequence of focus changes leaves
/// the state idle and asks for no action at all.
pub proof fn lemma_no_rules_stay_idle(
    profiles: Seq<ResolutionProfile>,
    rules: Seq<CursorLockRule>,
    events: Seq<FocusEvent>,
)
    requires
        profiles.len() == 0,
        rules.len() == 0,
    ensures
        replay(AutomationView::idle(), profiles, rules, events) == AutomationView::idle(),
        quiet(AutomationView::idle(), profiles, rules, events),
{
    lemma_idle_replay(profiles, rules, events);
    assert forall|k: int| 0 <= k < events.len() implies {
        let r = #[trigger] focus_event_step(
            replay(AutomationView::idle(), profiles, rules, events.subrange(0, k)),
            profiles,
            rules,
            events[k],
        );
        r.1 == FocusAction::Nothing && r.2 == LockAction::Nothing
    } by {
        lemma_idle_replay(profiles, rules, events.subrange(0, k));
        lemma_no_rules_no_match(profiles, events[k].name);
        lemma_no_rules_no_match(rules, events[k].name);
    }
}

} // verus!
