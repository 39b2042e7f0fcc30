//! The configuration the automation reads: ordered resolution profiles and
//! cursor-lock rules, the revert delay and an optional default mode.

use vstd::prelude::*;
use crate::display::Resolution;
use crate::matcher::Keyed;

verus! {

/// The mode to switch to while the process named `process_name` has focus.
#[derive(Debug, Clone)]
pub struct ResolutionProfile {
    pub process_name: String,
    pub width: u32,
    pub height: u32,
    pub frequency: u32,
}

/// Confine the cursor to the window of the process named `process_name`,
/// inset by `padding_x` pixels on the left and right and `padding_y` pixels
/// at the top and bottom.
#[derive(Debug, Clone)]
pub struct CursorLockRule {
    pub process_name: String,
    pub padding_x: u32,
    pub padding_y: u32,
}

impl ResolutionProfile {
    /// The mode this profile asks for.
    pub open spec fn mode(&self) -> Resolution {
        Resolution { width: self.width, height: self.height, frequency: self.frequency }
    }

    /// The mode this profile asks for.
    pub fn resolution(&self) -> (r: Resolution)
        ensures
            r == self.mode(),
    {
        Resolution { width: self.width, height: self.height, frequency: self.frequency }
    }
}

impl Keyed for ResolutionProfile {
    open spec fn key_view(&self) -> Seq<char> {
        self.process_name@
    }

    fn key(&self) -> (r: &str) {
        self.process_name.as_str()
    }
}

impl Keyed for CursorLockRule {
    open spec fn key_view(&self) -> Seq<char> {
        self.process_name@
    }

    fn key(&self) -> (r: &str) {
        self.process_name.as_str()
    }
}

/// Appearance settings.
#[derive(Debug, Clone)]
pub struct UiConfig {
    /// "system", "dark" or "light".
    pub theme: String,
}

/// Start-up settings.
#[derive(Debug, Clone)]
pub struct SystemConfig {
    pub autostart: bool,
    pub start_minimized: bool,
}

/// What the automation does. The order of `profiles` and of `mouse_lock` is
/// their priority: the first rule that applies to a process wins.
#[derive(Debug, Clone)]
pub struct AutomationConfig {
    /// Milliseconds between losing focus of a profiled process and reverting.
    pub revert_delay: u64,
    /// The mode to revert to; when absent, the mode seen before switching.
    pub default_profile: Option<Resolution>,
    pub profiles: Vec<ResolutionProfile>,
    pub mouse_lock: Vec<CursorLockRule>,
}

/// The whole configuration.
#[derive(Debug, Clone)]
pub struct AppConfig {
    pub ui: UiConfig,
    pub system: SystemConfig,
    pub automation: AutomationConfig,
}

/// The revert delay of a fresh configuration, in milliseconds.
pub const DEFAULT_REVERT_DELAY: u64 = 15000;

impl Default for AppConfig {
    /// The configuration used when none is stored or it cannot be read: the
    /// system theme, no autostart, no profiles, no lock rules, no default mode
    /// and the default revert delay.
    fn default() -> (r: AppConfig)
        ensures
            r.ui.theme@ == "system"@,
            !r.system.autostart,
            !r.system.start_minimized,
            r.automation.revert_delay == DEFAULT_REVERT_DELAY,
            r.automation.default_profile.is_none(),
            r.automation.profiles@.len() == 0,
            r.automation.mouse_lock@.len() == 0,
    {
        AppConfig {
            ui: UiConfig { theme: String::from_str("system") },
            system: SystemConfig { autostart: false, start_minimized: false },
            automation: AutomationConfig {
                revert_delay: DEFAULT_REVERT_DELAY,
                default_profile: None,
                profiles: Vec::new(),
                mouse_lock: Vec::new(),
            },
        }
    }
}

} // verus!
