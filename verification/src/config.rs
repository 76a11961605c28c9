//! Persisted configuration: the chosen theme and the refresh period.
//!
//! Loading and saving the configuration is the business of the surrounding
//! program; the library only holds the current values and updates them.

use vstd::prelude::*;
use crate::tui::theme::ThemeVariant;

verus! {

/// The configuration values the dashboard persists across runs.
#[derive(Clone, Copy, Debug, PartialEq, Eq, Structural)]
pub struct Config {
    pub theme: ThemeVariant,
    pub tick_interval_ms: u64,
}

impl Default for Config {
    /// First-startup defaults: the vendor theme and a one-second refresh.
    fn default() -> (r: Self)
        ensures
            r.theme == ThemeVariant::Framework,
            r.tick_interval_ms == 1000,
    {
        Config { theme: ThemeVariant::Framework, tick_interval_ms: 1000 }
    }
}

impl Config {
    /// Records a newly chosen theme.
    pub fn set_theme(&mut self, theme: ThemeVariant)
        ensures
            *final(self) == (Config { theme, ..*old(self) }),
    {
        self.theme = theme;
    }

    /// Records a newly chosen refresh period.
    pub fn set_tick_interval(&mut self, tick_interval_ms: u64)
        ensures
            *final(self) == (Config { tick_interval_ms, ..*old(self) }),
    {
        self.tick_interval_ms = tick_interval_ms;
    }
}

} // verus!
