//! User preferences of ClawAgentMonitor.
//!
//! They are kept as JSON in `config.json` under the state directory; only
//! display preferences are kept there, nothing of the gateway's state.

use vstd::prelude::*;

verus! {

#[derive(Debug, Clone)]
pub struct AppConfig {
    /// Turns on the in-process watchdog of the gateway.
    pub auto_restart_enabled: bool,
    /// Allows tier 3 (`gateway install --force`) without asking.
    /// Only meaningful together with `auto_restart_enabled`.
    pub auto_aggressive: bool,
    /// Starts ClawAgentMonitor at login.
    pub start_at_login: bool,
    /// Time between two probes of the watchdog, in seconds.
    pub watchdog_interval_secs: u64,
}

impl Default for AppConfig {
    fn default() -> (c: Self)
        ensures
            !c.auto_restart_enabled,
            !c.auto_aggressive,
            !c.start_at_login,
            c.watchdog_interval_secs == 300,
    {
        AppConfig {
            auto_restart_enabled: false,
            auto_aggressive: false,
            start_at_login: false,
            watchdog_interval_secs: 300,
        }
    }
}

} // verus!
