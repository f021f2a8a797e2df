//! Core logic of ClawAgentMonitor: the data model of the `openclaw` CLI
//! outputs, the agent status heuristic, the non-destructive gateway restart
//! escalation and the in-process watchdog, all as verified functions.
//! Everything that touches the process, the clock, the disk, the desktop
//! session or the network is driven from the application around this crate.

pub mod agent_state;
pub mod autostart;
pub mod cli;
pub mod config;
pub mod display;
pub mod gateway;
pub mod models;
pub mod notify;
pub mod text;
pub mod tray;
pub mod watchdog;

use vstd::prelude::*;

verus! {

/// Version of this library.
pub fn version() -> (v: &'static str)
    ensures
        v@ == "0.1.0"@,
        v@.len() > 0,
{
    proof {
        reveal_strlit("0.1.0");
    }
    "0.1.0"
}

} // verus!
