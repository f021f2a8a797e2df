//! Calls to the `openclaw` CLI.
//!
//! Every call runs `openclaw … --json` (or a silent maintenance command) under
//! a hard deadline, so that the display never blocks even when the CLI takes
//! longer than expected. This module decides which command line and which
//! deadline each call uses; spawning the process, enforcing the deadline and
//! decoding its output is the caller's part.

use vstd::prelude::*;

use crate::gateway::{tier_action, RestartTier};
use crate::text::{trim, trimmed};

verus! {

/// Settings shared by every call to the CLI.
#[derive(Debug, Clone)]
pub struct ClawCli {
    /// Path of the `openclaw` binary (default: looked up in `PATH`).
    pub binary: String,
    /// Hard deadline of the calls that have no deadline of their own, in
    /// milliseconds (default 8 s).
    pub default_timeout_ms: u64,
}

/// One invocation of the CLI: its arguments and its deadline.
#[derive(Debug, Clone)]
pub struct CliCall {
    pub args: Vec<String>,
    pub deadline_ms: u64,
}

/// The arguments of a call, as character sequences.
pub open spec fn args_of(c: CliCall) -> Seq<Seq<char>> {
    c.args@.map_values(|a: String| a@)
}

/// The arguments of `tasks list`, with the optional runtime and status
/// filters.
pub open spec fn tasks_list_args(runtime: Option<Seq<char>>, status: Option<Seq<char>>) -> Seq<
    Seq<char>,
> {
    seq!["tasks"@, "list"@, "--json"@] + match runtime {
        Some(r) => seq!["--runtime"@, r],
        None => Seq::empty(),
    } + match status {
        Some(s) => seq!["--status"@, s],
        None => Seq::empty(),
    }
}

/// The command line of a restart tier and its deadline.
pub open spec fn tier_args(t: RestartTier) -> Seq<Seq<char>> {
    match t {
        RestartTier::GatewayRestart => seq!["gateway"@, "restart"@],
        RestartTier::DoctorFix => seq!["doctor"@, "--fix"@],
        RestartTier::InstallForce => seq!["gateway"@, "install"@, "--force"@],
    }
}

pub open spec fn tier_deadline_ms(t: RestartTier) -> u64 {
    match t {
        RestartTier::GatewayRestart => 20_000,
        RestartTier::DoctorFix => 60_000,
        RestartTier::InstallForce => 60_000,
    }
}

fn push_arg(args: &mut Vec<String>, a: &str)
    ensures
        final(args)@.map_values(|s: String| s@) == old(args)@.map_values(|s: String| s@).push(a@),
{
    args.push(String::from_str(a));
    assert(args@.map_values(|s: String| s@) =~= old(args)@.map_values(|s: String| s@).push(a@));
}

fn call_of(parts: &[&str], deadline_ms: u64) -> (c: CliCall)
    ensures
        args_of(c) == parts@.map_values(|s: &str| s@),
        c.deadline_ms == deadline_ms,
{
    let mut args: Vec<String> = Vec::new();
    let mut i: usize = 0;
    while i < parts.len()
        invariant
            i <= parts@.len(),
            args@.map_values(|s: String| s@) == parts@.take(i as int).map_values(|s: &str| s@),
        decreases parts@.len() - i,
    {
        push_arg(&mut args, parts[i]);
        assert(parts@.take(i + 1).map_values(|s: &str| s@) =~= parts@.take(i as int).map_values(
            |s: &str| s@,
        ).push(parts@[i as int]@));
        i = i + 1;
    }
    assert(parts@.take(parts@.len() as int) =~= parts@);
    CliCall { args, deadline_ms }
}

/// What a maintenance command that prints nothing gave: success when the
/// process exited successfully; otherwise an error naming its exit status
/// (`status`, as the process library renders it) and its standard error
/// output without surrounding white space.
pub fn silent_outcome(success: bool, status: &str, stderr: &str) -> (r: Result<(), String>)
    ensures
        success ==> r == Ok::<(), String>(()),
        !success ==> (r matches Err(m) && m@ == "openclaw exited with status "@ + status@ + ": "@
            + trimmed(stderr@)),
{
    if success {
        Ok(())
    } else {
        let mut m = String::from_str("openclaw exited with status ");
        m.append(status);
        m.append(": ");
        m.append(trim(stderr).as_str());
        Err(m)
    }
}

impl Default for ClawCli {
    fn default() -> (c: Self)
        ensures
            c.binary@ == "openclaw"@,
            c.default_timeout_ms == 8_000,
    {
        ClawCli { binary: String::from_str("openclaw"), default_timeout_ms: 8_000 }
    }
}

impl ClawCli {
    pub fn new() -> (c: Self)
        ensures
            c.binary@ == "openclaw"@,
            c.default_timeout_ms == 8_000,
    {
        ClawCli::default()
    }

    pub fn with_binary(self, bin: String) -> (c: Self)
        ensures
            c.binary == bin,
            c.default_timeout_ms == self.default_timeout_ms,
    {
        ClawCli { binary: bin, default_timeout_ms: self.default_timeout_ms }
    }

    pub fn with_timeout(self, t_ms: u64) -> (c: Self)
        ensures
            c.binary == self.binary,
            c.default_timeout_ms == t_ms,
    {
        ClawCli { binary: self.binary, default_timeout_ms: t_ms }
    }

    /// Global status; works while the gateway is down too. Its deadline is
    /// longer (45 s): the command aggregates channels, sessions, memory and
    /// audit, which takes 30 s or more on a big install.
    pub fn status_all_call(&self) -> (c: CliCall)
        ensures
            args_of(c) == seq!["status"@, "--all"@, "--json"@],
            c.deadline_ms == 45_000,
    {
        let c = call_of(&["status", "--all", "--json"], 45_000);
        assert(args_of(c) =~= seq!["status"@, "--all"@, "--json"@]);
        c
    }

    /// Task list, optionally filtered by runtime (`subagent`, `cli`, …) and
    /// status; it runs under the default deadline.
    pub fn tasks_list_call(&self, runtime: Option<&str>, status: Option<&str>) -> (c: CliCall)
        ensures
            args_of(c) == tasks_list_args(
                match runtime {
                    Some(r) => Some(r@),
                    None => None,
                },
                match status {
                    Some(s) => Some(s@),
                    None => None,
                },
            ),
            c.deadline_ms == self.default_timeout_ms,
    {
        let mut args: Vec<String> = Vec::new();
        push_arg(&mut args, "tasks");
        push_arg(&mut args, "list");
        push_arg(&mut args, "--json");
        if let Some(r) = runtime {
            push_arg(&mut args, "--runtime");
            push_arg(&mut args, r);
        }
        if let Some(s) = status {
            push_arg(&mut args, "--status");
            push_arg(&mut args, s);
        }
        let c = CliCall { args, deadline_ms: self.default_timeout_ms };
        assert(args_of(c) =~= tasks_list_args(
            match runtime {
                Some(r) => Some(r@),
                None => None,
            },
            match status {
                Some(s) => Some(s@),
                None => None,
            },
        ));
        c
    }

    /// Probe of the gateway, with a short deadline (6 s).
    pub fn gateway_probe_call(&self) -> (c: CliCall)
        ensures
            args_of(c) == seq!["gateway"@, "probe"@, "--json"@, "--timeout"@, "2500"@],
            c.deadline_ms == 6_000,
    {
        let c = call_of(&["gateway", "probe", "--json", "--timeout", "2500"], 6_000);
        assert(args_of(c) =~= seq!["gateway"@, "probe"@, "--json"@, "--timeout"@, "2500"@]);
        c
    }

    /// The command of a restart tier: `gateway restart` (20 s),
    /// `doctor --fix` (60 s) or `gateway install --force` (60 s).
    pub fn restart_call(&self, tier: RestartTier) -> (c: CliCall)
        ensures
            args_of(c) == tier_args(tier),
            c.deadline_ms == tier_deadline_ms(tier),
    {
        let c = match tier {
            RestartTier::GatewayRestart => call_of(&["gateway", "restart"], 20_000),
            RestartTier::DoctorFix => call_of(&["doctor", "--fix"], 60_000),
            RestartTier::InstallForce => call_of(&["gateway", "install", "--force"], 60_000),
        };
        assert(args_of(c) =~= tier_args(tier));
        c
    }
}

/// Every filter given to `tasks list` stands on its command line: the line
/// starts with `tasks list --json`; a runtime `r` follows directly as
/// `--runtime r`; a status `s` closes the line as `--status s`, whether or
/// not a runtime is given; and nothing else is added.
pub proof fn law_tasks_list_filters(runtime: Option<Seq<char>>, status: Option<Seq<char>>)
    ensures
        ({
            let a = tasks_list_args(runtime, status);
            let n = a.len();
            &&& n == 3 + (if runtime is Some { 2int } else { 0int }) + (if status is Some {
                2int
            } else {
                0int
            })
            &&& a[0] == "tasks"@ && a[1] == "list"@ && a[2] == "--json"@
            &&& runtime matches Some(r) ==> a[3] == "--runtime"@ && a[4] == r
            &&& status matches Some(s) ==> a[n - 2] == "--status"@ && a[n - 1] == s
        }),
{
}

/// The three restart tiers run three different command lines.
pub proof fn law_restart_tiers_differ(t1: RestartTier, t2: RestartTier)
    ensures
        t1 != t2 ==> tier_args(t1) != tier_args(t2),
{
    reveal_strlit("gateway");
    reveal_strlit("doctor");
    if t1 != t2 {
        if tier_args(t1).len() == tier_args(t2).len() {
            assert(tier_args(t1)[0].len() != tier_args(t2)[0].len());
        }
    }
}

/// The label that a restart report gives a tier is the command line that
/// the tier runs, its words joined by spaces.
pub proof fn law_tier_label_is_command(t: RestartTier)
    ensures
        tier_args(t).len() == 2 ==> tier_action(t) == tier_args(t)[0] + " "@ + tier_args(t)[1],
        tier_args(t).len() == 3 ==> tier_action(t) == tier_args(t)[0] + " "@ + tier_args(t)[1]
            + " "@ + tier_args(t)[2],
        2 <= tier_args(t).len() <= 3,
{
    reveal_strlit("gateway");
    reveal_strlit("restart");
    reveal_strlit("doctor");
    reveal_strlit("--fix");
    reveal_strlit("install");
    reveal_strlit("--force");
    reveal_strlit(" ");
    reveal_strlit("gateway restart");
    reveal_strlit("doctor --fix");
    reveal_strlit("gateway install --force");
    match t {
        RestartTier::GatewayRestart => {
            assert(tier_action(t) =~= tier_args(t)[0] + " "@ + tier_args(t)[1]);
        },
        RestartTier::DoctorFix => {
            assert(tier_action(t) =~= tier_args(t)[0] + " "@ + tier_args(t)[1]);
        },
        RestartTier::InstallForce => {
            assert(tier_action(t) =~= tier_args(t)[0] + " "@ + tier_args(t)[1] + " "@ + tier_args(
                t,
            )[2]);
        },
    }
}

} // verus!
