use claw_core::autostart::{change_request, query_request, step_outcome, AutostartError, LoginItemStep};
use claw_core::cli::{silent_outcome, ClawCli};
use claw_core::text::trim;
use claw_core::gateway::RestartTier;

#[test]
fn cli_defaults() {
    let c = ClawCli::new();
    assert_eq!(c.binary, "openclaw");
    assert_eq!(c.default_timeout_ms, 8_000);
    let c = c.with_binary("/opt/openclaw".to_string()).with_timeout(3_000);
    assert_eq!(c.binary, "/opt/openclaw");
    assert_eq!(c.default_timeout_ms, 3_000);
}

#[test]
fn command_lines() {
    let c = ClawCli::new();
    let s = c.status_all_call();
    assert_eq!(s.args, vec!["status", "--all", "--json"]);
    assert_eq!(s.deadline_ms, 45_000);
    let t = c.tasks_list_call(None, Some("running"));
    assert_eq!(t.args, vec!["tasks", "list", "--json", "--status", "running"]);
    assert_eq!(t.deadline_ms, 8_000);
    let t = c.tasks_list_call(Some("cli"), None);
    assert_eq!(t.args, vec!["tasks", "list", "--json", "--runtime", "cli"]);
    let p = c.gateway_probe_call();
    assert_eq!(p.args, vec!["gateway", "probe", "--json", "--timeout", "2500"]);
    assert_eq!(p.deadline_ms, 6_000);
    let r = c.restart_call(RestartTier::GatewayRestart);
    assert_eq!(r.args, vec!["gateway", "restart"]);
    assert_eq!(r.deadline_ms, 20_000);
    let r = c.restart_call(RestartTier::DoctorFix);
    assert_eq!(r.args, vec!["doctor", "--fix"]);
    assert_eq!(r.deadline_ms, 60_000);
    let r = c.restart_call(RestartTier::InstallForce);
    assert_eq!(r.args, vec!["gateway", "install", "--force"]);
    assert_eq!(r.deadline_ms, 60_000);
}

#[test]
fn login_item_registers_this_application() {
    let item = claw_core::autostart::login_item("/usr/bin/clawagentmonitor");
    assert_eq!(item.app_name, "ClawAgentMonitor");
    assert_eq!(item.app_path, "/usr/bin/clawagentmonitor");
}

#[test]
fn login_item_requests() {
    let q = query_request("/opt/claw/bin/clawagentmonitor");
    assert_eq!(q.item.app_name, "ClawAgentMonitor");
    assert_eq!(q.item.app_path, "/opt/claw/bin/clawagentmonitor");
    assert_eq!(q.call, LoginItemStep::Query);
    let on = change_request("/x", true);
    assert_eq!(on.call, LoginItemStep::Enable);
    assert_eq!(on.item.app_path, "/x");
    let off = change_request("/x", false);
    assert_eq!(off.call, LoginItemStep::Disable);
}

#[test]
fn login_item_outcomes() {
    assert_eq!(step_outcome(LoginItemStep::Query, Ok::<bool, String>(true)).unwrap(), true);
    assert!(matches!(step_outcome::<()>(LoginItemStep::Build, Err("no name".into())), Err(AutostartError::Builder(t)) if t == "no name"));
    assert!(matches!(step_outcome::<bool>(LoginItemStep::Query, Err("io".into())), Err(AutostartError::Query(t)) if t == "io"));
    assert!(matches!(step_outcome::<()>(LoginItemStep::Enable, Err("io".into())), Err(AutostartError::Enable(_))));
    assert!(matches!(step_outcome::<()>(LoginItemStep::Disable, Err("io".into())), Err(AutostartError::Disable(_))));
}

#[test]
fn silent_command_outcomes() {
    assert_eq!(silent_outcome(true, "exit status: 0", "noise"), Ok(()));
    assert_eq!(
        silent_outcome(false, "exit status: 3", "\n  service not found \t\n"),
        Err("openclaw exited with status exit status: 3: service not found".to_string())
    );
    assert_eq!(trim("\u{3000} a b \u{85}"), "a b");
    assert_eq!(trim("   "), "");
    assert_eq!(trim(""), "");
}
