use claw_core::agent_state::{AgentStatus, GatewayState, Status, StatusSnapshot};
use claw_core::display::{agent_row, format_age, snapshot_from_poll, snapshot_view};
use claw_core::models::{StatusAll, TasksList};
use claw_core::notify::Level;
use claw_core::text::u64_to_decimal;

#[test]
fn ages() {
    assert_eq!(format_age(None), "-");
    assert_eq!(format_age(Some(0)), "0s");
    assert_eq!(format_age(Some(59_999)), "59s");
    assert_eq!(format_age(Some(60_000)), "1min");
    assert_eq!(format_age(Some(3_599_999)), "59min");
    assert_eq!(format_age(Some(3_600_000)), "1h");
    assert_eq!(format_age(Some(86_399_999)), "23h");
    assert_eq!(format_age(Some(86_400_000)), "1j");
    assert_eq!(format_age(Some(-5_500)), "-5s");
    assert_eq!(format_age(Some(-999)), "0s");
    assert_eq!(format_age(Some(i64::MIN)), "-9223372036854775s");
}

#[test]
fn decimals() {
    assert_eq!(u64_to_decimal(0), "0");
    assert_eq!(u64_to_decimal(1234567890), "1234567890");
    assert_eq!(u64_to_decimal(u64::MAX), u64::MAX.to_string());
}

fn agent() -> AgentStatus {
    AgentStatus {
        id: "ada".to_string(),
        name: "Ada".to_string(),
        model: None,
        status: Status::Orange,
        note: "tâche en cours".to_string(),
        last_active_age_ms: Some(125_000),
        sessions_count: 7,
        running_tasks: 1,
    }
}

#[test]
fn rows() {
    let r = agent_row(&agent());
    assert_eq!(r.model, "?");
    assert_eq!(r.status, "orange");
    assert_eq!(r.last_active, "2min");
    assert_eq!(r.sessions_count, 7);
    let snap = StatusSnapshot {
        gateway: GatewayState::Down,
        gateway_runtime_short: None,
        agents: vec![agent()],
        total_running_tasks: 1,
        total_failures: 4,
        stale_running: 0,
    };
    let v = snapshot_view(&snap);
    assert_eq!(v.gateway_status, "down");
    assert_eq!(v.gateway_runtime, "");
    assert_eq!(v.agents.len(), 1);
    assert_eq!(v.total_failures, 4);
}

#[test]
fn poll_decisions() {
    assert!(snapshot_from_poll(Err("timeout".to_string()), Ok(TasksList::default())).is_none());
    let snap = snapshot_from_poll(Ok(StatusAll::default()), Err("timeout".to_string())).unwrap();
    assert_eq!(snap.gateway, GatewayState::Unknown);
    assert!(snap.agents.is_empty());
}

#[test]
fn notification_icons() {
    assert_eq!(Level::Info.xdg_icon(), "dialog-information");
    assert_eq!(Level::Warn.xdg_icon(), "dialog-warning");
    assert_eq!(Level::Error.xdg_icon(), "dialog-error");
}
