use claw_core::agent_state::{build_snapshot, classify, GatewayState, Status};
use claw_core::models::{
    AgentEntry, AgentsBlock, GatewayInfo, GatewayService, HeartbeatAgent, HeartbeatBlock,
    SessionRecent, SessionsBlock, StatusAll, TaskEntry, TasksList,
};

#[test]
fn classify_disabled_agent_is_gray() {
    let (s, _) = classify(false, 0, None, false, 0, false);
    assert_eq!(s, Status::Gray);
}

#[test]
fn classify_running_task_is_orange() {
    let (s, note) = classify(true, 5, Some(1000), false, 2, false);
    assert_eq!(s, Status::Orange);
    assert!(note.contains("2"));
}

#[test]
fn classify_aborted_is_red() {
    let (s, _) = classify(true, 5, Some(1000), true, 0, false);
    assert_eq!(s, Status::Red);
}

#[test]
fn classify_recent_activity_is_green() {
    let (s, _) = classify(true, 5, Some(5_000), false, 0, false);
    assert_eq!(s, Status::Green);
}

#[test]
fn classify_old_activity_is_gray() {
    let (s, note) = classify(true, 5, Some(120 * 60_000), false, 0, false);
    assert_eq!(s, Status::Gray);
    assert!(note.contains("min"));
}

#[test]
fn classify_notes_are_exact() {
    assert_eq!(classify(false, 0, None, false, 0, false).1, "désactivé");
    assert_eq!(classify(true, 0, None, false, 0, true), (Status::Red, "tâche bloquée détectée".to_string()));
    assert_eq!(classify(true, 0, None, true, 0, false).1, "session annulée");
    assert_eq!(classify(true, 0, None, false, 1, false).1, "tâche en cours");
    assert_eq!(classify(true, 0, None, false, 12, false).1, "12 tâches en cours");
    assert_eq!(classify(true, 0, None, false, 0, false), (Status::Gray, "aucune activité connue".to_string()));
    assert_eq!(classify(true, 0, Some(120 * 60_000), false, 0, false).1, "inactif depuis 120 min");
    assert_eq!(classify(true, 0, Some(61 * 60_000 - 1), false, 0, false), (Status::Green, "ok".to_string()));
    assert_eq!(classify(true, 0, Some(-10 * 60 * 60_000), false, 0, false).0, Status::Green);
    // Disabled but with sessions is not gray for that reason.
    assert_eq!(classify(false, 3, Some(1000), false, 0, false).0, Status::Green);
    // A stale task wins over an aborted run and running tasks.
    assert_eq!(classify(true, 3, Some(1000), true, 4, true).0, Status::Red);
}

#[test]
fn status_names() {
    assert_eq!(Status::Green.as_str(), "green");
    assert_eq!(Status::Orange.as_str(), "orange");
    assert_eq!(Status::Red.as_str(), "red");
    assert_eq!(Status::Gray.as_str(), "gray");
    assert_eq!(GatewayState::Up.as_str(), "up");
    assert_eq!(GatewayState::Down.as_str(), "down");
    assert_eq!(GatewayState::Unknown.as_str(), "unknown");
}

fn session(agent: &str, age: i64, aborted: bool, model: Option<&str>) -> SessionRecent {
    SessionRecent {
        agent_id: agent.to_string(),
        age,
        aborted_last_run: aborted,
        model: model.map(|m| m.to_string()),
        ..SessionRecent::default()
    }
}

fn task(owner: &str, status: &str) -> TaskEntry {
    TaskEntry {
        owner_key: Some(owner.to_string()),
        status: status.to_string(),
        runtime: "subagent".to_string(),
        ..TaskEntry::default()
    }
}

fn heartbeat(agent: &str, enabled: bool) -> HeartbeatAgent {
    HeartbeatAgent { agent_id: agent.to_string(), enabled, ..HeartbeatAgent::default() }
}

fn rich_status() -> StatusAll {
    let mut s = StatusAll::default();
    s.heartbeat = HeartbeatBlock {
        default_agent_id: Some("main".to_string()),
        agents: vec![
            heartbeat("main", true),
            heartbeat("ada", true),
            heartbeat("bob", true),
            heartbeat("cid", false),
            heartbeat("dan", true),
        ],
    };
    s.sessions = SessionsBlock {
        recent: vec![
            session("main", 40_000, false, None),
            session("main", 20_000, false, Some("opus")),
            session("main", 30_000, false, Some("sonnet")),
            session("bob", 10_000, true, None),
            session("dan", 300 * 60_000, false, Some("haiku")),
        ],
        ..SessionsBlock::default()
    };
    s.agents = Some(AgentsBlock {
        agents: vec![
            AgentEntry { id: "main".to_string(), name: Some("Main".to_string()), sessions_count: 4, ..AgentEntry::default() },
            AgentEntry { id: "ada".to_string(), sessions_count: 2, last_active_age_ms: Some(2_000), ..AgentEntry::default() },
            AgentEntry { id: "bob".to_string(), sessions_count: 1, ..AgentEntry::default() },
            AgentEntry { id: "cid".to_string(), sessions_count: 0, ..AgentEntry::default() },
            AgentEntry { id: "dan".to_string(), sessions_count: 9, ..AgentEntry::default() },
        ],
        ..AgentsBlock::default()
    });
    s.gateway = Some(GatewayInfo { reachable: true, ..GatewayInfo::default() });
    s.gateway_service = Some(GatewayService { runtime_short: Some("active (pid 42)".to_string()), ..GatewayService::default() });
    s.tasks.by_status.running = 3;
    s.tasks.by_status.failed = 2;
    s.tasks.by_status.timed_out = 1;
    s
}

// A status of a running gateway with five agents, among them `main` and
// `ada`, and two running tasks of `ada`.
#[test]
fn snapshot_with_real_status_up() {
    let status = rich_status();
    let tl = TasksList {
        tasks: vec![
            task("agent:ada:subagent:x", "running"),
            task("agent:ada:cli:y", "running"),
            task("agent:main:cron:z", "succeeded"),
        ],
        ..TasksList::default()
    };
    let snap = build_snapshot(&status, Some(&tl));
    assert_eq!(snap.gateway, GatewayState::Up);
    assert_eq!(snap.agents.len(), 5);
    let ids: Vec<&str> = snap.agents.iter().map(|a| a.id.as_str()).collect();
    assert!(ids.contains(&"main"));
    assert!(ids.contains(&"ada"));
}

#[test]
fn snapshot_per_agent_details() {
    let status = rich_status();
    let tl = TasksList {
        tasks: vec![
            task("agent:ada:subagent:x", "running"),
            task("agent:ada:cli:y", "running"),
            task("agent:main:cron:z", "succeeded"),
        ],
        ..TasksList::default()
    };
    let snap = build_snapshot(&status, Some(&tl));
    assert_eq!(snap.gateway_runtime_short.as_deref(), Some("active (pid 42)"));
    assert_eq!(snap.total_running_tasks, 3);
    assert_eq!(snap.total_failures, 3);
    let main = &snap.agents[0];
    assert_eq!(main.name, "Main");
    assert_eq!(main.model.as_deref(), Some("opus"));
    assert_eq!(main.last_active_age_ms, Some(20_000));
    assert_eq!(main.status, Status::Green);
    let ada = &snap.agents[1];
    assert_eq!(ada.name, "ada");
    assert_eq!(ada.running_tasks, 2);
    assert_eq!(ada.status, Status::Orange);
    assert_eq!(ada.note, "2 tâches en cours");
    let bob = &snap.agents[2];
    assert_eq!(bob.status, Status::Red);
    assert_eq!(bob.note, "session annulée");
    let cid = &snap.agents[3];
    assert_eq!(cid.status, Status::Gray);
    assert_eq!(cid.note, "désactivé");
    let dan = &snap.agents[4];
    assert_eq!(dan.status, Status::Gray);
    assert_eq!(dan.note, "inactif depuis 300 min");
    assert_eq!(dan.model.as_deref(), Some("haiku"));
}

#[test]
fn snapshot_stale_running_marks_idle_agents_red() {
    let mut status = rich_status();
    status.task_audit.by_code.stale_running = 1;
    let snap = build_snapshot(&status, None);
    assert_eq!(snap.stale_running, 1);
    // `dan` was last active long ago and runs nothing: its task counts as stuck.
    assert_eq!(snap.agents[4].status, Status::Red);
    assert_eq!(snap.agents[4].note, "tâche bloquée détectée");
    // `main` was active a few seconds ago.
    assert_eq!(snap.agents[0].status, Status::Green);
}

#[test]
fn snapshot_without_agents_block_uses_heartbeat() {
    let mut status = rich_status();
    status.agents = None;
    status.gateway = None;
    status.gateway_service = None;
    let snap = build_snapshot(&status, None);
    assert_eq!(snap.gateway, GatewayState::Unknown);
    assert_eq!(snap.gateway_runtime_short, None);
    assert_eq!(snap.agents.len(), 5);
    assert_eq!(snap.agents[0].id, "main");
    assert_eq!(snap.agents[0].name, "main");
    assert_eq!(snap.agents[0].sessions_count, 0);
    assert_eq!(snap.agents[3].status, Status::Gray);
    assert_eq!(snap.agents[3].note, "désactivé");
    assert_eq!(snap.agents[1].note, "aucune activité connue");
}

#[test]
fn snapshot_gateway_down() {
    let mut status = rich_status();
    status.gateway = Some(GatewayInfo { reachable: false, ..GatewayInfo::default() });
    let snap = build_snapshot(&status, None);
    assert_eq!(snap.gateway, GatewayState::Down);
}
