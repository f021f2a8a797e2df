//! Data model of the JSON outputs of the `openclaw` CLI.
//!
//! Every structure is tolerant: optional fields and defaults everywhere, so
//! that the same model describes the rich output of a running gateway
//! (`agents`, `gateway`, `gatewayService` blocks) and the minimal output of a
//! stopped one (`heartbeat`, `tasks`, `sessions`). The application decodes the
//! JSON into these types; fields that hold free-form JSON documents keep their
//! JSON text.

use vstd::prelude::*;

verus! {

/// Global status returned by `openclaw status --all --json`.
#[derive(Debug, Clone, Default)]
pub struct StatusAll {
    pub runtime_version: Option<String>,
    pub heartbeat: HeartbeatBlock,
    pub tasks: TasksSummary,
    pub task_audit: TaskAudit,
    pub sessions: SessionsBlock,
    pub agents: Option<AgentsBlock>,
    pub gateway: Option<GatewayInfo>,
    pub gateway_service: Option<GatewayService>,
    /// The `channelSummary` document, as JSON text.
    pub channel_summary: String,
    pub security_audit: Option<SecurityAudit>,
}

#[derive(Debug, Clone, Default)]
pub struct HeartbeatBlock {
    pub default_agent_id: Option<String>,
    pub agents: Vec<HeartbeatAgent>,
}

#[derive(Debug, Clone, Default)]
pub struct HeartbeatAgent {
    pub agent_id: String,
    pub enabled: bool,
    pub every: Option<String>,
    pub every_ms: Option<u64>,
}

#[derive(Debug, Clone, Default)]
pub struct TasksSummary {
    pub total: u64,
    pub active: u64,
    pub terminal: u64,
    pub failures: u64,
    pub by_status: TasksByStatus,
    pub by_runtime: TasksByRuntime,
}

#[derive(Debug, Clone, Default)]
pub struct TasksByStatus {
    pub queued: u64,
    pub running: u64,
    pub succeeded: u64,
    pub failed: u64,
    pub timed_out: u64,
    pub cancelled: u64,
    pub lost: u64,
}

#[derive(Debug, Clone, Default)]
pub struct TasksByRuntime {
    pub subagent: u64,
    pub acp: u64,
    pub cli: u64,
    pub cron: u64,
}

#[derive(Debug, Clone, Default)]
pub struct TaskAudit {
    pub total: u64,
    pub warnings: u64,
    pub errors: u64,
    pub by_code: TaskAuditByCode,
}

#[derive(Debug, Clone, Default)]
pub struct TaskAuditByCode {
    pub stale_queued: u64,
    pub stale_running: u64,
    pub lost: u64,
    pub delivery_failed: u64,
    pub missing_cleanup: u64,
    pub inconsistent_timestamps: u64,
}

#[derive(Debug, Clone, Default)]
pub struct SessionsBlock {
    pub paths: Vec<String>,
    pub count: u64,
    pub active_minutes: Option<u64>,
    pub recent: Vec<SessionRecent>,
}

#[derive(Debug, Clone, Default)]
pub struct SessionRecent {
    pub agent_id: String,
    pub key: String,
    pub kind: Option<String>,
    pub session_id: Option<String>,
    pub updated_at: i64,
    pub age: i64,
    pub aborted_last_run: bool,
    pub input_tokens: Option<u64>,
    pub output_tokens: Option<u64>,
    pub total_tokens: Option<u64>,
    pub remaining_tokens: Option<u64>,
    pub percent_used: Option<u32>,
    pub model: Option<String>,
    pub context_tokens: Option<u64>,
}

#[derive(Debug, Clone, Default)]
pub struct AgentsBlock {
    pub default_id: Option<String>,
    pub agents: Vec<AgentEntry>,
    pub total_sessions: u64,
    pub bootstrap_pending_count: u64,
}

#[derive(Debug, Clone, Default)]
pub struct AgentEntry {
    pub id: String,
    pub name: Option<String>,
    pub workspace_dir: Option<String>,
    pub bootstrap_pending: bool,
    pub sessions_path: Option<String>,
    pub sessions_count: u64,
    pub last_updated_at: Option<i64>,
    pub last_active_age_ms: Option<i64>,
}

#[derive(Debug, Clone, Default)]
pub struct GatewayInfo {
    pub mode: Option<String>,
    pub url: Option<String>,
    pub url_source: Option<String>,
    pub misconfigured: bool,
    pub reachable: bool,
    pub connect_latency_ms: Option<u64>,
    /// The `self` block.
    pub self_info: Option<GatewaySelf>,
    pub error: Option<String>,
    pub auth_warning: Option<String>,
}

#[derive(Debug, Clone, Default)]
pub struct GatewaySelf {
    pub host: Option<String>,
    pub ip: Option<String>,
    pub version: Option<String>,
    pub platform: Option<String>,
}

#[derive(Debug, Clone, Default)]
pub struct GatewayService {
    pub label: Option<String>,
    pub installed: bool,
    pub loaded: bool,
    pub managed_by_open_claw: bool,
    pub externally_managed: bool,
    pub loaded_text: Option<String>,
    pub runtime: Option<GatewayServiceRuntime>,
    pub runtime_short: Option<String>,
}

#[derive(Debug, Clone, Default)]
pub struct GatewayServiceRuntime {
    pub status: Option<String>,
    pub state: Option<String>,
    pub sub_state: Option<String>,
    pub pid: Option<u32>,
    pub last_exit_status: Option<i32>,
    pub last_exit_reason: Option<String>,
}

#[derive(Debug, Clone, Default)]
pub struct SecurityAudit {
    pub ts: i64,
    pub summary: SecurityAuditSummary,
    /// Each finding, as JSON text.
    pub findings: Vec<String>,
}

#[derive(Debug, Clone, Default)]
pub struct SecurityAuditSummary {
    pub critical: u64,
    pub warn: u64,
    pub info: u64,
}

/// Output of `openclaw tasks list --json`.
#[derive(Debug, Clone, Default)]
pub struct TasksList {
    pub count: u64,
    pub runtime: Option<String>,
    pub status: Option<String>,
    pub tasks: Vec<TaskEntry>,
}

#[derive(Debug, Clone, Default)]
pub struct TaskEntry {
    pub task_id: String,
    pub runtime: String,
    pub source_id: Option<String>,
    pub requester_session_key: Option<String>,
    pub owner_key: Option<String>,
    pub scope_kind: Option<String>,
    pub child_session_key: Option<String>,
    pub parent_flow_id: Option<String>,
    pub run_id: Option<String>,
    pub label: Option<String>,
    pub task: Option<String>,
    pub status: String,
    pub delivery_status: Option<String>,
    pub notify_policy: Option<String>,
    pub created_at: Option<i64>,
    pub started_at: Option<i64>,
    pub ended_at: Option<i64>,
    pub last_event_at: Option<i64>,
    pub cleanup_after: Option<i64>,
    pub progress_summary: Option<String>,
    pub terminal_summary: Option<String>,
    pub error: Option<String>,
}

/// Output of `openclaw gateway probe --json`.
#[derive(Debug, Clone, Default)]
pub struct GatewayProbe {
    pub ok: bool,
    pub degraded: bool,
    pub capability: Option<String>,
    pub ts: Option<i64>,
    pub duration_ms: Option<u64>,
    pub timeout_ms: Option<u64>,
    pub primary_target_id: Option<String>,
    /// Each warning, as JSON text.
    pub warnings: Vec<String>,
}

/// View of an optional string.
pub open spec fn opt_str(o: Option<String>) -> Option<Seq<char>> {
    match o {
        Some(s) => Some(s@),
        None => None,
    }
}

/// Index of the first `':'` of `s` at or after `from`, or `s.len()` when
/// there is none.
pub open spec fn field_end(s: Seq<char>, from: int) -> int
    decreases s.len() - from,
{
    if from < 0 || from >= s.len() {
        s.len() as int
    } else if s[from] == ':' {
        from
    } else {
        field_end(s, from + 1)
    }
}

/// The second `':'`-separated field of `k` (what `k.split(':').nth(1)`
/// yields): present exactly when `k` holds a `':'`.
pub open spec fn second_field(k: Seq<char>) -> Option<Seq<char>> {
    let i = field_end(k, 0);
    if i >= k.len() {
        None
    } else {
        Some(k.subrange(i + 1, field_end(k, i + 1)))
    }
}

/// The session key a task is attributed by: its owner key, else its
/// requester session key, else its child session key.
pub open spec fn task_session_key(t: TaskEntry) -> Option<Seq<char>> {
    if t.owner_key is Some {
        opt_str(t.owner_key)
    } else if t.requester_session_key is Some {
        opt_str(t.requester_session_key)
    } else {
        opt_str(t.child_session_key)
    }
}

/// The agent id of a task, read from its session key (`agent:<id>:...`).
pub open spec fn task_agent_id(t: TaskEntry) -> Option<Seq<char>> {
    match task_session_key(t) {
        Some(k) => second_field(k),
        None => None,
    }
}

/// Whether a string holds no `':'`.
pub open spec fn colon_free(s: Seq<char>) -> bool {
    forall|i: int| 0 <= i < s.len() ==> s[i] != ':'
}

proof fn lemma_field_end_skips(s: Seq<char>, from: int, to: int)
    requires
        0 <= from <= to <= s.len(),
        forall|i: int| from <= i < to ==> s[i] != ':',
    ensures
        field_end(s, from) == field_end(s, to),
    decreases to - from,
{
    if from < to {
        lemma_field_end_skips(s, from + 1, to);
    }
}

/// A session key of the form `<prefix>:<id>:<rest>` or `<prefix>:<id>`,
/// where neither the prefix nor the id holds a `':'`, names the agent `<id>`
/// (the form is `agent:<id>:...`).
pub proof fn law_agent_id_of_session_key(prefix: Seq<char>, id: Seq<char>, rest: Option<Seq<char>>)
    requires
        colon_free(prefix),
        colon_free(id),
    ensures
        second_field(
            match rest {
                Some(r) => prefix + seq![':'] + id + seq![':'] + r,
                None => prefix + seq![':'] + id,
            },
        ) == Some(id),
{
    let k = match rest {
        Some(r) => prefix + seq![':'] + id + seq![':'] + r,
        None => prefix + seq![':'] + id,
    };
    let p = prefix.len() as int;
    let e = p + 1 + id.len();
    lemma_field_end_skips(k, 0, p);
    assert(k[p] == ':');
    lemma_field_end_skips(k, p + 1, e);
    assert(field_end(k, e) == e) by {
        if e < k.len() {
            assert(k[e] == ':');
        }
    }
    assert(k.subrange(p + 1, e) =~= id);
}

/// A task is attributed by its owner key when it has one, whatever its
/// other keys hold; otherwise by its requester session key; otherwise by its
/// child session key; a task with none of them is attributed to no agent.
pub proof fn law_agent_id_key_precedence(t: TaskEntry)
    ensures
        t.owner_key matches Some(k) ==> task_agent_id(t) == second_field(k@),
        t.owner_key is None ==> (t.requester_session_key matches Some(k) ==> task_agent_id(t)
            == second_field(k@)),
        t.owner_key is None && t.requester_session_key is None ==> (t.child_session_key matches Some(
            k,
        ) ==> task_agent_id(t) == second_field(k@)),
        t.owner_key is None && t.requester_session_key is None && t.child_session_key is None
            ==> task_agent_id(t) is None,
{
}

/// The agent id read from a key is the text between its first and its
/// second `':'` (or its end): it holds no `':'`, and the key is made of a
/// `':'`-free prefix, a `':'`, the id, then nothing or a `':'`. A key without
/// `':'` names no agent.
pub proof fn law_second_field_shape(k: Seq<char>)
    ensures
        second_field(k) matches Some(id) ==> exists|p: int|
            0 <= p && p + 1 + id.len() <= k.len() && colon_free(k.subrange(0, p)) && k[p] == ':'
                && k.subrange(p + 1, p + 1 + id.len()) == id && colon_free(id) && (p + 1 + id.len()
                == k.len() || k[p + 1 + id.len()] == ':'),
        second_field(k) is None <==> colon_free(k),
{
    lemma_field_end_facts(k, 0);
    let i = field_end(k, 0);
    if i < k.len() {
        lemma_field_end_facts(k, i + 1);
        let j = field_end(k, i + 1);
        let id = k.subrange(i + 1, j);
        assert(k.subrange(0, i) =~= k.subrange(0, i));
        assert(colon_free(k.subrange(0, i)));
        assert(colon_free(id));
        assert(k.subrange(i + 1, i + 1 + id.len()) =~= id);
        assert(!colon_free(k));
    } else {
        assert(colon_free(k));
    }
}

proof fn lemma_field_end_facts(s: Seq<char>, from: int)
    requires
        0 <= from <= s.len(),
    ensures
        from <= field_end(s, from) <= s.len(),
        forall|j: int| from <= j < field_end(s, from) ==> s[j] != ':',
        field_end(s, from) < s.len() ==> s[field_end(s, from)] == ':',
    decreases s.len() - from,
{
    if from < s.len() && s[from] != ':' {
        lemma_field_end_facts(s, from + 1);
    }
}

/// Index of the first `':'` of `s` at or after `from`, or its length.
fn find_colon(s: &str, len: usize, from: usize) -> (r: usize)
    requires
        len == s@.len(),
        from <= len,
    ensures
        r == field_end(s@, from as int),
        from <= r <= len,
{
    let mut i = from;
    while i < len
        invariant
            len == s@.len(),
            from <= i <= len,
            field_end(s@, from as int) == field_end(s@, i as int),
        decreases len - i,
    {
        if s.get_char(i) == ':' {
            return i;
        }
        i = i + 1;
    }
    i
}

impl TaskEntry {
    /// The agent id deduced from the task's session key (`agent:<id>:...`).
    pub fn agent_id_hint(&self) -> (r: Option<&str>)
        ensures
            r matches Some(s) ==> task_agent_id(*self) == Some(s@),
            r is None ==> task_agent_id(*self) is None,
    {
        let key: &String = match &self.owner_key {
            Some(k) => k,
            None => match &self.requester_session_key {
                Some(k) => k,
                None => match &self.child_session_key {
                    Some(k) => k,
                    None => {
                        return None;
                    },
                },
            },
        };
        let k = key.as_str();
        let len = k.unicode_len();
        let i = find_colon(k, len, 0);
        if i == len {
            None
        } else {
            let j = find_colon(k, len, i + 1);
            Some(k.substring_char(i + 1, j))
        }
    }
}

} // verus!
