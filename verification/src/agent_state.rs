//! Agent and gateway status heuristic.
//!
//! Colours, as shown next to each agent (see [`classification`] for the
//! order in which they are decided):
//! - **Gray**: the agent is disabled and has no session.
//! - **Red**: a task of the agent looks stuck (the task audit reports stale
//!   running tasks while the agent runs nothing and has been idle for more
//!   than a minute), or its last run was aborted.
//! - **Orange**: a task of this agent is running (subagent/cli/cron/acp).
//! - **Gray**: no activity of the agent is known, or it has been idle for
//!   more than an hour.
//! - **Green**: otherwise.

use vstd::prelude::*;

use crate::models::{
    opt_str, task_agent_id, HeartbeatAgent, SessionRecent, StatusAll, TaskEntry, TasksList,
};
use crate::text::{decimal, str_eq, u64_to_decimal};

verus! {

/// Colour of an agent.
#[derive(Debug, Clone, Copy, PartialEq, Eq, Structural)]
pub enum Status {
    Green,
    Orange,
    Red,
    Gray,
}

/// Lower-case name of a status.
pub open spec fn status_name(s: Status) -> Seq<char> {
    match s {
        Status::Green => "green"@,
        Status::Orange => "orange"@,
        Status::Red => "red"@,
        Status::Gray => "gray"@,
    }
}

impl Status {
    pub fn as_str(self) -> (r: &'static str)
        ensures
            r@ == status_name(self),
    {
        match self {
            Status::Green => "green",
            Status::Orange => "orange",
            Status::Red => "red",
            Status::Gray => "gray",
        }
    }
}

/// Global state of the gateway, for the header banner.
#[derive(Debug, Clone, Copy, PartialEq, Eq, Structural)]
pub enum GatewayState {
    Up,
    Down,
    Unknown,
}

/// Lower-case name of a gateway state.
pub open spec fn gateway_state_name(s: GatewayState) -> Seq<char> {
    match s {
        GatewayState::Up => "up"@,
        GatewayState::Down => "down"@,
        GatewayState::Unknown => "unknown"@,
    }
}

impl GatewayState {
    pub fn as_str(self) -> (r: &'static str)
        ensures
            r@ == gateway_state_name(self),
    {
        match self {
            GatewayState::Up => "up",
            GatewayState::Down => "down",
            GatewayState::Unknown => "unknown",
        }
    }
}

/// Each colour and each gateway state has a name of its own: two different
/// ones are never shown alike.
pub proof fn law_names_distinct(s1: Status, s2: Status, g1: GatewayState, g2: GatewayState)
    ensures
        s1 != s2 ==> status_name(s1) != status_name(s2),
        g1 != g2 ==> gateway_state_name(g1) != gateway_state_name(g2),
{
    reveal_strlit("green");
    reveal_strlit("orange");
    reveal_strlit("red");
    reveal_strlit("gray");
    reveal_strlit("up");
    reveal_strlit("down");
    reveal_strlit("unknown");
    if s1 != s2 {
        assert(status_name(s1).len() != status_name(s2).len());
    }
    if g1 != g2 {
        assert(gateway_state_name(g1).len() != gateway_state_name(g2).len());
    }
}

/// Status of one agent, ready to be displayed.
#[derive(Debug, Clone)]
pub struct AgentStatus {
    pub id: String,
    pub name: String,
    pub model: Option<String>,
    pub status: Status,
    /// Short explanation (e.g. "tâche en cours", "session annulée").
    pub note: String,
    /// Age of the latest activity, in milliseconds, when known.
    pub last_active_age_ms: Option<i64>,
    pub sessions_count: u64,
    pub running_tasks: u32,
}

/// Mathematical value of an [`AgentStatus`].
pub struct AgentView {
    pub id: Seq<char>,
    pub name: Seq<char>,
    pub model: Option<Seq<char>>,
    pub status: Status,
    pub note: Seq<char>,
    pub last_active_age_ms: Option<i64>,
    pub sessions_count: u64,
    pub running_tasks: nat,
}

impl View for AgentStatus {
    type V = AgentView;

    open spec fn view(&self) -> AgentView {
        AgentView {
            id: self.id@,
            name: self.name@,
            model: opt_str(self.model),
            status: self.status,
            note: self.note@,
            last_active_age_ms: self.last_active_age_ms,
            sessions_count: self.sessions_count,
            running_tasks: self.running_tasks as nat,
        }
    }
}

/// Full snapshot pushed to the display at each polling tick.
#[derive(Debug, Clone)]
pub struct StatusSnapshot {
    pub gateway: GatewayState,
    pub gateway_runtime_short: Option<String>,
    pub agents: Vec<AgentStatus>,
    pub total_running_tasks: u64,
    pub total_failures: u64,
    pub stale_running: u64,
}

/// Minutes in an age given in milliseconds, rounded toward zero.
pub open spec fn age_minutes(ms: i64) -> int {
    if ms >= 0 {
        ms as int / 60_000
    } else {
        -((-(ms as int)) / 60_000)
    }
}

/// Colour and note of an agent, by order of precedence: disabled and
/// sessionless, stale running task, aborted last run, running tasks, no known
/// activity, idle for more than an hour, ok.
pub open spec fn classification(
    enabled: bool,
    sessions_count: u64,
    last_age_ms: Option<i64>,
    aborted: bool,
    running_tasks: nat,
    stale_running: bool,
) -> (Status, Seq<char>) {
    if !enabled && sessions_count == 0 {
        (Status::Gray, "désactivé"@)
    } else if stale_running {
        (Status::Red, "tâche bloquée détectée"@)
    } else if aborted {
        (Status::Red, "session annulée"@)
    } else if running_tasks > 0 {
        (
            Status::Orange,
            if running_tasks == 1 {
                "tâche en cours"@
            } else {
                decimal(running_tasks) + " tâches en cours"@
            },
        )
    } else {
        match last_age_ms {
            None => (Status::Gray, "aucune activité connue"@),
            Some(m) => if age_minutes(m) > 60 {
                (Status::Gray, "inactif depuis "@ + decimal(age_minutes(m) as nat) + " min"@)
            } else {
                (Status::Green, "ok"@)
            },
        }
    }
}

/// The meaning of the colours: Gray for a disabled agent without sessions,
/// Red for a stale running task or an aborted last run, Orange for running
/// tasks, Gray again for an agent with no known activity or idle for more
/// than an hour, Green otherwise.
pub proof fn law_colours(
    enabled: bool,
    sessions_count: u64,
    last_age_ms: Option<i64>,
    aborted: bool,
    running_tasks: nat,
    stale_running: bool,
)
    ensures
        ({
            let c = classification(
                enabled,
                sessions_count,
                last_age_ms,
                aborted,
                running_tasks,
                stale_running,
            ).0;
            let live = enabled || sessions_count > 0;
            let idle = match last_age_ms {
                None => true,
                Some(m) => age_minutes(m) > 60,
            };
            &&& c == Status::Red <==> live && (stale_running || aborted)
            &&& c == Status::Orange <==> live && !stale_running && !aborted && running_tasks > 0
            &&& c == Status::Green <==> live && !stale_running && !aborted && running_tasks == 0
                && !idle
            &&& c == Status::Gray <==> !live || (!stale_running && !aborted && running_tasks == 0
                && idle)
        }),
{
}

/// The note says why an agent has its colour: `désactivé` for a disabled
/// agent without sessions, `tâche bloquée détectée` for a stale running
/// task, `session annulée` for an aborted last run, the number of running
/// tasks, `aucune activité connue` without any activity, and after more than
/// an hour of idleness the whole minutes elapsed; otherwise `ok`.
pub proof fn law_notes(
    enabled: bool,
    sessions_count: u64,
    last_age_ms: Option<i64>,
    aborted: bool,
    running_tasks: nat,
    stale_running: bool,
    n: nat,
)
    ensures
        ({
            let note = classification(
                enabled,
                sessions_count,
                last_age_ms,
                aborted,
                running_tasks,
                stale_running,
            ).1;
            let live = enabled || sessions_count > 0;
            let busy = live && !stale_running && !aborted;
            &&& !live ==> note == "désactivé"@
            &&& live && stale_running ==> note == "tâche bloquée détectée"@
            &&& live && !stale_running && aborted ==> note == "session annulée"@
            &&& busy && running_tasks == 1 ==> note == "tâche en cours"@
            &&& busy && running_tasks == n && n >= 2 ==> note == decimal(n) + " tâches en cours"@
            &&& busy && running_tasks == 0 && last_age_ms is None ==> note
                == "aucune activité connue"@
            &&& busy && running_tasks == 0 && (last_age_ms matches Some(m) && n * 60_000 <= m < n
                * 60_000 + 60_000 && n > 60) ==> note == "inactif depuis "@ + decimal(n) + " min"@
            &&& busy && running_tasks == 0 && (last_age_ms matches Some(m) && m < 61 * 60_000)
                ==> note == "ok"@
        }),
{
    if let Some(m) = last_age_ms {
        let mi = m as int;
        if n * 60_000 <= mi < n * 60_000 + 60_000 {
            vstd::arithmetic::div_mod::lemma_fundamental_div_mod_converse(mi, 60_000, n as int, mi - n * 60_000);
        }
        if 0 <= mi < 61 * 60_000 {
            assert(mi / 60_000 <= 60);
        }
    }
}

/// Decides the colour and the note of an agent.
pub fn classify(
    enabled: bool,
    sessions_count: u64,
    last_age_ms: Option<i64>,
    aborted: bool,
    running_tasks: u32,
    stale_running: bool,
) -> (r: (Status, String))
    ensures
        (r.0, r.1@) == classification(
            enabled,
            sessions_count,
            last_age_ms,
            aborted,
            running_tasks as nat,
            stale_running,
        ),
{
    if !enabled && sessions_count == 0 {
        return (Status::Gray, String::from_str("désactivé"));
    }
    if stale_running {
        return (Status::Red, String::from_str("tâche bloquée détectée"));
    }
    if aborted {
        return (Status::Red, String::from_str("session annulée"));
    }
    if running_tasks > 0 {
        if running_tasks == 1 {
            return (Status::Orange, String::from_str("tâche en cours"));
        }
        let mut note = u64_to_decimal(running_tasks as u64);
        note.append(" tâches en cours");
        return (Status::Orange, note);
    }
    match last_age_ms {
        None => (Status::Gray, String::from_str("aucune activité connue")),
        Some(m) => {
            if m > 0 && m as u64 / 60_000 > 60 {
                let mins: u64 = m as u64 / 60_000;
                let mut note = String::from_str("inactif depuis ");
                note.append(u64_to_decimal(mins).as_str());
                note.append(" min");
                (Status::Gray, note)
            } else {
                (Status::Green, String::from_str("ok"))
            }
        },
    }
}

/// Whether a task is running on behalf of agent `id`.
pub open spec fn runs_for(t: TaskEntry, id: Seq<char>) -> bool {
    t.status@ == "running"@ && task_agent_id(t) == Some(id)
}

/// Number of running tasks of agent `id`.
pub open spec fn running_count(tasks: Seq<TaskEntry>, id: Seq<char>) -> nat
    decreases tasks.len(),
{
    if tasks.len() == 0 {
        0
    } else {
        running_count(tasks.drop_last(), id) + if runs_for(tasks.last(), id) {
            1nat
        } else {
            0nat
        }
    }
}

/// Number of running tasks of agent `id` in an optional task list.
pub open spec fn running_for(running: Option<TasksList>, id: Seq<char>) -> nat {
    match running {
        Some(tl) => running_count(tl.tasks@, id),
        None => 0,
    }
}

/// Whether some recent session of agent `id` aborted its last run.
pub open spec fn aborted_in(sessions: Seq<SessionRecent>, id: Seq<char>) -> bool
    decreases sessions.len(),
{
    if sessions.len() == 0 {
        false
    } else {
        aborted_in(sessions.drop_last(), id) || (sessions.last().agent_id@ == id
            && sessions.last().aborted_last_run)
    }
}

/// Smallest age among the recent sessions of agent `id`.
pub open spec fn min_age(sessions: Seq<SessionRecent>, id: Seq<char>) -> Option<i64>
    decreases sessions.len(),
{
    if sessions.len() == 0 {
        None
    } else {
        let before = min_age(sessions.drop_last(), id);
        let s = sessions.last();
        if s.agent_id@ == id {
            match before {
                None => Some(s.age),
                Some(a) => Some(if s.age < a { s.age } else { a }),
            }
        } else {
            before
        }
    }
}

/// Model of the first recent session of agent `id` that names one.
pub open spec fn first_model(sessions: Seq<SessionRecent>, id: Seq<char>) -> Option<Seq<char>>
    decreases sessions.len(),
{
    if sessions.len() == 0 {
        None
    } else {
        let before = first_model(sessions.drop_last(), id);
        let s = sessions.last();
        if before is Some {
            before
        } else if s.agent_id@ == id && s.model is Some {
            opt_str(s.model)
        } else {
            None
        }
    }
}

/// `enabled` flag of the first heartbeat entry of agent `id`, if any.
pub open spec fn heartbeat_flag(hb: Seq<HeartbeatAgent>, id: Seq<char>) -> Option<bool>
    decreases hb.len(),
{
    if hb.len() == 0 {
        None
    } else {
        let before = heartbeat_flag(hb.drop_last(), id);
        if before is Some {
            before
        } else if hb.last().agent_id@ == id {
            Some(hb.last().enabled)
        } else {
            None
        }
    }
}

/// Whether agent `id` is enabled: its heartbeat flag, enabled when absent.
pub open spec fn heartbeat_enabled(hb: Seq<HeartbeatAgent>, id: Seq<char>) -> bool {
    match heartbeat_flag(hb, id) {
        Some(b) => b,
        None => true,
    }
}

/// What the display shows of an agent listed in the `agents` block.
pub open spec fn agent_from_entry(
    status: StatusAll,
    running: Option<TasksList>,
    a: crate::models::AgentEntry,
) -> AgentView {
    let id = a.id@;
    let sessions = status.sessions.recent@;
    let last_age = if a.last_active_age_ms is Some {
        a.last_active_age_ms
    } else {
        min_age(sessions, id)
    };
    let n = running_for(running, id);
    let stale = status.task_audit.by_code.stale_running > 0 && n == 0 && match last_age {
        Some(m) => m > 60_000,
        None => false,
    };
    let c = classification(
        heartbeat_enabled(status.heartbeat.agents@, id),
        a.sessions_count,
        last_age,
        aborted_in(sessions, id),
        n,
        stale,
    );
    AgentView {
        id,
        name: match a.name {
            Some(nm) => nm@,
            None => id,
        },
        model: first_model(sessions, id),
        status: c.0,
        note: c.1,
        last_active_age_ms: last_age,
        sessions_count: a.sessions_count,
        running_tasks: n,
    }
}

/// What the display shows of an agent known only from the heartbeat block
/// (gateway down).
pub open spec fn agent_from_heartbeat(
    status: StatusAll,
    running: Option<TasksList>,
    h: HeartbeatAgent,
) -> AgentView {
    let id = h.agent_id@;
    let sessions = status.sessions.recent@;
    let last_age = min_age(sessions, id);
    let n = running_for(running, id);
    let c = classification(h.enabled, 0, last_age, aborted_in(sessions, id), n, false);
    AgentView {
        id,
        name: id,
        model: first_model(sessions, id),
        status: c.0,
        note: c.1,
        last_active_age_ms: last_age,
        sessions_count: 0,
        running_tasks: n,
    }
}

/// Gateway state read from the `gateway` block.
pub open spec fn gateway_state_of(status: StatusAll) -> GatewayState {
    match status.gateway {
        Some(g) => if g.reachable {
            GatewayState::Up
        } else {
            GatewayState::Down
        },
        None => GatewayState::Unknown,
    }
}

/// Short runtime description of the gateway service.
pub open spec fn runtime_short_of(status: StatusAll) -> Option<Seq<char>> {
    match status.gateway_service {
        Some(gs) => opt_str(gs.runtime_short),
        None => None,
    }
}

/// An optional borrowed task list, by value.
pub open spec fn opt_tasks(running: Option<&TasksList>) -> Option<TasksList> {
    match running {
        Some(t) => Some(*t),
        None => None,
    }
}

/// The task lists `build_snapshot` accepts: one whose running tasks can be
/// counted in a `u32`.
pub open spec fn countable(running: Option<&TasksList>) -> bool {
    match running {
        Some(t) => t.tasks@.len() <= u32::MAX,
        None => true,
    }
}

/// What `build_snapshot` gives for a status and an optional list of running
/// tasks: the gateway state, the counters, and one entry per agent, in the
/// order of the `agents` block when there is one, of the heartbeat block
/// otherwise.
pub open spec fn snapshot_of(snap: StatusSnapshot, status: StatusAll, running: Option<TasksList>) -> bool {
    &&& snap.gateway == gateway_state_of(status)
    &&& opt_str(snap.gateway_runtime_short) == runtime_short_of(status)
    &&& snap.total_running_tasks == status.tasks.by_status.running
    &&& snap.total_failures == status.tasks.by_status.failed + status.tasks.by_status.timed_out
    &&& snap.stale_running == status.task_audit.by_code.stale_running
    &&& match status.agents {
        Some(ab) => {
            &&& snap.agents@.len() == ab.agents@.len()
            &&& forall|i: int|
                0 <= i < ab.agents@.len() ==> #[trigger] snap.agents@[i]@ == agent_from_entry(
                    status,
                    running,
                    ab.agents@[i],
                )
        },
        None => {
            &&& snap.agents@.len() == status.heartbeat.agents@.len()
            &&& forall|i: int|
                0 <= i < status.heartbeat.agents@.len() ==> #[trigger] snap.agents@[i]@
                    == agent_from_heartbeat(status, running, status.heartbeat.agents@[i])
        },
    }
}

fn running_tasks_for(running: Option<&TasksList>, id: &str) -> (r: u32)
    requires
        countable(running),
    ensures
        r as nat == running_for(opt_tasks(running), id@),
{
    let tl = match running {
        Some(t) => t,
        None => {
            return 0;
        },
    };
    let tasks = &tl.tasks;
    let len = tasks.len();
    let mut n: u32 = 0;
    let mut i: usize = 0;
    while i < len
        invariant
            len == tasks@.len(),
            len <= u32::MAX,
            i <= len,
            n <= i,
            n as nat == running_count(tasks@.take(i as int), id@),
        decreases len - i,
    {
        let t = &tasks[i];
        let mut hit = false;
        if str_eq(t.status.as_str(), "running") {
            match t.agent_id_hint() {
                Some(h) => {
                    hit = str_eq(h, id);
                },
                None => {},
            }
        }
        assert(tasks@.take(i + 1).drop_last() =~= tasks@.take(i as int));
        assert(hit == runs_for(tasks@.take(i + 1).last(), id@));
        if hit {
            n = n + 1;
        }
        i = i + 1;
    }
    assert(tasks@.take(len as int) =~= tasks@);
    n
}

fn session_facts(sessions: &Vec<SessionRecent>, id: &str) -> (r: (bool, Option<i64>, Option<String>))
    ensures
        r.0 == aborted_in(sessions@, id@),
        r.1 == min_age(sessions@, id@),
        opt_str(r.2) == first_model(sessions@, id@),
{
    let len = sessions.len();
    let mut aborted = false;
    let mut best: Option<i64> = None;
    let mut model: Option<String> = None;
    let mut i: usize = 0;
    while i < len
        invariant
            len == sessions@.len(),
            i <= len,
            aborted == aborted_in(sessions@.take(i as int), id@),
            best == min_age(sessions@.take(i as int), id@),
            opt_str(model) == first_model(sessions@.take(i as int), id@),
        decreases len - i,
    {
        let s = &sessions[i];
        assert(sessions@.take(i + 1).drop_last() =~= sessions@.take(i as int));
        if str_eq(s.agent_id.as_str(), id) {
            if s.aborted_last_run {
                aborted = true;
            }
            best = match best {
                None => Some(s.age),
                Some(a) => Some(if s.age < a { s.age } else { a }),
            };
            if model.is_none() {
                match &s.model {
                    Some(m) => {
                        model = Some(m.clone());
                    },
                    None => {},
                }
            }
        }
        i = i + 1;
    }
    assert(sessions@.take(len as int) =~= sessions@);
    (aborted, best, model)
}

fn heartbeat_enabled_for(hb: &Vec<HeartbeatAgent>, id: &str) -> (r: bool)
    ensures
        r == heartbeat_enabled(hb@, id@),
{
    let len = hb.len();
    let mut i: usize = 0;
    while i < len
        invariant
            len == hb@.len(),
            i <= len,
            heartbeat_flag(hb@.take(i as int), id@) is None,
        decreases len - i,
    {
        assert(hb@.take(i + 1).drop_last() =~= hb@.take(i as int));
        if str_eq(hb[i].agent_id.as_str(), id) {
            proof {
                lemma_flag_prefix(hb@, id@, i as int + 1);
            }
            return hb[i].enabled;
        }
        i = i + 1;
    }
    assert(hb@.take(len as int) =~= hb@);
    true
}

/// Once the flag of a prefix is known, longer prefixes keep it.
proof fn lemma_flag_prefix(hb: Seq<HeartbeatAgent>, id: Seq<char>, k: int)
    requires
        0 <= k <= hb.len(),
        heartbeat_flag(hb.take(k), id) is Some,
    ensures
        heartbeat_flag(hb, id) == heartbeat_flag(hb.take(k), id),
    decreases hb.len() - k,
{
    if k < hb.len() {
        assert(hb.take(k + 1).drop_last() =~= hb.take(k));
        lemma_flag_prefix(hb, id, k + 1);
    } else {
        assert(hb.take(k) =~= hb);
    }
}

/// Combines `status --all` and, when available, the list of running tasks
/// into a snapshot.
pub fn build_snapshot(status: &StatusAll, running_tasks: Option<&TasksList>) -> (snap:
    StatusSnapshot)
    requires
        countable(running_tasks),
        status.tasks.by_status.failed + status.tasks.by_status.timed_out <= u64::MAX,
    ensures
        snapshot_of(snap, *status, opt_tasks(running_tasks)),
{
    let mut agents: Vec<AgentStatus> = Vec::new();
    match &status.agents {
        Some(ab) => {
            let len = ab.agents.len();
            let mut i: usize = 0;
            while i < len
                invariant
                    len == ab.agents@.len(),
                    i <= len,
                    countable(running_tasks),
                    agents@.len() == i,
                    forall|j: int|
                        0 <= j < i ==> #[trigger] agents@[j]@ == agent_from_entry(
                            *status,
                            opt_tasks(running_tasks),
                            ab.agents@[j],
                        ),
                decreases len - i,
            {
                let a = &ab.agents[i];
                let id = a.id.as_str();
                let (aborted, age, model) = session_facts(&status.sessions.recent, id);
                let last_age = match a.last_active_age_ms {
                    Some(m) => Some(m),
                    None => age,
                };
                let running = running_tasks_for(running_tasks, id);
                let stale_for_agent = status.task_audit.by_code.stale_running > 0 && running == 0
                    && match last_age {
                    Some(m) => m > 60_000,
                    None => false,
                };
                let enabled = heartbeat_enabled_for(&status.heartbeat.agents, id);
                let (colour, note) = classify(
                    enabled,
                    a.sessions_count,
                    last_age,
                    aborted,
                    running,
                    stale_for_agent,
                );
                let name = match &a.name {
                    Some(n) => n.clone(),
                    None => a.id.clone(),
                };
                let entry = AgentStatus {
                    id: a.id.clone(),
                    name,
                    model,
                    status: colour,
                    note,
                    last_active_age_ms: last_age,
                    sessions_count: a.sessions_count,
                    running_tasks: running,
                };
                agents.push(entry);
                i = i + 1;
            }
        },
        None => {
            let hb = &status.heartbeat.agents;
            let len = hb.len();
            let mut i: usize = 0;
            while i < len
                invariant
                    len == hb@.len(),
                    i <= len,
                    countable(running_tasks),
                    agents@.len() == i,
                    forall|j: int|
                        0 <= j < i ==> #[trigger] agents@[j]@ == agent_from_heartbeat(
                            *status,
                            opt_tasks(running_tasks),
                            hb@[j],
                        ),
                decreases len - i,
            {
                let h = &hb[i];
                let id = h.agent_id.as_str();
                let (aborted, last_age, model) = session_facts(&status.sessions.recent, id);
                let running = running_tasks_for(running_tasks, id);
                let (colour, note) = classify(h.enabled, 0, last_age, aborted, running, false);
                let entry = AgentStatus {
                    id: h.agent_id.clone(),
                    name: h.agent_id.clone(),
                    model,
                    status: colour,
                    note,
                    last_active_age_ms: last_age,
                    sessions_count: 0,
                    running_tasks: running,
                };
                agents.push(entry);
                i = i + 1;
            }
        },
    }
    let gateway = match &status.gateway {
        Some(g) => if g.reachable {
            GatewayState::Up
        } else {
            GatewayState::Down
        },
        None => GatewayState::Unknown,
    };
    let gateway_runtime_short = match &status.gateway_service {
        Some(gs) => match &gs.runtime_short {
            Some(r) => Some(r.clone()),
            None => None,
        },
        None => None,
    };
    StatusSnapshot {
        gateway,
        gateway_runtime_short,
        agents,
        total_running_tasks: status.tasks.by_status.running,
        total_failures: status.tasks.by_status.failed + status.tasks.by_status.timed_out,
        stale_running: status.task_audit.by_code.stale_running,
    }
}

/// A session aborted its last run for agent `id` exactly when some recent
/// session of that agent says so.
pub proof fn law_aborted_iff_some_session(sessions: Seq<SessionRecent>, id: Seq<char>)
    ensures
        aborted_in(sessions, id) <==> exists|i: int|
            0 <= i < sessions.len() && (#[trigger] sessions[i]).agent_id@ == id
                && sessions[i].aborted_last_run,
    decreases sessions.len(),
{
    if sessions.len() > 0 {
        let init = sessions.drop_last();
        law_aborted_iff_some_session(init, id);
        if aborted_in(sessions, id) {
            if aborted_in(init, id) {
                let i = choose|i: int|
                    0 <= i < init.len() && (#[trigger] init[i]).agent_id@ == id
                        && init[i].aborted_last_run;
                assert(sessions[i] == init[i]);
            } else {
                assert(sessions[sessions.len() - 1] == sessions.last());
            }
        } else {
            assert forall|i: int| 0 <= i < sessions.len() implies !((#[trigger] sessions[i]).agent_id@
                == id && sessions[i].aborted_last_run) by {
                if i < sessions.len() - 1 {
                    assert(sessions[i] == init[i]);
                }
            }
        }
    }
}

/// The last activity of an agent read from its sessions is the smallest age
/// among them: no session of the agent is younger, one of them has that age,
/// and it is unknown exactly when the agent has no session.
pub proof fn law_min_age_is_youngest_session(sessions: Seq<SessionRecent>, id: Seq<char>)
    ensures
        forall|i: int|
            0 <= i < sessions.len() && (#[trigger] sessions[i]).agent_id@ == id ==> (min_age(
                sessions,
                id,
            ) matches Some(m) && m <= sessions[i].age),
        min_age(sessions, id) matches Some(m) ==> exists|i: int|
            0 <= i < sessions.len() && (#[trigger] sessions[i]).agent_id@ == id && sessions[i].age
                == m,
        min_age(sessions, id) is None ==> forall|i: int|
            0 <= i < sessions.len() ==> (#[trigger] sessions[i]).agent_id@ != id,
    decreases sessions.len(),
{
    if sessions.len() > 0 {
        let init = sessions.drop_last();
        law_min_age_is_youngest_session(init, id);
        assert forall|i: int| 0 <= i < sessions.len() - 1 implies sessions[i] == init[i] by {}
        if let Some(m) = min_age(sessions, id) {
            if sessions.last().agent_id@ == id && (min_age(init, id) is None || m == sessions.last().age) {
                assert(sessions[sessions.len() - 1] == sessions.last());
            } else {
                let i = choose|i: int|
                    0 <= i < init.len() && (#[trigger] init[i]).agent_id@ == id && init[i].age == m;
                assert(sessions[i] == init[i]);
            }
        }
    }
}

/// The model of an agent is that of the first recent session of the agent
/// that names one; there is none exactly when no session of the agent names
/// a model.
pub proof fn law_model_is_first_named(sessions: Seq<SessionRecent>, id: Seq<char>)
    ensures
        first_model(sessions, id) matches Some(m) ==> exists|i: int|
            0 <= i < sessions.len() && (#[trigger] sessions[i]).agent_id@ == id && opt_str(
                sessions[i].model,
            ) == Some(m) && forall|j: int|
                0 <= j < i ==> !((#[trigger] sessions[j]).agent_id@ == id && sessions[j].model is Some),
        first_model(sessions, id) is None ==> forall|i: int|
            0 <= i < sessions.len() ==> !((#[trigger] sessions[i]).agent_id@ == id
                && sessions[i].model is Some),
    decreases sessions.len(),
{
    if sessions.len() > 0 {
        let init = sessions.drop_last();
        law_model_is_first_named(init, id);
        assert forall|i: int| 0 <= i < sessions.len() - 1 implies sessions[i] == init[i] by {}
        if let Some(m) = first_model(sessions, id) {
            if first_model(init, id) is None {
                assert(sessions[sessions.len() - 1] == sessions.last());
            } else {
                let i = choose|i: int|
                    0 <= i < init.len() && (#[trigger] init[i]).agent_id@ == id && opt_str(
                        init[i].model,
                    ) == Some(m) && forall|j: int|
                        0 <= j < i ==> !((#[trigger] init[j]).agent_id@ == id && init[j].model is Some);
                assert(sessions[i] == init[i]);
                assert forall|j: int| 0 <= j < i implies !((#[trigger] sessions[j]).agent_id@ == id
                    && sessions[j].model is Some) by {
                    assert(sessions[j] == init[j]);
                }
            }
        }
    }
}

/// An agent counts no running task exactly when none of the tasks runs on
/// its behalf, and never counts more tasks than the list holds.
pub proof fn law_running_count_counts(tasks: Seq<TaskEntry>, id: Seq<char>)
    ensures
        running_count(tasks, id) <= tasks.len(),
        running_count(tasks, id) == 0 <==> forall|i: int|
            0 <= i < tasks.len() ==> !runs_for(#[trigger] tasks[i], id),
    decreases tasks.len(),
{
    if tasks.len() > 0 {
        let init = tasks.drop_last();
        law_running_count_counts(init, id);
        assert forall|i: int| 0 <= i < tasks.len() - 1 implies tasks[i] == init[i] by {}
        if running_count(tasks, id) == 0 {
            assert forall|i: int| 0 <= i < tasks.len() implies !runs_for(#[trigger] tasks[i], id) by {
                if i == tasks.len() - 1 {
                    assert(tasks[i] == tasks.last());
                }
            }
        } else {
            if running_count(init, id) == 0 {
                assert(runs_for(tasks[tasks.len() - 1], id));
            } else {
                let k = choose|k: int| 0 <= k < init.len() && runs_for(#[trigger] init[k], id);
                assert(runs_for(tasks[k], id));
            }
        }
    }
}

/// Whether an agent is enabled is the flag of its first heartbeat entry; an
/// agent without one counts as enabled.
pub proof fn law_enabled_is_first_heartbeat(hb: Seq<HeartbeatAgent>, id: Seq<char>)
    ensures
        forall|i: int|
            0 <= i < hb.len() && (#[trigger] hb[i]).agent_id@ == id && (forall|j: int|
                0 <= j < i ==> (#[trigger] hb[j]).agent_id@ != id) ==> heartbeat_enabled(hb, id)
                == hb[i].enabled,
        (forall|i: int| 0 <= i < hb.len() ==> (#[trigger] hb[i]).agent_id@ != id)
            ==> heartbeat_enabled(hb, id),
    decreases hb.len(),
{
    if hb.len() > 0 {
        let init = hb.drop_last();
        law_enabled_is_first_heartbeat(init, id);
        assert forall|i: int| 0 <= i < hb.len() - 1 implies hb[i] == init[i] by {}
        assert forall|i: int|
            0 <= i < hb.len() && (#[trigger] hb[i]).agent_id@ == id && (forall|j: int|
                0 <= j < i ==> (#[trigger] hb[j]).agent_id@ != id) implies heartbeat_enabled(hb, id)
            == hb[i].enabled by {
            if i < hb.len() - 1 {
                assert(init[i] == hb[i]);
                assert forall|j: int| 0 <= j < i implies (#[trigger] init[j]).agent_id@ != id by {
                    assert(init[j] == hb[j]);
                }
                lemma_flag_some(init, id, i);
            } else {
                assert forall|j: int| 0 <= j < init.len() implies (#[trigger] init[j]).agent_id@ != id by {
                    assert(init[j] == hb[j]);
                }
                lemma_flag_none(init, id);
                assert(hb.last() == hb[i]);
            }
        }
        if forall|i: int| 0 <= i < hb.len() ==> (#[trigger] hb[i]).agent_id@ != id {
            assert forall|j: int| 0 <= j < init.len() implies (#[trigger] init[j]).agent_id@ != id by {
                assert(init[j] == hb[j]);
            }
            lemma_flag_none(init, id);
            assert(hb.last() == hb[hb.len() - 1]);
        }
    }
}

proof fn lemma_flag_none(hb: Seq<HeartbeatAgent>, id: Seq<char>)
    requires
        forall|i: int| 0 <= i < hb.len() ==> (#[trigger] hb[i]).agent_id@ != id,
    ensures
        heartbeat_flag(hb, id) is None,
    decreases hb.len(),
{
    if hb.len() > 0 {
        let init = hb.drop_last();
        assert forall|j: int| 0 <= j < init.len() implies (#[trigger] init[j]).agent_id@ != id by {
            assert(init[j] == hb[j]);
        }
        lemma_flag_none(init, id);
        assert(hb.last() == hb[hb.len() - 1]);
    }
}

proof fn lemma_flag_some(hb: Seq<HeartbeatAgent>, id: Seq<char>, i: int)
    requires
        0 <= i < hb.len(),
        hb[i].agent_id@ == id,
        forall|j: int| 0 <= j < i ==> (#[trigger] hb[j]).agent_id@ != id,
    ensures
        heartbeat_flag(hb, id) == Some(hb[i].enabled),
    decreases hb.len(),
{
    let init = hb.drop_last();
    if i == hb.len() - 1 {
        assert forall|j: int| 0 <= j < init.len() implies (#[trigger] init[j]).agent_id@ != id by {
            assert(init[j] == hb[j]);
        }
        lemma_flag_none(init, id);
    } else {
        assert(init[i] == hb[i]);
        assert forall|j: int| 0 <= j < i implies (#[trigger] init[j]).agent_id@ != id by {
            assert(init[j] == hb[j]);
        }
        lemma_flag_some(init, id, i);
    }
}

/// An agent that runs tasks is never reported as stuck: unless its last run
/// aborted it is never Red, and unless it is also disabled without sessions
/// it is Orange, with the running-task note.
pub proof fn law_running_agent_is_not_stuck(snap: StatusSnapshot, status: StatusAll, running: Option<TasksList>, i: int)
    requires
        snapshot_of(snap, status, running),
        0 <= i < snap.agents@.len(),
    ensures
        ({
            let v = snap.agents@[i]@;
            let live = match status.agents {
                Some(_) => heartbeat_enabled(status.heartbeat.agents@, v.id) || v.sessions_count > 0,
                None => status.heartbeat.agents@[i].enabled,
            };
            let aborted = aborted_in(status.sessions.recent@, v.id);
            &&& v.running_tasks > 0 && !aborted ==> v.status != Status::Red
            &&& v.running_tasks > 0 && !aborted && live ==> {
                &&& v.status == Status::Orange
                &&& v.note == if v.running_tasks == 1 {
                    "tâche en cours"@
                } else {
                    decimal(v.running_tasks) + " tâches en cours"@
                }
            }
        }),
{
    let v = snap.agents@[i]@;
    match status.agents {
        Some(ab) => {
            assert(v == agent_from_entry(status, running, ab.agents@[i]));
        },
        None => {
            assert(v == agent_from_heartbeat(status, running, status.heartbeat.agents@[i]));
        },
    }
}

/// The gateway state of a snapshot: Up exactly when the gateway block says
/// it is reachable, Down when the block is there but unreachable, Unknown
/// when the block is missing.
pub proof fn law_gateway_state(snap: StatusSnapshot, status: StatusAll, running: Option<TasksList>)
    requires
        snapshot_of(snap, status, running),
    ensures
        snap.gateway == GatewayState::Up <==> (status.gateway matches Some(g) && g.reachable),
        snap.gateway == GatewayState::Down <==> (status.gateway matches Some(g) && !g.reachable),
        snap.gateway == GatewayState::Unknown <==> status.gateway is None,
{
}

/// The running-task count of an agent is the number of tasks of the list
/// whose status is `running` and which are attributed to that agent.
pub proof fn law_running_count_is_number_of_running_tasks(tasks: Seq<TaskEntry>, id: Seq<char>)
    ensures
        running_count(tasks, id) == tasks.filter(
            |t: TaskEntry| t.status@ == "running"@ && task_agent_id(t) == Some(id),
        ).len(),
    decreases tasks.len(),
{
    reveal(Seq::filter);
    if tasks.len() > 0 {
        law_running_count_is_number_of_running_tasks(tasks.drop_last(), id);
    }
}

/// The rule for a stuck agent, as the snapshot applies it. An agent of the
/// `agents` block that is enabled or has sessions and whose last run did not
/// abort is Red exactly when the task audit reports stale running tasks while
/// the agent runs none and its last activity is more than a minute old. An
/// agent known only from the heartbeat block is never taken for stuck: it is
/// Red exactly when it is enabled and its last run aborted.
pub proof fn law_stuck_agent(snap: StatusSnapshot, status: StatusAll, running: Option<TasksList>, i: int)
    requires
        snapshot_of(snap, status, running),
        0 <= i < snap.agents@.len(),
    ensures
        ({
            let v = snap.agents@[i]@;
            let aborted = aborted_in(status.sessions.recent@, v.id);
            match status.agents {
                Some(_) => heartbeat_enabled(status.heartbeat.agents@, v.id) || v.sessions_count > 0
                    ==> (!aborted ==> (v.status == Status::Red <==> (status.task_audit.by_code.stale_running
                    > 0 && v.running_tasks == 0 && (v.last_active_age_ms matches Some(m) && m
                    > 60_000)))),
                None => (v.status == Status::Red <==> (status.heartbeat.agents@[i].enabled
                    && aborted)) && v.note != "tâche bloquée détectée"@,
            }
        }),
{
    let v = snap.agents@[i]@;
    match status.agents {
        Some(ab) => {
            assert(v == agent_from_entry(status, running, ab.agents@[i]));
        },
        None => {
            let h = status.heartbeat.agents@[i];
            assert(v == agent_from_heartbeat(status, running, h));
            reveal_strlit("tâche bloquée détectée");
            reveal_strlit("session annulée");
            reveal_strlit("désactivé");
            reveal_strlit("tâche en cours");
            reveal_strlit(" tâches en cours");
            reveal_strlit("aucune activité connue");
            reveal_strlit("inactif depuis ");
            reveal_strlit(" min");
            reveal_strlit("ok");
            let target = "tâche bloquée détectée"@;
            assert(target[0] == 't' && target.len() == 22);
            let n = v.running_tasks;
            if h.enabled && !aborted_in(status.sessions.recent@, v.id) {
                if n >= 2 {
                    crate::text::law_decimal_denotes(n);
                    assert(v.note == decimal(n) + " tâches en cours"@);
                    assert(v.note[0] == decimal(n)[0]);
                } else if n == 0 {
                    if let Some(m) = v.last_active_age_ms {
                        if age_minutes(m) > 60 {
                            assert(v.note == "inactif depuis "@ + decimal(age_minutes(m) as nat)
                                + " min"@);
                            assert(v.note[0] == "inactif depuis "@[0]);
                        }
                    } else {
                        assert(v.note == "aucune activité connue"@);
                        assert(v.note[0] == 'a');
                    }
                }
            }
            assert(v.note != target);
        },
    }
}

/// What an entry of the snapshot shows of an agent of the `agents` block:
/// its id, its name (its id when it has none), its session count, its own
/// last activity or else that of its youngest session, the model of its
/// first session that names one, and the number of its running tasks.
/// Without an `agents` block, an agent of the heartbeat block shows its id
/// as name, no sessions, and its youngest session's age.
pub proof fn law_snapshot_entry_fields(snap: StatusSnapshot, status: StatusAll, running: Option<TasksList>, i: int)
    requires
        snapshot_of(snap, status, running),
        0 <= i < snap.agents@.len(),
    ensures
        ({
            let v = snap.agents@[i]@;
            let sessions = status.sessions.recent@;
            &&& v.model == first_model(sessions, v.id)
            &&& v.running_tasks == match running {
                Some(tl) => tl.tasks@.filter(
                    |t: TaskEntry| t.status@ == "running"@ && task_agent_id(t) == Some(v.id),
                ).len(),
                None => 0,
            }
            &&& match status.agents {
                Some(ab) => {
                    let a = ab.agents@[i];
                    &&& v.id == a.id@
                    &&& v.name == match a.name {
                        Some(nm) => nm@,
                        None => a.id@,
                    }
                    &&& v.sessions_count == a.sessions_count
                    &&& v.last_active_age_ms == match a.last_active_age_ms {
                        Some(m) => Some(m),
                        None => min_age(sessions, a.id@),
                    }
                },
                None => {
                    let h = status.heartbeat.agents@[i];
                    &&& v.id == h.agent_id@
                    &&& v.name == h.agent_id@
                    &&& v.sessions_count == 0
                    &&& v.last_active_age_ms == min_age(sessions, h.agent_id@)
                },
            }
        }),
{
    let v = snap.agents@[i]@;
    match status.agents {
        Some(ab) => {
            assert(v == agent_from_entry(status, running, ab.agents@[i]));
        },
        None => {
            assert(v == agent_from_heartbeat(status, running, status.heartbeat.agents@[i]));
        },
    }
    if let Some(tl) = running {
        law_running_count_is_number_of_running_tasks(tl.tasks@, v.id);
    }
}

/// The counters of a snapshot: the running tasks and the failures (failed
/// or timed out) that `status --all` counts, and the stale running tasks of
/// its task audit; the gateway runtime is that of the gateway service.
pub proof fn law_snapshot_counters(snap: StatusSnapshot, status: StatusAll, running: Option<TasksList>)
    requires
        snapshot_of(snap, status, running),
    ensures
        snap.total_running_tasks == status.tasks.by_status.running,
        snap.total_failures == status.tasks.by_status.failed + status.tasks.by_status.timed_out,
        snap.stale_running == status.task_audit.by_code.stale_running,
        opt_str(snap.gateway_runtime_short) == match status.gateway_service {
            Some(gs) => opt_str(gs.runtime_short),
            None => None,
        },
        snap.agents@.len() == match status.agents {
            Some(ab) => ab.agents@.len(),
            None => status.heartbeat.agents@.len(),
        },
{
}

} // verus!
