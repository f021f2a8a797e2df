//! What the main window shows: one row per agent, the header counters, and
//! the decision taken after each polling cycle.

use vstd::prelude::*;

use crate::agent_state::{
    build_snapshot, gateway_state_name, law_names_distinct, snapshot_of, status_name, AgentStatus,
    GatewayState, StatusSnapshot,
};
use crate::models::{opt_str, StatusAll, TasksList};
use crate::text::{decimal, u64_to_decimal};

verus! {

/// Decimal rendering of an integer, with a leading `-` when negative.
pub open spec fn signed_decimal(i: int) -> Seq<char> {
    if i < 0 {
        "-"@ + decimal((-i) as nat)
    } else {
        decimal(i as nat)
    }
}

/// `a / b` rounded toward zero, as Rust divides integers.
pub open spec fn trunc_div(a: int, b: int) -> int {
    if a >= 0 {
        a / b
    } else {
        -((-a) / b)
    }
}

/// Short age of an activity given in milliseconds: seconds below a minute,
/// then minutes, hours, and days (`j`); `-` when unknown.
pub open spec fn age_text(ms: Option<i64>) -> Seq<char> {
    match ms {
        None => "-"@,
        Some(m) => {
            let secs = trunc_div(m as int, 1000);
            if secs < 60 {
                signed_decimal(secs) + "s"@
            } else if secs / 60 < 60 {
                decimal((secs / 60) as nat) + "min"@
            } else if secs / 3600 < 24 {
                decimal((secs / 3600) as nat) + "h"@
            } else {
                decimal((secs / 86400) as nat) + "j"@
            }
        },
    }
}

fn i64_to_decimal(i: i64) -> (s: String)
    ensures
        s@ == signed_decimal(i as int),
{
    if i < 0 {
        let mag: i128 = -(i as i128);
        let mut s = String::from_str("-");
        s.append(u64_to_decimal(mag as u64).as_str());
        s
    } else {
        u64_to_decimal(i as u64)
    }
}

/// Renders the age of an activity.
pub fn format_age(ms: Option<i64>) -> (s: String)
    ensures
        s@ == age_text(ms),
{
    let m = match ms {
        None => {
            return String::from_str("-");
        },
        Some(m) => m,
    };
    if m < 1000 {
        let secs: i64 = if m >= 0 { m / 1000 } else { -((-(m as i128)) / 1000) as i64 };
        let mut s = i64_to_decimal(secs);
        s.append("s");
        return s;
    }
    let secs: u64 = m as u64 / 1000;
    if secs < 60 {
        let mut s = u64_to_decimal(secs);
        s.append("s");
        return s;
    }
    let mins = secs / 60;
    if mins < 60 {
        let mut s = u64_to_decimal(mins);
        s.append("min");
        return s;
    }
    let hours = mins / 60;
    if hours < 24 {
        let mut s = u64_to_decimal(hours);
        s.append("h");
        return s;
    }
    let days = hours / 24;
    let mut s = u64_to_decimal(days);
    s.append("j");
    s
}

/// One row of the agents table.
#[derive(Debug, Clone)]
pub struct AgentRow {
    pub id: String,
    pub name: String,
    /// The model, `?` when unknown.
    pub model: String,
    /// The colour name.
    pub status: String,
    pub note: String,
    pub last_active: String,
    pub sessions_count: i32,
    pub running_tasks: i32,
}

/// The row of an agent.
pub open spec fn row_of(r: AgentRow, a: AgentStatus) -> bool {
    &&& r.id@ == a.id@
    &&& r.name@ == a.name@
    &&& r.model@ == match opt_str(a.model) {
        Some(m) => m,
        None => "?"@,
    }
    &&& r.status@ == status_name(a.status)
    &&& r.note@ == a.note@
    &&& r.last_active@ == age_text(a.last_active_age_ms)
    &&& r.sessions_count == a.sessions_count as i32
    &&& r.running_tasks == a.running_tasks as i32
}

/// Converts an agent status into its row.
pub fn agent_row(a: &AgentStatus) -> (r: AgentRow)
    ensures
        row_of(r, *a),
{
    AgentRow {
        id: a.id.clone(),
        name: a.name.clone(),
        model: match &a.model {
            Some(m) => m.clone(),
            None => String::from_str("?"),
        },
        status: String::from_str(a.status.as_str()),
        note: a.note.clone(),
        last_active: format_age(a.last_active_age_ms),
        sessions_count: a.sessions_count as i32,
        running_tasks: a.running_tasks as i32,
    }
}

/// Everything the main window shows of a snapshot.
#[derive(Debug, Clone)]
pub struct SnapshotView {
    pub agents: Vec<AgentRow>,
    pub gateway_status: String,
    /// Short runtime of the gateway service, empty when unknown.
    pub gateway_runtime: String,
    pub total_running_tasks: i32,
    pub total_failures: i32,
}

/// Converts a snapshot into what the window shows.
pub fn snapshot_view(snap: &StatusSnapshot) -> (v: SnapshotView)
    ensures
        v.agents@.len() == snap.agents@.len(),
        forall|i: int| 0 <= i < snap.agents@.len() ==> row_of(#[trigger] v.agents@[i], snap.agents@[i]),
        v.gateway_status@ == gateway_state_name(snap.gateway),
        v.gateway_runtime@ == match opt_str(snap.gateway_runtime_short) {
            Some(r) => r,
            None => Seq::empty(),
        },
        v.total_running_tasks == snap.total_running_tasks as i32,
        v.total_failures == snap.total_failures as i32,
{
    let mut agents: Vec<AgentRow> = Vec::new();
    let len = snap.agents.len();
    let mut i: usize = 0;
    while i < len
        invariant
            len == snap.agents@.len(),
            i <= len,
            agents@.len() == i,
            forall|j: int| 0 <= j < i ==> row_of(#[trigger] agents@[j], snap.agents@[j]),
        decreases len - i,
    {
        agents.push(agent_row(&snap.agents[i]));
        i = i + 1;
    }
    SnapshotView {
        agents,
        gateway_status: String::from_str(snap.gateway.as_str()),
        gateway_runtime: match &snap.gateway_runtime_short {
            Some(r) => r.clone(),
            None => String::new(),
        },
        total_running_tasks: snap.total_running_tasks as i32,
        total_failures: snap.total_failures as i32,
    }
}

/// The inputs a polling cycle can hand to `build_snapshot`.
pub open spec fn poll_inputs_ok(status: Result<StatusAll, String>, tasks: Result<TasksList, String>) -> bool {
    &&& status matches Ok(s) ==> s.tasks.by_status.failed + s.tasks.by_status.timed_out <= u64::MAX
    &&& tasks matches Ok(t) ==> t.tasks@.len() <= u32::MAX
}

/// Whether the outcome of a polling cycle can be turned into a snapshot: the
/// failure counters add up within a `u64` and the running tasks can be
/// counted in a `u32`.
pub fn poll_inputs_in_range(status: &Result<StatusAll, String>, tasks: &Result<TasksList, String>) -> (r: bool)
    ensures
        r == poll_inputs_ok(*status, *tasks),
{
    let status_ok = match status {
        Ok(s) => s.tasks.by_status.failed.checked_add(s.tasks.by_status.timed_out).is_some(),
        Err(_) => true,
    };
    let tasks_ok = match tasks {
        Ok(t) => t.tasks.len() as u64 <= u32::MAX as u64,
        Err(_) => true,
    };
    status_ok && tasks_ok
}

/// The decision after one polling cycle, where `status --all` and the list of
/// running tasks were asked for together: without the status there is
/// nothing to show; without the task list the snapshot is built without
/// running tasks.
pub fn snapshot_from_poll(status: Result<StatusAll, String>, tasks: Result<TasksList, String>) -> (r:
    Option<StatusSnapshot>)
    requires
        poll_inputs_ok(status, tasks),
    ensures
        match status {
            Err(_) => r is None,
            Ok(s) => r matches Some(snap) && snapshot_of(
                snap,
                s,
                match tasks {
                    Ok(t) => Some(t),
                    Err(_) => None,
                },
            ),
        },
{
    match status {
        Err(_) => None,
        Ok(s) => match tasks {
            Ok(t) => Some(build_snapshot(&s, Some(&t))),
            Err(_) => Some(build_snapshot(&s, None)),
        },
    }
}

/// Each column of an agent's row shows its own field of the agent: the
/// running-task and session counters are the agent's own numbers (when they
/// fit in an `i32`), and two agents that agree on a field get rows that agree
/// on its column, whatever their other fields hold.
pub proof fn law_row_columns(r1: AgentRow, a1: AgentStatus, r2: AgentRow, a2: AgentStatus)
    requires
        row_of(r1, a1),
        row_of(r2, a2),
    ensures
        a1.running_tasks <= i32::MAX ==> r1.running_tasks as int == a1.running_tasks as int,
        a1.sessions_count <= i32::MAX ==> r1.sessions_count as int == a1.sessions_count as int,
        a1.running_tasks == a2.running_tasks ==> r1.running_tasks == r2.running_tasks,
        a1.sessions_count == a2.sessions_count ==> r1.sessions_count == r2.sessions_count,
        a1.id@ == a2.id@ <==> r1.id@ == r2.id@,
        a1.name@ == a2.name@ <==> r1.name@ == r2.name@,
        a1.note@ == a2.note@ <==> r1.note@ == r2.note@,
        a1.status == a2.status <==> r1.status@ == r2.status@,
        opt_str(a1.model) == opt_str(a2.model) ==> r1.model@ == r2.model@,
        a1.last_active_age_ms == a2.last_active_age_ms ==> r1.last_active@ == r2.last_active@,
        r1.model@ == "?"@ <==> (a1.model is None || a1.model.unwrap()@ == "?"@),
{
    law_names_distinct(a1.status, a2.status, GatewayState::Up, GatewayState::Up);
}

/// The age of an activity is shown in the largest unit it reaches, as the
/// whole number of that unit it holds: `n` seconds below a minute, `n`
/// minutes below an hour, `n` hours below a day, `n` days beyond; a negative
/// age under a second reads `0s`, and an unknown one `-`.
pub proof fn law_age_units(m: i64, n: nat)
    ensures
        age_text(None) == "-"@,
        0 <= n * 1000 <= m < n * 1000 + 1000 && n < 60 ==> age_text(Some(m)) == decimal(n) + "s"@,
        -1000 < m < 1000 ==> age_text(Some(m)) == "0s"@,
        n * 1000 <= -m < n * 1000 + 1000 && n > 0 ==> age_text(Some(m)) == "-"@ + decimal(n) + "s"@,
        n * 60_000 <= m < n * 60_000 + 60_000 && 1 <= n < 60 ==> age_text(Some(m)) == decimal(n)
            + "min"@,
        n * 3_600_000 <= m < n * 3_600_000 + 3_600_000 && 1 <= n < 24 ==> age_text(Some(m))
            == decimal(n) + "h"@,
        n * 86_400_000 <= m < n * 86_400_000 + 86_400_000 && 1 <= n ==> age_text(Some(m))
            == decimal(n) + "j"@,
{
    reveal_strlit("0");
    reveal_strlit("s");
    reveal_strlit("0s");
    let mi = m as int;
    let secs = trunc_div(mi, 1000);
    if mi >= 0 {
        vstd::arithmetic::div_mod::lemma_div_denominator(mi, 1000, 60);
        vstd::arithmetic::div_mod::lemma_div_denominator(mi, 1000, 3600);
        vstd::arithmetic::div_mod::lemma_div_denominator(mi, 1000, 86400);
        vstd::arithmetic::div_mod::lemma_div_denominator(mi / 1000, 60, 60);
        if n * 1000 <= mi < n * 1000 + 1000 {
            vstd::arithmetic::div_mod::lemma_fundamental_div_mod_converse(mi, 1000, n as int, mi - n * 1000);
        }
        if n * 60_000 <= mi < n * 60_000 + 60_000 && 1 <= n < 60 {
            vstd::arithmetic::div_mod::lemma_fundamental_div_mod_converse(mi, 60_000, n as int, mi - n * 60_000);
            assert(secs / 60 == n);
            assert(secs >= 60) by (nonlinear_arith)
                requires secs / 60 == n, 1 <= n, secs >= 0;
        }
        if n * 3_600_000 <= mi < n * 3_600_000 + 3_600_000 && 1 <= n < 24 {
            vstd::arithmetic::div_mod::lemma_fundamental_div_mod_converse(mi, 3_600_000, n as int, mi - n * 3_600_000);
            assert(secs / 3600 == n);
            assert(secs / 60 >= 60) by (nonlinear_arith)
                requires secs / 60 / 60 == n, 1 <= n, secs >= 0;
        }
        if n * 86_400_000 <= mi < n * 86_400_000 + 86_400_000 && 1 <= n {
            vstd::arithmetic::div_mod::lemma_fundamental_div_mod_converse(mi, 86_400_000, n as int, mi - n * 86_400_000);
            assert(secs / 86400 == n);
            assert(secs / 3600 >= 24) by (nonlinear_arith)
                requires secs / 86400 == n, 1 <= n, secs >= 0;
            assert(secs / 60 >= 60) by (nonlinear_arith)
                requires secs / 3600 >= 24, secs >= 0;
        }
        if mi < 1000 {
            assert(secs == 0);
            assert(decimal(0) == "0"@);
            assert("0"@ + "s"@ =~= "0s"@);
        }
    } else {
        if n * 1000 <= -mi < n * 1000 + 1000 {
            vstd::arithmetic::div_mod::lemma_fundamental_div_mod_converse(-mi, 1000, n as int, -mi - n * 1000);
        }
        if -1000 < mi {
            assert(secs == 0);
            assert(decimal(0) == "0"@);
            assert("0"@ + "s"@ =~= "0s"@);
        }
    }
}

} // verus!
