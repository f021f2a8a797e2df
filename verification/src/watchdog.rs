//! In-process watchdog of the OpenClaw gateway.
//!
//! Cycle: probe the gateway periodically; when it does not answer, run the
//! non-destructive restart escalation ([`crate::gateway::Escalation`]); guard
//! against crash loops: `crash_threshold` failed probes (5 by default) within
//! `crash_window_ms` (5 min) trigger a pause of `crash_pause_ms` (10 min).
//!
//! [`Watchdog`] takes the decisions of that loop. The caller probes, sleeps,
//! runs the escalation and publishes the events that the decisions hand back.
//! Times are milliseconds: a monotonic clock for the crash window, the wall
//! clock (Unix milliseconds) for the published events.

use std::collections::VecDeque;

use vstd::prelude::*;

use crate::gateway::{RestartMode, RestartReport, RestartStep};

verus! {

#[derive(Debug, Clone)]
pub struct WatchdogConfig {
    /// Time between two probes (default 5 min).
    pub interval_ms: u64,
    /// How far the restart escalation may go.
    pub mode: RestartMode,
    /// Window of the crash-loop detection (default 5 min).
    pub crash_window_ms: u64,
    /// Failed probes within the window before a pause (default 5).
    pub crash_threshold: usize,
    /// Pause once a crash loop is detected (default 10 min).
    pub crash_pause_ms: u64,
}

impl Default for WatchdogConfig {
    fn default() -> (c: Self)
        ensures
            c.interval_ms == 300_000,
            c.mode == RestartMode::Safe,
            c.crash_window_ms == 300_000,
            c.crash_threshold == 5,
            c.crash_pause_ms == 600_000,
    {
        WatchdogConfig {
            interval_ms: 300_000,
            mode: RestartMode::Safe,
            crash_window_ms: 300_000,
            crash_threshold: 5,
            crash_pause_ms: 600_000,
        }
    }
}

/// Event published by the watchdog, for the journal shown to the user.
#[derive(Debug, Clone)]
pub enum WatchdogEvent {
    Started,
    Probe { ok: bool, ts_ms: i64 },
    RestartAttempted { report_summary: String, final_ok: bool },
    CrashLoopPause { until_ms: i64 },
    Stopped,
    Error { message: String },
}

/// What the loop does next.
#[derive(Debug, Clone, Copy, PartialEq, Eq, Structural)]
pub enum WatchdogAction {
    /// Probe the gateway now.
    Probe,
    /// Sleep this many milliseconds, then probe.
    SleepThenProbe(u64),
    /// Run the restart escalation in this mode.
    Escalate(RestartMode),
    /// A crash loop is detected: publish the pause ([`Watchdog::pause_event`],
    /// at the time of publishing) and sleep this many milliseconds, then probe.
    Pause(u64),
}

/// Decisions of the watchdog loop.
pub struct Watchdog {
    config: WatchdogConfig,
    /// Monotonic times of the recent failed probes, oldest first.
    failures: VecDeque<u64>,
}

/// Mathematical value of a [`Watchdog`].
pub struct WatchdogView {
    pub config: WatchdogConfig,
    pub failures: Seq<u64>,
}

/// Between two decisions the crash window never holds a crash loop.
pub open spec fn no_crash_loop(v: WatchdogView) -> bool {
    v.failures.len() < v.config.crash_threshold || v.failures.len() == 0
}

impl View for Watchdog {
    type V = WatchdogView;

    closed spec fn view(&self) -> WatchdogView {
        WatchdogView { config: self.config, failures: self.failures@ }
    }
}

/// Time elapsed from `t` to `now`, zero when `t` is later.
pub open spec fn elapsed(now: u64, t: u64) -> nat {
    if now >= t {
        (now - t) as nat
    } else {
        0
    }
}

/// The failure times once those at the front that are older than the window
/// are dropped.
pub open spec fn drop_stale(s: Seq<u64>, now: u64, window: u64) -> Seq<u64>
    decreases s.len(),
{
    if s.len() > 0 && elapsed(now, s[0]) > window {
        drop_stale(s.drop_first(), now, window)
    } else {
        s
    }
}

/// Failure times recorded in order on a monotonic clock that now reads
/// `now`.
pub open spec fn chronological(s: Seq<u64>, now: u64) -> bool {
    &&& forall|i: int, j: int| 0 <= i <= j < s.len() ==> s[i] <= s[j]
    &&& forall|i: int| 0 <= i < s.len() ==> s[i] <= now
}

/// With failures recorded in order on a monotonic clock, the crash window
/// keeps exactly the failures of the last `window` milliseconds: the dropped
/// ones are older than that, the kept ones are not.
pub proof fn law_window_keeps_recent_failures(s: Seq<u64>, now: u64, window: u64)
    requires
        chronological(s, now),
    ensures
        exists|k: int|
            0 <= k <= s.len() && drop_stale(s, now, window) == s.skip(k) && (forall|i: int|
                0 <= i < k ==> elapsed(now, #[trigger] s[i]) > window) && (forall|i: int|
                k <= i < s.len() ==> elapsed(now, #[trigger] s[i]) <= window),
    decreases s.len(),
{
    if s.len() > 0 && elapsed(now, s[0]) > window {
        let t = s.drop_first();
        assert(chronological(t, now));
        law_window_keeps_recent_failures(t, now, window);
        let k = choose|k: int|
            0 <= k <= t.len() && drop_stale(t, now, window) == t.skip(k) && (forall|i: int|
                0 <= i < k ==> elapsed(now, #[trigger] t[i]) > window) && (forall|i: int|
                k <= i < t.len() ==> elapsed(now, #[trigger] t[i]) <= window);
        assert(t.skip(k) =~= s.skip(k + 1));
        assert forall|i: int| 0 <= i < k + 1 implies elapsed(now, #[trigger] s[i]) > window by {
            if i > 0 {
                assert(s[i] == t[i - 1]);
            }
        }
        assert forall|i: int| k + 1 <= i < s.len() implies elapsed(now, #[trigger] s[i]) <= window by {
            assert(s[i] == t[i - 1]);
        }
    } else {
        assert(s.skip(0) =~= s);
        assert forall|i: int| 0 <= i < s.len() implies elapsed(now, #[trigger] s[i]) <= window by {
            assert(s[0] <= s[i]);
        }
    }
}

/// Summary of one restart step, `action=ok` or `action=ko`.
pub open spec fn step_summary(s: RestartStep) -> Seq<char> {
    s.action@ + "="@ + if s.probe_after_ok {
        "ok"@
    } else {
        "ko"@
    }
}

/// Summaries of the steps, joined by `" → "`.
pub open spec fn joined_summary(steps: Seq<RestartStep>) -> Seq<char>
    decreases steps.len(),
{
    if steps.len() == 0 {
        Seq::empty()
    } else if steps.len() == 1 {
        step_summary(steps[0])
    } else {
        joined_summary(steps.drop_last()) + " → "@ + step_summary(steps.last())
    }
}

/// One-line summary of a restart report, e.g.
/// `gateway restart=ko → doctor --fix=ok`.
pub fn summarise(r: &RestartReport) -> (s: String)
    ensures
        s@ == joined_summary(r.steps@),
{
    let mut out = String::new();
    let len = r.steps.len();
    let mut i: usize = 0;
    while i < len
        invariant
            len == r.steps@.len(),
            i <= len,
            out@ == joined_summary(r.steps@.take(i as int)),
        decreases len - i,
    {
        let st = &r.steps[i];
        assert(r.steps@.take(i + 1).drop_last() =~= r.steps@.take(i as int));
        if i > 0 {
            out.append(" → ");
        }
        out.append(st.action);
        out.append("=");
        if st.probe_after_ok {
            out.append("ok");
        } else {
            out.append("ko");
        }
        proof {
            if i == 0 {
                assert(out@ =~= step_summary(r.steps@.take(1)[0]));
            } else {
                assert(out@ =~= joined_summary(r.steps@.take(i as int)) + " → "@ + step_summary(
                    r.steps@.take(i + 1).last(),
                ));
            }
        }
        i = i + 1;
    }
    assert(r.steps@.take(len as int) =~= r.steps@);
    out
}

/// Drops from the front of `failures` the times older than `window`.
fn evict_stale(failures: &mut VecDeque<u64>, now: u64, window: u64)
    ensures
        final(failures)@ == drop_stale(old(failures)@, now, window),
{
    loop
        invariant
            drop_stale(failures@, now, window) == drop_stale(old(failures)@, now, window),
        ensures
            failures@ == drop_stale(old(failures)@, now, window),
        decreases failures@.len(),
    {
        if failures.len() == 0 {
            break;
        }
        let t = failures[0];
        let age: u64 = if now >= t { now - t } else { 0 };
        if age <= window {
            break;
        }
        failures.pop_front();
    }
}

impl Watchdog {
    #[verifier::type_invariant]
    spec fn inv(self) -> bool {
        no_crash_loop(self@)
    }

    /// Starts the watchdog: it announces itself and probes at once.
    pub fn start(config: WatchdogConfig) -> (r: (Watchdog, WatchdogEvent, WatchdogAction))
        ensures
            no_crash_loop(r.0@),
            r.0@.config == config,
            r.0@.failures.len() == 0,
            r.1 is Started,
            r.2 == WatchdogAction::Probe,
    {
        (Watchdog { config, failures: VecDeque::new() }, WatchdogEvent::Started, WatchdogAction::Probe)
    }

    /// The settings of the watchdog.
    pub fn config(&self) -> (c: &WatchdogConfig)
        ensures
            *c == self@.config,
    {
        &self.config
    }

    /// Monotonic times of the failed probes now in the crash window, oldest
    /// first.
    pub fn failures(&self) -> (f: &VecDeque<u64>)
        ensures
            f@ == self@.failures,
    {
        &self.failures
    }

    /// Takes the answer of a probe made at monotonic time `now_mono_ms` and
    /// wall time `now_wall_ms`.
    ///
    /// Every probe is published. After a probe that answered the watchdog
    /// sleeps one interval. A failed probe joins the crash window, from which
    /// the failures older than the window are dropped; when the window then
    /// holds `crash_threshold` failures, the watchdog forgets the window and
    /// pauses; otherwise it asks for the restart escalation.
    pub fn on_probe(&mut self, ok: bool, now_mono_ms: u64, now_wall_ms: i64) -> (r: (
        WatchdogEvent,
        WatchdogAction,
    ))
        ensures
            no_crash_loop(final(self)@),
            final(self)@.config == old(self)@.config,
            r.0 == (WatchdogEvent::Probe { ok, ts_ms: now_wall_ms }),
            ok ==> {
                &&& final(self)@.failures == old(self)@.failures
                &&& r.1 == WatchdogAction::SleepThenProbe(old(self)@.config.interval_ms)
            },
            !ok ==> {
                let window = drop_stale(
                    old(self)@.failures.push(now_mono_ms),
                    now_mono_ms,
                    old(self)@.config.crash_window_ms,
                );
                if window.len() >= old(self)@.config.crash_threshold {
                    &&& final(self)@.failures.len() == 0
                    &&& r.1 == WatchdogAction::Pause(old(self)@.config.crash_pause_ms)
                } else {
                    &&& final(self)@.failures == window
                    &&& r.1 == WatchdogAction::Escalate(old(self)@.config.mode)
                }
            },
    {
        proof {
            use_type_invariant(&*self);
        }
        let event = WatchdogEvent::Probe { ok, ts_ms: now_wall_ms };
        if ok {
            return (event, WatchdogAction::SleepThenProbe(self.config.interval_ms));
        }
        let mut window: VecDeque<u64> = VecDeque::new();
        std::mem::swap(&mut window, &mut self.failures);
        window.push_back(now_mono_ms);
        evict_stale(&mut window, now_mono_ms, self.config.crash_window_ms);
        if window.len() >= self.config.crash_threshold {
            (event, WatchdogAction::Pause(self.config.crash_pause_ms))
        } else {
            self.failures = window;
            (event, WatchdogAction::Escalate(self.config.mode))
        }
    }

    /// The crash-loop pause, published at wall time `now_wall_ms`: it lasts
    /// until `now_wall_ms + crash_pause_ms`.
    pub fn pause_event(&self, now_wall_ms: i64) -> (e: WatchdogEvent)
        requires
            now_wall_ms + self@.config.crash_pause_ms <= i64::MAX,
        ensures
            e == (WatchdogEvent::CrashLoopPause {
                until_ms: (now_wall_ms + self@.config.crash_pause_ms) as i64,
            }),
    {
        let until: i128 = now_wall_ms as i128 + self.config.crash_pause_ms as i128;
        WatchdogEvent::CrashLoopPause { until_ms: until as i64 }
    }

    /// Takes the outcome of the restart escalation: it is published, a
    /// successful restart empties the crash window, and the watchdog sleeps
    /// one interval.
    pub fn on_restart(&mut self, outcome: Result<RestartReport, String>) -> (r: (
        WatchdogEvent,
        WatchdogAction,
    ))
        ensures
            no_crash_loop(final(self)@),
            final(self)@.config == old(self)@.config,
            r.1 == WatchdogAction::SleepThenProbe(old(self)@.config.interval_ms),
            match outcome {
                Ok(rep) => {
                    &&& r.0 matches WatchdogEvent::RestartAttempted { report_summary, final_ok }
                        && report_summary@ == joined_summary(rep.steps@) && final_ok
                        == rep.final_ok
                    &&& final(self)@.failures == if rep.final_ok {
                        Seq::<u64>::empty()
                    } else {
                        old(self)@.failures
                    }
                },
                Err(e) => {
                    &&& r.0 matches WatchdogEvent::Error { message } && message@ == e@
                    &&& final(self)@.failures == old(self)@.failures
                },
            },
    {
        proof {
            use_type_invariant(&*self);
        }
        match outcome {
            Ok(rep) => {
                let summary = summarise(&rep);
                if rep.final_ok {
                    self.failures = VecDeque::new();
                }
                (
                    WatchdogEvent::RestartAttempted { report_summary: summary, final_ok: rep.final_ok },
                    WatchdogAction::SleepThenProbe(self.config.interval_ms),
                )
            },
            Err(e) => (
                WatchdogEvent::Error { message: e },
                WatchdogAction::SleepThenProbe(self.config.interval_ms),
            ),
        }
    }
}

/// The summary of a report ends with the outcome of its last step: `ok`
/// when the gateway answered after it, `ko` otherwise; an empty report has
/// an empty summary.
pub proof fn law_summary_ends_with_outcome(steps: Seq<RestartStep>)
    ensures
        steps.len() == 0 ==> joined_summary(steps).len() == 0,
        steps.len() > 0 ==> ({
            let s = joined_summary(steps);
            &&& s.len() >= 3
            &&& s.subrange(s.len() - 3, s.len() as int) == if steps.last().probe_after_ok {
                "=ok"@
            } else {
                "=ko"@
            }
        }),
{
    reveal_strlit("ok");
    reveal_strlit("ko");
    reveal_strlit("=");
    reveal_strlit("=ok");
    reveal_strlit("=ko");
    if steps.len() > 0 {
        let st = steps.last();
        let tail = if st.probe_after_ok {
            "=ok"@
        } else {
            "=ko"@
        };
        let s = joined_summary(steps);
        if steps.len() == 1 {
            assert(steps[0] == st);
        }
        let pre = s.subrange(0, s.len() - 3);
        assert(s =~= pre + tail) by {
            if steps.len() == 1 {
                assert(s =~= st.action@ + tail);
            } else {
                assert(s =~= joined_summary(steps.drop_last()) + " → "@ + st.action@ + tail);
            }
        }
        assert(s.subrange(s.len() - 3, s.len() as int) =~= tail);
    }
}

} // verus!
