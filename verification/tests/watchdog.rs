use claw_core::gateway::{RestartMode, RestartReport, RestartStep};
use claw_core::watchdog::{summarise, Watchdog, WatchdogAction, WatchdogConfig, WatchdogEvent};

#[test]
fn config_defaults_reasonable() {
    let c = WatchdogConfig::default();
    assert_eq!(c.crash_threshold, 5);
    assert!(c.crash_pause_ms > c.crash_window_ms || c.crash_pause_ms >= 300_000);
}

#[test]
fn config_defaults_exact() {
    let c = WatchdogConfig::default();
    assert_eq!(c.interval_ms, 300_000);
    assert_eq!(c.crash_window_ms, 300_000);
    assert_eq!(c.crash_pause_ms, 600_000);
    assert_eq!(c.mode, RestartMode::Safe);
}

fn step(action: &'static str, ok: bool) -> RestartStep {
    RestartStep { action, success: true, probe_after_ok: ok, error: None }
}

#[test]
fn summary_joins_steps() {
    let r = RestartReport {
        steps: vec![step("gateway restart", false), step("doctor --fix", true)],
        final_ok: true,
    };
    assert_eq!(summarise(&r), "gateway restart=ko → doctor --fix=ok");
    let r = RestartReport { steps: vec![], final_ok: false };
    assert_eq!(summarise(&r), "");
}

#[test]
fn healthy_probe_sleeps_one_interval() {
    let (mut w, ev, act) = Watchdog::start(WatchdogConfig::default());
    assert!(matches!(ev, WatchdogEvent::Started));
    assert_eq!(act, WatchdogAction::Probe);
    let (event, act) = w.on_probe(true, 1_000, 1_700_000_000_000);
    assert!(matches!(event, WatchdogEvent::Probe { ok: true, ts_ms: 1_700_000_000_000 }));
    assert_eq!(act, WatchdogAction::SleepThenProbe(300_000));
    assert!(w.failures().is_empty());
}

#[test]
fn five_failures_within_five_minutes_pause_ten_minutes() {
    let (mut w, _, _) = Watchdog::start(WatchdogConfig::default());
    let wall = 1_700_000_000_000i64;
    for i in 0..4u64 {
        let (event, act) = w.on_probe(false, i * 60_000, wall);
        assert!(matches!(event, WatchdogEvent::Probe { ok: false, .. }));
        assert_eq!(act, WatchdogAction::Escalate(RestartMode::Safe));
    }
    let (_, act) = w.on_probe(false, 4 * 60_000, wall);
    assert_eq!(act, WatchdogAction::Pause(600_000));
    assert!(w.failures().is_empty());
    let later = wall + 1_234;
    assert!(matches!(w.pause_event(later), WatchdogEvent::CrashLoopPause { until_ms } if until_ms == later + 600_000));
}

#[test]
fn old_failures_leave_the_window() {
    let (mut w, _, _) = Watchdog::start(WatchdogConfig::default());
    for i in 0..4u64 {
        w.on_probe(false, i * 100_000, 0);
    }
    // At 400 s the failure at 0 s is older than the 300 s window.
    let (_, act) = w.on_probe(false, 400_000, 0);
    assert_eq!(act, WatchdogAction::Escalate(RestartMode::Safe));
    assert_eq!(*w.failures(), vec![100_000, 200_000, 300_000, 400_000]);
}

#[test]
fn successful_restart_clears_the_window() {
    let (mut w, _, _) = Watchdog::start(WatchdogConfig::default());
    w.on_probe(false, 10, 0);
    w.on_probe(false, 20, 0);
    let report = RestartReport { steps: vec![step("gateway restart", false)], final_ok: false };
    let (ev, act) = w.on_restart(Ok(report));
    assert!(matches!(ev, WatchdogEvent::RestartAttempted { ref report_summary, final_ok: false } if report_summary == "gateway restart=ko"));
    assert_eq!(act, WatchdogAction::SleepThenProbe(300_000));
    assert_eq!(w.failures().len(), 2);
    let report = RestartReport { steps: vec![step("gateway restart", true)], final_ok: true };
    let (_, _) = w.on_restart(Ok(report));
    assert!(w.failures().is_empty());
    let (ev, _) = w.on_restart(Err("boom".to_string()));
    assert!(matches!(ev, WatchdogEvent::Error { ref message } if message == "boom"));
}
