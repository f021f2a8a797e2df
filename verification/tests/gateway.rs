use claw_core::gateway::{
    reachable_from_probe, Escalation, EscalationAction, EscalationEvent, EscalationPhase,
    RestartMode, RestartTier, PROBE_EVERY_MS,
};
use claw_core::models::GatewayProbe;

/// Runs an escalation where each tier's command gives `cmd_ok[i]` and each
/// probe gives the next value of `probes`; returns the tiers run and the report.
fn drive(mode: RestartMode, cmd_ok: &[bool], probes: &[bool]) -> (Vec<RestartTier>, claw_core::gateway::RestartReport) {
    let (mut esc, mut act) = Escalation::start(mode);
    let mut tiers = Vec::new();
    let mut p = 0;
    loop {
        match act {
            EscalationAction::RunCommand(t) => {
                let ok = cmd_ok[tiers.len()];
                tiers.push(t);
                let ev = EscalationEvent::CommandFinished(if ok { Ok(()) } else { Err("failed".to_string()) });
                assert!(esc.expects(&ev));
                act = esc.on_event(ev);
            }
            EscalationAction::ProbeAfter(ms) => {
                assert_eq!(ms, PROBE_EVERY_MS);
                let ev = EscalationEvent::ProbeFinished(probes[p]);
                p += 1;
                act = esc.on_event(ev);
            }
            EscalationAction::Finished => return (tiers, esc.into_report()),
        }
    }
}

#[test]
fn first_tier_success_stops_escalation() {
    let (tiers, report) = drive(RestartMode::Aggressive, &[true], &[false, true]);
    assert_eq!(tiers, vec![RestartTier::GatewayRestart]);
    assert!(report.final_ok);
    assert_eq!(report.steps.len(), 1);
    assert_eq!(report.steps[0].action, "gateway restart");
    assert!(report.steps[0].success && report.steps[0].probe_after_ok);
}

#[test]
fn manual_mode_stops_after_first_tier() {
    let (tiers, report) = drive(RestartMode::Manual, &[false], &[]);
    assert_eq!(tiers, vec![RestartTier::GatewayRestart]);
    assert!(!report.final_ok);
    assert_eq!(report.steps[0].error.as_deref(), Some("failed"));
    assert!(!report.steps[0].success);
}

#[test]
fn safe_mode_stops_before_install_force() {
    let (tiers, report) = drive(RestartMode::Safe, &[true, true], &[false, false, false, false, false, false]);
    assert_eq!(tiers, vec![RestartTier::GatewayRestart, RestartTier::DoctorFix]);
    assert!(!report.final_ok);
    assert_eq!(report.steps.len(), 2);
    assert_eq!(report.steps[1].action, "doctor --fix");
    assert!(report.steps[1].success && !report.steps[1].probe_after_ok);
}

#[test]
fn aggressive_mode_reaches_install_force() {
    let (tiers, report) = drive(RestartMode::Aggressive, &[false, false, true], &[false, false, true]);
    assert_eq!(tiers, vec![RestartTier::GatewayRestart, RestartTier::DoctorFix, RestartTier::InstallForce]);
    assert!(report.final_ok);
    assert_eq!(report.steps[2].action, "gateway install --force");
}

#[test]
fn probe_retries_are_three() {
    let (mut esc, _) = Escalation::start(RestartMode::Manual);
    esc.on_event(EscalationEvent::CommandFinished(Ok(())));
    assert_eq!(esc.phase(), EscalationPhase::Probing { tier: RestartTier::GatewayRestart, attempts: 0 });
    assert_eq!(esc.on_event(EscalationEvent::ProbeFinished(false)), EscalationAction::ProbeAfter(5000));
    assert_eq!(esc.on_event(EscalationEvent::ProbeFinished(false)), EscalationAction::ProbeAfter(5000));
    assert_eq!(esc.on_event(EscalationEvent::ProbeFinished(false)), EscalationAction::Finished);
    assert_eq!(esc.phase(), EscalationPhase::Done { final_ok: false });
}

#[test]
fn probe_outcome() {
    assert!(reachable_from_probe(&Ok(GatewayProbe { ok: true, ..GatewayProbe::default() })));
    assert!(!reachable_from_probe(&Ok(GatewayProbe::default())));
    assert!(!reachable_from_probe(&Err("spawn failed".to_string())));
    assert_eq!(RestartTier::DoctorFix.action(), "doctor --fix");
}
