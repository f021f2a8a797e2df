//! Probing and restarting the OpenClaw gateway.
//!
//! A restart follows a **non-destructive escalation**:
//! 1. `openclaw gateway restart`       (fast, no side effect)
//! 2. `openclaw doctor --fix`          (common fixes)
//! 3. `openclaw gateway install --force` (rewrites the `.service` file; needs
//!    the user's consent unless the mode is "auto-aggressive").
//!
//! After each command that succeeds, the gateway is probed up to three times,
//! five seconds apart. The escalation stops at the first tier after which the
//! gateway answers.
//!
//! [`Escalation`] holds the decisions of that procedure: it is told what each
//! command and each probe gave, and answers with what to do next. Running the
//! commands, waiting and probing is the caller's part.

use vstd::prelude::*;

use crate::models::{opt_str, GatewayProbe};

verus! {

/// How far the automatic restart may go.
#[derive(Debug, Clone, Copy, PartialEq, Eq, Structural)]
pub enum RestartMode {
    /// Manual: one tier at a time, with consent between each.
    Manual,
    /// Auto: runs tiers 1 and 2 on its own, **stops before 3**.
    Safe,
    /// Auto-aggressive: runs tiers 1, 2 and 3 on its own.
    Aggressive,
}

/// One tier of the escalation.
#[derive(Debug, Clone, Copy, PartialEq, Eq, Structural)]
pub enum RestartTier {
    /// `openclaw gateway restart`
    GatewayRestart,
    /// `openclaw doctor --fix`
    DoctorFix,
    /// `openclaw gateway install --force`
    InstallForce,
}

/// Outcome of an attempt to bring the gateway back.
#[derive(Debug, Clone)]
pub struct RestartReport {
    pub steps: Vec<RestartStep>,
    pub final_ok: bool,
}

/// What one tier did.
#[derive(Debug, Clone)]
pub struct RestartStep {
    pub action: &'static str,
    /// The command itself succeeded.
    pub success: bool,
    /// The gateway answered a probe after the command.
    pub probe_after_ok: bool,
    /// Why the command failed.
    pub error: Option<String>,
}

/// Number of probes after a command that succeeded.
pub const PROBE_RETRIES: u32 = 3;

/// Wait before each of those probes, in milliseconds.
pub const PROBE_EVERY_MS: u64 = 5000;

/// Position of a tier in the escalation.
pub open spec fn tier_index(t: RestartTier) -> nat {
    match t {
        RestartTier::GatewayRestart => 0,
        RestartTier::DoctorFix => 1,
        RestartTier::InstallForce => 2,
    }
}

/// The tier at a position of the escalation.
pub open spec fn tier_at(i: nat) -> RestartTier {
    if i == 0 {
        RestartTier::GatewayRestart
    } else if i == 1 {
        RestartTier::DoctorFix
    } else {
        RestartTier::InstallForce
    }
}

/// Label of a tier, as recorded in the report.
pub open spec fn tier_action(t: RestartTier) -> Seq<char> {
    match t {
        RestartTier::GatewayRestart => "gateway restart"@,
        RestartTier::DoctorFix => "doctor --fix"@,
        RestartTier::InstallForce => "gateway install --force"@,
    }
}

/// Number of tiers a mode may run on its own.
pub open spec fn tier_limit(mode: RestartMode) -> nat {
    match mode {
        RestartMode::Manual => 1,
        RestartMode::Safe => 2,
        RestartMode::Aggressive => 3,
    }
}

impl RestartTier {
    /// Label of the tier, as recorded in the report.
    pub fn action(self) -> (r: &'static str)
        ensures
            r@ == tier_action(self),
    {
        match self {
            RestartTier::GatewayRestart => "gateway restart",
            RestartTier::DoctorFix => "doctor --fix",
            RestartTier::InstallForce => "gateway install --force",
        }
    }
}

/// A step brought the gateway back: its command succeeded and a probe
/// answered after it.
pub open spec fn step_ok(s: RestartStep) -> bool {
    s.success && s.probe_after_ok
}

/// Where the escalation stands.
#[derive(Debug, Clone, Copy, PartialEq, Eq, Structural)]
pub enum EscalationPhase {
    /// The command of this tier is running.
    Command(RestartTier),
    /// The command of this tier succeeded; `attempts` probes have answered
    /// negatively since.
    Probing { tier: RestartTier, attempts: u32 },
    /// The escalation is over.
    Done { final_ok: bool },
}

/// What happened since the last decision.
pub enum EscalationEvent {
    /// The command that was asked for finished.
    CommandFinished(Result<(), String>),
    /// The probe that was asked for answered whether the gateway is reachable.
    ProbeFinished(bool),
}

/// What to do next.
#[derive(Debug, Clone, Copy, PartialEq, Eq, Structural)]
pub enum EscalationAction {
    /// Run the command of this tier.
    RunCommand(RestartTier),
    /// Wait this many milliseconds, then probe the gateway.
    ProbeAfter(u64),
    /// The escalation is over: take the report.
    Finished,
}

/// The decisions of one restart escalation.
pub struct Escalation {
    mode: RestartMode,
    /// The tiers done so far, in order.
    steps: Vec<RestartStep>,
    phase: EscalationPhase,
}

/// Mathematical value of an [`Escalation`].
pub struct EscalationView {
    pub mode: RestartMode,
    pub steps: Seq<RestartStep>,
    pub phase: EscalationPhase,
}

impl View for Escalation {
    type V = EscalationView;

    closed spec fn view(&self) -> EscalationView {
        EscalationView { mode: self.mode, steps: self.steps@, phase: self.phase }
    }
}

/// Whether an event answers what a phase waits for.
pub open spec fn answers(phase: EscalationPhase, ev: EscalationEvent) -> bool {
    match phase {
        EscalationPhase::Command(_) => ev is CommandFinished,
        EscalationPhase::Probing { .. } => ev is ProbeFinished,
        EscalationPhase::Done { .. } => false,
    }
}

/// The record of a tier whose command failed.
pub open spec fn failed_step(s: RestartStep, t: RestartTier, e: Seq<char>) -> bool {
    &&& s.action@ == tier_action(t)
    &&& !s.success
    &&& !s.probe_after_ok
    &&& opt_str(s.error) == Some(e)
}

/// The record of a tier whose command succeeded.
pub open spec fn probed_step(s: RestartStep, t: RestartTier, answered: bool) -> bool {
    &&& s.action@ == tier_action(t)
    &&& s.success
    &&& s.probe_after_ok == answered
    &&& s.error is None
}

/// The next phase once tier `t` has ended, `ok` telling whether the gateway
/// is back.
pub open spec fn after_tier(mode: RestartMode, t: RestartTier, ok: bool) -> EscalationPhase {
    if ok {
        EscalationPhase::Done { final_ok: true }
    } else if tier_index(t) + 1 < tier_limit(mode) {
        EscalationPhase::Command(tier_at(tier_index(t) + 1))
    } else {
        EscalationPhase::Done { final_ok: false }
    }
}

/// The action that starts a phase.
pub open spec fn action_for(phase: EscalationPhase) -> EscalationAction {
    match phase {
        EscalationPhase::Command(t) => EscalationAction::RunCommand(t),
        EscalationPhase::Probing { .. } => EscalationAction::ProbeAfter(PROBE_EVERY_MS),
        EscalationPhase::Done { .. } => EscalationAction::Finished,
    }
}

/// How much is left of an escalation, counted so that every decision makes
/// it smaller: four units per tier still to start, one per probe left.
pub open spec fn work_left(phase: EscalationPhase) -> nat {
    match phase {
        EscalationPhase::Command(t) => (4 * (3 - tier_index(t))) as nat,
        EscalationPhase::Probing { tier, attempts } => (4 * (3 - tier_index(tier)) - 1
            - attempts) as nat,
        EscalationPhase::Done { .. } => 0,
    }
}

impl EscalationView {
    /// The invariant of an escalation.
    pub open spec fn wf(self) -> bool {
        let n = self.steps.len();
        &&& n <= tier_limit(self.mode)
        &&& forall|i: int|
            0 <= i < n ==> (#[trigger] self.steps[i]).action@ == tier_action(tier_at(i as nat))
        &&& forall|i: int| 0 <= i < n ==> (!(#[trigger] self.steps[i]).success ==> !self.steps[i].probe_after_ok)
        &&& forall|i: int| 0 <= i < n - 1 ==> !step_ok(#[trigger] self.steps[i])
        &&& match self.phase {
            EscalationPhase::Command(t) => {
                &&& tier_index(t) == n
                &&& n < tier_limit(self.mode)
                &&& (n > 0 ==> !step_ok(self.steps[n - 1]))
            },
            EscalationPhase::Probing { tier, attempts } => {
                &&& tier_index(tier) == n
                &&& n < tier_limit(self.mode)
                &&& attempts < PROBE_RETRIES
                &&& (n > 0 ==> !step_ok(self.steps[n - 1]))
            },
            EscalationPhase::Done { final_ok } => {
                &&& n > 0
                &&& final_ok == step_ok(self.steps[n - 1])
            },
        }
    }
}

/// The phase after tier `t` has ended, `ok` telling whether the gateway is
/// back.
fn next_phase(mode: RestartMode, t: RestartTier, ok: bool) -> (p: EscalationPhase)
    ensures
        p == after_tier(mode, t, ok),
{
    if ok {
        return EscalationPhase::Done { final_ok: true };
    }
    let next = match t {
        RestartTier::GatewayRestart => if mode == RestartMode::Manual {
            None
        } else {
            Some(RestartTier::DoctorFix)
        },
        RestartTier::DoctorFix => if mode == RestartMode::Aggressive {
            Some(RestartTier::InstallForce)
        } else {
            None
        },
        RestartTier::InstallForce => None,
    };
    match next {
        Some(n) => EscalationPhase::Command(n),
        None => EscalationPhase::Done { final_ok: false },
    }
}

/// The action that starts a phase.
fn action_of(phase: EscalationPhase) -> (a: EscalationAction)
    ensures
        a == action_for(phase),
{
    match phase {
        EscalationPhase::Command(t) => EscalationAction::RunCommand(t),
        EscalationPhase::Probing { .. } => EscalationAction::ProbeAfter(PROBE_EVERY_MS),
        EscalationPhase::Done { .. } => EscalationAction::Finished,
    }
}

impl Escalation {
    #[verifier::type_invariant]
    spec fn inv(self) -> bool {
        self@.wf()
    }

    /// Starts an escalation: the first action is always tier 1.
    pub fn start(mode: RestartMode) -> (r: (Escalation, EscalationAction))
        ensures
            r.0@.wf(),
            r.0@.mode == mode,
            r.0@.steps.len() == 0,
            r.0@.phase == EscalationPhase::Command(RestartTier::GatewayRestart),
            r.1 == EscalationAction::RunCommand(RestartTier::GatewayRestart),
    {
        (
            Escalation {
                mode,
                steps: Vec::new(),
                phase: EscalationPhase::Command(RestartTier::GatewayRestart),
            },
            EscalationAction::RunCommand(RestartTier::GatewayRestart),
        )
    }

    /// How far the escalation may go.
    pub fn mode(&self) -> (m: RestartMode)
        ensures
            m == self@.mode,
    {
        self.mode
    }

    /// Where the escalation stands.
    pub fn phase(&self) -> (p: EscalationPhase)
        ensures
            p == self@.phase,
    {
        self.phase
    }

    /// The tiers done so far, in order.
    pub fn steps(&self) -> (s: &Vec<RestartStep>)
        ensures
            s@ == self@.steps,
    {
        &self.steps
    }

    /// Whether `ev` answers what the escalation waits for.
    pub fn expects(&self, ev: &EscalationEvent) -> (r: bool)
        ensures
            r == answers(self@.phase, *ev),
    {
        match self.phase {
            EscalationPhase::Command(_) => match ev {
                EscalationEvent::CommandFinished(_) => true,
                EscalationEvent::ProbeFinished(_) => false,
            },
            EscalationPhase::Probing { .. } => match ev {
                EscalationEvent::CommandFinished(_) => false,
                EscalationEvent::ProbeFinished(_) => true,
            },
            EscalationPhase::Done { .. } => false,
        }
    }

    /// Takes what the last command or probe gave and decides what comes next.
    pub fn on_event(&mut self, ev: EscalationEvent) -> (act: EscalationAction)
        requires
            answers(old(self)@.phase, ev),
        ensures
            final(self)@.wf(),
            final(self)@.mode == old(self)@.mode,
            act == action_for(final(self)@.phase),
            work_left(final(self)@.phase) < work_left(old(self)@.phase),
            match (old(self)@.phase, ev) {
                (EscalationPhase::Command(t), EscalationEvent::CommandFinished(Err(e))) => {
                    &&& final(self)@.steps.len() == old(self)@.steps.len() + 1
                    &&& final(self)@.steps.drop_last() == old(self)@.steps
                    &&& failed_step(final(self)@.steps.last(), t, e@)
                    &&& final(self)@.phase == after_tier(old(self)@.mode, t, false)
                },
                (EscalationPhase::Command(t), EscalationEvent::CommandFinished(Ok(()))) => {
                    &&& final(self)@.steps == old(self)@.steps
                    &&& final(self)@.phase == EscalationPhase::Probing { tier: t, attempts: 0 }
                },
                (
                    EscalationPhase::Probing { tier, attempts },
                    EscalationEvent::ProbeFinished(reachable),
                ) => if !reachable && attempts + 1 < PROBE_RETRIES {
                    &&& final(self)@.steps == old(self)@.steps
                    &&& final(self)@.phase == EscalationPhase::Probing {
                        tier,
                        attempts: (attempts + 1) as u32,
                    }
                } else {
                    &&& final(self)@.steps.len() == old(self)@.steps.len() + 1
                    &&& final(self)@.steps.drop_last() == old(self)@.steps
                    &&& probed_step(final(self)@.steps.last(), tier, reachable)
                    &&& final(self)@.phase == after_tier(old(self)@.mode, tier, reachable)
                },
                _ => false,
            },
    {
        proof {
            use_type_invariant(&*self);
        }
        let mode = self.mode;
        let mut current = Escalation {
            mode,
            steps: Vec::new(),
            phase: EscalationPhase::Command(RestartTier::GatewayRestart),
        };
        std::mem::swap(self, &mut current);
        proof {
            use_type_invariant(&current);
        }
        let Escalation { mode: _, steps: mut steps, phase } = current;
        let ghost old_steps = steps@;
        let new_phase = match phase {
            EscalationPhase::Command(t) => match ev {
                EscalationEvent::CommandFinished(Ok(())) => EscalationPhase::Probing {
                    tier: t,
                    attempts: 0,
                },
                EscalationEvent::CommandFinished(Err(e)) => {
                    steps.push(
                        RestartStep {
                            action: t.action(),
                            success: false,
                            probe_after_ok: false,
                            error: Some(e),
                        },
                    );
                    assert(steps@.drop_last() =~= old_steps);
                    next_phase(mode, t, false)
                },
                EscalationEvent::ProbeFinished(_) => {
                    proof {
                        assert(false);
                    }
                    phase
                },
            },
            EscalationPhase::Probing { tier, attempts } => match ev {
                EscalationEvent::ProbeFinished(reachable) => {
                    if !reachable && attempts + 1 < PROBE_RETRIES {
                        EscalationPhase::Probing { tier, attempts: attempts + 1 }
                    } else {
                        steps.push(
                            RestartStep {
                                action: tier.action(),
                                success: true,
                                probe_after_ok: reachable,
                                error: None,
                            },
                        );
                        assert(steps@.drop_last() =~= old_steps);
                        next_phase(mode, tier, reachable)
                    }
                },
                EscalationEvent::CommandFinished(_) => {
                    proof {
                        assert(false);
                    }
                    phase
                },
            },
            EscalationPhase::Done { .. } => {
                proof {
                    assert(false);
                }
                phase
            },
        };
        *self = Escalation { mode, steps, phase: new_phase };
        action_of(new_phase)
    }

    /// The report of a finished escalation.
    pub fn into_report(self) -> (r: RestartReport)
        requires
            self@.phase is Done,
        ensures
            r.steps@ == self@.steps,
            r.final_ok == step_ok(self@.steps.last()),
    {
        proof {
            use_type_invariant(&self);
        }
        let final_ok = match self.phase {
            EscalationPhase::Done { final_ok } => final_ok,
            _ => false,
        };
        let Escalation { mode: _, steps, phase: _ } = self;
        RestartReport { steps, final_ok }
    }
}

/// The escalation never goes past what its mode allows: a manual
/// escalation runs only `gateway restart`, a safe one never reaches
/// `gateway install --force`, and at most three tiers are ever recorded.
pub proof fn law_escalation_respects_mode(esc: EscalationView)
    requires
        esc.wf(),
    ensures
        esc.steps.len() <= tier_limit(esc.mode) <= 3,
        esc.phase matches EscalationPhase::Command(t) ==> tier_index(t) < tier_limit(esc.mode),
        esc.phase matches EscalationPhase::Probing { tier, .. } ==> tier_index(tier) < tier_limit(
            esc.mode,
        ),
        esc.mode == RestartMode::Manual ==> esc.steps.len() <= 1 && !(esc.phase matches EscalationPhase::Command(RestartTier::DoctorFix)),
        esc.mode != RestartMode::Aggressive ==> esc.steps.len() <= 2 && !(esc.phase matches EscalationPhase::Command(RestartTier::InstallForce)),
{
}

/// The escalation stops at the first tier that brings the gateway back: every
/// recorded tier but the last failed to, the tiers are recorded in their
/// order, and a finished escalation is a success exactly when its last tier
/// brought the gateway back.
pub proof fn law_escalation_stops_at_first_recovery(esc: EscalationView)
    requires
        esc.wf(),
    ensures
        forall|i: int| 0 <= i < esc.steps.len() - 1 ==> !step_ok(#[trigger] esc.steps[i]),
        forall|i: int|
            0 <= i < esc.steps.len() ==> (#[trigger] esc.steps[i]).action@ == tier_action(
                tier_at(i as nat),
            ),
        esc.phase matches EscalationPhase::Done { final_ok } ==> esc.steps.len() > 0 && final_ok
            == step_ok(esc.steps.last()),
        !(esc.phase is Done) ==> forall|i: int| 0 <= i < esc.steps.len() ==> !step_ok(#[trigger] esc.steps[i]),
{
}

/// At most three probes follow a command, and an escalation ends after at
/// most twelve decisions: each one lowers [`work_left`], which starts at
/// twelve.
pub proof fn law_escalation_is_bounded(esc: EscalationView)
    requires
        esc.wf(),
    ensures
        esc.phase matches EscalationPhase::Probing { attempts, .. } ==> attempts < PROBE_RETRIES,
        work_left(esc.phase) <= 12,
        work_left(EscalationPhase::Command(RestartTier::GatewayRestart)) == 12,
        work_left(esc.phase) == 0 <==> esc.phase is Done,
{
}

/// Whether the gateway counts as reachable after a probe: the probe ran and
/// said `ok`; a probe that failed to run counts as unreachable.
pub fn reachable_from_probe(outcome: &Result<GatewayProbe, String>) -> (r: bool)
    ensures
        r == (outcome matches Ok(p) && p.ok),
{
    match outcome {
        Ok(p) => p.ok,
        Err(_) => false,
    }
}

} // verus!
