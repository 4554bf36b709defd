use vstd::prelude::*;
use crate::errors::LlmError;
use crate::errors::ProbePhase;

verus! {

/// Retry budget and inter-attempt delay of one readiness phase.
#[derive(Debug, Clone, Copy, PartialEq, Eq, Structural)]
pub struct ProbeConfig {
    /// How many attempts the phase is allowed before it times out.
    pub retries: u32,
    /// Milliseconds to wait between attempts.
    pub delay_ms: u64,
}

impl ProbeConfig {
    /// A phase must be allowed at least one attempt.
    pub open spec fn valid(self) -> bool {
        self.retries >= 1
    }

    /// Default budget of the reachability phase: ten attempts, half a
    /// second apart.
    pub fn reachability_default() -> (c: ProbeConfig)
        ensures
            c == (ProbeConfig { retries: 10, delay_ms: 500 }),
    {
        ProbeConfig { retries: 10, delay_ms: 500 }
    }

    /// Default budget of the functional phase: sixty attempts, half a
    /// second apart.
    pub fn functional_default() -> (c: ProbeConfig)
        ensures
            c == (ProbeConfig { retries: 60, delay_ms: 500 }),
    {
        ProbeConfig { retries: 60, delay_ms: 500 }
    }
}

/// Where the startup protocol stands.
#[derive(Debug, Clone, Copy, PartialEq, Eq, Structural)]
pub enum StartupPhase {
    /// Nothing has happened yet.
    NotStarted,
    /// The spawn of the server subprocess is pending.
    Spawning,
    /// The server is spawned; waiting for it to accept a raw connection.
    /// `attempts` counts the failed attempts so far.
    Reachability { attempts: u32 },
    /// The server accepts connections; waiting for a minimal completion
    /// request to succeed.  `attempts` counts the failed attempts so far.
    Functional { attempts: u32 },
    /// The server answers completions; the queue may be published.
    Ready,
    /// Startup failed.  This phase is terminal.
    Failed,
}

/// What the owner of the protocol observed since the last step.
#[derive(Debug)]
pub enum StartupEvent {
    /// The owner begins initialization.
    Launch,
    /// The subprocess spawn succeeded.
    SpawnSucceeded,
    /// The subprocess could not be started; carries the launcher's message.
    SpawnFailed(String),
    /// The pending probe attempt succeeded.
    AttemptSucceeded,
    /// The pending probe attempt failed.
    AttemptFailed,
}

/// What the owner of the protocol must do next.
#[derive(Debug, Clone, Copy, PartialEq, Eq, Structural)]
pub enum StartupAction {
    /// Launch the server subprocess with the configured arguments.
    SpawnServer,
    /// Attempt one raw connection to the server's address.
    ProbeConnection,
    /// Send the minimal completion request to the completion endpoint.
    ProbeCompletion,
    /// Wait the given number of milliseconds, then re-attempt the named
    /// probe.
    RetryAfterDelay(u64, ProbePhase),
    /// Terminate the spawned subprocess: startup has failed while a server
    /// was running.
    TerminateServer,
    /// Report the failure; no subprocess is running.
    ReportFailure,
    /// The protocol is complete: publish the queue and start the worker.
    Publish,
    /// The event does not apply to the current phase; do nothing.
    Ignore,
}

/// The startup protocol of the supervisor, `spawn` then the two readiness
/// phases, as a state machine.  Its owner performs each returned action
/// (spawn, connect, request, sleep, terminate) and feeds the outcome back
/// as the next event.
pub struct StartupMachine {
    /// Budget of the reachability phase.
    pub reach_cfg: ProbeConfig,
    /// Budget of the functional phase.
    pub func_cfg: ProbeConfig,
    /// Where the protocol stands.
    pub phase: StartupPhase,
    /// Why it failed, once it has.
    pub failure: Option<LlmError>,
}

impl StartupMachine {
    /// The machine's invariant: budgets are valid, attempt counters stay
    /// inside them, and a failure reason is recorded exactly in `Failed`.
    pub open spec fn wf(self) -> bool {
        &&& self.reach_cfg.valid()
        &&& self.func_cfg.valid()
        &&& (self.phase is Failed <==> self.failure is Some)
        &&& match self.phase {
            StartupPhase::Reachability { attempts } => attempts < self.reach_cfg.retries,
            StartupPhase::Functional { attempts } => attempts < self.func_cfg.retries,
            _ => true,
        }
        &&& match self.failure {
            Some(e) => e matches LlmError::Spawn(_) || e matches LlmError::ReadinessTimeout(_),
            None => true,
        }
    }

    /// The server subprocess is running exactly in these phases.
    pub open spec fn server_running(self) -> bool {
        ||| self.phase matches StartupPhase::Reachability { .. }
        ||| self.phase matches StartupPhase::Functional { .. }
        ||| self.phase is Ready
    }

    /// The transition relation: next machine and action for one event.
    pub open spec fn step_spec(self, ev: StartupEvent) -> (StartupMachine, StartupAction) {
        match (self.phase, ev) {
            (StartupPhase::NotStarted, StartupEvent::Launch) => (
                StartupMachine { phase: StartupPhase::Spawning, ..self },
                StartupAction::SpawnServer,
            ),
            (StartupPhase::Spawning, StartupEvent::SpawnSucceeded) => (
                StartupMachine { phase: StartupPhase::Reachability { attempts: 0 }, ..self },
                StartupAction::ProbeConnection,
            ),
            (StartupPhase::Spawning, StartupEvent::SpawnFailed(msg)) => (
                StartupMachine {
                    phase: StartupPhase::Failed,
                    failure: Some(LlmError::Spawn(msg)),
                    ..self
                },
                StartupAction::ReportFailure,
            ),
            (StartupPhase::Reachability { attempts: _ }, StartupEvent::AttemptSucceeded) => (
                StartupMachine { phase: StartupPhase::Functional { attempts: 0 }, ..self },
                StartupAction::ProbeCompletion,
            ),
            (StartupPhase::Reachability { attempts }, StartupEvent::AttemptFailed) => if attempts
                + 1 < self.reach_cfg.retries {
                (
                    StartupMachine {
                        phase: StartupPhase::Reachability { attempts: (attempts + 1) as u32 },
                        ..self
                    },
                    StartupAction::RetryAfterDelay(self.reach_cfg.delay_ms, ProbePhase::Reachability),
                )
            } else {
                (
                    StartupMachine {
                        phase: StartupPhase::Failed,
                        failure: Some(LlmError::ReadinessTimeout(ProbePhase::Reachability)),
                        ..self
                    },
                    StartupAction::TerminateServer,
                )
            },
            (StartupPhase::Functional { attempts: _ }, StartupEvent::AttemptSucceeded) => (
                StartupMachine { phase: StartupPhase::Ready, ..self },
                StartupAction::Publish,
            ),
            (StartupPhase::Functional { attempts }, StartupEvent::AttemptFailed) => if attempts
                + 1 < self.func_cfg.retries {
                (
                    StartupMachine {
                        phase: StartupPhase::Functional { attempts: (attempts + 1) as u32 },
                        ..self
                    },
                    StartupAction::RetryAfterDelay(self.func_cfg.delay_ms, ProbePhase::Functional),
                )
            } else {
                (
                    StartupMachine {
                        phase: StartupPhase::Failed,
                        failure: Some(LlmError::ReadinessTimeout(ProbePhase::Functional)),
                        ..self
                    },
                    StartupAction::TerminateServer,
                )
            },
            (_, _) => (self, StartupAction::Ignore),
        }
    }

    /// A machine before `Launch`, with the two phase budgets.
    pub fn new(reach_cfg: ProbeConfig, func_cfg: ProbeConfig) -> (m: StartupMachine)
        requires
            reach_cfg.valid(),
            func_cfg.valid(),
        ensures
            m == (StartupMachine {
                reach_cfg,
                func_cfg,
                phase: StartupPhase::NotStarted,
                failure: None,
            }),
            m.wf(),
    {
        StartupMachine { reach_cfg, func_cfg, phase: StartupPhase::NotStarted, failure: None }
    }

    /// Feeds one event to the machine; the returned action is what the
    /// owner must perform next.
    pub fn step(&mut self, ev: StartupEvent) -> (a: StartupAction)
        requires
            old(self).wf(),
        ensures
            (*final(self), a) == old(self).step_spec(ev),
            final(self).wf(),
    {
        let phase = self.phase;
        match (phase, ev) {
            (StartupPhase::NotStarted, StartupEvent::Launch) => {
                self.phase = StartupPhase::Spawning;
                StartupAction::SpawnServer
            },
            (StartupPhase::Spawning, StartupEvent::SpawnSucceeded) => {
                self.phase = StartupPhase::Reachability { attempts: 0 };
                StartupAction::ProbeConnection
            },
            (StartupPhase::Spawning, StartupEvent::SpawnFailed(msg)) => {
                self.phase = StartupPhase::Failed;
                self.failure = Some(LlmError::Spawn(msg));
                StartupAction::ReportFailure
            },
            (StartupPhase::Reachability { attempts: _ }, StartupEvent::AttemptSucceeded) => {
                self.phase = StartupPhase::Functional { attempts: 0 };
                StartupAction::ProbeCompletion
            },
            (StartupPhase::Reachability { attempts }, StartupEvent::AttemptFailed) => {
                if attempts + 1 < self.reach_cfg.retries {
                    self.phase = StartupPhase::Reachability { attempts: attempts + 1 };
                    StartupAction::RetryAfterDelay(self.reach_cfg.delay_ms, ProbePhase::Reachability)
                } else {
                    self.phase = StartupPhase::Failed;
                    self.failure = Some(LlmError::ReadinessTimeout(ProbePhase::Reachability));
                    StartupAction::TerminateServer
                }
            },
            (StartupPhase::Functional { attempts: _ }, StartupEvent::AttemptSucceeded) => {
                self.phase = StartupPhase::Ready;
                StartupAction::Publish
            },
            (StartupPhase::Functional { attempts }, StartupEvent::AttemptFailed) => {
                if attempts + 1 < self.func_cfg.retries {
                    self.phase = StartupPhase::Functional { attempts: attempts + 1 };
                    StartupAction::RetryAfterDelay(self.func_cfg.delay_ms, ProbePhase::Functional)
                } else {
                    self.phase = StartupPhase::Failed;
                    self.failure = Some(LlmError::ReadinessTimeout(ProbePhase::Functional));
                    StartupAction::TerminateServer
                }
            },
            (_, _) => StartupAction::Ignore,
        }
    }
}

/// The machine after the events of `evs`, fed in order.
pub open spec fn run_steps(m: StartupMachine, evs: Seq<StartupEvent>) -> StartupMachine
    decreases evs.len(),
{
    if evs.len() == 0 {
        m
    } else {
        run_steps(m.step_spec(evs[0]).0, evs.drop_first())
    }
}

/// Every step preserves the machine's invariant.
pub proof fn lemma_step_preserves_wf(m: StartupMachine, ev: StartupEvent)
    requires
        m.wf(),
    ensures
        m.step_spec(ev).0.wf(),
{
}

/// A failed spawn ends the protocol at once: the machine is failed with the
/// spawn error, and no subprocess is left running behind it.
pub proof fn lemma_spawn_failure(m: StartupMachine, msg: String)
    requires
        m.wf(),
        m.phase is Spawning,
    ensures
        ({
            let (m2, a) = m.step_spec(StartupEvent::SpawnFailed(msg));
            &&& m2.phase is Failed
            &&& m2.failure == Some(LlmError::Spawn(msg))
            &&& a is ReportFailure
            &&& !m2.server_running()
        }),
{
}

/// Failure is permanent: no later event moves the machine out of `Failed`.
/// A handle that publishes only on `Ready` therefore keeps reporting the
/// queue uninitialized forever after a failed startup.
pub proof fn lemma_failure_is_permanent(m: StartupMachine, evs: Seq<StartupEvent>)
    requires
        m.phase is Failed,
    ensures
        run_steps(m, evs) == m,
    decreases evs.len(),
{
    if evs.len() > 0 {
        assert(m.step_spec(evs[0]).0 == m);
        lemma_failure_is_permanent(m, evs.drop_first());
    }
}

/// No subprocess is orphaned: every single step that gives up a running
/// server emits the terminate action.
pub proof fn lemma_no_orphan(m: StartupMachine, ev: StartupEvent)
    requires
        m.wf(),
    ensures
        ({
            let (m2, a) = m.step_spec(ev);
            m.server_running() && !m2.server_running() ==> a is TerminateServer
        }),
{
}

/// While every functional-phase attempt fails, the protocol stays in the
/// functional phase or is already failed — it never reaches `Ready`, so the
/// worker is never started and the client never sees a real completion
/// request.
pub proof fn lemma_functional_never_ready(m: StartupMachine, evs: Seq<StartupEvent>)
    requires
        m.wf(),
        m.phase matches StartupPhase::Functional { .. } || m.phase is Failed,
        forall|i: int| 0 <= i < evs.len() ==> evs[i] is AttemptFailed,
    ensures
        run_steps(m, evs).phase matches StartupPhase::Functional { .. } || run_steps(
            m,
            evs,
        ).phase is Failed,
        run_steps(m, evs).wf(),
    decreases evs.len(),
{
    if evs.len() > 0 {
        let m1 = m.step_spec(evs[0]).0;
        lemma_step_preserves_wf(m, evs[0]);
        lemma_functional_never_ready(m1, evs.drop_first());
    }
}

/// If the functional phase never succeeds within its retry budget, the
/// protocol fails with the functional readiness timeout.
pub proof fn lemma_functional_exhaustion(m: StartupMachine, evs: Seq<StartupEvent>)
    requires
        m.wf(),
        m.phase matches StartupPhase::Functional { .. },
        forall|i: int| 0 <= i < evs.len() ==> evs[i] is AttemptFailed,
        m.phase matches StartupPhase::Functional { attempts } && evs.len() >= m.func_cfg.retries
            - attempts,
    ensures
        run_steps(m, evs).phase is Failed,
        run_steps(m, evs).failure == Some(LlmError::ReadinessTimeout(ProbePhase::Functional)),
    decreases evs.len(),
{
    let m1 = m.step_spec(evs[0]).0;
    if m1.phase is Failed {
        lemma_failure_is_permanent(m1, evs.drop_first());
    } else {
        lemma_step_preserves_wf(m, evs[0]);
        lemma_functional_exhaustion(m1, evs.drop_first());
    }
}

} // verus!
