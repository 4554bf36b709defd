use taunote_llm::errors::LlmError;
use taunote_llm::errors::ProbePhase;
use taunote_llm::startup::ProbeConfig;
use taunote_llm::startup::StartupAction;
use taunote_llm::startup::StartupEvent;
use taunote_llm::startup::StartupMachine;
use taunote_llm::startup::StartupPhase;

fn default_machine() -> StartupMachine {
    StartupMachine::new(
        ProbeConfig::reachability_default(),
        ProbeConfig::functional_default(),
    )
}

#[test]
fn default_budgets_match_the_protocol() {
    let r = ProbeConfig::reachability_default();
    assert_eq!(r.retries, 10);
    assert_eq!(r.delay_ms, 500);
    let f = ProbeConfig::functional_default();
    assert_eq!(f.retries, 60);
    assert_eq!(f.delay_ms, 500);
}

#[test]
fn successful_startup_runs_spawn_then_both_probes() {
    let mut m = default_machine();
    assert_eq!(m.phase, StartupPhase::NotStarted);
    assert_eq!(m.step(StartupEvent::Launch), StartupAction::SpawnServer);
    assert_eq!(m.step(StartupEvent::SpawnSucceeded), StartupAction::ProbeConnection);
    assert_eq!(m.phase, StartupPhase::Reachability { attempts: 0 });
    assert_eq!(m.step(StartupEvent::AttemptSucceeded), StartupAction::ProbeCompletion);
    assert_eq!(m.phase, StartupPhase::Functional { attempts: 0 });
    assert_eq!(m.step(StartupEvent::AttemptSucceeded), StartupAction::Publish);
    assert_eq!(m.phase, StartupPhase::Ready);
    assert_eq!(m.failure, None);
}

#[test]
fn a_failed_spawn_fails_startup_permanently() {
    let mut m = default_machine();
    m.step(StartupEvent::Launch);
    let a = m.step(StartupEvent::SpawnFailed("missing binary".to_string()));
    assert_eq!(a, StartupAction::ReportFailure);
    assert_eq!(m.phase, StartupPhase::Failed);
    assert_eq!(m.failure, Some(LlmError::Spawn("missing binary".to_string())));
    // No later event revives a failed startup.
    assert_eq!(m.step(StartupEvent::AttemptSucceeded), StartupAction::Ignore);
    assert_eq!(m.step(StartupEvent::Launch), StartupAction::Ignore);
    assert_eq!(m.phase, StartupPhase::Failed);
}

#[test]
fn reachability_budget_exhaustion_terminates_the_server() {
    let mut m = StartupMachine::new(
        ProbeConfig { retries: 3, delay_ms: 7 },
        ProbeConfig::functional_default(),
    );
    m.step(StartupEvent::Launch);
    m.step(StartupEvent::SpawnSucceeded);
    assert_eq!(m.step(StartupEvent::AttemptFailed), StartupAction::RetryAfterDelay(7, ProbePhase::Reachability));
    assert_eq!(m.step(StartupEvent::AttemptFailed), StartupAction::RetryAfterDelay(7, ProbePhase::Reachability));
    assert_eq!(m.step(StartupEvent::AttemptFailed), StartupAction::TerminateServer);
    assert_eq!(m.phase, StartupPhase::Failed);
    assert_eq!(
        m.failure,
        Some(LlmError::ReadinessTimeout(ProbePhase::Reachability))
    );
}

#[test]
fn functional_budget_exhaustion_never_publishes() {
    let mut m = StartupMachine::new(
        ProbeConfig::reachability_default(),
        ProbeConfig { retries: 2, delay_ms: 250 },
    );
    m.step(StartupEvent::Launch);
    m.step(StartupEvent::SpawnSucceeded);
    m.step(StartupEvent::AttemptSucceeded);
    assert_eq!(m.phase, StartupPhase::Functional { attempts: 0 });
    let first = m.step(StartupEvent::AttemptFailed);
    assert_eq!(first, StartupAction::RetryAfterDelay(250, ProbePhase::Functional));
    let second = m.step(StartupEvent::AttemptFailed);
    // The protocol ends by terminating the server; `Publish` never appeared,
    // so the worker never starts and no real completion request is sent.
    assert_eq!(second, StartupAction::TerminateServer);
    assert_eq!(m.phase, StartupPhase::Failed);
    assert_eq!(
        m.failure,
        Some(LlmError::ReadinessTimeout(ProbePhase::Functional))
    );
}
