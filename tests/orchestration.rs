use promptkey::orchestrator::{InjectionError, Orchestration, OrchestratorAction};
use promptkey::strategy::InjectionStrategy::{Clipboard, SendInput, UIA};

#[test]
fn first_success_wins() {
    let mut o = Orchestration::new(vec![UIA, Clipboard, SendInput]);
    assert_eq!(o.action(), OrchestratorAction::Attempt(UIA));
    assert_eq!(o.report(false, 2000), OrchestratorAction::Attempt(Clipboard));
    assert_eq!(o.report(true, 12_000), OrchestratorAction::Succeeded(Clipboard, 12));
    assert_eq!(o.outcome(), Some(Ok((Clipboard, 12))));
    assert_eq!(o.report(false, 1), OrchestratorAction::Succeeded(Clipboard, 12));
}

#[test]
fn all_strategies_failed() {
    let mut o = Orchestration::new(vec![UIA, Clipboard, SendInput]);
    assert_eq!(o.report(false, 10), OrchestratorAction::Attempt(Clipboard));
    assert_eq!(o.report(false, 10), OrchestratorAction::Attempt(SendInput));
    assert_eq!(
        o.report(false, 10),
        OrchestratorAction::Failed(InjectionError::AllStrategiesFailed)
    );
    assert_eq!(o.outcome(), Some(Err(InjectionError::AllStrategiesFailed)));
    assert_eq!(InjectionError::AllStrategiesFailed.message(), "All injection strategies failed");
}

#[test]
fn elapsed_rounds_up_to_whole_milliseconds() {
    let mut o = Orchestration::new(vec![Clipboard]);
    assert_eq!(o.report(true, 350), OrchestratorAction::Succeeded(Clipboard, 1));
    let mut o = Orchestration::new(vec![Clipboard]);
    assert_eq!(o.report(true, 3000), OrchestratorAction::Succeeded(Clipboard, 3));
    let mut o = Orchestration::new(vec![Clipboard]);
    assert_eq!(o.report(true, 3001), OrchestratorAction::Succeeded(Clipboard, 4));
}

#[test]
fn empty_plan_fails_at_once() {
    let o = Orchestration::new(Vec::new());
    assert_eq!(o.action(), OrchestratorAction::Failed(InjectionError::AllStrategiesFailed));
    assert_eq!(o.outcome(), Some(Err(InjectionError::AllStrategiesFailed)));
}
