use universe_supervisor::orchestrator::{
    setup_plan, RunPhase, SessionRefusal, SetupAction, SetupRun, SetupSession, SetupStage, StepOutcome,
    CORRUPT_DB_EXIT_CODE,
};
use universe_supervisor::resolver::BinaryName;

fn run_until(run: &mut SetupRun, target: SetupAction) {
    while let Some(step) = run.current() {
        if step.action == target {
            return;
        }
        run.report(StepOutcome::Succeeded);
    }
    panic!("step not reached");
}

#[test]
fn plan_without_update_or_pool() {
    let plan = setup_plan(false, false);
    let actions: Vec<SetupAction> = plan.iter().map(|s| s.action).collect();
    assert_eq!(
        actions,
        vec![
            SetupAction::Announce,
            SetupAction::InitTelemetry,
            SetupAction::ReadVersion(BinaryName::MinotariNode),
            SetupAction::ReadVersion(BinaryName::MergeMiningProxy),
            SetupAction::ReadVersion(BinaryName::Wallet),
            SetupAction::ReadVersion(BinaryName::ShaP2pool),
            SetupAction::ReadVersion(BinaryName::GpuMiner),
            SetupAction::StartNode,
            SetupAction::StartWallet,
            SetupAction::WaitNodeSync,
            SetupAction::StartMmProxy,
            SetupAction::WaitMmProxyReady,
            SetupAction::Complete,
        ]
    );
}

#[test]
fn plan_with_update_and_pool_has_rising_progress() {
    let plan = setup_plan(true, true);
    assert_eq!(plan.len(), 22);
    let maxima: Vec<u64> = plan.iter().filter_map(|s| s.progress.map(|p| p.max)).collect();
    assert_eq!(maxima, vec![10, 15, 20, 25, 30, 35, 40, 75, 85, 100]);
    let stages: Vec<&str> = plan.iter().filter_map(|s| s.progress.map(|p| p.stage.title())).collect();
    assert_eq!(stages[0], "checking-latest-version-node");
    assert_eq!(stages[5], "checking-latest-version-sha-p2pool");
    assert_eq!(stages[8], "starting-p2pool");
    assert_eq!(SetupStage::ApplicationStarted.title(), "application-started");
    assert_eq!(SetupStage::StartingUp.title(), "starting-up");
}

#[test]
fn successful_run_finishes() {
    let mut run = SetupRun::new(true, false);
    let mut performed = 0;
    while run.current().is_some() {
        run.report(StepOutcome::Succeeded);
        performed += 1;
    }
    assert_eq!(performed, 14);
    assert_eq!(run.state().phase, RunPhase::Finished);
}

#[test]
fn failed_upgrade_is_tolerated() {
    let mut run = SetupRun::new(false, true);
    run_until(&mut run, SetupAction::EnsureLatest(BinaryName::Wallet));
    run.report(StepOutcome::Failed(None));
    assert_eq!(run.current().unwrap().action, SetupAction::EnsureLatest(BinaryName::GpuMiner));
    assert_eq!(run.state().phase, RunPhase::InProgress);
}

#[test]
fn failed_gpu_detection_is_fatal() {
    let mut run = SetupRun::new(false, true);
    run_until(&mut run, SetupAction::DetectGpu);
    run.report(StepOutcome::Failed(None));
    assert_eq!(run.state().phase, RunPhase::Failed(SetupAction::DetectGpu));
    assert!(run.current().is_none());
}

#[test]
fn corrupt_database_twice_is_fatal_after_one_clean() {
    let mut run = SetupRun::new(false, false);
    run_until(&mut run, SetupAction::StartNode);
    let mut cleans = 0;
    let mut wallet_started = false;
    let mut node_failures = 0;
    while let Some(step) = run.current() {
        match step.action {
            SetupAction::StartNode => {
                node_failures += 1;
                run.report(StepOutcome::Failed(Some(CORRUPT_DB_EXIT_CODE)));
            }
            SetupAction::CleanNodeData => {
                cleans += 1;
                run.report(StepOutcome::Succeeded);
            }
            SetupAction::StartWallet => {
                wallet_started = true;
                run.report(StepOutcome::Succeeded);
            }
            _ => run.report(StepOutcome::Succeeded),
        }
    }
    assert_eq!(node_failures, 2);
    assert_eq!(cleans, 1);
    assert!(!wallet_started);
    assert_eq!(run.state().phase, RunPhase::Failed(SetupAction::StartNode));
}

#[test]
fn corrupt_database_then_success_continues() {
    let mut run = SetupRun::new(false, false);
    run_until(&mut run, SetupAction::StartNode);
    run.report(StepOutcome::Failed(Some(CORRUPT_DB_EXIT_CODE)));
    assert_eq!(run.current().unwrap().action, SetupAction::CleanNodeData);
    run.report(StepOutcome::Succeeded);
    assert_eq!(run.current().unwrap().action, SetupAction::StartNode);
    run.report(StepOutcome::Succeeded);
    assert_eq!(run.current().unwrap().action, SetupAction::StartWallet);
}

#[test]
fn other_node_failure_is_fatal_at_once() {
    let mut run = SetupRun::new(false, false);
    run_until(&mut run, SetupAction::StartNode);
    run.report(StepOutcome::Failed(Some(1)));
    assert_eq!(run.state().phase, RunPhase::Failed(SetupAction::StartNode));
    assert_eq!(run.state().node_failures, 0);
}

#[test]
fn setup_runs_once_per_session() {
    let mut session = SetupSession::new();
    assert_eq!(session.try_begin(), Ok(()));
    assert_eq!(session.try_begin(), Err(SessionRefusal::AlreadyRunning));
    session.end(false);
    assert_eq!(session.try_begin(), Ok(()));
    session.end(true);
    assert!(session.is_finished());
    assert_eq!(session.try_begin(), Err(SessionRefusal::AlreadyFinished));
}
