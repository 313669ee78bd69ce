use tsw_io::endpoint::BackendEndpoint;
use tsw_io::orchestrator::FailureReason;
use tsw_io::orchestrator::LifecycleConfig;
use tsw_io::orchestrator::LifecycleEvent;
use tsw_io::orchestrator::LifecycleOrchestrator;
use tsw_io::orchestrator::LifecyclePhase;
use tsw_io::orchestrator::OrchestratorAction;
use tsw_io::poller::Phase;
use tsw_io::poller::phase_text;
use tsw_io::probe::ProbeResult;
use tsw_io::shutdown::ShutdownConfig;
use tsw_io::shutdown::ShutdownOutcome;
use tsw_io::shutdown::ShutdownReply;
use tsw_io::shutdown::classify_reply;
use tsw_io::shutdown::shutdown;
use tsw_io::supervisor::KillAction;
use tsw_io::supervisor::ProcessSupervisor;
use tsw_io::supervisor::SupervisorState;

fn test_config(max_attempts: u32) -> LifecycleConfig {
    LifecycleConfig {
        endpoint: BackendEndpoint::new(String::from("localhost"), 4000),
        max_attempts,
        interval_ms: 1000,
        shutdown: ShutdownConfig { request_timeout_ms: 2000, grace_period_ms: 500 },
    }
}

#[test]
fn terminate_is_idempotent() {
    let mut sup = ProcessSupervisor::new();
    sup.adopt(42);
    let first = sup.terminate();
    assert_eq!(first, KillAction::Signal { id: 42 });
    assert_eq!(sup.state, SupervisorState::Terminated { id: 42 });
    let second = sup.terminate();
    assert_eq!(second, KillAction::NoOp);
    assert_eq!(sup.state, SupervisorState::Terminated { id: 42 });
}

#[test]
fn record_spawn_installs_the_handle_or_reports_the_failure() {
    let mut sup = ProcessSupervisor::new();
    assert_eq!(sup.record_spawn(Some(31)), Ok(31));
    assert_eq!(sup.state, SupervisorState::Live { id: 31 });

    let mut failed = ProcessSupervisor::new();
    assert_eq!(failed.record_spawn(None), Err(tsw_io::supervisor::SpawnError));
    assert_eq!(failed.state, SupervisorState::Empty);
}

#[test]
fn terminate_after_natural_exit_is_a_no_op() {
    let mut sup = ProcessSupervisor::new();
    sup.adopt(7);
    sup.record_exit();
    assert_eq!(sup.state, SupervisorState::Terminated { id: 7 });
    assert_eq!(sup.terminate(), KillAction::NoOp);
}

#[test]
fn terminate_on_empty_slot_is_a_no_op() {
    let mut sup = ProcessSupervisor::new();
    assert_eq!(sup.terminate(), KillAction::NoOp);
    assert_eq!(sup.state, SupervisorState::Empty);
}

#[test]
fn classify_reply_covers_every_outcome() {
    assert_eq!(classify_reply(ShutdownReply::Status { code: 200 }), ShutdownOutcome::GracefulAcked);
    assert_eq!(
        classify_reply(ShutdownReply::Status { code: 500 }),
        ShutdownOutcome::GracefulTimedOut
    );
    assert_eq!(classify_reply(ShutdownReply::TimedOut), ShutdownOutcome::GracefulTimedOut);
    assert_eq!(classify_reply(ShutdownReply::ConnectionFailed), ShutdownOutcome::Unreachable);
}

#[test]
fn acknowledged_shutdown_never_kills() {
    let cfg = ShutdownConfig { request_timeout_ms: 2000, grace_period_ms: 500 };
    let mut sup = ProcessSupervisor::new();
    sup.adopt(42);
    let plan = shutdown(&mut sup, &cfg, ShutdownReply::Status { code: 200 });
    assert_eq!(plan.outcome, ShutdownOutcome::GracefulAcked);
    assert_eq!(plan.kill, KillAction::NoOp);
    assert_eq!(plan.wait_ms, 500);
    assert_eq!(sup.state, SupervisorState::Live { id: 42 });
}

#[test]
fn unreachable_shutdown_falls_back_to_one_forced_kill() {
    let cfg = ShutdownConfig { request_timeout_ms: 2000, grace_period_ms: 500 };
    let mut sup = ProcessSupervisor::new();
    sup.adopt(42);
    let plan = shutdown(&mut sup, &cfg, ShutdownReply::ConnectionFailed);
    assert_eq!(plan.outcome, ShutdownOutcome::ForcedKill);
    assert_eq!(plan.kill, KillAction::Signal { id: 42 });
    assert_eq!(plan.wait_ms, 0);
    assert_eq!(sup.state, SupervisorState::Terminated { id: 42 });
    assert_eq!(sup.terminate(), KillAction::NoOp);
}

#[test]
fn timed_out_shutdown_falls_back_to_forced_kill() {
    let cfg = ShutdownConfig { request_timeout_ms: 2000, grace_period_ms: 500 };
    let mut sup = ProcessSupervisor::new();
    sup.adopt(9);
    let plan = shutdown(&mut sup, &cfg, ShutdownReply::TimedOut);
    assert_eq!(plan.outcome, ShutdownOutcome::ForcedKill);
    assert_eq!(plan.kill, KillAction::Signal { id: 9 });
}

#[test]
fn shutdown_wait_never_exceeds_grace_period() {
    let cfg = ShutdownConfig { request_timeout_ms: 2000, grace_period_ms: 500 };
    let replies = [
        ShutdownReply::Status { code: 200 },
        ShutdownReply::Status { code: 502 },
        ShutdownReply::TimedOut,
        ShutdownReply::ConnectionFailed,
    ];
    for reply in replies {
        let mut sup = ProcessSupervisor::new();
        sup.adopt(1);
        let plan = shutdown(&mut sup, &cfg, reply);
        assert!(plan.wait_ms <= cfg.grace_period_ms);
    }
}

#[test]
fn healthy_on_attempt_3_of_60_reaches_running() {
    let mut probes: Vec<ProbeResult> = Vec::new();
    for i in 0..60 {
        if i == 2 {
            probes.push(ProbeResult::Healthy);
        } else {
            probes.push(ProbeResult::NotReady);
        }
    }
    let report = tsw_io::poller::wait_until_ready(&probes, 60, 1000);
    assert!(report.ready);
    assert_eq!(report.attempts, 3);
    assert_eq!(report.sleeps, 2);
    let texts: Vec<&str> = report.phases.iter().map(|p| phase_text(*p)).collect();
    assert_eq!(texts, vec!["starting", "starting", "starting"]);
    assert_eq!(report.phases, vec![Phase::Starting, Phase::Starting, Phase::Starting]);

    let mut orch = LifecycleOrchestrator::new(test_config(60));
    assert_eq!(orch.phase, LifecyclePhase::Launching);
    let a1 = orch.handle_event(LifecycleEvent::SpawnSucceeded { id: 11 });
    assert_eq!(a1, OrchestratorAction::AwaitReadiness);
    assert_eq!(orch.phase, LifecyclePhase::WaitingForReady);
    let a2 = orch.handle_event(LifecycleEvent::ReadinessResolved { ready: report.ready });
    assert_eq!(a2, OrchestratorAction::ShowMainSurface);
    assert_eq!(orch.phase, LifecyclePhase::Running);
}

#[test]
fn never_healthy_with_budget_5_fails_with_status_1() {
    let probes = vec![ProbeResult::NotReady; 5];
    let report = tsw_io::poller::wait_until_ready(&probes, 5, 1000);
    assert!(!report.ready);
    assert_eq!(report.attempts, 5);

    let mut orch = LifecycleOrchestrator::new(test_config(5));
    orch.handle_event(LifecycleEvent::SpawnSucceeded { id: 11 });
    let action = orch.handle_event(LifecycleEvent::ReadinessResolved { ready: report.ready });
    assert_eq!(
        action,
        OrchestratorAction::FailAndExit { reason: FailureReason::ReadinessTimeout, exit_code: 1 }
    );
    assert_eq!(orch.phase, LifecyclePhase::Failed);
    let after = orch.handle_event(LifecycleEvent::FailureHandled);
    assert_eq!(after, OrchestratorAction::Ignore);
    assert_eq!(orch.phase, LifecyclePhase::Terminated);
}

#[test]
fn spawn_failure_is_fatal_with_nonzero_status() {
    let mut orch = LifecycleOrchestrator::new(test_config(60));
    let action = orch.handle_event(LifecycleEvent::SpawnFailed);
    assert_eq!(
        action,
        OrchestratorAction::FailAndExit { reason: FailureReason::SpawnFailed, exit_code: 1 }
    );
    assert_eq!(orch.phase, LifecyclePhase::Failed);
}

#[test]
fn full_lifecycle_with_acknowledged_shutdown() {
    let mut orch = LifecycleOrchestrator::new(test_config(60));
    orch.handle_event(LifecycleEvent::SpawnSucceeded { id: 5 });
    orch.handle_event(LifecycleEvent::ReadinessResolved { ready: true });
    let a = orch.handle_event(LifecycleEvent::ExitRequested);
    assert_eq!(a, OrchestratorAction::RequestGracefulShutdown);
    assert_eq!(orch.phase, LifecyclePhase::ShuttingDown);
    let b = orch.handle_event(
        LifecycleEvent::ShutdownReplied { reply: ShutdownReply::Status { code: 200 } },
    );
    match b {
        OrchestratorAction::FinishShutdown { plan } => {
            assert_eq!(plan.outcome, ShutdownOutcome::GracefulAcked);
            assert_eq!(plan.kill, KillAction::NoOp);
        }
        other => panic!("unexpected action {:?}", other),
    }
    assert_eq!(orch.phase, LifecyclePhase::Terminated);
}

#[test]
fn full_lifecycle_with_unreachable_shutdown() {
    let mut orch = LifecycleOrchestrator::new(test_config(60));
    orch.handle_event(LifecycleEvent::SpawnSucceeded { id: 5 });
    orch.handle_event(LifecycleEvent::ReadinessResolved { ready: true });
    orch.handle_event(LifecycleEvent::ExitRequested);
    let b = orch.handle_event(
        LifecycleEvent::ShutdownReplied { reply: ShutdownReply::ConnectionFailed },
    );
    match b {
        OrchestratorAction::FinishShutdown { plan } => {
            assert_eq!(plan.outcome, ShutdownOutcome::ForcedKill);
            assert_eq!(plan.kill, KillAction::Signal { id: 5 });
        }
        other => panic!("unexpected action {:?}", other),
    }
    assert_eq!(orch.phase, LifecyclePhase::Terminated);
    assert_eq!(orch.supervisor.state, SupervisorState::Terminated { id: 5 });
}

#[test]
fn out_of_phase_events_are_ignored() {
    let mut orch = LifecycleOrchestrator::new(test_config(60));
    assert_eq!(orch.handle_event(LifecycleEvent::ExitRequested), OrchestratorAction::Ignore);
    assert_eq!(orch.phase, LifecyclePhase::Launching);
    orch.handle_event(LifecycleEvent::SpawnSucceeded { id: 5 });
    assert_eq!(orch.handle_event(LifecycleEvent::ExitRequested), OrchestratorAction::Ignore);
    assert_eq!(orch.phase, LifecyclePhase::WaitingForReady);
}

#[test]
fn endpoint_keeps_host_and_port() {
    let e = BackendEndpoint::new(String::from("localhost"), 4000);
    assert_eq!(e.host, "localhost");
    assert_eq!(e.port, 4000);
}
