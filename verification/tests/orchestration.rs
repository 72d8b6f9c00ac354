use freegames::model::should_process;
use freegames::orchestrator::{
    orchestrator_init, orchestrator_step, OrchestratorAction, OrchestratorConfig,
    OrchestratorEvent, OrchestratorState,
};

fn config() -> OrchestratorConfig {
    OrchestratorConfig { adapter_count: 2, max_retries: 3, retry_delay: 5, poll_interval: 600 }
}

#[test]
fn the_first_action_is_an_immediate_probe() {
    let (st, a) = orchestrator_init(&config());
    assert_eq!(st, OrchestratorState::Waiting { retries: 0 });
    assert_eq!(a, OrchestratorAction::Probe { after: 0 });
}

#[test]
fn probe_failures_retry_with_the_delay_then_halt() {
    let cfg = config();
    let (st0, _) = orchestrator_init(&cfg);
    let (st1, a1) = orchestrator_step(&cfg, &st0, &OrchestratorEvent::ProbeErr);
    assert_eq!(st1, OrchestratorState::Waiting { retries: 1 });
    assert_eq!(a1, OrchestratorAction::Probe { after: 5 });
    let (st2, a2) = orchestrator_step(&cfg, &st1, &OrchestratorEvent::ProbeErr);
    assert_eq!(st2, OrchestratorState::Waiting { retries: 2 });
    assert_eq!(a2, OrchestratorAction::Probe { after: 5 });
    let (st3, a3) = orchestrator_step(&cfg, &st2, &OrchestratorEvent::ProbeErr);
    assert_eq!(st3, OrchestratorState::Failed);
    assert_eq!(a3, OrchestratorAction::Halt);
}

#[test]
fn a_reachable_catalog_starts_the_adapter_cycle_in_order() {
    let cfg = config();
    let (st0, _) = orchestrator_init(&cfg);
    let (st1, a1) = orchestrator_step(&cfg, &st0, &OrchestratorEvent::ProbeOk);
    assert_eq!(st1, OrchestratorState::Polling { next_adapter: 0 });
    assert_eq!(a1, OrchestratorAction::RunAdapter { index: 0 });
    let (st2, a2) = orchestrator_step(&cfg, &st1, &OrchestratorEvent::AdapterDone);
    assert_eq!(st2, OrchestratorState::Polling { next_adapter: 1 });
    assert_eq!(a2, OrchestratorAction::RunAdapter { index: 1 });
    let (st3, a3) = orchestrator_step(&cfg, &st2, &OrchestratorEvent::AdapterDone);
    assert_eq!(st3, OrchestratorState::Sleeping);
    assert_eq!(a3, OrchestratorAction::Sleep { seconds: 600 });
    let (st4, a4) = orchestrator_step(&cfg, &st3, &OrchestratorEvent::SleepDone);
    assert_eq!(st4, OrchestratorState::Polling { next_adapter: 0 });
    assert_eq!(a4, OrchestratorAction::RunAdapter { index: 0 });
}

#[test]
fn a_failed_orchestrator_stays_failed() {
    let cfg = config();
    let (st, a) =
        orchestrator_step(&cfg, &OrchestratorState::Failed, &OrchestratorEvent::ProbeOk);
    assert_eq!(st, OrchestratorState::Failed);
    assert_eq!(a, OrchestratorAction::Halt);
}

#[test]
fn a_mismatched_event_reissues_the_pending_action() {
    let cfg = config();
    let st = OrchestratorState::Polling { next_adapter: 1 };
    let (st2, a) = orchestrator_step(&cfg, &st, &OrchestratorEvent::SleepDone);
    assert_eq!(st2, st);
    assert_eq!(a, OrchestratorAction::RunAdapter { index: 1 });
}

#[test]
fn only_a_definite_unknown_answer_lets_a_candidate_through() {
    assert!(should_process(&Some(false)));
    assert!(!should_process(&Some(true)));
    assert!(!should_process(&None));
}
