//! The poll orchestrator's state machine.
//!
//! The orchestrator starts by waiting for the catalog service: it probes a
//! lightweight listing call on a fixed delay, up to a bounded retry count,
//! and halts for good when the budget is spent. Once the catalog answers,
//! it runs the configured adapters one by one in a fixed order, sleeps a
//! fixed interval, and repeats. The loop itself performs network calls and
//! sleeps, so it lives outside; every decision it takes is the step
//! function here.

use vstd::prelude::*;

verus! {

/// Timing and retry configuration, passed in at construction so that a
/// caller can substitute its own pacing.
#[derive(Clone, Copy, Debug, PartialEq, Eq, Structural)]
pub struct OrchestratorConfig {
    /// How many adapters are configured.
    pub adapter_count: usize,
    /// How many catalog probes may fail before the orchestrator halts.
    pub max_retries: u64,
    /// Seconds between catalog probes.
    pub retry_delay: u64,
    /// Seconds between poll cycles.
    pub poll_interval: u64,
}

impl OrchestratorConfig {
    /// At least one probe must be allowed.
    pub open spec fn wf(self) -> bool {
        self.max_retries >= 1
    }
}

/// Where the orchestrator stands.
#[derive(Clone, Copy, Debug, PartialEq, Eq, Structural)]
pub enum OrchestratorState {
    /// Probing the catalog; `retries` probes have failed so far.
    Waiting { retries: u64 },
    /// Running adapter `next_adapter`.
    Polling { next_adapter: usize },
    /// Sleeping between poll cycles.
    Sleeping,
    /// The retry budget is spent; the process exits.
    Failed,
}

/// What the loop reports back.
#[derive(Clone, Copy, Debug, PartialEq, Eq, Structural)]
pub enum OrchestratorEvent {
    /// The catalog probe answered.
    ProbeOk,
    /// The catalog probe failed.
    ProbeErr,
    /// The current adapter finished and its records were forwarded.
    AdapterDone,
    /// The between-cycles sleep finished.
    SleepDone,
}

/// What the loop must do next.
#[derive(Clone, Copy, Debug, PartialEq, Eq, Structural)]
pub enum OrchestratorAction {
    /// Sleep `after` seconds, then probe the catalog.
    Probe { after: u64 },
    /// Run the adapter at `index` and forward every record it emits;
    /// per-record failures are logged, never fatal.
    RunAdapter { index: usize },
    /// Sleep `seconds`, then report the sleep done.
    Sleep { seconds: u64 },
    /// Exit with an error.
    Halt,
}

/// A state the machine can actually be in under `cfg`.
pub open spec fn state_wf(cfg: OrchestratorConfig, st: OrchestratorState) -> bool {
    match st {
        OrchestratorState::Waiting { retries } => retries < cfg.max_retries,
        OrchestratorState::Polling { next_adapter } => next_adapter < cfg.adapter_count,
        OrchestratorState::Sleeping => true,
        OrchestratorState::Failed => true,
    }
}

/// The action a state is waiting on.
pub open spec fn expected_action(cfg: OrchestratorConfig, st: OrchestratorState)
    -> OrchestratorAction {
    match st {
        OrchestratorState::Waiting { retries } => OrchestratorAction::Probe {
            after: if retries == 0 {
                0
            } else {
                cfg.retry_delay
            },
        },
        OrchestratorState::Polling { next_adapter } => OrchestratorAction::RunAdapter {
            index: next_adapter,
        },
        OrchestratorState::Sleeping => OrchestratorAction::Sleep { seconds: cfg.poll_interval },
        OrchestratorState::Failed => OrchestratorAction::Halt,
    }
}

/// The transition function. An event that does not answer the pending
/// action leaves the state alone and reissues that action.
pub open spec fn spec_step(
    cfg: OrchestratorConfig,
    st: OrchestratorState,
    ev: OrchestratorEvent,
) -> (OrchestratorState, OrchestratorAction) {
    match (st, ev) {
        (OrchestratorState::Waiting { retries: _ }, OrchestratorEvent::ProbeOk) => {
            if cfg.adapter_count > 0 {
                (
                    OrchestratorState::Polling { next_adapter: 0 },
                    OrchestratorAction::RunAdapter { index: 0 },
                )
            } else {
                (
                    OrchestratorState::Sleeping,
                    OrchestratorAction::Sleep { seconds: cfg.poll_interval },
                )
            }
        },
        (OrchestratorState::Waiting { retries }, OrchestratorEvent::ProbeErr) => {
            if retries + 1 >= cfg.max_retries {
                (OrchestratorState::Failed, OrchestratorAction::Halt)
            } else {
                (
                    OrchestratorState::Waiting { retries: (retries + 1) as u64 },
                    OrchestratorAction::Probe { after: cfg.retry_delay },
                )
            }
        },
        (OrchestratorState::Polling { next_adapter }, OrchestratorEvent::AdapterDone) => {
            if next_adapter + 1 < cfg.adapter_count {
                (
                    OrchestratorState::Polling { next_adapter: (next_adapter + 1) as usize },
                    OrchestratorAction::RunAdapter { index: (next_adapter + 1) as usize },
                )
            } else {
                (
                    OrchestratorState::Sleeping,
                    OrchestratorAction::Sleep { seconds: cfg.poll_interval },
                )
            }
        },
        (OrchestratorState::Sleeping, OrchestratorEvent::SleepDone) => {
            if cfg.adapter_count > 0 {
                (
                    OrchestratorState::Polling { next_adapter: 0 },
                    OrchestratorAction::RunAdapter { index: 0 },
                )
            } else {
                (
                    OrchestratorState::Sleeping,
                    OrchestratorAction::Sleep { seconds: cfg.poll_interval },
                )
            }
        },
        (OrchestratorState::Failed, _) => (OrchestratorState::Failed, OrchestratorAction::Halt),
        (_, _) => (st, expected_action(cfg, st)),
    }
}

/// The initial state with its first action: probe the catalog at once.
pub fn orchestrator_init(cfg: &OrchestratorConfig) -> (r: (
    OrchestratorState,
    OrchestratorAction,
))
    requires
        cfg.wf(),
    ensures
        r.0 == (OrchestratorState::Waiting { retries: 0u64 }),
        r.1 == (OrchestratorAction::Probe { after: 0u64 }),
        state_wf(*cfg, r.0),
{
    (OrchestratorState::Waiting { retries: 0 }, OrchestratorAction::Probe { after: 0 })
}

/// Advances the orchestrator by one event. The machine never runs two
/// adapters at once, runs them in index order, halts exactly when a probe
/// failure spends the retry budget, and stays well formed.
pub fn orchestrator_step(
    cfg: &OrchestratorConfig,
    st: &OrchestratorState,
    ev: &OrchestratorEvent,
) -> (r: (OrchestratorState, OrchestratorAction))
    requires
        cfg.wf(),
        state_wf(*cfg, *st),
    ensures
        r == spec_step(*cfg, *st, *ev),
        state_wf(*cfg, r.0),
        r.1 == OrchestratorAction::Halt <==> r.0 == OrchestratorState::Failed,
        r.0 == OrchestratorState::Failed ==> *st == OrchestratorState::Failed || ((*st) matches
            OrchestratorState::Waiting { retries } && *ev == OrchestratorEvent::ProbeErr && retries
            + 1 >= cfg.max_retries),
{
    match (st, ev) {
        (OrchestratorState::Waiting { retries: _ }, OrchestratorEvent::ProbeOk) => {
            if cfg.adapter_count > 0 {
                (
                    OrchestratorState::Polling { next_adapter: 0 },
                    OrchestratorAction::RunAdapter { index: 0 },
                )
            } else {
                (
                    OrchestratorState::Sleeping,
                    OrchestratorAction::Sleep { seconds: cfg.poll_interval },
                )
            }
        },
        (OrchestratorState::Waiting { retries }, OrchestratorEvent::ProbeErr) => {
            if *retries + 1 >= cfg.max_retries {
                (OrchestratorState::Failed, OrchestratorAction::Halt)
            } else {
                (
                    OrchestratorState::Waiting { retries: *retries + 1 },
                    OrchestratorAction::Probe { after: cfg.retry_delay },
                )
            }
        },
        (OrchestratorState::Polling { next_adapter }, OrchestratorEvent::AdapterDone) => {
            if *next_adapter + 1 < cfg.adapter_count {
                (
                    OrchestratorState::Polling { next_adapter: *next_adapter + 1 },
                    OrchestratorAction::RunAdapter { index: *next_adapter + 1 },
                )
            } else {
                (
                    OrchestratorState::Sleeping,
                    OrchestratorAction::Sleep { seconds: cfg.poll_interval },
                )
            }
        },
        (OrchestratorState::Sleeping, OrchestratorEvent::SleepDone) => {
            if cfg.adapter_count > 0 {
                (
                    OrchestratorState::Polling { next_adapter: 0 },
                    OrchestratorAction::RunAdapter { index: 0 },
                )
            } else {
                (
                    OrchestratorState::Sleeping,
                    OrchestratorAction::Sleep { seconds: cfg.poll_interval },
                )
            }
        },
        (OrchestratorState::Failed, _) => (OrchestratorState::Failed, OrchestratorAction::Halt),
        (_, _) => {
            let s = *st;
            let a = match st {
                OrchestratorState::Waiting { retries } => OrchestratorAction::Probe {
                    after: if *retries == 0 {
                        0
                    } else {
                        cfg.retry_delay
                    },
                },
                OrchestratorState::Polling { next_adapter } => OrchestratorAction::RunAdapter {
                    index: *next_adapter,
                },
                OrchestratorState::Sleeping => OrchestratorAction::Sleep {
                    seconds: cfg.poll_interval,
                },
                OrchestratorState::Failed => OrchestratorAction::Halt,
            };
            (s, a)
        },
    }
}

} // verus!
