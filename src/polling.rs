//! The polling controller: configuration, and the decision taken after each
//! sampling tick.
use vstd::prelude::*;
use crate::report::{aggregate, any_nonempty, Checks, ViolationReport};

verus! {

/// The exit status reserved for a detected policy violation.
pub const VIOLATION_EXIT: i32 = 1;

/// The exit status of a run that found no violation.
pub const SUCCESS_EXIT: i32 = 0;

/// How the controller samples.
#[derive(Clone, Copy, Debug, PartialEq, Eq, Structural)]
pub enum Mode {
    /// Sample once, after `seconds` or after an interrupt signal.
    Scan { seconds: u64, until_signal: bool },
    /// Sample every `poll_every` seconds until a violation ends the run.
    Watch { poll_every: u64 },
}

/// A configuration that cannot be run.
#[derive(Clone, Copy, Debug, PartialEq, Eq, Structural)]
pub enum ConfigError {
    /// A watch cadence of zero seconds.
    ZeroCadence,
}

/// The policy chosen once at start.
pub struct PolicyConfig {
    pub checks: Checks,
    pub cancel_on_violation: bool,
    pub mode: Mode,
    pub custom_whitelist: Option<String>,
}

impl PolicyConfig {
    /// A configuration is runnable when a watch cadence is positive.
    pub open spec fn wf(self) -> bool {
        self.mode matches Mode::Watch { poll_every } ==> poll_every > 0
    }

    /// A one-shot scan configuration.
    pub fn scan(
        seconds: u64,
        until_signal: bool,
        checks: Checks,
        cancel_on_violation: bool,
        custom_whitelist: Option<String>,
    ) -> (r: PolicyConfig)
        ensures
            r.wf(),
            r.mode == (Mode::Scan { seconds, until_signal }),
            r.checks == checks,
            r.cancel_on_violation == cancel_on_violation,
            r.custom_whitelist == custom_whitelist,
    {
        PolicyConfig {
            checks,
            cancel_on_violation,
            mode: Mode::Scan { seconds, until_signal },
            custom_whitelist,
        }
    }

    /// A continuous watch configuration; a zero cadence is rejected.
    pub fn watch(
        poll_every: u64,
        checks: Checks,
        cancel_on_violation: bool,
        custom_whitelist: Option<String>,
    ) -> (r: Result<PolicyConfig, ConfigError>)
        ensures
            r is Ok <==> poll_every > 0,
            poll_every == 0 <==> r == Err::<PolicyConfig, ConfigError>(ConfigError::ZeroCadence),
            r matches Ok(c) ==> c.wf() && c.mode == (Mode::Watch { poll_every }) && c.checks
                == checks && c.cancel_on_violation == cancel_on_violation && c.custom_whitelist
                == custom_whitelist,
    {
        if poll_every == 0 {
            Err(ConfigError::ZeroCadence)
        } else {
            Ok(PolicyConfig {
                checks,
                cancel_on_violation,
                mode: Mode::Watch { poll_every },
                custom_whitelist,
            })
        }
    }

    /// Whether this is a continuous watch.
    pub fn is_watch(&self) -> (r: bool)
        ensures
            r == (self.mode is Watch),
    {
        match self.mode {
            Mode::Watch { .. } => true,
            Mode::Scan { .. } => false,
        }
    }
}

/// Where the whitelist comes from.
pub enum WhitelistSource {
    /// No custom whitelist was asked for.
    Default,
    /// Load the custom whitelist at this path.
    Load(String),
    /// The custom whitelist at this path does not exist: warn, and keep the
    /// default whitelist.
    Missing(String),
}

/// Chooses the whitelist source; `file_exists` tells whether the custom
/// whitelist path exists. Capture starts in every case.
pub fn whitelist_source(custom: Option<String>, file_exists: bool) -> (r: WhitelistSource)
    ensures
        custom is None ==> r is Default,
        custom matches Some(p) ==> if file_exists {
            r == WhitelistSource::Load(p)
        } else {
            r == WhitelistSource::Missing(p)
        },
{
    match custom {
        None => WhitelistSource::Default,
        Some(p) => if file_exists {
            WhitelistSource::Load(p)
        } else {
            WhitelistSource::Missing(p)
        },
    }
}

/// What the controller does after a tick.
#[derive(Clone, Copy, Debug, PartialEq, Eq, Structural)]
pub enum Decision {
    /// No violation in watch mode: wait for the next tick.
    Continue,
    /// A violation in watch mode without cancellation: print it and wait for
    /// the next tick.
    LogAndContinue,
    /// Print the violation, attempt to cancel the pipeline, exit with the
    /// violation status.
    CancelAndExit,
    /// Print the violation and exit with the violation status.
    ExitViolation,
    /// A scan without violation: print the session report and exit with
    /// success.
    Finish,
}

/// The decision after a tick, from the mode, the cancellation flag and
/// whether the tick found a violation.
pub open spec fn decision_for(config: PolicyConfig, violation: bool) -> Decision {
    if !violation {
        if config.mode is Watch {
            Decision::Continue
        } else {
            Decision::Finish
        }
    } else if config.cancel_on_violation {
        Decision::CancelAndExit
    } else if config.mode is Watch {
        Decision::LogAndContinue
    } else {
        Decision::ExitViolation
    }
}

/// The decision after a tick.
pub fn decide(config: &PolicyConfig, violation: bool) -> (r: Decision)
    ensures
        r == decision_for(*config, violation),
{
    let watch = config.is_watch();
    if !violation {
        if watch {
            Decision::Continue
        } else {
            Decision::Finish
        }
    } else if config.cancel_on_violation {
        Decision::CancelAndExit
    } else if watch {
        Decision::LogAndContinue
    } else {
        Decision::ExitViolation
    }
}

/// The exit status a decision ends the process with, if it ends it.
pub open spec fn exit_status_of(d: Decision) -> Option<i32> {
    match d {
        Decision::Continue | Decision::LogAndContinue => None,
        Decision::CancelAndExit | Decision::ExitViolation => Some(VIOLATION_EXIT),
        Decision::Finish => Some(SUCCESS_EXIT),
    }
}

/// The exit status of a decision; `None` when polling goes on.
pub fn exit_status(d: Decision) -> (r: Option<i32>)
    ensures
        r == exit_status_of(d),
{
    match d {
        Decision::Continue | Decision::LogAndContinue => None,
        Decision::CancelAndExit | Decision::ExitViolation => Some(VIOLATION_EXIT),
        Decision::Finish => Some(SUCCESS_EXIT),
    }
}

/// The state of the controller.
#[derive(Clone, Copy, Debug, PartialEq, Eq, Structural)]
pub enum ControllerState {
    Polling,
    /// A violation ended the run.
    ViolationHalted,
    /// Setup failed; the run is over.
    FatalError,
    /// A scan ended without violation.
    Done,
}

/// The state after a decision taken while polling.
pub open spec fn state_after(d: Decision) -> ControllerState {
    match d {
        Decision::Continue | Decision::LogAndContinue => ControllerState::Polling,
        Decision::CancelAndExit | Decision::ExitViolation => ControllerState::ViolationHalted,
        Decision::Finish => ControllerState::Done,
    }
}

/// The state after setup (loading the whitelist, starting capture and
/// analysis) succeeded or failed.
pub fn after_setup(started: bool) -> (r: ControllerState)
    ensures
        r == (if started {
            ControllerState::Polling
        } else {
            ControllerState::FatalError
        }),
{
    if started {
        ControllerState::Polling
    } else {
        ControllerState::FatalError
    }
}

/// The state after a decision; only a polling controller takes decisions,
/// a terminal state stays as it is.
pub fn next_state(state: ControllerState, d: Decision) -> (r: ControllerState)
    ensures
        r == (if state == ControllerState::Polling {
            state_after(d)
        } else {
            state
        }),
{
    match state {
        ControllerState::Polling => match d {
            Decision::Continue | Decision::LogAndContinue => ControllerState::Polling,
            Decision::CancelAndExit | Decision::ExitViolation => ControllerState::ViolationHalted,
            Decision::Finish => ControllerState::Done,
        },
        _ => state,
    }
}

/// One tick: builds the report from what the engine returned for the enabled
/// checks and decides what to do next.
pub fn evaluate_tick<S>(
    config: &PolicyConfig,
    whitelist_conformant: bool,
    exceptions: Vec<S>,
    blacklisted: Vec<S>,
    anomalous: Vec<S>,
) -> (r: (ViolationReport<S>, Decision))
    ensures
        r.0.exceptions() == if config.checks.whitelist && !whitelist_conformant {
            exceptions@
        } else {
            Seq::<S>::empty()
        },
        r.0.blacklist_hits() == if config.checks.blacklist {
            blacklisted@
        } else {
            Seq::<S>::empty()
        },
        r.0.anomalies() == if config.checks.anomaly {
            anomalous@
        } else {
            Seq::<S>::empty()
        },
        r.0.flagged() == any_nonempty(r.0.exceptions(), r.0.blacklist_hits(), r.0.anomalies()),
        r.1 == decision_for(*config, r.0.flagged()),
        config.checks.none() ==> !r.0.flagged(),
{
    let report = aggregate(config.checks, whitelist_conformant, exceptions, blacklisted, anomalous);
    let violation = report.has_violation();
    let d = decide(config, violation);
    (report, d)
}

/// With cancellation off, a violation in watch mode is logged and polling
/// goes on; in a scan it ends the run with the violation status.
pub proof fn violation_without_cancel_keeps_watching(config: PolicyConfig)
    requires
        !config.cancel_on_violation,
    ensures
        config.mode is Watch ==> decision_for(config, true) == Decision::LogAndContinue
            && state_after(decision_for(config, true)) == ControllerState::Polling
            && exit_status_of(decision_for(config, true)) is None,
        config.mode is Scan ==> exit_status_of(decision_for(config, true)) == Some(
            VIOLATION_EXIT,
        ),
{
}

/// Every violation that ends the run ends it with the violation status, and
/// a run without violation never exits with it.
pub proof fn violation_exit_status(config: PolicyConfig, violation: bool)
    ensures
        exit_status_of(decision_for(config, violation)) is Some && violation ==> exit_status_of(
            decision_for(config, violation),
        ) == Some(VIOLATION_EXIT),
        !violation ==> exit_status_of(decision_for(config, violation)) != Some(VIOLATION_EXIT),
        config.cancel_on_violation && violation ==> decision_for(config, violation)
            == Decision::CancelAndExit,
{
}

} // verus!
