//! The decision core of the bounded connection wait: the transport layer
//! repeatedly attempts a connection, hands each attempt's outcome to
//! `wait_step`, and performs whatever the decision says — finish, sleep
//! and retry, or give up with a timeout. The decisions themselves are pure
//! and stateless; the loop, the clock and the sleeping stay with the
//! transport layer.

use vstd::prelude::*;

verus! {

/// What the wait is for: an overall deadline, the pause between failed
/// attempts, and whether a successful connection must also show the
/// accepted-terms setting before the wait counts as done.
#[derive(Debug, Clone, Copy, PartialEq, Eq, Structural)]
pub struct WaitConfig {
    pub timeout_secs: u64,
    pub interval_secs: u64,
    pub wait_for_settings: bool,
}

/// The outcome of one connection attempt, as the transport layer reports
/// it.
#[derive(Debug, Clone, Copy, PartialEq, Eq, Structural)]
pub enum AttemptOutcome {
    /// The connection attempt failed.
    ConnectFailed,
    /// Connected; the settings were not consulted.
    Connected,
    /// Connected, but the settings could not be fetched.
    SettingsUnavailable,
    /// Connected and the settings were fetched; whether they carry the
    /// accepted-terms entry.
    Settings { has_accepted_terms: bool },
}

/// What the transport layer must do next.
#[derive(Debug, Clone, Copy, PartialEq, Eq, Structural)]
pub enum WaitDecision {
    /// The wait is over: the server is up (and, if asked for, configured).
    Done,
    /// Try again after sleeping this many seconds.
    Retry { sleep_secs: u64 },
    /// The deadline has passed: report `Timeout`.
    GiveUp,
}

/// Whether an outcome satisfies the wait under this configuration.
pub open spec fn outcome_satisfies(cfg: WaitConfig, outcome: AttemptOutcome) -> bool {
    if cfg.wait_for_settings {
        outcome matches AttemptOutcome::Settings { has_accepted_terms: true }
    } else {
        !(outcome matches AttemptOutcome::ConnectFailed)
    }
}

/// Decides what follows one attempt: a satisfying outcome ends the wait; an
/// unsatisfying one is retried — after the configured pause when the
/// connection itself failed, at once when only the settings check fell
/// short — unless the elapsed time has reached the deadline, which ends
/// the wait with a timeout.
pub fn wait_step(cfg: &WaitConfig, elapsed_secs: u64, outcome: &AttemptOutcome) -> (d:
    WaitDecision)
    ensures
        outcome_satisfies(*cfg, *outcome) ==> d == WaitDecision::Done,
        !outcome_satisfies(*cfg, *outcome) && elapsed_secs >= cfg.timeout_secs
            ==> d == WaitDecision::GiveUp,
        !outcome_satisfies(*cfg, *outcome) && elapsed_secs < cfg.timeout_secs
            ==> d == (WaitDecision::Retry {
            sleep_secs: (if (*outcome matches AttemptOutcome::ConnectFailed) {
                cfg.interval_secs
            } else {
                0
            }),
        }),
{
    let satisfied: bool = if cfg.wait_for_settings {
        match outcome {
            AttemptOutcome::Settings { has_accepted_terms } => *has_accepted_terms,
            _ => false,
        }
    } else {
        match outcome {
            AttemptOutcome::ConnectFailed => false,
            _ => true,
        }
    };
    if satisfied {
        WaitDecision::Done
    } else if elapsed_secs >= cfg.timeout_secs {
        WaitDecision::GiveUp
    } else {
        match outcome {
            AttemptOutcome::ConnectFailed => WaitDecision::Retry {
                sleep_secs: cfg.interval_secs,
            },
            _ => WaitDecision::Retry { sleep_secs: 0 },
        }
    }
}

} // verus!
