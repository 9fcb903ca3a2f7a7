use plex_norm::wait::{wait_step, AttemptOutcome, WaitConfig, WaitDecision};

fn cfg(wait_for_settings: bool) -> WaitConfig {
    WaitConfig {
        timeout_secs: 30,
        interval_secs: 1,
        wait_for_settings,
    }
}

#[test]
fn connection_alone_finishes_when_settings_not_requested() {
    let d = wait_step(&cfg(false), 3, &AttemptOutcome::Connected);
    assert_eq!(d, WaitDecision::Done);
}

#[test]
fn failed_connection_retries_after_the_interval() {
    let d = wait_step(&cfg(false), 3, &AttemptOutcome::ConnectFailed);
    assert_eq!(d, WaitDecision::Retry { sleep_secs: 1 });
}

#[test]
fn deadline_reached_gives_up() {
    let d = wait_step(&cfg(false), 30, &AttemptOutcome::ConnectFailed);
    assert_eq!(d, WaitDecision::GiveUp);
    let d = wait_step(&cfg(true), 45, &AttemptOutcome::Connected);
    assert_eq!(d, WaitDecision::GiveUp);
}

#[test]
fn settings_wait_needs_the_accepted_terms_entry() {
    let d = wait_step(
        &cfg(true),
        3,
        &AttemptOutcome::Settings {
            has_accepted_terms: true,
        },
    );
    assert_eq!(d, WaitDecision::Done);
    let d = wait_step(
        &cfg(true),
        3,
        &AttemptOutcome::Settings {
            has_accepted_terms: false,
        },
    );
    assert_eq!(d, WaitDecision::Retry { sleep_secs: 0 });
    let d = wait_step(&cfg(true), 3, &AttemptOutcome::SettingsUnavailable);
    assert_eq!(d, WaitDecision::Retry { sleep_secs: 0 });
}
