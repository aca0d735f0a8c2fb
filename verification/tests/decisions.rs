use looker::axe::contexter::{next_fetch_step, FetchNotice, FetchStep};
use looker::axe::http::HttpOutcome;
use looker::axe::requester::{forward_report, ForwardReport};
use looker::retry::{after_attempt, RetryStep};
use looker::settings::{
    configured_or, DEFAULT_FORWARD_INTERVAL, DEFAULT_PORT, DEFAULT_RETRY_INTERVAL,
    DEFAULT_TIMEOUT_CHECK,
};

#[test]
fn context_is_read_on_ok() {
    assert_eq!(next_fetch_step(HttpOutcome::Answered(200), 10), FetchStep::ReadContext);
}

#[test]
fn unknown_application_is_awaited() {
    assert_eq!(
        next_fetch_step(HttpOutcome::Answered(404), 7),
        FetchStep::Retry { notice: FetchNotice::AwaitingContext, wait_secs: 7 }
    );
}

#[test]
fn unavailable_service_is_retried() {
    assert_eq!(
        next_fetch_step(HttpOutcome::Answered(503), 10),
        FetchStep::Retry { notice: FetchNotice::ServiceUnavailable, wait_secs: 10 }
    );
}

#[test]
fn unreachable_service_is_retried() {
    assert_eq!(
        next_fetch_step(HttpOutcome::Unreachable, 3),
        FetchStep::Retry { notice: FetchNotice::ServiceUnavailable, wait_secs: 3 }
    );
}

#[test]
fn unexpected_status_is_reported_and_retried() {
    assert_eq!(
        next_fetch_step(HttpOutcome::Answered(500), 10),
        FetchStep::Retry { notice: FetchNotice::UnexpectedStatus(500), wait_secs: 10 }
    );
    assert_eq!(
        next_fetch_step(HttpOutcome::Answered(201), 1),
        FetchStep::Retry { notice: FetchNotice::UnexpectedStatus(201), wait_secs: 1 }
    );
}

#[test]
fn forwarded_state_is_posted_on_ok() {
    assert_eq!(forward_report(HttpOutcome::Answered(200)), ForwardReport::Posted);
}

#[test]
fn forwarded_state_is_refused_on_other_status() {
    assert_eq!(forward_report(HttpOutcome::Answered(404)), ForwardReport::Refused(404));
    assert_eq!(forward_report(HttpOutcome::Answered(500)), ForwardReport::Refused(500));
}

#[test]
fn unanswered_forward_counts_as_posted() {
    assert_eq!(forward_report(HttpOutcome::Unreachable), ForwardReport::Posted);
}

#[test]
fn successful_attempt_proceeds() {
    assert_eq!(after_attempt(true, 10), RetryStep::Proceed);
}

#[test]
fn failed_attempt_waits_the_interval() {
    assert_eq!(after_attempt(false, 10), RetryStep::RetryAfter(10));
    assert_eq!(after_attempt(false, 0), RetryStep::RetryAfter(0));
}

#[test]
fn configured_setting_wins_over_default() {
    assert_eq!(configured_or(Some(5u64), DEFAULT_RETRY_INTERVAL), 5);
    assert_eq!(configured_or(Some(8080u16), DEFAULT_PORT), 8080);
}

#[test]
fn defaults_apply_when_unconfigured() {
    assert_eq!(configured_or(None, DEFAULT_RETRY_INTERVAL), 10);
    assert_eq!(configured_or(None, DEFAULT_FORWARD_INTERVAL), 120);
    assert_eq!(configured_or(None, DEFAULT_TIMEOUT_CHECK), 10);
    assert_eq!(configured_or(None, DEFAULT_PORT), 3000);
}
