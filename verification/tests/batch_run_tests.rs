use kowalski_rlm::batch_executor::{
    estimate_tokens, read_answer, AttemptOutcome, BatchExecutor, BatchLLMRequest, CallOutcome,
    RetryAction, RetryState, SingleLLMResponse, MAX_RETRIES,
};
use kowalski_rlm::error::FederationError;

fn request(prompts: &[&str]) -> BatchLLMRequest {
    BatchLLMRequest {
        prompts: prompts.iter().map(|p| p.to_string()).collect(),
        model: "llama3.2".to_string(),
        temperature: 700,
        max_tokens: 500,
    }
}

fn answered(text: &str) -> CallOutcome {
    CallOutcome::Completed(SingleLLMResponse {
        content: text.to_string(),
        tokens_used: estimate_tokens(text),
    })
}

#[test]
fn batch_executor_test_batch_executor_creation() {
    let executor = BatchExecutor::new();
    let executor_default = BatchExecutor::default();

    assert_eq!(
        std::mem::size_of_val(&executor),
        std::mem::size_of_val(&executor_default)
    );
}

#[test]
fn batch_integration_tests_test_batch_executor_creation() {
    let executor = BatchExecutor::new();
    let executor_default = BatchExecutor::default();

    // Both should be valid
    assert_eq!(std::mem::size_of_val(&executor), std::mem::size_of_val(&executor_default));
}

#[test]
fn three_prompts_two_at_a_time_with_one_timeout() {
    let executor = BatchExecutor::with_concurrency(2);
    assert_eq!(executor.max_concurrent(), 2);
    let mut run = executor.begin(&request(&["first", "second", "third"]));

    assert_eq!(run.try_dispatch(), Some(0));
    assert_eq!(run.try_dispatch(), Some(1));
    // the bound is reached
    assert_eq!(run.try_dispatch(), None);
    assert!(!run.is_complete());
    assert_eq!(run.prompt(1), "second");

    // calls may end out of order
    assert!(run.complete(1, CallOutcome::TimedOut));
    assert!(!run.complete(1, answered("late")));
    assert!(!run.complete(2, answered("not dispatched")));
    assert_eq!(run.try_dispatch(), Some(2));
    assert_eq!(run.try_dispatch(), None);
    assert!(run.complete(2, answered("third answer here")));
    assert!(run.complete(0, answered("one two")));
    assert!(run.is_complete());

    let response = run.finish(1234);
    assert_eq!(response.results.len(), 3);
    assert!(!response.all_succeeded);
    assert_eq!(response.duration_ms, 1234);
    let failed = response.failed_responses();
    assert_eq!(failed.len(), 1);
    assert_eq!(failed[0].index, 1);
    assert_eq!(failed[0].prompt, "second");
    assert_eq!(failed[0].response, "");
    assert_eq!(failed[0].tokens_used, 0);
    assert_eq!(failed[0].error.as_deref(), Some("Request timed out"));
    assert_eq!(response.successful_responses().len(), 2);
    // "one two": 2 words + 7 / 4; "third answer here": 3 words + 17 / 4
    assert_eq!(response.total_tokens, 3 + 7);
    for i in 0..3 {
        assert_eq!(response.get_response(i).unwrap().index, i);
        assert_eq!(response.results[i].index, i);
    }
    assert!(response.get_response(3).is_none());
    assert_eq!(response.get_response(0).unwrap().response, "one two");
}

#[test]
fn empty_batch_is_complete_at_once() {
    let run = BatchExecutor::new().begin(&request(&[]));
    assert!(run.is_complete());
    let response = run.finish(0);
    assert!(response.results.is_empty());
    assert!(response.all_succeeded);
    assert_eq!(response.total_tokens, 0);
}

#[test]
fn failures_carry_their_message() {
    let mut run = BatchExecutor::new().begin(&request(&["p"]));
    assert_eq!(run.try_dispatch(), Some(0));
    assert!(run.complete(
        0,
        CallOutcome::Failed(FederationError::ExecutionError("HTTP error: 500".to_string()))
    ));
    let response = run.finish(5);
    assert_eq!(
        response.results[0].error.as_deref(),
        Some("Execution error: HTTP error: 500")
    );
    assert!(!response.results[0].success);
}

#[test]
fn zero_concurrency_dispatches_nothing() {
    let mut run = BatchExecutor::with_concurrency(0).begin(&request(&["p"]));
    assert_eq!(run.try_dispatch(), None);
    assert!(!run.is_complete());
    assert!(run.is_stalled());
    let mut open = BatchExecutor::with_concurrency(1).begin(&request(&["p", "q"]));
    assert!(!open.is_stalled());
    assert_eq!(open.try_dispatch(), Some(0));
    assert!(!open.is_stalled());
    assert!(!BatchExecutor::with_concurrency(0).begin(&request(&[])).is_stalled());
}

#[test]
fn token_estimate_is_at_least_one() {
    assert_eq!(estimate_tokens(""), 1);
    assert_eq!(estimate_tokens("a"), 1);
    assert_eq!(estimate_tokens("hello world"), 2 + 11 / 4);
    assert_eq!(estimate_tokens("    "), 1);
    assert_eq!(estimate_tokens("\u{00e9}\u{00e9}\u{00e9}\u{00e9} x"), 2 + 6 / 4);
}

#[test]
fn dispatch_interval_divides_a_second() {
    assert_eq!(BatchExecutor::dispatch_interval_nanos(0), 1_000_000_000);
    assert_eq!(BatchExecutor::dispatch_interval_nanos(1), 1_000_000_000);
    assert_eq!(BatchExecutor::dispatch_interval_nanos(3), 333_333_333);
    assert_eq!(BatchExecutor::dispatch_interval_nanos(usize::MAX), 0);
}

#[test]
fn answers_are_read_from_the_response_field() {
    match read_answer("{\"response\": \"forty two\", \"done\": true}") {
        AttemptOutcome::Answered { text } => assert_eq!(text.as_deref(), Some("forty two")),
        _ => panic!("expected an answer"),
    }
    for body in ["{\"response\": 42}", "{\"other\": \"x\"}", "not json", "", "[\"response\"]"] {
        match read_answer(body) {
            AttemptOutcome::Answered { text } => assert_eq!(text, None),
            _ => panic!("expected an answer"),
        }
    }
}

#[test]
fn retries_back_off_and_end_after_three_attempts() {
    let mut state = RetryState::new();
    match state.on_attempt(AttemptOutcome::Rejected { status: "503 Service Unavailable".to_string() }) {
        RetryAction::Retry { delay_ms } => assert_eq!(delay_ms, 100),
        _ => panic!("expected a retry"),
    }
    assert_eq!(state.last_error.as_deref(), Some("HTTP error: 503 Service Unavailable"));
    match state.on_attempt(AttemptOutcome::Unreachable { reason: "refused".to_string() }) {
        RetryAction::Retry { delay_ms } => assert_eq!(delay_ms, 200),
        _ => panic!("expected a retry"),
    }
    assert_eq!(state.attempt, 2);
    match state.on_attempt(AttemptOutcome::Unreachable { reason: "refused".to_string() }) {
        RetryAction::GiveUp(FederationError::ExecutionError(m)) => {
            assert_eq!(m, "Request failed after 3 retries: refused")
        }
        _ => panic!("expected the call to be given up"),
    }
    assert_eq!(state.attempt, MAX_RETRIES);

    let mut state = RetryState { attempt: 2, last_error: Some("HTTP error: 500".to_string()) };
    match state.on_attempt(AttemptOutcome::Rejected { status: "502".to_string() }) {
        RetryAction::GiveUp(FederationError::ExecutionError(m)) => assert_eq!(m, "HTTP error: 500"),
        _ => panic!("expected the call to be given up"),
    }

    let mut state = RetryState::new();
    match state.on_attempt(AttemptOutcome::Answered { text: None }) {
        RetryAction::Retry { delay_ms } => assert_eq!(delay_ms, 0),
        _ => panic!("expected a retry"),
    }
    state.on_attempt(AttemptOutcome::Answered { text: None });
    match state.on_attempt(AttemptOutcome::Answered { text: None }) {
        RetryAction::GiveUp(FederationError::ExecutionError(m)) => {
            assert_eq!(m, "All retries exhausted")
        }
        _ => panic!("expected the call to be given up"),
    }

    let mut state = RetryState::new();
    match state.on_attempt(AttemptOutcome::Answered { text: Some("a b c".to_string()) }) {
        RetryAction::Done(r) => {
            assert_eq!(r.content, "a b c");
            assert_eq!(r.tokens_used, 4);
        }
        _ => panic!("expected an answer"),
    }
}
