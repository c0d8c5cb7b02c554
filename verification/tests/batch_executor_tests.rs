use kowalski_rlm::batch_executor::{BatchCallResult, BatchLLMResponse};

#[test]
fn test_batch_call_result() {
    let result = BatchCallResult {
        index: 0,
        prompt: "Test prompt".to_string(),
        response: "Test response".to_string(),
        tokens_used: 50,
        success: true,
        error: None,
    };

    assert!(result.success);
    assert_eq!(result.index, 0);
}

#[test]
fn test_batch_response_filtering() {
    let results = vec![
        BatchCallResult {
            index: 0,
            prompt: "Q1".to_string(),
            response: "A1".to_string(),
            tokens_used: 50,
            success: true,
            error: None,
        },
        BatchCallResult {
            index: 1,
            prompt: "Q2".to_string(),
            response: String::new(),
            tokens_used: 0,
            success: false,
            error: Some("Timeout".to_string()),
        },
    ];

    let response = BatchLLMResponse {
        results,
        total_tokens: 50,
        duration_ms: 1000,
        all_succeeded: false,
    };

    assert_eq!(response.successful_responses().len(), 1);
    assert_eq!(response.failed_responses().len(), 1);
    assert!(!response.all_succeeded);
}

#[test]
fn test_batch_response_get_by_index() {
    let results = vec![
        BatchCallResult {
            index: 0,
            prompt: "Q0".to_string(),
            response: "A0".to_string(),
            tokens_used: 50,
            success: true,
            error: None,
        },
        BatchCallResult {
            index: 2,
            prompt: "Q2".to_string(),
            response: "A2".to_string(),
            tokens_used: 60,
            success: true,
            error: None,
        },
    ];

    let response = BatchLLMResponse {
        results,
        total_tokens: 110,
        duration_ms: 1000,
        all_succeeded: true,
    };

    assert!(response.get_response(0).is_some());
    assert!(response.get_response(1).is_none());
    assert!(response.get_response(2).is_some());
}
