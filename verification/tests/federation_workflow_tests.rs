use kowalski_rlm::agent_selector::{AgentScore, AgentSelector, SelectionCriteria};
use kowalski_rlm::depth_controller::{DepthConfig, DepthController};
use kowalski_rlm::error::FederationError;
use std::sync::Arc;

#[test]
fn test_depth_control_workflow() {
    let mut controller = DepthController::new(DepthConfig::with_max_depth(3));

    // Simulate a 3-level recursive workflow
    assert_eq!(controller.current_depth(), 0);
    assert!(controller.can_recurse());

    controller.increment("coordinator".to_string()).unwrap();
    assert_eq!(controller.current_depth(), 1);
    assert!(!controller.should_simplify_agent());

    controller.increment("worker-1".to_string()).unwrap();
    assert_eq!(controller.current_depth(), 2);
    assert!(controller.should_simplify_agent());

    controller.increment("worker-2".to_string()).unwrap();
    assert_eq!(controller.current_depth(), 3);
    assert!(!controller.can_recurse());

    // Try to exceed max - should fail
    assert!(controller.increment("worker-3".to_string()).is_err());

    // Unwind the stack
    controller.decrement().unwrap();
    assert_eq!(controller.current_depth(), 2);

    controller.decrement().unwrap();
    assert_eq!(controller.current_depth(), 1);

    controller.decrement().unwrap();
    assert_eq!(controller.current_depth(), 0);
}

#[test]
fn test_depth_controller_depth_stack_tracking() {
    let mut controller = DepthController::new(DepthConfig::with_max_depth(3));

    controller.increment("agent-1".to_string()).unwrap();
    controller.increment("agent-2".to_string()).unwrap();
    controller.increment("agent-3".to_string()).unwrap();

    let stack = controller.depth_stack();
    assert_eq!(stack.len(), 3);
    assert_eq!(stack[0], "agent-1");
    assert_eq!(stack[1], "agent-2");
    assert_eq!(stack[2], "agent-3");
}

#[test]
fn test_depth_controller_remaining_depth() {
    let mut controller = DepthController::new(DepthConfig::with_max_depth(5));

    assert_eq!(controller.remaining_depth(), 5);

    controller.increment("a".to_string()).unwrap();
    assert_eq!(controller.remaining_depth(), 4);

    controller.increment("b".to_string()).unwrap();
    assert_eq!(controller.remaining_depth(), 3);

    controller.decrement().unwrap();
    assert_eq!(controller.remaining_depth(), 4);
}

#[test]
fn test_agent_selection_criteria_building() {
    let criteria = SelectionCriteria::new("data_analysis".to_string())
        .with_required_tools(vec!["csv".to_string(), "sql".to_string()])
        .with_preferred_tools(vec!["pandas".to_string()])
        .with_depth(1, 3)
        .with_exclusions(vec!["bad-agent".to_string()]);

    assert_eq!(criteria.task_type, "data_analysis");
    assert_eq!(criteria.required_tools.len(), 2);
    assert_eq!(criteria.preferred_tools.len(), 1);
    assert_eq!(criteria.current_depth, 1);
    assert_eq!(criteria.exclude_agents.len(), 1);
}

#[test]
fn test_agent_selection_simplification() {
    let shallow = SelectionCriteria::new("test".to_string()).with_depth(0, 3);
    let deep = SelectionCriteria::new("test".to_string()).with_depth(2, 3);

    assert!(!shallow.should_simplify_agent());
    assert!(deep.should_simplify_agent());
}

#[test]
fn phase2_rlm_integration_tests_test_agent_score_ordering() {

    let high_score = AgentScore::new("good-agent".to_string(), 950, 900, 850);
    let low_score = AgentScore::new("bad-agent".to_string(), 300, 200, 100);

    assert!(high_score > low_score);
}

#[test]
fn test_multi_depth_error_handling() {
    let mut controller = DepthController::new(DepthConfig::with_max_depth(2));

    // Successful increments
    assert!(controller.increment("a".to_string()).is_ok());
    assert!(controller.increment("b".to_string()).is_ok());

    // Failed increment at max
    let result = controller.increment("c".to_string());
    assert!(result.is_err());
    match result {
        Err(FederationError::DepthExceeded { max, current }) => {
            assert_eq!(max, 2);
            assert_eq!(current, 2);
        }
        _ => panic!("Expected DepthExceeded error"),
    }

    // State should not change after failed increment
    assert_eq!(controller.current_depth(), 2);
    assert_eq!(controller.depth_stack().len(), 2);
}

#[test]
fn test_agent_recommendation_mapping() {
    let selector = AgentSelector::new(Arc::new(Default::default()));

    let recommendations = vec![
        ("data_analysis", "data-agent"),
        ("code_analysis", "code-agent"),
        ("code_review", "code-agent"),
        ("web_search", "web-agent"),
        ("academic", "academic-agent"),
        ("research", "academic-agent"),
        ("unknown_task", "general-agent"),
    ];

    for (task, expected_agent) in recommendations {
        let recommended = selector.recommend_agent_type(task);
        assert_eq!(recommended, expected_agent);
    }
}

#[test]
fn test_agent_score_weighted_calculation() {
    // All perfect scores
    let score = AgentScore::new("agent-1".to_string(), 1000, 1000, 1000);
    assert_eq!(score.score, 1000);

    // All zero scores
    let score = AgentScore::new("agent-2".to_string(), 0, 0, 0);
    assert_eq!(score.score, 0);

    // Capability-weighted: 0.9 * 0.5 + 0.8 * 0.3 + 0.7 * 0.2
    let score = AgentScore::new("agent-3".to_string(), 900, 800, 700);
    let expected = 0.9 * 0.5 + 0.8 * 0.3 + 0.7 * 0.2;
    assert!((score.score as f64 / 1000.0 - expected).abs() < 0.01);
}
