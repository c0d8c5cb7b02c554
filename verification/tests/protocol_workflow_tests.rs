use kowalski_rlm::depth_controller::{DepthConfig, DepthController};
use kowalski_rlm::rlm_protocol::{
    RLMContext, RLMMessageType, RLMRefinementData, RLMTaskRequest, RLMTaskResponse,
};

#[test]
fn test_rlm_task_request_workflow() {
    let mut request = RLMTaskRequest::new("Analyze data".to_string(), "workflow-1".to_string());

    assert_eq!(request.context.workflow_id, "workflow-1");
    assert_eq!(request.message_type, RLMMessageType::Initiate);
    assert_eq!(request.context.current_depth(), 0);
    assert!(request.context.can_recurse());

    // First iteration
    request.context.next_iteration();
    assert_eq!(request.context.iteration, 1);

    // Append result
    request.context.append_result("Finding 1: X".to_string());
    assert!(request.context.accumulated_results.contains("Finding 1"));
}

#[test]
fn test_rlm_recursive_context_creation() {
    let mut parent = RLMContext::new("workflow-1".to_string());
    parent.iteration = 1;
    parent.max_depth = 4;
    parent.append_result("Parent result".to_string());

    let child = parent.create_child();
    assert_eq!(child.workflow_id, parent.workflow_id);
    assert_eq!(child.iteration, parent.iteration);
    assert_eq!(child.depth, 1);
    assert!(child.accumulated_results.is_empty()); // Child starts fresh
    assert!(child.can_recurse());
}

#[test]
fn test_rlm_task_response_workflow() {
    let response = RLMTaskResponse::success(
        "workflow-1".to_string(),
        "Analysis complete".to_string(),
        "agent-1".to_string(),
        150,
        500,
    )
    .mark_recursive(vec!["child-1".to_string(), "child-2".to_string()])
    .with_confidence(950)
    .mark_ready_for_refinement();

    assert!(response.metadata.success);
    assert!(response.used_recursion);
    assert_eq!(response.child_agents.len(), 2);
    assert_eq!(response.confidence, 950);
    assert!(response.ready_for_refinement);
}

#[test]
fn test_rlm_refinement_workflow() {

    let request = RLMTaskRequest::new("Test".to_string(), "workflow-1".to_string());

    let refinements = vec![
        RLMRefinementData {
            aspect: "accuracy".to_string(),
            feedback: "Be more precise".to_string(),
            priority: 9,
        },
        RLMRefinementData {
            aspect: "completeness".to_string(),
            feedback: "Include more examples".to_string(),
            priority: 7,
        },
    ];

    let refined = request.refine(refinements);
    assert_eq!(refined.message_type, RLMMessageType::Refine);
    assert_eq!(refined.refinements.len(), 2);
}

#[test]
fn test_rlm_depth_coordination_workflow() {
    let mut depth_ctrl = DepthController::new(DepthConfig::with_max_depth(3));
    let mut context = RLMContext::new("workflow-1".to_string());

    // Simulate coordinated depth control and RLM context
    depth_ctrl.increment("coordinator".to_string()).unwrap();
    context.depth = depth_ctrl.current_depth();

    assert_eq!(context.depth, 1);
    assert!(!depth_ctrl.should_simplify_agent());

    // Next level
    depth_ctrl.increment("worker-1".to_string()).unwrap();
    context.depth = depth_ctrl.current_depth();

    assert_eq!(context.depth, 2);
    assert!(depth_ctrl.should_simplify_agent());

    // Can still recurse once more
    assert!(context.can_recurse());

    depth_ctrl.increment("worker-2".to_string()).unwrap();
    context.depth = depth_ctrl.current_depth();

    // At max, should not recurse further
    assert!(!context.can_recurse());
    assert!(!depth_ctrl.can_recurse());
}

#[test]
fn test_rlm_protocol_message_types() {
    let initiate = RLMTaskRequest::new("Task".to_string(), "workflow-1".to_string());
    assert_eq!(initiate.message_type, RLMMessageType::Initiate);

    let execute = RLMTaskRequest::new("Task".to_string(), "workflow-1".to_string())
        .execute_step();
    assert_eq!(execute.message_type, RLMMessageType::ExecuteStep);

    let refine = RLMTaskRequest::new("Task".to_string(), "workflow-1".to_string())
        .refine(vec![]);
    assert_eq!(refine.message_type, RLMMessageType::Refine);
}

#[test]
fn test_depth_context_state_preservation() {
    let mut context = RLMContext::new("workflow-1".to_string());
    context.max_depth = 4;
    context.append_result("Previous work".to_string());

    let child = context.create_child();

    // Child preserves workflow_id, max_depth, metadata
    assert_eq!(child.workflow_id, context.workflow_id);
    assert_eq!(child.max_depth, context.max_depth);
    assert_eq!(child.depth, 1);

    // But child starts fresh on results
    assert!(child.accumulated_results.is_empty());
}
