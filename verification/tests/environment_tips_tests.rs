use kowalski_rlm::environment_tips::EnvironmentTips;

#[test]
fn test_create_and_add_tips() {
    let tips = EnvironmentTips::new()
        .add_tip("web_search", "Use for recent info")
        .add_tip("csv_analysis", "Optimize for large datasets");

    assert_eq!(tips.get_tip("web_search"), Some("Use for recent info"));
    assert_eq!(tips.get_tip("csv_analysis"), Some("Optimize for large datasets"));
    assert_eq!(tips.get_tip("unknown"), None);
}

#[test]
fn test_add_resources() {
    let tips = EnvironmentTips::new()
        .add_resource("max_iterations", "5")
        .add_resource("timeout_seconds", "300");

    assert_eq!(tips.get_resource("max_iterations"), Some("5"));
    assert_eq!(tips.get_resource("timeout_seconds"), Some("300"));
}

#[test]
fn test_add_context() {
    let tips = EnvironmentTips::new()
        .add_context("user_id", "user123")
        .add_context("task_type", "research");

    assert_eq!(tips.get_context("user_id"), Some("user123"));
    assert_eq!(tips.get_context("task_type"), Some("research"));
}

#[test]
fn test_augment_prompt_with_tips() {
    let tips = EnvironmentTips::new()
        .add_tip("web_search", "Use for recent information")
        .add_resource("max_iterations", "3")
        .add_context("task", "research");

    let prompt = "Find AI papers";
    let augmented = tips.augment_prompt(prompt);

    assert!(augmented.contains("Find AI papers"));
    assert!(augmented.contains("max_iterations"));
    assert!(augmented.contains("web_search"));
    assert!(augmented.contains("task"));
}

#[test]
fn test_augment_prompt_without_extras() {
    let tips = EnvironmentTips::new();
    let prompt = "Simple prompt";
    let augmented = tips.augment_prompt(prompt);

    assert_eq!(augmented, prompt);
}

#[test]
fn test_default_instance() {
    let tips = EnvironmentTips::default();
    assert!(tips.tips().is_empty());
    assert!(tips.resources().is_empty());
    assert!(tips.context().is_empty());
}

#[test]
fn augmented_prompt_has_exact_layout() {
    let tips = EnvironmentTips::new()
        .add_tip("web_search", "Use for recent information")
        .add_resource("max_iterations", "3")
        .add_resource("timeout", "5m")
        .add_context("task", "research");
    assert_eq!(
        tips.augment_prompt("Find AI papers"),
        "Find AI papers\n\n## Resource Constraints\n- max_iterations: 3\n- timeout: 5m\n\n\
## Available Tools & Optimization Tips\n- **web_search**: Use for recent information\n\n\
## Execution Context\n- task: research\n"
    );
}

#[test]
fn partial_sections_are_left_out() {
    let tips = EnvironmentTips::new().add_tip("only_tool", "A tool tip");
    let augmented = tips.augment_prompt("Test prompt");
    assert!(augmented.contains("Test prompt"));
    assert!(augmented.contains("Available Tools"));
    assert!(augmented.contains("only_tool"));
    assert!(!augmented.contains("Resource Constraints"));
    assert!(!augmented.contains("Execution Context"));
    let empty = EnvironmentTips::new();
    assert_eq!(empty.augment_prompt("Some prompt"), "Some prompt");
}

#[test]
fn later_value_replaces_earlier() {
    let tips = EnvironmentTips::new().add_tip("t", "one").add_tip("u", "x").add_tip("t", "two");
    assert_eq!(tips.get_tip("t"), Some("two"));
    assert_eq!(tips.tips().len(), 2);
    assert!(tips.tips().contains_key("u"));
    assert!(!tips.tips().contains_key("v"));
}
