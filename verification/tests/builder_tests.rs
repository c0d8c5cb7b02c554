use kowalski_rlm::builder::RLMBuilder;
use kowalski_rlm::time::Duration;

#[test]
fn test_builder_default() {
    let builder = RLMBuilder::default();
    assert_eq!(builder.config.max_iterations, 5);
}

#[test]
fn builder_test_builder_chain() {
    let builder = RLMBuilder::new()
        .with_max_iterations(10)
        .with_max_repl_output(16384)
        .with_iteration_timeout(Duration::from_secs(600));

    assert_eq!(builder.config.max_iterations, 10);
    assert_eq!(builder.config.max_repl_output, 16384);
    assert_eq!(builder.config.iteration_timeout, Duration::from_secs(600));
}

#[test]
fn test_builder_build_valid() {
    let result = RLMBuilder::default().build();
    assert!(result.is_ok());
}

#[test]
fn test_builder_build_invalid() {
    let builder = RLMBuilder::new().with_max_iterations(0);
    let result = builder.build();
    assert!(result.is_err());
}

#[test]
fn test_builder_config_access() {
    let mut builder = RLMBuilder::new();
    builder.config_mut().max_iterations = 15;
    assert_eq!(builder.config().max_iterations, 15);
}
