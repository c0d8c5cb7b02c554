use kowalski_rlm::builder::RLMBuilder;
use kowalski_rlm::code_block_parser::CodeBlock;
use kowalski_rlm::config::RLMConfig;
use kowalski_rlm::context::RLMContext;
use kowalski_rlm::error::RLMError;
use kowalski_rlm::executor::{BlockOutcome, RLMExecutor};

fn drive(
    executor: &RLMExecutor,
    prompt: &str,
    task_id: &str,
    run: &dyn Fn(&CodeBlock) -> BlockOutcome,
) -> Result<(String, RLMContext), RLMError> {
    let mut context = executor.begin(prompt, task_id)?;
    while !context.max_iterations_reached() {
        let blocks = executor.start_iteration(&mut context);
        let outcomes: Vec<BlockOutcome> = blocks.iter().map(|b| run(b)).collect();
        executor.finish_iteration(&mut context, &blocks, &outcomes);
        assert!(context.iteration <= executor.config().max_iterations);
    }
    Ok((executor.finish(&context), context))
}

#[test]
fn test_executor_creation() {
    let config = RLMConfig::default();
    let executor = RLMExecutor::new(config);
    assert!(executor.is_ok());
}

#[test]
fn test_executor_validation() {
    let config = RLMConfig::default();
    let executor = RLMExecutor::new(config).unwrap();
    assert!(executor.validate().is_ok());
}

#[test]
fn test_execute_empty_prompt() {
    let config = RLMConfig::default();
    let executor = RLMExecutor::new(config).unwrap();
    let result = drive(&executor, "", "task-1", &|_| BlockOutcome::Output(String::new()));
    assert!(result.is_err());
}

#[test]
fn test_execute_empty_task_id() {
    let config = RLMConfig::default();
    let executor = RLMExecutor::new(config).unwrap();
    let result = drive(&executor, "prompt", "", &|_| BlockOutcome::Output(String::new()));
    assert!(result.is_err());
}

#[test]
fn test_execute_success() {
    let config = RLMConfig::default();
    let executor = RLMExecutor::new(config).unwrap();
    let result = drive(&executor, "Test prompt", "task-1", &|_| BlockOutcome::Output(String::new()));
    assert!(result.is_ok());
    let output = result.unwrap().0;
    assert!(output.contains("Test prompt"));
    assert!(output.contains("Iteration"));
}

#[test]
fn executor_test_execute_with_context() {
    let config = RLMConfig::default();
    let executor = RLMExecutor::new(config).unwrap();
    let mut context = RLMContext::new("task-1", config);

    let result = executor.execute_with_context("Test", &mut context);
    assert!(result.is_ok());
}

#[test]
fn test_create_context() {
    let config = RLMConfig::default();
    let executor = RLMExecutor::new(config).unwrap();
    let context = executor.create_context("task-1");

    assert_eq!(context.task_id, "task-1");
    assert_eq!(context.iteration(), 0);
}

#[test]
fn refusals_name_their_reason() {
    let executor = RLMExecutor::new(RLMConfig::default().with_max_repl_output(4).with_max_context_length(5))
        .unwrap();
    let reason = |prompt: &str, task: &str| match executor.begin(prompt, task) {
        Err(RLMError::ExecutionError(m)) => m,
        _ => panic!("expected an execution error"),
    };
    assert_eq!(reason("", ""), "Prompt cannot be empty");
    assert_eq!(reason("p", ""), "Task ID cannot be empty");
    assert_eq!(
        reason("123456", "t"),
        "Prompt exceeds maximum context length (using character count as conservative estimate)"
    );
    assert!(executor.begin("\u{00e9}\u{00e9}\u{00e9}\u{00e9}\u{00e9}", "t").is_ok());
    match RLMExecutor::new(RLMConfig::default().with_max_iterations(0)) {
        Err(RLMError::ConfigError(m)) => assert_eq!(m, "max_iterations must be > 0"),
        _ => panic!("expected a configuration error"),
    }
    assert!(RLMBuilder::new().with_max_recursion_depth(11).build().is_err());
}

#[test]
fn plain_run_appends_one_marker_per_iteration() {
    let executor = RLMBuilder::new().with_max_iterations(3).build().unwrap();
    let (answer, context) =
        drive(&executor, "Plain prompt", "t", &|_| panic!("no block expected")).unwrap();
    assert_eq!(
        answer,
        "Plain prompt\n[Iteration 1 complete]\n[Iteration 2 complete]\n[Iteration 3 complete]"
    );
    assert_eq!(context.iteration, 3);
    assert_eq!(context.message_count, 4);
    assert_eq!(context.metadata.llm_calls, 3);
    assert_eq!(context.metadata.total_tokens, 300);
    assert_eq!(context.metadata.repl_executions, 0);
    assert!(context.metadata.errors.is_empty());
}

#[test]
fn blocks_leave_notes_and_failures_are_recorded() {
    let executor = RLMBuilder::new().with_max_iterations(1).build().unwrap();
    let prompt = "Run:\n```python\nprint(1)\n```\n```rust\nboom\n```";
    let (answer, context) = drive(&executor, prompt, "t", &|b| {
        if b.language == "python" {
            BlockOutcome::Output(format!("ran {}", b.code))
        } else {
            BlockOutcome::Failure(RLMError::execution("no compiler"))
        }
    })
    .unwrap();
    assert_eq!(
        answer,
        format!(
            "{}\n[REPL:python output]\nran print(1)\n[REPL:rust error]\nExecution error: no compiler",
            prompt
        )
    );
    assert_eq!(context.metadata.repl_executions, 2);
    assert_eq!(context.metadata.errors, vec!["Execution error: no compiler".to_string()]);
    assert_eq!(context.metadata.llm_calls, 1);
    assert_eq!(context.iteration, 1);
}

#[test]
fn oversized_answer_is_folded() {
    let config = RLMConfig::default()
        .with_max_iterations(1)
        .with_max_repl_output(10)
        .with_max_context_length(30);
    let executor = RLMExecutor::new(config).unwrap();
    let mut context = executor.begin("seed", "t").unwrap();
    let long = (0..40).map(|i| format!("w{} x y z", i)).collect::<Vec<_>>().join("\n");
    context.append_answer(&long);
    let blocks = executor.start_iteration(&mut context);
    assert!(blocks.is_empty());
    executor.finish_iteration(&mut context, &blocks, &Vec::new());
    assert!(context.answer().ends_with("\n[Context folded]"));
    assert!(context.answer().starts_with("[SUMMARY: "));
    assert!(!context.answer().contains("[Iteration"));

    let unfolded = RLMExecutor::new(config.with_context_folding(false)).unwrap();
    let mut context = unfolded.begin("seed", "t").unwrap();
    context.append_answer(&long);
    let blocks = unfolded.start_iteration(&mut context);
    unfolded.finish_iteration(&mut context, &blocks, &Vec::new());
    assert_eq!(context.answer(), format!("seed{}\n[Iteration 1 complete]", long));
}

#[test]
fn failed_fold_keeps_the_answer_and_records_the_error() {
    let config = RLMConfig::default()
        .with_max_iterations(1)
        .with_max_repl_output(1)
        .with_max_context_length(2);
    let executor = RLMExecutor::new(config).unwrap();
    let mut context = executor.begin("a", "t").unwrap();
    context.clear_answer();
    context.append_answer("\na b c d e f g h i j k l m n o p q r s t u v w x y z");
    // the first line is empty, and the fold keeps lines from the top
    let mut probe = kowalski_rlm::context_fold::ContextFolder::new(
        kowalski_rlm::context_fold::ContextFoldConfig::new(2),
    );
    let folded = probe.fold(context.answer());
    let before = context.answer().to_string();
    let blocks = executor.start_iteration(&mut context);
    executor.finish_iteration(&mut context, &blocks, &Vec::new());
    match folded {
        Ok(text) => assert_eq!(context.answer(), format!("{}\n[Context folded]", text)),
        Err(e) => {
            assert_eq!(context.answer(), format!("{}\n[Iteration 1 complete]", before));
            assert_eq!(context.metadata.errors, vec![e.to_string()]);
        }
    }
}

#[test]
fn execute_with_context_runs_to_the_maximum() {
    let config = RLMConfig::default().with_max_iterations(2);
    let executor = RLMExecutor::new(config).unwrap();
    let mut context = executor.create_context("t");
    let answer = executor.execute_with_context("Go", &mut context).unwrap();
    assert_eq!(answer, "Go\n[Iteration 1]\n[Iteration 2]");
    assert_eq!(context.iteration, 2);
    assert_eq!(context.metadata.llm_calls, 2);
    let again = executor.execute_with_context("More", &mut context).unwrap();
    assert_eq!(again, "Go\n[Iteration 1]\n[Iteration 2]More");
    assert_eq!(context.iteration, 2);
    match executor.execute_with_context("", &mut context) {
        Err(RLMError::ExecutionError(m)) => assert_eq!(m, "Prompt cannot be empty"),
        _ => panic!("expected an execution error"),
    }
    assert_eq!(context.answer(), again);
}

struct Echo;

impl kowalski_rlm::executor::CodeRunner for Echo {
    fn run(&self, language: &str, code: &str) -> BlockOutcome {
        if language == "bash" {
            BlockOutcome::Failure(RLMError::timeout("bash is slow"))
        } else {
            BlockOutcome::Output(format!("<{}>", code))
        }
    }
}

#[test]
fn whole_loop_with_a_runner() {
    let executor = RLMBuilder::new().with_max_iterations(2).build().unwrap();
    let answer = executor.execute("```js\n1\n```", "t", &Echo).unwrap();
    // the first note holds no code block, so the second iteration finds the same block
    assert_eq!(
        answer,
        "```js\n1\n```\n[REPL:javascript output]\n<1>\n[REPL:javascript output]\n<1>"
    );
    assert!(executor.execute("", "t", &Echo).is_err());
    assert!(executor.execute("p", "", &Echo).is_err());

    let mut context = executor.begin("~~~sh\nsleep 9\n~~~", "t").unwrap();
    executor.run_to_end(&mut context, &Echo);
    assert_eq!(context.iteration, 2);
    assert_eq!(context.metadata.repl_executions, 2);
    assert_eq!(
        context.metadata.errors,
        vec!["Code execution error: bash is slow".to_string(); 2]
    );
    assert_eq!(context.metadata.llm_calls, 2);
    assert_eq!(context.metadata.total_tokens, 200);
    executor.run_to_end(&mut context, &Echo);
    assert_eq!(context.iteration, 2);
    assert_eq!(context.metadata.llm_calls, 2);
}

#[test]
fn plain_answer_starts_with_the_prompt_and_holds_one_marker_per_iteration() {
    for n in 1..=4usize {
        let executor = RLMBuilder::new().with_max_iterations(n).build().unwrap();
        let answer = executor.execute("No code here.", "t", &Echo).unwrap();
        assert!(answer.starts_with("No code here."));
        for k in 1..=n {
            assert_eq!(answer.matches(&format!("[Iteration {} complete]", k)).count(), 1);
        }
        assert_eq!(answer.matches("[Iteration ").count(), n);
        assert!(!answer.contains(&format!("[Iteration {} complete]", n + 1)));
    }
}
