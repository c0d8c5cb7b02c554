use kowalski_rlm::repl_executor::{
    java_program, runner_for, rust_program, JavaREPL, ProcessOutput, PythonREPL, REPLExecutor,
    REPLExecutorFactory, RustREPL,
};
use kowalski_rlm::error::RLMError;
use kowalski_rlm::time::Duration;

#[test]
fn test_factory_python() {
    let executor = REPLExecutorFactory::create("python").unwrap();
    assert_eq!(executor.language(), "python");
}

#[test]
fn test_factory_rust() {
    let executor = REPLExecutorFactory::create("rust").unwrap();
    assert_eq!(executor.language(), "rust");
}

#[test]
fn test_factory_java() {
    let executor = REPLExecutorFactory::create("java").unwrap();
    assert_eq!(executor.language(), "java");
}

#[test]
fn test_factory_bash() {
    let executor = REPLExecutorFactory::create("bash").unwrap();
    assert_eq!(executor.language(), "bash");
}

#[test]
fn test_factory_javascript() {
    let executor = REPLExecutorFactory::create("javascript").unwrap();
    assert_eq!(executor.language(), "javascript");
}

#[test]
fn test_factory_unsupported() {
    let result = REPLExecutorFactory::create("cpp");
    assert!(result.is_err());
}

#[test]
fn factory_accepts_aliases_in_any_case() {
    assert_eq!(REPLExecutorFactory::create("PY").unwrap().language(), "python");
    assert_eq!(REPLExecutorFactory::create("rs").unwrap().language(), "rust");
    assert_eq!(REPLExecutorFactory::create("Shell").unwrap().language(), "bash");
    assert_eq!(REPLExecutorFactory::create("sh").unwrap().language(), "bash");
    assert_eq!(REPLExecutorFactory::create("JS").unwrap().language(), "javascript");
    match REPLExecutorFactory::create("cpp") {
        Err(RLMError::ExecutionError(m)) => assert_eq!(m, "Unsupported language: cpp"),
        _ => panic!("expected an execution error"),
    }
    assert!(REPLExecutorFactory::create(" python").is_err());
}

#[test]
fn runs_are_interpreted_per_language() {
    let python = PythonREPL::new().with_timeout(Duration::from_secs(5));
    assert_eq!(python.timeout(), Duration::from_secs(5));
    assert_eq!(RustREPL::default().timeout().as_secs(), 30);
    let out = |success: bool, stdout: &str, stderr: &str| ProcessOutput {
        success,
        stdout: stdout.to_string(),
        stderr: stderr.to_string(),
    };
    assert_eq!(python.interpret(&out(true, "hi", "warn")).unwrap(), "hi");
    assert_eq!(python.interpret(&out(true, "", "warn")).unwrap(), "warn");
    assert_eq!(python.interpret(&out(true, "", "")).unwrap(), "(no output)");
    assert_eq!(python.interpret(&out(false, "", "")).unwrap(), "(no output)");
    match python.interpret(&out(false, "x", "boom")) {
        Err(RLMError::ExecutionError(m)) => assert_eq!(m, "Python execution failed:\nboom"),
        _ => panic!("expected an execution error"),
    }
    let java = JavaREPL::new();
    assert_eq!(java.interpret(&out(true, "", "warn")).unwrap(), "");
    assert!(java.interpret_compilation(&out(true, "", "warning: x")).is_ok());
    match java.interpret_compilation(&out(false, "", "")) {
        Err(RLMError::ExecutionError(m)) => assert_eq!(m, "Java compilation failed:\n"),
        _ => panic!("expected an execution error"),
    }
    match RustREPL::new().interpret(&out(false, "", "E0382")) {
        Err(e) => assert_eq!(
            e.to_string(),
            "Execution error: Rust compilation/execution failed:\nE0382"
        ),
        Ok(_) => panic!("expected an error"),
    }
}

#[test]
fn programs_wrap_the_code() {
    assert_eq!(rust_program("println!(\"x\");"), "fn main() {\nprintln!(\"x\");\n}");
    assert_eq!(
        java_program("K1", "int a;"),
        "public class K1 {\n    public static void main(String[] args) {\n        int a;\n    }\n}"
    );
}

#[test]
fn runners_are_found_by_lowercase_name() {
    for (name, language) in [
        ("python", "python"),
        ("py", "python"),
        ("rust", "rust"),
        ("rs", "rust"),
        ("java", "java"),
        ("bash", "bash"),
        ("sh", "bash"),
        ("shell", "bash"),
        ("javascript", "javascript"),
        ("js", "javascript"),
    ] {
        assert_eq!(runner_for(name).unwrap().language(), language, "{}", name);
    }
    for name in ["", "Python", "PY", "python3", "node", "c", " sh"] {
        assert!(runner_for(name).is_none(), "{:?}", name);
    }
}
