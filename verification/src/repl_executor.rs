//! Per-language code runners: which runner serves a language name, and what
//! is made of what a run wrote.
//!
//! Starting processes is left to the caller; this module decides on plain
//! values.

use crate::error::{RLMError, RLMResult};
use crate::text::{is_text, lowercase_of, to_chars, to_lowercase};
use crate::time::Duration;
use vstd::prelude::*;
use vstd::string::StringExecFns;

verus! {

/// A runner of code in one language.
pub trait REPLExecutor {
    /// The standard name of the language.
    fn language(&self) -> &str;
}

/// What a finished process left behind.
#[derive(Debug)]
pub struct ProcessOutput {
    /// Whether the process exited with success.
    pub success: bool,
    /// What it wrote to standard output.
    pub stdout: String,
    /// What it wrote to standard error.
    pub stderr: String,
}

/// The text reported for a run: standard output, or `(no output)` where
/// nothing was written; standard error stands in for an empty standard
/// output only where `stderr_counts`.
pub open spec fn reported_output(stdout: Seq<char>, stderr: Seq<char>, stderr_counts: bool) -> Seq<
    char,
> {
    if stdout.len() == 0 && stderr.len() == 0 {
        "(no output)"@
    } else if stdout.len() == 0 && stderr_counts {
        stderr
    } else {
        stdout
    }
}

/// Decides what a run reports: an execution error that starts with
/// `failure_prefix` where the process failed and wrote to standard error,
/// the reported output otherwise.
pub fn interpret_output(output: &ProcessOutput, failure_prefix: &str, stderr_counts: bool) -> (r:
    RLMResult<String>)
    ensures
        match r {
            Ok(text) => {
                &&& output.success || output.stderr@.len() == 0
                &&& text@ == reported_output(output.stdout@, output.stderr@, stderr_counts)
            },
            Err(e) => {
                &&& !output.success && output.stderr@.len() > 0
                &&& e is ExecutionError
                &&& e.detail() == failure_prefix@ + output.stderr@
            },
        },
{
    let no_err = output.stderr.as_str().is_empty();
    let no_out = output.stdout.as_str().is_empty();
    if !output.success && !no_err {
        let mut m = String::from_str(failure_prefix);
        m.append(output.stderr.as_str());
        return Err(RLMError::execution(m.as_str()));
    }
    if no_out && no_err {
        Ok(String::from_str("(no output)"))
    } else if no_out && stderr_counts {
        Ok(output.stderr.clone())
    } else {
        Ok(output.stdout.clone())
    }
}

/// The Rust program that runs `code`: the code as the body of `main`.
pub fn rust_program(code: &str) -> (source: String)
    ensures
        source@ == "fn main() {\n"@ + code@ + "\n}"@,
{
    let mut s = String::from_str("fn main() {\n");
    s.append(code);
    s.append("\n}");
    s
}

/// The Java program that runs `code`: the code as the body of `main` of the
/// class `class_name`.
pub fn java_program(class_name: &str, code: &str) -> (source: String)
    ensures
        source@ == "public class "@ + class_name@
            + " {\n    public static void main(String[] args) {\n        "@ + code@
            + "\n    }\n}"@,
{
    let mut s = String::from_str("public class ");
    s.append(class_name);
    s.append(" {\n    public static void main(String[] args) {\n        ");
    s.append(code);
    s.append("\n    }\n}");
    s
}

/// Runner of Python code.
#[derive(Debug, Clone, Copy)]
pub struct PythonREPL {
    timeout: Duration,
}

impl PythonREPL {
    /// The time that a run may take.
    pub closed spec fn limit(&self) -> Duration {
        self.timeout
    }

    /// A runner with a timeout of thirty seconds.
    pub fn new() -> (r: PythonREPL)
        ensures
            r.limit() == Duration::spec_from_secs(30),
    {
        PythonREPL { timeout: Duration::from_secs(30) }
    }

    /// Replaces the timeout.
    pub fn with_timeout(self, timeout: Duration) -> (r: PythonREPL)
        ensures
            r.limit() == timeout,
    {
        PythonREPL { timeout }
    }

    /// The timeout.
    pub fn timeout(&self) -> (t: Duration)
        ensures
            t == self.limit(),
    {
        self.timeout
    }

    /// What a run of this runner reports.
    pub fn interpret(&self, output: &ProcessOutput) -> (r: RLMResult<String>)
        ensures
            match r {
                Ok(text) => {
                    &&& output.success || output.stderr@.len() == 0
                    &&& text@ == reported_output(output.stdout@, output.stderr@, true)
                },
                Err(e) => {
                    &&& !output.success && output.stderr@.len() > 0
                    &&& e is ExecutionError
                    &&& e.detail() == "Python execution failed:\n"@ + output.stderr@
                },
            },
    {
        interpret_output(output, "Python execution failed:\n", true)
    }
}

impl Default for PythonREPL {
    fn default() -> (r: PythonREPL)
        ensures
            r.limit() == Duration::spec_from_secs(30),
    {
        PythonREPL::new()
    }
}

impl REPLExecutor for PythonREPL {
    fn language(&self) -> (name: &str)
        ensures
            name@ == "python"@,
    {
        "python"
    }
}

/// Runner of Rust code.
#[derive(Debug, Clone, Copy)]
pub struct RustREPL {
    timeout: Duration,
}

impl RustREPL {
    /// The time that a run may take.
    pub closed spec fn limit(&self) -> Duration {
        self.timeout
    }

    /// A runner with a timeout of thirty seconds.
    pub fn new() -> (r: RustREPL)
        ensures
            r.limit() == Duration::spec_from_secs(30),
    {
        RustREPL { timeout: Duration::from_secs(30) }
    }

    /// Replaces the timeout.
    pub fn with_timeout(self, timeout: Duration) -> (r: RustREPL)
        ensures
            r.limit() == timeout,
    {
        RustREPL { timeout }
    }

    /// The timeout.
    pub fn timeout(&self) -> (t: Duration)
        ensures
            t == self.limit(),
    {
        self.timeout
    }

    /// What a run of this runner reports.
    pub fn interpret(&self, output: &ProcessOutput) -> (r: RLMResult<String>)
        ensures
            match r {
                Ok(text) => {
                    &&& output.success || output.stderr@.len() == 0
                    &&& text@ == reported_output(output.stdout@, output.stderr@, false)
                },
                Err(e) => {
                    &&& !output.success && output.stderr@.len() > 0
                    &&& e is ExecutionError
                    &&& e.detail() == "Rust compilation/execution failed:\n"@ + output.stderr@
                },
            },
    {
        interpret_output(output, "Rust compilation/execution failed:\n", false)
    }
}

impl Default for RustREPL {
    fn default() -> (r: RustREPL)
        ensures
            r.limit() == Duration::spec_from_secs(30),
    {
        RustREPL::new()
    }
}

impl REPLExecutor for RustREPL {
    fn language(&self) -> (name: &str)
        ensures
            name@ == "rust"@,
    {
        "rust"
    }
}

/// Runner of Java code.
#[derive(Debug, Clone, Copy)]
pub struct JavaREPL {
    timeout: Duration,
}

impl JavaREPL {
    /// The time that a run may take.
    pub closed spec fn limit(&self) -> Duration {
        self.timeout
    }

    /// A runner with a timeout of thirty seconds.
    pub fn new() -> (r: JavaREPL)
        ensures
            r.limit() == Duration::spec_from_secs(30),
    {
        JavaREPL { timeout: Duration::from_secs(30) }
    }

    /// Replaces the timeout.
    pub fn with_timeout(self, timeout: Duration) -> (r: JavaREPL)
        ensures
            r.limit() == timeout,
    {
        JavaREPL { timeout }
    }

    /// The timeout.
    pub fn timeout(&self) -> (t: Duration)
        ensures
            t == self.limit(),
    {
        self.timeout
    }

    /// What a run of this runner reports.
    pub fn interpret(&self, output: &ProcessOutput) -> (r: RLMResult<String>)
        ensures
            match r {
                Ok(text) => {
                    &&& output.success || output.stderr@.len() == 0
                    &&& text@ == reported_output(output.stdout@, output.stderr@, false)
                },
                Err(e) => {
                    &&& !output.success && output.stderr@.len() > 0
                    &&& e is ExecutionError
                    &&& e.detail() == "Java execution failed:\n"@ + output.stderr@
                },
            },
    {
        interpret_output(output, "Java execution failed:\n", false)
    }
}

impl JavaREPL {
    /// What the compiler run means: an execution error that carries what
    /// the compiler wrote wherever it failed.
    pub fn interpret_compilation(&self, output: &ProcessOutput) -> (r: RLMResult<()>)
        ensures
            match r {
                Ok(_) => output.success,
                Err(e) => {
                    &&& !output.success
                    &&& e is ExecutionError
                    &&& e.detail() == "Java compilation failed:\n"@ + output.stderr@
                },
            },
    {
        if output.success {
            Ok(())
        } else {
            let mut m = String::from_str("Java compilation failed:\n");
            m.append(output.stderr.as_str());
            Err(RLMError::execution(m.as_str()))
        }
    }
}

impl Default for JavaREPL {
    fn default() -> (r: JavaREPL)
        ensures
            r.limit() == Duration::spec_from_secs(30),
    {
        JavaREPL::new()
    }
}

impl REPLExecutor for JavaREPL {
    fn language(&self) -> (name: &str)
        ensures
            name@ == "java"@,
    {
        "java"
    }
}

/// Runner of Bash code.
#[derive(Debug, Clone, Copy)]
pub struct BashREPL {
    timeout: Duration,
}

impl BashREPL {
    /// The time that a run may take.
    pub closed spec fn limit(&self) -> Duration {
        self.timeout
    }

    /// A runner with a timeout of thirty seconds.
    pub fn new() -> (r: BashREPL)
        ensures
            r.limit() == Duration::spec_from_secs(30),
    {
        BashREPL { timeout: Duration::from_secs(30) }
    }

    /// Replaces the timeout.
    pub fn with_timeout(self, timeout: Duration) -> (r: BashREPL)
        ensures
            r.limit() == timeout,
    {
        BashREPL { timeout }
    }

    /// The timeout.
    pub fn timeout(&self) -> (t: Duration)
        ensures
            t == self.limit(),
    {
        self.timeout
    }

    /// What a run of this runner reports.
    pub fn interpret(&self, output: &ProcessOutput) -> (r: RLMResult<String>)
        ensures
            match r {
                Ok(text) => {
                    &&& output.success || output.stderr@.len() == 0
                    &&& text@ == reported_output(output.stdout@, output.stderr@, false)
                },
                Err(e) => {
                    &&& !output.success && output.stderr@.len() > 0
                    &&& e is ExecutionError
                    &&& e.detail() == "Bash execution failed:\n"@ + output.stderr@
                },
            },
    {
        interpret_output(output, "Bash execution failed:\n", false)
    }
}

impl Default for BashREPL {
    fn default() -> (r: BashREPL)
        ensures
            r.limit() == Duration::spec_from_secs(30),
    {
        BashREPL::new()
    }
}

impl REPLExecutor for BashREPL {
    fn language(&self) -> (name: &str)
        ensures
            name@ == "bash"@,
    {
        "bash"
    }
}

/// Runner of JavaScript code.
#[derive(Debug, Clone, Copy)]
pub struct JavaScriptREPL {
    timeout: Duration,
}

impl JavaScriptREPL {
    /// The time that a run may take.
    pub closed spec fn limit(&self) -> Duration {
        self.timeout
    }

    /// A runner with a timeout of thirty seconds.
    pub fn new() -> (r: JavaScriptREPL)
        ensures
            r.limit() == Duration::spec_from_secs(30),
    {
        JavaScriptREPL { timeout: Duration::from_secs(30) }
    }

    /// Replaces the timeout.
    pub fn with_timeout(self, timeout: Duration) -> (r: JavaScriptREPL)
        ensures
            r.limit() == timeout,
    {
        JavaScriptREPL { timeout }
    }

    /// The timeout.
    pub fn timeout(&self) -> (t: Duration)
        ensures
            t == self.limit(),
    {
        self.timeout
    }

    /// What a run of this runner reports.
    pub fn interpret(&self, output: &ProcessOutput) -> (r: RLMResult<String>)
        ensures
            match r {
                Ok(text) => {
                    &&& output.success || output.stderr@.len() == 0
                    &&& text@ == reported_output(output.stdout@, output.stderr@, false)
                },
                Err(e) => {
                    &&& !output.success && output.stderr@.len() > 0
                    &&& e is ExecutionError
                    &&& e.detail() == "JavaScript execution failed:\n"@ + output.stderr@
                },
            },
    {
        interpret_output(output, "JavaScript execution failed:\n", false)
    }
}

impl Default for JavaScriptREPL {
    fn default() -> (r: JavaScriptREPL)
        ensures
            r.limit() == Duration::spec_from_secs(30),
    {
        JavaScriptREPL::new()
    }
}

impl REPLExecutor for JavaScriptREPL {
    fn language(&self) -> (name: &str)
        ensures
            name@ == "javascript"@,
    {
        "javascript"
    }
}

/// One of the runners.
#[derive(Debug, Clone, Copy)]
pub enum ReplRunner {
    Python(PythonREPL),
    Rust(RustREPL),
    Java(JavaREPL),
    Bash(BashREPL),
    JavaScript(JavaScriptREPL),
}

impl ReplRunner {
    /// The standard name of the runner's language.
    pub open spec fn name(self) -> Seq<char> {
        match self {
            ReplRunner::Python(_) => "python"@,
            ReplRunner::Rust(_) => "rust"@,
            ReplRunner::Java(_) => "java"@,
            ReplRunner::Bash(_) => "bash"@,
            ReplRunner::JavaScript(_) => "javascript"@,
        }
    }
}

impl REPLExecutor for ReplRunner {
    fn language(&self) -> (name: &str)
        ensures
            name@ == self.name(),
    {
        match self {
            ReplRunner::Python(r) => r.language(),
            ReplRunner::Rust(r) => r.language(),
            ReplRunner::Java(r) => r.language(),
            ReplRunner::Bash(r) => r.language(),
            ReplRunner::JavaScript(r) => r.language(),
        }
    }
}

/// The standard name of the language that the lowercase name `lower` stands
/// for, if it is served.
pub open spec fn served_language(lower: Seq<char>) -> Option<Seq<char>> {
    if lower == "python"@ || lower == "py"@ {
        Some("python"@)
    } else if lower == "rust"@ || lower == "rs"@ {
        Some("rust"@)
    } else if lower == "java"@ {
        Some("java"@)
    } else if lower == "bash"@ || lower == "sh"@ || lower == "shell"@ {
        Some("bash"@)
    } else if lower == "javascript"@ || lower == "js"@ {
        Some("javascript"@)
    } else {
        None
    }
}

/// The runner that serves the lowercase language name or alias `lower`, if
/// it is served.
pub fn runner_for(lower: &str) -> (r: Option<ReplRunner>)
    ensures
        match r {
            Some(runner) => served_language(lower@) == Some(runner.name()),
            None => served_language(lower@) is None,
        },
{
    let l = to_chars(lower);
    if is_text(l.as_slice(), "python") || is_text(l.as_slice(), "py") {
        Some(ReplRunner::Python(PythonREPL::new()))
    } else if is_text(l.as_slice(), "rust") || is_text(l.as_slice(), "rs") {
        Some(ReplRunner::Rust(RustREPL::new()))
    } else if is_text(l.as_slice(), "java") {
        Some(ReplRunner::Java(JavaREPL::new()))
    } else if is_text(l.as_slice(), "bash") || is_text(l.as_slice(), "sh") || is_text(
        l.as_slice(),
        "shell",
    ) {
        Some(ReplRunner::Bash(BashREPL::new()))
    } else if is_text(l.as_slice(), "javascript") || is_text(l.as_slice(), "js") {
        Some(ReplRunner::JavaScript(JavaScriptREPL::new()))
    } else {
        None
    }
}

/// Chooses the runner for a language.
#[derive(Debug, Clone, Copy)]
pub struct REPLExecutorFactory {}

impl REPLExecutorFactory {
    /// The runner for `language`, whatever its letter case. Fails with an
    /// execution error for a language that is not served.
    pub fn create(language: &str) -> (r: RLMResult<ReplRunner>)
        ensures
            match r {
                Ok(runner) => served_language(lowercase_of(language@)) == Some(runner.name()),
                Err(e) => {
                    &&& served_language(lowercase_of(language@)) is None
                    &&& e is ExecutionError
                    &&& e.detail() == "Unsupported language: "@ + language@
                },
            },
    {
        let lower = to_lowercase(language);
        match runner_for(lower.as_str()) {
            Some(runner) => Ok(runner),
            None => {
                let mut m = String::from_str("Unsupported language: ");
                m.append(language);
                Err(RLMError::execution(m.as_str()))
            },
        }
    }
}

} // verus!
