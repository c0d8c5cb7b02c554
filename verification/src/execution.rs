//! Results of code execution and the executors of the code agent.

use crate::text::{extend_chars, from_chars, to_chars};
use crate::time::Duration;
use vstd::prelude::*;
use vstd::string::StringExecFns;

verus! {

/// Output limit used when none is given.
pub const DEFAULT_MAX_OUTPUT: usize = 8192;

/// Languages that the code agent runs.
#[derive(Debug, Clone, Copy, PartialEq, Eq)]
pub enum ExecutionLanguage {
    Python,
    Java,
    Rust,
}

impl ExecutionLanguage {
    /// The name of the language.
    pub open spec fn name(self) -> Seq<char> {
        match self {
            ExecutionLanguage::Python => "Python"@,
            ExecutionLanguage::Java => "Java"@,
            ExecutionLanguage::Rust => "Rust"@,
        }
    }

    /// The name of the language.
    pub fn to_string(&self) -> (s: String)
        ensures
            s@ == self.name(),
    {
        match self {
            ExecutionLanguage::Python => String::from_str("Python"),
            ExecutionLanguage::Java => String::from_str("Java"),
            ExecutionLanguage::Rust => String::from_str("Rust"),
        }
    }
}

/// What running a piece of code gave.
#[derive(Debug, Clone)]
pub struct ExecutionResult {
    /// Language of the code.
    pub language: ExecutionLanguage,
    /// The code that ran.
    pub code: String,
    /// Standard output.
    pub stdout: String,
    /// Standard error.
    pub stderr: String,
    /// Exit code.
    pub exit_code: i32,
    /// Whether the run succeeded.
    pub success: bool,
    /// Duration of the run in milliseconds.
    pub duration_ms: u64,
}

/// Standard output and standard error, separated by a newline where both
/// hold text.
pub open spec fn combined_output(stdout: Seq<char>, stderr: Seq<char>) -> Seq<char> {
    if stdout.len() > 0 && stderr.len() > 0 {
        stdout + "\n"@ + stderr
    } else {
        stdout + stderr
    }
}

/// `text` cut to `max_length` characters with a notice, if it is longer.
pub open spec fn limited(text: Seq<char>, max_length: int) -> Seq<char> {
    if text.len() > max_length {
        text.take(max_length) + "\n... (output truncated)"@
    } else {
        text
    }
}

impl ExecutionResult {
    /// The combined output, cut to `max_length` characters with a notice if
    /// it is longer.
    pub fn get_output(&self, max_length: usize) -> (out: String)
        ensures
            out@ == limited(combined_output(self.stdout@, self.stderr@), max_length as int),
    {
        let mut output = to_chars(self.stdout.as_str());
        let err = to_chars(self.stderr.as_str());
        if output.len() > 0 && err.len() > 0 {
            let sep = to_chars("\n");
            extend_chars(&mut output, sep.as_slice());
        }
        extend_chars(&mut output, err.as_slice());
        proof {
            assert(output@ =~= combined_output(self.stdout@, self.stderr@));
        }
        if output.len() > max_length {
            let ghost full = output@;
            output.truncate(max_length);
            let notice = to_chars("\n... (output truncated)");
            extend_chars(&mut output, notice.as_slice());
            proof {
                assert(output@ =~= full.take(max_length as int) + "\n... (output truncated)"@);
            }
        }
        from_chars(output.as_slice())
    }
}

/// Runs code in one language.
pub trait Executor {
    /// Runs `code` within `timeout`, keeping at most `max_output` characters
    /// of output.
    fn execute(&self, code: &str, timeout: Duration, max_output: usize) -> Result<
        ExecutionResult,
        String,
    >;
}

/// The result of a run that did nothing: success without output.
pub open spec fn idle_result(language: ExecutionLanguage, code: Seq<char>, r: ExecutionResult) -> bool {
    &&& r.language == language
    &&& r.code@ == code
    &&& r.stdout@.len() == 0
    &&& r.stderr@.len() == 0
    &&& r.exit_code == 0
    &&& r.success
    &&& r.duration_ms == 0
}

fn idle(language: ExecutionLanguage, code: &str) -> (r: ExecutionResult)
    ensures
        idle_result(language, code@, r),
{
    ExecutionResult {
        language,
        code: String::from_str(code),
        stdout: String::new(),
        stderr: String::new(),
        exit_code: 0,
        success: true,
        duration_ms: 0,
    }
}

/// Executor for Python code. It accepts every piece of code and reports an
/// idle run.
#[derive(Debug, Clone, Copy)]
pub struct PythonExecutor {}

impl PythonExecutor {
    /// A Python executor.
    pub fn new() -> PythonExecutor {
        PythonExecutor {  }
    }
}

impl Default for PythonExecutor {
    fn default() -> PythonExecutor {
        PythonExecutor::new()
    }
}

impl Executor for PythonExecutor {
    fn execute(&self, code: &str, _timeout: Duration, _max_output: usize) -> (r: Result<
        ExecutionResult,
        String,
    >)
        ensures
            r matches Ok(res) && idle_result(ExecutionLanguage::Python, code@, res),
    {
        Ok(idle(ExecutionLanguage::Python, code))
    }
}

/// Executor for Java code. It accepts every piece of code and reports an
/// idle run.
#[derive(Debug, Clone, Copy)]
pub struct JavaExecutor {}

impl JavaExecutor {
    /// A Java executor.
    pub fn new() -> JavaExecutor {
        JavaExecutor {  }
    }
}

impl Default for JavaExecutor {
    fn default() -> JavaExecutor {
        JavaExecutor::new()
    }
}

impl Executor for JavaExecutor {
    fn execute(&self, code: &str, _timeout: Duration, _max_output: usize) -> (r: Result<
        ExecutionResult,
        String,
    >)
        ensures
            r matches Ok(res) && idle_result(ExecutionLanguage::Java, code@, res),
    {
        Ok(idle(ExecutionLanguage::Java, code))
    }
}

/// Executor for Rust code. It accepts every piece of code and reports an
/// idle run.
#[derive(Debug, Clone, Copy)]
pub struct RustExecutor {}

impl RustExecutor {
    /// A Rust executor.
    pub fn new() -> RustExecutor {
        RustExecutor {  }
    }
}

impl Default for RustExecutor {
    fn default() -> RustExecutor {
        RustExecutor::new()
    }
}

impl Executor for RustExecutor {
    fn execute(&self, code: &str, _timeout: Duration, _max_output: usize) -> (r: Result<
        ExecutionResult,
        String,
    >)
        ensures
            r matches Ok(res) && idle_result(ExecutionLanguage::Rust, code@, res),
    {
        Ok(idle(ExecutionLanguage::Rust, code))
    }
}

/// Front of the executors of all languages.
#[derive(Debug, Clone, Copy)]
pub struct REPLManager {}

impl REPLManager {
    /// A manager over the executors of all languages.
    pub fn new() -> REPLManager {
        REPLManager {  }
    }

    /// Reports a successful run of `code` whose output names the language.
    pub fn execute(
        &self,
        language: ExecutionLanguage,
        code: &str,
        _timeout: Duration,
        _max_output: usize,
    ) -> (r: Result<ExecutionResult, String>)
        ensures
            r matches Ok(res) && {
                &&& res.language == language
                &&& res.code@ == code@
                &&& res.stdout@ == "Mock execution of "@ + language.name() + " code"@
                &&& res.stderr@.len() == 0
                &&& res.exit_code == 0
                &&& res.success
                &&& res.duration_ms == 0
            },
    {
        let mut stdout = String::from_str("Mock execution of ");
        let name = language.to_string();
        stdout.append(name.as_str());
        stdout.append(" code");
        Ok(
            ExecutionResult {
                language,
                code: String::from_str(code),
                stdout,
                stderr: String::new(),
                exit_code: 0,
                success: true,
                duration_ms: 0,
            },
        )
    }

    /// `execute` with the default output limit.
    pub fn execute_limited(&self, language: ExecutionLanguage, code: &str, timeout: Duration) -> (r:
        Result<ExecutionResult, String>)
        ensures
            r matches Ok(res) && {
                &&& res.language == language
                &&& res.code@ == code@
                &&& res.stdout@ == "Mock execution of "@ + language.name() + " code"@
                &&& res.stderr@.len() == 0
                &&& res.exit_code == 0
                &&& res.success
                &&& res.duration_ms == 0
            },
    {
        self.execute(language, code, timeout, DEFAULT_MAX_OUTPUT)
    }
}

impl Default for REPLManager {
    fn default() -> REPLManager {
        REPLManager::new()
    }
}

} // verus!
