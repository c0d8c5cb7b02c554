//! Configuration of a refinement workflow.

use crate::time::{lemma_from_secs, Duration};
use vstd::prelude::*;
use vstd::string::StringExecFns;

verus! {

/// Hard ceiling on the delegation depth.
pub const MAX_RECURSION_DEPTH: usize = 10;

/// Hard ceiling on the number of concurrent agents.
pub const MAX_CONCURRENT_AGENTS: usize = 1000;

/// Settings of a refinement workflow. Built by chained setters and checked
/// by [`RLMConfig::validate`].
#[derive(Debug, Clone, Copy)]
pub struct RLMConfig {
    /// Maximum number of refinement iterations.
    pub max_iterations: usize,
    /// Maximum length of code-execution output.
    pub max_repl_output: usize,
    /// Timeout of one iteration.
    pub iteration_timeout: Duration,
    /// Maximum size of the accumulated answer.
    pub max_context_length: usize,
    /// Whether an oversized answer is folded.
    pub enable_context_folding: bool,
    /// Whether model calls are batched in parallel.
    pub enable_parallel_batching: bool,
    /// Timeout of one batch.
    pub batch_timeout: Duration,
    /// Maximum delegation depth.
    pub max_recursion_depth: usize,
    /// Maximum number of agents working together.
    pub max_concurrent_agents: usize,
    /// Whether memory optimization is on.
    pub enable_memory_optimization: bool,
}

impl RLMConfig {
    /// The default settings.
    pub open spec fn spec_default() -> RLMConfig {
        RLMConfig {
            max_iterations: 5,
            max_repl_output: 8192,
            iteration_timeout: Duration::spec_from_secs(300),
            max_context_length: 100_000,
            enable_context_folding: true,
            enable_parallel_batching: true,
            batch_timeout: Duration::spec_from_secs(60),
            max_recursion_depth: 3,
            max_concurrent_agents: 10,
            enable_memory_optimization: true,
        }
    }

    /// The first rule that the settings break, if any.
    pub open spec fn violation(self) -> Option<Seq<char>> {
        if self.max_iterations == 0 {
            Some("max_iterations must be > 0"@)
        } else if self.max_repl_output == 0 {
            Some("max_repl_output must be > 0"@)
        } else if self.iteration_timeout.whole_secs() == 0 {
            Some("iteration_timeout must be > 0"@)
        } else if self.max_context_length == 0 {
            Some("max_context_length must be > 0"@)
        } else if self.batch_timeout.whole_secs() == 0 {
            Some("batch_timeout must be > 0"@)
        } else if self.max_recursion_depth == 0 {
            Some("max_recursion_depth must be > 0"@)
        } else if self.max_concurrent_agents == 0 {
            Some("max_concurrent_agents must be > 0"@)
        } else if self.max_repl_output > self.max_context_length {
            Some("max_repl_output cannot exceed max_context_length"@)
        } else if self.max_recursion_depth > MAX_RECURSION_DEPTH {
            Some("max_recursion_depth should not exceed 10 (reasonable limit)"@)
        } else if self.max_concurrent_agents > MAX_CONCURRENT_AGENTS {
            Some("max_concurrent_agents should not exceed 1000 (reasonable limit)"@)
        } else {
            None
        }
    }

    /// The settings break no rule.
    pub open spec fn is_valid(self) -> bool {
        self.violation() is None
    }

    /// The default settings.
    pub fn new() -> (c: RLMConfig)
        ensures
            c == RLMConfig::spec_default(),
    {
        RLMConfig {
            max_iterations: 5,
            max_repl_output: 8192,
            iteration_timeout: Duration::from_secs(300),
            max_context_length: 100_000,
            enable_context_folding: true,
            enable_parallel_batching: true,
            batch_timeout: Duration::from_secs(60),
            max_recursion_depth: 3,
            max_concurrent_agents: 10,
            enable_memory_optimization: true,
        }
    }

    /// Sets `max_iterations` and leaves the other settings as they are.
    pub fn with_max_iterations(self, max: usize) -> (c: RLMConfig)
        ensures
            c == (RLMConfig { max_iterations: max, ..self }),
    {
        let mut c = self;
        c.max_iterations = max;
        c
    }

    /// Sets `max_repl_output` and leaves the other settings as they are.
    pub fn with_max_repl_output(self, max: usize) -> (c: RLMConfig)
        ensures
            c == (RLMConfig { max_repl_output: max, ..self }),
    {
        let mut c = self;
        c.max_repl_output = max;
        c
    }

    /// Sets `iteration_timeout` and leaves the other settings as they are.
    pub fn with_iteration_timeout(self, timeout: Duration) -> (c: RLMConfig)
        ensures
            c == (RLMConfig { iteration_timeout: timeout, ..self }),
    {
        let mut c = self;
        c.iteration_timeout = timeout;
        c
    }

    /// Sets `max_context_length` and leaves the other settings as they are.
    pub fn with_max_context_length(self, max: usize) -> (c: RLMConfig)
        ensures
            c == (RLMConfig { max_context_length: max, ..self }),
    {
        let mut c = self;
        c.max_context_length = max;
        c
    }

    /// Sets `enable_context_folding` and leaves the other settings as they are.
    pub fn with_context_folding(self, enable: bool) -> (c: RLMConfig)
        ensures
            c == (RLMConfig { enable_context_folding: enable, ..self }),
    {
        let mut c = self;
        c.enable_context_folding = enable;
        c
    }

    /// Sets `enable_parallel_batching` and leaves the other settings as they are.
    pub fn with_parallel_batching(self, enable: bool) -> (c: RLMConfig)
        ensures
            c == (RLMConfig { enable_parallel_batching: enable, ..self }),
    {
        let mut c = self;
        c.enable_parallel_batching = enable;
        c
    }

    /// Sets `batch_timeout` and leaves the other settings as they are.
    pub fn with_batch_timeout(self, timeout: Duration) -> (c: RLMConfig)
        ensures
            c == (RLMConfig { batch_timeout: timeout, ..self }),
    {
        let mut c = self;
        c.batch_timeout = timeout;
        c
    }

    /// Sets `max_recursion_depth` and leaves the other settings as they are.
    pub fn with_max_recursion_depth(self, max: usize) -> (c: RLMConfig)
        ensures
            c == (RLMConfig { max_recursion_depth: max, ..self }),
    {
        let mut c = self;
        c.max_recursion_depth = max;
        c
    }

    /// Sets `max_concurrent_agents` and leaves the other settings as they are.
    pub fn with_max_concurrent_agents(self, max: usize) -> (c: RLMConfig)
        ensures
            c == (RLMConfig { max_concurrent_agents: max, ..self }),
    {
        let mut c = self;
        c.max_concurrent_agents = max;
        c
    }

    /// Sets `enable_memory_optimization` and leaves the other settings as they are.
    pub fn with_memory_optimization(self, enable: bool) -> (c: RLMConfig)
        ensures
            c == (RLMConfig { enable_memory_optimization: enable, ..self }),
    {
        let mut c = self;
        c.enable_memory_optimization = enable;
        c
    }

    /// Checks the settings; the error names the first rule that is broken.
    pub fn validate(&self) -> (r: Result<(), String>)
        ensures
            match r {
                Ok(_) => self.violation() is None,
                Err(m) => self.violation() == Some(m@),
            },
    {
        if self.max_iterations == 0 {
            return Err(String::from_str("max_iterations must be > 0"));
        }
        if self.max_repl_output == 0 {
            return Err(String::from_str("max_repl_output must be > 0"));
        }
        if self.iteration_timeout.as_secs() == 0 {
            return Err(String::from_str("iteration_timeout must be > 0"));
        }
        if self.max_context_length == 0 {
            return Err(String::from_str("max_context_length must be > 0"));
        }
        if self.batch_timeout.as_secs() == 0 {
            return Err(String::from_str("batch_timeout must be > 0"));
        }
        if self.max_recursion_depth == 0 {
            return Err(String::from_str("max_recursion_depth must be > 0"));
        }
        if self.max_concurrent_agents == 0 {
            return Err(String::from_str("max_concurrent_agents must be > 0"));
        }
        if self.max_repl_output > self.max_context_length {
            return Err(String::from_str("max_repl_output cannot exceed max_context_length"));
        }
        if self.max_recursion_depth > MAX_RECURSION_DEPTH {
            return Err(String::from_str("max_recursion_depth should not exceed 10 (reasonable limit)"));
        }
        if self.max_concurrent_agents > MAX_CONCURRENT_AGENTS {
            return Err(String::from_str("max_concurrent_agents should not exceed 1000 (reasonable limit)"));
        }
        Ok(())
    }
}

impl Default for RLMConfig {
    fn default() -> (c: RLMConfig)
        ensures
            c == RLMConfig::spec_default(),
    {
        RLMConfig::new()
    }
}

/// The default settings are valid.
pub proof fn lemma_default_config_valid()
    ensures
        RLMConfig::spec_default().is_valid(),
{
    lemma_from_secs(300);
    lemma_from_secs(60);
}

/// Settings pass validation exactly when every limit is positive, the
/// output limit is within the context length, and depth and agents are
/// within their ceilings.
pub proof fn lemma_valid_config(c: RLMConfig)
    ensures
        c.is_valid() <==> {
            &&& c.max_iterations > 0
            &&& c.max_repl_output > 0
            &&& c.iteration_timeout.whole_secs() > 0
            &&& c.max_context_length > 0
            &&& c.batch_timeout.whole_secs() > 0
            &&& 0 < c.max_recursion_depth <= MAX_RECURSION_DEPTH
            &&& 0 < c.max_concurrent_agents <= MAX_CONCURRENT_AGENTS
            &&& c.max_repl_output <= c.max_context_length
        },
{
}

} // verus!
