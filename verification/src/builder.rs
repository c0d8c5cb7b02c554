//! Fluent construction of an executor.

use crate::config::RLMConfig;
use crate::error::RLMResult;
use crate::executor::RLMExecutor;
use crate::time::Duration;
use vstd::prelude::*;

verus! {

/// Collects settings by chained setters; `build` validates them.
#[derive(Debug, Clone, Copy)]
pub struct RLMBuilder {
    pub config: RLMConfig,
}

impl RLMBuilder {
    /// A builder that starts from the default settings.
    pub fn new() -> (b: RLMBuilder)
        ensures
            b.config == RLMConfig::spec_default(),
    {
        RLMBuilder { config: RLMConfig::new() }
    }

    /// A builder that starts from `config`.
    pub fn with_config(config: RLMConfig) -> (b: RLMBuilder)
        ensures
            b.config == config,
    {
        RLMBuilder { config }
    }

    /// Sets `max_iterations` and leaves the other settings as they are.
    pub fn with_max_iterations(self, max: usize) -> (b: RLMBuilder)
        ensures
            b.config == (RLMConfig { max_iterations: max, ..self.config }),
    {
        RLMBuilder { config: self.config.with_max_iterations(max) }
    }

    /// Sets `max_repl_output` and leaves the other settings as they are.
    pub fn with_max_repl_output(self, max: usize) -> (b: RLMBuilder)
        ensures
            b.config == (RLMConfig { max_repl_output: max, ..self.config }),
    {
        RLMBuilder { config: self.config.with_max_repl_output(max) }
    }

    /// Sets `iteration_timeout` and leaves the other settings as they are.
    pub fn with_iteration_timeout(self, timeout: Duration) -> (b: RLMBuilder)
        ensures
            b.config == (RLMConfig { iteration_timeout: timeout, ..self.config }),
    {
        RLMBuilder { config: self.config.with_iteration_timeout(timeout) }
    }

    /// Sets `max_context_length` and leaves the other settings as they are.
    pub fn with_max_context_length(self, max: usize) -> (b: RLMBuilder)
        ensures
            b.config == (RLMConfig { max_context_length: max, ..self.config }),
    {
        RLMBuilder { config: self.config.with_max_context_length(max) }
    }

    /// Sets `enable_context_folding` and leaves the other settings as they are.
    pub fn with_context_folding(self, enable: bool) -> (b: RLMBuilder)
        ensures
            b.config == (RLMConfig { enable_context_folding: enable, ..self.config }),
    {
        RLMBuilder { config: self.config.with_context_folding(enable) }
    }

    /// Sets `enable_parallel_batching` and leaves the other settings as they are.
    pub fn with_parallel_batching(self, enable: bool) -> (b: RLMBuilder)
        ensures
            b.config == (RLMConfig { enable_parallel_batching: enable, ..self.config }),
    {
        RLMBuilder { config: self.config.with_parallel_batching(enable) }
    }

    /// Sets `batch_timeout` and leaves the other settings as they are.
    pub fn with_batch_timeout(self, timeout: Duration) -> (b: RLMBuilder)
        ensures
            b.config == (RLMConfig { batch_timeout: timeout, ..self.config }),
    {
        RLMBuilder { config: self.config.with_batch_timeout(timeout) }
    }

    /// Sets `max_recursion_depth` and leaves the other settings as they are.
    pub fn with_max_recursion_depth(self, max: usize) -> (b: RLMBuilder)
        ensures
            b.config == (RLMConfig { max_recursion_depth: max, ..self.config }),
    {
        RLMBuilder { config: self.config.with_max_recursion_depth(max) }
    }

    /// Sets `max_concurrent_agents` and leaves the other settings as they are.
    pub fn with_max_concurrent_agents(self, max: usize) -> (b: RLMBuilder)
        ensures
            b.config == (RLMConfig { max_concurrent_agents: max, ..self.config }),
    {
        RLMBuilder { config: self.config.with_max_concurrent_agents(max) }
    }

    /// Sets `enable_memory_optimization` and leaves the other settings as they are.
    pub fn with_memory_optimization(self, enable: bool) -> (b: RLMBuilder)
        ensures
            b.config == (RLMConfig { enable_memory_optimization: enable, ..self.config }),
    {
        RLMBuilder { config: self.config.with_memory_optimization(enable) }
    }

    /// Builds the executor. Fails with a configuration error exactly when
    /// the settings do not pass validation.
    pub fn build(self) -> (r: RLMResult<RLMExecutor>)
        ensures
            match r {
                Ok(e) => self.config.is_valid() && e.settings() == self.config,
                Err(e) => e is ConfigError && self.config.violation() == Some(e.detail()),
            },
    {
        RLMExecutor::new(self.config)
    }

    /// The settings collected so far.
    pub fn config(&self) -> (c: &RLMConfig)
        ensures
            *c == self.config,
    {
        &self.config
    }

    /// The settings collected so far, for change in place.
    pub fn config_mut(&mut self) -> (c: &mut RLMConfig)
        ensures
            *c == old(self).config,
            final(self).config == *final(c),
    {
        &mut self.config
    }
}

impl Default for RLMBuilder {
    fn default() -> (b: RLMBuilder)
        ensures
            b.config == RLMConfig::spec_default(),
    {
        RLMBuilder::new()
    }
}

} // verus!
