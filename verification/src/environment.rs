//! Settings of the refinement environment of the core.

use crate::answer_buffer::AnswerBuffer;
use crate::environment_tips::{augmented, EnvironmentTips};
use crate::time::Duration;
use vstd::prelude::*;
use vstd::string::StringExecFns;

verus! {

/// Limits of iterative refinement: iterations, output size, timeouts and
/// folding.
#[derive(Debug, Clone, Copy)]
pub struct RLMConfig {
    /// Maximum number of refinement iterations.
    pub max_iterations: usize,
    /// Maximum size of code-execution output in characters.
    pub max_repl_output: usize,
    /// Timeout of one iteration.
    pub iteration_timeout: Duration,
    /// Context length from which folding sets in.
    pub max_context_length: usize,
    /// Whether older context is folded.
    pub enable_context_folding: bool,
    /// Whether model calls are batched in parallel.
    pub enable_parallel_batching: bool,
    /// Timeout of one batch.
    pub batch_timeout: Duration,
}

impl RLMConfig {
    /// The default limits.
    pub open spec fn spec_default() -> RLMConfig {
        RLMConfig {
            max_iterations: 5,
            max_repl_output: 8192,
            iteration_timeout: Duration::spec_from_secs(300),
            max_context_length: 100_000,
            enable_context_folding: true,
            enable_parallel_batching: true,
            batch_timeout: Duration::spec_from_secs(60),
        }
    }
}

impl Default for RLMConfig {
    fn default() -> (c: RLMConfig)
        ensures
            c == RLMConfig::spec_default(),
    {
        RLMConfig {
            max_iterations: 5,
            max_repl_output: 8192,
            iteration_timeout: Duration::from_secs(300),
            max_context_length: 100_000,
            enable_context_folding: true,
            enable_parallel_batching: true,
            batch_timeout: Duration::from_secs(60),
        }
    }
}

/// The refinement environment of one agent: its answer buffer, its tips and
/// its limits.
#[derive(Debug)]
pub struct RLMEnvironment {
    answer_buffer: AnswerBuffer,
    environment_tips: EnvironmentTips,
    config: RLMConfig,
    agent: String,
}

impl RLMEnvironment {
    /// The answer buffer.
    pub closed spec fn buffer(&self) -> AnswerBuffer {
        self.answer_buffer
    }

    /// The tips.
    pub closed spec fn tips(&self) -> EnvironmentTips {
        self.environment_tips
    }

    /// The limits.
    pub closed spec fn limits(&self) -> RLMConfig {
        self.config
    }

    /// The name of the agent.
    pub closed spec fn agent_name(&self) -> Seq<char> {
        self.agent@
    }

    /// An environment for the agent `agent_name` with the default limits, an
    /// empty buffer and no tips.
    pub fn new(agent_name: &str) -> (e: RLMEnvironment)
        ensures
            e.agent_name() == agent_name@,
            e.limits() == RLMConfig::spec_default(),
            e.buffer().text().len() == 0,
            !e.buffer().finalized(),
            e.buffer().iterations() == 0,
            e.tips().tip_pairs().len() == 0,
            e.tips().resource_pairs().len() == 0,
            e.tips().context_pairs().len() == 0,
    {
        RLMEnvironment {
            answer_buffer: AnswerBuffer::new(),
            environment_tips: EnvironmentTips::new(),
            config: RLMConfig::default(),
            agent: String::from_str(agent_name),
        }
    }

    /// An environment for the agent `agent_name` with the limits
    /// `rlm_config`.
    pub fn with_rlm_config(agent_name: &str, rlm_config: RLMConfig) -> (e: RLMEnvironment)
        ensures
            e.agent_name() == agent_name@,
            e.limits() == rlm_config,
            e.buffer().text().len() == 0,
            !e.buffer().finalized(),
            e.buffer().iterations() == 0,
            e.tips().tip_pairs().len() == 0,
            e.tips().resource_pairs().len() == 0,
            e.tips().context_pairs().len() == 0,
    {
        RLMEnvironment {
            answer_buffer: AnswerBuffer::new(),
            environment_tips: EnvironmentTips::new(),
            config: rlm_config,
            agent: String::from_str(agent_name),
        }
    }

    /// The answer buffer.
    pub fn answer_buffer(&self) -> (b: &AnswerBuffer)
        ensures
            *b == self.buffer(),
    {
        &self.answer_buffer
    }

    /// The answer buffer, for change in place.
    pub fn answer_buffer_mut(&mut self) -> (b: &mut AnswerBuffer)
        ensures
            *b == old(self).buffer(),
            final(self).buffer() == *final(b),
            final(self).tips() == old(self).tips(),
            final(self).limits() == old(self).limits(),
            final(self).agent_name() == old(self).agent_name(),
    {
        &mut self.answer_buffer
    }

    /// The tips.
    pub fn environment_tips(&self) -> (t: &EnvironmentTips)
        ensures
            *t == self.tips(),
    {
        &self.environment_tips
    }

    /// Replaces the tips.
    pub fn set_environment_tips(&mut self, tips: EnvironmentTips)
        ensures
            final(self).tips() == tips,
            final(self).buffer() == old(self).buffer(),
            final(self).limits() == old(self).limits(),
            final(self).agent_name() == old(self).agent_name(),
    {
        self.environment_tips = tips;
    }

    /// The limits.
    pub fn rlm_config(&self) -> (c: &RLMConfig)
        ensures
            *c == self.limits(),
    {
        &self.config
    }

    /// Replaces the limits.
    pub fn set_rlm_config(&mut self, config: RLMConfig)
        ensures
            final(self).limits() == config,
            final(self).buffer() == old(self).buffer(),
            final(self).tips() == old(self).tips(),
            final(self).agent_name() == old(self).agent_name(),
    {
        self.config = config;
    }

    /// The name of the agent.
    pub fn agent(&self) -> (name: &str)
        ensures
            name@ == self.agent_name(),
    {
        self.agent.as_str()
    }

    /// Empties the answer buffer for a new run.
    pub fn reset(&mut self)
        ensures
            final(self).buffer().text().len() == 0,
            !final(self).buffer().finalized(),
            final(self).buffer().iterations() == 0,
            final(self).tips() == old(self).tips(),
            final(self).limits() == old(self).limits(),
            final(self).agent_name() == old(self).agent_name(),
    {
        self.answer_buffer.reset();
    }

    /// Runs one refinement: the buffer is emptied, takes the prompt
    /// augmented with the tips, and is made final; the answer is its
    /// content.
    pub fn execute_with_folding(&mut self, prompt: &str) -> (r: Result<String, String>)
        ensures
            r matches Ok(answer) && answer@ == augmented(
                prompt@,
                old(self).tips().resource_pairs(),
                old(self).tips().tip_pairs(),
                old(self).tips().context_pairs(),
            ),
            final(self).buffer().text() == r->Ok_0@,
            final(self).buffer().finalized(),
            final(self).buffer().iterations() == 0,
            final(self).tips() == old(self).tips(),
            final(self).limits() == old(self).limits(),
            final(self).agent_name() == old(self).agent_name(),
    {
        self.answer_buffer.reset();
        let augmented_prompt = self.environment_tips.augment_prompt(prompt);
        self.answer_buffer.append(augmented_prompt.as_str());
        self.answer_buffer.finalize();
        proof {
            assert(self.answer_buffer.text() =~= augmented_prompt@);
        }
        Ok(self.answer_buffer.get_content())
    }

    /// Refinement iterations completed.
    pub fn iteration_count(&self) -> (n: usize)
        ensures
            n == self.buffer().iterations(),
    {
        self.answer_buffer.iteration_count()
    }

    /// Counts one iteration.
    pub fn next_iteration(&mut self)
        ensures
            final(self).buffer().iterations() == if old(self).buffer().iterations()
                == usize::MAX {
                usize::MAX
            } else {
                (old(self).buffer().iterations() + 1) as usize
            },
            final(self).buffer().text() == old(self).buffer().text(),
            final(self).buffer().finalized() == old(self).buffer().finalized(),
            final(self).tips() == old(self).tips(),
            final(self).limits() == old(self).limits(),
            final(self).agent_name() == old(self).agent_name(),
    {
        self.answer_buffer.next_iteration();
    }
}

} // verus!
