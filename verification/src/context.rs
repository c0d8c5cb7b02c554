//! Execution context of one refinement task.

use crate::clock::now_millis;
use crate::config::RLMConfig;
use crate::string_map::{with_entry, StringMap};
use vstd::prelude::*;
use vstd::string::{StrSliceExecFns, StringExecFns};

verus! {

/// `n + 1`, capped at the largest `usize`.
pub open spec fn bump(n: usize) -> usize {
    if n == usize::MAX {
        n
    } else {
        (n + 1) as usize
    }
}

/// `a + b`, capped at the largest `usize`.
pub open spec fn capped_sum(a: usize, b: usize) -> usize {
    if a + b > usize::MAX {
        usize::MAX
    } else {
        (a + b) as usize
    }
}

/// What happened while a task ran.
#[derive(Debug)]
pub struct ExecutionMetadata {
    /// Code executions recorded.
    pub repl_executions: usize,
    /// Model calls recorded.
    pub llm_calls: usize,
    /// Estimated tokens used.
    pub total_tokens: usize,
    /// Errors recorded, oldest first.
    pub errors: Vec<String>,
    /// Free-form annotations.
    pub custom: StringMap,
}

impl ExecutionMetadata {
    /// Metadata with nothing recorded.
    pub fn new() -> (m: ExecutionMetadata)
        ensures
            m.repl_executions == 0,
            m.llm_calls == 0,
            m.total_tokens == 0,
            m.errors@.len() == 0,
            m.custom.pairs().len() == 0,
    {
        ExecutionMetadata {
            repl_executions: 0,
            llm_calls: 0,
            total_tokens: 0,
            errors: Vec::new(),
            custom: StringMap::new(),
        }
    }
}

impl Default for ExecutionMetadata {
    fn default() -> (m: ExecutionMetadata)
        ensures
            m.repl_executions == 0,
            m.llm_calls == 0,
            m.total_tokens == 0,
            m.errors@.len() == 0,
            m.custom.pairs().len() == 0,
    {
        ExecutionMetadata::new()
    }
}

/// State of one task: the answer so far, the iteration counter and what was
/// recorded on the way.
#[derive(Debug)]
pub struct RLMContext {
    /// Task identifier.
    pub task_id: String,
    /// Iterations started.
    pub iteration: usize,
    /// Pieces appended to the answer.
    pub message_count: usize,
    /// The accumulated answer.
    pub answer: String,
    /// Start of the task, in milliseconds since the epoch.
    pub started_at: i64,
    /// Last change, in milliseconds since the epoch.
    pub last_activity: i64,
    /// What was recorded on the way.
    pub metadata: ExecutionMetadata,
    /// The settings that the task runs under.
    pub config: RLMConfig,
}

/// Figures of a context at one moment.
#[derive(Debug)]
pub struct ContextStats {
    pub task_id: String,
    pub iteration: usize,
    pub max_iterations: usize,
    pub message_count: usize,
    /// Characters in the answer.
    pub answer_length: usize,
    pub repl_executions: usize,
    pub llm_calls: usize,
    pub total_tokens: usize,
    /// Number of recorded errors.
    pub errors: usize,
    /// Whole seconds between start and last change.
    pub elapsed_secs: i64,
}

/// Milliseconds from `start` to `end`, zero if `end` lies before `start`.
pub open spec fn span_millis(start: i64, end: i64) -> u64 {
    if end <= start {
        0
    } else {
        (end - start) as u64
    }
}

impl RLMContext {
    /// The iteration counter is within the configured maximum.
    pub open spec fn within_budget(&self) -> bool {
        self.iteration <= self.config.max_iterations
    }

    /// A fresh context for `task_id` under `config`.
    pub fn new(task_id: &str, config: RLMConfig) -> (c: RLMContext)
        ensures
            c.task_id@ == task_id@,
            c.iteration == 0,
            c.message_count == 0,
            c.answer@.len() == 0,
            c.started_at == c.last_activity,
            c.config == config,
            c.metadata.repl_executions == 0,
            c.metadata.llm_calls == 0,
            c.metadata.total_tokens == 0,
            c.metadata.errors@.len() == 0,
            c.metadata.custom.pairs().len() == 0,
    {
        let now = now_millis();
        RLMContext {
            task_id: String::from_str(task_id),
            iteration: 0,
            message_count: 0,
            answer: String::new(),
            started_at: now,
            last_activity: now,
            metadata: ExecutionMetadata::new(),
            config,
        }
    }

    /// Iterations started.
    pub fn iteration(&self) -> (n: usize)
        ensures
            n == self.iteration,
    {
        self.iteration
    }

    /// Starts the next iteration.
    pub fn next_iteration(&mut self)
        ensures
            final(self).iteration == bump(old(self).iteration),
            final(self).task_id == old(self).task_id,
            final(self).message_count == old(self).message_count,
            final(self).answer == old(self).answer,
            final(self).started_at == old(self).started_at,
            final(self).metadata == old(self).metadata,
            final(self).config == old(self).config,
    {
        if self.iteration < usize::MAX {
            self.iteration = self.iteration + 1;
        }
        self.last_activity = now_millis();
    }

    /// Whether the configured number of iterations was started.
    pub fn max_iterations_reached(&self) -> (b: bool)
        ensures
            b == (self.iteration >= self.config.max_iterations),
    {
        self.iteration >= self.config.max_iterations
    }

    /// Appends `content` to the answer.
    pub fn append_answer(&mut self, content: &str)
        ensures
            final(self).answer@ == old(self).answer@ + content@,
            final(self).message_count == bump(old(self).message_count),
            final(self).task_id == old(self).task_id,
            final(self).iteration == old(self).iteration,
            final(self).started_at == old(self).started_at,
            final(self).metadata == old(self).metadata,
            final(self).config == old(self).config,
    {
        self.answer.append(content);
        if self.message_count < usize::MAX {
            self.message_count = self.message_count + 1;
        }
        self.last_activity = now_millis();
    }

    /// The accumulated answer.
    pub fn answer(&self) -> (a: &str)
        ensures
            a@ == self.answer@,
    {
        self.answer.as_str()
    }

    /// Empties the answer.
    pub fn clear_answer(&mut self)
        ensures
            final(self).answer@.len() == 0,
            final(self).message_count == old(self).message_count,
            final(self).task_id == old(self).task_id,
            final(self).iteration == old(self).iteration,
            final(self).started_at == old(self).started_at,
            final(self).metadata == old(self).metadata,
            final(self).config == old(self).config,
    {
        self.answer = String::new();
        self.last_activity = now_millis();
    }

    /// Records one code execution.
    pub fn record_repl_execution(&mut self)
        ensures
            final(self).metadata.repl_executions == bump(old(self).metadata.repl_executions),
            final(self).metadata.llm_calls == old(self).metadata.llm_calls,
            final(self).metadata.total_tokens == old(self).metadata.total_tokens,
            final(self).metadata.errors == old(self).metadata.errors,
            final(self).metadata.custom == old(self).metadata.custom,
            final(self).answer == old(self).answer,
            final(self).message_count == old(self).message_count,
            final(self).task_id == old(self).task_id,
            final(self).iteration == old(self).iteration,
            final(self).started_at == old(self).started_at,
            final(self).config == old(self).config,
    {
        if self.metadata.repl_executions < usize::MAX {
            self.metadata.repl_executions = self.metadata.repl_executions + 1;
        }
        self.last_activity = now_millis();
    }

    /// Records one model call that used `tokens` tokens.
    pub fn record_llm_call(&mut self, tokens: usize)
        ensures
            final(self).metadata.llm_calls == bump(old(self).metadata.llm_calls),
            final(self).metadata.total_tokens == capped_sum(
                old(self).metadata.total_tokens,
                tokens,
            ),
            final(self).metadata.repl_executions == old(self).metadata.repl_executions,
            final(self).metadata.errors == old(self).metadata.errors,
            final(self).metadata.custom == old(self).metadata.custom,
            final(self).answer == old(self).answer,
            final(self).message_count == old(self).message_count,
            final(self).task_id == old(self).task_id,
            final(self).iteration == old(self).iteration,
            final(self).started_at == old(self).started_at,
            final(self).config == old(self).config,
    {
        if self.metadata.llm_calls < usize::MAX {
            self.metadata.llm_calls = self.metadata.llm_calls + 1;
        }
        self.metadata.total_tokens = self.metadata.total_tokens.saturating_add(tokens);
        self.last_activity = now_millis();
    }

    /// Records an error. Recording does not stop the task.
    pub fn record_error(&mut self, error: &str)
        ensures
            final(self).metadata.errors@.len() == old(self).metadata.errors@.len() + 1,
            final(self).metadata.errors@.last()@ == error@,
            final(self).metadata.errors@.drop_last() == old(self).metadata.errors@,
            final(self).metadata.repl_executions == old(self).metadata.repl_executions,
            final(self).metadata.llm_calls == old(self).metadata.llm_calls,
            final(self).metadata.total_tokens == old(self).metadata.total_tokens,
            final(self).metadata.custom == old(self).metadata.custom,
            final(self).answer == old(self).answer,
            final(self).message_count == old(self).message_count,
            final(self).task_id == old(self).task_id,
            final(self).iteration == old(self).iteration,
            final(self).started_at == old(self).started_at,
            final(self).config == old(self).config,
    {
        self.metadata.errors.push(String::from_str(error));
        proof {
            assert(self.metadata.errors@.drop_last() =~= old(self).metadata.errors@);
        }
        self.last_activity = now_millis();
    }

    /// Stores the annotation `value` under `key`.
    pub fn set_metadata(&mut self, key: &str, value: &str)
        ensures
            final(self).metadata.custom.pairs() == with_entry(
                old(self).metadata.custom.pairs(),
                key@,
                value@,
            ),
            final(self).metadata.repl_executions == old(self).metadata.repl_executions,
            final(self).metadata.llm_calls == old(self).metadata.llm_calls,
            final(self).metadata.total_tokens == old(self).metadata.total_tokens,
            final(self).metadata.errors == old(self).metadata.errors,
            final(self).answer == old(self).answer,
            final(self).message_count == old(self).message_count,
            final(self).task_id == old(self).task_id,
            final(self).iteration == old(self).iteration,
            final(self).started_at == old(self).started_at,
            final(self).config == old(self).config,
    {
        self.metadata.custom.insert(String::from_str(key), String::from_str(value));
        self.last_activity = now_millis();
    }

    /// Milliseconds between the start and the last change.
    pub fn elapsed(&self) -> (ms: u64)
        ensures
            ms == span_millis(self.started_at, self.last_activity),
    {
        if self.last_activity <= self.started_at {
            0
        } else {
            let span: i128 = self.last_activity as i128 - self.started_at as i128;
            span as u64
        }
    }

    /// Whether the answer has at most `max_context_length` characters.
    pub fn is_within_context_limits(&self) -> (b: bool)
        ensures
            b == (self.answer@.len() <= self.config.max_context_length),
    {
        self.answer.as_str().unicode_len() <= self.config.max_context_length
    }

    /// The figures of the context.
    pub fn stats(&self) -> (s: ContextStats)
        ensures
            s.task_id@ == self.task_id@,
            s.iteration == self.iteration,
            s.max_iterations == self.config.max_iterations,
            s.message_count == self.message_count,
            s.answer_length == self.answer@.len(),
            s.repl_executions == self.metadata.repl_executions,
            s.llm_calls == self.metadata.llm_calls,
            s.total_tokens == self.metadata.total_tokens,
            s.errors == self.metadata.errors@.len(),
            s.elapsed_secs == span_millis(self.started_at, self.last_activity) / 1000,
    {
        let secs: u64 = self.elapsed() / 1000;
        ContextStats {
            task_id: self.task_id.clone(),
            iteration: self.iteration,
            max_iterations: self.config.max_iterations,
            message_count: self.message_count,
            answer_length: self.answer.as_str().unicode_len(),
            repl_executions: self.metadata.repl_executions,
            llm_calls: self.metadata.llm_calls,
            total_tokens: self.metadata.total_tokens,
            errors: self.metadata.errors.len(),
            elapsed_secs: secs as i64,
        }
    }
}

} // verus!
