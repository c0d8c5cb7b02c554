//! The bounded refinement loop.
//!
//! The loop alternates decisions, taken here, with code execution, done by
//! the caller: `begin` checks the prompt and opens a context,
//! `start_iteration` names the code blocks to run, and `finish_iteration`
//! takes what running them gave. The loop ends when the configured number of
//! iterations was started; there is no other signal of completion.

use crate::code_block_parser::{
    block_texts, extracted, regex_groups, CodeBlock, CodeBlockParser, INDENTED_CODE,
    MARKDOWN_FENCE, TILDE_FENCE,
};
use crate::config::RLMConfig;
use crate::context::{bump, capped_sum, RLMContext};
use crate::context_fold::{fold_from, ContextFoldConfig, ContextFolder};
use crate::error::{RLMError, RLMResult};
use crate::text::{decimal, extend_chars, from_chars, push_decimal, to_chars};
use vstd::prelude::*;
use vstd::string::{StrSliceExecFns, StringExecFns};

verus! {

/// Token cost recorded for the model call of each iteration.
pub const LLM_CALL_TOKENS: usize = 100;

/// What running one code block gave.
#[derive(Debug)]
pub enum BlockOutcome {
    /// The output of the code.
    Output(String),
    /// Why the code could not be run or failed.
    Failure(RLMError),
}

/// Runs the code blocks that the loop finds. Nothing is assumed of what a
/// run gives.
pub trait CodeRunner {
    /// Runs `code`, written in `language`.
    fn run(&self, language: &str, code: &str) -> BlockOutcome;
}

/// The note that an outcome leaves in the answer.
pub open spec fn block_note(language: Seq<char>, outcome: BlockOutcome) -> Seq<char> {
    match outcome {
        BlockOutcome::Output(output) => "\n[REPL:"@ + language + " output]\n"@ + output@,
        BlockOutcome::Failure(e) => "\n[REPL:"@ + language + " error]\n"@ + e.describe(),
    }
}

/// The notes of the first `n` blocks, one after the other.
pub open spec fn block_notes(blocks: Seq<CodeBlock>, outcomes: Seq<BlockOutcome>, n: int) -> Seq<
    char,
>
    decreases n,
{
    if n <= 0 {
        seq![]
    } else {
        block_notes(blocks, outcomes, n - 1) + block_note(blocks[n - 1].language@, outcomes[n - 1])
    }
}

/// The descriptions of the failures among the first `n` outcomes, in order.
pub open spec fn failure_texts(outcomes: Seq<BlockOutcome>, n: int) -> Seq<Seq<char>>
    decreases n,
{
    if n <= 0 {
        seq![]
    } else {
        let rest = failure_texts(outcomes, n - 1);
        match outcomes[n - 1] {
            BlockOutcome::Failure(e) => rest.push(e.describe()),
            BlockOutcome::Output(_) => rest,
        }
    }
}

/// The code blocks of `answer`: what the three shapes match, or none where a
/// shape is rejected.
pub open spec fn blocks_in(answer: Seq<char>) -> Seq<(Seq<char>, Seq<char>)> {
    let markdown = regex_groups(MARKDOWN_FENCE@, answer);
    let tilde = regex_groups(TILDE_FENCE@, answer);
    let indented = regex_groups(INDENTED_CODE@, answer);
    if markdown is Some && tilde is Some && indented is Some {
        extracted(markdown->0, tilde->0, indented->0)
    } else {
        seq![]
    }
}

/// The marker that closes iteration `n` when nothing else was noted.
pub open spec fn iteration_marker(n: usize) -> Seq<char> {
    "\n[Iteration "@ + decimal(n as nat) + " complete]"@
}

/// The marker that `execute_with_context` appends for iteration `n`.
pub open spec fn plain_marker(n: usize) -> Seq<char> {
    "\n[Iteration "@ + decimal(n as nat) + "]"@
}

/// The texts of a list of strings.
pub open spec fn texts(v: Seq<String>) -> Seq<Seq<char>> {
    Seq::new(v.len(), |i: int| v[i]@)
}

/// `n` bumped `times` times.
pub open spec fn bump_by(n: usize, times: int) -> usize
    decreases times,
{
    if times <= 0 {
        n
    } else {
        bump(bump_by(n, times - 1))
    }
}

/// `tokens` after `calls` model calls were charged, capped at the largest
/// `usize`.
pub open spec fn charged(tokens: usize, calls: int) -> usize
    decreases calls,
{
    if calls <= 0 {
        tokens
    } else {
        capped_sum(charged(tokens, calls - 1), LLM_CALL_TOKENS)
    }
}

/// The fold settings that the loop uses: the context length as the budget.
pub open spec fn fold_settings(config: RLMConfig) -> ContextFoldConfig {
    ContextFoldConfig::spec_new(config.max_context_length)
}

/// Whether the loop folds an answer: it is longer than the context length
/// and folding is on.
pub open spec fn wants_fold(config: RLMConfig, answer: Seq<char>) -> bool {
    answer.len() > config.max_context_length && config.enable_context_folding
}

/// The answer after an iteration that started with `answer` and ran blocks
/// with the notes `notes`.
pub open spec fn iteration_answer(
    config: RLMConfig,
    iteration: usize,
    answer: Seq<char>,
    notes: Seq<char>,
    block_count: int,
) -> Seq<char> {
    if wants_fold(config, answer) {
        match fold_from(fold_settings(config), answer, 0) {
            Some(folded) => folded + notes + "\n[Context folded]"@,
            None => answer + if block_count > 0 {
                notes
            } else {
                iteration_marker(iteration)
            },
        }
    } else {
        answer + if block_count > 0 {
            notes
        } else {
            iteration_marker(iteration)
        }
    }
}

/// What the loop builds up from iteration to iteration.
pub struct LoopState {
    /// The answer so far.
    pub answer: Seq<char>,
    /// Pieces appended to the answer.
    pub message_count: usize,
    /// Code executions recorded.
    pub repl_executions: usize,
    /// Errors recorded, oldest first.
    pub errors: Seq<Seq<char>>,
}

/// The loop state that a context holds.
pub open spec fn state_of(context: RLMContext) -> LoopState {
    LoopState {
        answer: context.answer@,
        message_count: context.message_count,
        repl_executions: context.metadata.repl_executions,
        errors: texts(context.metadata.errors@),
    }
}

/// The loop state of a task that was just opened with `prompt`.
pub open spec fn initial_state(prompt: Seq<char>) -> LoopState {
    LoopState { answer: prompt, message_count: 1, repl_executions: 0, errors: seq![] }
}

/// The notes of the first `n` of the blocks `blocks`, given as pairs of
/// language and code, one after the other.
pub open spec fn notes_of(
    blocks: Seq<(Seq<char>, Seq<char>)>,
    outcomes: Seq<BlockOutcome>,
    n: int,
) -> Seq<char>
    decreases n,
{
    if n <= 0 {
        seq![]
    } else {
        notes_of(blocks, outcomes, n - 1) + block_note(blocks[n - 1].0, outcomes[n - 1])
    }
}

/// The error recorded for a fold that left nothing.
pub open spec fn fold_failure() -> Seq<char> {
    "Context folding failed: Context folding resulted in empty content"@
}

/// The loop state after iteration number `iteration`, which met the state
/// `s`, ran the code blocks of its answer, and got `outcomes` for them.
pub open spec fn after_iteration(
    config: RLMConfig,
    iteration: usize,
    s: LoopState,
    outcomes: Seq<BlockOutcome>,
) -> LoopState {
    let blocks = blocks_in(s.answer);
    let n = blocks.len() as int;
    let folds = wants_fold(config, s.answer);
    let folded = fold_from(fold_settings(config), s.answer, 0);
    LoopState {
        answer: iteration_answer(config, iteration, s.answer, notes_of(blocks, outcomes, n), n),
        message_count: if folds && folded is Some {
            bump(bump(s.message_count))
        } else {
            bump(s.message_count)
        },
        repl_executions: bump_by(s.repl_executions, n),
        errors: if folds && folded is None {
            (s.errors + failure_texts(outcomes, n)).push(fold_failure())
        } else {
            s.errors + failure_texts(outcomes, n)
        },
    }
}

/// The loop state after the iterations numbered `first + 1` to
/// `first + trace.len()`, where `trace[k]` holds the outcomes that the code
/// blocks of iteration `first + k + 1` gave.
pub open spec fn after_trace(
    config: RLMConfig,
    first: int,
    s: LoopState,
    trace: Seq<Seq<BlockOutcome>>,
) -> LoopState
    decreases trace.len(),
{
    if trace.len() == 0 {
        s
    } else {
        after_iteration(
            config,
            (first + trace.len()) as usize,
            after_trace(config, first, s, trace.drop_last()),
            trace.last(),
        )
    }
}

/// Every round of `trace` holds one outcome for each code block of the
/// answer that the round met.
pub open spec fn trace_fits(
    config: RLMConfig,
    first: int,
    s: LoopState,
    trace: Seq<Seq<BlockOutcome>>,
) -> bool
    decreases trace.len(),
{
    trace.len() == 0 || {
        &&& trace_fits(config, first, s, trace.drop_last())
        &&& trace.last().len() == blocks_in(
            after_trace(config, first, s, trace.drop_last()).answer,
        ).len()
    }
}

/// The answer of a whole run on `prompt` whose code blocks gave `trace`.
pub open spec fn answer_after(
    config: RLMConfig,
    prompt: Seq<char>,
    trace: Seq<Seq<BlockOutcome>>,
) -> Seq<char> {
    after_trace(config, 0, initial_state(prompt), trace).answer
}

/// The notes of a list of blocks depend on the languages of the blocks
/// alone.
pub proof fn lemma_block_notes(blocks: Seq<CodeBlock>, outcomes: Seq<BlockOutcome>, n: int)
    requires
        0 <= n <= blocks.len(),
    ensures
        block_notes(blocks, outcomes, n) == notes_of(block_texts(blocks), outcomes, n),
    decreases n,
{
    if n > 0 {
        lemma_block_notes(blocks, outcomes, n - 1);
    }
}

/// A run without code blocks and without folding appends one marker per
/// iteration: after the round numbered `k`, the answer is the one before
/// followed by the marker of `k`.
pub proof fn lemma_plain_round(config: RLMConfig, iteration: usize, s: LoopState)
    requires
        blocks_in(s.answer).len() == 0,
        !wants_fold(config, s.answer),
    ensures
        after_iteration(config, iteration, s, seq![]).answer == s.answer + iteration_marker(
            iteration,
        ),
        after_iteration(config, iteration, s, seq![]).errors == s.errors,
        after_iteration(config, iteration, s, seq![]).repl_executions == s.repl_executions,
{
    assert(s.errors + failure_texts(Seq::<BlockOutcome>::empty(), 0) =~= s.errors);
}

/// `prompt` followed by the markers of the iterations `1` to `n`.
pub open spec fn marked(prompt: Seq<char>, n: int) -> Seq<char>
    decreases n,
{
    if n <= 0 {
        prompt
    } else {
        marked(prompt, n - 1) + iteration_marker(n as usize)
    }
}

/// A whole run in which no round meets a code block or folds gives the
/// prompt followed by one marker for each iteration, and no other.
pub proof fn lemma_plain_run(config: RLMConfig, prompt: Seq<char>, trace: Seq<Seq<BlockOutcome>>)
    requires
        trace_fits(config, 0, initial_state(prompt), trace),
        forall|k: int|
            0 <= k < trace.len() ==> blocks_in(#[trigger] marked(prompt, k)).len() == 0
                && !wants_fold(config, marked(prompt, k)),
    ensures
        answer_after(config, prompt, trace) == marked(prompt, trace.len() as int),
    decreases trace.len(),
{
    if trace.len() > 0 {
        let shorter = trace.drop_last();
        lemma_plain_run(config, prompt, shorter);
        let met = after_trace(config, 0, initial_state(prompt), shorter);
        assert(met.answer == marked(prompt, shorter.len() as int));
        assert(blocks_in(marked(prompt, shorter.len() as int)).len() == 0);
        assert(trace.last() =~= Seq::<BlockOutcome>::empty());
        lemma_plain_round(config, (0 + trace.len()) as usize, met);
    }
}

/// Drives the refinement loop under validated settings.
#[derive(Debug, Clone, Copy)]
pub struct RLMExecutor {
    config: RLMConfig,
}

impl RLMExecutor {
    /// The settings.
    pub closed spec fn settings(&self) -> RLMConfig {
        self.config
    }

    /// An executor under `config`. Fails with a configuration error exactly
    /// when `config` does not pass validation.
    pub fn new(config: RLMConfig) -> (r: RLMResult<RLMExecutor>)
        ensures
            match r {
                Ok(e) => config.is_valid() && e.settings() == config,
                Err(e) => e is ConfigError && config.violation() == Some(e.detail()),
            },
    {
        match config.validate() {
            Ok(_) => Ok(RLMExecutor { config }),
            Err(msg) => Err(RLMError::config(msg.as_str())),
        }
    }

    /// The settings.
    pub fn config(&self) -> (c: &RLMConfig)
        ensures
            *c == self.settings(),
    {
        &self.config
    }

    /// Checks the settings again.
    pub fn validate(&self) -> (r: RLMResult<()>)
        ensures
            match r {
                Ok(_) => self.settings().is_valid(),
                Err(e) => e is ConfigError && self.settings().violation() == Some(e.detail()),
            },
    {
        match self.config.validate() {
            Ok(_) => Ok(()),
            Err(msg) => Err(RLMError::config(msg.as_str())),
        }
    }

    /// A fresh context for `task_id` under the executor's settings.
    pub fn create_context(&self, task_id: &str) -> (c: RLMContext)
        ensures
            c.task_id@ == task_id@,
            c.iteration == 0,
            c.message_count == 0,
            c.answer@.len() == 0,
            c.config == self.settings(),
            c.metadata.errors@.len() == 0,
            c.metadata.repl_executions == 0,
            c.metadata.llm_calls == 0,
            c.metadata.total_tokens == 0,
    {
        RLMContext::new(task_id, self.config)
    }

    /// The reason for which a task is refused, if it is: an empty prompt, an
    /// empty task identifier, or a prompt longer than the context length.
    pub open spec fn refusal(&self, prompt: Seq<char>, task_id: Seq<char>) -> Option<Seq<char>> {
        if prompt.len() == 0 {
            Some("Prompt cannot be empty"@)
        } else if task_id.len() == 0 {
            Some("Task ID cannot be empty"@)
        } else if prompt.len() > self.settings().max_context_length {
            Some(
                "Prompt exceeds maximum context length (using character count as conservative estimate)"@,
            )
        } else {
            None
        }
    }

    /// Opens a task: refuses it with an execution error, or gives the
    /// context with the prompt as the answer so far.
    pub fn begin(&self, prompt: &str, task_id: &str) -> (r: RLMResult<RLMContext>)
        ensures
            match r {
                Ok(c) => {
                    &&& self.refusal(prompt@, task_id@) is None
                    &&& c.task_id@ == task_id@
                    &&& c.answer@ == prompt@
                    &&& c.iteration == 0
                    &&& c.message_count == 1
                    &&& c.config == self.settings()
                    &&& c.metadata.errors@.len() == 0
                    &&& c.metadata.repl_executions == 0
                    &&& c.metadata.llm_calls == 0
                    &&& c.metadata.total_tokens == 0
                    &&& c.within_budget()
                },
                Err(e) => e is ExecutionError && self.refusal(prompt@, task_id@) == Some(
                    e.detail(),
                ),
            },
    {
        if prompt.unicode_len() == 0 {
            return Err(RLMError::execution("Prompt cannot be empty"));
        }
        if task_id.unicode_len() == 0 {
            return Err(RLMError::execution("Task ID cannot be empty"));
        }
        if prompt.unicode_len() > self.config.max_context_length {
            return Err(
                RLMError::execution(
                    "Prompt exceeds maximum context length (using character count as conservative estimate)",
                ),
            );
        }
        let mut context = RLMContext::new(task_id, self.config);
        context.append_answer(prompt);
        proof {
            assert(context.answer@ =~= prompt@);
        }
        Ok(context)
    }

    /// Starts the next iteration and names the code blocks of the answer to
    /// run. Blocks that cannot be extracted count as none.
    pub fn start_iteration(&self, context: &mut RLMContext) -> (blocks: Vec<CodeBlock>)
        requires
            old(context).iteration < old(context).config.max_iterations,
        ensures
            final(context).iteration == old(context).iteration + 1,
            final(context).within_budget(),
            final(context).answer == old(context).answer,
            final(context).message_count == old(context).message_count,
            final(context).task_id == old(context).task_id,
            final(context).metadata == old(context).metadata,
            final(context).config == old(context).config,
            block_texts(blocks@) == blocks_in(old(context).answer@),
    {
        context.next_iteration();
        let parser = CodeBlockParser::new();
        match parser.extract_from(context.answer()) {
            Ok(blocks) => blocks,
            Err(_) => {
                let none: Vec<CodeBlock> = Vec::new();
                proof {
                    assert(block_texts(none@) =~= Seq::empty());
                }
                none
            },
        }
    }

    /// Ends an iteration given what running its blocks gave.
    ///
    /// Every block counts as a code execution and leaves a note; failures
    /// are recorded as errors. An answer longer than the context length is
    /// folded if folding is on; a failed fold is recorded and the answer
    /// kept. The notes are appended, or the iteration marker if there are
    /// none, and one model call is recorded.
    pub fn finish_iteration(
        &self,
        context: &mut RLMContext,
        blocks: &Vec<CodeBlock>,
        outcomes: &Vec<BlockOutcome>,
    )
        requires
            blocks@.len() == outcomes@.len(),
        ensures
            final(context).iteration == old(context).iteration,
            final(context).task_id == old(context).task_id,
            final(context).config == old(context).config,
            old(context).within_budget() ==> final(context).within_budget(),
            final(context).message_count == if wants_fold(
                old(context).config,
                old(context).answer@,
            ) && fold_from(fold_settings(old(context).config), old(context).answer@, 0) is Some {
                bump(bump(old(context).message_count))
            } else {
                bump(old(context).message_count)
            },
            final(context).answer@ == iteration_answer(
                old(context).config,
                old(context).iteration,
                old(context).answer@,
                block_notes(blocks@, outcomes@, blocks@.len() as int),
                blocks@.len() as int,
            ),
            final(context).metadata.repl_executions == bump_by(
                old(context).metadata.repl_executions,
                blocks@.len() as int,
            ),
            final(context).metadata.llm_calls == bump(old(context).metadata.llm_calls),
            final(context).metadata.total_tokens == capped_sum(
                old(context).metadata.total_tokens,
                LLM_CALL_TOKENS,
            ),
            ({
                let failed = failure_texts(outcomes@, outcomes@.len() as int);
                let before = texts(old(context).metadata.errors@);
                let after = texts(final(context).metadata.errors@);
                if wants_fold(old(context).config, old(context).answer@) && fold_from(
                    fold_settings(old(context).config),
                    old(context).answer@,
                    0,
                ) is None {
                    after == (before + failed).push(
                        "Context folding failed: Context folding resulted in empty content"@,
                    )
                } else {
                    after == before + failed
                }
            }),
    {
        let ghost start_errors = texts(context.metadata.errors@);
        let mut notes: Vec<char> = Vec::new();
        let mut i: usize = 0;
        proof {
            assert(texts(context.metadata.errors@) =~= start_errors + failure_texts(outcomes@, 0));
        }
        while i < blocks.len()
            invariant
                i <= blocks@.len(),
                blocks@.len() == outcomes@.len(),
                notes@ == block_notes(blocks@, outcomes@, i as int),
                context.iteration == old(context).iteration,
                context.task_id == old(context).task_id,
                context.config == old(context).config,
                context.answer == old(context).answer,
                context.message_count == old(context).message_count,
                context.metadata.llm_calls == old(context).metadata.llm_calls,
                context.metadata.total_tokens == old(context).metadata.total_tokens,
                context.metadata.repl_executions == bump_by(
                    old(context).metadata.repl_executions,
                    i as int,
                ),
                texts(context.metadata.errors@) == start_errors + failure_texts(
                    outcomes@,
                    i as int,
                ),
            decreases blocks@.len() - i,
        {
            let ghost errors_before = texts(context.metadata.errors@);
            context.record_repl_execution();
            let head = to_chars("\n[REPL:");
            extend_chars(&mut notes, head.as_slice());
            let language = to_chars(blocks[i].language.as_str());
            extend_chars(&mut notes, language.as_slice());
            match &outcomes[i] {
                BlockOutcome::Output(output) => {
                    let mid = to_chars(" output]\n");
                    extend_chars(&mut notes, mid.as_slice());
                    let body = to_chars(output.as_str());
                    extend_chars(&mut notes, body.as_slice());
                    proof {
                        assert(texts(context.metadata.errors@) =~= start_errors + failure_texts(
                            outcomes@,
                            i + 1,
                        ));
                    }
                },
                BlockOutcome::Failure(e) => {
                    let text = e.to_string();
                    context.record_error(text.as_str());
                    let mid = to_chars(" error]\n");
                    extend_chars(&mut notes, mid.as_slice());
                    let body = to_chars(text.as_str());
                    extend_chars(&mut notes, body.as_slice());
                    proof {
                        assert(texts(context.metadata.errors@) =~= errors_before.push(
                            e.describe(),
                        ));
                        assert(texts(context.metadata.errors@) =~= start_errors + failure_texts(
                            outcomes@,
                            i + 1,
                        ));
                    }
                },
            }
            proof {
                assert(notes@ =~= block_notes(blocks@, outcomes@, i + 1));
            }
            i += 1;
        }
        let mut folded_note = false;
        if !context.is_within_context_limits() && self.config_of(context).enable_context_folding {
            let mut folder = ContextFolder::new(
                ContextFoldConfig::new(self.config_of(context).max_context_length),
            );
            let ghost errors_before = texts(context.metadata.errors@);
            match folder.fold(context.answer()) {
                Ok(folded) => {
                    context.clear_answer();
                    context.append_answer(folded.as_str());
                    proof {
                        assert(context.answer@ =~= folded@);
                    }
                    folded_note = true;
                },
                Err(e) => {
                    let text = e.to_string();
                    context.record_error(text.as_str());
                    proof {
                        assert(text@ =~= "Context folding failed: "@
                            + "Context folding resulted in empty content"@);
                        reveal_strlit("Context folding failed: ");
                        reveal_strlit("Context folding resulted in empty content");
                        reveal_strlit(
                            "Context folding failed: Context folding resulted in empty content",
                        );
                        assert(text@
                            =~= "Context folding failed: Context folding resulted in empty content"@);
                        assert(texts(context.metadata.errors@) =~= errors_before.push(text@));
                    }
                },
            }
        }
        let ghost base = context.answer@;
        if blocks.len() > 0 || folded_note {
            let ghost block_part = notes@;
            if folded_note {
                let tail = to_chars("\n[Context folded]");
                extend_chars(&mut notes, tail.as_slice());
            }
            let all = from_chars(notes.as_slice());
            context.append_answer(all.as_str());
            proof {
                if folded_note {
                    assert(context.answer@ =~= base + block_part + "\n[Context folded]"@);
                } else {
                    assert(context.answer@ =~= base + block_part);
                }
            }
        } else {
            let mut marker = to_chars("\n[Iteration ");
            push_decimal(&mut marker, context.iteration as u64);
            let tail = to_chars(" complete]");
            extend_chars(&mut marker, tail.as_slice());
            let all = from_chars(marker.as_slice());
            context.append_answer(all.as_str());
            proof {
                assert(marker@ =~= iteration_marker(context.iteration));
            }
        }
        context.record_llm_call(LLM_CALL_TOKENS);
    }

    fn config_of<'a>(&self, context: &'a RLMContext) -> (c: &'a RLMConfig)
        ensures
            *c == context.config,
    {
        &context.config
    }

    /// Runs the iterations that are left on `context`, with `runner` for the
    /// code blocks: as many as bring the counter to the maximum, none if it
    /// is there already. What the context holds afterwards is what the
    /// rounds make of the outcomes that the runner gave, whatever they were.
    pub fn run_to_end<R: CodeRunner>(&self, context: &mut RLMContext, runner: &R)
        ensures
            final(context).config == old(context).config,
            final(context).task_id == old(context).task_id,
            final(context).iteration == if old(context).iteration >= old(
                context,
            ).config.max_iterations {
                old(context).iteration
            } else {
                old(context).config.max_iterations
            },
            old(context).within_budget() ==> final(context).within_budget(),
            final(context).metadata.llm_calls == bump_by(
                old(context).metadata.llm_calls,
                final(context).iteration - old(context).iteration,
            ),
            final(context).metadata.total_tokens == charged(
                old(context).metadata.total_tokens,
                final(context).iteration - old(context).iteration,
            ),
            exists|trace: Seq<Seq<BlockOutcome>>|
                {
                    &&& trace.len() == final(context).iteration - old(context).iteration
                    &&& trace_fits(
                        old(context).config,
                        old(context).iteration as int,
                        state_of(*old(context)),
                        trace,
                    )
                    &&& state_of(*final(context)) == #[trigger] after_trace(
                        old(context).config,
                        old(context).iteration as int,
                        state_of(*old(context)),
                        trace,
                    )
                },
    {
        let ghost first = context.iteration as int;
        let ghost start = state_of(*context);
        let ghost mut trace: Seq<Seq<BlockOutcome>> = Seq::empty();
        while !context.max_iterations_reached()
            invariant
                context.config == old(context).config,
                context.task_id == old(context).task_id,
                first == old(context).iteration,
                start == state_of(*old(context)),
                old(context).iteration <= context.iteration,
                context.iteration <= old(context).config.max_iterations || context.iteration
                    == old(context).iteration,
                context.metadata.llm_calls == bump_by(
                    old(context).metadata.llm_calls,
                    context.iteration - old(context).iteration,
                ),
                context.metadata.total_tokens == charged(
                    old(context).metadata.total_tokens,
                    context.iteration - old(context).iteration,
                ),
                trace.len() == context.iteration - first,
                trace_fits(context.config, first, start, trace),
                state_of(*context) == after_trace(context.config, first, start, trace),
            decreases context.config.max_iterations - context.iteration,
        {
            let ghost before = state_of(*context);
            let blocks = self.start_iteration(context);
            let mut outcomes: Vec<BlockOutcome> = Vec::new();
            let mut i: usize = 0;
            while i < blocks.len()
                invariant
                    i <= blocks@.len(),
                    outcomes@.len() == i,
                decreases blocks@.len() - i,
            {
                outcomes.push(runner.run(blocks[i].language.as_str(), blocks[i].code.as_str()));
                i += 1;
            }
            proof {
                assert(state_of(*context) == before);
                lemma_block_notes(blocks@, outcomes@, blocks@.len() as int);
                assert(block_texts(blocks@).len() == blocks@.len());
            }
            self.finish_iteration(context, &blocks, &outcomes);
            proof {
                let longer = trace.push(outcomes@);
                assert(longer.drop_last() =~= trace);
                assert(longer.last() == outcomes@);
                assert(state_of(*context) == after_iteration(
                    context.config,
                    context.iteration,
                    before,
                    outcomes@,
                ));
                trace = longer;
            }
        }
    }

    /// Runs the whole loop for `prompt`: refuses the task with an execution
    /// error, or opens a context, runs every iteration with `runner` for the
    /// code blocks, and gives the final answer. Failures of code blocks and
    /// of folding are recorded and never end the loop. The answer is what
    /// `max_iterations` rounds make of the prompt and of the outcomes that
    /// the runner gave, whatever they were.
    pub fn execute<R: CodeRunner>(&self, prompt: &str, task_id: &str, runner: &R) -> (r: RLMResult<
        String,
    >)
        ensures
            match r {
                Ok(answer) => {
                    &&& self.refusal(prompt@, task_id@) is None
                    &&& exists|trace: Seq<Seq<BlockOutcome>>|
                        {
                            &&& trace.len() == self.settings().max_iterations
                            &&& trace_fits(self.settings(), 0, initial_state(prompt@), trace)
                            &&& answer@ == #[trigger] answer_after(self.settings(), prompt@, trace)
                        }
                },
                Err(e) => e is ExecutionError && self.refusal(prompt@, task_id@) == Some(
                    e.detail(),
                ),
            },
    {
        match self.begin(prompt, task_id) {
            Ok(mut context) => {
                proof {
                    assert(texts(context.metadata.errors@) =~= Seq::<Seq<char>>::empty());
                    assert(state_of(context) == initial_state(prompt@));
                }
                let ghost opened = context;
                self.run_to_end(&mut context, runner);
                proof {
                    let trace = choose|trace: Seq<Seq<BlockOutcome>>|
                        {
                            &&& trace.len() == context.iteration - opened.iteration
                            &&& trace_fits(
                                opened.config,
                                opened.iteration as int,
                                state_of(opened),
                                trace,
                            )
                            &&& state_of(context) == #[trigger] after_trace(
                                opened.config,
                                opened.iteration as int,
                                state_of(opened),
                                trace,
                            )
                        };
                    assert(context.answer@ == answer_after(self.settings(), prompt@, trace));
                }
                Ok(self.finish(&context))
            },
            Err(e) => Err(e),
        }
    }

    /// The answer that the loop ends with.
    pub fn finish(&self, context: &RLMContext) -> (answer: String)
        ensures
            answer@ == context.answer@,
    {
        String::from_str(context.answer())
    }

    /// The answer of a run without code execution that starts at iteration
    /// `from`: one marker for each iteration up to the maximum.
    pub open spec fn plain_answer(answer: Seq<char>, from: int, max: int) -> Seq<char>
        decreases max - from,
    {
        if from >= max {
            answer
        } else {
            Self::plain_answer(answer + plain_marker((from + 1) as usize), from + 1, max)
        }
    }

    /// Runs the loop on `context` without code execution: appends the prompt,
    /// then one marker per iteration until the context's maximum is reached.
    /// Fails, and changes nothing, for an empty prompt.
    pub fn execute_with_context(&self, prompt: &str, context: &mut RLMContext) -> (r: RLMResult<
        String,
    >)
        ensures
            final(context).config == old(context).config,
            final(context).task_id == old(context).task_id,
            prompt@.len() == 0 ==> {
                &&& r matches Err(e)
                &&& e is ExecutionError
                &&& e.detail() == "Prompt cannot be empty"@
                &&& *final(context) == *old(context)
            },
            prompt@.len() > 0 ==> {
                &&& r matches Ok(answer)
                &&& answer@ == final(context).answer@
                &&& final(context).answer@ == Self::plain_answer(
                    old(context).answer@ + prompt@,
                    old(context).iteration as int,
                    old(context).config.max_iterations as int,
                )
                &&& final(context).iteration == if old(context).iteration >= old(
                    context,
                ).config.max_iterations {
                    old(context).iteration
                } else {
                    old(context).config.max_iterations
                }
                &&& final(context).metadata.llm_calls == bump_by(
                    old(context).metadata.llm_calls,
                    final(context).iteration - old(context).iteration,
                )
                &&& final(context).metadata.total_tokens == charged(
                    old(context).metadata.total_tokens,
                    final(context).iteration - old(context).iteration,
                )
                &&& final(context).message_count == bump_by(
                    old(context).message_count,
                    1 + final(context).iteration - old(context).iteration,
                )
                &&& final(context).metadata.errors == old(context).metadata.errors
                &&& final(context).metadata.repl_executions == old(
                    context,
                ).metadata.repl_executions
            },
            old(context).within_budget() ==> final(context).within_budget(),
    {
        if prompt.unicode_len() == 0 {
            return Err(RLMError::execution("Prompt cannot be empty"));
        }
        context.append_answer(prompt);
        proof {
            assert(bump_by(old(context).message_count, 0) == old(context).message_count);
            assert(bump_by(old(context).message_count, 1) == bump(old(context).message_count));
        }
        while !context.max_iterations_reached()
            invariant
                context.config == old(context).config,
                context.task_id == old(context).task_id,
                old(context).iteration <= context.iteration,
                context.iteration <= old(context).config.max_iterations || context.iteration
                    == old(context).iteration,
                context.metadata.llm_calls == bump_by(
                    old(context).metadata.llm_calls,
                    context.iteration - old(context).iteration,
                ),
                context.metadata.total_tokens == charged(
                    old(context).metadata.total_tokens,
                    context.iteration - old(context).iteration,
                ),
                context.message_count == bump_by(
                    old(context).message_count,
                    1 + context.iteration - old(context).iteration,
                ),
                context.metadata.errors == old(context).metadata.errors,
                context.metadata.repl_executions == old(context).metadata.repl_executions,
                Self::plain_answer(
                    context.answer@,
                    context.iteration as int,
                    context.config.max_iterations as int,
                ) == Self::plain_answer(
                    old(context).answer@ + prompt@,
                    old(context).iteration as int,
                    old(context).config.max_iterations as int,
                ),
            decreases context.config.max_iterations - context.iteration,
        {
            context.next_iteration();
            let mut marker = to_chars("\n[Iteration ");
            push_decimal(&mut marker, context.iteration as u64);
            let tail = to_chars("]");
            extend_chars(&mut marker, tail.as_slice());
            let all = from_chars(marker.as_slice());
            context.append_answer(all.as_str());
            context.record_llm_call(LLM_CALL_TOKENS);
        }
        Ok(String::from_str(context.answer()))
    }
}

} // verus!
