//! Batch aggregation: results of independent model calls collected under a
//! concurrency bound and reported in prompt order.

use crate::error::FederationError;
use crate::text::{
    count_words, lemma_word_count_half, to_chars, word_count,
};
use vstd::prelude::*;
use vstd::string::StringExecFns;

verus! {

/// Result of one model call of a batch.
#[derive(Debug, Clone)]
pub struct BatchCallResult {
    /// Index of the prompt in the request.
    pub index: usize,
    /// The prompt that was sent.
    pub prompt: String,
    /// The model's answer; empty on failure.
    pub response: String,
    /// Estimated tokens of the answer; zero on failure.
    pub tokens_used: usize,
    /// Whether the call succeeded.
    pub success: bool,
    /// Why the call failed, if it did.
    pub error: Option<String>,
}

/// Mathematical content of a [`BatchCallResult`].
pub struct CallRecord {
    pub index: usize,
    pub prompt: Seq<char>,
    pub response: Seq<char>,
    pub tokens_used: usize,
    pub success: bool,
    pub error: Option<Seq<char>>,
}

impl View for BatchCallResult {
    type V = CallRecord;

    open spec fn view(&self) -> CallRecord {
        CallRecord {
            index: self.index,
            prompt: self.prompt@,
            response: self.response@,
            tokens_used: self.tokens_used,
            success: self.success,
            error: match self.error {
                Some(e) => Some(e@),
                None => None,
            },
        }
    }
}

/// A batch of prompts for one model.
#[derive(Debug, Clone)]
pub struct BatchLLMRequest {
    /// Prompts to run, in order.
    pub prompts: Vec<String>,
    /// Model identifier.
    pub model: String,
    /// Sampling temperature in thousandths (700 stands for 0.7).
    pub temperature: u32,
    /// Maximum tokens per answer.
    pub max_tokens: usize,
}

/// Aggregated outcome of a batch.
#[derive(Debug, Clone)]
pub struct BatchLLMResponse {
    /// One result per prompt.
    pub results: Vec<BatchCallResult>,
    /// Tokens consumed by the successful calls.
    pub total_tokens: usize,
    /// Wall-clock duration of the batch in milliseconds.
    pub duration_ms: u64,
    /// Whether every call succeeded.
    pub all_succeeded: bool,
}

/// The results of `rs` whose success flag equals `ok`, in order.
pub open spec fn with_status(rs: Seq<BatchCallResult>, ok: bool) -> Seq<BatchCallResult>
    decreases rs.len(),
{
    if rs.len() == 0 {
        seq![]
    } else {
        let rest = with_status(rs.drop_last(), ok);
        if rs.last().success == ok {
            rest.push(rs.last())
        } else {
            rest
        }
    }
}

/// The values behind a sequence of references.
pub open spec fn referents(s: Seq<&BatchCallResult>) -> Seq<BatchCallResult> {
    Seq::new(s.len(), |i: int| *s[i])
}

/// Position of the first result of `rs` that stores `index`, or `rs.len()`.
pub open spec fn position_of(rs: Seq<BatchCallResult>, index: usize) -> int
    decreases rs.len(),
{
    if rs.len() == 0 {
        0
    } else if rs[0].index == index {
        0
    } else {
        1 + position_of(rs.drop_first(), index)
    }
}

/// `position_of` gives `k` exactly when no earlier result stores the index
/// and the result at `k`, if there is one, stores it.
pub proof fn lemma_position_of(rs: Seq<BatchCallResult>, index: usize, k: int)
    requires
        0 <= k <= rs.len(),
        forall|j: int| 0 <= j < k ==> rs[j].index != index,
        k < rs.len() ==> rs[k].index == index,
    ensures
        position_of(rs, index) == k,
    decreases rs.len(),
{
    if k > 0 {
        lemma_position_of(rs.drop_first(), index, k - 1);
    }
}

/// No two results of `rs` store the same index.
pub open spec fn distinct_indices(rs: Seq<BatchCallResult>) -> bool {
    forall|j: int, k: int| 0 <= j < k < rs.len() ==> rs[j].index != rs[k].index
}

/// Where stored indices are distinct, lookup by index finds the one result
/// that stores it, wherever it stands.
pub proof fn lemma_lookup_unique(rs: Seq<BatchCallResult>, k: int)
    requires
        distinct_indices(rs),
        0 <= k < rs.len(),
    ensures
        position_of(rs, rs[k].index) == k,
{
    lemma_position_of(rs, rs[k].index, k);
}

impl BatchLLMResponse {
    fn collect(&self, ok: bool) -> (out: Vec<&BatchCallResult>)
        ensures
            referents(out@) == with_status(self.results@, ok),
    {
        let mut out: Vec<&BatchCallResult> = Vec::new();
        let mut i: usize = 0;
        while i < self.results.len()
            invariant
                i <= self.results.len(),
                referents(out@) == with_status(self.results@.take(i as int), ok),
            decreases self.results.len() - i,
        {
            let ghost before = referents(out@);
            proof {
                assert(self.results@.take(i + 1).drop_last() =~= self.results@.take(i as int));
            }
            if self.results[i].success == ok {
                out.push(&self.results[i]);
                proof {
                    assert(referents(out@) =~= before.push(self.results@[i as int]));
                }
            }
            i += 1;
        }
        proof {
            assert(self.results@.take(self.results.len() as int) =~= self.results@);
        }
        out
    }

    /// The successful results, in response order.
    pub fn successful_responses(&self) -> (out: Vec<&BatchCallResult>)
        ensures
            referents(out@) == with_status(self.results@, true),
    {
        self.collect(true)
    }

    /// The failed results, in response order.
    pub fn failed_responses(&self) -> (out: Vec<&BatchCallResult>)
        ensures
            referents(out@) == with_status(self.results@, false),
    {
        self.collect(false)
    }

    /// The first result that stores `index`, wherever it stands in the list.
    pub fn get_response(&self, index: usize) -> (r: Option<&BatchCallResult>)
        ensures
            r is Some <==> position_of(self.results@, index) < self.results@.len(),
            r is Some ==> *r->0 == self.results@[position_of(self.results@, index)],
            r is None <==> forall|k: int|
                0 <= k < self.results@.len() ==> self.results@[k].index != index,
    {
        let mut i: usize = 0;
        while i < self.results.len()
            invariant
                i <= self.results.len(),
                forall|j: int| 0 <= j < i ==> self.results@[j].index != index,
            decreases self.results.len() - i,
        {
            if self.results[i].index == index {
                proof {
                    lemma_position_of(self.results@, index, i as int);
                }
                return Some(&self.results[i]);
            }
            i += 1;
        }
        proof {
            lemma_position_of(self.results@, index, i as int);
        }
        None
    }
}

/// Token estimate of an answer: words plus a quarter of the characters, at
/// least one.
pub open spec fn estimated_tokens(text: Seq<char>) -> nat {
    let n = word_count(text) + text.len() / 4;
    if n < 1 {
        1
    } else {
        n
    }
}

/// Estimates the tokens of `text`.
pub fn estimate_tokens(text: &str) -> (n: usize)
    ensures
        n == estimated_tokens(text@),
{
    let chars = to_chars(text);
    proof {
        lemma_word_count_half(chars@);
    }
    let words = count_words(chars.as_slice());
    let n = words + chars.len() / 4;
    if n < 1 {
        1
    } else {
        n
    }
}

/// Answer of one successful model call.
#[derive(Debug)]
pub struct SingleLLMResponse {
    /// The answer text.
    pub content: String,
    /// Its estimated tokens.
    pub tokens_used: usize,
}

/// How one call of a batch ended.
#[derive(Debug)]
pub enum CallOutcome {
    /// The model answered.
    Completed(SingleLLMResponse),
    /// The call failed after its retries.
    Failed(FederationError),
    /// The call did not finish within the per-call timeout.
    TimedOut,
}

/// The result recorded for prompt `index` given how its call ended.
pub open spec fn record_of(index: usize, prompt: Seq<char>, outcome: CallOutcome) -> CallRecord {
    match outcome {
        CallOutcome::Completed(r) => CallRecord {
            index,
            prompt,
            response: r.content@,
            tokens_used: r.tokens_used,
            success: true,
            error: None,
        },
        CallOutcome::Failed(e) => CallRecord {
            index,
            prompt,
            response: seq![],
            tokens_used: 0,
            success: false,
            error: Some(e.describe()),
        },
        CallOutcome::TimedOut => CallRecord {
            index,
            prompt,
            response: seq![],
            tokens_used: 0,
            success: false,
            error: Some("Request timed out"@),
        },
    }
}

/// Tokens used by the successful results among the first `n` of `rs`.
pub open spec fn token_total(rs: Seq<BatchCallResult>, n: int) -> nat
    decreases n,
{
    if n <= 0 {
        0
    } else {
        token_total(rs, n - 1) + if rs[n - 1].success {
            rs[n - 1].tokens_used as nat
        } else {
            0nat
        }
    }
}

/// `total` capped at the largest `usize`.
pub open spec fn capped(total: nat) -> usize {
    if total > usize::MAX {
        usize::MAX
    } else {
        total as usize
    }
}

/// Every one of the first `n` results of `rs` succeeded.
pub open spec fn all_ok(rs: Seq<BatchCallResult>, n: int) -> bool {
    forall|k: int| 0 <= k < n ==> rs[k].success
}

/// Number of calls among the first `n` slots that have no outcome yet.
pub open spec fn open_calls(slots: Seq<Option<CallOutcome>>, n: int) -> nat
    decreases n,
{
    if n <= 0 {
        0
    } else {
        open_calls(slots, n - 1) + if slots[n - 1] is None {
            1nat
        } else {
            0nat
        }
    }
}

proof fn lemma_open_calls_fill(slots: Seq<Option<CallOutcome>>, k: int, o: CallOutcome, n: int)
    requires
        0 <= k < slots.len(),
        0 <= n <= slots.len(),
        slots[k] is None,
    ensures
        open_calls(slots.update(k, Some(o)), n) == open_calls(slots, n) - if k < n {
            1int
        } else {
            0int
        },
    decreases n,
{
    if n > 0 {
        lemma_open_calls_fill(slots, k, o, n - 1);
    }
}

proof fn lemma_open_calls_zero(slots: Seq<Option<CallOutcome>>, n: int)
    requires
        0 <= n <= slots.len(),
        open_calls(slots, n) == 0,
    ensures
        forall|k: int| 0 <= k < n ==> slots[k] is Some,
    decreases n,
{
    if n > 0 {
        lemma_open_calls_zero(slots, n - 1);
    }
}

/// Progress of one batch: which prompts were dispatched and how their calls
/// ended. At most `limit` calls are open at any time.
pub struct BatchRun {
    prompts: Vec<String>,
    slots: Vec<Option<CallOutcome>>,
    dispatched: usize,
    in_flight: usize,
    limit: usize,
}

impl BatchRun {
    /// The prompts of the batch.
    pub closed spec fn prompts(&self) -> Seq<String> {
        self.prompts@
    }

    /// For each prompt, how its call ended, once known.
    pub closed spec fn outcomes(&self) -> Seq<Option<CallOutcome>> {
        self.slots@
    }

    /// Number of prompts handed out so far; they are handed out in order.
    pub closed spec fn dispatched(&self) -> nat {
        self.dispatched as nat
    }

    /// Largest number of calls that may be open together.
    pub closed spec fn limit(&self) -> nat {
        self.limit as nat
    }

    /// Number of calls that were dispatched and have not ended.
    pub open spec fn in_flight(&self) -> nat {
        open_calls(self.outcomes(), self.dispatched() as int)
    }

    /// Consistency of the bookkeeping.
    pub closed spec fn wf(&self) -> bool {
        &&& self.slots@.len() == self.prompts@.len()
        &&& self.dispatched <= self.prompts@.len()
        &&& self.in_flight == open_calls(self.slots@, self.dispatched as int)
        &&& self.in_flight <= self.limit
        &&& forall|k: int| self.dispatched <= k < self.slots@.len() ==> self.slots@[k] is None
    }

    /// What `wf` guarantees to callers: open calls never exceed the limit.
    pub proof fn lemma_bounded(&self)
        requires
            self.wf(),
        ensures
            self.in_flight() <= self.limit(),
            self.outcomes().len() == self.prompts().len(),
            self.dispatched() <= self.prompts().len(),
            forall|k: int|
                self.dispatched() <= k < self.outcomes().len() ==> self.outcomes()[k] is None,
    {
    }

    /// Starts a run over `prompts` with at most `limit` open calls.
    pub fn new(prompts: Vec<String>, limit: usize) -> (run: BatchRun)
        ensures
            run.wf(),
            run.prompts() == prompts@,
            run.outcomes().len() == prompts@.len(),
            run.dispatched() == 0,
            run.limit() == limit,
            run.in_flight() == 0,
    {
        let mut slots: Vec<Option<CallOutcome>> = Vec::new();
        let mut i: usize = 0;
        while i < prompts.len()
            invariant
                i <= prompts.len(),
                slots@.len() == i,
                forall|k: int| 0 <= k < i ==> slots@[k] is None,
            decreases prompts.len() - i,
        {
            slots.push(None);
            i += 1;
        }
        BatchRun { prompts, slots, dispatched: 0, in_flight: 0, limit }
    }

    /// Hands out the next prompt to call, unless all were handed out or the
    /// limit of open calls is reached.
    pub fn try_dispatch(&mut self) -> (next: Option<usize>)
        requires
            old(self).wf(),
        ensures
            final(self).wf(),
            final(self).prompts() == old(self).prompts(),
            final(self).outcomes() == old(self).outcomes(),
            final(self).limit() == old(self).limit(),
            next is Some <==> old(self).dispatched() < old(self).prompts().len() && old(
                self,
            ).in_flight() < old(self).limit(),
            next is Some ==> next->0 == old(self).dispatched() && final(self).dispatched() == old(
                self,
            ).dispatched() + 1 && final(self).in_flight() == old(self).in_flight() + 1,
            next is None ==> final(self).dispatched() == old(self).dispatched(),
    {
        if self.dispatched < self.prompts.len() && self.in_flight < self.limit {
            let index = self.dispatched;
            self.dispatched = index + 1;
            self.in_flight = self.in_flight + 1;
            Some(index)
        } else {
            None
        }
    }

    /// The prompt at `index`.
    pub fn prompt(&self, index: usize) -> (p: &String)
        requires
            self.wf(),
            index < self.prompts().len(),
        ensures
            *p == self.prompts()[index as int],
    {
        &self.prompts[index]
    }

    /// Records how the call for prompt `index` ended. Returns `false`, and
    /// changes nothing, unless that call is open.
    pub fn complete(&mut self, index: usize, outcome: CallOutcome) -> (accepted: bool)
        requires
            old(self).wf(),
        ensures
            final(self).wf(),
            final(self).prompts() == old(self).prompts(),
            final(self).limit() == old(self).limit(),
            final(self).dispatched() == old(self).dispatched(),
            accepted <==> index < old(self).dispatched() && old(self).outcomes()[index as int]
                is None,
            accepted ==> final(self).outcomes() == old(self).outcomes().update(
                index as int,
                Some(outcome),
            ) && final(self).in_flight() == old(self).in_flight() - 1,
            !accepted ==> final(self).outcomes() == old(self).outcomes(),
    {
        if index < self.dispatched && self.slots[index].is_none() {
            proof {
                lemma_open_calls_fill(self.slots@, index as int, outcome, self.dispatched as int);
            }
            self.slots.set(index, Some(outcome));
            self.in_flight = self.in_flight - 1;
            true
        } else {
            false
        }
    }

    /// Whether the run can never end: prompts are left, no call is open,
    /// and the limit allows none.
    pub fn is_stalled(&self) -> (stalled: bool)
        requires
            self.wf(),
        ensures
            stalled <==> self.dispatched() < self.prompts().len() && self.in_flight() == 0
                && self.limit() == 0,
    {
        self.dispatched < self.prompts.len() && self.in_flight == 0 && self.limit == 0
    }

    /// Whether every prompt was dispatched and every call has ended.
    pub fn is_complete(&self) -> (done: bool)
        requires
            self.wf(),
        ensures
            done <==> self.dispatched() == self.prompts().len() && self.in_flight() == 0,
            done ==> forall|k: int| 0 <= k < self.outcomes().len() ==> self.outcomes()[k] is Some,
    {
        let done = self.dispatched == self.prompts.len() && self.in_flight == 0;
        proof {
            if done {
                lemma_open_calls_zero(self.slots@, self.dispatched as int);
            }
        }
        done
    }

    /// Aggregates a finished run: one result per prompt, in prompt order,
    /// tokens summed over the successful calls.
    pub fn finish(&self, duration_ms: u64) -> (response: BatchLLMResponse)
        requires
            self.wf(),
            forall|k: int| 0 <= k < self.outcomes().len() ==> self.outcomes()[k] is Some,
        ensures
            response.results@.len() == self.prompts().len(),
            forall|k: int|
                0 <= k < response.results@.len() ==> (#[trigger] response.results@[k])@
                    == record_of(k as usize, self.prompts()[k]@, self.outcomes()[k]->0),
            response.total_tokens == capped(
                token_total(response.results@, response.results@.len() as int),
            ),
            response.all_succeeded == all_ok(response.results@, response.results@.len() as int),
            response.duration_ms == duration_ms,
    {
        let mut results: Vec<BatchCallResult> = Vec::new();
        let mut total: usize = 0;
        let mut all_succeeded = true;
        let mut i: usize = 0;
        while i < self.slots.len()
            invariant
                self.wf(),
                i <= self.slots@.len(),
                self.slots@.len() == self.prompts@.len(),
                forall|k: int| 0 <= k < self.slots@.len() ==> self.slots@[k] is Some,
                results@.len() == i,
                forall|k: int|
                    0 <= k < i ==> (#[trigger] results@[k])@ == record_of(
                        k as usize,
                        self.prompts@[k]@,
                        self.slots@[k]->0,
                    ),
                total == capped(token_total(results@, i as int)),
                all_succeeded == all_ok(results@, i as int),
            decreases self.slots@.len() - i,
        {
            let ghost before = results@;
            let prompt = self.prompts[i].clone();
            let result = match &self.slots[i] {
                Some(CallOutcome::Completed(r)) => {
                    total = total.saturating_add(r.tokens_used);
                    BatchCallResult {
                        index: i,
                        prompt,
                        response: r.content.clone(),
                        tokens_used: r.tokens_used,
                        success: true,
                        error: None,
                    }
                },
                Some(CallOutcome::Failed(e)) => {
                    all_succeeded = false;
                    BatchCallResult {
                        index: i,
                        prompt,
                        response: String::new(),
                        tokens_used: 0,
                        success: false,
                        error: Some(e.to_string()),
                    }
                },
                _ => {
                    all_succeeded = false;
                    BatchCallResult {
                        index: i,
                        prompt,
                        response: String::new(),
                        tokens_used: 0,
                        success: false,
                        error: Some(String::from_str("Request timed out")),
                    }
                },
            };
            results.push(result);
            proof {
                assert(forall|k: int| 0 <= k < i ==> results@[k] == before[k]);
                lemma_token_total_prefix(before, results@, i as int);
                assert(all_ok(before, i as int) == all_ok(results@, i as int));
            }
            i += 1;
        }
        BatchLLMResponse { results, total_tokens: total, duration_ms, all_succeeded }
    }
}

proof fn lemma_token_total_prefix(a: Seq<BatchCallResult>, b: Seq<BatchCallResult>, n: int)
    requires
        0 <= n <= a.len(),
        n <= b.len(),
        forall|k: int| 0 <= k < n ==> a[k] == b[k],
    ensures
        token_total(a, n) == token_total(b, n),
    decreases n,
{
    if n > 0 {
        lemma_token_total_prefix(a, b, n - 1);
    }
}

/// In a response whose results stand in index order, lookup by index `i`
/// finds the result at position `i`, and finds nothing beyond the end.
pub proof fn lemma_lookup_in_order(rs: Seq<BatchCallResult>, i: usize)
    requires
        forall|k: int| 0 <= k < rs.len() ==> (#[trigger] rs[k]).index == k,
    ensures
        i < rs.len() ==> position_of(rs, i) == i,
        i >= rs.len() ==> position_of(rs, i) == rs.len(),
{
    if i < rs.len() {
        lemma_position_of(rs, i, i as int);
    } else {
        lemma_position_of(rs, i, rs.len() as int);
    }
}

impl Default for BatchExecutor {
    fn default() -> (e: BatchExecutor)
        ensures
            e.limit() == 10,
    {
        BatchExecutor::new()
    }
}

/// Attempts made for one prompt before giving up.
pub const MAX_RETRIES: usize = 3;

/// Base of the linear backoff between attempts, in milliseconds.
pub const RETRY_BACKOFF_MS: u64 = 100;

/// What one attempt to call the model brought back.
#[derive(Debug)]
pub enum AttemptOutcome {
    /// The server answered with a success status; `text` is the answer found
    /// in the body, if the body held one.
    Answered { text: Option<String> },
    /// The server answered with an error status.
    Rejected { status: String },
    /// The request could not be sent or completed.
    Unreachable { reason: String },
}

/// What to do after an attempt.
#[derive(Debug)]
pub enum RetryAction {
    /// The call succeeded.
    Done(SingleLLMResponse),
    /// Try again after waiting `delay_ms` milliseconds.
    Retry { delay_ms: u64 },
    /// The call failed for good.
    GiveUp(FederationError),
}

/// Attempts made so far for one prompt, with the last recorded failure.
#[derive(Debug)]
pub struct RetryState {
    pub attempt: usize,
    pub last_error: Option<String>,
}

/// The string value that `serde_json` finds under `key` at the top level of
/// the JSON text `body`, if `body` parses and holds a string there.
pub uninterp spec fn json_string_field(body: Seq<char>, key: Seq<char>) -> Option<Seq<char>>;

/// `serde_json::from_str` into a `Value`, then `Value::get` and
/// `Value::as_str`: parses `body` and reads the string stored under `key`.
/// The result depends on the two texts alone.
#[verifier::external_body]
fn read_json_string_field(body: &str, key: &str) -> (r: Option<String>)
    ensures
        match r {
            Some(t) => json_string_field(body@, key@) == Some(t@),
            None => json_string_field(body@, key@) is None,
        },
{
    match serde_json::from_str::<serde_json::Value>(body) {
        Ok(json) => json.get(key).and_then(|v| v.as_str()).map(|t| t.to_string()),
        Err(_) => None,
    }
}

/// Classifies a body received with a success status: the answer is the
/// string under `"response"`.
pub fn read_answer(body: &str) -> (outcome: AttemptOutcome)
    ensures
        outcome matches AttemptOutcome::Answered { text } && match text {
            Some(t) => json_string_field(body@, "response"@) == Some(t@),
            None => json_string_field(body@, "response"@) is None,
        },
{
    AttemptOutcome::Answered { text: read_json_string_field(body, "response") }
}

/// The failure reported when the attempts run out: the last recorded one,
/// or a general notice.
pub open spec fn exhausted_message(last_error: Option<String>) -> Seq<char> {
    match last_error {
        Some(m) => m@,
        None => "All retries exhausted"@,
    }
}

impl RetryState {
    /// State before the first attempt.
    pub fn new() -> (s: RetryState)
        ensures
            s.attempt == 0,
            s.last_error is None,
    {
        RetryState { attempt: 0, last_error: None }
    }

    /// Decides what follows attempt number `attempt` (counted from zero).
    ///
    /// An answer ends the call. A body without an answer is retried at once.
    /// An error status or a transport failure is retried after
    /// `RETRY_BACKOFF_MS * (attempt + 1)` milliseconds. The last attempt is
    /// never followed by a retry.
    pub fn on_attempt(&mut self, outcome: AttemptOutcome) -> (action: RetryAction)
        requires
            old(self).attempt < MAX_RETRIES,
        ensures
            final(self).attempt == old(self).attempt + 1,
            action is Retry ==> final(self).attempt < MAX_RETRIES,
            match outcome {
                AttemptOutcome::Answered { text: Some(t) } => {
                    &&& action matches RetryAction::Done(r)
                    &&& r.content@ == t@
                    &&& r.tokens_used == estimated_tokens(t@)
                    &&& final(self).last_error == old(self).last_error
                },
                AttemptOutcome::Answered { text: None } => {
                    &&& final(self).last_error == old(self).last_error
                    &&& if old(self).attempt + 1 < MAX_RETRIES {
                        action == (RetryAction::Retry { delay_ms: 0 })
                    } else {
                        &&& action matches RetryAction::GiveUp(FederationError::ExecutionError(m))
                        &&& m@ == exhausted_message(old(self).last_error)
                    }
                },
                AttemptOutcome::Rejected { status } => {
                    if old(self).attempt + 1 < MAX_RETRIES {
                        &&& action == (RetryAction::Retry {
                            delay_ms: (RETRY_BACKOFF_MS * (old(self).attempt + 1)) as u64,
                        })
                        &&& final(self).last_error matches Some(m)
                        &&& m@ == "HTTP error: "@ + status@
                    } else {
                        &&& action matches RetryAction::GiveUp(FederationError::ExecutionError(m))
                        &&& m@ == exhausted_message(old(self).last_error)
                        &&& final(self).last_error == old(self).last_error
                    }
                },
                AttemptOutcome::Unreachable { reason } => {
                    if old(self).attempt + 1 < MAX_RETRIES {
                        &&& action == (RetryAction::Retry {
                            delay_ms: (RETRY_BACKOFF_MS * (old(self).attempt + 1)) as u64,
                        })
                        &&& final(self).last_error matches Some(m)
                        &&& m@ == "Request failed: "@ + reason@
                    } else {
                        &&& action matches RetryAction::GiveUp(FederationError::ExecutionError(m))
                        &&& m@ == "Request failed after 3 retries: "@ + reason@
                        &&& final(self).last_error == old(self).last_error
                    }
                },
            },
    {
        let attempt = self.attempt;
        self.attempt = attempt + 1;
        let more = attempt + 1 < MAX_RETRIES;
        let delay_ms: u64 = RETRY_BACKOFF_MS * (attempt as u64 + 1);
        match outcome {
            AttemptOutcome::Answered { text: Some(t) } => {
                let tokens_used = estimate_tokens(t.as_str());
                RetryAction::Done(SingleLLMResponse { content: t, tokens_used })
            },
            AttemptOutcome::Answered { text: None } => {
                if more {
                    RetryAction::Retry { delay_ms: 0 }
                } else {
                    RetryAction::GiveUp(FederationError::ExecutionError(self.exhausted()))
                }
            },
            AttemptOutcome::Rejected { status } => {
                if more {
                    let mut m = String::from_str("HTTP error: ");
                    m.append(status.as_str());
                    self.last_error = Some(m);
                    RetryAction::Retry { delay_ms }
                } else {
                    RetryAction::GiveUp(FederationError::ExecutionError(self.exhausted()))
                }
            },
            AttemptOutcome::Unreachable { reason } => {
                if more {
                    let mut m = String::from_str("Request failed: ");
                    m.append(reason.as_str());
                    self.last_error = Some(m);
                    RetryAction::Retry { delay_ms }
                } else {
                    let mut m = String::from_str("Request failed after 3 retries: ");
                    m.append(reason.as_str());
                    RetryAction::GiveUp(FederationError::ExecutionError(m))
                }
            },
        }
    }

    fn exhausted(&self) -> (m: String)
        ensures
            m@ == exhausted_message(self.last_error),
    {
        match &self.last_error {
            Some(m) => m.clone(),
            None => String::from_str("All retries exhausted"),
        }
    }
}

/// Dispatcher settings for batches of model calls.
#[derive(Debug, Clone, Copy)]
pub struct BatchExecutor {
    max_concurrent: usize,
}

impl BatchExecutor {
    /// Largest number of calls open together.
    pub closed spec fn limit(&self) -> nat {
        self.max_concurrent as nat
    }

    /// An executor that keeps at most ten calls open.
    pub fn new() -> (e: BatchExecutor)
        ensures
            e.limit() == 10,
    {
        BatchExecutor { max_concurrent: 10 }
    }

    /// An executor that keeps at most `max_concurrent` calls open.
    pub fn with_concurrency(max_concurrent: usize) -> (e: BatchExecutor)
        ensures
            e.limit() == max_concurrent,
    {
        BatchExecutor { max_concurrent }
    }

    /// The configured bound on open calls.
    pub fn max_concurrent(&self) -> (n: usize)
        ensures
            n == self.limit(),
    {
        self.max_concurrent
    }

    /// Starts a run over the prompts of `request` under this executor's bound.
    pub fn begin(&self, request: &BatchLLMRequest) -> (run: BatchRun)
        ensures
            run.wf(),
            run.prompts() == request.prompts@,
            run.outcomes().len() == request.prompts@.len(),
            run.dispatched() == 0,
            run.in_flight() == 0,
            run.limit() == self.limit(),
    {
        BatchRun::new(request.prompts.clone(), self.max_concurrent)
    }

    /// Pause before each dispatch, in nanoseconds, that keeps a batch at or
    /// under `max_calls_per_sec`; a rate of zero counts as one.
    pub fn dispatch_interval_nanos(max_calls_per_sec: usize) -> (nanos: u64)
        ensures
            nanos == 1_000_000_000int / (if max_calls_per_sec == 0 {
                1int
            } else {
                max_calls_per_sec as int
            }),
    {
        let rate: u64 = if max_calls_per_sec == 0 {
            1
        } else {
            max_calls_per_sec as u64
        };
        1_000_000_000 / rate
    }
}

} // verus!
