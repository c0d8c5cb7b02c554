//! The answer that a refinement builds up piece by piece.

use crate::time::Duration;
use vstd::prelude::*;
use vstd::string::StringExecFns;

verus! {

/// Pause between two looks at a buffer that is waited for, in milliseconds.
pub const POLL_INTERVAL_MS: u64 = 10;

/// Accumulates an answer until it is finalized.
#[derive(Debug)]
pub struct AnswerBuffer {
    content: String,
    ready: bool,
    iteration_count: usize,
}

/// What a waiter does after a look at the buffer.
#[derive(Debug, Clone, Copy, PartialEq, Eq)]
pub enum WaitStep {
    /// The answer is final.
    Ready,
    /// The time is up.
    TimedOut,
    /// Look again after the poll interval.
    Sleep,
}

impl AnswerBuffer {
    /// The text so far.
    pub closed spec fn text(&self) -> Seq<char> {
        self.content@
    }

    /// Whether the answer is final.
    pub closed spec fn finalized(&self) -> bool {
        self.ready
    }

    /// Refinement iterations completed.
    pub closed spec fn iterations(&self) -> usize {
        self.iteration_count
    }

    /// An empty buffer that is not final.
    pub fn new() -> (b: AnswerBuffer)
        ensures
            b.text().len() == 0,
            !b.finalized(),
            b.iterations() == 0,
    {
        AnswerBuffer { content: String::new(), ready: false, iteration_count: 0 }
    }

    /// Appends `text`. A final answer takes no more text.
    pub fn append(&mut self, text: &str)
        requires
            !old(self).finalized(),
        ensures
            final(self).text() == old(self).text() + text@,
            !final(self).finalized(),
            final(self).iterations() == old(self).iterations(),
    {
        self.content.append(text);
    }

    /// Appends `text` unless the answer is final; tells whether it did.
    pub fn try_append(&mut self, text: &str) -> (appended: bool)
        ensures
            appended == !old(self).finalized(),
            final(self).finalized() == old(self).finalized(),
            final(self).iterations() == old(self).iterations(),
            final(self).text() == if appended {
                old(self).text() + text@
            } else {
                old(self).text()
            },
    {
        if self.ready {
            false
        } else {
            self.content.append(text);
            true
        }
    }

    /// Makes the answer final.
    pub fn finalize(&mut self)
        ensures
            final(self).finalized(),
            final(self).text() == old(self).text(),
            final(self).iterations() == old(self).iterations(),
    {
        self.ready = true;
    }

    /// What a waiter does who has waited `elapsed` of at most `timeout`.
    pub fn wait_step(&self, elapsed: Duration, timeout: Duration) -> (step: WaitStep)
        ensures
            step == if self.finalized() {
                WaitStep::Ready
            } else if elapsed.total_nanos() > timeout.total_nanos() {
                WaitStep::TimedOut
            } else {
                WaitStep::Sleep
            },
    {
        if self.ready {
            WaitStep::Ready
        } else if elapsed.exceeds(&timeout) {
            WaitStep::TimedOut
        } else {
            WaitStep::Sleep
        }
    }

    /// The text so far.
    pub fn get_content(&self) -> (s: String)
        ensures
            s@ == self.text(),
    {
        self.content.clone()
    }

    /// Whether the answer is final.
    pub fn is_ready(&self) -> (b: bool)
        ensures
            b == self.finalized(),
    {
        self.ready
    }

    /// Refinement iterations completed.
    pub fn iteration_count(&self) -> (n: usize)
        ensures
            n == self.iterations(),
    {
        self.iteration_count
    }

    /// Counts one iteration; the count stops at the largest `usize`.
    pub fn next_iteration(&mut self)
        ensures
            final(self).iterations() == if old(self).iterations() == usize::MAX {
                usize::MAX
            } else {
                (old(self).iterations() + 1) as usize
            },
            final(self).text() == old(self).text(),
            final(self).finalized() == old(self).finalized(),
    {
        if self.iteration_count < usize::MAX {
            self.iteration_count = self.iteration_count + 1;
        }
    }

    /// Empties the buffer for a new run.
    pub fn reset(&mut self)
        ensures
            final(self).text().len() == 0,
            !final(self).finalized(),
            final(self).iterations() == 0,
    {
        self.content = String::new();
        self.ready = false;
        self.iteration_count = 0;
    }
}

impl Default for AnswerBuffer {
    fn default() -> (b: AnswerBuffer)
        ensures
            b.text().len() == 0,
            !b.finalized(),
            b.iterations() == 0,
    {
        AnswerBuffer::new()
    }
}

} // verus!
