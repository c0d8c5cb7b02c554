//! Context folding: compressing an oversized transcript to a token budget.
//!
//! A fold runs rounds until the estimate fits the budget. Round 0 keeps a
//! head, a sampled middle and a tail of the lines; round 1 samples the lines
//! at a uniform stride; later rounds collapse the text to one summary line.

use crate::clock::elapsed_millis;
use crate::error::{RLMError, RLMResult};
use crate::text::{
    count_punct, count_words, decimal, extend_chars, from_chars, join, join_lines,
    lemma_punct_count_bound, lemma_word_count_half, lines_of, punct_count, push_decimal,
    split_lines, to_chars, views, word_count,
};
use std::time::Instant;
use vstd::prelude::*;
use vstd::string::StringExecFns;

verus! {

/// `n`, or one if `n` is smaller.
pub open spec fn at_least_one(n: int) -> int {
    if n < 1 {
        1
    } else {
        n
    }
}

/// The indices `cur, cur + step, ...` below `end`, at most `room` of them.
pub open spec fn strided(cur: int, end: int, step: int, room: int) -> Seq<int>
    decreases
        (if end > cur {
            end - cur
        } else {
            0
        }),
{
    if cur >= end || room <= 0 || step <= 0 {
        seq![]
    } else {
        seq![cur] + strided(cur + step, end, step, room - 1)
    }
}

/// Number of lines that the head section of the importance strategy keeps.
pub open spec fn head_count(len: int, keep: int) -> int {
    let first = at_least_one(keep / 3);
    let end = if first < len {
        first
    } else {
        len
    };
    if end < keep {
        end
    } else if keep < 0 {
        0
    } else {
        keep
    }
}

/// The middle section of the importance strategy: lines between the first
/// and the last third, sampled at a stride that aims at a third of `keep`.
pub open spec fn middle_selection(len: int, keep: int, room: int) -> Seq<int> {
    let section = at_least_one(len / 3);
    if len > 2 * section {
        let mid_len = len - 2 * section;
        let step = at_least_one(mid_len / at_least_one(keep / 3));
        strided(section, len - section, step, room)
    } else {
        seq![]
    }
}

/// Line indices kept by the importance strategy, in output order: a head, a
/// sampled middle, and as much of the tail as brings the total to `keep`.
pub open spec fn importance_selection(len: int, keep: int) -> Seq<int> {
    let head = Seq::new(head_count(len, keep) as nat, |k: int| k);
    let middle = middle_selection(len, keep, keep - head.len());
    let remaining = keep - head.len() - middle.len();
    let start = if remaining >= len {
        0
    } else if remaining < 0 {
        len
    } else {
        len - remaining
    };
    let tail = Seq::new((len - start) as nat, |k: int| start + k);
    head + middle + tail
}

/// Line indices kept by uniform sampling: every `len / keep`-th line, at
/// most `keep` of them.
pub open spec fn sampling_selection(len: int, keep: int) -> Seq<int> {
    strided(0, len, at_least_one(len / keep), keep)
}

/// The lines of `lines` at the indices `selection`, in that order.
pub open spec fn pick(lines: Seq<Seq<char>>, selection: Seq<int>) -> Seq<Seq<char>> {
    Seq::new(selection.len(), |k: int| lines[selection[k]])
}

/// The single line that stands for `lines` in the summary strategy.
pub open spec fn summary_line(lines: Seq<Seq<char>>) -> Seq<char> {
    "[SUMMARY: "@ + decimal(lines.len()) + " lines compressed to summary] "@ + lines[0]
}

/// The indices of a selection as mathematical integers.
pub open spec fn as_ints(s: Seq<usize>) -> Seq<int> {
    Seq::new(s.len(), |k: int| s[k] as int)
}

/// Every index of `s` is below `len`.
pub open spec fn all_below(s: Seq<int>, len: int) -> bool {
    forall|k: int| 0 <= k < s.len() ==> 0 <= #[trigger] s[k] < len
}

proof fn lemma_strided_bounds(cur: int, end: int, step: int, room: int)
    requires
        0 <= cur,
    ensures
        all_below(strided(cur, end, step, room), end),
        strided(cur, end, step, room).len() <= if room < 0 {
            0
        } else {
            room
        },
    decreases
        (if end > cur {
            end - cur
        } else {
            0
        }),
{
    if cur >= end || room <= 0 || step <= 0 {
    } else {
        lemma_strided_bounds(cur + step, end, step, room - 1);
    }
}

/// Appends to `sel` the indices `start, start + step, ...` below `end`, at
/// most `room` of them.
fn push_strided(sel: &mut Vec<usize>, start: usize, end: usize, step: usize, room: usize)
    requires
        step >= 1,
    ensures
        as_ints(final(sel)@) == as_ints(old(sel)@) + strided(
            start as int,
            end as int,
            step as int,
            room as int,
        ),
{
    let mut cur: usize = start;
    let mut left: usize = room;
    proof {
        assert(as_ints(sel@) + strided(cur as int, end as int, step as int, left as int)
            =~= as_ints(old(sel)@) + strided(
            start as int,
            end as int,
            step as int,
            room as int,
        ));
    }
    while cur < end && left > 0
        invariant
            step >= 1,
            as_ints(sel@) + strided(cur as int, end as int, step as int, left as int) == as_ints(
                old(sel)@,
            ) + strided(start as int, end as int, step as int, room as int),
        decreases end - cur,
    {
        let ghost before = as_ints(sel@);
        sel.push(cur);
        proof {
            assert(as_ints(sel@) =~= before + seq![cur as int]);
        }
        left -= 1;
        if end - cur <= step {
            proof {
                assert(strided(cur + step, end as int, step as int, left as int) =~= strided(
                    end as int,
                    end as int,
                    step as int,
                    left as int,
                ));
                assert(as_ints(sel@) + strided(end as int, end as int, step as int, left as int)
                    =~= before + strided(cur as int, end as int, step as int, left + 1));
            }
            cur = end;
        } else {
            proof {
                assert(as_ints(sel@) + strided(cur + step, end as int, step as int, left as int)
                    =~= before + strided(cur as int, end as int, step as int, left + 1));
            }
            cur += step;
        }
    }
    proof {
        assert(strided(cur as int, end as int, step as int, left as int) =~= Seq::<int>::empty());
        assert(as_ints(sel@) + Seq::<int>::empty() =~= as_ints(sel@));
    }
}

/// Appends the indices `start..end` to `sel`.
fn push_range(sel: &mut Vec<usize>, start: usize, end: usize)
    requires
        start <= end,
    ensures
        as_ints(final(sel)@) == as_ints(old(sel)@) + Seq::new(
            (end - start) as nat,
            |k: int| start + k,
        ),
{
    let mut cur: usize = start;
    while cur < end
        invariant
            start <= cur <= end,
            as_ints(sel@) == as_ints(old(sel)@) + Seq::new(
                (cur - start) as nat,
                |k: int| start + k,
            ),
        decreases end - cur,
    {
        let ghost before = as_ints(sel@);
        sel.push(cur);
        proof {
            assert(as_ints(sel@) =~= before.push(cur as int));
            assert(as_ints(sel@) =~= as_ints(old(sel)@) + Seq::new(
                (cur + 1 - start) as nat,
                |k: int| start + k,
            ));
        }
        cur += 1;
    }
}

fn max_one(n: usize) -> (m: usize)
    ensures
        m == at_least_one(n as int),
{
    if n < 1 {
        1
    } else {
        n
    }
}

/// Computes the importance selection for `len` lines.
pub fn select_by_importance(len: usize, keep_count: usize) -> (sel: Vec<usize>)
    ensures
        as_ints(sel@) == importance_selection(len as int, keep_count as int),
        all_below(as_ints(sel@), len as int),
{
    let mut sel: Vec<usize> = Vec::new();
    let first = max_one(keep_count / 3);
    let end = if first < len {
        first
    } else {
        len
    };
    let head = if end < keep_count {
        end
    } else {
        keep_count
    };
    proof {
        assert(as_ints(sel@) =~= Seq::<int>::empty());
    }
    push_range(&mut sel, 0, head);
    let ghost head_sel = Seq::new(head_count(len as int, keep_count as int) as nat, |k: int| k);
    proof {
        assert(as_ints(sel@) =~= head_sel);
    }
    let section = max_one(len / 3);
    let ghost middle = middle_selection(len as int, keep_count as int, keep_count - head);
    if len > 2 * section {
        let mid_len = len - 2 * section;
        let step = max_one(mid_len / first);
        proof {
            lemma_strided_bounds(
                section as int,
                len - section,
                step as int,
                keep_count - head,
            );
        }
        push_strided(&mut sel, section, len - section, step, keep_count - head);
    }
    proof {
        assert(as_ints(sel@) =~= head_sel + middle);
        assert(middle.len() <= keep_count - head);
        assert(all_below(middle, len as int));
    }
    let remaining = keep_count - sel.len();
    let start = if remaining >= len {
        0
    } else {
        len - remaining
    };
    push_range(&mut sel, start, len);
    sel
}

/// Computes the uniform sampling selection for `len` lines.
pub fn select_by_sampling(len: usize, keep_count: usize) -> (sel: Vec<usize>)
    requires
        keep_count > 0,
    ensures
        as_ints(sel@) == sampling_selection(len as int, keep_count as int),
        all_below(as_ints(sel@), len as int),
{
    let mut sel: Vec<usize> = Vec::new();
    let step = max_one(len / keep_count);
    proof {
        lemma_strided_bounds(0, len as int, step as int, keep_count as int);
        assert(as_ints(sel@) =~= Seq::<int>::empty());
    }
    push_strided(&mut sel, 0, len, step, keep_count);
    proof {
        assert(as_ints(sel@) =~= sampling_selection(len as int, keep_count as int));
    }
    sel
}

/// Joins the selected lines with `'\n'`.
pub fn join_selected(lines: &Vec<Vec<char>>, sel: &Vec<usize>) -> (out: Vec<char>)
    requires
        all_below(as_ints(sel@), lines@.len() as int),
    ensures
        out@ == join_lines(pick(views(lines@), as_ints(sel@))),
{
    let ghost picked = pick(views(lines@), as_ints(sel@));
    let mut out: Vec<char> = Vec::new();
    let mut i: usize = 0;
    while i < sel.len()
        invariant
            i <= sel.len(),
            all_below(as_ints(sel@), lines@.len() as int),
            picked == pick(views(lines@), as_ints(sel@)),
            out@ == join_lines(picked.take(i as int)),
        decreases sel.len() - i,
    {
        let ghost prefix = picked.take(i + 1);
        proof {
            assert(prefix.drop_last() =~= picked.take(i as int));
            assert(0 <= as_ints(sel@)[i as int] < lines@.len());
        }
        if i > 0 {
            out.push('\n');
        }
        extend_chars(&mut out, lines[sel[i]].as_slice());
        proof {
            assert(prefix.last() == lines@[sel@[i as int] as int]@);
            if i > 0 {
                assert(out@ =~= join_lines(prefix.drop_last()) + seq!['\n'] + prefix.last());
            } else {
                assert(out@ =~= prefix[0]);
            }
        }
        i += 1;
    }
    proof {
        assert(picked.take(sel.len() as int) =~= picked);
    }
    out
}

/// Thousandths in a whole: ratios are stored in thousandths.
pub const RATIO_ONE: u32 = 1000;

/// The ratio that aggressive folding uses in place of the configured one.
pub const AGGRESSIVE_RATIO: u32 = 500;

/// Settings of a folder.
#[derive(Debug, Clone, Copy)]
pub struct ContextFoldConfig {
    /// Token budget: a text is folded when its estimate exceeds it.
    pub max_tokens: usize,
    /// Share of the lines that a round aims to keep, in thousandths.
    pub compression_ratio: u32,
    /// Whether to keep half of the lines whatever the configured ratio.
    pub aggressive: bool,
    /// Maximum number of rounds of one fold.
    pub max_iterations: usize,
}

impl ContextFoldConfig {
    /// The default settings with the budget replaced by `max_tokens`.
    pub open spec fn spec_new(max_tokens: usize) -> ContextFoldConfig {
        ContextFoldConfig {
            max_tokens,
            compression_ratio: 700,
            aggressive: false,
            max_iterations: 3,
        }
    }

    /// The ratio that a round works with, in thousandths, never above one.
    pub open spec fn target_ratio(self) -> int {
        if self.aggressive {
            AGGRESSIVE_RATIO as int
        } else if self.compression_ratio > RATIO_ONE {
            RATIO_ONE as int
        } else {
            self.compression_ratio as int
        }
    }

    /// Number of lines that a round aims to keep out of `line_count`.
    pub open spec fn keep_count(self, line_count: int) -> int {
        at_least_one(line_count * self.target_ratio() / 1000)
    }

    /// Settings with the given budget.
    pub fn new(max_tokens: usize) -> (c: ContextFoldConfig)
        ensures
            c == ContextFoldConfig::spec_new(max_tokens),
    {
        ContextFoldConfig { max_tokens, compression_ratio: 700, aggressive: false, max_iterations: 3 }
    }

    /// Sets the ratio, in thousandths; values above one are lowered to one.
    pub fn with_compression_ratio(self, ratio: u32) -> (c: ContextFoldConfig)
        ensures
            c == (ContextFoldConfig {
                compression_ratio: if ratio > RATIO_ONE {
                    RATIO_ONE
                } else {
                    ratio
                },
                ..self
            }),
    {
        let mut c = self;
        c.compression_ratio = if ratio > RATIO_ONE {
            RATIO_ONE
        } else {
            ratio
        };
        c
    }

    /// Turns aggressive folding on.
    pub fn with_aggressive_folding(self) -> (c: ContextFoldConfig)
        ensures
            c == (ContextFoldConfig { aggressive: true, ..self }),
    {
        let mut c = self;
        c.aggressive = true;
        c
    }
}

impl Default for ContextFoldConfig {
    fn default() -> (c: ContextFoldConfig)
        ensures
            c == ContextFoldConfig::spec_new(100_000),
    {
        ContextFoldConfig::new(100_000)
    }
}

/// What the last fold did.
#[derive(Debug, Clone, Copy)]
pub struct FoldingStats {
    /// Token estimate of the input.
    pub original_tokens: usize,
    /// Token estimate of the output.
    pub compressed_tokens: usize,
    /// Rounds that were run.
    pub iterations: usize,
    /// Time spent, in milliseconds.
    pub fold_time_ms: u64,
    /// Output estimate over input estimate, in thousandths.
    pub compression_ratio: u64,
}

/// `compressed` over `original` in thousandths, rounded down; a whole when
/// `original` is zero.
pub open spec fn ratio_of(compressed: int, original: int) -> int {
    if original == 0 {
        1000
    } else {
        compressed * 1000 / original
    }
}

/// `n` capped at the largest `u64`.
pub open spec fn capped_u64(n: int) -> u64 {
    if n > u64::MAX {
        u64::MAX
    } else {
        n as u64
    }
}

impl FoldingStats {
    /// Statistics before any fold.
    pub open spec fn spec_default() -> FoldingStats {
        FoldingStats {
            original_tokens: 0,
            compressed_tokens: 0,
            iterations: 0,
            fold_time_ms: 0,
            compression_ratio: 0,
        }
    }

    /// The ratio that the two estimates give, in thousandths.
    pub fn actual_ratio(&self) -> (r: u64)
        ensures
            r == capped_u64(ratio_of(self.compressed_tokens as int, self.original_tokens as int)),
    {
        if self.original_tokens == 0 {
            1000
        } else {
            let scaled: u128 = (self.compressed_tokens as u128) * 1000;
            let q: u128 = scaled / (self.original_tokens as u128);
            if q > u64::MAX as u128 {
                u64::MAX
            } else {
                q as u64
            }
        }
    }
}

impl Default for FoldingStats {
    fn default() -> (s: FoldingStats)
        ensures
            s == FoldingStats::spec_default(),
    {
        FoldingStats {
            original_tokens: 0,
            compressed_tokens: 0,
            iterations: 0,
            fold_time_ms: 0,
            compression_ratio: 0,
        }
    }
}

/// Heuristic token estimate: words plus half of the ASCII punctuation.
pub open spec fn token_estimate(text: Seq<char>) -> nat {
    word_count(text) + punct_count(text) / 2
}

/// The estimate never exceeds the number of characters.
pub proof fn lemma_token_estimate_bound(text: Seq<char>)
    ensures
        token_estimate(text) <= text.len(),
{
    lemma_word_count_half(text);
    lemma_punct_count_bound(text);
    assert(2 * word_count(text) <= text.len() + 1);
}

/// Output of round number `round` on `text`.
pub open spec fn round_output(cfg: ContextFoldConfig, text: Seq<char>, round: int) -> Seq<char> {
    let lines = lines_of(text);
    if lines.len() == 0 {
        text
    } else {
        let keep = cfg.keep_count(lines.len() as int);
        if round == 0 {
            join_lines(pick(lines, importance_selection(lines.len() as int, keep)))
        } else if round == 1 {
            join_lines(pick(lines, sampling_selection(lines.len() as int, keep)))
        } else {
            summary_line(lines)
        }
    }
}

/// Result of folding `text` from round `round` on: rounds run while the
/// estimate exceeds the budget and rounds are left; `None` as soon as a
/// round leaves nothing.
pub open spec fn fold_from(cfg: ContextFoldConfig, text: Seq<char>, round: int) -> Option<
    Seq<char>,
>
    decreases cfg.max_iterations - round,
{
    if round < 0 || round >= cfg.max_iterations || token_estimate(text) <= cfg.max_tokens {
        Some(text)
    } else {
        let next = round_output(cfg, text, round);
        if next.len() == 0 {
            None
        } else {
            fold_from(cfg, next, round + 1)
        }
    }
}

/// Number of rounds that folding `text` from round `round` on runs.
pub open spec fn rounds_from(cfg: ContextFoldConfig, text: Seq<char>, round: int) -> int
    decreases cfg.max_iterations - round,
{
    if round < 0 || round >= cfg.max_iterations || token_estimate(text) <= cfg.max_tokens {
        round
    } else {
        let next = round_output(cfg, text, round);
        if next.len() == 0 {
            round + 1
        } else {
            rounds_from(cfg, next, round + 1)
        }
    }
}

/// The views of a list of string slices.
pub open spec fn str_views(lines: Seq<&str>) -> Seq<Seq<char>> {
    Seq::new(lines.len(), |i: int| lines[i]@)
}

fn lines_to_chars(lines: &[&str]) -> (out: Vec<Vec<char>>)
    ensures
        views(out@) == str_views(lines@),
        out@.len() == lines@.len(),
{
    let mut out: Vec<Vec<char>> = Vec::new();
    let mut i: usize = 0;
    while i < lines.len()
        invariant
            i <= lines.len(),
            out@.len() == i,
            forall|k: int| 0 <= k < i ==> out@[k]@ == lines@[k]@,
        decreases lines.len() - i,
    {
        out.push(to_chars(lines[i]));
        i += 1;
    }
    proof {
        assert(views(out@) =~= str_views(lines@));
    }
    out
}

fn summarize(lines: &Vec<Vec<char>>) -> (out: Vec<char>)
    requires
        lines@.len() > 0,
    ensures
        out@ == summary_line(views(lines@)),
{
    let mut out = to_chars("[SUMMARY: ");
    push_decimal(&mut out, lines.len() as u64);
    let tail = to_chars(" lines compressed to summary] ");
    extend_chars(&mut out, tail.as_slice());
    extend_chars(&mut out, lines[0].as_slice());
    proof {
        assert(out@ =~= summary_line(views(lines@)));
    }
    out
}

/// Compresses transcripts that exceed a token budget and records what the
/// last fold did.
#[derive(Debug, Clone, Copy)]
pub struct ContextFolder {
    config: ContextFoldConfig,
    stats: FoldingStats,
}

impl ContextFolder {
    /// The settings of the folder.
    pub closed spec fn settings(&self) -> ContextFoldConfig {
        self.config
    }

    /// The statistics of the last fold.
    pub closed spec fn recorded(&self) -> FoldingStats {
        self.stats
    }

    /// A folder with fresh statistics.
    pub fn new(config: ContextFoldConfig) -> (f: ContextFolder)
        ensures
            f.settings() == config,
            f.recorded() == FoldingStats::spec_default(),
    {
        ContextFolder {
            config,
            stats: FoldingStats {
                original_tokens: 0,
                compressed_tokens: 0,
                iterations: 0,
                fold_time_ms: 0,
                compression_ratio: 0,
            },
        }
    }

    fn estimate_chars(text: &[char]) -> (n: usize)
        ensures
            n == token_estimate(text@),
    {
        proof {
            lemma_word_count_half(text@);
            lemma_punct_count_bound(text@);
        }
        let words = count_words(text);
        let punctuation = count_punct(text);
        let len = text.len();
        assert(2 * words <= len + 1);
        assert(words + punctuation / 2 <= len);
        words + punctuation / 2
    }

    /// Estimates the tokens of `text`.
    pub fn estimate_tokens(text: &str) -> (n: usize)
        ensures
            n == token_estimate(text@),
    {
        let chars = to_chars(text);
        Self::estimate_chars(chars.as_slice())
    }

    /// Whether `text` exceeds the budget.
    pub fn should_fold(&self, text: &str) -> (b: bool)
        ensures
            b == (token_estimate(text@) > self.settings().max_tokens),
    {
        Self::estimate_tokens(text) > self.config.max_tokens
    }

    /// Importance strategy: keeps a head, a sampled middle and a tail of
    /// `lines`, `keep_count` lines in all where there are as many.
    pub fn compress_by_importance(&self, lines: &[&str], keep_count: usize) -> (out: String)
        ensures
            out@ == join_lines(
                pick(
                    str_views(lines@),
                    importance_selection(lines@.len() as int, keep_count as int),
                ),
            ),
    {
        let owned = lines_to_chars(lines);
        let sel = select_by_importance(owned.len(), keep_count);
        let joined = join_selected(&owned, &sel);
        from_chars(joined.as_slice())
    }

    /// Uniform sampling: keeps every `lines.len() / keep_count`-th line, at
    /// most `keep_count` of them.
    pub fn compress_by_sampling(&self, lines: &[&str], keep_count: usize) -> (out: String)
        requires
            keep_count > 0,
        ensures
            out@ == join_lines(
                pick(
                    str_views(lines@),
                    sampling_selection(lines@.len() as int, keep_count as int),
                ),
            ),
    {
        let owned = lines_to_chars(lines);
        let sel = select_by_sampling(owned.len(), keep_count);
        let joined = join_selected(&owned, &sel);
        from_chars(joined.as_slice())
    }

    /// Summary strategy: one line that names the number of lines and repeats
    /// the first; the empty text for no lines.
    pub fn compress_by_summary(&self, lines: &[&str], _keep_count: usize) -> (out: String)
        ensures
            out@ == if lines@.len() == 0 {
                Seq::<char>::empty()
            } else {
                summary_line(str_views(lines@))
            },
    {
        if lines.len() == 0 {
            return String::new();
        }
        let owned = lines_to_chars(lines);
        let line = summarize(&owned);
        from_chars(line.as_slice())
    }

    fn keep_for(&self, line_count: usize) -> (keep: usize)
        ensures
            keep == self.config.keep_count(line_count as int),
            1 <= keep,
    {
        let ratio: u32 = if self.config.aggressive {
            AGGRESSIVE_RATIO
        } else if self.config.compression_ratio > RATIO_ONE {
            RATIO_ONE
        } else {
            self.config.compression_ratio
        };
        assert(line_count * ratio <= usize::MAX * 1000) by (nonlinear_arith)
            requires
                line_count <= usize::MAX,
                ratio <= 1000,
        ;
        let scaled: u128 = (line_count as u128) * (ratio as u128);
        let kept: u128 = scaled / 1000;
        assert(kept <= line_count) by (nonlinear_arith)
            requires
                kept == scaled / 1000,
                scaled == line_count * ratio,
                ratio <= 1000,
        ;
        let keep = kept as usize;
        if keep < 1 {
            1
        } else {
            keep
        }
    }

    fn compress_round(&self, text: &Vec<char>, round: usize) -> (out: Vec<char>)
        ensures
            out@ == round_output(self.config, text@, round as int),
    {
        let lines = split_lines(text.as_slice());
        if lines.len() == 0 {
            return text.clone();
        }
        let keep = self.keep_for(lines.len());
        if round == 0 {
            let sel = select_by_importance(lines.len(), keep);
            join_selected(&lines, &sel)
        } else if round == 1 {
            let sel = select_by_sampling(lines.len(), keep);
            join_selected(&lines, &sel)
        } else {
            summarize(&lines)
        }
    }

    /// One round of compression: round 0 keeps lines by importance, round 1
    /// samples them uniformly, later rounds summarize.
    pub fn compress_iteration(&self, context: &str, iteration: usize) -> (out: String)
        ensures
            out@ == round_output(self.settings(), context@, iteration as int),
    {
        let text = to_chars(context);
        let next = self.compress_round(&text, iteration);
        from_chars(next.as_slice())
    }

    /// Folds `context` to the budget.
    ///
    /// A text within the budget comes back unchanged and leaves the
    /// statistics alone. Otherwise rounds run while the estimate exceeds the
    /// budget, at most `max_iterations` of them, and the statistics record
    /// the fold. A round that leaves nothing fails the fold.
    pub fn fold(&mut self, context: &str) -> (r: RLMResult<String>)
        ensures
            final(self).settings() == old(self).settings(),
            match r {
                Ok(s) => fold_from(old(self).settings(), context@, 0) == Some(s@),
                Err(e) => {
                    &&& fold_from(old(self).settings(), context@, 0) is None
                    &&& e is ContextFoldingFailed
                    &&& e.detail() == "Context folding resulted in empty content"@
                },
            },
            token_estimate(context@) <= old(self).settings().max_tokens ==> final(self).recorded()
                == old(self).recorded(),
            token_estimate(context@) > old(self).settings().max_tokens ==> {
                &&& final(self).recorded().original_tokens == token_estimate(context@)
                &&& final(self).recorded().iterations == rounds_from(
                    old(self).settings(),
                    context@,
                    0,
                )
            },
            r is Err ==> {
                &&& final(self).recorded().compressed_tokens == old(self).recorded().compressed_tokens
                &&& final(self).recorded().compression_ratio == old(
                    self,
                ).recorded().compression_ratio
                &&& final(self).recorded().fold_time_ms == old(self).recorded().fold_time_ms
            },
            token_estimate(context@) > old(self).settings().max_tokens && r is Ok ==> {
                &&& final(self).recorded().compressed_tokens == token_estimate(r->Ok_0@)
                &&& final(self).recorded().compression_ratio == capped_u64(
                    ratio_of(
                        token_estimate(r->Ok_0@) as int,
                        token_estimate(context@) as int,
                    ),
                )
            },
    {
        let start = Instant::now();
        let mut current = to_chars(context);
        let original_tokens = Self::estimate_chars(current.as_slice());
        if original_tokens <= self.config.max_tokens {
            return Ok(String::from_str(context));
        }
        proof {
            lemma_token_estimate_bound(context@);
        }
        self.stats.original_tokens = original_tokens;
        self.stats.iterations = 0;
        let mut round: usize = 0;
        while round < self.config.max_iterations && Self::estimate_chars(current.as_slice())
            > self.config.max_tokens
            invariant
                self.config == old(self).config,
                round <= self.config.max_iterations,
                current@.len() > 0,
                fold_from(self.config, current@, round as int) == fold_from(
                    self.config,
                    context@,
                    0,
                ),
                rounds_from(self.config, current@, round as int) == rounds_from(
                    self.config,
                    context@,
                    0,
                ),
                self.stats.original_tokens == token_estimate(context@),
                self.stats.iterations == round,
                self.stats.compressed_tokens == old(self).stats.compressed_tokens,
                self.stats.compression_ratio == old(self).stats.compression_ratio,
                self.stats.fold_time_ms == old(self).stats.fold_time_ms,
            decreases self.config.max_iterations - round,
        {
            current = self.compress_round(&current, round);
            round += 1;
            self.stats.iterations = round;
            if current.len() == 0 {
                return Err(
                    RLMError::context_folding("Context folding resulted in empty content"),
                );
            }
        }
        let compressed_tokens = Self::estimate_chars(current.as_slice());
        self.stats.compressed_tokens = compressed_tokens;
        self.stats.fold_time_ms = elapsed_millis(&start);
        self.stats.compression_ratio = self.stats.actual_ratio();
        Ok(from_chars(current.as_slice()))
    }

    /// The statistics of the last fold.
    pub fn stats(&self) -> (s: FoldingStats)
        ensures
            s == self.recorded(),
    {
        self.stats
    }

    /// Clears the statistics.
    pub fn reset_stats(&mut self)
        ensures
            final(self).settings() == old(self).settings(),
            final(self).recorded() == FoldingStats::spec_default(),
    {
        self.stats = FoldingStats {
            original_tokens: 0,
            compressed_tokens: 0,
            iterations: 0,
            fold_time_ms: 0,
            compression_ratio: 0,
        };
    }
}

/// Folding a text that is within the budget gives the text back.
pub proof fn lemma_fold_small_unchanged(cfg: ContextFoldConfig, text: Seq<char>)
    requires
        token_estimate(text) <= cfg.max_tokens,
    ensures
        fold_from(cfg, text, 0) == Some(text),
{
}

/// A fold of a non-empty text never yields the empty text: it yields a
/// non-empty one or fails.
pub proof fn lemma_fold_never_empty(cfg: ContextFoldConfig, text: Seq<char>, round: int)
    requires
        text.len() > 0,
    ensures
        fold_from(cfg, text, round) matches Some(s) ==> s.len() > 0,
    decreases cfg.max_iterations - round,
{
    if round < 0 || round >= cfg.max_iterations || token_estimate(text) <= cfg.max_tokens {
    } else {
        let next = round_output(cfg, text, round);
        if next.len() > 0 {
            lemma_fold_never_empty(cfg, next, round + 1);
        }
    }
}

/// A fold runs at most `max_iterations` rounds.
pub proof fn lemma_rounds_bounded(cfg: ContextFoldConfig, text: Seq<char>, round: int)
    requires
        0 <= round <= cfg.max_iterations,
    ensures
        round <= rounds_from(cfg, text, round) <= cfg.max_iterations,
    decreases cfg.max_iterations - round,
{
    if round >= cfg.max_iterations || token_estimate(text) <= cfg.max_tokens {
    } else {
        let next = round_output(cfg, text, round);
        if next.len() > 0 {
            lemma_rounds_bounded(cfg, next, round + 1);
        }
    }
}

} // verus!
