//! Cost-aware scheduling: a bounded priority queue of tasks, a bounded pool
//! of agents ranked by load, latency and cost, and rolling statistics.
//!
//! Fractions (weights, load, cost) are stored in thousandths.

use crate::error::{RLMError, RLMResult};
use crate::text::{
    from_chars, holds_text, list_holds, push_thousandths, thousandths_text, to_chars,
};
use std::collections::VecDeque;
use vstd::prelude::*;
use vstd::string::StringExecFns;

verus! {

/// A whole weight, load or cost unit, in thousandths.
pub const WEIGHT_ONE: i64 = 1000;

/// Tolerance of the sum of the weights around one, in thousandths.
pub const WEIGHT_TOLERANCE: i64 = 10;

/// Samples kept in each rolling window.
pub const WINDOW_CAP: usize = 1000;

/// Settings of a scheduler.
#[derive(Debug, Clone, Copy)]
pub struct SchedulerConfig {
    /// Capacity of the agent pool.
    pub max_concurrent: usize,
    /// Capacity of the task queue.
    pub queue_size: usize,
    /// Weight of the cost score, in thousandths.
    pub cost_weight: i64,
    /// Weight of the latency score, in thousandths.
    pub latency_weight: i64,
    /// Weight of the load score, in thousandths.
    pub load_weight: i64,
}

impl SchedulerConfig {
    /// The default settings: ten agents, a hundred tasks, weights 0.4, 0.35
    /// and 0.25.
    pub open spec fn spec_default() -> SchedulerConfig {
        SchedulerConfig {
            max_concurrent: 10,
            queue_size: 100,
            cost_weight: 400,
            latency_weight: 350,
            load_weight: 250,
        }
    }

    /// Sum of the three weights.
    pub open spec fn weight_sum(self) -> int {
        self.cost_weight + self.latency_weight + self.load_weight
    }

    /// The first rule that the settings break, if any: capacities are
    /// positive, each weight lies in `[0, 1]`, and the weights sum to one
    /// within the tolerance.
    pub open spec fn violation(self) -> Option<Seq<char>> {
        if self.max_concurrent == 0 {
            Some("max_concurrent must be > 0"@)
        } else if self.queue_size == 0 {
            Some("queue_size must be > 0"@)
        } else if self.cost_weight < 0 || self.cost_weight > WEIGHT_ONE {
            Some("cost_weight must be between 0.0 and 1.0"@)
        } else if self.latency_weight < 0 || self.latency_weight > WEIGHT_ONE {
            Some("latency_weight must be between 0.0 and 1.0"@)
        } else if self.load_weight < 0 || self.load_weight > WEIGHT_ONE {
            Some("load_weight must be between 0.0 and 1.0"@)
        } else if self.weight_sum() - WEIGHT_ONE > WEIGHT_TOLERANCE || WEIGHT_ONE
            - self.weight_sum() > WEIGHT_TOLERANCE {
            Some("Weights should sum to 1.0, got "@ + thousandths_text(self.weight_sum() as nat))
        } else {
            None
        }
    }

    /// The settings break no rule.
    pub open spec fn is_valid(self) -> bool {
        self.violation() is None
    }

    /// Checks the settings; the error names the first rule that is broken.
    pub fn validate(&self) -> (r: Result<(), String>)
        ensures
            match r {
                Ok(_) => self.violation() is None,
                Err(m) => self.violation() == Some(m@),
            },
    {
        if self.max_concurrent == 0 {
            return Err(String::from_str("max_concurrent must be > 0"));
        }
        if self.queue_size == 0 {
            return Err(String::from_str("queue_size must be > 0"));
        }
        if self.cost_weight < 0 || self.cost_weight > WEIGHT_ONE {
            return Err(String::from_str("cost_weight must be between 0.0 and 1.0"));
        }
        if self.latency_weight < 0 || self.latency_weight > WEIGHT_ONE {
            return Err(String::from_str("latency_weight must be between 0.0 and 1.0"));
        }
        if self.load_weight < 0 || self.load_weight > WEIGHT_ONE {
            return Err(String::from_str("load_weight must be between 0.0 and 1.0"));
        }
        let sum: i64 = self.cost_weight + self.latency_weight + self.load_weight;
        if sum - WEIGHT_ONE > WEIGHT_TOLERANCE || WEIGHT_ONE - sum > WEIGHT_TOLERANCE {
            let mut out = to_chars("Weights should sum to 1.0, got ");
            push_thousandths(&mut out, sum as u64);
            return Err(from_chars(out.as_slice()));
        }
        Ok(())
    }
}

impl Default for SchedulerConfig {
    fn default() -> (c: SchedulerConfig)
        ensures
            c == SchedulerConfig::spec_default(),
    {
        SchedulerConfig {
            max_concurrent: 10,
            queue_size: 100,
            cost_weight: 400,
            latency_weight: 350,
            load_weight: 250,
        }
    }
}

/// The default settings are valid.
pub proof fn lemma_default_config_valid()
    ensures
        SchedulerConfig::spec_default().is_valid(),
{
}

/// Settings pass validation exactly when the capacities are positive, each
/// weight lies in `[0, 1]` and the weights sum to one within the tolerance.
pub proof fn lemma_valid_config(c: SchedulerConfig)
    ensures
        c.is_valid() <==> {
            &&& c.max_concurrent > 0
            &&& c.queue_size > 0
            &&& 0 <= c.cost_weight <= WEIGHT_ONE
            &&& 0 <= c.latency_weight <= WEIGHT_ONE
            &&& 0 <= c.load_weight <= WEIGHT_ONE
            &&& WEIGHT_ONE - WEIGHT_TOLERANCE <= c.weight_sum() <= WEIGHT_ONE + WEIGHT_TOLERANCE
        },
{
}

/// A task waiting to be scheduled.
#[derive(Debug, Clone)]
pub struct ScheduledTask {
    /// Task identifier.
    pub id: String,
    /// Priority; higher is served first.
    pub priority: i32,
    /// Estimated cost, in thousandths.
    pub cost: u64,
    /// Estimated latency in milliseconds.
    pub latency_ms: u64,
    /// Capabilities that the agent must offer.
    pub required_capabilities: Vec<String>,
}

/// What is known of an agent.
#[derive(Debug, Clone)]
pub struct AgentStatus {
    /// Agent identifier.
    pub id: String,
    /// Current load, in thousandths; values outside `[0, 1]` are clamped
    /// when scoring.
    pub load: i64,
    /// Mean response time in milliseconds.
    pub avg_latency_ms: u64,
    /// Capabilities on offer.
    pub capabilities: Vec<String>,
    /// Cost per operation, in thousandths.
    pub cost_per_op: i64,
    /// Whether the agent takes tasks.
    pub available: bool,
}

/// Cumulative counters and rolling means.
#[derive(Debug, Clone, Copy)]
pub struct SchedulingStats {
    /// Completions recorded.
    pub total_tasks: u64,
    /// Successful completions.
    pub completed_tasks: u64,
    /// Failed completions.
    pub failed_tasks: u64,
    /// Mean wait over the window, in microseconds.
    pub avg_wait_time_us: u64,
    /// Mean execution time over the window, in microseconds.
    pub avg_execution_time_us: u64,
    /// Cost incurred, in thousandths.
    pub total_cost: u64,
}

impl SchedulingStats {
    /// Statistics with nothing recorded.
    pub open spec fn spec_default() -> SchedulingStats {
        SchedulingStats {
            total_tasks: 0,
            completed_tasks: 0,
            failed_tasks: 0,
            avg_wait_time_us: 0,
            avg_execution_time_us: 0,
            total_cost: 0,
        }
    }
}

impl Default for SchedulingStats {
    fn default() -> (s: SchedulingStats)
        ensures
            s == SchedulingStats::spec_default(),
    {
        SchedulingStats {
            total_tasks: 0,
            completed_tasks: 0,
            failed_tasks: 0,
            avg_wait_time_us: 0,
            avg_execution_time_us: 0,
            total_cost: 0,
        }
    }
}

/// `caps` holds a capability with the text of `cap`.
pub open spec fn offers(caps: Seq<String>, cap: String) -> bool {
    holds_text(caps, cap@)
}

/// `caps` holds every capability of `required`.
pub open spec fn covers(caps: Seq<String>, required: Seq<String>) -> bool {
    forall|i: int| 0 <= i < required.len() ==> offers(caps, #[trigger] required[i])
}

/// `agent` may take `task`: it is available and offers what the task needs.
pub open spec fn eligible(agent: AgentStatus, task: ScheduledTask) -> bool {
    agent.available && covers(agent.capabilities@, task.required_capabilities@)
}

/// Load score in thousandths: one minus the load clamped to `[0, 1]`.
pub open spec fn load_score(load: int) -> int {
    if load < 0 {
        1000
    } else if load > 1000 {
        0
    } else {
        1000 - load
    }
}

/// Denominator of the latency term: `1 + latency / 100 ms`, in hundredths.
pub open spec fn latency_span(latency_ms: int) -> int {
    100 + latency_ms
}

/// Denominator of the cost term: `1 + cost` in thousandths for a positive
/// cost, one for a free operation.
pub open spec fn cost_span(cost: int) -> int {
    if cost > 0 {
        1000 + cost
    } else {
        1
    }
}

/// The part of the score, in millionths, that is a whole number: the load
/// term, and the cost term of a free operation.
pub open spec fn score_whole(cfg: SchedulerConfig, agent: AgentStatus) -> int {
    load_score(agent.load as int) * cfg.load_weight + if agent.cost_per_op > 0 {
        0
    } else {
        1000 * cfg.cost_weight
    }
}

/// Denominator of the score as a fraction.
pub open spec fn score_den(agent: AgentStatus) -> int {
    latency_span(agent.avg_latency_ms as int) * cost_span(agent.cost_per_op as int)
}

/// Numerator of the score as a fraction. The score
///
/// `load_score * load_weight + latency_weight / (1 + latency / 100)
///  + cost_weight * (cost > 0 ? 1 / (1 + cost) : 1)`
///
/// is, in millionths, exactly `score_num / score_den`.
pub open spec fn score_num(cfg: SchedulerConfig, agent: AgentStatus) -> int {
    score_whole(cfg, agent) * score_den(agent) + 100_000 * cfg.latency_weight * cost_span(
        agent.cost_per_op as int,
    ) + if agent.cost_per_op > 0 {
        1_000_000 * cfg.cost_weight * latency_span(agent.avg_latency_ms as int)
    } else {
        0
    }
}

/// `a` scores strictly higher than `b`: the two fractions compared exactly.
pub open spec fn scores_higher(cfg: SchedulerConfig, a: AgentStatus, b: AgentStatus) -> bool {
    score_num(cfg, a) * score_den(b) > score_num(cfg, b) * score_den(a)
}

/// Composite score of an agent in millionths, rounded down.
pub open spec fn agent_score(cfg: SchedulerConfig, agent: AgentStatus) -> int {
    score_num(cfg, agent) / score_den(agent)
}

/// The denominator of a score is positive.
pub proof fn lemma_score_den_positive(agent: AgentStatus)
    ensures
        score_den(agent) > 0,
{
    let p = latency_span(agent.avg_latency_ms as int);
    let q = cost_span(agent.cost_per_op as int);
    assert(p * q > 0) by (nonlinear_arith)
        requires
            p >= 100,
            q >= 1,
    ;
}

/// Scoring higher is transitive over ties: if `a` scores higher than `b`
/// and `c` does not score higher than `b`, then `a` scores higher than `c`.
pub proof fn lemma_scores_higher_chain(
    cfg: SchedulerConfig,
    a: AgentStatus,
    b: AgentStatus,
    c: AgentStatus,
)
    requires
        scores_higher(cfg, a, b),
        !scores_higher(cfg, c, b),
    ensures
        scores_higher(cfg, a, c),
        !scores_higher(cfg, c, a),
{
    lemma_score_den_positive(a);
    lemma_score_den_positive(b);
    lemma_score_den_positive(c);
    let na = score_num(cfg, a);
    let nb = score_num(cfg, b);
    let nc = score_num(cfg, c);
    let da = score_den(a);
    let db = score_den(b);
    let dc = score_den(c);
    assert(na * dc > nc * da) by (nonlinear_arith)
        requires
            na * db > nb * da,
            nc * db <= nb * dc,
            da > 0,
            db > 0,
            dc > 0,
    {
        assert((na * db) * dc > (nb * da) * dc);
        assert((nc * db) * da <= (nb * dc) * da);
        assert((na * dc) * db > (nc * da) * db);
    }
}

/// Index of the agent chosen among the first `n` of `pool`: the eligible one
/// with the highest score, the earliest on a tie; `-1` if none is eligible.
pub open spec fn chosen_agent(
    cfg: SchedulerConfig,
    pool: Seq<AgentStatus>,
    task: ScheduledTask,
    n: int,
) -> int
    decreases n,
{
    if n <= 0 {
        -1
    } else {
        let prev = chosen_agent(cfg, pool, task, n - 1);
        if eligible(pool[n - 1], task) && (prev < 0 || scores_higher(
            cfg,
            pool[n - 1],
            pool[prev],
        )) {
            n - 1
        } else {
            prev
        }
    }
}

/// The chosen agent is eligible, no eligible agent scores higher, and the
/// chosen agent scores higher than every eligible agent before it; none is
/// chosen only if none is eligible.
pub proof fn lemma_chosen_agent(
    cfg: SchedulerConfig,
    pool: Seq<AgentStatus>,
    task: ScheduledTask,
    n: int,
)
    requires
        0 <= n <= pool.len(),
    ensures
        ({
            let c = chosen_agent(cfg, pool, task, n);
            &&& -1 <= c < n
            &&& c < 0 ==> forall|j: int| 0 <= j < n ==> !eligible(#[trigger] pool[j], task)
            &&& c >= 0 ==> {
                &&& eligible(pool[c], task)
                &&& forall|j: int|
                    0 <= j < n && eligible(#[trigger] pool[j], task) ==> !scores_higher(
                        cfg,
                        pool[j],
                        pool[c],
                    )
                &&& forall|j: int|
                    0 <= j < c && eligible(#[trigger] pool[j], task) ==> scores_higher(
                        cfg,
                        pool[c],
                        pool[j],
                    )
            }
        }),
    decreases n,
{
    if n > 0 {
        lemma_chosen_agent(cfg, pool, task, n - 1);
        let prev = chosen_agent(cfg, pool, task, n - 1);
        let c = chosen_agent(cfg, pool, task, n);
        if c == n - 1 && prev >= 0 {
            assert forall|j: int| 0 <= j < n && eligible(#[trigger] pool[j], task) implies !scores_higher(
                cfg,
                pool[j],
                pool[c],
            ) by {
                if j < n - 1 {
                    lemma_scores_higher_chain(cfg, pool[c], pool[prev], pool[j]);
                }
            }
            assert forall|j: int| 0 <= j < c && eligible(#[trigger] pool[j], task) implies scores_higher(
                cfg,
                pool[c],
                pool[j],
            ) by {
                lemma_scores_higher_chain(cfg, pool[c], pool[prev], pool[j]);
            }
        }
    }
}

/// Index of the task served next among the first `n` of `queue`: the one
/// with the highest priority, the earliest submitted on a tie; `-1` for none.
pub open spec fn next_index(queue: Seq<ScheduledTask>, n: int) -> int
    decreases n,
{
    if n <= 0 {
        -1
    } else {
        let prev = next_index(queue, n - 1);
        if prev < 0 || queue[n - 1].priority > queue[prev].priority {
            n - 1
        } else {
            prev
        }
    }
}

/// The task served next has the highest priority of the queue and is the
/// earliest of those that have it.
pub proof fn lemma_next_index(queue: Seq<ScheduledTask>, n: int)
    requires
        0 <= n <= queue.len(),
    ensures
        ({
            let c = next_index(queue, n);
            &&& n == 0 ==> c == -1
            &&& n > 0 ==> 0 <= c < n
            &&& n > 0 ==> forall|j: int|
                0 <= j < n ==> (#[trigger] queue[j]).priority <= queue[c].priority
            &&& n > 0 ==> forall|j: int|
                0 <= j < c ==> (#[trigger] queue[j]).priority < queue[c].priority
        }),
    decreases n,
{
    if n > 0 {
        lemma_next_index(queue, n - 1);
    }
}

/// Sum of the samples of a window.
pub open spec fn window_sum(w: Seq<u64>) -> nat
    decreases w.len(),
{
    if w.len() == 0 {
        0
    } else {
        window_sum(w.drop_last()) + w.last() as nat
    }
}

/// Mean of a window of millisecond samples, in microseconds, rounded down
/// and capped at the largest `u64`; zero for an empty window.
pub open spec fn window_mean_us(w: Seq<u64>) -> u64 {
    if w.len() == 0 {
        0
    } else {
        let mean = window_sum(w) * 1000 / w.len();
        if mean > u64::MAX {
            u64::MAX
        } else {
            mean as u64
        }
    }
}

/// The window after `sample` is added: the oldest sample leaves once more
/// than `WINDOW_CAP` are held.
pub open spec fn window_push(w: Seq<u64>, sample: u64) -> Seq<u64> {
    let grown = w.push(sample);
    if grown.len() > WINDOW_CAP {
        grown.drop_first()
    } else {
        grown
    }
}

/// `a + b` capped at the largest `u64`.
pub open spec fn sat_add(a: u64, b: u64) -> u64 {
    if a + b > u64::MAX {
        u64::MAX
    } else {
        (a + b) as u64
    }
}

proof fn lemma_window_sum_bound(w: Seq<u64>)
    ensures
        window_sum(w) <= w.len() * u64::MAX,
    decreases w.len(),
{
    if w.len() > 0 {
        lemma_window_sum_bound(w.drop_last());
        assert(w.drop_last().len() * u64::MAX + u64::MAX == w.len() * u64::MAX)
            by (nonlinear_arith)
            requires
                w.drop_last().len() + 1 == w.len(),
        ;
    }
}

fn mean_us(w: &VecDeque<u64>) -> (m: u64)
    requires
        w@.len() <= WINDOW_CAP + 1,
    ensures
        m == window_mean_us(w@),
{
    if w.len() == 0 {
        return 0;
    }
    let mut sum: u128 = 0;
    let mut i: usize = 0;
    while i < w.len()
        invariant
            i <= w@.len(),
            w@.len() <= WINDOW_CAP + 1,
            sum == window_sum(w@.take(i as int)),
            sum <= i * u64::MAX,
        decreases w@.len() - i,
    {
        proof {
            assert(w@.take(i + 1).drop_last() =~= w@.take(i as int));
            lemma_window_sum_bound(w@.take(i + 1));
            assert(i * u64::MAX + u64::MAX == (i + 1) * u64::MAX) by (nonlinear_arith);
            assert((i + 1) * u64::MAX <= 1001 * u64::MAX) by (nonlinear_arith)
                requires
                    i + 1 <= 1001,
            ;
        }
        sum = sum + w[i] as u128;
        i += 1;
    }
    proof {
        assert(w@.take(w@.len() as int) =~= w@);
        assert(sum * 1000 <= 1001 * u64::MAX * 1000) by (nonlinear_arith)
            requires
                sum <= i * u64::MAX,
                i <= 1001,
        ;
    }
    let mean: u128 = sum * 1000 / (w.len() as u128);
    if mean > u64::MAX as u128 {
        u64::MAX
    } else {
        mean as u64
    }
}

fn push_sample(w: &mut VecDeque<u64>, sample: u64)
    requires
        old(w)@.len() <= WINDOW_CAP,
    ensures
        final(w)@ == window_push(old(w)@, sample),
        final(w)@.len() <= WINDOW_CAP,
        final(w)@.len() > 0,
{
    w.push_back(sample);
    if w.len() > WINDOW_CAP {
        w.pop_front();
        proof {
            assert(w@ =~= old(w)@.push(sample).drop_first());
        }
    }
}

fn covers_all(caps: &Vec<String>, required: &Vec<String>) -> (b: bool)
    ensures
        b == covers(caps@, required@),
{
    let mut i: usize = 0;
    while i < required.len()
        invariant
            i <= required@.len(),
            forall|k: int| 0 <= k < i ==> offers(caps@, #[trigger] required@[k]),
        decreases required@.len() - i,
    {
        if !list_holds(caps, &required[i]) {
            return false;
        }
        i += 1;
    }
    true
}

/// A score as a whole number of millionths plus a proper fraction.
struct ScoreParts {
    whole: u128,
    num: u128,
    den: u128,
}

/// Splits the score of `agent` into its whole part and the fraction that is
/// left.
fn score_parts(cfg: &SchedulerConfig, agent: &AgentStatus) -> (parts: ScoreParts)
    requires
        cfg.is_valid(),
    ensures
        parts.den == score_den(*agent),
        parts.den > 0,
        parts.num < parts.den,
        parts.whole * parts.den + parts.num == score_num(*cfg, *agent),
        parts.whole <= 3_000_000,
{
    let load: u128 = if agent.load < 0 {
        1000
    } else if agent.load > 1000 {
        0
    } else {
        (1000 - agent.load) as u128
    };
    let load_weight: u128 = cfg.load_weight as u128;
    let latency_weight: u128 = cfg.latency_weight as u128;
    let cost_weight: u128 = cfg.cost_weight as u128;
    let free = agent.cost_per_op <= 0;
    let p: u128 = 100u128 + agent.avg_latency_ms as u128;
    let q: u128 = if free {
        1
    } else {
        1000u128 + agent.cost_per_op as u128
    };
    assert(load * load_weight <= 1_000_000) by (nonlinear_arith)
        requires
            load <= 1000,
            load_weight <= 1000,
    ;
    let fixed: u128 = load * load_weight + if free {
        1000 * cost_weight
    } else {
        0
    };
    let b: u128 = 100_000 * latency_weight;
    let c: u128 = if free {
        0
    } else {
        1_000_000 * cost_weight
    };
    assert(p * q <= 18446744073709551715 * 9223372036854776807) by (nonlinear_arith)
        requires
            p <= 18446744073709551715,
            q <= 9223372036854776807,
    ;
    let den: u128 = p * q;
    assert(den > 0) by (nonlinear_arith)
        requires
            den == p * q,
            p >= 100,
            q >= 1,
    ;
    assert(b * q <= 1_000_000 * den) by (nonlinear_arith)
        requires
            b <= 100_000_000,
            p >= 100,
            q >= 1,
            den == p * q,
    ;
    assert(c * p <= 1_000_000 * den) by (nonlinear_arith)
        requires
            free ==> c == 0,
            !free ==> c <= 1_000_000_000 && q >= 1000,
            p >= 100,
            q >= 1,
            den == p * q,
    ;
    assert(b * q <= 100_000_000 * 9223372036854776807) by (nonlinear_arith)
        requires
            b <= 100_000_000,
            q <= 9223372036854776807,
    ;
    assert(c * p <= 1_000_000_000 * 18446744073709551715) by (nonlinear_arith)
        requires
            c <= 1_000_000_000,
            p <= 18446744073709551715,
    ;
    let m: u128 = b * q + c * p;
    let k: u128 = m / den;
    let num: u128 = m % den;
    let most: u128 = if free {
        1_000_000
    } else {
        2_000_000
    };
    assert(k <= most && k * den + num == m) by (nonlinear_arith)
        requires
            k == m / den,
            num == m % den,
            den > 0,
            m <= most * den,
    ;
    let whole: u128 = fixed + k;
    proof {
        let sw = score_whole(*cfg, *agent);
        assert(sw == fixed);
        assert(score_den(*agent) == den);
        assert((fixed + k) * den + num == fixed * den + m) by (nonlinear_arith)
            requires
                k * den + num == m,
        ;
        assert(100_000 * cfg.latency_weight * cost_span(agent.cost_per_op as int) == b * q)
            by (nonlinear_arith)
            requires
                b == 100_000 * cfg.latency_weight,
                q == cost_span(agent.cost_per_op as int),
        ;
        if !free {
            assert(1_000_000 * cfg.cost_weight * latency_span(agent.avg_latency_ms as int) == c
                * p) by (nonlinear_arith)
                requires
                    c == 1_000_000 * cfg.cost_weight,
                    p == latency_span(agent.avg_latency_ms as int),
            ;
        }
    }
    ScoreParts { whole, num, den }
}

/// `n1 / d1 > n2 / d2`, decided without multiplying: whole parts first,
/// then the remainders turned upside down.
fn fraction_greater(n1: u128, d1: u128, n2: u128, d2: u128) -> (b: bool)
    requires
        d1 > 0,
        d2 > 0,
    ensures
        b == (n1 * d2 > n2 * d1),
    decreases d1 + d2,
{
    let q1 = n1 / d1;
    let q2 = n2 / d2;
    let r1 = n1 % d1;
    let r2 = n2 % d2;
    assert(n1 == q1 * d1 + r1 && n2 == q2 * d2 + r2) by (nonlinear_arith)
        requires
            q1 == n1 / d1,
            r1 == n1 % d1,
            q2 == n2 / d2,
            r2 == n2 % d2,
            d1 > 0,
            d2 > 0,
    ;
    if q1 > q2 {
        assert(n1 * d2 > n2 * d1) by (nonlinear_arith)
            requires
                n1 == q1 * d1 + r1,
                n2 == q2 * d2 + r2,
                q1 >= q2 + 1,
                r2 < d2,
                r1 >= 0,
                d1 > 0,
                d2 > 0,
        {
            assert(n1 * d2 >= (q2 + 1) * d1 * d2);
            assert(n2 * d1 < (q2 + 1) * d2 * d1);
        }
        true
    } else if q1 < q2 {
        assert(n1 * d2 < n2 * d1) by (nonlinear_arith)
            requires
                n1 == q1 * d1 + r1,
                n2 == q2 * d2 + r2,
                q2 >= q1 + 1,
                r1 < d1,
                r2 >= 0,
                d1 > 0,
                d2 > 0,
        {
            assert(n2 * d1 >= (q1 + 1) * d2 * d1);
            assert(n1 * d2 < (q1 + 1) * d1 * d2);
        }
        false
    } else {
        assert(n1 * d2 - n2 * d1 == r1 * d2 - r2 * d1) by (nonlinear_arith)
            requires
                n1 == q1 * d1 + r1,
                n2 == q1 * d2 + r2,
        ;
        if r1 == 0 {
            assert(r1 * d2 - r2 * d1 <= 0) by (nonlinear_arith)
                requires
                    r1 == 0,
                    r2 >= 0,
                    d1 > 0,
            ;
            false
        } else if r2 == 0 {
            assert(r1 * d2 - r2 * d1 > 0) by (nonlinear_arith)
                requires
                    r2 == 0,
                    r1 > 0,
                    d2 > 0,
            ;
            true
        } else {
            let swapped = fraction_greater(d2, r2, d1, r1);
            assert((d2 * r1 > d1 * r2) == (r1 * d2 - r2 * d1 > 0)) by (nonlinear_arith);
            swapped
        }
    }
}

/// Whether `a` scores strictly higher than `b` under `cfg`.
pub fn outranks(cfg: &SchedulerConfig, a: &AgentStatus, b: &AgentStatus) -> (higher: bool)
    requires
        cfg.is_valid(),
    ensures
        higher == scores_higher(*cfg, *a, *b),
{
    let x = score_parts(cfg, a);
    let y = score_parts(cfg, b);
    proof {
        let (wa, na, da) = (x.whole as int, x.num as int, x.den as int);
        let (wb, nb, db) = (y.whole as int, y.num as int, y.den as int);
        assert((wa * da + na) * db - (wb * db + nb) * da == (wa - wb) * (da * db) + (na * db - nb
            * da)) by (nonlinear_arith);
        assert(-(da * db) < na * db - nb * da < da * db) by (nonlinear_arith)
            requires
                0 <= na < da,
                0 <= nb < db,
        ;
        if wa > wb {
            assert((wa - wb) * (da * db) >= da * db) by (nonlinear_arith)
                requires
                    wa - wb >= 1,
                    da * db > 0,
            ;
        } else if wa < wb {
            assert((wa - wb) * (da * db) <= -(da * db)) by (nonlinear_arith)
                requires
                    wa - wb <= -1,
                    da * db > 0,
            ;
        } else {
            assert((wa - wb) * (da * db) == 0) by (nonlinear_arith)
                requires
                    wa == wb,
            ;
        }
    }
    if x.whole != y.whole {
        x.whole > y.whole
    } else {
        fraction_greater(x.num, x.den, y.num, y.den)
    }
}

/// Scores `agent` under `cfg`: the score in millionths, rounded down.
pub fn calculate_agent_score(cfg: &SchedulerConfig, agent: &AgentStatus) -> (score: i64)
    requires
        cfg.is_valid(),
    ensures
        score == agent_score(*cfg, *agent),
        0 <= score <= 3_000_000,
{
    let parts = score_parts(cfg, agent);
    assert((parts.whole * parts.den + parts.num) / (parts.den as int) == parts.whole)
        by (nonlinear_arith)
        requires
            0 <= parts.num < parts.den,
            parts.whole >= 0,
    ;
    parts.whole as i64
}

/// Schedules tasks onto agents.
#[derive(Debug)]
pub struct SmartScheduler {
    config: SchedulerConfig,
    task_queue: Vec<ScheduledTask>,
    agent_pool: Vec<AgentStatus>,
    stats: SchedulingStats,
    wait_times: VecDeque<u64>,
    execution_times: VecDeque<u64>,
}

impl SmartScheduler {
    /// The settings.
    pub closed spec fn settings(&self) -> SchedulerConfig {
        self.config
    }

    /// The pending tasks in order of submission.
    pub closed spec fn queue(&self) -> Seq<ScheduledTask> {
        self.task_queue@
    }

    /// The registered agents in order of registration.
    pub closed spec fn pool(&self) -> Seq<AgentStatus> {
        self.agent_pool@
    }

    /// The statistics.
    pub closed spec fn recorded(&self) -> SchedulingStats {
        self.stats
    }

    /// The window of wait times, oldest first.
    pub closed spec fn wait_window(&self) -> Seq<u64> {
        self.wait_times@
    }

    /// The window of execution times, oldest first.
    pub closed spec fn execution_window(&self) -> Seq<u64> {
        self.execution_times@
    }

    /// The settings are valid and every bounded structure is within its
    /// capacity.
    pub open spec fn wf(&self) -> bool {
        &&& self.settings().is_valid()
        &&& self.queue().len() <= self.settings().queue_size
        &&& self.pool().len() <= self.settings().max_concurrent
        &&& self.wait_window().len() <= WINDOW_CAP
        &&& self.execution_window().len() <= WINDOW_CAP
    }

    /// A scheduler with an empty queue and pool. Fails with a configuration
    /// error exactly when `config` does not pass validation.
    pub fn new(config: SchedulerConfig) -> (r: RLMResult<SmartScheduler>)
        ensures
            match r {
                Ok(s) => {
                    &&& config.is_valid()
                    &&& s.wf()
                    &&& s.settings() == config
                    &&& s.queue().len() == 0
                    &&& s.pool().len() == 0
                    &&& s.recorded() == SchedulingStats::spec_default()
                    &&& s.wait_window().len() == 0
                    &&& s.execution_window().len() == 0
                },
                Err(e) => {
                    &&& e is ConfigError
                    &&& config.violation() == Some(e.detail())
                },
            },
    {
        match config.validate() {
            Ok(_) => Ok(
                SmartScheduler {
                    config,
                    task_queue: Vec::new(),
                    agent_pool: Vec::new(),
                    stats: SchedulingStats {
                        total_tasks: 0,
                        completed_tasks: 0,
                        failed_tasks: 0,
                        avg_wait_time_us: 0,
                        avg_execution_time_us: 0,
                        total_cost: 0,
                    },
                    wait_times: VecDeque::new(),
                    execution_times: VecDeque::new(),
                },
            ),
            Err(msg) => Err(RLMError::config(msg.as_str())),
        }
    }

    /// Adds `agent` to the pool. Fails, and changes nothing, when the pool
    /// is full.
    pub fn register_agent(&mut self, agent: AgentStatus) -> (r: RLMResult<()>)
        requires
            old(self).wf(),
        ensures
            final(self).wf(),
            final(self).settings() == old(self).settings(),
            final(self).queue() == old(self).queue(),
            final(self).recorded() == old(self).recorded(),
            final(self).wait_window() == old(self).wait_window(),
            final(self).execution_window() == old(self).execution_window(),
            old(self).pool().len() < old(self).settings().max_concurrent ==> r is Ok && final(self).pool() == old(self).pool().push(agent),
            old(self).pool().len() >= old(self).settings().max_concurrent ==> {
                &&& r matches Err(RLMError::SchedulingFailed(m))
                &&& m@ == "Agent pool is full"@
                &&& final(self).pool() == old(self).pool()
            },
    {
        if self.agent_pool.len() >= self.config.max_concurrent {
            return Err(RLMError::SchedulingFailed(String::from_str("Agent pool is full")));
        }
        self.agent_pool.push(agent);
        Ok(())
    }

    /// Queues `task`. Fails, and changes nothing, when the queue is full.
    pub fn submit_task(&mut self, task: ScheduledTask) -> (r: RLMResult<()>)
        requires
            old(self).wf(),
        ensures
            final(self).wf(),
            final(self).settings() == old(self).settings(),
            final(self).pool() == old(self).pool(),
            final(self).recorded() == old(self).recorded(),
            final(self).wait_window() == old(self).wait_window(),
            final(self).execution_window() == old(self).execution_window(),
            old(self).queue().len() < old(self).settings().queue_size ==> r is Ok && final(self).queue() == old(self).queue().push(task),
            old(self).queue().len() >= old(self).settings().queue_size ==> {
                &&& r matches Err(RLMError::SchedulingFailed(m))
                &&& m@ == "Task queue is full"@
                &&& final(self).queue() == old(self).queue()
            },
    {
        if self.task_queue.len() >= self.config.queue_size {
            return Err(RLMError::SchedulingFailed(String::from_str("Task queue is full")));
        }
        self.task_queue.push(task);
        Ok(())
    }

    /// Takes the task with the highest priority out of the queue, the
    /// earliest submitted on a tie; `None` for an empty queue.
    pub fn next_task(&mut self) -> (t: Option<ScheduledTask>)
        requires
            old(self).wf(),
        ensures
            final(self).wf(),
            final(self).settings() == old(self).settings(),
            final(self).pool() == old(self).pool(),
            final(self).recorded() == old(self).recorded(),
            final(self).wait_window() == old(self).wait_window(),
            final(self).execution_window() == old(self).execution_window(),
            t is None <==> old(self).queue().len() == 0,
            t is None ==> final(self).queue() == old(self).queue(),
            t is Some ==> {
                let k = next_index(old(self).queue(), old(self).queue().len() as int);
                &&& 0 <= k < old(self).queue().len()
                &&& t->0 == old(self).queue()[k]
                &&& final(self).queue() == old(self).queue().remove(k)
            },
    {
        if self.task_queue.len() == 0 {
            return None;
        }
        let mut best: usize = 0;
        let mut i: usize = 1;
        proof {
            assert(next_index(self.task_queue@, 0) == -1);
            assert(next_index(self.task_queue@, 1) == 0);
        }
        while i < self.task_queue.len()
            invariant
                1 <= i <= self.task_queue@.len(),
                best < i,
                best == next_index(self.task_queue@, i as int),
            decreases self.task_queue@.len() - i,
        {
            if self.task_queue[i].priority > self.task_queue[best].priority {
                best = i;
            }
            i += 1;
        }
        Some(self.task_queue.remove(best))
    }

    /// The agent for `task`: among the available agents that offer every
    /// required capability, the one with the highest score, the earliest
    /// registered on a tie; `None` if no agent qualifies.
    pub fn select_agent_for_task(&self, task: &ScheduledTask) -> (a: Option<&AgentStatus>)
        requires
            self.wf(),
        ensures
            ({
                let k = chosen_agent(self.settings(), self.pool(), *task, self.pool().len() as int);
                &&& a is None <==> k < 0
                &&& a is Some ==> 0 <= k < self.pool().len() && *a->0 == self.pool()[k]
            }),
            a is None <==> forall|j: int|
                0 <= j < self.pool().len() ==> !eligible(#[trigger] self.pool()[j], *task),
            a is Some ==> eligible(*a->0, *task) && forall|j: int|
                0 <= j < self.pool().len() && eligible(#[trigger] self.pool()[j], *task)
                    ==> !scores_higher(self.settings(), self.pool()[j], *a->0),
    {
        proof {
            lemma_chosen_agent(self.config, self.agent_pool@, *task, self.agent_pool@.len() as int);
        }
        let mut best: Option<usize> = None;
        let mut i: usize = 0;
        while i < self.agent_pool.len()
            invariant
                i <= self.agent_pool@.len(),
                self.config.is_valid(),
                match best {
                    Some(b) => b < i && b == chosen_agent(
                        self.config,
                        self.agent_pool@,
                        *task,
                        i as int,
                    ),
                    None => chosen_agent(self.config, self.agent_pool@, *task, i as int) == -1,
                },
            decreases self.agent_pool@.len() - i,
        {
            let agent = &self.agent_pool[i];
            if agent.available && covers_all(&agent.capabilities, &task.required_capabilities) {
                let better = match best {
                    Some(b) => outranks(&self.config, agent, &self.agent_pool[b]),
                    None => true,
                };
                if better {
                    best = Some(i);
                }
            }
            i += 1;
        }
        match best {
            Some(b) => Some(&self.agent_pool[b]),
            None => None,
        }
    }

    /// Position of the first agent of `pool` with identifier `id`, or the
    /// length of the pool.
    pub open spec fn position_of(pool: Seq<AgentStatus>, id: Seq<char>) -> int
        decreases pool.len(),
    {
        if pool.len() == 0 {
            0
        } else if pool[0].id@ == id {
            0
        } else {
            1 + Self::position_of(pool.drop_first(), id)
        }
    }

    /// Replaces the status of the first agent registered under `id`. Fails,
    /// and changes nothing, when there is none.
    pub fn update_agent_status(&mut self, id: &str, status: AgentStatus) -> (r: RLMResult<()>)
        requires
            old(self).wf(),
        ensures
            final(self).wf(),
            final(self).settings() == old(self).settings(),
            final(self).queue() == old(self).queue(),
            final(self).recorded() == old(self).recorded(),
            final(self).wait_window() == old(self).wait_window(),
            final(self).execution_window() == old(self).execution_window(),
            ({
                let k = Self::position_of(old(self).pool(), id@);
                if k < old(self).pool().len() {
                    r is Ok && final(self).pool() == old(self).pool().update(k, status)
                } else {
                    &&& r matches Err(RLMError::SchedulingFailed(m))
                    &&& m@ == "Agent "@ + id@ + " not found"@
                    &&& final(self).pool() == old(self).pool()
                }
            }),
    {
        let wanted = String::from_str(id);
        let mut i: usize = 0;
        while i < self.agent_pool.len()
            invariant
                i <= self.agent_pool@.len(),
                wanted@ == id@,
                *self == *old(self),
                old(self).wf(),
                forall|k: int| 0 <= k < i ==> (#[trigger] self.agent_pool@[k]).id@ != id@,
            decreases self.agent_pool@.len() - i,
        {
            if self.agent_pool[i].id == wanted {
                proof {
                    lemma_agent_position(self.agent_pool@, id@, i as int);
                }
                self.agent_pool.set(i, status);
                return Ok(());
            }
            i += 1;
        }
        proof {
            lemma_agent_position(self.agent_pool@, id@, i as int);
        }
        let mut m = String::from_str("Agent ");
        m.append(id);
        m.append(" not found");
        Err(RLMError::SchedulingFailed(m))
    }

    /// Records a completion: counters grow (capped at the largest `u64`),
    /// both windows take their sample, and the means follow the windows.
    pub fn record_task_completion(
        &mut self,
        wait_time_ms: u64,
        execution_time_ms: u64,
        cost: u64,
        success: bool,
    )
        requires
            old(self).wf(),
        ensures
            final(self).wf(),
            final(self).settings() == old(self).settings(),
            final(self).queue() == old(self).queue(),
            final(self).pool() == old(self).pool(),
            final(self).wait_window() == window_push(old(self).wait_window(), wait_time_ms),
            final(self).execution_window() == window_push(
                old(self).execution_window(),
                execution_time_ms,
            ),
            final(self).recorded() == (SchedulingStats {
                total_tasks: sat_add(old(self).recorded().total_tasks, 1),
                completed_tasks: if success {
                    sat_add(old(self).recorded().completed_tasks, 1)
                } else {
                    old(self).recorded().completed_tasks
                },
                failed_tasks: if success {
                    old(self).recorded().failed_tasks
                } else {
                    sat_add(old(self).recorded().failed_tasks, 1)
                },
                avg_wait_time_us: window_mean_us(final(self).wait_window()),
                avg_execution_time_us: window_mean_us(final(self).execution_window()),
                total_cost: sat_add(old(self).recorded().total_cost, cost),
            }),
    {
        self.stats.total_tasks = self.stats.total_tasks.saturating_add(1);
        if success {
            self.stats.completed_tasks = self.stats.completed_tasks.saturating_add(1);
        } else {
            self.stats.failed_tasks = self.stats.failed_tasks.saturating_add(1);
        }
        self.stats.total_cost = self.stats.total_cost.saturating_add(cost);
        push_sample(&mut self.wait_times, wait_time_ms);
        push_sample(&mut self.execution_times, execution_time_ms);
        self.stats.avg_wait_time_us = mean_us(&self.wait_times);
        self.stats.avg_execution_time_us = mean_us(&self.execution_times);
    }

    /// The statistics.
    pub fn stats(&self) -> (s: SchedulingStats)
        ensures
            s == self.recorded(),
    {
        self.stats
    }

    /// Number of pending tasks.
    pub fn pending_tasks(&self) -> (n: usize)
        ensures
            n == self.queue().len(),
    {
        self.task_queue.len()
    }

    /// Number of agents of `pool[..n]` that are available.
    pub open spec fn available_count(pool: Seq<AgentStatus>, n: int) -> nat
        decreases n,
    {
        if n <= 0 {
            0
        } else {
            Self::available_count(pool, n - 1) + if pool[n - 1].available {
                1nat
            } else {
                0nat
            }
        }
    }

    /// Number of available agents.
    pub fn available_agents(&self) -> (n: usize)
        ensures
            n == Self::available_count(self.pool(), self.pool().len() as int),
    {
        let mut n: usize = 0;
        let mut i: usize = 0;
        while i < self.agent_pool.len()
            invariant
                i <= self.agent_pool@.len(),
                n <= i,
                n == Self::available_count(self.agent_pool@, i as int),
            decreases self.agent_pool@.len() - i,
        {
            if self.agent_pool[i].available {
                n += 1;
            }
            i += 1;
        }
        n
    }

    /// Clears the counters, the means and both windows.
    pub fn reset_stats(&mut self)
        requires
            old(self).wf(),
        ensures
            final(self).wf(),
            final(self).settings() == old(self).settings(),
            final(self).queue() == old(self).queue(),
            final(self).pool() == old(self).pool(),
            final(self).recorded() == SchedulingStats::spec_default(),
            final(self).wait_window().len() == 0,
            final(self).execution_window().len() == 0,
    {
        self.stats = SchedulingStats {
            total_tasks: 0,
            completed_tasks: 0,
            failed_tasks: 0,
            avg_wait_time_us: 0,
            avg_execution_time_us: 0,
            total_cost: 0,
        };
        self.wait_times.clear();
        self.execution_times.clear();
    }
}

proof fn lemma_agent_position(pool: Seq<AgentStatus>, id: Seq<char>, k: int)
    requires
        0 <= k <= pool.len(),
        forall|j: int| 0 <= j < k ==> (#[trigger] pool[j]).id@ != id,
        k < pool.len() ==> pool[k].id@ == id,
    ensures
        SmartScheduler::position_of(pool, id) == k,
    decreases pool.len(),
{
    if k > 0 {
        lemma_agent_position(pool.drop_first(), id, k - 1);
    }
}

} // verus!
