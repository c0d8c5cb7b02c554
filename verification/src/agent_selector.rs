//! Agent selection for delegated tasks.
//!
//! Candidates are the worker agents that the criteria do not exclude. Each
//! gets a score in thousandths from three sub-scores with fixed weights; a
//! higher score ranks first, and on equal scores the agent registered
//! earlier ranks first.

use crate::error::FederationError;
use crate::text::{holds_text, list_holds, str_eq};
use std::sync::Arc;
use vstd::prelude::*;
use vstd::string::StringExecFns;

verus! {

/// Weight of the capability match, in thousandths.
pub const CAPABILITY_WEIGHT: u64 = 500;

/// Weight of the availability, in thousandths.
pub const AVAILABILITY_WEIGHT: u64 = 300;

/// Weight of the depth appropriateness, in thousandths.
pub const DEPTH_WEIGHT: u64 = 200;

/// Depth from which agents are to be simplified.
pub const SIMPLIFY_DEPTH: usize = 2;

/// Role of an agent in a federation.
#[derive(Debug, Clone, Copy, PartialEq, Eq)]
pub enum FederationRole {
    /// Orchestrates the others.
    Coordinator,
    /// Performs delegated tasks.
    Worker,
    /// Watches without taking part.
    Observer,
}

/// The agents of a federation with their roles, in order of registration.
#[derive(Debug)]
pub struct AgentRegistry {
    agents: Vec<(String, FederationRole)>,
}

impl AgentRegistry {
    /// The registered agents, earliest first.
    pub closed spec fn entries(&self) -> Seq<(String, FederationRole)> {
        self.agents@
    }

    /// An empty registry.
    pub fn new() -> (r: AgentRegistry)
        ensures
            r.entries().len() == 0,
    {
        AgentRegistry { agents: Vec::new() }
    }

    /// Registers `id` with `role` after the agents already present.
    pub fn register(&mut self, id: String, role: FederationRole)
        ensures
            final(self).entries() == old(self).entries().push((id, role)),
    {
        self.agents.push((id, role));
    }

    /// The registered agents, earliest first.
    pub fn list_agents(&self) -> (a: &[(String, FederationRole)])
        ensures
            a@ == self.entries(),
    {
        self.agents.as_slice()
    }
}

impl Default for AgentRegistry {
    fn default() -> (r: AgentRegistry)
        ensures
            r.entries().len() == 0,
    {
        AgentRegistry::new()
    }
}

/// What a delegated task asks of an agent.
#[derive(Debug, Clone)]
pub struct SelectionCriteria {
    /// Kind of task.
    pub task_type: String,
    /// Tools that the agent must have.
    pub required_tools: Vec<String>,
    /// Tools that the agent should have.
    pub preferred_tools: Vec<String>,
    /// Current delegation depth.
    pub current_depth: usize,
    /// Maximum delegation depth.
    pub max_depth: usize,
    /// Agents that are not to be chosen.
    pub exclude_agents: Vec<String>,
}

impl SelectionCriteria {
    /// Criteria for `task_type` at depth zero of three, with no tools and no
    /// exclusions.
    pub fn new(task_type: String) -> (c: SelectionCriteria)
        ensures
            c.task_type == task_type,
            c.required_tools@.len() == 0,
            c.preferred_tools@.len() == 0,
            c.current_depth == 0,
            c.max_depth == 3,
            c.exclude_agents@.len() == 0,
    {
        SelectionCriteria {
            task_type,
            required_tools: Vec::new(),
            preferred_tools: Vec::new(),
            current_depth: 0,
            max_depth: 3,
            exclude_agents: Vec::new(),
        }
    }

    /// Replaces the required tools.
    pub fn with_required_tools(self, tools: Vec<String>) -> (c: SelectionCriteria)
        ensures
            c == (SelectionCriteria { required_tools: tools, ..self }),
    {
        let mut c = self;
        c.required_tools = tools;
        c
    }

    /// Replaces the preferred tools.
    pub fn with_preferred_tools(self, tools: Vec<String>) -> (c: SelectionCriteria)
        ensures
            c == (SelectionCriteria { preferred_tools: tools, ..self }),
    {
        let mut c = self;
        c.preferred_tools = tools;
        c
    }

    /// Sets the current and the maximum depth.
    pub fn with_depth(self, current: usize, max: usize) -> (c: SelectionCriteria)
        ensures
            c == (SelectionCriteria { current_depth: current, max_depth: max, ..self }),
    {
        let mut c = self;
        c.current_depth = current;
        c.max_depth = max;
        c
    }

    /// Replaces the excluded agents.
    pub fn with_exclusions(self, agents: Vec<String>) -> (c: SelectionCriteria)
        ensures
            c == (SelectionCriteria { exclude_agents: agents, ..self }),
    {
        let mut c = self;
        c.exclude_agents = agents;
        c
    }

    /// Whether agents are to be simplified at this depth: from depth two.
    pub fn should_simplify_agent(&self) -> (b: bool)
        ensures
            b == (self.current_depth >= SIMPLIFY_DEPTH),
    {
        self.current_depth >= SIMPLIFY_DEPTH
    }
}

/// The weighted score, in thousandths, of three sub-scores in thousandths:
/// half the capability match, three tenths of the availability and two
/// tenths of the depth appropriateness, rounded down.
pub open spec fn weighted_score(capability: int, availability: int, depth: int) -> int {
    (capability * 500 + availability * 300 + depth * 200) / 1000
}

/// Score of a candidate. All values are in thousandths.
///
/// Scores order by `score` first: a higher score is greater.
#[derive(Debug, Clone, PartialEq, Eq, PartialOrd, Ord)]
pub struct AgentScore {
    /// The weighted score.
    pub score: u32,
    /// The agent that was scored.
    pub agent_id: String,
    /// How well the agent's capabilities match.
    pub capability_match: u32,
    /// How available the agent is.
    pub availability_score: u32,
    /// How fit the agent is for the depth.
    pub depth_appropriateness: u32,
}

impl AgentScore {
    /// Scores `agent_id` from its three sub-scores.
    pub fn new(
        agent_id: String,
        capability_match: u32,
        availability_score: u32,
        depth_appropriateness: u32,
    ) -> (s: AgentScore)
        ensures
            s.agent_id == agent_id,
            s.capability_match == capability_match,
            s.availability_score == availability_score,
            s.depth_appropriateness == depth_appropriateness,
            s.score == weighted_score(
                capability_match as int,
                availability_score as int,
                depth_appropriateness as int,
            ),
    {
        let total: u64 = (capability_match as u64) * CAPABILITY_WEIGHT + (availability_score as u64)
            * AVAILABILITY_WEIGHT + (depth_appropriateness as u64) * DEPTH_WEIGHT;
        let score: u32 = (total / 1000) as u32;
        AgentScore {
            score,
            agent_id,
            capability_match,
            availability_score,
            depth_appropriateness,
        }
    }
}

/// `list` holds a string with the text `id`.
pub open spec fn listed(list: Seq<String>, id: Seq<char>) -> bool {
    holds_text(list, id)
}

/// The agent is a worker that the criteria do not exclude.
pub open spec fn is_candidate(entry: (String, FederationRole), criteria: SelectionCriteria) -> bool {
    entry.1 is Worker && !listed(criteria.exclude_agents@, entry.0@)
}

/// Positions in `agents[..n]` of the candidates, in order of registration.
pub open spec fn candidates(
    agents: Seq<(String, FederationRole)>,
    criteria: SelectionCriteria,
    n: int,
) -> Seq<int>
    decreases n,
{
    if n <= 0 {
        seq![]
    } else {
        let rest = candidates(agents, criteria, n - 1);
        if is_candidate(agents[n - 1], criteria) {
            rest.push(n - 1)
        } else {
            rest
        }
    }
}

/// The depth sub-score under `criteria`: lowered once agents are to be
/// simplified.
pub open spec fn depth_fit(criteria: SelectionCriteria) -> u32 {
    if criteria.current_depth >= SIMPLIFY_DEPTH {
        700
    } else {
        1000
    }
}

/// `a` ranks before `b` among scores: it scores higher, or the same with an
/// earlier position.
pub open spec fn ranks_before(scores: Seq<u32>, a: int, b: int) -> bool {
    scores[a] > scores[b] || (scores[a] == scores[b] && a < b)
}

/// `order` lists the `order.len()` best positions of `scores`, best first.
pub open spec fn is_ranking(scores: Seq<u32>, order: Seq<int>) -> bool {
    &&& forall|k: int| 0 <= k < order.len() ==> 0 <= #[trigger] order[k] < scores.len()
    &&& forall|k: int, l: int|
        0 <= k < l < order.len() ==> ranks_before(scores, #[trigger] order[k], #[trigger] order[l])
    &&& forall|k: int, i: int|
        0 <= k < order.len() && 0 <= i < scores.len() && !(#[trigger] order.contains(i))
            ==> ranks_before(scores, #[trigger] order[k], i)
}

/// The positions of `order` as integers.
pub open spec fn positions(order: Seq<usize>) -> Seq<int> {
    Seq::new(order.len(), |k: int| order[k] as int)
}

/// Ranks the `count` best of `scores`, or all of them if there are fewer.
pub fn rank_top(scores: &Vec<u32>, count: usize) -> (order: Vec<usize>)
    ensures
        order@.len() == if count < scores@.len() {
            count as int
        } else {
            scores@.len() as int
        },
        is_ranking(scores@, positions(order@)),
{
    let n = scores.len();
    let wanted = if count < n {
        count
    } else {
        n
    };
    let mut taken: Vec<bool> = Vec::new();
    let mut i: usize = 0;
    while i < n
        invariant
            i <= n,
            taken@.len() == i,
            forall|k: int| 0 <= k < i ==> !taken@[k],
        decreases n - i,
    {
        taken.push(false);
        i += 1;
    }
    proof {
        lemma_free_all(taken@, n as int);
    }
    let mut order: Vec<usize> = Vec::new();
    while order.len() < wanted
        invariant
            n == scores@.len(),
            wanted <= n,
            taken@.len() == n,
            order@.len() <= wanted,
            free_count(taken@, n as int) == n - order@.len(),
            is_ranking(scores@, positions(order@)),
            forall|i: int| 0 <= i < n ==> (taken@[i] <==> positions(order@).contains(i)),
            forall|k: int, l: int|
                0 <= k < l < order@.len() ==> #[trigger] order@[k] != #[trigger] order@[l],
        decreases wanted - order@.len(),
    {
        let ghost prior = positions(order@);
        let mut best: Option<usize> = None;
        let mut j: usize = 0;
        while j < n
            invariant
                j <= n,
                n == scores@.len(),
                taken@.len() == n,
                match best {
                    Some(b) => {
                        &&& b < j
                        &&& !taken@[b as int]
                        &&& forall|i: int|
                            0 <= i < j && !taken@[i] && i != b ==> ranks_before(
                                scores@,
                                b as int,
                                i,
                            )
                    },
                    None => forall|i: int| 0 <= i < j ==> taken@[i],
                },
            decreases n - j,
        {
            if !taken[j] {
                match best {
                    Some(b) => {
                        if scores[j] > scores[b] {
                            best = Some(j);
                        }
                    },
                    None => {
                        best = Some(j);
                    },
                }
            }
            j += 1;
        }
        match best {
            Some(b) => {
                proof {
                    lemma_free_take(taken@, b as int, n as int);
                }
                taken.set(b, true);
                order.push(b);
                proof {
                    let now = positions(order@);
                    assert(now =~= prior.push(b as int));
                    assert forall|i: int| 0 <= i < n implies (taken@[i] <==> now.contains(i)) by {
                        if i == b {
                            assert(now[now.len() - 1] == b);
                        } else if prior.contains(i) {
                            let k = choose|k: int| 0 <= k < prior.len() && prior[k] == i;
                            assert(now[k] == i);
                        } else if now.contains(i) {
                            let k = choose|k: int| 0 <= k < now.len() && now[k] == i;
                            if k < prior.len() {
                                assert(prior[k] == i);
                            }
                        }
                    }
                    assert forall|k: int, l: int| 0 <= k < l < now.len() implies ranks_before(
                        scores@,
                        #[trigger] now[k],
                        #[trigger] now[l],
                    ) by {
                        if l == now.len() - 1 {
                            assert(prior[k] == now[k]);
                            assert(!prior.contains(b as int));
                        } else {
                            assert(prior[k] == now[k] && prior[l] == now[l]);
                        }
                    }
                    assert forall|k: int, i: int|
                        0 <= k < now.len() && 0 <= i < scores@.len() && !(#[trigger] now.contains(
                            i,
                        )) implies ranks_before(scores@, #[trigger] now[k], i) by {
                        assert(!prior.contains(i));
                        if k < prior.len() {
                            assert(prior[k] == now[k]);
                        }
                    }
                    assert forall|k: int, l: int| 0 <= k < l < order@.len() implies #[trigger] order@[k]
                        != #[trigger] order@[l] by {
                        if l == order@.len() - 1 {
                            assert(prior[k] == order@[k]);
                            assert(!prior.contains(b as int));
                        }
                    }
                }
            },
            None => {
                // Fewer than `n` positions are taken, so the scan found one.
                proof {
                    lemma_free_none(taken@, n as int);
                    assert(false);
                }
            },
        }
    }
    order
}

/// Number of positions below `n` that are not taken.
spec fn free_count(taken: Seq<bool>, n: int) -> nat
    decreases n,
{
    if n <= 0 {
        0
    } else {
        free_count(taken, n - 1) + if taken[n - 1] {
            0nat
        } else {
            1nat
        }
    }
}

proof fn lemma_free_all(taken: Seq<bool>, n: int)
    requires
        0 <= n <= taken.len(),
        forall|k: int| 0 <= k < n ==> !taken[k],
    ensures
        free_count(taken, n) == n,
    decreases n,
{
    if n > 0 {
        lemma_free_all(taken, n - 1);
    }
}

proof fn lemma_free_none(taken: Seq<bool>, n: int)
    requires
        0 <= n <= taken.len(),
        forall|k: int| 0 <= k < n ==> taken[k],
    ensures
        free_count(taken, n) == 0,
    decreases n,
{
    if n > 0 {
        lemma_free_none(taken, n - 1);
    }
}

proof fn lemma_free_take(taken: Seq<bool>, k: int, n: int)
    requires
        0 <= k < taken.len(),
        0 <= n <= taken.len(),
        !taken[k],
    ensures
        free_count(taken.update(k, true), n) == free_count(taken, n) - if k < n {
            1int
        } else {
            0int
        },
    decreases n,
{
    if n > 0 {
        lemma_free_take(taken, k, n - 1);
    }
}

/// The agent category recommended for a kind of task.
pub open spec fn recommended_type(task_type: Seq<char>) -> Seq<char> {
    if task_type == "data_analysis"@ {
        "data-agent"@
    } else if task_type == "code_analysis"@ || task_type == "code_review"@ {
        "code-agent"@
    } else if task_type == "web_search"@ || task_type == "web_scraping"@ {
        "web-agent"@
    } else if task_type == "academic"@ || task_type == "research"@ {
        "academic-agent"@
    } else {
        "general-agent"@
    }
}

/// The identifiers of the agents at `picks`, in that order.
pub open spec fn picked_ids(agents: Seq<(String, FederationRole)>, picks: Seq<int>) -> Seq<
    Seq<char>,
> {
    Seq::new(picks.len(), |k: int| agents[picks[k]].0@)
}

/// The score given to agent `id` under `criteria`, as its five fields.
pub open spec fn scored(id: Seq<char>, criteria: SelectionCriteria, s: AgentScore) -> bool {
    &&& s.agent_id@ == id
    &&& s.capability_match == 750
    &&& s.availability_score == 900
    &&& s.depth_appropriateness == depth_fit(criteria)
    &&& s.score == weighted_score(750, 900, depth_fit(criteria) as int)
}

/// Chooses agents for delegated tasks out of a registry.
pub struct AgentSelector {
    registry: Arc<AgentRegistry>,
}

impl AgentSelector {
    /// The agents to choose from, earliest registered first.
    pub closed spec fn agents(&self) -> Seq<(String, FederationRole)> {
        self.registry.entries()
    }

    /// A selector over `registry`.
    pub fn new(registry: Arc<AgentRegistry>) -> (s: AgentSelector)
        ensures
            s.agents() == registry.entries(),
    {
        AgentSelector { registry }
    }

    /// Scores one agent: fixed capability match and availability, and a
    /// depth appropriateness that drops once agents are to be simplified.
    pub fn score_agent(&self, agent_id: &str, criteria: &SelectionCriteria) -> (s: AgentScore)
        ensures
            scored(agent_id@, *criteria, s),
    {
        let depth: u32 = if criteria.should_simplify_agent() {
            700
        } else {
            1000
        };
        AgentScore::new(String::from_str(agent_id), 750, 900, depth)
    }

    fn candidate_positions(&self, criteria: &SelectionCriteria) -> (found: Vec<usize>)
        ensures
            positions(found@) == candidates(self.agents(), *criteria, self.agents().len() as int),
            forall|k: int| 0 <= k < found@.len() ==> (#[trigger] found@[k]) < self.agents().len(),
    {
        let agents = self.registry.list_agents();
        let mut found: Vec<usize> = Vec::new();
        let mut i: usize = 0;
        while i < agents.len()
            invariant
                i <= agents@.len(),
                positions(found@) == candidates(agents@, *criteria, i as int),
                forall|k: int| 0 <= k < found@.len() ==> (#[trigger] found@[k]) < i,
            decreases agents@.len() - i,
        {
            let ghost prior = positions(found@);
            let worker = match agents[i].1 {
                FederationRole::Worker => true,
                _ => false,
            };
            if worker && !list_holds(&criteria.exclude_agents, &agents[i].0) {
                found.push(i);
                proof {
                    assert(positions(found@) =~= prior.push(i as int));
                }
            }
            i += 1;
        }
        found
    }

    /// The best candidate under `criteria`: the worker with the highest
    /// score that is not excluded, the earliest registered on a tie. Fails
    /// with `NoSuitableAgents` exactly when there is no candidate.
    pub fn select_agent(&self, criteria: &SelectionCriteria) -> (r: Result<
        AgentScore,
        FederationError,
    >)
        ensures
            ({
                let found = candidates(self.agents(), *criteria, self.agents().len() as int);
                match r {
                    Ok(s) => found.len() > 0 && scored(self.agents()[found[0]].0@, *criteria, s),
                    Err(e) => found.len() == 0 && e is NoSuitableAgents,
                }
            }),
    {
        let found = self.candidate_positions(criteria);
        if found.len() == 0 {
            return Err(FederationError::NoSuitableAgents);
        }
        let agents = self.registry.list_agents();
        let mut scores: Vec<u32> = Vec::new();
        let mut i: usize = 0;
        while i < found.len()
            invariant
                i <= found@.len(),
                agents@ == self.agents(),
                scores@.len() == i,
                forall|k: int| 0 <= k < found@.len() ==> (#[trigger] found@[k]) < agents@.len(),
                forall|k: int|
                    0 <= k < i ==> #[trigger] scores@[k] == weighted_score(
                        750,
                        900,
                        depth_fit(*criteria) as int,
                    ),
            decreases found@.len() - i,
        {
            let s = self.score_agent(agents[found[i]].0.as_str(), criteria);
            scores.push(s.score);
            i += 1;
        }
        let order = rank_top(&scores, 1);
        let best = order[0];
        proof {
            lemma_ranking_of_equals(scores@, positions(order@), 0);
            assert(positions(order@)[0] == best);
            assert(positions(found@)[0] == found@[0]);
        }
        Ok(self.score_agent(agents[found[best]].0.as_str(), criteria))
    }

    /// The `count` best candidates under `criteria`, best first, or all of
    /// them if there are fewer. Fails with `NoSuitableAgents` exactly when
    /// there is no candidate.
    pub fn select_multiple(&self, criteria: &SelectionCriteria, count: usize) -> (r: Result<
        Vec<AgentScore>,
        FederationError,
    >)
        ensures
            ({
                let found = candidates(self.agents(), *criteria, self.agents().len() as int);
                match r {
                    Ok(list) => {
                        &&& found.len() > 0
                        &&& list@.len() == if count < found.len() {
                            count as int
                        } else {
                            found.len() as int
                        }
                        &&& forall|k: int|
                            0 <= k < list@.len() ==> scored(
                                self.agents()[found[k]].0@,
                                *criteria,
                                #[trigger] list@[k],
                            )
                    },
                    Err(e) => found.len() == 0 && e is NoSuitableAgents,
                }
            }),
    {
        let found = self.candidate_positions(criteria);
        if found.len() == 0 {
            return Err(FederationError::NoSuitableAgents);
        }
        let agents = self.registry.list_agents();
        let mut scores: Vec<u32> = Vec::new();
        let mut i: usize = 0;
        while i < found.len()
            invariant
                i <= found@.len(),
                agents@ == self.agents(),
                scores@.len() == i,
                forall|k: int| 0 <= k < found@.len() ==> (#[trigger] found@[k]) < agents@.len(),
                forall|k: int|
                    0 <= k < i ==> #[trigger] scores@[k] == weighted_score(
                        750,
                        900,
                        depth_fit(*criteria) as int,
                    ),
            decreases found@.len() - i,
        {
            let s = self.score_agent(agents[found[i]].0.as_str(), criteria);
            scores.push(s.score);
            i += 1;
        }
        let order = rank_top(&scores, count);
        let mut list: Vec<AgentScore> = Vec::new();
        let mut k: usize = 0;
        while k < order.len()
            invariant
                k <= order@.len(),
                agents@ == self.agents(),
                scores@.len() == found@.len(),
                is_ranking(scores@, positions(order@)),
                forall|j: int| 0 <= j < found@.len() ==> (#[trigger] found@[j]) < agents@.len(),
                positions(found@) == candidates(
                    self.agents(),
                    *criteria,
                    self.agents().len() as int,
                ),
                forall|j: int|
                    0 <= j < scores@.len() ==> #[trigger] scores@[j] == weighted_score(
                        750,
                        900,
                        depth_fit(*criteria) as int,
                    ),
                list@.len() == k,
                forall|j: int|
                    0 <= j < k ==> scored(
                        self.agents()[positions(found@)[j]].0@,
                        *criteria,
                        #[trigger] list@[j],
                    ),
            decreases order@.len() - k,
        {
            proof {
                lemma_ranking_of_equals(scores@, positions(order@), k as int);
                assert(positions(order@)[k as int] == order@[k as int]);
                assert(positions(found@)[k as int] == found@[k as int]);
            }
            let s = self.score_agent(agents[found[order[k]]].0.as_str(), criteria);
            list.push(s);
            k += 1;
        }
        Ok(list)
    }

    /// The agent category recommended for a kind of task; the general
    /// category for an unknown kind.
    pub fn recommend_agent_type(&self, task_type: &str) -> (t: String)
        ensures
            t@ == recommended_type(task_type@),
    {
        if str_eq(task_type, "data_analysis") {
            String::from_str("data-agent")
        } else if str_eq(task_type, "code_analysis") || str_eq(task_type, "code_review") {
            String::from_str("code-agent")
        } else if str_eq(task_type, "web_search") || str_eq(task_type, "web_scraping") {
            String::from_str("web-agent")
        } else if str_eq(task_type, "academic") || str_eq(task_type, "research") {
            String::from_str("academic-agent")
        } else {
            String::from_str("general-agent")
        }
    }

    /// Whether agents are to be simplified under `criteria`.
    pub fn should_simplify(&self, criteria: &SelectionCriteria) -> (b: bool)
        ensures
            b == (criteria.current_depth >= SIMPLIFY_DEPTH),
    {
        criteria.should_simplify_agent()
    }
}

/// Where all scores are equal, the ranking is the order of registration:
/// position `k` ranks `k`-th.
pub proof fn lemma_ranking_of_equals(scores: Seq<u32>, order: Seq<int>, k: int)
    requires
        is_ranking(scores, order),
        forall|a: int, b: int|
            0 <= a < scores.len() && 0 <= b < scores.len() ==> #[trigger] scores[a]
                == #[trigger] scores[b],
        0 <= k < order.len(),
    ensures
        order[k] == k,
    decreases k,
{
    if k > 0 {
        lemma_ranking_of_equals(scores, order, k - 1);
        assert(ranks_before(scores, order[k - 1], order[k]));
    }
    if order[k] > k {
        assert forall|l: int| 0 <= l < order.len() implies order[l] != k by {
            if l < k {
                lemma_ranking_of_equals(scores, order, l);
            } else if l > k {
                assert(ranks_before(scores, order[k], order[l]));
            }
        }
        assert(!order.contains(k));
        assert(ranks_before(scores, order[k], k));
    }
}

} // verus!
