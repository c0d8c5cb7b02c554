//! Messages of recursive workflows between federated agents.
//!
//! Fractions (temperature, confidence) are stored in thousandths.

use crate::string_map::StringMap;
use vstd::prelude::*;
use vstd::string::StringExecFns;

verus! {

/// A whole, in thousandths.
pub const FRACTION_ONE: u32 = 1000;

/// Kinds of protocol messages.
#[derive(Debug, Clone, Copy, PartialEq, Eq)]
pub enum RLMMessageType {
    /// Starts a workflow.
    Initiate,
    /// Runs one step.
    ExecuteStep,
    /// Asks for a refinement of an earlier result.
    Refine,
    /// Ends the workflow.
    Complete,
    /// Reports an error or aborts.
    Error,
}

/// What travels along a chain of recursive calls.
#[derive(Debug)]
pub struct RLMContext {
    /// Workflow identifier.
    pub workflow_id: String,
    /// Iteration number, from zero.
    pub iteration: usize,
    /// Current depth.
    pub depth: usize,
    /// Maximum depth.
    pub max_depth: usize,
    /// Results so far, one per line.
    pub accumulated_results: String,
    /// Annotations of the parent agent: JSON texts under string keys.
    pub metadata: StringMap,
}

/// `fraction` lowered to a whole if it is above.
pub open spec fn clamped(fraction: u32) -> u32 {
    if fraction > FRACTION_ONE {
        FRACTION_ONE
    } else {
        fraction
    }
}

/// `results` with `content` added on a line of its own.
pub open spec fn with_result(results: Seq<char>, content: Seq<char>) -> Seq<char> {
    if results.len() == 0 {
        content
    } else {
        results + "\n"@ + content
    }
}

impl RLMContext {
    /// The context at the root of workflow `workflow_id`: iteration and depth
    /// zero, maximum depth three, nothing accumulated.
    pub fn new(workflow_id: String) -> (c: RLMContext)
        ensures
            c.workflow_id == workflow_id,
            c.iteration == 0,
            c.depth == 0,
            c.max_depth == 3,
            c.accumulated_results@.len() == 0,
            c.metadata.pairs().len() == 0,
    {
        RLMContext {
            workflow_id,
            iteration: 0,
            depth: 0,
            max_depth: 3,
            accumulated_results: String::new(),
            metadata: StringMap::new(),
        }
    }

    /// The context of a call delegated from this one: one level deeper, same
    /// workflow, iteration, maximum and annotations, nothing accumulated.
    pub fn create_child(&self) -> (c: RLMContext)
        requires
            self.depth < usize::MAX,
        ensures
            c.workflow_id@ == self.workflow_id@,
            c.iteration == self.iteration,
            c.depth == self.depth + 1,
            c.max_depth == self.max_depth,
            c.accumulated_results@.len() == 0,
            c.metadata.pairs() == self.metadata.pairs(),
    {
        let mut metadata = StringMap::new();
        let mut i: usize = 0;
        while i < self.metadata.len()
            invariant
                i <= self.metadata.pairs().len(),
                metadata.pairs() == self.metadata.pairs().take(i as int),
            decreases self.metadata.pairs().len() - i,
        {
            let (k, v) = self.metadata.entry(i);
            metadata.push_entry(k.clone(), v.clone());
            proof {
                assert(self.metadata.pairs().take(i + 1) =~= self.metadata.pairs().take(
                    i as int,
                ).push(self.metadata.pairs()[i as int]));
            }
            i += 1;
        }
        proof {
            assert(self.metadata.pairs().take(self.metadata.pairs().len() as int)
                =~= self.metadata.pairs());
        }
        RLMContext {
            workflow_id: self.workflow_id.clone(),
            iteration: self.iteration,
            depth: self.depth + 1,
            max_depth: self.max_depth,
            accumulated_results: String::new(),
            metadata,
        }
    }

    /// Adds `content` to the results on a line of its own.
    pub fn append_result(&mut self, content: String)
        ensures
            final(self).accumulated_results@ == with_result(
                old(self).accumulated_results@,
                content@,
            ),
            final(self).workflow_id == old(self).workflow_id,
            final(self).iteration == old(self).iteration,
            final(self).depth == old(self).depth,
            final(self).max_depth == old(self).max_depth,
            final(self).metadata == old(self).metadata,
    {
        if !self.accumulated_results.as_str().is_empty() {
            self.accumulated_results.append("\n");
        }
        self.accumulated_results.append(content.as_str());
        proof {
            assert(self.accumulated_results@ =~= with_result(
                old(self).accumulated_results@,
                content@,
            ));
        }
    }

    /// Counts one iteration.
    pub fn next_iteration(&mut self)
        requires
            old(self).iteration < usize::MAX,
        ensures
            final(self).iteration == old(self).iteration + 1,
            final(self).workflow_id == old(self).workflow_id,
            final(self).depth == old(self).depth,
            final(self).max_depth == old(self).max_depth,
            final(self).accumulated_results == old(self).accumulated_results,
            final(self).metadata == old(self).metadata,
    {
        self.iteration = self.iteration + 1;
    }

    /// The current depth.
    pub fn current_depth(&self) -> (d: usize)
        ensures
            d == self.depth,
    {
        self.depth
    }

    /// Whether a further level may be entered.
    pub fn can_recurse(&self) -> (b: bool)
        ensures
            b == (self.depth < self.max_depth),
    {
        self.depth < self.max_depth
    }

    /// Levels left; zero at or beyond the maximum.
    pub fn remaining_depth(&self) -> (d: usize)
        ensures
            d == if self.depth >= self.max_depth {
                0
            } else {
                self.max_depth - self.depth
            },
    {
        if self.depth >= self.max_depth {
            0
        } else {
            self.max_depth - self.depth
        }
    }
}

/// Guidance for a refinement.
#[derive(Debug, Clone)]
pub struct RLMRefinementData {
    /// What to refine.
    pub aspect: String,
    /// How to refine it.
    pub feedback: String,
    /// Priority from one to ten.
    pub priority: usize,
}

/// Figures of one execution.
#[derive(Debug, Clone)]
pub struct RLMExecutionMetadata {
    /// Duration in milliseconds.
    pub execution_time_ms: u64,
    /// Tokens used.
    pub tokens_used: usize,
    /// The agent that did the work.
    pub agent_id: String,
    /// Whether the work succeeded.
    pub success: bool,
    /// Why it failed, if it did.
    pub error: Option<String>,
}

/// A task delegated to an agent.
#[derive(Debug)]
pub struct RLMTaskRequest {
    /// The prompt.
    pub task: String,
    /// Where the workflow stands.
    pub context: RLMContext,
    /// Kind of request.
    pub message_type: RLMMessageType,
    /// Guidance for a refinement.
    pub refinements: Vec<RLMRefinementData>,
    /// Tools that the agent may find useful.
    pub suggested_tools: Vec<String>,
    /// Sampling temperature, in thousandths.
    pub temperature: u32,
    /// Maximum tokens of the answer.
    pub max_tokens: usize,
}

impl RLMTaskRequest {
    /// A request that starts workflow `workflow_id` with `task`.
    pub fn new(task: String, workflow_id: String) -> (r: RLMTaskRequest)
        ensures
            r.task == task,
            r.context.workflow_id == workflow_id,
            r.context.iteration == 0,
            r.context.depth == 0,
            r.context.max_depth == 3,
            r.message_type is Initiate,
            r.refinements@.len() == 0,
            r.suggested_tools@.len() == 0,
            r.temperature == 700,
            r.max_tokens == 1024,
    {
        RLMTaskRequest {
            task,
            context: RLMContext::new(workflow_id),
            message_type: RLMMessageType::Initiate,
            refinements: Vec::new(),
            suggested_tools: Vec::new(),
            temperature: 700,
            max_tokens: 1024,
        }
    }

    /// Turns the request into one for a step.
    pub fn execute_step(self) -> (r: RLMTaskRequest)
        ensures
            r == (RLMTaskRequest { message_type: RLMMessageType::ExecuteStep, ..self }),
    {
        let mut r = self;
        r.message_type = RLMMessageType::ExecuteStep;
        r
    }

    /// Turns the request into one for a refinement.
    pub fn refine(self, refinements: Vec<RLMRefinementData>) -> (r: RLMTaskRequest)
        ensures
            r == (RLMTaskRequest { message_type: RLMMessageType::Refine, refinements, ..self }),
    {
        let mut r = self;
        r.message_type = RLMMessageType::Refine;
        r.refinements = refinements;
        r
    }

    /// Replaces the suggested tools.
    pub fn with_tools(self, tools: Vec<String>) -> (r: RLMTaskRequest)
        ensures
            r == (RLMTaskRequest { suggested_tools: tools, ..self }),
    {
        let mut r = self;
        r.suggested_tools = tools;
        r
    }

    /// Sets the temperature, in thousandths; values above one count as one.
    pub fn with_temperature(self, temperature: u32) -> (r: RLMTaskRequest)
        ensures
            r == (RLMTaskRequest { temperature: clamped(temperature), ..self }),
    {
        let mut r = self;
        r.temperature = if temperature > FRACTION_ONE {
            FRACTION_ONE
        } else {
            temperature
        };
        r
    }

    /// Sets the maximum tokens of the answer.
    pub fn with_max_tokens(self, max_tokens: usize) -> (r: RLMTaskRequest)
        ensures
            r == (RLMTaskRequest { max_tokens, ..self }),
    {
        let mut r = self;
        r.max_tokens = max_tokens;
        r
    }
}

/// What an agent answers to a task.
#[derive(Debug)]
pub struct RLMTaskResponse {
    /// Workflow identifier.
    pub workflow_id: String,
    /// The answer.
    pub result: String,
    /// Whether the agent delegated in turn.
    pub used_recursion: bool,
    /// The agents it delegated to.
    pub child_agents: Vec<String>,
    /// Figures of the execution.
    pub metadata: RLMExecutionMetadata,
    /// Where the workflow stands.
    pub context: RLMContext,
    /// Whether the agent suggests a refinement.
    pub ready_for_refinement: bool,
    /// Confidence in the answer, in thousandths.
    pub confidence: u32,
}

impl RLMTaskResponse {
    /// The response of a task that succeeded, with a confidence of three
    /// quarters.
    pub fn success(
        workflow_id: String,
        result: String,
        agent_id: String,
        execution_time_ms: u64,
        tokens_used: usize,
    ) -> (r: RLMTaskResponse)
        ensures
            r.workflow_id@ == workflow_id@,
            r.result == result,
            !r.used_recursion,
            r.child_agents@.len() == 0,
            r.metadata.execution_time_ms == execution_time_ms,
            r.metadata.tokens_used == tokens_used,
            r.metadata.agent_id == agent_id,
            r.metadata.success,
            r.metadata.error is None,
            r.context.workflow_id == workflow_id,
            !r.ready_for_refinement,
            r.confidence == 750,
    {
        let id = workflow_id.clone();
        RLMTaskResponse {
            workflow_id: id,
            result,
            used_recursion: false,
            child_agents: Vec::new(),
            metadata: RLMExecutionMetadata {
                execution_time_ms,
                tokens_used,
                agent_id,
                success: true,
                error: None,
            },
            context: RLMContext::new(workflow_id),
            ready_for_refinement: false,
            confidence: 750,
        }
    }

    /// The response of a task that failed with `error`, without answer and
    /// without confidence.
    pub fn failure(workflow_id: String, agent_id: String, error: String, execution_time_ms: u64) -> (r:
        RLMTaskResponse)
        ensures
            r.workflow_id@ == workflow_id@,
            r.result@.len() == 0,
            !r.used_recursion,
            r.child_agents@.len() == 0,
            r.metadata.execution_time_ms == execution_time_ms,
            r.metadata.tokens_used == 0,
            r.metadata.agent_id == agent_id,
            !r.metadata.success,
            r.metadata.error == Some(error),
            r.context.workflow_id == workflow_id,
            !r.ready_for_refinement,
            r.confidence == 0,
    {
        let id = workflow_id.clone();
        RLMTaskResponse {
            workflow_id: id,
            result: String::new(),
            used_recursion: false,
            child_agents: Vec::new(),
            metadata: RLMExecutionMetadata {
                execution_time_ms,
                tokens_used: 0,
                agent_id,
                success: false,
                error: Some(error),
            },
            context: RLMContext::new(workflow_id),
            ready_for_refinement: false,
            confidence: 0,
        }
    }

    /// Marks the response as one that delegated to `child_agents`.
    pub fn mark_recursive(self, child_agents: Vec<String>) -> (r: RLMTaskResponse)
        ensures
            r == (RLMTaskResponse { used_recursion: true, child_agents, ..self }),
    {
        let mut r = self;
        r.used_recursion = true;
        r.child_agents = child_agents;
        r
    }

    /// Sets the confidence, in thousandths; values above one count as one.
    pub fn with_confidence(self, confidence: u32) -> (r: RLMTaskResponse)
        ensures
            r == (RLMTaskResponse { confidence: clamped(confidence), ..self }),
    {
        let mut r = self;
        r.confidence = if confidence > FRACTION_ONE {
            FRACTION_ONE
        } else {
            confidence
        };
        r
    }

    /// Marks the response as ready for refinement.
    pub fn mark_ready_for_refinement(self) -> (r: RLMTaskResponse)
        ensures
            r == (RLMTaskResponse { ready_for_refinement: true, ..self }),
    {
        let mut r = self;
        r.ready_for_refinement = true;
        r
    }
}

} // verus!
