//! Depth control for recursive delegation.
//!
//! A controller tracks how deep a chain of delegations is, together with the
//! agents that entered each level, and refuses to go beyond a maximum.

use crate::error::FederationError;
use crate::text::{decimal, extend_chars, from_chars, push_decimal, to_chars};
use vstd::prelude::*;
use vstd::string::StringExecFns;

verus! {

/// Depth from which agents are to be simplified.
pub const SIMPLIFY_DEPTH: usize = 2;

/// Limits of a controller.
#[derive(Debug, Clone, Copy)]
pub struct DepthConfig {
    /// Maximum depth.
    pub max_depth: usize,
    /// Whether delegation below the first level is allowed.
    pub allow_recursion: bool,
}

impl DepthConfig {
    /// Limits that allow recursion down to `max_depth`.
    pub fn with_max_depth(max_depth: usize) -> (c: DepthConfig)
        ensures
            c == (DepthConfig { max_depth, allow_recursion: true }),
    {
        DepthConfig { max_depth, allow_recursion: true }
    }

    /// Limits that allow no delegation at all.
    pub fn no_recursion() -> (c: DepthConfig)
        ensures
            c == (DepthConfig { max_depth: 0, allow_recursion: false }),
    {
        DepthConfig { max_depth: 0, allow_recursion: false }
    }
}

impl Default for DepthConfig {
    fn default() -> (c: DepthConfig)
        ensures
            c == (DepthConfig { max_depth: 3, allow_recursion: true }),
    {
        DepthConfig { max_depth: 3, allow_recursion: true }
    }
}

/// Tracks and bounds the depth of recursive delegation.
#[derive(Debug, Clone)]
pub struct DepthController {
    config: DepthConfig,
    current_depth: usize,
    depth_stack: Vec<String>,
}

/// What an increment does at depth `depth` under `config`.
pub enum IncrementVerdict {
    /// The depth grows by one.
    Enter,
    /// The maximum is reached.
    Exceeded,
    /// Recursion is off and a level is already entered.
    Forbidden,
}

/// The verdict on an increment: the maximum is checked first, then whether
/// recursion is allowed.
pub open spec fn increment_verdict(config: DepthConfig, depth: nat) -> IncrementVerdict {
    if depth >= config.max_depth {
        IncrementVerdict::Exceeded
    } else if !config.allow_recursion && depth > 0 {
        IncrementVerdict::Forbidden
    } else {
        IncrementVerdict::Enter
    }
}

/// The depth after an increment at depth `depth`: one more where the
/// increment succeeds, the same where it is refused.
pub open spec fn next_depth(config: DepthConfig, depth: nat) -> nat {
    match increment_verdict(config, depth) {
        IncrementVerdict::Enter => depth + 1,
        _ => depth,
    }
}

/// The depth of a fresh controller after `attempts` increments.
pub open spec fn depth_after(config: DepthConfig, attempts: nat) -> nat
    decreases attempts,
{
    if attempts == 0 {
        0
    } else {
        next_depth(config, depth_after(config, (attempts - 1) as nat))
    }
}

impl DepthController {
    /// The limits in force.
    pub closed spec fn limits(&self) -> DepthConfig {
        self.config
    }

    /// The current depth.
    pub closed spec fn depth(&self) -> nat {
        self.current_depth as nat
    }

    /// The agents that entered each level, outermost first.
    pub closed spec fn stack(&self) -> Seq<String> {
        self.depth_stack@
    }

    /// The stack holds one agent per level.
    pub closed spec fn wf(&self) -> bool {
        self.depth_stack@.len() == self.current_depth
    }

    /// What `wf` means to callers.
    pub proof fn lemma_wf(&self)
        ensures
            self.wf() <==> self.stack().len() == self.depth(),
    {
    }

    /// How the controller renders as text.
    pub open spec fn describe(&self) -> Seq<char> {
        "DepthController(current: "@ + decimal(self.depth()) + "/"@ + decimal(
            self.limits().max_depth as nat,
        ) + ", stack: ["@ + quoted_list(self.stack()) + "])"@
    }

    /// A controller at depth zero.
    pub fn new(config: DepthConfig) -> (c: DepthController)
        ensures
            c.wf(),
            c.limits() == config,
            c.depth() == 0,
            c.stack().len() == 0,
    {
        DepthController { config, current_depth: 0, depth_stack: Vec::new() }
    }

    /// A controller with the default limits: depth three, recursion allowed.
    pub fn with_defaults() -> (c: DepthController)
        ensures
            c.wf(),
            c.limits() == (DepthConfig { max_depth: 3, allow_recursion: true }),
            c.depth() == 0,
            c.stack().len() == 0,
    {
        DepthController::new(DepthConfig { max_depth: 3, allow_recursion: true })
    }

    /// A controller that allows no delegation.
    pub fn no_recursion() -> (c: DepthController)
        ensures
            c.wf(),
            c.limits() == (DepthConfig { max_depth: 0, allow_recursion: false }),
            c.depth() == 0,
            c.stack().len() == 0,
    {
        DepthController::new(DepthConfig::no_recursion())
    }

    /// Enters one level for `agent_id`.
    ///
    /// Fails with `DepthExceeded` at the maximum depth, and with
    /// `ProtocolViolation` when recursion is off and a level is already
    /// entered. A failed increment changes nothing.
    pub fn increment(&mut self, agent_id: String) -> (r: Result<(), FederationError>)
        requires
            old(self).wf(),
        ensures
            final(self).wf(),
            final(self).limits() == old(self).limits(),
            final(self).depth() == next_depth(old(self).limits(), old(self).depth()),
            match increment_verdict(old(self).limits(), old(self).depth()) {
                IncrementVerdict::Enter => {
                    &&& r is Ok
                    &&& final(self).depth() == old(self).depth() + 1
                    &&& final(self).stack() == old(self).stack().push(agent_id)
                },
                IncrementVerdict::Exceeded => {
                    &&& r == Err::<(), FederationError>(
                        FederationError::DepthExceeded {
                            max: old(self).limits().max_depth,
                            current: old(self).depth() as usize,
                        },
                    )
                    &&& final(self).depth() == old(self).depth()
                    &&& final(self).stack() == old(self).stack()
                },
                IncrementVerdict::Forbidden => {
                    &&& r matches Err(FederationError::ProtocolViolation(m))
                    &&& m@ == "Recursion is disabled for this federation"@
                    &&& final(self).depth() == old(self).depth()
                    &&& final(self).stack() == old(self).stack()
                },
            },
    {
        if self.current_depth >= self.config.max_depth {
            return Err(
                FederationError::DepthExceeded {
                    max: self.config.max_depth,
                    current: self.current_depth,
                },
            );
        }
        if !self.config.allow_recursion && self.current_depth > 0 {
            return Err(
                FederationError::ProtocolViolation(
                    String::from_str("Recursion is disabled for this federation"),
                ),
            );
        }
        self.current_depth = self.current_depth + 1;
        self.depth_stack.push(agent_id);
        Ok(())
    }

    /// Leaves one level. Fails with `ProtocolViolation`, and changes
    /// nothing, at depth zero.
    pub fn decrement(&mut self) -> (r: Result<(), FederationError>)
        requires
            old(self).wf(),
        ensures
            final(self).wf(),
            final(self).limits() == old(self).limits(),
            old(self).depth() == 0 ==> {
                &&& r matches Err(FederationError::ProtocolViolation(m))
                &&& m@ == "Cannot decrement depth below 0"@
                &&& final(self).depth() == 0
                &&& final(self).stack() == old(self).stack()
            },
            old(self).depth() > 0 ==> {
                &&& r is Ok
                &&& final(self).depth() == old(self).depth() - 1
                &&& final(self).stack() == old(self).stack().drop_last()
            },
    {
        if self.current_depth == 0 {
            return Err(
                FederationError::ProtocolViolation(
                    String::from_str("Cannot decrement depth below 0"),
                ),
            );
        }
        self.current_depth = self.current_depth - 1;
        self.depth_stack.pop();
        Ok(())
    }

    /// The current depth.
    pub fn current_depth(&self) -> (d: usize)
        ensures
            d == self.depth(),
    {
        self.current_depth
    }

    /// The maximum depth.
    pub fn max_depth(&self) -> (d: usize)
        ensures
            d == self.limits().max_depth,
    {
        self.config.max_depth
    }

    /// Whether the maximum depth is reached.
    pub fn at_max(&self) -> (b: bool)
        ensures
            b == (self.depth() >= self.limits().max_depth),
    {
        self.current_depth >= self.config.max_depth
    }

    /// Whether a further level may be entered below this one.
    pub fn can_recurse(&self) -> (b: bool)
        ensures
            b == (self.limits().allow_recursion && self.depth() < self.limits().max_depth),
    {
        self.config.allow_recursion && self.current_depth < self.config.max_depth
    }

    /// Levels left below the current one; zero at or beyond the maximum.
    pub fn remaining_depth(&self) -> (d: usize)
        ensures
            d == if self.depth() >= self.limits().max_depth {
                0
            } else {
                self.limits().max_depth - self.depth()
            },
    {
        if self.current_depth >= self.config.max_depth {
            0
        } else {
            self.config.max_depth - self.current_depth
        }
    }

    /// The agents that entered each level, outermost first.
    pub fn depth_stack(&self) -> (s: &[String])
        ensures
            s@ == self.stack(),
    {
        self.depth_stack.as_slice()
    }

    /// Whether agents entered from here are to be simplified: from depth two.
    pub fn should_simplify_agent(&self) -> (b: bool)
        ensures
            b == (self.depth() >= SIMPLIFY_DEPTH),
    {
        self.current_depth >= SIMPLIFY_DEPTH
    }

    /// Returns to depth zero with an empty stack.
    pub fn reset(&mut self)
        ensures
            final(self).wf(),
            final(self).limits() == old(self).limits(),
            final(self).depth() == 0,
            final(self).stack().len() == 0,
    {
        self.current_depth = 0;
        self.depth_stack.clear();
    }

    /// The limits in force.
    pub fn config(&self) -> (c: DepthConfig)
        ensures
            c == self.limits(),
    {
        self.config
    }

    /// Replaces the limits and returns to depth zero.
    pub fn set_config(&mut self, config: DepthConfig)
        ensures
            final(self).wf(),
            final(self).limits() == config,
            final(self).depth() == 0,
            final(self).stack().len() == 0,
    {
        self.config = config;
        self.reset();
    }

    /// Renders the controller as text: depth, maximum and the stack.
    pub fn to_string(&self) -> (s: String)
        ensures
            s@ == self.describe(),
    {
        let mut out = to_chars("DepthController(current: ");
        push_decimal(&mut out, self.current_depth as u64);
        let slash = to_chars("/");
        extend_chars(&mut out, slash.as_slice());
        push_decimal(&mut out, self.config.max_depth as u64);
        let open = to_chars(", stack: [");
        extend_chars(&mut out, open.as_slice());
        let ghost head = out@;
        let mut i: usize = 0;
        while i < self.depth_stack.len()
            invariant
                i <= self.depth_stack@.len(),
                out@ == head + quoted_list(self.depth_stack@.take(i as int)),
            decreases self.depth_stack@.len() - i,
        {
            let ghost prefix = self.depth_stack@.take(i + 1);
            proof {
                assert(prefix.drop_last() =~= self.depth_stack@.take(i as int));
            }
            if i > 0 {
                out.push(',');
                out.push(' ');
            }
            out.push('"');
            let id = to_chars(self.depth_stack[i].as_str());
            extend_chars(&mut out, id.as_slice());
            out.push('"');
            proof {
                assert(prefix.last() == self.depth_stack@[i as int]);
                assert(out@ =~= head + quoted_list(prefix));
            }
            i += 1;
        }
        proof {
            assert(self.depth_stack@.take(self.depth_stack@.len() as int) =~= self.depth_stack@);
        }
        let close = to_chars("])");
        extend_chars(&mut out, close.as_slice());
        from_chars(out.as_slice())
    }
}

/// The identifiers in double quotes, separated by `", "`.
pub open spec fn quoted_list(ids: Seq<String>) -> Seq<char>
    decreases ids.len(),
{
    if ids.len() == 0 {
        seq![]
    } else if ids.len() == 1 {
        seq!['"'] + ids[0]@ + seq!['"']
    } else {
        quoted_list(ids.drop_last()) + seq![',', ' ', '"'] + ids.last()@ + seq!['"']
    }
}

impl Default for DepthController {
    fn default() -> (c: DepthController)
        ensures
            c.wf(),
            c.depth() == 0,
            c.limits() == (DepthConfig { max_depth: 3, allow_recursion: true }),
    {
        DepthController::with_defaults()
    }
}

/// At the maximum depth an increment is refused with `DepthExceeded`,
/// whatever else the limits say.
pub proof fn lemma_increment_at_max(config: DepthConfig)
    ensures
        increment_verdict(config, config.max_depth as nat) is Exceeded,
{
}

/// While recursion is allowed, every increment below the maximum succeeds,
/// so `max_depth` increments from depth zero reach the maximum.
pub proof fn lemma_increment_below_max(config: DepthConfig, depth: nat)
    requires
        config.allow_recursion,
        depth < config.max_depth,
    ensures
        increment_verdict(config, depth) is Enter,
{
}

/// However many increments are tried, the depth never exceeds the maximum.
pub proof fn lemma_depth_bounded(config: DepthConfig, attempts: nat)
    ensures
        depth_after(config, attempts) <= config.max_depth,
    decreases attempts,
{
    if attempts > 0 {
        lemma_depth_bounded(config, (attempts - 1) as nat);
    }
}

/// Where recursion is allowed, or the maximum is at most one, the first
/// `k <= max_depth` increments all succeed.
pub proof fn lemma_increments_succeed(config: DepthConfig, k: nat)
    requires
        config.allow_recursion || config.max_depth <= 1,
        k <= config.max_depth,
    ensures
        depth_after(config, k) == k,
    decreases k,
{
    if k > 0 {
        lemma_increments_succeed(config, (k - 1) as nat);
    }
}

/// After `max_depth` increments the depth is `max_depth`, and a further
/// increment is refused with `DepthExceeded` and leaves the depth as it is.
pub proof fn lemma_max_then_exceeded(config: DepthConfig)
    requires
        config.allow_recursion || config.max_depth <= 1,
    ensures
        depth_after(config, config.max_depth as nat) == config.max_depth,
        increment_verdict(config, depth_after(config, config.max_depth as nat)) is Exceeded,
        depth_after(config, (config.max_depth + 1) as nat) == config.max_depth,
{
    lemma_increments_succeed(config, config.max_depth as nat);
}

} // verus!
