//! Agents of a federation: their role, their coordinator and their inbox.
//!
//! Each agent owns its federation state; nothing is shared between agents
//! by name.

use crate::agent_selector::FederationRole;
use crate::error::FederationError;
use vstd::prelude::*;
use vstd::string::StringExecFns;

verus! {

/// Kinds of messages between agents.
#[derive(Debug, Clone)]
pub enum MessageType {
    Register,
    TaskDelegation,
    TaskCompletion,
    Status,
    Error,
    Custom(String),
}

/// A message between agents.
#[derive(Debug, Clone)]
pub struct FederationMessage {
    pub sender: String,
    pub message_type: MessageType,
    pub content: String,
}

/// What an agent keeps of the federation: its coordinator and the messages
/// it received, oldest first.
#[derive(Debug)]
pub struct FederatedAgentState {
    pub coordinator_id: Option<String>,
    pub inbox: Vec<FederationMessage>,
}

impl Default for FederatedAgentState {
    fn default() -> (s: FederatedAgentState)
        ensures
            s.coordinator_id is None,
            s.inbox@.len() == 0,
    {
        FederatedAgentState { coordinator_id: None, inbox: Vec::new() }
    }
}

/// An agent that takes part in a federation.
pub trait FederatedAgent {
    /// The identifier of the agent in the federation.
    fn federation_id(&self) -> &str;

    /// The role of the agent.
    fn federation_role(&self) -> FederationRole;

    /// Gives the agent a role.
    fn set_federation_role(&mut self, role: FederationRole);

    /// Makes `coordinator` the coordinator of the agent.
    fn register_with_coordinator(&mut self, coordinator: &str) -> Result<(), FederationError>;

    /// Takes a message in.
    fn handle_federation_message(&mut self, message: FederationMessage) -> Result<
        (),
        FederationError,
    >;
}

/// An agent with its federation state.
#[derive(Debug)]
pub struct FederatedBaseAgent {
    pub name: String,
    pub role: FederationRole,
    pub state: FederatedAgentState,
}

impl FederatedBaseAgent {
    /// A worker named `name` without coordinator and with an empty inbox.
    pub fn new(name: &str) -> (a: FederatedBaseAgent)
        ensures
            a.name@ == name@,
            a.role is Worker,
            a.state.coordinator_id is None,
            a.state.inbox@.len() == 0,
    {
        FederatedBaseAgent {
            name: String::from_str(name),
            role: FederationRole::Worker,
            state: FederatedAgentState { coordinator_id: None, inbox: Vec::new() },
        }
    }
}

impl FederatedAgent for FederatedBaseAgent {
    fn federation_id(&self) -> (id: &str)
        ensures
            id@ == self.name@,
    {
        self.name.as_str()
    }

    fn federation_role(&self) -> (role: FederationRole)
        ensures
            role == self.role,
    {
        self.role
    }

    fn set_federation_role(&mut self, role: FederationRole)
        ensures
            final(self).role == role,
            final(self).name == old(self).name,
            final(self).state == old(self).state,
    {
        self.role = role;
    }

    fn register_with_coordinator(&mut self, coordinator: &str) -> (r: Result<(), FederationError>)
        ensures
            r is Ok,
            final(self).state.coordinator_id matches Some(c) && c@ == coordinator@,
            final(self).state.inbox == old(self).state.inbox,
            final(self).name == old(self).name,
            final(self).role == old(self).role,
    {
        self.state.coordinator_id = Some(String::from_str(coordinator));
        Ok(())
    }

    fn handle_federation_message(&mut self, message: FederationMessage) -> (r: Result<
        (),
        FederationError,
    >)
        ensures
            r is Ok,
            final(self).state.inbox@ == old(self).state.inbox@.push(message),
            final(self).state.coordinator_id == old(self).state.coordinator_id,
            final(self).name == old(self).name,
            final(self).role == old(self).role,
    {
        self.state.inbox.push(message);
        Ok(())
    }
}

} // verus!
