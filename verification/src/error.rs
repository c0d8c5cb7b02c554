//! Error types of the orchestration core.
//!
//! Each error renders to the text given by its `describe` specification.

use crate::text::{decimal, extend_chars, from_chars, push_decimal, to_chars};
use vstd::prelude::*;
use vstd::string::StringExecFns;

verus! {

/// Errors raised while driving a refinement workflow.
#[derive(Debug)]
pub enum RLMError {
    /// A configuration failure, with its explanation.
    ConfigError(String),
    /// A execution failure, with its explanation.
    ExecutionError(String),
    /// A federation failure, with its explanation.
    FederationError(String),
    /// A environment failure, with its explanation.
    EnvironmentError(String),
    /// A execution timeout failure, with its explanation.
    ExecutionTimeoutError(String),
    /// A answer buffer failure, with its explanation.
    BufferError(String),
    /// A context failure, with its explanation.
    ContextError(String),
    /// A batch execution failure, with its explanation.
    BatchError(String),
    /// A depth control failure, with its explanation.
    DepthError(String),
    /// A agent selection failure, with its explanation.
    AgentSelectionError(String),
    /// A protocol failure, with its explanation.
    ProtocolError(String),
    /// A serialization failure, with its explanation.
    SerializationError(String),
    /// A scheduling failure, with its explanation.
    SchedulingFailed(String),
    /// A context folding failure, with its explanation.
    ContextFoldingFailed(String),
    /// A internal failure, with its explanation.
    InternalError(String),
}

/// Result type of workflow operations.
pub type RLMResult<T> = Result<T, RLMError>;

impl RLMError {
    /// The explanation carried by the error.
    pub open spec fn detail(self) -> Seq<char> {
        match self {
            RLMError::ConfigError(m) => m@,
            RLMError::ExecutionError(m) => m@,
            RLMError::FederationError(m) => m@,
            RLMError::EnvironmentError(m) => m@,
            RLMError::ExecutionTimeoutError(m) => m@,
            RLMError::BufferError(m) => m@,
            RLMError::ContextError(m) => m@,
            RLMError::BatchError(m) => m@,
            RLMError::DepthError(m) => m@,
            RLMError::AgentSelectionError(m) => m@,
            RLMError::ProtocolError(m) => m@,
            RLMError::SerializationError(m) => m@,
            RLMError::SchedulingFailed(m) => m@,
            RLMError::ContextFoldingFailed(m) => m@,
            RLMError::InternalError(m) => m@,
        }
    }

    /// The fixed text that introduces the explanation.
    pub open spec fn prefix(self) -> Seq<char> {
        match self {
            RLMError::ConfigError(_) => "Configuration error: "@,
            RLMError::ExecutionError(_) => "Execution error: "@,
            RLMError::FederationError(_) => "Federation error: "@,
            RLMError::EnvironmentError(_) => "RLM environment error: "@,
            RLMError::ExecutionTimeoutError(_) => "Code execution error: "@,
            RLMError::BufferError(_) => "Answer buffer error: "@,
            RLMError::ContextError(_) => "Context folding error: "@,
            RLMError::BatchError(_) => "Batch execution error: "@,
            RLMError::DepthError(_) => "Depth control error: "@,
            RLMError::AgentSelectionError(_) => "Agent selection error: "@,
            RLMError::ProtocolError(_) => "Protocol error: "@,
            RLMError::SerializationError(_) => "Serialization error: "@,
            RLMError::SchedulingFailed(_) => "Scheduling error: "@,
            RLMError::ContextFoldingFailed(_) => "Context folding failed: "@,
            RLMError::InternalError(_) => "Internal error: "@,
        }
    }

    /// The rendered message: prefix followed by the explanation.
    pub open spec fn describe(self) -> Seq<char> {
        self.prefix() + self.detail()
    }

    /// Creates a configuration error.
    pub fn config(msg: &str) -> (e: RLMError)
        ensures
            e is ConfigError,
            e.detail() == msg@,
    {
        RLMError::ConfigError(String::from_str(msg))
    }

    /// Creates a execution error.
    pub fn execution(msg: &str) -> (e: RLMError)
        ensures
            e is ExecutionError,
            e.detail() == msg@,
    {
        RLMError::ExecutionError(String::from_str(msg))
    }

    /// Creates a federation error.
    pub fn federation(msg: &str) -> (e: RLMError)
        ensures
            e is FederationError,
            e.detail() == msg@,
    {
        RLMError::FederationError(String::from_str(msg))
    }

    /// Creates a environment error.
    pub fn environment(msg: &str) -> (e: RLMError)
        ensures
            e is EnvironmentError,
            e.detail() == msg@,
    {
        RLMError::EnvironmentError(String::from_str(msg))
    }

    /// Creates a execution timeout error.
    pub fn timeout(msg: &str) -> (e: RLMError)
        ensures
            e is ExecutionTimeoutError,
            e.detail() == msg@,
    {
        RLMError::ExecutionTimeoutError(String::from_str(msg))
    }

    /// Creates a answer buffer error.
    pub fn buffer(msg: &str) -> (e: RLMError)
        ensures
            e is BufferError,
            e.detail() == msg@,
    {
        RLMError::BufferError(String::from_str(msg))
    }

    /// Creates a context error.
    pub fn context(msg: &str) -> (e: RLMError)
        ensures
            e is ContextError,
            e.detail() == msg@,
    {
        RLMError::ContextError(String::from_str(msg))
    }

    /// Creates a batch execution error.
    pub fn batch(msg: &str) -> (e: RLMError)
        ensures
            e is BatchError,
            e.detail() == msg@,
    {
        RLMError::BatchError(String::from_str(msg))
    }

    /// Creates a depth control error.
    pub fn depth(msg: &str) -> (e: RLMError)
        ensures
            e is DepthError,
            e.detail() == msg@,
    {
        RLMError::DepthError(String::from_str(msg))
    }

    /// Creates a agent selection error.
    pub fn agent_selection(msg: &str) -> (e: RLMError)
        ensures
            e is AgentSelectionError,
            e.detail() == msg@,
    {
        RLMError::AgentSelectionError(String::from_str(msg))
    }

    /// Creates a protocol error.
    pub fn protocol(msg: &str) -> (e: RLMError)
        ensures
            e is ProtocolError,
            e.detail() == msg@,
    {
        RLMError::ProtocolError(String::from_str(msg))
    }

    /// Creates a serialization error.
    pub fn serialization(msg: &str) -> (e: RLMError)
        ensures
            e is SerializationError,
            e.detail() == msg@,
    {
        RLMError::SerializationError(String::from_str(msg))
    }

    /// Creates a scheduling error.
    pub fn scheduling(msg: &str) -> (e: RLMError)
        ensures
            e is SchedulingFailed,
            e.detail() == msg@,
    {
        RLMError::SchedulingFailed(String::from_str(msg))
    }

    /// Creates a context folding error.
    pub fn context_folding(msg: &str) -> (e: RLMError)
        ensures
            e is ContextFoldingFailed,
            e.detail() == msg@,
    {
        RLMError::ContextFoldingFailed(String::from_str(msg))
    }

    /// Creates a internal error.
    pub fn internal(msg: &str) -> (e: RLMError)
        ensures
            e is InternalError,
            e.detail() == msg@,
    {
        RLMError::InternalError(String::from_str(msg))
    }

    /// Renders the error as text.
    pub fn to_string(&self) -> (s: String)
        ensures
            s@ == self.describe(),
    {
        match self {
            RLMError::ConfigError(m) => {
                let mut s = String::from_str("Configuration error: ");
                s.append(m.as_str());
                s
            },
            RLMError::ExecutionError(m) => {
                let mut s = String::from_str("Execution error: ");
                s.append(m.as_str());
                s
            },
            RLMError::FederationError(m) => {
                let mut s = String::from_str("Federation error: ");
                s.append(m.as_str());
                s
            },
            RLMError::EnvironmentError(m) => {
                let mut s = String::from_str("RLM environment error: ");
                s.append(m.as_str());
                s
            },
            RLMError::ExecutionTimeoutError(m) => {
                let mut s = String::from_str("Code execution error: ");
                s.append(m.as_str());
                s
            },
            RLMError::BufferError(m) => {
                let mut s = String::from_str("Answer buffer error: ");
                s.append(m.as_str());
                s
            },
            RLMError::ContextError(m) => {
                let mut s = String::from_str("Context folding error: ");
                s.append(m.as_str());
                s
            },
            RLMError::BatchError(m) => {
                let mut s = String::from_str("Batch execution error: ");
                s.append(m.as_str());
                s
            },
            RLMError::DepthError(m) => {
                let mut s = String::from_str("Depth control error: ");
                s.append(m.as_str());
                s
            },
            RLMError::AgentSelectionError(m) => {
                let mut s = String::from_str("Agent selection error: ");
                s.append(m.as_str());
                s
            },
            RLMError::ProtocolError(m) => {
                let mut s = String::from_str("Protocol error: ");
                s.append(m.as_str());
                s
            },
            RLMError::SerializationError(m) => {
                let mut s = String::from_str("Serialization error: ");
                s.append(m.as_str());
                s
            },
            RLMError::SchedulingFailed(m) => {
                let mut s = String::from_str("Scheduling error: ");
                s.append(m.as_str());
                s
            },
            RLMError::ContextFoldingFailed(m) => {
                let mut s = String::from_str("Context folding failed: ");
                s.append(m.as_str());
                s
            },
            RLMError::InternalError(m) => {
                let mut s = String::from_str("Internal error: ");
                s.append(m.as_str());
                s
            },
        }
    }
}

/// Errors raised by the federation layer.
#[derive(Debug)]
pub enum FederationError {
    DuplicateAgent(String),
    AgentNotFound(String),
    RegistrationFailed(String),
    MessageDeliveryFailed(String),
    InvalidMessageType(String),
    SerializationError(String),
    DeserializationError(String),
    NetworkError(String),
    InternalError(String),
    TaskNotFound(String),
    InvalidTaskState(String),
    NoSuitableAgents,
    ExecutionError(String),
    DepthExceeded { max: usize, current: usize },
    ProtocolViolation(String),
    ConfigurationError(String),
}

impl FederationError {
    /// The rendered message of the error.
    pub open spec fn describe(self) -> Seq<char> {
        match self {
            FederationError::DuplicateAgent(m) => "Agent "@ + m@ + " already exists in the federation"@,
            FederationError::AgentNotFound(m) => "Agent "@ + m@ + " not found in the federation"@,
            FederationError::RegistrationFailed(m) => "Failed to register with coordinator: "@ + m@,
            FederationError::MessageDeliveryFailed(m) => "Message delivery failed: "@ + m@,
            FederationError::InvalidMessageType(m) => "Invalid message type: "@ + m@,
            FederationError::SerializationError(m) => "Serialization error: "@ + m@,
            FederationError::DeserializationError(m) => "Deserialization error: "@ + m@,
            FederationError::NetworkError(m) => "Network error: "@ + m@,
            FederationError::InternalError(m) => "Internal error: "@ + m@,
            FederationError::TaskNotFound(m) => "Task "@ + m@ + " not found"@,
            FederationError::InvalidTaskState(m) => "Invalid task state for task "@ + m@,
            FederationError::ExecutionError(m) => "Execution error: "@ + m@,
            FederationError::ProtocolViolation(m) => "Protocol violation: "@ + m@,
            FederationError::ConfigurationError(m) => "Configuration error: "@ + m@,
            FederationError::NoSuitableAgents => "No suitable agents available for task delegation"@,
            FederationError::DepthExceeded { max, current } => "Recursive depth exceeded (max: "@
                + decimal(max as nat) + ", current: "@ + decimal(current as nat) + ")"@,
        }
    }

    /// Renders the error as text.
    pub fn to_string(&self) -> (s: String)
        ensures
            s@ == self.describe(),
    {
        match self {
            FederationError::DuplicateAgent(m) => {
                let mut s = String::from_str("Agent ");
                s.append(m.as_str());
                s.append(" already exists in the federation");
                s
            },
            FederationError::AgentNotFound(m) => {
                let mut s = String::from_str("Agent ");
                s.append(m.as_str());
                s.append(" not found in the federation");
                s
            },
            FederationError::RegistrationFailed(m) => {
                let mut s = String::from_str("Failed to register with coordinator: ");
                s.append(m.as_str());
                s
            },
            FederationError::MessageDeliveryFailed(m) => {
                let mut s = String::from_str("Message delivery failed: ");
                s.append(m.as_str());
                s
            },
            FederationError::InvalidMessageType(m) => {
                let mut s = String::from_str("Invalid message type: ");
                s.append(m.as_str());
                s
            },
            FederationError::SerializationError(m) => {
                let mut s = String::from_str("Serialization error: ");
                s.append(m.as_str());
                s
            },
            FederationError::DeserializationError(m) => {
                let mut s = String::from_str("Deserialization error: ");
                s.append(m.as_str());
                s
            },
            FederationError::NetworkError(m) => {
                let mut s = String::from_str("Network error: ");
                s.append(m.as_str());
                s
            },
            FederationError::InternalError(m) => {
                let mut s = String::from_str("Internal error: ");
                s.append(m.as_str());
                s
            },
            FederationError::TaskNotFound(m) => {
                let mut s = String::from_str("Task ");
                s.append(m.as_str());
                s.append(" not found");
                s
            },
            FederationError::InvalidTaskState(m) => {
                let mut s = String::from_str("Invalid task state for task ");
                s.append(m.as_str());
                s
            },
            FederationError::ExecutionError(m) => {
                let mut s = String::from_str("Execution error: ");
                s.append(m.as_str());
                s
            },
            FederationError::ProtocolViolation(m) => {
                let mut s = String::from_str("Protocol violation: ");
                s.append(m.as_str());
                s
            },
            FederationError::ConfigurationError(m) => {
                let mut s = String::from_str("Configuration error: ");
                s.append(m.as_str());
                s
            },
            FederationError::NoSuitableAgents => String::from_str(
                "No suitable agents available for task delegation",
            ),
            FederationError::DepthExceeded { max, current } => {
                let mut out = to_chars("Recursive depth exceeded (max: ");
                push_decimal(&mut out, *max as u64);
                let mid = to_chars(", current: ");
                extend_chars(&mut out, mid.as_slice());
                push_decimal(&mut out, *current as u64);
                out.push(')');
                proof {
                    reveal_strlit(")");
                    assert(")"@ =~= seq![')']);
                    assert(out@ =~= self.describe());
                }
                from_chars(out.as_slice())
            },
        }
    }
}

} // verus!
