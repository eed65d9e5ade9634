//! The event alphabet an agent emits on its broadcast feed.
//!
//! The streaming adapter and the protocol formatters consume exactly these
//! events; the agent runtime that produces them stays outside the crate.
use vstd::prelude::*;

verus! {

/// A tool invocation as the agent reports it: a correlation id, the tool's
/// name, and the raw argument object as a JSON string.
#[derive(Clone, Debug)]
pub struct ToolCallRecord {
    pub call_id: String,
    pub tool_name: String,
    pub arguments: String,
}

/// Result of a finished tool invocation.
#[derive(Clone, Debug)]
pub enum ToolOutcome {
    Success { output: String },
    Failure { error: String },
    Denied,
}

/// Publicly visible state of the agent loop.
#[derive(PartialEq, Eq, Structural, Clone, Copy, Debug)]
pub enum AgentStatus {
    Running,
    Paused,
    Stopped,
}

/// What one LLM turn produced: an assistant message, nothing textual, or an
/// error from the model call.
#[derive(Clone, Debug)]
pub enum BrainOutcome {
    Message { text: String },
    Empty,
    Failure { error: String },
}

/// One event on a session's broadcast feed.
#[derive(Clone, Debug)]
pub enum AgentEvent {
    /// An LLM turn finished.
    BrainResult { thought: BrainOutcome },
    /// A tool invocation began.
    ToolCallStarted { call: ToolCallRecord },
    /// A tool invocation finished.
    ToolCallCompleted { call: ToolCallRecord, result: ToolOutcome },
    /// The agent loop changed state.
    StatusChanged { new_status: AgentStatus },
    /// Terminal: the agent finished its task.
    Completed { message: String, success: bool },
    /// A non-terminal runtime error.
    Error { error: String },
}

} // verus!
