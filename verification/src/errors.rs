//! The error taxonomy of the core.

use vstd::prelude::*;

verus! {

/// A failure at the provider boundary.  `transient` marks a condition that
/// is safe to retry or fall back on; a non-transient failure is a caller
/// mistake that must not be retried blindly.
#[derive(Debug)]
pub struct ProviderError {
    pub transient: bool,
    pub message: String,
}

/// The mathematical value of a `ProviderError`.
pub struct ProviderErrorView {
    pub transient: bool,
    pub message: Seq<char>,
}

impl View for ProviderError {
    type V = ProviderErrorView;

    open spec fn view(&self) -> ProviderErrorView {
        ProviderErrorView { transient: self.transient, message: self.message@ }
    }
}

impl Clone for ProviderError {
    fn clone(&self) -> (r: Self)
        ensures
            r == *self,
    {
        ProviderError { transient: self.transient, message: self.message.clone() }
    }
}

/// Why the registry refused or failed an invocation.
#[derive(Debug)]
pub enum ToolError {
    /// No tool of that name is registered.
    UnknownTool { tool_name: String },
    /// The request's arguments do not conform to the registered schema.
    SchemaValidation { tool_name: String },
    /// The handler exceeded the caller-provided timeout.
    Timeout { tool_name: String },
    /// The handler itself failed; its message is carried along.
    Handler { tool_name: String, message: String },
}

/// The mathematical value of a `ToolError`.
pub enum ToolErrorView {
    UnknownTool { tool_name: Seq<char> },
    SchemaValidation { tool_name: Seq<char> },
    Timeout { tool_name: Seq<char> },
    Handler { tool_name: Seq<char>, message: Seq<char> },
}

impl View for ToolError {
    type V = ToolErrorView;

    open spec fn view(&self) -> ToolErrorView {
        match self {
            ToolError::UnknownTool { tool_name } => ToolErrorView::UnknownTool {
                tool_name: tool_name@,
            },
            ToolError::SchemaValidation { tool_name } => ToolErrorView::SchemaValidation {
                tool_name: tool_name@,
            },
            ToolError::Timeout { tool_name } => ToolErrorView::Timeout { tool_name: tool_name@ },
            ToolError::Handler { tool_name, message } => ToolErrorView::Handler {
                tool_name: tool_name@,
                message: message@,
            },
        }
    }
}

/// Registering a second tool under an already-taken name.
#[derive(Debug)]
pub struct DuplicateToolError {
    pub tool_name: String,
}

impl View for DuplicateToolError {
    type V = Seq<char>;

    open spec fn view(&self) -> Seq<char> {
        self.tool_name@
    }
}

/// How a whole agent request fails.
#[derive(Debug)]
pub enum AgentError {
    /// The provider failed; carried unchanged.
    Provider { error: ProviderError },
    /// The provider requested a tool the registry does not hold.
    UnknownTool { tool_name: String },
    /// The round-trip bound was reached while the model still requested tools.
    ToolLoopExceeded { bound: usize },
    /// A tool invocation exceeded the loop's patience.
    ToolTimeout { tool_name: String },
    /// The caller cancelled the in-flight request.
    Cancelled,
}

/// The mathematical value of an `AgentError`.
pub enum AgentErrorView {
    Provider { error: ProviderErrorView },
    UnknownTool { tool_name: Seq<char> },
    ToolLoopExceeded { bound: nat },
    ToolTimeout { tool_name: Seq<char> },
    Cancelled,
}

impl View for AgentError {
    type V = AgentErrorView;

    open spec fn view(&self) -> AgentErrorView {
        match self {
            AgentError::Provider { error } => AgentErrorView::Provider { error: error@ },
            AgentError::UnknownTool { tool_name } => AgentErrorView::UnknownTool {
                tool_name: tool_name@,
            },
            AgentError::ToolLoopExceeded { bound } => AgentErrorView::ToolLoopExceeded {
                bound: *bound as nat,
            },
            AgentError::ToolTimeout { tool_name } => AgentErrorView::ToolTimeout {
                tool_name: tool_name@,
            },
            AgentError::Cancelled => AgentErrorView::Cancelled,
        }
    }
}

impl Clone for AgentError {
    fn clone(&self) -> (r: Self)
        ensures
            r == *self,
    {
        match self {
            AgentError::Provider { error } => AgentError::Provider { error: error.clone() },
            AgentError::UnknownTool { tool_name } => AgentError::UnknownTool {
                tool_name: tool_name.clone(),
            },
            AgentError::ToolLoopExceeded { bound } => AgentError::ToolLoopExceeded {
                bound: *bound,
            },
            AgentError::ToolTimeout { tool_name } => AgentError::ToolTimeout {
                tool_name: tool_name.clone(),
            },
            AgentError::Cancelled => AgentError::Cancelled,
        }
    }
}

/// A request fails transiently when falling back to another agent may help:
/// a transient provider failure, or a model that never stopped requesting
/// tools.  Everything else reproduces on any backend.
pub open spec fn spec_is_transient(e: AgentErrorView) -> bool {
    match e {
        AgentErrorView::Provider { error } => error.transient,
        AgentErrorView::ToolLoopExceeded { .. } => true,
        _ => false,
    }
}

impl AgentError {
    /// Whether another agent is worth trying after this failure.
    pub fn is_transient(&self) -> (r: bool)
        ensures
            r == spec_is_transient(self@),
    {
        match self {
            AgentError::Provider { error } => error.transient,
            AgentError::ToolLoopExceeded { .. } => true,
            _ => false,
        }
    }
}

/// How a fallback chain fails as a whole.
#[derive(Debug)]
pub enum FallbackError {
    /// Every agent in the chain failed transiently; the last failure is kept.
    AllProvidersExhausted { last: AgentError },
    /// A non-transient failure, surfaced verbatim without trying the rest.
    NonRetryable { error: AgentError },
}

/// The mathematical value of a `FallbackError`.
pub enum FallbackErrorView {
    AllProvidersExhausted { last: AgentErrorView },
    NonRetryable { error: AgentErrorView },
}

impl View for FallbackError {
    type V = FallbackErrorView;

    open spec fn view(&self) -> FallbackErrorView {
        match self {
            FallbackError::AllProvidersExhausted { last } => {
                FallbackErrorView::AllProvidersExhausted { last: last@ }
            },
            FallbackError::NonRetryable { error } => FallbackErrorView::NonRetryable {
                error: error@,
            },
        }
    }
}

} // verus!
