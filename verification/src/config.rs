//! The immutable sampling and orchestration configuration of an agent.
//!
//! Temperature is carried in hundredths, so that the interval from zero to
//! two is the integer range zero to two hundred and the configuration stays
//! within plain values.

use vstd::prelude::*;

verus! {

/// The default cap on model/tool round trips in one request.
pub const DEFAULT_ITERATION_BOUND: usize = 8;

/// An agent's configuration.  Meant to be built once, by the consuming
/// setters below, and then left alone: the agent takes it by value, and
/// every contract over it re-requires `wf()`.  Rebuilding requires
/// constructing a new agent.
pub struct AgentConfig {
    /// The system-level instruction text seeding every conversation.
    pub preamble: String,
    /// Sampling temperature in hundredths: 0 up to 200.
    pub temperature_centi: u8,
    /// A positive cap on response tokens, if any.
    pub max_tokens: Option<u64>,
    /// The names of the tools the agent exposes.
    pub tool_names: Vec<String>,
    /// How many model/tool round trips one request may make; at least one.
    pub iteration_bound: usize,
}

impl AgentConfig {
    /// A valid configuration: temperature within range, a positive token
    /// cap where one is set, and a positive iteration bound.
    pub open spec fn wf(&self) -> bool {
        &&& self.temperature_centi <= 200
        &&& (self.max_tokens matches Some(n) ==> n >= 1)
        &&& self.iteration_bound >= 1
    }

    /// A configuration with the given preamble and the defaults: one degree
    /// of temperature, no token cap, no tools.
    pub fn new(preamble: String) -> (r: AgentConfig)
        ensures
            r.wf(),
            r.preamble@ == preamble@,
            r.temperature_centi == 100,
            r.max_tokens is None,
            r.tool_names@.len() == 0,
            r.iteration_bound == DEFAULT_ITERATION_BOUND,
    {
        AgentConfig {
            preamble,
            temperature_centi: 100,
            max_tokens: Option::None,
            tool_names: Vec::new(),
            iteration_bound: DEFAULT_ITERATION_BOUND,
        }
    }

    /// The same configuration at another temperature, in hundredths.
    pub fn with_temperature(self, temperature_centi: u8) -> (r: AgentConfig)
        requires
            temperature_centi <= 200,
        ensures
            r == (AgentConfig { temperature_centi, ..self }),
    {
        AgentConfig { temperature_centi, ..self }
    }

    /// The same configuration with a positive response token cap.
    pub fn with_max_tokens(self, max_tokens: u64) -> (r: AgentConfig)
        requires
            max_tokens >= 1,
        ensures
            r == (AgentConfig { max_tokens: Some(max_tokens), ..self }),
    {
        AgentConfig { max_tokens: Option::Some(max_tokens), ..self }
    }

    /// The same configuration with another round-trip bound.
    pub fn with_iteration_bound(self, iteration_bound: usize) -> (r: AgentConfig)
        requires
            iteration_bound >= 1,
        ensures
            r == (AgentConfig { iteration_bound, ..self }),
    {
        AgentConfig { iteration_bound, ..self }
    }

    /// The same configuration exposing one more tool name.
    pub fn with_tool(self, name: String) -> (r: AgentConfig)
        ensures
            r.preamble == self.preamble,
            r.temperature_centi == self.temperature_centi,
            r.max_tokens == self.max_tokens,
            r.iteration_bound == self.iteration_bound,
            r.tool_names@ == self.tool_names@.push(name),
    {
        let mut tool_names = self.tool_names;
        tool_names.push(name);
        AgentConfig {
            preamble: self.preamble,
            temperature_centi: self.temperature_centi,
            max_tokens: self.max_tokens,
            tool_names,
            iteration_bound: self.iteration_bound,
        }
    }
}

} // verus!
