//! The completion provider boundary: what one model round returns, the
//! capability interface a concrete backend implements, and a scripted
//! provider that replays a fixed list of rounds deterministically.

use vstd::prelude::*;
use crate::config::AgentConfig;
use crate::errors::{ProviderError, ProviderErrorView};
use crate::messages::Message;
use crate::registry::{RequestView, ToolInvocationRequest};

verus! {

/// What one model round produced: a final answer, or tool-call requests.
pub enum ProviderResponse {
    Final { text: String },
    ToolCalls { requests: Vec<ToolInvocationRequest> },
}

/// The mathematical value of a `ProviderResponse`.
#[verifier::ext_equal]
pub enum ResponseView {
    Final { text: Seq<char> },
    ToolCalls { requests: Seq<RequestView> },
}

impl View for ProviderResponse {
    type V = ResponseView;

    open spec fn view(&self) -> ResponseView {
        match self {
            ProviderResponse::Final { text } => ResponseView::Final { text: text@ },
            ProviderResponse::ToolCalls { requests } => ResponseView::ToolCalls {
                requests: requests.deep_view(),
            },
        }
    }
}

impl Clone for ProviderResponse {
    fn clone(&self) -> (r: Self)
        ensures
            r@ == self@,
    {
        match self {
            ProviderResponse::Final { text } => ProviderResponse::Final { text: text.clone() },
            ProviderResponse::ToolCalls { requests } => {
                let mut out: Vec<ToolInvocationRequest> = Vec::new();
                let mut i: usize = 0;
                while i < requests.len()
                    invariant
                        0 <= i <= requests.len(),
                        out@.len() == i,
                        forall|k: int| 0 <= k < i ==> (#[trigger] out@[k])@ == requests@[k]@,
                    decreases requests.len() - i,
                {
                    out.push(requests[i].clone());
                    i += 1;
                }
                proof {
                    assert forall|k: int| 0 <= k < out.deep_view().len() implies out.deep_view()[k]
                        == requests.deep_view()[k] by {
                        assert(out@[k]@ == requests@[k]@);
                    }
                    assert(out.deep_view() =~= requests.deep_view());
                }
                ProviderResponse::ToolCalls { requests: out }
            },
        }
    }
}

/// One scripted model round, as a mathematical value: what the provider
/// answered, or how it failed.
pub type StepView = Result<ResponseView, ProviderErrorView>;

/// The value of one scripted round.
pub open spec fn step_view(step: Result<ProviderResponse, ProviderError>) -> StepView {
    match step {
        Ok(resp) => Ok(resp@),
        Err(e) => Err(e@),
    }
}

/// The capability interface to a concrete model backend.
///
/// One call is one model round over the conversation as it stands.  A
/// backend is an unverified adapter: nothing is promised of what comes
/// back, and the orchestration loop states what holds whatever does.
/// The receiver is mutable for the sake of stateful stubs; an adapter
/// over a shared backend should be a cheap per-request handle, so the
/// backend itself stays read-only across concurrent requests.
pub trait CompletionProvider {
    /// One model round: a final answer, tool-call requests, or a failure
    /// whose `transient` flag tells the fallback layer whether retrying
    /// elsewhere can help.
    fn complete(&mut self, conversation: &Vec<Message>, config: &AgentConfig) -> (r: Result<
        ProviderResponse,
        ProviderError,
    >);
}

/// A deterministic provider stub: replays a fixed script of rounds in
/// order, and fails transiently once the script is exhausted.
pub struct ScriptedProvider {
    script: Vec<Result<ProviderResponse, ProviderError>>,
    next: usize,
}

impl ScriptedProvider {
    /// The whole script, as scripted round values.
    pub closed spec fn script_steps(&self) -> Seq<StepView> {
        self.script@.map_values(|s: Result<ProviderResponse, ProviderError>| step_view(s))
    }

    /// How many rounds have been served.
    pub closed spec fn served(&self) -> nat {
        if self.next <= self.script@.len() {
            self.next as nat
        } else {
            self.script@.len()
        }
    }

    /// The rounds not yet served.
    pub open spec fn remaining_steps(&self) -> Seq<StepView> {
        self.script_steps().skip(self.served() as int)
    }

    /// How many rounds have been served, as a plain value.
    pub fn rounds_served(&self) -> (n: usize)
        ensures
            n as nat == self.served(),
    {
        if self.next <= self.script.len() {
            self.next
        } else {
            self.script.len()
        }
    }

    /// Never more rounds served than the script holds.
    pub proof fn lemma_served_in_range(&self)
        ensures
            self.served() <= self.script_steps().len(),
    {
    }

    /// A provider stub over the given script.
    pub fn new(script: Vec<Result<ProviderResponse, ProviderError>>) -> (r: ScriptedProvider)
        ensures
            r.script_steps() == script@.map_values(
                |s: Result<ProviderResponse, ProviderError>| step_view(s),
            ),
            r.served() == 0,
    {
        ScriptedProvider { script, next: 0 }
    }

    /// The next scripted round: the script entry in order, or a transient
    /// exhaustion failure once the script has run out.
    pub fn next_step(&mut self) -> (r: Result<ProviderResponse, ProviderError>)
        ensures
            final(self).script_steps() == old(self).script_steps(),
            (if old(self).remaining_steps().len() > 0 {
                &&& final(self).served() == old(self).served() + 1
                &&& step_view(r) == old(self).remaining_steps()[0]
            } else {
                &&& final(self).served() == old(self).served()
                &&& step_view(r) == exhausted_step()
            }),
    {
        if self.next < self.script.len() {
            let r = match &self.script[self.next] {
                Ok(resp) => Ok(resp.clone()),
                Err(e) => Err(e.clone()),
            };
            self.next = self.next + 1;
            proof {
                assert(old(self).remaining_steps()[0] == old(self).script_steps()[old(
                    self,
                ).served() as int]);
            }
            r
        } else {
            Err(ProviderError { transient: true, message: "the script is exhausted".to_owned() })
        }
    }
}

/// How a scripted provider answers past the end of its script.
pub open spec fn exhausted_step() -> StepView {
    Err(ProviderErrorView { transient: true, message: "the script is exhausted"@ })
}

impl CompletionProvider for ScriptedProvider {
    fn complete(&mut self, _conversation: &Vec<Message>, _config: &AgentConfig) -> (r: Result<
        ProviderResponse,
        ProviderError,
    >) {
        self.next_step()
    }
}

} // verus!
