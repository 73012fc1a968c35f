//! The orchestration loop as an explicit state machine.
//!
//! One in-flight request owns one session.  The session decides every
//! transition; whoever drives it (a verified loop here, or an asynchronous
//! caller) performs the provider call and the tool invocations and hands
//! the results back as plain events.

use vstd::prelude::*;
use crate::config::AgentConfig;
use crate::errors::{AgentError, AgentErrorView, ProviderError, ToolError};
use crate::messages::{conversation_wf, Message, MessageView, Role, tool_ids_paired};
use crate::provider::ProviderResponse;
use crate::registry::{RequestView, ToolInvocationRequest, ToolResult};

verus! {

/// Where the loop stands.
pub enum Phase {
    /// Waiting for the provider's next round.
    AwaitingModel,
    /// Waiting for the requested tool invocations to settle.
    AwaitingTools,
    /// A final answer was produced.
    Done { answer: String },
    /// The request failed.
    Failed { error: AgentError },
}

/// How one tool invocation settled.
pub enum ToolOutcome {
    /// The tool produced output.
    Success { output: String },
    /// The tool failed recoverably; the model gets to react to the message.
    Failure { message: String },
    /// No tool of that name is registered: the whole request fails.
    MissingTool { tool_name: String },
    /// The invocation exceeded the loop's patience: the whole request fails.
    TimedOut { tool_name: String },
}

/// The mathematical value of a `ToolOutcome`.
pub enum OutcomeView {
    Success { output: Seq<char> },
    Failure { message: Seq<char> },
    MissingTool { tool_name: Seq<char> },
    TimedOut { tool_name: Seq<char> },
}

impl View for ToolOutcome {
    type V = OutcomeView;

    open spec fn view(&self) -> OutcomeView {
        match self {
            ToolOutcome::Success { output } => OutcomeView::Success { output: output@ },
            ToolOutcome::Failure { message } => OutcomeView::Failure { message: message@ },
            ToolOutcome::MissingTool { tool_name } => OutcomeView::MissingTool {
                tool_name: tool_name@,
            },
            ToolOutcome::TimedOut { tool_name } => OutcomeView::TimedOut {
                tool_name: tool_name@,
            },
        }
    }
}

impl DeepView for ToolOutcome {
    type V = OutcomeView;

    open spec fn deep_view(&self) -> OutcomeView {
        self@
    }
}

/// What the session asks of its driver after a provider round.
pub enum ModelAction {
    /// The request is complete.
    Finished { answer: String },
    /// Run these invocations and hand their outcomes back, in this order.
    RunTools { requests: Vec<ToolInvocationRequest> },
    /// The request failed.
    Fail { error: AgentError },
}

/// What the session asks after the tool outcomes were handed back.
pub enum ToolsAction {
    /// Ask the provider for its next round.
    Proceed,
    /// The request failed.
    Fail { error: AgentError },
}

/// The assistant turn recording one issued invocation request.
pub open spec fn assistant_note(r: RequestView) -> MessageView {
    MessageView {
        role: Role::Assistant,
        content: r.tool_name,
        tool_call_id: Option::Some(r.call_id),
    }
}

/// The assistant turns recording a whole round of requests.
pub open spec fn request_notes(rs: Seq<RequestView>) -> Seq<MessageView> {
    rs.map_values(|r: RequestView| assistant_note(r))
}

/// The text a settled invocation contributes to the conversation.
pub open spec fn outcome_text(o: OutcomeView) -> Seq<char> {
    match o {
        OutcomeView::Success { output } => output,
        OutcomeView::Failure { message } => message,
        OutcomeView::MissingTool { tool_name } => tool_name,
        OutcomeView::TimedOut { tool_name } => tool_name,
    }
}

/// An outcome that fails the whole request rather than the one tool.
pub open spec fn is_fatal(o: OutcomeView) -> bool {
    o is MissingTool || o is TimedOut
}

/// The request-level error a fatal outcome surfaces as.
pub open spec fn fatal_error(o: OutcomeView) -> AgentErrorView {
    match o {
        OutcomeView::MissingTool { tool_name } => AgentErrorView::UnknownTool { tool_name },
        OutcomeView::TimedOut { tool_name } => AgentErrorView::ToolTimeout { tool_name },
        _ => AgentErrorView::Cancelled,
    }
}

/// The tool turns answering a round, in request order, under the issued
/// identifiers.
pub open spec fn tool_messages(outs: Seq<OutcomeView>, ids: Seq<Seq<char>>) -> Seq<MessageView> {
    Seq::new(
        outs.len(),
        |i: int|
            MessageView {
                role: Role::Tool,
                content: outcome_text(outs[i]),
                tool_call_id: Option::Some(ids[i]),
            },
    )
}

/// Some assistant turn on record issued this identifier.
pub open spec fn id_on_record(conv: Seq<MessageView>, id: Seq<char>) -> bool {
    exists|j: int|
        0 <= j < conv.len() && (#[trigger] conv[j]).role is Assistant && conv[j].tool_call_id
            == Option::Some(id)
}

/// Every pending identifier was issued by an assistant turn on record.
pub open spec fn ids_recorded(conv: Seq<MessageView>, ids: Seq<Seq<char>>) -> bool {
    forall|i: int| 0 <= i < ids.len() ==> id_on_record(conv, #[trigger] ids[i])
}

/// The message a recoverable schema violation leaves for the model.
pub open spec fn schema_violation_text() -> Seq<char> {
    "the arguments do not conform to the tool schema"@
}

/// Fold one registry result into a tool outcome: success and handler or
/// schema failures are recoverable; an unknown tool fails the request; the
/// registry itself never times an invocation out.
pub fn outcome_of_invocation(r: Result<ToolResult, ToolError>) -> (o: ToolOutcome)
    ensures
        (match r {
            Ok(res) => o matches ToolOutcome::Success { output } && output@ == res@.output,
            Err(e) => (match e {
                ToolError::UnknownTool { tool_name } => o matches ToolOutcome::MissingTool {
                    tool_name: n,
                } && n@ == tool_name@,
                ToolError::Timeout { tool_name } => o matches ToolOutcome::TimedOut {
                    tool_name: n,
                } && n@ == tool_name@,
                ToolError::SchemaValidation { .. } => o matches ToolOutcome::Failure { message }
                    && message@ == schema_violation_text(),
                ToolError::Handler { message, .. } => o matches ToolOutcome::Failure {
                    message: m,
                } && m@ == message@,
            }),
        }),
{
    match r {
        Ok(res) => ToolOutcome::Success { output: res.output },
        Err(ToolError::UnknownTool { tool_name }) => ToolOutcome::MissingTool { tool_name },
        Err(ToolError::Timeout { tool_name }) => ToolOutcome::TimedOut { tool_name },
        Err(ToolError::SchemaValidation { .. }) => ToolOutcome::Failure {
            message: "the arguments do not conform to the tool schema".to_owned(),
        },
        Err(ToolError::Handler { message, .. }) => ToolOutcome::Failure { message },
    }
}

/// The first outcome that fails the whole request, if any.
fn find_fatal(outcomes: &Vec<ToolOutcome>) -> (r: Option<usize>)
    ensures
        (match r {
            Option::Some(k) => {
                &&& 0 <= k < outcomes@.len()
                &&& is_fatal(outcomes@[k as int]@)
                &&& forall|m: int| 0 <= m < k ==> !is_fatal((#[trigger] outcomes@[m])@)
            },
            Option::None => forall|m: int|
                0 <= m < outcomes@.len() ==> !is_fatal((#[trigger] outcomes@[m])@),
        }),
{
    let mut k: usize = 0;
    while k < outcomes.len()
        invariant
            0 <= k <= outcomes.len(),
            forall|m: int| 0 <= m < k ==> !is_fatal((#[trigger] outcomes@[m])@),
        decreases outcomes.len() - k,
    {
        match &outcomes[k] {
            ToolOutcome::MissingTool { .. } => {
                return Option::Some(k);
            },
            ToolOutcome::TimedOut { .. } => {
                return Option::Some(k);
            },
            _ => {},
        }
        k += 1;
    }
    Option::None
}

/// One in-flight request: the conversation so far, the identifiers of the
/// pending invocations, the round trips used, and the phase.
pub struct AgentSession {
    pub conversation: Vec<Message>,
    pub pending_ids: Vec<String>,
    pub rounds_used: usize,
    pub bound: usize,
    pub phase: Phase,
}

impl AgentSession {
    /// The session invariant: a well-formed conversation, the round count
    /// within its bound, no pending invocations outside `AwaitingTools`,
    /// and every pending identifier on record.
    pub open spec fn wf(&self) -> bool {
        &&& conversation_wf(self.conversation.deep_view())
        &&& self.rounds_used <= self.bound
        &&& self.bound >= 1
        &&& (self.phase is AwaitingModel ==> self.pending_ids@.len() == 0)
        &&& (self.phase is AwaitingTools ==> ids_recorded(
            self.conversation.deep_view(),
            self.pending_ids.deep_view(),
        ))
    }

    /// Seed a session: the preamble as the system turn, the caller's input
    /// as the user turn.
    pub fn start(config: &AgentConfig, input: String) -> (s: AgentSession)
        requires
            config.wf(),
        ensures
            s.wf(),
            s.phase is AwaitingModel,
            s.rounds_used == 0,
            s.bound == config.iteration_bound,
            s.conversation.deep_view() =~= seq![
                MessageView {
                    role: Role::System,
                    content: config.preamble@,
                    tool_call_id: Option::None,
                },
                MessageView { role: Role::User, content: input@, tool_call_id: Option::None },
            ],
    {
        let mut conversation: Vec<Message> = Vec::new();
        conversation.push(Message::system(config.preamble.clone()));
        conversation.push(Message::user(input));
        AgentSession {
            conversation,
            pending_ids: Vec::new(),
            rounds_used: 0,
            bound: config.iteration_bound,
            phase: Phase::AwaitingModel,
        }
    }

    /// Seed a session from caller-held history: the preamble first, then
    /// the history verbatim.
    #[verifier::rlimit(60)]
    #[verifier::spinoff_prover]
    pub fn start_with_history(config: &AgentConfig, history: &Vec<Message>) -> (s: AgentSession)
        requires
            config.wf(),
            forall|i: int|
                0 <= i < history.deep_view().len() ==> !((#[trigger] history.deep_view()[i]).role
                    is System),
            tool_ids_paired(history.deep_view()),
        ensures
            s.wf(),
            s.phase is AwaitingModel,
            s.rounds_used == 0,
            s.bound == config.iteration_bound,
            s.conversation.deep_view() =~= seq![
                MessageView {
                    role: Role::System,
                    content: config.preamble@,
                    tool_call_id: Option::None,
                },
            ] + history.deep_view(),
    {
        let mut conversation: Vec<Message> = Vec::new();
        conversation.push(Message::system(config.preamble.clone()));
        let mut i: usize = 0;
        while i < history.len()
            invariant
                0 <= i <= history.len(),
                conversation@.len() == 1 + i,
                conversation@[0]@ == (MessageView {
                    role: Role::System,
                    content: config.preamble@,
                    tool_call_id: Option::None,
                }),
                forall|k: int| 0 <= k < i ==> #[trigger] conversation@[k + 1] == history@[k],
            decreases history.len() - i,
        {
            conversation.push(history[i].clone());
            i += 1;
        }
        let s = AgentSession {
            conversation,
            pending_ids: Vec::new(),
            rounds_used: 0,
            bound: config.iteration_bound,
            phase: Phase::AwaitingModel,
        };
        proof {
            let sys = MessageView {
                role: Role::System,
                content: config.preamble@,
                tool_call_id: Option::None,
            };
            let conv = s.conversation.deep_view();
            let h = history.deep_view();
            assert forall|j: int| 0 <= j < conv.len() implies conv[j] == (seq![sys] + h)[j] by {
                if j > 0 {
                    assert(conversation@[(j - 1) + 1] == history@[j - 1]);
                }
            }
            assert(conv =~= seq![sys] + h);
            assert forall|j: int| 0 <= j < conv.len() && #[trigger] conv[j].role is Tool implies {
                &&& conv[j].tool_call_id is Some
                &&& exists|k: int|
                    0 <= k < j && #[trigger] conv[k].role is Assistant && conv[k].tool_call_id
                        == conv[j].tool_call_id
            } by {
                assert(conv[j] == h[j - 1]);
                let k0 = choose|k0: int|
                    0 <= k0 < j - 1 && #[trigger] h[k0].role is Assistant && h[k0].tool_call_id
                        == h[j - 1].tool_call_id;
                assert(conv[k0 + 1] == h[k0]);
                assert(conv[k0 + 1].role is Assistant && conv[k0 + 1].tool_call_id
                    == conv[j].tool_call_id);
            }
        }
        s
    }

    /// Fold the provider's round into the session.
    ///
    /// A failure fails the request unchanged.  A final answer completes
    /// it.  A round of tool-call requests either exceeds the bound — the
    /// request fails with the loop error at exactly the bound — or is
    /// recorded and handed back to run.
    #[verifier::spinoff_prover]
    pub fn on_provider_response(&mut self, response: Result<ProviderResponse, ProviderError>) -> (a:
        ModelAction)
        requires
            old(self).wf(),
            old(self).phase is AwaitingModel,
        ensures
            final(self).wf(),
            final(self).bound == old(self).bound,
            (match response {
                Err(pe) => {
                    &&& a matches ModelAction::Fail { error } && error@ == (AgentErrorView::Provider {
                        error: pe@,
                    })
                    &&& final(self).phase matches Phase::Failed { error } && error@
                        == (AgentErrorView::Provider { error: pe@ })
                    &&& final(self).conversation.deep_view() == old(self).conversation.deep_view()
                    &&& final(self).rounds_used == old(self).rounds_used
                },
                Ok(resp) => (match resp {
                    ProviderResponse::Final { text } => {
                        &&& a matches ModelAction::Finished { answer } && answer@ == text@
                        &&& final(self).phase matches Phase::Done { answer } && answer@ == text@
                        &&& final(self).conversation.deep_view() == old(
                            self,
                        ).conversation.deep_view().push(
                            (MessageView {
                                role: Role::Assistant,
                                content: text@,
                                tool_call_id: Option::None,
                            }),
                        )
                        &&& final(self).rounds_used == old(self).rounds_used
                    },
                    ProviderResponse::ToolCalls { requests } => {
                        if old(self).rounds_used == old(self).bound {
                            &&& a matches ModelAction::Fail { error } && error@
                                == (AgentErrorView::ToolLoopExceeded {
                                bound: old(self).bound as nat,
                            })
                            &&& final(self).phase matches Phase::Failed { error } && error@
                                == (AgentErrorView::ToolLoopExceeded {
                                bound: old(self).bound as nat,
                            })
                            &&& final(self).conversation.deep_view() == old(
                                self,
                            ).conversation.deep_view()
                            &&& final(self).rounds_used == old(self).rounds_used
                        } else {
                            &&& a matches ModelAction::RunTools { requests: rs } && rs.deep_view()
                                == requests.deep_view()
                            &&& final(self).phase is AwaitingTools
                            &&& final(self).rounds_used == old(self).rounds_used + 1
                            &&& final(self).conversation.deep_view() == old(
                                self,
                            ).conversation.deep_view() + request_notes(requests.deep_view())
                            &&& final(self).pending_ids.deep_view() == requests.deep_view()
                                .map_values(|r: RequestView| r.call_id)
                        }
                    },
                }),
            }),
    {
        match response {
            Err(pe) => {
                let e = AgentError::Provider { error: pe };
                self.phase = Phase::Failed { error: e.clone() };
                ModelAction::Fail { error: e }
            },
            Ok(ProviderResponse::Final { text }) => {
                self.conversation.push(Message::assistant(text.clone()));
                proof {
                    let prev = old(self).conversation.deep_view();
                    let conv = self.conversation.deep_view();
                    let m = MessageView {
                        role: Role::Assistant,
                        content: text@,
                        tool_call_id: Option::None,
                    };
                    assert forall|j: int| 0 <= j < conv.len() implies conv[j] == prev.push(m)[j] by {
                        if j < prev.len() {
                            assert(self.conversation@[j] == old(self).conversation@[j]);
                        } else {
                            assert((self.conversation@[j])@ == m);
                        }
                    }
                    assert(conv =~= prev.push(m));
                    crate::messages::lemma_push_keeps_wf(prev, m);
                }
                self.phase = Phase::Done { answer: text.clone() };
                ModelAction::Finished { answer: text }
            },
            Ok(ProviderResponse::ToolCalls { requests }) => {
                if self.rounds_used == self.bound {
                    let e = AgentError::ToolLoopExceeded { bound: self.bound };
                    self.phase = Phase::Failed { error: e.clone() };
                    ModelAction::Fail { error: e }
                } else {
                    let rs = self.record_tool_round(requests);
                    ModelAction::RunTools { requests: rs }
                }
            },
        }
    }

    /// Record one round of issued requests: note each as an assistant
    /// turn, remember its identifier, and spend one round trip.
    #[verifier::rlimit(80)]
    #[verifier::spinoff_prover]
    fn record_tool_round(&mut self, requests: Vec<ToolInvocationRequest>) -> (rs: Vec<
        ToolInvocationRequest,
    >)
        requires
            old(self).wf(),
            old(self).phase is AwaitingModel,
            old(self).rounds_used < old(self).bound,
        ensures
            final(self).wf(),
            final(self).bound == old(self).bound,
            final(self).rounds_used == old(self).rounds_used + 1,
            final(self).phase is AwaitingTools,
            rs.deep_view() == requests.deep_view(),
            final(self).conversation.deep_view() == old(self).conversation.deep_view()
                + request_notes(requests.deep_view()),
            final(self).pending_ids.deep_view() == requests.deep_view().map_values(
                |r: RequestView| r.call_id,
            ),
    {
        self.rounds_used = self.rounds_used + 1;
        let ghost conv0 = old(self).conversation@;
        let mut i: usize = 0;
        while i < requests.len()
            invariant
                0 <= i <= requests.len(),
                self.conversation@.len() == conv0.len() + i,
                forall|k: int|
                    0 <= k < conv0.len() ==> #[trigger] self.conversation@[k] == conv0[k],
                forall|k: int|
                    0 <= k < i ==> (#[trigger] self.conversation@[conv0.len() + k])@
                        == assistant_note(requests@[k]@),
                self.pending_ids@.len() == i,
                forall|k: int|
                    0 <= k < i ==> (#[trigger] self.pending_ids@[k])@ == requests@[k]@.call_id,
                self.rounds_used == old(self).rounds_used + 1,
                self.bound == old(self).bound,
                self.phase == old(self).phase,
            decreases requests.len() - i,
        {
            self.conversation.push(
                Message::assistant_tool_call(
                    requests[i].tool_name.clone(),
                    requests[i].call_id.clone(),
                ),
            );
            self.pending_ids.push(requests[i].call_id.clone());
            i += 1;
        }
        self.phase = Phase::AwaitingTools;
        proof {
            let rs = requests.deep_view();
            let conv = self.conversation.deep_view();
            let ids = self.pending_ids.deep_view();
            let prev = old(self).conversation.deep_view();
            assert forall|j: int| 0 <= j < conv.len() implies conv[j] == (prev + request_notes(
                rs,
            ))[j] by {
                if j < conv0.len() {
                    assert(self.conversation@[j] == conv0[j]);
                } else {
                    assert((self.conversation@[conv0.len() + (j - conv0.len())])@
                        == assistant_note(requests@[j - conv0.len()]@));
                }
            }
            assert(conv =~= prev + request_notes(rs));
            assert forall|k: int| 0 <= k < ids.len() implies ids[k] == rs.map_values(
                |r: RequestView| r.call_id,
            )[k] by {
                assert((self.pending_ids@[k])@ == requests@[k]@.call_id);
            }
            assert(ids =~= rs.map_values(|r: RequestView| r.call_id));
            assert forall|j: int| 0 <= j < request_notes(rs).len() implies (#[trigger] request_notes(
                rs,
            )[j]).role is Assistant by {
                assert(request_notes(rs)[j] == assistant_note(rs[j]));
            }
            crate::messages::lemma_append_assistants_keeps_wf(prev, request_notes(rs));
            assert forall|k: int| 0 <= k < ids.len() implies id_on_record(
                conv,
                #[trigger] ids[k],
            ) by {
                assert(conv[prev.len() + k] == request_notes(rs)[k]);
                assert(conv[prev.len() + k].role is Assistant);
                assert(conv[prev.len() + k].tool_call_id == Option::Some(ids[k]));
                assert(0 <= prev.len() + k < conv.len());
            }
            assert(ids_recorded(conv, ids));
        }
        requests
    }

    /// Fold the settled outcomes of the pending round back in, in request
    /// order, so identifier pairing is preserved.
    ///
    /// A fatal outcome — an unknown tool, or an invocation that timed out —
    /// fails the whole request and leaves the conversation as it stood.
    #[verifier::spinoff_prover]
    pub fn on_tool_outcomes(&mut self, outcomes: Vec<ToolOutcome>) -> (a: ToolsAction)
        requires
            old(self).wf(),
            old(self).phase is AwaitingTools,
            outcomes@.len() == old(self).pending_ids@.len(),
        ensures
            final(self).wf(),
            final(self).bound == old(self).bound,
            final(self).rounds_used == old(self).rounds_used,
            ({
                let outs = outcomes.deep_view();
                let ids = old(self).pending_ids.deep_view();
                let conv = old(self).conversation.deep_view();
                if exists|k: int| 0 <= k < outs.len() && is_fatal(#[trigger] outs[k]) {
                    &&& a matches ToolsAction::Fail { error } && (exists|k: int|
                        0 <= k < outs.len() && is_fatal(#[trigger] outs[k]) && (forall|m: int|
                            0 <= m < k ==> !is_fatal(#[trigger] outs[m])) && error@ == fatal_error(
                            outs[k],
                        ))
                    &&& final(self).phase is Failed
                    &&& final(self).conversation.deep_view() == conv
                } else {
                    &&& a is Proceed
                    &&& final(self).phase is AwaitingModel
                    &&& final(self).conversation.deep_view() == conv + tool_messages(outs, ids)
                    &&& final(self).pending_ids@.len() == 0
                }
            }),
    {
        match find_fatal(&outcomes) {
            Option::Some(k) => {
                let e: AgentError = match &outcomes[k] {
                    ToolOutcome::MissingTool { tool_name } => AgentError::UnknownTool {
                        tool_name: tool_name.clone(),
                    },
                    ToolOutcome::TimedOut { tool_name } => AgentError::ToolTimeout {
                        tool_name: tool_name.clone(),
                    },
                    ToolOutcome::Success { .. } => AgentError::Cancelled,
                    ToolOutcome::Failure { .. } => AgentError::Cancelled,
                };
                self.phase = Phase::Failed { error: e.clone() };
                proof {
                    let outs = outcomes.deep_view();
                    assert(outs[k as int] == outcomes@[k as int]@);
                    assert forall|m: int| 0 <= m < k implies !is_fatal(#[trigger] outs[m]) by {
                        assert(!is_fatal(outcomes@[m]@));
                    }
                    assert(e@ == fatal_error(outs[k as int]));
                }
                ToolsAction::Fail { error: e }
            },
            Option::None => {
                proof {
                    assert forall|m: int| 0 <= m < outcomes.deep_view().len() implies !is_fatal(
                        #[trigger] outcomes.deep_view()[m],
                    ) by {
                        assert(!is_fatal(outcomes@[m]@));
                    }
                }
                self.append_tool_round(&outcomes);
                ToolsAction::Proceed
            },
        }
    }

    /// Append one settled round as tool turns, in request order, and hand
    /// the loop back to the model.
    #[verifier::rlimit(80)]
    #[verifier::spinoff_prover]
    fn append_tool_round(&mut self, outcomes: &Vec<ToolOutcome>)
        requires
            old(self).wf(),
            old(self).phase is AwaitingTools,
            outcomes@.len() == old(self).pending_ids@.len(),
            forall|m: int| 0 <= m < outcomes@.len() ==> !is_fatal((#[trigger] outcomes@[m])@),
        ensures
            final(self).wf(),
            final(self).bound == old(self).bound,
            final(self).rounds_used == old(self).rounds_used,
            final(self).phase is AwaitingModel,
            final(self).pending_ids@.len() == 0,
            final(self).conversation.deep_view() == old(self).conversation.deep_view()
                + tool_messages(outcomes.deep_view(), old(self).pending_ids.deep_view()),
    {
        let ghost conv0 = old(self).conversation@;
        let mut i: usize = 0;
        while i < outcomes.len()
            invariant
                0 <= i <= outcomes.len(),
                outcomes@.len() == self.pending_ids@.len(),
                self.pending_ids == old(self).pending_ids,
                self.conversation@.len() == conv0.len() + i,
                forall|k2: int|
                    0 <= k2 < conv0.len() ==> #[trigger] self.conversation@[k2] == conv0[k2],
                forall|k2: int|
                    0 <= k2 < i ==> (#[trigger] self.conversation@[conv0.len() + k2])@
                        == (MessageView {
                        role: Role::Tool,
                        content: outcome_text(outcomes@[k2]@),
                        tool_call_id: Option::Some(old(self).pending_ids@[k2]@),
                    }),
                self.rounds_used == old(self).rounds_used,
                self.bound == old(self).bound,
                self.phase == old(self).phase,
            decreases outcomes.len() - i,
        {
            let content: String = match &outcomes[i] {
                ToolOutcome::Success { output } => output.clone(),
                ToolOutcome::Failure { message } => message.clone(),
                ToolOutcome::MissingTool { tool_name } => tool_name.clone(),
                ToolOutcome::TimedOut { tool_name } => tool_name.clone(),
            };
            let id: String = self.pending_ids[i].clone();
            self.conversation.push(Message::tool(content, id));
            i += 1;
        }
        self.pending_ids = Vec::new();
        self.phase = Phase::AwaitingModel;
        proof {
            let outs = outcomes.deep_view();
            let ids = old(self).pending_ids.deep_view();
            let prev = old(self).conversation.deep_view();
            let conv = self.conversation.deep_view();
            let msgs = tool_messages(outs, ids);
            assert forall|j: int| 0 <= j < conv.len() implies conv[j] == (prev + msgs)[j] by {
                if j < conv0.len() {
                    assert(self.conversation@[j] == conv0[j]);
                } else {
                    assert((self.conversation@[conv0.len() + (j - conv0.len())])@
                        == (MessageView {
                        role: Role::Tool,
                        content: outcome_text(outcomes@[j - conv0.len()]@),
                        tool_call_id: Option::Some(old(self).pending_ids@[j - conv0.len()]@),
                    }));
                }
            }
            assert(conv =~= prev + msgs);
            assert forall|i2: int| 0 <= i2 < msgs.len() implies (#[trigger] msgs[i2]).role is Tool
                && msgs[i2].tool_call_id is Some by {
                assert(msgs[i2].tool_call_id == Option::Some(ids[i2]));
            }
            assert forall|i2: int| 0 <= i2 < msgs.len() implies exists|j: int|
                0 <= j < prev.len() && (#[trigger] prev[j]).role is Assistant
                    && prev[j].tool_call_id == (#[trigger] msgs[i2]).tool_call_id by {
                assert(msgs[i2].tool_call_id == Option::Some(ids[i2]));
                assert(id_on_record(prev, ids[i2]));
                let j0 = choose|j0: int|
                    0 <= j0 < prev.len() && (#[trigger] prev[j0]).role is Assistant
                        && prev[j0].tool_call_id == Option::Some(ids[i2]);
                assert(prev[j0].tool_call_id == msgs[i2].tool_call_id);
            }
            crate::messages::lemma_append_tools_keeps_wf(prev, msgs);
        }
    }

    /// Cancel the in-flight request: the session fails with the
    /// cancellation error, and the identifiers of the still-pending
    /// invocations are handed back so the driver can tell them to stop.
    pub fn on_cancel(&mut self) -> (stops: Vec<String>)
        requires
            old(self).wf(),
            old(self).phase is AwaitingModel || old(self).phase is AwaitingTools,
        ensures
            final(self).wf(),
            final(self).phase matches Phase::Failed { error } && error@
                == AgentErrorView::Cancelled,
            final(self).conversation.deep_view() == old(self).conversation.deep_view(),
            stops.deep_view() == old(self).pending_ids.deep_view(),
            final(self).pending_ids@.len() == 0,
    {
        let mut stops: Vec<String> = Vec::new();
        let mut i: usize = 0;
        while i < self.pending_ids.len()
            invariant
                0 <= i <= self.pending_ids.len(),
                stops@.len() == i,
                forall|k: int| 0 <= k < i ==> (#[trigger] stops@[k])@ == self.pending_ids@[k]@,
                self == old(self),
            decreases self.pending_ids.len() - i,
        {
            stops.push(self.pending_ids[i].clone());
            i += 1;
        }
        self.pending_ids = Vec::new();
        self.phase = Phase::Failed { error: AgentError::Cancelled };
        proof {
            assert forall|k: int| 0 <= k < stops.deep_view().len() implies stops.deep_view()[k]
                == old(self).pending_ids.deep_view()[k] by {
                assert(stops@[k]@ == old(self).pending_ids@[k]@);
            }
            assert(stops.deep_view() =~= old(self).pending_ids.deep_view());
        }
        stops
    }
}

} // verus!
