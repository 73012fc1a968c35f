//! The agent: a preamble, sampling configuration, a tool registry and a
//! completion provider composed into one conversational entity.
//!
//! The loop over a scripted provider is pinned to a mathematical model,
//! `spec_run`, so that replaying one script twice provably gives one
//! answer, and the round-trip bound is provably hit at exactly the bound.

use vstd::prelude::*;
use crate::config::AgentConfig;
use crate::errors::{AgentError, AgentErrorView, ProviderErrorView};
use crate::messages::{tool_ids_paired, Message};
use crate::provider::{CompletionProvider, ResponseView, ScriptedProvider, StepView};
use crate::registry::{
    spec_find_tool, RegisteredTool, RequestView, ToolInvocationRequest, ToolRegistry,
};
use crate::schema::args_conform;
use crate::session::{
    is_fatal, fatal_error, outcome_of_invocation, AgentSession, ModelAction, OutcomeView,
    ToolOutcome, ToolsAction,
};
use crate::tools::ToolCapability;

verus! {

/// The first requested tool the registry does not hold, in request order.
pub open spec fn first_missing<H: ToolCapability>(
    entries: Seq<RegisteredTool<H>>,
    requests: Seq<RequestView>,
) -> Option<Seq<char>>
    decreases requests.len(),
{
    if requests.len() == 0 {
        Option::None
    } else if spec_find_tool(entries, requests[0].tool_name) is None {
        Option::Some(requests[0].tool_name)
    } else {
        first_missing(entries, requests.drop_first())
    }
}

/// What one request leaves behind: its outcome, and how many scripted
/// rounds it consumed.
pub struct RunModel {
    pub outcome: Result<Seq<char>, AgentErrorView>,
    pub used: nat,
}

/// How a run over an exhausted script fails.
pub open spec fn exhausted_error() -> AgentErrorView {
    AgentErrorView::Provider {
        error: ProviderErrorView { transient: true, message: "the script is exhausted"@ },
    }
}

/// The mathematical model of the orchestration loop over a scripted
/// provider: each round is a final answer, a failure carried unchanged,
/// or a round of tool calls that either exceeds the bound, names an
/// unregistered tool, or spends one round trip and continues.
pub open spec fn spec_run<H: ToolCapability>(
    entries: Seq<RegisteredTool<H>>,
    bound: nat,
    rounds: nat,
    replies: Seq<StepView>,
) -> RunModel
    decreases replies.len(),
{
    if replies.len() == 0 {
        RunModel { outcome: Err(exhausted_error()), used: 0 }
    } else {
        match replies[0] {
            Err(e) => RunModel { outcome: Err(AgentErrorView::Provider { error: e }), used: 1 },
            Ok(ResponseView::Final { text }) => RunModel { outcome: Ok(text), used: 1 },
            Ok(ResponseView::ToolCalls { requests }) => {
                if rounds >= bound {
                    RunModel {
                        outcome: Err(AgentErrorView::ToolLoopExceeded { bound }),
                        used: 1,
                    }
                } else {
                    match first_missing(entries, requests) {
                        Option::Some(name) => RunModel {
                            outcome: Err(AgentErrorView::UnknownTool { tool_name: name }),
                            used: 1,
                        },
                        Option::None => {
                            let rest = spec_run(entries, bound, rounds + 1, replies.drop_first());
                            RunModel { outcome: rest.outcome, used: rest.used + 1 }
                        },
                    }
                }
            },
        }
    }
}

/// What dispatching one request through the registry can leave behind.
pub open spec fn outcome_matches_request<H: ToolCapability>(
    entries: Seq<RegisteredTool<H>>,
    req: RequestView,
    o: OutcomeView,
) -> bool {
    match o {
        OutcomeView::Success { output } => spec_find_tool(entries, req.tool_name) matches
            Option::Some(entry) && {
            &&& args_conform(entry.definition@.parameters, req.arguments)
            &&& entry.handler.spec_call(req.arguments) == Ok::<Seq<char>, ()>(output)
        },
        OutcomeView::Failure { .. } => spec_find_tool(entries, req.tool_name) is Some,
        OutcomeView::MissingTool { tool_name } => tool_name == req.tool_name && spec_find_tool(
            entries,
            req.tool_name,
        ) is None,
        OutcomeView::TimedOut { .. } => false,
    }
}

proof fn lemma_outcomes_fatality<H: ToolCapability>(
    entries: Seq<RegisteredTool<H>>,
    requests: Seq<RequestView>,
    outs: Seq<OutcomeView>,
)
    requires
        outs.len() == requests.len(),
        forall|i: int|
            0 <= i < outs.len() ==> outcome_matches_request(
                entries,
                requests[i],
                #[trigger] outs[i],
            ),
    ensures
        (match first_missing(entries, requests) {
            Option::None => forall|i: int| 0 <= i < outs.len() ==> !is_fatal(#[trigger] outs[i]),
            Option::Some(name) => exists|k: int|
                0 <= k < outs.len() && is_fatal(#[trigger] outs[k]) && (forall|m: int|
                    0 <= m < k ==> !is_fatal(#[trigger] outs[m])) && fatal_error(outs[k])
                    == (AgentErrorView::UnknownTool { tool_name: name }),
        }),
    decreases requests.len(),
{
    if requests.len() == 0 {
    } else {
        assert(outcome_matches_request(entries, requests[0], outs[0]));
        if spec_find_tool(entries, requests[0].tool_name) is None {
            assert(outs[0] matches OutcomeView::MissingTool { tool_name } && tool_name
                == requests[0].tool_name);
            assert(is_fatal(outs[0]));
        } else {
            assert(!is_fatal(outs[0]));
            let rq = requests.drop_first();
            let os = outs.drop_first();
            assert forall|i: int| 0 <= i < os.len() implies outcome_matches_request(
                entries,
                rq[i],
                #[trigger] os[i],
            ) by {
                assert(os[i] == outs[i + 1]);
                assert(rq[i] == requests[i + 1]);
                assert(outcome_matches_request(entries, requests[i + 1], outs[i + 1]));
            }
            lemma_outcomes_fatality(entries, rq, os);
            match first_missing(entries, rq) {
                Option::None => {
                    assert forall|i: int| 0 <= i < outs.len() implies !is_fatal(
                        #[trigger] outs[i],
                    ) by {
                        if i > 0 {
                            assert(!is_fatal(os[i - 1]));
                        }
                    }
                },
                Option::Some(name) => {
                    let k0 = choose|k0: int|
                        0 <= k0 < os.len() && is_fatal(#[trigger] os[k0]) && (forall|m: int|
                            0 <= m < k0 ==> !is_fatal(#[trigger] os[m])) && fatal_error(os[k0])
                            == (AgentErrorView::UnknownTool { tool_name: name });
                    assert(outs[k0 + 1] == os[k0]);
                    assert forall|m: int| 0 <= m < k0 + 1 implies !is_fatal(#[trigger] outs[m]) by {
                        if m > 0 {
                            assert(os[m - 1] == outs[m]);
                            assert(!is_fatal(os[m - 1]));
                        }
                    }
                },
            }
        }
    }
}

/// Replaying the same script against the same agent twice yields the same
/// outcome: the model is a function of the registry, the bound and the
/// script, and the loop is pinned to the model.
pub proof fn lemma_replay_deterministic<H: ToolCapability>(
    entries: Seq<RegisteredTool<H>>,
    bound: nat,
    replies1: Seq<StepView>,
    replies2: Seq<StepView>,
)
    requires
        replies1 == replies2,
    ensures
        spec_run(entries, bound, 0, replies1) == spec_run(entries, bound, 0, replies2),
{
}

/// An agent: an immutable configuration bound to a registry whose tools
/// cover every name the configuration exposes.
pub struct Agent<H: ToolCapability> {
    pub config: AgentConfig,
    pub registry: ToolRegistry<H>,
}

impl<H: ToolCapability> Agent<H> {
    /// A valid agent: a valid configuration, a registry of unique names,
    /// and every exposed tool name registered.
    pub open spec fn wf(&self) -> bool {
        &&& self.config.wf()
        &&& self.registry.wf()
        &&& forall|i: int|
            0 <= i < self.config.tool_names@.len() ==> self.registry.spec_has(
                (#[trigger] self.config.tool_names@[i])@,
            )
    }

    /// Bind a configuration to a registry.  A tool name the registry does
    /// not hold is a construction-time error, not a runtime one.
    pub fn new(config: AgentConfig, registry: ToolRegistry<H>) -> (r: Result<Agent<H>, AgentError>)
        requires
            config.wf(),
            registry.wf(),
        ensures
            (match r {
                Ok(agent) => {
                    &&& agent.config == config
                    &&& agent.registry == registry
                    &&& agent.wf()
                },
                Err(e) => {
                    &&& e matches AgentError::UnknownTool { tool_name }
                        && !registry.spec_has(tool_name@) && (exists|i: int|
                        0 <= i < config.tool_names@.len()
                            && (#[trigger] config.tool_names@[i])@ == tool_name@)
                },
            }),
    {
        let mut i: usize = 0;
        while i < config.tool_names.len()
            invariant
                0 <= i <= config.tool_names@.len(),
                forall|k: int|
                    0 <= k < i ==> registry.spec_has((#[trigger] config.tool_names@[k])@),
            decreases config.tool_names@.len() - i,
        {
            if !registry.has_tool(&config.tool_names[i]) {
                let name = config.tool_names[i].clone();
                return Err(AgentError::UnknownTool { tool_name: name });
            }
            i += 1;
        }
        Ok(Agent { config, registry })
    }

    /// Dispatch one round of requests through the registry, in request
    /// order, and fold each result into an outcome.
    fn run_tools(&self, requests: &Vec<ToolInvocationRequest>) -> (outcomes: Vec<ToolOutcome>)
        ensures
            outcomes@.len() == requests@.len(),
            forall|i: int|
                0 <= i < outcomes@.len() ==> outcome_matches_request(
                    self.registry.entries(),
                    requests.deep_view()[i],
                    ((#[trigger] outcomes@[i])@),
                ),
    {
        let mut outcomes: Vec<ToolOutcome> = Vec::new();
        let mut i: usize = 0;
        while i < requests.len()
            invariant
                0 <= i <= requests@.len(),
                outcomes@.len() == i,
                forall|k: int|
                    0 <= k < i ==> outcome_matches_request(
                        self.registry.entries(),
                        requests.deep_view()[k],
                        ((#[trigger] outcomes@[k])@),
                    ),
            decreases requests@.len() - i,
        {
            let o = outcome_of_invocation(self.registry.invoke(&requests[i]));
            proof {
                assert(requests.deep_view()[i as int] == requests@[i as int]@);
                if o@ is MissingTool {
                    assert forall|k: int| 0 <= k < self.registry.entries().len() implies (#[trigger] self.registry.entries()[k]).definition@.name
                        != requests@[i as int]@.tool_name by {
                        assert(!self.registry.spec_has(requests@[i as int]@.tool_name));
                    }
                    crate::registry::lemma_absent_find_none(
                        self.registry.entries(),
                        requests@[i as int]@.tool_name,
                    );
                }
            }
            outcomes.push(o);
            i += 1;
        }
        outcomes
    }

    /// Answer one prompt against a scripted provider.  The result is
    /// exactly what the model `spec_run` assigns to the remaining script,
    /// so equal scripts give equal answers, and the script is consumed by
    /// exactly the model's count of rounds.
    pub fn prompt_scripted(&self, input: String, provider: &mut ScriptedProvider) -> (r: Result<
        String,
        AgentError,
    >)
        requires
            self.wf(),
        ensures
            final(provider).script_steps() == old(provider).script_steps(),
            ({
                let model = spec_run(
                    self.registry.entries(),
                    self.config.iteration_bound as nat,
                    0,
                    old(provider).remaining_steps(),
                );
                &&& (match r {
                    Ok(answer) => model.outcome == Ok::<Seq<char>, AgentErrorView>(answer@),
                    Err(e) => model.outcome == Err::<Seq<char>, AgentErrorView>(e@),
                })
                &&& final(provider).served() == old(provider).served() + model.used
            }),
    {
        let ghost entries = self.registry.entries();
        let ghost bound = self.config.iteration_bound as nat;
        let ghost replies0 = old(provider).remaining_steps();
        let mut session = AgentSession::start(&self.config, input);
        loop
            invariant
                self.wf(),
                session.wf(),
                session.phase is AwaitingModel,
                session.bound == self.config.iteration_bound,
                provider.script_steps() == old(provider).script_steps(),
                entries == self.registry.entries(),
                bound == self.config.iteration_bound as nat,
                replies0 == old(provider).remaining_steps(),
                spec_run(entries, bound, 0, replies0).outcome == spec_run(
                    entries,
                    bound,
                    session.rounds_used as nat,
                    provider.remaining_steps(),
                ).outcome,
                old(provider).served() + spec_run(entries, bound, 0, replies0).used
                    == provider.served() + spec_run(
                    entries,
                    bound,
                    session.rounds_used as nat,
                    provider.remaining_steps(),
                ).used,
            decreases self.config.iteration_bound - session.rounds_used,
        {
            let ghost rem = provider.remaining_steps();
            let ghost rounds = session.rounds_used as nat;
            let ghost served0 = provider.served();
            proof {
                provider.lemma_served_in_range();
            }
            let step = provider.next_step();
            proof {
                provider.lemma_served_in_range();
                if rem.len() > 0 {
                    let ss = provider.script_steps();
                    assert(rem == ss.skip(served0 as int));
                    assert(provider.remaining_steps() == ss.skip(served0 as int + 1));
                    assert forall|j: int| 0 <= j < ss.skip(served0 as int + 1).len() implies ss.skip(
                        served0 as int + 1,
                    )[j] == rem.drop_first()[j] by {
                        assert(ss.skip(served0 as int + 1)[j] == ss[served0 as int + 1 + j]);
                        assert(rem.drop_first()[j] == rem[j + 1]);
                        assert(rem[j + 1] == ss[served0 as int + 1 + j]);
                    }
                    assert(provider.remaining_steps() =~= rem.drop_first());
                }
            }
            match session.on_provider_response(step) {
                ModelAction::Finished { answer } => {
                    return Ok(answer);
                },
                ModelAction::Fail { error } => {
                    return Err(error);
                },
                ModelAction::RunTools { requests } => {
                    let outcomes = self.run_tools(&requests);
                    proof {
                        assert(outcomes@.len() == requests@.len());
                        assert(requests.deep_view().len() == requests@.len());
                        assert(session.pending_ids@.len()
                            == session.pending_ids.deep_view().len());
                        assert(session.pending_ids.deep_view().len()
                            == requests.deep_view().map_values(
                            |r: RequestView| r.call_id,
                        ).len());
                        assert(outcomes@.len() == session.pending_ids@.len());
                        assert forall|i: int| 0 <= i < outcomes.deep_view().len() implies
                            outcome_matches_request(
                            entries,
                            requests.deep_view()[i],
                            #[trigger] outcomes.deep_view()[i],
                        ) by {
                            assert(outcomes.deep_view()[i] == outcomes@[i]@);
                        }
                        lemma_outcomes_fatality(
                            entries,
                            requests.deep_view(),
                            outcomes.deep_view(),
                        );
                    }
                    match session.on_tool_outcomes(outcomes) {
                        ToolsAction::Proceed => {
                            proof {
                                assert(spec_run(entries, bound, rounds, rem).outcome == spec_run(
                                    entries,
                                    bound,
                                    rounds + 1,
                                    rem.drop_first(),
                                ).outcome);
                            }
                        },
                        ToolsAction::Fail { error } => {
                            return Err(error);
                        },
                    }
                },
            }
        }
    }

    /// Answer one prompt: seed a conversation from the preamble and the
    /// input, then drive the loop against the given provider.
    ///
    /// A concrete backend is unverified, so nothing is promised of which
    /// answer comes back; whatever does, the loop error carries this
    /// agent's bound, and every failure is a typed `AgentError`.
    pub fn prompt<P: CompletionProvider>(&self, input: String, provider: &mut P) -> (r: Result<
        String,
        AgentError,
    >)
        requires
            self.wf(),
        ensures
            r matches Err(AgentError::ToolLoopExceeded { bound }) ==> bound
                == self.config.iteration_bound,
    {
        let session = AgentSession::start(&self.config, input);
        self.drive(session, provider)
    }

    /// Continue a caller-held conversation: seed from the preamble and the
    /// history verbatim, then drive the loop.
    pub fn chat<P: CompletionProvider>(&self, history: &Vec<Message>, provider: &mut P) -> (r:
        Result<String, AgentError>)
        requires
            self.wf(),
            forall|i: int|
                0 <= i < history.deep_view().len() ==> !((#[trigger] history.deep_view()[i]).role
                    is System),
            tool_ids_paired(history.deep_view()),
        ensures
            r matches Err(AgentError::ToolLoopExceeded { bound }) ==> bound
                == self.config.iteration_bound,
    {
        let session = AgentSession::start_with_history(&self.config, history);
        self.drive(session, provider)
    }

    /// Drive a seeded session to completion against any provider.
    ///
    /// These drivers apply no clock.  A caller that times tool
    /// invocations or observes cancellation drives `AgentSession` itself
    /// and hands back `TimedOut` outcomes or `on_cancel`.
    fn drive<P: CompletionProvider>(&self, session: AgentSession, provider: &mut P) -> (r: Result<
        String,
        AgentError,
    >)
        requires
            self.wf(),
            session.wf(),
            session.phase is AwaitingModel,
            session.bound == self.config.iteration_bound,
        ensures
            r matches Err(AgentError::ToolLoopExceeded { bound }) ==> bound
                == self.config.iteration_bound,
    {
        let mut session = session;
        loop
            invariant
                self.wf(),
                session.wf(),
                session.phase is AwaitingModel,
                session.bound == self.config.iteration_bound,
            decreases self.config.iteration_bound - session.rounds_used,
        {
            let step = provider.complete(&session.conversation, &self.config);
            match session.on_provider_response(step) {
                ModelAction::Finished { answer } => {
                    return Ok(answer);
                },
                ModelAction::Fail { error } => {
                    return Err(error);
                },
                ModelAction::RunTools { requests } => {
                    let outcomes = self.run_tools(&requests);
                    proof {
                        assert(outcomes@.len() == requests@.len());
                        assert(requests.deep_view().len() == requests@.len());
                        assert(session.pending_ids@.len()
                            == session.pending_ids.deep_view().len());
                        assert(session.pending_ids.deep_view().len()
                            == requests.deep_view().map_values(
                            |r: RequestView| r.call_id,
                        ).len());
                        assert(outcomes@.len() == session.pending_ids@.len());
                    }
                    match session.on_tool_outcomes(outcomes) {
                        ToolsAction::Proceed => {},
                        ToolsAction::Fail { error } => {
                            return Err(error);
                        },
                    }
                },
            }
        }
    }
}

/// Whatever the script holds, one request consumes at most one round past
/// the bound's worth of scripted provider rounds: the round-trip count
/// never exceeds the configured bound, and the provider is asked at most
/// once more than the bound allows.
pub proof fn lemma_rounds_bounded<H: ToolCapability>(
    entries: Seq<RegisteredTool<H>>,
    bound: nat,
    rounds: nat,
    replies: Seq<StepView>,
)
    requires
        rounds <= bound,
    ensures
        spec_run(entries, bound, rounds, replies).used <= bound - rounds + 1,
    decreases replies.len(),
{
    if replies.len() > 0 {
        match replies[0] {
            Ok(ResponseView::ToolCalls { requests }) => {
                if rounds < bound && first_missing(entries, requests) is None {
                    lemma_rounds_bounded(entries, bound, rounds + 1, replies.drop_first());
                }
            },
            _ => {},
        }
    }
}

/// With a script that only ever requests registered tool calls, the loop
/// error arrives at exactly the bound: the run consumes one round past the
/// bound's worth of scripted rounds and fails with `ToolLoopExceeded`.
pub proof fn lemma_loop_error_at_bound<H: ToolCapability>(
    entries: Seq<RegisteredTool<H>>,
    bound: nat,
    rounds: nat,
    replies: Seq<StepView>,
)
    requires
        rounds <= bound,
        replies.len() > bound - rounds,
        forall|i: int|
            0 <= i < replies.len() ==> ({
                &&& (#[trigger] replies[i]) matches Ok(ResponseView::ToolCalls { requests })
                &&& first_missing(entries, requests) is None
            }),
    ensures
        spec_run(entries, bound, rounds, replies).outcome == Err::<Seq<char>, AgentErrorView>(
            AgentErrorView::ToolLoopExceeded { bound },
        ),
        spec_run(entries, bound, rounds, replies).used == bound - rounds + 1,
    decreases bound - rounds,
{
    assert(replies[0] matches Ok(ResponseView::ToolCalls { requests }) && (first_missing(
        entries,
        requests,
    ) is None));
    if rounds < bound {
        assert forall|i: int| 0 <= i < replies.drop_first().len() implies ({
            &&& (#[trigger] replies.drop_first()[i]) matches Ok(ResponseView::ToolCalls { requests })
            &&& first_missing(entries, requests) is None
        }) by {
            assert(replies.drop_first()[i] == replies[i + 1]);
        }
        lemma_loop_error_at_bound(entries, bound, rounds + 1, replies.drop_first());
    }
}

/// With the same script but no more rounds than the bound allows, the run
/// never raises the loop error early: it consumes the whole script and
/// fails only for want of further rounds.
pub proof fn lemma_no_premature_loop_error<H: ToolCapability>(
    entries: Seq<RegisteredTool<H>>,
    bound: nat,
    rounds: nat,
    replies: Seq<StepView>,
)
    requires
        rounds <= bound,
        replies.len() <= bound - rounds,
        forall|i: int|
            0 <= i < replies.len() ==> ({
                &&& (#[trigger] replies[i]) matches Ok(ResponseView::ToolCalls { requests })
                &&& first_missing(entries, requests) is None
            }),
    ensures
        spec_run(entries, bound, rounds, replies).outcome == Err::<Seq<char>, AgentErrorView>(
            exhausted_error(),
        ),
        spec_run(entries, bound, rounds, replies).used == replies.len(),
    decreases replies.len(),
{
    if replies.len() > 0 {
        assert(replies[0] matches Ok(ResponseView::ToolCalls { requests }) && (first_missing(
            entries,
            requests,
        ) is None));
        assert forall|i: int| 0 <= i < replies.drop_first().len() implies ({
            &&& (#[trigger] replies.drop_first()[i]) matches Ok(ResponseView::ToolCalls { requests })
            &&& first_missing(entries, requests) is None
        }) by {
            assert(replies.drop_first()[i] == replies[i + 1]);
        }
        lemma_no_premature_loop_error(entries, bound, rounds + 1, replies.drop_first());
    }
}

} // verus!
