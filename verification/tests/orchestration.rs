//! The orchestration loop, provider fallback, streaming and cancellation.

use agent_core::agent::Agent;
use agent_core::config::AgentConfig;
use agent_core::errors::{AgentError, FallbackError, ProviderError};
use agent_core::fallback::{fallback_decision, fallback_over_attempts, FallbackDecision};
use agent_core::messages::{Message, Role};
use agent_core::provider::{ProviderResponse, ScriptedProvider};
use agent_core::registry::{ToolInvocationRequest, ToolRegistry};
use agent_core::schema::{Arg, ArgValue, Arguments};
use agent_core::errors::ToolError;
use agent_core::session::{outcome_of_invocation, AgentSession, ModelAction, Phase, ToolOutcome, ToolsAction};
use agent_core::stream::{collect_stream, StreamEnd, StreamEvent};
use agent_core::tools::{Calculator, ToolCapability};

fn calculator_request(call_id: &str, expression: &str) -> ToolInvocationRequest {
    ToolInvocationRequest {
        call_id: call_id.to_string(),
        tool_name: "calculator".to_string(),
        arguments: Arguments {
            entries: vec![Arg {
                name: "expression".to_string(),
                value: ArgValue::Text(expression.to_string()),
            }],
        },
    }
}

fn calculator_agent(bound: usize) -> Agent<Calculator> {
    let mut registry = ToolRegistry::new();
    registry.register(Calculator.definition(), Calculator).unwrap();
    let config = AgentConfig::new("You are a helpful assistant.".to_string())
        .with_tool("calculator".to_string())
        .with_iteration_bound(bound);
    Agent::new(config, registry).unwrap()
}

fn tool_round(expression: &str) -> Result<ProviderResponse, ProviderError> {
    Ok(ProviderResponse::ToolCalls { requests: vec![calculator_request("call-1", expression)] })
}

fn final_answer(text: &str) -> Result<ProviderResponse, ProviderError> {
    Ok(ProviderResponse::Final { text: text.to_string() })
}

#[test]
fn tool_round_then_final_answer() {
    let agent = calculator_agent(3);
    let mut provider = ScriptedProvider::new(vec![tool_round("2+2"), final_answer("it is 4")]);
    let r = agent.prompt_scripted("what is 2+2?".to_string(), &mut provider);
    assert_eq!(r.unwrap(), "it is 4");
    assert_eq!(provider.rounds_served(), 2);
}

#[test]
fn replaying_the_same_script_yields_the_same_answer() {
    let agent = calculator_agent(3);
    let script = || vec![tool_round("2+2"), final_answer("it is 4")];
    let mut first = ScriptedProvider::new(script());
    let mut second = ScriptedProvider::new(script());
    let a = agent.prompt_scripted("what is 2+2?".to_string(), &mut first);
    let b = agent.prompt_scripted("what is 2+2?".to_string(), &mut second);
    assert_eq!(a.unwrap(), b.unwrap());
}

#[test]
fn loop_error_arrives_exactly_at_the_bound() {
    let bound = 3;
    let agent = calculator_agent(bound);
    let endless: Vec<_> = (0..bound + 2).map(|_| tool_round("1+1")).collect();
    let mut provider = ScriptedProvider::new(endless);
    let r = agent.prompt_scripted("loop forever".to_string(), &mut provider);
    match r {
        Err(AgentError::ToolLoopExceeded { bound: b }) => assert_eq!(b, bound),
        other => panic!("expected the loop error, got {:?}", other),
    }
    assert_eq!(provider.rounds_served(), bound + 1);
}

#[test]
fn no_loop_error_before_the_bound() {
    let bound = 3;
    let agent = calculator_agent(bound);
    let script: Vec<_> = (0..bound).map(|_| tool_round("1+1")).collect();
    let mut provider = ScriptedProvider::new(script);
    let r = agent.prompt_scripted("almost loop".to_string(), &mut provider);
    match r {
        Err(AgentError::Provider { error }) => assert!(error.transient),
        other => panic!("expected the exhausted-script failure, got {:?}", other),
    }
    assert_eq!(provider.rounds_served(), bound);
}

#[test]
fn unknown_requested_tool_fails_the_request() {
    let agent = calculator_agent(3);
    let mut request = calculator_request("call-1", "2+2");
    request.tool_name = "missing".to_string();
    let mut provider = ScriptedProvider::new(vec![
        Ok(ProviderResponse::ToolCalls { requests: vec![request] }),
        final_answer("never reached"),
    ]);
    let r = agent.prompt_scripted("use a missing tool".to_string(), &mut provider);
    match r {
        Err(AgentError::UnknownTool { tool_name }) => assert_eq!(tool_name, "missing"),
        other => panic!("expected an unknown tool failure, got {:?}", other),
    }
}

#[test]
fn provider_failure_is_surfaced_unchanged() {
    let agent = calculator_agent(3);
    let mut provider = ScriptedProvider::new(vec![Err(ProviderError {
        transient: false,
        message: "bad api key".to_string(),
    })]);
    let r = agent.prompt_scripted("hello".to_string(), &mut provider);
    match r {
        Err(AgentError::Provider { error }) => {
            assert!(!error.transient);
            assert_eq!(error.message, "bad api key");
        },
        other => panic!("expected the provider failure, got {:?}", other),
    }
}

#[test]
fn generic_prompt_and_chat_drive_the_same_loop() {
    let agent = calculator_agent(3);
    let mut provider = ScriptedProvider::new(vec![final_answer("hello there")]);
    let r = agent.prompt("hi".to_string(), &mut provider);
    assert_eq!(r.unwrap(), "hello there");

    let history = vec![
        Message::user("What is ownership in Rust?".to_string()),
        Message::assistant("A discipline of moves and borrows.".to_string()),
        Message::user("Can you give an example?".to_string()),
    ];
    let mut provider = ScriptedProvider::new(vec![final_answer("let s = String::new();")]);
    let r = agent.chat(&history, &mut provider);
    assert_eq!(r.unwrap(), "let s = String::new();");
}

#[test]
fn fallback_uses_the_secondary_after_a_transient_failure() {
    let attempts: Vec<Result<String, AgentError>> = vec![
        Err(AgentError::Provider {
            error: ProviderError { transient: true, message: "timeout".to_string() },
        }),
        Ok("the secondary answer".to_string()),
    ];
    let r = fallback_over_attempts(attempts);
    assert_eq!(r.unwrap(), "the secondary answer");
}

#[test]
fn fallback_stops_on_a_non_transient_failure_without_the_secondary() {
    // The decision alone: a lazy driver consults it before any further agent.
    let primary: Result<String, AgentError> = Err(AgentError::Provider {
        error: ProviderError { transient: false, message: "bad config".to_string() },
    });
    assert!(matches!(fallback_decision(&primary), FallbackDecision::Stop));

    // Driven lazily over two scripted agents: the secondary is never asked.
    let agent = calculator_agent(3);
    let mut primary_provider = ScriptedProvider::new(vec![Err(ProviderError {
        transient: false,
        message: "bad config".to_string(),
    })]);
    let mut secondary_provider = ScriptedProvider::new(vec![final_answer("unused")]);
    let first = agent.prompt_scripted("hello".to_string(), &mut primary_provider);
    let outcome = match fallback_decision(&first) {
        FallbackDecision::UseAnswer => first,
        FallbackDecision::Stop => first,
        FallbackDecision::TryNext => {
            agent.prompt_scripted("hello".to_string(), &mut secondary_provider)
        },
    };
    match outcome {
        Err(AgentError::Provider { error }) => assert_eq!(error.message, "bad config"),
        other => panic!("expected the primary's failure verbatim, got {:?}", other),
    }
    assert_eq!(secondary_provider.rounds_served(), 0);

    // The whole-chain fold surfaces it as non-retryable.
    let attempts: Vec<Result<String, AgentError>> = vec![
        Err(AgentError::Provider {
            error: ProviderError { transient: false, message: "bad config".to_string() },
        }),
        Ok("unused".to_string()),
    ];
    match fallback_over_attempts(attempts) {
        Err(FallbackError::NonRetryable { error: AgentError::Provider { error } }) => {
            assert_eq!(error.message, "bad config");
        },
        other => panic!("expected a non-retryable failure, got {:?}", other),
    }
}

#[test]
fn fallback_exhaustion_wraps_the_last_failure() {
    let attempts: Vec<Result<String, AgentError>> = vec![
        Err(AgentError::Provider {
            error: ProviderError { transient: true, message: "first".to_string() },
        }),
        Err(AgentError::Provider {
            error: ProviderError { transient: true, message: "second".to_string() },
        }),
    ];
    match fallback_over_attempts(attempts) {
        Err(FallbackError::AllProvidersExhausted { last: AgentError::Provider { error } }) => {
            assert_eq!(error.message, "second");
        },
        other => panic!("expected exhaustion, got {:?}", other),
    }
}

#[test]
fn stream_interrupted_by_a_tool_call_is_finite_and_resumable() {
    let events = vec![
        StreamEvent::Chunk { text: "Once".to_string() },
        StreamEvent::Chunk { text: " upon".to_string() },
        StreamEvent::ToolCalls { requests: vec![calculator_request("call-7", "2+2")] },
        StreamEvent::Chunk { text: " a time".to_string() },
    ];
    let r = collect_stream(&events);
    assert_eq!(r.chunks, vec!["Once".to_string(), " upon".to_string()]);
    assert_eq!(r.consumed, 3);
    match r.end {
        StreamEnd::Interrupted { requests } => {
            assert_eq!(requests.len(), 1);
            assert_eq!(requests[0].tool_name, "calculator");
        },
        _ => panic!("expected the tool-call interruption"),
    }

    // The caller runs the tool round over the non-streaming path, then
    // re-initiates streaming and retrieves the continuation.
    let continuation = vec![StreamEvent::Chunk { text: " a time".to_string() }, StreamEvent::End];
    let r = collect_stream(&continuation);
    assert_eq!(r.chunks, vec![" a time".to_string()]);
    assert!(matches!(r.end, StreamEnd::Completed));
    assert_eq!(r.consumed, 2);
}

#[test]
fn stream_error_terminates_early() {
    let events = vec![
        StreamEvent::Chunk { text: "partial".to_string() },
        StreamEvent::Failure {
            error: ProviderError { transient: true, message: "connection reset".to_string() },
        },
        StreamEvent::Chunk { text: "never seen".to_string() },
    ];
    let r = collect_stream(&events);
    assert_eq!(r.chunks, vec!["partial".to_string()]);
    assert_eq!(r.consumed, 2);
    assert!(matches!(r.end, StreamEnd::Failed { .. }));
}

#[test]
fn stream_that_runs_dry_completes() {
    let events = vec![StreamEvent::Chunk { text: "all".to_string() }];
    let r = collect_stream(&events);
    assert_eq!(r.chunks, vec!["all".to_string()]);
    assert_eq!(r.consumed, 1);
    assert!(matches!(r.end, StreamEnd::Completed));
}

#[test]
fn cancelling_with_pending_invocations_reports_them_stopped() {
    let config = AgentConfig::new("be brief".to_string()).with_iteration_bound(3);
    let mut session = AgentSession::start(&config, "compute things".to_string());
    let requests =
        vec![calculator_request("call-1", "1+1"), calculator_request("call-2", "2+2")];
    let action = session.on_provider_response(Ok(ProviderResponse::ToolCalls { requests }));
    assert!(matches!(action, ModelAction::RunTools { .. }));

    // The driver records which in-flight invocations it told to stop.
    let mut told_to_stop: Vec<String> = Vec::new();
    let stops = session.on_cancel();
    for id in &stops {
        told_to_stop.push(id.clone());
    }
    assert_eq!(told_to_stop, vec!["call-1".to_string(), "call-2".to_string()]);
    assert!(session.pending_ids.is_empty());
    match &session.phase {
        Phase::Failed { error: AgentError::Cancelled } => {},
        _ => panic!("expected the cancellation failure"),
    }
}

#[test]
fn timed_out_invocation_fails_the_whole_request() {
    let timed_out = outcome_of_invocation(Err(ToolError::Timeout {
        tool_name: "calculator".to_string(),
    }));
    assert!(matches!(timed_out, ToolOutcome::TimedOut { .. }));

    let config = AgentConfig::new("be brief".to_string()).with_iteration_bound(3);
    let mut session = AgentSession::start(&config, "slow work".to_string());
    let requests = vec![calculator_request("call-1", "1+1")];
    let action = session.on_provider_response(Ok(ProviderResponse::ToolCalls { requests }));
    assert!(matches!(action, ModelAction::RunTools { .. }));
    let length_before = session.conversation.len();
    match session.on_tool_outcomes(vec![timed_out]) {
        ToolsAction::Fail { error: AgentError::ToolTimeout { tool_name } } => {
            assert_eq!(tool_name, "calculator");
        },
        _ => panic!("expected the timeout failure"),
    }
    assert!(matches!(session.phase, Phase::Failed { .. }));
    assert_eq!(session.conversation.len(), length_before);
}

#[test]
fn session_seeds_and_threads_the_conversation() {
    let config = AgentConfig::new("be brief".to_string()).with_iteration_bound(3);
    let mut session = AgentSession::start(&config, "what is 2+2?".to_string());
    assert_eq!(session.conversation.len(), 2);
    assert_eq!(session.conversation[0].role, Role::System);
    assert_eq!(session.conversation[0].content, "be brief");
    assert_eq!(session.conversation[1].role, Role::User);

    let requests = vec![calculator_request("call-1", "2+2")];
    let action = session.on_provider_response(Ok(ProviderResponse::ToolCalls { requests }));
    let requests = match action {
        ModelAction::RunTools { requests } => requests,
        _ => panic!("expected a tool round"),
    };
    assert_eq!(session.conversation.len(), 3);
    assert_eq!(session.conversation[2].role, Role::Assistant);
    assert_eq!(session.conversation[2].tool_call_id, Some("call-1".to_string()));

    let mut registry = ToolRegistry::new();
    registry.register(Calculator.definition(), Calculator).unwrap();
    let mut outcomes = Vec::new();
    for request in &requests {
        outcomes.push(outcome_of_invocation(registry.invoke(request)));
    }
    session.on_tool_outcomes(outcomes);
    assert_eq!(session.conversation.len(), 4);
    assert_eq!(session.conversation[3].role, Role::Tool);
    assert_eq!(session.conversation[3].content, "4");
    assert_eq!(session.conversation[3].tool_call_id, Some("call-1".to_string()));
}

#[test]
fn agent_construction_rejects_unknown_tool_names() {
    let registry: ToolRegistry<Calculator> = ToolRegistry::new();
    let config = AgentConfig::new("be brief".to_string()).with_tool("calculator".to_string());
    match Agent::new(config, registry) {
        Err(AgentError::UnknownTool { tool_name }) => assert_eq!(tool_name, "calculator"),
        _ => panic!("expected a construction-time unknown tool failure"),
    }
}
