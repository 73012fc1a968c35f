//! Provider fallback: an ordered chain of agents, the next tried only on
//! a transient failure, a non-transient failure surfaced verbatim, and an
//! exhausted chain wrapped as `AllProvidersExhausted`.
//!
//! The per-attempt decision is `fallback_decision`; an asynchronous caller
//! drives the chain lazily with it.  `fallback_over_attempts` folds a
//! whole list of attempt outcomes and is pinned to the model
//! `spec_fallback`.

use vstd::prelude::*;
use crate::errors::{
    spec_is_transient, AgentError, AgentErrorView, FallbackError, FallbackErrorView,
};

verus! {

/// What to do with one agent's outcome.
pub enum FallbackDecision {
    /// The attempt answered: use it.
    UseAnswer,
    /// A transient failure: re-issue the identical input to the next agent.
    TryNext,
    /// A non-transient failure: surface it; further agents would reproduce it.
    Stop,
}

/// The mathematical value of one attempt.
pub open spec fn attempt_view(a: Result<String, AgentError>) -> Result<Seq<char>, AgentErrorView> {
    match a {
        Ok(t) => Ok(t@),
        Err(e) => Err(e@),
    }
}

/// Decide one attempt: answers are used, transient failures hand the
/// input to the next agent, everything else stops the chain.
pub fn fallback_decision(outcome: &Result<String, AgentError>) -> (d: FallbackDecision)
    ensures
        (match outcome {
            Ok(_) => d is UseAnswer,
            Err(e) => {
                &&& spec_is_transient(e@) ==> d is TryNext
                &&& !spec_is_transient(e@) ==> d is Stop
            },
        }),
{
    match outcome {
        Ok(_) => FallbackDecision::UseAnswer,
        Err(e) => {
            if e.is_transient() {
                FallbackDecision::TryNext
            } else {
                FallbackDecision::Stop
            }
        },
    }
}

/// The model of the chain: the first answer wins; a transient failure
/// moves on, remembered as the latest failure; a non-transient failure is
/// surfaced verbatim; running out of agents wraps the latest failure.
pub open spec fn spec_fallback(
    attempts: Seq<Result<Seq<char>, AgentErrorView>>,
    last: AgentErrorView,
) -> Result<Seq<char>, FallbackErrorView>
    decreases attempts.len(),
{
    if attempts.len() == 0 {
        Err(FallbackErrorView::AllProvidersExhausted { last })
    } else {
        match attempts[0] {
            Ok(t) => Ok(t),
            Err(e) => if spec_is_transient(e) {
                spec_fallback(attempts.drop_first(), e)
            } else {
                Err(FallbackErrorView::NonRetryable { error: e })
            },
        }
    }
}

/// Fold a whole chain of attempt outcomes, first agent first.
pub fn fallback_over_attempts(attempts: Vec<Result<String, AgentError>>) -> (r: Result<
    String,
    FallbackError,
>)
    requires
        attempts@.len() >= 1,
    ensures
        (match r {
            Ok(t) => spec_fallback(
                attempts@.map_values(|a: Result<String, AgentError>| attempt_view(a)),
                AgentErrorView::Cancelled,
            ) == Ok::<Seq<char>, FallbackErrorView>(t@),
            Err(e) => spec_fallback(
                attempts@.map_values(|a: Result<String, AgentError>| attempt_view(a)),
                AgentErrorView::Cancelled,
            ) == Err::<Seq<char>, FallbackErrorView>(e@),
        }),
{
    let ghost avs = attempts@.map_values(|a: Result<String, AgentError>| attempt_view(a));
    let mut i: usize = 0;
    let mut last: Option<AgentError> = Option::None;
    proof {
        assert(avs.skip(0) =~= avs);
    }
    loop
        invariant
            0 <= i <= attempts@.len(),
            avs == attempts@.map_values(|a: Result<String, AgentError>| attempt_view(a)),
            (match last {
                Option::Some(e) => spec_fallback(avs, AgentErrorView::Cancelled) == spec_fallback(
                    avs.skip(i as int),
                    e@,
                ),
                Option::None => i == 0 && spec_fallback(avs, AgentErrorView::Cancelled)
                    == spec_fallback(avs.skip(i as int), AgentErrorView::Cancelled),
            }),
            i < attempts@.len() || last is Some,
        decreases attempts@.len() - i,
    {
        proof {
            assert(avs.skip(0) =~= avs);
        }
        if i == attempts.len() {
            match last {
                Option::Some(e) => {
                    return Err(FallbackError::AllProvidersExhausted { last: e });
                },
                Option::None => {
                    proof {
                        assert(false);
                    }
                    return Err(FallbackError::AllProvidersExhausted { last: AgentError::Cancelled });
                },
            }
        }
        proof {
            assert(avs[i as int] == attempt_view(attempts@[i as int]));
            assert(avs.skip(i as int)[0] == avs[i as int]);
            assert(avs.skip(i as int).drop_first() =~= avs.skip(i as int + 1));
        }
        match &attempts[i] {
            Ok(t) => {
                return Ok(t.clone());
            },
            Err(e) => {
                if e.is_transient() {
                    last = Option::Some(e.clone());
                    i = i + 1;
                } else {
                    return Err(FallbackError::NonRetryable { error: e.clone() });
                }
            },
        }
    }
}

/// A chain whose first agent fails transiently and whose second answers
/// returns the second agent's answer.
pub proof fn lemma_failover_to_secondary(e: AgentErrorView, answer: Seq<char>, l: AgentErrorView)
    requires
        spec_is_transient(e),
    ensures
        spec_fallback(seq![Err(e), Ok(answer)], l) == Ok::<Seq<char>, FallbackErrorView>(answer),
{
    let s: Seq<Result<Seq<char>, AgentErrorView>> = seq![Err(e), Ok(answer)];
    assert(s[0] == Err::<Seq<char>, AgentErrorView>(e));
    assert(s.drop_first() =~= seq![Ok::<Seq<char>, AgentErrorView>(answer)]);
    assert(spec_fallback(seq![Ok::<Seq<char>, AgentErrorView>(answer)], e)
        == Ok::<Seq<char>, FallbackErrorView>(answer));
}

/// A chain whose first agent fails non-transiently surfaces that failure
/// verbatim, whatever stands behind it: the later agents are never
/// consulted.
pub proof fn lemma_nonretryable_short_circuits(
    e: AgentErrorView,
    rest: Seq<Result<Seq<char>, AgentErrorView>>,
    l: AgentErrorView,
)
    requires
        !spec_is_transient(e),
    ensures
        spec_fallback(seq![Err(e)] + rest, l) == Err::<Seq<char>, FallbackErrorView>(
            FallbackErrorView::NonRetryable { error: e },
        ),
{
    let s = seq![Err::<Seq<char>, AgentErrorView>(e)] + rest;
    assert(s[0] == Err::<Seq<char>, AgentErrorView>(e));
}

} // verus!
