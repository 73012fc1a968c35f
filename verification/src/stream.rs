//! The streaming session: an incremental sequence of text chunks for one
//! completion request.
//!
//! The session does not interleave tool handling: a tool-call signal
//! terminates the stream, the round runs over the non-streaming path, and
//! the caller re-initiates streaming for the next model turn.  An error
//! chunk terminates the stream; no further chunks follow.

use vstd::prelude::*;
use crate::errors::{ProviderError, ProviderErrorView};
use crate::registry::{RequestView, ToolInvocationRequest};

verus! {

/// One event pulled from a provider's stream.
pub enum StreamEvent {
    /// A text fragment.
    Chunk { text: String },
    /// The provider interrupted the stream to request tool calls.
    ToolCalls { requests: Vec<ToolInvocationRequest> },
    /// The provider failed mid-stream.
    Failure { error: ProviderError },
    /// The stream ended normally.
    End,
}

/// The mathematical value of a `StreamEvent`.
pub enum StreamEventView {
    Chunk { text: Seq<char> },
    ToolCalls { requests: Seq<RequestView> },
    Failure { error: ProviderErrorView },
    End,
}

impl View for StreamEvent {
    type V = StreamEventView;

    open spec fn view(&self) -> StreamEventView {
        match self {
            StreamEvent::Chunk { text } => StreamEventView::Chunk { text: text@ },
            StreamEvent::ToolCalls { requests } => StreamEventView::ToolCalls {
                requests: requests.deep_view(),
            },
            StreamEvent::Failure { error } => StreamEventView::Failure { error: error@ },
            StreamEvent::End => StreamEventView::End,
        }
    }
}

impl DeepView for StreamEvent {
    type V = StreamEventView;

    open spec fn deep_view(&self) -> StreamEventView {
        self@
    }
}

/// How a stream ended.
pub enum StreamEnd {
    /// The terminal chunk arrived.
    Completed,
    /// A tool-call signal: run the round over the non-streaming path and
    /// re-initiate streaming for the next turn.
    Interrupted { requests: Vec<ToolInvocationRequest> },
    /// An error chunk: no further chunks follow.
    Failed { error: ProviderError },
}

/// The mathematical value of a `StreamEnd`.
pub enum StreamEndView {
    Completed,
    Interrupted { requests: Seq<RequestView> },
    Failed { error: ProviderErrorView },
}

impl View for StreamEnd {
    type V = StreamEndView;

    open spec fn view(&self) -> StreamEndView {
        match self {
            StreamEnd::Completed => StreamEndView::Completed,
            StreamEnd::Interrupted { requests } => StreamEndView::Interrupted {
                requests: requests.deep_view(),
            },
            StreamEnd::Failed { error } => StreamEndView::Failed { error: error@ },
        }
    }
}

/// What a whole streaming session leaves behind.
pub struct StreamOutcome {
    /// The text fragments, in arrival order, up to the first terminal event.
    pub chunks: Vec<String>,
    /// How the stream ended.
    pub end: StreamEnd,
    /// How many events were consumed; nothing past the first terminal
    /// event is touched.
    pub consumed: usize,
}

/// The model of a streaming session.
pub struct StreamModel {
    pub chunks: Seq<Seq<char>>,
    pub end: StreamEndView,
    pub consumed: nat,
}

/// The model: text accumulates until the first terminal event; a
/// tool-call signal, a failure or the terminal chunk each end the stream
/// at once; a source that runs dry ends it normally.
pub open spec fn spec_stream(events: Seq<StreamEventView>) -> StreamModel
    decreases events.len(),
{
    if events.len() == 0 {
        StreamModel { chunks: Seq::empty(), end: StreamEndView::Completed, consumed: 0 }
    } else {
        match events[0] {
            StreamEventView::Chunk { text } => {
                let rest = spec_stream(events.drop_first());
                StreamModel {
                    chunks: seq![text] + rest.chunks,
                    end: rest.end,
                    consumed: rest.consumed + 1,
                }
            },
            StreamEventView::ToolCalls { requests } => StreamModel {
                chunks: Seq::empty(),
                end: StreamEndView::Interrupted { requests },
                consumed: 1,
            },
            StreamEventView::Failure { error } => StreamModel {
                chunks: Seq::empty(),
                end: StreamEndView::Failed { error },
                consumed: 1,
            },
            StreamEventView::End => StreamModel {
                chunks: Seq::empty(),
                end: StreamEndView::Completed,
                consumed: 1,
            },
        }
    }
}

proof fn lemma_stream_skip_step(events: Seq<StreamEventView>, i: int)
    requires
        0 <= i < events.len(),
        events[i] is Chunk,
    ensures
        spec_stream(events.skip(i)).chunks == seq![events[i]->Chunk_text] + spec_stream(
            events.skip(i + 1),
        ).chunks,
        spec_stream(events.skip(i)).end == spec_stream(events.skip(i + 1)).end,
        spec_stream(events.skip(i)).consumed == spec_stream(events.skip(i + 1)).consumed + 1,
{
    let s = events.skip(i);
    assert(s[0] == events[i]);
    assert(s.drop_first() =~= events.skip(i + 1));
}

/// Consume events until the first terminal one, collecting the text.
///
/// The chunk sequence is finite — never longer than the source — and ends
/// at the first terminal event, which is reported and never passed.
pub fn collect_stream(events: &Vec<StreamEvent>) -> (r: StreamOutcome)
    ensures
        ({
            let model = spec_stream(events.deep_view());
            &&& r.chunks.deep_view() == model.chunks
            &&& r.end@ == model.end
            &&& r.consumed == model.consumed
            &&& r.consumed <= events@.len()
        }),
{
    let ghost evs = events.deep_view();
    let mut chunks: Vec<String> = Vec::new();
    let mut i: usize = 0;
    proof {
        assert(evs.skip(0) =~= evs);
        assert(chunks.deep_view() + spec_stream(evs).chunks =~= spec_stream(evs).chunks);
    }
    loop
        invariant
            0 <= i <= evs.len(),
            evs == events.deep_view(),
            evs.len() == events@.len(),
            spec_stream(evs).chunks == chunks.deep_view() + spec_stream(evs.skip(i as int)).chunks,
            spec_stream(evs).end == spec_stream(evs.skip(i as int)).end,
            spec_stream(evs).consumed == i + spec_stream(evs.skip(i as int)).consumed,
            chunks@.len() <= i,
        decreases evs.len() - i,
    {
        proof {
            assert(evs.skip(0) =~= evs);
        }
        if i == events.len() {
            proof {
                assert(evs.skip(i as int) =~= Seq::<StreamEventView>::empty());
                assert(chunks.deep_view() + Seq::<Seq<char>>::empty() =~= chunks.deep_view());
            }
            return StreamOutcome { chunks, end: StreamEnd::Completed, consumed: i };
        }
        proof {
            assert(evs.skip(i as int)[0] == evs[i as int]);
            assert(evs[i as int] == events@[i as int]@);
        }
        match &events[i] {
            StreamEvent::Chunk { text } => {
                proof {
                    lemma_stream_skip_step(evs, i as int);
                }
                let ghost before = chunks.deep_view();
                chunks.push(text.clone());
                i += 1;
                proof {
                    assert(chunks.deep_view() =~= before.push(evs[i - 1]->Chunk_text));
                    assert(chunks.deep_view() + spec_stream(evs.skip(i as int)).chunks =~= before
                        + (seq![evs[i - 1]->Chunk_text] + spec_stream(evs.skip(i as int)).chunks));
                }
            },
            StreamEvent::ToolCalls { requests } => {
                let mut rs: Vec<ToolInvocationRequest> = Vec::new();
                let mut j: usize = 0;
                while j < requests.len()
                    invariant
                        0 <= j <= requests@.len(),
                        rs@.len() == j,
                        forall|k: int| 0 <= k < j ==> (#[trigger] rs@[k])@ == requests@[k]@,
                    decreases requests@.len() - j,
                {
                    rs.push(requests[j].clone());
                    j += 1;
                }
                proof {
                    assert forall|k: int| 0 <= k < rs.deep_view().len() implies rs.deep_view()[k]
                        == requests.deep_view()[k] by {
                        assert(rs@[k]@ == requests@[k]@);
                    }
                    assert(rs.deep_view() =~= requests.deep_view());
                    assert(chunks.deep_view() + Seq::<Seq<char>>::empty() =~= chunks.deep_view());
                }
                return StreamOutcome {
                    chunks,
                    end: StreamEnd::Interrupted { requests: rs },
                    consumed: i + 1,
                };
            },
            StreamEvent::Failure { error } => {
                proof {
                    assert(chunks.deep_view() + Seq::<Seq<char>>::empty() =~= chunks.deep_view());
                }
                return StreamOutcome {
                    chunks,
                    end: StreamEnd::Failed { error: error.clone() },
                    consumed: i + 1,
                };
            },
            StreamEvent::End => {
                proof {
                    assert(chunks.deep_view() + Seq::<Seq<char>>::empty() =~= chunks.deep_view());
                }
                return StreamOutcome { chunks, end: StreamEnd::Completed, consumed: i + 1 };
            },
        }
    }
}

} // verus!
