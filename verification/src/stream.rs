//! Events of a streamed completion.

use crate::error::LlmError;
use crate::message::{StopReason, TokenUsage};
use crate::response::{blocks_text, CompletionResponse};
use crate::text::optional_view;
use vstd::prelude::*;

verus! {

/// Events emitted during streaming LLM completion.
#[derive(Debug)]
pub enum StreamEvent {
    /// Incremental text content.
    TextDelta { text: String },
    /// A tool use block has started.
    ToolUseStart { id: String, name: String },
    /// Incremental JSON input for an in-progress tool use.
    ToolInputDelta { text: String },
    /// A tool use block is complete with parsed input.
    ToolUseEnd { id: String, name: String, input: serde_json::Value },
    /// Incremental thinking/reasoning text.
    ThinkingDelta { text: String },
    /// The entire response is complete.
    ContentComplete { stop_reason: StopReason, usage: TokenUsage },
    /// Agent lifecycle phase change (for UX indicators).
    PhaseChange { phase: String, detail: Option<String> },
    /// Tool execution completed with result (emitted by agent loop, not LLM driver).
    ToolExecutionResult { id: String, name: String, result_preview: String, is_error: bool },
}

/// A [`StreamEvent`] with its strings as character sequences.
pub enum EventView {
    TextDelta { text: Seq<char> },
    ToolUseStart { id: Seq<char>, name: Seq<char> },
    ToolInputDelta { text: Seq<char> },
    ToolUseEnd { id: Seq<char>, name: Seq<char>, input: serde_json::Value },
    ThinkingDelta { text: Seq<char> },
    ContentComplete { stop_reason: StopReason, usage: TokenUsage },
    PhaseChange { phase: Seq<char>, detail: Option<Seq<char>> },
    ToolExecutionResult {
        id: Seq<char>,
        name: Seq<char>,
        result_preview: Seq<char>,
        is_error: bool,
    },
}

impl View for StreamEvent {
    type V = EventView;

    open spec fn view(&self) -> EventView {
        match *self {
            StreamEvent::TextDelta { text } => EventView::TextDelta { text: text@ },
            StreamEvent::ToolUseStart { id, name } => EventView::ToolUseStart {
                id: id@,
                name: name@,
            },
            StreamEvent::ToolInputDelta { text } => EventView::ToolInputDelta { text: text@ },
            StreamEvent::ToolUseEnd { id, name, input } => EventView::ToolUseEnd {
                id: id@,
                name: name@,
                input,
            },
            StreamEvent::ThinkingDelta { text } => EventView::ThinkingDelta { text: text@ },
            StreamEvent::ContentComplete { stop_reason, usage } => EventView::ContentComplete {
                stop_reason,
                usage,
            },
            StreamEvent::PhaseChange { phase, detail } => EventView::PhaseChange {
                phase: phase@,
                detail: optional_view(detail),
            },
            StreamEvent::ToolExecutionResult { id, name, result_preview, is_error } =>
                EventView::ToolExecutionResult {
                id: id@,
                name: name@,
                result_preview: result_preview@,
                is_error,
            },
        }
    }
}

impl Clone for StreamEvent {
    fn clone(&self) -> (copy: StreamEvent)
        ensures
            copy == *self,
    {
        match self {
            StreamEvent::TextDelta { text } => StreamEvent::TextDelta { text: text.clone() },
            StreamEvent::ToolUseStart { id, name } => StreamEvent::ToolUseStart {
                id: id.clone(),
                name: name.clone(),
            },
            StreamEvent::ToolInputDelta { text } => StreamEvent::ToolInputDelta {
                text: text.clone(),
            },
            StreamEvent::ToolUseEnd { id, name, input } => StreamEvent::ToolUseEnd {
                id: id.clone(),
                name: name.clone(),
                input: input.clone(),
            },
            StreamEvent::ThinkingDelta { text } => StreamEvent::ThinkingDelta {
                text: text.clone(),
            },
            StreamEvent::ContentComplete { stop_reason, usage } => StreamEvent::ContentComplete {
                stop_reason: *stop_reason,
                usage: *usage,
            },
            StreamEvent::PhaseChange { phase, detail } => StreamEvent::PhaseChange {
                phase: phase.clone(),
                detail: match detail {
                    Some(inner) => Some(inner.clone()),
                    None => None,
                },
            },
            StreamEvent::ToolExecutionResult { id, name, result_preview, is_error } =>
                StreamEvent::ToolExecutionResult {
                id: id.clone(),
                name: name.clone(),
                result_preview: result_preview.clone(),
                is_error: *is_error,
            },
        }
    }
}

/// A sequence of events, each by its view.
pub open spec fn events_view(events: Seq<StreamEvent>) -> Seq<EventView> {
    events.map_values(|event: StreamEvent| event@)
}

/// The events that stand for a whole response: its text in one piece, unless
/// there is none, and then the end of the response.
pub open spec fn response_events(response: CompletionResponse) -> Seq<EventView> {
    let text = blocks_text(response.content@);
    let complete = EventView::ContentComplete {
        stop_reason: response.stop_reason,
        usage: response.usage,
    };
    if text.len() > 0 {
        seq![EventView::TextDelta { text }, complete]
    } else {
        seq![complete]
    }
}

impl CompletionResponse {
    /// The events that a driver without streaming of its own sends for a response.
    pub fn stream_events(&self) -> (events: Vec<StreamEvent>)
        ensures
            events_view(events@) == response_events(*self),
            1 <= events@.len() <= 2,
            events@.len() == 2 <==> blocks_text(self.content@).len() > 0,
            events@.len() == 2 ==> (events@[0] matches StreamEvent::TextDelta { text } && text@
                == blocks_text(self.content@)),
            events@.last() == (StreamEvent::ContentComplete {
                stop_reason: self.stop_reason,
                usage: self.usage,
            }),
    {
        let mut events: Vec<StreamEvent> = Vec::new();
        let text = self.text();
        if !text.as_str().is_empty() {
            events.push(StreamEvent::TextDelta { text });
        }
        events.push(
            StreamEvent::ContentComplete { stop_reason: self.stop_reason, usage: self.usage },
        );
        proof {
            assert(events_view(events@) =~= response_events(*self));
        }
        events
    }
}

/// What a driver without streaming of its own does with the outcome of a
/// completion: the events that it sends, in order, and then what it returns.
/// A response is announced and returned; an error is returned as it is, and
/// nothing is sent.
pub fn stream_outcome(outcome: Result<CompletionResponse, LlmError>) -> (result: (
    Vec<StreamEvent>,
    Result<CompletionResponse, LlmError>,
))
    ensures
        result.1 == outcome,
        outcome matches Ok(response) ==> events_view(result.0@) == response_events(response),
        outcome is Err ==> result.0@.len() == 0,
{
    match outcome {
        Ok(response) => {
            let events = response.stream_events();
            (events, Ok(response))
        },
        Err(error) => (Vec::new(), Err(error)),
    }
}

/// The text that a sequence of events carries, all deltas put together.
pub open spec fn delta_text(events: Seq<EventView>) -> Seq<char>
    decreases events.len(),
{
    if events.len() == 0 {
        Seq::empty()
    } else {
        delta_text(events.drop_last()) + match events.last() {
            EventView::TextDelta { text } => text,
            _ => Seq::empty(),
        }
    }
}

/// The events of a response carry its text and nothing but it: put together, the
/// deltas are the text, and none of them is empty. The end of the response comes
/// last, once, with the stop reason and the usage of the response.
pub proof fn law_stream_carries_the_text(response: CompletionResponse)
    ensures
        ({
            let events = response_events(response);
            &&& 1 <= events.len() <= 2
            &&& events.last() == (EventView::ContentComplete {
                stop_reason: response.stop_reason,
                usage: response.usage,
            })
            &&& forall|i: int|
                0 <= i < events.len() - 1 ==> (#[trigger] events[i] matches EventView::TextDelta {
                    text,
                } && text.len() > 0)
            &&& delta_text(events) == blocks_text(response.content@)
        }),
{
    reveal_with_fuel(delta_text, 3);
    let events = response_events(response);
    let text = blocks_text(response.content@);
    if text.len() > 0 {
        assert(events.drop_last() =~= seq![EventView::TextDelta { text }]);
        assert(events.drop_last().drop_last() =~= Seq::<EventView>::empty());
    } else {
        assert(events.drop_last() =~= Seq::<EventView>::empty());
    }
    assert(delta_text(events) =~= text);
}

/// The view of an event leaves nothing out: events that look alike are of the same
/// kind and hold the same.
pub proof fn law_view_keeps_everything(first: StreamEvent, second: StreamEvent)
    requires
        first@ == second@,
    ensures
        match (first, second) {
            (StreamEvent::TextDelta { text: a }, StreamEvent::TextDelta { text: b }) => a@ == b@,
            (
                StreamEvent::ToolUseStart { id: a, name: c },
                StreamEvent::ToolUseStart { id: b, name: d },
            ) => a@ == b@ && c@ == d@,
            (StreamEvent::ToolInputDelta { text: a }, StreamEvent::ToolInputDelta { text: b }) => a@
                == b@,
            (
                StreamEvent::ToolUseEnd { id: a, name: c, input: e },
                StreamEvent::ToolUseEnd { id: b, name: d, input: f },
            ) => a@ == b@ && c@ == d@ && e == f,
            (StreamEvent::ThinkingDelta { text: a }, StreamEvent::ThinkingDelta { text: b }) => a@
                == b@,
            (
                StreamEvent::ContentComplete { stop_reason: a, usage: c },
                StreamEvent::ContentComplete { stop_reason: b, usage: d },
            ) => a == b && c == d,
            (
                StreamEvent::PhaseChange { phase: a, detail: c },
                StreamEvent::PhaseChange { phase: b, detail: d },
            ) => {
                &&& a@ == b@
                &&& c is Some <==> d is Some
                &&& c is Some ==> c->0@ == d->0@
            },
            (
                StreamEvent::ToolExecutionResult { id: a, name: c, result_preview: e, is_error: g },
                StreamEvent::ToolExecutionResult { id: b, name: d, result_preview: f, is_error: h },
            ) => a@ == b@ && c@ == d@ && e@ == f@ && g == h,
            _ => false,
        },
{
}

} // verus!
