use llm_driver::{
    stream_outcome, CompletionResponse, ContentBlock, LlmError, StopReason, StreamEvent, TokenUsage,
};

fn response(content: Vec<ContentBlock>) -> CompletionResponse {
    CompletionResponse {
        content,
        stop_reason: StopReason::EndTurn,
        tool_calls: vec![],
        usage: TokenUsage {
            input_tokens: 5,
            output_tokens: 3,
        },
    }
}

fn query() -> serde_json::Value {
    let mut object = serde_json::Map::new();
    object.insert(
        "query".to_string(),
        serde_json::Value::String("rust".to_string()),
    );
    serde_json::Value::Object(object)
}

#[test]
fn test_stream_event_clone() {
    let event = StreamEvent::TextDelta {
        text: "hello".to_string(),
    };
    let cloned = event.clone();
    assert!(matches!(cloned, StreamEvent::TextDelta { text } if text == "hello"));
}

#[test]
fn test_stream_event_variants() {
    let events: Vec<StreamEvent> = vec![
        StreamEvent::TextDelta {
            text: "hi".to_string(),
        },
        StreamEvent::ToolUseStart {
            id: "t1".to_string(),
            name: "web_search".to_string(),
        },
        StreamEvent::ToolInputDelta {
            text: "{\"q".to_string(),
        },
        StreamEvent::ToolUseEnd {
            id: "t1".to_string(),
            name: "web_search".to_string(),
            input: query(),
        },
        StreamEvent::ContentComplete {
            stop_reason: StopReason::EndTurn,
            usage: TokenUsage {
                input_tokens: 10,
                output_tokens: 5,
            },
        },
    ];
    assert_eq!(events.len(), 5);
}

#[test]
fn clone_keeps_every_variant() {
    let events: Vec<StreamEvent> = vec![
        StreamEvent::ToolUseStart {
            id: "t1".to_string(),
            name: "web_search".to_string(),
        },
        StreamEvent::ToolInputDelta {
            text: "{\"q".to_string(),
        },
        StreamEvent::ToolUseEnd {
            id: "t1".to_string(),
            name: "web_search".to_string(),
            input: query(),
        },
        StreamEvent::ThinkingDelta {
            text: "hm".to_string(),
        },
        StreamEvent::ContentComplete {
            stop_reason: StopReason::MaxTokens,
            usage: TokenUsage::default(),
        },
        StreamEvent::PhaseChange {
            phase: "paused".to_string(),
            detail: Some("later".to_string()),
        },
        StreamEvent::PhaseChange {
            phase: "paused".to_string(),
            detail: None,
        },
        StreamEvent::ToolExecutionResult {
            id: "t1".to_string(),
            name: "web_search".to_string(),
            result_preview: "ok".to_string(),
            is_error: true,
        },
    ];
    for event in &events {
        assert_eq!(format!("{:?}", event.clone()), format!("{:?}", event));
    }
    assert!(
        matches!(events[2].clone(), StreamEvent::ToolUseEnd { input, .. } if input == query())
    );
}

#[test]
fn test_default_stream_sends_events() {
    let completed = response(vec![ContentBlock::Text {
        text: "Hello!".to_string(),
        provider_metadata: None,
    }]);

    let (events, outcome) = stream_outcome(Ok(completed));
    assert_eq!(outcome.unwrap().text(), "Hello!");

    // A text delta, and then the end of the response.
    let mut events = events.into_iter();
    let ev1 = events.next().unwrap();
    assert!(matches!(ev1, StreamEvent::TextDelta { text } if text == "Hello!"));

    let ev2 = events.next().unwrap();
    assert!(matches!(
        ev2,
        StreamEvent::ContentComplete {
            stop_reason: StopReason::EndTurn,
            usage: TokenUsage {
                input_tokens: 5,
                output_tokens: 3,
            },
        }
    ));
    assert!(events.next().is_none());
}

#[test]
fn response_without_text_sends_its_end_alone() {
    let thoughts = response(vec![ContentBlock::Thinking {
        thinking: "hm".to_string(),
        provider_metadata: None,
    }]);
    let events = thoughts.stream_events();
    assert_eq!(events.len(), 1);
    assert!(matches!(events[0], StreamEvent::ContentComplete { .. }));
}

#[test]
fn error_sends_nothing_and_is_returned() {
    let (events, outcome) = stream_outcome(Err(LlmError::Overloaded {
        retry_after_ms: 250,
    }));
    assert_eq!(events.len(), 0);
    assert!(matches!(
        outcome,
        Err(LlmError::Overloaded {
            retry_after_ms: 250
        })
    ));
}
