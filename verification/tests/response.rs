use llm_driver::{CompletionResponse, ContentBlock, StopReason, TokenUsage};

fn text(content: &str) -> ContentBlock {
    ContentBlock::Text {
        text: content.to_string(),
        provider_metadata: None,
    }
}

fn thinking(content: &str) -> ContentBlock {
    ContentBlock::Thinking {
        thinking: content.to_string(),
        provider_metadata: None,
    }
}

fn image() -> ContentBlock {
    ContentBlock::Image {
        media_type: "image/png".to_string(),
        data: String::new(),
    }
}

fn tool_use() -> ContentBlock {
    ContentBlock::ToolUse {
        id: "t1".to_string(),
        name: "web_search".to_string(),
        input: serde_json::Value::Null,
        provider_metadata: None,
    }
}

fn tool_result() -> ContentBlock {
    ContentBlock::ToolResult {
        tool_use_id: "t1".to_string(),
        content: "found".to_string(),
        is_error: false,
    }
}

fn response(content: Vec<ContentBlock>) -> CompletionResponse {
    CompletionResponse {
        content,
        stop_reason: StopReason::EndTurn,
        tool_calls: vec![],
        usage: TokenUsage::default(),
    }
}

#[test]
fn test_completion_response_text() {
    let response = CompletionResponse {
        content: vec![
            ContentBlock::Text {
                text: "Hello ".to_string(),
                provider_metadata: None,
            },
            ContentBlock::Text {
                text: "world!".to_string(),
                provider_metadata: None,
            },
        ],
        stop_reason: StopReason::EndTurn,
        tool_calls: vec![],
        usage: TokenUsage::default(),
    };
    assert_eq!(response.text(), "Hello world!");
}

#[test]
fn text_of_no_blocks_is_empty() {
    assert_eq!(response(vec![]).text(), "");
}

#[test]
fn text_leaves_out_every_other_kind_of_block() {
    let mixed = response(vec![
        thinking("hm"),
        text("a"),
        image(),
        tool_use(),
        tool_result(),
        ContentBlock::RedactedThinking {
            data: "xyz".to_string(),
        },
        text("\u{e9}b"),
        ContentBlock::Unknown,
    ]);
    assert_eq!(mixed.text(), "a\u{e9}b");
}

#[test]
fn text_of_concatenation() {
    let first = response(vec![text("a"), thinking("x")]).text();
    let second = response(vec![text("b"), text("c")]).text();
    let both = response(vec![text("a"), thinking("x"), text("b"), text("c")]).text();
    assert_eq!(both, format!("{}{}", first, second));
}

#[test]
fn content_by_kind_of_block() {
    assert!(!response(vec![]).has_any_content());
    assert!(!response(vec![text("")]).has_any_content());
    assert!(response(vec![text("a")]).has_any_content());
    assert!(!response(vec![thinking("")]).has_any_content());
    assert!(response(vec![thinking("a")]).has_any_content());
    assert!(response(vec![image()]).has_any_content());
    assert!(response(vec![tool_use()]).has_any_content());
    assert!(!response(vec![tool_result()]).has_any_content());
    assert!(!response(vec![ContentBlock::Unknown]).has_any_content());
    assert!(!response(vec![ContentBlock::RedactedThinking {
        data: String::new()
    }])
    .has_any_content());
    assert!(response(vec![ContentBlock::RedactedThinking {
        data: "x".to_string()
    }])
    .has_any_content());
    assert!(response(vec![text(""), ContentBlock::Unknown, image()]).has_any_content());
}

#[test]
fn thinking_only_is_told_from_empty() {
    let thoughts = response(vec![thinking(""), thinking("let me see")]);
    assert_eq!(thoughts.text(), "");
    assert!(thoughts.has_any_content());
    let empty = response(vec![thinking(""), text("")]);
    assert_eq!(empty.text(), "");
    assert!(!empty.has_any_content());
}

#[test]
fn default_usage_is_zero() {
    assert_eq!(
        TokenUsage::default(),
        TokenUsage {
            input_tokens: 0,
            output_tokens: 0
        }
    );
}
