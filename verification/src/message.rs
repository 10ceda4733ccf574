//! The pieces that a completion is made of.

use vstd::prelude::*;

verus! {

/// `serde_json::Value`, the JSON values that tool calls and providers attach.
/// Nothing in this library looks inside one: it is only carried along.
#[verifier::external_type_specification]
#[verifier::external_body]
pub struct ExJsonValue(serde_json::Value);

/// `serde_json::Value::clone`, which the crate derives: the copy is the same
/// JSON value.
pub assume_specification[ <serde_json::Value as Clone>::clone ](value: &serde_json::Value) -> (copy:
    serde_json::Value)
    ensures
        copy == *value,
;

/// One block of a message or of a completion.
#[derive(Debug)]
pub enum ContentBlock {
    /// Plain text.
    Text {
        /// The text.
        text: String,
        /// What the provider attached to the block.
        provider_metadata: Option<serde_json::Value>,
    },
    /// An inline image.
    Image {
        /// MIME type of the image.
        media_type: String,
        /// Base64 data of the image.
        data: String,
    },
    /// A request by the model to run a tool.
    ToolUse {
        /// Identifier of the tool use.
        id: String,
        /// Name of the tool.
        name: String,
        /// Input of the tool.
        input: serde_json::Value,
        /// What the provider attached to the block.
        provider_metadata: Option<serde_json::Value>,
    },
    /// The result of a tool, handed back to the model.
    ToolResult {
        /// Identifier of the tool use that this answers.
        tool_use_id: String,
        /// What the tool returned.
        content: String,
        /// Whether the tool failed.
        is_error: bool,
    },
    /// Reasoning of the model.
    Thinking {
        /// The reasoning text.
        thinking: String,
        /// What the provider attached to the block.
        provider_metadata: Option<serde_json::Value>,
    },
    /// Reasoning that the provider hands out in encrypted form.
    RedactedThinking {
        /// The opaque data.
        data: String,
    },
    /// A block of a kind that is not known here.
    Unknown,
}

/// A copy of what a provider attached to a block.
fn clone_metadata(metadata: &Option<serde_json::Value>) -> (copy: Option<serde_json::Value>)
    ensures
        copy == *metadata,
{
    match metadata {
        Some(value) => Some(value.clone()),
        None => None,
    }
}

impl Clone for ContentBlock {
    fn clone(&self) -> (copy: ContentBlock)
        ensures
            copy == *self,
    {
        match self {
            ContentBlock::Text { text, provider_metadata } => ContentBlock::Text {
                text: text.clone(),
                provider_metadata: clone_metadata(provider_metadata),
            },
            ContentBlock::Image { media_type, data } => ContentBlock::Image {
                media_type: media_type.clone(),
                data: data.clone(),
            },
            ContentBlock::ToolUse { id, name, input, provider_metadata } => ContentBlock::ToolUse {
                id: id.clone(),
                name: name.clone(),
                input: input.clone(),
                provider_metadata: clone_metadata(provider_metadata),
            },
            ContentBlock::ToolResult { tool_use_id, content, is_error } =>
                ContentBlock::ToolResult {
                tool_use_id: tool_use_id.clone(),
                content: content.clone(),
                is_error: *is_error,
            },
            ContentBlock::Thinking { thinking, provider_metadata } => ContentBlock::Thinking {
                thinking: thinking.clone(),
                provider_metadata: clone_metadata(provider_metadata),
            },
            ContentBlock::RedactedThinking { data } => ContentBlock::RedactedThinking {
                data: data.clone(),
            },
            ContentBlock::Unknown => ContentBlock::Unknown,
        }
    }
}

/// Why the model stopped generating.
#[derive(Debug, Clone, Copy, PartialEq, Eq, Structural)]
pub enum StopReason {
    /// The model finished its turn.
    EndTurn,
    /// The model wants to use a tool.
    ToolUse,
    /// The token limit was reached.
    MaxTokens,
    /// A stop sequence was met.
    StopSequence,
}

/// Token counts of one completion.
#[derive(Debug, Clone, Copy, PartialEq, Eq, Structural)]
pub struct TokenUsage {
    /// Tokens that went in.
    pub input_tokens: u64,
    /// Tokens that came out.
    pub output_tokens: u64,
}

impl Default for TokenUsage {
    /// No tokens at all.
    fn default() -> (usage: TokenUsage)
        ensures
            usage.input_tokens == 0,
            usage.output_tokens == 0,
    {
        TokenUsage { input_tokens: 0, output_tokens: 0 }
    }
}

/// A tool call that the model asked for.
#[derive(Debug)]
pub struct ToolCall {
    /// Identifier of the tool use.
    pub id: String,
    /// Name of the tool.
    pub name: String,
    /// Input of the tool.
    pub input: serde_json::Value,
}

impl Clone for ToolCall {
    fn clone(&self) -> (copy: ToolCall)
        ensures
            copy == *self,
    {
        ToolCall { id: self.id.clone(), name: self.name.clone(), input: self.input.clone() }
    }
}

} // verus!
