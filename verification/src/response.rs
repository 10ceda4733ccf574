//! Completions, and what can be read off them.

use crate::message::{ContentBlock, StopReason, TokenUsage, ToolCall};
use vstd::prelude::*;

verus! {

/// A response from an LLM completion.
#[derive(Debug)]
pub struct CompletionResponse {
    /// The content blocks in the response.
    pub content: Vec<ContentBlock>,
    /// Why the model stopped generating.
    pub stop_reason: StopReason,
    /// Tool calls extracted from the response.
    pub tool_calls: Vec<ToolCall>,
    /// Token usage statistics.
    pub usage: TokenUsage,
}

impl Clone for CompletionResponse {
    fn clone(&self) -> (copy: CompletionResponse)
        ensures
            copy.content@ == self.content@,
            copy.stop_reason == self.stop_reason,
            copy.tool_calls@ == self.tool_calls@,
            copy.usage == self.usage,
    {
        let mut content: Vec<ContentBlock> = Vec::new();
        for i in 0..self.content.len()
            invariant
                content@ == self.content@.take(i as int),
        {
            content.push(self.content[i].clone());
            proof {
                assert(content@ =~= self.content@.take(i + 1));
            }
        }
        let mut tool_calls: Vec<ToolCall> = Vec::new();
        for i in 0..self.tool_calls.len()
            invariant
                tool_calls@ == self.tool_calls@.take(i as int),
        {
            tool_calls.push(self.tool_calls[i].clone());
            proof {
                assert(tool_calls@ =~= self.tool_calls@.take(i + 1));
            }
        }
        proof {
            assert(content@ =~= self.content@);
            assert(tool_calls@ =~= self.tool_calls@);
        }
        CompletionResponse {
            content,
            stop_reason: self.stop_reason,
            tool_calls,
            usage: self.usage,
        }
    }
}

/// What one block adds to the text of a response: its text if it is a text
/// block, nothing otherwise.
pub open spec fn block_text(block: ContentBlock) -> Seq<char> {
    match block {
        ContentBlock::Text { text, .. } => text@,
        _ => Seq::empty(),
    }
}

/// The text of a sequence of blocks: the texts of its text blocks, in order,
/// with nothing between them.
pub open spec fn blocks_text(blocks: Seq<ContentBlock>) -> Seq<char>
    decreases blocks.len(),
{
    if blocks.len() == 0 {
        Seq::empty()
    } else {
        blocks_text(blocks.drop_last()) + block_text(blocks.last())
    }
}

/// Whether a block carries something by itself. Text and reasoning do if they
/// are not empty; a tool use and an image always do; no other block does.
pub open spec fn is_meaningful(block: ContentBlock) -> bool {
    match block {
        ContentBlock::Text { text, .. } => text@.len() > 0,
        ContentBlock::Thinking { thinking, .. } => thinking@.len() > 0,
        ContentBlock::RedactedThinking { data } => data@.len() > 0,
        ContentBlock::ToolUse { .. } => true,
        ContentBlock::Image { .. } => true,
        _ => false,
    }
}

/// Whether some block of the sequence is meaningful.
pub open spec fn any_meaningful(blocks: Seq<ContentBlock>) -> bool {
    exists|i: int| 0 <= i < blocks.len() && is_meaningful(#[trigger] blocks[i])
}

/// Exec counterpart of [`is_meaningful`].
fn block_is_meaningful(block: &ContentBlock) -> (meaningful: bool)
    ensures
        meaningful == is_meaningful(*block),
{
    match block {
        ContentBlock::Text { text, .. } => !text.as_str().is_empty(),
        ContentBlock::Thinking { thinking, .. } => !thinking.as_str().is_empty(),
        ContentBlock::RedactedThinking { data } => !data.as_str().is_empty(),
        ContentBlock::ToolUse { .. } | ContentBlock::Image { .. } => true,
        _ => false,
    }
}

impl CompletionResponse {
    /// Extract text content from the response.
    pub fn text(&self) -> (text: String)
        ensures
            text@ == blocks_text(self.content@),
    {
        let mut out = String::new();
        for i in 0..self.content.len()
            invariant
                out@ == blocks_text(self.content@.take(i as int)),
        {
            proof {
                let next = self.content@.take(i + 1);
                assert(next.drop_last() =~= self.content@.take(i as int));
                assert(next.last() == self.content@[i as int]);
            }
            if let ContentBlock::Text { text, .. } = &self.content[i] {
                out.append(text.as_str());
            }
        }
        proof {
            assert(self.content@.take(self.content@.len() as int) =~= self.content@);
        }
        out
    }

    /// Check if the response has any meaningful content (including Thinking blocks).
    /// Used to distinguish true empty responses from thinking-only responses.
    pub fn has_any_content(&self) -> (any: bool)
        ensures
            any == any_meaningful(self.content@),
    {
        for i in 0..self.content.len()
            invariant
                forall|j: int| 0 <= j < i ==> !is_meaningful(#[trigger] self.content@[j]),
        {
            if block_is_meaningful(&self.content[i]) {
                return true;
            }
        }
        false
    }
}

/// The text of two sequences of blocks, one after the other, is the text of the
/// first followed by that of the second.
pub proof fn law_text_of_concatenation(first: Seq<ContentBlock>, second: Seq<ContentBlock>)
    ensures
        blocks_text(first + second) == blocks_text(first) + blocks_text(second),
    decreases second.len(),
{
    if second.len() == 0 {
        assert(first + second =~= first);
    } else {
        assert((first + second).drop_last() =~= first + second.drop_last());
        assert((first + second).last() == second.last());
        law_text_of_concatenation(first, second.drop_last());
        assert(blocks_text(first + second) =~= blocks_text(first) + blocks_text(second));
    }
}

/// Blocks that are not text leave no trace in the text: without them it is the
/// same.
pub proof fn law_only_text_blocks_count(blocks: Seq<ContentBlock>)
    ensures
        blocks_text(blocks) == blocks_text(blocks.filter(|block: ContentBlock| block is Text)),
    decreases blocks.len(),
{
    reveal(Seq::filter);
    if blocks.len() > 0 {
        let is_text = |block: ContentBlock| block is Text;
        law_only_text_blocks_count(blocks.drop_last());
        if is_text(blocks.last()) {
            let kept = blocks.drop_last().filter(is_text);
            assert(kept.push(blocks.last()).drop_last() =~= kept);
        } else {
            assert(blocks_text(blocks) =~= blocks_text(blocks.drop_last()));
        }
    }
}

/// A response with text has content. So one without any content has no text
/// either.
pub proof fn law_text_is_content(blocks: Seq<ContentBlock>)
    requires
        blocks_text(blocks).len() > 0,
    ensures
        any_meaningful(blocks),
    decreases blocks.len(),
{
    if block_text(blocks.last()).len() > 0 {
        assert(is_meaningful(blocks[blocks.len() - 1]));
    } else {
        let earlier = blocks.drop_last();
        law_text_is_content(earlier);
        let i = choose|i: int| 0 <= i < earlier.len() && is_meaningful(#[trigger] earlier[i]);
        assert(is_meaningful(blocks[i]));
    }
}

/// A response of reasoning alone has no text, and yet it is told from an empty
/// one: it has content as soon as some of the reasoning is not empty.
pub proof fn law_thinking_only(blocks: Seq<ContentBlock>)
    requires
        forall|i: int| 0 <= i < blocks.len() ==> (#[trigger] blocks[i]) is Thinking,
    ensures
        blocks_text(blocks).len() == 0,
        any_meaningful(blocks) <==> exists|i: int|
            0 <= i < blocks.len() && (#[trigger] blocks[i])->thinking@.len() > 0,
    decreases blocks.len(),
{
    if blocks.len() > 0 {
        assert(blocks[blocks.len() - 1] is Thinking);
        let earlier = blocks.drop_last();
        assert forall|i: int| 0 <= i < earlier.len() implies (#[trigger] earlier[i]) is Thinking by {
            assert(earlier[i] == blocks[i]);
        }
        law_thinking_only(earlier);
    }
}

/// Without blocks there is no text, and no content.
pub proof fn law_nothing_from_no_blocks()
    ensures
        blocks_text(Seq::empty()).len() == 0,
        !any_meaningful(Seq::empty()),
{
}

/// Every text block counts with the whole of its text, whatever the provider
/// attached to it, and wherever it stands: it goes between the text of what comes
/// before and the text of what comes after.
pub proof fn law_every_text_block_counts(
    before: Seq<ContentBlock>,
    text: String,
    provider_metadata: Option<serde_json::Value>,
    after: Seq<ContentBlock>,
)
    ensures
        blocks_text(seq![ContentBlock::Text { text, provider_metadata }]) == text@,
        blocks_text(before + seq![ContentBlock::Text { text, provider_metadata }] + after)
            == blocks_text(before) + text@ + blocks_text(after),
{
    let block = ContentBlock::Text { text, provider_metadata };
    assert(seq![block].drop_last() =~= Seq::<ContentBlock>::empty());
    assert(seq![block].last() == block);
    assert(blocks_text(Seq::<ContentBlock>::empty()) =~= Seq::<char>::empty());
    assert(blocks_text(seq![block]) =~= text@);
    law_text_of_concatenation(before, seq![block]);
    law_text_of_concatenation(before + seq![block], after);
}

/// A block that is not text can stand anywhere without a trace in the text.
pub proof fn law_no_other_block_adds_text(
    before: Seq<ContentBlock>,
    block: ContentBlock,
    after: Seq<ContentBlock>,
)
    requires
        block !is Text,
    ensures
        blocks_text(seq![block]).len() == 0,
        blocks_text(before + seq![block] + after) == blocks_text(before + after),
{
    assert(seq![block].drop_last() =~= Seq::<ContentBlock>::empty());
    assert(seq![block].last() == block);
    assert(blocks_text(Seq::<ContentBlock>::empty()) =~= Seq::<char>::empty());
    assert(blocks_text(seq![block]) =~= Seq::<char>::empty());
    law_text_of_concatenation(before, seq![block]);
    law_text_of_concatenation(before + seq![block], after);
    law_text_of_concatenation(before, after);
    assert(blocks_text(before) + Seq::<char>::empty() =~= blocks_text(before));
}

/// Two sequences of blocks, one after the other, have content if and only if one of
/// them has.
pub proof fn law_content_of_concatenation(first: Seq<ContentBlock>, second: Seq<ContentBlock>)
    ensures
        any_meaningful(first + second) <==> any_meaningful(first) || any_meaningful(second),
{
    let both = first + second;
    if any_meaningful(both) {
        let i = choose|i: int| 0 <= i < both.len() && is_meaningful(#[trigger] both[i]);
        if i < first.len() {
            assert(is_meaningful(first[i]));
        } else {
            assert(is_meaningful(second[i - first.len()]));
        }
    }
    if any_meaningful(first) {
        let i = choose|i: int| 0 <= i < first.len() && is_meaningful(#[trigger] first[i]);
        assert(is_meaningful(both[i]));
    }
    if any_meaningful(second) {
        let i = choose|i: int| 0 <= i < second.len() && is_meaningful(#[trigger] second[i]);
        assert(both[first.len() + i] == second[i]);
        assert(is_meaningful(both[first.len() + i]));
    }
}

/// A tool use or an image, anywhere and whatever it holds, is content.
pub proof fn law_tool_use_and_image_are_content(blocks: Seq<ContentBlock>, at: int)
    requires
        0 <= at < blocks.len(),
        blocks[at] is ToolUse || blocks[at] is Image,
    ensures
        any_meaningful(blocks),
{
    assert(is_meaningful(blocks[at]));
}

/// Text and reasoning of at least one character, plain or redacted, anywhere and
/// whatever the provider attached to it, is content.
pub proof fn law_written_blocks_are_content(blocks: Seq<ContentBlock>, at: int)
    requires
        0 <= at < blocks.len(),
        ({
            ||| blocks[at] matches ContentBlock::Text { text, .. } && text@.len() > 0
            ||| blocks[at] matches ContentBlock::Thinking { thinking, .. } && thinking@.len() > 0
            ||| blocks[at] matches ContentBlock::RedactedThinking { data } && data@.len() > 0
        }),
    ensures
        any_meaningful(blocks),
{
    assert(is_meaningful(blocks[at]));
}

/// Content comes from somewhere: a response that holds no tool use, no image and
/// not one character of text or reasoning has none, however many blocks it has.
pub proof fn law_content_has_a_source(blocks: Seq<ContentBlock>)
    requires
        forall|i: int|
            0 <= i < blocks.len() ==> match #[trigger] blocks[i] {
                ContentBlock::Text { text, .. } => text@.len() == 0,
                ContentBlock::Thinking { thinking, .. } => thinking@.len() == 0,
                ContentBlock::RedactedThinking { data } => data@.len() == 0,
                ContentBlock::ToolResult { .. } => true,
                ContentBlock::Unknown => true,
                _ => false,
            },
    ensures
        !any_meaningful(blocks),
{
}

} // verus!
