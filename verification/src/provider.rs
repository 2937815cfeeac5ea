//! What the model answers, and how its answer is put together from the
//! blocks that the model's service sends.

use vstd::prelude::*;
use crate::text::{from_chars, push_str};
use crate::tool::ToolCall;

verus! {

/// The standing instructions that open every conversation.
pub const DEFAULT_SYSTEM_PROMPT: &'static str =
    "you are ava, a personal ai assistant. be helpful, concise, and friendly. avoid unnecessary verbosity.";

/// Why the model stopped writing.
#[derive(Debug, Clone, Copy, PartialEq, Eq, Structural)]
pub enum StopReason {
    EndTurn,
    MaxTokens,
    StopSequence,
    ToolUse,
}

/// One answer of the model: its text and the tools it asks for.
#[derive(Debug, Clone)]
pub struct ProviderResponse {
    pub content: String,
    pub stop_reason: StopReason,
    pub tool_calls: Vec<ToolCall>,
}

/// What a tool call holds.
pub struct ToolCallView {
    pub id: Seq<char>,
    pub name: Seq<char>,
    pub input: serde_json::Value,
}

impl View for ToolCall {
    type V = ToolCallView;

    open spec fn view(&self) -> ToolCallView {
        ToolCallView { id: self.id@, name: self.name@, input: self.input }
    }
}

/// What the tool calls `calls` hold, in order.
pub open spec fn call_views(calls: Seq<ToolCall>) -> Seq<ToolCallView> {
    Seq::new(calls.len(), |i: int| calls[i]@)
}

/// One block of the model's answer, as its service sends it.
#[derive(Debug, Clone)]
pub enum ContentBlock {
    Text { text: String },
    ToolUse { id: String, name: String, input: serde_json::Value },
}

/// The text of the answer made of `blocks`: the texts of its text blocks,
/// with a line break before each one that does not begin the text.
pub open spec fn joined_text(blocks: Seq<ContentBlock>) -> Seq<char>
    decreases blocks.len(),
{
    if blocks.len() == 0 {
        Seq::empty()
    } else {
        let before = joined_text(blocks.drop_last());
        match blocks.last() {
            ContentBlock::Text { text } => (if before.len() > 0 {
                before.push('\n')
            } else {
                before
            }) + text@,
            ContentBlock::ToolUse { .. } => before,
        }
    }
}

/// The tool calls of the answer made of `blocks`, in order.
pub open spec fn requested_calls(blocks: Seq<ContentBlock>) -> Seq<ToolCallView>
    decreases blocks.len(),
{
    if blocks.len() == 0 {
        Seq::empty()
    } else {
        let before = requested_calls(blocks.drop_last());
        match blocks.last() {
            ContentBlock::Text { .. } => before,
            ContentBlock::ToolUse { id, name, input } => before.push(
                ToolCallView { id: id@, name: name@, input },
            ),
        }
    }
}

/// The answer that the blocks `blocks` make.
pub fn assemble_response(blocks: Vec<ContentBlock>, stop_reason: StopReason) -> (out:
    ProviderResponse)
    ensures
        out.content@ == joined_text(blocks@),
        call_views(out.tool_calls@) == requested_calls(blocks@),
        out.stop_reason == stop_reason,
{
    let mut content: Vec<char> = Vec::new();
    let mut tool_calls: Vec<ToolCall> = Vec::new();
    let mut i: usize = 0;
    while i < blocks.len()
        invariant
            i <= blocks.len(),
            content@ == joined_text(blocks@.take(i as int)),
            call_views(tool_calls@) == requested_calls(blocks@.take(i as int)),
        decreases blocks.len() - i,
    {
        proof {
            let next = blocks@.take(i + 1);
            assert(next.drop_last() =~= blocks@.take(i as int));
        }
        match &blocks[i] {
            ContentBlock::Text { text } => {
                if content.len() > 0 {
                    content.push('\n');
                }
                push_str(&mut content, text.as_str());
            },
            ContentBlock::ToolUse { id, name, input } => {
                let call = ToolCall { id: id.clone(), name: name.clone(), input: input.clone() };
                tool_calls.push(call);
            },
        }
        i += 1;
    }
    assert(blocks@.take(blocks@.len() as int) =~= blocks@);
    ProviderResponse { content: from_chars(&content), stop_reason, tool_calls }
}

} // verus!
