//! The conversation that is sent to the model: messages and their parts.

use vstd::prelude::*;

verus! {

/// Who wrote a message.
#[derive(Debug, Clone, Copy, PartialEq, Eq, Structural)]
pub enum Role {
    User,
    Assistant,
}

/// One part of a message.
#[derive(Debug, Clone)]
pub enum MessageContent {
    Text { text: String },
    ToolUse { id: String, name: String, input: serde_json::Value },
    ToolResult { tool_use_id: String, content: String },
}

/// What a part of a message holds.
pub enum ContentView {
    Text { text: Seq<char> },
    ToolUse { id: Seq<char>, name: Seq<char>, input: serde_json::Value },
    ToolResult { tool_use_id: Seq<char>, content: Seq<char> },
}

impl View for MessageContent {
    type V = ContentView;

    open spec fn view(&self) -> ContentView {
        match *self {
            MessageContent::Text { text } => ContentView::Text { text: text@ },
            MessageContent::ToolUse { id, name, input } => ContentView::ToolUse {
                id: id@,
                name: name@,
                input,
            },
            MessageContent::ToolResult { tool_use_id, content } => ContentView::ToolResult {
                tool_use_id: tool_use_id@,
                content: content@,
            },
        }
    }
}

/// What the parts `parts` hold, in order.
pub open spec fn content_views(parts: Seq<MessageContent>) -> Seq<ContentView> {
    Seq::new(parts.len(), |i: int| parts[i]@)
}

impl MessageContent {
    /// A part that holds the text `text`.
    pub fn text(text: &str) -> (out: MessageContent)
        ensures
            out@ == (ContentView::Text { text: text@ }),
    {
        MessageContent::Text { text: text.to_owned() }
    }

    /// A part that records that the model asked for the tool `name`, in the
    /// call `id`, with the input `input`.
    pub fn tool_use(id: &str, name: &str, input: serde_json::Value) -> (out: MessageContent)
        ensures
            out@ == (ContentView::ToolUse { id: id@, name: name@, input }),
    {
        MessageContent::ToolUse { id: id.to_owned(), name: name.to_owned(), input }
    }

    /// A part that holds the result `content` of the call `tool_use_id`.
    pub fn tool_result(tool_use_id: &str, content: &str) -> (out: MessageContent)
        ensures
            out@ == (ContentView::ToolResult { tool_use_id: tool_use_id@, content: content@ }),
    {
        MessageContent::ToolResult {
            tool_use_id: tool_use_id.to_owned(),
            content: content.to_owned(),
        }
    }
}

/// One message of the conversation.
#[derive(Debug, Clone)]
pub struct Message {
    pub role: Role,
    pub content: Vec<MessageContent>,
}

/// What a message holds.
pub struct MessageView {
    pub role: Role,
    pub content: Seq<ContentView>,
}

impl View for Message {
    type V = MessageView;

    open spec fn view(&self) -> MessageView {
        MessageView { role: self.role, content: content_views(self.content@) }
    }
}

/// What the messages `messages` hold, in order.
pub open spec fn message_views(messages: Seq<Message>) -> Seq<MessageView> {
    Seq::new(messages.len(), |i: int| messages[i]@)
}

impl Message {
    /// A message of the user with the text `content`.
    pub fn user(content: &str) -> (out: Message)
        ensures
            out@ == (MessageView {
                role: Role::User,
                content: seq![ContentView::Text { text: content@ }],
            }),
    {
        let mut parts: Vec<MessageContent> = Vec::new();
        parts.push(MessageContent::text(content));
        let out = Message::user_with_content(parts);
        assert(out@.content =~= seq![ContentView::Text { text: content@ }]);
        out
    }

    /// A message of the assistant with the text `content`.
    pub fn assistant(content: &str) -> (out: Message)
        ensures
            out@ == (MessageView {
                role: Role::Assistant,
                content: seq![ContentView::Text { text: content@ }],
            }),
    {
        let mut parts: Vec<MessageContent> = Vec::new();
        parts.push(MessageContent::text(content));
        let out = Message::assistant_with_content(parts);
        assert(out@.content =~= seq![ContentView::Text { text: content@ }]);
        out
    }

    /// A message of the user made of the parts `content`.
    pub fn user_with_content(content: Vec<MessageContent>) -> (out: Message)
        ensures
            out.role == Role::User,
            out.content == content,
    {
        Message { role: Role::User, content }
    }

    /// A message of the assistant made of the parts `content`.
    pub fn assistant_with_content(content: Vec<MessageContent>) -> (out: Message)
        ensures
            out.role == Role::Assistant,
            out.content == content,
    {
        Message { role: Role::Assistant, content }
    }
}

/// Where a message came from.
#[derive(Debug, Clone, Copy, PartialEq, Eq, Structural)]
pub enum ChannelKind {
    Cli,
    Telegram,
}

/// A message that comes in to the assistant.
#[derive(Debug, Clone)]
pub struct InboundMessage {
    pub channel: ChannelKind,
    pub content: String,
}

/// A message that goes out from the assistant.
#[derive(Debug, Clone)]
pub struct OutboundMessage {
    pub content: String,
}

} // verus!
