//! Provider-independent messages and events of the agent loop.
use vstd::prelude::*;
use vstd::string::*;

use crate::json::{Json, JsonView};

verus! {

#[derive(Debug, Clone, Copy, PartialEq, Eq, Structural)]
pub enum AgentRole {
    System,
    User,
    Assistant,
}

/// One piece of a message.
#[derive(Debug, Clone)]
pub enum AgentContent {
    Text(String),
    /// An image in base64, with its media type.
    Image { media_type: &'static str, data_base64: String },
    /// The model's request to call one tool.
    ToolUse { id: String, name: String, input: Json },
    /// The result of one tool call, under the identifier of its request.
    ToolResult {
        tool_use_id: String,
        text: String,
        image: Option<(&'static str, String)>,
        is_error: bool,
    },
}

/// The view of a piece of a message.
pub enum AgentContentView {
    Text(Seq<char>),
    Image { media_type: Seq<char>, data_base64: Seq<char> },
    ToolUse { id: Seq<char>, name: Seq<char>, input: JsonView },
    ToolResult {
        tool_use_id: Seq<char>,
        text: Seq<char>,
        image: Option<(Seq<char>, Seq<char>)>,
        is_error: bool,
    },
}

/// The view of an optional image.
pub open spec fn image_view(image: Option<(&'static str, String)>) -> Option<
    (Seq<char>, Seq<char>),
> {
    match image {
        Some(pair) => Some((pair.0@, pair.1@)),
        None => None,
    }
}

impl AgentContent {
    pub open spec fn view(&self) -> AgentContentView {
        match *self {
            AgentContent::Text(t) => AgentContentView::Text(t@),
            AgentContent::Image { media_type, data_base64 } => AgentContentView::Image {
                media_type: media_type@,
                data_base64: data_base64@,
            },
            AgentContent::ToolUse { id, name, input } => AgentContentView::ToolUse {
                id: id@,
                name: name@,
                input: input@,
            },
            AgentContent::ToolResult { tool_use_id, text, image, is_error } => {
                AgentContentView::ToolResult {
                    tool_use_id: tool_use_id@,
                    text: text@,
                    image: image_view(image),
                    is_error,
                }
            },
        }
    }

    /// A piece equal to this one.
    pub fn copy(&self) -> (r: AgentContent)
        ensures
            r@ == self@,
    {
        match self {
            AgentContent::Text(t) => AgentContent::Text(t.clone()),
            AgentContent::Image { media_type, data_base64 } => AgentContent::Image {
                media_type: *media_type,
                data_base64: data_base64.clone(),
            },
            AgentContent::ToolUse { id, name, input } => AgentContent::ToolUse {
                id: id.clone(),
                name: name.clone(),
                input: input.copy(),
            },
            AgentContent::ToolResult { tool_use_id, text, image, is_error } => {
                let image_copy: Option<(&'static str, String)> = match image {
                    Some(pair) => Some((pair.0, pair.1.clone())),
                    None => None,
                };
                AgentContent::ToolResult {
                    tool_use_id: tool_use_id.clone(),
                    text: text.clone(),
                    image: image_copy,
                    is_error: *is_error,
                }
            },
        }
    }
}

/// One message: who speaks, and the pieces of what is said.
#[derive(Debug, Clone)]
pub struct AgentMessage {
    pub role: AgentRole,
    pub content: Vec<AgentContent>,
}

/// The view of a message.
pub struct AgentMessageView {
    pub role: AgentRole,
    pub content: Seq<AgentContentView>,
}

/// The views of a sequence of pieces.
pub open spec fn content_views(content: Seq<AgentContent>) -> Seq<AgentContentView> {
    content.map_values(|c: AgentContent| c@)
}

/// The views of a sequence of messages.
pub open spec fn message_views(messages: Seq<AgentMessage>) -> Seq<AgentMessageView> {
    messages.map_values(|m: AgentMessage| m@)
}

/// A message of one text.
pub open spec fn text_message(role: AgentRole, text: Seq<char>) -> AgentMessageView {
    AgentMessageView { role, content: seq![AgentContentView::Text(text)] }
}

/// A message of one text.
fn one_text(role: AgentRole, text: &str) -> (r: AgentMessage)
    ensures
        r@ == text_message(role, text@),
{
    let mut content: Vec<AgentContent> = Vec::new();
    content.push(AgentContent::Text(text.to_owned()));
    proof {
        assert(content_views(content@) =~= seq![AgentContentView::Text(text@)]);
    }
    AgentMessage { role, content }
}

impl AgentMessage {
    pub open spec fn view(&self) -> AgentMessageView {
        AgentMessageView { role: self.role, content: content_views(self.content@) }
    }

    pub fn system(text: &str) -> (r: AgentMessage)
        ensures
            r@ == text_message(AgentRole::System, text@),
    {
        one_text(AgentRole::System, text)
    }

    pub fn user_text(text: &str) -> (r: AgentMessage)
        ensures
            r@ == text_message(AgentRole::User, text@),
    {
        one_text(AgentRole::User, text)
    }

    pub fn assistant_text(text: &str) -> (r: AgentMessage)
        ensures
            r@ == text_message(AgentRole::Assistant, text@),
    {
        one_text(AgentRole::Assistant, text)
    }

    pub fn assistant(content: Vec<AgentContent>) -> (r: AgentMessage)
        ensures
            r@ == (AgentMessageView {
                role: AgentRole::Assistant,
                content: content_views(content@),
            }),
    {
        AgentMessage { role: AgentRole::Assistant, content }
    }

    /// One message with every result of one round of tool calls.
    pub fn tool_results(results: Vec<AgentContent>) -> (r: AgentMessage)
        ensures
            r@ == (AgentMessageView { role: AgentRole::User, content: content_views(results@) }),
    {
        AgentMessage { role: AgentRole::User, content: results }
    }

    /// A message equal to this one.
    pub fn copy(&self) -> (r: AgentMessage)
        ensures
            r@ == self@,
    {
        let mut content: Vec<AgentContent> = Vec::new();
        let mut i: usize = 0;
        while i < self.content.len()
            invariant
                i <= self.content@.len(),
                content@.len() == i,
                forall|j: int| 0 <= j < i ==> (#[trigger] content@[j])@ == self.content@[j]@,
            decreases self.content@.len() - i,
        {
            content.push(self.content[i].copy());
            i += 1;
        }
        proof {
            assert(content_views(content@) =~= content_views(self.content@));
        }
        AgentMessage { role: self.role, content }
    }
}

/// A list of messages equal to this one.
pub fn copy_messages(messages: &Vec<AgentMessage>) -> (r: Vec<AgentMessage>)
    ensures
        message_views(r@) == message_views(messages@),
{
    let mut out: Vec<AgentMessage> = Vec::new();
    let mut i: usize = 0;
    while i < messages.len()
        invariant
            i <= messages@.len(),
            out@.len() == i,
            forall|j: int| 0 <= j < i ==> (#[trigger] out@[j])@ == messages@[j]@,
        decreases messages@.len() - i,
    {
        out.push(messages[i].copy());
        i += 1;
    }
    proof {
        assert(message_views(out@) =~= message_views(messages@));
    }
    out
}

/// Why the model stopped.
#[derive(Debug, Clone, Copy, PartialEq, Eq, Structural)]
pub enum StopReason {
    EndTurn,
    ToolUse,
    MaxTokens,
}

/// One event of a model's streamed answer. A tool call is reported once it is
/// complete.
#[derive(Debug, Clone)]
pub enum AgentEvent {
    TextDelta(String),
    ToolCallReady { id: String, name: String, input: Json },
    Done { stop_reason: StopReason },
}

/// The view of an event.
pub enum AgentEventView {
    TextDelta(Seq<char>),
    ToolCallReady { id: Seq<char>, name: Seq<char>, input: JsonView },
    Done { stop_reason: StopReason },
}

impl AgentEvent {
    pub open spec fn view(&self) -> AgentEventView {
        match *self {
            AgentEvent::TextDelta(t) => AgentEventView::TextDelta(t@),
            AgentEvent::ToolCallReady { id, name, input } => AgentEventView::ToolCallReady {
                id: id@,
                name: name@,
                input: input@,
            },
            AgentEvent::Done { stop_reason } => AgentEventView::Done { stop_reason },
        }
    }
}

/// The views of a sequence of events.
pub open spec fn event_views(events: Seq<AgentEvent>) -> Seq<AgentEventView> {
    events.map_values(|e: AgentEvent| e@)
}

/// A message is seen with its role and its contents, piece by piece and in order,
/// and a result under the identifier of the call that it answers.
pub proof fn a_message_is_seen_as_it_is(
    message: AgentMessage,
    i: int,
    id: String,
    text: String,
    is_error: bool,
    input: Json,
)
    ensures
        message@.role == message.role,
        message@.content.len() == message.content@.len(),
        0 <= i < message.content@.len() ==> message@.content[i] == message.content@[i]@,
        AgentContent::Text(text)@ == AgentContentView::Text(text@),
        (AgentContent::ToolUse { id, name: text, input })@ == (AgentContentView::ToolUse {
            id: id@,
            name: text@,
            input: input@,
        }),
        (AgentContent::ToolResult { tool_use_id: id, text, image: None, is_error })@ == (
        AgentContentView::ToolResult { tool_use_id: id@, text: text@, image: None, is_error }),
        AgentEvent::TextDelta(text)@ == AgentEventView::TextDelta(text@),
        (AgentEvent::ToolCallReady { id, name: text, input })@ == (AgentEventView::ToolCallReady {
            id: id@,
            name: text@,
            input: input@,
        }),
{
}

} // verus!
