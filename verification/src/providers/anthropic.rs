//! Anthropic's messages: the instructions stand beside the messages, and the
//! pieces of a streamed answer are numbered.
use vstd::prelude::*;
use vstd::string::*;

use crate::agent::tool_list::{tool_views, ToolSpec, ToolView};
use crate::agent::types::{
    content_views, event_views, message_views, AgentContent, AgentContentView, AgentEvent,
    AgentEventView, AgentMessage, AgentMessageView, AgentRole, StopReason,
};
use crate::http_status::is_status;
use crate::json::{
    array, distinct_keys_are_all_found, entry_views, json_parse, json_views,
    members_are_found_by_key, no_entries, no_values, number_value, object, object_of_three, object_of_two, opt_view, push_entry, push_value, read_json, text_value, Json,
    JsonNumberView, JsonView,
};
use crate::prompts::chat::{chat_views, ChatMessage, ChatView};
use crate::providers::{
    agent_instructions, agent_instructions_are_parted_from_turns, agent_temperature,
    agent_temperature_value, agent_turns, answer_value,
    broken_stream, call_input, failed, failed_output, finished, going_on, header_views,
    instructions, instructions_are_parted_from_turns, no_events, parse_input, provider_request, push_event, read_answer, stream_error,
    system_instructions, system_parts, system_texts, text_result, turns_of, ProviderRequest,
    StreamInput, StreamInputView, StreamOutput, StreamOutputView,
    AGENT_MAX_TOKENS, REQUEST_TIMEOUT_SECS,
};
use crate::providers::sse::{
    after_frames, append_piece, data_in, frames_do_not_depend_on_the_pieces, take_data, utf8_lossy,
};
use crate::text::{begins_with, concat, joined, same, starts_with, views};

verus! {

pub const MESSAGES_URL: &'static str = "https://api.anthropic.com/v1/messages";

pub const ANTHROPIC_VERSION: &'static str = "2023-06-01";

/// The names of Anthropic's models, as the host knows them.
#[derive(Debug, Clone)]
pub struct ModelNames {
    /// What they all begin with.
    pub prefix: String,
    /// The model in the place of one that is none of Anthropic's.
    pub default_model: String,
}

/// The model that is asked.
pub open spec fn model_name(model: Seq<char>, names: ModelNames) -> Seq<char> {
    if starts_with(model, names.prefix@) {
        model
    } else {
        names.default_model@
    }
}

/// The model that is asked: the given one, if it is one of Anthropic's.
pub fn resolve_model<'a>(model: &'a str, names: &'a ModelNames) -> (r: &'a str)
    ensures
        r@ == model_name(model@, *names),
{
    if begins_with(model, names.prefix.as_str()) {
        model
    } else {
        names.default_model.as_str()
    }
}

/// A message as Anthropic takes it.
pub open spec fn turn_value(m: ChatView) -> JsonView {
    JsonView::Object(
        seq![("role"@, JsonView::Text(m.role)), ("content"@, JsonView::Text(m.content))],
    )
}

/// The messages as Anthropic takes them.
pub open spec fn turn_values(messages: Seq<ChatView>) -> Seq<JsonView> {
    turns_of(messages).map_values(|m: ChatView| turn_value(m))
}

/// Parts the instructions from the other messages.
pub fn split_system(messages: &Vec<ChatMessage>) -> (r: (Option<String>, Vec<Json>))
    ensures
        opt_view(r.0) == instructions(system_parts(chat_views(messages@))),
        json_views(r.1@) == turn_values(chat_views(messages@)),
{
    let ghost all = chat_views(messages@);
    let mut turns: Vec<Json> = no_values();
    let mut i: usize = 0;
    proof {
        assert(all.take(0) =~= Seq::empty());
        assert(turn_values(all.take(0)) =~= Seq::empty());
    }
    while i < messages.len()
        invariant
            i <= messages@.len(),
            all == chat_views(messages@),
            json_views(turns@) == turn_values(all.take(i as int)),
        decreases messages@.len() - i,
    {
        proof {
            assert(all.take(i as int + 1).drop_last() =~= all.take(i as int));
            assert(all.take(i as int + 1).last() == messages@[i as int]@);
        }
        if !same(messages[i].role, "system") {
            let ghost before = json_views(turns@);
            let role: Json = text_value(messages[i].role);
            let content: Json = text_value(messages[i].content.as_str());
            push_value(&mut turns, object_of_two("role", role, "content", content));
            proof {
                assert(turn_values(all.take(i as int + 1)) =~= before.push(
                    turn_value(messages@[i as int]@),
                ));
            }
        }
        i += 1;
    }
    proof {
        assert(all.take(i as int) =~= all);
    }
    (system_instructions(messages), turns)
}

/// The entries of a body that every request has, and the instructions, where
/// there are any, at the end.
pub open spec fn with_system(
    entries: Seq<(Seq<char>, JsonView)>,
    system: Option<Seq<char>>,
) -> JsonView {
    match system {
        Some(s) => JsonView::Object(entries.push(("system"@, JsonView::Text(s)))),
        None => JsonView::Object(entries),
    }
}

fn finish_body(entries: Vec<(String, Json)>, system: Option<String>) -> (r: Json)
    ensures
        r@ == with_system(entry_views(entries@), opt_view(system)),
{
    let mut entries = entries;
    match system {
        Some(s) => {
            push_entry(&mut entries, "system", Json::Text(s));
        },
        None => {},
    }
    object(entries)
}

/// The body of a request for an answer, in one piece or as a stream.
pub open spec fn request_body(
    model: Seq<char>,
    names: ModelNames,
    messages: Seq<ChatView>,
    temperature: JsonView,
    max_tokens: u32,
    stream: bool,
) -> JsonView {
    let entries = seq![
        ("model"@, JsonView::Text(model_name(model, names))),
        ("messages"@, JsonView::Array(turn_values(messages))),
        ("temperature"@, temperature),
        ("max_tokens"@, JsonView::Number(JsonNumberView::Unsigned(max_tokens as u64))),
    ];
    with_system(
        if stream {
            entries.push(("stream"@, JsonView::Bool(true)))
        } else {
            entries
        },
        instructions(system_parts(messages)),
    )
}

/// The headers of a request.
pub open spec fn request_headers(api_key: Seq<char>) -> Seq<(Seq<char>, Seq<char>)> {
    seq![("x-api-key"@, api_key), ("anthropic-version"@, ANTHROPIC_VERSION@)]
}

fn request_with(api_key: &str, body: Json) -> (r: ProviderRequest)
    ensures
        r@ == provider_request(MESSAGES_URL@, request_headers(api_key@), body@),
{
    let mut headers: Vec<(&'static str, String)> = Vec::new();
    headers.push(("x-api-key", api_key.to_owned()));
    headers.push(("anthropic-version", ANTHROPIC_VERSION.to_owned()));
    proof {
        assert(header_views(headers@) =~= request_headers(api_key@));
    }
    ProviderRequest {
        url: MESSAGES_URL.to_owned(),
        headers,
        body,
        timeout_secs: REQUEST_TIMEOUT_SECS,
    }
}

/// The request for an answer, in one piece or as a stream.
pub fn chat_request(
    api_key: &str,
    model: &str,
    names: &ModelNames,
    messages: &Vec<ChatMessage>,
    temperature: Json,
    max_tokens: u32,
    stream: bool,
) -> (r: ProviderRequest)
    ensures
        r@ == provider_request(
            MESSAGES_URL@,
            request_headers(api_key@),
            request_body(
                model@,
                *names,
                chat_views(messages@),
                temperature@,
                max_tokens,
                stream,
            ),
        ),
{
    let (system, turns) = split_system(messages);
    let ghost all = chat_views(messages@);
    let ghost four = seq![
        ("model"@, JsonView::Text(model_name(model@, *names))),
        ("messages"@, JsonView::Array(turn_values(all))),
        ("temperature"@, temperature@),
        ("max_tokens"@, JsonView::Number(JsonNumberView::Unsigned(max_tokens as u64))),
    ];
    let mut entries: Vec<(String, Json)> = no_entries();
    push_entry(&mut entries, "model", text_value(resolve_model(model, names)));
    push_entry(&mut entries, "messages", array(turns));
    push_entry(&mut entries, "temperature", temperature);
    push_entry(&mut entries, "max_tokens", number_value(max_tokens as u64));
    proof {
        assert(entry_views(entries@) =~= four);
    }
    if stream {
        push_entry(&mut entries, "stream", Json::Bool(true));
    }
    request_with(api_key, finish_body(entries, system))
}

/// The text of a piece of an answer, where it is one of text.
pub open spec fn block_text(block: JsonView) -> Seq<char> {
    if block.str_field("type"@) == Some("text"@) {
        block.text_or_empty("text"@)
    } else {
        Seq::empty()
    }
}

/// The text of the pieces of an answer.
pub open spec fn blocks_text(blocks: Seq<JsonView>) -> Seq<char>
    decreases blocks.len(),
{
    if blocks.len() == 0 {
        Seq::empty()
    } else {
        blocks_text(blocks.drop_last()) + block_text(blocks.last())
    }
}

/// The text of an answer.
pub open spec fn answer_text(answer: JsonView) -> Seq<char> {
    match answer.array_field("content"@) {
        Some(blocks) => blocks_text(blocks),
        None => Seq::empty(),
    }
}

/// Whether a field holds the given text.
pub(crate) fn field_is(value: &Json, key: &str, text: &str) -> (r: bool)
    ensures
        r == (value@.str_field(key@) == Some(text@)),
{
    match value.str_field(key) {
        Some(t) => same(t.as_str(), text),
        None => false,
    }
}

/// The text of an answer: that of its pieces of text, one after the other.
pub fn extract_text(answer: &Json) -> (r: String)
    ensures
        r@ == answer_text(answer@),
{
    let mut out: String = String::new();
    match answer.array_field("content") {
        Some(blocks) => {
            let ghost all = json_views(blocks@);
            let mut i: usize = 0;
            proof {
                assert(all.take(0) =~= Seq::empty());
            }
            while i < blocks.len()
                invariant
                    i <= blocks@.len(),
                    all == json_views(blocks@),
                    out@ == blocks_text(all.take(i as int)),
                decreases blocks@.len() - i,
            {
                let ghost before = out@;
                proof {
                    assert(all.take(i as int + 1).drop_last() =~= all.take(i as int));
                    assert(all.take(i as int + 1).last() == blocks@[i as int]@);
                    assert(before + Seq::<char>::empty() =~= before);
                }
                if field_is(&blocks[i], "type", "text") {
                    let text: String = blocks[i].text_or_empty("text");
                    out.append(text.as_str());
                }
                i += 1;
            }
            proof {
                assert(all.take(i as int) =~= all);
            }
            out
        },
        None => out,
    }
}

/// Reads the answer to a request that was not for a stream.
pub fn read_generated(status: u16, body: &Result<String, String>) -> (r: Result<String, String>)
    requires
        is_status(status),
    ensures
        text_result(r) == (match answer_value("Anthropic"@, status, text_result(*body)) {
            Ok(answer) => Ok(answer_text(answer)),
            Err(e) => Err(e),
        }),
{
    match read_answer("Anthropic", status, body) {
        Ok(answer) => Ok(extract_text(&answer)),
        Err(e) => Err(e),
    }
}

/// The text that an event of a stream adds to the answer.
pub open spec fn delta_text(event: JsonView) -> Option<Seq<char>> {
    if event.str_field("type"@) == Some("content_block_delta"@) {
        match event.get("delta"@) {
            Some(delta) => delta.str_field("text"@),
            None => None,
        }
    } else {
        None
    }
}

/// The text that an event of a stream adds to the answer.
pub fn text_delta(event: &Json) -> (r: Option<String>)
    ensures
        opt_view(r) == delta_text(event@),
{
    if field_is(event, "type", "content_block_delta") {
        match event.get("delta") {
            Some(delta) => delta.str_field("text"),
            None => None,
        }
    } else {
        None
    }
}

/// The texts that some data add to the answer; what is no JSON text, or adds
/// none, is passed over.
pub open spec fn deltas(data: Seq<Seq<char>>) -> Seq<Seq<char>>
    decreases data.len(),
{
    if data.len() == 0 {
        Seq::empty()
    } else {
        let before = deltas(data.drop_last());
        match json_parse(data.last()) {
            Ok(event) => match delta_text(event) {
                Some(t) => before.push(t),
                None => before,
            },
            Err(_) => before,
        }
    }
}

/// Takes the complete frames off a buffer and gives the texts that they add to
/// the answer.
pub fn drain_text_deltas(buffer: &mut String) -> (r: Vec<String>)
    ensures
        views(r@) == deltas(data_in(old(buffer)@)),
        final(buffer)@ == after_frames(old(buffer)@),
{
    let data: Vec<String> = take_data(buffer);
    let ghost all = views(data@);
    let mut out: Vec<String> = Vec::new();
    let mut i: usize = 0;
    proof {
        assert(all.take(0) =~= Seq::empty());
        assert(views(out@) =~= Seq::empty());
    }
    while i < data.len()
        invariant
            i <= data@.len(),
            all == views(data@),
            views(out@) == deltas(all.take(i as int)),
        decreases data@.len() - i,
    {
        let ghost before = views(out@);
        proof {
            assert(all.take(i as int + 1).drop_last() =~= all.take(i as int));
            assert(all.take(i as int + 1).last() == data@[i as int]@);
        }
        match read_json(data[i].as_str()) {
            Ok(event) => match text_delta(&event) {
                Some(t) => {
                    out.push(t);
                    proof {
                        assert(views(out@) =~= before.push(t@));
                    }
                },
                None => {},
            },
            Err(_) => {},
        }
        i += 1;
    }
    proof {
        assert(all.take(i as int) =~= all);
    }
    out
}

/// A tool as Anthropic is told of it.
pub open spec fn tool_value(t: ToolView) -> JsonView {
    JsonView::Object(
        seq![
            ("name"@, JsonView::Text(t.name)),
            ("description"@, JsonView::Text(t.description)),
            ("input_schema"@, t.parameters),
        ],
    )
}

/// The tools as Anthropic is told of them.
pub fn tool_specs_to_anthropic(tools: &Vec<ToolSpec>) -> (r: Json)
    ensures
        r@ == JsonView::Array(tool_views(tools@).map_values(|t: ToolView| tool_value(t))),
{
    let mut items: Vec<Json> = Vec::new();
    let mut i: usize = 0;
    while i < tools.len()
        invariant
            i <= tools@.len(),
            items@.len() == i,
            forall|j: int| 0 <= j < i ==> (#[trigger] items@[j])@ == tool_value(tools@[j]@),
        decreases tools@.len() - i,
    {
        let name: Json = text_value(tools[i].name);
        let description: Json = text_value(tools[i].description);
        let schema: Json = tools[i].parameters.copy();
        items.push(
            object_of_three("name", name, "description", description, "input_schema", schema),
        );
        i += 1;
    }
    proof {
        assert(json_views(items@) =~= tool_views(tools@).map_values(
            |t: ToolView| tool_value(t),
        ));
    }
    array(items)
}

/// An image as Anthropic takes it.
pub open spec fn image_value(media_type: Seq<char>, data_base64: Seq<char>) -> JsonView {
    JsonView::Object(
        seq![
            ("type"@, JsonView::Text("image"@)),
            (
                "source"@,
                JsonView::Object(
                    seq![
                        ("type"@, JsonView::Text("base64"@)),
                        ("media_type"@, JsonView::Text(media_type)),
                        ("data"@, JsonView::Text(data_base64)),
                    ],
                ),
            ),
        ],
    )
}

fn image_block(media_type: &str, data_base64: &str) -> (r: Json)
    ensures
        r@ == image_value(media_type@, data_base64@),
{
    let kind: Json = text_value("base64");
    let source: Json = object_of_three(
        "type",
        kind,
        "media_type",
        text_value(media_type),
        "data",
        text_value(data_base64),
    );
    object_of_two("type", text_value("image"), "source", source)
}

/// A text as Anthropic takes it.
pub open spec fn text_block(text: Seq<char>) -> JsonView {
    JsonView::Object(seq![("type"@, JsonView::Text("text"@)), ("text"@, JsonView::Text(text))])
}

/// A piece of a message as Anthropic takes it. The image of a tool's result
/// stands in the result, beside its text.
pub open spec fn content_value(content: AgentContentView) -> JsonView {
    match content {
        AgentContentView::Text(text) => text_block(text),
        AgentContentView::Image { media_type, data_base64 } => image_value(media_type, data_base64),
        AgentContentView::ToolUse { id, name, input } => JsonView::Object(
            seq![
                ("type"@, JsonView::Text("tool_use"@)),
                ("id"@, JsonView::Text(id)),
                ("name"@, JsonView::Text(name)),
                ("input"@, input),
            ],
        ),
        AgentContentView::ToolResult { tool_use_id, text, image, is_error } => JsonView::Object(
            seq![
                ("type"@, JsonView::Text("tool_result"@)),
                ("tool_use_id"@, JsonView::Text(tool_use_id)),
                (
                    "content"@,
                    JsonView::Array(
                        match image {
                            Some(pair) => seq![text_block(text), image_value(pair.0, pair.1)],
                            None => seq![text_block(text)],
                        },
                    ),
                ),
                ("is_error"@, JsonView::Bool(is_error)),
            ],
        ),
    }
}

/// A piece of a message as Anthropic takes it.
pub fn content_to_anthropic(content: &AgentContent) -> (r: Json)
    ensures
        r@ == content_value(content@),
{
    match content {
        AgentContent::Text(text) => object_of_two(
            "type",
            text_value("text"),
            "text",
            text_value(text.as_str()),
        ),
        AgentContent::Image { media_type, data_base64 } => image_block(
            media_type,
            data_base64.as_str(),
        ),
        AgentContent::ToolUse { id, name, input } => {
            let mut entries: Vec<(String, Json)> = no_entries();
            push_entry(&mut entries, "type", text_value("tool_use"));
            push_entry(&mut entries, "id", text_value(id.as_str()));
            push_entry(&mut entries, "name", text_value(name.as_str()));
            push_entry(&mut entries, "input", input.copy());
            proof {
                assert(entry_views(entries@) =~= content_value(content@)->Object_0);
            }
            object(entries)
        },
        AgentContent::ToolResult { tool_use_id, text, image, is_error } => {
            let mut inner: Vec<Json> = no_values();
            push_value(
                &mut inner,
                object_of_two("type", text_value("text"), "text", text_value(text.as_str())),
            );
            match image {
                Some(pair) => {
                    push_value(&mut inner, image_block(pair.0, pair.1.as_str()));
                    proof {
                        assert(json_views(inner@) =~= seq![
                            text_block(text@),
                            image_value(pair.0@, pair.1@),
                        ]);
                    }
                },
                None => {
                    proof {
                        assert(json_views(inner@) =~= seq![text_block(text@)]);
                    }
                },
            }
            let mut entries: Vec<(String, Json)> = no_entries();
            push_entry(&mut entries, "type", text_value("tool_result"));
            push_entry(&mut entries, "tool_use_id", text_value(tool_use_id.as_str()));
            push_entry(&mut entries, "content", array(inner));
            push_entry(&mut entries, "is_error", Json::Bool(*is_error));
            proof {
                assert(entry_views(entries@) =~= content_value(content@)->Object_0);
            }
            object(entries)
        },
    }
}

/// A message of an agent as Anthropic takes it.
pub open spec fn message_value(m: AgentMessageView) -> JsonView {
    JsonView::Object(
        seq![
            (
                "role"@,
                JsonView::Text(
                    if m.role == AgentRole::Assistant {
                        "assistant"@
                    } else {
                        "user"@
                    },
                ),
            ),
            (
                "content"@,
                JsonView::Array(m.content.map_values(|c: AgentContentView| content_value(c))),
            ),
        ],
    )
}

fn content_blocks(content: &Vec<AgentContent>) -> (r: Json)
    ensures
        r@ == JsonView::Array(
            content_views(content@).map_values(|c: AgentContentView| content_value(c)),
        ),
{
    let mut items: Vec<Json> = Vec::new();
    let mut i: usize = 0;
    while i < content.len()
        invariant
            i <= content@.len(),
            items@.len() == i,
            forall|j: int| 0 <= j < i ==> (#[trigger] items@[j])@ == content_value(content@[j]@),
        decreases content@.len() - i,
    {
        items.push(content_to_anthropic(&content[i]));
        i += 1;
    }
    proof {
        assert(json_views(items@) =~= content_views(content@).map_values(
            |c: AgentContentView| content_value(c),
        ));
    }
    array(items)
}

/// The messages of an agent as Anthropic takes them.
pub open spec fn message_values(messages: Seq<AgentMessageView>) -> Seq<JsonView> {
    agent_turns(messages).map_values(|m: AgentMessageView| message_value(m))
}

/// Parts an agent's instructions from its other messages.
pub fn messages_to_anthropic(messages: &Vec<AgentMessage>) -> (r: (Option<String>, Vec<Json>))
    ensures
        opt_view(r.0) == instructions(system_texts(message_views(messages@))),
        json_views(r.1@) == message_values(message_views(messages@)),
{
    let ghost all = message_views(messages@);
    let mut turns: Vec<Json> = no_values();
    let mut i: usize = 0;
    proof {
        assert(all.take(0) =~= Seq::empty());
        assert(message_values(all.take(0)) =~= Seq::empty());
    }
    while i < messages.len()
        invariant
            i <= messages@.len(),
            all == message_views(messages@),
            json_views(turns@) == message_values(all.take(i as int)),
        decreases messages@.len() - i,
    {
        proof {
            assert(all.take(i as int + 1).drop_last() =~= all.take(i as int));
            assert(all.take(i as int + 1).last() == messages@[i as int]@);
        }
        if messages[i].role != AgentRole::System {
            let ghost before = json_views(turns@);
            let role: Json = if messages[i].role == AgentRole::Assistant {
                text_value("assistant")
            } else {
                text_value("user")
            };
            let content: Json = content_blocks(&messages[i].content);
            push_value(&mut turns, object_of_two("role", role, "content", content));
            proof {
                assert(message_values(all.take(i as int + 1)) =~= before.push(
                    message_value(messages@[i as int]@),
                ));
            }
        }
        i += 1;
    }
    proof {
        assert(all.take(i as int) =~= all);
    }
    (agent_instructions(messages), turns)
}

/// The body of an agent's request.
pub open spec fn agent_body(
    model: Seq<char>,
    names: ModelNames,
    messages: Seq<AgentMessageView>,
    tools: Seq<ToolView>,
) -> JsonView {
    with_system(
        seq![
            ("model"@, JsonView::Text(model_name(model, names))),
            ("messages"@, JsonView::Array(message_values(messages))),
            ("temperature"@, agent_temperature()),
            ("max_tokens"@, JsonView::Number(JsonNumberView::Unsigned(AGENT_MAX_TOKENS))),
            ("stream"@, JsonView::Bool(true)),
            ("tools"@, JsonView::Array(tools.map_values(|t: ToolView| tool_value(t)))),
        ],
        instructions(system_texts(messages)),
    )
}

/// An agent of Anthropic: the user's key, and the model that is asked.
#[derive(Debug)]
pub struct AnthropicAgent {
    pub api_key: String,
    pub model: String,
}

impl AnthropicAgent {
    /// An agent's request: its messages and the tools that the model may call.
    pub fn request(
        &self,
        names: &ModelNames,
        messages: &Vec<AgentMessage>,
        tools: &Vec<ToolSpec>,
    ) -> (r: ProviderRequest)
        ensures
            r@ == provider_request(
                MESSAGES_URL@,
                request_headers(self.api_key@),
                agent_body(
                    self.model@,
                    *names,
                    message_views(messages@),
                    tool_views(tools@),
                ),
            ),
    {
        let (system, turns) = messages_to_anthropic(messages);
        let ghost all = message_views(messages@);
        let ghost told = tool_views(tools@).map_values(|t: ToolView| tool_value(t));
        let mut entries: Vec<(String, Json)> = no_entries();
        push_entry(&mut entries, "model", text_value(resolve_model(self.model.as_str(), names)));
        push_entry(&mut entries, "messages", array(turns));
        push_entry(&mut entries, "temperature", agent_temperature_value());
        push_entry(&mut entries, "max_tokens", number_value(AGENT_MAX_TOKENS));
        push_entry(&mut entries, "stream", Json::Bool(true));
        push_entry(&mut entries, "tools", tool_specs_to_anthropic(tools));
        proof {
            assert(entry_views(entries@) =~= seq![
                ("model"@, JsonView::Text(model_name(self.model@, *names))),
                ("messages"@, JsonView::Array(message_values(all))),
                ("temperature"@, agent_temperature()),
                ("max_tokens"@, JsonView::Number(JsonNumberView::Unsigned(AGENT_MAX_TOKENS))),
                ("stream"@, JsonView::Bool(true)),
                ("tools"@, JsonView::Array(told)),
            ]);
        }
        request_with(self.api_key.as_str(), finish_body(entries, system))
    }
}

/// A tool call whose arguments are still coming in, under the number of its
/// piece.
#[derive(Debug)]
pub struct PendingToolCall {
    index: u64,
    id: String,
    name: String,
    partial_json: String,
}

/// The view of a tool call whose arguments are still coming in.
pub struct PendingView {
    pub index: u64,
    pub id: Seq<char>,
    pub name: Seq<char>,
    pub partial_json: Seq<char>,
}

impl PendingToolCall {
    pub closed spec fn view(&self) -> PendingView {
        PendingView {
            index: self.index,
            id: self.id@,
            name: self.name@,
            partial_json: self.partial_json@,
        }
    }
}

/// The views of the calls that are still coming in.
pub open spec fn pending_views(pending: Seq<PendingToolCall>) -> Seq<PendingView> {
    pending.map_values(|c: PendingToolCall| c@)
}

/// The position, at or after `i`, of the call with a number.
pub open spec fn call_at(pending: Seq<PendingView>, index: u64, i: int) -> Option<int>
    decreases pending.len() - i,
{
    if i < 0 || i >= pending.len() {
        None
    } else if pending[i].index == index {
        Some(i)
    } else {
        call_at(pending, index, i + 1)
    }
}

/// The reader of a streamed answer.
pub struct AnthropicStreamView {
    /// What has come of a frame that is not complete yet.
    pub buffer: Seq<char>,
    pub pending: Seq<PendingView>,
    pub stop_reason: StopReason,
}

/// The number of the piece that an event is about.
pub open spec fn piece_index(event: JsonView) -> u64 {
    match event.u64_field("index"@) {
        Some(n) => n,
        None => 0,
    }
}

/// Why the model stopped, by Anthropic's word for it.
pub open spec fn stop_reason_of(reason: Seq<char>) -> StopReason {
    if reason == "tool_use"@ {
        StopReason::ToolUse
    } else if reason == "max_tokens"@ {
        StopReason::MaxTokens
    } else {
        StopReason::EndTurn
    }
}

impl AnthropicStreamView {
    /// A piece begins. One that is a tool call is kept until it is complete,
    /// in the place of another with its number.
    pub open spec fn block_start(self, event: JsonView) -> AnthropicStreamView {
        match event.get("content_block"@) {
            Some(block) => if block.str_field("type"@) == Some("tool_use"@) {
                let call = PendingView {
                    index: piece_index(event),
                    id: block.text_or_empty("id"@),
                    name: block.text_or_empty("name"@),
                    partial_json: Seq::empty(),
                };
                AnthropicStreamView {
                    pending: match call_at(self.pending, call.index, 0) {
                        Some(at) => self.pending.update(at, call),
                        None => self.pending.push(call),
                    },
                    ..self
                }
            } else {
                self
            },
            None => self,
        }
    }

    /// More of the arguments of a call comes in.
    pub open spec fn more_arguments(self, index: u64, partial: Seq<char>) -> AnthropicStreamView {
        match call_at(self.pending, index, 0) {
            Some(at) => AnthropicStreamView {
                pending: self.pending.update(
                    at,
                    PendingView {
                        partial_json: self.pending[at].partial_json + partial,
                        ..self.pending[at]
                    },
                ),
                ..self
            },
            None => self,
        }
    }

    /// More of a piece comes in: of a text, which is passed on, or of the
    /// arguments of a call.
    pub open spec fn block_delta(self, event: JsonView) -> (
        AnthropicStreamView,
        Seq<AgentEventView>,
    ) {
        match event.get("delta"@) {
            Some(delta) => if delta.str_field("type"@) == Some("text_delta"@) {
                match delta.str_field("text"@) {
                    Some(t) => (self, seq![AgentEventView::TextDelta(t)]),
                    None => (self, Seq::empty()),
                }
            } else if delta.str_field("type"@) == Some("input_json_delta"@) {
                match delta.str_field("partial_json"@) {
                    Some(p) => (self.more_arguments(piece_index(event), p), Seq::empty()),
                    None => (self, Seq::empty()),
                }
            } else {
                (self, Seq::empty())
            },
            None => (self, Seq::empty()),
        }
    }

    /// A piece is complete. If it is a call, it is passed on.
    pub open spec fn block_stop(self, event: JsonView) -> (
        AnthropicStreamView,
        Seq<AgentEventView>,
    ) {
        match call_at(self.pending, piece_index(event), 0) {
            Some(at) => (
                AnthropicStreamView { pending: self.pending.remove(at), ..self },
                seq![
                    AgentEventView::ToolCallReady {
                        id: self.pending[at].id,
                        name: self.pending[at].name,
                        input: call_input(self.pending[at].partial_json),
                    },
                ],
            ),
            None => (self, Seq::empty()),
        }
    }

    /// The message as a whole changes: it may say why the model stopped.
    pub open spec fn message_delta(self, event: JsonView) -> AnthropicStreamView {
        match event.get("delta"@) {
            Some(delta) => match delta.str_field("stop_reason"@) {
                Some(reason) => AnthropicStreamView { stop_reason: stop_reason_of(reason), ..self },
                None => self,
            },
            None => self,
        }
    }

    /// Takes an event of the stream.
    pub open spec fn take(self, event: JsonView) -> (AnthropicStreamView, Seq<AgentEventView>) {
        let kind = event.text_or_empty("type"@);
        if kind == "content_block_start"@ {
            (self.block_start(event), Seq::empty())
        } else if kind == "content_block_delta"@ {
            self.block_delta(event)
        } else if kind == "content_block_stop"@ {
            self.block_stop(event)
        } else if kind == "message_delta"@ {
            (self.message_delta(event), Seq::empty())
        } else {
            (self, Seq::empty())
        }
    }

    /// Takes the data of complete frames; what is no JSON text is passed over.
    pub open spec fn take_all(self, data: Seq<Seq<char>>) -> (
        AnthropicStreamView,
        Seq<AgentEventView>,
    )
        decreases data.len(),
    {
        if data.len() == 0 {
            (self, Seq::empty())
        } else {
            let before = self.take_all(data.drop_last());
            match json_parse(data.last()) {
                Ok(event) => {
                    let after = before.0.take(event);
                    (after.0, before.1 + after.1)
                },
                Err(_) => before,
            }
        }
    }

    /// Takes more of the stream.
    pub open spec fn read_text(self, text: Seq<char>) -> (
        AnthropicStreamView,
        Seq<AgentEventView>,
    ) {
        let all = self.buffer + text;
        AnthropicStreamView { buffer: after_frames(all), ..self }.take_all(data_in(all))
    }

    /// A step of reading the stream. A cancelled turn is at an end at once.
    pub open spec fn step(self, input: StreamInputView) -> (
        AnthropicStreamView,
        StreamOutputView,
    ) {
        match input {
            StreamInputView::Piece { cancelled, read } => if cancelled {
                (self, failed("cancelled"@))
            } else {
                match read {
                    Ok(bytes) => {
                        let after = self.read_text(utf8_lossy(bytes));
                        (after.0, going_on(after.1))
                    },
                    Err(e) => (self, failed(broken_stream(e))),
                }
            },
            StreamInputView::End => (
                self,
                finished(seq![AgentEventView::Done { stop_reason: self.stop_reason }]),
            ),
        }
    }
}

/// Reads a streamed answer.
#[derive(Debug)]
pub struct AnthropicStream {
    buffer: String,
    pending: Vec<PendingToolCall>,
    stop_reason: StopReason,
}

impl AnthropicStream {
    pub closed spec fn view(&self) -> AnthropicStreamView {
        AnthropicStreamView {
            buffer: self.buffer@,
            pending: pending_views(self.pending@),
            stop_reason: self.stop_reason,
        }
    }

    pub fn new() -> (r: AnthropicStream)
        ensures
            r@ == (AnthropicStreamView {
                buffer: Seq::empty(),
                pending: Seq::empty(),
                stop_reason: StopReason::EndTurn,
            }),
    {
        let r = AnthropicStream {
            buffer: String::new(),
            pending: Vec::new(),
            stop_reason: StopReason::EndTurn,
        };
        proof {
            assert(r@.pending =~= Seq::empty());
        }
        r
    }

    fn find_call(&self, index: u64) -> (r: Option<usize>)
        ensures
            match r {
                Some(at) => call_at(self@.pending, index, 0) == Some(at as int) && at
                    < self.pending@.len(),
                None => call_at(self@.pending, index, 0) is None,
            },
    {
        let mut i: usize = 0;
        while i < self.pending.len()
            invariant
                i <= self.pending@.len(),
                call_at(self@.pending, index, 0) == call_at(self@.pending, index, i as int),
            decreases self.pending@.len() - i,
        {
            proof {
                assert(self@.pending[i as int].index == self.pending@[i as int].index);
            }
            if self.pending[i].index == index {
                return Some(i);
            }
            i += 1;
        }
        None
    }

    fn block_start(&mut self, event: &Json)
        ensures
            final(self)@ == old(self)@.block_start(event@),
    {
        match event.get("content_block") {
            Some(block) => {
                if field_is(block, "type", "tool_use") {
                    let call = PendingToolCall {
                        index: index_of(event),
                        id: block.text_or_empty("id"),
                        name: block.text_or_empty("name"),
                        partial_json: String::new(),
                    };
                    let ghost shown = call@;
                    let ghost before = self@.pending;
                    match self.find_call(call.index) {
                        Some(at) => {
                            self.pending.set(at, call);
                            proof {
                                assert(self@.pending =~= before.update(at as int, shown));
                            }
                        },
                        None => {
                            self.pending.push(call);
                            proof {
                                assert(self@.pending =~= before.push(shown));
                            }
                        },
                    }
                }
            },
            None => {},
        }
    }

    fn more_arguments(&mut self, index: u64, partial: &str)
        ensures
            final(self)@ == old(self)@.more_arguments(index, partial@),
    {
        match self.find_call(index) {
            Some(at) => {
                let ghost before = self@.pending;
                let mut text: String = self.pending[at].partial_json.clone();
                text.append(partial);
                let call = PendingToolCall {
                    index: self.pending[at].index,
                    id: self.pending[at].id.clone(),
                    name: self.pending[at].name.clone(),
                    partial_json: text,
                };
                let ghost shown = call@;
                self.pending.set(at, call);
                proof {
                    assert(self@.pending =~= before.update(at as int, shown));
                }
            },
            None => {},
        }
    }

    fn block_delta(&mut self, event: &Json) -> (r: Vec<AgentEvent>)
        ensures
            (final(self)@, event_views(r@)) == old(self)@.block_delta(event@),
    {
        let mut events: Vec<AgentEvent> = no_events();
        match event.get("delta") {
            Some(delta) => {
                if field_is(delta, "type", "text_delta") {
                    match delta.str_field("text") {
                        Some(t) => {
                            push_event(&mut events, AgentEvent::TextDelta(t));
                        },
                        None => {},
                    }
                } else if field_is(delta, "type", "input_json_delta") {
                    match delta.str_field("partial_json") {
                        Some(p) => {
                            self.more_arguments(index_of(event), p.as_str());
                        },
                        None => {},
                    }
                }
            },
            None => {},
        }
        events
    }

    fn block_stop(&mut self, event: &Json) -> (r: Vec<AgentEvent>)
        ensures
            (final(self)@, event_views(r@)) == old(self)@.block_stop(event@),
    {
        let mut events: Vec<AgentEvent> = no_events();
        match self.find_call(index_of(event)) {
            Some(at) => {
                let ghost before = self@.pending;
                let call: PendingToolCall = self.pending.remove(at);
                proof {
                    assert(self@.pending =~= before.remove(at as int));
                    assert(call@ == before[at as int]);
                }
                let input: Json = parse_input(call.partial_json.as_str());
                push_event(
                    &mut events,
                    AgentEvent::ToolCallReady { id: call.id, name: call.name, input },
                );
            },
            None => {},
        }
        events
    }

    fn message_delta(&mut self, event: &Json)
        ensures
            final(self)@ == old(self)@.message_delta(event@),
    {
        match event.get("delta") {
            Some(delta) => {
                match delta.str_field("stop_reason") {
                    Some(reason) => {
                        self.stop_reason = if same(reason.as_str(), "tool_use") {
                            StopReason::ToolUse
                        } else if same(reason.as_str(), "max_tokens") {
                            StopReason::MaxTokens
                        } else {
                            StopReason::EndTurn
                        };
                    },
                    None => {},
                }
            },
            None => {},
        }
    }

    /// Takes an event of the stream.
    pub fn take(&mut self, event: &Json) -> (r: Vec<AgentEvent>)
        ensures
            (final(self)@, event_views(r@)) == old(self)@.take(event@),
    {
        let kind: String = event.text_or_empty("type");
        if same(kind.as_str(), "content_block_start") {
            self.block_start(event);
            no_events()
        } else if same(kind.as_str(), "content_block_delta") {
            self.block_delta(event)
        } else if same(kind.as_str(), "content_block_stop") {
            self.block_stop(event)
        } else if same(kind.as_str(), "message_delta") {
            self.message_delta(event);
            no_events()
        } else {
            no_events()
        }
    }

    fn take_all(&mut self, data: &Vec<String>) -> (r: Vec<AgentEvent>)
        ensures
            (final(self)@, event_views(r@)) == old(self)@.take_all(views(data@)),
    {
        let ghost all = views(data@);
        let mut events: Vec<AgentEvent> = no_events();
        let mut i: usize = 0;
        proof {
            assert(all.take(0) =~= Seq::empty());
        }
        while i < data.len()
            invariant
                i <= data@.len(),
                all == views(data@),
                (self@, event_views(events@)) == old(self)@.take_all(all.take(i as int)),
            decreases data@.len() - i,
        {
            let ghost before = event_views(events@);
            proof {
                assert(all.take(i as int + 1).drop_last() =~= all.take(i as int));
                assert(all.take(i as int + 1).last() == data@[i as int]@);
            }
            match read_json(data[i].as_str()) {
                Ok(event) => {
                    let mut more: Vec<AgentEvent> = self.take(&event);
                    let ghost added = event_views(more@);
                    events.append(&mut more);
                    proof {
                        assert(event_views(events@) =~= before + added);
                    }
                },
                Err(_) => {},
            }
            i += 1;
        }
        proof {
            assert(all.take(i as int) =~= all);
        }
        events
    }

    /// A step of reading the stream.
    pub fn step(&mut self, input: &StreamInput) -> (r: StreamOutput)
        ensures
            (final(self)@, r@) == old(self)@.step(input@),
    {
        match input {
            StreamInput::Piece { cancelled, read } => {
                if *cancelled {
                    return failed_output("cancelled".to_owned());
                }
                match read {
                    Ok(bytes) => {
                        append_piece(&mut self.buffer, bytes.as_slice());
                        let data: Vec<String> = take_data(&mut self.buffer);
                        let events: Vec<AgentEvent> = self.take_all(&data);
                        StreamOutput { events, result: None }
                    },
                    Err(e) => failed_output(stream_error(e.as_str())),
                }
            },
            StreamInput::End => {
                let mut events: Vec<AgentEvent> = no_events();
                push_event(&mut events, AgentEvent::Done { stop_reason: self.stop_reason });
                StreamOutput { events, result: Some(Ok(())) }
            },
        }
    }
}

fn index_of(event: &Json) -> (r: u64)
    ensures
        r == piece_index(event@),
{
    match event.u64_field("index") {
        Some(n) => n,
        None => 0,
    }
}

proof fn taking_keeps_the_buffer(state: AnthropicStreamView, data: Seq<Seq<char>>)
    ensures
        state.take_all(data).0.buffer == state.buffer,
    decreases data.len(),
{
    if data.len() > 0 {
        taking_keeps_the_buffer(state, data.drop_last());
    }
}

proof fn taking_in_two_parts(
    state: AnthropicStreamView,
    a: Seq<Seq<char>>,
    b: Seq<Seq<char>>,
    buffer: Seq<char>,
)
    ensures
        ({
            let first = state.take_all(a);
            let second = AnthropicStreamView { buffer, ..first.0 }.take_all(b);
            AnthropicStreamView { buffer, ..state }.take_all(a + b) == (
                second.0,
                first.1 + second.1,
            )
        }),
    decreases b.len(), a.len(),
{
    let first = state.take_all(a);
    let between = AnthropicStreamView { buffer, ..first.0 };
    if b.len() > 0 {
        taking_in_two_parts(state, a, b.drop_last(), buffer);
        assert((a + b).drop_last() =~= a + b.drop_last());
        assert((a + b).last() == b.last());
        let second = between.take_all(b.drop_last());
        match json_parse(b.last()) {
            Ok(event) => {
                let third = second.0.take(event);
                assert(first.1 + second.1 + third.1 =~= first.1 + (second.1 + third.1));
            },
            Err(_) => {},
        }
    } else {
        assert(a + b =~= a);
        assert(first.1 + Seq::<AgentEventView>::empty() =~= first.1);
        if a.len() > 0 {
            let none = Seq::<Seq<char>>::empty();
            taking_in_two_parts(state, a.drop_last(), none, buffer);
            assert(a.drop_last() + none =~= a.drop_last());
            assert(none =~= b);
            let f = state.take_all(a.drop_last());
            assert(f.1 + Seq::<AgentEventView>::empty() =~= f.1);
        }
    }
}

/// How a streamed answer is cut into pieces makes no difference: reading two
/// pieces one after the other gives the events that reading both at once
/// gives, and leads to the same state.
pub proof fn answers_do_not_depend_on_the_pieces(
    state: AnthropicStreamView,
    a: Seq<char>,
    b: Seq<char>,
)
    ensures
        ({
            let first = state.read_text(a);
            let second = first.0.read_text(b);
            state.read_text(a + b) == (second.0, first.1 + second.1)
        }),
{
    let all = state.buffer + a;
    let kept = AnthropicStreamView { buffer: after_frames(all), ..state };
    assert(state.buffer + (a + b) =~= all + b);
    frames_do_not_depend_on_the_pieces(all, b);
    taking_keeps_the_buffer(kept, data_in(all));
    let rest = after_frames(all) + b;
    taking_in_two_parts(kept, data_in(all), data_in(rest), after_frames(rest));
}

/// A cancelled turn gives no more events, and an error in the place of a
/// result.
pub proof fn a_cancelled_stream_fails(
    state: AnthropicStreamView,
    read: Result<Seq<u8>, Seq<char>>,
)
    ensures
        state.step(StreamInputView::Piece { cancelled: true, read }).1 == failed("cancelled"@),
{
}

/// The arguments of a call are put together from their parts in the order in
/// which these come in, and the call is passed on with all of them once its
/// piece is complete, under the name and the identifier it began with.
pub proof fn a_call_is_put_together(
    state: AnthropicStreamView,
    start: JsonView,
    parts: Seq<Seq<char>>,
    stop: JsonView,
    block: JsonView,
)
    requires
        start.get("content_block"@) == Some(block),
        block.str_field("type"@) == Some("tool_use"@),
        piece_index(stop) == piece_index(start),
    ensures
        arguments_added(state.block_start(start), piece_index(start), parts).block_stop(stop).1
            == seq![
            AgentEventView::ToolCallReady {
                id: block.text_or_empty("id"@),
                name: block.text_or_empty("name"@),
                input: call_input(concat(parts)),
            },
        ],
{
    let index = piece_index(start);
    let begun = state.block_start(start);
    match call_at(state.pending, index, 0) {
        Some(at) => {
            call_at_bounds(state.pending, index, 0);
            call_at_stays(state.pending, begun.pending, index, 0);
        },
        None => {
            call_at_the_end(state.pending, begun.pending, index, 0);
        },
    }
    call_at_bounds(begun.pending, index, 0);
    arguments_are_joined(begun, index, parts);
    let at = call_at(begun.pending, index, 0)->Some_0;
    assert(Seq::<char>::empty() + concat(parts) =~= concat(parts));
}

/// The state after parts of the arguments of a call have come in.
pub open spec fn arguments_added(
    state: AnthropicStreamView,
    index: u64,
    parts: Seq<Seq<char>>,
) -> AnthropicStreamView
    decreases parts.len(),
{
    if parts.len() == 0 {
        state
    } else {
        arguments_added(state.more_arguments(index, parts[0]), index, parts.drop_first())
    }
}

proof fn call_at_bounds(pending: Seq<PendingView>, index: u64, i: int)
    ensures
        call_at(pending, index, i) matches Some(at) ==> i <= at < pending.len()
            && pending[at].index == index,
    decreases pending.len() - i,
{
    if 0 <= i < pending.len() && pending[i].index != index {
        call_at_bounds(pending, index, i + 1);
    }
}

/// Calls with the same numbers in the same places are found in the same
/// places.
proof fn call_at_stays(a: Seq<PendingView>, b: Seq<PendingView>, index: u64, i: int)
    requires
        a.len() == b.len(),
        forall|j: int| 0 <= j < a.len() ==> (#[trigger] a[j]).index == b[j].index,
    ensures
        call_at(a, index, i) == call_at(b, index, i),
    decreases a.len() - i,
{
    if 0 <= i < a.len() {
        assert(a[i].index == b[i].index);
        if a[i].index != index {
            call_at_stays(a, b, index, i + 1);
        }
    }
}

proof fn call_at_the_end(a: Seq<PendingView>, b: Seq<PendingView>, index: u64, i: int)
    requires
        0 <= i <= a.len(),
        b.len() == a.len() + 1,
        forall|j: int| 0 <= j < a.len() ==> (#[trigger] a[j]).index == b[j].index,
        b[a.len() as int].index == index,
        call_at(a, index, i) is None,
    ensures
        call_at(b, index, i) == Some(a.len() as int),
    decreases a.len() - i,
{
    if i < a.len() {
        assert(a[i].index == b[i].index);
        call_at_the_end(a, b, index, i + 1);
    }
}

proof fn arguments_are_joined(state: AnthropicStreamView, index: u64, parts: Seq<Seq<char>>)
    requires
        call_at(state.pending, index, 0) is Some,
    ensures
        ({
            let after = arguments_added(state, index, parts);
            let at = call_at(state.pending, index, 0)->Some_0;
            &&& call_at(after.pending, index, 0) == Some(at)
            &&& after.pending.len() == state.pending.len()
            &&& after.pending[at].id == state.pending[at].id
            &&& after.pending[at].name == state.pending[at].name
            &&& after.pending[at].partial_json == state.pending[at].partial_json + concat(parts)
        }),
    decreases parts.len(),
{
    let at = call_at(state.pending, index, 0)->Some_0;
    call_at_bounds(state.pending, index, 0);
    if parts.len() > 0 {
        let next = state.more_arguments(index, parts[0]);
        call_at_stays(state.pending, next.pending, index, 0);
        arguments_are_joined(next, index, parts.drop_first());
        let had = state.pending[at].partial_json;
        let rest = concat(parts.drop_first());
        assert(had + parts[0] + rest =~= had + (parts[0] + rest));
    } else {
        assert(state.pending[at].partial_json + Seq::<char>::empty()
            =~= state.pending[at].partial_json);
    }
}

/// A conversation is sent as it is: every message that is not the system's
/// stands, in order, among the messages of the body, under its own role and with
/// its own content; the system's messages are the instructions; and the model,
/// the temperature and the limit are those that were given.
pub proof fn a_conversation_is_sent_as_it_is(
    model: Seq<char>,
    names: ModelNames,
    messages: Seq<ChatView>,
    temperature: JsonView,
    max_tokens: u32,
    stream: bool,
)
    ensures
        ({
            let body = request_body(model, names, messages, temperature, max_tokens, stream);
            let turns = messages.filter(|m: ChatView| m.role != "system"@);
            let system = messages.filter(|m: ChatView| m.role == "system"@).map_values(
                |m: ChatView| m.content,
            );
            &&& match body.get("messages"@) {
                Some(JsonView::Array(sent)) => {
                    &&& sent.len() == turns.len()
                    &&& forall|i: int|
                        0 <= i < turns.len() ==> (#[trigger] sent[i]).get("role"@) == Some(
                            JsonView::Text(turns[i].role),
                        ) && sent[i].get("content"@) == Some(JsonView::Text(turns[i].content))
                },
                _ => false,
            }
            &&& system.len() == 0 ==> body.get("system"@) is None
            &&& system.len() > 0 ==> body.get("system"@) == Some(
                JsonView::Text(joined(system, "\n\n"@)),
            )
            &&& body.get("temperature"@) == Some(temperature)
            &&& body.get("max_tokens"@) == Some(
                JsonView::Number(JsonNumberView::Unsigned(max_tokens as u64)),
            )
            &&& body.get("stream"@) == (if stream {
                Some(JsonView::Bool(true))
            } else {
                None
            })
            &&& starts_with(model, names.prefix@) ==> body.get("model"@) == Some(
                JsonView::Text(model),
            )
            &&& !starts_with(model, names.prefix@) ==> body.get("model"@) == Some(
                JsonView::Text(names.default_model@),
            )
        }),
{
    field_names_differ();
    instructions_are_parted_from_turns(messages);
    let body = request_body(model, names, messages, temperature, max_tokens, stream);
    let entries = body->Object_0;
    assert(entries[0].0 == "model"@ && entries[1].0 == "messages"@);
    assert(entries[2].0 == "temperature"@ && entries[3].0 == "max_tokens"@);
    assert(stream ==> entries[4].0 == "stream"@);
    let system = system_parts(messages);
    let at = if stream {
        5int
    } else {
        4int
    };
    if system.len() > 0 {
        assert(entries[at] == ("system"@, JsonView::Text(joined(system, "\n\n"@))));
        assert(entries.len() == at + 1);
    } else {
        assert(entries.len() == at);
    }
    distinct_keys_are_all_found(entries);
    assert(body.get(entries[0].0) == Some(entries[0].1));
    assert(body.get(entries[1].0) == Some(entries[1].1));
    assert(body.get(entries[2].0) == Some(entries[2].1));
    assert(body.get(entries[3].0) == Some(entries[3].1));
    if stream {
        assert(body.get(entries[4].0) == Some(entries[4].1));
    } else {
        assert(body.get("stream"@) is None);
    }
    if system.len() > 0 {
        assert(body.get(entries[at].0) == Some(entries[at].1));
    } else {
        assert(body.get("system"@) is None);
    }
    let turns = messages.filter(|m: ChatView| m.role != "system"@);
    let sent = turn_values(messages);
    assert forall|i: int| 0 <= i < turns.len() implies (#[trigger] sent[i]).get("role"@) == Some(
        JsonView::Text(turns[i].role),
    ) && sent[i].get("content"@) == Some(JsonView::Text(turns[i].content)) by {
        assert(sent[i] == turn_value(turns[i]));
        let two = turn_value(turns[i])->Object_0;
        members_are_found_by_key(two, "role"@, 0);
        members_are_found_by_key(two, "content"@, 1);
    }
}

proof fn field_names_differ()
    ensures
        "role"@ != "content"@,
        "model"@ != "messages"@,
        "model"@ != "temperature"@,
        "model"@ != "max_tokens"@,
        "model"@ != "stream"@,
        "model"@ != "system"@,
        "model"@ != "tools"@,
        "messages"@ != "temperature"@,
        "messages"@ != "max_tokens"@,
        "messages"@ != "stream"@,
        "messages"@ != "system"@,
        "messages"@ != "tools"@,
        "temperature"@ != "max_tokens"@,
        "temperature"@ != "stream"@,
        "temperature"@ != "system"@,
        "temperature"@ != "tools"@,
        "max_tokens"@ != "stream"@,
        "max_tokens"@ != "system"@,
        "max_tokens"@ != "tools"@,
        "stream"@ != "system"@,
        "stream"@ != "tools"@,
        "system"@ != "tools"@,
        "type"@ != "text"@,
        "type"@ != "id"@,
        "type"@ != "name"@,
        "type"@ != "input"@,
        "id"@ != "name"@,
        "id"@ != "input"@,
        "name"@ != "input"@,
        "type"@ != "tool_use_id"@,
        "type"@ != "content"@,
        "type"@ != "is_error"@,
        "tool_use_id"@ != "content"@,
        "tool_use_id"@ != "is_error"@,
        "content"@ != "is_error"@,
        "type"@ != "source"@,
        "type"@ != "media_type"@,
        "type"@ != "data"@,
        "media_type"@ != "data"@,
        "name"@ != "description"@,
        "name"@ != "input_schema"@,
        "description"@ != "input_schema"@,
{
    reveal_strlit("role");
    reveal_strlit("content");
    reveal_strlit("model");
    reveal_strlit("messages");
    reveal_strlit("temperature");
    reveal_strlit("max_tokens");
    reveal_strlit("stream");
    reveal_strlit("system");
    reveal_strlit("tools");
    reveal_strlit("type");
    reveal_strlit("text");
    reveal_strlit("id");
    reveal_strlit("name");
    reveal_strlit("input");
    reveal_strlit("tool_use_id");
    reveal_strlit("is_error");
    reveal_strlit("source");
    reveal_strlit("media_type");
    reveal_strlit("data");
    reveal_strlit("description");
    reveal_strlit("input_schema");
    assert("role"@.len() == 4);
    assert("content"@.len() == 7);
    assert("model"@.len() == 5);
    assert("messages"@.len() == 8);
    assert("temperature"@.len() == 11);
    assert("max_tokens"@.len() == 10);
    assert("stream"@.len() == 6);
    assert("system"@.len() == 6);
    assert("tools"@.len() == 5);
    assert("type"@.len() == 4);
    assert("text"@.len() == 4);
    assert("id"@.len() == 2);
    assert("name"@.len() == 4);
    assert("input"@.len() == 5);
    assert("tool_use_id"@.len() == 11);
    assert("is_error"@.len() == 8);
    assert("source"@.len() == 6);
    assert("media_type"@.len() == 10);
    assert("data"@.len() == 4);
    assert("description"@.len() == 11);
    assert("input_schema"@.len() == 12);
    assert("model"@[0] != "tools"@[0]);
    assert("stream"@[1] != "system"@[1]);
    assert("type"@[1] != "text"@[1]);
    assert("type"@[0] != "name"@[0]);
    assert("type"@[0] != "data"@[0]);
}

/// A picture is sent as it is.
pub open spec fn picture_is_sent(
    sent: JsonView,
    media_type: Seq<char>,
    data_base64: Seq<char>,
) -> bool {
    &&& sent.get("type"@) == Some(JsonView::Text("image"@))
    &&& sent.get("source"@) matches Some(source) && source.get("type"@) == Some(
        JsonView::Text("base64"@),
    ) && source.get("media_type"@) == Some(JsonView::Text(media_type)) && source.get("data"@)
        == Some(JsonView::Text(data_base64))
}

/// A piece of a message is sent as it is: a text with its text, a picture with
/// its bytes, a call with its identifier, its name and its input, and a result
/// under the identifier of its call, with its text, its picture and whether the
/// call failed.
pub open spec fn piece_is_sent(sent: JsonView, piece: AgentContentView) -> bool {
    match piece {
        AgentContentView::Text(text) => {
            &&& sent.get("type"@) == Some(JsonView::Text("text"@))
            &&& sent.get("text"@) == Some(JsonView::Text(text))
        },
        AgentContentView::Image { media_type, data_base64 } => picture_is_sent(
            sent,
            media_type,
            data_base64,
        ),
        AgentContentView::ToolUse { id, name, input } => {
            &&& sent.get("type"@) == Some(JsonView::Text("tool_use"@))
            &&& sent.get("id"@) == Some(JsonView::Text(id))
            &&& sent.get("name"@) == Some(JsonView::Text(name))
            &&& sent.get("input"@) == Some(input)
        },
        AgentContentView::ToolResult { tool_use_id, text, image, is_error } => {
            &&& sent.get("type"@) == Some(JsonView::Text("tool_result"@))
            &&& sent.get("tool_use_id"@) == Some(JsonView::Text(tool_use_id))
            &&& sent.get("is_error"@) == Some(JsonView::Bool(is_error))
            &&& match sent.get("content"@) {
                Some(JsonView::Array(shown)) => {
                    &&& shown.len() == (if image is Some {
                        2int
                    } else {
                        1int
                    })
                    &&& shown[0].get("type"@) == Some(JsonView::Text("text"@))
                    &&& shown[0].get("text"@) == Some(JsonView::Text(text))
                    &&& image matches Some(pair) ==> picture_is_sent(shown[1], pair.0, pair.1)
                },
                _ => false,
            }
        },
    }
}

proof fn texts_are_sent(text: Seq<char>)
    ensures
        text_block(text).get("type"@) == Some(JsonView::Text("text"@)),
        text_block(text).get("text"@) == Some(JsonView::Text(text)),
{
    field_names_differ();
    let entries = text_block(text)->Object_0;
    assert(entries[0].0 == "type"@);
    assert(entries[1].0 == "text"@);
    assert(entries.len() == 2);
    distinct_keys_are_all_found(entries);
    assert(text_block(text).get("type"@) == Some(entries[0].1));
    assert(text_block(text).get("text"@) == Some(entries[1].1));
}

proof fn pictures_are_sent(media_type: Seq<char>, data_base64: Seq<char>)
    ensures
        picture_is_sent(image_value(media_type, data_base64), media_type, data_base64),
{
    field_names_differ();
    let whole = image_value(media_type, data_base64);
    let entries = whole->Object_0;
    assert(entries[0].0 == "type"@);
    assert(entries[1].0 == "source"@);
    assert(entries.len() == 2);
    distinct_keys_are_all_found(entries);
    assert(whole.get("type"@) == Some(entries[0].1));
    assert(whole.get("source"@) == Some(entries[1].1));
    let source = entries[1].1;
    let entries = source->Object_0;
    assert(entries[0].0 == "type"@);
    assert(entries[1].0 == "media_type"@);
    assert(entries[2].0 == "data"@);
    assert(entries.len() == 3);
    distinct_keys_are_all_found(entries);
    assert(source.get("type"@) == Some(entries[0].1));
    assert(source.get("media_type"@) == Some(entries[1].1));
    assert(source.get("data"@) == Some(entries[2].1));
}

proof fn pieces_are_sent(piece: AgentContentView)
    ensures
        piece_is_sent(content_value(piece), piece),
{
    field_names_differ();
    let sent = content_value(piece);
    match piece {
        AgentContentView::Text(text) => {
            texts_are_sent(text);
        },
        AgentContentView::Image { media_type, data_base64 } => {
            pictures_are_sent(media_type, data_base64);
        },
        AgentContentView::ToolUse { id, name, input } => {
            let entries = sent->Object_0;
            assert(entries[0].0 == "type"@);
            assert(entries[1].0 == "id"@);
            assert(entries[2].0 == "name"@);
            assert(entries[3].0 == "input"@);
            assert(entries.len() == 4);
            distinct_keys_are_all_found(entries);
            assert(sent.get("type"@) == Some(entries[0].1));
            assert(sent.get("id"@) == Some(entries[1].1));
            assert(sent.get("name"@) == Some(entries[2].1));
            assert(sent.get("input"@) == Some(entries[3].1));
        },
        AgentContentView::ToolResult { tool_use_id, text, image, is_error } => {
            texts_are_sent(text);
            match image {
                Some(pair) => {
                    pictures_are_sent(pair.0, pair.1);
                },
                None => {},
            }
            let entries = sent->Object_0;
            assert(entries[0].0 == "type"@);
            assert(entries[1].0 == "tool_use_id"@);
            assert(entries[2].0 == "content"@);
            assert(entries[3].0 == "is_error"@);
            assert(entries.len() == 4);
            distinct_keys_are_all_found(entries);
            assert(sent.get("type"@) == Some(entries[0].1));
            assert(sent.get("tool_use_id"@) == Some(entries[1].1));
            assert(sent.get("content"@) == Some(entries[2].1));
            assert(sent.get("is_error"@) == Some(entries[3].1));
        },
    }
}

/// A conversation with an agent is sent as it is: every message that is not the
/// system's stands, in order, among the messages of the body, the assistant's as
/// the assistant's and any other as the user's, each with all of its pieces in
/// order; and every tool is told of by its name, its description and what it
/// takes.
pub proof fn an_agents_conversation_is_sent_as_it_is(
    model: Seq<char>,
    names: ModelNames,
    messages: Seq<AgentMessageView>,
    tools: Seq<ToolView>,
)
    ensures
        ({
            let body = agent_body(model, names, messages, tools);
            let turns = messages.filter(|m: AgentMessageView| m.role != AgentRole::System);
            &&& match body.get("messages"@) {
                Some(JsonView::Array(sent)) => {
                    &&& sent.len() == turns.len()
                    &&& forall|i: int|
                        0 <= i < turns.len() ==> {
                            &&& (#[trigger] sent[i]).get("role"@) == Some(
                                JsonView::Text(
                                    if turns[i].role == AgentRole::Assistant {
                                        "assistant"@
                                    } else {
                                        "user"@
                                    },
                                ),
                            )
                            &&& match sent[i].get("content"@) {
                                Some(JsonView::Array(pieces)) => {
                                    &&& pieces.len() == turns[i].content.len()
                                    &&& forall|k: int|
                                        0 <= k < pieces.len() ==> piece_is_sent(
                                            #[trigger] pieces[k],
                                            turns[i].content[k],
                                        )
                                },
                                _ => false,
                            }
                        }
                },
                _ => false,
            }
            &&& match body.get("tools"@) {
                Some(JsonView::Array(told)) => {
                    &&& told.len() == tools.len()
                    &&& forall|i: int|
                        0 <= i < tools.len() ==> {
                            &&& (#[trigger] told[i]).get("name"@) == Some(
                                JsonView::Text(tools[i].name),
                            )
                            &&& told[i].get("description"@) == Some(
                                JsonView::Text(tools[i].description),
                            )
                            &&& told[i].get("input_schema"@) == Some(tools[i].parameters)
                        }
                },
                _ => false,
            }
            &&& body.get("stream"@) == Some(JsonView::Bool(true))
            &&& system_texts(messages).len() > 0 ==> body.get("system"@) == Some(
                JsonView::Text(joined(system_texts(messages), "\n\n"@)),
            )
            &&& system_texts(messages).len() == 0 ==> body.get("system"@) is None
        }),
{
    field_names_differ();
    agent_instructions_are_parted_from_turns(messages, Seq::empty(), messages[0]);
    let body = agent_body(model, names, messages, tools);
    let turns = messages.filter(|m: AgentMessageView| m.role != AgentRole::System);
    let entries = body->Object_0;
    assert(entries[0].0 == "model"@ && entries[1].0 == "messages"@);
    assert(entries[2].0 == "temperature"@ && entries[3].0 == "max_tokens"@);
    assert(entries[4].0 == "stream"@ && entries[5].0 == "tools"@);
    let system = system_texts(messages);
    if system.len() > 0 {
        assert(entries[6] == ("system"@, JsonView::Text(joined(system, "\n\n"@))));
        assert(entries.len() == 7);
    } else {
        assert(entries.len() == 6);
    }
    distinct_keys_are_all_found(entries);
    assert(body.get(entries[1].0) == Some(entries[1].1));
    assert(body.get(entries[4].0) == Some(entries[4].1));
    assert(body.get(entries[5].0) == Some(entries[5].1));
    if system.len() > 0 {
        assert(body.get(entries[6].0) == Some(entries[6].1));
    } else {
        assert(body.get("system"@) is None);
    }
    let sent = message_values(messages);
    assert forall|i: int| 0 <= i < turns.len() implies {
        &&& (#[trigger] sent[i]).get("role"@) == Some(
            JsonView::Text(
                if turns[i].role == AgentRole::Assistant {
                    "assistant"@
                } else {
                    "user"@
                },
            ),
        )
        &&& match sent[i].get("content"@) {
            Some(JsonView::Array(pieces)) => {
                &&& pieces.len() == turns[i].content.len()
                &&& forall|k: int|
                    0 <= k < pieces.len() ==> piece_is_sent(
                        #[trigger] pieces[k],
                        turns[i].content[k],
                    )
            },
            _ => false,
        }
    } by {
        assert(sent[i] == message_value(turns[i]));
        let two = sent[i]->Object_0;
        members_are_found_by_key(two, "role"@, 0);
        members_are_found_by_key(two, "content"@, 1);
        let pieces = turns[i].content.map_values(|c: AgentContentView| content_value(c));
        assert forall|k: int| 0 <= k < pieces.len() implies piece_is_sent(
            #[trigger] pieces[k],
            turns[i].content[k],
        ) by {
            pieces_are_sent(turns[i].content[k]);
        }
    }
    let told = tools.map_values(|t: ToolView| tool_value(t));
    assert forall|i: int| 0 <= i < tools.len() implies {
        &&& (#[trigger] told[i]).get("name"@) == Some(JsonView::Text(tools[i].name))
        &&& told[i].get("description"@) == Some(JsonView::Text(tools[i].description))
        &&& told[i].get("input_schema"@) == Some(tools[i].parameters)
    } by {
        let three = told[i]->Object_0;
        members_are_found_by_key(three, "name"@, 0);
        members_are_found_by_key(three, "description"@, 1);
        members_are_found_by_key(three, "input_schema"@, 2);
    }
}

/// The text of an answer is that of its pieces of text, one after the other:
/// each adds its text, and what is no piece of text adds nothing.
pub proof fn the_text_of_an_answer_is_that_of_its_pieces(
    first: Seq<JsonView>,
    second: Seq<JsonView>,
    piece: JsonView,
    answer: JsonView,
)
    ensures
        blocks_text(first + second) == blocks_text(first) + blocks_text(second),
        piece.get("type"@) == Some(JsonView::Text("text"@)) ==> (match piece.get("text"@) {
            Some(JsonView::Text(t)) => blocks_text(seq![piece]) == t,
            _ => blocks_text(seq![piece]).len() == 0,
        }),
        piece.get("type"@) != Some(JsonView::Text("text"@)) ==> blocks_text(seq![piece]).len() == 0,
        answer.get("content"@) matches Some(JsonView::Array(blocks)) ==> answer_text(answer)
            == blocks_text(blocks),
        !(answer.get("content"@) matches Some(JsonView::Array(_))) ==> answer_text(answer).len()
            == 0,
    decreases second.len(),
{
    let one = seq![piece];
    let none = Seq::<char>::empty();
    assert(one.drop_last() =~= Seq::<JsonView>::empty());
    assert(blocks_text(one.drop_last()) == none);
    assert(one.last() == piece);
    assert(none + block_text(piece) =~= block_text(piece));
    if second.len() == 0 {
        assert(first + second =~= first);
    } else {
        the_text_of_an_answer_is_that_of_its_pieces(first, second.drop_last(), piece, answer);
        assert((first + second).drop_last() =~= first + second.drop_last());
    }
    assert(blocks_text(first + second) =~= blocks_text(first) + blocks_text(second));
}

/// The pieces of text of a stream come out one by one, in order, and nothing
/// else does: each event with a text adds that text, any other event and what
/// cannot be read add nothing.
pub proof fn a_stream_of_text_comes_out_in_order(
    first: Seq<Seq<char>>,
    second: Seq<Seq<char>>,
    data: Seq<char>,
    event: JsonView,
    delta: JsonView,
)
    ensures
        deltas(first + second) == deltas(first) + deltas(second),
        json_parse(data) is Err ==> deltas(seq![data]).len() == 0,
        json_parse(data) == Ok::<JsonView, Seq<char>>(event) && event.get("type"@) != Some(
            JsonView::Text("content_block_delta"@),
        ) ==> deltas(seq![data]).len() == 0,
        json_parse(data) == Ok::<JsonView, Seq<char>>(event) && event.get("type"@) == Some(
            JsonView::Text("content_block_delta"@),
        ) && event.get("delta"@) == Some(delta) ==> (match delta.get("text"@) {
            Some(JsonView::Text(t)) => deltas(seq![data]) == seq![t],
            _ => deltas(seq![data]).len() == 0,
        }),
    decreases second.len(),
{
    let one = seq![data];
    assert(one.drop_last() =~= Seq::<Seq<char>>::empty());
    assert(deltas(one.drop_last()) =~= Seq::<Seq<char>>::empty());
    assert(one.last() == data);
    match delta.get("text"@) {
        Some(JsonView::Text(t)) => {
            assert(Seq::<Seq<char>>::empty().push(t) =~= seq![t]);
        },
        _ => {},
    }
    if second.len() == 0 {
        assert(first + second =~= first);
    } else {
        a_stream_of_text_comes_out_in_order(first, second.drop_last(), data, event, delta);
        assert((first + second).drop_last() =~= first + second.drop_last());
    }
    assert(deltas(first + second) =~= deltas(first) + deltas(second));
}

/// The state after some events, and what came out of them.
pub open spec fn after_events(state: AnthropicStreamView, events: Seq<JsonView>) -> (
    AnthropicStreamView,
    Seq<AgentEventView>,
)
    decreases events.len(),
{
    if events.len() == 0 {
        (state, Seq::empty())
    } else {
        let before = after_events(state, events.drop_last());
        let last = before.0.take(events.last());
        (last.0, before.1 + last.1)
    }
}

/// An event says that a piece of a call's arguments has come.
pub open spec fn adds_arguments(event: JsonView, index: u64, part: Seq<char>) -> bool {
    &&& event.get("type"@) == Some(JsonView::Text("content_block_delta"@))
    &&& event.u64_field("index"@) == Some(index)
    &&& event.get("delta"@) matches Some(delta) && delta.get("type"@) == Some(
        JsonView::Text("input_json_delta"@),
    ) && delta.get("partial_json"@) == Some(JsonView::Text(part))
}

proof fn kinds_differ()
    ensures
        "content_block_start"@ != "content_block_delta"@,
        "content_block_start"@ != "content_block_stop"@,
        "content_block_start"@ != "message_delta"@,
        "content_block_delta"@ != "content_block_stop"@,
        "content_block_delta"@ != "message_delta"@,
        "content_block_stop"@ != "message_delta"@,
        "text_delta"@ != "input_json_delta"@,
        "tool_use"@ != "max_tokens"@,
{
    reveal_strlit("content_block_start");
    reveal_strlit("content_block_delta");
    reveal_strlit("content_block_stop");
    reveal_strlit("message_delta");
    reveal_strlit("text_delta");
    reveal_strlit("input_json_delta");
    reveal_strlit("tool_use");
    reveal_strlit("max_tokens");
    assert("content_block_start"@[14] != "content_block_delta"@[14]);
    assert("content_block_stop"@.len() == 18);
    assert("content_block_start"@.len() == 19);
    assert("content_block_delta"@.len() == 19);
    assert("message_delta"@.len() == 13);
    assert("text_delta"@.len() == 10);
    assert("input_json_delta"@.len() == 16);
    assert("tool_use"@.len() == 8);
    assert("max_tokens"@.len() == 10);
}

/// A text in a stream is passed on as it is, at once, and changes nothing else.
pub proof fn a_text_is_passed_on(
    state: AnthropicStreamView,
    event: JsonView,
    delta: JsonView,
    text: Seq<char>,
)
    requires
        event.get("type"@) == Some(JsonView::Text("content_block_delta"@)),
        event.get("delta"@) == Some(delta),
        delta.get("type"@) == Some(JsonView::Text("text_delta"@)),
        delta.get("text"@) == Some(JsonView::Text(text)),
    ensures
        state.take(event) == (state, seq![AgentEventView::TextDelta(text)]),
{
    kinds_differ();
}

/// The reason that is told last is the reason with which the answer ends: tools,
/// the limit, or the end of the turn.
pub proof fn the_reason_told_ends_the_answer(
    state: AnthropicStreamView,
    event: JsonView,
    delta: JsonView,
    reason: Seq<char>,
)
    requires
        event.get("type"@) == Some(JsonView::Text("message_delta"@)),
        event.get("delta"@) == Some(delta),
        delta.get("stop_reason"@) == Some(JsonView::Text(reason)),
    ensures
        state.take(event).1.len() == 0,
        state.take(event).0.step(StreamInputView::End).1.result == Some(Ok::<(), Seq<char>>(())),
        state.take(event).0.step(StreamInputView::End).1.events == seq![
            AgentEventView::Done {
                stop_reason: if reason == "tool_use"@ {
                    StopReason::ToolUse
                } else if reason == "max_tokens"@ {
                    StopReason::MaxTokens
                } else {
                    StopReason::EndTurn
                },
            },
        ],
{
    kinds_differ();
}

/// A call in a stream is passed on once, when its piece ends, whatever the number
/// of events its arguments come in: under the identifier and the name that it
/// began with, with the input that its arguments, one after the other, say.
pub proof fn a_call_in_a_stream_is_passed_on_whole(
    state: AnthropicStreamView,
    start: JsonView,
    middle: Seq<JsonView>,
    parts: Seq<Seq<char>>,
    stop: JsonView,
    block: JsonView,
    id: Seq<char>,
    name: Seq<char>,
    index: u64,
)
    requires
        start.get("type"@) == Some(JsonView::Text("content_block_start"@)),
        start.u64_field("index"@) == Some(index),
        start.get("content_block"@) == Some(block),
        block.get("type"@) == Some(JsonView::Text("tool_use"@)),
        block.get("id"@) == Some(JsonView::Text(id)),
        block.get("name"@) == Some(JsonView::Text(name)),
        middle.len() == parts.len(),
        forall|i: int|
            0 <= i < middle.len() ==> adds_arguments(#[trigger] middle[i], index, parts[i]),
        stop.get("type"@) == Some(JsonView::Text("content_block_stop"@)),
        stop.u64_field("index"@) == Some(index),
    ensures
        after_events(state, seq![start] + middle + seq![stop]).1 == seq![
            AgentEventView::ToolCallReady { id, name, input: call_input(concat(parts)) },
        ],
{
    kinds_differ();
    let begun = state.block_start(start);
    let one = seq![start];
    assert(one.drop_last() =~= Seq::<JsonView>::empty());
    assert(after_events(state, one.drop_last()) == (state, Seq::<AgentEventView>::empty()));
    assert(after_events(state, one).1 =~= Seq::<AgentEventView>::empty());
    assert(after_events(state, one).0 == begun);
    arguments_come_in(state, start, middle, parts, index);
    let most = one + middle;
    let all = most + seq![stop];
    assert(all.drop_last() =~= most);
    a_call_is_put_together(state, start, parts, stop, block);
    let held = arguments_added(begun, index, parts);
    assert(after_events(state, most).0 == held);
    assert(after_events(state, all).1 =~= held.block_stop(stop).1);
}

proof fn arguments_come_in(
    state: AnthropicStreamView,
    start: JsonView,
    middle: Seq<JsonView>,
    parts: Seq<Seq<char>>,
    index: u64,
)
    requires
        middle.len() == parts.len(),
        forall|i: int|
            0 <= i < middle.len() ==> adds_arguments(#[trigger] middle[i], index, parts[i]),
        after_events(state, seq![start]) == (state.block_start(start), Seq::<
            AgentEventView,
        >::empty()),
    ensures
        after_events(state, seq![start] + middle) == (
            arguments_added(state.block_start(start), index, parts),
            Seq::<AgentEventView>::empty(),
        ),
    decreases middle.len(),
{
    kinds_differ();
    let one = seq![start];
    let begun = state.block_start(start);
    if middle.len() == 0 {
        assert(one + middle =~= one);
    } else {
        let before = middle.drop_last();
        let less = parts.drop_last();
        assert forall|i: int| 0 <= i < before.len() implies adds_arguments(
            #[trigger] before[i],
            index,
            less[i],
        ) by {
            assert(before[i] == middle[i]);
        }
        arguments_come_in(state, start, before, less, index);
        assert((one + middle).drop_last() =~= one + before);
        assert(adds_arguments(middle[middle.len() - 1], index, parts[parts.len() - 1]));
        arguments_added_last(begun, index, parts);
        let none = Seq::<AgentEventView>::empty();
        assert(none + none =~= none);
    }
}

proof fn arguments_added_last(state: AnthropicStreamView, index: u64, parts: Seq<Seq<char>>)
    requires
        parts.len() > 0,
    ensures
        arguments_added(state, index, parts) == arguments_added(
            state,
            index,
            parts.drop_last(),
        ).more_arguments(index, parts.last()),
    decreases parts.len(),
{
    if parts.len() > 1 {
        let next = state.more_arguments(index, parts[0]);
        arguments_added_last(next, index, parts.drop_first());
        assert(parts.drop_first().drop_last() =~= parts.drop_last().drop_first());
        assert(parts.drop_last()[0] == parts[0]);
    } else {
        assert(parts.drop_last() =~= Seq::<Seq<char>>::empty());
        assert(parts.drop_first() =~= Seq::<Seq<char>>::empty());
        assert(arguments_added(state.more_arguments(index, parts[0]), index, parts.drop_first())
            == state.more_arguments(index, parts[0]));
    }
}

/// A model of Anthropic's is asked by its name, and in the place of any other the
/// default one; the key and the version go along with every request.
pub proof fn another_providers_model_is_replaced(
    model: Seq<char>,
    names: ModelNames,
    api_key: Seq<char>,
)
    ensures
        starts_with(model, names.prefix@) ==> model_name(model, names) == model,
        !starts_with(model, names.prefix@) ==> model_name(model, names) == names.default_model@,
        request_headers(api_key).contains(("x-api-key"@, api_key)),
        request_headers(api_key).contains(("anthropic-version"@, "2023-06-01"@)),
{
    assert(request_headers(api_key)[0] == ("x-api-key"@, api_key));
    assert(request_headers(api_key)[1] == ("anthropic-version"@, "2023-06-01"@));
}

} // verus!
