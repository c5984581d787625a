//! OpenAI's chat completions: the instructions stand among the messages, and
//! the calls in a streamed answer are complete when the stream is.
use vstd::prelude::*;
use vstd::string::*;

use crate::agent::tool_list::{tool_views, ToolSpec, ToolView};
use crate::agent::types::{
    content_views, event_views, message_views, AgentContent, AgentContentView, AgentEvent,
    AgentEventView, AgentMessage, AgentMessageView, AgentRole, StopReason,
};
use crate::http_status::is_status;
use crate::json::{
    array, distinct_keys_are_all_found, entry_views, json_parse, json_render, json_views,
    members_are_found_by_key, no_entries, no_values, number_value, object, object_of_one, object_of_three, object_of_two, opt_view, push_entry, push_value,
    read_json, render_json, text_value, Json, JsonNumberView, JsonView,
};
use crate::prompts::chat::{chat_views, ChatMessage, ChatView};
use crate::providers::{
    agent_temperature, agent_temperature_value, answer_value, broken_stream, call_input, failed,
    failed_output, finished, going_on, header_views, no_events, parse_input, provider_request,
    push_event, push_texts, read_answer, stream_error, text_result, texts,
    texts_are_the_pieces_of_text, ProviderRequest, StreamInput, StreamInputView, StreamOutput, StreamOutputView,
    AGENT_MAX_TOKENS, REQUEST_TIMEOUT_SECS,
};
use crate::providers::sse::{
    after_lines, append_piece, ends_stream, line_data_in, lines_do_not_depend_on_the_pieces,
    take_line_data, utf8_lossy,
};
use crate::text::{join, joined, same, views};

verus! {

pub const CHAT_COMPLETIONS_URL: &'static str = "https://api.openai.com/v1/chat/completions";

/// A message as OpenAI takes it.
pub open spec fn turn_value(m: ChatView) -> JsonView {
    JsonView::Object(
        seq![("role"@, JsonView::Text(m.role)), ("content"@, JsonView::Text(m.content))],
    )
}

/// The body of a request for an answer, in one piece or as a stream.
pub open spec fn request_body(
    model: Seq<char>,
    messages: Seq<ChatView>,
    temperature: JsonView,
    max_tokens: u32,
    stream: bool,
) -> JsonView {
    JsonView::Object(
        seq![
            ("model"@, JsonView::Text(model)),
            ("messages"@, JsonView::Array(messages.map_values(|m: ChatView| turn_value(m)))),
            ("temperature"@, temperature),
            ("max_tokens"@, JsonView::Number(JsonNumberView::Unsigned(max_tokens as u64))),
            ("stream"@, JsonView::Bool(stream)),
        ],
    )
}

fn turns(messages: &Vec<ChatMessage>) -> (r: Json)
    ensures
        r@ == JsonView::Array(chat_views(messages@).map_values(|m: ChatView| turn_value(m))),
{
    let mut items: Vec<Json> = Vec::new();
    let mut i: usize = 0;
    while i < messages.len()
        invariant
            i <= messages@.len(),
            items@.len() == i,
            forall|j: int| 0 <= j < i ==> (#[trigger] items@[j])@ == turn_value(messages@[j]@),
        decreases messages@.len() - i,
    {
        let role: Json = text_value(messages[i].role);
        let content: Json = text_value(messages[i].content.as_str());
        items.push(object_of_two("role", role, "content", content));
        i += 1;
    }
    proof {
        assert(json_views(items@) =~= chat_views(messages@).map_values(
            |m: ChatView| turn_value(m),
        ));
    }
    array(items)
}

/// The body of a request for an answer, in one piece or as a stream.
pub fn build_request_body(
    model: &str,
    messages: &Vec<ChatMessage>,
    temperature: Json,
    max_tokens: u32,
    stream: bool,
) -> (r: Json)
    ensures
        r@ == request_body(model@, chat_views(messages@), temperature@, max_tokens, stream),
{
    let mut entries: Vec<(String, Json)> = no_entries();
    push_entry(&mut entries, "model", text_value(model));
    push_entry(&mut entries, "messages", turns(messages));
    push_entry(&mut entries, "temperature", temperature);
    push_entry(&mut entries, "max_tokens", number_value(max_tokens as u64));
    push_entry(&mut entries, "stream", Json::Bool(stream));
    proof {
        assert(entry_views(entries@) =~= request_body(
            model@,
            chat_views(messages@),
            temperature@,
            max_tokens,
            stream,
        )->Object_0);
    }
    object(entries)
}

/// The headers of a request.
pub open spec fn request_headers(api_key: Seq<char>) -> Seq<(Seq<char>, Seq<char>)> {
    seq![("Authorization"@, "Bearer "@ + api_key)]
}

fn request_with(api_key: &str, body: Json) -> (r: ProviderRequest)
    ensures
        r@ == provider_request(CHAT_COMPLETIONS_URL@, request_headers(api_key@), body@),
{
    let mut bearer: String = "Bearer ".to_owned();
    bearer.append(api_key);
    let mut headers: Vec<(&'static str, String)> = Vec::new();
    headers.push(("Authorization", bearer));
    proof {
        assert(header_views(headers@) =~= request_headers(api_key@));
    }
    ProviderRequest {
        url: CHAT_COMPLETIONS_URL.to_owned(),
        headers,
        body,
        timeout_secs: REQUEST_TIMEOUT_SECS,
    }
}

/// The request for an answer, in one piece or as a stream.
pub fn chat_request(
    api_key: &str,
    model: &str,
    messages: &Vec<ChatMessage>,
    temperature: Json,
    max_tokens: u32,
    stream: bool,
) -> (r: ProviderRequest)
    ensures
        r@ == provider_request(
            CHAT_COMPLETIONS_URL@,
            request_headers(api_key@),
            request_body(model@, chat_views(messages@), temperature@, max_tokens, stream),
        ),
{
    request_with(api_key, build_request_body(model, messages, temperature, max_tokens, stream))
}

/// The first of the choices in an answer.
pub open spec fn first_choice(answer: JsonView) -> Option<JsonView> {
    match answer.array_field("choices"@) {
        Some(choices) => if choices.len() == 0 {
            None
        } else {
            Some(choices[0])
        },
        None => None,
    }
}

fn choice_in(answer: &Json) -> (r: Option<&Json>)
    ensures
        match r {
            Some(choice) => first_choice(answer@) == Some(choice@),
            None => first_choice(answer@) is None,
        },
{
    match answer.array_field("choices") {
        Some(choices) => {
            if choices.len() == 0 {
                None
            } else {
                Some(&choices[0])
            }
        },
        None => None,
    }
}

/// The text in a field of the first choice; empty where there is none.
pub open spec fn choice_text(answer: JsonView, field: Seq<char>) -> Seq<char> {
    match first_choice(answer) {
        Some(choice) => match choice.get(field) {
            Some(message) => message.text_or_empty("content"@),
            None => Seq::empty(),
        },
        None => Seq::empty(),
    }
}

fn text_of_choice(answer: &Json, field: &str) -> (r: String)
    ensures
        r@ == choice_text(answer@, field@),
{
    match choice_in(answer) {
        Some(choice) => match choice.get(field) {
            Some(message) => message.text_or_empty("content"),
            None => String::new(),
        },
        None => String::new(),
    }
}

/// The text of an answer.
pub fn extract_text(answer: &Json) -> (r: String)
    ensures
        r@ == choice_text(answer@, "message"@),
{
    text_of_choice(answer, "message")
}

/// Reads the answer to a request that was not for a stream.
pub fn read_generated(status: u16, body: &Result<String, String>) -> (r: Result<String, String>)
    requires
        is_status(status),
    ensures
        text_result(r) == (match answer_value("OpenAI"@, status, text_result(*body)) {
            Ok(answer) => Ok(choice_text(answer, "message"@)),
            Err(e) => Err(e),
        }),
{
    match read_answer("OpenAI", status, body) {
        Ok(answer) => Ok(extract_text(&answer)),
        Err(e) => Err(e),
    }
}

/// The text that a part of a streamed answer adds to it.
pub open spec fn delta_text(part: JsonView) -> Option<Seq<char>> {
    if choice_text(part, "delta"@).len() == 0 {
        None
    } else {
        Some(choice_text(part, "delta"@))
    }
}

/// The text that a part of a streamed answer adds to it, if it adds any.
pub fn text_delta(part: &Json) -> (r: Option<String>)
    ensures
        opt_view(r) == delta_text(part@),
{
    let text: String = text_of_choice(part, "delta");
    if text.as_str().is_empty() {
        None
    } else {
        Some(text)
    }
}

/// What each of some data adds to the answer; what is no JSON text adds
/// nothing.
pub open spec fn deltas(data: Seq<Seq<char>>) -> Seq<Option<Seq<char>>> {
    data.map_values(
        |d: Seq<char>|
            match json_parse(d) {
                Ok(part) => delta_text(part),
                Err(_) => None,
            },
    )
}

/// The views of some texts that may be missing.
pub open spec fn opt_views(items: Seq<Option<String>>) -> Seq<Option<Seq<char>>> {
    items.map_values(|t: Option<String>| opt_view(t))
}

/// Takes the complete lines off a buffer, up to the one that ends the stream,
/// and gives what each of them adds to the answer.
pub fn drain_sse_deltas(buffer: &mut String) -> (r: Vec<Option<String>>)
    ensures
        opt_views(r@) == deltas(line_data_in(old(buffer)@)),
        final(buffer)@ == after_lines(old(buffer)@),
{
    let data: Vec<String> = take_line_data(buffer);
    let mut out: Vec<Option<String>> = Vec::new();
    let mut i: usize = 0;
    while i < data.len()
        invariant
            i <= data@.len(),
            out@.len() == i,
            forall|j: int|
                0 <= j < i ==> opt_view(#[trigger] out@[j]) == deltas(views(data@))[j],
        decreases data@.len() - i,
    {
        proof {
            assert(views(data@)[i as int] == data@[i as int]@);
        }
        match read_json(data[i].as_str()) {
            Ok(part) => {
                out.push(text_delta(&part));
            },
            Err(_) => {
                out.push(None);
            },
        }
        i += 1;
    }
    proof {
        assert(opt_views(out@) =~= deltas(views(data@)));
    }
    out
}

/// A tool as OpenAI is told of it.
pub open spec fn tool_value(t: ToolView) -> JsonView {
    JsonView::Object(
        seq![
            ("type"@, JsonView::Text("function"@)),
            (
                "function"@,
                JsonView::Object(
                    seq![
                        ("name"@, JsonView::Text(t.name)),
                        ("description"@, JsonView::Text(t.description)),
                        ("parameters"@, t.parameters),
                    ],
                ),
            ),
        ],
    )
}

/// The tools as OpenAI is told of them.
pub fn tool_specs_to_openai(tools: &Vec<ToolSpec>) -> (r: Json)
    ensures
        r@ == JsonView::Array(tool_views(tools@).map_values(|t: ToolView| tool_value(t))),
{
    let mut items: Vec<Json> = Vec::new();
    let mut i: usize = 0;
    while i < tools.len()
        invariant
            i <= tools@.len(),
            items@.len() == i,
            forall|j: int| 0 <= j < i ==> (#[trigger] items@[j])@ == tool_value(tools@[j]@),
        decreases tools@.len() - i,
    {
        let name: Json = text_value(tools[i].name);
        let description: Json = text_value(tools[i].description);
        let parameters: Json = tools[i].parameters.copy();
        let function: Json = object_of_three(
            "name",
            name,
            "description",
            description,
            "parameters",
            parameters,
        );
        items.push(object_of_two("type", text_value("function"), "function", function));
        i += 1;
    }
    proof {
        assert(json_views(items@) =~= tool_views(tools@).map_values(
            |t: ToolView| tool_value(t),
        ));
    }
    array(items)
}

/// All pieces of a message are results of tools.
pub open spec fn only_results(content: Seq<AgentContentView>) -> bool {
    forall|i: int| 0 <= i < content.len() ==> (#[trigger] content[i]) is ToolResult
}

pub(crate) fn has_only_results(content: &Vec<AgentContent>) -> (r: bool)
    ensures
        r == only_results(content_views(content@)),
{
    let ghost all = content_views(content@);
    let mut i: usize = 0;
    while i < content.len()
        invariant
            i <= content@.len(),
            all == content_views(content@),
            forall|j: int| 0 <= j < i ==> (#[trigger] all[j]) is ToolResult,
        decreases content@.len() - i,
    {
        proof {
            assert(all[i as int] == content@[i as int]@);
        }
        match &content[i] {
            AgentContent::ToolResult { .. } => {},
            _ => {
                return false;
            },
        }
        i += 1;
    }
    true
}

/// An image that a tool gave, in a message of its own.
pub open spec fn image_message(media_type: Seq<char>, data_base64: Seq<char>) -> JsonView {
    JsonView::Object(
        seq![
            ("role"@, JsonView::Text("user"@)),
            (
                "content"@,
                JsonView::Array(
                    seq![
                        JsonView::Object(
                            seq![
                                ("type"@, JsonView::Text("text"@)),
                                (
                                    "text"@,
                                    JsonView::Text("(image result from the previous tool call)"@),
                                ),
                            ],
                        ),
                        JsonView::Object(
                            seq![
                                ("type"@, JsonView::Text("image_url"@)),
                                (
                                    "image_url"@,
                                    JsonView::Object(
                                        seq![
                                            (
                                                "url"@,
                                                JsonView::Text(
                                                    "data:"@ + media_type + ";base64,"@
                                                        + data_base64,
                                                ),
                                            ),
                                        ],
                                    ),
                                ),
                            ],
                        ),
                    ],
                ),
            ),
        ],
    )
}

fn image_turn(media_type: &str, data_base64: &str) -> (r: Json)
    ensures
        r@ == image_message(media_type@, data_base64@),
{
    let mut url: String = "data:".to_owned();
    url.append(media_type);
    url.append(";base64,");
    url.append(data_base64);
    let mut parts: Vec<Json> = no_values();
    push_value(
        &mut parts,
        object_of_two(
            "type",
            text_value("text"),
            "text",
            text_value("(image result from the previous tool call)"),
        ),
    );
    push_value(
        &mut parts,
        object_of_two(
            "type",
            text_value("image_url"),
            "image_url",
            object_of_one("url", Json::Text(url)),
        ),
    );
    proof {
        assert(json_views(parts@)
            =~= image_message(media_type@, data_base64@)->Object_0[1].1->Array_0);
    }
    object_of_two("role", text_value("user"), "content", array(parts))
}

/// A result of a tool: a message with its text, and one with its image, where
/// it has one.
pub open spec fn result_values(content: AgentContentView) -> Seq<JsonView> {
    match content {
        AgentContentView::ToolResult { tool_use_id, text, image, .. } => {
            let answer = JsonView::Object(
                seq![
                    ("role"@, JsonView::Text("tool"@)),
                    ("tool_call_id"@, JsonView::Text(tool_use_id)),
                    ("content"@, JsonView::Text(text)),
                ],
            );
            match image {
                Some(pair) => seq![answer, image_message(pair.0, pair.1)],
                None => seq![answer],
            }
        },
        _ => Seq::empty(),
    }
}

/// The results of tools, one after the other.
pub open spec fn results_values(content: Seq<AgentContentView>) -> Seq<JsonView>
    decreases content.len(),
{
    if content.len() == 0 {
        Seq::empty()
    } else {
        results_values(content.drop_last()) + result_values(content.last())
    }
}

fn push_result(content: &AgentContent, out: &mut Vec<Json>)
    ensures
        json_views(final(out)@) == json_views(old(out)@) + result_values(content@),
{
    let ghost before = json_views(out@);
    match content {
        AgentContent::ToolResult { tool_use_id, text, image, .. } => {
            push_value(
                out,
                object_of_three(
                    "role",
                    text_value("tool"),
                    "tool_call_id",
                    text_value(tool_use_id.as_str()),
                    "content",
                    text_value(text.as_str()),
                ),
            );
            match image {
                Some(pair) => {
                    push_value(out, image_turn(pair.0, pair.1.as_str()));
                },
                None => {},
            }
        },
        _ => {},
    }
    proof {
        assert(json_views(out@) =~= before + result_values(content@));
    }
}

fn push_results(content: &Vec<AgentContent>, out: &mut Vec<Json>)
    ensures
        json_views(final(out)@) == json_views(old(out)@) + results_values(content_views(content@)),
{
    let ghost all = content_views(content@);
    let ghost before = json_views(out@);
    let mut i: usize = 0;
    proof {
        assert(all.take(0) =~= Seq::empty());
        assert(before + Seq::<JsonView>::empty() =~= before);
    }
    while i < content.len()
        invariant
            i <= content@.len(),
            all == content_views(content@),
            json_views(out@) == before + results_values(all.take(i as int)),
        decreases content@.len() - i,
    {
        let ghost done = results_values(all.take(i as int));
        proof {
            assert(all.take(i as int + 1).drop_last() =~= all.take(i as int));
            assert(all.take(i as int + 1).last() == content@[i as int]@);
        }
        push_result(&content[i], out);
        proof {
            let more = result_values(content@[i as int]@);
            assert(before + done + more =~= before + (done + more));
        }
        i += 1;
    }
    proof {
        assert(all.take(i as int) =~= all);
    }
}

/// The texts of a message, a line each.
pub open spec fn only_text(content: Seq<AgentContentView>) -> Seq<char> {
    joined(texts(content), "\n"@)
}

/// The texts of a message, a line each.
pub fn text_only(content: &Vec<AgentContent>) -> (r: String)
    ensures
        r@ == only_text(content_views(content@)),
{
    let mut parts: Vec<String> = Vec::new();
    push_texts(content, &mut parts);
    proof {
        let all = texts(content_views(content@));
        assert(views(parts@) =~= all);
    }
    join(&parts, "\n")
}

/// A call as OpenAI takes it.
pub open spec fn call_value(id: Seq<char>, name: Seq<char>, input: JsonView) -> JsonView {
    JsonView::Object(
        seq![
            ("id"@, JsonView::Text(id)),
            ("type"@, JsonView::Text("function"@)),
            (
                "function"@,
                JsonView::Object(
                    seq![
                        ("name"@, JsonView::Text(name)),
                        ("arguments"@, JsonView::Text(json_render(input))),
                    ],
                ),
            ),
        ],
    )
}

/// The calls in a message.
pub open spec fn call_values(content: Seq<AgentContentView>) -> Seq<JsonView>
    decreases content.len(),
{
    if content.len() == 0 {
        Seq::empty()
    } else {
        match content.last() {
            AgentContentView::ToolUse { id, name, input } => call_values(content.drop_last()).push(
                call_value(id, name, input),
            ),
            _ => call_values(content.drop_last()),
        }
    }
}

fn calls(content: &Vec<AgentContent>) -> (r: Vec<Json>)
    ensures
        json_views(r@) == call_values(content_views(content@)),
{
    let ghost all = content_views(content@);
    let mut out: Vec<Json> = no_values();
    let mut i: usize = 0;
    proof {
        assert(all.take(0) =~= Seq::empty());
    }
    while i < content.len()
        invariant
            i <= content@.len(),
            all == content_views(content@),
            json_views(out@) == call_values(all.take(i as int)),
        decreases content@.len() - i,
    {
        proof {
            assert(all.take(i as int + 1).drop_last() =~= all.take(i as int));
            assert(all.take(i as int + 1).last() == content@[i as int]@);
        }
        match &content[i] {
            AgentContent::ToolUse { id, name, input } => {
                let arguments: String = render_json(input);
                let function: Json = object_of_two(
                    "name",
                    text_value(name.as_str()),
                    "arguments",
                    Json::Text(arguments),
                );
                push_value(
                    &mut out,
                    object_of_three(
                        "id",
                        text_value(id.as_str()),
                        "type",
                        text_value("function"),
                        "function",
                        function,
                    ),
                );
            },
            _ => {},
        }
        i += 1;
    }
    proof {
        assert(all.take(i as int) =~= all);
    }
    out
}

/// A message of the given role and text.
pub open spec fn plain_message(role: Seq<char>, text: Seq<char>) -> JsonView {
    JsonView::Object(seq![("role"@, JsonView::Text(role)), ("content"@, JsonView::Text(text))])
}

/// A message of the assistant: its text, if it has any, and its calls, if it
/// has any.
pub open spec fn assistant_value(content: Seq<AgentContentView>) -> JsonView {
    let entries = seq![
        ("role"@, JsonView::Text("assistant"@)),
        (
            "content"@,
            if only_text(content).len() == 0 {
                JsonView::Null
            } else {
                JsonView::Text(only_text(content))
            },
        ),
    ];
    JsonView::Object(
        if call_values(content).len() == 0 {
            entries
        } else {
            entries.push(("tool_calls"@, JsonView::Array(call_values(content))))
        },
    )
}

fn assistant_turn(content: &Vec<AgentContent>) -> (r: Json)
    ensures
        r@ == assistant_value(content_views(content@)),
{
    let ghost all = content_views(content@);
    let text: String = text_only(content);
    let value: Json = if text.as_str().is_empty() {
        Json::Null
    } else {
        Json::Text(text)
    };
    let ghost shown = value@;
    let calls: Vec<Json> = calls(content);
    let mut entries: Vec<(String, Json)> = no_entries();
    push_entry(&mut entries, "role", text_value("assistant"));
    push_entry(&mut entries, "content", value);
    proof {
        assert(entry_views(entries@) =~= seq![
            ("role"@, JsonView::Text("assistant"@)),
            ("content"@, shown),
        ]);
        assert(json_views(calls@).len() == calls@.len());
    }
    if calls.len() > 0 {
        push_entry(&mut entries, "tool_calls", array(calls));
    }
    object(entries)
}

/// A message of an agent as OpenAI takes it. The results of tools become a
/// message each.
pub open spec fn message_value(m: AgentMessageView) -> Seq<JsonView> {
    if m.role == AgentRole::User && only_results(m.content) {
        results_values(m.content)
    } else {
        seq![
            match m.role {
                AgentRole::System => plain_message("system"@, only_text(m.content)),
                AgentRole::User => plain_message("user"@, only_text(m.content)),
                AgentRole::Assistant => assistant_value(m.content),
            },
        ]
    }
}

/// The messages of an agent as OpenAI takes them.
pub open spec fn message_values(messages: Seq<AgentMessageView>) -> Seq<JsonView>
    decreases messages.len(),
{
    if messages.len() == 0 {
        Seq::empty()
    } else {
        message_values(messages.drop_last()) + message_value(messages.last())
    }
}

fn push_turn(m: &AgentMessage, out: &mut Vec<Json>)
    ensures
        json_views(final(out)@) == json_views(old(out)@) + message_value(m@),
{
    let ghost before = json_views(out@);
    if m.role == AgentRole::User && has_only_results(&m.content) {
        push_results(&m.content, out);
        return ;
    }
    let value: Json = match m.role {
        AgentRole::System => {
            let text: String = text_only(&m.content);
            object_of_two("role", text_value("system"), "content", Json::Text(text))
        },
        AgentRole::User => {
            let text: String = text_only(&m.content);
            object_of_two("role", text_value("user"), "content", Json::Text(text))
        },
        AgentRole::Assistant => assistant_turn(&m.content),
    };
    push_value(out, value);
    proof {
        assert(json_views(out@) =~= before + message_value(m@));
    }
}

/// The messages of an agent as OpenAI takes them.
pub fn messages_to_openai(messages: &Vec<AgentMessage>) -> (r: Vec<Json>)
    ensures
        json_views(r@) == message_values(message_views(messages@)),
{
    let ghost all = message_views(messages@);
    let mut out: Vec<Json> = no_values();
    let mut i: usize = 0;
    proof {
        assert(all.take(0) =~= Seq::empty());
    }
    while i < messages.len()
        invariant
            i <= messages@.len(),
            all == message_views(messages@),
            json_views(out@) == message_values(all.take(i as int)),
        decreases messages@.len() - i,
    {
        proof {
            assert(all.take(i as int + 1).drop_last() =~= all.take(i as int));
            assert(all.take(i as int + 1).last() == messages@[i as int]@);
        }
        push_turn(&messages[i], &mut out);
        i += 1;
    }
    proof {
        assert(all.take(i as int) =~= all);
    }
    out
}

/// The body of an agent's request.
pub open spec fn agent_body(
    model: Seq<char>,
    messages: Seq<AgentMessageView>,
    tools: Seq<ToolView>,
) -> JsonView {
    JsonView::Object(
        seq![
            ("model"@, JsonView::Text(model)),
            ("messages"@, JsonView::Array(message_values(messages))),
            ("temperature"@, agent_temperature()),
            ("max_tokens"@, JsonView::Number(JsonNumberView::Unsigned(AGENT_MAX_TOKENS))),
            ("stream"@, JsonView::Bool(true)),
            ("tools"@, JsonView::Array(tools.map_values(|t: ToolView| tool_value(t)))),
        ],
    )
}

/// An agent of OpenAI: the user's key, and the model that is asked.
#[derive(Debug)]
pub struct OpenAiAgent {
    pub api_key: String,
    pub model: String,
}

impl OpenAiAgent {
    /// An agent's request: its messages and the tools that the model may call.
    pub fn request(
        &self,
        messages: &Vec<AgentMessage>,
        tools: &Vec<ToolSpec>,
    ) -> (r: ProviderRequest)
        ensures
            r@ == provider_request(
                CHAT_COMPLETIONS_URL@,
                request_headers(self.api_key@),
                agent_body(self.model@, message_views(messages@), tool_views(tools@)),
            ),
    {
        let turns: Vec<Json> = messages_to_openai(messages);
        let mut entries: Vec<(String, Json)> = no_entries();
        push_entry(&mut entries, "model", text_value(self.model.as_str()));
        push_entry(&mut entries, "messages", array(turns));
        push_entry(&mut entries, "temperature", agent_temperature_value());
        push_entry(&mut entries, "max_tokens", number_value(AGENT_MAX_TOKENS));
        push_entry(&mut entries, "stream", Json::Bool(true));
        push_entry(&mut entries, "tools", tool_specs_to_openai(tools));
        proof {
            assert(entry_views(entries@) =~= agent_body(
                self.model@,
                message_views(messages@),
                tool_views(tools@),
            )->Object_0);
        }
        request_with(self.api_key.as_str(), object(entries))
    }
}

/// A tool call of which parts have come in, under its number.
#[derive(Debug)]
pub struct PendingToolCall {
    index: u64,
    id: String,
    name: String,
    arguments: String,
}

/// The view of a tool call of which parts have come in.
pub struct PendingView {
    pub index: u64,
    pub id: Seq<char>,
    pub name: Seq<char>,
    pub arguments: Seq<char>,
}

impl PendingToolCall {
    pub closed spec fn view(&self) -> PendingView {
        PendingView {
            index: self.index,
            id: self.id@,
            name: self.name@,
            arguments: self.arguments@,
        }
    }
}

/// The views of the calls of which parts have come in.
pub open spec fn pending_views(pending: Seq<PendingToolCall>) -> Seq<PendingView> {
    pending.map_values(|c: PendingToolCall| c@)
}

/// The position, at or after `i`, of the call with a number.
pub open spec fn call_at(pending: Seq<PendingView>, index: u64, i: int) -> Option<int>
    decreases pending.len() - i,
{
    if i < 0 || i >= pending.len() {
        None
    } else if pending[i].index == index {
        Some(i)
    } else {
        call_at(pending, index, i + 1)
    }
}

/// The number of the call that a part belongs to.
pub open spec fn part_index(part: JsonView) -> u64 {
    match part.u64_field("index"@) {
        Some(n) => n,
        None => 0,
    }
}

/// A call with a part added: its identifier is the last that came, its name
/// and its arguments are put together.
pub open spec fn with_part(call: PendingView, part: JsonView) -> PendingView {
    PendingView {
        index: call.index,
        id: match part.str_field("id"@) {
            Some(id) => id,
            None => call.id,
        },
        name: match part.get("function"@) {
            Some(f) => call.name + f.text_or_empty("name"@),
            None => call.name,
        },
        arguments: match part.get("function"@) {
            Some(f) => call.arguments + f.text_or_empty("arguments"@),
            None => call.arguments,
        },
    }
}

/// A call of which nothing has come in yet.
pub open spec fn no_call(index: u64) -> PendingView {
    PendingView { index, id: Seq::empty(), name: Seq::empty(), arguments: Seq::empty() }
}

/// The calls with a part added to the one that it belongs to.
pub open spec fn part_added(pending: Seq<PendingView>, part: JsonView) -> Seq<PendingView> {
    let index = part_index(part);
    match call_at(pending, index, 0) {
        Some(at) => pending.update(at, with_part(pending[at], part)),
        None => pending.push(with_part(no_call(index), part)),
    }
}

/// The calls with some parts added.
pub open spec fn parts_added(pending: Seq<PendingView>, parts: Seq<JsonView>) -> Seq<PendingView>
    decreases parts.len(),
{
    if parts.len() == 0 {
        pending
    } else {
        part_added(parts_added(pending, parts.drop_last()), parts.last())
    }
}

/// Why the model stopped, by OpenAI's word for it.
pub open spec fn stop_reason_of(reason: Seq<char>) -> StopReason {
    if reason == "tool_calls"@ {
        StopReason::ToolUse
    } else if reason == "length"@ {
        StopReason::MaxTokens
    } else {
        StopReason::EndTurn
    }
}

/// The reader of a streamed answer.
pub struct OpenAiStreamView {
    /// What has come of a line that is not complete yet.
    pub buffer: Seq<char>,
    pub pending: Seq<PendingView>,
    pub stop_reason: StopReason,
}

/// The calls that are passed on, in the order in which they began.
pub open spec fn ready_calls(pending: Seq<PendingView>) -> Seq<AgentEventView> {
    pending.map_values(
        |c: PendingView|
            AgentEventView::ToolCallReady {
                id: c.id,
                name: c.name,
                input: call_input(c.arguments),
            },
    )
}

impl OpenAiStreamView {
    /// Takes a part of the answer: text, which is passed on, and parts of
    /// calls.
    pub open spec fn take(self, part: JsonView) -> (OpenAiStreamView, Seq<AgentEventView>) {
        match first_choice(part) {
            Some(choice) => (
                OpenAiStreamView {
                    pending: match choice.get("delta"@) {
                        Some(delta) => match delta.array_field("tool_calls"@) {
                            Some(parts) => parts_added(self.pending, parts),
                            None => self.pending,
                        },
                        None => self.pending,
                    },
                    stop_reason: match choice.str_field("finish_reason"@) {
                        Some(reason) => stop_reason_of(reason),
                        None => self.stop_reason,
                    },
                    ..self
                },
                match delta_text(part) {
                    Some(t) => seq![AgentEventView::TextDelta(t)],
                    None => Seq::empty(),
                },
            ),
            None => (self, Seq::empty()),
        }
    }

    /// Takes the data of complete lines; what is no JSON text is passed over.
    pub open spec fn take_all(self, data: Seq<Seq<char>>) -> (
        OpenAiStreamView,
        Seq<AgentEventView>,
    )
        decreases data.len(),
    {
        if data.len() == 0 {
            (self, Seq::empty())
        } else {
            let before = self.take_all(data.drop_last());
            match json_parse(data.last()) {
                Ok(part) => {
                    let after = before.0.take(part);
                    (after.0, before.1 + after.1)
                },
                Err(_) => before,
            }
        }
    }

    /// Takes more of the stream.
    pub open spec fn read_text(self, text: Seq<char>) -> (OpenAiStreamView, Seq<AgentEventView>) {
        let all = self.buffer + text;
        OpenAiStreamView { buffer: after_lines(all), ..self }.take_all(line_data_in(all))
    }

    /// A step of reading the stream. A cancelled turn is at an end at once; at
    /// the end of the stream the calls are passed on.
    pub open spec fn step(self, input: StreamInputView) -> (OpenAiStreamView, StreamOutputView) {
        match input {
            StreamInputView::Piece { cancelled, read } => if cancelled {
                (self, failed("cancelled"@))
            } else {
                match read {
                    Ok(bytes) => {
                        let after = self.read_text(utf8_lossy(bytes));
                        (after.0, going_on(after.1))
                    },
                    Err(e) => (self, failed(broken_stream(e))),
                }
            },
            StreamInputView::End => (
                self,
                finished(
                    ready_calls(self.pending).push(
                        AgentEventView::Done { stop_reason: self.stop_reason },
                    ),
                ),
            ),
        }
    }
}

/// Reads a streamed answer.
#[derive(Debug)]
pub struct OpenAiStream {
    buffer: String,
    pending: Vec<PendingToolCall>,
    stop_reason: StopReason,
}

impl OpenAiStream {
    pub closed spec fn view(&self) -> OpenAiStreamView {
        OpenAiStreamView {
            buffer: self.buffer@,
            pending: pending_views(self.pending@),
            stop_reason: self.stop_reason,
        }
    }

    pub fn new() -> (r: OpenAiStream)
        ensures
            r@ == (OpenAiStreamView {
                buffer: Seq::empty(),
                pending: Seq::empty(),
                stop_reason: StopReason::EndTurn,
            }),
    {
        let r = OpenAiStream {
            buffer: String::new(),
            pending: Vec::new(),
            stop_reason: StopReason::EndTurn,
        };
        proof {
            assert(r@.pending =~= Seq::empty());
        }
        r
    }

    fn find_call(&self, index: u64) -> (r: Option<usize>)
        ensures
            match r {
                Some(at) => call_at(self@.pending, index, 0) == Some(at as int) && at
                    < self.pending@.len(),
                None => call_at(self@.pending, index, 0) is None,
            },
    {
        let mut i: usize = 0;
        while i < self.pending.len()
            invariant
                i <= self.pending@.len(),
                call_at(self@.pending, index, 0) == call_at(self@.pending, index, i as int),
            decreases self.pending@.len() - i,
        {
            proof {
                assert(self@.pending[i as int].index == self.pending@[i as int].index);
            }
            if self.pending[i].index == index {
                return Some(i);
            }
            i += 1;
        }
        None
    }

    fn add_part(&mut self, part: &Json)
        ensures
            final(self)@ == (OpenAiStreamView {
                pending: part_added(old(self)@.pending, part@),
                ..old(self)@
            }),
    {
        let ghost before = self@.pending;
        let index: u64 = match part.u64_field("index") {
            Some(n) => n,
            None => 0,
        };
        let found: Option<usize> = self.find_call(index);
        let (mut id, mut name, mut arguments) = match found {
            Some(at) => {
                proof {
                    assert(before[at as int] == self.pending@[at as int]@);
                }
                (
                    self.pending[at].id.clone(),
                    self.pending[at].name.clone(),
                    self.pending[at].arguments.clone(),
                )
            },
            None => (String::new(), String::new(), String::new()),
        };
        match part.str_field("id") {
            Some(given) => {
                id = given;
            },
            None => {},
        }
        match part.get("function") {
            Some(f) => {
                let more: String = f.text_or_empty("name");
                name.append(more.as_str());
                let rest: String = f.text_or_empty("arguments");
                arguments.append(rest.as_str());
            },
            None => {},
        }
        match found {
            Some(at) => {
                let number: u64 = self.pending[at].index;
                let call = PendingToolCall { index: number, id, name, arguments };
                let ghost shown = call@;
                self.pending.set(at, call);
                proof {
                    assert(shown == with_part(before[at as int], part@));
                    assert(self@.pending =~= before.update(at as int, shown));
                }
            },
            None => {
                let call = PendingToolCall { index, id, name, arguments };
                let ghost shown = call@;
                self.pending.push(call);
                proof {
                    assert(shown == with_part(no_call(index), part@));
                    assert(self@.pending =~= before.push(shown));
                }
            },
        }
    }

    fn add_parts(&mut self, parts: &Vec<Json>)
        ensures
            final(self)@ == (OpenAiStreamView {
                pending: parts_added(old(self)@.pending, json_views(parts@)),
                ..old(self)@
            }),
    {
        let ghost all = json_views(parts@);
        let ghost start = self@;
        let mut i: usize = 0;
        proof {
            assert(all.take(0) =~= Seq::empty());
        }
        while i < parts.len()
            invariant
                i <= parts@.len(),
                all == json_views(parts@),
                self@ == (OpenAiStreamView {
                    pending: parts_added(start.pending, all.take(i as int)),
                    ..start
                }),
            decreases parts@.len() - i,
        {
            proof {
                assert(all.take(i as int + 1).drop_last() =~= all.take(i as int));
                assert(all.take(i as int + 1).last() == parts@[i as int]@);
            }
            self.add_part(&parts[i]);
            i += 1;
        }
        proof {
            assert(all.take(i as int) =~= all);
        }
    }

    /// Takes a part of the answer.
    pub fn take(&mut self, part: &Json) -> (r: Vec<AgentEvent>)
        ensures
            (final(self)@, event_views(r@)) == old(self)@.take(part@),
    {
        let mut events: Vec<AgentEvent> = no_events();
        match choice_in(part) {
            Some(choice) => {
                match text_delta(part) {
                    Some(t) => {
                        push_event(&mut events, AgentEvent::TextDelta(t));
                    },
                    None => {},
                }
                match choice.get("delta") {
                    Some(delta) => match delta.array_field("tool_calls") {
                        Some(parts) => {
                            self.add_parts(parts);
                        },
                        None => {},
                    },
                    None => {},
                }
                match choice.str_field("finish_reason") {
                    Some(reason) => {
                        self.stop_reason = if same(reason.as_str(), "tool_calls") {
                            StopReason::ToolUse
                        } else if same(reason.as_str(), "length") {
                            StopReason::MaxTokens
                        } else {
                            StopReason::EndTurn
                        };
                    },
                    None => {},
                }
            },
            None => {},
        }
        events
    }

    fn take_all(&mut self, data: &Vec<String>) -> (r: Vec<AgentEvent>)
        ensures
            (final(self)@, event_views(r@)) == old(self)@.take_all(views(data@)),
    {
        let ghost all = views(data@);
        let mut events: Vec<AgentEvent> = no_events();
        let mut i: usize = 0;
        proof {
            assert(all.take(0) =~= Seq::empty());
        }
        while i < data.len()
            invariant
                i <= data@.len(),
                all == views(data@),
                (self@, event_views(events@)) == old(self)@.take_all(all.take(i as int)),
            decreases data@.len() - i,
        {
            let ghost before = event_views(events@);
            proof {
                assert(all.take(i as int + 1).drop_last() =~= all.take(i as int));
                assert(all.take(i as int + 1).last() == data@[i as int]@);
            }
            match read_json(data[i].as_str()) {
                Ok(part) => {
                    let mut more: Vec<AgentEvent> = self.take(&part);
                    let ghost added = event_views(more@);
                    events.append(&mut more);
                    proof {
                        assert(event_views(events@) =~= before + added);
                    }
                },
                Err(_) => {},
            }
            i += 1;
        }
        proof {
            assert(all.take(i as int) =~= all);
        }
        events
    }

    fn ready(&self) -> (r: Vec<AgentEvent>)
        ensures
            event_views(r@) == ready_calls(self@.pending),
    {
        let mut events: Vec<AgentEvent> = Vec::new();
        let mut i: usize = 0;
        while i < self.pending.len()
            invariant
                i <= self.pending@.len(),
                events@.len() == i,
                forall|j: int|
                    0 <= j < i ==> (#[trigger] events@[j])@ == ready_calls(self@.pending)[j],
            decreases self.pending@.len() - i,
        {
            let call: &PendingToolCall = &self.pending[i];
            proof {
                assert(self@.pending[i as int] == call@);
            }
            let input: Json = parse_input(call.arguments.as_str());
            events.push(
                AgentEvent::ToolCallReady { id: call.id.clone(), name: call.name.clone(), input },
            );
            i += 1;
        }
        proof {
            assert(event_views(events@) =~= ready_calls(self@.pending));
        }
        events
    }

    /// A step of reading the stream.
    pub fn step(&mut self, input: &StreamInput) -> (r: StreamOutput)
        ensures
            (final(self)@, r@) == old(self)@.step(input@),
    {
        match input {
            StreamInput::Piece { cancelled, read } => {
                if *cancelled {
                    return failed_output("cancelled".to_owned());
                }
                match read {
                    Ok(bytes) => {
                        append_piece(&mut self.buffer, bytes.as_slice());
                        let data: Vec<String> = take_line_data(&mut self.buffer);
                        let events: Vec<AgentEvent> = self.take_all(&data);
                        StreamOutput { events, result: None }
                    },
                    Err(e) => failed_output(stream_error(e.as_str())),
                }
            },
            StreamInput::End => {
                let mut events: Vec<AgentEvent> = self.ready();
                push_event(&mut events, AgentEvent::Done { stop_reason: self.stop_reason });
                StreamOutput { events, result: Some(Ok(())) }
            },
        }
    }
}

proof fn taking_keeps_the_buffer(state: OpenAiStreamView, data: Seq<Seq<char>>)
    ensures
        state.take_all(data).0.buffer == state.buffer,
    decreases data.len(),
{
    if data.len() > 0 {
        taking_keeps_the_buffer(state, data.drop_last());
    }
}

proof fn taking_in_two_parts(
    state: OpenAiStreamView,
    a: Seq<Seq<char>>,
    b: Seq<Seq<char>>,
    buffer: Seq<char>,
)
    ensures
        ({
            let first = state.take_all(a);
            let second = OpenAiStreamView { buffer, ..first.0 }.take_all(b);
            OpenAiStreamView { buffer, ..state }.take_all(a + b) == (
                second.0,
                first.1 + second.1,
            )
        }),
    decreases b.len(), a.len(),
{
    let first = state.take_all(a);
    let between = OpenAiStreamView { buffer, ..first.0 };
    if b.len() > 0 {
        taking_in_two_parts(state, a, b.drop_last(), buffer);
        assert((a + b).drop_last() =~= a + b.drop_last());
        assert((a + b).last() == b.last());
        let second = between.take_all(b.drop_last());
        match json_parse(b.last()) {
            Ok(part) => {
                let third = second.0.take(part);
                assert(first.1 + second.1 + third.1 =~= first.1 + (second.1 + third.1));
            },
            Err(_) => {},
        }
    } else {
        assert(a + b =~= a);
        assert(first.1 + Seq::<AgentEventView>::empty() =~= first.1);
        if a.len() > 0 {
            let none = Seq::<Seq<char>>::empty();
            taking_in_two_parts(state, a.drop_last(), none, buffer);
            assert(a.drop_last() + none =~= a.drop_last());
            assert(none =~= b);
            let f = state.take_all(a.drop_last());
            assert(f.1 + Seq::<AgentEventView>::empty() =~= f.1);
        }
    }
}

/// Until the line that ends the stream, how a streamed answer is cut into
/// pieces makes no difference.
pub proof fn answers_do_not_depend_on_the_pieces(
    state: OpenAiStreamView,
    a: Seq<char>,
    b: Seq<char>,
)
    requires
        !ends_stream(state.buffer + a),
    ensures
        ({
            let first = state.read_text(a);
            let second = first.0.read_text(b);
            state.read_text(a + b) == (second.0, first.1 + second.1)
        }),
{
    let all = state.buffer + a;
    let kept = OpenAiStreamView { buffer: after_lines(all), ..state };
    assert(state.buffer + (a + b) =~= all + b);
    lines_do_not_depend_on_the_pieces(all, b);
    taking_keeps_the_buffer(kept, line_data_in(all));
    let rest = after_lines(all) + b;
    taking_in_two_parts(kept, line_data_in(all), line_data_in(rest), after_lines(rest));
}

/// A cancelled turn gives no more events, and an error in the place of a
/// result.
pub proof fn a_cancelled_stream_fails(state: OpenAiStreamView, read: Result<Seq<u8>, Seq<char>>)
    ensures
        state.step(StreamInputView::Piece { cancelled: true, read }).1 == failed("cancelled"@),
{
}

/// No two calls have the same number.
pub open spec fn numbers_differ(pending: Seq<PendingView>) -> bool {
    forall|i: int, j: int|
        0 <= i < j < pending.len() ==> (#[trigger] pending[i]).index != (#[trigger] pending[j]).index
}

proof fn call_at_finds(pending: Seq<PendingView>, index: u64, i: int)
    requires
        0 <= i,
    ensures
        match call_at(pending, index, i) {
            Some(at) => i <= at < pending.len() && pending[at].index == index,
            None => forall|j: int| i <= j < pending.len() ==> (#[trigger] pending[j]).index != index,
        },
    decreases pending.len() - i,
{
    if i < pending.len() && pending[i].index != index {
        call_at_finds(pending, index, i + 1);
    }
}

/// Parts with one number make one call: a part adds to the call with its
/// number, or begins one where there is none, and changes no other.
pub proof fn a_part_concerns_one_call(pending: Seq<PendingView>, part: JsonView)
    requires
        numbers_differ(pending),
    ensures
        numbers_differ(part_added(pending, part)),
        forall|i: int|
            0 <= i < pending.len() && (#[trigger] pending[i]).index != part_index(part)
                ==> part_added(pending, part)[i] == pending[i],
        exists|i: int|
            0 <= i < part_added(pending, part).len() && (#[trigger] part_added(
                pending,
                part,
            )[i]).index == part_index(part),
        pending.len() <= part_added(pending, part).len() <= pending.len() + 1,
{
    let index = part_index(part);
    call_at_finds(pending, index, 0);
    let after = part_added(pending, part);
    match call_at(pending, index, 0) {
        Some(at) => {
            assert(after[at].index == index);
        },
        None => {
            assert(after[pending.len() as int].index == index);
        },
    }
}

/// A conversation is sent as it is: every message stands, in order, among the
/// messages of the body, under its own role and with its own content; and the
/// model, the temperature, the limit and whether a stream is asked for are those
/// that were given.
pub proof fn a_conversation_is_sent_as_it_is(
    model: Seq<char>,
    messages: Seq<ChatView>,
    temperature: JsonView,
    max_tokens: u32,
    stream: bool,
)
    ensures
        ({
            let body = request_body(model, messages, temperature, max_tokens, stream);
            &&& match body.get("messages"@) {
                Some(JsonView::Array(sent)) => {
                    &&& sent.len() == messages.len()
                    &&& forall|i: int|
                        0 <= i < messages.len() ==> (#[trigger] sent[i]).get("role"@) == Some(
                            JsonView::Text(messages[i].role),
                        ) && sent[i].get("content"@) == Some(JsonView::Text(messages[i].content))
                },
                _ => false,
            }
            &&& body.get("model"@) == Some(JsonView::Text(model))
            &&& body.get("temperature"@) == Some(temperature)
            &&& body.get("max_tokens"@) == Some(
                JsonView::Number(JsonNumberView::Unsigned(max_tokens as u64)),
            )
            &&& body.get("stream"@) == Some(JsonView::Bool(stream))
        }),
{
    field_names_differ();
    let body = request_body(model, messages, temperature, max_tokens, stream);
    let entries = body->Object_0;
    assert(entries[0].0 == "model"@);
    assert(entries[1].0 == "messages"@);
    assert(entries[2].0 == "temperature"@);
    assert(entries[3].0 == "max_tokens"@);
    assert(entries[4].0 == "stream"@);
    assert(entries.len() == 5);
    distinct_keys_are_all_found(entries);
    assert(body.get("model"@) == Some(entries[0].1));
    assert(body.get("messages"@) == Some(entries[1].1));
    assert(body.get("temperature"@) == Some(entries[2].1));
    assert(body.get("max_tokens"@) == Some(entries[3].1));
    assert(body.get("stream"@) == Some(entries[4].1));
    let sent = messages.map_values(|m: ChatView| turn_value(m));
    assert forall|i: int| 0 <= i < messages.len() implies (#[trigger] sent[i]).get("role"@)
        == Some(JsonView::Text(messages[i].role)) && sent[i].get("content"@) == Some(
        JsonView::Text(messages[i].content),
    ) by {
        let two = sent[i]->Object_0;
        members_are_found_by_key(two, "role"@, 0);
        members_are_found_by_key(two, "content"@, 1);
    }
}

proof fn field_names_differ()
    ensures
        "role"@ != "content"@,
        "role"@ != "tool_calls"@,
        "content"@ != "tool_calls"@,
        "role"@ != "tool_call_id"@,
        "tool_call_id"@ != "content"@,
        "model"@ != "messages"@,
        "model"@ != "temperature"@,
        "model"@ != "max_tokens"@,
        "model"@ != "stream"@,
        "model"@ != "tools"@,
        "messages"@ != "temperature"@,
        "messages"@ != "max_tokens"@,
        "messages"@ != "stream"@,
        "messages"@ != "tools"@,
        "temperature"@ != "max_tokens"@,
        "temperature"@ != "stream"@,
        "temperature"@ != "tools"@,
        "max_tokens"@ != "stream"@,
        "max_tokens"@ != "tools"@,
        "stream"@ != "tools"@,
        "type"@ != "function"@,
        "name"@ != "description"@,
        "name"@ != "parameters"@,
        "description"@ != "parameters"@,
        "id"@ != "type"@,
        "id"@ != "function"@,
        "name"@ != "arguments"@,
        "type"@ != "text"@,
        "type"@ != "image_url"@,
{
    reveal_strlit("role");
    reveal_strlit("content");
    reveal_strlit("tool_calls");
    reveal_strlit("tool_call_id");
    reveal_strlit("model");
    reveal_strlit("messages");
    reveal_strlit("temperature");
    reveal_strlit("max_tokens");
    reveal_strlit("stream");
    reveal_strlit("tools");
    reveal_strlit("type");
    reveal_strlit("function");
    reveal_strlit("name");
    reveal_strlit("description");
    reveal_strlit("parameters");
    reveal_strlit("id");
    reveal_strlit("arguments");
    reveal_strlit("text");
    reveal_strlit("image_url");
    assert("role"@.len() == 4);
    assert("content"@.len() == 7);
    assert("tool_calls"@.len() == 10);
    assert("tool_call_id"@.len() == 12);
    assert("model"@.len() == 5);
    assert("messages"@.len() == 8);
    assert("temperature"@.len() == 11);
    assert("max_tokens"@.len() == 10);
    assert("stream"@.len() == 6);
    assert("tools"@.len() == 5);
    assert("type"@.len() == 4);
    assert("function"@.len() == 8);
    assert("name"@.len() == 4);
    assert("description"@.len() == 11);
    assert("parameters"@.len() == 10);
    assert("id"@.len() == 2);
    assert("arguments"@.len() == 9);
    assert("text"@.len() == 4);
    assert("image_url"@.len() == 9);
    assert("model"@[0] != "tools"@[0]);
    assert("type"@[1] != "text"@[1]);
}

/// A call is sent as it is: under its identifier and its name, with its input
/// written out.
pub open spec fn call_is_sent(
    sent: JsonView,
    id: Seq<char>,
    name: Seq<char>,
    input: JsonView,
) -> bool {
    &&& sent.get("id"@) == Some(JsonView::Text(id))
    &&& sent.get("type"@) == Some(JsonView::Text("function"@))
    &&& sent.get("function"@) matches Some(function) && function.get("name"@) == Some(
        JsonView::Text(name),
    ) && function.get("arguments"@) == Some(JsonView::Text(json_render(input)))
}

proof fn calls_are_sent(id: Seq<char>, name: Seq<char>, input: JsonView)
    ensures
        call_is_sent(call_value(id, name, input), id, name, input),
{
    field_names_differ();
    let whole = call_value(id, name, input);
    let entries = whole->Object_0;
    assert(entries[0].0 == "id"@);
    assert(entries[1].0 == "type"@);
    assert(entries[2].0 == "function"@);
    assert(entries.len() == 3);
    distinct_keys_are_all_found(entries);
    assert(whole.get("id"@) == Some(entries[0].1));
    assert(whole.get("type"@) == Some(entries[1].1));
    assert(whole.get("function"@) == Some(entries[2].1));
    let function = entries[2].1;
    let entries = function->Object_0;
    assert(entries[0].0 == "name"@);
    assert(entries[1].0 == "arguments"@);
    assert(entries.len() == 2);
    distinct_keys_are_all_found(entries);
    assert(function.get("name"@) == Some(entries[0].1));
    assert(function.get("arguments"@) == Some(entries[1].1));
}

/// What is said and asked for in a message: its texts and its calls, and
/// nothing else, in order.
proof fn calls_of_a_message(content: Seq<AgentContentView>)
    ensures
        ({
            let uses = content.filter(|c: AgentContentView| c is ToolUse);
            &&& call_values(content).len() == uses.len()
            &&& forall|i: int|
                0 <= i < uses.len() ==> call_is_sent(
                    #[trigger] call_values(content)[i],
                    uses[i]->ToolUse_id,
                    uses[i]->ToolUse_name,
                    uses[i]->ToolUse_input,
                )
        }),
    decreases content.len(),
{
    reveal(Seq::filter);
    let is_use = |c: AgentContentView| c is ToolUse;
    if content.len() > 0 {
        calls_of_a_message(content.drop_last());
        let before = content.drop_last().filter(is_use);
        let uses = content.filter(is_use);
        assert forall|i: int| 0 <= i < uses.len() implies call_is_sent(
            #[trigger] call_values(content)[i],
            uses[i]->ToolUse_id,
            uses[i]->ToolUse_name,
            uses[i]->ToolUse_input,
        ) by {
            if i < before.len() {
                assert(uses[i] == before[i]);
                assert(call_values(content)[i] == call_values(content.drop_last())[i]);
            } else {
                match content.last() {
                    AgentContentView::ToolUse { id, name, input } => {
                        calls_are_sent(id, name, input);
                    },
                    _ => {},
                }
            }
        }
    }
}

/// What the assistant said is sent as the assistant's: its texts, and its calls
/// in order, each under its identifier and its name and with its input.
pub proof fn what_the_assistant_said_is_sent(content: Seq<AgentContentView>)
    ensures
        ({
            let said = message_value(AgentMessageView { role: AgentRole::Assistant, content });
            let uses = content.filter(|c: AgentContentView| c is ToolUse);
            let spoken = content.filter(|c: AgentContentView| c is Text).map_values(
                |c: AgentContentView| c->Text_0,
            );
            &&& said.len() == 1
            &&& said[0].get("role"@) == Some(JsonView::Text("assistant"@))
            &&& joined(spoken, "\n"@).len() > 0 ==> said[0].get("content"@) == Some(
                JsonView::Text(joined(spoken, "\n"@)),
            )
            &&& joined(spoken, "\n"@).len() == 0 ==> said[0].get("content"@) == Some(
                JsonView::Null,
            )
            &&& uses.len() == 0 ==> said[0].get("tool_calls"@) is None
            &&& uses.len() > 0 ==> (match said[0].get("tool_calls"@) {
                Some(JsonView::Array(calls)) => {
                    &&& calls.len() == uses.len()
                    &&& forall|i: int|
                        0 <= i < uses.len() ==> call_is_sent(
                            #[trigger] calls[i],
                            uses[i]->ToolUse_id,
                            uses[i]->ToolUse_name,
                            uses[i]->ToolUse_input,
                        )
                },
                _ => false,
            })
        }),
{
    field_names_differ();
    texts_are_the_pieces_of_text(content);
    calls_of_a_message(content);
    let whole = assistant_value(content);
    let entries = whole->Object_0;
    assert(entries[0].0 == "role"@ && entries[1].0 == "content"@);
    if call_values(content).len() > 0 {
        assert(entries[2] == ("tool_calls"@, JsonView::Array(call_values(content))));
        assert(entries.len() == 3);
    } else {
        assert(entries.len() == 2);
    }
    distinct_keys_are_all_found(entries);
    assert(whole.get(entries[0].0) == Some(entries[0].1));
    assert(whole.get(entries[1].0) == Some(entries[1].1));
    if call_values(content).len() > 0 {
        assert(whole.get(entries[2].0) == Some(entries[2].1));
    } else {
        assert(whole.get("tool_calls"@) is None);
    }
    assert(message_value(AgentMessageView { role: AgentRole::Assistant, content }) == seq![whole]);
}

/// What the system and the user said is sent as theirs, all texts in one.
pub proof fn what_was_said_is_sent(role: AgentRole, content: Seq<AgentContentView>)
    requires
        role == AgentRole::System || (role == AgentRole::User && exists|i: int|
            0 <= i < content.len() && !((#[trigger] content[i]) is ToolResult)),
    ensures
        ({
            let sent = message_value(AgentMessageView { role, content });
            let spoken = content.filter(|c: AgentContentView| c is Text).map_values(
                |c: AgentContentView| c->Text_0,
            );
            &&& sent.len() == 1
            &&& sent[0].get("role"@) == Some(
                JsonView::Text(
                    if role == AgentRole::System {
                        "system"@
                    } else {
                        "user"@
                    },
                ),
            )
            &&& sent[0].get("content"@) == Some(JsonView::Text(joined(spoken, "\n"@)))
        }),
{
    field_names_differ();
    texts_are_the_pieces_of_text(content);
    let sent = message_value(AgentMessageView { role, content });
    let whole = sent[0];
    let entries = whole->Object_0;
    assert(entries[0].0 == "role"@);
    assert(entries[1].0 == "content"@);
    assert(entries.len() == 2);
    distinct_keys_are_all_found(entries);
    assert(whole.get("role"@) == Some(entries[0].1));
    assert(whole.get("content"@) == Some(entries[1].1));
}

/// The result of a call is sent under the identifier of the call, with its text,
/// and its picture, if there is one, follows it at once.
pub open spec fn result_is_sent(
    sent: Seq<JsonView>,
    tool_use_id: Seq<char>,
    text: Seq<char>,
    image: Option<(Seq<char>, Seq<char>)>,
) -> bool {
    &&& sent.len() == (if image is Some {
        2int
    } else {
        1int
    })
    &&& sent[0].get("role"@) == Some(JsonView::Text("tool"@))
    &&& sent[0].get("tool_call_id"@) == Some(JsonView::Text(tool_use_id))
    &&& sent[0].get("content"@) == Some(JsonView::Text(text))
    &&& image matches Some(pair) ==> sent[1].get("role"@) == Some(JsonView::Text("user"@)) && (
    match sent[1].get("content"@) {
        Some(JsonView::Array(pieces)) => pieces.len() == 2 && (match pieces[1].get("image_url"@) {
            Some(shown) => shown.get("url"@) == Some(
                JsonView::Text("data:"@ + pair.0 + ";base64,"@ + pair.1),
            ),
            None => false,
        }),
        _ => false,
    })
}

/// The results of calls are sent one after the other, each as it is.
pub proof fn results_are_sent(
    first: Seq<AgentContentView>,
    second: Seq<AgentContentView>,
    tool_use_id: Seq<char>,
    text: Seq<char>,
    image: Option<(Seq<char>, Seq<char>)>,
    is_error: bool,
)
    ensures
        only_results(first + second) ==> message_value(
            AgentMessageView { role: AgentRole::User, content: first + second },
        ) == message_value(AgentMessageView { role: AgentRole::User, content: first })
            + message_value(AgentMessageView { role: AgentRole::User, content: second }),
        result_is_sent(
            message_value(
                AgentMessageView {
                    role: AgentRole::User,
                    content: seq![
                        AgentContentView::ToolResult { tool_use_id, text, image, is_error },
                    ],
                },
            ),
            tool_use_id,
            text,
            image,
        ),
{
    field_names_differ();
    if only_results(first + second) {
        assert(only_results(first)) by {
            assert forall|i: int| 0 <= i < first.len() implies (#[trigger] first[i])
                is ToolResult by {
                assert((first + second)[i] == first[i]);
            }
        }
        assert(only_results(second)) by {
            assert forall|i: int| 0 <= i < second.len() implies (#[trigger] second[i])
                is ToolResult by {
                assert((first + second)[first.len() + i] == second[i]);
            }
        }
        results_go_on(first, second);
    }
    let result = AgentContentView::ToolResult { tool_use_id, text, image, is_error };
    let one = seq![result];
    assert(only_results(one));
    assert(one.drop_last() =~= Seq::<AgentContentView>::empty());
    assert(results_values(one.drop_last()) == Seq::<JsonView>::empty());
    assert(one.last() == result);
    assert(results_values(one) =~= result_values(result));
    let answer = result_values(result)[0];
    let entries = answer->Object_0;
    assert(entries[0].0 == "role"@);
    assert(entries[1].0 == "tool_call_id"@);
    assert(entries[2].0 == "content"@);
    assert(entries.len() == 3);
    distinct_keys_are_all_found(entries);
    assert(answer.get("role"@) == Some(entries[0].1));
    assert(answer.get("tool_call_id"@) == Some(entries[1].1));
    assert(answer.get("content"@) == Some(entries[2].1));
    match image {
        Some(pair) => {
            let shown = image_message(pair.0, pair.1);
            let two = shown->Object_0;
            members_are_found_by_key(two, "role"@, 0);
            members_are_found_by_key(two, "content"@, 1);
            let pieces = two[1].1->Array_0;
            let picture = pieces[1]->Object_0;
            members_are_found_by_key(picture, "image_url"@, 1);
            members_are_found_by_key(picture[1].1->Object_0, "url"@, 0);
        },
        None => {},
    }
}

proof fn results_go_on(first: Seq<AgentContentView>, second: Seq<AgentContentView>)
    ensures
        results_values(first + second) == results_values(first) + results_values(second),
    decreases second.len(),
{
    if second.len() == 0 {
        assert(first + second =~= first);
    } else {
        results_go_on(first, second.drop_last());
        assert((first + second).drop_last() =~= first + second.drop_last());
    }
    assert(results_values(first + second) =~= results_values(first) + results_values(second));
}

/// A conversation with an agent is sent message by message, in order, and every
/// tool is told of by its name, its description and what it takes.
pub proof fn an_agents_conversation_is_sent_in_order(
    model: Seq<char>,
    first: Seq<AgentMessageView>,
    second: Seq<AgentMessageView>,
    message: AgentMessageView,
    tools: Seq<ToolView>,
)
    ensures
        message_values(first + second) == message_values(first) + message_values(second),
        message_values(seq![message]) == message_value(message),
        agent_body(model, first, tools).get("messages"@) == Some(
            JsonView::Array(message_values(first)),
        ),
        agent_body(model, first, tools).get("model"@) == Some(JsonView::Text(model)),
        agent_body(model, first, tools).get("stream"@) == Some(JsonView::Bool(true)),
        match agent_body(model, first, tools).get("tools"@) {
            Some(JsonView::Array(told)) => {
                &&& told.len() == tools.len()
                &&& forall|i: int|
                    0 <= i < tools.len() ==> (match (#[trigger] told[i]).get("function"@) {
                        Some(f) => {
                            &&& told[i].get("type"@) == Some(JsonView::Text("function"@))
                            &&& f.get("name"@) == Some(JsonView::Text(tools[i].name))
                            &&& f.get("description"@) == Some(JsonView::Text(tools[i].description))
                            &&& f.get("parameters"@) == Some(tools[i].parameters)
                        },
                        None => false,
                    })
            },
            _ => false,
        },
    decreases second.len(),
{
    field_names_differ();
    let body = agent_body(model, first, tools);
    let entries = body->Object_0;
    assert(entries[0].0 == "model"@);
    assert(entries[1].0 == "messages"@);
    assert(entries[2].0 == "temperature"@);
    assert(entries[3].0 == "max_tokens"@);
    assert(entries[4].0 == "stream"@);
    assert(entries[5].0 == "tools"@);
    assert(entries.len() == 6);
    distinct_keys_are_all_found(entries);
    assert(body.get("model"@) == Some(entries[0].1));
    assert(body.get("messages"@) == Some(entries[1].1));
    assert(body.get("temperature"@) == Some(entries[2].1));
    assert(body.get("max_tokens"@) == Some(entries[3].1));
    assert(body.get("stream"@) == Some(entries[4].1));
    assert(body.get("tools"@) == Some(entries[5].1));
    let told = tools.map_values(|t: ToolView| tool_value(t));
    assert forall|i: int| 0 <= i < tools.len() implies (match (#[trigger] told[i]).get(
        "function"@,
    ) {
        Some(f) => {
            &&& told[i].get("type"@) == Some(JsonView::Text("function"@))
            &&& f.get("name"@) == Some(JsonView::Text(tools[i].name))
            &&& f.get("description"@) == Some(JsonView::Text(tools[i].description))
            &&& f.get("parameters"@) == Some(tools[i].parameters)
        },
        None => false,
    }) by {
        let two = told[i]->Object_0;
        members_are_found_by_key(two, "type"@, 0);
        members_are_found_by_key(two, "function"@, 1);
        let three = two[1].1->Object_0;
        members_are_found_by_key(three, "name"@, 0);
        members_are_found_by_key(three, "description"@, 1);
        members_are_found_by_key(three, "parameters"@, 2);
    }
    let one = seq![message];
    assert(one.drop_last() =~= Seq::<AgentMessageView>::empty());
    assert(message_values(one.drop_last()) == Seq::<JsonView>::empty());
    assert(one.last() == message);
    assert(message_values(one) =~= message_value(message));
    if second.len() == 0 {
        assert(first + second =~= first);
    } else {
        an_agents_conversation_is_sent_in_order(model, first, second.drop_last(), message, tools);
        assert((first + second).drop_last() =~= first + second.drop_last());
    }
    assert(message_values(first + second) =~= message_values(first) + message_values(second));
}

/// The text of an answer is the content of the message of its first choice, and
/// that of a part of a stream the content of its delta.
pub proof fn the_text_of_an_answer_is_its_first_choice(
    answer: JsonView,
    choices: Seq<JsonView>,
    message: JsonView,
    text: Seq<char>,
)
    requires
        answer.get("choices"@) == Some(JsonView::Array(choices)),
        choices.len() > 0,
        message.get("content"@) == Some(JsonView::Text(text)),
    ensures
        choices[0].get("message"@) == Some(message) ==> choice_text(answer, "message"@) == text,
        choices[0].get("delta"@) == Some(message) ==> delta_text(answer) == (if text.len() == 0 {
            None
        } else {
            Some(text)
        }),
{
}

/// A text in a stream is passed on as it is, at once; one that is empty is not.
pub proof fn a_text_is_passed_on(
    state: OpenAiStreamView,
    part: JsonView,
    choices: Seq<JsonView>,
    delta: JsonView,
    text: Seq<char>,
)
    requires
        part.get("choices"@) == Some(JsonView::Array(choices)),
        choices.len() > 0,
        choices[0].get("delta"@) == Some(delta),
        delta.get("content"@) == Some(JsonView::Text(text)),
    ensures
        text.len() > 0 ==> state.take(part).1 == seq![AgentEventView::TextDelta(text)],
        text.len() == 0 ==> state.take(part).1.len() == 0,
        delta.get("tool_calls"@) is None ==> state.take(part).0.pending == state.pending,
{
}

/// The reason that is told last is the reason with which the answer ends: tools,
/// the limit, or the end of the turn. The calls come before it.
pub proof fn the_reason_told_ends_the_answer(
    state: OpenAiStreamView,
    part: JsonView,
    choices: Seq<JsonView>,
    reason: Seq<char>,
)
    requires
        part.get("choices"@) == Some(JsonView::Array(choices)),
        choices.len() > 0,
        choices[0].get("finish_reason"@) == Some(JsonView::Text(reason)),
    ensures
        ({
            let end = state.take(part).0.step(StreamInputView::End).1;
            &&& end.result == Some(Ok::<(), Seq<char>>(()))
            &&& end.events.last() == (AgentEventView::Done {
                stop_reason: if reason == "tool_calls"@ {
                    StopReason::ToolUse
                } else if reason == "length"@ {
                    StopReason::MaxTokens
                } else {
                    StopReason::EndTurn
                },
            })
        }),
{
    reveal_strlit("tool_calls");
    reveal_strlit("length");
    assert("tool_calls"@.len() == 10);
    assert("length"@.len() == 6);
}

/// The number of the call that a part belongs to; the first one where none is
/// told.
pub open spec fn number_told(part: JsonView) -> u64 {
    match part.get("index"@) {
        Some(JsonView::Number(JsonNumberView::Unsigned(n))) => n,
        _ => 0,
    }
}

/// The text under a key of what a part says of its function.
pub open spec fn said_of_function(part: JsonView, key: Seq<char>) -> Seq<char> {
    match part.get("function"@) {
        Some(f) => match f.get(key) {
            Some(JsonView::Text(t)) => t,
            _ => Seq::empty(),
        },
        None => Seq::empty(),
    }
}

/// What the parts of the call with a number say under a key, one after the other.
pub open spec fn said_of_call(parts: Seq<JsonView>, number: u64, key: Seq<char>) -> Seq<char>
    decreases parts.len(),
{
    if parts.len() == 0 {
        Seq::empty()
    } else if number_told(parts.last()) == number {
        said_of_call(parts.drop_last(), number, key) + said_of_function(parts.last(), key)
    } else {
        said_of_call(parts.drop_last(), number, key)
    }
}

/// The identifier that the parts of the call with a number told last.
pub open spec fn id_told(parts: Seq<JsonView>, number: u64) -> Seq<char>
    decreases parts.len(),
{
    if parts.len() == 0 {
        Seq::empty()
    } else {
        match parts.last().get("id"@) {
            Some(JsonView::Text(id)) => if number_told(parts.last()) == number {
                id
            } else {
                id_told(parts.drop_last(), number)
            },
            _ => id_told(parts.drop_last(), number),
        }
    }
}

/// One of the calls has the number.
pub open spec fn is_begun(pending: Seq<PendingView>, number: u64) -> bool {
    exists|i: int| 0 <= i < pending.len() && (#[trigger] pending[i]).index == number
}

/// One of the parts tells the number.
pub open spec fn is_told(parts: Seq<JsonView>, number: u64) -> bool {
    exists|k: int| 0 <= k < parts.len() && number_told(#[trigger] parts[k]) == number
}

/// A call is what was said of it.
pub open spec fn is_as_told(call: PendingView, parts: Seq<JsonView>) -> bool {
    &&& call.id == id_told(parts, call.index)
    &&& call.name == said_of_call(parts, call.index, "name"@)
    &&& call.arguments == said_of_call(parts, call.index, "arguments"@)
}

/// Calls are put together from their parts, however these are mixed: there is
/// one call for each number that is told, with the identifier told for it, and
/// with its name and its arguments put together from its own parts in the order
/// in which they came. All of them are passed on at the end.
pub proof fn calls_are_put_together(parts: Seq<JsonView>)
    ensures
        ({
            let pending = parts_added(Seq::empty(), parts);
            &&& numbers_differ(pending)
            &&& forall|i: int| 0 <= i < pending.len() ==> is_as_told(#[trigger] pending[i], parts)
            &&& forall|number: u64| #[trigger]
                is_begun(pending, number) <==> is_told(parts, number)
        }),
    decreases parts.len(),
{
    if parts.len() > 0 {
        let before = parts.drop_last();
        let last = parts.last();
        calls_are_put_together(before);
        let had = parts_added(Seq::empty(), before);
        let pending = parts_added(Seq::empty(), parts);
        let number = number_told(last);
        assert(part_index(last) == number);
        a_part_concerns_one_call(had, last);
        call_at_finds(had, number, 0);
        if call_at(had, number, 0) is None {
            assert(!is_begun(had, number));
            nothing_was_said(before, number);
        }
        assert forall|i: int| 0 <= i < pending.len() implies is_as_told(
            #[trigger] pending[i],
            parts,
        ) by {
            a_call_goes_on(parts, had, i);
        }
        assert forall|n: u64| #[trigger] is_begun(pending, n) <==> is_told(parts, n) by {
            the_begun_are_told(parts, had, n);
        }
    } else {
        let none = Seq::<PendingView>::empty();
        assert forall|n: u64| #[trigger] is_begun(none, n) <==> is_told(parts, n) by {}
    }
}

proof fn a_call_goes_on(parts: Seq<JsonView>, had: Seq<PendingView>, i: int)
    requires
        parts.len() > 0,
        numbers_differ(had),
        forall|k: int| 0 <= k < had.len() ==> is_as_told(#[trigger] had[k], parts.drop_last()),
        call_at(had, number_told(parts.last()), 0) is None ==> is_as_told(
            no_call(number_told(parts.last())),
            parts.drop_last(),
        ),
        0 <= i < part_added(had, parts.last()).len(),
    ensures
        is_as_told(part_added(had, parts.last())[i], parts),
{
    let last = parts.last();
    let number = number_told(last);
    let pending = part_added(had, last);
    assert(part_index(last) == number);
    call_at_finds(had, number, 0);
    let call = pending[i];
    match call_at(had, number, 0) {
        Some(at) => {
            if i != at {
                assert(pending[i] == had[i]);
                assert(had[i].index != number);
            } else {
                assert(is_as_told(had[at], parts.drop_last()));
                assert(call.name =~= said_of_call(parts, number, "name"@));
                assert(call.arguments =~= said_of_call(parts, number, "arguments"@));
            }
        },
        None => {
            if i < had.len() {
                assert(pending[i] == had[i]);
                assert(had[i].index != number);
            } else {
                assert(call.name =~= said_of_call(parts, number, "name"@));
                assert(call.arguments =~= said_of_call(parts, number, "arguments"@));
            }
        },
    }
}

proof fn the_begun_are_told(parts: Seq<JsonView>, had: Seq<PendingView>, n: u64)
    requires
        parts.len() > 0,
        is_begun(had, n) <==> is_told(parts.drop_last(), n),
    ensures
        is_begun(part_added(had, parts.last()), n) <==> is_told(parts, n),
{
    let before = parts.drop_last();
    let last = parts.last();
    let number = number_told(last);
    let pending = part_added(had, last);
    assert(part_index(last) == number);
    call_at_finds(had, number, 0);
    if n == number {
        assert(number_told(parts[parts.len() - 1]) == number);
        match call_at(had, number, 0) {
            Some(at) => {
                assert(pending[at].index == number);
            },
            None => {
                assert(pending[had.len() as int].index == number);
            },
        }
    } else {
        if is_begun(pending, n) {
            let i = choose|i: int| 0 <= i < pending.len() && (#[trigger] pending[i]).index == n;
            assert(had[i].index == n);
            let k = choose|k: int| 0 <= k < before.len() && number_told(#[trigger] before[k]) == n;
            assert(number_told(parts[k]) == n);
        }
        if is_told(parts, n) {
            let k = choose|k: int| 0 <= k < parts.len() && number_told(#[trigger] parts[k]) == n;
            assert(number_told(before[k]) == n);
            let i = choose|i: int| 0 <= i < had.len() && (#[trigger] had[i]).index == n;
            assert(pending[i].index == n);
        }
    }
}

proof fn nothing_was_said(parts: Seq<JsonView>, number: u64)
    requires
        !is_told(parts, number),
    ensures
        id_told(parts, number) == Seq::<char>::empty(),
        said_of_call(parts, number, "name"@) == Seq::<char>::empty(),
        said_of_call(parts, number, "arguments"@) == Seq::<char>::empty(),
    decreases parts.len(),
{
    if parts.len() > 0 {
        let before = parts.drop_last();
        assert forall|k: int| 0 <= k < before.len() implies number_told(#[trigger] before[k])
            != number by {
            assert(number_told(parts[k]) != number);
        }
        nothing_was_said(before, number);
        assert(number_told(parts[parts.len() - 1]) != number);
    }
}

/// At the end every call that was begun is passed on, in the order in which they
/// began, with its identifier, its name and the input that its arguments say.
pub proof fn every_call_is_passed_on(state: OpenAiStreamView, i: int)
    requires
        0 <= i < state.pending.len(),
    ensures
        ({
            let end = state.step(StreamInputView::End).1;
            &&& end.events.len() == state.pending.len() + 1
            &&& end.events[i] == (AgentEventView::ToolCallReady {
                id: state.pending[i].id,
                name: state.pending[i].name,
                input: call_input(state.pending[i].arguments),
            })
        }),
{
}

/// The parts of calls in a stream are gathered as they come, in whatever number
/// of pieces.
pub proof fn parts_are_gathered(
    state: OpenAiStreamView,
    part: JsonView,
    choices: Seq<JsonView>,
    delta: JsonView,
    first: Seq<JsonView>,
    second: Seq<JsonView>,
)
    requires
        part.get("choices"@) == Some(JsonView::Array(choices)),
        choices.len() > 0,
        choices[0].get("delta"@) == Some(delta),
        delta.get("tool_calls"@) == Some(JsonView::Array(second)),
    ensures
        state.pending == parts_added(Seq::empty(), first) ==> state.take(part).0.pending
            == parts_added(Seq::empty(), first + second),
{
    parts_added_go_on(first, second);
}

proof fn parts_added_go_on(first: Seq<JsonView>, second: Seq<JsonView>)
    ensures
        parts_added(parts_added(Seq::empty(), first), second) == parts_added(
            Seq::empty(),
            first + second,
        ),
    decreases second.len(),
{
    if second.len() == 0 {
        assert(first + second =~= first);
    } else {
        parts_added_go_on(first, second.drop_last());
        assert((first + second).drop_last() =~= first + second.drop_last());
    }
}

} // verus!
