//! Gemini's generated contents: the instructions stand beside the contents, the
//! assistant is called the model, and calls have no identifiers of their own.
use vstd::prelude::*;
use vstd::string::*;

use crate::agent::tool_list::{tool_table, tool_views, ToolSpec, ToolView};
use crate::agent::types::{
    content_views, event_views, message_views, AgentContent, AgentContentView, AgentEvent,
    AgentEventView, AgentMessage, AgentMessageView, AgentRole, StopReason,
};
use crate::http_status::is_status;
use crate::json::{
    array, array_of_one, distinct_keys_are_all_found, entry, entry_is_first, entry_views,
    json_parse, json_views, members_are_found_by_key, no_entries, no_values, number_value, object, object_of_one, object_of_three, object_of_two, object_view,
    opt_view, push_entry, push_value, read_json, text_value, Json, JsonNumberView, JsonView,
};
use crate::prompts::chat::{chat_views, find_first, first_index, ChatMessage, ChatView};
use crate::providers::openai::{has_only_results, only_results};
use crate::providers::{
    agent_instructions, agent_instructions_are_parted_from_turns, agent_temperature,
    agent_temperature_value, agent_turns, answer_value, broken_stream, failed, failed_output,
    finished, going_on, header_views, instructions, instructions_are_parted_from_turns, no_events, provider_request, push_event, read_answer, stream_error, system_instructions,
    system_parts, system_texts, text_result, turns_of, ProviderRequest, StreamInput,
    StreamInputView, StreamOutput, StreamOutputView, AGENT_MAX_TOKENS, REQUEST_TIMEOUT_SECS,
};
use crate::providers::sse::{
    after_frames, append_piece, data_in, frames_do_not_depend_on_the_pieces, take_data, utf8_lossy,
};
use crate::text::{
    begins_with, decimal, decimal_text, from_chars, joined, same, starts_with, to_chars, views,
};

verus! {

/// The model in the place of one that is none of Gemini's.
pub const DEFAULT_MODEL: &'static str = "gemini-3.6-flash";

/// The model that is asked.
pub open spec fn model_name(model: Seq<char>) -> Seq<char> {
    if starts_with(model, "gemini-"@) {
        model
    } else {
        DEFAULT_MODEL@
    }
}

/// The model that is asked: the given one, if it is one of Gemini's.
pub fn resolve_model(model: &str) -> (r: &str)
    ensures
        r@ == model_name(model@),
{
    if begins_with(model, "gemini-") {
        model
    } else {
        DEFAULT_MODEL
    }
}

/// Some pieces under the role of the one who speaks.
pub open spec fn turn_of(role: Seq<char>, parts: Seq<JsonView>) -> JsonView {
    JsonView::Object(seq![("role"@, JsonView::Text(role)), ("parts"@, JsonView::Array(parts))])
}

/// A text as a piece.
pub open spec fn text_part(text: Seq<char>) -> JsonView {
    JsonView::Object(seq![("text"@, JsonView::Text(text))])
}

/// A message as Gemini takes it.
pub open spec fn turn_value(m: ChatView) -> JsonView {
    turn_of(
        if m.role == "assistant"@ {
            "model"@
        } else {
            "user"@
        },
        seq![text_part(m.content)],
    )
}

/// The messages as Gemini takes them.
pub open spec fn turn_values(messages: Seq<ChatView>) -> Seq<JsonView> {
    turns_of(messages).map_values(|m: ChatView| turn_value(m))
}

fn text_parts(text: &str) -> (r: Json)
    ensures
        r@ == JsonView::Array(seq![text_part(text@)]),
{
    array_of_one(object_of_one("text", text_value(text)))
}

/// Parts the instructions from the other messages.
pub fn split_system(messages: &Vec<ChatMessage>) -> (r: (Option<String>, Vec<Json>))
    ensures
        opt_view(r.0) == instructions(system_parts(chat_views(messages@))),
        json_views(r.1@) == turn_values(chat_views(messages@)),
{
    let ghost all = chat_views(messages@);
    let mut turns: Vec<Json> = no_values();
    let mut i: usize = 0;
    proof {
        assert(all.take(0) =~= Seq::empty());
        assert(turn_values(all.take(0)) =~= Seq::empty());
    }
    while i < messages.len()
        invariant
            i <= messages@.len(),
            all == chat_views(messages@),
            json_views(turns@) == turn_values(all.take(i as int)),
        decreases messages@.len() - i,
    {
        proof {
            assert(all.take(i as int + 1).drop_last() =~= all.take(i as int));
            assert(all.take(i as int + 1).last() == messages@[i as int]@);
        }
        if !same(messages[i].role, "system") {
            let ghost before = json_views(turns@);
            let role: Json = if same(messages[i].role, "assistant") {
                text_value("model")
            } else {
                text_value("user")
            };
            let parts: Json = text_parts(messages[i].content.as_str());
            push_value(&mut turns, object_of_two("role", role, "parts", parts));
            proof {
                assert(turn_values(all.take(i as int + 1)) =~= before.push(
                    turn_value(messages@[i as int]@),
                ));
            }
        }
        i += 1;
    }
    proof {
        assert(all.take(i as int) =~= all);
    }
    (system_instructions(messages), turns)
}

/// The least that the model may think before it answers: what it thinks counts
/// towards the length of its answer.
pub open spec fn minimal_thinking() -> JsonView {
    JsonView::Object(seq![("thinkingLevel"@, JsonView::Text("MINIMAL"@))])
}

/// How the contents are generated.
pub open spec fn config_entries(temperature: JsonView, max_tokens: u64) -> Seq<
    (Seq<char>, JsonView),
> {
    seq![
        ("temperature"@, temperature),
        ("maxOutputTokens"@, JsonView::Number(JsonNumberView::Unsigned(max_tokens))),
        ("thinkingConfig"@, minimal_thinking()),
    ]
}

fn config(temperature: Json, max_tokens: u64) -> (r: Vec<(String, Json)>)
    ensures
        entry_views(r@) == config_entries(temperature@, max_tokens),
{
    let mut entries: Vec<(String, Json)> = no_entries();
    push_entry(&mut entries, "temperature", temperature);
    push_entry(&mut entries, "maxOutputTokens", number_value(max_tokens));
    push_entry(
        &mut entries,
        "thinkingConfig",
        object_of_one("thinkingLevel", text_value("MINIMAL")),
    );
    proof {
        assert(entry_views(entries@) =~= config_entries(temperature@, max_tokens));
    }
    entries
}

/// Instructions as Gemini takes them.
pub open spec fn instruction_value(system: Seq<char>) -> JsonView {
    JsonView::Object(seq![("parts"@, JsonView::Array(seq![text_part(system)]))])
}

/// The body of a request, with the instructions still among how the contents
/// are generated.
pub open spec fn nested_body(
    messages: Seq<ChatView>,
    temperature: JsonView,
    max_tokens: u32,
) -> JsonView {
    let entries = config_entries(temperature, max_tokens as u64);
    JsonView::Object(
        seq![
            ("contents"@, JsonView::Array(turn_values(messages))),
            (
                "generationConfig"@,
                JsonView::Object(
                    match instructions(system_parts(messages)) {
                        Some(s) => entries.push(("systemInstruction"@, instruction_value(s))),
                        None => entries,
                    },
                ),
            ),
        ],
    )
}

/// The body of a request, with the instructions still among how the contents
/// are generated.
pub fn build_request_body(
    messages: &Vec<ChatMessage>,
    temperature: Json,
    max_tokens: u32,
) -> (r: Json)
    ensures
        r@ == nested_body(chat_views(messages@), temperature@, max_tokens),
{
    let (system, turns) = split_system(messages);
    let mut entries: Vec<(String, Json)> = config(temperature, max_tokens as u64);
    match system {
        Some(s) => {
            push_entry(
                &mut entries,
                "systemInstruction",
                object_of_one("parts", text_parts(s.as_str())),
            );
        },
        None => {},
    }
    let r: Json = object_of_two(
        "contents",
        array(turns),
        "generationConfig",
        object(entries),
    );
    proof {
        assert(r@->Object_0 =~= nested_body(
            chat_views(messages@),
            temperature@,
            max_tokens,
        )->Object_0);
    }
    r
}

/// The position, at or after `i`, of the entry with a key.
pub open spec fn key_at(entries: Seq<(Seq<char>, JsonView)>, key: Seq<char>, i: int) -> Option<int>
    decreases entries.len() - i,
{
    if i < 0 || i >= entries.len() {
        None
    } else if entries[i].0 == key {
        Some(i)
    } else {
        key_at(entries, key, i + 1)
    }
}

/// The entries with the given value under a key: in the place of another, or
/// at the end.
pub open spec fn with_entry(
    entries: Seq<(Seq<char>, JsonView)>,
    key: Seq<char>,
    value: JsonView,
) -> Seq<(Seq<char>, JsonView)> {
    match key_at(entries, key, 0) {
        Some(at) => entries.update(at, (key, value)),
        None => entries.push((key, value)),
    }
}

/// A body with the instructions, if they stand among how the contents are
/// generated, beside it instead.
pub open spec fn instructions_moved(body: JsonView) -> JsonView {
    match body {
        JsonView::Object(entries) => match key_at(entries, "generationConfig"@, 0) {
            Some(c) => match entries[c].1 {
                JsonView::Object(settings) => match key_at(settings, "systemInstruction"@, 0) {
                    Some(s) => JsonView::Object(
                        with_entry(
                            entries.update(
                                c,
                                (entries[c].0, JsonView::Object(settings.remove(s))),
                            ),
                            "systemInstruction"@,
                            settings[s].1,
                        ),
                    ),
                    None => body,
                },
                _ => body,
            },
            None => body,
        },
        _ => body,
    }
}

fn find_key(entries: &Vec<(String, Json)>, key: &str) -> (r: Option<usize>)
    ensures
        match r {
            Some(at) => key_at(entry_views(entries@), key@, 0) == Some(at as int) && at
                < entries@.len() && entries@[at as int].0@ == key@,
            None => key_at(entry_views(entries@), key@, 0) is None,
        },
{
    let ghost all = entry_views(entries@);
    let mut i: usize = 0;
    while i < entries.len()
        invariant
            i <= entries@.len(),
            all == entry_views(entries@),
            key_at(all, key@, 0) == key_at(all, key@, i as int),
        decreases entries@.len() - i,
    {
        proof {
            assert(all[i as int].0 == entries@[i as int].0@);
        }
        if same(entries[i].0.as_str(), key) {
            return Some(i);
        }
        i += 1;
    }
    None
}

fn set_entry(entries: &mut Vec<(String, Json)>, key: &str, value: Json)
    ensures
        entry_views(final(entries)@) == with_entry(entry_views(old(entries)@), key@, value@),
{
    let ghost before = entry_views(entries@);
    match find_key(entries, key) {
        Some(at) => {
            let ghost shown = (key@, value@);
            entries.set(at, (key.to_owned(), value));
            proof {
                assert(entry_views(entries@) =~= before.update(at as int, shown));
            }
        },
        None => {
            push_entry(entries, key, value);
        },
    }
}

/// Moves the instructions, if they stand among how the contents are generated,
/// beside it.
pub fn extract_generation_config(body: Json) -> (r: Json)
    ensures
        r@ == instructions_moved(body@),
{
    match body {
        Json::Object(entries) => {
            let ghost all = entry_views(entries@);
            let mut entries: Vec<(String, Json)> = entries;
            proof {
                object_view(entries);
            }
            let at: usize = match find_key(&entries, "generationConfig") {
                Some(at) => at,
                None => {
                    return Json::Object(entries);
                },
            };
            let moved: (Json, Json) = match &entries[at].1 {
                Json::Object(settings) => {
                    proof {
                        object_view(*settings);
                        assert(all[at as int].1 == JsonView::Object(entry_views(settings@)));
                    }
                    match find_key(settings, "systemInstruction") {
                        Some(s) => {
                            let instruction: Json = settings[s].1.copy();
                            let rest: Vec<(String, Json)> = without(settings, s);
                            (instruction, object(rest))
                        },
                        None => {
                            return Json::Object(entries);
                        },
                    }
                },
                _ => {
                    proof {
                        assert(!(entries@[at as int].1 is Object));
                        assert(all[at as int].1 == entries@[at as int].1@);
                    }
                    return Json::Object(entries);
                },
            };
            let key: String = entries[at].0.clone();
            let ghost shown = (key@, moved.1@);
            let ghost had = all;
            entries.set(at, (key, moved.1));
            proof {
                assert(entry_views(entries@) =~= had.update(at as int, shown));
            }
            set_entry(&mut entries, "systemInstruction", moved.0);
            object(entries)
        },
        _ => body,
    }
}

fn without(entries: &Vec<(String, Json)>, at: usize) -> (r: Vec<(String, Json)>)
    requires
        at < entries@.len(),
    ensures
        entry_views(r@) == entry_views(entries@).remove(at as int),
{
    let ghost all = entry_views(entries@);
    let mut out: Vec<(String, Json)> = no_entries();
    let mut i: usize = 0;
    proof {
        assert(all.take(0) =~= Seq::empty());
    }
    while i < entries.len()
        invariant
            i <= entries@.len(),
            at < entries@.len(),
            all == entry_views(entries@),
            entry_views(out@) == (if i <= at {
                all.take(i as int)
            } else {
                all.take(i as int).remove(at as int)
            }),
        decreases entries@.len() - i,
    {
        if i != at {
            push_entry(&mut out, entries[i].0.as_str(), entries[i].1.copy());
        }
        proof {
            assert(entry_views(out@) =~= (if i + 1 <= at {
                all.take(i as int + 1)
            } else {
                all.take(i as int + 1).remove(at as int)
            }));
        }
        i += 1;
    }
    proof {
        assert(all.take(i as int) =~= all);
    }
    out
}

/// The address of a model, for an answer in one piece or as a stream.
pub open spec fn model_url(model: Seq<char>, api_key: Seq<char>, stream: bool) -> Seq<char> {
    "https://generativelanguage.googleapis.com/v1beta/models/"@ + model_name(model) + (if stream {
        ":streamGenerateContent?alt=sse&key="@
    } else {
        ":generateContent?key="@
    }) + api_key
}

fn request_with(model: &str, api_key: &str, stream: bool, body: Json) -> (r: ProviderRequest)
    ensures
        r@ == provider_request(model_url(model@, api_key@, stream), Seq::empty(), body@),
{
    let mut url: String = "https://generativelanguage.googleapis.com/v1beta/models/".to_owned();
    url.append(resolve_model(model));
    if stream {
        url.append(":streamGenerateContent?alt=sse&key=");
    } else {
        url.append(":generateContent?key=");
    }
    url.append(api_key);
    let headers: Vec<(&'static str, String)> = Vec::new();
    proof {
        assert(header_views(headers@) =~= Seq::empty());
    }
    ProviderRequest { url, headers, body, timeout_secs: REQUEST_TIMEOUT_SECS }
}

/// The request for an answer, in one piece or as a stream.
pub fn chat_request(
    api_key: &str,
    model: &str,
    messages: &Vec<ChatMessage>,
    temperature: Json,
    max_tokens: u32,
    stream: bool,
) -> (r: ProviderRequest)
    ensures
        r@ == provider_request(
            model_url(model@, api_key@, stream),
            Seq::empty(),
            instructions_moved(nested_body(chat_views(messages@), temperature@, max_tokens)),
        ),
{
    let body: Json = build_request_body(messages, temperature, max_tokens);
    request_with(model, api_key, stream, extract_generation_config(body))
}

/// The first of the candidates in an answer.
pub open spec fn first_candidate(answer: JsonView) -> Option<JsonView> {
    match answer.array_field("candidates"@) {
        Some(candidates) => if candidates.len() == 0 {
            None
        } else {
            Some(candidates[0])
        },
        None => None,
    }
}

fn candidate_in(answer: &Json) -> (r: Option<&Json>)
    ensures
        match r {
            Some(c) => first_candidate(answer@) == Some(c@),
            None => first_candidate(answer@) is None,
        },
{
    match answer.array_field("candidates") {
        Some(candidates) => {
            if candidates.len() == 0 {
                None
            } else {
                Some(&candidates[0])
            }
        },
        None => None,
    }
}

/// The pieces of a candidate.
pub open spec fn candidate_parts(candidate: JsonView) -> Option<Seq<JsonView>> {
    match candidate.get("content"@) {
        Some(content) => content.array_field("parts"@),
        None => None,
    }
}

fn parts_in(candidate: &Json) -> (r: Option<&Vec<Json>>)
    ensures
        match r {
            Some(parts) => candidate_parts(candidate@) == Some(json_views(parts@)),
            None => candidate_parts(candidate@) is None,
        },
{
    match candidate.get("content") {
        Some(content) => content.array_field("parts"),
        None => None,
    }
}

/// The text of some pieces.
pub open spec fn parts_text(parts: Seq<JsonView>) -> Seq<char>
    decreases parts.len(),
{
    if parts.len() == 0 {
        Seq::empty()
    } else {
        parts_text(parts.drop_last()) + parts.last().text_or_empty("text"@)
    }
}

/// The text of an answer: that of the pieces of its first candidate.
pub open spec fn answer_text(answer: JsonView) -> Seq<char> {
    match first_candidate(answer) {
        Some(candidate) => match candidate_parts(candidate) {
            Some(parts) => parts_text(parts),
            None => Seq::empty(),
        },
        None => Seq::empty(),
    }
}

fn text_of_parts(parts: &Vec<Json>) -> (r: String)
    ensures
        r@ == parts_text(json_views(parts@)),
{
    let ghost all = json_views(parts@);
    let mut out: String = String::new();
    let mut i: usize = 0;
    proof {
        assert(all.take(0) =~= Seq::empty());
    }
    while i < parts.len()
        invariant
            i <= parts@.len(),
            all == json_views(parts@),
            out@ == parts_text(all.take(i as int)),
        decreases parts@.len() - i,
    {
        proof {
            assert(all.take(i as int + 1).drop_last() =~= all.take(i as int));
            assert(all.take(i as int + 1).last() == parts@[i as int]@);
        }
        let text: String = parts[i].text_or_empty("text");
        out.append(text.as_str());
        i += 1;
    }
    proof {
        assert(all.take(i as int) =~= all);
    }
    out
}

/// The text of an answer.
pub fn extract_text(answer: &Json) -> (r: String)
    ensures
        r@ == answer_text(answer@),
{
    match candidate_in(answer) {
        Some(candidate) => match parts_in(candidate) {
            Some(parts) => text_of_parts(parts),
            None => String::new(),
        },
        None => String::new(),
    }
}

/// Reads the answer to a request that was not for a stream.
pub fn read_generated(status: u16, body: &Result<String, String>) -> (r: Result<String, String>)
    requires
        is_status(status),
    ensures
        text_result(r) == (match answer_value("Gemini"@, status, text_result(*body)) {
            Ok(answer) => Ok(answer_text(answer)),
            Err(e) => Err(e),
        }),
{
    match read_answer("Gemini", status, body) {
        Ok(answer) => Ok(extract_text(&answer)),
        Err(e) => Err(e),
    }
}

/// The texts that some data add to the answer; what is no JSON text, or adds
/// none, is passed over.
pub open spec fn deltas(data: Seq<Seq<char>>) -> Seq<Seq<char>>
    decreases data.len(),
{
    if data.len() == 0 {
        Seq::empty()
    } else {
        let before = deltas(data.drop_last());
        match json_parse(data.last()) {
            Ok(answer) => if answer_text(answer).len() == 0 {
                before
            } else {
                before.push(answer_text(answer))
            },
            Err(_) => before,
        }
    }
}

/// Takes the complete frames off a buffer and gives the texts that they add to
/// the answer.
pub fn drain_text_deltas(buffer: &mut String) -> (r: Vec<String>)
    ensures
        views(r@) == deltas(data_in(old(buffer)@)),
        final(buffer)@ == after_frames(old(buffer)@),
{
    let data: Vec<String> = take_data(buffer);
    let ghost all = views(data@);
    let mut out: Vec<String> = Vec::new();
    let mut i: usize = 0;
    proof {
        assert(all.take(0) =~= Seq::empty());
        assert(views(out@) =~= Seq::empty());
    }
    while i < data.len()
        invariant
            i <= data@.len(),
            all == views(data@),
            views(out@) == deltas(all.take(i as int)),
        decreases data@.len() - i,
    {
        let ghost before = views(out@);
        proof {
            assert(all.take(i as int + 1).drop_last() =~= all.take(i as int));
            assert(all.take(i as int + 1).last() == data@[i as int]@);
        }
        match read_json(data[i].as_str()) {
            Ok(answer) => {
                let text: String = extract_text(&answer);
                if !text.as_str().is_empty() {
                    out.push(text);
                    proof {
                        assert(views(out@) =~= before.push(text@));
                    }
                }
            },
            Err(_) => {},
        }
        i += 1;
    }
    proof {
        assert(all.take(i as int) =~= all);
    }
    out
}

/// The identifier of a call: the tool's name and the call's position among the
/// calls of the answer.
pub open spec fn call_id(name: Seq<char>, position: nat) -> Seq<char> {
    name + "#"@ + decimal(position)
}

/// Makes an identifier for a call.
pub fn synthesize_id(name: &str, position: u64) -> (r: String)
    ensures
        r@ == call_id(name@, position as nat),
{
    let mut id: String = name.to_owned();
    id.append("#");
    let number: String = decimal_text(position);
    id.append(number.as_str());
    id
}

/// The name of the tool in the identifier of a call.
pub open spec fn named_in(id: Seq<char>) -> Seq<char> {
    match first_index(id, '#', 0) {
        Some(p) => id.take(p),
        None => id,
    }
}

/// The name of the tool in the identifier of a call: what stands before the
/// first `#`.
pub fn real_tool_name(id: &str) -> (r: String)
    ensures
        r@ == named_in(id@),
{
    let chars: Vec<char> = to_chars(id);
    match find_first(&chars, '#') {
        Some(p) => {
            proof {
                assert(chars@.subrange(0, p as int) =~= id@.take(p as int));
            }
            from_chars(&chars, 0, p)
        },
        None => id.to_owned(),
    }
}

/// A tool as Gemini is told of it.
pub open spec fn tool_value(t: ToolView) -> JsonView {
    JsonView::Object(
        seq![
            ("name"@, JsonView::Text(t.name)),
            ("description"@, JsonView::Text(t.description)),
            ("parameters"@, t.parameters),
        ],
    )
}

/// The tools as Gemini is told of them.
pub open spec fn tools_value(tools: Seq<ToolView>) -> JsonView {
    JsonView::Array(
        seq![
            JsonView::Object(
                seq![
                    (
                        "functionDeclarations"@,
                        JsonView::Array(tools.map_values(|t: ToolView| tool_value(t))),
                    ),
                ],
            ),
        ],
    )
}

/// The tools as Gemini is told of them.
pub fn tool_specs_to_gemini(tools: &Vec<ToolSpec>) -> (r: Json)
    ensures
        r@ == tools_value(tool_views(tools@)),
{
    let mut items: Vec<Json> = Vec::new();
    let mut i: usize = 0;
    while i < tools.len()
        invariant
            i <= tools@.len(),
            items@.len() == i,
            forall|j: int| 0 <= j < i ==> (#[trigger] items@[j])@ == tool_value(tools@[j]@),
        decreases tools@.len() - i,
    {
        let name: Json = text_value(tools[i].name);
        let description: Json = text_value(tools[i].description);
        let parameters: Json = tools[i].parameters.copy();
        items.push(
            object_of_three("name", name, "description", description, "parameters", parameters),
        );
        i += 1;
    }
    proof {
        assert(json_views(items@) =~= tool_views(tools@).map_values(
            |t: ToolView| tool_value(t),
        ));
    }
    array_of_one(object_of_one("functionDeclarations", array(items)))
}

/// An image as a piece.
pub open spec fn image_part(media_type: Seq<char>, data_base64: Seq<char>) -> JsonView {
    JsonView::Object(
        seq![
            (
                "inlineData"@,
                JsonView::Object(
                    seq![
                        ("mimeType"@, JsonView::Text(media_type)),
                        ("data"@, JsonView::Text(data_base64)),
                    ],
                ),
            ),
        ],
    )
}

fn image_piece(media_type: &str, data_base64: &str) -> (r: Json)
    ensures
        r@ == image_part(media_type@, data_base64@),
{
    object_of_one(
        "inlineData",
        object_of_two("mimeType", text_value(media_type), "data", text_value(data_base64)),
    )
}

/// A result of a tool: a piece with its text under the tool's name, and one
/// with its image, where it has one.
pub open spec fn result_parts(content: AgentContentView) -> Seq<JsonView> {
    match content {
        AgentContentView::ToolResult { tool_use_id, text, image, .. } => {
            let answer = JsonView::Object(
                seq![
                    (
                        "functionResponse"@,
                        JsonView::Object(
                            seq![
                                ("name"@, JsonView::Text(named_in(tool_use_id))),
                                (
                                    "response"@,
                                    JsonView::Object(seq![("result"@, JsonView::Text(text))]),
                                ),
                            ],
                        ),
                    ),
                ],
            );
            match image {
                Some(pair) => seq![answer, image_part(pair.0, pair.1)],
                None => seq![answer],
            }
        },
        _ => Seq::empty(),
    }
}

/// The results of tools, one after the other.
pub open spec fn results_parts(content: Seq<AgentContentView>) -> Seq<JsonView>
    decreases content.len(),
{
    if content.len() == 0 {
        Seq::empty()
    } else {
        results_parts(content.drop_last()) + result_parts(content.last())
    }
}

fn push_result(content: &AgentContent, out: &mut Vec<Json>)
    ensures
        json_views(final(out)@) == json_views(old(out)@) + result_parts(content@),
{
    let ghost before = json_views(out@);
    match content {
        AgentContent::ToolResult { tool_use_id, text, image, .. } => {
            let name: String = real_tool_name(tool_use_id.as_str());
            let response: Json = object_of_one("result", text_value(text.as_str()));
            push_value(
                out,
                object_of_one(
                    "functionResponse",
                    object_of_two("name", Json::Text(name), "response", response),
                ),
            );
            match image {
                Some(pair) => {
                    push_value(out, image_piece(pair.0, pair.1.as_str()));
                },
                None => {},
            }
        },
        _ => {},
    }
    proof {
        assert(json_views(out@) =~= before + result_parts(content@));
    }
}

fn results(content: &Vec<AgentContent>) -> (r: Vec<Json>)
    ensures
        json_views(r@) == results_parts(content_views(content@)),
{
    let ghost all = content_views(content@);
    let mut out: Vec<Json> = no_values();
    let mut i: usize = 0;
    proof {
        assert(all.take(0) =~= Seq::empty());
    }
    while i < content.len()
        invariant
            i <= content@.len(),
            all == content_views(content@),
            json_views(out@) == results_parts(all.take(i as int)),
        decreases content@.len() - i,
    {
        proof {
            assert(all.take(i as int + 1).drop_last() =~= all.take(i as int));
            assert(all.take(i as int + 1).last() == content@[i as int]@);
        }
        push_result(&content[i], &mut out);
        i += 1;
    }
    proof {
        assert(all.take(i as int) =~= all);
    }
    out
}

/// A piece of a message that does not hold results alone.
pub open spec fn part_value(content: AgentContentView) -> JsonView {
    match content {
        AgentContentView::Text(t) => text_part(t),
        AgentContentView::Image { media_type, data_base64 } => image_part(media_type, data_base64),
        AgentContentView::ToolUse { name, input, .. } => JsonView::Object(
            seq![
                (
                    "functionCall"@,
                    JsonView::Object(seq![("name"@, JsonView::Text(name)), ("args"@, input)]),
                ),
            ],
        ),
        AgentContentView::ToolResult { .. } => JsonView::Null,
    }
}

fn piece(content: &AgentContent) -> (r: Json)
    ensures
        r@ == part_value(content@),
{
    match content {
        AgentContent::Text(t) => object_of_one("text", text_value(t.as_str())),
        AgentContent::Image { media_type, data_base64 } => image_piece(
            media_type,
            data_base64.as_str(),
        ),
        AgentContent::ToolUse { name, input, .. } => object_of_one(
            "functionCall",
            object_of_two("name", text_value(name.as_str()), "args", input.copy()),
        ),
        AgentContent::ToolResult { .. } => Json::Null,
    }
}

fn pieces(content: &Vec<AgentContent>) -> (r: Vec<Json>)
    ensures
        json_views(r@) == content_views(content@).map_values(
            |c: AgentContentView| part_value(c),
        ),
{
    let mut items: Vec<Json> = Vec::new();
    let mut i: usize = 0;
    while i < content.len()
        invariant
            i <= content@.len(),
            items@.len() == i,
            forall|j: int| 0 <= j < i ==> (#[trigger] items@[j])@ == part_value(content@[j]@),
        decreases content@.len() - i,
    {
        items.push(piece(&content[i]));
        i += 1;
    }
    proof {
        assert(json_views(items@) =~= content_views(content@).map_values(
            |c: AgentContentView| part_value(c),
        ));
    }
    items
}

/// A message of an agent as Gemini takes it.
pub open spec fn message_value(m: AgentMessageView) -> JsonView {
    if m.role == AgentRole::User && only_results(m.content) {
        turn_of("user"@, results_parts(m.content))
    } else {
        turn_of(
            if m.role == AgentRole::Assistant {
                "model"@
            } else {
                "user"@
            },
            m.content.map_values(|c: AgentContentView| part_value(c)),
        )
    }
}

/// The messages of an agent as Gemini takes them.
pub open spec fn message_values(messages: Seq<AgentMessageView>) -> Seq<JsonView> {
    agent_turns(messages).map_values(|m: AgentMessageView| message_value(m))
}

fn turn(m: &AgentMessage) -> (r: Json)
    ensures
        r@ == message_value(m@),
{
    if m.role == AgentRole::User && has_only_results(&m.content) {
        return object_of_two("role", text_value("user"), "parts", array(results(&m.content)));
    }
    let role: Json = if m.role == AgentRole::Assistant {
        text_value("model")
    } else {
        text_value("user")
    };
    object_of_two("role", role, "parts", array(pieces(&m.content)))
}

/// Parts an agent's instructions from its other messages.
pub fn messages_to_gemini(messages: &Vec<AgentMessage>) -> (r: (Option<String>, Vec<Json>))
    ensures
        opt_view(r.0) == instructions(system_texts(message_views(messages@))),
        json_views(r.1@) == message_values(message_views(messages@)),
{
    let ghost all = message_views(messages@);
    let mut turns: Vec<Json> = no_values();
    let mut i: usize = 0;
    proof {
        assert(all.take(0) =~= Seq::empty());
        assert(message_values(all.take(0)) =~= Seq::empty());
    }
    while i < messages.len()
        invariant
            i <= messages@.len(),
            all == message_views(messages@),
            json_views(turns@) == message_values(all.take(i as int)),
        decreases messages@.len() - i,
    {
        proof {
            assert(all.take(i as int + 1).drop_last() =~= all.take(i as int));
            assert(all.take(i as int + 1).last() == messages@[i as int]@);
        }
        if messages[i].role != AgentRole::System {
            let ghost before = json_views(turns@);
            push_value(&mut turns, turn(&messages[i]));
            proof {
                assert(message_values(all.take(i as int + 1)) =~= before.push(
                    message_value(messages@[i as int]@),
                ));
            }
        }
        i += 1;
    }
    proof {
        assert(all.take(i as int) =~= all);
    }
    (agent_instructions(messages), turns)
}

/// The body of an agent's request.
pub open spec fn agent_body(messages: Seq<AgentMessageView>, tools: Seq<ToolView>) -> JsonView {
    let entries = seq![
        ("contents"@, JsonView::Array(message_values(messages))),
        (
            "generationConfig"@,
            JsonView::Object(config_entries(agent_temperature(), AGENT_MAX_TOKENS)),
        ),
        ("tools"@, tools_value(tools)),
    ];
    JsonView::Object(
        match instructions(system_texts(messages)) {
            Some(s) => entries.push(("systemInstruction"@, instruction_value(s))),
            None => entries,
        },
    )
}

/// An agent of Gemini: the user's key, and the model that is asked.
#[derive(Debug)]
pub struct GeminiAgent {
    pub api_key: String,
    pub model: String,
}

impl GeminiAgent {
    /// An agent's request: its messages and the tools that the model may call.
    pub fn request(
        &self,
        messages: &Vec<AgentMessage>,
        tools: &Vec<ToolSpec>,
    ) -> (r: ProviderRequest)
        ensures
            r@ == provider_request(
                model_url(self.model@, self.api_key@, true),
                Seq::empty(),
                agent_body(message_views(messages@), tool_views(tools@)),
            ),
    {
        let (system, turns) = messages_to_gemini(messages);
        let settings: Json = object(config(agent_temperature_value(), AGENT_MAX_TOKENS));
        let mut entries: Vec<(String, Json)> = no_entries();
        push_entry(&mut entries, "contents", array(turns));
        push_entry(&mut entries, "generationConfig", settings);
        push_entry(&mut entries, "tools", tool_specs_to_gemini(tools));
        proof {
            assert(entry_views(entries@) =~= seq![
                ("contents"@, JsonView::Array(message_values(message_views(messages@)))),
                (
                    "generationConfig"@,
                    JsonView::Object(config_entries(agent_temperature(), AGENT_MAX_TOKENS)),
                ),
                ("tools"@, tools_value(tool_views(tools@))),
            ]);
        }
        match system {
            Some(s) => {
                push_entry(
                    &mut entries,
                    "systemInstruction",
                    object_of_one("parts", text_parts(s.as_str())),
                );
            },
            None => {},
        }
        request_with(self.model.as_str(), self.api_key.as_str(), true, object(entries))
    }
}

/// The reader of a streamed answer.
pub struct GeminiStreamView {
    /// What has come of a frame that is not complete yet.
    pub buffer: Seq<char>,
    pub saw_tool_call: bool,
    pub finish_reason: Option<Seq<char>>,
    /// The position of the next call.
    pub position: u64,
}

/// The events in a piece: its text, and its call under an identifier of the
/// given position.
pub open spec fn part_events(part: JsonView, position: u64) -> Seq<AgentEventView> {
    let text = part.text_or_empty("text"@);
    let said = if text.len() == 0 {
        Seq::empty()
    } else {
        seq![AgentEventView::TextDelta(text)]
    };
    match part.get("functionCall"@) {
        Some(call) => {
            let name = call.text_or_empty("name"@);
            said.push(
                AgentEventView::ToolCallReady {
                    id: call_id(name, position as nat),
                    name,
                    input: match call.get("args"@) {
                        Some(args) => args,
                        None => JsonView::Object(Seq::empty()),
                    },
                },
            )
        },
        None => said,
    }
}

/// The position after a call.
pub open spec fn next_position(position: u64) -> u64 {
    if position == u64::MAX {
        0
    } else {
        (position + 1) as u64
    }
}

impl GeminiStreamView {
    /// Takes a piece of the answer.
    pub open spec fn take_part(self, part: JsonView) -> (GeminiStreamView, Seq<AgentEventView>) {
        (
            if part.get("functionCall"@) is Some {
                GeminiStreamView {
                    saw_tool_call: true,
                    position: next_position(self.position),
                    ..self
                }
            } else {
                self
            },
            part_events(part, self.position),
        )
    }

    /// Takes some pieces of the answer.
    pub open spec fn take_parts(self, parts: Seq<JsonView>) -> (
        GeminiStreamView,
        Seq<AgentEventView>,
    )
        decreases parts.len(),
    {
        if parts.len() == 0 {
            (self, Seq::empty())
        } else {
            let before = self.take_parts(parts.drop_last());
            let after = before.0.take_part(parts.last());
            (after.0, before.1 + after.1)
        }
    }

    /// Takes a part of the answer: of its first candidate.
    pub open spec fn take(self, answer: JsonView) -> (GeminiStreamView, Seq<AgentEventView>) {
        match first_candidate(answer) {
            Some(candidate) => {
                let told = match candidate.str_field("finishReason"@) {
                    Some(reason) => GeminiStreamView { finish_reason: Some(reason), ..self },
                    None => self,
                };
                match candidate_parts(candidate) {
                    Some(parts) => told.take_parts(parts),
                    None => (told, Seq::empty()),
                }
            },
            None => (self, Seq::empty()),
        }
    }

    /// Takes the data of complete frames; what is no JSON text is passed over.
    pub open spec fn take_all(self, data: Seq<Seq<char>>) -> (
        GeminiStreamView,
        Seq<AgentEventView>,
    )
        decreases data.len(),
    {
        if data.len() == 0 {
            (self, Seq::empty())
        } else {
            let before = self.take_all(data.drop_last());
            match json_parse(data.last()) {
                Ok(answer) => {
                    let after = before.0.take(answer);
                    (after.0, before.1 + after.1)
                },
                Err(_) => before,
            }
        }
    }

    /// Takes more of the stream.
    pub open spec fn read_text(self, text: Seq<char>) -> (GeminiStreamView, Seq<AgentEventView>) {
        let all = self.buffer + text;
        GeminiStreamView { buffer: after_frames(all), ..self }.take_all(data_in(all))
    }

    /// Why the model stopped: a call counts for more than what it said.
    pub open spec fn stop_reason(self) -> StopReason {
        if self.saw_tool_call {
            StopReason::ToolUse
        } else if self.finish_reason == Some("MAX_TOKENS"@) {
            StopReason::MaxTokens
        } else {
            StopReason::EndTurn
        }
    }

    /// A step of reading the stream. A cancelled turn is at an end at once.
    pub open spec fn step(self, input: StreamInputView) -> (GeminiStreamView, StreamOutputView) {
        match input {
            StreamInputView::Piece { cancelled, read } => if cancelled {
                (self, failed("cancelled"@))
            } else {
                match read {
                    Ok(bytes) => {
                        let after = self.read_text(utf8_lossy(bytes));
                        (after.0, going_on(after.1))
                    },
                    Err(e) => (self, failed(broken_stream(e))),
                }
            },
            StreamInputView::End => (
                self,
                finished(seq![AgentEventView::Done { stop_reason: self.stop_reason() }]),
            ),
        }
    }
}

/// Reads a streamed answer.
#[derive(Debug)]
pub struct GeminiStream {
    buffer: String,
    saw_tool_call: bool,
    finish_reason: Option<String>,
    position: u64,
}

impl GeminiStream {
    pub closed spec fn view(&self) -> GeminiStreamView {
        GeminiStreamView {
            buffer: self.buffer@,
            saw_tool_call: self.saw_tool_call,
            finish_reason: opt_view(self.finish_reason),
            position: self.position,
        }
    }

    pub fn new() -> (r: GeminiStream)
        ensures
            r@ == (GeminiStreamView {
                buffer: Seq::empty(),
                saw_tool_call: false,
                finish_reason: None,
                position: 0,
            }),
    {
        GeminiStream {
            buffer: String::new(),
            saw_tool_call: false,
            finish_reason: None,
            position: 0,
        }
    }

    fn take_part(&mut self, part: &Json) -> (r: Vec<AgentEvent>)
        ensures
            (final(self)@, event_views(r@)) == old(self)@.take_part(part@),
    {
        let mut events: Vec<AgentEvent> = no_events();
        let text: String = part.text_or_empty("text");
        if !text.as_str().is_empty() {
            push_event(&mut events, AgentEvent::TextDelta(text));
        }
        match part.get("functionCall") {
            Some(call) => {
                let name: String = call.text_or_empty("name");
                let input: Json = match call.get("args") {
                    Some(args) => args.copy(),
                    None => object(no_entries()),
                };
                let id: String = synthesize_id(name.as_str(), self.position);
                self.position = if self.position == u64::MAX {
                    0
                } else {
                    self.position + 1
                };
                self.saw_tool_call = true;
                push_event(&mut events, AgentEvent::ToolCallReady { id, name, input });
            },
            None => {},
        }
        proof {
            assert(event_views(events@) =~= part_events(part@, old(self)@.position));
        }
        events
    }

    fn take_parts(&mut self, parts: &Vec<Json>) -> (r: Vec<AgentEvent>)
        ensures
            (final(self)@, event_views(r@)) == old(self)@.take_parts(json_views(parts@)),
    {
        let ghost all = json_views(parts@);
        let mut events: Vec<AgentEvent> = no_events();
        let mut i: usize = 0;
        proof {
            assert(all.take(0) =~= Seq::empty());
        }
        while i < parts.len()
            invariant
                i <= parts@.len(),
                all == json_views(parts@),
                (self@, event_views(events@)) == old(self)@.take_parts(all.take(i as int)),
            decreases parts@.len() - i,
        {
            let ghost before = event_views(events@);
            proof {
                assert(all.take(i as int + 1).drop_last() =~= all.take(i as int));
                assert(all.take(i as int + 1).last() == parts@[i as int]@);
            }
            let mut more: Vec<AgentEvent> = self.take_part(&parts[i]);
            let ghost added = event_views(more@);
            events.append(&mut more);
            proof {
                assert(event_views(events@) =~= before + added);
            }
            i += 1;
        }
        proof {
            assert(all.take(i as int) =~= all);
        }
        events
    }

    /// Takes a part of the answer.
    pub fn take(&mut self, answer: &Json) -> (r: Vec<AgentEvent>)
        ensures
            (final(self)@, event_views(r@)) == old(self)@.take(answer@),
    {
        match candidate_in(answer) {
            Some(candidate) => {
                match candidate.str_field("finishReason") {
                    Some(reason) => {
                        self.finish_reason = Some(reason);
                    },
                    None => {},
                }
                match parts_in(candidate) {
                    Some(parts) => self.take_parts(parts),
                    None => no_events(),
                }
            },
            None => no_events(),
        }
    }

    fn take_all(&mut self, data: &Vec<String>) -> (r: Vec<AgentEvent>)
        ensures
            (final(self)@, event_views(r@)) == old(self)@.take_all(views(data@)),
    {
        let ghost all = views(data@);
        let mut events: Vec<AgentEvent> = no_events();
        let mut i: usize = 0;
        proof {
            assert(all.take(0) =~= Seq::empty());
        }
        while i < data.len()
            invariant
                i <= data@.len(),
                all == views(data@),
                (self@, event_views(events@)) == old(self)@.take_all(all.take(i as int)),
            decreases data@.len() - i,
        {
            let ghost before = event_views(events@);
            proof {
                assert(all.take(i as int + 1).drop_last() =~= all.take(i as int));
                assert(all.take(i as int + 1).last() == data@[i as int]@);
            }
            match read_json(data[i].as_str()) {
                Ok(answer) => {
                    let mut more: Vec<AgentEvent> = self.take(&answer);
                    let ghost added = event_views(more@);
                    events.append(&mut more);
                    proof {
                        assert(event_views(events@) =~= before + added);
                    }
                },
                Err(_) => {},
            }
            i += 1;
        }
        proof {
            assert(all.take(i as int) =~= all);
        }
        events
    }

    fn stop_reason(&self) -> (r: StopReason)
        ensures
            r == self@.stop_reason(),
    {
        if self.saw_tool_call {
            return StopReason::ToolUse;
        }
        match &self.finish_reason {
            Some(reason) => {
                if same(reason.as_str(), "MAX_TOKENS") {
                    StopReason::MaxTokens
                } else {
                    StopReason::EndTurn
                }
            },
            None => StopReason::EndTurn,
        }
    }

    /// A step of reading the stream.
    pub fn step(&mut self, input: &StreamInput) -> (r: StreamOutput)
        ensures
            (final(self)@, r@) == old(self)@.step(input@),
    {
        match input {
            StreamInput::Piece { cancelled, read } => {
                if *cancelled {
                    return failed_output("cancelled".to_owned());
                }
                match read {
                    Ok(bytes) => {
                        append_piece(&mut self.buffer, bytes.as_slice());
                        let data: Vec<String> = take_data(&mut self.buffer);
                        let events: Vec<AgentEvent> = self.take_all(&data);
                        StreamOutput { events, result: None }
                    },
                    Err(e) => failed_output(stream_error(e.as_str())),
                }
            },
            StreamInput::End => {
                let mut events: Vec<AgentEvent> = no_events();
                push_event(&mut events, AgentEvent::Done { stop_reason: self.stop_reason() });
                StreamOutput { events, result: Some(Ok(())) }
            },
        }
    }
}

proof fn taking_parts_keeps_the_buffer(state: GeminiStreamView, parts: Seq<JsonView>)
    ensures
        state.take_parts(parts).0.buffer == state.buffer,
    decreases parts.len(),
{
    if parts.len() > 0 {
        taking_parts_keeps_the_buffer(state, parts.drop_last());
    }
}

proof fn parts_ignore_the_buffer(state: GeminiStreamView, parts: Seq<JsonView>, buffer: Seq<char>)
    ensures
        ({
            let there = GeminiStreamView { buffer, ..state }.take_parts(parts);
            let here = state.take_parts(parts);
            there == (GeminiStreamView { buffer, ..here.0 }, here.1)
        }),
    decreases parts.len(),
{
    if parts.len() > 0 {
        parts_ignore_the_buffer(state, parts.drop_last(), buffer);
    }
}

proof fn taking_ignores_the_buffer(state: GeminiStreamView, answer: JsonView, buffer: Seq<char>)
    ensures
        ({
            let there = GeminiStreamView { buffer, ..state }.take(answer);
            let here = state.take(answer);
            there == (GeminiStreamView { buffer, ..here.0 }, here.1)
        }),
        state.take(answer).0.buffer == state.buffer,
{
    match first_candidate(answer) {
        Some(candidate) => {
            let told = match candidate.str_field("finishReason"@) {
                Some(reason) => GeminiStreamView { finish_reason: Some(reason), ..state },
                None => state,
            };
            match candidate_parts(candidate) {
                Some(parts) => {
                    parts_ignore_the_buffer(told, parts, buffer);
                    taking_parts_keeps_the_buffer(told, parts);
                },
                None => {},
            }
        },
        None => {},
    }
}

proof fn taking_keeps_the_buffer(state: GeminiStreamView, data: Seq<Seq<char>>)
    ensures
        state.take_all(data).0.buffer == state.buffer,
    decreases data.len(),
{
    if data.len() > 0 {
        taking_keeps_the_buffer(state, data.drop_last());
        match json_parse(data.last()) {
            Ok(answer) => {
                taking_ignores_the_buffer(
                    state.take_all(data.drop_last()).0,
                    answer,
                    state.buffer,
                );
            },
            Err(_) => {},
        }
    }
}

proof fn taking_in_two_parts(
    state: GeminiStreamView,
    a: Seq<Seq<char>>,
    b: Seq<Seq<char>>,
    buffer: Seq<char>,
)
    ensures
        ({
            let first = state.take_all(a);
            let second = GeminiStreamView { buffer, ..first.0 }.take_all(b);
            GeminiStreamView { buffer, ..state }.take_all(a + b) == (
                second.0,
                first.1 + second.1,
            )
        }),
    decreases b.len(), a.len(),
{
    let first = state.take_all(a);
    let between = GeminiStreamView { buffer, ..first.0 };
    if b.len() > 0 {
        taking_in_two_parts(state, a, b.drop_last(), buffer);
        assert((a + b).drop_last() =~= a + b.drop_last());
        assert((a + b).last() == b.last());
        let second = between.take_all(b.drop_last());
        match json_parse(b.last()) {
            Ok(answer) => {
                let third = second.0.take(answer);
                assert(first.1 + second.1 + third.1 =~= first.1 + (second.1 + third.1));
            },
            Err(_) => {},
        }
    } else {
        assert(a + b =~= a);
        assert(first.1 + Seq::<AgentEventView>::empty() =~= first.1);
        if a.len() > 0 {
            let none = Seq::<Seq<char>>::empty();
            taking_in_two_parts(state, a.drop_last(), none, buffer);
            assert(a.drop_last() + none =~= a.drop_last());
            assert(none =~= b);
            let f = state.take_all(a.drop_last());
            assert(f.1 + Seq::<AgentEventView>::empty() =~= f.1);
            match json_parse(a.last()) {
                Ok(answer) => {
                    taking_ignores_the_buffer(f.0, answer, buffer);
                },
                Err(_) => {},
            }
        }
    }
}

/// How a streamed answer is cut into pieces makes no difference: reading two
/// pieces one after the other gives the events that reading both at once
/// gives, and leads to the same state.
pub proof fn answers_do_not_depend_on_the_pieces(
    state: GeminiStreamView,
    a: Seq<char>,
    b: Seq<char>,
)
    ensures
        ({
            let first = state.read_text(a);
            let second = first.0.read_text(b);
            state.read_text(a + b) == (second.0, first.1 + second.1)
        }),
{
    let all = state.buffer + a;
    let kept = GeminiStreamView { buffer: after_frames(all), ..state };
    assert(state.buffer + (a + b) =~= all + b);
    frames_do_not_depend_on_the_pieces(all, b);
    taking_keeps_the_buffer(kept, data_in(all));
    let rest = after_frames(all) + b;
    taking_in_two_parts(kept, data_in(all), data_in(rest), after_frames(rest));
}

/// A cancelled turn gives no more events, and an error in the place of a
/// result.
pub proof fn a_cancelled_stream_fails(state: GeminiStreamView, read: Result<Seq<u8>, Seq<char>>)
    ensures
        state.step(StreamInputView::Piece { cancelled: true, read }).1 == failed("cancelled"@),
{
}

proof fn no_index_before(s: Seq<char>, c: char, i: int, p: int)
    requires
        0 <= i <= p < s.len(),
        s[p] == c,
        forall|j: int| i <= j < p ==> s[j] != c,
    ensures
        first_index(s, c, i) == Some(p),
    decreases p - i,
{
    if i < p {
        no_index_before(s, c, i + 1, p);
    }
}

/// The name of a tool is read back out of the identifiers of its calls, if
/// there is no `#` in it.
pub proof fn names_are_read_back(name: Seq<char>, position: nat)
    requires
        !name.contains('#'),
    ensures
        named_in(call_id(name, position)) == name,
{
    reveal_strlit("#");
    let id = call_id(name, position);
    assert(id[name.len() as int] == '#');
    assert forall|j: int| 0 <= j < name.len() implies id[j] != '#' by {
        assert(id[j] == name[j]);
        assert(name.contains(name[j]));
    }
    no_index_before(id, '#', 0, name.len() as int);
    assert(id.take(name.len() as int) =~= name);
}

proof fn decimals_differ(a: nat, b: nat)
    requires
        decimal(a) == decimal(b),
    ensures
        a == b,
    decreases a,
{
    let x = decimal(a);
    let y = decimal(b);
    assert(x.last() == y.last());
    if a >= 10 && b >= 10 {
        assert(x.drop_last() =~= decimal(a / 10));
        assert(y.drop_last() =~= decimal(b / 10));
        decimals_differ(a / 10, b / 10);
    } else if a >= 10 {
        decimal_not_empty(a / 10);
    } else if b >= 10 {
        decimal_not_empty(b / 10);
    }
}

proof fn decimal_not_empty(n: nat)
    ensures
        decimal(n).len() > 0,
{
}

/// Calls at different positions have different identifiers, even where they
/// are of the same tool.
pub proof fn calls_are_told_apart(name: Seq<char>, p: nat, q: nat)
    requires
        p != q,
    ensures
        call_id(name, p) != call_id(name, q),
{
    if call_id(name, p) == call_id(name, q) {
        let x = call_id(name, p);
        reveal_strlit("#");
        assert(x.skip(name.len() as int + 1) =~= decimal(p));
        assert(call_id(name, q).skip(name.len() as int + 1) =~= decimal(q));
        decimals_differ(p, q);
    }
}

proof fn key_at_push(entries: Seq<(Seq<char>, JsonView)>, e: (Seq<char>, JsonView), i: int)
    requires
        0 <= i <= entries.len(),
        forall|j: int| i <= j < entries.len() ==> (#[trigger] entries[j]).0 != e.0,
    ensures
        key_at(entries.push(e), e.0, i) == Some(entries.len() as int),
    decreases entries.len() - i,
{
    if i < entries.len() {
        assert(entries.push(e)[i] == entries[i]);
        key_at_push(entries, e, i + 1);
    }
}

/// In the body of every request the model may think but little, and the
/// instructions, where there are any, stand beside how the contents are
/// generated.
pub proof fn bodies_are_in_shape(messages: Seq<ChatView>, temperature: JsonView, max_tokens: u32)
    ensures
        ({
            let contents = ("contents"@, JsonView::Array(turn_values(messages)));
            let settings = (
                "generationConfig"@,
                JsonView::Object(config_entries(temperature, max_tokens as u64)),
            );
            instructions_moved(nested_body(messages, temperature, max_tokens)) == JsonView::Object(
                match instructions(system_parts(messages)) {
                    Some(s) => seq![contents, settings, ("systemInstruction"@, instruction_value(s))],
                    None => seq![contents, settings],
                },
            )
        }),
        entry(config_entries(temperature, max_tokens as u64), "thinkingConfig"@) == Some(
            minimal_thinking(),
        ),
{
    reveal_strlit("contents");
    reveal_strlit("generationConfig");
    reveal_strlit("systemInstruction");
    reveal_strlit("temperature");
    reveal_strlit("maxOutputTokens");
    reveal_strlit("thinkingConfig");
    assert("contents"@.len() != "generationConfig"@.len());
    assert("contents"@.len() != "systemInstruction"@.len());
    assert("generationConfig"@.len() != "systemInstruction"@.len());
    assert("temperature"@.len() != "systemInstruction"@.len());
    assert("maxOutputTokens"@.len() != "systemInstruction"@.len());
    assert("thinkingConfig"@.len() != "systemInstruction"@.len());
    assert("temperature"@.len() != "thinkingConfig"@.len());
    assert("maxOutputTokens"@.len() != "thinkingConfig"@.len());
    let config = config_entries(temperature, max_tokens as u64);
    entry_is_first(config, "thinkingConfig"@, 2);
    reveal_with_fuel(key_at, 5);
    let body = nested_body(messages, temperature, max_tokens);
    let entries = body->Object_0;
    assert(key_at(entries, "generationConfig"@, 0) == Some(1int));
    let contents = ("contents"@, JsonView::Array(turn_values(messages)));
    let settings = ("generationConfig"@, JsonView::Object(config));
    match instructions(system_parts(messages)) {
        Some(s) => {
            let e = ("systemInstruction"@, instruction_value(s));
            key_at_push(config, e, 0);
            assert(config.push(e).remove(3) =~= config);
            let moved = entries.update(1, ("generationConfig"@, JsonView::Object(config)));
            assert(key_at(moved, "systemInstruction"@, 0) is None);
            assert(moved.push(e) =~= seq![contents, settings, e]);
            assert(instructions_moved(body) == JsonView::Object(moved.push(e)));
        },
        None => {
            assert(key_at(config, "systemInstruction"@, 0) is None);
            assert(entries =~= seq![contents, settings]);
        },
    }
}

/// The names of all tools are read back out of the identifiers of their calls.
pub proof fn tool_names_are_read_back(i: int, position: nat)
    requires
        0 <= i < tool_table().len(),
    ensures
        named_in(call_id(tool_table()[i].name, position)) == tool_table()[i].name,
{
    reveal_strlit("launch_or_focus_app");
    reveal_strlit("launch_app_with_arg");
    reveal_strlit("open_path");
    reveal_strlit("window_op");
    reveal_strlit("window_query");
    reveal_strlit("system_info");
    reveal_strlit("process_query");
    reveal_strlit("kill_process");
    reveal_strlit("network_query");
    reveal_strlit("volume_op");
    reveal_strlit("clipboard_op");
    reveal_strlit("capture_screen");
    reveal_strlit("search_knowledge_base");
    reveal_strlit("create_folder");
    reveal_strlit("create_file");
    reveal_strlit("write_file");
    reveal_strlit("read_file");
    reveal_strlit("list_folder");
    reveal_strlit("search_files");
    reveal_strlit("largest_files");
    reveal_strlit("disk_usage");
    reveal_strlit("delete_file");
    reveal_strlit("run_terminal_command");
    reveal_strlit("move_or_rename");
    if i == 0 {
        assert(!"launch_or_focus_app"@.contains('#'));
    }
    if i == 1 {
        assert(!"launch_app_with_arg"@.contains('#'));
    }
    if i == 2 {
        assert(!"open_path"@.contains('#'));
    }
    if i == 3 {
        assert(!"window_op"@.contains('#'));
    }
    if i == 4 {
        assert(!"window_query"@.contains('#'));
    }
    if i == 5 {
        assert(!"system_info"@.contains('#'));
    }
    if i == 6 {
        assert(!"process_query"@.contains('#'));
    }
    if i == 7 {
        assert(!"kill_process"@.contains('#'));
    }
    if i == 8 {
        assert(!"network_query"@.contains('#'));
    }
    if i == 9 {
        assert(!"volume_op"@.contains('#'));
    }
    if i == 10 {
        assert(!"clipboard_op"@.contains('#'));
    }
    if i == 11 {
        assert(!"capture_screen"@.contains('#'));
    }
    if i == 12 {
        assert(!"search_knowledge_base"@.contains('#'));
    }
    if i == 13 {
        assert(!"create_folder"@.contains('#'));
    }
    if i == 14 {
        assert(!"create_file"@.contains('#'));
    }
    if i == 15 {
        assert(!"write_file"@.contains('#'));
    }
    if i == 16 {
        assert(!"read_file"@.contains('#'));
    }
    if i == 17 {
        assert(!"list_folder"@.contains('#'));
    }
    if i == 18 {
        assert(!"search_files"@.contains('#'));
    }
    if i == 19 {
        assert(!"largest_files"@.contains('#'));
    }
    if i == 20 {
        assert(!"disk_usage"@.contains('#'));
    }
    if i == 21 {
        assert(!"delete_file"@.contains('#'));
    }
    if i == 22 {
        assert(!"run_terminal_command"@.contains('#'));
    }
    if i == 23 {
        assert(!"move_or_rename"@.contains('#'));
    }
    names_are_read_back(tool_table()[i].name, position);
}

proof fn field_names_differ()
    ensures
        "role"@ != "parts"@,
        "contents"@ != "generationConfig"@,
        "contents"@ != "tools"@,
        "contents"@ != "systemInstruction"@,
        "generationConfig"@ != "tools"@,
        "generationConfig"@ != "systemInstruction"@,
        "tools"@ != "systemInstruction"@,
        "temperature"@ != "maxOutputTokens"@,
        "temperature"@ != "thinkingConfig"@,
        "maxOutputTokens"@ != "thinkingConfig"@,
        "name"@ != "description"@,
        "name"@ != "parameters"@,
        "description"@ != "parameters"@,
        "name"@ != "args"@,
        "name"@ != "response"@,
        "mimeType"@ != "data"@,
        "text"@ != "functionCall"@,
{
    reveal_strlit("role");
    reveal_strlit("parts");
    reveal_strlit("contents");
    reveal_strlit("generationConfig");
    reveal_strlit("tools");
    reveal_strlit("systemInstruction");
    reveal_strlit("temperature");
    reveal_strlit("maxOutputTokens");
    reveal_strlit("thinkingConfig");
    reveal_strlit("name");
    reveal_strlit("description");
    reveal_strlit("parameters");
    reveal_strlit("args");
    reveal_strlit("response");
    reveal_strlit("mimeType");
    reveal_strlit("data");
    reveal_strlit("text");
    reveal_strlit("functionCall");
    assert("role"@.len() == 4);
    assert("parts"@.len() == 5);
    assert("contents"@.len() == 8);
    assert("generationConfig"@.len() == 16);
    assert("tools"@.len() == 5);
    assert("systemInstruction"@.len() == 17);
    assert("temperature"@.len() == 11);
    assert("maxOutputTokens"@.len() == 15);
    assert("thinkingConfig"@.len() == 14);
    assert("name"@.len() == 4);
    assert("description"@.len() == 11);
    assert("parameters"@.len() == 10);
    assert("args"@.len() == 4);
    assert("response"@.len() == 8);
    assert("mimeType"@.len() == 8);
    assert("data"@.len() == 4);
    assert("text"@.len() == 4);
    assert("functionCall"@.len() == 12);
    assert("name"@[0] != "args"@[0]);
}

/// A turn is sent under a role with these parts.
pub open spec fn turn_is_sent(sent: JsonView, role: Seq<char>, parts: Seq<JsonView>) -> bool {
    &&& sent.get("role"@) == Some(JsonView::Text(role))
    &&& sent.get("parts"@) == Some(JsonView::Array(parts))
}

proof fn turns_are_sent(role: Seq<char>, parts: Seq<JsonView>)
    ensures
        turn_is_sent(turn_of(role, parts), role, parts),
{
    field_names_differ();
    let whole = turn_of(role, parts);
    let entries = whole->Object_0;
    assert(entries[0].0 == "role"@);
    assert(entries[1].0 == "parts"@);
    assert(entries.len() == 2);
    distinct_keys_are_all_found(entries);
    assert(whole.get("role"@) == Some(entries[0].1));
    assert(whole.get("parts"@) == Some(entries[1].1));
}

proof fn texts_are_sent(text: Seq<char>)
    ensures
        text_part(text).get("text"@) == Some(JsonView::Text(text)),
{
    members_are_found_by_key(text_part(text)->Object_0, "text"@, 0);
}

/// A conversation is sent as it is: every message that is not the system's
/// stands, in order, among the contents, the assistant's as the model's and any
/// other as the user's, with its own content; the system's messages are the
/// instructions; and the temperature and the limit are those that were given.
pub proof fn a_conversation_is_sent_as_it_is(
    messages: Seq<ChatView>,
    temperature: JsonView,
    max_tokens: u32,
)
    ensures
        ({
            let body = instructions_moved(nested_body(messages, temperature, max_tokens));
            let turns = messages.filter(|m: ChatView| m.role != "system"@);
            let system = messages.filter(|m: ChatView| m.role == "system"@).map_values(
                |m: ChatView| m.content,
            );
            &&& match body.get("contents"@) {
                Some(JsonView::Array(sent)) => {
                    &&& sent.len() == turns.len()
                    &&& forall|i: int|
                        0 <= i < turns.len() ==> {
                            &&& (#[trigger] sent[i]).get("role"@) == Some(
                                JsonView::Text(
                                    if turns[i].role == "assistant"@ {
                                        "model"@
                                    } else {
                                        "user"@
                                    },
                                ),
                            )
                            &&& match sent[i].get("parts"@) {
                                Some(JsonView::Array(parts)) => parts.len() == 1 && parts[0].get(
                                    "text"@,
                                ) == Some(JsonView::Text(turns[i].content)),
                                _ => false,
                            }
                        }
                },
                _ => false,
            }
            &&& system.len() == 0 ==> body.get("systemInstruction"@) is None
            &&& system.len() > 0 ==> (match body.get("systemInstruction"@) {
                Some(told) => match told.get("parts"@) {
                    Some(JsonView::Array(parts)) => parts.len() == 1 && parts[0].get("text"@)
                        == Some(JsonView::Text(joined(system, "\n\n"@))),
                    _ => false,
                },
                None => false,
            })
            &&& match body.get("generationConfig"@) {
                Some(config) => {
                    &&& config.get("temperature"@) == Some(temperature)
                    &&& config.get("maxOutputTokens"@) == Some(
                        JsonView::Number(JsonNumberView::Unsigned(max_tokens as u64)),
                    )
                    &&& config.get("systemInstruction"@) is None
                },
                None => false,
            }
        }),
{
    field_names_differ();
    reveal_strlit("systemInstruction");
    reveal_strlit("temperature");
    reveal_strlit("maxOutputTokens");
    reveal_strlit("thinkingConfig");
    instructions_are_parted_from_turns(messages);
    bodies_are_in_shape(messages, temperature, max_tokens);
    let body = instructions_moved(nested_body(messages, temperature, max_tokens));
    let turns = messages.filter(|m: ChatView| m.role != "system"@);
    let system = system_parts(messages);
    let entries = body->Object_0;
    assert(entries[0].0 == "contents"@ && entries[1].0 == "generationConfig"@);
    if system.len() > 0 {
        assert(entries.len() == 3);
        assert(entries[2] == ("systemInstruction"@, instruction_value(joined(system, "\n\n"@))));
    } else {
        assert(entries.len() == 2);
        assert("contents"@ != "systemInstruction"@);
        assert("generationConfig"@ != "systemInstruction"@);
    }
    distinct_keys_are_all_found(entries);
    assert(body.get(entries[0].0) == Some(entries[0].1));
    assert(body.get(entries[1].0) == Some(entries[1].1));
    if system.len() > 0 {
        assert(body.get(entries[2].0) == Some(entries[2].1));
        let told = entries[2].1;
        members_are_found_by_key(told->Object_0, "parts"@, 0);
        texts_are_sent(joined(system, "\n\n"@));
    } else {
        assert(body.get("systemInstruction"@) is None);
    }
    let settings = entries[1].1->Object_0;
    assert(settings[0].0 == "temperature"@);
    assert(settings[1].0 == "maxOutputTokens"@);
    assert(settings[2].0 == "thinkingConfig"@);
    assert(settings.len() == 3);
    distinct_keys_are_all_found(settings);
    assert(entries[1].1.get(settings[0].0) == Some(settings[0].1));
    assert(entries[1].1.get(settings[1].0) == Some(settings[1].1));
    assert("systemInstruction"@.len() == 17);
    assert("temperature"@.len() == 11 && "maxOutputTokens"@.len() == 15);
    assert("thinkingConfig"@.len() == 14);
    assert(entries[1].1.get("systemInstruction"@) is None);
    let sent = turn_values(messages);
    assert forall|i: int| 0 <= i < turns.len() implies {
        &&& (#[trigger] sent[i]).get("role"@) == Some(
            JsonView::Text(
                if turns[i].role == "assistant"@ {
                    "model"@
                } else {
                    "user"@
                },
            ),
        )
        &&& match sent[i].get("parts"@) {
            Some(JsonView::Array(parts)) => parts.len() == 1 && parts[0].get("text"@) == Some(
                JsonView::Text(turns[i].content),
            ),
            _ => false,
        }
    } by {
        assert(sent[i] == turn_value(turns[i]));
        turns_are_sent(
            if turns[i].role == "assistant"@ {
                "model"@
            } else {
                "user"@
            },
            seq![text_part(turns[i].content)],
        );
        texts_are_sent(turns[i].content);
    }
}

/// A picture is sent as it is.
pub open spec fn picture_is_sent(
    sent: JsonView,
    media_type: Seq<char>,
    data_base64: Seq<char>,
) -> bool {
    match sent.get("inlineData"@) {
        Some(data) => data.get("mimeType"@) == Some(JsonView::Text(media_type)) && data.get(
            "data"@,
        ) == Some(JsonView::Text(data_base64)),
        None => false,
    }
}

proof fn pictures_are_sent(media_type: Seq<char>, data_base64: Seq<char>)
    ensures
        picture_is_sent(image_part(media_type, data_base64), media_type, data_base64),
{
    field_names_differ();
    let outer = image_part(media_type, data_base64)->Object_0;
    members_are_found_by_key(outer, "inlineData"@, 0);
    let whole = outer[0].1;
    let entries = whole->Object_0;
    assert(entries[0].0 == "mimeType"@);
    assert(entries[1].0 == "data"@);
    assert(entries.len() == 2);
    distinct_keys_are_all_found(entries);
    assert(whole.get("mimeType"@) == Some(entries[0].1));
    assert(whole.get("data"@) == Some(entries[1].1));
}

/// A piece of a message that is no result is sent as it is: a text with its
/// text, a picture with its bytes, a call with its name and its input.
pub open spec fn piece_is_sent(sent: JsonView, piece: AgentContentView) -> bool {
    match piece {
        AgentContentView::Text(text) => sent.get("text"@) == Some(JsonView::Text(text)),
        AgentContentView::Image { media_type, data_base64 } => picture_is_sent(
            sent,
            media_type,
            data_base64,
        ),
        AgentContentView::ToolUse { name, input, .. } => match sent.get("functionCall"@) {
            Some(call) => call.get("name"@) == Some(JsonView::Text(name)) && call.get("args"@)
                == Some(input),
            None => false,
        },
        AgentContentView::ToolResult { .. } => true,
    }
}

proof fn pieces_are_sent(piece: AgentContentView)
    ensures
        piece_is_sent(part_value(piece), piece),
{
    field_names_differ();
    match piece {
        AgentContentView::Text(text) => {
            texts_are_sent(text);
        },
        AgentContentView::Image { media_type, data_base64 } => {
            pictures_are_sent(media_type, data_base64);
        },
        AgentContentView::ToolUse { name, input, .. } => {
            let outer = part_value(piece)->Object_0;
            members_are_found_by_key(outer, "functionCall"@, 0);
            let call = outer[0].1->Object_0;
            members_are_found_by_key(call, "name"@, 0);
            members_are_found_by_key(call, "args"@, 1);
        },
        AgentContentView::ToolResult { .. } => {},
    }
}

/// What was said and asked for is sent as it is: every message that is not the
/// system's stands, in order, among the contents, the assistant's as the model's
/// and any other as the user's; one that is not made of results has all of its
/// pieces in order.
pub proof fn an_agents_conversation_is_sent_as_it_is(
    messages: Seq<AgentMessageView>,
    tools: Seq<ToolView>,
)
    ensures
        ({
            let body = agent_body(messages, tools);
            let turns = messages.filter(|m: AgentMessageView| m.role != AgentRole::System);
            &&& match body.get("contents"@) {
                Some(JsonView::Array(sent)) => {
                    &&& sent.len() == turns.len()
                    &&& forall|i: int|
                        0 <= i < turns.len() ==> {
                            &&& (#[trigger] sent[i]).get("role"@) == Some(
                                JsonView::Text(
                                    if turns[i].role == AgentRole::Assistant {
                                        "model"@
                                    } else {
                                        "user"@
                                    },
                                ),
                            )
                            &&& match sent[i].get("parts"@) {
                                Some(JsonView::Array(pieces)) => if turns[i].role
                                    == AgentRole::User && only_results(turns[i].content) {
                                    pieces == results_parts(turns[i].content)
                                } else {
                                    &&& pieces.len() == turns[i].content.len()
                                    &&& forall|k: int|
                                        0 <= k < pieces.len() ==> piece_is_sent(
                                            #[trigger] pieces[k],
                                            turns[i].content[k],
                                        )
                                },
                                _ => false,
                            }
                        }
                },
                _ => false,
            }
            &&& match body.get("tools"@) {
                Some(JsonView::Array(all)) => all.len() == 1 && (match all[0].get(
                    "functionDeclarations"@,
                ) {
                    Some(JsonView::Array(told)) => {
                        &&& told.len() == tools.len()
                        &&& forall|i: int|
                            0 <= i < tools.len() ==> {
                                &&& (#[trigger] told[i]).get("name"@) == Some(
                                    JsonView::Text(tools[i].name),
                                )
                                &&& told[i].get("description"@) == Some(
                                    JsonView::Text(tools[i].description),
                                )
                                &&& told[i].get("parameters"@) == Some(tools[i].parameters)
                            }
                    },
                    _ => false,
                }),
                _ => false,
            }
            &&& system_texts(messages).len() == 0 ==> body.get("systemInstruction"@) is None
            &&& system_texts(messages).len() > 0 ==> (match body.get("systemInstruction"@) {
                Some(told) => match told.get("parts"@) {
                    Some(JsonView::Array(parts)) => parts.len() == 1 && parts[0].get("text"@)
                        == Some(JsonView::Text(joined(system_texts(messages), "\n\n"@))),
                    _ => false,
                },
                None => false,
            })
        }),
{
    field_names_differ();
    agent_instructions_are_parted_from_turns(messages, Seq::empty(), messages[0]);
    let body = agent_body(messages, tools);
    let turns = messages.filter(|m: AgentMessageView| m.role != AgentRole::System);
    let system = system_texts(messages);
    let entries = body->Object_0;
    assert(entries[0].0 == "contents"@ && entries[1].0 == "generationConfig"@);
    assert(entries[2].0 == "tools"@);
    if system.len() > 0 {
        assert(entries[3] == ("systemInstruction"@, instruction_value(joined(system, "\n\n"@))));
        assert(entries.len() == 4);
    } else {
        assert(entries.len() == 3);
    }
    distinct_keys_are_all_found(entries);
    assert(body.get(entries[0].0) == Some(entries[0].1));
    assert(body.get(entries[2].0) == Some(entries[2].1));
    if system.len() > 0 {
        assert(body.get(entries[3].0) == Some(entries[3].1));
        members_are_found_by_key(entries[3].1->Object_0, "parts"@, 0);
        texts_are_sent(joined(system, "\n\n"@));
    } else {
        assert(body.get("systemInstruction"@) is None);
    }
    let holder = tools_value(tools)->Array_0[0]->Object_0;
    members_are_found_by_key(holder, "functionDeclarations"@, 0);
    let told = tools.map_values(|t: ToolView| tool_value(t));
    assert forall|i: int| 0 <= i < tools.len() implies {
        &&& (#[trigger] told[i]).get("name"@) == Some(JsonView::Text(tools[i].name))
        &&& told[i].get("description"@) == Some(JsonView::Text(tools[i].description))
        &&& told[i].get("parameters"@) == Some(tools[i].parameters)
    } by {
        let three = told[i]->Object_0;
        members_are_found_by_key(three, "name"@, 0);
        members_are_found_by_key(three, "description"@, 1);
        members_are_found_by_key(three, "parameters"@, 2);
    }
    let sent = message_values(messages);
    assert forall|i: int| 0 <= i < turns.len() implies {
        &&& (#[trigger] sent[i]).get("role"@) == Some(
            JsonView::Text(
                if turns[i].role == AgentRole::Assistant {
                    "model"@
                } else {
                    "user"@
                },
            ),
        )
        &&& match sent[i].get("parts"@) {
            Some(JsonView::Array(pieces)) => if turns[i].role == AgentRole::User && only_results(
                turns[i].content,
            ) {
                pieces == results_parts(turns[i].content)
            } else {
                &&& pieces.len() == turns[i].content.len()
                &&& forall|k: int|
                    0 <= k < pieces.len() ==> piece_is_sent(
                        #[trigger] pieces[k],
                        turns[i].content[k],
                    )
            },
            _ => false,
        }
    } by {
        let m = turns[i];
        assert(sent[i] == message_value(m));
        let role = if m.role == AgentRole::Assistant {
            "model"@
        } else {
            "user"@
        };
        let pieces = m.content.map_values(|c: AgentContentView| part_value(c));
        turns_are_sent(role, pieces);
        turns_are_sent("user"@, results_parts(m.content));
        assert forall|k: int| 0 <= k < pieces.len() implies piece_is_sent(
            #[trigger] pieces[k],
            m.content[k],
        ) by {
            pieces_are_sent(m.content[k]);
        }
    }
}

/// The results of calls are sent one after the other: each under the name of its
/// tool, with its text, and its picture, if there is one, follows it at once.
pub proof fn results_are_sent(
    first: Seq<AgentContentView>,
    second: Seq<AgentContentView>,
    tool_use_id: Seq<char>,
    text: Seq<char>,
    image: Option<(Seq<char>, Seq<char>)>,
    is_error: bool,
)
    ensures
        results_parts(first + second) == results_parts(first) + results_parts(second),
        ({
            let sent = results_parts(
                seq![AgentContentView::ToolResult { tool_use_id, text, image, is_error }],
            );
            &&& sent.len() == (if image is Some {
                2int
            } else {
                1int
            })
            &&& match sent[0].get("functionResponse"@) {
                Some(answer) => {
                    &&& answer.get("name"@) == Some(JsonView::Text(named_in(tool_use_id)))
                    &&& match answer.get("response"@) {
                        Some(r) => r.get("result"@) == Some(JsonView::Text(text)),
                        None => false,
                    }
                },
                None => false,
            }
            &&& image matches Some(pair) ==> picture_is_sent(sent[1], pair.0, pair.1)
        }),
    decreases second.len(),
{
    field_names_differ();
    let result = AgentContentView::ToolResult { tool_use_id, text, image, is_error };
    let one = seq![result];
    assert(one.drop_last() =~= Seq::<AgentContentView>::empty());
    assert(results_parts(one.drop_last()) == Seq::<JsonView>::empty());
    assert(one.last() == result);
    assert(results_parts(one) =~= result_parts(result));
    let outer = result_parts(result)[0]->Object_0;
    members_are_found_by_key(outer, "functionResponse"@, 0);
    let two = outer[0].1->Object_0;
    members_are_found_by_key(two, "name"@, 0);
    members_are_found_by_key(two, "response"@, 1);
    members_are_found_by_key(two[1].1->Object_0, "result"@, 0);
    match image {
        Some(pair) => {
            pictures_are_sent(pair.0, pair.1);
        },
        None => {},
    }
    if second.len() == 0 {
        assert(first + second =~= first);
    } else {
        results_are_sent(first, second.drop_last(), tool_use_id, text, image, is_error);
        assert((first + second).drop_last() =~= first + second.drop_last());
    }
    assert(results_parts(first + second) =~= results_parts(first) + results_parts(second));
}

/// The text of an answer is that of the parts of its first candidate, one after
/// the other: each adds its text, and one without text adds nothing.
pub proof fn the_text_of_an_answer_is_that_of_its_parts(
    first: Seq<JsonView>,
    second: Seq<JsonView>,
    part: JsonView,
    answer: JsonView,
    candidates: Seq<JsonView>,
    content: JsonView,
)
    ensures
        parts_text(first + second) == parts_text(first) + parts_text(second),
        match part.get("text"@) {
            Some(JsonView::Text(t)) => parts_text(seq![part]) == t,
            _ => parts_text(seq![part]).len() == 0,
        },
        answer.get("candidates"@) == Some(JsonView::Array(candidates)) && candidates.len() > 0
            && candidates[0].get("content"@) == Some(content) && content.get("parts"@) == Some(
            JsonView::Array(first),
        ) ==> answer_text(answer) == parts_text(first),
    decreases second.len(),
{
    let one = seq![part];
    let none = Seq::<char>::empty();
    assert(one.drop_last() =~= Seq::<JsonView>::empty());
    assert(parts_text(one.drop_last()) == none);
    assert(one.last() == part);
    assert(parts_text(one) =~= part.text_or_empty("text"@));
    if second.len() == 0 {
        assert(first + second =~= first);
    } else {
        the_text_of_an_answer_is_that_of_its_parts(
            first,
            second.drop_last(),
            part,
            answer,
            candidates,
            content,
        );
        assert((first + second).drop_last() =~= first + second.drop_last());
    }
    assert(parts_text(first + second) =~= parts_text(first) + parts_text(second));
}

/// The texts of a stream come out one by one, in order, and nothing else does:
/// each answer with a text adds that text, one without and what cannot be read
/// add nothing.
pub proof fn a_stream_of_text_comes_out_in_order(
    first: Seq<Seq<char>>,
    second: Seq<Seq<char>>,
    data: Seq<char>,
)
    ensures
        deltas(first + second) == deltas(first) + deltas(second),
        match json_parse(data) {
            Ok(answer) => if answer_text(answer).len() > 0 {
                deltas(seq![data]) == seq![answer_text(answer)]
            } else {
                deltas(seq![data]).len() == 0
            },
            Err(_) => deltas(seq![data]).len() == 0,
        },
    decreases second.len(),
{
    let one = seq![data];
    assert(one.drop_last() =~= Seq::<Seq<char>>::empty());
    assert(deltas(one.drop_last()) =~= Seq::<Seq<char>>::empty());
    assert(one.last() == data);
    match json_parse(data) {
        Ok(answer) => {
            assert(Seq::<Seq<char>>::empty().push(answer_text(answer)) =~= seq![
                answer_text(answer),
            ]);
        },
        Err(_) => {},
    }
    if second.len() == 0 {
        assert(first + second =~= first);
    } else {
        a_stream_of_text_comes_out_in_order(first, second.drop_last(), data);
        assert((first + second).drop_last() =~= first + second.drop_last());
    }
    assert(deltas(first + second) =~= deltas(first) + deltas(second));
}

/// The parts of a streamed answer are passed on one by one, in order: a text as
/// it is, and a call with its name, its input and an identifier of its own.
pub proof fn parts_are_passed_on(
    state: GeminiStreamView,
    first: Seq<JsonView>,
    second: Seq<JsonView>,
    part: JsonView,
    text: Seq<char>,
    call: JsonView,
    name: Seq<char>,
    args: JsonView,
)
    ensures
        ({
            let before = state.take_parts(first);
            let after = before.0.take_parts(second);
            state.take_parts(first + second) == (after.0, before.1 + after.1)
        }),
        part.get("text"@) == Some(JsonView::Text(text)) && text.len() > 0 && part.get(
            "functionCall"@,
        ) is None ==> state.take_parts(seq![part]) == (
            state,
            seq![AgentEventView::TextDelta(text)],
        ),
        part.get("text"@) is None && part.get("functionCall"@) == Some(call) && call.get("name"@)
            == Some(JsonView::Text(name)) && call.get("args"@) == Some(args) ==> state.take_parts(
            seq![part],
        ).1 == seq![
            AgentEventView::ToolCallReady {
                id: call_id(name, state.position as nat),
                name,
                input: args,
            },
        ] && state.take_parts(seq![part]).0.saw_tool_call && (state.position < u64::MAX
            ==> state.take_parts(seq![part]).0.position == state.position + 1),
    decreases second.len(),
{
    let one = seq![part];
    let none = Seq::<AgentEventView>::empty();
    assert(one.drop_last() =~= Seq::<JsonView>::empty());
    assert(state.take_parts(one.drop_last()) == (state, none));
    assert(one.last() == part);
    assert(none + part_events(part, state.position) =~= part_events(part, state.position));
    if part.get("functionCall"@) == Some(call) && part.get("text"@) is None && call.get("name"@)
        == Some(JsonView::Text(name)) && call.get("args"@) == Some(args) {
        assert(part_events(part, state.position) =~= seq![
            AgentEventView::ToolCallReady {
                id: call_id(name, state.position as nat),
                name,
                input: args,
            },
        ]);
    }
    let before = state.take_parts(first);
    if second.len() == 0 {
        assert(first + second =~= first);
        assert(before.1 + none =~= before.1);
    } else {
        parts_are_passed_on(state, first, second.drop_last(), part, text, call, name, args);
        assert((first + second).drop_last() =~= first + second.drop_last());
        let middle = before.0.take_parts(second.drop_last());
        let last = middle.0.take_part(second.last());
        assert(before.1 + (middle.1 + last.1) =~= before.1 + middle.1 + last.1);
    }
}

/// An answer ends for tools where it asked for one, else for the limit where that
/// was told, and else because the turn is over.
pub proof fn the_end_tells_why(state: GeminiStreamView)
    ensures
        ({
            let end = state.step(StreamInputView::End).1;
            &&& end.result == Some(Ok::<(), Seq<char>>(()))
            &&& end.events.len() == 1
            &&& state.saw_tool_call ==> end.events[0] == (AgentEventView::Done {
                stop_reason: StopReason::ToolUse,
            })
            &&& !state.saw_tool_call && state.finish_reason == Some("MAX_TOKENS"@)
                ==> end.events[0] == (AgentEventView::Done { stop_reason: StopReason::MaxTokens })
            &&& !state.saw_tool_call && state.finish_reason != Some("MAX_TOKENS"@)
                ==> end.events[0] == (AgentEventView::Done { stop_reason: StopReason::EndTurn })
        }),
{
}

/// A model of Gemini's is asked by its name, and in the place of any other the
/// default one.
pub proof fn another_providers_model_is_replaced(model: Seq<char>)
    ensures
        starts_with(model, "gemini-"@) ==> model_name(model) == model,
        !starts_with(model, "gemini-"@) ==> model_name(model) == DEFAULT_MODEL@,
{
}

} // verus!
