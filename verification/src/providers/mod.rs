//! The model providers: what a request to each of them holds, and how its
//! answer is read.
use vstd::prelude::*;
use vstd::string::*;

use crate::agent::types::{
    content_views, event_views, message_views, AgentContent, AgentContentView, AgentEvent,
    AgentEventView, AgentMessage, AgentMessageView, AgentRole,
};
use crate::http_status::{is_status, is_success, status_line, status_text};
use crate::json::{
    json_parse, no_entries, object, opt_view, read_json, Json, JsonNumber, JsonNumberView,
    JsonView, UNREADABLE_BODY,
};
use crate::prompts::chat::{chat_views, ChatMessage, ChatView};
use crate::text::{
    ends_with, is_whitespace, join, joined, same, starts_with, trim, trimmed, trimmed_to_nothing,
    views,
};

pub mod anthropic;
pub mod gemini;
pub mod openai;
pub mod sse;

verus! {

/// How long a provider has for its answer.
pub const REQUEST_TIMEOUT_SECS: u64 = 30;

/// A request to a provider.
#[derive(Debug)]
pub struct ProviderRequest {
    pub url: String,
    pub headers: Vec<(&'static str, String)>,
    pub body: Json,
    pub timeout_secs: u64,
}

/// The view of a request.
pub struct ProviderRequestView {
    pub url: Seq<char>,
    pub headers: Seq<(Seq<char>, Seq<char>)>,
    pub body: JsonView,
    pub timeout_secs: u64,
}

/// The views of headers.
pub open spec fn header_views(headers: Seq<(&'static str, String)>) -> Seq<
    (Seq<char>, Seq<char>),
> {
    headers.map_values(|h: (&'static str, String)| (h.0@, h.1@))
}

impl ProviderRequest {
    pub open spec fn view(&self) -> ProviderRequestView {
        ProviderRequestView {
            url: self.url@,
            headers: header_views(self.headers@),
            body: self.body@,
            timeout_secs: self.timeout_secs,
        }
    }
}

/// The request for an answer: the given body, within the time that a provider
/// has.
pub open spec fn provider_request(
    url: Seq<char>,
    headers: Seq<(Seq<char>, Seq<char>)>,
    body: JsonView,
) -> ProviderRequestView {
    ProviderRequestView { url, headers, body, timeout_secs: REQUEST_TIMEOUT_SECS }
}

/// What is said where a provider could not be reached.
pub fn unreachable_message(provider: &str, error: &str) -> (r: String)
    ensures
        r@ == "failed to reach "@ + provider@ + ": "@ + error@,
{
    let mut m: String = "failed to reach ".to_owned();
    m.append(provider);
    m.append(": ");
    m.append(error);
    m
}

/// What is said of a status of no success, with what came with it.
pub open spec fn refusal(provider: Seq<char>, status: u16, body: Seq<char>) -> Seq<char> {
    provider + " returned "@ + status_line(status) + ": "@ + body
}

/// Reads the status of an answer. `body` is what came with it, or nothing
/// where that could not be read.
pub fn check_status(provider: &str, status: u16, body: &str) -> (r: Result<(), String>)
    requires
        is_status(status),
    ensures
        if is_success(status) {
            r is Ok
        } else {
            r matches Err(e) && e@ == refusal(provider@, status, body@)
        },
{
    if 200 <= status && status < 300 {
        return Ok(());
    }
    let mut e: String = provider.to_owned();
    e.append(" returned ");
    let line: String = status_text(status);
    e.append(line.as_str());
    e.append(": ");
    e.append(body);
    Err(e)
}

/// What is said of an answer that cannot be read.
pub open spec fn unexpected(provider: Seq<char>, error: Seq<char>) -> Seq<char> {
    provider + " returned an unexpected response: "@ + error
}

/// The value in an answer: its status has to be one of success, and its body,
/// which may not have come whole, a JSON text.
pub open spec fn answer_value(
    provider: Seq<char>,
    status: u16,
    body: Result<Seq<char>, Seq<char>>,
) -> Result<JsonView, Seq<char>> {
    if is_success(status) {
        match body {
            Ok(text) => match json_parse(text) {
                Ok(v) => Ok(v),
                Err(_) => Err(unexpected(provider, UNREADABLE_BODY@)),
            },
            Err(e) => Err(unexpected(provider, e)),
        }
    } else {
        Err(
            refusal(
                provider,
                status,
                match body {
                    Ok(text) => text,
                    Err(_) => Seq::empty(),
                },
            ),
        )
    }
}

/// The view of a text or an error.
pub open spec fn text_result(r: Result<String, String>) -> Result<Seq<char>, Seq<char>> {
    match r {
        Ok(t) => Ok(t@),
        Err(e) => Err(e@),
    }
}

/// Reads the answer to a request.
pub fn read_answer(provider: &str, status: u16, body: &Result<String, String>) -> (r: Result<
    Json,
    String,
>)
    requires
        is_status(status),
    ensures
        match r {
            Ok(v) => answer_value(provider@, status, text_result(*body)) == Ok::<
                JsonView,
                Seq<char>,
            >(v@),
            Err(e) => answer_value(provider@, status, text_result(*body)) == Err::<
                JsonView,
                Seq<char>,
            >(e@),
        },
{
    let mut message: String = provider.to_owned();
    message.append(" returned an unexpected response: ");
    match body {
        Ok(text) => {
            match check_status(provider, status, text.as_str()) {
                Ok(_) => {},
                Err(e) => {
                    return Err(e);
                },
            }
            match read_json(text.as_str()) {
                Ok(v) => Ok(v),
                Err(_) => {
                    message.append(UNREADABLE_BODY);
                    Err(message)
                },
            }
        },
        Err(e) => {
            proof {
                reveal_strlit("");
                assert(""@ =~= Seq::empty());
            }
            match check_status(provider, status, "") {
                Ok(_) => {},
                Err(e) => {
                    return Err(e);
                },
            }
            message.append(e.as_str());
            Err(message)
        },
    }
}

/// What is said where a stream breaks off.
pub open spec fn broken_stream(error: Seq<char>) -> Seq<char> {
    "stream read error: "@ + error
}

/// What is said where a stream breaks off.
pub fn stream_error(error: &str) -> (r: String)
    ensures
        r@ == broken_stream(error@),
{
    let mut m: String = "stream read error: ".to_owned();
    m.append(error);
    m
}

/// The contents of the messages that set the scene.
pub open spec fn system_parts(messages: Seq<ChatView>) -> Seq<Seq<char>>
    decreases messages.len(),
{
    if messages.len() == 0 {
        Seq::empty()
    } else if messages.last().role == "system"@ {
        system_parts(messages.drop_last()).push(messages.last().content)
    } else {
        system_parts(messages.drop_last())
    }
}

/// The messages that do not set the scene.
pub open spec fn turns_of(messages: Seq<ChatView>) -> Seq<ChatView>
    decreases messages.len(),
{
    if messages.len() == 0 {
        Seq::empty()
    } else if messages.last().role == "system"@ {
        turns_of(messages.drop_last())
    } else {
        turns_of(messages.drop_last()).push(messages.last())
    }
}

/// The instructions made of some parts, where there are any.
pub open spec fn instructions(parts: Seq<Seq<char>>) -> Option<Seq<char>> {
    if parts.len() == 0 {
        None
    } else {
        Some(joined(parts, "\n\n"@))
    }
}

fn instructions_of(parts: &Vec<String>) -> (r: Option<String>)
    ensures
        opt_view(r) == instructions(views(parts@)),
{
    if parts.len() == 0 {
        None
    } else {
        Some(join(parts, "\n\n"))
    }
}

/// The instructions in the messages that set the scene.
pub(crate) fn system_instructions(messages: &Vec<ChatMessage>) -> (r: Option<String>)
    ensures
        opt_view(r) == instructions(system_parts(chat_views(messages@))),
{
    let ghost all = chat_views(messages@);
    let mut parts: Vec<String> = Vec::new();
    let mut i: usize = 0;
    proof {
        assert(all.take(0) =~= Seq::empty());
        assert(views(parts@) =~= Seq::empty());
    }
    while i < messages.len()
        invariant
            i <= messages@.len(),
            all == chat_views(messages@),
            views(parts@) == system_parts(all.take(i as int)),
        decreases messages@.len() - i,
    {
        let ghost before = views(parts@);
        proof {
            assert(all.take(i as int + 1).drop_last() =~= all.take(i as int));
            assert(all.take(i as int + 1).last() == messages@[i as int]@);
        }
        if same(messages[i].role, "system") {
            parts.push(messages[i].content.clone());
            proof {
                assert(views(parts@) =~= before.push(messages@[i as int].content@));
            }
        }
        i += 1;
    }
    proof {
        assert(all.take(i as int) =~= all);
    }
    instructions_of(&parts)
}

/// The texts among the pieces of a message.
pub open spec fn texts(content: Seq<AgentContentView>) -> Seq<Seq<char>>
    decreases content.len(),
{
    if content.len() == 0 {
        Seq::empty()
    } else {
        match content.last() {
            AgentContentView::Text(t) => texts(content.drop_last()).push(t),
            _ => texts(content.drop_last()),
        }
    }
}

/// The texts of the messages that set the scene.
pub open spec fn system_texts(messages: Seq<AgentMessageView>) -> Seq<Seq<char>>
    decreases messages.len(),
{
    if messages.len() == 0 {
        Seq::empty()
    } else if messages.last().role == AgentRole::System {
        system_texts(messages.drop_last()) + texts(messages.last().content)
    } else {
        system_texts(messages.drop_last())
    }
}

/// The messages that do not set the scene.
pub open spec fn agent_turns(messages: Seq<AgentMessageView>) -> Seq<AgentMessageView>
    decreases messages.len(),
{
    if messages.len() == 0 {
        Seq::empty()
    } else if messages.last().role == AgentRole::System {
        agent_turns(messages.drop_last())
    } else {
        agent_turns(messages.drop_last()).push(messages.last())
    }
}

pub(crate) fn push_texts(content: &Vec<AgentContent>, out: &mut Vec<String>)
    ensures
        views(final(out)@) == views(old(out)@) + texts(content_views(content@)),
{
    let ghost all = content_views(content@);
    let ghost before = views(out@);
    let mut i: usize = 0;
    proof {
        assert(all.take(0) =~= Seq::empty());
        assert(before + Seq::<Seq<char>>::empty() =~= before);
    }
    while i < content.len()
        invariant
            i <= content@.len(),
            all == content_views(content@),
            views(out@) == before + texts(all.take(i as int)),
        decreases content@.len() - i,
    {
        proof {
            assert(all.take(i as int + 1).drop_last() =~= all.take(i as int));
            assert(all.take(i as int + 1).last() == content@[i as int]@);
        }
        match &content[i] {
            AgentContent::Text(t) => {
                let ghost so_far = views(out@);
                out.push(t.clone());
                proof {
                    assert(views(out@) =~= so_far.push(t@));
                    assert(before + texts(all.take(i as int)).push(t@) =~= so_far.push(t@));
                }
            },
            _ => {},
        }
        i += 1;
    }
    proof {
        assert(all.take(i as int) =~= all);
    }
}

/// The instructions in the messages that set the scene.
pub(crate) fn agent_instructions(messages: &Vec<AgentMessage>) -> (r: Option<String>)
    ensures
        opt_view(r) == instructions(system_texts(message_views(messages@))),
{
    let ghost all = message_views(messages@);
    let mut parts: Vec<String> = Vec::new();
    let mut i: usize = 0;
    proof {
        assert(all.take(0) =~= Seq::empty());
        assert(views(parts@) =~= Seq::empty());
    }
    while i < messages.len()
        invariant
            i <= messages@.len(),
            all == message_views(messages@),
            views(parts@) == system_texts(all.take(i as int)),
        decreases messages@.len() - i,
    {
        proof {
            assert(all.take(i as int + 1).drop_last() =~= all.take(i as int));
            assert(all.take(i as int + 1).last() == messages@[i as int]@);
        }
        if messages[i].role == AgentRole::System {
            push_texts(&messages[i].content, &mut parts);
        }
        i += 1;
    }
    proof {
        assert(all.take(i as int) =~= all);
    }
    instructions_of(&parts)
}

/// The number that stands for how free an agent's answers are: four tenths.
pub open spec fn agent_temperature() -> JsonView {
    JsonView::Number(JsonNumberView::Float { bits: 0x3FD999999999999A, text: "0.4"@ })
}

pub(crate) fn agent_temperature_value() -> (r: Json)
    ensures
        r@ == agent_temperature(),
{
    Json::Number(JsonNumber::Float { bits: 0x3FD999999999999A, text: "0.4".to_owned() })
}

/// How long an agent's answers may be.
pub const AGENT_MAX_TOKENS: u64 = 1024;

/// The arguments of a call, given their text and what was read in it: without
/// a text, or with one that cannot be read, there are none.
pub open spec fn input_in(text: Seq<char>, parsed: Result<JsonView, Seq<char>>) -> JsonView {
    if trim(text).len() == 0 {
        JsonView::Object(Seq::empty())
    } else {
        match parsed {
            Ok(v) => v,
            Err(_) => JsonView::Object(Seq::empty()),
        }
    }
}

/// The arguments of a call that a text holds.
pub open spec fn call_input(text: Seq<char>) -> JsonView {
    input_in(text, json_parse(text))
}

/// Takes what was read in the text of a call's arguments.
pub fn read_input(text: &str, parsed: Result<Json, String>) -> (r: Json)
    ensures
        r@ == input_in(
            text@,
            match parsed {
                Ok(v) => Ok(v@),
                Err(e) => Err(e@),
            },
        ),
{
    let t: String = trimmed(text);
    if t.as_str().is_empty() {
        return object(no_entries());
    }
    match parsed {
        Ok(v) => v,
        Err(_) => object(no_entries()),
    }
}

pub(crate) fn parse_input(text: &str) -> (r: Json)
    ensures
        r@ == call_input(text@),
{
    read_input(text, read_json(text))
}

/// What comes of a stream: a piece of it, or why it could not be had, or its
/// end. With a piece comes whether the turn was cancelled meanwhile.
#[derive(Debug)]
pub enum StreamInput {
    Piece { cancelled: bool, read: Result<Vec<u8>, String> },
    End,
}

/// The view of what comes of a stream.
pub enum StreamInputView {
    Piece { cancelled: bool, read: Result<Seq<u8>, Seq<char>> },
    End,
}

impl StreamInput {
    pub open spec fn view(&self) -> StreamInputView {
        match *self {
            StreamInput::Piece { cancelled, read } => StreamInputView::Piece {
                cancelled,
                read: match read {
                    Ok(bytes) => Ok(bytes@),
                    Err(e) => Err(e@),
                },
            },
            StreamInput::End => StreamInputView::End,
        }
    }
}

/// What the reader of a stream gives: events, and at its end a result.
#[derive(Debug)]
pub struct StreamOutput {
    pub events: Vec<AgentEvent>,
    pub result: Option<Result<(), String>>,
}

/// The view of what the reader of a stream gives.
pub struct StreamOutputView {
    pub events: Seq<AgentEventView>,
    pub result: Option<Result<(), Seq<char>>>,
}

impl StreamOutput {
    pub open spec fn view(&self) -> StreamOutputView {
        StreamOutputView {
            events: event_views(self.events@),
            result: match self.result {
                Some(Ok(_)) => Some(Ok(())),
                Some(Err(e)) => Some(Err(e@)),
                None => None,
            },
        }
    }
}

/// Events, and the stream goes on.
pub open spec fn going_on(events: Seq<AgentEventView>) -> StreamOutputView {
    StreamOutputView { events, result: None }
}

/// Nothing more, and an error.
pub open spec fn failed(error: Seq<char>) -> StreamOutputView {
    StreamOutputView { events: Seq::empty(), result: Some(Err(error)) }
}

/// The last events of a stream.
pub open spec fn finished(events: Seq<AgentEventView>) -> StreamOutputView {
    StreamOutputView { events, result: Some(Ok(())) }
}

pub(crate) fn failed_output(error: String) -> (r: StreamOutput)
    ensures
        r@ == failed(error@),
{
    let events: Vec<AgentEvent> = Vec::new();
    proof {
        assert(event_views(events@) =~= Seq::empty());
    }
    StreamOutput { events, result: Some(Err(error)) }
}

pub(crate) fn push_event(events: &mut Vec<AgentEvent>, event: AgentEvent)
    ensures
        event_views(final(events)@) == event_views(old(events)@).push(event@),
{
    events.push(event);
    proof {
        assert(event_views(events@) =~= event_views(old(events)@).push(event@));
    }
}

pub(crate) fn no_events() -> (r: Vec<AgentEvent>)
    ensures
        event_views(r@) == Seq::<AgentEventView>::empty(),
{
    let events: Vec<AgentEvent> = Vec::new();
    proof {
        assert(event_views(events@) =~= Seq::empty());
    }
    events
}

/// The instructions are the contents of the system's messages and the turns are
/// all other messages, each in order.
pub proof fn instructions_are_parted_from_turns(messages: Seq<ChatView>)
    ensures
        turns_of(messages) == messages.filter(|m: ChatView| m.role != "system"@),
        system_parts(messages) == messages.filter(|m: ChatView| m.role == "system"@).map_values(
            |m: ChatView| m.content,
        ),
    decreases messages.len(),
{
    reveal(Seq::filter);
    let is_turn = |m: ChatView| m.role != "system"@;
    let is_system = |m: ChatView| m.role == "system"@;
    let content = |m: ChatView| m.content;
    if messages.len() == 0 {
        assert(turns_of(messages) =~= messages.filter(is_turn));
        assert(system_parts(messages) =~= messages.filter(is_system).map_values(content));
    } else {
        let before = messages.drop_last();
        instructions_are_parted_from_turns(before);
        assert(system_parts(messages) =~= messages.filter(is_system).map_values(content));
    }
}

/// The pieces of text in a message, in order.
pub proof fn texts_are_the_pieces_of_text(content: Seq<AgentContentView>)
    ensures
        texts(content) == content.filter(|c: AgentContentView| c is Text).map_values(
            |c: AgentContentView| c->Text_0,
        ),
    decreases content.len(),
{
    reveal(Seq::filter);
    let is_text = |c: AgentContentView| c is Text;
    let text = |c: AgentContentView| c->Text_0;
    if content.len() > 0 {
        texts_are_the_pieces_of_text(content.drop_last());
    }
    assert(texts(content) =~= content.filter(is_text).map_values(text));
}

/// In a conversation with an agent, too, the instructions are the texts of the
/// system's messages, one after the other, and the turns are all other messages,
/// each in order.
pub proof fn agent_instructions_are_parted_from_turns(
    messages: Seq<AgentMessageView>,
    more: Seq<AgentMessageView>,
    message: AgentMessageView,
)
    ensures
        agent_turns(messages) == messages.filter(
            |m: AgentMessageView| m.role != AgentRole::System,
        ),
        system_texts(messages + more) == system_texts(messages) + system_texts(more),
        system_texts(seq![message]) == (if message.role == AgentRole::System {
            message.content.filter(|c: AgentContentView| c is Text).map_values(
                |c: AgentContentView| c->Text_0,
            )
        } else {
            Seq::empty()
        }),
    decreases messages.len() + more.len(),
{
    reveal(Seq::filter);
    let is_turn = |m: AgentMessageView| m.role != AgentRole::System;
    let one = seq![message];
    assert(one.drop_last() =~= Seq::<AgentMessageView>::empty());
    assert(system_texts(one.drop_last()) =~= Seq::<Seq<char>>::empty());
    assert(one.last() == message);
    texts_are_the_pieces_of_text(message.content);
    let none = Seq::<Seq<char>>::empty();
    assert(none + texts(message.content) =~= texts(message.content));
    if messages.len() > 0 {
        agent_instructions_are_parted_from_turns(messages.drop_last(), Seq::empty(), message);
    }
    assert(agent_turns(messages) =~= messages.filter(is_turn));
    if more.len() > 0 {
        agent_instructions_are_parted_from_turns(messages, more.drop_last(), message);
        assert((messages + more).drop_last() =~= messages + more.drop_last());
    } else {
        assert(messages + more =~= messages);
    }
    assert(system_texts(messages + more) =~= system_texts(messages) + system_texts(more));
}

/// An answer is read only where the service says that all is well; else its
/// refusal names the service, the status and what was said.
pub proof fn a_refusal_is_no_answer(
    provider: Seq<char>,
    status: u16,
    body: Result<Seq<char>, Seq<char>>,
)
    ensures
        200 <= status < 300 && body is Ok && json_parse(body->Ok_0) is Ok ==> answer_value(
            provider,
            status,
            body,
        ) == Ok::<JsonView, Seq<char>>(json_parse(body->Ok_0)->Ok_0),
        200 <= status < 300 && (body is Err || json_parse(body->Ok_0) is Err) ==> answer_value(
            provider,
            status,
            body,
        ) is Err,
        !(200 <= status < 300) ==> (match answer_value(provider, status, body) {
            Err(e) => starts_with(e, provider) && (body matches Ok(said) ==> ends_with(e, said)),
            Ok(_) => false,
        }),
{
    if !(200 <= status < 300) {
        let said = match body {
            Ok(text) => text,
            Err(_) => Seq::empty(),
        };
        let e = refusal(provider, status, said);
        assert(e.subrange(0, provider.len() as int) =~= provider);
        assert(e.subrange(e.len() - said.len(), e.len() as int) =~= said);
    }
}

/// The input of a call is what its text says, and an empty object where it says
/// nothing that can be read.
pub proof fn the_input_of_a_call_is_its_text(text: Seq<char>)
    ensures
        (exists|i: int| 0 <= i < text.len() && !is_whitespace(#[trigger] text[i])) && json_parse(
            text,
        ) is Ok ==> Ok::<JsonView, Seq<char>>(call_input(text)) == json_parse(text),
        json_parse(text) is Err ==> call_input(text) == JsonView::Object(Seq::empty()),
{
    trimmed_to_nothing(text);
}

/// What the contracts say of a value is said of its fields, each under its own name.
pub proof fn each_field_is_seen_as_it_is(request: ProviderRequest)
    ensures
        request@.url == request.url@,
        request@.headers == header_views(request.headers@),
        request@.body == request.body@,
        request@.timeout_secs == request.timeout_secs,
{
}

/// All instructions are sent as one text, each apart from the next by an empty
/// line; without any there is none.
pub proof fn instructions_are_sent_as_one(parts: Seq<Seq<char>>, part: Seq<char>)
    ensures
        instructions(Seq::empty()) is None,
        instructions(seq![part]) == Some(part),
        parts.len() > 0 ==> instructions(parts) is Some && instructions(parts.push(part)) == Some(
            instructions(parts)->Some_0 + "\n\n"@ + part,
        ),
{
    assert(seq![part].drop_last() =~= Seq::<Seq<char>>::empty());
    assert(parts.push(part).drop_last() =~= parts);
}

} // verus!
