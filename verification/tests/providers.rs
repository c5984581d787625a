use smallbird_local::agent::tool_list::all_tools;
use smallbird_local::agent::types::{AgentContent, AgentEvent, AgentMessage, StopReason};
use smallbird_local::backend::{
    AskRequest, InterviewAnalysisRequest, NotesAskRequest, NotesSummaryRequest,
    SetupAnalysisRequest, WireQuestionAnswer,
};
use smallbird_local::client::{
    answer_of, ask_generation, choose_provider, finalize, note_summary_of, notes_ask_generation,
    notes_summary_generation, setup_generation, setup_of, AnalysisAction, AnalysisRun,
    DirectLlmClient, Generation, MAX_QUESTIONS_TO_ANALYZE,
};
use smallbird_local::json::{parse_json, Json, JsonNumber};
use smallbird_local::prompts::chat::ChatMessage;
use smallbird_local::provider::{
    clear_key, default_model, entry_name, load_key, parse_provider, store_key, store_unavailable,
    KeyStoreError, LlmProvider,
};
use smallbird_local::providers::{
    anthropic, check_status, gemini, openai, read_answer, read_input, stream_error,
    unreachable_message, StreamInput, REQUEST_TIMEOUT_SECS,
};
use smallbird_local::providers::sse::{append_piece, take_data, take_line_data};

fn json(text: &str) -> Json {
    parse_json(text).unwrap()
}

fn half() -> Json {
    Json::Number(JsonNumber::Float { bits: 0.5f64.to_bits(), text: "0.5".to_string() })
}

fn system(text: &str) -> ChatMessage {
    ChatMessage::system(text.to_string())
}

fn user(text: &str) -> ChatMessage {
    ChatMessage::user(text.to_string())
}

fn assistant(text: &str) -> ChatMessage {
    ChatMessage::assistant(text.to_string())
}

/// The value at a path of fields and positions.
fn at<'a>(value: &'a Json, path: &[&str]) -> &'a Json {
    let mut here = value;
    for step in path {
        here = match here {
            Json::Array(items) => &items[step.parse::<usize>().unwrap()],
            other => other.get(step).unwrap(),
        };
    }
    here
}

fn text_at(value: &Json, path: &[&str]) -> String {
    at(value, path).as_str().unwrap()
}

#[test]
fn round_trips_valid_wire_strings() {
    for s in ["openai", "anthropic", "gemini"] {
        let provider = LlmProvider::from_wire_str(s).expect("should parse");
        assert_eq!(provider.as_wire_str(), s);
    }
}

#[test]
fn rejects_unknown_or_unimplemented_providers() {
    assert_eq!(LlmProvider::from_wire_str("deepseek"), None);
    assert_eq!(LlmProvider::from_wire_str("bogus"), None);
    assert_eq!(LlmProvider::from_wire_str(""), None);
}

#[test]
fn an_unknown_provider_is_named() {
    assert_eq!(parse_provider("deepseek"), Err("unknown provider: deepseek".to_string()));
    assert_eq!(parse_provider("gemini"), Ok(LlmProvider::Gemini));
}

#[test]
fn keys_are_kept_under_the_names_of_their_providers() {
    assert_eq!(entry_name("openai"), "personal-api-key-openai");
    assert_ne!(entry_name("openai"), entry_name("gemini"));
}

#[test]
fn a_missing_key_is_no_failure_of_the_store() {
    assert_eq!(load_key(Ok("k".to_string())), Ok(Some("k".to_string())));
    assert_eq!(load_key(Err(KeyStoreError::NoEntry)), Ok(None));
    assert_eq!(
        load_key(Err(KeyStoreError::Other("locked".to_string()))),
        Err("failed to read API key: locked".to_string())
    );
    assert_eq!(clear_key(Err(KeyStoreError::NoEntry)), Ok(()));
    assert_eq!(
        clear_key(Err(KeyStoreError::Other("locked".to_string()))),
        Err("failed to clear API key: locked".to_string())
    );
    assert_eq!(store_key(Ok(())), Ok(()));
    assert_eq!(
        store_key(Err("locked".to_string())),
        Err("failed to store API key: locked".to_string())
    );
    assert_eq!(store_unavailable("none"), "credential store unavailable: none");
}

#[test]
fn a_client_needs_a_key() {
    let e = DirectLlmClient::new(&None, Ok(None), names()).unwrap_err();
    assert_eq!(e, "No API key configured for anthropic. Add one in Settings.");
    let e = DirectLlmClient::new(&Some("openai".to_string()), Ok(Some(String::new())), names()).unwrap_err();
    assert_eq!(e, "No API key configured for openai. Add one in Settings.");
    let e = DirectLlmClient::new(&None, Err("locked".to_string()), names()).unwrap_err();
    assert_eq!(e, "locked");
    let client = DirectLlmClient::new(&Some("bogus".to_string()), Ok(Some("k".to_string())), names()).unwrap();
    assert_eq!(client.name(), "Anthropic");
    assert_eq!(choose_provider(&Some("gemini".to_string())), LlmProvider::Gemini);
    assert_eq!(default_model(LlmProvider::OpenAi, &names()), "gpt-4o-mini");
}

fn names() -> anthropic::ModelNames {
    anthropic::ModelNames { prefix: "family-".to_string(), default_model: "family-one".to_string() }
}

#[test]
fn a_model_of_the_family_is_kept() {
    assert_eq!(anthropic::resolve_model("family-two", &names()), "family-two");
}

#[test]
fn resolve_model_substitutes_default_for_non_claude_model() {
    assert_eq!(anthropic::resolve_model("gpt-4o-mini", &names()), names().default_model);
}

#[test]
fn split_system_pulls_out_and_joins_system_messages() {
    let messages = vec![system("sys1"), user("hello")];
    let (system, turns) = anthropic::split_system(&messages);
    assert_eq!(system, Some("sys1".to_string()));
    assert_eq!(turns.len(), 1);
}

#[test]
fn several_instructions_are_joined() {
    let messages = vec![system("sys1"), user("hello"), system("sys2")];
    assert_eq!(anthropic::split_system(&messages).0, Some("sys1\n\nsys2".to_string()));
    assert_eq!(anthropic::split_system(&vec![user("hello")]).0, None);
}

#[test]
fn parses_content_block_delta_and_skips_other_events() {
    let mut buffer = "event: message_start\ndata: {\"type\":\"message_start\"}\n\nevent: content_block_delta\ndata: {\"type\":\"content_block_delta\",\"delta\":{\"type\":\"text_delta\",\"text\":\"Hello\"}}\n\n".to_string();
    let deltas = anthropic::drain_text_deltas(&mut buffer);
    assert_eq!(deltas, vec!["Hello".to_string()]);
}

#[test]
fn anthropic_leaves_trailing_partial_frame_in_buffer() {
    let mut buffer = "event: content_block_delta\ndata: {\"type\":\"content_block_delta\",\"delta\":{\"type\":\"text_delta\",\"text\":\"Hi\"}}\n\nevent: content_block_delta\ndata: {\"type\"".to_string();
    let deltas = anthropic::drain_text_deltas(&mut buffer);
    assert_eq!(deltas, vec!["Hi".to_string()]);
    assert!(buffer.contains("content_block_delta"));
}

#[test]
fn resolve_model_keeps_valid_gemini_model() {
    assert_eq!(gemini::resolve_model("gemini-3.6-flash"), "gemini-3.6-flash");
}

#[test]
fn resolve_model_substitutes_default_for_non_gemini_model() {
    assert_eq!(gemini::resolve_model("gpt-4o-mini"), gemini::DEFAULT_MODEL);
}

#[test]
fn split_system_maps_assistant_role_to_model() {
    let messages = vec![system("sys"), assistant("prior answer"), user("question")];
    let (system, turns) = gemini::split_system(&messages);
    assert_eq!(system, Some("sys".to_string()));
    assert_eq!(text_at(&turns[0], &["role"]), "model");
    assert_eq!(text_at(&turns[1], &["role"]), "user");
}

#[test]
fn request_body_always_sets_thinking_level_minimal() {
    let body = gemini::extract_generation_config(gemini::build_request_body(
        &vec![user("hi")],
        half(),
        100,
    ));
    assert_eq!(
        text_at(&body, &["generationConfig", "thinkingConfig", "thinkingLevel"]),
        "MINIMAL"
    );
}

#[test]
fn system_instruction_moved_to_top_level() {
    let body = gemini::extract_generation_config(gemini::build_request_body(
        &vec![system("sys"), user("hi")],
        half(),
        100,
    ));
    assert_eq!(text_at(&body, &["systemInstruction", "parts", "0", "text"]), "sys");
    assert!(at(&body, &["generationConfig"]).get("systemInstruction").is_none());
}

#[test]
fn a_body_without_instructions_is_left_alone() {
    let body = json(r#"{"generationConfig": 3, "x": 1}"#);
    assert_eq!(gemini::extract_generation_config(body), json(r#"{"generationConfig": 3, "x": 1}"#));
    assert_eq!(gemini::extract_generation_config(Json::Null), Json::Null);
    let body = json(r#"{"generationConfig": {"systemInstruction": 1}, "systemInstruction": 2}"#);
    assert_eq!(
        gemini::extract_generation_config(body),
        json(r#"{"generationConfig": {}, "systemInstruction": 1}"#)
    );
}

#[test]
fn extracts_text_from_generate_content_response() {
    let value = json(r#"{"candidates": [{"content": {"parts": [{"text": "Hello"}]}}]}"#);
    assert_eq!(gemini::extract_text(&value), "Hello");
}

#[test]
fn parses_streamed_sse_deltas() {
    let mut buffer = "data: {\"candidates\":[{\"content\":{\"parts\":[{\"text\":\"Hi\"}]}}]}\n\n".to_string();
    let deltas = gemini::drain_text_deltas(&mut buffer);
    assert_eq!(deltas, vec!["Hi".to_string()]);
}

#[test]
fn gemini_leaves_trailing_partial_frame_in_buffer() {
    let mut buffer = "data: {\"candidates\":[{\"content\":{\"parts\":[{\"text\":\"Hi\"}]}}]}\n\ndata: {\"cand".to_string();
    let deltas = gemini::drain_text_deltas(&mut buffer);
    assert_eq!(deltas, vec!["Hi".to_string()]);
    assert!(buffer.contains("data: {\"cand"));
}

#[test]
fn parses_single_delta_chunk() {
    let mut buffer = "data: {\"choices\":[{\"delta\":{\"content\":\"Hello\"}}]}\n\n".to_string();
    let deltas: Vec<String> = openai::drain_sse_deltas(&mut buffer).into_iter().flatten().collect();
    assert_eq!(deltas, vec!["Hello".to_string()]);
}

#[test]
fn stops_at_done_marker() {
    let mut buffer = "data: {\"choices\":[{\"delta\":{\"content\":\"Hi\"}}]}\n\ndata: [DONE]\n\ndata: {\"choices\":[{\"delta\":{\"content\":\"ignored\"}}]}\n\n".to_string();
    let deltas: Vec<String> = openai::drain_sse_deltas(&mut buffer).into_iter().flatten().collect();
    assert_eq!(deltas, vec!["Hi".to_string()]);
}

#[test]
fn skips_chunks_with_no_choices() {
    let mut buffer = "data: {\"choices\":[]}\n\n".to_string();
    let deltas = openai::drain_sse_deltas(&mut buffer);
    assert_eq!(deltas, vec![None]);
}

#[test]
fn leaves_trailing_partial_line_in_buffer() {
    let mut buffer = "data: {\"choices\":[{\"delta\":{\"content\":\"Hi\"}}]}\n\ndata: {\"choic".to_string();
    let _ = openai::drain_sse_deltas(&mut buffer);
    assert!(buffer.contains("data: {\"choic"));
}

#[test]
fn frames_are_read_the_same_in_pieces() {
    let text = "data: one\r\n\ndata: a\n\nother\ndata:b\n\ndata: c";
    let mut whole = text.to_string();
    let at_once = take_data(&mut whole);
    let mut buffer = String::new();
    let mut in_pieces = vec![];
    for c in text.chars() {
        buffer.push(c);
        in_pieces.extend(take_data(&mut buffer));
    }
    assert_eq!(at_once, vec!["one", "a", "b"]);
    assert_eq!(in_pieces, at_once);
    assert_eq!(buffer, whole);
    assert_eq!(buffer, "data: c");
}

#[test]
fn lines_are_read_up_to_the_end_of_the_stream() {
    let mut buffer = "data: 1\n\ndata:\nnoise\ndata: [DONE]\ndata: 2\n".to_string();
    assert_eq!(take_line_data(&mut buffer), vec!["1"]);
    assert_eq!(buffer, "data: 2\n");
    assert_eq!(take_line_data(&mut buffer), vec!["2"]);
    assert_eq!(buffer, "");
}

#[test]
fn bytes_that_are_no_text_are_replaced() {
    let mut buffer = "a".to_string();
    append_piece(&mut buffer, "é".as_bytes());
    append_piece(&mut buffer, &[0xFF]);
    assert_eq!(buffer, "aé\u{FFFD}");
}

fn piece(text: &str) -> StreamInput {
    StreamInput::Piece { cancelled: false, read: Ok(text.as_bytes().to_vec()) }
}

fn shown(events: &[AgentEvent]) -> Vec<String> {
    events.iter().map(|e| format!("{e:?}")).collect()
}

const ANTHROPIC_CALL: &str = "data: {\"type\":\"content_block_delta\",\"index\":0,\"delta\":{\"type\":\"text_delta\",\"text\":\"Let me see\"}}\n\ndata: {\"type\":\"content_block_start\",\"index\":1,\"content_block\":{\"type\":\"tool_use\",\"id\":\"t1\",\"name\":\"system_info\"}}\n\ndata: {\"type\":\"content_block_delta\",\"index\":1,\"delta\":{\"type\":\"input_json_delta\",\"partial_json\":\"{\\\"kind\\\":\"}}\n\ndata: {\"type\":\"content_block_delta\",\"index\":1,\"delta\":{\"type\":\"input_json_delta\",\"partial_json\":\"\\\"time\\\"}\"}}\n\ndata: {\"type\":\"content_block_stop\",\"index\":1}\n\ndata: {\"type\":\"message_delta\",\"delta\":{\"stop_reason\":\"tool_use\"}}\n\n";

#[test]
fn a_call_is_put_together_from_its_parts() {
    let mut stream = anthropic::AnthropicStream::new();
    let out = stream.step(&piece(ANTHROPIC_CALL));
    assert!(out.result.is_none());
    assert_eq!(out.events.len(), 2);
    match &out.events[1] {
        AgentEvent::ToolCallReady { id, name, input } => {
            assert_eq!(id, "t1");
            assert_eq!(name, "system_info");
            assert_eq!(*input, json(r#"{"kind": "time"}"#));
        }
        other => panic!("{other:?}"),
    }
    let end = stream.step(&StreamInput::End);
    assert!(matches!(end.events[0], AgentEvent::Done { stop_reason: StopReason::ToolUse }));
    assert_eq!(end.result, Some(Ok(())));
}

#[test]
fn an_anthropic_stream_reads_the_same_in_pieces() {
    let mut whole = anthropic::AnthropicStream::new();
    let at_once = shown(&whole.step(&piece(ANTHROPIC_CALL)).events);
    let mut stream = anthropic::AnthropicStream::new();
    let mut in_pieces = vec![];
    for c in ANTHROPIC_CALL.chars() {
        in_pieces.extend(shown(&stream.step(&piece(&c.to_string())).events));
    }
    assert_eq!(in_pieces, at_once);
}

#[test]
fn arguments_that_cannot_be_read_are_none() {
    assert_eq!(read_input("  ", parse_json("  ")), json("{}"));
    assert_eq!(read_input("{oops", parse_json("{oops")), json("{}"));
    assert_eq!(read_input("[1]", parse_json("[1]")), json("[1]"));
}

const OPENAI_CALLS: &str = "data: {\"choices\":[{\"delta\":{\"content\":\"Ok\",\"tool_calls\":[{\"index\":1,\"id\":\"b\",\"function\":{\"name\":\"clip\"}}]}}]}\n\ndata: {\"choices\":[{\"delta\":{\"tool_calls\":[{\"index\":0,\"id\":\"a\",\"function\":{\"name\":\"system_info\",\"arguments\":\"{\\\"kind\\\":\"}},{\"index\":1,\"function\":{\"name\":\"board_op\"}}]}}]}\n\ndata: {\"choices\":[{\"delta\":{\"tool_calls\":[{\"index\":0,\"function\":{\"arguments\":\"\\\"cpu\\\"}\"}}]},\"finish_reason\":\"tool_calls\"}]}\n\ndata: [DONE]\n\n";

#[test]
fn openai_calls_are_passed_on_at_the_end() {
    let mut stream = openai::OpenAiStream::new();
    let out = stream.step(&piece(OPENAI_CALLS));
    assert_eq!(out.events.len(), 1);
    let end = stream.step(&StreamInput::End);
    assert_eq!(end.result, Some(Ok(())));
    assert_eq!(end.events.len(), 3);
    match (&end.events[0], &end.events[1], &end.events[2]) {
        (
            AgentEvent::ToolCallReady { id: first, name: first_name, input: first_input },
            AgentEvent::ToolCallReady { id: second, name: second_name, input: second_input },
            AgentEvent::Done { stop_reason },
        ) => {
            assert_eq!((first.as_str(), first_name.as_str()), ("b", "clipboard_op"));
            assert_eq!(*first_input, json("{}"));
            assert_eq!((second.as_str(), second_name.as_str()), ("a", "system_info"));
            assert_eq!(*second_input, json(r#"{"kind": "cpu"}"#));
            assert_eq!(*stop_reason, StopReason::ToolUse);
        }
        other => panic!("{other:?}"),
    }
}

#[test]
fn an_openai_stream_reads_the_same_in_pieces() {
    let mut whole = openai::OpenAiStream::new();
    whole.step(&piece(OPENAI_CALLS));
    let mut stream = openai::OpenAiStream::new();
    for c in OPENAI_CALLS.chars() {
        stream.step(&piece(&c.to_string()));
    }
    assert_eq!(
        shown(&stream.step(&StreamInput::End).events),
        shown(&whole.step(&StreamInput::End).events)
    );
}

const GEMINI_CALLS: &str = "data: {\"candidates\":[{\"finishReason\":\"MAX_TOKENS\",\"content\":{\"parts\":[{\"text\":\"Hm\"},{\"functionCall\":{\"name\":\"read_file\",\"args\":{\"path\":\"a\"}}},{\"functionCall\":{\"name\":\"read_file\"}}]}}]}\n\n";

#[test]
fn gemini_calls_get_identifiers_of_their_own() {
    let mut stream = gemini::GeminiStream::new();
    let out = stream.step(&piece(GEMINI_CALLS));
    assert_eq!(out.events.len(), 3);
    match (&out.events[1], &out.events[2]) {
        (
            AgentEvent::ToolCallReady { id: first, input: first_input, .. },
            AgentEvent::ToolCallReady { id: second, input: second_input, .. },
        ) => {
            assert_eq!(first, "read_file#0");
            assert_eq!(second, "read_file#1");
            assert_eq!(*first_input, json(r#"{"path": "a"}"#));
            assert_eq!(*second_input, json("{}"));
        }
        other => panic!("{other:?}"),
    }
    let end = stream.step(&StreamInput::End);
    assert!(matches!(end.events[0], AgentEvent::Done { stop_reason: StopReason::ToolUse }));
}

#[test]
fn a_gemini_answer_can_be_cut_off() {
    let mut stream = gemini::GeminiStream::new();
    stream.step(&piece("data: {\"candidates\":[{\"finishReason\":\"MAX_TOKENS\"}]}\n\n"));
    let end = stream.step(&StreamInput::End);
    assert!(matches!(end.events[0], AgentEvent::Done { stop_reason: StopReason::MaxTokens }));
}

#[test]
fn a_gemini_stream_reads_the_same_in_pieces() {
    let mut whole = gemini::GeminiStream::new();
    let at_once = shown(&whole.step(&piece(GEMINI_CALLS)).events);
    let mut stream = gemini::GeminiStream::new();
    let mut in_pieces = vec![];
    for c in GEMINI_CALLS.chars() {
        in_pieces.extend(shown(&stream.step(&piece(&c.to_string())).events));
    }
    assert_eq!(in_pieces, at_once);
}

#[test]
fn a_cancelled_stream_fails_with_every_provider() {
    let input = StreamInput::Piece { cancelled: true, read: Ok(ANTHROPIC_CALL.as_bytes().to_vec()) };
    let outs = [
        anthropic::AnthropicStream::new().step(&input),
        openai::OpenAiStream::new().step(&input),
        gemini::GeminiStream::new().step(&input),
    ];
    for out in outs {
        assert!(out.events.is_empty());
        assert_eq!(out.result, Some(Err("cancelled".to_string())));
    }
    let broken = StreamInput::Piece { cancelled: false, read: Err("reset".to_string()) };
    let outs = [
        anthropic::AnthropicStream::new().step(&broken),
        openai::OpenAiStream::new().step(&broken),
        gemini::GeminiStream::new().step(&broken),
    ];
    for out in outs {
        assert_eq!(out.result, Some(Err("stream read error: reset".to_string())));
    }
    assert_eq!(stream_error("reset"), "stream read error: reset");
}

#[test]
fn the_name_of_a_tool_is_read_back() {
    for (i, tool) in all_tools().iter().enumerate() {
        let id = gemini::synthesize_id(tool.name, i as u64);
        assert_eq!(gemini::real_tool_name(&id), tool.name);
    }
    assert_eq!(gemini::real_tool_name("plain"), "plain");
    assert_ne!(gemini::synthesize_id("read_file", 1), gemini::synthesize_id("read_file", 11));
}

fn conversation() -> Vec<AgentMessage> {
    vec![
        AgentMessage::system("be kind"),
        AgentMessage::user_text("look"),
        AgentMessage::assistant(vec![
            AgentContent::Text("looking".to_string()),
            AgentContent::ToolUse {
                id: "capture_screen#0".to_string(),
                name: "capture_screen".to_string(),
                input: json(r#"{"b": 1, "a": 2}"#),
            },
        ]),
        AgentMessage::tool_results(vec![AgentContent::ToolResult {
            tool_use_id: "capture_screen#0".to_string(),
            text: "Screenshot captured.".to_string(),
            image: Some(("image/png", "QUJD".to_string())),
            is_error: false,
        }]),
    ]
}

#[test]
fn anthropic_is_told_the_conversation() {
    let agent = anthropic::AnthropicAgent { api_key: "k".to_string(), model: "gpt".to_string() };
    let request = agent.request(&names(), &conversation(), &all_tools());
    assert_eq!(request.url, "https://api.anthropic.com/v1/messages");
    assert_eq!(request.timeout_secs, REQUEST_TIMEOUT_SECS);
    assert_eq!(
        request.headers,
        vec![("x-api-key", "k".to_string()), ("anthropic-version", "2023-06-01".to_string())]
    );
    let body = &request.body;
    assert_eq!(text_at(body, &["model"]), "family-one");
    assert_eq!(text_at(body, &["system"]), "be kind");
    assert_eq!(text_at(body, &["messages", "0", "role"]), "user");
    assert_eq!(text_at(body, &["messages", "1", "content", "1", "type"]), "tool_use");
    assert_eq!(text_at(body, &["messages", "2", "role"]), "user");
    assert_eq!(
        *at(body, &["messages", "2", "content", "0"]),
        json(r#"{"content": [{"text": "Screenshot captured.", "type": "text"}, {"source": {"data": "QUJD", "media_type": "image/png", "type": "base64"}, "type": "image"}], "is_error": false, "tool_use_id": "capture_screen#0", "type": "tool_result"}"#)
            .reordered(&["type", "tool_use_id", "content", "is_error"])
    );
    assert_eq!(at(body, &["max_tokens"]).as_u64(), Some(1024));
    assert_eq!(at(body, &["stream"]).as_bool(), Some(true));
    assert_eq!(text_at(body, &["tools", "0", "name"]), "launch_or_focus_app");
}

/// The entries of objects in the orders in which requests hold them.
trait Reordered {
    fn reordered(self, order: &[&str]) -> Json;
}

impl Reordered for Json {
    fn reordered(self, order: &[&str]) -> Json {
        match self {
            Json::Object(entries) => {
                let mut out: Vec<(String, Json)> = vec![];
                for key in order {
                    for (k, v) in &entries {
                        if k == key {
                            let v = match (k.as_str(), v.clone()) {
                                ("content", Json::Array(items)) => Json::Array(
                                    items
                                        .into_iter()
                                        .map(|i| i.reordered(&["type", "text", "source"]))
                                        .collect(),
                                ),
                                ("source", source) => source.reordered(&["type", "media_type", "data"]),
                                (_, other) => other,
                            };
                            out.push((k.clone(), v));
                        }
                    }
                }
                Json::Object(out)
            }
            other => other,
        }
    }
}

#[test]
fn openai_is_told_the_conversation() {
    let agent = openai::OpenAiAgent { api_key: "k".to_string(), model: "gpt-4o-mini".to_string() };
    let request = agent.request(&conversation(), &all_tools());
    assert_eq!(request.url, "https://api.openai.com/v1/chat/completions");
    assert_eq!(request.headers, vec![("Authorization", "Bearer k".to_string())]);
    let body = &request.body;
    assert_eq!(text_at(body, &["model"]), "gpt-4o-mini");
    assert_eq!(text_at(body, &["messages", "0", "role"]), "system");
    assert_eq!(text_at(body, &["messages", "2", "content"]), "looking");
    assert_eq!(
        text_at(body, &["messages", "2", "tool_calls", "0", "function", "arguments"]),
        "{\"a\":2,\"b\":1}"
    );
    assert_eq!(text_at(body, &["messages", "3", "role"]), "tool");
    assert_eq!(text_at(body, &["messages", "3", "tool_call_id"]), "capture_screen#0");
    assert_eq!(text_at(body, &["messages", "4", "role"]), "user");
    assert_eq!(
        text_at(body, &["messages", "4", "content", "1", "image_url", "url"]),
        "data:image/png;base64,QUJD"
    );
    assert_eq!(text_at(body, &["tools", "0", "type"]), "function");
}

#[test]
fn an_assistant_without_a_text_says_nothing() {
    let messages = openai::messages_to_openai(&vec![AgentMessage::assistant(vec![])]);
    assert_eq!(*at(&messages[0], &["content"]), Json::Null);
    assert!(messages[0].get("tool_calls").is_none());
    assert!(openai::messages_to_openai(&vec![AgentMessage::tool_results(vec![])]).is_empty());
}

#[test]
fn gemini_is_told_the_conversation() {
    let agent = gemini::GeminiAgent { api_key: "k".to_string(), model: String::new() };
    let request = agent.request(&conversation(), &all_tools());
    assert_eq!(
        request.url,
        "https://generativelanguage.googleapis.com/v1beta/models/gemini-3.6-flash:streamGenerateContent?alt=sse&key=k"
    );
    let body = &request.body;
    assert_eq!(text_at(body, &["systemInstruction", "parts", "0", "text"]), "be kind");
    assert_eq!(text_at(body, &["contents", "1", "role"]), "model");
    assert_eq!(text_at(body, &["contents", "1", "parts", "1", "functionCall", "name"]), "capture_screen");
    assert_eq!(
        text_at(body, &["contents", "2", "parts", "0", "functionResponse", "name"]),
        "capture_screen"
    );
    assert_eq!(
        text_at(body, &["contents", "2", "parts", "0", "functionResponse", "response", "result"]),
        "Screenshot captured."
    );
    assert_eq!(text_at(body, &["contents", "2", "parts", "1", "inlineData", "data"]), "QUJD");
    assert_eq!(text_at(body, &["generationConfig", "thinkingConfig", "thinkingLevel"]), "MINIMAL");
    assert_eq!(text_at(body, &["tools", "0", "functionDeclarations", "0", "name"]), "launch_or_focus_app");
}

fn client(name: &str) -> DirectLlmClient {
    DirectLlmClient::new(&Some(name.to_string()), Ok(Some("k".to_string())), names()).unwrap()
}

fn asked() -> Generation {
    Generation { messages: vec![system("sys"), user("hi")], temperature: half(), max_tokens: 7 }
}

#[test]
fn every_client_asks_its_provider() {
    let request = client("openai").request(asked(), false);
    assert_eq!(text_at(&request.body, &["messages", "0", "role"]), "system");
    assert_eq!(at(&request.body, &["stream"]).as_bool(), Some(false));
    let request = client("anthropic").request(asked(), true);
    assert_eq!(text_at(&request.body, &["system"]), "sys");
    assert_eq!(at(&request.body, &["stream"]).as_bool(), Some(true));
    assert_eq!(at(&request.body, &["max_tokens"]).as_u64(), Some(7));
    let request = client("anthropic").request(asked(), false);
    assert!(request.body.get("stream").is_none());
    let request = client("gemini").request(asked(), false);
    assert_eq!(
        request.url,
        "https://generativelanguage.googleapis.com/v1beta/models/gemini-3.6-flash:generateContent?key=k"
    );
    assert!(request.headers.is_empty());
}

#[test]
fn every_client_reads_its_answers() {
    let openai_body = Ok(r#"{"choices": [{"message": {"content": "A"}}]}"#.to_string());
    assert_eq!(client("openai").read_generated(200, &openai_body), Ok("A".to_string()));
    let anthropic_body = Ok(
        r#"{"content": [{"type": "text", "text": "B"}, {"type": "tool_use"}, {"type": "text", "text": "C"}]}"#
            .to_string(),
    );
    assert_eq!(client("anthropic").read_generated(200, &anthropic_body), Ok("BC".to_string()));
    let gemini_body = Ok(r#"{"candidates": [{"content": {"parts": [{"text": "D"}]}}]}"#.to_string());
    assert_eq!(client("gemini").read_generated(200, &gemini_body), Ok("D".to_string()));
    assert_eq!(
        client("gemini").read_generated(404, &Ok("gone".to_string())),
        Err("Gemini returned 404 Not Found: gone".to_string())
    );
    assert_eq!(
        client("openai").read_generated(599, &Err("cut".to_string())),
        Err("OpenAI returned 599 <unknown status code>: ".to_string())
    );
    assert_eq!(
        client("openai").read_generated(200, &Ok("oops".to_string())),
        Err("OpenAI returned an unexpected response: error decoding response body".to_string())
    );
    assert_eq!(
        client("openai").read_generated(200, &Err("cut".to_string())),
        Err("OpenAI returned an unexpected response: cut".to_string())
    );
    assert_eq!(client("openai").unreachable("dns"), "failed to reach OpenAI: dns");
    assert_eq!(unreachable_message("X", "dns"), "failed to reach X: dns");
    assert_eq!(check_status("X", 204, ""), Ok(()));
    assert!(read_answer("X", 200, &Ok("1".to_string())).is_ok());
}

#[test]
fn every_client_drains_its_stream() {
    let mut buffer = "data: {\"choices\":[{\"delta\":{\"content\":\"A\"}}]}\ndata: {}\ndata: x".to_string();
    assert_eq!(client("openai").drain_deltas(&mut buffer), vec!["A"]);
    assert_eq!(buffer, "data: x");
    let mut buffer = "data: {\"candidates\":[{\"content\":{\"parts\":[{\"text\":\"B\"}]}}]}\n\n".to_string();
    assert_eq!(client("gemini").drain_deltas(&mut buffer), vec!["B"]);
    assert_eq!(buffer, "");
}

fn question(id: &str) -> WireQuestionAnswer {
    WireQuestionAnswer {
        question_id: id.to_string(),
        question: format!("Question {id}?"),
        candidate_answer: "An answer".to_string(),
        timestamp: "00:00:01".to_string(),
        retrieved_context: vec![],
    }
}

fn interview(questions: usize) -> InterviewAnalysisRequest {
    InterviewAnalysisRequest {
        session_id: "s".to_string(),
        role: None,
        company: None,
        job_description: None,
        question_answers: (0..questions).map(|i| question(&i.to_string())).collect(),
    }
}

#[test]
fn an_interview_without_questions_is_done_at_once() {
    let (_run, step) = AnalysisRun::start(interview(0));
    let stages: Vec<&str> = step.events.iter().map(|e| e.stage.as_str()).collect();
    assert_eq!(stages, vec!["transcript", "retrieval", "overall", "complete"]);
    match step.action {
        AnalysisAction::Done(result) => assert_eq!(result.status, "completed"),
        AnalysisAction::Ask(_) => panic!("nothing to ask"),
    }
}

#[test]
fn every_question_is_asked_once_and_then_the_whole() {
    let (mut run, first) = AnalysisRun::start(interview(2));
    assert_eq!(first.events[1].detail, "Retrieved context for 2 questions.");
    assert_eq!(first.events[2].detail, "Analyzing question 1 of 2...");
    match &first.action {
        AnalysisAction::Ask(g) => {
            assert!(g.messages[1].content.contains("Question 0?"));
            assert_eq!(g.max_tokens, 1500);
            assert_eq!(
                g.temperature,
                Json::Number(JsonNumber::Float {
                    bits: (0.2f32 as f64).to_bits(),
                    text: (0.2f32 as f64).to_string(),
                })
            );
        }
        AnalysisAction::Done(_) => panic!("there is a question"),
    }
    let second = run.step(Ok(r#"{"assessment": "Good", "score": 80}"#.to_string()));
    assert_eq!(second.events[0].detail, "Completed question 1 of 2.");
    assert_eq!(second.events[0].question_analysis.as_ref().unwrap().score, 80);
    assert_eq!(second.events[1].detail, "Analyzing question 2 of 2...");
    let third = run.step(Err("timeout".to_string()));
    assert_eq!(third.events[1].stage, "overall");
    let last = run.step(Ok("no json".to_string()));
    assert_eq!(last.events[0].stage, "complete");
    match last.action {
        AnalysisAction::Done(result) => {
            assert_eq!(result.status, "partial");
            assert_eq!(result.overall_score, 80);
            assert_eq!(result.questions.len(), 2);
            assert!(result.questions[1].failed);
        }
        AnalysisAction::Ask(_) => panic!("all has been asked"),
    }
}

#[test]
fn no_more_questions_are_analysed_than_fit() {
    let (mut run, first) = AnalysisRun::start(interview(MAX_QUESTIONS_TO_ANALYZE + 3));
    assert_eq!(first.events[1].detail, "Retrieved context for 50 questions.");
    for _ in 0..MAX_QUESTIONS_TO_ANALYZE {
        let step = run.step(Err("x".to_string()));
        assert!(matches!(step.action, AnalysisAction::Ask(_)));
    }
    assert!(matches!(run.step(Err("x".to_string())).action, AnalysisAction::Done(_)));
}

#[test]
fn a_whole_analysis_is_read() {
    let raw = r#"{"overall_score": 70, "technical_score": 71, "communication_score": 72, "practical_experience_score": 73, "confidence_score": 74, "summary": "ok"}"#;
    let result = finalize(&vec![], "s", Ok(raw.to_string()));
    assert_eq!(result.status, "completed");
    assert_eq!(result.confidence_score, 74);
}

#[test]
fn questions_are_put_with_their_budgets() {
    let request = AskRequest {
        question: "What is Rust?".to_string(),
        conversation_history: vec![],
        retrieved_context: vec![],
        candidate_context: None,
        role: None,
        job_description: None,
        answer_length: "default".to_string(),
        response_style: "natural".to_string(),
        english_level: "simple".to_string(),
        humanization: "natural".to_string(),
        llm_provider: None,
    };
    let g = ask_generation(&request);
    assert_eq!(g.max_tokens, 90);
    assert_eq!(
        g.temperature,
        Json::Number(JsonNumber::Float {
            bits: (0.65f32 as f64).to_bits(),
            text: (0.65f32 as f64).to_string(),
        })
    );
    assert_eq!(answer_of(Ok("  yes \n".to_string())), Ok("yes".to_string()));
    assert_eq!(answer_of(Err("no".to_string())), Err("no".to_string()));
    let notes = NotesAskRequest { question: "q".to_string(), notes: vec![] };
    assert_eq!(notes_ask_generation(&notes).max_tokens, 250);
    let note = NotesSummaryRequest { title: None, body: "b".to_string() };
    assert_eq!(notes_summary_generation(&note).max_tokens, 1500);
    assert_eq!(note_summary_of(Ok(r#"{"summary": "s"}"#.to_string())).summary, "s");
    assert_eq!(
        note_summary_of(Err("down".to_string())).message,
        "AI summary could not be generated (down)."
    );
    let nothing = SetupAnalysisRequest { resume_text: None, job_description_text: None };
    assert!(setup_generation(&nothing).is_none());
    assert_eq!(setup_of(None).job_title, None);
    let resume = SetupAnalysisRequest {
        resume_text: Some("Engineer".to_string()),
        job_description_text: None,
    };
    let g = setup_generation(&resume).unwrap();
    assert_eq!(g.max_tokens, 1100);
    assert_eq!(
        g.temperature,
        Json::Number(JsonNumber::Float {
            bits: (0.1f32 as f64).to_bits(),
            text: (0.1f32 as f64).to_string(),
        })
    );
    assert_eq!(
        setup_of(Some(Ok(r#"{"company": "Acme"}"#.to_string()))).company,
        Some("Acme".to_string())
    );
    assert_eq!(setup_of(Some(Err("down".to_string()))).company, None);
}
