use smallbird_local::actions::{Capability, FileOp, RiskLevel, StorageOp};
use smallbird_local::agent::orchestrator::{
    finish_tool_call, prepare_tool_call, AgentOutcome, AgentRun, LoopAction, LoopInput,
    PreparedCall, ToolCall, ToolCallOutcome, ToolOutcome, MAX_ITERATIONS,
};
use smallbird_local::agent::tool_list::all_tools;
use smallbird_local::agent::tool_schema::{parse_tool_call, progress_message};
use smallbird_local::agent::types::{AgentContent, AgentEvent, AgentMessage, AgentRole, StopReason};
use smallbird_local::json::{parse_json, Json};
use smallbird_local::working_state::WorkingState;

fn json(text: &str) -> Json {
    parse_json(text).unwrap()
}

struct Ran {
    result: Result<AgentOutcome, String>,
    collected: String,
    progress: Vec<String>,
    model_calls: usize,
}

/// Runs the loop against scripted answers of the model; each batch comes with
/// how its stream ended.
fn run_loop(
    mut batches: Vec<(Vec<AgentEvent>, Result<(), String>)>,
    messages: Vec<AgentMessage>,
    cancelled: bool,
    tool: &dyn Fn(&ToolCall) -> ToolCallOutcome,
) -> Ran {
    let mut run = AgentRun::start(messages);
    let mut ran = Ran {
        result: Err("not run".to_string()),
        collected: String::new(),
        progress: vec![],
        model_calls: 0,
    };
    let mut action = run.step(LoopInput::Proceed { cancelled });
    loop {
        match action {
            LoopAction::AskModel => {
                ran.model_calls += 1;
                let (events, end) = if batches.is_empty() {
                    (vec![], Ok(()))
                } else {
                    batches.remove(0)
                };
                for event in events {
                    match run.step(LoopInput::Event(event)) {
                        LoopAction::Deliver(text) => ran.collected.push_str(&text),
                        LoopAction::Wait => {}
                        _ => panic!("an event is delivered or waited for"),
                    }
                }
                action = run.step(LoopInput::StreamEnded(end));
            }
            LoopAction::CheckCancelled => action = run.step(LoopInput::Proceed { cancelled }),
            LoopAction::RunTool { progress, call } => {
                ran.progress.push(progress);
                let outcome = tool(&call);
                action = run.step(LoopInput::ToolDone(outcome));
            }
            LoopAction::Finish(result) => {
                ran.result = result;
                return ran;
            }
            LoopAction::Deliver(_) | LoopAction::Wait => panic!("the loop stands still"),
        }
    }
}

fn done(text: &str) -> ToolCallOutcome {
    finish_tool_call(Ok(ToolOutcome::Text(text.to_string())))
}

fn text_only(text: &str) -> Vec<(Vec<AgentEvent>, Result<(), String>)> {
    vec![(
        vec![
            AgentEvent::TextDelta(text.to_string()),
            AgentEvent::Done { stop_reason: StopReason::EndTurn },
        ],
        Ok(()),
    )]
}

fn wants_time(id: &str) -> (Vec<AgentEvent>, Result<(), String>) {
    (
        vec![
            AgentEvent::ToolCallReady {
                id: id.to_string(),
                name: "system_info".to_string(),
                input: json(r#"{"kind": "time"}"#),
            },
            AgentEvent::Done { stop_reason: StopReason::ToolUse },
        ],
        Ok(()),
    )
}

#[test]
fn a_plain_text_answer_stops_after_one_iteration() {
    let ran = run_loop(
        text_only("Hello there."),
        vec![AgentMessage::user_text("hi")],
        false,
        &|_| done("unused"),
    );
    let outcome = ran.result.unwrap();
    assert_eq!(outcome.final_text, "Hello there.");
    assert_eq!(ran.collected, "Hello there.");
    assert_eq!(outcome.iterations_used, 1);
    assert!(outcome.actions_taken.is_empty());
}

#[test]
fn a_tool_call_then_final_answer_takes_two_iterations() {
    let ran = run_loop(
        vec![
            wants_time("1"),
            (
                vec![
                    AgentEvent::TextDelta("It's now.".to_string()),
                    AgentEvent::Done { stop_reason: StopReason::EndTurn },
                ],
                Ok(()),
            ),
        ],
        vec![AgentMessage::user_text("what time is it")],
        false,
        &|_| done("12:00"),
    );
    let outcome = ran.result.unwrap();
    assert_eq!(outcome.iterations_used, 2);
    assert_eq!(outcome.final_text, "It's now.");
    assert_eq!(outcome.actions_taken.len(), 1);
    assert!(outcome.actions_taken[0].starts_with("system_info"));
}

#[test]
fn cancellation_stops_the_loop_before_the_next_iteration() {
    let ran = run_loop(
        vec![wants_time("1")],
        vec![AgentMessage::user_text("what time is it")],
        true,
        &|_| done("12:00"),
    );
    assert!(ran.result.is_err());
    assert_eq!(ran.model_calls, 0);
}

#[test]
fn a_provider_cancelled_mid_stream_never_returns_its_partial_text_as_a_real_answer() {
    let ran = run_loop(
        vec![(
            vec![AgentEvent::TextDelta("This looks like a real an".to_string())],
            Err("cancelled".to_string()),
        )],
        vec![AgentMessage::user_text("hi")],
        false,
        &|_| done("unused"),
    );
    assert!(ran.result.is_err());
    assert_eq!(ran.result.unwrap_err(), "cancelled");
    assert_eq!(ran.collected, "This looks like a real an");
}

#[test]
fn a_provider_that_always_wants_a_tool_is_bounded_by_max_iterations() {
    let ran = run_loop(
        (0..100).map(|_| wants_time("x")).collect(),
        vec![AgentMessage::user_text("loop forever")],
        false,
        &|_| done("12:00"),
    );
    let outcome = ran.result.unwrap();
    assert_eq!(outcome.iterations_used, MAX_ITERATIONS);
    assert_eq!(ran.model_calls, MAX_ITERATIONS);
}

#[test]
fn execute_one_tool_call_reports_unknown_tool_as_an_error_result() {
    match prepare_tool_call("not_a_real_tool", &json("{}"), &WorkingState::default()) {
        PreparedCall::Answer(outcome) => {
            assert!(matches!(outcome, ToolCallOutcome::Done { is_error: true, .. }));
        }
        PreparedCall::Run(_) => panic!("an unknown tool is not run"),
    }
}

fn delete_file_batch() -> Vec<(Vec<AgentEvent>, Result<(), String>)> {
    vec![(
        vec![
            AgentEvent::ToolCallReady {
                id: "1".to_string(),
                name: "delete_file".to_string(),
                input: json(r#"{"path": "x.txt"}"#),
            },
            AgentEvent::Done { stop_reason: StopReason::ToolUse },
        ],
        Ok(()),
    )]
}

#[test]
fn a_destructive_tool_call_pauses_the_loop_with_no_premature_tool_result() {
    let ran = run_loop(
        delete_file_batch(),
        vec![AgentMessage::user_text("delete that file")],
        false,
        &|call| match prepare_tool_call(&call.name, &call.input, &WorkingState::default()) {
            PreparedCall::Run(capability) => finish_tool_call(Ok(ToolOutcome::NeedsConfirmation {
                capability,
                risk: RiskLevel::Destructive,
                voice_prompt: "Should I delete it?".to_string(),
            })),
            PreparedCall::Answer(outcome) => outcome,
        },
    );
    let outcome = ran.result.unwrap();
    let pending = outcome.pending_confirmation.expect("expected a pending confirmation");
    assert_eq!(pending.tool_name, "delete_file");
    assert_eq!(pending.risk, RiskLevel::Destructive);
    assert_eq!(
        pending.capability,
        Capability::StorageOp(StorageOp::DeleteFile { path: "x.txt".to_string() })
    );
    let last = outcome.messages.last().unwrap();
    assert!(matches!(last.content.last(), Some(AgentContent::ToolUse { .. })));
    assert!(outcome.actions_taken.is_empty());
}

fn confirmed_history(text: &str) -> Vec<AgentMessage> {
    vec![
        AgentMessage::user_text("delete that file"),
        AgentMessage::assistant(vec![AgentContent::ToolUse {
            id: "1".to_string(),
            name: "delete_file".to_string(),
            input: json(r#"{"path": "x.txt"}"#),
        }]),
        AgentMessage::tool_results(vec![AgentContent::ToolResult {
            tool_use_id: "1".to_string(),
            text: text.to_string(),
            image: None,
            is_error: false,
        }]),
    ]
}

#[test]
fn resuming_after_confirmation_continues_the_loop_from_the_paused_point() {
    let ran = run_loop(
        text_only("Done — it's deleted."),
        confirmed_history("Sent \"x.txt\" to the Recycle Bin."),
        false,
        &|_| done("unused"),
    );
    let outcome = ran.result.unwrap();
    assert_eq!(outcome.final_text, "Done — it's deleted.");
    assert!(outcome.pending_confirmation.is_none());
}

#[test]
fn cancellation_during_a_pending_confirmation_wait_does_not_resume_it() {
    let ran = run_loop(text_only("Done."), confirmed_history("deleted"), true, &|_| done("unused"));
    assert!(ran.result.is_err());
}

#[test]
fn a_tool_call_with_an_omitted_field_resolves_it_from_working_state() {
    let mut context = WorkingState::default();
    context.note_context(None, None, Some("notes.txt".to_string()), None);
    let ran = run_loop(
        vec![
            (
                vec![
                    AgentEvent::ToolCallReady {
                        id: "1".to_string(),
                        name: "read_file".to_string(),
                        input: json("{}"),
                    },
                    AgentEvent::Done { stop_reason: StopReason::ToolUse },
                ],
                Ok(()),
            ),
            (
                vec![
                    AgentEvent::TextDelta("It says hello.".to_string()),
                    AgentEvent::Done { stop_reason: StopReason::EndTurn },
                ],
                Ok(()),
            ),
        ],
        vec![AgentMessage::user_text("read that file")],
        false,
        &|call| match prepare_tool_call(&call.name, &call.input, &context) {
            PreparedCall::Run(Capability::FileOp(FileOp::ReadFile { path })) if path == "notes.txt" => {
                done("hello")
            }
            _ => done("the path was not resolved"),
        },
    );
    let outcome = ran.result.unwrap();
    assert!(outcome.actions_taken[0].contains("hello"));
}

#[test]
fn every_call_of_an_answer_is_answered_in_its_order() {
    let mut first = wants_time("a");
    first.0.insert(
        1,
        AgentEvent::ToolCallReady {
            id: "b".to_string(),
            name: "clipboard_op".to_string(),
            input: json(r#"{"op": "read"}"#),
        },
    );
    let ran = run_loop(
        vec![first],
        vec![AgentMessage::user_text("both")],
        false,
        &|call| done(&call.id),
    );
    let outcome = ran.result.unwrap();
    assert_eq!(outcome.messages.len(), 3);
    assert_eq!(outcome.messages[1].role, AgentRole::Assistant);
    let results: Vec<(String, String)> = outcome.messages[2]
        .content
        .iter()
        .map(|c| match c {
            AgentContent::ToolResult { tool_use_id, text, .. } => (tool_use_id.clone(), text.clone()),
            _ => panic!("only results"),
        })
        .collect();
    assert_eq!(
        results,
        vec![("a".to_string(), "a".to_string()), ("b".to_string(), "b".to_string())]
    );
    assert_eq!(ran.progress.len(), 2);
}

#[test]
fn a_screenshot_is_handed_back_in_base64() {
    let outcome = finish_tool_call(Ok(ToolOutcome::Image {
        media_type: "image/png",
        png_bytes: vec![1, 2, 3, 4],
    }));
    match outcome {
        ToolCallOutcome::Done { text, image, is_error } => {
            assert_eq!(text, "Screenshot captured.");
            assert_eq!(image, Some(("image/png", "AQIDBA==".to_string())));
            assert!(!is_error);
        }
        ToolCallOutcome::NeedsConfirmation { .. } => panic!("nothing to confirm"),
    }
}

#[test]
fn a_failed_tool_is_reported_with_its_message() {
    match finish_tool_call(Err("no such file".to_string())) {
        ToolCallOutcome::Done { text, image, is_error } => {
            assert_eq!(text, "no such file");
            assert_eq!(image, None);
            assert!(is_error);
        }
        ToolCallOutcome::NeedsConfirmation { .. } => panic!("nothing to confirm"),
    }
}

fn ctx() -> WorkingState {
    WorkingState::default()
}

#[test]
fn every_tool_name_round_trips_through_parse_tool_call_with_minimal_valid_args() {
    let cases: Vec<(&str, Json)> = vec![
        ("launch_or_focus_app", json(r#"{"name": "VS Code"}"#)),
        ("launch_app_with_arg", json(r#"{"app": "VS Code", "arg": "C:\\proj"}"#)),
        ("open_path", json(r#"{"target": "report.pdf"}"#)),
        ("window_op", json(r#"{"op": "focus", "target": "Chrome"}"#)),
        ("window_query", json(r#"{"kind": "list_open"}"#)),
        ("system_info", json(r#"{"kind": "cpu"}"#)),
        ("volume_op", json(r#"{"op": "set", "percent": 40}"#)),
        ("clipboard_op", json(r#"{"op": "read"}"#)),
        ("capture_screen", json("{}")),
        ("search_knowledge_base", json(r#"{"query": "python experience"}"#)),
        ("create_folder", json(r#"{"path": "C:\\scratch"}"#)),
        ("create_file", json(r#"{"path": "C:\\scratch\\a.txt"}"#)),
        ("write_file", json(r#"{"path": "C:\\scratch\\a.txt", "content": "hi"}"#)),
        ("read_file", json(r#"{"path": "C:\\scratch\\a.txt"}"#)),
        ("list_folder", json(r#"{"path": "C:\\scratch"}"#)),
        ("search_files", json(r#"{"root": "C:\\", "query": "auth"}"#)),
        ("largest_files", json(r#"{"root": "C:\\", "top_n": 10}"#)),
        ("disk_usage", json(r#"{"drive": "C:"}"#)),
        ("delete_file", json(r#"{"path": "C:\\scratch\\a.txt"}"#)),
        ("move_or_rename", json(r#"{"from": "a.txt", "to": "b.txt"}"#)),
        ("process_query", json(r#"{"kind": "list"}"#)),
        ("kill_process", json(r#"{"pid": 1234}"#)),
        ("network_query", json(r#"{"kind": "status"}"#)),
        ("run_terminal_command", json(r#"{"command": "dir"}"#)),
    ];
    for (name, input) in cases {
        assert!(
            parse_tool_call(name, &input, &ctx()).is_ok(),
            "tool {name} should parse with valid args"
        );
    }
}

#[test]
fn missing_required_field_is_an_error_not_a_panic() {
    assert!(parse_tool_call("launch_or_focus_app", &json("{}"), &ctx()).is_err());
    assert!(parse_tool_call("volume_op", &json(r#"{"op": "set"}"#), &ctx()).is_err());
}

#[test]
fn unknown_tool_name_is_an_error() {
    assert!(parse_tool_call("delete_everything", &json("{}"), &ctx()).is_err());
}

#[test]
fn parse_tool_call_falls_back_to_working_state_for_omitted_path() {
    let mut context = WorkingState::default();
    context.note_context(None, None, Some("C:\\scratch\\notes.txt".to_string()), None);
    let capability = parse_tool_call("read_file", &json("{}"), &context).unwrap();
    assert_eq!(
        capability,
        Capability::FileOp(FileOp::ReadFile { path: "C:\\scratch\\notes.txt".to_string() })
    );
}

#[test]
fn parse_tool_call_errors_clearly_when_omitted_and_no_context_available() {
    let result = parse_tool_call("read_file", &json("{}"), &WorkingState::default());
    assert!(result.is_err());
}

#[test]
fn progress_message_never_leaks_raw_tool_names_or_json() {
    for (name, input) in [
        ("launch_or_focus_app", json(r#"{"name": "VS Code"}"#)),
        ("launch_app_with_arg", json(r#"{"app": "VS Code", "arg": "C:\\proj"}"#)),
        ("open_path", json(r#"{"target": "report.pdf"}"#)),
        ("window_op", json(r#"{"op": "focus"}"#)),
        ("window_query", json(r#"{"kind": "list_open"}"#)),
        ("system_info", json(r#"{"kind": "cpu"}"#)),
        ("volume_op", json(r#"{"op": "up"}"#)),
        ("clipboard_op", json(r#"{"op": "read"}"#)),
        ("capture_screen", json("{}")),
        ("search_knowledge_base", json(r#"{"query": "resume"}"#)),
        ("create_folder", json(r#"{"path": "C:\\scratch"}"#)),
        ("create_file", json(r#"{"path": "a.txt"}"#)),
        ("write_file", json(r#"{"content": "hi"}"#)),
        ("read_file", json("{}")),
        ("list_folder", json("{}")),
        ("search_files", json(r#"{"root": "C:\\", "query": "auth"}"#)),
        ("largest_files", json(r#"{"root": "C:\\", "top_n": 10}"#)),
        ("disk_usage", json("{}")),
        ("delete_file", json("{}")),
        ("move_or_rename", json(r#"{"to": "b.txt"}"#)),
        ("process_query", json(r#"{"kind": "list"}"#)),
        ("kill_process", json(r#"{"pid": 1234}"#)),
        ("network_query", json(r#"{"kind": "status"}"#)),
        ("run_terminal_command", json(r#"{"command": "dir"}"#)),
        ("some_unknown_tool", json(r#"{"weird": "shape"}"#)),
    ] {
        let msg = progress_message(name, &input);
        assert!(!msg.contains('{'), "progress message for {name} must not contain raw JSON: {msg:?}");
        assert!(
            !msg.contains(name) || name == "launch_or_focus_app",
            "progress message for {name} should not echo the raw tool name: {msg:?}"
        );
    }
}

#[test]
fn all_tools_have_unique_names_matching_the_parser() {
    let tools = all_tools();
    let mut names: Vec<&str> = tools.iter().map(|t| t.name).collect();
    let original_len = names.len();
    names.sort();
    names.dedup();
    assert_eq!(names.len(), original_len, "tool names must be unique");
    for tool in &tools {
        let result = parse_tool_call(tool.name, &json("{}"), &ctx());
        if let Err(e) = result {
            assert!(
                !e.starts_with("unknown tool"),
                "tool {} is declared but not handled by parse_tool_call",
                tool.name
            );
        }
    }
}

#[test]
fn pronoun_fallback_resolves_across_every_applicable_tool() {
    let mut context = WorkingState::default();
    context.note_context(
        None,
        None,
        Some("C:\\scratch\\notes.txt".to_string()),
        Some("C:\\scratch".to_string()),
    );
    for (name, input) in [
        ("read_file", json("{}")),
        ("write_file", json(r#"{"content": "hi"}"#)),
        ("delete_file", json("{}")),
        ("move_or_rename", json(r#"{"to": "b.txt"}"#)),
        ("list_folder", json("{}")),
    ] {
        assert!(
            parse_tool_call(name, &input, &context).is_ok(),
            "tool {name} should resolve its omitted path from WorkingState"
        );
    }
}

#[test]
fn an_unknown_tool_is_named_in_the_error() {
    let e = parse_tool_call("delete_everything", &json("{}"), &ctx()).unwrap_err();
    assert!(e.starts_with("unknown tool"));
    assert!(e.contains("delete_everything"));
}
