use smallbird_local::actions::{Capability, RiskLevel, StorageOp, TaskControlOp};
use smallbird_local::agent::orchestrator::{AgentOutcome, PendingToolConfirmation, ToolOutcome};
use smallbird_local::agent::types::{AgentContent, AgentMessage, AgentRole};
use smallbird_local::audio::AudioSource;
use smallbird_local::backend::MeetingSummary;
use smallbird_local::float_order::is_less;
use smallbird_local::ids::new_id;
use smallbird_local::json::{json_text, parse_json, Json};
use smallbird_local::meeting_mode::{
    MeetingAskOptions, MeetingHistoryStore, MeetingHistoryTurn, MeetingItemKind, MeetingSession,
    MeetingTurnPayload,
};
use smallbird_local::newest_first::order_by_time;
use smallbird_local::notes_mode::{
    DictationBuffer, DictationSession, NoteChanges, NotesStore,
};
use smallbird_local::overlay_window::{
    app_was_fully_hidden, close_overlay_window, show_overlay_window, show_widget,
    start_backend_session, toggle_overlay_window, wake_veronica, WindowAction,
};
use smallbird_local::rag::client::{
    answer_error, document_text, unexpected_error, unreachable_error, urlencode, PlainRequest,
    RagClient,
};
use smallbird_local::rag::process::{
    token_text, wait_until_healthy, wait_until_healthy_default, EmbedProcessConfig,
    RagServiceHandle, WaitAction, WaitInput,
};
use smallbird_local::rag::retrieval_planner::{
    truncate_chunk_text, RetrievalPlanner, MAX_CHUNK_CHARS,
};
use smallbird_local::rag::types::{SearchResultItem, SearchResultMetadata};
use smallbird_local::state::{
    AppState, AskClaims, CancelFlags, CancelToken, MicMuteSignal, MuteFlags, SelectedDevices,
};
use smallbird_local::stt::events::{SttEvent, SttEventKind};
use smallbird_local::transcript::{InterviewSession, TranscriptManager};
use smallbird_local::veronica::turn::{
    awaits_consent, conclude, opening, respond_to_confirmation, Assistant, ContextUpdate, Effect,
    LanguageDecision, PendingConfirmation, Turn, TurnEvent, TurnInput, TurnRequest, TurnStep,
};
use smallbird_local::veronica::{
    accept_question, build_system_message, confirmation_summary, dispatch_task_control,
    pick_greeting, plan_voice, risk_wire_label, trim_history, try_interrupt, AskOptions, PriorTurn,
    VoicePlan, MAX_HISTORY_TURNS,
};
use smallbird_local::voice_command::{
    min_flush_worthy_audio, tts_settle_duration, MicAssistantSession, MicChunk, MicPump,
};
use smallbird_local::working_state::{TaskStatus, WorkingState, MAX_RECENT_ACTIONS};

#[test]
fn fresh_state_renders_no_context_block() {
    assert_eq!(WorkingState::default().render_context_block(), None);
}

#[test]
fn record_action_sets_last_result_and_appends_to_recent() {
    let mut ws = WorkingState::default();
    ws.record_action("opened VS Code", "Opening VS Code.");
    assert_eq!(ws.last_result.as_deref(), Some("Opening VS Code."));
    assert_eq!(ws.recent_actions.len(), 1);
}

#[test]
fn recent_actions_trims_to_max() {
    let mut ws = WorkingState::default();
    for i in 0..(MAX_RECENT_ACTIONS + 5) {
        ws.record_action(&format!("action {i}"), &format!("result {i}"));
    }
    assert_eq!(ws.recent_actions.len(), MAX_RECENT_ACTIONS);
    assert_eq!(ws.recent_actions.back().unwrap(), &format!("action {}", MAX_RECENT_ACTIONS + 4));
}

#[test]
fn pause_then_resume_round_trips_status() {
    let mut ws = WorkingState::default();
    ws.start_task("find and fix the bug");
    assert_eq!(ws.current_task.as_ref().unwrap().status, TaskStatus::Active);
    ws.pause_task();
    assert_eq!(ws.current_task.as_ref().unwrap().status, TaskStatus::Paused);
    ws.resume_task();
    assert_eq!(ws.current_task.as_ref().unwrap().status, TaskStatus::Active);
}

#[test]
fn pause_with_no_active_task_is_a_harmless_no_op() {
    let mut ws = WorkingState::default();
    ws.pause_task();
    assert!(ws.current_task.is_none());
}

#[test]
fn context_block_includes_task_and_recent_actions() {
    let mut ws = WorkingState::default();
    ws.start_task("find the authentication problem and fix it");
    ws.record_action("searched code", "found the issue in auth.rs");
    let block = ws.render_context_block().unwrap();
    assert!(block.contains("find the authentication problem and fix it"));
    assert!(block.contains("found the issue in auth.rs"));
}

fn result(text: &str, score: f64) -> SearchResultItem {
    SearchResultItem {
        chunk_id: format!("chunk-{text}"),
        score: score.to_bits(),
        text: text.to_string(),
        metadata: SearchResultMetadata {
            filename: "test.pdf".to_string(),
            document_type: "PROJECT".to_string(),
        },
    }
}

fn planner() -> RetrievalPlanner {
    RetrievalPlanner::new()
}

#[test]
fn filters_out_results_below_similarity_threshold() {
    let p = planner();
    let results = vec![result("relevant", 0.8), result("irrelevant", 0.1)];
    let kept = p.filter_and_limit(results);
    assert_eq!(kept.len(), 1);
    assert_eq!(kept[0].text, "relevant");
}

#[test]
fn removes_duplicate_chunk_text() {
    let p = planner();
    let results = vec![result("same text", 0.8), result("same text", 0.75)];
    let kept = p.filter_and_limit(results);
    assert_eq!(kept.len(), 1);
}

#[test]
fn keeps_at_least_one_result_even_if_it_exceeds_the_budget() {
    let p = RetrievalPlanner::new().with_config(5, 0.3f64.to_bits(), 10);
    let huge_text = "x".repeat(1000);
    let results = vec![result(&huge_text, 0.9)];
    let kept = p.filter_and_limit(results);
    assert_eq!(kept.len(), 1);
}

#[test]
fn truncates_a_chunk_larger_than_the_backend_hard_limit() {
    let p = planner();
    let oversized_text = "x".repeat(6_000);
    let results = vec![result(&oversized_text, 0.9)];
    let kept = p.filter_and_limit(results);
    assert_eq!(kept.len(), 1);
    assert!(kept[0].text.chars().count() <= MAX_CHUNK_CHARS);
}

#[test]
fn truncation_is_utf8_char_boundary_safe() {
    let mut text = "é".repeat(5_000);
    truncate_chunk_text(&mut text, MAX_CHUNK_CHARS);
    assert_eq!(text.chars().count(), MAX_CHUNK_CHARS);
}

#[test]
fn truncation_is_a_noop_when_already_within_limit() {
    let mut text = "short text".to_string();
    truncate_chunk_text(&mut text, MAX_CHUNK_CHARS);
    assert_eq!(text, "short text");
}

#[test]
fn stops_adding_results_once_context_budget_is_reached() {
    let p = RetrievalPlanner::new().with_config(5, 0.0f64.to_bits(), 30);
    let results = vec![
        result(&"a".repeat(15), 0.9),
        result(&"b".repeat(15), 0.8),
        result(&"c".repeat(15), 0.7),
    ];
    let kept = p.filter_and_limit(results);
    assert_eq!(kept.len(), 2);
}

#[test]
fn empty_results_returns_empty() {
    let p = planner();
    let kept = p.filter_and_limit(vec![]);
    assert!(kept.is_empty());
}

#[test]
fn all_below_threshold_returns_empty() {
    let p = planner();
    let results = vec![result("a", 0.1), result("b", 0.05)];
    let kept = p.filter_and_limit(results);
    assert!(kept.is_empty());
}

#[test]
fn a_failed_search_gives_no_passages() {
    assert!(planner().plan_for_question(Err("down".to_string())).is_empty());
}

#[test]
fn scores_are_compared_as_numbers() {
    assert!(is_less((-1.0f64).to_bits(), 0.5f64.to_bits()));
    assert!(!is_less(0.0f64.to_bits(), (-0.0f64).to_bits()));
    assert!(!is_less(f64::NAN.to_bits(), 1.0f64.to_bits()));
    assert!(is_less(0.29f64.to_bits(), 0.3f64.to_bits()));
}

#[test]
fn requests_to_the_retrieval_service_are_addressed() {
    let client = RagClient::new();
    assert_eq!(urlencode("a b/é"), "a%20b%2F%C3%A9");
    assert!(client
        .endpoint_for("/documents", &Some("x y".to_string()))
        .ends_with("/documents?agent_id=x%20y"));
    assert_eq!(PlainRequest::Health.unreachable("dns"), "RAG service unreachable: dns");
    assert_eq!(PlainRequest::SetThrottle.unreachable("dns"), "failed to reach RAG service: dns");
    assert_eq!(unreachable_error("dns"), "failed to reach RAG service: dns");
    assert_eq!(unexpected_error("eof"), "RAG service returned an unexpected response: eof");
    assert_eq!(json_text(&RagClient::new().throttle_body(true)), r#"{"active":true}"#);
    assert!(PlainRequest::Health.check_answer(200).is_ok());
    assert_eq!(
        PlainRequest::Health.check_answer(503),
        Err("RAG service health check returned 503 Service Unavailable".to_string())
    );
    assert_eq!(
        PlainRequest::DeleteDocument.check_answer(404),
        Err("failed to delete document: 404 Not Found".to_string())
    );
    assert_eq!(
        PlainRequest::ClearKnowledgeBase.check_answer(500),
        Err("failed to clear knowledge base: 500 Internal Server Error".to_string())
    );
    assert_eq!(
        PlainRequest::SetThrottle.check_answer(500),
        Err("failed to set RAG throttle: 500 Internal Server Error".to_string())
    );
    assert_eq!(answer_error(400, "bad"), "RAG service returned 400 Bad Request: bad");
    assert_eq!(document_text(404, Err("x".to_string())), Ok(None));
    assert_eq!(document_text(200, Ok("t".to_string())), Ok(Some("t".to_string())));
}

#[test]
fn the_retrieval_service_is_started_and_waited_for() {
    assert_eq!(token_text(&[0, 255, 16]), "00ff10");
    assert!(matches!(wait_until_healthy(10, WaitInput::Time(9)), WaitAction::Ask));
    assert!(matches!(wait_until_healthy(10, WaitInput::Time(10)), WaitAction::GiveUp));
    assert!(matches!(wait_until_healthy(10, WaitInput::Answer(true)), WaitAction::Healthy));
    assert!(matches!(wait_until_healthy(10, WaitInput::Answer(false)), WaitAction::Pause));
    let mut handle = RagServiceHandle::launched();
    assert!(handle.shutdown());
    assert!(!handle.shutdown());
    assert_eq!(
        handle.restart(Ok(false)),
        Err("RAG service venv not found — cannot restart".to_string())
    );
    assert!(handle.restart(Ok(true)).is_ok());
}

fn turn(q: &str, a: &str) -> (String, String) {
    (q.to_string(), a.to_string())
}

#[test]
fn history_keeps_the_most_recent_turns_oldest_first() {
    let turns: Vec<(String, String)> =
        (0..MAX_HISTORY_TURNS + 3).map(|i| turn(&format!("q{i}"), &format!("a{i}"))).collect();
    let trimmed = trim_history(turns);

    assert_eq!(trimmed.len(), MAX_HISTORY_TURNS);
    assert_eq!(trimmed.first().unwrap().question, "q3");
    assert_eq!(trimmed.last().unwrap().question, format!("q{}", MAX_HISTORY_TURNS + 2));
}

#[test]
fn empty_history_is_fine() {
    assert!(trim_history(Vec::new()).is_empty());
}

#[test]
fn ask_options_default_to_natural_default_length() {
    let options = AskOptions::default();
    assert_eq!(options.answer_length, "default");
    assert_eq!(options.response_style, "natural");
}

fn text_of(message: &AgentMessage) -> String {
    match &message.content[0] {
        AgentContent::Text(text) => text.clone(),
        _ => panic!("expected text content"),
    }
}

#[test]
fn build_system_message_includes_working_context_when_present() {
    let options = AskOptions::default();
    let message = build_system_message(
        "open vs code",
        &options,
        &Some("Current task: testing".to_string()),
        "Veronica",
    );
    assert!(text_of(&message).contains("Current task: testing"));
}

#[test]
fn build_system_message_omits_the_context_block_when_none() {
    let options = AskOptions::default();
    let message = build_system_message("what is rust", &options, &None, "Veronica");
    assert!(!text_of(&message).contains("CURRENT SESSION STATE"));
}

#[test]
fn dispatch_task_control_pause_with_no_active_task_says_so() {
    let mut working = WorkingState::default();
    let result = dispatch_task_control(&mut working, TaskControlOp::Pause);
    assert_eq!(result, "There's nothing running to pause.");
}

#[test]
fn dispatch_task_control_pause_then_resume_round_trips() {
    let mut working = WorkingState::default();
    working.start_task("find and fix the bug");
    let paused = dispatch_task_control(&mut working, TaskControlOp::Pause);
    assert_eq!(paused, "Paused.");
    let resumed = dispatch_task_control(&mut working, TaskControlOp::Resume);
    assert_eq!(resumed, "Resuming.");
}

#[test]
fn a_task_is_cancelled_once_there_is_one() {
    let mut working = WorkingState::default();
    assert_eq!(
        dispatch_task_control(&mut working, TaskControlOp::Cancel),
        "There's nothing running to cancel."
    );
    assert_eq!(
        dispatch_task_control(&mut working, TaskControlOp::Resume),
        "There's nothing paused to resume."
    );
    working.start_task("x");
    assert_eq!(dispatch_task_control(&mut working, TaskControlOp::Cancel), "Cancelled.");
    assert_eq!(working.current_task.unwrap().status, TaskStatus::Complete);
}

#[test]
fn the_same_question_is_not_taken_twice_in_a_row() {
    let mut claims = AskClaims::new();
    assert_eq!(
        accept_question(&mut claims, "  ", 0),
        Err("no question text to send".to_string())
    );
    assert_eq!(accept_question(&mut claims, " hi ", 0), Ok("hi".to_string()));
    assert_eq!(
        accept_question(&mut claims, "hi", 2499),
        Err("duplicate question already in flight".to_string())
    );
    assert_eq!(accept_question(&mut claims, "ho", 2499), Ok("ho".to_string()));
    assert_eq!(accept_question(&mut claims, "ho", 4999), Ok("ho".to_string()));
}

#[test]
fn a_new_turn_cancels_the_one_before() {
    let mut turns = AppState::default();
    let first = turns.begin_turn();
    assert!(!turns.is_cancelled(first));
    let second = turns.begin_turn();
    assert!(turns.is_cancelled(first));
    assert!(!turns.is_cancelled(second));
    assert!(!try_interrupt(&mut turns, false));
    assert!(!turns.is_cancelled(second));
    assert!(try_interrupt(&mut turns, true));
    assert!(turns.is_cancelled(second));
}

#[test]
fn small_decisions_around_a_turn() {
    assert_eq!(plan_voice(false, true), VoicePlan::Silent);
    assert_eq!(plan_voice(true, true), VoicePlan::Reuse);
    assert_eq!(plan_voice(true, false), VoicePlan::Open);
    assert_eq!(pick_greeting(0), "Yes, Sir?");
    assert_eq!(pick_greeting(7), "Go ahead, Sir.");
    assert_eq!(pick_greeting(999_999_999), "Online, Sir, and no, nothing's on fire.");
    assert_eq!(risk_wire_label(RiskLevel::Destructive), "destructive");
    assert_eq!(risk_wire_label(RiskLevel::Sensitive), "sensitive");
    assert_eq!(confirmation_summary(&delete_file()), "Delete file?");
    assert_eq!(confirmation_summary(&Capability::CaptureScreen), "Confirm action?");
}

fn delete_file() -> Capability<String> {
    Capability::StorageOp(StorageOp::DeleteFile { path: "x.txt".to_string() })
}

fn no_update() -> ContextUpdate {
    ContextUpdate { app: None, window: None, file: None, folder: None }
}

fn begin(assistant: &mut Assistant, text: &str, voice: bool) -> (Turn, TurnStep) {
    Turn::begin(assistant, "t1", text, AskOptions::default(), vec![], voice)
}

fn english(turn: &mut Turn, assistant: &mut Assistant) -> TurnStep {
    turn.step(
        assistant,
        TurnInput::Language {
            code: "en".to_string(),
            decision: LanguageDecision::Supported,
            rejection: "English only".to_string(),
            clarification: "Pardon?".to_string(),
        },
    )
}

fn answer(step: &TurnStep) -> Result<String, String> {
    match &step.request {
        TurnRequest::Finished(result) => result.clone(),
        other => panic!("not finished: {other:?}"),
    }
}

fn emitted(effects: &[Effect<String>]) -> Vec<(String, &'static str)> {
    effects
        .iter()
        .filter_map(|e| match e {
            Effect::Emit { turn_id, event } => Some((turn_id.clone(), event.channel())),
            _ => None,
        })
        .collect()
}

#[test]
fn what_is_not_understood_reaches_no_one() {
    let mut assistant = Assistant::default();
    let (mut t, first) = begin(&mut assistant, "grmbl", true);
    assert!(matches!(first.request, TurnRequest::DetectLanguage));
    let step = t.step(
        &mut assistant,
        TurnInput::Language {
            code: "unsupported".to_string(),
            decision: LanguageDecision::LowConfidence,
            rejection: "English only".to_string(),
            clarification: "Pardon?".to_string(),
        },
    );
    assert_eq!(answer(&step), Ok("Pardon?".to_string()));
    assert_eq!(step.effects[1], Effect::SpeakNow("Pardon?".to_string()));
    assert_eq!(
        emitted(&step.effects),
        vec![
            ("t1".to_string(), "veronica:language-detected"),
            ("t1".to_string(), "veronica:answer-delta"),
        ]
    );
}

#[test]
fn an_obvious_command_asks_no_model() {
    let mut assistant = Assistant::default();
    let (mut t, _) = begin(&mut assistant, "open notepad", false);
    assert!(matches!(english(&mut t, &mut assistant).request, TurnRequest::MatchRoute));
    let step = t.step(
        &mut assistant,
        TurnInput::Route(Some((
            Capability::LaunchOrFocusApp("notepad".to_string()),
            "LaunchOrFocusApp(\"notepad\")".to_string(),
        ))),
    );
    assert!(matches!(step.request, TurnRequest::Execute { confirmed: false, .. }));
    let step = t.step(
        &mut assistant,
        TurnInput::Executed {
            outcome: Ok(ToolOutcome::Text("Opening Notepad.".to_string())),
            described: "opened".to_string(),
            update: ContextUpdate { app: Some("notepad".to_string()), ..no_update() },
        },
    );
    assert_eq!(answer(&step), Ok("Opening Notepad.".to_string()));
    assert_eq!(assistant.working.current_app.as_deref(), Some("notepad"));
    assert_eq!(assistant.working.last_result.as_deref(), Some("Opening Notepad."));
}

fn withheld(assistant: &mut Assistant) {
    let (mut t, _) = begin(assistant, "delete x", false);
    english(&mut t, assistant);
    t.step(assistant, TurnInput::Route(Some((delete_file(), "delete".to_string()))));
    let step = t.step(
        assistant,
        TurnInput::Executed {
            outcome: Ok(ToolOutcome::NeedsConfirmation {
                capability: delete_file(),
                risk: RiskLevel::Destructive,
                voice_prompt: "Really?".to_string(),
            }),
            described: "delete".to_string(),
            update: no_update(),
        },
    );
    assert_eq!(answer(&step), Ok("Really?".to_string()));
    assert_eq!(
        emitted(&step.effects),
        vec![
            ("t1".to_string(), "veronica:action-complete"),
            ("t1".to_string(), "veronica:confirmation-requested"),
            ("t1".to_string(), "veronica:answer-delta"),
        ]
    );
}

#[test]
fn what_was_withheld_is_run_after_a_yes() {
    let mut assistant = Assistant::default();
    withheld(&mut assistant);
    assert!(assistant.pending.is_some());
    let (mut t, first) = begin(&mut assistant, "yes", false);
    assert!(matches!(first.request, TurnRequest::ClassifyReply));
    assert!(assistant.pending.is_none());
    let step = t.step(&mut assistant, TurnInput::Reply(Some(true)));
    match &step.request {
        TurnRequest::Execute { capability, confirmed } => {
            assert!(*confirmed);
            assert_eq!(*capability, delete_file());
        }
        other => panic!("{other:?}"),
    }
    let step = t.step(
        &mut assistant,
        TurnInput::Executed {
            outcome: Ok(ToolOutcome::Text("Deleted.".to_string())),
            described: "delete".to_string(),
            update: no_update(),
        },
    );
    assert_eq!(answer(&step), Ok("Deleted.".to_string()));
}

#[test]
fn a_no_ends_the_task() {
    let mut assistant = Assistant::default();
    assistant.working.start_task("tidy up");
    withheld(&mut assistant);
    let (mut t, _) = begin(&mut assistant, "no", true);
    let step = t.step(&mut assistant, TurnInput::Reply(Some(false)));
    assert_eq!(answer(&step), Ok("Okay, I won't do that.".to_string()));
    assert_eq!(step.effects[0], Effect::SpeakNow("Okay, I won't do that.".to_string()));
    assert_eq!(assistant.working.current_task.unwrap().status, TaskStatus::Complete);
}

#[test]
fn something_else_is_answered_as_usual() {
    let mut assistant = Assistant::default();
    withheld(&mut assistant);
    let (mut t, _) = begin(&mut assistant, "what time is it", false);
    let step = t.step(&mut assistant, TurnInput::Reply(None));
    assert!(matches!(step.request, TurnRequest::DetectLanguage));
    assert!(assistant.pending.is_none());
}

#[test]
fn a_button_answers_for_its_own_turn_only() {
    let mut assistant = Assistant::default();
    withheld(&mut assistant);
    assert!(awaits_consent(&assistant, "t1") && !awaits_consent(&assistant, "t0"));
    let late = respond_to_confirmation(&mut assistant, "t0", true, false);
    assert!(!awaits_consent(&assistant, "t1"));
    assert_eq!(late.err().unwrap(), "that confirmation has expired");
    assert!(assistant.pending.is_none());
    let none = respond_to_confirmation(&mut assistant, "t1", true, false);
    assert_eq!(none.err().unwrap(), "that confirmation has expired");
    withheld(&mut assistant);
    let (_t, step) = respond_to_confirmation(&mut assistant, "t1", true, false).ok().unwrap();
    assert!(matches!(step.request, TurnRequest::Execute { confirmed: true, .. }));
}

fn outcome(text: &str) -> AgentOutcome {
    AgentOutcome {
        final_text: text.to_string(),
        actions_taken: vec!["looked".to_string()],
        iterations_used: 1,
        pending_confirmation: None,
        messages: vec![],
    }
}

fn asked_model(assistant: &mut Assistant, voice: bool) -> Turn {
    let history = vec![PriorTurn { question: "q".to_string(), answer: "a".to_string() }];
    let (mut t, _) =
        Turn::begin(assistant, "t1", "why", AskOptions::default(), history, voice);
    english(&mut t, assistant);
    let step = t.step(assistant, TurnInput::Route(None));
    assert!(matches!(step.request, TurnRequest::MakeClient { provider: None }));
    let step = t.step(assistant, TurnInput::Client(Ok("Mark".to_string())));
    match &step.request {
        TurnRequest::RunAgent { messages, fresh } => {
            assert!(!*fresh);
            assert_eq!(messages.len(), 4);
            assert_eq!(messages[0].role, AgentRole::System);
            assert_eq!(text_of(&messages[1]), "q");
            assert_eq!(text_of(&messages[2]), "a");
            assert_eq!(text_of(&messages[3]), "why");
        }
        other => panic!("{other:?}"),
    }
    t
}

#[test]
fn an_answer_is_shown_and_spoken_as_it_comes() {
    let mut assistant = Assistant::default();
    let mut t = asked_model(&mut assistant, true);
    let step = t.step(&mut assistant, TurnInput::Delta("Because. And".to_string()));
    assert_eq!(
        step.effects,
        vec![
            Effect::AppendDelta { turn_id: "t1".to_string(), delta: "Because. And".to_string() },
            Effect::Emit {
                turn_id: "t1".to_string(),
                event: TurnEvent::AnswerDelta { delta: "Because. And".to_string() },
            },
            Effect::Speak("Because.".to_string()),
        ]
    );
    let step = t.step(&mut assistant, TurnInput::Progress("Looking".to_string()));
    assert_eq!(step.effects[2], Effect::Speak("Looking ".to_string()));
    assert_eq!(
        step.effects[0],
        Effect::AppendDelta { turn_id: "t1".to_string(), delta: "\n\nLooking".to_string() }
    );
    let step = t.step(&mut assistant, TurnInput::AgentDone(Ok(outcome("Because. And"))));
    assert_eq!(step.effects, vec![Effect::Speak("And".to_string()), Effect::FinishSpeech]);
    assert_eq!(answer(&step), Ok("Because. And".to_string()));
    assert_eq!(assistant.working.recent_actions.back().unwrap(), "looked");
}

#[test]
fn a_missing_client_is_the_turns_error() {
    let mut assistant = Assistant::default();
    let (mut t, _) = begin(&mut assistant, "why", false);
    english(&mut t, &mut assistant);
    t.step(&mut assistant, TurnInput::Route(None));
    let step = t.step(&mut assistant, TurnInput::Client(Err("no key".to_string())));
    assert_eq!(answer(&step), Err("no key".to_string()));
}

#[test]
fn the_agent_goes_on_after_consent() {
    let mut assistant = Assistant::default();
    let mut t = asked_model(&mut assistant, false);
    let mut paused = outcome("");
    paused.messages = vec![AgentMessage::user_text("why")];
    paused.pending_confirmation = Some(PendingToolConfirmation {
        capability: delete_file(),
        risk: RiskLevel::Destructive,
        voice_prompt: "Really?".to_string(),
        tool_use_id: "c1".to_string(),
        tool_name: "delete_file".to_string(),
    });
    let step = t.step(&mut assistant, TurnInput::AgentDone(Ok(paused)));
    assert_eq!(answer(&step), Ok("Really?".to_string()));
    let (mut t, _) = begin(&mut assistant, "yes", false);
    t.step(&mut assistant, TurnInput::Reply(Some(true)));
    let step = t.step(
        &mut assistant,
        TurnInput::Executed {
            outcome: Err("in use".to_string()),
            described: "delete".to_string(),
            update: no_update(),
        },
    );
    assert!(matches!(step.request, TurnRequest::MakeClient { provider: None }));
    let step = t.step(&mut assistant, TurnInput::Client(Ok("Veronica".to_string())));
    match &step.request {
        TurnRequest::RunAgent { messages, fresh } => {
            assert!(*fresh);
            match &messages[1].content[0] {
                AgentContent::ToolResult { tool_use_id, text, is_error, .. } => {
                    assert_eq!((tool_use_id.as_str(), text.as_str()), ("c1", "in use"));
                    assert!(*is_error);
                }
                other => panic!("{other:?}"),
            }
        }
        other => panic!("{other:?}"),
    }
    let step = t.step(&mut assistant, TurnInput::AgentDone(Err("down".to_string())));
    assert_eq!(answer(&step), Ok("in use".to_string()));
}

#[test]
fn every_turn_ends_with_an_answer_complete() {
    let (effects, result) = conclude("t1", Ok("yes".to_string()), false, true);
    assert_eq!(result, Ok("yes".to_string()));
    assert_eq!(
        effects.last().unwrap(),
        &Effect::Emit {
            turn_id: "t1".to_string(),
            event: TurnEvent::AnswerComplete { answer: "yes".to_string(), cancelled: false },
        }
    );
    let (effects, result) = conclude("t1", Ok("yes".to_string()), true, true);
    assert_eq!(result, Err("cancelled".to_string()));
    assert_eq!(
        effects.last().unwrap(),
        &Effect::Emit {
            turn_id: "t1".to_string(),
            event: TurnEvent::AnswerComplete { answer: String::new(), cancelled: true },
        }
    );
    let (effects, result) = conclude("t1", Err("down".to_string()), false, true);
    assert_eq!(result, Err("down".to_string()));
    assert_eq!(effects.len(), 4);
    assert_eq!(
        effects[0],
        Effect::Emit {
            turn_id: "t1".to_string(),
            event: TurnEvent::Error { message: "Sorry, I ran into a problem: down".to_string() },
        }
    );
    assert_eq!(
        opening("t1", "why", true),
        vec![
            Effect::CreateTurn { turn_id: "t1".to_string(), text: "why".to_string() },
            Effect::StopSpeech,
            Effect::Emit { turn_id: "t1".to_string(), event: TurnEvent::ThinkingStart },
        ]
    );
}

#[test]
fn a_pending_confirmation_is_replaced_by_the_next() {
    let mut assistant = Assistant::default();
    assistant.pending = Some(PendingConfirmation {
        turn_id: "t1".to_string(),
        capability: delete_file(),
        risk: RiskLevel::Destructive,
        messages: vec![],
        tool_use_id: "c1".to_string(),
        tool_name: "delete_file".to_string(),
    });
    let (mut t, _) = respond_to_confirmation(&mut assistant, "t1", true, false).ok().unwrap();
    t.step(
        &mut assistant,
        TurnInput::Executed {
            outcome: Ok(ToolOutcome::Image { media_type: "image/png", png_bytes: vec![] }),
            described: "delete".to_string(),
            update: no_update(),
        },
    );
    t.step(&mut assistant, TurnInput::Client(Ok("Veronica".to_string())));
    let mut again = outcome("");
    again.pending_confirmation = Some(PendingToolConfirmation {
        capability: Capability::CaptureScreen,
        risk: RiskLevel::Sensitive,
        voice_prompt: "And this?".to_string(),
        tool_use_id: "c2".to_string(),
        tool_name: "capture_screen".to_string(),
    });
    let step = t.step(&mut assistant, TurnInput::AgentDone(Ok(again)));
    assert_eq!(answer(&step), Ok("And this?".to_string()));
    assert_eq!(assistant.pending.as_ref().unwrap().tool_use_id, "c2");
    assert_eq!(assistant.working.last_result.as_deref(), Some("Done."));
}

const MS: u128 = 1_000_000;

fn chunk(now_ms: u128, speaking: bool, loud: bool) -> MicChunk {
    MicChunk { user_muted: false, speaking, loud, now: now_ms * MS, pending: 0 }
}

#[test]
fn the_microphone_is_withheld_while_the_assistant_speaks() {
    let mut pump = MicPump::new(tts_settle_duration(&None), min_flush_worthy_audio(&None));
    assert!(pump.take(chunk(0, false, false)).send);
    let entered = pump.take(MicChunk { pending: 400 * MS, ..chunk(10, true, false) });
    assert!(entered.flush && !entered.discard && !entered.send);
    assert_eq!(entered.speaking_changed, Some(true));
    assert!(!pump.take(chunk(20, true, true)).send);
    let settling = pump.take(chunk(30, false, true));
    assert!(!settling.send && settling.speaking_changed.is_none());
    assert!(!pump.take(chunk(179, false, false)).send);
    let heard = pump.take(chunk(180, false, false));
    assert!(heard.send);
    assert_eq!(heard.speaking_changed, Some(false));
}

#[test]
fn the_user_can_talk_over_the_assistant() {
    let mut pump = MicPump::new(150 * MS, 350 * MS);
    let entered = pump.take(MicChunk { pending: 100 * MS, ..chunk(0, true, true) });
    assert!(entered.discard && !entered.flush);
    assert!(!pump.take(chunk(179, true, true)).interrupt);
    assert!(!pump.take(chunk(180, true, false)).interrupt);
    assert!(!pump.take(chunk(200, true, true)).interrupt);
    let over = pump.take(chunk(380, true, true));
    assert!(over.interrupt && over.send);
    assert_eq!(over.speaking_changed, Some(false));
}

#[test]
fn a_muted_microphone_hears_nothing() {
    let mut pump = MicPump::new(150 * MS, 350 * MS);
    let muted = MicChunk { user_muted: true, ..chunk(0, true, true) };
    let first = pump.take(muted);
    assert!(first.flush && !first.send);
    let second = pump.take(MicChunk { now: 999 * MS, ..muted });
    assert!(!second.flush && !second.send && !second.interrupt);
    assert!(pump.take(chunk(1000, false, false)).send);
}

#[test]
fn there_is_one_session_of_listening() {
    let mut session = MicAssistantSession::default();
    let mut flags = MuteFlags::default();
    let mute = MicMuteSignal::new(&mut flags);
    assert_eq!(session.stop(mute, &mut flags), Err("mic assistant is not running".to_string()));
    assert!(session.check_start().is_ok());
    session.started();
    assert_eq!(session.check_start(), Err("mic assistant already running".to_string()));
    mute.set_muted(&mut flags, true);
    assert!(session.stop(mute, &mut flags).is_ok());
    assert!(!mute.is_muted(&flags));
    assert_eq!(tts_settle_duration(&Some(" 20 ".to_string())), 20 * MS);
    assert_eq!(min_flush_worthy_audio(&Some("x".to_string())), 350 * MS);
}

#[test]
fn the_newest_is_listed_first() {
    assert_eq!(order_by_time(&vec![5, 9, 5, 7]), vec![1, 3, 0, 2]);
    assert_eq!(order_by_time(&vec![]), Vec::<usize>::new());
}

#[test]
fn identifiers_name_what_when_and_which() {
    assert_eq!(new_id("note", 255, 16), "note-ff-10");
    assert_ne!(new_id("note", 1, 17), new_id("note", 17, 1));
}

#[test]
fn notes_are_made_changed_found_and_deleted() {
    let mut store = NotesStore::default();
    assert!(store.is_empty());
    let first = store.create_note(
        10,
        0,
        "Groceries".to_string(),
        "Buy MILK".to_string(),
        Some("  ".to_string()),
        Some(vec!["Home".to_string()]),
    );
    assert_eq!(first.id, "note-a-0");
    assert_eq!(first.project, None);
    let second =
        store.create_note(20, 1, "Work".to_string(), "Report".to_string(), Some("Acme".to_string()), None);
    let ids = |notes: Vec<smallbird_local::notes_mode::Note>| {
        notes.into_iter().map(|n| n.id).collect::<Vec<String>>()
    };
    assert_eq!(ids(store.list_notes()), vec![second.id.clone(), first.id.clone()]);
    assert_eq!(ids(store.search_notes(" milk ")), vec![first.id.clone()]);
    assert_eq!(ids(store.search_notes("acme")), vec![second.id.clone()]);
    assert_eq!(ids(store.search_notes("HOME")), vec![first.id.clone()]);
    assert_eq!(ids(store.search_notes("")).len(), 2);
    assert!(store.search_notes("nothing of it").is_empty());
    let changes = NoteChanges {
        title: None,
        body: Some("Buy bread".to_string()),
        project: None,
        tags: None,
        linked_note_ids: Some(vec![second.id.clone()]),
    };
    let updated = store.update_note(&first.id, changes, 30).unwrap();
    assert_eq!((updated.title.as_str(), updated.body.as_str()), ("Groceries", "Buy bread"));
    assert_eq!((updated.created_at_ms, updated.updated_at_ms), (10, 30));
    assert_eq!(store.get_note(&first.id).unwrap().body, "Buy bread");
    assert_eq!(store.get_note(&second.id).unwrap().body, "Report");
    assert_eq!(ids(store.list_notes()), vec![first.id.clone(), second.id.clone()]);
    let none = NoteChanges { title: None, body: None, project: None, tags: None, linked_note_ids: None };
    assert_eq!(store.update_note("x", none, 40).unwrap_err(), "note not found");
    store.delete_note(&first.id);
    assert!(store.get_note(&first.id).is_none());
    assert_eq!(store.notes().len(), 1);
    store.ensure_loaded(vec![]);
    assert_eq!(store.notes().len(), 1);
}

#[test]
fn dictation_is_put_together() {
    let mut buffer = DictationBuffer::default();
    let mut session = DictationSession::default();
    buffer.add("old");
    assert!(session.prepare(&mut buffer).is_ok());
    session.started();
    assert_eq!(session.prepare(&mut buffer), Err("dictation already running".to_string()));
    buffer.add(" Hello ");
    buffer.add("world.");
    assert_eq!(session.stop(&buffer), "Hello world.");
    assert_eq!(buffer.text(), "Hello world.");
}

#[test]
fn meetings_are_noted_and_kept() {
    let mut session = MeetingSession::default();
    assert_eq!(
        session.track_meeting_item(MeetingItemKind::Decision, "  "),
        Err("cannot track an empty item".to_string())
    );
    session.track_meeting_item(MeetingItemKind::Decision, " ship ").unwrap();
    session.track_meeting_item(MeetingItemKind::KeyPoint, "k").unwrap();
    session.track_meeting_item(MeetingItemKind::ActionItem, "a").unwrap();
    let turns = vec![MeetingTurnPayload { speaker: "ME".to_string(), text: "hi".to_string() }];
    let request = session.end_meeting(&turns, Some("Standup".to_string()), None);
    assert_eq!(request.decisions, vec!["ship".to_string()]);
    assert_eq!(request.key_points, vec!["k".to_string()]);
    assert_eq!(request.action_items, vec!["a".to_string()]);
    assert_eq!(request.turns[0].text, "hi");
    session.clear_meeting_session();
    assert!(session.end_meeting(&turns, None, None).decisions.is_empty());
    assert_eq!(MeetingAskOptions::default().answer_length, "default");

    let summary = || MeetingSummary {
        summary: "s".to_string(),
        key_points: vec![],
        decisions: vec![],
        action_items: vec![],
        next_steps: vec![],
        message: String::new(),
    };
    let said = || vec![MeetingHistoryTurn { speaker: "ME".to_string(), text: "hi".to_string() }];
    let mut store = MeetingHistoryStore::default();
    assert!(store.archive_meeting(9, 0, 1, None, None, vec![], summary()).is_none());
    assert!(store.is_empty());
    let first = store
        .archive_meeting(9, 0, 1, Some(" ".to_string()), Some("Ann".to_string()), said(), summary())
        .unwrap();
    assert_eq!(first.id, "meeting-9-0");
    assert_eq!((first.meeting_title, first.participants), (None, Some("Ann".to_string())));
    let second = store.archive_meeting(9, 1, 5, None, None, said(), summary()).unwrap();
    let listed = store.list_meeting_history();
    assert_eq!(listed[0].id, second.id);
    assert_eq!(listed[1].id, first.id);
    store.delete_meeting_history_entry(&first.id);
    assert_eq!(store.entries().len(), 1);
    assert_eq!(store.entries()[0].id, second.id);
}

#[test]
fn windows_are_shown_and_hidden_in_order() {
    let (actions, status) = show_overlay_window(false, true);
    assert_eq!(actions.first(), Some(&WindowAction::BuildOverlay));
    assert_eq!(actions.last(), Some(&WindowAction::HideMain));
    assert!(!status.excluded);
    assert_eq!(
        close_overlay_window(true, true),
        vec![
            WindowAction::HideOverlay,
            WindowAction::ShowMain,
            WindowAction::FocusMain,
            WindowAction::TellClosed,
        ]
    );
    assert_eq!(toggle_overlay_window(Some(true), false).0, close_overlay_window(true, false));
    assert!(toggle_overlay_window(Some(true), false).1.excluded);
    assert_eq!(toggle_overlay_window(Some(false), false).0, show_overlay_window(true, false).0);
    assert!(app_was_fully_hidden(None, Some(false)));
    assert!(!app_was_fully_hidden(Some(true), None));
    assert_eq!(wake_veronica(None, None).last(), Some(&WindowAction::TellAutoOpened));
    assert_eq!(wake_veronica(Some(true), None).last(), Some(&WindowAction::HideMain));
    assert_eq!(
        show_widget(true, false),
        vec![
            WindowAction::YieldToWidget,
            WindowAction::BuildWidget,
            WindowAction::DockWidget,
            WindowAction::AllowWidgetCapture,
            WindowAction::ShowWidget,
        ]
    );
    assert!(start_backend_session().rejection.is_none());
}

#[test]
fn pauses_do_not_count_towards_a_session() {
    let mut session = InterviewSession::new(1_000, 0);
    session.mark_paused(2_000);
    session.mark_paused(3_000);
    assert_eq!(session.elapsed_ms(9_000), 1_000);
    session.mark_resumed(5_000);
    assert_eq!(session.elapsed_ms(6_000), 2_000);
    session.mark_stopped(7_000);
    assert_eq!(session.elapsed_ms(99_000), 3_000);
}

fn heard(kind: SttEventKind, text: &str, source: AudioSource) -> SttEvent {
    SttEvent { kind, text: text.to_string(), source, start_time: None, end_time: None }
}

#[test]
fn an_utterance_is_one_segment_of_its_source() {
    let mut manager = TranscriptManager::new(0, 0);
    let first = manager
        .apply_event(heard(SttEventKind::Partial, "hel", AudioSource::Microphone), 1, 1)
        .unwrap();
    manager.apply_event(heard(SttEventKind::Partial, "other", AudioSource::SystemAudio), 2, 2);
    let done = manager
        .apply_event(heard(SttEventKind::Final, "hello there", AudioSource::Microphone), 3, 3)
        .unwrap();
    assert_eq!(done.id, first.id);
    assert_eq!(done.source, AudioSource::Microphone);
    assert_eq!(done.final_text.as_deref(), Some("hello there"));
    let next = manager
        .apply_event(heard(SttEventKind::Partial, "new", AudioSource::Microphone), 4, 4)
        .unwrap();
    assert_ne!(next.id, first.id);
    assert_eq!(manager.session().full_transcript_text(), "hello there");
    assert_eq!(manager.session().word_count(), 2);
}

#[test]
fn json_is_read_and_compared() {
    assert_eq!(
        parse_json(r#"{"b": [1, -2, 0.5, true, null, "x"]}"#).unwrap().get("b").unwrap().as_array().unwrap().len(),
        6
    );
    assert!(parse_json("{").is_err());
    assert_eq!(parse_json("\"x\"").unwrap(), Json::Text("x".to_string()));
}

#[test]
fn json_is_written_compactly() {
    let value = parse_json(r#"{ "b": [1, -2, 0.5, true, null], "a": "\"" }"#).unwrap();
    assert_eq!(json_text(&value), r#"{"a":"\"","b":[1,-2,0.5,true,null]}"#);
    assert_eq!(parse_json(&json_text(&value)).unwrap(), value);
}

#[test]
fn the_retrieval_service_is_launched_from_what_is_there() {
    let config = EmbedProcessConfig { embed_batch_size: 8, torch_threads: 2 };
    assert!(RagServiceHandle::plan_spawn(&None, &None, config, "tok").is_none());
    let frozen = RagServiceHandle::plan_spawn(
        &Some("rag.exe".to_string()),
        &Some("python.exe".to_string()),
        config,
        "tok",
    )
    .unwrap();
    assert_eq!(frozen.program, "rag.exe");
    assert!(!frozen.in_package_dir);
    assert!(frozen.env.contains(&("RAG_ENV".to_string(), "production".to_string())));
    assert!(frozen.env.contains(&("RAG_INTERNAL_TOKEN".to_string(), "tok".to_string())));
    let dev =
        RagServiceHandle::plan_spawn(&None, &Some("python.exe".to_string()), config, "tok").unwrap();
    assert_eq!(dev.program, "python.exe");
    assert!(dev.in_package_dir);
    assert_eq!(dev.args.last().unwrap(), "8100");
    assert!(dev.env.contains(&("RAG_TORCH_THREADS".to_string(), "2".to_string())));
    assert_eq!(wait_until_healthy_default(5), 60_005);
    assert_eq!(wait_until_healthy_default(u64::MAX), u64::MAX);
}

#[test]
fn searches_are_put_to_the_retrieval_service() {
    let client = RagClient::default();
    let body = client.search_body("rust", 5, &None);
    assert_eq!(json_text(&body), r#"{"agent_id":null,"query":"rust","top_k":5}"#);
    assert!(client.document_endpoint("d1", "/text").ends_with("/documents/d1/text"));
    let planner = RetrievalPlanner::new().with_timeout(250).with_agent_scope("a1");
    assert_eq!(planner.timeout_ms, Some(250));
    assert_eq!(planner.agent_id.as_deref(), Some("a1"));
}

#[test]
fn devices_are_remembered() {
    let mut devices = SelectedDevices::default();
    assert_eq!((devices.input(), devices.output()), (None, None));
    devices.set_input(Some("mic".to_string()));
    devices.set_output(Some("speaker".to_string()));
    assert_eq!(devices.input().as_deref(), Some("mic"));
    assert_eq!(devices.output().as_deref(), Some("speaker"));
}

#[test]
fn a_silent_turn_speaks_no_recovery_line() {
    let (effects, _) = conclude("t1", Err("down".to_string()), false, false);
    assert_eq!(effects.len(), 3);
    assert!(effects.iter().all(|e| !matches!(e, Effect::SpeakNow(_) | Effect::Speak(_))));
}

#[test]
fn the_present_turn_is_known() {
    let mut turns = AppState::default();
    turns.cancel_current_turn();
    assert!(turns.current_turn().is_none());
    let token = turns.begin_turn();
    let present = turns.current_turn().unwrap();
    assert!(!turns.is_cancelled(token) && !turns.is_cancelled(present));
    turns.cancel_current_turn();
    assert!(turns.is_cancelled(token) && turns.is_cancelled(present));
}

#[test]
fn copies_of_a_token_are_one_token() {
    let mut flags = CancelFlags::default();
    let token = CancelToken::new(&mut flags);
    let copy = token.clone();
    let other = CancelToken::new(&mut flags);
    assert!(!token.is_cancelled(&flags) && !copy.is_cancelled(&flags));
    copy.cancel(&mut flags);
    assert!(token.is_cancelled(&flags) && copy.is_cancelled(&flags));
    assert!(!other.is_cancelled(&flags));
    other.cancel(&mut flags);
    CancelToken::new(&mut flags);
    assert!(token.is_cancelled(&flags));
}

#[test]
fn copies_of_a_mute_are_one_mute() {
    let mut flags = MuteFlags::default();
    let mute = MicMuteSignal::new(&mut flags);
    let other = MicMuteSignal::new(&mut flags);
    let copy = mute.clone();
    assert!(!mute.is_muted(&flags));
    copy.set_muted(&mut flags, true);
    assert!(mute.is_muted(&flags));
    assert!(!other.is_muted(&flags));
    mute.set_muted(&mut flags, false);
    assert!(!copy.is_muted(&flags));
}
